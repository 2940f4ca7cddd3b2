//! The sounds the game knows, and what it asks the audio output to do.

use vstd::prelude::*;
use crate::resource_location::{ResourceLocation, ResourceLocationView};

verus! {

/// A playable sound: the file that holds it and the key it is found under.
#[derive(Debug)]
pub struct Sound {
    pub path: String,
    pub resource_location: ResourceLocation,
}

/// A sound as mathematical values.
pub struct SoundView {
    pub path: Seq<char>,
    pub resource_location: ResourceLocationView,
}

impl View for Sound {
    type V = SoundView;

    open spec fn view(&self) -> SoundView {
        SoundView { path: self.path@, resource_location: self.resource_location@ }
    }
}

impl Clone for Sound {
    fn clone(&self) -> (r: Self)
        ensures
            r@ == self@,
    {
        Sound { path: self.path.clone(), resource_location: self.resource_location.clone() }
    }
}

/// What the audio output is asked to do for one request of the game.
#[derive(Debug)]
pub enum SoundRequest {
    /// Play the file at this path.
    Play(String),
    /// Nothing is known under this key: warn, and play nothing.
    Missing(String),
}

/// A request as mathematical values.
pub enum SoundRequestView {
    Play(Seq<char>),
    Missing(Seq<char>),
}

impl View for SoundRequest {
    type V = SoundRequestView;

    open spec fn view(&self) -> SoundRequestView {
        match self {
            SoundRequest::Play(path) => SoundRequestView::Play(path@),
            SoundRequest::Missing(key) => SoundRequestView::Missing(key@),
        }
    }
}

/// The views of a catalog's sounds, in order.
pub open spec fn sound_views(sounds: Seq<Sound>) -> Seq<SoundView> {
    Seq::new(sounds.len(), |i: int| sounds[i]@)
}

/// The views of a queue's requests, in order.
pub open spec fn request_views(requests: Seq<SoundRequest>) -> Seq<SoundRequestView> {
    Seq::new(requests.len(), |i: int| requests[i]@)
}

/// Whether `i` is the first place of the catalog whose key reads `key`.
pub open spec fn is_first_match(catalog: Seq<SoundView>, key: Seq<char>, i: int) -> bool {
    &&& 0 <= i < catalog.len()
    &&& catalog[i].resource_location.canonical() == key
    &&& forall|j: int| 0 <= j < i ==> (#[trigger] catalog[j]).resource_location.canonical() != key
}

/// Whether the catalog holds a sound under `key`.
pub open spec fn has_sound(catalog: Seq<SoundView>, key: Seq<char>) -> bool {
    exists|i: int| 0 <= i < catalog.len() && (#[trigger] catalog[i]).resource_location.canonical()
        == key
}

/// The first place of the catalog whose key reads `key`.
pub open spec fn first_match(catalog: Seq<SoundView>, key: Seq<char>) -> int {
    choose|i: int| is_first_match(catalog, key, i)
}

/// What a request for the sound `location` comes to: the file of the first
/// sound under its string form, or a note that there is none.
pub open spec fn resolve(catalog: Seq<SoundView>, location: ResourceLocationView)
    -> SoundRequestView {
    if has_sound(catalog, location.canonical()) {
        SoundRequestView::Play(catalog[first_match(catalog, location.canonical())].path)
    } else {
        SoundRequestView::Missing(location.canonical())
    }
}

/// The first match is the only place that is one.
pub proof fn lemma_first_match_unique(catalog: Seq<SoundView>, key: Seq<char>, i: int)
    requires
        is_first_match(catalog, key, i),
    ensures
        has_sound(catalog, key),
        first_match(catalog, key) == i,
{
    let j = first_match(catalog, key);
    assert(is_first_match(catalog, key, j));
    if j < i {
        assert(catalog[j].resource_location.canonical() != key);
    }
    if i < j {
        assert(catalog[i].resource_location.canonical() != key);
    }
}

/// Looks a key up in a catalog: the first place that holds it, if any.
pub fn find_sound(catalog: &Vec<Sound>, key: &String) -> (r: Option<usize>)
    ensures
        match r {
            Some(i) => is_first_match(sound_views(catalog@), key@, i as int),
            None => !has_sound(sound_views(catalog@), key@),
        },
{
    let mut i: usize = 0;
    while i < catalog.len()
        invariant
            i <= catalog.len(),
            forall|j: int|
                0 <= j < i ==> (#[trigger] sound_views(catalog@)[j]).resource_location.canonical()
                    != key@,
        decreases catalog.len() - i,
    {
        let candidate = catalog[i].resource_location.to_string();
        if candidate == *key {
            assert(sound_views(catalog@)[i as int] == catalog@[i as int]@);
            return Some(i);
        }
        assert(sound_views(catalog@)[i as int] == catalog@[i as int]@);
        i += 1;
    }
    None
}

/// What a request for `location` comes to.
pub fn resolve_sound(catalog: &Vec<Sound>, location: &ResourceLocation) -> (r: SoundRequest)
    ensures
        r@ == resolve(sound_views(catalog@), location@),
{
    let key = location.to_string();
    match find_sound(catalog, &key) {
        Some(i) => {
            proof {
                lemma_first_match_unique(sound_views(catalog@), key@, i as int);
            }
            SoundRequest::Play(catalog[i].path.clone())
        },
        None => SoundRequest::Missing(key),
    }
}

} // verus!
