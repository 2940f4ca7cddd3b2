//! The part of a game that its entities may read and write while they are
//! updated: the frame's input, the round's selection and the sounds.

use vstd::prelude::*;
use crate::card::{empty_card, Card, CardView};
use crate::input::{InputEvent, Key};
use crate::resource_location::{ResourceLocation, ResourceLocationView};
use crate::sound::{
    find_sound, first_match, has_sound, lemma_first_match_unique, request_views, resolve,
    resolve_sound, sound_views, Sound, SoundRequest, SoundRequestView, SoundView,
};
use crate::turn::Turn;

verus! {

/// The state that is shared between the game and its entities.
#[derive(Debug)]
pub struct Session {
    /// The events since the last frame, oldest first.
    pub events: Vec<InputEvent>,
    /// The keys that are held down.
    pub held_keys: Vec<Key>,
    /// Where the pointer is, in screen space.
    pub mouse: (i32, i32),
    /// How many cards of the round have been picked: 0, 1 or 2.
    pub selected_count: u8,
    /// The two picks of the round; the placeholder where nothing was picked.
    pub selected_cards: (Card, Card),
    /// Whose move it is.
    pub current_turn: Turn,
    /// Whether the last evaluated round was a match that is still to be
    /// carried out.
    pub prev_success: bool,
    /// Whether the pointer is to be drawn as a finger.
    pub use_finger: bool,
    /// The sounds that can be played.
    pub sounds: Vec<Sound>,
    /// What the audio output has been asked to do and has not yet taken.
    pub playback: Vec<SoundRequest>,
}

/// A session as mathematical values.
pub struct SessionView {
    pub events: Seq<InputEvent>,
    pub held_keys: Seq<Key>,
    pub mouse: (i32, i32),
    pub selected_count: u8,
    pub selected_cards: (CardView, CardView),
    pub current_turn: Turn,
    pub prev_success: bool,
    pub use_finger: bool,
    pub sounds: Seq<SoundView>,
    pub playback: Seq<SoundRequestView>,
}

impl SessionView {
    /// The session after a request to play `location`.
    pub open spec fn play(self, location: ResourceLocationView) -> SessionView {
        SessionView { playback: self.playback.push(resolve(self.sounds, location)), ..self }
    }

    /// The session after `card` has been picked: it takes the first free
    /// slot, and nothing changes when both are taken.
    pub open spec fn select(self, card: CardView) -> SessionView {
        if self.selected_count == 0 {
            SessionView {
                selected_count: 1,
                selected_cards: (card, self.selected_cards.1),
                ..self
            }
        } else if self.selected_count == 1 {
            SessionView {
                selected_count: 2,
                selected_cards: (self.selected_cards.0, card),
                ..self
            }
        } else {
            self
        }
    }

    /// The place of the first sound under `key`, if there is one.
    pub open spec fn sound_index(self, key: Seq<char>) -> Option<int> {
        if has_sound(self.sounds, key) {
            Some(first_match(self.sounds, key))
        } else {
            None
        }
    }

    /// The session after `sound` has been made known: it replaces the
    /// sound that was known under the same string form, or joins the
    /// catalog at its end.
    pub open spec fn with_sound(self, sound: SoundView) -> SessionView {
        SessionView {
            sounds: match self.sound_index(sound.resource_location.canonical()) {
                Some(i) => self.sounds.update(i, sound),
                None => self.sounds.push(sound),
            },
            ..self
        }
    }

    /// A session in which no round is under way.
    pub open spec fn fresh() -> SessionView {
        SessionView {
            events: Seq::empty(),
            held_keys: Seq::empty(),
            mouse: (0i32, 0i32),
            selected_count: 0,
            selected_cards: (empty_card(), empty_card()),
            current_turn: Turn::Player1,
            prev_success: false,
            use_finger: false,
            sounds: Seq::empty(),
            playback: Seq::empty(),
        }
    }
}

impl View for Session {
    type V = SessionView;

    open spec fn view(&self) -> SessionView {
        SessionView {
            events: self.events@,
            held_keys: self.held_keys@,
            mouse: self.mouse,
            selected_count: self.selected_count,
            selected_cards: (self.selected_cards.0@, self.selected_cards.1@),
            current_turn: self.current_turn,
            prev_success: self.prev_success,
            use_finger: self.use_finger,
            sounds: sound_views(self.sounds@),
            playback: request_views(self.playback@),
        }
    }
}

impl Session {
    /// A session with no input, no pick, no sound, and the first player to
    /// move.
    pub fn new() -> (r: Session)
        ensures
            r@ == SessionView::fresh(),
    {
        let r = Session {
            events: Vec::new(),
            held_keys: Vec::new(),
            mouse: (0, 0),
            selected_count: 0,
            selected_cards: (Card::empty(), Card::empty()),
            current_turn: Turn::Player1,
            prev_success: false,
            use_finger: false,
            sounds: Vec::new(),
            playback: Vec::new(),
        };
        assert(r@.sounds =~= Seq::empty());
        assert(r@.playback =~= Seq::empty());
        r
    }

    /// Asks for the sound `location` to be played. The request joins the
    /// queue as the file to play, or as a note that the key is unknown.
    pub fn play_sound(&mut self, location: &ResourceLocation)
        ensures
            final(self)@ == old(self)@.play(location@),
    {
        let request = resolve_sound(&self.sounds, location);
        self.playback.push(request);
        assert(self@.playback =~= old(self)@.playback.push(resolve(old(self)@.sounds, location@)));
    }

    /// Picks `card` for the round, if a slot is free.
    pub fn select(&mut self, card: &Card)
        ensures
            final(self)@ == old(self)@.select(card@),
    {
        if self.selected_count == 0 {
            self.selected_count = 1;
            self.selected_cards.0 = card.clone();
        } else if self.selected_count == 1 {
            self.selected_count = 2;
            self.selected_cards.1 = card.clone();
        }
    }

    /// Makes `sound` known under its key's string form. A sound that was
    /// known under the same form is replaced, in its place.
    pub fn register_sound(&mut self, sound: Sound)
        ensures
            final(self)@ == old(self)@.with_sound(sound@),
    {
        let key = sound.resource_location.to_string();
        match find_sound(&self.sounds, &key) {
            Some(i) => {
                proof {
                    lemma_first_match_unique(old(self)@.sounds, key@, i as int);
                }
                self.sounds.set(i, sound);
                assert(self@.sounds =~= old(self)@.sounds.update(i as int, sound@));
            },
            None => {
                self.sounds.push(sound);
                assert(self@.sounds =~= old(self)@.sounds.push(sound@));
            },
        }
    }

    /// Hands over what the audio output was asked to do, oldest first, and
    /// empties the queue.
    pub fn take_playback(&mut self) -> (r: Vec<SoundRequest>)
        ensures
            request_views(r@) == old(self)@.playback,
            final(self)@ == (SessionView { playback: Seq::empty(), ..old(self)@ }),
    {
        let mut taken: Vec<SoundRequest> = Vec::new();
        std::mem::swap(&mut taken, &mut self.playback);
        assert(self@.playback =~= Seq::empty());
        taken
    }
}

} // verus!
