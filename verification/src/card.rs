//! The cards of the deck.

use vstd::prelude::*;
use vstd::string::StringExecFns;
use crate::resource_location::{ResourceLocation, ResourceLocationView};

verus! {

/// One logical card: its name, where its data lies and which texture shows
/// its face. Two cards match when their names are equal.
#[derive(Debug)]
pub struct Card {
    name: String,
    resource_location: ResourceLocation,
    texture: ResourceLocation,
}

/// What a card holds, as mathematical values.
pub struct CardView {
    pub name: Seq<char>,
    pub resource_location: ResourceLocationView,
    pub texture: ResourceLocationView,
}

/// The card that fills a selection slot in which nothing has been put.
pub open spec fn empty_card() -> CardView {
    CardView {
        name: "Blank Card"@,
        resource_location: ResourceLocationView {
            namespace: Seq::<char>::empty(),
            path: Seq::<char>::empty(),
        },
        texture: ResourceLocationView {
            namespace: "memory_game"@,
            path: "memory_game:cards/card_base.png"@,
        },
    }
}

impl View for Card {
    type V = CardView;

    closed spec fn view(&self) -> CardView {
        CardView {
            name: self.name@,
            resource_location: self.resource_location@,
            texture: self.texture@,
        }
    }
}

impl Card {
    /// A card of the given name, data location and face texture.
    pub fn create(name: String, resource_location: ResourceLocation, texture: ResourceLocation) -> (r:
        Card)
        ensures
            r@.name == name@,
            r@.resource_location == resource_location@,
            r@.texture == texture@,
    {
        Card { name, resource_location, texture }
    }

    /// Where the card's data lies.
    pub fn get_resource_location(&self) -> (r: ResourceLocation)
        ensures
            r@ == self@.resource_location,
    {
        self.resource_location.clone()
    }

    /// The card's name.
    pub fn get_name(&self) -> (r: String)
        ensures
            r@ == self@.name,
    {
        self.name.clone()
    }

    /// The texture of the card's face.
    pub fn get_texture_location(&self) -> (r: ResourceLocation)
        ensures
            r@ == self@.texture,
    {
        self.texture.clone()
    }

    /// The placeholder that stands in an unused selection slot.
    pub fn empty() -> (r: Card)
        ensures
            r@ == empty_card(),
    {
        Card {
            name: String::from_str("Blank Card"),
            resource_location: ResourceLocation::empty(),
            texture: ResourceLocation::new("memory_game", "memory_game:cards/card_base.png"),
        }
    }

    /// Whether two cards match, that is, bear the same name.
    pub fn matches(&self, other: &Card) -> (r: bool)
        ensures
            r == (self@.name == other@.name),
    {
        self.name == other.name
    }
}

impl Clone for Card {
    fn clone(&self) -> (r: Self)
        ensures
            r@ == self@,
    {
        Card {
            name: self.name.clone(),
            resource_location: self.resource_location.clone(),
            texture: self.texture.clone(),
        }
    }
}

} // verus!
