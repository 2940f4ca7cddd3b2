//! The objects on the board: the cards, and the camera through which they
//! are seen.

use vstd::prelude::*;
use crate::asset::{sprite, AssetData, AssetDataView};
use crate::card::{Card, CardView};
use crate::identity::fresh_uuid;
use crate::input::{any_left_click, has_left_click};
use crate::resource_location::{ResourceLocation, ResourceLocationView};
use crate::session::{Session, SessionView};
use crate::turn::Turn;

verus! {

/// How far a hovered card is raised above its place.
pub const HOVER_RAISE: i32 = 8;

/// The key of the sound of a card being turned.
pub open spec fn flip_sound() -> ResourceLocationView {
    ResourceLocationView { namespace: "memory_game"@, path: "sounds/flip.ogg"@ }
}

/// The key of the sound of the pointer coming over a card.
pub open spec fn pop_sound() -> ResourceLocationView {
    ResourceLocationView { namespace: "memory_game"@, path: "sounds/pop.ogg"@ }
}

/// The back of every card.
pub open spec fn card_back() -> AssetDataView {
    sprite(0, 0, 45, 68, (23i32, 34i32), "cards/card_reverse.png"@)
}

/// Where a world position appears on screen when seen from `camera`.
pub open spec fn project(coords: (i32, i32), camera: (i32, i32)) -> (int, int) {
    (coords.0 - camera.0, coords.1 - camera.1)
}

/// Whether the pointer is inside the hit box of a card drawn at `screen`.
/// The box reaches 23 to the left and 22 to the right, 34 up and 34 down;
/// while the card is raised it reaches 42 down, so that the card does not
/// flicker when the pointer sits at its lower edge.
pub open spec fn in_hit_box(screen: (int, int), raised: bool, mouse: (i32, i32)) -> bool {
    &&& screen.0 - 23 <= mouse.0 < screen.0 + 22
    &&& screen.1 - 34 <= mouse.1 < screen.1 + if raised {
        42int
    } else {
        34int
    }
}

/// Whether the pointer is inside the hit box of a card that is drawn at
/// `coords` and seen from `camera`.
pub fn pointer_over(coords: (i32, i32), camera: (i32, i32), raised: bool, mouse: (i32, i32)) -> (r:
    bool)
    ensures
        r == in_hit_box(project(coords, camera), raised, mouse),
{
    let sx: i64 = coords.0 as i64 - camera.0 as i64;
    let sy: i64 = coords.1 as i64 - camera.1 as i64;
    let mx: i64 = mouse.0 as i64;
    let my: i64 = mouse.1 as i64;
    let reach: i64 = if raised {
        42
    } else {
        34
    };
    sx - 23 <= mx && mx < sx + 22 && sy - 34 <= my && my < sy + reach
}

/// A card on the board.
#[derive(Debug)]
pub struct CardEntity {
    coords: (i32, i32),
    asset_data: AssetData,
    back_texture: AssetData,
    velocity: (i32, i32),
    uuid: u128,
    health: i32,
    resource_location: ResourceLocation,
    index: usize,
    hover: bool,
    prev_hover: bool,
    selected: bool,
    x: i32,
    y: i32,
    card: Card,
    turn: Turn,
    success: bool,
    prev_selected: u8,
}

/// A card on the board as mathematical values.
pub struct CardEntityView {
    /// Where the card is drawn.
    pub coords: (i32, i32),
    /// Where the card was dealt.
    pub base: (i32, i32),
    /// The pointer is over the card, or the card is picked.
    pub hover: bool,
    /// `hover` as it was at the end of the last update.
    pub prev_hover: bool,
    /// The card is one of the picks of the round.
    pub selected: bool,
    /// The card has been matched and stays face up.
    pub success: bool,
    /// The session's count of picks as this card last saw it.
    pub prev_selected: u8,
    pub card: CardView,
    pub asset_data: AssetDataView,
    pub back_texture: AssetDataView,
    pub velocity: (i32, i32),
    pub health: i32,
    pub uuid: u128,
    pub index: usize,
    pub resource_location: ResourceLocationView,
    pub turn: Turn,
}

impl CardEntityView {
    /// A card as it is dealt at `place`: face down, with `face` to show
    /// once it is turned, neither hovered, picked nor resolved.
    pub open spec fn fresh(face: AssetDataView, place: (i32, i32), card: CardView, uuid: u128)
        -> CardEntityView {
        CardEntityView {
            coords: place,
            base: place,
            hover: false,
            prev_hover: false,
            selected: false,
            success: false,
            prev_selected: 0,
            card,
            asset_data: face,
            back_texture: card_back(),
            velocity: (0i32, 0i32),
            health: 0,
            uuid,
            index: 0,
            resource_location: ResourceLocationView { namespace: Seq::empty(), path: Seq::empty() },
            turn: Turn::Player1,
        }
    }

    /// The raised place fits the machine's integers.
    pub open spec fn wf(self) -> bool {
        self.base.1 >= i32::MIN + HOVER_RAISE
    }

    /// The place of the card while it is raised.
    pub open spec fn raised(self) -> (i32, i32) {
        (self.base.0, (self.base.1 - HOVER_RAISE) as i32)
    }

    /// Whether the card learns in this update that its round is over: it
    /// last saw picks, and now there are none.
    pub open spec fn round_over(self, session: SessionView) -> bool {
        self.prev_selected != 0 && session.selected_count == 0
    }

    /// The card after it has taken in the verdict of a round that is over,
    /// and has noted the session's count of picks. A picked card of a
    /// matched round is resolved; every card that learns of the end is
    /// lowered and released.
    pub open spec fn settle(self, session: SessionView) -> CardEntityView {
        let c = if self.round_over(session) {
            CardEntityView {
                success: self.success || (session.prev_success && self.selected),
                hover: false,
                selected: false,
                ..self
            }
        } else {
            self
        };
        CardEntityView { prev_selected: session.selected_count, ..c }
    }

    /// Whether this update picks the card: the pointer is over it, it is
    /// neither picked nor resolved, the frame holds a left click and a slot
    /// is free.
    pub open spec fn picks(self, camera: (i32, i32), session: SessionView) -> bool {
        let c = self.settle(session);
        &&& !c.success
        &&& !c.selected
        &&& in_hit_box(project(self.coords, camera), c.hover, session.mouse)
        &&& has_left_click(session.events)
        &&& session.selected_count < 2
    }

    /// One update of the card, seen from `camera`, and what it does to the
    /// session. Without a camera nothing happens.
    pub open spec fn tick(self, camera: Option<(i32, i32)>, session: SessionView) -> (
        CardEntityView,
        SessionView,
    ) {
        match camera {
            None => (self, session),
            Some(cam) => {
                let c = self.settle(session);
                if c.success {
                    (CardEntityView { coords: c.base, ..c }, session)
                } else {
                    let over = in_hit_box(project(self.coords, cam), c.hover, session.mouse);
                    let picks = self.picks(cam, session);
                    let s1 = if picks {
                        session.play(flip_sound()).select(c.card)
                    } else {
                        session
                    };
                    let selected = c.selected || picks;
                    let hover = over || selected;
                    let s2 = if hover && !selected {
                        SessionView { use_finger: true, ..s1 }
                    } else {
                        s1
                    };
                    let s3 = if hover && !c.prev_hover {
                        s2.play(pop_sound())
                    } else {
                        s2
                    };
                    (
                        CardEntityView {
                            hover,
                            selected,
                            prev_hover: hover,
                            coords: if hover {
                                c.raised()
                            } else {
                                c.base
                            },
                            ..c
                        },
                        s3,
                    )
                }
            },
        }
    }

    /// What the card shows: its face once it is picked or resolved, else
    /// its back.
    pub open spec fn appearance(self) -> AssetDataView {
        if self.selected || self.success {
            self.asset_data
        } else {
            self.back_texture
        }
    }
}

impl View for CardEntity {
    type V = CardEntityView;

    closed spec fn view(&self) -> CardEntityView {
        CardEntityView {
            coords: self.coords,
            base: (self.x, self.y),
            hover: self.hover,
            prev_hover: self.prev_hover,
            selected: self.selected,
            success: self.success,
            prev_selected: self.prev_selected,
            card: self.card@,
            asset_data: self.asset_data@,
            back_texture: self.back_texture@,
            velocity: self.velocity,
            health: self.health,
            uuid: self.uuid,
            index: self.index,
            resource_location: self.resource_location@,
            turn: self.turn,
        }
    }
}

impl CardEntity {
    /// A face-down card dealt at `(x, y)`, with `ass` as its face. It is
    /// neither hovered, picked nor resolved, and gets an identity of its
    /// own.
    pub fn create(ass: AssetData, x: i32, y: i32, card: Card) -> (r: CardEntity)
        requires
            y >= i32::MIN + HOVER_RAISE,
        ensures
            r@.wf(),
            r@ == CardEntityView::fresh(ass@, (x, y), card@, r@.uuid),
    {
        let uuid = fresh_uuid();
        CardEntity {
            coords: (x, y),
            asset_data: ass,
            back_texture: AssetData::sprite(0, 0, 45, 68, (23, 34), "cards/card_reverse.png"),
            velocity: (0, 0),
            uuid,
            health: 0,
            resource_location: ResourceLocation::empty(),
            index: 0,
            hover: false,
            prev_hover: false,
            selected: false,
            x,
            y,
            card,
            turn: Turn::Player1,
            success: false,
            prev_selected: 0,
        }
    }

    /// Where the card is drawn.
    pub fn get_coords(&self) -> (r: (i32, i32))
        ensures
            r == self@.coords,
    {
        self.coords
    }

    /// Moves the card's drawn position. The next update puts it back at its
    /// place, raised or not.
    pub fn set_coords(&mut self, coords: (i32, i32))
        ensures
            final(self)@ == (CardEntityView { coords, ..old(self)@ }),
    {
        self.coords = coords
    }

    /// Where the card was dealt.
    pub fn get_base(&self) -> (r: (i32, i32))
        ensures
            r == self@.base,
    {
        (self.x, self.y)
    }

    pub fn get_health(&self) -> (r: i32)
        ensures
            r == self@.health,
    {
        self.health
    }

    pub fn set_resource_location(&mut self, rl: ResourceLocation)
        ensures
            final(self)@ == (CardEntityView { resource_location: rl@, ..old(self)@ }),
    {
        self.resource_location = rl
    }

    pub fn get_resource_location(&self) -> (r: &ResourceLocation)
        ensures
            r@ == self@.resource_location,
    {
        &self.resource_location
    }

    pub fn get_index(&self) -> (r: usize)
        ensures
            r == self@.index,
    {
        self.index
    }

    pub fn get_velocity(&self) -> (r: (i32, i32))
        ensures
            r == self@.velocity,
    {
        self.velocity
    }

    pub fn set_velocity(&mut self, velocity: (i32, i32))
        ensures
            final(self)@ == (CardEntityView { velocity, ..old(self)@ }),
    {
        self.velocity = velocity
    }

    /// The card's identity.
    pub fn get_uuid(&self) -> (r: u128)
        ensures
            r == self@.uuid,
    {
        self.uuid
    }

    /// The card this entity shows.
    pub fn get_card(&self) -> (r: &Card)
        ensures
            r@ == self@.card,
    {
        &self.card
    }

    /// Whether the card is raised.
    pub fn is_hovered(&self) -> (r: bool)
        ensures
            r == self@.hover,
    {
        self.hover
    }

    /// Whether the card is one of the picks of the round.
    pub fn is_selected(&self) -> (r: bool)
        ensures
            r == self@.selected,
    {
        self.selected
    }

    /// Whether the card has been matched.
    pub fn is_resolved(&self) -> (r: bool)
        ensures
            r == self@.success,
    {
        self.success
    }

    /// What the card shows: its face once it is picked or resolved, else
    /// its back.
    pub fn get_asset_data(&self) -> (r: AssetData)
        ensures
            r@ == self@.appearance(),
    {
        if self.selected || self.success {
            self.asset_data.clone()
        } else {
            self.back_texture.clone()
        }
    }

    /// Replaces the card's face.
    pub fn set_asset_data(&mut self, ass: AssetData)
        ensures
            final(self)@ == (CardEntityView { asset_data: ass@, ..old(self)@ }),
    {
        self.asset_data = ass;
    }

    /// One update of the card, for a frame that lasted `delta`
    /// microseconds. `camera` is the position of the entity the board is
    /// seen from, if the game has one; `session` is the state the card
    /// shares with the game. A card does not move by itself, so what it
    /// does is the same however long the frame was.
    pub fn tick(&mut self, delta: u32, camera: Option<(i32, i32)>, session: &mut Session)
        requires
            old(self)@.wf(),
        ensures
            (final(self)@, final(session)@) == old(self)@.tick(camera, old(session)@),
    {
        let cam = match camera {
            Some(cam) => cam,
            None => {
                return ;
            },
        };
        if self.prev_selected != 0 && session.selected_count == 0 {
            if session.prev_success && self.selected {
                self.success = true;
            }
            self.hover = false;
            self.selected = false;
        }
        self.prev_selected = session.selected_count;
        if self.success {
            self.coords = (self.x, self.y);
            return ;
        }
        let over = pointer_over(self.coords, cam, self.hover, session.mouse);
        self.hover = over;
        if self.hover && !self.selected {
            if session.selected_count < 2 && any_left_click(&session.events) {
                self.selected = true;
                session.play_sound(&ResourceLocation::new("memory_game", "sounds/flip.ogg"));
                session.select(&self.card);
            }
        }
        if self.selected {
            self.hover = true;
        }
        if self.hover {
            self.coords = (self.x, self.y - HOVER_RAISE);
            if !self.selected {
                session.use_finger = true;
            }
        } else {
            self.coords = (self.x, self.y);
        }
        if self.hover && !self.prev_hover {
            session.play_sound(&ResourceLocation::new("memory_game", "sounds/pop.ogg"));
        }
        self.prev_hover = self.hover;
    }
}

/// The selection holds two cards at most: an update of a card adds at most
/// one pick, never takes one away, and leaves a full selection as it is.
pub proof fn lemma_selection_cap(c: CardEntityView, camera: Option<(i32, i32)>, s: SessionView)
    ensures
        s.selected_count <= 2 ==> c.tick(camera, s).1.selected_count <= 2,
        s.selected_count <= c.tick(camera, s).1.selected_count <= s.selected_count + 1,
        s.selected_count >= 2 ==> c.tick(camera, s).1.selected_count == s.selected_count
            && c.tick(camera, s).1.selected_cards == s.selected_cards
            && c.tick(camera, s).0.selected == c.settle(s).selected,
        c.tick(camera, s).1.selected_count == s.selected_count
            ==> c.tick(camera, s).1.selected_cards == s.selected_cards,
{
}

/// The verdict of a round reaches a card in the first update in which the
/// card, having seen picks, sees none: a picked card of a matched round is
/// resolved for good; a card of a missed round is released, and is lowered
/// unless the pointer is over it.
pub proof fn lemma_deferred_flip(c: CardEntityView, camera: (i32, i32), s: SessionView)
    requires
        c.round_over(s),
    ensures
        s.prev_success && c.selected ==> c.tick(Some(camera), s).0.success && !c.tick(
            Some(camera),
            s,
        ).0.selected,
        !s.prev_success && !c.success ==> !c.tick(Some(camera), s).0.success,
        !s.prev_success && !c.success && !in_hit_box(project(c.coords, camera), false, s.mouse)
            ==> !c.tick(Some(camera), s).0.hover && !c.tick(Some(camera), s).0.selected && c.tick(
            Some(camera),
            s,
        ).0.coords == c.base,
{
}

/// A resolved card stays resolved and is drawn at the place it was dealt
/// at, wherever the pointer is and whatever the frame's events are.
pub proof fn lemma_resolved_pinned(c: CardEntityView, camera: (i32, i32), s: SessionView)
    requires
        c.success,
    ensures
        c.tick(Some(camera), s).0.success,
        c.tick(Some(camera), s).0.coords == c.base,
        c.tick(Some(camera), s).0.base == c.base,
        c.tick(Some(camera), s).1 == s,
{
}

/// After an update a card is drawn at the place it was dealt at, or
/// raised above it, and a resolved card at the place itself. No update
/// takes a card's resolution away.
pub proof fn lemma_tick_places(c: CardEntityView, camera: (i32, i32), s: SessionView)
    ensures
        c.tick(Some(camera), s).0.base == c.base,
        c.tick(Some(camera), s).0.card == c.card,
        c.success ==> c.tick(Some(camera), s).0.success,
        c.tick(Some(camera), s).0.success ==> c.tick(Some(camera), s).0.coords == c.base,
        c.tick(Some(camera), s).0.coords == c.base || c.tick(Some(camera), s).0.coords
            == c.raised(),
{
}

/// The entity that marks the point the board is seen from. It has no
/// footprint and does nothing when updated.
#[derive(Debug)]
pub struct CameraEntity {
    coords: (i32, i32),
    asset_data: AssetData,
    velocity: (i32, i32),
    uuid: u128,
    health: i32,
    resource_location: ResourceLocation,
    index: usize,
}

/// A camera as mathematical values.
pub struct CameraEntityView {
    pub coords: (i32, i32),
    pub asset_data: AssetDataView,
    pub velocity: (i32, i32),
    pub uuid: u128,
    pub health: i32,
    pub resource_location: ResourceLocationView,
    pub index: usize,
}

impl CameraEntityView {
    /// A camera as it is made: at the origin, at rest.
    pub open spec fn fresh(ass: AssetDataView, uuid: u128) -> CameraEntityView {
        CameraEntityView {
            coords: (0i32, 0i32),
            asset_data: ass,
            velocity: (0i32, 0i32),
            uuid,
            health: 0,
            resource_location: ResourceLocationView { namespace: Seq::empty(), path: Seq::empty() },
            index: 0,
        }
    }
}

impl View for CameraEntity {
    type V = CameraEntityView;

    closed spec fn view(&self) -> CameraEntityView {
        CameraEntityView {
            coords: self.coords,
            asset_data: self.asset_data@,
            velocity: self.velocity,
            uuid: self.uuid,
            health: self.health,
            resource_location: self.resource_location@,
            index: self.index,
        }
    }
}

impl CameraEntity {
    /// A camera at the origin that shows `ass`, with an identity of its
    /// own.
    pub fn create(ass: AssetData) -> (r: CameraEntity)
        ensures
            r@ == CameraEntityView::fresh(ass@, r@.uuid),
    {
        CameraEntity {
            coords: (0, 0),
            asset_data: ass,
            velocity: (0, 0),
            uuid: fresh_uuid(),
            health: 0,
            resource_location: ResourceLocation::empty(),
            index: 0,
        }
    }

    pub fn get_coords(&self) -> (r: (i32, i32))
        ensures
            r == self@.coords,
    {
        self.coords
    }

    pub fn set_coords(&mut self, coords: (i32, i32))
        ensures
            final(self)@ == (CameraEntityView { coords, ..old(self)@ }),
    {
        self.coords = coords
    }

    pub fn get_asset_data(&self) -> (r: AssetData)
        ensures
            r@ == self@.asset_data,
    {
        self.asset_data.clone()
    }

    pub fn set_asset_data(&mut self, ass: AssetData)
        ensures
            final(self)@ == (CameraEntityView { asset_data: ass@, ..old(self)@ }),
    {
        self.asset_data = ass;
    }

    pub fn get_health(&self) -> (r: i32)
        ensures
            r == self@.health,
    {
        self.health
    }

    pub fn get_velocity(&self) -> (r: (i32, i32))
        ensures
            r == self@.velocity,
    {
        self.velocity
    }

    pub fn set_velocity(&mut self, velocity: (i32, i32))
        ensures
            final(self)@ == (CameraEntityView { velocity, ..old(self)@ }),
    {
        self.velocity = velocity
    }

    pub fn get_resource_location(&self) -> (r: &ResourceLocation)
        ensures
            r@ == self@.resource_location,
    {
        &self.resource_location
    }

    pub fn set_resource_location(&mut self, rl: ResourceLocation)
        ensures
            final(self)@ == (CameraEntityView { resource_location: rl@, ..old(self)@ }),
    {
        self.resource_location = rl
    }

    /// One update of the camera: it stays where it is.
    pub fn tick(&mut self, delta: u32)
        ensures
            final(self)@ == old(self)@,
    {
    }

    pub fn get_index(&self) -> (r: usize)
        ensures
            r == self@.index,
    {
        self.index
    }

    pub fn get_uuid(&self) -> (r: u128)
        ensures
            r == self@.uuid,
    {
        self.uuid
    }
}

/// Anything that lives on the board.
#[derive(Debug)]
pub enum Entity {
    Card(CardEntity),
    Camera(CameraEntity),
}

/// An entity as mathematical values.
pub enum EntityView {
    Card(CardEntityView),
    Camera(CameraEntityView),
}

impl EntityView {
    /// Whether the entity is a card.
    pub open spec fn is_card(self) -> bool {
        self is Card
    }

    /// The card that the entity is, if it is one.
    pub open spec fn card(self) -> CardEntityView {
        self->Card_0
    }

    /// Where the entity is drawn.
    pub open spec fn coords(self) -> (i32, i32) {
        match self {
            EntityView::Card(c) => c.coords,
            EntityView::Camera(c) => c.coords,
        }
    }

    /// What the entity shows.
    pub open spec fn appearance(self) -> AssetDataView {
        match self {
            EntityView::Card(c) => c.appearance(),
            EntityView::Camera(c) => c.asset_data,
        }
    }

    pub open spec fn velocity(self) -> (i32, i32) {
        match self {
            EntityView::Card(c) => c.velocity,
            EntityView::Camera(c) => c.velocity,
        }
    }

    pub open spec fn health(self) -> i32 {
        match self {
            EntityView::Card(c) => c.health,
            EntityView::Camera(c) => c.health,
        }
    }

    pub open spec fn index(self) -> usize {
        match self {
            EntityView::Card(c) => c.index,
            EntityView::Camera(c) => c.index,
        }
    }

    pub open spec fn uuid(self) -> u128 {
        match self {
            EntityView::Card(c) => c.uuid,
            EntityView::Camera(c) => c.uuid,
        }
    }

    pub open spec fn resource_location(self) -> ResourceLocationView {
        match self {
            EntityView::Card(c) => c.resource_location,
            EntityView::Camera(c) => c.resource_location,
        }
    }

    /// Cards are well formed as cards are; a camera always is.
    pub open spec fn wf(self) -> bool {
        match self {
            EntityView::Card(c) => c.wf(),
            EntityView::Camera(_) => true,
        }
    }

    /// One update: a card's update for a card, nothing for a camera.
    pub open spec fn tick(self, camera: Option<(i32, i32)>, session: SessionView) -> (
        EntityView,
        SessionView,
    ) {
        match self {
            EntityView::Card(c) => (EntityView::Card(c.tick(camera, session).0), c.tick(
                camera,
                session,
            ).1),
            EntityView::Camera(_) => (self, session),
        }
    }
}

impl View for Entity {
    type V = EntityView;

    open spec fn view(&self) -> EntityView {
        match self {
            Entity::Card(c) => EntityView::Card(c@),
            Entity::Camera(c) => EntityView::Camera(c@),
        }
    }
}

impl Entity {
    /// Where the entity is drawn.
    pub fn get_coords(&self) -> (r: (i32, i32))
        ensures
            r == self@.coords(),
    {
        match self {
            Entity::Card(c) => c.get_coords(),
            Entity::Camera(c) => c.get_coords(),
        }
    }

    /// What the entity shows.
    pub fn get_asset_data(&self) -> (r: AssetData)
        ensures
            r@ == self@.appearance(),
    {
        match self {
            Entity::Card(c) => c.get_asset_data(),
            Entity::Camera(c) => c.get_asset_data(),
        }
    }

    pub fn get_velocity(&self) -> (r: (i32, i32))
        ensures
            r == self@.velocity(),
    {
        match self {
            Entity::Card(c) => c.get_velocity(),
            Entity::Camera(c) => c.get_velocity(),
        }
    }

    pub fn get_health(&self) -> (r: i32)
        ensures
            r == self@.health(),
    {
        match self {
            Entity::Card(c) => c.get_health(),
            Entity::Camera(c) => c.get_health(),
        }
    }

    pub fn get_index(&self) -> (r: usize)
        ensures
            r == self@.index(),
    {
        match self {
            Entity::Card(c) => c.get_index(),
            Entity::Camera(c) => c.get_index(),
        }
    }

    /// The entity's identity.
    pub fn get_uuid(&self) -> (r: u128)
        ensures
            r == self@.uuid(),
    {
        match self {
            Entity::Card(c) => c.get_uuid(),
            Entity::Camera(c) => c.get_uuid(),
        }
    }

    pub fn get_resource_location(&self) -> (r: &ResourceLocation)
        ensures
            r@ == self@.resource_location(),
    {
        match self {
            Entity::Card(c) => c.get_resource_location(),
            Entity::Camera(c) => c.get_resource_location(),
        }
    }

    /// Where the entity appears on screen when seen from `camera`.
    pub fn screen(&self, camera: (i32, i32)) -> (r: (i64, i64))
        ensures
            (r.0 as int, r.1 as int) == project(self@.coords(), camera),
    {
        let coords = self.get_coords();
        (coords.0 as i64 - camera.0 as i64, coords.1 as i64 - camera.1 as i64)
    }

    /// One update of the entity, for a frame that lasted `delta`
    /// microseconds.
    pub fn tick(&mut self, delta: u32, camera: Option<(i32, i32)>, session: &mut Session)
        requires
            old(self)@.wf(),
        ensures
            (final(self)@, final(session)@) == old(self)@.tick(camera, old(session)@),
            final(self)@.wf(),
    {
        match self {
            Entity::Card(c) => {
                c.tick(delta, camera, session);
            },
            Entity::Camera(c) => {
                c.tick(delta);
            },
        }
    }
}

/// The views of a collection's entities, in order.
pub open spec fn entity_views(entities: Seq<Entity>) -> Seq<EntityView> {
    Seq::new(entities.len(), |i: int| entities[i]@)
}

/// Updates the first `n` entities, in the order of the collection, each
/// seeing what the ones before it did to the session.
pub open spec fn tick_all(
    entities: Seq<EntityView>,
    camera: Option<(i32, i32)>,
    session: SessionView,
    n: nat,
) -> (Seq<EntityView>, SessionView)
    decreases n,
{
    if n == 0 || n > entities.len() {
        (entities, session)
    } else {
        let before = tick_all(entities, camera, session, (n - 1) as nat);
        let step = before.0[n - 1].tick(camera, before.1);
        (before.0.update(n - 1, step.0), step.1)
    }
}

/// Updating the first `n` entities leaves the others as they were, and
/// keeps the collection's length.
pub proof fn lemma_tick_all_frame(
    entities: Seq<EntityView>,
    camera: Option<(i32, i32)>,
    session: SessionView,
    n: nat,
)
    requires
        n <= entities.len(),
    ensures
        tick_all(entities, camera, session, n).0.len() == entities.len(),
        forall|i: int|
            n <= i < entities.len() ==> tick_all(entities, camera, session, n).0[i]
                == entities[i],
    decreases n,
{
    if n > 0 {
        lemma_tick_all_frame(entities, camera, session, (n - 1) as nat);
    }
}

/// Updates every entity once, in the order of the collection, for a frame
/// that lasted `delta` microseconds.
pub fn tick_entities(
    entities: &mut Vec<Entity>,
    delta: u32,
    camera: Option<(i32, i32)>,
    session: &mut Session,
)
    requires
        forall|i: int| 0 <= i < old(entities).len() ==> (#[trigger] old(entities)@[i])@.wf(),
    ensures
        (entity_views(final(entities)@), final(session)@) == tick_all(
            entity_views(old(entities)@),
            camera,
            old(session)@,
            old(entities).len() as nat,
        ),
        final(entities).len() == old(entities).len(),
        forall|i: int| 0 <= i < final(entities).len() ==> (#[trigger] final(entities)@[i])@.wf(),
{
    let ghost start = entity_views(entities@);
    let ghost session0 = session@;
    let mut i: usize = 0;
    while i < entities.len()
        invariant
            i <= entities.len(),
            entities.len() == start.len(),
            forall|j: int| 0 <= j < entities.len() ==> (#[trigger] entities@[j])@.wf(),
            (entity_views(entities@), session@) == tick_all(start, camera, session0, i as nat),
        decreases entities.len() - i,
    {
        let ghost before = entity_views(entities@);
        let ghost session_before = session@;
        entities[i].tick(delta, camera, session);
        proof {
            assert(before[i as int].tick(camera, session_before) == (entities@[i as int]@, session@));
            assert(entity_views(entities@) =~= before.update(i as int, entities@[i as int]@));
        }
        i += 1;
    }
}

} // verus!
