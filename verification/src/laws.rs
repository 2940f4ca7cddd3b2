//! What holds of every game, whatever the players do.

use vstd::prelude::*;
use crate::board::{board, dealt_position, lemma_dealt_positions_distinct};
use crate::entity::{
    in_hit_box, lemma_deferred_flip, lemma_resolved_pinned, lemma_tick_all_frame,
    lemma_tick_places, project, tick_all, EntityView,
};
use crate::game::{is_deal, lemma_tick_all_wf, well_dealt, GameView, PAUSE};
use crate::session::SessionView;
use crate::turn::Turn;

verus! {

/// No more than two cards are ever picked: a game with at most two picks
/// has at most two after the first half of a frame, whatever the frame's
/// input is.
pub proof fn lemma_selection_never_exceeds_two(g: GameView, delta: u32)
    requires
        g.session.selected_count <= 2,
    ensures
        g.advance(delta).session.selected_count <= 2,
{
    let e = g.evaluate().clocked(delta);
    lemma_tick_all_wf(e.entities, e.camera(), e.session, e.entities.len());
}

/// When a round is evaluated, the move passes to the other player if the
/// two picks differ in name, and stays with the player if they match. The
/// picks are cleared, the verdict is noted and the pause begins; nothing
/// else moves in that frame.
pub proof fn lemma_turn_alternation(g: GameView, delta: u32)
    requires
        g.session.selected_count == 2,
    ensures
        g.evaluate().session.prev_success == g.picks_match(),
        g.picks_match() ==> g.evaluate().session.current_turn == g.session.current_turn,
        !g.picks_match() ==> g.evaluate().session.current_turn == g.session.current_turn.other(),
        g.evaluate().session.selected_count == 0,
        g.evaluate().wait_timer == PAUSE,
        g.advance(delta).session.current_turn == g.evaluate().session.current_turn,
        g.advance(delta).session.prev_success == g.picks_match(),
        g.advance(delta).wait_timer == PAUSE - delta,
        g.advance(delta).entities == g.entities,
        g.advance(delta).player_1_score == g.player_1_score,
        g.advance(delta).player_2_score == g.player_2_score,
{
}

/// The scores never go down, and together they go up by at most one in a
/// frame: by one exactly when no pause is under way and a match is still
/// to be carried out, and then for the player whose move it is. After the
/// frame no match is left to be carried out, so a match is scored once.
pub proof fn lemma_score_step(g: GameView, delta: u32)
    requires
        g.session.selected_count <= 2,
        g.player_1_score < u32::MAX,
        g.player_2_score < u32::MAX,
    ensures
        g.advance(delta).player_1_score >= g.player_1_score,
        g.advance(delta).player_2_score >= g.player_2_score,
        g.advance(delta).player_1_score + g.advance(delta).player_2_score == g.player_1_score
            + g.player_2_score + if g.scores_now() {
            1int
        } else {
            0int
        },
        g.scores_now() && g.session.current_turn == Turn::Player1 ==> g.advance(
            delta,
        ).player_1_score == g.player_1_score + 1,
        g.scores_now() && g.session.current_turn == Turn::Player2 ==> g.advance(
            delta,
        ).player_2_score == g.player_2_score + 1,
        g.scores_now() ==> !g.advance(delta).session.prev_success,
{
    let e = g.evaluate().clocked(delta);
    lemma_ticks_keep_verdict(e.entities, e.camera(), e.session, e.entities.len());
}

/// The entities' updates change neither the verdict that is to be carried
/// out nor whose move it is.
pub proof fn lemma_ticks_keep_verdict(
    entities: Seq<EntityView>,
    camera: Option<(i32, i32)>,
    session: SessionView,
    n: nat,
)
    ensures
        tick_all(entities, camera, session, n).1.prev_success == session.prev_success,
        tick_all(entities, camera, session, n).1.current_turn == session.current_turn,
        tick_all(entities, camera, session, n).1.events == session.events,
        tick_all(entities, camera, session, n).1.mouse == session.mouse,
    decreases n,
{
    if !(n == 0 || n > entities.len()) {
        lemma_ticks_keep_verdict(entities, camera, session, (n - 1) as nat);
    }
}

/// A resolved card that is drawn at the place it was dealt at is still
/// resolved, and still drawn there, after the first half of any frame,
/// wherever the pointer is.
pub proof fn lemma_resolved_cards_stay_put(g: GameView, delta: u32, i: int)
    requires
        0 <= i < g.entities.len(),
        g.entities[i].is_card(),
        g.entities[i].card().success,
        g.entities[i].card().coords == g.entities[i].card().base,
    ensures
        g.advance(delta).entities.len() == g.entities.len(),
        g.advance(delta).entities[i].is_card(),
        g.advance(delta).entities[i].card().success,
        g.advance(delta).entities[i].card().base == g.entities[i].card().base,
        g.advance(delta).entities[i].card().coords == g.entities[i].card().base,
{
    let e = g.evaluate().clocked(delta);
    lemma_tick_one(e.entities, e.camera(), e.session, e.entities.len(), i);
    let before = tick_all(e.entities, e.camera(), e.session, i as nat);
    let c = g.entities[i].card();
    match e.camera() {
        Some(cam) => {
            lemma_resolved_pinned(c, cam, before.1);
        },
        None => {},
    }
}

/// Updating the first `n` entities does to the entity at `i < n` what its
/// own update does, in the session that the entities before it left; the
/// entities after it do not touch it.
pub proof fn lemma_tick_one(
    entities: Seq<EntityView>,
    camera: Option<(i32, i32)>,
    session: SessionView,
    n: nat,
    i: int,
)
    requires
        0 <= i < n <= entities.len(),
    ensures
        tick_all(entities, camera, session, n).0.len() == entities.len(),
        tick_all(entities, camera, session, n).0[i] == entities[i].tick(
            camera,
            tick_all(entities, camera, session, i as nat).1,
        ).0,
    decreases n,
{
    lemma_tick_all_frame(entities, camera, session, (n - 1) as nat);
    if i < n - 1 {
        lemma_tick_one(entities, camera, session, (n - 1) as nat, i);
    }
}

/// The verdict of a round reaches a card in the first frame in which the
/// entities are updated and the card, having seen picks, sees none: a
/// picked card of a matched round is resolved and lies at its place; a
/// card of a missed round is released, and lies lowered at its place
/// unless the pointer is over it.
pub proof fn lemma_verdict_reaches_card(g: GameView, delta: u32, j: int)
    requires
        g.wf(),
        g.session.selected_count != 2,
        g.wait_timer < 0,
        0 <= j < g.entities.len(),
        g.entities[j].is_card(),
        g.entities[j].card().prev_selected != 0,
        tick_all(g.entities, g.camera(), g.session, j as nat).1.selected_count == 0,
    ensures
        g.advance(delta).entities.len() == g.entities.len(),
        g.advance(delta).entities[j].is_card(),
        g.session.prev_success && g.entities[j].card().selected ==> g.advance(
            delta,
        ).entities[j].card().success && g.advance(delta).entities[j].card().coords
            == g.entities[j].card().base,
        !g.session.prev_success && !g.entities[j].card().success ==> !g.advance(
            delta,
        ).entities[j].card().success,
        !g.session.prev_success && !g.entities[j].card().success && !in_hit_box(
            project(g.entities[j].card().coords, g.camera().unwrap()),
            false,
            g.session.mouse,
        ) ==> !g.advance(delta).entities[j].card().hover && !g.advance(
            delta,
        ).entities[j].card().selected && g.advance(delta).entities[j].card().coords
            == g.entities[j].card().base,
{
    let e = g.evaluate().clocked(delta);
    let cam = g.camera().unwrap();
    lemma_tick_one(e.entities, e.camera(), e.session, e.entities.len(), j);
    lemma_ticks_keep_verdict(e.entities, e.camera(), e.session, j as nat);
    let seen = tick_all(e.entities, e.camera(), e.session, j as nat).1;
    lemma_deferred_flip(g.entities[j].card(), cam, seen);
    lemma_tick_places(g.entities[j].card(), cam, seen);
}

/// A deck of `n` cards is dealt as `2 n` cards behind one camera. Every
/// card lies, face down, at a place of the board, no two at the same
/// place, and every card of the deck is dealt twice.
pub proof fn lemma_deck_dealing(g: GameView, draws: Seq<usize>, ids: Seq<u128>)
    requires
        is_deal(g.cards.len(), draws, ids),
    ensures
        well_dealt(g.scene(draws, ids).entities, g.cards),
        g.scene(draws, ids).camera() == Some((0i32, 0i32)),
{
    let n = g.cards.len();
    let e = g.scene(draws, ids).entities;
    lemma_dealt_positions_distinct(draws, 2 * n);
    assert forall|i: int| 1 <= i <= 2 * n implies {
        let x = #[trigger] e[i];
        &&& x.is_card()
        &&& board().contains(x.card().base)
        &&& x.card().coords == x.card().base
        &&& !x.card().selected && !x.card().success && !x.card().hover
    } by {
        assert(e[i].card().base == dealt_position(draws, i - 1));
    }
    assert forall|i: int, j: int| 1 <= i < j <= 2 * n implies (#[trigger] e[i]).card().base != (
    #[trigger] e[j]).card().base by {
        assert(e[i].card().base == dealt_position(draws, i - 1));
        assert(e[j].card().base == dealt_position(draws, j - 1));
    }
}

} // verus!
