//! Why the scores never pass the number of pairs.
//!
//! A game is *in step* when every pair that has been scored is a pair of
//! which a card lies resolved on the board, and the picks of the round are
//! cards that lie picked on the board. A dealt match is in step, and a
//! frame keeps the game in step as long as the verdict of a matched round
//! reaches a card that awaits it before another card is picked.

use vstd::prelude::*;
use crate::entity::{lemma_selection_cap, tick_all, EntityView};
use crate::game::{
    deck_index, is_deal, lemma_advance_keeps_wf, scene_entities, GameView, DECK_LIMIT,
};
use crate::laws::{lemma_tick_one, lemma_ticks_keep_verdict};
use crate::session::SessionView;
use crate::widget::PAIRS;

verus! {

/// How many pairs a board of these entities holds: a camera, and two
/// cards to a pair.
pub open spec fn pair_count(entities: Seq<EntityView>) -> int {
    entities.len() as int / 2
}

/// The place of the other card of the pair of the card at `i`, on a
/// board of `n` pairs.
pub open spec fn twin(n: int, i: int) -> int {
    if i <= n {
        i + n
    } else {
        i - n
    }
}

/// The name of the card at `i`.
pub open spec fn name_at(entities: Seq<EntityView>, i: int) -> Seq<char> {
    entities[i].card().card.name
}

/// Whether the entities are a dealt board: none at all, or a camera
/// followed by the cards of at most nine pairs, the cards of a pair
/// standing `n` apart and bearing a name that no other card bears.
pub open spec fn paired(entities: Seq<EntityView>) -> bool {
    let n = pair_count(entities);
    entities.len() == 0 || {
        &&& entities.len() == 2 * n + 1
        &&& n <= DECK_LIMIT
        &&& entities[0] is Camera
        &&& forall|i: int| 1 <= i <= 2 * n ==> (#[trigger] entities[i]).is_card()
        &&& forall|i: int|
            1 <= i <= 2 * n ==> #[trigger] name_at(entities, i) == name_at(entities, twin(n, i))
        &&& forall|i: int, j: int|
            1 <= i <= 2 * n && 1 <= j <= 2 * n && #[trigger] name_at(entities, i)
                == #[trigger] name_at(entities, j) ==> j == i || j == twin(n, i)
    }
}

/// Whether a card of the pair `k`, counted from 1, is resolved.
pub open spec fn pair_resolved(entities: Seq<EntityView>, n: int, k: int) -> bool {
    entities[k].card().success || entities[k + n].card().success
}

/// How many of the first `m` pairs have a resolved card.
pub open spec fn resolved_pairs(entities: Seq<EntityView>, n: int, m: nat) -> nat
    decreases m,
{
    if m == 0 {
        0
    } else {
        resolved_pairs(entities, n, (m - 1) as nat) + if pair_resolved(entities, n, m as int) {
            1nat
        } else {
            0nat
        }
    }
}

/// Whether the card at `j` lies picked and unresolved.
pub open spec fn held(entities: Seq<EntityView>, j: int) -> bool {
    &&& 0 <= j < entities.len()
    &&& entities[j].is_card()
    &&& entities[j].card().selected
    &&& !entities[j].card().success
}

/// Whether the first pick of the round is a card that lies picked.
pub open spec fn first_pick_stands(entities: Seq<EntityView>, session: SessionView) -> bool {
    exists|j: int| #[trigger]
        held(entities, j) && name_at(entities, j) == session.selected_cards.0.name
}

/// Whether the two picks of the round are two cards that lie picked, the
/// second of which has seen that cards are picked.
pub open spec fn both_picks_stand(entities: Seq<EntityView>, session: SessionView) -> bool {
    exists|j0: int, j1: int|
        #![trigger held(entities, j0), held(entities, j1)]
        {
            &&& j0 != j1
            &&& held(entities, j0)
            &&& held(entities, j1)
            &&& name_at(entities, j0) == session.selected_cards.0.name
            &&& name_at(entities, j1) == session.selected_cards.1.name
            &&& entities[j1].card().prev_selected != 0
        }
}

/// Whether the card at `j` awaits the verdict of a matched round: it lies
/// picked, it has seen that cards are picked, and neither it nor the
/// other card of its pair is resolved.
pub open spec fn awaits(entities: Seq<EntityView>, j: int) -> bool {
    &&& held(entities, j)
    &&& entities[j].card().prev_selected != 0
    &&& !entities[twin(pair_count(entities), j)].card().success
}

/// Whether some card awaits the verdict of a matched round.
pub open spec fn verdict_pending(entities: Seq<EntityView>) -> bool {
    exists|j: int| #[trigger] awaits(entities, j)
}

/// Whether the game is in step: its entities are a dealt board; the two
/// scores together count no more than the pairs of which a card is
/// resolved; a match that is still to be carried out has a card that
/// awaits it, and no card is picked meanwhile; and the picks of the round
/// are cards that lie picked.
pub open spec fn in_step(g: GameView) -> bool {
    let n = pair_count(g.entities);
    &&& paired(g.entities)
    &&& g.session.selected_count <= 2
    &&& g.player_1_score + g.player_2_score <= resolved_pairs(g.entities, n, n as nat)
    &&& g.session.prev_success ==> g.session.selected_count == 0 && verdict_pending(g.entities)
    &&& g.session.selected_count >= 1 ==> first_pick_stands(g.entities, g.session)
    &&& g.session.selected_count == 2 ==> both_picks_stand(g.entities, g.session)
}

/// Whether, in the frame that begins, the verdict reaches a card that
/// awaits it: no card that is updated before that card is picked in this
/// frame.
pub open spec fn verdict_arrives(g: GameView) -> bool {
    exists|j: int| #[trigger]
        awaits(g.entities, j) && tick_all(
            g.entities,
            g.camera(),
            g.session,
            j as nat,
        ).1.selected_count == 0
}

/// No more pairs are resolved than there are.
pub proof fn lemma_resolved_pairs_bound(entities: Seq<EntityView>, n: int, m: nat)
    ensures
        resolved_pairs(entities, n, m) <= m,
    decreases m,
{
    if m > 0 {
        lemma_resolved_pairs_bound(entities, n, (m - 1) as nat);
    }
}

/// Where every pair that was resolved still is, no fewer pairs are
/// resolved; where one more is, one more is counted.
pub proof fn lemma_resolved_pairs_grow(
    before: Seq<EntityView>,
    after: Seq<EntityView>,
    n: int,
    m: nat,
)
    requires
        forall|k: int|
            1 <= k <= m && pair_resolved(before, n, k) ==> #[trigger] pair_resolved(after, n, k),
    ensures
        resolved_pairs(before, n, m) <= resolved_pairs(after, n, m),
        forall|k: int|
            1 <= k <= m && !pair_resolved(before, n, k) && #[trigger] pair_resolved(after, n, k)
                ==> resolved_pairs(before, n, m) + 1 <= resolved_pairs(after, n, m),
    decreases m,
{
    if m > 0 {
        lemma_resolved_pairs_grow(before, after, n, (m - 1) as nat);
    }
}

/// In a game that is in step the two scores together never pass the
/// number of pairs of a match.
pub proof fn lemma_scores_bounded(g: GameView)
    requires
        in_step(g),
    ensures
        g.player_1_score + g.player_2_score <= pair_count(g.entities),
        g.player_1_score + g.player_2_score <= PAIRS,
{
    let n = pair_count(g.entities);
    lemma_resolved_pairs_bound(g.entities, n, n as nat);
}

/// What the entities' updates keep of a board: which entities are cards,
/// the cards' names, and every resolution.
pub open spec fn same_board(before: Seq<EntityView>, after: Seq<EntityView>) -> bool {
    &&& after.len() == before.len()
    &&& forall|i: int|
        0 <= i < before.len() ==> (#[trigger] after[i]) is Camera == before[i] is Camera
    &&& forall|i: int|
        0 <= i < before.len() && before[i].is_card() ==> #[trigger] name_at(after, i) == name_at(
            before,
            i,
        )
    &&& forall|i: int|
        0 <= i < before.len() && before[i].is_card() && before[i].card().success ==> (
        #[trigger] after[i]).card().success
}

/// Whether the picks of the round are cards that lie picked.
pub open spec fn picks_stand(entities: Seq<EntityView>, session: SessionView) -> bool {
    &&& session.selected_count <= 2
    &&& session.selected_count >= 1 ==> first_pick_stands(entities, session)
    &&& session.selected_count == 2 ==> both_picks_stand(entities, session)
}

/// One update of a card keeps the picks of the round standing.
proof fn lemma_tick_keeps_picks(
    entities: Seq<EntityView>,
    camera: (i32, i32),
    session: SessionView,
    at: int,
)
    requires
        0 <= at < entities.len(),
        picks_stand(entities, session),
    ensures
        picks_stand(
            entities.update(at, entities[at].tick(Some(camera), session).0),
            entities[at].tick(Some(camera), session).1,
        ),
        same_board(entities, entities.update(at, entities[at].tick(Some(camera), session).0)),
{
    let step = entities[at].tick(Some(camera), session);
    let after = entities.update(at, step.0);
    match entities[at] {
        EntityView::Camera(_) => {
            assert(after =~= entities);
        },
        EntityView::Card(c) => {
            lemma_selection_cap(c, Some(camera), session);
            let c2 = c.tick(Some(camera), session).0;
            let s2 = step.1;
            assert(after[at] == EntityView::Card(c2));
            assert(c2.card == c.card);
            assert forall|i: int| 0 <= i < entities.len() && entities[i].is_card() implies #[trigger] name_at(
                after,
                i,
            ) == name_at(entities, i) by {
                if i != at {
                    assert(after[i] == entities[i]);
                }
            }
            if session.selected_count == 0 {
                if s2.selected_count == 1 {
                    assert(c.picks(camera, session));
                    assert(held(after, at));
                    assert(name_at(after, at) == s2.selected_cards.0.name);
                }
            } else if session.selected_count == 1 {
                let j0 = choose|j: int| #[trigger]
                    held(entities, j) && name_at(entities, j) == session.selected_cards.0.name;
                if at == j0 {
                    assert(!c.picks(camera, session));
                    assert(held(after, j0));
                } else {
                    assert(after[j0] == entities[j0]);
                    assert(held(after, j0));
                }
                assert(name_at(after, j0) == s2.selected_cards.0.name);
                if s2.selected_count == 2 {
                    assert(c.picks(camera, session));
                    assert(at != j0);
                    assert(held(after, at));
                    assert(name_at(after, at) == s2.selected_cards.1.name);
                    assert(after[at].card().prev_selected != 0);
                    assert(held(after, j0) && held(after, at));
                }
            } else {
                let (j0, j1) = choose|j0: int, j1: int|
                    #![trigger held(entities, j0), held(entities, j1)]
                    {
                        &&& j0 != j1
                        &&& held(entities, j0)
                        &&& held(entities, j1)
                        &&& name_at(entities, j0) == session.selected_cards.0.name
                        &&& name_at(entities, j1) == session.selected_cards.1.name
                        &&& entities[j1].card().prev_selected != 0
                    };
                assert(!c.picks(camera, session));
                if at != j0 {
                    assert(after[j0] == entities[j0]);
                }
                if at != j1 {
                    assert(after[j1] == entities[j1]);
                }
                assert(held(after, j0) && held(after, j1));
                assert(after[j1].card().prev_selected != 0);
                assert(name_at(after, j0) == s2.selected_cards.0.name);
                assert(name_at(after, j1) == s2.selected_cards.1.name);
            }
        },
    }
}

/// The entities' updates keep the board and keep the picks of the round
/// standing.
pub proof fn lemma_ticks_keep_picks(
    entities: Seq<EntityView>,
    camera: (i32, i32),
    session: SessionView,
    m: nat,
)
    requires
        m <= entities.len(),
        picks_stand(entities, session),
    ensures
        same_board(entities, tick_all(entities, Some(camera), session, m).0),
        picks_stand(
            tick_all(entities, Some(camera), session, m).0,
            tick_all(entities, Some(camera), session, m).1,
        ),
    decreases m,
{
    if m > 0 {
        lemma_ticks_keep_picks(entities, camera, session, (m - 1) as nat);
        let before = tick_all(entities, Some(camera), session, (m - 1) as nat);
        lemma_tick_keeps_picks(before.0, camera, before.1, m - 1);
        let after = tick_all(entities, Some(camera), session, m);
        assert(after.0 == before.0.update(m - 1, before.0[m - 1].tick(Some(camera), before.1).0));
        assert forall|i: int| 0 <= i < entities.len() && entities[i].is_card() implies #[trigger] name_at(
            after.0,
            i,
        ) == name_at(entities, i) by {
            assert(before.0[i].is_card());
            assert(name_at(after.0, i) == name_at(before.0, i));
        }
        assert forall|i: int|
            0 <= i < entities.len() && entities[i].is_card()
                && entities[i].card().success implies (#[trigger] after.0[i]).card().success by {
            assert(before.0[i].is_card());
            assert(before.0[i].card().success);
        }
    }
}

/// The entities' updates keep a dealt board a dealt board, and take no
/// pair's resolution away.
proof fn lemma_same_board_paired(before: Seq<EntityView>, after: Seq<EntityView>)
    requires
        paired(before),
        same_board(before, after),
    ensures
        paired(after),
        pair_count(after) == pair_count(before),
        forall|k: int|
            1 <= k <= pair_count(before) && pair_resolved(before, pair_count(before), k)
                ==> #[trigger] pair_resolved(after, pair_count(before), k),
{
    let n = pair_count(before);
    if before.len() > 0 {
        assert forall|i: int| 1 <= i <= 2 * n implies (#[trigger] after[i]).is_card() by {
            assert(before[i].is_card());
        }
        assert forall|i: int| 1 <= i <= 2 * n implies #[trigger] name_at(after, i) == name_at(
            after,
            twin(n, i),
        ) by {
            assert(before[i].is_card());
            assert(before[twin(n, i)].is_card());
            assert(name_at(before, i) == name_at(before, twin(n, i)));
            assert(name_at(after, i) == name_at(before, i));
            assert(name_at(after, twin(n, i)) == name_at(before, twin(n, i)));
        }
        assert forall|i: int, j: int|
            1 <= i <= 2 * n && 1 <= j <= 2 * n && #[trigger] name_at(after, i)
                == #[trigger] name_at(after, j) implies j == i || j == twin(n, i) by {
            assert(before[i].is_card());
            assert(before[j].is_card());
            assert(name_at(after, i) == name_at(before, i));
            assert(name_at(after, j) == name_at(before, j));
        }
        assert forall|k: int| 1 <= k <= n && pair_resolved(before, n, k) implies #[trigger] pair_resolved(
            after,
            n,
            k,
        ) by {
            assert(before[k].is_card());
            assert(before[k + n].is_card());
        }
    }
}

/// A frame keeps a game in step, provided that, where a match is scored
/// in the frame, the verdict reaches a card that awaits it.
pub proof fn lemma_advance_keeps_step(g: GameView, delta: u32)
    requires
        g.wf(),
        in_step(g),
        g.scores_now() ==> verdict_arrives(g),
    ensures
        in_step(g.advance(delta)),
{
    let entities = g.entities;
    let n = pair_count(entities);
    lemma_resolved_pairs_bound(entities, n, n as nat);
    if g.session.selected_count == 2 {
        if g.picks_match() {
            let (j0, j1) = choose|j0: int, j1: int|
                #![trigger held(entities, j0), held(entities, j1)]
                {
                    &&& j0 != j1
                    &&& held(entities, j0)
                    &&& held(entities, j1)
                    &&& name_at(entities, j0) == g.session.selected_cards.0.name
                    &&& name_at(entities, j1) == g.session.selected_cards.1.name
                    &&& entities[j1].card().prev_selected != 0
                };
            assert(name_at(entities, j1) == name_at(entities, j0));
            assert(j0 == twin(n, j1));
            assert(awaits(entities, j1));
        }
    } else if g.wait_timer < 0 {
        let e = g.evaluate().clocked(delta);
        assert(e.entities == entities && e.session == g.session);
        if entities.len() == 0 {
            assert(!g.session.prev_success) by {
                if g.session.prev_success {
                    let j = choose|j: int| #[trigger] awaits(entities, j);
                    assert(held(entities, j));
                }
            }
            assert(g.session.selected_count == 0) by {
                if g.session.selected_count >= 1 {
                    let j = choose|j: int| #[trigger]
                        held(entities, j) && name_at(entities, j)
                            == g.session.selected_cards.0.name;
                    assert(held(entities, j));
                }
            }
        } else {
            let cam = g.camera().unwrap();
            let len = entities.len();
            let ticked = tick_all(entities, Some(cam), g.session, len);
            lemma_ticks_keep_picks(entities, cam, g.session, len);
            lemma_ticks_keep_verdict(entities, Some(cam), g.session, len);
            lemma_same_board_paired(entities, ticked.0);
            lemma_resolved_pairs_grow(entities, ticked.0, n, n as nat);
            if g.session.prev_success {
                let j = choose|j: int| #[trigger]
                    awaits(entities, j) && tick_all(
                        entities,
                        g.camera(),
                        g.session,
                        j as nat,
                    ).1.selected_count == 0;
                let seen = tick_all(entities, Some(cam), g.session, j as nat).1;
                lemma_tick_one(entities, Some(cam), g.session, len, j);
                lemma_ticks_keep_verdict(entities, Some(cam), g.session, j as nat);
                assert(entities[j].card().round_over(seen));
                assert(ticked.0[j].card().success);
                let k = if j <= n {
                    j
                } else {
                    j - n
                };
                assert(1 <= j);
                assert(twin(n, j) == if j <= n {
                    j + n
                } else {
                    j - n
                });
                assert(!pair_resolved(entities, n, k));
                assert(pair_resolved(ticked.0, n, k));
                assert(resolved_pairs(entities, n, n as nat) + 1 <= resolved_pairs(
                    ticked.0,
                    n,
                    n as nat,
                ));
            }
            let after = g.advance(delta);
            assert(after.entities == ticked.0);
            assert(after.session.selected_cards == ticked.1.selected_cards);
            assert(after.session.selected_count == ticked.1.selected_count);
            assert(picks_stand(ticked.0, ticked.1));
            if after.session.selected_count >= 1 {
                let j0 = choose|j: int| #[trigger]
                    held(ticked.0, j) && name_at(ticked.0, j) == ticked.1.selected_cards.0.name;
                assert(held(after.entities, j0) && name_at(after.entities, j0)
                    == after.session.selected_cards.0.name);
            }
            if after.session.selected_count == 2 {
                let (j0, j1) = choose|j0: int, j1: int|
                    #![trigger held(ticked.0, j0), held(ticked.0, j1)]
                    {
                        &&& j0 != j1
                        &&& held(ticked.0, j0)
                        &&& held(ticked.0, j1)
                        &&& name_at(ticked.0, j0) == ticked.1.selected_cards.0.name
                        &&& name_at(ticked.0, j1) == ticked.1.selected_cards.1.name
                        &&& ticked.0[j1].card().prev_selected != 0
                    };
                assert(held(after.entities, j0) && held(after.entities, j1));
            }
        }
    }
}

/// A match that has just been dealt from a deck of different names is in
/// step.
pub proof fn lemma_scene_in_step(g: GameView, draws: Seq<usize>, ids: Seq<u128>)
    requires
        g.wf(),
        g.can_deal(),
        is_deal(g.cards.len(), draws, ids),
    ensures
        in_step(g.scene(draws, ids)),
{
    let n = g.cards.len() as int;
    let entities = g.scene(draws, ids).entities;
    assert(entities == scene_entities(g.cards, draws, ids));
    assert(pair_count(entities) == n);
    lemma_resolved_pairs_bound(entities, n, n as nat);
    assert forall|i: int| 1 <= i <= 2 * n implies #[trigger] name_at(entities, i)
        == g.cards[deck_index(n, i - 1)].name by {}
    assert forall|i: int| 1 <= i <= 2 * n implies #[trigger] name_at(entities, i) == name_at(
        entities,
        twin(n, i),
    ) by {
        assert(name_at(entities, twin(n, i)) == g.cards[deck_index(n, twin(n, i) - 1)].name);
    }
    assert forall|i: int, j: int|
        1 <= i <= 2 * n && 1 <= j <= 2 * n && #[trigger] name_at(entities, i)
            == #[trigger] name_at(entities, j) implies j == i || j == twin(n, i) by {
        let a = deck_index(n, i - 1);
        let b = deck_index(n, j - 1);
        assert(g.cards[a].name == g.cards[b].name);
        if a < b {
            assert(g.cards[a].name != g.cards[b].name);
        }
        if b < a {
            assert(g.cards[b].name != g.cards[a].name);
        }
    }
}

/// The second half of a frame keeps a game in step: it leaves the round
/// alone, or deals a new match.
pub proof fn lemma_handle_input_keeps_step(g: GameView, draws: Seq<usize>, ids: Seq<u128>)
    requires
        g.wf(),
        g.can_deal(),
        in_step(g),
        is_deal(g.cards.len(), draws, ids),
    ensures
        in_step(g.handle_input(draws, ids)),
{
    lemma_scene_in_step(g, draws, ids);
    let after = g.handle_input(draws, ids);
    if g.control().restarted {
        assert(after.entities == g.scene(draws, ids).entities);
        assert(after.session == g.scene(draws, ids).session);
    } else {
        assert(after.entities == g.entities);
        assert(after.session == g.session);
    }
}

/// From a deal on, a game that is played frame by frame stays in step, and
/// so its two scores together never pass nine: one whole frame keeps a
/// game in step, provided that, where a match is scored in the frame, the
/// verdict reaches a card that awaits it.
pub proof fn lemma_cycle_keeps_step(g: GameView, delta: u32, draws: Seq<usize>, ids: Seq<u128>)
    requires
        g.wf(),
        g.can_deal(),
        in_step(g),
        g.scores_now() ==> verdict_arrives(g),
        is_deal(g.cards.len(), draws, ids),
    ensures
        in_step(g.advance(delta).handle_input(draws, ids)),
        g.advance(delta).handle_input(draws, ids).player_1_score + g.advance(delta).handle_input(
            draws,
            ids,
        ).player_2_score <= PAIRS,
{
    lemma_advance_keeps_step(g, delta);
    lemma_advance_keeps_wf(g, delta);
    lemma_handle_input_keeps_step(g.advance(delta), draws, ids);
    lemma_scores_bounded(g.advance(delta).handle_input(draws, ids));
}

} // verus!
