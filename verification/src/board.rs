//! The places of the board, and how cards are dealt onto them.
//!
//! The board is a grid of six columns and three rows. Places are dealt by
//! drawing, one after the other, an index into the list of places that are
//! still free; the place drawn leaves the list.

use vstd::prelude::*;
use rand::Rng;

verus! {

/// How many places the board has.
pub const BOARD_SLOTS: usize = 18;

/// The places of the board, column by column from the left, each column
/// from the top.
pub open spec fn board() -> Seq<(i32, i32)> {
    seq![
        (-104i32, -70i32),
        (-104i32, 0i32),
        (-104i32, 70i32),
        (-56i32, -70i32),
        (-56i32, 0i32),
        (-56i32, 70i32),
        (-8i32, -70i32),
        (-8i32, 0i32),
        (-8i32, 70i32),
        (40i32, -70i32),
        (40i32, 0i32),
        (40i32, 70i32),
        (88i32, -70i32),
        (88i32, 0i32),
        (88i32, 70i32),
        (136i32, -70i32),
        (136i32, 0i32),
        (136i32, 70i32),
    ]
}

/// Whether `draws` can deal `count` places: there are that many draws, no
/// more than the board has places, and each draw is an index into the
/// places that are free when it is made.
pub open spec fn valid_draws(draws: Seq<usize>, count: nat) -> bool {
    &&& draws.len() == count
    &&& count <= BOARD_SLOTS
    &&& forall|k: int| 0 <= k < count ==> (#[trigger] draws[k]) < BOARD_SLOTS - k
}

/// The places that are free after the first `k` draws, in board order.
pub open spec fn remaining_after(draws: Seq<usize>, k: nat) -> Seq<(i32, i32)>
    decreases k,
{
    if k == 0 {
        board()
    } else {
        remaining_after(draws, (k - 1) as nat).remove(draws[k - 1] as int)
    }
}

/// The place that the draw number `k` deals.
pub open spec fn dealt_position(draws: Seq<usize>, k: int) -> (i32, i32) {
    remaining_after(draws, k as nat)[draws[k] as int]
}

/// Whether no place stands twice in a list.
pub open spec fn distinct_places(places: Seq<(i32, i32)>) -> bool {
    forall|i: int, j: int| 0 <= i < j < places.len() ==> places[i] != places[j]
}

/// The board's places differ from each other, and a card raised from any
/// of them stays within the machine's integers.
pub proof fn lemma_board_places()
    ensures
        board().len() == BOARD_SLOTS,
        distinct_places(board()),
        forall|i: int| 0 <= i < board().len() ==> (#[trigger] board()[i]).1 >= -70,
{
}

/// After `k` valid draws the free places are `BOARD_SLOTS - k` places of
/// the board, all different, and none of them has been dealt.
pub proof fn lemma_remaining(draws: Seq<usize>, count: nat, k: nat)
    requires
        valid_draws(draws, count),
        k <= count,
    ensures
        remaining_after(draws, k).len() == BOARD_SLOTS - k,
        distinct_places(remaining_after(draws, k)),
        forall|i: int|
            0 <= i < remaining_after(draws, k).len() ==> board().contains(
                #[trigger] remaining_after(draws, k)[i],
            ),
        forall|i: int, j: int|
            0 <= j < k && 0 <= i < remaining_after(draws, k).len() ==> #[trigger] remaining_after(
                draws,
                k,
            )[i] != #[trigger] dealt_position(draws, j),
    decreases k,
{
    lemma_board_places();
    if k == 0 {
        assert forall|i: int| 0 <= i < board().len() implies board().contains(
            #[trigger] board()[i],
        ) by {}
    } else {
        let prev = remaining_after(draws, (k - 1) as nat);
        let d = draws[k - 1] as int;
        let now = remaining_after(draws, k);
        lemma_remaining(draws, count, (k - 1) as nat);
        assert(now == prev.remove(d));
        assert forall|i: int| 0 <= i < now.len() implies now[i] == prev[if i < d {
            i
        } else {
            i + 1
        }] by {}
        assert forall|i: int, j: int| 0 <= j < k && 0 <= i < now.len() implies #[trigger] now[i]
            != #[trigger] dealt_position(draws, j) by {
            let src = if i < d {
                i
            } else {
                i + 1
            };
            assert(now[i] == prev[src]);
            if j == k - 1 {
                assert(dealt_position(draws, j) == prev[d]);
            }
        }
    }
}

/// The places that valid draws deal are places of the board, and no place
/// is dealt twice.
pub proof fn lemma_dealt_positions_distinct(draws: Seq<usize>, count: nat)
    requires
        valid_draws(draws, count),
    ensures
        forall|k: int| 0 <= k < count ==> board().contains(#[trigger] dealt_position(draws, k)),
        forall|i: int, j: int|
            0 <= i < j < count ==> #[trigger] dealt_position(draws, i) != #[trigger] dealt_position(
                draws,
                j,
            ),
{
    assert forall|k: int| 0 <= k < count implies board().contains(
        #[trigger] dealt_position(draws, k),
    ) by {
        lemma_remaining(draws, count, k as nat);
    }
    assert forall|i: int, j: int| 0 <= i < j < count implies #[trigger] dealt_position(draws, i)
        != #[trigger] dealt_position(draws, j) by {
        lemma_remaining(draws, count, j as nat);
        assert(dealt_position(draws, j) == remaining_after(draws, j as nat)[draws[j] as int]);
    }
}

/// The places of the board.
pub fn board_positions() -> (r: Vec<(i32, i32)>)
    ensures
        r@ == board(),
{
    let mut r: Vec<(i32, i32)> = Vec::new();
    r.push((-104, -70));
    r.push((-104, 0));
    r.push((-104, 70));
    r.push((-56, -70));
    r.push((-56, 0));
    r.push((-56, 70));
    r.push((-8, -70));
    r.push((-8, 0));
    r.push((-8, 70));
    r.push((40, -70));
    r.push((40, 0));
    r.push((40, 70));
    r.push((88, -70));
    r.push((88, 0));
    r.push((88, 70));
    r.push((136, -70));
    r.push((136, 0));
    r.push((136, 70));
    assert(r@ =~= board());
    r
}

/// The places that `draws` deal, in the order of the draws.
pub fn deal_positions(draws: &Vec<usize>) -> (r: Vec<(i32, i32)>)
    requires
        valid_draws(draws@, draws.len() as nat),
    ensures
        r.len() == draws.len(),
        forall|k: int| 0 <= k < r.len() ==> #[trigger] r@[k] == dealt_position(draws@, k),
{
    let mut remaining = board_positions();
    let mut dealt: Vec<(i32, i32)> = Vec::new();
    let mut k: usize = 0;
    proof {
        lemma_board_places();
    }
    while k < draws.len()
        invariant
            k <= draws.len(),
            valid_draws(draws@, draws.len() as nat),
            remaining@ == remaining_after(draws@, k as nat),
            remaining.len() == BOARD_SLOTS - k,
            dealt.len() == k,
            forall|j: int| 0 <= j < k ==> #[trigger] dealt@[j] == dealt_position(draws@, j),
        decreases draws.len() - k,
    {
        let index = draws[k];
        let place = remaining.remove(index);
        dealt.push(place);
        k += 1;
    }
    dealt
}

/// A random index below `bound`.
///
/// Calls `rand::thread_rng().gen_range(0..bound)`, which samples the
/// half-open range and panics when the range is empty. The contract says
/// that the index is inside the range, and no more: the value is chance.
#[verifier::external_body]
pub(crate) fn random_index(bound: usize) -> (r: usize)
    requires
        bound > 0,
    ensures
        r < bound,
{
    rand::thread_rng().gen_range(0..bound)
}

/// Draws at random the indices that deal `count` places.
pub fn draw_indices(count: usize) -> (draws: Vec<usize>)
    requires
        count <= BOARD_SLOTS,
    ensures
        valid_draws(draws@, count as nat),
{
    let mut draws: Vec<usize> = Vec::new();
    let mut k: usize = 0;
    while k < count
        invariant
            k <= count <= BOARD_SLOTS,
            draws.len() == k,
            forall|j: int| 0 <= j < k ==> (#[trigger] draws@[j]) < BOARD_SLOTS - j,
        decreases count - k,
    {
        let index = random_index(BOARD_SLOTS - k);
        draws.push(index);
        k += 1;
    }
    draws
}

} // verus!
