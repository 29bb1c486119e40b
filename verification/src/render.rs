//! The decisions behind the clock page: which clocks the page holds, which
//! wedge a click lands on, and how each wedge is filled.

use vstd::prelude::*;
use crate::clock::ProgressClock;
use crate::clock::DEFAULT_SIZE;

verus! {

/// Colour of the outline drawn round every wedge.
pub const BACKGROUND_COLOR: &'static str = "#333333";
/// Colour of a wedge that is not filled.
pub const CLOCK_COLOR: &'static str = "#444444";
/// Colour of a filled wedge, and of the title, of a positive clock.
pub const POSITIVE_TICK_COLOR: &'static str = "#E0FFFF";
/// Colour of a filled wedge, and of the title, of a negative clock.
pub const NEGATIVE_TICK_COLOR: &'static str = "#A31F34";

/// How a wedge of a clock is filled.
#[derive(Clone, Copy, Debug, PartialEq, Eq, Structural)]
pub enum WedgeFill {
    /// A ticked wedge of a positive clock.
    Positive,
    /// A ticked wedge of a negative clock.
    Negative,
    /// A wedge not yet ticked.
    Empty,
}

/// The fill of wedge `i` (counted from zero) of `clock`: the first `ticks`
/// wedges are ticked, in the colour of the clock's polarity.
pub open spec fn wedge_fill(clock: ProgressClock, i: int) -> WedgeFill {
    if clock.ticks > i {
        if clock.positive {
            WedgeFill::Positive
        } else {
            WedgeFill::Negative
        }
    } else {
        WedgeFill::Empty
    }
}

/// The number of wedges drawn for `clock`: its size, or none for a size
/// below one.
pub open spec fn wedge_count(clock: ProgressClock) -> int {
    if clock.size > 0 {
        clock.size as int
    } else {
        0
    }
}

/// Whether some clock of `clocks` has the id `id`.
pub open spec fn has_id(clocks: Seq<ProgressClock>, id: Seq<char>) -> bool {
    exists|i: int| 0 <= i < clocks.len() && (#[trigger] clocks[i]).id@ == id
}

/// No two clocks of `clocks` share an id.
pub open spec fn unique_ids(clocks: Seq<ProgressClock>) -> bool {
    forall|i: int, j: int|
        0 <= i < j < clocks.len() ==> (#[trigger] clocks[i]).id@ != (#[trigger] clocks[j]).id@
}

/// The clocks after a given clock is offered to the page: it is appended,
/// unless a clock with its id is there already.
pub open spec fn insert_clock(clocks: Seq<ProgressClock>, clock: ProgressClock) -> Seq<ProgressClock> {
    if has_id(clocks, clock.id@) {
        clocks
    } else {
        clocks.push(clock)
    }
}

/// The test "this clock's id is not `id`".
pub open spec fn id_differs(id: Seq<char>) -> spec_fn(ProgressClock) -> bool {
    |c: ProgressClock| c.id@ != id
}

/// The clocks without those whose id is `id`, the others in their order.
pub open spec fn without_id(clocks: Seq<ProgressClock>, id: Seq<char>) -> Seq<ProgressClock>
    decreases clocks.len(),
{
    if clocks.len() == 0 {
        clocks
    } else {
        let rest = without_id(clocks.drop_last(), id);
        if clocks.last().id@ == id {
            rest
        } else {
            rest.push(clocks.last())
        }
    }
}

/// `clock` is a clock just created for the page: untitled, of the default
/// size, empty, with the given id and polarity.
pub open spec fn is_new_clock(clock: ProgressClock, id: String, positive: bool) -> bool {
    &&& clock.id == id
    &&& clock.name@ == Seq::<char>::empty()
    &&& clock.positive == positive
    &&& clock.size == DEFAULT_SIZE
    &&& clock.ticks == 0
}

/// The position of the first clock with the id `id`, if there is one.
pub fn clock_index(id: &String, clocks: &Vec<ProgressClock>) -> (index: Option<usize>)
    ensures
        match index {
            Some(i) => {
                &&& i < clocks@.len()
                &&& clocks@[i as int].id@ == id@
                &&& forall|j: int| 0 <= j < i ==> (#[trigger] clocks@[j]).id@ != id@
            },
            None => !has_id(clocks@, id@),
        },
{
    let mut i: usize = 0;
    while i < clocks.len()
        invariant
            0 <= i <= clocks@.len(),
            forall|j: int| 0 <= j < i ==> (#[trigger] clocks@[j]).id@ != id@,
        decreases clocks@.len() - i,
    {
        if clocks[i].id == *id {
            return Some(i);
        }
        i = i + 1;
    }
    None
}

/// Whether a clock with the id `id` is on the page.
pub fn clock_exists(id: &String, clocks: &Vec<ProgressClock>) -> (found: bool)
    ensures
        found == has_id(clocks@, id@),
        found <==> exists|i: int| 0 <= i < clocks@.len() && (#[trigger] clocks@[i]).id@ == id@,
{
    clock_index(id, clocks).is_some()
}

/// Offers a clock to the page. A given clock is added unless a clock with
/// its id is there already; with no clock given, a new untitled clock with
/// the id `new_id` and polarity `positive` is added. Returns whether a clock
/// was added (the page then shows it).
pub fn add_clock(
    clocks: &mut Vec<ProgressClock>,
    clock: Option<ProgressClock>,
    new_id: String,
    positive: bool,
) -> (added: bool)
    ensures
        clock matches Some(c) ==> added == !has_id(old(clocks)@, c.id@),
        clock matches Some(c) ==> final(clocks)@ == insert_clock(old(clocks)@, c),
        clock is None ==> {
            &&& added
            &&& final(clocks)@.len() == old(clocks)@.len() + 1
            &&& final(clocks)@.drop_last() == old(clocks)@
            &&& is_new_clock(final(clocks)@.last(), new_id, positive)
        },
{
    match clock {
        Some(provided) => {
            let exists = clock_exists(&provided.id, clocks);
            assert(exists == has_id(old(clocks)@, provided.id@));
            if exists {
                assert(final(clocks)@ == insert_clock(old(clocks)@, provided));
                false
            } else {
                clocks.push(provided);
                assert(final(clocks)@ == insert_clock(old(clocks)@, provided));
                true
            }
        },
        None => {
            let created = ProgressClock::new(new_id, "", positive);
            proof {
                reveal_strlit("");
            }
            clocks.push(created);
            assert(final(clocks)@.drop_last() =~= old(clocks)@);
            assert(final(clocks)@.last().name@ == Seq::<char>::empty());
            true
        },
    }
}

/// Takes every clock with the id `id` off the page; the others keep their
/// order.
pub fn remove_clock(clocks: &mut Vec<ProgressClock>, id: &String)
    ensures
        final(clocks)@ == without_id(old(clocks)@, id@),
        final(clocks)@ == old(clocks)@.filter(id_differs(id@)),
{
    proof {
        crate::laws::law_remove_is_filter(clocks@, id@);
    }
    let ghost start = clocks@;
    let n = clocks.len();
    let mut i: usize = 0;
    let mut j: usize = 0;
    while i < clocks.len()
        invariant
            i <= j <= start.len(),
            start.len() == n,
            clocks@.len() == i + (start.len() - j),
            clocks@.subrange(0, i as int) == without_id(start.subrange(0, j as int), id@),
            forall|k: int| j <= k < start.len() ==> clocks@[i + (k - j)] == #[trigger] start[k],
        decreases clocks@.len() - i,
    {
        let ghost before = clocks@;
        assert(j < start.len());
        assert(start.subrange(0, j + 1).drop_last() =~= start.subrange(0, j as int));
        assert(before[i as int] == start[j as int]) by {
            assert(before[i + (j - j)] == start[j as int]);
        }
        if clocks[i].id == *id {
            clocks.remove(i);
            assert(clocks@.subrange(0, i as int) =~= before.subrange(0, i as int));
            assert forall|k: int| j + 1 <= k < start.len() implies clocks@[i + (k - (j + 1))] == #[trigger] start[k] by {
                assert(clocks@[i + (k - (j + 1))] == before[i + (k - j)]);
            }
        } else {
            i = i + 1;
            assert(clocks@.subrange(0, i as int) =~= before.subrange(0, i - 1).push(before[i - 1]));
            assert forall|k: int| j + 1 <= k < start.len() implies clocks@[i + (k - (j + 1))] == #[trigger] start[k] by {
                assert(before[(i - 1) + (k - j)] == start[k]);
            }
        }
        j = j + 1;
    }
    assert(start.subrange(0, start.len() as int) =~= start);
    assert(clocks@ =~= clocks@.subrange(0, i as int));
}

/// The fill of every wedge of `clock`, in drawing order.
pub fn wedge_fills(clock: &ProgressClock) -> (fills: Vec<WedgeFill>)
    ensures
        fills@.len() == wedge_count(*clock),
        clock.size > 0 ==> fills@.len() == clock.size,
        clock.size <= 0 ==> fills@.len() == 0,
        forall|i: int| 0 <= i < fills@.len() ==> #[trigger] fills@[i] == wedge_fill(*clock, i),
        forall|i: int|
            0 <= i < fills@.len() ==> (#[trigger] fills@[i] != WedgeFill::Empty <==> i < clock.ticks),
        forall|i: int|
            0 <= i < fills@.len() ==> (#[trigger] fills@[i] == WedgeFill::Positive <==> (i < clock.ticks
                && clock.positive)),
        forall|i: int|
            0 <= i < fills@.len() ==> (#[trigger] fills@[i] == WedgeFill::Negative <==> (i < clock.ticks
                && !clock.positive)),
{
    let mut fills: Vec<WedgeFill> = Vec::new();
    let mut i: i32 = 0;
    while i < clock.size
        invariant
            0 <= i,
            i <= wedge_count(*clock),
            fills@.len() == i,
            forall|k: int| 0 <= k < fills@.len() ==> #[trigger] fills@[k] == wedge_fill(*clock, k),
        decreases clock.size - i,
    {
        let fill = if clock.ticks > i {
            if clock.positive {
                WedgeFill::Positive
            } else {
                WedgeFill::Negative
            }
        } else {
            WedgeFill::Empty
        };
        fills.push(fill);
        i = i + 1;
    }
    fills
}

/// The colour a wedge with the fill `fill` is painted in.
pub fn fill_color(fill: WedgeFill) -> (color: &'static str)
    ensures
        color == (match fill {
            WedgeFill::Positive => POSITIVE_TICK_COLOR,
            WedgeFill::Negative => NEGATIVE_TICK_COLOR,
            WedgeFill::Empty => CLOCK_COLOR,
        }),
{
    match fill {
        WedgeFill::Positive => POSITIVE_TICK_COLOR,
        WedgeFill::Negative => NEGATIVE_TICK_COLOR,
        WedgeFill::Empty => CLOCK_COLOR,
    }
}

/// The colour of the title of a clock of polarity `positive`.
pub fn title_color(positive: bool) -> (color: &'static str)
    ensures
        color == (if positive { POSITIVE_TICK_COLOR } else { NEGATIVE_TICK_COLOR }),
{
    if positive {
        POSITIVE_TICK_COLOR
    } else {
        NEGATIVE_TICK_COLOR
    }
}

/// The wedge a click lands on, counted from one, given for each wedge in
/// drawing order whether the click point lies inside it: the first wedge
/// that holds the point, or none.
pub fn check_tick(hits: &Vec<bool>) -> (wedge: Option<i32>)
    requires
        hits@.len() <= i32::MAX,
    ensures
        match wedge {
            Some(w) => {
                &&& 1 <= w <= hits@.len()
                &&& hits@[w - 1]
                &&& forall|k: int| 0 <= k < w - 1 ==> !(#[trigger] hits@[k])
            },
            None => forall|k: int| 0 <= k < hits@.len() ==> !(#[trigger] hits@[k]),
        },
{
    let mut i: usize = 0;
    while i < hits.len()
        invariant
            i <= hits@.len() <= i32::MAX,
            forall|k: int| 0 <= k < i ==> !(#[trigger] hits@[k]),
        decreases hits@.len() - i,
    {
        if hits[i] {
            return Some((i + 1) as i32);
        }
        i = i + 1;
    }
    None
}

} // verus!
