//! What holds of the page's clocks across operations: removal undoes an
//! addition, importing twice is importing once, exported clocks come back
//! as they were, and ids stay unique.

use vstd::prelude::*;
use crate::clock::ProgressClock;
use crate::render::WedgeFill;
use crate::render::has_id;
use crate::render::id_differs;
use crate::render::insert_clock;
use crate::render::unique_ids;
use crate::render::wedge_count;
use crate::render::wedge_fill;
use crate::render::without_id;
use crate::storage::import_all;

verus! {

/// A clock appended to `clocks` is found by its id, and so is every id that
/// was found before.
proof fn lemma_has_id_push(clocks: Seq<ProgressClock>, clock: ProgressClock, id: Seq<char>)
    ensures
        has_id(clocks.push(clock), id) <==> (has_id(clocks, id) || clock.id@ == id),
{
    let pushed = clocks.push(clock);
    if has_id(pushed, id) {
        let i = choose|i: int| 0 <= i < pushed.len() && (#[trigger] pushed[i]).id@ == id;
        if i < clocks.len() {
            assert(clocks[i] == pushed[i]);
        }
    }
    if has_id(clocks, id) {
        let i = choose|i: int| 0 <= i < clocks.len() && (#[trigger] clocks[i]).id@ == id;
        assert(pushed[i] == clocks[i]);
    }
    if clock.id@ == id {
        assert(pushed[clocks.len() as int] == clock);
    }
}

/// A non-empty sequence is its front with its last clock appended.
proof fn lemma_split_last(clocks: Seq<ProgressClock>)
    requires
        clocks.len() > 0,
    ensures
        clocks == clocks.drop_last().push(clocks.last()),
{
    assert(clocks =~= clocks.drop_last().push(clocks.last()));
}

/// The clocks left after removing the id `id` are found by exactly the ids
/// of `clocks` other than `id`.
proof fn lemma_without_id_has(clocks: Seq<ProgressClock>, id: Seq<char>, other: Seq<char>)
    ensures
        has_id(without_id(clocks, id), other) <==> (has_id(clocks, other) && other != id),
    decreases clocks.len(),
{
    if clocks.len() > 0 {
        let front = clocks.drop_last();
        lemma_without_id_has(front, id, other);
        lemma_split_last(clocks);
        lemma_has_id_push(front, clocks.last(), other);
        let rest = without_id(front, id);
        lemma_has_id_push(rest, clocks.last(), other);
    }
}

/// Removing an id that no clock has changes nothing.
proof fn lemma_without_absent_id(clocks: Seq<ProgressClock>, id: Seq<char>)
    requires
        !has_id(clocks, id),
    ensures
        without_id(clocks, id) == clocks,
    decreases clocks.len(),
{
    if clocks.len() > 0 {
        let front = clocks.drop_last();
        lemma_split_last(clocks);
        lemma_has_id_push(front, clocks.last(), id);
        lemma_without_absent_id(front, id);
    }
}

/// Appending a clock whose id is new keeps the ids unique.
proof fn lemma_unique_push(clocks: Seq<ProgressClock>, clock: ProgressClock)
    requires
        unique_ids(clocks),
        !has_id(clocks, clock.id@),
    ensures
        unique_ids(clocks.push(clock)),
{
    let pushed = clocks.push(clock);
    assert forall|i: int, j: int| 0 <= i < j < pushed.len() implies
        (#[trigger] pushed[i]).id@ != (#[trigger] pushed[j]).id@ by {
        assert(pushed[i] == clocks[i]);
        if j < clocks.len() {
            assert(pushed[j] == clocks[j]);
        } else {
            assert(pushed[j] == clock);
        }
    }
}

/// Importing never loses a clock's id.
proof fn lemma_import_keeps_id(clocks: Seq<ProgressClock>, imported: Seq<ProgressClock>, id: Seq<char>)
    requires
        has_id(clocks, id),
    ensures
        has_id(import_all(clocks, imported), id),
    decreases imported.len(),
{
    if imported.len() > 0 {
        let before = import_all(clocks, imported.drop_last());
        lemma_import_keeps_id(clocks, imported.drop_last(), id);
        lemma_has_id_push(before, imported.last(), id);
    }
}

/// After an import, the id of every imported clock is on the page.
proof fn lemma_import_has_imported(clocks: Seq<ProgressClock>, imported: Seq<ProgressClock>, i: int)
    requires
        0 <= i < imported.len(),
    ensures
        has_id(import_all(clocks, imported), imported[i].id@),
    decreases imported.len(),
{
    let front = imported.drop_last();
    let before = import_all(clocks, front);
    lemma_has_id_push(before, imported.last(), imported[i].id@);
    if i < front.len() {
        assert(front[i] == imported[i]);
        lemma_import_has_imported(clocks, front, i);
    }
}

/// Importing clocks whose ids are all on the page already changes nothing.
proof fn lemma_import_present_ids(clocks: Seq<ProgressClock>, imported: Seq<ProgressClock>)
    requires
        forall|i: int| 0 <= i < imported.len() ==> has_id(clocks, (#[trigger] imported[i]).id@),
    ensures
        import_all(clocks, imported) == clocks,
    decreases imported.len(),
{
    if imported.len() > 0 {
        let front = imported.drop_last();
        assert forall|i: int| 0 <= i < front.len() implies has_id(clocks, (#[trigger] front[i]).id@) by {
            assert(front[i] == imported[i]);
        }
        lemma_import_present_ids(clocks, front);
        assert(has_id(clocks, imported[imported.len() - 1].id@));
    }
}

/// Removing a clock's id right after the clock was added gives back the
/// clocks as they were: a clock offered with a new id is appended, and
/// removing that id takes exactly it away again. This holds alike of a
/// given clock (`insert_clock`) and of a newly created one, which
/// `add_clock` appends.
pub proof fn law_remove_undoes_add(clocks: Seq<ProgressClock>, clock: ProgressClock)
    requires
        !has_id(clocks, clock.id@),
    ensures
        insert_clock(clocks, clock) == clocks.push(clock),
        without_id(clocks.push(clock), clock.id@) == clocks,
        without_id(insert_clock(clocks, clock), clock.id@) == clocks,
{
    let pushed = clocks.push(clock);
    assert(pushed.drop_last() =~= clocks);
    lemma_without_absent_id(clocks, clock.id@);
}

/// After a clock's id is removed, no clock on the page has that id, and
/// every other id that was there is still there.
pub proof fn law_removed_id_is_gone(clocks: Seq<ProgressClock>, id: Seq<char>, other: Seq<char>)
    ensures
        !has_id(without_id(clocks, id), id),
        has_id(without_id(clocks, id), other) <==> (has_id(clocks, other) && other != id),
{
    lemma_without_id_has(clocks, id, id);
    lemma_without_id_has(clocks, id, other);
}

/// Offering a clock whose id is on the page already leaves the page as it
/// was; offering it again after it was added changes nothing more.
pub proof fn law_add_is_idempotent(clocks: Seq<ProgressClock>, clock: ProgressClock)
    ensures
        has_id(clocks, clock.id@) ==> insert_clock(clocks, clock) == clocks,
        insert_clock(insert_clock(clocks, clock), clock) == insert_clock(clocks, clock),
{
    lemma_has_id_push(clocks, clock, clock.id@);
}

/// Importing the same clocks twice gives what importing them once gives.
pub proof fn law_import_is_idempotent(clocks: Seq<ProgressClock>, imported: Seq<ProgressClock>)
    ensures
        import_all(import_all(clocks, imported), imported) == import_all(clocks, imported),
{
    let once = import_all(clocks, imported);
    assert forall|i: int| 0 <= i < imported.len() implies has_id(once, (#[trigger] imported[i]).id@) by {
        lemma_import_has_imported(clocks, imported, i);
    }
    lemma_import_present_ids(once, imported);
}

/// Clocks with unique ids, none of them on the page, are all appended by an
/// import, in their order.
pub proof fn law_import_appends_new_clocks(clocks: Seq<ProgressClock>, imported: Seq<ProgressClock>)
    requires
        unique_ids(imported),
        forall|i: int| 0 <= i < imported.len() ==> !has_id(clocks, (#[trigger] imported[i]).id@),
    ensures
        import_all(clocks, imported) == clocks + imported,
    decreases imported.len(),
{
    if imported.len() > 0 {
        let front = imported.drop_last();
        let last = imported.last();
        assert forall|i: int, j: int| 0 <= i < j < front.len() implies
            (#[trigger] front[i]).id@ != (#[trigger] front[j]).id@ by {
            assert(front[i] == imported[i] && front[j] == imported[j]);
        }
        assert forall|i: int| 0 <= i < front.len() implies !has_id(clocks, (#[trigger] front[i]).id@) by {
            assert(front[i] == imported[i]);
        }
        law_import_appends_new_clocks(clocks, front);
        let joined = clocks + front;
        assert(!has_id(joined, last.id@)) by {
            if has_id(joined, last.id@) {
                let k = choose|k: int| 0 <= k < joined.len() && (#[trigger] joined[k]).id@ == last.id@;
                if k < clocks.len() {
                    assert(joined[k] == clocks[k]);
                    assert(!has_id(clocks, imported[imported.len() - 1].id@));
                } else {
                    assert(joined[k] == imported[k - clocks.len()]);
                    assert(imported[k - clocks.len()].id@ != imported[imported.len() - 1].id@);
                }
            }
        }
        assert(joined.push(last) =~= clocks + imported);
    }
}

/// Clocks exported from a page whose ids are unique come back as they were
/// when imported into an empty page.
pub proof fn law_export_import_round_trip(exported: Seq<ProgressClock>)
    requires
        unique_ids(exported),
    ensures
        import_all(Seq::<ProgressClock>::empty(), exported) == exported,
{
    law_import_appends_new_clocks(Seq::<ProgressClock>::empty(), exported);
    assert(Seq::<ProgressClock>::empty() + exported =~= exported);
}

/// Adding a given clock keeps the page's ids unique, and so does adding a
/// new clock whose id is not on the page.
pub proof fn law_add_keeps_ids_unique(clocks: Seq<ProgressClock>, clock: ProgressClock)
    requires
        unique_ids(clocks),
    ensures
        unique_ids(insert_clock(clocks, clock)),
        !has_id(clocks, clock.id@) ==> unique_ids(clocks.push(clock)),
{
    if !has_id(clocks, clock.id@) {
        lemma_unique_push(clocks, clock);
    }
}

/// Importing clocks keeps the page's ids unique, whatever is imported.
pub proof fn law_import_keeps_ids_unique(clocks: Seq<ProgressClock>, imported: Seq<ProgressClock>)
    requires
        unique_ids(clocks),
    ensures
        unique_ids(import_all(clocks, imported)),
    decreases imported.len(),
{
    if imported.len() > 0 {
        law_import_keeps_ids_unique(clocks, imported.drop_last());
        law_add_keeps_ids_unique(import_all(clocks, imported.drop_last()), imported.last());
    }
}

/// Removing clocks keeps the page's ids unique.
pub proof fn law_remove_keeps_ids_unique(clocks: Seq<ProgressClock>, id: Seq<char>)
    requires
        unique_ids(clocks),
    ensures
        unique_ids(without_id(clocks, id)),
    decreases clocks.len(),
{
    if clocks.len() > 0 {
        let front = clocks.drop_last();
        let last = clocks.last();
        assert forall|i: int, j: int| 0 <= i < j < front.len() implies
            (#[trigger] front[i]).id@ != (#[trigger] front[j]).id@ by {
            assert(front[i] == clocks[i] && front[j] == clocks[j]);
        }
        law_remove_keeps_ids_unique(front, id);
        if last.id@ != id {
            assert(!has_id(front, last.id@)) by {
                if has_id(front, last.id@) {
                    let k = choose|k: int| 0 <= k < front.len() && (#[trigger] front[k]).id@ == last.id@;
                    assert(front[k] == clocks[k]);
                    assert(clocks[k].id@ != clocks[clocks.len() - 1].id@);
                }
            }
            lemma_without_id_has(front, id, last.id@);
            lemma_unique_push(without_id(front, id), last);
        }
    }
}

/// The wedge numbers that `check_tick` reports count from one and the fill
/// of `wedge_fills` counts from zero, so a clock ticked up to the clicked
/// wedge `wedge` shows that wedge and every one before it filled, and none
/// after it.
pub proof fn law_clicked_wedge_is_filled(clock: ProgressClock, wedge: i32, i: int)
    requires
        1 <= wedge,
        0 <= i,
    ensures
        wedge_fill(clock.with_ticks(wedge), i) != WedgeFill::Empty <==> i <= wedge - 1,
        wedge_fill(clock.with_ticks(wedge), wedge - 1) == (if clock.positive {
            WedgeFill::Positive
        } else {
            WedgeFill::Negative
        }),
{
}

/// Removing an id keeps exactly the clocks with another id, each as it was
/// and in its order: the page filtered by "id differs".
pub proof fn law_remove_is_filter(clocks: Seq<ProgressClock>, id: Seq<char>)
    ensures
        without_id(clocks, id) == clocks.filter(id_differs(id)),
    decreases clocks.len(),
{
    reveal_with_fuel(Seq::filter, 1);
    if clocks.len() > 0 {
        law_remove_is_filter(clocks.drop_last(), id);
    } else {
        assert(clocks.filter(id_differs(id)) =~= clocks);
    }
}

/// Every clock left after a removal is one of the page's clocks, unchanged,
/// whose id is not the removed one; and every such clock is left.
pub proof fn law_remove_keeps_other_clocks(clocks: Seq<ProgressClock>, id: Seq<char>, clock: ProgressClock)
    ensures
        without_id(clocks, id).contains(clock) <==> (clocks.contains(clock) && clock.id@ != id),
{
    law_remove_is_filter(clocks, id);
    let pred = id_differs(id);
    let kept = clocks.filter(pred);
    if kept.contains(clock) {
        let k = choose|k: int| 0 <= k < kept.len() && kept[k] == clock;
        clocks.lemma_filter_pred(pred, k);
        clocks.lemma_filter_contains_rev(pred, clock);
    }
    if clocks.contains(clock) && clock.id@ != id {
        let k = choose|k: int| 0 <= k < clocks.len() && clocks[k] == clock;
        clocks.lemma_filter_contains(pred, k);
    }
}

/// Wedge `i` of a drawn clock is filled exactly when `i` is below the
/// clock's ticks, in the clock's polarity; so a clock with no ticks (or
/// fewer than none) is drawn with every wedge empty. A clock of positive
/// size has that many wedges, any other none.
pub proof fn law_wedges_filled_below_ticks(clock: ProgressClock, i: int)
    requires
        0 <= i,
    ensures
        clock.size > 0 ==> wedge_count(clock) == clock.size,
        clock.size <= 0 ==> wedge_count(clock) == 0,
        wedge_fill(clock, i) != WedgeFill::Empty <==> i < clock.ticks,
        wedge_fill(clock, i) == WedgeFill::Positive <==> (i < clock.ticks && clock.positive),
        wedge_fill(clock, i) == WedgeFill::Negative <==> (i < clock.ticks && !clock.positive),
        clock.ticks <= 0 ==> wedge_fill(clock, i) == WedgeFill::Empty,
{
}

/// Setting the ticks changes the ticks alone: id, name, polarity and size
/// stay as they were.
pub proof fn law_ticking_keeps_other_fields(clock: ProgressClock, ticks: i32)
    ensures
        clock.with_ticks(ticks).ticks == ticks,
        clock.with_ticks(ticks).size == clock.size,
        clock.with_ticks(ticks).id == clock.id,
        clock.with_ticks(ticks).name == clock.name,
        clock.with_ticks(ticks).positive == clock.positive,
{
}

/// Resizing changes the size alone: id, name, polarity and ticks stay as
/// they were.
pub proof fn law_resizing_keeps_other_fields(clock: ProgressClock, size: i32)
    ensures
        clock.with_size(size).size == size,
        clock.with_size(size).ticks == clock.ticks,
        clock.with_size(size).id == clock.id,
        clock.with_size(size).name == clock.name,
        clock.with_size(size).positive == clock.positive,
{
}

/// Enlarging adds exactly one wedge to a clock of any size below
/// `i32::MAX`, and leaves a clock of that size alone.
pub proof fn law_enlarge_adds_one_wedge(size: i32)
    ensures
        size < i32::MAX ==> ProgressClock::enlarged_size(size) == size + 1,
        size == i32::MAX ==> ProgressClock::enlarged_size(size) == size,
{
}

/// Reducing takes exactly one wedge from a clock of more than one wedge, and
/// leaves a clock of one wedge (or fewer) alone.
pub proof fn law_reduce_takes_one_wedge(size: i32)
    ensures
        size > 1 ==> ProgressClock::reduced_size(size) == size - 1,
        size <= 1 ==> ProgressClock::reduced_size(size) == size,
{
}

/// Reducing undoes enlarging, and enlarging undoes reducing, on the sizes
/// where both change the size.
pub proof fn law_reduce_undoes_enlarge(size: i32)
    ensures
        1 <= size < i32::MAX ==> ProgressClock::reduced_size(ProgressClock::enlarged_size(size)) == size,
        size > 1 ==> ProgressClock::enlarged_size(ProgressClock::reduced_size(size)) == size,
{
}

} // verus!
