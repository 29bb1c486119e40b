//! Saving clocks away and bringing them back: the export link, and adding
//! imported or stored clocks to the page.

use vstd::prelude::*;
use vstd::string::StringExecFns;
use crate::clock::ProgressClock;
use crate::render::add_clock;
use crate::render::has_id;
use crate::render::insert_clock;

verus! {

/// Start of the data URL under which exported clocks are offered for download.
pub const EXPORT_LINK_PREFIX: &'static str = "data:text/plain;charset=utf-8,";
/// Name of the file that exported clocks are downloaded to.
pub const EXPORT_FILE_NAME: &'static str = "progress_clocks.json";
/// Key under which the clocks are kept in the browser's local storage.
pub const STORAGE_KEY: &'static str = "prog_rs_clocks";

/// The clocks after each of `imported` is offered to the page in turn: a
/// clock is added unless one with its id is there by then.
pub open spec fn import_all(clocks: Seq<ProgressClock>, imported: Seq<ProgressClock>) -> Seq<ProgressClock>
    decreases imported.len(),
{
    if imported.len() == 0 {
        clocks
    } else {
        insert_clock(import_all(clocks, imported.drop_last()), imported.last())
    }
}

/// The data URL that offers the serialised clocks `json` for download.
pub fn export_link(json: &str) -> (link: String)
    ensures
        link@ == EXPORT_LINK_PREFIX@ + json@,
{
    let mut link = String::from_str(EXPORT_LINK_PREFIX);
    link.append(json);
    link
}

/// Offers each of the `imported` clocks to the page in turn, as `add_clock`
/// does; returns how many were added (they are the last ones of `clocks`).
pub fn import_clocks(clocks: &mut Vec<ProgressClock>, imported: &Vec<ProgressClock>) -> (added: usize)
    ensures
        final(clocks)@ == import_all(old(clocks)@, imported@),
        final(clocks)@.len() == old(clocks)@.len() + added,
        final(clocks)@.subrange(0, old(clocks)@.len() as int) == old(clocks)@,
{
    let ghost start = clocks@;
    let start_len = clocks.len();
    let mut added: usize = 0;
    let mut k: usize = 0;
    while k < imported.len()
        invariant
            k <= imported@.len(),
            clocks@ == import_all(start, imported@.take(k as int)),
            clocks@.len() == start.len() + added,
            start_len == start.len(),
            clocks@.subrange(0, start.len() as int) == start,
        decreases imported@.len() - k,
    {
        assert(imported@.take(k + 1).drop_last() =~= imported@.take(k as int));
        let clock = imported[k].clone();
        let positive = clock.is_positive();
        let ghost before = clocks@;
        if add_clock(clocks, Some(clock), String::new(), positive) {
            added = clocks.len() - start_len;
            assert(clocks@.subrange(0, start.len() as int) =~= before.subrange(0, start.len() as int));
        }
        k = k + 1;
    }
    assert(imported@.take(k as int) =~= imported@);
    added
}

/// Adds the clocks read back from storage, if any were stored; returns how
/// many were added.
pub fn load_clocks(clocks: &mut Vec<ProgressClock>, stored: Option<Vec<ProgressClock>>) -> (added: usize)
    ensures
        match stored {
            Some(saved) => final(clocks)@ == import_all(old(clocks)@, saved@),
            None => final(clocks)@ == old(clocks)@,
        },
        final(clocks)@.len() == old(clocks)@.len() + added,
        final(clocks)@.subrange(0, old(clocks)@.len() as int) == old(clocks)@,
{
    match stored {
        Some(saved) => import_clocks(clocks, &saved),
        None => {
            assert(clocks@.subrange(0, clocks@.len() as int) =~= clocks@);
            0
        },
    }
}

} // verus!
