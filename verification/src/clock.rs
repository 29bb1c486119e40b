//! A single progress clock.

use vstd::prelude::*;
use vstd::string::StringExecFns;

verus! {

/// Number of wedges a freshly created clock is divided into.
pub const DEFAULT_SIZE: i32 = 4;

/// A progress clock: a circle cut into `size` wedges, of which the first
/// `ticks` are filled. A positive clock counts towards a goal, a negative one
/// towards a threat; `id` names the clock on the page and in saved data.
#[derive(Debug)]
pub struct ProgressClock {
    pub id: String,
    pub name: String,
    pub positive: bool,
    pub size: i32,
    pub ticks: i32,
}

impl Clone for ProgressClock {
    fn clone(&self) -> (res: Self)
        ensures
            res == *self,
    {
        ProgressClock {
            id: self.id.clone(),
            name: self.name.clone(),
            positive: self.positive,
            size: self.size,
            ticks: self.ticks,
        }
    }
}

impl ProgressClock {
    /// A clock with the given id and name, of the default size, with no
    /// wedge filled.
    pub fn new(id: String, name: &str, positive: bool) -> (clock: Self)
        ensures
            clock.id == id,
            clock.name@ == name@,
            clock.positive == positive,
            clock.size == DEFAULT_SIZE,
            clock.ticks == 0,
    {
        ProgressClock { id, name: String::from_str(name), positive, size: DEFAULT_SIZE, ticks: 0 }
    }

    pub fn get_id(&self) -> (id: String)
        ensures
            id == self.id,
    {
        self.id.clone()
    }

    pub fn get_name(&self) -> (name: String)
        ensures
            name == self.name,
    {
        self.name.clone()
    }

    pub fn is_positive(&self) -> (positive: bool)
        ensures
            positive == self.positive,
    {
        self.positive
    }

    pub fn get_size(&self) -> (size: i32)
        ensures
            size == self.size,
    {
        self.size
    }

    /// The clock with its size changed to `size` and its fill left alone.
    pub open spec fn with_size(self, size: i32) -> Self {
        ProgressClock { size, ..self }
    }

    /// The clock with `ticks` wedges filled.
    pub open spec fn with_ticks(self, ticks: i32) -> Self {
        ProgressClock { ticks, ..self }
    }

    /// Size after `enlarge`: one wedge more, unless no more fit in an `i32`.
    pub open spec fn enlarged_size(size: i32) -> i32 {
        if size < i32::MAX { (size + 1) as i32 } else { size }
    }

    /// Size after `reduce`: one wedge fewer, but never below one wedge.
    pub open spec fn reduced_size(size: i32) -> i32 {
        if size > 1 { (size - 1) as i32 } else { size }
    }

    /// Renames the clock; nothing else changes.
    pub fn set_name(&mut self, name: &str)
        ensures
            final(self).name@ == name@,
            final(self).id == old(self).id,
            final(self).positive == old(self).positive,
            final(self).size == old(self).size,
            final(self).ticks == old(self).ticks,
    {
        self.name = String::from_str(name);
    }

    /// Adds one wedge to the clock; the filled wedges stay filled.
    pub fn enlarge(&mut self)
        ensures
            *final(self) == old(self).with_size(Self::enlarged_size(old(self).size)),
            old(self).size < i32::MAX ==> final(self).size == old(self).size + 1,
            old(self).size == i32::MAX ==> final(self).size == old(self).size,
            final(self).ticks == old(self).ticks,
            final(self).id == old(self).id,
            final(self).name == old(self).name,
            final(self).positive == old(self).positive,
    {
        if self.size < i32::MAX {
            self.size = self.size + 1;
        }
    }

    /// Takes one wedge away from the clock (a clock keeps at least one
    /// wedge); a fill beyond the new size is cut down to it.
    pub fn reduce(&mut self)
        ensures
            final(self).size == Self::reduced_size(old(self).size),
            old(self).size > 1 ==> final(self).size == old(self).size - 1,
            old(self).size <= 1 ==> final(self).size == old(self).size,
            final(self).ticks == (if old(self).ticks > final(self).size {
                final(self).size
            } else {
                old(self).ticks
            }),
            final(self).id == old(self).id,
            final(self).name == old(self).name,
            final(self).positive == old(self).positive,
    {
        if self.size > 1 {
            self.size = self.size - 1;
        }
        if self.ticks > self.size {
            self.ticks = self.size;
        }
    }

    /// Records a click on wedge `wedge` (counted from one): the clock is
    /// filled up to and including that wedge.
    pub fn process_click(&mut self, wedge: i32)
        ensures
            *final(self) == old(self).with_ticks(wedge),
            final(self).ticks == wedge,
            final(self).size == old(self).size,
            final(self).id == old(self).id,
            final(self).name == old(self).name,
            final(self).positive == old(self).positive,
    {
        self.ticks = wedge;
    }

    pub fn get_ticks(&self) -> (ticks: i32)
        ensures
            ticks == self.ticks,
    {
        self.ticks
    }
}

} // verus!
