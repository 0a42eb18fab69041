//! The numeric filters collected once the selection is complete.
//!
//! Ratings are whole tenths of a point, `0` through `100`, standing for
//! `0.0` through `10.0`; the shell converts at its edge. Every setter
//! corrects invalid input to the nearest valid value instead of
//! rejecting it, so the constraints are valid at all times.

use vstd::prelude::*;

verus! {

/// Mathematical image of [`PreferenceConstraints`].
pub struct ConstraintsView {
    pub year_min: int,
    pub year_max: int,
    pub runtime_min: int,
    pub runtime_max: int,
    pub min_rating_tenths: int,
}

impl ConstraintsView {
    /// Both ranges are ordered and the rating threshold lies within the
    /// ten-point scale.
    pub open spec fn wf(self) -> bool {
        &&& self.year_min <= self.year_max
        &&& self.runtime_min <= self.runtime_max
        &&& 0 <= self.min_rating_tenths <= 100
    }

    /// The constraints a session starts from.
    pub open spec fn initial() -> ConstraintsView {
        ConstraintsView {
            year_min: 2000,
            year_max: 2023,
            runtime_min: 60,
            runtime_max: 180,
            min_rating_tenths: 50,
        }
    }

    /// `self` with the year range replaced by `(lo, hi)`, the upper bound
    /// raised to `lo` when the two arrive out of order.
    pub open spec fn with_year_range(self, lo: int, hi: int) -> ConstraintsView {
        ConstraintsView { year_min: lo, year_max: if hi >= lo { hi } else { lo }, ..self }
    }

    /// `self` with the runtime range replaced the same way.
    pub open spec fn with_runtime_range(self, lo: int, hi: int) -> ConstraintsView {
        ConstraintsView { runtime_min: lo, runtime_max: if hi >= lo { hi } else { lo }, ..self }
    }

    /// `self` with the rating threshold replaced by `tenths` clamped to
    /// the scale.
    pub open spec fn with_min_rating(self, tenths: int) -> ConstraintsView {
        ConstraintsView {
            min_rating_tenths: if tenths < 0 {
                0
            } else if tenths > 100 {
                100
            } else {
                tenths
            },
            ..self
        }
    }
}

/// The mutable filter state: a year range, a runtime range (minutes) and
/// a minimum rating, each kept valid by its setter.
#[derive(Clone, Copy, Debug, PartialEq, Eq, Structural)]
pub struct PreferenceConstraints {
    year_min: i32,
    year_max: i32,
    runtime_min: i32,
    runtime_max: i32,
    min_rating_tenths: u8,
}

impl View for PreferenceConstraints {
    type V = ConstraintsView;

    closed spec fn view(&self) -> ConstraintsView {
        ConstraintsView {
            year_min: self.year_min as int,
            year_max: self.year_max as int,
            runtime_min: self.runtime_min as int,
            runtime_max: self.runtime_max as int,
            min_rating_tenths: self.min_rating_tenths as int,
        }
    }
}

impl Default for PreferenceConstraints {
    /// The defaults shown when preference collection begins.
    fn default() -> (r: Self)
        ensures
            r@ == ConstraintsView::initial(),
            r@.wf(),
    {
        PreferenceConstraints {
            year_min: 2000,
            year_max: 2023,
            runtime_min: 60,
            runtime_max: 180,
            min_rating_tenths: 50,
        }
    }
}

impl PreferenceConstraints {
    /// Replaces the year range, correcting an out-of-order pair.
    pub fn set_year_range(&mut self, lo: i32, hi: i32)
        ensures
            final(self)@ == old(self)@.with_year_range(lo as int, hi as int),
            old(self)@.wf() ==> final(self)@.wf(),
    {
        self.year_min = lo;
        self.year_max = if hi >= lo {
            hi
        } else {
            lo
        };
    }

    /// Replaces the runtime range, correcting an out-of-order pair.
    pub fn set_runtime_range(&mut self, lo: i32, hi: i32)
        ensures
            final(self)@ == old(self)@.with_runtime_range(lo as int, hi as int),
            old(self)@.wf() ==> final(self)@.wf(),
    {
        self.runtime_min = lo;
        self.runtime_max = if hi >= lo {
            hi
        } else {
            lo
        };
    }

    /// Replaces the rating threshold, clamped into the ten-point scale.
    pub fn set_min_rating_tenths(&mut self, tenths: i32)
        ensures
            final(self)@ == old(self)@.with_min_rating(tenths as int),
            old(self)@.wf() ==> final(self)@.wf(),
    {
        self.min_rating_tenths = if tenths < 0 {
            0
        } else if tenths > 100 {
            100
        } else {
            tenths as u8
        };
    }

    /// Lower bound of the year range.
    pub fn year_min(&self) -> (r: i32)
        ensures
            r as int == self@.year_min,
    {
        self.year_min
    }

    /// Upper bound of the year range.
    pub fn year_max(&self) -> (r: i32)
        ensures
            r as int == self@.year_max,
    {
        self.year_max
    }

    /// Lower bound of the runtime range, in minutes.
    pub fn runtime_min(&self) -> (r: i32)
        ensures
            r as int == self@.runtime_min,
    {
        self.runtime_min
    }

    /// Upper bound of the runtime range, in minutes.
    pub fn runtime_max(&self) -> (r: i32)
        ensures
            r as int == self@.runtime_max,
    {
        self.runtime_max
    }

    /// The rating threshold, in tenths of a point.
    pub fn min_rating_tenths(&self) -> (r: u8)
        ensures
            r as int == self@.min_rating_tenths,
    {
        self.min_rating_tenths
    }
}

} // verus!
