//! Closed ranges that express the platform's documented limits.

use vstd::prelude::*;
use crate::errors::verdict;
use crate::errors::Measure;
use crate::errors::ValidationError;
use crate::errors::Violation;
use vstd::std_specs::cmp::PartialOrdIs;
use vstd::std_specs::cmp::PartialOrdSpec;

verus! {

/// A closed range `[min_allowed, max_allowed]` over a totally ordered type.
///
/// Nothing forces `min_allowed <= max_allowed`: an interval built the other
/// way round simply contains no value.
pub struct Interval<T> {
    pub max_allowed: T,
    pub min_allowed: T,
}

impl<T: Ord> Interval<T> {
    /// `value` lies between the two bounds, both included, in the order of `T`.
    pub open spec fn encloses(&self, value: &T) -> bool {
        self.min_allowed.is_le(value) && self.max_allowed.is_ge(value)
    }

    pub fn from_min_max(min_allowed: T, max_allowed: T) -> (interval: Self)
        ensures
            interval.min_allowed == min_allowed,
            interval.max_allowed == max_allowed,
    {
        Interval { min_allowed, max_allowed }
    }

    /// The containment test. The result is tied to [`Self::encloses`] for every
    /// `T` whose comparison operators follow its specified order, which is the
    /// case for all primitive integers.
    pub fn contains(&self, value: &T) -> (inside: bool)
        ensures
            T::obeys_partial_cmp_spec() ==> inside == self.encloses(value),
    {
        self.min_allowed <= *value && self.max_allowed >= *value
    }
}

impl Interval<usize> {
    /// `n` lies in the closed range, as a statement over the integers.
    pub open spec fn admits(&self, n: int) -> bool {
        self.min_allowed <= n <= self.max_allowed
    }

    /// On `usize`, enclosure is the usual `min <= value <= max`.
    pub proof fn lemma_encloses_is_admits(self, value: usize)
        ensures
            self.encloses(&value) == self.admits(value as int),
    {
    }

    /// A limit is inclusive at each bound and exclusive just beyond it.
    pub proof fn lemma_inclusive_at_bounds(self)
        requires
            self.min_allowed <= self.max_allowed,
        ensures
            self.admits(self.max_allowed as int),
            !self.admits(self.max_allowed + 1),
            self.admits(self.min_allowed as int),
            !self.admits(self.min_allowed - 1),
    {
    }
}

impl Interval<u8> {
    /// `n` lies in the closed range, as a statement over the integers.
    pub open spec fn admits(&self, n: int) -> bool {
        self.min_allowed <= n <= self.max_allowed
    }

    /// The same range over `usize`.
    pub open spec fn widened(&self) -> Interval<usize> {
        Interval { min_allowed: self.min_allowed as usize, max_allowed: self.max_allowed as usize }
    }

    /// Converts the bounds to `usize`, the type in which violations are reported.
    pub fn widen(&self) -> (wide: Interval<usize>)
        ensures
            wide == self.widened(),
    {
        Interval { min_allowed: self.min_allowed as usize, max_allowed: self.max_allowed as usize }
    }

    /// Widening changes nothing about which numbers are admitted.
    pub proof fn lemma_widened_admits_the_same(self, n: int)
        ensures
            self.widened().admits(n) == self.admits(n),
    {
    }
}

/// What testing `value` against `interval` reports: nothing if the interval
/// admits it, else the breach of `measure` with the value and both bounds.
pub open spec fn checked_against(
    interval: Interval<usize>,
    value: nat,
    measure: Measure,
) -> Result<(), Violation> {
    if interval.admits(value as int) {
        Ok(())
    } else {
        Err(measure.breach(value, interval.min_allowed as nat, interval.max_allowed as nat))
    }
}

/// Tests a length or a count against its limit.
pub fn interval_check(
    interval: &Interval<usize>,
    value_to_test: &usize,
    measure: Measure,
) -> (result: Result<(), ValidationError>)
    ensures
        verdict(result) == checked_against(*interval, *value_to_test as nat, measure),
{
    if !interval.contains(value_to_test) {
        return Err(
            match measure {
                Measure::Length(field) => ValidationError::LengthOutOfRange {
                    field,
                    length: *value_to_test,
                    min: interval.min_allowed,
                    max: interval.max_allowed,
                },
                Measure::Count(counted) => ValidationError::CountOutOfRange {
                    counted,
                    count: *value_to_test,
                    min: interval.min_allowed,
                    max: interval.max_allowed,
                },
            },
        );
    }
    Ok(())
}

} // verus!
