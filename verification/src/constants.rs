//! The fixed vocabularies of the query methods.

use vstd::prelude::*;

verus! {

/// The texts of a list of names.
pub open spec fn texts(names: Seq<&'static str>) -> Seq<Seq<char>> {
    Seq::new(names.len(), |i: int| names[i]@)
}

/// Price adjustment modes.
pub struct Adjust;

impl Adjust {
    pub const FORWARD: &'static str = "forward";

    pub const BACKWARD: &'static str = "backward";

    pub const NONE: &'static str = "";

    /// The adjustment modes, in their fixed order.
    pub open spec fn all() -> Seq<Seq<char>> {
        seq!["forward"@, "backward"@, ""@]
    }

    /// Every adjustment mode: forward, backward, none.
    pub fn all_types() -> (v: Vec<&'static str>)
        ensures
            texts(v@) == Self::all(),
    {
        let v = vec![Self::FORWARD, Self::BACKWARD, Self::NONE];
        assert(texts(v@) =~= Self::all());
        v
    }
}

/// Bar intervals.
pub struct Interval;

impl Interval {
    pub const MIN_1: &'static str = "1m";

    pub const MIN_5: &'static str = "5m";

    pub const MIN_15: &'static str = "15m";

    pub const MIN_30: &'static str = "30m";

    pub const MIN_60: &'static str = "60m";

    pub const MIN_120: &'static str = "120m";

    pub const DAY: &'static str = "day";

    pub const WEEK: &'static str = "week";

    pub const MONTH: &'static str = "month";

    pub const QUARTER: &'static str = "quarter";

    pub const YEAR: &'static str = "year";

    /// The intervals shorter than a day, shortest first.
    pub open spec fn minutes() -> Seq<Seq<char>> {
        seq!["1m"@, "5m"@, "15m"@, "30m"@, "60m"@, "120m"@]
    }

    /// The intervals of a day and longer, shortest first.
    pub open spec fn days_and_above() -> Seq<Seq<char>> {
        seq!["day"@, "week"@, "month"@, "quarter"@, "year"@]
    }

    /// The intervals shorter than a day.
    pub fn minute_intervals() -> (v: Vec<&'static str>)
        ensures
            texts(v@) == Self::minutes(),
    {
        let v = vec![
            Self::MIN_1,
            Self::MIN_5,
            Self::MIN_15,
            Self::MIN_30,
            Self::MIN_60,
            Self::MIN_120,
        ];
        assert(texts(v@) =~= Self::minutes());
        v
    }

    /// The intervals of a day and longer.
    pub fn day_and_above_intervals() -> (v: Vec<&'static str>)
        ensures
            texts(v@) == Self::days_and_above(),
    {
        let v = vec![Self::DAY, Self::WEEK, Self::MONTH, Self::QUARTER, Self::YEAR];
        assert(texts(v@) =~= Self::days_and_above());
        v
    }

    /// Every interval: those shorter than a day, then the others.
    pub fn all_types() -> (v: Vec<&'static str>)
        ensures
            texts(v@) == Self::minutes() + Self::days_and_above(),
    {
        let mut all = Self::minute_intervals();
        let rest = Self::day_and_above_intervals();
        let ghost head = all@;
        let mut i: usize = 0;
        while i < rest.len()
            invariant
                i <= rest.len(),
                all@ == head + rest@.take(i as int),
            decreases rest.len() - i,
        {
            all.push(rest[i]);
            i += 1;
            assert(all@ =~= head + rest@.take(i as int));
        }
        assert(all@ =~= head + rest@);
        assert(texts(all@) =~= texts(head) + texts(rest@));
        all
    }
}

/// Whether `name` is one of `names`.
pub fn is_listed(names: &Vec<&'static str>, name: &str) -> (found: bool)
    ensures
        found == texts(names@).contains(name@),
{
    let mut i: usize = 0;
    while i < names.len()
        invariant
            i <= names.len(),
            forall|j: int| 0 <= j < i ==> names@[j]@ != name@,
        decreases names.len() - i,
    {
        if str_equal(names[i], name) {
            assert(texts(names@)[i as int] == name@);
            return true;
        }
        i += 1;
    }
    false
}

/// `str`'s `==`: whether two texts are the same.
#[verifier::external_body]
pub(crate) fn str_equal(a: &str, b: &str) -> (same: bool)
    ensures
        same == (a@ == b@),
{
    a == b
}

} // verus!
