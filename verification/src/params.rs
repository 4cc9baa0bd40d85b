//! The named-parameter bag handed to the dispatcher and factories: a flat,
//! string-keyed collection of integer, fixed-point scalar, boolean and
//! string values, with defaulted lookups.
//!
//! A lookup walks the entries in insertion order and takes the first entry
//! whose name and type both match; entries of another type under the same
//! name are skipped, and a miss yields the caller's default.

use crate::names::str_eq;
use vstd::prelude::*;

verus! {

/// One parameter value: an integer count, a fixed-point scalar, a flag,
/// or a string option.
#[derive(Clone, Debug, PartialEq, Eq)]
pub enum ParamValue {
    Int(i64),
    Scalar(i64),
    Bool(bool),
    Str(String),
}

/// The mathematical image of a [`ParamValue`], with strings as character
/// sequences.
pub enum ParamModel {
    Int(i64),
    Scalar(i64),
    Bool(bool),
    Str(Seq<char>),
}

impl View for ParamValue {
    type V = ParamModel;

    open spec fn view(&self) -> ParamModel {
        match self {
            ParamValue::Int(v) => ParamModel::Int(*v),
            ParamValue::Scalar(v) => ParamModel::Scalar(*v),
            ParamValue::Bool(v) => ParamModel::Bool(*v),
            ParamValue::Str(s) => ParamModel::Str(s@),
        }
    }
}

/// A named-parameter bag, in insertion order.
pub struct ParamSet {
    entries: Vec<(String, ParamValue)>,
}

impl View for ParamSet {
    type V = Seq<(Seq<char>, ParamModel)>;

    closed spec fn view(&self) -> Seq<(Seq<char>, ParamModel)> {
        self.entries@.map_values(|e: (String, ParamValue)| (e.0@, e.1@))
    }
}

/// The first integer entry named `name`, or `default`.
pub open spec fn find_int_spec(
    ps: Seq<(Seq<char>, ParamModel)>,
    name: Seq<char>,
    default: i64,
) -> i64
    decreases ps.len(),
{
    if ps.len() == 0 {
        default
    } else if ps[0].0 == name && ps[0].1 is Int {
        match ps[0].1 {
            ParamModel::Int(v) => v,
            _ => default,
        }
    } else {
        find_int_spec(ps.drop_first(), name, default)
    }
}

/// The first fixed-point scalar entry named `name`, or `default`.
pub open spec fn find_scalar_spec(
    ps: Seq<(Seq<char>, ParamModel)>,
    name: Seq<char>,
    default: i64,
) -> i64
    decreases ps.len(),
{
    if ps.len() == 0 {
        default
    } else if ps[0].0 == name && ps[0].1 is Scalar {
        match ps[0].1 {
            ParamModel::Scalar(v) => v,
            _ => default,
        }
    } else {
        find_scalar_spec(ps.drop_first(), name, default)
    }
}

/// The first boolean entry named `name`, or `default`.
pub open spec fn find_bool_spec(
    ps: Seq<(Seq<char>, ParamModel)>,
    name: Seq<char>,
    default: bool,
) -> bool
    decreases ps.len(),
{
    if ps.len() == 0 {
        default
    } else if ps[0].0 == name && ps[0].1 is Bool {
        match ps[0].1 {
            ParamModel::Bool(v) => v,
            _ => default,
        }
    } else {
        find_bool_spec(ps.drop_first(), name, default)
    }
}

/// The first string entry named `name`, or `default`.
pub open spec fn find_str_spec(
    ps: Seq<(Seq<char>, ParamModel)>,
    name: Seq<char>,
    default: Seq<char>,
) -> Seq<char>
    decreases ps.len(),
{
    if ps.len() == 0 {
        default
    } else if ps[0].0 == name && ps[0].1 is Str {
        match ps[0].1 {
            ParamModel::Str(s) => s,
            _ => default,
        }
    } else {
        find_str_spec(ps.drop_first(), name, default)
    }
}

impl ParamSet {
    /// Creates an empty bag.
    pub fn new() -> (r: ParamSet)
        ensures
            r@ == Seq::<(Seq<char>, ParamModel)>::empty(),
    {
        let r = ParamSet { entries: Vec::new() };
        proof {
            assert(r@ =~= Seq::<(Seq<char>, ParamModel)>::empty());
        }
        r
    }

    /// Appends a value under `name`.
    pub fn insert(&mut self, name: String, value: ParamValue)
        ensures
            final(self)@ == old(self)@.push((name@, value@)),
    {
        let ghost pre = self.entries@;
        self.entries.push((name, value));
        proof {
            assert(self@ =~= pre.map_values(|e: (String, ParamValue)| (e.0@, e.1@)).push(
                (self.entries@.last().0@, self.entries@.last().1@),
            ));
        }
    }

    /// Returns the first integer recorded under `name`, or `default`.
    pub fn find_int(&self, name: &str, default: i64) -> (r: i64)
        ensures
            r == find_int_spec(self@, name@, default),
    {
        let n = self.entries.len();
        proof {
            assert(self@.skip(0) =~= self@);
        }
        let mut i: usize = 0;
        while i < n
            invariant
                i <= n,
                n == self.entries@.len(),
                n == self@.len(),
                find_int_spec(self@, name@, default) == find_int_spec(
                    self@.skip(i as int),
                    name@,
                    default,
                ),
            decreases n - i,
        {
            proof {
                assert(self@.skip(i as int).drop_first() =~= self@.skip(i as int + 1));
                assert(self@.skip(i as int)[0] == self@[i as int]);
            }
            let hit = str_eq(self.entries[i].0.as_str(), name);
            if hit {
                if let ParamValue::Int(v) = self.entries[i].1 {
                    return v;
                }
            }
            i = i + 1;
        }
        default
    }

    /// Returns the first fixed-point scalar recorded under `name`, or
    /// `default`.
    pub fn find_scalar(&self, name: &str, default: i64) -> (r: i64)
        ensures
            r == find_scalar_spec(self@, name@, default),
    {
        let n = self.entries.len();
        proof {
            assert(self@.skip(0) =~= self@);
        }
        let mut i: usize = 0;
        while i < n
            invariant
                i <= n,
                n == self.entries@.len(),
                n == self@.len(),
                find_scalar_spec(self@, name@, default) == find_scalar_spec(
                    self@.skip(i as int),
                    name@,
                    default,
                ),
            decreases n - i,
        {
            proof {
                assert(self@.skip(i as int).drop_first() =~= self@.skip(i as int + 1));
                assert(self@.skip(i as int)[0] == self@[i as int]);
            }
            let hit = str_eq(self.entries[i].0.as_str(), name);
            if hit {
                if let ParamValue::Scalar(v) = self.entries[i].1 {
                    return v;
                }
            }
            i = i + 1;
        }
        default
    }

    /// Returns the first flag recorded under `name`, or `default`.
    pub fn find_bool(&self, name: &str, default: bool) -> (r: bool)
        ensures
            r == find_bool_spec(self@, name@, default),
    {
        let n = self.entries.len();
        proof {
            assert(self@.skip(0) =~= self@);
        }
        let mut i: usize = 0;
        while i < n
            invariant
                i <= n,
                n == self.entries@.len(),
                n == self@.len(),
                find_bool_spec(self@, name@, default) == find_bool_spec(
                    self@.skip(i as int),
                    name@,
                    default,
                ),
            decreases n - i,
        {
            proof {
                assert(self@.skip(i as int).drop_first() =~= self@.skip(i as int + 1));
                assert(self@.skip(i as int)[0] == self@[i as int]);
            }
            let hit = str_eq(self.entries[i].0.as_str(), name);
            if hit {
                if let ParamValue::Bool(v) = self.entries[i].1 {
                    return v;
                }
            }
            i = i + 1;
        }
        default
    }

    /// Returns a copy of the first string recorded under `name`, or
    /// `default`.
    pub fn find_str(&self, name: &str, default: &str) -> (r: String)
        ensures
            r@ == find_str_spec(self@, name@, default@),
    {
        let n = self.entries.len();
        proof {
            assert(self@.skip(0) =~= self@);
        }
        let mut i: usize = 0;
        while i < n
            invariant
                i <= n,
                n == self.entries@.len(),
                n == self@.len(),
                find_str_spec(self@, name@, default@) == find_str_spec(
                    self@.skip(i as int),
                    name@,
                    default@,
                ),
            decreases n - i,
        {
            proof {
                assert(self@.skip(i as int).drop_first() =~= self@.skip(i as int + 1));
                assert(self@.skip(i as int)[0] == self@[i as int]);
            }
            let hit = str_eq(self.entries[i].0.as_str(), name);
            if hit {
                if let ParamValue::Str(s) = &self.entries[i].1 {
                    return s.clone();
                }
            }
            i = i + 1;
        }
        default.to_owned()
    }
}

} // verus!
