//! The operators that combine two path geometries into one.

use vstd::prelude::*;

verus! {

/// Set-combination operator applied to boolean path geometry.
#[derive(Debug, Clone, Copy, PartialEq, Eq, Structural)]
pub enum BoolType {
    Union,
    Difference,
    Intersection,
    Exclusion,
}

/// Total decode of a host-supplied numeric tag: the values 0 to 3 name the
/// four operators in order, and every other value falls back to `Union`, so a
/// malformed tag never aborts rendering.
pub open spec fn bool_type_of(value: u8) -> BoolType {
    if value == 1 {
        BoolType::Difference
    } else if value == 2 {
        BoolType::Intersection
    } else if value == 3 {
        BoolType::Exclusion
    } else {
        BoolType::Union
    }
}

impl From<u8> for BoolType {
    fn from(value: u8) -> (r: Self) {
        match value {
            0 => Self::Union,
            1 => Self::Difference,
            2 => Self::Intersection,
            3 => Self::Exclusion,
            _ => Self::default(),
        }
    }
}

impl vstd::std_specs::convert::FromSpecImpl<u8> for BoolType {
    open spec fn obeys_from_spec() -> bool {
        true
    }

    open spec fn from_spec(value: u8) -> BoolType {
        bool_type_of(value)
    }
}

impl Default for BoolType {
    fn default() -> (r: Self)
        ensures
            r == BoolType::Union,
    {
        Self::Union
    }
}

/// The numeric decode is total: 1, 2 and 3 name `Difference`, `Intersection`
/// and `Exclusion`, and 0 as well as every value of 4 or more decodes to the
/// default `Union`, never to an error.
pub proof fn lemma_bool_type_decode(value: u8)
    ensures
        value == 0 || value >= 4 ==> bool_type_of(value) == BoolType::Union,
        value == 1 ==> bool_type_of(value) == BoolType::Difference,
        value == 2 ==> bool_type_of(value) == BoolType::Intersection,
        value == 3 ==> bool_type_of(value) == BoolType::Exclusion,
{
}

} // verus!
