//! The test that every constraint of a query comes down to.

use crate::eav::EntityAttributeValue;
use vstd::prelude::*;
use vstd::std_specs::cmp::PartialEqSpec;

verus! {

impl EntityAttributeValue {
    /// Whether a value meets a constraint: there is none, or it is the value.
    pub fn filter_on_eav<T>(eav: &T, e: Option<&T>) -> (fits: bool) where T: PartialOrd
        ensures
            e is None ==> fits,
            e matches Some(wanted) ==> (T::obeys_eq_spec() ==> fits == eav.eq_spec(wanted)),
    {
        match e {
            Some(wanted) => *eav == *wanted,
            None => true,
        }
    }
}

} // verus!
