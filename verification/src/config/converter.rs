//! The oldest names of the built-in conversions, from when a conversion
//! was called a converter.

use vstd::prelude::*;
use crate::parser::FromText;

verus! {

/// The standard-format conversion, under its oldest home.
pub fn from_str<T: FromText>(s: &str) -> (r: Result<T, String>)
    ensures
        match T::spec_from_text(s@) {
            Ok(v) => r matches Ok(u) && u@ == v,
            Err(m) => r matches Err(e) && e@ == m,
        },
{
    crate::parser::from_str(s)
}

/// The direct-wrap conversion, under its oldest home.
pub fn into(s: &str) -> (r: Result<String, String>)
    ensures
        r matches Ok(v) && v@ == s@,
{
    crate::parser::into(s)
}

} // verus!
