//! The earlier names of the built-in conversions.

use vstd::prelude::*;
use crate::parser::FromText;

verus! {

/// The return type of a conversion.
pub type ParserResult<T> = Result<T, String>;

/// The standard-format conversion, under its earlier home.
pub fn from_str<T: FromText>(s: &str) -> (r: ParserResult<T>)
    ensures
        match T::spec_from_text(s@) {
            Ok(v) => r matches Ok(u) && u@ == v,
            Err(m) => r matches Err(e) && e@ == m,
        },
{
    crate::parser::from_str(s)
}

/// The direct-wrap conversion, under its earlier home.
pub fn into(s: &str) -> (r: ParserResult<String>)
    ensures
        r matches Ok(v) && v@ == s@,
{
    crate::parser::into(s)
}

} // verus!
