//! Conversion of raw strings into typed values.
//!
//! Two built-in conversions are provided: [`from_str`], the
//! standard-format conversion, reading a value through its type's
//! canonical textual format ([`FromText`]); and [`into`], the direct-wrap
//! conversion, which always succeeds by carrying the raw string over
//! unchanged.  A custom converter is any function from a raw string to
//! `Result<T, String>`; the field resolver consumes a converter's outcome
//! and so is polymorphic over every such capability.

use vstd::prelude::*;
use vstd::string::StrSliceExecFns;
use crate::env::Env;
use crate::env::lookup;
use crate::text::all_digits;
use crate::text::dec_val;
use crate::text::digit_of;
use crate::text::is_digit;

verus! {

/// The return type of a conversion: a typed value, or the cause of the
/// failure.
pub type ParseResult<T> = Result<T, String>;

/// The message for a numeral with no characters at all.
pub open spec fn empty_numeral_msg() -> Seq<char> {
    "cannot parse integer from empty string"@
}

/// The message for a numeral holding a character that is no digit.
pub open spec fn invalid_digit_msg() -> Seq<char> {
    "invalid digit found in string"@
}

/// The message for a numeral whose value passes the target type's range.
pub open spec fn too_large_msg() -> Seq<char> {
    "number too large to fit in target type"@
}

/// The reading of an unsigned decimal numeral of at most `max`: an
/// optional `+` sign, then at least one digit, all digits, with the value
/// in range.  The error messages mirror the standard integer parser.
pub open spec fn spec_parse_unsigned(s: Seq<char>, max: nat) -> Result<nat, Seq<char>> {
    if s.len() == 0 {
        Err(empty_numeral_msg())
    } else {
        let digits = if s[0] == '+' {
            s.subrange(1, s.len() as int)
        } else {
            s
        };
        if digits.len() == 0 || !all_digits(digits) {
            Err(invalid_digit_msg())
        } else if dec_val(digits) > max {
            Err(too_large_msg())
        } else {
            Ok(dec_val(digits))
        }
    }
}

/// The value of a digit sequence is no less than the value of any of its
/// prefixes.
proof fn lemma_dec_val_prefix(s: Seq<char>, k: int)
    requires
        0 <= k <= s.len(),
    ensures
        dec_val(s.take(k)) <= dec_val(s),
    decreases s.len() - k,
{
    if k == s.len() {
        assert(s.take(k) =~= s);
    } else {
        assert(s.take(k + 1).drop_last() =~= s.take(k));
        assert(dec_val(s.take(k)) <= dec_val(s.take(k + 1)));
        lemma_dec_val_prefix(s, k + 1);
    }
}

/// Reads an unsigned decimal numeral of at most `max`.
pub fn parse_unsigned(s: &str, max: u64) -> (r: Result<u64, String>)
    ensures
        match spec_parse_unsigned(s@, max as nat) {
            Ok(v) => r matches Ok(u) && u == v,
            Err(m) => r matches Err(e) && e@ == m,
        },
{
    let n = s.unicode_len();
    if n == 0 {
        return Err("cannot parse integer from empty string".to_owned());
    }
    let start: usize = if s.get_char(0) == '+' {
        1
    } else {
        0
    };
    let ghost digits: Seq<char> = if s@[0] == '+' {
        s@.subrange(1, s@.len() as int)
    } else {
        s@
    };
    if start == n {
        return Err("invalid digit found in string".to_owned());
    }
    // First pass: every character must be a digit.
    let mut i: usize = start;
    while i < n
        invariant
            start <= i <= n,
            start <= 1,
            n == s@.len(),
            digits.len() == n - start,
            start == 1 ==> s@[0] == '+' && digits == s@.subrange(1, s@.len() as int),
            start == 0 ==> s@[0] != '+' && digits == s@,
            forall|j: int| 0 <= j < i - start ==> is_digit(#[trigger] digits[j]),
        decreases n - i,
    {
        if digit_of(s.get_char(i)).is_none() {
            proof {
                assert(!is_digit(digits[i - start]));
            }
            return Err("invalid digit found in string".to_owned());
        }
        i = i + 1;
    }
    // Second pass: accumulate, stopping as soon as the value passes `max`.
    let mut acc: u64 = 0;
    let mut i: usize = start;
    while i < n
        invariant
            start <= i <= n,
            start <= 1,
            n == s@.len(),
            digits.len() == n - start,
            start == 1 ==> s@[0] == '+' && digits == s@.subrange(1, s@.len() as int),
            start == 0 ==> s@[0] != '+' && digits == s@,
            all_digits(digits),
            acc == dec_val(digits.take(i - start)),
            acc <= max,
        decreases n - i,
    {
        let d = match digit_of(s.get_char(i)) {
            Some(d) => d,
            None => {
                proof {
                    assert(is_digit(digits[i - start]));
                }
                return Err("invalid digit found in string".to_owned());
            },
        };
        proof {
            assert(digits.take(i - start + 1).drop_last() =~= digits.take(i - start));
            assert(dec_val(digits.take(i - start + 1)) == acc * 10 + d);
        }
        let next: u64 = match acc.checked_mul(10) {
            Some(m) => match m.checked_add(d as u64) {
                Some(next) => next,
                None => {
                    proof {
                        lemma_dec_val_prefix(digits, i - start + 1);
                    }
                    return Err("number too large to fit in target type".to_owned());
                },
            },
            None => {
                proof {
                    lemma_dec_val_prefix(digits, i - start + 1);
                }
                return Err("number too large to fit in target type".to_owned());
            },
        };
        if next > max {
            proof {
                lemma_dec_val_prefix(digits, i - start + 1);
            }
            return Err("number too large to fit in target type".to_owned());
        }
        acc = next;
        i = i + 1;
    }
    proof {
        assert(digits.take(n - start) =~= digits);
    }
    Ok(acc)
}

/// A type with a canonical textual format, read by the standard-format
/// conversion.
pub trait FromText: View + Sized {
    /// Which strings read as which values, and the message carried when
    /// none does.
    spec fn spec_from_text(s: Seq<char>) -> Result<Self::V, Seq<char>>;

    /// Reads a value from its standard textual format.
    fn from_text(s: &str) -> (r: Result<Self, String>)
        ensures
            match Self::spec_from_text(s@) {
                Ok(v) => r matches Ok(u) && u@ == v,
                Err(m) => r matches Err(e) && e@ == m,
            },
    ;
}

impl FromText for u8 {
    open spec fn spec_from_text(s: Seq<char>) -> Result<u8, Seq<char>> {
        match spec_parse_unsigned(s, u8::MAX as nat) {
            Ok(v) => Ok(v as u8),
            Err(m) => Err(m),
        }
    }

    fn from_text(s: &str) -> (r: Result<u8, String>) {
        match parse_unsigned(s, 255) {
            Ok(v) => Ok(v as u8),
            Err(e) => Err(e),
        }
    }
}

impl FromText for u16 {
    open spec fn spec_from_text(s: Seq<char>) -> Result<u16, Seq<char>> {
        match spec_parse_unsigned(s, u16::MAX as nat) {
            Ok(v) => Ok(v as u16),
            Err(m) => Err(m),
        }
    }

    fn from_text(s: &str) -> (r: Result<u16, String>) {
        match parse_unsigned(s, 65535) {
            Ok(v) => Ok(v as u16),
            Err(e) => Err(e),
        }
    }
}

impl FromText for u32 {
    open spec fn spec_from_text(s: Seq<char>) -> Result<u32, Seq<char>> {
        match spec_parse_unsigned(s, u32::MAX as nat) {
            Ok(v) => Ok(v as u32),
            Err(m) => Err(m),
        }
    }

    fn from_text(s: &str) -> (r: Result<u32, String>) {
        match parse_unsigned(s, 4294967295) {
            Ok(v) => Ok(v as u32),
            Err(e) => Err(e),
        }
    }
}

impl FromText for String {
    open spec fn spec_from_text(s: Seq<char>) -> Result<Seq<char>, Seq<char>> {
        Ok(s)
    }

    fn from_text(s: &str) -> (r: Result<String, String>) {
        Ok(s.to_owned())
    }
}

impl FromText for u64 {
    open spec fn spec_from_text(s: Seq<char>) -> Result<u64, Seq<char>> {
        match spec_parse_unsigned(s, u64::MAX as nat) {
            Ok(v) => Ok(v as u64),
            Err(m) => Err(m),
        }
    }

    fn from_text(s: &str) -> (r: Result<u64, String>) {
        parse_unsigned(s, u64::MAX)
    }
}

/// The standard-format conversion: reads a value through its type's
/// canonical textual parser, and fails with that parser's cause.
pub fn from_str<T: FromText>(s: &str) -> (r: Result<T, String>)
    ensures
        match T::spec_from_text(s@) {
            Ok(v) => r matches Ok(u) && u@ == v,
            Err(m) => r matches Err(e) && e@ == m,
        },
{
    T::from_text(s)
}

/// The direct-wrap conversion: always succeeds, carrying the raw string
/// over unchanged.
pub fn into(s: &str) -> (r: Result<String, String>)
    ensures
        r matches Ok(v) && v@ == s@,
{
    Ok(s.to_owned())
}

/// Reads the variable `env_var` from the snapshot and, where it is
/// present, converts its raw value through the standard-format
/// conversion, handing back the raw value beside the conversion's
/// outcome.
pub fn parse_from_env<T: FromText>(env: &Env, env_var: &str) -> (r: Option<
    (String, Result<T, String>),
>)
    ensures
        match lookup(env@, env_var@) {
            None => r is None,
            Some(raw) => r matches Some((v, p)) && v@ == raw && match T::spec_from_text(raw) {
                Ok(w) => p matches Ok(u) && u@ == w,
                Err(m) => p matches Err(e) && e@ == m,
            },
        },
{
    match env.read(env_var) {
        None => None,
        Some(raw) => {
            let parsed = T::from_text(raw.as_str());
            Some((raw, parsed))
        },
    }
}

} // verus!
