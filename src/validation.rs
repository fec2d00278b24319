use vstd::prelude::*;
use vstd::string::StrSliceExecFns;
use vstd::utf8::encode_utf8;
use crate::state::ErrorCode;

verus! {

/// Length of a text in UTF-8 bytes.
pub open spec fn byte_len(s: Seq<char>) -> nat {
    encode_utf8(s).len()
}

/// The characters of an optional text.
pub open spec fn opt_view(o: Option<String>) -> Option<Seq<char>> {
    match o {
        Some(v) => Some(v@),
        None => None,
    }
}

/// Why an incoming text cannot replace a field, if it cannot.
pub open spec fn field_error(incoming: Option<Seq<char>>, max_len: usize) -> Option<ErrorCode> {
    match incoming {
        Some(v) => if byte_len(v) >= max_len {
            Some(ErrorCode::InvalidFieldLength)
        } else if v.len() == 0 {
            Some(ErrorCode::FieldIsEmpty)
        } else {
            None
        },
        None => None,
    }
}

/// Accepts a text that is non-empty and shorter than `max_len` bytes.
pub fn check_field(value: &str, max_len: usize) -> (r: Result<(), ErrorCode>)
    ensures
        r == (match field_error(Some(value@), max_len) {
            Some(e) => Err(e),
            None => Ok(()),
        }),
{
    if value.as_bytes().len() >= max_len {
        return Err(ErrorCode::InvalidFieldLength);
    }
    if value.is_empty() {
        return Err(ErrorCode::FieldIsEmpty);
    }
    Ok(())
}

/// Replaces `field` with `new_value` when one is given and it is non-empty and shorter
/// than `max_len` bytes; an absent value leaves the field as it is.
pub fn update_field(field: &mut String, new_value: Option<String>, max_len: usize) -> (r: Result<(), ErrorCode>)
    ensures
        r == (match field_error(opt_view(new_value), max_len) {
            Some(e) => Err(e),
            None => Ok(()),
        }),
        final(field)@ == (match (r, new_value) {
            (Ok(_), Some(v)) => v@,
            _ => old(field)@,
        }),
{
    match new_value {
        Some(value) => {
            check_field(value.as_str(), max_len)?;
            *field = value;
        },
        None => {},
    }
    Ok(())
}

/// Replaces `field` with `new_value` when one is given.
pub fn update_numeric_field<T: Copy>(field: &mut T, new_value: Option<T>) -> (r: Result<(), ErrorCode>)
    ensures
        r is Ok,
        *final(field) == (match new_value {
            Some(v) => v,
            None => *old(field),
        }),
{
    match new_value {
        Some(value) => {
            *field = value;
        },
        None => {},
    }
    Ok(())
}

/// Code points refused in user-supplied text: pictographs, dingbats, regional
/// indicators and related symbols.
pub open spec fn is_restricted(c: u32) -> bool {
    (0x1f600 <= c <= 0x1f64f) || (0x1f300 <= c <= 0x1f5ff) || (0x1f680 <= c <= 0x1f6ff)
        || (0x1f700 <= c <= 0x1f77f) || (0x1f780 <= c <= 0x1f7ff) || (0x1f800 <= c <= 0x1f8ff)
        || (0x1f900 <= c <= 0x1f9ff) || (0x1fa00 <= c <= 0x1fa6f) || (0x1fa70 <= c <= 0x1faff)
        || (0x2600 <= c <= 0x26ff) || (0x2700 <= c <= 0x27bf) || (0x2300 <= c <= 0x23ff)
        || c == 0x2b50 || c == 0x3030 || c == 0x2b06 || c == 0x2194 || c == 0x1f004
        || c == 0x1f0cf || c == 0x1f171 || c == 0x1f18e || (0x1f191 <= c <= 0x1f19a)
        || (0x1f1e6 <= c <= 0x1f1ff) || (0x24c2 <= c <= 0x1f251)
}

/// Whether some character of `s` is restricted.
pub open spec fn has_restricted(s: Seq<char>) -> bool {
    exists|i: int| 0 <= i < s.len() && is_restricted(#[trigger] s[i] as u32)
}

fn restricted_char(c: char) -> (r: bool)
    ensures
        r == is_restricted(c as u32),
{
    let c = c as u32;
    (c >= 0x1f600 && c <= 0x1f64f) || (c >= 0x1f300 && c <= 0x1f5ff) || (c >= 0x1f680 && c
        <= 0x1f6ff) || (c >= 0x1f700 && c <= 0x1f77f) || (c >= 0x1f780 && c <= 0x1f7ff) || (c
        >= 0x1f800 && c <= 0x1f8ff) || (c >= 0x1f900 && c <= 0x1f9ff) || (c >= 0x1fa00 && c
        <= 0x1fa6f) || (c >= 0x1fa70 && c <= 0x1faff) || (c >= 0x2600 && c <= 0x26ff) || (c
        >= 0x2700 && c <= 0x27bf) || (c >= 0x2300 && c <= 0x23ff) || c == 0x2b50 || c == 0x3030
        || c == 0x2b06 || c == 0x2194 || c == 0x1f004 || c == 0x1f0cf || c == 0x1f171 || c
        == 0x1f18e || (c >= 0x1f191 && c <= 0x1f19a) || (c >= 0x1f1e6 && c <= 0x1f1ff) || (c
        >= 0x24c2 && c <= 0x1f251)
}

/// True exactly when `input` holds a restricted character.
pub fn contains_emoji(input: &str) -> (r: bool)
    ensures
        r == has_restricted(input@),
{
    let n = input.unicode_len();
    let mut i: usize = 0;
    while i < n
        invariant
            n == input@.len(),
            0 <= i <= n,
            forall|j: int| 0 <= j < i ==> !is_restricted(#[trigger] input@[j] as u32),
        decreases n - i,
    {
        if restricted_char(input.get_char(i)) {
            return true;
        }
        i = i + 1;
    }
    false
}

} // verus!
