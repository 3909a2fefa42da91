//! Asking the operator for an MFA code, and deciding whether what was typed
//! is one.

use vstd::prelude::*;

use crate::error::{RefreshError, RefreshErrorView};

verus! {

/// Whether a character is white space: the characters that Unicode gives the
/// property `White_Space`.
pub open spec fn is_white_space(c: char) -> bool {
    ||| '\u{09}' <= c <= '\u{0D}'
    ||| c == '\u{20}'
    ||| c == '\u{85}'
    ||| c == '\u{A0}'
    ||| c == '\u{1680}'
    ||| '\u{2000}' <= c <= '\u{200A}'
    ||| c == '\u{2028}'
    ||| c == '\u{2029}'
    ||| c == '\u{202F}'
    ||| c == '\u{205F}'
    ||| c == '\u{3000}'
}

/// Whether a character is one of the ten digits `0` to `9`.
pub open spec fn is_digit(c: char) -> bool {
    '0' <= c <= '9'
}

/// The text without the white space at its start.
pub open spec fn trim_start(text: Seq<char>) -> Seq<char>
    decreases text.len(),
{
    if text.len() > 0 && is_white_space(text.first()) {
        trim_start(text.drop_first())
    } else {
        text
    }
}

/// The text without the white space at its end.
pub open spec fn trim_end(text: Seq<char>) -> Seq<char>
    decreases text.len(),
{
    if text.len() > 0 && is_white_space(text.last()) {
        trim_end(text.drop_last())
    } else {
        text
    }
}

/// The text without the white space at either end. White space inside the text
/// stays.
pub open spec fn trimmed(text: Seq<char>) -> Seq<char> {
    trim_end(trim_start(text))
}

/// Whether a text is an MFA code: at least one character, and digits only. The
/// number of digits is not fixed, and leading zeros count.
pub open spec fn is_mfa_code(text: Seq<char>) -> bool {
    text.len() > 0 && forall|i: int| 0 <= i < text.len() ==> is_digit(#[trigger] text[i])
}

/// The line that asks the operator for a code and names the device that
/// should produce it.
pub open spec fn prompt_for(mfa_device: Seq<char>) -> Seq<char> {
    "Please, provide a valid mfa token for AWS mfa device "@ + mfa_device
}

/// Whether a character is white space.
pub fn is_white_space_char(c: char) -> (white: bool)
    ensures
        white == is_white_space(c),
{
    let code: u32 = c as u32;
    (0x09 <= code && code <= 0x0D) || code == 0x20 || code == 0x85 || code == 0xA0 || code
        == 0x1680 || (0x2000 <= code && code <= 0x200A) || code == 0x2028 || code == 0x2029 || code
        == 0x202F || code == 0x205F || code == 0x3000
}

/// Removes the white space at both ends of a text.
pub fn trim(text: &str) -> (kept: &str)
    ensures
        kept@ == trimmed(text@),
{
    let length = text.unicode_len();
    let mut start: usize = 0;
    assert(text@ =~= text@.subrange(0, length as int));
    while start < length && is_white_space_char(text.get_char(start))
        invariant
            start <= length,
            length == text@.len(),
            trim_start(text@) == trim_start(text@.subrange(start as int, length as int)),
        decreases length - start,
    {
        proof {
            let rest = text@.subrange(start as int, length as int);
            assert(rest.first() == text@[start as int]);
            assert(rest.drop_first() =~= text@.subrange(start as int + 1, length as int));
        }
        start += 1;
    }
    let ghost tail = text@.subrange(start as int, length as int);
    assert(trim_start(text@) == tail) by {
        if start < length {
            assert(tail.first() == text@[start as int]);
        }
    }
    let mut end: usize = length;
    while end > start && is_white_space_char(text.get_char(end - 1))
        invariant
            start <= end <= length,
            length == text@.len(),
            trim_end(tail) == trim_end(text@.subrange(start as int, end as int)),
        decreases end - start,
    {
        proof {
            let rest = text@.subrange(start as int, end as int);
            assert(rest.last() == text@[end as int - 1]);
            assert(rest.drop_last() =~= text@.subrange(start as int, end as int - 1));
        }
        end -= 1;
    }
    assert(trim_end(tail) == text@.subrange(start as int, end as int)) by {
        let rest = text@.subrange(start as int, end as int);
        if end > start {
            assert(rest.last() == text@[end as int - 1]);
        }
    }
    text.substring_char(start, end)
}

/// Decides whether a text is an MFA code.
pub fn is_valid_mfa_code(text: &str) -> (valid: bool)
    ensures
        valid == is_mfa_code(text@),
{
    if !text.is_ascii() {
        proof {
            let i = choose|i: int|
                0 <= i < text@.len() && !('\0' <= #[trigger] text@[i] <= '\u{7f}');
            assert(!is_digit(text@[i]));
        }
        return false;
    }
    let length = text.unicode_len();
    if length == 0 {
        return false;
    }
    let mut i: usize = 0;
    while i < length
        invariant
            i <= length,
            length == text@.len(),
            text.is_ascii(),
            forall|j: int| 0 <= j < i ==> is_digit(#[trigger] text@[j]),
        decreases length - i,
    {
        let byte: u8 = text.get_ascii(i);
        assert('\0' <= text@[i as int] <= '\u{7f}');
        if !(0x30 <= byte && byte <= 0x39) {
            return false;
        }
        i += 1;
    }
    true
}

/// The prompt for a code of the given MFA device.
pub fn mfa_prompt(mfa_device: &str) -> (prompt: String)
    ensures
        prompt@ == prompt_for(mfa_device@),
{
    String::from_str("Please, provide a valid mfa token for AWS mfa device ").concat(mfa_device)
}

/// Takes the line that the operator typed and returns the MFA code in it.
///
/// White space around the code is dropped. What is left must be a string of
/// digits; it is returned as it was typed, leading zeros included. Anything
/// else gives `InvalidMfaFormat`.
pub fn get_mfa_token(line: &str) -> (token: Result<String, RefreshError>)
    ensures
        is_mfa_code(trimmed(line@)) ==> token is Ok && token->Ok_0@ == trimmed(line@),
        !is_mfa_code(trimmed(line@)) ==> token is Err && token->Err_0@
            == RefreshErrorView::InvalidMfaFormat,
{
    let code = trim(line);
    if is_valid_mfa_code(code) {
        Ok(code.to_owned())
    } else {
        Err(RefreshError::InvalidMfaFormat)
    }
}

} // verus!
