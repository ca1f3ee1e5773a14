//! Validation of e-mail addresses and plan codes.
use vstd::prelude::*;
use vstd::string::*;
use vstd::utf8::{encode_utf8, is_ascii_chars, is_ascii_chars_encode_utf8};
use crate::outside::{html5_email, validate_email};
use crate::text::{chars_of, is_whitespace, trim, trim_ws, unicode_white_space};

verus! {

/// Whether `email`, once trimmed, is a non-empty HTML5 e-mail address.
pub open spec fn email_acceptable(email: Seq<char>) -> bool {
    trim_ws(email).len() > 0 && html5_email(trim_ws(email))
}

/// Validates that the input looks like a valid email address
pub fn is_valid_email(email: &str) -> (r: bool)
    ensures
        r == email_acceptable(email@),
        r ==> trim_ws(email@).len() > 0 && trim_ws(email@).contains('@'),
        (forall|i: int| 0 <= i < email@.len() ==> unicode_white_space(#[trigger] email@[i])) ==> !r,
{
    proof {
        lemma_blank_trims_to_empty(email@);
    }
    let t: String = trim(email);
    let ts: &str = t.as_str();
    !ts.is_empty() && validate_email(ts)
}

/// Text made only of white space trims to nothing.
proof fn lemma_blank_trims_to_empty(s: Seq<char>)
    ensures
        (forall|i: int| 0 <= i < s.len() ==> unicode_white_space(#[trigger] s[i])) ==> trim_ws(s).len() == 0,
    decreases s.len(),
{
    if s.len() > 0 && (forall|i: int| 0 <= i < s.len() ==> unicode_white_space(#[trigger] s[i])) {
        assert(unicode_white_space(s[0]));
        let rest = s.drop_first();
        assert forall|i: int| 0 <= i < rest.len() implies unicode_white_space(#[trigger] rest[i]) by {
            assert(rest[i] == s[i + 1]);
        }
        lemma_blank_trims_to_empty(rest);
    }
}

/// The characters a plan code may hold.
pub open spec fn plan_code_char(c: char) -> bool {
    ('a' <= c && c <= 'z') || ('0' <= c && c <= '9') || c == '-' || c == '_'
}

/// The characters a plan code may begin with.
pub open spec fn plan_code_first_char(c: char) -> bool {
    ('a' <= c && c <= 'z') || ('0' <= c && c <= '9')
}

/// The plan code rules: 1 to 50 characters, lowercase ASCII letters, digits,
/// hyphens and underscores only, a letter or digit first.
pub open spec fn plan_code_valid(code: Seq<char>) -> bool {
    &&& code.len() > 0
    &&& code.len() <= 50
    &&& plan_code_first_char(code[0])
    &&& forall|i: int| 0 <= i < code.len() ==> plan_code_char(#[trigger] code[i])
}

/// Validates a plan code for URL-friendly characters.
/// Rules:
/// - 1-50 characters
/// - Only lowercase ASCII letters, numbers, hyphens, underscores
/// - Must start with a letter or number (not hyphen/underscore)
/// - No whitespace allowed
pub fn is_valid_plan_code(code: &str) -> (r: bool)
    ensures
        r == plan_code_valid(code@),
{
    if code.is_empty() || code.as_bytes().len() > 50 {
        proof {
            if plan_code_valid(code@) {
                lemma_plan_code_chars_ascii(code@);
            }
        }
        return false;
    }
    let v: Vec<char> = chars_of(code);
    // Reject any whitespace
    let mut i: usize = 0;
    while i < v.len()
        invariant
            v@ == code@,
            i <= v.len(),
            forall|k: int| 0 <= k < i ==> !unicode_white_space(#[trigger] code@[k]),
        decreases v.len() - i,
    {
        if is_whitespace(v[i]) {
            assert(!plan_code_char(code@[i as int]));
            return false;
        }
        i = i + 1;
    }
    // First character must be alphanumeric
    let first: char = v[0];
    if !(('a' <= first && first <= 'z') || ('0' <= first && first <= '9')) {
        return false;
    }
    // All characters must be lowercase alphanumeric, hyphen, or underscore
    let mut k: usize = 0;
    while k < v.len()
        invariant
            v@ == code@,
            k <= v.len(),
            forall|m: int| 0 <= m < k ==> plan_code_char(#[trigger] code@[m]),
        decreases v.len() - k,
    {
        let c: char = v[k];
        if !(('a' <= c && c <= 'z') || ('0' <= c && c <= '9') || c == '-' || c == '_') {
            return false;
        }
        k = k + 1;
    }
    proof {
        lemma_plan_code_chars_ascii(code@);
    }
    true
}

/// A code made of plan code characters is ASCII, so it has one byte per character.
proof fn lemma_plan_code_chars_ascii(code: Seq<char>)
    requires
        forall|i: int| 0 <= i < code.len() ==> plan_code_char(#[trigger] code[i]),
    ensures
        encode_utf8(code).len() == code.len(),
{
    assert(is_ascii_chars(code)) by {
        assert forall|i: int| 0 <= i < code.len() implies '\0' <= #[trigger] code[i] <= '\u{7f}' by {
            assert(plan_code_char(code[i]));
        }
    }
    is_ascii_chars_encode_utf8(code);
}

} // verus!
