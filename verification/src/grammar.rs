//! The textual grammar of an entity-tag (RFC 7232 section 2.3), as
//! specification functions:
//!
//! ```text
//! entity-tag = [ weak ] opaque-tag
//! weak       = %x57.2F                    ; "W/"
//! opaque-tag = DQUOTE *etagc DQUOTE
//! etagc      = %x21 / %x23-7E / %x80-FF
//! ```
//!
//! These functions are the single source of truth for what each
//! constructor accepts, which body it stores, and which error it returns.

use vstd::prelude::*;

use crate::entity_tag_error::EntityTagError;

verus! {

/// A character is legal inside an unquoted opaque-tag body: `etagc`,
/// that is `%x21 / %x23-7E / %x80-FF` (excludes the controls below
/// `%x21`, the double quote `%x22`, and `%x7F`).
pub open spec fn is_etagc(c: char) -> bool {
    c as u32 == 0x21 || (0x23 <= c as u32 && c as u32 <= 0x7e) || c as u32 >= 0x80
}

/// Every character of the candidate body is legal under `etagc`.
/// The empty body is trivially valid.
pub open spec fn tag_chars_ok(s: Seq<char>) -> bool {
    forall|i: int| 0 <= i < s.len() ==> is_etagc(#[trigger] s[i])
}

/// The text begins with a double quote.
pub open spec fn starts_quoted(s: Seq<char>) -> bool {
    s.len() >= 1 && s[0] == '"'
}

/// The text is long enough to carry both quotes and ends with one.
pub open spec fn ends_quoted(s: Seq<char>) -> bool {
    s.len() >= 2 && s[s.len() - 1] == '"'
}

/// The span strictly between the first and the last character.
pub open spec fn inner_of(s: Seq<char>) -> Seq<char> {
    s.subrange(1, s.len() - 1)
}

/// The quote-tolerant constructor family accepts the text: either it is
/// not quoted at all and is a valid body itself, or it is wrapped in one
/// pair of double quotes around a valid body.
pub open spec fn tolerant_ok(s: Seq<char>) -> bool {
    if starts_quoted(s) {
        ends_quoted(s) && tag_chars_ok(inner_of(s))
    } else {
        tag_chars_ok(s)
    }
}

/// The body that the quote-tolerant constructor family stores: the text
/// itself, or the span between the quotes when the text is quoted.
pub open spec fn tolerant_body(s: Seq<char>) -> Seq<char> {
    if starts_quoted(s) {
        inner_of(s)
    } else {
        s
    }
}

/// The error the quote-tolerant constructor family reports when it
/// rejects the text: a missing closing quote is detected before the body
/// characters are checked.
pub open spec fn tolerant_err(s: Seq<char>) -> EntityTagError {
    if starts_quoted(s) && !ends_quoted(s) {
        EntityTagError::MissingClosingDoubleQuote
    } else {
        EntityTagError::InvalidTag
    }
}

/// The text is a well-formed opaque-tag: a valid body wrapped in one
/// pair of double quotes. Unlike the tolerant family, bare bodies are
/// rejected here.
pub open spec fn opaque_ok(s: Seq<char>) -> bool {
    starts_quoted(s) && ends_quoted(s) && tag_chars_ok(inner_of(s))
}

/// The error strict opaque-tag parsing reports: the starting quote is
/// checked first, then the closing quote, then the body characters.
pub open spec fn opaque_err(s: Seq<char>) -> EntityTagError {
    if !starts_quoted(s) {
        EntityTagError::MissingStartingDoubleQuote
    } else if !ends_quoted(s) {
        EntityTagError::MissingClosingDoubleQuote
    } else {
        EntityTagError::InvalidTag
    }
}

/// The serialized form carries the weakness indicator `W/`.
pub open spec fn weak_prefixed(s: Seq<char>) -> bool {
    s.len() >= 2 && s[0] == 'W' && s[1] == '/'
}

/// What remains of the serialized form once an optional `W/` prefix is
/// stripped: the candidate opaque-tag.
pub open spec fn wire_rest(s: Seq<char>) -> Seq<char> {
    if weak_prefixed(s) {
        s.subrange(2, s.len() as int)
    } else {
        s
    }
}

/// The text is a well-formed serialized entity-tag:
/// an opaque-tag under an optional `W/` prefix.
pub open spec fn wire_ok(s: Seq<char>) -> bool {
    opaque_ok(wire_rest(s))
}

/// The body stored when parsing a well-formed serialized entity-tag.
pub open spec fn wire_body(s: Seq<char>) -> Seq<char> {
    inner_of(wire_rest(s))
}

/// The error strict wire parsing reports for an ill-formed text.
pub open spec fn wire_err(s: Seq<char>) -> EntityTagError {
    opaque_err(wire_rest(s))
}

/// The canonical serialized form of a tag body and a weakness flag:
/// `W/` when weak, then the body wrapped in one pair of double quotes.
pub open spec fn wire_of(weak: bool, body: Seq<char>) -> Seq<char> {
    (if weak {
        seq!['W', '/']
    } else {
        Seq::<char>::empty()
    }) + seq!['"'] + body + seq!['"']
}

} // verus!
