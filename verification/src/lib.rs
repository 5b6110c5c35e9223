//! HTTP entity-tag values as defined in RFC 7232 section 2.3: the textual
//! grammar, strict and quote-tolerant construction, strong and weak
//! comparison, hash-based generation, and canonical wire formatting.
//!
//! The sole entity is [`EntityTag`]: an immutable value holding a weakness
//! flag and the opaque-tag body, stored without the surrounding double
//! quotes and without the `W/` prefix. Every constructor validates its
//! input against the `etagc` grammar (see [`grammar`]); the generators
//! produce grammar-legal bodies by construction.

use vstd::prelude::*;
use vstd::string::StrSliceExecFns;
use vstd::string::StringExecFns;

pub mod entity_tag_error;
pub mod generate;
pub mod grammar;
pub mod laws;

pub use entity_tag_error::EntityTagError;
pub use generate::ModifiedTime;

use crate::generate::{
    base64_nopad, generated_tag, hash64, lemma_base64_chars_are_etagc, meta_bytes, push_u128_le,
    push_u64_le, u64_le_bytes, CONTENT_SEED, FILE_META_SEED,
};

use crate::grammar::{
    is_etagc, opaque_err, opaque_ok, starts_quoted, tag_chars_ok, tolerant_body, tolerant_err,
    tolerant_ok, weak_prefixed, wire_body, wire_err, wire_of, wire_ok,
};

verus! {

/// An entity tag, defined in RFC 7232 section 2.3.
///
/// The body is stored without surrounding double quotes and never holds a
/// character outside the `etagc` set, unless the value was built through
/// one of the unchecked constructors whose caller broke their obligation.
#[derive(Debug, Clone)]
pub struct EntityTag {
    /// Whether the tag carries the weak-validator indicator (`W/` prefix).
    pub weak: bool,
    /// The opaque-tag body, quotes excluded.
    tag: String,
}

impl EntityTag {
    /// The name of the HTTP header field that carries an entity-tag.
    pub const HEADER_NAME: &'static str = "ETag";
}

impl EntityTag {
    /// Whether the value carries the weak-validator indicator.
    pub closed spec fn spec_weak(&self) -> bool {
        self.weak
    }

    /// The characters of the stored opaque-tag body.
    pub closed spec fn spec_tag(&self) -> Seq<char> {
        self.tag@
    }

    /// The stored body is legal under the `etagc` grammar. Checked
    /// constructors and generators always establish this.
    pub open spec fn wf(&self) -> bool {
        tag_chars_ok(self.spec_tag())
    }

    /// Weak comparison: the bodies match character by character,
    /// regardless of either side being weak.
    pub open spec fn spec_weak_eq(&self, other: &EntityTag) -> bool {
        self.spec_tag() == other.spec_tag()
    }

    /// Strong comparison: both sides are non-weak and the bodies match
    /// character by character.
    pub open spec fn spec_strong_eq(&self, other: &EntityTag) -> bool {
        !self.spec_weak() && !other.spec_weak() && self.spec_tag() == other.spec_tag()
    }
}

impl EntityTag {
    /// Construct a new `EntityTag` without checking. The caller
    /// guarantees that the body is grammar-legal.
    pub fn new_unchecked(weak: bool, tag: String) -> (r: EntityTag)
        requires
            tag_chars_ok(tag@),
        ensures
            r.spec_weak() == weak,
            r.spec_tag() == tag@,
            r.wf(),
    {
        EntityTag { weak, tag }
    }

    /// Construct a new `EntityTag` from an owned body without checking.
    /// The caller guarantees that the body is grammar-legal.
    pub fn with_string_unchecked(weak: bool, tag: String) -> (r: EntityTag)
        requires
            tag_chars_ok(tag@),
        ensures
            r.spec_weak() == weak,
            r.spec_tag() == tag@,
            r.wf(),
    {
        EntityTag { weak, tag }
    }

    /// Construct a new `EntityTag` from a borrowed body without checking,
    /// copying the body into owned storage. The caller guarantees that
    /// the body is grammar-legal.
    pub fn with_str_unchecked(weak: bool, tag: &str) -> (r: EntityTag)
        requires
            tag_chars_ok(tag@),
        ensures
            r.spec_weak() == weak,
            r.spec_tag() == tag@,
            r.wf(),
    {
        EntityTag { weak, tag: String::from_str(tag) }
    }

    /// Get the tag body as an owned-string reference. The double quotes
    /// are not included.
    pub fn get_tag_cow(&self) -> (r: &String)
        ensures
            r@ == self.spec_tag(),
    {
        &self.tag
    }

    /// Get the tag body. The double quotes are not included.
    pub fn get_tag(&self) -> (r: &str)
        ensures
            r@ == self.spec_tag(),
    {
        self.tag.as_str()
    }

    /// Into the tag body. The double quotes are not included.
    pub fn into_tag(self) -> (r: String)
        ensures
            r@ == self.spec_tag(),
    {
        self.tag
    }
}

impl EntityTag {
    /// The grammar validator: succeeds iff every character of the
    /// candidate body satisfies `etagc`. The single source of truth for
    /// tag legality, invoked by every constructor path.
    fn check_unquoted_tag(s: &str) -> (res: Result<(), EntityTagError>)
        ensures
            res is Ok <==> tag_chars_ok(s@),
            res is Err ==> res->Err_0 == EntityTagError::InvalidTag,
    {
        let n = s.unicode_len();
        let mut i: usize = 0;
        while i < n
            invariant
                n == s@.len(),
                i <= n,
                forall|j: int| 0 <= j < i ==> is_etagc(#[trigger] s@[j]),
            decreases n - i,
        {
            let c = s.get_char(i);
            let u = c as u32;
            if !(u == 0x21 || (0x23 <= u && u <= 0x7e) || u >= 0x80) {
                assert(!is_etagc(s@[i as int]));
                return Err(EntityTagError::InvalidTag);
            }
            i += 1;
        }
        Ok(())
    }

    /// Quote-tolerant validation: accepts a bare body or one wrapped in a
    /// single pair of double quotes, and reports whether it was quoted.
    fn check_tag(s: &str) -> (res: Result<bool, EntityTagError>)
        ensures
            res is Ok <==> tolerant_ok(s@),
            res is Ok ==> res->Ok_0 == starts_quoted(s@),
            res is Err ==> res->Err_0 == tolerant_err(s@),
    {
        let n = s.unicode_len();
        if n >= 1 && s.get_char(0) == '"' {
            if n >= 2 && s.get_char(n - 1) == '"' {
                match Self::check_unquoted_tag(s.substring_char(1, n - 1)) {
                    Ok(()) => Ok(true),
                    Err(e) => Err(e),
                }
            } else {
                Err(EntityTagError::MissingClosingDoubleQuote)
            }
        } else {
            match Self::check_unquoted_tag(s) {
                Ok(()) => Ok(false),
                Err(e) => Err(e),
            }
        }
    }

    /// Construct a new `EntityTag` from a weakness flag and an owned
    /// body that may optionally be wrapped in one pair of double quotes.
    pub fn with_string(weak: bool, tag: String) -> (res: Result<EntityTag, EntityTagError>)
        ensures
            res is Ok <==> tolerant_ok(tag@),
            res is Ok ==> res->Ok_0.spec_weak() == weak && res->Ok_0.spec_tag() == tolerant_body(tag@)
                && res->Ok_0.wf(),
            res is Err ==> res->Err_0 == tolerant_err(tag@),
    {
        Self::with_str(weak, tag.as_str())
    }

    /// Construct a new `EntityTag` from a weakness flag and a borrowed
    /// body that may optionally be wrapped in one pair of double quotes.
    pub fn with_str(weak: bool, tag: &str) -> (res: Result<EntityTag, EntityTagError>)
        ensures
            res is Ok <==> tolerant_ok(tag@),
            res is Ok ==> res->Ok_0.spec_weak() == weak && res->Ok_0.spec_tag() == tolerant_body(tag@)
                && res->Ok_0.wf(),
            res is Err ==> res->Err_0 == tolerant_err(tag@),
    {
        match Self::check_tag(tag) {
            Err(e) => Err(e),
            Ok(quoted) => {
                let body: String = if quoted {
                    let n = tag.unicode_len();
                    String::from_str(tag.substring_char(1, n - 1))
                } else {
                    String::from_str(tag)
                };
                Ok(EntityTag { weak, tag: body })
            },
        }
    }
}

impl EntityTag {
    /// Strict opaque-tag validation: the text must be a valid body
    /// wrapped in one pair of double quotes; bare bodies are rejected.
    fn check_opaque_tag(s: &str) -> (res: Result<(), EntityTagError>)
        ensures
            res is Ok <==> opaque_ok(s@),
            res is Err ==> res->Err_0 == opaque_err(s@),
    {
        let n = s.unicode_len();
        if n >= 1 && s.get_char(0) == '"' {
            if n >= 2 && s.get_char(n - 1) == '"' {
                Self::check_unquoted_tag(s.substring_char(1, n - 1))
            } else {
                Err(EntityTagError::MissingClosingDoubleQuote)
            }
        } else {
            Err(EntityTagError::MissingStartingDoubleQuote)
        }
    }

    /// Parse and construct a new `EntityTag` from an owned serialized
    /// header value, such as `"foo"` or `W/"foo"`.
    pub fn from_string(etag: String) -> (res: Result<EntityTag, EntityTagError>)
        ensures
            res is Ok <==> wire_ok(etag@),
            res is Ok ==> res->Ok_0.spec_weak() == weak_prefixed(etag@) && res->Ok_0.spec_tag()
                == wire_body(etag@) && res->Ok_0.wf(),
            res is Err ==> res->Err_0 == wire_err(etag@),
    {
        Self::from_str(etag.as_str())
    }

    /// Parse and construct a new `EntityTag` from a borrowed serialized
    /// header value, such as `"foo"` or `W/"foo"`.
    pub fn from_str(etag: &str) -> (res: Result<EntityTag, EntityTagError>)
        ensures
            res is Ok <==> wire_ok(etag@),
            res is Ok ==> res->Ok_0.spec_weak() == weak_prefixed(etag@) && res->Ok_0.spec_tag()
                == wire_body(etag@) && res->Ok_0.wf(),
            res is Err ==> res->Err_0 == wire_err(etag@),
    {
        let n = etag.unicode_len();
        let weak = n >= 2 && etag.get_char(0) == 'W' && etag.get_char(1) == '/';
        let rest: &str = if weak {
            etag.substring_char(2, n)
        } else {
            etag
        };
        match Self::check_opaque_tag(rest) {
            Err(e) => Err(e),
            Ok(()) => {
                let m = rest.unicode_len();
                let body = String::from_str(rest.substring_char(1, m - 1));
                Ok(EntityTag { weak, tag: body })
            },
        }
    }
}

impl EntityTag {
    /// Construct a strong `EntityTag` from arbitrary byte content:
    /// the content is hashed under the content seed and the hash's eight
    /// little-endian bytes are encoded as unpadded standard base64.
    /// Deterministic and total; the body is grammar-legal by
    /// construction.
    pub fn from_data(data: &Vec<u8>) -> (r: EntityTag)
        ensures
            r.spec_weak() == false,
            r.spec_tag() == generated_tag(data@, CONTENT_SEED),
            r.wf(),
    {
        let h = hash64(data, CONTENT_SEED);
        let mut hash_bytes: Vec<u8> = Vec::new();
        push_u64_le(&mut hash_bytes, h);
        proof {
            assert(hash_bytes@ =~= u64_le_bytes(h));
        }
        let tag = base64_nopad(&hash_bytes);
        proof {
            lemma_base64_chars_are_etagc(tag@);
        }
        EntityTag { weak: false, tag }
    }

    /// Construct a weak `EntityTag` from a file's metadata, handed over
    /// as plain values: the size in bytes, and the modification time
    /// when it could be read. Size and time are serialized (see
    /// [`generate::meta_bytes`]), hashed under the file-metadata seed,
    /// and encoded like [`EntityTag::from_data`]. The result is always
    /// weak: size and modification time are a coarse fingerprint, never
    /// good for byte-exact comparison.
    pub fn from_file_meta(size: u64, modified: Option<ModifiedTime>) -> (r: EntityTag)
        ensures
            r.spec_weak() == true,
            r.spec_tag() == generated_tag(meta_bytes(size, modified), FILE_META_SEED),
            r.wf(),
    {
        let mut buf: Vec<u8> = Vec::new();
        push_u64_le(&mut buf, size);
        match modified {
            None => {},
            Some(ModifiedTime::SinceEpoch(nanos)) => {
                push_u128_le(&mut buf, nanos);
            },
            Some(ModifiedTime::BeforeEpoch(nanos)) => {
                buf.push(0x2d);
                push_u128_le(&mut buf, nanos);
            },
        }
        proof {
            assert(buf@ =~= meta_bytes(size, modified));
        }
        let h = hash64(&buf, FILE_META_SEED);
        let mut hash_bytes: Vec<u8> = Vec::new();
        push_u64_le(&mut hash_bytes, h);
        proof {
            assert(hash_bytes@ =~= u64_le_bytes(h));
        }
        let tag = base64_nopad(&hash_bytes);
        proof {
            lemma_base64_chars_are_etagc(tag@);
        }
        EntityTag { weak: true, tag }
    }
}

impl EntityTag {
    /// For strong comparison two entity-tags are equivalent if both are
    /// not weak and their opaque-tags match character by character.
    pub fn strong_eq(&self, other: &EntityTag) -> (r: bool)
        ensures
            r == self.spec_strong_eq(other),
    {
        !self.weak && !other.weak && self.tag == other.tag
    }

    /// For weak comparison two entity-tags are equivalent if their
    /// opaque-tags match character by character, regardless of either or
    /// both being tagged as weak.
    pub fn weak_eq(&self, other: &EntityTag) -> (r: bool)
        ensures
            r == self.spec_weak_eq(other),
    {
        self.tag == other.tag
    }

    /// The inverse of `strong_eq`.
    pub fn strong_ne(&self, other: &EntityTag) -> (r: bool)
        ensures
            r == !self.spec_strong_eq(other),
    {
        !self.strong_eq(other)
    }

    /// The inverse of `weak_eq`.
    pub fn weak_ne(&self, other: &EntityTag) -> (r: bool)
        ensures
            r == !self.spec_weak_eq(other),
    {
        !self.weak_eq(other)
    }
}

impl EntityTag {
    /// Serialize to the canonical wire form: `W/` when weak, then the
    /// body wrapped in one pair of double quotes. This exactly inverts
    /// strict parsing (see [`laws::lemma_wire_round_trip`]).
    pub fn to_wire_string(&self) -> (res: String)
        ensures
            res@ == wire_of(self.spec_weak(), self.spec_tag()),
    {
        let mut out = String::new();
        if self.weak {
            out.append("W/");
        }
        out.append("\"");
        out.append(self.tag.as_str());
        out.append("\"");
        proof {
            reveal_strlit("W/");
            reveal_strlit("\"");
            assert(out@ =~= wire_of(self.spec_weak(), self.spec_tag()));
        }
        out
    }
}

impl PartialEq for EntityTag {
    /// Field-by-field equality: two values are equal when both the
    /// weakness flag and the body agree.
    fn eq(&self, other: &EntityTag) -> (r: bool) {
        self.weak == other.weak && self.tag == other.tag
    }
}

impl Eq for EntityTag {

}

impl vstd::std_specs::cmp::PartialEqSpecImpl for EntityTag {
    open spec fn obeys_eq_spec() -> bool {
        true
    }

    open spec fn eq_spec(&self, other: &EntityTag) -> bool {
        self.spec_weak() == other.spec_weak() && self.spec_tag() == other.spec_tag()
    }
}

} // verus!
