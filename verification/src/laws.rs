//! The laws that relate the grammar, the constructors, the comparators
//! and the formatter, proved once for all inputs. Each is stated over
//! the same specification functions that the executable functions'
//! contracts use, so it carries over to every value those functions
//! build.

use vstd::prelude::*;

use crate::generate::{generated_tag, CONTENT_SEED};
use crate::grammar::{
    is_etagc, tag_chars_ok, tolerant_body, tolerant_ok, weak_prefixed, wire_body, wire_of, wire_ok,
    wire_rest,
};
use crate::EntityTag;

verus! {

/// A grammar-legal body never begins with a double quote (the quote is
/// not an `etagc` character), so the quote-tolerant constructor family
/// accepts it and stores it whole.
pub proof fn lemma_valid_body_kept(body: Seq<char>)
    requires
        tag_chars_ok(body),
    ensures
        tolerant_ok(body),
        tolerant_body(body) == body,
{
    if body.len() >= 1 {
        assert(is_etagc(body[0]));
        assert(body[0] != '"');
    }
}

/// For every grammar-legal body and either weakness flag: building
/// tolerantly from the bare body succeeds, and formatting the built
/// value yields exactly the optional `W/` prefix, a double quote, the
/// body verbatim, and a double quote.
pub proof fn lemma_body_format(weak: bool, body: Seq<char>)
    requires
        tag_chars_ok(body),
    ensures
        tolerant_ok(body),
        wire_of(weak, tolerant_body(body)) == (if weak {
            seq!['W', '/']
        } else {
            Seq::<char>::empty()
        }) + seq!['"'] + body + seq!['"'],
{
    lemma_valid_body_kept(body);
}

/// Round trip: formatting the value parsed from any well-formed wire
/// text reproduces that text exactly, character for character.
pub proof fn lemma_wire_round_trip(w: Seq<char>)
    requires
        wire_ok(w),
    ensures
        wire_of(weak_prefixed(w), wire_body(w)) == w,
{
    let rest = wire_rest(w);
    if weak_prefixed(w) {
        assert(rest == w.subrange(2, w.len() as int));
        assert(wire_of(true, wire_body(w)) =~= w);
    } else {
        assert(wire_of(false, wire_body(w)) =~= w);
    }
}

/// Idempotence of quote-tolerant construction: for a grammar-legal body,
/// constructing from the bare body and constructing from the body
/// wrapped in one pair of double quotes succeed and store the same tag.
pub proof fn lemma_tolerant_idempotent(body: Seq<char>)
    requires
        tag_chars_ok(body),
    ensures
        tolerant_ok(body),
        tolerant_ok(seq!['"'] + body + seq!['"']),
        tolerant_body(seq!['"'] + body + seq!['"']) == tolerant_body(body),
{
    lemma_valid_body_kept(body);
    let quoted = seq!['"'] + body + seq!['"'];
    assert(quoted.len() == body.len() + 2);
    assert(quoted[0] == '"');
    assert(quoted[quoted.len() - 1] == '"');
    assert(quoted.subrange(1, quoted.len() - 1) =~= body);
}

/// Strong equality implies weak equality; the converse need not hold.
pub proof fn lemma_strong_eq_implies_weak_eq(a: &EntityTag, b: &EntityTag)
    ensures
        a.spec_strong_eq(b) ==> a.spec_weak_eq(b),
{
}

/// Weak equality is reflexive on every value.
pub proof fn lemma_weak_eq_reflexive(a: &EntityTag)
    ensures
        a.spec_weak_eq(a),
{
}

/// Strong equality is reflexive exactly on the non-weak values.
pub proof fn lemma_strong_eq_reflexive(a: &EntityTag)
    ensures
        a.spec_strong_eq(a) <==> !a.spec_weak(),
{
}

/// Both comparisons are symmetric.
pub proof fn lemma_eq_symmetric(a: &EntityTag, b: &EntityTag)
    ensures
        a.spec_weak_eq(b) == b.spec_weak_eq(a),
        a.spec_strong_eq(b) == b.spec_strong_eq(a),
{
}

/// Content-derived generation is deterministic: any two values carrying
/// the generator's outcome for the same input bytes are equal under both
/// comparisons — in particular strongly, since neither is weak.
pub proof fn lemma_from_data_deterministic(data: Seq<u8>, a: &EntityTag, b: &EntityTag)
    requires
        a.spec_weak() == false,
        a.spec_tag() == generated_tag(data, CONTENT_SEED),
        b.spec_weak() == false,
        b.spec_tag() == generated_tag(data, CONTENT_SEED),
    ensures
        a.spec_strong_eq(b),
        a.spec_weak_eq(b),
{
}

} // verus!
