//! The order in which keys are kept: identifiers compare by their UTF-8 bytes,
//! a prefix before what it is a prefix of; keys of several identifiers compare
//! part by part.

use vstd::prelude::*;
use vstd::string::*;
use vstd::utf8::encode_utf8;
use crate::keyed::strict_total;

verus! {

/// `a` and `b` agree on their first `n` bytes.
pub open spec fn prefix_eq(a: Seq<u8>, b: Seq<u8>, n: int) -> bool {
    &&& 0 <= n <= a.len()
    &&& n <= b.len()
    &&& forall|j: int| 0 <= j < n ==> a[j] == b[j]
}

/// `a` comes strictly before `b` when, after a common prefix of length `i`,
/// either `a` ends and `b` goes on, or `a` has the smaller byte.
pub open spec fn lt_at(a: Seq<u8>, b: Seq<u8>, i: int) -> bool {
    &&& prefix_eq(a, b, i)
    &&& i < b.len()
    &&& (i == a.len() || a[i] < b[i])
}

/// Lexicographic order on byte strings.
pub open spec fn bytes_lt(a: Seq<u8>, b: Seq<u8>) -> bool {
    exists|i: int| lt_at(a, b, i)
}

/// Order on identifiers, by their UTF-8 encoding.
pub open spec fn str_lt(a: Seq<char>, b: Seq<char>) -> bool {
    bytes_lt(encode_utf8(a), encode_utf8(b))
}

pub proof fn lemma_bytes_lt_irreflexive(a: Seq<u8>)
    ensures
        !bytes_lt(a, a),
{
}

pub proof fn lemma_bytes_lt_transitive(a: Seq<u8>, b: Seq<u8>, c: Seq<u8>)
    requires
        bytes_lt(a, b),
        bytes_lt(b, c),
    ensures
        bytes_lt(a, c),
{
    let i = choose|i: int| lt_at(a, b, i);
    let j = choose|j: int| lt_at(b, c, j);
    if i <= j {
        assert(lt_at(a, c, i));
    } else {
        assert(lt_at(a, c, j));
    }
}

proof fn lemma_bytes_trichotomy_from(a: Seq<u8>, b: Seq<u8>, n: int)
    requires
        prefix_eq(a, b, n),
        a != b,
    ensures
        bytes_lt(a, b) || bytes_lt(b, a),
    decreases a.len() - n,
{
    if n == a.len() {
        if n == b.len() {
            assert(a =~= b);
        } else {
            assert(lt_at(a, b, n));
        }
    } else if n == b.len() {
        assert(prefix_eq(b, a, n));
        assert(lt_at(b, a, n));
    } else if a[n] < b[n] {
        assert(lt_at(a, b, n));
    } else if b[n] < a[n] {
        assert(prefix_eq(b, a, n));
        assert(lt_at(b, a, n));
    } else {
        lemma_bytes_trichotomy_from(a, b, n + 1);
    }
}

pub proof fn lemma_bytes_trichotomy(a: Seq<u8>, b: Seq<u8>)
    ensures
        a == b || bytes_lt(a, b) || bytes_lt(b, a),
{
    if a != b {
        lemma_bytes_trichotomy_from(a, b, 0);
    }
}

/// The order on identifiers is strict and total.
pub proof fn lemma_str_lt_total(a: Seq<char>, b: Seq<char>)
    ensures
        a == b || str_lt(a, b) || str_lt(b, a),
        !str_lt(a, a),
{
    vstd::utf8::encode_utf8_decode_utf8(a);
    vstd::utf8::encode_utf8_decode_utf8(b);
    lemma_bytes_trichotomy(encode_utf8(a), encode_utf8(b));
}

pub proof fn lemma_str_lt_transitive(a: Seq<char>, b: Seq<char>, c: Seq<char>)
    requires
        str_lt(a, b),
        str_lt(b, c),
    ensures
        str_lt(a, c),
{
    lemma_bytes_lt_transitive(encode_utf8(a), encode_utf8(b), encode_utf8(c));
}

/// Whether `a` comes strictly before `b`.
pub fn string_lt(a: &String, b: &String) -> (r: bool)
    ensures
        r == str_lt(a@, b@),
{
    let x = a.as_str().as_bytes();
    let y = b.as_str().as_bytes();
    let mut i: usize = 0;
    while i < x.len() && i < y.len()
        invariant
            prefix_eq(x@, y@, i as int),
            x@ == encode_utf8(a@),
            y@ == encode_utf8(b@),
        decreases x.len() - i,
    {
        if x[i] < y[i] {
            assert(lt_at(x@, y@, i as int));
            return true;
        }
        if x[i] > y[i] {
            proof {
                assert(prefix_eq(y@, x@, i as int));
                assert(lt_at(y@, x@, i as int));
                lemma_not_both(x@, y@);
            }
            return false;
        }
        i = i + 1;
    }
    if i < y.len() {
        assert(lt_at(x@, y@, i as int));
        true
    } else {
        proof {
            if i == x.len() {
                assert(x@ =~= y@);
            } else {
                assert(prefix_eq(y@, x@, i as int));
                assert(lt_at(y@, x@, i as int));
                lemma_not_both(x@, y@);
            }
        }
        false
    }
}

/// No two byte strings come before each other.
pub proof fn lemma_not_both(a: Seq<u8>, b: Seq<u8>)
    requires
        bytes_lt(b, a),
    ensures
        !bytes_lt(a, b),
{
    if bytes_lt(a, b) {
        lemma_bytes_lt_transitive(a, b, a);
        lemma_bytes_lt_irreflexive(a);
    }
}

/// A key of two identifiers.
pub type Pair = (Seq<char>, Seq<char>);

/// A key of three identifiers.
pub type Triple = (Seq<char>, Seq<char>, Seq<char>);

/// Pairs are ordered by their first part, then by their second.
pub open spec fn pair_lt(a: Pair, b: Pair) -> bool {
    str_lt(a.0, b.0) || (a.0 == b.0 && str_lt(a.1, b.1))
}

/// Triples are ordered by their first part, then their second, then their
/// third.
pub open spec fn triple_lt(a: Triple, b: Triple) -> bool {
    pair_lt((a.0, a.1), (b.0, b.1)) || (a.0 == b.0 && a.1 == b.1 && str_lt(a.2, b.2))
}

/// The order on pairs.
pub open spec fn pair_order() -> spec_fn(Pair, Pair) -> bool {
    |a: Pair, b: Pair| pair_lt(a, b)
}

/// The order on triples.
pub open spec fn triple_order() -> spec_fn(Triple, Triple) -> bool {
    |a: Triple, b: Triple| triple_lt(a, b)
}

/// The order on pairs is strict and total.
pub proof fn lemma_pair_order_strict()
    ensures
        strict_total(pair_order()),
{
    let lt = pair_order();
    assert forall|a: Pair| !#[trigger] lt(a, a) by {
        lemma_str_lt_total(a.0, a.0);
        lemma_str_lt_total(a.1, a.1);
    }
    assert forall|a: Pair, b: Pair, c: Pair| #[trigger] lt(a, b) && #[trigger] lt(b, c) implies lt(
        a,
        c,
    ) by {
        if str_lt(a.0, b.0) && str_lt(b.0, c.0) {
            lemma_str_lt_transitive(a.0, b.0, c.0);
        } else if a.0 == b.0 && b.0 == c.0 {
            lemma_str_lt_transitive(a.1, b.1, c.1);
        }
    }
    assert forall|a: Pair, b: Pair| a == b || #[trigger] lt(a, b) || lt(b, a) by {
        lemma_str_lt_total(a.0, b.0);
        lemma_str_lt_total(a.1, b.1);
    }
}

/// The order on triples is strict and total.
pub proof fn lemma_triple_order_strict()
    ensures
        strict_total(triple_order()),
{
    let lt = triple_order();
    lemma_pair_order_strict();
    let pl = pair_order();
    assert forall|a: Triple| !#[trigger] lt(a, a) by {
        assert(!pl((a.0, a.1), (a.0, a.1)));
        lemma_str_lt_total(a.2, a.2);
    }
    assert forall|a: Triple, b: Triple, c: Triple| #[trigger] lt(a, b) && #[trigger] lt(
        b,
        c,
    ) implies lt(a, c) by {
        let pa = (a.0, a.1);
        let pb = (b.0, b.1);
        let pc = (c.0, c.1);
        if pl(pa, pb) && pl(pb, pc) {
            assert(pl(pa, pc));
        } else if pa == pb && pb == pc {
            lemma_str_lt_transitive(a.2, b.2, c.2);
        }
    }
    assert forall|a: Triple, b: Triple| a == b || #[trigger] lt(a, b) || lt(b, a) by {
        let pa = (a.0, a.1);
        let pb = (b.0, b.1);
        assert(pa == pb || pl(pa, pb) || pl(pb, pa));
        lemma_str_lt_total(a.2, b.2);
    }
}

/// Whether the pair `(a0, a1)` comes strictly before `(b0, b1)`.
pub fn pair_before(a0: &String, a1: &String, b0: &String, b1: &String) -> (r: bool)
    ensures
        r == pair_lt((a0@, a1@), (b0@, b1@)),
{
    if string_lt(a0, b0) {
        true
    } else if *a0 == *b0 {
        string_lt(a1, b1)
    } else {
        false
    }
}

/// Whether the triple `(a0, a1, a2)` comes strictly before `(b0, b1, b2)`.
pub fn triple_before(
    a0: &String,
    a1: &String,
    a2: &String,
    b0: &String,
    b1: &String,
    b2: &String,
) -> (r: bool)
    ensures
        r == triple_lt((a0@, a1@, a2@), (b0@, b1@, b2@)),
{
    if pair_before(a0, a1, b0, b1) {
        true
    } else if *a0 == *b0 && *a1 == *b1 {
        string_lt(a2, b2)
    } else {
        false
    }
}

} // verus!
