//! The order in which the catalog keeps its keys: texts compared byte by byte
//! in their UTF-8 encoding, which is the order of `str` itself.

use vstd::prelude::*;
use vstd::utf8::*;

verus! {

/// Where one text stands relative to another in key order.
#[derive(Clone, Copy, Debug, PartialEq, Eq, Structural)]
pub enum Rank {
    Before,
    Same,
    After,
}

/// `a` and `b` agree on their first `k` bytes, and at position `k` either `a`
/// has ended while `b` goes on, or `a` holds the smaller byte.
pub open spec fn precedes_at(a: Seq<u8>, b: Seq<u8>, k: int) -> bool {
    &&& 0 <= k <= a.len()
    &&& k < b.len()
    &&& forall|j: int| 0 <= j < k ==> a[j] == b[j]
    &&& (k == a.len() || a[k] < b[k])
}

/// Strict lexicographic order on byte sequences.
pub open spec fn bytes_precede(a: Seq<u8>, b: Seq<u8>) -> bool {
    exists|k: int| precedes_at(a, b, k)
}

/// Strict order on texts: the lexicographic order of their UTF-8 bytes.
pub open spec fn key_precedes(a: Seq<char>, b: Seq<char>) -> bool {
    bytes_precede(encode_utf8(a), encode_utf8(b))
}

/// No byte sequence precedes itself.
pub proof fn lemma_bytes_irreflexive(a: Seq<u8>)
    ensures
        !bytes_precede(a, a),
{
}

/// The byte order is transitive.
pub proof fn lemma_bytes_transitive(a: Seq<u8>, b: Seq<u8>, c: Seq<u8>)
    requires
        bytes_precede(a, b),
        bytes_precede(b, c),
    ensures
        bytes_precede(a, c),
{
    let k1 = choose|k: int| precedes_at(a, b, k);
    let k2 = choose|k: int| precedes_at(b, c, k);
    let k = if k1 <= k2 { k1 } else { k2 };
    assert(precedes_at(a, c, k));
}

/// Two byte sequences that agree on their first `k` bytes are equal, or one
/// of them precedes the other.
proof fn lemma_bytes_total_from(a: Seq<u8>, b: Seq<u8>, k: int)
    requires
        0 <= k <= a.len(),
        k <= b.len(),
        forall|j: int| 0 <= j < k ==> a[j] == b[j],
    ensures
        bytes_precede(a, b) || a == b || bytes_precede(b, a),
    decreases a.len() - k,
{
    if k == a.len() {
        if k == b.len() {
            assert(a =~= b);
        } else {
            assert(precedes_at(a, b, k));
        }
    } else if k == b.len() {
        assert(precedes_at(b, a, k));
    } else if a[k] < b[k] {
        assert(precedes_at(a, b, k));
    } else if b[k] < a[k] {
        assert(precedes_at(b, a, k));
    } else {
        lemma_bytes_total_from(a, b, k + 1);
    }
}

/// Of two different byte sequences one precedes the other.
pub proof fn lemma_bytes_total(a: Seq<u8>, b: Seq<u8>)
    ensures
        bytes_precede(a, b) || a == b || bytes_precede(b, a),
{
    lemma_bytes_total_from(a, b, 0);
}

/// Two texts with the same UTF-8 bytes are the same text.
pub proof fn lemma_encoding_injective(a: Seq<char>, b: Seq<char>)
    requires
        encode_utf8(a) == encode_utf8(b),
    ensures
        a == b,
{
    encode_utf8_decode_utf8(a);
    encode_utf8_decode_utf8(b);
}

/// No text precedes itself.
pub proof fn lemma_key_irreflexive(a: Seq<char>)
    ensures
        !key_precedes(a, a),
{
    lemma_bytes_irreflexive(encode_utf8(a));
}

/// The key order is transitive.
pub proof fn lemma_key_transitive(a: Seq<char>, b: Seq<char>, c: Seq<char>)
    requires
        key_precedes(a, b),
        key_precedes(b, c),
    ensures
        key_precedes(a, c),
{
    lemma_bytes_transitive(encode_utf8(a), encode_utf8(b), encode_utf8(c));
}

/// Of two texts, at most one precedes the other.
pub proof fn lemma_key_asymmetric(a: Seq<char>, b: Seq<char>)
    requires
        key_precedes(a, b),
    ensures
        !key_precedes(b, a),
        a != b,
{
    if key_precedes(b, a) {
        lemma_key_transitive(a, b, a);
    }
    lemma_key_irreflexive(a);
}

/// Of two different texts one precedes the other.
pub proof fn lemma_key_total(a: Seq<char>, b: Seq<char>)
    ensures
        key_precedes(a, b) || a == b || key_precedes(b, a),
{
    lemma_bytes_total(encode_utf8(a), encode_utf8(b));
    if encode_utf8(a) == encode_utf8(b) {
        lemma_encoding_injective(a, b);
    }
}

/// Compares two texts in key order.
pub fn rank(a: &str, b: &str) -> (r: Rank)
    ensures
        r is Before <==> key_precedes(a@, b@),
        r is Same <==> a@ == b@,
        r is After <==> key_precedes(b@, a@),
{
    let x = a.as_bytes();
    let y = b.as_bytes();
    let mut i: usize = 0;
    while i < x.len() && i < y.len() && x[i] == y[i]
        invariant
            x@ == encode_utf8(a@),
            y@ == encode_utf8(b@),
            i <= x.len(),
            i <= y.len(),
            forall|j: int| 0 <= j < i ==> x@[j] == y@[j],
        decreases x.len() - i,
    {
        i += 1;
    }
    if i == x.len() && i == y.len() {
        proof {
            assert(x@ =~= y@);
            lemma_encoding_injective(a@, b@);
            lemma_key_irreflexive(a@);
        }
        Rank::Same
    } else if i == x.len() || (i < y.len() && x[i] < y[i]) {
        proof {
            assert(precedes_at(x@, y@, i as int));
            lemma_key_asymmetric(a@, b@);
        }
        Rank::Before
    } else {
        proof {
            assert(precedes_at(y@, x@, i as int));
            lemma_key_asymmetric(b@, a@);
        }
        Rank::After
    }
}

} // verus!
