//! The order in which a table keeps its identifiers: that of their UTF-8
//! bytes, read from the left.

use vstd::prelude::*;
use vstd::utf8::encode_utf8;
use vstd::utf8::encode_utf8_decode_utf8;

verus! {

/// How one text stands to another in the order of a table.
#[derive(Clone, Copy, Debug, PartialEq, Eq, Structural)]
pub enum Place {
    Before,
    Same,
    After,
}

/// The texts of a list of strings.
pub open spec fn texts(strings: Seq<String>) -> Seq<Seq<char>> {
    strings.map_values(|s: String| s@)
}

/// `a` and `b` agree on their first `k` bytes, and there `a` ends while `b`
/// goes on, or `a` has the smaller byte.
pub open spec fn parts_at(a: Seq<u8>, b: Seq<u8>, k: int) -> bool {
    &&& 0 <= k <= a.len()
    &&& k < b.len()
    &&& forall|i: int| 0 <= i < k ==> a[i] == b[i]
    &&& k < a.len() ==> a[k] < b[k]
}

/// `a` comes before `b` when both are read byte by byte from the left.
pub open spec fn bytes_before(a: Seq<u8>, b: Seq<u8>) -> bool {
    exists|k: int| parts_at(a, b, k)
}

/// The text `a` comes before the text `b` in a table.
pub open spec fn text_before(a: Seq<char>, b: Seq<char>) -> bool {
    bytes_before(encode_utf8(a), encode_utf8(b))
}

/// No byte string comes before itself.
pub proof fn lemma_bytes_before_irreflexive(a: Seq<u8>)
    ensures
        !bytes_before(a, a),
{
}

/// Of two byte strings at most one comes before the other.
pub proof fn lemma_bytes_before_asymmetric(a: Seq<u8>, b: Seq<u8>)
    requires
        bytes_before(a, b),
    ensures
        !bytes_before(b, a),
{
    let k = choose|k: int| parts_at(a, b, k);
    if bytes_before(b, a) {
        let m = choose|m: int| parts_at(b, a, m);
        if k < m {
            assert(b[k] == a[k]);
        } else if m < k {
            assert(a[m] == b[m]);
        }
    }
}

/// Coming before is transitive.
pub proof fn lemma_bytes_before_transitive(a: Seq<u8>, b: Seq<u8>, c: Seq<u8>)
    requires
        bytes_before(a, b),
        bytes_before(b, c),
    ensures
        bytes_before(a, c),
{
    let k = choose|k: int| parts_at(a, b, k);
    let m = choose|m: int| parts_at(b, c, m);
    let n = if k <= m { k } else { m };
    assert forall|i: int| 0 <= i < n implies a[i] == c[i] by {
        assert(a[i] == b[i]);
        assert(b[i] == c[i]);
    }
    assert(parts_at(a, c, n));
}

/// Two texts with the same bytes are the same text.
pub proof fn lemma_text_of_bytes(a: Seq<char>, b: Seq<char>)
    requires
        encode_utf8(a) == encode_utf8(b),
    ensures
        a == b,
{
    encode_utf8_decode_utf8(a);
    encode_utf8_decode_utf8(b);
}

/// No text comes before itself, and a text that comes before another is a
/// different text.
pub proof fn lemma_text_before_irreflexive(a: Seq<char>, b: Seq<char>)
    requires
        text_before(a, b),
    ensures
        a != b,
{
    lemma_bytes_before_irreflexive(encode_utf8(a));
}

/// Coming before is transitive on texts.
pub proof fn lemma_text_before_transitive(a: Seq<char>, b: Seq<char>, c: Seq<char>)
    requires
        text_before(a, b),
        text_before(b, c),
    ensures
        text_before(a, c),
{
    lemma_bytes_before_transitive(encode_utf8(a), encode_utf8(b), encode_utf8(c));
}

/// Finds how `a` stands to `b`, byte by byte from the left.
pub fn compare_bytes(a: &[u8], b: &[u8]) -> (r: Place)
    ensures
        r == Place::Before <==> bytes_before(a@, b@),
        r == Place::Same <==> a@ == b@,
        r == Place::After <==> bytes_before(b@, a@),
{
    let mut i: usize = 0;
    while i < a.len() && i < b.len()
        invariant
            i <= a@.len(),
            i <= b@.len(),
            forall|j: int| 0 <= j < i ==> a@[j] == b@[j],
        decreases a@.len() - i,
    {
        if a[i] < b[i] {
            proof {
                assert(parts_at(a@, b@, i as int));
                lemma_bytes_before_asymmetric(a@, b@);
            }
            return Place::Before;
        }
        if b[i] < a[i] {
            proof {
                assert(parts_at(b@, a@, i as int));
                lemma_bytes_before_asymmetric(b@, a@);
            }
            return Place::After;
        }
        i = i + 1;
    }
    if a.len() < b.len() {
        proof {
            assert(parts_at(a@, b@, i as int));
            lemma_bytes_before_asymmetric(a@, b@);
        }
        Place::Before
    } else if b.len() < a.len() {
        proof {
            assert(parts_at(b@, a@, i as int));
            lemma_bytes_before_asymmetric(b@, a@);
        }
        Place::After
    } else {
        proof {
            assert(a@ =~= b@);
            lemma_bytes_before_irreflexive(a@);
        }
        Place::Same
    }
}

/// Finds how the text `a` stands to the text `b` in a table.
pub fn compare_text(a: &str, b: &str) -> (r: Place)
    ensures
        r == Place::Before <==> text_before(a@, b@),
        r == Place::Same <==> a@ == b@,
        r == Place::After <==> text_before(b@, a@),
{
    let r = compare_bytes(a.as_bytes(), b.as_bytes());
    proof {
        if r == Place::Same {
            lemma_text_of_bytes(a@, b@);
        }
    }
    r
}

/// Whether two texts are the same.
pub fn same_text(a: &str, b: &str) -> (r: bool)
    ensures
        r == (a@ == b@),
{
    compare_text(a, b) == Place::Same
}

} // verus!
