//! Request signing: sorting and percent-encoding the pairs into the canonical
//! query string, and the HMAC-SHA256 signature over it.
use vstd::prelude::*;
use vstd::utf8::encode_utf8;
use hmac::Mac;
use crate::params::{digit_char, pairs_view};
use crate::text::{push_char, push_str};

verus! {

/// What HMAC-SHA256 gives for a key and a message.
pub uninterp spec fn hmac_sha256_of(key: Seq<u8>, message: Seq<u8>) -> Seq<u8>;

/// The standard base64 text of some bytes, with padding.
pub uninterp spec fn base64_of(bytes: Seq<u8>) -> Seq<char>;

/// Relies on the `hmac` crate over `sha2::Sha256`: the tag of `message` under
/// `key`, 32 bytes long. HMAC takes a key of any length.
#[verifier::external_body]
fn hmac_sha256(key: &[u8], message: &[u8]) -> (r: Vec<u8>)
    ensures
        r@ == hmac_sha256_of(key@, message@),
        r@.len() == 32,
{
    let mut mac = hmac::Hmac::<sha2::Sha256>::new_from_slice(key).expect("HMAC takes keys of any length");
    mac.update(message);
    mac.finalize().into_bytes().to_vec()
}

/// Relies on `base64::encode` (standard alphabet, padded).
#[verifier::external_body]
pub(crate) fn base64_encode(bytes: &[u8]) -> (r: String)
    ensures
        r@ == base64_of(bytes@),
{
    base64::encode(bytes)
}

/// Whether the strict percent-encoding leaves the byte as it is: ASCII letters,
/// digits and `-`, `_`, `.`, `~`.
pub open spec fn unreserved(b: u8) -> bool {
    (65 <= b <= 90) || (97 <= b <= 122) || (48 <= b <= 57) || b == 45 || b == 95 || b == 46 || b == 126
}

/// An upper-case hexadecimal digit.
pub open spec fn hex_char(n: nat) -> char {
    if n < 10 { digit_char(n) } else if n == 10 { 'A' } else if n == 11 { 'B' } else if n == 12 { 'C' }
    else if n == 13 { 'D' } else if n == 14 { 'E' } else { 'F' }
}

/// The encoding of one byte: itself when unreserved, else `%XY`.
pub open spec fn byte_code(b: u8) -> Seq<char> {
    if unreserved(b) {
        seq![(b as u32) as char]
    } else {
        seq!['%', hex_char((b / 16) as nat), hex_char((b % 16) as nat)]
    }
}

/// The percent-encoding of a byte sequence.
pub open spec fn percent_bytes(bs: Seq<u8>) -> Seq<char>
    decreases bs.len(),
{
    if bs.len() == 0 {
        Seq::empty()
    } else {
        percent_bytes(bs.drop_last()) + byte_code(bs.last())
    }
}

/// The strict percent-encoding of a text: its UTF-8 bytes, each unreserved one
/// kept, each other one written `%XY` (so a space is `%20`).
pub open spec fn url_encoded(s: Seq<char>) -> Seq<char> {
    percent_bytes(encode_utf8(s))
}

/// Byte-wise strict order of two byte sequences (a proper prefix comes first).
pub open spec fn bytes_lt(a: Seq<u8>, b: Seq<u8>) -> bool
    decreases a.len(),
{
    if b.len() == 0 {
        false
    } else if a.len() == 0 {
        true
    } else if a[0] != b[0] {
        a[0] < b[0]
    } else {
        bytes_lt(a.drop_first(), b.drop_first())
    }
}

/// Byte-wise strict order of the UTF-8 text of two keys.
pub open spec fn key_lt(a: Seq<char>, b: Seq<char>) -> bool {
    bytes_lt(encode_utf8(a), encode_utf8(b))
}

/// `s` with `x` put after every pair whose key does not come after `x`'s.
pub open spec fn insert_sorted(x: (Seq<char>, Seq<char>), s: Seq<(Seq<char>, Seq<char>)>) -> Seq<(Seq<char>, Seq<char>)>
    decreases s.len(),
{
    if s.len() == 0 {
        seq![x]
    } else if key_lt(x.0, s[0].0) {
        seq![x] + s
    } else {
        seq![s[0]] + insert_sorted(x, s.drop_first())
    }
}

/// The pairs in byte-wise order of their keys; pairs with equal keys keep
/// their order.
pub open spec fn sort_pairs(s: Seq<(Seq<char>, Seq<char>)>) -> Seq<(Seq<char>, Seq<char>)>
    decreases s.len(),
{
    if s.len() == 0 {
        s
    } else {
        insert_sorted(s.last(), sort_pairs(s.drop_last()))
    }
}

/// Whether the pairs are in byte-wise order of their keys.
pub open spec fn keys_sorted(s: Seq<(Seq<char>, Seq<char>)>) -> bool {
    forall|i: int| 1 <= i < s.len() ==> !key_lt(#[trigger] s[i].0, s[i - 1].0)
}

proof fn lemma_bytes_lt_asymmetric(a: Seq<u8>, b: Seq<u8>)
    ensures
        bytes_lt(a, b) ==> !bytes_lt(b, a),
    decreases a.len(),
{
    if a.len() > 0 && b.len() > 0 && a[0] == b[0] {
        lemma_bytes_lt_asymmetric(a.drop_first(), b.drop_first());
    }
}

proof fn lemma_insert_sorted(x: (Seq<char>, Seq<char>), s: Seq<(Seq<char>, Seq<char>)>)
    requires
        keys_sorted(s),
    ensures
        keys_sorted(insert_sorted(x, s)),
        insert_sorted(x, s).len() == s.len() + 1,
        insert_sorted(x, s)[0] == x || (s.len() > 0 && insert_sorted(x, s)[0] == s[0]),
        insert_sorted(x, s).to_multiset() == s.to_multiset().insert(x),
    decreases s.len(),
{
    broadcast use vstd::seq_lib::group_to_multiset_ensures;
    if s.len() == 0 {
        assert(seq![x] =~= Seq::<(Seq<char>, Seq<char>)>::empty().push(x));
    } else if key_lt(x.0, s[0].0) {
        lemma_bytes_lt_asymmetric(encode_utf8(x.0), encode_utf8(s[0].0));
        let r = seq![x] + s;
        assert forall|i: int| 1 <= i < r.len() implies !key_lt(#[trigger] r[i].0, r[i - 1].0) by {
            if i > 1 {
                assert(r[i] == s[i - 1] && r[i - 1] == s[i - 2]);
            } else {
                assert(r[1] == s[0] && r[0] == x);
            }
        }
        assert(r =~= s.insert(0, x));
    } else {
        let t = s.drop_first();
        assert forall|i: int| 1 <= i < t.len() implies !key_lt(#[trigger] t[i].0, t[i - 1].0) by {
            assert(t[i] == s[i + 1] && t[i - 1] == s[i]);
        }
        lemma_insert_sorted(x, t);
        let u = insert_sorted(x, t);
        let r = seq![s[0]] + u;
        assert forall|i: int| 1 <= i < r.len() implies !key_lt(#[trigger] r[i].0, r[i - 1].0) by {
            if i > 1 {
                assert(r[i] == u[i - 1] && r[i - 1] == u[i - 2]);
            } else {
                assert(r[1] == u[0] && r[0] == s[0]);
                if u[0] != x {
                    assert(u[0] == s[1]);
                }
            }
        }
        assert(r =~= u.insert(0, s[0]));
        assert(s =~= t.insert(0, s[0]));
    }
}

/// The canonical order sorts: the pairs come out in byte-wise order of their
/// keys, and they are the pairs that went in, each as often.
pub proof fn lemma_canonical_order(s: Seq<(Seq<char>, Seq<char>)>)
    ensures
        keys_sorted(sort_pairs(s)),
        sort_pairs(s).to_multiset() == s.to_multiset(),
    decreases s.len(),
{
    broadcast use vstd::seq_lib::group_to_multiset_ensures;
    if s.len() > 0 {
        lemma_canonical_order(s.drop_last());
        lemma_insert_sorted(s.last(), sort_pairs(s.drop_last()));
        assert(s =~= s.drop_last().push(s.last()));
    }
}

proof fn lemma_percent_bytes_add(a: Seq<u8>, b: Seq<u8>)
    ensures
        percent_bytes(a + b) == percent_bytes(a) + percent_bytes(b),
    decreases b.len(),
{
    if b.len() == 0 {
        assert(a + b =~= a);
        assert(percent_bytes(a) + percent_bytes(b) =~= percent_bytes(a));
    } else {
        lemma_percent_bytes_add(a, b.drop_last());
        assert((a + b).drop_last() =~= a + b.drop_last());
        assert((a + b).last() == b.last());
        assert(percent_bytes(a) + percent_bytes(b) =~= percent_bytes(a) + percent_bytes(b.drop_last()) + byte_code(b.last()));
    }
}

proof fn lemma_hex_char_injective(m: nat, n: nat)
    requires
        m < 16,
        n < 16,
        hex_char(m) == hex_char(n),
    ensures
        m == n,
{
}

proof fn lemma_byte_code_prefix(a: u8, b: u8, rest_a: Seq<char>, rest_b: Seq<char>)
    requires
        byte_code(a) + rest_a == byte_code(b) + rest_b,
    ensures
        a == b,
        rest_a == rest_b,
{
    let x = byte_code(a) + rest_a;
    let y = byte_code(b) + rest_b;
    assert(x[0] == y[0]);
    if unreserved(a) && unreserved(b) {
        assert(x[0] == (a as u32) as char && y[0] == (b as u32) as char);
        assert(rest_a =~= x.skip(1));
        assert(rest_b =~= y.skip(1));
    } else if unreserved(a) {
        assert(x[0] == (a as u32) as char);
        assert(y[0] == '%');
    } else if unreserved(b) {
        assert(y[0] == (b as u32) as char);
        assert(x[0] == '%');
    } else {
        assert(x[1] == y[1] && x[2] == y[2]);
        lemma_hex_char_injective((a / 16) as nat, (b / 16) as nat);
        lemma_hex_char_injective((a % 16) as nat, (b % 16) as nat);
        assert(rest_a =~= x.skip(3));
        assert(rest_b =~= y.skip(3));
    }
}

proof fn lemma_percent_bytes_front(a: Seq<u8>)
    requires
        a.len() > 0,
    ensures
        percent_bytes(a) == byte_code(a[0]) + percent_bytes(a.drop_first()),
        percent_bytes(a).len() > 0,
{
    lemma_percent_bytes_add(seq![a[0]], a.drop_first());
    assert(seq![a[0]] + a.drop_first() =~= a);
    assert(seq![a[0]].drop_last() =~= Seq::<u8>::empty());
    assert(percent_bytes(Seq::<u8>::empty()) =~= Seq::<char>::empty());
    assert(percent_bytes(seq![a[0]]) =~= byte_code(a[0]));
}

proof fn lemma_percent_bytes_injective(a: Seq<u8>, b: Seq<u8>)
    requires
        percent_bytes(a) == percent_bytes(b),
    ensures
        a == b,
    decreases a.len(),
{
    if a.len() == 0 || b.len() == 0 {
        assert(percent_bytes(Seq::<u8>::empty()) =~= Seq::<char>::empty());
        if a.len() > 0 {
            lemma_percent_bytes_front(a);
        }
        if b.len() > 0 {
            lemma_percent_bytes_front(b);
        }
        assert(a =~= b);
    } else {
        lemma_percent_bytes_front(a);
        lemma_percent_bytes_front(b);
        lemma_byte_code_prefix(a[0], b[0], percent_bytes(a.drop_first()), percent_bytes(b.drop_first()));
        lemma_percent_bytes_injective(a.drop_first(), b.drop_first());
        assert(a =~= seq![a[0]] + a.drop_first());
        assert(b =~= seq![b[0]] + b.drop_first());
    }
}

/// Percent-encoding loses nothing: different texts have different encodings.
pub proof fn lemma_url_encoded_injective(s: Seq<char>, t: Seq<char>)
    requires
        url_encoded(s) == url_encoded(t),
    ensures
        s == t,
{
    lemma_percent_bytes_injective(encode_utf8(s), encode_utf8(t));
    vstd::utf8::encode_utf8_decode_utf8(s);
    vstd::utf8::encode_utf8_decode_utf8(t);
}

/// `key=value`, both percent-encoded.
pub open spec fn encoded_pair(p: (Seq<char>, Seq<char>)) -> Seq<char> {
    url_encoded(p.0) + seq!['='] + url_encoded(p.1)
}

/// The encoded pairs joined by `&`, in the order given.
pub open spec fn query_of(ps: Seq<(Seq<char>, Seq<char>)>) -> Seq<char>
    decreases ps.len(),
{
    if ps.len() == 0 {
        Seq::empty()
    } else if ps.len() == 1 {
        encoded_pair(ps[0])
    } else {
        query_of(ps.drop_last()) + seq!['&'] + encoded_pair(ps.last())
    }
}

/// Whether no key occurs twice among the pairs.
pub open spec fn distinct_keys(s: Seq<(Seq<char>, Seq<char>)>) -> bool {
    forall|i: int, j: int| 0 <= i < s.len() && 0 <= j < s.len() && i != j ==> s[i].0 != s[j].0
}

proof fn lemma_bytes_lt_transitive(a: Seq<u8>, b: Seq<u8>, c: Seq<u8>)
    requires
        bytes_lt(a, b),
        bytes_lt(b, c),
    ensures
        bytes_lt(a, c),
    decreases a.len(),
{
    if a.len() > 0 && b.len() > 0 && c.len() > 0 && a[0] == b[0] && b[0] == c[0] {
        lemma_bytes_lt_transitive(a.drop_first(), b.drop_first(), c.drop_first());
    }
}

proof fn lemma_bytes_lt_total(a: Seq<u8>, b: Seq<u8>)
    requires
        a != b,
    ensures
        bytes_lt(a, b) || bytes_lt(b, a),
    decreases a.len(),
{
    if a.len() == 0 || b.len() == 0 {
        if a.len() == 0 && b.len() == 0 {
            assert(a =~= b);
        }
    } else if a[0] == b[0] {
        if a.drop_first() == b.drop_first() {
            assert(a =~= seq![a[0]] + a.drop_first());
            assert(b =~= seq![b[0]] + b.drop_first());
        }
        lemma_bytes_lt_total(a.drop_first(), b.drop_first());
    }
}

proof fn lemma_key_lt_total(a: Seq<char>, b: Seq<char>)
    requires
        a != b,
    ensures
        key_lt(a, b) || key_lt(b, a),
{
    vstd::utf8::encode_utf8_decode_utf8(a);
    vstd::utf8::encode_utf8_decode_utf8(b);
    lemma_bytes_lt_total(encode_utf8(a), encode_utf8(b));
}

proof fn lemma_strictly_sorted(t: Seq<(Seq<char>, Seq<char>)>, i: int, j: int)
    requires
        keys_sorted(t),
        distinct_keys(t),
        0 <= i < j < t.len(),
    ensures
        key_lt(t[i].0, t[j].0),
    decreases j - i,
{
    assert(!key_lt(t[j].0, t[j - 1].0));
    lemma_key_lt_total(t[j - 1].0, t[j].0);
    if i < j - 1 {
        lemma_strictly_sorted(t, i, j - 1);
        lemma_bytes_lt_transitive(encode_utf8(t[i].0), encode_utf8(t[j - 1].0), encode_utf8(t[j].0));
    }
}

proof fn lemma_distinct_keys_permutation(a: Seq<(Seq<char>, Seq<char>)>, b: Seq<(Seq<char>, Seq<char>)>)
    requires
        a.to_multiset() == b.to_multiset(),
        distinct_keys(a),
    ensures
        distinct_keys(b),
{
    broadcast use vstd::seq_lib::group_to_multiset_ensures;
    assert(a.no_duplicates());
    a.lemma_multiset_has_no_duplicates();
    b.lemma_multiset_has_no_duplicates_conv();
    assert forall|i: int, j: int| 0 <= i < b.len() && 0 <= j < b.len() && i != j implies b[i].0 != b[j].0 by {
        assert(b.to_multiset().count(b[i]) > 0);
        assert(b.to_multiset().count(b[j]) > 0);
        assert(a.contains(b[i]));
        assert(a.contains(b[j]));
        let k = choose|k: int| 0 <= k < a.len() && a[k] == b[i];
        let m = choose|m: int| 0 <= m < a.len() && a[m] == b[j];
        assert(b[i] != b[j]);
    }
}

proof fn lemma_sorted_unique(t1: Seq<(Seq<char>, Seq<char>)>, t2: Seq<(Seq<char>, Seq<char>)>)
    requires
        keys_sorted(t1),
        keys_sorted(t2),
        distinct_keys(t1),
        distinct_keys(t2),
        t1.to_multiset() == t2.to_multiset(),
    ensures
        t1 == t2,
    decreases t1.len(),
{
    broadcast use vstd::seq_lib::group_to_multiset_ensures;
    if t1.len() == 0 {
        assert(t2.to_multiset().len() == 0);
        assert(t2 =~= t1);
    } else {
        assert(t1.to_multiset().count(t1[0]) > 0);
        assert(t2.contains(t1[0]));
        let k = choose|k: int| 0 <= k < t2.len() && t2[k] == t1[0];
        assert(t2.len() > 0);
        assert(t2.to_multiset().count(t2[0]) > 0);
        assert(t1.contains(t2[0]));
        let m = choose|m: int| 0 <= m < t1.len() && t1[m] == t2[0];
        if k > 0 {
            lemma_strictly_sorted(t2, 0, k);
            if m > 0 {
                lemma_strictly_sorted(t1, 0, m);
                lemma_bytes_lt_asymmetric(encode_utf8(t1[0].0), encode_utf8(t2[0].0));
            }
        }
        assert(t1[0] == t2[0]);
        let r1 = t1.drop_first();
        let r2 = t2.drop_first();
        assert(t1 =~= r1.insert(0, t1[0]));
        assert(t2 =~= r2.insert(0, t2[0]));
        assert(r1.to_multiset() =~= r2.to_multiset()) by {
            assert(t1.to_multiset() == r1.to_multiset().insert(t1[0]));
            assert(t2.to_multiset() == r2.to_multiset().insert(t1[0]));
            broadcast use vstd::multiset::group_multiset_axioms;
            assert forall|x| r1.to_multiset().count(x) == r2.to_multiset().count(x) by {
                assert(t1.to_multiset().count(x) == t2.to_multiset().count(x));
                vstd::multiset::lemma_insert_increases_count_by_1(r1.to_multiset(), t1[0]);
                vstd::multiset::lemma_insert_increases_count_by_1(r2.to_multiset(), t1[0]);
                if x != t1[0] {
                    vstd::multiset::lemma_insert_other_elements_unchanged(r1.to_multiset(), t1[0], x);
                    vstd::multiset::lemma_insert_other_elements_unchanged(r2.to_multiset(), t1[0], x);
                }
            }
        }
        assert forall|i: int| 1 <= i < r1.len() implies !key_lt(#[trigger] r1[i].0, r1[i - 1].0) by {
            assert(r1[i] == t1[i + 1] && r1[i - 1] == t1[i]);
        }
        assert forall|i: int| 1 <= i < r2.len() implies !key_lt(#[trigger] r2[i].0, r2[i - 1].0) by {
            assert(r2[i] == t2[i + 1] && r2[i - 1] == t2[i]);
        }
        lemma_sorted_unique(r1, r2);
        assert(t1 =~= t2);
    }
}

/// The canonical string does not depend on the order in which the pairs were
/// produced: any rearrangement of pairs whose keys are all different gives
/// the same canonical string.
pub proof fn lemma_canonical_order_independent(s1: Seq<(Seq<char>, Seq<char>)>, s2: Seq<(Seq<char>, Seq<char>)>)
    requires
        s1.to_multiset() == s2.to_multiset(),
        distinct_keys(s1),
    ensures
        canonical_query(s1) == canonical_query(s2),
{
    lemma_canonical_order(s1);
    lemma_canonical_order(s2);
    lemma_distinct_keys_permutation(s1, sort_pairs(s1));
    lemma_distinct_keys_permutation(s1, sort_pairs(s2));
    lemma_sorted_unique(sort_pairs(s1), sort_pairs(s2));
}

/// Whether two pair sequences are the same but for the value at position `p`
/// (the key there is the same too).
pub open spec fn differ_only_at(t1: Seq<(Seq<char>, Seq<char>)>, t2: Seq<(Seq<char>, Seq<char>)>, p: int) -> bool {
    &&& t1.len() == t2.len()
    &&& 0 <= p < t1.len()
    &&& t1[p].0 == t2[p].0
    &&& forall|k: int| 0 <= k < t1.len() && k != p ==> t1[k] == t2[k]
}

proof fn lemma_insert_two_values(x1: (Seq<char>, Seq<char>), x2: (Seq<char>, Seq<char>), t: Seq<(Seq<char>, Seq<char>)>) -> (p: int)
    requires
        x1.0 == x2.0,
    ensures
        differ_only_at(insert_sorted(x1, t), insert_sorted(x2, t), p),
        insert_sorted(x1, t)[p] == x1,
        insert_sorted(x2, t)[p] == x2,
    decreases t.len(),
{
    if t.len() == 0 || key_lt(x1.0, t[0].0) {
        0
    } else {
        let q = lemma_insert_two_values(x1, x2, t.drop_first());
        let r1 = insert_sorted(x1, t);
        let r2 = insert_sorted(x2, t);
        assert forall|k: int| 0 <= k < r1.len() && k != q + 1 implies r1[k] == r2[k] by {
            if k > 0 {
                assert(r1[k] == insert_sorted(x1, t.drop_first())[k - 1]);
                assert(r2[k] == insert_sorted(x2, t.drop_first())[k - 1]);
            }
        }
        q + 1
    }
}

proof fn lemma_insert_into_two(y: (Seq<char>, Seq<char>), t1: Seq<(Seq<char>, Seq<char>)>, t2: Seq<(Seq<char>, Seq<char>)>, p: int) -> (q: int)
    requires
        differ_only_at(t1, t2, p),
    ensures
        differ_only_at(insert_sorted(y, t1), insert_sorted(y, t2), q),
        insert_sorted(y, t1)[q] == t1[p],
        insert_sorted(y, t2)[q] == t2[p],
    decreases t1.len(),
{
    assert(t1[0].0 == t2[0].0);
    let r1 = insert_sorted(y, t1);
    let r2 = insert_sorted(y, t2);
    if key_lt(y.0, t1[0].0) {
        assert forall|k: int| 0 <= k < r1.len() && k != p + 1 implies r1[k] == r2[k] by {
            if k > 0 {
                assert(r1[k] == t1[k - 1] && r2[k] == t2[k - 1]);
            }
        }
        p + 1
    } else if p == 0 {
        assert(t1.drop_first() =~= t2.drop_first());
        assert forall|k: int| 0 <= k < r1.len() && k != 0 implies r1[k] == r2[k] by {
            assert(r1[k] == insert_sorted(y, t1.drop_first())[k - 1]);
            assert(r2[k] == insert_sorted(y, t2.drop_first())[k - 1]);
        }
        0
    } else {
        let u1 = t1.drop_first();
        let u2 = t2.drop_first();
        assert forall|k: int| 0 <= k < u1.len() && k != p - 1 implies u1[k] == u2[k] by {
            assert(u1[k] == t1[k + 1] && u2[k] == t2[k + 1]);
        }
        let q = lemma_insert_into_two(y, u1, u2, p - 1);
        assert forall|k: int| 0 <= k < r1.len() && k != q + 1 implies r1[k] == r2[k] by {
            if k > 0 {
                assert(r1[k] == insert_sorted(y, u1)[k - 1]);
                assert(r2[k] == insert_sorted(y, u2)[k - 1]);
            }
        }
        q + 1
    }
}

proof fn lemma_sort_two(s1: Seq<(Seq<char>, Seq<char>)>, s2: Seq<(Seq<char>, Seq<char>)>, j: int) -> (p: int)
    requires
        differ_only_at(s1, s2, j),
    ensures
        differ_only_at(sort_pairs(s1), sort_pairs(s2), p),
        sort_pairs(s1)[p] == s1[j],
        sort_pairs(s2)[p] == s2[j],
    decreases s1.len(),
{
    let n = s1.len() - 1;
    if j == n {
        assert(s1.drop_last() =~= s2.drop_last());
        lemma_insert_two_values(s1.last(), s2.last(), sort_pairs(s1.drop_last()))
    } else {
        let d1 = s1.drop_last();
        let d2 = s2.drop_last();
        assert forall|k: int| 0 <= k < d1.len() && k != j implies d1[k] == d2[k] by {
            assert(d1[k] == s1[k] && d2[k] == s2[k]);
        }
        let q = lemma_sort_two(d1, d2, j);
        assert(s1.last() == s2.last());
        lemma_insert_into_two(s1.last(), sort_pairs(d1), sort_pairs(d2), q)
    }
}

proof fn lemma_prefix_cancel(a: Seq<char>, x: Seq<char>, y: Seq<char>)
    requires
        a + x == a + y,
    ensures
        x == y,
{
    assert(x =~= (a + x).skip(a.len() as int));
    assert(y =~= (a + y).skip(a.len() as int));
}

proof fn lemma_suffix_cancel(x: Seq<char>, y: Seq<char>, b: Seq<char>)
    requires
        x + b == y + b,
    ensures
        x == y,
{
    assert((x + b).len() == x.len() + b.len());
    assert((y + b).len() == y.len() + b.len());
    assert(x.len() == y.len());
    assert(x =~= (x + b).subrange(0, x.len() as int));
    assert(y =~= (y + b).subrange(0, y.len() as int));
}

proof fn lemma_query_differs(t1: Seq<(Seq<char>, Seq<char>)>, t2: Seq<(Seq<char>, Seq<char>)>, p: int)
    requires
        differ_only_at(t1, t2, p),
        t1[p].1 != t2[p].1,
    ensures
        query_of(t1) != query_of(t2),
    decreases t1.len(),
{
    let n = t1.len() - 1;
    if p == n {
        let e1 = encoded_pair(t1[p]);
        let e2 = encoded_pair(t2[p]);
        let k = url_encoded(t1[p].0) + seq!['='];
        assert(e1 =~= k + url_encoded(t1[p].1));
        assert(e2 =~= k + url_encoded(t2[p].1));
        if e1 == e2 {
            lemma_prefix_cancel(k, url_encoded(t1[p].1), url_encoded(t2[p].1));
            lemma_url_encoded_injective(t1[p].1, t2[p].1);
        }
        if n > 0 {
            assert(t1.drop_last() =~= t2.drop_last());
            let a = query_of(t1.drop_last()) + seq!['&'];
            assert(query_of(t1) =~= a + e1);
            assert(query_of(t2) =~= a + e2);
            if query_of(t1) == query_of(t2) {
                lemma_prefix_cancel(a, e1, e2);
            }
        }
    } else {
        let d1 = t1.drop_last();
        let d2 = t2.drop_last();
        assert forall|k: int| 0 <= k < d1.len() && k != p implies d1[k] == d2[k] by {
            assert(d1[k] == t1[k] && d2[k] == t2[k]);
        }
        lemma_query_differs(d1, d2, p);
        assert(t1.last() == t2.last());
        let b = seq!['&'] + encoded_pair(t1.last());
        assert(query_of(t1) =~= query_of(d1) + b);
        assert(query_of(t2) =~= query_of(d2) + b);
        if query_of(t1) == query_of(t2) {
            lemma_suffix_cancel(query_of(d1), query_of(d2), b);
        }
    }
}

/// Changing the value of a single pair changes the canonical string, and so
/// the text that is signed. (That the signature then changes too rests on
/// HMAC-SHA256, which no proof here covers.)
pub proof fn lemma_changed_value_changes_signed_text(
    s1: Seq<(Seq<char>, Seq<char>)>,
    s2: Seq<(Seq<char>, Seq<char>)>,
    j: int,
    host: Seq<char>,
    path: Seq<char>,
)
    requires
        s1.len() == s2.len(),
        0 <= j < s1.len(),
        s1[j].0 == s2[j].0,
        s1[j].1 != s2[j].1,
        forall|k: int| 0 <= k < s1.len() && k != j ==> s1[k] == s2[k],
    ensures
        canonical_query(s1) != canonical_query(s2),
        string_to_sign(host, path, canonical_query(s1)) != string_to_sign(host, path, canonical_query(s2)),
{
    let p = lemma_sort_two(s1, s2, j);
    lemma_query_differs(sort_pairs(s1), sort_pairs(s2), p);
    let a = "POST"@ + seq!['\n'] + host + seq!['\n'] + path + seq!['\n'];
    assert(string_to_sign(host, path, canonical_query(s1)) =~= a + canonical_query(s1));
    assert(string_to_sign(host, path, canonical_query(s2)) =~= a + canonical_query(s2));
    if string_to_sign(host, path, canonical_query(s1)) == string_to_sign(host, path, canonical_query(s2)) {
        lemma_prefix_cancel(a, canonical_query(s1), canonical_query(s2));
    }
}

/// The canonical string of a set of pairs: sorted by key, then encoded.
pub open spec fn canonical_query(ps: Seq<(Seq<char>, Seq<char>)>) -> Seq<char> {
    query_of(sort_pairs(ps))
}

/// The text that is signed: method, host, path and canonical string, one per line.
pub open spec fn string_to_sign(host: Seq<char>, path: Seq<char>, query: Seq<char>) -> Seq<char> {
    "POST"@ + seq!['\n'] + host + seq!['\n'] + path + seq!['\n'] + query
}

/// The signature of a text under a secret key: base64 of its HMAC-SHA256 tag.
pub open spec fn signature_of(secret: Seq<char>, text: Seq<char>) -> Seq<char> {
    base64_of(hmac_sha256_of(encode_utf8(secret), encode_utf8(text)))
}

fn hex_digit(n: u8) -> (c: char)
    requires
        n < 16,
    ensures
        c == hex_char(n as nat),
{
    if n == 0 { '0' } else if n == 1 { '1' } else if n == 2 { '2' } else if n == 3 { '3' }
    else if n == 4 { '4' } else if n == 5 { '5' } else if n == 6 { '6' } else if n == 7 { '7' }
    else if n == 8 { '8' } else if n == 9 { '9' } else if n == 10 { 'A' } else if n == 11 { 'B' }
    else if n == 12 { 'C' } else if n == 13 { 'D' } else if n == 14 { 'E' } else { 'F' }
}

/// Appends the strict percent-encoding of `s`.
pub fn push_url_encoded(out: &mut String, s: &str)
    ensures
        final(out)@ == old(out)@ + url_encoded(s@),
{
    let bytes = s.as_bytes();
    let mut i: usize = 0;
    while i < bytes.len()
        invariant
            bytes@ == encode_utf8(s@),
            i <= bytes@.len(),
            out@ == old(out)@ + percent_bytes(bytes@.subrange(0, i as int)),
        decreases bytes.len() - i,
    {
        let b = bytes[i];
        assert(bytes@.subrange(0, i + 1).drop_last() =~= bytes@.subrange(0, i as int));
        let unres = (65 <= b && b <= 90) || (97 <= b && b <= 122) || (48 <= b && b <= 57) || b == 45 || b == 95 || b == 46 || b == 126;
        if unres {
            push_char(out, b as char);
        } else {
            push_char(out, '%');
            push_char(out, hex_digit(b / 16));
            push_char(out, hex_digit(b % 16));
        }
        i = i + 1;
        assert(out@ =~= old(out)@ + percent_bytes(bytes@.subrange(0, i as int)));
    }
    assert(bytes@.subrange(0, i as int) =~= bytes@);
}

/// The strict percent-encoding of `s`.
pub fn url_encode(s: &str) -> (r: String)
    ensures
        r@ == url_encoded(s@),
{
    let mut out = String::new();
    push_url_encoded(&mut out, s);
    assert(out@ =~= url_encoded(s@));
    out
}

proof fn lemma_bytes_lt_step(a: Seq<u8>, b: Seq<u8>, i: int)
    requires
        0 <= i < a.len(),
        i < b.len(),
        a[i] == b[i],
    ensures
        bytes_lt(a.skip(i), b.skip(i)) == bytes_lt(a.skip(i + 1), b.skip(i + 1)),
{
    assert(a.skip(i).drop_first() =~= a.skip(i + 1));
    assert(b.skip(i).drop_first() =~= b.skip(i + 1));
}

/// Whether key `a` comes strictly before key `b` in byte-wise order.
pub fn key_less(a: &str, b: &str) -> (r: bool)
    ensures
        r == key_lt(a@, b@),
{
    let x = a.as_bytes();
    let y = b.as_bytes();
    let mut i: usize = 0;
    assert(x@.skip(0) =~= x@);
    assert(y@.skip(0) =~= y@);
    while i < x.len() && i < y.len()
        invariant
            x@ == encode_utf8(a@),
            y@ == encode_utf8(b@),
            i <= x@.len(),
            i <= y@.len(),
            key_lt(a@, b@) == bytes_lt(x@.skip(i as int), y@.skip(i as int)),
        decreases x.len() - i,
    {
        if x[i] != y[i] {
            return x[i] < y[i];
        }
        proof {
            lemma_bytes_lt_step(x@, y@, i as int);
        }
        i = i + 1;
    }
    i < y.len()
}

proof fn lemma_insert_at(x: (Seq<char>, Seq<char>), s: Seq<(Seq<char>, Seq<char>)>, p: int)
    requires
        0 <= p <= s.len(),
        forall|k: int| 0 <= k < p ==> !key_lt(x.0, #[trigger] s[k].0),
        p < s.len() ==> key_lt(x.0, s[p].0),
    ensures
        insert_sorted(x, s) == s.insert(p, x),
    decreases s.len(),
{
    if s.len() == 0 {
        assert(s.insert(p, x) =~= seq![x]);
    } else if p == 0 {
        assert(s.insert(p, x) =~= seq![x] + s);
    } else {
        assert(!key_lt(x.0, s[0].0));
        let t = s.drop_first();
        assert forall|k: int| 0 <= k < p - 1 implies !key_lt(x.0, #[trigger] t[k].0) by {
            assert(t[k] == s[k + 1]);
        }
        lemma_insert_at(x, t, p - 1);
        assert(s.insert(p, x) =~= seq![s[0]] + t.insert(p - 1, x));
    }
}

/// The pairs in byte-wise order of their keys, pairs with equal keys in the
/// order given.
pub fn sort_by_key(pairs: Vec<(String, String)>) -> (r: Vec<(String, String)>)
    ensures
        pairs_view(r@) == sort_pairs(pairs_view(pairs@)),
{
    let mut sorted: Vec<(String, String)> = Vec::new();
    let mut i: usize = 0;
    while i < pairs.len()
        invariant
            i <= pairs@.len(),
            pairs_view(sorted@) == sort_pairs(pairs_view(pairs@.subrange(0, i as int))),
        decreases pairs.len() - i,
    {
        let ghost before = pairs_view(sorted@);
        let ghost x = (pairs@[i as int].0@, pairs@[i as int].1@);
        let mut p: usize = 0;
        while p < sorted.len()
            invariant
                p <= sorted@.len(),
                before == pairs_view(sorted@),
                x == (pairs@[i as int].0@, pairs@[i as int].1@),
                i < pairs@.len(),
                forall|k: int| 0 <= k < p ==> !key_lt(x.0, #[trigger] before[k].0),
            ensures
                p <= sorted@.len(),
                forall|k: int| 0 <= k < p ==> !key_lt(x.0, #[trigger] before[k].0),
                p < sorted@.len() ==> key_lt(x.0, before[p as int].0),
            decreases sorted.len() - p,
        {
            if key_less(pairs[i].0.as_str(), sorted[p].0.as_str()) {
                break;
            }
            p = p + 1;
        }
        proof {
            lemma_insert_at(x, before, p as int);
            assert(pairs_view(pairs@.subrange(0, i + 1)).drop_last() =~= pairs_view(pairs@.subrange(0, i as int)));
            assert(pairs_view(pairs@.subrange(0, i + 1)).last() == x);
        }
        sorted.insert(p, (pairs[i].0.clone(), pairs[i].1.clone()));
        assert(pairs_view(sorted@) =~= before.insert(p as int, x));
        i = i + 1;
    }
    assert(pairs@.subrange(0, i as int) =~= pairs@);
    sorted
}

/// The encoded pairs joined by `&`, in the order given.
pub fn join_query(pairs: &Vec<(String, String)>) -> (r: String)
    ensures
        r@ == query_of(pairs_view(pairs@)),
{
    let mut out = String::new();
    let mut i: usize = 0;
    while i < pairs.len()
        invariant
            i <= pairs@.len(),
            out@ == query_of(pairs_view(pairs@.subrange(0, i as int))),
        decreases pairs.len() - i,
    {
        let ghost prev = out@;
        if i > 0 {
            push_char(&mut out, '&');
        }
        push_url_encoded(&mut out, pairs[i].0.as_str());
        push_char(&mut out, '=');
        push_url_encoded(&mut out, pairs[i].1.as_str());
        proof {
            let ps = pairs_view(pairs@.subrange(0, i + 1));
            assert(ps.drop_last() =~= pairs_view(pairs@.subrange(0, i as int)));
            assert(ps.last() == (pairs@[i as int].0@, pairs@[i as int].1@));
            if i == 0 {
                assert(out@ =~= encoded_pair(ps[0]));
            } else {
                assert(out@ =~= prev + seq!['&'] + encoded_pair(ps.last()));
            }
        }
        i = i + 1;
    }
    assert(pairs@.subrange(0, i as int) =~= pairs@);
    out
}

/// The text that is signed for a request to `host` and `path` with the given
/// canonical string.
pub fn build_string_to_sign(host: &str, path: &str, query: &str) -> (r: String)
    ensures
        r@ == string_to_sign(host@, path@, query@),
{
    let mut out = String::new();
    push_str(&mut out, "POST");
    push_char(&mut out, '\n');
    push_str(&mut out, host);
    push_char(&mut out, '\n');
    push_str(&mut out, path);
    push_char(&mut out, '\n');
    push_str(&mut out, query);
    assert(out@ =~= string_to_sign(host@, path@, query@));
    out
}

/// The signature of `text` under `secret`: base64 of the HMAC-SHA256 tag.
pub fn sign_text(secret: &str, text: &str) -> (r: String)
    ensures
        r@ == signature_of(secret@, text@),
{
    let tag = hmac_sha256(secret.as_bytes(), text.as_bytes());
    base64_encode(tag.as_slice())
}

} // verus!
