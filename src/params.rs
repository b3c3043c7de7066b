//! Canonical parameter encoding: typed request fields flattened into
//! `(key, value)` string pairs.
use vstd::prelude::*;
use crate::text::{push_char, push_str};
use crate::datetime::UtcDateTime;
use crate::client::MwsError;

verus! {

/// The value of a list of pairs.
pub open spec fn pairs_view(v: Seq<(String, String)>) -> Seq<(Seq<char>, Seq<char>)> {
    v.map_values(|p: (String, String)| (p.0@, p.1@))
}

/// The character of a decimal digit.
pub open spec fn digit_char(d: nat) -> char {
    if d == 0 { '0' } else if d == 1 { '1' } else if d == 2 { '2' } else if d == 3 { '3' }
    else if d == 4 { '4' } else if d == 5 { '5' } else if d == 6 { '6' } else if d == 7 { '7' }
    else if d == 8 { '8' } else { '9' }
}

/// The decimal digits of `n`, most significant first, without leading zeros.
pub open spec fn decimal(n: nat) -> Seq<char>
    decreases n,
{
    if n < 10 {
        seq![digit_char(n)]
    } else {
        decimal(n / 10).push(digit_char(n % 10))
    }
}

/// The decimal text of an integer, with a leading `-` when it is negative.
pub open spec fn int_text(n: int) -> Seq<char> {
    if n < 0 {
        seq!['-'] + decimal((-n) as nat)
    } else {
        decimal(n as nat)
    }
}

/// The text of a boolean as the service writes it.
pub open spec fn bool_text(b: bool) -> Seq<char> {
    if b { "true"@ } else { "false"@ }
}

/// The key of the item at position `i` (from 0) of a list field: `F.Item.<i+1>`.
pub open spec fn list_key(field: Seq<char>, item: Seq<char>, i: nat) -> Seq<char> {
    field + seq!['.'] + item + seq!['.'] + decimal(i + 1)
}

/// The pairs of a list field: one per item, numbered from 1, in order.
pub open spec fn list_pairs(field: Seq<char>, item: Seq<char>, items: Seq<Seq<char>>) -> Seq<(Seq<char>, Seq<char>)> {
    Seq::new(items.len(), |i: int| (list_key(field, item, i as nat), items[i]))
}

/// The pairs of a nested object field: each of the object's own pairs, with
/// its key put under `F.`.
pub open spec fn object_pairs(field: Seq<char>, child: Seq<(Seq<char>, Seq<char>)>) -> Seq<(Seq<char>, Seq<char>)> {
    child.map_values(|p: (Seq<char>, Seq<char>)| (field + seq!['.'] + p.0, p.1))
}

/// The pair of an optional field: none when the value is absent.
pub open spec fn optional_pair(field: Seq<char>, value: Option<Seq<char>>) -> Seq<(Seq<char>, Seq<char>)> {
    match value {
        Some(v) => seq![(field, v)],
        None => Seq::empty(),
    }
}

/// The pairs of an optional list field: none when absent or empty.
pub open spec fn optional_list_pairs(field: Seq<char>, item: Seq<char>, items: Option<Seq<Seq<char>>>) -> Seq<(Seq<char>, Seq<char>)> {
    match items {
        Some(v) => list_pairs(field, item, v),
        None => Seq::empty(),
    }
}

/// The value of an optional string.
pub open spec fn opt_view(o: Option<String>) -> Option<Seq<char>> {
    match o {
        Some(s) => Some(s@),
        None => None,
    }
}

/// The value of a list of strings.
pub open spec fn strings_view(v: Seq<String>) -> Seq<Seq<char>> {
    v.map_values(|s: String| s@)
}

/// The value of an optional list of strings.
pub open spec fn opt_strings_view(o: Option<Vec<String>>) -> Option<Seq<Seq<char>>> {
    match o {
        Some(v) => Some(strings_view(v@)),
        None => None,
    }
}

fn digit(d: u64) -> (c: char)
    requires
        d < 10,
    ensures
        c == digit_char(d as nat),
{
    if d == 0 { '0' } else if d == 1 { '1' } else if d == 2 { '2' } else if d == 3 { '3' }
    else if d == 4 { '4' } else if d == 5 { '5' } else if d == 6 { '6' } else if d == 7 { '7' }
    else if d == 8 { '8' } else { '9' }
}

/// The decimal digits of `n`.
pub fn decimal_text(n: u64) -> (r: String)
    ensures
        r@ == decimal(n as nat),
{
    let mut rest: u64 = n;
    let mut suffix: Vec<char> = Vec::new();
    while rest >= 10
        invariant
            decimal(n as nat) == decimal(rest as nat) + suffix@,
        decreases rest,
    {
        let d = digit(rest % 10);
        assert(decimal(rest as nat) == decimal((rest / 10) as nat).push(digit_char((rest % 10) as nat)));
        suffix.insert(0, d);
        assert(decimal(n as nat) =~= decimal((rest / 10) as nat) + suffix@);
        rest = rest / 10;
    }
    suffix.insert(0, digit(rest));
    assert(decimal(n as nat) =~= suffix@);
    let mut out = String::new();
    let mut i: usize = 0;
    while i < suffix.len()
        invariant
            i <= suffix@.len(),
            out@ == suffix@.subrange(0, i as int),
        decreases suffix.len() - i,
    {
        push_char(&mut out, suffix[i]);
        i = i + 1;
        assert(out@ =~= suffix@.subrange(0, i as int));
    }
    assert(suffix@.subrange(0, i as int) =~= suffix@);
    out
}

/// The decimal text of `n`, with a leading `-` when it is negative.
pub fn int_to_text(n: i64) -> (r: String)
    ensures
        r@ == int_text(n as int),
{
    if n < 0 {
        let m: u64 = if n == i64::MIN { 9223372036854775808u64 } else { (-n) as u64 };
        let digits = decimal_text(m);
        let mut out = String::new();
        push_char(&mut out, '-');
        push_str(&mut out, digits.as_str());
        assert(out@ =~= seq!['-'] + decimal(m as nat));
        out
    } else {
        decimal_text(n as u64)
    }
}

/// Appends the pair `(key, value)`.
pub fn push_param(pairs: &mut Vec<(String, String)>, key: &str, value: &str)
    ensures
        pairs_view(final(pairs)@) == pairs_view(old(pairs)@).push((key@, value@)),
{
    pairs.push((key.to_owned(), value.to_owned()));
    assert(pairs_view(pairs@) =~= pairs_view(old(pairs)@).push((key@, value@)));
}

/// Appends the pair of an optional field: nothing when the value is absent.
pub fn push_optional(pairs: &mut Vec<(String, String)>, key: &str, value: &Option<String>)
    ensures
        pairs_view(final(pairs)@) == pairs_view(old(pairs)@) + optional_pair(key@, opt_view(*value)),
{
    match value {
        Some(v) => {
            push_param(pairs, key, v.as_str());
            assert(pairs_view(pairs@) =~= pairs_view(old(pairs)@) + optional_pair(key@, opt_view(*value)));
        },
        None => {
            assert(pairs_view(pairs@) =~= pairs_view(old(pairs)@) + optional_pair(key@, opt_view(*value)));
        },
    }
}

/// Appends the pair of a boolean field, written `true` or `false`.
pub fn push_bool(pairs: &mut Vec<(String, String)>, key: &str, value: bool)
    ensures
        pairs_view(final(pairs)@) == pairs_view(old(pairs)@).push((key@, bool_text(value))),
{
    proof {
        reveal_strlit("true");
        reveal_strlit("false");
    }
    if value {
        push_param(pairs, key, "true");
    } else {
        push_param(pairs, key, "false");
    }
}

/// Appends the pair of an integer field, written in decimal.
pub fn push_int(pairs: &mut Vec<(String, String)>, key: &str, value: i64)
    ensures
        pairs_view(final(pairs)@) == pairs_view(old(pairs)@).push((key@, int_text(value as int))),
{
    let t = int_to_text(value);
    push_param(pairs, key, t.as_str());
}

/// The key of the item at position `i` (from 0) of a list field.
pub fn list_item_key(field: &str, item: &str, i: u64) -> (r: String)
    requires
        i < u64::MAX,
    ensures
        r@ == list_key(field@, item@, i as nat),
{
    let mut k = String::new();
    push_str(&mut k, field);
    push_char(&mut k, '.');
    push_str(&mut k, item);
    push_char(&mut k, '.');
    let n = decimal_text(i + 1);
    push_str(&mut k, n.as_str());
    assert(k@ =~= list_key(field@, item@, i as nat));
    k
}

/// Appends the pairs of a list field `field` whose items are tagged `item`:
/// `field.item.1`, `field.item.2`, ... in order; nothing for an empty list.
pub fn push_list(pairs: &mut Vec<(String, String)>, field: &str, item: &str, items: &Vec<String>)
    ensures
        pairs_view(final(pairs)@) == pairs_view(old(pairs)@) + list_pairs(field@, item@, strings_view(items@)),
{
    let ghost start = pairs_view(pairs@);
    let mut i: usize = 0;
    while i < items.len()
        invariant
            i <= items@.len(),
            start == pairs_view(old(pairs)@),
            pairs@.len() == start.len() + i,
            forall|k: int| 0 <= k < start.len() ==> pairs_view(pairs@)[k] == start[k],
            forall|k: int| 0 <= k < i ==> pairs_view(pairs@)[start.len() + k] == (list_key(field@, item@, k as nat), items@[k]@),
        decreases items.len() - i,
    {
        let key = list_item_key(field, item, i as u64);
        pairs.push((key, items[i].clone()));
        i = i + 1;
    }
    assert(pairs_view(pairs@) =~= start + list_pairs(field@, item@, strings_view(items@)));
}

/// Appends the pairs of an optional list field: nothing when it is absent.
pub fn push_optional_list(pairs: &mut Vec<(String, String)>, field: &str, item: &str, items: &Option<Vec<String>>)
    ensures
        pairs_view(final(pairs)@) == pairs_view(old(pairs)@) + optional_list_pairs(field@, item@, opt_strings_view(*items)),
{
    match items {
        Some(v) => push_list(pairs, field, item, v),
        None => {
            assert(pairs_view(pairs@) =~= pairs_view(old(pairs)@) + optional_list_pairs(field@, item@, opt_strings_view(*items)));
        },
    }
}

/// Appends the pairs of a nested object field `field`, given the object's own
/// pairs: each key is put under `field.`.
pub fn push_object(pairs: &mut Vec<(String, String)>, field: &str, child: &Vec<(String, String)>)
    ensures
        pairs_view(final(pairs)@) == pairs_view(old(pairs)@) + object_pairs(field@, pairs_view(child@)),
{
    let ghost start = pairs_view(pairs@);
    let mut i: usize = 0;
    while i < child.len()
        invariant
            i <= child@.len(),
            start == pairs_view(old(pairs)@),
            pairs@.len() == start.len() + i,
            forall|k: int| 0 <= k < start.len() ==> pairs_view(pairs@)[k] == start[k],
            forall|k: int| 0 <= k < i ==> pairs_view(pairs@)[start.len() + k] == (field@ + seq!['.'] + child@[k].0@, child@[k].1@),
        decreases child.len() - i,
    {
        let mut key = String::new();
        push_str(&mut key, field);
        push_char(&mut key, '.');
        push_str(&mut key, child[i].0.as_str());
        pairs.push((key, child[i].1.clone()));
        i = i + 1;
    }
    assert(pairs_view(pairs@) =~= start + object_pairs(field@, pairs_view(child@)));
}

/// The pair of an optional integer field.
pub open spec fn optional_int_pair(field: Seq<char>, value: Option<i32>) -> Seq<(Seq<char>, Seq<char>)> {
    match value {
        Some(v) => seq![(field, int_text(v as int))],
        None => Seq::empty(),
    }
}

/// The pair of an optional boolean field.
pub open spec fn optional_bool_pair(field: Seq<char>, value: Option<bool>) -> Seq<(Seq<char>, Seq<char>)> {
    match value {
        Some(v) => seq![(field, bool_text(v))],
        None => Seq::empty(),
    }
}

/// The pair of an optional date field, the date in the fixed ISO-8601 profile.
pub open spec fn optional_date_pair(field: Seq<char>, value: Option<UtcDateTime>) -> Seq<(Seq<char>, Seq<char>)> {
    match value {
        Some(v) => seq![(field, v.iso8601())],
        None => Seq::empty(),
    }
}

/// Whether an optional date can be written.
pub open spec fn date_ok(value: Option<UtcDateTime>) -> bool {
    value matches Some(v) ==> v.wf()
}

/// Appends the pair of an optional integer field.
pub fn push_optional_int(pairs: &mut Vec<(String, String)>, key: &str, value: Option<i32>)
    ensures
        pairs_view(final(pairs)@) == pairs_view(old(pairs)@) + optional_int_pair(key@, value),
{
    match value {
        Some(v) => {
            push_int(pairs, key, v as i64);
            assert(pairs_view(pairs@) =~= pairs_view(old(pairs)@) + optional_int_pair(key@, value));
        },
        None => {
            assert(pairs_view(pairs@) =~= pairs_view(old(pairs)@) + optional_int_pair(key@, value));
        },
    }
}

/// Appends the pair of an optional boolean field.
pub fn push_optional_bool(pairs: &mut Vec<(String, String)>, key: &str, value: Option<bool>)
    ensures
        pairs_view(final(pairs)@) == pairs_view(old(pairs)@) + optional_bool_pair(key@, value),
{
    match value {
        Some(v) => {
            push_bool(pairs, key, v);
            assert(pairs_view(pairs@) =~= pairs_view(old(pairs)@) + optional_bool_pair(key@, value));
        },
        None => {
            assert(pairs_view(pairs@) =~= pairs_view(old(pairs)@) + optional_bool_pair(key@, value));
        },
    }
}

/// Appends the pair of an optional date field; an encoding error naming the
/// field when the date names no instant.
pub fn push_optional_date(pairs: &mut Vec<(String, String)>, key: &str, value: &Option<UtcDateTime>) -> (r: Result<(), MwsError>)
    ensures
        r is Ok <==> date_ok(*value),
        r is Ok ==> pairs_view(final(pairs)@) == pairs_view(old(pairs)@) + optional_date_pair(key@, *value),
        r matches Err(e) ==> e is Encoding,
{
    match value {
        Some(v) => {
            if !v.is_valid() {
                return Err(MwsError::Encoding(key.to_owned()));
            }
            let t = v.to_iso8601();
            push_param(pairs, key, t.as_str());
            assert(pairs_view(pairs@) =~= pairs_view(old(pairs)@) + optional_date_pair(key@, *value));
            Ok(())
        },
        None => {
            assert(pairs_view(pairs@) =~= pairs_view(old(pairs)@) + optional_date_pair(key@, *value));
            Ok(())
        },
    }
}

} // verus!
