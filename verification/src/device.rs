//! What a device reads from the requests that it gets.
//!
//! The payload of a request is a CBOR map. The functions here read such a map the way RFC 8949
//! describes it, without any knowledge of how the payload was made. What the client promises of
//! its requests is stated over what a device reads from them.

use crate::cbor::{
    big_endian, head, item_bytes, lemma_pairs_concat, map_bytes, pairs_bytes, text_bytes,
    texts_bytes, Item,
};
use vstd::prelude::*;
use vstd::utf8::*;

verus! {

/// The number that the first `width` bytes stand for, most significant byte first.
pub open spec fn read_number(bytes: Seq<u8>, width: nat) -> nat
    decreases width,
{
    if width == 0 {
        0
    } else {
        read_number(bytes, (width - 1) as nat) * 256 + bytes[width - 1] as nat
    }
}

/// How many bytes follow the initial byte of a data item to hold its number.
pub open spec fn number_width(initial: u8) -> Option<nat> {
    match initial % 32 {
        24 => Some(1),
        25 => Some(2),
        26 => Some(4),
        27 => Some(8),
        short => if short < 24 {
            Some(0)
        } else {
            None
        },
    }
}

/// The major type at the beginning of a data item, its number, and what follows.
pub open spec fn read_head(bytes: Seq<u8>) -> Option<(u8, nat, Seq<u8>)> {
    if bytes.len() == 0 {
        None
    } else {
        match number_width(bytes[0]) {
            Some(width) => if bytes.len() < 1 + width {
                None
            } else if width == 0 {
                Some((bytes[0] / 32, (bytes[0] % 32) as nat, bytes.skip(1)))
            } else {
                Some((bytes[0] / 32, read_number(bytes.skip(1), width), bytes.skip(1int + width)))
            },
            None => None,
        }
    }
}

/// The text at the beginning of the bytes, and what follows.
pub open spec fn read_text(bytes: Seq<u8>) -> Option<(Seq<char>, Seq<u8>)> {
    match read_head(bytes) {
        Some((3, n, rest)) => if rest.len() < n || !valid_utf8(rest.take(n as int)) {
            None
        } else {
            Some((decode_utf8(rest.take(n as int)), rest.skip(n as int)))
        },
        _ => None,
    }
}

/// The given number of texts at the beginning of the bytes, and what follows.
pub open spec fn read_texts(bytes: Seq<u8>, count: nat) -> Option<(Seq<Seq<char>>, Seq<u8>)>
    decreases count,
{
    if count == 0 {
        Some((Seq::empty(), bytes))
    } else {
        match read_text(bytes) {
            Some((text, rest)) => match read_texts(rest, (count - 1) as nat) {
                Some((texts, rest)) => Some((seq![text] + texts, rest)),
                None => None,
            },
            None => None,
        }
    }
}

/// The value at the beginning of the bytes, and what follows.
pub open spec fn read_item(bytes: Seq<u8>) -> Option<(Item, Seq<u8>)> {
    match read_head(bytes) {
        Some((0, n, rest)) => Some((Item::Unsigned(n as u64), rest)),
        Some((2, n, rest)) => if rest.len() < n {
            None
        } else {
            Some((Item::Bytes(rest.take(n as int)), rest.skip(n as int)))
        },
        Some((3, _, _)) => match read_text(bytes) {
            Some((text, rest)) => Some((Item::Text(text), rest)),
            None => None,
        },
        Some((4, n, rest)) => match read_texts(rest, n) {
            Some((texts, rest)) => Some((Item::TextList(texts), rest)),
            None => None,
        },
        Some((7, n, rest)) => if n == 20 {
            Some((Item::Flag(false), rest))
        } else if n == 21 {
            Some((Item::Flag(true), rest))
        } else {
            None
        },
        _ => None,
    }
}

/// The given number of keys with their values at the beginning of the bytes, and what follows.
pub open spec fn read_pairs(bytes: Seq<u8>, count: nat) -> Option<
    (Seq<(Seq<char>, Item)>, Seq<u8>),
>
    decreases count,
{
    if count == 0 {
        Some((Seq::empty(), bytes))
    } else {
        match read_text(bytes) {
            Some((key, rest)) => match read_item(rest) {
                Some((item, rest)) => match read_pairs(rest, (count - 1) as nat) {
                    Some((pairs, rest)) => Some((seq![(key, item)] + pairs, rest)),
                    None => None,
                },
                None => None,
            },
            None => None,
        }
    }
}

/// The named arguments that a device reads from a payload, in order.
#[verifier::opaque]
pub open spec fn arguments(payload: Seq<u8>) -> Option<Seq<(Seq<char>, Item)>> {
    match read_head(payload) {
        Some((5, n, rest)) => match read_pairs(rest, n) {
            Some((pairs, rest)) => if rest.len() == 0 {
                Some(pairs)
            } else {
                None
            },
            None => None,
        },
        _ => None,
    }
}

/// The number is small enough for the head of a data item.
pub open spec fn is_countable(n: nat) -> bool {
    n < 0x1_0000_0000_0000_0000
}

/// The length of the text is small enough for the head of a data item.
pub open spec fn is_short_text(s: Seq<char>) -> bool {
    is_countable(encode_utf8(s).len())
}

/// All lengths of the value are small enough for the head of a data item.
pub open spec fn is_short(item: Item) -> bool {
    match item {
        Item::Unsigned(_) => true,
        Item::Flag(_) => true,
        Item::Text(s) => is_short_text(s),
        Item::Bytes(b) => is_countable(b.len()),
        Item::TextList(l) => is_countable(l.len()) && forall|i: int|
            0 <= i < l.len() ==> is_short_text(#[trigger] l[i]),
    }
}

/// All lengths of the arguments are small enough for the head of a data item.
pub open spec fn are_short(fields: Seq<(Seq<char>, Item)>) -> bool {
    &&& is_countable(fields.len())
    &&& forall|i: int|
        0 <= i < fields.len() ==> is_short_text((#[trigger] fields[i]).0) && is_short(fields[i].1)
}

/// A text takes at most four bytes for each of its characters.
pub proof fn lemma_text_size(s: Seq<char>)
    ensures
        encode_utf8(s).len() <= 4 * s.len(),
    decreases s.len(),
{
    if s.len() > 0 {
        lemma_text_size(s.drop_first());
    }
}

/// A key of ordinary length is short enough.
pub proof fn lemma_short_key(key: Seq<char>)
    requires
        key.len() < 100,
    ensures
        is_short_text(key),
{
    lemma_text_size(key);
}

/// No arguments are short enough.
pub proof fn lemma_short_none()
    ensures
        are_short(Seq::empty()),
{
}

/// Arguments stay short enough if a short one is added.
pub proof fn lemma_short_push(fields: Seq<(Seq<char>, Item)>, key: Seq<char>, item: Item)
    requires
        are_short(fields),
        fields.len() < 100,
        key.len() < 100,
        is_short(item),
    ensures
        are_short(fields.push((key, item))),
{
    lemma_short_key(key);
    let longer = fields.push((key, item));
    assert forall|i: int| 0 <= i < longer.len() implies is_short_text((#[trigger] longer[i]).0)
        && is_short(longer[i].1) by {
        if i < fields.len() {
            assert(longer[i] == fields[i]);
        }
    }
}

/// Short arguments stay short enough if others are added.
pub proof fn lemma_short_concat(a: Seq<(Seq<char>, Item)>, b: Seq<(Seq<char>, Item)>)
    requires
        are_short(a),
        are_short(b),
        a.len() < 100,
        b.len() < 100,
    ensures
        are_short(a + b),
{
    let both = a + b;
    assert forall|i: int| 0 <= i < both.len() implies is_short_text((#[trigger] both[i]).0)
        && is_short(both[i].1) by {
        if i < a.len() {
            assert(both[i] == a[i]);
        } else {
            assert(both[i] == b[i - a.len()]);
        }
    }
}

/// A single argument is short enough if its value is.
pub proof fn lemma_short_single(key: Seq<char>, item: Item)
    requires
        key.len() < 100,
        is_short(item),
    ensures
        are_short(seq![(key, item)]),
{
    lemma_short_none();
    lemma_short_push(Seq::empty(), key, item);
}

spec fn limit(width: nat) -> nat
    decreases width,
{
    if width == 0 {
        1
    } else {
        256 * limit((width - 1) as nat)
    }
}

proof fn lemma_read_number(n: nat, width: nat, rest: Seq<u8>)
    requires
        n < limit(width),
    ensures
        big_endian(n, width).len() == width,
        read_number(big_endian(n, width) + rest, width) == n,
    decreases width,
{
    if width > 0 {
        let low = (n % 256) as u8;
        let shorter = big_endian(n / 256, (width - 1) as nat);
        lemma_read_number(n / 256, (width - 1) as nat, seq![low] + rest);
        assert(big_endian(n, width) + rest =~= shorter + (seq![low] + rest));
        assert((shorter + (seq![low] + rest))[width - 1] == low);
    }
}

proof fn lemma_limits()
    ensures
        limit(1) == 0x100,
        limit(2) == 0x1_0000,
        limit(4) == 0x1_0000_0000,
        limit(8) == 0x1_0000_0000_0000_0000,
{
    reveal_with_fuel(limit, 9);
}

proof fn lemma_read_head(major: nat, n: nat, rest: Seq<u8>)
    requires
        major < 8,
        is_countable(n),
    ensures
        read_head(head(major, n) + rest) == Some((major as u8, n, rest)),
{
    lemma_limits();
    let bytes = head(major, n) + rest;
    let width: nat = if n < 24 {
        0
    } else if n < 0x100 {
        1
    } else if n < 0x1_0000 {
        2
    } else if n < 0x1_0000_0000 {
        4
    } else {
        8
    };
    assert(number_width(bytes[0]) == Some(width));
    assert(bytes[0] / 32 == major);
    if width > 0 {
        lemma_read_number(n, width, rest);
        assert(bytes.skip(1) =~= big_endian(n, width) + rest);
        assert(bytes.skip(1int + width) =~= rest);
    } else {
        assert(bytes.skip(1) =~= rest);
    }
}

proof fn lemma_read_text(s: Seq<char>, rest: Seq<u8>)
    requires
        is_short_text(s),
    ensures
        read_text(text_bytes(s) + rest) == Some((s, rest)),
        read_head(text_bytes(s) + rest) matches Some((major, _, _)) && major == 3,
{
    let utf8 = encode_utf8(s);
    encode_utf8_valid_utf8(s);
    encode_utf8_decode_utf8(s);
    assert(text_bytes(s) + rest =~= head(3, utf8.len()) + (utf8 + rest));
    lemma_read_head(3, utf8.len(), utf8 + rest);
    assert((utf8 + rest).take(utf8.len() as int) =~= utf8);
    assert((utf8 + rest).skip(utf8.len() as int) =~= rest);
}

proof fn lemma_texts_concat(a: Seq<Seq<char>>, b: Seq<Seq<char>>)
    ensures
        texts_bytes(a + b) == texts_bytes(a) + texts_bytes(b),
    decreases b.len(),
{
    if b.len() == 0 {
        assert(a + b =~= a);
        assert(texts_bytes(a) + texts_bytes(b) =~= texts_bytes(a));
    } else {
        lemma_texts_concat(a, b.drop_last());
        assert((a + b).drop_last() =~= a + b.drop_last());
        assert(texts_bytes(a + b) =~= texts_bytes(a) + texts_bytes(b));
    }
}

proof fn lemma_read_texts(l: Seq<Seq<char>>, rest: Seq<u8>)
    requires
        forall|i: int| 0 <= i < l.len() ==> is_short_text(#[trigger] l[i]),
    ensures
        read_texts(texts_bytes(l) + rest, l.len()) == Some((l, rest)),
    decreases l.len(),
{
    if l.len() == 0 {
        assert(texts_bytes(l) + rest =~= rest);
        assert(l =~= Seq::empty());
    } else {
        let first = seq![l[0]];
        let others = l.drop_first();
        assert(l =~= first + others);
        lemma_texts_concat(first, others);
        assert(first.drop_last() =~= Seq::empty());
        assert(texts_bytes(first) =~= text_bytes(l[0])) by {
            reveal_with_fuel(texts_bytes, 2);
        }
        let after = texts_bytes(others) + rest;
        assert(texts_bytes(l) + rest =~= text_bytes(l[0]) + after);
        assert forall|i: int| 0 <= i < others.len() implies is_short_text(#[trigger] others[i]) by {
            assert(others[i] == l[i + 1]);
        }
        lemma_read_text(l[0], after);
        lemma_read_texts(others, rest);
    }
}

proof fn lemma_read_item(item: Item, rest: Seq<u8>)
    requires
        is_short(item),
    ensures
        read_item(item_bytes(item) + rest) == Some((item, rest)),
{
    match item {
        Item::Unsigned(n) => {
            lemma_read_head(0, n as nat, rest);
        },
        Item::Flag(b) => {
            let n: nat = if b {
                21
            } else {
                20
            };
            assert(item_bytes(item) =~= head(7, n));
            lemma_read_head(7, n, rest);
        },
        Item::Text(s) => {
            lemma_read_text(s, rest);
        },
        Item::Bytes(b) => {
            assert(item_bytes(item) + rest =~= head(2, b.len()) + (b + rest));
            lemma_read_head(2, b.len(), b + rest);
            assert((b + rest).take(b.len() as int) =~= b);
            assert((b + rest).skip(b.len() as int) =~= rest);
        },
        Item::TextList(l) => {
            let after = texts_bytes(l) + rest;
            assert(item_bytes(item) + rest =~= head(4, l.len()) + after);
            lemma_read_head(4, l.len(), after);
            lemma_read_texts(l, rest);
        },
    }
}

proof fn lemma_read_pairs(fields: Seq<(Seq<char>, Item)>, rest: Seq<u8>)
    requires
        forall|i: int|
            0 <= i < fields.len() ==> is_short_text((#[trigger] fields[i]).0) && is_short(
                fields[i].1,
            ),
    ensures
        read_pairs(pairs_bytes(fields) + rest, fields.len()) == Some((fields, rest)),
    decreases fields.len(),
{
    if fields.len() == 0 {
        assert(pairs_bytes(fields) + rest =~= rest);
        assert(fields =~= Seq::empty());
    } else {
        let first = seq![fields[0]];
        let others = fields.drop_first();
        let key = fields[0].0;
        let item = fields[0].1;
        assert(fields =~= first + others);
        lemma_pairs_concat(first, others);
        assert(first.drop_last() =~= Seq::empty());
        assert(pairs_bytes(first) =~= text_bytes(key) + item_bytes(item)) by {
            reveal_with_fuel(pairs_bytes, 2);
        }
        let after = pairs_bytes(others) + rest;
        assert(pairs_bytes(fields) + rest =~= text_bytes(key) + (item_bytes(item) + after));
        assert forall|i: int| 0 <= i < others.len() implies is_short_text(
            (#[trigger] others[i]).0,
        ) && is_short(others[i].1) by {
            assert(others[i] == fields[i + 1]);
        }
        lemma_read_text(key, item_bytes(item) + after);
        lemma_read_item(item, after);
        lemma_read_pairs(others, rest);
    }
}

/// A device reads exactly the arguments that were encoded, in the same order.
pub proof fn law_arguments_are_read_back(fields: Seq<(Seq<char>, Item)>)
    requires
        are_short(fields),
    ensures
        arguments(map_bytes(fields)) == Some(fields),
{
    reveal(arguments);
    let pairs = pairs_bytes(fields);
    lemma_read_head(5, fields.len(), pairs);
    lemma_read_pairs(fields, Seq::empty());
    assert(pairs + Seq::<u8>::empty() =~= pairs);
}

/// Different arguments never have the same payload.
pub proof fn law_payload_tells_arguments_apart(
    a: Seq<(Seq<char>, Item)>,
    b: Seq<(Seq<char>, Item)>,
)
    requires
        are_short(a),
        are_short(b),
        map_bytes(a) == map_bytes(b),
    ensures
        a == b,
{
    law_arguments_are_read_back(a);
    law_arguments_are_read_back(b);
}

/// The value of the argument with the given name, if there is one.
pub open spec fn value(read: Seq<(Seq<char>, Item)>, key: Seq<char>) -> Option<Item>
    decreases read.len(),
{
    if read.len() == 0 {
        None
    } else if read[0].0 == key {
        Some(read[0].1)
    } else {
        value(read.drop_first(), key)
    }
}

/// The value of an argument is the one behind the first occurrence of its name.
pub proof fn lemma_value(read: Seq<(Seq<char>, Item)>, key: Seq<char>, i: int)
    requires
        0 <= i < read.len(),
        read[i].0 == key,
        forall|j: int| 0 <= j < i ==> (#[trigger] read[j]).0 != key,
    ensures
        value(read, key) == Some(read[i].1),
    decreases i,
{
    if i > 0 {
        let rest = read.drop_first();
        assert forall|j: int| 0 <= j < i - 1 implies (#[trigger] rest[j]).0 != key by {
            assert(rest[j] == read[j + 1]);
        }
        lemma_value(rest, key, i - 1);
    }
}

/// An argument that does not occur has no value.
pub proof fn lemma_no_value(read: Seq<(Seq<char>, Item)>, key: Seq<char>)
    requires
        forall|j: int| 0 <= j < read.len() ==> (#[trigger] read[j]).0 != key,
    ensures
        value(read, key) is None,
    decreases read.len(),
{
    if read.len() > 0 {
        let rest = read.drop_first();
        assert forall|j: int| 0 <= j < rest.len() implies (#[trigger] rest[j]).0 != key by {
            assert(rest[j] == read[j + 1]);
        }
        lemma_no_value(rest, key);
    }
}

} // verus!
