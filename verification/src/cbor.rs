//! The CBOR maps that carry command arguments to the device.

use ciborium::Value;
use vstd::prelude::*;
use vstd::utf8::*;

verus! {

/// The value of one command argument.
#[derive(Clone, Copy, Debug)]
pub enum FieldValue<'a> {
    /// A non-negative number
    Unsigned(u64),
    /// A boolean
    Flag(bool),
    /// A text string
    Text(&'a str),
    /// A byte string
    Bytes(&'a [u8]),
    /// A list of text strings
    TextList(&'a [String]),
}

/// One named command argument.
#[derive(Clone, Copy, Debug)]
pub struct Field<'a> {
    /// The name of the argument
    pub key: &'a str,
    /// The value of the argument
    pub value: FieldValue<'a>,
}

/// The mathematical value of a command argument.
pub enum Item {
    Unsigned(u64),
    Flag(bool),
    Text(Seq<char>),
    Bytes(Seq<u8>),
    TextList(Seq<Seq<char>>),
}

impl<'a> View for FieldValue<'a> {
    type V = Item;

    open spec fn view(&self) -> Item {
        match *self {
            FieldValue::Unsigned(n) => Item::Unsigned(n),
            FieldValue::Flag(b) => Item::Flag(b),
            FieldValue::Text(s) => Item::Text(s@),
            FieldValue::Bytes(b) => Item::Bytes(b@),
            FieldValue::TextList(l) => Item::TextList(l@.map_values(|s: String| s@)),
        }
    }
}

impl<'a> View for Field<'a> {
    type V = (Seq<char>, Item);

    open spec fn view(&self) -> (Seq<char>, Item) {
        (self.key@, self.value@)
    }
}

/// The named arguments that a list of fields stands for, in order.
pub open spec fn entries(fields: Seq<Field<'_>>) -> Seq<(Seq<char>, Item)> {
    fields.map_values(|f: Field<'_>| f@)
}

/// Adds an argument.
pub fn put<'a>(fields: &mut Vec<Field<'a>>, key: &'a str, value: FieldValue<'a>)
    ensures
        entries(final(fields)@) == entries(old(fields)@) + seq![(key@, value@)],
{
    fields.push(Field { key, value });
    assert(entries(fields@) =~= entries(old(fields)@) + seq![(key@, value@)]);
}

/// An argument that is only sent if it has a value.
pub open spec fn optional(key: Seq<char>, item: Option<Item>) -> Seq<(Seq<char>, Item)> {
    match item {
        Some(item) => seq![(key, item)],
        None => Seq::empty(),
    }
}

/// The value of an optional argument.
pub open spec fn optional_item(value: Option<FieldValue<'_>>) -> Option<Item> {
    match value {
        Some(value) => Some(value@),
        None => None,
    }
}

/// Adds an argument if it has a value.
pub fn put_optional<'a>(fields: &mut Vec<Field<'a>>, key: &'a str, value: Option<FieldValue<'a>>)
    ensures
        entries(final(fields)@) == entries(old(fields)@) + optional(key@, optional_item(value)),
{
    match value {
        Some(value) => put(fields, key, value),
        None => {
            assert(entries(fields@) =~= entries(old(fields)@) + optional(key@, None));
        },
    }
}

/// A number as `width` bytes, most significant byte first.
pub open spec fn big_endian(n: nat, width: nat) -> Seq<u8>
    decreases width,
{
    if width == 0 {
        Seq::empty()
    } else {
        big_endian(n / 256, (width - 1) as nat).push((n % 256) as u8)
    }
}

/// The head of a CBOR data item: its major type together with a number below `2^64`,
/// in the shortest form that holds the number.
pub open spec fn head(major: nat, n: nat) -> Seq<u8> {
    if n < 24 {
        seq![(major * 32 + n) as u8]
    } else if n < 0x100 {
        seq![(major * 32 + 24) as u8] + big_endian(n, 1)
    } else if n < 0x1_0000 {
        seq![(major * 32 + 25) as u8] + big_endian(n, 2)
    } else if n < 0x1_0000_0000 {
        seq![(major * 32 + 26) as u8] + big_endian(n, 4)
    } else {
        seq![(major * 32 + 27) as u8] + big_endian(n, 8)
    }
}

/// The encoding of a text string.
pub open spec fn text_bytes(s: Seq<char>) -> Seq<u8> {
    head(3, encode_utf8(s).len()) + encode_utf8(s)
}

/// The encodings of several text strings, one after the other.
pub open spec fn texts_bytes(l: Seq<Seq<char>>) -> Seq<u8>
    decreases l.len(),
{
    if l.len() == 0 {
        Seq::empty()
    } else {
        texts_bytes(l.drop_last()) + text_bytes(l.last())
    }
}

/// The encoding of a single value.
pub open spec fn item_bytes(item: Item) -> Seq<u8> {
    match item {
        Item::Unsigned(n) => head(0, n as nat),
        Item::Flag(b) => seq![if b { 0xf5u8 } else { 0xf4u8 }],
        Item::Text(s) => text_bytes(s),
        Item::Bytes(b) => head(2, b.len()) + b,
        Item::TextList(l) => head(4, l.len()) + texts_bytes(l),
    }
}

/// The encodings of several key and value pairs, one after the other.
pub open spec fn pairs_bytes(fields: Seq<(Seq<char>, Item)>) -> Seq<u8>
    decreases fields.len(),
{
    if fields.len() == 0 {
        Seq::empty()
    } else {
        pairs_bytes(fields.drop_last()) + text_bytes(fields.last().0) + item_bytes(fields.last().1)
    }
}

/// The encoding of a map with the given entries, in the given order.
pub open spec fn map_bytes(fields: Seq<(Seq<char>, Item)>) -> Seq<u8> {
    head(5, fields.len()) + pairs_bytes(fields)
}

/// Trusted: `ciborium::into_writer`, applied to a `ciborium::Value::Map` and a `Vec<u8>`,
/// succeeds and writes the definite-length CBOR encoding of the map: its entries in the
/// order given, each number and length in its shortest form.
#[verifier::external_body]
pub(crate) fn encode_map(fields: &Vec<Field<'_>>) -> (bytes: Vec<u8>)
    ensures
        bytes@ == map_bytes(entries(fields@)),
{
    let pair = |f: &Field<'_>| {
        let value = match f.value {
            FieldValue::Unsigned(n) => Value::from(n),
            FieldValue::Flag(b) => Value::from(b),
            FieldValue::Text(s) => Value::from(s),
            FieldValue::Bytes(b) => Value::from(b),
            FieldValue::TextList(l) => Value::Array(l.iter().map(|s| Value::from(s.as_str())).collect()),
        };
        (Value::from(f.key), value)
    };
    let mut bytes = Vec::new();
    let map = Value::Map(fields.iter().map(pair).collect());
    ciborium::into_writer(&map, &mut bytes).expect("a vector accepts every write");
    bytes
}

/// The number of bytes that the head of a data item takes.
pub open spec fn head_len(n: nat) -> nat {
    if n < 24 {
        1
    } else if n < 0x100 {
        2
    } else if n < 0x1_0000 {
        3
    } else if n < 0x1_0000_0000 {
        5
    } else {
        9
    }
}

pub proof fn lemma_big_endian_len(n: nat, width: nat)
    ensures
        big_endian(n, width).len() == width,
    decreases width,
{
    if width > 0 {
        lemma_big_endian_len(n / 256, (width - 1) as nat);
    }
}

pub proof fn lemma_head_len(major: nat, n: nat)
    ensures
        head(major, n).len() == head_len(n),
{
    lemma_big_endian_len(n, 1);
    lemma_big_endian_len(n, 2);
    lemma_big_endian_len(n, 4);
    lemma_big_endian_len(n, 8);
}

/// A plain ASCII string takes one byte for each character, after its head.
pub proof fn lemma_ascii_text_len(s: Seq<char>)
    requires
        is_ascii_chars(s),
    ensures
        text_bytes(s).len() == head_len(s.len()) + s.len(),
{
    is_ascii_chars_encode_utf8(s);
    lemma_head_len(3, s.len());
}

/// The pairs of two lists put together are encoded one list after the other.
pub proof fn lemma_pairs_concat(a: Seq<(Seq<char>, Item)>, b: Seq<(Seq<char>, Item)>)
    ensures
        pairs_bytes(a + b) == pairs_bytes(a) + pairs_bytes(b),
    decreases b.len(),
{
    if b.len() == 0 {
        assert(a + b =~= a);
        assert(pairs_bytes(a) + pairs_bytes(b) =~= pairs_bytes(a));
    } else {
        lemma_pairs_concat(a, b.drop_last());
        assert((a + b).drop_last() =~= a + b.drop_last());
        assert(pairs_bytes(a + b) =~= pairs_bytes(a) + pairs_bytes(b));
    }
}

/// The number of bytes that the encoding of an optional argument with a short ASCII key takes.
pub open spec fn optional_len(key_len: nat, item: Option<Item>) -> nat {
    match item {
        Some(item) => 1 + key_len + item_bytes(item).len(),
        None => 0,
    }
}

pub proof fn lemma_optional_len(key: Seq<char>, item: Option<Item>)
    requires
        is_ascii_chars(key),
        key.len() < 24,
    ensures
        pairs_bytes(optional(key, item)).len() == optional_len(key.len(), item),
{
    if item is Some {
        lemma_single_pair(key, item->0);
        lemma_ascii_text_len(key);
    }
}

/// A list of a single pair takes as much as its key and its value.
pub proof fn lemma_single_pair(key: Seq<char>, item: Item)
    ensures
        pairs_bytes(seq![(key, item)]) == text_bytes(key) + item_bytes(item),
{
    let one = seq![(key, item)];
    assert(one.drop_last() =~= Seq::empty());
    assert(pairs_bytes(one.drop_last()) =~= Seq::empty());
    assert(pairs_bytes(one) =~= text_bytes(key) + item_bytes(item));
}

} // verus!
