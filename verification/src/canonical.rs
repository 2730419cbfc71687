//! The canonical encoding: a JSON text in which the keys of every object
//! stand in ascending order, sequences keep their order, enumerations are
//! written by their tag, integers in unpadded decimal, and absent optional
//! fields are left out.

use vstd::prelude::*;
use vstd::utf8::encode_utf8;
use crate::collections::{ordered_keys, views, SortedMap, SortedSet, TextKey};

verus! {

/// The decimal digits of a natural number, as ASCII bytes.
pub open spec fn digits(n: nat) -> Seq<u8>
    decreases n,
{
    if n < 10 {
        seq![(48 + n) as u8]
    } else {
        digits(n / 10).push((48 + n % 10) as u8)
    }
}

/// An integer in unpadded decimal.
pub open spec fn json_int(n: int) -> Seq<u8> {
    if n < 0 {
        seq![45u8] + digits((-n) as nat)
    } else {
        digits(n as nat)
    }
}

/// `true` or `false`.
pub open spec fn json_bool(b: bool) -> Seq<u8> {
    if b {
        seq![116u8, 114u8, 117u8, 101u8]
    } else {
        seq![102u8, 97u8, 108u8, 115u8, 101u8]
    }
}

/// The ASCII byte of a hexadecimal digit.
pub open spec fn hex_byte(nibble: u8) -> u8 {
    if nibble < 10 {
        (48 + nibble) as u8
    } else {
        (87 + nibble) as u8
    }
}

/// One byte of a text as it stands inside a JSON string: the quotation mark
/// and the backslash behind a backslash, a control byte as `\u00` and two
/// hexadecimal digits, any other byte unchanged.
pub open spec fn escape_byte(b: u8) -> Seq<u8> {
    if b == 34 {
        seq![92u8, 34u8]
    } else if b == 92 {
        seq![92u8, 92u8]
    } else if b < 32 {
        seq![92u8, 117u8, 48u8, 48u8, hex_byte(b / 16), hex_byte(b % 16)]
    } else {
        seq![b]
    }
}

/// The bytes of a text as they stand inside a JSON string.
pub open spec fn escape(bytes: Seq<u8>) -> Seq<u8>
    decreases bytes.len(),
{
    if bytes.len() == 0 {
        Seq::empty()
    } else {
        escape(bytes.drop_last()) + escape_byte(bytes.last())
    }
}

/// A text as a JSON string.
pub open spec fn json_text(text: Seq<char>) -> Seq<u8> {
    seq![34u8] + escape(encode_utf8(text)) + seq![34u8]
}

/// The items in a row, with a comma between neighbours.
pub open spec fn join(items: Seq<Seq<u8>>) -> Seq<u8>
    decreases items.len(),
{
    if items.len() == 0 {
        Seq::empty()
    } else if items.len() == 1 {
        items[0]
    } else {
        join(items.drop_last()) + seq![44u8] + items.last()
    }
}

/// A JSON array of the given items.
pub open spec fn json_array(items: Seq<Seq<u8>>) -> Seq<u8> {
    seq![91u8] + join(items) + seq![93u8]
}

/// A member of a JSON object: the name, a colon, the value.
pub open spec fn member(name: Seq<char>, value: Seq<u8>) -> Seq<u8> {
    json_text(name) + seq![58u8] + value
}

/// A JSON object of the given members.
pub open spec fn json_object(members: Seq<Seq<u8>>) -> Seq<u8> {
    seq![123u8] + join(members) + seq![125u8]
}

/// A value with a canonical encoding.
pub trait Canonical: View + Sized {
    /// The canonical encoding of what a value stands for.
    spec fn canonical(model: Self::V) -> Seq<u8>;

    /// Encodes the value.
    fn encode(&self) -> (out: Vec<u8>)
        ensures
            out@ == Self::canonical(self@),
    ;
}

/// The members of the object that encodes a mapping, for the given keys.
pub open spec fn map_members<V: Canonical>(keys: Seq<Seq<char>>, map: Map<Seq<char>, V::V>) -> Seq<Seq<u8>> {
    Seq::new(keys.len(), |i: int| member(keys[i], V::canonical(map[keys[i]])))
}

/// A mapping as a JSON object with its keys in ascending order.
pub open spec fn map_json<V: Canonical>(map: Map<Seq<char>, V::V>) -> Seq<u8> {
    json_object(map_members::<V>(ordered_keys(map.dom()), map))
}

/// A sequence as a JSON array.
pub open spec fn list_json<T: Canonical>(items: Seq<T::V>) -> Seq<u8> {
    json_array(Seq::new(items.len(), |i: int| T::canonical(items[i])))
}

/// A set of texts as a JSON array in ascending order.
pub open spec fn set_json(set: Set<Seq<char>>) -> Seq<u8> {
    json_array(Seq::new(ordered_keys(set).len(), |i: int| json_text(ordered_keys(set)[i])))
}

/// A byte string as a JSON array of numbers.
pub open spec fn bytes_json(bytes: Seq<u8>) -> Seq<u8> {
    json_array(Seq::new(bytes.len(), |i: int| json_int(bytes[i] as int)))
}

/// Appends the bytes of `more` to `out`.
pub fn append(out: &mut Vec<u8>, more: &[u8])
    ensures
        final(out)@ == old(out)@ + more@,
{
    let mut i: usize = 0;
    while i < more.len()
        invariant
            i <= more@.len(),
            out@ == old(out)@ + more@.take(i as int),
        decreases more@.len() - i,
    {
        out.push(more[i]);
        i = i + 1;
    }
}

/// The decimal digits of a number.
pub fn digits_of(n: u128) -> (out: Vec<u8>)
    ensures
        out@ == digits(n as nat),
    decreases n,
{
    if n < 10 {
        let mut out: Vec<u8> = Vec::new();
        out.push(48 + n as u8);
        out
    } else {
        let mut out = digits_of(n / 10);
        out.push(48 + (n % 10) as u8);
        out
    }
}

/// Encodes an integer.
pub fn encode_int(n: i128) -> (out: Vec<u8>)
    ensures
        out@ == json_int(n as int),
{
    if n < 0 {
        let mut out: Vec<u8> = Vec::new();
        out.push(45);
        let magnitude: u128 = (-(n + 1)) as u128 + 1;
        let rest = digits_of(magnitude);
        append(&mut out, rest.as_slice());
        out
    } else {
        digits_of(n as u128)
    }
}

/// Encodes a truth value.
pub fn encode_bool(b: bool) -> (out: Vec<u8>)
    ensures
        out@ == json_bool(b),
{
    let mut out: Vec<u8> = Vec::new();
    if b {
        out.push(116);
        out.push(114);
        out.push(117);
        out.push(101);
    } else {
        out.push(102);
        out.push(97);
        out.push(108);
        out.push(115);
        out.push(101);
    }
    out
}

/// The ASCII byte of a hexadecimal digit.
fn hex_byte_of(nibble: u8) -> (b: u8)
    requires
        nibble < 16,
    ensures
        b == hex_byte(nibble),
{
    if nibble < 10 {
        48 + nibble
    } else {
        87 + nibble
    }
}

/// Encodes a text as a JSON string.
pub fn encode_text(text: &str) -> (out: Vec<u8>)
    ensures
        out@ == json_text(text@),
{
    let bytes = text.as_bytes();
    let mut out: Vec<u8> = Vec::new();
    out.push(34);
    let mut i: usize = 0;
    while i < bytes.len()
        invariant
            i <= bytes@.len(),
            out@ == seq![34u8] + escape(bytes@.take(i as int)),
        decreases bytes@.len() - i,
    {
        let b = bytes[i];
        proof {
            assert(bytes@.take(i + 1).drop_last() =~= bytes@.take(i as int));
        }
        if b == 34 {
            out.push(92);
            out.push(34);
        } else if b == 92 {
            out.push(92);
            out.push(92);
        } else if b < 32 {
            out.push(92);
            out.push(117);
            out.push(48);
            out.push(48);
            out.push(hex_byte_of(b / 16));
            out.push(hex_byte_of(b % 16));
        } else {
            out.push(b);
        }
        i = i + 1;
    }
    assert(bytes@.take(bytes@.len() as int) =~= bytes@);
    out.push(34);
    out
}

/// Joins encoded items with commas between `open` and `close`.
fn enclose(items: &Vec<Vec<u8>>, open: u8, close: u8) -> (out: Vec<u8>)
    ensures
        out@ == seq![open] + join(views(items@)) + seq![close],
{
    let ghost parts = views(items@);
    let mut out: Vec<u8> = Vec::new();
    out.push(open);
    let mut i: usize = 0;
    while i < items.len()
        invariant
            i <= items@.len(),
            parts == views(items@),
            out@ == seq![open] + join(parts.take(i as int)),
        decreases items@.len() - i,
    {
        proof {
            assert(parts.take(i + 1).drop_last() =~= parts.take(i as int));
        }
        if i > 0 {
            out.push(44);
        }
        append(&mut out, items[i].as_slice());
        i = i + 1;
    }
    assert(parts.take(items@.len() as int) =~= parts);
    out.push(close);
    out
}

/// Encodes a JSON array of encoded items.
pub fn array_of(items: &Vec<Vec<u8>>) -> (out: Vec<u8>)
    ensures
        out@ == json_array(views(items@)),
{
    enclose(items, 91, 93)
}

/// Encodes a JSON object of encoded members.
pub fn object_of(members: &Vec<Vec<u8>>) -> (out: Vec<u8>)
    ensures
        out@ == json_object(views(members@)),
{
    enclose(members, 123, 125)
}

/// Encodes a member of a JSON object.
pub fn member_of(name: &str, value: Vec<u8>) -> (out: Vec<u8>)
    ensures
        out@ == member(name@, value@),
{
    let mut out = encode_text(name);
    out.push(58);
    append(&mut out, value.as_slice());
    out
}

/// Encodes a mapping as a JSON object with its keys in ascending order.
pub fn encode_map<K: TextKey, V: Canonical>(map: &SortedMap<K, V>) -> (out: Vec<u8>)
    ensures
        out@ == map_json::<V>(map@),
{
    let n = map.len();
    let ghost keys = ordered_keys(map@.dom());
    let mut members: Vec<Vec<u8>> = Vec::new();
    let mut i: usize = 0;
    while i < n
        invariant
            i <= n,
            n == map@.len(),
            keys == ordered_keys(map@.dom()),
            keys.len() == n,
            members@.len() == i,
            forall|j: int| 0 <= j < i ==> #[trigger] members@[j]@ == map_members::<V>(keys, map@)[j],
        decreases n - i,
    {
        let key = map.key_at(i);
        let value = map.value_at(i);
        members.push(member_of(key.as_text(), value.encode()));
        i = i + 1;
    }
    assert(views(members@) =~= map_members::<V>(keys, map@));
    object_of(&members)
}

/// Encodes a sequence as a JSON array.
pub fn encode_list<T: Canonical>(items: &Vec<T>) -> (out: Vec<u8>)
    ensures
        out@ == list_json::<T>(views(items@)),
{
    let mut encoded: Vec<Vec<u8>> = Vec::new();
    let mut i: usize = 0;
    while i < items.len()
        invariant
            i <= items@.len(),
            encoded@.len() == i,
            forall|j: int| 0 <= j < i ==> #[trigger] encoded@[j]@ == T::canonical(items@[j]@),
        decreases items@.len() - i,
    {
        encoded.push(items[i].encode());
        i = i + 1;
    }
    assert(views(encoded@) =~= Seq::new(
        views(items@).len(),
        |i: int| T::canonical(views(items@)[i]),
    ));
    array_of(&encoded)
}

/// Encodes a set of texts as a JSON array in ascending order.
pub fn encode_set<K: TextKey>(set: &SortedSet<K>) -> (out: Vec<u8>)
    ensures
        out@ == set_json(set@),
{
    let n = set.len();
    let ghost keys = ordered_keys(set@);
    let mut encoded: Vec<Vec<u8>> = Vec::new();
    let mut i: usize = 0;
    while i < n
        invariant
            i <= n,
            n == set@.len(),
            keys == ordered_keys(set@),
            keys.len() == n,
            encoded@.len() == i,
            forall|j: int| 0 <= j < i ==> #[trigger] encoded@[j]@ == json_text(keys[j]),
        decreases n - i,
    {
        encoded.push(encode_text(set.member_at(i).as_text()));
        i = i + 1;
    }
    assert(views(encoded@) =~= Seq::new(keys.len(), |i: int| json_text(keys[i])));
    array_of(&encoded)
}

/// Encodes a byte string as a JSON array of numbers.
pub fn encode_bytes(bytes: &Vec<u8>) -> (out: Vec<u8>)
    ensures
        out@ == bytes_json(bytes@),
{
    let mut encoded: Vec<Vec<u8>> = Vec::new();
    let mut i: usize = 0;
    while i < bytes.len()
        invariant
            i <= bytes@.len(),
            encoded@.len() == i,
            forall|j: int| 0 <= j < i ==> #[trigger] encoded@[j]@ == json_int(bytes@[j] as int),
        decreases bytes@.len() - i,
    {
        encoded.push(encode_int(bytes[i] as i128));
        i = i + 1;
    }
    assert(views(encoded@) =~= Seq::new(bytes@.len(), |i: int| json_int(bytes@[i] as int)));
    array_of(&encoded)
}

impl Canonical for String {
    open spec fn canonical(model: Seq<char>) -> Seq<u8> {
        json_text(model)
    }

    fn encode(&self) -> (out: Vec<u8>) {
        encode_text(self.as_str())
    }
}

} // verus!
