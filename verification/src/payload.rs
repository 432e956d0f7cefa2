//! Byte payloads that database commands carry.

use vstd::prelude::*;
use vstd::utf8::encode_utf8;
use bytes::Bytes;
use crate::text::concat3;

verus! {

/// A cheaply cloned run of bytes.
#[verifier::external_type_specification]
#[verifier::external_body]
pub struct ExBytes(bytes::Bytes);

/// The bytes that a [`Bytes`] value holds.
pub uninterp spec fn bytes_contents(b: Bytes) -> Seq<u8>;

/// The bytes that each of several [`Bytes`] values holds.
pub open spec fn all_contents(values: Seq<Bytes>) -> Seq<Seq<u8>> {
    values.map_values(|b: Bytes| bytes_contents(b))
}

/// The payload that an optional list of [`Bytes`] values stands for.
pub open spec fn payload_contents(payload: Option<Vec<Bytes>>) -> Option<Seq<Seq<u8>>> {
    match payload {
        Some(values) => Some(all_contents(values@)),
        None => None,
    }
}

/// `Bytes::clone`: the clone holds the same bytes.
pub assume_specification[ <Bytes as Clone>::clone ](b: &Bytes) -> (r: Bytes)
    ensures
        bytes_contents(r) == bytes_contents(*b),
;

/// `Bytes::from(String)`: the value holds the UTF-8 encoding of the string.
#[verifier::external_body]
pub(crate) fn bytes_from_string(s: String) -> (r: Bytes)
    ensures
        bytes_contents(r) == encode_utf8(s@),
{
    Bytes::from(s)
}

/// `Bytes::from(Vec<u8>)`: the value holds the bytes of the vector.
#[verifier::external_body]
pub(crate) fn bytes_from_vec(v: Vec<u8>) -> (r: Bytes)
    ensures
        bytes_contents(r) == v@,
{
    Bytes::from(v)
}

/// `Bytes::as_ref`: the slice holds the bytes of the value.
#[verifier::external_body]
pub(crate) fn bytes_as_slice(b: &Bytes) -> (r: &[u8])
    ensures
        r@ == bytes_contents(*b),
{
    b.as_ref()
}

/// The lower-case hexadecimal digit with value `d`.
pub open spec fn hex_digit(d: int) -> char {
    if d < 10 {
        ('0' as int + d) as char
    } else {
        ('a' as int + d - 10) as char
    }
}

/// A byte as it stands in a byte string literal.
pub open spec fn escaped_byte(b: u8) -> Seq<char> {
    if b == 0x0a {
        seq!['\\', 'n']
    } else if b == 0x0d {
        seq!['\\', 'r']
    } else if b == 0x09 {
        seq!['\\', 't']
    } else if b == 0x5c || b == 0x22 {
        seq!['\\', b as char]
    } else if b == 0x00 {
        seq!['\\', '0']
    } else if 0x20 <= b < 0x7f {
        seq![b as char]
    } else {
        seq!['\\', 'x', hex_digit(b as int / 16), hex_digit(b as int % 16)]
    }
}

/// Bytes as they stand between the quotes of a byte string literal.
pub open spec fn escaped(contents: Seq<u8>) -> Seq<char>
    decreases contents.len(),
{
    if contents.len() == 0 {
        Seq::empty()
    } else {
        escaped(contents.drop_last()) + escaped_byte(contents.last())
    }
}

/// Bytes as a byte string literal.
pub open spec fn byte_literal(contents: Seq<u8>) -> Seq<char> {
    seq!['b', '"'] + escaped(contents) + seq!['"']
}

/// `Debug` of `Bytes`: the bytes as a byte string literal, in which printable ASCII stands for
/// itself.
#[verifier::external_body]
fn bytes_debug(b: &Bytes) -> (r: String)
    ensures
        r@ == byte_literal(bytes_contents(*b)),
{
    format!("{b:?}")
}

/// Several values as byte string literals with a comma between them.
pub open spec fn listed(values: Seq<Seq<u8>>) -> Seq<char>
    decreases values.len(),
{
    if values.len() == 0 {
        Seq::empty()
    } else if values.len() == 1 {
        byte_literal(values[0])
    } else {
        listed(values.drop_last()) + ", "@ + byte_literal(values.last())
    }
}

/// The debug text of a payload.
pub open spec fn payload_text(payload: Option<Seq<Seq<u8>>>) -> Seq<char> {
    match payload {
        Some(values) => "Some(["@ + listed(values) + "])"@,
        None => "None"@,
    }
}

/// Returns the debug text of a payload.
pub(crate) fn payload_debug(payload: &Option<Vec<Bytes>>) -> (r: String)
    ensures
        r@ == payload_text(payload_contents(*payload)),
{
    let values: &Vec<Bytes> = match payload {
        Some(values) => values,
        None => {
            return "None".to_owned();
        },
    };
    let ghost all = all_contents(values@);
    let mut list = String::new();
    let mut i: usize = 0;
    assert(all.take(0) =~= Seq::empty());
    while i < values.len()
        invariant
            i <= values@.len(),
            all == all_contents(values@),
            list@ == listed(all.take(i as int)),
        decreases values@.len() - i,
    {
        let literal = bytes_debug(&values[i]);
        assert(all.take(i + 1).drop_last() =~= all.take(i as int));
        if i == 0 {
            list = literal;
        } else {
            list = concat3(&list, ", ", &literal);
        }
        i = i + 1;
    }
    assert(all.take(i as int) =~= all);
    concat3("Some([", &list, "])")
}

/// The payload of one value.
pub(crate) fn single(value: Bytes) -> (r: Vec<Bytes>)
    ensures
        all_contents(r@) == seq![bytes_contents(value)],
{
    let mut r: Vec<Bytes> = Vec::new();
    r.push(value);
    assert(all_contents(r@) =~= seq![bytes_contents(value)]);
    r
}

/// The payload of two values.
pub(crate) fn pair(first: Bytes, second: Bytes) -> (r: Vec<Bytes>)
    ensures
        all_contents(r@) == seq![bytes_contents(first), bytes_contents(second)],
{
    let mut r: Vec<Bytes> = Vec::new();
    r.push(first);
    r.push(second);
    assert(all_contents(r@) =~= seq![bytes_contents(first), bytes_contents(second)]);
    r
}

/// The text of a payload lists its values one by one, each as a byte string literal.
pub proof fn law_payload_text_lists_values(values: Seq<Seq<u8>>, value: Seq<u8>)
    ensures
        payload_text(Some(Seq::empty())) == "Some(["@ + "])"@,
        payload_text(Some(seq![value])) == "Some(["@ + byte_literal(value) + "])"@,
        values.len() > 0 ==> payload_text(Some(values.push(value))) == "Some(["@ + (listed(values)
            + ", "@ + byte_literal(value)) + "])"@,
        payload_text(None) == "None"@,
{
    assert("Some(["@ + Seq::<char>::empty() + "])"@ =~= "Some(["@ + "])"@);
    assert(values.push(value).drop_last() =~= values);
}

} // verus!
