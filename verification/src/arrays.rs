//! Single-dimension homogeneous array parameters. An array is dynamic: its
//! tail payload is a count word followed by the element words, and, for
//! dynamic elements, by the elements' own head/tail sub-layout.
use vstd::prelude::*;
use vstd::utf8::encode_utf8;
use crate::layout::{all_well_formed, body_bytes, encode_body, total_upto};
use crate::param::{Param, ParamModel, bytes_payload, dynamic_param, encode_bytes_payload};
use crate::words::{be_word, encode_int_word, encode_word, int_word};

verus! {

/// The first `i` element encodings, concatenated.
pub open spec fn concat_upto(ws: Seq<Seq<u8>>, i: int) -> Seq<u8>
    decreases i,
{
    if i <= 0 {
        Seq::empty()
    } else {
        concat_upto(ws, i - 1) + ws[i - 1]
    }
}

/// The tail payload of an array of static elements: a count word, then each
/// element's 32-byte word in order.
pub open spec fn static_array_payload(words: Seq<Seq<u8>>) -> Seq<u8> {
    be_word(0, words.len() as u128) + concat_upto(words, words.len() as int)
}

/// The payload of an array of unsigned scalars.
pub open spec fn uint_array_payload(vals: Seq<u128>) -> Seq<u8> {
    static_array_payload(vals.map_values(|v: u128| be_word(0, v)))
}

/// The payload of an array of signed scalars.
pub open spec fn int_array_payload(vals: Seq<i128>) -> Seq<u8> {
    static_array_payload(vals.map_values(|v: i128| int_word(v)))
}

/// The elements of a dynamic-element array, each as an anonymous dynamic
/// parameter of the sub-layout.
pub open spec fn dyn_elems(payloads: Seq<Seq<u8>>) -> Seq<ParamModel> {
    payloads.map_values(|p: Seq<u8>| dynamic_param(Seq::<char>::empty(), p))
}

/// The tail payload of an array of dynamic elements: a count word, then the
/// elements' own head/tail layout (one offset word per element, then the
/// payloads), offsets counted from just after the count word.
pub open spec fn dyn_array_payload(payloads: Seq<Seq<u8>>) -> Seq<u8> {
    be_word(0, payloads.len() as u128) + body_bytes(dyn_elems(payloads), 0)
}

/// The element payloads of a `string[]` parameter: each string's UTF-8
/// bytes, length-prefixed and padded.
pub open spec fn string_elem_payloads(ss: Seq<Seq<char>>) -> Seq<Seq<u8>> {
    ss.map_values(|s: Seq<char>| bytes_payload(encode_utf8(s)))
}

/// The element payloads of a `bytes[]` parameter.
pub open spec fn bytes_elem_payloads(bs: Seq<Seq<u8>>) -> Seq<Seq<u8>> {
    bs.map_values(|b: Seq<u8>| bytes_payload(b))
}

/// Whether the sub-layout of a dynamic-element array fits in a buffer the
/// machine can hold.
pub open spec fn dyn_array_fits(payloads: Seq<Seq<u8>>) -> bool {
    total_upto(dyn_elems(payloads), payloads.len() as int) <= usize::MAX
}

/// Encodes the payload of an array of unsigned scalars.
pub(crate) fn encode_uint_array_payload(vals: &Vec<u128>) -> (r: Vec<u8>)
    ensures
        r@ == uint_array_payload(vals@),
{
    let ghost ws = vals@.map_values(|v: u128| be_word(0, v));
    let mut r = encode_word(0, vals.len() as u128);
    let mut i: usize = 0;
    while i < vals.len()
        invariant
            i <= vals.len(),
            ws == vals@.map_values(|v: u128| be_word(0, v)),
            r@ == be_word(0, vals@.len() as u128) + concat_upto(ws, i as int),
        decreases vals.len() - i,
    {
        let mut w = encode_word(0, vals[i]);
        r.append(&mut w);
        i = i + 1;
        proof {
            assert(r@ =~= be_word(0, vals@.len() as u128) + concat_upto(ws, i as int));
        }
    }
    r
}

/// Encodes the payload of an array of signed scalars.
pub(crate) fn encode_int_array_payload(vals: &Vec<i128>) -> (r: Vec<u8>)
    ensures
        r@ == int_array_payload(vals@),
{
    let ghost ws = vals@.map_values(|v: i128| int_word(v));
    let mut r = encode_word(0, vals.len() as u128);
    let mut i: usize = 0;
    while i < vals.len()
        invariant
            i <= vals.len(),
            ws == vals@.map_values(|v: i128| int_word(v)),
            r@ == be_word(0, vals@.len() as u128) + concat_upto(ws, i as int),
        decreases vals.len() - i,
    {
        let mut w = encode_int_word(vals[i]);
        r.append(&mut w);
        i = i + 1;
        proof {
            assert(r@ =~= be_word(0, vals@.len() as u128) + concat_upto(ws, i as int));
        }
    }
    r
}

/// Encodes the payload of an array whose elements are raw 32-byte words.
pub(crate) fn encode_word32_array_payload(words: &Vec<[u8; 32]>) -> (r: Vec<u8>)
    ensures
        r@ == static_array_payload(words@.map_values(|w: [u8; 32]| w@)),
{
    let ghost ws = words@.map_values(|w: [u8; 32]| w@);
    let mut r = encode_word(0, words.len() as u128);
    let mut i: usize = 0;
    while i < words.len()
        invariant
            i <= words.len(),
            ws == words@.map_values(|w: [u8; 32]| w@),
            r@ == be_word(0, words@.len() as u128) + concat_upto(ws, i as int),
        decreases words.len() - i,
    {
        let wi = &words[i];
        r.extend_from_slice(wi.as_slice());
        i = i + 1;
        proof {
            assert(r@ =~= be_word(0, words@.len() as u128) + concat_upto(ws, i as int));
        }
    }
    r
}

/// Encodes the payload of an array of dynamic elements: the count word, then
/// the elements' sub-layout.
pub(crate) fn encode_dyn_array_payload(elems: Vec<Param>) -> (r: Vec<u8>)
    requires
        all_well_formed(elems@.map_values(|p: Param| p@)),
        total_upto(elems@.map_values(|p: Param| p@), elems@.len() as int) <= usize::MAX,
    ensures
        r@ == be_word(0, elems@.len() as u128) + body_bytes(
            elems@.map_values(|p: Param| p@),
            0,
        ),
{
    let mut r = encode_word(0, elems.len() as u128);
    let mut body = encode_body(&elems, 0);
    r.append(&mut body);
    r
}

} // verus!
