//! The canonical function signature `name(type1,type2,...)` and the 4-byte
//! selector taken from the Keccak-256 digest of its text.
use vstd::prelude::*;

verus! {

/// The canonical type names joined by commas, with no surrounding
/// whitespace.
pub open spec fn joined_names(tns: Seq<Seq<char>>) -> Seq<char>
    decreases tns.len(),
{
    if tns.len() == 0 {
        Seq::empty()
    } else if tns.len() == 1 {
        tns[0]
    } else {
        joined_names(tns.drop_last()) + seq![','] + tns.last()
    }
}

/// The canonical signature text of a function: its name, then the type names
/// of its parameters in order, parenthesised and comma-joined.
pub open spec fn signature_chars(name: Seq<char>, tns: Seq<Seq<char>>) -> Seq<char> {
    name + seq!['('] + joined_names(tns) + seq![')']
}

/// The Keccak-256 digest of the UTF-8 bytes of a string. The digest depends
/// on the characters alone; its 32-byte length is stated where the hash is
/// taken.
pub uninterp spec fn keccak_str(s: Seq<char>) -> Seq<u8>;

/// Byte `i` of digest `d`, zero outside its range (the digest is in fact 32
/// bytes long).
pub open spec fn digest_byte(d: Seq<u8>, i: int) -> u8 {
    if 0 <= i < d.len() {
        d[i]
    } else {
        0
    }
}

/// The 4-byte selector: the first four bytes of the Keccak-256 digest of the
/// canonical signature text.
pub open spec fn selector_spec(name: Seq<char>, tns: Seq<Seq<char>>) -> Seq<u8> {
    Seq::new(4, |i: int| digest_byte(keccak_str(signature_chars(name, tns)), i))
}

} // verus!
