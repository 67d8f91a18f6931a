//! The type model: a parameter is a tagged value carrying its canonical ABI
//! type name, its static/dynamic classification, and its encoded bytes.
//! Static parameters occupy exactly one 32-byte head slot; dynamic parameters
//! carry a tail payload of any length.
use vstd::prelude::*;
use crate::words::{be_word, encode_word, int_word, pad_to_word, zero_padded};

verus! {

/// The mathematical content of a parameter.
#[verifier::ext_equal]
pub struct ParamModel {
    /// Canonical ABI spelling of the type, e.g. `uint256` or `bytes`.
    pub ty_name: Seq<char>,
    /// Whether the encoding is variable-length and goes to the tail section.
    pub dynamic: bool,
    /// The head-slot word of a static parameter, or the tail payload of a
    /// dynamic one.
    pub bytes: Seq<u8>,
}

impl ParamModel {
    /// A static parameter occupies exactly one 32-byte head slot.
    pub open spec fn well_formed(self) -> bool {
        !self.dynamic ==> self.bytes.len() == 32
    }
}

/// An unsigned scalar: one zero-extended big-endian word.
pub open spec fn uint_param(ty_name: Seq<char>, v: u128) -> ParamModel {
    ParamModel { ty_name, dynamic: false, bytes: be_word(0, v) }
}

/// A signed scalar: one sign-extended big-endian word.
pub open spec fn int_param(ty_name: Seq<char>, v: i128) -> ParamModel {
    ParamModel { ty_name, dynamic: false, bytes: int_word(v) }
}

/// A value already given as a whole 32-byte word.
pub open spec fn word_param(ty_name: Seq<char>, word: Seq<u8>) -> ParamModel {
    ParamModel { ty_name, dynamic: false, bytes: word }
}

/// A dynamic parameter with its tail payload.
pub open spec fn dynamic_param(ty_name: Seq<char>, payload: Seq<u8>) -> ParamModel {
    ParamModel { ty_name, dynamic: true, bytes: payload }
}

/// The tail payload of a byte sequence: a length word, then the data padded
/// with zeros to a whole number of words.
pub open spec fn bytes_payload(data: Seq<u8>) -> Seq<u8> {
    be_word(0, data.len() as u128) + zero_padded(data)
}

/// Encodes a byte sequence as its tail payload: length word, then the data
/// zero-padded to a whole number of words.
pub fn encode_bytes_payload(data: Vec<u8>) -> (r: Vec<u8>)
    ensures
        r@ == bytes_payload(data@),
{
    let ghost d = data@;
    let mut r = encode_word(0, data.len() as u128);
    let mut padded = pad_to_word(data);
    r.append(&mut padded);
    proof {
        assert(r@ =~= bytes_payload(d));
    }
    r
}

/// A 20-byte address in its 32-byte head slot: 12 zero bytes, then the
/// address.
pub open spec fn address_word(addr: Seq<u8>) -> Seq<u8> {
    Seq::new(12, |i: int| 0u8) + addr
}

/// A 24-byte function reference (address plus selector) in its 32-byte head
/// slot: the reference, then 8 zero bytes.
pub open spec fn function_word(f: Seq<u8>) -> Seq<u8> {
    f + Seq::new(8, |i: int| 0u8)
}

/// A typed parameter value, ready for layout.
pub struct Param {
    name: String,
    dynamic: bool,
    bytes: Vec<u8>,
}

impl View for Param {
    type V = ParamModel;

    closed spec fn view(&self) -> ParamModel {
        ParamModel { ty_name: self.name@, dynamic: self.dynamic, bytes: self.bytes@ }
    }
}

impl Param {
    /// A static parameter holding one 32-byte head-slot word.
    pub fn new_static(ty_name: String, word: Vec<u8>) -> (p: Param)
        requires
            word@.len() == 32,
        ensures
            p@ == word_param(ty_name@, word@),
            p@.well_formed(),
    {
        Param { name: ty_name, dynamic: false, bytes: word }
    }

    /// A dynamic parameter holding its tail payload.
    pub fn new_dynamic(ty_name: String, payload: Vec<u8>) -> (p: Param)
        ensures
            p@ == dynamic_param(ty_name@, payload@),
            p@.well_formed(),
    {
        Param { name: ty_name, dynamic: true, bytes: payload }
    }

    /// The canonical ABI spelling of the type, as used in signature text.
    pub fn ty_name(&self) -> (r: &String)
        ensures
            r@ == self@.ty_name,
    {
        &self.name
    }

    /// Whether the parameter needs a tail slot.
    pub fn is_dynamic(&self) -> (r: bool)
        ensures
            r == self@.dynamic,
    {
        self.dynamic
    }

    /// How many bytes the encoding occupies: the head-slot width of a static
    /// parameter, or the tail-payload length of a dynamic one.
    pub fn required_byte_len(&self) -> (r: usize)
        ensures
            r == self@.bytes.len(),
    {
        self.bytes.len()
    }

    /// The parameter's own encoded bytes.
    pub fn encoded_bytes(&self) -> (r: &Vec<u8>)
        ensures
            r@ == self@.bytes,
    {
        &self.bytes
    }

    /// The classification and the encoded bytes together.
    pub fn to_bytes(self) -> (r: (bool, Vec<u8>))
        ensures
            r.0 == self@.dynamic,
            r.1@ == self@.bytes,
    {
        (self.dynamic, self.bytes)
    }
}

/// An error reported when a source value cannot be converted to a domain
/// type.
#[derive(Clone, Copy, Debug, PartialEq, Eq, Structural)]
pub enum ConversionError {
    /// The source of an address was not exactly 20 bytes long.
    BadAddressLength,
    /// The source of a function reference was not exactly 24 bytes long.
    BadFunctionLength,
}

/// A validated 20-byte account address.
pub struct Address {
    bytes: Vec<u8>,
}

impl View for Address {
    type V = Seq<u8>;

    closed spec fn view(&self) -> Seq<u8> {
        self.bytes@
    }
}

impl Address {
    /// Converts an arbitrary byte slice; fails unless it is exactly 20 bytes.
    pub fn from_slice(src: &[u8]) -> (r: Result<Address, ConversionError>)
        ensures
            src@.len() == 20 <==> r is Ok,
            r matches Ok(a) ==> a@ == src@,
            r matches Err(e) ==> e == ConversionError::BadAddressLength,
    {
        if src.len() == 20 {
            Ok(Address { bytes: vstd::slice::slice_to_vec(src) })
        } else {
            Err(ConversionError::BadAddressLength)
        }
    }

    /// The 20 address bytes.
    pub fn bytes(&self) -> (r: &Vec<u8>)
        ensures
            r@ == self@,
    {
        &self.bytes
    }
}

/// A validated 24-byte function reference: a 20-byte address followed by a
/// 4-byte selector.
pub struct Function {
    bytes: Vec<u8>,
}

impl View for Function {
    type V = Seq<u8>;

    closed spec fn view(&self) -> Seq<u8> {
        self.bytes@
    }
}

impl Function {
    /// Converts an arbitrary byte slice; fails unless it is exactly 24 bytes.
    pub fn from_slice(src: &[u8]) -> (r: Result<Function, ConversionError>)
        ensures
            src@.len() == 24 <==> r is Ok,
            r matches Ok(f) ==> f@ == src@,
            r matches Err(e) ==> e == ConversionError::BadFunctionLength,
    {
        if src.len() == 24 {
            Ok(Function { bytes: vstd::slice::slice_to_vec(src) })
        } else {
            Err(ConversionError::BadFunctionLength)
        }
    }

    /// The 24 reference bytes.
    pub fn bytes(&self) -> (r: &Vec<u8>)
        ensures
            r@ == self@,
    {
        &self.bytes
    }
}

} // verus!
