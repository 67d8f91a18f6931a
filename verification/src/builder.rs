//! The encoding builder: accumulates an ordered list of typed parameters and
//! an optional function name, and lays the call-data buffer out as
//! `[selector?][head slots][tail payloads]`.
use vstd::prelude::*;
use vstd::string::StringExecFns;
use vstd::string::StringSliceAdditionalSpecFns;
use vstd::utf8::encode_utf8;
use sha3::{Digest, Keccak256};
use crate::arrays::{bytes_elem_payloads, dyn_array_fits, dyn_array_payload, dyn_elems,
    encode_dyn_array_payload, encode_int_array_payload, encode_uint_array_payload,
    encode_word32_array_payload, int_array_payload, static_array_payload, string_elem_payloads,
    uint_array_payload};
use crate::layout::{
    all_well_formed,
    body_bytes,
    dyn_payload_before,
    head_upto,
    lemma_dyn_payload_before_bounds,
    lemma_head_upto_len,
    lemma_head_upto_slot,
    lemma_tail_upto_chunk,
    lemma_tail_upto_len,
    lemma_total_split,
    encode_body,
    tail_start,
    tail_upto,
    total_upto,
};
use crate::param::{Address, ConversionError, Function, Param, ParamModel, address_word,
    bytes_payload, dynamic_param, encode_bytes_payload, function_word, int_param, uint_param,
    word_param};
use crate::sig::{joined_names, keccak_str, selector_spec, signature_chars};
use crate::words::{be_word, encode_int_word, encode_word};

verus! {

/// The mathematical content of a builder: the optional function name and the
/// parameters added so far, in insertion order.
pub struct BuilderModel {
    /// The function name, if one was attached.
    pub name: Option<Seq<char>>,
    /// The accumulated parameters.
    pub params: Seq<ParamModel>,
}

impl BuilderModel {
    /// Every accumulated parameter is well formed.
    pub open spec fn wf(self) -> bool {
        all_well_formed(self.params)
    }

    /// The canonical type names of the parameters, in order.
    pub open spec fn ty_names(self) -> Seq<Seq<char>> {
        self.params.map_values(|p: ParamModel| p.ty_name)
    }
}

/// Leading bytes reserved for the selector: 4 when a name is set, else 0.
pub open spec fn name_offset(name: Option<Seq<char>>) -> int {
    if name is Some {
        4
    } else {
        0
    }
}

/// The output buffer of `build`, bit-exactly: the selector when a name is
/// set, then the head and tail image of the parameters.
pub open spec fn encoding(b: BuilderModel) -> Seq<u8> {
    match b.name {
        Some(n) => selector_spec(n, b.ty_names()) + body_bytes(b.params, 4),
        None => body_bytes(b.params, 0),
    }
}

/// The length the output buffer will have: the selector bytes plus each
/// parameter's contribution.
pub open spec fn encoded_len(b: BuilderModel) -> int {
    name_offset(b.name) + total_upto(b.params, b.params.len() as int)
}

/// Accumulates typed parameter values and an optional function name;
/// `build` consumes it and produces the encoded byte buffer.
pub struct Builder {
    name: Option<String>,
    params: Vec<Param>,
}

impl View for Builder {
    type V = BuilderModel;

    closed spec fn view(&self) -> BuilderModel {
        BuilderModel {
            name: match self.name {
                Some(n) => Some(n@),
                None => None,
            },
            params: self.params@.map_values(|p: Param| p@),
        }
    }
}

impl Builder {
    /// An empty builder: no name, no parameters.
    pub fn new() -> (r: Builder)
        ensures
            r@.name is None,
            r@.params == Seq::<ParamModel>::empty(),
            r@.wf(),
    {
        let b = Builder { name: None, params: Vec::new() };
        proof {
            assert(b@.params =~= Seq::<ParamModel>::empty());
        }
        b
    }

    /// Attaches the function name; parameters are kept as they are.
    pub fn name(self, name: String) -> (r: Builder)
        ensures
            r@.name == Some(name@),
            r@.params == self@.params,
    {
        Builder { name: Some(name), params: self.params }
    }

    /// Appends one typed parameter value.
    pub fn add(self, value: Param) -> (r: Builder)
        ensures
            r@.name == self@.name,
            r@.params == self@.params.push(value@),
    {
        let ghost old_view = self@.params;
        let mut params = self.params;
        params.push(value);
        let b = Builder { name: self.name, params };
        proof {
            assert(b@.params =~= old_view.push(value@));
        }
        b
    }

    /// How many parameters have been added so far.
    pub fn param_count(&self) -> (r: usize)
        ensures
            r == self@.params.len(),
    {
        self.params.len()
    }

    /// Appends an unsigned scalar as one zero-extended big-endian word.
    fn add_uint(self, ty: String, value: u128) -> (r: Builder)
        ensures
            r@.name == self@.name,
            r@.params == self@.params.push(uint_param(ty@, value)),
    {
        let w = encode_word(0, value);
        self.add(Param::new_static(ty, w))
    }

    /// Appends a signed scalar as one sign-extended big-endian word.
    fn add_int(self, ty: String, value: i128) -> (r: Builder)
        ensures
            r@.name == self@.name,
            r@.params == self@.params.push(int_param(ty@, value)),
    {
        let w = encode_int_word(value);
        self.add(Param::new_static(ty, w))
    }

    /// Appends a `uint8` parameter.
    pub fn add_u8(self, value: u8) -> (r: Builder)
        ensures
            r@.name == self@.name,
            r@.params == self@.params.push(uint_param("uint8"@, value as u128)),
    {
        self.add_uint("uint8".to_owned(), value as u128)
    }

    /// Appends a `uint16` parameter.
    pub fn add_u16(self, value: u16) -> (r: Builder)
        ensures
            r@.name == self@.name,
            r@.params == self@.params.push(uint_param("uint16"@, value as u128)),
    {
        self.add_uint("uint16".to_owned(), value as u128)
    }

    /// Appends a `uint32` parameter.
    pub fn add_u32(self, value: u32) -> (r: Builder)
        ensures
            r@.name == self@.name,
            r@.params == self@.params.push(uint_param("uint32"@, value as u128)),
    {
        self.add_uint("uint32".to_owned(), value as u128)
    }

    /// Appends a `uint64` parameter.
    pub fn add_u64(self, value: u64) -> (r: Builder)
        ensures
            r@.name == self@.name,
            r@.params == self@.params.push(uint_param("uint64"@, value as u128)),
    {
        self.add_uint("uint64".to_owned(), value as u128)
    }

    /// Appends a `uint128` parameter.
    pub fn add_u128(self, value: u128) -> (r: Builder)
        ensures
            r@.name == self@.name,
            r@.params == self@.params.push(uint_param("uint128"@, value as u128)),
    {
        self.add_uint("uint128".to_owned(), value as u128)
    }

    /// Appends an `int8` parameter.
    pub fn add_i8(self, value: i8) -> (r: Builder)
        ensures
            r@.name == self@.name,
            r@.params == self@.params.push(int_param("int8"@, value as i128)),
    {
        self.add_int("int8".to_owned(), value as i128)
    }

    /// Appends an `int16` parameter.
    pub fn add_i16(self, value: i16) -> (r: Builder)
        ensures
            r@.name == self@.name,
            r@.params == self@.params.push(int_param("int16"@, value as i128)),
    {
        self.add_int("int16".to_owned(), value as i128)
    }

    /// Appends an `int32` parameter.
    pub fn add_i32(self, value: i32) -> (r: Builder)
        ensures
            r@.name == self@.name,
            r@.params == self@.params.push(int_param("int32"@, value as i128)),
    {
        self.add_int("int32".to_owned(), value as i128)
    }

    /// Appends an `int64` parameter.
    pub fn add_i64(self, value: i64) -> (r: Builder)
        ensures
            r@.name == self@.name,
            r@.params == self@.params.push(int_param("int64"@, value as i128)),
    {
        self.add_int("int64".to_owned(), value as i128)
    }

    /// Appends an `int128` parameter.
    pub fn add_i128(self, value: i128) -> (r: Builder)
        ensures
            r@.name == self@.name,
            r@.params == self@.params.push(int_param("int128"@, value as i128)),
    {
        self.add_int("int128".to_owned(), value as i128)
    }

    /// Appends a `uint256` parameter given as its raw 32-byte word.
    pub fn add_u256(self, value: &[u8; 32]) -> (r: Builder)
        ensures
            r@.name == self@.name,
            r@.params == self@.params.push(word_param("uint256"@, value@)),
    {
        let w = vstd::slice::slice_to_vec(value.as_slice());
        self.add(Param::new_static("uint256".to_owned(), w))
    }

    /// Appends an `int256` parameter given as its raw 32-byte word.
    pub fn add_i256(self, value: &[u8; 32]) -> (r: Builder)
        ensures
            r@.name == self@.name,
            r@.params == self@.params.push(word_param("int256"@, value@)),
    {
        let w = vstd::slice::slice_to_vec(value.as_slice());
        self.add(Param::new_static("int256".to_owned(), w))
    }

    /// Appends a `string` parameter: its UTF-8 bytes as a dynamic payload.
    pub fn add_string(self, value: &str) -> (r: Builder)
        ensures
            r@.name == self@.name,
            r@.params == self@.params.push(
                dynamic_param("string"@, bytes_payload(value.spec_bytes())),
            ),
    {
        let data = vstd::slice::slice_to_vec(value.as_bytes());
        let payload = encode_bytes_payload(data);
        self.add(Param::new_dynamic("string".to_owned(), payload))
    }

    /// Appends a `bytes` parameter: an arbitrary byte sequence as a dynamic
    /// payload.
    pub fn add_bytes(self, value: &[u8]) -> (r: Builder)
        ensures
            r@.name == self@.name,
            r@.params == self@.params.push(dynamic_param("bytes"@, bytes_payload(value@))),
    {
        let payload = encode_bytes_payload(vstd::slice::slice_to_vec(value));
        self.add(Param::new_dynamic("bytes".to_owned(), payload))
    }

    /// Appends an `address` parameter converted from an arbitrary byte
    /// slice. Fails, leaving the builder unchanged and usable, unless the
    /// source is exactly 20 bytes.
    pub fn add_address(&mut self, value: &[u8]) -> (r: Result<(), ConversionError>)
        ensures
            value@.len() == 20 <==> r is Ok,
            r is Ok ==> final(self)@.name == old(self)@.name && final(self)@.params == old(
                self,
            )@.params.push(word_param("address"@, address_word(value@))),
            r is Err ==> final(self)@ == old(self)@,
            r matches Err(e) ==> e == ConversionError::BadAddressLength,
    {
        let a = match Address::from_slice(value) {
            Ok(a) => a,
            Err(e) => {
                return Err(e);
            },
        };
        let mut w: Vec<u8> = Vec::new();
        let mut i: usize = 0;
        while i < 12
            invariant
                i <= 12,
                w@ == Seq::new(i as nat, |j: int| 0u8),
            decreases 12 - i,
        {
            w.push(0);
            i = i + 1;
            assert(w@ =~= Seq::new(i as nat, |j: int| 0u8));
        }
        w.extend_from_slice(a.bytes().as_slice());
        proof {
            assert(w@ =~= address_word(value@));
        }
        let p = Param::new_static("address".to_owned(), w);
        let ghost old_ps = self@.params;
        self.params.push(p);
        proof {
            assert(self@.params =~= old_ps.push(word_param("address"@, address_word(value@))));
        }
        Ok(())
    }

    /// Appends a `function` parameter (a 20-byte address and a 4-byte
    /// selector) converted from an arbitrary byte slice. Fails, leaving the
    /// builder unchanged and usable, unless the source is exactly 24 bytes.
    pub fn add_function(&mut self, value: &[u8]) -> (r: Result<(), ConversionError>)
        ensures
            value@.len() == 24 <==> r is Ok,
            r is Ok ==> final(self)@.name == old(self)@.name && final(self)@.params == old(
                self,
            )@.params.push(word_param("function"@, function_word(value@))),
            r is Err ==> final(self)@ == old(self)@,
            r matches Err(e) ==> e == ConversionError::BadFunctionLength,
    {
        let f = match Function::from_slice(value) {
            Ok(f) => f,
            Err(e) => {
                return Err(e);
            },
        };
        let mut w: Vec<u8> = Vec::new();
        w.extend_from_slice(f.bytes().as_slice());
        let mut i: usize = 0;
        while i < 8
            invariant
                i <= 8,
                w@ == value@ + Seq::new(i as nat, |j: int| 0u8),
            decreases 8 - i,
        {
            w.push(0);
            i = i + 1;
            assert(w@ =~= value@ + Seq::new(i as nat, |j: int| 0u8));
        }
        proof {
            assert(w@ =~= function_word(value@));
        }
        let p = Param::new_static("function".to_owned(), w);
        let ghost old_ps = self@.params;
        self.params.push(p);
        proof {
            assert(self@.params =~= old_ps.push(word_param("function"@, function_word(value@))));
        }
        Ok(())
    }

    /// Appends a `uint8[]` parameter: a single-dimension array of `uint8`.
    pub fn add_u8_array(self, value: &Vec<u8>) -> (r: Builder)
        ensures
            r@.name == self@.name,
            r@.params == self@.params.push(
                dynamic_param(
                    "uint8[]"@,
                    uint_array_payload(value@.map_values(|v: u8| v as u128)),
                ),
            ),
    {
        let mut vals: Vec<u128> = Vec::new();
        let mut i: usize = 0;
        while i < value.len()
            invariant
                i <= value.len(),
                vals@ == value@.take(i as int).map_values(|v: u8| v as u128),
            decreases value.len() - i,
        {
            vals.push(value[i] as u128);
            i = i + 1;
            proof {
                assert(vals@ =~= value@.take(i as int).map_values(|v: u8| v as u128));
            }
        }
        proof {
            assert(value@.take(value@.len() as int) =~= value@);
        }
        let payload = encode_uint_array_payload(&vals);
        self.add(Param::new_dynamic("uint8[]".to_owned(), payload))
    }

    /// Appends a `uint16[]` parameter: a single-dimension array of `uint16`.
    pub fn add_u16_array(self, value: &Vec<u16>) -> (r: Builder)
        ensures
            r@.name == self@.name,
            r@.params == self@.params.push(
                dynamic_param(
                    "uint16[]"@,
                    uint_array_payload(value@.map_values(|v: u16| v as u128)),
                ),
            ),
    {
        let mut vals: Vec<u128> = Vec::new();
        let mut i: usize = 0;
        while i < value.len()
            invariant
                i <= value.len(),
                vals@ == value@.take(i as int).map_values(|v: u16| v as u128),
            decreases value.len() - i,
        {
            vals.push(value[i] as u128);
            i = i + 1;
            proof {
                assert(vals@ =~= value@.take(i as int).map_values(|v: u16| v as u128));
            }
        }
        proof {
            assert(value@.take(value@.len() as int) =~= value@);
        }
        let payload = encode_uint_array_payload(&vals);
        self.add(Param::new_dynamic("uint16[]".to_owned(), payload))
    }

    /// Appends a `uint32[]` parameter: a single-dimension array of `uint32`.
    pub fn add_u32_array(self, value: &Vec<u32>) -> (r: Builder)
        ensures
            r@.name == self@.name,
            r@.params == self@.params.push(
                dynamic_param(
                    "uint32[]"@,
                    uint_array_payload(value@.map_values(|v: u32| v as u128)),
                ),
            ),
    {
        let mut vals: Vec<u128> = Vec::new();
        let mut i: usize = 0;
        while i < value.len()
            invariant
                i <= value.len(),
                vals@ == value@.take(i as int).map_values(|v: u32| v as u128),
            decreases value.len() - i,
        {
            vals.push(value[i] as u128);
            i = i + 1;
            proof {
                assert(vals@ =~= value@.take(i as int).map_values(|v: u32| v as u128));
            }
        }
        proof {
            assert(value@.take(value@.len() as int) =~= value@);
        }
        let payload = encode_uint_array_payload(&vals);
        self.add(Param::new_dynamic("uint32[]".to_owned(), payload))
    }

    /// Appends a `uint64[]` parameter: a single-dimension array of `uint64`.
    pub fn add_u64_array(self, value: &Vec<u64>) -> (r: Builder)
        ensures
            r@.name == self@.name,
            r@.params == self@.params.push(
                dynamic_param(
                    "uint64[]"@,
                    uint_array_payload(value@.map_values(|v: u64| v as u128)),
                ),
            ),
    {
        let mut vals: Vec<u128> = Vec::new();
        let mut i: usize = 0;
        while i < value.len()
            invariant
                i <= value.len(),
                vals@ == value@.take(i as int).map_values(|v: u64| v as u128),
            decreases value.len() - i,
        {
            vals.push(value[i] as u128);
            i = i + 1;
            proof {
                assert(vals@ =~= value@.take(i as int).map_values(|v: u64| v as u128));
            }
        }
        proof {
            assert(value@.take(value@.len() as int) =~= value@);
        }
        let payload = encode_uint_array_payload(&vals);
        self.add(Param::new_dynamic("uint64[]".to_owned(), payload))
    }

    /// Appends a `uint128[]` parameter: a single-dimension array of `uint128`.
    pub fn add_u128_array(self, value: &Vec<u128>) -> (r: Builder)
        ensures
            r@.name == self@.name,
            r@.params == self@.params.push(
                dynamic_param("uint128[]"@, uint_array_payload(value@)),
            ),
    {
        let payload = encode_uint_array_payload(value);
        self.add(Param::new_dynamic("uint128[]".to_owned(), payload))
    }

    /// Appends an `int8[]` parameter: a single-dimension array of `int8`.
    pub fn add_i8_array(self, value: &Vec<i8>) -> (r: Builder)
        ensures
            r@.name == self@.name,
            r@.params == self@.params.push(
                dynamic_param(
                    "int8[]"@,
                    int_array_payload(value@.map_values(|v: i8| v as i128)),
                ),
            ),
    {
        let mut vals: Vec<i128> = Vec::new();
        let mut i: usize = 0;
        while i < value.len()
            invariant
                i <= value.len(),
                vals@ == value@.take(i as int).map_values(|v: i8| v as i128),
            decreases value.len() - i,
        {
            vals.push(value[i] as i128);
            i = i + 1;
            proof {
                assert(vals@ =~= value@.take(i as int).map_values(|v: i8| v as i128));
            }
        }
        proof {
            assert(value@.take(value@.len() as int) =~= value@);
        }
        let payload = encode_int_array_payload(&vals);
        self.add(Param::new_dynamic("int8[]".to_owned(), payload))
    }

    /// Appends an `int16[]` parameter: a single-dimension array of `int16`.
    pub fn add_i16_array(self, value: &Vec<i16>) -> (r: Builder)
        ensures
            r@.name == self@.name,
            r@.params == self@.params.push(
                dynamic_param(
                    "int16[]"@,
                    int_array_payload(value@.map_values(|v: i16| v as i128)),
                ),
            ),
    {
        let mut vals: Vec<i128> = Vec::new();
        let mut i: usize = 0;
        while i < value.len()
            invariant
                i <= value.len(),
                vals@ == value@.take(i as int).map_values(|v: i16| v as i128),
            decreases value.len() - i,
        {
            vals.push(value[i] as i128);
            i = i + 1;
            proof {
                assert(vals@ =~= value@.take(i as int).map_values(|v: i16| v as i128));
            }
        }
        proof {
            assert(value@.take(value@.len() as int) =~= value@);
        }
        let payload = encode_int_array_payload(&vals);
        self.add(Param::new_dynamic("int16[]".to_owned(), payload))
    }

    /// Appends an `int32[]` parameter: a single-dimension array of `int32`.
    pub fn add_i32_array(self, value: &Vec<i32>) -> (r: Builder)
        ensures
            r@.name == self@.name,
            r@.params == self@.params.push(
                dynamic_param(
                    "int32[]"@,
                    int_array_payload(value@.map_values(|v: i32| v as i128)),
                ),
            ),
    {
        let mut vals: Vec<i128> = Vec::new();
        let mut i: usize = 0;
        while i < value.len()
            invariant
                i <= value.len(),
                vals@ == value@.take(i as int).map_values(|v: i32| v as i128),
            decreases value.len() - i,
        {
            vals.push(value[i] as i128);
            i = i + 1;
            proof {
                assert(vals@ =~= value@.take(i as int).map_values(|v: i32| v as i128));
            }
        }
        proof {
            assert(value@.take(value@.len() as int) =~= value@);
        }
        let payload = encode_int_array_payload(&vals);
        self.add(Param::new_dynamic("int32[]".to_owned(), payload))
    }

    /// Appends an `int64[]` parameter: a single-dimension array of `int64`.
    pub fn add_i64_array(self, value: &Vec<i64>) -> (r: Builder)
        ensures
            r@.name == self@.name,
            r@.params == self@.params.push(
                dynamic_param(
                    "int64[]"@,
                    int_array_payload(value@.map_values(|v: i64| v as i128)),
                ),
            ),
    {
        let mut vals: Vec<i128> = Vec::new();
        let mut i: usize = 0;
        while i < value.len()
            invariant
                i <= value.len(),
                vals@ == value@.take(i as int).map_values(|v: i64| v as i128),
            decreases value.len() - i,
        {
            vals.push(value[i] as i128);
            i = i + 1;
            proof {
                assert(vals@ =~= value@.take(i as int).map_values(|v: i64| v as i128));
            }
        }
        proof {
            assert(value@.take(value@.len() as int) =~= value@);
        }
        let payload = encode_int_array_payload(&vals);
        self.add(Param::new_dynamic("int64[]".to_owned(), payload))
    }

    /// Appends an `int128[]` parameter: a single-dimension array of `int128`.
    pub fn add_i128_array(self, value: &Vec<i128>) -> (r: Builder)
        ensures
            r@.name == self@.name,
            r@.params == self@.params.push(
                dynamic_param("int128[]"@, int_array_payload(value@)),
            ),
    {
        let payload = encode_int_array_payload(value);
        self.add(Param::new_dynamic("int128[]".to_owned(), payload))
    }

    /// Appends a `uint256[]` parameter: each element a raw 32-byte word.
    pub fn add_u256_array(self, value: &Vec<[u8; 32]>) -> (r: Builder)
        ensures
            r@.name == self@.name,
            r@.params == self@.params.push(
                dynamic_param(
                    "uint256[]"@,
                    static_array_payload(value@.map_values(|w: [u8; 32]| w@)),
                ),
            ),
    {
        let payload = encode_word32_array_payload(value);
        self.add(Param::new_dynamic("uint256[]".to_owned(), payload))
    }

    /// Appends an `int256[]` parameter: each element a raw 32-byte word.
    pub fn add_i256_array(self, value: &Vec<[u8; 32]>) -> (r: Builder)
        ensures
            r@.name == self@.name,
            r@.params == self@.params.push(
                dynamic_param(
                    "int256[]"@,
                    static_array_payload(value@.map_values(|w: [u8; 32]| w@)),
                ),
            ),
    {
        let payload = encode_word32_array_payload(value);
        self.add(Param::new_dynamic("int256[]".to_owned(), payload))
    }

    /// Appends a `string[]` parameter: each element's UTF-8 payload behind
    /// its own offset word in the array's sub-layout.
    pub fn add_string_array(self, value: &Vec<String>) -> (r: Builder)
        requires
            dyn_array_fits(string_elem_payloads(value@.map_values(|s: String| s@))),
        ensures
            r@.name == self@.name,
            r@.params == self@.params.push(
                dynamic_param(
                    "string[]"@,
                    dyn_array_payload(string_elem_payloads(value@.map_values(|s: String| s@))),
                ),
            ),
    {
        let ghost pls = string_elem_payloads(value@.map_values(|s: String| s@));
        let mut elems: Vec<Param> = Vec::new();
        let mut i: usize = 0;
        while i < value.len()
            invariant
                i <= value.len(),
                pls == string_elem_payloads(value@.map_values(|s: String| s@)),
                elems@.len() == i,
                forall|j: int|
                    0 <= j < i ==> (#[trigger] elems@[j])@ == dynamic_param(
                        Seq::<char>::empty(),
                        pls[j],
                    ),
            decreases value.len() - i,
        {
            let s = &value[i];
            let data = vstd::slice::slice_to_vec(s.as_str().as_bytes());
            let payload = encode_bytes_payload(data);
            elems.push(Param::new_dynamic(String::new(), payload));
            i = i + 1;
            proof {
                assert(payload@ == bytes_payload(encode_utf8(value@[i as int - 1]@)));
                assert((elems@[i as int - 1])@ =~~= dynamic_param(
                    Seq::<char>::empty(),
                    pls[i as int - 1],
                ));
            }
        }
        proof {
            assert(elems@.map_values(|p: Param| p@) =~~= dyn_elems(pls));
        }
        let payload = encode_dyn_array_payload(elems);
        self.add(Param::new_dynamic("string[]".to_owned(), payload))
    }

    /// Appends a `bytes[]` parameter: each element's length-prefixed payload
    /// behind its own offset word in the array's sub-layout.
    pub fn add_bytes_array(self, value: &Vec<Vec<u8>>) -> (r: Builder)
        requires
            dyn_array_fits(bytes_elem_payloads(value@.map_values(|b: Vec<u8>| b@))),
        ensures
            r@.name == self@.name,
            r@.params == self@.params.push(
                dynamic_param(
                    "bytes[]"@,
                    dyn_array_payload(bytes_elem_payloads(value@.map_values(|b: Vec<u8>| b@))),
                ),
            ),
    {
        let ghost pls = bytes_elem_payloads(value@.map_values(|b: Vec<u8>| b@));
        let mut elems: Vec<Param> = Vec::new();
        let mut i: usize = 0;
        while i < value.len()
            invariant
                i <= value.len(),
                pls == bytes_elem_payloads(value@.map_values(|b: Vec<u8>| b@)),
                elems@.len() == i,
                forall|j: int|
                    0 <= j < i ==> (#[trigger] elems@[j])@ == dynamic_param(
                        Seq::<char>::empty(),
                        pls[j],
                    ),
            decreases value.len() - i,
        {
            let b = &value[i];
            let data = vstd::slice::slice_to_vec(b.as_slice());
            let payload = encode_bytes_payload(data);
            elems.push(Param::new_dynamic(String::new(), payload));
            i = i + 1;
            proof {
                assert(payload@ == bytes_payload(value@[i as int - 1]@));
                assert((elems@[i as int - 1])@ =~~= dynamic_param(
                    Seq::<char>::empty(),
                    pls[i as int - 1],
                ));
            }
        }
        proof {
            assert(elems@.map_values(|p: Param| p@) =~~= dyn_elems(pls));
        }
        let payload = encode_dyn_array_payload(elems);
        self.add(Param::new_dynamic("bytes[]".to_owned(), payload))
    }

    /// The canonical signature text `name(type1,type2,...)`.
    fn signature_string(&self) -> (s: String)
        requires
            self@.name is Some,
        ensures
            s@ == signature_chars(self@.name.unwrap(), self@.ty_names()),
    {
        let ghost tns = self@.ty_names();
        let n = self.name.as_ref().unwrap();
        let mut s = String::new();
        s.append(n.as_str());
        s.append("(");
        proof {
            reveal_strlit("(");
            assert(s@ =~= self@.name.unwrap() + seq!['('] + joined_names(tns.take(0)));
        }
        let m = self.params.len();
        let mut i: usize = 0;
        while i < m
            invariant
                i <= m,
                m == self.params.len(),
                tns == self@.ty_names(),
                self@.name is Some,
                s@ == self@.name.unwrap() + seq!['('] + joined_names(tns.take(i as int)),
            decreases m - i,
        {
            if i > 0 {
                s.append(",");
            }
            s.append(self.params[i].ty_name().as_str());
            i = i + 1;
            proof {
                reveal_strlit(",");
                assert(tns.take(i as int).drop_last() =~= tns.take(i as int - 1));
                assert(tns.take(i as int).last() == tns[i as int - 1]);
                assert(s@ =~= self@.name.unwrap() + seq!['('] + joined_names(tns.take(i as int)));
            }
        }
        s.append(")");
        proof {
            reveal_strlit(")");
            assert(tns.take(m as int) =~= tns);
            assert(s@ =~= signature_chars(self@.name.unwrap(), tns));
        }
        s
    }

    /// The 4-byte function selector: the first four bytes of the Keccak-256
    /// digest of the canonical signature text. A name must have been set;
    /// requesting the selector without one is a contract violation, not a
    /// runtime condition.
    pub fn signature(&self) -> (sig: [u8; 4])
        requires
            self@.name is Some,
        ensures
            sig@ == selector_spec(self@.name.unwrap(), self@.ty_names()),
    {
        let s = self.signature_string();
        let d = keccak256_of_str(s.as_str());
        let sig = [d[0], d[1], d[2], d[3]];
        proof {
            assert(sig@ =~= selector_spec(self@.name.unwrap(), self@.ty_names()));
        }
        sig
    }

    /// Consumes the builder and produces the encoded buffer: the selector
    /// when a name is set, one 32-byte head slot per parameter, then the
    /// dynamic tail payloads in parameter order.
    pub fn build(self) -> (buf: Vec<u8>)
        requires
            self@.wf(),
            encoded_len(self@) <= usize::MAX,
        ensures
            buf@ == encoding(self@),
    {
        let mut buf: Vec<u8> = Vec::new();
        let no: usize;
        if self.name.is_some() {
            let sel = self.signature();
            buf.push(sel[0]);
            buf.push(sel[1]);
            buf.push(sel[2]);
            buf.push(sel[3]);
            no = 4;
            proof {
                assert(buf@ =~= selector_spec(self@.name.unwrap(), self@.ty_names()));
            }
        } else {
            no = 0;
        }
        let mut body = encode_body(&self.params, no);
        buf.append(&mut body);
        proof {
            assert(buf@ =~= encoding(self@));
        }
        buf
    }
}

/// The buffer length invariant: the built buffer is exactly the selector
/// bytes plus, for each parameter, 32 bytes when it is dynamic (its head
/// slot; the payload is counted by its own length) or its static width.
pub proof fn lemma_buffer_len(b: BuilderModel)
    requires
        b.wf(),
    ensures
        encoding(b).len() == encoded_len(b),
{
    let n = b.params.len() as int;
    lemma_head_upto_len(b.params, name_offset(b.name), n);
    lemma_tail_upto_len(b.params, n);
    lemma_total_split(b.params, n);
}

/// Every static parameter's head slot is exactly 32 bytes and holds the
/// parameter's own encoded word, at byte range
/// `[name_offset + 32 * i, name_offset + 32 * (i + 1))`.
pub proof fn lemma_static_slot_placed(b: BuilderModel, i: int)
    requires
        b.wf(),
        0 <= i < b.params.len(),
        !b.params[i].dynamic,
    ensures
        b.params[i].bytes.len() == 32,
        encoding(b).subrange(
            name_offset(b.name) + 32 * i,
            name_offset(b.name) + 32 * (i + 1),
        ) == b.params[i].bytes,
{
    let ps = b.params;
    let no = name_offset(b.name);
    let n = ps.len() as int;
    lemma_head_upto_len(ps, no, n);
    lemma_tail_upto_len(ps, n);
    lemma_head_upto_slot(ps, no, i, n);
    assert(encoding(b).subrange(no + 32 * i, no + 32 * (i + 1)) =~= head_upto(ps, no, n).subrange(
        32 * i,
        32 * (i + 1),
    ));
}

/// Every dynamic parameter's head slot holds the big-endian offset
/// `name_offset + 32 * params.len() + (payloads of the prior dynamic
/// parameters)`, and the tail bytes at that offset are exactly the
/// parameter's encoded payload.
pub proof fn lemma_dynamic_slot_placed(b: BuilderModel, i: int)
    requires
        b.wf(),
        0 <= i < b.params.len(),
        b.params[i].dynamic,
    ensures
        tail_start(b.params, name_offset(b.name), i) == name_offset(b.name) + 32 * b.params.len()
            + dyn_payload_before(b.params, i),
        encoding(b).subrange(
            name_offset(b.name) + 32 * i,
            name_offset(b.name) + 32 * (i + 1),
        ) == be_word(0, tail_start(b.params, name_offset(b.name), i) as u128),
        encoding(b).subrange(
            tail_start(b.params, name_offset(b.name), i),
            tail_start(b.params, name_offset(b.name), i) + b.params[i].bytes.len(),
        ) == b.params[i].bytes,
{
    let ps = b.params;
    let no = name_offset(b.name);
    let n = ps.len() as int;
    lemma_head_upto_len(ps, no, n);
    lemma_tail_upto_len(ps, n);
    lemma_head_upto_slot(ps, no, i, n);
    assert(encoding(b).subrange(no + 32 * i, no + 32 * (i + 1)) =~= head_upto(ps, no, n).subrange(
        32 * i,
        32 * (i + 1),
    ));
    lemma_dyn_payload_before_bounds(ps, 0, i);
    lemma_dyn_payload_before_bounds(ps, i + 1, n);
    lemma_tail_upto_chunk(ps, i, n);
    let ts = tail_start(ps, no, i);
    assert(encoding(b).subrange(ts, ts + ps[i].bytes.len()) =~= tail_upto(ps, n).subrange(
        dyn_payload_before(ps, i),
        dyn_payload_before(ps, i) + ps[i].bytes.len(),
    ));
}

/// Building is deterministic: the buffer is a function of the accumulated
/// name and parameters alone, so two builds of the same state are
/// byte-identical.
pub proof fn lemma_build_deterministic(b: BuilderModel, out1: Seq<u8>, out2: Seq<u8>)
    requires
        out1 == encoding(b),
        out2 == encoding(b),
    ensures
        out1 == out2,
{
}

/// The selector depends on the name and the ordered type names alone:
/// parameter lists that spell the same types give the same selector,
/// whatever values they hold.
pub proof fn lemma_selector_ignores_values(name: Seq<char>, b1: BuilderModel, b2: BuilderModel)
    requires
        b1.ty_names() == b2.ty_names(),
    ensures
        selector_spec(name, b1.ty_names()) == selector_spec(name, b2.ty_names()),
{
}

/// Relies on sha3::Keccak256::digest (the pre-standard Keccak padding, the
/// variant used for function selectors): returns the 32-byte digest of the
/// string's UTF-8 bytes, a function of the characters alone.
#[verifier::external_body]
fn keccak256_of_str(s: &str) -> (r: Vec<u8>)
    ensures
        r@ == keccak_str(s@),
        r@.len() == 32,
{
    Keccak256::digest(s.as_bytes()).to_vec()
}

} // verus!
