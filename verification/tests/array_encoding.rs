//! Tail payloads of single-dimension array parameters, and the public type
//! model surface (`Param`, `Address`, `Function`).
use calldata::Address;
use calldata::Builder;
use calldata::ConversionError;
use calldata::Function;
use calldata::Param;

fn be_u64_of(slot: &[u8]) -> u64 {
    let mut v: u64 = 0;
    for b in &slot[24..32] {
        v = (v << 8) | (*b as u64);
    }
    v
}

#[test]
fn u32_array_is_count_then_element_words() {
    let buf = Builder::new().add_u32_array(&vec![1, 2]).build();
    // Head slot, count word, two element words.
    assert_eq!(buf.len(), 32 + 96);
    assert_eq!(be_u64_of(&buf[0..32]), 32);
    assert_eq!(be_u64_of(&buf[32..64]), 2);
    assert_eq!(be_u64_of(&buf[64..96]), 1);
    assert_eq!(be_u64_of(&buf[96..128]), 2);
}

#[test]
fn empty_u8_array_is_count_word_only() {
    let buf = Builder::new().add_u8_array(&vec![]).build();
    assert_eq!(buf.len(), 64);
    assert_eq!(be_u64_of(&buf[0..32]), 32);
    assert_eq!(be_u64_of(&buf[32..64]), 0);
}

#[test]
fn i16_array_sign_extends_each_element() {
    let buf = Builder::new().add_i16_array(&vec![-1, 2]).build();
    assert_eq!(buf.len(), 32 + 96);
    assert_eq!(buf[64..96].to_vec(), vec![0xFF; 32]);
    let mut two = vec![0u8; 31];
    two.push(2);
    assert_eq!(buf[96..128].to_vec(), two);
}

#[test]
fn u128_array_keeps_each_value() {
    let buf = Builder::new().add_u128_array(&vec![u128::MAX, 1]).build();
    assert_eq!(buf.len(), 32 + 96);
    let mut max_word = vec![0u8; 16];
    max_word.extend_from_slice(&[0xFF; 16]);
    assert_eq!(buf[64..96].to_vec(), max_word);
    assert_eq!(be_u64_of(&buf[96..128]), 1);
}

#[test]
fn i128_array_sign_extends_each_element() {
    let buf = Builder::new().add_i128_array(&vec![-1, 0]).build();
    assert_eq!(buf.len(), 32 + 96);
    assert_eq!(buf[64..96].to_vec(), vec![0xFF; 32]);
    assert_eq!(buf[96..128].to_vec(), vec![0u8; 32]);
}

#[test]
fn u256_array_copies_each_word() {
    let w1 = [0x01; 32];
    let w2 = [0x02; 32];
    let buf = Builder::new().add_u256_array(&vec![w1, w2]).build();
    assert_eq!(buf.len(), 32 + 96);
    assert_eq!(be_u64_of(&buf[32..64]), 2);
    assert_eq!(buf[64..96].to_vec(), w1.to_vec());
    assert_eq!(buf[96..128].to_vec(), w2.to_vec());
}

#[test]
fn string_array_nests_offsets_and_payloads() {
    let buf = Builder::new().add_string_array(&vec!["ab".to_string(), "c".to_string()]).build();
    // Head slot; count word; two inner offset words; two 64-byte payloads.
    assert_eq!(buf.len(), 32 + 32 + 64 + 128);
    assert_eq!(be_u64_of(&buf[0..32]), 32);
    assert_eq!(be_u64_of(&buf[32..64]), 2);
    // Inner offsets are counted from just after the count word.
    assert_eq!(be_u64_of(&buf[64..96]), 64);
    assert_eq!(be_u64_of(&buf[96..128]), 128);
    assert_eq!(be_u64_of(&buf[128..160]), 2);
    assert_eq!(&buf[160..162], b"ab");
    assert_eq!(be_u64_of(&buf[192..224]), 1);
    assert_eq!(&buf[224..225], b"c");
}

#[test]
fn bytes_array_nests_offsets_and_payloads() {
    let buf = Builder::new().add_bytes_array(&vec![vec![9, 9, 9], vec![]]).build();
    assert_eq!(buf.len(), 32 + 32 + 64 + 64 + 32);
    assert_eq!(be_u64_of(&buf[32..64]), 2);
    assert_eq!(be_u64_of(&buf[64..96]), 64);
    // The second element starts after the first 64-byte payload.
    assert_eq!(be_u64_of(&buf[96..128]), 128);
    assert_eq!(be_u64_of(&buf[128..160]), 3);
    assert_eq!(&buf[160..163], &[9, 9, 9]);
    // An empty byte sequence is a zero length word with no data.
    assert_eq!(be_u64_of(&buf[192..224]), 0);
}

#[test]
fn add_takes_a_ready_made_param() {
    let word = vec![0x55; 32];
    let p = Param::new_static("uint256".to_string(), word.clone());
    assert_eq!(p.ty_name().as_str(), "uint256");
    assert!(!p.is_dynamic());
    assert_eq!(p.required_byte_len(), 32);
    assert_eq!(p.encoded_bytes(), &word);
    let buf = Builder::new().add(p).build();
    assert_eq!(buf, word);
}

#[test]
fn dynamic_param_reports_its_payload() {
    let p = Param::new_dynamic("bytes".to_string(), vec![1, 2, 3]);
    assert!(p.is_dynamic());
    assert_eq!(p.required_byte_len(), 3);
    let (dynamic, bytes) = p.to_bytes();
    assert!(dynamic);
    assert_eq!(bytes, vec![1, 2, 3]);
}

#[test]
fn address_conversion_checks_length() {
    let a = Address::from_slice(&[7u8; 20]).unwrap();
    assert_eq!(a.bytes(), &vec![7u8; 20]);
    let r = Address::from_slice(&[7u8; 21]);
    assert!(matches!(r, Err(ConversionError::BadAddressLength)));
}

#[test]
fn function_conversion_checks_length() {
    let f = Function::from_slice(&[8u8; 24]).unwrap();
    assert_eq!(f.bytes(), &vec![8u8; 24]);
    let r = Function::from_slice(&[8u8; 2]);
    assert!(matches!(r, Err(ConversionError::BadFunctionLength)));
}
