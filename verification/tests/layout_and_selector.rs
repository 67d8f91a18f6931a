//! Buffer layout of dynamic parameters, selector derivation, and the error
//! path of the fallible conversions.
use calldata::Builder;
use calldata::ConversionError;
use sha3::Digest;
use sha3::Keccak256;

fn be_u64_of(slot: &[u8]) -> u64 {
    let mut v: u64 = 0;
    for b in &slot[24..32] {
        v = (v << 8) | (*b as u64);
    }
    v
}

fn first_four_of_keccak(text: &[u8]) -> [u8; 4] {
    let d = Keccak256::digest(text);
    [d[0], d[1], d[2], d[3]]
}

#[test]
fn empty_builder_gives_empty_buffer() {
    let buf = Builder::new().build();
    assert_eq!(buf, Vec::<u8>::new());
}

#[test]
fn named_empty_builder_gives_selector_only() {
    let buf = Builder::new().name("foo".to_string()).build();
    assert_eq!(buf.len(), 4);
    assert_eq!(buf, first_four_of_keccak(b"foo()").to_vec());
}

#[test]
fn bytes_param_head_slot_points_past_head() {
    let buf = Builder::new().add_bytes(&[1, 2, 3]).build();
    // One head slot, a length word, and the data padded to a word.
    assert_eq!(buf.len(), 32 + 32 + 32);
    assert_eq!(be_u64_of(&buf[0..32]), 32);
    assert_eq!(be_u64_of(&buf[32..64]), 3);
    let mut tail = vec![1u8, 2, 3];
    tail.extend_from_slice(&[0u8; 29]);
    assert_eq!(buf[64..].to_vec(), tail);
}

#[test]
fn bytes_of_word_length_get_no_padding() {
    let data = [7u8; 32];
    let buf = Builder::new().add_bytes(&data).build();
    assert_eq!(buf.len(), 32 + 32 + 32);
    assert_eq!(be_u64_of(&buf[32..64]), 32);
    assert_eq!(buf[64..].to_vec(), data.to_vec());
}

#[test]
fn string_param_is_utf8_length_prefixed_and_padded() {
    let buf = Builder::new().add_string("abc").build();
    assert_eq!(buf.len(), 96);
    assert_eq!(be_u64_of(&buf[0..32]), 32);
    assert_eq!(be_u64_of(&buf[32..64]), 3);
    assert_eq!(&buf[64..67], b"abc");
    assert_eq!(buf[67..].to_vec(), vec![0u8; 29]);
}

#[test]
fn empty_string_param_is_a_zero_length_word() {
    let buf = Builder::new().add_string("").build();
    assert_eq!(buf.len(), 64);
    assert_eq!(be_u64_of(&buf[0..32]), 32);
    assert_eq!(buf[32..].to_vec(), vec![0u8; 32]);
}

#[test]
fn mixed_static_and_dynamic_layout() {
    // u8, bytes, u8: three head slots, then the single tail payload.
    let buf = Builder::new().add_u8(0x11).add_bytes(&[0xEE; 5]).add_u8(0x22).build();
    assert_eq!(buf.len(), 3 * 32 + 64);
    assert_eq!(buf[31], 0x11);
    // The dynamic head slot points just past the three head slots.
    assert_eq!(be_u64_of(&buf[32..64]), 96);
    assert_eq!(buf[95], 0x22);
    assert_eq!(be_u64_of(&buf[96..128]), 5);
    assert_eq!(&buf[128..133], &[0xEE; 5]);
    assert_eq!(buf[133..].to_vec(), vec![0u8; 27]);
}

#[test]
fn two_dynamic_params_pack_tail_in_order() {
    let buf = Builder::new().add_bytes(&[1]).add_bytes(&[2, 2]).build();
    // Two head slots, then two 64-byte payloads.
    assert_eq!(buf.len(), 64 + 64 + 64);
    assert_eq!(be_u64_of(&buf[0..32]), 64);
    assert_eq!(be_u64_of(&buf[32..64]), 128);
    assert_eq!(be_u64_of(&buf[64..96]), 1);
    assert_eq!(buf[96], 1);
    assert_eq!(be_u64_of(&buf[128..160]), 2);
    assert_eq!(&buf[160..162], &[2, 2]);
}

#[test]
fn transfer_selector_matches_keccak_of_signature_text() {
    let mut b = Builder::new().name("transfer".to_string());
    b.add_address(&[0x11; 20]).unwrap();
    let b = b.add_u256(&[0u8; 32]);
    let sig = b.signature();
    assert_eq!(sig, first_four_of_keccak(b"transfer(address,uint256)"));
    assert_eq!(sig, [0xA9, 0x05, 0x9C, 0xBB]);
}

#[test]
fn selector_is_prefix_and_rest_is_untouched() {
    let buf = Builder::new().name("bar".to_string()).add_u8(0x7F).build();
    assert_eq!(buf.len(), 36);
    assert_eq!(&buf[0..4], &first_four_of_keccak(b"bar(uint8)"));
    let mut slot = vec![0u8; 31];
    slot.push(0x7F);
    assert_eq!(buf[4..].to_vec(), slot);
}

#[test]
fn named_dynamic_offsets_count_the_selector() {
    let buf = Builder::new().name("baz".to_string()).add_bytes(&[9]).build();
    assert_eq!(buf.len(), 4 + 32 + 64);
    assert_eq!(&buf[0..4], &first_four_of_keccak(b"baz(bytes)"));
    assert_eq!(be_u64_of(&buf[4..36]), 36);
    assert_eq!(be_u64_of(&buf[36..68]), 1);
    assert_eq!(buf[68], 9);
}

#[test]
fn building_twice_is_byte_identical() {
    let make = || {
        let mut b = Builder::new().name("move_it".to_string()).add_u32(5).add_bytes(&[1, 2]);
        b.add_address(&[3u8; 20]).unwrap();
        b.build()
    };
    assert_eq!(make(), make());
}

#[test]
fn selector_ignores_parameter_values() {
    let b1 = Builder::new().name("f".to_string()).add_u32(1).add_string("x");
    let b2 = Builder::new().name("f".to_string()).add_u32(99999).add_string("something else");
    assert_eq!(b1.signature(), b2.signature());
    assert_eq!(b1.signature(), first_four_of_keccak(b"f(uint32,string)"));
}

#[test]
fn bad_address_source_reports_error_and_leaves_builder_usable() {
    let mut b = Builder::new().add_u8(1);
    let r = b.add_address(&[1, 2, 3]);
    assert_eq!(r, Err(ConversionError::BadAddressLength));
    assert_eq!(b.param_count(), 1);
    // The builder is still usable after the failure.
    b.add_address(&[5u8; 20]).unwrap();
    assert_eq!(b.param_count(), 2);
    assert_eq!(b.build().len(), 64);
}

#[test]
fn bad_function_source_reports_error_and_leaves_builder_usable() {
    let mut b = Builder::new();
    let r = b.add_function(&[0u8; 23]);
    assert_eq!(r, Err(ConversionError::BadFunctionLength));
    assert_eq!(b.param_count(), 0);
}
