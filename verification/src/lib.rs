//! Encoding of typed parameter lists into contract call data: a head section
//! with one 32-byte slot per parameter, a tail section for dynamic payloads,
//! and an optional 4-byte function selector derived from the canonical
//! signature string.
mod arrays;
mod builder;
mod layout;
mod param;
mod sig;
mod words;

pub use arrays::bytes_elem_payloads;
pub use arrays::concat_upto;
pub use arrays::dyn_array_fits;
pub use arrays::dyn_array_payload;
pub use arrays::dyn_elems;
pub use arrays::int_array_payload;
pub use arrays::static_array_payload;
pub use arrays::string_elem_payloads;
pub use arrays::uint_array_payload;
pub use builder::Builder;
pub use builder::BuilderModel;
pub use builder::encoded_len;
pub use builder::encoding;
pub use builder::lemma_buffer_len;
pub use builder::lemma_build_deterministic;
pub use builder::lemma_dynamic_slot_placed;
pub use builder::lemma_selector_ignores_values;
pub use builder::lemma_static_slot_placed;
pub use builder::name_offset;
pub use layout::all_well_formed;
pub use layout::body_bytes;
pub use layout::contribution;
pub use layout::dyn_payload_before;
pub use layout::head_slot;
pub use layout::head_upto;
pub use layout::lemma_dyn_payload_before_bounds;
pub use layout::lemma_head_upto_slot;
pub use layout::lemma_tail_upto_chunk;
pub use layout::lemma_total_split;
pub use layout::tail_start;
pub use layout::tail_upto;
pub use layout::total_upto;
pub use param::Address;
pub use param::ConversionError;
pub use param::Function;
pub use param::Param;
pub use param::ParamModel;
pub use param::address_word;
pub use param::bytes_payload;
pub use param::dynamic_param;
pub use param::function_word;
pub use param::int_param;
pub use param::uint_param;
pub use param::word_param;
pub use words::be_byte;
pub use words::be_word;
pub use words::int_word;
pub use words::pad_len;
pub use words::sign_fill;
pub use words::twos_complement;
pub use words::zero_padded;
