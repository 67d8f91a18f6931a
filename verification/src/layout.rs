//! The head/tail layout. These spec functions describe the output buffer of
//! a build bit-exactly: an optional 4-byte selector, one 32-byte head slot
//! per parameter, then the dynamic tail payloads in parameter order. The
//! lemmas place each head slot and each tail payload at its byte range.
use vstd::prelude::*;
use crate::param::{Param, ParamModel};
use crate::words::{be_word, encode_word};

verus! {

/// Whether every parameter in the list is well formed.
pub open spec fn all_well_formed(ps: Seq<ParamModel>) -> bool {
    forall|i: int| 0 <= i < ps.len() ==> (#[trigger] ps[i]).well_formed()
}

/// Bytes parameter `p` contributes to the buffer: a dynamic parameter costs
/// its 32-byte head slot plus its tail payload; a static one costs its head
/// slot alone.
pub open spec fn contribution(p: ParamModel) -> int {
    if p.dynamic {
        32 + p.bytes.len() as int
    } else {
        p.bytes.len() as int
    }
}

/// Total contribution of the first `i` parameters.
pub open spec fn total_upto(ps: Seq<ParamModel>, i: int) -> int
    decreases i,
{
    if i <= 0 {
        0
    } else {
        total_upto(ps, i - 1) + contribution(ps[i - 1])
    }
}

/// Combined tail-payload length of the dynamic parameters among the first
/// `i`.
pub open spec fn dyn_payload_before(ps: Seq<ParamModel>, i: int) -> int
    decreases i,
{
    if i <= 0 {
        0
    } else {
        dyn_payload_before(ps, i - 1) + if ps[i - 1].dynamic {
            ps[i - 1].bytes.len() as int
        } else {
            0
        }
    }
}

/// Where the tail payload of parameter `i` starts: after the selector, all
/// head slots, and the payloads of the dynamic parameters before it.
pub open spec fn tail_start(ps: Seq<ParamModel>, name_offset: int, i: int) -> int {
    name_offset + 32 * ps.len() + dyn_payload_before(ps, i)
}

/// The 32-byte head slot of parameter `i`: a static parameter's own word, or
/// the big-endian offset of a dynamic parameter's payload.
pub open spec fn head_slot(ps: Seq<ParamModel>, name_offset: int, i: int) -> Seq<u8> {
    if ps[i].dynamic {
        be_word(0, tail_start(ps, name_offset, i) as u128)
    } else {
        ps[i].bytes
    }
}

/// The first `i` head slots, concatenated.
pub open spec fn head_upto(ps: Seq<ParamModel>, name_offset: int, i: int) -> Seq<u8>
    decreases i,
{
    if i <= 0 {
        Seq::empty()
    } else {
        head_upto(ps, name_offset, i - 1) + head_slot(ps, name_offset, i - 1)
    }
}

/// The tail payloads of the dynamic parameters among the first `i`,
/// concatenated.
pub open spec fn tail_upto(ps: Seq<ParamModel>, i: int) -> Seq<u8>
    decreases i,
{
    if i <= 0 {
        Seq::empty()
    } else {
        tail_upto(ps, i - 1) + if ps[i - 1].dynamic {
            ps[i - 1].bytes
        } else {
            Seq::empty()
        }
    }
}

/// The head and tail image of a parameter list laid out after `name_offset`
/// leading bytes.
pub open spec fn body_bytes(ps: Seq<ParamModel>, name_offset: int) -> Seq<u8> {
    head_upto(ps, name_offset, ps.len() as int) + tail_upto(ps, ps.len() as int)
}

pub proof fn lemma_dyn_payload_before_bounds(ps: Seq<ParamModel>, i: int, j: int)
    requires
        0 <= i <= j,
    ensures
        0 <= dyn_payload_before(ps, i) <= dyn_payload_before(ps, j),
    decreases j,
{
    if j > 0 {
        if i < j {
            lemma_dyn_payload_before_bounds(ps, i, j - 1);
        } else {
            lemma_dyn_payload_before_bounds(ps, j - 1, j - 1);
        }
    }
}

/// Under well-formedness, the first `i` parameters cost exactly `32 * i`
/// head bytes plus their dynamic payloads.
pub proof fn lemma_total_split(ps: Seq<ParamModel>, i: int)
    requires
        all_well_formed(ps),
        0 <= i <= ps.len(),
    ensures
        total_upto(ps, i) == 32 * i + dyn_payload_before(ps, i),
    decreases i,
{
    if i > 0 {
        lemma_total_split(ps, i - 1);
    }
}

pub proof fn lemma_head_slot_len(ps: Seq<ParamModel>, name_offset: int, i: int)
    requires
        all_well_formed(ps),
        0 <= i < ps.len(),
    ensures
        head_slot(ps, name_offset, i).len() == 32,
{
}

pub proof fn lemma_head_upto_len(ps: Seq<ParamModel>, name_offset: int, i: int)
    requires
        all_well_formed(ps),
        0 <= i <= ps.len(),
    ensures
        head_upto(ps, name_offset, i).len() == 32 * i,
    decreases i,
{
    if i > 0 {
        lemma_head_upto_len(ps, name_offset, i - 1);
        lemma_head_slot_len(ps, name_offset, i - 1);
    }
}

pub proof fn lemma_tail_upto_len(ps: Seq<ParamModel>, i: int)
    requires
        0 <= i <= ps.len(),
    ensures
        tail_upto(ps, i).len() == dyn_payload_before(ps, i),
    decreases i,
{
    if i > 0 {
        lemma_tail_upto_len(ps, i - 1);
    }
}

/// Within the concatenated head section, slot `i` sits at byte range
/// `[32 * i, 32 * (i + 1))`.
pub proof fn lemma_head_upto_slot(ps: Seq<ParamModel>, name_offset: int, i: int, k: int)
    requires
        all_well_formed(ps),
        0 <= i < k <= ps.len(),
    ensures
        head_upto(ps, name_offset, k).subrange(32 * i, 32 * (i + 1)) == head_slot(
            ps,
            name_offset,
            i,
        ),
    decreases k,
{
    lemma_head_upto_len(ps, name_offset, k - 1);
    lemma_head_slot_len(ps, name_offset, k - 1);
    if i == k - 1 {
        assert(head_upto(ps, name_offset, k).subrange(32 * i, 32 * (i + 1)) =~= head_slot(
            ps,
            name_offset,
            i,
        ));
    } else {
        lemma_head_upto_slot(ps, name_offset, i, k - 1);
        assert(head_upto(ps, name_offset, k).subrange(32 * i, 32 * (i + 1)) =~= head_upto(
            ps,
            name_offset,
            k - 1,
        ).subrange(32 * i, 32 * (i + 1)));
    }
}

/// Within the concatenated tail section, the payload of dynamic parameter
/// `i` sits right after the payloads of the dynamic parameters before it.
pub proof fn lemma_tail_upto_chunk(ps: Seq<ParamModel>, i: int, k: int)
    requires
        0 <= i < k <= ps.len(),
        ps[i].dynamic,
    ensures
        tail_upto(ps, k).subrange(
            dyn_payload_before(ps, i),
            dyn_payload_before(ps, i) + ps[i].bytes.len(),
        ) == ps[i].bytes,
    decreases k,
{
    lemma_tail_upto_len(ps, k - 1);
    lemma_dyn_payload_before_bounds(ps, 0, i);
    if i == k - 1 {
        assert(tail_upto(ps, k).subrange(
            dyn_payload_before(ps, i),
            dyn_payload_before(ps, i) + ps[i].bytes.len(),
        ) =~= ps[i].bytes);
    } else {
        lemma_tail_upto_chunk(ps, i, k - 1);
        lemma_dyn_payload_before_bounds(ps, i + 1, k - 1);
        assert(tail_upto(ps, k).subrange(
            dyn_payload_before(ps, i),
            dyn_payload_before(ps, i) + ps[i].bytes.len(),
        ) =~= tail_upto(ps, k - 1).subrange(
            dyn_payload_before(ps, i),
            dyn_payload_before(ps, i) + ps[i].bytes.len(),
        ));
    }
}

/// Lays the head and tail sections of `params` out, with their offsets
/// counted from `name_offset` bytes before the first head slot.
pub(crate) fn encode_body(params: &Vec<Param>, name_offset: usize) -> (buf: Vec<u8>)
    requires
        all_well_formed(params@.map_values(|p: Param| p@)),
        name_offset + total_upto(
            params@.map_values(|p: Param| p@),
            params@.len() as int,
        ) <= usize::MAX,
    ensures
        buf@ == body_bytes(params@.map_values(|p: Param| p@), name_offset as int),
{
    let ghost ps = params@.map_values(|p: Param| p@);
    let n = params.len();
    let no = name_offset;
    let mut buf: Vec<u8> = Vec::new();
    proof {
        lemma_total_split(ps, n as int);
        lemma_dyn_payload_before_bounds(ps, 0, n as int);
    }
    let mut offset: usize = no + 32 * n;
    let mut i: usize = 0;
    while i < n
        invariant
            i <= n,
            n == params.len(),
            ps == params@.map_values(|p: Param| p@),
            all_well_formed(ps),
            no + total_upto(ps, n as int) <= usize::MAX,
            buf@ == head_upto(ps, no as int, i as int),
            offset == no + 32 * (n as int) + dyn_payload_before(ps, i as int),
        decreases n - i,
    {
        let p = &params[i];
        proof {
            lemma_total_split(ps, n as int);
            lemma_dyn_payload_before_bounds(ps, i as int + 1, n as int);
        }
        if p.is_dynamic() {
            let mut w = encode_word(0, offset as u128);
            buf.append(&mut w);
            offset = offset + p.required_byte_len();
        } else {
            buf.extend_from_slice(p.encoded_bytes().as_slice());
        }
        i = i + 1;
        proof {
            assert(buf@ =~= head_upto(ps, no as int, i as int));
        }
    }
    let mut j: usize = 0;
    while j < n
        invariant
            j <= n,
            n == params.len(),
            ps == params@.map_values(|p: Param| p@),
            buf@ == head_upto(ps, no as int, n as int) + tail_upto(ps, j as int),
        decreases n - j,
    {
        let p = &params[j];
        if p.is_dynamic() {
            buf.extend_from_slice(p.encoded_bytes().as_slice());
        }
        j = j + 1;
        proof {
            assert(buf@ =~= head_upto(ps, no as int, n as int) + tail_upto(ps, j as int));
        }
    }
    buf
}

} // verus!
