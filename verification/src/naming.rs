//! The two series of a collector have different identities in a registry.
//!
//! A registry tells its series apart by the hash of their names. That the
//! hashes of the two names differ is shown by working both out, byte by byte.

use crate::backend::{fnv, fnv_from, fnv_step, series_id};
use crate::collector::{count_series_name, duration_series_name};
use vstd::prelude::*;

verus! {

/// One byte more in the hash is one step more.
proof fn lemma_fnv_push(hash: u64, bytes: Seq<u8>, byte: u8)
    ensures
        fnv_from(hash, bytes.push(byte)) == fnv_step(fnv_from(hash, bytes), byte),
{
    assert(bytes.push(byte).drop_last() =~= bytes);
}

/// The bytes with which both names begin: `http_requests_`.
spec fn shared_bytes() -> Seq<u8> {
    seq![0x68u8, 0x74u8, 0x74u8, 0x70u8, 0x5fu8, 0x72u8, 0x65u8, 0x71u8, 0x75u8, 0x65u8, 0x73u8, 0x74u8, 0x73u8, 0x5fu8]
}

/// The hash of the bytes with which both names begin.
proof fn lemma_shared_hash()
    ensures
        fnv(shared_bytes()) == 0xe020_9206_62dd_bb9du64,
{
    let b0: Seq<u8> = Seq::empty();
    let b1 = b0.push(0x68u8);
    lemma_fnv_push(0xcbf2_9ce4_8422_2325u64, b0, 0x68u8);
    assert(fnv_step(0xcbf2_9ce4_8422_2325u64, 0x68u8) == 0xaf63_e54c_8601_fbd7u64) by (bit_vector);
    let b2 = b1.push(0x74u8);
    lemma_fnv_push(0xcbf2_9ce4_8422_2325u64, b1, 0x74u8);
    assert(fnv_step(0xaf63_e54c_8601_fbd7u64, 0x74u8) == 0x08ba_4407_b55e_95f9u64) by (bit_vector);
    let b3 = b2.push(0x74u8);
    lemma_fnv_push(0xcbf2_9ce4_8422_2325u64, b2, 0x74u8);
    assert(fnv_step(0x08ba_4407_b55e_95f9u64, 0x74u8) == 0x3317_2619_2fb8_1e97u64) by (bit_vector);
    let b4 = b3.push(0x70u8);
    lemma_fnv_push(0xcbf2_9ce4_8422_2325u64, b3, 0x70u8);
    assert(fnv_step(0x3317_2619_2fb8_1e97u64, 0x70u8) == 0x8874_a3cc_15dc_8285u64) by (bit_vector);
    let b5 = b4.push(0x5fu8);
    lemma_fnv_push(0xcbf2_9ce4_8422_2325u64, b4, 0x5fu8);
    assert(fnv_step(0x8874_a3cc_15dc_8285u64, 0x5fu8) == 0xbab5_2dc9_25b2_586eu64) by (bit_vector);
    let b6 = b5.push(0x72u8);
    lemma_fnv_push(0xcbf2_9ce4_8422_2325u64, b5, 0x72u8);
    assert(fnv_step(0xbab5_2dc9_25b2_586eu64, 0x72u8) == 0xf434_e8cb_0e0b_b794u64) by (bit_vector);
    let b7 = b6.push(0x65u8);
    lemma_fnv_push(0xcbf2_9ce4_8422_2325u64, b6, 0x65u8);
    assert(fnv_step(0xf434_e8cb_0e0b_b794u64, 0x65u8) == 0x019f_8208_dde9_8e83u64) by (bit_vector);
    let b8 = b7.push(0x71u8);
    lemma_fnv_push(0xcbf2_9ce4_8422_2325u64, b7, 0x71u8);
    assert(fnv_step(0x019f_8208_dde9_8e83u64, 0x71u8) == 0xab98_e711_13dd_e536u64) by (bit_vector);
    let b9 = b8.push(0x75u8);
    lemma_fnv_push(0xcbf2_9ce4_8422_2325u64, b8, 0x75u8);
    assert(fnv_step(0xab98_e711_13dd_e536u64, 0x75u8) == 0x72b5_e504_c20c_90d9u64) by (bit_vector);
    let b10 = b9.push(0x65u8);
    lemma_fnv_push(0xcbf2_9ce4_8422_2325u64, b9, 0x65u8);
    assert(fnv_step(0x72b5_e504_c20c_90d9u64, 0x65u8) == 0xf7a4_e315_bb59_ef74u64) by (bit_vector);
    let b11 = b10.push(0x73u8);
    lemma_fnv_push(0xcbf2_9ce4_8422_2325u64, b10, 0x73u8);
    assert(fnv_step(0xf7a4_e315_bb59_ef74u64, 0x73u8) == 0x271c_e4ed_59d1_28e5u64) by (bit_vector);
    let b12 = b11.push(0x74u8);
    lemma_fnv_push(0xcbf2_9ce4_8422_2325u64, b11, 0x74u8);
    assert(fnv_step(0x271c_e4ed_59d1_28e5u64, 0x74u8) == 0x4741_904f_9e67_ee63u64) by (bit_vector);
    let b13 = b12.push(0x73u8);
    lemma_fnv_push(0xcbf2_9ce4_8422_2325u64, b12, 0x73u8);
    assert(fnv_step(0x4741_904f_9e67_ee63u64, 0x73u8) == 0x7c56_474a_2a99_8530u64) by (bit_vector);
    let b14 = b13.push(0x5fu8);
    lemma_fnv_push(0xcbf2_9ce4_8422_2325u64, b13, 0x5fu8);
    assert(fnv_step(0x7c56_474a_2a99_8530u64, 0x5fu8) == 0xe020_9206_62dd_bb9du64) by (bit_vector);
    assert(b14 =~= shared_bytes());
}

/// The identity of the request counter in a registry.
pub proof fn lemma_count_series_id()
    ensures
        series_id(count_series_name()) == 0x4217_265b_99da_9aceu64,
{
    lemma_shared_hash();
    reveal_strlit("http_requests_total");
    vstd::utf8::is_ascii_chars_encode_utf8(count_series_name());
    let b0: Seq<u8> = shared_bytes();
    let b1 = b0.push(0x74u8);
    lemma_fnv_push(0xcbf2_9ce4_8422_2325u64, b0, 0x74u8);
    assert(fnv_step(0xe020_9206_62dd_bb9du64, 0x74u8) == 0xb514_09d9_fec6_4cebu64) by (bit_vector);
    let b2 = b1.push(0x6fu8);
    lemma_fnv_push(0xcbf2_9ce4_8422_2325u64, b1, 0x6fu8);
    assert(fnv_step(0xb514_09d9_fec6_4cebu64, 0x6fu8) == 0x7759_416b_eaf4_044cu64) by (bit_vector);
    let b3 = b2.push(0x74u8);
    lemma_fnv_push(0xcbf2_9ce4_8422_2325u64, b2, 0x74u8);
    assert(fnv_step(0x7759_416b_eaf4_044cu64, 0x74u8) == 0xc0ae_6260_3ca3_2b28u64) by (bit_vector);
    let b4 = b3.push(0x61u8);
    lemma_fnv_push(0xcbf2_9ce4_8422_2325u64, b3, 0x61u8);
    assert(fnv_step(0xc0ae_6260_3ca3_2b28u64, 0x61u8) == 0x0b7c_7287_0942_8d0bu64) by (bit_vector);
    let b5 = b4.push(0x6cu8);
    lemma_fnv_push(0xcbf2_9ce4_8422_2325u64, b4, 0x6cu8);
    assert(fnv_step(0x0b7c_7287_0942_8d0bu64, 0x6cu8) == 0xc704_0274_bc16_4605u64) by (bit_vector);
    let b6 = b5.push(0xffu8);
    lemma_fnv_push(0xcbf2_9ce4_8422_2325u64, b5, 0xffu8);
    assert(fnv_step(0xc704_0274_bc16_4605u64, 0xffu8) == 0x4217_265b_99da_9aceu64) by (bit_vector);
    assert(vstd::utf8::encode_utf8(count_series_name()) + seq![0xffu8] =~= b6);
}

/// The identity of the duration histogram in a registry.
pub proof fn lemma_duration_series_id()
    ensures
        series_id(duration_series_name()) == 0x0863_e065_927b_dcecu64,
{
    lemma_shared_hash();
    reveal_strlit("http_requests_duration_seconds");
    vstd::utf8::is_ascii_chars_encode_utf8(duration_series_name());
    let b0: Seq<u8> = shared_bytes();
    let b1 = b0.push(0x64u8);
    lemma_fnv_push(0xcbf2_9ce4_8422_2325u64, b0, 0x64u8);
    assert(fnv_step(0xe020_9206_62dd_bb9du64, 0x64u8) == 0xb514_19d9_fec6_681bu64) by (bit_vector);
    let b2 = b1.push(0x75u8);
    lemma_fnv_push(0xcbf2_9ce4_8422_2325u64, b1, 0x75u8);
    assert(fnv_step(0xb514_19d9_fec6_681bu64, 0x75u8) == 0x7790_5b6b_eb23_72eau64) by (bit_vector);
    let b3 = b2.push(0x72u8);
    lemma_fnv_push(0xcbf2_9ce4_8422_2325u64, b2, 0x72u8);
    assert(fnv_step(0x7790_5b6b_eb23_72eau64, 0x72u8) == 0x4dbd_f060_8d3b_b848u64) by (bit_vector);
    let b4 = b3.push(0x61u8);
    lemma_fnv_push(0xcbf2_9ce4_8422_2325u64, b3, 0x61u8);
    assert(fnv_step(0x4dbd_f060_8d3b_b848u64, 0x61u8) == 0x5577_9d0f_fc79_edabu64) by (bit_vector);
    let b5 = b4.push(0x74u8);
    lemma_fnv_push(0xcbf2_9ce4_8422_2325u64, b4, 0x74u8);
    assert(fnv_step(0x5577_9d0f_fc79_edabu64, 0x74u8) == 0xb42d_c12a_032f_31edu64) by (bit_vector);
    let b6 = b5.push(0x69u8);
    lemma_fnv_push(0xcbf2_9ce4_8422_2325u64, b5, 0x69u8);
    assert(fnv_step(0xb42d_c12a_032f_31edu64, 0x69u8) == 0x58f0_be63_6931_234cu64) by (bit_vector);
    let b7 = b6.push(0x6fu8);
    lemma_fnv_push(0xcbf2_9ce4_8422_2325u64, b6, 0x6fu8);
    assert(fnv_step(0x58f0_be63_6931_234cu64, 0x6fu8) == 0x5236_a5eb_be7e_b479u64) by (bit_vector);
    let b8 = b7.push(0x6eu8);
    lemma_fnv_push(0xcbf2_9ce4_8422_2325u64, b7, 0x6eu8);
    assert(fnv_step(0x5236_a5eb_be7e_b479u64, 0x6eu8) == 0x3190_0694_b14c_0315u64) by (bit_vector);
    let b9 = b8.push(0x5fu8);
    lemma_fnv_push(0xcbf2_9ce4_8422_2325u64, b8, 0x5fu8);
    assert(fnv_step(0x3190_0694_b14c_0315u64, 0x5fu8) == 0x83be_78a9_4429_96beu64) by (bit_vector);
    let b10 = b9.push(0x73u8);
    lemma_fnv_push(0xcbf2_9ce4_8422_2325u64, b9, 0x73u8);
    assert(fnv_step(0x83be_78a9_4429_96beu64, 0x73u8) == 0x063d_d49e_d2ab_3e57u64) by (bit_vector);
    let b11 = b10.push(0x65u8);
    lemma_fnv_push(0xcbf2_9ce4_8422_2325u64, b10, 0x65u8);
    assert(fnv_step(0x063d_d49e_d2ab_3e57u64, 0x65u8) == 0x464e_7bdf_f8fa_aef6u64) by (bit_vector);
    let b12 = b11.push(0x63u8);
    lemma_fnv_push(0xcbf2_9ce4_8422_2325u64, b11, 0x63u8);
    assert(fnv_step(0x464e_7bdf_f8fa_aef6u64, 0x63u8) == 0x720b_1294_11f6_a72fu64) by (bit_vector);
    let b13 = b12.push(0x6fu8);
    lemma_fnv_push(0xcbf2_9ce4_8422_2325u64, b12, 0x6fu8);
    assert(fnv_step(0x720b_1294_11f6_a72fu64, 0x6fu8) == 0xbf77_d19a_861e_31c0u64) by (bit_vector);
    let b14 = b13.push(0x6eu8);
    lemma_fnv_push(0xcbf2_9ce4_8422_2325u64, b13, 0x6eu8);
    assert(fnv_step(0xbf77_d19a_861e_31c0u64, 0x6eu8) == 0x76ca_d791_e54e_6aaau64) by (bit_vector);
    let b15 = b14.push(0x64u8);
    lemma_fnv_push(0xcbf2_9ce4_8422_2325u64, b14, 0x64u8);
    assert(fnv_step(0x76ca_d791_e54e_6aaau64, 0x64u8) == 0x2917_1ae8_a43f_7c0au64) by (bit_vector);
    let b16 = b15.push(0x73u8);
    lemma_fnv_push(0xcbf2_9ce4_8422_2325u64, b15, 0x73u8);
    assert(fnv_step(0x2917_1ae8_a43f_7c0au64, 0x73u8) == 0x11bf_324f_17e0_819bu64) by (bit_vector);
    let b17 = b16.push(0xffu8);
    lemma_fnv_push(0xcbf2_9ce4_8422_2325u64, b16, 0xffu8);
    assert(fnv_step(0x11bf_324f_17e0_819bu64, 0xffu8) == 0x0863_e065_927b_dcecu64) by (bit_vector);
    assert(vstd::utf8::encode_utf8(duration_series_name()) + seq![0xffu8] =~= b17);
}

/// The two series of a collector have different identities, so a registry
/// that holds one of them still takes the other.
pub proof fn lemma_series_ids_differ()
    ensures
        series_id(count_series_name()) != series_id(duration_series_name()),
{
    lemma_count_series_id();
    lemma_duration_series_id();
}

} // verus!
