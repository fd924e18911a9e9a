//! What holds of the cipher as a whole: decryption undoes encryption, the
//! key schedule is a function of the key, and the round function is
//! one-to-one in its data word.

use crate::feal::{
    bytes16, bytes32, decrypt_index_map, decrypt_order, decryption, encryption, feal_core,
    feistel_round, feistel_rounds, halves64, key_schedule, mix, pack16, pack32, pack8, round_bytes,
    round_fn, rotl2,
};
use vstd::prelude::*;

verus! {

/// Exclusive or with the same word twice changes nothing.
proof fn lemma_xor_cancel_u32(a: u32, b: u32)
    by (bit_vector)
    ensures
        (a ^ b) ^ b == a,
        a ^ (b ^ a) == b,
        (a ^ b) ^ a == b,
{
}

/// Whitening with the same word twice changes nothing.
proof fn lemma_xor_cancel_u64(x: u64, w: u64)
    by (bit_vector)
    ensures
        (x ^ w) ^ w == x,
{
}

/// A round under the same subkey, applied to the exchanged halves of a
/// round's output, gives back the exchanged halves of its input.
proof fn lemma_round_undone(k: u16, left: u32, right: u32)
    ensures
        ({
            let (l, r) = feistel_round(k, left, right);
            feistel_round(k, r, l) == (right, left)
        }),
{
    lemma_xor_cancel_u32(left, round_fn(k, right));
}

/// Running `j` rounds under the reversed round subkeys, from the exchanged
/// halves that eight forward rounds end in, leads to the exchanged halves
/// that `8 - j` forward rounds end in.
proof fn lemma_rounds_unwound(k: Seq<u16>, kd: Seq<u16>, left: u32, right: u32, j: nat)
    requires
        k.len() >= 8,
        kd.len() >= 8,
        forall|i: int| 0 <= i < 8 ==> kd[i] == k[7 - i],
        j <= 8,
    ensures
        ({
            let end = feistel_rounds(k, left, right, 8);
            let back = feistel_rounds(k, left, right, (8 - j) as nat);
            feistel_rounds(kd, end.1, end.0, j) == (back.1, back.0)
        }),
    decreases j,
{
    if j > 0 {
        lemma_rounds_unwound(k, kd, left, right, (j - 1) as nat);
        let before = feistel_rounds(k, left, right, (8 - j) as nat);
        lemma_round_undone(k[8 - j], before.0, before.1);
    }
}

/// The Feistel core under the subkeys in decryption order undoes the Feistel
/// core under the subkeys as they stand, whatever the sixteen subkeys are.
pub proof fn theorem_core_inverts(k: Seq<u16>, block: u64)
    requires
        k.len() == 16,
    ensures
        feal_core(decrypt_order(k), feal_core(k, block)) == block,
{
    let kd = decrypt_order(k);
    let win = pack16(k[8], k[9], k[10], k[11]);
    let wout = pack16(k[12], k[13], k[14], k[15]);
    let (l0, r0) = halves64(block ^ win);
    let (l8, r8) = feistel_rounds(k, l0, l0 ^ r0, 8);
    // Decryption strips the output whitening and finds the halves exchanged:
    // it starts its rounds from `(r8, l8)`.
    lemma_xor_cancel_u64(pack32(r8, l8 ^ r8), wout);
    lemma_xor_cancel_u32(r8, l8);
    // Its rounds run under the round subkeys in reverse and end in
    // `(l0 ^ r0, l0)`.
    assert forall|i: int| 0 <= i < 8 implies kd[i] == k[7 - i] by {}
    lemma_rounds_unwound(k, kd, l0, l0 ^ r0, 8);
    // Joining the halves gives the whitened block, and the input whitening
    // comes off last.
    lemma_xor_cancel_u32(l0, r0);
    lemma_xor_cancel_u64(block, win);
}

/// Decryption undoes encryption: for every key and every block,
/// decrypting the ciphertext under the same key gives the plaintext back.
pub proof fn theorem_decrypt_inverts_encrypt(key: u64, plaintext: u64)
    ensures
        decryption(key, encryption(key, plaintext)) == plaintext,
{
    theorem_core_inverts(key_schedule(halves64(key).0, halves64(key).1), plaintext);
}

/// Putting subkeys into decryption order twice gives them back as they
/// stood.
pub proof fn theorem_decrypt_order_twice(k: Seq<u16>)
    requires
        k.len() == 16,
    ensures
        decrypt_order(decrypt_order(k)) == k,
{
    let map = decrypt_index_map();
    assert forall|i: int| 0 <= i < 16 implies 0 <= #[trigger] map[i] < 16 && map[map[i]] == i by {}
}

/// The Feistel core under the subkeys as they stand undoes the Feistel core
/// under the subkeys in decryption order.
pub proof fn theorem_core_inverts_backwards(k: Seq<u16>, block: u64)
    requires
        k.len() == 16,
    ensures
        feal_core(k, feal_core(decrypt_order(k), block)) == block,
{
    theorem_decrypt_order_twice(k);
    theorem_core_inverts(decrypt_order(k), block);
}

/// Encryption undoes decryption: for every key and every block, encrypting
/// the decrypted block under the same key gives the block back.
pub proof fn theorem_encrypt_inverts_decrypt(key: u64, ciphertext: u64)
    ensures
        encryption(key, decryption(key, ciphertext)) == ciphertext,
{
    theorem_core_inverts_backwards(key_schedule(halves64(key).0, halves64(key).1), ciphertext);
}

/// The key schedule is a function of the key alone: equal halves give
/// equal subkeys, sixteen of them.
pub proof fn theorem_key_schedule_determined(a1: u32, b1: u32, a2: u32, b2: u32)
    requires
        a1 == a2,
        b1 == b2,
    ensures
        key_schedule(a1, b1) == key_schedule(a2, b2),
        key_schedule(a1, b1).len() == 16,
{
}

/// The rotated sum is one-to-one in each of the two bytes added.
proof fn lemma_rotated_sum_cancel(x: u8, a: u8, b: u8, a2: u8, b2: u8)
    by (bit_vector)
    ensures
        rotl2(((a + b + x) % 0x100) as u8) == rotl2(((a2 + b + x) % 0x100) as u8) ==> a == a2,
        rotl2(((a + b + x) % 0x100) as u8) == rotl2(((a + b2 + x) % 0x100) as u8) ==> b == b2,
{
}

/// The mixing primitive is one-to-one in each of its two operands.
proof fn lemma_mix_cancel(x: u8, a: u8, b: u8, a2: u8, b2: u8)
    ensures
        mix(x, a, b) == mix(x, a2, b) ==> a == a2,
        mix(x, a, b) == mix(x, a, b2) ==> b == b2,
{
    reveal(mix);
    lemma_rotated_sum_cancel(x, a, b, a2, b2);
}

/// Exclusive or with a fixed byte is one-to-one.
proof fn lemma_xor_cancel_u8(a: u8, b: u8, b2: u8)
    by (bit_vector)
    ensures
        a ^ b == a ^ b2 ==> b == b2,
        b ^ a == b2 ^ a ==> b == b2,
{
}

/// The byte network of the round function is one-to-one.
proof fn lemma_round_bytes_one_to_one(a: u8, b: u8, c: u8, d: u8, a2: u8, b2: u8, c2: u8, d2: u8)
    requires
        round_bytes(a, b, c, d) == round_bytes(a2, b2, c2, d2),
    ensures
        a == a2,
        b == b2,
        c == c2,
        d == d2,
{
    let v3 = mix(1, a ^ b, c ^ d);
    let v4 = mix(0, c ^ d, v3);
    lemma_mix_cancel(0, a, v3, a2, v3);
    lemma_mix_cancel(1, d, v4, d2, v4);
    lemma_mix_cancel(0, c ^ d, v3, c2 ^ d2, v3);
    lemma_mix_cancel(1, a ^ b, c ^ d, a2 ^ b2, c ^ d);
    lemma_xor_cancel_u8(a, b, b2);
    lemma_xor_cancel_u8(d, c, c2);
}

/// Words with the same four bytes are the same.
proof fn lemma_bytes32_one_to_one(x: u32, y: u32)
    by (bit_vector)
    requires
        x / 0x100_0000 == y / 0x100_0000,
        x / 0x1_0000 % 0x100 == y / 0x1_0000 % 0x100,
        x / 0x100 % 0x100 == y / 0x100 % 0x100,
        x % 0x100 == y % 0x100,
    ensures
        x == y,
{
}

/// Bytes that join into the same word are the same.
proof fn lemma_pack8_one_to_one(a: u8, b: u8, c: u8, d: u8, a2: u8, b2: u8, c2: u8, d2: u8)
    by (bit_vector)
    requires
        a * 0x100_0000 + b * 0x1_0000 + c * 0x100 + d == a2 * 0x100_0000 + b2 * 0x1_0000 + c2
            * 0x100 + d2,
    ensures
        a == a2,
        b == b2,
        c == c2,
        d == d2,
{
}

/// The round function is one-to-one in its data word: under one subkey, two
/// data words that differ in any bit have different images.
pub proof fn theorem_round_fn_one_to_one(subkey: u16, value1: u32, value2: u32)
    requires
        value1 != value2,
    ensures
        round_fn(subkey, value1) != round_fn(subkey, value2),
{
    reveal(round_fn);
    let (k0, k1) = bytes16(subkey);
    let (a0, a1, a2, a3) = bytes32(value1);
    let (c0, c1, c2, c3) = bytes32(value2);
    if round_fn(subkey, value1) == round_fn(subkey, value2) {
        let p = round_bytes(a0, k0 ^ a1, k1 ^ a2, a3);
        let q = round_bytes(c0, k0 ^ c1, k1 ^ c2, c3);
        lemma_pack8_one_to_one(p.0, p.1, p.2, p.3, q.0, q.1, q.2, q.3);
        lemma_round_bytes_one_to_one(a0, k0 ^ a1, k1 ^ a2, a3, c0, k0 ^ c1, k1 ^ c2, c3);
        lemma_xor_cancel_u8(k0, a1, c1);
        lemma_xor_cancel_u8(k1, a2, c2);
        lemma_bytes32_one_to_one(value1, value2);
    }
}

} // verus!
