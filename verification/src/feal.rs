//! The FEAL cipher: byte-level mixing, round function, key schedule and the
//! eight-round Feistel network with whitening.
//!
//! Every executable function is specified by a spec function of the same
//! shape. Words are always cut and joined most-significant part first.

use crate::feal_theorems::{theorem_decrypt_inverts_encrypt, theorem_encrypt_inverts_decrypt};
use vstd::prelude::*;

verus! {

/// The upper and lower 32-bit halves of a 64-bit word.
pub open spec fn halves64(inp: u64) -> (u32, u32) {
    ((inp / 0x1_0000_0000) as u32, (inp % 0x1_0000_0000) as u32)
}

/// The 64-bit word whose upper half is `a` and whose lower half is `b`.
pub open spec fn pack32(a: u32, b: u32) -> u64 {
    (a * 0x1_0000_0000 + b) as u64
}

/// The 64-bit word made of four 16-bit parts, `a` uppermost.
pub open spec fn pack16(a: u16, b: u16, c: u16, d: u16) -> u64 {
    (a * 0x1_0000_0000_0000 + b * 0x1_0000_0000 + c * 0x1_0000 + d) as u64
}

/// The four bytes of a 32-bit word, uppermost first.
pub open spec fn bytes32(inp: u32) -> (u8, u8, u8, u8) {
    (
        (inp / 0x100_0000) as u8,
        (inp / 0x1_0000 % 0x100) as u8,
        (inp / 0x100 % 0x100) as u8,
        (inp % 0x100) as u8,
    )
}

/// The 32-bit word made of four bytes, `a` uppermost.
pub open spec fn pack8(a: u8, b: u8, c: u8, d: u8) -> u32 {
    (a * 0x100_0000 + b * 0x1_0000 + c * 0x100 + d) as u32
}

/// The 64-bit word made of eight bytes, the first uppermost.
pub open spec fn pack64(bytes: Seq<u8>) -> u64 {
    (bytes[0] * 0x100_0000_0000_0000 + bytes[1] * 0x1_0000_0000_0000 + bytes[2]
        * 0x100_0000_0000 + bytes[3] * 0x1_0000_0000 + bytes[4] * 0x100_0000 + bytes[5] * 0x1_0000
        + bytes[6] * 0x100 + bytes[7]) as u64
}

/// The upper and lower 16-bit halves of a 32-bit word.
pub open spec fn halves32(inp: u32) -> (u16, u16) {
    ((inp / 0x1_0000) as u16, (inp % 0x1_0000) as u16)
}

/// The upper and lower byte of a 16-bit word.
pub open spec fn bytes16(inp: u16) -> (u8, u8) {
    ((inp / 0x100) as u8, (inp % 0x100) as u8)
}

/// A byte rotated left by two bit positions.
pub open spec fn rotl2(v: u8) -> u8 {
    (v * 4 % 0x100 + v / 0x40) as u8
}

/// The mixing primitive: the sum of the three bytes modulo 256, rotated left
/// by two bits.
#[verifier::opaque]
pub open spec fn mix(x: u8, a: u8, b: u8) -> u8 {
    rotl2(((a + b + x) % 0x100) as u8)
}

/// Splits a 64-bit word into its upper and lower 32-bit halves.
pub fn u64tou32(inp: u64) -> (r: (u32, u32))
    ensures
        r == halves64(inp),
{
    let a = ((inp >> 32) & 0x00ffffffff) as u32;
    let b = ((inp >> 0) & 0x00ffffffff) as u32;
    assert(((inp >> 32) & 0x00ffffffff) as u32 == (inp / 0x1_0000_0000) as u32 && ((inp >> 0)
        & 0x00ffffffff) as u32 == (inp % 0x1_0000_0000) as u32) by (bit_vector);
    (a, b)
}

/// Joins two 32-bit halves into a 64-bit word, `a` uppermost.
pub fn u32tou64(a: u32, b: u32) -> (r: u64)
    ensures
        r == pack32(a, b),
{
    let number = ((a as u64) << 32) | b as u64;
    assert(((a as u64) << 32) | b as u64 == (a * 0x1_0000_0000 + b) as u64) by (bit_vector);
    number
}

/// Joins four 16-bit parts into a 64-bit word, `a` uppermost.
pub fn u16tou64(a: u16, b: u16, c: u16, d: u16) -> (r: u64)
    ensures
        r == pack16(a, b, c, d),
{
    let number = ((a as u64) << 48) | ((b as u64) << 32) | ((c as u64) << 16) | d as u64;
    assert(((a as u64) << 48) | ((b as u64) << 32) | ((c as u64) << 16) | d as u64 == (a
        * 0x1_0000_0000_0000 + b * 0x1_0000_0000 + c * 0x1_0000 + d) as u64) by (bit_vector);
    number
}

/// Splits a 32-bit word into its four bytes, uppermost first.
pub fn u32tou8(inp: u32) -> (r: (u8, u8, u8, u8))
    ensures
        r == bytes32(inp),
{
    let a = ((inp >> 24) & 0x00ff) as u8;
    let b = ((inp >> 16) & 0x00ff) as u8;
    let c = ((inp >> 8) & 0x00ff) as u8;
    let d = ((inp >> 0) & 0x00ff) as u8;
    assert(((inp >> 24) & 0x00ff) as u8 == (inp / 0x100_0000) as u8 && ((inp >> 16) & 0x00ff) as u8
        == (inp / 0x1_0000 % 0x100) as u8 && ((inp >> 8) & 0x00ff) as u8 == (inp / 0x100
        % 0x100) as u8 && ((inp >> 0) & 0x00ff) as u8 == (inp % 0x100) as u8) by (bit_vector);
    (a, b, c, d)
}

/// Joins four bytes into a 32-bit word, `a` uppermost.
pub fn u8tou32(a: u8, b: u8, c: u8, d: u8) -> (r: u32)
    ensures
        r == pack8(a, b, c, d),
{
    let number = ((a as u32) << 24) | ((b as u32) << 16) | ((c as u32) << 8) | d as u32;
    assert(((a as u32) << 24) | ((b as u32) << 16) | ((c as u32) << 8) | d as u32 == (a
        * 0x100_0000 + b * 0x1_0000 + c * 0x100 + d) as u32) by (bit_vector);
    number
}

/// Joins eight bytes into a 64-bit word, the first uppermost.
pub fn u8tou64(bytes: [u8; 8]) -> (r: u64)
    ensures
        r == pack64(bytes@),
{
    let a: u64 = bytes[0] as u64;
    let b: u64 = bytes[1] as u64;
    let c: u64 = bytes[2] as u64;
    let d: u64 = bytes[3] as u64;
    let e: u64 = bytes[4] as u64;
    let f: u64 = bytes[5] as u64;
    let g: u64 = bytes[6] as u64;
    let h: u64 = bytes[7] as u64;
    assert((a << 56) | (b << 48) | (c << 40) | (d << 32) | (e << 24) | (f << 16) | (g << 8) | h
        == a * 0x100_0000_0000_0000 + b * 0x1_0000_0000_0000 + c * 0x100_0000_0000 + d
        * 0x1_0000_0000 + e * 0x100_0000 + f * 0x1_0000 + g * 0x100 + h) by (bit_vector)
        requires
            a < 0x100,
            b < 0x100,
            c < 0x100,
            d < 0x100,
            e < 0x100,
            f < 0x100,
            g < 0x100,
            h < 0x100,
    ;
    (a << 56) | (b << 48) | (c << 40) | (d << 32) | (e << 24) | (f << 16) | (g << 8) | h
}

/// Splits a 32-bit word into its upper and lower 16-bit halves.
pub fn u32tou16(inp: u32) -> (r: (u16, u16))
    ensures
        r == halves32(inp),
{
    let a = ((inp >> 16) & 0x00ffff) as u16;
    let b = ((inp >> 0) & 0x00ffff) as u16;
    assert(((inp >> 16) & 0x00ffff) as u16 == (inp / 0x1_0000) as u16 && ((inp >> 0)
        & 0x00ffff) as u16 == (inp % 0x1_0000) as u16) by (bit_vector);
    (a, b)
}

/// Splits a 16-bit word into its upper and lower byte.
pub fn u16tou8(inp: u16) -> (r: (u8, u8))
    ensures
        r == bytes16(inp),
{
    let a = ((inp >> 8) & 0x00ff) as u8;
    let b = ((inp >> 0) & 0x00ff) as u8;
    assert(((inp >> 8) & 0x00ff) as u8 == (inp / 0x100) as u8 && ((inp >> 0) & 0x00ff) as u8 == (
    inp % 0x100) as u8) by (bit_vector);
    (a, b)
}

/// The mixing primitive: adds the three bytes modulo 256 and rotates the sum
/// left by two bits.
pub fn gx(x: u8, a: u8, b: u8) -> (r: u8)
    ensures
        r == mix(x, a, b),
        0 <= r <= 255,
{
    reveal(mix);
    let sum = a.wrapping_add(b).wrapping_add(x);
    let rot = ((sum << 2) & 0xfc) | ((sum & 0xc0) >> 6);
    assert(sum == ((a + b + x) % 0x100) as u8) by {
        assert(a.wrapping_add(b) == (a + b) % 0x100);
    }
    assert(((sum << 2) & 0xfc) | ((sum & 0xc0) >> 6) == (sum * 4 % 0x100 + sum / 0x40) as u8)
        by (bit_vector);
    rot
}

/// The mixing primitive with selector 0.
pub fn g0(inp1: u8, inp2: u8) -> (r: u8)
    ensures
        r == mix(0, inp1, inp2),
{
    gx(0, inp1, inp2)
}

/// The mixing primitive with selector 1.
pub fn g1(inp1: u8, inp2: u8) -> (r: u8)
    ensures
        r == mix(1, inp1, inp2),
{
    gx(1, inp1, inp2)
}

/// The byte network of the round function, on four bytes that already hold
/// the subkey: output bytes in order.
pub open spec fn round_bytes(a: u8, b: u8, c: u8, d: u8) -> (u8, u8, u8, u8) {
    let v1 = a ^ b;
    let v2 = c ^ d;
    let v3 = mix(1, v1, v2);
    let v4 = mix(0, v2, v3);
    let v5 = mix(0, a, v3);
    let v6 = mix(1, d, v4);
    (v5, v3, v4, v6)
}

/// The round function: the subkey's two bytes are folded into the two middle
/// bytes of the data word, and the four bytes go through `round_bytes`.
#[verifier::opaque]
pub open spec fn round_fn(subkey: u16, value: u32) -> u32 {
    let (b0, b1) = bytes16(subkey);
    let (a0, a1, a2, a3) = bytes32(value);
    let (v5, v3, v4, v6) = round_bytes(a0, b0 ^ a1, b1 ^ a2, a3);
    pack8(v5, v3, v4, v6)
}

/// The byte network of the key-mixing function: output bytes in order.
pub open spec fn key_mix_bytes(a0: u8, a1: u8, a2: u8, a3: u8, b0: u8, b1: u8, b2: u8, b3: u8) -> (
    u8,
    u8,
    u8,
    u8,
) {
    let v1 = a0 ^ a1;
    let v2 = a2 ^ a3;
    let v3 = v2 ^ b0;
    let v4 = mix(1, v1, v3);
    let v5 = v4 ^ b1;
    let v6 = mix(0, v2, v5);
    let v7 = v6 ^ b3;
    let v8 = v4 ^ b2;
    (mix(0, a0, v8), v4, v6, mix(1, a3, v7))
}

/// The key-mixing function on two 32-bit words.
#[verifier::opaque]
pub open spec fn key_mix(a: u32, b: u32) -> u32 {
    let (a0, a1, a2, a3) = bytes32(a);
    let (b0, b1, b2, b3) = bytes32(b);
    let (f1, f2, f3, f4) = key_mix_bytes(a0, a1, a2, a3, b0, b1, b2, b3);
    pack8(f1, f2, f3, f4)
}

/// One round of the key schedule on the registers `(a, b, d)`: the two
/// subkeys it emits, then the registers of the next round.
pub open spec fn key_step(a: u32, b: u32, d: u32) -> (u16, u16, u32, u32, u32) {
    let v = b ^ d;
    let k01 = key_mix(a, v);
    (halves32(k01).0, halves32(k01).1, v, a, k01)
}

/// The registers `(a, b, d)` of the key schedule after `n` rounds, started
/// from `(a0, b0, 0)`.
pub open spec fn key_state(a0: u32, b0: u32, n: nat) -> (u32, u32, u32)
    decreases n,
{
    if n == 0 {
        (a0, b0, 0)
    } else {
        let (a, b, d) = key_state(a0, b0, (n - 1) as nat);
        let step = key_step(a, b, d);
        (step.2, step.3, step.4)
    }
}

/// The subkey with index `i`: round `i / 2` of the schedule emits the
/// subkeys `2 * (i / 2)` and `2 * (i / 2) + 1`.
pub open spec fn subkey_at(a0: u32, b0: u32, i: int) -> u16 {
    let (a, b, d) = key_state(a0, b0, (i / 2) as nat);
    let step = key_step(a, b, d);
    if i % 2 == 0 {
        step.0
    } else {
        step.1
    }
}

/// The sixteen subkeys that the key schedule derives from the two halves of
/// a key.
pub open spec fn key_schedule(a0: u32, b0: u32) -> Seq<u16> {
    Seq::new(16, |i: int| subkey_at(a0, b0, i))
}

/// The byte network of the round function.
pub fn fyoutube(a: u8, b: u8, c: u8, d: u8) -> (r: (u8, u8, u8, u8))
    ensures
        r == round_bytes(a, b, c, d),
{
    let v1 = a ^ b;
    let v2 = c ^ d;
    let v3 = g1(v1, v2);
    let v4 = g0(v2, v3);
    let v5 = g0(a, v3);
    let v6 = g1(d, v4);
    (v5, v3, v4, v6)
}

/// The round function of the cipher, on a 16-bit subkey `b` and a 32-bit data
/// word `a`.
pub fn f(b: u16, a: u32) -> (r: u32)
    ensures
        r == round_fn(b, a),
{
    let (b0, b1) = u16tou8(b);
    let (a0, a1, a2, a3) = u32tou8(a);
    let (ap, bp, cp, dp) = fyoutube(a0, b0 ^ a1, b1 ^ a2, a3);
    reveal(round_fn);
    u8tou32(ap, bp, cp, dp)
}

/// The byte network of the key-mixing function.
pub fn fk(a0: u8, a1: u8, a2: u8, a3: u8, b0: u8, b1: u8, b2: u8, b3: u8) -> (r: (u8, u8, u8, u8))
    ensures
        r == key_mix_bytes(a0, a1, a2, a3, b0, b1, b2, b3),
{
    let v1 = a0 ^ a1;
    let v2 = a2 ^ a3;
    let v3 = v2 ^ b0;
    let v4 = g1(v1, v3);
    let v5 = v4 ^ b1;
    let v6 = g0(v2, v5);
    let v7 = v6 ^ b3;
    let v8 = v4 ^ b2;
    let f1 = g0(a0, v8);
    let f2 = v4;
    let f3 = v6;
    let f4 = g1(a3, v7);
    (f1, f2, f3, f4)
}

/// The key-mixing function on two 32-bit words.
pub fn fk32(a: u32, b: u32) -> (r: u32)
    ensures
        r == key_mix(a, b),
{
    let (a0, a1, a2, a3) = u32tou8(a);
    let (b0, b1, b2, b3) = u32tou8(b);
    let (o0, o1, o2, o3) = fk(a0, a1, a2, a3, b0, b1, b2, b3);
    reveal(key_mix);
    u8tou32(o0, o1, o2, o3)
}

/// One round of the key schedule: returns the two subkeys of the round and
/// the registers `(a, b, d)` of the next round.
pub fn keyround(a0: u32, b0: u32, d0: u32) -> (r: (u16, u16, u32, u32, u32))
    ensures
        r == key_step(a0, b0, d0),
{
    let v = b0 ^ d0;
    let k01 = fk32(a0, v);
    let (k0, k1) = u32tou16(k01);
    (k0, k1, v, a0, k01)
}

/// The key schedule: sixteen subkeys from the two 32-bit halves of a key.
pub fn keygen(a: u32, b: u32) -> (r: [u16; 16])
    ensures
        r@.len() == 16,
        r@ == key_schedule(a, b),
{
    let mut d: u32 = 0;
    let mut subkeys: [u16; 16] = [0_u16;16];
    let ghost a0 = a;
    let ghost b0 = b;
    let (mut a, mut b) = (a, b);
    for idx in 0..8usize
        invariant
            (a, b, d) == key_state(a0, b0, idx as nat),
            forall|j: int| 0 <= j < 2 * idx ==> subkeys@[j] == subkey_at(a0, b0, j),
    {
        let (k0, k1, ap, bp, dp) = keyround(a, b, d);
        subkeys[idx * 2] = k0;
        subkeys[idx * 2 + 1] = k1;
        a = ap;
        b = bp;
        d = dp;
    }
    subkeys
}

/// One Feistel round: the right half moves to the left, and the old left
/// half, mixed with the round function of the right half, becomes the right.
pub open spec fn feistel_round(k: u16, left: u32, right: u32) -> (u32, u32) {
    (right, left ^ round_fn(k, right))
}

/// The two halves after the first `n` Feistel rounds, round `i` under the
/// subkey `k[i]`.
pub open spec fn feistel_rounds(k: Seq<u16>, left: u32, right: u32, n: nat) -> (u32, u32)
    decreases n,
{
    if n == 0 {
        (left, right)
    } else {
        let (l, r) = feistel_rounds(k, left, right, (n - 1) as nat);
        feistel_round(k[n - 1], l, r)
    }
}

/// The Feistel core on sixteen subkeys: whitening with subkeys 8 to 11,
/// eight rounds under subkeys 0 to 7, whitening with subkeys 12 to 15.
pub open spec fn feal_core(k: Seq<u16>, block: u64) -> u64 {
    let v = block ^ pack16(k[8], k[9], k[10], k[11]);
    let (l0, r0) = halves64(v);
    let (l8, r8) = feistel_rounds(k, l0, l0 ^ r0, 8);
    pack32(r8, l8 ^ r8) ^ pack16(k[12], k[13], k[14], k[15])
}

/// For each place of the decryption order, the index of the subkey that
/// stands there.
pub open spec fn decrypt_index_map() -> Seq<int> {
    seq![7, 6, 5, 4, 3, 2, 1, 0, 12, 13, 14, 15, 8, 9, 10, 11]
}

/// The subkeys in decryption order: the round subkeys reversed, the two
/// groups of whitening subkeys exchanged.
pub open spec fn decrypt_order(k: Seq<u16>) -> Seq<u16> {
    Seq::new(16, |i: int| k[decrypt_index_map()[i]])
}

/// The ciphertext of `plaintext` under `key`.
pub open spec fn encryption(key: u64, plaintext: u64) -> u64 {
    feal_core(key_schedule(halves64(key).0, halves64(key).1), plaintext)
}

/// The plaintext of `ciphertext` under `key`.
pub open spec fn decryption(key: u64, ciphertext: u64) -> u64 {
    feal_core(decrypt_order(key_schedule(halves64(key).0, halves64(key).1)), ciphertext)
}

/// One Feistel round under the subkey `k`.
pub fn single_round_encrypt(k: u16, left: u32, right: u32) -> (r: (u32, u32))
    ensures
        r == feistel_round(k, left, right),
{
    let intermediate = f(k, right);
    (right, left ^ intermediate)
}

/// The Feistel core: runs the block through whitening, eight rounds and
/// whitening again, under the sixteen subkeys as they stand in `k`.
pub fn feal4_raw(k: [u16; 16], input: u64) -> (r: u64)
    ensures
        r == feal_core(k@, input),
{
    let v1 = input ^ u16tou64(k[8], k[9], k[10], k[11]);
    let (mut left, mut right) = u64tou32(v1);
    let ghost l0 = left;
    let ghost r0 = right;
    right = left ^ right;
    for x in 0..8usize
        invariant
            (left, right) == feistel_rounds(k@, l0, l0 ^ r0, x as nat),
    {
        let (newleft, newright) = single_round_encrypt(k[x], left, right);
        left = newleft;
        right = newright;
    }
    left = left ^ right;
    let combined = u32tou64(right, left);
    combined ^ u16tou64(k[12], k[13], k[14], k[15])
}

/// Encrypts one 64-bit block under a 64-bit key. Decryption under the same
/// key leads back to the plaintext.
pub fn encrypt(keybits: u64, plaintext: u64) -> (r: u64)
    ensures
        r == encryption(keybits, plaintext),
        decryption(keybits, r) == plaintext,
{
    proof {
        theorem_decrypt_inverts_encrypt(keybits, plaintext);
    }
    let (ka, kb) = u64tou32(keybits);
    let k = keygen(ka, kb);
    feal4_raw(k, plaintext)
}

/// Decrypts one 64-bit block under a 64-bit key: the Feistel core on the
/// subkeys in decryption order. The result is the one block that encryption
/// under the same key leads to the ciphertext.
pub fn decrypt(keybits: u64, ciphertext: u64) -> (r: u64)
    ensures
        r == decryption(keybits, ciphertext),
        encryption(keybits, r) == ciphertext,
        forall|plaintext: u64|
            encryption(keybits, plaintext) == ciphertext ==> r == plaintext,
{
    proof {
        theorem_encrypt_inverts_decrypt(keybits, ciphertext);
        assert forall|plaintext: u64| encryption(keybits, plaintext) == ciphertext implies decryption(
            keybits,
            ciphertext,
        ) == plaintext by {
            theorem_decrypt_inverts_encrypt(keybits, plaintext);
        }
    }
    let (ka, kb) = u64tou32(keybits);
    let kraw = keygen(ka, kb);
    let mapping: [usize; 16] = [7, 6, 5, 4, 3, 2, 1, 0, 12, 13, 14, 15, 8, 9, 10, 11];
    let mut k: [u16; 16] = [0_u16;16];
    for dstidx in 0..16usize
        invariant
            mapping@.len() == 16,
            forall|i: int| 0 <= i < 16 ==> mapping@[i] == decrypt_index_map()[i],
            forall|i: int| 0 <= i < dstidx ==> k@[i] == kraw@[decrypt_index_map()[i]],
    {
        k[dstidx] = kraw[mapping[dstidx]];
    }
    assert(k@ =~= decrypt_order(kraw@));
    feal4_raw(k, ciphertext)
}

} // verus!
