//! Mathematical model of the accelerator's data path.
//!
//! The silicon performs the AES block permutation and, for the authenticated
//! mode, a GF(2^128) universal hash over the associated data and the
//! ciphertext. The register-file model in [`crate::periph`] reproduces that
//! data path in software through the `aes` and `ghash` crates. Their results
//! are given names here (`aes128_enc` and friends), and every contract above
//! the register file speaks of those names; the chaining, counter and tag
//! layout around them is ordinary verified code.

use vstd::prelude::*;
use aes::cipher::generic_array::GenericArray;
use aes::cipher::{BlockDecrypt, BlockEncrypt, KeyInit};
use ghash::universal_hash::UniversalHash;

verus! {

/// Result of the AES-128 block encryption of `block` under `key`.
pub uninterp spec fn aes128_enc(key: Seq<u8>, block: Seq<u8>) -> Seq<u8>;

/// Result of the AES-128 block decryption of `block` under `key`.
pub uninterp spec fn aes128_dec(key: Seq<u8>, block: Seq<u8>) -> Seq<u8>;

/// Result of the AES-192 block encryption of `block` under `key`.
pub uninterp spec fn aes192_enc(key: Seq<u8>, block: Seq<u8>) -> Seq<u8>;

/// Result of the AES-192 block decryption of `block` under `key`.
pub uninterp spec fn aes192_dec(key: Seq<u8>, block: Seq<u8>) -> Seq<u8>;

/// Result of the AES-256 block encryption of `block` under `key`.
pub uninterp spec fn aes256_enc(key: Seq<u8>, block: Seq<u8>) -> Seq<u8>;

/// Result of the AES-256 block decryption of `block` under `key`.
pub uninterp spec fn aes256_dec(key: Seq<u8>, block: Seq<u8>) -> Seq<u8>;

/// Result of the GHASH universal hash of `data` under the hash key `h`.
pub uninterp spec fn ghash_of(h: Seq<u8>, data: Seq<u8>) -> Seq<u8>;

/// The key widths the accelerator supports, in bytes.
pub open spec fn valid_key_len(n: int) -> bool {
    n == 16 || n == 24 || n == 32
}

/// AES block encryption, dispatched on the key width.
pub open spec fn aes_enc(key: Seq<u8>, block: Seq<u8>) -> Seq<u8> {
    if key.len() == 16 {
        aes128_enc(key, block)
    } else if key.len() == 24 {
        aes192_enc(key, block)
    } else {
        aes256_enc(key, block)
    }
}

/// AES block decryption, dispatched on the key width.
pub open spec fn aes_dec(key: Seq<u8>, block: Seq<u8>) -> Seq<u8> {
    if key.len() == 16 {
        aes128_dec(key, block)
    } else if key.len() == 24 {
        aes192_dec(key, block)
    } else {
        aes256_dec(key, block)
    }
}

/// Byte-wise exclusive or of two equally long byte strings.
pub open spec fn xor_seq(a: Seq<u8>, b: Seq<u8>) -> Seq<u8> {
    Seq::new(a.len(), |i: int| a[i] ^ b[i])
}

/// Xoring the same mask twice gives the input back; this is what makes the
/// chained and counter modes invertible.
pub proof fn lemma_xor_involutive(a: Seq<u8>, b: Seq<u8>)
    requires
        a.len() == b.len(),
    ensures
        xor_seq(xor_seq(a, b), b) == a,
{
    assert forall|i: int| 0 <= i < a.len() implies xor_seq(xor_seq(a, b), b)[i] == a[i] by {
        let x = a[i];
        let y = b[i];
        assert((x ^ y) ^ y == x) by (bit_vector);
    }
    assert(xor_seq(xor_seq(a, b), b) =~= a);
}

/// The four big-endian bytes of a 32-bit word.
pub open spec fn be32(w: u32) -> Seq<u8> {
    seq![(w >> 24) as u8, (w >> 16) as u8, (w >> 8) as u8, w as u8]
}

/// The eight big-endian bytes of a 64-bit word.
pub open spec fn be64(w: u64) -> Seq<u8> {
    seq![
        (w >> 56) as u8,
        (w >> 48) as u8,
        (w >> 40) as u8,
        (w >> 32) as u8,
        (w >> 24) as u8,
        (w >> 16) as u8,
        (w >> 8) as u8,
        w as u8,
    ]
}

/// `s` extended with zero bytes up to the next multiple of `m`.
pub open spec fn zero_pad(s: Seq<u8>, m: nat) -> Seq<u8> {
    if s.len() % m == 0 {
        s
    } else {
        s + Seq::new((m - s.len() % m) as nat, |i: int| 0u8)
    }
}

/// The all-zero 16-byte block.
pub open spec fn zero_block() -> Seq<u8> {
    Seq::new(16, |i: int| 0u8)
}

/// The counter block the authenticated mode feeds to the block cipher: the
/// 12-byte nonce followed by a 32-bit big-endian counter.
pub open spec fn ctr_block(nonce: Seq<u8>, ctr: u32) -> Seq<u8> {
    nonce + be32(ctr)
}

/// The key-stream block that encrypts the payload block with counter `ctr`.
pub open spec fn gcm_keystream(key: Seq<u8>, nonce: Seq<u8>, ctr: u32) -> Seq<u8> {
    aes_enc(key, ctr_block(nonce, ctr))
}

/// The byte string the tag hash runs over: associated data and ciphertext,
/// each padded to a whole block, then both lengths in bits.
pub open spec fn ghash_input(aad: Seq<u8>, aad_len: int, ct: Seq<u8>) -> Seq<u8> {
    zero_pad(aad, 16) + zero_pad(ct, 16) + be64((aad_len * 8) as u64) + be64((ct.len() * 8) as u64)
}

/// The authentication tag of a session: the hash of associated data and
/// ciphertext under `H = E(K, 0)`, masked with `E(K, J0)` where `J0` is the
/// counter block with counter one.
pub open spec fn gcm_tag(key: Seq<u8>, nonce: Seq<u8>, aad: Seq<u8>, aad_len: int, ct: Seq<u8>) -> Seq<u8> {
    xor_seq(
        aes_enc(key, ctr_block(nonce, 1)),
        ghash_of(aes_enc(key, zero_block()), ghash_input(aad, aad_len, ct)),
    )
}

/// Relies on `aes::Aes128` (`BlockEncrypt::encrypt_block`): the AES-128 block
/// encryption, a function of key and block alone.
#[verifier::external_body]
fn aes128_encrypt_raw(key: &Vec<u8>, block: &Vec<u8>) -> (r: Vec<u8>)
    requires
        key@.len() == 16,
        block@.len() == 16,
    ensures
        r@.len() == 16,
        r@ == aes128_enc(key@, block@),
{
    let c = aes::Aes128::new(GenericArray::from_slice(key.as_slice()));
    let mut b = GenericArray::clone_from_slice(block.as_slice());
    c.encrypt_block(&mut b);
    b.as_slice().to_vec()
}

/// Relies on `aes::Aes128` (`BlockDecrypt::decrypt_block`): the AES-128 block
/// decryption, the inverse permutation of the encryption under the same key,
/// hence the last clause.
#[verifier::external_body]
fn aes128_decrypt_raw(key: &Vec<u8>, block: &Vec<u8>) -> (r: Vec<u8>)
    requires
        key@.len() == 16,
        block@.len() == 16,
    ensures
        r@.len() == 16,
        r@ == aes128_dec(key@, block@),
        forall|p: Seq<u8>| p.len() == 16 && #[trigger] aes128_enc(key@, p) == block@ ==> r@ == p,
{
    let c = aes::Aes128::new(GenericArray::from_slice(key.as_slice()));
    let mut b = GenericArray::clone_from_slice(block.as_slice());
    c.decrypt_block(&mut b);
    b.as_slice().to_vec()
}

/// Relies on `aes::Aes192` (`BlockEncrypt::encrypt_block`); see `aes128_encrypt_raw`.
#[verifier::external_body]
fn aes192_encrypt_raw(key: &Vec<u8>, block: &Vec<u8>) -> (r: Vec<u8>)
    requires
        key@.len() == 24,
        block@.len() == 16,
    ensures
        r@.len() == 16,
        r@ == aes192_enc(key@, block@),
{
    let c = aes::Aes192::new(GenericArray::from_slice(key.as_slice()));
    let mut b = GenericArray::clone_from_slice(block.as_slice());
    c.encrypt_block(&mut b);
    b.as_slice().to_vec()
}

/// Relies on `aes::Aes192` (`BlockDecrypt::decrypt_block`); see `aes128_decrypt_raw`.
#[verifier::external_body]
fn aes192_decrypt_raw(key: &Vec<u8>, block: &Vec<u8>) -> (r: Vec<u8>)
    requires
        key@.len() == 24,
        block@.len() == 16,
    ensures
        r@.len() == 16,
        r@ == aes192_dec(key@, block@),
        forall|p: Seq<u8>| p.len() == 16 && #[trigger] aes192_enc(key@, p) == block@ ==> r@ == p,
{
    let c = aes::Aes192::new(GenericArray::from_slice(key.as_slice()));
    let mut b = GenericArray::clone_from_slice(block.as_slice());
    c.decrypt_block(&mut b);
    b.as_slice().to_vec()
}

/// Relies on `aes::Aes256` (`BlockEncrypt::encrypt_block`); see `aes128_encrypt_raw`.
#[verifier::external_body]
fn aes256_encrypt_raw(key: &Vec<u8>, block: &Vec<u8>) -> (r: Vec<u8>)
    requires
        key@.len() == 32,
        block@.len() == 16,
    ensures
        r@.len() == 16,
        r@ == aes256_enc(key@, block@),
{
    let c = aes::Aes256::new(GenericArray::from_slice(key.as_slice()));
    let mut b = GenericArray::clone_from_slice(block.as_slice());
    c.encrypt_block(&mut b);
    b.as_slice().to_vec()
}

/// Relies on `aes::Aes256` (`BlockDecrypt::decrypt_block`); see `aes128_decrypt_raw`.
#[verifier::external_body]
fn aes256_decrypt_raw(key: &Vec<u8>, block: &Vec<u8>) -> (r: Vec<u8>)
    requires
        key@.len() == 32,
        block@.len() == 16,
    ensures
        r@.len() == 16,
        r@ == aes256_dec(key@, block@),
        forall|p: Seq<u8>| p.len() == 16 && #[trigger] aes256_enc(key@, p) == block@ ==> r@ == p,
{
    let c = aes::Aes256::new(GenericArray::from_slice(key.as_slice()));
    let mut b = GenericArray::clone_from_slice(block.as_slice());
    c.decrypt_block(&mut b);
    b.as_slice().to_vec()
}

/// Relies on `ghash::GHash` (`UniversalHash::update_padded` then `finalize`):
/// the GF(2^128) hash of `data` under the hash key `h`, a function of its
/// arguments alone.
#[verifier::external_body]
pub(crate) fn ghash_raw(h: &Vec<u8>, data: &Vec<u8>) -> (r: Vec<u8>)
    requires
        h@.len() == 16,
    ensures
        r@.len() == 16,
        r@ == ghash_of(h@, data@),
{
    let mut g = ghash::GHash::new(ghash::Key::from_slice(h.as_slice()));
    g.update_padded(data.as_slice());
    g.finalize().as_slice().to_vec()
}

/// One AES block encryption on the loaded key, whichever width it has.
pub fn hw_encrypt(key: &Vec<u8>, block: &Vec<u8>) -> (r: Vec<u8>)
    requires
        valid_key_len(key@.len() as int),
        block@.len() == 16,
    ensures
        r@.len() == 16,
        r@ == aes_enc(key@, block@),
{
    if key.len() == 16 {
        aes128_encrypt_raw(key, block)
    } else if key.len() == 24 {
        aes192_encrypt_raw(key, block)
    } else {
        aes256_encrypt_raw(key, block)
    }
}

/// One AES block decryption on the loaded key; the last clause carries the
/// round-trip fact that decryption undoes encryption.
pub fn hw_decrypt(key: &Vec<u8>, block: &Vec<u8>) -> (r: Vec<u8>)
    requires
        valid_key_len(key@.len() as int),
        block@.len() == 16,
    ensures
        r@.len() == 16,
        r@ == aes_dec(key@, block@),
        forall|p: Seq<u8>| p.len() == 16 && #[trigger] aes_enc(key@, p) == block@ ==> r@ == p,
{
    if key.len() == 16 {
        aes128_decrypt_raw(key, block)
    } else if key.len() == 24 {
        aes192_decrypt_raw(key, block)
    } else {
        aes256_decrypt_raw(key, block)
    }
}

/// Byte-wise exclusive or of two equally long byte vectors.
pub fn xor_block(a: &Vec<u8>, b: &Vec<u8>) -> (r: Vec<u8>)
    requires
        a@.len() == b@.len(),
    ensures
        r@ == xor_seq(a@, b@),
{
    let mut r: Vec<u8> = Vec::new();
    let mut i: usize = 0;
    while i < a.len()
        invariant
            i <= a@.len(),
            a@.len() == b@.len(),
            r@.len() == i,
            forall|j: int| 0 <= j < i ==> r@[j] == (a@[j] ^ b@[j]),
        decreases a@.len() - i,
    {
        r.push(a[i] ^ b[i]);
        i += 1;
    }
    assert(r@ =~= xor_seq(a@, b@));
    r
}

/// Constant-time equality of two equally long byte vectors: every byte is
/// compared and the differences are folded with a bitwise or, so the running
/// time does not depend on where the first mismatch sits.
pub fn ct_eq(a: &Vec<u8>, b: &Vec<u8>) -> (r: bool)
    requires
        a@.len() == b@.len(),
    ensures
        r <==> a@ == b@,
{
    let mut diff: u8 = 0;
    let mut i: usize = 0;
    while i < a.len()
        invariant
            i <= a@.len(),
            a@.len() == b@.len(),
            diff == 0 <==> (forall|j: int| 0 <= j < i ==> a@[j] == b@[j]),
        decreases a@.len() - i,
    {
        let d = a[i] ^ b[i];
        proof {
            let x = a@[i as int];
            let y = b@[i as int];
            assert((x ^ y) == 0 <==> x == y) by (bit_vector);
            assert((diff | (x ^ y)) == 0 <==> diff == 0 && (x ^ y) == 0) by (bit_vector);
        }
        diff = diff | d;
        i += 1;
    }
    proof {
        if diff == 0 {
            assert(a@ =~= b@);
        }
    }
    diff == 0
}

/// The big-endian 32-bit word standing at byte offset `i` of `s`.
pub open spec fn be_word_at(s: Seq<u8>, i: int) -> u32 {
    ((s[i] as u32) << 24) | ((s[i + 1] as u32) << 16) | ((s[i + 2] as u32) << 8) | (s[i + 3] as u32)
}

/// Packs four bytes of `block`, from offset `i`, into a big-endian word.
pub fn be_word_of(block: &Vec<u8>, i: usize) -> (w: u32)
    requires
        i + 4 <= block@.len(),
        i + 4 <= usize::MAX,
    ensures
        w == be_word_at(block@, i as int),
{
    ((block[i] as u32) << 24) | ((block[i + 1] as u32) << 16) | ((block[i + 2] as u32) << 8) | (
    block[i + 3] as u32)
}

/// The big-endian bytes of a packed word are exactly the bytes packed into it.
pub proof fn lemma_be32_pack(b0: u8, b1: u8, b2: u8, b3: u8)
    ensures
        be32(((b0 as u32) << 24) | ((b1 as u32) << 16) | ((b2 as u32) << 8) | (b3 as u32))
            == seq![b0, b1, b2, b3],
{
    assert(((((b0 as u32) << 24) | ((b1 as u32) << 16) | ((b2 as u32) << 8) | (b3 as u32)) >> 24)
        as u8 == b0) by (bit_vector);
    assert(((((b0 as u32) << 24) | ((b1 as u32) << 16) | ((b2 as u32) << 8) | (b3 as u32)) >> 16)
        as u8 == b1) by (bit_vector);
    assert(((((b0 as u32) << 24) | ((b1 as u32) << 16) | ((b2 as u32) << 8) | (b3 as u32)) >> 8)
        as u8 == b2) by (bit_vector);
    assert((((b0 as u32) << 24) | ((b1 as u32) << 16) | ((b2 as u32) << 8) | (b3 as u32)) as u8
        == b3) by (bit_vector);
    assert(be32(((b0 as u32) << 24) | ((b1 as u32) << 16) | ((b2 as u32) << 8) | (b3 as u32)) =~= seq![
        b0,
        b1,
        b2,
        b3,
    ]);
}

/// The four big-endian bytes of a 32-bit word, as a vector.
pub fn be32_bytes(w: u32) -> (r: Vec<u8>)
    ensures
        r@ == be32(w),
{
    let mut r: Vec<u8> = Vec::new();
    r.push(#[verifier::truncate] ((w >> 24) as u8));
    r.push(#[verifier::truncate] ((w >> 16) as u8));
    r.push(#[verifier::truncate] ((w >> 8) as u8));
    r.push(#[verifier::truncate] (w as u8));
    proof {
        assert(r@ =~= be32(w));
    }
    r
}

/// The eight big-endian bytes of a 64-bit word, pushed onto `dst`.
pub fn push_be64(dst: &mut Vec<u8>, w: u64)
    ensures
        final(dst)@ == old(dst)@ + be64(w),
{
    dst.push(#[verifier::truncate] ((w >> 56) as u8));
    dst.push(#[verifier::truncate] ((w >> 48) as u8));
    dst.push(#[verifier::truncate] ((w >> 40) as u8));
    dst.push(#[verifier::truncate] ((w >> 32) as u8));
    dst.push(#[verifier::truncate] ((w >> 24) as u8));
    dst.push(#[verifier::truncate] ((w >> 16) as u8));
    dst.push(#[verifier::truncate] ((w >> 8) as u8));
    dst.push(#[verifier::truncate] (w as u8));
    proof {
        assert(dst@ =~= old(dst)@ + be64(w));
    }
}

/// Every byte of `src`, pushed onto `dst` in order.
pub fn push_all(dst: &mut Vec<u8>, src: &Vec<u8>)
    requires
        old(dst)@.len() + src@.len() < usize::MAX,
    ensures
        final(dst)@ == old(dst)@ + src@,
{
    let mut i: usize = 0;
    while i < src.len()
        invariant
            i <= src@.len(),
            dst@.len() == old(dst)@.len() + i,
            dst@ == old(dst)@ + src@.take(i as int),
        decreases src@.len() - i,
    {
        let b = src[i];
        dst.push(b);
        proof {
            assert(dst@ =~= old(dst)@ + src@.take(i + 1));
        }
        i += 1;
    }
    proof {
        assert(src@.take(src@.len() as int) =~= src@);
    }
}

/// The counter block fed to the block cipher: `nonce` followed by the
/// big-endian counter word.
pub fn ctr_block_bytes(nonce: &Vec<u8>, ctr: u32) -> (r: Vec<u8>)
    requires
        nonce@.len() + 4 < usize::MAX,
    ensures
        r@ == ctr_block(nonce@, ctr),
{
    let mut r: Vec<u8> = Vec::new();
    push_all(&mut r, nonce);
    let w = be32_bytes(ctr);
    push_all(&mut r, &w);
    r
}

/// `src` followed by zero padding to a multiple of `m`, pushed onto `dst`.
pub fn push_padded(dst: &mut Vec<u8>, src: &Vec<u8>, m: usize)
    requires
        0 < m,
        old(dst)@.len() + src@.len() + m < usize::MAX,
    ensures
        final(dst)@ == old(dst)@ + zero_pad(src@, m as nat),
{
    let base = dst.len();
    let mut i: usize = 0;
    while i < src.len()
        invariant
            i <= src@.len(),
            dst@.len() == base + i,
            dst@ == old(dst)@ + src@.take(i as int),
            base == old(dst)@.len(),
        decreases src@.len() - i,
    {
        let b = src[i];
        dst.push(b);
        proof {
            assert(dst@ =~= old(dst)@ + src@.take(i + 1));
        }
        i += 1;
    }
    proof {
        assert(src@.take(src@.len() as int) =~= src@);
    }
    let rem = src.len() % m;
    if rem != 0 {
        let pad = m - rem;
        let mut j: usize = 0;
        while j < pad
            invariant
                j <= pad,
                pad == m - rem,
                rem == src@.len() % (m as nat),
                rem != 0,
                0 < m,
                dst@.len() == old(dst)@.len() + src@.len() + j,
                dst@ == old(dst)@ + src@ + Seq::new(j as nat, |k: int| 0u8),
            decreases pad - j,
        {
            dst.push(0u8);
            proof {
                assert(dst@ =~= old(dst)@ + src@ + Seq::new((j + 1) as nat, |k: int| 0u8));
            }
            j += 1;
        }
        proof {
            assert(dst@ =~= old(dst)@ + zero_pad(src@, m as nat));
        }
    }
}

} // verus!
