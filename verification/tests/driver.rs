//! Exercises the engine against the register-file model: mode and key-width
//! binding, session ordering, block streaming in all three modes, the
//! authenticated tag phase, tamper detection, timeouts and resets.

use aes_hal::aes::{Aes, Cbc, Ecb, Gcm, K128, K192, K256};
use aes_hal::periph::{AesPeriph, ModeSel};
use aes_hal::AesError;

fn pattern(len: usize, seed: u8) -> Vec<u8> {
    let mut v = Vec::new();
    let mut x = seed;
    for _ in 0..len {
        x = x.wrapping_mul(31).wrapping_add(7);
        v.push(x);
    }
    v
}

#[test]
fn bind_all_nine_configurations() {
    let mut e1 = Aes::<Ecb, K128>::ecb128(AesPeriph::new());
    e1.clk_init();
    assert_eq!(e1.load_key(&vec![0u8; 16]), Ok(()));
    let mut e2 = Aes::<Ecb, K192>::ecb192(AesPeriph::new());
    e2.clk_init();
    assert_eq!(e2.load_key(&vec![0u8; 24]), Ok(()));
    let mut e3 = Aes::<Ecb, K256>::ecb256(AesPeriph::new());
    e3.clk_init();
    assert_eq!(e3.load_key(&vec![0u8; 32]), Ok(()));
    let mut c1 = Aes::<Cbc, K128>::cbc128(AesPeriph::new());
    c1.clk_init();
    assert_eq!(c1.load_key(&vec![0u8; 16]), Ok(()));
    let mut c2 = Aes::<Cbc, K192>::cbc192(AesPeriph::new());
    c2.clk_init();
    assert_eq!(c2.load_key(&vec![0u8; 24]), Ok(()));
    let mut c3 = Aes::<Cbc, K256>::cbc256(AesPeriph::new());
    c3.clk_init();
    assert_eq!(c3.load_key(&vec![0u8; 32]), Ok(()));
    let mut g1 = Aes::<Gcm, K128>::gcm128(AesPeriph::new());
    g1.clk_init();
    assert_eq!(g1.load_key(&vec![0u8; 16]), Ok(()));
    let mut g2 = Aes::<Gcm, K192>::gcm192(AesPeriph::new());
    g2.clk_init();
    assert_eq!(g2.load_key(&vec![0u8; 24]), Ok(()));
    let mut g3 = Aes::<Gcm, K256>::gcm256(AesPeriph::new());
    g3.clk_init();
    assert_eq!(g3.load_key(&vec![0u8; 32]), Ok(()));
}

#[test]
fn wrong_key_length_is_rejected() {
    let mut e = Aes::<Ecb, K128>::ecb128(AesPeriph::new());
    e.clk_init();
    assert_eq!(e.load_key(&vec![0u8; 24]), Err(AesError::InvalidKeyLength));
    assert_eq!(e.load_key(&vec![0u8; 15]), Err(AesError::InvalidKeyLength));
    let mut g = Aes::<Gcm, K256>::gcm256(AesPeriph::new());
    g.clk_init();
    assert_eq!(g.load_key(&vec![0u8; 16]), Err(AesError::InvalidKeyLength));
    // a rejected key leaves the engine idle, so the right key still loads
    assert_eq!(g.load_key(&vec![0u8; 32]), Ok(()));
}

#[test]
fn wrong_iv_length_is_rejected() {
    let mut c = Aes::<Cbc, K128>::cbc128(AesPeriph::new());
    c.clk_init();
    assert_eq!(c.load_key(&vec![0u8; 16]), Ok(()));
    assert_eq!(c.load_iv(&vec![0u8; 12]), Err(AesError::InvalidKeyLength));
    assert_eq!(c.load_iv(&vec![0u8; 16]), Ok(()));
    let mut g = Aes::<Gcm, K128>::gcm128(AesPeriph::new());
    g.clk_init();
    assert_eq!(g.load_key(&vec![0u8; 16]), Ok(()));
    assert_eq!(g.load_iv(&vec![0u8; 16]), Err(AesError::InvalidKeyLength));
    assert_eq!(g.load_iv(&vec![0u8; 12]), Ok(()));
}

#[test]
fn session_order_is_enforced() {
    let mut e = Aes::<Ecb, K128>::ecb128(AesPeriph::new());
    e.clk_init();
    let mut b = vec![0u8; 16];
    // block before key
    assert_eq!(e.encrypt_block(&mut b), Err(AesError::InvalidSessionOrder));
    assert_eq!(e.load_key(&vec![0u8; 16]), Ok(()));
    // key twice
    assert_eq!(e.load_key(&vec![0u8; 16]), Err(AesError::InvalidSessionOrder));

    let mut c = Aes::<Cbc, K128>::cbc128(AesPeriph::new());
    c.clk_init();
    // IV before key
    assert_eq!(c.load_iv(&vec![0u8; 16]), Err(AesError::InvalidSessionOrder));
    assert_eq!(c.load_key(&vec![0u8; 16]), Ok(()));
    // block before IV
    assert_eq!(c.encrypt_block(&mut b), Err(AesError::InvalidSessionOrder));
    assert_eq!(c.load_iv(&vec![0u8; 16]), Ok(()));
    assert_eq!(c.encrypt_block(&mut b), Ok(()));
}

#[test]
fn ecb128_zero_key_zero_block_vector() {
    let mut e = Aes::<Ecb, K128>::ecb128(AesPeriph::new());
    e.clk_init();
    assert_eq!(e.load_key(&vec![0u8; 16]), Ok(()));
    let mut b = vec![0u8; 16];
    assert_eq!(e.encrypt_block(&mut b), Ok(()));
    let expected: Vec<u8> = vec![
        0x66, 0xE9, 0x4B, 0xD4, 0xEF, 0x8A, 0x2C, 0x3B, 0x88, 0x4C, 0xFA, 0x59, 0xCA, 0x34, 0x2B,
        0x2E,
    ];
    assert_eq!(b, expected);
    assert_eq!(e.decrypt_block(&mut b), Ok(()));
    assert_eq!(b, vec![0u8; 16]);
}

#[test]
fn ecb192_roundtrip() {
    let key = pattern(24, 3);
    let plain = pattern(16, 9);
    let mut e = Aes::<Ecb, K192>::ecb192(AesPeriph::new());
    e.clk_init();
    assert_eq!(e.load_key(&key), Ok(()));
    let mut b = plain.clone();
    assert_eq!(e.encrypt_block(&mut b), Ok(()));
    assert_ne!(b, plain);
    assert_eq!(e.decrypt_block(&mut b), Ok(()));
    assert_eq!(b, plain);
}

#[test]
fn ecb256_roundtrip() {
    let key = pattern(32, 5);
    let plain = pattern(16, 11);
    let mut e = Aes::<Ecb, K256>::ecb256(AesPeriph::new());
    e.clk_init();
    assert_eq!(e.load_key(&key), Ok(()));
    let mut b = plain.clone();
    assert_eq!(e.encrypt_block(&mut b), Ok(()));
    assert_ne!(b, plain);
    assert_eq!(e.decrypt_block(&mut b), Ok(()));
    assert_eq!(b, plain);
}

#[test]
fn cbc_roundtrip_two_blocks() {
    let key = pattern(16, 17);
    let iv = pattern(16, 23);
    let p1 = pattern(16, 29);
    let p2 = pattern(16, 31);
    let mut c = Aes::<Cbc, K128>::cbc128(AesPeriph::new());
    c.clk_init();
    assert_eq!(c.load_key(&key), Ok(()));
    assert_eq!(c.load_iv(&iv), Ok(()));
    let mut c1 = p1.clone();
    let mut c2 = p2.clone();
    assert_eq!(c.encrypt_block(&mut c1), Ok(()));
    assert_eq!(c.encrypt_block(&mut c2), Ok(()));
    assert_ne!(c1, p1);
    assert_ne!(c2, p2);
    // decryption runs as a fresh session with the same key and IV
    c.abandon();
    assert_eq!(c.load_key(&key), Ok(()));
    assert_eq!(c.load_iv(&iv), Ok(()));
    assert_eq!(c.decrypt_block(&mut c1), Ok(()));
    assert_eq!(c.decrypt_block(&mut c2), Ok(()));
    assert_eq!(c1, p1);
    assert_eq!(c2, p2);
}

#[test]
fn cbc_mixed_directions_are_rejected() {
    let mut c = Aes::<Cbc, K128>::cbc128(AesPeriph::new());
    c.clk_init();
    assert_eq!(c.load_key(&pattern(16, 2)), Ok(()));
    assert_eq!(c.load_iv(&pattern(16, 4)), Ok(()));
    let mut b = pattern(16, 6);
    assert_eq!(c.encrypt_block(&mut b), Ok(()));
    assert_eq!(c.decrypt_block(&mut b), Err(AesError::InvalidSessionOrder));
}

#[test]
fn cbc_second_block_diverges_from_ecb() {
    let key = pattern(16, 41);
    let b2 = pattern(16, 47);
    // chained: the second ciphertext depends on the first block
    let mut c = Aes::<Cbc, K128>::cbc128(AesPeriph::new());
    c.clk_init();
    assert_eq!(c.load_key(&key), Ok(()));
    assert_eq!(c.load_iv(&vec![0u8; 16]), Ok(()));
    let mut cbc_b1 = pattern(16, 43);
    let mut cbc_b2 = b2.clone();
    assert_eq!(c.encrypt_block(&mut cbc_b1), Ok(()));
    assert_eq!(c.encrypt_block(&mut cbc_b2), Ok(()));
    // codebook: the same second block under the same key
    let mut e = Aes::<Ecb, K128>::ecb128(AesPeriph::new());
    e.clk_init();
    assert_eq!(e.load_key(&key), Ok(()));
    let mut ecb_b2 = b2.clone();
    assert_eq!(e.encrypt_block(&mut ecb_b2), Ok(()));
    assert_ne!(cbc_b2, ecb_b2);
}

#[test]
fn gcm_roundtrip_with_associated_data() {
    let key = pattern(16, 51);
    let nonce = pattern(12, 53);
    let aad = pattern(5, 57);
    let p1 = pattern(16, 59);
    let p2 = pattern(16, 61);
    let mut g = Aes::<Gcm, K128>::gcm128(AesPeriph::new());
    g.clk_init();
    assert_eq!(g.load_key(&key), Ok(()));
    assert_eq!(g.load_iv(&nonce), Ok(()));
    assert_eq!(g.write_aad_bytes(&aad), Ok(()));
    let mut c1 = p1.clone();
    let mut c2 = p2.clone();
    assert_eq!(g.encrypt_block(&mut c1), Ok(()));
    assert_eq!(g.encrypt_block(&mut c2), Ok(()));
    assert_ne!(c1, p1);
    let tag = g.finish_encrypt().unwrap();
    assert_eq!(tag.len(), 16);
    // decrypt with the same key, nonce and associated data
    g.abandon();
    assert_eq!(g.load_key(&key), Ok(()));
    assert_eq!(g.load_iv(&nonce), Ok(()));
    assert_eq!(g.write_aad_bytes(&aad), Ok(()));
    let mut d1 = c1.clone();
    let mut d2 = c2.clone();
    assert_eq!(g.decrypt_block(&mut d1), Ok(()));
    assert_eq!(g.decrypt_block(&mut d2), Ok(()));
    // ciphertext blocks are left in place; plaintext is withheld
    assert_eq!(d1, c1);
    assert_eq!(d2, c2);
    let pt = g.finish_decrypt(&tag).unwrap();
    let mut expected = p1.clone();
    expected.extend_from_slice(&p2);
    assert_eq!(pt, expected);
    assert_eq!(g.get_tag_chk(), 2);
}

#[test]
fn gcm128_zero_key_zero_block_vector() {
    // the standard all-zero vector: zero key, zero nonce, one zero block
    let mut g = Aes::<Gcm, K128>::gcm128(AesPeriph::new());
    g.clk_init();
    assert_eq!(g.load_key(&vec![0u8; 16]), Ok(()));
    assert_eq!(g.load_iv(&vec![0u8; 12]), Ok(()));
    let mut c1 = vec![0u8; 16];
    assert_eq!(g.encrypt_block(&mut c1), Ok(()));
    let expected_ct: Vec<u8> = vec![
        0x03, 0x88, 0xDA, 0xCE, 0x60, 0xB6, 0xA3, 0x92, 0xF3, 0x28, 0xC2, 0xB9, 0x71, 0xB2, 0xFE,
        0x78,
    ];
    assert_eq!(c1, expected_ct);
    let tag = g.finish_encrypt().unwrap();
    let expected_tag: Vec<u8> = vec![
        0xAB, 0x6E, 0x47, 0xD4, 0x2C, 0xEC, 0x13, 0xBD, 0xF5, 0x3A, 0x67, 0xB2, 0x12, 0x57, 0xBD,
        0xDF,
    ];
    assert_eq!(tag, expected_tag);
}

#[test]
fn gcm_roundtrip_without_payload() {
    let key = pattern(32, 63);
    let nonce = pattern(12, 67);
    let aad = pattern(16, 71);
    let mut g = Aes::<Gcm, K256>::gcm256(AesPeriph::new());
    g.clk_init();
    assert_eq!(g.load_key(&key), Ok(()));
    assert_eq!(g.load_iv(&nonce), Ok(()));
    assert_eq!(g.write_aad_bytes(&aad), Ok(()));
    let tag = g.finish_encrypt().unwrap();
    g.abandon();
    assert_eq!(g.load_key(&key), Ok(()));
    assert_eq!(g.load_iv(&nonce), Ok(()));
    assert_eq!(g.write_aad_bytes(&aad), Ok(()));
    let pt = g.finish_decrypt(&tag).unwrap();
    assert_eq!(pt.len(), 0);
}

#[test]
fn gcm_tag_bit_flip_fails_closed() {
    let key = pattern(24, 73);
    let nonce = pattern(12, 79);
    let p1 = pattern(16, 83);
    let mut g = Aes::<Gcm, K192>::gcm192(AesPeriph::new());
    g.clk_init();
    assert_eq!(g.load_key(&key), Ok(()));
    assert_eq!(g.load_iv(&nonce), Ok(()));
    let mut c1 = p1.clone();
    assert_eq!(g.encrypt_block(&mut c1), Ok(()));
    let tag = g.finish_encrypt().unwrap();
    // flip a single bit of the tag in every byte position in turn
    for byte in 0..16 {
        let mut bad_tag = tag.clone();
        bad_tag[byte] ^= 0x01;
        g.abandon();
        assert_eq!(g.load_key(&key), Ok(()));
        assert_eq!(g.load_iv(&nonce), Ok(()));
        let mut d1 = c1.clone();
        assert_eq!(g.decrypt_block(&mut d1), Ok(()));
        let r = g.finish_decrypt(&bad_tag);
        assert_eq!(r, Err(AesError::AuthenticationFailed));
        assert_eq!(g.get_tag_chk(), 1);
    }
}

#[test]
fn gcm_ciphertext_bit_flip_fails_closed() {
    let key = pattern(16, 87);
    let nonce = pattern(12, 89);
    let p1 = pattern(16, 91);
    let mut g = Aes::<Gcm, K128>::gcm128(AesPeriph::new());
    g.clk_init();
    assert_eq!(g.load_key(&key), Ok(()));
    assert_eq!(g.load_iv(&nonce), Ok(()));
    let mut c1 = p1.clone();
    assert_eq!(g.encrypt_block(&mut c1), Ok(()));
    let tag = g.finish_encrypt().unwrap();
    for bit in 0..8 {
        let mut bad_c1 = c1.clone();
        bad_c1[5] ^= 1u8 << bit;
        g.abandon();
        assert_eq!(g.load_key(&key), Ok(()));
        assert_eq!(g.load_iv(&nonce), Ok(()));
        let mut d1 = bad_c1.clone();
        assert_eq!(g.decrypt_block(&mut d1), Ok(()));
        let r = g.finish_decrypt(&tag);
        assert_eq!(r, Err(AesError::AuthenticationFailed));
    }
}

#[test]
fn gcm_associated_data_influences_tag() {
    let key = pattern(16, 93);
    let nonce = pattern(12, 95);
    let mut g = Aes::<Gcm, K128>::gcm128(AesPeriph::new());
    g.clk_init();
    assert_eq!(g.load_key(&key), Ok(()));
    assert_eq!(g.load_iv(&nonce), Ok(()));
    assert_eq!(g.write_aad_bytes(&pattern(8, 97)), Ok(()));
    let tag_a = g.finish_encrypt().unwrap();
    g.abandon();
    assert_eq!(g.load_key(&key), Ok(()));
    assert_eq!(g.load_iv(&nonce), Ok(()));
    assert_eq!(g.write_aad_bytes(&pattern(8, 99)), Ok(()));
    let tag_b = g.finish_encrypt().unwrap();
    assert_ne!(tag_a, tag_b);
}

#[test]
fn gcm_word_level_aad_matches_byte_level() {
    let key = pattern(16, 101);
    let nonce = pattern(12, 103);
    // byte level: five bytes, final partial word zero-padded by the engine
    let aad: Vec<u8> = vec![0x01, 0x02, 0x03, 0x04, 0x05];
    let mut g = Aes::<Gcm, K128>::gcm128(AesPeriph::new());
    g.clk_init();
    assert_eq!(g.load_key(&key), Ok(()));
    assert_eq!(g.load_iv(&nonce), Ok(()));
    assert_eq!(g.write_aad_bytes(&aad), Ok(()));
    let tag_bytes = g.finish_encrypt().unwrap();
    // word level: the same stream spelled out
    g.abandon();
    assert_eq!(g.load_key(&key), Ok(()));
    assert_eq!(g.load_iv(&nonce), Ok(()));
    assert_eq!(g.set_aad_len(5), Ok(()));
    assert_eq!(g.write_add(0x0102_0304), Ok(()));
    assert_eq!(g.write_add(0x0500_0000), Ok(()));
    let tag_words = g.finish_encrypt().unwrap();
    assert_eq!(tag_bytes, tag_words);
}

#[test]
fn gcm_aad_overrun_and_order_errors() {
    let mut g = Aes::<Gcm, K128>::gcm128(AesPeriph::new());
    g.clk_init();
    assert_eq!(g.load_key(&vec![0u8; 16]), Ok(()));
    assert_eq!(g.load_iv(&vec![0u8; 12]), Ok(()));
    // no length announced: no room for a word
    assert_eq!(g.write_add(1), Err(AesError::InvalidSessionOrder));
    assert_eq!(g.set_aad_len(4), Ok(()));
    assert_eq!(g.write_add(1), Ok(()));
    // announced length exhausted
    assert_eq!(g.write_add(2), Err(AesError::InvalidSessionOrder));
    let mut b = vec![0u8; 16];
    assert_eq!(g.encrypt_block(&mut b), Ok(()));
    // associated data after the first payload block
    assert_eq!(g.write_add(3), Err(AesError::InvalidSessionOrder));
    assert_eq!(g.set_aad_len(8), Err(AesError::InvalidSessionOrder));
}

#[test]
fn gcm_incomplete_aad_blocks_payload() {
    let mut g = Aes::<Gcm, K128>::gcm128(AesPeriph::new());
    g.clk_init();
    assert_eq!(g.load_key(&vec![0u8; 16]), Ok(()));
    assert_eq!(g.load_iv(&vec![0u8; 12]), Ok(()));
    assert_eq!(g.set_aad_len(8), Ok(()));
    assert_eq!(g.write_add(1), Ok(()));
    // one of two announced words is still owed
    let mut b = vec![0u8; 16];
    assert_eq!(g.encrypt_block(&mut b), Err(AesError::InvalidSessionOrder));
    assert_eq!(g.finish_encrypt(), Err(AesError::InvalidSessionOrder));
    assert_eq!(g.write_add(2), Ok(()));
    assert_eq!(g.encrypt_block(&mut b), Ok(()));
}

#[test]
fn gcm_mixed_directions_are_rejected() {
    let mut g = Aes::<Gcm, K128>::gcm128(AesPeriph::new());
    g.clk_init();
    assert_eq!(g.load_key(&vec![0u8; 16]), Ok(()));
    assert_eq!(g.load_iv(&vec![0u8; 12]), Ok(()));
    let mut b = vec![0u8; 16];
    assert_eq!(g.encrypt_block(&mut b), Ok(()));
    assert_eq!(g.decrypt_block(&mut b), Err(AesError::InvalidSessionOrder));
    assert_eq!(g.finish_decrypt(&vec![0u8; 16]), Err(AesError::InvalidSessionOrder));
}

#[test]
fn reset_is_idempotent() {
    let key = pattern(16, 105);
    let mut e = Aes::<Ecb, K128>::ecb128(AesPeriph::new());
    e.clk_init();
    assert_eq!(e.load_key(&key), Ok(()));
    let mut b = pattern(16, 107);
    assert_eq!(e.encrypt_block(&mut b), Ok(()));
    // abandoning twice in a row is safe and leaves the engine fresh
    e.abandon();
    e.abandon();
    assert_eq!(e.load_key(&key), Ok(()));
    let mut b2 = pattern(16, 107);
    assert_eq!(e.encrypt_block(&mut b2), Ok(()));
    // reinitializing twice in a row is safe as well
    e.clk_init();
    e.clk_init();
    assert_eq!(e.load_key(&key), Ok(()));
    let mut b3 = pattern(16, 107);
    assert_eq!(e.encrypt_block(&mut b3), Ok(()));
    assert_eq!(b2, b3);
}

#[test]
fn wedged_peripheral_times_out() {
    let mut e = Aes::<Ecb, K128>::ecb128(AesPeriph::wedged());
    e.clk_init();
    assert_eq!(e.load_key(&vec![0u8; 16]), Ok(()));
    let mut b = vec![0u8; 16];
    assert_eq!(e.encrypt_block(&mut b), Err(AesError::HardwareTimeout));
    // the fault is sticky until the engine is reset
    assert_eq!(e.encrypt_block(&mut b), Err(AesError::InvalidSessionOrder));
    e.clk_init();
    assert_eq!(e.load_key(&vec![0u8; 16]), Ok(()));
}

#[test]
fn wedged_peripheral_times_out_on_aad_and_tag() {
    let mut g = Aes::<Gcm, K128>::gcm128(AesPeriph::wedged());
    g.clk_init();
    g.set_poll_bound(8);
    assert_eq!(g.load_key(&vec![0u8; 16]), Ok(()));
    assert_eq!(g.load_iv(&vec![0u8; 12]), Ok(()));
    assert_eq!(g.set_aad_len(4), Ok(()));
    assert_eq!(g.write_add(1), Err(AesError::HardwareTimeout));
    g.abandon();
    assert_eq!(g.load_key(&vec![0u8; 16]), Ok(()));
    assert_eq!(g.load_iv(&vec![0u8; 12]), Ok(()));
    assert_eq!(g.finish_encrypt(), Err(AesError::HardwareTimeout));
}

#[test]
fn unclocked_peripheral_times_out() {
    // without clk_init the ready flags never rise
    let mut e = Aes::<Ecb, K128>::ecb128(AesPeriph::new());
    assert_eq!(e.load_key(&vec![0u8; 16]), Ok(()));
    let mut b = vec![0u8; 16];
    assert_eq!(e.encrypt_block(&mut b), Err(AesError::HardwareTimeout));
}

#[test]
fn flags_reflect_peripheral_state() {
    let mut e = Aes::<Ecb, K128>::ecb128(AesPeriph::new());
    assert_eq!(e.get_data_in_flag(), 0);
    assert_eq!(e.get_data_out_flag(), 0);
    assert_eq!(e.get_tag_in_flag(), 0);
    assert_eq!(e.get_out_data(), 0);
    e.clk_init();
    assert_eq!(e.get_data_in_flag(), 1);
    assert_eq!(e.get_data_out_flag(), 0);
    // with no block pending, the data-out register reads as zero
    assert_eq!(e.get_out_data(), 0);
    let w = Aes::<Ecb, K128>::ecb128(AesPeriph::wedged());
    assert_eq!(w.get_data_in_flag(), 0);
}

#[test]
fn word_level_read_back_consumes() {
    // drive the register protocol by hand: four gated word writes submit a
    // block, four reads hand it back word by word, consuming as they go
    let mut p = AesPeriph::new();
    p.enable_clock();
    p.write_mode(ModeSel::Ecb);
    p.write_key(&vec![0u8; 16]);
    p.write_dir(false);
    for _ in 0..4 {
        assert_eq!(p.data_in_flag_reg(), 1);
        p.write_in_word(0);
    }
    // the all-zero block under the all-zero key, word by word
    assert_eq!(p.data_out_flag_reg(), 1);
    assert_eq!(p.out_data_reg(), 0x66E9_4BD4);
    assert_eq!(p.data_out_flag_reg(), 1);
    assert_eq!(p.out_data_reg(), 0xEF8A_2C3B);
    assert_eq!(p.data_out_flag_reg(), 1);
    assert_eq!(p.out_data_reg(), 0x884C_FA59);
    assert_eq!(p.data_out_flag_reg(), 1);
    assert_eq!(p.out_data_reg(), 0xCA34_2B2E);
    // the fourth read drops the ready flag; further reads return zero
    assert_eq!(p.data_out_flag_reg(), 0);
    assert_eq!(p.out_data_reg(), 0);
}

#[test]
fn tag_chk_lifecycle() {
    let key = pattern(16, 111);
    let nonce = pattern(12, 113);
    let mut g = Aes::<Gcm, K128>::gcm128(AesPeriph::new());
    g.clk_init();
    assert_eq!(g.get_tag_chk(), 0);
    assert_eq!(g.load_key(&key), Ok(()));
    assert_eq!(g.load_iv(&nonce), Ok(()));
    let mut c1 = pattern(16, 115);
    assert_eq!(g.encrypt_block(&mut c1), Ok(()));
    let tag = g.finish_encrypt().unwrap();
    g.abandon();
    assert_eq!(g.load_key(&key), Ok(()));
    assert_eq!(g.load_iv(&nonce), Ok(()));
    let mut d1 = c1.clone();
    assert_eq!(g.decrypt_block(&mut d1), Ok(()));
    assert!(g.finish_decrypt(&tag).is_ok());
    assert_eq!(g.get_tag_chk(), 2);
    assert_eq!(g.get_tag_in_flag(), 1);
    g.clear_chk_tag();
    assert_eq!(g.get_tag_chk(), 0);
    assert_eq!(g.get_tag_in_flag(), 0);
}

#[test]
fn free_releases_the_handle() {
    let e = Aes::<Ecb, K128>::ecb128(AesPeriph::new());
    let p = e.free();
    let mut c = Aes::<Cbc, K256>::cbc256(p);
    c.clk_init();
    assert_eq!(c.load_key(&vec![0u8; 32]), Ok(()));
}

#[test]
fn finished_session_requires_reset() {
    let mut g = Aes::<Gcm, K128>::gcm128(AesPeriph::new());
    g.clk_init();
    assert_eq!(g.load_key(&vec![0u8; 16]), Ok(()));
    assert_eq!(g.load_iv(&vec![0u8; 12]), Ok(()));
    let _tag = g.finish_encrypt().unwrap();
    let mut b = vec![0u8; 16];
    assert_eq!(g.encrypt_block(&mut b), Err(AesError::InvalidSessionOrder));
    assert_eq!(g.load_key(&vec![0u8; 16]), Err(AesError::InvalidSessionOrder));
    g.abandon();
    assert_eq!(g.load_key(&vec![0u8; 16]), Ok(()));
}
