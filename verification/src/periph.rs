//! Software model of the accelerator's register file.
//!
//! [`AesPeriph`] stands in for the memory-mapped peripheral: its fields are
//! the control, key, IV, associated-data, data and tag registers together
//! with the hidden sequencer state that persists behind them between
//! sessions. Each method is one register access with the side effect the
//! data sheet ascribes to it; the data path behind the data registers is the
//! cipher model of [`crate::cipher`]. A driver owns the value exclusively,
//! so two engines can never address the same hardware instance at once.
//!
//! Payload moves through single-word polled I/O: the data-in register
//! latches one 32-bit word per write, the fourth word of a block runs the
//! sequencer, and the data-out register hands the output back one word per
//! read, consuming as it goes, until the fourth read drops the ready flag.
//! Key, IV and control writes are plain register latches and succeed even
//! while the clock is gated; only the data path (associated data, payload
//! words, the tag) answers the ready flags.

use vstd::prelude::*;
use crate::cipher::{
    aes_dec, aes_enc, be32, be_word_at, ctr_block, ctr_block_bytes, gcm_keystream, gcm_tag,
    ghash_input, ghash_raw, hw_decrypt, hw_encrypt, lemma_xor_involutive, push_all, push_be64,
    push_padded, valid_key_len, xor_block, xor_seq, zero_block,
};

verus! {

/// Value of the mode control register: which cipher mode the sequencer runs.
#[derive(Clone, Copy, Debug, PartialEq, Eq, Structural)]
pub enum ModeSel {
    Ecb,
    Cbc,
    Gcm,
}

/// The accelerator's register file and persistent sequencer state.
pub struct AesPeriph {
    /// Peripheral clock gate, driven by the system controller.
    pub clock_on: bool,
    /// Peripheral reset line, driven by the system controller.
    pub in_reset: bool,
    /// A healthy peripheral raises its ready flags; a wedged one never does.
    pub responsive: bool,
    /// Mode control register.
    pub mode_reg: ModeSel,
    /// Direction select register: decrypt when set, encrypt when clear.
    pub dec_sel: bool,
    /// Key register bank: 4, 6 or 8 words, held here as bytes.
    pub key_reg: Vec<u8>,
    /// IV (chained mode) or nonce (authenticated mode) register bank.
    pub iv_reg: Vec<u8>,
    /// Chaining state of the chained mode: IV, then the last ciphertext block.
    pub chain: Vec<u8>,
    /// Counter of the authenticated mode for the next payload block.
    pub ctr: u32,
    /// Associated-data length register, in bytes.
    pub aad_len_reg: u32,
    /// Associated-data words streamed in so far, as bytes.
    pub aad_buf: Vec<u8>,
    /// Ciphertext of the session so far; feeds the tag.
    pub ct_buf: Vec<u8>,
    /// Input words of the block in flight, latched so far.
    pub in_buf: Vec<u8>,
    /// Data-out register bank: the output block waiting to be read out.
    pub out_reg: Vec<u8>,
    /// Read position inside the pending output block, in bytes.
    pub out_pos: usize,
    /// Data-out ready: output words are still waiting in `out_reg`.
    pub out_pending: bool,
    /// Tag register bank.
    pub tag_reg: Vec<u8>,
    /// Tag ready: the tag has been computed into `tag_reg`.
    pub tag_pending: bool,
    /// Tag check status register, written back by the driver.
    pub tag_chk_reg: u32,
}

impl AesPeriph {
    /// The peripheral answers its ready flags: clocked, out of reset, healthy.
    pub open spec fn ready_spec(&self) -> bool {
        self.clock_on && !self.in_reset && self.responsive
    }

    /// All session state is cleared: what a hardware reset leaves behind.
    pub open spec fn session_cleared(&self) -> bool {
        &&& !self.dec_sel
        &&& self.key_reg@ == Seq::<u8>::empty()
        &&& self.iv_reg@ == Seq::<u8>::empty()
        &&& self.chain@ == Seq::<u8>::empty()
        &&& self.ctr == 0
        &&& self.aad_len_reg == 0
        &&& self.aad_buf@ == Seq::<u8>::empty()
        &&& self.ct_buf@ == Seq::<u8>::empty()
        &&& self.in_buf@ == Seq::<u8>::empty()
        &&& self.out_reg@ == Seq::<u8>::empty()
        &&& self.out_pos == 0
        &&& !self.out_pending
        &&& self.tag_reg@ == Seq::<u8>::empty()
        &&& !self.tag_pending
        &&& self.tag_chk_reg == 0
    }

    /// The wiring and configuration registers agree between two states.
    pub open spec fn same_config(pre: Self, post: Self) -> bool {
        &&& post.clock_on == pre.clock_on
        &&& post.in_reset == pre.in_reset
        &&& post.responsive == pre.responsive
        &&& post.mode_reg == pre.mode_reg
    }

    /// All session state agrees between two states.
    pub open spec fn same_session(pre: Self, post: Self) -> bool {
        &&& post.dec_sel == pre.dec_sel
        &&& post.key_reg@ == pre.key_reg@
        &&& post.iv_reg@ == pre.iv_reg@
        &&& post.chain@ == pre.chain@
        &&& post.ctr == pre.ctr
        &&& post.aad_len_reg == pre.aad_len_reg
        &&& post.aad_buf@ == pre.aad_buf@
        &&& post.ct_buf@ == pre.ct_buf@
        &&& post.in_buf@ == pre.in_buf@
        &&& post.out_reg@ == pre.out_reg@
        &&& post.out_pos == pre.out_pos
        &&& post.out_pending == pre.out_pending
        &&& post.tag_reg@ == pre.tag_reg@
        &&& post.tag_pending == pre.tag_pending
        &&& post.tag_chk_reg == pre.tag_chk_reg
    }

    /// A healthy peripheral as it sits after power-up: unclocked, idle.
    pub fn new() -> (p: Self)
        ensures
            p.session_cleared(),
            !p.clock_on,
            !p.in_reset,
            p.responsive,
            p.mode_reg == ModeSel::Ecb,
    {
        AesPeriph {
            clock_on: false,
            in_reset: false,
            responsive: true,
            mode_reg: ModeSel::Ecb,
            dec_sel: false,
            key_reg: Vec::new(),
            iv_reg: Vec::new(),
            chain: Vec::new(),
            ctr: 0,
            aad_len_reg: 0,
            aad_buf: Vec::new(),
            ct_buf: Vec::new(),
            in_buf: Vec::new(),
            out_reg: Vec::new(),
            out_pos: 0,
            out_pending: false,
            tag_reg: Vec::new(),
            tag_pending: false,
            tag_chk_reg: 0,
        }
    }

    /// A wedged peripheral: it accepts register writes but never raises a
    /// ready flag, so every poll runs into its bound.
    pub fn wedged() -> (p: Self)
        ensures
            p.session_cleared(),
            !p.clock_on,
            !p.in_reset,
            !p.responsive,
            p.mode_reg == ModeSel::Ecb,
    {
        let mut p = Self::new();
        p.responsive = false;
        p
    }

    /// System controller: ungate the peripheral's clock.
    pub fn enable_clock(&mut self)
        ensures
            final(self).clock_on,
            final(self).in_reset == old(self).in_reset,
            final(self).responsive == old(self).responsive,
            final(self).mode_reg == old(self).mode_reg,
            Self::same_session(*old(self), *final(self)),
    {
        self.clock_on = true;
    }

    /// System controller: assert the peripheral's reset line. Reset wipes
    /// every session register.
    pub fn assert_reset(&mut self)
        ensures
            final(self).clock_on == old(self).clock_on,
            final(self).in_reset,
            final(self).responsive == old(self).responsive,
            final(self).mode_reg == old(self).mode_reg,
            final(self).session_cleared(),
    {
        self.in_reset = true;
        self.dec_sel = false;
        self.key_reg = Vec::new();
        self.iv_reg = Vec::new();
        self.chain = Vec::new();
        self.ctr = 0;
        self.aad_len_reg = 0;
        self.aad_buf = Vec::new();
        self.ct_buf = Vec::new();
        self.in_buf = Vec::new();
        self.out_reg = Vec::new();
        self.out_pos = 0;
        self.out_pending = false;
        self.tag_reg = Vec::new();
        self.tag_pending = false;
        self.tag_chk_reg = 0;
    }

    /// System controller: release the peripheral's reset line.
    pub fn deassert_reset(&mut self)
        ensures
            final(self).clock_on == old(self).clock_on,
            !final(self).in_reset,
            final(self).responsive == old(self).responsive,
            final(self).mode_reg == old(self).mode_reg,
            Self::same_session(*old(self), *final(self)),
    {
        self.in_reset = false;
    }

    /// Mode control register write. Changing the mode aborts the data path:
    /// the block in flight, the pending output and the direction clear.
    pub fn write_mode(&mut self, m: ModeSel)
        ensures
            final(self).clock_on == old(self).clock_on,
            final(self).in_reset == old(self).in_reset,
            final(self).responsive == old(self).responsive,
            final(self).mode_reg == m,
            !final(self).dec_sel,
            final(self).key_reg@ == old(self).key_reg@,
            final(self).iv_reg@ == old(self).iv_reg@,
            final(self).chain@ == old(self).chain@,
            final(self).ctr == old(self).ctr,
            final(self).aad_len_reg == old(self).aad_len_reg,
            final(self).aad_buf@ == old(self).aad_buf@,
            final(self).ct_buf@ == old(self).ct_buf@,
            final(self).in_buf@ == Seq::<u8>::empty(),
            final(self).out_reg@ == Seq::<u8>::empty(),
            final(self).out_pos == 0,
            !final(self).out_pending,
            final(self).tag_reg@ == old(self).tag_reg@,
            final(self).tag_pending == old(self).tag_pending,
            final(self).tag_chk_reg == old(self).tag_chk_reg,
    {
        self.mode_reg = m;
        self.dec_sel = false;
        self.in_buf = Vec::new();
        self.out_reg = Vec::new();
        self.out_pos = 0;
        self.out_pending = false;
    }

    /// Direction select register write.
    pub fn write_dir(&mut self, decrypt: bool)
        ensures
            Self::same_config(*old(self), *final(self)),
            final(self).dec_sel == decrypt,
            final(self).key_reg@ == old(self).key_reg@,
            final(self).iv_reg@ == old(self).iv_reg@,
            final(self).chain@ == old(self).chain@,
            final(self).ctr == old(self).ctr,
            final(self).aad_len_reg == old(self).aad_len_reg,
            final(self).aad_buf@ == old(self).aad_buf@,
            final(self).ct_buf@ == old(self).ct_buf@,
            final(self).in_buf@ == old(self).in_buf@,
            final(self).out_reg@ == old(self).out_reg@,
            final(self).out_pos == old(self).out_pos,
            final(self).out_pending == old(self).out_pending,
            final(self).tag_reg@ == old(self).tag_reg@,
            final(self).tag_pending == old(self).tag_pending,
            final(self).tag_chk_reg == old(self).tag_chk_reg,
    {
        self.dec_sel = decrypt;
    }

    /// Key register bank write: latches the key words.
    pub fn write_key(&mut self, key: &Vec<u8>)
        ensures
            Self::same_config(*old(self), *final(self)),
            final(self).dec_sel == old(self).dec_sel,
            final(self).key_reg@ == key@,
            final(self).iv_reg@ == old(self).iv_reg@,
            final(self).chain@ == old(self).chain@,
            final(self).ctr == old(self).ctr,
            final(self).aad_len_reg == old(self).aad_len_reg,
            final(self).aad_buf@ == old(self).aad_buf@,
            final(self).ct_buf@ == old(self).ct_buf@,
            final(self).in_buf@ == old(self).in_buf@,
            final(self).out_reg@ == old(self).out_reg@,
            final(self).out_pos == old(self).out_pos,
            final(self).out_pending == old(self).out_pending,
            final(self).tag_reg@ == old(self).tag_reg@,
            final(self).tag_pending == old(self).tag_pending,
            final(self).tag_chk_reg == old(self).tag_chk_reg,
    {
        self.key_reg = key.clone();
    }

    /// IV/nonce register bank write. Latching the IV starts a fresh data
    /// session: the chaining state takes the IV, the counter rewinds to the
    /// first payload value, and the data buffers clear.
    pub fn write_iv(&mut self, iv: &Vec<u8>)
        ensures
            Self::same_config(*old(self), *final(self)),
            final(self).dec_sel == old(self).dec_sel,
            final(self).key_reg@ == old(self).key_reg@,
            final(self).iv_reg@ == iv@,
            final(self).chain@ == iv@,
            final(self).ctr == 2,
            final(self).aad_len_reg == 0,
            final(self).aad_buf@ == Seq::<u8>::empty(),
            final(self).ct_buf@ == Seq::<u8>::empty(),
            final(self).in_buf@ == old(self).in_buf@,
            final(self).out_reg@ == old(self).out_reg@,
            final(self).out_pos == old(self).out_pos,
            final(self).out_pending == old(self).out_pending,
            final(self).tag_reg@ == old(self).tag_reg@,
            final(self).tag_pending == old(self).tag_pending,
            final(self).tag_chk_reg == old(self).tag_chk_reg,
    {
        self.iv_reg = iv.clone();
        self.chain = iv.clone();
        self.ctr = 2;
        self.aad_len_reg = 0;
        self.aad_buf = Vec::new();
        self.ct_buf = Vec::new();
    }

    /// Associated-data length register write, in bytes.
    pub fn write_aad_len(&mut self, n: u32)
        ensures
            Self::same_config(*old(self), *final(self)),
            final(self).dec_sel == old(self).dec_sel,
            final(self).key_reg@ == old(self).key_reg@,
            final(self).iv_reg@ == old(self).iv_reg@,
            final(self).chain@ == old(self).chain@,
            final(self).ctr == old(self).ctr,
            final(self).aad_len_reg == n,
            final(self).aad_buf@ == old(self).aad_buf@,
            final(self).ct_buf@ == old(self).ct_buf@,
            final(self).in_buf@ == old(self).in_buf@,
            final(self).out_reg@ == old(self).out_reg@,
            final(self).out_pos == old(self).out_pos,
            final(self).out_pending == old(self).out_pending,
            final(self).tag_reg@ == old(self).tag_reg@,
            final(self).tag_pending == old(self).tag_pending,
            final(self).tag_chk_reg == old(self).tag_chk_reg,
    {
        self.aad_len_reg = n;
    }

    /// Associated-data register write: one 32-bit word, big-endian, absorbed
    /// into the tag hash stream.
    pub fn write_aad_word(&mut self, w: u32)
        requires
            old(self).ready_spec(),
            old(self).aad_buf@.len() + 4 < usize::MAX,
        ensures
            Self::same_config(*old(self), *final(self)),
            final(self).dec_sel == old(self).dec_sel,
            final(self).key_reg@ == old(self).key_reg@,
            final(self).iv_reg@ == old(self).iv_reg@,
            final(self).chain@ == old(self).chain@,
            final(self).ctr == old(self).ctr,
            final(self).aad_len_reg == old(self).aad_len_reg,
            final(self).aad_buf@ == old(self).aad_buf@ + be32(w),
            final(self).ct_buf@ == old(self).ct_buf@,
            final(self).in_buf@ == old(self).in_buf@,
            final(self).out_reg@ == old(self).out_reg@,
            final(self).out_pos == old(self).out_pos,
            final(self).out_pending == old(self).out_pending,
            final(self).tag_reg@ == old(self).tag_reg@,
            final(self).tag_pending == old(self).tag_pending,
            final(self).tag_chk_reg == old(self).tag_chk_reg,
    {
        let w_bytes = crate::cipher::be32_bytes(w);
        push_all(&mut self.aad_buf, &w_bytes);
    }

    /// Data-in register write: latches one 32-bit word of the block in
    /// flight. The fourth word completes the block; the sequencer then runs
    /// it through the data path of the selected mode and direction, leaves
    /// the output in the data-out register bank and raises the data-out
    /// ready flag.
    pub fn write_in_word(&mut self, w: u32)
        requires
            old(self).ready_spec(),
            !old(self).out_pending,
            old(self).in_buf@.len() % 4 == 0,
            old(self).in_buf@.len() < 16,
            old(self).in_buf@.len() == 12 ==> valid_key_len(old(self).key_reg@.len() as int),
            old(self).in_buf@.len() == 12 && old(self).mode_reg == ModeSel::Cbc ==> old(
                self,
            ).chain@.len() == 16,
            old(self).in_buf@.len() == 12 && old(self).mode_reg == ModeSel::Gcm ==> {
                &&& old(self).iv_reg@.len() == 12
                &&& old(self).ctr < 0xFFFF_FFFFu32
                &&& old(self).ct_buf@.len() + 16 < usize::MAX
            },
        ensures
            Self::same_config(*old(self), *final(self)),
            final(self).dec_sel == old(self).dec_sel,
            final(self).key_reg@ == old(self).key_reg@,
            final(self).iv_reg@ == old(self).iv_reg@,
            final(self).aad_len_reg == old(self).aad_len_reg,
            final(self).aad_buf@ == old(self).aad_buf@,
            final(self).tag_reg@ == old(self).tag_reg@,
            final(self).tag_pending == old(self).tag_pending,
            final(self).tag_chk_reg == old(self).tag_chk_reg,
            old(self).in_buf@.len() < 12 ==> {
                &&& final(self).in_buf@ == old(self).in_buf@ + be32(w)
                &&& final(self).chain@ == old(self).chain@
                &&& final(self).ctr == old(self).ctr
                &&& final(self).ct_buf@ == old(self).ct_buf@
                &&& final(self).out_reg@ == old(self).out_reg@
                &&& final(self).out_pos == old(self).out_pos
                &&& !final(self).out_pending
            },
            old(self).in_buf@.len() == 12 ==> {
                &&& final(self).in_buf@ == Seq::<u8>::empty()
                &&& final(self).out_pending
                &&& final(self).out_pos == 0
                &&& final(self).out_reg@.len() == 16
            },
            old(self).in_buf@.len() == 12 && old(self).mode_reg == ModeSel::Ecb ==> {
                &&& final(self).out_reg@ == (if old(self).dec_sel {
                    aes_dec(old(self).key_reg@, old(self).in_buf@ + be32(w))
                } else {
                    aes_enc(old(self).key_reg@, old(self).in_buf@ + be32(w))
                })
                &&& final(self).chain@ == old(self).chain@
                &&& final(self).ctr == old(self).ctr
                &&& final(self).ct_buf@ == old(self).ct_buf@
            },
            old(self).in_buf@.len() == 12 && old(self).mode_reg == ModeSel::Ecb && old(
                self,
            ).dec_sel ==> (forall|p: Seq<u8>|
                p.len() == 16 && #[trigger] aes_enc(old(self).key_reg@, p) == old(self).in_buf@
                    + be32(w) ==> final(self).out_reg@ == p),
            old(self).in_buf@.len() == 12 && old(self).mode_reg == ModeSel::Cbc && !old(
                self,
            ).dec_sel ==> {
                &&& final(self).out_reg@ == aes_enc(
                    old(self).key_reg@,
                    xor_seq(old(self).in_buf@ + be32(w), old(self).chain@),
                )
                &&& final(self).chain@ == final(self).out_reg@
                &&& final(self).ctr == old(self).ctr
                &&& final(self).ct_buf@ == old(self).ct_buf@
            },
            old(self).in_buf@.len() == 12 && old(self).mode_reg == ModeSel::Cbc && old(
                self,
            ).dec_sel ==> {
                &&& final(self).out_reg@ == xor_seq(
                    aes_dec(old(self).key_reg@, old(self).in_buf@ + be32(w)),
                    old(self).chain@,
                )
                &&& final(self).chain@ == old(self).in_buf@ + be32(w)
                &&& final(self).ctr == old(self).ctr
                &&& final(self).ct_buf@ == old(self).ct_buf@
                &&& forall|p: Seq<u8>|
                    p.len() == 16 && #[trigger] aes_enc(
                        old(self).key_reg@,
                        xor_seq(p, old(self).chain@),
                    ) == old(self).in_buf@ + be32(w) ==> final(self).out_reg@ == p
            },
            old(self).in_buf@.len() == 12 && old(self).mode_reg == ModeSel::Gcm ==> {
                &&& final(self).out_reg@ == xor_seq(
                    old(self).in_buf@ + be32(w),
                    gcm_keystream(old(self).key_reg@, old(self).iv_reg@, old(self).ctr),
                )
                &&& final(self).chain@ == old(self).chain@
                &&& final(self).ctr == old(self).ctr + 1
                &&& final(self).ct_buf@ == old(self).ct_buf@ + (if old(self).dec_sel {
                    old(self).in_buf@ + be32(w)
                } else {
                    final(self).out_reg@
                })
                &&& forall|p: Seq<u8>|
                    p.len() == 16 && #[trigger] xor_seq(
                        p,
                        gcm_keystream(old(self).key_reg@, old(self).iv_reg@, old(self).ctr),
                    ) == old(self).in_buf@ + be32(w) ==> final(self).out_reg@ == p
            },
    {
        let w_bytes = crate::cipher::be32_bytes(w);
        push_all(&mut self.in_buf, &w_bytes);
        if self.in_buf.len() == 16 {
            let block = self.in_buf.clone();
            self.in_buf = Vec::new();
            let decrypt = self.dec_sel;
            match self.mode_reg {
                ModeSel::Ecb => {
                    let out = if decrypt {
                        hw_decrypt(&self.key_reg, &block)
                    } else {
                        hw_encrypt(&self.key_reg, &block)
                    };
                    self.out_reg = out;
                },
                ModeSel::Cbc => {
                    if decrypt {
                        let d = hw_decrypt(&self.key_reg, &block);
                        let out = xor_block(&d, &self.chain);
                        proof {
                            assert forall|p: Seq<u8>|
                                p.len() == 16 && #[trigger] aes_enc(
                                    old(self).key_reg@,
                                    xor_seq(p, old(self).chain@),
                                ) == block@ implies out@ == p by {
                                assert(xor_seq(p, old(self).chain@).len() == 16);
                                assert(d@ == xor_seq(p, old(self).chain@));
                                lemma_xor_involutive(p, old(self).chain@);
                            }
                        }
                        self.out_reg = out;
                        self.chain = block;
                    } else {
                        let x = xor_block(&block, &self.chain);
                        let out = hw_encrypt(&self.key_reg, &x);
                        self.out_reg = out.clone();
                        self.chain = out;
                    }
                },
                ModeSel::Gcm => {
                    let cb = ctr_block_bytes(&self.iv_reg, self.ctr);
                    let ks = hw_encrypt(&self.key_reg, &cb);
                    let out = xor_block(&block, &ks);
                    proof {
                        assert forall|p: Seq<u8>|
                            p.len() == 16 && #[trigger] xor_seq(
                                p,
                                gcm_keystream(old(self).key_reg@, old(self).iv_reg@, old(self).ctr),
                            ) == block@ implies out@ == p by {
                            lemma_xor_involutive(p, ks@);
                        }
                    }
                    if decrypt {
                        push_all(&mut self.ct_buf, &block);
                    } else {
                        push_all(&mut self.ct_buf, &out);
                    }
                    self.ctr = self.ctr + 1;
                    self.out_reg = out;
                },
            }
            self.out_pos = 0;
            self.out_pending = true;
        }
    }

    /// What a data-out register read returns: the next big-endian word of
    /// the pending output block, or zero while nothing is pending.
    pub open spec fn out_word_spec(&self) -> u32 {
        if self.ready_spec() && self.out_pending && self.out_pos + 4 <= self.out_reg@.len() {
            be_word_at(self.out_reg@, self.out_pos as int)
        } else {
            0
        }
    }

    /// Data-out register read: hands out the next word of the pending
    /// output block and consumes it, advancing the read position; the
    /// fourth read of a block drops the data-out ready flag.
    pub fn out_data_reg(&mut self) -> (r: u32)
        ensures
            r == old(self).out_word_spec(),
            Self::same_config(*old(self), *final(self)),
            final(self).dec_sel == old(self).dec_sel,
            final(self).key_reg@ == old(self).key_reg@,
            final(self).iv_reg@ == old(self).iv_reg@,
            final(self).chain@ == old(self).chain@,
            final(self).ctr == old(self).ctr,
            final(self).aad_len_reg == old(self).aad_len_reg,
            final(self).aad_buf@ == old(self).aad_buf@,
            final(self).ct_buf@ == old(self).ct_buf@,
            final(self).in_buf@ == old(self).in_buf@,
            final(self).out_reg@ == old(self).out_reg@,
            final(self).tag_reg@ == old(self).tag_reg@,
            final(self).tag_pending == old(self).tag_pending,
            final(self).tag_chk_reg == old(self).tag_chk_reg,
            (old(self).ready_spec() && old(self).out_pending && old(self).out_pos + 4 <= old(
                self,
            ).out_reg@.len()) ==> {
                &&& final(self).out_pos == old(self).out_pos + 4
                &&& final(self).out_pending == (old(self).out_pos + 4 < old(self).out_reg@.len())
            },
            !(old(self).ready_spec() && old(self).out_pending && old(self).out_pos + 4 <= old(
                self,
            ).out_reg@.len()) ==> {
                &&& final(self).out_pos == old(self).out_pos
                &&& final(self).out_pending == old(self).out_pending
            },
    {
        if self.clock_on && !self.in_reset && self.responsive && self.out_pending
            && self.out_reg.len() >= 4 && self.out_pos <= self.out_reg.len() - 4 {
            let i = self.out_pos;
            let w = crate::cipher::be_word_of(&self.out_reg, i);
            self.out_pos = i + 4;
            if self.out_pos >= self.out_reg.len() {
                self.out_pending = false;
            }
            w
        } else {
            0
        }
    }

    /// Finalize the tag: the sequencer hashes the absorbed associated data
    /// and ciphertext, masks the hash, leaves the tag in the tag register
    /// bank and raises the tag ready flag.
    pub fn trigger_tag(&mut self)
        requires
            old(self).ready_spec(),
            old(self).mode_reg == ModeSel::Gcm,
            valid_key_len(old(self).key_reg@.len() as int),
            old(self).iv_reg@.len() == 12,
            old(self).aad_buf@.len() + old(self).ct_buf@.len() + 64 < usize::MAX,
            old(self).ct_buf@.len() <= 0x1000_0000_0000u64 as int,
        ensures
            Self::same_config(*old(self), *final(self)),
            final(self).dec_sel == old(self).dec_sel,
            final(self).key_reg@ == old(self).key_reg@,
            final(self).iv_reg@ == old(self).iv_reg@,
            final(self).chain@ == old(self).chain@,
            final(self).ctr == old(self).ctr,
            final(self).aad_len_reg == old(self).aad_len_reg,
            final(self).aad_buf@ == old(self).aad_buf@,
            final(self).ct_buf@ == old(self).ct_buf@,
            final(self).in_buf@ == old(self).in_buf@,
            final(self).out_reg@ == old(self).out_reg@,
            final(self).out_pos == old(self).out_pos,
            final(self).out_pending == old(self).out_pending,
            final(self).tag_reg@ == gcm_tag(
                old(self).key_reg@,
                old(self).iv_reg@,
                old(self).aad_buf@,
                old(self).aad_len_reg as int,
                old(self).ct_buf@,
            ),
            final(self).tag_reg@.len() == 16,
            final(self).tag_pending,
            final(self).tag_chk_reg == old(self).tag_chk_reg,
    {
        let mut zeros: Vec<u8> = Vec::new();
        let mut i: usize = 0;
        while i < 16
            invariant
                i <= 16,
                zeros@.len() == i,
                forall|j: int| 0 <= j < i ==> zeros@[j] == 0u8,
            decreases 16 - i,
        {
            zeros.push(0u8);
            i += 1;
        }
        proof {
            assert(zeros@ =~= zero_block());
        }
        let h = hw_encrypt(&self.key_reg, &zeros);
        let j0 = ctr_block_bytes(&self.iv_reg, 1);
        let ek_j0 = hw_encrypt(&self.key_reg, &j0);
        let mut data: Vec<u8> = Vec::new();
        push_padded(&mut data, &self.aad_buf, 16);
        push_padded(&mut data, &self.ct_buf, 16);
        push_be64(&mut data, (self.aad_len_reg as u64) * 8);
        push_be64(&mut data, (self.ct_buf.len() as u64) * 8);
        proof {
            assert(data@ == ghash_input(self.aad_buf@, self.aad_len_reg as int, self.ct_buf@));
        }
        let gh = ghash_raw(&h, &data);
        let tag = xor_block(&ek_j0, &gh);
        self.tag_reg = tag;
        self.tag_pending = true;
    }

    /// Tag register bank read.
    pub fn read_tag(&self) -> (r: Vec<u8>)
        requires
            self.tag_pending,
        ensures
            r@ == self.tag_reg@,
    {
        self.tag_reg.clone()
    }

    /// Tag check status register write.
    pub fn write_tag_chk(&mut self, v: u32)
        ensures
            Self::same_config(*old(self), *final(self)),
            final(self).dec_sel == old(self).dec_sel,
            final(self).key_reg@ == old(self).key_reg@,
            final(self).iv_reg@ == old(self).iv_reg@,
            final(self).chain@ == old(self).chain@,
            final(self).ctr == old(self).ctr,
            final(self).aad_len_reg == old(self).aad_len_reg,
            final(self).aad_buf@ == old(self).aad_buf@,
            final(self).ct_buf@ == old(self).ct_buf@,
            final(self).in_buf@ == old(self).in_buf@,
            final(self).out_reg@ == old(self).out_reg@,
            final(self).out_pos == old(self).out_pos,
            final(self).out_pending == old(self).out_pending,
            final(self).tag_reg@ == old(self).tag_reg@,
            final(self).tag_pending == old(self).tag_pending,
            final(self).tag_chk_reg == v,
    {
        self.tag_chk_reg = v;
    }

    /// Tag-clear write-trigger register: drops the tag, its ready flag and
    /// the check status, so the engine can be reset and reused cleanly.
    pub fn clear_tag(&mut self)
        ensures
            Self::same_config(*old(self), *final(self)),
            final(self).dec_sel == old(self).dec_sel,
            final(self).key_reg@ == old(self).key_reg@,
            final(self).iv_reg@ == old(self).iv_reg@,
            final(self).chain@ == old(self).chain@,
            final(self).ctr == old(self).ctr,
            final(self).aad_len_reg == old(self).aad_len_reg,
            final(self).aad_buf@ == old(self).aad_buf@,
            final(self).ct_buf@ == old(self).ct_buf@,
            final(self).in_buf@ == old(self).in_buf@,
            final(self).out_reg@ == old(self).out_reg@,
            final(self).out_pos == old(self).out_pos,
            final(self).out_pending == old(self).out_pending,
            final(self).tag_reg@ == Seq::<u8>::empty(),
            !final(self).tag_pending,
            final(self).tag_chk_reg == 0,
    {
        self.tag_reg = Vec::new();
        self.tag_pending = false;
        self.tag_chk_reg = 0;
    }

    /// The data-in ready flag as the flag register shows it.
    pub fn data_in_flag_reg(&self) -> (r: u32)
        ensures
            r == (if self.ready_spec() { 1u32 } else { 0u32 }),
    {
        if self.clock_on && !self.in_reset && self.responsive {
            1
        } else {
            0
        }
    }

    /// The data-out ready flag as the flag register shows it.
    pub fn data_out_flag_reg(&self) -> (r: u32)
        ensures
            r == (if self.ready_spec() && self.out_pending { 1u32 } else { 0u32 }),
    {
        if self.clock_on && !self.in_reset && self.responsive && self.out_pending {
            1
        } else {
            0
        }
    }

    /// The tag ready flag as the flag register shows it.
    pub fn tag_in_flag_reg(&self) -> (r: u32)
        ensures
            r == (if self.ready_spec() && self.tag_pending { 1u32 } else { 0u32 }),
    {
        if self.clock_on && !self.in_reset && self.responsive && self.tag_pending {
            1
        } else {
            0
        }
    }
}

} // verus!
