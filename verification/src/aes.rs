//! The cipher engine: the state machine that drives the accelerator.
//!
//! An engine is bound to one mode and one key width at construction, owns
//! its register file exclusively, and sequences key load, IV load,
//! associated data, block streaming and the tag phase. Every poll site
//! spins against a ready flag up to a bounded number of iterations and
//! surfaces a timeout instead of hanging on a wedged peripheral; every
//! out-of-order operation is rejected before it touches a register.

use vstd::prelude::*;
use core::marker::PhantomData;
use crate::AesError;
use crate::cipher::{
    aes_dec, aes_enc, be32, gcm_keystream, gcm_tag, valid_key_len, xor_seq, zero_pad,
};
use crate::periph::{AesPeriph, ModeSel};

verus! {

/// Electronic codebook mode (type state).
pub struct Ecb;

/// Cipher block chaining mode (type state).
pub struct Cbc;

/// Galois/counter authenticated mode (type state).
pub struct Gcm;

/// 128-bit key width (type state).
pub struct K128;

/// 192-bit key width (type state).
pub struct K192;

/// 256-bit key width (type state).
pub struct K256;

/// Which mode control value a mode tag selects.
pub trait CipherMode {
    spec fn mode_sel_spec() -> ModeSel;

    fn mode_sel() -> (m: ModeSel)
        ensures
            m == Self::mode_sel_spec(),
    ;
}

impl CipherMode for Ecb {
    open spec fn mode_sel_spec() -> ModeSel {
        ModeSel::Ecb
    }

    fn mode_sel() -> ModeSel {
        ModeSel::Ecb
    }
}

impl CipherMode for Cbc {
    open spec fn mode_sel_spec() -> ModeSel {
        ModeSel::Cbc
    }

    fn mode_sel() -> ModeSel {
        ModeSel::Cbc
    }
}

impl CipherMode for Gcm {
    open spec fn mode_sel_spec() -> ModeSel {
        ModeSel::Gcm
    }

    fn mode_sel() -> ModeSel {
        ModeSel::Gcm
    }
}

/// How many key bytes a key-width tag stands for.
pub trait KeyWidth {
    spec fn key_len_spec() -> int;

    proof fn key_len_valid()
        ensures
            valid_key_len(Self::key_len_spec()),
    ;

    fn key_len() -> (n: usize)
        ensures
            n as int == Self::key_len_spec(),
    ;
}

impl KeyWidth for K128 {
    open spec fn key_len_spec() -> int {
        16
    }

    proof fn key_len_valid() {
    }

    fn key_len() -> usize {
        16
    }
}

impl KeyWidth for K192 {
    open spec fn key_len_spec() -> int {
        24
    }

    proof fn key_len_valid() {
    }

    fn key_len() -> usize {
        24
    }
}

impl KeyWidth for K256 {
    open spec fn key_len_spec() -> int {
        32
    }

    proof fn key_len_valid() {
    }

    fn key_len() -> usize {
        32
    }
}

/// Where in the mandated session order the engine stands.
#[derive(Clone, Copy, Debug, PartialEq, Eq, Structural)]
pub enum Phase {
    /// No session: only a key load is accepted.
    Idle,
    /// Key loaded; an IV or nonce load is owed.
    Keyed,
    /// Session set up; associated data or payload blocks are accepted.
    Ready,
    /// Payload blocks are flowing.
    Stream,
    /// The tag phase ran; the engine owes a reset before reuse.
    Finished,
    /// A poll ran into its bound; the engine owes a reset before reuse.
    Fault,
}

/// The direction the streaming phase of a session is committed to.
#[derive(Clone, Copy, Debug, PartialEq, Eq, Structural)]
pub enum Dir {
    Neutral,
    Encrypting,
    Decrypting,
}

/// Default bound on every readiness poll.
pub const DEFAULT_POLL_BOUND: u32 = 1024;

/// Most associated-data bytes one session announces.
pub const MAX_AAD_BYTES: u32 = 0x1000_0000;

/// Counter value at which payload streaming stops: bounds a session's
/// payload so the ciphertext buffer arithmetic stays in range.
pub const MAX_BLOCKS_CTR: u32 = 0x0100_0000;

/// Length in bytes of the zero-padded associated-data word stream that an
/// announced byte count calls for.
pub open spec fn padded4(n: int) -> int {
    ((n + 3) / 4) * 4
}

/// Plaintext an authenticated decryption session is withholding. The
/// bytes are private: no caller reaches provisional plaintext by field
/// access before the tag check releases it.
pub struct Withheld {
    buf: Vec<u8>,
}

impl Withheld {
    /// The withheld bytes, visible to contracts only.
    pub closed spec fn bytes(&self) -> Seq<u8> {
        self.buf@
    }
}

/// A hardware AES engine bound to one mode and one key width.
pub struct Aes<MODE, KLEN> {
    /// The register file the engine owns.
    pub aes: AesPeriph,
    /// Session order bookkeeping.
    pub phase: Phase,
    /// Streaming direction the session committed to.
    pub dir: Dir,
    /// Plaintext withheld during an authenticated decryption session until
    /// the tag check passes.
    pub pt_buf: Withheld,
    /// Bound on every readiness poll.
    pub poll_bound: u32,
    pub _mode: PhantomData<MODE>,
    pub _klen: PhantomData<KLEN>,
}

impl<MODE: CipherMode, KLEN: KeyWidth> Aes<MODE, KLEN> {
    /// The plaintext the engine is withholding for the tag check.
    pub open spec fn pt_view(&self) -> Seq<u8> {
        self.pt_buf.bytes()
    }

    /// The engine's invariant against its register file.
    pub open spec fn wf(&self) -> bool {
        &&& self.aes.mode_reg == MODE::mode_sel_spec()
        &&& !self.aes.in_reset
        &&& self.aes.in_buf@.len() == 0
        &&& !self.aes.out_pending
        &&& ((self.phase == Phase::Keyed || self.phase == Phase::Ready || self.phase
            == Phase::Stream || self.phase == Phase::Finished) ==> self.aes.key_reg@.len()
            == KLEN::key_len_spec())
        &&& ((MODE::mode_sel_spec() == ModeSel::Cbc && (self.phase == Phase::Ready || self.phase
            == Phase::Stream)) ==> self.aes.chain@.len() == 16)
        &&& ((MODE::mode_sel_spec() == ModeSel::Gcm && (self.phase == Phase::Ready || self.phase
            == Phase::Stream)) ==> {
            &&& self.aes.iv_reg@.len() == 12
            &&& 2 <= self.aes.ctr <= MAX_BLOCKS_CTR
            &&& self.aes.ct_buf@.len() == 16 * (self.aes.ctr - 2)
            &&& self.aes.aad_len_reg <= MAX_AAD_BYTES
            &&& self.aes.aad_buf@.len() <= padded4(self.aes.aad_len_reg as int)
            &&& self.aes.aad_buf@.len() % 4 == 0
            &&& (self.dir == Dir::Decrypting ==> self.pt_view().len() == self.aes.ct_buf@.len())
            &&& (self.phase == Phase::Ready ==> self.aes.ctr == 2 && self.pt_view().len() == 0)
        })
    }

    /// Nothing about the engine differs between the two states.
    pub open spec fn same_state(a: Self, b: Self) -> bool {
        &&& AesPeriph::same_config(a.aes, b.aes)
        &&& AesPeriph::same_session(a.aes, b.aes)
        &&& b.phase == a.phase
        &&& b.dir == a.dir
        &&& b.pt_view() == a.pt_view()
        &&& b.poll_bound == a.poll_bound
    }

    /// What a poll timeout leaves behind: registers untouched, the engine
    /// marked faulted until it is reset.
    pub open spec fn fault_post(a: Self, b: Self) -> bool {
        &&& AesPeriph::same_config(a.aes, b.aes)
        &&& AesPeriph::same_session(a.aes, b.aes)
        &&& b.phase == Phase::Fault
        &&& b.dir == a.dir
        &&& b.pt_view() == a.pt_view()
        &&& b.poll_bound == a.poll_bound
    }

    /// What a freshly bound engine looks like against the handle it consumed.
    pub open spec fn bound_fresh(c: Self, aes: AesPeriph) -> bool {
        &&& c.wf()
        &&& c.phase == Phase::Idle
        &&& c.dir == Dir::Neutral
        &&& c.pt_view() == Seq::<u8>::empty()
        &&& c.poll_bound == DEFAULT_POLL_BOUND
        &&& c.aes.mode_reg == MODE::mode_sel_spec()
        &&& c.aes.clock_on == aes.clock_on
        &&& c.aes.responsive == aes.responsive
        &&& !c.aes.in_reset
        &&& c.aes.key_reg@ == aes.key_reg@
        &&& c.aes.iv_reg@ == aes.iv_reg@
        &&& c.aes.chain@ == aes.chain@
        &&& c.aes.ctr == aes.ctr
        &&& c.aes.aad_len_reg == aes.aad_len_reg
        &&& c.aes.aad_buf@ == aes.aad_buf@
        &&& c.aes.ct_buf@ == aes.ct_buf@
        &&& c.aes.tag_reg@ == aes.tag_reg@
        &&& c.aes.tag_pending == aes.tag_pending
        &&& c.aes.tag_chk_reg == aes.tag_chk_reg
        &&& !c.aes.dec_sel
        &&& c.aes.in_buf@ == Seq::<u8>::empty()
        &&& !c.aes.out_pending
        &&& c.aes.out_pos == 0
    }

    /// What the full clock-and-reset initialization leaves behind: clock on,
    /// reset line released, every session register cleared, the engine idle.
    pub open spec fn reset_post(pre: Self, post: Self) -> bool {
        &&& post.aes.clock_on
        &&& !post.aes.in_reset
        &&& post.aes.responsive == pre.aes.responsive
        &&& post.aes.mode_reg == pre.aes.mode_reg
        &&& post.aes.session_cleared()
        &&& post.phase == Phase::Idle
        &&& post.dir == Dir::Neutral
        &&& post.pt_view() == Seq::<u8>::empty()
        &&& post.poll_bound == pre.poll_bound
    }

    /// Resetting twice in a row is safe and changes nothing after the first
    /// reset: the second reset leaves the very same idle state, ready for a
    /// fresh session.
    pub proof fn lemma_reset_idempotent(a: Self, b: Self, c: Self)
        requires
            Self::reset_post(a, b),
            Self::reset_post(b, c),
        ensures
            Self::reset_post(a, c),
            c.phase == b.phase,
            c.dir == b.dir,
            c.pt_view() == b.pt_view(),
            c.poll_bound == b.poll_bound,
            AesPeriph::same_config(b.aes, c.aes),
            AesPeriph::same_session(b.aes, c.aes),
    {
    }

    /// Consumes the register handle and binds it to the engine's mode.
    fn bind(aes: AesPeriph) -> (c: Self)
        requires
            !aes.in_reset,
        ensures
            Self::bound_fresh(c, aes),
    {
        let mut aes = aes;
        aes.write_mode(MODE::mode_sel());
        Aes {
            aes,
            phase: Phase::Idle,
            dir: Dir::Neutral,
            pt_buf: Withheld { buf: Vec::new() },
            poll_bound: DEFAULT_POLL_BOUND,
            _mode: PhantomData,
            _klen: PhantomData,
        }
    }

    /// Releases the register handle.
    pub fn free(self) -> (r: AesPeriph)
        ensures
            AesPeriph::same_config(self.aes, r),
            AesPeriph::same_session(self.aes, r),
    {
        self.aes
    }

    /// Enables the peripheral's clock, then asserts and releases its reset
    /// line, leaving the hardware in a known idle state. Calling it again is
    /// safe; it forcibly abandons whatever session was in flight.
    pub fn clk_init(&mut self)
        requires
            old(self).wf(),
        ensures
            final(self).wf(),
            Self::reset_post(*old(self), *final(self)),
    {
        self.aes.enable_clock();
        self.aes.assert_reset();
        self.aes.deassert_reset();
        self.phase = Phase::Idle;
        self.dir = Dir::Neutral;
        self.pt_buf = Withheld { buf: Vec::new() };
    }

    /// Discards the session in flight by pulsing the reset line; the clock
    /// gate is left as it stands. Calling it again is safe.
    pub fn abandon(&mut self)
        requires
            old(self).wf(),
        ensures
            final(self).wf(),
            final(self).aes.clock_on == old(self).aes.clock_on,
            !final(self).aes.in_reset,
            final(self).aes.responsive == old(self).aes.responsive,
            final(self).aes.mode_reg == old(self).aes.mode_reg,
            final(self).aes.session_cleared(),
            final(self).phase == Phase::Idle,
            final(self).dir == Dir::Neutral,
            final(self).pt_view() == Seq::<u8>::empty(),
            final(self).poll_bound == old(self).poll_bound,
    {
        self.aes.assert_reset();
        self.aes.deassert_reset();
        self.phase = Phase::Idle;
        self.dir = Dir::Neutral;
        self.pt_buf = Withheld { buf: Vec::new() };
    }

    /// Sets the bound every readiness poll spins up to.
    pub fn set_poll_bound(&mut self, n: u32)
        requires
            old(self).wf(),
        ensures
            final(self).wf(),
            final(self).poll_bound == n,
            AesPeriph::same_config(old(self).aes, final(self).aes),
            AesPeriph::same_session(old(self).aes, final(self).aes),
            final(self).phase == old(self).phase,
            final(self).dir == old(self).dir,
            final(self).pt_view() == old(self).pt_view(),
    {
        self.poll_bound = n;
    }

    /// Latches the session key into the key register bank. Accepted only
    /// while idle, and only with exactly the bound key width; a codebook
    /// engine is then ready for blocks, the other modes owe an IV first.
    pub fn load_key(&mut self, key: &Vec<u8>) -> (r: Result<(), AesError>)
        requires
            old(self).wf(),
        ensures
            final(self).wf(),
            r is Ok <==> (old(self).phase == Phase::Idle && key@.len() == KLEN::key_len_spec()),
            r == Err::<(), AesError>(AesError::InvalidSessionOrder) <==> old(self).phase
                != Phase::Idle,
            r == Err::<(), AesError>(AesError::InvalidKeyLength) <==> (old(self).phase
                == Phase::Idle && key@.len() != KLEN::key_len_spec()),
            r is Err ==> Self::same_state(*old(self), *final(self)),
            r is Ok ==> {
                &&& final(self).aes.key_reg@ == key@
                &&& final(self).phase == (if MODE::mode_sel_spec() == ModeSel::Ecb {
                    Phase::Ready
                } else {
                    Phase::Keyed
                })
                &&& final(self).dir == Dir::Neutral
                &&& final(self).pt_view() == Seq::<u8>::empty()
                &&& AesPeriph::same_config(old(self).aes, final(self).aes)
                &&& final(self).aes.iv_reg@ == old(self).aes.iv_reg@
                &&& final(self).aes.chain@ == old(self).aes.chain@
                &&& final(self).poll_bound == old(self).poll_bound
            },
    {
        if !matches!(self.phase, Phase::Idle) {
            return Err(AesError::InvalidSessionOrder);
        }
        if key.len() != KLEN::key_len() {
            return Err(AesError::InvalidKeyLength);
        }
        self.aes.write_key(key);
        self.phase = if matches!(MODE::mode_sel(), ModeSel::Ecb) {
            Phase::Ready
        } else {
            Phase::Keyed
        };
        self.dir = Dir::Neutral;
        self.pt_buf = Withheld { buf: Vec::new() };
        Ok(())
    }

    /// Data-in ready flag register read.
    pub fn get_data_in_flag(&self) -> (r: u32)
        ensures
            r == (if self.aes.ready_spec() {
                1u32
            } else {
                0u32
            }),
    {
        self.aes.data_in_flag_reg()
    }

    /// Data-out ready flag register read.
    pub fn get_data_out_flag(&self) -> (r: u32)
        ensures
            r == (if self.aes.ready_spec() && self.aes.out_pending {
                1u32
            } else {
                0u32
            }),
    {
        self.aes.data_out_flag_reg()
    }

    /// Tag ready flag register read.
    pub fn get_tag_in_flag(&self) -> (r: u32)
        ensures
            r == (if self.aes.ready_spec() && self.aes.tag_pending {
                1u32
            } else {
                0u32
            }),
    {
        self.aes.tag_in_flag_reg()
    }

    /// Data-out register word read: hands out the next big-endian word of
    /// the pending output block and consumes it, advancing the read
    /// position; the fourth read of a block drops the data-out ready flag.
    /// While nothing is pending the read returns zero and changes nothing.
    pub fn get_out_data(&mut self) -> (r: u32)
        ensures
            r == old(self).aes.out_word_spec(),
            old(self).wf() ==> final(self).wf(),
            final(self).phase == old(self).phase,
            final(self).dir == old(self).dir,
            final(self).pt_view() == old(self).pt_view(),
            final(self).poll_bound == old(self).poll_bound,
            AesPeriph::same_config(old(self).aes, final(self).aes),
            final(self).aes.dec_sel == old(self).aes.dec_sel,
            final(self).aes.key_reg@ == old(self).aes.key_reg@,
            final(self).aes.iv_reg@ == old(self).aes.iv_reg@,
            final(self).aes.chain@ == old(self).aes.chain@,
            final(self).aes.ctr == old(self).aes.ctr,
            final(self).aes.aad_len_reg == old(self).aes.aad_len_reg,
            final(self).aes.aad_buf@ == old(self).aes.aad_buf@,
            final(self).aes.ct_buf@ == old(self).aes.ct_buf@,
            final(self).aes.in_buf@ == old(self).aes.in_buf@,
            final(self).aes.out_reg@ == old(self).aes.out_reg@,
            final(self).aes.tag_reg@ == old(self).aes.tag_reg@,
            final(self).aes.tag_pending == old(self).aes.tag_pending,
            final(self).aes.tag_chk_reg == old(self).aes.tag_chk_reg,
            (old(self).aes.ready_spec() && old(self).aes.out_pending && old(self).aes.out_pos + 4
                <= old(self).aes.out_reg@.len()) ==> {
                &&& final(self).aes.out_pos == old(self).aes.out_pos + 4
                &&& final(self).aes.out_pending == (old(self).aes.out_pos + 4 < old(
                    self,
                ).aes.out_reg@.len())
            },
            !(old(self).aes.ready_spec() && old(self).aes.out_pending && old(self).aes.out_pos + 4
                <= old(self).aes.out_reg@.len()) ==> {
                &&& final(self).aes.out_pos == old(self).aes.out_pos
                &&& final(self).aes.out_pending == old(self).aes.out_pending
            },
    {
        self.aes.out_data_reg()
    }

    /// Tag check status register read.
    pub fn get_tag_chk(&self) -> (r: u32)
        ensures
            r == self.aes.tag_chk_reg,
    {
        self.aes.tag_chk_reg
    }

    /// Tag-clear write-trigger register: drops the tag, its ready flag and
    /// the check status, as required after a tag read and before reuse.
    pub fn clear_chk_tag(&mut self)
        requires
            old(self).wf(),
        ensures
            final(self).wf(),
            AesPeriph::same_config(old(self).aes, final(self).aes),
            final(self).aes.key_reg@ == old(self).aes.key_reg@,
            final(self).aes.iv_reg@ == old(self).aes.iv_reg@,
            final(self).aes.chain@ == old(self).aes.chain@,
            final(self).aes.ctr == old(self).aes.ctr,
            final(self).aes.aad_len_reg == old(self).aes.aad_len_reg,
            final(self).aes.aad_buf@ == old(self).aes.aad_buf@,
            final(self).aes.ct_buf@ == old(self).aes.ct_buf@,
            final(self).aes.out_reg@ == old(self).aes.out_reg@,
            final(self).aes.out_pending == old(self).aes.out_pending,
            final(self).aes.tag_reg@ == Seq::<u8>::empty(),
            !final(self).aes.tag_pending,
            final(self).aes.tag_chk_reg == 0,
            final(self).phase == old(self).phase,
            final(self).dir == old(self).dir,
            final(self).pt_view() == old(self).pt_view(),
            final(self).poll_bound == old(self).poll_bound,
    {
        self.aes.clear_tag();
    }

    /// Spins on the data-in ready flag up to the poll bound.
    fn wait_input_ready(&self) -> (ok: bool)
        ensures
            ok == self.aes.ready_spec(),
    {
        let mut ok = self.get_data_in_flag() == 1;
        let mut spins: u32 = 0;
        while !ok && spins < self.poll_bound
            invariant
                ok == self.aes.ready_spec(),
                spins <= self.poll_bound,
            decreases self.poll_bound - spins,
        {
            ok = self.get_data_in_flag() == 1;
            spins = spins + 1;
        }
        ok
    }

    /// Spins on the data-out ready flag up to the poll bound.
    fn wait_output_ready(&self) -> (ok: bool)
        ensures
            ok == (self.aes.ready_spec() && self.aes.out_pending),
    {
        let mut ok = self.get_data_out_flag() == 1;
        let mut spins: u32 = 0;
        while !ok && spins < self.poll_bound
            invariant
                ok == (self.aes.ready_spec() && self.aes.out_pending),
                spins <= self.poll_bound,
            decreases self.poll_bound - spins,
        {
            ok = self.get_data_out_flag() == 1;
            spins = spins + 1;
        }
        ok
    }

    /// Streams one whole block into the data-in register, one 32-bit word
    /// at a time, polling the data-in ready flag before every word write;
    /// the fourth word runs the sequencer on the block.
    fn stream_block(&mut self, block: &Vec<u8>)
        requires
            old(self).aes.ready_spec(),
            old(self).aes.in_buf@.len() == 0,
            !old(self).aes.out_pending,
            block@.len() == 16,
            valid_key_len(old(self).aes.key_reg@.len() as int),
            old(self).aes.mode_reg == ModeSel::Cbc ==> old(self).aes.chain@.len() == 16,
            old(self).aes.mode_reg == ModeSel::Gcm ==> {
                &&& old(self).aes.iv_reg@.len() == 12
                &&& old(self).aes.ctr < 0xFFFF_FFFFu32
                &&& old(self).aes.ct_buf@.len() + 16 < usize::MAX
            },
        ensures
            final(self).phase == old(self).phase,
            final(self).dir == old(self).dir,
            final(self).pt_view() == old(self).pt_view(),
            final(self).poll_bound == old(self).poll_bound,
            AesPeriph::same_config(old(self).aes, final(self).aes),
            final(self).aes.dec_sel == old(self).aes.dec_sel,
            final(self).aes.key_reg@ == old(self).aes.key_reg@,
            final(self).aes.iv_reg@ == old(self).aes.iv_reg@,
            final(self).aes.aad_len_reg == old(self).aes.aad_len_reg,
            final(self).aes.aad_buf@ == old(self).aes.aad_buf@,
            final(self).aes.tag_reg@ == old(self).aes.tag_reg@,
            final(self).aes.tag_pending == old(self).aes.tag_pending,
            final(self).aes.tag_chk_reg == old(self).aes.tag_chk_reg,
            final(self).aes.in_buf@.len() == 0,
            final(self).aes.out_pending,
            final(self).aes.out_pos == 0,
            final(self).aes.out_reg@.len() == 16,
            old(self).aes.mode_reg == ModeSel::Ecb ==> {
                &&& final(self).aes.out_reg@ == (if old(self).aes.dec_sel {
                    aes_dec(old(self).aes.key_reg@, block@)
                } else {
                    aes_enc(old(self).aes.key_reg@, block@)
                })
                &&& final(self).aes.chain@ == old(self).aes.chain@
                &&& final(self).aes.ctr == old(self).aes.ctr
                &&& final(self).aes.ct_buf@ == old(self).aes.ct_buf@
            },
            old(self).aes.mode_reg == ModeSel::Ecb && old(self).aes.dec_sel ==> (forall|p: Seq<u8>|
                p.len() == 16 && #[trigger] aes_enc(old(self).aes.key_reg@, p) == block@
                    ==> final(self).aes.out_reg@ == p),
            old(self).aes.mode_reg == ModeSel::Cbc && !old(self).aes.dec_sel ==> {
                &&& final(self).aes.out_reg@ == aes_enc(
                    old(self).aes.key_reg@,
                    xor_seq(block@, old(self).aes.chain@),
                )
                &&& final(self).aes.chain@ == final(self).aes.out_reg@
                &&& final(self).aes.ctr == old(self).aes.ctr
                &&& final(self).aes.ct_buf@ == old(self).aes.ct_buf@
            },
            old(self).aes.mode_reg == ModeSel::Cbc && old(self).aes.dec_sel ==> {
                &&& final(self).aes.out_reg@ == xor_seq(
                    aes_dec(old(self).aes.key_reg@, block@),
                    old(self).aes.chain@,
                )
                &&& final(self).aes.chain@ == block@
                &&& final(self).aes.ctr == old(self).aes.ctr
                &&& final(self).aes.ct_buf@ == old(self).aes.ct_buf@
                &&& forall|p: Seq<u8>|
                    p.len() == 16 && #[trigger] aes_enc(
                        old(self).aes.key_reg@,
                        xor_seq(p, old(self).aes.chain@),
                    ) == block@ ==> final(self).aes.out_reg@ == p
            },
            old(self).aes.mode_reg == ModeSel::Gcm ==> {
                &&& final(self).aes.out_reg@ == xor_seq(
                    block@,
                    gcm_keystream(old(self).aes.key_reg@, old(self).aes.iv_reg@, old(self).aes.ctr),
                )
                &&& final(self).aes.chain@ == old(self).aes.chain@
                &&& final(self).aes.ctr == old(self).aes.ctr + 1
                &&& final(self).aes.ct_buf@ == old(self).aes.ct_buf@ + (if old(self).aes.dec_sel {
                    block@
                } else {
                    final(self).aes.out_reg@
                })
                &&& forall|p: Seq<u8>|
                    p.len() == 16 && #[trigger] xor_seq(
                        p,
                        gcm_keystream(
                            old(self).aes.key_reg@,
                            old(self).aes.iv_reg@,
                            old(self).aes.ctr,
                        ),
                    ) == block@ ==> final(self).aes.out_reg@ == p
            },
    {
        let w0 = crate::cipher::be_word_of(block, 0);
        let w1 = crate::cipher::be_word_of(block, 4);
        let w2 = crate::cipher::be_word_of(block, 8);
        let w3 = crate::cipher::be_word_of(block, 12);
        proof {
            crate::cipher::lemma_be32_pack(block@[0], block@[1], block@[2], block@[3]);
            crate::cipher::lemma_be32_pack(block@[4], block@[5], block@[6], block@[7]);
            crate::cipher::lemma_be32_pack(block@[8], block@[9], block@[10], block@[11]);
            crate::cipher::lemma_be32_pack(block@[12], block@[13], block@[14], block@[15]);
        }
        let ok0 = self.wait_input_ready();
        assert(ok0);
        self.aes.write_in_word(w0);
        let ok1 = self.wait_input_ready();
        assert(ok1);
        self.aes.write_in_word(w1);
        let ok2 = self.wait_input_ready();
        assert(ok2);
        self.aes.write_in_word(w2);
        let ok3 = self.wait_input_ready();
        assert(ok3);
        proof {
            assert(self.aes.in_buf@ + be32(w3) =~= block@);
        }
        self.aes.write_in_word(w3);
    }

    /// Reads the output block back from the data-out register, one 32-bit
    /// word at a time, polling the data-out ready flag before every read;
    /// the fourth read consumes the block and drops the flag.
    fn read_block_words(&mut self) -> (out: Vec<u8>)
        requires
            old(self).aes.ready_spec(),
            old(self).aes.out_pending,
            old(self).aes.out_pos == 0,
            old(self).aes.out_reg@.len() == 16,
        ensures
            out@ == old(self).aes.out_reg@,
            final(self).phase == old(self).phase,
            final(self).dir == old(self).dir,
            final(self).pt_view() == old(self).pt_view(),
            final(self).poll_bound == old(self).poll_bound,
            AesPeriph::same_config(old(self).aes, final(self).aes),
            final(self).aes.dec_sel == old(self).aes.dec_sel,
            final(self).aes.key_reg@ == old(self).aes.key_reg@,
            final(self).aes.iv_reg@ == old(self).aes.iv_reg@,
            final(self).aes.chain@ == old(self).aes.chain@,
            final(self).aes.ctr == old(self).aes.ctr,
            final(self).aes.aad_len_reg == old(self).aes.aad_len_reg,
            final(self).aes.aad_buf@ == old(self).aes.aad_buf@,
            final(self).aes.ct_buf@ == old(self).aes.ct_buf@,
            final(self).aes.in_buf@ == old(self).aes.in_buf@,
            final(self).aes.out_reg@ == old(self).aes.out_reg@,
            !final(self).aes.out_pending,
            final(self).aes.tag_reg@ == old(self).aes.tag_reg@,
            final(self).aes.tag_pending == old(self).aes.tag_pending,
            final(self).aes.tag_chk_reg == old(self).aes.tag_chk_reg,
    {
        let mut out: Vec<u8> = Vec::new();
        let ok0 = self.wait_output_ready();
        assert(ok0);
        let o0 = self.aes.out_data_reg();
        let b0 = crate::cipher::be32_bytes(o0);
        crate::cipher::push_all(&mut out, &b0);
        let ok1 = self.wait_output_ready();
        assert(ok1);
        let o1 = self.aes.out_data_reg();
        let b1 = crate::cipher::be32_bytes(o1);
        crate::cipher::push_all(&mut out, &b1);
        let ok2 = self.wait_output_ready();
        assert(ok2);
        let o2 = self.aes.out_data_reg();
        let b2 = crate::cipher::be32_bytes(o2);
        crate::cipher::push_all(&mut out, &b2);
        let ok3 = self.wait_output_ready();
        assert(ok3);
        let o3 = self.aes.out_data_reg();
        let b3 = crate::cipher::be32_bytes(o3);
        crate::cipher::push_all(&mut out, &b3);
        proof {
            let s = old(self).aes.out_reg@;
            crate::cipher::lemma_be32_pack(s[0], s[1], s[2], s[3]);
            crate::cipher::lemma_be32_pack(s[4], s[5], s[6], s[7]);
            crate::cipher::lemma_be32_pack(s[8], s[9], s[10], s[11]);
            crate::cipher::lemma_be32_pack(s[12], s[13], s[14], s[15]);
            assert(out@ =~= s);
        }
        out
    }

    /// Spins on the tag ready flag up to the poll bound.
    fn wait_tag_ready(&self) -> (ok: bool)
        ensures
            ok == (self.aes.ready_spec() && self.aes.tag_pending),
    {
        let mut ok = self.get_tag_in_flag() == 1;
        let mut spins: u32 = 0;
        while !ok && spins < self.poll_bound
            invariant
                ok == (self.aes.ready_spec() && self.aes.tag_pending),
                spins <= self.poll_bound,
            decreases self.poll_bound - spins,
        {
            ok = self.get_tag_in_flag() == 1;
            spins = spins + 1;
        }
        ok
    }
}

impl<KLEN: KeyWidth> Aes<Ecb, KLEN> {
    /// The codebook engine accepts a payload block: a key has been loaded
    /// and no fault or tag phase stands in the way.
    pub open spec fn stream_order_ok(&self) -> bool {
        self.phase == Phase::Ready || self.phase == Phase::Stream
    }

    /// One block through the codebook, in place: each of the four input
    /// words is written after a data-in-ready poll, then each output word
    /// is read back after a data-out-ready poll.
    pub fn encrypt_block(&mut self, block: &mut Vec<u8>) -> (r: Result<(), AesError>)
        requires
            old(self).wf(),
            old(block)@.len() == 16,
        ensures
            final(self).wf(),
            final(block)@.len() == 16,
            r is Ok <==> (old(self).stream_order_ok() && old(self).aes.ready_spec()),
            r == Err::<(), AesError>(AesError::InvalidSessionOrder) <==> !old(
                self,
            ).stream_order_ok(),
            r == Err::<(), AesError>(AesError::HardwareTimeout) <==> (old(self).stream_order_ok()
                && !old(self).aes.ready_spec()),
            r is Err ==> final(block)@ == old(block)@,
            r == Err::<(), AesError>(AesError::InvalidSessionOrder) ==> Self::same_state(
                *old(self),
                *final(self),
            ),
            r == Err::<(), AesError>(AesError::HardwareTimeout) ==> Self::fault_post(
                *old(self),
                *final(self),
            ),
            r is Ok ==> {
                &&& final(block)@ == aes_enc(old(self).aes.key_reg@, old(block)@)
                &&& final(self).phase == Phase::Stream
                &&& final(self).dir == old(self).dir
                &&& final(self).aes.key_reg@ == old(self).aes.key_reg@
                &&& AesPeriph::same_config(old(self).aes, final(self).aes)
                &&& final(self).pt_view() == old(self).pt_view()
                &&& final(self).poll_bound == old(self).poll_bound
            },
    {
        if !(matches!(self.phase, Phase::Ready) || matches!(self.phase, Phase::Stream)) {
            return Err(AesError::InvalidSessionOrder);
        }
        if !self.wait_input_ready() {
            self.phase = Phase::Fault;
            return Err(AesError::HardwareTimeout);
        }
        proof {
            KLEN::key_len_valid();
        }
        self.aes.write_dir(false);
        self.stream_block(block);
        let out = self.read_block_words();
        *block = out;
        self.phase = Phase::Stream;
        Ok(())
    }

    /// One block back through the codebook, in place. The last clause is the
    /// round trip: a block that came out of the codebook under this key goes
    /// back to what went in.
    pub fn decrypt_block(&mut self, block: &mut Vec<u8>) -> (r: Result<(), AesError>)
        requires
            old(self).wf(),
            old(block)@.len() == 16,
        ensures
            final(self).wf(),
            final(block)@.len() == 16,
            r is Ok <==> (old(self).stream_order_ok() && old(self).aes.ready_spec()),
            r == Err::<(), AesError>(AesError::InvalidSessionOrder) <==> !old(
                self,
            ).stream_order_ok(),
            r == Err::<(), AesError>(AesError::HardwareTimeout) <==> (old(self).stream_order_ok()
                && !old(self).aes.ready_spec()),
            r is Err ==> final(block)@ == old(block)@,
            r == Err::<(), AesError>(AesError::InvalidSessionOrder) ==> Self::same_state(
                *old(self),
                *final(self),
            ),
            r == Err::<(), AesError>(AesError::HardwareTimeout) ==> Self::fault_post(
                *old(self),
                *final(self),
            ),
            r is Ok ==> {
                &&& final(block)@ == aes_dec(old(self).aes.key_reg@, old(block)@)
                &&& final(self).phase == Phase::Stream
                &&& final(self).dir == old(self).dir
                &&& final(self).aes.key_reg@ == old(self).aes.key_reg@
                &&& AesPeriph::same_config(old(self).aes, final(self).aes)
                &&& final(self).pt_view() == old(self).pt_view()
                &&& final(self).poll_bound == old(self).poll_bound
            },
            r is Ok ==> (forall|p: Seq<u8>|
                p.len() == 16 && #[trigger] aes_enc(old(self).aes.key_reg@, p) == old(block)@
                    ==> final(block)@ == p),
    {
        if !(matches!(self.phase, Phase::Ready) || matches!(self.phase, Phase::Stream)) {
            return Err(AesError::InvalidSessionOrder);
        }
        if !self.wait_input_ready() {
            self.phase = Phase::Fault;
            return Err(AesError::HardwareTimeout);
        }
        proof {
            KLEN::key_len_valid();
        }
        self.aes.write_dir(true);
        self.stream_block(block);
        let out = self.read_block_words();
        *block = out;
        self.phase = Phase::Stream;
        Ok(())
    }
}

impl<KLEN: KeyWidth> Aes<Cbc, KLEN> {
    /// The chained engine accepts a payload block in the given direction:
    /// key and IV are in, and the session has not committed to the other
    /// direction.
    pub open spec fn stream_order_ok(&self, decrypt: bool) -> bool {
        self.phase == Phase::Ready || (self.phase == Phase::Stream && self.dir == (if decrypt {
            Dir::Decrypting
        } else {
            Dir::Encrypting
        }))
    }

    /// Latches the 16-byte IV and primes the chaining state with it. Owed
    /// after the key and before the first block.
    pub fn load_iv(&mut self, iv: &Vec<u8>) -> (r: Result<(), AesError>)
        requires
            old(self).wf(),
        ensures
            final(self).wf(),
            r is Ok <==> (old(self).phase == Phase::Keyed && iv@.len() == 16),
            r == Err::<(), AesError>(AesError::InvalidSessionOrder) <==> old(self).phase
                != Phase::Keyed,
            r == Err::<(), AesError>(AesError::InvalidKeyLength) <==> (old(self).phase
                == Phase::Keyed && iv@.len() != 16),
            r is Err ==> Self::same_state(*old(self), *final(self)),
            r is Ok ==> {
                &&& final(self).aes.iv_reg@ == iv@
                &&& final(self).aes.chain@ == iv@
                &&& final(self).aes.key_reg@ == old(self).aes.key_reg@
                &&& final(self).phase == Phase::Ready
                &&& final(self).dir == Dir::Neutral
                &&& final(self).pt_view() == Seq::<u8>::empty()
                &&& AesPeriph::same_config(old(self).aes, final(self).aes)
                &&& final(self).poll_bound == old(self).poll_bound
            },
    {
        if !matches!(self.phase, Phase::Keyed) {
            return Err(AesError::InvalidSessionOrder);
        }
        if iv.len() != 16 {
            return Err(AesError::InvalidKeyLength);
        }
        self.aes.write_iv(iv);
        self.phase = Phase::Ready;
        self.dir = Dir::Neutral;
        self.pt_buf = Withheld { buf: Vec::new() };
        Ok(())
    }

    /// One block through the chained mode, in place: the block is xored with
    /// the chaining state, run through the cipher, and the ciphertext both
    /// comes back and becomes the next chaining state.
    pub fn encrypt_block(&mut self, block: &mut Vec<u8>) -> (r: Result<(), AesError>)
        requires
            old(self).wf(),
            old(block)@.len() == 16,
        ensures
            final(self).wf(),
            final(block)@.len() == 16,
            r is Ok <==> (old(self).stream_order_ok(false) && old(self).aes.ready_spec()),
            r == Err::<(), AesError>(AesError::InvalidSessionOrder) <==> !old(self).stream_order_ok(
                false,
            ),
            r == Err::<(), AesError>(AesError::HardwareTimeout) <==> (old(self).stream_order_ok(
                false,
            ) && !old(self).aes.ready_spec()),
            r is Err ==> final(block)@ == old(block)@,
            r == Err::<(), AesError>(AesError::InvalidSessionOrder) ==> Self::same_state(
                *old(self),
                *final(self),
            ),
            r == Err::<(), AesError>(AesError::HardwareTimeout) ==> Self::fault_post(
                *old(self),
                *final(self),
            ),
            r is Ok ==> {
                &&& final(block)@ == aes_enc(
                    old(self).aes.key_reg@,
                    xor_seq(old(block)@, old(self).aes.chain@),
                )
                &&& final(self).aes.chain@ == final(block)@
                &&& final(self).phase == Phase::Stream
                &&& final(self).dir == Dir::Encrypting
                &&& final(self).aes.key_reg@ == old(self).aes.key_reg@
                &&& final(self).aes.iv_reg@ == old(self).aes.iv_reg@
                &&& AesPeriph::same_config(old(self).aes, final(self).aes)
                &&& final(self).pt_view() == old(self).pt_view()
                &&& final(self).poll_bound == old(self).poll_bound
            },
    {
        let order_ok = match self.phase {
            Phase::Ready => true,
            Phase::Stream => matches!(self.dir, Dir::Encrypting),
            _ => false,
        };
        if !order_ok {
            return Err(AesError::InvalidSessionOrder);
        }
        if !self.wait_input_ready() {
            self.phase = Phase::Fault;
            return Err(AesError::HardwareTimeout);
        }
        proof {
            KLEN::key_len_valid();
        }
        self.aes.write_dir(false);
        self.stream_block(block);
        let out = self.read_block_words();
        *block = out;
        self.phase = Phase::Stream;
        self.dir = Dir::Encrypting;
        Ok(())
    }

    /// One block back through the chained mode, in place; the incoming
    /// ciphertext becomes the next chaining state. The last clause is the
    /// round trip: a block the chained mode produced at this chaining state
    /// under this key goes back to the plaintext it came from.
    pub fn decrypt_block(&mut self, block: &mut Vec<u8>) -> (r: Result<(), AesError>)
        requires
            old(self).wf(),
            old(block)@.len() == 16,
        ensures
            final(self).wf(),
            final(block)@.len() == 16,
            r is Ok <==> (old(self).stream_order_ok(true) && old(self).aes.ready_spec()),
            r == Err::<(), AesError>(AesError::InvalidSessionOrder) <==> !old(self).stream_order_ok(
                true,
            ),
            r == Err::<(), AesError>(AesError::HardwareTimeout) <==> (old(self).stream_order_ok(
                true,
            ) && !old(self).aes.ready_spec()),
            r is Err ==> final(block)@ == old(block)@,
            r == Err::<(), AesError>(AesError::InvalidSessionOrder) ==> Self::same_state(
                *old(self),
                *final(self),
            ),
            r == Err::<(), AesError>(AesError::HardwareTimeout) ==> Self::fault_post(
                *old(self),
                *final(self),
            ),
            r is Ok ==> {
                &&& final(block)@ == xor_seq(
                    aes_dec(old(self).aes.key_reg@, old(block)@),
                    old(self).aes.chain@,
                )
                &&& final(self).aes.chain@ == old(block)@
                &&& final(self).phase == Phase::Stream
                &&& final(self).dir == Dir::Decrypting
                &&& final(self).aes.key_reg@ == old(self).aes.key_reg@
                &&& final(self).aes.iv_reg@ == old(self).aes.iv_reg@
                &&& AesPeriph::same_config(old(self).aes, final(self).aes)
                &&& final(self).pt_view() == old(self).pt_view()
                &&& final(self).poll_bound == old(self).poll_bound
            },
            r is Ok ==> (forall|p: Seq<u8>|
                p.len() == 16 && #[trigger] aes_enc(
                    old(self).aes.key_reg@,
                    xor_seq(p, old(self).aes.chain@),
                ) == old(block)@ ==> final(block)@ == p),
    {
        let order_ok = match self.phase {
            Phase::Ready => true,
            Phase::Stream => matches!(self.dir, Dir::Decrypting),
            _ => false,
        };
        if !order_ok {
            return Err(AesError::InvalidSessionOrder);
        }
        if !self.wait_input_ready() {
            self.phase = Phase::Fault;
            return Err(AesError::HardwareTimeout);
        }
        proof {
            KLEN::key_len_valid();
        }
        self.aes.write_dir(true);
        self.stream_block(block);
        let out = self.read_block_words();
        *block = out;
        self.phase = Phase::Stream;
        self.dir = Dir::Decrypting;
        Ok(())
    }
}

impl<KLEN: KeyWidth> Aes<Gcm, KLEN> {
    /// All announced associated data has been streamed in.
    pub open spec fn aad_complete(&self) -> bool {
        self.aes.aad_buf@.len() == padded4(self.aes.aad_len_reg as int)
    }

    /// The engine accepts an associated-data word: session set up, no
    /// payload streamed yet, and the announced length leaves room.
    pub open spec fn aad_slot_ok(&self) -> bool {
        &&& self.phase == Phase::Ready
        &&& self.aes.aad_buf@.len() + 4 <= padded4(self.aes.aad_len_reg as int)
    }

    /// The engine accepts a payload block in the given direction: the
    /// announced associated data is all in, or streaming in this direction
    /// has already begun, and the counter has room.
    pub open spec fn stream_order_ok(&self, decrypt: bool) -> bool {
        &&& ((self.phase == Phase::Ready && self.aad_complete()) || (self.phase == Phase::Stream
            && self.dir == (if decrypt {
            Dir::Decrypting
        } else {
            Dir::Encrypting
        })))
        &&& self.aes.ctr < MAX_BLOCKS_CTR
    }

    /// The engine accepts the tag phase in the given direction.
    pub open spec fn finish_order_ok(&self, decrypt: bool) -> bool {
        (self.phase == Phase::Ready && self.aad_complete()) || (self.phase == Phase::Stream
            && self.dir == (if decrypt {
            Dir::Decrypting
        } else {
            Dir::Encrypting
        }))
    }

    /// The tag the session so far calls for.
    pub open spec fn session_tag(&self) -> Seq<u8> {
        gcm_tag(
            self.aes.key_reg@,
            self.aes.iv_reg@,
            self.aes.aad_buf@,
            self.aes.aad_len_reg as int,
            self.aes.ct_buf@,
        )
    }

    /// Latches the 12-byte nonce and starts a fresh data session: the
    /// counter rewinds and the data buffers clear. Owed after the key and
    /// before any associated data or payload.
    pub fn load_iv(&mut self, nonce: &Vec<u8>) -> (r: Result<(), AesError>)
        requires
            old(self).wf(),
        ensures
            final(self).wf(),
            r is Ok <==> (old(self).phase == Phase::Keyed && nonce@.len() == 12),
            r == Err::<(), AesError>(AesError::InvalidSessionOrder) <==> old(self).phase
                != Phase::Keyed,
            r == Err::<(), AesError>(AesError::InvalidKeyLength) <==> (old(self).phase
                == Phase::Keyed && nonce@.len() != 12),
            r is Err ==> Self::same_state(*old(self), *final(self)),
            r is Ok ==> {
                &&& final(self).aes.iv_reg@ == nonce@
                &&& final(self).aes.key_reg@ == old(self).aes.key_reg@
                &&& final(self).aes.ctr == 2
                &&& final(self).aes.aad_len_reg == 0
                &&& final(self).aes.aad_buf@ == Seq::<u8>::empty()
                &&& final(self).aes.ct_buf@ == Seq::<u8>::empty()
                &&& final(self).phase == Phase::Ready
                &&& final(self).dir == Dir::Neutral
                &&& final(self).pt_view() == Seq::<u8>::empty()
                &&& AesPeriph::same_config(old(self).aes, final(self).aes)
                &&& final(self).poll_bound == old(self).poll_bound
            },
    {
        if !matches!(self.phase, Phase::Keyed) {
            return Err(AesError::InvalidSessionOrder);
        }
        if nonce.len() != 12 {
            return Err(AesError::InvalidKeyLength);
        }
        self.aes.write_iv(nonce);
        self.phase = Phase::Ready;
        self.dir = Dir::Neutral;
        self.pt_buf = Withheld { buf: Vec::new() };
        Ok(())
    }

    /// Announces the associated-data byte count to the length register.
    /// Owed before the first associated-data word; the count need not be a
    /// multiple of the word size, the final partial word is zero-padded.
    pub fn set_aad_len(&mut self, n_bytes: u32) -> (r: Result<(), AesError>)
        requires
            old(self).wf(),
        ensures
            final(self).wf(),
            r is Ok <==> (old(self).phase == Phase::Ready && old(self).aes.aad_buf@.len() == 0
                && n_bytes <= MAX_AAD_BYTES),
            r is Err ==> r == Err::<(), AesError>(AesError::InvalidSessionOrder)
                && Self::same_state(*old(self), *final(self)),
            r is Ok ==> {
                &&& final(self).aes.aad_len_reg == n_bytes
                &&& final(self).aes.aad_buf@ == old(self).aes.aad_buf@
                &&& final(self).aes.key_reg@ == old(self).aes.key_reg@
                &&& final(self).aes.iv_reg@ == old(self).aes.iv_reg@
                &&& final(self).aes.ctr == old(self).aes.ctr
                &&& final(self).aes.ct_buf@ == old(self).aes.ct_buf@
                &&& final(self).phase == Phase::Ready
                &&& final(self).dir == old(self).dir
                &&& final(self).pt_view() == old(self).pt_view()
                &&& AesPeriph::same_config(old(self).aes, final(self).aes)
                &&& final(self).poll_bound == old(self).poll_bound
            },
    {
        if !matches!(self.phase, Phase::Ready) || self.aes.aad_buf.len() != 0 || n_bytes
            > MAX_AAD_BYTES {
            return Err(AesError::InvalidSessionOrder);
        }
        self.aes.write_aad_len(n_bytes);
        Ok(())
    }

    /// Streams one 32-bit associated-data word: poll the data-in ready flag,
    /// then write the word. Accepted only between the length announcement
    /// and the first payload block, and only within the announced length.
    pub fn write_add(&mut self, add_data: u32) -> (r: Result<(), AesError>)
        requires
            old(self).wf(),
        ensures
            final(self).wf(),
            r is Ok <==> (old(self).aad_slot_ok() && old(self).aes.ready_spec()),
            r == Err::<(), AesError>(AesError::InvalidSessionOrder) <==> !old(self).aad_slot_ok(),
            r == Err::<(), AesError>(AesError::HardwareTimeout) <==> (old(self).aad_slot_ok()
                && !old(self).aes.ready_spec()),
            r == Err::<(), AesError>(AesError::InvalidSessionOrder) ==> Self::same_state(
                *old(self),
                *final(self),
            ),
            r == Err::<(), AesError>(AesError::HardwareTimeout) ==> Self::fault_post(
                *old(self),
                *final(self),
            ),
            r is Ok ==> {
                &&& final(self).aes.aad_buf@ == old(self).aes.aad_buf@ + be32(add_data)
                &&& final(self).aes.aad_len_reg == old(self).aes.aad_len_reg
                &&& final(self).aes.key_reg@ == old(self).aes.key_reg@
                &&& final(self).aes.iv_reg@ == old(self).aes.iv_reg@
                &&& final(self).aes.ctr == old(self).aes.ctr
                &&& final(self).aes.ct_buf@ == old(self).aes.ct_buf@
                &&& final(self).phase == Phase::Ready
                &&& final(self).dir == old(self).dir
                &&& final(self).pt_view() == old(self).pt_view()
                &&& AesPeriph::same_config(old(self).aes, final(self).aes)
                &&& final(self).poll_bound == old(self).poll_bound
            },
    {
        if !matches!(self.phase, Phase::Ready) {
            return Err(AesError::InvalidSessionOrder);
        }
        let padded: usize = (((self.aes.aad_len_reg as usize) + 3) / 4) * 4;
        if self.aes.aad_buf.len() + 4 > padded {
            return Err(AesError::InvalidSessionOrder);
        }
        if !self.wait_input_ready() {
            self.phase = Phase::Fault;
            return Err(AesError::HardwareTimeout);
        }
        self.aes.write_aad_word(add_data);
        Ok(())
    }

    /// Streams a whole associated-data byte string: announces its length,
    /// then packs it big-endian into words, zero-padding the final partial
    /// word, polling before every word write.
    pub fn write_aad_bytes(&mut self, aad: &Vec<u8>) -> (r: Result<(), AesError>)
        requires
            old(self).wf(),
        ensures
            final(self).wf(),
            r is Ok <==> (old(self).phase == Phase::Ready && old(self).aes.aad_buf@.len() == 0
                && aad@.len() <= MAX_AAD_BYTES && (aad@.len() == 0 || old(self).aes.ready_spec())),
            r == Err::<(), AesError>(AesError::InvalidSessionOrder) <==> !(old(self).phase
                == Phase::Ready && old(self).aes.aad_buf@.len() == 0 && aad@.len()
                <= MAX_AAD_BYTES),
            r == Err::<(), AesError>(AesError::HardwareTimeout) <==> (old(self).phase
                == Phase::Ready && old(self).aes.aad_buf@.len() == 0 && aad@.len()
                <= MAX_AAD_BYTES && aad@.len() > 0 && !old(self).aes.ready_spec()),
            r == Err::<(), AesError>(AesError::InvalidSessionOrder) ==> Self::same_state(
                *old(self),
                *final(self),
            ),
            r == Err::<(), AesError>(AesError::HardwareTimeout) ==> {
                &&& final(self).phase == Phase::Fault
                &&& final(self).aes.aad_len_reg == aad@.len()
                &&& final(self).aes.aad_buf@ == old(self).aes.aad_buf@
                &&& final(self).aes.key_reg@ == old(self).aes.key_reg@
                &&& final(self).aes.iv_reg@ == old(self).aes.iv_reg@
                &&& final(self).aes.ctr == old(self).aes.ctr
                &&& final(self).aes.ct_buf@ == old(self).aes.ct_buf@
                &&& final(self).dir == old(self).dir
                &&& final(self).pt_view() == old(self).pt_view()
                &&& AesPeriph::same_config(old(self).aes, final(self).aes)
                &&& final(self).poll_bound == old(self).poll_bound
            },
            r is Ok ==> {
                &&& final(self).aes.aad_len_reg == aad@.len()
                &&& final(self).aes.aad_buf@ == zero_pad(aad@, 4)
                &&& final(self).aes.key_reg@ == old(self).aes.key_reg@
                &&& final(self).aes.iv_reg@ == old(self).aes.iv_reg@
                &&& final(self).aes.ctr == old(self).aes.ctr
                &&& final(self).aes.ct_buf@ == old(self).aes.ct_buf@
                &&& final(self).phase == Phase::Ready
                &&& final(self).dir == old(self).dir
                &&& final(self).pt_view() == old(self).pt_view()
                &&& AesPeriph::same_config(old(self).aes, final(self).aes)
                &&& final(self).poll_bound == old(self).poll_bound
            },
    {
        if !matches!(self.phase, Phase::Ready) || self.aes.aad_buf.len() != 0 || aad.len()
            > MAX_AAD_BYTES as usize {
            return Err(AesError::InvalidSessionOrder);
        }
        self.aes.write_aad_len(aad.len() as u32);
        if aad.len() == 0 {
            proof {
                assert(zero_pad(aad@, 4) =~= aad@);
            }
            return Ok(());
        }
        if !self.wait_input_ready() {
            self.phase = Phase::Fault;
            return Err(AesError::HardwareTimeout);
        }
        let total_words = (aad.len() + 3) / 4;
        proof {
            assert(zero_pad(aad@, 4).len() == 4 * ((aad@.len() + 3) / 4));
        }
        let ghost gold = *old(self);
        let mut wi: usize = 0;
        while wi < total_words
            invariant
                self.aes.mode_reg == ModeSel::Gcm,
                !self.aes.in_reset,
                self.aes.ready_spec(),
                self.phase == Phase::Ready,
                self.dir == gold.dir,
                self.pt_view() == gold.pt_view(),
                self.poll_bound == gold.poll_bound,
                AesPeriph::same_config(gold.aes, self.aes),
                self.aes.key_reg@ == gold.aes.key_reg@,
                self.aes.iv_reg@ == gold.aes.iv_reg@,
                self.aes.chain@ == gold.aes.chain@,
                self.aes.ctr == gold.aes.ctr,
                self.aes.ct_buf@ == gold.aes.ct_buf@,
                self.aes.dec_sel == gold.aes.dec_sel,
                self.aes.in_buf@ == gold.aes.in_buf@,
                self.aes.out_reg@ == gold.aes.out_reg@,
                self.aes.out_pos == gold.aes.out_pos,
                self.aes.out_pending == gold.aes.out_pending,
                self.aes.tag_reg@ == gold.aes.tag_reg@,
                self.aes.tag_pending == gold.aes.tag_pending,
                self.aes.tag_chk_reg == gold.aes.tag_chk_reg,
                gold.wf(),
                gold.phase == Phase::Ready,
                self.aes.aad_len_reg == aad@.len(),
                aad@.len() <= MAX_AAD_BYTES,
                aad@.len() > 0,
                total_words == (aad@.len() + 3) / 4,
                wi <= total_words,
                zero_pad(aad@, 4).len() == 4 * total_words,
                self.aes.aad_buf@ == zero_pad(aad@, 4).take(4 * wi),
            decreases total_words - wi,
        {
            let i = 4 * wi;
            let b0 = aad[i];
            let b1 = if i + 1 < aad.len() {
                aad[i + 1]
            } else {
                0
            };
            let b2 = if i + 2 < aad.len() {
                aad[i + 2]
            } else {
                0
            };
            let b3 = if i + 3 < aad.len() {
                aad[i + 3]
            } else {
                0
            };
            let w = ((b0 as u32) << 24) | ((b1 as u32) << 16) | ((b2 as u32) << 8) | (b3 as u32);
            proof {
                crate::cipher::lemma_be32_pack(b0, b1, b2, b3);
                assert(zero_pad(aad@, 4).take(4 * (wi + 1)) =~= zero_pad(aad@, 4).take(4 * wi)
                    + be32(w));
            }
            self.aes.write_aad_word(w);
            wi = wi + 1;
        }
        proof {
            assert(zero_pad(aad@, 4).take(4 * total_words) =~= zero_pad(aad@, 4));
        }
        Ok(())
    }

    /// One payload block through the counter mode, in place: the block is
    /// xored with the key stream of the current counter, the ciphertext
    /// comes back and is absorbed into the tag hash.
    pub fn encrypt_block(&mut self, block: &mut Vec<u8>) -> (r: Result<(), AesError>)
        requires
            old(self).wf(),
            old(block)@.len() == 16,
        ensures
            final(self).wf(),
            final(block)@.len() == 16,
            r is Ok <==> (old(self).stream_order_ok(false) && old(self).aes.ready_spec()),
            r == Err::<(), AesError>(AesError::InvalidSessionOrder) <==> !old(self).stream_order_ok(
                false,
            ),
            r == Err::<(), AesError>(AesError::HardwareTimeout) <==> (old(self).stream_order_ok(
                false,
            ) && !old(self).aes.ready_spec()),
            r is Err ==> final(block)@ == old(block)@,
            r == Err::<(), AesError>(AesError::InvalidSessionOrder) ==> Self::same_state(
                *old(self),
                *final(self),
            ),
            r == Err::<(), AesError>(AesError::HardwareTimeout) ==> Self::fault_post(
                *old(self),
                *final(self),
            ),
            r is Ok ==> {
                &&& final(block)@ == xor_seq(
                    old(block)@,
                    gcm_keystream(old(self).aes.key_reg@, old(self).aes.iv_reg@, old(self).aes.ctr),
                )
                &&& final(self).aes.ct_buf@ == old(self).aes.ct_buf@ + final(block)@
                &&& final(self).aes.ctr == old(self).aes.ctr + 1
                &&& final(self).phase == Phase::Stream
                &&& final(self).dir == Dir::Encrypting
                &&& final(self).aes.key_reg@ == old(self).aes.key_reg@
                &&& final(self).aes.iv_reg@ == old(self).aes.iv_reg@
                &&& final(self).aes.aad_len_reg == old(self).aes.aad_len_reg
                &&& final(self).aes.aad_buf@ == old(self).aes.aad_buf@
                &&& final(self).pt_view() == old(self).pt_view()
                &&& AesPeriph::same_config(old(self).aes, final(self).aes)
                &&& final(self).poll_bound == old(self).poll_bound
            },
    {
        let order_ok = (match self.phase {
            Phase::Ready => {
                let padded: usize = (((self.aes.aad_len_reg as usize) + 3) / 4) * 4;
                self.aes.aad_buf.len() == padded
            },
            Phase::Stream => matches!(self.dir, Dir::Encrypting),
            _ => false,
        }) && self.aes.ctr < MAX_BLOCKS_CTR;
        if !order_ok {
            return Err(AesError::InvalidSessionOrder);
        }
        if !self.wait_input_ready() {
            self.phase = Phase::Fault;
            return Err(AesError::HardwareTimeout);
        }
        proof {
            KLEN::key_len_valid();
        }
        self.aes.write_dir(false);
        self.stream_block(block);
        let out = self.read_block_words();
        *block = out;
        self.phase = Phase::Stream;
        self.dir = Dir::Encrypting;
        Ok(())
    }

    /// One ciphertext block into the counter mode. The block itself is left
    /// untouched: the recovered plaintext is withheld inside the engine
    /// until the tag check of `finish_decrypt` passes, which is the
    /// fail-closed contract of authenticated decryption. The last clause is
    /// the round trip: if the block came out of the counter mode at this
    /// counter, the withheld plaintext extends by what went in.
    pub fn decrypt_block(&mut self, block: &mut Vec<u8>) -> (r: Result<(), AesError>)
        requires
            old(self).wf(),
            old(block)@.len() == 16,
        ensures
            final(self).wf(),
            final(block)@ == old(block)@,
            r is Ok <==> (old(self).stream_order_ok(true) && old(self).aes.ready_spec()),
            r == Err::<(), AesError>(AesError::InvalidSessionOrder) <==> !old(self).stream_order_ok(
                true,
            ),
            r == Err::<(), AesError>(AesError::HardwareTimeout) <==> (old(self).stream_order_ok(
                true,
            ) && !old(self).aes.ready_spec()),
            r == Err::<(), AesError>(AesError::InvalidSessionOrder) ==> Self::same_state(
                *old(self),
                *final(self),
            ),
            r == Err::<(), AesError>(AesError::HardwareTimeout) ==> Self::fault_post(
                *old(self),
                *final(self),
            ),
            r is Ok ==> {
                &&& final(self).pt_view() == old(self).pt_view() + xor_seq(
                    old(block)@,
                    gcm_keystream(old(self).aes.key_reg@, old(self).aes.iv_reg@, old(self).aes.ctr),
                )
                &&& final(self).aes.ct_buf@ == old(self).aes.ct_buf@ + old(block)@
                &&& final(self).aes.ctr == old(self).aes.ctr + 1
                &&& final(self).phase == Phase::Stream
                &&& final(self).dir == Dir::Decrypting
                &&& final(self).aes.key_reg@ == old(self).aes.key_reg@
                &&& final(self).aes.iv_reg@ == old(self).aes.iv_reg@
                &&& final(self).aes.aad_len_reg == old(self).aes.aad_len_reg
                &&& final(self).aes.aad_buf@ == old(self).aes.aad_buf@
                &&& AesPeriph::same_config(old(self).aes, final(self).aes)
                &&& final(self).poll_bound == old(self).poll_bound
            },
            r is Ok ==> (forall|p: Seq<u8>|
                p.len() == 16 && #[trigger] xor_seq(
                    p,
                    gcm_keystream(old(self).aes.key_reg@, old(self).aes.iv_reg@, old(self).aes.ctr),
                ) == old(block)@ ==> final(self).pt_view() == old(self).pt_view() + p),
    {
        let order_ok = (match self.phase {
            Phase::Ready => {
                let padded: usize = (((self.aes.aad_len_reg as usize) + 3) / 4) * 4;
                self.aes.aad_buf.len() == padded
            },
            Phase::Stream => matches!(self.dir, Dir::Decrypting),
            _ => false,
        }) && self.aes.ctr < MAX_BLOCKS_CTR;
        if !order_ok {
            return Err(AesError::InvalidSessionOrder);
        }
        if !self.wait_input_ready() {
            self.phase = Phase::Fault;
            return Err(AesError::HardwareTimeout);
        }
        proof {
            KLEN::key_len_valid();
        }
        self.aes.write_dir(true);
        self.stream_block(block);
        let out = self.read_block_words();
        crate::cipher::push_all(&mut self.pt_buf.buf, &out);
        self.phase = Phase::Stream;
        self.dir = Dir::Decrypting;
        Ok(())
    }

    /// Closes an encryption session: polls for the tag, reads the tag
    /// register bank and hands the 16-byte tag out beside the ciphertext
    /// already streamed.
    pub fn finish_encrypt(&mut self) -> (r: Result<Vec<u8>, AesError>)
        requires
            old(self).wf(),
        ensures
            final(self).wf(),
            r is Ok <==> (old(self).finish_order_ok(false) && old(self).aes.ready_spec()),
            r == Err::<Vec<u8>, AesError>(AesError::InvalidSessionOrder) <==> !old(
                self,
            ).finish_order_ok(false),
            r == Err::<Vec<u8>, AesError>(AesError::HardwareTimeout) <==> (old(
                self,
            ).finish_order_ok(false) && !old(self).aes.ready_spec()),
            r == Err::<Vec<u8>, AesError>(AesError::InvalidSessionOrder) ==> Self::same_state(
                *old(self),
                *final(self),
            ),
            r == Err::<Vec<u8>, AesError>(AesError::HardwareTimeout) ==> Self::fault_post(
                *old(self),
                *final(self),
            ),
            r matches Ok(t) ==> {
                &&& t@ == old(self).session_tag()
                &&& t@.len() == 16
                &&& final(self).phase == Phase::Finished
                &&& final(self).dir == old(self).dir
                &&& final(self).pt_view() == old(self).pt_view()
                &&& final(self).aes.tag_reg@ == t@
                &&& final(self).aes.tag_pending
                &&& final(self).aes.key_reg@ == old(self).aes.key_reg@
                &&& final(self).aes.iv_reg@ == old(self).aes.iv_reg@
                &&& final(self).aes.aad_len_reg == old(self).aes.aad_len_reg
                &&& final(self).aes.aad_buf@ == old(self).aes.aad_buf@
                &&& final(self).aes.ct_buf@ == old(self).aes.ct_buf@
                &&& final(self).aes.ctr == old(self).aes.ctr
                &&& AesPeriph::same_config(old(self).aes, final(self).aes)
                &&& final(self).poll_bound == old(self).poll_bound
            },
    {
        let order_ok = match self.phase {
            Phase::Ready => {
                let padded: usize = (((self.aes.aad_len_reg as usize) + 3) / 4) * 4;
                self.aes.aad_buf.len() == padded
            },
            Phase::Stream => matches!(self.dir, Dir::Encrypting),
            _ => false,
        };
        if !order_ok {
            return Err(AesError::InvalidSessionOrder);
        }
        if !self.wait_input_ready() {
            self.phase = Phase::Fault;
            return Err(AesError::HardwareTimeout);
        }
        proof {
            KLEN::key_len_valid();
        }
        self.aes.trigger_tag();
        if self.wait_tag_ready() {
            let t = self.aes.read_tag();
            self.phase = Phase::Finished;
            Ok(t)
        } else {
            self.phase = Phase::Fault;
            Err(AesError::HardwareTimeout)
        }
    }

    /// Closes a decryption session: polls for the hardware's tag, compares
    /// it against the expected tag in constant time, and releases the
    /// withheld plaintext only on a match. On a mismatch the plaintext is
    /// discarded and only `AuthenticationFailed` comes back: authenticated
    /// decryption fails closed.
    pub fn finish_decrypt(&mut self, expected_tag: &Vec<u8>) -> (r: Result<Vec<u8>, AesError>)
        requires
            old(self).wf(),
            expected_tag@.len() == 16,
        ensures
            final(self).wf(),
            r is Ok <==> (old(self).finish_order_ok(true) && old(self).aes.ready_spec())
                && expected_tag@ == old(self).session_tag(),
            r == Err::<Vec<u8>, AesError>(AesError::AuthenticationFailed) <==> (old(
                self,
            ).finish_order_ok(true) && old(self).aes.ready_spec() && expected_tag@ != old(
                self,
            ).session_tag()),
            r == Err::<Vec<u8>, AesError>(AesError::InvalidSessionOrder) <==> !old(
                self,
            ).finish_order_ok(true),
            r == Err::<Vec<u8>, AesError>(AesError::HardwareTimeout) <==> (old(
                self,
            ).finish_order_ok(true) && !old(self).aes.ready_spec()),
            r == Err::<Vec<u8>, AesError>(AesError::InvalidSessionOrder) ==> Self::same_state(
                *old(self),
                *final(self),
            ),
            r == Err::<Vec<u8>, AesError>(AesError::HardwareTimeout) ==> Self::fault_post(
                *old(self),
                *final(self),
            ),
            r matches Ok(pt) ==> pt@ == old(self).pt_view(),
            (old(self).finish_order_ok(true) && old(self).aes.ready_spec()) ==> {
                &&& final(self).phase == Phase::Finished
                &&& final(self).pt_view() == Seq::<u8>::empty()
                &&& final(self).aes.tag_chk_reg == (if expected_tag@ == old(self).session_tag() {
                    2u32
                } else {
                    1u32
                })
                &&& final(self).aes.tag_reg@ == old(self).session_tag()
                &&& final(self).aes.key_reg@ == old(self).aes.key_reg@
                &&& final(self).aes.iv_reg@ == old(self).aes.iv_reg@
                &&& final(self).aes.aad_len_reg == old(self).aes.aad_len_reg
                &&& final(self).aes.aad_buf@ == old(self).aes.aad_buf@
                &&& final(self).aes.ct_buf@ == old(self).aes.ct_buf@
                &&& AesPeriph::same_config(old(self).aes, final(self).aes)
                &&& final(self).poll_bound == old(self).poll_bound
            },
    {
        let order_ok = match self.phase {
            Phase::Ready => {
                let padded: usize = (((self.aes.aad_len_reg as usize) + 3) / 4) * 4;
                self.aes.aad_buf.len() == padded
            },
            Phase::Stream => matches!(self.dir, Dir::Decrypting),
            _ => false,
        };
        if !order_ok {
            return Err(AesError::InvalidSessionOrder);
        }
        if !self.wait_input_ready() {
            self.phase = Phase::Fault;
            return Err(AesError::HardwareTimeout);
        }
        proof {
            KLEN::key_len_valid();
        }
        self.aes.trigger_tag();
        if self.wait_tag_ready() {
            let hw_tag = self.aes.read_tag();
            let same = crate::cipher::ct_eq(&hw_tag, expected_tag);
            let pt = self.pt_buf.buf.clone();
            self.pt_buf = Withheld { buf: Vec::new() };
            self.phase = Phase::Finished;
            if same {
                self.aes.write_tag_chk(2);
                Ok(pt)
            } else {
                self.aes.write_tag_chk(1);
                Err(AesError::AuthenticationFailed)
            }
        } else {
            self.phase = Phase::Fault;
            Err(AesError::HardwareTimeout)
        }
    }
}

impl Aes<Ecb, K128> {
    /// Binds the register handle to a codebook engine with a 128-bit key.
    pub fn ecb128(aes: AesPeriph) -> (c: Aes<Ecb, K128>)
        requires
            !aes.in_reset,
        ensures
            Self::bound_fresh(c, aes),
    {
        Self::bind(aes)
    }
}

impl Aes<Ecb, K192> {
    /// Binds the register handle to a codebook engine with a 192-bit key.
    pub fn ecb192(aes: AesPeriph) -> (c: Aes<Ecb, K192>)
        requires
            !aes.in_reset,
        ensures
            Self::bound_fresh(c, aes),
    {
        Self::bind(aes)
    }
}

impl Aes<Ecb, K256> {
    /// Binds the register handle to a codebook engine with a 256-bit key.
    pub fn ecb256(aes: AesPeriph) -> (c: Aes<Ecb, K256>)
        requires
            !aes.in_reset,
        ensures
            Self::bound_fresh(c, aes),
    {
        Self::bind(aes)
    }
}

impl Aes<Cbc, K128> {
    /// Binds the register handle to a chained engine with a 128-bit key.
    pub fn cbc128(aes: AesPeriph) -> (c: Aes<Cbc, K128>)
        requires
            !aes.in_reset,
        ensures
            Self::bound_fresh(c, aes),
    {
        Self::bind(aes)
    }
}

impl Aes<Cbc, K192> {
    /// Binds the register handle to a chained engine with a 192-bit key.
    pub fn cbc192(aes: AesPeriph) -> (c: Aes<Cbc, K192>)
        requires
            !aes.in_reset,
        ensures
            Self::bound_fresh(c, aes),
    {
        Self::bind(aes)
    }
}

impl Aes<Cbc, K256> {
    /// Binds the register handle to a chained engine with a 256-bit key.
    pub fn cbc256(aes: AesPeriph) -> (c: Aes<Cbc, K256>)
        requires
            !aes.in_reset,
        ensures
            Self::bound_fresh(c, aes),
    {
        Self::bind(aes)
    }
}

impl Aes<Gcm, K128> {
    /// Binds the register handle to an authenticated engine with a 128-bit key.
    pub fn gcm128(aes: AesPeriph) -> (c: Aes<Gcm, K128>)
        requires
            !aes.in_reset,
        ensures
            Self::bound_fresh(c, aes),
    {
        Self::bind(aes)
    }
}

impl Aes<Gcm, K192> {
    /// Binds the register handle to an authenticated engine with a 192-bit key.
    pub fn gcm192(aes: AesPeriph) -> (c: Aes<Gcm, K192>)
        requires
            !aes.in_reset,
        ensures
            Self::bound_fresh(c, aes),
    {
        Self::bind(aes)
    }
}

impl Aes<Gcm, K256> {
    /// Binds the register handle to an authenticated engine with a 256-bit key.
    pub fn gcm256(aes: AesPeriph) -> (c: Aes<Gcm, K256>)
        requires
            !aes.in_reset,
        ensures
            Self::bound_fresh(c, aes),
    {
        Self::bind(aes)
    }
}

} // verus!
