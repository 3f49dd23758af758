//! Driver for a memory-mapped AES cipher accelerator.
//!
//! The crate models the accelerator's register file as a plain value and
//! verifies the register-driving protocol against it: key and IV loading,
//! associated-data streaming, block streaming with polling backpressure,
//! and authentication-tag production and checking for the authenticated
//! mode.

use vstd::prelude::*;

pub mod cipher;
pub mod periph;
pub mod aes;
pub mod gpio;

verus! {

#[derive(Clone, Copy, Debug, PartialEq, Eq, Structural)]
pub enum AesError {
    /// Key material of the wrong length: the key bytes do not match the
    /// bound key width, or an IV or nonce does not have the length the
    /// bound mode calls for.
    InvalidKeyLength,
    /// A readiness poll exceeded its bound; the peripheral must be reset.
    HardwareTimeout,
    /// The computed authentication tag does not match the expected one.
    AuthenticationFailed,
    /// An operation was issued out of the mandated session order.
    InvalidSessionOrder,
}

} // verus!
