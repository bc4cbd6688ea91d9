//! Input mask, polarity and decimation registers of the logic analyzer.
//!
//! Decimation is stored off by one: a requested factor `d >= 1` is written
//! as `d - 1`, and reading the register back yields the stored value plus
//! one.  A requested factor of zero would underflow the encoding and is
//! rejected before anything is written.

use vstd::prelude::*;

use crate::config::ConfigError;

verus! {

/// Register encoding of a decimation factor.
pub open spec fn spec_encode_decimation(decimation: u32) -> u32
    recommends
        decimation >= 1,
{
    (decimation - 1) as u32
}

/// Decimation factor read back from its register encoding.
pub open spec fn spec_decode_decimation(stored: u32) -> u32
    recommends
        stored < 0xffff_ffffu32,
{
    (stored + 1) as u32
}

/// Encode a decimation factor for the hardware register.  Zero is
/// rejected: its encoding would underflow.
pub fn encode_decimation(decimation: u32) -> (r: Result<u32, ConfigError>)
    ensures
        r is Ok <==> decimation >= 1,
        r matches Ok(s) ==> s == spec_encode_decimation(decimation),
        r matches Err(e) ==> e == ConfigError::DecimationZero,
{
    if decimation >= 1 {
        Ok(decimation - 1)
    } else {
        Err(ConfigError::DecimationZero)
    }
}

/// Decode a stored decimation register value.
pub fn decode_decimation(stored: u32) -> (r: u32)
    requires
        stored < 0xffff_ffffu32,
    ensures
        r == spec_decode_decimation(stored),
{
    stored + 1
}

/// Decoding undoes encoding: every valid decimation factor survives the
/// round trip through its register representation, and zero is the one
/// factor the encoder rejects.
pub proof fn lemma_decimation_round_trip(decimation: u32)
    requires
        decimation >= 1,
    ensures
        spec_encode_decimation(decimation) < 0xffff_ffffu32,
        spec_decode_decimation(spec_encode_decimation(decimation)) == decimation,
{
}

/// Software model of the mask register block: input mask, input
/// polarity and the stored decimation factor.
#[derive(Clone, Copy, Debug, PartialEq, Eq, Structural)]
pub struct LaMaskRegs {
    /// Input signal bit mask.
    pub cfg_mask: u32,
    /// Input signal bit polarity.
    pub cfg_pol: u32,
    /// Stored (off-by-one) decimation factor.
    pub cfg_dec: u32,
}

impl LaMaskRegs {
    /// The stored decimation always comes from a factor of at least one,
    /// so reading it back cannot overflow.
    pub open spec fn wf(self) -> bool {
        self.cfg_dec < 0xffff_ffffu32
    }

    /// Power-up state: everything zero (decimation factor one).
    pub fn new() -> (r: LaMaskRegs)
        ensures
            r == (LaMaskRegs { cfg_mask: 0, cfg_pol: 0, cfg_dec: 0 }),
            r.wf(),
    {
        LaMaskRegs { cfg_mask: 0, cfg_pol: 0, cfg_dec: 0 }
    }
}

/// Operations of the mask register block.
pub trait LaMaskRegsAPI {
    /// Model of the mask register block.
    spec fn mask_state(&self) -> LaMaskRegs;

    /// Get the input signal bit mask.
    fn input_mask(&self) -> (r: u32)
        ensures
            r == self.mask_state().cfg_mask,
    ;

    /// Set the input signal bit mask (masked-out inputs save power).
    fn set_input_mask(&mut self, mask: u32)
        ensures
            final(self).mask_state() == (LaMaskRegs { cfg_mask: mask, ..old(self).mask_state() }),
    ;

    /// Get the input signal bit polarity.
    fn input_polarity(&self) -> (r: u32)
        ensures
            r == self.mask_state().cfg_pol,
    ;

    /// Set the input signal bit polarity.
    fn set_input_polarity(&mut self, pol: u32)
        ensures
            final(self).mask_state() == (LaMaskRegs { cfg_pol: pol, ..old(self).mask_state() }),
    ;

    /// Get the decimation factor (stored value plus one).
    fn decimation(&self) -> (r: u32)
        requires
            self.mask_state().wf(),
        ensures
            r == spec_decode_decimation(self.mask_state().cfg_dec),
    ;

    /// Set the decimation factor (stored as the factor minus one).
    /// A factor of zero has no encoding and is refused by
    /// [`encode_decimation`]; callers pass only validated factors.
    fn set_decimation(&mut self, dec: u32)
        requires
            dec >= 1,
        ensures
            final(self).mask_state() == (LaMaskRegs {
                cfg_dec: spec_encode_decimation(dec),
                ..old(self).mask_state()
            }),
            final(self).mask_state().wf(),
    ;
}

impl LaMaskRegsAPI for LaMaskRegs {
    open spec fn mask_state(&self) -> LaMaskRegs {
        *self
    }

    fn input_mask(&self) -> (r: u32) {
        self.cfg_mask
    }

    fn set_input_mask(&mut self, mask: u32) {
        self.cfg_mask = mask;
    }

    fn input_polarity(&self) -> (r: u32) {
        self.cfg_pol
    }

    fn set_input_polarity(&mut self, pol: u32) {
        self.cfg_pol = pol;
    }

    fn decimation(&self) -> (r: u32) {
        decode_decimation(self.cfg_dec)
    }

    fn set_decimation(&mut self, dec: u32) {
        self.cfg_dec = dec - 1;
    }
}

} // verus!
