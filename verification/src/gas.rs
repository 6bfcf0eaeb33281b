//! Token amounts and quantized gas limits.

use crate::wire::{lemma_parse_word, parse_word, put_word, take_word, word, DataError};
use vstd::prelude::*;
use vstd::std_specs::convert::FromSpec;

verus! {

/// Gas limits are multiples of this value. The coarser the resolution, the
/// less a wrapper transaction reveals about the cost of its hidden payload.
pub const GAS_LIMIT_RESOLUTION: u64 = 1_000_000;

/// The largest multiplier whose gas value still fits in 64 bits.
pub const MAX_MULTIPLIER: u64 = 18_446_744_073_709;

/// An unsigned quantity of some token, in its smallest unit.
#[derive(Clone, Copy, Debug, PartialEq, Eq, Structural)]
pub struct Amount {
    pub micro: u64,
}

impl Amount {
    /// The quantity as a plain integer.
    pub fn to_u64(&self) -> (raw: u64)
        ensures
            raw == self.micro,
    {
        self.micro
    }
}

impl From<u64> for Amount {
    fn from(micro: u64) -> (amount: Amount) {
        Amount { micro }
    }
}

impl vstd::std_specs::convert::FromSpecImpl<u64> for Amount {
    open spec fn obeys_from_spec() -> bool {
        true
    }

    open spec fn from_spec(micro: u64) -> Amount {
        Amount { micro }
    }
}

/// The number of whole resolution units needed to cover `raw`: the quotient
/// `raw / GAS_LIMIT_RESOLUTION`, rounded up.
pub open spec fn units_covering(raw: int) -> int {
    if raw % (GAS_LIMIT_RESOLUTION as int) == 0 {
        raw / (GAS_LIMIT_RESOLUTION as int)
    } else {
        raw / (GAS_LIMIT_RESOLUTION as int) + 1
    }
}

/// The gas limit that covers `raw`: `raw` rounded up to the next multiple of
/// the resolution.
pub open spec fn quantized(raw: u64) -> GasLimit {
    GasLimit { multiplier: units_covering(raw as int) as u64 }
}

/// The refund owed when `used` gas was consumed under a limit of `limit`.
///
/// Nothing is refunded once the limit is reached, and never more than one
/// resolution unit. The threshold `limit - GAS_LIMIT_RESOLUTION` saturates at
/// zero, so a limit of zero refunds nothing.
pub open spec fn refund_for(limit: int, used: int) -> int {
    let threshold = if limit >= GAS_LIMIT_RESOLUTION {
        limit - GAS_LIMIT_RESOLUTION
    } else {
        0
    };
    if used < threshold {
        GAS_LIMIT_RESOLUTION as int
    } else if used >= limit {
        0
    } else {
        limit - used
    }
}

/// A gas limit, stored as a count of resolution units rather than as the raw
/// amount, so that the value it stands for is always a multiple of
/// `GAS_LIMIT_RESOLUTION`.
#[derive(Clone, Copy, Debug, PartialEq, Eq, Structural)]
pub struct GasLimit {
    pub multiplier: u64,
}

impl GasLimit {
    /// The gas value this limit stands for.
    pub open spec fn gas(self) -> int {
        self.multiplier * GAS_LIMIT_RESOLUTION
    }

    /// Whether the gas value fits in 64 bits.
    pub open spec fn fits(self) -> bool {
        self.gas() <= u64::MAX
    }

    /// Tests `fits` at run time.
    pub fn is_representable(&self) -> (ok: bool)
        ensures
            ok == self.fits(),
    {
        self.multiplier <= MAX_MULTIPLIER
    }

    /// The limit as a raw gas value.
    pub fn to_u64(&self) -> (raw: u64)
        requires
            self.fits(),
        ensures
            raw == self.gas(),
    {
        self.multiplier * GAS_LIMIT_RESOLUTION
    }

    /// The limit as a raw gas value, or `None` where it exceeds 64 bits.
    pub fn checked_to_u64(&self) -> (raw: Option<u64>)
        ensures
            self.fits() ==> raw == Some(self.gas() as u64),
            !self.fits() ==> raw.is_none(),
    {
        if self.is_representable() {
            Some(self.to_u64())
        } else {
            None
        }
    }

    /// The limit as a token amount.
    pub fn to_amount(&self) -> (amount: Amount)
        requires
            self.fits(),
        ensures
            amount.micro == self.gas(),
    {
        Amount { micro: self.to_u64() }
    }

    /// Unused gas is refunded, up to one resolution unit.
    pub fn refund_amount(&self, used_gas: u64) -> (refund: Amount)
        requires
            self.fits(),
        ensures
            refund.micro == refund_for(self.gas(), used_gas as int),
    {
        let limit: u64 = self.to_u64();
        let threshold: u64 = limit.saturating_sub(GAS_LIMIT_RESOLUTION);
        if used_gas < threshold {
            Amount { micro: GAS_LIMIT_RESOLUTION }
        } else if used_gas >= limit {
            Amount { micro: 0 }
        } else {
            Amount { micro: limit - used_gas }
        }
    }
}

impl GasLimit {
    /// The canonical binary form: the raw gas value as an integer, not the
    /// multiplier.
    pub open spec fn wire(self) -> Seq<u8> {
        word(self.gas() as u64)
    }

    /// Reads a gas limit from the front of `input`: an integer, rounded up
    /// to the next multiple of the resolution.
    pub open spec fn parse(input: Seq<u8>) -> Result<(GasLimit, Seq<u8>), DataError> {
        match parse_word(input) {
            None => Err(DataError::UnexpectedEnd),
            Some((raw, rest)) => Ok((quantized(raw), rest)),
        }
    }

    /// Appends the canonical binary form. A limit whose gas value exceeds 64
    /// bits is refused, and nothing is written.
    pub fn serialize(&self, out: &mut Vec<u8>) -> (written: Result<(), DataError>)
        ensures
            written.is_ok() == self.fits(),
            written.is_ok() ==> final(out)@ == old(out)@ + self.wire(),
            written matches Err(e) ==> e == DataError::TooLong && final(out)@ == old(out)@,
    {
        match self.checked_to_u64() {
            Some(raw) => {
                put_word(out, raw);
                Ok(())
            },
            None => Err(DataError::TooLong),
        }
    }

    /// Reads a gas limit from the front of `input`, and hands back what
    /// follows it.
    pub fn deserialize<'a>(input: &'a [u8]) -> (read: Result<(GasLimit, &'a [u8]), DataError>)
        ensures
            match read {
                Ok((limit, rest)) => GasLimit::parse(input@) == Ok::<_, DataError>(
                    (limit, rest@),
                ),
                Err(e) => GasLimit::parse(input@) == Err::<(GasLimit, Seq<u8>), _>(e),
            },
    {
        match take_word(input) {
            Some((raw, rest)) => Ok((GasLimit::from(raw), rest)),
            None => Err(DataError::UnexpectedEnd),
        }
    }

    /// A gas limit is read back from its canonical binary form, whatever
    /// follows it.
    pub proof fn lemma_parse_wire(self, rest: Seq<u8>)
        requires
            self.fits(),
        ensures
            Self::parse(self.wire() + rest) == Ok::<_, DataError>((self, rest)),
    {
        lemma_parse_word(self.gas() as u64, rest);
        lemma_quantize_fixed_point(self);
    }

    /// Reading an integer that is no multiple of the resolution rounds it
    /// up, so writing what was read gives back the input only where it was a
    /// multiple.
    pub proof fn lemma_parse_rounds_up(raw: u64, rest: Seq<u8>)
        requires
            raw <= MAX_MULTIPLIER * GAS_LIMIT_RESOLUTION,
        ensures
            Self::parse(word(raw) + rest) matches Ok((limit, after)) && after == rest
                && limit.gas() == GAS_LIMIT_RESOLUTION * units_covering(raw as int)
                && (limit.wire() == word(raw) <==> raw % GAS_LIMIT_RESOLUTION == 0),
    {
        lemma_parse_word(raw, rest);
        lemma_quantize_then_read(raw);
        let limit = quantized(raw);
        if limit.wire() == word(raw) {
            lemma_parse_word(limit.gas() as u64, Seq::empty());
            lemma_parse_word(raw, Seq::empty());
        }
    }
}

/// Rounds a raw gas value up to the next multiple of the resolution.
impl From<u64> for GasLimit {
    fn from(amount: u64) -> (limit: GasLimit) {
        let whole: u64 = amount / GAS_LIMIT_RESOLUTION;
        if GAS_LIMIT_RESOLUTION * whole < amount {
            GasLimit { multiplier: whole + 1 }
        } else {
            GasLimit { multiplier: whole }
        }
    }
}

impl vstd::std_specs::convert::FromSpecImpl<u64> for GasLimit {
    open spec fn obeys_from_spec() -> bool {
        true
    }

    open spec fn from_spec(amount: u64) -> GasLimit {
        quantized(amount)
    }
}

/// Rounds a token amount up to the next multiple of the resolution.
impl From<Amount> for GasLimit {
    fn from(amount: Amount) -> (limit: GasLimit) {
        GasLimit::from(amount.micro)
    }
}

impl vstd::std_specs::convert::FromSpecImpl<Amount> for GasLimit {
    open spec fn obeys_from_spec() -> bool {
        true
    }

    open spec fn from_spec(amount: Amount) -> GasLimit {
        quantized(amount.micro)
    }
}

/// `units_covering(raw)` is the least count of resolution units that covers
/// `raw`.
pub proof fn lemma_units_covering_is_ceiling(raw: int)
    requires
        raw >= 0,
    ensures
        units_covering(raw) >= 0,
        units_covering(raw) * GAS_LIMIT_RESOLUTION >= raw,
        (units_covering(raw) - 1) * GAS_LIMIT_RESOLUTION < raw,
{
}

/// Quantizing a raw value and reading it back gives the resolution times the
/// rounded-up quotient, provided that product fits in 64 bits.
pub proof fn lemma_quantize_then_read(raw: u64)
    requires
        raw <= MAX_MULTIPLIER * GAS_LIMIT_RESOLUTION,
    ensures
        GasLimit::from_spec(raw) == quantized(raw),
        quantized(raw).fits(),
        quantized(raw).gas() == GAS_LIMIT_RESOLUTION * units_covering(raw as int),
        quantized(raw).gas() >= raw,
        quantized(raw).gas() - raw < GAS_LIMIT_RESOLUTION,
{
}

/// A value that is already a multiple of the resolution is a fixed point:
/// quantizing the gas value of a limit gives that limit back.
pub proof fn lemma_quantize_fixed_point(limit: GasLimit)
    requires
        limit.fits(),
    ensures
        GasLimit::from_spec(limit.gas() as u64) == limit,
        quantized(limit.gas() as u64) == limit,
{
}

} // verus!
