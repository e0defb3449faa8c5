//! Economic parameter codec and next-base-fee derivation.
//!
//! A parent header's extension data may carry an explicit base-fee-parameter
//! block: one version byte (zero) followed by two 4-byte big-endian unsigned
//! integers, the change denominator and then the elasticity multiplier. Once
//! the fee-parameter hardfork is active on the parent this explicit form is
//! mandatory; a malformed length or version byte is a dedicated decode error.

use vstd::prelude::*;
use crate::types::{ChainSpec, BlockHeader};

verus! {

/// Why a base-fee-parameter block failed to decode.
#[derive(Debug, Clone, Copy, PartialEq, Eq, Structural)]
pub enum ParamBlockError {
    /// The extension data is not exactly nine bytes long.
    InvalidLength,
    /// The leading version byte is not zero.
    InvalidVersion,
}

/// Big-endian 32-bit value of four consecutive bytes of `b`.
pub open spec fn be32(b: Seq<u8>, i: int) -> u32 {
    (b[i] * 0x1000000 + b[i + 1] * 0x10000 + b[i + 2] * 0x100 + b[i + 3]) as u32
}

/// What decoding an extension-data field yields: the (denominator,
/// elasticity) pair, or the dedicated decode error.
pub open spec fn decode_params_spec(extra: Seq<u8>) -> Result<(u32, u32), ParamBlockError> {
    if extra.len() != 9 {
        Err(ParamBlockError::InvalidLength)
    } else if extra[0] != 0 {
        Err(ParamBlockError::InvalidVersion)
    } else {
        Ok((be32(extra, 1), be32(extra, 5)))
    }
}

/// The canonical encoding of a (denominator, elasticity) parameter pair.
pub open spec fn encode_params_spec(denominator: u32, elasticity: u32) -> Seq<u8> {
    seq![
        0u8,
        (denominator / 0x1000000) as u8,
        (denominator / 0x10000 % 0x100) as u8,
        (denominator / 0x100 % 0x100) as u8,
        (denominator % 0x100) as u8,
        (elasticity / 0x1000000) as u8,
        (elasticity / 0x10000 % 0x100) as u8,
        (elasticity / 0x100 % 0x100) as u8,
        (elasticity % 0x100) as u8,
    ]
}

/// Big-endian 32-bit read of four bytes.
fn read_be32(extra: &Vec<u8>, i: usize) -> (r: u32)
    requires
        i + 4 <= extra@.len(),
    ensures
        r == be32(extra@, i as int),
{
    let n = extra.len();
    let b0 = extra[i] as u32;
    let b1 = extra[i + 1] as u32;
    let b2 = extra[i + 2] as u32;
    let b3 = extra[i + 3] as u32;
    b0 * 0x1000000 + b1 * 0x10000 + b2 * 0x100 + b3
}

/// Decode the explicit base-fee-parameter block of an extension-data field.
///
/// Returns the (denominator, elasticity) pair exactly when the field is nine
/// bytes long and its version byte is zero.
pub fn decode_base_fee_params(extra: &Vec<u8>) -> (r: Result<(u32, u32), ParamBlockError>)
    ensures
        r == decode_params_spec(extra@),
{
    if extra.len() != 9 {
        Err(ParamBlockError::InvalidLength)
    } else if extra[0] != 0 {
        Err(ParamBlockError::InvalidVersion)
    } else {
        Ok((read_be32(extra, 1), read_be32(extra, 5)))
    }
}

/// Encode a (denominator, elasticity) parameter pair as a nine-byte
/// extension-data field.
pub fn encode_base_fee_params(denominator: u32, elasticity: u32) -> (r: Vec<u8>)
    ensures
        r@ == encode_params_spec(denominator, elasticity),
{
    let mut out: Vec<u8> = Vec::new();
    out.push(0u8);
    out.push((denominator / 0x1000000) as u8);
    out.push((denominator / 0x10000 % 0x100) as u8);
    out.push((denominator / 0x100 % 0x100) as u8);
    out.push((denominator % 0x100) as u8);
    out.push((elasticity / 0x1000000) as u8);
    out.push((elasticity / 0x10000 % 0x100) as u8);
    out.push((elasticity / 0x100 % 0x100) as u8);
    out.push((elasticity % 0x100) as u8);
    proof {
        assert(out@ =~= encode_params_spec(denominator, elasticity));
    }
    out
}

/// A big-endian u32 is recomposed exactly from the four bytes its encoding
/// splits it into.
proof fn lemma_be32_recompose(x: u32)
    ensures
        ((x / 0x1000000) as u8) * 0x1000000 + ((x / 0x10000 % 0x100) as u8) * 0x10000
            + ((x / 0x100 % 0x100) as u8) * 0x100 + ((x % 0x100) as u8) == x,
{
    assert(((x / 0x1000000) as u8) * 0x1000000 + ((x / 0x10000 % 0x100) as u8) * 0x10000
        + ((x / 0x100 % 0x100) as u8) * 0x100 + ((x % 0x100) as u8) == x) by (bit_vector);
}

/// Round trip: decoding an encoded parameter block returns the original
/// (denominator, elasticity) pair bit-exact.
pub proof fn lemma_params_round_trip(denominator: u32, elasticity: u32)
    ensures
        decode_params_spec(encode_params_spec(denominator, elasticity))
            == Ok::<(u32, u32), ParamBlockError>((denominator, elasticity)),
{
    let enc = encode_params_spec(denominator, elasticity);
    lemma_be32_recompose(denominator);
    lemma_be32_recompose(elasticity);
    assert(be32(enc, 1) == denominator);
    assert(be32(enc, 5) == elasticity);
}

/// The standard fee-market update: unchanged at target, increased by
/// `max(1, base_fee * delta / target / denominator)` above it, decreased by
/// the symmetric amount (never below zero) under it. Degenerate parameters
/// (a zero denominator, elasticity or gas target, which would divide by
/// zero) leave the fee unchanged, and an increase saturates at the largest
/// representable fee.
pub open spec fn next_base_fee_spec(
    base_fee: u64,
    gas_used: u64,
    gas_limit: u64,
    denominator: u64,
    elasticity: u64,
) -> u64 {
    if denominator == 0 || elasticity == 0 {
        base_fee
    } else {
        let target = gas_limit as int / elasticity as int;
        if target == 0 || gas_used == target {
            base_fee
        } else if gas_used > target {
            let quot = (base_fee * (gas_used - target)) / (target * denominator);
            let incr: int = if quot < 1 { 1 } else { quot };
            if base_fee + incr > u64::MAX {
                u64::MAX
            } else {
                (base_fee + incr) as u64
            }
        } else {
            ((base_fee - (base_fee * (target - gas_used)) / (target * denominator)) as u64)
        }
    }
}

/// Expected base fee of the block after a parent with the given fee, gas
/// usage and gas limit, under the given change denominator and elasticity.
pub fn compute_expected_base_fee(
    base_fee: u64,
    gas_used: u64,
    gas_limit: u64,
    denominator: u64,
    elasticity: u64,
) -> (r: u64)
    ensures
        r == next_base_fee_spec(base_fee, gas_used, gas_limit, denominator, elasticity),
{
    if denominator == 0 || elasticity == 0 {
        return base_fee;
    }
    let target: u64 = gas_limit / elasticity;
    if target == 0 || gas_used == target {
        return base_fee;
    }
    proof {
        assert((target as int) * (denominator as int) <= u128::MAX) by (nonlinear_arith)
            requires
                target <= u64::MAX,
                denominator <= u64::MAX,
        ;
        assert((target as int) * (denominator as int) >= 1) by (nonlinear_arith)
            requires
                target >= 1,
                denominator >= 1,
        ;
    }
    let den: u128 = (target as u128) * (denominator as u128);
    if gas_used > target {
        let delta: u64 = gas_used - target;
        proof {
            assert((base_fee as int) * (delta as int) <= u128::MAX) by (nonlinear_arith)
                requires
                    base_fee <= u64::MAX,
                    delta <= u64::MAX,
            ;
        }
        let num: u128 = (base_fee as u128) * (delta as u128);
        let quot: u128 = num / den;
        let incr: u128 = if quot < 1 {
            1
        } else {
            quot
        };
        proof {
            assert((num as int) / (den as int) <= num) by (nonlinear_arith)
                requires
                    den >= 1,
                    num >= 0,
            ;
            assert(num <= (u64::MAX as int) * (u64::MAX as int)) by (nonlinear_arith)
                requires
                    num == (base_fee as int) * (delta as int),
                    base_fee <= u64::MAX,
                    delta <= u64::MAX,
            ;
        }
        let sum: u128 = (base_fee as u128) + incr;
        if sum > u64::MAX as u128 {
            u64::MAX
        } else {
            sum as u64
        }
    } else {
        let delta: u64 = target - gas_used;
        proof {
            assert((base_fee as int) * (delta as int) <= u128::MAX) by (nonlinear_arith)
                requires
                    base_fee <= u64::MAX,
                    delta <= u64::MAX,
            ;
        }
        let num: u128 = (base_fee as u128) * (delta as u128);
        let decr: u128 = num / den;
        proof {
            assert(num <= (base_fee as int) * (den as int)) by (nonlinear_arith)
                requires
                    num == (base_fee as int) * (delta as int),
                    den == (target as int) * (denominator as int),
                    0 < delta <= target,
                    denominator >= 1,
            ;
            assert(num as int / den as int <= base_fee) by (nonlinear_arith)
                requires
                    num <= (base_fee as int) * (den as int),
                    den >= 1,
            ;
        }
        base_fee - (decr as u64)
    }
}

/// Expected base fee once the fee-parameter hardfork is active on the
/// parent: the parent's extension data must decode, and its constants are
/// used unless they are the all-zero sentinel, which falls back to the
/// chain's static defaults. A parent without a base fee yields zero.
pub open spec fn holocene_expected_base_fee_spec(cs: ChainSpec, parent: crate::types::HeaderModel)
    -> Result<u64, ParamBlockError> {
    match decode_params_spec(parent.extra_data) {
        Err(e) => Err(e),
        Ok((denominator, elasticity)) => {
            let (d, e): (u64, u64) = if denominator == 0 && elasticity == 0 {
                (cs.base_fee_denominator, cs.base_fee_elasticity)
            } else {
                (denominator as u64, elasticity as u64)
            };
            let base = match parent.base_fee_per_gas {
                Some(b) => b,
                None => 0,
            };
            Ok(next_base_fee_spec(base, parent.gas_used, parent.gas_limit, d, e))
        },
    }
}

/// Decode the parent's base-fee-parameter block and compute the expected
/// next base fee from it.
pub fn holocene_expected_base_fee(cs: &ChainSpec, parent: &BlockHeader) -> (r: Result<
    u64,
    ParamBlockError,
>)
    ensures
        r == holocene_expected_base_fee_spec(*cs, parent@),
{
    match decode_base_fee_params(&parent.extra_data) {
        Err(e) => Err(e),
        Ok((denominator, elasticity)) => {
            let (d, e): (u64, u64) = if denominator == 0 && elasticity == 0 {
                (cs.base_fee_denominator, cs.base_fee_elasticity)
            } else {
                (denominator as u64, elasticity as u64)
            };
            let base = match parent.base_fee_per_gas {
                Some(b) => b,
                None => 0,
            };
            Ok(compute_expected_base_fee(base, parent.gas_used, parent.gas_limit, d, e))
        },
    }
}

} // verus!
