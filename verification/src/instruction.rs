use vstd::prelude::*;
use vstd::bytes::{spec_u64_from_le_bytes, u64_from_le_bytes};
use vstd::slice::slice_subrange;
use crate::error::Failure;

verus! {

/// The closed set of instructions this program executes. A value lives only
/// for the duration of one invocation and never changes once decoded.
#[derive(Debug, Clone, Copy, PartialEq, Eq, Structural)]
pub enum SolanaInstruction {
    /// Create a new account funded at the host's minimum rent-exempt balance.
    InitializeAccount,
    /// Move exactly `amount` lamports from the depositor to the target.
    Deposit { amount: u64 },
    /// Move a tenth (rounded down) of the source's balance to the destination.
    WithdrawTenPercent,
}

/// What decoding a raw instruction buffer yields: byte 0 is the tag, and a
/// `Deposit` tag demands exactly an 8-byte little-endian amount after it.
/// An empty buffer, an unknown tag, or a wrong-length `Deposit` payload is
/// malformed.
pub open spec fn spec_unpack(bytes: Seq<u8>) -> Result<SolanaInstruction, Failure> {
    if bytes.len() == 0 {
        Err(Failure::MalformedInstruction)
    } else if bytes[0] == 0 {
        Ok(SolanaInstruction::InitializeAccount)
    } else if bytes[0] == 1 {
        if bytes.len() == 9 {
            Ok(SolanaInstruction::Deposit { amount: spec_u64_from_le_bytes(bytes.subrange(1, 9)) })
        } else {
            Err(Failure::MalformedInstruction)
        }
    } else if bytes[0] == 2 {
        Ok(SolanaInstruction::WithdrawTenPercent)
    } else {
        Err(Failure::MalformedInstruction)
    }
}

impl SolanaInstruction {
    /// Decode one instruction from its wire form. This is a pure function of
    /// the input bytes: it reads no account and changes nothing.
    pub fn unpack(input: &[u8]) -> (r: Result<Self, Failure>)
        ensures
            r == spec_unpack(input@),
    {
        if input.len() == 0 {
            return Err(Failure::MalformedInstruction);
        }
        let tag = input[0];
        match tag {
            0 => Ok(SolanaInstruction::InitializeAccount),
            1 => {
                if input.len() == 9 {
                    let payload = slice_subrange(input, 1, 9);
                    let amount = u64_from_le_bytes(payload);
                    Ok(SolanaInstruction::Deposit { amount })
                } else {
                    Err(Failure::MalformedInstruction)
                }
            },
            2 => Ok(SolanaInstruction::WithdrawTenPercent),
            _ => Err(Failure::MalformedInstruction),
        }
    }
}

/// Every empty buffer is refused as malformed: decoding consumes at least a
/// tag byte.
pub proof fn lemma_empty_input_rejected(bytes: Seq<u8>)
    requires
        bytes.len() == 0,
    ensures
        spec_unpack(bytes) == Err::<SolanaInstruction, Failure>(Failure::MalformedInstruction),
{
}

/// A `Deposit` tag with anything but exactly eight payload bytes after it is
/// refused as malformed.
pub proof fn lemma_deposit_payload_length_enforced(bytes: Seq<u8>)
    requires
        bytes.len() >= 1,
        bytes[0] == 1,
        bytes.len() != 9,
    ensures
        spec_unpack(bytes) == Err::<SolanaInstruction, Failure>(Failure::MalformedInstruction),
{
}

} // verus!
