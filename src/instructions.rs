use vstd::prelude::*;
use crate::codec::{u64_from_le, read_u64_le};
use crate::error::ProcessError;

verus! {

/// The four lifecycle operations, selected by an instruction's first byte.
#[derive(Debug, Clone, Copy, PartialEq, Eq, Structural)]
pub enum FundraiserInstructions {
    Initialize,
    Contribute,
    Refund,
    Checker,
}

/// The operation that a discriminator byte selects.
pub open spec fn instruction_of(b: u8) -> Option<FundraiserInstructions> {
    if b == 0 {
        Some(FundraiserInstructions::Initialize)
    } else if b == 1 {
        Some(FundraiserInstructions::Contribute)
    } else if b == 2 {
        Some(FundraiserInstructions::Refund)
    } else if b == 3 {
        Some(FundraiserInstructions::Checker)
    } else {
        None
    }
}

impl FundraiserInstructions {
    /// Decodes a discriminator byte.
    pub fn try_from(value: &u8) -> (r: Result<FundraiserInstructions, ProcessError>)
        ensures
            match instruction_of(*value) {
                Some(i) => r == Ok::<FundraiserInstructions, ProcessError>(i),
                None => r == Err::<FundraiserInstructions, ProcessError>(
                    ProcessError::InvalidInstructionData,
                ),
            },
    {
        match *value {
            0 => Ok(FundraiserInstructions::Initialize),
            1 => Ok(FundraiserInstructions::Contribute),
            2 => Ok(FundraiserInstructions::Refund),
            3 => Ok(FundraiserInstructions::Checker),
            _ => Err(ProcessError::InvalidInstructionData),
        }
    }
}

/// Bytes of the payload of Initialize: target, start time, duration.
pub const INITIALIZE_PAYLOAD_LEN: usize = 17;

/// Bytes of the payload of Contribute: the amount.
pub const CONTRIBUTE_PAYLOAD_LEN: usize = 8;

/// The arguments of Initialize.
#[derive(Debug, Clone, Copy, PartialEq, Eq, Structural)]
pub struct InitializeArgs {
    pub amount_to_raise: u64,
    pub time_started: i64,
    pub duration: u8,
}

/// The arguments that an Initialize payload holds.
pub open spec fn initialize_args_of(p: Seq<u8>) -> InitializeArgs {
    InitializeArgs {
        amount_to_raise: u64_from_le(p, 0),
        time_started: u64_from_le(p, 8) as i64,
        duration: p[16],
    }
}

impl InitializeArgs {
    /// Decodes an Initialize payload; bytes past the arguments are ignored.
    pub fn unpack(payload: &[u8]) -> (r: Result<InitializeArgs, ProcessError>)
        ensures
            payload@.len() < INITIALIZE_PAYLOAD_LEN ==> r == Err::<InitializeArgs, ProcessError>(
                ProcessError::InvalidInstructionData,
            ),
            payload@.len() >= INITIALIZE_PAYLOAD_LEN ==> r == Ok::<InitializeArgs, ProcessError>(
                initialize_args_of(payload@),
            ),
    {
        if payload.len() < INITIALIZE_PAYLOAD_LEN {
            return Err(ProcessError::InvalidInstructionData);
        }
        Ok(InitializeArgs {
            amount_to_raise: read_u64_le(payload, 0),
            time_started: read_u64_le(payload, 8) as i64,
            duration: payload[16],
        })
    }
}

/// Decodes a Contribute payload into its amount; bytes past it are ignored.
pub fn unpack_contribute_amount(payload: &[u8]) -> (r: Result<u64, ProcessError>)
    ensures
        payload@.len() < CONTRIBUTE_PAYLOAD_LEN ==> r == Err::<u64, ProcessError>(
            ProcessError::InvalidInstructionData,
        ),
        payload@.len() >= CONTRIBUTE_PAYLOAD_LEN ==> r == Ok::<u64, ProcessError>(
            u64_from_le(payload@, 0),
        ),
{
    if payload.len() < CONTRIBUTE_PAYLOAD_LEN {
        return Err(ProcessError::InvalidInstructionData);
    }
    Ok(read_u64_le(payload, 0))
}

} // verus!
