use crate::error::RpsError;
use crate::game::read_key;
use vstd::prelude::*;

verus! {

/// A decoded command.
#[derive(Clone, Copy, Debug)]
pub enum RPSInstruction {
    /// Opens the record, naming who may later withdraw fees.
    Init { withdraw_fee_authority: [u8; 32] },
    /// Takes a free player slot with a commitment to a move.
    PlaceChallenge { hash: [u8; 32] },
    /// Reveals both moves and resolves the match.
    Crank,
    /// Closes a resolved match and releases its fees.
    WithdrawFees,
}

/// Mathematical view of an `RPSInstruction`.
pub enum InstructionView {
    Init { withdraw_fee_authority: Seq<u8> },
    PlaceChallenge { hash: Seq<u8> },
    Crank,
    WithdrawFees,
}

impl View for RPSInstruction {
    type V = InstructionView;

    open spec fn view(&self) -> InstructionView {
        match *self {
            RPSInstruction::Init { withdraw_fee_authority } => InstructionView::Init {
                withdraw_fee_authority: withdraw_fee_authority@,
            },
            RPSInstruction::PlaceChallenge { hash } => InstructionView::PlaceChallenge {
                hash: hash@,
            },
            RPSInstruction::Crank => InstructionView::Crank,
            RPSInstruction::WithdrawFees => InstructionView::WithdrawFees,
        }
    }
}

/// Why a buffer does not decode, if it does not.
pub open spec fn instruction_error(s: Seq<u8>) -> Option<RpsError> {
    if s.len() == 0 {
        Some(RpsError::EmptyInstruction)
    } else if s[0] > 3 {
        Some(RpsError::UnknownInstruction)
    } else if s[0] <= 1 && s.len() < 33 {
        Some(RpsError::TruncatedOperand)
    } else {
        None
    }
}

/// The command a buffer decodes to, where `instruction_error` is `None`.
pub open spec fn decode_instruction(s: Seq<u8>) -> InstructionView {
    if s[0] == 0 {
        InstructionView::Init { withdraw_fee_authority: s.subrange(1, 33) }
    } else if s[0] == 1 {
        InstructionView::PlaceChallenge { hash: s.subrange(1, 33) }
    } else if s[0] == 2 {
        InstructionView::Crank
    } else {
        InstructionView::WithdrawFees
    }
}

impl RPSInstruction {
    /// Decodes a command: a tag byte, then its operand; trailing bytes are ignored.
    pub fn unpack(input: &[u8]) -> (r: Result<Self, RpsError>)
        ensures
            match instruction_error(input@) {
                Some(e) => r == Err::<Self, RpsError>(e),
                None => r matches Ok(i) && i@ == decode_instruction(input@),
            },
    {
        if input.len() == 0 {
            return Err(RpsError::EmptyInstruction);
        }
        let tag = input[0];
        match tag {
            0 => {
                let withdraw_fee_authority = Self::unpack_pubkey(input)?;
                Ok(RPSInstruction::Init { withdraw_fee_authority })
            },
            1 => {
                let hash = Self::unpack_hash(input)?;
                Ok(RPSInstruction::PlaceChallenge { hash })
            },
            2 => Ok(RPSInstruction::Crank),
            3 => Ok(RPSInstruction::WithdrawFees),
            _ => Err(RpsError::UnknownInstruction),
        }
    }

    /// The 32-byte commitment operand that follows the tag.
    fn unpack_hash(input: &[u8]) -> (r: Result<[u8; 32], RpsError>)
        requires
            input@.len() >= 1,
        ensures
            input@.len() < 33 ==> r == Err::<[u8; 32], RpsError>(RpsError::TruncatedOperand),
            input@.len() >= 33 ==> (r matches Ok(h) && h@ == input@.subrange(1, 33)),
    {
        if input.len() < 33 {
            return Err(RpsError::TruncatedOperand);
        }
        Ok(read_key(input, 1))
    }

    /// The 32-byte identity operand that follows the tag.
    fn unpack_pubkey(input: &[u8]) -> (r: Result<[u8; 32], RpsError>)
        requires
            input@.len() >= 1,
        ensures
            input@.len() < 33 ==> r == Err::<[u8; 32], RpsError>(RpsError::TruncatedOperand),
            input@.len() >= 33 ==> (r matches Ok(k) && k@ == input@.subrange(1, 33)),
    {
        if input.len() < 33 {
            return Err(RpsError::TruncatedOperand);
        }
        Ok(read_key(input, 1))
    }
}

} // verus!
