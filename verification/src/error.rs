//! The reasons for which an operation is refused.
use vstd::prelude::*;

verus! {

/// Why an operation on a round was refused. A refused operation changes nothing.
#[derive(Clone, Copy, Debug, PartialEq, Eq, Structural)]
pub enum RecoveryRoomError {
    /// Entries were submitted to a round that is not active.
    RoundNotActive,
    /// Entries were submitted at or after the round's end time.
    RoundEnded,
    /// Randomness was requested before the round's end time.
    RoundNotEnded,
    /// A submission held no entry, or more than the protocol allows per user.
    InvalidTokenCount,
    /// A round was started while the previous one has no winner yet.
    PreviousRoundNotComplete,
    /// The round is not in the state that the operation needs.
    InvalidRoundStatus,
    /// No token in the round has been entered.
    NoParticipants,
    /// The random value is the all-zero placeholder of a draw not yet made.
    VrfNotResolved,
    /// The user already has a participation in this round.
    AlreadyParticipated,
    /// A token does not meet the minimum loss.
    InsufficientLoss,
    /// The token is already registered in the round's pool.
    DuplicateToken,
    /// The protocol has been set up before.
    AlreadyInitialized,
}

impl RecoveryRoomError {
    /// The text of `message`, as a sequence of characters.
    pub open spec fn message_text(self) -> Seq<char> {
        match self {
            RecoveryRoomError::RoundNotActive => "Round is not active"@,
            RecoveryRoomError::RoundEnded => "Round has already ended"@,
            RecoveryRoomError::RoundNotEnded => "Round has not ended yet"@,
            RecoveryRoomError::InvalidTokenCount => "Invalid token count (must be 1-3)"@,
            RecoveryRoomError::PreviousRoundNotComplete => "Previous round not complete"@,
            RecoveryRoomError::InvalidRoundStatus => "Invalid round status"@,
            RecoveryRoomError::NoParticipants => "No participants in round"@,
            RecoveryRoomError::VrfNotResolved => "VRF result not yet resolved"@,
            RecoveryRoomError::AlreadyParticipated => "User already participated in this round"@,
            RecoveryRoomError::InsufficientLoss => "Token does not meet minimum loss requirement"@,
            RecoveryRoomError::DuplicateToken => "Token already registered in this round"@,
            RecoveryRoomError::AlreadyInitialized => "Protocol already initialized"@,
        }
    }

    /// A short description of the error for people to read.
    pub fn message(&self) -> (text: &'static str)
        ensures
            text@ == self.message_text(),
    {
        match self {
            RecoveryRoomError::RoundNotActive => "Round is not active",
            RecoveryRoomError::RoundEnded => "Round has already ended",
            RecoveryRoomError::RoundNotEnded => "Round has not ended yet",
            RecoveryRoomError::InvalidTokenCount => "Invalid token count (must be 1-3)",
            RecoveryRoomError::PreviousRoundNotComplete => "Previous round not complete",
            RecoveryRoomError::InvalidRoundStatus => "Invalid round status",
            RecoveryRoomError::NoParticipants => "No participants in round",
            RecoveryRoomError::VrfNotResolved => "VRF result not yet resolved",
            RecoveryRoomError::AlreadyParticipated => "User already participated in this round",
            RecoveryRoomError::InsufficientLoss => "Token does not meet minimum loss requirement",
            RecoveryRoomError::DuplicateToken => "Token already registered in this round",
            RecoveryRoomError::AlreadyInitialized => "Protocol already initialized",
        }
    }
}

} // verus!
