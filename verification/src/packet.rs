use vstd::prelude::*;
use crate::net::WoWPacket;

verus! {

/// The command tag of an authentication packet.
#[derive(Copy, Clone, Debug, PartialEq, Eq, Structural)]
#[non_exhaustive]
pub enum AuthCommand {
    AuthLogonChallenge,
    AuthLogonProof,
    AuthReconnectChallenge,
    AuthReconnectProof,
    RealmList,
    XferInitiate,
    XferData,
    XferAccept,
    XferResume,
    XferCancel,
}

/// The byte a command tag is written as on the wire.
pub open spec fn auth_command_value(c: AuthCommand) -> u8 {
    match c {
        AuthCommand::AuthLogonChallenge => 0x00,
        AuthCommand::AuthLogonProof => 0x01,
        AuthCommand::AuthReconnectChallenge => 0x02,
        AuthCommand::AuthReconnectProof => 0x03,
        AuthCommand::RealmList => 0x10,
        AuthCommand::XferInitiate => 0x30,
        AuthCommand::XferData => 0x31,
        AuthCommand::XferAccept => 0x32,
        AuthCommand::XferResume => 0x33,
        AuthCommand::XferCancel => 0x34,
    }
}

/// The command tag a byte stands for, if any.
pub open spec fn spec_auth_command_decode(b: u8) -> Option<AuthCommand> {
    if b == 0x00 {
        Some(AuthCommand::AuthLogonChallenge)
    } else if b == 0x01 {
        Some(AuthCommand::AuthLogonProof)
    } else if b == 0x02 {
        Some(AuthCommand::AuthReconnectChallenge)
    } else if b == 0x03 {
        Some(AuthCommand::AuthReconnectProof)
    } else if b == 0x10 {
        Some(AuthCommand::RealmList)
    } else if b == 0x30 {
        Some(AuthCommand::XferInitiate)
    } else if b == 0x31 {
        Some(AuthCommand::XferData)
    } else if b == 0x32 {
        Some(AuthCommand::XferAccept)
    } else if b == 0x33 {
        Some(AuthCommand::XferResume)
    } else if b == 0x34 {
        Some(AuthCommand::XferCancel)
    } else {
        None
    }
}

impl AuthCommand {
    /// Writes the tag as its wire byte.
    pub fn encode(&self) -> (r: u8)
        ensures
            r == auth_command_value(*self),
    {
        match self {
            AuthCommand::AuthLogonChallenge => 0x00,
            AuthCommand::AuthLogonProof => 0x01,
            AuthCommand::AuthReconnectChallenge => 0x02,
            AuthCommand::AuthReconnectProof => 0x03,
            AuthCommand::RealmList => 0x10,
            AuthCommand::XferInitiate => 0x30,
            AuthCommand::XferData => 0x31,
            AuthCommand::XferAccept => 0x32,
            AuthCommand::XferResume => 0x33,
            AuthCommand::XferCancel => 0x34,
        }
    }

    /// Reads a tag back from its wire byte; a byte that stands for no tag is
    /// rejected.
    pub fn decode(b: u8) -> (r: Option<AuthCommand>)
        ensures
            r == spec_auth_command_decode(b),
    {
        match b {
            0x00 => Some(AuthCommand::AuthLogonChallenge),
            0x01 => Some(AuthCommand::AuthLogonProof),
            0x02 => Some(AuthCommand::AuthReconnectChallenge),
            0x03 => Some(AuthCommand::AuthReconnectProof),
            0x10 => Some(AuthCommand::RealmList),
            0x30 => Some(AuthCommand::XferInitiate),
            0x31 => Some(AuthCommand::XferData),
            0x32 => Some(AuthCommand::XferAccept),
            0x33 => Some(AuthCommand::XferResume),
            0x34 => Some(AuthCommand::XferCancel),
            _ => None,
        }
    }
}

/// Reading a command tag back from its own wire byte returns the tag.
pub proof fn lemma_auth_command_roundtrip(c: AuthCommand)
    ensures
        spec_auth_command_decode(auth_command_value(c)) == Some(c),
{
}

/// The result tag of an authentication reply.
#[derive(Copy, Clone, Debug, PartialEq, Eq, Structural)]
#[non_exhaustive]
pub enum AuthResult {
    WowSuccess,
    WowFailBanned,
    WowFailUnknownAccount,
    WowFailIncorrectPassword,
    WowFailAlreadyOnline,
    WowFailNoTime,
    WowFailDbBusy,
    WowFailVersionInvalid,
    WowFailVersionUpdate,
    WowFailInvalidServer,
    WowFailSuspended,
    WowFailFailNoaccess,
    WowSuccessSurvey,
    WowFailParentcontrol,
    WowFailLockedEnforced,
    WowFailTrialEnded,
    WowFailUseBattlenet,
    WowFailAntiIndulgence,
    WowFailExpired,
    WowFailNoGameAccount,
    WowFailChargeback,
    WowFailInternetGameRoomWithoutBnet,
    WowFailGameAccountLocked,
    WowFailUnlockableLock,
    WowFailConversionRequired,
    WowFailDisconnected,
}

/// The byte a result tag is written as on the wire.
pub open spec fn auth_result_value(r: AuthResult) -> u8 {
    match r {
        AuthResult::WowSuccess => 0x00,
        AuthResult::WowFailBanned => 0x03,
        AuthResult::WowFailUnknownAccount => 0x04,
        AuthResult::WowFailIncorrectPassword => 0x05,
        AuthResult::WowFailAlreadyOnline => 0x06,
        AuthResult::WowFailNoTime => 0x07,
        AuthResult::WowFailDbBusy => 0x08,
        AuthResult::WowFailVersionInvalid => 0x09,
        AuthResult::WowFailVersionUpdate => 0x0A,
        AuthResult::WowFailInvalidServer => 0x0B,
        AuthResult::WowFailSuspended => 0x0C,
        AuthResult::WowFailFailNoaccess => 0x0D,
        AuthResult::WowSuccessSurvey => 0x0E,
        AuthResult::WowFailParentcontrol => 0x0F,
        AuthResult::WowFailLockedEnforced => 0x10,
        AuthResult::WowFailTrialEnded => 0x11,
        AuthResult::WowFailUseBattlenet => 0x12,
        AuthResult::WowFailAntiIndulgence => 0x13,
        AuthResult::WowFailExpired => 0x14,
        AuthResult::WowFailNoGameAccount => 0x15,
        AuthResult::WowFailChargeback => 0x16,
        AuthResult::WowFailInternetGameRoomWithoutBnet => 0x17,
        AuthResult::WowFailGameAccountLocked => 0x18,
        AuthResult::WowFailUnlockableLock => 0x19,
        AuthResult::WowFailConversionRequired => 0x20,
        AuthResult::WowFailDisconnected => 0xFF,
    }
}

/// The result tag a byte stands for, if any.
pub open spec fn spec_auth_result_decode(b: u8) -> Option<AuthResult> {
    if b == 0x00 {
        Some(AuthResult::WowSuccess)
    } else if b == 0x03 {
        Some(AuthResult::WowFailBanned)
    } else if b == 0x04 {
        Some(AuthResult::WowFailUnknownAccount)
    } else if b == 0x05 {
        Some(AuthResult::WowFailIncorrectPassword)
    } else if b == 0x06 {
        Some(AuthResult::WowFailAlreadyOnline)
    } else if b == 0x07 {
        Some(AuthResult::WowFailNoTime)
    } else if b == 0x08 {
        Some(AuthResult::WowFailDbBusy)
    } else if b == 0x09 {
        Some(AuthResult::WowFailVersionInvalid)
    } else if b == 0x0A {
        Some(AuthResult::WowFailVersionUpdate)
    } else if b == 0x0B {
        Some(AuthResult::WowFailInvalidServer)
    } else if b == 0x0C {
        Some(AuthResult::WowFailSuspended)
    } else if b == 0x0D {
        Some(AuthResult::WowFailFailNoaccess)
    } else if b == 0x0E {
        Some(AuthResult::WowSuccessSurvey)
    } else if b == 0x0F {
        Some(AuthResult::WowFailParentcontrol)
    } else if b == 0x10 {
        Some(AuthResult::WowFailLockedEnforced)
    } else if b == 0x11 {
        Some(AuthResult::WowFailTrialEnded)
    } else if b == 0x12 {
        Some(AuthResult::WowFailUseBattlenet)
    } else if b == 0x13 {
        Some(AuthResult::WowFailAntiIndulgence)
    } else if b == 0x14 {
        Some(AuthResult::WowFailExpired)
    } else if b == 0x15 {
        Some(AuthResult::WowFailNoGameAccount)
    } else if b == 0x16 {
        Some(AuthResult::WowFailChargeback)
    } else if b == 0x17 {
        Some(AuthResult::WowFailInternetGameRoomWithoutBnet)
    } else if b == 0x18 {
        Some(AuthResult::WowFailGameAccountLocked)
    } else if b == 0x19 {
        Some(AuthResult::WowFailUnlockableLock)
    } else if b == 0x20 {
        Some(AuthResult::WowFailConversionRequired)
    } else if b == 0xFF {
        Some(AuthResult::WowFailDisconnected)
    } else {
        None
    }
}

impl AuthResult {
    /// Writes the tag as its wire byte.
    pub fn encode(&self) -> (r: u8)
        ensures
            r == auth_result_value(*self),
    {
        match self {
            AuthResult::WowSuccess => 0x00,
            AuthResult::WowFailBanned => 0x03,
            AuthResult::WowFailUnknownAccount => 0x04,
            AuthResult::WowFailIncorrectPassword => 0x05,
            AuthResult::WowFailAlreadyOnline => 0x06,
            AuthResult::WowFailNoTime => 0x07,
            AuthResult::WowFailDbBusy => 0x08,
            AuthResult::WowFailVersionInvalid => 0x09,
            AuthResult::WowFailVersionUpdate => 0x0A,
            AuthResult::WowFailInvalidServer => 0x0B,
            AuthResult::WowFailSuspended => 0x0C,
            AuthResult::WowFailFailNoaccess => 0x0D,
            AuthResult::WowSuccessSurvey => 0x0E,
            AuthResult::WowFailParentcontrol => 0x0F,
            AuthResult::WowFailLockedEnforced => 0x10,
            AuthResult::WowFailTrialEnded => 0x11,
            AuthResult::WowFailUseBattlenet => 0x12,
            AuthResult::WowFailAntiIndulgence => 0x13,
            AuthResult::WowFailExpired => 0x14,
            AuthResult::WowFailNoGameAccount => 0x15,
            AuthResult::WowFailChargeback => 0x16,
            AuthResult::WowFailInternetGameRoomWithoutBnet => 0x17,
            AuthResult::WowFailGameAccountLocked => 0x18,
            AuthResult::WowFailUnlockableLock => 0x19,
            AuthResult::WowFailConversionRequired => 0x20,
            AuthResult::WowFailDisconnected => 0xFF,
        }
    }

    /// Reads a tag back from its wire byte; a byte that stands for no tag is
    /// rejected.
    pub fn decode(b: u8) -> (r: Option<AuthResult>)
        ensures
            r == spec_auth_result_decode(b),
    {
        match b {
            0x00 => Some(AuthResult::WowSuccess),
            0x03 => Some(AuthResult::WowFailBanned),
            0x04 => Some(AuthResult::WowFailUnknownAccount),
            0x05 => Some(AuthResult::WowFailIncorrectPassword),
            0x06 => Some(AuthResult::WowFailAlreadyOnline),
            0x07 => Some(AuthResult::WowFailNoTime),
            0x08 => Some(AuthResult::WowFailDbBusy),
            0x09 => Some(AuthResult::WowFailVersionInvalid),
            0x0A => Some(AuthResult::WowFailVersionUpdate),
            0x0B => Some(AuthResult::WowFailInvalidServer),
            0x0C => Some(AuthResult::WowFailSuspended),
            0x0D => Some(AuthResult::WowFailFailNoaccess),
            0x0E => Some(AuthResult::WowSuccessSurvey),
            0x0F => Some(AuthResult::WowFailParentcontrol),
            0x10 => Some(AuthResult::WowFailLockedEnforced),
            0x11 => Some(AuthResult::WowFailTrialEnded),
            0x12 => Some(AuthResult::WowFailUseBattlenet),
            0x13 => Some(AuthResult::WowFailAntiIndulgence),
            0x14 => Some(AuthResult::WowFailExpired),
            0x15 => Some(AuthResult::WowFailNoGameAccount),
            0x16 => Some(AuthResult::WowFailChargeback),
            0x17 => Some(AuthResult::WowFailInternetGameRoomWithoutBnet),
            0x18 => Some(AuthResult::WowFailGameAccountLocked),
            0x19 => Some(AuthResult::WowFailUnlockableLock),
            0x20 => Some(AuthResult::WowFailConversionRequired),
            0xFF => Some(AuthResult::WowFailDisconnected),
            _ => None,
        }
    }
}

/// Reading a result tag back from its own wire byte returns the tag.
pub proof fn lemma_auth_result_roundtrip(r: AuthResult)
    ensures
        spec_auth_result_decode(auth_result_value(r)) == Some(r),
{
}

/// The one reply record the session-adjacent code writes itself: a
/// little-endian, fixed-layout record of a command tag, an explicit padding
/// byte, and a result tag.
#[derive(Copy, Clone, Debug, PartialEq, Eq, Structural)]
pub struct LogonChallengeErrorResponse {
    pub command: AuthCommand,
    pub padding: u8,
    pub auth_result: AuthResult,
}

impl LogonChallengeErrorResponse {
    /// Builds the record from its three fields.
    pub fn new(command: AuthCommand, padding: u8, auth_result: AuthResult) -> (r: Self)
        ensures
            r.command == command,
            r.padding == padding,
            r.auth_result == auth_result,
    {
        LogonChallengeErrorResponse { command, padding, auth_result }
    }

    /// Reads a record back from its three wire bytes; anything of another
    /// length, or with a byte that stands for no tag, is rejected.
    pub fn decode(bytes: &[u8]) -> (r: Option<Self>)
        ensures
            match r {
                Some(p) => bytes@ == p.wire(),
                None => forall|p: LogonChallengeErrorResponse| bytes@ != #[trigger] p.wire(),
            },
    {
        if bytes.len() != 3 {
            return None;
        }
        let cmd = AuthCommand::decode(bytes[0]);
        let res = AuthResult::decode(bytes[2]);
        match (cmd, res) {
            (Some(command), Some(auth_result)) => {
                let p = LogonChallengeErrorResponse { command, padding: bytes[1], auth_result };
                proof {
                    assert(bytes@ =~= p.wire());
                }
                Some(p)
            },
            _ => {
                proof {
                    assert forall|p: LogonChallengeErrorResponse| bytes@ != #[trigger] p.wire() by {
                        lemma_auth_command_roundtrip(p.command);
                        lemma_auth_result_roundtrip(p.auth_result);
                    }
                }
                None
            },
        }
    }
}

impl WoWPacket for LogonChallengeErrorResponse {
    /// The three bytes of the record, in wire order.
    open spec fn wire(&self) -> Seq<u8> {
        seq![
            auth_command_value(self.command),
            self.padding,
            auth_result_value(self.auth_result),
        ]
    }

    fn encode_to_vec(&self) -> (r: Vec<u8>) {
        let mut r: Vec<u8> = Vec::new();
        r.push(self.command.encode());
        r.push(self.padding);
        r.push(self.auth_result.encode());
        proof {
            assert(r@ =~= self.wire());
        }
        r
    }
}

/// Encoding the record and reading it back returns the record: the wire
/// form loses nothing.
pub proof fn lemma_response_wire_roundtrip(p: LogonChallengeErrorResponse, q:
    LogonChallengeErrorResponse)
    ensures
        p.wire().len() == 3,
        p.wire() == q.wire() ==> p == q,
{
    lemma_auth_command_roundtrip(p.command);
    lemma_auth_result_roundtrip(p.auth_result);
    lemma_auth_command_roundtrip(q.command);
    lemma_auth_result_roundtrip(q.auth_result);
    if p.wire() == q.wire() {
        assert(auth_command_value(p.command) == auth_command_value(q.command));
        assert(p.padding == q.padding);
        assert(auth_result_value(p.auth_result) == auth_result_value(q.auth_result));
    }
}

} // verus!
