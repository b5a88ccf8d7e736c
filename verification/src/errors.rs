//! The failures a command can end in, and the one text each is shown as.

use vstd::prelude::*;
use vstd::string::*;

verus! {

/// One of the two independent flags of a voice connection.
#[derive(Clone, Copy, Debug, PartialEq, Eq, Structural)]
pub enum VoiceFlag {
    Mute,
    Deafen,
}

/// Why a command did not do what was asked.
#[derive(Clone, Copy, Debug, PartialEq, Eq, Structural)]
pub enum BotError {
    /// The requesting user is in no voice channel of the guild.
    NotInVoiceChannel,
    /// The guild has no voice session.
    NotConnected,
    /// The flag already has the value asked for; nothing was sent to the
    /// transport.
    AlreadyInState(VoiceFlag, bool),
    /// The audio source could not be resolved into a playable stream.
    SourceResolutionFailed,
    /// The card service or the gateway answered with a failure. Shown with
    /// the collaborator's report, it is that report and nothing else.
    CollaboratorUnreachable,
    /// A command argument is missing or malformed.
    InvalidArgument,
    /// The voice transport rejected a join, leave, mute or deafen.
    TransportCommandFailed,
}

/// The user-facing text of a failure.
pub open spec fn message(e: BotError) -> Seq<char> {
    match e {
        BotError::NotInVoiceChannel => "You are not in a voice channel"@,
        BotError::NotConnected => "Not connected to a voice channel"@,
        BotError::AlreadyInState(VoiceFlag::Mute, true) => "Already muted"@,
        BotError::AlreadyInState(VoiceFlag::Mute, false) => "Already unmuted"@,
        BotError::AlreadyInState(VoiceFlag::Deafen, true) => "Already deafened"@,
        BotError::AlreadyInState(VoiceFlag::Deafen, false) => "Already undeafened"@,
        BotError::SourceResolutionFailed => "Could not resolve the audio source"@,
        BotError::CollaboratorUnreachable => "The remote service reported a failure"@,
        BotError::InvalidArgument => "Missing or malformed argument"@,
        BotError::TransportCommandFailed => "The voice transport rejected the command"@,
    }
}

/// The text of a failure together with what the collaborator said about it.
/// A failure of the card service or the gateway is shown as the
/// collaborator's own report, as it stands. Every other failure is shown as
/// its own text, then, where `detail` is not empty, a colon, a space and
/// `detail`.
pub open spec fn message_with(e: BotError, detail: Seq<char>) -> Seq<char> {
    if e == BotError::CollaboratorUnreachable {
        detail
    } else if detail.len() == 0 {
        message(e)
    } else {
        message(e) + ": "@ + detail
    }
}

impl BotError {
    /// The user-facing text of this failure.
    pub fn message(&self) -> (r: String)
        ensures
            r@ == message(*self),
    {
        let text = match self {
            BotError::NotInVoiceChannel => "You are not in a voice channel",
            BotError::NotConnected => "Not connected to a voice channel",
            BotError::AlreadyInState(VoiceFlag::Mute, true) => "Already muted",
            BotError::AlreadyInState(VoiceFlag::Mute, false) => "Already unmuted",
            BotError::AlreadyInState(VoiceFlag::Deafen, true) => "Already deafened",
            BotError::AlreadyInState(VoiceFlag::Deafen, false) => "Already undeafened",
            BotError::SourceResolutionFailed => "Could not resolve the audio source",
            BotError::CollaboratorUnreachable => "The remote service reported a failure",
            BotError::InvalidArgument => "Missing or malformed argument",
            BotError::TransportCommandFailed => "The voice transport rejected the command",
        };
        String::from_str(text)
    }

    /// The user-facing text of this failure together with the
    /// collaborator's own report.
    pub fn message_with(&self, detail: &str) -> (r: String)
        ensures
            r@ == message_with(*self, detail@),
    {
        match self {
            BotError::CollaboratorUnreachable => String::from_str(detail),
            _ => {
                let mut r = self.message();
                if detail.unicode_len() > 0 {
                    r.append(": ");
                    r.append(detail);
                }
                r
            },
        }
    }
}

} // verus!
