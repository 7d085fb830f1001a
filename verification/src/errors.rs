//! User-facing failure taxonomy: bad input is answered with a short message,
//! an external lookup failure is surfaced with its cause, and neither ever
//! escapes as a panic.

use vstd::prelude::*;
use vstd::string::StringExecFns;

verus! {

/// A command argument the user must correct. Always surfaced as a short
/// message, never treated as a fault of the system.
pub enum UserInputError {
    /// The play or add command came without any query text.
    EmptyQuery,
    /// The invoking user is not in a voice channel to join.
    MissingVoiceChannel,
    /// No playlist with the given name exists in the guild.
    PlaylistNotFound,
    /// A playlist with the given name already exists in the guild.
    DuplicatePlaylistName,
}

impl UserInputError {
    /// The reply sent for this input error.
    pub fn message(&self) -> (r: String)
        ensures
            r@ == match *self {
                UserInputError::EmptyQuery => "necesito una palabra o un link de youtube  (\u{2022}\u{25e1}\u{2022}) /"@,
                UserInputError::MissingVoiceChannel => "You need to be in a voice channel"@,
                UserInputError::PlaylistNotFound => "No se encontr\u{f3} una playlist con ese nombre en este servidor"@,
                UserInputError::DuplicatePlaylistName => "Ya existe una playlist con ese nombre"@,
            },
    {
        match self {
            UserInputError::EmptyQuery => String::from_str(
                "necesito una palabra o un link de youtube  (\u{2022}\u{25e1}\u{2022}) /",
            ),
            UserInputError::MissingVoiceChannel => String::from_str(
                "You need to be in a voice channel",
            ),
            UserInputError::PlaylistNotFound => String::from_str(
                "No se encontr\u{f3} una playlist con ese nombre en este servidor",
            ),
            UserInputError::DuplicatePlaylistName => String::from_str(
                "Ya existe una playlist con ese nombre",
            ),
        }
    }
}

/// The reply sent when external resolution of a query fails: a fixed prefix
/// followed by the underlying cause text. The queue is left untouched by the
/// caller in that case.
pub fn resolution_error_message(cause: &str) -> (r: String)
    ensures
        r@ == "\u{2267}\u{25c9}\u{25e1}\u{25c9}\u{2266} tuve un error interno: "@ + cause@,
{
    let mut r = String::from_str("\u{2267}\u{25c9}\u{25e1}\u{25c9}\u{2266} tuve un error interno: ");
    r.append(cause);
    r
}

/// The informational reply to a skip in a guild without a session.
pub fn not_in_voice_message() -> (r: String)
    ensures
        r@ == "No estoy en ningun canal de voz :p"@,
{
    String::from_str("No estoy en ningun canal de voz :p")
}

} // verus!
