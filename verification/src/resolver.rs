//! The contract glue around external track resolution: deciding, before any
//! network work, whether a query is resolved as a direct link or as a search
//! phrase, and which voice channel a session is established to. The lookup
//! itself is the resolver collaborator's work; it returns metadata and a
//! playable source, or a cause text on failure.

use vstd::prelude::*;
use vstd::string::StrSliceExecFns;

use crate::errors::UserInputError;

verus! {

/// How a query is handed to the external resolver.
pub enum ResolveKind {
    /// The text is link-shaped: fetch it directly.
    ByUrl,
    /// Anything else: resolve it as a search phrase.
    BySearch,
}

/// A query is link-shaped when it starts with "http".
pub open spec fn spec_is_link(s: Seq<char>) -> bool {
    s.len() >= 4 && s[0] == 'h' && s[1] == 't' && s[2] == 't' && s[3] == 'p'
}

/// Decides how a play or add query is resolved: empty text is refused before
/// any network work, link-shaped text is fetched directly, and everything
/// else is searched.
pub fn classify_query(text: &str) -> (r: Result<ResolveKind, UserInputError>)
    ensures
        r is Err <==> text@.len() == 0,
        r matches Err(e) ==> e is EmptyQuery,
        r matches Ok(k) ==> (k is ByUrl <==> spec_is_link(text@)),
{
    let n = text.unicode_len();
    if n == 0 {
        Err(UserInputError::EmptyQuery)
    } else if n >= 4 && text.get_char(0) == 'h' && text.get_char(1) == 't' && text.get_char(2)
        == 't' && text.get_char(3) == 'p' {
        Ok(ResolveKind::ByUrl)
    } else {
        Ok(ResolveKind::BySearch)
    }
}

/// Decides where a join lands: the invoking user's current voice channel, or
/// a refusal when the user is in none.
pub fn validate_voice_target(voice_channel: Option<u64>) -> (r: Result<u64, UserInputError>)
    ensures
        r is Ok <==> voice_channel is Some,
        r matches Ok(ch) ==> voice_channel == Some(ch),
        r matches Err(e) ==> e is MissingVoiceChannel,
{
    match voice_channel {
        Some(ch) => Ok(ch),
        None => Err(UserInputError::MissingVoiceChannel),
    }
}

} // verus!
