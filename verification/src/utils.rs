//! The content of the messages the orchestrator sends: now-playing and
//! queued announcements, the playlist-add proposal, and the queue listing.
//! Only the carried content is built here; turning it into a transport
//! message is the driver's work.

use vstd::prelude::*;
use vstd::string::{StrSliceExecFns, StringExecFns};

use crate::model::TrackMetadata;
use crate::queue::PlayQueue;
use crate::model::QueuedTrack;

verus! {

/// The text an announcement carries: a title, a thumbnail location and a
/// description, each possibly empty.
pub struct EmbedContent {
    pub title: String,
    pub thumbnail: String,
    pub description: String,
}

/// The text itself when present, else the fallback.
pub open spec fn spec_text_or(t: Option<Seq<char>>, fallback: Seq<char>) -> Seq<char> {
    match t {
        Some(s) => s,
        None => fallback,
    }
}

/// The character rendering one decimal digit.
pub open spec fn spec_digit_char(d: int) -> char {
    if d == 0 {
        '0'
    } else if d == 1 {
        '1'
    } else if d == 2 {
        '2'
    } else if d == 3 {
        '3'
    } else if d == 4 {
        '4'
    } else if d == 5 {
        '5'
    } else if d == 6 {
        '6'
    } else if d == 7 {
        '7'
    } else if d == 8 {
        '8'
    } else {
        '9'
    }
}

/// The usual decimal rendering of a number: most significant digit first,
/// no leading zero except for zero itself.
pub open spec fn spec_decimal(n: nat) -> Seq<char>
    decreases n,
{
    if n < 10 {
        seq![spec_digit_char(n as int)]
    } else {
        spec_decimal(n / 10).push(spec_digit_char((n % 10) as int))
    }
}

/// The one-character text rendering one decimal digit.
pub fn digit_str(d: u64) -> (r: &'static str)
    requires
        d < 10,
    ensures
        r@ == seq![spec_digit_char(d as int)],
{
    proof {
        reveal_strlit("0");
        reveal_strlit("1");
        reveal_strlit("2");
        reveal_strlit("3");
        reveal_strlit("4");
        reveal_strlit("5");
        reveal_strlit("6");
        reveal_strlit("7");
        reveal_strlit("8");
        reveal_strlit("9");
    }
    let r: &'static str = if d == 0 {
        "0"
    } else if d == 1 {
        "1"
    } else if d == 2 {
        "2"
    } else if d == 3 {
        "3"
    } else if d == 4 {
        "4"
    } else if d == 5 {
        "5"
    } else if d == 6 {
        "6"
    } else if d == 7 {
        "7"
    } else if d == 8 {
        "8"
    } else {
        "9"
    };
    proof {
        assert(r@ =~= seq![spec_digit_char(d as int)]);
    }
    r
}

/// Renders a number in decimal.
pub fn u64_to_string(n: u64) -> (r: String)
    ensures
        r@ == spec_decimal(n as nat),
    decreases n,
{
    if n < 10 {
        String::from_str(digit_str(n))
    } else {
        let mut s = u64_to_string(n / 10);
        s.append(digit_str(n % 10));
        proof {
            assert(s@ =~= spec_decimal(n as nat));
        }
        s
    }
}

/// Content of the announcement for the track now sounding: its title (or a
/// placeholder), its thumbnail (or nothing), and the requester's mention in
/// brackets.
pub fn now_playing_embed(metadata: &TrackMetadata, mention: &str) -> (r: EmbedContent)
    ensures
        r.title@ == spec_text_or(metadata@.title, "No Name"@),
        r.thumbnail@ == spec_text_or(metadata@.thumbnail, Seq::empty()),
        r.description@ == "["@ + mention@ + "]"@,
{
    let title = match &metadata.title {
        Some(t) => t.clone(),
        None => String::from_str("No Name"),
    };
    let thumbnail = match &metadata.thumbnail {
        Some(t) => t.clone(),
        None => String::new(),
    };
    let mut description = String::from_str("[");
    description.append(mention);
    description.append("]");
    EmbedContent { title, thumbnail, description }
}

/// Content of the acknowledgement for a track that was queued behind the
/// current one, carrying its position counted from 1.
pub fn song_queued_embed(metadata: &TrackMetadata, position: usize) -> (r: EmbedContent)
    ensures
        r.title@ == Seq::<char>::empty(),
        r.thumbnail@ == spec_text_or(metadata@.thumbnail, Seq::empty()),
        r.description@ == "**"@ + spec_text_or(metadata@.title, "No name"@)
            + "** - agregada a la cola en posici\u{f3}n: "@ + spec_decimal(position as nat),
{
    let title = String::new();
    let thumbnail = match &metadata.thumbnail {
        Some(t) => t.clone(),
        None => String::new(),
    };
    let mut description = String::from_str("**");
    match &metadata.title {
        Some(t) => description.append(t.as_str()),
        None => description.append("No name"),
    }
    description.append("** - agregada a la cola en posici\u{f3}n: ");
    let num = u64_to_string(position as u64);
    description.append(num.as_str());
    EmbedContent { title, thumbnail, description }
}

/// Content of the proposal posted before a playlist addition: the resolved
/// track's display metadata.
pub fn playlist_add_track_embed(metadata: &TrackMetadata) -> (r: EmbedContent)
    ensures
        r.title@ == spec_text_or(metadata@.title, "No Name"@),
        r.thumbnail@ == spec_text_or(metadata@.thumbnail, Seq::empty()),
        r.description@ == Seq::<char>::empty(),
{
    let title = match &metadata.title {
        Some(t) => t.clone(),
        None => String::from_str("No Name"),
    };
    let thumbnail = match &metadata.thumbnail {
        Some(t) => t.clone(),
        None => String::new(),
    };
    EmbedContent { title, thumbnail, description: String::new() }
}

/// One listing line: the track's position, a separator, its title (or a
/// placeholder), and a line break.
pub open spec fn spec_queue_line(i: nat, t: QueuedTrack) -> Seq<char> {
    spec_decimal(i) + " | "@ + spec_text_or(t.metadata@.title, "No Name"@) + "\n"@
}

/// The listing lines for a whole queue, front first, positions from 0.
pub open spec fn spec_queue_lines(q: Seq<QueuedTrack>) -> Seq<char>
    decreases q.len(),
{
    if q.len() == 0 {
        Seq::empty()
    } else {
        spec_queue_lines(q.drop_last()) + spec_queue_line((q.len() - 1) as nat, q.last())
    }
}

/// The guild's queue rendered as a fenced block: a header line, then one
/// line per track in play order.
pub fn track_queue_content(queue: &PlayQueue) -> (r: String)
    ensures
        r@ == "```go\n"@ + "# | Nombre\n"@ + spec_queue_lines(queue@) + "```"@,
{
    let mut content = String::from_str("```go\n");
    content.append("# | Nombre\n");
    let n = queue.len();
    let mut i: usize = 0;
    proof {
        assert(queue@.take(0) =~= Seq::<QueuedTrack>::empty());
        assert(content@ =~= "```go\n"@ + "# | Nombre\n"@ + spec_queue_lines(queue@.take(0)));
    }
    while i < n
        invariant
            i <= n == queue@.len(),
            content@ == "```go\n"@ + "# | Nombre\n"@ + spec_queue_lines(queue@.take(i as int)),
        decreases n - i,
    {
        let t = queue.get(i);
        let num = u64_to_string(i as u64);
        content.append(num.as_str());
        content.append(" | ");
        match &t.metadata.title {
            Some(ti) => content.append(ti.as_str()),
            None => content.append("No Name"),
        }
        content.append("\n");
        proof {
            assert(queue@.take(i as int + 1).drop_last() =~= queue@.take(i as int));
            assert(queue@.take(i as int + 1).last() == queue@[i as int]);
            assert(content@ =~= "```go\n"@ + "# | Nombre\n"@ + spec_queue_lines(
                queue@.take(i as int + 1),
            ));
        }
        i += 1;
    }
    proof {
        assert(queue@.take(n as int) =~= queue@);
    }
    content.append("```");
    content
}

} // verus!
