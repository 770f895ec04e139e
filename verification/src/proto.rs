//! IPC types shared between the daemon and clients.
//!
//! This is the wire contract: the daemon sends a [`Response`] and a
//! client sends a [`Request`], one newline-terminated JSON line each.
//! Every request carries the protocol version, which is checked before
//! its body is trusted.
use crate::entry::{millis_of, ClipEntry, EntryContent, EntryId};
use serde_json::Error as JsonError;
use vstd::prelude::*;

verus! {

/// The protocol version this build speaks. Every [`Request`] carries it, and
/// decoding rejects any value it does not recognise.
pub const PROTOCOL_VERSION: u8 = 1;

/// Maximum number of characters kept in a text snippet.
pub const SNIPPET_CHARS: usize = 64;

/// Errors produced while encoding or decoding wire messages.
#[derive(Debug)]
pub enum ProtoError {
    /// The JSON payload could not be (de)serialised.
    Json(JsonError),
    /// The decoded request declared a protocol version this build cannot serve.
    UnsupportedVersion {
        /// The version this build speaks.
        expected: u8,
        /// The version the peer sent.
        found: u8,
    },
}

/// A request envelope pairing a transport-level version with a payload body.
#[derive(Debug, Clone, PartialEq, Eq)]
pub struct Request {
    /// Protocol version the client speaks; validated on decode.
    pub protocol_version: u8,
    /// The actual operation being requested.
    pub body: RequestBody,
}

impl Request {
    /// Wraps `body` in an envelope stamped with the current [`PROTOCOL_VERSION`].
    pub fn new(body: RequestBody) -> (r: Self)
        ensures
            r.protocol_version == PROTOCOL_VERSION,
            r.body == body,
    {
        Request { protocol_version: PROTOCOL_VERSION, body }
    }
}

/// The operations a client can ask the daemon to perform.
#[derive(Debug, Clone, PartialEq, Eq)]
pub enum RequestBody {
    /// Store a new clipboard entry.
    Add {
        /// The entry to store.
        entry: ClipEntry,
    },
    /// Fetch a page of lossy previews, newest first, starting after `after`.
    List {
        /// Cursor: return entries older than this id, or newest if `None`.
        after: Option<EntryId>,
        /// Maximum number of previews to return.
        limit: i64,
    },
    /// Fetch one full entry by id, for an explicit paste.
    Get {
        /// The entry to retrieve.
        id: EntryId,
    },
    /// Delete the given entries.
    Delete {
        /// The entries to remove.
        ids: Vec<EntryId>,
    },
    /// Pin or unpin an entry.
    SetPin {
        /// The entry to (un)pin.
        id: EntryId,
        /// Whether the entry should be pinned.
        pinned: bool,
    },
    /// Increment an entry's paste counter.
    MarkPasted {
        /// The entry that was pasted.
        id: EntryId,
    },
    /// Purge entries whose expiry is at or before `now` (epoch milliseconds).
    PurgeExpired {
        /// Current time as epoch milliseconds.
        now: i64,
    },
}

/// The daemon's reply to a [`Request`].
#[derive(Debug, Clone, PartialEq, Eq)]
pub enum Response {
    /// The operation succeeded with no payload (e.g. `Add`); on the wire
    /// its tag is `Ok`.
    Done,
    /// The number of rows affected (`Delete`, `SetPin`, `MarkPasted`,
    /// `PurgeExpired`).
    Count {
        /// Rows affected.
        count: u64,
    },
    /// A page of previews, in reply to `List`.
    Previews {
        /// The previews, newest first.
        previews: Vec<EntryPreview>,
    },
    /// A single full entry, in reply to `Get`.
    Entry {
        /// The requested entry.
        entry: ClipEntry,
    },
    /// The request failed; `message` is human-readable.
    Error {
        /// Human-readable failure description.
        message: String,
    },
}

/// What kind of content a preview stands in for.
#[derive(Debug, Clone, Copy, PartialEq, Eq, Structural)]
pub enum PreviewKind {
    /// Text content; `snippet` holds a truncated copy.
    Text,
    /// Image content; the payload is omitted.
    Image,
    /// Opaque binary content; the payload is omitted.
    Binary,
}

/// A lossy, list-view projection of a [`ClipEntry`]: only a short text
/// snippet (for text) or a [`PreviewKind`] marker (for image/binary)
/// crosses the wire.
#[derive(Debug, Clone, PartialEq, Eq)]
pub struct EntryPreview {
    /// Identifies the entry for follow-up actions (`Get`, `Delete`, ...).
    pub id: EntryId,
    /// What kind of content this row represents.
    pub kind: PreviewKind,
    /// Truncated, safe-to-display text; empty for non-text content.
    pub snippet: String,
    /// Whether the entry is pinned.
    pub pinned: bool,
    /// How many times the entry has been pasted.
    pub times_pasted: u32,
    /// Creation time as epoch milliseconds.
    pub created_at: i64,
}

/// The first `max_chars` characters of a text (all of it if shorter).
pub open spec fn prefix_chars(s: Seq<char>, max_chars: usize) -> Seq<char> {
    if s.len() <= max_chars {
        s
    } else {
        s.take(max_chars as int)
    }
}

/// A prefix of at most `max_chars` characters: as long as the text or
/// `max_chars`, whichever is shorter, and made of the text's first
/// characters.
pub proof fn lemma_prefix_chars(s: Seq<char>, max_chars: usize)
    ensures
        prefix_chars(s, max_chars).len() == if s.len() <= max_chars {
            s.len()
        } else {
            max_chars as nat
        },
        forall|i: int| 0 <= i < prefix_chars(s, max_chars).len() ==> #[trigger] prefix_chars(s, max_chars)[i] == s[i],
{
}

/// `String::push`: appends one character.
#[verifier::external_body]
fn push_char(s: &mut String, c: char)
    ensures
        final(s)@ == old(s)@.push(c),
{
    s.push(c);
}

/// Truncates `s` to at most `max_chars` characters, respecting char boundaries.
pub fn truncate(s: &str, max_chars: usize) -> (t: String)
    ensures
        t@ == prefix_chars(s@, max_chars),
{
    let mut out = String::new();
    let mut n: usize = 0;
    for c in it: s.chars()
        invariant
            it.seq() == s@,
            n <= max_chars,
            n <= it.index(),
            n == max_chars || n == it.index(),
            out@ == s@.take(n as int),
    {
        if n < max_chars {
            proof {
                assert(s@.take(n as int).push(c) =~= s@.take(n as int + 1));
            }
            push_char(&mut out, c);
            n = n + 1;
        }
    }
    proof {
        if s@.len() <= max_chars {
            assert(s@.take(s@.len() as int) =~= s@);
        }
    }
    out
}

/// The preview kind of an entry's content.
pub open spec fn preview_kind_of(content: EntryContent) -> PreviewKind {
    match content {
        EntryContent::Text(_) => PreviewKind::Text,
        EntryContent::Image(_) => PreviewKind::Image,
        EntryContent::Binary(_) => PreviewKind::Binary,
    }
}

/// The snippet of an entry's content: the first [`SNIPPET_CHARS`]
/// characters of text, nothing of image or binary content.
pub open spec fn snippet_of(content: EntryContent) -> Seq<char> {
    match content {
        EntryContent::Text(text) => prefix_chars(text@, SNIPPET_CHARS),
        _ => Seq::empty(),
    }
}

/// Each kind of content previews as its own kind: text as text, images as
/// images, binary data as binary data; only text has a snippet.
pub proof fn lemma_preview_kind_follows_content(content: EntryContent)
    ensures
        content is Text <==> preview_kind_of(content) == PreviewKind::Text,
        content is Image <==> preview_kind_of(content) == PreviewKind::Image,
        content is Binary <==> preview_kind_of(content) == PreviewKind::Binary,
        !(content is Text) ==> snippet_of(content).len() == 0,
{
}

impl EntryPreview {
    /// Builds a lossy preview from a full entry, truncating text payloads and
    /// dropping image/binary payloads entirely.
    pub fn from_entry(entry: &ClipEntry) -> (p: Self)
        ensures
            p.id == entry@.id,
            p.kind == preview_kind_of(entry@.content),
            entry@.content is Text ==> p.kind == PreviewKind::Text,
            entry@.content is Image ==> p.kind == PreviewKind::Image && p.snippet@.len() == 0,
            entry@.content is Binary ==> p.kind == PreviewKind::Binary && p.snippet@.len() == 0,
            p.snippet@ == snippet_of(entry@.content),
            p.pinned == entry@.pinned,
            p.times_pasted == entry@.times_pasted.value(),
            p.created_at == millis_of(entry@.created_at@),
    {
        let (kind, snippet) = match entry.get_entry_content() {
            EntryContent::Text(text) => (PreviewKind::Text, truncate(text.as_str(), SNIPPET_CHARS)),
            EntryContent::Image(_) => (PreviewKind::Image, String::new()),
            EntryContent::Binary(_) => (PreviewKind::Binary, String::new()),
        };
        EntryPreview {
            id: *entry.get_entry_id(),
            kind,
            snippet,
            pinned: entry.get_entry_pinned(),
            times_pasted: entry.get_entry_times_pasted().get(),
            created_at: entry.get_entry_created_at().timestamp_millis(),
        }
    }
}

/// Checks a request's declared protocol version before its body is
/// trusted: anything but [`PROTOCOL_VERSION`] is refused with
/// [`ProtoError::UnsupportedVersion`].
pub fn check_protocol_version(found: u8) -> (r: Result<(), ProtoError>)
    ensures
        r is Ok <==> found == PROTOCOL_VERSION,
        r matches Err(e) ==> e == (ProtoError::UnsupportedVersion { expected: PROTOCOL_VERSION, found }),
{
    if found != PROTOCOL_VERSION {
        return Err(ProtoError::UnsupportedVersion { expected: PROTOCOL_VERSION, found });
    }
    Ok(())
}

/// Frames one serialised message as a wire line: the text, then `'\n'`.
pub fn frame_line(message: String) -> (line: String)
    ensures
        line@ == message@.push('\n'),
{
    let mut line = message;
    push_char(&mut line, '\n');
    line
}

} // verus!
