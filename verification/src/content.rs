//! The content streamer: what follows a record's header.
//!
//! The caller opens the file and reads a first chunk, the lookahead. From
//! that the streamer plans the rest: a marker for a file that is empty, binary
//! or unreadable, or else the content up to the byte ceiling. The plan says
//! what to write first, how many further bytes of the file to copy, and what
//! to write last.

use memchr::memchr;
use vstd::prelude::*;
use vstd::string::StringSliceAdditionalSpecFns;
use vstd::utf8::encode_utf8;

verus! {

/// Size of the lookahead buffer: the greatest number of bytes that are
/// inspected before any content is written.
pub const LOOKAHEAD_LEN: usize = 8192;

/// The line feed.
pub const NEWLINE: u8 = 10;

/// How a file presented itself.
pub enum FileStart<'a> {
    /// The file could not be opened. `reason` is the text of the error.
    Unreadable { reason: &'a str },
    /// The file was opened. `lookahead` holds the bytes of the first read.
    Opened { lookahead: &'a [u8] },
}

/// What the caller does after the header, in this order: write `lead`, copy
/// at most `copy_limit` further bytes of the file, write `trail`.
pub struct ContentPlan {
    /// Bytes to write first.
    pub lead: Vec<u8>,
    /// Greatest number of bytes to copy from where the lookahead ended.
    pub copy_limit: u64,
    /// Bytes to write last.
    pub trail: Vec<u8>,
}

/// A plan as plain values.
pub struct PlanView {
    /// Bytes to write first.
    pub lead: Seq<u8>,
    /// Greatest number of bytes to copy from where the lookahead ended.
    pub copy_limit: u64,
    /// Bytes to write last.
    pub trail: Seq<u8>,
}

impl View for ContentPlan {
    type V = PlanView;

    open spec fn view(&self) -> PlanView {
        PlanView { lead: self.lead@, copy_limit: self.copy_limit, trail: self.trail@ }
    }
}

/// The first `limit` bytes of `rest`, or all of it where it has fewer: what a
/// copy bounded by `limit` moves.
pub open spec fn copied(rest: Seq<u8>, limit: u64) -> Seq<u8> {
    if rest.len() <= limit {
        rest
    } else {
        rest.take(limit as int)
    }
}

impl PlanView {
    /// The bytes that reach the sink when the plan is carried out on a file
    /// whose bytes after the lookahead are `rest`.
    pub open spec fn output(self, rest: Seq<u8>) -> Seq<u8> {
        self.lead + copied(rest, self.copy_limit) + self.trail
    }
}

/// Marker written for a file without content.
pub open spec fn empty_marker() -> Seq<u8> {
    "\n<Empty File>\n\n".spec_bytes()
}

/// Marker written in place of binary content.
pub open spec fn binary_marker() -> Seq<u8> {
    "\n<Binary content suppressed>\n\n".spec_bytes()
}

/// Marker written for a file that could not be opened.
pub open spec fn open_error_marker(reason: Seq<char>) -> Seq<u8> {
    "\n<Error opening file: ".spec_bytes() + encode_utf8(reason) + ">\n\n".spec_bytes()
}

/// A lookahead with a zero byte anywhere in it marks a binary file.
pub open spec fn is_binary(lookahead: Seq<u8>) -> bool {
    lookahead.contains(0u8)
}

/// The byte ceiling in force: the configured one, or the greatest `u64`.
pub open spec fn ceiling(max_bytes: Option<u64>) -> u64 {
    match max_bytes {
        Some(limit) => limit,
        None => u64::MAX,
    }
}

/// How many bytes of a lookahead of `len` bytes are written.
pub open spec fn head_len(len: nat, max_bytes: Option<u64>) -> nat {
    if len <= ceiling(max_bytes) {
        len
    } else {
        ceiling(max_bytes) as nat
    }
}

/// Whether content is written for this lookahead: it is neither empty nor
/// binary.
pub open spec fn has_content(lookahead: Seq<u8>) -> bool {
    lookahead.len() > 0 && !is_binary(lookahead)
}

/// The bytes of the file that are written: the head of the lookahead and
/// what is copied after it. Empty where no content is written.
pub open spec fn content_bytes(lookahead: Seq<u8>, max_bytes: Option<u64>, rest: Seq<u8>) -> Seq<u8> {
    if has_content(lookahead) {
        let head = head_len(lookahead.len(), max_bytes);
        lookahead.take(head as int) + copied(rest, (ceiling(max_bytes) - head) as u64)
    } else {
        Seq::empty()
    }
}

/// The plan for a file that was opened.
pub open spec fn planned_content(lookahead: Seq<u8>, max_bytes: Option<u64>) -> PlanView {
    if lookahead.len() == 0 {
        PlanView { lead: empty_marker(), copy_limit: 0, trail: Seq::empty() }
    } else if is_binary(lookahead) {
        PlanView { lead: binary_marker(), copy_limit: 0, trail: Seq::empty() }
    } else {
        let head = head_len(lookahead.len(), max_bytes);
        PlanView {
            lead: seq![NEWLINE] + lookahead.take(head as int),
            copy_limit: (ceiling(max_bytes) - head) as u64,
            trail: seq![NEWLINE, NEWLINE],
        }
    }
}

/// The plan for a file that could not be opened.
pub open spec fn planned_failure(reason: Seq<char>) -> PlanView {
    PlanView { lead: open_error_marker(reason), copy_limit: 0, trail: Seq::empty() }
}

/// The plan for a file.
pub open spec fn planned(start: FileStart, max_bytes: Option<u64>) -> PlanView {
    match start {
        FileStart::Unreadable { reason } => planned_failure(reason@),
        FileStart::Opened { lookahead } => planned_content(lookahead@, max_bytes),
    }
}

/// `memchr::memchr` returns the index of the first occurrence of `needle` in
/// `haystack`, or `None` where there is none.
pub assume_specification[ memchr::memchr ](needle: u8, haystack: &[u8]) -> (r: Option<usize>)
    ensures
        match r {
            Some(i) => i < haystack@.len() && haystack@[i as int] == needle && forall|j: int|
                0 <= j < i ==> haystack@[j] != needle,
            None => forall|j: int| 0 <= j < haystack@.len() ==> haystack@[j] != needle,
        },
;

/// A plan that writes `text` and nothing else.
fn marker_plan(text: &str) -> (plan: ContentPlan)
    ensures
        plan@ == (PlanView { lead: text.spec_bytes(), copy_limit: 0, trail: Seq::empty() }),
{
    let mut lead: Vec<u8> = Vec::new();
    lead.extend_from_slice(text.as_bytes());
    assert(lead@ =~= text.spec_bytes());
    ContentPlan { lead, copy_limit: 0, trail: Vec::new() }
}

/// Plans the content block of one file.
///
/// A file that could not be opened gets a marker with the reason. A file whose
/// first read returned nothing gets the empty-file marker. A file with a zero
/// byte in its lookahead gets the binary marker, whatever the ceiling. Any
/// other file gets a line feed, then its bytes up to the ceiling (the head of
/// the lookahead now, the rest by a bounded copy), then two line feeds.
pub fn stream_file_content(start: FileStart<'_>, max_bytes: Option<u64>) -> (plan: ContentPlan)
    ensures
        plan@ == planned(start, max_bytes),
{
    match start {
        FileStart::Unreadable { reason } => {
            let mut lead: Vec<u8> = Vec::new();
            lead.extend_from_slice("\n<Error opening file: ".as_bytes());
            lead.extend_from_slice(reason.as_bytes());
            lead.extend_from_slice(">\n\n".as_bytes());
            assert(lead@ =~= open_error_marker(reason@));
            ContentPlan { lead, copy_limit: 0, trail: Vec::new() }
        },
        FileStart::Opened { lookahead } => {
            let len: usize = lookahead.len();
            if len == 0 {
                return marker_plan("\n<Empty File>\n\n");
            }
            if memchr(0, lookahead).is_some() {
                return marker_plan("\n<Binary content suppressed>\n\n");
            }
            let limit: u64 = match max_bytes {
                Some(limit) => limit,
                None => u64::MAX,
            };
            let head: usize = if len as u64 <= limit {
                len
            } else {
                limit as usize
            };
            let mut lead: Vec<u8> = Vec::new();
            lead.push(NEWLINE);
            lead.extend_from_slice(lookahead.split_at(head).0);
            let mut trail: Vec<u8> = Vec::new();
            trail.push(NEWLINE);
            trail.push(NEWLINE);
            assert(lead@ =~= seq![NEWLINE] + lookahead@.take(head as int));
            assert(trail@ =~= seq![NEWLINE, NEWLINE]);
            ContentPlan { lead, copy_limit: limit - head as u64, trail }
        },
    }
}

/// A zero byte anywhere in the lookahead suppresses the content, whatever the
/// byte ceiling and whatever follows in the file: the binary marker is
/// written, and no byte of the file.
pub proof fn binary_is_suppressed(lookahead: Seq<u8>, max_bytes: Option<u64>, rest: Seq<u8>)
    requires
        lookahead.contains(0u8),
    ensures
        planned_content(lookahead, max_bytes).output(rest) == binary_marker(),
        content_bytes(lookahead, max_bytes, rest) == Seq::<u8>::empty(),
{
    assert(lookahead.len() > 0);
    assert(copied(rest, 0) =~= Seq::<u8>::empty());
    assert(planned_content(lookahead, max_bytes).output(rest) =~= binary_marker());
}

/// A file whose first read returns nothing yields the empty-file marker and
/// not one byte before or after it.
pub proof fn empty_file_yields_marker(max_bytes: Option<u64>, rest: Seq<u8>)
    ensures
        planned_content(Seq::<u8>::empty(), max_bytes).output(rest) == empty_marker(),
        content_bytes(Seq::<u8>::empty(), max_bytes, rest) == Seq::<u8>::empty(),
{
    assert(copied(rest, 0) =~= Seq::<u8>::empty());
    assert(planned_content(Seq::<u8>::empty(), max_bytes).output(rest) =~= empty_marker());
}

/// Where content is written, it stands between one line feed and two.
pub proof fn content_is_framed(lookahead: Seq<u8>, max_bytes: Option<u64>, rest: Seq<u8>)
    requires
        has_content(lookahead),
    ensures
        planned_content(lookahead, max_bytes).output(rest) == seq![NEWLINE] + content_bytes(
            lookahead,
            max_bytes,
            rest,
        ) + seq![NEWLINE, NEWLINE],
{
    assert(planned_content(lookahead, max_bytes).output(rest) =~= seq![NEWLINE] + content_bytes(
        lookahead,
        max_bytes,
        rest,
    ) + seq![NEWLINE, NEWLINE]);
}

/// The content written never exceeds the byte ceiling, whatever the first
/// read returned and whatever follows it in the file.
pub proof fn content_stays_under_ceiling(lookahead: Seq<u8>, max_bytes: Option<u64>, rest: Seq<u8>)
    ensures
        content_bytes(lookahead, max_bytes, rest).len() <= ceiling(max_bytes),
        max_bytes matches Some(limit) ==> content_bytes(lookahead, max_bytes, rest).len() <= limit,
{
}

/// The byte ceiling is exact. For a file whose first `first` bytes were read
/// as the lookahead and hold no zero byte, the content written is the file's
/// first bytes, as many as the ceiling allows or as the file has: a file of
/// `N` bytes under a ceiling of `M` yields `min(N, M)` content bytes. A first
/// read of no bytes stands for a file of no bytes.
pub proof fn byte_cap_is_exact(file: Seq<u8>, first: nat, max_bytes: Option<u64>)
    requires
        first <= file.len(),
        first == 0 ==> file.len() == 0,
        !is_binary(file.take(first as int)),
    ensures
        content_bytes(file.take(first as int), max_bytes, file.skip(first as int)) == file.take(
            if file.len() <= ceiling(max_bytes) {
                file.len() as int
            } else {
                ceiling(max_bytes) as int
            },
        ),
        content_bytes(file.take(first as int), max_bytes, file.skip(first as int)).len() == if file.len()
            <= ceiling(max_bytes) {
            file.len()
        } else {
            ceiling(max_bytes) as nat
        },
{
    let lookahead = file.take(first as int);
    let rest = file.skip(first as int);
    let total: int = if file.len() <= ceiling(max_bytes) {
        file.len() as int
    } else {
        ceiling(max_bytes) as int
    };
    assert(content_bytes(lookahead, max_bytes, rest) =~= file.take(total));
}

} // verus!
