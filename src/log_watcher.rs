use vstd::prelude::*;
use vstd::string::*;
use vstd::utf8::*;

verus! {

/// Largest number of trailing bytes of a log file that an event carries.
pub const WINDOW_BYTES: usize = 10240;

/// Path separators: `/` and the Windows `\`.
pub open spec fn is_separator(b: u8) -> bool {
    b == 47u8 || b == 92u8
}

/// The bytes after the last separator of a path.
pub open spec fn last_component(p: Seq<u8>) -> Seq<u8>
    decreases p.len(),
{
    if p.len() == 0 {
        p
    } else if is_separator(p.last()) {
        Seq::empty()
    } else {
        last_component(p.drop_last()).push(p.last())
    }
}

/// A path without its trailing separators.
pub open spec fn trim_separators(p: Seq<u8>) -> Seq<u8>
    decreases p.len(),
{
    if p.len() > 0 && is_separator(p.last()) {
        trim_separators(p.drop_last())
    } else {
        p
    }
}

/// The file name of a path: its last component, trailing separators ignored.
pub open spec fn file_name(p: Seq<u8>) -> Seq<u8> {
    last_component(trim_separators(p))
}

/// The bytes of `.log`.
pub open spec fn log_suffix() -> Seq<u8> {
    seq![46u8, 108u8, 111u8, 103u8]
}

/// The bytes of `notifications`, the marker that the watched file's name holds.
pub open spec fn notifications_marker() -> Seq<u8> {
    seq![110u8, 111u8, 116u8, 105u8, 102u8, 105u8, 99u8, 97u8, 116u8, 105u8, 111u8, 110u8, 115u8]
}

/// A file name whose extension is `log`: it ends in `.log` after a non-empty stem
/// (a name such as `.log` is a hidden file without an extension).
pub open spec fn has_log_extension(name: Seq<u8>) -> bool {
    name.len() > log_suffix().len()
        && name.subrange(name.len() - log_suffix().len(), name.len() as int) == log_suffix()
}

/// `needle` occurs in `hay` at position `i`.
pub open spec fn occurs_at(hay: Seq<u8>, needle: Seq<u8>, i: int) -> bool {
    0 <= i && i + needle.len() <= hay.len() && hay.subrange(i, i + needle.len()) == needle
}

pub open spec fn contains_bytes(hay: Seq<u8>, needle: Seq<u8>) -> bool {
    exists|i: int| occurs_at(hay, needle, i)
}

/// A notification about `path` qualifies: its file name has the `log` extension
/// and holds the marker.
pub open spec fn qualifies(path: Seq<u8>) -> bool {
    has_log_extension(file_name(path)) && contains_bytes(file_name(path), notifications_marker())
}

/// The trailing window of a file's content: its last `WINDOW_BYTES` bytes, or
/// all of it when it is shorter.
pub open spec fn window_of(content: Seq<u8>) -> Seq<u8> {
    if content.len() <= WINDOW_BYTES {
        content
    } else {
        content.subrange(content.len() - WINDOW_BYTES, content.len() as int)
    }
}

fn marker_bytes() -> (r: Vec<u8>)
    ensures
        r@ == notifications_marker(),
{
    let r: Vec<u8> = vec![110u8, 111u8, 116u8, 105u8, 102u8, 105u8, 99u8, 97u8, 116u8, 105u8, 111u8, 110u8, 115u8];
    assert(r@ =~= notifications_marker());
    r
}

/// Length of `p` without its trailing separators.
fn trimmed_len(p: &[u8]) -> (r: usize)
    ensures
        r <= p@.len(),
        trim_separators(p@) == p@.subrange(0, r as int),
{
    let mut end: usize = p.len();
    assert(p@.subrange(0, end as int) =~= p@);
    while end > 0 && (p[end - 1] == 47u8 || p[end - 1] == 92u8)
        invariant
            end <= p@.len(),
            trim_separators(p@) == trim_separators(p@.subrange(0, end as int)),
        decreases end,
    {
        assert(p@.subrange(0, end as int).drop_last() =~= p@.subrange(0, end - 1));
        end = end - 1;
    }
    end
}

/// Index where the last component of `p[..end]` begins.
fn file_name_start(p: &[u8], end: usize) -> (r: usize)
    requires
        end <= p@.len(),
    ensures
        r <= end,
        last_component(p@.subrange(0, end as int)) == p@.subrange(r as int, end as int),
{
    let mut start: usize = 0;
    let mut i: usize = 0;
    while i < end
        invariant
            end <= p@.len(),
            start <= i <= end,
            last_component(p@.subrange(0, i as int)) == p@.subrange(start as int, i as int),
        decreases end - i,
    {
        let ghost prefix = p@.subrange(0, i as int + 1);
        assert(prefix.drop_last() =~= p@.subrange(0, i as int));
        if p[i] == 47u8 || p[i] == 92u8 {
            start = i + 1;
            assert(p@.subrange(start as int, i as int + 1) =~= Seq::<u8>::empty());
        } else {
            assert(p@.subrange(start as int, i as int + 1) =~= p@.subrange(start as int, i as int).push(p@[i as int]));
        }
        i = i + 1;
    }
    start
}

/// Whether `hay[from..to]` holds `needle` at offset `at` (relative to `from`).
fn bytes_match_at(hay: &[u8], from: usize, to: usize, needle: &Vec<u8>, at: usize) -> (r: bool)
    requires
        from <= to <= hay@.len(),
    ensures
        r == occurs_at(hay@.subrange(from as int, to as int), needle@, at as int),
{
    let ghost name = hay@.subrange(from as int, to as int);
    if at > to - from || needle.len() > to - from - at {
        return false;
    }
    let mut k: usize = 0;
    while k < needle.len()
        invariant
            at + needle@.len() <= to - from,
            from <= to <= hay@.len(),
            name == hay@.subrange(from as int, to as int),
            k <= needle@.len(),
            forall|j: int| 0 <= j < k ==> name[at + j] == needle@[j],
        decreases needle@.len() - k,
    {
        if hay[from + at + k] != needle[k] {
            assert(name.subrange(at as int, at + needle@.len())[k as int] != needle@[k as int]);
            return false;
        }
        k = k + 1;
    }
    assert(name.subrange(at as int, at + needle@.len()) =~= needle@);
    true
}

/// EventFilter: whether a change notification about `path` concerns the watched
/// log stream, i.e. the file name ends in `.log` and contains `notifications`.
pub fn accept_path(path: &str) -> (r: bool)
    ensures
        r == qualifies(path.spec_bytes()),
{
    let p = path.as_bytes();
    let end = trimmed_len(p);
    let start = file_name_start(p, end);
    let ghost name = p@.subrange(start as int, end as int);
    assert(p@.subrange(0, end as int).subrange(start as int, end as int) =~= name);
    assert(file_name(path.spec_bytes()) == name);
    let len = end - start;
    let suffix: Vec<u8> = vec![46u8, 108u8, 111u8, 103u8];
    assert(suffix@ =~= log_suffix());
    if len <= 4 {
        return false;
    }
    if !bytes_match_at(p, start, end, &suffix, len - 4) {
        return false;
    }
    assert(name.len() == len);
    assert(has_log_extension(name));
    let marker = marker_bytes();
    let mut at: usize = 0;
    while at < len
        invariant
            start <= end <= p@.len(),
            len == end - start,
            name == p@.subrange(start as int, end as int),
            marker@ == notifications_marker(),
            has_log_extension(name),
            file_name(path.spec_bytes()) == name,
            at <= len,
            forall|i: int| 0 <= i < at ==> !occurs_at(name, marker@, i),
        decreases len - at,
    {
        if bytes_match_at(p, start, end, &marker, at) {
            assert(occurs_at(name, notifications_marker(), at as int));
            assert(contains_bytes(name, notifications_marker()));
            return true;
        }
        at = at + 1;
    }
    assert forall|i: int| !occurs_at(name, notifications_marker(), i) by {
        if 0 <= i && i + notifications_marker().len() <= name.len() {
            assert(i < at);
        }
    }
    false
}

/// IncrementalReader: the trailing window of a file's content.
pub fn trailing_window(content: &[u8]) -> (r: Vec<u8>)
    ensures
        r@ == window_of(content@),
        r@.len() <= WINDOW_BYTES,
{
    let start: usize = if content.len() > WINDOW_BYTES { content.len() - WINDOW_BYTES } else { 0 };
    let mut r: Vec<u8> = Vec::new();
    let mut i: usize = start;
    while i < content.len()
        invariant
            start <= i <= content@.len(),
            r@ == content@.subrange(start as int, i as int),
        decreases content@.len() - i,
    {
        r.push(content[i]);
        assert(r@ =~= content@.subrange(start as int, i as int + 1));
        i = i + 1;
    }
    assert(content@.subrange(0, content@.len() as int) =~= content@);
    r
}


/// Event handed to the notifier: the file it came from, the trailing window of
/// its content, and when it was emitted (RFC 3339).
pub struct LogEvent {
    pub file_path: String,
    pub content: String,
    pub timestamp: String,
}

impl LogEvent {
    pub open spec fn model(&self) -> (Seq<char>, Seq<char>, Seq<char>) {
        (self.file_path@, self.content@, self.timestamp@)
    }
}

/// The latest qualifying read that has not been flushed yet.
pub struct PendingEmission {
    pub file_path: String,
    pub content: String,
}

/// What the pending slot holds, as (path, content).
pub type Slot = Option<(Seq<char>, Seq<char>)>;

/// The slot after a run of qualifying reads, each given as (path, content):
/// the last read replaces whatever was pending.
pub open spec fn coalesced(slot: Slot, reads: Seq<(Seq<char>, Seq<char>)>) -> Slot {
    if reads.len() == 0 {
        slot
    } else {
        Some(reads.last())
    }
}

/// What a tick at time `ts` emits from the slot: nothing when it is empty, else
/// one event with the pending path and content.
pub open spec fn emitted(slot: Slot, ts: Seq<char>) -> Option<(Seq<char>, Seq<char>, Seq<char>)> {
    match slot {
        Some(p) => Some((p.0, p.1, ts)),
        None => None,
    }
}

/// First character boundary at or after `i`: skips UTF-8 continuation bytes.
pub open spec fn boundary_from(b: Seq<u8>, i: int) -> int
    decreases b.len() - i,
{
    if i < 0 || i >= b.len() || !is_continuation_byte(b[i]) {
        i
    } else {
        boundary_from(b, i + 1)
    }
}

/// Where the text window of a file's content starts: the first character
/// boundary at or after the start of its trailing byte window.
pub open spec fn text_window_start(b: Seq<u8>) -> int {
    boundary_from(b, b.len() - window_of(b).len())
}

/// The text window of a UTF-8 file: its trailing window, cut at a character
/// boundary so that no character is split.
pub open spec fn text_window(b: Seq<u8>) -> Seq<char> {
    decode_utf8(b.subrange(text_window_start(b), b.len() as int))
}

/// Debouncer: a single last-write-wins slot, flushed at most once per tick.
pub struct Debouncer {
    pub pending: Option<PendingEmission>,
}

impl View for Debouncer {
    type V = Slot;

    open spec fn view(&self) -> Slot {
        match self.pending {
            Some(p) => Some((p.file_path@, p.content@)),
            None => None,
        }
    }
}

/// Relies on `std::str::from_utf8`: it succeeds exactly on valid UTF-8, and
/// then the text is what the bytes encode.
#[verifier::external_body]
fn utf8_text(b: &[u8]) -> (r: Option<String>)
    ensures
        r is Some <==> valid_utf8(b@),
        r matches Some(s) ==> s@ == decode_utf8(b@),
{
    match std::str::from_utf8(b) {
        Ok(s) => Some(s.to_owned()),
        Err(_) => None,
    }
}

/// Relies on chrono's `From<SystemTime> for DateTime<Utc>` (which also takes a
/// clock set before 1970) and `DateTime::to_rfc3339`: the current time as an
/// RFC 3339 string. Nothing is promised of the value.
#[verifier::external_body]
fn utc_now_rfc3339() -> (r: String) {
    chrono::DateTime::<chrono::Utc>::from(std::time::SystemTime::now()).to_rfc3339()
}

/// Index where the text window of `b` starts.
fn text_window_index(b: &[u8]) -> (r: usize)
    ensures
        r == text_window_start(b@),
{
    let mut i: usize = if b.len() > WINDOW_BYTES { b.len() - WINDOW_BYTES } else { 0 };
    assert(i == b@.len() - window_of(b@).len());
    while i < b.len() && 0x80u8 <= b[i] && b[i] <= 0xbfu8
        invariant
            i <= b@.len(),
            boundary_from(b@, i as int) == text_window_start(b@),
        decreases b@.len() - i,
    {
        i = i + 1;
    }
    i
}

/// Facts about the text window of a UTF-8 file: it encodes a suffix of the
/// file of at most `WINDOW_BYTES` bytes; a file that fits is kept whole; and
/// where the byte window starts on a character, the two windows agree.
pub proof fn lemma_text_window(b: Seq<u8>)
    requires
        valid_utf8(b),
    ensures
        b.len() - WINDOW_BYTES <= text_window_start(b) <= b.len(),
        0 <= text_window_start(b),
        encode_utf8(text_window(b)) == b.subrange(text_window_start(b), b.len() as int),
        b.len() <= WINDOW_BYTES ==> text_window(b) == decode_utf8(b),
        b.len() - window_of(b).len() < b.len() && !is_continuation_byte(b[b.len() - window_of(b).len()])
            ==> encode_utf8(text_window(b)) == window_of(b),
{
    lemma_boundary_from(b, b.len() - window_of(b).len());
    let k = text_window_start(b);
    if k < b.len() {
        vstd::utf8::is_char_boundary_iff_not_is_continuation_byte(b, k);
    } else {
        vstd::utf8::is_char_boundary_start_end_of_seq(b);
    }
    vstd::utf8::valid_utf8_split(b, k);
    vstd::utf8::decode_utf8_encode_utf8(b.subrange(k, b.len() as int));
    if b.len() <= WINDOW_BYTES {
        assert(b.subrange(0, b.len() as int) =~= b);
    }
}

proof fn lemma_boundary_from(b: Seq<u8>, i: int)
    requires
        0 <= i <= b.len(),
    ensures
        i <= boundary_from(b, i) <= b.len(),
        boundary_from(b, i) < b.len() ==> !is_continuation_byte(b[boundary_from(b, i)]),
    decreases b.len() - i,
{
    if i < b.len() && is_continuation_byte(b[i]) {
        lemma_boundary_from(b, i + 1);
    }
}

impl Debouncer {
    /// A debouncer with nothing pending.
    pub fn new() -> (r: Debouncer)
        ensures
            r@ == None::<(Seq<char>, Seq<char>)>,
    {
        Debouncer { pending: None }
    }

    /// Whether a read is waiting for the next tick.
    pub fn has_pending(&self) -> (r: bool)
        ensures
            r == (self@ is Some),
    {
        self.pending.is_some()
    }

    /// Coalescing step: a qualifying read of `content` from `file_path` replaces
    /// the pending one.
    pub fn record(&mut self, file_path: String, content: String)
        ensures
            final(self)@ == Some((file_path@, content@)),
    {
        self.pending = Some(PendingEmission { file_path, content });
    }

    /// Outcome of reading a file whose change qualified: its whole content, or
    /// `None` when it could not be read. A file that could not be read, or is
    /// not valid UTF-8, is skipped; else its text window replaces the pending
    /// read.
    pub fn on_read(&mut self, file_path: String, content: Option<&[u8]>)
        ensures
            content is None ==> final(self)@ == old(self)@,
            content matches Some(c) ==> {
                &&& !valid_utf8(c@) ==> final(self)@ == old(self)@
                &&& valid_utf8(c@) ==> final(self)@ == Some((file_path@, text_window(c@)))
            },
    {
        match content {
            Some(c) => match utf8_text(c) {
                Some(text) => {
                    let start = text_window_index(c);
                    proof {
                        lemma_text_window(c@);
                        lemma_boundary_from(c@, c@.len() - window_of(c@).len());
                        vstd::utf8::decode_utf8_encode_utf8(c@);
                        if start < c@.len() {
                            vstd::utf8::is_char_boundary_iff_not_is_continuation_byte(c@, start as int);
                        } else {
                            vstd::utf8::is_char_boundary_start_end_of_seq(c@);
                        }
                    }
                    let s = text.as_str();
                    assert(s.spec_bytes() == c@);
                    let (_, tail) = s.split_at(start);
                    proof {
                        vstd::utf8::encode_utf8_decode_utf8(tail@);
                    }
                    self.record(file_path, tail.to_owned());
                },
                None => {},
            },
            None => {},
        }
    }

    /// Tick at time `timestamp`: take the pending read, if any, as an event;
    /// the slot is empty afterwards.
    pub fn tick(&mut self, timestamp: String) -> (r: Option<LogEvent>)
        ensures
            final(self)@ == None::<(Seq<char>, Seq<char>)>,
            (r matches Some(e) ==> emitted(old(self)@, timestamp@) == Some(e.model())),
            (r is None <==> emitted(old(self)@, timestamp@) is None),
    {
        match self.pending.take() {
            Some(p) => Some(LogEvent { file_path: p.file_path, content: p.content, timestamp }),
            None => None,
        }
    }

    /// Tick stamped with the current time.
    pub fn tick_now(&mut self) -> (r: Option<LogEvent>)
        ensures
            final(self)@ == None::<(Seq<char>, Seq<char>)>,
            (r is None <==> old(self)@ is None),
            (r matches Some(e) ==> emitted(old(self)@, e.timestamp@) == Some(e.model())),
    {
        let ts = utc_now_rfc3339();
        self.tick(ts)
    }
}

pub open spec fn watch_error_text(error: Seq<char>) -> Seq<char> {
    "Watch error: "@ + error
}

/// Message sent on the error channel when the OS watch reports `error`.
pub fn watch_error_message(error: &str) -> (r: String)
    ensures
        r@ == watch_error_text(error@),
{
    String::from_str("Watch error: ").concat(error)
}

/// Stopping the watcher. The session's task and the OS watch are torn down by
/// their owner; nothing here can fail.
pub fn stop_log_watcher() -> (r: Result<bool, String>)
    ensures
        r == Ok::<bool, String>(true),
{
    Ok(true)
}

/// A burst of qualifying reads between two ticks yields exactly one event at
/// the next tick, and it carries the path and content of the last read.
pub proof fn lemma_burst_emits_last(slot: Slot, reads: Seq<(Seq<char>, Seq<char>)>, ts: Seq<char>)
    requires
        reads.len() > 0,
    ensures
        emitted(coalesced(slot, reads), ts) == Some((reads.last().0, reads.last().1, ts)),
{
}

/// After a tick has emptied the slot, an interval without qualifying reads
/// emits nothing at the following tick.
pub proof fn lemma_quiet_interval_emits_nothing(reads: Seq<(Seq<char>, Seq<char>)>, ts: Seq<char>)
    requires
        reads.len() == 0,
    ensures
        emitted(coalesced(None, reads), ts) is None,
{
}

} // verus!
