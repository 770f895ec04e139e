use vstd::prelude::*;

verus! {

/// Big-endian value of a byte string: the order of these values on
/// byte strings of one length is the lexicographic order of the bytes.
pub open spec fn be_value(s: Seq<u8>) -> nat
    decreases s.len(),
{
    if s.len() == 0 {
        0
    } else {
        be_value(s.drop_last()) * 256 + s.last() as nat
    }
}

/// `256` to the power `n`.
pub open spec fn pow256(n: nat) -> nat
    decreases n,
{
    if n == 0 {
        1
    } else {
        256 * pow256((n - 1) as nat)
    }
}

/// The big-endian value of `n` bytes stays below `256^n`.
pub proof fn lemma_be_value_bound(s: Seq<u8>)
    ensures
        be_value(s) < pow256(s.len()),
    decreases s.len(),
{
    if s.len() > 0 {
        lemma_be_value_bound(s.drop_last());
    }
}

/// Two byte strings of one length with the same big-endian value are equal.
pub proof fn lemma_be_value_injective(a: Seq<u8>, b: Seq<u8>)
    requires
        a.len() == b.len(),
        be_value(a) == be_value(b),
    ensures
        a == b,
    decreases a.len(),
{
    if a.len() > 0 {
        lemma_be_value_injective(a.drop_last(), b.drop_last());
        assert(a.drop_last().push(a.last()) =~= a);
        assert(b.drop_last().push(b.last()) =~= b);
    }
}

/// The big-endian order is the lexicographic order of the bytes (the
/// order in which SQLite compares BLOB ids and `Uuid` orders its bytes):
/// where two byte strings of one length first differ, the one with the
/// smaller byte has the smaller value.
pub proof fn lemma_be_value_lexicographic(a: Seq<u8>, b: Seq<u8>, i: int)
    requires
        a.len() == b.len(),
        0 <= i < a.len(),
        a.take(i) == b.take(i),
        a[i] < b[i],
    ensures
        be_value(a) < be_value(b),
    decreases a.len(),
{
    if i == a.len() - 1 {
        assert(a.drop_last() =~= a.take(i));
        assert(b.drop_last() =~= b.take(i));
    } else {
        assert(a.drop_last().take(i) =~= a.take(i));
        assert(b.drop_last().take(i) =~= b.take(i));
        lemma_be_value_lexicographic(a.drop_last(), b.drop_last(), i);
    }
}

/// Unique, time-ordered identifier of a clipboard entry (a UUID v7,
/// held as its 16 bytes).
#[derive(Debug, Clone, Copy, PartialEq, Eq, Hash)]
pub struct EntryId {
    bytes: [u8; 16],
}

impl View for EntryId {
    type V = Seq<u8>;

    closed spec fn view(&self) -> Seq<u8> {
        self.bytes@
    }
}

/// Two ids with the same bytes are the same id.
pub proof fn lemma_view_injective(a: EntryId, b: EntryId)
    ensures
        a@ == b@ ==> a == b,
{
    if a@ == b@ {
        assert(a.bytes =~= b.bytes);
    }
}

/// Makes a fresh UUID version 7 from the clock and the random source,
/// and hands out its 16 bytes.
#[verifier::external_body]
fn uuid_now_v7_bytes() -> (bytes: [u8; 16])
    ensures
        bytes[6] >> 4u8 == 7u8,
        bytes[8] >> 6u8 == 2u8,
{
    uuid::Uuid::now_v7().into_bytes()
}

impl EntryId {
    /// Creates a new entry id (a UUID version 7).
    pub fn new() -> (id: Self)
        ensures
            id@.len() == 16,
            id@[6] >> 4u8 == 7u8,
            id@[8] >> 6u8 == 2u8,
    {
        EntryId { bytes: uuid_now_v7_bytes() }
    }

    /// Returns the 16-byte representation, for storage/serialization.
    pub fn as_bytes(&self) -> (bytes: [u8; 16])
        ensures
            bytes@ == self@,
            self@.len() == 16,
    {
        self.bytes
    }

    /// Reconstructs an `EntryId` from its 16-byte representation.
    pub fn from_bytes(bytes: [u8; 16]) -> (id: Self)
        ensures
            id@ == bytes@,
    {
        EntryId { bytes }
    }

    /// The id's position in the store's order: its bytes read as a
    /// big-endian number.
    pub fn sort_key(&self) -> (key: u128)
        ensures
            key == be_value(self@),
    {
        let mut key: u128 = 0;
        let mut i: usize = 0;
        while i < 16
            invariant
                i <= 16,
                self.bytes@.len() == 16,
                key == be_value(self.bytes@.subrange(0, i as int)),
            decreases 16 - i,
        {
            proof {
                lemma_be_value_bound(self.bytes@.subrange(0, i as int));
                assert(pow256(i as nat) <= pow256(15)) by {
                    lemma_pow256_monotone(i as nat, 15);
                }
                assert(pow256(15) == 0x1_0000_0000_0000_0000_0000_0000_0000_00) by {
                    reveal_with_fuel(pow256, 16);
                }
                assert(self.bytes@.subrange(0, i as int + 1).drop_last()
                    =~= self.bytes@.subrange(0, i as int));
            }
            key = key * 256 + self.bytes[i] as u128;
            i = i + 1;
        }
        assert(self.bytes@.subrange(0, 16) =~= self.bytes@);
        key
    }
}

impl Default for EntryId {
    /// A new entry id, as [`EntryId::new`] makes.
    fn default() -> (id: Self)
        ensures
            id@.len() == 16,
            id@[6] >> 4u8 == 7u8,
            id@[8] >> 6u8 == 2u8,
    {
        EntryId::new()
    }
}

/// `256^n` grows with `n`.
pub proof fn lemma_pow256_monotone(m: nat, n: nat)
    requires
        m <= n,
    ensures
        pow256(m) <= pow256(n),
    decreases n - m,
{
    if m < n {
        lemma_pow256_monotone(m, (n - 1) as nat);
    }
}


/// Mime type of a clipboard offer, such as `text/plain`.
#[derive(Debug, Clone, PartialEq, Eq, Hash)]
pub struct MimeType(String);

impl View for MimeType {
    type V = Seq<char>;

    closed spec fn view(&self) -> Seq<char> {
        self.0@
    }
}

impl MimeType {
    /// Wraps the given text as a mime type.
    pub fn new(text: String) -> (m: Self)
        ensures
            m@ == text@,
    {
        MimeType(text)
    }

    /// The mime type's text.
    pub fn as_str(&self) -> (text: &str)
        ensures
            text@ == self@,
    {
        self.0.as_str()
    }
}

impl From<String> for MimeType {
    fn from(s: String) -> (m: Self) {
        MimeType(s)
    }
}

impl vstd::std_specs::convert::FromSpecImpl<String> for MimeType {
    open spec fn obeys_from_spec() -> bool {
        true
    }

    closed spec fn from_spec(v: String) -> Self {
        MimeType(v)
    }
}

impl<'a> From<&'a str> for MimeType {
    fn from(s: &'a str) -> (m: Self)
        ensures
            m@ == s@,
    {
        MimeType(s.to_owned())
    }
}

impl<'a> vstd::std_specs::convert::FromSpecImpl<&'a str> for MimeType {
    open spec fn obeys_from_spec() -> bool {
        false
    }

    open spec fn from_spec(v: &'a str) -> Self {
        arbitrary()
    }
}

/// Number of times the content was pasted.
#[derive(Debug, Clone, Copy, PartialEq, Eq, Default)]
pub struct PasteCount(u32);

impl PasteCount {
    /// A count of `n` pastes.
    pub fn new(n: u32) -> (c: Self)
        ensures
            c.value() == n,
    {
        PasteCount(n)
    }

    /// The count as a number.
    pub closed spec fn value(self) -> u32 {
        self.0
    }

    /// The count as a number.
    pub fn get(&self) -> (n: u32)
        ensures
            n == self.value(),
    {
        self.0
    }
}

impl From<PasteCount> for u32 {
    fn from(c: PasteCount) -> (n: u32) {
        c.0
    }
}

impl vstd::std_specs::convert::FromSpecImpl<PasteCount> for u32 {
    open spec fn obeys_from_spec() -> bool {
        true
    }

    closed spec fn from_spec(c: PasteCount) -> u32 {
        c.0
    }
}

/// Binary payload of a clip: the bytes and their mime type.
#[derive(Debug, Clone, PartialEq, Eq)]
pub struct BinaryPayload {
    data: Vec<u8>,
    mime: MimeType,
}

impl BinaryPayload {
    /// A payload of `data` with mime type `mime`.
    pub fn new(data: Vec<u8>, mime: MimeType) -> (p: Self)
        ensures
            p.spec_data() == data@,
            p.spec_mime() == mime,
    {
        BinaryPayload { data, mime }
    }

    /// The payload's bytes.
    pub closed spec fn spec_data(&self) -> Seq<u8> {
        self.data@
    }

    /// The payload's mime type.
    pub closed spec fn spec_mime(&self) -> MimeType {
        self.mime
    }

    /// The payload's bytes.
    pub fn data(&self) -> (d: &[u8])
        ensures
            d@ == self.spec_data(),
    {
        self.data.as_slice()
    }

    /// The payload's mime type.
    pub fn mime(&self) -> (m: &MimeType)
        ensures
            *m == self.spec_mime(),
    {
        &self.mime
    }
}

/// Entry content holder, could be text, image or raw binary
#[derive(Debug, Clone, PartialEq, Eq)]
pub enum EntryContent {
    /// text content
    Text(String),
    /// image content
    Image(BinaryPayload),
    /// binary content
    Binary(BinaryPayload),
}

/// Sensitivity levels
#[derive(Debug, Clone, PartialEq, Eq)]
pub enum Sensitivity {
    /// Not sensitive content
    Normal,
    /// Sensitive content
    Sensitive(SensitiveReason),
}

/// Sensitivity reasons
#[derive(Debug, Clone, PartialEq, Eq)]
pub enum SensitiveReason {
    /// Mime reported sensitivity reason
    MimeHint(MimeType),
    /// Pattern match reported sensitivity reason
    PatternMatch(String),
    /// User reported sensitivity reason
    UserForced,
}

/// The least whole-second count a [`Timestamp`] holds: its milliseconds
/// still fit an `i64`.
pub const TIMESTAMP_MIN_SECS: i64 = -9_223_372_036_854_775;

/// The greatest whole-second count a [`Timestamp`] holds: its milliseconds
/// still fit an `i64`.
pub const TIMESTAMP_MAX_SECS: i64 = 9_223_372_036_854_773;

/// Whether whole seconds and nanoseconds past them make a [`Timestamp`]:
/// seconds in range, and fewer than two seconds' worth of nanoseconds (a
/// leap second counts past 999,999,999).
pub open spec fn timestamp_in_range(secs: int, nanos: int) -> bool {
    &&& TIMESTAMP_MIN_SECS <= secs <= TIMESTAMP_MAX_SECS
    &&& 0 <= nanos < 2_000_000_000
}

/// Milliseconds since the Unix epoch of a time given as whole seconds and
/// nanoseconds past them, counting whole milliseconds only.
pub open spec fn millis_of(t: (int, int)) -> int {
    t.0 * 1000 + t.1 / 1_000_000
}

/// A point in time (UTC): whole seconds since the Unix epoch and the
/// nanoseconds past them, to the nanosecond.
#[derive(Debug, Clone, Copy, PartialEq, Eq, Structural)]
pub struct Timestamp {
    secs: i64,
    nanos: u32,
}

impl View for Timestamp {
    type V = (int, int);

    closed spec fn view(&self) -> (int, int) {
        (self.secs as int, self.nanos as int)
    }
}

impl Timestamp {
    #[verifier::type_invariant]
    spec fn in_range(self) -> bool {
        timestamp_in_range(self.secs as int, self.nanos as int)
    }

    /// The time `secs` whole seconds after the Unix epoch and `nanos`
    /// nanoseconds past them; `None` out of range.
    pub fn from_parts(secs: i64, nanos: u32) -> (t: Option<Timestamp>)
        ensures
            t is Some <==> timestamp_in_range(secs as int, nanos as int),
            t matches Some(x) ==> x@ == (secs as int, nanos as int),
    {
        if TIMESTAMP_MIN_SECS <= secs && secs <= TIMESTAMP_MAX_SECS && nanos < 2_000_000_000 {
            Some(Timestamp { secs, nanos })
        } else {
            None
        }
    }

    /// Whole seconds since the Unix epoch.
    pub fn secs(&self) -> (s: i64)
        ensures
            s == self@.0,
    {
        self.secs
    }

    /// Nanoseconds past the whole second (beyond 999,999,999 during a leap
    /// second).
    pub fn subsec_nanos(&self) -> (n: u32)
        ensures
            n == self@.1,
    {
        self.nanos
    }

    /// Milliseconds since the Unix epoch, counting whole milliseconds only.
    pub fn timestamp_millis(&self) -> (m: i64)
        ensures
            m == millis_of(self@),
    {
        proof {
            use_type_invariant(self);
        }
        self.secs * 1000 + (self.nanos / 1_000_000) as i64
    }
}

/// `Utc::now()`, as whole seconds since the Unix epoch and nanoseconds past
/// them. chrono keeps every time within about 262,000 years of the epoch,
/// far inside a timestamp's range, and counts under two seconds of
/// nanoseconds.
#[verifier::external_body]
fn utc_now_parts() -> (r: (i64, u32))
    ensures
        timestamp_in_range(r.0 as int, r.1 as int),
{
    let now = chrono::Utc::now();
    (now.timestamp(), now.timestamp_subsec_nanos())
}

/// A clipboard entry: what was copied and what is known about it.
#[derive(Debug, Clone, PartialEq, Eq)]
pub struct ClipEntry {
    id: EntryId,
    content: EntryContent,
    sensitivity: Sensitivity,
    mime_types: Vec<MimeType>,
    times_pasted: PasteCount,
    pinned: bool,
    created_at: Timestamp,
    expires_at: Option<Timestamp>,
}

/// The fields of a [`ClipEntry`], as a specification sees them.
pub struct ClipEntryView {
    pub id: EntryId,
    pub content: EntryContent,
    pub sensitivity: Sensitivity,
    pub mime_types: Seq<MimeType>,
    pub times_pasted: PasteCount,
    pub pinned: bool,
    pub created_at: Timestamp,
    pub expires_at: Option<Timestamp>,
}

impl View for ClipEntry {
    type V = ClipEntryView;

    closed spec fn view(&self) -> ClipEntryView {
        ClipEntryView {
            id: self.id,
            content: self.content,
            sensitivity: self.sensitivity,
            mime_types: self.mime_types@,
            times_pasted: self.times_pasted,
            pinned: self.pinned,
            created_at: self.created_at,
            expires_at: self.expires_at,
        }
    }
}

/// The current time, in milliseconds since the Unix epoch (UTC).
#[verifier::external_body]
pub(crate) fn now_millis() -> i64 {
    chrono::Utc::now().timestamp_millis()
}

impl ClipEntry {
    /// Creates a new clip entry: a fresh id (a UUID version 7), created
    /// now, never pasted, not pinned, without expiry.
    pub fn new(content: EntryContent, sensitivity: Sensitivity, mime_types: Vec<MimeType>) -> (e: Self)
        ensures
            e@.id@.len() == 16,
            e@.id@[6] >> 4u8 == 7u8,
            e@.id@[8] >> 6u8 == 2u8,
            e@.content == content,
            e@.sensitivity == sensitivity,
            e@.mime_types == mime_types@,
            e@.times_pasted.value() == 0,
            !e@.pinned,
            e@.expires_at is None,
    {
        let id = EntryId::new();
        let (secs, nanos) = utc_now_parts();
        let created_at = Timestamp { secs, nanos };
        ClipEntry::from_parts(
            id,
            content,
            sensitivity,
            mime_types,
            PasteCount(0),
            false,
            created_at,
            None,
        )
    }

    /// Assembles a clip entry from all of its fields.
    pub fn from_parts(
        id: EntryId,
        content: EntryContent,
        sensitivity: Sensitivity,
        mime_types: Vec<MimeType>,
        times_pasted: PasteCount,
        pinned: bool,
        created_at: Timestamp,
        expires_at: Option<Timestamp>,
    ) -> (e: Self)
        ensures
            e@ == (ClipEntryView {
                id,
                content,
                sensitivity,
                mime_types: mime_types@,
                times_pasted,
                pinned,
                created_at,
                expires_at,
            }),
    {
        ClipEntry {
            id,
            content,
            sensitivity,
            mime_types,
            times_pasted,
            pinned,
            created_at,
            expires_at,
        }
    }

    /// The entry's id.
    pub fn get_entry_id(&self) -> (id: &EntryId)
        ensures
            *id == self@.id,
    {
        &self.id
    }

    /// The entry's content.
    pub fn get_entry_content(&self) -> (c: &EntryContent)
        ensures
            *c == self@.content,
    {
        &self.content
    }

    /// The entry's sensitivity.
    pub fn get_entry_sensitivity(&self) -> (s: &Sensitivity)
        ensures
            *s == self@.sensitivity,
    {
        &self.sensitivity
    }

    /// The mime types the content was offered as.
    pub fn get_entry_mime_types(&self) -> (m: &[MimeType])
        ensures
            m@ == self@.mime_types,
    {
        self.mime_types.as_slice()
    }

    /// How many times the entry was pasted.
    pub fn get_entry_times_pasted(&self) -> (c: &PasteCount)
        ensures
            *c == self@.times_pasted,
    {
        &self.times_pasted
    }

    /// Whether the entry is pinned.
    pub fn get_entry_pinned(&self) -> (p: bool)
        ensures
            p == self@.pinned,
    {
        self.pinned
    }

    /// Creation time.
    pub fn get_entry_created_at(&self) -> (t: Timestamp)
        ensures
            t == self@.created_at,
    {
        self.created_at
    }

    /// Expiry time, if any.
    pub fn get_entry_expires_at(&self) -> (t: Option<Timestamp>)
        ensures
            t == self@.expires_at,
    {
        self.expires_at
    }
}

} // verus!
