use crate::entry::{be_value, lemma_be_value_bound, lemma_be_value_injective, now_millis, pow256, EntryId};
use crate::error::Error;
use crate::sqlite::{
    add_pending, byte_id_set, delete_entries, delete_pending, entries_table, increment_pasted, insert_entry,
    invalid_content_kind_error, open_in_memory, pasted_once_more, pending_rows, raw_row,
    reset_pending, rows_with_id, run_migrations, ascii_lowercase, from_database, db_autocommit, db_busy_timeout,
    db_foreign_keys, db_journal_mode, db_schema_version, db_settings, enable_foreign_keys,
    latest_schema_version, set_busy_timeout, select_entries, select_expiry, select_vault,
    set_journal_mode, split_migration_error, times_out_of_range_error, update_pin, update_row,
    upsert_vault, vault_row, with_pin, expiry_key, still_pending, EntryRow, ExpiryRow, RawEntry,
};
use rusqlite::Connection;
use vstd::prelude::*;

verus! {

/// Coarse content type for filtering — the Store's index, not the crypto detail.
#[derive(Debug, Clone, Copy, PartialEq, Eq, Structural)]
pub enum ContentKind {
    /// Text content type
    Text,
    /// Image content type
    Image,
    /// Blob data content type
    Binary,
}

/// How the store writes a content kind.
pub open spec fn kind_text(k: ContentKind) -> Seq<char> {
    match k {
        ContentKind::Text => "text"@,
        ContentKind::Image => "image"@,
        ContentKind::Binary => "binary"@,
    }
}

/// The content kind that a stored text names, if any.
pub open spec fn kind_of_text(t: Seq<char>) -> Option<ContentKind> {
    if t == "text"@ {
        Some(ContentKind::Text)
    } else if t == "image"@ {
        Some(ContentKind::Image)
    } else if t == "binary"@ {
        Some(ContentKind::Binary)
    } else {
        None
    }
}

/// Reading back the text of a kind gives the kind.
pub proof fn lemma_kind_text_round_trip(k: ContentKind)
    ensures
        kind_of_text(kind_text(k)) == Some(k),
{
    reveal_strlit("text");
    reveal_strlit("image");
    reveal_strlit("binary");
    assert("text"@.len() == 4 && "image"@.len() == 5 && "binary"@.len() == 6);
}

impl ContentKind {
    /// The text the store writes for this kind.
    pub fn as_sql_text(&self) -> (t: &'static str)
        ensures
            t@ == kind_text(*self),
    {
        match self {
            ContentKind::Text => "text",
            ContentKind::Image => "image",
            ContentKind::Binary => "binary",
        }
    }

    /// The kind a stored text names; `None` for any other text.
    pub fn from_sql_text(t: &str) -> (k: Option<ContentKind>)
        ensures
            k == kind_of_text(t@),
    {
        let t = t.to_owned();
        if t == "text".to_owned() {
            Some(ContentKind::Text)
        } else if t == "image".to_owned() {
            Some(ContentKind::Image)
        } else if t == "binary".to_owned() {
            Some(ContentKind::Binary)
        } else {
            None
        }
    }
}

/// Plaintext, queryable attributes for a stored entry.
#[derive(Debug, Clone, PartialEq, Eq)]
pub struct EntryMeta {
    /// Creation timestamp, epoch millis
    pub created_at: i64,
    /// Optional expiry date for entry, epoch millis.
    pub expires_at: Option<i64>,
    /// Pin status.
    pub pinned: bool,
    /// Number of times the entry is pasted.
    pub times_pasted: u32,
    /// Entry content type.
    pub content_kind: ContentKind,
}

/// A row as it comes out of the Store: id + opaque payload + attributes.
#[derive(Debug, Clone)]
pub struct StoredEntry {
    /// Unique entry id
    pub id: EntryId,
    /// Blob entry data
    pub blob: Vec<u8>,
    /// Entry metadata
    pub meta: EntryMeta,
}

/// The table row that holds `blob` with attributes `meta`.
pub open spec fn meta_row(blob: Seq<u8>, meta: EntryMeta) -> EntryRow {
    (blob, meta.created_at, meta.expires_at, meta.pinned, meta.times_pasted as int, kind_text(meta.content_kind))
}

/// Whether a stored entry is what the table holds under its id.
pub open spec fn stored_in(e: StoredEntry, rows: Map<Seq<u8>, EntryRow>) -> bool {
    &&& rows.contains_key(e.id@)
    &&& rows[e.id@] == meta_row(e.blob@, e.meta)
}

/// Whether an id comes before the cursor: every id when there is none,
/// else the ids that sort below it.
pub open spec fn before_cursor(k: Seq<u8>, after: Option<EntryId>) -> bool {
    match after {
        None => true,
        Some(a) => be_value(k) < be_value(a@),
    }
}

/// Whether `page` is the page that listing returns: the rows before the
/// cursor, newest (greatest id) first, at most `limit` of them (no bound
/// for a negative limit), and no row left out that sorts above the last
/// one returned.
pub open spec fn is_page(
    rows: Map<Seq<u8>, EntryRow>,
    after: Option<EntryId>,
    limit: i64,
    page: Seq<StoredEntry>,
) -> bool {
    &&& forall|i: int|
        0 <= i < page.len() ==> stored_in(#[trigger] page[i], rows) && before_cursor(page[i].id@, after)
    &&& forall|i: int, j: int|
        0 <= i < j < page.len() ==> be_value(#[trigger] page[i].id@) > be_value(#[trigger] page[j].id@)
    &&& 0 <= limit ==> page.len() <= limit
    &&& forall|k: Seq<u8>|
        #[trigger] rows.contains_key(k) && before_cursor(k, after) ==> {
            ||| exists|i: int| 0 <= i < page.len() && page[i].id@ == k
            ||| 0 <= limit && page.len() == limit && (limit == 0 || be_value(k) < be_value(
                page.last().id@,
            ))
        }
}

/// The ids before the cursor that sort above `k`.
pub open spec fn listed_above(rows: Map<Seq<u8>, EntryRow>, after: Option<EntryId>, k: Seq<u8>) -> Set<Seq<u8>> {
    rows.dom().filter(|k2: Seq<u8>| before_cursor(k2, after) && be_value(k2) > be_value(k))
}

/// Whether the stored id `k` belongs on the page: it lies before the
/// cursor, and fewer than `limit` of the ids before the cursor sort above
/// it (any number may, for a negative limit).
pub open spec fn on_page(rows: Map<Seq<u8>, EntryRow>, after: Option<EntryId>, limit: i64, k: Seq<u8>) -> bool {
    &&& rows.contains_key(k)
    &&& before_cursor(k, after)
    &&& limit < 0 || listed_above(rows, after, k).len() < limit
}

/// Whether a stored row can be read into an entry: its paste count is a
/// `u32` and its kind text names a kind.
pub open spec fn entry_row_readable(row: EntryRow) -> bool {
    &&& 0 <= row.4 <= u32::MAX
    &&& kind_of_text(row.5) is Some
}

/// An empty table lists nothing, and nothing on its pages is unreadable:
/// listing it can only give an empty page.
pub proof fn lemma_empty_table_page(after: Option<EntryId>, limit: i64, page: Seq<StoredEntry>)
    requires
        is_page(Map::<Seq<u8>, EntryRow>::empty(), after, limit, page),
    ensures
        page.len() == 0,
        forall|k: Seq<u8>| !on_page(Map::<Seq<u8>, EntryRow>::empty(), after, limit, k),
{
    if page.len() > 0 {
        assert(stored_in(page[0], Map::<Seq<u8>, EntryRow>::empty()));
    }
}

/// Setting the pin state of a stored entry changes exactly that entry's
/// pin state, to the state asked for, whatever it was, and counts one row.
pub proof fn lemma_set_pin_of_stored(rows: Map<Seq<u8>, EntryRow>, id: Seq<u8>, pinned: bool)
    requires
        rows.contains_key(id),
    ensures
        rows_with_id(rows, id) == 1,
        ({
            let after = update_row(rows, id, |row: EntryRow| with_pin(row, pinned));
            &&& after.dom() == rows.dom()
            &&& after[id].3 == pinned
            &&& after[id].0 == rows[id].0 && after[id].1 == rows[id].1 && after[id].2 == rows[id].2
            &&& after[id].4 == rows[id].4 && after[id].5 == rows[id].5
            &&& forall|k: Seq<u8>| #[trigger] rows.contains_key(k) && k != id ==> after[k] == rows[k]
        }),
{
    let after = update_row(rows, id, |row: EntryRow| with_pin(row, pinned));
    assert(after.dom() =~= rows.dom());
}

/// Marking a paste of a stored entry raises exactly that entry's paste
/// count by one, whatever it was, and counts one row.
pub proof fn lemma_mark_pasted_of_stored(rows: Map<Seq<u8>, EntryRow>, id: Seq<u8>)
    requires
        rows.contains_key(id),
    ensures
        rows_with_id(rows, id) == 1,
        ({
            let after = update_row(rows, id, |row: EntryRow| pasted_once_more(row));
            &&& after.dom() == rows.dom()
            &&& after[id].4 == rows[id].4 + 1
            &&& after[id].0 == rows[id].0 && after[id].1 == rows[id].1 && after[id].2 == rows[id].2
            &&& after[id].3 == rows[id].3 && after[id].5 == rows[id].5
            &&& forall|k: Seq<u8>| #[trigger] rows.contains_key(k) && k != id ==> after[k] == rows[k]
        }),
{
    let after = update_row(rows, id, |row: EntryRow| pasted_once_more(row));
    assert(after.dom() =~= rows.dom());
}

/// Nothing that belongs on a page is left out of it.
pub proof fn lemma_page_holds_on_page(
    rows: Map<Seq<u8>, EntryRow>,
    after: Option<EntryId>,
    limit: i64,
    page: Seq<StoredEntry>,
    k: Seq<u8>,
)
    requires
        is_page(rows, after, limit, page),
        rows.dom().finite(),
        on_page(rows, after, limit, k),
    ensures
        exists|l: int| 0 <= l < page.len() && page[l].id@ == k,
{
    if !(exists|l: int| 0 <= l < page.len() && page[l].id@ == k) {
        assert(rows.contains_key(k) && before_cursor(k, after));
        let ids = page.map_values(|e: StoredEntry| e.id@);
        let above = listed_above(rows, after, k);
        assert(ids.no_duplicates()) by {
            assert forall|i: int, j: int| 0 <= i < ids.len() && 0 <= j < ids.len() && i != j implies ids[i]
                != ids[j] by {
                if i < j {
                    assert(be_value(page[i].id@) > be_value(page[j].id@));
                } else {
                    assert(be_value(page[j].id@) > be_value(page[i].id@));
                }
            }
        }
        ids.unique_seq_to_set();
        assert forall|x: Seq<u8>| #[trigger] ids.to_set().contains(x) implies above.contains(x) by {
            let i = choose|i: int| 0 <= i < ids.len() && ids[i] == x;
            assert(stored_in(page[i], rows));
            if i < page.len() - 1 {
                assert(be_value(page[i].id@) > be_value(page[page.len() - 1].id@));
            }
        }
        vstd::set_lib::lemma_len_subset(above, rows.dom());
        vstd::set_lib::lemma_len_subset(ids.to_set(), above);
    }
}

/// Everything on a page belongs on it.
pub proof fn lemma_page_entries_belong(
    rows: Map<Seq<u8>, EntryRow>,
    after: Option<EntryId>,
    limit: i64,
    page: Seq<StoredEntry>,
    i: int,
)
    requires
        is_page(rows, after, limit, page),
        0 <= i < page.len(),
    ensures
        on_page(rows, after, limit, page[i].id@),
{
    assert(stored_in(page[i], rows));
    if limit >= 0 {
        let k = page[i].id@;
        let ids = page.take(i).map_values(|e: StoredEntry| e.id@);
        let above = listed_above(rows, after, k);
        assert forall|x: Seq<u8>| #[trigger] above.contains(x) implies ids.to_set().contains(x) by {
            assert(rows.contains_key(x) && before_cursor(x, after));
            if exists|l: int| 0 <= l < page.len() && page[l].id@ == x {
                let l = choose|l: int| 0 <= l < page.len() && page[l].id@ == x;
                if l > i {
                    assert(be_value(page[i].id@) > be_value(page[l].id@));
                }
                assert(ids[l] == x);
            } else {
                if i < page.len() - 1 {
                    assert(be_value(page[i].id@) > be_value(page[page.len() - 1].id@));
                }
            }
        }
        vstd::seq_lib::seq_to_set_is_finite(ids);
        vstd::set_lib::lemma_len_subset(above, ids.to_set());
        ids.lemma_cardinality_of_set();
    }
}

/// Whether an entry with this expiry and pin state is due for purging at
/// `now`: it expires at or before `now` and is not pinned.
pub open spec fn due(expires_at: Option<i64>, pinned: bool, now: i64) -> bool {
    &&& expires_at matches Some(t) && t <= now
    &&& !pinned
}

/// Whether a row expires at or before `now` and is not pinned.
pub open spec fn purgeable(row: EntryRow, now: i64) -> bool {
    due(row.2, row.3, now)
}

/// The ids of the rows that purging at `now` removes.
pub open spec fn purge_set(rows: Map<Seq<u8>, EntryRow>, now: i64) -> Set<Seq<u8>> {
    rows.dom().filter(|k: Seq<u8>| purgeable(rows[k], now))
}

/// The ids named by a list of entry ids.
pub open spec fn id_set(ids: Seq<EntryId>) -> Set<Seq<u8>> {
    Set::new(|k: Seq<u8>| exists|j: int| 0 <= j < ids.len() && ids[j]@ == k)
}

/// The ids before the cursor among a table's rows.
pub open spec fn listable(rows: Map<Seq<u8>, EntryRow>, after: Option<EntryId>) -> Set<Seq<u8>> {
    rows.dom().filter(|k: Seq<u8>| before_cursor(k, after))
}

/// Reading back what was added: an entry that a listing returns under the
/// id just added carries the blob and attributes it was added with.
pub proof fn lemma_list_returns_added(
    rows: Map<Seq<u8>, EntryRow>,
    id: EntryId,
    blob: Seq<u8>,
    meta: EntryMeta,
    after: Option<EntryId>,
    limit: i64,
    page: Seq<StoredEntry>,
    i: int,
)
    requires
        is_page(rows.insert(id@, meta_row(blob, meta)), after, limit, page),
        0 <= i < page.len(),
        page[i].id@ == id@,
    ensures
        page[i].blob@ == blob,
        page[i].meta == meta,
{
    assert(stored_in(page[i], rows.insert(id@, meta_row(blob, meta))));
    lemma_kind_text_round_trip(page[i].meta.content_kind);
    lemma_kind_text_round_trip(meta.content_kind);
}

/// Newest first: when an id sorts above every other stored id, a listing
/// from the top with room for an entry starts with it.
pub proof fn lemma_list_newest_first(rows: Map<Seq<u8>, EntryRow>, id: EntryId, limit: i64, page: Seq<StoredEntry>)
    requires
        is_page(rows, None, limit, page),
        limit != 0,
        rows.contains_key(id@),
        forall|k: Seq<u8>| #[trigger] rows.contains_key(k) && k != id@ ==> be_value(k) < be_value(id@),
    ensures
        page.len() > 0,
        page[0].id@ == id@,
{
    assert(before_cursor(id@, None));
    if page.len() > 0 && page.last().id@ != id@ {
        assert(stored_in(page[page.len() - 1], rows));
        assert(rows.contains_key(page.last().id@));
    }
    let i = choose|i: int| 0 <= i < page.len() && page[i].id@ == id@;
    if i > 0 {
        assert(stored_in(page[0], rows));
        assert(be_value(page[0].id@) > be_value(page[i].id@));
    }
}

/// A page fills up: where at least `limit` stored ids lie before the
/// cursor, a listing returns exactly `limit` entries.
pub proof fn lemma_list_fills_page(
    rows: Map<Seq<u8>, EntryRow>,
    after: Option<EntryId>,
    limit: i64,
    page: Seq<StoredEntry>,
)
    requires
        is_page(rows, after, limit, page),
        rows.dom().finite(),
        0 <= limit <= listable(rows, after).len(),
    ensures
        page.len() == limit,
{
    let ids = page.map_values(|e: StoredEntry| e.id@);
    if page.len() < limit {
        assert forall|k: Seq<u8>| #[trigger] listable(rows, after).contains(k) implies ids.to_set().contains(
            k,
        ) by {
            assert(rows.contains_key(k) && before_cursor(k, after));
            let i = choose|i: int| 0 <= i < page.len() && page[i].id@ == k;
            assert(ids[i] == k);
        }
        ids.lemma_cardinality_of_set();
        vstd::set_lib::lemma_len_subset(listable(rows, after), ids.to_set());
        assert(false);
    }
}

/// Pinned entries survive purging, unchanged.
pub proof fn lemma_purge_keeps_pinned(rows: Map<Seq<u8>, EntryRow>, now: i64, k: Seq<u8>)
    requires
        rows.contains_key(k),
        rows[k].3,
    ensures
        rows.remove_keys(purge_set(rows, now)).contains_key(k),
        rows.remove_keys(purge_set(rows, now))[k] == rows[k],
{
}

/// Entries without expiry, or expiring after `now`, survive purging,
/// unchanged.
pub proof fn lemma_purge_keeps_unexpired(rows: Map<Seq<u8>, EntryRow>, now: i64, k: Seq<u8>)
    requires
        rows.contains_key(k),
        rows[k].2 matches Some(t) ==> t > now,
    ensures
        rows.remove_keys(purge_set(rows, now)).contains_key(k),
        rows.remove_keys(purge_set(rows, now))[k] == rows[k],
{
}

/// Unpinned entries expiring at or before `now` are gone after purging,
/// and each counts.
pub proof fn lemma_purge_removes_expired(rows: Map<Seq<u8>, EntryRow>, now: i64, k: Seq<u8>)
    requires
        rows.dom().finite(),
        rows.contains_key(k),
        rows[k].2 matches Some(t) && t <= now,
        !rows[k].3,
    ensures
        !rows.remove_keys(purge_set(rows, now)).contains_key(k),
        purge_set(rows, now).len() > 0,
{
    assert(purge_set(rows, now).contains(k));
    vstd::set_lib::lemma_len_subset(purge_set(rows, now), rows.dom());
    if purge_set(rows, now).len() == 0 {
        purge_set(rows, now).lemma_len0_is_empty();
    }
}

/// Purging twice at one time removes nothing the second time.
pub proof fn lemma_purge_idempotent(rows: Map<Seq<u8>, EntryRow>, now: i64)
    ensures
        purge_set(rows.remove_keys(purge_set(rows, now)), now) == Set::<Seq<u8>>::empty(),
{
    assert(purge_set(rows.remove_keys(purge_set(rows, now)), now) =~= Set::<Seq<u8>>::empty());
}

/// Pinning an entry keeps it through any purge.
pub proof fn lemma_pinned_entry_survives_purge(rows: Map<Seq<u8>, EntryRow>, id: Seq<u8>, now: i64)
    requires
        rows.contains_key(id),
    ensures
        ({
            let pinned = update_row(rows, id, |row: EntryRow| with_pin(row, true));
            pinned.remove_keys(purge_set(pinned, now)).contains_key(id)
        }),
{
    let pinned = update_row(rows, id, |row: EntryRow| with_pin(row, true));
    assert(pinned[id].3);
    lemma_purge_keeps_pinned(pinned, now, id);
}

/// Deleting the same ids again deletes nothing.
pub proof fn lemma_delete_idempotent(rows: Map<Seq<u8>, EntryRow>, ids: Seq<EntryId>)
    ensures
        rows.remove_keys(id_set(ids)).dom().intersect(id_set(ids)).len() == 0,
        rows.remove_keys(id_set(ids)).remove_keys(id_set(ids)) == rows.remove_keys(id_set(ids)),
{
    assert(rows.remove_keys(id_set(ids)).dom().intersect(id_set(ids)) =~= Set::empty());
    assert(rows.remove_keys(id_set(ids)).remove_keys(id_set(ids)) =~= rows.remove_keys(id_set(ids)));
}

/// Deleting no ids deletes nothing.
pub proof fn lemma_delete_nothing(rows: Map<Seq<u8>, EntryRow>)
    ensures
        rows.dom().intersect(id_set(Seq::empty())).len() == 0,
        rows.remove_keys(id_set(Seq::empty())) == rows,
{
    assert(rows.dom().intersect(id_set(Seq::empty())) =~= Set::empty());
    assert(rows.remove_keys(id_set(Seq::empty())) =~= rows);
}

/// Sqlite Database Handle.
pub struct Storage {
    handle: Connection,
}

impl View for Storage {
    type V = Map<Seq<u8>, EntryRow>;

    closed spec fn view(&self) -> Map<Seq<u8>, EntryRow> {
        entries_table(self.handle)
    }
}

/// Whether a key lies below the bound (every key does when there is none).
pub open spec fn below(k: u128, bound: Option<u128>) -> bool {
    match bound {
        None => true,
        Some(b) => k < b,
    }
}

/// Index of the greatest key below `bound`, if any key lies below it.
fn greatest_below(keys: &Vec<u128>, bound: Option<u128>) -> (r: Option<usize>)
    ensures
        match r {
            None => forall|i: int| 0 <= i < keys@.len() ==> !below(#[trigger] keys@[i], bound),
            Some(b) => {
                &&& b < keys@.len()
                &&& below(keys@[b as int], bound)
                &&& forall|i: int|
                    0 <= i < keys@.len() && below(#[trigger] keys@[i], bound) ==> keys@[i] <= keys@[b as int]
            },
        },
{
    let mut best: Option<usize> = None;
    let mut i: usize = 0;
    while i < keys.len()
        invariant
            i <= keys@.len(),
            match best {
                None => forall|j: int| 0 <= j < i ==> !below(#[trigger] keys@[j], bound),
                Some(b) => {
                    &&& b < i
                    &&& below(keys@[b as int], bound)
                    &&& forall|j: int|
                        0 <= j < i && below(#[trigger] keys@[j], bound) ==> keys@[j] <= keys@[b as int]
                },
            },
        decreases keys@.len() - i,
    {
        let k = keys[i];
        let is_below = match bound {
            None => true,
            Some(b) => k < b,
        };
        if is_below {
            match best {
                None => {
                    best = Some(i);
                },
                Some(b) => {
                    if k > keys[b] {
                        best = Some(i);
                    }
                },
            }
        }
        i = i + 1;
    }
    best
}

/// Whether a row read out can be read into a stored entry: its paste
/// count is a `u32` and its kind text names a kind.
pub open spec fn row_readable(r: RawEntry) -> bool {
    &&& 0 <= r.5 <= u32::MAX
    &&& kind_of_text(r.6@) is Some
}

/// The stored entry that a row read out stands for; a row whose paste
/// count is not a `u32`, or whose kind text names no kind, is refused as
/// `Row::get` would refuse it.
fn decode_entry(raw: &RawEntry) -> (r: Result<StoredEntry, Error>)
    ensures
        row_readable(*raw) ==> (r matches Ok(e) && e.id@ == raw.0@ && e.blob@ == raw.1@ && e.meta == (
        EntryMeta {
            created_at: raw.2,
            expires_at: raw.3,
            pinned: raw.4,
            times_pasted: raw.5 as u32,
            content_kind: kind_of_text(raw.6@).unwrap(),
        })),
        !row_readable(*raw) ==> r matches Err(Error::Storage(_)),
{
    if raw.5 < 0 || raw.5 > 4294967295i64 {
        return Err(Error::Storage(times_out_of_range_error(raw.5)));
    }
    let times_pasted: u32 = raw.5 as u32;
    match ContentKind::from_sql_text(raw.6.as_str()) {
        Some(k) => {
            let blob = raw.1.clone();
            assert(blob@ =~= raw.1@);
            Ok(
                StoredEntry {
                    id: EntryId::from_bytes(raw.0),
                    blob,
                    meta: EntryMeta {
                        created_at: raw.2,
                        expires_at: raw.3,
                        pinned: raw.4,
                        times_pasted,
                        content_kind: k,
                    },
                },
            )
        },
        None => Err(Error::Storage(invalid_content_kind_error())),
    }
}

/// Whether `rows` is a read-out of every row of `table`, each once.
pub open spec fn read_out(rows: Seq<RawEntry>, table: Map<Seq<u8>, EntryRow>) -> bool {
    &&& forall|i: int, j: int| 0 <= i < j < rows.len() ==> #[trigger] rows[i].0@ != #[trigger] rows[j].0@
    &&& forall|i: int|
        0 <= i < rows.len() ==> {
            &&& table.contains_key(#[trigger] rows[i].0@)
            &&& table[rows[i].0@] == raw_row(rows[i])
        }
    &&& forall|k: Seq<u8>| #[trigger]
        table.contains_key(k) ==> exists|i: int| 0 <= i < rows.len() && rows[i].0@ == k
}

/// The bound a listing starts from: the cursor's key, if any.
pub open spec fn cursor_bound(after: Option<EntryId>) -> Option<u128> {
    match after {
        None => None,
        Some(a) => Some(be_value(a@) as u128),
    }
}

/// How far a listing bound is from the bottom, for termination.
pub open spec fn bound_measure(bound: Option<u128>) -> int {
    match bound {
        None => 0x1_0000_0000_0000_0000_0000_0000_0000_0000int,
        Some(b) => b as int,
    }
}

/// Whether rows read out name each id once.
pub open spec fn distinct_ids(rows: Seq<RawEntry>) -> bool {
    forall|i: int, j: int| 0 <= i < j < rows.len() ==> #[trigger] rows[i].0@ != #[trigger] rows[j].0@
}

/// The table that rows read out stand for.
pub open spec fn rows_map(rows: Seq<RawEntry>) -> Map<Seq<u8>, EntryRow> {
    Map::new(
        |k: Seq<u8>| exists|i: int| 0 <= i < rows.len() && rows[i].0@ == k,
        |k: Seq<u8>| raw_row(rows[choose|i: int| 0 <= i < rows.len() && rows[i].0@ == k]),
    )
}

/// A read-out of a table is a read-out of the table its rows stand for,
/// and that table is the one read.
pub proof fn lemma_read_out_is_rows_map(rows: Seq<RawEntry>, table: Map<Seq<u8>, EntryRow>)
    requires
        read_out(rows, table),
    ensures
        distinct_ids(rows),
        table == rows_map(rows),
        read_out(rows, rows_map(rows)),
{
    assert(table.dom() =~= rows_map(rows).dom());
    assert forall|k: Seq<u8>| #[trigger] table.contains_key(k) implies table[k] == rows_map(rows)[k] by {
        let i = choose|i: int| 0 <= i < rows.len() && rows[i].0@ == k;
        assert(table[rows[i].0@] == raw_row(rows[i]));
    }
    assert(table =~= rows_map(rows));
}

/// The key of a 16-byte id fits in a `u128`.
pub proof fn lemma_id_key_fits(s: Seq<u8>)
    requires
        s.len() == 16,
    ensures
        be_value(s) < 0x1_0000_0000_0000_0000_0000_0000_0000_0000int,
{
    lemma_be_value_bound(s);
    assert(pow256(16) == 0x1_0000_0000_0000_0000_0000_0000_0000_0000int) by {
        reveal_with_fuel(pow256, 17);
    }
}

/// Whether some row read out with id `k` can be read.
spec fn readable_id(rows: Seq<RawEntry>, k: Seq<u8>) -> bool {
    exists|j: int| 0 <= j < rows.len() && rows[j].0@ == k && row_readable(rows[j])
}

/// The page that rows read out give: those whose id sorts below the
/// cursor `after`, greatest id first, at most `limit` of them (no bound for
/// a negative `limit`). A row that belongs on the page but cannot be read
/// (a paste count that is not a `u32`, a kind text that names no kind) is
/// refused as `Row::get` would refuse it; rows off the page are not read.
pub fn page_of(rows: &Vec<RawEntry>, after: Option<EntryId>, limit: i64) -> (r: Result<Vec<StoredEntry>, Error>)
    requires
        distinct_ids(rows@),
    ensures
        r matches Ok(page) ==> is_page(rows_map(rows@), after, limit, page@),
        r is Err <==> exists|j: int|
            0 <= j < rows@.len() && on_page(rows_map(rows@), after, limit, rows@[j].0@) && !row_readable(
                #[trigger] rows@[j],
            ),
        r matches Err(e) ==> e is Storage,
{
    proof {
        lemma_rows_map_read_out(rows@);
        lemma_rows_map_finite(rows@);
    }
    let mut keys: Vec<u128> = Vec::new();
    let mut i: usize = 0;
    while i < rows.len()
        invariant
            i <= rows@.len(),
            keys@.len() == i,
            forall|j: int| 0 <= j < i ==> #[trigger] keys@[j] == be_value(rows@[j].0@),
        decreases rows@.len() - i,
    {
        keys.push(EntryId::from_bytes(rows[i].0).sort_key());
        i = i + 1;
    }
    let mut bound: Option<u128> = match after {
        None => None,
        Some(a) => Some(a.sort_key()),
    };
    let mut page: Vec<StoredEntry> = Vec::new();
    loop
        invariant
            read_out(rows@, rows_map(rows@)),
            rows_map(rows@).dom().finite(),
            distinct_ids(rows@),
            keys@.len() == rows@.len(),
            forall|j: int| 0 <= j < rows@.len() ==> #[trigger] keys@[j] == be_value(rows@[j].0@),
            forall|j: int|
                0 <= j < page@.len() ==> stored_in(#[trigger] page@[j], rows_map(rows@)) && before_cursor(
                    page@[j].id@,
                    after,
                ),
            forall|j: int, l: int|
                0 <= j < l < page@.len() ==> be_value(#[trigger] page@[j].id@) > be_value(
                    #[trigger] page@[l].id@,
                ),
            0 <= limit ==> page@.len() <= limit,
            page@.len() == 0 ==> bound == cursor_bound(after),
            page@.len() > 0 ==> bound == Some(be_value(page@.last().id@) as u128),
            forall|j: int|
                0 <= j < rows@.len() && before_cursor(rows@[j].0@, after) && !below(
                    #[trigger] keys@[j],
                    bound,
                ) ==> exists|l: int| 0 <= l < page@.len() && page@[l].id@ == rows@[j].0@,
            forall|j: int|
                0 <= j < rows@.len() && below(#[trigger] keys@[j], bound) ==> before_cursor(
                    rows@[j].0@,
                    after,
                ),
            forall|l: int| 0 <= l < page@.len() ==> readable_id(rows@, #[trigger] page@[l].id@),
        ensures
            is_page(rows_map(rows@), after, limit, page@),
            forall|l: int| 0 <= l < page@.len() ==> readable_id(rows@, #[trigger] page@[l].id@),
        decreases bound_measure(bound),
    {
        if 0 <= limit && page.len() as i64 >= limit {
            proof {
                lemma_page_complete(rows_map(rows@), rows@, keys@, after, limit, bound, page@);
            }
            break;
        }
        match greatest_below(&keys, bound) {
            None => {
                proof {
                    lemma_page_complete(rows_map(rows@), rows@, keys@, after, limit, bound, page@);
                }
                break;
            },
            Some(b) => {
                proof {
                    lemma_id_key_fits(rows@[b as int].0@);
                }
                let e = match decode_entry(&rows[b]) {
                    Ok(e) => e,
                    Err(e) => {
                        proof {
                            lemma_next_on_page(rows@, keys@, after, limit, bound, page@, b as int);
                            assert(!row_readable(rows@[b as int]));
                        }
                        return Err(e);
                    },
                };
                proof {
                    assert forall|j: int|
                        0 <= j < rows@.len() && before_cursor(rows@[j].0@, after) && !below(
                            #[trigger] keys@[j],
                            Some(keys@[b as int]),
                        ) implies exists|l: int|
                        0 <= l < page@.push(e).len() && page@.push(e)[l].id@ == rows@[j].0@ by {
                        if keys@[j] == keys@[b as int] {
                            lemma_be_value_injective(rows@[j].0@, rows@[b as int].0@);
                            assert(page@.push(e)[page@.len() as int].id@ == rows@[j].0@);
                        } else {
                            let l = choose|l: int|
                                0 <= l < page@.len() && page@[l].id@ == rows@[j].0@;
                            assert(page@.push(e)[l].id@ == rows@[j].0@);
                        }
                    }
                    assert(readable_id(rows@, e.id@));
                    assert forall|l: int| 0 <= l < page@.push(e).len() implies readable_id(
                        rows@,
                        #[trigger] page@.push(e)[l].id@,
                    ) by {
                        if l < page@.len() {
                            assert(page@.push(e)[l] == page@[l]);
                        }
                    }
                }
                bound = Some(keys[b]);
                page.push(e);
            },
        }
    }
    proof {
        assert forall|j: int|
            0 <= j < rows@.len() && on_page(rows_map(rows@), after, limit, rows@[j].0@) implies row_readable(
            #[trigger] rows@[j],
        ) by {
            lemma_page_holds_on_page(rows_map(rows@), after, limit, page@, rows@[j].0@);
            let l = choose|l: int| 0 <= l < page@.len() && page@[l].id@ == rows@[j].0@;
            assert(readable_id(rows@, page@[l].id@));
            let j2 = choose|j2: int| 0 <= j2 < rows@.len() && rows@[j2].0@ == page@[l].id@ && row_readable(rows@[j2]);
            if j2 < j {
                assert(rows@[j2].0@ != rows@[j].0@);
            } else if j < j2 {
                assert(rows@[j].0@ != rows@[j2].0@);
            }
        }
    }
    Ok(page)
}

/// The ids that rows read out stand for are finitely many.
proof fn lemma_rows_map_finite(rows: Seq<RawEntry>)
    ensures
        rows_map(rows).dom().finite(),
{
    let ids = rows.map_values(|r: RawEntry| r.0@);
    assert forall|k: Seq<u8>| #[trigger] rows_map(rows).dom().contains(k) implies ids.to_set().contains(k) by {
        let i = choose|i: int| 0 <= i < rows.len() && rows[i].0@ == k;
        assert(ids[i] == k);
    }
    vstd::seq_lib::seq_to_set_is_finite(ids);
    vstd::set_lib::lemma_len_subset(rows_map(rows).dom(), ids.to_set());
}

/// The row with the greatest key below the bound belongs on the page,
/// while the page is not full.
proof fn lemma_next_on_page(
    rows: Seq<RawEntry>,
    keys: Seq<u128>,
    after: Option<EntryId>,
    limit: i64,
    bound: Option<u128>,
    page: Seq<StoredEntry>,
    b: int,
)
    requires
        read_out(rows, rows_map(rows)),
        keys.len() == rows.len(),
        forall|j: int| 0 <= j < rows.len() ==> #[trigger] keys[j] == be_value(rows[j].0@),
        0 <= b < rows.len(),
        below(keys[b], bound),
        forall|j: int| 0 <= j < keys.len() && below(#[trigger] keys[j], bound) ==> keys[j] <= keys[b],
        forall|j: int|
            0 <= j < rows.len() && before_cursor(rows[j].0@, after) && !below(#[trigger] keys[j], bound)
                ==> exists|l: int| 0 <= l < page.len() && page[l].id@ == rows[j].0@,
        forall|j: int| 0 <= j < rows.len() && below(#[trigger] keys[j], bound) ==> before_cursor(rows[j].0@, after),
        limit < 0 || page.len() < limit,
    ensures
        on_page(rows_map(rows), after, limit, rows[b].0@),
{
    assert(keys[b] == be_value(rows[b].0@));
    assert(rows_map(rows).contains_key(rows[b].0@));
    if limit >= 0 {
        let ids = page.map_values(|e: StoredEntry| e.id@);
        let above = listed_above(rows_map(rows), after, rows[b].0@);
        assert forall|k: Seq<u8>| #[trigger] above.contains(k) implies ids.to_set().contains(k) by {
            let j = choose|j: int| 0 <= j < rows.len() && rows[j].0@ == k;
            assert(keys[j] == be_value(rows[j].0@));
            let l = choose|l: int| 0 <= l < page.len() && page[l].id@ == rows[j].0@;
            assert(ids[l] == k);
        }
        vstd::seq_lib::seq_to_set_is_finite(ids);
        vstd::set_lib::lemma_len_subset(above, ids.to_set());
        ids.lemma_cardinality_of_set();
    }
}

/// Rows with distinct ids are a read-out of the table they stand for.
pub proof fn lemma_rows_map_read_out(rows: Seq<RawEntry>)
    requires
        distinct_ids(rows),
    ensures
        read_out(rows, rows_map(rows)),
{
    assert forall|i: int| 0 <= i < rows.len() implies rows_map(rows)[#[trigger] rows[i].0@] == raw_row(rows[i]) by {
        let j = choose|j: int| 0 <= j < rows.len() && rows[j].0@ == rows[i].0@;
        assert(j == i);
    }
}

/// Once no row before the cursor is left below the bound, or the page
/// is full, the page is the listing's.
proof fn lemma_page_complete(
    table: Map<Seq<u8>, EntryRow>,
    rows: Seq<RawEntry>,
    keys: Seq<u128>,
    after: Option<EntryId>,
    limit: i64,
    bound: Option<u128>,
    page: Seq<StoredEntry>,
)
    requires
        read_out(rows, table),
        keys.len() == rows.len(),
        forall|j: int| 0 <= j < rows.len() ==> #[trigger] keys[j] == be_value(rows[j].0@),
        forall|j: int|
            0 <= j < page.len() ==> stored_in(#[trigger] page[j], table) && before_cursor(page[j].id@, after),
        forall|j: int, l: int|
            0 <= j < l < page.len() ==> be_value(#[trigger] page[j].id@) > be_value(#[trigger] page[l].id@),
        0 <= limit ==> page.len() <= limit,
        page.len() > 0 ==> bound == Some(be_value(page.last().id@) as u128),
        forall|j: int|
            0 <= j < rows.len() && before_cursor(rows[j].0@, after) && !below(#[trigger] keys[j], bound)
                ==> exists|l: int| 0 <= l < page.len() && page[l].id@ == rows[j].0@,
        (0 <= limit && page.len() == limit) || forall|j: int|
            0 <= j < keys.len() ==> !below(#[trigger] keys[j], bound),
    ensures
        is_page(table, after, limit, page),
{
    assert forall|k: Seq<u8>| #[trigger]
        table.contains_key(k) && before_cursor(k, after) implies {
        ||| exists|i: int| 0 <= i < page.len() && page[i].id@ == k
        ||| 0 <= limit && page.len() == limit && (limit == 0 || be_value(k) < be_value(page.last().id@))
    } by {
        let j = choose|j: int| 0 <= j < rows.len() && rows[j].0@ == k;
        assert(keys[j] == be_value(rows[j].0@));
        if !below(keys[j], bound) {
        } else {
        }
    }
}

/// The expiry rows that are due for purging at `now`, as plain values.
pub open spec fn due_rows(rows: Seq<ExpiryRow>, now: i64) -> Set<(Seq<u8>, Option<i64>, bool)> {
    Set::new(
        |t: (Seq<u8>, Option<i64>, bool)|
            exists|i: int| 0 <= i < rows.len() && expiry_key(rows[i]) == t && due(t.1, t.2, now),
    )
}

/// The first `n` rows of a list of expiry rows, as plain values.
pub open spec fn keys_before(rows: Seq<ExpiryRow>, n: int) -> Set<(Seq<u8>, Option<i64>, bool)> {
    Set::new(
        |t: (Seq<u8>, Option<i64>, bool)| exists|l: int| 0 <= l < n && l < rows.len() && #[trigger] expiry_key(rows[l]) == t,
    )
}

/// The expiry rows that purging at `now` removes: those that are not
/// pinned and expire at or before `now`, in the order read.
pub fn purge_targets(rows: &Vec<ExpiryRow>, now: i64) -> (targets: Vec<ExpiryRow>)
    ensures
        keys_before(targets@, targets@.len() as int) == due_rows(rows@, now),
{
    let mut targets: Vec<ExpiryRow> = Vec::new();
    let mut i: usize = 0;
    while i < rows.len()
        invariant
            i <= rows@.len(),
            forall|l: int|
                0 <= l < targets@.len() ==> exists|j: int|
                    0 <= j < i && expiry_key(rows@[j]) == #[trigger] expiry_key(targets@[l]) && due(
                        rows@[j].1,
                        rows@[j].2,
                        now,
                    ),
            forall|j: int|
                0 <= j < i && due(#[trigger] rows@[j].1, rows@[j].2, now) ==> exists|l: int|
                    0 <= l < targets@.len() && expiry_key(targets@[l]) == expiry_key(rows@[j]),
        decreases rows@.len() - i,
    {
        let expired = match rows[i].1 {
            Some(t) => t <= now,
            None => false,
        };
        if expired && !rows[i].2 {
            let id = rows[i].0.clone();
            assert(id@ =~= rows@[i as int].0@);
            let ghost before = targets@;
            targets.push((id, rows[i].1, rows[i].2));
            proof {
                assert(expiry_key(targets@[targets@.len() - 1]) == expiry_key(rows@[i as int]));
                assert forall|j: int|
                    0 <= j < i + 1 && due(#[trigger] rows@[j].1, rows@[j].2, now) implies exists|l: int|
                        0 <= l < targets@.len() && expiry_key(targets@[l]) == expiry_key(rows@[j]) by {
                    if j < i {
                        let l = choose|l: int|
                            0 <= l < before.len() && expiry_key(before[l]) == expiry_key(rows@[j]);
                        assert(targets@[l] == before[l]);
                    } else {
                        assert(expiry_key(targets@[targets@.len() - 1]) == expiry_key(rows@[j]));
                    }
                }
                assert forall|l: int| 0 <= l < targets@.len() implies exists|j: int|
                    0 <= j < i + 1 && expiry_key(rows@[j]) == #[trigger] expiry_key(targets@[l]) && due(
                        rows@[j].1,
                        rows@[j].2,
                        now,
                    ) by {
                    if l < before.len() {
                        assert(targets@[l] == before[l]);
                    } else {
                        assert(expiry_key(rows@[i as int]) == expiry_key(targets@[l]));
                    }
                }
            }
        }
        i = i + 1;
    }
    proof {
        let all = keys_before(targets@, targets@.len() as int);
        assert forall|t: (Seq<u8>, Option<i64>, bool)| all.contains(t) <==> due_rows(rows@, now).contains(t) by {
            if all.contains(t) {
                let l = choose|l: int|
                    0 <= l < targets@.len() && l < targets@.len() && #[trigger] expiry_key(targets@[l]) == t;
                assert(expiry_key(targets@[l]) == t);
            }
            if due_rows(rows@, now).contains(t) {
                let j = choose|j: int| 0 <= j < rows@.len() && expiry_key(rows@[j]) == t && due(t.1, t.2, now);
                assert(due(rows@[j].1, rows@[j].2, now));
                let l = choose|l: int| 0 <= l < targets@.len() && expiry_key(targets@[l]) == expiry_key(rows@[j]);
                assert(all.contains(expiry_key(targets@[l])));
            }
        }
        assert(all =~= due_rows(rows@, now));
    }
    targets
}

impl Storage {
    /// Retrieves a page of stored entries: those whose id sorts below the
    /// cursor `after` (all when `None`), greatest id (newest) first, at most
    /// `limit` of them (no bound for a negative `limit`).
    ///
    /// Returns [`Error::Storage`] if any rusqlite operation fails or a row
    /// that belongs on the page cannot be read (a paste count that is not a
    /// `u32`, a kind text that names no kind).
    pub fn list(&self, after: Option<EntryId>, limit: i64) -> (r: Result<Vec<StoredEntry>, Error>)
        ensures
            r matches Ok(page) ==> is_page(self@, after, limit, page@),
            r is Ok ==> self@.dom().finite(),
            r matches Err(e) ==> e is Storage,
            r matches Err(Error::Storage(e)) ==> from_database(e) || exists|k: Seq<u8>|
                on_page(self@, after, limit, k) && !entry_row_readable(#[trigger] self@[k]),
    {
        let rows = match select_entries(&self.handle) {
            Ok(rows) => rows,
            Err(e) => return Err(Error::Storage(e)),
        };
        proof {
            lemma_read_out_is_rows_map(rows@, self@);
            lemma_rows_map_finite(rows@);
        }
        match page_of(&rows, after, limit) {
            Ok(page) => Ok(page),
            Err(e) => {
                proof {
                    let j = choose|j: int|
                        0 <= j < rows@.len() && on_page(rows_map(rows@), after, limit, rows@[j].0@)
                            && !row_readable(#[trigger] rows@[j]);
                    assert(self@[rows@[j].0@] == raw_row(rows@[j]));
                    assert(!entry_row_readable(self@[rows@[j].0@]));
                }
                Err(e)
            },
        }
    }

    /// Deletes the entries with matching IDs, in one statement; counts the
    /// entries deleted (ids named twice, or that match nothing, count once or
    /// not at all). An empty list deletes nothing and asks nothing of the
    /// database.
    ///
    /// Returns [`Error::Storage`] if any rusqlite operation fails; then
    /// nothing changes.
    pub fn delete(&mut self, ids: &[EntryId]) -> (r: Result<usize, Error>)
        ensures
            ids@.len() == 0 ==> r == Ok::<usize, Error>(0usize) && final(self)@ == old(self)@,
            r matches Ok(n) ==> n == old(self)@.dom().intersect(id_set(ids@)).len(),
            r is Ok ==> final(self)@ == old(self)@.remove_keys(id_set(ids@)),
            r is Err ==> final(self)@ == old(self)@,
            final(self).vault_record() == old(self).vault_record(),
            r matches Err(e) ==> e is Storage,
            final(self).settings() == old(self).settings(),
            r matches Err(Error::Storage(e)) ==> from_database(e),
    {
        if ids.len() == 0 {
            proof {
                assert(old(self)@.dom().intersect(id_set(ids@)) =~= Set::empty());
                assert(old(self)@.remove_keys(id_set(ids@)) =~= old(self)@);
            }
            return Ok(0);
        }
        let mut bytes: Vec<[u8; 16]> = Vec::new();
        let mut i: usize = 0;
        while i < ids.len()
            invariant
                i <= ids@.len(),
                bytes@.len() == i,
                forall|j: int| 0 <= j < i ==> #[trigger] bytes@[j]@ == ids@[j]@,
            decreases ids@.len() - i,
        {
            bytes.push(ids[i].as_bytes());
            i = i + 1;
        }
        proof {
            assert(byte_id_set(bytes@) =~= id_set(ids@)) by {
                assert forall|k: Seq<u8>| #[trigger] id_set(ids@).contains(k) implies byte_id_set(bytes@).contains(k) by {
                    let j = choose|j: int| 0 <= j < ids@.len() && ids@[j]@ == k;
                    assert(bytes@[j]@ == k);
                }
                assert forall|k: Seq<u8>| #[trigger] byte_id_set(bytes@).contains(k) implies id_set(ids@).contains(k) by {
                    let j = choose|j: int| 0 <= j < bytes@.len() && bytes@[j]@ == k;
                    assert(ids@[j]@ == k);
                }
            }
        }
        match delete_entries(&mut self.handle, bytes.as_slice()) {
            Ok(n) => Ok(n),
            Err(e) => Err(Error::Storage(e)),
        }
    }

    /// Deletes the entries that aren't pinned and expire at or before
    /// `now` (epoch millis), in one statement; counts them. Entries without
    /// expiry stay. Only each entry's id, expiry and pin state are read, and
    /// the statement deletes an entry only while those are still as read.
    ///
    /// Returns [`Error::Storage`] if any rusqlite operation fails; then
    /// nothing changes.
    pub fn purge_expired(&mut self, now: i64) -> (r: Result<usize, Error>)
        ensures
            r matches Ok(n) ==> n == purge_set(old(self)@, now).len(),
            r is Ok ==> final(self)@ == old(self)@.remove_keys(purge_set(old(self)@, now)),
            r is Err ==> final(self)@ == old(self)@,
            final(self).vault_record() == old(self).vault_record(),
            r matches Err(e) ==> e is Storage,
            final(self).settings() == old(self).settings(),
            r matches Err(Error::Storage(e)) ==> from_database(e),
    {
        let ghost start = self@;
        let ghost record = self.vault_record();
        let rows = match select_expiry(&self.handle) {
            Ok(rows) => rows,
            Err(e) => {
                return Err(Error::Storage(e));
            },
        };
        let targets = purge_targets(&rows, now);
        proof {
            assert(still_pending(start, due_rows(rows@, now)) =~= purge_set(start, now)) by {
                assert forall|k: Seq<u8>| #[trigger] purge_set(start, now).contains(k) implies still_pending(
                    start,
                    due_rows(rows@, now),
                ).contains(k) by {
                    let i = choose|i: int| 0 <= i < rows@.len() && rows@[i].0@ == k;
                    assert(start.contains_key(rows@[i].0@));
                    assert(expiry_key(rows@[i]) == (k, start[k].2, start[k].3));
                }
            }
        }
        if let Err(e) = reset_pending(&mut self.handle) {
            return Err(Error::Storage(e));
        }
        proof {
            assert(keys_before(targets@, 0) =~= Set::<(Seq<u8>, Option<i64>, bool)>::empty());
        }
        let mut i: usize = 0;
        while i < targets.len()
            invariant
                i <= targets@.len(),
                self@ == start,
                start == old(self)@,
                self.vault_record() == record,
                record == old(self).vault_record(),
                self.settings() == old(self).settings(),
                pending_rows(self.handle) == keys_before(targets@, i as int),
            decreases targets@.len() - i,
        {
            if let Err(e) = add_pending(&mut self.handle, &targets[i]) {
                return Err(Error::Storage(e));
            }
            proof {
                assert(keys_before(targets@, i + 1) =~= keys_before(targets@, i as int).insert(
                    expiry_key(targets@[i as int]),
                )) by {
                    assert forall|t: (Seq<u8>, Option<i64>, bool)| #[trigger] keys_before(targets@, i + 1).contains(
                        t,
                    ) implies keys_before(targets@, i as int).insert(expiry_key(targets@[i as int])).contains(t) by {
                        let l = choose|l: int|
                            0 <= l < i + 1 && l < targets@.len() && #[trigger] expiry_key(targets@[l]) == t;
                        if l < i {
                            assert(keys_before(targets@, i as int).contains(expiry_key(targets@[l])));
                        }
                    }
                }
            }
            i = i + 1;
        }
        match delete_pending(&mut self.handle) {
            Ok(n) => Ok(n),
            Err(e) => Err(Error::Storage(e)),
        }
    }

    /// The vault metadata row the store holds, if any: the blob and the
    /// time it was saved (epoch millis).
    pub closed spec fn vault_record(&self) -> Option<(Seq<u8>, i64)> {
        vault_row(self.handle)
    }

    /// The vault metadata blob the store holds, if any.
    pub open spec fn vault_blob(&self) -> Option<Seq<u8>> {
        match self.vault_record() {
            Some(row) => Some(row.0),
            None => None,
        }
    }

    /// The schema version the store's database records.
    pub closed spec fn schema_version(&self) -> int {
        db_schema_version(self.handle)
    }

    /// Whether the store's connection enforces foreign keys.
    pub closed spec fn foreign_keys_enforced(&self) -> bool {
        db_foreign_keys(self.handle)
    }

    /// The store's busy timeout, in milliseconds.
    pub closed spec fn busy_timeout_ms(&self) -> int {
        db_busy_timeout(self.handle)
    }

    /// The journal mode in effect on the store's connection.
    pub closed spec fn journal_mode(&self) -> Seq<char> {
        db_journal_mode(self.handle)
    }

    /// Whether the store's connection is outside any transaction.
    pub closed spec fn autocommit(&self) -> bool {
        db_autocommit(self.handle)
    }

    /// The store's settings: schema version, foreign keys, busy timeout,
    /// journal mode and autocommit mode.
    pub open spec fn settings(&self) -> (int, bool, int, Seq<char>, bool) {
        (self.schema_version(), self.foreign_keys_enforced(), self.busy_timeout_ms(), self.journal_mode(), self.autocommit())
    }

    /// Creates a new database over the connection: asks for the WAL journal
    /// (a database in memory keeps its own), turns foreign keys on, sets a
    /// busy timeout of 5 s, and brings the schema up to date. No row
    /// changes.
    ///
    /// Returns [`Error::Storage`] if any rusqlite operation fails, and
    /// [`Error::Config`] if the migrations fail otherwise.
    pub fn new(connection: Connection) -> (r: Result<Self, Error>)
        ensures
            r matches Ok(s) ==> s@ == entries_table(connection) && s.vault_record() == vault_row(
                connection,
            ),
            r matches Ok(s) ==> s.schema_version() == latest_schema_version(),
            r matches Ok(s) ==> s.busy_timeout_ms() == 5000,
            r matches Ok(s) ==> s.journal_mode() == "wal"@ || s.journal_mode() == db_journal_mode(connection),
            r matches Ok(s) ==> (db_autocommit(connection) ==> s.foreign_keys_enforced()),
            r matches Ok(s) ==> s.autocommit() == db_autocommit(connection),
            r matches Err(e) ==> e is Storage || e is Config,
            r matches Err(Error::Storage(e)) ==> from_database(e),
    {
        let mut connection = connection;
        let ghost start = connection;
        proof {
            reveal_strlit("WAL");
            reveal_strlit("wal");
            assert(ascii_lowercase("WAL"@) =~= "wal"@);
        }
        if let Err(e) = set_journal_mode(&mut connection, "WAL") {
            return Err(Error::Storage(e));
        }
        if let Err(e) = enable_foreign_keys(&mut connection) {
            return Err(Error::Storage(e));
        }
        if let Err(e) = set_busy_timeout(&mut connection, 5000) {
            return Err(Error::Storage(e));
        }
        if let Err(e) = run_migrations(&mut connection) {
            return match split_migration_error(e) {
                Ok(sqlite) => Err(Error::Storage(sqlite)),
                Err(message) => Err(Error::Config(message)),
            };
        }
        Ok(Storage { handle: connection })
    }

    /// In-memory store — real schema and migrations, no files, no rows;
    /// foreign keys on, a busy timeout of 5 s, its journal in memory.
    ///
    /// Returns [`Error::Storage`] if any rusqlite operation fails, and
    /// [`Error::Config`] if the migrations fail otherwise.
    pub fn in_memory() -> (r: Result<Self, Error>)
        ensures
            r matches Ok(s) ==> s@.dom() == Set::<Seq<u8>>::empty() && s.vault_blob() is None,
            r matches Ok(s) ==> s.schema_version() == latest_schema_version(),
            r matches Ok(s) ==> s.busy_timeout_ms() == 5000,
            r matches Ok(s) ==> s.journal_mode() == "wal"@ || s.journal_mode() == "memory"@,
            r matches Ok(s) ==> s.foreign_keys_enforced() && s.autocommit(),
            r matches Err(e) ==> e is Storage || e is Config,
            r matches Err(Error::Storage(e)) ==> from_database(e),
    {
        match open_in_memory() {
            Ok(c) => Storage::new(c),
            Err(e) => Err(Error::Storage(e)),
        }
    }

    /// Save vault metadata to the DB, replacing any earlier one.
    ///
    /// Returns [`Error::Storage`] if any rusqlite operation fails; then
    /// nothing changes.
    pub fn save_vault(&mut self, blob: &[u8]) -> (r: Result<(), Error>)
        ensures
            final(self)@ == old(self)@,
            r is Ok ==> final(self).vault_blob() == Some(blob@),
            r is Err ==> final(self).vault_record() == old(self).vault_record(),
            r matches Err(e) ==> e is Storage,
            final(self).settings() == old(self).settings(),
            r matches Err(Error::Storage(e)) ==> from_database(e),
    {
        let created_at = now_millis();
        self.save_vault_at(blob, created_at)
    }

    /// Saves vault metadata to the DB as saved at `created_at` (epoch
    /// millis), replacing any earlier one.
    ///
    /// Returns [`Error::Storage`] if any rusqlite operation fails; then
    /// nothing changes.
    pub fn save_vault_at(&mut self, blob: &[u8], created_at: i64) -> (r: Result<(), Error>)
        ensures
            final(self)@ == old(self)@,
            r is Ok ==> final(self).vault_record() == Some((blob@, created_at)),
            r is Err ==> final(self).vault_record() == old(self).vault_record(),
            r matches Err(e) ==> e is Storage,
            final(self).settings() == old(self).settings(),
            r matches Err(Error::Storage(e)) ==> from_database(e),
    {
        match upsert_vault(&mut self.handle, blob, created_at) {
            Ok(_) => Ok(()),
            Err(e) => Err(Error::Storage(e)),
        }
    }

    /// Loads vault metadata: `None` where none was saved.
    ///
    /// Returns [`Error::Storage`] if any rusqlite operation fails.
    pub fn load_vault(&self) -> (r: Result<Option<Vec<u8>>, Error>)
        ensures
            r matches Ok(v) ==> match v {
                Some(b) => self.vault_blob() == Some(b@),
                None => self.vault_blob() is None,
            },
            r matches Err(e) ==> e is Storage,
            r matches Err(Error::Storage(e)) ==> from_database(e),
    {
        match select_vault(&self.handle) {
            Ok(v) => Ok(v),
            Err(e) => Err(Error::Storage(e)),
        }
    }

    /// Adds a new clipboard entry to the DB. An id that is already stored
    /// is refused.
    ///
    /// Returns [`Error::Storage`] if any rusqlite operation fails; then
    /// nothing changes.
    pub fn add(&mut self, id: EntryId, blob: &[u8], meta: &EntryMeta) -> (r: Result<(), Error>)
        ensures
            old(self)@.contains_key(id@) ==> r is Err,
            r is Ok ==> final(self)@ == old(self)@.insert(id@, meta_row(blob@, *meta)),
            r is Err ==> final(self)@ == old(self)@,
            final(self).vault_record() == old(self).vault_record(),
            r matches Err(e) ==> e is Storage,
            final(self).settings() == old(self).settings(),
            r matches Err(Error::Storage(e)) ==> from_database(e),
    {
        let bytes = id.as_bytes();
        match insert_entry(
            &mut self.handle,
            &bytes,
            blob,
            meta.created_at,
            meta.expires_at,
            meta.pinned,
            meta.times_pasted,
            meta.content_kind.as_sql_text(),
        ) {
            Ok(_) => Ok(()),
            Err(e) => Err(Error::Storage(e)),
        }
    }

    /// Pins/Unpins the entry for the given entry id; counts the entries
    /// changed (0 where no entry has the id).
    ///
    /// Returns [`Error::Storage`] if any rusqlite operation fails; then
    /// nothing changes.
    pub fn set_pin(&mut self, id: &EntryId, pin_state: bool) -> (r: Result<usize, Error>)
        ensures
            r matches Ok(n) ==> n == rows_with_id(old(self)@, id@),
            r is Ok ==> final(self)@ == update_row(old(self)@, id@, |row: EntryRow| with_pin(row, pin_state)),
            r is Err ==> final(self)@ == old(self)@,
            final(self).vault_record() == old(self).vault_record(),
            r matches Err(e) ==> e is Storage,
            final(self).settings() == old(self).settings(),
            r matches Err(Error::Storage(e)) ==> from_database(e),
            old(self)@.contains_key(id@) && r is Ok ==> r == Ok::<usize, Error>(1usize) && final(self)@[id@].3 == pin_state,
    {
        let bytes = id.as_bytes();
        match update_pin(&mut self.handle, &bytes, pin_state) {
            Ok(n) => Ok(n),
            Err(e) => Err(Error::Storage(e)),
        }
    }

    /// Increments the `times_pasted` value for the given entry; counts the
    /// entries changed (0 where no entry has the id).
    ///
    /// Returns [`Error::Storage`] if any rusqlite operation fails; then
    /// nothing changes.
    pub fn mark_pasted(&mut self, id: &EntryId) -> (r: Result<usize, Error>)
        ensures
            r matches Ok(n) ==> n == rows_with_id(old(self)@, id@),
            r is Ok ==> final(self)@ == update_row(old(self)@, id@, |row: EntryRow| pasted_once_more(row)),
            r is Err ==> final(self)@ == old(self)@,
            final(self).vault_record() == old(self).vault_record(),
            r matches Err(e) ==> e is Storage,
            final(self).settings() == old(self).settings(),
            r matches Err(Error::Storage(e)) ==> from_database(e),
            old(self)@.contains_key(id@) && r is Ok ==> r == Ok::<usize, Error>(1usize) && final(self)@[id@].4 == old(self)@[id@].4 + 1,
    {
        let bytes = id.as_bytes();
        match increment_pasted(&mut self.handle, &bytes) {
            Ok(n) => Ok(n),
            Err(e) => Err(Error::Storage(e)),
        }
    }
}

} // verus!
