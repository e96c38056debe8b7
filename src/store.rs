//! What the queue store decides before it touches the database: the
//! schema migrations still to run, the id and creation time of a new row,
//! and the defaults of a row read back with missing columns.
use vstd::prelude::*;
use crate::event::{EventQueueItem, EventType};
use crate::payload::opt_view;

verus! {

/// The value recorded under a migration's marker once it has run.
pub const DB_MIGRATION_VAL: &'static str = "1";

/// Creates the key/value table that records the migrations.
pub const CREATE_META_TABLE: &'static str = "CREATE TABLE IF NOT EXISTS ilagent (
    key                 TEXT PRIMARY KEY,
    val                 TEXT NOT NULL,
    created_at          TEXT NOT NULL
)";

/// Reads a value of the key/value table (`?1`: key).
pub const SELECT_META: &'static str = "SELECT val FROM ilagent WHERE key = ?1";

/// Changes a value of the key/value table (`?1`: value, `?2`: key).
pub const UPDATE_META: &'static str = "UPDATE ilagent SET val = ?1 WHERE key = ?2";

/// Adds a key/value row (`?1`: key, `?2`: value, `?3`: creation time).
pub const INSERT_META: &'static str = "INSERT INTO ilagent (key, val, created_at) VALUES (?1, ?2, ?3)";

/// Adds a queue row; the parameters are, in order, api_key, event_type,
/// alert_key, summary, created_at, id, priority, images, links,
/// custom_details and details.
pub const INSERT_EVENT: &'static str = "INSERT INTO event_items (api_key, event_type, alert_key, summary, created_at, id,
    priority, images, links, custom_details, details)
    VALUES (?1, ?2, ?3, ?4, ?5, ?6, ?7, ?8, ?9, ?10, ?11)";

/// Reads the queue row with the id `?1`, columns in the stored order.
pub const SELECT_EVENT: &'static str = "SELECT * FROM event_items WHERE id = ?1";

/// Reads at most `?1` queue rows, oldest insertion first.
pub const SELECT_EVENTS: &'static str = "SELECT * FROM event_items ORDER BY inserted_at ASC LIMIT ?1";

/// Removes the queue row with the id `?1`; a missing id removes nothing.
pub const DELETE_EVENT: &'static str = "DELETE FROM event_items WHERE id = ?1";

/// A schema migration: the marker recorded once it has run, and its SQL.
pub struct Migration {
    pub marker: &'static str,
    pub statements: Vec<&'static str>,
}

/// The schema migrations, in the order they apply: the first creates the
/// queue table, the second renames `incident_key` to `alert_key` and adds
/// the `inserted_at` column that orders the queue.
pub fn migrations() -> (r: Vec<Migration>)
    ensures
        r@.len() == 2,
        r@[0].marker@ == "mig_1"@,
        r@[0].statements@.len() == 1,
        r@[0].statements@[0]@ == "CREATE TABLE event_items (id TEXT PRIMARY KEY, api_key TEXT NOT NULL, event_type TEXT NOT NULL, incident_key TEXT NULL, summary TEXT NOT NULL, created_at TEXT NOT NULL, priority TEXT NULL, images TEXT NULL, links TEXT NULL, custom_details TEXT NULL, details TEXT NULL)"@,
        r@[1].marker@ == "mig_2"@,
        r@[1].statements@.len() == 2,
        r@[1].statements@[0]@ == "ALTER TABLE event_items RENAME COLUMN incident_key TO alert_key"@,
        r@[1].statements@[1]@ == "ALTER TABLE event_items ADD COLUMN inserted_at DATETIME DEFAULT(STRFTIME('%Y-%m-%d %H:%M:%f', 'NOW'))"@,
{
    let mut r: Vec<Migration> = Vec::new();
    r.push(Migration {
        marker: "mig_1",
        statements: vec!["CREATE TABLE event_items (id TEXT PRIMARY KEY, api_key TEXT NOT NULL, event_type TEXT NOT NULL, incident_key TEXT NULL, summary TEXT NOT NULL, created_at TEXT NOT NULL, priority TEXT NULL, images TEXT NULL, links TEXT NULL, custom_details TEXT NULL, details TEXT NULL)"],
    });
    r.push(Migration {
        marker: "mig_2",
        statements: vec![
            "ALTER TABLE event_items RENAME COLUMN incident_key TO alert_key",
            "ALTER TABLE event_items ADD COLUMN inserted_at DATETIME DEFAULT(STRFTIME('%Y-%m-%d %H:%M:%f', 'NOW'))",
        ],
    });
    r
}

/// The migrations to run, given for each (in order) whether its marker is
/// recorded: exactly the unrecorded ones, in order.
pub fn pending_migrations(recorded: &Vec<bool>) -> (r: Vec<usize>)
    ensures
        forall|j: int| 0 <= j < r@.len() ==> r@[j] < recorded@.len() && !recorded@[r@[j] as int],
        forall|j: int, k: int| 0 <= j < k < r@.len() ==> r@[j] < r@[k],
        forall|i: int| 0 <= i < recorded@.len() && !recorded@[i] ==> exists|j: int|
            0 <= j < r@.len() && r@[j] == i,
{
    let mut r: Vec<usize> = Vec::new();
    let n = recorded.len();
    let mut i: usize = 0;
    while i < n
        invariant
            0 <= i <= n,
            n == recorded@.len(),
            forall|j: int| 0 <= j < r@.len() ==> r@[j] < i && !recorded@[r@[j] as int],
            forall|j: int, k: int| 0 <= j < k < r@.len() ==> r@[j] < r@[k],
            forall|m: int| 0 <= m < i && !recorded@[m] ==> exists|j: int|
                0 <= j < r@.len() && r@[j] == m,
        decreases n - i,
    {
        let ghost before = r@;
        if !recorded[i] {
            r.push(i);
        }
        assert forall|m: int| 0 <= m < i + 1 && !recorded@[m] implies exists|j: int|
            0 <= j < r@.len() && r@[j] == m by {
            if m < i {
                let j = choose|j: int| 0 <= j < before.len() && before[j] == m;
                assert(r@[j] == m);
            } else {
                assert(r@[r@.len() - 1] == m);
            }
        }
        i = i + 1;
    }
    r
}

/// Relies on uuid::Uuid::new_v4 and its text form (`Display`, the
/// hyphenated form): a fresh random id of 36 characters.
#[verifier::external_body]
fn new_event_id() -> (r: String)
    ensures
        r@.len() == 36,
{
    uuid::Uuid::new_v4().to_string()
}

/// Relies on chrono::Utc::now and its text form: the current time.
/// Nothing is assumed of it.
#[verifier::external_body]
fn now_text() -> (r: String) {
    chrono::Utc::now().to_string()
}

/// The row as inserted: the given id and creation time are kept, the
/// missing ones are `fresh_id` and `now`.
pub fn prepare_insert(item: EventQueueItem, fresh_id: String, now: String) -> (r: EventQueueItem)
    ensures
        r == (EventQueueItem {
            id: Some(match item.id {
                Some(i) => i,
                None => fresh_id,
            }),
            created_at: Some(match item.created_at {
                Some(c) => c,
                None => now,
            }),
            ..item
        }),
{
    let mut r = item;
    if r.id.is_none() {
        r.id = Some(fresh_id);
    }
    if r.created_at.is_none() {
        r.created_at = Some(now);
    }
    r
}

/// The row about to be inserted: a fresh random id and the current time
/// fill in whichever of the two is missing; every other field is kept.
pub fn prepare_new_event(item: EventQueueItem) -> (r: EventQueueItem)
    ensures
        r.id is Some,
        r.created_at is Some,
        item.id is Some ==> r.id == item.id,
        item.id is None ==> r.id->0@.len() == 36,
        item.created_at is Some ==> r.created_at == item.created_at,
        r == (EventQueueItem { id: r.id, created_at: r.created_at, ..item }),
{
    let fresh_id = if item.id.is_none() {
        new_event_id()
    } else {
        String::new()
    };
    let now = if item.created_at.is_none() {
        now_text()
    } else {
        String::new()
    };
    prepare_insert(item, fresh_id, now)
}

pub open spec fn text_or(c: Option<String>, default: Seq<char>) -> Seq<char> {
    match c {
        Some(s) => s@,
        None => default,
    }
}

impl EventQueueItem {
    /// A row from its columns in the stored order; a missing key or summary
    /// reads as empty and a missing event type as an alert.
    pub fn from_columns(
        id: Option<String>,
        api_key: Option<String>,
        event_type: Option<String>,
        alert_key: Option<String>,
        summary: Option<String>,
        created_at: Option<String>,
        priority: Option<String>,
        images: Option<String>,
        links: Option<String>,
        custom_details: Option<String>,
        details: Option<String>,
    ) -> (r: EventQueueItem)
        ensures
            r.id == id,
            r.api_key@ == text_or(api_key, Seq::empty()),
            r.event_type@ == text_or(event_type, EventType::Alert.spec_text()),
            r.alert_key == alert_key,
            r.summary@ == text_or(summary, Seq::empty()),
            r.created_at == created_at,
            r.priority == priority,
            r.images == images,
            r.links == links,
            r.custom_details == custom_details,
            r.details == details,
            r.event_api_path is None,
    {
        EventQueueItem {
            id,
            api_key: match api_key {
                Some(s) => s,
                None => String::new(),
            },
            event_type: match event_type {
                Some(s) => s,
                None => String::from_str(EventType::Alert.as_str()),
            },
            alert_key,
            summary: match summary {
                Some(s) => s,
                None => String::new(),
            },
            details,
            created_at,
            priority,
            images,
            links,
            custom_details,
            event_api_path: None,
        }
    }
}

} // verus!
