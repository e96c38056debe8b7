use ilagent::event::EventQueueItem;
use ilagent::mapper::EventQueueItemJson;
use ilagent::store::{
    migrations, pending_migrations, prepare_new_event, CREATE_META_TABLE, DB_MIGRATION_VAL, DELETE_EVENT, INSERT_EVENT,
    INSERT_META, SELECT_EVENT, SELECT_EVENTS, SELECT_META,
};
use rusqlite::types::ToSql;
use rusqlite::Connection;

fn migrated() -> Connection {
    let conn = Connection::open_in_memory().unwrap();
    conn.execute(CREATE_META_TABLE, []).unwrap();
    let all = migrations();
    let recorded: Vec<bool> = all
        .iter()
        .map(|m| conn.query_row(SELECT_META, [m.marker], |r| r.get::<_, String>(0)).is_ok())
        .collect();
    for i in pending_migrations(&recorded) {
        for statement in all[i].statements.iter() {
            conn.execute(statement, []).unwrap();
        }
        conn.execute(INSERT_META, [all[i].marker, DB_MIGRATION_VAL, "now"]).unwrap();
    }
    conn
}

fn insert(conn: &Connection, item: &EventQueueItem) -> rusqlite::Result<String> {
    let row = prepare_new_event(item.clone());
    conn.execute(
        INSERT_EVENT,
        [
            &row.api_key as &dyn ToSql,
            &row.event_type,
            &row.alert_key,
            &row.summary,
            &row.created_at,
            &row.id,
            &row.priority,
            &row.images,
            &row.links,
            &row.custom_details,
            &row.details,
        ],
    )?;
    Ok(row.id.unwrap())
}

fn read(conn: &Connection, sql: &str, param: &dyn ToSql) -> Vec<EventQueueItem> {
    let mut stmt = conn.prepare(sql).unwrap();
    let rows = stmt
        .query_map([param], |row| {
            Ok(EventQueueItem::from_columns(
                row.get(0)?,
                row.get(1)?,
                row.get(2)?,
                row.get(3)?,
                row.get(4)?,
                row.get(5)?,
                row.get(6)?,
                row.get(7)?,
                row.get(8)?,
                row.get(9)?,
                row.get(10)?,
            ))
        })
        .unwrap();
    rows.map(|r| r.unwrap()).collect()
}

/// Lets the insertion clock, which counts milliseconds, move on.
fn pause() {
    let start = std::time::Instant::now();
    while start.elapsed() < std::time::Duration::from_millis(5) {}
}

fn event(summary: &str) -> EventQueueItem {
    EventQueueItem::new_with_required("K", "ALERT", summary, None)
}

#[test]
fn migrations_run_once() {
    let conn = migrated();
    let recorded: Vec<bool> = migrations()
        .iter()
        .map(|m| conn.query_row(SELECT_META, [m.marker], |r| r.get::<_, String>(0)).is_ok())
        .collect();
    assert_eq!(recorded, vec![true, true]);
    assert!(pending_migrations(&recorded).is_empty());
}

#[test]
fn accepted_event_is_stored_under_its_id() {
    let conn = migrated();
    let posted = EventQueueItemJson {
        apiKey: "K".to_string(),
        eventType: "ALERT".to_string(),
        summary: "disk full".to_string(),
        details: None,
        alertKey: None,
        priority: None,
        images: None,
        links: None,
        customDetails: None,
    };
    let id = insert(&conn, &EventQueueItemJson::to_db(posted, None)).unwrap();
    let stored = read(&conn, SELECT_EVENT, &id);
    assert_eq!(stored.len(), 1);
    assert_eq!(stored[0].id.as_deref(), Some(id.as_str()));
    assert_eq!(stored[0].summary, "disk full");
    let echoed = EventQueueItemJson::from_db(stored[0].clone());
    assert_eq!(echoed.apiKey, "K");
    assert_eq!(echoed.eventType, "ALERT");
    conn.execute(DELETE_EVENT, [&id]).unwrap();
    assert!(read(&conn, SELECT_EVENTS, &20).is_empty());
}

#[test]
fn duplicate_id_is_refused() {
    let conn = migrated();
    let mut e = event("a");
    e.id = Some("same".to_string());
    assert!(insert(&conn, &e).is_ok());
    assert!(insert(&conn, &e).is_err());
    assert_eq!(read(&conn, SELECT_EVENTS, &20).len(), 1);
}

#[test]
fn fetch_returns_insertion_order_until_deleted() {
    let conn = migrated();
    let first = insert(&conn, &event("first")).unwrap();
    pause();
    let second = insert(&conn, &event("second")).unwrap();
    pause();
    let third = insert(&conn, &event("third")).unwrap();
    let ids: Vec<String> = read(&conn, SELECT_EVENTS, &20).into_iter().map(|e| e.id.unwrap()).collect();
    assert_eq!(ids, vec![first.clone(), second.clone(), third.clone()]);
    let two: Vec<String> = read(&conn, SELECT_EVENTS, &2).into_iter().map(|e| e.id.unwrap()).collect();
    assert_eq!(two, vec![first.clone(), second.clone()]);
    conn.execute(DELETE_EVENT, [&second]).unwrap();
    conn.execute(DELETE_EVENT, ["missing"]).unwrap();
    let ids: Vec<String> = read(&conn, SELECT_EVENTS, &20).into_iter().map(|e| e.id.unwrap()).collect();
    assert_eq!(ids, vec![first, third]);
}
