use hyprnotes::stamp::current_timestamp;
use hyprnotes::store::{
    delete_note, get_all_notes, get_note_by_id, insert_note, map_row_to_note, note_id,
    notes_from_rows, setup_memory_db, update_note, StoreError,
};

fn is_stamp(s: &str) -> bool {
    let b = s.as_bytes();
    if b.len() != 19 {
        return false;
    }
    for (i, c) in b.iter().enumerate() {
        let ok = match i {
            4 | 7 => *c == b'-',
            10 => *c == b' ',
            13 | 16 => *c == b':',
            _ => c.is_ascii_digit(),
        };
        if !ok {
            return false;
        }
    }
    true
}

#[test]
fn round_trip_insert_then_get() {
    let mut conn = setup_memory_db().unwrap();
    let id = insert_note(&mut conn, "Groceries", "milk, eggs").unwrap();
    let note = get_note_by_id(&conn, id).unwrap();
    assert_eq!(note.id, id);
    assert_eq!(note.title, "Groceries");
    assert_eq!(note.content, "milk, eggs");
    assert!(!note.date.is_empty());
    assert!(is_stamp(&note.date), "bad date {:?}", note.date);
}

#[test]
fn round_trip_keeps_empty_and_unicode_text() {
    let mut conn = setup_memory_db().unwrap();
    let a = insert_note(&mut conn, "", "").unwrap();
    let b = insert_note(&mut conn, "Über café ✓", "line one\nline two").unwrap();
    let na = get_note_by_id(&conn, a).unwrap();
    assert_eq!(na.title, "");
    assert_eq!(na.content, "");
    let nb = get_note_by_id(&conn, b).unwrap();
    assert_eq!(nb.title, "Über café ✓");
    assert_eq!(nb.content, "line one\nline two");
}

#[test]
fn first_note_gets_id_one() {
    let mut conn = setup_memory_db().unwrap();
    assert_eq!(insert_note(&mut conn, "a", "b").unwrap(), 1);
    assert_eq!(insert_note(&mut conn, "c", "d").unwrap(), 2);
}

#[test]
fn list_is_newest_first() {
    let mut conn = setup_memory_db().unwrap();
    let a = insert_note(&mut conn, "A", "first").unwrap();
    let b = insert_note(&mut conn, "B", "second").unwrap();
    let c = insert_note(&mut conn, "C", "third").unwrap();
    let all = get_all_notes(&conn).unwrap();
    let ids: Vec<i32> = all.iter().map(|n| n.id).collect();
    assert_eq!(ids, vec![c, b, a]);
    let titles: Vec<&str> = all.iter().map(|n| n.title.as_str()).collect();
    assert_eq!(titles, vec!["C", "B", "A"]);
    assert_eq!(all[2].content, "first");
}

#[test]
fn update_keeps_date() {
    let mut conn = setup_memory_db().unwrap();
    let id = insert_note(&mut conn, "Old", "old body").unwrap();
    let before = get_note_by_id(&conn, id).unwrap();
    update_note(&mut conn, id, "New", "new body").unwrap();
    let after = get_note_by_id(&conn, id).unwrap();
    assert_eq!(after.title, "New");
    assert_eq!(after.content, "new body");
    assert_eq!(after.date, before.date);
    assert_eq!(get_all_notes(&conn).unwrap().len(), 1);
}

#[test]
fn update_touches_only_its_row() {
    let mut conn = setup_memory_db().unwrap();
    let a = insert_note(&mut conn, "A", "a").unwrap();
    let b = insert_note(&mut conn, "B", "b").unwrap();
    update_note(&mut conn, a, "A2", "a2").unwrap();
    let nb = get_note_by_id(&conn, b).unwrap();
    assert_eq!(nb.title, "B");
    assert_eq!(nb.content, "b");
}

#[test]
fn delete_twice_is_no_error() {
    let mut conn = setup_memory_db().unwrap();
    let a = insert_note(&mut conn, "A", "a").unwrap();
    let b = insert_note(&mut conn, "B", "b").unwrap();
    assert_eq!(delete_note(&mut conn, a), Ok(()));
    let ids: Vec<i32> = get_all_notes(&conn).unwrap().iter().map(|n| n.id).collect();
    assert_eq!(ids, vec![b]);
    assert_eq!(delete_note(&mut conn, a), Ok(()));
    let ids: Vec<i32> = get_all_notes(&conn).unwrap().iter().map(|n| n.id).collect();
    assert_eq!(ids, vec![b]);
    assert_eq!(get_note_by_id(&conn, a).unwrap_err(), StoreError::NotFound);
}

#[test]
fn missing_id_is_not_found() {
    let mut conn = setup_memory_db().unwrap();
    insert_note(&mut conn, "A", "a").unwrap();
    assert_eq!(get_note_by_id(&conn, 99).unwrap_err(), StoreError::NotFound);
    assert_eq!(update_note(&mut conn, 99, "x", "y"), Ok(()));
    assert_eq!(delete_note(&mut conn, 99), Ok(()));
    let all = get_all_notes(&conn).unwrap();
    assert_eq!(all.len(), 1);
    assert_eq!(all[0].title, "A");
    assert_eq!(get_note_by_id(&conn, 99).unwrap_err(), StoreError::NotFound);
}

#[test]
fn empty_table_lists_nothing() {
    let conn = setup_memory_db().unwrap();
    assert!(get_all_notes(&conn).unwrap().is_empty());
}

#[test]
fn delete_all_leaves_empty_list() {
    let mut conn = setup_memory_db().unwrap();
    let a = insert_note(&mut conn, "A", "a").unwrap();
    delete_note(&mut conn, a).unwrap();
    assert!(get_all_notes(&conn).unwrap().is_empty());
}

#[test]
fn row_with_small_id_becomes_note() {
    let n = map_row_to_note(7, "t".to_string(), "c".to_string(), "2024-01-02 03:04:05".to_string())
        .unwrap();
    assert_eq!(n.id, 7);
    assert_eq!(n.title, "t");
    assert_eq!(n.content, "c");
    assert_eq!(n.date, "2024-01-02 03:04:05");
    assert_eq!(map_row_to_note(-2147483648, String::new(), String::new(), String::new()).unwrap().id, i32::MIN);
}

#[test]
fn row_with_large_id_is_refused() {
    assert!(map_row_to_note(2147483648, String::new(), String::new(), String::new()).is_none());
    assert!(map_row_to_note(-2147483649, String::new(), String::new(), String::new()).is_none());
    assert!(map_row_to_note(i64::MAX, String::new(), String::new(), String::new()).is_none());
}

#[test]
fn note_id_keeps_ids_in_range() {
    assert_eq!(note_id(1), Ok(1));
    assert_eq!(note_id(2147483647), Ok(i32::MAX));
    assert_eq!(note_id(-2147483648), Ok(i32::MIN));
    assert_eq!(note_id(2147483648), Err(StoreError::Storage));
    assert_eq!(note_id(i64::MIN), Err(StoreError::Storage));
}

#[test]
fn rows_become_notes_in_order() {
    let rows = vec![
        (5, "five".to_string(), "c5".to_string(), "d5".to_string()),
        (2, "two".to_string(), "c2".to_string(), "d2".to_string()),
    ];
    let notes = notes_from_rows(rows).unwrap();
    assert_eq!(notes.len(), 2);
    assert_eq!((notes[0].id, notes[0].title.as_str(), notes[0].content.as_str(), notes[0].date.as_str()), (5, "five", "c5", "d5"));
    assert_eq!((notes[1].id, notes[1].title.as_str(), notes[1].content.as_str(), notes[1].date.as_str()), (2, "two", "c2", "d2"));
    assert_eq!(notes_from_rows(Vec::new()).unwrap().len(), 0);
}

#[test]
fn row_out_of_range_fails_whole_read() {
    let rows = vec![
        (5, "five".to_string(), String::new(), String::new()),
        (3000000000, "big".to_string(), String::new(), String::new()),
    ];
    assert!(notes_from_rows(rows).is_none());
}

#[test]
fn clock_gives_well_formed_stamp() {
    let stamp = current_timestamp().unwrap();
    assert!(is_stamp(&stamp), "bad stamp {:?}", stamp);
    let month: u32 = stamp[5..7].parse().unwrap();
    assert!((1..=12).contains(&month));
}
