//! The notes table: one SQLite table of notes, and the operations on it.
//!
//! The rows that a connection's database holds are modelled by `notes_in`, a
//! map from id to title, content and date. Every operation states how it
//! reads or changes that map. The model assumes that the connection is the
//! only writer of its database while it is in use, and that the table
//! `notes`, where it already exists, has the schema that this module creates
//! (ids unique, as the table's primary key).
use vstd::prelude::*;
use crate::stamp::{is_timestamp_text, current_timestamp};

verus! {

#[verifier::external_type_specification]
#[verifier::external_body]
pub struct ExConnection(rusqlite::Connection);

#[verifier::external_type_specification]
#[verifier::external_body]
pub struct ExSqlError(rusqlite::Error);

#[verifier::external_type_specification]
#[verifier::external_body]
pub struct ExPathBuf(std::path::PathBuf);

/// Title, content and date of one stored row.
pub type RowView = (Seq<char>, Seq<char>, Seq<char>);

/// The rows of the table `notes` in the connection's database, by id; empty
/// while the table does not exist.
pub uninterp spec fn notes_in(c: rusqlite::Connection) -> Map<i64, (Seq<char>, Seq<char>, Seq<char>)>;

/// The database holds a table `notes`.
pub uninterp spec fn has_notes_table(c: rusqlite::Connection) -> bool;

/// The table holds exactly `before` with one new row `row` under `id`, and
/// the new id is above every earlier one unless an id had already reached
/// the largest value.
pub open spec fn inserted(before: Map<i64, RowView>, after: Map<i64, RowView>, id: i64, row: RowView) -> bool {
    &&& !before.contains_key(id)
    &&& after == before.insert(id, row)
    &&& (forall|k: i64| #[trigger] before.contains_key(k) ==> k < i64::MAX)
        ==> (forall|k: i64| #[trigger] before.contains_key(k) ==> k < id)
}

/// The table after title and content of row `id` were set; its date stays,
/// and a missing id leaves the table as it was.
pub open spec fn updated(before: Map<i64, RowView>, id: i64, title: Seq<char>, content: Seq<char>) -> Map<i64, RowView> {
    if before.contains_key(id) {
        before.insert(id, (title, content, before[id].2))
    } else {
        before
    }
}

/// `rows` holds every row of `table` once, as (id, title, content, date),
/// ordered by id from the largest down.
pub open spec fn lists_rows(rows: Seq<(i64, String, String, String)>, table: Map<i64, RowView>) -> bool {
    &&& forall|i: int, j: int| 0 <= i < j < rows.len() ==> rows[i].0 > rows[j].0
    &&& forall|i: int| 0 <= i < rows.len() ==> #[trigger] table.contains_key(rows[i].0)
        && table[rows[i].0] == (rows[i].1@, rows[i].2@, rows[i].3@)
    &&& forall|k: i64| #[trigger] table.contains_key(k) ==> exists|i: int| 0 <= i < rows.len() && rows[i].0 == k
}

/// Relies on `rusqlite::Connection::open`: opens or creates the database
/// file at `path`. What the file already holds is not known here, only that
/// it is finitely many rows.
#[verifier::external_body]
fn open_file(path: &std::path::PathBuf) -> (r: Result<rusqlite::Connection, rusqlite::Error>)
    ensures
        r is Ok ==> notes_in(r->Ok_0).dom().finite(),
{
    rusqlite::Connection::open(path)
}

/// Relies on `rusqlite::Connection::open_in_memory`: a new in-memory
/// database, which holds no table.
#[verifier::external_body]
fn open_memory() -> (r: Result<rusqlite::Connection, rusqlite::Error>)
    ensures
        r is Ok ==> notes_in(r->Ok_0).dom().is_empty(),
{
    rusqlite::Connection::open_in_memory()
}

/// Relies on `rusqlite::Connection::execute` with
/// `CREATE TABLE IF NOT EXISTS notes (...)`: it creates the empty table where
/// it is missing and never touches the rows of an existing one.
#[verifier::external_body]
fn create_table(c: &mut rusqlite::Connection) -> (r: Result<usize, rusqlite::Error>)
    ensures
        notes_in(*final(c)) == notes_in(*old(c)),
        r is Ok ==> has_notes_table(*final(c)),
{
    c.execute(
        "CREATE TABLE IF NOT EXISTS notes (
            id      INTEGER PRIMARY KEY,
            title   TEXT NOT NULL,
            content TEXT NOT NULL,
            date    TEXT NOT NULL
        )",
        [],
    )
}

/// Relies on `rusqlite::Connection::execute` with `INSERT INTO notes ...`,
/// which is `Ok` only where the statement ran to completion (and, outside a
/// transaction, committed), and on `Connection::last_insert_rowid`, the id of
/// that insert. SQLite gives a row inserted without an id one more than the
/// largest id in the table, and picks an unused id only once that largest id
/// is `i64::MAX`. A failed statement is rolled back.
#[verifier::external_body]
fn insert_row(c: &mut rusqlite::Connection, title: &str, content: &str, date: &str) -> (r: Result<i64, rusqlite::Error>)
    ensures
        r is Ok ==> inserted(notes_in(*old(c)), notes_in(*final(c)), r->Ok_0, (title@, content@, date@)),
        r is Err ==> notes_in(*final(c)) == notes_in(*old(c)),
{
    c.execute("INSERT INTO notes (title, content, date) VALUES (?1, ?2, ?3)", (title, content, date))?;
    Ok(c.last_insert_rowid())
}

/// Relies on `rusqlite::Connection::prepare` and `Statement::query_map` with
/// `SELECT id, title, content, date FROM notes ORDER BY id DESC`: each row
/// once, largest id first, each taken as it is stored.
#[verifier::external_body]
fn select_all(c: &rusqlite::Connection) -> (r: Result<Vec<(i64, String, String, String)>, rusqlite::Error>)
    ensures
        r is Ok ==> lists_rows(r->Ok_0@, notes_in(*c)),
{
    let mut stmt = c.prepare("SELECT id, title, content, date FROM notes ORDER BY id DESC")?;
    let rows = stmt.query_map([], |row| Ok((row.get(0)?, row.get(1)?, row.get(2)?, row.get(3)?)))?;
    rows.collect()
}

/// Relies on `rusqlite::Connection::query_row` with
/// `SELECT title, content, date FROM notes WHERE id = ?1`, and on
/// `OptionalExtension::optional`, which turns the error for no row into
/// `Ok(None)`.
#[verifier::external_body]
fn select_one(c: &rusqlite::Connection, id: i64) -> (r: Result<Option<(String, String, String)>, rusqlite::Error>)
    ensures
        r matches Ok(Some(row)) ==> notes_in(*c).contains_key(id) && notes_in(*c)[id] == (row.0@, row.1@, row.2@),
        r matches Ok(None) ==> !notes_in(*c).contains_key(id),
{
    rusqlite::OptionalExtension::optional(c.query_row(
        "SELECT title, content, date FROM notes WHERE id = ?1",
        [id],
        |row| Ok((row.get(0)?, row.get(1)?, row.get(2)?)),
    ))
}

/// Relies on `rusqlite::Connection::execute` with
/// `UPDATE notes SET title = ?1, content = ?2 WHERE id = ?3`: only the row
/// with that id changes, and only in title and content. A failed statement
/// is rolled back.
#[verifier::external_body]
fn update_row(c: &mut rusqlite::Connection, id: i64, title: &str, content: &str) -> (r: Result<usize, rusqlite::Error>)
    ensures
        r is Ok ==> notes_in(*final(c)) == updated(notes_in(*old(c)), id, title@, content@),
        r is Err ==> notes_in(*final(c)) == notes_in(*old(c)),
{
    c.execute("UPDATE notes SET title = ?1, content = ?2 WHERE id = ?3", (title, content, id))
}

/// Relies on `rusqlite::Connection::execute` with
/// `DELETE FROM notes WHERE id = ?1`: only the row with that id goes. A
/// failed statement is rolled back.
#[verifier::external_body]
fn delete_row(c: &mut rusqlite::Connection, id: i64) -> (r: Result<usize, rusqlite::Error>)
    ensures
        r is Ok ==> notes_in(*final(c)) == notes_in(*old(c)).remove(id),
        r is Err ==> notes_in(*final(c)) == notes_in(*old(c)),
{
    c.execute("DELETE FROM notes WHERE id = ?1", [id])
}

/// One stored note.
#[derive(Debug)]
pub struct Note {
    pub id: i32,
    pub title: String,
    pub content: String,
    pub date: String,
}

/// What can go wrong with the store.
#[derive(Debug, Clone, Copy, PartialEq, Eq, Structural)]
pub enum StoreError {
    /// The database could not be opened or its table created.
    Startup,
    /// No row has the id asked for.
    NotFound,
    /// Any other fault of the database while reading or writing.
    Storage,
    /// The clock could not give the current local time.
    Clock,
}

/// The note matches the row that `table` holds under its id.
pub open spec fn note_in(table: Map<i64, RowView>, n: Note) -> bool {
    &&& table.contains_key(n.id as i64)
    &&& table[n.id as i64] == (n.title@, n.content@, n.date@)
}

/// `notes` holds every row of `table` once, ordered by id from the largest
/// down.
pub open spec fn lists_notes(notes: Seq<Note>, table: Map<i64, RowView>) -> bool {
    &&& forall|i: int, j: int| 0 <= i < j < notes.len() ==> notes[i].id > notes[j].id
    &&& forall|i: int| 0 <= i < notes.len() ==> #[trigger] note_in(table, notes[i])
    &&& forall|k: i64| #[trigger] table.contains_key(k) ==> exists|i: int| 0 <= i < notes.len() && notes[i].id as i64 == k
}

/// `after` is `before` with one new row under `id`, holding `title` and
/// `content` and a well-formed creation timestamp; the new id is above every
/// earlier one unless an id had already reached the largest value.
pub open spec fn note_added(before: Map<i64, RowView>, after: Map<i64, RowView>, id: i64, title: Seq<char>, content: Seq<char>) -> bool {
    &&& !before.contains_key(id)
    &&& after.contains_key(id)
    &&& after.remove(id) == before
    &&& after[id].0 == title
    &&& after[id].1 == content
    &&& is_timestamp_text(after[id].2)
    &&& (forall|k: i64| #[trigger] before.contains_key(k) ==> k < i64::MAX)
        ==> (forall|k: i64| #[trigger] before.contains_key(k) ==> k < id)
}

/// Creates the table `notes` where it is missing; its rows stay as they were.
fn create_notes_table(c: &mut rusqlite::Connection) -> (r: Result<(), StoreError>)
    ensures
        notes_in(*final(c)) == notes_in(*old(c)),
        r is Ok ==> has_notes_table(*final(c)),
        r is Err ==> r->Err_0 == StoreError::Startup,
{
    match create_table(c) {
        Ok(_) => Ok(()),
        Err(_) => Err(StoreError::Startup),
    }
}

/// Opens (or creates) the database file at `path` and makes sure that the
/// table `notes` exists. The contracts of this module hold while the
/// returned connection is the only one that writes the file.
pub fn setup_db(path: &std::path::PathBuf) -> (r: Result<rusqlite::Connection, StoreError>)
    ensures
        r is Ok ==> notes_in(r->Ok_0).dom().finite() && has_notes_table(r->Ok_0),
        r is Err ==> r->Err_0 == StoreError::Startup,
{
    let mut conn = match open_file(path) {
        Ok(c) => c,
        Err(_) => return Err(StoreError::Startup),
    };
    match create_notes_table(&mut conn) {
        Ok(()) => Ok(conn),
        Err(e) => Err(e),
    }
}

/// Opens a fresh database in memory with an empty table `notes`.
pub fn setup_memory_db() -> (r: Result<rusqlite::Connection, StoreError>)
    ensures
        r is Ok ==> notes_in(r->Ok_0) == Map::<i64, RowView>::empty() && has_notes_table(r->Ok_0),
        r is Err ==> r->Err_0 == StoreError::Startup,
{
    let mut conn = match open_memory() {
        Ok(c) => c,
        Err(_) => return Err(StoreError::Startup),
    };
    match create_notes_table(&mut conn) {
        Ok(()) => {
            assert(notes_in(conn) =~= Map::<i64, RowView>::empty());
            Ok(conn)
        },
        Err(e) => Err(e),
    }
}

/// Turns one row as read from the table into a note: `None` where its id
/// does not fit an `i32`.
pub fn map_row_to_note(id: i64, title: String, content: String, date: String) -> (r: Option<Note>)
    ensures
        r is Some <==> i32::MIN <= id <= i32::MAX,
        r is Some ==> r->Some_0.id as i64 == id && r->Some_0.title == title
            && r->Some_0.content == content && r->Some_0.date == date,
{
    if id < i32::MIN as i64 || id > i32::MAX as i64 {
        None
    } else {
        Some(Note { id: id as i32, title, content, date })
    }
}

/// The id of a stored row as a note's id: a storage error where it does not
/// fit an `i32`.
pub fn note_id(id: i64) -> (r: Result<i32, StoreError>)
    ensures
        i32::MIN <= id <= i32::MAX ==> r == Ok::<i32, StoreError>(id as i32),
        !(i32::MIN <= id <= i32::MAX) ==> r == Err::<i32, StoreError>(StoreError::Storage),
{
    if id < i32::MIN as i64 || id > i32::MAX as i64 {
        Err(StoreError::Storage)
    } else {
        Ok(id as i32)
    }
}

/// `after` is `before` with one new row for this title and content, under
/// an id that does not fit an `i32`.
pub open spec fn added_out_of_range(before: Map<i64, RowView>, after: Map<i64, RowView>, title: Seq<char>, content: Seq<char>) -> bool {
    exists|id: i64| !(i32::MIN <= id <= i32::MAX) && #[trigger] note_added(before, after, id, title, content)
}

/// Adds a note with this title and content, stamped with the current local
/// time, and returns its id. Where the clock gives no time nothing is
/// stored. On failure the table is as it was, except where
/// the database gave the row an id that does not fit an `i32`: that row
/// stays, and cannot be read as a note.
pub fn insert_note(conn: &mut rusqlite::Connection, title: &str, content: &str) -> (r: Result<i32, StoreError>)
    ensures
        r is Ok ==> note_added(notes_in(*old(conn)), notes_in(*final(conn)), r->Ok_0 as i64, title@, content@),
        r is Err ==> r->Err_0 == StoreError::Storage || r->Err_0 == StoreError::Clock,
        r matches Err(e) && e == StoreError::Clock ==> *final(conn) == *old(conn),
        r is Err ==> notes_in(*final(conn)) == notes_in(*old(conn))
            || added_out_of_range(notes_in(*old(conn)), notes_in(*final(conn)), title@, content@),
{
    let date = match current_timestamp() {
        Some(d) => d,
        None => return Err(StoreError::Clock),
    };
    match insert_row(conn, title, content, date.as_str()) {
        Ok(id) => {
            proof {
                let before = notes_in(*old(conn));
                assert(before.insert(id, (title@, content@, date@)).remove(id) =~= before);
                assert(note_added(before, notes_in(*conn), id, title@, content@));
            }
            note_id(id)
        },
        Err(_) => Err(StoreError::Storage),
    }
}

/// The rows as read from the table, turned into notes in the same order:
/// `None` where some id does not fit an `i32`.
pub fn notes_from_rows(rows: Vec<(i64, String, String, String)>) -> (r: Option<Vec<Note>>)
    ensures
        r is Some <==> forall|i: int| 0 <= i < rows@.len() ==> i32::MIN <= #[trigger] rows@[i].0 <= i32::MAX,
        r is Some ==> r->Some_0@.len() == rows@.len() && forall|i: int| 0 <= i < rows@.len() ==>
            (#[trigger] r->Some_0@[i]).id as i64 == rows@[i].0 && r->Some_0@[i].title == rows@[i].1
            && r->Some_0@[i].content == rows@[i].2 && r->Some_0@[i].date == rows@[i].3,
{
    let mut notes: Vec<Note> = Vec::new();
    let mut i: usize = 0;
    while i < rows.len()
        invariant
            i <= rows@.len(),
            notes@.len() == i,
            forall|j: int| 0 <= j < i ==> i32::MIN <= #[trigger] rows@[j].0 <= i32::MAX,
            forall|j: int| 0 <= j < i ==> (#[trigger] notes@[j]).id as i64 == rows@[j].0 && notes@[j].title == rows@[j].1
                && notes@[j].content == rows@[j].2 && notes@[j].date == rows@[j].3,
        decreases rows@.len() - i,
    {
        let row = &rows[i];
        match map_row_to_note(row.0, row.1.clone(), row.2.clone(), row.3.clone()) {
            Some(n) => notes.push(n),
            None => return None,
        }
        i = i + 1;
    }
    Some(notes)
}

/// Every note, the most recently created (largest id) first. A row whose id
/// does not fit an `i32` makes the read fail.
pub fn get_all_notes(conn: &rusqlite::Connection) -> (r: Result<Vec<Note>, StoreError>)
    ensures
        r is Ok ==> lists_notes(r->Ok_0@, notes_in(*conn)),
        r is Err ==> r->Err_0 == StoreError::Storage,
        (exists|k: i64| #[trigger] notes_in(*conn).contains_key(k) && !(i32::MIN <= k <= i32::MAX)) ==> r is Err,
{
    let rows = match select_all(conn) {
        Ok(rows) => rows,
        Err(_) => return Err(StoreError::Storage),
    };
    let ghost table = notes_in(*conn);
    let ghost rs = rows@;
    proof {
        if exists|k: i64| #[trigger] table.contains_key(k) && !(i32::MIN <= k <= i32::MAX) {
            let k = choose|k: i64| #[trigger] table.contains_key(k) && !(i32::MIN <= k <= i32::MAX);
            let i = choose|i: int| 0 <= i < rs.len() && rs[i].0 == k;
            assert(!(i32::MIN <= rs[i].0 <= i32::MAX));
        }
    }
    match notes_from_rows(rows) {
        Some(notes) => {
            proof {
                assert forall|a: int, b: int| 0 <= a < b < notes.len() implies notes@[a].id > notes@[b].id by {
                    assert(rs[a].0 > rs[b].0);
                    assert(notes@[a].id as i64 == rs[a].0);
                    assert(notes@[b].id as i64 == rs[b].0);
                }
                assert forall|a: int| 0 <= a < notes.len() implies #[trigger] note_in(table, notes@[a]) by {
                    assert(notes@[a].id as i64 == rs[a].0);
                    assert(table.contains_key(rs[a].0));
                }
                assert forall|k: i64| #[trigger] table.contains_key(k) implies exists|j: int| 0 <= j < notes.len() && notes@[j].id as i64 == k by {
                    let j = choose|j: int| 0 <= j < rs.len() && rs[j].0 == k;
                    assert(notes@[j].id as i64 == rs[j].0);
                }
            }
            Ok(notes)
        },
        None => Err(StoreError::Storage),
    }
}

/// The note with this id, or `NotFound` where there is none.
pub fn get_note_by_id(conn: &rusqlite::Connection, id: i32) -> (r: Result<Note, StoreError>)
    ensures
        r is Ok ==> r->Ok_0.id == id && note_in(notes_in(*conn), r->Ok_0),
        !notes_in(*conn).contains_key(id as i64) ==> r is Err,
        r matches Err(e) && e == StoreError::NotFound ==> !notes_in(*conn).contains_key(id as i64),
        r is Err ==> r->Err_0 != StoreError::Startup,
{
    match select_one(conn, id as i64) {
        Ok(Some((title, content, date))) => Ok(Note { id, title, content, date }),
        Ok(None) => Err(StoreError::NotFound),
        Err(_) => Err(StoreError::Storage),
    }
}

/// Sets title and content of the note with this id; its date stays. An id
/// with no note leaves the table as it is and is no error.
pub fn update_note(conn: &mut rusqlite::Connection, id: i32, title: &str, content: &str) -> (r: Result<(), StoreError>)
    ensures
        r is Ok ==> notes_in(*final(conn)) == updated(notes_in(*old(conn)), id as i64, title@, content@),
        r is Err ==> r->Err_0 == StoreError::Storage && notes_in(*final(conn)) == notes_in(*old(conn)),
{
    match update_row(conn, id as i64, title, content) {
        Ok(_) => Ok(()),
        Err(_) => Err(StoreError::Storage),
    }
}

/// Removes the note with this id. An id with no note leaves the table as it
/// is and is no error.
pub fn delete_note(conn: &mut rusqlite::Connection, id: i32) -> (r: Result<(), StoreError>)
    ensures
        r is Ok ==> notes_in(*final(conn)) == notes_in(*old(conn)).remove(id as i64),
        r is Err ==> r->Err_0 == StoreError::Storage && notes_in(*final(conn)) == notes_in(*old(conn)),
{
    match delete_row(conn, id as i64) {
        Ok(_) => Ok(()),
        Err(_) => Err(StoreError::Storage),
    }
}

} // verus!
