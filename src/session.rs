//! The editing session: which note, if any, the editor is working on, and
//! what each user action does to that choice and to the store.
use vstd::prelude::*;
use crate::stamp::all_digits;
use crate::store::{
    RowView, Note, StoreError, notes_in, note_in, note_added, added_out_of_range, updated,
    insert_note, get_all_notes, get_note_by_id, update_note, delete_note,
};

verus! {

/// The note the editor is working on.
#[derive(Debug, Clone, Copy, PartialEq, Eq, Structural)]
pub enum Selection {
    /// A new note that has not been saved yet.
    Unselected,
    /// The stored note with this id.
    Editing(i32),
}

/// The value of a string of decimal digits.
pub open spec fn digits_value(s: Seq<char>) -> int
    decreases s.len(),
{
    if s.len() == 0 {
        0
    } else {
        digits_value(s.drop_last()) * 10 + (s.last() as int - '0' as int)
    }
}

/// A decimal `i32`: an optional `+` or `-`, then at least one digit, with a
/// value in range; anything else is `None`.
pub open spec fn decimal_i32(s: Seq<char>) -> Option<i32> {
    let signed = s.len() > 0 && (s[0] == '-' || s[0] == '+');
    let body = if signed { s.subrange(1, s.len() as int) } else { s };
    let v = if s.len() > 0 && s[0] == '-' { -digits_value(body) } else { digits_value(body) };
    if body.len() > 0 && all_digits(body, 0, body.len() as int) && i32::MIN <= v <= i32::MAX {
        Some(v as i32)
    } else {
        None
    }
}

/// The id that a list entry named `name` stands for: none for an entry
/// without a name, and 0 for a name that is no decimal `i32`.
pub open spec fn entry_id(name: Seq<char>) -> Option<i32> {
    if name.len() == 0 {
        None
    } else {
        match decimal_i32(name) {
            Some(v) => Some(v),
            None => Some(0),
        }
    }
}

/// Relies on `str::parse::<i32>`: an optional `+` or `-` followed by decimal
/// digits, whose value fits an `i32`; any other text is an error.
#[verifier::external_body]
fn parse_i32(s: &str) -> (r: Option<i32>)
    ensures
        r == decimal_i32(s@),
{
    s.parse::<i32>().ok()
}

/// The id that the list entry named `name` stands for.
pub fn row_id(name: &str) -> (r: Option<i32>)
    ensures
        r == entry_id(name@),
{
    if name.unicode_len() == 0 {
        None
    } else {
        match parse_i32(name) {
            Some(v) => Some(v),
            None => Some(0),
        }
    }
}

/// Starts a new note: nothing is selected any more.
pub fn new_note(sel: &mut Selection)
    ensures
        *final(sel) == Selection::Unselected,
{
    *sel = Selection::Unselected;
}

/// The list entry named `name` was chosen: the note it stands for becomes the
/// selection, and is returned to fill the editor where it can be read. An
/// entry without a name changes nothing.
pub fn select_note(sel: &mut Selection, conn: &rusqlite::Connection, name: &str) -> (r: Option<Note>)
    ensures
        entry_id(name@) is None ==> *final(sel) == *old(sel) && r is None,
        entry_id(name@) matches Some(id) ==> *final(sel) == Selection::Editing(id),
        entry_id(name@) matches Some(id) ==> (!notes_in(*conn).contains_key(id as i64) ==> r is None),
        r is Some ==> entry_id(name@) == Some(r->Some_0.id) && note_in(notes_in(*conn), r->Some_0),
{
    let id = match row_id(name) {
        Some(id) => id,
        None => return None,
    };
    *sel = Selection::Editing(id);
    match get_note_by_id(conn, id) {
        Ok(note) => Some(note),
        Err(_) => None,
    }
}

/// Saves the editor's title and content: as a new note where nothing is
/// selected, else over the selected note. On success the selection is
/// cleared and the id of the saved note returned; on failure the selection
/// stays, and so does the table (but for a new row under an id that does not
/// fit an `i32`, which `insert_note` describes).
pub fn save_note(sel: &mut Selection, conn: &mut rusqlite::Connection, title: &str, content: &str) -> (r: Result<i32, StoreError>)
    ensures
        *old(sel) == Selection::Unselected && r is Ok ==>
            note_added(notes_in(*old(conn)), notes_in(*final(conn)), r->Ok_0 as i64, title@, content@),
        *old(sel) matches Selection::Editing(id) ==> (r is Ok ==> r->Ok_0 == id
            && notes_in(*final(conn)) == updated(notes_in(*old(conn)), id as i64, title@, content@)),
        r is Ok ==> *final(sel) == Selection::Unselected,
        r is Err ==> *final(sel) == *old(sel),
        r is Err && *old(sel) is Editing ==> r->Err_0 == StoreError::Storage,
        r is Err && *old(sel) is Unselected ==> r->Err_0 == StoreError::Storage || r->Err_0 == StoreError::Clock,
        r is Err && *old(sel) is Editing ==> notes_in(*final(conn)) == notes_in(*old(conn)),
        r is Err && *old(sel) is Unselected ==> notes_in(*final(conn)) == notes_in(*old(conn))
            || added_out_of_range(notes_in(*old(conn)), notes_in(*final(conn)), title@, content@),
{
    let res = match *sel {
        Selection::Editing(id) => match update_note(conn, id, title, content) {
            Ok(()) => Ok(id),
            Err(e) => Err(e),
        },
        Selection::Unselected => insert_note(conn, title, content),
    };
    if res.is_ok() {
        *sel = Selection::Unselected;
    }
    res
}

/// Deletes the selected note and clears the selection; returns whether a
/// note was deleted. Where nothing is selected nothing happens. On failure
/// the selection and the table stay as they were.
pub fn delete_selected(sel: &mut Selection, conn: &mut rusqlite::Connection) -> (r: Result<bool, StoreError>)
    ensures
        *old(sel) == Selection::Unselected ==> r == Ok::<bool, StoreError>(false)
            && *final(sel) == *old(sel) && *final(conn) == *old(conn),
        *old(sel) matches Selection::Editing(id) ==> (r is Ok ==> r->Ok_0
            && notes_in(*final(conn)) == notes_in(*old(conn)).remove(id as i64)
            && *final(sel) == Selection::Unselected),
        r is Err ==> *final(sel) == *old(sel) && r->Err_0 == StoreError::Storage
            && notes_in(*final(conn)) == notes_in(*old(conn)),
{
    match *sel {
        Selection::Unselected => Ok(false),
        Selection::Editing(id) => match delete_note(conn, id) {
            Ok(()) => {
                *sel = Selection::Unselected;
                Ok(true)
            },
            Err(e) => Err(e),
        },
    }
}

/// `entries` lists every row of `table` once as (id, title), ordered by id
/// from the largest down.
pub open spec fn lists_entries(entries: Seq<(i32, String)>, table: Map<i64, RowView>) -> bool {
    &&& forall|i: int, j: int| 0 <= i < j < entries.len() ==> entries[i].0 > entries[j].0
    &&& forall|i: int| 0 <= i < entries.len() ==> #[trigger] table.contains_key(entries[i].0 as i64)
        && table[entries[i].0 as i64].0 == entries[i].1@
    &&& forall|k: i64| #[trigger] table.contains_key(k) ==> exists|i: int| 0 <= i < entries.len() && entries[i].0 as i64 == k
}

/// The list entries for these notes: id and title of each, in the same order.
pub fn entries_of(notes: &Vec<Note>) -> (r: Vec<(i32, String)>)
    ensures
        r@.len() == notes@.len(),
        forall|i: int| 0 <= i < notes@.len() ==> #[trigger] r@[i] == (notes@[i].id, notes@[i].title),
{
    let mut r: Vec<(i32, String)> = Vec::new();
    let mut i: usize = 0;
    while i < notes.len()
        invariant
            i <= notes@.len(),
            r@.len() == i,
            forall|j: int| 0 <= j < i ==> #[trigger] r@[j] == (notes@[j].id, notes@[j].title),
        decreases notes@.len() - i,
    {
        r.push((notes[i].id, notes[i].title.clone()));
        i = i + 1;
    }
    r
}

/// The list entries for the outcome of reading all notes: their ids and
/// titles in order, or no entry at all where the read failed.
pub fn list_entries(read: Result<Vec<Note>, StoreError>) -> (r: Vec<(i32, String)>)
    ensures
        read is Err ==> r@.len() == 0,
        read is Ok ==> r@.len() == read->Ok_0@.len() && forall|i: int| 0 <= i < r@.len() ==>
            #[trigger] r@[i] == (read->Ok_0@[i].id, read->Ok_0@[i].title),
{
    match read {
        Ok(notes) => entries_of(&notes),
        Err(_) => Vec::new(),
    }
}

/// The entries of the note list, read afresh from the store: every note as
/// (id, title), largest id first; nothing where the store could not be read.
pub fn refresh_list(conn: &rusqlite::Connection) -> (r: Vec<(i32, String)>)
    ensures
        r@.len() == 0 || lists_entries(r@, notes_in(*conn)),
{
    let read = get_all_notes(conn);
    let ghost notes = read;
    let r = list_entries(read);
    proof {
        if notes is Ok {
            let ns = notes->Ok_0@;
            let table = notes_in(*conn);
            assert forall|i: int| 0 <= i < r@.len() implies #[trigger] table.contains_key(r@[i].0 as i64)
                && table[r@[i].0 as i64].0 == r@[i].1@ by {
                assert(note_in(table, ns[i]));
            }
            assert forall|k: i64| #[trigger] table.contains_key(k) implies exists|i: int| 0 <= i < r@.len() && r@[i].0 as i64 == k by {
                let i = choose|i: int| 0 <= i < ns.len() && ns[i].id as i64 == k;
                assert(r@[i] == (ns[i].id, ns[i].title));
            }
        }
    }
    r
}

} // verus!
