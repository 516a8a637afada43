//! Laws that hold between the operations of the store, stated over the map
//! of rows that their contracts speak of.
use vstd::prelude::*;
use crate::stamp::is_timestamp_text;
use crate::store::{RowView, Note, note_in, lists_notes, note_added, updated};

verus! {

/// A note added with title `t` and content `c` is found under the id that
/// the insertion returned, and reads back with that title and content and a
/// non-empty, well-formed creation date.
pub proof fn lemma_insert_then_get(
    before: Map<i64, RowView>,
    after: Map<i64, RowView>,
    id: i32,
    t: Seq<char>,
    c: Seq<char>,
    n: Note,
)
    requires
        note_added(before, after, id as i64, t, c),
    ensures
        after.contains_key(id as i64),
        n.id == id && note_in(after, n) ==> n.title@ == t && n.content@ == c
            && is_timestamp_text(n.date@) && n.date@.len() > 0,
{
}

/// Keys of a table after one insertion: the new id and the earlier ones.
proof fn lemma_added_keys(before: Map<i64, RowView>, after: Map<i64, RowView>, id: i64, t: Seq<char>, c: Seq<char>)
    requires
        note_added(before, after, id, t, c),
    ensures
        forall|k: i64| #[trigger] after.contains_key(k) <==> (k == id || before.contains_key(k)),
{
    assert forall|k: i64| #[trigger] after.contains_key(k) <==> (k == id || before.contains_key(k)) by {
        if k != id {
            assert(after.remove(id).contains_key(k) == after.contains_key(k));
        }
    }
}

/// After notes A, B and C are added in that order, the listing of all notes
/// starts with C, then B, then A, whatever the table held before (so long
/// as no id had reached the largest value).
pub proof fn lemma_listing_order(
    m0: Map<i64, RowView>,
    m1: Map<i64, RowView>,
    m2: Map<i64, RowView>,
    m3: Map<i64, RowView>,
    a: i32,
    ta: Seq<char>,
    ca: Seq<char>,
    b: i32,
    tb: Seq<char>,
    cb: Seq<char>,
    c: i32,
    tc: Seq<char>,
    cc: Seq<char>,
    notes: Seq<Note>,
)
    requires
        forall|k: i64| #[trigger] m0.contains_key(k) ==> k < i64::MAX,
        note_added(m0, m1, a as i64, ta, ca),
        note_added(m1, m2, b as i64, tb, cb),
        note_added(m2, m3, c as i64, tc, cc),
        lists_notes(notes, m3),
    ensures
        notes.len() == m0.dom().len() + 3,
        notes[0].id == c,
        notes[1].id == b,
        notes[2].id == a,
{
    lemma_added_keys(m0, m1, a as i64, ta, ca);
    lemma_added_keys(m1, m2, b as i64, tb, cb);
    lemma_added_keys(m2, m3, c as i64, tc, cc);
    assert(forall|k: i64| #[trigger] m1.contains_key(k) ==> k < i64::MAX);
    assert(forall|k: i64| #[trigger] m2.contains_key(k) ==> k < i64::MAX);
    assert(a < b && b < c);
    // every other key lies below `a`
    assert(forall|k: i64| #[trigger] m3.contains_key(k) && k != c as i64 && k != b as i64 && k != a as i64 ==> k < a as i64);
    let ic = choose|i: int| 0 <= i < notes.len() && notes[i].id as i64 == c as i64;
    let ib = choose|i: int| 0 <= i < notes.len() && notes[i].id as i64 == b as i64;
    let ia = choose|i: int| 0 <= i < notes.len() && notes[i].id as i64 == a as i64;
    assert(m3.contains_key(c as i64));
    assert(m3.contains_key(b as i64));
    assert(m3.contains_key(a as i64));
    assert(note_in(m3, notes[0]));
    if ic != 0 {
        assert(notes[0].id > notes[ic].id);
    }
    assert(ib > 0);
    assert(note_in(m3, notes[1]));
    if ib != 1 {
        assert(notes[1].id > notes[ib].id);
        assert(notes[0].id > notes[1].id);
    }
    assert(ia > 1);
    assert(note_in(m3, notes[2]));
    if ia != 2 {
        assert(notes[2].id > notes[ia].id);
        assert(notes[1].id > notes[2].id);
    }
    lemma_listing_len(notes, m3);
    assert(m3.dom() =~= m0.dom().insert(a as i64).insert(b as i64).insert(c as i64));
}

/// A listing holds as many notes as the table holds rows.
proof fn lemma_listing_len(notes: Seq<Note>, table: Map<i64, RowView>)
    requires
        lists_notes(notes, table),
    ensures
        table.dom().finite(),
        notes.len() == table.dom().len(),
{
    let ids = Seq::new(notes.len(), |i: int| notes[i].id as i64);
    assert forall|i: int, j: int| 0 <= i < j < ids.len() implies ids[i] != ids[j] by {
        assert(notes[i].id > notes[j].id);
    }
    assert(ids.no_duplicates());
    assert forall|k: i64| #[trigger] table.dom().contains(k) <==> ids.to_set().contains(k) by {
        if table.contains_key(k) {
            let i = choose|i: int| 0 <= i < notes.len() && notes[i].id as i64 == k;
            assert(ids[i] == k);
        }
        if ids.to_set().contains(k) {
            let i = choose|i: int| 0 <= i < ids.len() && ids[i] == k;
            assert(note_in(table, notes[i]));
        }
    }
    assert(table.dom() =~= ids.to_set());
    ids.unique_seq_to_set();
}

/// Changing title and content of a stored note leaves its creation date as
/// it was.
pub proof fn lemma_update_keeps_date(before: Map<i64, RowView>, old_note: Note, t: Seq<char>, c: Seq<char>, new_note: Note)
    requires
        note_in(before, old_note),
        new_note.id == old_note.id,
        note_in(updated(before, old_note.id as i64, t, c), new_note),
    ensures
        new_note.date@ == old_note.date@,
        new_note.title@ == t,
        new_note.content@ == c,
{
}

/// Deleting an id a second time changes nothing more, and once an id is
/// deleted no listing of the table shows it.
pub proof fn lemma_delete_twice(before: Map<i64, RowView>, id: i32, notes: Seq<Note>)
    ensures
        before.remove(id as i64).remove(id as i64) == before.remove(id as i64),
        lists_notes(notes, before.remove(id as i64)) ==> forall|i: int| 0 <= i < notes.len() ==> #[trigger] notes[i].id != id,
{
    assert(before.remove(id as i64).remove(id as i64) =~= before.remove(id as i64));
    if lists_notes(notes, before.remove(id as i64)) {
        assert forall|i: int| 0 <= i < notes.len() implies #[trigger] notes[i].id != id by {
            assert(note_in(before.remove(id as i64), notes[i]));
        }
    }
}

/// Updating or deleting an id that no row has leaves the table as it is.
pub proof fn lemma_missing_id(table: Map<i64, RowView>, id: i32, t: Seq<char>, c: Seq<char>)
    requires
        !table.contains_key(id as i64),
    ensures
        updated(table, id as i64, t, c) == table,
        table.remove(id as i64) == table,
{
    assert(table.remove(id as i64) =~= table);
}

/// The listing of an empty table is empty.
pub proof fn lemma_empty_listing(notes: Seq<Note>)
    requires
        lists_notes(notes, Map::<i64, RowView>::empty()),
    ensures
        notes.len() == 0,
{
    if notes.len() > 0 {
        assert(note_in(Map::<i64, RowView>::empty(), notes[0]));
    }
}

} // verus!
