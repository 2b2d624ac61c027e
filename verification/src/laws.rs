use vstd::prelude::*;

use crate::models::{book_of, BookV, NewBookV};
use crate::store::{contains_id, ids_unique, index_of, lookup, rows_wf};

verus! {

/// Creating a book and then fetching it by the identifier the store assigned
/// yields a row whose four fields are exactly the payload's values: after
/// pushing `book_of(fresh, nb)` onto well-formed rows, that identifier is
/// present and looking it up returns that very row.
pub proof fn lemma_create_then_get(rows: Seq<BookV>, fresh: int, nb: NewBookV)
    requires
        rows_wf(rows, fresh),
        1 <= fresh <= i32::MAX,
    ensures
        contains_id(rows.push(book_of(fresh as i32, nb)), fresh as i32),
        lookup(rows.push(book_of(fresh as i32, nb)), fresh as i32) == book_of(fresh as i32, nb),
{
    let b = book_of(fresh as i32, nb);
    let rows2 = rows.push(b);
    assert(rows2[rows.len() as int].id == Some(fresh as i32));
    assert(contains_id(rows2, fresh as i32));
    let w = index_of(rows2, fresh as i32);
    assert(0 <= w < rows2.len() && rows2[w].id == Some(fresh as i32));
    assert(w == rows.len() as int) by {
        if w < rows.len() {
            assert(rows2[w] == rows[w]);
            assert(rows[w].id->Some_0 < fresh);
        }
    }
}

/// The rows that stand after creating the payloads `nbs` one at a time,
/// starting from fresh identifier `fresh`: each creation appends its row and
/// moves the fresh identifier up by one.
pub open spec fn create_all(rows: Seq<BookV>, fresh: int, nbs: Seq<NewBookV>) -> Seq<BookV>
    decreases nbs.len(),
{
    if nbs.len() == 0 {
        rows
    } else {
        create_all(rows.push(book_of(fresh as i32, nbs[0])), fresh + 1, nbs.drop_first())
    }
}

/// Listing after creating N books shows at least those N rows — the k-th
/// payload under identifier `fresh + k`, with its own field values — and
/// every row that stood in the store before.
pub proof fn lemma_list_after_create_all(rows: Seq<BookV>, fresh: int, nbs: Seq<NewBookV>)
    requires
        1 <= fresh,
        fresh + nbs.len() <= i32::MAX,
    ensures
        forall|k: int|
            0 <= k < nbs.len() ==> create_all(rows, fresh, nbs).contains(
                book_of((fresh + k) as i32, #[trigger] nbs[k]),
            ),
        forall|j: int|
            0 <= j < rows.len() ==> create_all(rows, fresh, nbs).contains(#[trigger] rows[j]),
    decreases nbs.len(),
{
    if nbs.len() > 0 {
        let b0 = book_of(fresh as i32, nbs[0]);
        let rows1 = rows.push(b0);
        let rest = nbs.drop_first();
        let result = create_all(rows1, fresh + 1, rest);
        lemma_list_after_create_all(rows1, fresh + 1, rest);
        assert(create_all(rows, fresh, nbs) == result);
        assert forall|j: int| 0 <= j < rows.len() implies result.contains(#[trigger] rows[j]) by {
            assert(rows1[j] == rows[j]);
            assert(result.contains(rows1[j]));
        }
        assert forall|k: int| 0 <= k < nbs.len() implies result.contains(
            book_of((fresh + k) as i32, #[trigger] nbs[k]),
        ) by {
            if k == 0 {
                assert(rows1[rows.len() as int] == b0);
                assert(result.contains(rows1[rows.len() as int]));
            } else {
                assert(rest[k - 1] == nbs[k]);
                assert(result.contains(book_of((fresh + 1 + (k - 1)) as i32, rest[k - 1])));
            }
        }
    }
}

/// Fetching an identifier at least as large as the fresh one — larger than
/// any the store has assigned — finds nothing.
pub proof fn lemma_fresh_id_absent(rows: Seq<BookV>, fresh: int, id: i32)
    requires
        rows_wf(rows, fresh),
        fresh <= id,
    ensures
        !contains_id(rows, id),
{
    assert forall|i: int| 0 <= i < rows.len() implies (#[trigger] rows[i].id) != Some(id) by {
        assert(rows[i].id->Some_0 < fresh);
    }
}

/// Updating an existing identifier replaces all four fields and leaves the
/// identifier (and the number of rows) unchanged: a subsequent fetch of that
/// identifier returns exactly the new values under the old identifier.
pub proof fn lemma_update_then_get(rows: Seq<BookV>, fresh: int, id: i32, nb: NewBookV)
    requires
        rows_wf(rows, fresh),
        contains_id(rows, id),
    ensures
        ({
            let rows2 = rows.update(index_of(rows, id), book_of(id, nb));
            &&& rows2.len() == rows.len()
            &&& book_of(id, nb).id == Some(id)
            &&& contains_id(rows2, id)
            &&& lookup(rows2, id) == book_of(id, nb)
        }),
{
    let w = index_of(rows, id);
    assert(0 <= w < rows.len() && rows[w].id == Some(id));
    let rows2 = rows.update(w, book_of(id, nb));
    assert(rows2[w].id == Some(id));
    assert(contains_id(rows2, id));
    let w2 = index_of(rows2, id);
    assert(0 <= w2 < rows2.len() && rows2[w2].id == Some(id));
    assert(w2 == w) by {
        if w2 != w {
            assert(rows2[w2] == rows[w2]);
            assert(ids_unique(rows));
        }
    }
}

/// After deleting an existing identifier, a fetch of that identifier finds
/// nothing any more.
pub proof fn lemma_delete_then_get(rows: Seq<BookV>, fresh: int, id: i32)
    requires
        rows_wf(rows, fresh),
        contains_id(rows, id),
    ensures
        !contains_id(rows.remove(index_of(rows, id)), id),
{
    let w = index_of(rows, id);
    assert(0 <= w < rows.len() && rows[w].id == Some(id));
    let rows2 = rows.remove(w);
    assert forall|j: int| 0 <= j < rows2.len() implies (#[trigger] rows2[j].id) != Some(id) by {
        if j < w {
            assert(rows2[j] == rows[j]);
            assert(ids_unique(rows));
        } else {
            assert(rows2[j] == rows[j + 1]);
            assert(ids_unique(rows));
        }
    }
}

} // verus!
