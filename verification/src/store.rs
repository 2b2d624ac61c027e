use vstd::prelude::*;

use crate::models::{book_of, Book, BookV, NewBook};

verus! {

/// Why a storage operation failed: the requested row does not exist, or no
/// fresh identifier can be assigned because the identifier space is used up.
pub enum StorageError {
    NotFound,
    Exhausted,
}

/// No two rows carry the same identifier.
pub open spec fn ids_unique(rows: Seq<BookV>) -> bool {
    forall|i: int, j: int| 0 <= i < j < rows.len() ==> rows[i].id != rows[j].id
}

/// Every row carries an identifier that is at least 1 and below `fresh`,
/// and no two rows carry the same one.
pub open spec fn rows_wf(rows: Seq<BookV>, fresh: int) -> bool {
    &&& ids_unique(rows)
    &&& forall|i: int|
        0 <= i < rows.len() ==> (#[trigger] rows[i].id) is Some && 1 <= rows[i].id->Some_0 < fresh
}

/// Some row of `rows` carries identifier `id`.
pub open spec fn contains_id(rows: Seq<BookV>, id: i32) -> bool {
    exists|i: int| 0 <= i < rows.len() && (#[trigger] rows[i].id) == Some(id)
}

/// The position of the row that carries identifier `id`; meaningful only
/// where `contains_id(rows, id)` holds and identifiers are unique.
pub open spec fn index_of(rows: Seq<BookV>, id: i32) -> int {
    choose|i: int| 0 <= i < rows.len() && (#[trigger] rows[i].id) == Some(id)
}

/// The row of `rows` that carries identifier `id`; meaningful only where
/// `contains_id(rows, id)` holds.
pub open spec fn lookup(rows: Seq<BookV>, id: i32) -> BookV {
    rows[index_of(rows, id)]
}

/// An in-memory table of books. Rows keep their insertion order; a fresh
/// identifier is assigned to each created row, counting up from 1.
pub struct BookStore {
    books: Vec<Book>,
    next_id: i32,
}

impl View for BookStore {
    type V = Seq<BookV>;

    /// The stored rows, in storage order.
    closed spec fn view(&self) -> Seq<BookV> {
        self.books@.map_values(|b: Book| b@)
    }
}

impl BookStore {
    /// The identifier the next created row will receive.
    pub closed spec fn fresh_id(&self) -> int {
        self.next_id as int
    }

    /// The store's invariant: rows are well formed under the next fresh
    /// identifier, which has not outgrown `i32`.
    pub open spec fn inv(&self) -> bool {
        &&& rows_wf(self@, self.fresh_id())
        &&& 1 <= self.fresh_id() <= i32::MAX
    }

    /// An empty store; the first created row will receive identifier 1.
    pub fn new() -> (s: Self)
        ensures
            s.inv(),
            s@ =~= Seq::<BookV>::empty(),
            s.fresh_id() == 1,
    {
        BookStore { books: Vec::new(), next_id: 1 }
    }

    /// Inserts `new_book` as a fresh row and returns it, identifier included.
    /// Fails exactly when the identifier space is exhausted, and then leaves
    /// the store unchanged.
    pub fn create_book(&mut self, new_book: NewBook) -> (r: Result<Book, StorageError>)
        requires
            old(self).inv(),
        ensures
            final(self).inv(),
            old(self).fresh_id() < i32::MAX ==> {
                &&& r matches Ok(b) && b@ == book_of(old(self).fresh_id() as i32, new_book@)
                &&& final(self)@ =~= old(self)@.push(book_of(old(self).fresh_id() as i32, new_book@))
                &&& final(self).fresh_id() == old(self).fresh_id() + 1
            },
            old(self).fresh_id() == i32::MAX ==> {
                &&& r matches Err(e) && e == StorageError::Exhausted
                &&& final(self)@ =~= old(self)@
                &&& final(self).fresh_id() == old(self).fresh_id()
            },
    {
        if self.next_id == i32::MAX {
            return Err(StorageError::Exhausted);
        }
        let id = self.next_id;
        let row = Book {
            id: Some(id),
            title: new_book.title,
            author: new_book.author,
            date_published: new_book.date_published,
            cover_image: new_book.cover_image,
        };
        let out = row.clone();
        let ghost rowv = row@;
        self.books.push(row);
        self.next_id = id + 1;
        proof {
            assert(self@ =~= old(self)@.push(rowv));
            assert(rows_wf(self@, self.fresh_id())) by {
                assert(forall|i: int|
                    0 <= i < old(self)@.len() ==> self@[i] == old(self)@[i]);
            }
        }
        Ok(out)
    }

    /// Returns a copy of every stored row, in storage order.
    pub fn get_all_books(&self) -> (r: Vec<Book>)
        ensures
            r@.map_values(|b: Book| b@) =~= self@,
    {
        let mut out: Vec<Book> = Vec::new();
        let mut i: usize = 0;
        while i < self.books.len()
            invariant
                i <= self.books.len(),
                out@.len() == i as int,
                forall|j: int| 0 <= j < i as int ==> out@[j] == self.books@[j],
            decreases self.books.len() - i,
        {
            out.push(self.books[i].clone());
            i = i + 1;
        }
        proof {
            assert(out@.map_values(|b: Book| b@) =~= self@);
        }
        out
    }

    /// Returns a copy of the row that carries `book_id`; fails exactly when
    /// no row does.
    pub fn get_book(&self, book_id: i32) -> (r: Result<Book, StorageError>)
        requires
            self.inv(),
        ensures
            contains_id(self@, book_id) ==> (r matches Ok(b) && b@ == lookup(self@, book_id)),
            !contains_id(self@, book_id) ==> (r matches Err(e) && e == StorageError::NotFound),
    {
        let mut i: usize = 0;
        while i < self.books.len()
            invariant
                self.inv(),
                i <= self.books.len(),
                forall|j: int| 0 <= j < i as int ==> self@[j].id != Some(book_id),
            decreases self.books.len() - i,
        {
            let found = match self.books[i].id {
                Some(k) => k == book_id,
                None => false,
            };
            if found {
                let b = self.books[i].clone();
                proof {
                    assert(self@[i as int].id == Some(book_id));
                    let w = index_of(self@, book_id);
                    assert(0 <= w < self@.len() && self@[w].id == Some(book_id));
                    assert(w == i as int);
                }
                return Ok(b);
            }
            i = i + 1;
        }
        Err(StorageError::NotFound)
    }

    /// Replaces all four fields of the row that carries `book_id`, leaving its
    /// identifier and its position unchanged, and returns the updated row.
    /// Fails exactly when no row carries `book_id`, and then changes nothing.
    pub fn update_book(&mut self, book_id: i32, new_book: NewBook) -> (r: Result<
        Book,
        StorageError,
    >)
        requires
            old(self).inv(),
        ensures
            final(self).inv(),
            final(self).fresh_id() == old(self).fresh_id(),
            contains_id(old(self)@, book_id) ==> {
                &&& r matches Ok(b) && b@ == book_of(book_id, new_book@)
                &&& final(self)@ =~= old(self)@.update(
                    index_of(old(self)@, book_id),
                    book_of(book_id, new_book@),
                )
            },
            !contains_id(old(self)@, book_id) ==> {
                &&& r matches Err(e) && e == StorageError::NotFound
                &&& final(self)@ =~= old(self)@
            },
    {
        let mut i: usize = 0;
        while i < self.books.len()
            invariant
                self.inv(),
                self == old(self),
                i <= self.books.len(),
                forall|j: int| 0 <= j < i as int ==> self@[j].id != Some(book_id),
            decreases self.books.len() - i,
        {
            let found = match self.books[i].id {
                Some(k) => k == book_id,
                None => false,
            };
            if found {
                let row = Book {
                    id: Some(book_id),
                    title: new_book.title,
                    author: new_book.author,
                    date_published: new_book.date_published,
                    cover_image: new_book.cover_image,
                };
                let out = row.clone();
                let ghost rowv = row@;
                proof {
                    assert(self@[i as int].id == Some(book_id));
                    let w = index_of(self@, book_id);
                    assert(0 <= w < self@.len() && self@[w].id == Some(book_id));
                    assert(w == i as int);
                }
                self.books[i] = row;
                proof {
                    assert(self@ =~= old(self)@.update(i as int, rowv));
                    assert(rows_wf(self@, self.fresh_id())) by {
                        assert(forall|j: int|
                            0 <= j < self@.len() && j != i as int ==> self@[j] == old(self)@[j]);
                    }
                }
                return Ok(out);
            }
            i = i + 1;
        }
        Err(StorageError::NotFound)
    }

    /// Removes the row that carries `book_id`. Fails exactly when no row
    /// carries `book_id`, and then changes nothing.
    pub fn delete_book(&mut self, book_id: i32) -> (r: Result<(), StorageError>)
        requires
            old(self).inv(),
        ensures
            final(self).inv(),
            final(self).fresh_id() == old(self).fresh_id(),
            contains_id(old(self)@, book_id) ==> (r matches Ok(_) && final(self)@ =~= old(
                self,
            )@.remove(index_of(old(self)@, book_id))),
            !contains_id(old(self)@, book_id) ==> {
                &&& r matches Err(e) && e == StorageError::NotFound
                &&& final(self)@ =~= old(self)@
            },
    {
        let mut i: usize = 0;
        while i < self.books.len()
            invariant
                self.inv(),
                self == old(self),
                i <= self.books.len(),
                forall|j: int| 0 <= j < i as int ==> self@[j].id != Some(book_id),
            decreases self.books.len() - i,
        {
            let found = match self.books[i].id {
                Some(k) => k == book_id,
                None => false,
            };
            if found {
                proof {
                    assert(self@[i as int].id == Some(book_id));
                    let w = index_of(self@, book_id);
                    assert(0 <= w < self@.len() && self@[w].id == Some(book_id));
                    assert(w == i as int);
                }
                self.books.remove(i);
                proof {
                    assert(self@ =~= old(self)@.remove(i as int));
                    assert(rows_wf(self@, self.fresh_id())) by {
                        assert(forall|j: int|
                            0 <= j < self@.len() ==> self@[j] == if j < i as int {
                                old(self)@[j]
                            } else {
                                old(self)@[j + 1]
                            });
                    }
                }
                return Ok(());
            }
            i = i + 1;
        }
        Err(StorageError::NotFound)
    }
}

} // verus!
