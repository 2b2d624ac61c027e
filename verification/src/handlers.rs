use vstd::prelude::*;

use crate::models::{book_of, Book, NewBook};
use crate::store::{contains_id, index_of, lookup, BookStore};

verus! {

/// The outcome of one request, as it is put on the wire: the variant fixes
/// the HTTP status and carries the JSON body, where there is one.
pub enum BookResponse {
    /// Status 200, body: one book.
    Found(Book),
    /// Status 200, body: an array of books.
    FoundList(Vec<Book>),
    /// Status 204, empty body.
    NoContent,
    /// Status 404, empty body.
    NotFound,
    /// Status 500, empty body.
    InternalError,
}

impl BookResponse {
    /// The HTTP status code that this outcome is sent with.
    pub fn status_code(&self) -> (c: u16)
        ensures
            c == match self {
                BookResponse::Found(_) => 200u16,
                BookResponse::FoundList(_) => 200u16,
                BookResponse::NoContent => 204u16,
                BookResponse::NotFound => 404u16,
                BookResponse::InternalError => 500u16,
            },
    {
        match self {
            BookResponse::Found(_) => 200,
            BookResponse::FoundList(_) => 200,
            BookResponse::NoContent => 204,
            BookResponse::NotFound => 404,
            BookResponse::InternalError => 500,
        }
    }
}

/// Serves `POST /books`: inserts the payload as a new row and answers 200
/// with the created book, identifier included. Answers 500, changing
/// nothing, exactly when the store cannot assign a fresh identifier.
pub fn create_book(store: &mut BookStore, new_book: NewBook) -> (r: BookResponse)
    requires
        old(store).inv(),
    ensures
        final(store).inv(),
        old(store).fresh_id() < i32::MAX ==> {
            &&& r matches BookResponse::Found(b) && b@ == book_of(
                old(store).fresh_id() as i32,
                new_book@,
            )
            &&& final(store)@ =~= old(store)@.push(book_of(old(store).fresh_id() as i32, new_book@))
            &&& final(store).fresh_id() == old(store).fresh_id() + 1
        },
        old(store).fresh_id() == i32::MAX ==> {
            &&& r == BookResponse::InternalError
            &&& final(store)@ =~= old(store)@
            &&& final(store).fresh_id() == old(store).fresh_id()
        },
{
    match store.create_book(new_book) {
        Ok(book) => BookResponse::Found(book),
        Err(_) => BookResponse::InternalError,
    }
}

/// Serves `GET /books`: answers 200 with every stored row, in storage order.
pub fn get_all_books(store: &BookStore) -> (r: BookResponse)
    ensures
        r matches BookResponse::FoundList(v) && v@.map_values(|b: Book| b@) =~= store@,
{
    BookResponse::FoundList(store.get_all_books())
}

/// Serves `GET /books/{id}`: answers 200 with the row that carries
/// `book_id`, and 404 exactly when no row does.
pub fn get_book(store: &BookStore, book_id: i32) -> (r: BookResponse)
    requires
        store.inv(),
    ensures
        contains_id(store@, book_id) ==> (r matches BookResponse::Found(b) && b@ == lookup(
            store@,
            book_id,
        )),
        !contains_id(store@, book_id) ==> r == BookResponse::NotFound,
{
    match store.get_book(book_id) {
        Ok(book) => BookResponse::Found(book),
        Err(_) => BookResponse::NotFound,
    }
}

/// Serves `PUT /books/{id}`: replaces all four fields of the row that
/// carries `book_id`, leaves its identifier and position unchanged, and
/// answers 200 with the updated book. Answers 404, changing nothing,
/// exactly when no row carries `book_id`.
pub fn update_book(store: &mut BookStore, book_id: i32, updated_book: NewBook) -> (r: BookResponse)
    requires
        old(store).inv(),
    ensures
        final(store).inv(),
        final(store).fresh_id() == old(store).fresh_id(),
        contains_id(old(store)@, book_id) ==> {
            &&& r matches BookResponse::Found(b) && b@ == book_of(book_id, updated_book@)
            &&& final(store)@ =~= old(store)@.update(
                index_of(old(store)@, book_id),
                book_of(book_id, updated_book@),
            )
        },
        !contains_id(old(store)@, book_id) ==> {
            &&& r == BookResponse::NotFound
            &&& final(store)@ =~= old(store)@
        },
{
    match store.update_book(book_id, updated_book) {
        Ok(book) => BookResponse::Found(book),
        Err(_) => BookResponse::NotFound,
    }
}

/// Serves `DELETE /books/{id}`: removes the row that carries `book_id` and
/// answers 204 with an empty body. Answers 404, changing nothing, exactly
/// when no row carries `book_id`.
pub fn delete_book(store: &mut BookStore, book_id: i32) -> (r: BookResponse)
    requires
        old(store).inv(),
    ensures
        final(store).inv(),
        final(store).fresh_id() == old(store).fresh_id(),
        contains_id(old(store)@, book_id) ==> {
            &&& r == BookResponse::NoContent
            &&& final(store)@ =~= old(store)@.remove(index_of(old(store)@, book_id))
        },
        !contains_id(old(store)@, book_id) ==> {
            &&& r == BookResponse::NotFound
            &&& final(store)@ =~= old(store)@
        },
{
    match store.delete_book(book_id) {
        Ok(_) => BookResponse::NoContent,
        Err(_) => BookResponse::NotFound,
    }
}

} // verus!
