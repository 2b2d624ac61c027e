use vstd::prelude::*;

verus! {

/// A persisted book row. The identifier is assigned by the store when the
/// row is created; it is `None` only on a value that has not been persisted.
pub struct Book {
    pub id: Option<i32>,
    pub title: String,
    pub author: String,
    pub date_published: String,
    pub cover_image: String,
}

/// A creation or update payload: the fields of a book, with no identifier.
pub struct NewBook {
    pub title: String,
    pub author: String,
    pub date_published: String,
    pub cover_image: String,
}

/// The mathematical value of a book: its identifier and the character
/// sequences of its four descriptive fields.
#[verifier::ext_equal]
pub ghost struct BookV {
    pub id: Option<i32>,
    pub title: Seq<char>,
    pub author: Seq<char>,
    pub date_published: Seq<char>,
    pub cover_image: Seq<char>,
}

/// The mathematical value of a payload.
#[verifier::ext_equal]
pub ghost struct NewBookV {
    pub title: Seq<char>,
    pub author: Seq<char>,
    pub date_published: Seq<char>,
    pub cover_image: Seq<char>,
}

impl View for Book {
    type V = BookV;

    open spec fn view(&self) -> BookV {
        BookV {
            id: self.id,
            title: self.title@,
            author: self.author@,
            date_published: self.date_published@,
            cover_image: self.cover_image@,
        }
    }
}

impl View for NewBook {
    type V = NewBookV;

    open spec fn view(&self) -> NewBookV {
        NewBookV {
            title: self.title@,
            author: self.author@,
            date_published: self.date_published@,
            cover_image: self.cover_image@,
        }
    }
}

/// The row that persisting payload `nb` under identifier `id` yields: the
/// identifier is set and all four fields are taken from the payload.
pub open spec fn book_of(id: i32, nb: NewBookV) -> BookV {
    BookV {
        id: Some(id),
        title: nb.title,
        author: nb.author,
        date_published: nb.date_published,
        cover_image: nb.cover_image,
    }
}

impl Clone for Book {
    fn clone(&self) -> (r: Self)
        ensures
            r == *self,
    {
        Book {
            id: self.id,
            title: self.title.clone(),
            author: self.author.clone(),
            date_published: self.date_published.clone(),
            cover_image: self.cover_image.clone(),
        }
    }
}

impl Clone for NewBook {
    fn clone(&self) -> (r: Self)
        ensures
            r == *self,
    {
        NewBook {
            title: self.title.clone(),
            author: self.author.clone(),
            date_published: self.date_published.clone(),
            cover_image: self.cover_image.clone(),
        }
    }
}

} // verus!
