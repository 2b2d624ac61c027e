use book_api::handlers::{
    create_book, delete_book, get_all_books, get_book, update_book, BookResponse,
};
use book_api::models::{Book, NewBook};
use book_api::store::{BookStore, StorageError};

fn payload(title: &str, author: &str, date_published: &str, cover_image: &str) -> NewBook {
    NewBook {
        title: String::from(title),
        author: String::from(author),
        date_published: String::from(date_published),
        cover_image: String::from(cover_image),
    }
}

fn created_book(store: &mut BookStore, nb: NewBook) -> Book {
    match create_book(store, nb) {
        BookResponse::Found(b) => b,
        _ => panic!("create did not answer 200 with a book"),
    }
}

#[test]
fn create_then_get_returns_same_fields() {
    let mut store = BookStore::new();
    let b = created_book(
        &mut store,
        payload("Solaris", "Lem", "1961", "solaris.jpg"),
    );
    let id = b.id.expect("created book carries an identifier");
    match get_book(&store, id) {
        BookResponse::Found(fetched) => {
            assert_eq!(fetched.id, Some(id));
            assert_eq!(fetched.title, "Solaris");
            assert_eq!(fetched.author, "Lem");
            assert_eq!(fetched.date_published, "1961");
            assert_eq!(fetched.cover_image, "solaris.jpg");
        }
        _ => panic!("fetch of a created book did not answer 200"),
    }
}

#[test]
fn list_contains_all_created_books() {
    let mut store = BookStore::new();
    let b1 = created_book(&mut store, payload("A", "X", "2001", "a.jpg"));
    let b2 = created_book(&mut store, payload("B", "Y", "2002", "b.jpg"));
    let b3 = created_book(&mut store, payload("C", "Z", "2003", "c.jpg"));
    let listed = match get_all_books(&store) {
        BookResponse::FoundList(v) => v,
        _ => panic!("list did not answer 200 with an array"),
    };
    for wanted in [&b1, &b2, &b3] {
        let hit = listed.iter().find(|b| b.id == wanted.id).expect("created book is listed");
        assert_eq!(hit.title, wanted.title);
        assert_eq!(hit.author, wanted.author);
        assert_eq!(hit.date_published, wanted.date_published);
        assert_eq!(hit.cover_image, wanted.cover_image);
    }
    assert_eq!(listed.len(), 3);
}

#[test]
fn get_missing_id_answers_404() {
    let mut store = BookStore::new();
    let b = created_book(&mut store, payload("A", "X", "2001", "a.jpg"));
    let missing = b.id.unwrap() + 1;
    let r = get_book(&store, missing);
    assert!(matches!(r, BookResponse::NotFound));
    assert_eq!(r.status_code(), 404);
}

#[test]
fn get_on_empty_store_answers_404() {
    let store = BookStore::new();
    let r = get_book(&store, 1);
    assert_eq!(r.status_code(), 404);
}

#[test]
fn update_replaces_fields_and_keeps_id() {
    let mut store = BookStore::new();
    let b = created_book(&mut store, payload("Old", "Olda", "1900", "old.jpg"));
    let id = b.id.unwrap();
    let r = update_book(&mut store, id, payload("New", "Newa", "2000", "new.jpg"));
    match &r {
        BookResponse::Found(u) => {
            assert_eq!(u.id, Some(id));
            assert_eq!(u.title, "New");
        }
        _ => panic!("update of an existing book did not answer 200"),
    }
    assert_eq!(r.status_code(), 200);
    match get_book(&store, id) {
        BookResponse::Found(fetched) => {
            assert_eq!(fetched.id, Some(id));
            assert_eq!(fetched.title, "New");
            assert_eq!(fetched.author, "Newa");
            assert_eq!(fetched.date_published, "2000");
            assert_eq!(fetched.cover_image, "new.jpg");
        }
        _ => panic!("fetch after update did not answer 200"),
    }
}

#[test]
fn update_missing_id_answers_404_and_adds_no_row() {
    let mut store = BookStore::new();
    created_book(&mut store, payload("A", "X", "2001", "a.jpg"));
    let r = update_book(&mut store, 99, payload("B", "Y", "2002", "b.jpg"));
    assert!(matches!(r, BookResponse::NotFound));
    assert_eq!(r.status_code(), 404);
    match get_all_books(&store) {
        BookResponse::FoundList(v) => assert_eq!(v.len(), 1),
        _ => panic!("list did not answer 200 with an array"),
    }
}

#[test]
fn delete_answers_204_and_then_get_answers_404() {
    let mut store = BookStore::new();
    let b = created_book(&mut store, payload("A", "X", "2001", "a.jpg"));
    let id = b.id.unwrap();
    let r = delete_book(&mut store, id);
    assert!(matches!(r, BookResponse::NoContent));
    assert_eq!(r.status_code(), 204);
    let after = get_book(&store, id);
    assert!(matches!(after, BookResponse::NotFound));
    assert_eq!(after.status_code(), 404);
}

#[test]
fn delete_missing_id_answers_404() {
    let mut store = BookStore::new();
    let r = delete_book(&mut store, 7);
    assert!(matches!(r, BookResponse::NotFound));
    assert_eq!(r.status_code(), 404);
}

#[test]
fn dune_example_round_trip() {
    let mut store = BookStore::new();
    let r = create_book(
        &mut store,
        payload("Dune", "Herbert", "1965", "dune.jpg"),
    );
    assert_eq!(r.status_code(), 200);
    let b = match r {
        BookResponse::Found(b) => b,
        _ => panic!("create did not answer 200 with a book"),
    };
    let id = b.id.expect("an integer identifier was assigned");
    assert_eq!(b.title, "Dune");
    assert_eq!(b.author, "Herbert");
    assert_eq!(b.date_published, "1965");
    assert_eq!(b.cover_image, "dune.jpg");
    match get_book(&store, id) {
        BookResponse::Found(fetched) => {
            assert_eq!(fetched.id, Some(id));
            assert_eq!(fetched.title, "Dune");
            assert_eq!(fetched.author, "Herbert");
            assert_eq!(fetched.date_published, "1965");
            assert_eq!(fetched.cover_image, "dune.jpg");
        }
        _ => panic!("fetch of the created book did not answer 200"),
    }
}

#[test]
fn identifiers_count_up_from_one() {
    let mut store = BookStore::new();
    let b1 = created_book(&mut store, payload("A", "X", "2001", "a.jpg"));
    let b2 = created_book(&mut store, payload("B", "Y", "2002", "b.jpg"));
    assert_eq!(b1.id, Some(1));
    assert_eq!(b2.id, Some(2));
}

#[test]
fn store_reports_not_found_error() {
    let mut store = BookStore::new();
    match store.get_book(5) {
        Err(StorageError::NotFound) => {}
        _ => panic!("lookup of a missing row did not fail with NotFound"),
    }
    match store.delete_book(5) {
        Err(StorageError::NotFound) => {}
        _ => panic!("delete of a missing row did not fail with NotFound"),
    }
    match store.update_book(5, payload("A", "X", "2001", "a.jpg")) {
        Err(StorageError::NotFound) => {}
        _ => panic!("update of a missing row did not fail with NotFound"),
    }
}

#[test]
fn responses_map_to_status_codes() {
    assert_eq!(BookResponse::NoContent.status_code(), 204);
    assert_eq!(BookResponse::NotFound.status_code(), 404);
    assert_eq!(BookResponse::InternalError.status_code(), 500);
    assert_eq!(BookResponse::FoundList(Vec::new()).status_code(), 200);
}
