use axum_course::inventory::{add_product, list_product, store_info, Database, ManagerInfo, Product, StoreConfig};
use axum_course::library::{authen, request_log_line, Book, Library, LibraryError};
use axum_course::users::{health_handler, User, UserStore};

fn book(id: u64, title: &str, available: bool) -> Book {
    Book { id, title: title.to_string(), author: "Tim".to_string(), is_available: available }
}

#[test]
fn test_health_check() {
    assert_eq!(health_handler(), 200);
}

#[test]
fn test_list_users() {
    let mut store = UserStore::new();
    store.insert(1, User { username: "koha".into(), password: "123".into() });
    let users = store.list_users();
    assert_eq!(users.len(), 1);
    assert_eq!(users[0].username, "koha");
}

#[test]
fn users_listing_holds_each_user_once_per_id() {
    let mut store = UserStore::new();
    store.insert(1, User { username: "a".into(), password: "1".into() });
    store.insert(2, User { username: "b".into(), password: "2".into() });
    store.insert(1, User { username: "c".into(), password: "3".into() });
    let mut names: Vec<String> = store.list_users().into_iter().map(|u| u.username).collect();
    names.sort();
    assert_eq!(names, vec!["b".to_string(), "c".to_string()]);
    assert!(UserStore::new().list_users().is_empty());
    let mut twins = UserStore::new();
    twins.insert(1, User { username: "same".into(), password: "x".into() });
    twins.insert(2, User { username: "same".into(), password: "x".into() });
    let listed = twins.list_users();
    assert_eq!(listed.len(), 2);
    assert!(listed.iter().all(|u| u.username == "same"));
}

#[test]
fn inventory_lists_what_was_added_in_order() {
    let mut db = Database::new();
    assert!(db.get_all_items().is_empty());
    db.add_items(Product { id: 1, name: "tea".into(), quantity: 3 });
    db.add_items(Product { id: 2, name: "rice".into(), quantity: 0 });
    let items = db.get_all_items();
    assert_eq!(items.len(), 2);
    assert_eq!(items[0], Product { id: 1, name: "tea".into(), quantity: 3 });
    assert_eq!(items[1], Product { id: 2, name: "rice".into(), quantity: 0 });
}

#[test]
fn add_product_answers_created_by_manager() {
    let mut db = Database::new();
    let manager = ManagerInfo { name: "Koha Admin".into() };
    let (status, text) = add_product(&mut db, &manager, Product { id: 7, name: "pen".into(), quantity: 5 });
    assert_eq!(status, 201);
    assert_eq!(text, "Created by Koha Admin");
    assert_eq!(list_product(&db), vec![Product { id: 7, name: "pen".into(), quantity: 5 }]);
}

#[test]
fn store_info_answers_the_configuration() {
    let config = StoreConfig { name: "koha".into(), location: "CR".into(), opening_year: 2026 };
    assert_eq!(store_info(&config), config);
}

#[test]
fn library_borrow_then_borrow_again() {
    let mut lib = Library::new(vec![book(1, "Rust in Action", true)]);
    let lent = lib.borrow_book(1).unwrap();
    assert_eq!(lent, book(1, "Rust in Action", false));
    assert_eq!(lib.list_books(), vec![book(1, "Rust in Action", false)]);
    assert_eq!(lib.borrow_book(1), Err(LibraryError::AlreadyBorrowed));
    assert_eq!(lib.list_books(), vec![book(1, "Rust in Action", false)]);
}

#[test]
fn library_borrow_unknown_book() {
    let mut lib = Library::new(vec![book(1, "Rust in Action", true)]);
    let err = lib.borrow_book(99).unwrap_err();
    assert_eq!(err, LibraryError::BookNotFound(99));
    let (status, body) = err.into_response();
    assert_eq!(status, 404);
    assert_eq!(body.code, 404);
    assert_eq!(body.error, "Sách với id 99 không tồn tại");
    assert_eq!(lib.list_books(), vec![book(1, "Rust in Action", true)]);
}

#[test]
fn library_borrows_the_first_book_with_the_id() {
    let mut lib = Library::new(vec![book(2, "A", true), book(1, "B", false), book(1, "C", true)]);
    assert_eq!(lib.borrow_book(1), Err(LibraryError::AlreadyBorrowed));
    let mut lib = Library::new(vec![book(2, "A", true), book(1, "B", true), book(1, "C", true)]);
    assert_eq!(lib.borrow_book(1), Ok(book(1, "B", false)));
    assert_eq!(lib.list_books(), vec![book(2, "A", true), book(1, "B", false), book(1, "C", true)]);
}

#[test]
fn library_add_book() {
    let mut lib = Library::new(vec![]);
    let err = lib.add_book(book(3, " \t ", true)).unwrap_err();
    assert_eq!(err, LibraryError::InvalidInput("title".into()));
    let (status, body) = err.into_response();
    assert_eq!((status, body.code), (400, 400));
    assert_eq!(body.error, "title không được trống");
    assert!(lib.list_books().is_empty());
    let ok = lib.add_book(book(3, "Dune", true)).unwrap();
    assert_eq!(ok, (201, "Thêm sách thành công".to_string()));
    assert_eq!(lib.list_books(), vec![book(3, "Dune", true)]);
    assert_eq!(lib.borrow_book(3), Ok(book(3, "Dune", false)));
}

#[test]
fn library_error_answers() {
    let (s, b) = LibraryError::Unauthorized.into_response();
    assert_eq!((s, b.code, b.error.as_str()), (401, 401, "Lỗi xác thực: Token không hợp lệ"));
    let (s, b) = LibraryError::AlreadyBorrowed.into_response();
    assert_eq!((s, b.code, b.error.as_str()), (409, 409, "Sách đã được mượn trước đó"));
}

#[test]
fn library_admin_gate_and_log_line() {
    assert_eq!(authen(Some("library-admin")), Ok(()));
    assert_eq!(authen(Some("library-admin ")), Err(LibraryError::Unauthorized));
    assert_eq!(authen(None), Err(LibraryError::Unauthorized));
    assert_eq!(request_log_line("GET", "/books"), "Request: GET /books");
}
