use axum_course::auth::{self, authorize_claims, bearer_token, check_credentials, current_user, issue_claims, login, login_at, new_user, register_outcome, secret_dashboard, user_from_subject, Claims, CurrentUser, LoginPayload, UserRecord};
use axum_course::books_db::{self, create_book, delete_outcome, found_row, list_books, new_book_row, Book, CreateBook};
use axum_course::realtime::{on_socket_event, sse_event_data, upload_summary, Incoming, SocketAction, SocketEvent, UploadedField};

const ID: u128 = 0x936d_a01f_9abd_4d9d_80c7_02af_85c8_22a8;

fn record(password: &str) -> UserRecord {
    UserRecord { id: ID, username: "koha".into(), password: password.into() }
}

#[test]
fn bearer_token_strips_the_prefix() {
    assert_eq!(bearer_token(Some("Bearer abc.def")), Some("abc.def"));
    assert_eq!(bearer_token(Some("Bearer ")), Some(""));
    assert_eq!(bearer_token(Some("bearer abc")), None);
    assert_eq!(bearer_token(Some("Basic abc")), None);
    assert_eq!(bearer_token(Some("Bear")), None);
    assert_eq!(bearer_token(None), None);
}

#[test]
fn issued_claims_name_the_user_and_expire_in_an_hour() {
    let claims = issue_claims(ID, 1_700_000_000).unwrap();
    assert_eq!(claims.sub, "936da01f-9abd-4d9d-80c7-02af85c822a8");
    assert_eq!(claims.exp, 1_700_003_600);
    assert_eq!(current_user(&claims.sub), Ok(CurrentUser { user_id: ID }));
    assert_eq!(authorize_claims(Some(claims)), Ok(CurrentUser { user_id: ID }));
    assert!(issue_claims(ID, i64::MAX).is_none());
}

#[test]
fn subjects_that_are_not_uuids_are_refused() {
    assert_eq!(current_user("not-a-uuid"), Err(401));
    assert_eq!(current_user("936DA01F9ABD4D9D80C702AF85C822A8"), Ok(CurrentUser { user_id: ID }));
    assert_eq!(authorize_claims(None), Err(401));
    assert_eq!(authorize_claims(Some(Claims { sub: "x".into(), exp: 1 })), Err(401));
    assert_eq!(user_from_subject(Some(5)), Ok(CurrentUser { user_id: 5 }));
    assert_eq!(user_from_subject(None), Err(401));
}

#[test]
fn credentials_are_checked() {
    assert_eq!(check_credentials(Err("down".into()), "pw"), Err(500));
    assert_eq!(check_credentials(Ok(None), "pw"), Err(401));
    assert_eq!(check_credentials(Ok(Some(record("pw"))), "pw"), Ok(record("pw")));
    assert_eq!(check_credentials(Ok(Some(record("pw"))), "PW"), Err(401));
    let claims = login(Ok(Some(record("pw"))), "pw").unwrap().unwrap();
    assert_eq!(claims.sub, "936da01f-9abd-4d9d-80c7-02af85c822a8");
    assert_eq!(login(Ok(Some(record("pw"))), "x"), Err(401));
    assert_eq!(login(Ok(None), "pw"), Err(401));
    assert_eq!(login(Err("down".into()), "pw"), Err(500));
    let at = login_at(Ok(Some(record("pw"))), "pw", 1_000).unwrap().unwrap();
    assert_eq!((at.sub.as_str(), at.exp), ("936da01f-9abd-4d9d-80c7-02af85c822a8", 4_600));
    assert_eq!(login_at(Ok(Some(record("pw"))), "pw", i64::MAX), Ok(None));
}

#[test]
fn registration() {
    let user = new_user(LoginPayload { username: "koha".into(), password: "123".into() });
    assert_eq!((user.username.as_str(), user.password.as_str()), ("koha", "123"));
    assert_eq!((user.id >> 76) & 0xf, 4);
    assert_eq!((user.id >> 62) & 0x3, 2);
    let other = new_user(LoginPayload { username: "koha".into(), password: "123".into() });
    assert_ne!(user.id, other.id);
    assert_eq!(register_outcome(Ok(())), Ok(201));
    assert_eq!(register_outcome(Err("dup".into())), Err(auth::DbError::Sqlx("dup".into())));
    assert_eq!(auth::DbError::NotFound.into_response(), (404, "User not found".to_string()));
    assert_eq!(auth::DbError::Sqlx("boom".into()).into_response(), (500, "Database error: boom".to_string()));
}

#[test]
fn dashboard_greets_by_id() {
    assert_eq!(
        secret_dashboard(&CurrentUser { user_id: ID }),
        "Chào sếp có ID là: 936da01f-9abd-4d9d-80c7-02af85c822a8. Đây là dữ liệu tối mật!"
    );
}

fn row() -> Book {
    Book { id: ID, title: "Dune".into(), author: "Herbert".into(), is_available: true }
}

#[test]
fn book_rows() {
    let b = new_book_row(CreateBook { title: "Dune".into(), author: "Herbert".into() });
    assert_eq!((b.title.as_str(), b.author.as_str(), b.is_available), ("Dune", "Herbert", true));
    assert_eq!((b.id >> 76) & 0xf, 4);
    assert_eq!((b.id >> 62) & 0x3, 2);
    assert_eq!(create_book(Ok(row())), Ok((201, row())));
    assert_eq!(found_row(Ok(Some(row()))), Ok(row()));
    assert_eq!(found_row(Ok(None)), Err(books_db::DbError::NotFound));
    assert_eq!(found_row(Err("e".into())), Err(books_db::DbError::Sqlx("e".into())));
    assert_eq!(list_books(Ok(vec![row()])), Ok(vec![row()]));
    assert_eq!(delete_outcome(Ok(0)), Err(books_db::DbError::NotFound));
    assert_eq!(delete_outcome(Ok(1)), Ok(204));
    assert_eq!(books_db::DbError::NotFound.into_response(), (404, "Book not fount".to_string()));
    assert_eq!(books_db::DbError::Sqlx("x".into()).into_response(), (500, "Database error".to_string()));
}

#[test]
fn socket_session() {
    assert_eq!(on_socket_event(SocketEvent::Opened), SocketAction::Send("Hello World".into()));
    assert_eq!(on_socket_event(SocketEvent::Received(Incoming::Text("hi".into()))), SocketAction::Send("Echo: hi".into()));
    assert_eq!(on_socket_event(SocketEvent::Received(Incoming::Other)), SocketAction::Ignore);
    assert_eq!(on_socket_event(SocketEvent::Received(Incoming::Failed)), SocketAction::Ignore);
    assert_eq!(on_socket_event(SocketEvent::Closed), SocketAction::Finish("disconected".into()));
    assert_eq!(sse_event_data("SystemTime { tv_sec: 1 }"), "Server time: SystemTime { tv_sec: 1 }");
}

#[test]
fn upload_summaries() {
    assert_eq!(upload_summary(&vec![]), "No files uploaded");
    let fields = vec![
        UploadedField { name: Some("avatar".into()), size: 1024 },
        UploadedField { name: None, size: 0 },
        UploadedField { name: Some("doc".into()), size: 7 },
    ];
    assert_eq!(upload_summary(&fields), "Uploaded: avatar: 1024 bytes, unknown: 0 bytes, doc: 7 bytes");
}
