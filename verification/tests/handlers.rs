use axum_course::errors::{complex_operation, database_operation, find_user, get_user, protected_resource, validate_input, validate_user, AppError, User};
use axum_course::extractors::{self, check_state, create_course, delete_course, get_course, list_courses, AdminToken, AppState, CreateCourseRequest, ValidatedCourse};
use axum_course::intro::{conditional_response, echo, hello_world};
use axum_course::responses::{check_authen, check_health, dashboard, get_course_detail, pong_response, AuthenInf, DASHBOARD_HTML};
use axum_course::routing::{self, create_resource, delete_resource, files, get_comment, get_post, get_resource, home, list_items, patch_resource, update_resource, Pagination, PostPath};
use axum_course::text::{join2, join3, decimal_text, is_blank_text, same_text, with_number};

#[test]
fn decimal_text_writes_numbers_as_display_does() {
    for n in [0u64, 7, 10, 99, 100, 12345, 1_000_000, u64::MAX] {
        assert_eq!(decimal_text(n), n.to_string());
    }
    assert_eq!(with_number("id=", 42), "id=42");
}

#[test]
fn text_helpers() {
    assert_eq!(join2("ab", "cd"), "abcd");
    assert_eq!(join3("a", "", "c"), "ac");
    assert!(same_text("héllo", "héllo"));
    assert!(!same_text("hello", "hell"));
}

#[test]
fn blank_text_matches_trim() {
    for s in ["", " ", "\t\n", "\u{3000}\u{a0}", " a ", "x", "\u{200b}", "\u{85}"] {
        assert_eq!(is_blank_text(s), s.trim().is_empty(), "{:?}", s);
    }
}

#[test]
fn intro_handlers() {
    assert_eq!(hello_world(), "Hello World");
    assert_eq!(conditional_response(), (200, "Everything is working!".to_string()));
    assert_eq!(echo("hi"), "You sent: hi");
}

#[test]
fn routing_handlers() {
    assert_eq!(get_resource(123), "🔍 GET: Đọc tài nguyên 123");
    assert_eq!(create_resource(), "🆕 POST: Tạo tài nguyên mới");
    assert_eq!(update_resource(5), "💾 PUT: Cập nhật toàn bộ 5");
    assert_eq!(patch_resource(6), "🩹 PATCH: Cập nhật một phần 6");
    assert_eq!(delete_resource(7), "🗑️ DELETE: Xóa tài nguyên 7");
    assert_eq!(routing::list_users(), "👥 Danh sách người dùng");
    assert_eq!(routing::get_user(1), "👤 Chi tiết User: 1");
    assert_eq!(get_post(1, 2), "📝 User 1 - Post 2");
    assert_eq!(get_comment(&PostPath { user_id: 1, post_id: 2, comment_id: 3 }), "💬 User 1 -> Post 2 -> Comment 3");
    assert_eq!(list_items(&Pagination { page: None, limit: None }), "📦 Items - Page: 1, Limit: 10");
    assert_eq!(list_items(&Pagination { page: Some(3), limit: Some(50) }), "📦 Items - Page: 3, Limit: 50");
    assert_eq!(files("any/path/file.txt"), "📂 File: any/path/file.txt");
    assert_eq!(home(), "🚀 Axum 0.8 Full Routing Module Ready!");
    assert_eq!(routing::not_found(), (404, "🚫 404 Not Found".to_string()));
}

fn course(title: &str) -> CreateCourseRequest {
    CreateCourseRequest { title: title.into(), description: "d".into() }
}

#[test]
fn extractors_admin_token() {
    assert_eq!(AdminToken::from_request_parts(Some("secret-admin")), Ok(AdminToken));
    let refused = (401, "🚫 Lỗi: Bạn cần quyền Admin!".to_string());
    assert_eq!(AdminToken::from_request_parts(Some("secret")), Err(refused.clone()));
    assert_eq!(AdminToken::from_request_parts(None), Err(refused));
}

#[test]
fn extractors_course_validation() {
    assert_eq!(ValidatedCourse::from_request(Ok(course("Rust"))), Ok(ValidatedCourse(course("Rust"))));
    assert_eq!(ValidatedCourse::from_request(Ok(course("   "))), Err((400, "❌ Tiêu đề không được để trống!".to_string())));
    assert_eq!(ValidatedCourse::from_request(Ok(course("ab"))), Err((400, "❌ Tiêu đề phải có ít nhất 3 ký tự!".to_string())));
    // Two characters, but three bytes: accepted, as `str::len` counts bytes.
    assert_eq!(ValidatedCourse::from_request(Ok(course("éa"))), Ok(ValidatedCourse(course("éa"))));
    assert_eq!(ValidatedCourse::from_request(Err("missing field".into())), Err((400, "Lỗi JSON: missing field".to_string())));
}

#[test]
fn extractors_handlers() {
    assert_eq!(list_courses(&Pagination { page: Some(2), limit: None }), "📚 Danh sách khóa học - Trang: 2, Giới hạn: 10");
    assert_eq!(get_course(9), "📖 Thông tin khóa học ID: 9");
    let created = create_course(ValidatedCourse(course("Rust")));
    assert_eq!((created.id, created.title.as_str(), created.description.as_str()), (101, "Rust", "d"));
    assert_eq!(delete_course(AdminToken, 1), "🗑️ Admin đã xóa thành công khóa học ID: 1");
    let state = AppState { db_pool: "postgres://localhost:5432/courses".into(), api_version: "v1.0-stable".into() };
    assert_eq!(check_state(&state), "⚙️ System: v1.0-stable, DB: postgres://localhost:5432/courses");
    assert_eq!(extractors::not_found(), (404, "📍 Trang này không tồn tại!".to_string()));
}

#[test]
fn responses_handlers() {
    assert_eq!(pong_response(), "pong");
    assert_eq!(check_health(), (200, "Server is running at 2026".to_string()));
    let good = AuthenInf { client_id: Some("koha".into()), client_secret: Some("180299".into()) };
    assert_eq!(check_authen(&good), Ok("/dashboard".to_string()));
    let bad = AuthenInf { client_id: Some("koha".into()), client_secret: None };
    assert_eq!(check_authen(&bad), Err((401, "Login failed".to_string())));
    let courses = axum_course::responses::list_courses();
    assert!(courses.success);
    assert_eq!(courses.data.len(), 1);
    assert_eq!((courses.data[0].id, courses.data[0].title.as_str(), courses.data[0].price_cents), (1, "rust", 1_000_000));
    let page = dashboard();
    assert_eq!(page.status, 200);
    assert_eq!(page.html, DASHBOARD_HTML);
    assert!(page.html.contains("<h1>📊 Course Dashboard</h1>"));
    assert_eq!(page.headers, vec![("X-Course-Version".to_string(), "v1.0.0".to_string()), ("X-Author".to_string(), "Koha".to_string())]);
    let one = get_course_detail(1).unwrap();
    assert!(one.success);
    assert_eq!(one.data.title, "rust");
    assert_eq!(get_course_detail(2).unwrap_err(), (404, "Không tìm thấy khóa học".to_string()));
}

#[test]
fn errors_handlers() {
    assert_eq!(get_user(1), Ok(User { id: 1, name: "Alice".into() }));
    assert_eq!(get_user(2), Ok(User { id: 2, name: "Bob".into() }));
    assert_eq!(get_user(999), Err(AppError::UserNotFound(999)));
    assert_eq!(validate_input("ab"), Err(AppError::InvalidInput("Value must be at least 3 characters".into())));
    assert_eq!(validate_input("abc"), Ok("Valid input: abc".to_string()));
    assert_eq!(protected_resource(), Err(AppError::Unauthorized));
    assert_eq!(database_operation(), Err(AppError::DatabaseError("Connection timeout".into())));
    assert_eq!(validate_user(&User { id: 1, name: String::new() }), Err(AppError::InvalidInput("Name cannot be empty".into())));
}

#[test]
fn errors_complex_operation() {
    assert_eq!(find_user(0), Err(AppError::InvalidInput("ID cannot be zero".into())));
    assert_eq!(find_user(101), Err(AppError::UserNotFound(101)));
    assert_eq!(complex_operation(42), Ok(User { id: 42, name: "User42".into() }));
    assert_eq!(complex_operation(100), Ok(User { id: 100, name: "User100".into() }));
    assert_eq!(complex_operation(0), Err(AppError::InvalidInput("ID cannot be zero".into())));
    assert_eq!(complex_operation(500), Err(AppError::UserNotFound(500)));
}

#[test]
fn errors_answers() {
    let (s, b) = AppError::UserNotFound(999).into_response();
    assert_eq!((s, b.code, b.error.as_str()), (404, 404, "User not found: 999"));
    let (s, b) = AppError::InvalidInput("x".into()).into_response();
    assert_eq!((s, b.error.as_str()), (400, "Invalid input: x"));
    let (s, b) = AppError::DatabaseError("Connection timeout".into()).into_response();
    assert_eq!((s, b.error.as_str()), (500, "Database error: Connection timeout"));
    let (s, b) = AppError::Unauthorized.into_response();
    assert_eq!((s, b.error.as_str()), (401, "Unauthorized"));
    let (s, b) = AppError::Internal.into_response();
    assert_eq!((s, b.code, b.error.as_str()), (500, 500, "Internal server error"));
}
