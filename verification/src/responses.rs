//! The responses lesson: plain texts, statuses, a redirect after a login
//! check, a JSON envelope and an HTML page with custom headers.
use vstd::prelude::*;
use crate::text::{decimal, same_text};

verus! {

/// The HTML of the course dashboard.
pub const DASHBOARD_HTML: &'static str = "\n        <!DOCTYPE html>\n        <html>\n        <head>\n            <meta charset=\"UTF-8\">\n            <title>Course Dashboard</title>\n            <style>\n                body { font-family: sans-serif; padding: 40px; background: #f4f4f9; }\n                .card { background: white; padding: 20px; border-radius: 8px; shadow: 0 2px 5px rgba(0,0,0,0.1); }\n                h1 { color: #333; }\n                li { margin-bottom: 10px; color: #555; }\n            </style>\n        </head>\n        <body>\n            <div class=\"card\">\n                <h1>📊 Course Dashboard</h1>\n                <p>Chào mừng bạn quay trở lại hệ thống quản lý!</p>\n                <ul>\n                    <li><b>Rust for Pro</b> - $99.0</li>\n                    <li><b>Axum Masterclass</b> - $49.0</li>\n                </ul>\n                <hr>\n                <a href=\"/api/v1/courses/json\">Xem dữ liệu JSON thô</a>\n            </div>\n        </body>\n        </html>\n    ";

/// The client credentials of the login query.
#[derive(Debug, Clone, PartialEq, Eq)]
pub struct AuthenInf {
    pub client_id: Option<String>,
    pub client_secret: Option<String>,
}

/// A course, with its price in hundredths.
#[derive(Debug, Clone, PartialEq, Eq)]
pub struct CourseInf {
    pub id: u64,
    pub title: String,
    pub price_cents: u64,
}

/// The JSON envelope of the lesson's answers.
#[derive(Debug, Clone, PartialEq, Eq)]
pub struct ApiResponse<T> {
    pub success: bool,
    pub data: T,
}

/// The dashboard: a status, headers and an HTML body.
#[derive(Debug, Clone, PartialEq, Eq)]
pub struct DashboardPage {
    pub status: u16,
    pub headers: Vec<(String, String)>,
    pub html: String,
}

/// Answers a ping.
pub fn pong_response() -> (r: String)
    ensures
        r@ == "pong"@,
{
    String::from_str("pong")
}

/// The health check: 200 and the year the server runs in.
pub fn check_health() -> (r: (u16, String))
    ensures
        r.0 == 200,
        r.1@ == "Server is running at "@ + decimal(2026),
{
    (200, crate::text::with_number("Server is running at ", 2026))
}

/// True when an optional text is present and equal to `expected`.
fn holds(value: &Option<String>, expected: &str) -> (r: bool)
    ensures
        r == (value matches Some(v) && v@ == expected@),
{
    match value {
        Some(v) => same_text(v.as_str(), expected),
        None => false,
    }
}

/// The login check: the client `koha` with the secret `180299` is sent to
/// the dashboard (the redirect target is returned); anyone else gets 401.
pub fn check_authen(q: &AuthenInf) -> (r: Result<String, (u16, String)>)
    ensures
        (q.client_id matches Some(i) && i@ == "koha"@) && (q.client_secret matches Some(s) && s@
            == "180299"@) ==> (r matches Ok(to) && to@ == "/dashboard"@),
        !((q.client_id matches Some(i) && i@ == "koha"@) && (q.client_secret matches Some(s) && s@
            == "180299"@)) ==> (r matches Err(e) && e.0 == 401 && e.1@ == "Login failed"@),
{
    if holds(&q.client_id, "koha") && holds(&q.client_secret, "180299") {
        Ok(String::from_str("/dashboard"))
    } else {
        Err((401, String::from_str("Login failed")))
    }
}

/// The one course of the catalogue.
pub open spec fn is_rust_course(c: CourseInf) -> bool {
    c.id == 1 && c.title@ == "rust"@ && c.price_cents == 1_000_000
}

/// The course of the catalogue is one course, field for field: id 1, title
/// `rust`, price 10000.00; the detail and the listing answer the same one.
pub proof fn law_one_rust_course(a: CourseInf, b: CourseInf)
    requires
        is_rust_course(a),
        is_rust_course(b),
    ensures
        a.id == 1,
        a.title@ == "rust"@,
        a.price_cents == 1_000_000,
        a.id == b.id && a.title@ == b.title@ && a.price_cents == b.price_cents,
{
}

fn rust_course() -> (r: CourseInf)
    ensures
        is_rust_course(r),
{
    CourseInf { id: 1, title: String::from_str("rust"), price_cents: 1_000_000 }
}

/// Lists the courses in the envelope: one course, `rust`, at 10000.00.
pub fn list_courses() -> (r: ApiResponse<Vec<CourseInf>>)
    ensures
        r.success,
        r.data@.len() == 1,
        is_rust_course(r.data@[0]),
        r.data@[0].id == 1 && r.data@[0].title@ == "rust"@ && r.data@[0].price_cents == 1_000_000,
{
    let mut courses: Vec<CourseInf> = Vec::new();
    courses.push(rust_course());
    ApiResponse { success: true, data: courses }
}

/// The course dashboard, with a version and an author header.
pub fn dashboard() -> (r: DashboardPage)
    ensures
        r.status == 200,
        r.html@ == DASHBOARD_HTML@,
        r.headers@.len() == 2,
        r.headers@[0].0@ == "X-Course-Version"@ && r.headers@[0].1@ == "v1.0.0"@,
        r.headers@[1].0@ == "X-Author"@ && r.headers@[1].1@ == "Koha"@,
{
    let html_content = String::from_str(DASHBOARD_HTML);
    let mut headers: Vec<(String, String)> = Vec::new();
    headers.push((String::from_str("X-Course-Version"), String::from_str("v1.0.0")));
    headers.push((String::from_str("X-Author"), String::from_str("Koha")));
    DashboardPage { status: 200, headers, html: html_content }
}

/// The course with id 1, in the envelope; any other id is answered 404.
pub fn get_course_detail(id: u64) -> (r: Result<ApiResponse<CourseInf>, (u16, String)>)
    ensures
        id == 1 ==> (r matches Ok(a) && a.success && is_rust_course(a.data)),
        id == 1 ==> (r matches Ok(a) && a.data.id == 1 && a.data.title@ == "rust"@
            && a.data.price_cents == 1_000_000),
        id != 1 ==> (r matches Err(e) && e.0 == 404 && e.1@ == "Không tìm thấy khóa học"@),
{
    if id == 1 {
        Ok(ApiResponse { success: true, data: rust_course() })
    } else {
        Err((404, String::from_str("Không tìm thấy khóa học")))
    }
}

} // verus!
