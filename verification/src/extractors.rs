//! The extractors lesson: an administrator token taken from a header, a
//! course body validated before the handler sees it, and shared state.
use vstd::prelude::*;
use crate::routing::{or_default, Pagination};
use crate::text::{byte_count, join2, join3, decimal, is_blank, is_blank_text, same_text, with_number};

verus! {

/// The state shared by the lesson's handlers.
#[derive(Debug, Clone, PartialEq, Eq)]
pub struct AppState {
    pub db_pool: String,
    pub api_version: String,
}

/// The body of a request that creates a course.
#[derive(Debug, Clone, PartialEq, Eq)]
pub struct CreateCourseRequest {
    pub title: String,
    pub description: String,
}

/// A created course.
#[derive(Debug, Clone, PartialEq, Eq)]
pub struct CourseResponse {
    pub id: u64,
    pub title: String,
    pub description: String,
}

/// Proof that the request carried the administrator's token.
#[derive(Debug, Clone, PartialEq, Eq)]
pub struct AdminToken;

impl AdminToken {
    /// Accepts the request when its `X-Auth-Token` header holds `secret-admin`,
    /// and answers 401 otherwise.
    pub fn from_request_parts(token: Option<&str>) -> (r: Result<AdminToken, (u16, String)>)
        ensures
            r is Ok <==> (token matches Some(t) && t@ == "secret-admin"@),
            r matches Err(e) ==> e.0 == 401 && e.1@ == "🚫 Lỗi: Bạn cần quyền Admin!"@,
    {
        if let Some(t) = token {
            if same_text(t, "secret-admin") {
                return Ok(AdminToken);
            }
        }
        Err((401, String::from_str("🚫 Lỗi: Bạn cần quyền Admin!")))
    }
}

/// A course body that passed validation.
#[derive(Debug, Clone, PartialEq, Eq)]
pub struct ValidatedCourse(pub CreateCourseRequest);

impl ValidatedCourse {
    /// Validates the course body, once parsed as JSON (`Err` holds the text of
    /// the parse failure): a body that does not parse, a blank title and a
    /// title under three bytes are each answered 400.
    pub fn from_request(parsed: Result<CreateCourseRequest, String>) -> (r: Result<ValidatedCourse, (u16, String)>)
        ensures
            parsed matches Err(e) ==> (r matches Err(x) && x.0 == 400 && x.1@ == "Lỗi JSON: "@ + e@),
            parsed matches Ok(p) ==> (if is_blank(p.title@) {
                r matches Err(x) && x.0 == 400 && x.1@ == "❌ Tiêu đề không được để trống!"@
            } else if byte_count(p.title@) < 3 {
                r matches Err(x) && x.0 == 400 && x.1@ == "❌ Tiêu đề phải có ít nhất 3 ký tự!"@
            } else {
                r matches Ok(v) && v.0 == p
            }),
    {
        let payload = match parsed {
            Ok(p) => p,
            Err(e) => {
                return Err((400, join2("Lỗi JSON: ", e.as_str())));
            },
        };
        if is_blank_text(payload.title.as_str()) {
            return Err((400, String::from_str("❌ Tiêu đề không được để trống!")));
        }
        if payload.title.as_str().len() < 3 {
            return Err((400, String::from_str("❌ Tiêu đề phải có ít nhất 3 ký tự!")));
        }
        Ok(ValidatedCourse(payload))
    }
}

/// Lists courses: page 1 and a limit of 10 unless the query says otherwise.
pub fn list_courses(q: &Pagination) -> (r: String)
    ensures
        r@ == "📚 Danh sách khóa học - Trang: "@ + decimal(or_default(q.page, 1) as nat)
            + ", Giới hạn: "@ + decimal(or_default(q.limit, 10) as nat),
        (q.page, q.limit) matches (Some(p), Some(l)) ==> r@ == "📚 Danh sách khóa học - Trang: "@
            + decimal(p as nat) + ", Giới hạn: "@ + decimal(l as nat),
        (q.page, q.limit) matches (Some(p), None) ==> r@ == "📚 Danh sách khóa học - Trang: "@
            + decimal(p as nat) + ", Giới hạn: "@ + decimal(10),
        (q.page, q.limit) matches (None, Some(l)) ==> r@ == "📚 Danh sách khóa học - Trang: "@
            + decimal(1) + ", Giới hạn: "@ + decimal(l as nat),
        q.page is None && q.limit is None ==> r@ == "📚 Danh sách khóa học - Trang: "@ + decimal(1)
            + ", Giới hạn: "@ + decimal(10),
{
    let page = match q.page {
        Some(p) => p,
        None => 1,
    };
    let limit = match q.limit {
        Some(l) => l,
        None => 10,
    };
    let a = with_number("📚 Danh sách khóa học - Trang: ", page as u64);
    let b = with_number(", Giới hạn: ", limit as u64);
    join2(a.as_str(), b.as_str())
}

/// Shows a course.
pub fn get_course(id: u64) -> (r: String)
    ensures
        r@ == "📖 Thông tin khóa học ID: "@ + decimal(id as nat),
{
    with_number("📖 Thông tin khóa học ID: ", id)
}

/// Creates a course from a validated body; every new course gets the id 101.
pub fn create_course(course: ValidatedCourse) -> (r: CourseResponse)
    ensures
        r.id == 101,
        r.title == course.0.title,
        r.description == course.0.description,
{
    let ValidatedCourse(payload) = course;
    CourseResponse { id: 101, title: payload.title, description: payload.description }
}

/// Deletes a course, for an administrator.
pub fn delete_course(admin: AdminToken, id: u64) -> (r: String)
    ensures
        r@ == "🗑️ Admin đã xóa thành công khóa học ID: "@ + decimal(id as nat),
{
    with_number("🗑️ Admin đã xóa thành công khóa học ID: ", id)
}

/// Reports the shared state.
pub fn check_state(state: &AppState) -> (r: String)
    ensures
        r@ == "⚙️ System: "@ + state.api_version@ + ", DB: "@ + state.db_pool@,
{
    let head = join3("⚙️ System: ", state.api_version.as_str(), ", DB: ");
    join2(head.as_str(), state.db_pool.as_str())
}

/// The answer to any route that does not exist.
pub fn not_found() -> (r: (u16, String))
    ensures
        r.0 == 404,
        r.1@ == "📍 Trang này không tồn tại!"@,
{
    (404, String::from_str("📍 Trang này không tồn tại!"))
}

} // verus!
