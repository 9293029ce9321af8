//! The routing lesson: a resource with every method, nested users, posts
//! and comments, paginated items, a wildcard file path and a fallback.
use vstd::prelude::*;
use crate::text::{join2, join3, decimal, with_number};

verus! {

/// The ids of a comment's path: user, post and comment.
#[derive(Debug, Clone, PartialEq, Eq)]
pub struct PostPath {
    pub user_id: u64,
    pub post_id: u64,
    pub comment_id: u64,
}

/// The optional page and limit of a listing's query.
#[derive(Debug, Clone, PartialEq, Eq)]
pub struct Pagination {
    pub page: Option<u32>,
    pub limit: Option<u32>,
}

/// The value of an optional query parameter, or its default.
pub open spec fn or_default(v: Option<u32>, default: u32) -> u32 {
    match v {
        Some(x) => x,
        None => default,
    }
}

/// A value given in the query is used as given, whatever it is; only a
/// missing value takes the default.
pub proof fn law_query_values_used_as_given(x: u32, default: u32)
    ensures
        or_default(Some(x), default) == x,
        or_default(None, default) == default,
{
}

/// Reads a resource.
pub fn get_resource(id: u64) -> (r: String)
    ensures
        r@ == "🔍 GET: Đọc tài nguyên "@ + decimal(id as nat),
{
    with_number("🔍 GET: Đọc tài nguyên ", id)
}

/// Creates a resource.
pub fn create_resource() -> (r: String)
    ensures
        r@ == "🆕 POST: Tạo tài nguyên mới"@,
{
    String::from_str("🆕 POST: Tạo tài nguyên mới")
}

/// Replaces a resource.
pub fn update_resource(id: u64) -> (r: String)
    ensures
        r@ == "💾 PUT: Cập nhật toàn bộ "@ + decimal(id as nat),
{
    with_number("💾 PUT: Cập nhật toàn bộ ", id)
}

/// Updates part of a resource.
pub fn patch_resource(id: u64) -> (r: String)
    ensures
        r@ == "🩹 PATCH: Cập nhật một phần "@ + decimal(id as nat),
{
    with_number("🩹 PATCH: Cập nhật một phần ", id)
}

/// Deletes a resource.
pub fn delete_resource(id: u64) -> (r: String)
    ensures
        r@ == "🗑️ DELETE: Xóa tài nguyên "@ + decimal(id as nat),
{
    with_number("🗑️ DELETE: Xóa tài nguyên ", id)
}

/// Lists the users.
pub fn list_users() -> (r: String)
    ensures
        r@ == "👥 Danh sách người dùng"@,
{
    String::from_str("👥 Danh sách người dùng")
}

/// Shows a user.
pub fn get_user(id: u64) -> (r: String)
    ensures
        r@ == "👤 Chi tiết User: "@ + decimal(id as nat),
{
    with_number("👤 Chi tiết User: ", id)
}

/// Shows a post of a user.
pub fn get_post(user_id: u64, post_id: u64) -> (r: String)
    ensures
        r@ == "📝 User "@ + decimal(user_id as nat) + " - Post "@ + decimal(post_id as nat),
{
    let head = with_number("📝 User ", user_id);
    let tail = with_number(" - Post ", post_id);
    join2(head.as_str(), tail.as_str())
}

/// Shows a comment of a post of a user.
pub fn get_comment(params: &PostPath) -> (r: String)
    ensures
        r@ == "💬 User "@ + decimal(params.user_id as nat) + " -> Post "@ + decimal(
            params.post_id as nat,
        ) + " -> Comment "@ + decimal(params.comment_id as nat),
{
    let a = with_number("💬 User ", params.user_id);
    let b = with_number(" -> Post ", params.post_id);
    let c = with_number(" -> Comment ", params.comment_id);
    join3(a.as_str(), b.as_str(), c.as_str())
}

/// Lists items: page 1 and a limit of 10 unless the query says otherwise.
pub fn list_items(q: &Pagination) -> (r: String)
    ensures
        r@ == "📦 Items - Page: "@ + decimal(or_default(q.page, 1) as nat) + ", Limit: "@
            + decimal(or_default(q.limit, 10) as nat),
        (q.page, q.limit) matches (Some(p), Some(l)) ==> r@ == "📦 Items - Page: "@ + decimal(
            p as nat,
        ) + ", Limit: "@ + decimal(l as nat),
        (q.page, q.limit) matches (Some(p), None) ==> r@ == "📦 Items - Page: "@ + decimal(
            p as nat,
        ) + ", Limit: "@ + decimal(10),
        (q.page, q.limit) matches (None, Some(l)) ==> r@ == "📦 Items - Page: "@ + decimal(1)
            + ", Limit: "@ + decimal(l as nat),
        q.page is None && q.limit is None ==> r@ == "📦 Items - Page: "@ + decimal(1)
            + ", Limit: "@ + decimal(10),
{
    let page = match q.page {
        Some(p) => p,
        None => 1,
    };
    let limit = match q.limit {
        Some(l) => l,
        None => 10,
    };
    let a = with_number("📦 Items - Page: ", page as u64);
    let b = with_number(", Limit: ", limit as u64);
    join2(a.as_str(), b.as_str())
}

/// Shows the path of a static file.
pub fn files(path: &str) -> (r: String)
    ensures
        r@ == "📂 File: "@ + path@,
{
    join2("📂 File: ", path)
}

/// The root of the routing lesson.
pub fn home() -> (r: String)
    ensures
        r@ == "🚀 Axum 0.8 Full Routing Module Ready!"@,
{
    String::from_str("🚀 Axum 0.8 Full Routing Module Ready!")
}

/// The answer to any route that does not exist.
pub fn not_found() -> (r: (u16, String))
    ensures
        r.0 == 404,
        r.1@ == "🚫 404 Not Found"@,
{
    (404, String::from_str("🚫 404 Not Found"))
}

} // verus!
