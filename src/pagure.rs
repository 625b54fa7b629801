use vstd::prelude::*;

verus! {

/// The query that an issue listing answers.
pub struct Args {
    pub assignee: Option<String>,
    pub author: Option<String>,
    pub milestones: Vec<String>,
    pub no_stones: Option<String>,
    pub order: Option<String>,
    pub priority: Option<String>,
    pub since: Option<String>,
    pub status: String,
    pub tags: Vec<String>,
}

/// A board that an issue is on.
pub struct Board {
    pub active: bool,
    pub full_url: String,
    pub name: String,
    pub status: Vec<BoardStatus>,
    pub tag: Tag,
}

/// One column of a board.
pub struct BoardStatus {
    pub bg_color: String,
    pub close: bool,
    pub close_status: Option<String>,
    pub default: bool,
    pub name: String,
}

pub struct Tag {
    pub tag: String,
    pub tag_color: String,
    pub tag_description: String,
}

pub struct User {
    pub full_url: String,
    pub fullname: String,
    pub name: String,
    pub url_path: String,
}

/// Where a page of an issue listing stands among the others.
pub struct Pagination {
    pub first: String,
    pub last: String,
    pub next: Option<String>,
    pub page: u64,
    pub pages: u64,
    pub per_page: u64,
    pub prev: Option<String>,
}

} // verus!
