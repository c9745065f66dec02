use vstd::prelude::*;
use vstd::string::StrSliceExecFns;

verus! {

/// Sort direction of a listing.
#[derive(Debug, Clone, Copy, PartialEq, Eq)]
pub enum Order {
    Asc,
    Desc,
}

/// Sort key of an entry listing.
#[derive(Debug, Clone, Copy, PartialEq, Eq)]
pub enum OrderBy {
    CreatedAt,
    UpdatedAt,
    NetVotes,
}

/// A page request: pages count from zero, with 1 to 100 items a page.
#[derive(Debug, Clone, Copy)]
pub struct PaginationQuery {
    pub page: u8,
    pub per_page: u8,
}

impl PaginationQuery {
    pub open spec fn valid(&self) -> bool {
        1 <= self.per_page <= 100
    }

    pub fn validate(&self) -> (r: bool)
        ensures
            r == self.valid(),
    {
        1 <= self.per_page && self.per_page <= 100
    }
}

/// One page of a listing, with the total number of items.
#[derive(Debug, Clone)]
pub struct PaginationResponse<T> {
    pub total: u64,
    pub page: u8,
    pub per_page: u8,
    pub items: Vec<T>,
}

/// A page request for a user's bin: pages count from one, with 1 to 100 items
/// a page.
#[derive(Debug, Clone, Copy)]
pub struct GetUserBinQuery {
    pub per_page: u8,
    pub page: u8,
}

impl GetUserBinQuery {
    pub open spec fn valid(&self) -> bool {
        1 <= self.per_page <= 100 && 1 <= self.page
    }

    pub fn validate(&self) -> (r: bool)
        ensures
            r == self.valid(),
    {
        1 <= self.per_page && self.per_page <= 100 && 1 <= self.page
    }
}

/// The title an entry stands under.
#[derive(Debug, Clone)]
pub struct EntryTitleDto {
    pub id: i32,
    pub name: String,
}

/// The author of an entry.
#[derive(Debug, Clone)]
pub struct EntryAuthorDto {
    pub id: i32,
    pub nickname: String,
    pub is_faded: bool,
}

/// A new entry: a title of 1 to 75 characters and content of 1 to 65535.
#[derive(Debug, Clone)]
pub struct CreateEntryRequest {
    pub title: String,
    pub content: String,
}

impl CreateEntryRequest {
    pub open spec fn valid(&self) -> bool {
        1 <= self.title@.len() <= 75 && 1 <= self.content@.len() <= 65535
    }

    pub fn validate(&self) -> (r: bool)
        ensures
            r == self.valid(),
    {
        let t = self.title.as_str().unicode_len();
        let c = self.content.as_str().unicode_len();
        1 <= t && t <= 75 && 1 <= c && c <= 65535
    }
}

/// New content for an entry, 1 to 65535 characters.
#[derive(Debug, Clone)]
pub struct UpdateEntryRequest {
    pub content: String,
}

impl UpdateEntryRequest {
    pub open spec fn valid(&self) -> bool {
        1 <= self.content@.len() <= 65535
    }

    pub fn validate(&self) -> (r: bool)
        ensures
            r == self.valid(),
    {
        let c = self.content.as_str().unicode_len();
        1 <= c && c <= 65535
    }
}

/// A search for titles.
#[derive(Debug, Clone)]
pub struct SearchQuery {
    pub query: String,
}

/// One title found by a search.
#[derive(Debug, Clone)]
pub struct SearchItem {
    pub id: i32,
    pub name: String,
}

/// Site-wide counts.
#[derive(Debug, Clone, Copy)]
pub struct StatisticsResponse {
    pub title_count: u64,
    pub entry_count: u64,
    pub user_count: u64,
    pub crew_count: u64,
}

/// A title with its number of entries today.
#[derive(Debug, Clone)]
pub struct TodayTitleDto {
    pub id: i32,
    pub name: String,
    pub entry_count: u64,
}

/// A trending title with its number of recent entries.
#[derive(Debug, Clone)]
pub struct TrendTitleDto {
    pub id: i32,
    pub name: String,
    pub entry_count: i64,
}

} // verus!
