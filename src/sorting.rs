//! Listing and sort modes, and the wire values they are sent as.

use vstd::prelude::*;

verus! {

/// The order of a subreddit listing.
#[derive(Debug, Clone, Copy, PartialEq, Eq, Structural)]
pub enum SortingMode {
    Default,
    Hot,
    New,
    Rising,
    Controversial,
    Top,
}

/// The time window of a listing sorted by `Top`.
#[derive(Debug, Clone, Copy, PartialEq, Eq, Structural)]
pub enum TopSortingTime {
    PastHour,
    Past24Hours,
    PastWeek,
    PastMonth,
    PastYear,
    AllTime,
}

/// The order of the comments under a post.
#[derive(Debug, Clone, Copy, PartialEq, Eq, Structural)]
pub enum CommentSortingMode {
    Suggested,
    Best,
    New,
    Controversial,
    Old,
    Top,
    QAndA,
}

/// The order of search results.
#[derive(Debug, Clone, Copy, PartialEq, Eq, Structural)]
pub enum SearchSortingMode {
    Relevance,
    New,
    Comments,
}

/// The time window of search results and user pages.
#[derive(Debug, Clone, Copy, PartialEq, Eq, Structural)]
pub enum SearchTimeOrdering {
    PastHour,
    Past24Hours,
    PastWeek,
    PastMonth,
    PastYear,
    AllTime,
}

/// The order of a user's page.
#[derive(Debug, Clone, Copy, PartialEq, Eq, Structural)]
pub enum UserSortingMode {
    Hot,
    New,
    Top,
    Controversial,
}

/// Which of a user's contributions a user page lists.
#[derive(Debug, Clone, Copy, PartialEq, Eq, Structural)]
pub enum UserFilterMode {
    /// Posts and comments together.
    Overview,
    /// Posts only.
    Submitted,
    /// Comments only.
    Comments,
}

impl Default for SortingMode {
    fn default() -> (r: SortingMode)
        ensures
            r == SortingMode::Default,
    {
        SortingMode::Default
    }
}

impl Default for TopSortingTime {
    fn default() -> (r: TopSortingTime)
        ensures
            r == TopSortingTime::PastWeek,
    {
        TopSortingTime::PastWeek
    }
}

impl Default for CommentSortingMode {
    fn default() -> (r: CommentSortingMode)
        ensures
            r == CommentSortingMode::Suggested,
    {
        CommentSortingMode::Suggested
    }
}

impl Default for SearchSortingMode {
    fn default() -> (r: SearchSortingMode)
        ensures
            r == SearchSortingMode::Relevance,
    {
        SearchSortingMode::Relevance
    }
}

impl Default for SearchTimeOrdering {
    fn default() -> (r: SearchTimeOrdering)
        ensures
            r == SearchTimeOrdering::AllTime,
    {
        SearchTimeOrdering::AllTime
    }
}

impl Default for UserSortingMode {
    fn default() -> (r: UserSortingMode)
        ensures
            r == UserSortingMode::New,
    {
        UserSortingMode::New
    }
}

impl Default for UserFilterMode {
    fn default() -> (r: UserFilterMode)
        ensures
            r == UserFilterMode::Overview,
    {
        UserFilterMode::Overview
    }
}

/// The file a sorted subreddit listing is served from; `Default` has none
/// and is served from the subreddit's own file.
pub open spec fn listing_file(m: SortingMode) -> Option<Seq<char>> {
    match m {
        SortingMode::Default => None,
        SortingMode::Hot => Some("hot.json"@),
        SortingMode::New => Some("new.json"@),
        SortingMode::Rising => Some("rising.json"@),
        SortingMode::Controversial => Some("controversial.json"@),
        SortingMode::Top => Some("top.json"@),
    }
}

/// The value of the `t` parameter for a top listing.
pub open spec fn top_time_value(t: TopSortingTime) -> Seq<char> {
    match t {
        TopSortingTime::PastHour => "hour"@,
        TopSortingTime::Past24Hours => "day"@,
        TopSortingTime::PastWeek => "week"@,
        TopSortingTime::PastMonth => "month"@,
        TopSortingTime::PastYear => "year"@,
        TopSortingTime::AllTime => "all"@,
    }
}

/// The value of the `sort` parameter for comments; the suggested order sends none.
pub open spec fn comment_sort_value(m: CommentSortingMode) -> Option<Seq<char>> {
    match m {
        CommentSortingMode::Suggested => None,
        CommentSortingMode::Best => Some("confidence"@),
        CommentSortingMode::New => Some("new"@),
        CommentSortingMode::Controversial => Some("controversial"@),
        CommentSortingMode::Old => Some("old"@),
        CommentSortingMode::Top => Some("top"@),
        CommentSortingMode::QAndA => Some("qa"@),
    }
}

/// The value of the `sort` parameter for a search.
pub open spec fn search_sort_value(m: SearchSortingMode) -> Seq<char> {
    match m {
        SearchSortingMode::Relevance => "relevance"@,
        SearchSortingMode::New => "new"@,
        SearchSortingMode::Comments => "comments"@,
    }
}

/// The value of the `t` parameter for a search or a user page.
pub open spec fn search_time_value(t: SearchTimeOrdering) -> Seq<char> {
    match t {
        SearchTimeOrdering::PastHour => "hour"@,
        SearchTimeOrdering::Past24Hours => "day"@,
        SearchTimeOrdering::PastWeek => "week"@,
        SearchTimeOrdering::PastMonth => "month"@,
        SearchTimeOrdering::PastYear => "year"@,
        SearchTimeOrdering::AllTime => "all"@,
    }
}

/// The value of the `sort` parameter for a user page.
pub open spec fn user_sort_value(m: UserSortingMode) -> Seq<char> {
    match m {
        UserSortingMode::Hot => "hot"@,
        UserSortingMode::New => "new"@,
        UserSortingMode::Top => "top"@,
        UserSortingMode::Controversial => "controversial"@,
    }
}

/// The file a user page is served from, below the user's own route;
/// the overview has none and is served from the user's own file.
pub open spec fn user_file(f: UserFilterMode) -> Option<Seq<char>> {
    match f {
        UserFilterMode::Overview => None,
        UserFilterMode::Submitted => Some("submitted.json"@),
        UserFilterMode::Comments => Some("comments.json"@),
    }
}

impl SortingMode {
    /// The file this listing is served from, below the subreddit's route.
    pub fn file(self) -> (r: Option<&'static str>)
        ensures
            match r {
                Some(f) => listing_file(self) == Some(f@),
                None => listing_file(self) is None,
            },
    {
        match self {
            SortingMode::Default => None,
            SortingMode::Hot => Some("hot.json"),
            SortingMode::New => Some("new.json"),
            SortingMode::Rising => Some("rising.json"),
            SortingMode::Controversial => Some("controversial.json"),
            SortingMode::Top => Some("top.json"),
        }
    }
}

impl TopSortingTime {
    /// The wire value of this window.
    pub fn value(self) -> (r: &'static str)
        ensures
            r@ == top_time_value(self),
    {
        match self {
            TopSortingTime::PastHour => "hour",
            TopSortingTime::Past24Hours => "day",
            TopSortingTime::PastWeek => "week",
            TopSortingTime::PastMonth => "month",
            TopSortingTime::PastYear => "year",
            TopSortingTime::AllTime => "all",
        }
    }
}

impl CommentSortingMode {
    /// The wire value of this order, if it sends one.
    pub fn value(self) -> (r: Option<&'static str>)
        ensures
            match r {
                Some(v) => comment_sort_value(self) == Some(v@),
                None => comment_sort_value(self) is None,
            },
    {
        match self {
            CommentSortingMode::Suggested => None,
            CommentSortingMode::Best => Some("confidence"),
            CommentSortingMode::New => Some("new"),
            CommentSortingMode::Controversial => Some("controversial"),
            CommentSortingMode::Old => Some("old"),
            CommentSortingMode::Top => Some("top"),
            CommentSortingMode::QAndA => Some("qa"),
        }
    }
}

impl SearchSortingMode {
    /// The wire value of this order.
    pub fn value(self) -> (r: &'static str)
        ensures
            r@ == search_sort_value(self),
    {
        match self {
            SearchSortingMode::Relevance => "relevance",
            SearchSortingMode::New => "new",
            SearchSortingMode::Comments => "comments",
        }
    }
}

impl SearchTimeOrdering {
    /// The wire value of this window.
    pub fn value(self) -> (r: &'static str)
        ensures
            r@ == search_time_value(self),
    {
        match self {
            SearchTimeOrdering::PastHour => "hour",
            SearchTimeOrdering::Past24Hours => "day",
            SearchTimeOrdering::PastWeek => "week",
            SearchTimeOrdering::PastMonth => "month",
            SearchTimeOrdering::PastYear => "year",
            SearchTimeOrdering::AllTime => "all",
        }
    }
}

impl UserSortingMode {
    /// The wire value of this order.
    pub fn value(self) -> (r: &'static str)
        ensures
            r@ == user_sort_value(self),
    {
        match self {
            UserSortingMode::Hot => "hot",
            UserSortingMode::New => "new",
            UserSortingMode::Top => "top",
            UserSortingMode::Controversial => "controversial",
        }
    }
}

impl UserFilterMode {
    /// The file this page is served from, below the user's route.
    pub fn file(self) -> (r: Option<&'static str>)
        ensures
            match r {
                Some(f) => user_file(self) == Some(f@),
                None => user_file(self) is None,
            },
    {
        match self {
            UserFilterMode::Overview => None,
            UserFilterMode::Submitted => Some("submitted.json"),
            UserFilterMode::Comments => Some("comments.json"),
        }
    }
}

} // verus!
