//! The query parameters of each page, with the defaults they fall back to,
//! and the data each page is rendered from.

use vstd::prelude::*;
use crate::assemble::CommentsQuery;
use crate::entities::WikiPageData;
use crate::fields::opt_view;
use crate::sorting::{
    CommentSortingMode, SearchSortingMode, SearchTimeOrdering, SortingMode, TopSortingTime,
    UserFilterMode, UserSortingMode,
};
use crate::targets::{
    comments_target, comments_target_of, search_target, search_target_of, subreddit_target,
    subreddit_target_of, user_target, user_target_of,
};

verus! {

/// The parameters of a comments page.
#[derive(Debug, Clone)]
pub struct CommentsParams {
    pub gallery_index: Option<usize>,
    pub sorting: Option<CommentSortingMode>,
}

/// The parameters of a subreddit page.
#[derive(Debug, Clone)]
pub struct SubredditParams {
    pub sort: Option<SortingMode>,
    pub t: Option<TopSortingTime>,
    pub after: Option<String>,
}

/// The parameters of a search page.
#[derive(Debug, Clone)]
pub struct SearchParams {
    pub q: String,
    pub sort: Option<SearchSortingMode>,
    pub t: Option<SearchTimeOrdering>,
    pub include_over_18: Option<bool>,
    pub only_current_subreddit: Option<bool>,
    pub after: Option<String>,
}

/// The parameters of a user page.
#[derive(Debug, Clone)]
pub struct UserParams {
    pub sort: Option<UserSortingMode>,
    pub filter: Option<UserFilterMode>,
    pub t: Option<SearchTimeOrdering>,
    pub after: Option<String>,
}

/// The data of a comments page.
#[derive(Debug)]
pub struct CommentsTemplate {
    pub subreddit: String,
    pub data: CommentsQuery,
    pub gallery_index: usize,
}

/// The data of a wiki page.
#[derive(Debug)]
pub struct WikiTemplate {
    pub subreddit: String,
    pub data: WikiPageData,
}

pub open spec fn or_else<T>(o: Option<T>, d: T) -> T {
    match o {
        Some(v) => v,
        None => d,
    }
}

fn borrowed(o: &Option<String>) -> (r: Option<&str>)
    ensures
        match r {
            Some(s) => opt_view(*o) == Some(s@),
            None => o is None,
        },
{
    match o {
        Some(s) => Some(s.as_str()),
        None => None,
    }
}

impl CommentsParams {
    /// The target of the comments of `post_id`, sorted as asked or as suggested.
    pub fn target(&self, origin: &str, subreddit: &str, post_id: &str) -> (r: String)
        ensures
            r@ == comments_target_of(
                origin@,
                subreddit@,
                post_id@,
                or_else(self.sorting, CommentSortingMode::Suggested),
            ),
    {
        let sort = match self.sorting {
            Some(s) => s,
            None => CommentSortingMode::Suggested,
        };
        comments_target(origin, subreddit, post_id, sort)
    }

    /// The gallery image asked for, the first by default.
    pub fn gallery(&self) -> (r: usize)
        ensures
            r == or_else(self.gallery_index, 0),
    {
        match self.gallery_index {
            Some(i) => i,
            None => 0,
        }
    }
}

impl SubredditParams {
    /// The target of the listing asked for; the window of a top listing is
    /// the past week unless given.
    pub fn target(&self, origin: &str, subreddit: &str) -> (r: String)
        ensures
            r@ == subreddit_target_of(
                origin@,
                subreddit@,
                or_else(self.sort, SortingMode::Default),
                or_else(self.t, TopSortingTime::PastWeek),
                opt_view(self.after),
            ),
    {
        let sort = match self.sort {
            Some(s) => s,
            None => SortingMode::Default,
        };
        let time = match self.t {
            Some(t) => t,
            None => TopSortingTime::PastWeek,
        };
        subreddit_target(origin, subreddit, sort, time, borrowed(&self.after))
    }
}

impl SearchParams {
    /// The target of the search asked for: by relevance, over all time, and
    /// with neither restriction unless given.
    pub fn target(&self, origin: &str, subreddit: &str) -> (r: String)
        ensures
            r@ == search_target_of(
                origin@,
                subreddit@,
                self.q@,
                or_else(self.sort, SearchSortingMode::Relevance),
                or_else(self.t, SearchTimeOrdering::AllTime),
                opt_view(self.after),
                or_else(self.include_over_18, false),
                or_else(self.only_current_subreddit, false),
            ),
    {
        let sort = match self.sort {
            Some(s) => s,
            None => SearchSortingMode::Relevance,
        };
        let time = match self.t {
            Some(t) => t,
            None => SearchTimeOrdering::AllTime,
        };
        let over_18 = match self.include_over_18 {
            Some(b) => b,
            None => false,
        };
        let restrict = match self.only_current_subreddit {
            Some(b) => b,
            None => false,
        };
        search_target(
            origin,
            subreddit,
            self.q.as_str(),
            sort,
            time,
            borrowed(&self.after),
            over_18,
            restrict,
        )
    }
}

impl UserParams {
    /// The target of the user page asked for: the overview, newest first,
    /// over all time, unless given.
    pub fn target(&self, origin: &str, username: &str) -> (r: String)
        ensures
            r@ == user_target_of(
                origin@,
                username@,
                or_else(self.filter, UserFilterMode::Overview),
                or_else(self.sort, UserSortingMode::New),
                or_else(self.t, SearchTimeOrdering::AllTime),
                opt_view(self.after),
            ),
    {
        let filter = match self.filter {
            Some(f) => f,
            None => UserFilterMode::Overview,
        };
        let sort = match self.sort {
            Some(s) => s,
            None => UserSortingMode::New,
        };
        let time = match self.t {
            Some(t) => t,
            None => SearchTimeOrdering::AllTime,
        };
        user_target(origin, username, filter, sort, time, borrowed(&self.after))
    }
}

} // verus!
