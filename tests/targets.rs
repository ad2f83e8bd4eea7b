use reddit_api::pages::{CommentsParams, SearchParams, SubredditParams, UserParams};
use reddit_api::query::QueryBuilder;
use reddit_api::sorting::{
    CommentSortingMode, SearchSortingMode, SearchTimeOrdering, SortingMode, TopSortingTime,
    UserFilterMode, UserSortingMode,
};
use reddit_api::targets::{
    comments_target, search_target, subreddit_target, user_target, wiki_target,
};

const ORIGIN: &str = "https://www.reddit.com";

#[test]
fn comment_sort_parameters() {
    let cases = [
        (CommentSortingMode::Suggested, ""),
        (CommentSortingMode::Best, "?sort=confidence"),
        (CommentSortingMode::New, "?sort=new"),
        (CommentSortingMode::Controversial, "?sort=controversial"),
        (CommentSortingMode::Old, "?sort=old"),
        (CommentSortingMode::Top, "?sort=top"),
        (CommentSortingMode::QAndA, "?sort=qa"),
    ];
    for (mode, query) in cases {
        assert_eq!(
            comments_target(ORIGIN, "rust", "16kksoi", mode),
            format!("https://www.reddit.com/r/rust/comments/16kksoi.json{}", query)
        );
    }
}

#[test]
fn listing_sort_routes() {
    let cases = [
        (SortingMode::Default, "/r/rust.json"),
        (SortingMode::Hot, "/r/rust/hot.json"),
        (SortingMode::New, "/r/rust/new.json"),
        (SortingMode::Rising, "/r/rust/rising.json"),
        (SortingMode::Controversial, "/r/rust/controversial.json"),
        (SortingMode::Top, "/r/rust/top.json?t=week"),
    ];
    for (mode, path) in cases {
        assert_eq!(
            subreddit_target(ORIGIN, "rust", mode, TopSortingTime::PastWeek, None),
            format!("https://www.reddit.com{}", path)
        );
    }
}

#[test]
fn top_listing_windows() {
    let cases = [
        (TopSortingTime::PastHour, "hour"),
        (TopSortingTime::Past24Hours, "day"),
        (TopSortingTime::PastWeek, "week"),
        (TopSortingTime::PastMonth, "month"),
        (TopSortingTime::PastYear, "year"),
        (TopSortingTime::AllTime, "all"),
    ];
    for (time, value) in cases {
        assert_eq!(
            subreddit_target(ORIGIN, "rust", SortingMode::Top, time, None),
            format!("https://www.reddit.com/r/rust/top.json?t={}", value)
        );
    }
}

#[test]
fn listing_cursor_follows_the_query() {
    assert_eq!(
        subreddit_target(ORIGIN, "rust", SortingMode::Hot, TopSortingTime::AllTime, Some("t3_16kksoi")),
        "https://www.reddit.com/r/rust/hot.json?after=t3_16kksoi"
    );
    assert_eq!(
        subreddit_target(ORIGIN, "rust", SortingMode::Top, TopSortingTime::Past24Hours, Some("t3_16kksoi")),
        "https://www.reddit.com/r/rust/top.json?t=day&after=t3_16kksoi"
    );
    assert_eq!(
        subreddit_target(ORIGIN, "rust", SortingMode::Default, TopSortingTime::PastWeek, Some("t3_a")),
        "https://www.reddit.com/r/rust.json?after=t3_a"
    );
}

#[test]
fn search_parameters() {
    assert_eq!(
        search_target(
            ORIGIN,
            "rust",
            "async traits",
            SearchSortingMode::New,
            SearchTimeOrdering::Past24Hours,
            Some("t3_x"),
            true,
            true
        ),
        "https://www.reddit.com/r/rust/search.json?q=async%20traits&sort=new&t=day&restrict_sr=on&include_over_18=on&after=t3_x"
    );
    assert_eq!(
        search_target(
            ORIGIN,
            "rust",
            "a&b",
            SearchSortingMode::Comments,
            SearchTimeOrdering::PastMonth,
            None,
            false,
            false
        ),
        "https://www.reddit.com/r/rust/search.json?q=a%26b&sort=comments&t=month"
    );
    assert_eq!(
        search_target(
            ORIGIN,
            "rust",
            "x",
            SearchSortingMode::Relevance,
            SearchTimeOrdering::PastHour,
            None,
            true,
            false
        ),
        "https://www.reddit.com/r/rust/search.json?q=x&sort=relevance&t=hour&include_over_18=on"
    );
}

#[test]
fn user_and_wiki_targets() {
    assert_eq!(
        user_target(ORIGIN, "spez", UserFilterMode::Overview, UserSortingMode::Top, SearchTimeOrdering::PastYear, None),
        "https://www.reddit.com/user/spez.json?sort=top&t=year"
    );
    assert_eq!(
        user_target(ORIGIN, "spez", UserFilterMode::Comments, UserSortingMode::New, SearchTimeOrdering::AllTime, Some("t1_q")),
        "https://www.reddit.com/user/spez/comments.json?sort=new&t=all&after=t1_q"
    );
    assert_eq!(wiki_target(ORIGIN, "rust"), "https://www.reddit.com/r/rust/wiki.json");
}

#[test]
fn builder_escapes_and_joins() {
    let mut b = QueryBuilder::new("http://h");
    b.add_route("a b");
    b.add_route("caf\u{e9}");
    b.add_param("k", "v/1");
    b.add_param("q", "~x_y-z.");
    assert_eq!(b.build(), "http://h/a%20b/caf%C3%A9?k=v%2F1&q=~x_y-z.");
    let plain = QueryBuilder::new("http://h");
    assert_eq!(plain.build(), "http://h");
}

#[test]
fn params_fall_back_to_defaults() {
    let c = CommentsParams { gallery_index: None, sorting: None };
    assert_eq!(c.target(ORIGIN, "rust", "abc"), "https://www.reddit.com/r/rust/comments/abc.json");
    assert_eq!(c.gallery(), 0);
    let c = CommentsParams { gallery_index: Some(3), sorting: Some(CommentSortingMode::Top) };
    assert_eq!(c.target(ORIGIN, "rust", "abc"), "https://www.reddit.com/r/rust/comments/abc.json?sort=top");
    assert_eq!(c.gallery(), 3);
    let s = SubredditParams { sort: None, t: None, after: None };
    assert_eq!(s.target(ORIGIN, "rust"), "https://www.reddit.com/r/rust.json");
    let s = SubredditParams { sort: Some(SortingMode::Top), t: None, after: Some("t3_z".to_string()) };
    assert_eq!(s.target(ORIGIN, "rust"), "https://www.reddit.com/r/rust/top.json?t=week&after=t3_z");
    let q = SearchParams {
        q: "ferris".to_string(),
        sort: None,
        t: None,
        include_over_18: None,
        only_current_subreddit: Some(true),
        after: None,
    };
    assert_eq!(
        q.target(ORIGIN, "rust"),
        "https://www.reddit.com/r/rust/search.json?q=ferris&sort=relevance&t=all&restrict_sr=on"
    );
    let u = UserParams { sort: None, filter: Some(UserFilterMode::Submitted), t: None, after: None };
    assert_eq!(u.target(ORIGIN, "spez"), "https://www.reddit.com/user/spez/submitted.json?sort=new&t=all");
}
