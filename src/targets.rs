//! The request target of each endpoint.

use vstd::prelude::*;
use vstd::string::StringExecFns;
use crate::query::{escaped_text, lemma_plain_unescaped, param, plain, route, QueryBuilder};
use crate::sorting::{
    comment_sort_value, listing_file, search_sort_value, search_time_value, top_time_value,
    user_file, user_sort_value, CommentSortingMode, SearchSortingMode, SearchTimeOrdering,
    SortingMode, TopSortingTime, UserFilterMode, UserSortingMode,
};

verus! {

/// The view of an optional borrowed string.
pub open spec fn opt_str_view(o: Option<&str>) -> Option<Seq<char>> {
    match o {
        Some(s) => Some(s@),
        None => None,
    }
}

/// The pagination parameter for a cursor, if there is one.
pub open spec fn after_query(first: bool, after: Option<Seq<char>>) -> Seq<char> {
    match after {
        Some(a) => param(first, "after"@, a),
        None => Seq::empty(),
    }
}

/// The route of a resource that is served either from its own file or from a
/// file below it.
pub open spec fn file_route(name: Seq<char>, file: Option<Seq<char>>) -> Seq<char> {
    match file {
        Some(f) => route(name) + route(f),
        None => route(name + ".json"@),
    }
}

/// `/r/{subreddit}/comments/{post_id}.json`, with `sort` unless suggested.
pub open spec fn comments_target_of(
    origin: Seq<char>,
    subreddit: Seq<char>,
    post_id: Seq<char>,
    sort: CommentSortingMode,
) -> Seq<char> {
    origin + route("r"@) + route(subreddit) + route("comments"@) + route(post_id + ".json"@)
        + match comment_sort_value(sort) {
        Some(v) => param(true, "sort"@, v),
        None => Seq::empty(),
    }
}

/// `/r/{subreddit}.json` or `/r/{subreddit}/{sort}.json`; a top listing
/// adds its window `t`; a cursor adds `after`.
pub open spec fn subreddit_target_of(
    origin: Seq<char>,
    subreddit: Seq<char>,
    sort: SortingMode,
    time: TopSortingTime,
    after: Option<Seq<char>>,
) -> Seq<char> {
    let path = origin + route("r"@) + file_route(subreddit, listing_file(sort));
    if sort is Top {
        path + param(true, "t"@, top_time_value(time)) + after_query(false, after)
    } else {
        path + after_query(true, after)
    }
}

/// `/r/{subreddit}/search.json` with `q`, `sort`, `t`, then `restrict_sr`,
/// `include_over_18` and `after` when asked for.
pub open spec fn search_target_of(
    origin: Seq<char>,
    subreddit: Seq<char>,
    query: Seq<char>,
    sort: SearchSortingMode,
    time: SearchTimeOrdering,
    after: Option<Seq<char>>,
    include_over_18: bool,
    only_current_subreddit: bool,
) -> Seq<char> {
    origin + route("r"@) + route(subreddit) + route("search.json"@) + param(true, "q"@, query)
        + param(false, "sort"@, search_sort_value(sort)) + param(
        false,
        "t"@,
        search_time_value(time),
    ) + (if only_current_subreddit {
        param(false, "restrict_sr"@, "on"@)
    } else {
        Seq::empty()
    }) + (if include_over_18 {
        param(false, "include_over_18"@, "on"@)
    } else {
        Seq::empty()
    }) + after_query(false, after)
}

/// `/user/{username}.json` or `/user/{username}/{filter}.json`, with
/// `sort`, `t`, and `after` for a cursor.
pub open spec fn user_target_of(
    origin: Seq<char>,
    username: Seq<char>,
    filter: UserFilterMode,
    sort: UserSortingMode,
    time: SearchTimeOrdering,
    after: Option<Seq<char>>,
) -> Seq<char> {
    origin + route("user"@) + file_route(username, user_file(filter)) + param(
        true,
        "sort"@,
        user_sort_value(sort),
    ) + param(false, "t"@, search_time_value(time)) + after_query(false, after)
}

/// `/r/{subreddit}/wiki.json`.
pub open spec fn wiki_target_of(origin: Seq<char>, subreddit: Seq<char>) -> Seq<char> {
    origin + route("r"@) + route(subreddit) + route("wiki.json"@)
}

fn add_file_route(b: &mut QueryBuilder, name: &str, file: Option<&str>)
    ensures
        final(b).path@ == old(b).path@ + file_route(name@, opt_str_view(file)),
        final(b).query@ == old(b).query@,
{
    match file {
        Some(f) => {
            b.add_route(name);
            b.add_route(f);
        },
        None => {
            let own = String::from_str(name).concat(".json");
            b.add_route(own.as_str());
        },
    }
    assert(b.path@ =~= old(b).path@ + file_route(name@, opt_str_view(file)));
}

fn add_after(b: &mut QueryBuilder, after: Option<&str>)
    ensures
        final(b).path@ == old(b).path@,
        final(b).query@ == old(b).query@ + after_query(old(b).query@.len() == 0, opt_str_view(after)),
{
    if let Some(a) = after {
        b.add_param("after", a);
    }
    assert(b.query@ =~= old(b).query@ + after_query(old(b).query@.len() == 0, opt_str_view(after)));
}

/// The target of a post's comments page.
pub fn comments_target(origin: &str, subreddit: &str, post_id: &str, sort: CommentSortingMode) -> (r: String)
    ensures
        r@ == comments_target_of(origin@, subreddit@, post_id@, sort),
{
    let mut b = QueryBuilder::new(origin);
    b.add_route("r");
    b.add_route(subreddit);
    b.add_route("comments");
    let file = String::from_str(post_id).concat(".json");
    b.add_route(file.as_str());
    if let Some(v) = sort.value() {
        b.add_param("sort", v);
    }
    let r = b.build();
    assert(r@ =~= comments_target_of(origin@, subreddit@, post_id@, sort));
    r
}

/// The target of a subreddit listing.
pub fn subreddit_target(
    origin: &str,
    subreddit: &str,
    sort: SortingMode,
    time: TopSortingTime,
    after: Option<&str>,
) -> (r: String)
    ensures
        r@ == subreddit_target_of(origin@, subreddit@, sort, time, opt_str_view(after)),
{
    let mut b = QueryBuilder::new(origin);
    b.add_route("r");
    add_file_route(&mut b, subreddit, sort.file());
    if sort == SortingMode::Top {
        b.add_param("t", time.value());
    }
    add_after(&mut b, after);
    let r = b.build();
    assert(r@ =~= subreddit_target_of(origin@, subreddit@, sort, time, opt_str_view(after)));
    r
}

/// The target of a search within a subreddit.
pub fn search_target(
    origin: &str,
    subreddit: &str,
    query: &str,
    sort: SearchSortingMode,
    time: SearchTimeOrdering,
    after: Option<&str>,
    include_over_18: bool,
    only_current_subreddit: bool,
) -> (r: String)
    ensures
        r@ == search_target_of(
            origin@,
            subreddit@,
            query@,
            sort,
            time,
            opt_str_view(after),
            include_over_18,
            only_current_subreddit,
        ),
{
    let mut b = QueryBuilder::new(origin);
    b.add_route("r");
    b.add_route(subreddit);
    b.add_route("search.json");
    b.add_param("q", query);
    b.add_param("sort", sort.value());
    b.add_param("t", time.value());
    if only_current_subreddit {
        b.add_param("restrict_sr", "on");
    }
    if include_over_18 {
        b.add_param("include_over_18", "on");
    }
    add_after(&mut b, after);
    let r = b.build();
    assert(r@ =~= search_target_of(
        origin@,
        subreddit@,
        query@,
        sort,
        time,
        opt_str_view(after),
        include_over_18,
        only_current_subreddit,
    ));
    r
}

/// The target of a user's page.
pub fn user_target(
    origin: &str,
    username: &str,
    filter: UserFilterMode,
    sort: UserSortingMode,
    time: SearchTimeOrdering,
    after: Option<&str>,
) -> (r: String)
    ensures
        r@ == user_target_of(origin@, username@, filter, sort, time, opt_str_view(after)),
{
    let mut b = QueryBuilder::new(origin);
    b.add_route("user");
    add_file_route(&mut b, username, filter.file());
    b.add_param("sort", sort.value());
    b.add_param("t", time.value());
    add_after(&mut b, after);
    let r = b.build();
    assert(r@ =~= user_target_of(origin@, username@, filter, sort, time, opt_str_view(after)));
    r
}

/// The target of a subreddit's wiki page.
pub fn wiki_target(origin: &str, subreddit: &str) -> (r: String)
    ensures
        r@ == wiki_target_of(origin@, subreddit@),
{
    let mut b = QueryBuilder::new(origin);
    b.add_route("r");
    b.add_route(subreddit);
    b.add_route("wiki.json");
    let r = b.build();
    assert(r@ =~= wiki_target_of(origin@, subreddit@));
    r
}

proof fn lemma_plain_param(first: bool, key: Seq<char>, value: Seq<char>)
    requires
        plain(key),
        plain(value),
    ensures
        param(first, key, value) == seq![if first { '?' } else { '&' }] + key + seq!['='] + value,
{
    lemma_plain_unescaped(key);
    lemma_plain_unescaped(value);
}

/// The comment sort is sent as written in the table of comment orders.
pub proof fn lemma_comment_sort_wire(
    origin: Seq<char>,
    subreddit: Seq<char>,
    post_id: Seq<char>,
    sort: CommentSortingMode,
)
    ensures
        comments_target_of(origin, subreddit, post_id, sort) == origin + route("r"@) + route(
            subreddit,
        ) + route("comments"@) + route(post_id + ".json"@) + match sort {
            CommentSortingMode::Suggested => Seq::empty(),
            CommentSortingMode::Best => "?sort=confidence"@,
            CommentSortingMode::New => "?sort=new"@,
            CommentSortingMode::Controversial => "?sort=controversial"@,
            CommentSortingMode::Old => "?sort=old"@,
            CommentSortingMode::Top => "?sort=top"@,
            CommentSortingMode::QAndA => "?sort=qa"@,
        },
{
    reveal_strlit("sort");
    if let Some(v) = comment_sort_value(sort) {
        match sort {
            CommentSortingMode::Best => {
                reveal_strlit("confidence");
                reveal_strlit("?sort=confidence");
            },
            CommentSortingMode::New => {
                reveal_strlit("new");
                reveal_strlit("?sort=new");
            },
            CommentSortingMode::Controversial => {
                reveal_strlit("controversial");
                reveal_strlit("?sort=controversial");
            },
            CommentSortingMode::Old => {
                reveal_strlit("old");
                reveal_strlit("?sort=old");
            },
            CommentSortingMode::Top => {
                reveal_strlit("top");
                reveal_strlit("?sort=top");
            },
            _ => {
                reveal_strlit("qa");
                reveal_strlit("?sort=qa");
            },
        }
        lemma_plain_param(true, "sort"@, v);
        assert(param(true, "sort"@, v) =~= match sort {
            CommentSortingMode::Suggested => Seq::empty(),
            CommentSortingMode::Best => "?sort=confidence"@,
            CommentSortingMode::New => "?sort=new"@,
            CommentSortingMode::Controversial => "?sort=controversial"@,
            CommentSortingMode::Old => "?sort=old"@,
            CommentSortingMode::Top => "?sort=top"@,
            CommentSortingMode::QAndA => "?sort=qa"@,
        });
    }
}

proof fn lemma_plain_route(segment: Seq<char>)
    requires
        plain(segment),
    ensures
        route(segment) == seq!['/'] + segment,
{
    lemma_plain_unescaped(segment);
}

/// The cursor parameter as sent: `after=` and the escaped cursor.
pub proof fn lemma_after_wire(first: bool, after: Option<Seq<char>>)
    ensures
        after_query(first, after) == match after {
            Some(a) => seq![if first { '?' } else { '&' }] + "after="@ + escaped_text(a),
            None => Seq::empty(),
        },
{
    if let Some(a) = after {
        reveal_strlit("after");
        reveal_strlit("after=");
        lemma_plain_unescaped("after"@);
        assert(after_query(first, after) =~= seq![if first { '?' } else { '&' }] + "after="@
            + escaped_text(a));
    }
}

/// A listing's order is sent as written in the table of listing orders: a
/// file below the subreddit, and for a top listing the window `t`, which the
/// cursor then follows with `&`.
pub proof fn lemma_listing_sort_wire(
    origin: Seq<char>,
    subreddit: Seq<char>,
    sort: SortingMode,
    time: TopSortingTime,
    after: Option<Seq<char>>,
)
    ensures
        subreddit_target_of(origin, subreddit, sort, time, after) == origin + route("r"@) + match sort {
            SortingMode::Default => route(subreddit + ".json"@),
            SortingMode::Hot => route(subreddit) + "/hot.json"@,
            SortingMode::New => route(subreddit) + "/new.json"@,
            SortingMode::Rising => route(subreddit) + "/rising.json"@,
            SortingMode::Controversial => route(subreddit) + "/controversial.json"@,
            SortingMode::Top => route(subreddit) + "/top.json"@ + match time {
                TopSortingTime::PastHour => "?t=hour"@,
                TopSortingTime::Past24Hours => "?t=day"@,
                TopSortingTime::PastWeek => "?t=week"@,
                TopSortingTime::PastMonth => "?t=month"@,
                TopSortingTime::PastYear => "?t=year"@,
                TopSortingTime::AllTime => "?t=all"@,
            },
        } + match after {
            Some(a) => seq![if sort is Top { '&' } else { '?' }] + "after="@ + escaped_text(a),
            None => Seq::empty(),
        },
{
    lemma_after_wire(!(sort is Top), after);
    match sort {
        SortingMode::Default => {},
        SortingMode::Hot => {
            reveal_strlit("hot.json");
            reveal_strlit("/hot.json");
            lemma_plain_route("hot.json"@);
        },
        SortingMode::New => {
            reveal_strlit("new.json");
            reveal_strlit("/new.json");
            lemma_plain_route("new.json"@);
        },
        SortingMode::Rising => {
            reveal_strlit("rising.json");
            reveal_strlit("/rising.json");
            lemma_plain_route("rising.json"@);
        },
        SortingMode::Controversial => {
            reveal_strlit("controversial.json");
            reveal_strlit("/controversial.json");
            lemma_plain_route("controversial.json"@);
        },
        SortingMode::Top => {
            reveal_strlit("top.json");
            reveal_strlit("/top.json");
            lemma_plain_route("top.json"@);
            reveal_strlit("t");
            let v = top_time_value(time);
            match time {
                TopSortingTime::PastHour => {
                    reveal_strlit("hour");
                    reveal_strlit("?t=hour");
                },
                TopSortingTime::Past24Hours => {
                    reveal_strlit("day");
                    reveal_strlit("?t=day");
                },
                TopSortingTime::PastWeek => {
                    reveal_strlit("week");
                    reveal_strlit("?t=week");
                },
                TopSortingTime::PastMonth => {
                    reveal_strlit("month");
                    reveal_strlit("?t=month");
                },
                TopSortingTime::PastYear => {
                    reveal_strlit("year");
                    reveal_strlit("?t=year");
                },
                TopSortingTime::AllTime => {
                    reveal_strlit("all");
                    reveal_strlit("?t=all");
                },
            }
            lemma_plain_param(true, "t"@, v);
            assert(param(true, "t"@, v) =~= match time {
                TopSortingTime::PastHour => "?t=hour"@,
                TopSortingTime::Past24Hours => "?t=day"@,
                TopSortingTime::PastWeek => "?t=week"@,
                TopSortingTime::PastMonth => "?t=month"@,
                TopSortingTime::PastYear => "?t=year"@,
                TopSortingTime::AllTime => "?t=all"@,
            });
        },
    }
    assert(subreddit_target_of(origin, subreddit, sort, time, after) =~= origin + route("r"@)
        + match sort {
        SortingMode::Default => route(subreddit + ".json"@),
        SortingMode::Hot => route(subreddit) + "/hot.json"@,
        SortingMode::New => route(subreddit) + "/new.json"@,
        SortingMode::Rising => route(subreddit) + "/rising.json"@,
        SortingMode::Controversial => route(subreddit) + "/controversial.json"@,
        SortingMode::Top => route(subreddit) + "/top.json"@ + match time {
            TopSortingTime::PastHour => "?t=hour"@,
            TopSortingTime::Past24Hours => "?t=day"@,
            TopSortingTime::PastWeek => "?t=week"@,
            TopSortingTime::PastMonth => "?t=month"@,
            TopSortingTime::PastYear => "?t=year"@,
            TopSortingTime::AllTime => "?t=all"@,
        },
    } + match after {
        Some(a) => seq![if sort is Top { '&' } else { '?' }] + "after="@ + escaped_text(a),
        None => Seq::empty(),
    });
}

proof fn lemma_search_words_plain(sort: SearchSortingMode, time: SearchTimeOrdering)
    ensures
        plain(search_sort_value(sort)),
        plain(search_time_value(time)),
{
    match sort {
        SearchSortingMode::Relevance => reveal_strlit("relevance"),
        SearchSortingMode::New => reveal_strlit("new"),
        SearchSortingMode::Comments => reveal_strlit("comments"),
    }
    match time {
        SearchTimeOrdering::PastHour => reveal_strlit("hour"),
        SearchTimeOrdering::Past24Hours => reveal_strlit("day"),
        SearchTimeOrdering::PastWeek => reveal_strlit("week"),
        SearchTimeOrdering::PastMonth => reveal_strlit("month"),
        SearchTimeOrdering::PastYear => reveal_strlit("year"),
        SearchTimeOrdering::AllTime => reveal_strlit("all"),
    }
}

proof fn lemma_param_prefix(first: bool, key: Seq<char>, prefix: Seq<char>, value: Seq<char>)
    requires
        plain(key),
        prefix =~= seq![if first { '?' } else { '&' }] + key + seq!['='],
    ensures
        param(first, key, value) == prefix + escaped_text(value),
{
    lemma_plain_unescaped(key);
    assert(param(first, key, value) =~= prefix + escaped_text(value));
}

/// A search is sent with its escaped query, then `sort` and `t` as written
/// in the tables of search orders and windows, then the two switches that
/// are on, then the cursor.
pub proof fn lemma_search_wire(
    origin: Seq<char>,
    subreddit: Seq<char>,
    query: Seq<char>,
    sort: SearchSortingMode,
    time: SearchTimeOrdering,
    after: Option<Seq<char>>,
    include_over_18: bool,
    only_current_subreddit: bool,
)
    ensures
        search_target_of(
            origin,
            subreddit,
            query,
            sort,
            time,
            after,
            include_over_18,
            only_current_subreddit,
        ) == origin + route("r"@) + route(subreddit) + "/search.json"@ + ("?q="@ + escaped_text(
            query,
        )) + ("&sort="@ + search_sort_value(sort)) + ("&t="@ + search_time_value(time)) + (
        if only_current_subreddit {
            "&restrict_sr=on"@
        } else {
            Seq::empty()
        }) + (if include_over_18 {
            "&include_over_18=on"@
        } else {
            Seq::empty()
        }) + match after {
            Some(a) => "&after="@ + escaped_text(a),
            None => Seq::empty(),
        },
{
    lemma_search_words_plain(sort, time);
    reveal_strlit("search.json");
    reveal_strlit("/search.json");
    lemma_plain_route("search.json"@);
    reveal_strlit("q");
    reveal_strlit("?q=");
    lemma_param_prefix(true, "q"@, "?q="@, query);
    reveal_strlit("sort");
    reveal_strlit("&sort=");
    lemma_param_prefix(false, "sort"@, "&sort="@, search_sort_value(sort));
    lemma_plain_unescaped(search_sort_value(sort));
    reveal_strlit("t");
    reveal_strlit("&t=");
    lemma_param_prefix(false, "t"@, "&t="@, search_time_value(time));
    lemma_plain_unescaped(search_time_value(time));
    if only_current_subreddit {
        reveal_strlit("restrict_sr");
        reveal_strlit("on");
        reveal_strlit("&restrict_sr=on");
        lemma_plain_param(false, "restrict_sr"@, "on"@);
        assert(param(false, "restrict_sr"@, "on"@) =~= "&restrict_sr=on"@);
    }
    if include_over_18 {
        reveal_strlit("include_over_18");
        reveal_strlit("on");
        reveal_strlit("&include_over_18=on");
        lemma_plain_param(false, "include_over_18"@, "on"@);
        assert(param(false, "include_over_18"@, "on"@) =~= "&include_over_18=on"@);
    }
    if let Some(a) = after {
        reveal_strlit("after");
        reveal_strlit("&after=");
        lemma_param_prefix(false, "after"@, "&after="@, a);
    }
}

/// A cursor made of plain characters, as listings hand them out, goes into
/// the next listing request verbatim: after `&` when the window of a top
/// listing opened the query, after `?` otherwise.
pub proof fn lemma_cursor_round_trip(
    origin: Seq<char>,
    subreddit: Seq<char>,
    sort: SortingMode,
    time: TopSortingTime,
    cursor: Seq<char>,
)
    requires
        plain(cursor),
    ensures
        subreddit_target_of(origin, subreddit, sort, time, Some(cursor)) == subreddit_target_of(
            origin,
            subreddit,
            sort,
            time,
            None,
        ) + seq![if sort is Top { '&' } else { '?' }] + "after="@ + cursor,
{
    lemma_after_wire(!(sort is Top), Some(cursor));
    lemma_plain_unescaped(cursor);
    let path = origin + route("r"@) + file_route(subreddit, listing_file(sort));
    if sort is Top {
        let q = path + param(true, "t"@, top_time_value(time));
        assert(q + Seq::<char>::empty() =~= q);
    } else {
        assert(path + Seq::<char>::empty() =~= path);
    }
    assert(subreddit_target_of(origin, subreddit, sort, time, Some(cursor)) =~= subreddit_target_of(
        origin,
        subreddit,
        sort,
        time,
        None,
    ) + seq![if sort is Top { '&' } else { '?' }] + "after="@ + cursor);
}

} // verus!
