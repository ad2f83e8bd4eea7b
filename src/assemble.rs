//! Assembly of endpoint results from decoded documents, with the structural
//! checks each endpoint makes.

use vstd::prelude::*;
use crate::entities::{ApiData, ListingData, RedditData, T1Data, T3Data, WikiPageData};

verus! {

/// How a decoded document breaks an endpoint's structural contract.
#[derive(Clone, Copy, Debug, PartialEq, Eq, Structural)]
pub enum SchemaError {
    /// An array was expected at the top level, and an object came.
    NotACollection,
    /// An object was expected at the top level, and an array came.
    NotSingle,
    /// The top-level array does not hold exactly two listings.
    WrongListingCount,
    /// A listing was expected at this position.
    NotAListing,
    /// The first listing does not hold exactly one child.
    WrongPostCount,
    /// The only child of the first listing is not a post.
    NotAPost,
    /// A wiki page was expected.
    NotAWikiPage,
    /// Under the strict policy, a listing holds a child of another kind than
    /// the endpoint expects.
    UnexpectedChild,
}

/// How an endpoint treats the children of a listing that are not of the
/// kind it expects.
#[derive(Clone, Copy, Debug, PartialEq, Eq, Structural)]
pub enum Strictness {
    /// They are left out of the result.
    Lenient,
    /// They fail the request.
    Strict,
}

/// A post with its comments and the cursors of the comment listing.
#[derive(Debug)]
pub struct CommentsQuery {
    pub post: T3Data,
    pub comments: Vec<T1Data>,
    pub after: Option<String>,
    pub before: Option<String>,
}

/// A page of posts with its cursors.
#[derive(Debug)]
pub struct SubredditQuery {
    pub posts: Vec<T3Data>,
    pub after: Option<String>,
    pub before: Option<String>,
}

/// The comments among `ns`, in order.
pub open spec fn comments_of(ns: Seq<RedditData>) -> Seq<T1Data> {
    ns.filter_map(|n: RedditData| if let RedditData::T1(c) = n { Some(c) } else { None })
}

/// The posts among `ns`, in order.
pub open spec fn posts_of(ns: Seq<RedditData>) -> Seq<T3Data> {
    ns.filter_map(|n: RedditData| if let RedditData::T3(p) = n { Some(p) } else { None })
}

/// Every node of `ns` is a comment.
pub open spec fn only_comments(ns: Seq<RedditData>) -> bool {
    forall|i: int| 0 <= i < ns.len() ==> #[trigger] ns[i] is T1
}

/// Every node of `ns` is a post.
pub open spec fn only_posts(ns: Seq<RedditData>) -> bool {
    forall|i: int| 0 <= i < ns.len() ==> #[trigger] ns[i] is T3
}

/// Whether every node of `ns` is a comment.
pub fn all_comments(ns: &Vec<RedditData>) -> (r: bool)
    ensures
        r == only_comments(ns@),
{
    let mut i: usize = 0;
    while i < ns.len()
        invariant
            i <= ns@.len(),
            forall|k: int| 0 <= k < i ==> #[trigger] ns@[k] is T1,
        decreases ns@.len() - i,
    {
        if !matches!(&ns[i], RedditData::T1(_)) {
            return false;
        }
        i = i + 1;
    }
    true
}

/// Whether every node of `ns` is a post.
pub fn all_posts(ns: &Vec<RedditData>) -> (r: bool)
    ensures
        r == only_posts(ns@),
{
    let mut i: usize = 0;
    while i < ns.len()
        invariant
            i <= ns@.len(),
            forall|k: int| 0 <= k < i ==> #[trigger] ns@[k] is T3,
        decreases ns@.len() - i,
    {
        if !matches!(&ns[i], RedditData::T3(_)) {
            return false;
        }
        i = i + 1;
    }
    true
}

/// Keeps the comments of `ns`, in order, and drops the other nodes.
pub fn keep_comments(ns: Vec<RedditData>) -> (r: Vec<T1Data>)
    ensures
        r@ == comments_of(ns@),
{
    let ghost s = ns@;
    let mut out: Vec<T1Data> = Vec::new();
    for n in it: ns.into_iter()
        invariant
            it.seq() == s,
            out@ == comments_of(s.take(it.index() as int)),
    {
        proof {
            s.lemma_filter_map_take_succ(
                |n: RedditData| if let RedditData::T1(c) = n { Some(c) } else { None },
                it.index() as int,
            );
        }
        match n {
            RedditData::T1(c) => {
                out.push(c);
            },
            _ => {},
        }
    }
    proof {
        assert(s.take(s.len() as int) =~= s);
    }
    out
}

/// Keeps the posts of `ns`, in order, and drops the other nodes.
pub fn keep_posts(ns: Vec<RedditData>) -> (r: Vec<T3Data>)
    ensures
        r@ == posts_of(ns@),
{
    let ghost s = ns@;
    let mut out: Vec<T3Data> = Vec::new();
    for n in it: ns.into_iter()
        invariant
            it.seq() == s,
            out@ == posts_of(s.take(it.index() as int)),
    {
        proof {
            s.lemma_filter_map_take_succ(
                |n: RedditData| if let RedditData::T3(p) = n { Some(p) } else { None },
                it.index() as int,
            );
        }
        match n {
            RedditData::T3(p) => {
                out.push(p);
            },
            _ => {},
        }
    }
    proof {
        assert(s.take(s.len() as int) =~= s);
    }
    out
}

/// The structural failure of a comments document, if any: it must be an
/// array of exactly two listings, the first holding exactly one post; under
/// the strict policy the second must hold comments only.
pub open spec fn comments_shape_error(a: ApiData, policy: Strictness) -> Option<SchemaError> {
    match a {
        ApiData::Collection(v) => {
            let ls = v@;
            if ls.len() != 2 {
                Some(SchemaError::WrongListingCount)
            } else if !(ls[0] is Listing) {
                Some(SchemaError::NotAListing)
            } else if ls[0]->Listing_0.children@.len() != 1 {
                Some(SchemaError::WrongPostCount)
            } else if !(ls[0]->Listing_0.children@[0] is T3) {
                Some(SchemaError::NotAPost)
            } else if !(ls[1] is Listing) {
                Some(SchemaError::NotAListing)
            } else if policy is Strict && !only_comments(ls[1]->Listing_0.children@) {
                Some(SchemaError::UnexpectedChild)
            } else {
                None
            }
        },
        ApiData::Single(_) => Some(SchemaError::NotACollection),
    }
}

/// The result assembled from a comments document of the right shape: the
/// post, the comments of the second listing in order, and its cursors.
pub open spec fn comments_result(a: ApiData, q: CommentsQuery) -> bool {
    let ls = a->Collection_0@;
    let second = ls[1]->Listing_0;
    &&& q.post == ls[0]->Listing_0.children@[0]->T3_0
    &&& q.comments@ == comments_of(second.children@)
    &&& q.after == second.after
    &&& q.before == second.before
}

/// Assembles the post and its comments from a decoded comments document.
/// Under the lenient policy, children of the second listing that are not
/// comments are left out.
pub fn assemble_comments(data: ApiData, policy: Strictness) -> (r: Result<CommentsQuery, SchemaError>)
    ensures
        r is Ok <==> comments_shape_error(data, policy) is None,
        r matches Err(e) ==> comments_shape_error(data, policy) == Some(e),
        r matches Ok(q) ==> comments_result(data, q),
{
    let ghost a = data;
    let mut ls = match data {
        ApiData::Collection(ls) => ls,
        ApiData::Single(_) => return Err(SchemaError::NotACollection),
    };
    if ls.len() != 2 {
        return Err(SchemaError::WrongListingCount);
    }
    match &ls[0] {
        RedditData::Listing(first) => {
            if first.children.len() != 1 {
                return Err(SchemaError::WrongPostCount);
            }
            if !matches!(&first.children[0], RedditData::T3(_)) {
                return Err(SchemaError::NotAPost);
            }
        },
        _ => return Err(SchemaError::NotAListing),
    }
    match &ls[1] {
        RedditData::Listing(second) => {
            if policy == Strictness::Strict && !all_comments(&second.children) {
                return Err(SchemaError::UnexpectedChild);
            }
        },
        _ => return Err(SchemaError::NotAListing),
    }
    let second = match ls.pop() {
        Some(RedditData::Listing(l)) => l,
        _ => return Err(SchemaError::NotAListing),
    };
    let post = match ls.pop() {
        Some(RedditData::Listing(mut first)) => match first.children.pop() {
            Some(RedditData::T3(p)) => p,
            _ => return Err(SchemaError::NotAPost),
        },
        _ => return Err(SchemaError::NotAListing),
    };
    let ListingData { children, after, before, .. } = second;
    Ok(CommentsQuery { post, comments: keep_comments(children), after, before })
}

/// The structural failure of a listing document, if any: it must be a
/// single listing.
pub open spec fn listing_shape_error(a: ApiData) -> Option<SchemaError> {
    match a {
        ApiData::Single(RedditData::Listing(_)) => None,
        ApiData::Single(_) => Some(SchemaError::NotAListing),
        ApiData::Collection(_) => Some(SchemaError::NotSingle),
    }
}

/// The structural failure of a document of posts, if any: it must be a
/// single listing, holding posts only under the strict policy.
pub open spec fn posts_shape_error(a: ApiData, policy: Strictness) -> Option<SchemaError> {
    match listing_shape_error(a) {
        Some(e) => Some(e),
        None => if policy is Strict && !only_posts(a->Single_0->Listing_0.children@) {
            Some(SchemaError::UnexpectedChild)
        } else {
            None
        },
    }
}

/// Assembles a page of posts from a decoded listing document (a subreddit
/// page or search results). Under the lenient policy, children that are not
/// posts are left out.
pub fn assemble_posts(data: ApiData, policy: Strictness) -> (r: Result<SubredditQuery, SchemaError>)
    ensures
        r is Ok <==> posts_shape_error(data, policy) is None,
        r matches Err(e) ==> posts_shape_error(data, policy) == Some(e),
        r matches Ok(q) ==> {
            let l = data->Single_0->Listing_0;
            &&& q.posts@ == posts_of(l.children@)
            &&& q.after == l.after
            &&& q.before == l.before
        },
{
    match data {
        ApiData::Single(RedditData::Listing(l)) => {
            if policy == Strictness::Strict && !all_posts(&l.children) {
                return Err(SchemaError::UnexpectedChild);
            }
            let ListingData { children, after, before, .. } = l;
            Ok(SubredditQuery { posts: keep_posts(children), after, before })
        },
        ApiData::Single(_) => Err(SchemaError::NotAListing),
        ApiData::Collection(_) => Err(SchemaError::NotSingle),
    }
}

/// Takes the listing of a decoded user page, whose children may be posts
/// and comments alike.
pub fn assemble_user(data: ApiData) -> (r: Result<ListingData, SchemaError>)
    ensures
        r is Ok <==> listing_shape_error(data) is None,
        r matches Err(e) ==> listing_shape_error(data) == Some(e),
        r matches Ok(l) ==> l == data->Single_0->Listing_0,
{
    match data {
        ApiData::Single(RedditData::Listing(l)) => Ok(l),
        ApiData::Single(_) => Err(SchemaError::NotAListing),
        ApiData::Collection(_) => Err(SchemaError::NotSingle),
    }
}

/// Takes the page of a decoded wiki document, which must be a single wiki page.
pub fn assemble_wiki(data: ApiData) -> (r: Result<WikiPageData, SchemaError>)
    ensures
        r is Ok <==> data matches ApiData::Single(RedditData::WikiPage(_)),
        r matches Err(e) ==> e == if data is Single {
            SchemaError::NotAWikiPage
        } else {
            SchemaError::NotSingle
        },
        r matches Ok(w) ==> w == data->Single_0->WikiPage_0,
{
    match data {
        ApiData::Single(RedditData::WikiPage(w)) => Ok(w),
        ApiData::Single(_) => Err(SchemaError::NotAWikiPage),
        ApiData::Collection(_) => Err(SchemaError::NotSingle),
    }
}

/// Posts are kept in the order they come, and any other node is dropped.
pub proof fn lemma_posts_of_push(ns: Seq<RedditData>, n: RedditData)
    ensures
        posts_of(ns.push(n)) == match n {
            RedditData::T3(p) => posts_of(ns).push(p),
            _ => posts_of(ns),
        },
{
    assert(ns.push(n).drop_last() =~= ns);
    assert(posts_of(ns.push(n)) =~= match n {
        RedditData::T3(p) => posts_of(ns).push(p),
        _ => posts_of(ns),
    });
}

/// Comments are kept in the order they come, and any other node is dropped.
pub proof fn lemma_comments_of_push(ns: Seq<RedditData>, n: RedditData)
    ensures
        comments_of(ns.push(n)) == match n {
            RedditData::T1(c) => comments_of(ns).push(c),
            _ => comments_of(ns),
        },
{
    assert(ns.push(n).drop_last() =~= ns);
    assert(comments_of(ns.push(n)) =~= match n {
        RedditData::T1(c) => comments_of(ns).push(c),
        _ => comments_of(ns),
    });
}

/// A comments document whose first listing does not hold exactly one child
/// breaks the schema, under either policy.
pub proof fn lemma_comments_need_one_post(a: ApiData, policy: Strictness)
    requires
        a is Collection,
        a->Collection_0@.len() == 2,
        a->Collection_0@[0] is Listing,
        a->Collection_0@[0]->Listing_0.children@.len() != 1,
    ensures
        comments_shape_error(a, policy) == Some(SchemaError::WrongPostCount),
{
}

} // verus!
