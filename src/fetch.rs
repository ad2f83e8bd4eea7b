//! The steps of one fetch after the transport has answered: the status
//! check, decoding, and the endpoint's assembly, with their failures.

use vstd::prelude::*;
use crate::assemble::{
    assemble_comments, assemble_posts, assemble_user, assemble_wiki, comments_result,
    comments_shape_error, listing_shape_error, posts_of, posts_shape_error, CommentsQuery,
    SchemaError, Strictness, SubredditQuery,
};
use crate::decode::decode_api_data;
use crate::entities::{api_error, api_from, ApiData, ListingData, RedditData, WikiPageData};
use crate::fields::DecodeError;
use crate::json::Json;

verus! {

/// Why a fetch failed.
#[derive(Debug)]
pub enum FetchError {
    /// No response was obtained.
    Transport,
    /// The response came with this status instead of success.
    Status(u16),
    /// The body does not match the wire format.
    Decode(DecodeError),
    /// The body decoded but breaks the endpoint's structural contract.
    Schema(SchemaError),
}

/// The only status a body is read under.
pub const STATUS_OK: u16 = 200;

/// The status every failure but a status failure is reported with.
pub const STATUS_INTERNAL_ERROR: u16 = 500;

/// Accepts a response status: success goes on, any other status fails with itself.
pub fn check_status(status: u16) -> (r: Result<(), FetchError>)
    ensures
        r is Ok <==> status == STATUS_OK,
        r matches Err(e) ==> e == FetchError::Status(status),
{
    if status == STATUS_OK {
        Ok(())
    } else {
        Err(FetchError::Status(status))
    }
}

/// The status reported to the caller for a failure: a status failure keeps
/// its code, and every other failure is an internal error.
pub fn failure_status(e: &FetchError) -> (r: u16)
    ensures
        r == match e {
            FetchError::Status(c) => *c,
            _ => STATUS_INTERNAL_ERROR,
        },
{
    match e {
        FetchError::Status(c) => *c,
        _ => STATUS_INTERNAL_ERROR,
    }
}

/// What a fetch of a comments page gives for the document `root`.
pub open spec fn comments_outcome(
    root: Json,
    policy: Strictness,
    r: Result<CommentsQuery, FetchError>,
) -> bool {
    match api_error(root) {
        Some(ev) => r matches Err(FetchError::Decode(e)) && e@ == ev,
        None => exists|a: ApiData|
            api_from(root, a) && match comments_shape_error(a, policy) {
                Some(s) => r matches Err(FetchError::Schema(t)) && t == s,
                None => r matches Ok(q) && comments_result(a, q),
            },
    }
}

/// The post and comments of a comments document.
pub fn comments_from_json(root: &Json, policy: Strictness) -> (r: Result<CommentsQuery, FetchError>)
    ensures
        comments_outcome(*root, policy, r),
{
    let a = match decode_api_data(root) {
        Ok(a) => a,
        Err(e) => return Err(FetchError::Decode(e)),
    };
    match assemble_comments(a, policy) {
        Ok(q) => Ok(q),
        Err(s) => Err(FetchError::Schema(s)),
    }
}

/// What a fetch of a page of posts gives for the document `root`.
pub open spec fn posts_outcome(
    root: Json,
    policy: Strictness,
    r: Result<SubredditQuery, FetchError>,
) -> bool {
    match api_error(root) {
        Some(ev) => r matches Err(FetchError::Decode(e)) && e@ == ev,
        None => exists|a: ApiData|
            api_from(root, a) && match posts_shape_error(a, policy) {
                Some(s) => r matches Err(FetchError::Schema(t)) && t == s,
                None => r matches Ok(q) && {
                    let l = a->Single_0->Listing_0;
                    &&& q.posts@ == posts_of(l.children@)
                    &&& q.after == l.after
                    &&& q.before == l.before
                },
            },
    }
}

/// The posts of a subreddit listing or search document.
pub fn posts_from_json(root: &Json, policy: Strictness) -> (r: Result<SubredditQuery, FetchError>)
    ensures
        posts_outcome(*root, policy, r),
{
    let a = match decode_api_data(root) {
        Ok(a) => a,
        Err(e) => return Err(FetchError::Decode(e)),
    };
    match assemble_posts(a, policy) {
        Ok(q) => Ok(q),
        Err(s) => Err(FetchError::Schema(s)),
    }
}

/// The listing of a user page document.
pub fn user_from_json(root: &Json) -> (r: Result<ListingData, FetchError>)
    ensures
        match api_error(*root) {
            Some(ev) => r matches Err(FetchError::Decode(e)) && e@ == ev,
            None => exists|a: ApiData|
                api_from(*root, a) && match listing_shape_error(a) {
                    Some(s) => r matches Err(FetchError::Schema(t)) && t == s,
                    None => r matches Ok(l) && l == a->Single_0->Listing_0,
                },
        },
{
    let a = match decode_api_data(root) {
        Ok(a) => a,
        Err(e) => return Err(FetchError::Decode(e)),
    };
    match assemble_user(a) {
        Ok(l) => Ok(l),
        Err(s) => Err(FetchError::Schema(s)),
    }
}

/// The page of a wiki document.
pub fn wiki_from_json(root: &Json) -> (r: Result<WikiPageData, FetchError>)
    ensures
        match api_error(*root) {
            Some(ev) => r matches Err(FetchError::Decode(e)) && e@ == ev,
            None => exists|a: ApiData|
                api_from(*root, a) && match a {
                    ApiData::Single(RedditData::WikiPage(w)) => r matches Ok(v) && v == w,
                    ApiData::Single(_) => r matches Err(FetchError::Schema(t)) && t
                        == SchemaError::NotAWikiPage,
                    ApiData::Collection(_) => r matches Err(FetchError::Schema(t)) && t
                        == SchemaError::NotSingle,
                },
        },
{
    let a = match decode_api_data(root) {
        Ok(a) => a,
        Err(e) => return Err(FetchError::Decode(e)),
    };
    match assemble_wiki(a) {
        Ok(w) => Ok(w),
        Err(s) => Err(FetchError::Schema(s)),
    }
}

} // verus!
