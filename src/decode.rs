//! Decoders from the JSON document model to the entities.

use vstd::prelude::*;
use crate::entities::{
    api_error, api_from, children_error, children_from, comment_error, comment_from, listing_error,
    listing_from,
    node_error, node_from, post_from, record_error, wiki_from, ApiData, ListingData, RedditData,
    ReplyList, T1Data, T3Data, WikiPageData,
};
use crate::fields::{
    check_field, field_error, take_flag, take_i32, take_number, take_opt_flag, take_opt_i32,
    take_opt_text, take_text, take_u32, take_u64, DecodeError, DecodeProblem,
    FieldKind,
};
use crate::json::{find_member, lemma_index_decreases, str_eq, Json};
use crate::schema::{validate, Schema};

verus! {

/// Decodes the data of a post.
pub fn decode_post(d: &Json) -> (r: Result<T3Data, DecodeError>)
    ensures
        r is Ok <==> record_error(*d, Schema::Post) is None,
        r matches Err(e) ==> record_error(*d, Schema::Post) == Some(e@),
        r matches Ok(p) ==> post_from(*d, p),
{
    let ms = match d {
        Json::Object(ms) => ms,
        _ => return Err(DecodeError::NotAnObject),
    };
    if let Err(e) = validate(ms, Schema::Post) {
        return Err(e);
    }
    Ok(T3Data {
        id: take_text(ms, "id"),
        subreddit: take_text(ms, "subreddit"),
        selftext: take_text(ms, "selftext"),
        title: take_text(ms, "title"),
        score: take_i32(ms, "score"),
        author: take_text(ms, "author"),
        locked: take_flag(ms, "locked"),
        stickied: take_flag(ms, "stickied"),
        spoiler: take_flag(ms, "spoiler"),
        thumbnail: take_opt_text(ms, "thumbnail"),
        upvote_ratio: take_number(ms, "upvote_ratio"),
        archived: take_flag(ms, "archived"),
        pinned: take_flag(ms, "pinned"),
        over_18: take_flag(ms, "over_18"),
        author_flair_text: take_opt_text(ms, "author_flair_text"),
        author_flair_background_color: take_opt_text(ms, "author_flair_background_color"),
        num_comments: take_u32(ms, "num_comments"),
        subreddit_subscribers: take_u32(ms, "subreddit_subscribers"),
        is_video: take_flag(ms, "is_video"),
        is_gallery: take_opt_flag(ms, "is_gallery"),
        is_reddit_media_domain: take_flag(ms, "is_reddit_media_domain"),
        link_flair_text: take_opt_text(ms, "link_flair_text"),
        link_flair_background_color: take_opt_text(ms, "link_flair_background_color"),
        url: take_opt_text(ms, "url"),
    })
}

/// Decodes the data of a wiki page.
pub fn decode_wiki_page(d: &Json) -> (r: Result<WikiPageData, DecodeError>)
    ensures
        r is Ok <==> record_error(*d, Schema::WikiPage) is None,
        r matches Err(e) ==> record_error(*d, Schema::WikiPage) == Some(e@),
        r matches Ok(w) ==> wiki_from(*d, w),
{
    let ms = match d {
        Json::Object(ms) => ms,
        _ => return Err(DecodeError::NotAnObject),
    };
    if let Err(e) = validate(ms, Schema::WikiPage) {
        return Err(e);
    }
    Ok(WikiPageData {
        content_md: take_text(ms, "content_md"),
        revision_date: take_u64(ms, "revision_date"),
    })
}

/// Decodes a sequence of envelopes, in order; the first failure ends it.
pub fn decode_children(cs: &Vec<Json>) -> (r: Result<Vec<RedditData>, DecodeError>)
    ensures
        r is Ok <==> children_error(cs@, 0) is None,
        r matches Err(e) ==> children_error(cs@, 0) == Some(e@),
        r matches Ok(ns) ==> children_from(cs@, ns@),
    decreases cs,
{
    let mut out: Vec<RedditData> = Vec::new();
    let mut i: usize = 0;
    while i < cs.len()
        invariant
            i <= cs@.len(),
            out@.len() == i,
            forall|k: int| 0 <= k < i ==> node_from(#[trigger] cs@[k], out@[k]),
            children_error(cs@, 0) == children_error(cs@, i as int),
        decreases cs@.len() - i,
    {
        proof {
            assert(decreases_to!(cs => cs@));
            assert(decreases_to!(cs@ => cs@[i as int]));
        }
        match decode_node(&cs[i]) {
            Ok(n) => out.push(n),
            Err(e) => return Err(e),
        }
        i = i + 1;
    }
    Ok(out)
}

/// Decodes the data of a listing.
pub fn decode_listing(d: &Json) -> (r: Result<ListingData, DecodeError>)
    ensures
        r is Ok <==> listing_error(*d) is None,
        r matches Err(e) ==> listing_error(*d) == Some(e@),
        r matches Ok(l) ==> listing_from(*d, l),
    decreases d,
{
    let ms = match d {
        Json::Object(ms) => ms,
        _ => return Err(DecodeError::NotAnObject),
    };
    if let Err(e) = validate(ms, Schema::Listing) {
        return Err(e);
    }
    let ci = match find_member(ms, "children") {
        Some(ci) => ci,
        None => return Err(field_error("children", DecodeProblem::Missing)),
    };
    let c = &ms[ci].value;
    let cs = match c {
        Json::Array(cs) => cs,
        _ => return Err(field_error("children", DecodeProblem::WrongType)),
    };
    proof {
        lemma_index_decreases(*ms, ci as int);
        assert(decreases_to!(*c => c->Array_0));
    }
    let children = match decode_children(cs) {
        Ok(ns) => ns,
        Err(e) => return Err(e),
    };
    Ok(ListingData {
        dist: take_opt_i32(ms, "dist"),
        after: take_opt_text(ms, "after"),
        children,
        before: take_opt_text(ms, "before"),
    })
}

/// Decodes the data of a comment, with the listing of its replies.
pub fn decode_comment(d: &Json) -> (r: Result<T1Data, DecodeError>)
    ensures
        r is Ok <==> comment_error(*d) is None,
        r matches Err(e) ==> comment_error(*d) == Some(e@),
        r matches Ok(c) ==> comment_from(*d, c),
    decreases d,
{
    let ms = match d {
        Json::Object(ms) => ms,
        _ => return Err(DecodeError::NotAnObject),
    };
    if let Err(e) = validate(ms, Schema::Comment) {
        return Err(e);
    }
    let mut replies = ReplyList::NoReplies;
    if let Some(ri) = find_member(ms, "replies") {
        if let Json::Object(rs) = &ms[ri].value {
            if let Some(ki) = find_member(rs, "kind") {
                if let Json::Str(_) = &rs[ki].value {
                    if let Some(di) = find_member(rs, "data") {
                        proof {
                            lemma_index_decreases(*ms, ri as int);
                            lemma_index_decreases(*rs, di as int);
                        }
                        match decode_listing(&rs[di].value) {
                            Ok(l) => {
                                replies = ReplyList::Replies(l);
                            },
                            Err(e) => return Err(e),
                        }
                    }
                }
            }
        }
    }
    Ok(T1Data {
        id: take_text(ms, "id"),
        subreddit: take_text(ms, "subreddit"),
        body: take_text(ms, "body"),
        score: take_i32(ms, "score"),
        author: take_text(ms, "author"),
        locked: take_flag(ms, "locked"),
        stickied: take_flag(ms, "stickied"),
        replies,
        author_flair_text: take_opt_text(ms, "author_flair_text"),
        author_flair_background_color: take_opt_text(ms, "author_flair_background_color"),
    })
}

/// Decodes one `{kind, data}` envelope, dispatching on its discriminator.
/// A discriminator without a decoder of its own gives `Unknown`.
pub fn decode_node(j: &Json) -> (r: Result<RedditData, DecodeError>)
    ensures
        r is Ok <==> node_error(*j) is None,
        r matches Err(e) ==> node_error(*j) == Some(e@),
        r matches Ok(n) ==> node_from(*j, n),
    decreases j,
{
    let ms = match j {
        Json::Object(ms) => ms,
        _ => return Err(DecodeError::NotAnObject),
    };
    if let Some(p) = check_field(ms, "kind", FieldKind::Text) {
        return Err(field_error("kind", p));
    }
    let kind = take_text(ms, "kind");
    let di = match find_member(ms, "data") {
        Some(di) => di,
        None => return Err(field_error("data", DecodeProblem::Missing)),
    };
    let d = &ms[di].value;
    proof {
        lemma_index_decreases(*ms, di as int);
    }
    if str_eq(kind.as_str(), "Listing") {
        match decode_listing(d) {
            Ok(l) => Ok(RedditData::Listing(l)),
            Err(e) => Err(e),
        }
    } else if str_eq(kind.as_str(), "t1") {
        match decode_comment(d) {
            Ok(c) => Ok(RedditData::T1(c)),
            Err(e) => Err(e),
        }
    } else if str_eq(kind.as_str(), "t3") {
        match decode_post(d) {
            Ok(p) => Ok(RedditData::T3(p)),
            Err(e) => Err(e),
        }
    } else if str_eq(kind.as_str(), "wikipage") {
        match decode_wiki_page(d) {
            Ok(w) => Ok(RedditData::WikiPage(w)),
            Err(e) => Err(e),
        }
    } else {
        Ok(RedditData::Unknown(kind))
    }
}

/// Decodes a top-level document: an array of envelopes gives `Collection`,
/// a single envelope gives `Single`, and any other value fails.
pub fn decode_api_data(root: &Json) -> (r: Result<ApiData, DecodeError>)
    ensures
        r is Ok <==> api_error(*root) is None,
        r matches Err(e) ==> api_error(*root) == Some(e@),
        r matches Ok(a) ==> api_from(*root, a),
{
    match root {
        Json::Array(cs) => match decode_children(cs) {
            Ok(ns) => Ok(ApiData::Collection(ns)),
            Err(e) => Err(e),
        },
        Json::Object(_) => match decode_node(root) {
            Ok(n) => Ok(ApiData::Single(n)),
            Err(e) => Err(e),
        },
        _ => Err(DecodeError::BadRoot),
    }
}

} // verus!
