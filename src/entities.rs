//! The decoded entities, and what it means for a JSON value to decode to one.

use vstd::prelude::*;
use crate::fields::{
    field_problem, flag_of, int_of, number_matches, opt_flag_of, opt_int_of, opt_text_of, opt_view,
    text_of, DecodeErrorView, DecodeProblem, FieldKind,
};
use crate::json::{lemma_member_decreases, member, Json, JsonMember, JsonNumber};
use crate::schema::{first_problem, Schema};

verus! {

/// A wiki page.
#[derive(Debug)]
pub struct WikiPageData {
    pub content_md: String,
    pub revision_date: u64,
}

/// A post.
#[derive(Debug)]
pub struct T3Data {
    pub id: String,
    pub subreddit: String,
    pub selftext: String,
    pub title: String,
    pub score: i32,
    pub author: String,
    pub locked: bool,
    pub stickied: bool,
    pub spoiler: bool,
    pub thumbnail: Option<String>,
    /// The share of up-votes, as the number the document wrote.
    pub upvote_ratio: JsonNumber,
    pub archived: bool,
    pub pinned: bool,
    pub over_18: bool,
    pub author_flair_text: Option<String>,
    pub author_flair_background_color: Option<String>,
    pub num_comments: u32,
    pub subreddit_subscribers: u32,
    pub is_video: bool,
    pub is_gallery: Option<bool>,
    pub is_reddit_media_domain: bool,
    pub link_flair_text: Option<String>,
    pub link_flair_background_color: Option<String>,
    pub url: Option<String>,
}

/// A comment.
#[derive(Debug)]
pub struct T1Data {
    pub id: String,
    pub subreddit: String,
    pub body: String,
    pub score: i32,
    pub author: String,
    pub locked: bool,
    pub stickied: bool,
    pub replies: ReplyList,
    pub author_flair_text: Option<String>,
    pub author_flair_background_color: Option<String>,
}

/// The replies under a comment.
#[derive(Debug)]
pub enum ReplyList {
    NoReplies,
    Replies(ListingData),
}

/// An ordered page of child nodes with its pagination cursors.
#[derive(Debug)]
pub struct ListingData {
    pub dist: Option<i32>,
    pub after: Option<String>,
    pub children: Vec<RedditData>,
    pub before: Option<String>,
}

/// A decoded `{kind, data}` envelope.
#[derive(Debug)]
pub enum RedditData {
    Listing(ListingData),
    /// A comment.
    T1(T1Data),
    WikiPage(WikiPageData),
    /// A post.
    T3(T3Data),
    /// Any other kind, with its discriminator.
    Unknown(String),
}

/// A top-level document: one envelope, or an array of them.
#[derive(Debug)]
pub enum ApiData {
    Single(RedditData),
    Collection(Vec<RedditData>),
}

/// The discriminators that have a decoder of their own.
pub open spec fn known_kind(k: Seq<char>) -> bool {
    k == "Listing"@ || k == "t1"@ || k == "t3"@ || k == "wikipage"@
}

/// The failure of the fields of record `s` held by `d`, if any.
pub open spec fn record_error(d: Json, s: Schema) -> Option<DecodeErrorView> {
    match d {
        Json::Object(ms) => first_problem(ms@, s, 0),
        _ => Some(DecodeErrorView::NotAnObject),
    }
}

/// The failure that decoding the envelope `j` meets, if any.
pub open spec fn node_error(j: Json) -> Option<DecodeErrorView>
    decreases j, 0int,
{
    match j {
        Json::Object(ms) => match field_problem(member(ms@, "kind"@), FieldKind::Text) {
            Some(p) => Some(DecodeErrorView::Field("kind"@, p)),
            None => match member(ms@, "data"@) {
                None => Some(DecodeErrorView::Field("data"@, DecodeProblem::Missing)),
                Some(d) => {
                    proof {
                        lemma_member_decreases(ms, "data"@);
                    }
                    let k = text_of(member(ms@, "kind"@));
                    if k == "Listing"@ {
                        listing_error(d)
                    } else if k == "t1"@ {
                        comment_error(d)
                    } else if k == "t3"@ {
                        record_error(d, Schema::Post)
                    } else if k == "wikipage"@ {
                        record_error(d, Schema::WikiPage)
                    } else {
                        None
                    }
                },
            },
        },
        _ => Some(DecodeErrorView::NotAnObject),
    }
}

/// The failure that decoding the listing data `d` meets, if any.
pub open spec fn listing_error(d: Json) -> Option<DecodeErrorView>
    decreases d, 0int,
{
    match d {
        Json::Object(ms) => match first_problem(ms@, Schema::Listing, 0) {
            Some(e) => Some(e),
            None => match member(ms@, "children"@) {
                None => Some(DecodeErrorView::Field("children"@, DecodeProblem::Missing)),
                Some(c) => {
                    proof {
                        lemma_member_decreases(ms, "children"@);
                    }
                    match c {
                        Json::Array(cs) => {
                            proof {
                                assert(decreases_to!(c => c->Array_0));
                                assert(decreases_to!(cs => cs@));
                            }
                            children_error(cs@, 0)
                        },
                        _ => Some(DecodeErrorView::Field("children"@, DecodeProblem::WrongType)),
                    }
                },
            },
        },
        _ => Some(DecodeErrorView::NotAnObject),
    }
}

/// The failure of the first child, from position `i` on, that does not decode.
pub open spec fn children_error(cs: Seq<Json>, i: int) -> Option<DecodeErrorView>
    decreases cs, cs.len() - i,
{
    if 0 <= i < cs.len() {
        match node_error(cs[i]) {
            Some(e) => Some(e),
            None => children_error(cs, i + 1),
        }
    } else {
        None
    }
}

/// Whether `v`, the value of a comment's `replies` member, is a
/// `{kind, data}` envelope; such a value's data must decode as a listing.
pub open spec fn replies_envelope(v: Option<Json>) -> Option<Json> {
    match v {
        Some(Json::Object(rs)) => if member(rs@, "kind"@) matches Some(Json::Str(_)) {
            member(rs@, "data"@)
        } else {
            None
        },
        _ => None,
    }
}

/// The failure that decoding the comment data `d` meets, if any.
pub open spec fn comment_error(d: Json) -> Option<DecodeErrorView>
    decreases d, 0int,
{
    match record_error(d, Schema::Comment) {
        Some(e) => Some(e),
        None => match d {
            Json::Object(ms) => match member(ms@, "replies"@) {
                Some(Json::Object(rs)) => {
                    proof {
                        lemma_member_decreases(ms, "replies"@);
                        lemma_member_decreases(rs, "data"@);
                    }
                    if member(rs@, "kind"@) matches Some(Json::Str(_)) {
                        match member(rs@, "data"@) {
                            Some(rd) => listing_error(rd),
                            None => None,
                        }
                    } else {
                        None
                    }
                },
                _ => None,
            },
            _ => None,
        },
    }
}

/// `p` holds the fields of the post data `d`.
pub open spec fn post_from(d: Json, p: T3Data) -> bool {
    match d {
        Json::Object(o) => {
            let ms = o@;
            &&& p.id@ == text_of(member(ms, "id"@))
            &&& p.subreddit@ == text_of(member(ms, "subreddit"@))
            &&& p.selftext@ == text_of(member(ms, "selftext"@))
            &&& p.title@ == text_of(member(ms, "title"@))
            &&& p.score as int == int_of(member(ms, "score"@), FieldKind::Int32)
            &&& p.author@ == text_of(member(ms, "author"@))
            &&& p.locked == flag_of(member(ms, "locked"@))
            &&& p.stickied == flag_of(member(ms, "stickied"@))
            &&& p.spoiler == flag_of(member(ms, "spoiler"@))
            &&& opt_view(p.thumbnail) == opt_text_of(member(ms, "thumbnail"@))
            &&& number_matches(member(ms, "upvote_ratio"@), p.upvote_ratio)
            &&& p.archived == flag_of(member(ms, "archived"@))
            &&& p.pinned == flag_of(member(ms, "pinned"@))
            &&& p.over_18 == flag_of(member(ms, "over_18"@))
            &&& opt_view(p.author_flair_text) == opt_text_of(member(ms, "author_flair_text"@))
            &&& opt_view(p.author_flair_background_color) == opt_text_of(
                member(ms, "author_flair_background_color"@),
            )
            &&& p.num_comments as int == int_of(member(ms, "num_comments"@), FieldKind::Uint32)
            &&& p.subreddit_subscribers as int == int_of(
                member(ms, "subreddit_subscribers"@),
                FieldKind::Uint32,
            )
            &&& p.is_video == flag_of(member(ms, "is_video"@))
            &&& p.is_gallery == opt_flag_of(member(ms, "is_gallery"@))
            &&& p.is_reddit_media_domain == flag_of(member(ms, "is_reddit_media_domain"@))
            &&& opt_view(p.link_flair_text) == opt_text_of(member(ms, "link_flair_text"@))
            &&& opt_view(p.link_flair_background_color) == opt_text_of(
                member(ms, "link_flair_background_color"@),
            )
            &&& opt_view(p.url) == opt_text_of(member(ms, "url"@))
        },
        _ => false,
    }
}

/// `w` holds the fields of the wiki page data `d`.
pub open spec fn wiki_from(d: Json, w: WikiPageData) -> bool {
    match d {
        Json::Object(o) => {
            &&& w.content_md@ == text_of(member(o@, "content_md"@))
            &&& w.revision_date as int == int_of(member(o@, "revision_date"@), FieldKind::Uint64)
        },
        _ => false,
    }
}

/// `l` is what the listing data `d` decodes to.
pub open spec fn listing_from(d: Json, l: ListingData) -> bool
    decreases d,
{
    match d {
        Json::Object(o) => {
            &&& match l.dist {
                Some(x) => opt_int_of(member(o@, "dist"@), FieldKind::Int32) == Some(x as int),
                None => opt_int_of(member(o@, "dist"@), FieldKind::Int32) is None,
            }
            &&& opt_view(l.after) == opt_text_of(member(o@, "after"@))
            &&& opt_view(l.before) == opt_text_of(member(o@, "before"@))
            &&& match member(o@, "children"@) {
                Some(c) => {
                    proof {
                        lemma_member_decreases(o, "children"@);
                    }
                    match c {
                        Json::Array(cs) => {
                            proof {
                                assert(decreases_to!(c => c->Array_0));
                                assert(decreases_to!(cs => cs@));
                            }
                            children_from(cs@, l.children@)
                        },
                        _ => false,
                    }
                },
                None => false,
            }
        },
        _ => false,
    }
}

/// Each envelope of `cs` decodes to the node of `ns` at the same position.
pub open spec fn children_from(cs: Seq<Json>, ns: Seq<RedditData>) -> bool
    decreases cs,
{
    &&& cs.len() == ns.len()
    &&& forall|i: int| 0 <= i < cs.len() ==> node_from(#[trigger] cs[i], ns[i])
}

/// `c` is what the comment data `d` decodes to.
pub open spec fn comment_from(d: Json, c: T1Data) -> bool
    decreases d,
{
    match d {
        Json::Object(o) => {
            let ms = o@;
            &&& c.id@ == text_of(member(ms, "id"@))
            &&& c.subreddit@ == text_of(member(ms, "subreddit"@))
            &&& c.body@ == text_of(member(ms, "body"@))
            &&& c.score as int == int_of(member(ms, "score"@), FieldKind::Int32)
            &&& c.author@ == text_of(member(ms, "author"@))
            &&& c.locked == flag_of(member(ms, "locked"@))
            &&& c.stickied == flag_of(member(ms, "stickied"@))
            &&& opt_view(c.author_flair_text) == opt_text_of(member(ms, "author_flair_text"@))
            &&& opt_view(c.author_flair_background_color) == opt_text_of(
                member(ms, "author_flair_background_color"@),
            )
            &&& match member(ms, "replies"@) {
                Some(Json::Object(rs)) => {
                    proof {
                        lemma_member_decreases(o, "replies"@);
                        lemma_member_decreases(rs, "data"@);
                    }
                    if member(rs@, "kind"@) matches Some(Json::Str(_)) {
                        match member(rs@, "data"@) {
                            Some(rd) => c.replies matches ReplyList::Replies(l) && listing_from(
                                rd,
                                l,
                            ),
                            None => c.replies is NoReplies,
                        }
                    } else {
                        c.replies is NoReplies
                    }
                },
                _ => c.replies is NoReplies,
            }
        },
        _ => false,
    }
}

/// `n` is what the envelope `j` decodes to.
pub open spec fn node_from(j: Json, n: RedditData) -> bool
    decreases j,
{
    match j {
        Json::Object(o) => {
            let k = text_of(member(o@, "kind"@));
            match member(o@, "data"@) {
                Some(d) => {
                    proof {
                        lemma_member_decreases(o, "data"@);
                    }
                    match n {
                        RedditData::Listing(l) => k == "Listing"@ && listing_from(d, l),
                        RedditData::T1(c) => k == "t1"@ && comment_from(d, c),
                        RedditData::T3(p) => k == "t3"@ && post_from(d, p),
                        RedditData::WikiPage(w) => k == "wikipage"@ && wiki_from(d, w),
                        RedditData::Unknown(s) => s@ == k && !known_kind(k),
                    }
                },
                None => false,
            }
        },
        _ => false,
    }
}

/// The failure that decoding the top-level document `root` meets, if any.
pub open spec fn api_error(root: Json) -> Option<DecodeErrorView> {
    match root {
        Json::Array(cs) => children_error(cs@, 0),
        Json::Object(_) => node_error(root),
        _ => Some(DecodeErrorView::BadRoot),
    }
}

/// `a` is what the top-level document `root` decodes to.
pub open spec fn api_from(root: Json, a: ApiData) -> bool {
    match (root, a) {
        (Json::Array(cs), ApiData::Collection(ns)) => children_from(cs@, ns@),
        (Json::Object(_), ApiData::Single(n)) => node_from(root, n),
        _ => false,
    }
}

/// An envelope whose discriminator has no decoder of its own never fails to
/// decode, whatever its data, and decodes to `Unknown` with that discriminator.
pub proof fn lemma_unknown_kind_decodes(ms: Vec<JsonMember>, n: RedditData)
    requires
        member(ms@, "kind"@) matches Some(Json::Str(k)) && !known_kind(k@),
        member(ms@, "data"@) is Some,
    ensures
        node_error(Json::Object(ms)) is None,
        node_from(Json::Object(ms), n) ==> (n matches RedditData::Unknown(s) && s@ == text_of(
            member(ms@, "kind"@),
        )),
{
}

/// A sequence of envelopes that each decode never fails to decode: envelopes
/// of unknown kinds among them do not fail it.
pub proof fn lemma_children_decode(cs: Seq<Json>, i: int)
    requires
        0 <= i,
        forall|k: int| i <= k < cs.len() ==> node_error(#[trigger] cs[k]) is None,
    ensures
        children_error(cs, i) is None,
    decreases cs.len() - i,
{
    if i < cs.len() {
        lemma_children_decode(cs, i + 1);
    }
}

} // verus!
