//! The field schemas of the records and their validation.

use vstd::prelude::*;
use crate::fields::{check_field, field_error, field_problem, DecodeError, DecodeErrorView, FieldKind};
use crate::json::{member, JsonMember};

verus! {

/// The records whose plain fields are checked against a fixed schema.
#[derive(Clone, Copy, Debug, PartialEq, Eq, Structural)]
pub enum Schema {
    Post,
    Comment,
    Listing,
    WikiPage,
}

pub open spec fn schema_len(s: Schema) -> int {
    match s {
        Schema::Post => 24,
        Schema::Comment => 9,
        Schema::Listing => 3,
        Schema::WikiPage => 2,
    }
}

/// The `i`-th field of a schema: its name and its kind.
pub open spec fn schema_field(s: Schema, i: int) -> (Seq<char>, FieldKind) {
    match s {
        Schema::Post => post_field(i),
        Schema::Comment => comment_field(i),
        Schema::Listing => listing_field(i),
        Schema::WikiPage => wiki_field(i),
    }
}

pub open spec fn post_field(i: int) -> (Seq<char>, FieldKind) {
    if i == 0 { ("id"@, FieldKind::Text) }
    else if i == 1 { ("subreddit"@, FieldKind::Text) }
    else if i == 2 { ("selftext"@, FieldKind::Text) }
    else if i == 3 { ("title"@, FieldKind::Text) }
    else if i == 4 { ("score"@, FieldKind::Int32) }
    else if i == 5 { ("author"@, FieldKind::Text) }
    else if i == 6 { ("locked"@, FieldKind::Flag) }
    else if i == 7 { ("stickied"@, FieldKind::Flag) }
    else if i == 8 { ("spoiler"@, FieldKind::Flag) }
    else if i == 9 { ("thumbnail"@, FieldKind::OptText) }
    else if i == 10 { ("upvote_ratio"@, FieldKind::Number) }
    else if i == 11 { ("archived"@, FieldKind::Flag) }
    else if i == 12 { ("pinned"@, FieldKind::Flag) }
    else if i == 13 { ("over_18"@, FieldKind::Flag) }
    else if i == 14 { ("author_flair_text"@, FieldKind::OptText) }
    else if i == 15 { ("author_flair_background_color"@, FieldKind::OptText) }
    else if i == 16 { ("num_comments"@, FieldKind::Uint32) }
    else if i == 17 { ("subreddit_subscribers"@, FieldKind::Uint32) }
    else if i == 18 { ("is_video"@, FieldKind::Flag) }
    else if i == 19 { ("is_gallery"@, FieldKind::OptFlag) }
    else if i == 20 { ("is_reddit_media_domain"@, FieldKind::Flag) }
    else if i == 21 { ("link_flair_text"@, FieldKind::OptText) }
    else if i == 22 { ("link_flair_background_color"@, FieldKind::OptText) }
    else { ("url"@, FieldKind::OptText) }
}

pub open spec fn comment_field(i: int) -> (Seq<char>, FieldKind) {
    if i == 0 { ("id"@, FieldKind::Text) }
    else if i == 1 { ("subreddit"@, FieldKind::Text) }
    else if i == 2 { ("body"@, FieldKind::Text) }
    else if i == 3 { ("score"@, FieldKind::Int32) }
    else if i == 4 { ("author"@, FieldKind::Text) }
    else if i == 5 { ("locked"@, FieldKind::Flag) }
    else if i == 6 { ("stickied"@, FieldKind::Flag) }
    else if i == 7 { ("author_flair_text"@, FieldKind::OptText) }
    else { ("author_flair_background_color"@, FieldKind::OptText) }
}

pub open spec fn listing_field(i: int) -> (Seq<char>, FieldKind) {
    if i == 0 { ("dist"@, FieldKind::OptInt32) }
    else if i == 1 { ("after"@, FieldKind::OptText) }
    else { ("before"@, FieldKind::OptText) }
}

pub open spec fn wiki_field(i: int) -> (Seq<char>, FieldKind) {
    if i == 0 { ("content_md"@, FieldKind::Text) }
    else { ("revision_date"@, FieldKind::Uint64) }
}

fn schema_len_exec(s: Schema) -> (r: usize)
    ensures
        r == schema_len(s),
{
    match s {
        Schema::Post => 24,
        Schema::Comment => 9,
        Schema::Listing => 3,
        Schema::WikiPage => 2,
    }
}

fn post_field_exec(i: usize) -> (r: (&'static str, FieldKind))
    ensures
        r.0@ == post_field(i as int).0,
        r.1 == post_field(i as int).1,
{
    if i == 0 { ("id", FieldKind::Text) }
    else if i == 1 { ("subreddit", FieldKind::Text) }
    else if i == 2 { ("selftext", FieldKind::Text) }
    else if i == 3 { ("title", FieldKind::Text) }
    else if i == 4 { ("score", FieldKind::Int32) }
    else if i == 5 { ("author", FieldKind::Text) }
    else if i == 6 { ("locked", FieldKind::Flag) }
    else if i == 7 { ("stickied", FieldKind::Flag) }
    else if i == 8 { ("spoiler", FieldKind::Flag) }
    else if i == 9 { ("thumbnail", FieldKind::OptText) }
    else if i == 10 { ("upvote_ratio", FieldKind::Number) }
    else if i == 11 { ("archived", FieldKind::Flag) }
    else if i == 12 { ("pinned", FieldKind::Flag) }
    else if i == 13 { ("over_18", FieldKind::Flag) }
    else if i == 14 { ("author_flair_text", FieldKind::OptText) }
    else if i == 15 { ("author_flair_background_color", FieldKind::OptText) }
    else if i == 16 { ("num_comments", FieldKind::Uint32) }
    else if i == 17 { ("subreddit_subscribers", FieldKind::Uint32) }
    else if i == 18 { ("is_video", FieldKind::Flag) }
    else if i == 19 { ("is_gallery", FieldKind::OptFlag) }
    else if i == 20 { ("is_reddit_media_domain", FieldKind::Flag) }
    else if i == 21 { ("link_flair_text", FieldKind::OptText) }
    else if i == 22 { ("link_flair_background_color", FieldKind::OptText) }
    else { ("url", FieldKind::OptText) }
}

fn comment_field_exec(i: usize) -> (r: (&'static str, FieldKind))
    ensures
        r.0@ == comment_field(i as int).0,
        r.1 == comment_field(i as int).1,
{
    if i == 0 { ("id", FieldKind::Text) }
    else if i == 1 { ("subreddit", FieldKind::Text) }
    else if i == 2 { ("body", FieldKind::Text) }
    else if i == 3 { ("score", FieldKind::Int32) }
    else if i == 4 { ("author", FieldKind::Text) }
    else if i == 5 { ("locked", FieldKind::Flag) }
    else if i == 6 { ("stickied", FieldKind::Flag) }
    else if i == 7 { ("author_flair_text", FieldKind::OptText) }
    else { ("author_flair_background_color", FieldKind::OptText) }
}

fn listing_field_exec(i: usize) -> (r: (&'static str, FieldKind))
    ensures
        r.0@ == listing_field(i as int).0,
        r.1 == listing_field(i as int).1,
{
    if i == 0 { ("dist", FieldKind::OptInt32) }
    else if i == 1 { ("after", FieldKind::OptText) }
    else { ("before", FieldKind::OptText) }
}

fn wiki_field_exec(i: usize) -> (r: (&'static str, FieldKind))
    ensures
        r.0@ == wiki_field(i as int).0,
        r.1 == wiki_field(i as int).1,
{
    if i == 0 { ("content_md", FieldKind::Text) }
    else { ("revision_date", FieldKind::Uint64) }
}

fn schema_field_exec(s: Schema, i: usize) -> (r: (&'static str, FieldKind))
    ensures
        r.0@ == schema_field(s, i as int).0,
        r.1 == schema_field(s, i as int).1,
{
    match s {
        Schema::Post => post_field_exec(i),
        Schema::Comment => comment_field_exec(i),
        Schema::Listing => listing_field_exec(i),
        Schema::WikiPage => wiki_field_exec(i),
    }
}

/// The failure on the first malformed field of the schema, from position `i` on.
pub open spec fn first_problem(ms: Seq<JsonMember>, s: Schema, i: int) -> Option<DecodeErrorView>
    decreases schema_len(s) - i,
{
    if 0 <= i < schema_len(s) {
        let (key, kind) = schema_field(s, i);
        match field_problem(member(ms, key), kind) {
            Some(p) => Some(DecodeErrorView::Field(key, p)),
            None => first_problem(ms, s, i + 1),
        }
    } else {
        None
    }
}

/// Checks the fields of `s` in order and reports the first malformed one.
pub fn validate(ms: &Vec<JsonMember>, s: Schema) -> (r: Result<(), DecodeError>)
    ensures
        r is Ok <==> first_problem(ms@, s, 0) is None,
        r matches Err(e) ==> first_problem(ms@, s, 0) == Some(e@),
{
    let n = schema_len_exec(s);
    let mut i: usize = 0;
    while i < n
        invariant
            n == schema_len(s),
            0 <= i <= n,
            first_problem(ms@, s, 0) == first_problem(ms@, s, i as int),
        decreases n - i,
    {
        let (key, kind) = schema_field_exec(s, i);
        match check_field(ms, key, kind) {
            Some(p) => {
                return Err(field_error(key, p));
            },
            None => {},
        }
        i = i + 1;
    }
    Ok(())
}

} // verus!
