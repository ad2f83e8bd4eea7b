use reddit_api::accessors::PostType;
use reddit_api::assemble::{SchemaError, Strictness};
use reddit_api::decode::{decode_api_data, decode_node};
use reddit_api::entities::{ApiData, RedditData, ReplyList, T3Data};
use reddit_api::fetch::{
    check_status, comments_from_json, failure_status, posts_from_json, user_from_json,
    wiki_from_json, FetchError,
};
use reddit_api::fields::{DecodeError, DecodeProblem};
use reddit_api::json::{Json, JsonMember, JsonNumber};
use reddit_api::timestamp::EditTimestamp;

fn to_json(v: serde_json::Value) -> Json {
    match v {
        serde_json::Value::Null => Json::Null,
        serde_json::Value::Bool(b) => Json::Bool(b),
        serde_json::Value::Number(n) => Json::Number(if let Some(u) = n.as_u64() {
            JsonNumber::PosInt(u)
        } else if let Some(i) = n.as_i64() {
            JsonNumber::NegInt(i)
        } else {
            JsonNumber::Decimal(n.to_string())
        }),
        serde_json::Value::String(s) => Json::Str(s),
        serde_json::Value::Array(a) => Json::Array(a.into_iter().map(to_json).collect()),
        serde_json::Value::Object(m) => Json::Object(
            m.into_iter()
                .map(|(key, value)| JsonMember { key, value: to_json(value) })
                .collect(),
        ),
    }
}

fn parse(text: &str) -> Json {
    to_json(serde_json::from_str(text).expect("fixture is JSON"))
}

fn post_data(id: &str, extra: &str) -> String {
    let mut fields = vec![
        format!("\"id\": \"{}\"", id),
        "\"subreddit\": \"rust\"".to_string(),
        "\"selftext\": \"\"".to_string(),
        format!("\"title\": \"Post {}\"", id),
        "\"score\": 42".to_string(),
        "\"author\": \"ferris\"".to_string(),
        "\"locked\": false".to_string(),
        "\"stickied\": false".to_string(),
        "\"spoiler\": false".to_string(),
        "\"thumbnail\": \"self\"".to_string(),
        "\"upvote_ratio\": 0.97".to_string(),
        "\"archived\": false".to_string(),
        "\"pinned\": false".to_string(),
        "\"over_18\": false".to_string(),
        "\"author_flair_text\": null".to_string(),
        "\"num_comments\": 3".to_string(),
        "\"subreddit_subscribers\": 300000".to_string(),
        "\"is_video\": false".to_string(),
        "\"is_reddit_media_domain\": false".to_string(),
    ];
    let overridden: Vec<String> = extra
        .split(",\n")
        .filter(|s| !s.trim().is_empty())
        .map(|s| s.trim().to_string())
        .collect();
    for o in &overridden {
        let key = o.split(':').next().unwrap().trim().to_string();
        fields.retain(|f| !f.starts_with(&key));
    }
    fields.extend(overridden);
    format!("{{{}}}", fields.join(", "))
}

fn post(id: &str, extra: &str) -> String {
    format!("{{\"kind\": \"t3\", \"data\": {}}}", post_data(id, extra))
}

fn comment(id: &str, replies: &str) -> String {
    format!(
        "{{\"kind\": \"t1\", \"data\": {{\"id\": \"{}\", \"subreddit\": \"rust\", \"body\": \"text {}\", \
         \"score\": -2, \"author\": \"crab\", \"locked\": false, \"stickied\": false, \
         \"replies\": {}, \"author_flair_text\": \"mod\"}}}}",
        id, id, replies
    )
}

fn listing(children: &[String], after: &str, before: &str) -> String {
    format!(
        "{{\"kind\": \"Listing\", \"data\": {{\"after\": {}, \"dist\": {}, \"children\": [{}], \"before\": {}}}}}",
        after,
        children.len(),
        children.join(", "),
        before
    )
}

fn decoded_post(extra: &str) -> T3Data {
    match decode_node(&parse(&post("post_a", extra))) {
        Ok(RedditData::T3(p)) => p,
        other => panic!("not a post: {:?}", other),
    }
}

#[test]
fn edit_timestamp_number_false_and_string() {
    let t = EditTimestamp::decode("edited", &parse("1700000000")).unwrap();
    assert_eq!(t.value(), Some(1700000000));
    let t = EditTimestamp::decode("edited", &parse("false")).unwrap();
    assert_eq!(t.value(), None);
    match EditTimestamp::decode("edited", &parse("\"x\"")) {
        Err(DecodeError::Field(k, DecodeProblem::WrongType)) => assert_eq!(k, "edited"),
        other => panic!("unexpected {:?}", other),
    }
}

#[test]
fn edit_timestamp_other_shapes_fail() {
    assert!(matches!(
        EditTimestamp::decode("edited", &parse("true")),
        Err(DecodeError::Field(_, DecodeProblem::WrongType))
    ));
    assert!(matches!(
        EditTimestamp::decode("edited", &parse("-5")),
        Err(DecodeError::Field(_, DecodeProblem::OutOfRange))
    ));
    assert!(matches!(
        EditTimestamp::decode("edited", &parse("1.5")),
        Err(DecodeError::Field(_, DecodeProblem::WrongType))
    ));
    assert!(matches!(
        EditTimestamp::decode("edited", &parse("{}")),
        Err(DecodeError::Field(_, DecodeProblem::WrongType))
    ));
}

#[test]
fn comments_two_listings_assembled() {
    let doc = format!(
        "[{}, {}]",
        listing(&[post("post_a", "")], "null", "null"),
        listing(
            &[comment("c1", "\"\""), comment("c2", "\"\""), comment("c3", "\"\"")],
            "\"t1_next\"",
            "\"t1_prev\""
        )
    );
    let q = comments_from_json(&parse(&doc), Strictness::Lenient).unwrap();
    assert_eq!(q.post.id, "post_a");
    assert_eq!(q.post.title, "Post post_a");
    let ids: Vec<&str> = q.comments.iter().map(|c| c.id.as_str()).collect();
    assert_eq!(ids, vec!["c1", "c2", "c3"]);
    assert_eq!(q.after.as_deref(), Some("t1_next"));
    assert_eq!(q.before.as_deref(), Some("t1_prev"));
    assert_eq!(q.comments[0].score, -2);
}

#[test]
fn comments_first_listing_without_post() {
    let doc = format!(
        "[{}, {}]",
        listing(&[], "null", "null"),
        listing(&[comment("c1", "\"\"")], "null", "null")
    );
    assert!(matches!(
        comments_from_json(&parse(&doc), Strictness::Lenient),
        Err(FetchError::Schema(SchemaError::WrongPostCount))
    ));
}

#[test]
fn comments_first_listing_two_posts() {
    let doc = format!(
        "[{}, {}]",
        listing(&[post("post_a", ""), post("post_b", "")], "null", "null"),
        listing(&[comment("c1", "\"\"")], "null", "null")
    );
    assert!(matches!(
        comments_from_json(&parse(&doc), Strictness::Lenient),
        Err(FetchError::Schema(SchemaError::WrongPostCount))
    ));
}

#[test]
fn comments_other_shapes_rejected() {
    let single = listing(&[post("post_a", "")], "null", "null");
    assert!(matches!(
        comments_from_json(&parse(&single), Strictness::Lenient),
        Err(FetchError::Schema(SchemaError::NotACollection))
    ));
    let three = format!("[{}, {}, {}]", single, single, single);
    assert!(matches!(
        comments_from_json(&parse(&three), Strictness::Lenient),
        Err(FetchError::Schema(SchemaError::WrongListingCount))
    ));
    let not_post = format!(
        "[{}, {}]",
        listing(&[comment("c0", "\"\"")], "null", "null"),
        listing(&[], "null", "null")
    );
    assert!(matches!(
        comments_from_json(&parse(&not_post), Strictness::Lenient),
        Err(FetchError::Schema(SchemaError::NotAPost))
    ));
    let second_not_listing = format!("[{}, {}]", single, post("post_b", ""));
    assert!(matches!(
        comments_from_json(&parse(&second_not_listing), Strictness::Lenient),
        Err(FetchError::Schema(SchemaError::NotAListing))
    ));
}

#[test]
fn comments_non_comment_children_dropped() {
    let doc = format!(
        "[{}, {}]",
        listing(&[post("post_a", "")], "null", "null"),
        listing(
            &[comment("c1", "\"\""), "{\"kind\": \"more\", \"data\": {}}".to_string(), comment("c2", "\"\"")],
            "null",
            "null"
        )
    );
    let q = comments_from_json(&parse(&doc), Strictness::Lenient).unwrap();
    let ids: Vec<&str> = q.comments.iter().map(|c| c.id.as_str()).collect();
    assert_eq!(ids, vec!["c1", "c2"]);
    assert_eq!(q.after, None);
}

#[test]
fn subreddit_mixed_children_keep_posts_in_order() {
    let doc = listing(
        &[
            post("a", ""),
            "{\"kind\": \"t5\", \"data\": {\"name\": \"x\"}}".to_string(),
            post("b", ""),
            "{\"kind\": \"t2\", \"data\": 7}".to_string(),
            post("c", ""),
        ],
        "\"t3_16kksoi\"",
        "null",
    );
    let q = posts_from_json(&parse(&doc), Strictness::Lenient).unwrap();
    let ids: Vec<&str> = q.posts.iter().map(|p| p.id.as_str()).collect();
    assert_eq!(ids, vec!["a", "b", "c"]);
    assert_eq!(q.after.as_deref(), Some("t3_16kksoi"));
    assert_eq!(q.before, None);
}

#[test]
fn subreddit_wrong_shapes_rejected() {
    let doc = format!("[{}]", listing(&[], "null", "null"));
    assert!(matches!(
        posts_from_json(&parse(&doc), Strictness::Lenient),
        Err(FetchError::Schema(SchemaError::NotSingle))
    ));
    assert!(matches!(
        posts_from_json(&parse(&post("a", "")), Strictness::Lenient),
        Err(FetchError::Schema(SchemaError::NotAListing))
    ));
}

#[test]
fn unknown_kind_decodes_to_unknown() {
    match decode_node(&parse("{\"kind\": \"t5\", \"data\": {\"anything\": [1, 2]}}")) {
        Ok(RedditData::Unknown(k)) => assert_eq!(k, "t5"),
        other => panic!("unexpected {:?}", other),
    }
    let doc = listing(&["{\"kind\": \"t5\", \"data\": null}".to_string()], "null", "null");
    match decode_api_data(&parse(&doc)) {
        Ok(ApiData::Single(RedditData::Listing(l))) => {
            assert_eq!(l.children.len(), 1);
            assert!(matches!(&l.children[0], RedditData::Unknown(k) if k == "t5"));
            assert_eq!(l.dist, Some(1));
        }
        other => panic!("unexpected {:?}", other),
    }
}

#[test]
fn envelope_failures_name_the_field() {
    match decode_node(&parse("{\"data\": {}}")) {
        Err(DecodeError::Field(k, DecodeProblem::Missing)) => assert_eq!(k, "kind"),
        other => panic!("unexpected {:?}", other),
    }
    match decode_node(&parse("{\"kind\": 3, \"data\": {}}")) {
        Err(DecodeError::Field(k, DecodeProblem::WrongType)) => assert_eq!(k, "kind"),
        other => panic!("unexpected {:?}", other),
    }
    match decode_node(&parse("{\"kind\": \"t5\"}")) {
        Err(DecodeError::Field(k, DecodeProblem::Missing)) => assert_eq!(k, "data"),
        other => panic!("unexpected {:?}", other),
    }
    assert!(matches!(decode_node(&parse("[1]")), Err(DecodeError::NotAnObject)));
    assert!(matches!(
        decode_node(&parse("{\"kind\": \"t3\", \"data\": 5}")),
        Err(DecodeError::NotAnObject)
    ));
    assert!(matches!(decode_api_data(&parse("\"text\"")), Err(DecodeError::BadRoot)));
}

#[test]
fn post_field_failures_name_the_field() {
    let missing = post_data("p", "").replace("\"title\": \"Post p\", ", "");
    match decode_node(&parse(&format!("{{\"kind\": \"t3\", \"data\": {}}}", missing))) {
        Err(DecodeError::Field(k, DecodeProblem::Missing)) => assert_eq!(k, "title"),
        other => panic!("unexpected {:?}", other),
    }
    match decode_node(&parse(&post("p", "\"score\": \"high\""))) {
        Err(DecodeError::Field(k, DecodeProblem::WrongType)) => assert_eq!(k, "score"),
        other => panic!("unexpected {:?}", other),
    }
    match decode_node(&parse(&post("p", "\"num_comments\": 5000000000"))) {
        Err(DecodeError::Field(k, DecodeProblem::OutOfRange)) => assert_eq!(k, "num_comments"),
        other => panic!("unexpected {:?}", other),
    }
    match decode_node(&parse(&post("p", "\"url\": 3"))) {
        Err(DecodeError::Field(k, DecodeProblem::WrongType)) => assert_eq!(k, "url"),
        other => panic!("unexpected {:?}", other),
    }
    let doc = listing(&[post("a", ""), post("b", "\"locked\": null")], "null", "null");
    match posts_from_json(&parse(&doc), Strictness::Lenient) {
        Err(FetchError::Decode(DecodeError::Field(k, DecodeProblem::WrongType))) => {
            assert_eq!(k, "locked")
        }
        other => panic!("unexpected {:?}", other),
    }
}

#[test]
fn post_fields_decoded() {
    let p = decoded_post(
        "\"score\": -7,\n\"is_gallery\": true,\n\"url\": \"https://example.com/x\",\n\"link_flair_text\": \"News\"",
    );
    assert_eq!(p.score, -7);
    assert_eq!(p.is_gallery, Some(true));
    assert_eq!(p.url.as_deref(), Some("https://example.com/x"));
    assert_eq!(p.num_comments, 3);
    assert_eq!(p.subreddit_subscribers, 300000);
    assert_eq!(p.thumbnail.as_deref(), Some("self"));
    assert_eq!(p.author_flair_text, None);
    assert!(matches!(&p.upvote_ratio, JsonNumber::Decimal(s) if s == "0.97"));
    let q = decoded_post("\"upvote_ratio\": 1");
    assert!(matches!(q.upvote_ratio, JsonNumber::PosInt(1)));
}

#[test]
fn comment_replies_nested() {
    let nested = listing(&[comment("c2", "\"\"")], "null", "null");
    let c = match decode_node(&parse(&comment("c1", &nested))) {
        Ok(RedditData::T1(c)) => c,
        other => panic!("unexpected {:?}", other),
    };
    match &c.replies {
        ReplyList::Replies(l) => {
            assert_eq!(l.children.len(), 1);
            assert!(matches!(&l.children[0], RedditData::T1(r) if r.id == "c2"));
        }
        ReplyList::NoReplies => panic!("replies lost"),
    }
    let c = match decode_node(&parse(&comment("c3", "\"\""))) {
        Ok(RedditData::T1(c)) => c,
        other => panic!("unexpected {:?}", other),
    };
    assert!(matches!(c.replies, ReplyList::NoReplies));
    assert_eq!(c.body, "text c3");
    let bad = "{\"kind\": \"Listing\", \"data\": {\"children\": 4}}";
    match decode_node(&parse(&comment("c4", bad))) {
        Err(DecodeError::Field(k, DecodeProblem::WrongType)) => assert_eq!(k, "children"),
        other => panic!("unexpected {:?}", other),
    }
}

#[test]
fn post_type_priority() {
    let video = decoded_post("\"is_video\": true,\n\"is_gallery\": true");
    assert_eq!(video.post_type(), PostType::Video);
    let gallery = decoded_post("\"is_gallery\": false,\n\"is_reddit_media_domain\": true");
    assert_eq!(gallery.post_type(), PostType::Gallery);
    let image = decoded_post("\"is_reddit_media_domain\": true,\n\"url\": \"https://i.redd.it/a.png\"");
    assert_eq!(image.post_type(), PostType::Image);
    let link = decoded_post("\"url\": \"https://example.com\"");
    assert_eq!(link.post_type(), PostType::Link);
    let text = decoded_post("");
    assert_eq!(text.post_type(), PostType::Text);
}

#[test]
fn comments_query_post_type_and_url() {
    let doc = format!(
        "[{}, {}]",
        listing(
            &[post("post_a", "\"is_video\": true,\n\"is_gallery\": true,\n\"url\": \"https://v.redd.it/z\"")],
            "null",
            "null"
        ),
        listing(&[], "null", "null")
    );
    let q = comments_from_json(&parse(&doc), Strictness::Lenient).unwrap();
    assert_eq!(q.get_post_type(), PostType::Video);
    assert_eq!(q.get_url().as_deref(), Some("https://v.redd.it/z"));
}

#[test]
fn media_url_rewrite() {
    let media = decoded_post("\"is_reddit_media_domain\": true,\n\"url\": \"https://i.redd.it/abc.jpg\"");
    assert_eq!(media.display_url().as_deref(), Some("/i/abc.jpg"));
    let foreign = decoded_post("\"is_reddit_media_domain\": false,\n\"url\": \"https://i.redd.it/abc.jpg\"");
    assert_eq!(foreign.display_url().as_deref(), Some("https://i.redd.it/abc.jpg"));
    let other_host = decoded_post("\"is_reddit_media_domain\": true,\n\"url\": \"https://i.imgur.com/abc.jpg\"");
    assert_eq!(other_host.display_url().as_deref(), Some("https://i.imgur.com/abc.jpg"));
    let none = decoded_post("\"is_reddit_media_domain\": true");
    assert_eq!(none.display_url(), None);
}

#[test]
fn flair_pairs() {
    let p = decoded_post(
        "\"author_flair_text\": \"Crab\",\n\"author_flair_background_color\": \"#ff4500\",\n\"link_flair_text\": \"News\"",
    );
    assert_eq!(p.get_author_flair(), Some(("Crab", "#ff4500")));
    assert_eq!(p.get_link_flair(), Some(("News", "#000000")));
    let q = decoded_post("\"author_flair_background_color\": \"#ffffff\"");
    assert_eq!(q.get_author_flair(), None);
    assert_eq!(q.get_link_flair(), None);
    let c = match decode_node(&parse(&comment("c1", "\"\""))) {
        Ok(RedditData::T1(c)) => c,
        other => panic!("unexpected {:?}", other),
    };
    assert_eq!(c.get_author_flair(), Some(("mod", "#000000")));
}

#[test]
fn wiki_page_decoded() {
    let doc = "{\"kind\": \"wikipage\", \"data\": {\"content_md\": \"# Rules\", \"revision_date\": 1690000000}}";
    let w = wiki_from_json(&parse(doc)).unwrap();
    assert_eq!(w.content_md, "# Rules");
    assert_eq!(w.revision_date, 1690000000);
    let listing_doc = listing(&[], "null", "null");
    assert!(matches!(
        wiki_from_json(&parse(&listing_doc)),
        Err(FetchError::Schema(SchemaError::NotAWikiPage))
    ));
    let array_doc = format!("[{}]", doc);
    assert!(matches!(
        wiki_from_json(&parse(&array_doc)),
        Err(FetchError::Schema(SchemaError::NotSingle))
    ));
}

#[test]
fn user_page_keeps_all_children() {
    let doc = listing(&[post("a", ""), comment("c1", "\"\"")], "\"t1_x\"", "null");
    let l = user_from_json(&parse(&doc)).unwrap();
    assert_eq!(l.children.len(), 2);
    assert!(matches!(&l.children[0], RedditData::T3(_)));
    assert!(matches!(&l.children[1], RedditData::T1(_)));
    assert_eq!(l.after.as_deref(), Some("t1_x"));
}

#[test]
fn status_handling() {
    assert!(check_status(200).is_ok());
    assert!(matches!(check_status(404), Err(FetchError::Status(404))));
    assert_eq!(failure_status(&FetchError::Status(403)), 403);
    assert_eq!(failure_status(&FetchError::Transport), 500);
    assert_eq!(failure_status(&FetchError::Decode(DecodeError::Syntax)), 500);
    assert_eq!(failure_status(&FetchError::Schema(SchemaError::NotAPost)), 500);
}

#[test]
fn strict_policy_rejects_foreign_children() {
    let mixed = listing(
        &[post("a", ""), "{\"kind\": \"t5\", \"data\": {}}".to_string()],
        "null",
        "null",
    );
    assert!(matches!(
        posts_from_json(&parse(&mixed), Strictness::Strict),
        Err(FetchError::Schema(SchemaError::UnexpectedChild))
    ));
    let pure = listing(&[post("a", ""), post("b", "")], "null", "null");
    assert_eq!(posts_from_json(&parse(&pure), Strictness::Strict).unwrap().posts.len(), 2);
    let doc = format!(
        "[{}, {}]",
        listing(&[post("post_a", "")], "null", "null"),
        listing(&[comment("c1", "\"\""), post("post_b", "")], "null", "null")
    );
    assert!(matches!(
        comments_from_json(&parse(&doc), Strictness::Strict),
        Err(FetchError::Schema(SchemaError::UnexpectedChild))
    ));
    assert_eq!(comments_from_json(&parse(&doc), Strictness::Lenient).unwrap().comments.len(), 1);
}
