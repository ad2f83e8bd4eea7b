//! Read-only derivations over assembled posts and comments.

use vstd::prelude::*;
use vstd::string::{StrSliceExecFns, StringExecFns};
use crate::assemble::CommentsQuery;
use crate::entities::{T1Data, T3Data};
use crate::fields::opt_view;
use crate::json::str_eq;

verus! {

/// The category a post is shown as.
#[derive(Debug, Clone, Copy, PartialEq, Eq, Structural)]
pub enum PostType {
    Text,
    Link,
    Gallery,
    Video,
    Image,
    /// Declared for polls; no rule classifies a post as one yet.
    Poll,
}

/// The category of a post; the first rule that applies wins: a video, then
/// a gallery, then media hosted by the site itself, then a link, else text.
pub open spec fn post_type_of(p: T3Data) -> PostType {
    if p.is_video {
        PostType::Video
    } else if p.is_gallery is Some {
        PostType::Gallery
    } else if p.is_reddit_media_domain {
        PostType::Image
    } else if p.url is Some {
        PostType::Link
    } else {
        PostType::Text
    }
}

/// The host that the site's own media is served from.
pub open spec fn image_host() -> Seq<char> {
    "https://i.redd.it"@
}

/// The path under which this system proxies that host.
pub open spec fn image_proxy_prefix() -> Seq<char> {
    "/i"@
}

/// `u` with a leading image host replaced by the proxy prefix, when the
/// post's media is hosted by the site; `u` itself otherwise.
pub open spec fn rewritten_url(u: Seq<char>, media: bool) -> Seq<char> {
    let h = image_host();
    if media && h.len() <= u.len() && u.take(h.len() as int) == h {
        image_proxy_prefix() + u.skip(h.len() as int)
    } else {
        u
    }
}

/// The flair pair shown for a flair text and its background color: the color
/// defaults to black, and there is no pair without a text.
pub open spec fn flair_pair(text: Option<String>, color: Option<String>) -> Option<(Seq<char>, Seq<char>)> {
    match text {
        Some(t) => Some(
            (
                t@,
                match color {
                    Some(c) => c@,
                    None => "#000000"@,
                },
            ),
        ),
        None => None,
    }
}

/// The view of a borrowed flair pair.
pub open spec fn pair_view(r: Option<(&str, &str)>) -> Option<(Seq<char>, Seq<char>)> {
    match r {
        Some((t, c)) => Some((t@, c@)),
        None => None,
    }
}

fn flair<'a>(text: &'a Option<String>, color: &'a Option<String>) -> (r: Option<(&'a str, &'a str)>)
    ensures
        pair_view(r) == flair_pair(*text, *color),
{
    match text {
        Some(t) => match color {
            Some(c) => Some((t.as_str(), c.as_str())),
            None => Some((t.as_str(), "#000000")),
        },
        None => None,
    }
}

/// Whether `s` begins with `p`.
pub fn has_prefix(s: &str, p: &str) -> (r: bool)
    ensures
        r == (p@.len() <= s@.len() && s@.take(p@.len() as int) == p@),
{
    let n = p.unicode_len();
    if n > s.unicode_len() {
        return false;
    }
    let head = s.substring_char(0, n);
    proof {
        assert(s@.subrange(0, n as int) =~= s@.take(n as int));
    }
    str_eq(head, p)
}

/// The URL to show for `u`, rewritten to the local image proxy when `media`.
pub fn rewrite_url(u: &str, media: bool) -> (r: String)
    ensures
        r@ == rewritten_url(u@, media),
{
    let host = "https://i.redd.it";
    if media && has_prefix(u, host) {
        let rest = u.substring_char(host.unicode_len(), u.unicode_len());
        proof {
            assert(u@.subrange(host@.len() as int, u@.len() as int) =~= u@.skip(host@.len() as int));
        }
        String::from_str("/i").concat(rest)
    } else {
        String::from_str(u)
    }
}

impl T3Data {
    /// The category of this post.
    pub fn post_type(&self) -> (r: PostType)
        ensures
            r == post_type_of(*self),
    {
        if self.is_video {
            PostType::Video
        } else if self.is_gallery.is_some() {
            PostType::Gallery
        } else if self.is_reddit_media_domain {
            PostType::Image
        } else if self.url.is_some() {
            PostType::Link
        } else {
            PostType::Text
        }
    }

    /// The URL of this post as shown, media hosted by the site going through
    /// the local image proxy.
    pub fn display_url(&self) -> (r: Option<String>)
        ensures
            opt_view(r) == match self.url {
                Some(u) => Some(rewritten_url(u@, self.is_reddit_media_domain)),
                None => None,
            },
    {
        match &self.url {
            Some(u) => Some(rewrite_url(u.as_str(), self.is_reddit_media_domain)),
            None => None,
        }
    }

    /// The author's flair text with its background color.
    pub fn get_author_flair(&self) -> (r: Option<(&str, &str)>)
        ensures
            pair_view(r) == flair_pair(self.author_flair_text, self.author_flair_background_color),
    {
        flair(&self.author_flair_text, &self.author_flair_background_color)
    }

    /// The post's flair text with its background color.
    pub fn get_link_flair(&self) -> (r: Option<(&str, &str)>)
        ensures
            pair_view(r) == flair_pair(self.link_flair_text, self.link_flair_background_color),
    {
        flair(&self.link_flair_text, &self.link_flair_background_color)
    }
}

impl T1Data {
    /// The author's flair text with its background color.
    pub fn get_author_flair(&self) -> (r: Option<(&str, &str)>)
        ensures
            pair_view(r) == flair_pair(self.author_flair_text, self.author_flair_background_color),
    {
        flair(&self.author_flair_text, &self.author_flair_background_color)
    }
}

impl CommentsQuery {
    /// The category of the post.
    pub fn get_post_type(&self) -> (r: PostType)
        ensures
            r == post_type_of(self.post),
    {
        self.post.post_type()
    }

    /// The URL of the post as shown.
    pub fn get_url(&self) -> (r: Option<String>)
        ensures
            opt_view(r) == match self.post.url {
                Some(u) => Some(rewritten_url(u@, self.post.is_reddit_media_domain)),
                None => None,
            },
    {
        self.post.display_url()
    }
}

/// A video is classified as one whatever else the post says of itself.
pub proof fn lemma_video_first(p: T3Data)
    requires
        p.is_video,
    ensures
        post_type_of(p) == PostType::Video,
{
}

/// The URL of a post whose media is not hosted by the site is shown unchanged.
pub proof fn lemma_foreign_url_unchanged(u: Seq<char>)
    ensures
        rewritten_url(u, false) == u,
{
}

/// A URL on the image host is shown under the proxy prefix, with the rest
/// of the URL kept.
pub proof fn lemma_media_url_proxied(rest: Seq<char>)
    ensures
        rewritten_url(image_host() + rest, true) == image_proxy_prefix() + rest,
{
    let u = image_host() + rest;
    assert(u.take(image_host().len() as int) =~= image_host());
    assert(u.skip(image_host().len() as int) =~= rest);
}

} // verus!
