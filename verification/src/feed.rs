//! The normalized feed model and the per-source pipeline: the raw
//! document the application's parse step hands over, its normalization
//! into a `Feed` (a non-empty feed title is required), the filtering of
//! partial entries out of `posts`, and best-effort icon attachment.

use crate::error::Error;
use crate::text::{hex_spec, hex_encode, trim, trim_spec};
use vstd::prelude::*;
use vstd::string::StringSliceAdditionalSpecFns;

verus! {

/// One content entry of a feed, fully normalized: every field a consumer
/// needs is present, `publisher` is denormalized from the owning feed's
/// title, and `published` is epoch milliseconds (UTC), falling back to the
/// entry's update time when no publication time was given.
#[derive(Debug, Clone, PartialEq, Eq)]
pub struct Post {
    pub title: String,
    pub summary: Option<String>,
    pub url: String,
    pub publisher: String,
    pub published: i64,
}

pub struct PostV {
    pub title: Seq<char>,
    pub summary: Option<Seq<char>>,
    pub url: Seq<char>,
    pub publisher: Seq<char>,
    pub published: i64,
}

impl View for Post {
    type V = PostV;

    open spec fn view(&self) -> PostV {
        PostV {
            title: self.title.view(),
            summary: self.summary.deep_view(),
            url: self.url.view(),
            publisher: self.publisher.view(),
            published: self.published,
        }
    }
}

impl DeepView for Post {
    type V = PostV;

    open spec fn deep_view(&self) -> PostV {
        self.view()
    }
}

/// The normalized result of fetching and parsing one source. A `Feed` only
/// exists with a title; a document without one becomes an error instead.
/// `icon` is a local cache path, present only when the best-effort icon
/// download and write both succeeded.
#[derive(Debug, Clone, PartialEq, Eq)]
pub struct Feed {
    pub title: String,
    pub source: String,
    pub description: Option<String>,
    pub url: Option<String>,
    pub icon: Option<String>,
    pub posts: Vec<Post>,
}

pub struct FeedV {
    pub title: Seq<char>,
    pub source: Seq<char>,
    pub description: Option<Seq<char>>,
    pub url: Option<Seq<char>>,
    pub icon: Option<Seq<char>>,
    pub posts: Seq<PostV>,
}

impl View for Feed {
    type V = FeedV;

    open spec fn view(&self) -> FeedV {
        FeedV {
            title: self.title.view(),
            source: self.source.view(),
            description: self.description.deep_view(),
            url: self.url.deep_view(),
            icon: self.icon.deep_view(),
            posts: self.posts.deep_view(),
        }
    }
}

impl DeepView for Feed {
    type V = FeedV;

    open spec fn deep_view(&self) -> FeedV {
        self.view()
    }
}

/// One entry of a parsed syndication document, before normalization: each
/// field as the document had it, or absent. Timestamps are epoch
/// milliseconds (UTC).
#[derive(Debug, Clone, PartialEq, Eq)]
pub struct RawEntry {
    pub title: Option<String>,
    pub summary: Option<String>,
    pub links: Vec<String>,
    pub published: Option<i64>,
    pub updated: Option<i64>,
}

pub struct RawEntryV {
    pub title: Option<Seq<char>>,
    pub summary: Option<Seq<char>>,
    pub links: Seq<Seq<char>>,
    pub published: Option<i64>,
    pub updated: Option<i64>,
}

impl View for RawEntry {
    type V = RawEntryV;

    open spec fn view(&self) -> RawEntryV {
        RawEntryV {
            title: self.title.deep_view(),
            summary: self.summary.deep_view(),
            links: self.links.deep_view(),
            published: self.published,
            updated: self.updated,
        }
    }
}

impl DeepView for RawEntry {
    type V = RawEntryV;

    open spec fn deep_view(&self) -> RawEntryV {
        self.view()
    }
}

/// A parsed syndication document, before normalization: the feed-level
/// fields the data model reads, and the entries in document order.
#[derive(Debug, Clone, PartialEq, Eq)]
pub struct RawFeed {
    pub title: Option<String>,
    pub description: Option<String>,
    pub links: Vec<String>,
    pub icon_uri: Option<String>,
    pub entries: Vec<RawEntry>,
}

pub struct RawFeedV {
    pub title: Option<Seq<char>>,
    pub description: Option<Seq<char>>,
    pub links: Seq<Seq<char>>,
    pub icon_uri: Option<Seq<char>>,
    pub entries: Seq<RawEntryV>,
}

impl View for RawFeed {
    type V = RawFeedV;

    open spec fn view(&self) -> RawFeedV {
        RawFeedV {
            title: self.title.deep_view(),
            description: self.description.deep_view(),
            links: self.links.deep_view(),
            icon_uri: self.icon_uri.deep_view(),
            entries: self.entries.deep_view(),
        }
    }
}

impl DeepView for RawFeed {
    type V = RawFeedV;

    open spec fn deep_view(&self) -> RawFeedV {
        self.view()
    }
}

/// The primary link of a document or entry: its first link, if it has
/// any.
pub open spec fn first_link_of(links: Seq<Seq<char>>) -> Option<Seq<char>> {
    if links.len() > 0 {
        Option::Some(links[0])
    } else {
        Option::None
    }
}

/// An entry survives normalization exactly when it has a title, a link,
/// and at least one of a publication or an update time.
pub open spec fn keeps_entry(e: RawEntryV) -> bool {
    &&& e.title is Some
    &&& e.links.len() > 0
    &&& (e.published is Some || e.updated is Some)
}

/// The post a surviving entry becomes: summary trimmed, publisher copied
/// from the owning feed's title, publication time falling back to the
/// update time.
pub open spec fn post_of_entry(publisher: Seq<char>, e: RawEntryV) -> PostV
    recommends
        keeps_entry(e),
{
    PostV {
        title: e.title.unwrap(),
        summary: match e.summary {
            Option::Some(s) => Option::Some(trim_spec(s)),
            Option::None => Option::None,
        },
        url: e.links[0],
        publisher: publisher,
        published: if e.published is Some {
            e.published.unwrap()
        } else {
            e.updated.unwrap()
        },
    }
}

/// The posts of a feed: the surviving entries in document order, each
/// normalized; entries missing a required field leave no trace.
pub open spec fn posts_of_entries(publisher: Seq<char>, entries: Seq<RawEntryV>) -> Seq<PostV>
    decreases entries.len(),
{
    if entries.len() == 0 {
        Seq::empty()
    } else {
        posts_of_entries(publisher, entries.drop_last()) + if keeps_entry(entries.last()) {
            seq![post_of_entry(publisher, entries.last())]
        } else {
            Seq::empty()
        }
    }
}

/// A partial entry leaves no trace: an entry that normalization drops —
/// one missing its title, its link, or both timestamps — can be removed
/// from the document without changing the feed's posts at all, so no
/// post ever stands in for it with default or placeholder values.
pub proof fn lemma_partial_entry_excluded(publisher: Seq<char>, entries: Seq<RawEntryV>, i: int)
    requires
        0 <= i < entries.len(),
        !keeps_entry(entries[i]),
    ensures
        posts_of_entries(publisher, entries) == posts_of_entries(publisher, entries.remove(i)),
    decreases entries.len(),
{
    if i == entries.len() - 1 {
        assert(entries.remove(i) =~= entries.drop_last());
        assert(posts_of_entries(publisher, entries) =~= posts_of_entries(
            publisher,
            entries.drop_last(),
        ));
    } else {
        lemma_partial_entry_excluded(publisher, entries.drop_last(), i);
        assert(entries.remove(i).drop_last() =~= entries.drop_last().remove(i));
        assert(entries.remove(i).last() == entries.last());
        assert(entries.remove(i).len() > 0);
    }
}

/// A document carries a usable feed title when the title is present and
/// non-empty: a `Feed` only ever exists with a non-empty title.
pub open spec fn has_title(raw: RawFeedV) -> bool {
    raw.title matches Option::Some(t) && t.len() > 0
}

/// The outcome demanded of a document without a usable feed title: a
/// `MissingRequiredField` error naming the source and the `title` field.
pub open spec fn missing_title_error<T>(site: Seq<char>, r: Result<T, Error>) -> bool {
    r matches Err(e) && (e matches Error::MissingRequiredField { site: s, field: f } && s@ == site
        && f@ == "title"@)
}

/// The feed a titled raw document normalizes to, before icon attachment.
pub open spec fn feed_of_raw(site: Seq<char>, raw: RawFeedV) -> FeedV
    recommends
        has_title(raw),
{
    FeedV {
        title: raw.title.unwrap(),
        source: site,
        description: raw.description,
        url: first_link_of(raw.links),
        icon: Option::None,
        posts: posts_of_entries(raw.title.unwrap(), raw.entries),
    }
}

/// How a raw document's normalization relates to its outcome: a missing
/// or empty feed title is a `MissingRequiredField` error for that source,
/// anything else is exactly the normalized feed.
pub open spec fn normalize_result(site: Seq<char>, raw: RawFeedV, r: Result<Feed, Error>) -> bool {
    if has_title(raw) {
        r matches Ok(feed) && feed@ == feed_of_raw(site, raw)
    } else {
        missing_title_error(site, r)
    }
}

/// Normalizes a parsed document into a `Feed`: requires a non-empty feed
/// title (a document whose title is absent or empty becomes an error, not
/// a degraded feed), keeps only complete entries as posts, trims
/// summaries, and denormalizes the title into every post's `publisher`.
/// The document's icon URI plays no part here; `icon` starts absent.
pub fn normalize_feed(site: &str, raw: RawFeed) -> (r: Result<Feed, Error>)
    ensures
        normalize_result(site@, raw@, r),
{
    let ghost rawv = raw@;
    let RawFeed { title, description, links, icon_uri: _, entries } = raw;
    let title = match title {
        Some(t) => t,
        None => {
            return Err(
                Error::MissingRequiredField { site: site.to_owned(), field: "title".to_owned() },
            );
        },
    };
    if title.as_str().is_empty() {
        return Err(
            Error::MissingRequiredField { site: site.to_owned(), field: "title".to_owned() },
        );
    }
    let mut posts: Vec<Post> = Vec::new();
    let mut k: usize = 0;
    while k < entries.len()
        invariant
            0 <= k <= entries.len(),
            posts.deep_view() == posts_of_entries(title@, entries.deep_view().subrange(0, k as int)),
        decreases entries.len() - k,
    {
        let e = &entries[k];
        let keep = e.title.is_some() && e.links.len() > 0 && (e.published.is_some()
            || e.updated.is_some());
        if keep {
            let ts: i64 = match e.published {
                Some(ts) => ts,
                None => e.updated.unwrap(),
            };
            let summary = match &e.summary {
                Some(s) => Some(trim(s.as_str())),
                None => None,
            };
            let post = Post {
                title: e.title.clone().unwrap(),
                summary,
                url: e.links[0].clone(),
                publisher: title.clone(),
                published: ts,
            };
            posts.push(post);
        }
        proof {
            let pre = entries.deep_view().subrange(0, k as int + 1);
            assert(pre.drop_last() =~= entries.deep_view().subrange(0, k as int));
            assert(pre.last() == entries[k as int]@);
            assert(posts.deep_view() =~= posts_of_entries(title@, pre));
        }
        k += 1;
    }
    proof {
        assert(entries.deep_view().subrange(0, entries.len() as int) =~= entries.deep_view());
        assert(rawv.entries =~= entries.deep_view());
    }
    let url = if links.len() > 0 {
        Some(links[0].clone())
    } else {
        None
    };
    Ok(
        Feed {
            title,
            source: site.to_owned(),
            description,
            url,
            icon: None,
            posts,
        },
    )
}

/// How one source's pipeline relates to its outcome, given what the
/// application's transport and parse steps handed over: `None` is a
/// failed transfer, `Some(None)` a response that was not a parseable
/// syndication document, a parsed document without a usable feed title a
/// missing-field error, and otherwise exactly the normalized feed with
/// the document's icon URI beside it.
pub open spec fn fetch_result(
    site: Seq<char>,
    fetched: Option<Option<RawFeed>>,
    r: Result<(Feed, Option<String>), Error>,
) -> bool {
    match fetched {
        Option::None => r matches Err(e) && (e matches Error::Transport { site: s } && s@ == site),
        Option::Some(doc) => match doc {
            Option::None => r matches Err(e) && (e matches Error::Parse { site: s } && s@ == site),
            Option::Some(raw) => if has_title(raw@) {
                r matches Ok(p) && p.0@ == feed_of_raw(site, raw@) && p.1.deep_view()
                    == raw@.icon_uri
            } else {
                missing_title_error(site, r)
            },
        },
    }
}

/// One source's pipeline after the application's transport and parse
/// steps: `fetched` is `None` when the HTTP transfer failed, `Some(None)`
/// when the response was not a parseable syndication document, and
/// `Some(Some(raw))` the parsed document. Exactly one of a feed or an
/// error comes back, and the optional icon URI rides along for the
/// caller's best-effort icon step.
///
/// The syndication parse itself stays with the application: the parser
/// crate can abort on a pathological document (a duration number above
/// `u64`'s range), which no precondition over raw bytes could exclude
/// soundly, so the library takes the parse's outcome as plain data and
/// its own functions stay total.
pub fn build_feed(site: &str, fetched: Option<Option<RawFeed>>) -> (r: Result<
    (Feed, Option<String>),
    Error,
>)
    ensures
        fetch_result(site@, fetched, r),
{
    let doc = match fetched {
        Some(doc) => doc,
        None => {
            return Err(Error::Transport { site: site.to_owned() });
        },
    };
    let raw = match doc {
        Some(raw) => raw,
        None => {
            return Err(Error::Parse { site: site.to_owned() });
        },
    };
    let icon_uri = raw.icon_uri.clone();
    match normalize_feed(site, raw) {
        Ok(feed) => Ok((feed, icon_uri)),
        Err(e) => Err(e),
    }
}

/// Replaces only the icon of a feed: every other field comes through
/// unchanged, whatever became of the best-effort icon download.
pub fn set_icon(feed: Feed, icon: Option<String>) -> (r: Feed)
    ensures
        r.title == feed.title,
        r.source == feed.source,
        r.description == feed.description,
        r.url == feed.url,
        r.posts == feed.posts,
        r.icon == icon,
{
    Feed {
        title: feed.title,
        source: feed.source,
        description: feed.description,
        url: feed.url,
        icon,
        posts: feed.posts,
    }
}

/// The cache file name for a feed's icon: the lower-case hexadecimal
/// rendering of the feed title's UTF-8 bytes, so distinct titles map to
/// distinct names and a title maps to the same name on every run.
pub fn icon_file_name(title: &str) -> (r: String)
    ensures
        r@ == hex_spec(title.spec_bytes()),
{
    let bytes = title.as_bytes_vec();
    hex_encode(&bytes)
}

} // verus!
