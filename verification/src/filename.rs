//! Filename derivation: given the host and path segments of a parsed URL,
//! pick a local filename.
//!
//! The rule: the last non-empty path segment; if every segment is empty (or
//! there are none), the host with `.html` appended; if there is no host
//! either, the derivation fails with [`FetchError::Url`].

use vstd::prelude::*;
use vstd::string::StringExecFns;

use crate::error::FetchError;

verus! {

/// What the library reads from a parsed URL: the host, if the URL has one,
/// and the ordered path segments (the components between `/` delimiters).
///
/// A URL whose path cannot be split into segments is represented with an
/// empty segment list.
pub struct UrlParts {
    pub host: Option<String>,
    pub segments: Vec<String>,
}

/// The path segments of a URL, as sequences of characters.
pub open spec fn seg_views(u: UrlParts) -> Seq<Seq<char>> {
    u.segments@.map_values(|s: String| s@)
}

/// The last non-empty element of `segs`, if any.
pub open spec fn last_nonempty(segs: Seq<Seq<char>>) -> Option<Seq<char>>
    decreases segs.len(),
{
    if segs.len() == 0 {
        None
    } else if segs.last().len() > 0 {
        Some(segs.last())
    } else {
        last_nonempty(segs.drop_last())
    }
}

/// The filename derived from a URL: its last non-empty path segment, or the
/// host with `.html` appended, or nothing when the URL offers neither.
pub open spec fn derived_filename(u: UrlParts) -> Option<Seq<char>> {
    match last_nonempty(seg_views(u)) {
        Some(seg) => Some(seg),
        None => match u.host {
            Some(h) => Some(h@ + ".html"@),
            None => None,
        },
    }
}

/// Derive a local filename from a URL, per [`derived_filename`].
pub fn url_filename(url: &UrlParts) -> (r: Result<String, FetchError>)
    ensures
        match r {
            Ok(name) => derived_filename(*url) == Some(name@),
            Err(e) => derived_filename(*url) is None && e == FetchError::Url,
        },
{
    let ghost views = seg_views(*url);
    let mut i: usize = url.segments.len();
    proof {
        assert(views.take(i as int) =~= views);
    }
    while i > 0
        invariant
            i <= url.segments.len(),
            views == seg_views(*url),
            last_nonempty(views) == last_nonempty(views.take(i as int)),
        decreases i,
    {
        i = i - 1;
        proof {
            assert(views.take(i as int + 1).drop_last() =~= views.take(i as int));
            assert(views.take(i as int + 1).last() == views[i as int]);
        }
        if !url.segments[i].as_str().is_empty() {
            return Ok(url.segments[i].clone());
        }
    }
    proof {
        assert(views.take(0) =~= Seq::<Seq<char>>::empty());
    }
    match &url.host {
        Some(h) => Ok(h.clone().concat(".html")),
        None => Err(FetchError::Url),
    }
}

proof fn lemma_last_nonempty_is_nonempty(segs: Seq<Seq<char>>)
    ensures
        last_nonempty(segs) is Some ==> last_nonempty(segs)->0.len() > 0,
    decreases segs.len(),
{
    if segs.len() > 0 && segs.last().len() == 0 {
        lemma_last_nonempty_is_nonempty(segs.drop_last());
    }
}

proof fn lemma_last_nonempty_at(segs: Seq<Seq<char>>, j: int)
    requires
        0 <= j < segs.len(),
        segs[j].len() > 0,
        forall|k: int| j < k < segs.len() ==> segs[k].len() == 0,
    ensures
        last_nonempty(segs) == Some(segs[j]),
    decreases segs.len(),
{
    if j < segs.len() - 1 {
        lemma_last_nonempty_at(segs.drop_last(), j);
    }
}

proof fn lemma_last_nonempty_none(segs: Seq<Seq<char>>)
    requires
        forall|k: int| 0 <= k < segs.len() ==> segs[k].len() == 0,
    ensures
        last_nonempty(segs) is None,
    decreases segs.len(),
{
    if segs.len() > 0 {
        lemma_last_nonempty_none(segs.drop_last());
    }
}

/// Law: a URL with at least one non-empty path segment derives exactly its
/// last non-empty segment — `j` names that segment: non-empty, with only
/// empty segments after it.
pub proof fn lemma_filename_is_last_nonempty_segment(u: UrlParts, j: int)
    requires
        0 <= j < seg_views(u).len(),
        seg_views(u)[j].len() > 0,
        forall|k: int| j < k < seg_views(u).len() ==> seg_views(u)[k].len() == 0,
    ensures
        derived_filename(u) == Some(seg_views(u)[j]),
{
    lemma_last_nonempty_at(seg_views(u), j);
}

/// Law: a URL with a host whose path segments are all empty (or absent)
/// derives exactly the host with `.html` appended.
pub proof fn lemma_filename_is_host_fallback(u: UrlParts)
    requires
        u.host is Some,
        forall|k: int| 0 <= k < seg_views(u).len() ==> seg_views(u)[k].len() == 0,
    ensures
        derived_filename(u) == Some(u.host->0@ + ".html"@),
{
    lemma_last_nonempty_none(seg_views(u));
}

/// Law: the derived filename of a URL that has a host is never empty.
pub proof fn lemma_filename_nonempty(u: UrlParts)
    requires
        u.host is Some,
    ensures
        derived_filename(u) is Some,
        derived_filename(u)->0.len() > 0,
{
    lemma_last_nonempty_is_nonempty(seg_views(u));
    if last_nonempty(seg_views(u)) is None {
        reveal_strlit(".html");
    }
}

} // verus!
