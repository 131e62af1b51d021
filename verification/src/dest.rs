//! Destination resolution for fetch-to-file: decide the path that the
//! response body is written to, from the final URL of the response and the
//! destination the caller supplied, if any.
//!
//! The rule: a supplied path that is an existing directory gets the derived
//! filename appended; any other supplied path is used verbatim; with no
//! supplied path the derived filename stands on its own, relative to the
//! current working directory.

use vstd::prelude::*;
use vstd::string::StrSliceExecFns;
use vstd::string::StringExecFns;

use crate::error::FetchError;
use crate::filename::derived_filename;
use crate::filename::url_filename;
use crate::filename::UrlParts;

verus! {

/// A destination supplied by the caller of fetch-to-file: the path itself,
/// and whether that path named an existing directory when it was checked.
pub struct Destination {
    pub path: String,
    pub is_dir: bool,
}

/// A directory path joined with a filename: a `/` separator stands between
/// them unless the directory already ends in one (or is empty).
pub open spec fn joined(dir: Seq<char>, name: Seq<char>) -> Seq<char> {
    if dir.len() == 0 {
        name
    } else if dir.last() == '/' {
        dir + name
    } else {
        dir + seq!['/'] + name
    }
}

/// The final path of fetch-to-file, or nothing when a filename would have to
/// be derived and the URL offers none.
pub open spec fn resolved_path(u: UrlParts, dst: Option<Destination>) -> Option<Seq<char>> {
    match dst {
        Some(d) => if d.is_dir {
            match derived_filename(u) {
                Some(name) => Some(joined(d.path@, name)),
                None => None,
            }
        } else {
            Some(d.path@)
        },
        None => derived_filename(u),
    }
}

/// Append `name` to the directory path `dir`, per [`joined`].
fn join_path(dir: &str, name: &str) -> (r: String)
    ensures
        r@ == joined(dir@, name@),
{
    let n = dir.unicode_len();
    if n == 0 {
        return name.to_owned();
    }
    let mut r = dir.to_owned();
    if dir.get_char(n - 1) != '/' {
        proof {
            reveal_strlit("/");
            assert("/"@ =~= seq!['/']);
        }
        r.append("/");
    }
    r.append(name);
    r
}

/// Decide where fetch-to-file writes, per [`resolved_path`]: `url` is the
/// effective final URL of the response, `dst` the caller-supplied
/// destination, if any.
pub fn resolve_destination(url: &UrlParts, dst: &Option<Destination>) -> (r: Result<
    String,
    FetchError,
>)
    ensures
        match r {
            Ok(p) => resolved_path(*url, *dst) == Some(p@),
            Err(e) => resolved_path(*url, *dst) is None && e == FetchError::Url,
        },
{
    match dst {
        Some(d) => {
            if d.is_dir {
                match url_filename(url) {
                    Ok(name) => Ok(join_path(d.path.as_str(), name.as_str())),
                    Err(e) => Err(e),
                }
            } else {
                Ok(d.path.clone())
            }
        },
        None => url_filename(url),
    }
}

} // verus!
