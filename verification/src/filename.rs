//! Filename derivation from a final (post-redirect) download URL: everything
//! from the first `?` onward is dropped, the part after the last `/` is the
//! filename, and an empty or absent trailing segment falls back to the
//! default `update.zip`. Total: every input yields some filename.

use vstd::prelude::*;
use vstd::string::{StrSliceExecFns, StringExecFns};
use crate::text::{find_char, find_last_char, find_char_in, rfind_char_in, lemma_find_char_bounds,
    lemma_find_last_char_bounds, lemma_find_char_prefix_clean, lemma_find_last_char_suffix_clean};

verus! {

/// The URL with its query string (everything from the first `?` on) removed.
pub open spec fn strip_query(u: Seq<char>) -> Seq<char> {
    let q = find_char(u, '?');
    if q < 0 {
        u
    } else {
        u.subrange(0, q)
    }
}

/// The part of the query-stripped URL after its last `/` (the whole of it if
/// it has no `/`). May be empty.
pub open spec fn last_path_segment(u: Seq<char>) -> Seq<char> {
    let b = strip_query(u);
    let sl = find_last_char(b, '/');
    b.subrange(sl + 1, b.len() as int)
}

/// The filename derived from a URL: its last path segment before any query
/// string, or `update.zip` when that segment is empty.
pub open spec fn resolved_filename(u: Seq<char>) -> Seq<char> {
    if last_path_segment(u).len() == 0 {
        "update.zip"@
    } else {
        last_path_segment(u)
    }
}

/// Law: the derived path segment is a safe local filename — it holds no `/`
/// (so the artifact lands in the working directory, never elsewhere) and no
/// `?` (the query string is gone entirely).
pub proof fn lemma_last_segment_is_clean(u: Seq<char>)
    ensures
        forall|i: int| 0 <= i < last_path_segment(u).len() ==> #[trigger] last_path_segment(
            u,
        )[i] != '/' && last_path_segment(u)[i] != '?',
{
    let b = strip_query(u);
    let q = find_char(u, '?');
    lemma_find_char_bounds(u, '?');
    lemma_find_char_prefix_clean(u, '?');
    lemma_find_last_char_bounds(b, '/');
    lemma_find_last_char_suffix_clean(b, '/');
    let sl = find_last_char(b, '/');
    assert forall|i: int| 0 <= i < last_path_segment(u).len() implies #[trigger] last_path_segment(
        u,
    )[i] != '/' && last_path_segment(u)[i] != '?' by {
        let j = sl + 1 + i;
        assert(last_path_segment(u)[i] == b[j]);
        assert(sl < j < b.len());
        assert(b[j] != '/');
        assert(b[j] == u[j]);
        if q >= 0 {
            assert(j < q);
        }
        assert(u[j] != '?');
    }
}

/// Derive a local filename from a final download URL. Never fails: every
/// input string, however malformed, yields the filename `resolved_filename`
/// describes, and that filename is never empty.
pub fn extract_filename_from_url(url: &str) -> (r: String)
    ensures
        r@ == resolved_filename(url@),
        r@.len() > 0,
{
    let n = url.unicode_len();
    let q = find_char_in(url, '?');
    let end = match q {
        Some(j) => {
            proof {
                lemma_find_char_bounds(url@, '?');
            }
            j
        },
        None => n,
    };
    let base = url.substring_char(0, end);
    proof {
        if q is None {
            assert(url@.subrange(0, n as int) =~= url@);
        }
        assert(base@ == strip_query(url@));
    }
    let m = base.unicode_len();
    let sl = rfind_char_in(base, '/');
    let start = match sl {
        Some(j) => {
            proof {
                lemma_find_last_char_bounds(base@, '/');
            }
            j + 1
        },
        None => 0,
    };
    let name = base.substring_char(start, m);
    proof {
        assert(name@ == last_path_segment(url@));
    }
    if name.unicode_len() == 0 {
        let fallback = "update.zip";
        proof {
            reveal_strlit("update.zip");
        }
        String::from_str(fallback)
    } else {
        String::from_str(name)
    }
}

} // verus!
