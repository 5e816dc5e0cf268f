//! The static-iframe strategy: the page embeds a player page behind
//! an `iframe`-like element's redirect-target attribute; the host
//! video id is pulled out of that reference by the `vid=<alnum>+`
//! pattern and rewritten into the canonical watch-page URL.

use vstd::prelude::*;

use crate::dom::{attr_of, dom_query, Doc};
use crate::errors::SheetError;
use crate::text::{chars_of, occurs_at, occurs_at_exec, string_of, sub_vec};
use crate::video::Downloader;

verus! {

/// A character the host video id may hold: an ASCII letter or digit.
pub open spec fn is_vid_char(c: char) -> bool {
    ('a' <= c && c <= 'z') || ('A' <= c && c <= 'Z') || ('0' <= c && c <= '9')
}

/// The `vid=<alnum>+` pattern matches at position `i`: the literal
/// `vid=` followed by at least one id character.
pub open spec fn vid_match_at(s: Seq<char>, i: int) -> bool {
    occurs_at(s, "vid="@, i) && i + 4 < s.len() && is_vid_char(s[i + 4])
}

/// The pattern matches somewhere in the reference.
pub open spec fn has_vid(s: Seq<char>) -> bool {
    exists|i: int| vid_match_at(s, i)
}

/// The first position at or after `i` where the pattern matches.
pub open spec fn first_vid_from(s: Seq<char>, i: int) -> Option<int>
    decreases s.len() - i when 0 <= i
{
    if i >= s.len() {
        None
    } else if vid_match_at(s, i) {
        Some(i)
    } else {
        first_vid_from(s, i + 1)
    }
}

/// The first position where the pattern matches, if any.
pub open spec fn first_vid(s: Seq<char>) -> Option<int> {
    first_vid_from(s, 0)
}

/// The end of the run of id characters starting at `j`.
pub open spec fn run_end(s: Seq<char>, j: int) -> int
    decreases s.len() - j when 0 <= j <= s.len()
{
    if j < s.len() && is_vid_char(s[j]) {
        run_end(s, j + 1)
    } else {
        j
    }
}

/// The id of the pattern match at `k`: the maximal run of id
/// characters after the `vid=` literal.
pub open spec fn vid_id_at(s: Seq<char>, k: int) -> Seq<char> {
    s.subrange(k + 4, run_end(s, k + 4))
}

/// The canonical watch-page URL of a host video id.
pub open spec fn watch_url(id: Seq<char>) -> Seq<char> {
    "https://v.qq.com/x/page/"@ + id + ".html"@
}

/// The player-page reference of a page: the redirect-target attribute
/// of its first `iframe` element, when both exist.
pub open spec fn iframe_ref(m: Seq<char>) -> Option<Seq<char>> {
    let es = dom_query(m, "iframe"@);
    if es.len() > 0 {
        attr_of(es[0], "data-src"@)
    } else {
        None
    }
}

/// What `first_vid_from` yields: the first match at or after `i`,
/// with nothing matching before it, or nothing at all.
proof fn lemma_first_vid_from_props(s: Seq<char>, i: int)
    requires
        0 <= i,
    ensures
        match first_vid_from(s, i) {
            Some(k) => i <= k < s.len() && vid_match_at(s, k) && forall|j: int|
                i <= j < k ==> !vid_match_at(s, j),
            None => forall|j: int| j >= i ==> !vid_match_at(s, j),
        },
    decreases s.len() - i,
{
    if i >= s.len() {
        assert forall|j: int| j >= i implies !vid_match_at(s, j) by {
            assert(j + 4 >= s.len());
        }
    } else if !vid_match_at(s, i) {
        lemma_first_vid_from_props(s, i + 1);
    }
}

/// With a match at `k` and none before it, `k` is the first match.
proof fn lemma_first_vid_is(s: Seq<char>, i: int, k: int)
    requires
        0 <= i <= k,
        vid_match_at(s, k),
        forall|j: int| i <= j < k ==> !vid_match_at(s, j),
    ensures
        first_vid_from(s, i) == Some(k),
    decreases k - i,
{
    if i < k {
        lemma_first_vid_is(s, i + 1, k);
    }
}

/// A reference that holds `vid=abc123` anywhere holds the pattern,
/// so resolution succeeds on it.
pub proof fn lemma_vid_pattern_resolves(s: Seq<char>, i: int)
    requires
        occurs_at(s, "vid=abc123"@, i),
    ensures
        has_vid(s),
{
    reveal_strlit("vid=abc123");
    reveal_strlit("vid=");
    let w = s.subrange(i, i + 10);
    assert(w == "vid=abc123"@);
    assert forall|k: int| 0 <= k < 10 implies s[i + k] == "vid=abc123"@[k] by {
        assert(w[k] == s[i + k]);
    }
    assert(s.subrange(i, i + 4) =~= "vid="@);
    assert(s[i + 4] == "vid=abc123"@[4]) by {
        assert(w[4] == s[i + 4]);
    }
    assert("vid=abc123"@[4] == 'a');
    assert(is_vid_char('a'));
    assert(vid_match_at(s, i));
}

/// The canonical watch-page URL of the id `abc123` embeds that id
/// exactly once: at one position, and at no other.
pub proof fn lemma_watch_url_embeds_once()
    ensures
        occurs_at(watch_url("abc123"@), "abc123"@, 24),
        forall|j: int| j != 24 ==> !occurs_at(watch_url("abc123"@), "abc123"@, j),
{
    reveal_strlit("https://v.qq.com/x/page/");
    reveal_strlit("abc123");
    reveal_strlit(".html");
    let p = "https://v.qq.com/x/page/"@;
    let id = "abc123"@;
    let q = ".html"@;
    let u = watch_url(id);
    assert(u =~= p + id + q);
    assert(u.len() == 35);
    assert forall|k: int| 0 <= k < 35 implies u[k] == (p + id + q)[k] by {}
    assert(u.subrange(24, 30) =~= id);
    assert forall|j: int| j != 24 implies !occurs_at(u, id, j) by {
        if 0 <= j && j + 6 <= 35 && u.subrange(j, j + 6) == id {
            assert forall|k: int| 0 <= k < 6 implies u[j + k] == id[k] by {
                assert(u.subrange(j, j + 6)[k] == u[j + k]);
            }
            if j <= 18 {
                // The window would need a `b` inside the host prefix,
                // which has none.
                assert(u[j + 1] == id[1]);
                assert(id[1] == 'b');
                assert(u[j + 1] == p[j + 1]);
            } else if j <= 23 {
                // The window crosses the final `/` of the prefix.
                let k = 23 - j;
                assert(u[j + k] == id[k]);
                assert(u[23] == p[23]);
                assert(p[23] == '/');
                assert(!is_vid_char('/')) by {
                    assert(('/' as u32) == 47);
                }
                assert(is_vid_char(id[k]));
            } else {
                // The window crosses the `.` that starts the suffix.
                let k = 30 - j;
                assert(u[j + k] == id[k]);
                assert(u[30] == q[0]);
                assert(q[0] == '.');
                assert(is_vid_char(id[k]));
            }
        }
    }
}

/// Executable test for an id character.
fn is_id_char(c: char) -> (r: bool)
    ensures
        r == is_vid_char(c),
{
    ('a' <= c && c <= 'z') || ('A' <= c && c <= 'Z') || ('0' <= c && c <= '9')
}

/// The strategy for pages that embed a player page in an iframe.
pub struct Downloader20230525;

impl Downloader20230525 {
    /// Rewrites a player-page reference into the canonical watch-page
    /// URL of the host video id found in it.
    ///
    /// Succeeds exactly when the reference holds `vid=` followed by
    /// at least one letter or digit, anywhere; the id is the maximal
    /// letter-or-digit run after the first such occurrence. A
    /// reference without the pattern is reported as a missing video
    /// URL.
    pub fn resolve_reference(reference: &str) -> (r: Result<String, SheetError>)
        ensures
            r is Ok <==> has_vid(reference@),
            r matches Ok(u) ==> (first_vid(reference@) matches Some(k) && u@ == watch_url(
                vid_id_at(reference@, k),
            )),
            r matches Err(e) ==> e matches SheetError::GetFailed(f) && f@ == "video url"@,
    {
        proof {
            lemma_first_vid_from_props(reference@, 0);
        }
        let v = chars_of(reference);
        let pat = chars_of("vid=");
        proof {
            reveal_strlit("vid=");
            assert(pat@ =~= "vid="@);
        }
        let n = v.len();
        if n < 5 {
            proof {
                assert(forall|j: int| !vid_match_at(reference@, j));
            }
            return Err(SheetError::GetFailed(String::from_str("video url")));
        }
        let stop: usize = n - 4;
        let mut i: usize = 0;
        let mut found: Option<usize> = None;
        while i < stop
            invariant_except_break
                found is None,
            invariant
                i <= stop,
                stop == n - 4,
                5 <= n == v@.len(),
                v@ == reference@,
                pat@ == "vid="@,
                pat@.len() == 4,
                forall|j: int| 0 <= j < i ==> !vid_match_at(reference@, j),
            ensures
                match found {
                    Some(k) => k < stop && vid_match_at(reference@, k as int) && forall|j: int|
                        0 <= j < k ==> !vid_match_at(reference@, j),
                    None => forall|j: int| 0 <= j < stop ==> !vid_match_at(reference@, j),
                },
            decreases stop - i,
        {
            if occurs_at_exec(&v, &pat, i) {
                let c = v[i + 4];
                if is_id_char(c) {
                    found = Some(i);
                    proof {
                        assert(vid_match_at(reference@, i as int));
                    }
                    break ;
                }
            }
            proof {
                assert(!vid_match_at(reference@, i as int));
            }
            i = i + 1;
        }
        match found {
            None => {
                proof {
                    assert forall|j: int| !vid_match_at(reference@, j) by {
                        if stop <= j {
                            assert(j + 4 >= n);
                        }
                    }
                }
                Err(SheetError::GetFailed(String::from_str("video url")))
            },
            Some(k) => {
                proof {
                    lemma_first_vid_is(reference@, 0, k as int);
                }
                let start: usize = k + 4;
                let mut j: usize = start;
                while j < n && is_id_char(v[j])
                    invariant
                        start <= j <= n,
                        n == v@.len(),
                        v@ == reference@,
                        run_end(reference@, start as int) == run_end(reference@, j as int),
                    decreases n - j,
                {
                    j = j + 1;
                }
                let id = sub_vec(&v, start, j);
                proof {
                    assert(run_end(reference@, j as int) == j);
                    assert(id@ == vid_id_at(reference@, k as int));
                }
                let url = String::from_str("https://v.qq.com/x/page/").concat(
                    string_of(&id).as_str(),
                ).concat(".html");
                Ok(url)
            },
        }
    }
}

impl Downloader for Downloader20230525 {
    /// Resolution takes the redirect-target of the page's first
    /// iframe and rewrites its `vid=` id into the canonical
    /// watch-page URL; a page without the iframe, the attribute or
    /// the pattern is reported as a missing video URL.
    open spec fn get_url_spec(
        pre: Self,
        post: Self,
        page: Seq<char>,
        r: Result<String, SheetError>,
    ) -> bool {
        match iframe_ref(page) {
            Some(rf) => {
                if has_vid(rf) {
                    r matches Ok(u) && (first_vid(rf) matches Some(k) && u@ == watch_url(
                        vid_id_at(rf, k),
                    ))
                } else {
                    r matches Err(e) && (e matches SheetError::GetFailed(f) && f@ == "video url"@)
                }
            },
            None => r matches Err(e) && (e matches SheetError::GetFailed(f) && f@
                == "video url"@),
        }
    }

    fn get_url(&mut self, doc: &Doc) -> (r: Result<String, SheetError>) {
        proof {
            reveal_strlit("iframe");
        }
        let es = match doc.query("iframe") {
            Ok(els) => els,
            Err(e) => {
                return Err(SheetError::GetFailed(String::from_str("video url")));
            },
        };
        if es.len() == 0 {
            return Err(SheetError::GetFailed(String::from_str("video url")));
        }
        match es[0].attr("data-src") {
            Some(rf) => Self::resolve_reference(rf.as_str()),
            None => Err(SheetError::GetFailed(String::from_str("video url"))),
        }
    }
}

} // verus!
