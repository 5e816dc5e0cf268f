//! The external-id-feed strategy: video references come from a
//! separately supplied list of ids, consumed strictly in list order,
//! one per resolution. The cursor is explicit state owned by the
//! strategy value; exclusive access to it (here, `&mut self`) is what
//! keeps two resolutions from claiming the same id.

use vstd::prelude::*;

use crate::dom::{dom_query, Doc};
use crate::errors::SheetError;
use crate::sheet::{video_ref, views_of};
use crate::video::Downloader;

verus! {

/// What one consumption of the feed does to a cursor over `ids`: the
/// new cursor position and the id handed out, if any is left.
pub open spec fn feed_step(ids: Seq<Seq<char>>, c: nat) -> (nat, Option<Seq<char>>) {
    if c < ids.len() {
        ((c + 1) as nat, Some(ids[c as int]))
    } else {
        (c, None)
    }
}

/// The ids handed out by the first `n` consumptions of a fresh feed
/// over `ids`; a consumption past the end hands out nothing.
pub open spec fn feed_trace(ids: Seq<Seq<char>>, n: nat) -> Seq<Option<Seq<char>>>
    decreases n,
{
    if n == 0 {
        Seq::empty()
    } else {
        feed_trace(ids, (n - 1) as nat).push(feed_step(ids, cursor_after(ids, (n - 1) as nat)).1)
    }
}

/// The cursor position after `n` consumptions of a fresh feed.
pub open spec fn cursor_after(ids: Seq<Seq<char>>, n: nat) -> nat
    decreases n,
{
    if n == 0 {
        0
    } else {
        feed_step(ids, cursor_after(ids, (n - 1) as nat)).0
    }
}

/// The cursor never moves past the end of the list.
pub proof fn lemma_cursor_bounded(ids: Seq<Seq<char>>, n: nat)
    ensures
        cursor_after(ids, n) == if n <= ids.len() {
            n
        } else {
            ids.len()
        },
    decreases n,
{
    if n > 0 {
        lemma_cursor_bounded(ids, (n - 1) as nat);
    }
}

/// A trace of `n` consumptions has `n` entries.
pub proof fn lemma_feed_trace_len(ids: Seq<Seq<char>>, n: nat)
    ensures
        feed_trace(ids, n).len() == n,
    decreases n,
{
    if n > 0 {
        lemma_feed_trace_len(ids, (n - 1) as nat);
    }
}

/// Sequential consumption returns ids in file order: as long as ids
/// remain, the `k`-th consumption (counting from zero) hands out the
/// `k`-th id, and every consumption past the end hands out nothing.
pub proof fn lemma_feed_file_order(ids: Seq<Seq<char>>, n: nat, k: int)
    requires
        0 <= k < n,
    ensures
        feed_trace(ids, n).len() == n,
        k < ids.len() ==> feed_trace(ids, n)[k] == Some(ids[k]),
        k >= ids.len() ==> feed_trace(ids, n)[k] is None,
    decreases n,
{
    lemma_feed_trace_len(ids, n);
    lemma_feed_trace_len(ids, (n - 1) as nat);
    lemma_cursor_bounded(ids, (n - 1) as nat);
    if k < n - 1 {
        lemma_feed_file_order(ids, (n - 1) as nat, k);
    }
}

/// The external-id-feed strategy: the remaining ids and the cursor of
/// the next one to hand out.
pub struct Downloader20240707 {
    /// The supplied ids, in file order.
    pub ids: Vec<String>,
    /// How many ids have been handed out already.
    pub cursor: usize,
}

impl Downloader20240707 {
    /// A fresh feed over `ids`, nothing consumed yet.
    pub fn new(ids: Vec<String>) -> (d: Downloader20240707)
        ensures
            views_of(d.ids@) == views_of(ids@),
            d.cursor == 0,
    {
        Downloader20240707 { ids, cursor: 0 }
    }

    /// Reads the video title and stream URL off a captured watch
    /// page: the text of its first `title` element and the source
    /// attribute of its first `video` element.
    ///
    /// Succeeds exactly when both are present; otherwise the first
    /// missing piece — the title, then the stream — is reported.
    pub fn get_video_stream_from_qq(html: &str) -> (r: Result<(String, String), SheetError>)
        ensures
            r is Ok <==> dom_query(html@, "title"@).len() > 0 && video_ref(html@) is Some,
            r matches Ok(p) ==> p.0@ == dom_query(html@, "title"@)[0].text && video_ref(html@)
                == Some(p.1@),
            r matches Err(e) ==> e matches SheetError::GetFailed(f) && f@ == (
            if dom_query(html@, "title"@).len() == 0 {
                "video title"@
            } else {
                "video url"@
            }),
    {
        proof {
            reveal_strlit("title");
            reveal_strlit("video");
        }
        let doc = Doc::parse(String::from_str(html));
        let ts = match doc.query("title") {
            Ok(els) => els,
            Err(e) => {
                return Err(e);
            },
        };
        if ts.len() == 0 {
            return Err(SheetError::GetFailed(String::from_str("video title")));
        }
        let title = ts[0].text.clone();
        let vs = match doc.query("video") {
            Ok(els) => els,
            Err(e) => {
                return Err(e);
            },
        };
        if vs.len() == 0 {
            return Err(SheetError::GetFailed(String::from_str("video url")));
        }
        match vs[0].attr("src") {
            Some(u) => Ok((title, u.clone())),
            None => Err(SheetError::GetFailed(String::from_str("video url"))),
        }
    }
}

impl Downloader for Downloader20240707 {
    /// One consumption of the feed: the next unconsumed id in file
    /// order, or an out-of-range error once the list is exhausted;
    /// the page plays no part.
    open spec fn get_url_spec(
        pre: Self,
        post: Self,
        page: Seq<char>,
        r: Result<String, SheetError>,
    ) -> bool {
        &&& views_of(post.ids@) == views_of(pre.ids@)
        &&& post.cursor == feed_step(views_of(pre.ids@), pre.cursor as nat).0
        &&& match feed_step(views_of(pre.ids@), pre.cursor as nat).1 {
            Some(id) => r matches Ok(u) && u@ == id,
            None => r matches Err(e) && (e matches SheetError::GetFailed(f) && f@
                == "external video id"@),
        }
    }

    fn get_url(&mut self, doc: &Doc) -> (r: Result<String, SheetError>) {
        if self.cursor < self.ids.len() {
            let id = self.ids[self.cursor].clone();
            self.cursor = self.cursor + 1;
            proof {
                assert(views_of(self.ids@)[old(self).cursor as int] == self.ids@[old(
                    self,
                ).cursor as int]@);
            }
            Ok(id)
        } else {
            Err(SheetError::GetFailed(String::from_str("external video id")))
        }
    }
}

} // verus!
