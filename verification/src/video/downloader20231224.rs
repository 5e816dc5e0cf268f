//! The inline-video strategy: the page embeds a directly playable
//! element whose source attribute is the stream itself, so the
//! page-local step has nothing to resolve and the stream is read off
//! the captured player page.

use vstd::prelude::*;

use crate::dom::Doc;
use crate::errors::SheetError;
use crate::sheet::video_ref;
use crate::video::Downloader;

verus! {

/// The strategy for pages whose player embeds the stream directly.
pub struct Downloader20231224;

impl Downloader20231224 {
    /// Reads the video stream URL off a captured player page: the
    /// source attribute of its first `video` element.
    ///
    /// Succeeds exactly when such an element with a source attribute
    /// exists; otherwise the video URL is reported missing.
    pub fn get_video_stream(html: &str) -> (r: Result<String, SheetError>)
        ensures
            r is Ok <==> video_ref(html@) is Some,
            r matches Ok(u) ==> video_ref(html@) == Some(u@),
            r matches Err(e) ==> e matches SheetError::GetFailed(f) && f@ == "video url"@,
    {
        proof {
            reveal_strlit("video");
        }
        let doc = Doc::parse(String::from_str(html));
        let vs = match doc.query("video") {
            Ok(els) => els,
            Err(e) => {
                return Err(e);
            },
        };
        if vs.len() == 0 {
            return Err(SheetError::GetFailed(String::from_str("video url")));
        }
        match vs[0].attr("src") {
            Some(u) => Ok(u.clone()),
            None => Err(SheetError::GetFailed(String::from_str("video url"))),
        }
    }
}

impl Downloader for Downloader20231224 {
    /// The page-local step resolves nothing: the real work happens
    /// against the captured player page, so this yields the empty
    /// reference.
    open spec fn get_url_spec(
        pre: Self,
        post: Self,
        page: Seq<char>,
        r: Result<String, SheetError>,
    ) -> bool {
        r matches Ok(u) && u@ == Seq::<char>::empty()
    }

    fn get_url(&mut self, doc: &Doc) -> (r: Result<String, SheetError>) {
        Ok(String::new())
    }
}

} // verus!
