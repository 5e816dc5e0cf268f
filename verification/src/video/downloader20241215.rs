//! The passthrough strategy: when no structured video reference can
//! be found on the page, the original source URL itself is treated as
//! the video reference, best-effort — it may still fail at fetch
//! time.

use vstd::prelude::*;

use crate::dom::Doc;
use crate::errors::SheetError;
use crate::video::Downloader;

verus! {

/// The fallback strategy: hand the source URL back as the reference.
pub struct Downloader20241215 {
    /// The source page URL the batch item came from.
    pub source_url: String,
}

impl Downloader20241215 {
    /// A passthrough resolver for one source page.
    pub fn new(source_url: String) -> (d: Downloader20241215)
        ensures
            d.source_url@ == source_url@,
    {
        Downloader20241215 { source_url }
    }
}

impl Downloader for Downloader20241215 {
    /// Resolution always succeeds and yields the source URL itself,
    /// whatever the page holds.
    open spec fn get_url_spec(
        pre: Self,
        post: Self,
        page: Seq<char>,
        r: Result<String, SheetError>,
    ) -> bool {
        r matches Ok(u) && u@ == pre.source_url@
    }

    fn get_url(&mut self, doc: &Doc) -> (r: Result<String, SheetError>) {
        Ok(self.source_url.clone())
    }
}

} // verus!
