//! Video resolution strategies. Each strategy turns a parsed page
//! (and, for some, its own private state) into a video reference;
//! several interchangeable strategies exist because each video host
//! family needs a different resolution technique. Exactly one
//! strategy is active per batch run.

pub mod downloader20230525;
pub mod downloader20231224;
pub mod downloader20240707;
pub mod downloader20241215;

use vstd::prelude::*;

use crate::dom::Doc;
use crate::errors::SheetError;
use crate::sheet::{is_remote_job, FileJob, FileSource};

pub use downloader20230525::Downloader20230525;
pub use downloader20231224::Downloader20231224;
pub use downloader20240707::Downloader20240707;
pub use downloader20241215::Downloader20241215;

verus! {

/// One video resolution strategy.
///
/// `get_url` is the page-local step: from the parsed page (and the
/// strategy's own state) to a video reference. Each strategy pins its
/// outcome down with its own `get_url_spec`.
pub trait Downloader: Sized {
    /// How one resolution call relates the strategy's state before
    /// and after, the page it saw, and what it returned.
    spec fn get_url_spec(pre: Self, post: Self, page: Seq<char>, r: Result<String, SheetError>) -> bool;

    /// Resolves the page to a video reference.
    fn get_url(&mut self, doc: &Doc) -> (r: Result<String, SheetError>)
        ensures
            Self::get_url_spec(*old(self), *final(self), doc@, r),
    ;
}

/// The file job writing a fetched video stream as `<title>.mp4` under
/// `path`.
pub fn video_file_job(title: &str, path: &str, stream_url: String) -> (j: FileJob)
    ensures
        is_remote_job(j, path@ + "/"@ + title@ + ".mp4"@, stream_url@),
{
    FileJob {
        path: String::from_str(path).concat("/").concat(title).concat(".mp4"),
        source: FileSource::Remote(stream_url),
    }
}

} // verus!
