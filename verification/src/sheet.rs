//! The sheet record: what one content page yields — a title, an
//! accompaniment reference, an optional video reference and the
//! ordered sheet images — and the per-record download plan laying
//! those resources out under a per-title directory.

use vstd::prelude::*;

use crate::dom::{attr_of, dom_query, models, Doc, ElemModel};
use crate::errors::SheetError;
use crate::text::{chars_of, contains_seq, dec_chars, dec_str, occurs_in, string_of};
use crate::title::{parse_title, spec_title, title_derivable};

verus! {

/// The URL template an accompaniment identifier is substituted into.
pub open spec fn voice_url_of(id: Seq<char>) -> Seq<char> {
    "https://res.wx.qq.com/voice/getvoice?mediaid="@ + id
}

/// The derived title of a page: from the text of the first `h1`
/// element, when one exists and its text is derivable.
pub open spec fn title_result(m: Seq<char>) -> Option<Seq<char>> {
    let hs = dom_query(m, "h1"@);
    if hs.len() > 0 && title_derivable(hs[0].text) {
        Some(spec_title(hs[0].text))
    } else {
        None
    }
}

/// The accompaniment identifier of a page: the identifier attribute
/// of the first audio-embed element, when present and nonempty.
pub open spec fn accomp_id(m: Seq<char>) -> Option<Seq<char>> {
    let es = dom_query(m, "mp-common-mpaudio"@);
    if es.len() > 0 {
        match attr_of(es[0], "voice_encode_fileid"@) {
            Some(id) => if id.len() > 0 {
                Some(id)
            } else {
                None
            },
            None => None,
        }
    } else {
        None
    }
}

/// The embedded video reference of a page: the source attribute of
/// the first `video` element, when both exist.
pub open spec fn video_ref(m: Seq<char>) -> Option<Seq<char>> {
    let es = dom_query(m, "video"@);
    if es.len() > 0 {
        attr_of(es[0], "src"@)
    } else {
        None
    }
}

/// An image element carries a sheet page exactly when its class
/// attribute holds the sheet marker.
pub open spec fn is_sheet_img(e: ElemModel) -> bool {
    match attr_of(e, "class"@) {
        Some(c) => occurs_in(c, "js_insertlocalimg"@),
        None => false,
    }
}

/// The image's source reference, or an empty placeholder when the
/// source attribute is absent (so that surrounding page numbering is
/// preserved).
pub open spec fn sheet_ref_of(e: ElemModel) -> Seq<char> {
    match attr_of(e, "data-src"@) {
        Some(s) => s,
        None => Seq::empty(),
    }
}

/// The sheet references drawn from a sequence of image elements, in
/// order.
pub open spec fn sheet_refs_of(imgs: Seq<ElemModel>) -> Seq<Seq<char>>
    decreases imgs.len(),
{
    if imgs.len() == 0 {
        Seq::empty()
    } else {
        let rest = sheet_refs_of(imgs.drop_last());
        if is_sheet_img(imgs.last()) {
            rest.push(sheet_ref_of(imgs.last()))
        } else {
            rest
        }
    }
}

/// One more image element appends its reference exactly when it
/// carries the sheet marker.
proof fn lemma_sheet_refs_push(imgs: Seq<ElemModel>, e: ElemModel)
    ensures
        sheet_refs_of(imgs.push(e)) == if is_sheet_img(e) {
            sheet_refs_of(imgs).push(sheet_ref_of(e))
        } else {
            sheet_refs_of(imgs)
        },
{
    assert(imgs.push(e).drop_last() =~= imgs);
    assert(imgs.push(e).last() == e);
}

/// The sheet image references of a page, in document order.
pub open spec fn sheet_list(m: Seq<char>) -> Seq<Seq<char>> {
    sheet_refs_of(dom_query(m, "img"@))
}

/// A page yields a record exactly when a title is derivable and an
/// accompaniment identifier is present.
pub open spec fn extract_ok(m: Seq<char>) -> bool {
    title_result(m) is Some && accomp_id(m) is Some
}

/// The views of a sequence of strings.
pub open spec fn views_of(ss: Seq<String>) -> Seq<Seq<char>> {
    Seq::new(ss.len(), |i: int| ss[i]@)
}

/// The view of an optional string.
pub open spec fn opt_view(o: Option<String>) -> Option<Seq<char>> {
    match o {
        Some(s) => Some(s@),
        None => None,
    }
}

/// Where one planned file's bytes come from.
#[derive(Debug, PartialEq, Eq)]
pub enum FileSource {
    /// The bytes are this value itself, written verbatim.
    Literal(String),
    /// The bytes are fetched from this URL.
    Remote(String),
}

/// One file to be produced: its target path and where its bytes come
/// from.
#[derive(Debug, PartialEq, Eq)]
pub struct FileJob {
    pub path: String,
    pub source: FileSource,
}

/// The job writes `content` verbatim to `path`.
pub open spec fn is_literal_job(j: FileJob, path: Seq<char>, content: Seq<char>) -> bool {
    j.path@ == path && (j.source matches FileSource::Literal(c) && c@ == content)
}

/// The job fetches `url` and writes the bytes to `path`.
pub open spec fn is_remote_job(j: FileJob, path: Seq<char>, url: Seq<char>) -> bool {
    j.path@ == path && (j.source matches FileSource::Remote(u) && u@ == url)
}

/// The download plan of one record: the per-title directory, the
/// files to produce in order, and the overall outcome. The plan is
/// not transactional: files already produced stay in place whatever
/// happens to their siblings, and the one planned failure — a record
/// without a video — is reported after every other file, so cheaper
/// resources are never lost to it.
pub struct DownloadPlan {
    /// The directory every file goes under; created on demand,
    /// reused when it already exists.
    pub dir: String,
    /// The files to produce, in order: the provenance file, the
    /// accompaniment, the numbered sheet images, then the video.
    pub jobs: Vec<FileJob>,
    /// `Ok` when the record had a video reference; otherwise the
    /// missing-video error, reported for the skipped video step only.
    pub outcome: Result<(), SheetError>,
}

/// One parsed page's bundle of resource references.
pub struct Sheet {
    /// The source page URL.
    pub url: String,
    /// The derived title, also the per-record directory name.
    pub title: String,
    /// The accompaniment audio URL.
    pub accompaniment: String,
    /// The embedded video URL, when the page holds one.
    pub video: Option<String>,
    /// The sheet image URLs, in document order; an entry may be empty
    /// when an image lacked its source attribute.
    pub sheets: Vec<String>,
}

impl Sheet {
    /// Extracts the record of a parsed page.
    ///
    /// Succeeds exactly when the page derives a title and holds a
    /// nonempty accompaniment identifier; a missing video is
    /// tolerated here (the download step reports it), and a sheet
    /// image without a source is recorded as an empty placeholder.
    /// On failure the error names the first missing piece: the title,
    /// then the accompaniment.
    pub fn try_new(url: String, doc: &Doc) -> (r: Result<Sheet, SheetError>)
        ensures
            r is Ok <==> extract_ok(doc@),
            r matches Ok(s) ==> {
                &&& s.url@ == url@
                &&& title_result(doc@) == Some(s.title@)
                &&& accomp_id(doc@) matches Some(id) && s.accompaniment@ == voice_url_of(id)
                &&& opt_view(s.video) == video_ref(doc@)
                &&& views_of(s.sheets@) == sheet_list(doc@)
            },
            r matches Err(e) ==> e matches SheetError::GetFailed(f) && f@ == (
            if title_result(doc@) is None {
                "sheet title"@
            } else {
                "accompaniment url"@
            }),
    {
        proof {
            reveal_strlit("h1");
            reveal_strlit("mp-common-mpaudio");
            reveal_strlit("video");
            reveal_strlit("img");
        }
        // The derived title, from the first heading.
        let hs = match doc.query("h1") {
            Ok(els) => els,
            Err(e) => {
                return Err(e);
            },
        };
        if hs.len() == 0 {
            return Err(SheetError::GetFailed(String::from_str("sheet title")));
        }
        let title = match parse_title(hs[0].text.as_str()) {
            Ok(t) => t,
            Err(e) => {
                return Err(e);
            },
        };
        // The accompaniment URL, from the audio embed's identifier.
        let aus = match doc.query("mp-common-mpaudio") {
            Ok(els) => els,
            Err(e) => {
                return Err(e);
            },
        };
        if aus.len() == 0 {
            return Err(SheetError::GetFailed(String::from_str("accompaniment url")));
        }
        let accompaniment = match aus[0].attr("voice_encode_fileid") {
            Some(id) => {
                if id.as_str().is_empty() {
                    return Err(SheetError::GetFailed(String::from_str("accompaniment url")));
                }
                String::from_str("https://res.wx.qq.com/voice/getvoice?mediaid=").concat(
                    id.as_str(),
                )
            },
            None => {
                return Err(SheetError::GetFailed(String::from_str("accompaniment url")));
            },
        };
        // The video reference, when one is embedded.
        let vs = match doc.query("video") {
            Ok(els) => els,
            Err(e) => {
                return Err(e);
            },
        };
        let video: Option<String> = if vs.len() > 0 {
            match vs[0].attr("src") {
                Some(v) => Some(v.clone()),
                None => None,
            }
        } else {
            None
        };
        // The sheet images, in document order.
        let imgs = match doc.query("img") {
            Ok(els) => els,
            Err(e) => {
                return Err(e);
            },
        };
        let marker = chars_of("js_insertlocalimg");
        let mut sheets: Vec<String> = Vec::new();
        let mut i: usize = 0;
        while i < imgs.len()
            invariant
                i <= imgs@.len(),
                marker@ == "js_insertlocalimg"@,
                views_of(sheets@) == sheet_refs_of(models(imgs@).take(i as int)),
            decreases imgs@.len() - i,
        {
            proof {
                assert(models(imgs@).take(i as int).push(imgs@[i as int]@) =~= models(
                    imgs@,
                ).take(i + 1 as int));
                lemma_sheet_refs_push(models(imgs@).take(i as int), imgs@[i as int]@);
            }
            let is_sheet = match imgs[i].attr("class") {
                Some(c) => {
                    let cv = chars_of(c.as_str());
                    contains_seq(&cv, &marker)
                },
                None => false,
            };
            if is_sheet {
                match imgs[i].attr("data-src") {
                    Some(src) => {
                        sheets.push(src.clone());
                    },
                    None => {
                        sheets.push(String::new());
                    },
                }
                proof {
                    assert(views_of(sheets@) =~= sheet_refs_of(
                        models(imgs@).take(i + 1 as int),
                    ));
                }
            }
            i = i + 1;
        }
        proof {
            assert(models(imgs@).take(imgs@.len() as int) =~= models(imgs@));
        }
        Ok(Sheet { url, title, accompaniment, video, sheets })
    }

    /// Lays out the record's download plan under `root`.
    ///
    /// The per-title directory takes the derived title's name. In
    /// order: the provenance `README` holding the source URL
    /// verbatim, the accompaniment audio under its fixed localized
    /// name, each sheet image as `<n>.png` numbered by position from
    /// one, and last — because it is the most failure-prone — the
    /// video, named after the title. A record without a video yields
    /// no video file and an error for that one skipped step.
    pub fn download(&self, root: &str) -> (p: DownloadPlan)
        ensures
            p.dir@ == root@ + "/"@ + self.title@,
            p.jobs@.len() == 2 + self.sheets@.len() + (if self.video is Some {
                1int
            } else {
                0int
            }),
            is_literal_job(p.jobs@[0], p.dir@ + "/README"@, self.url@),
            is_remote_job(p.jobs@[1], p.dir@ + "/伴奏.mp3"@, self.accompaniment@),
            forall|i: int|
                0 <= i < self.sheets@.len() ==> is_remote_job(
                    #[trigger] p.jobs@[2 + i],
                    p.dir@ + "/"@ + dec_str((i + 1) as nat) + ".png"@,
                    self.sheets@[i]@,
                ),
            self.video matches Some(v) ==> is_remote_job(
                p.jobs@[p.jobs@.len() - 1],
                p.dir@ + "/"@ + self.title@ + ".mp4"@,
                v@,
            ),
            p.outcome is Ok <==> self.video is Some,
            p.outcome matches Err(e) ==> e matches SheetError::GetFailed(f) && f@ == "video url"@,
    {
        let dir = String::from_str(root).concat("/").concat(self.title.as_str());
        let mut jobs: Vec<FileJob> = Vec::new();
        // The provenance file: the source URL, verbatim.
        jobs.push(
            FileJob {
                path: dir.clone().concat("/README"),
                source: FileSource::Literal(self.url.clone()),
            },
        );
        // The accompaniment audio, under its fixed localized name.
        jobs.push(
            FileJob {
                path: dir.clone().concat("/伴奏.mp3"),
                source: FileSource::Remote(self.accompaniment.clone()),
            },
        );
        // The sheet images, numbered by position from one.
        let mut i: usize = 0;
        while i < self.sheets.len()
            invariant
                i <= self.sheets@.len(),
                jobs@.len() == 2 + i,
                is_literal_job(jobs@[0], dir@ + "/README"@, self.url@),
                is_remote_job(jobs@[1], dir@ + "/伴奏.mp3"@, self.accompaniment@),
                forall|k: int|
                    0 <= k < i ==> is_remote_job(
                        #[trigger] jobs@[2 + k],
                        dir@ + "/"@ + dec_str((k + 1) as nat) + ".png"@,
                        self.sheets@[k]@,
                    ),
            decreases self.sheets@.len() - i,
        {
            let number = string_of(&dec_chars((i + 1) as u64));
            jobs.push(
                FileJob {
                    path: dir.clone().concat("/").concat(number.as_str()).concat(".png"),
                    source: FileSource::Remote(self.sheets[i].clone()),
                },
            );
            i = i + 1;
        }
        // The video, last: the slowest and most failure-prone step.
        let outcome: Result<(), SheetError> = match &self.video {
            Some(v) => {
                jobs.push(
                    FileJob {
                        path: dir.clone().concat("/").concat(self.title.as_str()).concat(".mp4"),
                        source: FileSource::Remote(v.clone()),
                    },
                );
                Ok(())
            },
            None => Err(SheetError::GetFailed(String::from_str("video url"))),
        };
        DownloadPlan { dir, jobs, outcome }
    }
}

} // verus!
