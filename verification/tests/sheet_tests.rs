use sheet_fetch::dom::Doc;
use sheet_fetch::errors::SheetError;
use sheet_fetch::sheet::{FileSource, Sheet};

fn full_page() -> String {
    let mut page = String::new();
    page.push_str("<html><body>");
    page.push_str("<h1>Song\n|Artist</h1>");
    page.push_str("<mp-common-mpaudio voice_encode_fileid=\"abc\"></mp-common-mpaudio>");
    page.push_str("<video src=\"http://v/stream.mp4\"></video>");
    page.push_str("<img class=\"x js_insertlocalimg y\" data-src=\"http://i/1\">");
    page.push_str("<img class=\"decoration\" data-src=\"http://i/skip\">");
    page.push_str("<img class=\"js_insertlocalimg\">");
    page.push_str("<img class=\"js_insertlocalimg\" data-src=\"http://i/2\">");
    page.push_str("</body></html>");
    page
}

#[test]
fn extracts_the_whole_record() {
    let doc = Doc::parse(full_page());
    let s = Sheet::try_new("http://page".to_string(), &doc).unwrap();
    assert_eq!(s.url, "http://page");
    assert_eq!(s.title, "Artist - Song");
    assert_eq!(
        s.accompaniment,
        "https://res.wx.qq.com/voice/getvoice?mediaid=abc"
    );
    assert_eq!(s.video, Some("http://v/stream.mp4".to_string()));
    assert_eq!(
        s.sheets,
        vec!["http://i/1".to_string(), String::new(), "http://i/2".to_string()]
    );
}

#[test]
fn missing_heading_is_a_missing_title() {
    let doc = Doc::parse("<p>no heading</p>".to_string());
    let r = Sheet::try_new("u".to_string(), &doc);
    assert!(matches!(r, Err(SheetError::GetFailed(f)) if f == "sheet title"));
}

#[test]
fn bad_separator_count_is_a_missing_title() {
    let doc = Doc::parse("<h1>no separator</h1>".to_string());
    let r = Sheet::try_new("u".to_string(), &doc);
    assert!(matches!(r, Err(SheetError::GetFailed(f)) if f == "sheet title"));
}

#[test]
fn missing_audio_embed_is_a_missing_accompaniment() {
    let doc = Doc::parse("<h1>A|B</h1>".to_string());
    let r = Sheet::try_new("u".to_string(), &doc);
    assert!(matches!(r, Err(SheetError::GetFailed(f)) if f == "accompaniment url"));
}

#[test]
fn empty_voice_id_is_a_missing_accompaniment() {
    let doc = Doc::parse(
        "<h1>A|B</h1><mp-common-mpaudio voice_encode_fileid=\"\"></mp-common-mpaudio>".to_string(),
    );
    let r = Sheet::try_new("u".to_string(), &doc);
    assert!(matches!(r, Err(SheetError::GetFailed(f)) if f == "accompaniment url"));
}

#[test]
fn a_missing_video_is_tolerated_at_extraction() {
    let doc = Doc::parse(
        "<h1>A|B</h1><mp-common-mpaudio voice_encode_fileid=\"x\"></mp-common-mpaudio>".to_string(),
    );
    let s = Sheet::try_new("u".to_string(), &doc).unwrap();
    assert_eq!(s.video, None);
    assert_eq!(s.sheets.len(), 0);
}

#[test]
fn download_plan_without_video_reports_only_that_step() {
    let s = Sheet {
        url: "http://page".to_string(),
        title: "T".to_string(),
        accompaniment: "X".to_string(),
        video: None,
        sheets: vec!["U1".to_string(), "U2".to_string()],
    };
    let p = s.download("out");
    assert_eq!(p.dir, "out/T");
    assert_eq!(p.jobs.len(), 4);
    assert_eq!(p.jobs[0].path, "out/T/README");
    assert_eq!(
        p.jobs[0].source,
        FileSource::Literal("http://page".to_string())
    );
    assert_eq!(p.jobs[1].path, "out/T/伴奏.mp3");
    assert_eq!(p.jobs[1].source, FileSource::Remote("X".to_string()));
    assert_eq!(p.jobs[2].path, "out/T/1.png");
    assert_eq!(p.jobs[2].source, FileSource::Remote("U1".to_string()));
    assert_eq!(p.jobs[3].path, "out/T/2.png");
    assert_eq!(p.jobs[3].source, FileSource::Remote("U2".to_string()));
    assert_eq!(
        p.outcome,
        Err(SheetError::GetFailed("video url".to_string()))
    );
}

#[test]
fn download_plan_with_video_ends_with_the_video_file() {
    let s = Sheet {
        url: "u".to_string(),
        title: "Name".to_string(),
        accompaniment: "a".to_string(),
        video: Some("http://v/s.mp4".to_string()),
        sheets: vec![],
    };
    let p = s.download("root");
    assert_eq!(p.jobs.len(), 3);
    assert_eq!(p.jobs[2].path, "root/Name/Name.mp4");
    assert_eq!(
        p.jobs[2].source,
        FileSource::Remote("http://v/s.mp4".to_string())
    );
    assert_eq!(p.outcome, Ok(()));
}

#[test]
fn sheet_numbering_reaches_double_digits() {
    let sheets: Vec<String> = (0..12).map(|i| format!("u{}", i)).collect();
    let s = Sheet {
        url: "u".to_string(),
        title: "T".to_string(),
        accompaniment: "a".to_string(),
        video: None,
        sheets,
    };
    let p = s.download("o");
    assert_eq!(p.jobs[2].path, "o/T/1.png");
    assert_eq!(p.jobs[11].path, "o/T/10.png");
    assert_eq!(p.jobs[13].path, "o/T/12.png");
}
