use sheet_fetch::dom::Doc;
use sheet_fetch::errors::SheetError;
use sheet_fetch::video::{
    Downloader, Downloader20230525, Downloader20231224, Downloader20240707, Downloader20241215,
    video_file_job,
};

fn empty_doc() -> Doc {
    Doc::parse(String::new())
}

#[test]
fn resolve_reference_rewrites_the_vid_id() {
    let r = Downloader20230525::resolve_reference(
        "https://host/player?foo=1&vid=abc123&bar=2",
    )
    .unwrap();
    assert_eq!(r, "https://v.qq.com/x/page/abc123.html");
}

#[test]
fn resolved_url_embeds_the_id_exactly_once() {
    let r = Downloader20230525::resolve_reference("x vid=abc123 y").unwrap();
    assert_eq!(r.matches("abc123").count(), 1);
}

#[test]
fn missing_vid_pattern_is_not_found() {
    let r = Downloader20230525::resolve_reference("https://host/player?id=9");
    assert_eq!(r, Err(SheetError::GetFailed("video url".to_string())));
}

#[test]
fn vid_without_an_id_is_not_found() {
    let r = Downloader20230525::resolve_reference("vid=&x=1");
    assert_eq!(r, Err(SheetError::GetFailed("video url".to_string())));
}

#[test]
fn the_first_vid_match_wins() {
    let r = Downloader20230525::resolve_reference("vid=zz!vid=abc123").unwrap();
    assert_eq!(r, "https://v.qq.com/x/page/zz.html");
}

#[test]
fn the_id_run_is_maximal() {
    let r = Downloader20230525::resolve_reference("vid=A1b2C3.html").unwrap();
    assert_eq!(r, "https://v.qq.com/x/page/A1b2C3.html");
}

#[test]
fn static_iframe_reads_the_embed_attribute() {
    let doc = Doc::parse(
        "<iframe class=\"video_iframe\" data-src=\"http://h/p?vid=q1w2\"></iframe>".to_string(),
    );
    let mut d = Downloader20230525;
    let r = d.get_url(&doc).unwrap();
    assert_eq!(r, "https://v.qq.com/x/page/q1w2.html");
}

#[test]
fn static_iframe_without_embed_is_not_found() {
    let mut d = Downloader20230525;
    let r = d.get_url(&empty_doc());
    assert_eq!(r, Err(SheetError::GetFailed("video url".to_string())));
}

#[test]
fn inline_tag_reads_the_stream_off_the_player_page() {
    let r =
        Downloader20231224::get_video_stream("<video src=\"http://v/s.mp4\"></video>").unwrap();
    assert_eq!(r, "http://v/s.mp4");
}

#[test]
fn inline_tag_without_stream_is_missing() {
    let r = Downloader20231224::get_video_stream("<p>no video</p>");
    assert_eq!(r, Err(SheetError::GetFailed("video url".to_string())));
}

#[test]
fn inline_tag_page_local_step_yields_the_empty_reference() {
    let mut d = Downloader20231224;
    assert_eq!(d.get_url(&empty_doc()), Ok(String::new()));
}

#[test]
fn external_id_feed_returns_ids_in_file_order() {
    let mut d = Downloader20240707::new(vec![
        "id-a".to_string(),
        "id-b".to_string(),
        "id-c".to_string(),
    ]);
    let doc = empty_doc();
    assert_eq!(d.get_url(&doc), Ok("id-a".to_string()));
    assert_eq!(d.get_url(&doc), Ok("id-b".to_string()));
    assert_eq!(d.get_url(&doc), Ok("id-c".to_string()));
    assert_eq!(
        d.get_url(&doc),
        Err(SheetError::GetFailed("external video id".to_string()))
    );
    assert_eq!(
        d.get_url(&doc),
        Err(SheetError::GetFailed("external video id".to_string()))
    );
}

#[test]
fn qq_capture_yields_title_and_stream() {
    let html = "<html><head><title>Clip</title></head><body><video src=\"http://v/s\"></video></body></html>";
    let (title, url) = Downloader20240707::get_video_stream_from_qq(html).unwrap();
    assert_eq!(title, "Clip");
    assert_eq!(url, "http://v/s");
}

#[test]
fn qq_capture_without_stream_is_missing() {
    let html = "<html><head><title>Clip</title></head><body></body></html>";
    let r = Downloader20240707::get_video_stream_from_qq(html);
    assert_eq!(r, Err(SheetError::GetFailed("video url".to_string())));
}

#[test]
fn passthrough_hands_the_source_url_back() {
    let mut d = Downloader20241215::new("http://page".to_string());
    assert_eq!(d.get_url(&empty_doc()), Ok("http://page".to_string()));
}

#[test]
fn video_files_are_named_after_the_title() {
    let j = video_file_job("Clip", "out/T", "http://v/s".to_string());
    assert_eq!(j.path, "out/T/Clip.mp4");
}
