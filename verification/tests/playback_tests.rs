use hls_asset::playback::render_watch_page;

#[test]
fn placeholder_is_substituted_everywhere() {
    let template = "<title>{{VIDEO_ID}}</title><video src=\"/api/watch?v={{VIDEO_ID}}\"></video>";
    assert_eq!(
        render_watch_page(template, "AAAAAAAAAAA").as_str(),
        "<title>AAAAAAAAAAA</title><video src=\"/api/watch?v=AAAAAAAAAAA\"></video>"
    );
}

#[test]
fn template_without_placeholder_is_unchanged() {
    let template = "<html><body>no placeholder here</body></html>";
    assert_eq!(render_watch_page(template, "AAAAAAAAAAA").as_str(), template);
}

#[test]
fn empty_template_stays_empty() {
    assert_eq!(render_watch_page("", "AAAAAAAAAAA").as_str(), "");
}

#[test]
fn occurrences_are_found_leftmost_without_rescanning() {
    assert_eq!(render_watch_page("{{{VIDEO_ID}}", "X").as_str(), "{X");
    assert_eq!(render_watch_page("{{VIDEO_ID}}{{VIDEO_ID}}", "ab").as_str(), "abab");
    // a partial placeholder is left as it stands
    assert_eq!(render_watch_page("{{VIDEO_ID}", "X").as_str(), "{{VIDEO_ID}");
}

#[test]
fn non_ascii_template_text_is_preserved() {
    assert_eq!(
        render_watch_page("π → {{VIDEO_ID}} ← π", "AAAAAAAAAAA").as_str(),
        "π → AAAAAAAAAAA ← π"
    );
}
