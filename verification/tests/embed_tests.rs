use websockify::embed::append_filename;
use websockify::embed::resolve_embed;
use websockify::embed::EmbedChoice;

#[test]
fn append_filename_joins_with_slash() {
    assert_eq!(append_filename("bar", "index.html"), "bar/index.html");
    assert_eq!(append_filename("a/b", "index.htm"), "a/b/index.htm");
}

#[test]
fn append_filename_empty_path() {
    assert_eq!(append_filename("", "index.html"), "index.html");
}

#[test]
fn direct_hit_is_served_with_its_own_type() {
    // The guessed type comes from the request path's extension, so it
    // differs from the path itself.
    let plan = resolve_embed("foo.txt", true, false, false).unwrap();
    assert_eq!(plan.choice, EmbedChoice::Direct);
    assert_eq!(plan.content_type, "text/plain");
}

#[test]
fn direct_hit_wins_over_fallbacks() {
    let plan = resolve_embed("foo.txt", true, true, true).unwrap();
    assert_eq!(plan.choice, EmbedChoice::Direct);
}

#[test]
fn index_html_fallback() {
    let plan = resolve_embed("bar", false, true, false).unwrap();
    assert_eq!(plan.choice, EmbedChoice::IndexHtml);
    assert_eq!(plan.content_type, "text/html");
}

#[test]
fn index_htm_fallback_reports_html_type() {
    // A hit on index.htm is typed as index.html, as the server reports
    // it.
    let plan = resolve_embed("bar", false, false, true).unwrap();
    assert_eq!(plan.choice, EmbedChoice::IndexHtm);
    assert_eq!(plan.content_type, "text/html");
}

#[test]
fn miss_on_all_candidates_is_not_found() {
    assert!(resolve_embed("bar.txt", false, false, false).is_none());
}

#[test]
fn unknown_extension_gets_octet_stream() {
    let plan = resolve_embed("data.bin_unknown_ext", true, false, false).unwrap();
    assert_eq!(plan.content_type, "application/octet-stream");
}
