use blogger2zola::feed::Category;
use blogger2zola::feed::FeedEntry;
use blogger2zola::feed::is_post;
use blogger2zola::pipeline::ExportError;
use blogger2zola::pipeline::converter_result;
use blogger2zola::pipeline::plan_post;
use blogger2zola::replace::replace_all;
use blogger2zola::resolver::DownloadError;
use blogger2zola::resolver::StepResult;
use blogger2zola::resolver::image_filename;
use blogger2zola::resolver::needs_body;
use blogger2zola::resolver::resolve_step;
use blogger2zola::slugs::bundle_name;
use blogger2zola::timefmt::Timestamp;
use blogger2zola::timefmt::format_date;
use blogger2zola::timefmt::format_rfc3339;
use blogger2zola::transform::apply_outcomes;
use blogger2zola::transform::rewrite_image;
use blogger2zola::writer::compose_content;
use blogger2zola::writer::compose_post;
use blogger2zola::writer::index_filename;

const POST_SCHEME: &str = "http://schemas.google.com/g/2005#kind";
const POST_TERM: &str = "http://schemas.google.com/blogger/2008/kind#post";

fn ts(year: u32, month: u32, day: u32) -> Timestamp {
    Timestamp { year, month, day, hour: 0, minute: 0, second: 0, offset_minutes: 0 }
}

fn marker() -> Category {
    Category { scheme: Some(POST_SCHEME.to_string()), term: POST_TERM.to_string() }
}

fn entry(title: &str, categories: Vec<Category>, content: Option<&str>) -> FeedEntry {
    FeedEntry {
        title: title.to_string(),
        updated: ts(2020, 1, 2),
        content: content.map(|c| c.to_string()),
        authors: vec!["Ada".to_string()],
        categories,
    }
}

#[test]
fn test_get_external_ip() {}

#[test]
fn filter_includes_marked_entry_with_title() {
    let e = entry("Hello, World!", vec![marker()], Some("<p>x</p>"));
    assert!(is_post(&e));
}

#[test]
fn filter_excludes_entry_without_marker() {
    let other = Category {
        scheme: Some(POST_SCHEME.to_string()),
        term: "http://schemas.google.com/blogger/2008/kind#comment".to_string(),
    };
    let e = entry("Hello", vec![other], Some("<p>x</p>"));
    assert!(!is_post(&e));
}

#[test]
fn filter_excludes_missing_scheme() {
    let c = Category { scheme: None, term: POST_TERM.to_string() };
    let e = entry("Hello", vec![c], None);
    assert!(!is_post(&e));
}

#[test]
fn filter_requires_exact_marker_match() {
    let prefix_only = Category {
        scheme: Some("http://schemas.google.com/g/2005".to_string()),
        term: POST_TERM.to_string(),
    };
    let e = entry("Hello", vec![prefix_only], None);
    assert!(!is_post(&e));
}

#[test]
fn filter_excludes_empty_title() {
    let e = entry("", vec![marker()], None);
    assert!(!is_post(&e));
}

#[test]
fn filter_excludes_whitespace_title() {
    let e = entry("  \t\n ", vec![marker()], None);
    assert!(!is_post(&e));
}

#[test]
fn date_format_is_zero_padded() {
    assert_eq!(format_date(&ts(2020, 1, 2)), "2020-01-02");
    assert_eq!(format_date(&ts(987, 11, 30)), "0987-11-30");
}

#[test]
fn rfc3339_format_utc() {
    assert_eq!(format_rfc3339(&ts(2020, 1, 2)), "2020-01-02T00:00:00+00:00");
}

#[test]
fn rfc3339_format_negative_offset() {
    let t = Timestamp {
        year: 2019,
        month: 12,
        day: 31,
        hour: 23,
        minute: 5,
        second: 9,
        offset_minutes: -480,
    };
    assert_eq!(format_rfc3339(&t), "2019-12-31T23:05:09-08:00");
}

#[test]
fn bundle_name_expected_value() {
    assert_eq!(bundle_name("Hello, World!", &ts(2020, 1, 2)), "2020-01-02_hello-world");
}

#[test]
fn bundle_name_deterministic() {
    let a = bundle_name("Übergröße & co", &ts(2021, 6, 7));
    let b = bundle_name("Übergröße & co", &ts(2021, 6, 7));
    assert_eq!(a, b);
}

#[test]
fn resolver_direct_image_uses_lowercased_last_segment() {
    let r = resolve_step(0, 200, Some("image/png"), "http://host/Dir/Photo.PNG", "");
    assert_eq!(r, StepResult::Saved("photo.png".to_string()));
}

#[test]
fn resolver_direct_image_without_slash() {
    assert_eq!(image_filename("IMG01.JPG"), "img01.jpg");
}

#[test]
fn resolver_redirect_is_terminal() {
    let r = resolve_step(0, 301, Some("image/png"), "http://host/a.png", "");
    assert_eq!(r, StepResult::Failed(DownloadError::REDIRECT { status: 301 }));
    let r = resolve_step(1, 399, None, "http://host/a.png", "");
    assert_eq!(r, StepResult::Failed(DownloadError::REDIRECT { status: 399 }));
}

#[test]
fn resolver_unknown_status() {
    let r = resolve_step(0, 404, Some("image/png"), "http://host/a.png", "");
    assert_eq!(r, StepResult::Failed(DownloadError::UNKNOWN { status: 404 }));
}

#[test]
fn resolver_html_page_recurses_once() {
    let body = "<html><body><a href=\"http://h/full.jpg\">\
                <img src=\"http://h/thumb.jpg\"></a></body></html>";
    let r = resolve_step(0, 200, Some("text/html"), "http://h/page", body);
    assert_eq!(r, StepResult::Fetch("http://h/thumb.jpg".to_string()));
}

#[test]
fn resolver_html_page_without_image_fails() {
    let body = "<html><body><p>nothing here</p></body></html>";
    let r = resolve_step(0, 200, Some("text/html"), "http://h/page", body);
    assert_eq!(r, StepResult::Failed(DownloadError::NONIMAGE));
}

#[test]
fn resolver_indirection_is_bounded() {
    let body = "<html><body><img src=\"http://h/deeper.jpg\"></body></html>";
    let r = resolve_step(1, 200, Some("text/html"), "http://h/page2", body);
    assert_eq!(r, StepResult::Failed(DownloadError::NONIMAGE));
}

#[test]
fn resolver_other_content_type_fails() {
    let r = resolve_step(0, 200, Some("application/json"), "http://h/x", "");
    assert_eq!(r, StepResult::Failed(DownloadError::NONIMAGE));
    let r = resolve_step(0, 204, None, "http://h/x", "");
    assert_eq!(r, StepResult::Failed(DownloadError::NONIMAGE));
}

#[test]
fn resolver_needs_body_only_for_text() {
    assert!(needs_body(200, Some("text/html")));
    assert!(!needs_body(200, Some("image/gif")));
    assert!(!needs_body(301, Some("text/html")));
    assert!(!needs_body(200, None));
}

#[test]
fn replace_rewrites_every_occurrence() {
    let out = replace_all("a T b T c", "T", "F");
    assert_eq!(out, "a F b F c");
}

#[test]
fn replace_leaves_text_without_occurrence() {
    assert_eq!(replace_all("abc def", "xyz", "F"), "abc def");
}

#[test]
fn replace_empty_pattern_changes_nothing() {
    assert_eq!(replace_all("abc", "", "F"), "abc");
}

#[test]
fn rewrite_round_trip_thumbnail_and_original() {
    let md = "![x](http://h/t.jpg) and [link](http://h/o.jpg) plus http://h/t.jpg";
    let out = rewrite_image(md, "http://h/t.jpg", "http://h/o.jpg", "o.jpg");
    assert_eq!(out, "![x](o.jpg) and [link](o.jpg) plus o.jpg");
}

#[test]
fn partial_failure_keeps_successful_rewrites() {
    let md = "A T1 O1 B T2 O2 C T3 O3";
    let images = vec![
        (Some("T1".to_string()), Some("O1".to_string())),
        (Some("T2".to_string()), Some("O2".to_string())),
        (Some("T3".to_string()), Some("O3".to_string())),
    ];
    let outcomes = vec![Some("f1.png".to_string()), None, Some("f3.png".to_string())];
    let out = apply_outcomes(md, &images, &outcomes);
    assert_eq!(out, "A f1.png f1.png B T2 O2 C f3.png f3.png");
}

#[test]
fn image_without_link_is_skipped() {
    let md = "A T1 B";
    let images = vec![(Some("T1".to_string()), None)];
    let outcomes = vec![Some("f1.png".to_string())];
    let out = apply_outcomes(md, &images, &outcomes);
    assert_eq!(out, "A T1 B");
}

#[test]
fn post_without_images_is_unchanged() {
    let out = apply_outcomes("plain body", &vec![], &vec![]);
    assert_eq!(out, "plain body");
}

#[test]
fn plan_post_fails_without_content() {
    let e = entry("Hello", vec![marker()], None);
    assert!(matches!(plan_post(&e), Err(ExportError::MissingContent)));
}

#[test]
fn plan_post_yields_bundle_and_body() {
    let e = entry("Hello, World!", vec![marker()], Some("<p>hi</p>"));
    let p = plan_post(&e).unwrap();
    assert_eq!(p.bundle, "2020-01-02_hello-world");
    assert_eq!(p.html, "<p>hi</p>");
}

#[test]
fn converter_outcome_is_verbatim() {
    assert_eq!(
        converter_result(true, "body".to_string(), "".to_string()),
        Ok("body".to_string())
    );
    assert_eq!(
        converter_result(false, "".to_string(), "boom".to_string()),
        Err("boom".to_string())
    );
}

#[test]
fn content_file_layout() {
    let out = compose_content("Hello, World!", &ts(2020, 1, 2), "Ada", "body text");
    let expected = "+++\ntitle= \"Hello, World!\"\ndate = 2020-01-02T00:00:00+00:00\n\
                    draft = True\n\n[extra]\nauthor = \"Ada\"\n+++\n\nbody text";
    assert_eq!(out, expected);
}

#[test]
fn end_to_end_single_post() {
    let post = entry("Hello, World!", vec![marker()], Some("<p>Converted.</p>"));
    let not_a_post = entry("Other", vec![], Some("<p>skip</p>"));
    let feed = vec![post, not_a_post];

    let mut bundles: Vec<(String, String)> = Vec::new();
    for e in &feed {
        if !is_post(e) {
            continue;
        }
        let plan = plan_post(e).unwrap();
        let markdown = converter_result(true, "Converted.\n".to_string(), String::new()).unwrap();
        let body = apply_outcomes(&markdown, &vec![], &vec![]);
        let content = compose_post(e, &body);
        bundles.push((plan.bundle, content));
    }

    assert_eq!(bundles.len(), 1);
    assert_eq!(bundles[0].0, "2020-01-02_hello-world");
    assert!(bundles[0].1.starts_with("+++\ntitle= \"Hello, World!\"\n"));
    assert!(bundles[0].1.ends_with("+++\n\nConverted.\n"));
    assert_eq!(index_filename(), "index.md");
}
