use std::collections::HashSet;
use urbit_content_archiver::archive::{
    download_file, download_path, export_file_path, export_header, get_content_dir,
    get_file_name, get_root_dir, Args,
};
use urbit_content_archiver::extensions::{
    classify, is_downloadable_file_url, is_media_file_url, ContentKind,
};
use urbit_content_archiver::records::{
    comments_to_markdown_strings, message_to_markdown_line, message_to_markdown_string,
    note_to_markdown_strings, AuthoredRecord, Note,
};
use urbit_content_archiver::rewrite::{
    download_and_convert_to_markdown, link_in_markdown_string, needs_mirror,
    parse_link_in_markdown_string, render_content_segment, ContentSegment,
};
use urbit_content_archiver::text::{after_last_char, find_char, rfind_char};

fn args(ship: &str, name: &str, output: &str) -> Args {
    Args {
        cmd_chat: true,
        cmd_notebook: false,
        arg_ship: ship.to_string(),
        arg_name: name.to_string(),
        flag_config: String::new(),
        flag_output: output.to_string(),
    }
}

fn text(s: &str) -> ContentSegment {
    ContentSegment::Text(s.to_string())
}

fn url(s: &str) -> ContentSegment {
    ContentSegment::UrlReference(s.to_string())
}

fn segment_text(seg: ContentSegment) -> String {
    match seg {
        ContentSegment::Text(t) => t,
        ContentSegment::UrlReference(u) => panic!("expected text, got url {}", u),
    }
}

/// Mirrors `u` against the set of file names on a simulated disk, counting fetches.
fn simulated_mirror(
    disk: &mut HashSet<String>,
    fetches: &mut usize,
    u: &str,
    network_ok: bool,
) -> Option<String> {
    let name = get_file_name(u);
    let present = disk.contains(&name);
    let mut ok = false;
    if !present {
        *fetches += 1;
        ok = network_ok;
        if ok {
            disk.insert(name);
        }
    }
    download_file(u, present, ok)
}

#[test]
fn classify_media_extensions() {
    assert_eq!(classify("https://host/a.png"), ContentKind::Media);
    assert_eq!(classify("https://host/clip.mp4"), ContentKind::Media);
    assert_eq!(classify("https://host/x/song.mp3"), ContentKind::Media);
    assert_eq!(classify("raw"), ContentKind::Media);
    assert!(is_media_file_url("https://host/a.jpeg"));
    assert!(!is_media_file_url("https://host/a.pdf"));
}

#[test]
fn classify_downloadable_extensions() {
    assert_eq!(classify("https://host/paper.pdf"), ContentKind::Downloadable);
    assert_eq!(classify("https://host/bundle.zip"), ContentKind::Downloadable);
    assert_eq!(classify("https://host/a.tar.Z"), ContentKind::Downloadable);
    assert!(is_downloadable_file_url("https://host/book.epub"));
    assert!(!is_downloadable_file_url("https://host/a.png"));
}

#[test]
fn classify_plain_links() {
    assert_eq!(classify("https://host/index.html"), ContentKind::PlainLink);
    assert_eq!(classify("noextension"), ContentKind::PlainLink);
    assert_eq!(classify("https://host/file."), ContentKind::PlainLink);
    assert_eq!(classify(""), ContentKind::PlainLink);
    assert_eq!(classify("https://host/A.PNG"), ContentKind::PlainLink);
    assert_eq!(classify("https://host/a.z"), ContentKind::PlainLink);
    assert!(!needs_mirror("https://host/index.html"));
    assert!(needs_mirror("https://host/a.gif"));
    assert!(needs_mirror("https://host/a.iso"));
}

#[test]
fn text_helpers_at_their_boundaries() {
    assert_eq!(find_char("a]b]", ']'), Some(1));
    assert_eq!(find_char("abc", ']'), None);
    assert_eq!(find_char("", ']'), None);
    assert_eq!(rfind_char("a/b/c", '/'), Some(3));
    assert_eq!(rfind_char("abc", '/'), None);
    assert_eq!(after_last_char("a/b/c", '/'), "c");
    assert_eq!(after_last_char("abc", '/'), "abc");
    assert_eq!(after_last_char("abc/", '/'), "");
    assert_eq!(after_last_char("", '/'), "");
    assert_eq!(after_last_char("é/ü.x", '.'), "x");
}

#[test]
fn file_names_of_urls() {
    assert_eq!(get_file_name("https://host/dir/cat.jpg"), "cat.jpg");
    assert_eq!(get_file_name("cat.jpg"), "cat.jpg");
    assert_eq!(get_file_name("https://host/dir/"), "");
    assert_eq!(get_file_name(""), "");
}

#[test]
fn root_and_content_directories() {
    assert_eq!(get_root_dir(&args("~zod", "chat-1", "")), "zod-chat-1");
    assert_eq!(get_root_dir(&args("~zod", "chat-1", "out/dir")), "out/dir");
    assert_eq!(get_root_dir(&args("", "n", "")), "-n");
    assert_eq!(get_content_dir(&args("~zod", "chat-1", "")), "zod-chat-1/archived-content");
    assert_eq!(get_content_dir(&args("~zod", "c", "/tmp/x")), "/tmp/x/archived-content");
    assert_eq!(
        download_path(&args("~zod", "c", "out"), "https://h/a/b.png"),
        "out/archived-content/b.png"
    );
}

#[test]
fn export_file_and_header() {
    assert_eq!(export_file_path(&args("~zod", "chat", "")), "zod-chat/zod-chat.md");
    assert_eq!(export_file_path(&args("~zod", "chat", "out")), "out/zod-chat.md");
    assert_eq!(export_header(&args("~zod", "chat", "")), "# ~zod/chat Archive ");
}

#[test]
fn download_file_outcomes() {
    let u = "https://deep/nested/path/a.png";
    assert_eq!(download_file(u, true, false), Some("archived-content/a.png".to_string()));
    assert_eq!(download_file(u, false, true), Some("archived-content/a.png".to_string()));
    assert_eq!(download_file(u, false, false), None);
}

#[test]
fn mirror_twice_fetches_once() {
    let mut disk = HashSet::new();
    let mut fetches = 0;
    let u = "https://x.test/cat.jpg";
    let first = simulated_mirror(&mut disk, &mut fetches, u, true);
    let second = simulated_mirror(&mut disk, &mut fetches, u, false);
    assert_eq!(fetches, 1);
    assert_eq!(first, Some("archived-content/cat.jpg".to_string()));
    assert_eq!(second, first);
}

#[test]
fn shared_file_name_is_fetched_once() {
    let mut disk = HashSet::new();
    let mut fetches = 0;
    let a = simulated_mirror(&mut disk, &mut fetches, "https://a.test/img.png", true);
    let b = simulated_mirror(&mut disk, &mut fetches, "https://b.test/img.png", true);
    assert_eq!(fetches, 1);
    assert_eq!(a, Some("archived-content/img.png".to_string()));
    assert_eq!(a, b);
    let ra = segment_text(download_and_convert_to_markdown("https://a.test/img.png", &a));
    let rb = segment_text(download_and_convert_to_markdown("https://b.test/img.png", &b));
    assert_eq!(ra, rb);
}

#[test]
fn failed_mirror_is_fetched_again() {
    let mut disk = HashSet::new();
    let mut fetches = 0;
    let u = "https://x.test/doc.pdf";
    assert_eq!(simulated_mirror(&mut disk, &mut fetches, u, false), None);
    assert_eq!(
        simulated_mirror(&mut disk, &mut fetches, u, true),
        Some("archived-content/doc.pdf".to_string())
    );
    assert_eq!(fetches, 2);
}

#[test]
fn url_tokens_by_kind() {
    let cat = Some("archived-content/cat.jpg".to_string());
    assert_eq!(
        segment_text(download_and_convert_to_markdown("https://x.test/cat.jpg", &cat)),
        "![cat.jpg](archived-content/cat.jpg)"
    );
    assert_eq!(segment_text(download_and_convert_to_markdown("https://x.test/cat.jpg", &None)), "");
    let doc = Some("archived-content/doc.pdf".to_string());
    assert_eq!(
        segment_text(download_and_convert_to_markdown("https://x.test/doc.pdf", &doc)),
        "[doc.pdf](archived-content/doc.pdf)"
    );
    assert_eq!(segment_text(download_and_convert_to_markdown("https://x.test/doc.pdf", &None)), "");
    assert_eq!(
        segment_text(download_and_convert_to_markdown("https://x.test/page.html", &None)),
        "[page.html](https://x.test/page.html)"
    );
    assert_eq!(
        segment_text(download_and_convert_to_markdown("https://x.test/page.html", &doc)),
        "[page.html](https://x.test/page.html)"
    );
}

#[test]
fn segments_render_alone() {
    assert_eq!(render_content_segment(&text("hi "), &None), "hi ");
    assert_eq!(
        render_content_segment(&url("https://x.test/a.gif"), &Some("archived-content/a.gif".to_string())),
        "![a.gif](archived-content/a.gif)"
    );
}

#[test]
fn markdown_line_round_trip() {
    let line = "see [label](https://host/a.png) here";
    assert_eq!(link_in_markdown_string(line), Some("https://host/a.png".to_string()));
    let mirrored = download_file("https://host/a.png", false, true);
    assert_eq!(
        parse_link_in_markdown_string(line, &mirrored),
        "see [label](archived-content/a.png) here"
    );
    assert_eq!(parse_link_in_markdown_string(line, &None), line);
}

#[test]
fn markdown_line_boundaries() {
    let some = Some("archived-content/x".to_string());
    for line in ["no paren [here]", "bracket at end ]", "", "]", ")", "[a](b)", "x)y]z("] {
        assert_eq!(parse_link_in_markdown_string(line, &some), line);
    }
    assert_eq!(link_in_markdown_string("no paren [here]"), None);
    assert_eq!(link_in_markdown_string("[a](b)"), None);
    assert_eq!(link_in_markdown_string("[a]()!"), Some(String::new()));
    assert_eq!(parse_link_in_markdown_string("[a](é)ü", &some), "[a](archived-content/x)ü");
}

#[test]
fn markdown_line_rewrites_first_link_only() {
    let some = Some("archived-content/one.png".to_string());
    assert_eq!(
        parse_link_in_markdown_string("[1](u/one.png) and [2](u/two.png).", &some),
        "[1](archived-content/one.png) and [2](u/two.png)."
    );
}

#[test]
fn message_body_keeps_segment_order() {
    let message = AuthoredRecord {
        author: "~zod".to_string(),
        time_sent: "2021-01-01 10:00".to_string(),
        segments: vec![text("see "), url("https://x.test/cat.jpg"), text(" !")],
    };
    let mirrors = vec![None, download_file("https://x.test/cat.jpg", false, true), None];
    assert_eq!(
        message_to_markdown_string(&message, &mirrors),
        "see ![cat.jpg](archived-content/cat.jpg) !"
    );
    assert_eq!(
        message_to_markdown_line(&message, &mirrors),
        "_2021-01-01 10:00_ - **~zod**:see ![cat.jpg](archived-content/cat.jpg) !  "
    );
    let failed = vec![None, None, None];
    assert_eq!(message_to_markdown_string(&message, &failed), "see  !");
}

#[test]
fn note_without_comments() {
    let note = Note {
        title: "Notes".to_string(),
        author: "~zod".to_string(),
        time_sent: "t0".to_string(),
        lines: vec!["first line".to_string(), "a [pic](https://h/p.png) here".to_string()],
        comments: vec![],
    };
    let line_mirrors = vec![None, Some("archived-content/p.png".to_string())];
    let lines = note_to_markdown_strings(&note, &line_mirrors, &vec![]);
    assert_eq!(
        lines,
        vec![
            "# Notes",
            "##### t0 - ~zod",
            "first line",
            "a [pic](archived-content/p.png) here",
            "  ",
            "-----",
        ]
    );
    assert!(!lines.iter().any(|l| l == "## Comments"));
}

#[test]
fn note_with_comments() {
    let comment = AuthoredRecord {
        author: "~bus".to_string(),
        time_sent: "t1".to_string(),
        segments: vec![text("look "), url("https://h/page.html")],
    };
    let note = Note {
        title: "T".to_string(),
        author: "~zod".to_string(),
        time_sent: "t0".to_string(),
        lines: vec!["body".to_string()],
        comments: vec![comment.clone()],
    };
    let comment_mirrors = vec![vec![None, None]];
    let lines = note_to_markdown_strings(&note, &vec![None], &comment_mirrors);
    assert_eq!(
        lines,
        vec![
            "# T",
            "##### t0 - ~zod",
            "body",
            "## Comments",
            "_t1_ - **~bus**:look [page.html](https://h/page.html)  ",
            "  ",
            "-----",
        ]
    );
    assert_eq!(
        comments_to_markdown_strings(&vec![comment], &comment_mirrors),
        vec!["_t1_ - **~bus**:look [page.html](https://h/page.html)  "]
    );
}
