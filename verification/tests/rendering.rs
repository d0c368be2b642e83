use obsidian_link::classify::LinkType;
use obsidian_link::clock::today;
use obsidian_link::config::{Config, Frontmatter, Link};
use obsidian_link::embed::generate_embed_code;
use obsidian_link::errors::NoteError;
use obsidian_link::frontmatter::format_frontmatter;
use obsidian_link::note::{build_note, note_file_name, render_note_content};
use obsidian_link::resolution::{get_resolution, shorts_resolution, standard_resolution};
use obsidian_link::text::{sanitize_filename, sanitize_tag, str_eq};
use obsidian_link::video::{assemble_metadata, extract_video_id, metadata_request_url};

fn empty_frontmatter() -> Frontmatter {
    Frontmatter { date: None, day: None, time: None, tags: None, url: None, author: None }
}

fn rule(name: &str, regex: &str, resolution: &str, folder: &str) -> Link {
    Link {
        name: name.to_string(),
        regex: regex.to_string(),
        resolution: resolution.to_string(),
        folder: folder.to_string(),
    }
}

#[test]
fn test_generate_embed_code_non_integer() {
    let video_id = "y4evLICF8kk";
    let embed_code = generate_embed_code(video_id, 0, 0);
    assert!(embed_code.contains("width=\"0\""), "Embed code should contain width=\"0\"");
    assert!(embed_code.contains("height=\"0\""), "Embed code should contain height=\"0\"");
}

#[test]
fn embed_code_is_exact() {
    let embed_code = generate_embed_code("abc123", 1920, 1080);
    assert_eq!(
        embed_code,
        "<iframe width=\"1920\" height=\"1080\" \
         src=\"https://www.youtube.com/embed/abc123\" \
         frameborder=\"0\" allowfullscreen></iframe>"
    );
}

#[test]
fn test_create_markdown_special_characters() {
    let title = "Test: Special/Characters?*";
    let description = "A test video.";
    let embed_code = "<iframe...></iframe>";
    let url = "https://www.example.com";
    let author = "Test Channel";
    let tags = vec![String::from("test")];

    let file_name = note_file_name(title);
    assert_eq!(
        file_name, "Test SpecialCharacters.md",
        "Failed to create markdown file with special characters in title"
    );

    let preamble =
        format_frontmatter(&empty_frontmatter(), "2024-01-01", "Mon", "12:00", url, author, &tags);
    let content = render_note_content(&preamble, embed_code, description);
    assert!(content.ends_with("<iframe...></iframe>\n\n## Description\nA test video."));
}

#[test]
fn test_fetch_metadata_nonexistent_video() {
    // The provider answered with an empty result set for this identifier.
    let non_existent_video_id = "thisdoesnotexist12345";
    let result = assemble_metadata(non_existent_video_id, false, None, None, None, None, None);
    assert!(result.is_err(), "Expected an error for non-existent video metadata fetch");
    match result {
        Err(NoteError::MetadataNotFound { video_id }) => {
            assert_eq!(video_id, "thisdoesnotexist12345")
        },
        _ => panic!("Expected the empty result set to be reported distinctly"),
    }
}

#[test]
fn assemble_metadata_defaults_absent_fields() {
    let metadata = assemble_metadata(
        "y4evLICF8kk",
        true,
        Some("A Title".to_string()),
        None,
        None,
        None,
        None,
    )
    .expect("A found video must assemble");
    assert_eq!(metadata.id, "y4evLICF8kk");
    assert_eq!(metadata.title, "A Title");
    assert_eq!(metadata.description, "");
    assert_eq!(metadata.channel, "");
    assert_eq!(metadata.published_at, "");
    assert!(metadata.tags.is_empty());
}

#[test]
fn extract_video_id_recognizes_the_canonical_shapes() {
    let cases = vec![
        ("https://www.youtube.com/watch?v=y4evLICF8kk", "y4evLICF8kk"),
        ("https://youtu.be/m7lnIdudEy8?si=VE-14Y1Sk93RdA5u", "m7lnIdudEy8"),
        ("https://www.youtube.com/shorts/gGrqPbb6fuM", "gGrqPbb6fuM"),
        ("https://www.youtube.com/embed/EkDxsQRbIwoA", "EkDxsQRbIwoA"),
        ("https://www.youtube.com/watch?feature=share&v=U3HndX2QnSo", "U3HndX2QnSo"),
    ];
    for (url, expected) in cases {
        let id = extract_video_id(url).expect("Failed to extract video ID");
        assert_eq!(id, expected);
    }
}

#[test]
fn extract_video_id_fails_on_other_urls() {
    let result = extract_video_id("https://parrot.ai/");
    match &result {
        Err(NoteError::IdNotFound { url }) => assert_eq!(url, "https://parrot.ai/"),
        _ => panic!("Expected the identifier extraction to fail"),
    }
    let message = result.err().unwrap().message();
    assert_eq!(message, "Failed to extract video ID from URL");
}

#[test]
fn resolution_tables_round_trip() {
    let standard = vec![
        ("nHD", (640, 360)),
        ("FWVGA", (854, 480)),
        ("qHD", (960, 540)),
        ("SD", (1280, 720)),
        ("WXGA", (1366, 768)),
        ("HD+", (1600, 900)),
        ("FHD", (1920, 1080)),
        ("WQHD", (2560, 1440)),
        ("QHD+", (3200, 1800)),
        ("4K", (3840, 2160)),
        ("5K", (5120, 2880)),
        ("8K", (7680, 4320)),
        ("16K", (15360, 8640)),
    ];
    for (key, pair) in standard {
        assert_eq!(standard_resolution(key), Some(pair));
    }
    let vertical = vec![
        ("480p", (480, 854)),
        ("720p", (720, 1280)),
        ("1080p", (1080, 1920)),
        ("1440p", (1440, 2560)),
        ("2160p", (2160, 3840)),
    ];
    for (key, pair) in vertical {
        assert_eq!(shorts_resolution(key), Some(pair));
    }
    assert_eq!(standard_resolution("1080p"), None);
    assert_eq!(shorts_resolution("FHD"), None);
}

#[test]
fn get_resolution_reports_unknown_names_and_keys() {
    let config = Config {
        vault: "~/vault".to_string(),
        frontmatter: empty_frontmatter(),
        links: vec![rule("shorts", "shorts/", "4K", "shorts")],
    };
    match get_resolution("youtube", &config) {
        Err(NoteError::RuleNotFound { name }) => {
            assert_eq!(name, "youtube");
        },
        _ => panic!("Expected the missing rule to be reported"),
    }
    // The shorts family looks its tag up in the vertical table only: a
    // standard tag on a shorts rule is a configuration error.
    match get_resolution("shorts", &config) {
        Err(e @ NoteError::ResolutionNotFound { .. }) => {
            assert_eq!(e.message(), "Resolution not found for shorts");
        },
        _ => panic!("Expected the missing resolution to be reported"),
    }
}

#[test]
fn sanitize_tag_rewrites_punctuation() {
    assert_eq!(sanitize_tag("Rock 'n' Roll"), "rock-n-roll");
    assert_eq!(sanitize_tag("C++ tips"), "c---tips");
    assert_eq!(sanitize_tag("Already-clean"), "already-clean");
    assert_eq!(sanitize_tag(""), "");
}

#[test]
fn sanitizers_keep_letters_beyond_ascii() {
    // Classification is Unicode-wide: an accented letter is alphanumeric and
    // survives both sanitizers; lowercasing folds its case.
    assert_eq!(sanitize_tag("Caf\u{e9} Tips"), "caf\u{e9}-tips");
    assert_eq!(sanitize_tag("\u{c9}"), "\u{e9}");
    assert_eq!(sanitize_filename("\u{e9}"), "\u{e9}");
    assert_eq!(sanitize_filename("Caf\u{e9}: Menu"), "Caf\u{e9} Menu");
}

#[test]
fn sanitize_tag_is_idempotent_on_samples() {
    let samples = vec!["Rock 'n' Roll", "C++ tips", "  spaced  out  ", "MiXeD CaSe 42", "---"];
    for sample in samples {
        let once = sanitize_tag(sample);
        let twice = sanitize_tag(&once);
        assert_eq!(twice, once);
    }
}

#[test]
fn sanitize_filename_blocks_path_traversal() {
    let dangerous = vec!["../../etc/passwd", "a/../b", "..\\windows\\system32", "dots..and..more"];
    for input in dangerous {
        let cleaned = sanitize_filename(input);
        assert!(!cleaned.contains('/'));
        assert!(!cleaned.contains('\\'));
        assert!(!cleaned.contains('.'));
    }
    assert_eq!(sanitize_filename("../../etc/passwd"), "etcpasswd");
}

#[test]
fn frontmatter_author_override_wins() {
    let overrides = Frontmatter {
        date: None,
        day: None,
        time: None,
        tags: None,
        url: None,
        author: Some("Alice".to_string()),
    };
    let rendered = format_frontmatter(
        &overrides,
        "2024-01-01",
        "Mon",
        "12:00",
        "https://www.example.com",
        "Bob's Channel",
        &Vec::new(),
    );
    assert!(rendered.contains("author: Alice\n"));
    assert!(!rendered.contains("Bob's Channel"));
}

#[test]
fn frontmatter_field_order_and_tag_block() {
    let rendered = format_frontmatter(
        &empty_frontmatter(),
        "2024-01-01",
        "Mon",
        "12:00",
        "https://www.example.com",
        "ChanX",
        &vec!["Tag One".to_string(), "b".to_string()],
    );
    assert_eq!(
        rendered,
        "---\n\
         date: 2024-01-01\n\
         day: Mon\n\
         time: 12:00\n\
         tags:\n\
         \x20 - tag-one\n\
         \x20 - b\n\
         url: https://www.example.com\n\
         author: ChanX\n\
         ---\n\n"
    );
}

#[test]
fn frontmatter_omits_empty_tag_block() {
    let rendered = format_frontmatter(
        &empty_frontmatter(),
        "2024-01-01",
        "Mon",
        "12:00",
        "https://www.example.com",
        "ChanX",
        &Vec::new(),
    );
    assert!(!rendered.contains("tags:"));
}

#[test]
fn frontmatter_tag_override_is_sanitized_too() {
    let overrides = Frontmatter {
        date: Some("2020-02-02".to_string()),
        day: Some("Sun".to_string()),
        time: Some("09:30".to_string()),
        tags: Some(vec!["My Tag".to_string()]),
        url: Some("https://override.example".to_string()),
        author: None,
    };
    let rendered = format_frontmatter(
        &overrides,
        "2024-01-01",
        "Mon",
        "12:00",
        "https://www.example.com",
        "ChanX",
        &vec!["fetched".to_string()],
    );
    assert!(rendered.contains("date: 2020-02-02\n"));
    assert!(rendered.contains("day: Sun\n"));
    assert!(rendered.contains("time: 09:30\n"));
    assert!(rendered.contains("  - my-tag\n"));
    assert!(!rendered.contains("fetched"));
    assert!(rendered.contains("url: https://override.example\n"));
    assert!(rendered.contains("author: ChanX\n"));
}

#[test]
fn video_note_end_to_end() {
    let config = Config {
        vault: "~/vault".to_string(),
        frontmatter: empty_frontmatter(),
        links: vec![rule(
            "youtube",
            "https://((www\\.)?youtube\\.com/watch\\?v=|youtu\\.be/)",
            "FHD",
            "youtube",
        )],
    };
    let url = "https://www.youtube.com/watch?v=abc123";
    let link = LinkType::from_url(url, &config).expect("Failed to identify link type");
    let id = extract_video_id(url).expect("Failed to extract video ID");
    assert_eq!(id, "abc123");
    let metadata = assemble_metadata(
        &id,
        true,
        Some("Test Video".to_string()),
        Some("Desc".to_string()),
        Some("ChanX".to_string()),
        None,
        Some(vec!["a".to_string(), "b".to_string()]),
    )
    .expect("A found video must assemble");
    let plan =
        build_note(&link, Some(&metadata), &config.frontmatter, "2024-01-01", "Mon", "12:00");
    assert_eq!(plan.folder, "youtube");
    assert_eq!(plan.file_name, "Test Video.md");
    assert!(plan.content.contains("width=\"1920\" height=\"1080\""));
    assert!(plan.content.contains("https://www.youtube.com/embed/abc123"));
    assert!(plan.content.contains("tags:\n  - a\n  - b\n"));
    assert!(plan.content.contains("author: ChanX\n"));
    assert!(plan.content.ends_with("## Description\nDesc"));
}

#[test]
fn weblink_note_end_to_end() {
    let config = Config {
        vault: "~/vault".to_string(),
        frontmatter: empty_frontmatter(),
        links: vec![
            rule(
                "youtube",
                "https://((www\\.)?youtube\\.com/watch\\?v=|youtu\\.be/)",
                "FHD",
                "youtube",
            ),
            rule("default", "https?://", "FHD", "links"),
        ],
    };
    let url = "https://parrot.ai/";
    let link = LinkType::from_url(url, &config).expect("Failed to identify link type");
    match &link {
        LinkType::WebLink(_, _, width, height) => assert_eq!((*width, *height), (0, 0)),
        _ => panic!("Expected the fallback web link"),
    }
    let plan = build_note(&link, None, &config.frontmatter, "2024-01-01", "Mon", "12:00");
    assert_eq!(plan.folder, "links");
    assert!(!plan.content.contains("<iframe"));
    assert!(plan.content.contains("\n\n\n## Description\n"));
    assert!(plan.content.contains("url: https://parrot.ai/\n"));
}

#[test]
fn request_url_is_exact() {
    let request = metadata_request_url("abc123", "KEY");
    assert_eq!(
        request,
        "https://www.googleapis.com/youtube/v3/videos?id=abc123&part=snippet&key=KEY"
    );
}

#[test]
fn error_messages_carry_context() {
    let e = NoteError::PatternInvalid { pattern: "foo(bar".to_string() };
    assert_eq!(e.message(), "Failed to compile regex: foo(bar");
    let e = NoteError::RuleNotFound { name: "youtube".to_string() };
    assert_eq!(e.message(), "Link type 'youtube' not found in config");
    let e = NoteError::MetadataNotFound { video_id: "abc".to_string() };
    assert_eq!(e.message(), "Video metadata not found for video_id=abc");
    let e = NoteError::Io { path: "/tmp/x".to_string() };
    assert_eq!(e.message(), "I/O error at /tmp/x");
}

#[test]
fn str_eq_agrees_with_equality() {
    assert!(str_eq("FHD", "FHD"));
    assert!(!str_eq("FHD", "FHD "));
    assert!(!str_eq("", "a"));
    assert!(str_eq("", ""));
    assert!(!str_eq("naive", "na\u{ef}ve"));
}

#[test]
fn today_renders_the_clock() {
    let (date, day, time) = today();
    assert_eq!(date.len(), 10);
    assert_eq!(&date[4..5], "-");
    assert_eq!(day.len(), 3);
    assert_eq!(time.len(), 5);
    assert_eq!(&time[2..3], ":");
}
