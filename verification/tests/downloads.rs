use kotauri::downloads::{
    candidate_filename, first_probe, probe_step, sanitize_filename, suggested_filename, NameProbe,
};
use kotauri::paths::{download_folder, file_name_of, settings_location, PathStyle};
use std::path::Path;

#[test]
fn sanitize_strips_path_chars() {
    assert_eq!(sanitize_filename("../../a:b?.png"), "_.._a_b_.png");
}

#[test]
fn suggested_from_url_path() {
    assert_eq!(suggested_filename("", "https://cdn.example/files/doc.pdf?x=1", PathStyle::Unix), "doc.pdf");
}

#[test]
fn sanitize_falls_back_and_trims() {
    assert_eq!(sanitize_filename(""), "download");
    assert_eq!(sanitize_filename("   "), "download");
    assert_eq!(sanitize_filename("..."), "download");
    assert_eq!(sanitize_filename("  .hidden.txt  "), "hidden.txt");
    assert_eq!(sanitize_filename("\u{3000}foto.png\u{a0}"), "foto.png");
    assert_eq!(sanitize_filename("a\tb\u{85}c"), "a_b_c");
    assert_eq!(sanitize_filename(". a"), " a");
    assert_eq!(sanitize_filename("x<y>z|w*\"q"), "x_y_z_w__q");
}

#[test]
fn sanitize_keeps_at_most_180_chars() {
    let long: String = std::iter::repeat('é').take(200).collect();
    let r = sanitize_filename(&long);
    assert_eq!(r.chars().count(), 180);
    assert!(r.chars().all(|c| c == 'é'));
    assert_eq!(sanitize_filename("report 2024.pdf"), "report 2024.pdf");
}

#[test]
fn file_name_follows_path_rules() {
    for p in [
        "", "/", ".", "..", "a", "a/", "a/.", "a/..", "./a", "a//b", "/tmp/x.png", "a/b/./", "a/../",
        "/..", "x/.../", "dir/.hidden",
    ] {
        let expected = Path::new(p).file_name().map(|s| s.to_string_lossy().into_owned());
        assert_eq!(file_name_of(p, PathStyle::Unix), expected, "path {p:?}");
    }
}

#[test]
fn suggested_prefers_destination_name() {
    assert_eq!(suggested_filename("/home/u/Downloads/report.pdf", "https://x/y.bin", PathStyle::Unix), "report.pdf");
    assert_eq!(suggested_filename("/tmp/data:image/png;base64", "https://x/pic.png", PathStyle::Unix), "png;base64");
    assert_eq!(suggested_filename("data:image", "https://x/pic.png?v=2", PathStyle::Unix), "pic.png");
    assert_eq!(suggested_filename("/tmp/..", "https://x/a/", PathStyle::Unix), "download");
    assert_eq!(suggested_filename("", "https://x/files/a:b.txt", PathStyle::Unix), "a_b.txt");
    assert_eq!(suggested_filename(".", "blob:https://web.telegram.org/abc-123", PathStyle::Unix), "abc-123");
}

#[test]
fn candidates_follow_stem_and_extension() {
    assert_eq!(candidate_filename("foto.png", 0), "foto.png");
    assert_eq!(candidate_filename("foto.png", 1), "foto (1).png");
    assert_eq!(candidate_filename("a.tar.gz", 3), "a.tar (3).gz");
    assert_eq!(candidate_filename(".bashrc", 2), ".bashrc (2)");
    assert_eq!(candidate_filename("noext", 10000), "noext (10000)");
    assert_eq!(candidate_filename("foto.png", 10001), "foto-10001.png");
    assert_eq!(candidate_filename("noext", 10001), "noext-10001.");
    assert_eq!(candidate_filename("a.", 4), "a (4).");
}

#[test]
fn candidates_match_std_stem_and_extension() {
    for name in ["foto.png", "a.tar.gz", ".bashrc", "noext", "a.", "x..y", "..a", "é.ü"] {
        let p = Path::new(name);
        let stem = p.file_stem().unwrap().to_string_lossy().into_owned();
        let ext = p.extension().map(|e| format!(".{}", e.to_string_lossy())).unwrap_or_default();
        assert_eq!(candidate_filename(name, 7), format!("{stem} (7){ext}"), "name {name:?}");
    }
}

#[test]
fn probes_walk_the_numbered_names() {
    match first_probe("foto.png") {
        NameProbe::Probe { attempt, name } => {
            assert_eq!(attempt, 0);
            assert_eq!(name, "foto.png");
        }
        _ => panic!("the first step probes"),
    }
    match probe_step("foto.png", 0, false) {
        NameProbe::Use(n) => assert_eq!(n, "foto.png"),
        _ => panic!("a free name is used"),
    }
    match probe_step("foto.png", 0, true) {
        NameProbe::Probe { attempt, name } => {
            assert_eq!(attempt, 1);
            assert_eq!(name, "foto (1).png");
        }
        _ => panic!("a taken name leads to the next probe"),
    }
    match probe_step("foto.png", 9999, true) {
        NameProbe::Probe { attempt, name } => {
            assert_eq!(attempt, 10000);
            assert_eq!(name, "foto (10000).png");
        }
        _ => panic!("10000 is still probed"),
    }
    match probe_step("foto.png", 10000, true) {
        NameProbe::Probe { attempt, name } => {
            assert_eq!(attempt, 10001);
            assert_eq!(name, "foto-10001.png");
        }
        _ => panic!("the name after 10000 is probed too"),
    }
    match probe_step("foto.png", 10001, false) {
        NameProbe::Use(n) => assert_eq!(n, "foto-10001.png"),
        _ => panic!("a free name is used"),
    }
    match probe_step("foto.png", u32::MAX, true) {
        NameProbe::Exhausted => {}
        _ => panic!("the search gives up after the last attempt"),
    }
}

#[test]
fn windows_destinations_give_their_file_name() {
    assert_eq!(
        suggested_filename("C:\\dl\\report.pdf", "https://x/y.bin", PathStyle::Windows),
        "report.pdf"
    );
    assert_eq!(
        suggested_filename("C:\\dl\\report.pdf", "https://x/y.bin", PathStyle::Unix),
        "C__dl_report.pdf"
    );
    let cases = [
        ("C:\\dl\\report.pdf", Some("report.pdf")),
        ("C:report.pdf", Some("report.pdf")),
        ("C:", None),
        ("C:\\", None),
        ("C:\\a\\..", None),
        ("d:/a\\b/", Some("b")),
        ("\\\\server\\share\\x.txt", Some("x.txt")),
        ("\\\\server\\share", None),
        ("\\\\server\\share\\", None),
        ("//server/share/x.txt", Some("x.txt")),
        ("//server/share", None),
        ("\\\\server", Some("server")),
        ("\\\\?\\C:\\x\\y.pdf", Some("y.pdf")),
        ("\\\\?\\C:", None),
        ("\\\\?\\C:/x", None),
        ("\\\\?\\pics", None),
        ("\\\\?\\pics\\a/b", Some("a/b")),
        ("\\\\?\\C:\\a\\.", None),
        ("\\\\?\\UNC\\srv\\shr\\f.txt", Some("f.txt")),
        ("\\\\?\\UNC\\srv\\shr", None),
        ("\\\\?\\UNC\\srv", None),
        ("\\\\.\\COM42", None),
        ("\\\\.\\COM42\\x", Some("x")),
        ("//?/C:/x", Some("x")),
        ("1:x", Some("1:x")),
        ("a\\.\\", Some("a")),
    ];
    for (p, expected) in cases {
        assert_eq!(file_name_of(p, PathStyle::Windows).as_deref(), expected, "path {p:?}");
    }
}

#[test]
fn probe_search_ends_on_the_first_free_name() {
    let taken = ["foto.png", "foto (1).png", "foto (2).png"];
    let mut step = first_probe("foto.png");
    let mut probes = 0;
    let chosen = loop {
        match step {
            NameProbe::Use(n) => break n,
            NameProbe::Exhausted => panic!("some name is free"),
            NameProbe::Probe { attempt, name } => {
                probes += 1;
                step = probe_step("foto.png", attempt, taken.contains(&name.as_str()));
            }
        }
    };
    assert_eq!(chosen, "foto (3).png");
    assert_eq!(probes, 4);
}

#[test]
fn folders_fall_back_in_order() {
    assert_eq!(download_folder(Some("/home/u/Transferências"), Some("/home/u"), PathStyle::Unix), "/home/u/Transferências");
    assert_eq!(download_folder(None, Some("/home/u"), PathStyle::Unix), "/home/u/Downloads");
    assert_eq!(download_folder(None, Some("/home/u/"), PathStyle::Unix), "/home/u/Downloads");
    assert_eq!(download_folder(None, None, PathStyle::Unix), ".");
    assert_eq!(download_folder(None, Some("C:\\Users\\u"), PathStyle::Windows), "C:\\Users\\u\\Downloads");
    assert_eq!(download_folder(None, Some("C:"), PathStyle::Windows), "C:Downloads");
    let (folder, file) = settings_location(Some("/home/u/.config"), PathStyle::Unix);
    assert_eq!(folder, "/home/u/.config/kotauri");
    assert_eq!(file, "/home/u/.config/kotauri/settings.json");
    let (folder, file) = settings_location(None, PathStyle::Unix);
    assert_eq!(folder, "./kotauri");
    assert_eq!(file, "./kotauri/settings.json");
    for base in ["/home/u", "/home/u/", "", "rel/dir", "/"] {
        let expected = std::path::Path::new(base).join("Downloads");
        assert_eq!(download_folder(None, Some(base), PathStyle::Unix), expected.to_string_lossy(), "base {base:?}");
    }
}

#[test]
fn search_continues_past_the_numbered_names() {
    let mut step = first_probe("a.txt");
    let mut last = String::new();
    let chosen = loop {
        match step {
            NameProbe::Use(n) => break n,
            NameProbe::Exhausted => panic!("some name is free"),
            NameProbe::Probe { attempt, name } => {
                last = name;
                step = probe_step("a.txt", attempt, attempt <= 10002);
            }
        }
    };
    assert_eq!(last, "a-10003.txt");
    assert_eq!(chosen, "a-10003.txt");
}
