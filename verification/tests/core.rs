use shotflow::countdown::countdown;
use shotflow::dirres::{config_dir, path_join, resolve_directory, strip_quotes, subst_home, trim};
use shotflow::filename::{file_name, file_name_for, Timestamp};
use shotflow::options::{extension, format_of, how_keyword, kind_keyword, kind_of_choice, how_of_choice, str_eq, CaptureKind, ImageFormat, SaveHow};
use shotflow::tools::ensure_tools;
use shotflow::FlowError;

fn ts(year: i32, month: u8, day: u8, hour: u8, minute: u8, second: u8) -> Timestamp {
    Timestamp { year, month, day, hour, minute, second }
}

#[test]
fn format_mapping_is_case_insensitive() {
    assert_eq!(format_of("JPG"), ImageFormat::Jpg);
    assert_eq!(format_of("jpeg"), ImageFormat::Jpg);
    assert_eq!(format_of("JPEG"), ImageFormat::Jpg);
    assert_eq!(format_of("jPg"), ImageFormat::Jpg);
    assert_eq!(format_of("png"), ImageFormat::Png);
    assert_eq!(format_of("PNG"), ImageFormat::Png);
    assert_eq!(format_of(""), ImageFormat::Png);
    assert_eq!(format_of("webp"), ImageFormat::Png);
    assert_eq!(format_of("jpg "), ImageFormat::Png);
}

#[test]
fn extensions() {
    assert_eq!(extension(ImageFormat::Png), "png");
    assert_eq!(extension(ImageFormat::Jpg), "jpg");
}

#[test]
fn provider_keywords() {
    assert_eq!(how_keyword(SaveHow::Copy), "copy");
    assert_eq!(how_keyword(SaveHow::Save), "save");
    assert_eq!(how_keyword(SaveHow::Copysave), "copysave");
    assert_eq!(how_keyword(SaveHow::Edit), "edit");
    assert_eq!(kind_keyword(CaptureKind::Screen), "screen");
    assert_eq!(kind_keyword(CaptureKind::Output), "output");
    assert_eq!(kind_keyword(CaptureKind::Area), "area");
}

#[test]
fn menu_choice_mappings_with_lenient_defaults() {
    assert_eq!(kind_of_choice("Capture Everything"), CaptureKind::Screen);
    assert_eq!(kind_of_choice("Capture Active Display"), CaptureKind::Output);
    assert_eq!(kind_of_choice("Capture Selection"), CaptureKind::Area);
    assert_eq!(kind_of_choice("anything else"), CaptureKind::Area);
    assert_eq!(how_of_choice("Copy"), SaveHow::Copy);
    assert_eq!(how_of_choice("Save"), SaveHow::Save);
    assert_eq!(how_of_choice("Copy & Save"), SaveHow::Copysave);
    assert_eq!(how_of_choice("Edit"), SaveHow::Edit);
    assert_eq!(how_of_choice("unknown"), SaveHow::Edit);
}

#[test]
fn str_eq_compares_contents() {
    assert!(str_eq("abc", "abc"));
    assert!(!str_eq("abc", "abd"));
    assert!(!str_eq("abc", "abcd"));
    assert!(str_eq("", ""));
}

#[test]
fn timestamped_file_name_exact() {
    let t = ts(2026, 10, 12, 9, 5, 7);
    assert_eq!(file_name_for(&t, ImageFormat::Png), "screenshot_12102026_090507.png");
    assert_eq!(file_name_for(&t, ImageFormat::Jpg), "screenshot_12102026_090507.jpg");
    let t2 = ts(3, 1, 31, 23, 59, 59);
    assert_eq!(file_name_for(&t2, ImageFormat::Png), "screenshot_31010003_235959.png");
}

#[test]
fn fresh_file_name_shape() {
    let n = file_name("png");
    assert_eq!(n.len(), 30);
    assert!(n.starts_with("screenshot_"));
    assert!(n.ends_with(".png"));
    let j = file_name("JPEG");
    assert!(j.ends_with(".jpg"));
}

#[test]
fn countdown_coalesces_long_delays() {
    let plan = countdown(15);
    assert_eq!(plan.len(), 11);
    assert_eq!(plan[0], (15, 5));
    assert_eq!(plan[1], (10, 1));
    assert_eq!(plan[10], (1, 1));
}

#[test]
fn countdown_short_delays_tick_every_second() {
    assert_eq!(countdown(3), vec![(3, 1), (2, 1), (1, 1)]);
    assert_eq!(countdown(10).len(), 10);
    assert_eq!(countdown(11).len(), 11);
    assert_eq!(countdown(11)[0], (11, 1));
    assert_eq!(countdown(0), vec![]);
    assert_eq!(countdown(60)[0], (60, 50));
}

#[test]
fn ensure_tools_passes_when_all_present() {
    let names = vec!["grimblast".to_string(), "rofi".to_string(), "notify-send".to_string()];
    let present = vec![true, true, true];
    assert!(ensure_tools(&names, &present).is_ok());
}

#[test]
fn ensure_tools_names_first_missing() {
    let names = vec!["grimblast".to_string(), "rofi".to_string(), "notify-send".to_string()];
    let present = vec![true, false, false];
    match ensure_tools(&names, &present) {
        Err(FlowError::MissingTool { name }) => assert_eq!(name, "rofi"),
        other => panic!("expected a missing-tool error, got {:?}", other),
    }
}

#[test]
fn home_substitution() {
    assert_eq!(subst_home("$HOME/shots", "/home/u"), "/home/u/shots");
    assert_eq!(subst_home("a$HOMEb$HOME", "/h"), "a/hb/h");
    assert_eq!(subst_home("no token", "/h"), "no token");
    assert_eq!(subst_home("$HOM", "/h"), "$HOM");
    assert_eq!(subst_home("", "/h"), "");
}

#[test]
fn trimming_and_quote_stripping() {
    assert_eq!(trim("  x \t"), "x");
    assert_eq!(trim(""), "");
    assert_eq!(trim("   "), "");
    assert_eq!(strip_quotes("\"path\""), "path");
    assert_eq!(strip_quotes("\"\"p\"\""), "p");
    assert_eq!(strip_quotes("plain"), "plain");
}

#[test]
fn config_scan_finds_first_key_line() {
    let text = "XDG_DOWNLOAD_DIR=\"$HOME/dl\"\nXDG_SCREENSHOTS_DIR=\"$HOME/shots\"\nXDG_SCREENSHOTS_DIR=\"/other\"\n";
    assert_eq!(config_dir(text), Some("$HOME/shots".to_string()));
    assert_eq!(config_dir("nothing here\n"), None);
    assert_eq!(config_dir(""), None);
    assert_eq!(config_dir("XDG_SCREENSHOTS_DIR= \"/a b\" "), Some("/a b".to_string()));
}

#[test]
fn directory_resolution_precedence() {
    let config = "XDG_SCREENSHOTS_DIR=\"$HOME/conf\"\n";
    // Explicit override wins over everything.
    assert_eq!(
        resolve_directory(Some("/tmp/shots"), Some("$HOME/env"), Some(config), "/home/u"),
        "/tmp/shots"
    );
    // Environment value wins next, with placeholder substitution.
    assert_eq!(
        resolve_directory(None, Some("$HOME/env"), Some(config), "/home/u"),
        "/home/u/env"
    );
    // Then the configuration entry, with placeholder substitution.
    assert_eq!(resolve_directory(None, None, Some(config), "/home/u"), "/home/u/conf");
    // Finally the Pictures fallback under home.
    assert_eq!(resolve_directory(None, None, None, "/home/u"), "/home/u/Pictures");
    assert_eq!(resolve_directory(None, None, Some("no key\n"), "/home/u"), "/home/u/Pictures");
}

#[test]
fn path_join_inserts_single_separator() {
    assert_eq!(path_join("/a/b", "c.png"), "/a/b/c.png");
    assert_eq!(path_join("/a/b/", "c.png"), "/a/b/c.png");
    assert_eq!(path_join("", "c.png"), "c.png");
    assert_eq!(path_join(".", "Pictures"), "./Pictures");
}
