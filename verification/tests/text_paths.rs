use dirt::color::{parse_color, parse_overlay_color, TermColor};
use dirt::paths::{
    dirt_file_in, display_home_relative_in, expand_tilde_in, extension_of, is_supported_image,
    normalize_start_dir_in, path_last_segment, theme_name_of,
};
use dirt::searchbar::{parse_command, SearchbarCommand};
use dirt::text::{
    decimal_text, fuzzy_contains, lines, split_whitespace, str_eq, to_ascii_lowercase, trim, with_char,
    with_number,
};

#[test]
fn fuzzy_contains_matches_subsequences_in_order() {
    assert!(fuzzy_contains("documents", "dcm"));
    assert!(fuzzy_contains("documents", ""));
    assert!(fuzzy_contains("abc", "abc"));
    assert!(!fuzzy_contains("documents", "mcd"));
    assert!(!fuzzy_contains("", "a"));
    assert!(!fuzzy_contains("ab", "abc"));
}

#[test]
fn trim_removes_unicode_whitespace_at_both_ends() {
    assert_eq!(trim("  hello world \t\n"), "hello world");
    assert_eq!(trim("\u{3000}x\u{a0}"), "x");
    assert_eq!(trim("   "), "");
    assert_eq!(trim("a"), "a");
}

#[test]
fn lines_splits_like_str_lines() {
    assert_eq!(lines("a\nb\r\nc"), vec!["a".to_string(), "b".to_string(), "c".to_string()]);
    assert_eq!(lines("a\n"), vec!["a".to_string()]);
    assert_eq!(lines("\n\nx"), vec!["".to_string(), "".to_string(), "x".to_string()]);
    assert!(lines("").is_empty());
    assert_eq!(lines("a\rb"), vec!["a\rb".to_string()]);
}

#[test]
fn split_whitespace_drops_empty_words() {
    assert_eq!(
        split_whitespace("  drwxr-xr-x  2 root   root "),
        vec!["drwxr-xr-x".to_string(), "2".to_string(), "root".to_string(), "root".to_string()]
    );
    assert!(split_whitespace(" \t ").is_empty());
}

#[test]
fn ascii_lowercase_leaves_other_letters() {
    assert_eq!(to_ascii_lowercase("ReadMe.TXT"), "readme.txt");
    assert_eq!(to_ascii_lowercase("ÄBC"), "Äbc");
}

#[test]
fn decimal_text_writes_base_ten() {
    assert_eq!(decimal_text(0), "0");
    assert_eq!(decimal_text(42), "42");
    assert_eq!(decimal_text(u64::MAX), "18446744073709551615");
    assert_eq!(with_number("Copied ", 3, " item(s)"), "Copied 3 item(s)");
    assert_eq!(with_char("slot ", '7', "!"), "slot 7!");
    assert!(str_eq("abc", "abc"));
    assert!(!str_eq("abc", "abd"));
}

#[test]
fn tilde_expands_with_the_given_home() {
    assert_eq!(expand_tilde_in("~", Some("/home/u")), "/home/u");
    assert_eq!(expand_tilde_in("~", None), ".");
    assert_eq!(expand_tilde_in("~/docs", Some("/home/u")), "/home/u/docs");
    assert_eq!(expand_tilde_in("~/docs", None), "~/docs");
    assert_eq!(expand_tilde_in("~docs", Some("/home/u")), "~docs");
    assert_eq!(expand_tilde_in("/etc", Some("/home/u")), "/etc");
}

#[test]
fn start_dir_falls_back_to_home_when_empty() {
    assert_eq!(normalize_start_dir_in("", Some("/home/u")), "/home/u");
    assert_eq!(normalize_start_dir_in("", None), ".");
    assert_eq!(normalize_start_dir_in("~/", Some("/home/u")), "/home/u/");
    assert_eq!(normalize_start_dir_in("/srv", None), "/srv");
}

#[test]
fn last_segment_is_the_file_name_or_the_path() {
    assert_eq!(path_last_segment("/a/b/c.txt"), "c.txt");
    assert_eq!(path_last_segment("/a/b/"), "b");
    assert_eq!(path_last_segment("/"), "/");
    assert_eq!(path_last_segment(".."), "..");
}

#[test]
fn home_relative_display() {
    assert_eq!(display_home_relative_in("/home/u/docs", Some("/home/u")), "~/docs");
    assert_eq!(display_home_relative_in("/home/u", Some("/home/u")), "~");
    assert_eq!(display_home_relative_in("/etc", Some("/home/u")), "/etc");
    assert_eq!(display_home_relative_in("/home/u/docs", None), "/home/u/docs");
}

#[test]
fn application_files_live_under_dirt() {
    assert_eq!(dirt_file_in(Some("/cfg"), "dirt.toml"), "/cfg/dirt/dirt.toml");
    assert_eq!(dirt_file_in(None, "keymap.toml"), "./dirt/keymap.toml");
}

#[test]
fn supported_images_by_extension_in_any_case() {
    assert!(is_supported_image("/p/photo.PNG"));
    assert!(is_supported_image("a.jpeg"));
    assert!(is_supported_image("b.webp"));
    assert!(!is_supported_image("notes.txt"));
    assert!(!is_supported_image("png"));
    assert!(!is_supported_image(".png"));
}

#[test]
fn theme_names_come_from_toml_files() {
    assert_eq!(theme_name_of("/t/dark.toml"), Some("dark".to_string()));
    assert_eq!(theme_name_of("/t/dark.json"), None);
    assert_eq!(theme_name_of("/t/readme"), None);
}

#[test]
fn sort_extension_is_after_the_last_dot() {
    assert_eq!(extension_of("archive.tar.GZ"), "gz");
    assert_eq!(extension_of("Makefile"), "");
    assert_eq!(extension_of(".bashrc"), "bashrc");
    assert_eq!(extension_of("x."), "");
}

#[test]
fn theme_colors_by_name_or_hex() {
    assert_eq!(parse_color("#ff8000"), TermColor::Rgb(255, 128, 0));
    assert_eq!(parse_color("#FFffFF"), TermColor::Rgb(255, 255, 255));
    assert_eq!(parse_color("Red"), TermColor::Red);
    assert_eq!(parse_color("grey"), TermColor::Gray);
    assert_eq!(parse_color("dark_gray"), TermColor::DarkGray);
    assert_eq!(parse_color("#12345"), TermColor::Reset);
    assert_eq!(parse_color("#zz0000"), TermColor::Reset);
    assert_eq!(parse_color("orange"), TermColor::Reset);
}

#[test]
fn overlay_colors_are_hex_or_white() {
    assert_eq!(parse_overlay_color("  ##0a0B0c "), TermColor::Rgb(10, 11, 12));
    assert_eq!(parse_overlay_color("102030"), TermColor::Rgb(16, 32, 48));
    assert_eq!(parse_overlay_color("red"), TermColor::White);
    assert_eq!(parse_overlay_color(""), TermColor::White);
}

#[test]
fn searchbar_commands_with_or_without_slash() {
    assert_eq!(parse_command("sudo"), Some(SearchbarCommand::ToggleSudo));
    assert_eq!(parse_command("  /sudo "), Some(SearchbarCommand::ToggleSudo));
    assert_eq!(parse_command("config init"), Some(SearchbarCommand::ConfigInit));
    assert_eq!(parse_command("/config layout init"), Some(SearchbarCommand::ConfigLayoutInit));
    assert_eq!(parse_command("config theme init"), Some(SearchbarCommand::ConfigThemeInit));
    assert_eq!(parse_command("/keymap init"), Some(SearchbarCommand::KeymapInit));
    assert_eq!(parse_command("keybinds"), Some(SearchbarCommand::Keybinds));
    assert_eq!(parse_command("config"), None);
    assert_eq!(parse_command("//sudo"), None);
    assert_eq!(parse_command("SUDO"), None);
    assert_eq!(parse_command("\t keybinds \n"), parse_command("keybinds"));
    assert_eq!(parse_command("/keybinds"), parse_command("keybinds"));
}
