use dirt::app_state::{App, ColumnsFor};
use dirt::entries::{DirColumn, DirEntry, DirReadOutcome};
use dirt::keymap::fallback_keymap;
use dirt::layout::{
    AppConfig, Bookmark, FeaturesConfig, MillerConfig, NavigationConfig, PreviewConfig, SidebarConfig, ThemeRegistry,
    UiConfig,
};
use dirt::preview::{ImageProtocol, PreviewImageConfig};
use dirt::settings::{PanelSizes, Panels, SearchSettings};
use dirt::theme::Theme;
use dirt::views::Paint;
use dirt::views_columns::ColumnBody;
use dirt::views_details::{preview_for_path, DetailValue, DetailsPlan, PathFacts, PreviewData};

fn config() -> AppConfig {
    AppConfig {
        sidebar: SidebarConfig {
            bookmarks: vec![
                Bookmark { slot: Some(2), name: "docs".to_string(), path: "/d".to_string() },
                Bookmark { slot: None, name: "slot-5".to_string(), path: "/five".to_string() },
            ],
            recent_dirs_limit: 2,
            drives_limit: 0,
        },
        ui: UiConfig {
            top_bar_height: 3,
            panels: Panels { sidebar: true, columns: true, preview: true, search_bar: true, status_bar: true, keymap_bar: true },
            panel_ratios: PanelSizes { sidebar: 1, dir: 4, preview: 1 },
        },
        navigation: NavigationConfig {
            start_dir: "/start".to_string(),
            show_hidden: false,
            sort: "name".to_string(),
            max_columns: 4,
            sudo_mode: false,
        },
        features: FeaturesConfig { enabled: vec!["preview".to_string()] },
        search: SearchSettings { ignored_dirs: vec![], max_depth: 3 },
        miller: MillerConfig::default(),
        preview: PreviewConfig::default(),
        profiles: vec![],
        themes: ThemeRegistry { by_name: vec![] },
    }
}

fn entry(dir: &str, name: &str, is_dir: bool) -> DirEntry {
    DirEntry {
        name: name.to_string(),
        path: if dir == "/" { format!("/{name}") } else { format!("{dir}/{name}") },
        is_dir,
        is_symlink: false,
        is_executable: false,
        size: 0,
        modified: None,
    }
}

fn column(path: &str, names: &[(&str, bool)]) -> DirColumn {
    let entries = names.iter().map(|(n, d)| entry(path, n, *d)).collect();
    DirColumn::from_path(path.to_string(), DirReadOutcome { entries, permission_denied: false, sudo_password_required: false })
}

fn explorer() -> App {
    let mut a = App::new(config(), Theme::hardcoded_defaults(), fallback_keymap(), "u".to_string(), "box".to_string());
    let cols = vec![
        column("/", &[("start", true)]),
        column("/start", &[("docs", true), ("pic.png", false), ("notes.txt", false)]),
    ];
    a.set_columns("/start".to_string(), cols, ColumnsFor::Reinit);
    a
}

fn texts<T>(rows: &[T], f: impl Fn(&T) -> String) -> Vec<String> {
    rows.iter().map(f).collect()
}

#[test]
fn the_sidebar_lists_slots_drives_and_recents() {
    let mut a = explorer();
    a.set_sidebar_lists(vec!["/r1".to_string(), "/r2".to_string(), "/r3".to_string()], vec!["/".to_string(), "/mnt/x".to_string()]);
    let rows = a.sidebar_rows(30);
    assert_eq!(
        texts(&rows, |r| r.text.clone()),
        vec![
            "Bookmarks", "  ctrl+b+1", "  docs", "  ctrl+b+3", "  slot-5", "", "Drives", "  /", "", "Recent Dirs", "  /r1", "  /r2"
        ]
    );
    assert!(rows[0].bold && !rows[1].bold);
    let short = a.sidebar_rows(6);
    assert_eq!(short[1].text, "  ctrl+b+1");
    assert_eq!(short[3].text, "");
    a.start_bookmark_mode();
    let waiting = a.sidebar_rows(30);
    assert_eq!(waiting[1].text, "  1");
    assert!(matches!(waiting[0].paint, Paint::Mode));
    assert!(matches!(a.sidebar_frame().0, Paint::Mode));
    assert!(matches!(a.status_border(), Paint::Mode));
}

#[test]
fn path_columns_show_the_deepest_directories() {
    let a = explorer();
    let (cols, label) = a.visible_path_columns_fixed(4, Some("/home/u"));
    assert_eq!(cols, vec![None, Some(0), Some(1)]);
    assert_eq!(label, "/");
    let blank = a.path_column_view(0, 2, &cols, 10);
    assert_eq!(blank.title.as_deref(), Some("/"));
    assert!(matches!(blank.body, ColumnBody::Blank));
    let focused = a.path_column_view(2, 2, &cols, 10);
    assert_eq!(focused.title.as_deref(), Some("/start"));
    match focused.body {
        ColumnBody::Rows(rows) => {
            assert_eq!(texts(&rows, |r| r.text.clone()), vec![" docs/", " pic.png", " notes.txt"]);
            assert!(rows[0].bg.is_some());
            assert!(rows[1].bg.is_none());
        }
        other => panic!("unexpected {other:?}"),
    }
    assert!(focused.scrollbar.is_none());
    let parent = a.path_column_view(1, 2, &cols, 10);
    match parent.body {
        ColumnBody::Rows(rows) => assert!(rows[0].bg.is_some()),
        other => panic!("unexpected {other:?}"),
    }
    let small = a.path_column_view(2, 2, &cols, 2);
    assert_eq!(small.scrollbar.as_ref().map(|s| (s.0, s.1)), Some((3, 0)));
}

#[test]
fn the_preview_column_lists_the_directory_under_the_cursor() {
    let a = explorer();
    let docs = column("/start/docs", &[("a", true), ("b.md", false)]);
    let view = a.preview_column_view(&docs);
    assert_eq!(view.title.as_deref(), Some("/docs"));
    match view.body {
        ColumnBody::Rows(rows) => assert_eq!(texts(&rows, |r| r.text.clone()), vec![" a/", " b.md"]),
        other => panic!("unexpected {other:?}"),
    }
    let mut denied = column("/start/docs", &[]);
    denied.permission_denied = true;
    assert!(matches!(a.preview_column_view(&denied).body, ColumnBody::NoPerms(p) if p == "/start/docs"));
    assert!(matches!(a.preview_column_view(&column("/start/docs", &[])).body, ColumnBody::EmptyDir));
}

#[test]
fn global_results_are_listed_from_home() {
    let mut a = explorer();
    a.start_global_search();
    let (title, _, rows) = a.global_results_view(10, Some("/home/u"));
    assert_eq!(title, "Global Search (0)");
    assert_eq!(rows[0].text, "No matches");
    a.set_global_results(vec!["/home/u/a".to_string(), "/etc/b".to_string()]);
    let (title, _, rows) = a.global_results_view(10, Some("/home/u"));
    assert_eq!(title, "Global Search (2)");
    assert_eq!(texts(&rows, |r| r.text.clone()), vec!["~/a", "/etc/b"]);
    assert!(rows[0].bg.is_some() && rows[1].bg.is_none());
    assert!(a.global_results_view(2, None).2.is_empty());
    assert_eq!(a.current_preview_path(), Some("/home/u/a".to_string()));
}

fn facts(is_dir: bool) -> PathFacts {
    PathFacts {
        is_dir,
        size: 2048,
        size_text: "2.0 KB".to_string(),
        readonly: false,
        created: "2024-01-01 10:00".to_string(),
        modified: "2024-01-02 10:00".to_string(),
        accessed: "-".to_string(),
    }
}

#[test]
fn details_of_a_path() {
    let cfg = PreviewImageConfig { enabled: true, max_image_size_mb: 1 };
    match preview_for_path("/p/dir", &Some(facts(true)), Some(false), &vec![true, false, false], cfg, None) {
        PreviewData::Details(lines) => {
            assert_eq!(lines.len(), 12);
            assert_eq!(lines[0].0, "name");
            assert!(matches!(&lines[0].1, DetailValue::Text(t) if t == "dir"));
            assert!(matches!(&lines[2].1, DetailValue::Flag(true)));
            assert!(matches!(&lines[4].1, DetailValue::Text(t) if t == "2.0 KB"));
            assert!(matches!(&lines[9].1, DetailValue::Text(t) if t == "3"));
            assert!(matches!(&lines[11].1, DetailValue::Text(t) if t == "2"));
        }
        other => panic!("unexpected {other:?}"),
    }
    match preview_for_path("/p/f.txt", &None, None, &vec![], cfg, None) {
        PreviewData::Details(lines) => {
            assert_eq!(lines.len(), 3);
            assert_eq!(lines[2].0, "metadata");
        }
        other => panic!("unexpected {other:?}"),
    }
    match preview_for_path("/p/f.txt", &Some(facts(false)), None, &vec![], cfg, None) {
        PreviewData::Details(lines) => assert_eq!(lines[2].0, "symlink_metadata"),
        other => panic!("unexpected {other:?}"),
    }
    match preview_for_path("/p/img.JPG", &Some(facts(false)), Some(false), &vec![], cfg, None) {
        PreviewData::UnsupportedImageMascot { filename, size } => {
            assert_eq!(filename, "img.JPG");
            assert_eq!(size, "2.0 KB");
        }
        other => panic!("unexpected {other:?}"),
    }
    let mut big = facts(false);
    big.size = 2 * 1024 * 1024;
    assert!(matches!(preview_for_path("/p/img.png", &Some(big), Some(false), &vec![], cfg, None), PreviewData::ImageMetadata));
    match preview_for_path("/p/img.png", &Some(facts(false)), Some(true), &vec![], cfg, Some(ImageProtocol::Kitty)) {
        PreviewData::Details(lines) => assert_eq!(lines.len(), 9),
        other => panic!("unexpected {other:?}"),
    }
}

#[test]
fn the_details_panel_plans_what_to_draw() {
    let mut a = explorer();
    let (plan, clear) = a.details_plan(Some((true, false)), 0);
    assert!(matches!(plan, DetailsPlan::NoPerms(p) if p == "/start/docs"));
    assert!(!clear);
    assert!(matches!(a.details_plan(Some((false, true)), 0).0, DetailsPlan::EmptyDir));
    assert!(matches!(a.details_plan(Some((false, false)), 0).0, DetailsPlan::Preview));
    a.select_next();
    assert!(matches!(a.details_plan(None, 10).0, DetailsPlan::UnsupportedImage(p) if p == "/start/pic.png"));
    assert!(matches!(a.details_plan(None, 30 * 1024 * 1024).0, DetailsPlan::ImageMetadata(_)));
    a.set_image_protocol(Some(ImageProtocol::Kitty));
    assert!(matches!(a.details_plan(None, 10), (DetailsPlan::ImagePreview(_, ImageProtocol::Kitty), false)));
    a.select_next();
    assert!(matches!(a.details_plan(None, 10), (DetailsPlan::Preview, true)));
    let paints = a.detail_paints();
    assert_eq!(paints.label, a.effective.theme_colors.preview.label);
    assert_eq!(a.image_preview_config(), PreviewImageConfig { enabled: true, max_image_size_mb: 20 });
    assert!(matches!(a.details_frame().0, Paint::Named(_)));
}

#[test]
fn directory_counts_stop_at_five_thousand() {
    assert_eq!(dirt::views_details::dir_counts(&vec![true, false, false]), (3, 1, 2));
    assert_eq!(dirt::views_details::dir_counts(&vec![]), (0, 0, 0));
    let mut many = vec![false; 5000];
    many.push(true);
    assert_eq!(dirt::views_details::dir_counts(&many), (5000, 0, 5000));
    many[0] = true;
    assert_eq!(dirt::views_details::dir_counts(&many), (5000, 1, 4999));
}
