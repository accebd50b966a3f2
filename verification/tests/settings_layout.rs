use dirt::layout::{column_weights, fit_column_ratios, has_feature, main_panel_weights, EnabledPanels};
use dirt::settings::{
    default_config_contents, default_search, default_ui_colors, merge_miller, merge_panel_sizes, merge_panels,
    merge_search, Hooks, MillerSettings, MillerSettingsOverrides, PanelOverrides, PanelSizes, PanelSizesOverrides,
    Panels, Profile, SearchOverrides, SearchSettings, Settings, ThemeRegistry, UiColors,
};
use dirt::theme::Theme;

fn all_panels() -> Panels {
    Panels { sidebar: true, columns: true, preview: true, search_bar: true, status_bar: true, keymap_bar: true }
}

fn settings() -> Settings {
    Settings {
        theme: "dark".to_string(),
        show_hidden: false,
        sort: "name".to_string(),
        start_dir: "/srv".to_string(),
        top_bar_height: 3,
        features: vec!["preview".to_string()],
        panel_sizes: PanelSizes { sidebar: 1, dir: 4, preview: 1 },
        miller: MillerSettings { max_columns: 3 },
        search: SearchSettings { ignored_dirs: vec![".git".to_string()], max_depth: 6 },
        panels: all_panels(),
        hooks: Hooks { on_open: None, on_select: None, on_rename: None, on_delete: None },
    }
}

fn empty_profile(name: &str) -> Profile {
    Profile {
        name: name.to_string(),
        theme: None,
        show_hidden: None,
        sort: None,
        start_dir: None,
        top_bar_height: None,
        features: None,
        panel_sizes: None,
        miller: None,
        search: None,
        panels: None,
        hooks: None,
    }
}

#[test]
fn profile_values_replace_the_defaults() {
    let over = PanelOverrides { sidebar: Some(false), columns: None, preview: None, search_bar: None, status_bar: None, keymap_bar: Some(false) };
    let p = merge_panels(&all_panels(), Some(&over));
    assert!(!p.sidebar && p.columns && !p.keymap_bar);
    assert_eq!(merge_panels(&all_panels(), None), all_panels());
    let sizes = merge_panel_sizes(&PanelSizes { sidebar: 1, dir: 4, preview: 1 }, Some(&PanelSizesOverrides { sidebar: None, dir: Some(7), preview: None }));
    assert_eq!(sizes, PanelSizes { sidebar: 1, dir: 7, preview: 1 });
    assert_eq!(merge_miller(&MillerSettings { max_columns: 3 }, Some(&MillerSettingsOverrides { max_columns: Some(0) })).max_columns, 1);
    assert_eq!(merge_miller(&MillerSettings { max_columns: 3 }, None).max_columns, 3);
    let s = merge_search(&default_search(), Some(&SearchOverrides { ignored_dirs: Some(vec![]), max_depth: Some(0) }));
    assert!(s.ignored_dirs.is_empty());
    assert_eq!(s.max_depth, 1);
    let d = merge_search(&default_search(), None);
    assert_eq!(d.ignored_dirs, vec![".git".to_string(), "node_modules".to_string()]);
    assert_eq!(d.max_depth, 6);
}

#[test]
fn settings_under_a_profile() {
    let mut light = default_ui_colors();
    light.background = "white".to_string();
    let themes = ThemeRegistry { by_name: vec![("light".to_string(), light)] };
    let mut p = empty_profile("dev");
    p.theme = Some("light".to_string());
    p.top_bar_height = Some(0);
    p.start_dir = Some("/work".to_string());
    p.miller = Some(MillerSettingsOverrides { max_columns: Some(5) });
    let e = settings().merge_with_profile(Some(&p), &themes);
    assert_eq!(e.theme, "light");
    assert_eq!(e.ui_colors.background, "white");
    assert_eq!(e.top_bar_height, 1);
    assert_eq!(e.start_dir, "/work");
    assert_eq!(e.miller.max_columns, 5);
    assert_eq!(e.sort, "name");
    let plain = settings().merge_with_profile(None, &themes);
    assert_eq!(plain.theme, "dark");
    assert_eq!(plain.ui_colors.background, default_ui_colors().background);
    assert_eq!(plain.start_dir, "/srv");
    assert_eq!(plain.top_bar_height, 3);
}

#[test]
fn theme_registry_finds_the_first_of_a_name() {
    let mut a: UiColors = default_ui_colors();
    a.foreground = "red".to_string();
    let mut b: UiColors = default_ui_colors();
    b.foreground = "blue".to_string();
    let reg = ThemeRegistry { by_name: vec![("x".to_string(), a), ("x".to_string(), b)] };
    assert_eq!(reg.get("x").unwrap().foreground, "red");
    assert!(reg.get("y").is_none());
}

#[test]
fn the_written_configuration_reads_back() {
    let text = default_config_contents();
    let parsed: toml::Value = toml::from_str(text).unwrap();
    assert_eq!(parsed["defaults"]["miller"]["max_columns"].as_integer(), Some(3));
    assert_eq!(parsed["profiles"].as_array().unwrap().len(), 2);
}

#[test]
fn panel_and_column_weights() {
    let panels = EnabledPanels { search_bar: true, sidebar: true, columns: true, preview: false, status_bar: true, keymap_bar: true };
    assert_eq!(main_panel_weights(&panels, &PanelSizes { sidebar: 0, dir: 4, preview: 9 }), vec![(1, 5), (4, 5)]);
    let none = EnabledPanels { search_bar: true, sidebar: false, columns: false, preview: false, status_bar: true, keymap_bar: true };
    assert!(main_panel_weights(&none, &PanelSizes { sidebar: 1, dir: 1, preview: 1 }).is_empty());
    assert_eq!(column_weights(&vec![2, 0, 1, 5], 3), vec![(2, 4), (1, 4), (1, 4)]);
    assert_eq!(column_weights(&vec![3], 4), vec![(3, 3)]);
    assert!(column_weights(&vec![], 4).is_empty());
    let many = column_weights(&vec![1u16; 70000], 70000);
    assert_eq!(many.len(), 70000);
    assert_eq!(many[69999], (1, 70000));
    assert_eq!(fit_column_ratios(&vec![2, 3], 4), vec![2, 3, 1, 1]);
    assert_eq!(fit_column_ratios(&vec![2, 3, 4], 2), vec![2, 3]);
    assert_eq!(fit_column_ratios(&vec![], 3), vec![1, 1, 1]);
    assert!(has_feature(&vec!["git_status".to_string(), "preview".to_string()], "preview"));
    assert!(!has_feature(&vec![], "preview"));
}

#[test]
fn themes_from_text_and_fallbacks() {
    let t = Theme::from_toml_text("[vars]\naccent = \"#010203\"\n").unwrap();
    assert_eq!(t.vars.accent, "#010203");
    assert!(Theme::from_toml_text("not [ toml").is_none());
    let f = Theme::fallback(Some("broken = = ="), Some("[vars]\naccent = \"red\"\n"));
    assert_eq!(f.vars.accent, "red");
    let g = Theme::fallback(Some("[vars]\naccent = \"blue\"\n"), Some("[vars]\naccent = \"red\"\n"));
    assert_eq!(g.vars.accent, "blue");
    let h = Theme::fallback(None, None);
    assert_eq!(h.vars.accent, Theme::hardcoded_defaults().vars.accent);
}

#[test]
fn file_times_without_a_time_show_a_dash() {
    assert_eq!(dirt::views_details::format_system_time(None), "-");
    assert_eq!(dirt::views_details::format_system_time(Some((0, 0))).len(), 16);
}

#[test]
fn the_generating_message_is_centred() {
    assert_eq!(dirt::preview::generating_position(10, 4, 40, 20, 13), (24, 15));
    assert_eq!(dirt::preview::generating_position(0, 0, 5, 1, 13), (1, 1));
    assert_eq!(dirt::preview::generating_position(u16::MAX, u16::MAX, 40, 20, 13), (u16::MAX, u16::MAX));
}

#[test]
fn file_times_chrono_can_hold() {
    let ok = dirt::views_details::timestamp_in_range;
    assert!(ok(0, 0));
    assert!(ok(-8_334_601_315_200, 0));
    assert!(!ok(-8_334_601_315_201, 0));
    assert!(ok(8_210_266_876_799, 999_999_999));
    assert!(!ok(8_210_266_876_800, 0));
    assert!(ok(59, 1_500_000_000));
    assert!(!ok(58, 1_500_000_000));
    assert!(ok(-1, 1_500_000_000));
    assert!(!ok(59, 2_000_000_000));
    assert!(dirt::views_details::format_system_time(Some((59, 1_500_000_000))).len() >= 16);
    assert!(dirt::views_details::format_system_time(Some((8_210_266_876_799, 0))).len() >= 16);
}
