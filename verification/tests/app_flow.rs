use dirt::app_keys::{action_of_key, KeyAction, KeyRoute};
use dirt::app_session::{bookmark_matches_slot, bookmark_slot_from_key};
use dirt::app_state::{App, ClipboardItem, ColumnsFor, DialogState, Effect, InputMode, SearchMode};
use dirt::entries::{DirColumn, DirEntry, DirReadOutcome};
use dirt::keymap::fallback_keymap;
use dirt::keys::{KeyCode, KeyPress, Modifiers};
use dirt::layout::{
    AppConfig, Bookmark, FeaturesConfig, MillerConfig, NavigationConfig, PreviewConfig, Profile, SidebarConfig,
    ThemeRegistry, UiConfig,
};
use dirt::searchbar::SearchbarCommand;
use dirt::settings::{PanelSizes, Panels, SearchSettings};
use dirt::theme::Theme;
use dirt::views::{git_label, Paint};
use dirt::walk::WalkRules;

fn profile(name: &str) -> Profile {
    Profile { name: name.to_string(), theme: None, show_hidden: None, start_dir: None, features: None }
}

fn config(profiles: Vec<Profile>) -> AppConfig {
    AppConfig {
        sidebar: SidebarConfig {
            bookmarks: vec![Bookmark { slot: Some(1), name: "home".to_string(), path: "/home/u".to_string() }],
            recent_dirs_limit: 3,
            drives_limit: 10,
        },
        ui: UiConfig {
            top_bar_height: 3,
            panels: Panels { sidebar: true, columns: true, preview: true, search_bar: true, status_bar: true, keymap_bar: true },
            panel_ratios: PanelSizes { sidebar: 1, dir: 4, preview: 1 },
        },
        navigation: NavigationConfig {
            start_dir: "/start".to_string(),
            show_hidden: false,
            sort: "name".to_string(),
            max_columns: 4,
            sudo_mode: false,
        },
        features: FeaturesConfig { enabled: vec!["preview".to_string()] },
        search: SearchSettings { ignored_dirs: vec![".git".to_string()], max_depth: 3 },
        miller: MillerConfig::default(),
        preview: PreviewConfig::default(),
        profiles,
        themes: ThemeRegistry { by_name: vec![("dark".to_string(), Theme::hardcoded_defaults())] },
    }
}

fn app(profiles: Vec<Profile>) -> App {
    App::new(config(profiles), Theme::hardcoded_defaults(), fallback_keymap(), "u".to_string(), "box".to_string())
}

fn entry(dir: &str, name: &str, is_dir: bool) -> DirEntry {
    DirEntry {
        name: name.to_string(),
        path: format!("{dir}/{name}"),
        is_dir,
        is_symlink: false,
        is_executable: false,
        size: 0,
        modified: None,
    }
}

fn column(path: &str, names: &[(&str, bool)]) -> DirColumn {
    let entries = names.iter().map(|(n, d)| entry(path, n, *d)).collect();
    DirColumn::from_path(
        path.to_string(),
        DirReadOutcome { entries, permission_denied: false, sudo_password_required: false },
    )
}

fn app_in_start() -> App {
    let mut a = app(vec![profile("one")]);
    let cols = vec![column("/start", &[("docs", true), ("a.txt", false), ("b.txt", false), ("c.rs", false)])];
    assert!(matches!(a.set_columns("/start".to_string(), cols, ColumnsFor::Reinit), Effect::TrackRecent));
    a
}

fn key(code: KeyCode) -> KeyPress {
    KeyPress { code, modifiers: Modifiers { control: false, shift: false, alt: false, other: false } }
}

fn ctrl(c: char) -> KeyPress {
    KeyPress { code: KeyCode::Char(c), modifiers: Modifiers { control: true, shift: false, alt: false, other: false } }
}

fn shift(code: KeyCode) -> KeyPress {
    KeyPress { code, modifiers: Modifiers { control: false, shift: true, alt: false, other: false } }
}

fn sorted(mut v: Vec<String>) -> Vec<String> {
    v.sort();
    v
}

#[test]
fn a_new_explorer_starts_at_the_start_directory() {
    let a = app(vec![]);
    assert_eq!(a.current_dir, "/start");
    assert_eq!(a.effective.theme, "dark");
    assert_eq!(a.effective.max_columns, 4);
    assert_eq!(a.effective.active_column, 2);
    assert!(a.columns.is_empty());
    assert_eq!(a.search_mode, SearchMode::Idle);
    assert_eq!(a.input_mode, InputMode::Idle);
    assert!(a.runtime_plan.features.preview_images);
    assert_eq!(a.profile_name(), "default");
}

#[test]
fn recent_directories_put_the_visit_first() {
    let mut a = app(vec![]);
    a.recents = vec!["/x".to_string(), "/start".to_string(), "/y".to_string()];
    assert!(a.track_recent_dir(true));
    assert_eq!(a.recents, vec!["/start", "/x", "/y"]);
    a.current_dir = "/z".to_string();
    assert!(a.track_recent_dir(true));
    assert_eq!(a.recents, vec!["/z", "/start", "/x"]);
    a.current_dir = "/file.txt".to_string();
    assert!(!a.track_recent_dir(false));
    assert_eq!(a.recents, vec!["/z", "/start", "/x"]);
}

#[test]
fn profiles_step_round_and_back() {
    let mut a = app(vec![profile("one"), profile("two"), profile("three")]);
    assert!(matches!(a.next_profile(), Effect::ProfileChanged));
    assert_eq!(a.active_profile, 1);
    assert_eq!(a.profile_name(), "two");
    assert!(matches!(a.prev_profile(), Effect::ProfileChanged));
    assert_eq!(a.active_profile, 0);
    a.prev_profile();
    assert_eq!(a.active_profile, 2);
    a.next_profile();
    assert_eq!(a.active_profile, 0);
    let mut none = app(vec![]);
    assert!(matches!(none.next_profile(), Effect::Nothing));
    assert_eq!(none.active_profile, 0);
}

#[test]
fn a_profile_changes_the_settings_in_force() {
    let mut hidden = profile("hidden");
    hidden.show_hidden = Some(true);
    hidden.start_dir = Some("/elsewhere".to_string());
    hidden.features = Some(vec![]);
    let mut a = app(vec![profile("plain"), hidden]);
    assert!(!a.effective.show_hidden);
    a.next_profile();
    assert!(a.effective.show_hidden);
    assert_eq!(a.effective.start_dir, "/elsewhere");
    assert!(!a.runtime_plan.features.preview_images);
    assert_eq!(a.reinit_target(false), "/elsewhere");
    assert_eq!(a.reinit_target(true), "/start");
}

#[test]
fn moving_entering_and_leaving_directories() {
    let mut a = app_in_start();
    match a.enter_selected_dir() {
        Effect::ReadColumn(p) => assert_eq!(p, "/start/docs"),
        other => panic!("unexpected {other:?}"),
    }
    a.select_next();
    assert_eq!(a.columns[0].selected, 1);
    assert!(matches!(a.enter_selected_dir(), Effect::Nothing));
    a.select_prev();
    a.select_prev();
    assert_eq!(a.columns[0].selected, 0);
    let inner = column("/start/docs", &[("notes.md", false)]);
    assert!(matches!(a.push_column(inner), Effect::TrackRecent));
    assert_eq!(a.current_dir, "/start/docs");
    assert_eq!(a.columns.len(), 2);
    assert_eq!(a.current_file_count(), 1);
    assert_eq!(a.selected_name(), "notes.md");
    assert!(matches!(a.go_parent(), Effect::TrackRecent));
    assert_eq!(a.current_dir, "/start");
    assert_eq!(a.columns.len(), 1);
    assert!(matches!(a.go_parent(), Effect::Nothing));
}

#[test]
fn keys_map_to_actions() {
    assert_eq!(action_of_key(key(KeyCode::Char('p'))), KeyAction::NextProfile);
    assert_eq!(action_of_key(key(KeyCode::Enter)), KeyAction::Open);
    assert_eq!(action_of_key(key(KeyCode::Backspace)), KeyAction::Parent);
    assert_eq!(action_of_key(ctrl('f')), KeyAction::GlobalSearch);
    assert_eq!(action_of_key(key(KeyCode::F(2))), KeyAction::Rename);
    let ctrl_shift_n = KeyPress {
        code: KeyCode::Char('n'),
        modifiers: Modifiers { control: true, shift: true, alt: false, other: false },
    };
    assert_eq!(action_of_key(ctrl_shift_n), KeyAction::NewDir);
    assert_eq!(action_of_key(ctrl('n')), KeyAction::NewFile);
    assert_eq!(action_of_key(key(KeyCode::Char('3'))), KeyAction::OpenBookmark('3'));
    assert_eq!(action_of_key(key(KeyCode::Char('z'))), KeyAction::Ignore);
    assert_eq!(bookmark_slot_from_key(key(KeyCode::Char('#'))), Some('3'));
    assert_eq!(bookmark_slot_from_key(key(KeyCode::Char('0'))), None);
}

#[test]
fn key_routes_follow_the_modes() {
    let mut a = app_in_start();
    assert_eq!(a.key_route(shift(KeyCode::Down)), KeyRoute::RangeDown);
    a.start_bookmark_mode();
    assert_eq!(a.key_route(key(KeyCode::Char('4'))), KeyRoute::SetBookmark('4'));
    assert_eq!(a.key_route(key(KeyCode::Esc)), KeyRoute::BookmarkModeOff);
    assert!(matches!(a.handle_key(key(KeyCode::Esc)), Effect::Nothing));
    assert!(!a.awaiting_bookmark_slot);
    assert_eq!(a.status_message, "bookmark mode off");
    a.start_local_search();
    assert_eq!(a.key_route(key(KeyCode::Char('x'))), KeyRoute::Search);
    assert!(a.key_is_safe(key(KeyCode::Char('x'))));
}

#[test]
fn range_steps_flip_the_paths_they_cross() {
    let mut a = app_in_start();
    a.select_next();
    assert!(a.key_is_safe(shift(KeyCode::Down)));
    a.handle_key(shift(KeyCode::Down));
    a.handle_key(shift(KeyCode::Down));
    assert_eq!(a.columns[0].selected, 3);
    assert_eq!(sorted(a.simple_selected_paths.clone()), vec!["/start/a.txt", "/start/b.txt", "/start/c.rs"]);
    a.handle_key(shift(KeyCode::Up));
    assert_eq!(sorted(a.simple_selected_paths.clone()), vec!["/start/a.txt", "/start/b.txt"]);
    assert_eq!(sorted(a.operation_paths()), vec!["/start/a.txt", "/start/b.txt"]);
    a.handle_key(shift(KeyCode::Down));
    a.handle_key(shift(KeyCode::Down));
    assert_eq!(a.columns[0].selected, 3);
    assert_eq!(a.simple_selected_paths.len(), 3);
}

#[test]
fn a_stale_range_anchor_is_refused() {
    let mut a = app_in_start();
    a.simple_column_path = Some("/start".to_string());
    a.simple_range_anchor = Some(9);
    assert!(!a.key_is_safe(shift(KeyCode::Down)));
    assert!(a.key_is_safe(key(KeyCode::Down)));
}

#[test]
fn selection_mode_marks_entries() {
    let mut a = app_in_start();
    a.handle_key(ctrl('e'));
    assert!(a.selection_mode);
    a.handle_key(key(KeyCode::Char('j')));
    a.handle_key(key(KeyCode::Char(' ')));
    a.handle_key(key(KeyCode::Down));
    a.handle_key(key(KeyCode::Char(' ')));
    assert_eq!(sorted(a.mode_selected_paths.clone()), vec!["/start/a.txt", "/start/b.txt"]);
    a.handle_key(key(KeyCode::Char(' ')));
    assert_eq!(a.mode_selected_paths, vec!["/start/a.txt"]);
    a.handle_key(ctrl('c'));
    let clip = a.clipboard.as_ref().unwrap();
    assert!(!clip.cut);
    assert_eq!(clip.paths, vec!["/start/a.txt"]);
    assert_eq!(a.status_message, "copied 1 item(s)");
    a.handle_key(key(KeyCode::Esc));
    assert!(!a.selection_mode);
    assert!(a.mode_selected_paths.is_empty());
}

#[test]
fn paste_plans_destinations_and_reports() {
    let mut a = app_in_start();
    assert!(matches!(a.paste_clipboard(), Effect::Nothing));
    assert_eq!(a.status_message, "clipboard empty");
    a.clipboard = Some(ClipboardItem { paths: vec!["/other/x.txt".to_string(), "/start/a.txt".to_string()], cut: true });
    match a.paste_clipboard() {
        Effect::Paste(steps, cut) => {
            assert!(cut);
            assert_eq!(steps.len(), 2);
            assert_eq!(steps[0].destination.as_deref(), Some("/start/x.txt"));
            assert_eq!(steps[1].destination.as_deref(), Some("/start/a.txt_copy"));
        }
        other => panic!("unexpected {other:?}"),
    }
    a.current_dir = "/start/.".to_string();
    a.clipboard = Some(ClipboardItem { paths: vec!["/start/a.txt".to_string()], cut: false });
    match a.paste_clipboard() {
        Effect::Paste(steps, _) => assert_eq!(steps[0].destination.as_deref(), Some("/start/./a.txt_copy")),
        other => panic!("unexpected {other:?}"),
    }
    a.current_dir = "/start".to_string();
    a.clipboard = Some(ClipboardItem { paths: vec!["/other/x.txt".to_string(), "/start/a.txt".to_string()], cut: true });
    assert!(matches!(a.finish_paste(2, 0), Effect::RefreshActive));
    assert_eq!(a.status_message, "moved 2 item(s)");
    assert!(a.clipboard.is_none());
    a.clipboard = Some(ClipboardItem { paths: vec!["/o/y".to_string()], cut: false });
    a.finish_paste(1, 2);
    assert_eq!(a.status_message, "paste: 1 ok, 2 failed");
    assert!(a.clipboard.is_some());
}

#[test]
fn deleting_asks_first_and_reports() {
    let mut a = app_in_start();
    a.select_next();
    a.request_delete_to_trash();
    assert!(matches!(a.dialog, Some(DialogState::ConfirmDelete { yes_selected: true, .. })));
    let view = a.dialog_view().unwrap();
    assert_eq!(view.title, "CONFIRM");
    assert_eq!(view.message, "Delete a.txt?");
    a.handle_key(key(KeyCode::Right));
    assert!(matches!(a.dialog, Some(DialogState::ConfirmDelete { yes_selected: false, .. })));
    assert!(matches!(a.handle_key(key(KeyCode::Char('n'))), Effect::Nothing));
    assert!(a.dialog.is_none());
    assert_eq!(a.status_message, "delete canceled");
    a.request_delete_to_trash();
    match a.handle_key(key(KeyCode::Char('y'))) {
        Effect::Trash(paths) => assert_eq!(paths, vec!["/start/a.txt"]),
        other => panic!("unexpected {other:?}"),
    }
    assert!(matches!(a.finish_trash(1, 0), Effect::RefreshActive));
    assert_eq!(a.status_message, "trashed 1 item(s)");
    a.finish_trash(2, 1);
    assert_eq!(a.status_message, "trash: 2 ok, 1 failed");
}

#[test]
fn typing_a_new_name_creates_it_in_the_current_directory() {
    let mut a = app_in_start();
    a.start_new_file();
    assert_eq!(a.input_mode, InputMode::NewFile);
    for c in " new.txt ".chars() {
        a.handle_key(key(KeyCode::Char(c)));
    }
    a.handle_key(key(KeyCode::Backspace));
    a.handle_key(key(KeyCode::Char('x')));
    match a.handle_key(key(KeyCode::Enter)) {
        Effect::CreateFile(p) => assert_eq!(p, "/start/new.txtx"),
        other => panic!("unexpected {other:?}"),
    }
    assert!(matches!(a.finish_input(Err((true, "denied".to_string()))), Effect::RefreshActive));
    assert_eq!(a.status_message, "create failed: denied");
    assert_eq!(a.input_mode, InputMode::Idle);
    match &a.dialog {
        Some(DialogState::Message { title, text }) => {
            assert_eq!(title, "PERMISSION ERROR");
            assert_eq!(text, "Permission denied:\n/start/new.txtx");
        }
        other => panic!("unexpected {other:?}"),
    }
    a.handle_key(key(KeyCode::Enter));
    assert!(a.dialog.is_none());
    a.start_new_dir();
    a.handle_key(key(KeyCode::Char(' ')));
    assert!(matches!(a.handle_key(key(KeyCode::Enter)), Effect::Nothing));
    assert_eq!(a.status_message, "name cannot be empty");
}

#[test]
fn renaming_keeps_the_directory_of_the_entry() {
    let mut a = app_in_start();
    a.select_next();
    a.start_rename();
    assert_eq!(a.input_mode, InputMode::Rename);
    assert_eq!(a.input_buffer, "a.txt");
    a.handle_key(key(KeyCode::Backspace));
    a.handle_key(key(KeyCode::Backspace));
    a.handle_key(key(KeyCode::Backspace));
    a.handle_key(key(KeyCode::Char('m')));
    a.handle_key(key(KeyCode::Char('d')));
    match a.handle_key(key(KeyCode::Enter)) {
        Effect::RenamePath(from, to) => {
            assert_eq!(from, "/start/a.txt");
            assert_eq!(to, "/start/a.md");
        }
        other => panic!("unexpected {other:?}"),
    }
    a.finish_input(Ok(()));
    assert_eq!(a.status_message, "created /start/a.md");
    assert!(a.rename_target.is_none());
}

#[test]
fn bookmarks_are_set_confirmed_and_opened() {
    let mut a = app_in_start();
    assert!(bookmark_matches_slot(&a.config.sidebar.bookmarks[0], '1'));
    assert!(!bookmark_matches_slot(&a.config.sidebar.bookmarks[0], '2'));
    a.set_bookmark_slot('2', "/start/docs".to_string(), true);
    assert_eq!(a.status_message, "set bookmark 2");
    assert_eq!(a.config.sidebar.bookmarks.len(), 2);
    assert_eq!(a.config.sidebar.bookmarks[1].name, "docs");
    assert_eq!(a.config.sidebar.bookmarks[1].slot, Some(2));
    a.set_bookmark_slot('2', "/start/docs".to_string(), true);
    assert_eq!(a.status_message, "bookmark 2 unchanged");
    a.set_bookmark_slot('2', "/tmp/file".to_string(), false);
    assert_eq!(a.status_message, "bookmark target must be a directory");
    a.set_bookmark_slot('1', "/srv".to_string(), true);
    let view = a.dialog_view().unwrap();
    assert_eq!(view.message, "Overwrite bookmark 1?\nold: /home/u\nnew: /srv");
    a.handle_key(key(KeyCode::Enter));
    assert_eq!(a.status_message, "updated bookmark 1");
    assert_eq!(a.config.sidebar.bookmarks[0].path, "/srv");
    assert_eq!(a.config.sidebar.bookmarks[0].name, "srv");
    match a.open_bookmark_slot('2') {
        Effect::OpenBookmark(slot, target) => {
            assert_eq!(slot, '2');
            assert_eq!(target, "/start/docs");
        }
        other => panic!("unexpected {other:?}"),
    }
    assert!(matches!(a.open_bookmark_slot('7'), Effect::Nothing));
    assert_eq!(a.status_message, "bookmark 7 is empty");
    assert!(matches!(a.open_bookmark_target('2', "/gone".to_string(), false), Effect::Nothing));
    assert_eq!(a.status_message, "bookmark 2 is invalid");
    match a.open_bookmark_target('2', "/start/docs".to_string(), true) {
        Effect::BuildColumns(t, ColumnsFor::Bookmark('2')) => assert_eq!(t, "/start/docs"),
        other => panic!("unexpected {other:?}"),
    }
    a.set_columns("/start/docs".to_string(), vec![column("/start/docs", &[])], ColumnsFor::Bookmark('2'));
    assert_eq!(a.status_message, "opened bookmark 2");
    assert_eq!(a.current_dir, "/start/docs");
}

#[test]
fn local_search_filters_and_commands_run() {
    let mut a = app_in_start();
    a.start_local_search();
    for c in "txt".chars() {
        a.handle_key(key(KeyCode::Char(c)));
    }
    assert_eq!(a.search_query, "txt");
    assert_eq!(a.columns[0].selected, 1);
    a.select_next();
    assert_eq!(a.columns[0].selected, 2);
    a.select_next();
    assert_eq!(a.columns[0].selected, 2);
    a.handle_key(key(KeyCode::Esc));
    assert_eq!(a.search_mode, SearchMode::Idle);
    assert!(a.search_query.is_empty());
    assert!(matches!(a.run_search_command(SearchbarCommand::ConfigInit), Effect::InitConfig));
    a.run_search_command(SearchbarCommand::Keybinds);
    assert!(a.keybinds_overlay.is_some());
}

#[test]
fn global_search_walks_and_opens_results() {
    let mut a = app_in_start();
    assert!(matches!(a.handle_key(ctrl('f')), Effect::GlobalSearch));
    assert_eq!(a.search_mode, SearchMode::Global);
    a.handle_key(key(KeyCode::Char('N')));
    let rules = a.global_walk_rules();
    assert_eq!(rules.query, "n");
    assert_eq!(rules.max_depth, 3);
    assert_eq!(rules.visit("Notes.md", false), (true, false));
    assert_eq!(rules.visit("docs", true), (false, true));
    assert_eq!(rules.visit(".git", true), (false, false));
    assert!(rules.reads_level(3));
    assert!(!rules.reads_level(4));
    a.set_global_results(vec!["/start/notes".to_string(), "/start/docs/n.txt".to_string()]);
    a.select_next();
    assert_eq!(a.global_selected, 1);
    match a.handle_key(key(KeyCode::Enter)) {
        Effect::OpenGlobal(p) => assert_eq!(p, "/start/docs/n.txt"),
        other => panic!("unexpected {other:?}"),
    }
    assert_eq!(a.open_global_target("/start/docs/n.txt", false), "/start/docs");
    assert_eq!(a.open_global_target("/start/notes", true), "/start/notes");
}

#[test]
fn walk_rules_match_like_the_fuzzy_search() {
    let rules = WalkRules::new("RdMe", 2, vec!["target".to_string()]);
    assert_eq!(rules.visit("README.md", false), (true, false));
    assert_eq!(rules.visit("target", true), (false, false));
    assert_eq!(rules.visit("src", true), (false, true));
    let all = WalkRules::new("", 0, vec![]);
    assert_eq!(all.visit("anything", true), (true, true));
    assert!(all.reads_level(0));
    assert!(!all.reads_level(1));
}

#[test]
fn bars_show_the_state() {
    let mut a = app_in_start();
    a.select_next();
    let top = a.top_bar_view();
    assert_eq!(top.title, Some(("DIRT // ".to_string(), "one".to_string())));
    assert_eq!(top.search.as_ref().map(|s| s.0.as_str()), Some("/ to search"));
    assert!(matches!(top.fg, Paint::Named(_)));
    let items = a.status_items("main*");
    assert_eq!(items[0], "/start");
    assert_eq!(items[1], "files: 4");
    assert_eq!(items[2], "selected: a.txt");
    assert_eq!(items[3], "select_mode: off");
    assert_eq!(items[4], "git: main*");
    assert_eq!(items[5], "profile: one");
    assert_eq!(items[6], "ready");
    a.start_global_search();
    assert!(matches!(a.top_bar_view().fg, Paint::Mode));
    assert_eq!(a.search_label(), "Ctrl+F ");
    assert_eq!(git_label(false, None, false), "-");
    assert_eq!(git_label(true, None, true), "detached*");
    assert_eq!(git_label(true, Some("main".to_string()), false), "main");
}

#[test]
fn keymap_hints_depend_on_the_mode() {
    let mut a = app_in_start();
    let plain = a.keymap_bar_items();
    assert_eq!(plain.len(), 3);
    assert_eq!(plain[0], ("\u{2191}\u{2193}\u{2190}\u{2192}".to_string(), " navigate".to_string()));
    assert_eq!(plain[1], ("Ctrl+S".to_string(), " select mode".to_string()));
    assert_eq!(plain[2], ("q".to_string(), " quit".to_string()));
    a.enter_selection_mode();
    let sel = a.keymap_bar_items();
    assert_eq!(sel.len(), 7);
    assert_eq!(sel[0], ("Space".to_string(), " select/deselect".to_string()));
    assert_eq!(sel[1], ("Shift+Up/Shift+Down".to_string(), " range".to_string()));
}

#[test]
fn only_q_quits() {
    assert!(dirt::app_keys::is_quit_key(key(KeyCode::Char('q'))));
    assert!(dirt::app_keys::is_quit_key(ctrl('q')));
    assert!(!dirt::app_keys::is_quit_key(key(KeyCode::Char('Q'))));
    assert!(!dirt::app_keys::is_quit_key(key(KeyCode::Esc)));
}

#[test]
fn j_and_k_move_the_cursor() {
    let mut a = app_in_start();
    assert_eq!(a.columns[0].selected, 0);
    a.handle_key(key(KeyCode::Char('j')));
    a.handle_key(key(KeyCode::Char('j')));
    assert_eq!(a.columns[0].selected, 2);
    a.handle_key(key(KeyCode::Char('k')));
    assert_eq!(a.columns[0].selected, 1);
}

#[test]
fn ctrl_s_toggles_selection_mode() {
    let mut a = app_in_start();
    a.handle_key(ctrl('s'));
    assert!(a.selection_mode);
    assert!(a.mode_selected_paths.is_empty());
    a.handle_key(key(KeyCode::Char(' ')));
    assert_eq!(a.mode_selected_paths.len(), 1);
    a.handle_key(ctrl('s'));
    assert!(!a.selection_mode);
    assert!(a.mode_selected_paths.is_empty());
}

#[test]
fn ctrl_shift_n_starts_a_new_folder_in_either_case() {
    let both = Modifiers { control: true, shift: true, alt: false, other: false };
    let mut a = app_in_start();
    a.handle_key(KeyPress { code: KeyCode::Char('N'), modifiers: both });
    assert_eq!(a.input_mode, InputMode::NewDir);
    let mut b = app_in_start();
    b.handle_key(KeyPress { code: KeyCode::Char('n'), modifiers: both });
    assert_eq!(b.input_mode, InputMode::NewDir);
    let mut c = app_in_start();
    c.handle_key(ctrl('n'));
    assert_eq!(c.input_mode, InputMode::NewFile);
}

#[test]
fn a_dialog_takes_every_key_first() {
    let mut a = app(vec![profile("one"), profile("two")]);
    a.dialog = Some(DialogState::Message { title: "INFO".to_string(), text: "hi".to_string() });
    a.handle_key(key(KeyCode::Char('p')));
    assert_eq!(a.active_profile, 0);
    assert_eq!(a.search_mode, SearchMode::Idle);
    assert!(a.dialog.is_some());
    a.handle_key(key(KeyCode::Esc));
    assert!(a.dialog.is_none());
    a.handle_key(key(KeyCode::Char('p')));
    assert_eq!(a.active_profile, 1);
    a.handle_key(key(KeyCode::Char('P')));
    assert_eq!(a.active_profile, 0);
}

#[test]
fn sudo_mode_asks_for_a_password() {
    let mut a = app_in_start();
    a.toggle_sudo_mode();
    assert!(a.sudo_mode);
    let mut col = column("/root", &[]);
    col.permission_denied = true;
    col.sudo_password_required = true;
    a.push_column(col);
    assert!(a.sudo_password_prompt);
    a.handle_key(key(KeyCode::Char('p')));
    a.handle_key(key(KeyCode::Char('w')));
    assert_eq!(a.search_label(), "[sudo] password: **");
    let view = a.dialog_view().unwrap();
    assert_eq!(view.title, "SUDO PASSWORD");
    assert_eq!(view.input, "pw");
}
