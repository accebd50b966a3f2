use dirt::entries::DirEntry;
use dirt::keymap::{build_keybinds_overlay, choose_keymap, fallback_keymap, join_keys};
use dirt::overlay::{
    button_label, centered_rect_exact, dialog_buttons, fit_centered_dialog, frame_scroll, shown_input, Area,
    OverlayButton, OverlayDialogKind,
};
use dirt::pathset::{add_path, has_path, range_paths, remove_path, toggle_difference, toggle_path};
use dirt::preview::{
    centre_offsets, clear_last_image, clear_sequence, detect_image_protocol_from, preview_box,
    protocol_known_by_name, ImageProtocol, LastRender,
};
use dirt::thumbs::{
    cache_key, cleanup_removes, is_fresh, stats_snapshot, thumb_job, thumbnail_status, ThumbConfig, ThumbJob,
    ThumbQueue, ThumbStats, ThumbStatus, MAX_QUEUE_LEN,
};

fn strings(v: &[&str]) -> Vec<String> {
    v.iter().map(|s| s.to_string()).collect()
}

fn sorted(mut v: Vec<String>) -> Vec<String> {
    v.sort();
    v
}

#[test]
fn centred_rectangles_fit_their_area() {
    let area = Area { x: 10, y: 5, width: 100, height: 40 };
    assert_eq!(centered_rect_exact(20, 10, area), Area { x: 50, y: 20, width: 20, height: 10 });
    assert_eq!(centered_rect_exact(200, 60, area), Area { x: 10, y: 5, width: 100, height: 40 });
}

#[test]
fn dialogs_grow_with_their_text() {
    let area = Area { x: 0, y: 0, width: 100, height: 40 };
    assert_eq!(fit_centered_dialog(area, "hello\nworld!!"), Area { x: 36, y: 14, width: 28, height: 12 });
    let long = "x".repeat(50);
    assert_eq!(fit_centered_dialog(area, &long), Area { x: 20, y: 14, width: 60, height: 11 });
    let small = Area { x: 0, y: 0, width: 30, height: 8 };
    assert_eq!(fit_centered_dialog(small, "a"), Area { x: 1, y: 0, width: 28, height: 8 });
}

#[test]
fn input_fields_mask_passwords() {
    assert_eq!(shown_input("", false, &Some("name".to_string())), "name");
    assert_eq!(shown_input("", true, &None), "");
    assert_eq!(shown_input("sécret", true, &None), "******");
    assert_eq!(shown_input("file.txt", false, &None), "file.txt");
}

#[test]
fn dialog_buttons_by_kind() {
    assert_eq!(dialog_buttons(&OverlayDialogKind::Message, false), vec![(OverlayButton::Okay, true)]);
    assert_eq!(
        dialog_buttons(&OverlayDialogKind::Confirm, false),
        vec![(OverlayButton::Yes, false), (OverlayButton::No, true)]
    );
    assert_eq!(
        dialog_buttons(&OverlayDialogKind::Input { password: false, placeholder: None }, true),
        vec![(OverlayButton::Okay, true), (OverlayButton::Cancel, false)]
    );
    assert_eq!(button_label(OverlayButton::Okay), "▐ OK ▌");
    assert_eq!(button_label(OverlayButton::Cancel), "▐ Cancel ▌");
}

#[test]
fn frames_scroll_no_further_than_the_last_window() {
    assert_eq!(frame_scroll(40, 10, 5), 5);
    assert_eq!(frame_scroll(40, 10, 35), 30);
    assert_eq!(frame_scroll(5, 10, 3), 0);
}

#[test]
fn keymaps_fall_back_in_order() {
    let f = fallback_keymap();
    assert_eq!(f.navigation.up, strings(&["Up", "k"]));
    assert_eq!(f.file_ops.new_dir, "Ctrl+Shift+N");
    let mut user = fallback_keymap();
    user.app.quit = "Q".to_string();
    let mut bundled = fallback_keymap();
    bundled.app.quit = "x".to_string();
    assert_eq!(choose_keymap(Some(user), None).app.quit, "Q");
    assert_eq!(choose_keymap(None, Some(bundled)).app.quit, "x");
    let built_in = choose_keymap(None, None);
    assert_eq!(built_in.app.quit, "q");
    assert_eq!(built_in.navigation.up, strings(&["Up", "k"]));
    assert_eq!(built_in.navigation.down, strings(&["Down", "j"]));
    assert_eq!(built_in.selection.mode, "Ctrl+S");
    assert_eq!(built_in.search.global, "Ctrl+F");
    assert_eq!(join_keys(&strings(&["Left", "h", "Backspace"])), "Left/h/Backspace");
    assert_eq!(join_keys(&vec![]), "");
}

#[test]
fn keybinds_frame_lists_every_group() {
    let frame = build_keybinds_overlay(&fallback_keymap());
    assert_eq!(frame.title, "KEYBINDS");
    assert_eq!(frame.scroll, 0);
    assert_eq!(frame.lines.len(), 38);
    assert_eq!(frame.lines[0], ("NAVIGATION".to_string(), String::new(), true));
    assert_eq!(frame.lines[1], ("Up/k".to_string(), "Move up".to_string(), false));
    assert_eq!(frame.lines[20], ("Ctrl+1..9".to_string(), "Open bookmark slot".to_string(), false));
    assert_eq!(frame.lines[37], ("P".to_string(), "Previous profile".to_string(), false));
    let headers: Vec<&str> = frame.lines.iter().filter(|l| l.2).map(|l| l.0.as_str()).collect();
    assert_eq!(headers, vec!["NAVIGATION", "SELECTION", "SEARCH", "MODES", "FILE OPS", "APP"]);
}

#[test]
fn path_sets_hold_each_path_once() {
    let mut set: Vec<String> = Vec::new();
    add_path(&mut set, "/a");
    add_path(&mut set, "/b");
    add_path(&mut set, "/a");
    assert_eq!(set, strings(&["/a", "/b"]));
    assert!(has_path(&set, "/b"));
    remove_path(&mut set, "/a");
    assert_eq!(set, strings(&["/b"]));
    toggle_path(&mut set, "/b");
    assert!(set.is_empty());
    toggle_path(&mut set, "/c");
    assert_eq!(set, strings(&["/c"]));
}

#[test]
fn range_paths_and_symmetric_toggle() {
    let es: Vec<DirEntry> = ["a", "b", "c", "d"]
        .iter()
        .map(|n| DirEntry {
            name: n.to_string(),
            path: format!("/{n}"),
            is_dir: false,
            is_symlink: false,
            is_executable: false,
            size: 0,
            modified: None,
        })
        .collect();
    assert_eq!(range_paths(&es, 1, 2), strings(&["/b", "/c"]));
    let mut selected = strings(&["/a", "/b"]);
    toggle_difference(&mut selected, &strings(&["/b", "/c", "/d"]), &strings(&["/c"]));
    assert_eq!(sorted(selected), strings(&["/a", "/d"]));
}

#[test]
fn image_protocol_from_the_terminal() {
    assert_eq!(detect_image_protocol_from("xterm-256color", "Ghostty", false), Some(ImageProtocol::Kitty));
    assert_eq!(detect_image_protocol_from("XTERM-KITTY", "", false), Some(ImageProtocol::Kitty));
    assert_eq!(detect_image_protocol_from("xterm", "vscode", true), Some(ImageProtocol::Kitty));
    assert_eq!(detect_image_protocol_from("xterm", "vscode", false), None);
    assert!(protocol_known_by_name("xterm-kitty", ""));
    assert!(!protocol_known_by_name("xterm", "iTerm.app"));
}

#[test]
fn last_render_is_forgotten_when_cleared() {
    let mut last = LastRender::new();
    assert!(!last.is_same_as_last_render("/a.png"));
    last.remember_last_render("/a.png".to_string());
    assert!(last.is_same_as_last_render("/a.png"));
    assert!(!last.is_same_as_last_render("/b.png"));
    let bytes = clear_last_image(ImageProtocol::Kitty);
    assert_eq!(bytes, b"\x1b_Ga=d\x1b\\".to_vec());
    assert_eq!(clear_sequence(ImageProtocol::Kitty), bytes);
    assert!(last.is_same_as_last_render("/a.png"));
    last.finish_clear(false);
    assert!(last.is_same_as_last_render("/a.png"));
    last.finish_clear(true);
    assert!(last.key.is_none());
}

#[test]
fn preview_boxes_and_centring() {
    assert_eq!(preview_box(40, 30), (38, 20));
    assert_eq!(preview_box(3, 2), (1, 1));
    assert_eq!(preview_box(10, 8), (8, 6));
    assert_eq!(centre_offsets(38, 20, 20, 10), (9, 5));
    assert_eq!(centre_offsets(10, 10, 20, 20), (0, 0));
}

#[test]
fn cache_keys_hash_the_path() {
    assert_eq!(
        cache_key("", 5),
        "e3b0c44298fc1c149afbf4c8996fb92427ae41e4649b934ca495991b7852b855_5"
    );
    assert_eq!(
        cache_key("abc", 1700000000),
        "ba7816bf8f01cfea414140de5dae2223b00361a396177a9cb410ff61f20015ad_1700000000"
    );
    let job = thumb_job("abc", 7, "/cache/dirt/thumbs", 256);
    assert_eq!(job.key, "ba7816bf8f01cfea414140de5dae2223b00361a396177a9cb410ff61f20015ad_7");
    assert_eq!(
        job.output,
        "/cache/dirt/thumbs/ba7816bf8f01cfea414140de5dae2223b00361a396177a9cb410ff61f20015ad_7.png"
    );
    assert_eq!(job.source, "abc");
    assert_eq!(job.thumbnail_size, 256);
}

#[test]
fn freshness_against_the_lifetime() {
    assert!(is_fresh(Some((3600, 0)), 1));
    assert!(!is_fresh(Some((3600, 1)), 1));
    assert!(is_fresh(Some((10, 0)), 1));
    assert!(!is_fresh(None, 100));
    assert!(is_fresh(Some((u64::MAX, 0)), u64::MAX));
    assert!(cleanup_removes("/c/x.png", Some((7200, 0)), 1));
    assert!(!cleanup_removes("/c/x.png", Some((10, 0)), 1));
    assert!(!cleanup_removes("/c/x.jpg", Some((7200, 0)), 1));
    assert!(cleanup_removes("/c/x.png", None, 1));
}

fn job(k: usize) -> ThumbJob {
    ThumbJob {
        source: format!("/img/{k}.png"),
        output: format!("/t/{k}.png"),
        key: format!("k{k}"),
        thumbnail_size: 64,
    }
}

fn counts_add_up(q: &ThumbQueue) -> bool {
    let s = q.stats;
    s.queued == s.started + s.dropped + q.jobs.len() as u64
        && s.started == s.completed + s.failed + q.in_progress.len() as u64
}

#[test]
fn the_queue_keeps_its_counts_and_its_bound() {
    let mut q = ThumbQueue::new();
    assert_eq!(stats_snapshot(&q), ThumbStats { queued: 0, started: 0, completed: 0, failed: 0, dropped: 0 });
    for k in 0..70 {
        assert!(q.enqueue(job(k)));
        assert!(q.jobs.len() <= MAX_QUEUE_LEN);
        assert!(counts_add_up(&q));
    }
    assert_eq!(q.jobs.len(), 64);
    assert_eq!(q.stats.dropped, 6);
    assert_eq!(q.jobs[0].key, "k6");
    assert!(!q.enqueue(job(10)));
    let first = q.take_next().unwrap();
    assert_eq!(first.key, "k6");
    assert!(!q.enqueue(job(6)));
    let second = q.take_next().unwrap();
    q.finish(&first.key, true);
    q.finish(&second.key, false);
    assert!(counts_add_up(&q));
    assert_eq!(
        stats_snapshot(&q),
        ThumbStats { queued: 70, started: 2, completed: 1, failed: 1, dropped: 6 }
    );
    assert!(q.enqueue(job(6)));
}

#[test]
fn thumbnail_status_is_ready_queued_or_unavailable() {
    let cfg = ThumbConfig { thumbnail_size: 64, cache_lifetime_hrs: 1 };
    let mut q = ThumbQueue::new();
    assert!(matches!(thumbnail_status(None, None, cfg, &mut q), ThumbStatus::Unavailable));
    match thumbnail_status(Some(job(1)), Some((5, 0)), cfg, &mut q) {
        ThumbStatus::Ready(p) => assert_eq!(p, "/t/1.png"),
        other => panic!("expected a ready thumbnail, got {other:?}"),
    }
    assert!(q.jobs.is_empty());
    assert!(matches!(thumbnail_status(Some(job(1)), Some((7200, 0)), cfg, &mut q), ThumbStatus::Generating));
    assert!(matches!(thumbnail_status(Some(job(1)), None, cfg, &mut q), ThumbStatus::Generating));
    assert_eq!(q.jobs.len(), 1);
    assert_eq!(q.stats.queued, 1);
    for i in 2..=64 {
        thumbnail_status(Some(job(i)), None, cfg, &mut q);
    }
    assert_eq!(q.jobs.len(), 64);
    assert_eq!(q.stats.dropped, 0);
    thumbnail_status(Some(job(65)), None, cfg, &mut q);
    assert_eq!(q.jobs.len(), 64);
    assert_eq!(q.stats.queued, 65);
    assert_eq!(q.stats.dropped, 1);
    assert_eq!(q.jobs[0].key, job(2).key);
    assert_eq!(q.jobs[63].key, job(65).key);
}

#[test]
fn thumbnails_live_under_the_cache_directory() {
    assert_eq!(dirt::paths::thumbs_dir_under(Some("/home/u/.cache".to_string())).as_deref(), Some("/home/u/.cache/dirt/thumbs"));
    assert_eq!(dirt::paths::thumbs_dir_under(None), None);
}

#[test]
fn paths_are_compared_as_std_compares_them() {
    assert!(dirt::paths::same_path("/a/./b", "/a/b"));
    assert!(dirt::paths::same_path("/a//b/", "/a/b"));
    assert!(dirt::paths::same_path("//", "/"));
    assert!(dirt::paths::same_path("./a", "./a/."));
    assert!(!dirt::paths::same_path("./a", "a"));
    assert!(!dirt::paths::same_path("/a/b", "a/b"));
    assert!(!dirt::paths::same_path("/a/../b", "/b"));
    assert!(!dirt::paths::same_path("/a/.b", "/a/b"));
    let mut set = vec!["/a/b".to_string()];
    assert!(has_path(&set, "/a/./b"));
    toggle_path(&mut set, "/a/./b");
    assert!(set.is_empty());
    add_path(&mut set, "/a/b/");
    add_path(&mut set, "/a//b");
    assert_eq!(set, vec!["/a/b/".to_string()]);
}
