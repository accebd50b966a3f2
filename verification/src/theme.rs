use vstd::prelude::*;

use crate::text::{chars_of, push_char, str_eq};
use crate::toml_bridge::{parse_toml, toml_parse};
use crate::toml_doc::{doc_of, entry_docs_of, find_entry, find_key, lemma_entry_docs_of, lemma_find_key, DocEntries, TomlDoc, TomlValue};

verus! {

/// The colours of a theme, by part of the screen.
#[derive(Debug)]
pub struct Theme {
    pub vars: VarsTheme,
    pub mascot: MascotTheme,
    pub top_bar: TopBarTheme,
    pub search_bar: SearchBarTheme,
    pub sidebar: SidebarTheme,
    pub col_1: ColumnTheme,
    pub col_2: ColumnTheme,
    pub col_3: ColumnTheme,
    pub col_4: ColumnTheme,
    pub preview: PreviewTheme,
    pub status_bar: StatusBarTheme,
    pub keymap_bar: KeymapBarTheme,
    pub git: GitTheme,
    pub selection: SelectionTheme,
}

#[derive(Debug)]
pub struct VarsTheme {
    pub primary_bg: String,
    pub secondary_bg: String,
    pub defult_panel_border: String,
    pub accent: String,
    pub active: String,
    pub active_dir_bg: String,
    pub active_dir_text: String,
    pub focused_dir_bg: String,
    pub focused_dir_text: String,
    pub primary_fg: String,
    pub secondary_fg: String,
    pub defult_panel_label: String,
    pub defult_text: String,
    pub bool_yes: String,
    pub bool_no: String,
    pub error_color: String,
    pub selection_mode: String,
    pub search_mode: String,
    pub bookmark_mode: String,
    pub mascot_empty_body: String,
}

#[derive(Debug)]
pub struct MascotTheme {
    pub empty_dir_body: String,
    pub text: String,
    pub shadow: String,
}

#[derive(Debug)]
pub struct TopBarTheme {
    pub border: String,
    pub dirt_label: String,
    pub separator: String,
    pub profile_name: String,
    pub selection_mode_label: String,
}

#[derive(Debug)]
pub struct SearchBarTheme {
    pub border: String,
    pub placeholder: String,
    pub text: String,
    pub cursor: String,
    pub match_color: String,
    pub no_match: String,
}

#[derive(Debug)]
pub struct SidebarTheme {
    pub border: String,
    pub section_header: String,
    pub bookmark_name: String,
    pub bookmark_path: String,
    pub drive_name: String,
    pub drive_path: String,
    pub recent_name: String,
    pub selected_bg: String,
    pub selected_fg: String,
    pub scrollbar: String,
}

#[derive(Debug)]
pub struct PreviewTheme {
    pub border: String,
    pub label: String,
    pub value: String,
    pub bool_true: String,
    pub bool_false: String,
    pub size: String,
    pub date: String,
    pub path: String,
    pub match_color: String,
    pub line_number: String,
    pub scrollbar: String,
}

#[derive(Debug)]
pub struct StatusBarTheme {
    pub border: String,
    pub path: String,
    pub separator: String,
    pub file_count: String,
    pub selected_name: String,
    pub git: String,
    pub git_none: String,
    pub profile: String,
    pub selection_mode: String,
    pub message: String,
}

#[derive(Debug)]
pub struct KeymapBarTheme {
    pub border: String,
    pub key: String,
    pub label: String,
    pub separator: String,
}

#[derive(Debug)]
pub struct GitTheme {
    pub modified: String,
    pub untracked: String,
    pub staged: String,
    pub ignored: String,
    pub conflicted: String,
}

#[derive(Debug)]
pub struct SelectionTheme {
    pub bg: String,
    pub fg: String,
    pub range_bg: String,
    pub dim_fg: String,
}

#[derive(Debug)]
pub struct ColumnTheme {
    pub border: String,
    pub header: String,
    pub dir: String,
    pub file: String,
    pub symlink: String,
    pub executable: String,
    pub hidden: String,
    pub focused_bg: String,
    pub focused_fg: String,
    pub selected_bg: String,
    pub selected_fg: String,
    pub scrollbar: String,
}

pub open spec fn vars_matches(t: VarsTheme, d: TomlDoc, vars: Seq<(Seq<char>, Seq<char>)>) -> bool {
    t.primary_bg@ == theme_color(d, vars, "vars.primary_bg"@, "#FFFFFF"@) &&
    t.secondary_bg@ == theme_color(d, vars, "vars.secondary_bg"@, "#FFFFFF"@) &&
    t.defult_panel_border@ == theme_color(d, vars, "vars.defult_panel_border"@, theme_color(d, vars, "vars.secondary_bg"@, "#FFFFFF"@)) &&
    t.accent@ == theme_color(d, vars, "vars.accent"@, "#FFFFFF"@) &&
    t.active@ == theme_color(d, vars, "vars.active"@, "#FFFFFF"@) &&
    t.active_dir_bg@ == theme_color(d, vars, "vars.active_dir_bg"@, "#FFFFFF"@) &&
    t.active_dir_text@ == theme_color(d, vars, "vars.active_dir_text"@, "#FFFFFF"@) &&
    t.focused_dir_bg@ == theme_color(d, vars, "vars.focused_dir_bg"@, "#FFFFFF"@) &&
    t.focused_dir_text@ == theme_color(d, vars, "vars.focused_dir_text"@, "#FFFFFF"@) &&
    t.primary_fg@ == theme_color(d, vars, "vars.primary_fg"@, "#FFFFFF"@) &&
    t.secondary_fg@ == theme_color(d, vars, "vars.secondary_fg"@, "#FFFFFF"@) &&
    t.defult_panel_label@ == theme_color(d, vars, "vars.defult_panel_label"@, theme_color(d, vars, "vars.secondary_fg"@, "#FFFFFF"@)) &&
    t.defult_text@ == theme_color(d, vars, "vars.defult_text"@, theme_color(d, vars, "vars.primary_fg"@, "#FFFFFF"@)) &&
    t.bool_yes@ == theme_color(d, vars, "vars.bool_yes"@, "#84E052"@) &&
    t.bool_no@ == theme_color(d, vars, "vars.bool_no"@, "#F64646"@) &&
    t.error_color@ == theme_color(d, vars, "vars.error_color"@, "#F64646"@) &&
    t.selection_mode@ == theme_color(d, vars, "vars.selection_mode"@, theme_color(d, vars, "status_bar.selection_mode"@, "#EB8D47"@)) &&
    t.search_mode@ == theme_color(d, vars, "vars.search_mode"@, "#4CB2F6"@) &&
    t.bookmark_mode@ == theme_color(d, vars, "vars.bookmark_mode"@, "#EE9C9C"@) &&
    t.mascot_empty_body@ == theme_color(d, vars, "vars.mascot_empty_body"@, "#F64646"@)
}

pub open spec fn mascot_matches(t: MascotTheme, d: TomlDoc, vars: Seq<(Seq<char>, Seq<char>)>) -> bool {
    t.empty_dir_body@ == theme_color(d, vars, "mascot.empty_dir_body"@, theme_color(d, vars, "vars.mascot_empty_body"@, "#F64646"@)) &&
    t.text@ == theme_color(d, vars, "mascot.text"@, "#FFFFFF"@) &&
    t.shadow@ == theme_color(d, vars, "mascot.shadow"@, "#FFFFFF"@)
}

pub open spec fn top_bar_matches(t: TopBarTheme, d: TomlDoc, vars: Seq<(Seq<char>, Seq<char>)>) -> bool {
    t.border@ == theme_color(d, vars, "top_bar.border"@, "#FFFFFF"@) &&
    t.dirt_label@ == theme_color(d, vars, "top_bar.dirt_label"@, "#FFFFFF"@) &&
    t.separator@ == theme_color(d, vars, "top_bar.separator"@, "#FFFFFF"@) &&
    t.profile_name@ == theme_color(d, vars, "top_bar.profile_name"@, "#FFFFFF"@) &&
    t.selection_mode_label@ == theme_color(d, vars, "top_bar.selection_mode_label"@, "#FFFFFF"@)
}

pub open spec fn search_bar_matches(t: SearchBarTheme, d: TomlDoc, vars: Seq<(Seq<char>, Seq<char>)>) -> bool {
    t.border@ == theme_color(d, vars, "search_bar.border"@, "#FFFFFF"@) &&
    t.placeholder@ == theme_color(d, vars, "search_bar.placeholder"@, "#FFFFFF"@) &&
    t.text@ == theme_color(d, vars, "search_bar.text"@, "#FFFFFF"@) &&
    t.cursor@ == theme_color(d, vars, "search_bar.cursor"@, "#FFFFFF"@) &&
    t.match_color@ == theme_color(d, vars, "search_bar.match"@, "#FFFFFF"@) &&
    t.no_match@ == theme_color(d, vars, "search_bar.no_match"@, "#FFFFFF"@)
}

pub open spec fn sidebar_matches(t: SidebarTheme, d: TomlDoc, vars: Seq<(Seq<char>, Seq<char>)>) -> bool {
    t.border@ == theme_color(d, vars, "sidebar.border"@, "#FFFFFF"@) &&
    t.section_header@ == theme_color(d, vars, "sidebar.section_header"@, "#FFFFFF"@) &&
    t.bookmark_name@ == theme_color(d, vars, "sidebar.bookmark_name"@, "#FFFFFF"@) &&
    t.bookmark_path@ == theme_color(d, vars, "sidebar.bookmark_path"@, "#FFFFFF"@) &&
    t.drive_name@ == theme_color(d, vars, "sidebar.drive_name"@, "#FFFFFF"@) &&
    t.drive_path@ == theme_color(d, vars, "sidebar.drive_path"@, "#FFFFFF"@) &&
    t.recent_name@ == theme_color(d, vars, "sidebar.recent_name"@, "#FFFFFF"@) &&
    t.selected_bg@ == theme_color(d, vars, "sidebar.selected_bg"@, "#FFFFFF"@) &&
    t.selected_fg@ == theme_color(d, vars, "sidebar.selected_fg"@, "#FFFFFF"@) &&
    t.scrollbar@ == theme_color(d, vars, "sidebar.scrollbar"@, "#FFFFFF"@)
}

pub open spec fn preview_matches(t: PreviewTheme, d: TomlDoc, vars: Seq<(Seq<char>, Seq<char>)>) -> bool {
    t.border@ == theme_color(d, vars, "preview.border"@, "#FFFFFF"@) &&
    t.label@ == theme_color(d, vars, "preview.label"@, "#FFFFFF"@) &&
    t.value@ == theme_color(d, vars, "preview.value"@, "#FFFFFF"@) &&
    t.bool_true@ == theme_color(d, vars, "preview.bool_true"@, "#FFFFFF"@) &&
    t.bool_false@ == theme_color(d, vars, "preview.bool_false"@, "#FFFFFF"@) &&
    t.size@ == theme_color(d, vars, "preview.size"@, "#FFFFFF"@) &&
    t.date@ == theme_color(d, vars, "preview.date"@, "#FFFFFF"@) &&
    t.path@ == theme_color(d, vars, "preview.path"@, "#FFFFFF"@) &&
    t.match_color@ == theme_color(d, vars, "preview.match"@, "#FFFFFF"@) &&
    t.line_number@ == theme_color(d, vars, "preview.line_number"@, "#FFFFFF"@) &&
    t.scrollbar@ == theme_color(d, vars, "preview.scrollbar"@, "#FFFFFF"@)
}

pub open spec fn status_bar_matches(t: StatusBarTheme, d: TomlDoc, vars: Seq<(Seq<char>, Seq<char>)>) -> bool {
    t.border@ == theme_color(d, vars, "status_bar.border"@, "#FFFFFF"@) &&
    t.path@ == theme_color(d, vars, "status_bar.path"@, "#FFFFFF"@) &&
    t.separator@ == theme_color(d, vars, "status_bar.separator"@, "#FFFFFF"@) &&
    t.file_count@ == theme_color(d, vars, "status_bar.file_count"@, "#FFFFFF"@) &&
    t.selected_name@ == theme_color(d, vars, "status_bar.selected_name"@, "#FFFFFF"@) &&
    t.git@ == theme_color(d, vars, "status_bar.git"@, "#FFFFFF"@) &&
    t.git_none@ == theme_color(d, vars, "status_bar.git_none"@, "#FFFFFF"@) &&
    t.profile@ == theme_color(d, vars, "status_bar.profile"@, "#FFFFFF"@) &&
    t.selection_mode@ == theme_color(d, vars, "status_bar.selection_mode"@, "#FFFFFF"@) &&
    t.message@ == theme_color(d, vars, "status_bar.message"@, "#FFFFFF"@)
}

pub open spec fn keymap_bar_matches(t: KeymapBarTheme, d: TomlDoc, vars: Seq<(Seq<char>, Seq<char>)>) -> bool {
    t.border@ == theme_color(d, vars, "keymap_bar.border"@, "#FFFFFF"@) &&
    t.key@ == theme_color(d, vars, "keymap_bar.key"@, "#FFFFFF"@) &&
    t.label@ == theme_color(d, vars, "keymap_bar.label"@, "#FFFFFF"@) &&
    t.separator@ == theme_color(d, vars, "keymap_bar.separator"@, "#FFFFFF"@)
}

pub open spec fn git_matches(t: GitTheme, d: TomlDoc, vars: Seq<(Seq<char>, Seq<char>)>) -> bool {
    t.modified@ == theme_color(d, vars, "git.modified"@, "#FFFFFF"@) &&
    t.untracked@ == theme_color(d, vars, "git.untracked"@, "#FFFFFF"@) &&
    t.staged@ == theme_color(d, vars, "git.staged"@, "#FFFFFF"@) &&
    t.ignored@ == theme_color(d, vars, "git.ignored"@, "#FFFFFF"@) &&
    t.conflicted@ == theme_color(d, vars, "git.conflicted"@, "#FFFFFF"@)
}

pub open spec fn selection_matches(t: SelectionTheme, d: TomlDoc, vars: Seq<(Seq<char>, Seq<char>)>) -> bool {
    t.bg@ == theme_color(d, vars, "selection.bg"@, "#FFFFFF"@) &&
    t.fg@ == theme_color(d, vars, "selection.fg"@, "#FFFFFF"@) &&
    t.range_bg@ == theme_color(d, vars, "selection.range_bg"@, "#FFFFFF"@) &&
    t.dim_fg@ == theme_color(d, vars, "selection.dim_fg"@, "#FFFFFF"@)
}

pub open spec fn column_matches(t: ColumnTheme, d: TomlDoc, vars: Seq<(Seq<char>, Seq<char>)>, key: Seq<char>) -> bool {
    t.border@ == theme_color(d, vars, key + "."@ + "border"@, "#FFFFFF"@) &&
    t.header@ == theme_color(d, vars, key + "."@ + "header"@, "#FFFFFF"@) &&
    t.dir@ == theme_color(d, vars, key + "."@ + "dir"@, "#FFFFFF"@) &&
    t.file@ == theme_color(d, vars, key + "."@ + "file"@, "#FFFFFF"@) &&
    t.symlink@ == theme_color(d, vars, key + "."@ + "symlink"@, "#FFFFFF"@) &&
    t.executable@ == theme_color(d, vars, key + "."@ + "executable"@, "#FFFFFF"@) &&
    t.hidden@ == theme_color(d, vars, key + "."@ + "hidden"@, "#FFFFFF"@) &&
    t.focused_bg@ == theme_color(d, vars, key + "."@ + "focused_bg"@, "#FFFFFF"@) &&
    t.focused_fg@ == theme_color(d, vars, key + "."@ + "focused_fg"@, "#FFFFFF"@) &&
    t.selected_bg@ == theme_color(d, vars, key + "."@ + "selected_bg"@, "#FFFFFF"@) &&
    t.selected_fg@ == theme_color(d, vars, key + "."@ + "selected_fg"@, "#FFFFFF"@) &&
    t.scrollbar@ == theme_color(d, vars, key + "."@ + "scrollbar"@, "#FFFFFF"@)
}

/// `t` holds the colours that the document `d` gives for every part.
pub open spec fn theme_matches(t: Theme, d: TomlDoc) -> bool {
    let vars = vars_of(d);
    vars_matches(t.vars, d, vars)
    && mascot_matches(t.mascot, d, vars)
    && top_bar_matches(t.top_bar, d, vars)
    && search_bar_matches(t.search_bar, d, vars)
    && sidebar_matches(t.sidebar, d, vars)
    && column_matches(t.col_1, d, vars, "col_1"@)
    && column_matches(t.col_2, d, vars, "col_2"@)
    && column_matches(t.col_3, d, vars, "col_3"@)
    && column_matches(t.col_4, d, vars, "col_4"@)
    && preview_matches(t.preview, d, vars)
    && status_bar_matches(t.status_bar, d, vars)
    && keymap_bar_matches(t.keymap_bar, d, vars)
    && git_matches(t.git, d, vars)
    && selection_matches(t.selection, d, vars)
}

fn build_vars(value: &TomlValue, vars: &Vec<(String, String)>) -> (r: VarsTheme)
    ensures
        vars_matches(r, doc_of(*value), pairs_view(vars@)),
{
    let f_primary_bg = resolve_color(value, vars, "vars.primary_bg", "#FFFFFF");
    let f_secondary_bg = resolve_color(value, vars, "vars.secondary_bg", "#FFFFFF");
    let defult_panel_border_fb = resolve_color(value, vars, "vars.secondary_bg", "#FFFFFF");
    let f_defult_panel_border = resolve_color(value, vars, "vars.defult_panel_border", defult_panel_border_fb.as_str());
    let f_accent = resolve_color(value, vars, "vars.accent", "#FFFFFF");
    let f_active = resolve_color(value, vars, "vars.active", "#FFFFFF");
    let f_active_dir_bg = resolve_color(value, vars, "vars.active_dir_bg", "#FFFFFF");
    let f_active_dir_text = resolve_color(value, vars, "vars.active_dir_text", "#FFFFFF");
    let f_focused_dir_bg = resolve_color(value, vars, "vars.focused_dir_bg", "#FFFFFF");
    let f_focused_dir_text = resolve_color(value, vars, "vars.focused_dir_text", "#FFFFFF");
    let f_primary_fg = resolve_color(value, vars, "vars.primary_fg", "#FFFFFF");
    let f_secondary_fg = resolve_color(value, vars, "vars.secondary_fg", "#FFFFFF");
    let defult_panel_label_fb = resolve_color(value, vars, "vars.secondary_fg", "#FFFFFF");
    let f_defult_panel_label = resolve_color(value, vars, "vars.defult_panel_label", defult_panel_label_fb.as_str());
    let defult_text_fb = resolve_color(value, vars, "vars.primary_fg", "#FFFFFF");
    let f_defult_text = resolve_color(value, vars, "vars.defult_text", defult_text_fb.as_str());
    let f_bool_yes = resolve_color(value, vars, "vars.bool_yes", "#84E052");
    let f_bool_no = resolve_color(value, vars, "vars.bool_no", "#F64646");
    let f_error_color = resolve_color(value, vars, "vars.error_color", "#F64646");
    let selection_mode_fb = resolve_color(value, vars, "status_bar.selection_mode", "#EB8D47");
    let f_selection_mode = resolve_color(value, vars, "vars.selection_mode", selection_mode_fb.as_str());
    let f_search_mode = resolve_color(value, vars, "vars.search_mode", "#4CB2F6");
    let f_bookmark_mode = resolve_color(value, vars, "vars.bookmark_mode", "#EE9C9C");
    let f_mascot_empty_body = resolve_color(value, vars, "vars.mascot_empty_body", "#F64646");
    VarsTheme { primary_bg: f_primary_bg, secondary_bg: f_secondary_bg, defult_panel_border: f_defult_panel_border, accent: f_accent, active: f_active, active_dir_bg: f_active_dir_bg, active_dir_text: f_active_dir_text, focused_dir_bg: f_focused_dir_bg, focused_dir_text: f_focused_dir_text, primary_fg: f_primary_fg, secondary_fg: f_secondary_fg, defult_panel_label: f_defult_panel_label, defult_text: f_defult_text, bool_yes: f_bool_yes, bool_no: f_bool_no, error_color: f_error_color, selection_mode: f_selection_mode, search_mode: f_search_mode, bookmark_mode: f_bookmark_mode, mascot_empty_body: f_mascot_empty_body }
}

fn build_mascot(value: &TomlValue, vars: &Vec<(String, String)>) -> (r: MascotTheme)
    ensures
        mascot_matches(r, doc_of(*value), pairs_view(vars@)),
{
    let empty_dir_body_fb = resolve_color(value, vars, "vars.mascot_empty_body", "#F64646");
    let f_empty_dir_body = resolve_color(value, vars, "mascot.empty_dir_body", empty_dir_body_fb.as_str());
    let f_text = resolve_color(value, vars, "mascot.text", "#FFFFFF");
    let f_shadow = resolve_color(value, vars, "mascot.shadow", "#FFFFFF");
    MascotTheme { empty_dir_body: f_empty_dir_body, text: f_text, shadow: f_shadow }
}

fn build_top_bar(value: &TomlValue, vars: &Vec<(String, String)>) -> (r: TopBarTheme)
    ensures
        top_bar_matches(r, doc_of(*value), pairs_view(vars@)),
{
    let f_border = resolve_color(value, vars, "top_bar.border", "#FFFFFF");
    let f_dirt_label = resolve_color(value, vars, "top_bar.dirt_label", "#FFFFFF");
    let f_separator = resolve_color(value, vars, "top_bar.separator", "#FFFFFF");
    let f_profile_name = resolve_color(value, vars, "top_bar.profile_name", "#FFFFFF");
    let f_selection_mode_label = resolve_color(value, vars, "top_bar.selection_mode_label", "#FFFFFF");
    TopBarTheme { border: f_border, dirt_label: f_dirt_label, separator: f_separator, profile_name: f_profile_name, selection_mode_label: f_selection_mode_label }
}

fn build_search_bar(value: &TomlValue, vars: &Vec<(String, String)>) -> (r: SearchBarTheme)
    ensures
        search_bar_matches(r, doc_of(*value), pairs_view(vars@)),
{
    let f_border = resolve_color(value, vars, "search_bar.border", "#FFFFFF");
    let f_placeholder = resolve_color(value, vars, "search_bar.placeholder", "#FFFFFF");
    let f_text = resolve_color(value, vars, "search_bar.text", "#FFFFFF");
    let f_cursor = resolve_color(value, vars, "search_bar.cursor", "#FFFFFF");
    let f_match_color = resolve_color(value, vars, "search_bar.match", "#FFFFFF");
    let f_no_match = resolve_color(value, vars, "search_bar.no_match", "#FFFFFF");
    SearchBarTheme { border: f_border, placeholder: f_placeholder, text: f_text, cursor: f_cursor, match_color: f_match_color, no_match: f_no_match }
}

fn build_sidebar(value: &TomlValue, vars: &Vec<(String, String)>) -> (r: SidebarTheme)
    ensures
        sidebar_matches(r, doc_of(*value), pairs_view(vars@)),
{
    let f_border = resolve_color(value, vars, "sidebar.border", "#FFFFFF");
    let f_section_header = resolve_color(value, vars, "sidebar.section_header", "#FFFFFF");
    let f_bookmark_name = resolve_color(value, vars, "sidebar.bookmark_name", "#FFFFFF");
    let f_bookmark_path = resolve_color(value, vars, "sidebar.bookmark_path", "#FFFFFF");
    let f_drive_name = resolve_color(value, vars, "sidebar.drive_name", "#FFFFFF");
    let f_drive_path = resolve_color(value, vars, "sidebar.drive_path", "#FFFFFF");
    let f_recent_name = resolve_color(value, vars, "sidebar.recent_name", "#FFFFFF");
    let f_selected_bg = resolve_color(value, vars, "sidebar.selected_bg", "#FFFFFF");
    let f_selected_fg = resolve_color(value, vars, "sidebar.selected_fg", "#FFFFFF");
    let f_scrollbar = resolve_color(value, vars, "sidebar.scrollbar", "#FFFFFF");
    SidebarTheme { border: f_border, section_header: f_section_header, bookmark_name: f_bookmark_name, bookmark_path: f_bookmark_path, drive_name: f_drive_name, drive_path: f_drive_path, recent_name: f_recent_name, selected_bg: f_selected_bg, selected_fg: f_selected_fg, scrollbar: f_scrollbar }
}

fn build_preview(value: &TomlValue, vars: &Vec<(String, String)>) -> (r: PreviewTheme)
    ensures
        preview_matches(r, doc_of(*value), pairs_view(vars@)),
{
    let f_border = resolve_color(value, vars, "preview.border", "#FFFFFF");
    let f_label = resolve_color(value, vars, "preview.label", "#FFFFFF");
    let f_value = resolve_color(value, vars, "preview.value", "#FFFFFF");
    let f_bool_true = resolve_color(value, vars, "preview.bool_true", "#FFFFFF");
    let f_bool_false = resolve_color(value, vars, "preview.bool_false", "#FFFFFF");
    let f_size = resolve_color(value, vars, "preview.size", "#FFFFFF");
    let f_date = resolve_color(value, vars, "preview.date", "#FFFFFF");
    let f_path = resolve_color(value, vars, "preview.path", "#FFFFFF");
    let f_match_color = resolve_color(value, vars, "preview.match", "#FFFFFF");
    let f_line_number = resolve_color(value, vars, "preview.line_number", "#FFFFFF");
    let f_scrollbar = resolve_color(value, vars, "preview.scrollbar", "#FFFFFF");
    PreviewTheme { border: f_border, label: f_label, value: f_value, bool_true: f_bool_true, bool_false: f_bool_false, size: f_size, date: f_date, path: f_path, match_color: f_match_color, line_number: f_line_number, scrollbar: f_scrollbar }
}

fn build_status_bar(value: &TomlValue, vars: &Vec<(String, String)>) -> (r: StatusBarTheme)
    ensures
        status_bar_matches(r, doc_of(*value), pairs_view(vars@)),
{
    let f_border = resolve_color(value, vars, "status_bar.border", "#FFFFFF");
    let f_path = resolve_color(value, vars, "status_bar.path", "#FFFFFF");
    let f_separator = resolve_color(value, vars, "status_bar.separator", "#FFFFFF");
    let f_file_count = resolve_color(value, vars, "status_bar.file_count", "#FFFFFF");
    let f_selected_name = resolve_color(value, vars, "status_bar.selected_name", "#FFFFFF");
    let f_git = resolve_color(value, vars, "status_bar.git", "#FFFFFF");
    let f_git_none = resolve_color(value, vars, "status_bar.git_none", "#FFFFFF");
    let f_profile = resolve_color(value, vars, "status_bar.profile", "#FFFFFF");
    let f_selection_mode = resolve_color(value, vars, "status_bar.selection_mode", "#FFFFFF");
    let f_message = resolve_color(value, vars, "status_bar.message", "#FFFFFF");
    StatusBarTheme { border: f_border, path: f_path, separator: f_separator, file_count: f_file_count, selected_name: f_selected_name, git: f_git, git_none: f_git_none, profile: f_profile, selection_mode: f_selection_mode, message: f_message }
}

fn build_keymap_bar(value: &TomlValue, vars: &Vec<(String, String)>) -> (r: KeymapBarTheme)
    ensures
        keymap_bar_matches(r, doc_of(*value), pairs_view(vars@)),
{
    let f_border = resolve_color(value, vars, "keymap_bar.border", "#FFFFFF");
    let f_key = resolve_color(value, vars, "keymap_bar.key", "#FFFFFF");
    let f_label = resolve_color(value, vars, "keymap_bar.label", "#FFFFFF");
    let f_separator = resolve_color(value, vars, "keymap_bar.separator", "#FFFFFF");
    KeymapBarTheme { border: f_border, key: f_key, label: f_label, separator: f_separator }
}

fn build_git(value: &TomlValue, vars: &Vec<(String, String)>) -> (r: GitTheme)
    ensures
        git_matches(r, doc_of(*value), pairs_view(vars@)),
{
    let f_modified = resolve_color(value, vars, "git.modified", "#FFFFFF");
    let f_untracked = resolve_color(value, vars, "git.untracked", "#FFFFFF");
    let f_staged = resolve_color(value, vars, "git.staged", "#FFFFFF");
    let f_ignored = resolve_color(value, vars, "git.ignored", "#FFFFFF");
    let f_conflicted = resolve_color(value, vars, "git.conflicted", "#FFFFFF");
    GitTheme { modified: f_modified, untracked: f_untracked, staged: f_staged, ignored: f_ignored, conflicted: f_conflicted }
}

fn build_selection(value: &TomlValue, vars: &Vec<(String, String)>) -> (r: SelectionTheme)
    ensures
        selection_matches(r, doc_of(*value), pairs_view(vars@)),
{
    let f_bg = resolve_color(value, vars, "selection.bg", "#FFFFFF");
    let f_fg = resolve_color(value, vars, "selection.fg", "#FFFFFF");
    let f_range_bg = resolve_color(value, vars, "selection.range_bg", "#FFFFFF");
    let f_dim_fg = resolve_color(value, vars, "selection.dim_fg", "#FFFFFF");
    SelectionTheme { bg: f_bg, fg: f_fg, range_bg: f_range_bg, dim_fg: f_dim_fg }
}

/// The colours of one Miller column, read under the table `key`.
fn build_col(value: &TomlValue, vars: &Vec<(String, String)>, key: &str) -> (r: ColumnTheme)
    ensures
        column_matches(r, doc_of(*value), pairs_view(vars@), key@),
{
    let prefix = key.to_owned().concat(".");
    let f_border = {
        let p = prefix.clone().concat("border");
        assert(p@ == key@ + "."@ + "border"@);
        resolve_color(value, vars, p.as_str(), "#FFFFFF")
    };
    let f_header = {
        let p = prefix.clone().concat("header");
        assert(p@ == key@ + "."@ + "header"@);
        resolve_color(value, vars, p.as_str(), "#FFFFFF")
    };
    let f_dir = {
        let p = prefix.clone().concat("dir");
        assert(p@ == key@ + "."@ + "dir"@);
        resolve_color(value, vars, p.as_str(), "#FFFFFF")
    };
    let f_file = {
        let p = prefix.clone().concat("file");
        assert(p@ == key@ + "."@ + "file"@);
        resolve_color(value, vars, p.as_str(), "#FFFFFF")
    };
    let f_symlink = {
        let p = prefix.clone().concat("symlink");
        assert(p@ == key@ + "."@ + "symlink"@);
        resolve_color(value, vars, p.as_str(), "#FFFFFF")
    };
    let f_executable = {
        let p = prefix.clone().concat("executable");
        assert(p@ == key@ + "."@ + "executable"@);
        resolve_color(value, vars, p.as_str(), "#FFFFFF")
    };
    let f_hidden = {
        let p = prefix.clone().concat("hidden");
        assert(p@ == key@ + "."@ + "hidden"@);
        resolve_color(value, vars, p.as_str(), "#FFFFFF")
    };
    let f_focused_bg = {
        let p = prefix.clone().concat("focused_bg");
        assert(p@ == key@ + "."@ + "focused_bg"@);
        resolve_color(value, vars, p.as_str(), "#FFFFFF")
    };
    let f_focused_fg = {
        let p = prefix.clone().concat("focused_fg");
        assert(p@ == key@ + "."@ + "focused_fg"@);
        resolve_color(value, vars, p.as_str(), "#FFFFFF")
    };
    let f_selected_bg = {
        let p = prefix.clone().concat("selected_bg");
        assert(p@ == key@ + "."@ + "selected_bg"@);
        resolve_color(value, vars, p.as_str(), "#FFFFFF")
    };
    let f_selected_fg = {
        let p = prefix.clone().concat("selected_fg");
        assert(p@ == key@ + "."@ + "selected_fg"@);
        resolve_color(value, vars, p.as_str(), "#FFFFFF")
    };
    let f_scrollbar = {
        let p = prefix.clone().concat("scrollbar");
        assert(p@ == key@ + "."@ + "scrollbar"@);
        resolve_color(value, vars, p.as_str(), "#FFFFFF")
    };
    ColumnTheme { border: f_border, header: f_header, dir: f_dir, file: f_file, symlink: f_symlink, executable: f_executable, hidden: f_hidden, focused_bg: f_focused_bg, focused_fg: f_focused_fg, selected_bg: f_selected_bg, selected_fg: f_selected_fg, scrollbar: f_scrollbar }
}

impl Theme {
    /// The theme that the built-in fallbacks give: the theme of an empty document.
    pub fn hardcoded_defaults() -> (r: Theme)
        ensures
            theme_matches(r, TomlDoc::Table(Seq::empty())),
    {
        let empty = TomlValue::Table(Vec::new());
        proof {
            assert(doc_of(empty) == TomlDoc::Table(Seq::empty())) by {
                assert(entry_docs_of(empty->Table_0@) =~= Seq::<(Seq<char>, TomlDoc)>::empty());
            }
        }
        Self::from_toml_value(&empty)
    }

    /// The theme that a document gives: each colour read at its path, `$name`
    /// references resolved through the `vars` table, fallbacks where absent.
    pub fn from_toml_value(value: &TomlValue) -> (r: Theme)
        ensures
            theme_matches(r, doc_of(*value)),
    {
        let table = vars_table(value);
        let s_vars = build_vars(value, &table);
        let s_mascot = build_mascot(value, &table);
        let s_top_bar = build_top_bar(value, &table);
        let s_search_bar = build_search_bar(value, &table);
        let s_sidebar = build_sidebar(value, &table);
        let s_col_1 = build_col(value, &table, "col_1");
        let s_col_2 = build_col(value, &table, "col_2");
        let s_col_3 = build_col(value, &table, "col_3");
        let s_col_4 = build_col(value, &table, "col_4");
        let s_preview = build_preview(value, &table);
        let s_status_bar = build_status_bar(value, &table);
        let s_keymap_bar = build_keymap_bar(value, &table);
        let s_git = build_git(value, &table);
        let s_selection = build_selection(value, &table);
        Theme { vars: s_vars, mascot: s_mascot, top_bar: s_top_bar, search_bar: s_search_bar, sidebar: s_sidebar, col_1: s_col_1, col_2: s_col_2, col_3: s_col_3, col_4: s_col_4, preview: s_preview, status_bar: s_status_bar, keymap_bar: s_keymap_bar, git: s_git, selection: s_selection }
    }
}

impl Theme {
    /// The theme that a TOML text gives (see `from_toml_value`), where the
    /// text reads as TOML.
    pub fn from_toml_text(text: &str) -> (r: Option<Theme>)
        ensures
            match toml_parse(text@) {
                Some(d) => r matches Some(t) && theme_matches(t, d),
                None => r is None,
            },
    {
        match parse_toml(text) {
            Some(v) => Some(Self::from_toml_value(&v)),
            None => None,
        }
    }

    /// The fallback theme: the one that the local theme file gives where it
    /// was read and reads as TOML, else the one of the bundled theme text,
    /// else the built-in fallbacks.
    pub fn fallback(local: Option<&str>, bundled: Option<&str>) -> (r: Theme)
        ensures
            match local {
                Some(l) if toml_parse(l@) is Some => theme_matches(r, toml_parse(l@)->0),
                _ => match bundled {
                    Some(b) if toml_parse(b@) is Some => theme_matches(r, toml_parse(b@)->0),
                    _ => theme_matches(r, TomlDoc::Table(Seq::empty())),
                },
            },
    {
        if let Some(l) = local {
            if let Some(t) = Self::from_toml_text(l) {
                return t;
            }
        }
        if let Some(b) = bundled {
            if let Some(t) = Self::from_toml_text(b) {
                return t;
            }
        }
        Self::hardcoded_defaults()
    }
}

impl VarsTheme {
    /// A copy with the same colours.
    pub fn copy(&self) -> (r: VarsTheme)
        ensures
            r == *self,
    {
        VarsTheme { primary_bg: self.primary_bg.clone(), secondary_bg: self.secondary_bg.clone(), defult_panel_border: self.defult_panel_border.clone(), accent: self.accent.clone(), active: self.active.clone(), active_dir_bg: self.active_dir_bg.clone(), active_dir_text: self.active_dir_text.clone(), focused_dir_bg: self.focused_dir_bg.clone(), focused_dir_text: self.focused_dir_text.clone(), primary_fg: self.primary_fg.clone(), secondary_fg: self.secondary_fg.clone(), defult_panel_label: self.defult_panel_label.clone(), defult_text: self.defult_text.clone(), bool_yes: self.bool_yes.clone(), bool_no: self.bool_no.clone(), error_color: self.error_color.clone(), selection_mode: self.selection_mode.clone(), search_mode: self.search_mode.clone(), bookmark_mode: self.bookmark_mode.clone(), mascot_empty_body: self.mascot_empty_body.clone() }
    }
}

impl MascotTheme {
    /// A copy with the same colours.
    pub fn copy(&self) -> (r: MascotTheme)
        ensures
            r == *self,
    {
        MascotTheme { empty_dir_body: self.empty_dir_body.clone(), text: self.text.clone(), shadow: self.shadow.clone() }
    }
}

impl TopBarTheme {
    /// A copy with the same colours.
    pub fn copy(&self) -> (r: TopBarTheme)
        ensures
            r == *self,
    {
        TopBarTheme { border: self.border.clone(), dirt_label: self.dirt_label.clone(), separator: self.separator.clone(), profile_name: self.profile_name.clone(), selection_mode_label: self.selection_mode_label.clone() }
    }
}

impl SearchBarTheme {
    /// A copy with the same colours.
    pub fn copy(&self) -> (r: SearchBarTheme)
        ensures
            r == *self,
    {
        SearchBarTheme { border: self.border.clone(), placeholder: self.placeholder.clone(), text: self.text.clone(), cursor: self.cursor.clone(), match_color: self.match_color.clone(), no_match: self.no_match.clone() }
    }
}

impl SidebarTheme {
    /// A copy with the same colours.
    pub fn copy(&self) -> (r: SidebarTheme)
        ensures
            r == *self,
    {
        SidebarTheme { border: self.border.clone(), section_header: self.section_header.clone(), bookmark_name: self.bookmark_name.clone(), bookmark_path: self.bookmark_path.clone(), drive_name: self.drive_name.clone(), drive_path: self.drive_path.clone(), recent_name: self.recent_name.clone(), selected_bg: self.selected_bg.clone(), selected_fg: self.selected_fg.clone(), scrollbar: self.scrollbar.clone() }
    }
}

impl PreviewTheme {
    /// A copy with the same colours.
    pub fn copy(&self) -> (r: PreviewTheme)
        ensures
            r == *self,
    {
        PreviewTheme { border: self.border.clone(), label: self.label.clone(), value: self.value.clone(), bool_true: self.bool_true.clone(), bool_false: self.bool_false.clone(), size: self.size.clone(), date: self.date.clone(), path: self.path.clone(), match_color: self.match_color.clone(), line_number: self.line_number.clone(), scrollbar: self.scrollbar.clone() }
    }
}

impl StatusBarTheme {
    /// A copy with the same colours.
    pub fn copy(&self) -> (r: StatusBarTheme)
        ensures
            r == *self,
    {
        StatusBarTheme { border: self.border.clone(), path: self.path.clone(), separator: self.separator.clone(), file_count: self.file_count.clone(), selected_name: self.selected_name.clone(), git: self.git.clone(), git_none: self.git_none.clone(), profile: self.profile.clone(), selection_mode: self.selection_mode.clone(), message: self.message.clone() }
    }
}

impl KeymapBarTheme {
    /// A copy with the same colours.
    pub fn copy(&self) -> (r: KeymapBarTheme)
        ensures
            r == *self,
    {
        KeymapBarTheme { border: self.border.clone(), key: self.key.clone(), label: self.label.clone(), separator: self.separator.clone() }
    }
}

impl GitTheme {
    /// A copy with the same colours.
    pub fn copy(&self) -> (r: GitTheme)
        ensures
            r == *self,
    {
        GitTheme { modified: self.modified.clone(), untracked: self.untracked.clone(), staged: self.staged.clone(), ignored: self.ignored.clone(), conflicted: self.conflicted.clone() }
    }
}

impl SelectionTheme {
    /// A copy with the same colours.
    pub fn copy(&self) -> (r: SelectionTheme)
        ensures
            r == *self,
    {
        SelectionTheme { bg: self.bg.clone(), fg: self.fg.clone(), range_bg: self.range_bg.clone(), dim_fg: self.dim_fg.clone() }
    }
}

impl ColumnTheme {
    /// A copy with the same colours.
    pub fn copy(&self) -> (r: ColumnTheme)
        ensures
            r == *self,
    {
        ColumnTheme { border: self.border.clone(), header: self.header.clone(), dir: self.dir.clone(), file: self.file.clone(), symlink: self.symlink.clone(), executable: self.executable.clone(), hidden: self.hidden.clone(), focused_bg: self.focused_bg.clone(), focused_fg: self.focused_fg.clone(), selected_bg: self.selected_bg.clone(), selected_fg: self.selected_fg.clone(), scrollbar: self.scrollbar.clone() }
    }
}

impl Theme {
    /// A copy with the same colours.
    pub fn copy(&self) -> (r: Theme)
        ensures
            r == *self,
    {
        Theme { vars: self.vars.copy(), mascot: self.mascot.copy(), top_bar: self.top_bar.copy(), search_bar: self.search_bar.copy(), sidebar: self.sidebar.copy(), col_1: self.col_1.copy(), col_2: self.col_2.copy(), col_3: self.col_3.copy(), col_4: self.col_4.copy(), preview: self.preview.copy(), status_bar: self.status_bar.copy(), keymap_bar: self.keymap_bar.copy(), git: self.git.copy(), selection: self.selection.copy() }
    }
}

/// The value under `key` of a table.
pub open spec fn doc_get(d: TomlDoc, key: Seq<char>) -> Option<TomlDoc> {
    match d {
        TomlDoc::Table(t) => match find_key(t, key) {
            Some(i) => Some(t[i].1),
            None => None,
        },
        _ => None,
    }
}

/// The value reached from `d` by following the keys `segs` through tables.
pub open spec fn doc_lookup(d: TomlDoc, segs: Seq<Seq<char>>) -> Option<TomlDoc>
    decreases segs.len(),
{
    if segs.len() == 0 {
        Some(d)
    } else {
        match doc_get(d, segs[0]) {
            Some(c) => doc_lookup(c, segs.drop_first()),
            None => None,
        }
    }
}

/// The pieces of `p` between dots (`str::split('.')`).
pub open spec fn split_dots(p: Seq<char>) -> Seq<Seq<char>>
    decreases p.len(),
{
    if p.len() == 0 {
        seq![Seq::empty()]
    } else {
        let parts = split_dots(p.drop_last());
        if p.last() == '.' {
            parts.push(Seq::empty())
        } else {
            parts.update(parts.len() - 1, parts.last().push(p.last()))
        }
    }
}

proof fn lemma_split_dots_nonempty(p: Seq<char>)
    ensures
        split_dots(p).len() >= 1,
    decreases p.len(),
{
    if p.len() > 0 {
        lemma_split_dots_nonempty(p.drop_last());
    }
}

/// A text without a `.` is a single piece.
proof fn lemma_split_dots_plain(p: Seq<char>)
    requires
        forall|i: int| 0 <= i < p.len() ==> p[i] != '.',
    ensures
        split_dots(p) == seq![p],
    decreases p.len(),
{
    if p.len() == 0 {
        assert(p =~= Seq::<char>::empty());
    } else {
        let q = p.drop_last();
        assert forall|i: int| 0 <= i < q.len() implies q[i] != '.' by {
            assert(q[i] == p[i]);
        }
        lemma_split_dots_plain(q);
        assert(q.push(p.last()) =~= p);
        assert(seq![q].update(0, q.push(p.last())) =~= seq![p]);
    }
}

/// Splitting `a.b` gives the pieces of `a` followed by those of `b`.
proof fn lemma_split_dots_join(a: Seq<char>, b: Seq<char>)
    ensures
        split_dots(a + seq!['.'] + b) == split_dots(a) + split_dots(b),
    decreases b.len(),
{
    let s = a + seq!['.'] + b;
    if b.len() == 0 {
        assert(s.drop_last() =~= a);
        assert(s.last() == '.');
        assert(split_dots(a).push(Seq::empty()) =~= split_dots(a) + split_dots(b));
    } else {
        let b0 = b.drop_last();
        assert(s.drop_last() =~= a + seq!['.'] + b0);
        assert(s.last() == b.last());
        lemma_split_dots_join(a, b0);
        lemma_split_dots_nonempty(b0);
        lemma_split_dots_nonempty(a);
        let pa = split_dots(a);
        let pb = split_dots(b0);
        if b.last() == '.' {
            assert((pa + pb).push(Seq::empty()) =~= pa + pb.push(Seq::empty()));
        } else {
            assert((pa + pb).update((pa + pb).len() - 1, (pa + pb).last().push(b.last()))
                =~= pa + pb.update(pb.len() - 1, pb.last().push(b.last())));
        }
    }
}

/// The path `key.field` of a theme document, for a key and a field without
/// a `.`, names the field inside the key's table.
proof fn lemma_column_path(key: Seq<char>, f: Seq<char>)
    requires
        forall|i: int| 0 <= i < key.len() ==> key[i] != '.',
        forall|i: int| 0 <= i < f.len() ==> f[i] != '.',
    ensures
        split_dots(key + "."@ + f) == seq![key, f],
{
    reveal_strlit(".");
    assert("."@ =~= seq!['.']);
    lemma_split_dots_join(key, f);
    lemma_split_dots_plain(key);
    lemma_split_dots_plain(f);
    assert(seq![key] + seq![f] =~= seq![key, f]);
}

/// The colour of a column's part by the part's name in the theme file.
pub open spec fn column_field(c: ColumnTheme, f: Seq<char>) -> Option<Seq<char>> {
    if f == "border"@ {
        Some(c.border@)
    } else if f == "header"@ {
        Some(c.header@)
    } else if f == "dir"@ {
        Some(c.dir@)
    } else if f == "file"@ {
        Some(c.file@)
    } else if f == "symlink"@ {
        Some(c.symlink@)
    } else if f == "executable"@ {
        Some(c.executable@)
    } else if f == "hidden"@ {
        Some(c.hidden@)
    } else if f == "focused_bg"@ {
        Some(c.focused_bg@)
    } else if f == "focused_fg"@ {
        Some(c.focused_fg@)
    } else if f == "selected_bg"@ {
        Some(c.selected_bg@)
    } else if f == "selected_fg"@ {
        Some(c.selected_fg@)
    } else if f == "scrollbar"@ {
        Some(c.scrollbar@)
    } else {
        None
    }
}

/// The document sets the colour at `section.field` to the plain colour `x`
/// (a text that is not a `$` reference).
pub open spec fn plain_colour_at(d: TomlDoc, section: Seq<char>, field: Seq<char>, x: Seq<char>) -> bool {
    &&& doc_lookup(d, seq![section, field]) == Some(TomlDoc::String(x))
    &&& !(x.len() > 0 && x[0] == '$')
}

pub open spec fn is_column_part(f: Seq<char>) -> bool {
    f == "border"@ || f == "header"@ || f == "dir"@ || f == "file"@ || f == "symlink"@ || f == "executable"@ || f == "hidden"@ || f == "focused_bg"@ || f == "focused_fg"@ || f == "selected_bg"@ || f == "selected_fg"@ || f == "scrollbar"@
}

proof fn lemma_part_name_plain(f: Seq<char>)
    requires
        is_column_part(f),
    ensures
        forall|i: int| 0 <= i < f.len() ==> f[i] != '.',
{
    if f == "border"@ {
        reveal_strlit("border");
        assert forall|i: int| 0 <= i < f.len() implies f[i] != '.' by {}
    } else if f == "header"@ {
        reveal_strlit("header");
        assert forall|i: int| 0 <= i < f.len() implies f[i] != '.' by {}
    } else if f == "dir"@ {
        reveal_strlit("dir");
        assert forall|i: int| 0 <= i < f.len() implies f[i] != '.' by {}
    } else if f == "file"@ {
        reveal_strlit("file");
        assert forall|i: int| 0 <= i < f.len() implies f[i] != '.' by {}
    } else if f == "symlink"@ {
        reveal_strlit("symlink");
        assert forall|i: int| 0 <= i < f.len() implies f[i] != '.' by {}
    } else if f == "executable"@ {
        reveal_strlit("executable");
        assert forall|i: int| 0 <= i < f.len() implies f[i] != '.' by {}
    } else if f == "hidden"@ {
        reveal_strlit("hidden");
        assert forall|i: int| 0 <= i < f.len() implies f[i] != '.' by {}
    } else if f == "focused_bg"@ {
        reveal_strlit("focused_bg");
        assert forall|i: int| 0 <= i < f.len() implies f[i] != '.' by {}
    } else if f == "focused_fg"@ {
        reveal_strlit("focused_fg");
        assert forall|i: int| 0 <= i < f.len() implies f[i] != '.' by {}
    } else if f == "selected_bg"@ {
        reveal_strlit("selected_bg");
        assert forall|i: int| 0 <= i < f.len() implies f[i] != '.' by {}
    } else if f == "selected_fg"@ {
        reveal_strlit("selected_fg");
        assert forall|i: int| 0 <= i < f.len() implies f[i] != '.' by {}
    } else if f == "scrollbar"@ {
        reveal_strlit("scrollbar");
        assert forall|i: int| 0 <= i < f.len() implies f[i] != '.' by {}
    }
}

proof fn lemma_column_key_plain(key: Seq<char>)
    requires
        key == "col_1"@ || key == "col_2"@ || key == "col_3"@ || key == "col_4"@,
    ensures
        forall|i: int| 0 <= i < key.len() ==> key[i] != '.',
{
    if key == "col_1"@ {
        reveal_strlit("col_1");
        assert forall|i: int| 0 <= i < key.len() implies key[i] != '.' by {}
    }
    if key == "col_2"@ {
        reveal_strlit("col_2");
        assert forall|i: int| 0 <= i < key.len() implies key[i] != '.' by {}
    }
    if key == "col_3"@ {
        reveal_strlit("col_3");
        assert forall|i: int| 0 <= i < key.len() implies key[i] != '.' by {}
    }
    if key == "col_4"@ {
        reveal_strlit("col_4");
        assert forall|i: int| 0 <= i < key.len() implies key[i] != '.' by {}
    }
}

proof fn lemma_one_column(c: ColumnTheme, d: TomlDoc, key: Seq<char>, f: Seq<char>, x: Seq<char>)
    requires
        column_matches(c, d, vars_of(d), key),
        key == "col_1"@ || key == "col_2"@ || key == "col_3"@ || key == "col_4"@,
        is_column_part(f),
    ensures
        plain_colour_at(d, key, f, x) ==> column_field(c, f) == Some(x),
{
    lemma_part_name_plain(f);
    lemma_column_key_plain(key);
    lemma_column_path(key, f);
}

/// Each part of each column takes its colour from its own key: where the
/// theme document sets `col_N.part` to a plain colour, the theme's column
/// `N` has that colour for that part.
pub proof fn lemma_column_colours_from_their_keys(t: Theme, d: TomlDoc, f: Seq<char>, x: Seq<char>)
    requires
        theme_matches(t, d),
        is_column_part(f),
    ensures
        column_field(t.col_1, f) is Some,
        plain_colour_at(d, "col_1"@, f, x) ==> column_field(t.col_1, f) == Some(x),
        plain_colour_at(d, "col_2"@, f, x) ==> column_field(t.col_2, f) == Some(x),
        plain_colour_at(d, "col_3"@, f, x) ==> column_field(t.col_3, f) == Some(x),
        plain_colour_at(d, "col_4"@, f, x) ==> column_field(t.col_4, f) == Some(x),
{
    lemma_one_column(t.col_1, d, "col_1"@, f, x);
    lemma_one_column(t.col_2, d, "col_2"@, f, x);
    lemma_one_column(t.col_3, d, "col_3"@, f, x);
    lemma_one_column(t.col_4, d, "col_4"@, f, x);
}

pub open spec fn strings_view(v: Seq<String>) -> Seq<Seq<char>> {
    Seq::new(v.len(), |i: int| v[i]@)
}

/// The pieces of a dotted path.
pub fn split_path(p: &str) -> (r: Vec<String>)
    ensures
        strings_view(r@) == split_dots(p@),
{
    let cs = chars_of(p);
    let mut done: Vec<String> = Vec::new();
    let mut cur = String::new();
    let mut i: usize = 0;
    assert(p@.take(0) =~= Seq::<char>::empty());
    assert(strings_view(done@).push(cur@) =~= split_dots(p@.take(0)));
    while i < cs.len()
        invariant
            cs@ == p@,
            i <= cs@.len(),
            strings_view(done@).push(cur@) == split_dots(p@.take(i as int)),
        decreases cs@.len() - i,
    {
        let c = cs[i];
        let ghost before = split_dots(p@.take(i as int));
        assert(p@.take(i + 1).drop_last() =~= p@.take(i as int));
        if c == '.' {
            let finished = cur;
            done.push(finished);
            cur = String::new();
            assert(strings_view(done@).push(cur@) =~= before.push(Seq::empty()));
        } else {
            push_char(&mut cur, c);
            assert(strings_view(done@).push(cur@) =~= before.update(before.len() - 1, before.last().push(c)));
        }
        i += 1;
    }
    assert(p@.take(cs@.len() as int) =~= p@);
    done.push(cur);
    assert(strings_view(done@) =~= split_dots(p@));
    done
}

/// The value at a dotted path of a document (`toml::Value::get` key by key).
pub fn lookup<'a>(value: &'a TomlValue, path: &str) -> (r: Option<&'a TomlValue>)
    ensures
        match r {
            Some(v) => doc_lookup(doc_of(*value), split_dots(path@)) == Some(doc_of(*v)),
            None => doc_lookup(doc_of(*value), split_dots(path@)) is None,
        },
{
    let segs = split_path(path);
    let ghost sv = split_dots(path@);
    let mut cur = value;
    let mut i: usize = 0;
    assert(sv.skip(0) =~= sv);
    while i < segs.len()
        invariant
            strings_view(segs@) == sv,
            sv == split_dots(path@),
            i <= segs@.len(),
            doc_lookup(doc_of(*value), sv) == doc_lookup(doc_of(*cur), sv.skip(i as int)),
        decreases segs@.len() - i,
    {
        assert(sv.skip(i as int).drop_first() =~= sv.skip(i + 1));
        assert(sv.skip(i as int)[0] == segs@[i as int]@);
        match cur {
            TomlValue::Table(t) => {
                proof {
                    lemma_entry_docs_of(t@);
                }
                match find_entry(t, segs[i].as_str()) {
                    Some(k) => {
                        proof {
                            lemma_find_key(entry_docs_of(t@), segs@[i as int]@);
                        }
                        cur = &t[k].1;
                    },
                    None => {
                        return None;
                    },
                }
            },
            _ => {
                return None;
            },
        }
        i += 1;
    }
    assert(sv.skip(segs@.len() as int).len() == 0);
    Some(cur)
}

/// The entries of a table whose values are strings, as pairs of texts.
pub open spec fn string_entries(t: DocEntries) -> Seq<(Seq<char>, Seq<char>)>
    decreases t.len(),
{
    if t.len() == 0 {
        Seq::empty()
    } else {
        let rest = string_entries(t.drop_last());
        match t.last().1 {
            TomlDoc::String(s) => rest.push((t.last().0, s)),
            _ => rest,
        }
    }
}

/// The variables of a theme: the string entries of its `vars` table.
pub open spec fn vars_of(d: TomlDoc) -> Seq<(Seq<char>, Seq<char>)> {
    match doc_get(d, "vars"@) {
        Some(TomlDoc::Table(t)) => string_entries(t),
        _ => Seq::empty(),
    }
}

pub open spec fn pairs_view(v: Seq<(String, String)>) -> Seq<(Seq<char>, Seq<char>)> {
    Seq::new(v.len(), |i: int| (v[i].0@, v[i].1@))
}

/// The variables that a theme document declares in its `vars` table.
pub fn vars_table(value: &TomlValue) -> (r: Vec<(String, String)>)
    ensures
        pairs_view(r@) == vars_of(doc_of(*value)),
{
    let mut out: Vec<(String, String)> = Vec::new();
    let found: Option<&TomlValue> = match value {
        TomlValue::Table(rt) => {
            proof {
                lemma_entry_docs_of(rt@);
                lemma_find_key(entry_docs_of(rt@), "vars"@);
            }
            match find_entry(rt, "vars") {
                Some(k) => Some(&rt[k].1),
                None => None,
            }
        },
        _ => None,
    };
    assert(match found {
        Some(v) => doc_get(doc_of(*value), "vars"@) == Some(doc_of(*v)),
        None => doc_get(doc_of(*value), "vars"@) is None,
    });
    if let Some(TomlValue::Table(t)) = found {
        let ghost td = entry_docs_of(t@);
        proof {
            lemma_entry_docs_of(t@);
        }
        let mut i: usize = 0;
        assert(td.take(0) =~= Seq::<(Seq<char>, TomlDoc)>::empty());
        while i < t.len()
            invariant
                td == entry_docs_of(t@),
                td.len() == t@.len(),
                forall|j: int| 0 <= j < t@.len() ==> #[trigger] td[j] == (t@[j].0@, doc_of(t@[j].1)),
                i <= t@.len(),
                pairs_view(out@) == string_entries(td.take(i as int)),
            decreases t@.len() - i,
        {
            assert(td.take(i + 1).drop_last() =~= td.take(i as int));
            assert(td.take(i + 1).last() == td[i as int]);
            if let TomlValue::String(s) = &t[i].1 {
                out.push((t[i].0.clone(), s.clone()));
                assert(pairs_view(out@) =~= string_entries(td.take(i as int)).push((t@[i as int].0@, s@)));
            }
            i += 1;
        }
        assert(td.take(t@.len() as int) =~= td);
    } else {
        assert(pairs_view(out@) =~= vars_of(doc_of(*value)));
    }
    out
}

/// The value of a variable: the first entry with that name.
pub open spec fn var_value(vars: Seq<(Seq<char>, Seq<char>)>, name: Seq<char>) -> Option<Seq<char>>
    decreases vars.len(),
{
    if vars.len() == 0 {
        None
    } else {
        match var_value(vars.drop_last(), name) {
            Some(v) => Some(v),
            None => if vars.last().0 == name {
                Some(vars.last().1)
            } else {
                None
            },
        }
    }
}

/// A variable followed through `$name` references, at most nine deep; the
/// fallback where a name is missing or the chain is too deep.
pub open spec fn resolved_var(
    name: Seq<char>,
    vars: Seq<(Seq<char>, Seq<char>)>,
    fallback: Seq<char>,
    depth: int,
) -> Seq<char>
    decreases 9 - depth,
{
    if depth > 8 || depth < 0 {
        fallback
    } else {
        match var_value(vars, name) {
            None => fallback,
            Some(v) => if v.len() > 0 && v[0] == '$' {
                resolved_var(v.drop_first(), vars, fallback, depth + 1)
            } else {
                v
            },
        }
    }
}

/// The colour that a theme document gives at a path: the string there, with a
/// `$name` reference resolved through the variables, or the fallback.
pub open spec fn theme_color(
    d: TomlDoc,
    vars: Seq<(Seq<char>, Seq<char>)>,
    path: Seq<char>,
    fallback: Seq<char>,
) -> Seq<char> {
    match doc_lookup(d, split_dots(path)) {
        Some(TomlDoc::String(raw)) => if raw.len() > 0 && raw[0] == '$' {
            resolved_var(raw.drop_first(), vars, fallback, 0)
        } else {
            raw
        },
        _ => fallback,
    }
}

fn find_var(vars: &Vec<(String, String)>, name: &str) -> (r: Option<usize>)
    ensures
        match r {
            Some(i) => i < vars@.len() && var_value(pairs_view(vars@), name@) == Some(vars@[i as int].1@),
            None => var_value(pairs_view(vars@), name@) is None,
        },
{
    let ghost pv = pairs_view(vars@);
    let mut i: usize = 0;
    assert(pv.take(0) =~= Seq::<(Seq<char>, Seq<char>)>::empty());
    while i < vars.len()
        invariant
            pv == pairs_view(vars@),
            i <= vars@.len(),
            var_value(pv.take(i as int), name@) is None,
        decreases vars@.len() - i,
    {
        assert(pv.take(i + 1).drop_last() =~= pv.take(i as int));
        if str_eq(vars[i].0.as_str(), name) {
            proof {
                lemma_var_value_prefix(pv, name@, i as int + 1);
            }
            return Some(i);
        }
        i += 1;
    }
    assert(pv.take(vars@.len() as int) =~= pv);
    None
}

/// Once a name is found in a prefix, longer prefixes find the same value.
proof fn lemma_var_value_prefix(vars: Seq<(Seq<char>, Seq<char>)>, name: Seq<char>, n: int)
    requires
        0 <= n <= vars.len(),
        var_value(vars.take(n), name) is Some,
    ensures
        var_value(vars, name) == var_value(vars.take(n), name),
    decreases vars.len() - n,
{
    if n < vars.len() {
        assert(vars.take(n + 1).drop_last() =~= vars.take(n));
        lemma_var_value_prefix(vars, name, n + 1);
    } else {
        assert(vars.take(n) =~= vars);
    }
}

/// Follows `$name` references through the variables (see `resolved_var`).
pub fn resolve_var(name: &str, vars: &Vec<(String, String)>, fallback: &str, depth: usize) -> (r: String)
    ensures
        r@ == resolved_var(name@, pairs_view(vars@), fallback@, depth as int),
    decreases 9 - depth,
{
    if depth > 8 {
        return fallback.to_owned();
    }
    let Some(i) = find_var(vars, name) else {
        return fallback.to_owned();
    };
    let value = vars[i].1.as_str();
    let cs = chars_of(value);
    if cs.len() > 0 && cs[0] == '$' {
        let next = crate::text::string_from_range(cs.as_slice(), 1, cs.len());
        assert(next@ =~= value@.drop_first());
        return resolve_var(next.as_str(), vars, fallback, depth + 1);
    }
    value.to_owned()
}

/// The colour at a path of a theme document (see `theme_color`).
pub fn resolve_color(value: &TomlValue, vars: &Vec<(String, String)>, path: &str, fallback: &str) -> (r: String)
    ensures
        r@ == theme_color(doc_of(*value), pairs_view(vars@), path@, fallback@),
{
    let Some(TomlValue::String(raw)) = lookup(value, path) else {
        return fallback.to_owned();
    };
    let cs = chars_of(raw.as_str());
    if cs.len() > 0 && cs[0] == '$' {
        let name = crate::text::string_from_range(cs.as_slice(), 1, cs.len());
        assert(name@ =~= raw@.drop_first());
        return resolve_var(name.as_str(), vars, fallback, 0);
    }
    raw.clone()
}

/// A resolved colour is never a `$name` reference, unless the fallback is one.
pub proof fn lemma_resolved_var_is_plain(
    name: Seq<char>,
    vars: Seq<(Seq<char>, Seq<char>)>,
    fallback: Seq<char>,
    depth: int,
)
    ensures
        resolved_var(name, vars, fallback, depth) == fallback || ({
            let r = resolved_var(name, vars, fallback, depth);
            !(r.len() > 0 && r[0] == '$')
        }),
    decreases 9 - depth,
{
    if 0 <= depth <= 8 {
        match var_value(vars, name) {
            Some(v) => if v.len() > 0 && v[0] == '$' {
                lemma_resolved_var_is_plain(v.drop_first(), vars, fallback, depth + 1);
            },
            None => {},
        }
    }
}

} // verus!
