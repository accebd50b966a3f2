//! The settings of the single-window program: defaults, per-profile
//! overrides and the effective settings they merge into.
use vstd::prelude::*;

use crate::paths::{normalize_start_dir, start_dir_of};
use crate::text::str_eq;
use crate::toml_bridge::{parse_toml, render_toml_pretty, toml_parse, toml_pretty};
use crate::toml_doc::{deep_copy, doc_of, heal_doc, heal_value, strip_color_blocks, strip_doc, TomlDoc, TomlValue};

verus! {

/// Which panels are shown.
#[derive(Debug, Clone, Copy, PartialEq, Eq, Structural)]
pub struct Panels {
    pub sidebar: bool,
    pub columns: bool,
    pub preview: bool,
    pub search_bar: bool,
    pub status_bar: bool,
    pub keymap_bar: bool,
}

/// A profile's changes to the shown panels.
#[derive(Debug, Clone, Copy, PartialEq, Eq, Structural)]
pub struct PanelOverrides {
    pub sidebar: Option<bool>,
    pub columns: Option<bool>,
    pub preview: Option<bool>,
    pub search_bar: Option<bool>,
    pub status_bar: Option<bool>,
    pub keymap_bar: Option<bool>,
}

/// The relative widths of the sidebar, the directory columns and the preview.
#[derive(Debug, Clone, Copy, PartialEq, Eq, Structural)]
pub struct PanelSizes {
    pub sidebar: u16,
    pub dir: u16,
    pub preview: u16,
}

/// A profile's changes to the panel widths.
#[derive(Debug, Clone, Copy, PartialEq, Eq, Structural)]
pub struct PanelSizesOverrides {
    pub sidebar: Option<u16>,
    pub dir: Option<u16>,
    pub preview: Option<u16>,
}

#[derive(Debug, Clone, Copy, PartialEq, Eq, Structural)]
pub struct MillerSettings {
    pub max_columns: usize,
}

#[derive(Debug, Clone, Copy, PartialEq, Eq, Structural)]
pub struct MillerSettingsOverrides {
    pub max_columns: Option<usize>,
}

#[derive(Debug)]
pub struct SearchSettings {
    pub ignored_dirs: Vec<String>,
    pub max_depth: usize,
}

#[derive(Debug)]
pub struct SearchOverrides {
    pub ignored_dirs: Option<Vec<String>>,
    pub max_depth: Option<usize>,
}

/// The colours of the interface, by colour name.
#[derive(Debug)]
pub struct UiColors {
    pub background: String,
    pub foreground: String,
    pub accent: String,
    pub status_bar: String,
    pub keymap_bar: String,
    pub search_bar: String,
    pub selection_bg: String,
    pub selection_fg: String,
}

/// Commands to run on events.
#[derive(Debug)]
pub struct Hooks {
    pub on_open: Option<String>,
    pub on_select: Option<String>,
    pub on_rename: Option<String>,
    pub on_delete: Option<String>,
}

#[derive(Debug)]
pub struct Bookmark {
    pub name: String,
    pub path: String,
}

/// A named set of changes to the default settings.
#[derive(Debug)]
pub struct Profile {
    pub name: String,
    pub theme: Option<String>,
    pub show_hidden: Option<bool>,
    pub sort: Option<String>,
    pub start_dir: Option<String>,
    pub top_bar_height: Option<u16>,
    pub features: Option<Vec<String>>,
    pub panel_sizes: Option<PanelSizesOverrides>,
    pub miller: Option<MillerSettingsOverrides>,
    pub search: Option<SearchOverrides>,
    pub panels: Option<PanelOverrides>,
    pub hooks: Option<Hooks>,
}

/// The default settings.
#[derive(Debug)]
pub struct Settings {
    pub theme: String,
    pub show_hidden: bool,
    pub sort: String,
    pub start_dir: String,
    pub top_bar_height: u16,
    pub features: Vec<String>,
    pub panel_sizes: PanelSizes,
    pub miller: MillerSettings,
    pub search: SearchSettings,
    pub panels: Panels,
    pub hooks: Hooks,
}

/// The settings in force: the defaults with a profile's changes.
#[derive(Debug)]
pub struct EffectiveSettings {
    pub theme: String,
    pub show_hidden: bool,
    pub sort: String,
    pub start_dir: String,
    pub top_bar_height: u16,
    pub features: Vec<String>,
    pub ui_colors: UiColors,
    pub panel_sizes: PanelSizes,
    pub miller: MillerSettings,
    pub search: SearchSettings,
    pub panels: Panels,
    pub hooks: Hooks,
}

/// The colour themes by name, in the order they were found.
#[derive(Debug)]
pub struct ThemeRegistry {
    pub by_name: Vec<(String, UiColors)>,
}

/// The whole configuration.
#[derive(Debug)]
pub struct AppConfig {
    pub defaults: Settings,
    pub profiles: Vec<Profile>,
    pub bookmarks: Vec<Bookmark>,
    pub themes: ThemeRegistry,
}

pub fn copy_strings(v: &Vec<String>) -> (r: Vec<String>)
    ensures
        r@ == v@,
{
    let r = v.clone();
    assert(r@ =~= v@);
    r
}

fn copy_opt_string(o: &Option<String>) -> (r: Option<String>)
    ensures
        r == *o,
{
    match o {
        Some(s) => Some(s.clone()),
        None => None,
    }
}

impl UiColors {
    pub fn copy(&self) -> (r: UiColors)
        ensures
            r == *self,
    {
        UiColors {
            background: self.background.clone(),
            foreground: self.foreground.clone(),
            accent: self.accent.clone(),
            status_bar: self.status_bar.clone(),
            keymap_bar: self.keymap_bar.clone(),
            search_bar: self.search_bar.clone(),
            selection_bg: self.selection_bg.clone(),
            selection_fg: self.selection_fg.clone(),
        }
    }
}

impl Hooks {
    pub fn copy(&self) -> (r: Hooks)
        ensures
            r == *self,
    {
        Hooks {
            on_open: copy_opt_string(&self.on_open),
            on_select: copy_opt_string(&self.on_select),
            on_rename: copy_opt_string(&self.on_rename),
            on_delete: copy_opt_string(&self.on_delete),
        }
    }
}

impl SearchSettings {
    pub fn copy(&self) -> (r: SearchSettings)
        ensures
            r.ignored_dirs@ == self.ignored_dirs@,
            r.max_depth == self.max_depth,
    {
        SearchSettings { ignored_dirs: copy_strings(&self.ignored_dirs), max_depth: self.max_depth }
    }
}

pub fn default_true() -> (r: bool)
    ensures
        r,
{
    true
}

pub fn default_panels() -> (r: Panels)
    ensures
        r == (Panels {
            sidebar: true,
            columns: true,
            preview: true,
            search_bar: true,
            status_bar: true,
            keymap_bar: true,
        }),
{
    Panels { sidebar: true, columns: true, preview: true, search_bar: true, status_bar: true, keymap_bar: true }
}

pub fn default_size_sidebar() -> (r: u16)
    ensures
        r == 1,
{
    1
}

pub fn default_size_dir() -> (r: u16)
    ensures
        r == 4,
{
    4
}

pub fn default_size_preview() -> (r: u16)
    ensures
        r == 1,
{
    1
}

pub fn default_top_bar_height() -> (r: u16)
    ensures
        r == 3,
{
    3
}

pub fn default_max_columns() -> (r: usize)
    ensures
        r == 3,
{
    3
}

pub fn default_search_max_depth() -> (r: usize)
    ensures
        r == 6,
{
    6
}

pub fn default_panel_sizes() -> (r: PanelSizes)
    ensures
        r == (PanelSizes { sidebar: 1, dir: 4, preview: 1 }),
{
    PanelSizes { sidebar: default_size_sidebar(), dir: default_size_dir(), preview: default_size_preview() }
}

pub fn default_miller() -> (r: MillerSettings)
    ensures
        r.max_columns == 3,
{
    MillerSettings { max_columns: default_max_columns() }
}

pub fn default_search() -> (r: SearchSettings)
    ensures
        r.ignored_dirs@.len() == 2,
        r.ignored_dirs@[0]@ == ".git"@,
        r.ignored_dirs@[1]@ == "node_modules"@,
        r.max_depth == 6,
{
    SearchSettings {
        ignored_dirs: vec![".git".to_owned(), "node_modules".to_owned()],
        max_depth: default_search_max_depth(),
    }
}

pub fn default_color_bg() -> (r: String)
    ensures
        r@ == "black"@,
{
    "black".to_owned()
}

pub fn default_color_fg() -> (r: String)
    ensures
        r@ == "white"@,
{
    "white".to_owned()
}

pub fn default_color_accent() -> (r: String)
    ensures
        r@ == "gray"@,
{
    "gray".to_owned()
}

pub fn default_color_status() -> (r: String)
    ensures
        r@ == "white"@,
{
    "white".to_owned()
}

pub fn default_color_keymap() -> (r: String)
    ensures
        r@ == "gray"@,
{
    "gray".to_owned()
}

pub fn default_color_search() -> (r: String)
    ensures
        r@ == "white"@,
{
    "white".to_owned()
}

pub fn default_color_selection_bg() -> (r: String)
    ensures
        r@ == "white"@,
{
    "white".to_owned()
}

pub fn default_color_selection_fg() -> (r: String)
    ensures
        r@ == "black"@,
{
    "black".to_owned()
}

pub open spec fn is_default_ui_colors(c: UiColors) -> bool {
    c.background@ == "black"@ && c.foreground@ == "white"@ && c.accent@ == "gray"@
        && c.status_bar@ == "white"@ && c.keymap_bar@ == "gray"@ && c.search_bar@ == "white"@
        && c.selection_bg@ == "white"@ && c.selection_fg@ == "black"@
}

pub fn default_ui_colors() -> (r: UiColors)
    ensures
        is_default_ui_colors(r),
{
    UiColors {
        background: default_color_bg(),
        foreground: default_color_fg(),
        accent: default_color_accent(),
        status_bar: default_color_status(),
        keymap_bar: default_color_keymap(),
        search_bar: default_color_search(),
        selection_bg: default_color_selection_bg(),
        selection_fg: default_color_selection_fg(),
    }
}

pub open spec fn or_else<T>(o: Option<T>, d: T) -> T {
    match o {
        Some(x) => x,
        None => d,
    }
}

pub open spec fn merged_panels(base: Panels, o: Option<PanelOverrides>) -> Panels {
    match o {
        None => base,
        Some(o) => Panels {
            sidebar: or_else(o.sidebar, base.sidebar),
            columns: or_else(o.columns, base.columns),
            preview: or_else(o.preview, base.preview),
            search_bar: or_else(o.search_bar, base.search_bar),
            status_bar: or_else(o.status_bar, base.status_bar),
            keymap_bar: or_else(o.keymap_bar, base.keymap_bar),
        },
    }
}

/// The panels with a profile's changes: each given value replaces the default.
pub fn merge_panels(base: &Panels, overrides: Option<&PanelOverrides>) -> (r: Panels)
    ensures
        r == merged_panels(*base, match overrides { Some(o) => Some(*o), None => None }),
{
    let Some(o) = overrides else {
        return *base;
    };
    Panels {
        sidebar: match o.sidebar { Some(v) => v, None => base.sidebar },
        columns: match o.columns { Some(v) => v, None => base.columns },
        preview: match o.preview { Some(v) => v, None => base.preview },
        search_bar: match o.search_bar { Some(v) => v, None => base.search_bar },
        status_bar: match o.status_bar { Some(v) => v, None => base.status_bar },
        keymap_bar: match o.keymap_bar { Some(v) => v, None => base.keymap_bar },
    }
}

pub open spec fn merged_panel_sizes(base: PanelSizes, o: Option<PanelSizesOverrides>) -> PanelSizes {
    match o {
        None => base,
        Some(o) => PanelSizes {
            sidebar: or_else(o.sidebar, base.sidebar),
            dir: or_else(o.dir, base.dir),
            preview: or_else(o.preview, base.preview),
        },
    }
}

/// The panel widths with a profile's changes.
pub fn merge_panel_sizes(base: &PanelSizes, overrides: Option<&PanelSizesOverrides>) -> (r: PanelSizes)
    ensures
        r == merged_panel_sizes(*base, match overrides { Some(o) => Some(*o), None => None }),
{
    let Some(o) = overrides else {
        return *base;
    };
    PanelSizes {
        sidebar: match o.sidebar { Some(v) => v, None => base.sidebar },
        dir: match o.dir { Some(v) => v, None => base.dir },
        preview: match o.preview { Some(v) => v, None => base.preview },
    }
}

/// A profile's panel widths win: each width it sets replaces the default,
/// each it leaves out keeps the default, and a profile without widths
/// changes none.
pub proof fn lemma_profile_panel_sizes_win(base: PanelSizes, o: PanelSizesOverrides)
    ensures
        merged_panel_sizes(base, None) == base,
        o.sidebar matches Some(v) ==> merged_panel_sizes(base, Some(o)).sidebar == v,
        o.dir matches Some(v) ==> merged_panel_sizes(base, Some(o)).dir == v,
        o.preview matches Some(v) ==> merged_panel_sizes(base, Some(o)).preview == v,
        o.sidebar is None ==> merged_panel_sizes(base, Some(o)).sidebar == base.sidebar,
        o.dir is None ==> merged_panel_sizes(base, Some(o)).dir == base.dir,
        o.preview is None ==> merged_panel_sizes(base, Some(o)).preview == base.preview,
{
}

/// A profile's panel switches win in the same way: each it sets replaces
/// the default, each it leaves out keeps it.
pub proof fn lemma_profile_panels_win(base: Panels, o: PanelOverrides)
    ensures
        merged_panels(base, None) == base,
        o.sidebar matches Some(v) ==> merged_panels(base, Some(o)).sidebar == v,
        o.columns matches Some(v) ==> merged_panels(base, Some(o)).columns == v,
        o.preview matches Some(v) ==> merged_panels(base, Some(o)).preview == v,
        o.search_bar matches Some(v) ==> merged_panels(base, Some(o)).search_bar == v,
        o.status_bar matches Some(v) ==> merged_panels(base, Some(o)).status_bar == v,
        o.keymap_bar matches Some(v) ==> merged_panels(base, Some(o)).keymap_bar == v,
        o.sidebar is None ==> merged_panels(base, Some(o)).sidebar == base.sidebar,
        o.columns is None ==> merged_panels(base, Some(o)).columns == base.columns,
        o.preview is None ==> merged_panels(base, Some(o)).preview == base.preview,
        o.search_bar is None ==> merged_panels(base, Some(o)).search_bar == base.search_bar,
        o.status_bar is None ==> merged_panels(base, Some(o)).status_bar == base.status_bar,
        o.keymap_bar is None ==> merged_panels(base, Some(o)).keymap_bar == base.keymap_bar,
{
}

/// A profile's column count wins where it is at least one (a zero counts as
/// one); without one the default stays.
pub proof fn lemma_profile_columns_win(base: MillerSettings, o: MillerSettingsOverrides)
    ensures
        merged_max_columns(base, None) == base.max_columns,
        o.max_columns matches Some(v) ==> merged_max_columns(base, Some(o)) == if v >= 1 { v } else { 1 },
{
}

pub open spec fn merged_max_columns(base: MillerSettings, o: Option<MillerSettingsOverrides>) -> usize {
    match o {
        None => base.max_columns,
        Some(o) => {
            let v = or_else(o.max_columns, base.max_columns);
            if v < 1 { 1 } else { v }
        },
    }
}

/// The column settings with a profile's changes; a changed column count is
/// at least one.
pub fn merge_miller(base: &MillerSettings, overrides: Option<&MillerSettingsOverrides>) -> (r: MillerSettings)
    ensures
        r.max_columns == merged_max_columns(*base, match overrides { Some(o) => Some(*o), None => None }),
{
    let Some(o) = overrides else {
        return *base;
    };
    let v = match o.max_columns { Some(v) => v, None => base.max_columns };
    MillerSettings { max_columns: if v < 1 { 1 } else { v } }
}

/// The search settings with a profile's changes; a changed depth is at least one.
pub fn merge_search(base: &SearchSettings, overrides: Option<&SearchOverrides>) -> (r: SearchSettings)
    ensures
        match overrides {
            None => r.ignored_dirs@ == base.ignored_dirs@ && r.max_depth == base.max_depth,
            Some(o) => {
                &&& r.ignored_dirs@ == match o.ignored_dirs {
                    Some(d) => d@,
                    None => base.ignored_dirs@,
                }
                &&& r.max_depth == {
                    let v = or_else(o.max_depth, base.max_depth);
                    if v < 1 { 1 } else { v }
                }
            },
        },
{
    let Some(o) = overrides else {
        return base.copy();
    };
    let ignored_dirs = match &o.ignored_dirs {
        Some(d) => copy_strings(d),
        None => copy_strings(&base.ignored_dirs),
    };
    let v = match o.max_depth { Some(v) => v, None => base.max_depth };
    SearchSettings { ignored_dirs, max_depth: if v < 1 { 1 } else { v } }
}

/// The position of the first theme with that name.
pub open spec fn theme_index(reg: Seq<(String, UiColors)>, name: Seq<char>) -> Option<int>
    decreases reg.len(),
{
    if reg.len() == 0 {
        None
    } else {
        match theme_index(reg.drop_last(), name) {
            Some(i) => Some(i),
            None => if reg.last().0@ == name {
                Some(reg.len() - 1)
            } else {
                None
            },
        }
    }
}

proof fn lemma_theme_index(reg: Seq<(String, UiColors)>, name: Seq<char>)
    ensures
        match theme_index(reg, name) {
            Some(i) => 0 <= i < reg.len() && reg[i].0@ == name && forall|j: int| 0 <= j < i ==> (#[trigger] reg[j]).0@ != name,
            None => forall|j: int| 0 <= j < reg.len() ==> (#[trigger] reg[j]).0@ != name,
        },
    decreases reg.len(),
{
    if reg.len() > 0 {
        lemma_theme_index(reg.drop_last(), name);
        assert forall|j: int| 0 <= j < reg.len() - 1 implies reg.drop_last()[j] == reg[j] by {}
    }
}

impl ThemeRegistry {
    /// The colours of the named theme, if it is known.
    pub fn get(&self, name: &str) -> (r: Option<&UiColors>)
        ensures
            match theme_index(self.by_name@, name@) {
                Some(i) => r == Some(&self.by_name@[i].1),
                None => r is None,
            },
    {
        proof {
            lemma_theme_index(self.by_name@, name@);
        }
        let mut i: usize = 0;
        while i < self.by_name.len()
            invariant
                i <= self.by_name@.len(),
                forall|j: int| 0 <= j < i ==> (#[trigger] self.by_name@[j]).0@ != name@,
                match theme_index(self.by_name@, name@) {
                    Some(k) => 0 <= k < self.by_name@.len() && self.by_name@[k].0@ == name@ && forall|j: int| 0 <= j < k ==> (#[trigger] self.by_name@[j]).0@ != name@,
                    None => forall|j: int| 0 <= j < self.by_name@.len() ==> (#[trigger] self.by_name@[j]).0@ != name@,
                },
            decreases self.by_name@.len() - i,
        {
            if str_eq(self.by_name[i].0.as_str(), name) {
                assert(self.by_name@[i as int].0@ == name@);
                return Some(&self.by_name[i].1);
            }
            i += 1;
        }
        None
    }
}

pub open spec fn profile_theme(p: Option<&Profile>) -> Option<String> {
    match p { Some(p) => p.theme, None => None }
}

pub open spec fn profile_sort(p: Option<&Profile>) -> Option<String> {
    match p { Some(p) => p.sort, None => None }
}

pub open spec fn profile_start_dir(p: Option<&Profile>) -> Option<String> {
    match p { Some(p) => p.start_dir, None => None }
}

pub open spec fn profile_show_hidden(p: Option<&Profile>) -> Option<bool> {
    match p { Some(p) => p.show_hidden, None => None }
}

pub open spec fn profile_top_bar_height(p: Option<&Profile>) -> Option<u16> {
    match p { Some(p) => p.top_bar_height, None => None }
}

pub open spec fn profile_features(p: Option<&Profile>) -> Option<Vec<String>> {
    match p { Some(p) => p.features, None => None }
}

pub open spec fn profile_panel_sizes(p: Option<&Profile>) -> Option<PanelSizesOverrides> {
    match p { Some(p) => p.panel_sizes, None => None }
}

pub open spec fn profile_miller(p: Option<&Profile>) -> Option<MillerSettingsOverrides> {
    match p { Some(p) => p.miller, None => None }
}

pub open spec fn profile_panels(p: Option<&Profile>) -> Option<PanelOverrides> {
    match p { Some(p) => p.panels, None => None }
}

pub open spec fn profile_hooks(p: Option<&Profile>) -> Option<Hooks> {
    match p { Some(p) => p.hooks, None => None }
}

pub open spec fn text_or(o: Option<String>, d: String) -> Seq<char> {
    match o { Some(s) => s@, None => d@ }
}

impl Settings {
    /// The settings in force under a profile: every value the profile gives
    /// replaces the default, the bar height is at least one, the start
    /// directory is expanded, and the colours are those of the named theme
    /// (the built-in colours when the theme is unknown).
    pub fn merge_with_profile(&self, profile: Option<&Profile>, themes: &ThemeRegistry) -> (r: EffectiveSettings)
        ensures
            r.theme@ == text_or(profile_theme(profile), self.theme),
            r.show_hidden == or_else(profile_show_hidden(profile), self.show_hidden),
            r.sort@ == text_or(profile_sort(profile), self.sort),
            exists|home: Option<Seq<char>>| r.start_dir@ == start_dir_of(text_or(profile_start_dir(profile), self.start_dir), home),
            r.top_bar_height == {
                let h = or_else(profile_top_bar_height(profile), self.top_bar_height);
                if h < 1 { 1 } else { h }
            },
            r.features@ == match profile_features(profile) { Some(f) => f@, None => self.features@ },
            match theme_index(themes.by_name@, r.theme@) {
                Some(i) => r.ui_colors == themes.by_name@[i].1,
                None => is_default_ui_colors(r.ui_colors),
            },
            r.panel_sizes == merged_panel_sizes(self.panel_sizes, profile_panel_sizes(profile)),
            r.miller.max_columns == merged_max_columns(self.miller, profile_miller(profile)),
            r.search.ignored_dirs@ == match profile {
                Some(p) => match p.search {
                    Some(o) => match o.ignored_dirs { Some(d) => d@, None => self.search.ignored_dirs@ },
                    None => self.search.ignored_dirs@,
                },
                None => self.search.ignored_dirs@,
            },
            r.search.max_depth == match profile {
                Some(p) => match p.search {
                    Some(o) => {
                        let v = or_else(o.max_depth, self.search.max_depth);
                        if v < 1 { 1 } else { v }
                    },
                    None => self.search.max_depth,
                },
                None => self.search.max_depth,
            },
            r.panels == merged_panels(self.panels, profile_panels(profile)),
            r.hooks == or_else(profile_hooks(profile), self.hooks),
    {
        let theme = match profile {
            Some(p) => match &p.theme { Some(t) => t.clone(), None => self.theme.clone() },
            None => self.theme.clone(),
        };
        let show_hidden = match profile {
            Some(p) => match p.show_hidden { Some(v) => v, None => self.show_hidden },
            None => self.show_hidden,
        };
        let sort = match profile {
            Some(p) => match &p.sort { Some(t) => t.clone(), None => self.sort.clone() },
            None => self.sort.clone(),
        };
        let start_dir = match profile {
            Some(p) => match &p.start_dir { Some(t) => t.clone(), None => self.start_dir.clone() },
            None => self.start_dir.clone(),
        };
        let h = match profile {
            Some(p) => match p.top_bar_height { Some(v) => v, None => self.top_bar_height },
            None => self.top_bar_height,
        };
        let top_bar_height = if h < 1 { 1 } else { h };
        let features = match profile {
            Some(p) => match &p.features { Some(f) => copy_strings(f), None => copy_strings(&self.features) },
            None => copy_strings(&self.features),
        };
        let ui_colors = match themes.get(theme.as_str()) {
            Some(c) => c.copy(),
            None => default_ui_colors(),
        };
        let panel_sizes = merge_panel_sizes(
            &self.panel_sizes,
            match profile { Some(p) => match &p.panel_sizes { Some(o) => Some(o), None => None }, None => None },
        );
        let miller = merge_miller(
            &self.miller,
            match profile { Some(p) => match &p.miller { Some(o) => Some(o), None => None }, None => None },
        );
        let search = merge_search(
            &self.search,
            match profile { Some(p) => match &p.search { Some(o) => Some(o), None => None }, None => None },
        );
        let panels = merge_panels(
            &self.panels,
            match profile { Some(p) => match &p.panels { Some(o) => Some(o), None => None }, None => None },
        );
        let hooks = match profile {
            Some(p) => match &p.hooks { Some(hk) => hk.copy(), None => self.hooks.copy() },
            None => self.hooks.copy(),
        };
        let normalized = normalize_start_dir(start_dir.as_str());
        assert(start_dir@ == text_or(profile_start_dir(profile), self.start_dir));
        assert(exists|home: Option<Seq<char>>| normalized@ == start_dir_of(text_or(profile_start_dir(profile), self.start_dir), home));
        EffectiveSettings {
            theme,
            show_hidden,
            sort,
            start_dir: normalized,
            top_bar_height,
            features,
            ui_colors,
            panel_sizes,
            miller,
            search,
            panels,
            hooks,
        }
    }
}

/// The text of the configuration written on first start.
pub open spec fn default_config_text() -> Seq<char> {
    r#"[defaults]
theme = "dark"
show_hidden = false
sort = "name"
start_dir = "~"
top_bar_height = 3
features = ["preview", "git_status"]

[defaults.panel_sizes]
sidebar = 1
dir = 4
preview = 1

[defaults.miller]
max_columns = 3

[defaults.search]
ignored_dirs = [".git", "node_modules"]
max_depth = 6

[defaults.panels]
sidebar = true
columns = true
preview = true
search_bar = true
status_bar = true
keymap_bar = true

[[bookmarks]]
name = "home"
path = "~"

[[profiles]]
name = "dev"
theme = "bark-red"
show_hidden = true
start_dir = "~/projects"
features = ["preview", "git_status", "thumbnails"]

[profiles.panels]
preview = false

[profiles.panel_sizes]
dir = 5

[[profiles]]
name = "clean"
features = ["preview"]

[profiles.panels]
sidebar = true
keymap_bar = false

[profiles.panel_sizes]
preview = 2
"#@
}

/// The configuration written on first start.
pub fn default_config_contents() -> (r: &'static str)
    ensures
        r@ == default_config_text(),
{
    r#"[defaults]
theme = "dark"
show_hidden = false
sort = "name"
start_dir = "~"
top_bar_height = 3
features = ["preview", "git_status"]

[defaults.panel_sizes]
sidebar = 1
dir = 4
preview = 1

[defaults.miller]
max_columns = 3

[defaults.search]
ignored_dirs = [".git", "node_modules"]
max_depth = 6

[defaults.panels]
sidebar = true
columns = true
preview = true
search_bar = true
status_bar = true
keymap_bar = true

[[bookmarks]]
name = "home"
path = "~"

[[profiles]]
name = "dev"
theme = "bark-red"
show_hidden = true
start_dir = "~/projects"
features = ["preview", "git_status", "thumbnails"]

[profiles.panels]
preview = false

[profiles.panel_sizes]
dir = 5

[[profiles]]
name = "clean"
features = ["preview"]

[profiles.panels]
sidebar = true
keymap_bar = false

[profiles.panel_sizes]
preview = 2
"#
}

/// Why a configuration could not be brought into shape.
#[derive(Debug, Clone, Copy, PartialEq, Eq, Structural)]
pub enum ConfigLoadError {
    /// The built-in defaults do not read as TOML.
    DefaultsInvalid,
    /// The repaired document could not be written back as TOML.
    RenderFailed,
}

/// A configuration document brought into shape, with the text to write back
/// when it changed.
pub struct HealedConfig {
    pub document: TomlValue,
    pub rewrite: Option<String>,
}

/// The document that a configuration text becomes: read (the defaults where
/// it does not read), repaired against the defaults, colour blocks removed.
pub open spec fn healed_config(raw: Seq<char>, d: TomlDoc) -> TomlDoc {
    strip_doc(
        match toml_parse(raw) {
            Some(u) => heal_doc(u, d),
            None => d,
        },
    )
}

/// Whether bringing the text into shape changed it.
pub open spec fn config_changed(raw: Seq<char>, d: TomlDoc) -> bool {
    match toml_parse(raw) {
        Some(u) => heal_doc(u, d) != u || strip_doc(heal_doc(u, d)) != heal_doc(u, d),
        None => true,
    }
}

/// Brings a configuration text into shape: the text is read as TOML (the
/// defaults are taken where it does not read), every key that the defaults
/// hold and the text lacks is added, values of the wrong kind are replaced,
/// and the colour blocks that the settings no longer read are removed. When
/// anything changed, the repaired document is also rendered to be written
/// back.
pub fn heal_config_text(raw: &str) -> (r: Result<HealedConfig, ConfigLoadError>)
    ensures
        match toml_parse(default_config_text()) {
            None => r == Err::<HealedConfig, ConfigLoadError>(ConfigLoadError::DefaultsInvalid),
            Some(d) => {
                let fin = healed_config(raw@, d);
                match r {
                    Ok(h) => doc_of(h.document) == fin && if config_changed(raw@, d) {
                        h.rewrite matches Some(t) && toml_pretty(fin) == Some(t@)
                    } else {
                        h.rewrite is None
                    },
                    Err(e) => e == ConfigLoadError::RenderFailed && config_changed(raw@, d)
                        && toml_pretty(fin) is None,
                }
            },
        },
{
    let Some(default_value) = parse_toml(default_config_contents()) else {
        return Err(ConfigLoadError::DefaultsInvalid);
    };
    let (mut healed, mut changed) = match parse_toml(raw) {
        Some(mut user) => {
            let c = heal_value(&mut user, &default_value);
            (user, c)
        },
        None => (deep_copy(&default_value), true),
    };
    let ghost before_strip = doc_of(healed);
    if strip_color_blocks(&mut healed) {
        changed = true;
    }
    assert(changed == config_changed(raw@, doc_of(default_value)));
    if changed {
        match render_toml_pretty(&healed) {
            Some(text) => Ok(HealedConfig { document: healed, rewrite: Some(text) }),
            None => Err(ConfigLoadError::RenderFailed),
        }
    } else {
        Ok(HealedConfig { document: healed, rewrite: None })
    }
}

} // verus!
