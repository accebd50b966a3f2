//! The configuration of the multi-mode application: layout, navigation,
//! features, search, columns, preview, profiles and key bindings.
use vstd::prelude::*;

use crate::paths::{normalize_start_dir, start_dir_of};
use crate::settings::{copy_strings, Panels, PanelSizes, SearchSettings};
use crate::text::str_eq;
use crate::theme::{ColumnTheme, Theme};

verus! {

/// A bookmark, held in a numbered slot or named `slot-N`.
#[derive(Debug)]
pub struct Bookmark {
    pub slot: Option<u8>,
    pub name: String,
    pub path: String,
}

#[derive(Debug)]
pub struct SidebarConfig {
    pub bookmarks: Vec<Bookmark>,
    pub recent_dirs_limit: usize,
    pub drives_limit: usize,
}

#[derive(Debug)]
pub struct UiConfig {
    pub top_bar_height: u16,
    pub panels: Panels,
    pub panel_ratios: PanelSizes,
}

#[derive(Debug)]
pub struct NavigationConfig {
    pub start_dir: String,
    pub show_hidden: bool,
    pub sort: String,
    pub max_columns: usize,
    pub sudo_mode: bool,
}

#[derive(Debug)]
pub struct FeaturesConfig {
    pub enabled: Vec<String>,
}

/// A named set of changes to the configured navigation and features.
#[derive(Debug)]
pub struct Profile {
    pub name: String,
    pub theme: Option<String>,
    pub show_hidden: Option<bool>,
    pub start_dir: Option<String>,
    pub features: Option<Vec<String>>,
}

/// The Miller columns: how many, which one has the focus, their widths.
#[derive(Debug)]
pub struct MillerConfig {
    pub column_count: usize,
    pub active_column: usize,
    pub column_ratios: Vec<u16>,
}

#[derive(Debug, Clone, Copy, PartialEq, Eq, Structural)]
pub struct PreviewConfig {
    pub images: bool,
    pub max_image_size_mb: u64,
}

/// The themes by name.
#[derive(Debug)]
pub struct ThemeRegistry {
    pub by_name: Vec<(String, Theme)>,
}

/// The whole configuration.
#[derive(Debug)]
pub struct AppConfig {
    pub sidebar: SidebarConfig,
    pub ui: UiConfig,
    pub navigation: NavigationConfig,
    pub features: FeaturesConfig,
    pub search: SearchSettings,
    pub miller: MillerConfig,
    pub preview: PreviewConfig,
    pub profiles: Vec<Profile>,
    pub themes: ThemeRegistry,
}

/// The settings in force under a profile.
#[derive(Debug)]
pub struct EffectiveSettings {
    pub theme: String,
    pub show_hidden: bool,
    pub sort: String,
    pub start_dir: String,
    pub top_bar_height: u16,
    pub features: Vec<String>,
    pub theme_colors: Theme,
    pub panel_sizes: PanelSizes,
    pub max_columns: usize,
    pub active_column: usize,
    pub column_ratios: Vec<u16>,
    pub search: SearchSettings,
    pub panels: Panels,
    pub preview: PreviewConfig,
}

#[derive(Debug, Clone, Copy, PartialEq, Eq, Structural)]
pub struct EnabledPanels {
    pub search_bar: bool,
    pub sidebar: bool,
    pub columns: bool,
    pub preview: bool,
    pub status_bar: bool,
    pub keymap_bar: bool,
}

#[derive(Debug, Clone, Copy, PartialEq, Eq, Structural)]
pub struct EnabledFeatures {
    pub preview_images: bool,
}

/// What the running application draws and does.
#[derive(Debug, Clone, Copy, PartialEq, Eq, Structural)]
pub struct RuntimePlan {
    pub panels: EnabledPanels,
    pub features: EnabledFeatures,
}

pub fn default_recent_dirs_limit() -> (r: usize)
    ensures
        r == 10,
{
    10
}

pub fn default_drives_limit() -> (r: usize)
    ensures
        r == 10,
{
    10
}

pub fn default_start_dir() -> (r: String)
    ensures
        r@ == "~/"@,
{
    "~/".to_owned()
}

pub fn default_sort() -> (r: String)
    ensures
        r@ == "name"@,
{
    "name".to_owned()
}

pub fn default_features() -> (r: Vec<String>)
    ensures
        r@.len() == 2,
        r@[0]@ == "preview"@,
        r@[1]@ == "git_status"@,
{
    vec!["preview".to_owned(), "git_status".to_owned()]
}

pub fn default_max_columns() -> (r: usize)
    ensures
        r == 4,
{
    4
}

pub fn default_active_column() -> (r: usize)
    ensures
        r == 2,
{
    2
}

pub fn default_column_ratios() -> (r: Vec<u16>)
    ensures
        r@ == seq![1u16, 1u16, 1u16, 1u16],
{
    vec![1, 1, 1, 1]
}

pub fn default_max_image_size_mb() -> (r: u64)
    ensures
        r == 20,
{
    20
}

impl Default for MillerConfig {
    fn default() -> (r: Self)
        ensures
            r.column_count == 4,
            r.active_column == 2,
            r.column_ratios@ == seq![1u16, 1u16, 1u16, 1u16],
    {
        MillerConfig {
            column_count: default_max_columns(),
            active_column: default_active_column(),
            column_ratios: default_column_ratios(),
        }
    }
}

impl Default for PreviewConfig {
    fn default() -> (r: Self)
        ensures
            r == (PreviewConfig { images: true, max_image_size_mb: 20 }),
    {
        PreviewConfig { images: true, max_image_size_mb: default_max_image_size_mb() }
    }
}

/// Whether a name is among the enabled features.
pub fn has_feature(features: &Vec<String>, name: &str) -> (r: bool)
    ensures
        r == exists|i: int| 0 <= i < features@.len() && (#[trigger] features@[i])@ == name@,
{
    let mut i: usize = 0;
    while i < features.len()
        invariant
            i <= features@.len(),
            forall|j: int| 0 <= j < i ==> (#[trigger] features@[j])@ != name@,
        decreases features@.len() - i,
    {
        if str_eq(features[i].as_str(), name) {
            return true;
        }
        i += 1;
    }
    false
}

impl RuntimePlan {
    /// The panels that the settings show, and image previews when the preview
    /// panel is shown, images are enabled and the `preview` feature is on.
    pub fn from_effective(effective: &EffectiveSettings) -> (r: RuntimePlan)
        ensures
            r.panels == (EnabledPanels {
                search_bar: effective.panels.search_bar,
                sidebar: effective.panels.sidebar,
                columns: effective.panels.columns,
                preview: effective.panels.preview,
                status_bar: effective.panels.status_bar,
                keymap_bar: effective.panels.keymap_bar,
            }),
            r.features.preview_images == (effective.panels.preview && effective.preview.images
                && exists|i: int| 0 <= i < effective.features@.len() && (#[trigger] effective.features@[i])@ == "preview"@),
    {
        let panels = EnabledPanels {
            search_bar: effective.panels.search_bar,
            sidebar: effective.panels.sidebar,
            columns: effective.panels.columns,
            preview: effective.panels.preview,
            status_bar: effective.panels.status_bar,
            keymap_bar: effective.panels.keymap_bar,
        };
        let features = EnabledFeatures {
            preview_images: panels.preview && effective.preview.images && has_feature(&effective.features, "preview"),
        };
        RuntimePlan { panels, features }
    }
}

/// The position of the first theme with that name.
pub open spec fn theme_index(reg: Seq<(String, Theme)>, name: Seq<char>) -> Option<int>
    decreases reg.len(),
{
    if reg.len() == 0 {
        None
    } else {
        match theme_index(reg.drop_last(), name) {
            Some(i) => Some(i),
            None => if reg.last().0@ == name {
                Some(reg.len() - 1)
            } else {
                None
            },
        }
    }
}

proof fn lemma_theme_index(reg: Seq<(String, Theme)>, name: Seq<char>)
    ensures
        match theme_index(reg, name) {
            Some(i) => 0 <= i < reg.len() && reg[i].0@ == name && forall|j: int| 0 <= j < i ==> (#[trigger] reg[j]).0@ != name,
            None => forall|j: int| 0 <= j < reg.len() ==> (#[trigger] reg[j]).0@ != name,
        },
    decreases reg.len(),
{
    if reg.len() > 0 {
        lemma_theme_index(reg.drop_last(), name);
        assert forall|j: int| 0 <= j < reg.len() - 1 implies reg.drop_last()[j] == reg[j] by {}
    }
}

impl ThemeRegistry {
    /// The named theme, if it is known.
    pub fn get(&self, name: &str) -> (r: Option<&Theme>)
        ensures
            match theme_index(self.by_name@, name@) {
                Some(i) => r == Some(&self.by_name@[i].1),
                None => r is None,
            },
    {
        proof {
            lemma_theme_index(self.by_name@, name@);
        }
        let mut i: usize = 0;
        while i < self.by_name.len()
            invariant
                i <= self.by_name@.len(),
                forall|j: int| 0 <= j < i ==> (#[trigger] self.by_name@[j]).0@ != name@,
                match theme_index(self.by_name@, name@) {
                    Some(k) => 0 <= k < self.by_name@.len() && self.by_name@[k].0@ == name@ && forall|j: int| 0 <= j < k ==> (#[trigger] self.by_name@[j]).0@ != name@,
                    None => forall|j: int| 0 <= j < self.by_name@.len() ==> (#[trigger] self.by_name@[j]).0@ != name@,
                },
            decreases self.by_name@.len() - i,
        {
            if str_eq(self.by_name[i].0.as_str(), name) {
                assert(self.by_name@[i as int].0@ == name@);
                return Some(&self.by_name[i].1);
            }
            i += 1;
        }
        None
    }
}

/// The column widths for `max_columns` columns: the configured ones (all
/// ones when none are configured), cut or padded with ones to that count.
pub open spec fn fitted_ratios(configured: Seq<u16>, max_columns: int) -> Seq<u16> {
    let base = if configured.len() == 0 {
        Seq::new(max_columns as nat, |i: int| 1u16)
    } else {
        configured
    };
    if base.len() >= max_columns {
        base.take(max_columns)
    } else {
        base + Seq::new((max_columns - base.len()) as nat, |i: int| 1u16)
    }
}

/// Cuts or pads the column widths to `max_columns`.
pub fn fit_column_ratios(configured: &Vec<u16>, max_columns: usize) -> (r: Vec<u16>)
    ensures
        r@ == fitted_ratios(configured@, max_columns as int),
        r@.len() == max_columns,
{
    let mut out: Vec<u16> = Vec::new();
    let mut i: usize = 0;
    while i < max_columns
        invariant
            i <= max_columns,
            out@ == fitted_ratios(configured@, max_columns as int).take(i as int),
        decreases max_columns - i,
    {
        let v: u16 = if configured.len() == 0 || i >= configured.len() { 1 } else { configured[i] };
        out.push(v);
        i += 1;
        assert(out@ =~= fitted_ratios(configured@, max_columns as int).take(i as int));
    }
    assert(out@ =~= fitted_ratios(configured@, max_columns as int));
    out
}

pub open spec fn layout_profile_start(p: Option<&Profile>, configured: Seq<char>) -> Seq<char> {
    match p {
        Some(p) => match p.start_dir { Some(s) => s@, None => configured },
        None => configured,
    }
}

pub open spec fn layout_profile_theme(p: Option<&Profile>) -> Seq<char> {
    match p {
        Some(p) => match p.theme { Some(t) => t@, None => "dark"@ },
        None => "dark"@,
    }
}

/// Under a profile, what the profile sets wins: its theme (else `dark`),
/// its hidden-file switch, its features and its start directory (a start
/// directory that does not begin with `~` is taken as written) replace the
/// configured ones; without them the configured ones stay; and the colours
/// are those of the theme of that name where the registry has it.
pub proof fn lemma_layout_profile_wins(c: &AppConfig, p: &Profile, fallback: &Theme, r: &EffectiveSettings)
    requires
        effective_matches(c, Some(p), fallback, r),
    ensures
        p.theme matches Some(t) ==> r.theme@ == t@,
        p.theme is None ==> r.theme@ == "dark"@,
        p.show_hidden matches Some(v) ==> r.show_hidden == v,
        p.show_hidden is None ==> r.show_hidden == c.navigation.show_hidden,
        p.features matches Some(f) ==> r.features@ == f@,
        p.features is None ==> r.features@ == c.features.enabled@,
        p.start_dir matches Some(sd) ==> (sd@.len() > 0 && sd@[0] != '~' ==> r.start_dir@ == sd@),
        (p.start_dir is None && c.navigation.start_dir@.len() > 0 && c.navigation.start_dir@[0] != '~')
            ==> r.start_dir@ == c.navigation.start_dir@,
        theme_index(c.themes.by_name@, r.theme@) matches Some(i) ==> r.theme_colors == c.themes.by_name@[i].1,
{
    reveal(effective_matches);
    let chosen = layout_profile_start(Some(p), c.navigation.start_dir@);
    let home = choose|home: Option<Seq<char>>| r.start_dir@ == start_dir_of(chosen, home);
    if chosen.len() > 0 && chosen[0] != '~' {
        crate::paths::lemma_start_dir_uses_the_home(seq!['/'], Seq::empty(), chosen, home);
    }
}

/// The settings in force under a profile, as `effective_for_profile` makes
/// them.
#[verifier::opaque]
pub open spec fn effective_matches(c: &AppConfig, profile: Option<&Profile>, fallback: &Theme, r: &EffectiveSettings) -> bool {
    &&& r.theme@ == layout_profile_theme(profile)
    &&& r.show_hidden == match profile {
                    Some(p) => match p.show_hidden { Some(v) => v, None => c.navigation.show_hidden },
                    None => c.navigation.show_hidden,
                }
    &&& exists|home: Option<Seq<char>>| r.start_dir@ == start_dir_of(layout_profile_start(profile, c.navigation.start_dir@), home)
    &&& r.features@ == match profile {
                    Some(p) => match p.features { Some(f) => f@, None => c.features.enabled@ },
                    None => c.features.enabled@,
                }
    &&& r.theme_colors == match theme_index(c.themes.by_name@, r.theme@) {
                    Some(i) => c.themes.by_name@[i].1,
                    None => *fallback,
                }
    &&& r.sort@ == c.navigation.sort@
    &&& r.top_bar_height == if c.ui.top_bar_height < 1 { 1 } else { c.ui.top_bar_height }
    &&& r.max_columns == if c.miller.column_count < 2 { 2 } else { c.miller.column_count }
    &&& r.active_column == if c.miller.active_column < r.max_columns - 2 {
                    c.miller.active_column
                } else {
                    (r.max_columns - 2) as usize
                }
    &&& r.column_ratios@ == fitted_ratios(c.miller.column_ratios@, r.max_columns as int)
    &&& r.column_ratios@.len() == r.max_columns
    &&& r.panel_sizes == c.ui.panel_ratios
    &&& r.search.ignored_dirs@ == c.search.ignored_dirs@
    &&& r.search.max_depth == c.search.max_depth
    &&& r.panels == c.ui.panels
    &&& r.preview == c.preview
}

impl AppConfig {
    /// The settings in force under a profile. The theme is the profile's
    /// (`dark` by default) looked up among the known themes, with
    /// `fallback_theme` where it is unknown; there are at least two columns,
    /// the focused column is never the last, and there is one width per
    /// column.
    pub fn effective_for_profile(&self, profile: Option<&Profile>, fallback_theme: &Theme) -> (r: EffectiveSettings)
        ensures
            effective_matches(self, profile, fallback_theme, &r),
    {
        let theme = match profile {
            Some(p) => match &p.theme { Some(t) => t.clone(), None => "dark".to_owned() },
            None => "dark".to_owned(),
        };
        let show_hidden = match profile {
            Some(p) => match p.show_hidden { Some(v) => v, None => self.navigation.show_hidden },
            None => self.navigation.show_hidden,
        };
        let start_dir = match profile {
            Some(p) => match &p.start_dir { Some(s) => s.clone(), None => self.navigation.start_dir.clone() },
            None => self.navigation.start_dir.clone(),
        };
        let features = match profile {
            Some(p) => match &p.features { Some(f) => copy_strings(f), None => copy_strings(&self.features.enabled) },
            None => copy_strings(&self.features.enabled),
        };
        let theme_colors = match self.themes.get(theme.as_str()) {
            Some(t) => t.copy(),
            None => fallback_theme.copy(),
        };
        let max_columns = if self.miller.column_count < 2 { 2 } else { self.miller.column_count };
        let limit = max_columns - 2;
        let active_column = if self.miller.active_column < limit { self.miller.active_column } else { limit };
        let column_ratios = fit_column_ratios(&self.miller.column_ratios, max_columns);
        let normalized = normalize_start_dir(start_dir.as_str());
        proof {
            reveal(effective_matches);
        }
        assert(start_dir@ == layout_profile_start(profile, self.navigation.start_dir@));
        assert(exists|home: Option<Seq<char>>| normalized@ == start_dir_of(layout_profile_start(profile, self.navigation.start_dir@), home));
        EffectiveSettings {
            theme,
            show_hidden,
            sort: self.navigation.sort.clone(),
            start_dir: normalized,
            top_bar_height: if self.ui.top_bar_height < 1 { 1 } else { self.ui.top_bar_height },
            features,
            theme_colors,
            panel_sizes: self.ui.panel_ratios,
            max_columns,
            active_column,
            column_ratios,
            search: self.search.copy(),
            panels: self.ui.panels,
            preview: self.preview,
        }
    }

    /// The configuration with the built-in `default` profile added when it
    /// names none.
    pub fn ensure_profile(&mut self)
        ensures
            old(self).profiles@.len() > 0 ==> final(self).profiles@ == old(self).profiles@,
            old(self).profiles@.len() == 0 ==> final(self).profiles@.len() == 1 && {
                let p = final(self).profiles@[0];
                &&& p.name@ == "default"@
                &&& p.theme matches Some(t) && t@ == "dark"@
                &&& p.show_hidden == Some(false)
                &&& p.start_dir matches Some(s) && s@ == "~/"@
                &&& p.features matches Some(f) && f@.len() == 2 && f@[0]@ == "preview"@ && f@[1]@ == "git_status"@
            },
            final(self).sidebar == old(self).sidebar,
            final(self).ui == old(self).ui,
            final(self).navigation == old(self).navigation,
            final(self).features == old(self).features,
            final(self).search == old(self).search,
            final(self).miller == old(self).miller,
            final(self).preview == old(self).preview,
            final(self).themes == old(self).themes,
    {
        if self.profiles.len() == 0 {
            self.profiles.push(Profile {
                name: "default".to_owned(),
                theme: Some("dark".to_owned()),
                show_hidden: Some(false),
                start_dir: Some("~/".to_owned()),
                features: Some(vec!["preview".to_owned(), "git_status".to_owned()]),
            });
        }
    }
}

/// The relative widths of the panels that are shown, each at least one, as
/// fractions of their sum; an empty list when no panel is shown.
pub fn main_panel_weights(panels: &EnabledPanels, sizes: &PanelSizes) -> (r: Vec<(u32, u32)>)
    ensures
        ({
            let ws = panel_weights(*panels, *sizes);
            let total = weight_sum(ws);
            &&& r@.len() == ws.len()
            &&& forall|i: int| 0 <= i < ws.len() ==> (#[trigger] r@[i]) == (ws[i] as u32, total as u32)
        }),
{
    let mut weights: Vec<u16> = Vec::new();
    if panels.sidebar {
        weights.push(if sizes.sidebar < 1 { 1 } else { sizes.sidebar });
    }
    if panels.columns {
        weights.push(if sizes.dir < 1 { 1 } else { sizes.dir });
    }
    if panels.preview {
        weights.push(if sizes.preview < 1 { 1 } else { sizes.preview });
    }
    assert(weights@ =~= panel_weights(*panels, *sizes));
    let mut total: u32 = 0;
    let mut i: usize = 0;
    while i < weights.len()
        invariant
            i <= weights@.len(),
            weights@.len() <= 3,
            total == weight_sum(weights@.take(i as int)),
            total <= 65535 * i,
        decreases weights@.len() - i,
    {
        assert(weights@.take(i + 1).drop_last() =~= weights@.take(i as int));
        total = total + weights[i] as u32;
        i += 1;
    }
    assert(weights@.take(weights@.len() as int) =~= weights@);
    let mut out: Vec<(u32, u32)> = Vec::new();
    let mut j: usize = 0;
    while j < weights.len()
        invariant
            j <= weights@.len(),
            weights@ == panel_weights(*panels, *sizes),
            total == weight_sum(weights@),
            out@.len() == j,
            forall|k: int| 0 <= k < j ==> (#[trigger] out@[k]) == (weights@[k] as u32, total),
        decreases weights@.len() - j,
    {
        out.push((weights[j] as u32, total));
        j += 1;
    }
    out
}

/// The widths of the Miller columns that are drawn: the first
/// `max_columns` configured widths, each at least one.
pub open spec fn shown_ratios(ratios: Seq<u16>, max_columns: int) -> Seq<u16> {
    let n = if ratios.len() < max_columns { ratios.len() as int } else { max_columns };
    Seq::new(n as nat, |i: int| at_least_one(ratios[i]))
}

/// The widths of the drawn Miller columns as fractions of their sum (a sum
/// of at least one), where that sum fits in a `u32`.
pub fn column_weights(ratios: &Vec<u16>, max_columns: usize) -> (r: Vec<(u32, u32)>)
    requires
        weight_sum(shown_ratios(ratios@, max_columns as int)) <= u32::MAX,
    ensures
        ({
            let ws = shown_ratios(ratios@, max_columns as int);
            let total = weight_sum(ws);
            &&& r@.len() == ws.len()
            &&& forall|i: int| 0 <= i < ws.len() ==> (#[trigger] r@[i]) == (ws[i] as u32, (if total < 1 { 1 } else { total }) as u32)
        }),
{
    let n: usize = if ratios.len() < max_columns { ratios.len() } else { max_columns };
    let ghost ws = shown_ratios(ratios@, max_columns as int);
    let mut weights: Vec<u16> = Vec::new();
    let mut i: usize = 0;
    while i < n
        invariant
            i <= n,
            n <= ratios@.len(),
            n == ws.len(),
            ws == shown_ratios(ratios@, max_columns as int),
            weights@ == ws.take(i as int),
        decreases n - i,
    {
        let w = ratios[i];
        weights.push(if w < 1 { 1 } else { w });
        assert(weights@ =~= ws.take(i + 1));
        i += 1;
    }
    assert(weights@ =~= ws);
    let mut total: u32 = 0;
    let mut j: usize = 0;
    while j < weights.len()
        invariant
            j <= weights@.len(),
            weight_sum(weights@) <= u32::MAX,
            total == weight_sum(weights@.take(j as int)),
        decreases weights@.len() - j,
    {
        assert(weights@.take(j + 1).drop_last() =~= weights@.take(j as int));
        proof { lemma_weight_sum_prefix(weights@, j + 1); }
        total = total + weights[j] as u32;
        j += 1;
    }
    assert(weights@.take(weights@.len() as int) =~= weights@);
    let sum: u32 = if total < 1 { 1 } else { total };
    let mut out: Vec<(u32, u32)> = Vec::new();
    let mut k: usize = 0;
    while k < weights.len()
        invariant
            k <= weights@.len(),
            weights@ == ws,
            sum == (if weight_sum(ws) < 1 { 1 } else { weight_sum(ws) }),
            out@.len() == k,
            forall|m: int| 0 <= m < k ==> (#[trigger] out@[m]) == (weights@[m] as u32, sum),
        decreases weights@.len() - k,
    {
        out.push((weights[k] as u32, sum));
        k += 1;
    }
    out
}

pub open spec fn at_least_one(w: u16) -> u16 {
    if w < 1 { 1 } else { w }
}

/// The weights of the shown panels, left to right.
pub open spec fn panel_weights(p: EnabledPanels, s: PanelSizes) -> Seq<u16> {
    let a: Seq<u16> = if p.sidebar { seq![at_least_one(s.sidebar)] } else { Seq::empty() };
    let b: Seq<u16> = if p.columns { seq![at_least_one(s.dir)] } else { Seq::empty() };
    let c: Seq<u16> = if p.preview { seq![at_least_one(s.preview)] } else { Seq::empty() };
    a + b + c
}

pub open spec fn weight_sum(ws: Seq<u16>) -> int
    decreases ws.len(),
{
    if ws.len() == 0 {
        0
    } else {
        weight_sum(ws.drop_last()) + ws.last()
    }
}

proof fn lemma_weight_sum_prefix(ws: Seq<u16>, j: int)
    requires
        0 <= j <= ws.len(),
    ensures
        weight_sum(ws.take(j)) <= weight_sum(ws),
    decreases ws.len(),
{
    if j < ws.len() {
        lemma_weight_sum_prefix(ws.drop_last(), j);
        assert(ws.drop_last().take(j) =~= ws.take(j));
    } else {
        assert(ws.take(j) =~= ws);
    }
}

impl EffectiveSettings {
    /// The colours of a Miller column by its position: the first three have
    /// their own, every later one takes the fourth.
    pub fn column_theme_for(&self, idx: usize) -> (r: &ColumnTheme)
        ensures
            r == if idx == 0 {
                &self.theme_colors.col_1
            } else if idx == 1 {
                &self.theme_colors.col_2
            } else if idx == 2 {
                &self.theme_colors.col_3
            } else {
                &self.theme_colors.col_4
            },
    {
        match idx {
            0 => &self.theme_colors.col_1,
            1 => &self.theme_colors.col_2,
            2 => &self.theme_colors.col_3,
            _ => &self.theme_colors.col_4,
        }
    }
}

} // verus!
