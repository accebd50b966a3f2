//! What the details panel shows about the entry under the cursor.
use vstd::prelude::*;

use crate::app_state::{App, SearchMode};
use crate::paths::{image_extension, last_segment, path_extension};
use crate::preview::{ImageProtocol, PreviewImageConfig};
use crate::text::{concat, decimal, decimal_text};
use crate::views::Paint;

verus! {

/// Whether chrono holds the time `secs` seconds and `nanos` nanoseconds
/// after the Unix epoch (`DateTime::from_timestamp`): its day lies between
/// January 1 of the year -262143 and December 31 of 262142, and the
/// nanoseconds stay under a second, or under two in the 59th second of a
/// minute (a leap second).
pub open spec fn chrono_timestamp_ok(secs: i64, nanos: u32) -> bool {
    &&& -8_334_601_315_200 <= secs <= 8_210_266_876_799
    &&& (nanos < 1_000_000_000 || (nanos < 2_000_000_000 && secs % 60 == 59))
}

/// `chrono::DateTime::from_timestamp` of `secs` seconds and `nanos`
/// nanoseconds after the Unix epoch, put in the local time zone
/// (`with_timezone(&chrono::Local)`) and written as `%Y-%m-%d %H:%M`.
/// chrono gives a time exactly where `chrono_timestamp_ok` holds, and the
/// format writes the year with at least four digits and each other field
/// with two, so the text has at least 16 characters. Which date and time it
/// shows depends on the machine's time zone, and is not stated.
#[verifier::external_body]
fn local_time_text(secs: i64, nanos: u32) -> (r: Option<String>)
    ensures
        (r is Some) <==> chrono_timestamp_ok(secs, nanos),
        r matches Some(t) ==> t@.len() >= 16,
{
    match chrono::DateTime::from_timestamp(secs, nanos) {
        Some(t) => Some(t.with_timezone(&chrono::Local).format("%Y-%m-%d %H:%M").to_string()),
        None => None,
    }
}

/// Whether chrono holds the time (see `chrono_timestamp_ok`); the details
/// panel stops the program on one it does not, as converting such a file
/// time does.
pub fn timestamp_in_range(secs: i64, nanos: u32) -> (r: bool)
    ensures
        r == chrono_timestamp_ok(secs, nanos),
{
    let in_days = -8_334_601_315_200i64 <= secs && secs <= 8_210_266_876_799i64;
    let second_59 = if secs >= 0 {
        let u = secs as u64;
        u % 60 == 59
    } else {
        let a = (-(secs + 1)) as u64;
        assert((secs as int) % 60 == 59 <==> (a as int) % 60 == 0) by (nonlinear_arith)
            requires
                secs < 0,
                a as int == -(secs + 1),
        {
            assert(secs as int == -(a as int) - 1);
            vstd::arithmetic::div_mod::lemma_fundamental_div_mod(a as int, 60);
            vstd::arithmetic::div_mod::lemma_fundamental_div_mod(secs as int, 60);
        }
        a % 60 == 0
    };
    in_days && (nanos < 1_000_000_000 || (nanos < 2_000_000_000 && second_59))
}

/// A file time for the details panel (`secs` from the Unix epoch rounded
/// down, and the nanoseconds after that): the local date and time as
/// `%Y-%m-%d %H:%M` (at least 16 characters, see `local_time_text`), and
/// `-` where the file system does not tell the time. A time chrono cannot
/// hold is left out (`timestamp_in_range`).
pub fn format_system_time(time: Option<(i64, u32)>) -> (r: String)
    requires
        time matches Some((s, n)) ==> chrono_timestamp_ok(s, n),
    ensures
        time is None ==> r@ == "-"@,
        time is Some ==> r@.len() >= 16,
{
    match time {
        None => "-".to_owned(),
        Some((secs, nanos)) => match local_time_text(secs, nanos) {
            Some(t) => t,
            None => "-".to_owned(),
        },
    }
}

/// What the file system says of a path, as far as it could be read: its
/// kind, size (and that size written out for people), whether it is read
/// only, and its three times written out; `None` where its metadata could
/// not be read.
#[derive(Debug)]
pub struct PathFacts {
    pub is_dir: bool,
    pub size: u64,
    pub size_text: String,
    pub readonly: bool,
    pub created: String,
    pub modified: String,
    pub accessed: String,
}

/// A value of the details list: text, or a truth value shown in the
/// theme's colour for it.
#[derive(Debug)]
pub enum DetailValue {
    Text(String),
    Flag(bool),
}

/// What the details panel shows for a path: its facts, a line per fact
/// (label and value); the image metadata instead where an image is too large
/// to preview; the mascot of a terminal that cannot show images (with the
/// file name and size) where images are on but no protocol is known.
#[derive(Debug)]
pub enum PreviewData {
    Empty,
    Details(Vec<(String, DetailValue)>),
    ImageMetadata,
    UnsupportedImageMascot { filename: String, size: String },
}

/// The byte count of a size given in megabytes.
pub open spec fn mb_bytes(mb: u64) -> int {
    mb as int * 1024 * 1024
}

/// The path names an image the preview can show (by its extension, in any
/// ASCII case).
pub open spec fn is_image_path(p: Seq<char>) -> bool {
    match path_extension(p) {
        Some(e) => image_extension(crate::text::ascii_lower_seq(e)),
        None => false,
    }
}

pub open spec fn text_line(label: Seq<char>, v: Seq<char>, l: (String, DetailValue)) -> bool {
    l.0@ == label && (l.1 matches DetailValue::Text(t) && t@ == v)
}

pub open spec fn flag_line(label: Seq<char>, b: bool, l: (String, DetailValue)) -> bool {
    l.0@ == label && l.1 == DetailValue::Flag(b)
}

fn text_item(label: &str, v: String) -> (r: (String, DetailValue))
    ensures
        text_line(label@, v@, r),
{
    (label.to_owned(), DetailValue::Text(v))
}

/// The entries of a directory that the details panel counts: the first
/// 5000 read.
pub open spec fn counted(kinds: Seq<bool>) -> Seq<bool> {
    if kinds.len() > 5000 { kinds.take(5000) } else { kinds }
}

/// How many of `kinds` are directories.
pub open spec fn dirs_among(kinds: Seq<bool>) -> nat
    decreases kinds.len(),
{
    if kinds.len() == 0 {
        0
    } else {
        dirs_among(kinds.drop_last()) + if kinds.last() { 1nat } else { 0nat }
    }
}

proof fn lemma_dirs_among_le(kinds: Seq<bool>)
    ensures
        dirs_among(kinds) <= kinds.len(),
    decreases kinds.len(),
{
    if kinds.len() > 0 {
        lemma_dirs_among_le(kinds.drop_last());
    }
}

/// The counts of the details panel for a directory whose entries, in the
/// order read, are directories or not as `kinds` says: the entries among
/// the first 5000, the directories among them and the other files; the two
/// last add up to the first.
pub fn dir_counts(kinds: &Vec<bool>) -> (r: (usize, usize, usize))
    ensures
        r.0 == counted(kinds@).len(),
        r.1 == dirs_among(counted(kinds@)),
        r.2 == counted(kinds@).len() - dirs_among(counted(kinds@)),
        r.0 == r.1 + r.2,
        r.0 <= 5000,
{
    let ghost c = counted(kinds@);
    let n: usize = if kinds.len() > 5000 { 5000 } else { kinds.len() };
    let mut dirs: usize = 0;
    let mut i: usize = 0;
    while i < n
        invariant
            n <= kinds@.len(),
            n <= 5000,
            c == counted(kinds@),
            c.len() == n,
            forall|k: int| 0 <= k < n ==> c[k] == kinds@[k],
            i <= n,
            dirs == dirs_among(c.take(i as int)),
            dirs <= i,
        decreases n - i,
    {
        assert(c.take(i + 1).drop_last() =~= c.take(i as int));
        if kinds[i] {
            dirs += 1;
        }
        i += 1;
    }
    assert(c.take(n as int) =~= c);
    proof { lemma_dirs_among_le(c); }
    (n, dirs, n - dirs)
}

/// The details of a path. `facts` is what its metadata says (`None` where
/// unreadable), `is_symlink` whether its own entry is a link (`None` where
/// unreadable), `dir_kinds` whether each entry of a directory, in the order
/// read, is a directory (counted by `dir_counts`).
pub fn preview_for_path(
    path: &str,
    facts: &Option<PathFacts>,
    is_symlink: Option<bool>,
    dir_kinds: &Vec<bool>,
    image_cfg: PreviewImageConfig,
    protocol: Option<ImageProtocol>,
) -> (r: PreviewData)
    requires
        image_cfg.max_image_size_mb * 1024 * 1024 <= u64::MAX,
    ensures
        ({
            let size = match facts { Some(f) => f.size as int, None => 0 };
            if is_image_path(path@) && size > mb_bytes(image_cfg.max_image_size_mb) {
                r is ImageMetadata
            } else if is_image_path(path@) && image_cfg.enabled && protocol is None {
                r matches PreviewData::UnsupportedImageMascot { filename, size: s }
                    && filename@ == last_segment(path@)
                    && s@ == match facts { Some(f) => f.size_text@, None => "0 B"@ }
            } else {
                r matches PreviewData::Details(ls) && {
                    &&& text_line("name"@, last_segment(path@), ls@[0])
                    &&& text_line("path"@, path@, ls@[1])
                    &&& match facts {
                        None => ls@.len() == 3 && text_line("metadata"@, "unavailable"@, ls@[2]),
                        Some(f) => match is_symlink {
                            None => ls@.len() == 3 && text_line("symlink_metadata"@, "unavailable"@, ls@[2]),
                            Some(link) => {
                                &&& ls@.len() == (if f.is_dir { 12int } else { 9int })
                                &&& flag_line("is dir"@, f.is_dir, ls@[2])
                                &&& flag_line("is symlink"@, link, ls@[3])
                                &&& text_line("size"@, f.size_text@, ls@[4])
                                &&& flag_line("readonly"@, f.readonly, ls@[5])
                                &&& text_line("created"@, f.created@, ls@[6])
                                &&& text_line("modified"@, f.modified@, ls@[7])
                                &&& text_line("accessed"@, f.accessed@, ls@[8])
                                &&& f.is_dir ==> text_line("dir_entries"@, decimal(counted(dir_kinds@).len()), ls@[9])
                                    && text_line("dir_count"@, decimal(dirs_among(counted(dir_kinds@))), ls@[10])
                                    && text_line("file_count"@, decimal((counted(dir_kinds@).len() - dirs_among(counted(dir_kinds@))) as nat), ls@[11])
                            },
                        },
                    }
                }
            }
        }),
{
    let image = crate::paths::is_supported_image(path);
    let size: u64 = match facts { Some(f) => f.size, None => 0 };
    if image {
        let max_bytes = image_cfg.max_image_size_mb * 1024 * 1024;
        if size > max_bytes {
            return PreviewData::ImageMetadata;
        }
        if image_cfg.enabled && protocol.is_none() {
            let size_text = match facts {
                Some(f) => f.size_text.clone(),
                None => "0 B".to_owned(),
            };
            return PreviewData::UnsupportedImageMascot { filename: crate::paths::path_last_segment(path), size: size_text };
        }
    }
    let mut lines: Vec<(String, DetailValue)> = Vec::new();
    lines.push(text_item("name", crate::paths::path_last_segment(path)));
    lines.push(text_item("path", path.to_owned()));
    let f = match facts {
        None => {
            lines.push(text_item("metadata", "unavailable".to_owned()));
            return PreviewData::Details(lines);
        },
        Some(f) => f,
    };
    let link = match is_symlink {
        None => {
            lines.push(text_item("symlink_metadata", "unavailable".to_owned()));
            return PreviewData::Details(lines);
        },
        Some(l) => l,
    };
    lines.push(("is dir".to_owned(), DetailValue::Flag(f.is_dir)));
    lines.push(("is symlink".to_owned(), DetailValue::Flag(link)));
    lines.push(text_item("size", f.size_text.clone()));
    lines.push(("readonly".to_owned(), DetailValue::Flag(f.readonly)));
    lines.push(text_item("created", f.created.clone()));
    lines.push(text_item("modified", f.modified.clone()));
    lines.push(text_item("accessed", f.accessed.clone()));
    if f.is_dir {
        let dir_counts = crate::views_details::dir_counts(dir_kinds);
        lines.push(text_item("dir_entries", decimal_text(dir_counts.0 as u64)));
        lines.push(text_item("dir_count", decimal_text(dir_counts.1 as u64)));
        lines.push(text_item("file_count", decimal_text(dir_counts.2 as u64)));
    }
    PreviewData::Details(lines)
}

/// The colours of the details lines: labels and values take the search
/// colour during a search, the selection colour in selection mode, else the
/// preview colours; truth values their own colours.
#[derive(Debug)]
pub struct DetailPaints {
    pub label: String,
    pub value: String,
    pub yes: String,
    pub no: String,
}

/// What the details panel draws.
#[derive(Debug)]
pub enum DetailsPlan {
    /// The directory under the cursor cannot be read.
    NoPerms(String),
    /// The directory under the cursor is empty.
    EmptyDir,
    /// An image too large to preview: its metadata alone.
    ImageMetadata(String),
    /// An image drawn with the protocol above its metadata.
    ImagePreview(String, ImageProtocol),
    /// An image that the terminal cannot draw: the mascot above its
    /// metadata.
    UnsupportedImage(String),
    /// The details of the entry under the cursor (see `preview_for_path`).
    Preview,
}

impl App {
    /// The colours of the details lines.
    pub fn detail_paints(&self) -> (r: DetailPaints)
        ensures
            r.label == if self.search_mode != SearchMode::Idle {
                self.effective.theme_colors.vars.search_mode
            } else if self.selection_mode {
                self.effective.theme_colors.vars.selection_mode
            } else {
                self.effective.theme_colors.preview.label
            },
            r.value == if self.search_mode != SearchMode::Idle {
                self.effective.theme_colors.vars.search_mode
            } else if self.selection_mode {
                self.effective.theme_colors.vars.selection_mode
            } else {
                self.effective.theme_colors.preview.value
            },
            r.yes == self.effective.theme_colors.vars.bool_yes,
            r.no == self.effective.theme_colors.vars.bool_no,
    {
        let v = &self.effective.theme_colors.vars;
        let (label, value) = if self.search_mode != SearchMode::Idle {
            (v.search_mode.clone(), v.search_mode.clone())
        } else if self.selection_mode {
            (v.selection_mode.clone(), v.selection_mode.clone())
        } else {
            (self.effective.theme_colors.preview.label.clone(), self.effective.theme_colors.preview.value.clone())
        };
        DetailPaints { label, value, yes: v.bool_yes.clone(), no: v.bool_no.clone() }
    }

    /// The colours of the details panel's frame and title: the mode colour
    /// while a mode is in force, else the default border and label colours.
    pub fn details_frame(&self) -> (r: (Paint, Paint))
        ensures
            r.0 == if self.mode_active() { Paint::Mode } else { Paint::Named(self.effective.theme_colors.vars.defult_panel_border) },
            r.1 == if self.mode_active() { Paint::Mode } else { Paint::Named(self.effective.theme_colors.vars.defult_panel_label) },
    {
        let active = self.sudo_mode || self.awaiting_bookmark_slot || self.selection_mode || self.search_mode != SearchMode::Idle;
        if active {
            (Paint::Mode, Paint::Mode)
        } else {
            (Paint::Named(self.effective.theme_colors.vars.defult_panel_border.clone()),
                Paint::Named(self.effective.theme_colors.vars.defult_panel_label.clone()))
        }
    }

    /// What the details panel draws, and whether the last image is to be
    /// cleared first. `dir_read` is how reading the directory under the
    /// cursor went (denied, empty), where there is one; `image_size` the
    /// size of the entry under the cursor where it is an image. A directory
    /// that cannot be read or is empty shows its mascot; an image, where
    /// image previews are on, is too large, or drawn, or its mascot shown;
    /// anything else shows its details.
    pub fn details_plan(&self, dir_read: Option<(bool, bool)>, image_size: u64) -> (r: (DetailsPlan, bool))
        requires
            self.effective.preview.max_image_size_mb * 1024 * 1024 <= u64::MAX,
        ensures
            ({
                let dir_case = match (self.selected_dir_spec(), dir_read) {
                    (Some(_), Some((denied, empty))) => denied || empty,
                    _ => false,
                };
                if dir_case {
                    let (denied, empty) = dir_read->0;
                    if denied {
                        (r.0 matches DetailsPlan::NoPerms(p) && p == self.selected_dir_spec()->0) && !r.1
                    } else {
                        r.0 is EmptyDir && r.1 == (self.image_protocol is Some)
                    }
                } else {
                    match self.selected_entry_spec() {
                        Some(e) => if is_image_path(e.path@) && self.runtime_plan.features.preview_images {
                            if image_size > mb_bytes(self.effective.preview.max_image_size_mb) {
                                (r.0 matches DetailsPlan::ImageMetadata(p) && p == e.path) && r.1 == (self.image_protocol is Some)
                            } else {
                                match self.image_protocol {
                                    Some(pr) => (r.0 matches DetailsPlan::ImagePreview(p, q) && p == e.path && q == pr) && !r.1,
                                    None => (r.0 matches DetailsPlan::UnsupportedImage(p) && p == e.path) && !r.1,
                                }
                            }
                        } else {
                            r.0 is Preview && r.1 == (self.image_protocol is Some)
                        },
                        None => r.0 is Preview && r.1 == (self.image_protocol is Some),
                    }
                }
            }),
    {
        match self.selected_dir_path() {
            Some(dir) => match dir_read {
                Some((denied, empty)) => {
                    if denied {
                        return (DetailsPlan::NoPerms(dir.clone()), false);
                    }
                    if empty {
                        return (DetailsPlan::EmptyDir, self.image_protocol.is_some());
                    }
                },
                None => {},
            },
            None => {},
        }
        let clear = self.image_protocol.is_some();
        match self.selected_entry_path() {
            Some(p) => {
                if crate::paths::is_supported_image(p.as_str()) && self.runtime_plan.features.preview_images {
                    let max_bytes = self.effective.preview.max_image_size_mb * 1024 * 1024;
                    if image_size > max_bytes {
                        return (DetailsPlan::ImageMetadata(p), clear);
                    }
                    return match self.image_protocol {
                        Some(pr) => (DetailsPlan::ImagePreview(p, pr), false),
                        None => (DetailsPlan::UnsupportedImage(p), false),
                    };
                }
                (DetailsPlan::Preview, clear)
            },
            None => (DetailsPlan::Preview, clear),
        }
    }

    /// The image preview settings: on where the plan previews images, and
    /// the size limit.
    pub fn image_preview_config(&self) -> (r: PreviewImageConfig)
        ensures
            r == (PreviewImageConfig { enabled: self.runtime_plan.features.preview_images, max_image_size_mb: self.effective.preview.max_image_size_mb }),
    {
        PreviewImageConfig { enabled: self.runtime_plan.features.preview_images, max_image_size_mb: self.effective.preview.max_image_size_mb }
    }

    /// The path whose details are shown: the selected global result during a
    /// global search, else the entry under the cursor.
    pub fn current_preview_path(&self) -> (r: Option<String>)
        ensures
            r == if self.search_mode == SearchMode::Global {
                if self.global_selected < self.global_results@.len() { Some(self.global_results@[self.global_selected as int]) } else { None }
            } else {
                match self.selected_entry_spec() { Some(e) => Some(e.path), None => None }
            },
    {
        if self.search_mode == SearchMode::Global {
            if self.global_selected < self.global_results.len() {
                return Some(self.global_results[self.global_selected].clone());
            }
            return None;
        }
        self.selected_entry_path()
    }
}

} // verus!
