//! Image previews: which terminals can show them, and which thumbnail is on
//! screen.
use vstd::prelude::*;

verus! {

/// The terminal graphics protocol used to draw images.
#[derive(Debug, Clone, Copy, PartialEq, Eq, Structural)]
pub enum ImageProtocol {
    Kitty,
}

/// Whether images are previewed, and up to what file size.
#[derive(Debug, Clone, Copy, PartialEq, Eq, Structural)]
pub struct PreviewImageConfig {
    pub enabled: bool,
    pub max_image_size_mb: u64,
}

/// The image protocol a terminal speaks, from its `TERM` and `TERM_PROGRAM`
/// (compared without regard to ASCII case) and, failing those, from a probe:
/// Kitty for Ghostty, for `xterm-kitty`, or when the probe says so.
pub open spec fn protocol_of(term: Seq<char>, term_program: Seq<char>, probe_says_kitty: bool) -> Option<ImageProtocol> {
    if crate::text::ascii_lower_seq(term_program) == "ghostty"@ || crate::text::ascii_lower_seq(term) == "xterm-kitty"@ {
        Some(ImageProtocol::Kitty)
    } else if probe_says_kitty {
        Some(ImageProtocol::Kitty)
    } else {
        None
    }
}

/// Decides the image protocol (see `protocol_of`); `probe_says_kitty` is the
/// probe's answer, asked for only where `protocol_known_by_name` is false.
pub fn detect_image_protocol_from(term: &str, term_program: &str, probe_says_kitty: bool) -> (r: Option<ImageProtocol>)
    ensures
        r == protocol_of(term@, term_program@, probe_says_kitty),
{
    let t = crate::text::to_ascii_lowercase(term);
    let p = crate::text::to_ascii_lowercase(term_program);
    if crate::text::str_eq(p.as_str(), "ghostty") || crate::text::str_eq(t.as_str(), "xterm-kitty") {
        Some(ImageProtocol::Kitty)
    } else if probe_says_kitty {
        Some(ImageProtocol::Kitty)
    } else {
        None
    }
}

/// Whether the terminal names alone settle the protocol, so that no probe
/// needs to be sent.
pub fn protocol_known_by_name(term: &str, term_program: &str) -> (r: bool)
    ensures
        r == (crate::text::ascii_lower_seq(term_program@) == "ghostty"@ || crate::text::ascii_lower_seq(term@) == "xterm-kitty"@),
{
    let t = crate::text::to_ascii_lowercase(term);
    let p = crate::text::to_ascii_lowercase(term_program);
    crate::text::str_eq(p.as_str(), "ghostty") || crate::text::str_eq(t.as_str(), "xterm-kitty")
}

/// The thumbnail last drawn on screen, by its path.
#[derive(Debug)]
pub struct LastRender {
    pub key: Option<String>,
}

impl LastRender {
    pub fn new() -> (r: LastRender)
        ensures
            r.key is None,
    {
        LastRender { key: None }
    }

    /// The thumbnail at `key` is the one on screen.
    pub fn is_same_as_last_render(&self, key: &str) -> (r: bool)
        ensures
            r == match self.key { Some(k) => k@ == key@, None => false },
    {
        match &self.key {
            Some(k) => crate::text::str_eq(k.as_str(), key),
            None => false,
        }
    }

    /// Records that the thumbnail at `key` is on screen.
    pub fn remember_last_render(&mut self, key: String)
        ensures
            final(self).key == Some(key),
    {
        self.key = Some(key);
    }

    /// Clearing the last image, second step: once the clear bytes were
    /// written and flushed, nothing is on screen any more; where writing
    /// failed, the thumbnail is still remembered.
    pub fn finish_clear(&mut self, written: bool)
        ensures
            written ==> final(self).key is None,
            !written ==> *final(self) == *old(self),
    {
        if written {
            self.clear_last_rendered_state();
        }
    }

    /// Forgets what is on screen.
    pub fn clear_last_rendered_state(&mut self)
        ensures
            final(self).key is None,
    {
        self.key = None;
    }
}

/// The bytes that clear the images a protocol has placed (for Kitty, the
/// command that deletes every visible placement).
pub fn clear_sequence(protocol: ImageProtocol) -> (r: Vec<u8>)
    ensures
        r@ == match protocol {
            ImageProtocol::Kitty => seq![0x1bu8, 0x5fu8, 0x47u8, 0x61u8, 0x3du8, 0x64u8, 0x1bu8, 0x5cu8],
        },
{
    match protocol {
        ImageProtocol::Kitty => vec![0x1bu8, 0x5fu8, 0x47u8, 0x61u8, 0x3du8, 0x64u8, 0x1bu8, 0x5cu8],
    }
}

/// Clearing the last image, first step: the bytes to write to the terminal
/// to take it off the screen. What is remembered stays as it is until the
/// write is reported done (`LastRender::finish_clear`).
pub fn clear_last_image(protocol: ImageProtocol) -> (r: Vec<u8>)
    ensures
        r@ == clear_sequence_spec(protocol),
{
    clear_sequence(protocol)
}

pub open spec fn clear_sequence_spec(protocol: ImageProtocol) -> Seq<u8> {
    match protocol {
        ImageProtocol::Kitty => seq![0x1bu8, 0x5fu8, 0x47u8, 0x61u8, 0x3du8, 0x64u8, 0x1bu8, 0x5cu8],
    }
}

/// Where the message of a thumbnail being made goes, as the terminal counts
/// (from one): centred across a preview area at `x`, `y` of `w` by `h`
/// cells for a message of `len` characters, on its middle row; each step
/// stops at the largest `u16` rather than wrap.
pub fn generating_position(x: u16, y: u16, w: u16, h: u16, len: u16) -> (r: (u16, u16))
    ensures
        r.0 == sat16(sat16(x + (if w > len { w - len } else { 0 }) / 2) + 1),
        r.1 == sat16(sat16(y + h / 2) + 1),
{
    let col = x.saturating_add(w.saturating_sub(len) / 2).saturating_add(1);
    let row = y.saturating_add(h / 2).saturating_add(1);
    (col, row)
}

/// `v`, or the largest `u16` where `v` is larger.
pub open spec fn sat16(v: int) -> int {
    if v > u16::MAX { u16::MAX as int } else { v }
}

/// The box an image is drawn in, inside a preview area of `area_w` by
/// `area_h` cells: the area less its border, at most twenty rows high, and
/// at least one cell either way.
pub fn preview_box(area_w: u16, area_h: u16) -> (r: (u32, u32))
    ensures
        r.0 == if area_w > 3 { area_w - 2 } else { 1 },
        r.1 == ({
            let h = if area_h > 2 { area_h - 2 } else { 0 };
            let c = if h < 20 { h } else { 20 };
            if c > 1 { c } else { 1 }
        }),
{
    let w: u32 = if area_w > 3 { (area_w - 2) as u32 } else { 1 };
    let h: u32 = if area_h > 2 { (area_h - 2) as u32 } else { 0 };
    let c: u32 = if h < 20 { h } else { 20 };
    (w, if c > 1 { c } else { 1 })
}

/// The offsets that centre a picture of `render_w` by `render_h` cells in a
/// box of `avail_w` by `avail_h`.
pub fn centre_offsets(avail_w: u32, avail_h: u32, render_w: u32, render_h: u32) -> (r: (u32, u32))
    ensures
        r.0 == (if avail_w > render_w { avail_w - render_w } else { 0 }) / 2,
        r.1 == (if avail_h > render_h { avail_h - render_h } else { 0 }) / 2,
{
    (avail_w.saturating_sub(render_w) / 2, avail_h.saturating_sub(render_h) / 2)
}

} // verus!
