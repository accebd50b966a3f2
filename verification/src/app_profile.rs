//! Switching profiles.
use vstd::prelude::*;

use crate::app_state::{App, Effect};
use crate::app_session::{lemma_profile_round_trip, next_profile_index, prev_profile_index};
use crate::layout::{effective_matches, RuntimePlan};

verus! {

impl App {
    /// Switches to the next profile, wrapping round: its settings and plan
    /// take effect, the plain selection is cleared and the key bindings
    /// frame is built anew. The sidebar lists go when the sidebar is hidden,
    /// and image support when image previews are off. Nothing happens
    /// without profiles.
    pub fn next_profile(&mut self) -> (e: Effect)
        requires
            old(self).wf(),
        ensures
            final(self).wf(),
            after_next_profile(*old(self), *final(self), e),
    {
        let n = self.config.profiles.len();
        if n == 0 {
            return Effect::Nothing;
        }
        let to = (self.active_profile + 1) % n;
        self.switch_profile(to);
        Effect::ProfileChanged
    }

    /// Switches to the previous profile, wrapping round (see
    /// `next_profile`).
    pub fn prev_profile(&mut self) -> (e: Effect)
        requires
            old(self).wf(),
        ensures
            final(self).wf(),
            after_prev_profile(*old(self), *final(self), e),
    {
        let n = self.config.profiles.len();
        if n == 0 {
            return Effect::Nothing;
        }
        let to = if self.active_profile == 0 { n - 1 } else { self.active_profile - 1 };
        self.switch_profile(to);
        Effect::ProfileChanged
    }

    fn switch_profile(&mut self, to: usize)
        requires
            old(self).wf(),
            to < old(self).config.profiles@.len(),
        ensures
            final(self).wf(),
            final(self).active_profile == to,
            self_after_profile(*old(self), *final(self)),
    {
        self.set_profile_settings(to);
        self.drop_unplanned();
        proof {
            reveal(self_after_profile);
        }
    }

    fn set_profile_settings(&mut self, to: usize)
        requires
            to < old(self).config.profiles@.len(),
        ensures
            *final(self) == (App { active_profile: to, effective: final(self).effective, runtime_plan: final(self).runtime_plan, ..*old(self) }),
            effective_matches(&old(self).config, Some(&old(self).config.profiles@[to as int]), &old(self).fallback_theme, &final(self).effective),
            final(self).runtime_plan.panels.sidebar == final(self).effective.panels.sidebar,
            final(self).runtime_plan.panels.search_bar == final(self).effective.panels.search_bar,
            final(self).runtime_plan.panels.columns == final(self).effective.panels.columns,
            final(self).runtime_plan.panels.preview == final(self).effective.panels.preview,
            final(self).runtime_plan.panels.status_bar == final(self).effective.panels.status_bar,
            final(self).runtime_plan.panels.keymap_bar == final(self).effective.panels.keymap_bar,
            final(self).runtime_plan.features.preview_images == (final(self).effective.panels.preview && final(self).effective.preview.images
                && exists|i: int| 0 <= i < final(self).effective.features@.len() && (#[trigger] final(self).effective.features@[i])@ == "preview"@),
    {
        self.active_profile = to;
        let effective = self.config.effective_for_profile(Some(&self.config.profiles[to]), &self.fallback_theme);
        let plan = RuntimePlan::from_effective(&effective);
        self.effective = effective;
        self.runtime_plan = plan;
    }

    fn drop_unplanned(&mut self)
        ensures
            *final(self) == (App {
                recents: final(self).recents,
                drives: final(self).drives,
                image_protocol: final(self).image_protocol,
                simple_selected_paths: final(self).simple_selected_paths,
                simple_range_anchor: None,
                simple_last_range: final(self).simple_last_range,
                simple_column_path: None,
                keybinds_overlay_cache: None,
                ..*old(self)
            }),
            old(self).runtime_plan.panels.sidebar ==> final(self).recents == old(self).recents && final(self).drives == old(self).drives,
            !old(self).runtime_plan.panels.sidebar ==> final(self).recents@.len() == 0 && final(self).drives@.len() == 0,
            final(self).image_protocol == if old(self).runtime_plan.features.preview_images { old(self).image_protocol } else { None },
            final(self).simple_selected_paths@.len() == 0,
            final(self).simple_last_range@.len() == 0,
    {
        if !self.runtime_plan.panels.sidebar {
            self.recents = Vec::new();
            self.drives = Vec::new();
        }
        if !self.runtime_plan.features.preview_images {
            self.image_protocol = None;
        }
        self.simple_selected_paths = Vec::new();
        self.simple_range_anchor = None;
        self.simple_last_range = Vec::new();
        self.simple_column_path = None;
        self.keybinds_overlay_cache = None;
    }
}

/// What switching to the profile `new.active_profile` does besides moving
/// the index: the settings of that profile and their plan, the sidebar lists
/// dropped when the sidebar is hidden, image support dropped when image
/// previews are off, the plain selection cleared, the key bindings frame to
/// be built anew; nothing else changes.
#[verifier::opaque]
pub open spec fn self_after_profile(before: App, after: App) -> bool {
    &&& after.active_profile < before.config.profiles@.len()
    &&& effective_matches(&before.config, Some(&before.config.profiles@[after.active_profile as int]), &before.fallback_theme, &after.effective)
    &&& after.runtime_plan.panels.sidebar == after.effective.panels.sidebar
    &&& after.runtime_plan.panels.search_bar == after.effective.panels.search_bar
    &&& after.runtime_plan.panels.columns == after.effective.panels.columns
    &&& after.runtime_plan.panels.preview == after.effective.panels.preview
    &&& after.runtime_plan.panels.status_bar == after.effective.panels.status_bar
    &&& after.runtime_plan.panels.keymap_bar == after.effective.panels.keymap_bar
    &&& after.runtime_plan.features.preview_images == (after.effective.panels.preview && after.effective.preview.images
        && exists|i: int| 0 <= i < after.effective.features@.len() && (#[trigger] after.effective.features@[i])@ == "preview"@)
    &&& (after.runtime_plan.panels.sidebar ==> after.recents == before.recents && after.drives == before.drives)
    &&& (!after.runtime_plan.panels.sidebar ==> after.recents@.len() == 0 && after.drives@.len() == 0)
    &&& after.image_protocol == if after.runtime_plan.features.preview_images { before.image_protocol } else { None }
    &&& after.simple_selected_paths@.len() == 0
    &&& after.simple_last_range@.len() == 0
    &&& after == (App {
        active_profile: after.active_profile,
        effective: after.effective,
        runtime_plan: after.runtime_plan,
        recents: after.recents,
        drives: after.drives,
        image_protocol: after.image_protocol,
        simple_selected_paths: after.simple_selected_paths,
        simple_range_anchor: None,
        simple_last_range: after.simple_last_range,
        simple_column_path: None,
        keybinds_overlay_cache: None,
        ..before
    })
}

/// What `next_profile` does (see there).
pub open spec fn after_next_profile(pre: App, post: App, e: Effect) -> bool {
    &&& (pre.config.profiles@.len() == 0 ==> post == pre && e == Effect::Nothing)
    &&& (pre.config.profiles@.len() > 0 ==> {
            &&& e == Effect::ProfileChanged
            &&& post.active_profile == next_profile_index(pre.active_profile as int, pre.config.profiles@.len() as int)
            &&& self_after_profile(pre, post)
        })
}

/// What `prev_profile` does (see there).
pub open spec fn after_prev_profile(pre: App, post: App, e: Effect) -> bool {
    &&& (pre.config.profiles@.len() == 0 ==> post == pre && e == Effect::Nothing)
    &&& (pre.config.profiles@.len() > 0 ==> {
            &&& e == Effect::ProfileChanged
            &&& post.active_profile == prev_profile_index(pre.active_profile as int, pre.config.profiles@.len() as int)
            &&& self_after_profile(pre, post)
        })
}

/// Switching to the next profile and back returns to the profile one
/// started from, with that profile's settings in force again and the
/// configuration untouched; the step in between is the next one, wrapping
/// round. Without profiles both calls change nothing.
pub proof fn lemma_profile_switch_round_trip(a0: App, a1: App, a2: App, e1: Effect, e2: Effect)
    requires
        a0.wf(),
        after_next_profile(a0, a1, e1),
        after_prev_profile(a1, a2, e2),
    ensures
        a0.config.profiles@.len() == 0 ==> a1 == a0 && a2 == a0,
        a0.config.profiles@.len() > 0 ==> {
            &&& a1.active_profile == (a0.active_profile + 1) % (a0.config.profiles@.len() as int)
            &&& a2.active_profile == a0.active_profile
            &&& a2.config == a0.config
            &&& effective_matches(&a0.config, Some(&a0.config.profiles@[a0.active_profile as int]), &a0.fallback_theme, &a2.effective)
        },
{
    let n = a0.config.profiles@.len() as int;
    if n > 0 {
        reveal(self_after_profile);
        lemma_profile_round_trip(a0.active_profile as int, n);
    }
}

} // verus!
