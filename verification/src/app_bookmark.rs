//! Setting bookmarks.
use vstd::prelude::*;

use crate::app_session::{find_slot, slot_index};
use crate::app_state::{App, DialogState};
use crate::layout::{AppConfig, Bookmark};
use crate::paths::last_segment;
use crate::text::with_char;

verus! {

impl App {
    fn push_bookmark(&mut self, b: Bookmark)
        ensures
            final(self).config.sidebar.bookmarks@ == old(self).config.sidebar.bookmarks@.push(b),
            *final(self) == (App {
                config: AppConfig {
                    sidebar: crate::layout::SidebarConfig { bookmarks: final(self).config.sidebar.bookmarks, ..old(self).config.sidebar },
                    ..old(self).config
                },
                ..*old(self)
            }),
    {
        self.config.sidebar.bookmarks.push(b);
    }

    fn add_bookmark(&mut self, slot: char, target: String)
        ensures
            *final(self) == (App {
                status_message: final(self).status_message,
                config: AppConfig {
                    sidebar: crate::layout::SidebarConfig { bookmarks: final(self).config.sidebar.bookmarks, ..old(self).config.sidebar },
                    ..old(self).config
                },
                ..*old(self)
            }),
            final(self).config.sidebar.bookmarks@ == old(self).config.sidebar.bookmarks@.push(Bookmark {
                slot: final(self).config.sidebar.bookmarks@.last().slot,
                name: final(self).config.sidebar.bookmarks@.last().name,
                path: target,
            }),
            final(self).config.sidebar.bookmarks@.last().slot == if '0' <= slot <= '9' { Some(((slot as u32) - ('0' as u32)) as u8) } else { None },
            final(self).config.sidebar.bookmarks@.last().name@ == last_segment(target@),
            final(self).status_message@ == "set bookmark "@ + seq![slot],
    {
        let label = crate::paths::path_last_segment(target.as_str());
        let slot_num: Option<u8> = if '0' <= slot && slot <= '9' { Some((slot as u32 - '0' as u32) as u8) } else { None };
        self.push_bookmark(Bookmark { slot: slot_num, name: label, path: target });
        self.status_message = with_char("set bookmark ", slot, "");
        proof {
            reveal_strlit("");
        }
        assert(self.status_message@ =~= "set bookmark "@ + seq![slot]);
    }

    /// Sets a bookmark slot to `target` (checked to be a directory): a new
    /// bookmark named after the directory where the slot is free; a request
    /// to confirm where the slot holds another directory; a report where it
    /// already holds this one. A target that is not a directory is refused.
    #[verifier::rlimit(60)]
    pub fn set_bookmark_slot(&mut self, slot: char, target: String, target_is_dir: bool)
        requires
            old(self).wf(),
        ensures
            final(self).wf(),
            !target_is_dir ==> {
                &&& *final(self) == (App { status_message: final(self).status_message, ..*old(self) })
                &&& final(self).status_message@ == "bookmark target must be a directory"@
            },
            target_is_dir ==> match slot_index(old(self).config.sidebar.bookmarks@, slot) {
                None => {
                    &&& *final(self) == (App {
                        status_message: final(self).status_message,
                        config: AppConfig {
                            sidebar: crate::layout::SidebarConfig { bookmarks: final(self).config.sidebar.bookmarks, ..old(self).config.sidebar },
                            ..old(self).config
                        },
                        ..*old(self)
                    })
                    &&& final(self).config.sidebar.bookmarks@ == old(self).config.sidebar.bookmarks@.push(Bookmark {
                        slot: final(self).config.sidebar.bookmarks@.last().slot,
                        name: final(self).config.sidebar.bookmarks@.last().name,
                        path: target,
                    })
                    &&& final(self).config.sidebar.bookmarks@.last().slot == if '0' <= slot <= '9' { Some(((slot as u32) - ('0' as u32)) as u8) } else { None }
                    &&& final(self).config.sidebar.bookmarks@.last().name@ == last_segment(target@)
                    &&& final(self).status_message@ == "set bookmark "@ + seq![slot]
                },
                Some(k) => {
                    let existing = old(self).config.sidebar.bookmarks@[k];
                    if existing.path@ != target@ {
                        &&& *final(self) == (App { dialog: final(self).dialog, ..*old(self) })
                        &&& final(self).dialog matches Some(DialogState::ConfirmBookmarkOverwrite { slot: s, existing_path: ep, new_path: np, yes_selected: y })
                            && s == slot && ep == existing.path && np == target && y
                    } else {
                        &&& *final(self) == (App { status_message: final(self).status_message, ..*old(self) })
                        &&& final(self).status_message@ == "bookmark "@ + seq![slot] + " unchanged"@
                    }
                },
            },
    {
        if !target_is_dir {
            self.status_message = "bookmark target must be a directory".to_owned();
            return;
        }
        match find_slot(&self.config.sidebar.bookmarks, slot) {
            Some(k) => {
                if !crate::text::str_eq(self.config.sidebar.bookmarks[k].path.as_str(), target.as_str()) {
                    let existing_path = self.config.sidebar.bookmarks[k].path.clone();
                    self.dialog = Some(DialogState::ConfirmBookmarkOverwrite {
                        slot,
                        existing_path,
                        new_path: target,
                        yes_selected: true,
                    });
                    return;
                }
                self.status_message = with_char("bookmark ", slot, " unchanged");
            },
            None => {
                self.add_bookmark(slot, target);
            },
        }
    }

}

} // verus!
