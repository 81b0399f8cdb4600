//! The keys of the update mode.

use crate::app::App;
use crate::keys::{scroll_by_key, scroll_key, visible_rows, Key, KeyCode};
use crate::state::{mode_content, visible_content_height, UpdateModeState, UpdatePhase, ViewMode};
use crate::text::texts;
use vstd::prelude::*;

verus! {

pub const WAITING_UPDATE: &'static str = "等待更新...";

/// The number of lines the update mode shows.
pub open spec fn update_total(s: UpdateModeState) -> usize {
    mode_content(s.view_mode, s.output, texts(s.lines@), s.analysis, WAITING_UPDATE@).len() as usize
}

pub open spec fn other_view(v: ViewMode) -> ViewMode {
    match v {
        ViewMode::UpdateLog => ViewMode::AIAnalysis,
        ViewMode::AIAnalysis => ViewMode::UpdateLog,
    }
}

/// The update mode after a key, and whether the key was of use: Tab
/// switches between log and analysis once the analysis is there; the
/// scroll keys scroll.
pub open spec fn update_key_spec(pre: UpdateModeState, key: Key, term_height: u16) -> (
    UpdateModeState,
    bool,
) {
    match key.code {
        KeyCode::Tab => (
            if pre.phase == UpdatePhase::AnalysisComplete {
                UpdateModeState { view_mode: other_view(pre.view_mode), scroll: 0, ..pre }
            } else {
                pre
            },
            true,
        ),
        _ => match scroll_key(pre.scroll, key.code, update_total(pre), visible_rows(term_height)) {
            Some(scroll) => (UpdateModeState { scroll, ..pre }, true),
            None => (pre, false),
        },
    }
}

pub fn toggled_view(v: ViewMode) -> (r: ViewMode)
    ensures
        r == other_view(v),
{
    match v {
        ViewMode::UpdateLog => ViewMode::AIAnalysis,
        ViewMode::AIAnalysis => ViewMode::UpdateLog,
    }
}

impl App {
    /// Handles a key in the update mode; tells whether it was of use.
    pub fn handle_update_key(&mut self, key: Key, term_height: u16) -> (consumed: bool)
        ensures
            (final(self).update, consumed) == update_key_spec(old(self).update, key, term_height),
            *final(self) == (App { update: final(self).update, ..*old(self) }),
    {
        match key.code {
            KeyCode::Tab => {
                if self.update.phase == UpdatePhase::AnalysisComplete {
                    self.update.view_mode = toggled_view(self.update.view_mode);
                    self.update.scroll = 0;
                }
                true
            },
            _ => {
                let content = self.update.get_content();
                assert(content@.len() == texts(content@).len());
                let visible = visible_content_height(term_height);
                match scroll_by_key(self.update.scroll, key.code, content.len(), visible) {
                    Some(scroll) => {
                        self.update.scroll = scroll;
                        true
                    },
                    None => false,
                }
            },
        }
    }
}

} // verus!
