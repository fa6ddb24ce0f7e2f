//! Where a key press goes: the overlay on top, the thread picker or the
//! open thread's view, after the keys that work everywhere.
use vstd::prelude::*;
use crate::keys::{KeyCode, KeyInput};
use crate::overlay_actions::{
    approvals_key_request, approvals_request_step, artifacts_key_request, artifacts_request_step,
    processes_key_request, processes_request_step, ApprovalsRequest, ArtifactsRequest, ProcessesRequest,
};
use crate::palette::{handle_key_command_palette, palette_key_step, PaletteCommand};
use crate::palette_exec::{palette_command_step, PaletteFollowUp};
use crate::ui_state::{
    handle_key_text_overlay, local_key_ok, text_key_step, under_palette, Overlay, UiCore, MAX_TRANSCRIPT_ITEMS,
};

verus! {

/// What the caller does after a key was handed to the overlay on top.
#[derive(Debug)]
pub enum OverlayKeyFollowUp {
    Nothing,
    /// The overlay on top was closed.
    Closed,
    /// The approvals overlay asks for this.
    Approvals(ApprovalsRequest),
    /// The processes overlay asks for this.
    Processes(ProcessesRequest),
    /// The artifacts overlay asks for this.
    Artifacts(ArtifactsRequest),
    /// The palette on top chose `command`, which was begun; `then` is what
    /// the caller does for it.
    Palette { command: PaletteCommand, then: PaletteFollowUp },
}

/// The overlays can take a key: their counters can grow, and a palette on
/// top is well formed.
pub open spec fn overlays_ready(s: UiCore) -> bool {
    let os = s.overlays@;
    &&& s.transcript@.len() <= MAX_TRANSCRIPT_ITEMS
    &&& local_key_ok(os)
    &&& local_key_ok(under_palette(os))
    &&& (os.len() > 0 && os.last() is CommandPalette ==> os.last()->CommandPalette_0.wf())
}

/// Only the overlay on top changed, to `top`.
pub open spec fn top_replaced(before: UiCore, after: UiCore) -> bool {
    &&& after == (UiCore { overlays: after.overlays, ..before })
    &&& after.overlays@.len() == before.overlays@.len()
    &&& after.overlays@.drop_last() == before.overlays@.drop_last()
}

/// Esc, or `q` on an overlay that is not a palette, closes the overlay.
pub open spec fn closes_overlay(top: Overlay, key: KeyInput) -> bool {
    key.code == KeyCode::Esc || (key.code == KeyCode::Char('q') && !(top is CommandPalette))
}

/// What an overlay's handler does with a key: the overlay after it and what
/// it asks for (a palette only edits its query or moves its selection).
pub open spec fn top_key_answer(top: Overlay, after: Overlay, key: KeyInput, f: OverlayKeyFollowUp) -> bool {
    match top {
        Overlay::Approvals(v) => after matches Overlay::Approvals(w) && f matches OverlayKeyFollowUp::Approvals(r)
            && approvals_request_step(v, w, key.code, r),
        Overlay::Processes(v) => after matches Overlay::Processes(w) && f matches OverlayKeyFollowUp::Processes(r)
            && processes_request_step(v, w, key.code, r),
        Overlay::Artifacts(v) => after matches Overlay::Artifacts(w) && f matches OverlayKeyFollowUp::Artifacts(r)
            && artifacts_request_step(v, w, key.code, r),
        Overlay::Text(v) => after matches Overlay::Text(w) && text_key_step(key.code, v, w) && f is Nothing,
        Overlay::CommandPalette(p) => after matches Overlay::CommandPalette(q) && palette_key_step(key, p, q, None)
            && f is Nothing,
    }
}

/// The overlay on top closed by the key.
#[verifier::opaque]
pub open spec fn overlay_closed(before: UiCore, after: UiCore) -> bool {
    let os = before.overlays@;
    let palette = os.last() is CommandPalette;
    &&& after == (UiCore {
        overlays: after.overlays,
        model_fetch_active: if palette { false } else { before.model_fetch_active },
        model_fetch_pending: if palette { false } else { before.model_fetch_pending },
        ..before
    })
    &&& after.overlays@ == os.drop_last()
}

/// The overlay on top took the key.
#[verifier::opaque]
pub open spec fn overlay_took_key(before: UiCore, after: UiCore, key: KeyInput, f: OverlayKeyFollowUp) -> bool {
    top_replaced(before, after) && top_key_answer(before.overlays@.last(), after.overlays@.last(), key, f)
}

/// What a key does to the overlay on top.
#[verifier::opaque]
pub open spec fn overlay_key_step(before: UiCore, after: UiCore, key: KeyInput, f: OverlayKeyFollowUp) -> bool {
    let os = before.overlays@;
    if os.len() == 0 {
        after == before && f is Nothing
    } else if closes_overlay(os.last(), key) {
        overlay_closed(before, after) && f is Closed
    } else if os.last() is CommandPalette && key.code == KeyCode::Enter {
        match f {
            OverlayKeyFollowUp::Palette { command, then } => palette_key_step(key, os.last()->CommandPalette_0, os.last()->CommandPalette_0, Some(command))
                && palette_command_step(before, after, command, then),
            _ => f is Nothing && after == before && palette_key_step(key, os.last()->CommandPalette_0, os.last()->CommandPalette_0, None),
        }
    } else {
        overlay_took_key(before, after, key, f)
    }
}

/// Hands a key to an overlay's handler.
fn top_take_key(top: Overlay, key: KeyInput) -> (r: (Overlay, OverlayKeyFollowUp))
    requires
        local_key_ok(seq![top]),
        top is CommandPalette ==> top->CommandPalette_0.wf() && key.code != KeyCode::Enter,
    ensures
        top_key_answer(top, r.0, key, r.1),
{
    match top {
        Overlay::Approvals(mut v) => {
            let r = approvals_key_request(&mut v, key.code);
            (Overlay::Approvals(v), OverlayKeyFollowUp::Approvals(r))
        },
        Overlay::Processes(mut v) => {
            let r = processes_key_request(&mut v, key.code);
            (Overlay::Processes(v), OverlayKeyFollowUp::Processes(r))
        },
        Overlay::Artifacts(mut v) => {
            let r = artifacts_key_request(&mut v, key.code);
            (Overlay::Artifacts(v), OverlayKeyFollowUp::Artifacts(r))
        },
        Overlay::Text(mut v) => {
            handle_key_text_overlay(key.code, &mut v);
            (Overlay::Text(v), OverlayKeyFollowUp::Nothing)
        },
        Overlay::CommandPalette(mut p) => {
            let _ = handle_key_command_palette(key, &mut p);
            (Overlay::CommandPalette(p), OverlayKeyFollowUp::Nothing)
        },
    }
}

impl UiCore {
    /// Hands a key to the overlay on top: Esc (or `q` outside a palette)
    /// closes it; otherwise its handler takes the key, and a command chosen
    /// in a palette is begun.
    pub fn handle_overlay_key(&mut self, key: KeyInput) -> (f: OverlayKeyFollowUp)
        requires
            overlays_ready(*old(self)),
        ensures
            overlay_key_step(*old(self), *final(self), key, f),
            final(self).transcript@.len() <= MAX_TRANSCRIPT_ITEMS,
    {
        proof {
            reveal(overlay_key_step);
        }
        let n = self.overlays.len();
        if n == 0 {
            return OverlayKeyFollowUp::Nothing;
        }
        let palette_on_top = match &self.overlays[n - 1] {
            Overlay::CommandPalette(_) => true,
            _ => false,
        };
        if key.code == KeyCode::Esc || (key.code == KeyCode::Char('q') && !palette_on_top) {
            self.close_top_overlay(palette_on_top);
            return OverlayKeyFollowUp::Closed;
        }
        if palette_on_top && key.code == KeyCode::Enter {
            return self.palette_enter(key);
        }
        self.key_to_top(key)
    }

    /// Enter in the palette on top: the command it chooses is begun.
    fn palette_enter(&mut self, key: KeyInput) -> (f: OverlayKeyFollowUp)
        requires
            overlays_ready(*old(self)),
            old(self).overlays@.len() > 0,
            old(self).overlays@.last() is CommandPalette,
            key.code == KeyCode::Enter,
        ensures
            ({
                let p = old(self).overlays@.last()->CommandPalette_0;
                match f {
                    OverlayKeyFollowUp::Palette { command, then } => palette_key_step(key, p, p, Some(command))
                        && palette_command_step(*old(self), *final(self), command, then),
                    _ => f is Nothing && *final(self) == *old(self) && palette_key_step(key, p, p, None),
                }
            }),
            final(self).transcript@.len() <= MAX_TRANSCRIPT_ITEMS,
    {
        let n = self.overlays.len();
        let chosen = match &self.overlays[n - 1] {
            Overlay::CommandPalette(p) => crate::palette::palette_enter_command(p),
            _ => None,
        };
        match chosen {
            Some(command) => {
                let then = self.begin_palette_command(command.clone());
                OverlayKeyFollowUp::Palette { command, then }
            },
            None => OverlayKeyFollowUp::Nothing,
        }
    }

    /// Hands a key to the handler of the overlay on top.
    #[verifier::spinoff_prover]
    fn key_to_top(&mut self, key: KeyInput) -> (f: OverlayKeyFollowUp)
        requires
            overlays_ready(*old(self)),
            old(self).overlays@.len() > 0,
            old(self).overlays@.last() is CommandPalette ==> key.code != KeyCode::Enter,
        ensures
            overlay_took_key(*old(self), *final(self), key, f),
            final(self).transcript@.len() <= MAX_TRANSCRIPT_ITEMS,
    {
        proof {
            reveal(overlay_took_key);
        }
        let ghost s0 = *self;
        let top = match self.pop_top() {
            Some(o) => o,
            None => return OverlayKeyFollowUp::Nothing,
        };
        proof {
            assert(seq![top].last() == top);
        }
        let (after, f) = top_take_key(top, key);
        self.push_top(after);
        assert(self.overlays@.drop_last() =~= s0.overlays@.drop_last());
        f
    }

    /// Closes the overlay on top; closing a palette gives up the model
    /// fetch it waits for.
    fn close_top_overlay(&mut self, palette: bool)
        requires
            old(self).overlays@.len() > 0,
            palette == old(self).overlays@.last() is CommandPalette,
        ensures
            overlay_closed(*old(self), *final(self)),
            final(self).transcript == old(self).transcript,
    {
        proof {
            reveal(overlay_closed);
        }
        if palette {
            self.model_fetch_active = false;
            self.model_fetch_pending = false;
        }
        self.overlays.pop();
    }
}

} // verus!
