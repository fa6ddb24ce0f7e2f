//! Keys in the open thread's view: scrolling the transcript, editing the
//! composer, running what the inline palette offers, and starting a turn.
//! What needs the server is handed back to the caller.
use vstd::prelude::*;
use crate::inline_context::{list_command_of, InlinePaletteKind};
use crate::inline_exec::{
    inline_command_step, list_command_step, token_bytes_ok, InlineCommandFollowUp, InlineFollowUp, ListFollowUp,
    inline_update_step,
};
use crate::keys::{KeyCode, KeyInput};
use crate::palette::{CommandPaletteOverlay, PaletteCommand};
use crate::palette_exec::{only_status, shows};
use crate::text::{chars_of, owned, pop_char, push_char, push_str, string_of, trim, trim_chars};
use crate::ui_state::{local_key_ok, next_thinking_level, thinking_index, thinking_levels, under_palette, UiCore, MAX_TRANSCRIPT_ITEMS};

verus! {

/// What the caller does after a key in the thread view.
#[derive(Debug)]
pub enum ThreadViewFollowUp {
    Nothing,
    /// Leave the thread view.
    Quit,
    OpenApprovals,
    OpenProcesses,
    OpenArtifacts,
    /// Set this thread's thinking level, then call `finish_cycle_thinking`.
    SetThinking(u128, String),
    /// Start a turn of this thread with this text, then call `turn_started`
    /// (or report the error).
    StartTurn(u128, String),
    /// The composer changed: follow up on the inline palette.
    Update(InlineFollowUp),
    /// The line was read as a list command.
    List(ListFollowUp),
    /// A command chosen in the inline palette.
    Inline(InlineCommandFollowUp),
}

/// `u16::saturating_sub`.
pub open spec fn sat_sub16(a: u16, b: u16) -> u16 {
    if a >= b { (a - b) as u16 } else { 0 }
}

/// `u16::saturating_add`.
pub open spec fn sat_add16(a: u16, b: u16) -> u16 {
    if a + b > u16::MAX { u16::MAX } else { (a + b) as u16 }
}

/// A page of the transcript: the pane's rows less one, at least one.
pub open spec fn page_rows(ui: UiCore) -> u16 {
    let p = sat_sub16(ui.transcript_viewport_height, 1);
    if p >= 1 { p } else { 1 }
}

/// Scrolled up by `n` lines; the transcript stops following.
pub open spec fn scrolled_up(before: UiCore, after: UiCore, n: u16) -> bool {
    after == (UiCore { transcript_follow: false, transcript_scroll: sat_sub16(before.transcript_scroll, n), ..before })
}

/// Scrolled down by `n` lines; reaching the end follows the transcript again.
pub open spec fn scrolled_down(before: UiCore, after: UiCore, n: u16) -> bool {
    let s = sat_add16(before.transcript_scroll, n);
    if s >= before.transcript_max_scroll {
        after == (UiCore { transcript_follow: true, transcript_scroll: before.transcript_max_scroll, ..before })
    } else {
        after == (UiCore { transcript_follow: false, transcript_scroll: s, ..before })
    }
}

/// The command selected in a palette, if any.
pub open spec fn palette_selected(v: CommandPaletteOverlay) -> Option<PaletteCommand> {
    if v.selected < v.filtered.len() && v.filtered@[v.selected as int] < v.items.len() {
        Some(v.items@[v.filtered@[v.selected as int] as int].action)
    } else {
        None
    }
}

/// The composer was edited into `text`, then the inline palette was
/// brought up to date.
#[verifier::opaque]
pub open spec fn edited(before: UiCore, after: UiCore, f: ThreadViewFollowUp, text: Seq<char>) -> bool {
    f matches ThreadViewFollowUp::Update(g) && exists|mid: UiCore|
        #[trigger] inline_update_step(mid, after, g) && mid == (UiCore {
            input: mid.input,
            transcript_follow: true,
            ..before
        }) && mid.input@ == text
}

/// Enter while the inline palette is open: a list command, else the
/// selected command, else a model name typed into the model palette.
#[verifier::opaque]
pub open spec fn inline_enter(before: UiCore, after: UiCore, f: ThreadViewFollowUp) -> bool {
    if list_command_of(before.input@) is Some {
        f matches ThreadViewFollowUp::List(g) && list_command_step(before, after, g)
    } else {
        let p = before.inline_palette->0;
        match palette_selected(p.view) {
            Some(cmd) => f matches ThreadViewFollowUp::Inline(g) && inline_command_step(before, after, cmd, g),
            None => if p.kind == InlinePaletteKind::Model && trim(p.view.query@).len() > 0 {
                f matches ThreadViewFollowUp::Inline(g) && exists|m: String|
                    #[trigger] inline_command_step(before, after, PaletteCommand::SetModel(m), g) && m@ == trim(
                        p.view.query@,
                    )
            } else {
                after == before && f is Nothing
            },
        }
    }
}

/// Enter in the composer: a turn starts with its text (when there is
/// text, an open thread, and no turn being started).
#[verifier::opaque]
pub open spec fn composer_enter(before: UiCore, after: UiCore, f: ThreadViewFollowUp) -> bool {
    if trim(before.input@).len() == 0 {
        after == before && f is Nothing
    } else {
        match before.active_thread {
            None => after == before && f is Nothing,
            Some(id) => if before.turn_start_pending {
                f is Nothing && only_status(before, after, "turn/start pending"@)
            } else {
                after == before && (f matches ThreadViewFollowUp::StartTurn(t, text) && t == id && text@
                    == before.input@)
            },
        }
    }
}

/// What a key does in the thread view.
pub open spec fn thread_view_key_step(before: UiCore, after: UiCore, key: KeyInput, f: ThreadViewFollowUp) -> bool {
    let inline_active = before.inline_palette is Some;
    if key.ctrl && key.code == KeyCode::Char('a') {
        after == before && f is OpenApprovals
    } else if key.ctrl && key.code == KeyCode::Char('p') {
        after == before && f is OpenProcesses
    } else if key.ctrl && key.code == KeyCode::Char('o') {
        after == before && f is OpenArtifacts
    } else {
        match key.code {
            KeyCode::Tab => if key.ctrl {
                after == before && f is Nothing
            } else {
                after == before && match before.active_thread {
                    None => f is Nothing,
                    Some(id) => f matches ThreadViewFollowUp::SetThinking(t, level) && t == id && level@
                        == thinking_levels()[(thinking_index(crate::tool_format::opt_string(before.header.thinking)) + 1) % 4],
                }
            },
            KeyCode::Up => f is Nothing && if key.ctrl || !inline_active {
                scrolled_up(before, after, 1)
            } else {
                palette_moved(before, after, -1int)
            },
            KeyCode::Down => f is Nothing && if key.ctrl || !inline_active {
                scrolled_down(before, after, 1)
            } else {
                palette_moved(before, after, 1int)
            },
            KeyCode::PageUp => f is Nothing && scrolled_up(before, after, page_rows(before)),
            KeyCode::PageDown => f is Nothing && scrolled_down(before, after, page_rows(before)),
            KeyCode::Home => f is Nothing && after == (UiCore {
                transcript_follow: false,
                transcript_scroll: 0,
                ..before
            }),
            KeyCode::End => f is Nothing && after == (UiCore {
                transcript_follow: true,
                transcript_scroll: before.transcript_max_scroll,
                ..before
            }),
            KeyCode::Esc => if trim(before.input@).len() > 0 {
                edited(before, after, f, seq![])
            } else {
                after == before && f is Quit
            },
            KeyCode::Enter => if key.ctrl {
                edited(before, after, f, before.input@.push('\n'))
            } else if inline_active {
                inline_enter(before, after, f)
            } else {
                composer_enter(before, after, f)
            },
            KeyCode::Backspace => edited(
                before,
                after,
                f,
                if before.input@.len() > 0 { before.input@.drop_last() } else { before.input@ },
            ),
            KeyCode::Char(c) => if key.ctrl {
                after == before && f is Nothing
            } else {
                edited(before, after, f, before.input@.push(c))
            },
            _ => after == before && f is Nothing,
        }
    }
}

/// The inline palette's selection moved by `delta` (up when negative, down
/// when positive; kept within its entries).
pub open spec fn palette_moved(before: UiCore, after: UiCore, delta: int) -> bool {
    let p = before.inline_palette->0;
    let n = p.view.filtered.len();
    let sel: usize = if n == 0 {
        0
    } else if delta < 0 {
        if p.view.selected > 0 { (p.view.selected - 1) as usize } else { 0 }
    } else if delta > 0 {
        if p.view.selected + 1 < n { (p.view.selected + 1) as usize } else { (n - 1) as usize }
    } else {
        p.view.selected
    };
    &&& after == (UiCore { inline_palette: after.inline_palette, ..before })
    &&& after.inline_palette matches Some(q) && q.kind == p.kind && q.view == (CommandPaletteOverlay {
        selected: sel,
        ..p.view
    })
}

impl UiCore {
    fn scroll_up(&mut self, n: u16)
        ensures
            scrolled_up(*old(self), *final(self), n),
    {
        self.transcript_follow = false;
        self.transcript_scroll = self.transcript_scroll.saturating_sub(n);
    }

    #[verifier::spinoff_prover]
    #[verifier::rlimit(30)]
    fn scroll_down(&mut self, n: u16)
        ensures
            scrolled_down(*old(self), *final(self), n),
    {
        self.transcript_follow = false;
        self.transcript_scroll = self.transcript_scroll.saturating_add(n);
        if self.transcript_scroll >= self.transcript_max_scroll {
            self.transcript_scroll = self.transcript_max_scroll;
            self.transcript_follow = true;
        }
    }

    /// A page of the transcript.
    pub fn transcript_page(&self) -> (r: u16)
        ensures
            r == page_rows(*self),
    {
        let p = self.transcript_viewport_height.saturating_sub(1);
        if p >= 1 { p } else { 1 }
    }

    /// Moves the inline palette's selection by `delta` (its sign only).
    pub fn move_inline_selection(&mut self, delta: i32)
        requires
            old(self).inline_palette is Some,
        ensures
            palette_moved(*old(self), *final(self), delta as int),
    {
        match self.inline_palette.take() {
            Some(mut p) => {
                let n = p.view.filtered.len();
                if n == 0 {
                    p.view.selected = 0;
                } else if delta < 0 {
                    p.view.selected = if p.view.selected > 0 { p.view.selected - 1 } else { 0 };
                } else if delta > 0 {
                    p.view.selected = if p.view.selected < n - 1 { p.view.selected + 1 } else { n - 1 };
                }
                self.inline_palette = Some(p);
            },
            None => {},
        }
    }

    /// Edits the composer into its new text and brings the inline palette
    /// up to date.
    fn composer_edited(&mut self, text: String) -> (f: ThreadViewFollowUp)
        ensures
            edited(*old(self), *final(self), f, text@),
            final(self).transcript == old(self).transcript,
    {
        reveal(edited);
        self.input = text;
        self.transcript_follow = true;
        let ghost mid = *self;
        let g = self.update_inline_palette();
        assert(inline_update_step(mid, *self, g));
        ThreadViewFollowUp::Update(g)
    }
}

/// How starting a turn ended.
#[derive(Debug)]
pub enum TurnStartOutcome {
    Started(u128),
    /// The server answered with an error.
    Failed(String),
    /// The starting task itself failed.
    TaskFailed(String),
}

impl UiCore {
    /// Handles a key in the open thread's view.
    pub fn handle_thread_view_key(&mut self, key: KeyInput) -> (f: ThreadViewFollowUp)
        requires
            old(self).transcript@.len() <= MAX_TRANSCRIPT_ITEMS,
            local_key_ok(under_palette(old(self).overlays@)),
            token_bytes_ok(old(self).input@),
        ensures
            thread_view_key_step(*old(self), *final(self), key, f),
            final(self).transcript@.len() <= MAX_TRANSCRIPT_ITEMS,
    {
        if key.ctrl {
            match key.code {
                KeyCode::Char('a') => return ThreadViewFollowUp::OpenApprovals,
                KeyCode::Char('p') => return ThreadViewFollowUp::OpenProcesses,
                KeyCode::Char('o') => return ThreadViewFollowUp::OpenArtifacts,
                _ => {},
            }
        }
        match key.code {
            KeyCode::Up | KeyCode::Down | KeyCode::PageUp | KeyCode::PageDown | KeyCode::Home | KeyCode::End => {
                self.handle_scroll_key(key)
            },
            _ => self.handle_edit_key(key),
        }
    }

    /// The keys that scroll the transcript or move the inline selection.
    fn handle_scroll_key(&mut self, key: KeyInput) -> (f: ThreadViewFollowUp)
        requires
            !(key.ctrl && (key.code == KeyCode::Char('a') || key.code == KeyCode::Char('p') || key.code
                == KeyCode::Char('o'))),
            key.code is Up || key.code is Down || key.code is PageUp || key.code is PageDown || key.code is Home
                || key.code is End,
        ensures
            thread_view_key_step(*old(self), *final(self), key, f),
            final(self).transcript == old(self).transcript,
    {
        let inline_active = self.inline_palette.is_some();
        match key.code {
            KeyCode::Up => {
                if key.ctrl || !inline_active {
                    self.scroll_up(1);
                } else {
                    self.move_inline_selection(-1);
                }
            },
            KeyCode::Down => {
                if key.ctrl || !inline_active {
                    self.scroll_down(1);
                } else {
                    self.move_inline_selection(1);
                }
            },
            KeyCode::PageUp => {
                let n = self.transcript_page();
                self.scroll_up(n);
            },
            KeyCode::PageDown => {
                let n = self.transcript_page();
                self.scroll_down(n);
            },
            KeyCode::Home => {
                self.transcript_follow = false;
                self.transcript_scroll = 0;
            },
            _ => {
                self.transcript_scroll = self.transcript_max_scroll;
                self.transcript_follow = true;
            },
        }
        ThreadViewFollowUp::Nothing
    }

    /// The keys that edit or send the composer's text.
    fn handle_edit_key(&mut self, key: KeyInput) -> (f: ThreadViewFollowUp)
        requires
            old(self).transcript@.len() <= MAX_TRANSCRIPT_ITEMS,
            local_key_ok(under_palette(old(self).overlays@)),
            token_bytes_ok(old(self).input@),
            !(key.ctrl && (key.code == KeyCode::Char('a') || key.code == KeyCode::Char('p') || key.code
                == KeyCode::Char('o'))),
            !(key.code is Up || key.code is Down || key.code is PageUp || key.code is PageDown || key.code is Home
                || key.code is End),
        ensures
            thread_view_key_step(*old(self), *final(self), key, f),
            final(self).transcript@.len() <= MAX_TRANSCRIPT_ITEMS,
    {
        let inline_active = self.inline_palette.is_some();
        match key.code {
            KeyCode::Tab => {
                if key.ctrl {
                    ThreadViewFollowUp::Nothing
                } else {
                    self.thinking_target()
                }
            },
            KeyCode::Esc => {
                let cs = chars_of(self.input.as_str());
                if trim_chars(cs.as_slice()).len() > 0 {
                    self.composer_edited(String::new())
                } else {
                    ThreadViewFollowUp::Quit
                }
            },
            KeyCode::Enter => {
                if key.ctrl {
                    let mut text = self.input.clone();
                    push_char(&mut text, '\n');
                    self.composer_edited(text)
                } else if inline_active {
                    self.inline_enter()
                } else {
                    self.composer_enter()
                }
            },
            KeyCode::Backspace => {
                let mut text = self.input.clone();
                pop_char(&mut text);
                self.composer_edited(text)
            },
            KeyCode::Char(c) => {
                if key.ctrl {
                    ThreadViewFollowUp::Nothing
                } else {
                    let mut text = self.input.clone();
                    push_char(&mut text, c);
                    self.composer_edited(text)
                }
            },
            _ => ThreadViewFollowUp::Nothing,
        }
    }

    /// The thinking level Tab moves the open thread to.
    fn thinking_target(&self) -> (f: ThreadViewFollowUp)
        ensures
            match self.active_thread {
                None => f is Nothing,
                Some(id) => f matches ThreadViewFollowUp::SetThinking(t, level) && t == id && level@
                    == thinking_levels()[(thinking_index(crate::tool_format::opt_string(self.header.thinking)) + 1) % 4],
            },
    {
        match self.active_thread {
            Some(id) => {
                let current: Option<&str> = match &self.header.thinking {
                    Some(t) => Some(t.as_str()),
                    None => None,
                };
                let next = next_thinking_level(current);
                ThreadViewFollowUp::SetThinking(id, owned(next))
            },
            None => ThreadViewFollowUp::Nothing,
        }
    }

    fn inline_enter(&mut self) -> (f: ThreadViewFollowUp)
        requires
            old(self).inline_palette is Some,
            old(self).transcript@.len() <= MAX_TRANSCRIPT_ITEMS,
            local_key_ok(under_palette(old(self).overlays@)),
            token_bytes_ok(old(self).input@),
        ensures
            inline_enter(*old(self), *final(self), f),
            final(self).transcript@.len() <= MAX_TRANSCRIPT_ITEMS,
    {
        reveal(inline_enter);
        let ghost start = *self;
        match self.begin_inline_list_command() {
            ListFollowUp::NotList => {},
            g => {
                return ThreadViewFollowUp::List(g);
            },
        }
        assert(*self == start);
        let selected = match &self.inline_palette {
            Some(p) => p.view.selected_action(),
            None => None,
        };
        match selected {
            Some(cmd) => {
                let g = self.begin_inline_command(cmd);
                ThreadViewFollowUp::Inline(g)
            },
            None => {
                let typed: Option<String> = match &self.inline_palette {
                    Some(p) => if p.kind == InlinePaletteKind::Model {
                        let qc = chars_of(p.view.query.as_str());
                        let t = trim_chars(qc.as_slice());
                        if t.len() > 0 {
                            Some(string_of(t.as_slice()))
                        } else {
                            None
                        }
                    } else {
                        None
                    },
                    None => None,
                };
                match typed {
                    Some(m) => {
                        let ghost mv = m;
                        let g = self.begin_inline_command(PaletteCommand::SetModel(m));
                        assert(inline_command_step(start, *self, PaletteCommand::SetModel(mv), g));
                        ThreadViewFollowUp::Inline(g)
                    },
                    None => ThreadViewFollowUp::Nothing,
                }
            },
        }
    }

    fn composer_enter(&mut self) -> (f: ThreadViewFollowUp)
        requires
            old(self).transcript@.len() <= MAX_TRANSCRIPT_ITEMS,
        ensures
            composer_enter(*old(self), *final(self), f),
            final(self).transcript@.len() <= MAX_TRANSCRIPT_ITEMS,
    {
        reveal(composer_enter);
        let cs = chars_of(self.input.as_str());
        if trim_chars(cs.as_slice()).len() == 0 {
            return ThreadViewFollowUp::Nothing;
        }
        let id = match self.active_thread {
            Some(id) => id,
            None => return ThreadViewFollowUp::Nothing,
        };
        if self.turn_start_pending {
            self.set_status(owned("turn/start pending"));
            return ThreadViewFollowUp::Nothing;
        }
        ThreadViewFollowUp::StartTurn(id, self.input.clone())
    }

    /// A turn is being started: the composer is emptied.
    pub fn turn_started(&mut self)
        ensures
            *final(self) == (UiCore { input: final(self).input, turn_start_pending: true, ..*old(self) }),
            final(self).input@ == Seq::<char>::empty(),
    {
        self.input = String::new();
        self.turn_start_pending = true;
    }

    /// Takes the end of starting a turn of `thread_id` with `input`: the
    /// open thread takes the new turn; on an error the text comes back to
    /// an empty composer of that thread and the error is shown.
    pub fn finish_turn_start(&mut self, thread_id: u128, input: String, outcome: TurnStartOutcome)
        requires
            old(self).transcript@.len() <= MAX_TRANSCRIPT_ITEMS,
        ensures
            !final(self).turn_start_pending,
            final(self).transcript@.len() <= MAX_TRANSCRIPT_ITEMS,
            final(self).overlays == old(self).overlays,
            final(self).active_thread == old(self).active_thread,
            match outcome {
                TurnStartOutcome::Started(turn) => final(self).active_turn_id == (if old(self).active_thread
                    == Some(thread_id) {
                    Some(turn)
                } else {
                    old(self).active_turn_id
                }) && final(self).status == old(self).status && final(self).input == old(self).input,
                TurnStartOutcome::Failed(e) => turn_failed(*old(self), *final(self), thread_id, input@, "turn/start error: "@ + e@),
                TurnStartOutcome::TaskFailed(e) => turn_failed(
                    *old(self),
                    *final(self),
                    thread_id,
                    input@,
                    "turn/start task error: "@ + e@,
                ),
            },
    {
        self.turn_start_pending = false;
        match outcome {
            TurnStartOutcome::Started(turn) => {
                if self.active_thread == Some(thread_id) {
                    self.active_turn_id = Some(turn);
                }
            },
            TurnStartOutcome::Failed(e) => {
                let mut msg = owned("turn/start error: ");
                push_str(&mut msg, e.as_str());
                self.restore_turn_input(thread_id, input, msg);
            },
            TurnStartOutcome::TaskFailed(e) => {
                let mut msg = owned("turn/start task error: ");
                push_str(&mut msg, e.as_str());
                self.restore_turn_input(thread_id, input, msg);
            },
        }
    }

    fn restore_turn_input(&mut self, thread_id: u128, input: String, msg: String)
        requires
            old(self).transcript@.len() <= MAX_TRANSCRIPT_ITEMS,
        ensures
            turn_failed(*old(self), *final(self), thread_id, input@, msg@),
            final(self).transcript@.len() <= MAX_TRANSCRIPT_ITEMS,
            final(self).turn_start_pending == old(self).turn_start_pending,
            final(self).overlays == old(self).overlays,
            final(self).active_thread == old(self).active_thread,
    {
        let cs = chars_of(self.input.as_str());
        if self.active_thread == Some(thread_id) && trim_chars(cs.as_slice()).len() == 0 {
            self.input = input;
        }
        self.set_status(msg);
    }

    /// The thinking level was set: the header and the status show it.
    pub fn finish_cycle_thinking(&mut self, level: String)
        requires
            old(self).transcript@.len() <= MAX_TRANSCRIPT_ITEMS,
        ensures
            final(self).header.thinking == Some(level),
            shows(*old(self), *final(self), "thinking="@ + level@),
            final(self).overlays == old(self).overlays,
    {
        let mut msg = owned("thinking=");
        push_str(&mut msg, level.as_str());
        self.header.thinking = Some(level);
        self.set_status(msg);
    }
}

/// A failed turn start: the text comes back to an empty composer of that
/// thread, and the error is shown.
pub open spec fn turn_failed(before: UiCore, after: UiCore, thread_id: u128, input: Seq<char>, msg: Seq<char>) -> bool {
    &&& shows(before, after, msg)
    &&& after.input@ == (if before.active_thread == Some(thread_id) && trim(before.input@).len() == 0 {
        input
    } else {
        before.input@
    })
}

} // verus!
