//! The decisions of the REPL engine: what each event does to the input
//! buffer and the display, and what the loop around it must do next (run
//! the executor, exit, keep going). Reading events and running the user's
//! executor are left to the caller.

use vstd::prelude::*;
use vstd::string::*;
use crate::buffer::{Buffer, BufferView};
use crate::console::ConsoleOutput;
use crate::key::{opt_text, Key, KeyEvent};
use crate::key_handler::{key_effect, line_of, lookup, default_action, opt_string, KeyHandler, KeyOutcome};
use crate::console::ConsoleRequest;
use crate::renderer::{
    break_line_requests, clear_line_requests, draw_requests, drawn, forget_drawn, is_render_error, line_broken, line_cleared, partly_sent,
    unchanged, RenderResult, Renderer, RendererView,
};
use crate::repl::{config_error, validate_config, KeyAction, ReplConfig, ReplError};
use crate::text::owned;

verus! {

broadcast use vstd::string::group_string_axioms;

/// Events of the REPL event loop.
#[derive(Debug, Clone)]
pub enum ReplEvent {
    /// A key was pressed by the user
    KeyPressed(KeyEvent),
    /// The terminal window was resized
    WindowResized(u16, u16),
    /// The REPL should shut down
    Shutdown,
}

/// What the display holds after a render of buffer `b`: unchanged when it
/// shows the same, otherwise redrawn.
pub open spec fn rendered(v: RendererView, b: BufferView) -> RendererView {
    if unchanged(v, line_of(b), b.cursor as usize) { v } else { drawn(v, line_of(b), b.cursor as usize) }
}

/// What a render of buffer `b` asks of the output: nothing when the
/// display already shows it, a full drawing otherwise.
pub open spec fn render_requests(v: RendererView, b: BufferView) -> Seq<ConsoleRequest> {
    if unchanged(v, line_of(b), b.cursor as usize) {
        Seq::empty()
    } else {
        draw_requests(v, line_of(b), b.cursor as usize)
    }
}

/// What a full redraw of buffer `b` asks of the output: clear the line,
/// then draw.
pub open spec fn redraw_requests(v: RendererView, b: BufferView) -> Seq<ConsoleRequest> {
    clear_line_requests(v) + draw_requests(line_cleared(v), line_of(b), b.cursor as usize)
}

/// What the display holds after a full redraw of buffer `b`.
pub open spec fn redrawn(v: RendererView, b: BufferView) -> RendererView {
    drawn(line_cleared(v), line_of(b), b.cursor as usize)
}

/// A full redraw went through, or failed with a render error after asking
/// the output for part of it.
pub open spec fn redraw_outcome<T>(
    r: Result<T, ReplError>,
    v: RendererView,
    b: BufferView,
    after: RendererView,
    records: bool,
    before: Seq<ConsoleRequest>,
    sent: Seq<ConsoleRequest>,
) -> bool {
    ||| r is Ok && after == redrawn(v, b) && (records ==> sent == before + redraw_requests(v, b))
    ||| is_render_error(r) && (records ==> partly_sent(before, sent, redraw_requests(v, b)))
}

/// What showing the cursor asks of the output: nothing when it is shown
/// already.
pub open spec fn shown_cursor_requests(v: RendererView) -> Seq<ConsoleRequest> {
    if v.cursor_visible { Seq::empty() } else { seq![ConsoleRequest::SetCursorVisible(true)] }
}

/// The state of a REPL: the input buffer, whether it runs and whether it
/// should exit, the window size, and the display.
pub struct ReplView {
    pub buffer: BufferView,
    pub running: bool,
    pub should_exit: bool,
    pub window: (u16, u16),
    pub display: RendererView,
    pub config: ReplConfig,
    pub pending_custom: Option<u64>,
}

/// The REPL engine without its input: the buffer, the key handler and the
/// renderer over an output.
pub struct ReplCore<O> {
    config: ReplConfig,
    buffer: Buffer,
    key_handler: KeyHandler,
    renderer: Renderer<O>,
    running: bool,
    should_exit: bool,
    window_size: (u16, u16),
    pending_custom: Option<u64>,
}

impl<O: ConsoleOutput> View for ReplCore<O> {
    type V = ReplView;

    closed spec fn view(&self) -> ReplView {
        ReplView {
            buffer: self.buffer@,
            running: self.running,
            should_exit: self.should_exit,
            window: self.window_size,
            display: self.renderer@,
            config: self.config,
            pending_custom: self.pending_custom,
        }
    }
}

impl<O: ConsoleOutput> ReplCore<O> {
    /// The buffer is well formed and the display has a width.
    pub closed spec fn wf(&self) -> bool {
        self.buffer.wf() && self.renderer@.window.0 > 0
    }

    /// The requests made of the output so far.
    pub closed spec fn requests(&self) -> Seq<ConsoleRequest> {
        self.renderer.requests()
    }

    /// Whether the output keeps the record of its requests.
    pub closed spec fn records(&self) -> bool {
        self.renderer.records()
    }

    /// Whether every request to the output succeeds.
    pub closed spec fn output_never_fails(&self) -> bool {
        self.renderer.output_never_fails()
    }

    /// The action a key triggers.
    pub closed spec fn action_for(&self, k: Key) -> Option<KeyAction> {
        self.key_handler.action_for(k)
    }

    /// A REPL for a valid configuration, which it keeps: an empty buffer, the
    /// configuration's bindings over the defaults, the prompt on `output`;
    /// not running yet. An invalid configuration is refused with the error
    /// `validate_config` gives.
    pub fn new(config: ReplConfig, output: O) -> (r: Result<Self, ReplError>)
        ensures
            config_error(config.prompt@, config.key_bindings@, config.enable_history, config.max_history_size) is None <==> r is Ok,
            match config_error(config.prompt@, config.key_bindings@, config.enable_history, config.max_history_size) {
                Some(m) => r matches Err(ReplError::ConfigurationError(x)) && x@ == m,
                None => r matches Ok(c) && c.wf() && c.records() == output.records_requests()
                    && c.output_never_fails() == output.never_fails() && !c@.running && !c@.should_exit && c@.window == (80u16, 24u16)
                    && c@.buffer.lines == seq![Seq::<char>::empty()] && c@.buffer.index == 0 && c@.buffer.cursor == 0
                    && c@.display.prompt == config.prompt@ && c@.display.window == (80u16, 24u16)
                    && c@.config == config && c@.pending_custom is None
                    && (forall|k: Key| #[trigger] c.action_for(k) == match lookup(config.key_bindings@, k) {
                        Some(a) => Some(a),
                        None => default_action(k),
                    }),
            },
    {
        match validate_config(&config) {
            Ok(()) => {},
            Err(e) => {
                return Err(e);
            },
        }
        let key_handler = KeyHandler::new(config.key_bindings.clone());
        let renderer = Renderer::new(output, owned(config.prompt.as_str()));
        Ok(ReplCore {
            config,
            buffer: Buffer::new(),
            key_handler,
            renderer,
            running: false,
            should_exit: false,
            window_size: (80, 24),
            pending_custom: None,
        })
    }

    /// The configuration the REPL was made with.
    pub fn config(&self) -> (c: &ReplConfig)
        ensures
            *c == self@.config,
    {
        &self.config
    }

    /// Whether the REPL runs.
    pub fn is_running(&self) -> (b: bool)
        ensures
            b == self@.running,
    {
        self.running
    }

    /// Whether the REPL should exit.
    pub fn should_exit(&self) -> (b: bool)
        ensures
            b == self@.should_exit,
    {
        self.should_exit
    }

    /// Whether the event loop should go on: running and not asked to exit.
    pub fn should_continue(&self) -> (b: bool)
        ensures
            b == (self@.running && !self@.should_exit),
    {
        self.running && !self.should_exit
    }

    /// The window size (columns, rows).
    pub fn window_size(&self) -> (r: (u16, u16))
        ensures
            r == self@.window,
    {
        self.window_size
    }

    /// Records a window size without redrawing.
    pub fn set_window_size(&mut self, width: u16, height: u16)
        ensures
            old(self).output_never_fails() ==> final(self).output_never_fails(),
            forall|k: Key| #[trigger] final(self).action_for(k) == old(self).action_for(k),
            final(self)@ == (ReplView { window: (width, height), ..old(self)@ }),
            final(self).wf() == old(self).wf(),
    {
        self.window_size = (width, height);
    }

    /// The input buffer.
    pub fn buffer(&self) -> (b: &Buffer)
        ensures
            b@ == self@.buffer,
            self.wf() ==> b.wf(),
    {
        &self.buffer
    }

    /// The input buffer, for editing from outside.
    pub fn buffer_mut(&mut self) -> (b: &mut Buffer)
        requires
            old(self).wf(),
        ensures
            old(self).output_never_fails() ==> final(self).output_never_fails(),
            forall|k: Key| #[trigger] final(self).action_for(k) == old(self).action_for(k),
            b.wf(),
            b@ == old(self)@.buffer,
            final(self)@ == (ReplView { buffer: final(b)@, ..old(self)@ }),
            final(self).wf() == final(b).wf(),
    {
        &mut self.buffer
    }

    /// Starts the REPL: takes the window size if the terminal gave one,
    /// marks it running and draws the prompt.
    pub fn start(&mut self, window: Option<(u16, u16)>) -> (r: Result<(), ReplError>)
        requires
            old(self).wf(),
            window matches Some((w, h)) ==> w > 0,
        ensures
            final(self)@.pending_custom == old(self)@.pending_custom,
            old(self).output_never_fails() ==> r is Ok && final(self).output_never_fails(),
            forall|k: Key| #[trigger] final(self).action_for(k) == old(self).action_for(k),
            final(self).wf(),
            final(self)@.running,
            final(self)@.buffer == old(self)@.buffer,
            final(self)@.should_exit == old(self)@.should_exit,
            final(self)@.config == old(self)@.config,
            ({
                let d0 = match window {
                    Some((w, h)) => forget_drawn(RendererView { window: (w, h), ..old(self)@.display }),
                    None => old(self)@.display,
                };
                &&& final(self)@.window == match window { Some(s) => s, None => old(self)@.window }
                &&& (r is Ok && final(self)@.display == rendered(d0, old(self)@.buffer)
                    && (old(self).records() ==> final(self).requests() == old(self).requests() + render_requests(d0, old(self)@.buffer)))
                    || (is_render_error(r) && (old(self).records() ==> partly_sent(
                        old(self).requests(),
                        final(self).requests(),
                        render_requests(d0, old(self)@.buffer),
                    )))
            }),
    {
        if let Some((w, h)) = window {
            self.window_size = (w, h);
            self.renderer.update_window_size(w, h);
        }
        self.running = true;
        match self.renderer.render(&self.buffer) {
            Ok(_) => Ok(()),
            Err(e) => Err(e),
        }
    }

    /// The error of an event loop step taken while the REPL is not running.
    pub fn check_running(&self) -> (r: Result<(), ReplError>)
        ensures
            self@.running ==> r is Ok,
            !self@.running ==> (r matches Err(ReplError::EventLoopError(m)) && m@ == "REPL not running"@),
    {
        if !self.running {
            return Err(ReplError::EventLoopError(owned("REPL not running")));
        }
        Ok(())
    }

    /// Handles one event. A key runs through the key handler; the result
    /// says whether the input is to be executed. A resize redraws; a
    /// shutdown asks the loop to exit.
    pub fn process_event(&mut self, event: ReplEvent) -> (r: Result<Option<String>, ReplError>)
        requires
            old(self).wf(),
            event matches ReplEvent::WindowResized(w, h) ==> w > 0,
            event matches ReplEvent::KeyPressed(k) ==> line_of(old(self)@.buffer).len() + opt_text(k.text).len() <= usize::MAX,
        ensures
            old(self).output_never_fails() ==> r is Ok && final(self).output_never_fails(),
            forall|k: Key| #[trigger] final(self).action_for(k) == old(self).action_for(k),
            final(self).wf(),
            final(self)@.config == old(self)@.config,
            match event {
                ReplEvent::Shutdown => r matches Ok(None) && final(self)@ == (ReplView { should_exit: true, ..old(self)@ }),
                ReplEvent::WindowResized(w, h) => final(self)@.window == (w, h)
                    && final(self)@.buffer == old(self)@.buffer
                    && final(self)@.pending_custom == old(self)@.pending_custom
                    && final(self)@.running == old(self)@.running
                    && final(self)@.should_exit == old(self)@.should_exit
                    && (r is Ok ==> r matches Ok(None))
                    && redraw_outcome(
                        r,
                        forget_drawn(RendererView { window: (w, h), ..old(self)@.display }),
                        old(self)@.buffer,
                        final(self)@.display,
                        old(self).records(),
                        old(self).requests(),
                        final(self).requests(),
                    ),
                ReplEvent::KeyPressed(k) => Self::key_step(*old(self), *final(self), k, r),
            },
    {
        match event {
            ReplEvent::KeyPressed(key_event) => self.process_key_event(key_event),
            ReplEvent::WindowResized(width, height) => {
                match self.handle_window_resize(width, height) {
                    Ok(()) => Ok(None),
                    Err(e) => Err(e),
                }
            },
            ReplEvent::Shutdown => {
                self.should_exit = true;
                Ok(None)
            },
        }
    }

    /// What handling `key_event` does, from the REPL `pre` to the REPL
    /// `post` with result `r`: the buffer changes as the key handler says;
    /// then Execute hands the input back, Exit asks to exit, ClearLine clears
    /// the display line and redraws, Continue redraws, Ignore does nothing
    /// more.
    pub open spec fn key_step(pre: Self, post: Self, key_event: KeyEvent, r: Result<Option<String>, ReplError>) -> bool {
        let (outcome, b) = key_effect(pre.action_for(key_event.key), key_event.key, opt_string(key_event.text), pre@.buffer);
        let v = pre@;
        let sent0 = pre.requests();
        let sent1 = post.requests();
        &&& post@.buffer == b
        &&& post@.running == v.running
        &&& post@.config == v.config
        &&& post@.window == v.window
        &&& post@.pending_custom == match outcome {
            KeyOutcome::RunCustom(id) => Some(id),
            _ => v.pending_custom,
        }
        &&& match outcome {
            KeyOutcome::Execute(s) => r matches Ok(Some(t)) && t@ == s && post@.display == v.display
                && post@.should_exit == v.should_exit && sent1 == sent0,
            KeyOutcome::Exit => r matches Ok(None) && post@.should_exit && post@.display == v.display
                && sent1 == sent0,
            KeyOutcome::Ignore => r matches Ok(None) && post@.display == v.display
                && post@.should_exit == v.should_exit && sent1 == sent0,
            KeyOutcome::RunCustom(_) => r matches Ok(None) && post@.display == v.display
                && post@.should_exit == v.should_exit && sent1 == sent0,
            KeyOutcome::Continue => post@.should_exit == v.should_exit
                && ((r matches Ok(None) && post@.display == rendered(v.display, b)
                && (pre.records() ==> sent1 == sent0 + render_requests(v.display, b)))
                || (is_render_error(r) && (pre.records() ==> partly_sent(sent0, sent1, render_requests(v.display, b))))),
            KeyOutcome::ClearLine => post@.should_exit == v.should_exit
                && ((r matches Ok(None) && post@.display == rendered(line_cleared(v.display), b)
                && (pre.records() ==> sent1 == sent0 + clear_line_requests(v.display)
                    + render_requests(line_cleared(v.display), b)))
                || (is_render_error(r) && (pre.records() ==> partly_sent(
                    sent0,
                    sent1,
                    clear_line_requests(v.display) + render_requests(line_cleared(v.display), b),
                )))),
        }
    }

    /// Handles a key as `key_step` describes.
    pub fn process_key_event(&mut self, key_event: KeyEvent) -> (r: Result<Option<String>, ReplError>)
        requires
            old(self).wf(),
            line_of(old(self)@.buffer).len() + opt_text(key_event.text).len() <= usize::MAX,
        ensures
            old(self).output_never_fails() ==> r is Ok && final(self).output_never_fails(),
            final(self).wf(),
            forall|k: Key| #[trigger] final(self).action_for(k) == old(self).action_for(k),
            Self::key_step(*old(self), *final(self), key_event, r),
    {
        let result = match self.key_handler.handle_key(key_event, &mut self.buffer) {
            Ok(kr) => kr,
            Err(e) => {
                return Err(e);
            },
        };
        match result {
            crate::key_handler::KeyResult::Continue => {
                match self.renderer.render(&self.buffer) {
                    Ok(_) => Ok(None),
                    Err(e) => Err(e),
                }
            },
            crate::key_handler::KeyResult::Execute(input) => Ok(Some(input)),
            crate::key_handler::KeyResult::Exit => {
                self.should_exit = true;
                Ok(None)
            },
            crate::key_handler::KeyResult::ClearLine => {
                let ghost v = self.renderer@;
                let ghost before = self.renderer.requests();
                let ghost ops1 = clear_line_requests(v);
                let ghost ops = clear_line_requests(v) + render_requests(line_cleared(v), self.buffer@);
                match self.renderer.clear_line() {
                    Ok(()) => {},
                    Err(e) => {
                        proof {
                            if old(self).records() {
                                lemma_partly_sent_extend(before, self.renderer.requests(), ops1, render_requests(line_cleared(v), self.buffer@));
                            }
                        }
                        return Err(e);
                    },
                }
                let ghost middle = self.renderer.requests();
                match self.renderer.render(&self.buffer) {
                    Ok(_) => {
                        assert(old(self).records() ==> self.renderer.requests() =~= before + ops);
                        Ok(None)
                    },
                    Err(e) => {
                        proof {
                            if old(self).records() {
                                lemma_partly_sent_then(before, middle, self.renderer.requests(), ops1, render_requests(line_cleared(v), self.buffer@));
                            }
                        }
                        Err(e)
                    },
                }
            },
            crate::key_handler::KeyResult::Ignore => Ok(None),
            crate::key_handler::KeyResult::RunCustom(id) => {
                self.pending_custom = Some(id);
                Ok(None)
            },
        }
    }

    /// A resize: records the size and redraws everything.
    pub fn handle_window_resize(&mut self, width: u16, height: u16) -> (r: Result<(), ReplError>)
        requires
            old(self).wf(),
            width > 0,
        ensures
            final(self)@.pending_custom == old(self)@.pending_custom,
            old(self).output_never_fails() ==> r is Ok && final(self).output_never_fails(),
            forall|k: Key| #[trigger] final(self).action_for(k) == old(self).action_for(k),
            final(self).wf(),
            final(self)@.window == (width, height),
            final(self)@.buffer == old(self)@.buffer,
            final(self)@.running == old(self)@.running,
            final(self)@.should_exit == old(self)@.should_exit,
            final(self)@.config == old(self)@.config,
            redraw_outcome(
                r,
                forget_drawn(RendererView { window: (width, height), ..old(self)@.display }),
                old(self)@.buffer,
                final(self)@.display,
                old(self).records(),
                old(self).requests(),
                final(self).requests(),
            ),
    {
        self.window_size = (width, height);
        self.renderer.update_window_size(width, height);
        match self.renderer.force_render(&self.buffer) {
            Ok(_) => Ok(()),
            Err(e) => Err(e),
        }
    }

    /// After the input was executed: an empty line, the prompt on the next
    /// screen row.
    pub fn finish_execution(&mut self) -> (r: Result<(), ReplError>)
        requires
            old(self).wf(),
        ensures
            final(self)@.pending_custom == old(self)@.pending_custom,
            old(self).output_never_fails() ==> r is Ok && final(self).output_never_fails(),
            forall|k: Key| #[trigger] final(self).action_for(k) == old(self).action_for(k),
            final(self).wf(),
            line_of(final(self)@.buffer) == Seq::<char>::empty(),
            final(self)@.buffer.cursor == 0,
            final(self)@.running == old(self)@.running,
            final(self)@.should_exit == old(self)@.should_exit,
            final(self)@.config == old(self)@.config,
            final(self)@.window == old(self)@.window,
            ({
                let v = old(self)@.display;
                let b = final(self)@.buffer;
                let ops = break_line_requests() + render_requests(line_broken(v), b);
                ||| r is Ok && final(self)@.display == rendered(line_broken(v), b)
                    && (old(self).records() ==> final(self).requests() == old(self).requests() + ops)
                ||| is_render_error(r) && (old(self).records() ==> partly_sent(old(self).requests(), final(self).requests(), ops))
            }),
    {
        self.buffer.set_text(String::new());
        self.buffer.set_cursor_position(0);
        let ghost before = self.renderer.requests();
        let ghost rest = render_requests(line_broken(self.renderer@), self.buffer@);
        match self.renderer.break_line() {
            Ok(()) => {},
            Err(e) => {
                proof {
                    if old(self).records() {
                        lemma_partly_sent_extend(before, self.renderer.requests(), break_line_requests(), rest);
                    }
                }
                return Err(e);
            },
        }
        let ghost mid = self.renderer.requests();
        match self.renderer.render(&self.buffer) {
            Ok(_) => {
                assert(old(self).records() ==> self.renderer.requests() =~= before + (break_line_requests() + rest));
                Ok(())
            },
            Err(e) => {
                proof {
                    if old(self).records() {
                        lemma_partly_sent_then(before, mid, self.renderer.requests(), break_line_requests(), rest);
                    }
                }
                Err(e)
            },
        }
    }

    /// Recovery from an error of a loop step: a render error is answered by
    /// a full redraw, a callback error needs nothing, a console error cannot
    /// be recovered from yet, and any other error ends the REPL.
    pub fn handle_error(&mut self, error: ReplError) -> (r: Result<(), ReplError>)
        requires
            old(self).wf(),
        ensures
            final(self)@.pending_custom == old(self)@.pending_custom,
            old(self).output_never_fails() ==> final(self).output_never_fails(),
            forall|k: Key| #[trigger] final(self).action_for(k) == old(self).action_for(k),
            final(self).wf(),
            final(self)@.buffer == old(self)@.buffer,
            final(self)@.running == old(self)@.running,
            final(self)@.should_exit == old(self)@.should_exit,
            final(self)@.config == old(self)@.config,
            match error {
                ReplError::ConsoleError(_) => r matches Err(ReplError::TerminalStateError(m))
                    && m@ == "Console recovery not implemented"@
                    && final(self)@ == old(self)@ && final(self).requests() == old(self).requests(),
                ReplError::RenderError(_) => final(self)@.window == old(self)@.window && redraw_outcome(
                    r,
                    old(self)@.display,
                    old(self)@.buffer,
                    final(self)@.display,
                    old(self).records(),
                    old(self).requests(),
                    final(self).requests(),
                ),
                ReplError::CallbackError(_) => r is Ok && final(self)@ == old(self)@
                    && final(self).requests() == old(self).requests(),
                _ => r == Err::<(), ReplError>(error) && final(self)@ == old(self)@
                    && final(self).requests() == old(self).requests(),
            },
    {
        match error {
            ReplError::ConsoleError(_) => Err(ReplError::TerminalStateError(owned("Console recovery not implemented"))),
            ReplError::RenderError(_) => {
                match self.renderer.force_render(&self.buffer) {
                    Ok(_) => Ok(()),
                    Err(e) => Err(e),
                }
            },
            ReplError::CallbackError(_) => Ok(()),
            _ => Err(error),
        }
    }

    /// The custom action a key asked for, if any; it is handed out once.
    pub fn take_custom_action(&mut self) -> (id: Option<u64>)
        ensures
            id == old(self)@.pending_custom,
            final(self)@ == (ReplView { pending_custom: None, ..old(self)@ }),
            final(self).wf() == old(self).wf(),
            final(self).requests() == old(self).requests(),
            final(self).records() == old(self).records(),
            final(self).output_never_fails() == old(self).output_never_fails(),
            forall|k: Key| #[trigger] final(self).action_for(k) == old(self).action_for(k),
    {
        let id = self.pending_custom;
        self.pending_custom = None;
        id
    }

    /// After the caller ran a custom action's function on the buffer: its
    /// error is the step's error, and the display is left as it was;
    /// otherwise the REPL goes on as after any edit, redrawing the buffer.
    pub fn finish_custom_action(&mut self, outcome: Result<(), ReplError>) -> (r: Result<Option<String>, ReplError>)
        requires
            old(self).wf(),
        ensures
            final(self).wf(),
            forall|k: Key| #[trigger] final(self).action_for(k) == old(self).action_for(k),
            old(self).records() ==> final(self).records(),
            old(self).output_never_fails() ==> final(self).output_never_fails(),
            final(self)@.buffer == old(self)@.buffer,
            final(self)@.running == old(self)@.running,
            final(self)@.should_exit == old(self)@.should_exit,
            final(self)@.window == old(self)@.window,
            final(self)@.config == old(self)@.config,
            final(self)@.pending_custom == old(self)@.pending_custom,
            match outcome {
                Err(e) => r == Err::<Option<String>, ReplError>(e) && final(self)@ == old(self)@
                    && final(self).requests() == old(self).requests(),
                Ok(()) => {
                    let v = old(self)@;
                    let b = v.buffer;
                    &&& old(self).output_never_fails() ==> r is Ok
                    &&& (r matches Ok(None) && final(self)@.display == rendered(v.display, b)
                        && (old(self).records() ==> final(self).requests() == old(self).requests() + render_requests(v.display, b)))
                        || (is_render_error(r) && (old(self).records() ==> partly_sent(
                            old(self).requests(),
                            final(self).requests(),
                            render_requests(v.display, b),
                        )))
                },
            },
    {
        match outcome {
            Err(e) => Err(e),
            Ok(()) => {
                match self.renderer.render(&self.buffer) {
                    Ok(_) => Ok(None),
                    Err(e) => Err(e),
                }
            },
        }
    }

    /// Stops the REPL: not running any more, the line cleared and the
    /// cursor shown. Errors of the display are ignored here: the output is
    /// asked to clear the line (as far as it got before failing), then to
    /// show the cursor if it was hidden.
    pub fn shutdown(&mut self)
        requires
            old(self).wf(),
        ensures
            final(self)@.pending_custom == old(self)@.pending_custom,
            old(self).output_never_fails() ==> final(self).output_never_fails(),
            forall|k: Key| #[trigger] final(self).action_for(k) == old(self).action_for(k),
            final(self).wf(),
            !final(self)@.running,
            final(self)@.buffer == old(self)@.buffer,
            final(self)@.should_exit == old(self)@.should_exit,
            final(self)@.config == old(self)@.config,
            final(self)@.window == old(self)@.window,
            final(self)@.display.prompt == old(self)@.display.prompt,
            final(self)@.display.window == old(self)@.display.window,
            old(self).records() ==> exists|mid: Seq<ConsoleRequest>| #![trigger partly_sent(old(self).requests(), mid, clear_line_requests(old(self)@.display))]
                partly_sent(old(self).requests(), mid, clear_line_requests(old(self)@.display))
                && final(self).requests() == mid + shown_cursor_requests(old(self)@.display),
    {
        let ghost v = self.renderer@;
        self.running = false;
        let _ = self.renderer.clear_line();
        let ghost mid = self.renderer.requests();
        proof {
            if old(self).records() {
                assert(partly_sent(old(self).requests(), mid, clear_line_requests(v)));
            }
        }
        let _ = self.renderer.set_cursor_visible(true);
        proof {
            if old(self).records() {
                if !v.cursor_visible {
                    assert(mid.push(ConsoleRequest::SetCursorVisible(true)) =~= mid + shown_cursor_requests(v));
                } else {
                    assert(mid =~= mid + shown_cursor_requests(v));
                }
                assert(self.renderer.requests() == mid + shown_cursor_requests(old(self)@.display));
                assert(partly_sent(old(self).requests(), mid, clear_line_requests(old(self)@.display)));
            }
        }
    }
}

/// A request that failed part way through the first batch also stopped
/// the batches after it.
proof fn lemma_partly_sent_extend(
    before: Seq<ConsoleRequest>,
    after: Seq<ConsoleRequest>,
    ops1: Seq<ConsoleRequest>,
    ops2: Seq<ConsoleRequest>,
)
    requires
        partly_sent(before, after, ops1),
    ensures
        partly_sent(before, after, ops1 + ops2),
{
    assert forall|i: int| 0 <= i < after.len() implies after[i] == (before + (ops1 + ops2))[i] by {
        assert(after[i] == (before + ops1)[i]);
    }
}

/// A first batch sent whole, then a second one sent in part: the two
/// together were sent in part.
proof fn lemma_partly_sent_then(
    before: Seq<ConsoleRequest>,
    mid: Seq<ConsoleRequest>,
    after: Seq<ConsoleRequest>,
    ops1: Seq<ConsoleRequest>,
    ops2: Seq<ConsoleRequest>,
)
    requires
        mid == before + ops1,
        partly_sent(mid, after, ops2),
    ensures
        partly_sent(before, after, ops1 + ops2),
{
    assert forall|i: int| 0 <= i < before.len() implies after[i] == before[i] by {
        assert(after[i] == mid[i]);
    }
    assert forall|i: int| 0 <= i < after.len() implies after[i] == (before + (ops1 + ops2))[i] by {
        assert(after[i] == (mid + ops2)[i]);
    }
}

} // verus!
