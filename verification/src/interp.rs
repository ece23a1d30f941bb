//! The instruction interpreter: the driver that turns the script's lines,
//! one event at a time, into the external actions to perform.
//!
//! The interpreter owns all the state of a run: the variable store, the
//! continuation buffer, the tracked working directory, and the protocol
//! phase. The caller feeds it events (`a line was read`, `the command
//! exited`, `the user answered the prompt`, `end of input`) and receives
//! the next action to perform (`run this command in this directory`,
//! `fetch this URL`, `prompt for this ARG`, `stop`). Every transition is
//! given by the specification function [`spec_step`].

use vstd::prelude::*;

use crate::aggregate::Aggregator;
use crate::context::CtxView;
use crate::context::ExecContext;
use crate::context::resolved_workdir;
use crate::instr::Instruction;
use crate::instr::SpecInstr;
use crate::instr::classify;
use crate::instr::opt_str_view;
use crate::instr::spec_classify;
use crate::text::ends_with_backslash;
use crate::text::spec_trim;
use crate::text::trim;
use crate::vars::Binding;
use crate::vars::VarStore;
use crate::vars::map_of;
use crate::vars::spec_expand;

verus! {

/// What happened outside since the last step, at the specification level.
pub enum SpecEvent {
    Line { text: Seq<char> },
    Eof,
    CommandDone { success: bool },
    FetchDone { success: bool },
    Answer { text: Seq<char> },
}

/// What happened outside since the last step.
pub enum Event {
    /// The next raw line of the script.
    Line { text: String },
    /// The script has no more lines.
    Eof,
    /// The shelled-out RUN command finished, successfully or not.
    CommandDone { success: bool },
    /// The URL fetch finished, successfully or not.
    FetchDone { success: bool },
    /// The user's raw reply to an ARG prompt.
    Answer { text: String },
}

impl View for Event {
    type V = SpecEvent;

    open spec fn view(&self) -> SpecEvent {
        match self {
            Event::Line { text } => SpecEvent::Line { text: text@ },
            Event::Eof => SpecEvent::Eof,
            Event::CommandDone { success } => SpecEvent::CommandDone { success: *success },
            Event::FetchDone { success } => SpecEvent::FetchDone { success: *success },
            Event::Answer { text } => SpecEvent::Answer { text: text@ },
        }
    }
}

/// Why a run stopped early, at the specification level.
pub enum SpecError {
    CommandFailed,
    MissingArg { name: Seq<char> },
    UnterminatedContinuation,
}

/// Why a run stopped early.
pub enum InterpError {
    /// A RUN command exited with a non-zero status.
    CommandFailed,
    /// An ARG had no value: no environment value, no literal default, and
    /// (interactively) an empty reply.
    MissingArg { name: String },
    /// The input ended while a multi-line RUN was still open.
    UnterminatedContinuation,
}

impl View for InterpError {
    type V = SpecError;

    open spec fn view(&self) -> SpecError {
        match self {
            InterpError::CommandFailed => SpecError::CommandFailed,
            InterpError::MissingArg { name } => SpecError::MissingArg { name: name@ },
            InterpError::UnterminatedContinuation => SpecError::UnterminatedContinuation,
        }
    }
}

/// What the caller must do next, at the specification level.
pub enum SpecAction {
    Continue,
    Run { command: Seq<char>, dir: Seq<char> },
    Fetch { url: Seq<char>, dir: Seq<char> },
    Prompt { name: Seq<char>, shown_default: Option<Seq<char>> },
    Finished,
    Failed { error: SpecError },
}

/// What the caller must do next.
pub enum Action {
    /// Nothing: feed the next line (or end of input).
    Continue,
    /// Run `command` with `dir` as its working directory, then report the
    /// exit status with [`Event::CommandDone`].
    Run { command: String, dir: String },
    /// Fetch `url` into `dir`, then report the outcome with
    /// [`Event::FetchDone`].
    Fetch { url: String, dir: String },
    /// Ask the user for a value for the ARG `name`, showing the default if
    /// there is one, then hand the reply back with [`Event::Answer`].
    Prompt { name: String, shown_default: Option<String> },
    /// The whole script ran; the run succeeded.
    Finished,
    /// The run stopped; no further instruction may execute.
    Failed { error: InterpError },
}

impl View for Action {
    type V = SpecAction;

    open spec fn view(&self) -> SpecAction {
        match self {
            Action::Continue => SpecAction::Continue,
            Action::Run { command, dir } => SpecAction::Run { command: command@, dir: dir@ },
            Action::Fetch { url, dir } => SpecAction::Fetch { url: url@, dir: dir@ },
            Action::Prompt { name, shown_default } => SpecAction::Prompt {
                name: name@,
                shown_default: opt_str_view(*shown_default),
            },
            Action::Finished => SpecAction::Finished,
            Action::Failed { error } => SpecAction::Failed { error: error@ },
        }
    }
}

/// Which event the interpreter is waiting for, at the specification level.
pub enum SpecPhase {
    Ready,
    AwaitingCommand,
    AwaitingFetch,
    AwaitingAnswer { name: Seq<char>, fallback: Option<Seq<char>> },
    Done,
    Failed,
}

/// Which event the interpreter is waiting for.
pub enum Phase {
    /// The next line (or end of input).
    Ready,
    /// The exit status of the RUN command just handed out.
    AwaitingCommand,
    /// The outcome of the fetch just handed out.
    AwaitingFetch,
    /// The user's reply to the ARG prompt just handed out; `fallback` is
    /// what an empty reply falls back to.
    AwaitingAnswer { name: String, fallback: Option<String> },
    /// The run finished; no event is valid any more.
    Done,
    /// The run failed; no event is valid any more.
    Failed,
}

impl View for Phase {
    type V = SpecPhase;

    open spec fn view(&self) -> SpecPhase {
        match self {
            Phase::Ready => SpecPhase::Ready,
            Phase::AwaitingCommand => SpecPhase::AwaitingCommand,
            Phase::AwaitingFetch => SpecPhase::AwaitingFetch,
            Phase::AwaitingAnswer { name, fallback } => SpecPhase::AwaitingAnswer {
                name: name@,
                fallback: opt_str_view(*fallback),
            },
            Phase::Done => SpecPhase::Done,
            Phase::Failed => SpecPhase::Failed,
        }
    }
}

/// The interpreter's whole abstract state.
pub struct InterpView {
    /// The variable store's mapping.
    pub vars: Map<Seq<char>, Seq<char>>,
    /// The continuation buffer.
    pub buffer: Seq<char>,
    /// Whether a multi-line RUN is open.
    pub open: bool,
    /// The tracked working directory.
    pub cwd: Seq<char>,
    /// The directory containing the script file.
    pub script_dir: Seq<char>,
    /// Whether ARG values are resolved by prompting the user.
    pub interactive: bool,
    /// Which event is expected next.
    pub phase: SpecPhase,
}

/// Which events a phase admits.
pub open spec fn event_fits(phase: SpecPhase, e: SpecEvent) -> bool {
    match phase {
        SpecPhase::Ready => e is Line || e is Eof,
        SpecPhase::AwaitingCommand => e is CommandDone,
        SpecPhase::AwaitingFetch => e is FetchDone,
        SpecPhase::AwaitingAnswer { .. } => e is Answer,
        SpecPhase::Done => false,
        SpecPhase::Failed => false,
    }
}

/// The transition for an ARG instruction with the given name and optional
/// literal default. Interactively the user is prompted, shown the literal
/// default if one exists and otherwise any current value; an empty reply
/// will fall back to what was shown. Non-interactively a current value (the
/// inherited environment or an earlier binding) wins over the literal
/// default, and an ARG with neither is fatal.
pub open spec fn spec_arg_step(v: InterpView, name: Seq<char>, default: Option<Seq<char>>) -> (
    InterpView,
    SpecAction,
) {
    let stored: Option<Seq<char>> = if v.vars.contains_key(name) {
        Some(v.vars[name])
    } else {
        None
    };
    if v.interactive {
        let shown: Option<Seq<char>> = if default is Some {
            default
        } else {
            stored
        };
        (
            InterpView { phase: SpecPhase::AwaitingAnswer { name, fallback: shown }, ..v },
            SpecAction::Prompt { name, shown_default: shown },
        )
    } else {
        match stored {
            Some(val) => (
                InterpView { vars: v.vars.insert(name, val), ..v },
                SpecAction::Continue,
            ),
            None => match default {
                Some(d) => (
                    InterpView { vars: v.vars.insert(name, d), ..v },
                    SpecAction::Continue,
                ),
                None => (
                    InterpView { phase: SpecPhase::Failed, ..v },
                    SpecAction::Failed { error: SpecError::MissingArg { name } },
                ),
            },
        }
    }
}

/// The transition for one trimmed line.
///
/// While a continuation is open the line goes to the buffer (and a line
/// without the marker completes the command, which is expanded and handed
/// out to run). Otherwise the line is classified and dispatched: RUN is
/// expanded and handed out (or opens a continuation); WORKDIR is expanded
/// and changes the tracked directory at once; ENV is expanded against the
/// current bindings and then stored; ARG follows [`spec_arg_step`]; ADD
/// hands out a fetch; blank lines, comments and unsupported instructions
/// do nothing.
pub open spec fn spec_line_step(v: InterpView, s: Seq<char>) -> (InterpView, SpecAction) {
    if v.open {
        if ends_with_backslash(s) {
            (
                InterpView { buffer: v.buffer + s.subrange(0, s.len() - 1).push(' '), ..v },
                SpecAction::Continue,
            )
        } else {
            (
                InterpView {
                    buffer: Seq::empty(),
                    open: false,
                    phase: SpecPhase::AwaitingCommand,
                    ..v
                },
                SpecAction::Run { command: spec_expand(v.vars, v.buffer + s), dir: v.cwd },
            )
        }
    } else {
        match spec_classify(s) {
            SpecInstr::Run { command } => (
                InterpView { phase: SpecPhase::AwaitingCommand, ..v },
                SpecAction::Run { command: spec_expand(v.vars, command), dir: v.cwd },
            ),
            SpecInstr::MultiLineRunStart { partial } => (
                InterpView { buffer: partial, open: true, ..v },
                SpecAction::Continue,
            ),
            SpecInstr::Add { url } => (
                InterpView { phase: SpecPhase::AwaitingFetch, ..v },
                SpecAction::Fetch { url, dir: v.cwd },
            ),
            SpecInstr::Env { name, raw_value } => (
                InterpView { vars: v.vars.insert(name, spec_expand(v.vars, raw_value)), ..v },
                SpecAction::Continue,
            ),
            SpecInstr::Arg { name, default } => spec_arg_step(v, name, default),
            SpecInstr::Workdir { path } => (
                InterpView {
                    cwd: resolved_workdir(
                        CtxView { cwd: v.cwd, script_dir: v.script_dir },
                        spec_expand(v.vars, path),
                    ),
                    ..v
                },
                SpecAction::Continue,
            ),
            SpecInstr::Comment => (v, SpecAction::Continue),
            SpecInstr::Blank => (v, SpecAction::Continue),
            SpecInstr::Unrecognized => (v, SpecAction::Continue),
        }
    }
}

/// The transition for the user's (trimmed) reply to an ARG prompt: a
/// nonempty reply is the value; an empty reply takes the shown fallback;
/// with neither the run fails.
pub open spec fn spec_answer_step(v: InterpView, t: Seq<char>) -> (InterpView, SpecAction) {
    match v.phase {
        SpecPhase::AwaitingAnswer { name, fallback } => {
            if t.len() > 0 {
                (
                    InterpView { vars: v.vars.insert(name, t), phase: SpecPhase::Ready, ..v },
                    SpecAction::Continue,
                )
            } else {
                match fallback {
                    Some(d) => (
                        InterpView {
                            vars: v.vars.insert(name, d),
                            phase: SpecPhase::Ready,
                            ..v
                        },
                        SpecAction::Continue,
                    ),
                    None => (
                        InterpView { phase: SpecPhase::Failed, ..v },
                        SpecAction::Failed { error: SpecError::MissingArg { name } },
                    ),
                }
            }
        },
        _ => (v, SpecAction::Continue),
    }
}

/// The interpreter's whole transition function: for a state and an event
/// that fits it ([`event_fits`]), the successor state and the action the
/// caller must perform. Line and reply texts are trimmed first. A RUN
/// command that exits with failure stops the run; a failed fetch does not;
/// end of input inside an open continuation is a parse error.
pub open spec fn spec_step(v: InterpView, e: SpecEvent) -> (InterpView, SpecAction) {
    match e {
        SpecEvent::Line { text } => spec_line_step(v, spec_trim(text)),
        SpecEvent::Eof => {
            if v.open {
                (
                    InterpView { phase: SpecPhase::Failed, ..v },
                    SpecAction::Failed { error: SpecError::UnterminatedContinuation },
                )
            } else {
                (InterpView { phase: SpecPhase::Done, ..v }, SpecAction::Finished)
            }
        },
        SpecEvent::CommandDone { success } => {
            if success {
                (InterpView { phase: SpecPhase::Ready, ..v }, SpecAction::Continue)
            } else {
                (
                    InterpView { phase: SpecPhase::Failed, ..v },
                    SpecAction::Failed { error: SpecError::CommandFailed },
                )
            }
        },
        SpecEvent::FetchDone { .. } => (
            InterpView { phase: SpecPhase::Ready, ..v },
            SpecAction::Continue,
        ),
        SpecEvent::Answer { text } => spec_answer_step(v, spec_trim(text)),
    }
}

/// The instruction interpreter.
pub struct Interpreter {
    vars: VarStore,
    agg: Aggregator,
    ctx: ExecContext,
    interactive: bool,
    phase: Phase,
}

impl View for Interpreter {
    type V = InterpView;

    closed spec fn view(&self) -> InterpView {
        InterpView {
            vars: self.vars@,
            buffer: self.agg@.buffer,
            open: self.agg@.open,
            cwd: self.ctx@.cwd,
            script_dir: self.ctx@.script_dir,
            interactive: self.interactive,
            phase: self.phase@,
        }
    }
}

impl Interpreter {
    /// An interpreter at the start of a run: `script_dir` is the directory
    /// containing the script file (also the initial working directory),
    /// `vars` holds the inherited process environment, and `interactive`
    /// says whether ARG values may be asked of the user.
    pub fn new(script_dir: String, interactive: bool, vars: VarStore) -> (r: Self)
        ensures
            r@ == (InterpView {
                vars: vars@,
                buffer: Seq::<char>::empty(),
                open: false,
                cwd: script_dir@,
                script_dir: script_dir@,
                interactive: interactive,
                phase: SpecPhase::Ready,
            }),
    {
        Interpreter {
            vars,
            agg: Aggregator::new(),
            ctx: ExecContext::new(script_dir),
            interactive,
            phase: Phase::Ready,
        }
    }

    /// The tracked working directory.
    pub fn cwd(&self) -> (r: String)
        ensures
            r@ == self@.cwd,
    {
        self.ctx.cwd()
    }

    /// The current value of a variable, if it is bound.
    pub fn lookup(&self, name: &str) -> (r: Option<String>)
        ensures
            match r {
                Some(v) => self@.vars.contains_key(name@) && v@ == self@.vars[name@],
                None => !self@.vars.contains_key(name@),
            },
    {
        match self.vars.get(name) {
            Some(v) => Some(v.clone()),
            None => None,
        }
    }

    /// The bindings to give a child process as its environment, in the
    /// order they were made; applying them in that order (later wins)
    /// yields exactly the interpreter's current mapping.
    pub fn environment(&self) -> (r: Vec<Binding>)
        ensures
            map_of(r@) == self@.vars,
    {
        self.vars.snapshot()
    }

    /// Handles an ARG instruction; see [`spec_arg_step`].
    fn handle_arg(&mut self, name: String, default: Option<String>) -> (r: Action)
        ensures
            (final(self)@, r@) == spec_arg_step(old(self)@, name@, opt_str_view(default)),
    {
        let stored: Option<String> = match self.vars.get(name.as_str()) {
            Some(v) => Some(v.clone()),
            None => None,
        };
        if self.interactive {
            let shown: Option<String> = if default.is_some() {
                default
            } else {
                stored
            };
            let shown_copy: Option<String> = match &shown {
                Some(s) => Some(s.clone()),
                None => None,
            };
            self.phase = Phase::AwaitingAnswer { name: name.clone(), fallback: shown_copy };
            Action::Prompt { name, shown_default: shown }
        } else {
            match stored {
                Some(val) => {
                    self.vars.set(name, val);
                    Action::Continue
                },
                None => match default {
                    Some(d) => {
                        self.vars.set(name, d);
                        Action::Continue
                    },
                    None => {
                        self.phase = Phase::Failed;
                        Action::Failed { error: InterpError::MissingArg { name } }
                    },
                },
            }
        }
    }

    /// Takes the next event and says what to do; the transition is exactly
    /// [`spec_step`]. The event must fit the current phase: the caller
    /// feeds lines while the interpreter is ready, and answers exactly the
    /// question (command status, fetch outcome, prompt reply) it was asked.
    pub fn step(&mut self, event: Event) -> (r: Action)
        requires
            event_fits(old(self)@.phase, event@),
        ensures
            (final(self)@, r@) == spec_step(old(self)@, event@),
    {
        match event {
            Event::Line { text } => {
                let t = trim(text.as_str());
                if self.agg.is_open() {
                    match self.agg.feed(t.as_str()) {
                        None => Action::Continue,
                        Some(cmd) => {
                            let expanded = self.vars.expand(cmd.as_str());
                            let dir = self.ctx.cwd();
                            self.phase = Phase::AwaitingCommand;
                            Action::Run { command: expanded, dir }
                        },
                    }
                } else {
                    match classify(t.as_str()) {
                        Instruction::Run { command } => {
                            let expanded = self.vars.expand(command.as_str());
                            let dir = self.ctx.cwd();
                            self.phase = Phase::AwaitingCommand;
                            Action::Run { command: expanded, dir }
                        },
                        Instruction::MultiLineRunStart { partial } => {
                            self.agg.begin(partial);
                            Action::Continue
                        },
                        Instruction::Add { url } => {
                            let dir = self.ctx.cwd();
                            self.phase = Phase::AwaitingFetch;
                            Action::Fetch { url, dir }
                        },
                        Instruction::Env { name, raw_value } => {
                            let value = self.vars.expand(raw_value.as_str());
                            self.vars.set(name, value);
                            Action::Continue
                        },
                        Instruction::Arg { name, default } => self.handle_arg(name, default),
                        Instruction::Workdir { path } => {
                            let p = self.vars.expand(path.as_str());
                            self.ctx.set_workdir(p.as_str());
                            Action::Continue
                        },
                        Instruction::Comment => Action::Continue,
                        Instruction::Blank => Action::Continue,
                        Instruction::Unrecognized => Action::Continue,
                    }
                }
            },
            Event::Eof => {
                if self.agg.is_open() {
                    self.phase = Phase::Failed;
                    Action::Failed { error: InterpError::UnterminatedContinuation }
                } else {
                    self.phase = Phase::Done;
                    Action::Finished
                }
            },
            Event::CommandDone { success } => {
                if success {
                    self.phase = Phase::Ready;
                    Action::Continue
                } else {
                    self.phase = Phase::Failed;
                    Action::Failed { error: InterpError::CommandFailed }
                }
            },
            Event::FetchDone { success: _ } => {
                self.phase = Phase::Ready;
                Action::Continue
            },
            Event::Answer { text } => {
                let t = trim(text.as_str());
                match &self.phase {
                    Phase::AwaitingAnswer { name, fallback } => {
                        let name_copy = name.clone();
                        let fallback_copy: Option<String> = match fallback {
                            Some(d) => Some(d.clone()),
                            None => None,
                        };
                        if !t.as_str().is_empty() {
                            self.vars.set(name_copy, t);
                            self.phase = Phase::Ready;
                            Action::Continue
                        } else {
                            match fallback_copy {
                                Some(d) => {
                                    self.vars.set(name_copy, d);
                                    self.phase = Phase::Ready;
                                    Action::Continue
                                },
                                None => {
                                    self.phase = Phase::Failed;
                                    Action::Failed {
                                        error: InterpError::MissingArg { name: name_copy },
                                    }
                                },
                            }
                        }
                    },
                    _ => {
                        proof {
                            assert(false);
                        }
                        Action::Continue
                    },
                }
            },
        }
    }
}

} // verus!
