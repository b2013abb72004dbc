//! The confirmation state machine.
//!
//! A session takes a proposed command through its cycle: the command is
//! shown and a decision is asked for; the user runs it, has it explained,
//! edits it or cancels. The session never reads or writes by itself. It is
//! handed one event at a time, a key or the answer of the generator, and
//! replies with what is to be written and what it needs next; the caller
//! does the reading, the writing and the calls of the generator.
//! `run_session` drives a session over events that are already there.

use crate::confirmation::{
    command_display, command_rows, confirm_key, confirm_output, confirmation_prompt, decision,
    display_command, display_explanation_with, explanation_display, explanation_rows,
    lemma_shown_rows_nonnegative, prompt_display, prompt_rows, ConfirmOutcome, ConfirmResult,
};
use crate::editor::{
    apply_key, edit_key, editor_display, key_output, outcome_of, EditBuffer, EditOutcome,
};
use crate::error::{ErrorView, NlshError};
use crate::keys::{decode, decode_next, lemma_decode_bounds, KeyEvent};
use crate::layout::{saturated, CLEAR_LINE};
use crate::prompt::{clean_explanation, clean_response, cleaned_explanation, cleaned_response};
use crate::style::{
    append_segments, colors_enabled, line_with_mark, marked_line, pieces, plain_piece,
    push_segment, Piece, Segment, Style,
};
use crate::text::{chars_of, is_blank, trimmed};
use vstd::prelude::*;

verus! {

/// How the assistant was started: for a dialogue of many requests, or for a
/// single one.
#[derive(Clone, Copy, Debug, PartialEq, Eq, Structural)]
pub enum Mode {
    Interactive,
    Single,
}

/// Where a session stands.
#[derive(Clone, Copy, Debug, PartialEq, Eq, Structural)]
pub enum Phase {
    /// The command and the prompt are shown; an explanation is on offer.
    Deciding,
    /// The command, an explanation and the prompt are shown.
    DecidingExplained,
    /// The explanation was asked for and is awaited.
    Explaining,
    /// The command is under edit.
    Editing,
    /// The session is over.
    Ended,
}

/// What the generator came back with.
#[derive(Debug, Clone, PartialEq, Eq)]
pub enum Generation {
    /// Its answer.
    Completed(String),
    /// It failed.
    Failed(NlshError),
    /// The user cancelled the request.
    Cancelled,
}

/// The model of a generator's answer.
pub enum GenerationView {
    Completed(Seq<char>),
    Failed(ErrorView),
    Cancelled,
}

impl View for Generation {
    type V = GenerationView;

    open spec fn view(&self) -> GenerationView {
        match self {
            Generation::Completed(text) => GenerationView::Completed(text@),
            Generation::Failed(error) => GenerationView::Failed(error@),
            Generation::Cancelled => GenerationView::Cancelled,
        }
    }
}

/// How a session ended.
#[derive(Debug, Clone, PartialEq, Eq)]
pub enum SessionEnd {
    /// The user accepted: the command is to be run.
    Execute(String),
    /// The input ended at the prompt: nothing is run.
    Declined,
    /// The user cancelled, at the prompt or by leaving the editor without a
    /// result: nothing is run, and what follows is for the caller to say.
    Cancelled,
    /// The user interrupted: the process is to leave with the interrupt's
    /// exit code.
    Interrupted,
    /// The generator failed.
    Failed(NlshError),
    /// The user cancelled a request to the generator.
    Aborted,
    /// The generator's answer held no command.
    EmptyResponse,
}

/// The model of a session's end.
pub enum EndView {
    Execute(Seq<char>),
    Declined,
    Cancelled,
    Interrupted,
    Failed(ErrorView),
    Aborted,
    EmptyResponse,
}

impl View for SessionEnd {
    type V = EndView;

    open spec fn view(&self) -> EndView {
        match self {
            SessionEnd::Execute(command) => EndView::Execute(command@),
            SessionEnd::Declined => EndView::Declined,
            SessionEnd::Cancelled => EndView::Cancelled,
            SessionEnd::Interrupted => EndView::Interrupted,
            SessionEnd::Failed(error) => EndView::Failed(error@),
            SessionEnd::Aborted => EndView::Aborted,
            SessionEnd::EmptyResponse => EndView::EmptyResponse,
        }
    }
}

/// The exit code of a process that the user interrupted.
pub const EXIT_SIGINT: i32 = 130;

/// The exit code of a process that failed.
pub const EXIT_FAILURE: i32 = 1;

/// The exit code with which the process leaves after a session ended, if
/// it leaves: that of an interrupt where the user interrupted, that of a
/// failure where the generator failed or gave no command. A single request
/// that the user cancelled ends like an interrupted one; in a dialogue the
/// request is offered again. After any other end the caller goes on.
pub open spec fn exit_code_of(end: EndView, mode: Mode) -> Option<i32> {
    match end {
        EndView::Interrupted => Some(EXIT_SIGINT),
        EndView::Cancelled => if mode is Single {
            Some(EXIT_SIGINT)
        } else {
            None
        },
        EndView::Failed(_) => Some(EXIT_FAILURE),
        EndView::EmptyResponse => Some(EXIT_FAILURE),
        _ => None,
    }
}

impl SessionEnd {
    /// The exit code with which the process leaves after this end, if it
    /// leaves.
    pub fn exit_code(&self, mode: Mode) -> (code: Option<i32>)
        ensures
            code == exit_code_of(self@, mode),
    {
        match self {
            SessionEnd::Interrupted => Some(EXIT_SIGINT),
            SessionEnd::Cancelled => match mode {
                Mode::Single => Some(EXIT_SIGINT),
                Mode::Interactive => None,
            },
            SessionEnd::Failed(_) => Some(EXIT_FAILURE),
            SessionEnd::EmptyResponse => Some(EXIT_FAILURE),
            _ => None,
        }
    }
}

/// What a session needs next.
#[derive(Debug, Clone, PartialEq, Eq)]
pub enum Request {
    /// The next key.
    Key,
    /// An explanation of the session's command from the generator.
    Explanation,
    /// Nothing: the session is over.
    Finish(SessionEnd),
}

/// The model of a request.
pub enum RequestView {
    Key,
    Explanation,
    Finish(EndView),
}

impl View for Request {
    type V = RequestView;

    open spec fn view(&self) -> RequestView {
        match self {
            Request::Key => RequestView::Key,
            Request::Explanation => RequestView::Explanation,
            Request::Finish(end) => RequestView::Finish(end@),
        }
    }
}

/// A session's reply to an event.
#[derive(Debug)]
pub struct Reaction {
    /// What is to be written to the terminal.
    pub output: Vec<Segment>,
    /// What the session needs next.
    pub next: Request,
}

/// The model of a reaction.
pub struct ReactionView {
    pub output: Seq<Piece>,
    pub next: RequestView,
}

impl View for Reaction {
    type V = ReactionView;

    open spec fn view(&self) -> ReactionView {
        ReactionView { output: pieces(self.output@), next: self.next@ }
    }
}

/// The model of a session.
pub struct SessionView {
    pub phase: Phase,
    /// The command on offer.
    pub command: Seq<char>,
    /// The text under edit, and the cursor in it.
    pub text: Seq<char>,
    pub pos: int,
    /// The rows on the screen: of the command, of the explanation, of the
    /// prompt.
    pub cmd_rows: int,
    pub expl_rows: int,
    pub prompt_rows: int,
}

impl SessionView {
    /// The session in another phase.
    pub open spec fn in_phase(self, phase: Phase) -> SessionView {
        SessionView {
            phase,
            command: self.command,
            text: self.text,
            pos: self.pos,
            cmd_rows: self.cmd_rows,
            expl_rows: self.expl_rows,
            prompt_rows: self.prompt_rows,
        }
    }

    /// The session with another text under edit.
    pub open spec fn with_text(self, text: Seq<char>, pos: int) -> SessionView {
        SessionView {
            phase: self.phase,
            command: self.command,
            text,
            pos,
            cmd_rows: self.cmd_rows,
            expl_rows: self.expl_rows,
            prompt_rows: self.prompt_rows,
        }
    }

    /// The cursor is within the text under edit, and the row counts are
    /// those of machine integers.
    pub open spec fn wf(self) -> bool {
        &&& 0 <= self.pos <= self.text.len()
        &&& 0 <= self.cmd_rows <= usize::MAX
        &&& 0 <= self.expl_rows <= usize::MAX
        &&& 0 <= self.prompt_rows <= usize::MAX
    }
}

/// What a session in the given phase needs next.
pub open spec fn awaits(phase: Phase, next: RequestView) -> bool {
    match phase {
        Phase::Deciding => next is Key,
        Phase::DecidingExplained => next is Key,
        Phase::Editing => next is Key,
        Phase::Explaining => next is Explanation,
        Phase::Ended => next is Finish,
    }
}

/// A session that shows `command` and asks for a decision, and what is
/// written for that.
pub open spec fn asking(command: Seq<char>, width: int) -> (SessionView, Seq<Piece>) {
    (
        SessionView {
            phase: Phase::Deciding,
            command,
            text: command,
            pos: command.len() as int,
            cmd_rows: saturated(command_rows(command, width)),
            expl_rows: 0,
            prompt_rows: saturated(prompt_rows(true, width)),
        },
        command_display(command) + prompt_display(true),
    )
}

/// How a session starts: the command is shown and, where the session is
/// interactive, a decision is asked for; where it is not, the command is
/// to be run at once and no key is read.
pub open spec fn start_reaction(command: Seq<char>, interactive: bool, width: int) -> (
    SessionView,
    ReactionView,
) {
    if interactive {
        let (session, output) = asking(command, width);
        (session, ReactionView { output, next: RequestView::Key })
    } else {
        (
            SessionView {
                phase: Phase::Ended,
                command,
                text: command,
                pos: command.len() as int,
                cmd_rows: saturated(command_rows(command, width)),
                expl_rows: 0,
                prompt_rows: 0,
            },
            ReactionView {
                output: command_display(command),
                next: RequestView::Finish(EndView::Execute(command)),
            },
        )
    }
}

/// The notice that is shown while the explanation is awaited.
pub open spec fn explaining_notice() -> Seq<Piece> {
    seq![Piece { text: "explaining..."@, style: Style::Gray }]
}

/// What a key does while a decision is asked for.
///
/// Acceptance ends the session with the command to run. The end of the
/// input declines, `n` cancels, Ctrl-C interrupts. A request to edit opens
/// the editor on the command, one to explain asks the generator.
pub open spec fn deciding_reaction(session: SessionView, key: KeyEvent) -> (
    SessionView,
    ReactionView,
) {
    let outcome = decision(key, session.phase is Deciding);
    let erased = confirm_output(
        outcome,
        session.cmd_rows,
        session.expl_rows,
        session.prompt_rows,
    );
    let over = session.in_phase(Phase::Ended);
    match outcome {
        ConfirmOutcome::Waiting => (session, ReactionView { output: erased, next: RequestView::Key }),
        ConfirmOutcome::Decided(ConfirmResult::Yes) => (
            over,
            ReactionView {
                output: erased,
                next: RequestView::Finish(EndView::Execute(session.command)),
            },
        ),
        ConfirmOutcome::Decided(ConfirmResult::No) => (
            over,
            ReactionView { output: erased, next: RequestView::Finish(EndView::Declined) },
        ),
        ConfirmOutcome::Decided(ConfirmResult::Cancel) => (
            over,
            ReactionView { output: erased, next: RequestView::Finish(EndView::Cancelled) },
        ),
        ConfirmOutcome::Decided(ConfirmResult::Edit) => (
            session.with_text(session.command, session.command.len() as int).in_phase(
                Phase::Editing,
            ),
            ReactionView {
                output: erased + editor_display(session.command, session.command.len() as int),
                next: RequestView::Key,
            },
        ),
        ConfirmOutcome::Decided(ConfirmResult::Explain) => (
            session.in_phase(Phase::Explaining),
            ReactionView { output: erased + explaining_notice(), next: RequestView::Explanation },
        ),
        ConfirmOutcome::Interrupted => (
            over,
            ReactionView { output: erased, next: RequestView::Finish(EndView::Interrupted) },
        ),
    }
}

/// What a key does while the command is under edit.
///
/// Enter makes the edited text the command, which is shown and asked about
/// anew. The end of the input counts as cancelling; Ctrl-C interrupts.
pub open spec fn editing_reaction(session: SessionView, key: KeyEvent, width: int) -> (
    SessionView,
    ReactionView,
) {
    let (text, pos) = apply_key(session.text, session.pos, key);
    let written = key_output(session.text, session.pos, key, width);
    let edited = session.with_text(text, pos);
    match outcome_of(key) {
        EditOutcome::Editing => (edited, ReactionView { output: written, next: RequestView::Key }),
        EditOutcome::Accepted => {
            let (again, shown) = asking(text, width);
            (again, ReactionView { output: written + shown, next: RequestView::Key })
        },
        EditOutcome::Cancelled => (
            edited.in_phase(Phase::Ended),
            ReactionView { output: written, next: RequestView::Finish(EndView::Cancelled) },
        ),
        EditOutcome::Interrupted => (
            edited.in_phase(Phase::Ended),
            ReactionView { output: written, next: RequestView::Finish(EndView::Interrupted) },
        ),
    }
}

/// What a key does to a session that awaits one.
pub open spec fn key_reaction(session: SessionView, key: KeyEvent, width: int) -> (
    SessionView,
    ReactionView,
) {
    if session.phase is Editing {
        editing_reaction(session, key, width)
    } else {
        deciding_reaction(session, key)
    }
}

/// What the generator's answer does to a session that awaits an
/// explanation.
///
/// The notice is cleared. An answer is cleaned, shown below the command and
/// followed by a prompt that offers no further explanation. A failure and a
/// cancelled request end the session.
pub open spec fn explanation_reaction(
    session: SessionView,
    answer: GenerationView,
    width: int,
    colorize: bool,
) -> (SessionView, ReactionView) {
    let cleared = seq![plain_piece(CLEAR_LINE@)];
    match answer {
        GenerationView::Completed(text) => {
            let explanation = cleaned_explanation(text, session.command);
            (
                SessionView {
                    phase: Phase::DecidingExplained,
                    command: session.command,
                    text: session.text,
                    pos: session.pos,
                    cmd_rows: session.cmd_rows,
                    expl_rows: saturated(explanation_rows(explanation, colorize, width)),
                    prompt_rows: saturated(prompt_rows(false, width)),
                },
                ReactionView {
                    output: cleared + explanation_display(explanation, colorize) + prompt_display(
                        false,
                    ),
                    next: RequestView::Key,
                },
            )
        },
        GenerationView::Failed(error) => (
            session.in_phase(Phase::Ended),
            ReactionView { output: cleared, next: RequestView::Finish(EndView::Failed(error)) },
        ),
        GenerationView::Cancelled => (
            session.in_phase(Phase::Ended),
            ReactionView { output: cleared, next: RequestView::Finish(EndView::Aborted) },
        ),
    }
}

/// After every event a session asks for what its phase awaits, and stays
/// well formed; the end of the input, and a request that the generator does
/// not answer, end it.
pub proof fn lemma_reactions_consistent(
    session: SessionView,
    key: KeyEvent,
    answer: GenerationView,
    width: int,
    colorize: bool,
)
    requires
        session.wf(),
        width >= 1,
    ensures
        awaits(session.phase, RequestView::Key) ==> awaits(
            key_reaction(session, key, width).0.phase,
            key_reaction(session, key, width).1.next,
        ),
        key_reaction(session, key, width).0.wf(),
        awaits(
            explanation_reaction(session, answer, width, colorize).0.phase,
            explanation_reaction(session, answer, width, colorize).1.next,
        ),
        explanation_reaction(session, answer, width, colorize).0.wf(),
        key == KeyEvent::EndOfInput ==> key_reaction(session, key, width).1.next is Finish,
        answer is Cancelled ==> explanation_reaction(
            session,
            answer,
            width,
            colorize,
        ).1.next is Finish,
{
    let (text, pos) = apply_key(session.text, session.pos, key);
    lemma_shown_rows_nonnegative(text, true, width);
    lemma_shown_rows_nonnegative(text, false, width);
    match answer {
        GenerationView::Completed(reply) => {
            lemma_shown_rows_nonnegative(
                cleaned_explanation(reply, session.command),
                colorize,
                width,
            );
        },
        _ => {},
    }
}


/// A session: a proposed command on its way through the confirmation
/// cycle.
#[derive(Debug)]
pub struct Session {
    phase: Phase,
    command: String,
    buffer: EditBuffer,
    cmd_rows: usize,
    expl_rows: usize,
    prompt_rows: usize,
}

impl View for Session {
    type V = SessionView;

    closed spec fn view(&self) -> SessionView {
        SessionView {
            phase: self.phase,
            command: self.command@,
            text: self.buffer.text(),
            pos: self.buffer.cursor(),
            cmd_rows: self.cmd_rows as int,
            expl_rows: self.expl_rows as int,
            prompt_rows: self.prompt_rows as int,
        }
    }
}

impl Session {
    /// Starts a session for `command`: shows it and, where the session is
    /// interactive, asks for a decision.
    pub fn start(command: &str, interactive: bool, width: usize) -> (started: (Session, Reaction))
        requires
            width >= 1,
        ensures
            (started.0@, started.1@) == start_reaction(command@, interactive, width as int),
            started.0@.wf(),
            awaits(started.0@.phase, started.1@.next),
    {
        let shown = display_command(command, width);
        let mut output = shown.segments;
        let buffer = EditBuffer::new(command);
        if interactive {
            let prompt = confirmation_prompt(true, width);
            append_segments(&mut output, prompt.segments);
            let session = Session {
                phase: Phase::Deciding,
                command: command.to_owned(),
                buffer,
                cmd_rows: shown.rows,
                expl_rows: 0,
                prompt_rows: prompt.rows,
            };
            (session, Reaction { output, next: Request::Key })
        } else {
            let session = Session {
                phase: Phase::Ended,
                command: command.to_owned(),
                buffer,
                cmd_rows: shown.rows,
                expl_rows: 0,
                prompt_rows: 0,
            };
            (session, Reaction { output, next: Request::Finish(SessionEnd::Execute(command.to_owned())) })
        }
    }

    /// The phase of the session.
    pub fn phase(&self) -> (phase: Phase)
        ensures
            phase == self@.phase,
    {
        self.phase
    }

    /// The command on offer.
    pub fn command(&self) -> (command: String)
        ensures
            command@ == self@.command,
    {
        self.command.clone()
    }

    /// Shows the session's command, now `text`, and asks about it anew.
    fn ask_again(&mut self, text: String, width: usize) -> (output: Vec<Segment>)
        requires
            width >= 1,
        ensures
            (final(self)@, pieces(output@)) == asking(text@, width as int),
            final(self)@.wf(),
    {
        let shown = display_command(text.as_str(), width);
        let prompt = confirmation_prompt(true, width);
        let mut output = shown.segments;
        append_segments(&mut output, prompt.segments);
        self.buffer = EditBuffer::new(text.as_str());
        self.command = text;
        self.cmd_rows = shown.rows;
        self.expl_rows = 0;
        self.prompt_rows = prompt.rows;
        self.phase = Phase::Deciding;
        output
    }

    /// Handles a key while a decision is asked for.
    fn decide(&mut self, key: KeyEvent) -> (reaction: Reaction)
        requires
            old(self)@.wf(),
        ensures
            (final(self)@, reaction@) == deciding_reaction(old(self)@, key),
            final(self)@.wf(),
    {
        let with_explain = match self.phase {
            Phase::Deciding => true,
            _ => false,
        };
        let step = confirm_key(key, with_explain, self.cmd_rows, self.expl_rows, self.prompt_rows);
        let mut output = step.output;
        match step.outcome {
            ConfirmOutcome::Waiting => Reaction { output, next: Request::Key },
            ConfirmOutcome::Decided(ConfirmResult::Yes) => {
                self.phase = Phase::Ended;
                Reaction {
                    output,
                    next: Request::Finish(SessionEnd::Execute(self.command.clone())),
                }
            },
            ConfirmOutcome::Decided(ConfirmResult::No) => {
                self.phase = Phase::Ended;
                Reaction { output, next: Request::Finish(SessionEnd::Declined) }
            },
            ConfirmOutcome::Decided(ConfirmResult::Cancel) => {
                self.phase = Phase::Ended;
                Reaction { output, next: Request::Finish(SessionEnd::Cancelled) }
            },
            ConfirmOutcome::Decided(ConfirmResult::Edit) => {
                self.buffer = EditBuffer::new(self.command.as_str());
                append_segments(&mut output, self.buffer.open());
                self.phase = Phase::Editing;
                Reaction { output, next: Request::Key }
            },
            ConfirmOutcome::Decided(ConfirmResult::Explain) => {
                let ghost erased = pieces(output@);
                push_segment(&mut output, "explaining...", Style::Gray);
                assert(pieces(output@) =~= erased + explaining_notice());
                self.phase = Phase::Explaining;
                Reaction { output, next: Request::Explanation }
            },
            ConfirmOutcome::Interrupted => {
                self.phase = Phase::Ended;
                Reaction { output, next: Request::Finish(SessionEnd::Interrupted) }
            },
        }
    }

    /// Handles a key while the command is under edit.
    fn edit(&mut self, key: KeyEvent, width: usize) -> (reaction: Reaction)
        requires
            old(self)@.wf(),
            width >= 1,
        ensures
            (final(self)@, reaction@) == editing_reaction(old(self)@, key, width as int),
            final(self)@.wf(),
    {
        let step = edit_key(&mut self.buffer, key, width);
        let mut output = step.output;
        match step.outcome {
            EditOutcome::Editing => Reaction { output, next: Request::Key },
            EditOutcome::Accepted => {
                let text = self.buffer.contents();
                let shown = self.ask_again(text, width);
                append_segments(&mut output, shown);
                Reaction { output, next: Request::Key }
            },
            EditOutcome::Cancelled => {
                self.phase = Phase::Ended;
                Reaction { output, next: Request::Finish(SessionEnd::Cancelled) }
            },
            EditOutcome::Interrupted => {
                self.phase = Phase::Ended;
                Reaction { output, next: Request::Finish(SessionEnd::Interrupted) }
            },
        }
    }

    /// Hands the session a key.
    pub fn on_key(&mut self, key: KeyEvent, width: usize) -> (reaction: Reaction)
        requires
            old(self)@.wf(),
            width >= 1,
        ensures
            (final(self)@, reaction@) == key_reaction(old(self)@, key, width as int),
            final(self)@.wf(),
    {
        match self.phase {
            Phase::Editing => self.edit(key, width),
            _ => self.decide(key),
        }
    }

    /// Hands the session the generator's answer to its request for an
    /// explanation; `colorize` says whether emphasis is shown by escape
    /// sequences.
    pub fn explained(&mut self, answer: Generation, width: usize, colorize: bool) -> (reaction:
        Reaction)
        requires
            old(self)@.wf(),
            width >= 1,
        ensures
            (final(self)@, reaction@) == explanation_reaction(
                old(self)@,
                answer@,
                width as int,
                colorize,
            ),
            final(self)@.wf(),
    {
        let mut output: Vec<Segment> = Vec::new();
        push_segment(&mut output, CLEAR_LINE, Style::Plain);
        assert(pieces(output@) =~= seq![plain_piece(CLEAR_LINE@)]);
        match answer {
            Generation::Completed(text) => {
                let explanation = clean_explanation(text.as_str(), self.command.as_str());
                let shown = display_explanation_with(explanation.as_str(), width, colorize);
                let prompt = confirmation_prompt(false, width);
                append_segments(&mut output, shown.segments);
                append_segments(&mut output, prompt.segments);
                self.expl_rows = shown.rows;
                self.prompt_rows = prompt.rows;
                self.phase = Phase::DecidingExplained;
                Reaction { output, next: Request::Key }
            },
            Generation::Failed(error) => {
                self.phase = Phase::Ended;
                Reaction { output, next: Request::Finish(SessionEnd::Failed(error)) }
            },
            Generation::Cancelled => {
                self.phase = Phase::Ended;
                Reaction { output, next: Request::Finish(SessionEnd::Aborted) }
            },
        }
    }

    /// Hands the session the generator's answer to its request for an
    /// explanation; emphasis is shown by escape sequences where output is
    /// coloured.
    pub fn on_explanation(&mut self, answer: Generation, width: usize) -> (reaction: Reaction)
        requires
            old(self)@.wf(),
            width >= 1,
        ensures
            exists|colorize: bool|
                (final(self)@, reaction@) == #[trigger] explanation_reaction(
                    old(self)@,
                    answer@,
                    width as int,
                    colorize,
                ),
            final(self)@.wf(),
    {
        let colorize = colors_enabled();
        self.explained(answer, width, colorize)
    }
}

/// The command in the generator's answer to a request, or how the session
/// ends without one.
pub open spec fn proposed(answer: GenerationView) -> Result<Seq<char>, EndView> {
    match answer {
        GenerationView::Completed(response) => if trimmed(cleaned_response(response)).len() == 0 {
            Err(EndView::EmptyResponse)
        } else {
            Ok(cleaned_response(response))
        },
        GenerationView::Failed(error) => Err(EndView::Failed(error)),
        GenerationView::Cancelled => Err(EndView::Aborted),
    }
}

/// Whether `result` is the command or the end that `expected` names.
pub open spec fn proposal_matches(
    result: Result<String, SessionEnd>,
    expected: Result<Seq<char>, EndView>,
) -> bool {
    match result {
        Ok(command) => expected == Ok::<Seq<char>, EndView>(command@),
        Err(end) => expected == Err::<Seq<char>, EndView>(end@),
    }
}

/// Takes the command out of the generator's answer: a failure and a
/// cancelled request end the session, and so does an answer that holds
/// nothing but white space and code fences.
pub fn propose(answer: Generation) -> (result: Result<String, SessionEnd>)
    ensures
        proposal_matches(result, proposed(answer@)),
{
    match answer {
        Generation::Completed(response) => {
            let command = clean_response(response.as_str());
            if is_blank(&chars_of(command.as_str())) {
                Err(SessionEnd::EmptyResponse)
            } else {
                Ok(command)
            }
        },
        Generation::Failed(error) => Err(SessionEnd::Failed(error)),
        Generation::Cancelled => Err(SessionEnd::Aborted),
    }
}


/// A session over given events, as far as it is known: how it ends, the
/// bytes read, the explanations taken and what was written.
pub struct SessionTrace {
    pub end: EndView,
    pub used: int,
    pub answered: int,
    pub output: Seq<Piece>,
}

/// The generator's answer to the next request for an explanation: the first
/// of the given answers, or a cancelled request where none is left.
pub open spec fn next_answer(answers: Seq<Seq<char>>) -> GenerationView {
    if answers.len() > 0 {
        GenerationView::Completed(answers[0])
    } else {
        GenerationView::Cancelled
    }
}

/// The rest of a session that reads its keys from `input` and takes the
/// generator's answers from `answers`.
#[verifier::opaque]
pub open spec fn session_run(
    session: SessionView,
    input: Seq<u8>,
    answers: Seq<Seq<char>>,
    width: int,
    colorize: bool,
) -> SessionTrace
    decreases input.len() + answers.len(),
{
    if session.phase is Explaining {
        let (next, reaction) = explanation_reaction(
            session,
            next_answer(answers),
            width,
            colorize,
        );
        match reaction.next {
            RequestView::Finish(end) => SessionTrace {
                end,
                used: 0,
                answered: if answers.len() > 0 {
                    1
                } else {
                    0
                },
                output: reaction.output,
            },
            _ => if answers.len() > 0 {
                let rest = session_run(next, input, answers.skip(1), width, colorize);
                SessionTrace {
                    end: rest.end,
                    used: rest.used,
                    answered: 1 + rest.answered,
                    output: reaction.output + rest.output,
                }
            } else {
                SessionTrace {
                    end: EndView::Aborted,
                    used: 0,
                    answered: 0,
                    output: reaction.output,
                }
            },
        }
    } else {
        let (key, used) = decode(input);
        let (next, reaction) = key_reaction(session, key, width);
        match reaction.next {
            RequestView::Finish(end) => SessionTrace {
                end,
                used,
                answered: 0,
                output: reaction.output,
            },
            _ => if 0 < used <= input.len() {
                let rest = session_run(next, input.skip(used), answers, width, colorize);
                SessionTrace {
                    end: rest.end,
                    used: used + rest.used,
                    answered: rest.answered,
                    output: reaction.output + rest.output,
                }
            } else {
                SessionTrace {
                    end: EndView::Declined,
                    used,
                    answered: 0,
                    output: reaction.output,
                }
            },
        }
    }
}

/// How a session that awaits a key goes on: the next key of the input is
/// handed to it, and the rest of the session follows unless that key ends
/// it.
pub proof fn lemma_key_step(
    session: SessionView,
    input: Seq<u8>,
    answers: Seq<Seq<char>>,
    width: int,
    colorize: bool,
)
    requires
        session.wf(),
        width >= 1,
        awaits(session.phase, RequestView::Key),
    ensures
        ({
            let (key, used) = decode(input);
            let (next, reaction) = key_reaction(session, key, width);
            let now = session_run(session, input, answers, width, colorize);
            let rest = session_run(next, input.skip(used), answers, width, colorize);
            match reaction.next {
                RequestView::Finish(end) => now.end == end && now.used == used && now.answered
                    == 0 && now.output == reaction.output,
                _ => now.end == rest.end && now.used == used + rest.used && now.answered
                    == rest.answered && now.output == reaction.output + rest.output && 0 < used
                    <= input.len(),
            }
        }),
{
    reveal(session_run);
    lemma_decode_bounds(input);
    lemma_reactions_consistent(
        session,
        decode(input).0,
        GenerationView::Cancelled,
        width,
        colorize,
    );
}

/// How a session that awaits an explanation goes on: the next answer is
/// handed to it, and the rest of the session follows unless that answer
/// ends it.
pub proof fn lemma_answer_step(
    session: SessionView,
    input: Seq<u8>,
    answers: Seq<Seq<char>>,
    width: int,
    colorize: bool,
)
    requires
        session.wf(),
        width >= 1,
        session.phase is Explaining,
    ensures
        ({
            let (next, reaction) = explanation_reaction(
                session,
                next_answer(answers),
                width,
                colorize,
            );
            let now = session_run(session, input, answers, width, colorize);
            let rest = session_run(next, input, answers.skip(1), width, colorize);
            let taken: int = if answers.len() > 0 {
                1
            } else {
                0
            };
            match reaction.next {
                RequestView::Finish(end) => now.end == end && now.used == 0 && now.answered
                    == taken && now.output == reaction.output,
                _ => now.end == rest.end && now.used == rest.used && now.answered == 1
                    + rest.answered && now.output == reaction.output + rest.output
                    && answers.len() > 0,
            }
        }),
{
    reveal(session_run);
    lemma_reactions_consistent(
        session,
        KeyEvent::Enter,
        next_answer(answers),
        width,
        colorize,
    );
}

/// The whole session for `command`, from its start.
pub open spec fn whole_session(
    command: Seq<char>,
    interactive: bool,
    input: Seq<u8>,
    answers: Seq<Seq<char>>,
    width: int,
    colorize: bool,
) -> SessionTrace {
    let (session, reaction) = start_reaction(command, interactive, width);
    match reaction.next {
        RequestView::Finish(end) => SessionTrace {
            end,
            used: 0,
            answered: 0,
            output: reaction.output,
        },
        _ => {
            let rest = session_run(session, input, answers, width, colorize);
            SessionTrace {
                end: rest.end,
                used: rest.used,
                answered: rest.answered,
                output: reaction.output + rest.output,
            }
        },
    }
}

/// A session that is not interactive runs the command as it is, without
/// reading a byte or asking for an explanation.
pub proof fn lemma_batch_session_runs_command(
    command: Seq<char>,
    input: Seq<u8>,
    answers: Seq<Seq<char>>,
    width: int,
    colorize: bool,
)
    ensures
        whole_session(command, false, input, answers, width, colorize).end
            == EndView::Execute(command),
        whole_session(command, false, input, answers, width, colorize).used == 0,
        whole_session(command, false, input, answers, width, colorize).answered == 0,
{
}

/// The views of a list of strings.
pub open spec fn texts(list: Seq<String>) -> Seq<Seq<char>> {
    list.map_values(|s: String| s@)
}

/// What a session over given events came to.
#[derive(Debug)]
pub struct SessionRun {
    pub end: SessionEnd,
    /// The number of bytes read.
    pub consumed: usize,
    /// The number of explanations taken.
    pub answered: usize,
    /// What is to be written.
    pub output: Vec<Segment>,
}

/// Runs a session for `command` over events that are already there: the
/// keys are decoded from `input`, and the generator's answers to requests
/// for an explanation are taken from `explanations` in turn; a request
/// beyond them counts as cancelled.
pub fn run_session(
    command: &str,
    interactive: bool,
    width: usize,
    colorize: bool,
    input: &[u8],
    explanations: &Vec<String>,
) -> (run: SessionRun)
    requires
        width >= 1,
    ensures
        run.end@ == whole_session(
            command@,
            interactive,
            input@,
            texts(explanations@),
            width as int,
            colorize,
        ).end,
        run.consumed == whole_session(
            command@,
            interactive,
            input@,
            texts(explanations@),
            width as int,
            colorize,
        ).used,
        run.answered == whole_session(
            command@,
            interactive,
            input@,
            texts(explanations@),
            width as int,
            colorize,
        ).answered,
        pieces(run.output@) == whole_session(
            command@,
            interactive,
            input@,
            texts(explanations@),
            width as int,
            colorize,
        ).output,
        run.consumed <= input@.len(),
        run.answered <= explanations@.len(),
{
    let ghost answers = texts(explanations@);
    let ghost whole = whole_session(
        command@,
        interactive,
        input@,
        answers,
        width as int,
        colorize,
    );
    let (mut session, first) = Session::start(command, interactive, width);
    let mut output = first.output;
    match first.next {
        Request::Finish(end) => {
            return SessionRun { end, consumed: 0, answered: 0, output };
        },
        _ => {},
    }
    let mut i: usize = 0;
    let mut a: usize = 0;
    proof {
        assert(input@.skip(0) =~= input@);
        assert(answers.skip(0) =~= answers);
    }
    loop
        invariant
            width >= 1,
            i <= input@.len(),
            a <= explanations@.len(),
            answers == texts(explanations@),
            whole == whole_session(
                command@,
                interactive,
                input@,
                answers,
                width as int,
                colorize,
            ),
            session@.wf(),
            !(session@.phase is Ended),
            session_run(
                session@,
                input@.skip(i as int),
                answers.skip(a as int),
                width as int,
                colorize,
            ).end == whole.end,
            i + session_run(
                session@,
                input@.skip(i as int),
                answers.skip(a as int),
                width as int,
                colorize,
            ).used == whole.used,
            a + session_run(
                session@,
                input@.skip(i as int),
                answers.skip(a as int),
                width as int,
                colorize,
            ).answered == whole.answered,
            pieces(output@) + session_run(
                session@,
                input@.skip(i as int),
                answers.skip(a as int),
                width as int,
                colorize,
            ).output == whole.output,
        decreases (input@.len() - i) + (explanations@.len() - a),
    {
        let ghost before = session@;
        let ghost keys = input@.skip(i as int);
        let ghost left = answers.skip(a as int);
        let ghost written = pieces(output@);
        let reaction = match session.phase() {
            Phase::Explaining => {
                let answer = if a < explanations.len() {
                    assert(left[0] == explanations@[a as int]@);
                    Generation::Completed(explanations[a].clone())
                } else {
                    Generation::Cancelled
                };
                assert(answer@ == next_answer(left));
                proof {
                    lemma_answer_step(before, keys, left, width as int, colorize);
                }
                let reaction = session.explained(answer, width, colorize);
                if a < explanations.len() {
                    a = a + 1;
                    assert(left.skip(1) =~= answers.skip(a as int));
                }
                reaction
            },
            _ => {
                proof {
                    lemma_key_step(before, keys, left, width as int, colorize);
                }
                let (key, next) = decode_next(input, i);
                assert(keys.skip(next - i) =~= input@.skip(next as int));
                let reaction = session.on_key(key, width);
                i = next;
                reaction
            },
        };
        let ghost shown = pieces(reaction.output@);
        append_segments(&mut output, reaction.output);
        proof {
            let rest = session_run(
                session@,
                input@.skip(i as int),
                answers.skip(a as int),
                width as int,
                colorize,
            );
            assert((written + shown) + rest.output =~= written + (shown + rest.output));
            lemma_reactions_consistent(
                before,
                KeyEvent::Enter,
                GenerationView::Cancelled,
                width as int,
                colorize,
            );
        }
        match reaction.next {
            Request::Finish(end) => {
                return SessionRun { end, consumed: i, answered: a, output };
            },
            _ => {},
        }
    }
}


/// Builds the notice that is shown while an explanation is awaited.
pub fn waiting_notice() -> (notice: Vec<Segment>)
    ensures
        pieces(notice@) == explaining_notice(),
{
    let mut notice: Vec<Segment> = Vec::new();
    push_segment(&mut notice, "explaining...", Style::Gray);
    assert(pieces(notice@) =~= explaining_notice());
    notice
}

/// The notice that is shown while the generator works on a command.
pub fn using_notice(model: &str) -> (notice: Vec<Segment>)
    ensures
        pieces(notice@) == seq![
            Piece { text: "using "@ + model@ + "..."@, style: Style::Gray },
        ],
{
    let mut text = chars_of("using ");
    crate::text::extend_str(&mut text, model);
    crate::text::extend_str(&mut text, "...");
    let shown = crate::text::string_of(&text);
    let mut notice: Vec<Segment> = Vec::new();
    push_segment(&mut notice, shown.as_str(), Style::Gray);
    assert(pieces(notice@) =~= seq![
        Piece { text: "using "@ + model@ + "..."@, style: Style::Gray },
    ]);
    notice
}

/// What is shown for an explanation that was asked for by itself: the
/// explanation, or an error where nothing is left of the answer once it is
/// cleaned.
pub open spec fn lone_explanation(
    command: Seq<char>,
    answer: Seq<char>,
    colorize: bool,
) -> Seq<Piece> {
    let explanation = cleaned_explanation(answer, command);
    if explanation.len() == 0 {
        marked_line(
            "error:"@,
            Style::RedBold,
            "failed to generate a valid explanation."@,
            Style::Plain,
        )
    } else {
        explanation_display(explanation, colorize)
    }
}

/// Whether `result` is the output, or the end, that the answer to a lone
/// request for an explanation leads to.
pub open spec fn explanation_matches(
    result: Result<Vec<Segment>, SessionEnd>,
    command: Seq<char>,
    answer: GenerationView,
    colorize: bool,
) -> bool {
    match answer {
        GenerationView::Completed(text) => result is Ok && pieces(result->Ok_0@)
            == lone_explanation(command, text, colorize),
        GenerationView::Failed(error) => result is Err && result->Err_0@ == EndView::Failed(
            error,
        ),
        GenerationView::Cancelled => result is Err && result->Err_0@ == EndView::Aborted,
    }
}

/// Handles the generator's answer to a request to explain `command` that
/// was made by itself, outside a session: what is to be written, or how the
/// request ended without an answer.
pub fn explain_once(command: &str, answer: Generation, width: usize, colorize: bool) -> (result:
    Result<Vec<Segment>, SessionEnd>)
    requires
        width >= 1,
    ensures
        explanation_matches(result, command@, answer@, colorize),
{
    match answer {
        Generation::Completed(text) => {
            let explanation = clean_explanation(text.as_str(), command);
            if explanation.as_str().is_empty() {
                Ok(
                    line_with_mark(
                        "error:",
                        Style::RedBold,
                        "failed to generate a valid explanation.",
                        Style::Plain,
                    ),
                )
            } else {
                Ok(display_explanation_with(explanation.as_str(), width, colorize).segments)
            }
        },
        Generation::Failed(error) => Err(SessionEnd::Failed(error)),
        Generation::Cancelled => Err(SessionEnd::Aborted),
    }
}

} // verus!
