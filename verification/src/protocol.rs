//! The conversation between the tool's decisions and whoever carries them
//! out: requests go one way, reports of what happened come back.

use vstd::prelude::*;
use crate::error::{outcome_view, CliError, ErrorView};
use crate::invocation::{Completion, Invocation, InvocationView};
use crate::probe::{Captured, CapturedView};

verus! {

/// How far the handling of a command has come. Each stage but the first
/// and the last waits for the report on one request.
#[derive(Debug, Clone, Copy, PartialEq, Eq, Structural)]
pub enum Stage {
    /// Nothing has been asked yet.
    Start,
    /// `init` waits for the project environment to be created.
    Creating,
    /// `init` waits for the task runner to be installed.
    Bootstrapping,
    /// `init` waits to learn whether the manifest is already there.
    Checking,
    /// `init` waits for the manifest to be written.
    Writing,
    /// `run` or `inspect` waits to learn whether the manifest is there.
    Locating,
    /// The one program that does the command's work is running.
    Delegating,
    /// `environment` waits for the package listing.
    Listing,
    /// `environment` waits for the interpreter's version.
    AskingInterpreter,
    /// `environment` waits for the environment manager's version.
    AskingManager,
    /// The check after installation waits to learn whether a tool runs.
    Probing,
    /// The command has been answered; nothing more will be asked.
    Finished,
}

/// What happened outside since the last request.
#[derive(Debug, PartialEq, Eq)]
pub enum Event {
    /// Handling begins; nothing was requested before.
    Started,
    /// The program of an interactive or silent request came to an end.
    Completed(Completion),
    /// The program of a capturing request came to an end.
    Captured(Captured),
    /// Whether the file asked about exists.
    Located(bool),
    /// Whether the file to be written was written.
    Written(bool),
}

/// An [`Event`] with its data as plain values.
pub enum EventView {
    Started,
    Completed(Completion),
    Captured(CapturedView),
    Located(bool),
    Written(bool),
}

impl View for Event {
    type V = EventView;

    open spec fn view(&self) -> EventView {
        match self {
            Event::Started => EventView::Started,
            Event::Completed(completion) => EventView::Completed(*completion),
            Event::Captured(captured) => EventView::Captured(captured@),
            Event::Located(exists) => EventView::Located(*exists),
            Event::Written(done) => EventView::Written(*done),
        }
    }
}

/// What is to be done next.
#[derive(Debug, PartialEq, Eq)]
pub enum Action {
    /// Run this program and report how it ended.
    Invoke(Invocation),
    /// Report whether a file exists at this path.
    Locate(String),
    /// Create the file at `path` with `contents` and report whether that
    /// worked.
    Write { path: String, contents: String },
    /// Stop: this is the exit code, or the failure to report.
    Finish(Result<i32, CliError>),
    /// Nothing: the event answered no request that was open.
    Idle,
}

/// An [`Action`] as plain text.
pub enum ActionView {
    Invoke(InvocationView),
    Locate(Seq<char>),
    Write { path: Seq<char>, contents: Seq<char> },
    Finish(Result<i32, ErrorView>),
    Idle,
}

impl View for Action {
    type V = ActionView;

    open spec fn view(&self) -> ActionView {
        match self {
            Action::Invoke(invocation) => ActionView::Invoke(invocation@),
            Action::Locate(path) => ActionView::Locate(path@),
            Action::Write { path, contents } => ActionView::Write {
                path: path@,
                contents: contents@,
            },
            Action::Finish(outcome) => ActionView::Finish(outcome_view(*outcome)),
            Action::Idle => ActionView::Idle,
        }
    }
}

/// Where a line of text is shown.
#[derive(Debug, Clone, Copy, PartialEq, Eq, Structural)]
pub enum Stream {
    /// The standard output.
    Output,
    /// The standard error stream.
    Error,
}

/// One line of text for the user.
#[derive(Debug, PartialEq, Eq)]
pub struct Line {
    pub stream: Stream,
    pub text: String,
}

/// A [`Line`] as plain text.
pub struct LineView {
    pub stream: Stream,
    pub text: Seq<char>,
}

impl View for Line {
    type V = LineView;

    open spec fn view(&self) -> LineView {
        LineView { stream: self.stream, text: self.text@ }
    }
}

/// The answer to an event: lines to show, then one thing to do.
#[derive(Debug, PartialEq, Eq)]
pub struct Step {
    pub output: Vec<Line>,
    pub action: Action,
}

/// A [`Step`] as plain text.
pub struct StepView {
    pub output: Seq<LineView>,
    pub action: ActionView,
}

impl View for Step {
    type V = StepView;

    open spec fn view(&self) -> StepView {
        StepView {
            output: Seq::new(self.output.len() as nat, |i: int| self.output[i]@),
            action: self.action@,
        }
    }
}

/// The step that shows nothing and asks for `action`.
pub open spec fn quiet(action: ActionView) -> StepView {
    StepView { output: Seq::empty(), action }
}

/// The step that shows `text` on `stream` and asks for `action`.
pub open spec fn saying(stream: Stream, text: Seq<char>, action: ActionView) -> StepView {
    StepView { output: seq![LineView { stream, text }], action }
}

/// The step that shows `text` on the standard output, if there is any, and
/// asks for `action`.
pub open spec fn reporting(text: Option<Seq<char>>, action: ActionView) -> StepView {
    match text {
        Some(text) => saying(Stream::Output, text, action),
        None => quiet(action),
    }
}

impl Step {
    /// The step that shows nothing and asks for `action`.
    pub fn quiet(action: Action) -> (step: Step)
        ensures
            step@ == quiet(action@),
    {
        let step = Step { output: Vec::new(), action };
        assert(step@.output =~= Seq::empty());
        step
    }

    /// The step that shows `text` on `stream` and asks for `action`.
    pub fn saying(stream: Stream, text: String, action: Action) -> (step: Step)
        ensures
            step@ == saying(stream, text@, action@),
    {
        let mut output: Vec<Line> = Vec::new();
        output.push(Line { stream, text });
        let step = Step { output, action };
        assert(step@.output =~= seq![LineView { stream, text: text@ }]);
        step
    }

    /// The step that shows `text` on the standard output, if there is any,
    /// and asks for `action`.
    pub fn reporting(text: Option<String>, action: Action) -> (step: Step)
        ensures
            step@ == reporting(crate::text::optional_text(text), action@),
    {
        match text {
            Some(text) => Step::saying(Stream::Output, text, action),
            None => Step::quiet(action),
        }
    }
}

} // verus!
