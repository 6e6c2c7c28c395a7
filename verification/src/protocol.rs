//! What passes between a run and whoever drives it: the events reported to
//! the run, the actions it hands out, and the errors that end it.

use vstd::prelude::*;
use crate::catalog::{Question, QuestionView};

verus! {

/// Where a run stands. A prompting stage waits for the answer to its
/// question; `InitializeRoot`, `Execute` and `Finalize` wait for the outcome
/// of the action that was handed out last.
#[derive(Debug, Clone, Copy, PartialEq, Eq, Structural)]
pub enum Stage {
    Init,
    PromptPhp,
    PromptPhpBoilerplate,
    PromptCss,
    PromptCssFramework,
    InitializeRoot,
    Execute,
    Finalize,
    Done,
    Failed,
}

/// Why a run ended early. Each error carries the text that was reported with
/// the event that ended the run.
#[derive(Debug, Clone, PartialEq, Eq)]
pub enum PipelineError {
    Interaction(String),
    RootAlreadyExists(String),
    DirectoryCreation(String),
    NetworkFetch(String),
    FileWrite(String),
}

/// An error as the text it carries.
pub enum PipelineErrorView {
    Interaction(Seq<char>),
    RootAlreadyExists(Seq<char>),
    DirectoryCreation(Seq<char>),
    NetworkFetch(Seq<char>),
    FileWrite(Seq<char>),
}

impl PipelineErrorView {
    /// The text that the error carries.
    pub open spec fn message(self) -> Seq<char> {
        match self {
            PipelineErrorView::Interaction(message) => message,
            PipelineErrorView::RootAlreadyExists(message) => message,
            PipelineErrorView::DirectoryCreation(message) => message,
            PipelineErrorView::NetworkFetch(message) => message,
            PipelineErrorView::FileWrite(message) => message,
        }
    }
}

impl View for PipelineError {
    type V = PipelineErrorView;

    open spec fn view(&self) -> PipelineErrorView {
        match self {
            PipelineError::Interaction(message) => PipelineErrorView::Interaction(message@),
            PipelineError::RootAlreadyExists(message) => PipelineErrorView::RootAlreadyExists(
                message@,
            ),
            PipelineError::DirectoryCreation(message) => PipelineErrorView::DirectoryCreation(
                message@,
            ),
            PipelineError::NetworkFetch(message) => PipelineErrorView::NetworkFetch(message@),
            PipelineError::FileWrite(message) => PipelineErrorView::FileWrite(message@),
        }
    }
}

impl PipelineError {
    /// The text that the error carries.
    pub fn message(&self) -> (message: String)
        ensures
            message@ == self@.message(),
    {
        match self {
            PipelineError::Interaction(message) => message.clone(),
            PipelineError::RootAlreadyExists(message) => message.clone(),
            PipelineError::DirectoryCreation(message) => message.clone(),
            PipelineError::NetworkFetch(message) => message.clone(),
            PipelineError::FileWrite(message) => message.clone(),
        }
    }
}

/// What happened outside since the last step.
#[derive(Debug, Clone, PartialEq, Eq)]
pub enum Event {
    /// Nothing yet: the run begins.
    Start,
    /// The answer to a single question: 0 for the skip label, `k` for label `k - 1`.
    Selected(usize),
    /// The answer to a multiple question: the positions of the picked labels.
    SelectedMany(Vec<usize>),
    /// The action was carried out.
    Done,
    /// The directory to create was there already, with the text of that report.
    AlreadyExists(String),
    /// The fetch succeeded with this content.
    Fetched(String),
    /// The action failed, with the text of the failure.
    Failed(String),
}

/// An event as texts and sequences.
pub enum EventView {
    Start,
    Selected(usize),
    SelectedMany(Seq<usize>),
    Done,
    AlreadyExists(Seq<char>),
    Fetched(Seq<char>),
    Failed(Seq<char>),
}

impl View for Event {
    type V = EventView;

    open spec fn view(&self) -> EventView {
        match self {
            Event::Start => EventView::Start,
            Event::Selected(index) => EventView::Selected(*index),
            Event::SelectedMany(indices) => EventView::SelectedMany(indices@),
            Event::Done => EventView::Done,
            Event::AlreadyExists(message) => EventView::AlreadyExists(message@),
            Event::Fetched(data) => EventView::Fetched(data@),
            Event::Failed(message) => EventView::Failed(message@),
        }
    }
}

/// What is to be done outside next. `Finish` and `Abort` end the run.
#[derive(Debug, Clone, PartialEq, Eq)]
pub enum Action {
    Ask(Question),
    CreateRoot { path: String },
    CreateDir { path: String },
    Fetch { url: String },
    WriteFile { path: String, data: String },
    Finish,
    Abort(PipelineError),
}

/// An action as texts.
pub enum ActionView {
    Ask(QuestionView),
    CreateRoot { path: Seq<char> },
    CreateDir { path: Seq<char> },
    Fetch { url: Seq<char> },
    WriteFile { path: Seq<char>, data: Seq<char> },
    Finish,
    Abort(PipelineErrorView),
}

impl View for Action {
    type V = ActionView;

    open spec fn view(&self) -> ActionView {
        match self {
            Action::Ask(question) => ActionView::Ask(question@),
            Action::CreateRoot { path } => ActionView::CreateRoot { path: path@ },
            Action::CreateDir { path } => ActionView::CreateDir { path: path@ },
            Action::Fetch { url } => ActionView::Fetch { url: url@ },
            Action::WriteFile { path, data } => ActionView::WriteFile { path: path@, data: data@ },
            Action::Finish => ActionView::Finish,
            Action::Abort(error) => ActionView::Abort(error@),
        }
    }
}

} // verus!
