//! The driver of a run, as a state machine. The machine decides; whoever runs
//! it asks the questions, touches the file system and the network, and reports
//! back what happened. Each step takes the report of the last action and
//! gives the next action.

use vstd::prelude::*;
use crate::address::{checked_address, resolve_address, url_parse};
use crate::catalog::{Choice, Module, ModuleView};
use crate::executor::{execute_choice, operation_views, Operation, OperationView};
use crate::project::{in_range, indices_in_range, Project, ProjectView};
use crate::protocol::{
    Action, ActionView, Event, EventView, PipelineError, PipelineErrorView, Stage,
};
use crate::registry::{IndexTemplate, IndexTemplateView, Registry, RegistryView};
use crate::text::{join, join_spec};

verus! {

impl ProjectView {
    /// Where the index page goes: the index file in the public subdirectory
    /// below the root.
    pub open spec fn index_path(self) -> Seq<char> {
        join_spec(join_spec(self.root, self.public), self.index)
    }

    /// The action that creates the root directory.
    pub open spec fn initialize(self) -> ActionView {
        ActionView::CreateRoot { path: self.root }
    }

    /// The action that writes the index page: the template filled in with the
    /// project's name and the snippets accumulated so far.
    pub open spec fn finalize(self, template: IndexTemplateView) -> ActionView {
        ActionView::WriteFile {
            path: self.index_path(),
            data: template.render(self.name, self.snippets),
        }
    }
}

/// The action that creates the root directory of the project.
pub fn initialize_project(project: &Project) -> (action: Action)
    ensures
        action@ == project@.initialize(),
{
    Action::CreateRoot { path: project.root.clone() }
}

/// The action that writes the index page of the project.
pub fn finalize_project(project: &Project, template: &IndexTemplate) -> (action: Action)
    ensures
        action@ == project@.finalize(template@),
{
    let base = join(project.root.as_str(), project.public.as_str());
    Action::WriteFile {
        path: join(base.as_str(), project.index.as_str()),
        data: template.render(project.name.as_str(), project.snippets.as_str()),
    }
}

/// The action that begins an operation. A download begins with the fetch of
/// its address; a text that is no address is a failed fetch.
pub open spec fn request_spec(operation: OperationView) -> Result<ActionView, PipelineErrorView> {
    match operation {
        OperationView::CreateDir { path } => Ok(ActionView::CreateDir { path }),
        OperationView::WriteFile { path, data } => Ok(ActionView::WriteFile { path, data }),
        OperationView::Download { url, .. } => match checked_address(url_parse(url)) {
            Ok(address) => Ok(ActionView::Fetch { url: address }),
            Err(error) => Err(error),
        },
    }
}

/// The view of a request.
pub open spec fn request_view(request: Result<Action, PipelineError>) -> Result<
    ActionView,
    PipelineErrorView,
> {
    match request {
        Ok(action) => Ok(action@),
        Err(error) => Err(error@),
    }
}

/// The action that begins an operation, or the error that keeps it from beginning.
pub fn request(operation: &Operation) -> (request: Result<Action, PipelineError>)
    ensures
        request_view(request) == request_spec(operation@),
{
    match operation {
        Operation::CreateDir { path } => Ok(Action::CreateDir { path: path.clone() }),
        Operation::WriteFile { path, data } => Ok(
            Action::WriteFile { path: path.clone(), data: data.clone() },
        ),
        Operation::Download { url, .. } => match resolve_address(url.as_str()) {
            Ok(address) => Ok(Action::Fetch { url: address }),
            Err(error) => Err(error),
        },
    }
}

/// Whether `event` answers a single question about `module`.
pub open spec fn answers_single(module: ModuleView, event: EventView) -> bool {
    match event {
        EventView::Selected(index) => index <= module.choices.len(),
        EventView::Failed(_) => true,
        _ => false,
    }
}

/// Whether `event` answers a multiple question about `module`.
pub open spec fn answers_multiple(module: ModuleView, event: EventView) -> bool {
    match event {
        EventView::SelectedMany(indices) => indices_in_range(module, indices),
        EventView::Failed(_) => true,
        _ => false,
    }
}

/// The state of a run.
pub struct PipelineView {
    pub registry: RegistryView,
    pub project: ProjectView,
    pub stage: Stage,
    /// How many queued choices have been executed.
    pub cursor: nat,
    /// The operations of the choice executed last.
    pub pending: Seq<OperationView>,
    /// How many of them are finished.
    pub position: nat,
    /// Whether the download in progress has its content and waits for the write.
    pub fetched: bool,
}

impl PipelineView {
    /// The state in which a run for a project called `name` begins.
    pub open spec fn initial(registry: RegistryView, name: Seq<char>) -> PipelineView {
        PipelineView {
            registry,
            project: ProjectView::initial(name),
            stage: Stage::Init,
            cursor: 0,
            pending: Seq::empty(),
            position: 0,
            fetched: false,
        }
    }

    /// What holds of every state that a run passes through. The descriptor is
    /// a fresh one on which the first `cursor` queued choices were executed in
    /// queue order, so until the root is created only its queue changes; and
    /// the index page is written only when every queued choice is executed.
    pub open spec fn inv(self) -> bool {
        &&& self.registry.well_formed()
        &&& self.cursor <= self.project.queue.len()
        &&& self.position <= self.pending.len()
        &&& self.project.executed_to(self.cursor as int)
        &&& match self.stage {
            Stage::Init
            | Stage::PromptPhp
            | Stage::PromptPhpBoilerplate
            | Stage::PromptCss
            | Stage::PromptCssFramework
            | Stage::InitializeRoot => {
                &&& self.cursor == 0
                &&& self.pending.len() == 0
                &&& !self.fetched
            },
            Stage::Execute => {
                &&& self.position < self.pending.len()
                &&& self.fetched ==> self.pending[self.position as int] is Download
            },
            Stage::Finalize | Stage::Done => {
                &&& self.cursor == self.project.queue.len()
                &&& self.position == self.pending.len()
                &&& !self.fetched
            },
            Stage::Failed => true,
        }
    }

    /// Whether `event` is a report that this state waits for.
    pub open spec fn accepts(self, event: EventView) -> bool {
        match self.stage {
            Stage::Init => event is Start,
            Stage::PromptPhp => answers_single(self.registry.php_dirs, event),
            Stage::PromptPhpBoilerplate => answers_multiple(self.registry.php, event),
            Stage::PromptCss => answers_single(self.registry.css, event),
            Stage::PromptCssFramework => answers_multiple(self.registry.css_framework, event),
            Stage::InitializeRoot => event is Done || event is AlreadyExists || event is Failed,
            Stage::Execute => match self.pending[self.position as int] {
                OperationView::CreateDir { .. } => event is Done || event is AlreadyExists
                    || event is Failed,
                OperationView::WriteFile { .. } => event is Done || event is Failed,
                OperationView::Download { .. } => if self.fetched {
                    event is Done || event is Failed
                } else {
                    event is Fetched || event is Failed
                },
            },
            Stage::Finalize => event is Done || event is Failed,
            Stage::Done | Stage::Failed => false,
        }
    }

    /// The run ends with `error`.
    pub open spec fn fail(self, error: PipelineErrorView) -> (PipelineView, ActionView) {
        (PipelineView { stage: Stage::Failed, ..self }, ActionView::Abort(error))
    }

    /// The run goes on to `stage`, asking about `module`.
    pub open spec fn ask(self, stage: Stage, module: ModuleView) -> (PipelineView, ActionView) {
        (PipelineView { stage, ..self }, ActionView::Ask(module.question()))
    }

    /// The state once the operation in progress is finished.
    pub open spec fn finished(self) -> PipelineView {
        PipelineView { position: self.position + 1, fetched: false, ..self }
    }

    /// Hands out the pending operation at `position`: the run waits for its
    /// outcome, or fails where the operation cannot begin.
    pub open spec fn issue(self) -> (PipelineView, ActionView) {
        match request_spec(self.pending[self.position as int]) {
            Ok(action) => (PipelineView { stage: Stage::Execute, fetched: false, ..self }, action),
            Err(error) => self.fail(error),
        }
    }

    /// Finds the next thing to do once the root exists: the next pending
    /// operation; when none is left, the operations of the next queued choice,
    /// which is executed against the descriptor at that moment; when no choice
    /// is left, the writing of the index page.
    pub open spec fn advance(self) -> (PipelineView, ActionView)
        decreases self.project.queue.len() - self.cursor,
    {
        if self.position < self.pending.len() {
            self.issue()
        } else if self.cursor < self.project.queue.len() {
            let choice = self.project.queue[self.cursor as int];
            let project = self.project.apply_choice(choice);
            (PipelineView {
                project,
                cursor: self.cursor + 1,
                pending: project.choice_operations(choice),
                position: 0,
                ..self
            }).advance()
        } else {
            (
                PipelineView { stage: Stage::Finalize, fetched: false, ..self },
                self.project.finalize(self.registry.index),
            )
        }
    }

    /// The state with another descriptor.
    pub open spec fn with_project(self, project: ProjectView) -> PipelineView {
        PipelineView { project, ..self }
    }

    /// The next state and the next action, for an event that the state
    /// accepts. Of other events nothing is said.
    pub open spec fn step(self, event: EventView) -> (PipelineView, ActionView) {
        match (self.stage, event) {
            (Stage::Init, EventView::Start) => self.ask(Stage::PromptPhp, self.registry.php_dirs),
            (Stage::PromptPhp, EventView::Selected(index)) => {
                let answered = self.with_project(
                    self.project.enqueue_single(self.registry.php_dirs, index as int),
                );
                if index == 0 {
                    answered.ask(Stage::PromptCss, self.registry.css)
                } else {
                    answered.ask(Stage::PromptPhpBoilerplate, self.registry.php)
                }
            },
            (Stage::PromptPhpBoilerplate, EventView::SelectedMany(indices)) => self.with_project(
                self.project.enqueue_multiple(self.registry.php, indices),
            ).ask(Stage::PromptCss, self.registry.css),
            (Stage::PromptCss, EventView::Selected(index)) => self.with_project(
                self.project.enqueue_single(self.registry.css, index as int),
            ).ask(Stage::PromptCssFramework, self.registry.css_framework),
            (Stage::PromptCssFramework, EventView::SelectedMany(indices)) => {
                let project = self.project.enqueue_multiple(self.registry.css_framework, indices);
                (
                    PipelineView { project, stage: Stage::InitializeRoot, ..self },
                    project.initialize(),
                )
            },
            (
                Stage::PromptPhp
                | Stage::PromptPhpBoilerplate
                | Stage::PromptCss
                | Stage::PromptCssFramework,
                EventView::Failed(message),
            ) => self.fail(PipelineErrorView::Interaction(message)),
            (Stage::InitializeRoot, EventView::Done) => self.advance(),
            (Stage::InitializeRoot, EventView::AlreadyExists(message)) => self.fail(
                PipelineErrorView::RootAlreadyExists(message),
            ),
            (Stage::InitializeRoot, EventView::Failed(message)) => self.fail(
                PipelineErrorView::DirectoryCreation(message),
            ),
            (Stage::Execute, _) => self.step_operation(event),
            (Stage::Finalize, EventView::Done) => (
                PipelineView { stage: Stage::Done, ..self },
                ActionView::Finish,
            ),
            (Stage::Finalize, EventView::Failed(message)) => self.fail(
                PipelineErrorView::FileWrite(message),
            ),
            _ => arbitrary(),
        }
    }

    /// The step of a state that waits for the outcome of a pending operation.
    /// A directory that exists already counts as created.
    pub open spec fn step_operation(self, event: EventView) -> (PipelineView, ActionView) {
        match (self.pending[self.position as int], event) {
            (OperationView::CreateDir { .. }, EventView::Done | EventView::AlreadyExists(_)) => {
                self.finished().advance()
            },
            (OperationView::CreateDir { .. }, EventView::Failed(message)) => self.fail(
                PipelineErrorView::DirectoryCreation(message),
            ),
            (OperationView::WriteFile { .. }, EventView::Done) => self.finished().advance(),
            (OperationView::WriteFile { .. }, EventView::Failed(message)) => self.fail(
                PipelineErrorView::FileWrite(message),
            ),
            (OperationView::Download { path, .. }, EventView::Fetched(data)) if !self.fetched => (
                PipelineView { fetched: true, ..self },
                ActionView::WriteFile { path, data },
            ),
            (OperationView::Download { .. }, EventView::Failed(message)) => if self.fetched {
                self.fail(PipelineErrorView::FileWrite(message))
            } else {
                self.fail(PipelineErrorView::NetworkFetch(message))
            },
            (OperationView::Download { .. }, EventView::Done) if self.fetched => {
                self.finished().advance()
            },
            _ => arbitrary(),
        }
    }
}

/// A run in progress. It is made by [`new`] and moved on by [`Pipeline::step`];
/// every run that can be reached that way satisfies [`PipelineView::inv`].
#[derive(Debug)]
pub struct Pipeline<'a> {
    registry: &'a Registry,
    project: Project<'a>,
    stage: Stage,
    cursor: usize,
    pending: Vec<Operation>,
    position: usize,
    fetched: bool,
}

impl<'a> View for Pipeline<'a> {
    type V = PipelineView;

    closed spec fn view(&self) -> PipelineView {
        PipelineView {
            registry: self.registry@,
            project: self.project@,
            stage: self.stage,
            cursor: self.cursor as nat,
            pending: operation_views(self.pending@),
            position: self.position as nat,
            fetched: self.fetched,
        }
    }
}

/// Begins the run that creates a project called `name` from the modules of
/// `registry`. Nothing has happened yet: the first step takes `Event::Start`.
pub fn new<'a>(name: &str, registry: &'a Registry) -> (pipeline: Pipeline<'a>)
    ensures
        pipeline@ == PipelineView::initial(registry@, name@),
        pipeline@.inv(),
{
    proof {
        use_type_invariant(registry);
    }
    let project = Project::build(name);
    let pending: Vec<Operation> = Vec::new();
    assert(operation_views(pending@) =~= Seq::empty());
    Pipeline {
        registry,
        project,
        stage: Stage::Init,
        cursor: 0,
        pending,
        position: 0,
        fetched: false,
    }
}

impl<'a> Pipeline<'a> {
    /// Every run satisfies the invariant of its view.
    #[verifier::type_invariant]
    pub closed spec fn valid(self) -> bool {
        self@.inv()
    }

    /// Where the run stands.
    pub fn stage(&self) -> (stage: Stage)
        ensures
            stage == self@.stage,
            self@.inv(),
    {
        proof {
            use_type_invariant(self);
        }
        self.stage
    }

    /// The descriptor of the project as it stands.
    pub fn project(&self) -> (project: &Project<'a>)
        ensures
            project@ == self@.project,
    {
        &self.project
    }

    /// The registry that the run takes its modules from.
    pub fn registry(&self) -> (registry: &'a Registry)
        ensures
            registry@ == self@.registry,
    {
        self.registry
    }

    /// Whether `event` is a report that the run waits for.
    pub fn accepts(&self, event: &Event) -> (ok: bool)
        ensures
            ok == self@.accepts(event@),
    {
        proof {
            use_type_invariant(self);
        }
        match self.stage {
            Stage::Init => matches!(event, Event::Start),
            Stage::PromptPhp => answers_single_module(self.registry.php_dirs(), event),
            Stage::PromptPhpBoilerplate => answers_multiple_module(self.registry.php(), event),
            Stage::PromptCss => answers_single_module(self.registry.css(), event),
            Stage::PromptCssFramework => answers_multiple_module(
                self.registry.css_framework(),
                event,
            ),
            Stage::InitializeRoot => matches!(
                event,
                Event::Done | Event::AlreadyExists(_) | Event::Failed(_)
            ),
            Stage::Execute => match &self.pending[self.position] {
                Operation::CreateDir { .. } => matches!(
                    event,
                    Event::Done | Event::AlreadyExists(_) | Event::Failed(_)
                ),
                Operation::WriteFile { .. } => matches!(event, Event::Done | Event::Failed(_)),
                Operation::Download { .. } => if self.fetched {
                    matches!(event, Event::Done | Event::Failed(_))
                } else {
                    matches!(event, Event::Fetched(_) | Event::Failed(_))
                },
            },
            Stage::Finalize => matches!(event, Event::Done | Event::Failed(_)),
            Stage::Done | Stage::Failed => false,
        }
    }

    /// Takes the report of what happened since the last step and gives the
    /// run's next state and the next action. The state must wait for the event.
    pub fn step(self, event: Event) -> (next: (Pipeline<'a>, Action))
        requires
            self@.accepts(event@),
        ensures
            (next.0@, next.1@) == self@.step(event@),
            next.0@.inv(),
    {
        proof {
            use_type_invariant(&self);
        }
        let mut run = self;
        let registry = run.registry;
        match run.stage {
            Stage::Init => run.ask(Stage::PromptPhp, registry.php_dirs()),
            Stage::PromptPhp => match event {
                Event::Selected(index) => {
                    let run = run.answer_single(registry.php_dirs(), index);
                    if index == 0 {
                        run.ask(Stage::PromptCss, registry.css())
                    } else {
                        run.ask(Stage::PromptPhpBoilerplate, registry.php())
                    }
                },
                Event::Failed(message) => run.fail(PipelineError::Interaction(message)),
                _ => vstd::pervasive::unreached(),
            },
            Stage::PromptPhpBoilerplate => match event {
                Event::SelectedMany(indices) => run.answer_multiple(registry.php(), &indices).ask(
                    Stage::PromptCss,
                    registry.css(),
                ),
                Event::Failed(message) => run.fail(PipelineError::Interaction(message)),
                _ => vstd::pervasive::unreached(),
            },
            Stage::PromptCss => match event {
                Event::Selected(index) => run.answer_single(registry.css(), index).ask(
                    Stage::PromptCssFramework,
                    registry.css_framework(),
                ),
                Event::Failed(message) => run.fail(PipelineError::Interaction(message)),
                _ => vstd::pervasive::unreached(),
            },
            Stage::PromptCssFramework => match event {
                Event::SelectedMany(indices) => {
                    let mut run = run.answer_multiple(registry.css_framework(), &indices);
                    run.stage = Stage::InitializeRoot;
                    let action = initialize_project(&run.project);
                    (run, action)
                },
                Event::Failed(message) => run.fail(PipelineError::Interaction(message)),
                _ => vstd::pervasive::unreached(),
            },
            Stage::InitializeRoot => match event {
                Event::Done => run.advance(),
                Event::AlreadyExists(message) => run.fail(
                    PipelineError::RootAlreadyExists(message),
                ),
                Event::Failed(message) => run.fail(PipelineError::DirectoryCreation(message)),
                _ => vstd::pervasive::unreached(),
            },
            Stage::Execute => run.step_operation(event),
            Stage::Finalize => match event {
                Event::Done => {
                    run.stage = Stage::Done;
                    (run, Action::Finish)
                },
                Event::Failed(message) => run.fail(PipelineError::FileWrite(message)),
                _ => vstd::pervasive::unreached(),
            },
            Stage::Done | Stage::Failed => vstd::pervasive::unreached(),
        }
    }

    /// The step of a run that waits for the outcome of a pending operation.
    fn step_operation(self, event: Event) -> (next: (Pipeline<'a>, Action))
        requires
            self@.stage is Execute,
            self@.accepts(event@),
        ensures
            (next.0@, next.1@) == self@.step_operation(event@),
            next.0@.inv(),
    {
        proof {
            use_type_invariant(&self);
        }
        let mut run = self;
        match event {
            Event::Failed(message) => {
                let error = match &run.pending[run.position] {
                    Operation::CreateDir { .. } => PipelineError::DirectoryCreation(message),
                    Operation::WriteFile { .. } => PipelineError::FileWrite(message),
                    Operation::Download { .. } => if run.fetched {
                        PipelineError::FileWrite(message)
                    } else {
                        PipelineError::NetworkFetch(message)
                    },
                };
                run.fail(error)
            },
            Event::Fetched(data) => {
                let path = match &run.pending[run.position] {
                    Operation::Download { path, .. } => path.clone(),
                    _ => vstd::pervasive::unreached(),
                };
                run.fetched = true;
                (run, Action::WriteFile { path, data })
            },
            _ => {
                let Pipeline { registry, project, cursor, pending, position, .. } = run;
                // The position lies below the length of a vector, so it has a successor.
                assert(position < pending.len());
                let stage = Ghost(Stage::Execute);
                Self::resume(registry, project, cursor, pending, position + 1, stage)
            },
        }
    }

    /// The run with the answer to a single question about `module` recorded.
    fn answer_single(self, module: &'a Module, index: usize) -> (run: Pipeline<'a>)
        requires
            self@.stage is PromptPhp || self@.stage is PromptCss,
            index <= module@.choices.len(),
        ensures
            run@ == self@.with_project(self@.project.enqueue_single(module@, index as int)),
    {
        proof {
            use_type_invariant(&self);
        }
        let Pipeline { registry, project, stage, cursor, pending, position, fetched } = self;
        let mut project = project;
        project.enqueue_single(module, index);
        Pipeline { registry, project, stage, cursor, pending, position, fetched }
    }

    /// The run with the answer to a multiple question about `module` recorded.
    fn answer_multiple(self, module: &'a Module, indices: &Vec<usize>) -> (run: Pipeline<'a>)
        requires
            self@.stage is PromptPhpBoilerplate || self@.stage is PromptCssFramework,
            indices_in_range(module@, indices@),
        ensures
            run@ == self@.with_project(self@.project.enqueue_multiple(module@, indices@)),
    {
        proof {
            use_type_invariant(&self);
        }
        let Pipeline { registry, project, stage, cursor, pending, position, fetched } = self;
        let mut project = project;
        project.enqueue_multiple(module, indices);
        Pipeline { registry, project, stage, cursor, pending, position, fetched }
    }

    /// The run ends with `error`.
    fn fail(self, error: PipelineError) -> (next: (Pipeline<'a>, Action))
        ensures
            (next.0@, next.1@) == self@.fail(error@),
            next.0@.inv(),
    {
        proof {
            use_type_invariant(&self);
        }
        let mut run = self;
        run.stage = Stage::Failed;
        (run, Action::Abort(error))
    }

    /// The run goes on to the prompting stage `stage`, asking about `module`.
    fn ask(self, stage: Stage, module: &Module) -> (next: (Pipeline<'a>, Action))
        requires
            stage is PromptPhp || stage is PromptPhpBoilerplate || stage is PromptCss
                || stage is PromptCssFramework,
            self@.stage is Init || self@.stage is PromptPhp || self@.stage is PromptPhpBoilerplate
                || self@.stage is PromptCss || self@.stage is PromptCssFramework,
        ensures
            (next.0@, next.1@) == self@.ask(stage, module@),
            next.0@.inv(),
    {
        proof {
            use_type_invariant(&self);
        }
        let mut run = self;
        run.stage = stage;
        (run, Action::Ask(module.question()))
    }

    /// Goes on once the root exists.
    fn advance(self) -> (next: (Pipeline<'a>, Action))
        requires
            self@.stage is InitializeRoot,
        ensures
            (next.0@, next.1@) == self@.advance(),
            next.0@.inv(),
    {
        proof {
            use_type_invariant(&self);
        }
        let Pipeline { registry, project, cursor, pending, position, .. } = self;
        Self::resume(registry, project, cursor, pending, position, Ghost(Stage::InitializeRoot))
    }

    /// Executes queued choices until one has an operation to hand out, and
    /// hands it out; with no choice left, hands out the writing of the index.
    fn resume(
        registry: &'a Registry,
        project: Project<'a>,
        cursor: usize,
        pending: Vec<Operation>,
        position: usize,
        Ghost(stage): Ghost<Stage>,
    ) -> (next: (Pipeline<'a>, Action))
        requires
            registry@.well_formed(),
            cursor <= project@.queue.len(),
            position <= pending.len(),
            project@.executed_to(cursor as int),
        ensures
            (next.0@, next.1@) == (PipelineView {
                registry: registry@,
                project: project@,
                stage,
                cursor: cursor as nat,
                pending: operation_views(pending@),
                position: position as nat,
                fetched: false,
            }).advance(),
            next.0@.inv(),
    {
        let ghost start = PipelineView {
            registry: registry@,
            project: project@,
            stage,
            cursor: cursor as nat,
            pending: operation_views(pending@),
            position: position as nat,
            fetched: false,
        };
        let mut project = project;
        let mut cursor = cursor;
        let mut pending = pending;
        let mut position = position;
        while position >= pending.len() && cursor < project.queue.len()
            invariant
                registry@.well_formed(),
                cursor <= project@.queue.len(),
                position <= pending.len(),
                project@.executed_to(cursor as int),
                project@.queue == start.project.queue,
                (PipelineView {
                    registry: registry@,
                    project: project@,
                    stage,
                    cursor: cursor as nat,
                    pending: operation_views(pending@),
                    position: position as nat,
                    fetched: false,
                }).advance() == start.advance(),
            decreases project@.queue.len() - cursor,
        {
            let ghost before = project@;
            let choice: &'a Choice = project.queue[cursor];
            pending = execute_choice(&mut project, choice);
            assert(before.queue.take(cursor + 1).drop_last() =~= before.queue.take(cursor as int));
            position = 0;
            cursor = cursor + 1;
        }
        if position < pending.len() {
            match request(&pending[position]) {
                Ok(action) => (
                    Pipeline {
                        registry,
                        project,
                        stage: Stage::Execute,
                        cursor,
                        pending,
                        position,
                        fetched: false,
                    },
                    action,
                ),
                Err(error) => (
                    Pipeline {
                        registry,
                        project,
                        stage: Stage::Failed,
                        cursor,
                        pending,
                        position,
                        fetched: false,
                    },
                    Action::Abort(error),
                ),
            }
        } else {
            let action = finalize_project(&project, registry.index());
            (
                Pipeline {
                    registry,
                    project,
                    stage: Stage::Finalize,
                    cursor,
                    pending,
                    position,
                    fetched: false,
                },
                action,
            )
        }
    }
}

/// Whether `event` answers a single question about `module`.
fn answers_single_module(module: &Module, event: &Event) -> (ok: bool)
    ensures
        ok == answers_single(module@, event@),
{
    match event {
        Event::Selected(index) => *index <= module.choices.len(),
        Event::Failed(_) => true,
        _ => false,
    }
}

/// Whether `event` answers a multiple question about `module`.
fn answers_multiple_module(module: &Module, event: &Event) -> (ok: bool)
    ensures
        ok == answers_multiple(module@, event@),
{
    match event {
        Event::SelectedMany(indices) => in_range(module, indices),
        Event::Failed(_) => true,
        _ => false,
    }
}

} // verus!
