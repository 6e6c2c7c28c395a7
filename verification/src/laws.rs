//! What holds of the queue and of a run, for every input.

use vstd::prelude::*;
use crate::catalog::{ChoiceView, ModuleView};
use crate::executor::{snippet_text, snippets_of};
use crate::pipeline::PipelineView;
use crate::protocol::{ActionView, EventView, PipelineErrorView, Stage};
use crate::project::ProjectView;
use crate::registry::{RegistryView, TemplatesView};

verus! {

/// Skipping a single-choice module, like picking nothing from a
/// multi-choice module, leaves the descriptor and its queue as they were.
pub proof fn lemma_skip_queues_nothing(project: ProjectView, module: ModuleView)
    ensures
        project.enqueue_single(module, 0) == project,
        project.enqueue_multiple(module, Seq::empty()) == project,
{
}

/// Answer `k >= 1` to a single-choice module puts choice `k - 1` at the end
/// of the queue, behind everything queued before, and changes nothing else.
pub proof fn lemma_single_choice_goes_last(project: ProjectView, module: ModuleView, k: int)
    requires
        1 <= k <= module.choices.len(),
    ensures
        ({
            let after = project.enqueue_single(module, k);
            &&& after == ProjectView { queue: after.queue, ..project }
            &&& after.queue.len() == project.queue.len() + 1
            &&& after.queue.last() == module.choices[k - 1]
            &&& after.queue.drop_last() == project.queue
        }),
{
}

/// The answer `indices` to a multi-choice module puts the picked choices at
/// the front of the queue in reverse: the one picked last comes first, the one
/// picked first comes directly before what was queued earlier, which keeps
/// its order. Nothing else changes.
pub proof fn lemma_multiple_choices_go_first_reversed(
    project: ProjectView,
    module: ModuleView,
    indices: Seq<usize>,
)
    ensures
        ({
            let after = project.enqueue_multiple(module, indices);
            let n = indices.len() as int;
            &&& after == ProjectView { queue: after.queue, ..project }
            &&& after.queue.len() == n + project.queue.len()
            &&& forall|j: int|
                0 <= j < n ==> #[trigger] after.queue[j] == module.choices[indices[n - 1
                    - j] as int]
            &&& forall|j: int|
                0 <= j < project.queue.len() ==> #[trigger] after.queue[n + j]
                    == project.queue[j]
        }),
{
}

/// Picking one more choice after the others puts it in front of all of them:
/// the queue after the longer answer is that choice followed by the queue
/// after the shorter answer.
pub proof fn lemma_multiple_is_repeated_prepend(
    project: ProjectView,
    module: ModuleView,
    indices: Seq<usize>,
    index: usize,
)
    ensures
        project.enqueue_multiple(module, indices.push(index)).queue == seq![
            module.choices[index as int],
        ] + project.enqueue_multiple(module, indices).queue,
{
}

/// Executing a choice a second time asks for exactly the operations of the
/// first time, the same directories among them, and changes nothing about the
/// descriptor but the accumulated snippets, which get the snippet once more.
pub proof fn lemma_second_execution_repeats_the_first(project: ProjectView, choice: ChoiceView)
    ensures
        ({
            let once = project.apply_choice(choice);
            let twice = once.apply_choice(choice);
            &&& twice == ProjectView { snippets: twice.snippets, ..once }
            &&& twice.snippets == once.snippets + snippet_text(choice)
            &&& twice.choice_operations(choice) == once.choice_operations(choice)
        }),
{
}

/// The skip answer to a single question leaves the run's descriptor as it
/// was: the module that was skipped queues nothing and so does nothing later.
pub proof fn lemma_skip_leaves_the_run_untouched(s: PipelineView)
    requires
        s.stage is PromptPhp || s.stage is PromptCss,
    ensures
        s.accepts(EventView::Selected(0)),
        s.step(EventView::Selected(0)).0.project == s.project,
        s.step(EventView::Selected(0)).1 is Ask,
{
}

/// Whether a choice leaves the public subdirectory and the name of the index
/// file as they are.
pub open spec fn sets_nothing(choice: ChoiceView) -> bool {
    choice.overwrite_public is None && choice.overwrite_index is None
}

/// In the standard registry one choice alone sets the public subdirectory,
/// the answer Yes to "use php", which sets it to `public`. No choice renames
/// the index file.
pub proof fn lemma_only_php_sets_the_public_directory(t: TemplatesView)
    ensures
        ({
            let registry = RegistryView::standard(t);
            &&& registry.well_formed()
            &&& registry.php_dirs.choices.len() == 1
            &&& registry.php_dirs.choices[0].overwrite_public == Some("public"@)
            &&& registry.php_dirs.choices[0].overwrite_index is None
            &&& forall|i: int|
                0 <= i < registry.php.choices.len() ==> sets_nothing(
                    #[trigger] registry.php.choices[i],
                )
            &&& forall|i: int|
                0 <= i < registry.css.choices.len() ==> sets_nothing(
                    #[trigger] registry.css.choices[i],
                )
            &&& forall|i: int|
                0 <= i < registry.css_framework.choices.len() ==> sets_nothing(
                    #[trigger] registry.css_framework.choices[i],
                )
        }),
{
}

/// Executing choices one after the other changes neither the name, the
/// root nor the queue of a descriptor, and adds to its snippets the snippets
/// of the choices in the order of their execution.
pub proof fn lemma_execution_keeps_identity_and_appends_snippets(
    project: ProjectView,
    choices: Seq<ChoiceView>,
)
    ensures
        ({
            let after = project.apply_choices(choices);
            &&& after.name == project.name
            &&& after.root == project.root
            &&& after.queue == project.queue
            &&& after.snippets == project.snippets + snippets_of(choices)
        }),
    decreases choices.len(),
{
    if choices.len() > 0 {
        lemma_execution_keeps_identity_and_appends_snippets(project, choices.drop_last());
    }
}

/// A descriptor on which its first `count` queued choices were executed
/// holds the snippets of exactly those choices, in queue order, and is
/// rooted at the directory named like the project.
pub proof fn lemma_executed_snippets(project: ProjectView, count: int)
    requires
        project.executed_to(count),
    ensures
        project.snippets == snippets_of(project.queue.take(count)),
        project.root == project.name,
{
    lemma_execution_keeps_identity_and_appends_snippets(
        project.unexecuted(),
        project.queue.take(count),
    );
}

/// Executing the next queued choice moves a descriptor from its first
/// `count` choices executed to its first `count + 1`.
pub proof fn lemma_executed_one_more(project: ProjectView, count: int)
    requires
        0 <= count < project.queue.len(),
        project.executed_to(count),
    ensures
        project.apply_choice(project.queue[count]).executed_to(count + 1),
{
    assert(project.queue.take(count + 1).drop_last() =~= project.queue.take(count));
}

/// What `advance` leads to from a state whose root exists: a state that
/// satisfies the invariant and waits for an operation, for the index page, or
/// has failed on the address of a download. Registry, name, root and queue are
/// untouched, the snippets have only grown, and when the index page is due
/// every queued choice has been executed.
pub proof fn lemma_advance(s: PipelineView)
    requires
        s.registry.well_formed(),
        s.cursor <= s.project.queue.len(),
        s.position <= s.pending.len(),
        s.project.executed_to(s.cursor as int),
    ensures
        ({
            let (next, action) = s.advance();
            &&& next.inv()
            &&& next.registry == s.registry
            &&& next.project.name == s.project.name
            &&& next.project.root == s.project.root
            &&& next.project.queue == s.project.queue
            &&& next.cursor >= s.cursor
            &&& s.project.snippets.is_prefix_of(next.project.snippets)
            &&& next.stage is Execute || next.stage is Finalize || next.stage is Failed
            &&& next.stage is Finalize ==> action == next.project.finalize(s.registry.index)
            &&& next.stage is Failed ==> action is Abort && action->Abort_0 is NetworkFetch
            &&& next.stage is Execute ==> !(action is Abort) && !(action is Finish)
        }),
    decreases s.project.queue.len() - s.cursor,
{
    if s.position >= s.pending.len() && s.cursor < s.project.queue.len() {
        let choice = s.project.queue[s.cursor as int];
        let project = s.project.apply_choice(choice);
        let after = PipelineView {
            project,
            cursor: s.cursor + 1,
            pending: project.choice_operations(choice),
            position: 0,
            ..s
        };
        lemma_executed_one_more(s.project, s.cursor as int);
        lemma_advance(after);
    }
}

/// Every step keeps the invariant, and with it what the invariant says of
/// the snippets. No step changes the registry, the name or the root of the
/// project, and once the prompting is over no step changes the queue. The
/// accumulated snippets only grow: what was there stays at the front.
pub proof fn lemma_step_keeps_invariant(s: PipelineView, event: EventView)
    requires
        s.inv(),
        s.accepts(event),
    ensures
        ({
            let (next, action) = s.step(event);
            &&& next.inv()
            &&& next.registry == s.registry
            &&& next.project.name == s.project.name
            &&& next.project.root == s.project.root
            &&& (s.stage is InitializeRoot || s.stage is Execute || s.stage is Finalize)
                ==> next.project.queue == s.project.queue
            &&& next.cursor >= s.cursor
            &&& s.project.snippets.is_prefix_of(next.project.snippets)
        }),
{
    match s.stage {
        Stage::InitializeRoot => {
            if event is Done {
                lemma_advance(s);
            }
        },
        Stage::Execute => {
            if event is Done || event is AlreadyExists {
                lemma_advance(s.finished());
            }
        },
        _ => {},
    }
}

/// The stages follow one another in the order of a run. The questions come
/// in a fixed sequence, the one about php boilerplate only after php was
/// chosen; then the root is created, the queued choices are executed, the
/// index page is written, and the run is done. Any stage that waits for a
/// report may fail instead.
pub proof fn lemma_stages_follow_the_run_order(s: PipelineView, event: EventView)
    requires
        s.inv(),
        s.accepts(event),
    ensures
        ({
            let next = s.step(event).0.stage;
            match s.stage {
                Stage::Init => next is PromptPhp,
                Stage::PromptPhp => match event {
                    EventView::Selected(index) => if index == 0 {
                        next is PromptCss
                    } else {
                        next is PromptPhpBoilerplate
                    },
                    _ => next is Failed,
                },
                Stage::PromptPhpBoilerplate => next is PromptCss || next is Failed,
                Stage::PromptCss => next is PromptCssFramework || next is Failed,
                Stage::PromptCssFramework => next is InitializeRoot || next is Failed,
                Stage::InitializeRoot => next is Execute || next is Finalize || next is Failed,
                Stage::Execute => next is Execute || next is Finalize || next is Failed,
                Stage::Finalize => next is Done || next is Failed,
                Stage::Done | Stage::Failed => false,
            }
        }),
{
    match s.stage {
        Stage::InitializeRoot => {
            if event is Done {
                lemma_advance(s);
            }
        },
        Stage::Execute => {
            if event is Done || event is AlreadyExists {
                lemma_advance(s.finished());
            }
        },
        _ => {},
    }
}

/// Of a directory that a choice asks for, the report that it exists already
/// is taken exactly as the report that it was created: the run goes on in the
/// same way, whatever comes next.
pub proof fn lemma_existing_directory_counts_as_created(s: PipelineView, message: Seq<char>)
    requires
        s.inv(),
        s.stage is Execute,
        s.pending[s.position as int] is CreateDir,
    ensures
        s.accepts(EventView::AlreadyExists(message)),
        s.step(EventView::AlreadyExists(message)) == s.step(EventView::Done),
        !(s.step(EventView::AlreadyExists(message)).1 is Abort && s.step(
            EventView::AlreadyExists(message),
        ).1->Abort_0 is DirectoryCreation),
{
    lemma_advance(s.finished());
}

/// Of the root directory, the report that it exists already ends the run:
/// the state fails and the action aborts with `RootAlreadyExists` and the
/// text of the report. Nothing else about the state changes.
pub proof fn lemma_existing_root_ends_run(s: PipelineView, message: Seq<char>)
    requires
        s.stage is InitializeRoot,
    ensures
        s.accepts(EventView::AlreadyExists(message)),
        s.step(EventView::AlreadyExists(message)) == (
            PipelineView { stage: Stage::Failed, ..s },
            ActionView::Abort(PipelineErrorView::RootAlreadyExists(message)),
        ),
{
}

/// A reported failure ends the run at once: the state fails, keeping
/// everything else as it was, and the action aborts with the text reported.
pub proof fn lemma_failure_ends_run(s: PipelineView, message: Seq<char>)
    requires
        s.accepts(EventView::Failed(message)),
    ensures
        ({
            let (next, action) = s.step(EventView::Failed(message));
            &&& next == PipelineView { stage: Stage::Failed, ..s }
            &&& action is Abort
            &&& action->Abort_0.message() == message
        }),
{
}

/// A run that is done or has failed waits for nothing.
pub proof fn lemma_terminal_stages_accept_nothing(s: PipelineView, event: EventView)
    requires
        s.stage is Done || s.stage is Failed,
    ensures
        !s.accepts(event),
{
}

/// When a step makes the index page due, the page it hands out is the
/// template filled in with the project's name and with the snippets of all
/// queued choices, one after the other in queue order; the queue is the one
/// that the prompting left.
pub proof fn lemma_index_page_holds_queued_snippets(s: PipelineView, event: EventView)
    requires
        s.inv(),
        s.accepts(event),
        s.step(event).0.stage is Finalize,
    ensures
        ({
            let (next, action) = s.step(event);
            &&& next.project.queue == s.project.queue
            &&& next.project.snippets == snippets_of(s.project.queue)
            &&& action == ActionView::WriteFile {
                path: next.project.index_path(),
                data: s.registry.index.render(s.project.name, snippets_of(s.project.queue)),
            }
        }),
{
    lemma_step_keeps_invariant(s, event);
    let next = s.step(event).0;
    assert(next.project.queue.take(next.cursor as int) =~= next.project.queue);
    lemma_executed_snippets(next.project, next.cursor as int);
    match s.stage {
        Stage::InitializeRoot => {
            lemma_advance(s);
        },
        Stage::Execute => {
            if event is Done || event is AlreadyExists {
                lemma_advance(s.finished());
            }
        },
        _ => {},
    }
}

} // verus!
