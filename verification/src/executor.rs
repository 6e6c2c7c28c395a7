//! The effects of a choice: the operations it asks for, in order.

use vstd::prelude::*;
use crate::catalog::{Choice, ChoiceView, FileAndDest, FileAndDestView};
use crate::project::{Project, ProjectView};

verus! {

/// One effect on the outside world that a choice asks for.
#[derive(Debug, Clone, PartialEq, Eq)]
pub enum Operation {
    /// Create the directory `path`; that it exists already is no failure.
    CreateDir { path: String },
    /// Write `data` to the file `path`, replacing what was there.
    WriteFile { path: String, data: String },
    /// Fetch `url` and write what came back to the file `path`.
    Download { url: String, path: String },
}

/// An operation as texts.
pub enum OperationView {
    CreateDir { path: Seq<char> },
    WriteFile { path: Seq<char>, data: Seq<char> },
    Download { url: Seq<char>, path: Seq<char> },
}

impl View for Operation {
    type V = OperationView;

    open spec fn view(&self) -> OperationView {
        match self {
            Operation::CreateDir { path } => OperationView::CreateDir { path: path@ },
            Operation::WriteFile { path, data } => OperationView::WriteFile {
                path: path@,
                data: data@,
            },
            Operation::Download { url, path } => OperationView::Download { url: url@, path: path@ },
        }
    }
}

/// The views of the operations of a vector, in order.
pub open spec fn operation_views(v: Seq<Operation>) -> Seq<OperationView> {
    Seq::new(v.len(), |i: int| v[i]@)
}

/// The snippet of a choice, empty where it has none.
pub open spec fn snippet_text(choice: ChoiceView) -> Seq<char> {
    match choice.snippet {
        Some(snippet) => snippet,
        None => Seq::empty(),
    }
}

/// The snippets of the choices, one after the other in the order of the choices.
pub open spec fn snippets_of(choices: Seq<ChoiceView>) -> Seq<char>
    decreases choices.len(),
{
    if choices.len() == 0 {
        Seq::empty()
    } else {
        snippets_of(choices.drop_last()) + snippet_text(choices.last())
    }
}

impl ProjectView {
    /// The descriptor after a choice has left its mark on it: the overrides
    /// replace the public subdirectory and the index file name, the snippet is
    /// appended to the accumulated markup, and relative paths resolve as the
    /// choice asks. Name, root and queue stay as they are.
    pub open spec fn apply_choice(self, choice: ChoiceView) -> ProjectView {
        ProjectView {
            public: match choice.overwrite_public {
                Some(public) => public,
                None => self.public,
            },
            index: match choice.overwrite_index {
                Some(index) => index,
                None => self.index,
            },
            snippets: match choice.snippet {
                Some(snippet) => self.snippets + snippet,
                None => self.snippets,
            },
            use_root: choice.use_root_dir,
            ..self
        }
    }

    /// The descriptor after the choices have left their mark on it one after
    /// the other, in the order of the sequence.
    pub open spec fn apply_choices(self, choices: Seq<ChoiceView>) -> ProjectView
        decreases choices.len(),
    {
        if choices.len() == 0 {
            self
        } else {
            self.apply_choices(choices.drop_last()).apply_choice(choices.last())
        }
    }

    /// This descriptor as it was before any of its queued choices was
    /// executed: fresh, but for the queue.
    pub open spec fn unexecuted(self) -> ProjectView {
        ProjectView { queue: self.queue, ..ProjectView::initial(self.name) }
    }

    /// Whether this descriptor is what the execution of its first `count`
    /// queued choices makes of a fresh one.
    pub open spec fn executed_to(self, count: int) -> bool {
        self == self.unexecuted().apply_choices(self.queue.take(count))
    }

    /// The operation for one file of a choice.
    pub open spec fn file_operation(self, file: FileAndDestView) -> OperationView {
        if file.download {
            OperationView::Download { url: file.data, path: self.resolve(file.dest) }
        } else {
            OperationView::WriteFile { path: self.resolve(file.dest), data: file.data }
        }
    }

    /// The operations of a choice against this descriptor: one directory
    /// creation per directory, then one write or download per file, each in
    /// the order of the choice.
    pub open spec fn choice_operations(self, choice: ChoiceView) -> Seq<OperationView> {
        Seq::new(
            choice.dirs.len(),
            |i: int| OperationView::CreateDir { path: self.resolve(choice.dirs[i]) },
        ) + Seq::new(choice.files.len(), |i: int| self.file_operation(choice.files[i]))
    }
}

/// The operation for one file of a choice.
pub fn file_operation(project: &Project, file: &FileAndDest) -> (op: Operation)
    ensures
        op@ == project@.file_operation(file@),
{
    if file.download {
        project.download_file(file.data.as_str(), file.dest.as_str())
    } else {
        project.create_file(file.data.as_str(), file.dest.as_str())
    }
}

/// Executes one choice against the descriptor. First the descriptor changes:
/// the overrides of the public subdirectory and of the index file name apply,
/// then the snippet is appended, then the base of relative paths is set. The
/// result lists what is to be done outside, resolved against the descriptor as
/// it then stands: the directories of the choice, then its files.
pub fn execute_choice<'a>(project: &mut Project<'a>, choice: &Choice) -> (ops: Vec<Operation>)
    ensures
        final(project)@ == old(project)@.apply_choice(choice@),
        operation_views(ops@) == final(project)@.choice_operations(choice@),
{
    match &choice.overwrite_public {
        Some(public) => {
            project.public = public.clone();
        },
        None => {},
    }
    match &choice.overwrite_index {
        Some(index) => {
            project.index = index.clone();
        },
        None => {},
    }
    match &choice.snippet {
        Some(snippet) => {
            project.append_snippet(snippet.as_str());
        },
        None => {},
    }
    project.use_pub(!choice.use_root_dir);

    let mut ops: Vec<Operation> = Vec::new();
    let dirs = choice.dirs.len();
    let mut i: usize = 0;
    while i < dirs
        invariant
            dirs == choice.dirs.len(),
            i <= dirs,
            ops.len() == i,
            forall|j: int|
                0 <= j < i ==> ops[j]@ == (OperationView::CreateDir {
                    path: project@.resolve(#[trigger] choice@.dirs[j]),
                }),
        decreases dirs - i,
    {
        let op = project.create_dir(choice.dirs[i].as_str());
        ops.push(op);
        i = i + 1;
    }
    let files = choice.files.len();
    let mut k: usize = 0;
    while k < files
        invariant
            dirs == choice.dirs.len(),
            files == choice.files.len(),
            k <= files,
            ops.len() == dirs + k,
            forall|j: int|
                0 <= j < dirs ==> ops[j]@ == (OperationView::CreateDir {
                    path: project@.resolve(#[trigger] choice@.dirs[j]),
                }),
            forall|j: int|
                0 <= j < k ==> ops[dirs + j]@ == project@.file_operation(
                    #[trigger] choice@.files[j],
                ),
        decreases files - k,
    {
        let op = file_operation(project, &choice.files[k]);
        ops.push(op);
        k = k + 1;
    }
    proof {
        let expected = project@.choice_operations(choice@);
        assert forall|j: int| 0 <= j < expected.len() implies operation_views(ops@)[j]
            == expected[j] by {
            // The operations of the directories come first, those of the files behind them.
            if j >= dirs {
                assert(ops[dirs + (j - dirs)]@ == project@.file_operation(choice@.files[j - dirs]));
            }
        }
    }
    ops
}

} // verus!
