//! The project descriptor: the state that a run builds up, and the queue of
//! the choices that were selected for it.

use vstd::prelude::*;
use vstd::string::*;
use crate::catalog::{Choice, ChoiceView, Module, ModuleView};
use crate::executor::{Operation, OperationView};
use crate::text::{join, join_spec};

verus! {

/// The descriptor of the project being created. `queue` holds the selected
/// choices in the order in which they will be executed.
#[derive(Debug, Clone)]
pub struct Project<'a> {
    pub name: String,
    pub root: String,
    pub public: String,
    pub index: String,
    pub snippets: String,
    pub queue: Vec<&'a Choice>,
    pub use_root: bool,
}

/// A descriptor as texts, with the queue as a sequence of choices.
pub struct ProjectView {
    pub name: Seq<char>,
    pub root: Seq<char>,
    pub public: Seq<char>,
    pub index: Seq<char>,
    pub snippets: Seq<char>,
    pub queue: Seq<ChoiceView>,
    pub use_root: bool,
}

/// The views of the queued choices, in order.
pub open spec fn queue_views(q: Seq<&Choice>) -> Seq<ChoiceView> {
    Seq::new(q.len(), |i: int| q[i]@)
}

/// The choices of `module` at the positions `indices`, in the order of `indices`.
pub open spec fn picked(module: ModuleView, indices: Seq<usize>) -> Seq<ChoiceView> {
    Seq::new(indices.len(), |i: int| module.choices[indices[i] as int])
}

/// Whether every index names a choice of `module`.
pub open spec fn indices_in_range(module: ModuleView, indices: Seq<usize>) -> bool {
    forall|i: int| 0 <= i < indices.len() ==> indices[i] < module.choices.len()
}

/// Whether every index names a choice of `module`.
pub fn in_range(module: &Module, indices: &Vec<usize>) -> (ok: bool)
    ensures
        ok == indices_in_range(module@, indices@),
{
    let n = indices.len();
    let mut i: usize = 0;
    while i < n
        invariant
            n == indices.len(),
            i <= n,
            forall|j: int| 0 <= j < i ==> indices[j] < module@.choices.len(),
        decreases n - i,
    {
        if indices[i] >= module.choices.len() {
            return false;
        }
        i = i + 1;
    }
    true
}

impl ProjectView {
    /// The descriptor of a fresh project called `name`.
    pub open spec fn initial(name: Seq<char>) -> ProjectView {
        ProjectView {
            name,
            root: name,
            public: Seq::empty(),
            index: "index.html"@,
            snippets: Seq::empty(),
            queue: Seq::empty(),
            use_root: true,
        }
    }

    /// The directory that relative paths currently resolve against: the root,
    /// or the public subdirectory below it.
    pub open spec fn base_path(self) -> Seq<char> {
        if self.use_root {
            self.root
        } else {
            join_spec(self.root, self.public)
        }
    }

    /// `rel` below the current base path.
    pub open spec fn resolve(self, rel: Seq<char>) -> Seq<char> {
        join_spec(self.base_path(), rel)
    }

    /// The descriptor after answer `index` to a single-choice module: answer 0
    /// skips, answer `k` appends choice `k - 1` to the queue.
    pub open spec fn enqueue_single(self, module: ModuleView, index: int) -> ProjectView {
        if index == 0 {
            self
        } else {
            ProjectView { queue: self.queue.push(module.choices[index - 1]), ..self }
        }
    }

    /// The descriptor after the answer `indices` to a multi-choice module: each
    /// picked choice goes to the front in turn, so the last one picked is first.
    pub open spec fn enqueue_multiple(self, module: ModuleView, indices: Seq<usize>) -> ProjectView {
        ProjectView { queue: picked(module, indices).reverse() + self.queue, ..self }
    }
}

impl<'a> View for Project<'a> {
    type V = ProjectView;

    open spec fn view(&self) -> ProjectView {
        ProjectView {
            name: self.name@,
            root: self.root@,
            public: self.public@,
            index: self.index@,
            snippets: self.snippets@,
            queue: queue_views(self.queue@),
            use_root: self.use_root,
        }
    }
}

impl<'a> Project<'a> {
    /// A fresh descriptor: rooted at a directory named like the project, no
    /// public subdirectory, `index.html` as index file, nothing queued.
    pub fn build(name: &str) -> (project: Project<'a>)
        ensures
            project@ == ProjectView::initial(name@),
    {
        let project = Project {
            name: name.to_owned(),
            root: name.to_owned(),
            public: String::new(),
            index: "index.html".to_owned(),
            snippets: String::new(),
            queue: Vec::new(),
            use_root: true,
        };
        assert(project@.queue =~= Seq::empty());
        project
    }

    /// The operation that creates the directory `path` below the current base path.
    pub fn create_dir(&self, path: &str) -> (op: Operation)
        ensures
            op@ == (OperationView::CreateDir { path: self@.resolve(path@) }),
    {
        Operation::CreateDir { path: self.resolve(path) }
    }

    /// The operation that writes `data` to the file `path` below the current base path.
    pub fn create_file(&self, data: &str, path: &str) -> (op: Operation)
        ensures
            op@ == (OperationView::WriteFile { path: self@.resolve(path@), data: data@ }),
    {
        Operation::WriteFile { path: self.resolve(path), data: data.to_owned() }
    }

    /// Appends `snippet` to the accumulated markup.
    pub fn append_snippet(&mut self, snippet: &str) -> (project: &Project<'a>)
        ensures
            final(self)@ == (ProjectView { snippets: old(self)@.snippets + snippet@, ..old(self)@ }),
            *project == *final(self),
    {
        self.snippets.append(snippet);
        self
    }

    /// The operation that fetches `url` and writes what came back to the file
    /// `file` below the current base path.
    pub fn download_file(&self, url: &str, file: &str) -> (op: Operation)
        ensures
            op@ == (OperationView::Download { url: url@, path: self@.resolve(file@) }),
    {
        Operation::Download { url: url.to_owned(), path: self.resolve(file) }
    }

    /// Makes relative paths resolve against the public subdirectory
    /// (`use_pub`) or against the project root (`!use_pub`).
    pub fn use_pub(&mut self, use_pub: bool) -> (project: &Project<'a>)
        ensures
            final(self)@ == (ProjectView { use_root: !use_pub, ..old(self)@ }),
            *project == *final(self),
    {
        self.use_root = !use_pub;
        self
    }

    /// The directory that relative paths currently resolve against.
    pub fn base_path(&self) -> (path: String)
        ensures
            path@ == self@.base_path(),
    {
        if self.use_root {
            self.root.clone()
        } else {
            join(self.root.as_str(), self.public.as_str())
        }
    }

    /// `rel` below the current base path.
    pub fn resolve(&self, rel: &str) -> (path: String)
        ensures
            path@ == self@.resolve(rel@),
    {
        let base = self.base_path();
        join(base.as_str(), rel)
    }

    /// Records the answer to a single-choice module. Answer 0 is the skip
    /// option and changes nothing; answer `k` appends choice `k - 1` of the
    /// module to the end of the queue.
    pub fn enqueue_single(&mut self, module: &'a Module, index: usize)
        requires
            index <= module@.choices.len(),
        ensures
            final(self)@ == old(self)@.enqueue_single(module@, index as int),
            index == 0 ==> final(self)@ == old(self)@,
            index > 0 ==> final(self)@.queue == old(self)@.queue.push(
                module@.choices[index - 1],
            ),
    {
        if index != 0 {
            let choice: &'a Choice = &module.choices[index - 1];
            self.queue.push(choice);
            assert(final(self)@.queue =~= old(self)@.queue.push(module@.choices[index - 1]));
        }
    }

    /// Records the answer to a multi-choice module. The picked choices are put
    /// at the front of the queue one after the other in the order of `indices`,
    /// so they end up in reverse order before everything queued earlier.
    pub fn enqueue_multiple(&mut self, module: &'a Module, indices: &Vec<usize>)
        requires
            indices_in_range(module@, indices@),
        ensures
            final(self)@ == old(self)@.enqueue_multiple(module@, indices@),
    {
        let n = indices.len();
        let mut k: usize = 0;
        while k < n
            invariant
                n == indices.len(),
                k <= n,
                indices_in_range(module@, indices@),
                self@ == (ProjectView {
                    queue: picked(module@, indices@.take(k as int)).reverse() + old(self)@.queue,
                    ..old(self)@
                }),
            decreases n - k,
        {
            let ghost before = self@.queue;
            let choice: &'a Choice = &module.choices[indices[k]];
            self.queue.insert(0, choice);
            proof {
                // The new choice stands in front; everything else moved one place back.
                let now = picked(module@, indices@.take(k + 1)).reverse() + old(self)@.queue;
                assert(self@.queue.len() == before.len() + 1);
                assert forall|j: int| 0 < j < now.len() implies self@.queue[j] == now[j] by {
                    assert(self@.queue[j] == before[j - 1]);
                }
                assert(self@.queue =~= now);
            }
            k = k + 1;
        }
        assert(indices@.take(n as int) =~= indices@);
    }
}

} // verus!
