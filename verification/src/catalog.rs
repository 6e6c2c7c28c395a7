//! The data model of the catalogue: a module is one question, a choice is one
//! of its answers together with everything that selecting it contributes.

use vstd::prelude::*;
use crate::text::{opt_text, texts};

verus! {

/// One file that a choice contributes: literal content or, where `download`
/// is set, the address to fetch the content from.
#[derive(Debug, Clone, PartialEq, Eq)]
pub struct FileAndDest {
    pub data: String,
    pub dest: String,
    pub download: bool,
}

/// A file of a choice as texts.
pub struct FileAndDestView {
    pub data: Seq<char>,
    pub dest: Seq<char>,
    pub download: bool,
}

impl View for FileAndDest {
    type V = FileAndDestView;

    open spec fn view(&self) -> FileAndDestView {
        FileAndDestView { data: self.data@, dest: self.dest@, download: self.download }
    }
}

/// The views of the files of a vector, in order.
pub open spec fn file_views(v: Seq<FileAndDest>) -> Seq<FileAndDestView> {
    Seq::new(v.len(), |i: int| v[i]@)
}

/// One selectable option of a module.
#[derive(Debug, Clone, PartialEq, Eq)]
pub struct Choice {
    pub prompt: String,
    pub dirs: Vec<String>,
    pub files: Vec<FileAndDest>,
    pub use_root_dir: bool,
    pub snippet: Option<String>,
    pub overwrite_public: Option<String>,
    pub overwrite_index: Option<String>,
}

/// A choice as texts and sequences.
pub struct ChoiceView {
    pub prompt: Seq<char>,
    pub dirs: Seq<Seq<char>>,
    pub files: Seq<FileAndDestView>,
    pub use_root_dir: bool,
    pub snippet: Option<Seq<char>>,
    pub overwrite_public: Option<Seq<char>>,
    pub overwrite_index: Option<Seq<char>>,
}

impl View for Choice {
    type V = ChoiceView;

    open spec fn view(&self) -> ChoiceView {
        ChoiceView {
            prompt: self.prompt@,
            dirs: texts(self.dirs@),
            files: file_views(self.files@),
            use_root_dir: self.use_root_dir,
            snippet: opt_text(self.snippet),
            overwrite_public: opt_text(self.overwrite_public),
            overwrite_index: opt_text(self.overwrite_index),
        }
    }
}

/// The views of the choices of a vector, in order.
pub open spec fn choice_views(v: Seq<Choice>) -> Seq<ChoiceView> {
    Seq::new(v.len(), |i: int| v[i]@)
}

/// One decision point. With a `default` label it asks for exactly one answer,
/// the default standing for "none of the choices"; without one it asks for any
/// subset of its choices.
#[derive(Debug, Clone, PartialEq, Eq)]
pub struct Module {
    pub prompt: String,
    pub default: Option<String>,
    pub choices: Vec<Choice>,
}

/// A module as texts and a sequence of choices.
pub struct ModuleView {
    pub prompt: Seq<char>,
    pub default: Option<Seq<char>>,
    pub choices: Seq<ChoiceView>,
}

impl ModuleView {
    /// Whether the module asks for one answer with the option to skip.
    pub open spec fn is_single(self) -> bool {
        self.default is Some
    }

    /// The labels of the choices, in order.
    pub open spec fn labels(self) -> Seq<Seq<char>> {
        Seq::new(self.choices.len(), |i: int| self.choices[i].prompt)
    }

    /// The question that presents this module.
    pub open spec fn question(self) -> QuestionView {
        match self.default {
            Some(skip) => QuestionView::Single {
                prompt: self.prompt,
                skip_label: skip,
                labels: self.labels(),
            },
            None => QuestionView::Multiple { prompt: self.prompt, labels: self.labels() },
        }
    }
}

impl View for Module {
    type V = ModuleView;

    open spec fn view(&self) -> ModuleView {
        ModuleView {
            prompt: self.prompt@,
            default: opt_text(self.default),
            choices: choice_views(self.choices@),
        }
    }
}

/// What is to be shown to the user for one module. In a `Single` question the
/// skip label is option 0 and the labels follow as options 1, 2, ...; in a
/// `Multiple` question label `i` is option `i`.
#[derive(Debug, Clone, PartialEq, Eq)]
pub enum Question {
    Single { prompt: String, skip_label: String, labels: Vec<String> },
    Multiple { prompt: String, labels: Vec<String> },
}

/// A question as texts.
pub enum QuestionView {
    Single { prompt: Seq<char>, skip_label: Seq<char>, labels: Seq<Seq<char>> },
    Multiple { prompt: Seq<char>, labels: Seq<Seq<char>> },
}

impl View for Question {
    type V = QuestionView;

    open spec fn view(&self) -> QuestionView {
        match self {
            Question::Single { prompt, skip_label, labels } => QuestionView::Single {
                prompt: prompt@,
                skip_label: skip_label@,
                labels: texts(labels@),
            },
            Question::Multiple { prompt, labels } => QuestionView::Multiple {
                prompt: prompt@,
                labels: texts(labels@),
            },
        }
    }
}

impl Module {
    /// The labels of the choices, in order.
    pub fn labels(&self) -> (labels: Vec<String>)
        ensures
            texts(labels@) == self@.labels(),
    {
        let mut labels: Vec<String> = Vec::new();
        let n = self.choices.len();
        let mut i: usize = 0;
        while i < n
            invariant
                n == self.choices.len(),
                i <= n,
                labels.len() == i,
                forall|j: int| 0 <= j < i ==> labels[j]@ == self.choices[j].prompt@,
            decreases n - i,
        {
            labels.push(self.choices[i].prompt.clone());
            i = i + 1;
        }
        labels
    }

    /// The question that presents this module: its prompt, the skip label if
    /// it has one, and the label of every choice in order.
    pub fn question(&self) -> (question: Question)
        ensures
            question@ == self@.question(),
    {
        let labels = self.labels();
        match &self.default {
            Some(skip) => Question::Single {
                prompt: self.prompt.clone(),
                skip_label: skip.clone(),
                labels,
            },
            None => Question::Multiple { prompt: self.prompt.clone(), labels },
        }
    }
}

} // verus!
