//! The registry: the four modules that a run asks about, and the template of
//! the index page. The texts of the templates are supplied by the caller.

use vstd::prelude::*;
use vstd::string::*;
use crate::catalog::{
    file_views, Choice, ChoiceView, FileAndDest, FileAndDestView, Module, ModuleView,
};
use crate::text::texts;

verus! {

/// The index page in three parts: the project's name goes between `head` and
/// `middle`, the accumulated snippets between `middle` and `tail`.
#[derive(Debug, Clone, PartialEq, Eq)]
pub struct IndexTemplate {
    pub head: String,
    pub middle: String,
    pub tail: String,
}

/// The three parts of the index page as texts.
pub struct IndexTemplateView {
    pub head: Seq<char>,
    pub middle: Seq<char>,
    pub tail: Seq<char>,
}

impl IndexTemplateView {
    /// The page for a project called `name` with the markup `snippets`.
    pub open spec fn render(self, name: Seq<char>, snippets: Seq<char>) -> Seq<char> {
        self.head + name + self.middle + snippets + self.tail
    }
}

impl View for IndexTemplate {
    type V = IndexTemplateView;

    open spec fn view(&self) -> IndexTemplateView {
        IndexTemplateView { head: self.head@, middle: self.middle@, tail: self.tail@ }
    }
}

impl IndexTemplate {
    /// Fills the template in.
    pub fn render(&self, name: &str, snippets: &str) -> (page: String)
        ensures
            page@ == self@.render(name@, snippets@),
    {
        let mut page = self.head.clone();
        page.append(name);
        page.append(self.middle.as_str());
        page.append(snippets);
        page.append(self.tail.as_str());
        page
    }
}

/// The texts that the standard modules write or insert.
#[derive(Debug, Clone, PartialEq, Eq)]
pub struct Templates {
    pub db: String,
    pub db_conf: String,
    pub jwt: String,
    pub jwt_conf: String,
    pub style: String,
    pub bootstrap: String,
    pub tailwind: String,
    pub index: IndexTemplate,
}

/// The texts of the standard modules.
pub struct TemplatesView {
    pub db: Seq<char>,
    pub db_conf: Seq<char>,
    pub jwt: Seq<char>,
    pub jwt_conf: Seq<char>,
    pub style: Seq<char>,
    pub bootstrap: Seq<char>,
    pub tailwind: Seq<char>,
    pub index: IndexTemplateView,
}

impl View for Templates {
    type V = TemplatesView;

    open spec fn view(&self) -> TemplatesView {
        TemplatesView {
            db: self.db@,
            db_conf: self.db_conf@,
            jwt: self.jwt@,
            jwt_conf: self.jwt_conf@,
            style: self.style@,
            bootstrap: self.bootstrap@,
            tailwind: self.tailwind@,
            index: self.index@,
        }
    }
}

/// A file of a choice that is written as it stands.
pub open spec fn literal_file(data: Seq<char>, dest: Seq<char>) -> FileAndDestView {
    FileAndDestView { data, dest, download: false }
}

/// A file of a choice that is fetched from `url`.
pub open spec fn remote_file(url: Seq<char>, dest: Seq<char>) -> FileAndDestView {
    FileAndDestView { data: url, dest, download: true }
}

/// "Use php": one answer or none. Yes makes `public` the public subdirectory
/// and creates it beside `src` and `config`, all below the project root.
pub open spec fn php_dirs_view() -> ModuleView {
    ModuleView {
        prompt: "Use php"@,
        default: Some("No"@),
        choices: seq![
            ChoiceView {
                prompt: "Yes"@,
                dirs: seq!["public"@, "src"@, "config"@],
                files: Seq::empty(),
                use_root_dir: true,
                snippet: None,
                overwrite_public: Some("public"@),
                overwrite_index: None,
            },
        ],
    }
}

/// A choice that writes one source file and one configuration file below the
/// project root.
pub open spec fn boilerplate_view(
    prompt: Seq<char>,
    source: FileAndDestView,
    conf: FileAndDestView,
) -> ChoiceView {
    ChoiceView {
        prompt,
        dirs: seq!["src"@, "config"@],
        files: seq![source, conf],
        use_root_dir: true,
        snippet: None,
        overwrite_public: None,
        overwrite_index: None,
    }
}

/// "Php boilerplate": any of Database and Jwt.
pub open spec fn php_view(t: TemplatesView) -> ModuleView {
    ModuleView {
        prompt: "Php boilerplate"@,
        default: None,
        choices: seq![
            boilerplate_view(
                "Database"@,
                literal_file(t.db, "src/db.php"@),
                literal_file(t.db_conf, "config/db.php"@),
            ),
            boilerplate_view(
                "Jwt"@,
                literal_file(t.jwt, "src/jwt.php"@),
                literal_file(t.jwt_conf, "config/jwt.php"@),
            ),
        ],
    }
}

/// A choice that puts files below the public base, creating no more than one
/// directory for them, and links them from the index page.
pub open spec fn asset_view(
    prompt: Seq<char>,
    dirs: Seq<Seq<char>>,
    files: Seq<FileAndDestView>,
    snippet: Seq<char>,
) -> ChoiceView {
    ChoiceView {
        prompt,
        dirs,
        files,
        use_root_dir: false,
        snippet: Some(snippet),
        overwrite_public: None,
        overwrite_index: None,
    }
}

/// "Create css file": one answer or none, a plain or a Sass style sheet.
pub open spec fn css_view(t: TemplatesView) -> ModuleView {
    ModuleView {
        prompt: "Create css file"@,
        default: Some("No"@),
        choices: seq![
            asset_view(
                "style.css"@,
                Seq::empty(),
                seq![literal_file(t.style, "style.css"@)],
                "\t<link rel=\"stylesheet\" href=\"style.css\">\n"@,
            ),
            asset_view(
                "style.scss"@,
                Seq::empty(),
                seq![literal_file("templates/style.css"@, "style.scss"@)],
                "\t<link rel=\"stylesheet\" href=\"style.scss\">\n"@,
            ),
        ],
    }
}

/// "Use css framework": any of Bootstrap and Tailwind, fetched into `framework`.
pub open spec fn css_framework_view(t: TemplatesView) -> ModuleView {
    ModuleView {
        prompt: "Use css framework"@,
        default: None,
        choices: seq![
            asset_view(
                "Bootstrap"@,
                seq!["framework"@],
                seq![
                    remote_file(
                        "https://cdn.jsdelivr.net/npm/bootstrap@5.3.0-alpha1/dist/css/bootstrap.min.css"@,
                        "framework/bootstrap.min.css"@,
                    ),
                    remote_file(
                        "https://cdn.jsdelivr.net/npm/bootstrap@5.3.0-alpha1/dist/js/bootstrap.bundle.min.js"@,
                        "framework/bootstrap.bundle.min.css"@,
                    ),
                ],
                t.bootstrap,
            ),
            asset_view(
                "Tailwind"@,
                seq!["framework"@],
                seq![remote_file("https://cdn.tailwindcss,com"@, "framework/cdn.tailwindcss.com"@)],
                t.tailwind,
            ),
        ],
    }
}

/// A file that is written as it stands.
fn literal(data: &str, dest: &str) -> (file: FileAndDest)
    ensures
        file@ == literal_file(data@, dest@),
{
    FileAndDest { data: data.to_owned(), dest: dest.to_owned(), download: false }
}

/// A file that is fetched from `url`.
fn remote(url: &str, dest: &str) -> (file: FileAndDest)
    ensures
        file@ == remote_file(url@, dest@),
{
    FileAndDest { data: url.to_owned(), dest: dest.to_owned(), download: true }
}

/// A choice that writes one source file and one configuration file.
fn boilerplate(prompt: &str, source: FileAndDest, conf: FileAndDest) -> (choice: Choice)
    ensures
        choice@ == boilerplate_view(prompt@, source@, conf@),
{
    let mut dirs: Vec<String> = Vec::new();
    dirs.push("src".to_owned());
    dirs.push("config".to_owned());
    let mut files: Vec<FileAndDest> = Vec::new();
    files.push(source);
    files.push(conf);
    let choice = Choice {
        prompt: prompt.to_owned(),
        dirs,
        files,
        use_root_dir: true,
        snippet: None,
        overwrite_public: None,
        overwrite_index: None,
    };
    assert(choice@.dirs =~= seq!["src"@, "config"@]);
    assert(choice@.files =~= seq![source@, conf@]);
    choice
}

/// A choice that puts files below the public base and links them from the index page.
fn asset(prompt: &str, dirs: Vec<String>, files: Vec<FileAndDest>, snippet: &str) -> (choice:
    Choice)
    ensures
        choice@ == asset_view(prompt@, texts(dirs@), file_views(files@), snippet@),
{
    Choice {
        prompt: prompt.to_owned(),
        dirs,
        files,
        use_root_dir: false,
        snippet: Some(snippet.to_owned()),
        overwrite_public: None,
        overwrite_index: None,
    }
}

/// The module "Use php".
pub fn php_dirs() -> (module: Module)
    ensures
        module@ == php_dirs_view(),
{
    let mut dirs: Vec<String> = Vec::new();
    dirs.push("public".to_owned());
    dirs.push("src".to_owned());
    dirs.push("config".to_owned());
    let yes = Choice {
        prompt: "Yes".to_owned(),
        dirs,
        files: Vec::new(),
        use_root_dir: true,
        snippet: None,
        overwrite_public: Some("public".to_owned()),
        overwrite_index: None,
    };
    assert(yes@.dirs =~= seq!["public"@, "src"@, "config"@]);
    assert(yes@.files =~= Seq::empty());
    let mut choices: Vec<Choice> = Vec::new();
    choices.push(yes);
    let module = Module { prompt: "Use php".to_owned(), default: Some("No".to_owned()), choices };
    assert(module@.choices =~= php_dirs_view().choices);
    module
}

/// The module "Php boilerplate".
pub fn php(templates: &Templates) -> (module: Module)
    ensures
        module@ == php_view(templates@),
{
    let database = boilerplate(
        "Database",
        literal(templates.db.as_str(), "src/db.php"),
        literal(templates.db_conf.as_str(), "config/db.php"),
    );
    let jwt = boilerplate(
        "Jwt",
        literal(templates.jwt.as_str(), "src/jwt.php"),
        literal(templates.jwt_conf.as_str(), "config/jwt.php"),
    );
    let mut choices: Vec<Choice> = Vec::new();
    choices.push(database);
    choices.push(jwt);
    let module = Module { prompt: "Php boilerplate".to_owned(), default: None, choices };
    assert(module@.choices =~= php_view(templates@).choices);
    module
}

/// The module "Create css file".
pub fn css(templates: &Templates) -> (module: Module)
    ensures
        module@ == css_view(templates@),
{
    let mut plain_files: Vec<FileAndDest> = Vec::new();
    plain_files.push(literal(templates.style.as_str(), "style.css"));
    assert(file_views(plain_files@) =~= seq![
        literal_file(templates@.style, "style.css"@),
    ]);
    let plain_dirs: Vec<String> = Vec::new();
    let plain = asset(
        "style.css",
        plain_dirs,
        plain_files,
        "\t<link rel=\"stylesheet\" href=\"style.css\">\n",
    );
    let mut sass_files: Vec<FileAndDest> = Vec::new();
    sass_files.push(literal("templates/style.css", "style.scss"));
    assert(file_views(sass_files@) =~= seq![
        literal_file("templates/style.css"@, "style.scss"@),
    ]);
    let sass_dirs: Vec<String> = Vec::new();
    assert(texts(sass_dirs@) =~= Seq::empty());
    let sass = asset(
        "style.scss",
        sass_dirs,
        sass_files,
        "\t<link rel=\"stylesheet\" href=\"style.scss\">\n",
    );
    let mut choices: Vec<Choice> = Vec::new();
    choices.push(plain);
    choices.push(sass);
    let module = Module {
        prompt: "Create css file".to_owned(),
        default: Some("No".to_owned()),
        choices,
    };
    assert(module@.choices =~= css_view(templates@).choices);
    module
}

/// The module "Use css framework".
pub fn css_framework(templates: &Templates) -> (module: Module)
    ensures
        module@ == css_framework_view(templates@),
{
    let mut bootstrap_dirs: Vec<String> = Vec::new();
    bootstrap_dirs.push("framework".to_owned());
    assert(texts(bootstrap_dirs@) =~= seq!["framework"@]);
    let mut bootstrap_files: Vec<FileAndDest> = Vec::new();
    bootstrap_files.push(
        remote(
            "https://cdn.jsdelivr.net/npm/bootstrap@5.3.0-alpha1/dist/css/bootstrap.min.css",
            "framework/bootstrap.min.css",
        ),
    );
    bootstrap_files.push(
        remote(
            "https://cdn.jsdelivr.net/npm/bootstrap@5.3.0-alpha1/dist/js/bootstrap.bundle.min.js",
            "framework/bootstrap.bundle.min.css",
        ),
    );
    assert(file_views(bootstrap_files@) =~= seq![
        remote_file(
            "https://cdn.jsdelivr.net/npm/bootstrap@5.3.0-alpha1/dist/css/bootstrap.min.css"@,
            "framework/bootstrap.min.css"@,
        ),
        remote_file(
            "https://cdn.jsdelivr.net/npm/bootstrap@5.3.0-alpha1/dist/js/bootstrap.bundle.min.js"@,
            "framework/bootstrap.bundle.min.css"@,
        ),
    ]);
    let bootstrap = asset(
        "Bootstrap",
        bootstrap_dirs,
        bootstrap_files,
        templates.bootstrap.as_str(),
    );
    let mut tailwind_dirs: Vec<String> = Vec::new();
    tailwind_dirs.push("framework".to_owned());
    assert(texts(tailwind_dirs@) =~= seq!["framework"@]);
    let mut tailwind_files: Vec<FileAndDest> = Vec::new();
    tailwind_files.push(remote("https://cdn.tailwindcss,com", "framework/cdn.tailwindcss.com"));
    assert(file_views(tailwind_files@) =~= seq![
        remote_file("https://cdn.tailwindcss,com"@, "framework/cdn.tailwindcss.com"@),
    ]);
    let tailwind = asset("Tailwind", tailwind_dirs, tailwind_files, templates.tailwind.as_str());
    let mut choices: Vec<Choice> = Vec::new();
    choices.push(bootstrap);
    choices.push(tailwind);
    let module = Module { prompt: "Use css framework".to_owned(), default: None, choices };
    assert(module@.choices =~= css_framework_view(templates@).choices);
    module
}

/// The four modules of a run and the template of its index page. A registry
/// is well formed by construction: see [`RegistryView::well_formed`].
#[derive(Debug, PartialEq, Eq)]
pub struct Registry {
    php_dirs: Module,
    php: Module,
    css: Module,
    css_framework: Module,
    index: IndexTemplate,
}

/// The modules of a registry and its index template.
pub struct RegistryView {
    pub php_dirs: ModuleView,
    pub php: ModuleView,
    pub css: ModuleView,
    pub css_framework: ModuleView,
    pub index: IndexTemplateView,
}

impl RegistryView {
    /// Every module has at least one choice; "use php" and "create css file"
    /// ask for one answer with the option to skip, the other two for a subset.
    pub open spec fn well_formed(self) -> bool {
        &&& self.php_dirs.is_single()
        &&& !self.php.is_single()
        &&& self.css.is_single()
        &&& !self.css_framework.is_single()
        &&& self.php_dirs.choices.len() >= 1
        &&& self.php.choices.len() >= 1
        &&& self.css.choices.len() >= 1
        &&& self.css_framework.choices.len() >= 1
    }

    /// The standard registry over the texts `t`.
    pub open spec fn standard(t: TemplatesView) -> RegistryView {
        RegistryView {
            php_dirs: php_dirs_view(),
            php: php_view(t),
            css: css_view(t),
            css_framework: css_framework_view(t),
            index: t.index,
        }
    }
}

impl View for Registry {
    type V = RegistryView;

    closed spec fn view(&self) -> RegistryView {
        RegistryView {
            php_dirs: self.php_dirs@,
            php: self.php@,
            css: self.css@,
            css_framework: self.css_framework@,
            index: self.index@,
        }
    }
}

impl Registry {
    /// Every registry is well formed.
    #[verifier::type_invariant]
    pub open spec fn valid(self) -> bool {
        self@.well_formed()
    }

    /// A registry of the given modules, if together they are well formed.
    pub fn new(
        php_dirs: Module,
        php: Module,
        css: Module,
        css_framework: Module,
        index: IndexTemplate,
    ) -> (registry: Option<Registry>)
        ensures
            registry is Some <==> (RegistryView {
                php_dirs: php_dirs@,
                php: php@,
                css: css@,
                css_framework: css_framework@,
                index: index@,
            }).well_formed(),
            registry matches Some(r) ==> r@ == (RegistryView {
                php_dirs: php_dirs@,
                php: php@,
                css: css@,
                css_framework: css_framework@,
                index: index@,
            }),
    {
        if php_dirs.default.is_some() && php.default.is_none() && css.default.is_some()
            && css_framework.default.is_none() && php_dirs.choices.len() >= 1
            && php.choices.len() >= 1 && css.choices.len() >= 1 && css_framework.choices.len()
            >= 1 {
            Some(Registry { php_dirs, php, css, css_framework, index })
        } else {
            None
        }
    }

    /// The standard registry over the given texts.
    pub fn standard(templates: Templates) -> (registry: Registry)
        ensures
            registry@ == RegistryView::standard(templates@),
    {
        let php_dirs = php_dirs();
        let php = php(&templates);
        let css = css(&templates);
        let css_framework = css_framework(&templates);
        Registry { php_dirs, php, css, css_framework, index: templates.index }
    }

    /// The module "use php".
    pub fn php_dirs(&self) -> (module: &Module)
        ensures
            module@ == self@.php_dirs,
    {
        &self.php_dirs
    }

    /// The module "php boilerplate".
    pub fn php(&self) -> (module: &Module)
        ensures
            module@ == self@.php,
    {
        &self.php
    }

    /// The module "create css file".
    pub fn css(&self) -> (module: &Module)
        ensures
            module@ == self@.css,
    {
        &self.css
    }

    /// The module "use css framework".
    pub fn css_framework(&self) -> (module: &Module)
        ensures
            module@ == self@.css_framework,
    {
        &self.css_framework
    }

    /// The template of the index page.
    pub fn index(&self) -> (index: &IndexTemplate)
        ensures
            index@ == self@.index,
    {
        &self.index
    }
}

} // verus!
