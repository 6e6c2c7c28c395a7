use scaffold::catalog::{Choice, FileAndDest, Module, Question};
use scaffold::registry::{css, css_framework, php, php_dirs, IndexTemplate, Registry, Templates};

fn templates() -> Templates {
    Templates {
        db: "<?php // db".to_string(),
        db_conf: "<?php // db conf".to_string(),
        jwt: "<?php // jwt".to_string(),
        jwt_conf: "<?php // jwt conf".to_string(),
        style: "body {}".to_string(),
        bootstrap: "\t<link bootstrap>\n".to_string(),
        tailwind: "\t<script tailwind>\n".to_string(),
        index: IndexTemplate {
            head: "<title>".to_string(),
            middle: "</title>\n".to_string(),
            tail: "</html>\n".to_string(),
        },
    }
}

fn names(v: &[&str]) -> Vec<String> {
    v.iter().map(|s| s.to_string()).collect()
}

fn file(data: &str, dest: &str, download: bool) -> FileAndDest {
    FileAndDest { data: data.to_string(), dest: dest.to_string(), download }
}

#[test]
fn php_dirs_is_a_single_question_with_one_choice() {
    let module = php_dirs();
    assert_eq!(module.prompt, "Use php");
    assert_eq!(module.default, Some("No".to_string()));
    assert_eq!(
        module.choices,
        vec![Choice {
            prompt: "Yes".to_string(),
            dirs: names(&["public", "src", "config"]),
            files: vec![],
            use_root_dir: true,
            snippet: None,
            overwrite_public: Some("public".to_string()),
            overwrite_index: None,
        }]
    );
}

#[test]
fn php_offers_database_and_jwt() {
    let module = php(&templates());
    assert_eq!(module.prompt, "Php boilerplate");
    assert_eq!(module.default, None);
    assert_eq!(
        module.choices,
        vec![
            Choice {
                prompt: "Database".to_string(),
                dirs: names(&["src", "config"]),
                files: vec![
                    file("<?php // db", "src/db.php", false),
                    file("<?php // db conf", "config/db.php", false),
                ],
                use_root_dir: true,
                snippet: None,
                overwrite_public: None,
                overwrite_index: None,
            },
            Choice {
                prompt: "Jwt".to_string(),
                dirs: names(&["src", "config"]),
                files: vec![
                    file("<?php // jwt", "src/jwt.php", false),
                    file("<?php // jwt conf", "config/jwt.php", false),
                ],
                use_root_dir: true,
                snippet: None,
                overwrite_public: None,
                overwrite_index: None,
            },
        ]
    );
}

#[test]
fn css_offers_plain_and_sass() {
    let module = css(&templates());
    assert_eq!(module.prompt, "Create css file");
    assert_eq!(module.default, Some("No".to_string()));
    assert_eq!(
        module.choices,
        vec![
            Choice {
                prompt: "style.css".to_string(),
                dirs: vec![],
                files: vec![file("body {}", "style.css", false)],
                use_root_dir: false,
                snippet: Some("\t<link rel=\"stylesheet\" href=\"style.css\">\n".to_string()),
                overwrite_public: None,
                overwrite_index: None,
            },
            Choice {
                prompt: "style.scss".to_string(),
                dirs: vec![],
                files: vec![file("templates/style.css", "style.scss", false)],
                use_root_dir: false,
                snippet: Some("\t<link rel=\"stylesheet\" href=\"style.scss\">\n".to_string()),
                overwrite_public: None,
                overwrite_index: None,
            },
        ]
    );
}

#[test]
fn css_framework_offers_bootstrap_and_tailwind() {
    let module = css_framework(&templates());
    assert_eq!(module.prompt, "Use css framework");
    assert_eq!(module.default, None);
    assert_eq!(
        module.choices,
        vec![
            Choice {
                prompt: "Bootstrap".to_string(),
                dirs: names(&["framework"]),
                files: vec![
                    file(
                        "https://cdn.jsdelivr.net/npm/bootstrap@5.3.0-alpha1/dist/css/bootstrap.min.css",
                        "framework/bootstrap.min.css",
                        true,
                    ),
                    file(
                        "https://cdn.jsdelivr.net/npm/bootstrap@5.3.0-alpha1/dist/js/bootstrap.bundle.min.js",
                        "framework/bootstrap.bundle.min.css",
                        true,
                    ),
                ],
                use_root_dir: false,
                snippet: Some("\t<link bootstrap>\n".to_string()),
                overwrite_public: None,
                overwrite_index: None,
            },
            Choice {
                prompt: "Tailwind".to_string(),
                dirs: names(&["framework"]),
                files: vec![file(
                    "https://cdn.tailwindcss,com",
                    "framework/cdn.tailwindcss.com",
                    true,
                )],
                use_root_dir: false,
                snippet: Some("\t<script tailwind>\n".to_string()),
                overwrite_public: None,
                overwrite_index: None,
            },
        ]
    );
}

#[test]
fn standard_registry_holds_the_four_modules() {
    let registry = Registry::standard(templates());
    assert_eq!(*registry.php_dirs(), php_dirs());
    assert_eq!(*registry.php(), php(&templates()));
    assert_eq!(*registry.css(), css(&templates()));
    assert_eq!(*registry.css_framework(), css_framework(&templates()));
    assert_eq!(*registry.index(), templates().index);
}

#[test]
fn standard_questions() {
    let registry = Registry::standard(templates());
    assert_eq!(
        registry.php_dirs().question(),
        Question::Single {
            prompt: "Use php".to_string(),
            skip_label: "No".to_string(),
            labels: names(&["Yes"]),
        }
    );
    assert_eq!(
        registry.php().question(),
        Question::Multiple {
            prompt: "Php boilerplate".to_string(),
            labels: names(&["Database", "Jwt"]),
        }
    );
    assert_eq!(
        registry.css().question(),
        Question::Single {
            prompt: "Create css file".to_string(),
            skip_label: "No".to_string(),
            labels: names(&["style.css", "style.scss"]),
        }
    );
    assert_eq!(
        registry.css_framework().question(),
        Question::Multiple {
            prompt: "Use css framework".to_string(),
            labels: names(&["Bootstrap", "Tailwind"]),
        }
    );
}

#[test]
fn registry_of_well_formed_modules() {
    let t = templates();
    let registry = Registry::new(php_dirs(), php(&t), css(&t), css_framework(&t), t.index.clone());
    assert_eq!(registry, Some(Registry::standard(t)));
}

#[test]
fn registry_refuses_modules_of_the_wrong_kind() {
    let t = templates();
    assert_eq!(
        Registry::new(php(&t), php(&t), css(&t), css_framework(&t), t.index.clone()),
        None
    );
    assert_eq!(
        Registry::new(php_dirs(), css(&t), css(&t), css_framework(&t), t.index.clone()),
        None
    );
    assert_eq!(
        Registry::new(php_dirs(), php(&t), css_framework(&t), css_framework(&t), t.index.clone()),
        None
    );
    assert_eq!(Registry::new(php_dirs(), php(&t), css(&t), css(&t), t.index.clone()), None);
}

#[test]
fn registry_refuses_a_module_without_choices() {
    let t = templates();
    let empty_single =
        Module { prompt: "p".to_string(), default: Some("No".to_string()), choices: vec![] };
    let empty_multiple = Module { prompt: "p".to_string(), default: None, choices: vec![] };
    assert_eq!(
        Registry::new(empty_single.clone(), php(&t), css(&t), css_framework(&t), t.index.clone()),
        None
    );
    assert_eq!(
        Registry::new(php_dirs(), empty_multiple.clone(), css(&t), css_framework(&t), t.index.clone()),
        None
    );
    assert_eq!(
        Registry::new(php_dirs(), php(&t), empty_single, css_framework(&t), t.index.clone()),
        None
    );
    assert_eq!(
        Registry::new(php_dirs(), php(&t), css(&t), empty_multiple, t.index.clone()),
        None
    );
}
