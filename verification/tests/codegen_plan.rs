use biome_tools::codegen::{
    dialect_directories, generate_formatter, generate_formatters, node_file_path, plan_node,
    plan_nodes, should_write, BoilerplateRule, FormatterInput, NodeEntry, Template,
};
use biome_tools::language::LanguageKind;
use biome_tools::module_index::{mod_content, ModuleIndex};
use biome_tools::node::{NodeConcept, NodeKind};
use biome_tools::order::{compare_str, sorted_insert, Comparison};
use biome_tools::paths::{file_stem, split_path, strip_prefix};
use biome_tools::repo::{
    classify_status, parse_codegen_flags, CheckFailure, GitRepo, StatusClass, StatusEntry,
};

fn p(s: &str) -> Vec<String> {
    s.split('/').map(|c| c.to_string()).collect()
}

fn strings(v: &[&str]) -> Vec<String> {
    v.iter().map(|s| s.to_string()).collect()
}

fn clean_repo() -> GitRepo {
    GitRepo::open(&vec![], &vec![])
}

fn entry(kind: NodeKind, name: &str) -> NodeEntry {
    NodeEntry { kind, name: name.to_string() }
}

#[test]
fn plan_of_css_property_uses_property_template() {
    let plan = plan_node(&entry(NodeKind::Node, "CssGenericProperty"), LanguageKind::Css);
    assert!(matches!(plan.template, Template::CssProperty));
    assert_eq!(plan.module.concept, NodeConcept::Property);
    assert_eq!(plan.node_id, "CssGenericProperty");
    assert_eq!(plan.fields_id, "CssGenericPropertyFields");
    assert_eq!(plan.format_id, "FormatCssGenericProperty");
    assert!(!plan.allow_overwrite);
    assert_eq!(plan.boilerplate, BoilerplateRule::Node);
    assert_eq!(plan.boilerplate.ident(), Some("FormatNodeRule"));
    // The same name outside CSS is formatted verbatim.
    let plan = plan_node(&entry(NodeKind::Node, "JsGenericProperty"), LanguageKind::Js);
    assert!(matches!(plan.template, Template::VerbatimNode));
}

#[test]
fn plan_templates_per_kind() {
    let plan = plan_node(&entry(NodeKind::List { separated: false }, "JsStatementList"), LanguageKind::Js);
    assert!(matches!(plan.template, Template::JoinedList));
    assert_eq!(plan.boilerplate.ident(), None);
    let plan = plan_node(&entry(NodeKind::List { separated: true }, "JsArrayElementList"), LanguageKind::Js);
    assert!(matches!(plan.template, Template::VerbatimList));
    let plan = plan_node(&entry(NodeKind::Bogus, "JsBogus"), LanguageKind::Js);
    assert!(matches!(plan.template, Template::Bogus));
    assert_eq!(plan.boilerplate.ident(), Some("FormatBogusNodeRule"));
    let union = NodeKind::Union { variants: strings(&["JsArrayHole", "AnyJsExpression"]) };
    let plan = plan_node(&entry(union, "AnyJsArrayElement"), LanguageKind::Js);
    assert!(plan.allow_overwrite);
    match plan.template {
        Template::Union { variants } => assert_eq!(variants, strings(&["JsArrayHole", "AnyJsExpression"])),
        _ => panic!("expected a union template"),
    }
}

#[test]
fn rule_file_paths() {
    let plan = plan_node(&entry(NodeKind::Node, "JsIfStatement"), LanguageKind::Js);
    let root = p("crates/biome_js_formatter/src");
    assert_eq!(
        node_file_path(&root, &plan.module),
        p("crates/biome_js_formatter/src/js/statements/if_statement.rs")
    );
    assert!(should_write(true, true));
    assert!(should_write(false, false));
    assert!(!should_write(false, true));
    let dirs = dialect_directories(&p("src"));
    assert_eq!(dirs.len(), 8);
    assert_eq!(dirs[2], p("src/jsx"));
}

#[test]
fn module_index_declares_and_prints() {
    let repo = clean_repo();
    let mut index = ModuleIndex::new(p("src"), vec![p("src/js/statements/old.rs"), p("src/js/statements/if_statement.rs")]);
    index.insert(&repo, &p("src/js/statements/if_statement.rs")).unwrap();
    index.insert(&repo, &p("src/js/statements/block_statement.rs")).unwrap();
    index.insert(&repo, &p("src/js/auxiliary/auxiliary.rs")).unwrap();
    let (files, deleted) = index.print();
    assert_eq!(files.len(), 3);
    assert_eq!(files[0].path, p("src/js/mod.rs"));
    assert_eq!(files[0].content, "pub(crate) mod auxiliary;\npub(crate) mod statements;\n");
    assert_eq!(files[1].path, p("src/js/auxiliary/mod.rs"));
    assert_eq!(
        files[1].content,
        "#[expect(clippy::module_inception)]\npub(crate) mod auxiliary;\n"
    );
    assert_eq!(files[2].path, p("src/js/statements/mod.rs"));
    assert_eq!(files[2].content, "pub(crate) mod block_statement;\npub(crate) mod if_statement;\n");
    assert_eq!(deleted, vec![p("src/js/statements/old.rs")]);
}

#[test]
fn module_index_insert_refused_by_guard() {
    let statuses = vec![StatusEntry { path: "src/js/mod.rs".to_string(), status: 256 }];
    let repo = GitRepo::open(&vec![], &statuses);
    let mut index = ModuleIndex::new(p("src"), vec![]);
    let err = index.insert(&repo, &p("src/js/statements/if_statement.rs")).unwrap_err();
    assert_eq!(err.kind, CheckFailure::Dirty);
    assert_eq!(err.path, p("src/js/mod.rs"));
}

#[test]
fn mod_content_marks_inception() {
    assert_eq!(
        mod_content("name", &strings(&["name", "other"])),
        "#[expect(clippy::module_inception)]\npub(crate) mod name;\npub(crate) mod other;\n"
    );
    assert_eq!(mod_content("x", &vec![]), "");
}

#[test]
fn generate_formatter_writes_missing_and_union_files() {
    let repo = clean_repo();
    let entries = vec![
        entry(NodeKind::Node, "JsIfStatement"),
        entry(NodeKind::Node, "JsBlockStatement"),
        entry(NodeKind::Union { variants: strings(&["JsIfStatement"]) }, "AnyJsStatement"),
    ];
    let plans = plan_nodes(&entries, LanguageKind::Js);
    let root = p("crates/biome_js_formatter/src");
    let existing = vec![
        p("crates/biome_js_formatter/src/js/statements/block_statement.rs"),
        p("crates/biome_js_formatter/src/js/any/statement.rs"),
        p("crates/biome_js_formatter/src/js/statements/removed.rs"),
    ];
    let out = generate_formatter(&repo, &root, &plans, &vec![false, true, true], &existing).unwrap();
    assert_eq!(out.written, vec![0, 2]);
    assert_eq!(out.deleted, vec![p("crates/biome_js_formatter/src/js/statements/removed.rs")]);
    assert_eq!(out.mod_files.len(), 3);
    assert_eq!(out.stage.len(), 2 + 3 + 1 + 1);
    assert_eq!(out.stage[0], p("crates/biome_js_formatter/src/js/statements/if_statement.rs"));
    assert_eq!(out.stage[1], p("crates/biome_js_formatter/src/js/any/statement.rs"));
    assert_eq!(out.stage[2], p("crates/biome_js_formatter/src/js/mod.rs"));
    assert_eq!(out.stage[3], p("crates/biome_js_formatter/src/js/any/mod.rs"));
    assert_eq!(out.stage[4], p("crates/biome_js_formatter/src/js/statements/mod.rs"));
    assert_eq!(out.mod_files[0].path, p("crates/biome_js_formatter/src/js/mod.rs"));
    assert_eq!(out.stage[6], p("crates/biome_js_formatter/src/generated.rs"));
}

#[test]
fn generate_formatter_refuses_staged_rule_file() {
    let statuses = vec![StatusEntry {
        path: "crates/biome_js_formatter/src/js/statements/if_statement.rs".to_string(),
        status: 1,
    }];
    let repo = GitRepo::open(&vec![], &statuses);
    let plans = plan_nodes(&vec![entry(NodeKind::Node, "JsIfStatement")], LanguageKind::Js);
    let root = p("crates/biome_js_formatter/src");
    let err = generate_formatter(&repo, &root, &plans, &vec![false], &vec![]).unwrap_err();
    assert_eq!(err.kind, CheckFailure::Staged);
    // An existing file is not written, so it is not checked.
    assert!(generate_formatter(&repo, &root, &plans, &vec![true], &vec![]).is_ok());
}

#[test]
fn generate_formatters_stops_at_first_refusal() {
    let statuses = vec![StatusEntry { path: "b/src/js/mod.rs".to_string(), status: 2 }];
    let repo = GitRepo::open(&vec!["--allow-staged".to_string()], &statuses);
    let input = |root: &str| FormatterInput {
        crate_exists: true,
        src_root: p(root),
        plans: plan_nodes(&vec![entry(NodeKind::Node, "JsIfStatement")], LanguageKind::Js),
        exists: vec![false],
        existing_files: vec![],
    };
    let run = generate_formatters(&repo, &vec![input("a/src"), input("b/src")]);
    assert!(run.refused.is_none());
    assert_eq!(run.outputs.len(), 2);
    let run = generate_formatters(&repo, &vec![input("a/src")]);
    assert!(run.outputs[0].as_ref().unwrap().stage.is_empty());
    let repo = GitRepo::open(&vec![], &statuses);
    let run = generate_formatters(&repo, &vec![input("a/src"), input("b/src"), input("c/src")]);
    assert_eq!(run.outputs.len(), 1);
    assert!(run.outputs[0].is_some());
    let err = run.refused.unwrap();
    assert_eq!(err.kind, CheckFailure::Staged);
    assert_eq!(err.path, p("b/src/js/mod.rs"));
    assert_eq!(err.flag(), "--allow-staged");
    assert_eq!(
        err.message("/repo/b/src/js/mod.rs"),
        "Codegen would overwrite '/repo/b/src/js/mod.rs' but it has uncommitted changes. Commit the file to git, or pass --allow-staged to the command to proceed anyway"
    );
}

#[test]
fn generate_formatters_skips_missing_crates() {
    let statuses = vec![StatusEntry { path: "b/src/js/mod.rs".to_string(), status: 256 }];
    let repo = GitRepo::open(&vec![], &statuses);
    let missing = FormatterInput {
        crate_exists: false,
        src_root: p("b/src"),
        plans: plan_nodes(&vec![entry(NodeKind::Node, "JsIfStatement")], LanguageKind::Js),
        exists: vec![false],
        existing_files: vec![],
    };
    let run = generate_formatters(&repo, &vec![missing]);
    assert!(run.refused.is_none());
    assert_eq!(run.outputs.len(), 1);
    assert!(run.outputs[0].is_none());
}

#[test]
fn flags_and_statuses() {
    let flags = parse_codegen_flags(&strings(&["codegen", "--allow-dirty"]));
    assert!(flags.allow_dirty);
    assert!(!flags.allow_staged);
    assert_eq!(classify_status(0), StatusClass::Current);
    assert_eq!(classify_status(16), StatusClass::Staged);
    assert_eq!(classify_status(3), StatusClass::Dirty);
    assert_eq!(classify_status(128), StatusClass::Dirty);
    let statuses = vec![
        StatusEntry { path: "a/b".to_string(), status: 1 },
        StatusEntry { path: "c/".to_string(), status: 128 },
        StatusEntry { path: "d".to_string(), status: 0 },
    ];
    let repo = GitRepo::open(&vec![], &statuses);
    assert_eq!(repo.staged, vec![p("a/b")]);
    assert_eq!(repo.dirty, vec![p("c")]);
    assert_eq!(repo.check_path(&p("c")).unwrap_err().kind, CheckFailure::Dirty);
    assert_eq!(repo.check_path(&p("a/b")).unwrap_err().kind, CheckFailure::Staged);
    assert!(repo.check_path(&p("d")).is_ok());
    let repo = GitRepo::open(&strings(&["--allow-staged", "--allow-dirty"]), &statuses);
    assert!(repo.staged.is_empty() && repo.dirty.is_empty());
    assert!(repo.stage_paths(&vec![p("x")]).is_empty());
}

#[test]
fn string_order_and_paths() {
    assert_eq!(compare_str("a", "b"), Comparison::Less);
    assert_eq!(compare_str("ab", "a"), Comparison::Greater);
    assert_eq!(compare_str("same", "same"), Comparison::Equal);
    assert_eq!(compare_str("Z", "a"), Comparison::Less);
    let mut v = strings(&["b", "d"]);
    sorted_insert(&mut v, "c");
    sorted_insert(&mut v, "a");
    sorted_insert(&mut v, "d");
    assert_eq!(v, strings(&["a", "b", "c", "d"]));
    assert_eq!(file_stem("mod.rs"), "mod");
    assert_eq!(file_stem("archive.tar.gz"), "archive.tar");
    assert_eq!(file_stem(".hidden"), ".hidden");
    assert_eq!(file_stem("plain"), "plain");
    assert_eq!(split_path("a//b/"), p("a/b"));
    assert_eq!(strip_prefix(&p("a/b/c"), &p("a")), Some(p("b/c")));
    assert_eq!(strip_prefix(&p("a/b/c"), &p("b")), None);
}
