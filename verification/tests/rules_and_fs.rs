use biome_tools::binding::{
    array_element_expectations, binding_pattern_parser, check_identifier_binding,
    check_object_rest_target, is_nth_at_identifier_binding, object_property_expectations,
    object_rest_error, property_pattern_kind, BindingCheck, BindingState, PatternParser,
    PatternStart, PropertyLookahead, PropertyPatternKind, RestTarget, SourceRange,
};
use biome_tools::fs::{
    changed_files_args, changed_files_from_output, changed_files_from_stdout, error_kind_of_file_type,
    memory_paths, path_kind_from_metadata, start_traversal, staged_files_args, traversal_step, unknown_file_type_warning,
    FileKind, FileVersion, FsErrorKind, MetadataInfo, PathKind, Severity, TraversalAction,
    TraversalEvent, TraversalState,
};
use biome_tools::lint::{
    has_no_lowercase, is_empty_export, is_id_and_string_literal_inner_text_equal, no_restricted_types,
    no_restricted_types_fix, no_shouty_constants_fix, no_shouty_constants_signal,
    no_useless_empty_export, restricted_type_fix_message, use_semantic_elements,
    use_semantic_elements_message, ModuleItem, ReferenceParent, RestrictedType, RestrictedTypes,
    RoleElements, ShoutyDeclarator, ShoutyFix,
};

fn p(s: &str) -> Vec<String> {
    s.split('/').map(|c| c.to_string()).collect()
}

fn range(start: u32, end: u32) -> SourceRange {
    SourceRange { start, end }
}

#[test]
fn shouty_constant_text() {
    assert!(is_id_and_string_literal_inner_text_equal("FOO", "FOO"));
    assert!(is_id_and_string_literal_inner_text_equal("FOO_1", "FOO_1"));
    assert!(is_id_and_string_literal_inner_text_equal("a", "a"));
    assert!(!is_id_and_string_literal_inner_text_equal("a", "b"));
    assert!(!is_id_and_string_literal_inner_text_equal("FOO", "FOOO"));
    assert!(is_id_and_string_literal_inner_text_equal("Foo", "Foo"));
    assert!(!has_no_lowercase("Foo"));
    assert!(has_no_lowercase("FOO_1"));
}

fn declarator(is_const: bool, exported: bool, references: usize) -> ShoutyDeclarator {
    ShoutyDeclarator {
        is_const,
        binding_name: Some("FOO".to_string()),
        literal_text: Some("FOO".to_string()),
        exported,
        reference_count: references,
    }
}

#[test]
fn shouty_constant_reported_only_for_local_const_used_once() {
    // const FOO = "FOO"; console.log(FOO);
    assert!(no_shouty_constants_signal(&declarator(true, false, 1)));
    // let FOO = "FOO";
    assert!(!no_shouty_constants_signal(&declarator(false, false, 1)));
    // export const FOO = "FOO";
    assert!(!no_shouty_constants_signal(&declarator(true, true, 1)));
    assert!(!no_shouty_constants_signal(&declarator(true, false, 2)));
    assert!(!no_shouty_constants_signal(&declarator(true, false, 0)));
    let mut d = declarator(true, false, 1);
    d.literal_text = None;
    assert!(!no_shouty_constants_signal(&d));
    assert_eq!(no_shouty_constants_fix(ReferenceParent::IdentifierExpression), Some(ShoutyFix::InlineLiteral));
    assert_eq!(no_shouty_constants_fix(ReferenceParent::ShorthandProperty), Some(ShoutyFix::ExpandProperty));
    assert_eq!(no_shouty_constants_fix(ReferenceParent::Other), None);
}

#[test]
fn useless_empty_export_examples() {
    let empty = ModuleItem::Export { empty: true };
    // import { A } from "module"; export {};
    assert_eq!(no_useless_empty_export(&vec![ModuleItem::Import, empty], 1), Some(0));
    // export const A = 0; export {};
    assert_eq!(no_useless_empty_export(&vec![ModuleItem::Export { empty: false }, empty], 1), Some(0));
    // export {};
    assert_eq!(no_useless_empty_export(&vec![empty], 0), None);
    // let a; export {};
    assert_eq!(no_useless_empty_export(&vec![ModuleItem::Statement, empty], 1), None);
    // export {}; export {}; only the first is reported, by the second.
    assert_eq!(no_useless_empty_export(&vec![empty, empty], 0), Some(1));
    assert_eq!(no_useless_empty_export(&vec![empty, empty], 1), None);
    // A non-empty export is never reported.
    assert_eq!(no_useless_empty_export(&vec![ModuleItem::Import, ModuleItem::Export { empty: false }], 1), None);
    assert!(is_empty_export(Some(0)));
    assert!(!is_empty_export(Some(2)));
    assert!(!is_empty_export(None));
}

#[test]
fn restricted_types_lookup_and_fix() {
    let options = RestrictedTypes {
        types: vec![
            RestrictedType {
                name: "Foo".to_string(),
                message: "Only bar is allowed".to_string(),
                use_instead: Some("bar".to_string()),
            },
            RestrictedType {
                name: "OldAPI".to_string(),
                message: "Use NewAPI instead".to_string(),
                use_instead: None,
            },
            RestrictedType {
                name: "Bad".to_string(),
                message: "no".to_string(),
                use_instead: Some("custom-id".to_string()),
            },
        ],
    };
    let report = no_restricted_types(&options, "Foo").unwrap();
    assert_eq!(report.message, "Only bar is allowed");
    assert_eq!(no_restricted_types_fix(&report), Some("bar".to_string()));
    let report = no_restricted_types(&options, "OldAPI").unwrap();
    assert_eq!(report.message, "Use NewAPI instead");
    assert_eq!(no_restricted_types_fix(&report), None);
    let report = no_restricted_types(&options, "Bad").unwrap();
    assert_eq!(no_restricted_types_fix(&report), None);
    assert!(no_restricted_types(&options, "Other").is_none());
    assert_eq!(restricted_type_fix_message("bar"), "Use 'bar' instead");
}

#[test]
fn semantic_elements_decision() {
    let checkbox = Some(RoleElements { base: vec!["input".to_string()], related: vec![] });
    assert!(use_semantic_elements("checkbox", &checkbox));
    assert!(!use_semantic_elements("img", &checkbox));
    assert!(!use_semantic_elements("unknown", &None));
    let none = Some(RoleElements { base: vec![], related: vec![] });
    assert!(!use_semantic_elements("generic", &none));
    let separator = RoleElements { base: vec!["hr".to_string()], related: vec!["li".to_string()] };
    assert_eq!(
        use_semantic_elements_message(&separator),
        "The elements with this role can be changed to the following elements:\nhr\nli"
    );
}

#[test]
fn identifier_binding_validation() {
    let mut strict = BindingState { strict_mode: true, duplicate_binding_parent: None, name_map: vec![] };
    match check_identifier_binding(&mut strict, "eval", range(0, 4)) {
        BindingCheck::StrictModeName { message } => {
            assert_eq!(message, "Illegal use of `eval` as an identifier in strict mode")
        },
        other => panic!("unexpected {:?}", other),
    }
    assert!(matches!(check_identifier_binding(&mut strict, "value", range(0, 5)), BindingCheck::Valid));
    assert!(strict.name_map.is_empty());

    let mut decl = BindingState {
        strict_mode: false,
        duplicate_binding_parent: Some("let".to_string()),
        name_map: vec![],
    };
    match check_identifier_binding(&mut decl, "let", range(4, 7)) {
        BindingCheck::LetName { message, hint } => {
            assert_eq!(message, "`let` cannot be declared as a variable name inside of a `let` declaration");
            assert_eq!(hint, "Rename the let identifier here");
        },
        other => panic!("unexpected {:?}", other),
    }
    assert!(matches!(check_identifier_binding(&mut decl, "a", range(4, 5)), BindingCheck::Valid));
    assert!(matches!(check_identifier_binding(&mut decl, "eval", range(7, 11)), BindingCheck::Valid));
    match check_identifier_binding(&mut decl, "a", range(9, 10)) {
        BindingCheck::Duplicate { message, detail, first, first_detail } => {
            assert_eq!(message, "Declarations inside of a `let` declaration may not have duplicates");
            assert_eq!(detail, "a second declaration of `a` is not allowed");
            assert_eq!(first, range(4, 5));
            assert_eq!(first_detail, "`a` is first declared here");
        },
        other => panic!("unexpected {:?}", other),
    }
    assert_eq!(decl.name_map.len(), 2);
}

#[test]
fn binding_pattern_shapes() {
    assert_eq!(check_object_rest_target(RestTarget::IdentifierBinding).make_bogus, false);
    let r = check_object_rest_target(RestTarget::OtherPattern);
    assert!(r.report && r.make_bogus);
    let r = check_object_rest_target(RestTarget::BogusBinding);
    assert!(!r.report && r.make_bogus);
    assert_eq!(object_rest_error().0, "Expected identifier binding");
    let look = PropertyLookahead {
        at_object_member_name: true,
        at_metavariable: false,
        at_identifier_binding: true,
        at_colon: false,
        at_eq: false,
        next_is_colon: false,
    };
    assert_eq!(property_pattern_kind(look), Some(PropertyPatternKind::Shorthand));
    let with_colon = PropertyLookahead { next_is_colon: true, ..look };
    assert_eq!(property_pattern_kind(with_colon), Some(PropertyPatternKind::Property));
    let nothing = PropertyLookahead { at_object_member_name: false, at_identifier_binding: false, ..look };
    assert_eq!(property_pattern_kind(nothing), None);
    let eq = PropertyLookahead { at_eq: true, ..nothing };
    assert_eq!(property_pattern_kind(eq), Some(PropertyPatternKind::Shorthand));
    assert_eq!(binding_pattern_parser(PatternStart::LBracket, false), PatternParser::ArrayPattern);
    assert_eq!(binding_pattern_parser(PatternStart::LBrace, true), PatternParser::ObjectPattern);
    assert_eq!(binding_pattern_parser(PatternStart::LBrace, false), PatternParser::IdentifierBinding);
    assert!(is_nth_at_identifier_binding(false, true));
    assert_eq!(array_element_expectations(), vec!["identifier", "object pattern", "array pattern", "rest pattern"]);
    assert_eq!(object_property_expectations(), vec!["identifier", "member name", "rest pattern"]);
}

#[test]
fn path_kinds_from_metadata() {
    let dir = MetadataInfo { is_dir: true, is_file: false, is_symlink: true };
    assert_eq!(path_kind_from_metadata(Ok(dir), "a").unwrap(), PathKind::Directory { is_symlink: true });
    let link = MetadataInfo { is_dir: false, is_file: false, is_symlink: true };
    assert_eq!(path_kind_from_metadata(Ok(link), "a").unwrap(), PathKind::File { is_symlink: true });
    let other = MetadataInfo { is_dir: false, is_file: false, is_symlink: false };
    let err = path_kind_from_metadata(Ok(other), "a").unwrap_err();
    assert_eq!(err.error_kind, FsErrorKind::UnknownFileType);
    assert_eq!(err.severity, Severity::Error);
    let err = path_kind_from_metadata(Err("denied".to_string()), "b").unwrap_err();
    assert_eq!(err.error_kind, FsErrorKind::CantReadFile);
    assert_eq!(err.path, "b");
    assert_eq!(err.source, Some("denied".to_string()));
    assert_eq!(error_kind_of_file_type(), FsErrorKind::UnknownFileType);
}

#[test]
fn traversal_of_a_symlinked_file_behind_origin() {
    let (s, a) = start_traversal(p("r/link"), FileKind::Symlink, Some(p("o")));
    assert!(matches!(a, TraversalAction::Intern(ref x) if *x == p("r/link")));
    let (s, a) = traversal_step(s, TraversalEvent::Answer(true));
    assert!(matches!(a, TraversalAction::CanHandle(ref x) if *x == p("r/link")));
    let (s, a) = traversal_step(s, TraversalEvent::Answer(true));
    assert!(matches!(a, TraversalAction::Expand(_)));
    let (s, a) = traversal_step(s, TraversalEvent::Expanded(Some((p("t/file.js"), FileKind::File))));
    assert!(matches!(a, TraversalAction::Intern(ref x) if *x == p("t/file.js")));
    let (s, a) = traversal_step(s, TraversalEvent::Answer(true));
    assert!(matches!(a, TraversalAction::CanHandle(ref x) if *x == p("o/file.js")));
    let (s, a) = traversal_step(s, TraversalEvent::Answer(true));
    assert!(matches!(a, TraversalAction::Store(ref x) if *x == p("t/file.js")));
    assert!(matches!(s, TraversalState::Finished));
}

#[test]
fn traversal_of_directories_and_skips() {
    let (s, _) = start_traversal(p("d"), FileKind::Directory, None);
    let (s, a) = traversal_step(s, TraversalEvent::Answer(true));
    assert!(matches!(a, TraversalAction::CanHandle(_)));
    let (s, a) = traversal_step(s, TraversalEvent::Answer(true));
    assert!(matches!(a, TraversalAction::SpawnDir { ref path, origin: None } if *path == p("d")));
    let (s, a) = traversal_step(s, TraversalEvent::Done);
    assert!(matches!(a, TraversalAction::StoresDirs));
    let (s, a) = traversal_step(s, TraversalEvent::Answer(true));
    assert!(matches!(a, TraversalAction::Store(_)));
    assert!(matches!(s, TraversalState::Finished));
    // Already interned: nothing to do.
    let (s, _) = start_traversal(p("f"), FileKind::File, None);
    let (_, a) = traversal_step(s, TraversalEvent::Answer(false));
    assert!(matches!(a, TraversalAction::Stop));
    // A symbolic link to a directory is traversed under the link.
    let (s, _) = start_traversal(p("l"), FileKind::Symlink, None);
    let (s, _) = traversal_step(s, TraversalEvent::Answer(true));
    let (s, _) = traversal_step(s, TraversalEvent::Answer(true));
    let (s, _) = traversal_step(s, TraversalEvent::Expanded(Some((p("t"), FileKind::Directory))));
    let (_, a) = traversal_step(s, TraversalEvent::Answer(true));
    assert!(matches!(a, TraversalAction::SpawnDir { ref path, origin: Some(ref o) } if *path == p("t") && *o == p("l")));
    // A broken link is reported.
    let (s, _) = start_traversal(p("l"), FileKind::Symlink, None);
    let (s, _) = traversal_step(s, TraversalEvent::Answer(true));
    let (s, _) = traversal_step(s, TraversalEvent::Answer(true));
    let (_, a) = traversal_step(s, TraversalEvent::Expanded(None));
    assert!(matches!(a, TraversalAction::ReportExpandError));
    // A socket is an unknown file type.
    let (s, _) = start_traversal(p("sock"), FileKind::Other, None);
    let (s, _) = traversal_step(s, TraversalEvent::Answer(true));
    let (_, a) = traversal_step(s, TraversalEvent::Answer(true));
    assert!(matches!(a, TraversalAction::ReportUnknownFileType(_)));
}

#[test]
fn git_output_and_arguments() {
    assert_eq!(changed_files_from_output("a.js\nb/c.ts\r\n"), vec!["a.js".to_string(), "b/c.ts".to_string()]);
    assert_eq!(changed_files_from_output("x\n\ny"), vec!["x".to_string(), "".to_string(), "y".to_string()]);
    assert!(changed_files_from_output("").is_empty());
    assert_eq!(changed_files_from_output("foo\r\nbaz\r"), vec!["foo".to_string(), "baz\r".to_string()]);
    assert_eq!(changed_files_from_stdout(b"one\ntwo\n"), vec!["one".to_string(), "two".to_string()]);
    assert_eq!(changed_files_from_stdout(&[0x61, 0xff, 0x0a]), vec!["a\u{fffd}".to_string()]);
    assert_eq!(
        changed_files_args("main"),
        vec!["diff", "--name-only", "--relative", "--diff-filter=ACMR", "main...HEAD"]
    );
    assert_eq!(
        staged_files_args(),
        vec!["diff", "--name-only", "--relative", "--staged", "--diff-filter=ACMR"]
    );
}

#[test]
fn file_versions_and_memory_paths() {
    let mut v = FileVersion::new();
    v.record_write();
    v.record_write();
    assert_eq!(v.file_version(), 2);
    let files = vec![p("tmp/proj/a.js"), p("tmp/proj/src/b.js")];
    assert_eq!(memory_paths(&files, &p("tmp/proj")), Some(vec![p("a.js"), p("src/b.js")]));
    assert_eq!(memory_paths(&files, &p("tmp/other")), None);
}

#[test]
fn unknown_file_type_is_a_warning() {
    let d = unknown_file_type_warning("/tmp/fifo");
    assert_eq!(d.path, "/tmp/fifo");
    assert_eq!(d.severity, Severity::Warning);
    assert_eq!(d.error_kind, FsErrorKind::UnknownFileType);
    assert!(d.source.is_none());
}
