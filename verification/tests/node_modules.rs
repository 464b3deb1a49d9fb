use biome_tools::language::{all_language_kinds, LanguageKind};
use biome_tools::node::{
    dialect_prefix, get_node_concept, name_to_module, snake_case, NodeConcept, NodeDialect, NodeKind,
};

fn module(kind: NodeKind, name: &str, language: LanguageKind) -> (NodeDialect, NodeConcept, String) {
    let info = name_to_module(&kind, name, language);
    (info.dialect, info.concept, info.name)
}

#[test]
fn js_statement_module() {
    let (d, c, n) = module(NodeKind::Node, "JsIfStatement", LanguageKind::Js);
    assert_eq!(d, NodeDialect::Js);
    assert_eq!(c, NodeConcept::Statement);
    assert_eq!(n, "if_statement");
}

#[test]
fn any_union_module_skips_any_prefix() {
    let kind = NodeKind::Union { variants: vec!["JsArrayExpression".to_string()] };
    let (d, c, n) = module(kind, "AnyJsExpression", LanguageKind::Js);
    assert_eq!(d, NodeDialect::Js);
    assert_eq!(c, NodeConcept::Union);
    assert_eq!(n, "expression");
}

#[test]
fn keyword_module_names_get_prefix() {
    let (d, c, n) = module(NodeKind::Node, "TsEnum", LanguageKind::Js);
    assert_eq!(d, NodeDialect::Ts);
    assert_eq!(c, NodeConcept::Auxiliary);
    assert_eq!(n, "ts_enum");
    let (_, _, n) = module(NodeKind::Node, "TsType", LanguageKind::Js);
    assert_eq!(n, "ts_type");
}

#[test]
fn jsx_tags_and_attributes() {
    let (d, c, n) = module(NodeKind::Node, "JsxSelfClosingElement", LanguageKind::Js);
    assert_eq!(d, NodeDialect::Jsx);
    assert_eq!(c, NodeConcept::Tag);
    assert_eq!(n, "self_closing_element");
    let (_, c, _) = module(NodeKind::Node, "JsxSpreadAttribute", LanguageKind::Js);
    assert_eq!(c, NodeConcept::Attribute);
    // Outside JSX the same names are auxiliary.
    let (_, c, _) = module(NodeKind::Node, "JsSpreadAttributeX", LanguageKind::Js);
    assert_eq!(c, NodeConcept::Auxiliary);
}

#[test]
fn kinds_decide_special_concepts() {
    let (_, c, _) = module(NodeKind::Bogus, "JsBogusStatement", LanguageKind::Js);
    assert_eq!(c, NodeConcept::Bogus);
    let (_, c, n) = module(NodeKind::List { separated: true }, "JsArrayElementList", LanguageKind::Js);
    assert_eq!(c, NodeConcept::List);
    assert_eq!(n, "array_element_list");
}

#[test]
fn concepts_per_language() {
    let node = NodeKind::Node;
    let js = NodeDialect::Js;
    assert_eq!(get_node_concept(&node, &js, &LanguageKind::Js, "ArrayBindingPatternElement"), NodeConcept::Binding);
    assert_eq!(get_node_concept(&node, &js, &LanguageKind::Js, "ObjectAssignmentPatternProperty"), NodeConcept::Assignment);
    assert_eq!(get_node_concept(&node, &js, &LanguageKind::Js, "AssignmentWithDefault"), NodeConcept::Assignment);
    assert_eq!(get_node_concept(&node, &js, &LanguageKind::Js, "ImportDefaultClause"), NodeConcept::Module);
    assert_eq!(get_node_concept(&node, &js, &LanguageKind::Js, "ModuleSource"), NodeConcept::Module);
    assert_eq!(get_node_concept(&node, &js, &LanguageKind::Js, "ExtendsClause"), NodeConcept::Class);
    assert_eq!(get_node_concept(&node, &js, &LanguageKind::Js, "PropertyClassMember"), NodeConcept::Class);
    assert_eq!(get_node_concept(&node, &js, &LanguageKind::Js, "ShorthandPropertyObjectMember"), NodeConcept::Object);
    assert_eq!(get_node_concept(&node, &js, &LanguageKind::Js, "NonNull"), NodeConcept::Expression);
    assert_eq!(get_node_concept(&node, &js, &LanguageKind::Js, "CallArguments"), NodeConcept::Expression);
    assert_eq!(get_node_concept(&node, &js, &LanguageKind::Js, "ExternalModuleRef"), NodeConcept::Module);
    assert_eq!(get_node_concept(&node, &js, &LanguageKind::Js, "StringType"), NodeConcept::Type);
    assert_eq!(get_node_concept(&node, &js, &LanguageKind::Js, "Directive"), NodeConcept::Auxiliary);
    assert_eq!(get_node_concept(&node, &js, &LanguageKind::Json, "NumberValue"), NodeConcept::Value);
    assert_eq!(get_node_concept(&node, &js, &LanguageKind::Css, "MediaAtRule"), NodeConcept::Statement);
    assert_eq!(get_node_concept(&node, &js, &LanguageKind::Css, "PseudoClassFunction"), NodeConcept::Pseudo);
    assert_eq!(get_node_concept(&node, &js, &LanguageKind::Css, "GenericProperty"), NodeConcept::Property);
    assert_eq!(get_node_concept(&node, &js, &LanguageKind::Css, "Ratio"), NodeConcept::Value);
    assert_eq!(get_node_concept(&node, &js, &LanguageKind::Css, "RegularDimension"), NodeConcept::Value);
    assert_eq!(get_node_concept(&node, &js, &LanguageKind::Graphql, "ObjectTypeExtension"), NodeConcept::Extension);
    assert_eq!(get_node_concept(&node, &js, &LanguageKind::Graphql, "OperationDefinition"), NodeConcept::Definition);
    assert_eq!(get_node_concept(&node, &js, &LanguageKind::Grit, "PatternWhere"), NodeConcept::Pattern);
    assert_eq!(get_node_concept(&node, &js, &LanguageKind::Grit, "PredicateAnd"), NodeConcept::Predicate);
    assert_eq!(get_node_concept(&node, &js, &LanguageKind::Grit, "FunctionDefinition"), NodeConcept::Declaration);
    assert_eq!(get_node_concept(&node, &js, &LanguageKind::Grit, "CodeSnippet"), NodeConcept::Value);
    assert_eq!(get_node_concept(&node, &js, &LanguageKind::Html, "AttributeValue"), NodeConcept::Value);
    assert_eq!(get_node_concept(&node, &js, &LanguageKind::Yaml, "AnythingValue"), NodeConcept::Auxiliary);
    assert_eq!(get_node_concept(&node, &js, &LanguageKind::Markdown, "Paragraph"), NodeConcept::Auxiliary);
    assert_eq!(get_node_concept(&node, &js, &LanguageKind::Tailwind, "TW_CANDIDATE"), NodeConcept::Expression);
}

#[test]
fn dialect_and_concept_directories() {
    let all = NodeDialect::all();
    let dirs: Vec<&str> = all.iter().map(|d| d.as_str()).collect();
    assert_eq!(dirs, vec!["js", "ts", "jsx", "json", "css", "grit", "graphql", "html"]);
    assert_eq!(NodeDialect::Astro.as_str(), "astro");
    assert_eq!(NodeDialect::from_str("Graphql"), NodeDialect::Graphql);
    assert_eq!(NodeDialect::from_str("Jsx"), NodeDialect::Jsx);
    assert_eq!(NodeDialect::from_str("Unknown"), NodeDialect::Js);
    assert!(NodeDialect::Jsx.is_jsx());
    assert!(!NodeDialect::Js.is_jsx());
    assert_eq!(NodeConcept::Union.as_str(), "any");
    assert_eq!(NodeConcept::Property.as_str(), "properties");
    assert_eq!(NodeConcept::Module.as_str(), "module");
}

#[test]
fn snake_case_of_names() {
    assert_eq!(snake_case("IfStatement"), "if_statement");
    assert_eq!(snake_case("URLValue"), "u_r_l_value");
    assert_eq!(snake_case("x"), "x");
    assert_eq!(snake_case(""), "");
}

#[test]
fn language_identifiers() {
    assert_eq!(LanguageKind::Markdown.formatter_ident(), "DemoFormatter");
    assert_eq!(LanguageKind::Markdown.format_context_ident(), "DemoFormatterContext");
    assert_eq!(LanguageKind::Css.format_context_ident(), "CssFormatContext");
    assert_eq!(all_language_kinds().len(), 9);
}

#[test]
fn dialect_prefixes_known_and_missing() {
    assert_eq!(dialect_prefix("JsIfStatement"), "Js");
    assert_eq!(dialect_prefix("AnyTsType"), "Ts");
    assert_eq!(dialect_prefix("MdParagraph"), "Md");
    assert!(NodeDialect::is_known_prefix("Jsx"));
    assert!(NodeDialect::is_known_prefix("Svelte"));
    assert!(!NodeDialect::is_known_prefix("Md"));
    assert_eq!(NodeDialect::from_str("Md"), NodeDialect::Js);
}

#[test]
fn concept_directories_are_plain_words() {
    assert_eq!(NodeConcept::Union.as_str(), "any");
    assert_eq!(NodeConcept::Module.as_str(), "module");
    assert_eq!(NodeConcept::Property.as_str(), "properties");
    for c in [NodeConcept::Type, NodeConcept::Class, NodeConcept::Extension] {
        assert!(c.as_str().chars().all(|ch| ch.is_ascii_lowercase()));
    }
}
