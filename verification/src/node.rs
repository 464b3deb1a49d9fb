//! Classification of syntax node types into formatter modules:
//! the dialect directory, the concept directory and the module name of the
//! file that holds the formatting rule of each node type.
use vstd::prelude::*;
use vstd::string::*;
use crate::language::LanguageKind;
use crate::text::{
    ascii_lower,
    char_is_uppercase, char_lowercase, contains, ends_with, is_lowercase, is_uppercase, push_char,
    seq_contains, seq_ends_with, seq_starts_with, starts_with, str_eq, to_lowercase, char_is_lowercase, owned,
};

verus! {

/// The shape of a syntax node type in the grammar.
#[derive(Clone, Debug)]
pub enum NodeKind {
    Node,
    List { separated: bool },
    Bogus,
    Union { variants: Vec<String> },
}

/// The dialect a node type belongs to, named by the prefix of its name.
#[derive(Clone, Copy, Debug, PartialEq, Eq, Structural)]
pub enum NodeDialect {
    Js,
    Ts,
    Jsx,
    Json,
    Css,
    Grit,
    Graphql,
    Html,
    Astro,
    Svelte,
}

/// The concept a node type belongs to; it names a directory of modules.
#[derive(Clone, Copy, Debug, PartialEq, Eq, Structural)]
pub enum NodeConcept {
    Bogus,
    List,
    Union,
    /// - auxiliary (everything else)
    Auxiliary,
    Expression,
    Statement,
    Declaration,
    Object,
    Class,
    Assignment,
    Binding,
    Type,
    /// - module (import /export)
    Module,
    Tag,
    Attribute,
    Value,
    Pseudo,
    Selector,
    Property,
    Pattern,
    Predicate,
    Definition,
    Extension,
}

/// The dialects whose directories exist in a formatter crate.
pub open spec fn spec_all_dialects() -> Seq<NodeDialect> {
    seq![
        NodeDialect::Js,
        NodeDialect::Ts,
        NodeDialect::Jsx,
        NodeDialect::Json,
        NodeDialect::Css,
        NodeDialect::Grit,
        NodeDialect::Graphql,
        NodeDialect::Html,
    ]
}

/// Directory name of a dialect.
pub open spec fn spec_dialect_dir(d: NodeDialect) -> Seq<char> {
    match d {
        NodeDialect::Js => "js"@,
        NodeDialect::Ts => "ts"@,
        NodeDialect::Jsx => "jsx"@,
        NodeDialect::Json => "json"@,
        NodeDialect::Css => "css"@,
        NodeDialect::Grit => "grit"@,
        NodeDialect::Graphql => "graphql"@,
        NodeDialect::Html => "html"@,
        NodeDialect::Astro => "astro"@,
        NodeDialect::Svelte => "svelte"@,
    }
}

/// The dialect named by a node-name prefix; an unknown prefix falls back to `Js`.
pub open spec fn spec_dialect_from_prefix(name: Seq<char>) -> NodeDialect {
    if name == "Jsx"@ {
        NodeDialect::Jsx
    } else if name == "Js"@ {
        NodeDialect::Js
    } else if name == "Ts"@ {
        NodeDialect::Ts
    } else if name == "Json"@ {
        NodeDialect::Json
    } else if name == "Css"@ {
        NodeDialect::Css
    } else if name == "Grit"@ {
        NodeDialect::Grit
    } else if name == "Graphql"@ {
        NodeDialect::Graphql
    } else if name == "Html"@ {
        NodeDialect::Html
    } else if name == "Astro"@ {
        NodeDialect::Astro
    } else if name == "Svelte"@ {
        NodeDialect::Svelte
    } else {
        NodeDialect::Js
    }
}

/// Whether a node-name prefix names a dialect.
pub open spec fn spec_known_prefix(name: Seq<char>) -> bool {
    ||| name == "Jsx"@
    ||| name == "Js"@
    ||| name == "Ts"@
    ||| name == "Json"@
    ||| name == "Css"@
    ||| name == "Grit"@
    ||| name == "Graphql"@
    ||| name == "Html"@
    ||| name == "Astro"@
    ||| name == "Svelte"@
}

impl NodeDialect {
    /// The dialects whose directories exist in a formatter crate
    /// (`Astro` and `Svelte` have none).
    pub fn all() -> (r: Vec<NodeDialect>)
        ensures
            r@ == spec_all_dialects(),
    {
        let r = vec![
            NodeDialect::Js,
            NodeDialect::Ts,
            NodeDialect::Jsx,
            NodeDialect::Json,
            NodeDialect::Css,
            NodeDialect::Grit,
            NodeDialect::Graphql,
            NodeDialect::Html,
        ];
        assert(r@ =~= spec_all_dialects());
        r
    }

    /// Whether this is the JSX dialect.
    pub fn is_jsx(&self) -> (r: bool)
        ensures
            r == (*self == NodeDialect::Jsx),
    {
        matches!(self, NodeDialect::Jsx)
    }

    /// Directory name of the dialect.
    pub fn as_str(&self) -> (r: &'static str)
        ensures
            r@ == spec_dialect_dir(*self),
    {
        match self {
            NodeDialect::Js => "js",
            NodeDialect::Ts => "ts",
            NodeDialect::Jsx => "jsx",
            NodeDialect::Json => "json",
            NodeDialect::Css => "css",
            NodeDialect::Grit => "grit",
            NodeDialect::Graphql => "graphql",
            NodeDialect::Html => "html",
            NodeDialect::Astro => "astro",
            NodeDialect::Svelte => "svelte",
        }
    }

    /// Whether a node-name prefix names a dialect; `from_str` reads any
    /// other prefix as `Js`, and the generator reports it as missing.
    pub fn is_known_prefix(name: &str) -> (r: bool)
        ensures
            r == spec_known_prefix(name@),
    {
        str_eq(name, "Jsx") || str_eq(name, "Js") || str_eq(name, "Ts") || str_eq(name, "Json")
            || str_eq(name, "Css") || str_eq(name, "Grit") || str_eq(name, "Graphql") || str_eq(
            name,
            "Html",
        ) || str_eq(name, "Astro") || str_eq(name, "Svelte")
    }

    /// The dialect named by a node-name prefix such as `Js` or `Jsx`;
    /// an unknown prefix gives `Js`.
    pub fn from_str(name: &str) -> (r: NodeDialect)
        ensures
            r == spec_dialect_from_prefix(name@),
    {
        if str_eq(name, "Jsx") {
            NodeDialect::Jsx
        } else if str_eq(name, "Js") {
            NodeDialect::Js
        } else if str_eq(name, "Ts") {
            NodeDialect::Ts
        } else if str_eq(name, "Json") {
            NodeDialect::Json
        } else if str_eq(name, "Css") {
            NodeDialect::Css
        } else if str_eq(name, "Grit") {
            NodeDialect::Grit
        } else if str_eq(name, "Graphql") {
            NodeDialect::Graphql
        } else if str_eq(name, "Html") {
            NodeDialect::Html
        } else if str_eq(name, "Astro") {
            NodeDialect::Astro
        } else if str_eq(name, "Svelte") {
            NodeDialect::Svelte
        } else {
            NodeDialect::Js
        }
    }
}

/// Directory name of a concept.
pub open spec fn spec_concept_dir(c: NodeConcept) -> Seq<char> {
    match c {
        NodeConcept::Expression => "expressions"@,
        NodeConcept::Statement => "statements"@,
        NodeConcept::Declaration => "declarations"@,
        NodeConcept::Object => "objects"@,
        NodeConcept::Class => "classes"@,
        NodeConcept::Assignment => "assignments"@,
        NodeConcept::Binding => "bindings"@,
        NodeConcept::Type => "types"@,
        NodeConcept::Module => "module"@,
        NodeConcept::Bogus => "bogus"@,
        NodeConcept::List => "lists"@,
        NodeConcept::Union => "any"@,
        NodeConcept::Tag => "tag"@,
        NodeConcept::Attribute => "attribute"@,
        NodeConcept::Auxiliary => "auxiliary"@,
        NodeConcept::Value => "value"@,
        NodeConcept::Pseudo => "pseudo"@,
        NodeConcept::Selector => "selectors"@,
        NodeConcept::Property => "properties"@,
        NodeConcept::Pattern => "patterns"@,
        NodeConcept::Predicate => "predicates"@,
        NodeConcept::Definition => "definitions"@,
        NodeConcept::Extension => "extensions"@,
    }
}

impl NodeConcept {
    /// Directory name of the concept.
    pub fn as_str(&self) -> (r: &'static str)
        ensures
            r@ == spec_concept_dir(*self),
    {
        match self {
            NodeConcept::Expression => "expressions",
            NodeConcept::Statement => "statements",
            NodeConcept::Declaration => "declarations",
            NodeConcept::Object => "objects",
            NodeConcept::Class => "classes",
            NodeConcept::Assignment => "assignments",
            NodeConcept::Binding => "bindings",
            NodeConcept::Type => "types",
            NodeConcept::Module => "module",
            NodeConcept::Bogus => "bogus",
            NodeConcept::List => "lists",
            NodeConcept::Union => "any",
            NodeConcept::Tag => "tag",
            NodeConcept::Attribute => "attribute",
            NodeConcept::Auxiliary => "auxiliary",
            NodeConcept::Value => "value",
            NodeConcept::Pseudo => "pseudo",
            NodeConcept::Selector => "selectors",
            NodeConcept::Property => "properties",
            NodeConcept::Pattern => "patterns",
            NodeConcept::Predicate => "predicates",
            NodeConcept::Definition => "definitions",
            NodeConcept::Extension => "extensions",
        }
    }
}

/// Concept of a plain JavaScript-family node type, by its name without prefix.
pub open spec fn spec_js_concept(dialect: NodeDialect, n: Seq<char>) -> NodeConcept {
    if seq_ends_with(n, "Statement"@) {
        NodeConcept::Statement
    } else if seq_ends_with(n, "Declaration"@) {
        NodeConcept::Declaration
    } else if seq_ends_with(n, "Expression"@) || seq_ends_with(n, "Argument"@) || seq_ends_with(
        n,
        "Arguments"@,
    ) {
        NodeConcept::Expression
    } else if seq_ends_with(n, "Binding"@) || seq_starts_with(n, "BindingPattern"@)
        || seq_starts_with(n, "ArrayBindingPattern"@) || seq_starts_with(
        n,
        "ObjectBindingPattern"@,
    ) || seq_ends_with(n, "Parameter"@) || seq_ends_with(n, "Parameters"@) {
        NodeConcept::Binding
    } else if seq_ends_with(n, "Assignment"@) || seq_starts_with(n, "ArrayAssignmentPattern"@)
        || seq_starts_with(n, "ObjectAssignmentPattern"@) {
        NodeConcept::Assignment
    } else if n == "AssignmentWithDefault"@ {
        NodeConcept::Assignment
    } else if seq_ends_with(n, "ImportSpecifier"@) || seq_ends_with(n, "ImportSpecifiers"@)
        || seq_starts_with(n, "Export"@) || seq_starts_with(n, "Import"@) {
        NodeConcept::Module
    } else if n == "Export"@ || n == "Import"@ || n == "ModuleSource"@ || n == "LiteralExportName"@ {
        NodeConcept::Module
    } else if seq_ends_with(n, "ClassMember"@) {
        NodeConcept::Class
    } else if n == "ExtendsClause"@ {
        NodeConcept::Class
    } else if seq_ends_with(n, "ObjectMember"@) || seq_ends_with(n, "MemberName"@) {
        NodeConcept::Object
    } else if n == "Assertion"@ || n == "ConstAssertion"@ || n == "NonNull"@ || n == "TypeArgs"@
        || n == "ExprWithTypeArgs"@ {
        NodeConcept::Expression
    } else if n == "ExternalModuleRef"@ || n == "ModuleRef"@ {
        NodeConcept::Module
    } else if seq_ends_with(n, "Type"@) {
        NodeConcept::Type
    } else if dialect == NodeDialect::Jsx && (seq_ends_with(n, "Element"@) || seq_ends_with(
        n,
        "Tag"@,
    ) || seq_ends_with(n, "Fragment"@)) {
        NodeConcept::Tag
    } else if dialect == NodeDialect::Jsx && seq_contains(n, "Attribute"@) {
        NodeConcept::Attribute
    } else {
        NodeConcept::Auxiliary
    }
}

/// Concept of a CSS node type.
pub open spec fn spec_css_concept(n: Seq<char>) -> NodeConcept {
    if seq_ends_with(n, "AtRule"@) {
        NodeConcept::Statement
    } else if seq_ends_with(n, "Selector"@) {
        NodeConcept::Selector
    } else if seq_contains(n, "Pseudo"@) {
        NodeConcept::Pseudo
    } else if seq_ends_with(n, "Property"@) {
        NodeConcept::Property
    } else if n == "Number"@ || n == "Percentage"@ || n == "Ratio"@ || n == "String"@ || n
        == "Color"@ || n == "Length"@ || n == "UrlValueRaw"@ || seq_ends_with(n, "Dimension"@)
        || seq_ends_with(n, "Identifier"@) {
        NodeConcept::Value
    } else {
        NodeConcept::Auxiliary
    }
}

/// Concept of a GraphQL node type.
pub open spec fn spec_graphql_concept(n: Seq<char>) -> NodeConcept {
    if seq_contains(n, "Extension"@) {
        NodeConcept::Extension
    } else if seq_ends_with(n, "Definition"@) {
        NodeConcept::Definition
    } else if seq_ends_with(n, "Value"@) {
        NodeConcept::Value
    } else {
        NodeConcept::Auxiliary
    }
}

/// Concept of a GritQL node type.
pub open spec fn spec_grit_concept(n: Seq<char>) -> NodeConcept {
    if seq_contains(n, "Operation"@) || seq_contains(n, "Pattern"@) {
        NodeConcept::Pattern
    } else if seq_contains(n, "Predicate"@) {
        NodeConcept::Predicate
    } else if seq_ends_with(n, "Definition"@) {
        NodeConcept::Declaration
    } else if n == "CodeSnippet"@ || seq_ends_with(n, "Literal"@) {
        NodeConcept::Value
    } else {
        NodeConcept::Auxiliary
    }
}

/// `Value` for names ending in "Value", `Auxiliary` for all others.
pub open spec fn spec_value_or_auxiliary(n: Seq<char>) -> NodeConcept {
    if seq_ends_with(n, "Value"@) {
        NodeConcept::Value
    } else {
        NodeConcept::Auxiliary
    }
}

/// Concept of a Tailwind node type.
pub open spec fn spec_tailwind_concept(n: Seq<char>) -> NodeConcept {
    if seq_ends_with(n, "Value"@) {
        NodeConcept::Value
    } else if n == "TW_CANDIDATE"@ {
        NodeConcept::Expression
    } else {
        NodeConcept::Auxiliary
    }
}

/// The concept of a node type: its kind decides for bogus nodes, lists and
/// unions; for plain nodes the language's naming conventions decide.
pub open spec fn spec_node_concept(
    kind: NodeKind,
    dialect: NodeDialect,
    language: LanguageKind,
    name: Seq<char>,
) -> NodeConcept {
    if kind is Bogus {
        NodeConcept::Bogus
    } else if kind is List {
        NodeConcept::List
    } else if kind is Union {
        NodeConcept::Union
    } else {
        match language {
            LanguageKind::Js => spec_js_concept(dialect, name),
            LanguageKind::Json => spec_value_or_auxiliary(name),
            LanguageKind::Markdown => NodeConcept::Auxiliary,
            LanguageKind::Css => spec_css_concept(name),
            LanguageKind::Graphql => spec_graphql_concept(name),
            LanguageKind::Grit => spec_grit_concept(name),
            LanguageKind::Html => spec_value_or_auxiliary(name),
            LanguageKind::Yaml => NodeConcept::Auxiliary,
            LanguageKind::Tailwind => spec_tailwind_concept(name),
        }
    }
}

fn js_concept(dialect: &NodeDialect, name: &str) -> (r: NodeConcept)
    ensures
        r == spec_js_concept(*dialect, name@),
{
    if ends_with(name, "Statement") {
        NodeConcept::Statement
    } else if ends_with(name, "Declaration") {
        NodeConcept::Declaration
    } else if ends_with(name, "Expression") || ends_with(name, "Argument") || ends_with(
        name,
        "Arguments",
    ) {
        NodeConcept::Expression
    } else if ends_with(name, "Binding") || starts_with(name, "BindingPattern") || starts_with(
        name,
        "ArrayBindingPattern",
    ) || starts_with(name, "ObjectBindingPattern") || ends_with(name, "Parameter") || ends_with(
        name,
        "Parameters",
    ) {
        NodeConcept::Binding
    } else if ends_with(name, "Assignment") || starts_with(name, "ArrayAssignmentPattern")
        || starts_with(name, "ObjectAssignmentPattern") {
        NodeConcept::Assignment
    } else if str_eq(name, "AssignmentWithDefault") {
        NodeConcept::Assignment
    } else if ends_with(name, "ImportSpecifier") || ends_with(name, "ImportSpecifiers")
        || starts_with(name, "Export") || starts_with(name, "Import") {
        NodeConcept::Module
    } else if str_eq(name, "Export") || str_eq(name, "Import") || str_eq(name, "ModuleSource")
        || str_eq(name, "LiteralExportName") {
        NodeConcept::Module
    } else if ends_with(name, "ClassMember") {
        NodeConcept::Class
    } else if str_eq(name, "ExtendsClause") {
        NodeConcept::Class
    } else if ends_with(name, "ObjectMember") || ends_with(name, "MemberName") {
        NodeConcept::Object
    } else if str_eq(name, "Assertion") || str_eq(name, "ConstAssertion") || str_eq(name, "NonNull")
        || str_eq(name, "TypeArgs") || str_eq(name, "ExprWithTypeArgs") {
        NodeConcept::Expression
    } else if str_eq(name, "ExternalModuleRef") || str_eq(name, "ModuleRef") {
        NodeConcept::Module
    } else if ends_with(name, "Type") {
        NodeConcept::Type
    } else if dialect.is_jsx() && (ends_with(name, "Element") || ends_with(name, "Tag")
        || ends_with(name, "Fragment")) {
        NodeConcept::Tag
    } else if dialect.is_jsx() && contains(name, "Attribute") {
        NodeConcept::Attribute
    } else {
        NodeConcept::Auxiliary
    }
}

fn css_concept(name: &str) -> (r: NodeConcept)
    ensures
        r == spec_css_concept(name@),
{
    if ends_with(name, "AtRule") {
        NodeConcept::Statement
    } else if ends_with(name, "Selector") {
        NodeConcept::Selector
    } else if contains(name, "Pseudo") {
        NodeConcept::Pseudo
    } else if ends_with(name, "Property") {
        NodeConcept::Property
    } else if str_eq(name, "Number") || str_eq(name, "Percentage") || str_eq(name, "Ratio")
        || str_eq(name, "String") || str_eq(name, "Color") || str_eq(name, "Length") || str_eq(
        name,
        "UrlValueRaw",
    ) || ends_with(name, "Dimension") || ends_with(name, "Identifier") {
        NodeConcept::Value
    } else {
        NodeConcept::Auxiliary
    }
}

fn graphql_concept(name: &str) -> (r: NodeConcept)
    ensures
        r == spec_graphql_concept(name@),
{
    if contains(name, "Extension") {
        NodeConcept::Extension
    } else if ends_with(name, "Definition") {
        NodeConcept::Definition
    } else if ends_with(name, "Value") {
        NodeConcept::Value
    } else {
        NodeConcept::Auxiliary
    }
}

fn grit_concept(name: &str) -> (r: NodeConcept)
    ensures
        r == spec_grit_concept(name@),
{
    if contains(name, "Operation") || contains(name, "Pattern") {
        NodeConcept::Pattern
    } else if contains(name, "Predicate") {
        NodeConcept::Predicate
    } else if ends_with(name, "Definition") {
        NodeConcept::Declaration
    } else if str_eq(name, "CodeSnippet") || ends_with(name, "Literal") {
        NodeConcept::Value
    } else {
        NodeConcept::Auxiliary
    }
}

fn value_or_auxiliary(name: &str) -> (r: NodeConcept)
    ensures
        r == spec_value_or_auxiliary(name@),
{
    if ends_with(name, "Value") {
        NodeConcept::Value
    } else {
        NodeConcept::Auxiliary
    }
}

fn tailwind_concept(name: &str) -> (r: NodeConcept)
    ensures
        r == spec_tailwind_concept(name@),
{
    if ends_with(name, "Value") {
        NodeConcept::Value
    } else if str_eq(name, "TW_CANDIDATE") {
        NodeConcept::Expression
    } else {
        NodeConcept::Auxiliary
    }
}

/// Classifies a node type, named without its dialect prefix, into a concept.
pub fn get_node_concept(
    kind: &NodeKind,
    dialect: &NodeDialect,
    language: &LanguageKind,
    name: &str,
) -> (r: NodeConcept)
    ensures
        r == spec_node_concept(*kind, *dialect, *language, name@),
{
    if matches!(kind, NodeKind::Bogus) {
        NodeConcept::Bogus
    } else if matches!(kind, NodeKind::List { .. }) {
        NodeConcept::List
    } else if matches!(kind, NodeKind::Union { .. }) {
        NodeConcept::Union
    } else {
        match language {
            LanguageKind::Js => js_concept(dialect, name),
            LanguageKind::Json => value_or_auxiliary(name),
            LanguageKind::Markdown => NodeConcept::Auxiliary,
            LanguageKind::Css => css_concept(name),
            LanguageKind::Graphql => graphql_concept(name),
            LanguageKind::Grit => grit_concept(name),
            LanguageKind::Html => value_or_auxiliary(name),
            LanguageKind::Yaml => NodeConcept::Auxiliary,
            LanguageKind::Tailwind => tailwind_concept(name),
        }
    }
}

/// Index of the first upper-case character of `s` at or after `from`,
/// or the length of `s` when there is none.
pub open spec fn first_upper_from(s: Seq<char>, from: int) -> int
    decreases s.len() - from,
{
    if from < 0 || from >= s.len() {
        s.len() as int
    } else if char_is_uppercase(s[from]) {
        from
    } else {
        first_upper_from(s, from + 1)
    }
}

/// The search for an upper-case character ends between its start and the end of `s`.
pub proof fn lemma_first_upper_bounds(s: Seq<char>, from: int)
    requires
        0 <= from <= s.len(),
    ensures
        from <= first_upper_from(s, from) <= s.len(),
    decreases s.len() - from,
{
    if from < s.len() && !char_is_uppercase(s[from]) {
        lemma_first_upper_bounds(s, from + 1);
    }
}

/// End of the leading word of a node name (the position of its second upper-case character).
pub open spec fn spec_first_word_end(s: Seq<char>) -> int {
    first_upper_from(s, 1)
}

/// Whether the leading word of a node name is `Any` (union types are named `AnyJsX`).
pub open spec fn spec_is_any_name(s: Seq<char>) -> bool {
    s.subrange(0, spec_first_word_end(s)) == "Any"@
}

/// Start of the dialect prefix in a node name.
pub open spec fn spec_prefix_start(s: Seq<char>) -> int {
    if spec_is_any_name(s) {
        spec_first_word_end(s)
    } else {
        0
    }
}

/// End of the dialect prefix in a node name.
pub open spec fn spec_prefix_end(s: Seq<char>) -> int {
    if spec_is_any_name(s) {
        first_upper_from(s, spec_first_word_end(s) + 1)
    } else {
        spec_first_word_end(s)
    }
}

/// The dialect prefix of a node name: `Js` in `JsIfStatement`, `Ts` in `AnyTsType`.
pub open spec fn spec_dialect_prefix(s: Seq<char>) -> Seq<char> {
    s.subrange(spec_prefix_start(s), spec_prefix_end(s))
}

/// The node name without its dialect prefix: `IfStatement` in `JsIfStatement`.
pub open spec fn spec_unprefixed_name(s: Seq<char>) -> Seq<char> {
    s.subrange(spec_prefix_end(s), s.len() as int)
}

/// Node names that `name_to_module` accepts: they start with an upper-case
/// character and hold a second one that ends the leading word; an `Any` name
/// holds a third one that ends the dialect prefix.
pub open spec fn spec_is_node_name(s: Seq<char>) -> bool {
    &&& s.len() > 0
    &&& char_is_uppercase(s[0])
    &&& spec_first_word_end(s) < s.len()
    &&& spec_is_any_name(s) ==> first_upper_from(s, spec_first_word_end(s) + 1) < s.len()
}

/// The snake_case piece that the character `c` at position `i` contributes.
pub open spec fn snake_piece(c: char, i: int) -> Seq<char> {
    if char_is_lowercase(c) {
        seq![c]
    } else if i > 0 {
        seq!['_'] + char_lowercase(c)
    } else {
        char_lowercase(c)
    }
}

/// snake_case of the first `n` characters of `s`: every character that is not
/// lower case is lowered and, unless it comes first, preceded by `_`.
pub open spec fn snake_prefix(s: Seq<char>, n: int) -> Seq<char>
    decreases n,
{
    if n <= 0 {
        Seq::empty()
    } else {
        snake_prefix(s, n - 1) + snake_piece(s[n - 1], n - 1)
    }
}

/// snake_case of a CamelCase name.
pub open spec fn spec_snake_case(s: Seq<char>) -> Seq<char> {
    snake_prefix(s, s.len() as int)
}

/// Module name of a node name without prefix: its snake_case, with the Rust
/// keywords `type` and `enum` turned into `ts_type` and `ts_enum`.
pub open spec fn spec_module_name(s: Seq<char>) -> Seq<char> {
    let stem = spec_snake_case(s);
    if stem == "type"@ {
        "ts_type"@
    } else if stem == "enum"@ {
        "ts_enum"@
    } else {
        stem
    }
}

/// Where the formatting rule of a node type lives.
#[derive(Clone, Debug)]
pub struct NodeModuleInformation {
    pub language: LanguageKind,
    pub dialect: NodeDialect,
    pub concept: NodeConcept,
    pub name: String,
}

/// Module information of a node type, as `name_to_module` computes it.
pub open spec fn spec_module_info_matches(
    info: NodeModuleInformation,
    kind: NodeKind,
    name: Seq<char>,
    language: LanguageKind,
) -> bool {
    let dialect = spec_dialect_from_prefix(spec_dialect_prefix(name));
    &&& info.language == language
    &&& info.dialect == dialect
    &&& info.concept == spec_node_concept(kind, dialect, language, spec_unprefixed_name(name))
    &&& info.name@ == spec_module_name(spec_unprefixed_name(name))
}

/// Position of the first upper-case character of `s` at or after `from`.
fn next_upper(s: &str, from: usize) -> (r: usize)
    requires
        from <= s@.len(),
    ensures
        r == first_upper_from(s@, from as int),
{
    let n = s.unicode_len();
    let mut i = from;
    while i < n
        invariant
            n == s@.len(),
            from <= i <= n,
            first_upper_from(s@, from as int) == first_upper_from(s@, i as int),
        decreases n - i,
    {
        if is_uppercase(s.get_char(i)) {
            return i;
        }
        i = i + 1;
    }
    i
}

/// snake_case of a CamelCase name.
pub fn snake_case(name: &str) -> (r: String)
    ensures
        r@ == spec_snake_case(name@),
{
    let m = name.unicode_len();
    let mut stem = String::new();
    let mut i: usize = 0;
    while i < m
        invariant
            m == name@.len(),
            i <= m,
            stem@ == snake_prefix(name@, i as int),
        decreases m - i,
    {
        let c = name.get_char(i);
        let ghost before = stem@;
        if is_lowercase(c) {
            push_char(&mut stem, c);
        } else {
            if i > 0 {
                push_char(&mut stem, '_');
            }
            let lowered = to_lowercase(c);
            stem.append(lowered.as_str());
        }
        assert(stem@ =~= before + snake_piece(c, i as int));
        i = i + 1;
    }
    stem
}

/// Whether `name_to_module` accepts a node name.
pub fn is_node_name(name: &str) -> (r: bool)
    ensures
        r == spec_is_node_name(name@),
{
    let n = name.unicode_len();
    if n == 0 || !is_uppercase(name.get_char(0)) {
        return false;
    }
    let first_end = next_upper(name, 1);
    if first_end >= n {
        return false;
    }
    if str_eq(name.substring_char(0, first_end), "Any") {
        next_upper(name, first_end + 1) < n
    } else {
        true
    }
}

/// The dialect prefix of a node name: `Js` in `JsIfStatement`, `Ts` in
/// `AnyTsType`.
pub fn dialect_prefix(in_name: &str) -> (r: String)
    requires
        spec_is_node_name(in_name@),
    ensures
        r@ == spec_dialect_prefix(in_name@),
{
    let n = in_name.unicode_len();
    let first_end = next_upper(in_name, 1);
    assert(first_end < n);
    if str_eq(in_name.substring_char(0, first_end), "Any") {
        let third = next_upper(in_name, first_end + 1);
        proof {
            lemma_first_upper_bounds(in_name@, first_end + 1);
        }
        String::from_str(in_name.substring_char(first_end, third))
    } else {
        String::from_str(in_name.substring_char(0, first_end))
    }
}

/// Converts a node type name such as `JsIfStatement` into the module that
/// holds its formatting rule: dialect `js`, concept `statements`, module
/// `if_statement`.
pub fn name_to_module(kind: &NodeKind, in_name: &str, language: LanguageKind) -> (r:
    NodeModuleInformation)
    requires
        spec_is_node_name(in_name@),
    ensures
        spec_module_info_matches(r, *kind, in_name@, language),
{
    let n = in_name.unicode_len();
    let first_end = next_upper(in_name, 1);
    let mut prefix_start: usize = 0;
    let mut prefix_end: usize = first_end;
    if str_eq(in_name.substring_char(0, first_end), "Any") {
        let third = next_upper(in_name, first_end + 1);
        proof {
            lemma_first_upper_bounds(in_name@, first_end + 1);
        }
        prefix_start = first_end;
        prefix_end = third;
    }
    let dialect_prefix = in_name.substring_char(prefix_start, prefix_end);
    let name = in_name.substring_char(prefix_end, n);
    let dialect = NodeDialect::from_str(dialect_prefix);
    let concept = get_node_concept(kind, &dialect, &language, name);
    let stem = snake_case(name);
    let stem = if str_eq(stem.as_str(), "type") {
        owned("ts_type")
    } else if str_eq(stem.as_str(), "enum") {
        owned("ts_enum")
    } else {
        stem
    };
    NodeModuleInformation { name: stem, language, dialect, concept }
}

/// `name` with its first character in ASCII upper case.
pub open spec fn capitalized(name: Seq<char>) -> Seq<char> {
    if name.len() > 0 && ascii_lower(name[0]) {
        seq![((name[0] as u32) - 32) as char] + name.drop_first()
    } else {
        name
    }
}

/// Distinct dialects live in distinct directories.
pub proof fn dialect_dirs_distinct(a: NodeDialect, b: NodeDialect)
    requires
        a != b,
    ensures
        spec_dialect_dir(a) != spec_dialect_dir(b),
{
    reveal_strlit("js");
    reveal_strlit("ts");
    reveal_strlit("jsx");
    reveal_strlit("json");
    reveal_strlit("css");
    reveal_strlit("grit");
    reveal_strlit("graphql");
    reveal_strlit("html");
    reveal_strlit("astro");
    reveal_strlit("svelte");
    reveal_strlit("Js");
    reveal_strlit("Ts");
    reveal_strlit("Jsx");
    reveal_strlit("Json");
    reveal_strlit("Css");
    reveal_strlit("Grit");
    reveal_strlit("Graphql");
    reveal_strlit("Html");
    reveal_strlit("Astro");
    reveal_strlit("Svelte");
    if spec_dialect_dir(a) == spec_dialect_dir(b) {
        assert(spec_dialect_dir(a).len() == spec_dialect_dir(b).len());
        assert(spec_dialect_dir(a)[0] == spec_dialect_dir(b)[0]);
        assert(spec_dialect_dir(a)[1] == spec_dialect_dir(b)[1]);
        assert(spec_dialect_dir(a).len() > 2 ==> spec_dialect_dir(a)[2] == spec_dialect_dir(b)[2]);
    }
}

/// The prefix that names a dialect in node names is its directory name
/// capitalized: reading the prefix back gives the dialect.
pub proof fn dialect_prefix_roundtrip(d: NodeDialect)
    ensures
        spec_dialect_from_prefix(capitalized(spec_dialect_dir(d))) == d,
{
    reveal_strlit("js");
    reveal_strlit("ts");
    reveal_strlit("jsx");
    reveal_strlit("json");
    reveal_strlit("css");
    reveal_strlit("grit");
    reveal_strlit("graphql");
    reveal_strlit("html");
    reveal_strlit("astro");
    reveal_strlit("svelte");
    reveal_strlit("Js");
    reveal_strlit("Ts");
    reveal_strlit("Jsx");
    reveal_strlit("Json");
    reveal_strlit("Css");
    reveal_strlit("Grit");
    reveal_strlit("Graphql");
    reveal_strlit("Html");
    reveal_strlit("Astro");
    reveal_strlit("Svelte");
    let dir = spec_dialect_dir(d);
    let cap = capitalized(dir);
    assert(ascii_lower(dir[0]));
    assert(cap =~= seq![((dir[0] as u32) - 32) as char] + dir.drop_first());
    match d {
        NodeDialect::Js => {
            assert(cap =~= "Js"@);
            assert("Js"@.len() != "Jsx"@.len());
        },
        NodeDialect::Ts => {
            assert(cap =~= "Ts"@);
            assert("Ts"@.len() != "Jsx"@.len());
            assert("Ts"@[0] != "Js"@[0]);
        },
        NodeDialect::Jsx => {
            assert(cap =~= "Jsx"@);
        },
        NodeDialect::Json => {
            assert(cap =~= "Json"@);
            assert("Json"@.len() != "Jsx"@.len());
            assert("Json"@.len() != "Js"@.len());
            assert("Json"@.len() != "Ts"@.len());
        },
        NodeDialect::Css => {
            assert(cap =~= "Css"@);
            assert("Css"@[0] != "Jsx"@[0]);
            assert("Css"@.len() != "Js"@.len());
            assert("Css"@.len() != "Ts"@.len());
            assert("Css"@.len() != "Json"@.len());
        },
        NodeDialect::Grit => {
            assert(cap =~= "Grit"@);
            assert("Grit"@.len() != "Jsx"@.len());
            assert("Grit"@.len() != "Js"@.len());
            assert("Grit"@.len() != "Ts"@.len());
            assert("Grit"@[0] != "Json"@[0]);
            assert("Grit"@.len() != "Css"@.len());
        },
        NodeDialect::Graphql => {
            assert(cap =~= "Graphql"@);
            assert("Graphql"@.len() != "Jsx"@.len());
            assert("Graphql"@.len() != "Js"@.len());
            assert("Graphql"@.len() != "Ts"@.len());
            assert("Graphql"@.len() != "Json"@.len());
            assert("Graphql"@.len() != "Css"@.len());
            assert("Graphql"@.len() != "Grit"@.len());
        },
        NodeDialect::Html => {
            assert(cap =~= "Html"@);
            assert("Html"@.len() != "Jsx"@.len());
            assert("Html"@.len() != "Js"@.len());
            assert("Html"@.len() != "Ts"@.len());
            assert("Html"@[0] != "Json"@[0]);
            assert("Html"@.len() != "Css"@.len());
            assert("Html"@[0] != "Grit"@[0]);
            assert("Html"@.len() != "Graphql"@.len());
        },
        NodeDialect::Astro => {
            assert(cap =~= "Astro"@);
            assert("Astro"@.len() != "Jsx"@.len());
            assert("Astro"@.len() != "Js"@.len());
            assert("Astro"@.len() != "Ts"@.len());
            assert("Astro"@.len() != "Json"@.len());
            assert("Astro"@.len() != "Css"@.len());
            assert("Astro"@.len() != "Grit"@.len());
            assert("Astro"@.len() != "Graphql"@.len());
            assert("Astro"@.len() != "Html"@.len());
        },
        NodeDialect::Svelte => {
            assert(cap =~= "Svelte"@);
            assert("Svelte"@.len() != "Jsx"@.len());
            assert("Svelte"@.len() != "Js"@.len());
            assert("Svelte"@.len() != "Ts"@.len());
            assert("Svelte"@.len() != "Json"@.len());
            assert("Svelte"@.len() != "Css"@.len());
            assert("Svelte"@.len() != "Grit"@.len());
            assert("Svelte"@.len() != "Graphql"@.len());
            assert("Svelte"@.len() != "Html"@.len());
            assert("Svelte"@.len() != "Astro"@.len());
        },
    }
}

/// Distinct concepts live in distinct directories.
pub proof fn concept_dirs_distinct(a: NodeConcept, b: NodeConcept)
    requires
        a != b,
    ensures
        spec_concept_dir(a) != spec_concept_dir(b),
{
    reveal_strlit("expressions");
    reveal_strlit("statements");
    reveal_strlit("declarations");
    reveal_strlit("objects");
    reveal_strlit("classes");
    reveal_strlit("assignments");
    reveal_strlit("bindings");
    reveal_strlit("types");
    reveal_strlit("module");
    reveal_strlit("bogus");
    reveal_strlit("lists");
    reveal_strlit("any");
    reveal_strlit("tag");
    reveal_strlit("attribute");
    reveal_strlit("auxiliary");
    reveal_strlit("value");
    reveal_strlit("pseudo");
    reveal_strlit("selectors");
    reveal_strlit("properties");
    reveal_strlit("patterns");
    reveal_strlit("predicates");
    reveal_strlit("definitions");
    reveal_strlit("extensions");
    if spec_concept_dir(a) == spec_concept_dir(b) {
        assert(spec_concept_dir(a).len() == spec_concept_dir(b).len());
        assert(spec_concept_dir(a)[0] == spec_concept_dir(b)[0]);
        assert(spec_concept_dir(a)[1] == spec_concept_dir(b)[1]);
        assert(spec_concept_dir(a)[2] == spec_concept_dir(b)[2]);
    }
}

/// The keywords of Rust, strict, reserved and contextual (the one that is
/// spelled out names the keyword of foreign items).
pub open spec fn spec_rust_keyword(s: Seq<char>) -> bool {
    ||| s == "as"@
    ||| s == "async"@
    ||| s == "await"@
    ||| s == "break"@
    ||| s == "const"@
    ||| s == "continue"@
    ||| s == "crate"@
    ||| s == "dyn"@
    ||| s == "else"@
    ||| s == "enum"@
    ||| s == seq!['e', 'x', 't', 'e', 'r', 'n']
    ||| s == "false"@
    ||| s == "fn"@
    ||| s == "for"@
    ||| s == "if"@
    ||| s == "impl"@
    ||| s == "in"@
    ||| s == "let"@
    ||| s == "loop"@
    ||| s == "match"@
    ||| s == "mod"@
    ||| s == "move"@
    ||| s == "mut"@
    ||| s == "pub"@
    ||| s == "ref"@
    ||| s == "return"@
    ||| s == "self"@
    ||| s == "Self"@
    ||| s == "static"@
    ||| s == "struct"@
    ||| s == "super"@
    ||| s == "trait"@
    ||| s == "true"@
    ||| s == "type"@
    ||| s == "unsafe"@
    ||| s == "use"@
    ||| s == "where"@
    ||| s == "while"@
    ||| s == "abstract"@
    ||| s == "become"@
    ||| s == "box"@
    ||| s == "do"@
    ||| s == "final"@
    ||| s == "gen"@
    ||| s == "macro"@
    ||| s == "override"@
    ||| s == "priv"@
    ||| s == "try"@
    ||| s == "typeof"@
    ||| s == "unsized"@
    ||| s == "virtual"@
    ||| s == "yield"@
    ||| s == "union"@
    ||| s == "macro_rules"@
    ||| s == "raw"@
    ||| s == "safe"@
}

/// Every character of `s` is a lower-case ASCII letter.
pub open spec fn spec_lowercase_letters(s: Seq<char>) -> bool
    decreases s.len(),
{
    if s.len() == 0 {
        true
    } else {
        'a' <= s[0] <= 'z' && spec_lowercase_letters(s.drop_first())
    }
}

/// A non-empty word of lower-case ASCII letters.
pub open spec fn spec_lowercase_word(s: Seq<char>) -> bool {
    s.len() > 0 && spec_lowercase_letters(s)
}

/// Every concept directory is a lower-case ASCII word that is not a Rust
/// keyword, so it can name a module.
pub proof fn concept_dirs_are_module_names(c: NodeConcept)
    ensures
        spec_lowercase_word(spec_concept_dir(c)),
        !spec_rust_keyword(spec_concept_dir(c)),
{
    reveal_strlit("expressions");
    reveal_strlit("statements");
    reveal_strlit("declarations");
    reveal_strlit("objects");
    reveal_strlit("classes");
    reveal_strlit("assignments");
    reveal_strlit("bindings");
    reveal_strlit("types");
    reveal_strlit("module");
    reveal_strlit("bogus");
    reveal_strlit("lists");
    reveal_strlit("any");
    reveal_strlit("tag");
    reveal_strlit("attribute");
    reveal_strlit("auxiliary");
    reveal_strlit("value");
    reveal_strlit("pseudo");
    reveal_strlit("selectors");
    reveal_strlit("properties");
    reveal_strlit("patterns");
    reveal_strlit("predicates");
    reveal_strlit("definitions");
    reveal_strlit("extensions");
    reveal_strlit("as");
    reveal_strlit("async");
    reveal_strlit("await");
    reveal_strlit("break");
    reveal_strlit("const");
    reveal_strlit("continue");
    reveal_strlit("crate");
    reveal_strlit("dyn");
    reveal_strlit("else");
    reveal_strlit("enum");
    reveal_strlit("false");
    reveal_strlit("fn");
    reveal_strlit("for");
    reveal_strlit("if");
    reveal_strlit("impl");
    reveal_strlit("in");
    reveal_strlit("let");
    reveal_strlit("loop");
    reveal_strlit("match");
    reveal_strlit("mod");
    reveal_strlit("move");
    reveal_strlit("mut");
    reveal_strlit("pub");
    reveal_strlit("ref");
    reveal_strlit("return");
    reveal_strlit("self");
    reveal_strlit("Self");
    reveal_strlit("static");
    reveal_strlit("struct");
    reveal_strlit("super");
    reveal_strlit("trait");
    reveal_strlit("true");
    reveal_strlit("type");
    reveal_strlit("unsafe");
    reveal_strlit("use");
    reveal_strlit("where");
    reveal_strlit("while");
    reveal_strlit("abstract");
    reveal_strlit("become");
    reveal_strlit("box");
    reveal_strlit("do");
    reveal_strlit("final");
    reveal_strlit("gen");
    reveal_strlit("macro");
    reveal_strlit("override");
    reveal_strlit("priv");
    reveal_strlit("try");
    reveal_strlit("typeof");
    reveal_strlit("unsized");
    reveal_strlit("virtual");
    reveal_strlit("yield");
    reveal_strlit("union");
    reveal_strlit("macro_rules");
    reveal_strlit("raw");
    reveal_strlit("safe");
    reveal_with_fuel(spec_lowercase_letters, 13);
    match c {
        NodeConcept::Expression => {
            assert(spec_lowercase_letters("expressions"@));
        },
        NodeConcept::Statement => {
            assert(spec_lowercase_letters("statements"@));
        },
        NodeConcept::Declaration => {
            assert(spec_lowercase_letters("declarations"@));
        },
        NodeConcept::Object => {
            assert(spec_lowercase_letters("objects"@));
        },
        NodeConcept::Class => {
            assert(spec_lowercase_letters("classes"@));
        },
        NodeConcept::Assignment => {
            assert(spec_lowercase_letters("assignments"@));
        },
        NodeConcept::Binding => {
            assert(spec_lowercase_letters("bindings"@));
        },
        NodeConcept::Type => {
            assert(spec_lowercase_letters("types"@));
        },
        NodeConcept::Module => {
            assert(spec_lowercase_letters("module"@));
        },
        NodeConcept::Bogus => {
            assert(spec_lowercase_letters("bogus"@));
        },
        NodeConcept::List => {
            assert(spec_lowercase_letters("lists"@));
        },
        NodeConcept::Union => {
            assert(spec_lowercase_letters("any"@));
        },
        NodeConcept::Tag => {
            assert(spec_lowercase_letters("tag"@));
        },
        NodeConcept::Attribute => {
            assert(spec_lowercase_letters("attribute"@));
        },
        NodeConcept::Auxiliary => {
            assert(spec_lowercase_letters("auxiliary"@));
        },
        NodeConcept::Value => {
            assert(spec_lowercase_letters("value"@));
        },
        NodeConcept::Pseudo => {
            assert(spec_lowercase_letters("pseudo"@));
        },
        NodeConcept::Selector => {
            assert(spec_lowercase_letters("selectors"@));
        },
        NodeConcept::Property => {
            assert(spec_lowercase_letters("properties"@));
        },
        NodeConcept::Pattern => {
            assert(spec_lowercase_letters("patterns"@));
        },
        NodeConcept::Predicate => {
            assert(spec_lowercase_letters("predicates"@));
        },
        NodeConcept::Definition => {
            assert(spec_lowercase_letters("definitions"@));
        },
        NodeConcept::Extension => {
            assert(spec_lowercase_letters("extensions"@));
        },
    }
}

/// Naming conventions of plain JavaScript-family node types, by the name
/// without its dialect prefix: statements, declarations, expressions
/// (with arguments), bindings (with parameters) and assignments each go to
/// their own concept, the first matching convention winning.
pub proof fn js_concept_conventions(d: NodeDialect, n: Seq<char>)
    ensures
        seq_ends_with(n, "Statement"@) ==> spec_node_concept(NodeKind::Node, d, LanguageKind::Js, n) == NodeConcept::Statement,
        seq_ends_with(n, "Declaration"@) && !seq_ends_with(n, "Statement"@) ==> spec_node_concept(NodeKind::Node, d, LanguageKind::Js, n) == NodeConcept::Declaration,
        (seq_ends_with(n, "Expression"@) || seq_ends_with(n, "Argument"@) || seq_ends_with(n, "Arguments"@)) && !seq_ends_with(n, "Statement"@) && !seq_ends_with(n, "Declaration"@)
            ==> spec_node_concept(NodeKind::Node, d, LanguageKind::Js, n) == NodeConcept::Expression,
        (seq_ends_with(n, "Binding"@) || seq_starts_with(n, "BindingPattern"@) || seq_starts_with(n, "ArrayBindingPattern"@) || seq_starts_with(n, "ObjectBindingPattern"@) || seq_ends_with(n, "Parameter"@) || seq_ends_with(n, "Parameters"@)) && !seq_ends_with(n, "Statement"@) && !seq_ends_with(n, "Declaration"@) && !seq_ends_with(n, "Expression"@) && !seq_ends_with(n, "Argument"@) && !seq_ends_with(n, "Arguments"@) ==> spec_node_concept(NodeKind::Node, d, LanguageKind::Js, n) == NodeConcept::Binding,
        seq_ends_with(n, "Assignment"@) && !seq_ends_with(n, "Statement"@) && !seq_ends_with(n, "Declaration"@) && !seq_ends_with(n, "Expression"@) && !seq_ends_with(n, "Argument"@) && !seq_ends_with(n, "Arguments"@) && !(seq_ends_with(n, "Binding"@) || seq_starts_with(n, "BindingPattern"@) || seq_starts_with(n, "ArrayBindingPattern"@) || seq_starts_with(n, "ObjectBindingPattern"@) || seq_ends_with(n, "Parameter"@) || seq_ends_with(n, "Parameters"@)) ==> spec_node_concept(NodeKind::Node, d, LanguageKind::Js, n)
            == NodeConcept::Assignment,
{
}

/// The remaining conventions of plain JavaScript-family node types, each
/// applying when no earlier one does: modules (imports and exports),
/// class members, object members, TypeScript assertions, module
/// references, types, JSX tags and attributes; a name that no convention
/// matches is auxiliary.
pub proof fn js_concept_later_conventions(d: NodeDialect, n: Seq<char>)
    ensures
        ({
            let c = spec_node_concept(NodeKind::Node, d, LanguageKind::Js, n);
            &&& (seq_ends_with(n, "ImportSpecifier"@) || seq_ends_with(n, "ImportSpecifiers"@) || seq_starts_with(n, "Export"@) || seq_starts_with(n, "Import"@) || n == "Export"@ || n == "Import"@ || n == "ModuleSource"@ || n == "LiteralExportName"@)
                && !(seq_ends_with(n, "Statement"@)) && !(seq_ends_with(n, "Declaration"@)) && !(seq_ends_with(n, "Expression"@) || seq_ends_with(n, "Argument"@) || seq_ends_with(n, "Arguments"@)) && !(seq_ends_with(n, "Binding"@) || seq_starts_with(n, "BindingPattern"@) || seq_starts_with(n, "ArrayBindingPattern"@) || seq_starts_with(n, "ObjectBindingPattern"@) || seq_ends_with(n, "Parameter"@) || seq_ends_with(n, "Parameters"@)) && !(seq_ends_with(n, "Assignment"@) || seq_starts_with(n, "ArrayAssignmentPattern"@) || seq_starts_with(n, "ObjectAssignmentPattern"@) || n == "AssignmentWithDefault"@)
                ==> c == NodeConcept::Module
            &&& (seq_ends_with(n, "ClassMember"@) || n == "ExtendsClause"@)
                && !(seq_ends_with(n, "Statement"@)) && !(seq_ends_with(n, "Declaration"@)) && !(seq_ends_with(n, "Expression"@) || seq_ends_with(n, "Argument"@) || seq_ends_with(n, "Arguments"@)) && !(seq_ends_with(n, "Binding"@) || seq_starts_with(n, "BindingPattern"@) || seq_starts_with(n, "ArrayBindingPattern"@) || seq_starts_with(n, "ObjectBindingPattern"@) || seq_ends_with(n, "Parameter"@) || seq_ends_with(n, "Parameters"@)) && !(seq_ends_with(n, "Assignment"@) || seq_starts_with(n, "ArrayAssignmentPattern"@) || seq_starts_with(n, "ObjectAssignmentPattern"@) || n == "AssignmentWithDefault"@) && !(seq_ends_with(n, "ImportSpecifier"@) || seq_ends_with(n, "ImportSpecifiers"@) || seq_starts_with(n, "Export"@) || seq_starts_with(n, "Import"@) || n == "Export"@ || n == "Import"@ || n == "ModuleSource"@ || n == "LiteralExportName"@)
                ==> c == NodeConcept::Class
            &&& (seq_ends_with(n, "ObjectMember"@) || seq_ends_with(n, "MemberName"@))
                && !(seq_ends_with(n, "Statement"@)) && !(seq_ends_with(n, "Declaration"@)) && !(seq_ends_with(n, "Expression"@) || seq_ends_with(n, "Argument"@) || seq_ends_with(n, "Arguments"@)) && !(seq_ends_with(n, "Binding"@) || seq_starts_with(n, "BindingPattern"@) || seq_starts_with(n, "ArrayBindingPattern"@) || seq_starts_with(n, "ObjectBindingPattern"@) || seq_ends_with(n, "Parameter"@) || seq_ends_with(n, "Parameters"@)) && !(seq_ends_with(n, "Assignment"@) || seq_starts_with(n, "ArrayAssignmentPattern"@) || seq_starts_with(n, "ObjectAssignmentPattern"@) || n == "AssignmentWithDefault"@) && !(seq_ends_with(n, "ImportSpecifier"@) || seq_ends_with(n, "ImportSpecifiers"@) || seq_starts_with(n, "Export"@) || seq_starts_with(n, "Import"@) || n == "Export"@ || n == "Import"@ || n == "ModuleSource"@ || n == "LiteralExportName"@) && !(seq_ends_with(n, "ClassMember"@) || n == "ExtendsClause"@)
                ==> c == NodeConcept::Object
            &&& (n == "Assertion"@ || n == "ConstAssertion"@ || n == "NonNull"@ || n == "TypeArgs"@ || n == "ExprWithTypeArgs"@)
                && !(seq_ends_with(n, "Statement"@)) && !(seq_ends_with(n, "Declaration"@)) && !(seq_ends_with(n, "Expression"@) || seq_ends_with(n, "Argument"@) || seq_ends_with(n, "Arguments"@)) && !(seq_ends_with(n, "Binding"@) || seq_starts_with(n, "BindingPattern"@) || seq_starts_with(n, "ArrayBindingPattern"@) || seq_starts_with(n, "ObjectBindingPattern"@) || seq_ends_with(n, "Parameter"@) || seq_ends_with(n, "Parameters"@)) && !(seq_ends_with(n, "Assignment"@) || seq_starts_with(n, "ArrayAssignmentPattern"@) || seq_starts_with(n, "ObjectAssignmentPattern"@) || n == "AssignmentWithDefault"@) && !(seq_ends_with(n, "ImportSpecifier"@) || seq_ends_with(n, "ImportSpecifiers"@) || seq_starts_with(n, "Export"@) || seq_starts_with(n, "Import"@) || n == "Export"@ || n == "Import"@ || n == "ModuleSource"@ || n == "LiteralExportName"@) && !(seq_ends_with(n, "ClassMember"@) || n == "ExtendsClause"@) && !(seq_ends_with(n, "ObjectMember"@) || seq_ends_with(n, "MemberName"@))
                ==> c == NodeConcept::Expression
            &&& (n == "ExternalModuleRef"@ || n == "ModuleRef"@)
                && !(seq_ends_with(n, "Statement"@)) && !(seq_ends_with(n, "Declaration"@)) && !(seq_ends_with(n, "Expression"@) || seq_ends_with(n, "Argument"@) || seq_ends_with(n, "Arguments"@)) && !(seq_ends_with(n, "Binding"@) || seq_starts_with(n, "BindingPattern"@) || seq_starts_with(n, "ArrayBindingPattern"@) || seq_starts_with(n, "ObjectBindingPattern"@) || seq_ends_with(n, "Parameter"@) || seq_ends_with(n, "Parameters"@)) && !(seq_ends_with(n, "Assignment"@) || seq_starts_with(n, "ArrayAssignmentPattern"@) || seq_starts_with(n, "ObjectAssignmentPattern"@) || n == "AssignmentWithDefault"@) && !(seq_ends_with(n, "ImportSpecifier"@) || seq_ends_with(n, "ImportSpecifiers"@) || seq_starts_with(n, "Export"@) || seq_starts_with(n, "Import"@) || n == "Export"@ || n == "Import"@ || n == "ModuleSource"@ || n == "LiteralExportName"@) && !(seq_ends_with(n, "ClassMember"@) || n == "ExtendsClause"@) && !(seq_ends_with(n, "ObjectMember"@) || seq_ends_with(n, "MemberName"@)) && !(n == "Assertion"@ || n == "ConstAssertion"@ || n == "NonNull"@ || n == "TypeArgs"@ || n == "ExprWithTypeArgs"@)
                ==> c == NodeConcept::Module
            &&& (seq_ends_with(n, "Type"@))
                && !(seq_ends_with(n, "Statement"@)) && !(seq_ends_with(n, "Declaration"@)) && !(seq_ends_with(n, "Expression"@) || seq_ends_with(n, "Argument"@) || seq_ends_with(n, "Arguments"@)) && !(seq_ends_with(n, "Binding"@) || seq_starts_with(n, "BindingPattern"@) || seq_starts_with(n, "ArrayBindingPattern"@) || seq_starts_with(n, "ObjectBindingPattern"@) || seq_ends_with(n, "Parameter"@) || seq_ends_with(n, "Parameters"@)) && !(seq_ends_with(n, "Assignment"@) || seq_starts_with(n, "ArrayAssignmentPattern"@) || seq_starts_with(n, "ObjectAssignmentPattern"@) || n == "AssignmentWithDefault"@) && !(seq_ends_with(n, "ImportSpecifier"@) || seq_ends_with(n, "ImportSpecifiers"@) || seq_starts_with(n, "Export"@) || seq_starts_with(n, "Import"@) || n == "Export"@ || n == "Import"@ || n == "ModuleSource"@ || n == "LiteralExportName"@) && !(seq_ends_with(n, "ClassMember"@) || n == "ExtendsClause"@) && !(seq_ends_with(n, "ObjectMember"@) || seq_ends_with(n, "MemberName"@)) && !(n == "Assertion"@ || n == "ConstAssertion"@ || n == "NonNull"@ || n == "TypeArgs"@ || n == "ExprWithTypeArgs"@) && !(n == "ExternalModuleRef"@ || n == "ModuleRef"@)
                ==> c == NodeConcept::Type
            &&& (d == NodeDialect::Jsx && (seq_ends_with(n, "Element"@) || seq_ends_with(n, "Tag"@) || seq_ends_with(n, "Fragment"@)))
                && !(seq_ends_with(n, "Statement"@)) && !(seq_ends_with(n, "Declaration"@)) && !(seq_ends_with(n, "Expression"@) || seq_ends_with(n, "Argument"@) || seq_ends_with(n, "Arguments"@)) && !(seq_ends_with(n, "Binding"@) || seq_starts_with(n, "BindingPattern"@) || seq_starts_with(n, "ArrayBindingPattern"@) || seq_starts_with(n, "ObjectBindingPattern"@) || seq_ends_with(n, "Parameter"@) || seq_ends_with(n, "Parameters"@)) && !(seq_ends_with(n, "Assignment"@) || seq_starts_with(n, "ArrayAssignmentPattern"@) || seq_starts_with(n, "ObjectAssignmentPattern"@) || n == "AssignmentWithDefault"@) && !(seq_ends_with(n, "ImportSpecifier"@) || seq_ends_with(n, "ImportSpecifiers"@) || seq_starts_with(n, "Export"@) || seq_starts_with(n, "Import"@) || n == "Export"@ || n == "Import"@ || n == "ModuleSource"@ || n == "LiteralExportName"@) && !(seq_ends_with(n, "ClassMember"@) || n == "ExtendsClause"@) && !(seq_ends_with(n, "ObjectMember"@) || seq_ends_with(n, "MemberName"@)) && !(n == "Assertion"@ || n == "ConstAssertion"@ || n == "NonNull"@ || n == "TypeArgs"@ || n == "ExprWithTypeArgs"@) && !(n == "ExternalModuleRef"@ || n == "ModuleRef"@) && !(seq_ends_with(n, "Type"@))
                ==> c == NodeConcept::Tag
            &&& (d == NodeDialect::Jsx && seq_contains(n, "Attribute"@))
                && !(seq_ends_with(n, "Statement"@)) && !(seq_ends_with(n, "Declaration"@)) && !(seq_ends_with(n, "Expression"@) || seq_ends_with(n, "Argument"@) || seq_ends_with(n, "Arguments"@)) && !(seq_ends_with(n, "Binding"@) || seq_starts_with(n, "BindingPattern"@) || seq_starts_with(n, "ArrayBindingPattern"@) || seq_starts_with(n, "ObjectBindingPattern"@) || seq_ends_with(n, "Parameter"@) || seq_ends_with(n, "Parameters"@)) && !(seq_ends_with(n, "Assignment"@) || seq_starts_with(n, "ArrayAssignmentPattern"@) || seq_starts_with(n, "ObjectAssignmentPattern"@) || n == "AssignmentWithDefault"@) && !(seq_ends_with(n, "ImportSpecifier"@) || seq_ends_with(n, "ImportSpecifiers"@) || seq_starts_with(n, "Export"@) || seq_starts_with(n, "Import"@) || n == "Export"@ || n == "Import"@ || n == "ModuleSource"@ || n == "LiteralExportName"@) && !(seq_ends_with(n, "ClassMember"@) || n == "ExtendsClause"@) && !(seq_ends_with(n, "ObjectMember"@) || seq_ends_with(n, "MemberName"@)) && !(n == "Assertion"@ || n == "ConstAssertion"@ || n == "NonNull"@ || n == "TypeArgs"@ || n == "ExprWithTypeArgs"@) && !(n == "ExternalModuleRef"@ || n == "ModuleRef"@) && !(seq_ends_with(n, "Type"@)) && !(d == NodeDialect::Jsx && (seq_ends_with(n, "Element"@) || seq_ends_with(n, "Tag"@) || seq_ends_with(n, "Fragment"@)))
                ==> c == NodeConcept::Attribute
            &&& !(seq_ends_with(n, "Statement"@)) && !(seq_ends_with(n, "Declaration"@)) && !(seq_ends_with(n, "Expression"@) || seq_ends_with(n, "Argument"@) || seq_ends_with(n, "Arguments"@)) && !(seq_ends_with(n, "Binding"@) || seq_starts_with(n, "BindingPattern"@) || seq_starts_with(n, "ArrayBindingPattern"@) || seq_starts_with(n, "ObjectBindingPattern"@) || seq_ends_with(n, "Parameter"@) || seq_ends_with(n, "Parameters"@)) && !(seq_ends_with(n, "Assignment"@) || seq_starts_with(n, "ArrayAssignmentPattern"@) || seq_starts_with(n, "ObjectAssignmentPattern"@) || n == "AssignmentWithDefault"@) && !(seq_ends_with(n, "ImportSpecifier"@) || seq_ends_with(n, "ImportSpecifiers"@) || seq_starts_with(n, "Export"@) || seq_starts_with(n, "Import"@) || n == "Export"@ || n == "Import"@ || n == "ModuleSource"@ || n == "LiteralExportName"@) && !(seq_ends_with(n, "ClassMember"@) || n == "ExtendsClause"@) && !(seq_ends_with(n, "ObjectMember"@) || seq_ends_with(n, "MemberName"@)) && !(n == "Assertion"@ || n == "ConstAssertion"@ || n == "NonNull"@ || n == "TypeArgs"@ || n == "ExprWithTypeArgs"@) && !(n == "ExternalModuleRef"@ || n == "ModuleRef"@) && !(seq_ends_with(n, "Type"@)) && !(d == NodeDialect::Jsx && (seq_ends_with(n, "Element"@) || seq_ends_with(n, "Tag"@) || seq_ends_with(n, "Fragment"@))) && !(d == NodeDialect::Jsx && seq_contains(n, "Attribute"@))
                ==> c == NodeConcept::Auxiliary
        }),
{
}

/// What each concept of a plain JavaScript-family node type says of its
/// name: a statement's name ends with `Statement`, a tag or an attribute
/// belongs to the JSX dialect, and so on; no plain node is bogus, a list
/// or a union.
pub proof fn js_concept_evidence(d: NodeDialect, n: Seq<char>)
    ensures
        ({
            let c = spec_node_concept(NodeKind::Node, d, LanguageKind::Js, n);
            &&& c == NodeConcept::Statement ==> seq_ends_with(n, "Statement"@)
            &&& c == NodeConcept::Declaration ==> seq_ends_with(n, "Declaration"@)
            &&& c == NodeConcept::Expression ==> seq_ends_with(n, "Expression"@) || seq_ends_with(n, "Argument"@) || seq_ends_with(n, "Arguments"@)
                || n == "Assertion"@ || n == "ConstAssertion"@ || n == "NonNull"@ || n == "TypeArgs"@
                || n == "ExprWithTypeArgs"@
            &&& c == NodeConcept::Binding ==> seq_ends_with(n, "Binding"@) || seq_starts_with(n, "BindingPattern"@)
                || seq_starts_with(n, "ArrayBindingPattern"@) || seq_starts_with(n, "ObjectBindingPattern"@) || seq_ends_with(n, "Parameter"@)
                || seq_ends_with(n, "Parameters"@)
            &&& c == NodeConcept::Assignment ==> seq_ends_with(n, "Assignment"@) || seq_starts_with(n, "ArrayAssignmentPattern"@)
                || seq_starts_with(n, "ObjectAssignmentPattern"@) || n == "AssignmentWithDefault"@
            &&& c == NodeConcept::Module ==> seq_ends_with(n, "ImportSpecifier"@) || seq_ends_with(n, "ImportSpecifiers"@)
                || seq_starts_with(n, "Export"@) || seq_starts_with(n, "Import"@) || n == "Export"@ || n == "Import"@ || n == "ModuleSource"@
                || n == "LiteralExportName"@ || n == "ExternalModuleRef"@ || n == "ModuleRef"@
            &&& c == NodeConcept::Class ==> seq_ends_with(n, "ClassMember"@) || n == "ExtendsClause"@
            &&& c == NodeConcept::Object ==> seq_ends_with(n, "ObjectMember"@) || seq_ends_with(n, "MemberName"@)
            &&& c == NodeConcept::Type ==> seq_ends_with(n, "Type"@)
            &&& c == NodeConcept::Tag ==> d == NodeDialect::Jsx && (seq_ends_with(n, "Element"@) || seq_ends_with(n, "Tag"@)
                || seq_ends_with(n, "Fragment"@))
            &&& c == NodeConcept::Attribute ==> d == NodeDialect::Jsx && seq_contains(n, "Attribute"@)
            &&& c != NodeConcept::Bogus && c != NodeConcept::List && c != NodeConcept::Union
        }),
{
}

/// Naming conventions of plain CSS node types: at-rules are statements,
/// then selectors, pseudo classes and elements, properties, and values
/// (dimensions and identifiers among them).
pub proof fn css_concept_conventions(d: NodeDialect, n: Seq<char>)
    ensures
        ({
            let c = spec_node_concept(NodeKind::Node, d, LanguageKind::Css, n);
            &&& seq_ends_with(n, "AtRule"@) ==> c == NodeConcept::Statement
            &&& seq_ends_with(n, "Selector"@) && !seq_ends_with(n, "AtRule"@) ==> c == NodeConcept::Selector
            &&& seq_contains(n, "Pseudo"@) && !seq_ends_with(n, "AtRule"@) && !seq_ends_with(n, "Selector"@) ==> c == NodeConcept::Pseudo
            &&& seq_ends_with(n, "Property"@) && !seq_ends_with(n, "AtRule"@) && !seq_ends_with(n, "Selector"@) && !seq_contains(n, "Pseudo"@) ==> c
                == NodeConcept::Property
            &&& (seq_ends_with(n, "Dimension"@) || seq_ends_with(n, "Identifier"@)) && !seq_ends_with(n, "AtRule"@) && !seq_ends_with(n, "Selector"@)
                && !seq_contains(n, "Pseudo"@) && !seq_ends_with(n, "Property"@) ==> c == NodeConcept::Value
            &&& (n == "Number"@ || n == "Percentage"@ || n == "Ratio"@ || n == "String"@ || n == "Color"@ || n == "Length"@ || n == "UrlValueRaw"@) && !seq_ends_with(n, "AtRule"@) && !seq_contains(n, "Pseudo"@) && !seq_ends_with(n, "Selector"@) && !seq_ends_with(n, "Property"@) ==> c == NodeConcept::Value
            &&& !(n == "Number"@ || n == "Percentage"@ || n == "Ratio"@ || n == "String"@ || n == "Color"@ || n == "Length"@ || n == "UrlValueRaw"@) && !seq_ends_with(n, "Dimension"@) && !seq_ends_with(n, "Identifier"@) && !seq_ends_with(n, "AtRule"@) && !seq_contains(n, "Pseudo"@) && !seq_ends_with(n, "Selector"@) && !seq_ends_with(n, "Property"@) ==> c
                == NodeConcept::Auxiliary
        }),
{
}

/// Naming conventions of plain GraphQL node types: extensions, then
/// definitions, then values; everything else is auxiliary.
pub proof fn graphql_concept_conventions(d: NodeDialect, n: Seq<char>)
    ensures
        ({
            let c = spec_node_concept(NodeKind::Node, d, LanguageKind::Graphql, n);
            &&& seq_contains(n, "Extension"@) ==> c == NodeConcept::Extension
            &&& seq_ends_with(n, "Definition"@) && !seq_contains(n, "Extension"@) ==> c == NodeConcept::Definition
            &&& seq_ends_with(n, "Value"@) && !seq_contains(n, "Extension"@) && !seq_ends_with(n, "Definition"@) ==> c == NodeConcept::Value
            &&& !seq_contains(n, "Extension"@) && !seq_ends_with(n, "Definition"@) && !seq_ends_with(n, "Value"@) ==> c
                == NodeConcept::Auxiliary
        }),
{
}

/// Naming conventions of plain GritQL node types: operations and patterns,
/// then predicates, then definitions (as declarations), then literals (as
/// values).
pub proof fn grit_concept_conventions(d: NodeDialect, n: Seq<char>)
    ensures
        ({
            let c = spec_node_concept(NodeKind::Node, d, LanguageKind::Grit, n);
            &&& seq_contains(n, "Operation"@) || seq_contains(n, "Pattern"@) ==> c == NodeConcept::Pattern
            &&& seq_contains(n, "Predicate"@) && !seq_contains(n, "Operation"@) && !seq_contains(n, "Pattern"@) ==> c
                == NodeConcept::Predicate
            &&& seq_ends_with(n, "Definition"@) && !seq_contains(n, "Operation"@) && !seq_contains(n, "Pattern"@) && !seq_contains(n, "Predicate"@) ==> c
                == NodeConcept::Declaration
            &&& seq_ends_with(n, "Literal"@) && !seq_contains(n, "Operation"@) && !seq_contains(n, "Pattern"@) && !seq_contains(n, "Predicate"@)
                && !seq_ends_with(n, "Definition"@) ==> c == NodeConcept::Value
            &&& n == "CodeSnippet"@ && !seq_contains(n, "Operation"@) && !seq_contains(n, "Pattern"@) && !seq_contains(n, "Predicate"@) && !seq_ends_with(n, "Definition"@) ==> c == NodeConcept::Value
            &&& n != "CodeSnippet"@ && !seq_ends_with(n, "Literal"@) && !seq_contains(n, "Operation"@) && !seq_contains(n, "Pattern"@) && !seq_contains(n, "Predicate"@) && !seq_ends_with(n, "Definition"@) ==> c == NodeConcept::Auxiliary
        }),
{
}

/// Plain JSON and HTML node types are values when their name ends with
/// `Value` and auxiliary otherwise; Tailwind value names are values too;
/// every plain Markdown and YAML node type is auxiliary.
pub proof fn value_concept_conventions(d: NodeDialect, n: Seq<char>)
    ensures
        spec_node_concept(NodeKind::Node, d, LanguageKind::Json, n) == (if seq_ends_with(n, "Value"@) {
            NodeConcept::Value
        } else {
            NodeConcept::Auxiliary
        }),
        spec_node_concept(NodeKind::Node, d, LanguageKind::Html, n) == (if seq_ends_with(n, "Value"@) {
            NodeConcept::Value
        } else {
            NodeConcept::Auxiliary
        }),
        seq_ends_with(n, "Value"@) ==> spec_node_concept(NodeKind::Node, d, LanguageKind::Tailwind, n)
            == NodeConcept::Value,
        !seq_ends_with(n, "Value"@) ==> spec_node_concept(NodeKind::Node, d, LanguageKind::Tailwind, n)
            == (if n == "TW_CANDIDATE"@ {
            NodeConcept::Expression
        } else {
            NodeConcept::Auxiliary
        }),
        spec_node_concept(NodeKind::Node, d, LanguageKind::Markdown, n) == NodeConcept::Auxiliary,
        spec_node_concept(NodeKind::Node, d, LanguageKind::Yaml, n) == NodeConcept::Auxiliary,
{
}

/// Bogus nodes, lists and unions go to their own concept whatever their
/// name, dialect or language.
pub proof fn concept_of_special_kinds(
    kind: NodeKind,
    dialect: NodeDialect,
    language: LanguageKind,
    name: Seq<char>,
)
    requires
        !(kind is Node),
    ensures
        spec_node_concept(kind, dialect, language, name) == (if kind is Bogus {
            NodeConcept::Bogus
        } else if kind is List {
            NodeConcept::List
        } else {
            NodeConcept::Union
        }),
{
}

/// A module is named after its node's snake_case name, except that the
/// Rust keywords `type` and `enum` get a `ts_` prefix.
pub proof fn module_name_keyword_prefix(name: Seq<char>)
    ensures
        spec_snake_case(name) == "type"@ ==> spec_module_name(name) == "ts_type"@,
        spec_snake_case(name) == "enum"@ ==> spec_module_name(name) == "ts_enum"@,
        spec_snake_case(name) != "type"@ && spec_snake_case(name) != "enum"@ ==> spec_module_name(
            name,
        ) == spec_snake_case(name),
{
    reveal_strlit("type");
    reveal_strlit("enum");
    assert("type"@[0] != "enum"@[0]);
}

/// A prefix that names no dialect is read as `Js`; a known one is read as
/// the dialect that it names, whose directory is the prefix in lower case.
pub proof fn unknown_prefix_reads_as_js(prefix: Seq<char>)
    ensures
        !spec_known_prefix(prefix) ==> spec_dialect_from_prefix(prefix) == NodeDialect::Js,
        spec_known_prefix(prefix) ==> capitalized(spec_dialect_dir(spec_dialect_from_prefix(prefix)))
            == prefix,
{
    reveal_strlit("js");
    reveal_strlit("ts");
    reveal_strlit("jsx");
    reveal_strlit("json");
    reveal_strlit("css");
    reveal_strlit("grit");
    reveal_strlit("graphql");
    reveal_strlit("html");
    reveal_strlit("astro");
    reveal_strlit("svelte");
    reveal_strlit("Js");
    reveal_strlit("Ts");
    reveal_strlit("Jsx");
    reveal_strlit("Json");
    reveal_strlit("Css");
    reveal_strlit("Grit");
    reveal_strlit("Graphql");
    reveal_strlit("Html");
    reveal_strlit("Astro");
    reveal_strlit("Svelte");
    if spec_known_prefix(prefix) {
        let d = spec_dialect_from_prefix(prefix);
        assert(capitalized(spec_dialect_dir(d)) =~= prefix);
    }
}

/// No module is named after the Rust keywords `type` or `enum`.
pub proof fn module_name_not_keyword(name: Seq<char>)
    ensures
        spec_module_name(name) != "type"@,
        spec_module_name(name) != "enum"@,
{
    reveal_strlit("type");
    reveal_strlit("enum");
    reveal_strlit("ts_type");
    reveal_strlit("ts_enum");
    assert("ts_type"@.len() != "type"@.len());
    assert("ts_type"@.len() != "enum"@.len());
    assert("ts_enum"@.len() != "type"@.len());
    assert("ts_enum"@.len() != "enum"@.len());
}

} // verus!
