//! The languages that Biome formats, and the identifiers that generated
//! formatter code names for each of them.
use vstd::prelude::*;

verus! {

/// A language with a formatter crate.
#[derive(Clone, Copy, Debug, PartialEq, Eq, Structural)]
pub enum LanguageKind {
    Js,
    Css,
    Json,
    Graphql,
    Grit,
    Html,
    Yaml,
    Markdown,
    Tailwind,
}

/// Every language, in the order in which formatters are generated.
pub open spec fn spec_all_language_kinds() -> Seq<LanguageKind> {
    seq![
        LanguageKind::Js,
        LanguageKind::Css,
        LanguageKind::Json,
        LanguageKind::Graphql,
        LanguageKind::Grit,
        LanguageKind::Html,
        LanguageKind::Yaml,
        LanguageKind::Markdown,
        LanguageKind::Tailwind,
    ]
}

/// Every language, in the order in which formatters are generated.
pub fn all_language_kinds() -> (r: Vec<LanguageKind>)
    ensures
        r@ == spec_all_language_kinds(),
{
    let r = vec![
        LanguageKind::Js,
        LanguageKind::Css,
        LanguageKind::Json,
        LanguageKind::Graphql,
        LanguageKind::Grit,
        LanguageKind::Html,
        LanguageKind::Yaml,
        LanguageKind::Markdown,
        LanguageKind::Tailwind,
    ];
    assert(r@ =~= spec_all_language_kinds());
    r
}

/// Name of the formatter type of a language.
pub open spec fn spec_formatter_ident(l: LanguageKind) -> Seq<char> {
    match l {
        LanguageKind::Js => "JsFormatter"@,
        LanguageKind::Css => "CssFormatter"@,
        LanguageKind::Json => "JsonFormatter"@,
        LanguageKind::Graphql => "GraphqlFormatter"@,
        LanguageKind::Grit => "GritFormatter"@,
        LanguageKind::Html => "HtmlFormatter"@,
        LanguageKind::Yaml => "YamlFormatter"@,
        LanguageKind::Markdown => "DemoFormatter"@,
        LanguageKind::Tailwind => "TailwindFormatter"@,
    }
}

/// Name of the format context type of a language.
pub open spec fn spec_format_context_ident(l: LanguageKind) -> Seq<char> {
    match l {
        LanguageKind::Js => "JsFormatContext"@,
        LanguageKind::Css => "CssFormatContext"@,
        LanguageKind::Json => "JsonFormatContext"@,
        LanguageKind::Graphql => "GraphqlFormatContext"@,
        LanguageKind::Grit => "GritFormatContext"@,
        LanguageKind::Html => "HtmlFormatContext"@,
        LanguageKind::Yaml => "YamlFormatContext"@,
        LanguageKind::Markdown => "DemoFormatterContext"@,
        LanguageKind::Tailwind => "TailwindFormatContext"@,
    }
}

impl LanguageKind {
    /// Name of the formatter type that generated code uses for this language.
    pub fn formatter_ident(&self) -> (r: &'static str)
        ensures
            r@ == spec_formatter_ident(*self),
    {
        match self {
            LanguageKind::Js => "JsFormatter",
            LanguageKind::Css => "CssFormatter",
            LanguageKind::Json => "JsonFormatter",
            LanguageKind::Graphql => "GraphqlFormatter",
            LanguageKind::Grit => "GritFormatter",
            LanguageKind::Html => "HtmlFormatter",
            LanguageKind::Yaml => "YamlFormatter",
            LanguageKind::Markdown => "DemoFormatter",
            LanguageKind::Tailwind => "TailwindFormatter",
        }
    }

    /// Name of the format context type that generated code uses for this language.
    pub fn format_context_ident(&self) -> (r: &'static str)
        ensures
            r@ == spec_format_context_ident(*self),
    {
        match self {
            LanguageKind::Js => "JsFormatContext",
            LanguageKind::Css => "CssFormatContext",
            LanguageKind::Json => "JsonFormatContext",
            LanguageKind::Graphql => "GraphqlFormatContext",
            LanguageKind::Grit => "GritFormatContext",
            LanguageKind::Html => "HtmlFormatContext",
            LanguageKind::Yaml => "YamlFormatContext",
            LanguageKind::Markdown => "DemoFormatterContext",
            LanguageKind::Tailwind => "TailwindFormatContext",
        }
    }
}

} // verus!
