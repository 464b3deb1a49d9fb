//! Validation of binding identifiers and the shape of binding patterns in
//! the JavaScript parser, over the parser's state and lookahead.
use vstd::prelude::*;
use vstd::string::*;
use crate::text::str_eq;

verus! {

/// A source range, as start and end offsets.
#[derive(Clone, Copy, Debug, PartialEq, Eq, Structural)]
pub struct SourceRange {
    pub start: u32,
    pub end: u32,
}

/// A name bound in the current `let`/`const` declaration and where.
#[derive(Debug)]
pub struct BoundName {
    pub name: String,
    pub range: SourceRange,
}

/// The parser state that binding validation reads and writes.
#[derive(Debug)]
pub struct BindingState {
    /// Whether strict mode is on.
    pub strict_mode: bool,
    /// The keyword (`let` or `const`) of the declaration being parsed, if
    /// its bindings must be unique.
    pub duplicate_binding_parent: Option<String>,
    /// The names bound so far in that declaration.
    pub name_map: Vec<BoundName>,
}

/// The names bound so far, with their ranges.
pub open spec fn names_view(v: Seq<BoundName>) -> Seq<(Seq<char>, SourceRange)> {
    v.map_values(|b: BoundName| (b.name@, b.range))
}

/// The range a name was first bound at, if it was.
pub open spec fn spec_lookup(v: Seq<(Seq<char>, SourceRange)>, name: Seq<char>) -> Option<SourceRange>
    decreases v.len(),
{
    if v.len() == 0 {
        None
    } else if v[0].0 == name {
        Some(v[0].1)
    } else {
        spec_lookup(v.drop_first(), name)
    }
}

/// Outcome of validating a binding identifier.
#[derive(Debug)]
pub enum BindingCheck {
    /// The binding is valid.
    Valid,
    /// `eval` or `arguments` bound in strict mode; the identifier becomes bogus.
    StrictModeName { message: String },
    /// `let` bound inside a `let` or `const` declaration; the identifier becomes bogus.
    LetName { message: String, hint: String },
    /// A name bound twice in one `let` or `const` declaration; the identifier becomes bogus.
    Duplicate {
        message: String,
        detail: String,
        first: SourceRange,
        first_detail: String,
    },
}

/// Message for a name that strict mode reserves.
pub open spec fn strict_message(name: Seq<char>) -> Seq<char> {
    "Illegal use of `"@ + name + "` as an identifier in strict mode"@
}

/// Message for `let` bound inside a declaration.
pub open spec fn let_message(parent: Seq<char>) -> Seq<char> {
    "`let` cannot be declared as a variable name inside of a `"@ + parent + "` declaration"@
}

/// Message for a duplicate binding.
pub open spec fn duplicate_message(parent: Seq<char>) -> Seq<char> {
    "Declarations inside of a `"@ + parent + "` declaration may not have duplicates"@
}

/// Detail at the second declaration of a duplicate binding.
pub open spec fn duplicate_detail(name: Seq<char>) -> Seq<char> {
    "a second declaration of `"@ + name + "` is not allowed"@
}

/// Detail at the first declaration of a duplicate binding.
pub open spec fn first_declared_detail(name: Seq<char>) -> Seq<char> {
    "`"@ + name + "` is first declared here"@
}

/// What validating binding `name` at `range` gives and does, as a pure
/// description: the check, and the names bound afterwards.
pub open spec fn spec_binding_check(
    strict: bool,
    parent: Option<Seq<char>>,
    names: Seq<(Seq<char>, SourceRange)>,
    name: Seq<char>,
    range: SourceRange,
) -> (BindingCheckKind, Seq<(Seq<char>, SourceRange)>) {
    if strict && (name == "eval"@ || name == "arguments"@) {
        (BindingCheckKind::StrictModeName, names)
    } else if parent is Some {
        if name == "let"@ {
            (BindingCheckKind::LetName, names)
        } else if spec_lookup(names, name) is Some {
            (BindingCheckKind::Duplicate, names)
        } else {
            (BindingCheckKind::Valid, names.push((name, range)))
        }
    } else {
        (BindingCheckKind::Valid, names)
    }
}

/// The kind of a binding check outcome.
#[derive(Clone, Copy, Debug, PartialEq, Eq, Structural)]
pub enum BindingCheckKind {
    Valid,
    StrictModeName,
    LetName,
    Duplicate,
}

/// The outcome with its messages, as validation reports it.
pub open spec fn spec_check_matches(
    c: BindingCheck,
    kind: BindingCheckKind,
    parent: Option<Seq<char>>,
    names: Seq<(Seq<char>, SourceRange)>,
    name: Seq<char>,
) -> bool {
    match c {
        BindingCheck::Valid => kind == BindingCheckKind::Valid,
        BindingCheck::StrictModeName { message } => kind == BindingCheckKind::StrictModeName
            && message@ == strict_message(name),
        BindingCheck::LetName { message, hint } => kind == BindingCheckKind::LetName && message@
            == let_message(parent->0) && hint@ == "Rename the let identifier here"@,
        BindingCheck::Duplicate { message, detail, first, first_detail } => kind
            == BindingCheckKind::Duplicate && message@ == duplicate_message(parent->0) && detail@
            == duplicate_detail(name) && Some(first) == spec_lookup(names, name) && first_detail@
            == first_declared_detail(name),
    }
}

/// The state's duplicate-binding parent, as characters.
pub open spec fn parent_view(s: BindingState) -> Option<Seq<char>> {
    match s.duplicate_binding_parent {
        Some(p) => Some(p@),
        None => None,
    }
}

/// Looks up the range a name was first bound at.
fn lookup(names: &Vec<BoundName>, name: &str) -> (r: Option<SourceRange>)
    ensures
        r == spec_lookup(names_view(names@), name@),
{
    let n = names.len();
    let mut i: usize = 0;
    assert(names_view(names@).subrange(0, n as int) =~= names_view(names@));
    while i < n
        invariant
            n == names@.len(),
            i <= n,
            spec_lookup(names_view(names@), name@) == spec_lookup(
                names_view(names@).subrange(i as int, n as int),
                name@,
            ),
        decreases n - i,
    {
        let ghost rest = names_view(names@).subrange(i as int, n as int);
        assert(rest[0] == (names@[i as int].name@, names@[i as int].range));
        if str_eq(names[i].name.as_str(), name) {
            return Some(names[i].range);
        }
        assert(rest.drop_first() =~= names_view(names@).subrange(i + 1, n as int));
        i = i + 1;
    }
    assert(names_view(names@).subrange(n as int, n as int) =~= Seq::<(Seq<char>, SourceRange)>::empty());
    None
}

/// Validates the binding identifier `name` at `range`: strict mode reserves
/// `eval` and `arguments`; inside a `let` or `const` declaration the name
/// `let` is refused and each name may be bound once, and a valid name is
/// recorded.
pub fn check_identifier_binding(state: &mut BindingState, name: &str, range: SourceRange) -> (r:
    BindingCheck)
    ensures
        final(state).strict_mode == old(state).strict_mode,
        parent_view(*final(state)) == parent_view(*old(state)),
        ({
            let (kind, names) = spec_binding_check(
                old(state).strict_mode,
                parent_view(*old(state)),
                names_view(old(state).name_map@),
                name@,
                range,
            );
            &&& names_view(final(state).name_map@) == names
            &&& spec_check_matches(
                r,
                kind,
                parent_view(*old(state)),
                names_view(old(state).name_map@),
                name@,
            )
        }),
{
    if state.strict_mode && (str_eq(name, "eval") || str_eq(name, "arguments")) {
        let message = String::from_str("Illegal use of `").concat(name).concat(
            "` as an identifier in strict mode",
        );
        return BindingCheck::StrictModeName { message };
    }
    match &state.duplicate_binding_parent {
        Some(parent) => {
            if str_eq(name, "let") {
                let message = String::from_str(
                    "`let` cannot be declared as a variable name inside of a `",
                ).concat(parent.as_str()).concat("` declaration");
                let hint = String::from_str("Rename the let identifier here");
                return BindingCheck::LetName { message, hint };
            }
            match lookup(&state.name_map, name) {
                Some(first) => {
                    let message = String::from_str("Declarations inside of a `").concat(
                        parent.as_str(),
                    ).concat("` declaration may not have duplicates");
                    let detail = String::from_str("a second declaration of `").concat(name).concat(
                        "` is not allowed",
                    );
                    let first_detail = String::from_str("`").concat(name).concat(
                        "` is first declared here",
                    );
                    return BindingCheck::Duplicate { message, detail, first, first_detail };
                },
                None => {},
            }
        },
        None => {
            return BindingCheck::Valid;
        },
    }
    let ghost before = names_view(state.name_map@);
    state.name_map.push(BoundName { name: String::from_str(name), range });
    assert(names_view(state.name_map@) =~= before.push((name@, range)));
    BindingCheck::Valid
}

/// Binding the same name twice in one `let` or `const` declaration is
/// refused the second time, and the report points at the first binding.
pub proof fn duplicate_binding_refused(
    strict: bool,
    parent: Seq<char>,
    names: Seq<(Seq<char>, SourceRange)>,
    name: Seq<char>,
    first: SourceRange,
    second: SourceRange,
)
    requires
        spec_binding_check(strict, Some(parent), names, name, first).0 == BindingCheckKind::Valid,
    ensures
        ({
            let after = spec_binding_check(strict, Some(parent), names, name, first).1;
            &&& spec_binding_check(strict, Some(parent), after, name, second).0
                == BindingCheckKind::Duplicate
            &&& spec_lookup(after, name) == Some(first)
        }),
{
    lemma_lookup_push(names, name, first);
}

/// Looking up a name added at the end of a list where it was absent finds it.
proof fn lemma_lookup_push(names: Seq<(Seq<char>, SourceRange)>, name: Seq<char>, range: SourceRange)
    requires
        spec_lookup(names, name) is None,
    ensures
        spec_lookup(names.push((name, range)), name) == Some(range),
    decreases names.len(),
{
    if names.len() > 0 {
        assert(names.push((name, range)).drop_first() =~= names.drop_first().push((name, range)));
        lemma_lookup_push(names.drop_first(), name, range);
    }
}

/// Outside a `let` or `const` declaration and outside strict mode, every
/// name is a valid binding and nothing is recorded.
pub proof fn binding_free_outside_declarations(
    names: Seq<(Seq<char>, SourceRange)>,
    name: Seq<char>,
    range: SourceRange,
)
    ensures
        spec_binding_check(false, None, names, name, range) == (BindingCheckKind::Valid, names),
{
}

/// In strict mode, binding `eval` or `arguments` is refused as a strict-mode
/// name, whatever declaration it stands in, and nothing is recorded.
pub proof fn strict_mode_reserves_eval_and_arguments(
    parent: Option<Seq<char>>,
    names: Seq<(Seq<char>, SourceRange)>,
    name: Seq<char>,
    range: SourceRange,
)
    requires
        name == "eval"@ || name == "arguments"@,
    ensures
        spec_binding_check(true, parent, names, name, range) == (
            BindingCheckKind::StrictModeName,
            names,
        ),
{
}

/// Outside strict mode every name is free of the strict-mode refusal:
/// `eval` and `arguments` bind like any other name.
pub proof fn sloppy_mode_allows_eval_and_arguments(
    parent: Option<Seq<char>>,
    names: Seq<(Seq<char>, SourceRange)>,
    name: Seq<char>,
    range: SourceRange,
)
    ensures
        spec_binding_check(false, parent, names, name, range).0
            != BindingCheckKind::StrictModeName,
{
}

/// Inside a `let` or `const` declaration the name `let` is refused, in
/// strict mode or not, and nothing is recorded.
pub proof fn let_refused_in_declarations(
    strict: bool,
    parent: Seq<char>,
    names: Seq<(Seq<char>, SourceRange)>,
    range: SourceRange,
)
    ensures
        spec_binding_check(strict, Some(parent), names, "let"@, range) == (
            BindingCheckKind::LetName,
            names,
        ),
{
    reveal_strlit("let");
    reveal_strlit("eval");
    reveal_strlit("arguments");
    assert("let"@.len() != "eval"@.len());
    assert("let"@.len() != "arguments"@.len());
}

/// Inside a `let` or `const` declaration, a name not bound before (and
/// neither `let` nor a strict-mode reserved name) is valid and recorded at
/// the end, with its range.
pub proof fn fresh_binding_recorded(
    strict: bool,
    parent: Seq<char>,
    names: Seq<(Seq<char>, SourceRange)>,
    name: Seq<char>,
    range: SourceRange,
)
    requires
        name != "let"@,
        !(strict && (name == "eval"@ || name == "arguments"@)),
        forall|i: int| 0 <= i < names.len() ==> (#[trigger] names[i]).0 != name,
    ensures
        spec_binding_check(strict, Some(parent), names, name, range) == (
            BindingCheckKind::Valid,
            names.push((name, range)),
        ),
{
    lemma_lookup_absent(names, name);
}

/// A name that no entry holds is not found.
proof fn lemma_lookup_absent(names: Seq<(Seq<char>, SourceRange)>, name: Seq<char>)
    requires
        forall|i: int| 0 <= i < names.len() ==> (#[trigger] names[i]).0 != name,
    ensures
        spec_lookup(names, name) is None,
    decreases names.len(),
{
    if names.len() > 0 {
        assert(names[0].0 != name);
        assert forall|i: int| 0 <= i < names.drop_first().len() implies (
        #[trigger] names.drop_first()[i]).0 != name by {
            assert(names.drop_first()[i] == names[i + 1]);
        }
        lemma_lookup_absent(names.drop_first(), name);
    }
}

/// The kind of node that an object rest pattern binds.
#[derive(Clone, Copy, Debug, PartialEq, Eq, Structural)]
pub enum RestTarget {
    IdentifierBinding,
    BogusBinding,
    OtherPattern,
}

/// What the parser does with the pattern after `...` in an object pattern.
#[derive(Clone, Copy, Debug, PartialEq, Eq, Structural)]
pub struct RestCheck {
    /// Report "Expected identifier binding".
    pub report: bool,
    /// Turn the pattern into a bogus binding.
    pub make_bogus: bool,
}

/// An object rest pattern must bind an identifier: any other pattern
/// becomes bogus, and is reported unless it was bogus already.
pub fn check_object_rest_target(target: RestTarget) -> (r: RestCheck)
    ensures
        r.make_bogus == (target != RestTarget::IdentifierBinding),
        r.report == (target == RestTarget::OtherPattern),
{
    match target {
        RestTarget::IdentifierBinding => RestCheck { report: false, make_bogus: false },
        RestTarget::BogusBinding => RestCheck { report: false, make_bogus: true },
        RestTarget::OtherPattern => RestCheck { report: true, make_bogus: true },
    }
}

/// The message of a refused object rest pattern, and its hint.
pub fn object_rest_error() -> (r: (&'static str, &'static str))
    ensures
        r.0@ == "Expected identifier binding"@,
        r.1@ == "Object rest patterns must bind to an identifier, other patterns are not allowed."@,
{
    (
        "Expected identifier binding",
        "Object rest patterns must bind to an identifier, other patterns are not allowed.",
    )
}

/// The kind of property that an object binding pattern holds.
#[derive(Clone, Copy, Debug, PartialEq, Eq, Structural)]
pub enum PropertyPatternKind {
    /// `{ a }` or `{ a = 1 }`: a binding that names the property.
    Shorthand,
    /// `{ a: b }`: a member name, `:` and a binding pattern.
    Property,
}

/// The lookahead that decides a property pattern.
#[derive(Clone, Copy, Debug, PartialEq, Eq, Structural)]
pub struct PropertyLookahead {
    pub at_object_member_name: bool,
    pub at_metavariable: bool,
    pub at_identifier_binding: bool,
    pub at_colon: bool,
    pub at_eq: bool,
    /// The token after the current one is `:`.
    pub next_is_colon: bool,
}

/// The property pattern that the parser reads at a position, or `None`
/// when none starts there.
pub open spec fn spec_property_pattern(l: PropertyLookahead) -> Option<PropertyPatternKind> {
    if !l.at_object_member_name && !l.at_metavariable && !(l.at_colon || l.at_eq) {
        None
    } else if l.at_eq || ((l.at_identifier_binding || l.at_metavariable) && !l.next_is_colon) {
        Some(PropertyPatternKind::Shorthand)
    } else {
        Some(PropertyPatternKind::Property)
    }
}

/// Decides which property pattern starts at the current position.
pub fn property_pattern_kind(l: PropertyLookahead) -> (r: Option<PropertyPatternKind>)
    ensures
        r == spec_property_pattern(l),
{
    if !l.at_object_member_name && !l.at_metavariable && !(l.at_colon || l.at_eq) {
        return None;
    }
    if l.at_eq || ((l.at_identifier_binding || l.at_metavariable) && !l.next_is_colon) {
        Some(PropertyPatternKind::Shorthand)
    } else {
        Some(PropertyPatternKind::Property)
    }
}

/// The token that a binding pattern starts with.
#[derive(Clone, Copy, Debug, PartialEq, Eq, Structural)]
pub enum PatternStart {
    LBracket,
    LBrace,
    Other,
}

/// The parser that a binding pattern goes to.
#[derive(Clone, Copy, Debug, PartialEq, Eq, Structural)]
pub enum PatternParser {
    ArrayPattern,
    ObjectPattern,
    IdentifierBinding,
}

/// `[` starts an array pattern, `{` an object pattern where object
/// expressions are allowed, anything else an identifier binding.
pub fn binding_pattern_parser(start: PatternStart, object_allowed: bool) -> (r: PatternParser)
    ensures
        r == (if start == PatternStart::LBracket {
            PatternParser::ArrayPattern
        } else if start == PatternStart::LBrace && object_allowed {
            PatternParser::ObjectPattern
        } else {
            PatternParser::IdentifierBinding
        }),
{
    match start {
        PatternStart::LBracket => PatternParser::ArrayPattern,
        PatternStart::LBrace if object_allowed => PatternParser::ObjectPattern,
        _ => PatternParser::IdentifierBinding,
    }
}

/// A binding identifier starts at the `n`-th token if an identifier or a
/// metavariable does.
pub fn is_nth_at_identifier_binding(at_identifier: bool, at_metavariable: bool) -> (r: bool)
    ensures
        r == (at_identifier || at_metavariable),
{
    at_identifier || at_metavariable
}

/// What may stand in an array binding pattern, for the error message.
pub fn array_element_expectations() -> (r: Vec<&'static str>)
    ensures
        r@.len() == 4,
        r@[0]@ == "identifier"@,
        r@[1]@ == "object pattern"@,
        r@[2]@ == "array pattern"@,
        r@[3]@ == "rest pattern"@,
{
    vec!["identifier", "object pattern", "array pattern", "rest pattern"]
}

/// What may stand in an object binding pattern, for the error message.
pub fn object_property_expectations() -> (r: Vec<&'static str>)
    ensures
        r@.len() == 3,
        r@[0]@ == "identifier"@,
        r@[1]@ == "member name"@,
        r@[2]@ == "rest pattern"@,
{
    vec!["identifier", "member name", "rest pattern"]
}

} // verus!
