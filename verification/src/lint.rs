//! Decisions of four lint rules, over what the rules read from the syntax
//! tree: `noShoutyConstants`, `noUselessEmptyExport`, `noRestrictedTypes`
//! and `useSemanticElements`.
use vstd::prelude::*;
use vstd::string::*;
use crate::order::strings;
use crate::text::{char_is_lowercase, is_lowercase, str_eq};

verus! {

// ---------------------------------------------------------------------------
// noShoutyConstants

/// No character of `s` is lower case.
pub open spec fn spec_no_lowercase(s: Seq<char>) -> bool {
    forall|i: int| 0 <= i < s.len() ==> !char_is_lowercase(#[trigger] s[i])
}

/// A constant is shouty when its name and its string value hold the same
/// characters, none of them lower case, as in `const FOO = "FOO"`.
pub open spec fn spec_shouty(id: Seq<char>, literal: Seq<char>) -> bool {
    id == literal && spec_no_lowercase(id)
}

/// Whether a declarator's name and its string value hold the same text:
/// `a = "a"` matches, `a = "b"` does not.
pub fn is_id_and_string_literal_inner_text_equal(id_text: &str, literal_text: &str) -> (r: bool)
    ensures
        r == (id_text@ == literal_text@),
{
    str_eq(id_text, literal_text)
}

/// Whether no character of a name is lower case.
pub fn has_no_lowercase(name: &str) -> (r: bool)
    ensures
        r == spec_no_lowercase(name@),
{
    let n = name.unicode_len();
    let mut i: usize = 0;
    while i < n
        invariant
            n == name@.len(),
            i <= n,
            forall|k: int| 0 <= k < i ==> !char_is_lowercase(#[trigger] name@[k]),
        decreases n - i,
    {
        if is_lowercase(name.get_char(i)) {
            return false;
        }
        i = i + 1;
    }
    true
}

/// What `noShoutyConstants` reads from a variable declarator.
#[derive(Debug)]
pub struct ShoutyDeclarator {
    /// The declaration is `const`.
    pub is_const: bool,
    /// The name, when the declarator binds a plain identifier.
    pub binding_name: Option<String>,
    /// The inner text, when the initializer is a string literal.
    pub literal_text: Option<String>,
    /// The binding is exported.
    pub exported: bool,
    /// How many times the binding is referenced.
    pub reference_count: usize,
}

/// Whether the rule reports a declarator: a `const` whose string value
/// repeats its upper-case name, not exported, used exactly once.
pub open spec fn spec_shouty_signal(d: ShoutyDeclarator) -> bool {
    &&& d.is_const
    &&& d.binding_name is Some
    &&& d.literal_text is Some
    &&& spec_shouty(d.binding_name->0@, d.literal_text->0@)
    &&& !d.exported
    &&& d.reference_count == 1
}

/// Decides whether `noShoutyConstants` reports a declarator.
pub fn no_shouty_constants_signal(d: &ShoutyDeclarator) -> (r: bool)
    ensures
        r == spec_shouty_signal(*d),
{
    if !d.is_const {
        return false;
    }
    match (&d.binding_name, &d.literal_text) {
        (Some(name), Some(literal)) => {
            if !is_id_and_string_literal_inner_text_equal(name.as_str(), literal.as_str()) {
                return false;
            }
            if !has_no_lowercase(name.as_str()) {
                return false;
            }
            if d.exported {
                return false;
            }
            if d.reference_count > 1 {
                return false;
            }
            d.reference_count == 1
        },
        _ => false,
    }
}

/// `noShoutyConstants` reports exactly the `const` declarators that are
/// not exported, are referenced exactly once, and whose name equals their
/// string value and holds no lower-case character: `const foo = "foo"` is
/// never reported.
pub proof fn shouty_report_conditions(d: ShoutyDeclarator)
    ensures
        spec_shouty_signal(d) <==> (d.is_const && !d.exported && d.reference_count == 1
            && d.binding_name is Some && d.literal_text is Some && d.binding_name->0@
            == d.literal_text->0@ && forall|i: int|
            0 <= i < d.binding_name->0@.len() ==> !char_is_lowercase(
                #[trigger] d.binding_name->0@[i],
            )),
        d.binding_name matches Some(n) && (exists|i: int|
            0 <= i < n@.len() && char_is_lowercase(#[trigger] n@[i])) ==> !spec_shouty_signal(d),
{
}

/// The texts of a `noShoutyConstants` report: the message, the detail at
/// the reference, and the note.
pub fn no_shouty_constants_texts() -> (r: (&'static str, &'static str, &'static str))
    ensures
        r.0@ == "Redundant constant declaration."@,
        r.1@ == "Used here."@,
        r.2@ == "You should avoid declaring constants with a string that's the same\n    value as the variable name. It introduces a level of unnecessary\n    indirection when it's only two additional characters to inline."@,
{
    (
        "Redundant constant declaration.",
        "Used here.",
        "You should avoid declaring constants with a string that's the same\n    value as the variable name. It introduces a level of unnecessary\n    indirection when it's only two additional characters to inline.",
    )
}

/// Where the single reference to a reported constant stands.
#[derive(Clone, Copy, Debug, PartialEq, Eq, Structural)]
pub enum ReferenceParent {
    /// An identifier expression, as in `console.log(FOO)`.
    IdentifierExpression,
    /// A shorthand object property, as in `{ FOO }`.
    ShorthandProperty,
    /// Anything else.
    Other,
}

/// How the fix rewrites the reference, once the declarator is removed.
#[derive(Clone, Copy, Debug, PartialEq, Eq, Structural)]
pub enum ShoutyFix {
    /// Replace the identifier expression by the string literal.
    InlineLiteral,
    /// Replace `{ FOO }` by `{ FOO: "FOO" }`.
    ExpandProperty,
}

/// The fix of a reported constant: none when the reference stands elsewhere.
pub fn no_shouty_constants_fix(parent: ReferenceParent) -> (r: Option<ShoutyFix>)
    ensures
        r == (match parent {
            ReferenceParent::IdentifierExpression => Some(ShoutyFix::InlineLiteral),
            ReferenceParent::ShorthandProperty => Some(ShoutyFix::ExpandProperty),
            ReferenceParent::Other => None,
        }),
{
    match parent {
        ReferenceParent::IdentifierExpression => Some(ShoutyFix::InlineLiteral),
        ReferenceParent::ShorthandProperty => Some(ShoutyFix::ExpandProperty),
        ReferenceParent::Other => None,
    }
}

// ---------------------------------------------------------------------------
// noUselessEmptyExport

/// A top-level item of a module, as `noUselessEmptyExport` sees it.
#[derive(Clone, Copy, Debug, PartialEq, Eq, Structural)]
pub enum ModuleItem {
    Statement,
    Import,
    /// An export; `empty` for `export {}`.
    Export { empty: bool },
}

/// An export is empty when its clause is a named clause without specifiers;
/// `named_specifiers` is the number of specifiers of a named clause, `None`
/// for any other clause.
pub fn is_empty_export(named_specifiers: Option<usize>) -> (r: bool)
    ensures
        r == (named_specifiers == Some(0usize)),
{
    match named_specifiers {
        Some(count) => count == 0,
        None => false,
    }
}

/// Whether item `i` makes the empty export at `q` useless: an import, a
/// non-empty export, or another empty export after it.
pub open spec fn spec_makes_useless(items: Seq<ModuleItem>, q: int, i: int) -> bool {
    match items[i] {
        ModuleItem::Statement => false,
        ModuleItem::Import => true,
        ModuleItem::Export { empty } => !empty || i > q,
    }
}

/// What makes an empty export useless: any import, any non-empty export,
/// or another empty export after it; a plain statement never does, nor an
/// empty export at or before it.
pub proof fn useless_export_reasons(items: Seq<ModuleItem>, q: int, i: int)
    requires
        0 <= i < items.len(),
    ensures
        items[i] == ModuleItem::Import ==> spec_makes_useless(items, q, i),
        items[i] == (ModuleItem::Export { empty: false }) ==> spec_makes_useless(items, q, i),
        items[i] == (ModuleItem::Export { empty: true }) ==> (spec_makes_useless(items, q, i)
            <==> i > q),
        items[i] == ModuleItem::Statement ==> !spec_makes_useless(items, q, i),
{
}

/// The item that `noUselessEmptyExport` reports for the export at `q`: the
/// first item that makes it useless, if `q` is an empty export.
pub fn no_useless_empty_export(items: &Vec<ModuleItem>, q: usize) -> (r: Option<usize>)
    requires
        q < items@.len(),
        items@[q as int] is Export,
    ensures
        r is None <==> (items@[q as int] == (ModuleItem::Export { empty: false }) || forall|i: int|
            0 <= i < items@.len() ==> !spec_makes_useless(items@, q as int, i)),
        r matches Some(i) ==> {
            &&& items@[q as int] == (ModuleItem::Export { empty: true })
            &&& i < items@.len()
            &&& spec_makes_useless(items@, q as int, i as int)
            &&& forall|k: int| 0 <= k < i ==> !spec_makes_useless(items@, q as int, k)
        },
{
    if items[q] != (ModuleItem::Export { empty: true }) {
        return None;
    }
    let mut ignore_empty_export = true;
    let n = items.len();
    let mut i: usize = 0;
    while i < n
        invariant
            n == items@.len(),
            q < n,
            i <= n,
            items@[q as int] == (ModuleItem::Export { empty: true }),
            ignore_empty_export == (i <= q),
            forall|k: int| 0 <= k < i ==> !spec_makes_useless(items@, q as int, k),
        decreases n - i,
    {
        match items[i] {
            ModuleItem::Statement => {},
            ModuleItem::Import => {
                assert(spec_makes_useless(items@, q as int, i as int));
                return Some(i);
            },
            ModuleItem::Export { empty } => {
                if !empty {
                    assert(spec_makes_useless(items@, q as int, i as int));
                    return Some(i);
                }
                if !ignore_empty_export {
                    assert(spec_makes_useless(items@, q as int, i as int));
                    return Some(i);
                }
                if i == q {
                    ignore_empty_export = false;
                }
            },
        }
        i = i + 1;
    }
    None
}

/// The detail of a `noUselessEmptyExport` report, at the `import` or
/// `export` keyword `token` that makes the empty export useless.
pub fn useless_empty_export_detail(token: &str) -> (r: String)
    ensures
        r@ == "This "@ + token@ + " makes useless the empty export."@,
{
    String::from_str("This ").concat(token).concat(" makes useless the empty export.")
}

/// The message of a `noUselessEmptyExport` report.
pub fn useless_empty_export_message() -> (r: &'static str)
    ensures
        r@ == "This empty export is useless because there's another export or import."@,
{
    "This empty export is useless because there's another export or import."
}

// ---------------------------------------------------------------------------
// noRestrictedTypes

/// Whether a string is a JavaScript identifier, as Biome's unicode table decides it.
pub uninterp spec fn js_ident(s: Seq<char>) -> bool;

/// Calls `biome_unicode_table::is_js_ident`: whether `s` is a JavaScript
/// identifier (a start character, then continue characters). The contract
/// names the result and states only that the empty string is none.
#[verifier::external_body]
fn is_js_ident(s: &str) -> (r: bool)
    ensures
        r == js_ident(s@),
        s@.len() == 0 ==> !r,
{
    biome_unicode_table::is_js_ident(s)
}

/// A restricted type name, with the message and the suggested replacement.
#[derive(Debug)]
pub struct RestrictedType {
    pub name: String,
    pub message: String,
    pub use_instead: Option<String>,
}

/// The options of `noRestrictedTypes`, one entry per restricted name.
#[derive(Debug)]
pub struct RestrictedTypes {
    pub types: Vec<RestrictedType>,
}

/// The index of the first entry for `name`.
pub open spec fn spec_first_entry(types: Seq<RestrictedType>, name: Seq<char>) -> Option<int>
    decreases types.len(),
{
    if types.len() == 0 {
        None
    } else if types.last().name@ == name && spec_first_entry(types.drop_last(), name) is None {
        Some(types.len() - 1)
    } else {
        spec_first_entry(types.drop_last(), name)
    }
}

/// The entry that `noRestrictedTypes` uses for a name is the first entry
/// with that name: when there is one, it holds the name and no earlier
/// entry does; when there is none, no entry holds the name.
pub proof fn first_entry_is_first(types: Seq<RestrictedType>, name: Seq<char>)
    ensures
        match spec_first_entry(types, name) {
            Some(k) => 0 <= k < types.len() && types[k].name@ == name && forall|j: int|
                0 <= j < k ==> (#[trigger] types[j]).name@ != name,
            None => forall|j: int| 0 <= j < types.len() ==> (#[trigger] types[j]).name@ != name,
        },
    decreases types.len(),
{
    if types.len() > 0 {
        let rest = types.drop_last();
        first_entry_is_first(rest, name);
        assert forall|j: int| 0 <= j < rest.len() implies rest[j] == types[j] by {}
    }
}

/// The report of a restricted type: its message and suggested replacement.
#[derive(Debug)]
pub struct RestrictedTypeReport {
    pub message: String,
    pub use_instead: Option<String>,
}

/// Looks up the referenced type name in the options.
pub fn no_restricted_types(options: &RestrictedTypes, name: &str) -> (r: Option<RestrictedTypeReport>)
    ensures
        match spec_first_entry(options.types@, name@) {
            None => r is None,
            Some(k) => r matches Some(rep) && rep.message@ == options.types@[k].message@ && match (
                rep.use_instead,
                options.types@[k].use_instead,
            ) {
                (Some(a), Some(b)) => a@ == b@,
                (None, None) => true,
                _ => false,
            },
        },
{
    let n = options.types.len();
    let mut i: usize = 0;
    while i < n
        invariant
            n == options.types@.len(),
            i <= n,
            spec_first_entry(options.types@.subrange(0, i as int), name@) is None,
        decreases n - i,
    {
        let ghost sub = options.types@.subrange(0, i + 1);
        assert(sub.drop_last() =~= options.types@.subrange(0, i as int));
        if str_eq(options.types[i].name.as_str(), name) {
            proof {
                lemma_first_entry_extend(options.types@, name@, i as int + 1);
            }
            let entry = &options.types[i];
            let use_instead = match &entry.use_instead {
                Some(u) => Some(u.clone()),
                None => None,
            };
            return Some(RestrictedTypeReport { message: entry.message.clone(), use_instead });
        }
        i = i + 1;
    }
    assert(options.types@.subrange(0, n as int) =~= options.types@);
    None
}

/// A first entry among a prefix stays the first entry of the whole list.
proof fn lemma_first_entry_extend(types: Seq<RestrictedType>, name: Seq<char>, k: int)
    requires
        0 < k <= types.len(),
        spec_first_entry(types.subrange(0, k), name) is Some,
    ensures
        spec_first_entry(types, name) == spec_first_entry(types.subrange(0, k), name),
    decreases types.len(),
{
    if k < types.len() {
        assert(types.drop_last().subrange(0, k) =~= types.subrange(0, k));
        lemma_first_entry_extend(types.drop_last(), name, k);
    } else {
        assert(types.subrange(0, k) =~= types);
    }
}

/// The fix of a restricted type: the suggested name replaces the reference
/// when there is one and it is a JavaScript identifier.
pub fn no_restricted_types_fix(report: &RestrictedTypeReport) -> (r: Option<String>)
    ensures
        match report.use_instead {
            Some(s) => if js_ident(s@) {
                r matches Some(t) && t@ == s@
            } else {
                r is None
            },
            None => r is None,
        },
{
    match &report.use_instead {
        Some(suggested) => {
            if !is_js_ident(suggested.as_str()) {
                return None;
            }
            Some(suggested.clone())
        },
        None => None,
    }
}

/// The message of the fix that replaces a restricted type by `suggested`.
pub fn restricted_type_fix_message(suggested: &str) -> (r: String)
    ensures
        r@ == "Use '"@ + suggested@ + "' instead"@,
{
    String::from_str("Use '").concat(suggested).concat("' instead")
}

// ---------------------------------------------------------------------------
// useSemanticElements

/// The HTML elements that carry an ARIA role natively.
#[derive(Debug)]
pub struct RoleElements {
    pub base: Vec<String>,
    pub related: Vec<String>,
}

/// Whether `useSemanticElements` reports a `role` attribute with the static
/// value `role_value`; `role` is the role that the value names, if known.
/// `role="img"` is allowed on any element.
pub fn use_semantic_elements(role_value: &str, role: &Option<RoleElements>) -> (r: bool)
    ensures
        r == (role_value@ != "img"@ && match role {
            Some(e) => e.base@.len() > 0 || e.related@.len() > 0,
            None => false,
        }),
{
    if str_eq(role_value, "img") {
        return false;
    }
    match role {
        Some(e) => !(e.base.len() == 0 && e.related.len() == 0),
        None => false,
    }
}

/// The lines of `names` joined by newlines.
pub open spec fn spec_join_lines(names: Seq<Seq<char>>) -> Seq<char>
    decreases names.len(),
{
    if names.len() == 0 {
        Seq::empty()
    } else if names.len() == 1 {
        names[0]
    } else {
        spec_join_lines(names.drop_last()) + "\n"@ + names.last()
    }
}

/// The report of a role: the elements that can replace it, base elements
/// first, one per line.
pub fn use_semantic_elements_message(role: &RoleElements) -> (r: String)
    ensures
        r@ == "The elements with this role can be changed to the following elements:\n"@
            + spec_join_lines(strings(role.base) + strings(role.related)),
{
    let mut list = String::new();
    let ghost all = strings(role.base) + strings(role.related);
    let nb = role.base.len();
    let nr = role.related.len();
    assert(all.subrange(0, 0) =~= Seq::<Seq<char>>::empty());
    let mut i: usize = 0;
    while i < nb
        invariant
            nb == role.base@.len(),
            all == strings(role.base) + strings(role.related),
            i <= nb,
            list@ == spec_join_lines(all.subrange(0, i as int)),
        decreases nb - i,
    {
        let name = role.base[i].as_str();
        assert(name@ == all[i as int]);
        let ghost sub = all.subrange(0, i + 1);
        assert(sub.drop_last() =~= all.subrange(0, i as int));
        if i > 0 {
            list.append("\n");
        }
        list.append(name);
        i = i + 1;
    }
    let mut j: usize = 0;
    while j < nr
        invariant
            nb == role.base@.len(),
            nr == role.related@.len(),
            all == strings(role.base) + strings(role.related),
            j <= nr,
            list@ == spec_join_lines(all.subrange(0, nb + j)),
        decreases nr - j,
    {
        let name = role.related[j].as_str();
        assert(name@ == all[nb + j]);
        let ghost sub = all.subrange(0, nb + j + 1);
        assert(sub.drop_last() =~= all.subrange(0, nb + j));
        if nb > 0 || j > 0 {
            list.append("\n");
        }
        list.append(name);
        j = j + 1;
    }
    assert(all.subrange(0, nb + nr) =~= all);
    String::from_str("The elements with this role can be changed to the following elements:\n").concat(
        list.as_str(),
    )
}

} // verus!
