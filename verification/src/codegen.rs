//! Planning of the formatter code generator: for every node type of a
//! language grammar, the module that holds its formatting rule, the shape of
//! the default rule, and which files generation writes, declares, deletes
//! and stages.
use vstd::prelude::*;
use vstd::string::*;
use crate::language::LanguageKind;
use crate::module_index::{
    ModFile, ModuleIndex, mod_file_view, spec_first_failure, spec_insert_levels, spec_level_checks,
    spec_mod_file, spec_mod_paths, spec_remove_all, spec_remove_each,
};
use crate::node::{
    NodeConcept, NodeDialect, NodeKind, NodeModuleInformation, get_node_concept, name_to_module,
    spec_concept_dir, spec_dialect_dir, spec_is_node_name, spec_module_info_matches,
    spec_node_concept, spec_all_dialects,
};
use crate::order::strings;
use crate::paths::{copy_path, join, path_view, paths_view};
use crate::repo::{CheckFailure, GitRepo, PathCheckError};
use crate::text::{seq_contains, seq_ends_with};

verus! {

/// A node type of a grammar.
#[derive(Debug)]
pub struct NodeEntry {
    pub kind: NodeKind,
    pub name: String,
}

/// The default formatting rule generated for a node type.
#[derive(Debug)]
pub enum Template {
    /// A list without separators: its elements are joined.
    JoinedList,
    /// A separated list: formatted verbatim.
    VerbatimList,
    /// A CSS property: name, colon, a space and the value.
    CssProperty,
    /// Any other node: formatted verbatim.
    VerbatimNode,
    /// A bogus node.
    Bogus,
    /// A union: each variant formats the node it wraps.
    Union { variants: Vec<String> },
}

/// The `FormatRule` implementation that the boilerplate file holds for a node type.
#[derive(Clone, Copy, Debug, PartialEq, Eq, Structural)]
pub enum BoilerplateRule {
    /// Lists and unions implement `FormatRule` themselves.
    Absent,
    /// Delegates to `FormatNodeRule`.
    Node,
    /// Delegates to `FormatBogusNodeRule`.
    Bogus,
}

/// Everything that generation needs to know about one node type.
#[derive(Debug)]
pub struct NodePlan {
    pub module: NodeModuleInformation,
    pub node_id: String,
    pub fields_id: String,
    pub format_id: String,
    pub template: Template,
    /// Union rules are always regenerated; other files are written only when missing.
    pub allow_overwrite: bool,
    pub boilerplate: BoilerplateRule,
}

/// The template that generation picks for a node type; `name` is the full
/// node name, prefix included.
pub open spec fn spec_template_matches(
    t: Template,
    kind: NodeKind,
    language: LanguageKind,
    dialect: NodeDialect,
    name: Seq<char>,
) -> bool {
    match kind {
        NodeKind::List { separated } => if separated {
            t is VerbatimList
        } else {
            t is JoinedList
        },
        NodeKind::Node => if language == LanguageKind::Css && spec_node_concept(
            kind,
            dialect,
            language,
            name,
        ) == NodeConcept::Property {
            t is CssProperty
        } else {
            t is VerbatimNode
        },
        NodeKind::Bogus => t is Bogus,
        NodeKind::Union { variants } => match t {
            Template::Union { variants: v } => strings(v) == strings(variants),
            _ => false,
        },
    }
}

/// The boilerplate rule of a node kind.
pub open spec fn spec_boilerplate(kind: NodeKind) -> BoilerplateRule {
    match kind {
        NodeKind::List { .. } => BoilerplateRule::Absent,
        NodeKind::Union { .. } => BoilerplateRule::Absent,
        NodeKind::Bogus => BoilerplateRule::Bogus,
        NodeKind::Node => BoilerplateRule::Node,
    }
}

/// Name of the rule trait that a boilerplate rule delegates to.
pub open spec fn spec_boilerplate_ident(rule: BoilerplateRule) -> Option<Seq<char>> {
    match rule {
        BoilerplateRule::Absent => None,
        BoilerplateRule::Node => Some("FormatNodeRule"@),
        BoilerplateRule::Bogus => Some("FormatBogusNodeRule"@),
    }
}

/// The rule file that generation writes for a node type: a list without
/// separators joins its elements, a separated list and any plain node
/// outside CSS are formatted verbatim, a CSS property prints its name, a
/// colon and its value, a bogus node gets the bogus rule and a union one
/// arm per variant. In the boilerplate, plain nodes delegate to
/// `FormatNodeRule`, bogus nodes to `FormatBogusNodeRule`, and lists and
/// unions to nothing.
pub proof fn templates_by_kind(
    t: Template,
    kind: NodeKind,
    language: LanguageKind,
    dialect: NodeDialect,
    name: Seq<char>,
)
    requires
        spec_template_matches(t, kind, language, dialect, name),
    ensures
        kind == (NodeKind::List { separated: false }) ==> t is JoinedList,
        kind == (NodeKind::List { separated: true }) ==> t is VerbatimList,
        kind is Bogus ==> t is Bogus,
        kind is Union ==> t is Union,
        kind is Node && language != LanguageKind::Css ==> t is VerbatimNode,
        kind is Node && language == LanguageKind::Css && seq_ends_with(name, "Property"@)
            && !seq_ends_with(name, "AtRule"@) && !seq_ends_with(name, "Selector"@) && !seq_contains(
            name,
            "Pseudo"@,
        ) ==> t is CssProperty,
        kind is Node ==> spec_boilerplate_ident(spec_boilerplate(kind)) == Some("FormatNodeRule"@),
        kind is Bogus ==> spec_boilerplate_ident(spec_boilerplate(kind)) == Some(
            "FormatBogusNodeRule"@,
        ),
        kind is List || kind is Union ==> spec_boilerplate_ident(spec_boilerplate(kind)) is None,
{
}

impl BoilerplateRule {
    /// The boilerplate rule of a node kind.
    pub fn of_kind(kind: &NodeKind) -> (r: BoilerplateRule)
        ensures
            r == spec_boilerplate(*kind),
    {
        match kind {
            NodeKind::List { .. } | NodeKind::Union { .. } => BoilerplateRule::Absent,
            NodeKind::Bogus => BoilerplateRule::Bogus,
            NodeKind::Node => BoilerplateRule::Node,
        }
    }

    /// Name of the rule trait to delegate to, if any.
    pub fn ident(&self) -> (r: Option<&'static str>)
        ensures
            r matches Some(s) ==> spec_boilerplate_ident(*self) == Some(s@),
            r is None <==> spec_boilerplate_ident(*self) is None,
    {
        match self {
            BoilerplateRule::Absent => None,
            BoilerplateRule::Node => Some("FormatNodeRule"),
            BoilerplateRule::Bogus => Some("FormatBogusNodeRule"),
        }
    }
}

/// The plan that generation makes for one node type.
pub open spec fn spec_plan_matches(p: NodePlan, e: NodeEntry, language: LanguageKind) -> bool {
    &&& spec_module_info_matches(p.module, e.kind, e.name@, language)
    &&& p.node_id@ == e.name@
    &&& p.fields_id@ == e.name@ + "Fields"@
    &&& p.format_id@ == "Format"@ + e.name@
    &&& spec_template_matches(p.template, e.kind, language, p.module.dialect, e.name@)
    &&& p.allow_overwrite == (e.kind is Union)
    &&& p.boilerplate == spec_boilerplate(e.kind)
}

/// Plans the formatting rule of one node type.
pub fn plan_node(entry: &NodeEntry, language: LanguageKind) -> (r: NodePlan)
    requires
        spec_is_node_name(entry.name@),
    ensures
        spec_plan_matches(r, *entry, language),
{
    let name = entry.name.as_str();
    let module = name_to_module(&entry.kind, name, language);
    let node_id = String::from_str(name);
    let fields_id = String::from_str(name).concat("Fields");
    let format_id = String::from_str("Format").concat(name);
    let template = match &entry.kind {
        NodeKind::List { separated } => if *separated {
            Template::VerbatimList
        } else {
            Template::JoinedList
        },
        NodeKind::Node => {
            if matches!(language, LanguageKind::Css) && matches!(
                get_node_concept(&entry.kind, &module.dialect, &language, name),
                NodeConcept::Property
            ) {
                Template::CssProperty
            } else {
                Template::VerbatimNode
            }
        },
        NodeKind::Bogus => Template::Bogus,
        NodeKind::Union { variants } => Template::Union { variants: copy_path(variants) },
    };
    let allow_overwrite = matches!(entry.kind, NodeKind::Union { .. });
    let boilerplate = BoilerplateRule::of_kind(&entry.kind);
    NodePlan { module, node_id, fields_id, format_id, template, allow_overwrite, boilerplate }
}

/// Plans every node type of a grammar.
pub fn plan_nodes(entries: &Vec<NodeEntry>, language: LanguageKind) -> (r: Vec<NodePlan>)
    requires
        forall|i: int| 0 <= i < entries@.len() ==> spec_is_node_name(#[trigger] entries@[i].name@),
    ensures
        r@.len() == entries@.len(),
        forall|i: int| 0 <= i < entries@.len() ==> spec_plan_matches(#[trigger] r@[i], entries@[i], language),
{
    let mut r: Vec<NodePlan> = Vec::new();
    let n = entries.len();
    let mut i: usize = 0;
    while i < n
        invariant
            n == entries@.len(),
            i <= n,
            r@.len() == i,
            forall|k: int| 0 <= k < entries@.len() ==> spec_is_node_name(#[trigger] entries@[k].name@),
            forall|k: int| 0 <= k < i ==> spec_plan_matches(#[trigger] r@[k], entries@[k], language),
        decreases n - i,
    {
        r.push(plan_node(&entries[i], language));
        i = i + 1;
    }
    r
}

/// The file of a module: `<root>/<dialect>/<concept>/<name>.rs`.
pub open spec fn spec_node_path(root: Seq<Seq<char>>, m: NodeModuleInformation) -> Seq<Seq<char>> {
    root.push(spec_dialect_dir(m.dialect)).push(spec_concept_dir(m.concept)).push(m.name@ + ".rs"@)
}

/// The file of a module below the formatter crate's source directory `root`.
pub fn node_file_path(root: &Vec<String>, module: &NodeModuleInformation) -> (r: Vec<String>)
    ensures
        path_view(r) == spec_node_path(path_view(*root), *module),
{
    let a = join(root, module.dialect.as_str());
    let b = join(&a, module.concept.as_str());
    let file = module.name.clone().concat(".rs");
    join(&b, file.as_str())
}

/// Whether generation writes a rule file: always for regenerated rules,
/// otherwise only when the file does not exist yet.
pub fn should_write(allow_overwrite: bool, exists: bool) -> (r: bool)
    ensures
        r == (allow_overwrite || !exists),
{
    allow_overwrite || !exists
}

/// What generation does for one formatter crate.
#[derive(Debug)]
pub struct FormatterOutput {
    /// Indices of the plans whose rule file is written, in order.
    pub written: Vec<usize>,
    /// The declared modules after every node type was recorded.
    pub index: ModuleIndex,
    /// The `mod.rs` files to write.
    pub mod_files: Vec<ModFile>,
    /// The files that no generated module uses, to delete.
    pub deleted: Vec<Vec<String>>,
    /// The files to add to the git index.
    pub stage: Vec<Vec<String>>,
}

/// What generation reads for one formatter crate.
#[derive(Debug)]
pub struct FormatterInput {
    /// Whether the formatter crate exists; generation skips a missing one.
    pub crate_exists: bool,
    /// The crate's source directory, relative to the project root.
    pub src_root: Vec<String>,
    /// One plan per node type of the grammar.
    pub plans: Vec<NodePlan>,
    /// For each plan, whether its rule file exists already.
    pub exists: Vec<bool>,
    /// The files found below the crate's dialect directories.
    pub existing_files: Vec<Vec<String>>,
}

/// The rule files of the plans.
pub open spec fn spec_plan_paths(root: Seq<Seq<char>>, plans: Seq<NodePlan>) -> Seq<Seq<Seq<char>>> {
    plans.map_values(|p: NodePlan| spec_node_path(root, p.module))
}

/// For each plan, whether its rule file is written.
pub open spec fn spec_writes(plans: Seq<NodePlan>, exists: Seq<bool>) -> Seq<bool> {
    Seq::new(plans.len(), |k: int| plans[k].allow_overwrite || !exists[k])
}

/// The files that the guard checks for the first `i` node types, in order:
/// the `mod.rs` files above each rule file, then the rule file if written.
pub open spec fn spec_gen_checks(
    paths: Seq<Seq<Seq<char>>>,
    writes: Seq<bool>,
    rlen: int,
    i: int,
) -> Seq<Seq<Seq<char>>>
    decreases i,
{
    if i <= 0 {
        Seq::empty()
    } else {
        spec_gen_checks(paths, writes, rlen, i - 1) + spec_level_checks(
            paths[i - 1],
            rlen,
            paths[i - 1].len() - 1,
        ) + if writes[i - 1] {
            seq![paths[i - 1]]
        } else {
            Seq::empty()
        }
    }
}

/// The declared modules after recording the first `i` rule files.
pub open spec fn spec_index_map(paths: Seq<Seq<Seq<char>>>, rlen: int, i: int) -> Map<
    Seq<Seq<char>>,
    Set<Seq<char>>,
>
    decreases i,
{
    if i <= 0 {
        Map::empty()
    } else {
        spec_insert_levels(
            spec_index_map(paths, rlen, i - 1),
            paths[i - 1],
            rlen,
            paths[i - 1].len() - 1,
        )
    }
}

/// The files still unused after recording the first `i` rule files.
pub open spec fn spec_unused_after(
    existing: Seq<Seq<Seq<char>>>,
    paths: Seq<Seq<Seq<char>>>,
    i: int,
) -> Seq<Seq<Seq<char>>>
    decreases i,
{
    if i <= 0 {
        existing
    } else {
        spec_remove_all(spec_unused_after(existing, paths, i - 1), paths[i - 1])
    }
}

/// Indices, among the first `i`, of the written rule files.
pub open spec fn spec_written(writes: Seq<bool>, i: int) -> Seq<int>
    decreases i,
{
    if i <= 0 {
        Seq::empty()
    } else {
        spec_written(writes, i - 1) + if writes[i - 1] {
            seq![i - 1]
        } else {
            Seq::empty()
        }
    }
}

/// The written rule files among the first `i`.
pub open spec fn spec_written_paths(paths: Seq<Seq<Seq<char>>>, writes: Seq<bool>, i: int) -> Seq<
    Seq<Seq<char>>,
>
    decreases i,
{
    if i <= 0 {
        Seq::empty()
    } else {
        spec_written_paths(paths, writes, i - 1) + if writes[i - 1] {
            seq![paths[i - 1]]
        } else {
            Seq::empty()
        }
    }
}

/// The boilerplate file of a formatter crate.
pub open spec fn spec_generated_path(root: Seq<Seq<char>>) -> Seq<Seq<char>> {
    root.push("generated.rs"@)
}

/// A successful generation for one crate.
pub open spec fn spec_formatter_ok(
    repo: GitRepo,
    root: Seq<Seq<char>>,
    plans: Seq<NodePlan>,
    exists: Seq<bool>,
    existing: Seq<Seq<Seq<char>>>,
    out: FormatterOutput,
) -> bool {
    let paths = spec_plan_paths(root, plans);
    let writes = spec_writes(plans, exists);
    let n = plans.len() as int;
    let rlen = root.len() as int;
    let unused = spec_unused_after(existing, paths, n);
    let all = spec_written_paths(paths, writes, n) + spec_mod_paths(out.index.entries()) + paths_view(
        out.deleted,
    ) + seq![spec_generated_path(root)];
    &&& out.written@.map_values(|k: usize| k as int) == spec_written(writes, n)
    &&& out.index.wf()
    &&& path_view(out.index.root) == root
    &&& out.index.module_map() == spec_index_map(paths, rlen, n)
    &&& paths_view(out.index.unused_files) == unused
    &&& out.mod_files@.len() == out.index.entries().len()
    &&& forall|j: int|
        0 <= j < out.mod_files@.len() ==> mod_file_view(#[trigger] out.mod_files@[j]) == spec_mod_file(
            out.index.entries()[j],
        )
    &&& paths_view(out.deleted) == spec_remove_each(unused, spec_mod_paths(out.index.entries()))
    &&& paths_view(out.stage) == if repo.allow_staged {
        Seq::empty()
    } else {
        all
    }
}

/// The result of generation for one crate: it fails with the first file
/// that the guard refuses, and otherwise does what `spec_formatter_ok` says.
pub open spec fn spec_formatter_result(
    repo: GitRepo,
    root: Seq<Seq<char>>,
    plans: Seq<NodePlan>,
    exists: Seq<bool>,
    existing: Seq<Seq<Seq<char>>>,
    r: Result<FormatterOutput, PathCheckError>,
) -> bool {
    let checks = spec_gen_checks(
        spec_plan_paths(root, plans),
        spec_writes(plans, exists),
        root.len() as int,
        plans.len() as int,
    );
    let failure = spec_first_failure(paths_view(repo.dirty), paths_view(repo.staged), checks);
    match r {
        Ok(out) => failure is None && spec_formatter_ok(repo, root, plans, exists, existing, out),
        Err(e) => failure == Some((e.kind, path_view(e.path))),
    }
}

/// Checking `a` then `b` refuses what `a` refuses, else what `b` refuses.
proof fn lemma_failure_append(
    d: Seq<Seq<Seq<char>>>,
    s: Seq<Seq<Seq<char>>>,
    a: Seq<Seq<Seq<char>>>,
    b: Seq<Seq<Seq<char>>>,
)
    ensures
        spec_first_failure(d, s, a + b) == match spec_first_failure(d, s, a) {
            Some(x) => Some(x),
            None => spec_first_failure(d, s, b),
        },
    decreases a.len(),
{
    if a.len() == 0 {
        assert(a + b =~= b);
    } else {
        assert((a + b)[0] == a[0]);
        assert((a + b).drop_first() =~= a.drop_first() + b);
        lemma_failure_append(d, s, a.drop_first(), b);
    }
}

/// A refusal among the checks of the first `k` node types is the refusal of all.
proof fn lemma_gen_checks_prefix(
    d: Seq<Seq<Seq<char>>>,
    s: Seq<Seq<Seq<char>>>,
    paths: Seq<Seq<Seq<char>>>,
    writes: Seq<bool>,
    rlen: int,
    k: int,
    n: int,
)
    requires
        0 <= k <= n,
        spec_first_failure(d, s, spec_gen_checks(paths, writes, rlen, k)) is Some,
    ensures
        spec_first_failure(d, s, spec_gen_checks(paths, writes, rlen, n)) == spec_first_failure(
            d,
            s,
            spec_gen_checks(paths, writes, rlen, k),
        ),
    decreases n,
{
    if n > k {
        lemma_gen_checks_prefix(d, s, paths, writes, rlen, k, n - 1);
        let a = spec_gen_checks(paths, writes, rlen, n - 1);
        let l = spec_level_checks(paths[n - 1], rlen, paths[n - 1].len() - 1);
        let w = if writes[n - 1] {
            seq![paths[n - 1]]
        } else {
            Seq::empty()
        };
        lemma_failure_append(d, s, a, l);
        lemma_failure_append(d, s, a + l, w);
    }
}

/// Generates the formatter of one crate: records the rule file of every
/// node type in the module index, writes the missing rule files (and every
/// union rule), then the `mod.rs` files, deletes the files no module uses,
/// and stages all of them. The guard checks each file before it changes;
/// the first refusal ends generation.
pub fn generate_formatter(
    repo: &GitRepo,
    src_root: &Vec<String>,
    plans: &Vec<NodePlan>,
    exists: &Vec<bool>,
    existing_files: &Vec<Vec<String>>,
) -> (r: Result<FormatterOutput, PathCheckError>)
    requires
        plans@.len() == exists@.len(),
    ensures
        spec_formatter_result(
            *repo,
            path_view(*src_root),
            plans@,
            exists@,
            paths_view(*existing_files),
            r,
        ),
{
    let ghost root = path_view(*src_root);
    let ghost rlen = root.len() as int;
    let ghost paths = spec_plan_paths(root, plans@);
    let ghost writes = spec_writes(plans@, exists@);
    let ghost d = paths_view(repo.dirty);
    let ghost st = paths_view(repo.staged);
    let ghost existing = paths_view(*existing_files);
    let mut index = ModuleIndex::new(copy_path(src_root), copy_paths(existing_files));
    let mut written: Vec<usize> = Vec::new();
    let mut written_paths: Vec<Vec<String>> = Vec::new();
    let n = plans.len();
    let mut i: usize = 0;
    assert(index.module_map() =~= spec_index_map(paths, rlen, 0));
    while i < n
        invariant
            n == plans@.len(),
            n == exists@.len(),
            i <= n,
            root == path_view(*src_root),
            rlen == root.len(),
            paths == spec_plan_paths(root, plans@),
            writes == spec_writes(plans@, exists@),
            d == paths_view(repo.dirty),
            st == paths_view(repo.staged),
            existing == paths_view(*existing_files),
            index.wf(),
            path_view(index.root) == root,
            index.module_map() == spec_index_map(paths, rlen, i as int),
            paths_view(index.unused_files) == spec_unused_after(existing, paths, i as int),
            spec_first_failure(d, st, spec_gen_checks(paths, writes, rlen, i as int)) is None,
            written@.map_values(|k: usize| k as int) == spec_written(writes, i as int),
            paths_view(written_paths) == spec_written_paths(paths, writes, i as int),
        decreases n - i,
    {
        let path = node_file_path(src_root, &plans[i].module);
        assert(path_view(path) == paths[i as int]);
        assert(path_view(path).subrange(0, rlen) =~= root);
        let ghost before = spec_gen_checks(paths, writes, rlen, i as int);
        let ghost level = spec_level_checks(paths[i as int], rlen, paths[i as int].len() - 1);
        let ghost w = if writes[i as int] {
            seq![paths[i as int]]
        } else {
            Seq::empty()
        };
        assert(spec_gen_checks(paths, writes, rlen, i + 1) == before + level + w);
        proof {
            lemma_failure_append(d, st, before, level);
            lemma_failure_append(d, st, before + level, w);
        }
        match index.insert(repo, &path) {
            Err(e) => {
                proof {
                    lemma_gen_checks_prefix(d, st, paths, writes, rlen, i + 1, n as int);
                }
                return Err(e);
            },
            Ok(()) => {},
        }
        if should_write(plans[i].allow_overwrite, exists[i]) {
            assert(writes[i as int]);
            match repo.check_path(&path) {
                Err(e) => {
                    assert(spec_first_failure(d, st, w) == Some((e.kind, path_view(e.path))));
                    proof {
                        lemma_gen_checks_prefix(d, st, paths, writes, rlen, i + 1, n as int);
                    }
                    return Err(e);
                },
                Ok(()) => {},
            }
            assert(w[0] == paths[i as int]);
            assert(w.drop_first() =~= Seq::<Seq<Seq<char>>>::empty());
            assert(spec_first_failure(d, st, w.drop_first()) is None);
            assert(path_view(path) == paths[i as int]);
            assert(spec_first_failure(d, st, w) is None);
            let ghost wb = written@.map_values(|k: usize| k as int);
            let ghost pb = paths_view(written_paths);
            written.push(i);
            assert(written@.map_values(|k: usize| k as int) =~= wb + seq![i as int]);
            written_paths.push(path);
            assert(paths_view(written_paths) =~= pb + seq![paths[i as int]]);
        } else {
            assert(!writes[i as int]);
            assert(spec_first_failure(d, st, w) is None);
            assert(spec_written(writes, i + 1) =~= spec_written(writes, i as int));
            assert(spec_written_paths(paths, writes, i + 1) =~= spec_written_paths(
                paths,
                writes,
                i as int,
            ));
        }
        i = i + 1;
    }
    let (mod_files, deleted) = index.print();
    let mut all = copy_paths(&written_paths);
    let n_mods = mod_files.len();
    let mut j: usize = 0;
    while j < n_mods
        invariant
            n_mods == mod_files@.len(),
            n_mods == index.entries().len(),
            j <= n_mods,
            forall|k: int|
                0 <= k < mod_files@.len() ==> mod_file_view(#[trigger] mod_files@[k]) == spec_mod_file(
                    index.entries()[k],
                ),
            paths_view(all) =~= paths_view(written_paths) + spec_mod_paths(index.entries()).subrange(
                0,
                j as int,
            ),
        decreases n_mods - j,
    {
        let ghost before = paths_view(all);
        all.push(copy_path(&mod_files[j].path));
        assert(mod_file_view(mod_files@[j as int]).0 == index.entries()[j as int].0.push("mod.rs"@));
        assert(paths_view(all) =~= before.push(spec_mod_paths(index.entries())[j as int]));
        j = j + 1;
    }
    assert(spec_mod_paths(index.entries()).subrange(0, n_mods as int) =~= spec_mod_paths(
        index.entries(),
    ));
    let ghost with_mods = paths_view(all);
    let n_del = deleted.len();
    let mut k: usize = 0;
    while k < n_del
        invariant
            n_del == deleted@.len(),
            k <= n_del,
            paths_view(all) =~= with_mods + paths_view(deleted).subrange(0, k as int),
        decreases n_del - k,
    {
        let ghost before = paths_view(all);
        all.push(copy_path(&deleted[k]));
        assert(paths_view(all) =~= before.push(paths_view(deleted)[k as int]));
        k = k + 1;
    }
    assert(paths_view(deleted).subrange(0, n_del as int) =~= paths_view(deleted));
    let generated = join(src_root, "generated.rs");
    let ghost before_gen = paths_view(all);
    all.push(generated);
    assert(paths_view(all) =~= before_gen + seq![spec_generated_path(root)]);
    let stage = repo.stage_paths(&all);
    Ok(FormatterOutput { written, index, mod_files, deleted, stage })
}

/// Copies a list of paths.
pub fn copy_paths(ps: &Vec<Vec<String>>) -> (r: Vec<Vec<String>>)
    ensures
        paths_view(r) == paths_view(*ps),
{
    let mut r: Vec<Vec<String>> = Vec::new();
    let n = ps.len();
    let mut i: usize = 0;
    while i < n
        invariant
            n == ps@.len(),
            i <= n,
            paths_view(r) =~= paths_view(*ps).subrange(0, i as int),
        decreases n - i,
    {
        let ghost before = paths_view(r);
        r.push(copy_path(&ps[i]));
        assert(paths_view(r) =~= before.push(paths_view(*ps)[i as int]));
        i = i + 1;
    }
    r
}

/// What generation did, crate by crate, until it stopped.
#[derive(Debug)]
pub struct GenerationRun {
    /// One entry per crate generated, in order: `None` for a crate that is
    /// missing, whose files are left alone.
    pub outputs: Vec<Option<FormatterOutput>>,
    /// The refusal that stopped generation, in the crate after the last
    /// output; `None` when every crate was generated.
    pub refused: Option<PathCheckError>,
}

/// The result of generation for one crate, as `generate_formatter` gives it.
pub open spec fn spec_input_result(
    repo: GitRepo,
    input: FormatterInput,
    r: Result<FormatterOutput, PathCheckError>,
) -> bool {
    spec_formatter_result(
        repo,
        path_view(input.src_root),
        input.plans@,
        input.exists@,
        paths_view(input.existing_files),
        r,
    )
}

/// Generates the formatters of all crates, in order, skipping the crates
/// that are missing; the first refusal of the guard ends generation, and
/// the outputs of the crates before it are kept.
pub fn generate_formatters(repo: &GitRepo, inputs: &Vec<FormatterInput>) -> (r: GenerationRun)
    requires
        forall|k: int| 0 <= k < inputs@.len() ==> (#[trigger] inputs@[k]).plans@.len()
            == inputs@[k].exists@.len(),
    ensures
        r.outputs@.len() <= inputs@.len(),
        forall|k: int|
            0 <= k < r.outputs@.len() ==> match #[trigger] r.outputs@[k] {
                Some(out) => inputs@[k].crate_exists && spec_input_result(
                    *repo,
                    inputs@[k],
                    Ok(out),
                ),
                None => !inputs@[k].crate_exists,
            },
        match r.refused {
            None => r.outputs@.len() == inputs@.len(),
            Some(e) => r.outputs@.len() < inputs@.len() && inputs@[r.outputs@.len() as int].crate_exists
                && spec_input_result(*repo, inputs@[r.outputs@.len() as int], Err(e)),
        },
{
    let mut outs: Vec<Option<FormatterOutput>> = Vec::new();
    let n = inputs.len();
    let mut i: usize = 0;
    while i < n
        invariant
            n == inputs@.len(),
            i <= n,
            outs@.len() == i,
            forall|k: int| 0 <= k < inputs@.len() ==> (#[trigger] inputs@[k]).plans@.len()
                == inputs@[k].exists@.len(),
            forall|k: int|
                0 <= k < i ==> match #[trigger] outs@[k] {
                    Some(out) => inputs@[k].crate_exists && spec_input_result(
                        *repo,
                        inputs@[k],
                        Ok(out),
                    ),
                    None => !inputs@[k].crate_exists,
                },
        decreases n - i,
    {
        let input = &inputs[i];
        if !input.crate_exists {
            outs.push(None);
        } else {
            let r = generate_formatter(
                repo,
                &input.src_root,
                &input.plans,
                &input.exists,
                &input.existing_files,
            );
            match r {
                Ok(out) => {
                    outs.push(Some(out));
                },
                Err(e) => {
                    return GenerationRun { outputs: outs, refused: Some(e) };
                },
            }
        }
        i = i + 1;
    }
    GenerationRun { outputs: outs, refused: None }
}

/// The rule files written are exactly those of regenerated rules (unions)
/// and of missing files, each once and in order.
pub proof fn written_exactly_when_allowed(writes: Seq<bool>, n: int, k: int)
    requires
        0 <= n <= writes.len(),
    ensures
        spec_written(writes, n).contains(k) <==> (0 <= k < n && writes[k]),
        forall|a: int, b: int|
            0 <= a < b < spec_written(writes, n).len() ==> spec_written(writes, n)[a] < spec_written(
                writes,
                n,
            )[b],
        forall|a: int| 0 <= a < spec_written(writes, n).len() ==> spec_written(writes, n)[a] < n,
    decreases n,
{
    if n > 0 {
        written_exactly_when_allowed(writes, n - 1, k);
        let w0 = spec_written(writes, n - 1);
        let w = spec_written(writes, n);
        if writes[n - 1] {
            assert(w == w0 + seq![n - 1]);
            if k == n - 1 {
                assert(w[w0.len() as int] == k);
            }
            if w.contains(k) && k != n - 1 {
                let i = choose|i: int| 0 <= i < w.len() && w[i] == k;
                assert(w0[i] == k);
            }
            if w0.contains(k) {
                let i = choose|i: int| 0 <= i < w0.len() && w0[i] == k;
                assert(w[i] == k);
            }
        } else {
            assert(w =~= w0);
        }
    }
}

/// The files still unused after recording some rule files include none of them.
proof fn lemma_unused_excludes(
    existing: Seq<Seq<Seq<char>>>,
    paths: Seq<Seq<Seq<char>>>,
    n: int,
    q: Seq<Seq<char>>,
)
    requires
        0 <= n <= paths.len(),
        spec_unused_after(existing, paths, n).contains(q),
    ensures
        forall|k: int| 0 <= k < n ==> paths[k] != q,
    decreases n,
{
    if n > 0 {
        crate::module_index::lemma_remove_all(
            spec_unused_after(existing, paths, n - 1),
            paths[n - 1],
            q,
        );
        lemma_unused_excludes(existing, paths, n - 1, q);
    }
}

/// Generation never deletes the rule file of a node type, nor a `mod.rs`
/// file it writes.
pub proof fn generation_keeps_its_files(
    repo: GitRepo,
    root: Seq<Seq<char>>,
    plans: Seq<NodePlan>,
    exists: Seq<bool>,
    existing: Seq<Seq<Seq<char>>>,
    out: FormatterOutput,
)
    requires
        spec_formatter_ok(repo, root, plans, exists, existing, out),
    ensures
        forall|k: int|
            0 <= k < plans.len() ==> !paths_view(out.deleted).contains(
                #[trigger] spec_plan_paths(root, plans)[k],
            ),
        forall|j: int|
            0 <= j < out.index.entries().len() ==> !paths_view(out.deleted).contains(
                #[trigger] spec_mod_paths(out.index.entries())[j],
            ),
{
    let paths = spec_plan_paths(root, plans);
    let unused = spec_unused_after(existing, paths, plans.len() as int);
    let mods = spec_mod_paths(out.index.entries());
    assert forall|k: int| 0 <= k < plans.len() implies !paths_view(out.deleted).contains(
        #[trigger] paths[k],
    ) by {
        crate::module_index::lemma_remove_each(unused, mods, paths[k]);
        if unused.contains(paths[k]) {
            lemma_unused_excludes(existing, paths, plans.len() as int, paths[k]);
        }
    }
    assert forall|j: int| 0 <= j < out.index.entries().len() implies !paths_view(
        out.deleted,
    ).contains(#[trigger] mods[j]) by {
        crate::module_index::lemma_remove_each(unused, mods, mods[j]);
        assert(mods.contains(mods[j]));
    }
}

/// The dialect directories of a formatter crate's source directory `root`,
/// where existing rule files are looked for.
pub fn dialect_directories(root: &Vec<String>) -> (r: Vec<Vec<String>>)
    ensures
        paths_view(r) == spec_all_dialects().map_values(|d: NodeDialect| path_view(*root).push(
            spec_dialect_dir(d),
        )),
{
    let dialects = NodeDialect::all();
    let mut r: Vec<Vec<String>> = Vec::new();
    let n = dialects.len();
    let mut i: usize = 0;
    while i < n
        invariant
            n == dialects@.len(),
            dialects@ == spec_all_dialects(),
            i <= n,
            paths_view(r) =~= spec_all_dialects().map_values(
                |d: NodeDialect| path_view(*root).push(spec_dialect_dir(d)),
            ).subrange(0, i as int),
        decreases n - i,
    {
        let ghost before = paths_view(r);
        r.push(join(root, dialects[i].as_str()));
        assert(paths_view(r) =~= before.push(path_view(*root).push(spec_dialect_dir(dialects@[i as int]))));
        i = i + 1;
    }
    r
}

/// The type of the formatting rule of TypeScript `satisfies` expressions.
/// Only the type is declared here: formatting the expression and deciding
/// its parentheses read the syntax tree, which this library does not hold.
#[derive(Clone, Copy, Debug, Default)]
pub struct FormatTsSatisfiesExpression;

} // verus!
