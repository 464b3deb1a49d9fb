//! The index of generated modules: which `mod` declarations each directory's
//! `mod.rs` must hold, and which old files no generated module uses.
use vstd::prelude::*;
use vstd::string::*;
use crate::order::{strictly_sorted, strings, sorted_insert};
use crate::order::Comparison;
use crate::paths::{
    compare_path, copy_path, file_stem, join, lemma_path_irreflexive, path_eq, lemma_path_transitive,
    path_in, path_lt, path_prefix, path_view, paths_view, spec_file_stem,
};
use crate::repo::{CheckFailure, GitRepo, PathCheckError, spec_check_path};
use crate::text::str_eq;

verus! {

/// The modules declared in one directory, sorted, without repetition.
#[derive(Debug)]
pub struct ModuleDir {
    pub path: Vec<String>,
    pub imports: Vec<String>,
}

/// A generated `mod.rs` file.
#[derive(Debug)]
pub struct ModFile {
    pub path: Vec<String>,
    pub content: String,
}

/// Directory components and declared module names of a directory entry.
pub open spec fn dir_view(d: ModuleDir) -> (Seq<Seq<char>>, Seq<Seq<char>>) {
    (path_view(d.path), strings(d.imports))
}

/// The map from directories to declared modules that a list of entries spells.
pub open spec fn entries_map(e: Seq<(Seq<Seq<char>>, Seq<Seq<char>>)>) -> Map<
    Seq<Seq<char>>,
    Set<Seq<char>>,
>
    decreases e.len(),
{
    if e.len() == 0 {
        Map::empty()
    } else {
        entries_map(e.drop_last()).insert(e.last().0, e.last().1.to_set())
    }
}

/// No directory is listed twice.
pub open spec fn distinct_dirs(e: Seq<(Seq<Seq<char>>, Seq<Seq<char>>)>) -> bool {
    forall|i: int, j: int| 0 <= i < j < e.len() ==> (#[trigger] e[i]).0 != (#[trigger] e[j]).0
}

/// The directories come in the ascending order of paths.
pub open spec fn sorted_dirs(e: Seq<(Seq<Seq<char>>, Seq<Seq<char>>)>) -> bool {
    forall|i: int, j: int| 0 <= i < j < e.len() ==> path_lt((#[trigger] e[i]).0, (#[trigger] e[j]).0)
}

proof fn lemma_sorted_distinct(e: Seq<(Seq<Seq<char>>, Seq<Seq<char>>)>)
    requires
        sorted_dirs(e),
    ensures
        distinct_dirs(e),
{
    assert forall|i: int, j: int| 0 <= i < j < e.len() implies (#[trigger] e[i]).0 != (
    #[trigger] e[j]).0 by {
        lemma_path_irreflexive(e[i].0);
    }
}

/// `m` with `name` declared in `dir`.
pub open spec fn spec_add_import(
    m: Map<Seq<Seq<char>>, Set<Seq<char>>>,
    dir: Seq<Seq<char>>,
    name: Seq<char>,
) -> Map<Seq<Seq<char>>, Set<Seq<char>>> {
    m.insert(
        dir,
        if m.dom().contains(dir) {
            m[dir]
        } else {
            Set::empty()
        }.insert(name),
    )
}

/// The stem that `Path::file_stem` gives for one component: none for `..`
/// (which names no file) or an empty name.
pub open spec fn spec_stem_of(name: Seq<char>) -> Option<Seq<char>> {
    if name == ".."@ || name.len() == 0 {
        None
    } else {
        Some(spec_file_stem(name))
    }
}

/// The declarations that inserting `p` adds, walking up from directory
/// `p[..m]` to the root, which has `rlen` components: each directory
/// declares the stem of the component below it. The walk stops at a
/// component that has no stem.
pub open spec fn spec_insert_levels(
    m0: Map<Seq<Seq<char>>, Set<Seq<char>>>,
    p: Seq<Seq<char>>,
    rlen: int,
    m: int,
) -> Map<Seq<Seq<char>>, Set<Seq<char>>>
    decreases m,
{
    if m <= rlen || m <= 0 || m >= p.len() {
        m0
    } else if spec_stem_of(p[m]) is None {
        m0
    } else {
        spec_insert_levels(
            spec_add_import(m0, p.subrange(0, m), spec_stem_of(p[m])->0),
            p,
            rlen,
            m - 1,
        )
    }
}

/// The `mod.rs` files that inserting `p` checks, in order, from level `m` up.
pub open spec fn spec_level_checks(p: Seq<Seq<char>>, rlen: int, m: int) -> Seq<Seq<Seq<char>>>
    decreases m,
{
    if m <= rlen || m <= 0 || m >= p.len() {
        Seq::empty()
    } else if spec_stem_of(p[m]) is None {
        Seq::empty()
    } else {
        seq![p.subrange(0, m).push("mod.rs"@)] + spec_level_checks(p, rlen, m - 1)
    }
}

/// The first of `checks` that the guard refuses, with why.
pub open spec fn spec_first_failure(
    dirty: Seq<Seq<Seq<char>>>,
    staged: Seq<Seq<Seq<char>>>,
    checks: Seq<Seq<Seq<char>>>,
) -> Option<(CheckFailure, Seq<Seq<char>>)>
    decreases checks.len(),
{
    if checks.len() == 0 {
        None
    } else {
        match spec_check_path(dirty, staged, checks[0]) {
            Some(kind) => Some((kind, checks[0])),
            None => spec_first_failure(dirty, staged, checks.drop_first()),
        }
    }
}

/// `s` without any occurrence of `p`.
pub open spec fn spec_remove_all(s: Seq<Seq<Seq<char>>>, p: Seq<Seq<char>>) -> Seq<Seq<Seq<char>>>
    decreases s.len(),
{
    if s.len() == 0 {
        s
    } else if s.last() == p {
        spec_remove_all(s.drop_last(), p)
    } else {
        spec_remove_all(s.drop_last(), p).push(s.last())
    }
}

/// `s` without any of the paths in `ps`.
pub open spec fn spec_remove_each(s: Seq<Seq<Seq<char>>>, ps: Seq<Seq<Seq<char>>>) -> Seq<
    Seq<Seq<char>>,
>
    decreases s.len(),
{
    if s.len() == 0 {
        s
    } else if ps.contains(s.last()) {
        spec_remove_each(s.drop_last(), ps)
    } else {
        spec_remove_each(s.drop_last(), ps).push(s.last())
    }
}

/// The attribute that allows a module to share its parent directory's name.
pub open spec fn inception_line() -> Seq<char> {
    "#[expect(clippy::module_inception)]\n"@
}

/// The declaration line of one module in a `mod.rs` whose directory has stem `stem`.
pub open spec fn spec_mod_line(stem: Seq<char>, import: Seq<char>) -> Seq<char> {
    (if import == stem {
        inception_line()
    } else {
        Seq::empty()
    }) + "pub(crate) mod "@ + import + ";\n"@
}

/// A module is declared `pub(crate)`; one named like its directory is
/// preceded by the attribute that allows module inception, others are not.
pub proof fn mod_line_marks_inception(stem: Seq<char>, import: Seq<char>)
    ensures
        import == stem ==> spec_mod_line(stem, import)
            == "#[expect(clippy::module_inception)]\n"@ + "pub(crate) mod "@ + import + ";\n"@,
        import != stem ==> spec_mod_line(stem, import) == "pub(crate) mod "@ + import + ";\n"@,
{
    assert(Seq::<char>::empty() + "pub(crate) mod "@ =~= "pub(crate) mod "@);
}

/// The content of a `mod.rs` declaring `imports`, in their order.
pub open spec fn spec_mod_content(stem: Seq<char>, imports: Seq<Seq<char>>) -> Seq<char>
    decreases imports.len(),
{
    if imports.len() == 0 {
        Seq::empty()
    } else {
        spec_mod_content(stem, imports.drop_last()) + spec_mod_line(stem, imports.last())
    }
}

/// The `mod.rs` file generated for a directory entry.
pub open spec fn spec_mod_file(e: (Seq<Seq<char>>, Seq<Seq<char>>)) -> (Seq<Seq<char>>, Seq<char>) {
    (e.0.push("mod.rs"@), spec_mod_content(spec_file_stem(e.0.last()), e.1))
}

/// Path and content of a generated file.
pub open spec fn mod_file_view(f: ModFile) -> (Seq<Seq<char>>, Seq<char>) {
    (path_view(f.path), f.content@)
}

proof fn lemma_entries_map_lookup(e: Seq<(Seq<Seq<char>>, Seq<Seq<char>>)>, i: int)
    requires
        distinct_dirs(e),
        0 <= i < e.len(),
    ensures
        entries_map(e).dom().contains(e[i].0),
        entries_map(e)[e[i].0] == e[i].1.to_set(),
    decreases e.len(),
{
    if i < e.len() - 1 {
        assert(distinct_dirs(e.drop_last()));
        assert(e.drop_last()[i] == e[i]);
        lemma_entries_map_lookup(e.drop_last(), i);
        assert(e[i].0 != e[e.len() - 1].0);
    }
}

proof fn lemma_entries_map_absent(e: Seq<(Seq<Seq<char>>, Seq<Seq<char>>)>, p: Seq<Seq<char>>)
    requires
        forall|i: int| 0 <= i < e.len() ==> (#[trigger] e[i]).0 != p,
    ensures
        !entries_map(e).dom().contains(p),
    decreases e.len(),
{
    if e.len() > 0 {
        assert forall|i: int| 0 <= i < e.drop_last().len() implies (#[trigger] e.drop_last()[i]).0
            != p by {
            assert(e.drop_last()[i] == e[i]);
        }
        lemma_entries_map_absent(e.drop_last(), p);
        assert(e[e.len() - 1].0 != p);
    }
}

proof fn lemma_entries_map_update(
    e: Seq<(Seq<Seq<char>>, Seq<Seq<char>>)>,
    i: int,
    s: Seq<Seq<char>>,
)
    requires
        distinct_dirs(e),
        0 <= i < e.len(),
    ensures
        entries_map(e.update(i, (e[i].0, s))) == entries_map(e).insert(e[i].0, s.to_set()),
    decreases e.len(),
{
    let u = e.update(i, (e[i].0, s));
    if i == e.len() - 1 {
        assert(u.drop_last() =~= e.drop_last());
        assert(entries_map(u) =~= entries_map(e).insert(e[i].0, s.to_set()));
    } else {
        assert(distinct_dirs(e.drop_last()));
        assert(e.drop_last()[i] == e[i]);
        lemma_entries_map_update(e.drop_last(), i, s);
        assert(u.drop_last() =~= e.drop_last().update(i, (e[i].0, s)));
        assert(e[i].0 != e[e.len() - 1].0);
        assert(entries_map(u) =~= entries_map(e).insert(e[i].0, s.to_set()));
    }
}

proof fn lemma_entries_map_insert(
    e: Seq<(Seq<Seq<char>>, Seq<Seq<char>>)>,
    i: int,
    x: (Seq<Seq<char>>, Seq<Seq<char>>),
)
    requires
        0 <= i <= e.len(),
        forall|k: int| 0 <= k < e.len() ==> (#[trigger] e[k]).0 != x.0,
    ensures
        entries_map(e.insert(i, x)) == entries_map(e).insert(x.0, x.1.to_set()),
    decreases e.len(),
{
    let u = e.insert(i, x);
    if i == e.len() {
        assert(u.drop_last() =~= e);
    } else {
        assert(u.drop_last() =~= e.drop_last().insert(i, x));
        assert forall|k: int| 0 <= k < e.drop_last().len() implies (
        #[trigger] e.drop_last()[k]).0 != x.0 by {
            assert(e.drop_last()[k] == e[k]);
        }
        lemma_entries_map_insert(e.drop_last(), i, x);
        assert(u.last() == e.last());
        assert(e.last().0 != x.0);
        assert(entries_map(u) =~= entries_map(e).insert(x.0, x.1.to_set()));
    }
}

/// Every module that generation writes, by directory.
#[derive(Debug)]
pub struct ModuleIndex {
    /// The formatter crate's source directory.
    pub root: Vec<String>,
    pub modules: Vec<ModuleDir>,
    /// Files found under the dialect directories that no generated module is known to use.
    pub unused_files: Vec<Vec<String>>,
}

impl ModuleIndex {
    /// Directory entries, as components and declared names.
    pub open spec fn entries(self) -> Seq<(Seq<Seq<char>>, Seq<Seq<char>>)> {
        self.modules@.map_values(|d: ModuleDir| dir_view(d))
    }

    /// The declared modules of each directory.
    pub open spec fn module_map(self) -> Map<Seq<Seq<char>>, Set<Seq<char>>> {
        entries_map(self.entries())
    }

    /// Each directory is listed once, in ascending order, with a non-empty
    /// path and sorted names.
    pub open spec fn wf(self) -> bool {
        &&& distinct_dirs(self.entries())
        &&& sorted_dirs(self.entries())
        &&& forall|i: int| 0 <= i < self.entries().len() ==> strictly_sorted(#[trigger] self.entries()[i].1)
        &&& forall|i: int| 0 <= i < self.entries().len() ==> (#[trigger] self.entries()[i]).0.len() > 0
    }

    /// An index over `root` that declares nothing yet; `existing_files` are
    /// the files found below the dialect directories.
    pub fn new(root: Vec<String>, existing_files: Vec<Vec<String>>) -> (r: ModuleIndex)
        ensures
            r.wf(),
            path_view(r.root) == path_view(root),
            r.module_map() == Map::<Seq<Seq<char>>, Set<Seq<char>>>::empty(),
            paths_view(r.unused_files) == paths_view(existing_files),
    {
        let r = ModuleIndex { root, modules: Vec::new(), unused_files: existing_files };
        assert(r.entries() =~= Seq::empty());
        r
    }

    /// Declares `name` in directory `dir`.
    fn add_import(&mut self, dir: &Vec<String>, name: &str)
        requires
            old(self).wf(),
            path_view(*dir).len() > 0,
        ensures
            final(self).wf(),
            path_view(final(self).root) == path_view(old(self).root),
            paths_view(final(self).unused_files) == paths_view(old(self).unused_files),
            final(self).module_map() == spec_add_import(old(self).module_map(), path_view(*dir), name@),
    {
        let ghost old_entries = self.entries();
        let ghost d = path_view(*dir);
        let n = self.modules.len();
        let mut i: usize = 0;
        let mut found = false;
        while i < n
            invariant_except_break
                !found,
            invariant
                n == self.modules@.len(),
                i <= n,
                old_entries == old(self).entries(),
                d == path_view(*dir),
                old(self).wf(),
                self.modules@ == old(self).modules@,
                self.root@ == old(self).root@,
                self.unused_files@ == old(self).unused_files@,
                self.entries() == old_entries,
                forall|k: int| 0 <= k < i ==> path_lt((#[trigger] old_entries[k]).0, d),
            ensures
                n == self.modules@.len(),
                i <= n,
                self.modules@ == old(self).modules@,
                self.root@ == old(self).root@,
                self.unused_files@ == old(self).unused_files@,
                self.entries() == old_entries,
                forall|k: int| 0 <= k < i ==> path_lt((#[trigger] old_entries[k]).0, d),
                found ==> i < n && old_entries[i as int].0 == d,
                !found && i < n ==> path_lt(d, old_entries[i as int].0),
            decreases n - i,
        {
            assert(old_entries[i as int].0 == path_view(self.modules@[i as int].path));
            match compare_path(&self.modules[i].path, dir) {
                Comparison::Less => {},
                Comparison::Equal => {
                    found = true;
                    break;
                },
                Comparison::Greater => {
                    break;
                },
            }
            i = i + 1;
        }
        if found {
            let mut imports = copy_path(&self.modules[i].imports);
            proof {
                assert(strings(imports) == old_entries[i as int].1);
                assert(strictly_sorted(strings(imports)));
            }
            sorted_insert(&mut imports, name);
            let path = copy_path(&self.modules[i].path);
            let ghost new_imports = strings(imports);
            self.modules.set(i, ModuleDir { path, imports });
            proof {
                assert(self.entries() =~= old_entries.update(
                    i as int,
                    (old_entries[i as int].0, new_imports),
                ));
                lemma_entries_map_update(old_entries, i as int, new_imports);
                lemma_entries_map_lookup(old_entries, i as int);
                assert(old_entries[i as int].1.to_set().insert(name@) =~= new_imports.to_set());
                assert forall|a: int, b: int|
                    0 <= a < b < self.entries().len() implies (#[trigger] self.entries()[a]).0
                    != (#[trigger] self.entries()[b]).0 by {
                    assert(self.entries()[a].0 == old_entries[a].0);
                    assert(self.entries()[b].0 == old_entries[b].0);
                }
                assert forall|a: int, b: int|
                    0 <= a < b < self.entries().len() implies path_lt(
                    (#[trigger] self.entries()[a]).0,
                    (#[trigger] self.entries()[b]).0,
                ) by {
                    assert(self.entries()[a].0 == old_entries[a].0);
                    assert(self.entries()[b].0 == old_entries[b].0);
                }
                assert forall|k: int| 0 <= k < self.entries().len() implies strictly_sorted(
                    #[trigger] self.entries()[k].1,
                ) by {
                    if k != i {
                        assert(self.entries()[k] == old_entries[k]);
                    }
                }
                assert forall|k: int| 0 <= k < self.entries().len() implies (
                #[trigger] self.entries()[k]).0.len() > 0 by {
                    assert(self.entries()[k].0 == old_entries[k].0);
                }
            }
            return;
        }
        let mut imports: Vec<String> = Vec::new();
        imports.push(String::from_str(name));
        let path = copy_path(dir);
        let ghost new_imports = strings(imports);
        assert(new_imports =~= seq![name@]);
        let ghost x = (d, new_imports);
        proof {
            assert forall|k: int| 0 <= k < old_entries.len() implies (#[trigger] old_entries[k]).0
                != d by {
                if k < i {
                    lemma_path_irreflexive(d);
                } else {
                    if k > i {
                        lemma_path_transitive(d, old_entries[i as int].0, old_entries[k].0);
                    }
                    lemma_path_irreflexive(d);
                }
            }
        }
        self.modules.insert(i, ModuleDir { path, imports });
        proof {
            assert(self.entries() =~= old_entries.insert(i as int, x));
            lemma_entries_map_insert(old_entries, i as int, x);
            lemma_entries_map_absent(old_entries, d);
            assert(new_imports[0] == name@);
            assert(new_imports.to_set() =~= Set::<Seq<char>>::empty().insert(name@)) by {
                assert forall|y: Seq<char>| new_imports.to_set().contains(y) implies y == name@ by {
                    let k = choose|k: int| 0 <= k < new_imports.len() && new_imports[k] == y;
                }
            }
            assert(self.module_map() =~= spec_add_import(entries_map(old_entries), d, name@));
            let e = self.entries();
            assert forall|a: int, b: int| 0 <= a < b < e.len() implies path_lt(
                (#[trigger] e[a]).0,
                (#[trigger] e[b]).0,
            ) by {
                if b < i {
                    assert(e[a] == old_entries[a]);
                    assert(e[b] == old_entries[b]);
                } else if b == i {
                    assert(e[a] == old_entries[a]);
                } else if a < i {
                    assert(e[a] == old_entries[a]);
                    assert(e[b] == old_entries[b - 1]);
                    if b - 1 > i {
                        lemma_path_transitive(d, old_entries[i as int].0, old_entries[b - 1].0);
                    }
                    lemma_path_transitive(old_entries[a].0, d, old_entries[b - 1].0);
                } else if a == i {
                    assert(e[b] == old_entries[b - 1]);
                    if b - 1 > i {
                        lemma_path_transitive(d, old_entries[i as int].0, old_entries[b - 1].0);
                    }
                } else {
                    assert(e[a] == old_entries[a - 1]);
                    assert(e[b] == old_entries[b - 1]);
                }
            }
            lemma_sorted_distinct(e);
            assert forall|k: int| 0 <= k < e.len() implies strictly_sorted(#[trigger] e[k].1) by {
                if k < i {
                    assert(e[k] == old_entries[k]);
                } else if k > i {
                    assert(e[k] == old_entries[k - 1]);
                }
            }
            assert forall|k: int| 0 <= k < e.len() implies (#[trigger] e[k]).0.len() > 0 by {
                if k < i {
                    assert(e[k] == old_entries[k]);
                } else if k > i {
                    assert(e[k] == old_entries[k - 1]);
                }
            }
        }
    }

    /// Records the module file `path`: it is no longer unused, and every
    /// directory from the file's own up to the one below the root declares
    /// the module below it. Before a directory's declarations change, the
    /// guard checks its `mod.rs`; the first refusal ends the insertion.
    /// The file lies at least two levels below the root (in a dialect and a
    /// concept directory).
    pub fn insert(&mut self, repo: &GitRepo, path: &Vec<String>) -> (r: Result<(), PathCheckError>)
        requires
            old(self).wf(),
            path_view(*path).len() >= path_view(old(self).root).len() + 2,
            path_view(*path).subrange(0, path_view(old(self).root).len() as int) == path_view(
                old(self).root,
            ),
        ensures
            final(self).wf(),
            path_view(final(self).root) == path_view(old(self).root),
            paths_view(final(self).unused_files) == spec_remove_all(
                paths_view(old(self).unused_files),
                path_view(*path),
            ),
            ({
                let checks = spec_level_checks(
                    path_view(*path),
                    path_view(old(self).root).len() as int,
                    path_view(*path).len() - 1,
                );
                let failure = spec_first_failure(
                    paths_view(repo.dirty),
                    paths_view(repo.staged),
                    checks,
                );
                match r {
                    Ok(()) => failure is None && final(self).module_map() == spec_insert_levels(
                        old(self).module_map(),
                        path_view(*path),
                        path_view(old(self).root).len() as int,
                        path_view(*path).len() - 1,
                    ),
                    Err(e) => failure == Some((e.kind, path_view(e.path))),
                }
            }),
    {
        let ghost p = path_view(*path);
        let ghost map0 = self.module_map();
        let ghost rl = path_view(self.root).len() as int;
        self.unused_files = remove_all(&self.unused_files, path);
        let rlen = self.root.len();
        let n = path.len();
        let mut m = n - 1;
        let ghost d = paths_view(repo.dirty);
        let ghost st = paths_view(repo.staged);
        while m > rlen
            invariant
                self.wf(),
                p == path_view(*path),
                rl == rlen,
                rl == path_view(old(self).root).len(),
                map0 == old(self).module_map(),
                n == p.len(),
                rlen + 2 <= n,
                rlen <= m <= n - 1,
                path_view(self.root) == path_view(old(self).root),
                paths_view(self.unused_files) == spec_remove_all(
                    paths_view(old(self).unused_files),
                    p,
                ),
                spec_insert_levels(self.module_map(), p, rl, m as int) == spec_insert_levels(
                    map0,
                    p,
                    rl,
                    n - 1,
                ),
                spec_first_failure(d, st, spec_level_checks(p, rl, n - 1)) == spec_first_failure(
                    d,
                    st,
                    spec_level_checks(p, rl, m as int),
                ),
                d == paths_view(repo.dirty),
                st == paths_view(repo.staged),
            decreases m,
        {
            let stem = stem_of(path[m].as_str());
            assert(p[m as int] == path@[m as int]@);
            match stem {
                None => {
                    assert(spec_level_checks(p, rl, m as int) =~= Seq::empty());
                    assert(spec_insert_levels(self.module_map(), p, rl, m as int) == self.module_map());
                    return Ok(());
                },
                Some(stem) => {
                    let parent = path_prefix(path, m);
                    let check = join(&parent, "mod.rs");
                    let ghost checks = spec_level_checks(p, rl, m as int);
                    assert(checks[0] == path_view(check));
                    assert(checks.drop_first() =~= spec_level_checks(p, rl, m - 1));
                    match repo.check_path(&check) {
                        Err(e) => {
                            assert(spec_first_failure(d, st, checks) == Some((e.kind, path_view(e.path))));
                            return Err(e);
                        },
                        Ok(()) => {},
                    }
                    self.add_import(&parent, stem.as_str());
                },
            }
            m = m - 1;
        }
        assert(spec_level_checks(p, rl, m as int) =~= Seq::empty());
        Ok(())
    }

    /// The `mod.rs` file of every directory, in ascending order of the
    /// directories, and the files to delete: those still unused, except the
    /// `mod.rs` files written.
    pub fn print(&self) -> (r: (Vec<ModFile>, Vec<Vec<String>>))
        requires
            self.wf(),
        ensures
            r.0@.len() == self.entries().len(),
            forall|i: int|
                0 <= i < self.entries().len() ==> mod_file_view(#[trigger] r.0@[i]) == spec_mod_file(
                    self.entries()[i],
                ),
            paths_view(r.1) == spec_remove_each(
                paths_view(self.unused_files),
                spec_mod_paths(self.entries()),
            ),
            forall|i: int, j: int|
                0 <= i < j < r.0@.len() ==> path_lt(
                    mod_file_view(#[trigger] r.0@[i]).0.drop_last(),
                    mod_file_view(#[trigger] r.0@[j]).0.drop_last(),
                ),
    {
        let mut files: Vec<ModFile> = Vec::new();
        let mut written: Vec<Vec<String>> = Vec::new();
        let n = self.modules.len();
        let mut i: usize = 0;
        while i < n
            invariant
                self.wf(),
                n == self.entries().len(),
                i <= n,
                files@.len() == i,
                forall|k: int| 0 <= k < i ==> mod_file_view(#[trigger] files@[k]) == spec_mod_file(
                    self.entries()[k],
                ),
                paths_view(written) =~= spec_mod_paths(self.entries()).subrange(0, i as int),
            decreases n - i,
        {
            let dir = &self.modules[i];
            assert(path_view(dir.path).len() > 0) by {
                assert(self.entries()[i as int].0 == path_view(dir.path));
            }
            let last = dir.path.len() - 1;
            let stem = file_stem(dir.path[last].as_str());
            let content = mod_content(stem.as_str(), &dir.imports);
            let path = join(&dir.path, "mod.rs");
            let ghost before = paths_view(written);
            written.push(copy_path(&path));
            assert(paths_view(written) =~= before.push(path_view(path)));
            files.push(ModFile { path, content });
            i = i + 1;
        }
        assert(spec_mod_paths(self.entries()).subrange(0, n as int) =~= spec_mod_paths(self.entries()));
        assert forall|i: int, j: int| 0 <= i < j < files@.len() implies path_lt(
            mod_file_view(#[trigger] files@[i]).0.drop_last(),
            mod_file_view(#[trigger] files@[j]).0.drop_last(),
        ) by {
            assert(mod_file_view(files@[i]).0.drop_last() =~= self.entries()[i].0);
            assert(mod_file_view(files@[j]).0.drop_last() =~= self.entries()[j].0);
        }
        let deleted = remove_each(&self.unused_files, &written);
        (files, deleted)
    }
}

/// The `mod.rs` paths of the directory entries.
pub open spec fn spec_mod_paths(e: Seq<(Seq<Seq<char>>, Seq<Seq<char>>)>) -> Seq<Seq<Seq<char>>> {
    e.map_values(|x: (Seq<Seq<char>>, Seq<Seq<char>>)| x.0.push("mod.rs"@))
}

/// The stem of one path component, or `None` when it names no file.
fn stem_of(name: &str) -> (r: Option<String>)
    ensures
        r matches Some(s) ==> spec_stem_of(name@) == Some(s@),
        r is None ==> spec_stem_of(name@) is None,
{
    if str_eq(name, "..") || name.unicode_len() == 0 {
        None
    } else {
        Some(file_stem(name))
    }
}

/// The content of a `mod.rs` that declares `imports` in a directory with stem `stem`.
pub fn mod_content(stem: &str, imports: &Vec<String>) -> (r: String)
    ensures
        r@ == spec_mod_content(stem@, strings(*imports)),
{
    let mut content = String::new();
    let n = imports.len();
    let mut i: usize = 0;
    while i < n
        invariant
            n == imports@.len(),
            i <= n,
            content@ == spec_mod_content(stem@, strings(*imports).subrange(0, i as int)),
        decreases n - i,
    {
        let import = imports[i].as_str();
        let ghost before = content@;
        if str_eq(import, stem) {
            content.append("#[expect(clippy::module_inception)]\n");
        }
        content.append("pub(crate) mod ");
        content.append(import);
        content.append(";\n");
        let ghost sub = strings(*imports).subrange(0, i + 1);
        assert(sub.drop_last() =~= strings(*imports).subrange(0, i as int));
        assert(content@ =~= before + spec_mod_line(stem@, import@));
        i = i + 1;
    }
    assert(strings(*imports).subrange(0, n as int) =~= strings(*imports));
    content
}

/// `list` without any occurrence of `p`.
pub fn remove_all(list: &Vec<Vec<String>>, p: &Vec<String>) -> (r: Vec<Vec<String>>)
    ensures
        paths_view(r) == spec_remove_all(paths_view(*list), path_view(*p)),
{
    let mut r: Vec<Vec<String>> = Vec::new();
    let n = list.len();
    let mut i: usize = 0;
    while i < n
        invariant
            n == list@.len(),
            i <= n,
            paths_view(r) == spec_remove_all(paths_view(*list).subrange(0, i as int), path_view(*p)),
        decreases n - i,
    {
        let ghost sub = paths_view(*list).subrange(0, i + 1);
        assert(sub.drop_last() =~= paths_view(*list).subrange(0, i as int));
        if !path_eq(&list[i], p) {
            let ghost before = paths_view(r);
            r.push(copy_path(&list[i]));
            assert(paths_view(r) =~= before.push(paths_view(*list)[i as int]));
        }
        i = i + 1;
    }
    assert(paths_view(*list).subrange(0, n as int) =~= paths_view(*list));
    r
}

/// `list` without any of the paths in `ps`.
pub fn remove_each(list: &Vec<Vec<String>>, ps: &Vec<Vec<String>>) -> (r: Vec<Vec<String>>)
    ensures
        paths_view(r) == spec_remove_each(paths_view(*list), paths_view(*ps)),
{
    let mut r: Vec<Vec<String>> = Vec::new();
    let n = list.len();
    let mut i: usize = 0;
    while i < n
        invariant
            n == list@.len(),
            i <= n,
            paths_view(r) == spec_remove_each(paths_view(*list).subrange(0, i as int), paths_view(*ps)),
        decreases n - i,
    {
        let ghost sub = paths_view(*list).subrange(0, i + 1);
        assert(sub.drop_last() =~= paths_view(*list).subrange(0, i as int));
        if !path_in(ps, &list[i]) {
            let ghost before = paths_view(r);
            r.push(copy_path(&list[i]));
            assert(paths_view(r) =~= before.push(paths_view(*list)[i as int]));
        }
        i = i + 1;
    }
    assert(paths_view(*list).subrange(0, n as int) =~= paths_view(*list));
    r
}

/// Walking up further only adds declarations.
proof fn lemma_levels_grow(
    m0: Map<Seq<Seq<char>>, Set<Seq<char>>>,
    p: Seq<Seq<char>>,
    rlen: int,
    m: int,
    dir: Seq<Seq<char>>,
    name: Seq<char>,
)
    requires
        m0.dom().contains(dir),
        m0[dir].contains(name),
    ensures
        spec_insert_levels(m0, p, rlen, m).dom().contains(dir),
        spec_insert_levels(m0, p, rlen, m)[dir].contains(name),
    decreases m,
{
    if m <= rlen || m <= 0 || m >= p.len() {
    } else if spec_stem_of(p[m]) is None {
    } else {
        let m1 = spec_add_import(m0, p.subrange(0, m), spec_stem_of(p[m])->0);
        assert(m1.dom().contains(dir) && m1[dir].contains(name));
        lemma_levels_grow(m1, p, rlen, m - 1, dir, name);
    }
}

/// Inserting a module file declares the module in the file's directory.
pub proof fn insert_declares_module(
    m0: Map<Seq<Seq<char>>, Set<Seq<char>>>,
    p: Seq<Seq<char>>,
    rlen: int,
)
    requires
        0 <= rlen,
        p.len() >= rlen + 2,
        spec_stem_of(p.last()) is Some,
    ensures
        ({
            let m = spec_insert_levels(m0, p, rlen, p.len() - 1);
            let dir = p.subrange(0, p.len() - 1);
            &&& m.dom().contains(dir)
            &&& m[dir].contains(spec_stem_of(p.last())->0)
        }),
{
    let n = p.len() as int;
    let dir = p.subrange(0, n - 1);
    let stem = spec_stem_of(p[n - 1])->0;
    let m1 = spec_add_import(m0, dir, stem);
    assert(m1.dom().contains(dir) && m1[dir].contains(stem));
    lemma_levels_grow(m1, p, rlen, n - 2, dir, stem);
}

/// Removing a path keeps only paths of the list, and none equal to it.
pub proof fn lemma_remove_all(s: Seq<Seq<Seq<char>>>, p: Seq<Seq<char>>, q: Seq<Seq<char>>)
    ensures
        spec_remove_all(s, p).contains(q) <==> (s.contains(q) && q != p),
    decreases s.len(),
{
    if s.len() > 0 {
        lemma_remove_all(s.drop_last(), p, q);
        let r = spec_remove_all(s.drop_last(), p);
        if s.contains(q) && q != p {
            let k = choose|k: int| 0 <= k < s.len() && s[k] == q;
            if k < s.len() - 1 {
                assert(s.drop_last()[k] == q);
            }
        }
        if s.drop_last().contains(q) {
            let k = choose|k: int| 0 <= k < s.drop_last().len() && s.drop_last()[k] == q;
            assert(s[k] == q);
        }
        if s.last() != p {
            if r.push(s.last()).contains(q) {
                let k = choose|k: int| 0 <= k < r.push(s.last()).len() && r.push(s.last())[k] == q;
                if k < r.len() {
                    assert(r[k] == q);
                }
            }
            if r.contains(q) {
                let k = choose|k: int| 0 <= k < r.len() && r[k] == q;
                assert(r.push(s.last())[k] == q);
            }
            if q == s.last() {
                assert(r.push(s.last())[r.len() as int] == q);
                assert(s[s.len() - 1] == q);
            }
        }
    }
}

/// Removing a list of paths keeps only paths of the list, and none of them.
pub proof fn lemma_remove_each(s: Seq<Seq<Seq<char>>>, ps: Seq<Seq<Seq<char>>>, q: Seq<Seq<char>>)
    ensures
        spec_remove_each(s, ps).contains(q) <==> (s.contains(q) && !ps.contains(q)),
    decreases s.len(),
{
    if s.len() > 0 {
        lemma_remove_each(s.drop_last(), ps, q);
        let r = spec_remove_each(s.drop_last(), ps);
        if s.contains(q) && !ps.contains(q) {
            let k = choose|k: int| 0 <= k < s.len() && s[k] == q;
            if k < s.len() - 1 {
                assert(s.drop_last()[k] == q);
            }
        }
        if s.drop_last().contains(q) {
            let k = choose|k: int| 0 <= k < s.drop_last().len() && s.drop_last()[k] == q;
            assert(s[k] == q);
        }
        if !ps.contains(s.last()) {
            if r.push(s.last()).contains(q) {
                let k = choose|k: int| 0 <= k < r.push(s.last()).len() && r.push(s.last())[k] == q;
                if k < r.len() {
                    assert(r[k] == q);
                }
            }
            if r.contains(q) {
                let k = choose|k: int| 0 <= k < r.len() && r[k] == q;
                assert(r.push(s.last())[k] == q);
            }
            if q == s.last() {
                assert(r.push(s.last())[r.len() as int] == q);
                assert(s[s.len() - 1] == q);
            }
        }
    }
}

} // verus!
