//! The git working-tree guard of the code generator: which files carry
//! uncommitted changes, and whether the generator may overwrite a file.
use vstd::prelude::*;
use vstd::string::*;
use crate::order::strings;
use crate::paths::{path_in, path_view, paths_view, spec_split_path, split_path, copy_path};
use crate::text::str_eq;

verus! {

/// Status bits of a file, as libgit2 numbers them (`GIT_STATUS_*`).
pub const STATUS_CURRENT: u32 = 0u32;
pub const STATUS_INDEX_NEW: u32 = 1u32;
pub const STATUS_INDEX_MODIFIED: u32 = 2u32;
pub const STATUS_INDEX_DELETED: u32 = 4u32;
pub const STATUS_INDEX_RENAMED: u32 = 8u32;
pub const STATUS_INDEX_TYPECHANGE: u32 = 16u32;

/// Options of the code generator's command line.
#[derive(Clone, Copy, Debug, PartialEq, Eq, Structural)]
pub struct CodegenFlags {
    pub allow_staged: bool,
    pub allow_dirty: bool,
}

/// Reads `--allow-staged` and `--allow-dirty` from the command-line arguments.
pub fn parse_codegen_flags(args: &Vec<String>) -> (r: CodegenFlags)
    ensures
        r.allow_staged == strings(*args).contains("--allow-staged"@),
        r.allow_dirty == strings(*args).contains("--allow-dirty"@),
{
    let mut allow_staged = false;
    let mut allow_dirty = false;
    let n = args.len();
    let mut i: usize = 0;
    while i < n
        invariant
            n == args@.len(),
            i <= n,
            allow_staged == strings(*args).subrange(0, i as int).contains("--allow-staged"@),
            allow_dirty == strings(*args).subrange(0, i as int).contains("--allow-dirty"@),
        decreases n - i,
    {
        let ghost prefix = strings(*args).subrange(0, i as int);
        assert(strings(*args).subrange(0, i + 1) =~= prefix.push(args[i as int]@));
        if str_eq(args[i].as_str(), "--allow-staged") {
            allow_staged = true;
        } else if str_eq(args[i].as_str(), "--allow-dirty") {
            allow_dirty = true;
        }
        proof {
            reveal_strlit("--allow-staged");
            reveal_strlit("--allow-dirty");
            assert("--allow-staged"@.len() != "--allow-dirty"@.len());
            let next = strings(*args).subrange(0, i + 1);
            if allow_staged {
                if !prefix.contains("--allow-staged"@) {
                    assert(next[i as int] == "--allow-staged"@);
                }
            } else {
                assert forall|k: int| 0 <= k < next.len() implies next[k] != "--allow-staged"@ by {
                    if k < i {
                        assert(next[k] == prefix[k]);
                    }
                }
            }
            if allow_dirty {
                if !prefix.contains("--allow-dirty"@) {
                    assert(next[i as int] == "--allow-dirty"@);
                }
            } else {
                assert forall|k: int| 0 <= k < next.len() implies next[k] != "--allow-dirty"@ by {
                    if k < i {
                        assert(next[k] == prefix[k]);
                    }
                }
            }
        }
        i = i + 1;
    }
    assert(strings(*args).subrange(0, n as int) =~= strings(*args));
    CodegenFlags { allow_staged, allow_dirty }
}

/// How the guard treats a file of a given status.
#[derive(Clone, Copy, Debug, PartialEq, Eq, Structural)]
pub enum StatusClass {
    /// Unchanged.
    Current,
    /// Exactly one kind of change, recorded in the index.
    Staged,
    /// Any other status.
    Dirty,
}

/// The class of a status: a status equal to one index flag is staged.
pub open spec fn spec_status_class(bits: u32) -> StatusClass {
    if bits == STATUS_CURRENT {
        StatusClass::Current
    } else if bits == STATUS_INDEX_NEW || bits == STATUS_INDEX_MODIFIED || bits
        == STATUS_INDEX_DELETED || bits == STATUS_INDEX_RENAMED || bits == STATUS_INDEX_TYPECHANGE {
        StatusClass::Staged
    } else {
        StatusClass::Dirty
    }
}

/// A file whose status is exactly one of libgit2's five index flags
/// (new 1, modified 2, deleted 4, renamed 8, type change 16) is staged; a
/// status of 0 is current; every other status, including a mix of index
/// and working-tree flags, is dirty.
pub proof fn status_classes(bits: u32)
    ensures
        spec_status_class(bits) == StatusClass::Current <==> bits == 0,
        spec_status_class(bits) == StatusClass::Staged <==> (bits == 1 || bits == 2 || bits == 4
            || bits == 8 || bits == 16),
        spec_status_class(bits) == StatusClass::Dirty <==> !(bits == 0 || bits == 1 || bits == 2
            || bits == 4 || bits == 8 || bits == 16),
{
}

/// Classifies the status bits of a file.
pub fn classify_status(bits: u32) -> (r: StatusClass)
    ensures
        r == spec_status_class(bits),
{
    if bits == STATUS_CURRENT {
        StatusClass::Current
    } else if bits == STATUS_INDEX_NEW || bits == STATUS_INDEX_MODIFIED || bits
        == STATUS_INDEX_DELETED || bits == STATUS_INDEX_RENAMED || bits == STATUS_INDEX_TYPECHANGE {
        StatusClass::Staged
    } else {
        StatusClass::Dirty
    }
}

/// A file that git reports, with its `/`-separated path relative to the
/// repository root and its status bits.
#[derive(Clone, Debug)]
pub struct StatusEntry {
    pub path: String,
    pub status: u32,
}

/// The paths, as components, of the entries of class `class`, in order.
pub open spec fn spec_paths_of_class(entries: Seq<StatusEntry>, class: StatusClass) -> Seq<
    Seq<Seq<char>>,
>
    decreases entries.len(),
{
    if entries.len() == 0 {
        Seq::empty()
    } else {
        let rest = spec_paths_of_class(entries.drop_last(), class);
        if spec_status_class(entries.last().status) == class {
            rest.push(spec_split_path(entries.last().path@))
        } else {
            rest
        }
    }
}

/// The paths of a class are exactly the paths of the entries whose status
/// falls in that class: each such entry's path is listed, and each listed
/// path is that of such an entry.
pub proof fn paths_of_class_members(entries: Seq<StatusEntry>, class: StatusClass)
    ensures
        forall|k: int|
            0 <= k < entries.len() && spec_status_class(#[trigger] entries[k].status) == class
                ==> spec_paths_of_class(entries, class).contains(spec_split_path(entries[k].path@)),
        forall|p: Seq<Seq<char>>|
            #[trigger] spec_paths_of_class(entries, class).contains(p) ==> exists|k: int|
                0 <= k < entries.len() && spec_status_class(entries[k].status) == class
                    && p == spec_split_path(#[trigger] entries[k].path@),
    decreases entries.len(),
{
    if entries.len() > 0 {
        let rest = entries.drop_last();
        paths_of_class_members(rest, class);
        let r = spec_paths_of_class(entries, class);
        assert forall|k: int|
            0 <= k < entries.len() && spec_status_class(#[trigger] entries[k].status) == class
                implies r.contains(spec_split_path(entries[k].path@)) by {
            if k < entries.len() - 1 {
                assert(rest[k] == entries[k]);
                let rp = spec_paths_of_class(rest, class);
                let j = choose|j: int| 0 <= j < rp.len() && rp[j] == spec_split_path(rest[k].path@);
                assert(r[j] == rp[j]);
            } else {
                assert(r.last() == spec_split_path(entries[k].path@));
            }
        }
        assert forall|p: Seq<Seq<char>>| #[trigger] r.contains(p) implies exists|k: int|
            0 <= k < entries.len() && spec_status_class(entries[k].status) == class && p
                == spec_split_path(#[trigger] entries[k].path@) by {
            let rp = spec_paths_of_class(rest, class);
            let j = choose|j: int| 0 <= j < r.len() && r[j] == p;
            if j < rp.len() {
                assert(rp[j] == p);
                assert(rp.contains(p));
                let k = choose|k: int|
                    0 <= k < rest.len() && spec_status_class(rest[k].status) == class && p
                        == spec_split_path(#[trigger] rest[k].path@);
                assert(rest[k] == entries[k]);
            } else {
                let k = entries.len() - 1;
                assert(p == spec_split_path(entries[k].path@));
            }
        }
    }
}

/// The uncommitted changes that the generator must not overwrite.
#[derive(Debug)]
pub struct GitRepo {
    pub allow_staged: bool,
    /// Staged files, relative to the project root (empty with `--allow-staged`).
    pub staged: Vec<Vec<String>>,
    /// Otherwise changed files, relative to the project root (empty with `--allow-dirty`).
    pub dirty: Vec<Vec<String>>,
}

/// Collects the paths of the entries of one class.
fn paths_of_class(entries: &Vec<StatusEntry>, class: StatusClass) -> (r: Vec<Vec<String>>)
    ensures
        paths_view(r) == spec_paths_of_class(entries@, class),
{
    let mut r: Vec<Vec<String>> = Vec::new();
    let n = entries.len();
    let mut i: usize = 0;
    while i < n
        invariant
            n == entries@.len(),
            i <= n,
            paths_view(r) == spec_paths_of_class(entries@.subrange(0, i as int), class),
        decreases n - i,
    {
        let ghost sub = entries@.subrange(0, i + 1);
        assert(sub.drop_last() =~= entries@.subrange(0, i as int));
        if classify_status(entries[i].status) == class {
            let ghost before = paths_view(r);
            r.push(split_path(entries[i].path.as_str()));
            assert(paths_view(r) =~= before.push(spec_split_path(entries@[i as int].path@)));
        }
        i = i + 1;
    }
    assert(entries@.subrange(0, n as int) =~= entries@);
    r
}

impl GitRepo {
    /// The guard for a working tree whose files git reports as `statuses`,
    /// under the command-line arguments `args`.
    pub fn open(args: &Vec<String>, statuses: &Vec<StatusEntry>) -> (r: GitRepo)
        ensures
            r.allow_staged == strings(*args).contains("--allow-staged"@),
            paths_view(r.staged) == (if r.allow_staged {
                Seq::empty()
            } else {
                spec_paths_of_class(statuses@, StatusClass::Staged)
            }),
            paths_view(r.dirty) == (if strings(*args).contains("--allow-dirty"@) {
                Seq::empty()
            } else {
                spec_paths_of_class(statuses@, StatusClass::Dirty)
            }),
    {
        let flags = parse_codegen_flags(args);
        let staged = if flags.allow_staged {
            Vec::new()
        } else {
            paths_of_class(statuses, StatusClass::Staged)
        };
        let dirty = if flags.allow_dirty {
            Vec::new()
        } else {
            paths_of_class(statuses, StatusClass::Dirty)
        };
        proof {
            if flags.allow_staged {
                assert(paths_view(staged) =~= Seq::empty());
            }
            if flags.allow_dirty {
                assert(paths_view(dirty) =~= Seq::empty());
            }
        }
        GitRepo { allow_staged: flags.allow_staged, staged, dirty }
    }

    /// Whether the generator may overwrite `path`: a dirty file is refused
    /// first, then a staged one.
    pub fn check_path(&self, path: &Vec<String>) -> (r: Result<(), PathCheckError>)
        ensures
            match r {
                Ok(()) => spec_check_path(paths_view(self.dirty), paths_view(self.staged), path_view(*path)) is None,
                Err(e) => spec_check_path(paths_view(self.dirty), paths_view(self.staged), path_view(*path))
                    == Some(e.kind) && path_view(e.path) == path_view(*path),
            },
    {
        if path_in(&self.dirty, path) {
            Err(PathCheckError { kind: CheckFailure::Dirty, path: copy_path(path) })
        } else if path_in(&self.staged, path) {
            Err(PathCheckError { kind: CheckFailure::Staged, path: copy_path(path) })
        } else {
            Ok(())
        }
    }

    /// The paths to add to the git index after generation: none with
    /// `--allow-staged` (a staged version must not be overwritten), else all.
    /// Paths are held relative to the project root, so every path given is
    /// inside the project.
    pub fn stage_paths(&self, paths: &Vec<Vec<String>>) -> (r: Vec<Vec<String>>)
        ensures
            paths_view(r) == (if self.allow_staged {
                Seq::empty()
            } else {
                paths_view(*paths)
            }),
    {
        let mut r: Vec<Vec<String>> = Vec::new();
        if self.allow_staged {
            assert(paths_view(r) =~= Seq::empty());
            return r;
        }
        let n = paths.len();
        let mut i: usize = 0;
        while i < n
            invariant
                n == paths@.len(),
                i <= n,
                paths_view(r) =~= paths_view(*paths).subrange(0, i as int),
            decreases n - i,
        {
            let ghost before = paths_view(r);
            r.push(copy_path(&paths[i]));
            assert(paths_view(r) =~= before.push(paths_view(*paths)[i as int]));
            i = i + 1;
        }
        r
    }
}

/// Why the generator may not overwrite a file.
#[derive(Clone, Copy, Debug, PartialEq, Eq, Structural)]
pub enum CheckFailure {
    /// The file has uncommitted changes (pass `--allow-dirty` to proceed).
    Dirty,
    /// The file has staged changes (pass `--allow-staged` to proceed).
    Staged,
}

/// A file that the generator may not overwrite.
#[derive(Debug)]
pub struct PathCheckError {
    pub kind: CheckFailure,
    pub path: Vec<String>,
}

/// The command-line flag that lets generation overwrite a refused file.
pub open spec fn spec_flag(kind: CheckFailure) -> Seq<char> {
    match kind {
        CheckFailure::Dirty => "--allow-dirty"@,
        CheckFailure::Staged => "--allow-staged"@,
    }
}

/// The message of a refusal, `shown` being the file as the user sees it.
pub open spec fn spec_refusal_message(kind: CheckFailure, shown: Seq<char>) -> Seq<char> {
    "Codegen would overwrite '"@ + shown
        + "' but it has uncommitted changes. Commit the file to git, or pass "@ + spec_flag(kind)
        + " to the command to proceed anyway"@
}

impl PathCheckError {
    /// The command-line flag that lets generation overwrite the file.
    pub fn flag(&self) -> (r: &'static str)
        ensures
            r@ == spec_flag(self.kind),
    {
        match self.kind {
            CheckFailure::Dirty => "--allow-dirty",
            CheckFailure::Staged => "--allow-staged",
        }
    }

    /// The message that ends generation, `shown` being the refused file as
    /// the user sees it.
    pub fn message(&self, shown: &str) -> (r: String)
        ensures
            r@ == spec_refusal_message(self.kind, shown@),
    {
        let m = String::from_str("Codegen would overwrite '").concat(shown);
        let m = m.concat("' but it has uncommitted changes. Commit the file to git, or pass ");
        let m = m.concat(self.flag());
        m.concat(" to the command to proceed anyway")
    }
}

/// The guard refuses a dirty file as dirty, whether or not it is also
/// staged; it refuses a file as staged only when it is staged and not
/// dirty; any other file passes.
pub proof fn dirty_refused_before_staged(
    dirty: Seq<Seq<Seq<char>>>,
    staged: Seq<Seq<Seq<char>>>,
    path: Seq<Seq<char>>,
)
    ensures
        spec_check_path(dirty, staged, path) == Some(CheckFailure::Dirty) <==> dirty.contains(path),
        spec_check_path(dirty, staged, path) == Some(CheckFailure::Staged) <==> (!dirty.contains(
            path,
        ) && staged.contains(path)),
        spec_check_path(dirty, staged, path) is None <==> (!dirty.contains(path)
            && !staged.contains(path)),
{
}

/// The failure that checking `path` gives, if any.
pub open spec fn spec_check_path(
    dirty: Seq<Seq<Seq<char>>>,
    staged: Seq<Seq<Seq<char>>>,
    path: Seq<Seq<char>>,
) -> Option<CheckFailure> {
    if dirty.contains(path) {
        Some(CheckFailure::Dirty)
    } else if staged.contains(path) {
        Some(CheckFailure::Staged)
    } else {
        None
    }
}

} // verus!
