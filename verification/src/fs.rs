//! Decisions of the OS file system: the kind of a path from its metadata,
//! the traversal of one file system entry as a state machine over the
//! traversal context's answers, the output of `git diff`, file versions and
//! the temporary file system of tests.
use vstd::prelude::*;
use vstd::string::*;
use crate::order::strings;
use crate::paths::{copy_path, path_view, paths_view, strip_prefix, spec_strip_prefix};
use crate::text::push_char;

verus! {

/// The kind of an existing path.
#[derive(Clone, Copy, Debug, PartialEq, Eq, Structural)]
pub enum PathKind {
    File { is_symlink: bool },
    Directory { is_symlink: bool },
}

/// Why a file system operation failed.
#[derive(Clone, Copy, Debug, PartialEq, Eq, Structural)]
pub enum FsErrorKind {
    /// The path is neither a file, a directory nor a symbolic link to one.
    UnknownFileType,
    /// The path's metadata could not be read.
    CantReadFile,
}

/// How serious a diagnostic is.
#[derive(Clone, Copy, Debug, PartialEq, Eq, Structural)]
pub enum Severity {
    Warning,
    Error,
}

/// A file system error about one path.
#[derive(Debug)]
pub struct FileSystemDiagnostic {
    pub path: String,
    pub severity: Severity,
    pub error_kind: FsErrorKind,
    /// The message of the I/O error behind it, if any.
    pub source: Option<String>,
}

/// What the metadata of a path tells.
#[derive(Clone, Copy, Debug, PartialEq, Eq, Structural)]
pub struct MetadataInfo {
    pub is_dir: bool,
    pub is_file: bool,
    pub is_symlink: bool,
}

/// The kind of a path from its metadata (or the error of reading it): a
/// directory, else a file or symbolic link; anything else is an error.
pub fn path_kind_from_metadata(metadata: Result<MetadataInfo, String>, path: &str) -> (r: Result<
    PathKind,
    FileSystemDiagnostic,
>)
    ensures
        match metadata {
            Ok(m) => if m.is_dir {
                r == Ok::<PathKind, FileSystemDiagnostic>(PathKind::Directory { is_symlink: m.is_symlink })
            } else if m.is_file || m.is_symlink {
                r == Ok::<PathKind, FileSystemDiagnostic>(PathKind::File { is_symlink: m.is_symlink })
            } else {
                r matches Err(d) && d.path@ == path@ && d.severity == Severity::Error && d.error_kind
                    == FsErrorKind::UnknownFileType && d.source is None
            },
            Err(msg) => r matches Err(d) && d.path@ == path@ && d.severity == Severity::Error
                && d.error_kind == FsErrorKind::CantReadFile && (d.source matches Some(s) && s@ == msg@),
        },
{
    match metadata {
        Ok(m) => {
            let is_symlink = m.is_symlink;
            if m.is_dir {
                Ok(PathKind::Directory { is_symlink })
            } else if m.is_file || is_symlink {
                Ok(PathKind::File { is_symlink })
            } else {
                Err(
                    FileSystemDiagnostic {
                        path: String::from_str(path),
                        severity: Severity::Error,
                        error_kind: FsErrorKind::UnknownFileType,
                        source: None,
                    },
                )
            }
        },
        Err(msg) => Err(
            FileSystemDiagnostic {
                path: String::from_str(path),
                severity: Severity::Error,
                error_kind: FsErrorKind::CantReadFile,
                source: Some(msg),
            },
        ),
    }
}

/// The warning that the traversal reports for `path` when it is neither a
/// file, a directory nor a symbolic link, or when an entry behind a symbolic
/// link has no file name.
pub fn unknown_file_type_warning(path: &str) -> (r: FileSystemDiagnostic)
    ensures
        r.path@ == path@,
        r.severity == Severity::Warning,
        r.error_kind == FsErrorKind::UnknownFileType,
        r.source is None,
{
    FileSystemDiagnostic {
        path: String::from_str(path),
        severity: Severity::Warning,
        error_kind: FsErrorKind::UnknownFileType,
        source: None,
    }
}

/// The error kind of a file of an unsupported type: always unknown.
pub fn error_kind_of_file_type() -> (r: FsErrorKind)
    ensures
        r == FsErrorKind::UnknownFileType,
{
    FsErrorKind::UnknownFileType
}

// ---------------------------------------------------------------------------
// Traversal of one entry

/// The type of a file system entry.
#[derive(Clone, Copy, Debug, PartialEq, Eq, Structural)]
pub enum FileKind {
    File,
    Directory,
    Symlink,
    Other,
}

/// Where the traversal of one entry stands.
#[derive(Debug)]
pub enum TraversalState {
    /// Waiting for the interner's answer about `path`.
    Interned { path: Vec<String>, kind: FileKind, origin: Option<Vec<String>> },
    /// Waiting for whether the context handles the symbolic link `path`.
    LinkHandled { path: Vec<String>, origin: Option<Vec<String>> },
    /// Waiting for the target of the symbolic link `path`.
    LinkExpanded { path: Vec<String>, origin: Option<Vec<String>> },
    /// Waiting for the interner's answer about the link target.
    TargetInterned {
        link: Vec<String>,
        target: Vec<String>,
        kind: FileKind,
        origin: Option<Vec<String>>,
    },
    /// Waiting for whether the context handles the entry under its traversal path.
    Handled { path: Vec<String>, kind: FileKind, origin: Option<Vec<String>> },
    /// A traversal of directory `path` was spawned; waiting for whether the
    /// context stores directories.
    DirSpawned { path: Vec<String> },
    /// Nothing more to do.
    Finished,
}

/// An answer of the traversal context.
#[derive(Debug)]
pub enum TraversalEvent {
    /// The answer to a yes/no question (interned anew, handled, stores directories).
    Answer(bool),
    /// The target of a symbolic link and its type, or `None` when it could not be read.
    Expanded(Option<(Vec<String>, FileKind)>),
    /// The requested work is done.
    Done,
}

/// What the traversal asks of the context.
#[derive(Debug)]
pub enum TraversalAction {
    /// Intern `path`; answer whether it was new.
    Intern(Vec<String>),
    /// Answer whether the context handles `path`.
    CanHandle(Vec<String>),
    /// Read the target of the symbolic link `path`.
    Expand(Vec<String>),
    /// Report the error of reading a symbolic link.
    ReportExpandError,
    /// Traverse directory `path` in a new task, `origin` being its unresolved path.
    SpawnDir { path: Vec<String>, origin: Option<Vec<String>> },
    /// Answer whether the context stores directories.
    StoresDirs,
    /// Store `path`.
    Store(Vec<String>),
    /// Report that `path` has an unknown file type, with the diagnostic of
    /// `unknown_file_type_warning`.
    ReportUnknownFileType(Vec<String>),
    /// Nothing.
    Stop,
}

/// The first step of the traversal of an entry: intern its path.
pub fn start_traversal(path: Vec<String>, kind: FileKind, origin: Option<Vec<String>>) -> (r: (
    TraversalState,
    TraversalAction,
))
    ensures
        r.0 matches TraversalState::Interned { path: p, kind: k, origin: o } && path_view(p)
            == path_view(path) && k == kind && opt_path_view(o) == opt_path_view(origin),
        r.1 matches TraversalAction::Intern(p) && path_view(p) == path_view(path),
{
    let p = copy_path(&path);
    (TraversalState::Interned { path, kind, origin }, TraversalAction::Intern(p))
}

/// An optional path, as components.
pub open spec fn opt_path_view(o: Option<Vec<String>>) -> Option<Seq<Seq<char>>> {
    match o {
        Some(p) => Some(path_view(p)),
        None => None,
    }
}

/// Copies an optional path.
fn copy_opt(o: &Option<Vec<String>>) -> (r: Option<Vec<String>>)
    ensures
        opt_path_view(r) == opt_path_view(*o),
{
    match o {
        Some(p) => Some(copy_path(p)),
        None => None,
    }
}

/// The path under which the traversal sees an entry behind a symbolic
/// link: the origin joined with the entry's file name. `None` when the
/// entry has no file name.
pub open spec fn spec_traversal_path(path: Seq<Seq<char>>, origin: Option<Seq<Seq<char>>>) -> Option<
    Seq<Seq<char>>,
> {
    match origin {
        Some(o) => if path.len() > 0 {
            Some(o.push(path.last()))
        } else {
            None
        },
        None => Some(path),
    }
}

/// Outside a symbolic link an entry keeps its own path; behind one it is
/// seen under the link's path joined with the entry's file name, and an
/// entry without a file name has no such path.
pub proof fn traversal_path_under_origin(path: Seq<Seq<char>>, origin: Option<Seq<Seq<char>>>)
    ensures
        origin is None ==> spec_traversal_path(path, origin) == Some(path),
        origin is Some && path.len() > 0 ==> spec_traversal_path(path, origin) == Some(
            origin->0.push(path[path.len() - 1]),
        ),
        origin is Some && path.len() == 0 ==> spec_traversal_path(path, origin) is None,
{
}

/// Resolves the traversal path of an entry and asks whether the context handles it.
fn resolve_and_ask(path: Vec<String>, kind: FileKind, origin: Option<Vec<String>>) -> (r: (
    TraversalState,
    TraversalAction,
))
    ensures
        match spec_traversal_path(path_view(path), opt_path_view(origin)) {
            Some(t) => (r.0 matches TraversalState::Handled { path: p, kind: k, origin: o }
                && path_view(p) == path_view(path) && k == kind && opt_path_view(o) == (
            if origin is Some {
                Some(t)
            } else {
                None
            })) && (r.1 matches TraversalAction::CanHandle(q) && path_view(q) == t),
            None => r.0 is Finished && (r.1 matches TraversalAction::ReportUnknownFileType(q)
                && path_view(q) == path_view(path)),
        },
{
    match &origin {
        Some(o) => {
            if path.len() == 0 {
                return (TraversalState::Finished, TraversalAction::ReportUnknownFileType(path));
            }
            let mut joined = copy_path(o);
            let ghost before = path_view(joined);
            joined.push(path[path.len() - 1].clone());
            assert(path_view(joined) =~= before.push(path_view(path).last()));
            let asked = copy_path(&joined);
            (
                TraversalState::Handled { path, kind, origin: Some(joined) },
                TraversalAction::CanHandle(asked),
            )
        },
        None => {
            let asked = copy_path(&path);
            (TraversalState::Handled { path, kind, origin: None }, TraversalAction::CanHandle(asked))
        },
    }
}

/// One step of the traversal of an entry: from the state and the context's
/// answer, the next state and what to ask of the context.
///
/// A path already interned is skipped. A symbolic link is followed only if
/// the context handles it: its target is interned, a directory target is
/// traversed in a new task under the link's path, and any other target
/// stands for the link. Behind a symbolic link an entry is seen under the
/// origin path joined with its file name. An entry the context does not
/// handle is skipped; a directory is traversed in a new task (and stored
/// when the context stores directories); a file is stored; anything else is
/// reported as an unknown file type.
pub fn traversal_step(state: TraversalState, event: TraversalEvent) -> (r: (
    TraversalState,
    TraversalAction,
))
    ensures
        spec_step_matches(state, event, r.0, r.1),
{
    match state {
        TraversalState::Interned { path, kind, origin } => match event {
            TraversalEvent::Answer(true) => {
                if kind == FileKind::Symlink {
                    let asked = copy_path(&path);
                    (TraversalState::LinkHandled { path, origin }, TraversalAction::CanHandle(asked))
                } else {
                    resolve_and_ask(path, kind, origin)
                }
            },
            _ => (TraversalState::Finished, TraversalAction::Stop),
        },
        TraversalState::LinkHandled { path, origin } => match event {
            TraversalEvent::Answer(true) => {
                let asked = copy_path(&path);
                (TraversalState::LinkExpanded { path, origin }, TraversalAction::Expand(asked))
            },
            _ => (TraversalState::Finished, TraversalAction::Stop),
        },
        TraversalState::LinkExpanded { path, origin } => match event {
            TraversalEvent::Expanded(Some((target, kind))) => {
                let asked = copy_path(&target);
                (
                    TraversalState::TargetInterned { link: path, target, kind, origin },
                    TraversalAction::Intern(asked),
                )
            },
            _ => (TraversalState::Finished, TraversalAction::ReportExpandError),
        },
        TraversalState::TargetInterned { link, target, kind, origin } => match event {
            TraversalEvent::Answer(true) => {
                if kind == FileKind::Directory {
                    (
                        TraversalState::Finished,
                        TraversalAction::SpawnDir { path: target, origin: Some(link) },
                    )
                } else {
                    resolve_and_ask(target, kind, origin)
                }
            },
            _ => (TraversalState::Finished, TraversalAction::Stop),
        },
        TraversalState::Handled { path, kind, origin } => match event {
            TraversalEvent::Answer(true) => {
                if kind == FileKind::Directory {
                    let spawned = copy_path(&path);
                    (
                        TraversalState::DirSpawned { path },
                        TraversalAction::SpawnDir { path: spawned, origin },
                    )
                } else if kind == FileKind::File {
                    (TraversalState::Finished, TraversalAction::Store(path))
                } else {
                    (TraversalState::Finished, TraversalAction::ReportUnknownFileType(path))
                }
            },
            _ => (TraversalState::Finished, TraversalAction::Stop),
        },
        TraversalState::DirSpawned { path } => match event {
            TraversalEvent::Answer(true) => (TraversalState::Finished, TraversalAction::Store(path)),
            TraversalEvent::Answer(false) => (TraversalState::Finished, TraversalAction::Stop),
            _ => (TraversalState::DirSpawned { path }, TraversalAction::StoresDirs),
        },
        TraversalState::Finished => (TraversalState::Finished, TraversalAction::Stop),
    }
}

/// The transition of `traversal_step`, stated over path components.
pub open spec fn spec_step_matches(
    s: TraversalState,
    e: TraversalEvent,
    s2: TraversalState,
    a: TraversalAction,
) -> bool {
    match s {
        TraversalState::Interned { path, kind, origin } => if e == TraversalEvent::Answer(true) {
            if kind == FileKind::Symlink {
                (s2 matches TraversalState::LinkHandled { path: p, origin: o } && path_view(p)
                    == path_view(path) && opt_path_view(o) == opt_path_view(origin)) && (a matches TraversalAction::CanHandle(
                    q,
                ) && path_view(q) == path_view(path))
            } else {
                spec_resolved(path, kind, origin, s2, a)
            }
        } else {
            s2 is Finished && a is Stop
        },
        TraversalState::LinkHandled { path, origin } => if e == TraversalEvent::Answer(true) {
            (s2 matches TraversalState::LinkExpanded { path: p, origin: o } && path_view(p)
                == path_view(path) && opt_path_view(o) == opt_path_view(origin)) && (a matches TraversalAction::Expand(
                q,
            ) && path_view(q) == path_view(path))
        } else {
            s2 is Finished && a is Stop
        },
        TraversalState::LinkExpanded { path, origin } => match e {
            TraversalEvent::Expanded(Some((target, kind))) => (s2 matches TraversalState::TargetInterned {
                link: l,
                target: t,
                kind: k,
                origin: o,
            } && path_view(l) == path_view(path) && path_view(t) == path_view(target) && k == kind
                && opt_path_view(o) == opt_path_view(origin)) && (a matches TraversalAction::Intern(
                q,
            ) && path_view(q) == path_view(target)),
            _ => s2 is Finished && a is ReportExpandError,
        },
        TraversalState::TargetInterned { link, target, kind, origin } => if e
            == TraversalEvent::Answer(true) {
            if kind == FileKind::Directory {
                s2 is Finished && (a matches TraversalAction::SpawnDir { path: p, origin: o }
                    && path_view(p) == path_view(target) && opt_path_view(o) == Some(
                    path_view(link),
                ))
            } else {
                spec_resolved(target, kind, origin, s2, a)
            }
        } else {
            s2 is Finished && a is Stop
        },
        TraversalState::Handled { path, kind, origin } => if e == TraversalEvent::Answer(true) {
            if kind == FileKind::Directory {
                (s2 matches TraversalState::DirSpawned { path: p } && path_view(p) == path_view(
                    path,
                )) && (a matches TraversalAction::SpawnDir { path: q, origin: o } && path_view(q)
                    == path_view(path) && opt_path_view(o) == opt_path_view(origin))
            } else if kind == FileKind::File {
                s2 is Finished && (a matches TraversalAction::Store(q) && path_view(q) == path_view(
                    path,
                ))
            } else {
                s2 is Finished && (a matches TraversalAction::ReportUnknownFileType(q) && path_view(q)
                    == path_view(path))
            }
        } else {
            s2 is Finished && a is Stop
        },
        TraversalState::DirSpawned { path } => match e {
            TraversalEvent::Answer(b) => s2 is Finished && if b {
                a matches TraversalAction::Store(q) && path_view(q) == path_view(path)
            } else {
                a is Stop
            },
            _ => (s2 matches TraversalState::DirSpawned { path: p } && path_view(p) == path_view(
                path,
            )) && a is StoresDirs,
        },
        TraversalState::Finished => s2 is Finished && a is Stop,
    }
}

/// The step after the traversal path of an entry is resolved.
pub open spec fn spec_resolved(
    path: Vec<String>,
    kind: FileKind,
    origin: Option<Vec<String>>,
    s2: TraversalState,
    a: TraversalAction,
) -> bool {
    match spec_traversal_path(path_view(path), opt_path_view(origin)) {
        Some(t) => (s2 matches TraversalState::Handled { path: p, kind: k, origin: o } && path_view(p)
            == path_view(path) && k == kind && opt_path_view(o) == (if origin is Some {
            Some(t)
        } else {
            None
        })) && (a matches TraversalAction::CanHandle(q) && path_view(q) == t),
        None => s2 is Finished && (a matches TraversalAction::ReportUnknownFileType(q) && path_view(q)
            == path_view(path)),
    }
}

/// How many more steps a traversal can take at most.
pub open spec fn spec_steps_left(s: TraversalState) -> nat {
    match s {
        TraversalState::Interned { .. } => 6,
        TraversalState::LinkHandled { .. } => 5,
        TraversalState::LinkExpanded { .. } => 4,
        TraversalState::TargetInterned { .. } => 3,
        TraversalState::Handled { .. } => 2,
        TraversalState::DirSpawned { .. } => 1,
        TraversalState::Finished => 0,
    }
}

/// Each step given a yes/no answer, and every step from a symbolic link
/// waiting for its target, moves the traversal forward: the traversal of an
/// entry ends after at most six such answers.
pub proof fn traversal_progresses(
    s: TraversalState,
    e: TraversalEvent,
    s2: TraversalState,
    a: TraversalAction,
)
    requires
        spec_step_matches(s, e, s2, a),
        e is Answer || s is LinkExpanded,
    ensures
        s is Finished || spec_steps_left(s2) < spec_steps_left(s),
{
}

/// A negative answer ends the traversal of an entry: in every state but
/// the one waiting for a link's target, `Answer(false)` leads to `Finished`
/// with nothing more to do. In particular a symbolic link that the context
/// does not handle is never expanded, and no answer `false` is followed by
/// an expansion, a spawned directory or a stored path.
pub proof fn refusal_stops_traversal(
    s: TraversalState,
    s2: TraversalState,
    a: TraversalAction,
)
    requires
        spec_step_matches(s, TraversalEvent::Answer(false), s2, a),
    ensures
        !(s is LinkExpanded) ==> s2 is Finished && a is Stop,
        !(a is Expand) && !(a is SpawnDir) && !(a is Store),
{
}

/// What happens to an entry that the context handles: a file is stored, a
/// directory is traversed in a new task, anything else is reported as an
/// unknown file type; a spawned directory is stored when the context stores
/// directories; a first-seen symbolic link is first asked about; a
/// finished traversal does nothing more.
pub proof fn handled_entries(s: TraversalState, e: TraversalEvent, s2: TraversalState, a: TraversalAction)
    requires
        spec_step_matches(s, e, s2, a),
    ensures
        e == TraversalEvent::Answer(true) ==> match s {
            TraversalState::Handled { path, kind, .. } => {
                &&& kind == FileKind::File ==> (a matches TraversalAction::Store(q) && path_view(q)
                    == path_view(path))
                &&& kind == FileKind::Directory ==> (
                a matches TraversalAction::SpawnDir { path: q, .. } && path_view(q) == path_view(path))
                &&& kind != FileKind::File && kind != FileKind::Directory ==> (
                a matches TraversalAction::ReportUnknownFileType(q) && path_view(q) == path_view(path))
            },
            TraversalState::DirSpawned { path } => (a matches TraversalAction::Store(q)
                && path_view(q) == path_view(path)),
            TraversalState::Interned { path, kind, .. } => kind == FileKind::Symlink ==> (
            a matches TraversalAction::CanHandle(q) && path_view(q) == path_view(path)),
            _ => true,
        },
        s is Finished ==> s2 is Finished && a is Stop,
{
}

/// A symbolic link is expanded only when the context handles it.
pub proof fn link_expanded_only_when_handled(
    s: TraversalState,
    e: TraversalEvent,
    s2: TraversalState,
    a: TraversalAction,
)
    requires
        spec_step_matches(s, e, s2, a),
        a is Expand,
    ensures
        s is LinkHandled,
        e == TraversalEvent::Answer(true),
{
}

/// An entry is stored only when the context answered that it handles the
/// entry, or that it stores directories after a directory was spawned.
pub proof fn store_needs_consent(
    s: TraversalState,
    e: TraversalEvent,
    s2: TraversalState,
    a: TraversalAction,
)
    requires
        spec_step_matches(s, e, s2, a),
        a is Store,
    ensures
        e == TraversalEvent::Answer(true),
        s is Handled || s is DirSpawned,
{
}

// ---------------------------------------------------------------------------
// git diff output

/// Scan state of splitting the first `n` characters of `s` into lines: the
/// lines completed so far and the line being read.
pub open spec fn lines_state(s: Seq<char>, n: int) -> (Seq<Seq<char>>, Seq<char>)
    decreases n,
{
    if n <= 0 {
        (Seq::empty(), Seq::empty())
    } else {
        let (done, cur) = lines_state(s, n - 1);
        if s[n - 1] == '\n' {
            (done.push(strip_cr(cur)), Seq::empty())
        } else {
            (done, cur.push(s[n - 1]))
        }
    }
}

/// A line without its final carriage return.
pub open spec fn strip_cr(l: Seq<char>) -> Seq<char> {
    if l.len() > 0 && l.last() == '\r' {
        l.drop_last()
    } else {
        l
    }
}

/// The lines of a text, as `str::lines` gives them: split at `\n`, with
/// the `\r` of a `\r\n` ending dropped; a last line without `\n` is kept
/// whole, and there is no empty line after a final `\n`.
pub open spec fn spec_lines(s: Seq<char>) -> Seq<Seq<char>> {
    let (done, cur) = lines_state(s, s.len() as int);
    if cur.len() > 0 {
        done.push(cur)
    } else {
        done
    }
}

/// Splitting the first `n` characters leaves no newline in any line.
proof fn lemma_lines_state_no_newline(s: Seq<char>, n: int)
    requires
        n <= s.len(),
    ensures
        forall|k: int| 0 <= k < lines_state(s, n).0.len() ==> !(#[trigger] lines_state(s, n).0[k]).contains('\n'),
        !lines_state(s, n).1.contains('\n'),
    decreases n,
{
    if n > 0 {
        lemma_lines_state_no_newline(s, n - 1);
        let (done, cur) = lines_state(s, n - 1);
        if s[n - 1] == '\n' {
            assert(!strip_cr(cur).contains('\n')) by {
                if cur.len() > 0 && cur.last() == '\r' {
                    if strip_cr(cur).contains('\n') {
                        let j = choose|j: int| 0 <= j < strip_cr(cur).len() && strip_cr(cur)[j] == '\n';
                        assert(cur[j] == '\n');
                    }
                }
            }
            assert(lines_state(s, n).1 =~= Seq::<char>::empty());
        } else {
            let next = cur.push(s[n - 1]);
            if next.contains('\n') {
                let j = choose|j: int| 0 <= j < next.len() && next[j] == '\n';
                assert(cur[j] == '\n');
            }
        }
    }
}

/// No line of a text holds a newline, and a non-empty text without a
/// newline is a single line, the whole text.
pub proof fn lines_hold_no_newline(s: Seq<char>)
    ensures
        forall|k: int| 0 <= k < spec_lines(s).len() ==> !(#[trigger] spec_lines(s)[k]).contains('\n'),
        s.len() > 0 && !s.contains('\n') ==> spec_lines(s) == seq![s],
{
    lemma_lines_state_no_newline(s, s.len() as int);
    if s.len() > 0 && !s.contains('\n') {
        lemma_lines_state_plain(s, s.len() as int);
        assert(s.subrange(0, s.len() as int) =~= s);
        assert(lines_state(s, s.len() as int).0 =~= Seq::<Seq<char>>::empty());
        assert(spec_lines(s) =~= seq![s]);
    }
}

/// Without a newline, the scan collects every character in the current line.
proof fn lemma_lines_state_plain(s: Seq<char>, n: int)
    requires
        0 <= n <= s.len(),
        !s.contains('\n'),
    ensures
        lines_state(s, n).0.len() == 0,
        lines_state(s, n).1 == s.subrange(0, n),
    decreases n,
{
    if n > 0 {
        lemma_lines_state_plain(s, n - 1);
        assert(s[n - 1] != '\n');
        assert(s.subrange(0, n) =~= s.subrange(0, n - 1).push(s[n - 1]));
    } else {
        assert(s.subrange(0, 0) =~= Seq::<char>::empty());
    }
}

/// Drops a final carriage return from a line.
fn strip_cr_string(l: String) -> (r: String)
    ensures
        r@ == strip_cr(l@),
{
    let n = l.as_str().unicode_len();
    if n > 0 && l.as_str().get_char(n - 1) == '\r' {
        let s = l.as_str().substring_char(0, n - 1);
        let r = String::from_str(s);
        assert(r@ =~= l@.drop_last());
        r
    } else {
        l
    }
}

/// The files that `git diff --name-only` printed, one per line.
pub fn changed_files_from_output(output: &str) -> (r: Vec<String>)
    ensures
        strings(r) == spec_lines(output@),
{
    let n = output.unicode_len();
    let mut done: Vec<String> = Vec::new();
    let mut cur = String::new();
    let mut i: usize = 0;
    while i < n
        invariant
            n == output@.len(),
            i <= n,
            (strings(done), cur@) == lines_state(output@, i as int),
        decreases n - i,
    {
        let c = output.get_char(i);
        if c == '\n' {
            let ghost before = strings(done);
            let line = strip_cr_string(cur);
            done.push(line);
            assert(strings(done) =~= before.push(strip_cr(lines_state(output@, i as int).1)));
            cur = String::new();
        } else {
            push_char(&mut cur, c);
        }
        i = i + 1;
    }
    if cur.as_str().unicode_len() > 0 {
        let ghost before = strings(done);
        done.push(cur);
        assert(strings(done) =~= before.push(lines_state(output@, n as int).1));
    }
    done
}

/// Names of the bytes in UTF-8 text, with each invalid sequence replaced by
/// U+FFFD, as `String::from_utf8_lossy` decodes it.
pub uninterp spec fn utf8_lossy(bytes: Seq<u8>) -> Seq<char>;

/// Calls `String::from_utf8_lossy`, which decodes UTF-8 and replaces each
/// invalid sequence by U+FFFD. The contract names the result and states
/// that ASCII bytes decode one for one.
#[verifier::external_body]
fn decode_utf8_lossy(bytes: &[u8]) -> (r: String)
    ensures
        r@ == utf8_lossy(bytes@),
        (forall|i: int| 0 <= i < bytes@.len() ==> bytes@[i] < 128) ==> r@ == bytes@.map_values(
            |b: u8| b as char,
        ),
{
    String::from_utf8_lossy(bytes).into_owned()
}

/// The files that `git diff --name-only` printed on standard output.
pub fn changed_files_from_stdout(stdout: &[u8]) -> (r: Vec<String>)
    ensures
        strings(r) == spec_lines(utf8_lossy(stdout@)),
{
    let text = decode_utf8_lossy(stdout);
    changed_files_from_output(text.as_str())
}

/// The arguments of the `git` command that lists the files changed since `base`.
pub fn changed_files_args(base: &str) -> (r: Vec<String>)
    ensures
        strings(r) == seq![
            "diff"@,
            "--name-only"@,
            "--relative"@,
            "--diff-filter=ACMR"@,
            base@ + "...HEAD"@,
        ],
{
    let mut r: Vec<String> = Vec::new();
    r.push(String::from_str("diff"));
    r.push(String::from_str("--name-only"));
    r.push(String::from_str("--relative"));
    r.push(String::from_str("--diff-filter=ACMR"));
    r.push(String::from_str(base).concat("...HEAD"));
    assert(strings(r) =~= seq![
        "diff"@,
        "--name-only"@,
        "--relative"@,
        "--diff-filter=ACMR"@,
        base@ + "...HEAD"@,
    ]);
    r
}

/// The arguments of the `git` command that lists the staged files.
pub fn staged_files_args() -> (r: Vec<String>)
    ensures
        strings(r) == seq![
            "diff"@,
            "--name-only"@,
            "--relative"@,
            "--staged"@,
            "--diff-filter=ACMR"@,
        ],
{
    let mut r: Vec<String> = Vec::new();
    r.push(String::from_str("diff"));
    r.push(String::from_str("--name-only"));
    r.push(String::from_str("--relative"));
    r.push(String::from_str("--staged"));
    r.push(String::from_str("--diff-filter=ACMR"));
    assert(strings(r) =~= seq![
        "diff"@,
        "--name-only"@,
        "--relative"@,
        "--staged"@,
        "--diff-filter=ACMR"@,
    ]);
    r
}

// ---------------------------------------------------------------------------
// File versions

/// The version of an open file: it counts the writes of its content.
#[derive(Clone, Copy, Debug, PartialEq, Eq, Structural)]
pub struct FileVersion {
    pub version: i32,
}

impl FileVersion {
    /// A file just opened has version 0.
    pub fn new() -> (r: FileVersion)
        ensures
            r.version == 0,
    {
        FileVersion { version: 0 }
    }

    /// Records a write of the content.
    pub fn record_write(&mut self)
        requires
            old(self).version < i32::MAX,
        ensures
            final(self).version == old(self).version + 1,
    {
        self.version = self.version + 1;
    }

    /// The version of the file.
    pub fn file_version(&self) -> (r: i32)
        ensures
            r == self.version,
    {
        self.version
    }
}

// ---------------------------------------------------------------------------
// Temporary file system of tests

/// The paths of the files of a temporary file system relative to its project
/// directory, as the in-memory file system of a test holds them.
pub fn memory_paths(files: &Vec<Vec<String>>, project_directory: &Vec<String>) -> (r: Option<
    Vec<Vec<String>>,
>)
    ensures
        match r {
            Some(v) => v@.len() == files@.len() && forall|i: int|
                0 <= i < files@.len() ==> spec_strip_prefix(
                    path_view(#[trigger] files@[i]),
                    path_view(*project_directory),
                ) == Some(path_view(v@[i])),
            None => exists|i: int|
                0 <= i < files@.len() && spec_strip_prefix(
                    path_view(#[trigger] files@[i]),
                    path_view(*project_directory),
                ) is None,
        },
{
    let mut r: Vec<Vec<String>> = Vec::new();
    let n = files.len();
    let mut i: usize = 0;
    while i < n
        invariant
            n == files@.len(),
            i <= n,
            r@.len() == i,
            forall|k: int|
                0 <= k < i ==> spec_strip_prefix(
                    path_view(#[trigger] files@[k]),
                    path_view(*project_directory),
                ) == Some(path_view(r@[k])),
        decreases n - i,
    {
        match strip_prefix(&files[i], project_directory) {
            Some(p) => r.push(p),
            None => {
                return None;
            },
        }
        i = i + 1;
    }
    Some(r)
}

} // verus!
