//! Lexical resolution of operation paths inside a namespace.
//!
//! A filesystem interprets paths either in the host namespace or beneath an
//! opened root. Relative paths start at the namespace's current directory;
//! `.` and empty segments stay put, and `..` removes one component, which is
//! rejected only when it would cross the namespace root. A resolved path is
//! kept both as its namespace-absolute identity and as the path handed to
//! the native authority: the same absolute path on the host, and the path
//! relative to the opened root otherwise.
use vstd::prelude::*;

use crate::local_file_error::{
    spec_bare_error, LocalFileError, LocalFileErrorKind, LocalFileErrorView, LocalFileOperation, LocalResult,
};
use crate::local_paths::{lemma_components_are_segments, lemma_join_normal, lemma_root_shape};
use crate::path_model::{
    components, copy_bytes, dot, drop_empty, has_dot_segment, is_absolute, is_absolute_exec,
    is_normal_component, join_all, lemma_raw_segments_shape, path_push_exec, raw_segments, scan_path,
    slash, views,
};

verus! {

broadcast use vstd::seq::group_seq_axioms;

/// Namespace in which a filesystem interprets paths.
#[derive(Clone, Copy, Debug, PartialEq, Eq, Structural)]
pub enum LocalFileSystemScope {
    /// Paths use the process-visible host namespace.
    Host,
    /// Paths are descendants of an opened root authority.
    Rooted,
}

/// One resolution step: empty and `.` segments keep the stack, `..` pops
/// one component and fails on an empty stack, and any other segment is
/// pushed.
pub open spec fn resolution_step(stack: Seq<Seq<u8>>, segment: Seq<u8>) -> Option<Seq<Seq<u8>>> {
    if segment.len() == 0 || segment == seq![dot()] {
        Some(stack)
    } else if segment == seq![dot(), dot()] {
        if stack.len() == 0 {
            None
        } else {
            Some(stack.drop_last())
        }
    } else {
        Some(stack.push(segment))
    }
}

/// Applies the resolution steps of `segments`, in order, to `base`; `None`
/// when some `..` would cross the root.
pub open spec fn normalize_segments(base: Seq<Seq<u8>>, segments: Seq<Seq<u8>>) -> Option<Seq<Seq<u8>>>
    decreases segments.len(),
{
    if segments.len() == 0 {
        Some(base)
    } else {
        match normalize_segments(base, segments.drop_last()) {
            Some(stack) => resolution_step(stack, segments.last()),
            None => None,
        }
    }
}

/// Whether a path is written as a directory: empty, ending with `/`, or
/// ending with a `.` or `..` segment.
pub open spec fn is_directory_qualified(path: Seq<u8>) -> bool {
    let n = path.len();
    ||| n == 0
    ||| path.last() == slash()
    ||| path == seq![dot()]
    ||| path == seq![dot(), dot()]
    ||| (n >= 2 && path.subrange(n - 2, n as int) == seq![slash(), dot()])
    ||| (n >= 3 && path.subrange(n - 3, n as int) == seq![slash(), dot(), dot()])
}

/// The namespace-absolute path of a component stack.
pub open spec fn absolute_of(stack: Seq<Seq<u8>>) -> Seq<u8> {
    join_all(seq![slash()], stack)
}

/// The root-relative path of a component stack.
pub open spec fn relative_of(stack: Seq<Seq<u8>>) -> Seq<u8> {
    join_all(Seq::empty(), stack)
}

/// A resolved operation path as plain values.
pub struct LocalNamespacePathView {
    pub namespace_absolute: Seq<u8>,
    pub authority_relative: Seq<u8>,
    pub directory_required: bool,
}

/// The path given to the native authority for a component stack: the
/// absolute path on the host, the root-relative path beneath an opened root.
pub open spec fn authority_path_of(scope: LocalFileSystemScope, stack: Seq<Seq<u8>>) -> Seq<u8> {
    match scope {
        LocalFileSystemScope::Host => absolute_of(stack),
        LocalFileSystemScope::Rooted => relative_of(stack),
    }
}

/// Whether a current directory is usable as a resolution base: absolute
/// and free of `.` and `..` segments.
pub open spec fn is_valid_current_directory(path: Seq<u8>) -> bool {
    is_absolute(path) && !has_dot_segment(path)
}

/// The reason a relative path cannot be resolved without a current
/// directory.
pub open spec fn spec_no_current_directory_reason() -> Seq<char> {
    "a relative path needs a current directory"@
}

/// The reason a path that climbs above the root is rejected.
pub open spec fn spec_escape_reason() -> Seq<char> {
    "the path climbs above the namespace root"@
}

/// Lexical resolution of `path` in `scope`, from `current_directory` when
/// the path is relative; the failure is the reason it was rejected.
pub open spec fn spec_resolve(
    scope: LocalFileSystemScope,
    current_directory: Option<Seq<u8>>,
    path: Seq<u8>,
) -> Result<LocalNamespacePathView, Seq<char>> {
    let base: Option<Seq<Seq<u8>>> = if is_absolute(path) {
        Some(Seq::empty())
    } else {
        match current_directory {
            Some(c) => Some(components(c)),
            None => None,
        }
    };
    match base {
        None => Err(spec_no_current_directory_reason()),
        Some(b) => match normalize_segments(b, raw_segments(path)) {
            None => Err(spec_escape_reason()),
            Some(stack) => Ok(
                LocalNamespacePathView {
                    namespace_absolute: absolute_of(stack),
                    authority_relative: authority_path_of(scope, stack),
                    directory_required: is_directory_qualified(path),
                },
            ),
        },
    }
}

/// The structured error of a rejected resolution.
pub open spec fn spec_resolve_error(reason: Seq<char>) -> LocalFileErrorView {
    LocalFileErrorView {
        reason: Some(reason),
        ..spec_bare_error(LocalFileErrorKind::InvalidPath, LocalFileOperation::BindPath)
    }
}

/// A path resolved inside a namespace.
#[derive(Debug)]
pub struct LocalNamespacePath {
    namespace_absolute: Vec<u8>,
    authority_relative: Vec<u8>,
    directory_required: bool,
}

impl View for LocalNamespacePath {
    type V = LocalNamespacePathView;

    closed spec fn view(&self) -> LocalNamespacePathView {
        LocalNamespacePathView {
            namespace_absolute: self.namespace_absolute@,
            authority_relative: self.authority_relative@,
            directory_required: self.directory_required,
        }
    }
}

impl LocalNamespacePath {
    /// Returns the namespace-absolute identity of the path.
    pub fn namespace_absolute(&self) -> (path: &[u8])
        ensures
            path@ == self@.namespace_absolute,
    {
        self.namespace_absolute.as_slice()
    }

    /// Returns the path handed to the native authority.
    pub fn authority_relative(&self) -> (path: &[u8])
        ensures
            path@ == self@.authority_relative,
    {
        self.authority_relative.as_slice()
    }

    /// Returns whether the path was written as a directory.
    pub fn directory_required(&self) -> (res: bool)
        ensures
            res == self@.directory_required,
    {
        self.directory_required
    }
}

/// Resolves operation paths of one namespace from one current-directory
/// snapshot.
#[derive(Debug)]
pub struct LocalPathResolver {
    scope: LocalFileSystemScope,
    current_directory: Option<Vec<u8>>,
}

/// A resolver as plain values.
pub struct LocalPathResolverView {
    pub scope: LocalFileSystemScope,
    pub current_directory: Option<Seq<u8>>,
}

impl View for LocalPathResolver {
    type V = LocalPathResolverView;

    closed spec fn view(&self) -> LocalPathResolverView {
        LocalPathResolverView {
            scope: self.scope,
            current_directory: match self.current_directory {
                Some(c) => Some(c@),
                None => None,
            },
        }
    }
}

/// A resolver's invariant: a current directory it holds is a valid base.
pub open spec fn resolver_wf(resolver: LocalPathResolverView) -> bool {
    match resolver.current_directory {
        Some(c) => is_valid_current_directory(c),
        None => true,
    }
}

/// The reason a current directory is rejected as a resolution base.
pub open spec fn spec_bad_current_directory_reason() -> Seq<char> {
    "the current directory must be a normalized absolute path"@
}

fn has_dot_segment_exec(path: &[u8]) -> (res: bool)
    ensures
        res == has_dot_segment(path@),
{
    let (_, dots) = scan_path(path);
    dots
}

fn is_directory_qualified_exec(path: &[u8]) -> (res: bool)
    ensures
        res == is_directory_qualified(path@),
{
    let n = path.len();
    if n == 0 {
        return true;
    }
    if path[n - 1] == 0x2f {
        return true;
    }
    if n == 1 && path[0] == 0x2e {
        assert(path@ =~= seq![dot()]);
        return true;
    }
    if n == 2 && path[0] == 0x2e && path[1] == 0x2e {
        assert(path@ =~= seq![dot(), dot()]);
        return true;
    }
    if n >= 2 && path[n - 2] == 0x2f && path[n - 1] == 0x2e {
        assert(path@.subrange(n - 2, n as int) =~= seq![slash(), dot()]);
        return true;
    }
    if n >= 3 && path[n - 3] == 0x2f && path[n - 2] == 0x2e && path[n - 1] == 0x2e {
        assert(path@.subrange(n - 3, n as int) =~= seq![slash(), dot(), dot()]);
        return true;
    }
    assert(path@ != seq![dot()]) by {
        if path@ == seq![dot()] {
            assert(path@[0] == dot());
        }
    }
    assert(path@ != seq![dot(), dot()]) by {
        if path@ == seq![dot(), dot()] {
            assert(path@[0] == dot() && path@[1] == dot());
        }
    }
    assert(!(n >= 2 && path@.subrange(n - 2, n as int) == seq![slash(), dot()])) by {
        if n >= 2 && path@.subrange(n - 2, n as int) == seq![slash(), dot()] {
            assert(path@.subrange(n - 2, n as int)[0] == path@[n - 2]);
            assert(path@.subrange(n - 2, n as int)[1] == path@[n - 1]);
        }
    }
    assert(!(n >= 3 && path@.subrange(n - 3, n as int) == seq![slash(), dot(), dot()])) by {
        if n >= 3 && path@.subrange(n - 3, n as int) == seq![slash(), dot(), dot()] {
            assert(path@.subrange(n - 3, n as int)[0] == path@[n - 3]);
            assert(path@.subrange(n - 3, n as int)[1] == path@[n - 2]);
            assert(path@.subrange(n - 3, n as int)[2] == path@[n - 1]);
        }
    }
    false
}

fn join_components(base: &[u8], parts: &Vec<Vec<u8>>) -> (out: Vec<u8>)
    ensures
        out@ == join_all(base@, views(parts@)),
{
    let mut out = copy_bytes(base);
    let mut i: usize = 0;
    assert(views(parts@).take(0) =~= Seq::<Seq<u8>>::empty());
    while i < parts.len()
        invariant
            i <= parts@.len(),
            out@ == join_all(base@, views(parts@).take(i as int)),
        decreases parts@.len() - i,
    {
        assert(views(parts@).take(i + 1).drop_last() =~= views(parts@).take(i as int));
        assert(views(parts@).take(i + 1).last() == parts@[i as int]@);
        out = path_push_exec(out.as_slice(), parts[i].as_slice());
        i = i + 1;
    }
    assert(views(parts@).take(i as int) =~= views(parts@));
    out
}

/// Dropping empty segments does not change a resolution.
pub proof fn lemma_normalize_drop_empty(base: Seq<Seq<u8>>, segments: Seq<Seq<u8>>)
    ensures
        normalize_segments(base, segments) == normalize_segments(base, drop_empty(segments)),
    decreases segments.len(),
{
    if segments.len() > 0 {
        lemma_normalize_drop_empty(base, segments.drop_last());
        let d = drop_empty(segments.drop_last());
        if segments.last().len() > 0 {
            assert(d.push(segments.last()).drop_last() =~= d);
        }
    }
}

/// Once a prefix of the segments fails, the whole resolution fails.
pub proof fn lemma_normalize_failure_extends(base: Seq<Seq<u8>>, segments: Seq<Seq<u8>>, i: int)
    requires
        0 <= i <= segments.len(),
        normalize_segments(base, segments.take(i)) is None,
    ensures
        normalize_segments(base, segments) is None,
    decreases segments.len() - i,
{
    if i == segments.len() {
        assert(segments.take(i) =~= segments);
    } else {
        assert(segments.drop_last().take(i) =~= segments.take(i));
        lemma_normalize_failure_extends(base, segments.drop_last(), i);
    }
}

/// Resolving from normal components through slash-free segments keeps
/// every stacked item a normal component.
pub proof fn lemma_normalize_keeps_normal(base: Seq<Seq<u8>>, segments: Seq<Seq<u8>>)
    requires
        forall|i: int| 0 <= i < base.len() ==> is_normal_component(#[trigger] base[i]),
        forall|i: int| 0 <= i < segments.len() ==> !(#[trigger] segments[i]).contains(slash()),
    ensures
        normalize_segments(base, segments) matches Some(stack) ==> forall|i: int|
            0 <= i < stack.len() ==> is_normal_component(#[trigger] stack[i]),
    decreases segments.len(),
{
    if segments.len() > 0 {
        assert forall|i: int| 0 <= i < segments.drop_last().len() implies !(
        #[trigger] segments.drop_last()[i]).contains(slash()) by {
            assert(segments.drop_last()[i] == segments[i]);
        }
        lemma_normalize_keeps_normal(base, segments.drop_last());
        assert(!segments.last().contains(slash())) by {
            assert(segments[segments.len() - 1] == segments.last());
        }
        match normalize_segments(base, segments.drop_last()) {
            Some(stack) => {
                let s = segments.last();
                if !(s.len() == 0 || s == seq![dot()]) && s != seq![dot(), dot()] {
                    assert(is_normal_component(s));
                    assert forall|i: int| 0 <= i < stack.push(s).len() implies is_normal_component(
                        #[trigger] stack.push(s)[i],
                    ) by {
                        if i < stack.len() {
                            assert(stack.push(s)[i] == stack[i]);
                        }
                    }
                }
            },
            None => {},
        }
    }
}

/// Resolving normal components only pushes them.
pub proof fn lemma_normalize_normal(base: Seq<Seq<u8>>, segments: Seq<Seq<u8>>)
    requires
        forall|i: int| 0 <= i < segments.len() ==> is_normal_component(#[trigger] segments[i]),
    ensures
        normalize_segments(base, segments) == Some(base + segments),
    decreases segments.len(),
{
    if segments.len() > 0 {
        assert forall|i: int| 0 <= i < segments.drop_last().len() implies is_normal_component(
            #[trigger] segments.drop_last()[i],
        ) by {
            assert(segments.drop_last()[i] == segments[i]);
        }
        lemma_normalize_normal(base, segments.drop_last());
        let s = segments.last();
        assert(is_normal_component(segments[segments.len() - 1]));
        assert(s != seq![dot()] && s != seq![dot(), dot()]);
        assert((base + segments.drop_last()).push(s) =~= base + segments);
    } else {
        assert(base + segments =~= base);
    }
}

/// The components of a valid current directory are normal.
pub proof fn lemma_valid_directory_components(path: Seq<u8>)
    requires
        !has_dot_segment(path),
    ensures
        forall|i: int| 0 <= i < components(path).len() ==> is_normal_component(#[trigger] components(path)[i]),
{
    lemma_components_are_segments(path);
}

impl LocalPathResolver {
    /// Creates a resolver for absolute host paths only; it holds no current
    /// directory.
    pub fn absolute_host() -> (resolver: Self)
        ensures
            resolver@ == (LocalPathResolverView { scope: LocalFileSystemScope::Host, current_directory: None }),
    {
        LocalPathResolver { scope: LocalFileSystemScope::Host, current_directory: None }
    }

    /// Creates a resolver from a current-directory snapshot, which must be a
    /// normalized absolute path.
    pub fn new(scope: LocalFileSystemScope, current_directory: &[u8]) -> (res: LocalResult<Self>)
        ensures
            is_valid_current_directory(current_directory@) ==> (res matches Ok(r) && r@ == (
            LocalPathResolverView { scope, current_directory: Some(current_directory@) })),
            !is_valid_current_directory(current_directory@) ==> (res matches Err(e) && e@ == (
            LocalFileErrorView {
                path: Some(current_directory@),
                ..spec_resolve_error(spec_bad_current_directory_reason())
            })),
    {
        if is_absolute_exec(current_directory) && !has_dot_segment_exec(current_directory) {
            Ok(LocalPathResolver { scope, current_directory: Some(copy_bytes(current_directory)) })
        } else {
            Err(
                LocalFileError::new(LocalFileErrorKind::InvalidPath, LocalFileOperation::BindPath)
                    .with_reason("the current directory must be a normalized absolute path")
                    .with_path(copy_bytes(current_directory)),
            )
        }
    }

    /// Returns the namespace of the resolver.
    pub fn scope(&self) -> (scope: LocalFileSystemScope)
        ensures
            scope == self@.scope,
    {
        self.scope
    }

    /// Returns the current-directory snapshot, when the resolver holds one.
    pub fn current_directory(&self) -> (current: Option<&[u8]>)
        ensures
            match self@.current_directory {
                Some(c) => (current matches Some(r) && r@ == c),
                None => current is None,
            },
    {
        match &self.current_directory {
            Some(c) => Some(c.as_slice()),
            None => None,
        }
    }

    /// Resolves `path` lexically; it fails, as an invalid path, when a
    /// relative path has no current directory or when `..` would climb above
    /// the root.
    pub fn resolve(&self, path: &[u8]) -> (res: LocalResult<LocalNamespacePath>)
        requires
            resolver_wf(self@),
        ensures
            match spec_resolve(self@.scope, self@.current_directory, path@) {
                Ok(v) => (res matches Ok(r) && r@ == v),
                Err(reason) => (res matches Err(e) && e@ == spec_resolve_error(reason)),
            },
    {
        let absolute = is_absolute_exec(path);
        let mut stack: Vec<Vec<u8>> = if absolute {
            Vec::new()
        } else {
            match &self.current_directory {
                Some(c) => {
                    let (parts, _) = scan_path(c.as_slice());
                    parts
                },
                None => {
                    return Err(
                        LocalFileError::new(LocalFileErrorKind::InvalidPath, LocalFileOperation::BindPath)
                            .with_reason("a relative path needs a current directory"),
                    );
                },
            }
        };
        let ghost base = views(stack@);
        assert(absolute ==> base =~= Seq::<Seq<u8>>::empty());
        let (parts, _) = scan_path(path);
        let ghost segs = views(parts@);
        proof {
            lemma_normalize_drop_empty(base, raw_segments(path@));
        }
        let mut i: usize = 0;
        assert(segs.take(0) =~= Seq::<Seq<u8>>::empty());
        while i < parts.len()
            invariant
                i <= parts@.len(),
                segs == views(parts@),
                segs == components(path@),
                forall|k: int| 0 <= k < parts.len() ==> (#[trigger] parts@[k])@.len() > 0,
                normalize_segments(base, raw_segments(path@)) == normalize_segments(base, segs),
                base == (if is_absolute(path@) {
                    Seq::<Seq<u8>>::empty()
                } else {
                    components(self@.current_directory->Some_0)
                }),
                !is_absolute(path@) ==> self@.current_directory is Some,
                normalize_segments(base, segs.take(i as int)) == Some(views(stack@)),
            decreases parts@.len() - i,
        {
            let part = &parts[i];
            assert(segs.take(i + 1).drop_last() =~= segs.take(i as int));
            assert(segs.take(i + 1).last() == part@);
            if part.len() == 1 && part[0] == 0x2e {
                assert(part@ =~= seq![dot()]);
            } else if part.len() == 2 && part[0] == 0x2e && part[1] == 0x2e {
                assert(part@ =~= seq![dot(), dot()]);
                assert(part@ != seq![dot()]) by {
                    assert(seq![dot()].len() == 1);
                }
                if stack.len() == 0 {
                    proof {
                        lemma_normalize_failure_extends(base, segs, i + 1);
                    }
                    return Err(
                        LocalFileError::new(LocalFileErrorKind::InvalidPath, LocalFileOperation::BindPath)
                            .with_reason("the path climbs above the namespace root"),
                    );
                }
                let ghost before = views(stack@);
                stack.pop();
                assert(views(stack@) =~= before.drop_last());
            } else {
                assert(part@ != seq![dot()]) by {
                    if part@ == seq![dot()] {
                        assert(part@.len() == 1 && part@[0] == dot());
                    }
                }
                assert(part@ != seq![dot(), dot()]) by {
                    if part@ == seq![dot(), dot()] {
                        assert(part@.len() == 2 && part@[0] == dot() && part@[1] == dot());
                    }
                }
                let ghost before = views(stack@);
                stack.push(copy_bytes(part.as_slice()));
                assert(views(stack@) =~= before.push(part@));
            }
            i = i + 1;
        }
        assert(segs.take(i as int) =~= segs);
        let namespace_absolute = join_components(&[0x2fu8], &stack);
        assert([0x2fu8]@ =~= seq![slash()]);
        let authority_relative = match self.scope {
            LocalFileSystemScope::Host => copy_bytes(namespace_absolute.as_slice()),
            LocalFileSystemScope::Rooted => {
                let empty: [u8; 0] = [];
                assert(empty@ =~= Seq::<u8>::empty());
                join_components(&empty, &stack)
            },
        };
        Ok(
            LocalNamespacePath {
                namespace_absolute,
                authority_relative,
                directory_required: is_directory_qualified_exec(path),
            },
        )
    }
}

/// Resolution never leaves the namespace: a resolved path is absolute and
/// free of `.` and `..` segments, its authority path has the same
/// components, and beneath an opened root the authority path is relative.
pub proof fn lemma_resolution_stays_normal(
    scope: LocalFileSystemScope,
    current_directory: Option<Seq<u8>>,
    path: Seq<u8>,
)
    requires
        current_directory matches Some(c) ==> is_valid_current_directory(c),
        spec_resolve(scope, current_directory, path) is Ok,
    ensures
        spec_resolve(scope, current_directory, path) matches Ok(v) && is_absolute(v.namespace_absolute)
            && !has_dot_segment(v.namespace_absolute) && !has_dot_segment(v.authority_relative)
            && components(v.authority_relative) == components(v.namespace_absolute) && (scope
            == LocalFileSystemScope::Rooted ==> !is_absolute(v.authority_relative)),
{
    let base: Seq<Seq<u8>> = if is_absolute(path) {
        Seq::empty()
    } else {
        components(current_directory->Some_0)
    };
    if !is_absolute(path) {
        lemma_valid_directory_components(current_directory->Some_0);
    }
    lemma_raw_segments_shape(path);
    lemma_normalize_keeps_normal(base, raw_segments(path));
    let stack = normalize_segments(base, raw_segments(path))->Some_0;
    lemma_join_normal(seq![slash()], stack);
    lemma_join_normal(Seq::<u8>::empty(), stack);
    lemma_root_shape();
    assert(components(seq![slash()]) + stack =~= stack);
    assert(components(Seq::<u8>::empty()) + stack =~= stack);
    if stack.len() == 0 {
        assert(is_absolute(seq![slash()]));
    }
    if stack.len() > 0 {
        assert(!is_absolute(Seq::<u8>::empty()));
    }
}

/// Resolution is idempotent: resolving a resolved path again, from any
/// current directory, gives back the same namespace-absolute path and the
/// same authority path.
pub proof fn lemma_resolution_idempotent(
    scope: LocalFileSystemScope,
    current_directory: Option<Seq<u8>>,
    other_directory: Option<Seq<u8>>,
    path: Seq<u8>,
)
    requires
        current_directory matches Some(c) ==> is_valid_current_directory(c),
        spec_resolve(scope, current_directory, path) is Ok,
    ensures
        spec_resolve(scope, current_directory, path) matches Ok(v) && spec_resolve(
            scope,
            other_directory,
            v.namespace_absolute,
        ) matches Ok(w) && w.namespace_absolute == v.namespace_absolute && w.authority_relative
            == v.authority_relative,
{
    lemma_resolution_stays_normal(scope, current_directory, path);
    let base: Seq<Seq<u8>> = if is_absolute(path) {
        Seq::empty()
    } else {
        components(current_directory->Some_0)
    };
    if !is_absolute(path) {
        lemma_valid_directory_components(current_directory->Some_0);
    }
    lemma_raw_segments_shape(path);
    lemma_normalize_keeps_normal(base, raw_segments(path));
    let stack = normalize_segments(base, raw_segments(path))->Some_0;
    let v = spec_resolve(scope, current_directory, path)->Ok_0;
    lemma_join_normal(seq![slash()], stack);
    lemma_root_shape();
    assert(components(seq![slash()]) + stack =~= stack);
    let ns = v.namespace_absolute;
    lemma_normalize_drop_empty(Seq::empty(), raw_segments(ns));
    lemma_normalize_normal(Seq::empty(), stack);
    assert(Seq::<Seq<u8>>::empty() + stack =~= stack);
}

/// Absolute paths do not depend on the current directory.
pub proof fn lemma_absolute_ignores_current_directory(
    scope: LocalFileSystemScope,
    first: Option<Seq<u8>>,
    second: Option<Seq<u8>>,
    path: Seq<u8>,
)
    requires
        is_absolute(path),
    ensures
        spec_resolve(scope, first, path) == spec_resolve(scope, second, path),
{
}

} // verus!
