//! Validated relative paths for rooted filesystem operations.
use vstd::prelude::*;

use crate::display_text::{concat_text, display_path, spec_display_path};
use crate::local_file_error::{LocalIoError, LocalIoErrorKind, LocalIoErrorView};
use crate::path_model::{
    components, contains_byte, copy_bytes, has_dot_segment, is_absolute, is_absolute_exec, join_all,
    lemma_components_join, path_push, path_push_exec, scan_path, slash, views,
};

verus! {

broadcast use vstd::seq::group_seq_axioms;

/// Whether a path is a valid rooted relative path: non-empty, without NUL,
/// not absolute, and without `.` or `..` segments.
pub open spec fn is_valid_relative_path(path: Seq<u8>) -> bool {
    path.len() > 0 && !path.contains(0u8) && !is_absolute(path) && !has_dot_segment(path)
}

/// The message of the error reported for an invalid rooted relative path.
pub open spec fn spec_relative_path_message(path: Seq<u8>) -> Seq<char> {
    "rooted path must be non-empty and contain only normal relative components without NUL: "@
        + spec_display_path(path)
}

/// The error reported for an invalid rooted relative path.
pub open spec fn spec_relative_path_error(path: Seq<u8>) -> LocalIoErrorView {
    LocalIoErrorView {
        kind: LocalIoErrorKind::InvalidInput,
        message: spec_relative_path_message(path),
    }
}

/// An owned, validated path accepted by rooted operations: non-empty and made
/// only of normal relative components.
#[derive(Debug)]
pub struct LocalRelativePath {
    path: Vec<u8>,
}

impl View for LocalRelativePath {
    type V = Seq<u8>;

    closed spec fn view(&self) -> Seq<u8> {
        self.path@
    }
}

impl LocalRelativePath {
    #[verifier::type_invariant]
    spec fn well_formed(self) -> bool {
        is_valid_relative_path(self.path@)
    }

    /// Validates and owns a relative rooted path.
    ///
    /// Fails with `InvalidInput` for an empty or absolute path, a `.` or `..`
    /// component, or an embedded NUL.
    pub fn new(path: &[u8]) -> (res: Result<Self, LocalIoError>)
        ensures
            is_valid_relative_path(path@) ==> (res matches Ok(p) && p@ == path@),
            !is_valid_relative_path(path@) ==> (res matches Err(e) && e@
                == spec_relative_path_error(path@)),
    {
        let (_components, dot) = scan_path(path);
        if path.len() == 0 || contains_byte(path, 0) || is_absolute_exec(path) || dot {
            return Err(invalid_relative_path_error(path));
        }
        Ok(LocalRelativePath { path: copy_bytes(path) })
    }

    /// Returns the validated relative path.
    pub fn as_path(&self) -> (path: &[u8])
        ensures
            path@ == self@,
            is_valid_relative_path(path@),
    {
        proof {
            use_type_invariant(self);
        }
        self.path.as_slice()
    }

    /// Appends a validated relative descendant.
    ///
    /// Fails with `InvalidInput` exactly when `child` is not itself a valid
    /// rooted relative path; the joined path is then always valid.
    pub fn join(&self, child: &[u8]) -> (res: Result<Self, LocalIoError>)
        ensures
            is_valid_relative_path(child@) ==> (res matches Ok(p) && p@ == path_push(self@, child@)),
            !is_valid_relative_path(child@) ==> (res matches Err(e) && e@
                == spec_relative_path_error(child@)),
    {
        proof {
            use_type_invariant(self);
        }
        let child = match LocalRelativePath::new(child) {
            Ok(child) => child,
            Err(error) => {
                return Err(error);
            },
        };
        let joined = path_push_exec(self.path.as_slice(), child.path.as_slice());
        proof {
            use_type_invariant(&child);
            lemma_join_stays_valid(self.path@, child.path@);
        }
        LocalRelativePath::new(joined.as_slice())
    }

    /// Appends exactly one validated normal path component.
    ///
    /// Fails with `InvalidInput` unless `child` is a valid rooted relative
    /// path with exactly one component.
    pub fn join_component(&self, child: &[u8]) -> (res: Result<Self, LocalIoError>)
        ensures
            is_valid_relative_path(child@) && components(child@).len() == 1 ==> (res matches Ok(p)
                && p@ == path_push(self@, child@)),
            !(is_valid_relative_path(child@) && components(child@).len() == 1) ==> (res matches Err(
                e,
            ) && e@ == spec_relative_path_error(child@)),
    {
        let (parts, dot) = scan_path(child);
        if is_absolute_exec(child) || parts.len() != 1 || dot {
            return Err(invalid_relative_path_error(child));
        }
        self.join(child)
    }
}

/// Joining two valid rooted relative paths yields a valid one.
pub proof fn lemma_join_stays_valid(base: Seq<u8>, child: Seq<u8>)
    requires
        is_valid_relative_path(base),
        is_valid_relative_path(child),
    ensures
        is_valid_relative_path(path_push(base, child)),
{
    lemma_components_join(base, child);
    let joined = path_push(base, child);
    assert(!joined.contains(0u8)) by {
        if joined.contains(0u8) {
            let k = choose|k: int| 0 <= k < joined.len() && joined[k] == 0u8;
            if base.last() == slash() {
                assert(joined == base + child);
                if k < base.len() {
                    assert(base[k] == 0u8);
                } else {
                    assert(child[k - base.len()] == 0u8);
                }
            } else {
                assert(joined == base + seq![slash()] + child);
                if k < base.len() {
                    assert(base[k] == 0u8);
                } else if k > base.len() {
                    assert(child[k - base.len() - 1] == 0u8);
                }
            }
        }
    }
    assert(joined.len() >= child.len());
}

/// The parent of a rooted relative path: its components but the last,
/// joined; empty for a path of one component.
pub open spec fn spec_relative_parent(path: Seq<u8>) -> Seq<u8> {
    if components(path).len() == 0 {
        Seq::empty()
    } else {
        join_all(Seq::empty(), components(path).drop_last())
    }
}

/// The final component of a rooted relative path.
pub open spec fn spec_final_name(path: Seq<u8>) -> Seq<u8> {
    if components(path).len() == 0 {
        Seq::empty()
    } else {
        components(path).last()
    }
}

/// Splits a rooted relative path into its parent and its final component.
pub fn split_final_component(path: &[u8]) -> (res: (Vec<u8>, Vec<u8>))
    ensures
        res.0@ == spec_relative_parent(path@),
        res.1@ == spec_final_name(path@),
{
    let (parts, _) = scan_path(path);
    let ghost comps = views(parts@);
    if parts.len() == 0 {
        return (Vec::new(), Vec::new());
    }
    let last = parts.len() - 1;
    let mut parent: Vec<u8> = Vec::new();
    let mut i: usize = 0;
    assert(comps.take(0) =~= Seq::<Seq<u8>>::empty());
    while i < last
        invariant
            i <= last,
            last == parts@.len() - 1,
            comps == views(parts@),
            parent@ == join_all(Seq::empty(), comps.take(i as int)),
        decreases last - i,
    {
        assert(comps.take(i + 1).drop_last() =~= comps.take(i as int));
        assert(comps.take(i + 1).last() == parts@[i as int]@);
        parent = path_push_exec(parent.as_slice(), parts[i].as_slice());
        i = i + 1;
    }
    assert(comps.take(last as int) =~= comps.drop_last());
    (parent, copy_bytes(parts[last].as_slice()))
}

/// Creates the validation error for a rooted relative path.
fn invalid_relative_path_error(path: &[u8]) -> (error: LocalIoError)
    ensures
        error@ == spec_relative_path_error(path@),
{
    let message = concat_text(
        String::from_str(
            "rooted path must be non-empty and contain only normal relative components without NUL: ",
        ),
        display_path(path).as_str(),
    );
    LocalIoError { kind: LocalIoErrorKind::InvalidInput, message }
}

} // verus!
