//! Lexical path composition, binding, and canonical component conversion.
use vstd::prelude::*;
use vstd::string::StringSliceAdditionalSpecFns;

use crate::local_file_error::{
    LocalFileError, LocalFileErrorKind, LocalFileErrorView, LocalFileOperation, LocalIoError,
    LocalIoErrorView, LocalResult, spec_bare_error, spec_io_error,
};
use crate::local_path_codec::{
    LocalPathCodec, LocalPathCodecError, canonical_text, spec_text_to_native,
    lemma_native_text_roundtrip,
};
use crate::path_model::{
    any_dot_segment, components, contains_byte, copy_bytes, drop_empty, has_dot_segment,
    is_absolute, is_absolute_exec, is_dot_segment, is_dot_segment_exec, is_normal_component,
    is_seq_prefix, join_all, lemma_components_join, lemma_components_push_normal,
    lemma_raw_segments_shape, path_push, path_push_exec, raw_segments, scan_path, slash, views,
};

verus! {

broadcast use vstd::seq::group_seq_axioms;

/// Stateless lexical path helpers.
pub struct LocalPaths {
    _private: (),
}

/// The error reported for a path that cannot be composed: invalid path,
/// raised while composing, without further context.
pub open spec fn spec_compose_error() -> LocalFileErrorView {
    spec_bare_error(LocalFileErrorKind::InvalidPath, LocalFileOperation::ComposePath)
}

/// The error reported when a component cannot be converted by the codec.
pub open spec fn spec_codec_compose_error(error: LocalPathCodecError) -> LocalFileErrorView {
    LocalFileErrorView { path_codec_error: Some(error), ..spec_compose_error() }
}

/// The characters of a list of strings.
pub open spec fn string_views(list: Seq<String>) -> Seq<Seq<char>> {
    Seq::new(list.len(), |i: int| list[i]@)
}

/// The characters of a list of string slices.
pub open spec fn str_views(list: Seq<&str>) -> Seq<Seq<char>> {
    Seq::new(list.len(), |i: int| list[i]@)
}

/// A list of strings as a result of character sequences.
pub open spec fn texts_result(res: LocalResult<Vec<String>>) -> Result<
    Seq<Seq<char>>,
    LocalFileErrorView,
> {
    match res {
        Ok(list) => Ok(string_views(list@)),
        Err(error) => Err(error@),
    }
}

/// A path result as a result of byte sequences.
pub open spec fn path_result(res: LocalResult<Vec<u8>>) -> Result<Seq<u8>, LocalFileErrorView> {
    match res {
        Ok(path) => Ok(path@),
        Err(error) => Err(error@),
    }
}

/// Whether no component of a list contains NUL.
pub open spec fn all_nul_free(natives: Seq<Seq<u8>>) -> bool {
    forall|i: int| 0 <= i < natives.len() ==> !(#[trigger] natives[i]).contains(0u8)
}

/// Canonical texts of a list of components.
pub open spec fn canonical_texts(natives: Seq<Seq<u8>>) -> Seq<Seq<char>> {
    Seq::new(natives.len(), |i: int| canonical_text(natives[i]))
}

/// Canonical components of a relative path without dot segments.
pub open spec fn spec_to_relative_components(path: Seq<u8>) -> Result<
    Seq<Seq<char>>,
    LocalFileErrorView,
> {
    if is_absolute(path) || has_dot_segment(path) {
        Err(spec_compose_error())
    } else if !all_nul_free(components(path)) {
        Err(spec_codec_compose_error(LocalPathCodecError::NativeNul))
    } else if components(path).len() == 0 {
        Err(spec_compose_error())
    } else {
        Ok(canonical_texts(components(path)))
    }
}

/// Canonical components of an absolute path without dot segments; the empty
/// text stands for the root.
pub open spec fn spec_to_absolute_components(path: Seq<u8>) -> Result<
    Seq<Seq<char>>,
    LocalFileErrorView,
> {
    if !is_absolute(path) || has_dot_segment(path) {
        Err(spec_compose_error())
    } else if !all_nul_free(components(path)) {
        Err(spec_codec_compose_error(LocalPathCodecError::NativeNul))
    } else {
        Ok(seq![Seq::<char>::empty()] + canonical_texts(components(path)))
    }
}

/// The normal native component that one canonical text stands for.
pub open spec fn spec_decode_normal(text: Seq<char>) -> Result<Seq<u8>, LocalFileErrorView> {
    match spec_text_to_native(text) {
        Err(error) => Err(spec_codec_compose_error(error)),
        Ok(native) => if is_normal_component(native) {
            Ok(native)
        } else {
            Err(spec_compose_error())
        },
    }
}

/// Decodes canonical component texts in order, stopping at the first one
/// that is not a normal component.
pub open spec fn spec_decode_all(texts: Seq<Seq<char>>) -> Result<Seq<Seq<u8>>, LocalFileErrorView>
    decreases texts.len(),
{
    if texts.len() == 0 {
        Ok(seq![])
    } else {
        match spec_decode_all(texts.drop_last()) {
            Err(error) => Err(error),
            Ok(natives) => match spec_decode_normal(texts.last()) {
                Err(error) => Err(error),
                Ok(native) => Ok(natives.push(native)),
            },
        }
    }
}

/// The relative path built from canonical component texts.
pub open spec fn spec_from_relative_components(texts: Seq<Seq<char>>) -> Result<
    Seq<u8>,
    LocalFileErrorView,
> {
    match spec_decode_all(texts) {
        Err(error) => Err(error),
        Ok(natives) => if natives.len() == 0 {
            Err(spec_compose_error())
        } else {
            Ok(join_all(Seq::<u8>::empty(), natives))
        },
    }
}

/// The absolute path built from canonical component texts whose first text
/// is the empty root marker.
pub open spec fn spec_from_absolute_components(texts: Seq<Seq<char>>) -> Result<
    Seq<u8>,
    LocalFileErrorView,
> {
    if texts.len() == 0 || texts[0].len() != 0 {
        Err(spec_compose_error())
    } else {
        match spec_decode_all(texts.skip(1)) {
            Err(error) => Err(error),
            Ok(natives) => Ok(join_all(seq![slash()], natives)),
        }
    }
}

/// Whether `path` lies lexically within `ancestor`; both must have the same
/// absoluteness and no dot segments.
pub open spec fn spec_is_lexically_within(path: Seq<u8>, ancestor: Seq<u8>) -> Result<
    bool,
    LocalFileErrorView,
> {
    if is_absolute(path) != is_absolute(ancestor) || has_dot_segment(path) || has_dot_segment(
        ancestor,
    ) {
        Err(LocalFileErrorView { path: Some(path), target: Some(ancestor), ..spec_compose_error() })
    } else {
        Ok(is_seq_prefix(components(ancestor), components(path)))
    }
}

/// `base` joined with a non-empty relative descendant without dot segments.
pub open spec fn spec_compose_descendant(base: Seq<u8>, descendant: Seq<u8>) -> Result<
    Seq<u8>,
    LocalFileErrorView,
> {
    if descendant.len() == 0 || is_absolute(descendant) || has_dot_segment(descendant) {
        Err(LocalFileErrorView { path: Some(descendant), ..spec_compose_error() })
    } else {
        Ok(path_push(base, descendant))
    }
}

/// The error reported when the working directory needed to bind a relative
/// path cannot be read.
pub open spec fn spec_bind_error(path: Option<Seq<u8>>, source: LocalIoErrorView) -> LocalFileErrorView {
    spec_io_error(LocalFileOperation::BindPath, path, None, source)
}

fn invalid_path_error() -> (error: LocalFileError)
    ensures
        error@ == spec_compose_error(),
{
    LocalFileError::new(LocalFileErrorKind::InvalidPath, LocalFileOperation::ComposePath)
}

fn codec_path_error(source: LocalPathCodecError) -> (error: LocalFileError)
    ensures
        error@ == spec_codec_compose_error(source),
{
    LocalFileError::from_path_codec(LocalFileOperation::ComposePath, None, source)
}

/// The root marker list when `with_root`, else the empty list.
pub open spec fn root_marker(with_root: bool) -> Seq<Seq<char>> {
    if with_root {
        seq![Seq::<char>::empty()]
    } else {
        seq![]
    }
}

/// Encodes each component to canonical text, in order, after the empty root
/// marker when `with_root`.
fn encode_components(natives: &Vec<Vec<u8>>, with_root: bool) -> (res: Result<
    Vec<String>,
    LocalFileError,
>)
    ensures
        match res {
            Ok(texts) => all_nul_free(views(natives@)) && string_views(texts@) == root_marker(
                with_root,
            ) + canonical_texts(views(natives@)),
            Err(error) => !all_nul_free(views(natives@)) && error@ == spec_codec_compose_error(
                LocalPathCodecError::NativeNul,
            ),
        },
{
    let mut texts: Vec<String> = Vec::new();
    if with_root {
        texts.push(String::new());
    }
    let ghost offset: int = if with_root {
        1
    } else {
        0
    };
    let mut i: usize = 0;
    while i < natives.len()
        invariant
            i <= natives@.len(),
            offset == (if with_root {
                1int
            } else {
                0int
            }),
            texts@.len() == offset + i,
            with_root ==> texts@[0]@ == Seq::<char>::empty(),
            forall|k: int| 0 <= k < i ==> !(#[trigger] natives@[k])@.contains(0u8),
            forall|k: int|
                0 <= k < i ==> (#[trigger] texts@[offset + k])@ == canonical_text(natives@[k]@),
        decreases natives@.len() - i,
    {
        match LocalPathCodec::decode(natives[i].as_slice()) {
            Ok(text) => {
                texts.push(text);
            },
            Err(error) => {
                assert(views(natives@)[i as int] == natives@[i as int]@);
                return Err(codec_path_error(error));
            },
        }
        i = i + 1;
    }
    assert forall|j: int| 0 <= j < texts@.len() implies #[trigger] string_views(texts@)[j] == (
    root_marker(with_root) + canonical_texts(views(natives@)))[j] by {
        if j >= offset {
            assert(texts@[offset + (j - offset)]@ == canonical_text(natives@[j - offset]@));
            assert(views(natives@)[j - offset] == natives@[j - offset]@);
        }
    }
    assert(string_views(texts@) =~= root_marker(with_root) + canonical_texts(views(natives@)));
    assert forall|k: int| 0 <= k < views(natives@).len() implies !(
    #[trigger] views(natives@)[k]).contains(0u8) by {
        assert(views(natives@)[k] == natives@[k]@);
    }
    Ok(texts)
}

/// Decodes one canonical text that must stand for a normal component.
fn decode_normal_component(text: &str) -> (res: LocalResult<Vec<u8>>)
    ensures
        path_result(res) == spec_decode_normal(text@),
{
    match LocalPathCodec::encode(text) {
        Err(error) => Err(codec_path_error(error)),
        Ok(native) => {
            let has_slash = contains_byte(native.as_slice(), 0x2f);
            let dot = is_dot_segment_exec(native.as_slice());
            if native.len() == 0 || has_slash || dot {
                Err(invalid_path_error())
            } else {
                Ok(native)
            }
        },
    }
}

/// Decodes component texts and joins them onto `base`.
fn join_decoded(base: Vec<u8>, texts: &[&str], start: usize) -> (res: LocalResult<Vec<u8>>)
    requires
        start <= texts@.len(),
    ensures
        path_result(res) == match spec_decode_all(str_views(texts@).skip(start as int)) {
            Err(error) => Err::<Seq<u8>, LocalFileErrorView>(error),
            Ok(natives) => Ok(join_all(base@, natives)),
        },
{
    let ghost all = str_views(texts@).skip(start as int);
    let mut path = base;
    let ghost natives = Seq::<Seq<u8>>::empty();
    let mut i: usize = start;
    assert(all.take(0) =~= Seq::<Seq<char>>::empty());
    while i < texts.len()
        invariant
            start <= i <= texts@.len(),
            all == str_views(texts@).skip(start as int),
            spec_decode_all(all.take(i - start)) == Ok::<Seq<Seq<u8>>, LocalFileErrorView>(natives),
            path@ == join_all(base@, natives),
        decreases texts@.len() - i,
    {
        let ghost prefix = all.take(i - start);
        let ghost next = all.take(i - start + 1);
        assert(next.drop_last() =~= prefix);
        assert(next.last() == texts@[i as int]@);
        match decode_normal_component(texts[i]) {
            Err(error) => {
                assert(spec_decode_all(next) == Err::<Seq<Seq<u8>>, LocalFileErrorView>(error@));
                proof {
                    lemma_decode_all_error_prefix(all, i - start + 1);
                }
                return Err(error);
            },
            Ok(native) => {
                let joined = path_push_exec(path.as_slice(), native.as_slice());
                proof {
                    assert(natives.push(native@).drop_last() =~= natives);
                    natives = natives.push(native@);
                }
                path = joined;
            },
        }
        i = i + 1;
    }
    assert(all.take(i - start) =~= all);
    Ok(path)
}

/// An error in decoding a prefix is the error of the whole list.
proof fn lemma_decode_all_error_prefix(texts: Seq<Seq<char>>, n: int)
    requires
        0 <= n <= texts.len(),
        spec_decode_all(texts.take(n)) is Err,
    ensures
        spec_decode_all(texts) == spec_decode_all(texts.take(n)),
    decreases texts.len() - n,
{
    if n < texts.len() {
        let next = texts.take(n + 1);
        assert(next.drop_last() =~= texts.take(n));
        lemma_decode_all_error_prefix(texts, n + 1);
    } else {
        assert(texts.take(n) =~= texts);
    }
}

impl LocalPaths {
    /// Builds an absolute path from canonical components; the first must be
    /// the empty root marker and every other one a normal component.
    pub fn from_canonical_absolute_components(components: &[&str]) -> (res: LocalResult<Vec<u8>>)
        ensures
            path_result(res) == spec_from_absolute_components(str_views(components@)),
    {
        if components.len() == 0 || !components[0].is_empty() {
            return Err(invalid_path_error());
        }
        let mut root: Vec<u8> = Vec::new();
        root.push(0x2f);
        assert(root@ =~= seq![slash()]);
        let ghost texts = str_views(components@);
        assert(texts.len() > 0);
        assert(texts[0].len() == 0);
        let res = join_decoded(root, components, 1);
        assert(path_result(res) == spec_from_absolute_components(texts));
        res
    }

    /// Builds a relative path from canonical components, each a normal
    /// component; at least one component is required.
    pub fn from_canonical_relative_components(components: &[&str]) -> (res: LocalResult<Vec<u8>>)
        ensures
            path_result(res) == spec_from_relative_components(str_views(components@)),
    {
        assert(str_views(components@).skip(0) =~= str_views(components@));
        let joined = join_decoded(Vec::new(), components, 0);
        match joined {
            Err(error) => Err(error),
            Ok(path) => {
                if components.len() == 0 {
                    assert(str_views(components@) =~= Seq::<Seq<char>>::empty());
                    return Err(invalid_path_error());
                }
                proof {
                    lemma_decode_all_len(str_views(components@));
                }
                Ok(path)
            },
        }
    }

    /// Encodes an absolute path without dot segments into canonical
    /// components, starting with the empty root marker.
    pub fn to_canonical_absolute_components(path: &[u8]) -> (res: LocalResult<Vec<String>>)
        ensures
            texts_result(res) == spec_to_absolute_components(path@),
    {
        let (natives, dot) = scan_path(path);
        if !is_absolute_exec(path) || dot {
            return Err(invalid_path_error());
        }
        let encoded = encode_components(&natives, true);
        encoded
    }

    /// Encodes a relative path without dot segments into canonical
    /// components; at least one component is required.
    pub fn to_canonical_relative_components(path: &[u8]) -> (res: LocalResult<Vec<String>>)
        ensures
            texts_result(res) == spec_to_relative_components(path@),
    {
        let (natives, dot) = scan_path(path);
        if is_absolute_exec(path) || dot {
            return Err(invalid_path_error());
        }
        let encoded = encode_components(&natives, false);
        match encoded {
            Err(error) => Err(error),
            Ok(texts) => {
                assert(root_marker(false) + canonical_texts(views(natives@)) =~= canonical_texts(
                    views(natives@),
                ));
                if texts.len() == 0 {
                    return Err(invalid_path_error());
                }
                Ok(texts)
            },
        }
    }

    /// Binds a Host path: an absolute path is returned unchanged; a relative
    /// path is joined onto the process working directory, whose read result
    /// is `current_directory`.
    pub fn bind_host_path(path: &[u8], current_directory: Result<Vec<u8>, LocalIoError>) -> (res:
        LocalResult<Vec<u8>>)
        ensures
            is_absolute(path@) ==> path_result(res) == Ok::<Seq<u8>, LocalFileErrorView>(path@),
            !is_absolute(path@) ==> match current_directory {
                Ok(current) => path_result(res) == Ok::<Seq<u8>, LocalFileErrorView>(
                    path_push(current@, path@),
                ),
                Err(source) => path_result(res) == Err::<Seq<u8>, LocalFileErrorView>(
                    spec_bind_error(Some(path@), source@),
                ),
            },
    {
        if is_absolute_exec(path) {
            return Ok(copy_bytes(path));
        }
        match current_directory {
            Ok(current) => Ok(path_push_exec(current.as_slice(), path)),
            Err(source) => Err(
                LocalFileError::from_io(
                    LocalFileOperation::BindPath,
                    Some(copy_bytes(path)),
                    None,
                    source,
                ),
            ),
        }
    }

    /// Binds two Host paths against one working-directory read: when either
    /// is relative both are joined onto it (an absolute one stays itself).
    pub fn bind_host_paths(paths: [&[u8]; 2], current_directory: Result<Vec<u8>, LocalIoError>) -> (res:
        LocalResult<[Vec<u8>; 2]>)
        ensures
            is_absolute(paths[0]@) && is_absolute(paths[1]@) ==> (res matches Ok(bound)
                && bound[0]@ == paths[0]@ && bound[1]@ == paths[1]@),
            !(is_absolute(paths[0]@) && is_absolute(paths[1]@)) ==> match current_directory {
                Ok(current) => (res matches Ok(bound) && bound[0]@ == path_push(
                    current@,
                    paths[0]@,
                ) && bound[1]@ == path_push(current@, paths[1]@)),
                Err(source) => (res matches Err(error) && error@ == spec_bind_error(None, source@)),
            },
    {
        let first = paths[0];
        let second = paths[1];
        if is_absolute_exec(first) && is_absolute_exec(second) {
            return Ok([copy_bytes(first), copy_bytes(second)]);
        }
        match current_directory {
            Ok(current) => Ok(
                [
                    path_push_exec(current.as_slice(), first),
                    path_push_exec(current.as_slice(), second),
                ],
            ),
            Err(source) => Err(
                LocalFileError::from_io(LocalFileOperation::BindPath, None, None, source),
            ),
        }
    }

    /// Reports whether `path` lies lexically within `ancestor`, comparing
    /// normal components; both must have the same absoluteness and no dot
    /// segments.
    pub fn is_lexically_within(path: &[u8], ancestor: &[u8]) -> (res: LocalResult<bool>)
        ensures
            match res {
                Ok(b) => spec_is_lexically_within(path@, ancestor@) == Ok::<bool, LocalFileErrorView>(
                    b,
                ),
                Err(e) => spec_is_lexically_within(path@, ancestor@) == Err::<bool, LocalFileErrorView>(
                    e@,
                ),
            },
    {
        let (path_components, path_dot) = scan_path(path);
        let (ancestor_components, ancestor_dot) = scan_path(ancestor);
        if is_absolute_exec(path) != is_absolute_exec(ancestor) || path_dot || ancestor_dot {
            return Err(
                LocalFileError::new(
                    LocalFileErrorKind::InvalidPath,
                    LocalFileOperation::ComposePath,
                ).with_path(copy_bytes(path)).with_target(copy_bytes(ancestor)),
            );
        }
        Ok(component_prefix(&ancestor_components, &path_components))
    }

    /// Joins a non-empty relative descendant without dot segments onto
    /// `base`.
    pub fn compose_descendant(base: &[u8], descendant: &[u8]) -> (res: LocalResult<Vec<u8>>)
        ensures
            path_result(res) == spec_compose_descendant(base@, descendant@),
    {
        let (_components, dot) = scan_path(descendant);
        if descendant.len() == 0 || is_absolute_exec(descendant) || dot {
            return Err(
                LocalFileError::new(
                    LocalFileErrorKind::InvalidPath,
                    LocalFileOperation::ComposePath,
                ).with_path(copy_bytes(descendant)),
            );
        }
        Ok(path_push_exec(base, descendant))
    }
}

/// Whether one component list is a prefix of another.
fn component_prefix(prefix: &Vec<Vec<u8>>, list: &Vec<Vec<u8>>) -> (res: bool)
    ensures
        res == is_seq_prefix(views(prefix@), views(list@)),
{
    if prefix.len() > list.len() {
        return false;
    }
    let mut i: usize = 0;
    while i < prefix.len()
        invariant
            i <= prefix@.len() <= list@.len(),
            forall|k: int| 0 <= k < i ==> (#[trigger] prefix@[k])@ == list@[k]@,
        decreases prefix@.len() - i,
    {
        if !bytes_equal_exec(prefix[i].as_slice(), list[i].as_slice()) {
            assert(views(list@).take(prefix@.len() as int)[i as int] != views(prefix@)[i as int]);
            return false;
        }
        i = i + 1;
    }
    assert(views(list@).take(prefix@.len() as int) =~= views(prefix@));
    true
}

/// Whether two byte sequences are equal.
pub fn bytes_equal_exec(a: &[u8], b: &[u8]) -> (res: bool)
    ensures
        res == (a@ == b@),
{
    if a.len() != b.len() {
        return false;
    }
    let mut i: usize = 0;
    while i < a.len()
        invariant
            i <= a@.len(),
            a@.len() == b@.len(),
            forall|j: int| 0 <= j < i ==> a@[j] == b@[j],
        decreases a@.len() - i,
    {
        if a[i] != b[i] {
            return false;
        }
        i = i + 1;
    }
    assert(a@ =~= b@);
    true
}

/// Decoding keeps the number of components.
proof fn lemma_decode_all_len(texts: Seq<Seq<char>>)
    ensures
        spec_decode_all(texts) matches Ok(natives) ==> natives.len() == texts.len(),
    decreases texts.len(),
{
    if texts.len() > 0 {
        lemma_decode_all_len(texts.drop_last());
    }
}

/// Successful decoding yields, position by position, the normal component of
/// each text.
proof fn lemma_decode_all_items(texts: Seq<Seq<char>>)
    requires
        spec_decode_all(texts) is Ok,
    ensures
        spec_decode_all(texts)->Ok_0.len() == texts.len(),
        forall|i: int|
            0 <= i < texts.len() ==> spec_decode_normal(#[trigger] texts[i]) == Ok::<
                Seq<u8>,
                LocalFileErrorView,
            >(spec_decode_all(texts)->Ok_0[i]),
    decreases texts.len(),
{
    if texts.len() > 0 {
        lemma_decode_all_items(texts.drop_last());
        let natives = spec_decode_all(texts)->Ok_0;
        assert forall|i: int| 0 <= i < texts.len() implies spec_decode_normal(
            #[trigger] texts[i],
        ) == Ok::<Seq<u8>, LocalFileErrorView>(natives[i]) by {
            if i < texts.len() - 1 {
                assert(texts[i] == texts.drop_last()[i]);
            }
        }
    }
}

/// Decoding the canonical texts of normal, NUL-free components gives them
/// back.
proof fn lemma_decode_all_canonical(natives: Seq<Seq<u8>>)
    requires
        forall|i: int|
            0 <= i < natives.len() ==> is_normal_component(#[trigger] natives[i]) && !natives[i].contains(
                0u8,
            ),
    ensures
        spec_decode_all(canonical_texts(natives)) == Ok::<Seq<Seq<u8>>, LocalFileErrorView>(natives),
    decreases natives.len(),
{
    if natives.len() > 0 {
        let last = natives.last();
        assert(is_normal_component(natives[natives.len() - 1]));
        lemma_native_text_roundtrip(last);
        assert(canonical_texts(natives).drop_last() =~= canonical_texts(natives.drop_last()));
        lemma_decode_all_canonical(natives.drop_last());
        assert(natives.drop_last().push(last) =~= natives);
    } else {
        assert(canonical_texts(natives) =~= Seq::<Seq<char>>::empty());
        assert(natives =~= Seq::<Seq<u8>>::empty());
    }
}

/// Joining normal components onto a base appends them to its components,
/// adds no dot segment, and keeps the base's absoluteness once a component
/// was added.
pub(crate) proof fn lemma_join_normal(base: Seq<u8>, natives: Seq<Seq<u8>>)
    requires
        forall|i: int| 0 <= i < natives.len() ==> is_normal_component(#[trigger] natives[i]),
    ensures
        components(join_all(base, natives)) == components(base) + natives,
        has_dot_segment(join_all(base, natives)) == has_dot_segment(base),
        natives.len() > 0 ==> (is_absolute(join_all(base, natives)) == is_absolute(base)),
        natives.len() == 0 ==> join_all(base, natives) == base,
    decreases natives.len(),
{
    if natives.len() > 0 {
        assert(is_normal_component(natives[natives.len() - 1]));
        lemma_join_normal(base, natives.drop_last());
        lemma_components_push_normal(join_all(base, natives.drop_last()), natives.last());
        assert(components(base) + natives.drop_last().push(natives.last()) =~= components(base)
            + natives);
        if natives.len() == 1 {
            assert(natives.drop_last() =~= Seq::<Seq<u8>>::empty());
            if base.len() == 0 {
                let c = natives.last();
                assert(c[0] != slash()) by {
                    if c[0] == slash() {
                        assert(c.contains(slash()));
                    }
                }
            }
        }
    } else {
        assert(components(base) + natives =~= components(base));
    }
}

/// Components of a path are non-empty, slash-free raw segments.
pub(crate) proof fn lemma_components_are_segments(path: Seq<u8>)
    ensures
        forall|i: int|
            0 <= i < components(path).len() ==> (#[trigger] components(path)[i]).len() > 0 && !components(
                path,
            )[i].contains(slash()) && (has_dot_segment(path) || !is_dot_segment(components(path)[i])),
{
    lemma_raw_segments_shape(path);
    lemma_drop_empty_members(raw_segments(path));
}

/// Every item of the non-empty sublist is a non-empty item of the list.
proof fn lemma_drop_empty_members(segments: Seq<Seq<u8>>)
    ensures
        forall|i: int|
            0 <= i < drop_empty(segments).len() ==> (#[trigger] drop_empty(segments)[i]).len() > 0
                && exists|j: int| 0 <= j < segments.len() && segments[j] == drop_empty(segments)[i],
    decreases segments.len(),
{
    if segments.len() > 0 {
        lemma_drop_empty_members(segments.drop_last());
        let r = drop_empty(segments.drop_last());
        assert forall|i: int| 0 <= i < drop_empty(segments).len() implies (#[trigger] drop_empty(
            segments,
        )[i]).len() > 0 && exists|j: int|
            0 <= j < segments.len() && segments[j] == drop_empty(segments)[i] by {
            if i < r.len() {
                assert(drop_empty(segments)[i] == r[i]);
                let j = choose|j: int|
                    0 <= j < segments.drop_last().len() && segments.drop_last()[j] == r[i];
                assert(segments[j] == segments.drop_last()[j]);
            } else {
                assert(segments[segments.len() - 1] == drop_empty(segments)[i]);
            }
        }
    }
}

/// The root path has no components and no dot segment.
pub(crate) proof fn lemma_root_shape()
    ensures
        components(seq![slash()]) == Seq::<Seq<u8>>::empty(),
        !has_dot_segment(seq![slash()]),
        components(Seq::<u8>::empty()) == Seq::<Seq<u8>>::empty(),
        !has_dot_segment(Seq::<u8>::empty()),
{
    let root = seq![slash()];
    let empty = Seq::<u8>::empty();
    assert(root.drop_last() =~= empty);
    assert(raw_segments(empty) == seq![empty]);
    assert(root.last() == slash());
    assert(seq![empty].push(empty) =~= seq![empty, empty]);
    assert(raw_segments(root) =~= seq![empty, empty]);
    assert(seq![empty, empty].drop_last() =~= seq![empty]);
    assert(seq![empty].drop_last() =~= Seq::<Seq<u8>>::empty());
    assert(drop_empty(Seq::<Seq<u8>>::empty()) =~= Seq::<Seq<u8>>::empty());
    assert(drop_empty(seq![empty]) =~= Seq::<Seq<u8>>::empty());
    assert(drop_empty(seq![empty, empty]) =~= Seq::<Seq<u8>>::empty());
    assert(!is_dot_segment(empty)) by {
        assert(seq![dot_byte()].len() == 1);
    }
    let two = seq![empty, empty];
    let one = seq![empty];
    assert(!any_dot_segment(two)) by {
        if any_dot_segment(two) {
            let i = choose|i: int| 0 <= i < two.len() && is_dot_segment(#[trigger] two[i]);
            assert(two[i] == empty);
        }
    }
    assert(!any_dot_segment(one)) by {
        if any_dot_segment(one) {
            let i = choose|i: int| 0 <= i < one.len() && is_dot_segment(#[trigger] one[i]);
            assert(one[i] == empty);
        }
    }
}

spec fn dot_byte() -> u8 {
    0x2eu8
}

/// Canonical components built into a relative path convert back to the same
/// canonical components.
pub proof fn lemma_relative_components_roundtrip(texts: Seq<Seq<char>>)
    requires
        spec_from_relative_components(texts) is Ok,
    ensures
        spec_to_relative_components(spec_from_relative_components(texts)->Ok_0) == Ok::<
            Seq<Seq<char>>,
            LocalFileErrorView,
        >(texts),
{
    lemma_decode_all_items(texts);
    let natives = spec_decode_all(texts)->Ok_0;
    assert forall|i: int| 0 <= i < natives.len() implies is_normal_component(
        #[trigger] natives[i],
    ) && !natives[i].contains(0u8) && canonical_text(natives[i]) == texts[i] by {
        assert(spec_decode_normal(texts[i]) == Ok::<Seq<u8>, LocalFileErrorView>(natives[i]));
    }
    lemma_join_normal(Seq::<u8>::empty(), natives);
    lemma_root_shape();
    let path = join_all(Seq::<u8>::empty(), natives);
    assert(components(path) =~= natives);
    assert(canonical_texts(natives) =~= texts);
}

/// Canonical components built into an absolute path convert back to the same
/// canonical components.
pub proof fn lemma_absolute_components_roundtrip(texts: Seq<Seq<char>>)
    requires
        spec_from_absolute_components(texts) is Ok,
    ensures
        spec_to_absolute_components(spec_from_absolute_components(texts)->Ok_0) == Ok::<
            Seq<Seq<char>>,
            LocalFileErrorView,
        >(texts),
{
    let rest = texts.skip(1);
    lemma_decode_all_items(rest);
    let natives = spec_decode_all(rest)->Ok_0;
    assert forall|i: int| 0 <= i < natives.len() implies is_normal_component(
        #[trigger] natives[i],
    ) && !natives[i].contains(0u8) && canonical_text(natives[i]) == rest[i] by {
        assert(spec_decode_normal(rest[i]) == Ok::<Seq<u8>, LocalFileErrorView>(natives[i]));
    }
    lemma_join_normal(seq![slash()], natives);
    lemma_root_shape();
    let path = join_all(seq![slash()], natives);
    assert(components(path) =~= natives);
    assert(is_absolute(path)) by {
        if natives.len() == 0 {
            assert(path == seq![slash()]);
        }
    }
    assert(texts[0] =~= Seq::<char>::empty());
    assert(seq![Seq::<char>::empty()] + canonical_texts(natives) =~= texts);
}

/// Converting a relative path to canonical components and back yields a
/// relative path with the same components.
pub proof fn lemma_relative_path_roundtrip(path: Seq<u8>)
    requires
        spec_to_relative_components(path) is Ok,
    ensures
        spec_from_relative_components(spec_to_relative_components(path)->Ok_0) matches Ok(rebuilt)
            && components(rebuilt) == components(path) && !is_absolute(rebuilt)
            && !has_dot_segment(rebuilt),
{
    let natives = components(path);
    lemma_components_are_segments(path);
    assert forall|i: int| 0 <= i < natives.len() implies is_normal_component(
        #[trigger] natives[i],
    ) && !natives[i].contains(0u8) by {}
    lemma_decode_all_canonical(natives);
    lemma_join_normal(Seq::<u8>::empty(), natives);
    lemma_root_shape();
    assert(Seq::<Seq<u8>>::empty() + natives =~= natives);
}

/// Converting an absolute path to canonical components and back yields an
/// absolute path with the same components.
pub proof fn lemma_absolute_path_roundtrip(path: Seq<u8>)
    requires
        spec_to_absolute_components(path) is Ok,
    ensures
        spec_from_absolute_components(spec_to_absolute_components(path)->Ok_0) matches Ok(rebuilt)
            && components(rebuilt) == components(path) && is_absolute(rebuilt)
            && !has_dot_segment(rebuilt),
{
    let natives = components(path);
    lemma_components_are_segments(path);
    assert forall|i: int| 0 <= i < natives.len() implies is_normal_component(
        #[trigger] natives[i],
    ) && !natives[i].contains(0u8) by {}
    lemma_decode_all_canonical(natives);
    let texts = seq![Seq::<char>::empty()] + canonical_texts(natives);
    assert(texts.skip(1) =~= canonical_texts(natives));
    lemma_join_normal(seq![slash()], natives);
    lemma_root_shape();
    assert(Seq::<Seq<u8>>::empty() + natives =~= natives);
}

/// A composed descendant lies lexically within its base.
pub proof fn lemma_descendant_is_within_base(base: Seq<u8>, descendant: Seq<u8>)
    requires
        !has_dot_segment(base),
        spec_compose_descendant(base, descendant) is Ok,
    ensures
        spec_is_lexically_within(spec_compose_descendant(base, descendant)->Ok_0, base) == Ok::<
            bool,
            LocalFileErrorView,
        >(true),
{
    lemma_components_join(base, descendant);
    let joined = path_push(base, descendant);
    assert(components(joined).take(components(base).len() as int) =~= components(base));
}

/// A byte other than `/` that a path does not hold is held by none of its
/// raw segments.
proof fn lemma_raw_segments_avoid(path: Seq<u8>, byte: u8)
    requires
        byte != slash(),
        !path.contains(byte),
    ensures
        forall|i: int| 0 <= i < raw_segments(path).len() ==> !(#[trigger] raw_segments(path)[i]).contains(byte),
    decreases path.len(),
{
    lemma_raw_segments_shape(path);
    if path.len() > 0 {
        let prefix = path.drop_last();
        assert(!prefix.contains(byte)) by {
            if prefix.contains(byte) {
                let k = choose|k: int| 0 <= k < prefix.len() && prefix[k] == byte;
                assert(path[k] == byte);
            }
        }
        lemma_raw_segments_avoid(prefix, byte);
        lemma_raw_segments_shape(prefix);
        let r = raw_segments(prefix);
        assert(path.last() != byte) by {
            assert(path[path.len() - 1] == path.last());
        }
        assert forall|i: int| 0 <= i < raw_segments(path).len() implies !(#[trigger] raw_segments(
            path,
        )[i]).contains(byte) by {
            if path.last() == slash() {
                if i < r.len() {
                    assert(raw_segments(path)[i] == r[i]);
                } else {
                    assert(raw_segments(path)[i] =~= Seq::<u8>::empty());
                }
            } else if i == r.len() - 1 {
                let pushed = r.last().push(path.last());
                assert(raw_segments(path)[i] == pushed);
                if pushed.contains(byte) {
                    let k = choose|k: int| 0 <= k < pushed.len() && pushed[k] == byte;
                    if k < r.last().len() {
                        assert(r.last()[k] == byte);
                        assert(r[r.len() - 1].contains(byte));
                    }
                }
            } else {
                assert(raw_segments(path)[i] == r[i]);
            }
        }
    }
}

/// A non-empty path that does not start with `/` starts with a non-empty
/// raw segment.
proof fn lemma_first_raw_segment_nonempty(path: Seq<u8>)
    requires
        path.len() > 0,
        path[0] != slash(),
    ensures
        raw_segments(path)[0].len() > 0,
    decreases path.len(),
{
    let prefix = path.drop_last();
    lemma_raw_segments_shape(prefix);
    let r = raw_segments(prefix);
    if prefix.len() == 0 {
        assert(prefix =~= Seq::<u8>::empty());
        assert(path.last() == path[0]);
        assert(raw_segments(path)[0] == r.last().push(path.last()));
    } else {
        assert(prefix[0] == path[0]);
        lemma_first_raw_segment_nonempty(prefix);
        if path.last() == slash() {
            assert(raw_segments(path)[0] == r[0]);
        } else if r.len() == 1 {
            assert(raw_segments(path)[0] == r.last().push(path.last()));
        } else {
            assert(raw_segments(path)[0] == r[0]);
        }
    }
}

/// A list whose first segment is non-empty keeps at least one segment.
proof fn lemma_drop_empty_keeps_first(segments: Seq<Seq<u8>>)
    requires
        segments.len() > 0,
        segments[0].len() > 0,
    ensures
        drop_empty(segments).len() > 0,
    decreases segments.len(),
{
    if segments.len() > 1 {
        assert(segments.drop_last()[0] == segments[0]);
        lemma_drop_empty_keeps_first(segments.drop_last());
    }
}

/// A non-empty relative path made of normal components without NUL has
/// canonical components, one per component, and building a relative path
/// from them gives a relative path with the same components.
pub proof fn lemma_relative_path_components_roundtrip(path: Seq<u8>)
    requires
        path.len() > 0,
        !is_absolute(path),
        !has_dot_segment(path),
        !path.contains(0u8),
    ensures
        spec_to_relative_components(path) matches Ok(texts) && texts.len() == components(path).len() && (
        spec_from_relative_components(texts) matches Ok(rebuilt) && components(rebuilt) == components(path)
            && !is_absolute(rebuilt) && !has_dot_segment(rebuilt)),
{
    lemma_path_components_nul_free(path);
    lemma_first_raw_segment_nonempty(path);
    lemma_raw_segments_shape(path);
    lemma_drop_empty_keeps_first(raw_segments(path));
    lemma_relative_path_roundtrip(path);
}

/// An absolute path made of normal components without NUL has canonical
/// components (the root marker first, then one per component), and
/// building an absolute path from them gives an absolute path with the same
/// components.
pub proof fn lemma_absolute_path_components_roundtrip(path: Seq<u8>)
    requires
        is_absolute(path),
        !has_dot_segment(path),
        !path.contains(0u8),
    ensures
        spec_to_absolute_components(path) matches Ok(texts) && texts.len() == components(path).len() + 1
            && (spec_from_absolute_components(texts) matches Ok(rebuilt) && components(rebuilt) == components(
            path,
        ) && is_absolute(rebuilt) && !has_dot_segment(rebuilt)),
{
    lemma_path_components_nul_free(path);
    lemma_absolute_path_roundtrip(path);
}

/// The components of a path without NUL hold no NUL.
proof fn lemma_path_components_nul_free(path: Seq<u8>)
    requires
        !path.contains(0u8),
    ensures
        all_nul_free(components(path)),
{
    lemma_raw_segments_avoid(path, 0u8);
    lemma_drop_empty_members(raw_segments(path));
    let segments = raw_segments(path);
    assert forall|i: int| 0 <= i < components(path).len() implies !(#[trigger] components(path)[i]).contains(
        0u8,
    ) by {
        let j = choose|j: int| 0 <= j < segments.len() && segments[j] == drop_empty(segments)[i];
        assert(!segments[j].contains(0u8));
    }
}

/// A path lies lexically within an ancestor of the same absoluteness
/// exactly when the ancestor's components start the path's components, the
/// path itself included: every path without dot segments lies within
/// itself, and within each of its component prefixes.
pub proof fn lemma_lexical_containment_is_component_prefix(path: Seq<u8>, ancestor: Seq<u8>)
    ensures
        !has_dot_segment(path) ==> spec_is_lexically_within(path, path) == Ok::<bool, LocalFileErrorView>(true),
        (is_absolute(path) == is_absolute(ancestor) && !has_dot_segment(path) && !has_dot_segment(ancestor))
            ==> spec_is_lexically_within(path, ancestor) == Ok::<bool, LocalFileErrorView>(
            components(ancestor).len() <= components(path).len() && forall|i: int|
                0 <= i < components(ancestor).len() ==> components(path)[i] == components(ancestor)[i],
        ),
{
    let p = components(path);
    let a = components(ancestor);
    assert(p.take(p.len() as int) =~= p);
    if a.len() <= p.len() {
        if forall|i: int| 0 <= i < a.len() ==> p[i] == a[i] {
            assert(p.take(a.len() as int) =~= a);
        } else {
            let i = choose|i: int| 0 <= i < a.len() && p[i] != a[i];
            assert(p.take(a.len() as int)[i] == p[i]);
        }
    }
}

} // verus!
