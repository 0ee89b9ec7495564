//! Local paths compared as `std::path::Path` compares them on Unix: by their components,
//! so that `/a/b`, `/a/b/`, `/a//b` and `/a/./b` are the same path.
use vstd::prelude::*;

use crate::text::bytes_eq;

verus! {

/// One component of a path: the root, or a part between slashes (a leading `.` of a
/// relative path, `..`, or a name).
pub enum ComponentView {
    RootDir,
    Part(Seq<u8>),
}

/// One component of a path.
#[derive(Debug)]
pub enum PathComponent {
    RootDir,
    Part(Vec<u8>),
}

impl View for PathComponent {
    type V = ComponentView;

    open spec fn view(&self) -> ComponentView {
        match self {
            PathComponent::RootDir => ComponentView::RootDir,
            PathComponent::Part(p) => ComponentView::Part(p@),
        }
    }
}

/// The models of a sequence of components, in order.
pub open spec fn components_view(cs: Seq<PathComponent>) -> Seq<ComponentView> {
    cs.map_values(|c: PathComponent| c@)
}

/// The parts of `bytes` between slashes, in order, empty ones included: one more part
/// than there are slashes.
pub open spec fn split_on_slash(bytes: Seq<u8>) -> Seq<Seq<u8>>
    decreases bytes.len(),
{
    if bytes.len() == 0 {
        seq![Seq::empty()]
    } else {
        let before = split_on_slash(bytes.drop_last());
        if bytes.last() == 0x2F {
            before.push(Seq::empty())
        } else {
            before.update(before.len() - 1, before.last().push(bytes.last()))
        }
    }
}

/// There is always at least one part.
pub proof fn lemma_split_on_slash_len(bytes: Seq<u8>)
    ensures
        split_on_slash(bytes).len() >= 1,
    decreases bytes.len(),
{
    if bytes.len() > 0 {
        lemma_split_on_slash_len(bytes.drop_last());
    }
}

/// Whether a path starts at the root.
pub open spec fn has_root(bytes: Seq<u8>) -> bool {
    bytes.len() > 0 && bytes[0] == 0x2F
}

/// Whether the part at `index` is a component: it is not empty, and it is not `.` unless
/// it leads a relative path.
pub open spec fn is_kept_part(part: Seq<u8>, index: int, rooted: bool) -> bool {
    part.len() > 0 && (part != seq![0x2Eu8] || (index == 0 && !rooted))
}

/// The components that a sequence of parts contributes.
pub open spec fn kept_parts(parts: Seq<Seq<u8>>, rooted: bool) -> Seq<ComponentView>
    decreases parts.len(),
{
    if parts.len() == 0 {
        Seq::empty()
    } else {
        kept_parts(parts.drop_last(), rooted) + if is_kept_part(
            parts.last(),
            parts.len() - 1,
            rooted,
        ) {
            seq![ComponentView::Part(parts.last())]
        } else {
            Seq::empty()
        }
    }
}

/// The components of a path: the root if it starts with a slash, then its parts between
/// slashes, without empty parts and without `.` parts other than a leading one.
pub open spec fn path_components(bytes: Seq<u8>) -> Seq<ComponentView> {
    (if has_root(bytes) {
        seq![ComponentView::RootDir]
    } else {
        Seq::empty()
    }) + kept_parts(split_on_slash(bytes), has_root(bytes))
}

/// Whether two optional paths are the same path.
pub open spec fn same_path_view(a: Option<Seq<u8>>, b: Option<Seq<u8>>) -> bool {
    match (a, b) {
        (Some(x), Some(y)) => path_components(x) == path_components(y),
        (None, None) => true,
        _ => false,
    }
}

fn is_kept(part: &Vec<u8>, index: usize, rooted: bool) -> (r: bool)
    ensures
        r == is_kept_part(part@, index as int, rooted),
{
    let is_dot = part.len() == 1 && part[0] == 0x2E;
    assert(is_dot == (part@ == seq![0x2Eu8])) by {
        if part@.len() == 1 && part@[0] == 0x2E {
            assert(part@ =~= seq![0x2Eu8]);
        }
    }
    part.len() > 0 && (!is_dot || (index == 0 && !rooted))
}

/// The components of a path, as `path_components` describes.
pub fn components(bytes: &[u8]) -> (r: Vec<PathComponent>)
    ensures
        components_view(r@) == path_components(bytes@),
{
    let rooted = bytes.len() > 0 && bytes[0] == 0x2F;
    let mut out: Vec<PathComponent> = Vec::new();
    if rooted {
        out.push(PathComponent::RootDir);
    }
    let ghost prefix = components_view(out@);
    let mut current: Vec<u8> = Vec::new();
    let mut index: usize = 0;
    let mut i: usize = 0;
    assert(bytes@.take(0) =~= Seq::<u8>::empty());
    assert(components_view(out@) =~= prefix + kept_parts(
        split_on_slash(bytes@.take(0)).drop_last(),
        rooted,
    ));
    while i < bytes.len()
        invariant
            i <= bytes@.len(),
            rooted == has_root(bytes@),
            prefix == (if rooted {
                seq![ComponentView::RootDir]
            } else {
                Seq::<ComponentView>::empty()
            }),
            split_on_slash(bytes@.take(i as int)).len() == index + 1,
            current@ == split_on_slash(bytes@.take(i as int)).last(),
            components_view(out@) == prefix + kept_parts(
                split_on_slash(bytes@.take(i as int)).drop_last(),
                rooted,
            ),
            index <= i,
        decreases bytes.len() - i,
    {
        let ghost before = split_on_slash(bytes@.take(i as int));
        assert(bytes@.take(i + 1).drop_last() =~= bytes@.take(i as int));
        assert(bytes@.take(i + 1).last() == bytes@[i as int]);
        if bytes[i] == 0x2F {
            let kept = is_kept(&current, index, rooted);
            let ghost after = split_on_slash(bytes@.take(i + 1));
            assert(after == before.push(Seq::empty()));
            assert(after.drop_last() =~= before);
            assert(before.drop_last().len() == index);
            assert(before.last() == current@);
            let ghost old_out = components_view(out@);
            let ghost part = current@;
            if kept {
                out.push(PathComponent::Part(current));
                assert(components_view(out@) =~= old_out.push(ComponentView::Part(part)));
            } else {
                assert(components_view(out@) =~= old_out);
            }
            assert(kept_parts(before, rooted) == kept_parts(before.drop_last(), rooted) + if kept {
                seq![ComponentView::Part(part)]
            } else {
                Seq::<ComponentView>::empty()
            });
            assert(components_view(out@) =~= prefix + kept_parts(before, rooted));
            current = Vec::new();
            index += 1;
        } else {
            current.push(bytes[i]);
            let ghost after = split_on_slash(bytes@.take(i + 1));
            assert(after.drop_last() =~= before.drop_last());
            assert(out@ == out@);
        }
        i += 1;
    }
    assert(bytes@.take(i as int) =~= bytes@);
    let ghost all = split_on_slash(bytes@);
    let kept = is_kept(&current, index, rooted);
    let ghost old_out = components_view(out@);
    let ghost part = current@;
    if kept {
        out.push(PathComponent::Part(current));
        assert(components_view(out@) =~= old_out.push(ComponentView::Part(part)));
    } else {
        assert(components_view(out@) =~= old_out);
    }
    assert(kept_parts(all, rooted) == kept_parts(all.drop_last(), rooted) + if kept {
        seq![ComponentView::Part(part)]
    } else {
        Seq::<ComponentView>::empty()
    });
    assert(components_view(out@) =~= prefix + kept_parts(all, rooted));
    out
}

fn component_eq(a: &PathComponent, b: &PathComponent) -> (r: bool)
    ensures
        r == (a@ == b@),
{
    match (a, b) {
        (PathComponent::RootDir, PathComponent::RootDir) => true,
        (PathComponent::Part(x), PathComponent::Part(y)) => bytes_eq(x.as_slice(), y.as_slice()),
        _ => false,
    }
}

/// Whether two paths have the same components.
pub fn same_components(a: &[u8], b: &[u8]) -> (r: bool)
    ensures
        r == (path_components(a@) == path_components(b@)),
{
    let ca = components(a);
    let cb = components(b);
    if ca.len() != cb.len() {
        assert(components_view(ca@).len() != components_view(cb@).len());
        return false;
    }
    let mut i: usize = 0;
    while i < ca.len()
        invariant
            i <= ca@.len() == cb@.len(),
            components_view(ca@) == path_components(a@),
            components_view(cb@) == path_components(b@),
            forall|j: int|
                0 <= j < i ==> #[trigger] components_view(ca@)[j] == components_view(cb@)[j],
        decreases ca.len() - i,
    {
        assert(components_view(ca@)[i as int] == ca@[i as int]@);
        assert(components_view(cb@)[i as int] == cb@[i as int]@);
        if !component_eq(&ca[i], &cb[i]) {
            assert(components_view(ca@)[i as int] != components_view(cb@)[i as int]);
            return false;
        }
        i += 1;
    }
    assert(components_view(ca@) =~= components_view(cb@));
    true
}

/// Whether two optional paths are the same path: both absent, or both present with the
/// same components.
pub fn same_path(a: &Option<Vec<u8>>, b: &Option<Vec<u8>>) -> (r: bool)
    ensures
        r == same_path_view(crate::model::path_view(*a), crate::model::path_view(*b)),
{
    match (a, b) {
        (Some(x), Some(y)) => same_components(x.as_slice(), y.as_slice()),
        (None, None) => true,
        _ => false,
    }
}

/// A trailing slash does not change a non-empty path: `p` and `p/` are the same path.
pub proof fn lemma_trailing_slash_same_path(p: Seq<u8>)
    requires
        p.len() > 0,
    ensures
        path_components(p.push(0x2F)) == path_components(p),
{
    let q = p.push(0x2F);
    assert(q.drop_last() =~= p);
    lemma_split_on_slash_len(p);
    let parts = split_on_slash(q);
    assert(parts == split_on_slash(p).push(Seq::empty()));
    assert(parts.drop_last() =~= split_on_slash(p));
    assert(kept_parts(parts, has_root(p)) =~= kept_parts(split_on_slash(p), has_root(p)));
    assert(has_root(q) == has_root(p));
}

/// The parts of a piece without slashes added after some bytes: the last part grows by it.
proof fn lemma_split_appends_to_last_part(x: Seq<u8>, name: Seq<u8>)
    requires
        forall|i: int| 0 <= i < name.len() ==> name[i] != 0x2F,
    ensures
        split_on_slash(x + name) == split_on_slash(x).update(
            split_on_slash(x).len() - 1,
            split_on_slash(x).last() + name,
        ),
    decreases name.len(),
{
    lemma_split_on_slash_len(x);
    if name.len() == 0 {
        assert(x + name =~= x);
        assert(split_on_slash(x).last() + name =~= split_on_slash(x).last());
        assert(split_on_slash(x).update(split_on_slash(x).len() - 1, split_on_slash(x).last())
            =~= split_on_slash(x));
    } else {
        let shorter = name.drop_last();
        lemma_split_appends_to_last_part(x, shorter);
        let s = split_on_slash(x);
        let before = split_on_slash(x + shorter);
        assert((x + name).drop_last() =~= x + shorter);
        assert((x + name).last() == name.last());
        assert(name[name.len() - 1] != 0x2F);
        assert(before.len() == s.len());
        assert(before.last() == s.last() + shorter);
        assert(split_on_slash(x + name) == before.update(
            before.len() - 1,
            before.last().push(name.last()),
        ));
        assert((s.last() + shorter).push(name.last()) =~= s.last() + name);
        assert(split_on_slash(x).last() + shorter + seq![name.last()] =~= split_on_slash(x).last()
            + name);
        assert(split_on_slash(x + name) =~= split_on_slash(x).update(
            split_on_slash(x).len() - 1,
            split_on_slash(x).last() + name,
        ));
    }
}

/// The path `/name`, for a name without slashes that is neither empty nor `.`, has the
/// root and the name as its components; so two such paths are the same path exactly when
/// their names are equal.
pub proof fn lemma_root_name_components(name: Seq<u8>)
    requires
        name.len() > 0,
        name != seq![0x2Eu8],
        forall|i: int| 0 <= i < name.len() ==> name[i] != 0x2F,
    ensures
        path_components(seq![0x2Fu8] + name) == seq![
            ComponentView::RootDir,
            ComponentView::Part(name),
        ],
{
    let root = seq![0x2Fu8];
    assert(root.drop_last() =~= Seq::<u8>::empty());
    assert(split_on_slash(Seq::<u8>::empty()) == seq![Seq::<u8>::empty()]);
    assert(root.last() == 0x2F);
    assert(split_on_slash(root) == seq![Seq::<u8>::empty()].push(Seq::<u8>::empty()));
    assert(split_on_slash(root) =~= seq![Seq::<u8>::empty(), Seq::<u8>::empty()]);
    lemma_split_appends_to_last_part(root, name);
    let parts = split_on_slash(root + name);
    assert(Seq::<u8>::empty() + name =~= name);
    assert(parts =~= seq![Seq::<u8>::empty(), name]);
    assert(parts.drop_last() =~= seq![Seq::<u8>::empty()]);
    assert(parts.drop_last().drop_last() =~= Seq::<Seq<u8>>::empty());
    assert(kept_parts(parts.drop_last().drop_last(), true) =~= Seq::<ComponentView>::empty());
    assert(!is_kept_part(Seq::<u8>::empty(), 0, true));
    assert(kept_parts(parts.drop_last(), true) =~= Seq::<ComponentView>::empty());
    assert(parts.last() == name);
    assert(is_kept_part(name, 1, true));
    assert(kept_parts(parts, true) =~= seq![ComponentView::Part(name)]);
    assert((root + name)[0] == 0x2F);
}

/// Two paths `/a` and `/b` with plain names are the same path exactly when `a == b`.
pub proof fn lemma_distinct_names_distinct_paths(a: Seq<u8>, b: Seq<u8>)
    requires
        a.len() > 0 && a != seq![0x2Eu8],
        b.len() > 0 && b != seq![0x2Eu8],
        forall|i: int| 0 <= i < a.len() ==> a[i] != 0x2F,
        forall|i: int| 0 <= i < b.len() ==> b[i] != 0x2F,
    ensures
        same_path_view(Some(seq![0x2Fu8] + a), Some(seq![0x2Fu8] + b)) <==> a == b,
{
    lemma_root_name_components(a);
    lemma_root_name_components(b);
    if path_components(seq![0x2Fu8] + a) == path_components(seq![0x2Fu8] + b) {
        assert(path_components(seq![0x2Fu8] + a)[1] == path_components(seq![0x2Fu8] + b)[1]);
    }
}

} // verus!
