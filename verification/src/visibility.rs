//! Declared visibilities and the one-level-outward rewrite.
//!
//! The private-metadata generator wraps a data definition in a fresh
//! module, which puts the definition one module deeper than it was
//! written. Every field's declared visibility is rewritten to compensate,
//! so that exactly the code that could see the field before the transform
//! can see it after. This module holds the syntactic model of a declared
//! visibility, the rewrite itself, and a semantic account of accessibility
//! under which the rewrite is proved to preserve it.

use vstd::prelude::*;

use crate::diagnostics::ExpandError;

verus! {

/// The mathematical value of one visibility-path segment.
pub enum SegView {
    /// The crate-root marker.
    KwCrate,
    /// The enclosing-scope marker.
    KwSuper,
    /// The current-scope marker.
    KwSelfScope,
    /// An ordinary module name.
    Named(Seq<char>),
}

/// One segment of a visibility path, as written in source.
#[derive(Clone, Debug, PartialEq, Eq)]
pub enum PathSeg {
    /// The crate-root marker, `crate`.
    KwCrate,
    /// The enclosing-scope marker, `super`.
    KwSuper,
    /// The current-scope marker, `self`.
    KwSelfScope,
    /// An ordinary module name.
    Named(String),
}

impl View for PathSeg {
    type V = SegView;

    open spec fn view(&self) -> SegView {
        match self {
            PathSeg::KwCrate => SegView::KwCrate,
            PathSeg::KwSuper => SegView::KwSuper,
            PathSeg::KwSelfScope => SegView::KwSelfScope,
            PathSeg::Named(n) => SegView::Named(n@),
        }
    }
}

/// The mathematical value of a declared visibility.
pub enum VisView {
    /// Fully public.
    Public,
    /// Restricted to the scope a path names.
    Restricted { in_token: bool, path: Seq<SegView> },
    /// No visibility written: private to the declaring module.
    Inherited,
}

/// A declared accessibility, as written in source: `pub`, `pub(crate)`,
/// `pub(super)`, `pub(self)`, `pub(in path)`, or nothing.
#[derive(Clone, Debug, PartialEq, Eq)]
pub enum Visibility {
    /// Fully public: `pub`.
    Public,
    /// Restricted to the scope a path names; `in_token` records whether
    /// the `in` keyword was written.
    Restricted { in_token: bool, path: Vec<PathSeg> },
    /// No visibility keyword: private to the declaring module.
    Inherited,
}

impl View for Visibility {
    type V = VisView;

    open spec fn view(&self) -> VisView {
        match self {
            Visibility::Public => VisView::Public,
            Visibility::Restricted { in_token, path } => VisView::Restricted {
                in_token: *in_token,
                path: path@.map_values(|s: PathSeg| s@),
            },
            Visibility::Inherited => VisView::Inherited,
        }
    }
}

/// A restricted visibility always names at least one path segment.
pub open spec fn vis_wf(v: VisView) -> bool {
    match v {
        VisView::Restricted { in_token, path } => path.len() >= 1,
        _ => true,
    }
}

/// The one-level-outward rewrite of a declared visibility, for a
/// definition that is about to move one module deeper:
/// `pub` stays; `crate`-rooted paths lose their last segment (unless the
/// path is the bare marker); `super`-rooted paths gain one more `super`;
/// the bare current-scope marker becomes the enclosing scope; an absent
/// visibility becomes an explicit restriction to the enclosing scope. A
/// path rooted at an ordinary name is not understood and is rejected.
pub open spec fn rewritten_vis(v: VisView) -> Option<VisView> {
    match v {
        VisView::Public => Some(VisView::Public),
        VisView::Inherited => Some(
            VisView::Restricted { in_token: false, path: seq![SegView::KwSuper] },
        ),
        VisView::Restricted { in_token, path } => match path[0] {
            SegView::KwCrate => Some(
                VisView::Restricted {
                    in_token,
                    path: if path.len() == 1 {
                        path
                    } else {
                        path.drop_last()
                    },
                },
            ),
            SegView::KwSuper => Some(
                VisView::Restricted { in_token: true, path: seq![SegView::KwSuper] + path },
            ),
            SegView::KwSelfScope => Some(
                VisView::Restricted { in_token, path: seq![SegView::KwSuper] },
            ),
            SegView::Named(_) => None,
        },
    }
}

/// A copy of one path segment.
pub fn clone_seg(s: &PathSeg) -> (r: PathSeg)
    ensures
        r == *s,
{
    match s {
        PathSeg::KwCrate => PathSeg::KwCrate,
        PathSeg::KwSuper => PathSeg::KwSuper,
        PathSeg::KwSelfScope => PathSeg::KwSelfScope,
        PathSeg::Named(n) => PathSeg::Named(n.clone()),
    }
}

/// A copy of the first `n` segments of a path.
pub fn clone_path_prefix(path: &Vec<PathSeg>, n: usize) -> (r: Vec<PathSeg>)
    requires
        n <= path@.len(),
    ensures
        r@ == path@.take(n as int),
{
    let mut out: Vec<PathSeg> = Vec::new();
    let mut i: usize = 0;
    while i < n
        invariant
            i <= n <= path@.len(),
            out@ == path@.take(i as int),
        decreases n - i,
    {
        out.push(clone_seg(&path[i]));
        proof {
            assert(out@ =~= path@.take(i as int + 1));
        }
        i = i + 1;
    }
    proof {
        assert(out@ =~= path@.take(n as int));
    }
    out
}

/// A copy of a declared visibility.
pub fn clone_vis(v: &Visibility) -> (r: Visibility)
    ensures
        r@ == v@,
        r is Public <==> v is Public,
{
    match v {
        Visibility::Public => Visibility::Public,
        Visibility::Inherited => Visibility::Inherited,
        Visibility::Restricted { in_token, path } => {
            let p2 = clone_path_prefix(path, path.len());
            proof {
                assert(p2@ =~= path@);
                assert(p2@.map_values(|s: PathSeg| s@) =~= path@.map_values(|s: PathSeg| s@));
            }
            Visibility::Restricted { in_token: *in_token, path: p2 }
        },
    }
}

/// Rewrite one field's declared visibility one nesting level outward, as
/// [`rewritten_vis`] lays it out, rejecting path shapes the generator
/// does not understand.
pub fn vis_prepend_super(vis: &Visibility) -> (r: Result<Visibility, ExpandError>)
    requires
        vis_wf(vis@),
    ensures
        rewritten_vis(vis@) matches Some(w) ==> (r matches Ok(v2) && v2@ == w),
        rewritten_vis(vis@) is None ==> r == Err::<Visibility, ExpandError>(
            ExpandError::UnexpectedVisibilityPath,
        ),
        r matches Ok(v2) ==> vis_wf(v2@),
{
    match vis {
        Visibility::Public => Ok(Visibility::Public),
        Visibility::Inherited => {
            let r = Visibility::Restricted { in_token: false, path: vec![PathSeg::KwSuper] };
            proof {
                assert(r@->Restricted_path =~= seq![SegView::KwSuper]);
            }
            Ok(r)
        },
        Visibility::Restricted { in_token, path } => match &path[0] {
            PathSeg::KwCrate => {
                let keep: usize = if path.len() == 1 {
                    1
                } else {
                    path.len() - 1
                };
                let p2 = clone_path_prefix(path, keep);
                let r = Visibility::Restricted { in_token: *in_token, path: p2 };
                proof {
                    let f = |s: PathSeg| s@;
                    let full = path@.map_values(f);
                    if path@.len() == 1 {
                        assert(p2@.map_values(f) =~= full);
                    } else {
                        assert(p2@.map_values(f) =~= full.drop_last());
                    }
                }
                Ok(r)
            },
            PathSeg::KwSuper => {
                let mut p2: Vec<PathSeg> = Vec::new();
                p2.push(PathSeg::KwSuper);
                let mut rest = clone_path_prefix(path, path.len());
                p2.append(&mut rest);
                let r = Visibility::Restricted { in_token: true, path: p2 };
                proof {
                    let f = |s: PathSeg| s@;
                    assert(p2@ =~= seq![PathSeg::KwSuper] + path@);
                    assert(p2@.map_values(f) =~= seq![SegView::KwSuper] + path@.map_values(f));
                }
                Ok(r)
            },
            PathSeg::KwSelfScope => {
                let r = Visibility::Restricted { in_token: *in_token, path: vec![
                    PathSeg::KwSuper,
                ] };
                proof {
                    assert(r@->Restricted_path =~= seq![SegView::KwSuper]);
                }
                Ok(r)
            },
            PathSeg::Named(_) => Err(ExpandError::UnexpectedVisibilityPath),
        },
    }
}

/// Whether module position `p` is `q` itself or one of its ancestors, so
/// that a member visible in the subtree of `p` can be seen from `q`.
pub open spec fn scope_covers(p: Seq<Seq<char>>, q: Seq<Seq<char>>) -> bool {
    p.len() <= q.len() && p == q.take(p.len() as int)
}

/// How many enclosing-scope markers a path starts with.
pub open spec fn leading_supers(path: Seq<SegView>) -> nat
    decreases path.len(),
{
    if path.len() > 0 && path[0] is KwSuper {
        1 + leading_supers(path.skip(1))
    } else {
        0
    }
}

/// A path has at least as many segments as leading enclosing-scope
/// markers.
pub proof fn lemma_leading_supers_le(path: Seq<SegView>)
    ensures
        leading_supers(path) <= path.len(),
    decreases path.len(),
{
    if path.len() > 0 && path[0] is KwSuper {
        lemma_leading_supers_le(path.skip(1));
    }
}

/// Whether every segment of a path is an ordinary module name.
pub open spec fn all_named(path: Seq<SegView>) -> bool {
    forall|i: int| 0 <= i < path.len() ==> path[i] is Named
}

/// The name a segment contributes to a module position.
pub open spec fn seg_name(s: SegView) -> Seq<char> {
    match s {
        SegView::Named(n) => n,
        _ => Seq::empty(),
    }
}

/// The module names a path's segments spell out.
pub open spec fn path_names(path: Seq<SegView>) -> Seq<Seq<char>> {
    path.map_values(|s: SegView| seg_name(s))
}

/// The restricted paths the accessibility model gives meaning to, for a
/// declaration sitting in module `m`: a crate-rooted path of names, a run
/// of enclosing-scope markers (not climbing past the crate root) followed
/// by names, or the bare current-scope marker.
pub open spec fn resolvable(path: Seq<SegView>, m: Seq<Seq<char>>) -> bool {
    if path.len() == 0 {
        false
    } else if path[0] is KwCrate {
        all_named(path.skip(1))
    } else if path[0] is KwSuper {
        let k = leading_supers(path);
        k <= m.len() && all_named(path.skip(k as int))
    } else if path[0] is KwSelfScope {
        path.len() == 1
    } else {
        false
    }
}

/// The module position a restricted path names, for a declaration in `m`.
pub open spec fn resolve(path: Seq<SegView>, m: Seq<Seq<char>>) -> Seq<Seq<char>> {
    if path[0] is KwCrate {
        path_names(path.skip(1))
    } else if path[0] is KwSuper {
        let k = leading_supers(path);
        m.take((m.len() - k) as int) + path_names(path.skip(k as int))
    } else {
        m
    }
}

/// Whether code in module `observer` can see a member declared in module
/// `decl` with visibility `vis`. Module positions are name sequences from
/// the crate root; access from outside the crate is out of scope.
pub open spec fn accessible_from(
    vis: VisView,
    decl: Seq<Seq<char>>,
    observer: Seq<Seq<char>>,
) -> bool {
    match vis {
        VisView::Public => true,
        VisView::Inherited => scope_covers(decl, observer),
        VisView::Restricted { in_token, path } => scope_covers(resolve(path, decl), observer),
    }
}

/// The one-level-outward rewrite preserves effective accessibility: a
/// field declared in module `m` and then moved into the wrapper module
/// `m::wrapper` with the rewritten visibility can be seen from exactly
/// the observers that could see it before.
///
/// A crate-rooted path longer than the bare marker is excluded: dropping
/// its last segment widens the scope by one module level, so such a
/// declaration does not keep its accessibility under the rewrite.
pub proof fn lemma_rewrite_preserves_accessibility(
    vis: VisView,
    m: Seq<Seq<char>>,
    wrapper: Seq<char>,
    observer: Seq<Seq<char>>,
)
    requires
        vis_wf(vis),
        vis matches VisView::Restricted { in_token, path } ==> resolvable(path, m) && !(path[0]
            is KwCrate && path.len() > 1),
    ensures
        rewritten_vis(vis) is Some,
        accessible_from(rewritten_vis(vis)->Some_0, m.push(wrapper), observer) == accessible_from(
            vis,
            m,
            observer,
        ),
{
    let m2 = m.push(wrapper);
    let lone_super = seq![SegView::KwSuper];
    assert(lone_super.skip(1) =~= Seq::<SegView>::empty());
    assert(leading_supers(Seq::<SegView>::empty()) == 0);
    assert(leading_supers(lone_super) == 1);
    assert(path_names(Seq::<SegView>::empty()) =~= Seq::<Seq<char>>::empty());
    assert(m2.take(m.len() as int) =~= m);
    assert(m + Seq::<Seq<char>>::empty() =~= m);
    match vis {
        VisView::Public => {},
        VisView::Inherited => {
            assert(resolve(lone_super, m2) =~= m);
        },
        VisView::Restricted { in_token, path } => {
            if path[0] is KwCrate {
                assert(path.len() == 1);
                assert(rewritten_vis(vis)->Some_0 == VisView::Restricted { in_token, path });
                assert(path.skip(1) =~= Seq::<SegView>::empty());
                assert(resolve(path, m2) =~= resolve(path, m));
            } else if path[0] is KwSuper {
                let k = leading_supers(path);
                let p2 = lone_super + path;
                lemma_leading_supers_le(path);
                assert(p2.skip(1) =~= path);
                assert(leading_supers(p2) == 1 + k);
                assert(k >= 1);
                assert(p2.skip(k as int + 1) =~= path.skip(k as int));
                assert(m2.take((m2.len() - (k + 1)) as int) =~= m.take((m.len() - k) as int));
                assert(resolve(p2, m2) =~= resolve(path, m));
            } else {
                assert(path[0] is KwSelfScope);
                assert(path.len() == 1);
                assert(resolve(lone_super, m2) =~= m);
                assert(resolve(path, m) == m);
            }
        },
    }
}

/// A field with no written visibility is private to its module: after the
/// transform it is still invisible to a sibling of the module that
/// declared it.
pub proof fn lemma_private_field_invisible_to_sibling(
    parent: Seq<Seq<char>>,
    child: Seq<char>,
    sibling: Seq<char>,
    wrapper: Seq<char>,
)
    requires
        child != sibling,
    ensures
        !accessible_from(
            rewritten_vis(VisView::Inherited)->Some_0,
            parent.push(child).push(wrapper),
            parent.push(sibling),
        ),
{
    let decl = parent.push(child);
    lemma_rewrite_preserves_accessibility(VisView::Inherited, decl, wrapper, parent.push(sibling));
    assert(!scope_covers(decl, parent.push(sibling))) by {
        if scope_covers(decl, parent.push(sibling)) {
            assert(parent.push(sibling).take(decl.len() as int) =~= parent.push(sibling));
            assert(decl[parent.len() as int] == child);
        }
    }
}

/// A field restricted to the enclosing scope stays invisible to modules
/// one level further out after the transform.
pub proof fn lemma_super_field_invisible_above(m: Seq<Seq<char>>, wrapper: Seq<char>)
    requires
        m.len() >= 2,
    ensures
        !accessible_from(
            rewritten_vis(
                VisView::Restricted { in_token: false, path: seq![SegView::KwSuper] },
            )->Some_0,
            m.push(wrapper),
            m.take(m.len() - 2),
        ),
{
    let vis = VisView::Restricted { in_token: false, path: seq![SegView::KwSuper] };
    let lone_super = seq![SegView::KwSuper];
    assert(lone_super.skip(1) =~= Seq::<SegView>::empty());
    assert(leading_supers(Seq::<SegView>::empty()) == 0);
    assert(leading_supers(lone_super) == 1);
    lemma_rewrite_preserves_accessibility(vis, m, wrapper, m.take(m.len() - 2));
    assert(resolve(lone_super, m).len() == m.len() - 1) by {
        assert(path_names(Seq::<SegView>::empty()) =~= Seq::<Seq<char>>::empty());
        assert(m.take((m.len() - 1) as int) + Seq::<Seq<char>>::empty() =~= m.take(
            (m.len() - 1) as int,
        ));
    }
}

} // verus!
