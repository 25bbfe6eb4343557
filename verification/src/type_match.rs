//! Runtime `IsType` matching against a type template.
//!
//! A `match`/`is` pattern template is complete: given the enclosing frame's
//! realized type arguments it denotes exactly one type. Matching therefore
//! substitutes the frame into the template and asks one covariant membership
//! question ([`is_subtype`]): a value belongs to `int | string` iff its
//! concrete type is a subtype, while generic argument positions are related
//! invariantly (`int[]` is not `string[]`, `Foo<int>` is not `Foo<string>`).
//!
//! The algebra here is the structural one, with no program facts: no aliases,
//! no interface memberships, no bounds. Heads are compared by tag.
use vstd::prelude::*;
use crate::ty::{Literal, Ty, TyView, TypeHead, lemma_tys_view, lemma_tys_view_ext, tys_view};

verus! {

/// The number of nodes of `t`.
pub open spec fn view_size(t: TyView) -> nat
    decreases t,
{
    match t {
        TyView::Class(_, xs) => 1 + views_size(xs),
        TyView::List(e) => 1 + view_size(*e),
        TyView::Dict(k, v) => 1 + view_size(*k) + view_size(*v),
        TyView::Union(xs) => 1 + views_size(xs),
        _ => 1,
    }
}

/// The number of nodes of the types of `xs`.
pub open spec fn views_size(xs: Seq<TyView>) -> nat
    decreases xs,
{
    if xs.len() == 0 {
        0
    } else {
        views_size(xs.drop_last()) + view_size(xs.last())
    }
}

proof fn lemma_views_size(xs: Seq<TyView>, i: int)
    requires
        0 <= i < xs.len(),
    ensures
        view_size(xs[i]) <= views_size(xs),
    decreases xs.len(),
{
    if i < xs.len() - 1 {
        lemma_views_size(xs.drop_last(), i);
        assert(xs.drop_last()[i] == xs[i]);
    }
}

/// Each type of `xs` is no bigger than all of them together.
pub proof fn lemma_views_size_all(xs: Seq<TyView>)
    ensures
        forall|i: int| 0 <= i < xs.len() ==> view_size(#[trigger] xs[i]) <= views_size(xs),
{
    assert forall|i: int| 0 <= i < xs.len() implies view_size(#[trigger] xs[i]) <= views_size(
        xs,
    ) by {
        lemma_views_size(xs, i);
    }
}

/// Every type has at least one node.
pub proof fn lemma_view_size_pos(t: TyView)
    ensures
        view_size(t) >= 1,
{
}

/// `a` is a subtype of `b`: every value of type `a` is a member of `b`.
///
/// A union is a subtype when each of its members is; a type is a subtype of
/// a union when it is a subtype of one of its arms; a literal widens into its
/// base type; list elements, map keys and values and class type arguments
/// are related invariantly (by equivalence); otherwise the types must agree.
pub open spec fn subtype(a: TyView, b: TyView) -> bool
    decreases view_size(a) + view_size(b), 0nat,
{
    if let TyView::Union(xs) = a {
        all_subtype(xs, b)
    } else if let TyView::Union(ys) = b {
        some_supertype(a, ys)
    } else {
        match a {
            TyView::Literal(Literal::Int(_)) => b is Int || a == b,
            TyView::Literal(Literal::Bool(_)) => b is Bool || a == b,
            TyView::List(x) => match b {
                TyView::List(y) => subtype(*x, *y) && subtype(*y, *x),
                _ => false,
            },
            TyView::Dict(k1, v1) => match b {
                TyView::Dict(k2, v2) => subtype(*k1, *k2) && subtype(*k2, *k1) && subtype(*v1, *v2)
                    && subtype(*v2, *v1),
                _ => false,
            },
            TyView::Class(h1, xs) => match b {
                TyView::Class(h2, ys) => h1.tag == h2.tag && xs.len() == ys.len()
                    && all_equivalent(xs, ys),
                _ => false,
            },
            TyView::Enum(h1) => match b {
                TyView::Enum(h2) => h1.tag == h2.tag,
                _ => false,
            },
            _ => a == b,
        }
    }
}

/// Every type of `xs` is a subtype of `b`.
pub open spec fn all_subtype(xs: Seq<TyView>, b: TyView) -> bool
    decreases views_size(xs) + view_size(b), 1nat,
{
    if xs.len() == 0 {
        true
    } else {
        proof {
            lemma_view_size_pos(xs.last());
        }
        all_subtype(xs.drop_last(), b) && subtype(xs.last(), b)
    }
}

/// `a` is a subtype of some type of `ys`.
pub open spec fn some_supertype(a: TyView, ys: Seq<TyView>) -> bool
    decreases view_size(a) + views_size(ys), 1nat,
{
    if ys.len() == 0 {
        false
    } else {
        proof {
            lemma_view_size_pos(ys.last());
        }
        some_supertype(a, ys.drop_last()) || subtype(a, ys.last())
    }
}

/// The types of `xs` and `ys` are pairwise equivalent (as far as both go).
pub open spec fn all_equivalent(xs: Seq<TyView>, ys: Seq<TyView>) -> bool
    decreases views_size(xs) + views_size(ys), 1nat,
{
    if xs.len() == 0 || ys.len() == 0 {
        true
    } else {
        proof {
            lemma_view_size_pos(xs.last());
            lemma_view_size_pos(ys.last());
        }
        all_equivalent(xs.drop_last(), ys.drop_last()) && subtype(xs.last(), ys.last()) && subtype(
            ys.last(),
            xs.last(),
        )
    }
}

/// `a` and `b` denote the same type: each is a subtype of the other.
pub open spec fn equivalent(a: TyView, b: TyView) -> bool {
    subtype(a, b) && subtype(b, a)
}

/// A union is a subtype exactly when each of its members is.
pub proof fn lemma_all_subtype(xs: Seq<TyView>, b: TyView)
    ensures
        all_subtype(xs, b) == (forall|i: int| 0 <= i < xs.len() ==> #[trigger] subtype(xs[i], b)),
    decreases xs.len(),
{
    if xs.len() > 0 {
        lemma_all_subtype(xs.drop_last(), b);
        assert(all_subtype(xs, b) == (all_subtype(xs.drop_last(), b) && subtype(xs[xs.len() - 1], b)));
        if all_subtype(xs, b) {
            assert forall|i: int| 0 <= i < xs.len() implies #[trigger] subtype(xs[i], b) by {
                if i < xs.len() - 1 {
                    assert(xs.drop_last()[i] == xs[i]);
                }
            }
        }
        if forall|i: int| 0 <= i < xs.len() ==> #[trigger] subtype(xs[i], b) {
            assert forall|i: int| 0 <= i < xs.drop_last().len() implies #[trigger] subtype(
                xs.drop_last()[i],
                b,
            ) by {
                assert(xs.drop_last()[i] == xs[i]);
            }
        }
    }
}

/// A type is a subtype of some arm exactly when one arm is a supertype.
pub proof fn lemma_some_supertype(a: TyView, ys: Seq<TyView>)
    ensures
        some_supertype(a, ys) == (exists|i: int| 0 <= i < ys.len() && #[trigger] subtype(a, ys[i])),
    decreases ys.len(),
{
    if ys.len() > 0 {
        lemma_some_supertype(a, ys.drop_last());
        assert(some_supertype(a, ys) == (some_supertype(a, ys.drop_last()) || subtype(a, ys[ys.len() - 1])));
        if some_supertype(a, ys.drop_last()) {
            let i = choose|i: int| 0 <= i < ys.drop_last().len() && #[trigger] subtype(
                a,
                ys.drop_last()[i],
            );
            assert(ys.drop_last()[i] == ys[i]);
        }
        if exists|i: int| 0 <= i < ys.len() && #[trigger] subtype(a, ys[i]) {
            let i = choose|i: int| 0 <= i < ys.len() && #[trigger] subtype(a, ys[i]);
            if i < ys.len() - 1 {
                assert(ys.drop_last()[i] == ys[i]);
            }
        }
    }
}

/// Sequences of equal length are pairwise equivalent exactly when each pair
/// is.
pub proof fn lemma_all_equivalent(xs: Seq<TyView>, ys: Seq<TyView>)
    requires
        xs.len() == ys.len(),
    ensures
        all_equivalent(xs, ys) == (forall|i: int|
            0 <= i < xs.len() ==> #[trigger] equivalent(xs[i], ys[i])),
    decreases xs.len(),
{
    if xs.len() > 0 {
        lemma_all_equivalent(xs.drop_last(), ys.drop_last());
        if all_equivalent(xs, ys) {
            assert forall|i: int| 0 <= i < xs.len() implies #[trigger] equivalent(xs[i], ys[i]) by {
                if i < xs.len() - 1 {
                    assert(xs.drop_last()[i] == xs[i]);
                    assert(ys.drop_last()[i] == ys[i]);
                }
            }
        }
        if forall|i: int| 0 <= i < xs.len() ==> #[trigger] equivalent(xs[i], ys[i]) {
            assert forall|i: int| 0 <= i < xs.drop_last().len() implies #[trigger] equivalent(
                xs.drop_last()[i],
                ys.drop_last()[i],
            ) by {
                assert(xs.drop_last()[i] == xs[i]);
                assert(ys.drop_last()[i] == ys[i]);
            }
            assert(equivalent(xs[xs.len() - 1], ys[ys.len() - 1]));
        }
    }
}

/// Whether `sub` is a subtype of `sup`.
pub fn is_subtype(sub: &Ty, sup: &Ty) -> (r: bool)
    ensures
        r == subtype(sub@, sup@),
    decreases view_size(sub@) + view_size(sup@),
{
    if let Ty::Union(xs) = sub {
        proof {
            lemma_tys_view(xs@);
            lemma_views_size_all(tys_view(xs@));
        }
        let n = xs.len();
        let mut i: usize = 0;
        while i < n
            invariant
                n == xs.len(),
                i <= n,
                sub@ == TyView::Union(tys_view(xs@)),
                tys_view(xs@).len() == n,
                forall|j: int| 0 <= j < n ==> #[trigger] tys_view(xs@)[j] == xs@[j]@,
                forall|j: int|
                    0 <= j < n ==> view_size(#[trigger] tys_view(xs@)[j]) <= views_size(
                        tys_view(xs@),
                    ),
                forall|j: int| 0 <= j < i ==> #[trigger] subtype(tys_view(xs@)[j], sup@),
            decreases n - i,
        {
            assert(tys_view(xs@)[i as int] == xs@[i as int]@);
            if !is_subtype(&xs[i], sup) {
                proof {
                    lemma_all_subtype(tys_view(xs@), sup@);
                }
                return false;
            }
            i = i + 1;
        }
        proof {
            lemma_all_subtype(tys_view(xs@), sup@);
        }
        return true;
    }
    if let Ty::Union(ys) = sup {
        proof {
            lemma_tys_view(ys@);
            lemma_views_size_all(tys_view(ys@));
        }
        let n = ys.len();
        let mut i: usize = 0;
        while i < n
            invariant
                n == ys.len(),
                i <= n,
                !(sub@ is Union),
                sup@ == TyView::Union(tys_view(ys@)),
                tys_view(ys@).len() == n,
                forall|j: int| 0 <= j < n ==> #[trigger] tys_view(ys@)[j] == ys@[j]@,
                forall|j: int|
                    0 <= j < n ==> view_size(#[trigger] tys_view(ys@)[j]) <= views_size(
                        tys_view(ys@),
                    ),
                forall|j: int| 0 <= j < i ==> !#[trigger] subtype(sub@, tys_view(ys@)[j]),
            decreases n - i,
        {
            assert(tys_view(ys@)[i as int] == ys@[i as int]@);
            if is_subtype(sub, &ys[i]) {
                proof {
                    lemma_some_supertype(sub@, tys_view(ys@));
                }
                return true;
            }
            i = i + 1;
        }
        proof {
            lemma_some_supertype(sub@, tys_view(ys@));
        }
        return false;
    }
    match sub {
        Ty::Literal(Literal::Int(x)) => match sup {
            Ty::Int => true,
            Ty::Literal(Literal::Int(y)) => *x == *y,
            _ => false,
        },
        Ty::Literal(Literal::Bool(x)) => match sup {
            Ty::Bool => true,
            Ty::Literal(Literal::Bool(y)) => *x == *y,
            _ => false,
        },
        Ty::List(x) => match sup {
            Ty::List(y) => is_subtype(x, y) && is_subtype(y, x),
            _ => false,
        },
        Ty::Dict(k1, v1) => match sup {
            Ty::Dict(k2, v2) => is_subtype(k1, k2) && is_subtype(k2, k1) && is_subtype(v1, v2)
                && is_subtype(v2, v1),
            _ => false,
        },
        Ty::Class(h1, xs) => match sup {
            Ty::Class(h2, ys) => {
                if h1.tag != h2.tag || xs.len() != ys.len() {
                    proof {
                        lemma_tys_view(xs@);
                        lemma_tys_view(ys@);
                    }
                    return false;
                }
                proof {
                    lemma_tys_view(xs@);
                    lemma_tys_view(ys@);
                    lemma_views_size_all(tys_view(xs@));
                    lemma_views_size_all(tys_view(ys@));
                }
                let n = xs.len();
                let mut i: usize = 0;
                while i < n
                    invariant
                        n == xs.len(),
                        n == ys.len(),
                        i <= n,
                        sub@ == TyView::Class(*h1, tys_view(xs@)),
                        sup@ == TyView::Class(*h2, tys_view(ys@)),
                        tys_view(xs@).len() == n,
                        tys_view(ys@).len() == n,
                        forall|j: int| 0 <= j < n ==> #[trigger] tys_view(xs@)[j] == xs@[j]@,
                        forall|j: int| 0 <= j < n ==> #[trigger] tys_view(ys@)[j] == ys@[j]@,
                        forall|j: int|
                            0 <= j < n ==> view_size(#[trigger] tys_view(xs@)[j]) <= views_size(
                                tys_view(xs@),
                            ),
                        forall|j: int|
                            0 <= j < n ==> view_size(#[trigger] tys_view(ys@)[j]) <= views_size(
                                tys_view(ys@),
                            ),
                        forall|j: int|
                            0 <= j < i ==> #[trigger] equivalent(tys_view(xs@)[j], tys_view(ys@)[j]),
                    decreases n - i,
                {
                    assert(tys_view(xs@)[i as int] == xs@[i as int]@);
                    assert(tys_view(ys@)[i as int] == ys@[i as int]@);
                    if !(is_subtype(&xs[i], &ys[i]) && is_subtype(&ys[i], &xs[i])) {
                        proof {
                            lemma_all_equivalent(tys_view(xs@), tys_view(ys@));
                            assert(!equivalent(tys_view(xs@)[i as int], tys_view(ys@)[i as int]));
                        }
                        return false;
                    }
                    assert(equivalent(tys_view(xs@)[i as int], tys_view(ys@)[i as int]));
                    i = i + 1;
                }
                proof {
                    lemma_all_equivalent(tys_view(xs@), tys_view(ys@));
                }
                true
            },
            _ => false,
        },
        Ty::Enum(h1) => match sup {
            Ty::Enum(h2) => h1.tag == h2.tag,
            _ => false,
        },
        Ty::Int => matches!(sup, Ty::Int),
        Ty::Float => matches!(sup, Ty::Float),
        Ty::String => matches!(sup, Ty::String),
        Ty::Bool => matches!(sup, Ty::Bool),
        Ty::Null => matches!(sup, Ty::Null),
        Ty::TypeArgRef(i) => match sup {
            Ty::TypeArgRef(j) => *i == *j,
            _ => false,
        },
        Ty::Union(_) => false,
    }
}

/// Whether `a` and `b` denote the same type.
pub fn is_equivalent(a: &Ty, b: &Ty) -> (r: bool)
    ensures
        r == equivalent(a@, b@),
{
    is_subtype(a, b) && is_subtype(b, a)
}

/// `t` with each frame reference `TypeArgRef(i)` replaced by `frame[i]`
/// (references past the frame are left in place).
pub open spec fn subst(t: TyView, frame: Seq<TyView>) -> TyView
    decreases t,
{
    match t {
        TyView::TypeArgRef(i) => if i < frame.len() {
            frame[i as int]
        } else {
            t
        },
        TyView::Class(h, xs) => TyView::Class(h, substs(xs, frame)),
        TyView::List(e) => TyView::List(Box::new(subst(*e, frame))),
        TyView::Dict(k, v) => TyView::Dict(Box::new(subst(*k, frame)), Box::new(subst(*v, frame))),
        TyView::Union(xs) => TyView::Union(substs(xs, frame)),
        _ => t,
    }
}

/// Each type of `xs`, substituted.
pub open spec fn substs(xs: Seq<TyView>, frame: Seq<TyView>) -> Seq<TyView>
    decreases xs,
{
    if xs.len() == 0 {
        Seq::empty()
    } else {
        substs(xs.drop_last(), frame).push(subst(xs.last(), frame))
    }
}

/// The frame references of `t` that a frame of `n` slots does not supply, in
/// the order they occur.
pub open spec fn unbound(t: TyView, n: nat) -> Seq<usize>
    decreases t,
{
    match t {
        TyView::TypeArgRef(i) => if i < n {
            Seq::empty()
        } else {
            seq![i]
        },
        TyView::Class(_, xs) => unbounds(xs, n),
        TyView::List(e) => unbound(*e, n),
        TyView::Dict(k, v) => unbound(*k, n) + unbound(*v, n),
        TyView::Union(xs) => unbounds(xs, n),
        _ => Seq::empty(),
    }
}

/// The unsupplied frame references of each type of `xs` in turn.
pub open spec fn unbounds(xs: Seq<TyView>, n: nat) -> Seq<usize>
    decreases xs,
{
    if xs.len() == 0 {
        Seq::empty()
    } else {
        unbounds(xs.drop_last(), n) + unbound(xs.last(), n)
    }
}

proof fn lemma_unbounds_append(a: Seq<TyView>, b: Seq<TyView>, n: nat)
    ensures
        unbounds(a + b, n) == unbounds(a, n) + unbounds(b, n),
    decreases b.len(),
{
    if b.len() == 0 {
        assert(a + b =~= a);
        assert(unbounds(a, n) + unbounds(b, n) =~= unbounds(a, n));
    } else {
        assert((a + b).drop_last() =~= a + b.drop_last());
        assert((a + b).last() == b.last());
        lemma_unbounds_append(a, b.drop_last(), n);
        assert(unbounds(a, n) + unbounds(b.drop_last(), n) + unbound(b.last(), n) =~= unbounds(a, n)
            + (unbounds(b.drop_last(), n) + unbound(b.last(), n)));
    }
}

/// The frame, as values.
pub open spec fn frame_view(frame: Seq<Ty>) -> Seq<TyView> {
    frame.map_values(|t: Ty| t@)
}

/// `t` holds no frame reference: it is realized.
pub open spec fn realized(t: TyView) -> bool {
    unbound(t, 0).len() == 0
}

/// Every type argument of `frame` is realized, as the type arguments of a
/// running frame are.
pub open spec fn frame_realized(frame: Seq<Ty>) -> bool {
    forall|i: int| 0 <= i < frame.len() ==> realized(#[trigger] frame[i]@)
}

/// A frame reference that the frame does not supply.
#[derive(Debug, Clone, Copy, PartialEq, Eq)]
pub struct UnboundTypeArg {
    pub index: usize,
}

/// The outcome `substitute` gives for `t` against a frame of the given values.
pub open spec fn substitution(t: TyView, frame: Seq<TyView>) -> Result<TyView, UnboundTypeArg> {
    let missing = unbound(t, frame.len());
    if missing.len() == 0 {
        Ok(subst(t, frame))
    } else {
        Err(UnboundTypeArg { index: missing[0] })
    }
}

impl Ty {
    /// This template with the frame's type arguments put in for its frame
    /// references; the first reference the frame does not supply is an error.
    pub fn substitute(&self, frame_type_args: &[Ty]) -> (r: Result<Ty, UnboundTypeArg>)
        requires
            frame_realized(frame_type_args@),
        ensures
            match r {
                Ok(t) => substitution(self@, frame_view(frame_type_args@)) == Ok::<
                    TyView,
                    UnboundTypeArg,
                >(t@),
                Err(e) => substitution(self@, frame_view(frame_type_args@)) == Err::<
                    TyView,
                    UnboundTypeArg,
                >(e),
            },
        decreases self,
    {
        let ghost n = frame_type_args@.len();
        match self {
            Ty::TypeArgRef(i) => {
                if *i < frame_type_args.len() {
                    Ok(frame_type_args[*i].copy())
                } else {
                    Err(UnboundTypeArg { index: *i })
                }
            },
            Ty::Class(h, xs) => {
                match substitute_tys(xs, frame_type_args) {
                    Ok(ys) => Ok(Ty::Class(*h, ys)),
                    Err(e) => Err(e),
                }
            },
            Ty::List(e) => {
                match e.substitute(frame_type_args) {
                    Ok(t) => Ok(Ty::List(Box::new(t))),
                    Err(err) => Err(err),
                }
            },
            Ty::Dict(k, v) => {
                match k.substitute(frame_type_args) {
                    Ok(k2) => {
                        match v.substitute(frame_type_args) {
                            Ok(v2) => {
                                assert(unbound(k@, n) + unbound(v@, n) =~= Seq::<usize>::empty());
                                Ok(Ty::Dict(Box::new(k2), Box::new(v2)))
                            },
                            Err(err) => {
                                assert(unbound(k@, n) + unbound(v@, n) =~= unbound(v@, n));
                                Err(err)
                            },
                        }
                    },
                    Err(err) => Err(err),
                }
            },
            Ty::Union(xs) => {
                match substitute_tys(xs, frame_type_args) {
                    Ok(ys) => Ok(Ty::Union(ys)),
                    Err(e) => Err(e),
                }
            },
            Ty::Int => Ok(Ty::Int),
            Ty::Float => Ok(Ty::Float),
            Ty::String => Ok(Ty::String),
            Ty::Bool => Ok(Ty::Bool),
            Ty::Null => Ok(Ty::Null),
            Ty::Literal(l) => Ok(Ty::Literal(*l)),
            Ty::Enum(h) => Ok(Ty::Enum(*h)),
        }
    }
}

/// Each type of `xs`, substituted; the first failure is the error.
fn substitute_tys(xs: &Vec<Ty>, frame_type_args: &[Ty]) -> (r: Result<Vec<Ty>, UnboundTypeArg>)
    requires
        frame_realized(frame_type_args@),
    ensures
        match r {
            Ok(ys) => unbounds(tys_view(xs@), frame_type_args@.len()).len() == 0 && tys_view(ys@)
                == substs(tys_view(xs@), frame_view(frame_type_args@)),
            Err(e) => unbounds(tys_view(xs@), frame_type_args@.len()).len() > 0 && e.index
                == unbounds(tys_view(xs@), frame_type_args@.len())[0],
        },
    decreases xs@,
{
    let ghost n = frame_type_args@.len();
    let ghost fv = frame_view(frame_type_args@);
    let ghost vs = tys_view(xs@);
    proof {
        lemma_tys_view(xs@);
    }
    let mut ys: Vec<Ty> = Vec::new();
    let len = xs.len();
    let mut i: usize = 0;
    assert(vs.take(0) =~= Seq::<TyView>::empty());
    while i < len
        invariant
            len == xs.len(),
            i <= len,
            vs == tys_view(xs@),
            vs.len() == len,
            n == frame_type_args@.len(),
            fv == frame_view(frame_type_args@),
            frame_realized(frame_type_args@),
            forall|j: int| 0 <= j < len ==> #[trigger] vs[j] == xs@[j]@,
            unbounds(vs.take(i as int), n).len() == 0,
            tys_view(ys@) == substs(vs.take(i as int), fv),
        decreases len - i,
    {
        assert(decreases_to!(xs@ => xs@[i as int]));
        let ghost ys0 = ys@;
        assert(vs.take(i + 1).drop_last() =~= vs.take(i as int));
        assert(vs.take(i + 1).last() == vs[i as int]);
        match xs[i].substitute(frame_type_args) {
            Ok(t) => {
                ys.push(t);
                assert(ys@.drop_last() =~= ys0);
                assert(unbounds(vs.take(i as int), n) + unbound(vs[i as int], n) =~= Seq::<
                    usize,
                >::empty());
            },
            Err(e) => {
                proof {
                    lemma_unbounds_append(vs.take(i + 1), vs.skip(i + 1), n);
                    assert(vs.take(i + 1) + vs.skip(i + 1) =~= vs);
                    assert(unbounds(vs.take(i as int), n) + unbound(vs[i as int], n) =~= unbound(
                        vs[i as int],
                        n,
                    ));
                }
                return Err(e);
            },
        }
        i = i + 1;
    }
    assert(vs.take(len as int) =~= vs);
    Ok(ys)
}

/// An internal error of the virtual machine: a broken compiler or VM
/// invariant, surfaced rather than silently mis-answering.
#[derive(Debug, Clone, Copy, PartialEq, Eq)]
pub enum VmInternalError {
    /// A pattern template references frame slot `slot`, which the seeded
    /// frame does not supply.
    TypeSubstitution { slot: usize },
}

/// What a failed substitution is reported as.
pub open spec fn substitution_error(e: UnboundTypeArg) -> VmInternalError {
    VmInternalError::TypeSubstitution { slot: e.index }
}

/// What matching a value of concrete type `value_ty` (if it has one) against
/// `template` under `frame` gives.
pub open spec fn template_match(
    value_ty: Option<TyView>,
    template: TyView,
    frame: Seq<TyView>,
) -> Result<bool, VmInternalError> {
    match value_ty {
        None => Ok(false),
        Some(t) => match substitution(template, frame) {
            Ok(expected) => Ok(subtype(t, expected)),
            Err(e) => Err(substitution_error(e)),
        },
    }
}

/// What relating a class type argument `actual` to `template` under `frame`
/// gives.
pub open spec fn type_arg_match(
    template: TyView,
    frame: Seq<TyView>,
    actual: TyView,
) -> Result<bool, VmInternalError> {
    match substitution(template, frame) {
        Ok(expected) => Ok(equivalent(actual, expected)),
        Err(e) => Err(substitution_error(e)),
    }
}

/// The value of an optional type.
pub open spec fn opt_view(t: Option<&Ty>) -> Option<TyView> {
    match t {
        Some(t) => Some(t@),
        None => None,
    }
}

/// Whether a value of concrete type `value_ty` is a member of the type
/// denoted by `template`, with the enclosing frame's realized
/// `frame_type_args` resolving the template's frame references. The `IsType`
/// matcher for `match` and `is` expressions.
///
/// A value with no concrete type (`None`: an opaque native handle, or a
/// compile-time definition object) is a member of no structural type. A frame
/// reference the frame does not supply is an internal error.
pub fn value_matches_template(
    value_ty: Option<&Ty>,
    template: &Ty,
    frame_type_args: &[Ty],
) -> (r: Result<bool, VmInternalError>)
    requires
        frame_realized(frame_type_args@),
    ensures
        r == template_match(opt_view(value_ty), template@, frame_view(frame_type_args@)),
{
    let value_ty = match value_ty {
        Some(t) => t,
        None => return Ok(false),
    };
    let expected = match template.substitute(frame_type_args) {
        Ok(t) => t,
        Err(e) => return Err(VmInternalError::TypeSubstitution { slot: e.index }),
    };
    Ok(is_subtype(value_ty, &expected))
}

/// Whether `actual` is invariantly the type denoted by `template` (resolved
/// against `frame_type_args`): one class type-argument position of a
/// class-with-type-arguments check. Generics are invariant, so the relation
/// is equivalence, not membership. A frame reference the frame does not
/// supply is an internal error.
pub fn class_type_arg_matches(
    template: &Ty,
    frame_type_args: &[Ty],
    actual: &Ty,
) -> (r: Result<bool, VmInternalError>)
    requires
        frame_realized(frame_type_args@),
    ensures
        r == type_arg_match(template@, frame_view(frame_type_args@), actual@),
{
    let expected = match template.substitute(frame_type_args) {
        Ok(t) => t,
        Err(e) => return Err(VmInternalError::TypeSubstitution { slot: e.index }),
    };
    Ok(is_equivalent(actual, &expected))
}

/// A type is a subtype of a union as soon as it is a subtype of one of the
/// union's arms: membership is covariant at the top level.
pub proof fn lemma_subtype_of_arm(a: TyView, ys: Seq<TyView>, i: int)
    requires
        0 <= i < ys.len(),
        subtype(a, ys[i]),
    ensures
        subtype(a, TyView::Union(ys)),
    decreases a,
{
    if let TyView::Union(xs) = a {
        lemma_all_subtype(xs, ys[i]);
        assert forall|j: int| 0 <= j < xs.len() implies #[trigger] subtype(
            xs[j],
            TyView::Union(ys),
        ) by {
            lemma_subtype_of_arm(xs[j], ys, i);
        }
        lemma_all_subtype(xs, TyView::Union(ys));
    } else {
        lemma_some_supertype(a, ys);
    }
}

/// Every type is a subtype of itself.
pub proof fn lemma_subtype_reflexive(t: TyView)
    ensures
        subtype(t, t),
    decreases t,
{
    match t {
        TyView::Union(xs) => {
            assert forall|j: int| 0 <= j < xs.len() implies #[trigger] subtype(xs[j], t) by {
                lemma_subtype_reflexive(xs[j]);
                lemma_subtype_of_arm(xs[j], xs, j);
            }
            lemma_all_subtype(xs, t);
        },
        TyView::List(x) => {
            lemma_subtype_reflexive(*x);
        },
        TyView::Dict(k, v) => {
            lemma_subtype_reflexive(*k);
            lemma_subtype_reflexive(*v);
        },
        TyView::Class(h, xs) => {
            assert forall|j: int| 0 <= j < xs.len() implies #[trigger] equivalent(xs[j], xs[j]) by {
                lemma_subtype_reflexive(xs[j]);
            }
            lemma_all_equivalent(xs, xs);
        },
        _ => {},
    }
}

/// Equivalence is reflexive and symmetric.
pub proof fn lemma_equivalent_reflexive_symmetric(a: TyView, b: TyView)
    ensures
        equivalent(a, a),
        equivalent(a, b) == equivalent(b, a),
{
    lemma_subtype_reflexive(a);
}

/// A literal type widens into its base type.
pub proof fn lemma_literal_widens(n: i64, b: bool)
    ensures
        subtype(TyView::Literal(Literal::Int(n)), TyView::Int),
        subtype(TyView::Literal(Literal::Bool(b)), TyView::Bool),
        !subtype(TyView::Int, TyView::Literal(Literal::Int(n))),
{
}

/// List elements and map entries are related invariantly: one list type is a
/// subtype of another exactly when their element types are equivalent.
pub proof fn lemma_generic_args_invariant(x: TyView, y: TyView, k1: TyView, k2: TyView)
    ensures
        subtype(TyView::List(Box::new(x)), TyView::List(Box::new(y))) == equivalent(x, y),
        subtype(TyView::Dict(Box::new(k1), Box::new(x)), TyView::Dict(Box::new(k2), Box::new(y)))
            == (equivalent(k1, k2) && equivalent(x, y)),
{
}

/// Class type arguments are related invariantly: one class type is a subtype
/// of another exactly when they name the same class and their arguments are
/// pairwise equivalent.
pub proof fn lemma_class_args_invariant(
    h1: crate::ty::TypeHead,
    xs: Seq<TyView>,
    h2: crate::ty::TypeHead,
    ys: Seq<TyView>,
)
    ensures
        subtype(TyView::Class(h1, xs), TyView::Class(h2, ys)) == (h1.tag == h2.tag && xs.len()
            == ys.len() && forall|i: int|
            0 <= i < xs.len() ==> #[trigger] equivalent(xs[i], ys[i])),
{
    if xs.len() == ys.len() {
        lemma_all_equivalent(xs, ys);
    }
}

/// A union of a type with itself is equivalent to that type.
pub proof fn lemma_union_absorbs_duplicates(t: TyView)
    ensures
        equivalent(TyView::Union(seq![t, t]), t),
{
    let u = seq![t, t];
    lemma_subtype_reflexive(t);
    lemma_all_subtype(u, t);
    lemma_subtype_of_arm(t, u, 0);
}

/// Substituting into a template without frame references gives the template
/// back, whatever the frame.
pub proof fn lemma_subst_realized(t: TyView, frame: Seq<TyView>)
    requires
        unbound(t, 0).len() == 0,
    ensures
        subst(t, frame) == t,
    decreases t,
{
    match t {
        TyView::Class(h, xs) => {
            lemma_substs_realized(xs, frame);
        },
        TyView::Union(xs) => {
            lemma_substs_realized(xs, frame);
        },
        TyView::List(e) => {
            lemma_subst_realized(*e, frame);
        },
        TyView::Dict(k, v) => {
            lemma_subst_realized(*k, frame);
            lemma_subst_realized(*v, frame);
        },
        _ => {},
    }
}

proof fn lemma_substs_realized(xs: Seq<TyView>, frame: Seq<TyView>)
    requires
        unbounds(xs, 0).len() == 0,
    ensures
        substs(xs, frame) == xs,
    decreases xs,
{
    if xs.len() > 0 {
        lemma_substs_realized(xs.drop_last(), frame);
        lemma_subst_realized(xs.last(), frame);
        assert(xs.drop_last().push(xs.last()) =~= xs);
    }
}

/// Subtyping is transitive: a subtype of a subtype is a subtype.
pub proof fn lemma_subtype_transitive(a: TyView, b: TyView, c: TyView)
    requires
        subtype(a, b),
        subtype(b, c),
    ensures
        subtype(a, c),
    decreases view_size(a) + view_size(b) + view_size(c),
{
    if let TyView::Union(xs) = a {
        lemma_all_subtype(xs, b);
        lemma_views_size_all(xs);
        assert forall|j: int| 0 <= j < xs.len() implies #[trigger] subtype(xs[j], c) by {
            lemma_subtype_transitive(xs[j], b, c);
        }
        lemma_all_subtype(xs, c);
    } else if let TyView::Union(ys) = b {
        lemma_some_supertype(a, ys);
        let i = choose|i: int| 0 <= i < ys.len() && #[trigger] subtype(a, ys[i]);
        lemma_all_subtype(ys, c);
        lemma_views_size_all(ys);
        lemma_subtype_transitive(a, ys[i], c);
    } else if let TyView::Union(zs) = c {
        lemma_some_supertype(b, zs);
        let k = choose|k: int| 0 <= k < zs.len() && #[trigger] subtype(b, zs[k]);
        lemma_views_size_all(zs);
        lemma_subtype_transitive(a, b, zs[k]);
        lemma_subtype_of_arm(a, zs, k);
    } else {
        match a {
            TyView::List(x) => {
                if let TyView::List(y) = b {
                    if let TyView::List(z) = c {
                        lemma_subtype_transitive(*x, *y, *z);
                        lemma_subtype_transitive(*z, *y, *x);
                    }
                }
            },
            TyView::Dict(k1, v1) => {
                if let TyView::Dict(k2, v2) = b {
                    if let TyView::Dict(k3, v3) = c {
                        lemma_subtype_transitive(*k1, *k2, *k3);
                        lemma_subtype_transitive(*k3, *k2, *k1);
                        lemma_subtype_transitive(*v1, *v2, *v3);
                        lemma_subtype_transitive(*v3, *v2, *v1);
                    }
                }
            },
            TyView::Class(h1, xs) => {
                if let TyView::Class(h2, ys) = b {
                    if let TyView::Class(h3, zs) = c {
                        lemma_all_equivalent(xs, ys);
                        lemma_all_equivalent(ys, zs);
                        lemma_views_size_all(xs);
                        lemma_views_size_all(ys);
                        lemma_views_size_all(zs);
                        assert forall|j: int| 0 <= j < xs.len() implies #[trigger] equivalent(
                            xs[j],
                            zs[j],
                        ) by {
                            assert(equivalent(xs[j], ys[j]));
                            assert(equivalent(ys[j], zs[j]));
                            lemma_subtype_transitive(xs[j], ys[j], zs[j]);
                            lemma_subtype_transitive(zs[j], ys[j], xs[j]);
                        }
                        lemma_all_equivalent(xs, zs);
                    }
                }
            },
            _ => {},
        }
    }
}

/// A frame reference denotes exactly its realized frame slot: matching
/// against `TypeArgRef(i)` under a frame gives what matching against the
/// slot's type under no frame gives, in both matchers.
pub proof fn lemma_frame_ref_denotes_slot(
    value_ty: Option<TyView>,
    actual: TyView,
    frame: Seq<TyView>,
    i: usize,
)
    requires
        i < frame.len(),
        realized(frame[i as int]),
    ensures
        substitution(TyView::TypeArgRef(i), frame) == Ok::<TyView, UnboundTypeArg>(frame[i as int]),
        template_match(value_ty, TyView::TypeArgRef(i), frame) == template_match(
            value_ty,
            frame[i as int],
            Seq::empty(),
        ),
        type_arg_match(TyView::TypeArgRef(i), frame, actual) == type_arg_match(
            frame[i as int],
            Seq::empty(),
            actual,
        ),
{
    lemma_subst_realized(frame[i as int], Seq::empty());
}

/// Equivalence is transitive.
pub proof fn lemma_equivalent_transitive(a: TyView, b: TyView, c: TyView)
    requires
        equivalent(a, b),
        equivalent(b, c),
    ensures
        equivalent(a, c),
{
    lemma_subtype_transitive(a, b, c);
    lemma_subtype_transitive(c, b, a);
}

/// Enums are told apart by their declarations: an enum type is a subtype of
/// another exactly when both name the same declaration (the same tag), and a
/// value of one enum type is a member of another only then. An enum type is
/// never a subtype of a class type nor of a primitive.
pub proof fn lemma_enum_identity(h1: TypeHead, h2: TypeHead, args: Seq<TyView>, frame: Seq<TyView>)
    ensures
        subtype(TyView::Enum(h1), TyView::Enum(h2)) == (h1.tag == h2.tag),
        h1.tag != h2.tag ==> !subtype(TyView::Enum(h1), TyView::Enum(h2)) && !subtype(
            TyView::Enum(h2),
            TyView::Enum(h1),
        ),
        template_match(Some(TyView::Enum(h1)), TyView::Enum(h2), frame) == Ok::<
            bool,
            VmInternalError,
        >(h1.tag == h2.tag),
        !subtype(TyView::Enum(h1), TyView::Class(h2, args)),
        !subtype(TyView::Class(h2, args), TyView::Enum(h1)),
        !subtype(TyView::Enum(h1), TyView::Int),
        !subtype(TyView::Enum(h1), TyView::String),
{
}

/// Classes are told apart by their declarations: class types with different
/// tags are never related, whatever their arguments.
pub proof fn lemma_class_identity(h1: TypeHead, xs: Seq<TyView>, h2: TypeHead, ys: Seq<TyView>)
    requires
        h1.tag != h2.tag,
    ensures
        !subtype(TyView::Class(h1, xs), TyView::Class(h2, ys)),
        !equivalent(TyView::Class(h1, xs), TyView::Class(h2, ys)),
{
}

/// The class type-argument check is equivalence: for a realized template it
/// answers whether each of the argument and the template is a subtype of the
/// other, so it is symmetric in the two, and it says no where only one is a
/// subtype of the other. It holds exactly when the value check holds both
/// ways.
pub proof fn lemma_type_arg_match_is_equivalence(t: TyView, a: TyView)
    requires
        realized(t),
    ensures
        type_arg_match(t, Seq::empty(), a) == Ok::<bool, VmInternalError>(subtype(a, t) && subtype(
            t,
            a,
        )),
        realized(a) ==> type_arg_match(t, Seq::empty(), a) == type_arg_match(a, Seq::empty(), t),
        subtype(t, a) && !subtype(a, t) ==> type_arg_match(t, Seq::empty(), a) == Ok::<
            bool,
            VmInternalError,
        >(false),
        realized(a) ==> (type_arg_match(t, Seq::empty(), a) == Ok::<bool, VmInternalError>(true)
            <==> (template_match(Some(a), t, Seq::empty()) == Ok::<bool, VmInternalError>(true)
            && template_match(Some(t), a, Seq::empty()) == Ok::<bool, VmInternalError>(true))),
{
    lemma_subst_realized(t, Seq::empty());
    if realized(a) {
        lemma_subst_realized(a, Seq::empty());
    }
}

/// A realized frame realizes a template: once substitution succeeds against
/// a frame of realized types, the result holds no frame reference.
pub proof fn lemma_substitution_realizes(t: TyView, frame: Seq<TyView>)
    requires
        forall|i: int| 0 <= i < frame.len() ==> realized(#[trigger] frame[i]),
        substitution(t, frame) is Ok,
    ensures
        realized(substitution(t, frame)->Ok_0),
{
    lemma_subst_unbound(t, frame);
}

proof fn lemma_subst_unbound(t: TyView, frame: Seq<TyView>)
    requires
        forall|i: int| 0 <= i < frame.len() ==> realized(#[trigger] frame[i]),
        unbound(t, frame.len()).len() == 0,
    ensures
        unbound(subst(t, frame), 0).len() == 0,
    decreases t,
{
    match t {
        TyView::Class(_, xs) => {
            lemma_substs_unbound(xs, frame);
        },
        TyView::Union(xs) => {
            lemma_substs_unbound(xs, frame);
        },
        TyView::List(e) => {
            lemma_subst_unbound(*e, frame);
        },
        TyView::Dict(k, v) => {
            lemma_subst_unbound(*k, frame);
            lemma_subst_unbound(*v, frame);
        },
        TyView::TypeArgRef(i) => {
            assert(realized(frame[i as int]));
        },
        _ => {},
    }
}

proof fn lemma_substs_unbound(xs: Seq<TyView>, frame: Seq<TyView>)
    requires
        forall|i: int| 0 <= i < frame.len() ==> realized(#[trigger] frame[i]),
        unbounds(xs, frame.len()).len() == 0,
    ensures
        unbounds(substs(xs, frame), 0).len() == 0,
    decreases xs,
{
    if xs.len() > 0 {
        lemma_substs_unbound(xs.drop_last(), frame);
        lemma_subst_unbound(xs.last(), frame);
        let ys = substs(xs, frame);
        assert(ys.drop_last() =~= substs(xs.drop_last(), frame));
        assert(ys.last() == subst(xs.last(), frame));
    }
}

/// `substs` keeps length and substitutes each type in place.
pub proof fn lemma_substs_pointwise(xs: Seq<TyView>, frame: Seq<TyView>)
    ensures
        substs(xs, frame).len() == xs.len(),
        forall|i: int| 0 <= i < xs.len() ==> #[trigger] substs(xs, frame)[i] == subst(xs[i], frame),
    decreases xs.len(),
{
    if xs.len() > 0 {
        lemma_substs_pointwise(xs.drop_last(), frame);
        assert forall|i: int| 0 <= i < xs.len() implies #[trigger] substs(xs, frame)[i] == subst(
            xs[i],
            frame,
        ) by {
            if i < xs.len() - 1 {
                assert(xs.drop_last()[i] == xs[i]);
            }
        }
    }
}

/// Substitution replaces frame references and nothing else: a reference to a
/// supplied slot becomes that slot's type; the members of a union, the type
/// arguments of a class, a list's element and a map's key and value are each
/// substituted in place, with the class's head kept; every other type is
/// left as it is.
pub proof fn lemma_subst_structure(t: TyView, frame: Seq<TyView>)
    ensures
        t matches TyView::TypeArgRef(i) ==> (i < frame.len() ==> subst(t, frame) == frame[i as int]),
        t matches TyView::Union(xs) ==> subst(t, frame) matches TyView::Union(ys) && ys.len()
            == xs.len() && forall|i: int|
            0 <= i < xs.len() ==> #[trigger] ys[i] == subst(xs[i], frame),
        t matches TyView::Class(h, xs) ==> subst(t, frame) matches TyView::Class(h2, ys) && h2 == h
            && ys.len() == xs.len() && forall|i: int|
            0 <= i < xs.len() ==> #[trigger] ys[i] == subst(xs[i], frame),
        t matches TyView::List(e) ==> subst(t, frame) == TyView::List(Box::new(subst(*e, frame))),
        t matches TyView::Dict(k, v) ==> subst(t, frame) == TyView::Dict(
            Box::new(subst(*k, frame)),
            Box::new(subst(*v, frame)),
        ),
        (t is Int || t is Float || t is String || t is Bool || t is Null || t is Literal || t is Enum)
            ==> subst(t, frame) == t,
{
    match t {
        TyView::Union(xs) => {
            lemma_substs_pointwise(xs, frame);
        },
        TyView::Class(_, xs) => {
            lemma_substs_pointwise(xs, frame);
        },
        _ => {},
    }
}

/// Matching a template with frame references against a realized frame is
/// matching the template's realization against no frame.
pub proof fn lemma_template_match_realizes(value_ty: Option<TyView>, t: TyView, frame: Seq<TyView>)
    requires
        forall|i: int| 0 <= i < frame.len() ==> realized(#[trigger] frame[i]),
        substitution(t, frame) is Ok,
    ensures
        template_match(value_ty, t, frame) == template_match(
            value_ty,
            substitution(t, frame)->Ok_0,
            Seq::empty(),
        ),
{
    lemma_substitution_realizes(t, frame);
    lemma_subst_realized(substitution(t, frame)->Ok_0, Seq::empty());
}

} // verus!
