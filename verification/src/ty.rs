//! The runtime type family: types whose declaration references are
//! [`TypeHead`]s, and the walk that visits every head a type carries.
use vstd::prelude::*;

verus! {

/// The content-addressed identity of a declaration (class, enum, interface
/// or type alias).
pub type TypeTag = u64;

/// The address of an object in the heap.
#[derive(Clone, Copy, Debug, PartialEq, Eq)]
pub struct HeapPtr(pub u64);

/// A reference to a declaration, as it appears inside a type.
///
/// Two heads name the same declaration when their tags agree; `decl` is the
/// access path, filled in once the declaration's address is known.
#[derive(Clone, Copy, Debug, PartialEq, Eq)]
pub struct TypeHead {
    pub tag: TypeTag,
    pub decl: Option<HeapPtr>,
}

impl TypeHead {
    /// A head for `tag` with no access path yet.
    pub fn of_tag(tag: TypeTag) -> (h: TypeHead)
        ensures
            h == (TypeHead { tag, decl: None }),
    {
        TypeHead { tag, decl: None }
    }
}

/// The value of a literal type.
#[derive(Clone, Copy, Debug, PartialEq, Eq)]
pub enum Literal {
    Int(i64),
    Bool(bool),
}

/// A type. `TypeArgRef(i)` refers to slot `i` of the enclosing frame's type
/// arguments; a type without such references is realized.
#[derive(Debug, PartialEq, Eq)]
pub enum Ty {
    Int,
    Float,
    String,
    Bool,
    Null,
    Literal(Literal),
    Class(TypeHead, Vec<Ty>),
    Enum(TypeHead),
    List(Box<Ty>),
    Dict(Box<Ty>, Box<Ty>),
    Union(Vec<Ty>),
    TypeArgRef(usize),
}

/// The heads of `t`, in the order the walk visits them.
pub open spec fn ty_heads(t: Ty) -> Seq<TypeHead>
    decreases t,
{
    match t {
        Ty::Class(h, args) => seq![h] + tys_heads(args@),
        Ty::Enum(h) => seq![h],
        Ty::List(e) => ty_heads(*e),
        Ty::Dict(k, v) => ty_heads(*k) + ty_heads(*v),
        Ty::Union(ts) => tys_heads(ts@),
        Ty::Int
        | Ty::Float
        | Ty::String
        | Ty::Bool
        | Ty::Null
        | Ty::Literal(_)
        | Ty::TypeArgRef(_) => Seq::empty(),
    }
}

/// The heads of each type of `ts` in turn.
pub open spec fn tys_heads(ts: Seq<Ty>) -> Seq<TypeHead>
    decreases ts,
{
    if ts.len() == 0 {
        Seq::empty()
    } else {
        tys_heads(ts.drop_last()) + ty_heads(ts.last())
    }
}

/// `a` and `b` are the same type up to the heads they carry.
pub open spec fn ty_same_shape(a: Ty, b: Ty) -> bool
    decreases a,
{
    match a {
        Ty::Class(_, xs) => match b {
            Ty::Class(_, ys) => tys_same_shape(xs@, ys@),
            _ => false,
        },
        Ty::Enum(_) => b is Enum,
        Ty::List(x) => match b {
            Ty::List(y) => ty_same_shape(*x, *y),
            _ => false,
        },
        Ty::Dict(k1, v1) => match b {
            Ty::Dict(k2, v2) => ty_same_shape(*k1, *k2) && ty_same_shape(*v1, *v2),
            _ => false,
        },
        Ty::Union(xs) => match b {
            Ty::Union(ys) => tys_same_shape(xs@, ys@),
            _ => false,
        },
        Ty::Int
        | Ty::Float
        | Ty::String
        | Ty::Bool
        | Ty::Null
        | Ty::Literal(_)
        | Ty::TypeArgRef(_) => a == b,
    }
}

/// `xs` and `ys` are pointwise the same types up to heads.
pub open spec fn tys_same_shape(xs: Seq<Ty>, ys: Seq<Ty>) -> bool
    decreases xs,
{
    &&& xs.len() == ys.len()
    &&& xs.len() == 0 || (tys_same_shape(xs.drop_last(), ys.drop_last()) && ty_same_shape(
        xs.last(),
        ys.last(),
    ))
}

/// What is done to each head a walk reaches. The visitor's state is its
/// view.
pub trait HeadVisitor: View + Sized {
    /// From state `state`, visiting `head`: the next state, and what `head`
    /// becomes.
    spec fn step(state: Self::V, head: TypeHead) -> (Self::V, TypeHead);

    fn visit(&mut self, head: &mut TypeHead)
        ensures
            (final(self)@, *final(head)) == Self::step(old(self)@, *old(head)),
    ;
}

/// Visiting the heads `hs` in order, starting from state `s`: the final
/// state and the rewritten heads.
pub open spec fn visit_seq<V: HeadVisitor>(s: V::V, hs: Seq<TypeHead>) -> (V::V, Seq<TypeHead>)
    decreases hs.len(),
{
    if hs.len() == 0 {
        (s, Seq::empty())
    } else {
        let (s1, h) = V::step(s, hs[0]);
        let (s2, rest) = visit_seq::<V>(s1, hs.drop_first());
        (s2, seq![h] + rest)
    }
}

/// Visiting `a + b` is visiting `a`, then `b` from where `a` left off.
pub proof fn lemma_visit_seq_append<V: HeadVisitor>(s: V::V, a: Seq<TypeHead>, b: Seq<TypeHead>)
    ensures
        visit_seq::<V>(s, a + b) == (
            visit_seq::<V>(visit_seq::<V>(s, a).0, b).0,
            visit_seq::<V>(s, a).1 + visit_seq::<V>(visit_seq::<V>(s, a).0, b).1,
        ),
    decreases a.len(),
{
    if a.len() == 0 {
        assert(a + b =~= b);
        assert(visit_seq::<V>(s, a).1 + visit_seq::<V>(s, b).1 =~= visit_seq::<V>(s, b).1);
    } else {
        let (s1, h) = V::step(s, a[0]);
        assert((a + b).drop_first() =~= a.drop_first() + b);
        lemma_visit_seq_append::<V>(s1, a.drop_first(), b);
        let r = visit_seq::<V>(visit_seq::<V>(s1, a.drop_first()).0, b);
        assert(seq![h] + (visit_seq::<V>(s1, a.drop_first()).1 + r.1) =~= (seq![h]
            + visit_seq::<V>(s1, a.drop_first()).1) + r.1);
    }
}

impl Ty {
    /// Visit every head of this type, in order.
    pub fn visit_heads_mut<V: HeadVisitor>(&mut self, f: &mut V)
        ensures
            (final(f)@, ty_heads(*final(self))) == visit_seq::<V>(old(f)@, ty_heads(*old(self))),
            ty_same_shape(*old(self), *final(self)),
        decreases *old(self),
    {
        let ghost f0 = f@;
        let mut t = Ty::Null;
        std::mem::swap(self, &mut t);
        match t {
            Ty::Class(mut h, mut args) => {
                let ghost h0 = h;
                let ghost args0 = args@;
                f.visit(&mut h);
                visit_tys(&mut args, f);
                proof {
                    lemma_visit_seq_append::<V>(f0, seq![h0], tys_heads(args0));
                    reveal_with_fuel(visit_seq, 2);
                    assert(seq![h0].drop_first() =~= Seq::<TypeHead>::empty());
                    assert(seq![h] + Seq::<TypeHead>::empty() =~= seq![h]);
                }
                *self = Ty::Class(h, args);
            },
            Ty::Enum(mut h) => {
                f.visit(&mut h);
                proof {
                    reveal_with_fuel(visit_seq, 2);
                    assert(seq![h] + Seq::<TypeHead>::empty() =~= seq![h]);
                }
                *self = Ty::Enum(h);
            },
            Ty::List(mut e) => {
                e.visit_heads_mut(f);
                *self = Ty::List(e);
            },
            Ty::Dict(mut k, mut v) => {
                let ghost k0 = *k;
                let ghost v0 = *v;
                k.visit_heads_mut(f);
                v.visit_heads_mut(f);
                proof {
                    lemma_visit_seq_append::<V>(f0, ty_heads(k0), ty_heads(v0));
                }
                *self = Ty::Dict(k, v);
            },
            Ty::Union(mut ts) => {
                visit_tys(&mut ts, f);
                *self = Ty::Union(ts);
            },
            Ty::Int => {
                *self = Ty::Int;
            },
            Ty::Float => {
                *self = Ty::Float;
            },
            Ty::String => {
                *self = Ty::String;
            },
            Ty::Bool => {
                *self = Ty::Bool;
            },
            Ty::Null => {
                *self = Ty::Null;
            },
            Ty::Literal(l) => {
                *self = Ty::Literal(l);
            },
            Ty::TypeArgRef(i) => {
                *self = Ty::TypeArgRef(i);
            },
        }
    }
}

/// Visit the heads of each type of `ts` in turn.
pub fn visit_tys<V: HeadVisitor>(ts: &mut Vec<Ty>, f: &mut V)
    ensures
        (final(f)@, tys_heads(final(ts)@)) == visit_seq::<V>(old(f)@, tys_heads(old(ts)@)),
        tys_same_shape(old(ts)@, final(ts)@),
    decreases old(ts)@,
{
    let ghost ts0 = ts@;
    let ghost f0 = f@;
    let n = ts.len();
    let mut i: usize = 0;
    assert(ts@.take(0) =~= Seq::<Ty>::empty());
    assert(ts0.take(0) =~= Seq::<Ty>::empty());
    while i < n
        invariant
            n == ts.len(),
            n == ts0.len(),
            ts0 == old(ts)@,
            i <= n,
            forall|j: int| i <= j < n ==> ts@[j] == ts0[j],
            tys_same_shape(ts0.take(i as int), ts@.take(i as int)),
            (f@, tys_heads(ts@.take(i as int))) == visit_seq::<V>(f0, tys_heads(ts0.take(i as int))),
        decreases n - i,
    {
        let ghost before = ts@;
        let ghost fb = f@;
        let mut elem = Ty::Null;
        std::mem::swap(&mut ts[i], &mut elem);
        assert(elem == ts0[i as int]);
        assert(decreases_to!(ts0 => elem));

        elem.visit_heads_mut(f);
        ts.set(i, elem);
        proof {
            assert(ts@.take(i + 1).drop_last() =~= ts@.take(i as int));
            assert(ts0.take(i + 1).drop_last() =~= ts0.take(i as int));
            assert(ts@.take(i + 1).last() == ts@[i as int]);
            assert(ts0.take(i + 1).last() == ts0[i as int]);
            assert(ts@.take(i as int) =~= before.take(i as int));
            lemma_visit_seq_append::<V>(f0, tys_heads(ts0.take(i as int)), ty_heads(ts0[i as int]));
        }
        i = i + 1;
    }
    assert(ts@.take(n as int) =~= ts@);
    assert(ts0.take(n as int) =~= ts0);
}

/// A value that carries type heads, and can have them visited in place.
pub trait HeadCarrier: Sized {
    /// The heads this value carries, in visiting order.
    spec fn heads(&self) -> Seq<TypeHead>;

    /// `self` and `other` agree in everything but the heads they carry.
    spec fn same_shape(&self, other: Self) -> bool;

    /// Visit every head of this value, in order; nothing else changes.
    fn visit_heads_mut<V: HeadVisitor>(&mut self, f: &mut V)
        ensures
            (final(f)@, final(self).heads()) == visit_seq::<V>(old(f)@, old(self).heads()),
            old(self).same_shape(*final(self)),
    ;
}

impl HeadCarrier for Ty {
    open spec fn heads(&self) -> Seq<TypeHead> {
        ty_heads(*self)
    }

    open spec fn same_shape(&self, other: Self) -> bool {
        ty_same_shape(*self, other)
    }

    fn visit_heads_mut<V: HeadVisitor>(&mut self, f: &mut V) {
        Ty::visit_heads_mut(self, f);
    }
}

/// The heads of each element of `s` in turn.
pub open spec fn seq_heads<T: HeadCarrier>(s: Seq<T>) -> Seq<TypeHead>
    decreases s.len(),
{
    if s.len() == 0 {
        Seq::empty()
    } else {
        seq_heads(s.drop_last()) + s.last().heads()
    }
}

/// `a` and `b` are pointwise the same up to heads.
pub open spec fn seq_same_shape<T: HeadCarrier>(a: Seq<T>, b: Seq<T>) -> bool {
    &&& a.len() == b.len()
    &&& forall|i: int| 0 <= i < a.len() ==> #[trigger] a[i].same_shape(b[i])
}

/// Visit the heads of each element of `v` in turn.
pub fn visit_vec_heads<T: HeadCarrier, V: HeadVisitor>(v: &mut Vec<T>, f: &mut V)
    ensures
        (final(f)@, seq_heads(final(v)@)) == visit_seq::<V>(old(f)@, seq_heads(old(v)@)),
        seq_same_shape(old(v)@, final(v)@),
{
    let ghost v0 = v@;
    let ghost f0 = f@;
    let n = v.len();
    let mut i: usize = 0;
    assert(v@.take(0) =~= Seq::<T>::empty());
    assert(v0.take(0) =~= Seq::<T>::empty());
    while i < n
        invariant
            n == v.len(),
            n == v0.len(),
            i <= n,
            forall|j: int| i <= j < n ==> v@[j] == v0[j],
            forall|j: int| 0 <= j < i ==> #[trigger] v0[j].same_shape(v@[j]),
            (f@, seq_heads(v@.take(i as int))) == visit_seq::<V>(f0, seq_heads(v0.take(i as int))),
        decreases n - i,
    {
        let ghost before = v@;
        v[i].visit_heads_mut(f);
        proof {
            assert(v@.take(i + 1).drop_last() =~= v@.take(i as int));
            assert(v0.take(i + 1).drop_last() =~= v0.take(i as int));
            assert(v@.take(i + 1).last() == v@[i as int]);
            assert(v0.take(i + 1).last() == v0[i as int]);
            assert(v@.take(i as int) =~= before.take(i as int));
            lemma_visit_seq_append::<V>(f0, seq_heads(v0.take(i as int)), v0[i as int].heads());
        }
        i = i + 1;
    }
    assert(v@.take(n as int) =~= v@);
    assert(v0.take(n as int) =~= v0);
}

/// A walk visits every head exactly once: it gives back as many heads as it
/// was given.
pub proof fn lemma_visit_seq_len<V: HeadVisitor>(s: V::V, hs: Seq<TypeHead>)
    ensures
        visit_seq::<V>(s, hs).1.len() == hs.len(),
    decreases hs.len(),
{
    if hs.len() > 0 {
        lemma_visit_seq_len::<V>(V::step(s, hs[0]).0, hs.drop_first());
    }
}

/// The mathematical value of a [`Ty`].
pub enum TyView {
    Int,
    Float,
    String,
    Bool,
    Null,
    Literal(Literal),
    Class(TypeHead, Seq<TyView>),
    Enum(TypeHead),
    List(Box<TyView>),
    Dict(Box<TyView>, Box<TyView>),
    Union(Seq<TyView>),
    TypeArgRef(usize),
}

/// The value of `t`.
pub open spec fn ty_view(t: Ty) -> TyView
    decreases t,
{
    match t {
        Ty::Int => TyView::Int,
        Ty::Float => TyView::Float,
        Ty::String => TyView::String,
        Ty::Bool => TyView::Bool,
        Ty::Null => TyView::Null,
        Ty::Literal(l) => TyView::Literal(l),
        Ty::Class(h, args) => TyView::Class(h, tys_view(args@)),
        Ty::Enum(h) => TyView::Enum(h),
        Ty::List(e) => TyView::List(Box::new(ty_view(*e))),
        Ty::Dict(k, v) => TyView::Dict(Box::new(ty_view(*k)), Box::new(ty_view(*v))),
        Ty::Union(ts) => TyView::Union(tys_view(ts@)),
        Ty::TypeArgRef(i) => TyView::TypeArgRef(i),
    }
}

/// The value of each type of `ts`.
pub open spec fn tys_view(ts: Seq<Ty>) -> Seq<TyView>
    decreases ts,
{
    if ts.len() == 0 {
        Seq::empty()
    } else {
        tys_view(ts.drop_last()).push(ty_view(ts.last()))
    }
}

impl View for Ty {
    type V = TyView;

    open spec fn view(&self) -> TyView {
        ty_view(*self)
    }
}

/// `tys_view` keeps length and views each element in place.
pub proof fn lemma_tys_view(ts: Seq<Ty>)
    ensures
        tys_view(ts).len() == ts.len(),
        forall|i: int| 0 <= i < ts.len() ==> #[trigger] tys_view(ts)[i] == ty_view(ts[i]),
    decreases ts.len(),
{
    if ts.len() > 0 {
        lemma_tys_view(ts.drop_last());
        assert forall|i: int| 0 <= i < ts.len() implies #[trigger] tys_view(ts)[i] == ty_view(
            ts[i],
        ) by {
            if i < ts.len() - 1 {
                assert(ts.drop_last()[i] == ts[i]);
            }
        }
    }
}

/// Types with the same elements in order have the same view.
pub proof fn lemma_tys_view_ext(a: Seq<Ty>, b: Seq<TyView>)
    requires
        a.len() == b.len(),
        forall|i: int| 0 <= i < a.len() ==> ty_view(#[trigger] a[i]) == b[i],
    ensures
        tys_view(a) == b,
{
    lemma_tys_view(a);
    assert(tys_view(a) =~= b);
}

impl Ty {
    /// A copy of this type.
    pub fn copy(&self) -> (r: Ty)
        ensures
            r@ == self@,
        decreases self,
    {
        match self {
            Ty::Int => Ty::Int,
            Ty::Float => Ty::Float,
            Ty::String => Ty::String,
            Ty::Bool => Ty::Bool,
            Ty::Null => Ty::Null,
            Ty::Literal(l) => Ty::Literal(*l),
            Ty::Class(h, args) => Ty::Class(*h, copy_tys(args)),
            Ty::Enum(h) => Ty::Enum(*h),
            Ty::List(e) => Ty::List(Box::new(e.copy())),
            Ty::Dict(k, v) => Ty::Dict(Box::new(k.copy()), Box::new(v.copy())),
            Ty::Union(ts) => Ty::Union(copy_tys(ts)),
            Ty::TypeArgRef(i) => Ty::TypeArgRef(*i),
        }
    }
}

/// A copy of each type of `ts`.
pub fn copy_tys(ts: &Vec<Ty>) -> (r: Vec<Ty>)
    ensures
        tys_view(r@) == tys_view(ts@),
    decreases ts@,
{
    let mut r: Vec<Ty> = Vec::new();
    let n = ts.len();
    let mut i: usize = 0;
    proof {
        lemma_tys_view(ts@);
    }
    while i < n
        invariant
            n == ts.len(),
            i <= n,
            r.len() == i,
            forall|j: int| 0 <= j < i ==> ty_view(#[trigger] r@[j]) == ty_view(ts@[j]),
        decreases n - i,
    {
        assert(decreases_to!(ts@ => ts@[i as int]));
        let c = ts[i].copy();
        r.push(c);
        i = i + 1;
    }
    proof {
        lemma_tys_view(ts@);
        lemma_tys_view_ext(r@, tys_view(ts@));
    }
    r
}

/// Types of the same shape carry the same number of heads.
pub proof fn lemma_same_shape_heads_len(a: Ty, b: Ty)
    requires
        ty_same_shape(a, b),
    ensures
        ty_heads(a).len() == ty_heads(b).len(),
    decreases a,
{
    match a {
        Ty::Class(_, xs) => {
            if let Ty::Class(_, ys) = b {
                lemma_same_shape_heads_len_seq(xs@, ys@);
            }
        },
        Ty::List(x) => {
            if let Ty::List(y) = b {
                lemma_same_shape_heads_len(*x, *y);
            }
        },
        Ty::Dict(k1, v1) => {
            if let Ty::Dict(k2, v2) = b {
                lemma_same_shape_heads_len(*k1, *k2);
                lemma_same_shape_heads_len(*v1, *v2);
            }
        },
        Ty::Union(xs) => {
            if let Ty::Union(ys) = b {
                lemma_same_shape_heads_len_seq(xs@, ys@);
            }
        },
        _ => {},
    }
}

proof fn lemma_same_shape_heads_len_seq(xs: Seq<Ty>, ys: Seq<Ty>)
    requires
        tys_same_shape(xs, ys),
    ensures
        tys_heads(xs).len() == tys_heads(ys).len(),
    decreases xs,
{
    if xs.len() > 0 {
        lemma_same_shape_heads_len_seq(xs.drop_last(), ys.drop_last());
        lemma_same_shape_heads_len(xs.last(), ys.last());
    }
}

proof fn lemma_split_concat<A>(p: Seq<A>, q: Seq<A>, r: Seq<A>, s: Seq<A>)
    requires
        p + q == r + s,
        p.len() == r.len(),
    ensures
        p == r,
        q == s,
{
    assert(p =~= (p + q).take(p.len() as int));
    assert(r =~= (r + s).take(r.len() as int));
    assert(q =~= (p + q).skip(p.len() as int));
    assert(s =~= (r + s).skip(r.len() as int));
}

/// Two types of the same shape that carry the same heads are the same type:
/// the shape and the heads together determine a type's value. So a walk
/// changes a type exactly as far as it changes its heads.
pub proof fn lemma_shape_and_heads_determine(a: Ty, b: Ty)
    requires
        ty_same_shape(a, b),
        ty_heads(a) == ty_heads(b),
    ensures
        a@ == b@,
    decreases a,
{
    match a {
        Ty::Class(h1, xs) => {
            if let Ty::Class(h2, ys) = b {
                lemma_same_shape_heads_len_seq(xs@, ys@);
                lemma_split_concat(seq![h1], tys_heads(xs@), seq![h2], tys_heads(ys@));
                assert(seq![h1][0] == seq![h2][0]);
                lemma_shape_and_heads_determine_seq(xs@, ys@);
            }
        },
        Ty::Enum(h1) => {
            if let Ty::Enum(h2) = b {
                assert(seq![h1][0] == seq![h2][0]);
            }
        },
        Ty::List(x) => {
            if let Ty::List(y) = b {
                lemma_shape_and_heads_determine(*x, *y);
            }
        },
        Ty::Dict(k1, v1) => {
            if let Ty::Dict(k2, v2) = b {
                lemma_same_shape_heads_len(*k1, *k2);
                lemma_split_concat(ty_heads(*k1), ty_heads(*v1), ty_heads(*k2), ty_heads(*v2));
                lemma_shape_and_heads_determine(*k1, *k2);
                lemma_shape_and_heads_determine(*v1, *v2);
            }
        },
        Ty::Union(xs) => {
            if let Ty::Union(ys) = b {
                lemma_shape_and_heads_determine_seq(xs@, ys@);
            }
        },
        _ => {},
    }
}

proof fn lemma_shape_and_heads_determine_seq(xs: Seq<Ty>, ys: Seq<Ty>)
    requires
        tys_same_shape(xs, ys),
        tys_heads(xs) == tys_heads(ys),
    ensures
        tys_view(xs) == tys_view(ys),
    decreases xs,
{
    if xs.len() > 0 {
        lemma_same_shape_heads_len_seq(xs.drop_last(), ys.drop_last());
        lemma_split_concat(
            tys_heads(xs.drop_last()),
            ty_heads(xs.last()),
            tys_heads(ys.drop_last()),
            ty_heads(ys.last()),
        );
        lemma_shape_and_heads_determine_seq(xs.drop_last(), ys.drop_last());
        lemma_shape_and_heads_determine(xs.last(), ys.last());
    }
}

/// A visitor that leaves every head alone, from a state it keeps, gives the
/// heads back unchanged.
pub proof fn lemma_identity_walk<V: HeadVisitor>(s: V::V, hs: Seq<TypeHead>)
    requires
        forall|h: TypeHead| #[trigger] V::step(s, h) == (s, h),
    ensures
        visit_seq::<V>(s, hs) == (s, hs),
    decreases hs.len(),
{
    if hs.len() > 0 {
        lemma_identity_walk::<V>(s, hs.drop_first());
        assert(V::step(s, hs[0]) == (s, hs[0]));
        assert(seq![hs[0]] + hs.drop_first() =~= hs);
    }
}

/// A walk over a type with a visitor that leaves every head alone leaves the
/// type's value unchanged.
pub proof fn lemma_identity_walk_keeps_type<V: HeadVisitor>(
    s: V::V,
    s2: V::V,
    before: Ty,
    after: Ty,
)
    requires
        forall|h: TypeHead| #[trigger] V::step(s, h) == (s, h),
        (s2, ty_heads(after)) == visit_seq::<V>(s, ty_heads(before)),
        ty_same_shape(before, after),
    ensures
        after@ == before@,
        s2 == s,
{
    lemma_identity_walk::<V>(s, ty_heads(before));
    lemma_shape_and_heads_determine(before, after);
}

/// Two visitors run one after the other on each head.
pub struct Both<A, B> {
    pub first: A,
    pub second: B,
}

impl<A: HeadVisitor, B: HeadVisitor> View for Both<A, B> {
    type V = (A::V, B::V);

    open spec fn view(&self) -> (A::V, B::V) {
        (self.first@, self.second@)
    }
}

impl<A: HeadVisitor, B: HeadVisitor> HeadVisitor for Both<A, B> {
    open spec fn step(state: (A::V, B::V), head: TypeHead) -> ((A::V, B::V), TypeHead) {
        let (s1, h1) = A::step(state.0, head);
        let (t1, h2) = B::step(state.1, h1);
        ((s1, t1), h2)
    }

    fn visit(&mut self, head: &mut TypeHead) {
        self.first.visit(head);
        self.second.visit(head);
    }
}

/// Walking with `A` and then walking the result with `B` is one walk with
/// both visitors applied to each head in turn.
pub proof fn lemma_walk_compose<A: HeadVisitor, B: HeadVisitor>(
    s: A::V,
    t: B::V,
    hs: Seq<TypeHead>,
)
    ensures
        visit_seq::<Both<A, B>>((s, t), hs) == (
            (visit_seq::<A>(s, hs).0, visit_seq::<B>(t, visit_seq::<A>(s, hs).1).0),
            visit_seq::<B>(t, visit_seq::<A>(s, hs).1).1,
        ),
    decreases hs.len(),
{
    if hs.len() > 0 {
        let (s1, h1) = A::step(s, hs[0]);
        let (t1, h2) = B::step(t, h1);
        lemma_walk_compose::<A, B>(s1, t1, hs.drop_first());
        let first = visit_seq::<A>(s, hs).1;
        assert(first[0] == h1);
        assert(first.drop_first() =~= visit_seq::<A>(s1, hs.drop_first()).1);
        assert(first.len() > 0) by {
            lemma_visit_seq_len::<A>(s, hs);
        }
    }
}


/// A type carries its own head (for a class or an enum) followed by the heads
/// of all its component types in order; primitives, literals and frame
/// references carry none.
pub proof fn lemma_ty_heads(t: Ty)
    ensures
        t matches Ty::Class(h, args) ==> ty_heads(t) == seq![h] + tys_heads(args@),
        t matches Ty::Enum(h) ==> ty_heads(t) == seq![h],
        t matches Ty::List(e) ==> ty_heads(t) == ty_heads(*e),
        t matches Ty::Dict(k, v) ==> ty_heads(t) == ty_heads(*k) + ty_heads(*v),
        t matches Ty::Union(ts) ==> ty_heads(t) == tys_heads(ts@),
        (t is Int || t is Float || t is String || t is Bool || t is Null || t is Literal
            || t is TypeArgRef) ==> ty_heads(t) == Seq::<TypeHead>::empty(),
{
}

/// The heads of a sequence of types are the heads of each in turn: none for
/// no types, and one more type's heads appended after the rest.
pub proof fn lemma_tys_heads(ts: Seq<Ty>, t: Ty)
    ensures
        tys_heads(Seq::<Ty>::empty()) == Seq::<TypeHead>::empty(),
        tys_heads(ts.push(t)) == tys_heads(ts) + ty_heads(t),
        tys_heads(seq![t]) == ty_heads(t),
{
    assert(ts.push(t).drop_last() =~= ts);
    assert(seq![t].drop_last() =~= Seq::<Ty>::empty());
    assert(Seq::<TypeHead>::empty() + ty_heads(t) =~= ty_heads(t));
}

/// The heads of a sequence of carriers are the heads of each in turn.
pub proof fn lemma_seq_heads<T: HeadCarrier>(s: Seq<T>, x: T)
    ensures
        seq_heads(Seq::<T>::empty()) == Seq::<TypeHead>::empty(),
        seq_heads(s.push(x)) == seq_heads(s) + x.heads(),
        seq_heads(seq![x]) == x.heads(),
{
    assert(s.push(x).drop_last() =~= s);
    assert(seq![x].drop_last() =~= Seq::<T>::empty());
    assert(Seq::<TypeHead>::empty() + x.heads() =~= x.heads());
}

} // verus!
