//! Tag → declaration lookup over the compile-time region.
//!
//! Once the pool has addresses, [`TagIndex`] maps each declaration's
//! [`TypeTag`] to the [`HeapPtr`] a [`TypeHead`] should point at. The loader
//! uses it once, through [`HeadResolver`], to fill in every head's access path.
use vstd::prelude::*;
use std::collections::HashMap;
use crate::object::Object;
use crate::ty::{HeadCarrier, HeadVisitor, HeapPtr, TypeHead, TypeTag, visit_seq};

verus! {

broadcast use vstd::std_specs::hash::group_hash_axioms;

/// What [`TagIndex`] needs of a compile-time pool.
pub trait CompileTimePool {
    /// How many objects the region holds.
    spec fn pool_len(&self) -> nat;

    /// The object at `slot`.
    spec fn pool_object(&self, slot: int) -> Object;

    /// The address of the object at `slot`.
    spec fn pool_ptr(&self, slot: int) -> HeapPtr;

    /// How many objects the region holds.
    fn compile_time_len(&self) -> (n: usize)
        ensures
            n == self.pool_len(),
    ;

    /// The object at `slot`.
    fn compile_time_object(&self, slot: usize) -> (object: &Object)
        requires
            slot < self.pool_len(),
        ensures
            *object == self.pool_object(slot as int),
    ;

    /// A pointer to the object at `slot`.
    fn compile_time_ptr(&self, slot: usize) -> (ptr: HeapPtr)
        requires
            slot < self.pool_len(),
        ensures
            ptr == self.pool_ptr(slot as int),
    ;
}

/// A region given as its objects, each with its address.
impl CompileTimePool for Vec<(Object, HeapPtr)> {
    open spec fn pool_len(&self) -> nat {
        self@.len()
    }

    open spec fn pool_object(&self, slot: int) -> Object {
        self@[slot].0
    }

    open spec fn pool_ptr(&self, slot: int) -> HeapPtr {
        self@[slot].1
    }

    fn compile_time_len(&self) -> (n: usize) {
        self.len()
    }

    fn compile_time_object(&self, slot: usize) -> (object: &Object) {
        &self[slot].0
    }

    fn compile_time_ptr(&self, slot: usize) -> (ptr: HeapPtr) {
        self[slot].1
    }
}

/// The index of the first `n` slots of `pool`: each declaration's tag mapped
/// to its address, a later declaration of a tag replacing an earlier one.
pub open spec fn tag_map_prefix<H: CompileTimePool>(pool: &H, n: int) -> Map<TypeTag, HeapPtr>
    decreases n,
{
    if n <= 0 {
        Map::empty()
    } else {
        let m = tag_map_prefix(pool, n - 1);
        match pool.pool_object(n - 1).declared_tag() {
            Some(tag) => m.insert(tag, pool.pool_ptr(n - 1)),
            None => m,
        }
    }
}

/// The index of every slot of `pool`.
pub open spec fn pool_tag_map<H: CompileTimePool>(pool: &H) -> Map<TypeTag, HeapPtr> {
    tag_map_prefix(pool, pool.pool_len() as int)
}

/// Slot `slot` of `pool` holds a declaration of `tag`.
pub open spec fn declares<H: CompileTimePool>(pool: &H, slot: int, tag: TypeTag) -> bool {
    0 <= slot < pool.pool_len() && pool.pool_object(slot).declared_tag() == Some(tag)
}

/// Every declared head in a compile-time pool, by tag.
pub struct TagIndex {
    by_tag: HashMap<TypeTag, HeapPtr>,
}

impl View for TagIndex {
    type V = Map<TypeTag, HeapPtr>;

    closed spec fn view(&self) -> Map<TypeTag, HeapPtr> {
        self.by_tag@
    }
}

/// What looking `tag` up in `m` gives.
pub open spec fn lookup(m: Map<TypeTag, HeapPtr>, tag: TypeTag) -> Option<HeapPtr> {
    if m.contains_key(tag) {
        Some(m[tag])
    } else {
        None
    }
}

impl TagIndex {
    /// Index every declaration object, keyed by the `type_tag` it carries.
    ///
    /// Only the four declaration kinds mint a head, so only they appear here.
    /// Should two declarations share a tag, the later one wins.
    pub fn of_compile_time<H: CompileTimePool>(pool: &H) -> (index: Self)
        ensures
            index@ == pool_tag_map(pool),
    {
        let mut by_tag: HashMap<TypeTag, HeapPtr> = HashMap::new();
        let n = pool.compile_time_len();
        let mut slot: usize = 0;
        while slot < n
            invariant
                n == pool.pool_len(),
                slot <= n,
                by_tag@ == tag_map_prefix(pool, slot as int),
            decreases n - slot,
        {
            match pool.compile_time_object(slot).declared_type_tag() {
                Some(tag) => {
                    by_tag.insert(tag, pool.compile_time_ptr(slot));
                },
                None => {},
            }
            slot = slot + 1;
        }
        TagIndex { by_tag }
    }

    /// The declaration `tag` names, if this pool carries it.
    pub fn get(&self, tag: TypeTag) -> (ptr: Option<HeapPtr>)
        ensures
            ptr == lookup(self@, tag),
    {
        match self.by_tag.get(&tag) {
            Some(p) => Some(*p),
            None => None,
        }
    }

    /// The underlying map, for callers that keep it past load.
    pub fn into_map(self) -> (m: HashMap<TypeTag, HeapPtr>)
        ensures
            m@ == self@,
    {
        self.by_tag
    }

    /// Point every head of `object` at the declaration its tag names (no
    /// declaration where the index has none), changing nothing else.
    pub fn resolve_heads(&self, object: &mut Object)
        ensures
            final(object).heads() == old(object).heads().map_values(
                |h: TypeHead| resolved_head(self@, h),
            ),
            old(object).same_shape(*final(object)),
    {
        let mut resolver = HeadResolver { index: self };
        crate::object::visit_object_heads_mut(object, &mut resolver);
        proof {
            lemma_resolver_visit(self@, old(object).heads());
        }
    }
}

/// `h`, pointed at the declaration that `m` gives for its tag.
pub open spec fn resolved_head(m: Map<TypeTag, HeapPtr>, h: TypeHead) -> TypeHead {
    TypeHead { tag: h.tag, decl: lookup(m, h.tag) }
}

/// A visitor that points each head at the declaration its tag names.
pub struct HeadResolver<'a> {
    pub index: &'a TagIndex,
}

impl<'a> View for HeadResolver<'a> {
    type V = Map<TypeTag, HeapPtr>;

    open spec fn view(&self) -> Map<TypeTag, HeapPtr> {
        self.index@
    }
}

impl<'a> HeadVisitor for HeadResolver<'a> {
    open spec fn step(state: Map<TypeTag, HeapPtr>, head: TypeHead) -> (
        Map<TypeTag, HeapPtr>,
        TypeHead,
    ) {
        (state, resolved_head(state, head))
    }

    fn visit(&mut self, head: &mut TypeHead) {
        head.decl = self.index.get(head.tag);
    }
}

/// A visitor that records every head it reaches and changes none, such as
/// the loader uses to check that every head has been resolved.
pub struct HeadCollector {
    pub seen: Vec<TypeHead>,
}

impl View for HeadCollector {
    type V = Seq<TypeHead>;

    open spec fn view(&self) -> Seq<TypeHead> {
        self.seen@
    }
}

impl HeadVisitor for HeadCollector {
    open spec fn step(state: Seq<TypeHead>, head: TypeHead) -> (Seq<TypeHead>, TypeHead) {
        (state.push(head), head)
    }

    fn visit(&mut self, head: &mut TypeHead) {
        self.seen.push(*head);
    }
}

/// A resolver keeps no state: it rewrites each head on its own.
pub proof fn lemma_resolver_visit(m: Map<TypeTag, HeapPtr>, hs: Seq<TypeHead>)
    ensures
        visit_seq::<HeadResolver<'static>>(m, hs) == (m, hs.map_values(
            |h: TypeHead| resolved_head(m, h),
        )),
    decreases hs.len(),
{
    if hs.len() > 0 {
        lemma_resolver_visit(m, hs.drop_first());
        assert(seq![resolved_head(m, hs[0])] + hs.drop_first().map_values(
            |h: TypeHead| resolved_head(m, h),
        ) =~= hs.map_values(|h: TypeHead| resolved_head(m, h)));
    } else {
        assert(hs.map_values(|h: TypeHead| resolved_head(m, h)) =~= Seq::<TypeHead>::empty());
    }
}

/// A collector appends every head it reaches, in order, and leaves them as
/// they were.
pub proof fn lemma_collector_visit(s: Seq<TypeHead>, hs: Seq<TypeHead>)
    ensures
        visit_seq::<HeadCollector>(s, hs) == (s + hs, hs),
    decreases hs.len(),
{
    if hs.len() > 0 {
        lemma_collector_visit(s.push(hs[0]), hs.drop_first());
        assert(s.push(hs[0]) + hs.drop_first() =~= s + hs);
        assert(seq![hs[0]] + hs.drop_first() =~= hs);
    } else {
        assert(s + hs =~= s);
    }
}

/// A tag is in the index of the first `n` slots exactly when one of those
/// slots declares it.
proof fn lemma_tag_map_prefix_domain<H: CompileTimePool>(pool: &H, n: int, tag: TypeTag)
    requires
        0 <= n <= pool.pool_len(),
    ensures
        tag_map_prefix(pool, n).contains_key(tag) <==> exists|slot: int|
            0 <= slot < n && #[trigger] declares(pool, slot, tag),
    decreases n,
{
    if n > 0 {
        lemma_tag_map_prefix_domain(pool, n - 1, tag);
        if tag_map_prefix(pool, n).contains_key(tag) && !tag_map_prefix(pool, n - 1).contains_key(
            tag,
        ) {
            assert(declares(pool, n - 1, tag));
        }
    }
}

/// The index of the first `n` slots maps a tag to the address of the last of
/// those slots that declares it.
proof fn lemma_tag_map_prefix_latest<H: CompileTimePool>(
    pool: &H,
    n: int,
    tag: TypeTag,
    slot: int,
)
    requires
        0 <= slot < n <= pool.pool_len(),
        declares(pool, slot, tag),
        forall|later: int| slot < later < n ==> !#[trigger] declares(pool, later, tag),
    ensures
        tag_map_prefix(pool, n).contains_key(tag),
        tag_map_prefix(pool, n)[tag] == pool.pool_ptr(slot),
    decreases n,
{
    if slot < n - 1 {
        lemma_tag_map_prefix_latest(pool, n - 1, tag, slot);
        assert(!declares(pool, n - 1, tag));
    }
}

/// The index holds a tag exactly when some slot of the pool declares it.
pub proof fn lemma_index_domain<H: CompileTimePool>(pool: &H, tag: TypeTag)
    ensures
        pool_tag_map(pool).contains_key(tag) <==> exists|slot: int| #[trigger]
            declares(pool, slot, tag),
{
    lemma_tag_map_prefix_domain(pool, pool.pool_len() as int, tag);
}

/// The index maps a tag to the address of the last slot that declares it.
pub proof fn lemma_index_latest_declaration<H: CompileTimePool>(
    pool: &H,
    tag: TypeTag,
    slot: int,
)
    requires
        declares(pool, slot, tag),
        forall|later: int| slot < later ==> !#[trigger] declares(pool, later, tag),
    ensures
        lookup(pool_tag_map(pool), tag) == Some(pool.pool_ptr(slot)),
{
    lemma_tag_map_prefix_latest(pool, pool.pool_len() as int, tag, slot);
}

/// The index in closed form: a tag is indexed exactly when some slot of the
/// pool declares it, and then it maps to the address of the last slot that
/// does.
pub proof fn lemma_index_closed_form<H: CompileTimePool>(pool: &H, tag: TypeTag)
    ensures
        pool_tag_map(pool).contains_key(tag) <==> exists|slot: int| #[trigger]
            declares(pool, slot, tag),
        forall|slot: int|
            #[trigger] declares(pool, slot, tag) && (forall|later: int|
                slot < later ==> !#[trigger] declares(pool, later, tag)) ==> pool_tag_map(
                pool,
            ).contains_key(tag) && pool_tag_map(pool)[tag] == pool.pool_ptr(slot),
{
    lemma_index_domain(pool, tag);
    assert forall|slot: int|
        #[trigger] declares(pool, slot, tag) && (forall|later: int|
            slot < later ==> !#[trigger] declares(pool, later, tag)) implies pool_tag_map(
        pool,
    ).contains_key(tag) && pool_tag_map(pool)[tag] == pool.pool_ptr(slot) by {
        lemma_index_latest_declaration(pool, tag, slot);
    }
}

/// Every index entry points at a slot that declares its tag.
pub proof fn lemma_index_points_at_declarations<H: CompileTimePool>(pool: &H, tag: TypeTag)
    requires
        pool_tag_map(pool).contains_key(tag),
    ensures
        exists|slot: int|
            #[trigger] declares(pool, slot, tag) && pool.pool_ptr(slot) == pool_tag_map(pool)[tag],
{
    lemma_prefix_points_at_declarations(pool, pool.pool_len() as int, tag);
}

proof fn lemma_prefix_points_at_declarations<H: CompileTimePool>(pool: &H, n: int, tag: TypeTag)
    requires
        0 <= n <= pool.pool_len(),
        tag_map_prefix(pool, n).contains_key(tag),
    ensures
        exists|slot: int|
            #[trigger] declares(pool, slot, tag) && pool.pool_ptr(slot) == tag_map_prefix(
                pool,
                n,
            )[tag],
    decreases n,
{
    if pool.pool_object(n - 1).declared_tag() == Some(tag) {
        assert(declares(pool, n - 1, tag));
    } else {
        lemma_prefix_points_at_declarations(pool, n - 1, tag);
    }
}

/// Only the four declaration kinds (classes, interfaces, type aliases and
/// enums) are declarations, each by the tag it carries.
pub proof fn lemma_declaration_kinds(o: Object)
    ensures
        o.declared_tag() is Some <==> (o is Class || o is Interface || o is TypeAlias || o is Enum),
        o matches Object::Class(c) ==> o.declared_tag() == Some(c.type_tag),
        o matches Object::Interface(i) ==> o.declared_tag() == Some(i.type_tag),
        o matches Object::TypeAlias(a) ==> o.declared_tag() == Some(a.type_tag),
        o matches Object::Enum(e) ==> o.declared_tag() == Some(e.type_tag),
{
}

/// After resolution against the index of a pool, a head whose tag the pool
/// declares points at the last declaration of that tag; any other head points
/// nowhere. Its tag is unchanged either way.
pub proof fn lemma_resolution_points_at_declaration<H: CompileTimePool>(pool: &H, head: TypeHead)
    ensures
        resolved_head(pool_tag_map(pool), head).tag == head.tag,
        forall|slot: int|
            #[trigger] declares(pool, slot, head.tag) && (forall|later: int|
                slot < later ==> !#[trigger] declares(pool, later, head.tag)) ==> resolved_head(
                pool_tag_map(pool),
                head,
            ).decl == Some(pool.pool_ptr(slot)),
        (forall|slot: int| !#[trigger] declares(pool, slot, head.tag)) ==> resolved_head(
            pool_tag_map(pool),
            head,
        ).decl is None,
{
    lemma_index_domain(pool, head.tag);
    assert forall|slot: int|
        #[trigger] declares(pool, slot, head.tag) && (forall|later: int|
            slot < later ==> !#[trigger] declares(pool, later, head.tag)) implies resolved_head(
        pool_tag_map(pool),
        head,
    ).decl == Some(pool.pool_ptr(slot)) by {
        lemma_index_latest_declaration(pool, head.tag, slot);
    }
}

/// Resolving a resolved head changes nothing: filling in access paths a
/// second time leaves every head as the first pass left it.
pub proof fn lemma_resolution_idempotent(m: Map<TypeTag, HeapPtr>, hs: Seq<TypeHead>)
    ensures
        hs.map_values(|h: TypeHead| resolved_head(m, h)).map_values(
            |h: TypeHead| resolved_head(m, h),
        ) == hs.map_values(|h: TypeHead| resolved_head(m, h)),
{
    assert(hs.map_values(|h: TypeHead| resolved_head(m, h)).map_values(
        |h: TypeHead| resolved_head(m, h),
    ) =~= hs.map_values(|h: TypeHead| resolved_head(m, h)));
}

} // verus!
