//! Heap objects, as far as the types they carry go, and the walk that visits
//! every [`TypeHead`] an object holds.
use vstd::prelude::*;
use crate::ty::{
    HeadCarrier, HeadVisitor, HeapPtr, Ty, TypeHead, TypeTag, seq_heads, seq_same_shape,
    ty_heads, ty_same_shape, tys_heads, tys_same_shape, visit_tys, visit_vec_heads,
    lemma_visit_seq_append, visit_seq,
};

verus! {

/// A field of a class declaration.
pub struct Field {
    pub name: String,
    pub field_type: Ty,
    pub field_template: Ty,
}

/// A class declaration.
pub struct Class {
    pub type_tag: TypeTag,
    pub name: String,
    pub fields: Vec<Field>,
}

/// A field an interface requires.
pub struct InterfaceField {
    pub name: String,
    pub ty: Ty,
}

/// A method an interface requires.
pub struct InterfaceMethod {
    pub name: String,
    pub args: Vec<Ty>,
    pub kwargs: Vec<(String, Ty)>,
    pub returns: Ty,
    pub errors: Ty,
}

/// An interface declaration: its type parameters with their bounds, the
/// interfaces it requires, its associated types, fields and methods.
pub struct Interface {
    pub type_tag: TypeTag,
    pub name: String,
    pub args: Vec<(String, Vec<Ty>)>,
    pub requires: Vec<Ty>,
    pub assoc: Vec<(String, Ty)>,
    pub fields: Vec<InterfaceField>,
    pub methods: Vec<InterfaceMethod>,
}

/// A bound `T: Interface<args, assoc = ..>` on a generic parameter.
pub struct InterfaceBound {
    pub interface: TypeHead,
    pub args: Vec<Ty>,
    pub assoc: Vec<(String, Ty)>,
}

/// A method of an impl rule, with the types of its frame.
pub struct ImplMethod {
    pub name: String,
    pub frame: Vec<Ty>,
}

/// An impl rule: which types implement an interface, under which bounds,
/// with its methods in the order the rule lists them.
pub struct ImplRule {
    pub for_ty_pattern: Ty,
    pub generic_param_bounds: Vec<Vec<InterfaceBound>>,
    pub interface_args: Vec<Ty>,
    pub interface_assoc: Vec<(String, Ty)>,
    pub methods: Vec<ImplMethod>,
}

/// A constant of a function's bytecode.
pub enum ConstValue {
    Null,
    Int(i64),
    Bool(bool),
    Str(String),
    /// A type pattern, as used by `match` and `is`.
    Type(Ty),
    /// A class together with templates for its type arguments.
    ClassWithTypeArgs { class: HeapPtr, type_args_templates: Vec<Ty> },
}

/// The bytecode of a function.
pub struct Bytecode {
    pub constants: Vec<ConstValue>,
}

/// A compiled function.
pub struct Function {
    pub name: String,
    pub return_type: Ty,
    pub throws_type: Ty,
    pub param_types: Vec<Ty>,
    pub bytecode: Bytecode,
}

/// A type alias declaration.
pub struct TypeAlias {
    pub type_tag: TypeTag,
    pub name: String,
    pub definition: Ty,
}

/// An enum declaration.
pub struct EnumDecl {
    pub type_tag: TypeTag,
    pub name: String,
    pub variants: Vec<String>,
}

/// An instance of a class, with the type arguments it was created at.
pub struct Instance {
    pub class: HeapPtr,
    pub class_type_args: Vec<Ty>,
}

/// A closure, with the type arguments of the frame it captured.
pub struct Closure {
    pub function: HeapPtr,
    pub captured_type_args: Vec<Ty>,
}

/// A method bound to its receiver.
pub struct BoundMethod {
    pub method: HeapPtr,
    pub type_args: Vec<Ty>,
}

/// A generic function applied to type arguments.
pub struct GenericFunction {
    pub function: HeapPtr,
    pub type_args: Vec<Ty>,
}

/// A parameter of a host closure.
pub struct HostParam {
    pub name: String,
    pub ty: Ty,
}

/// A closure provided by the host.
pub struct HostClosure {
    pub ret_ty: Ty,
    pub throws_ty: Ty,
    pub params: Vec<HostParam>,
}

/// A future that has not been scheduled yet.
pub struct UnscheduledFuture {
    pub returns: Ty,
    pub throws: Ty,
}

/// An array, with its element type.
pub struct Array {
    pub element_ty: Ty,
}

/// A map, with its key and value types.
pub struct Dict {
    pub key_ty: Ty,
    pub value_ty: Ty,
}

/// A heap object.
///
/// The variants from `Package` on hold no type: `Package` and `Enum`
/// reference declarations by pointer or hold only names and variant metadata;
/// the rest are plain values, whose payloads are kept opaque here.
pub enum Object {
    Class(Class),
    Interface(Interface),
    ImplRule(ImplRule),
    Function(Function),
    TypeAlias(TypeAlias),
    Instance(Instance),
    Closure(Closure),
    BoundMethod(BoundMethod),
    GenericFunction(GenericFunction),
    HostClosure(HostClosure),
    UnscheduledFuture(UnscheduledFuture),
    Array(Array),
    Dict(Dict),
    Type(Ty),
    Package(String),
    Enum(EnumDecl),
    Variant(HeapPtr),
    Cell(HeapPtr),
    String(String),
    Bigint(Vec<u8>),
    Uint8Array(Vec<u8>),
    RustData(u64),
    Collector(u64),
    Float(u64),
    Future(u64),
}

impl HeadCarrier for Field {
    open spec fn heads(&self) -> Seq<TypeHead> {
        ty_heads(self.field_type) + ty_heads(self.field_template)
    }

    open spec fn same_shape(&self, other: Self) -> bool {
        &&& self.name == other.name
        &&& ty_same_shape(self.field_type, other.field_type)
        &&& ty_same_shape(self.field_template, other.field_template)
    }

    fn visit_heads_mut<V: HeadVisitor>(&mut self, f: &mut V) {
        let ghost f0 = f@;
        let ghost a = ty_heads(self.field_type);
        let ghost b = ty_heads(self.field_template);
        self.field_type.visit_heads_mut(f);
        self.field_template.visit_heads_mut(f);
        proof {
            lemma_visit_seq_append::<V>(f0, a, b);
        }
    }
}

impl HeadCarrier for (String, Ty) {
    open spec fn heads(&self) -> Seq<TypeHead> {
        ty_heads(self.1)
    }

    open spec fn same_shape(&self, other: Self) -> bool {
        self.0 == other.0 && ty_same_shape(self.1, other.1)
    }

    fn visit_heads_mut<V: HeadVisitor>(&mut self, f: &mut V) {
        self.1.visit_heads_mut(f);
    }
}

impl HeadCarrier for (String, Vec<Ty>) {
    open spec fn heads(&self) -> Seq<TypeHead> {
        tys_heads(self.1@)
    }

    open spec fn same_shape(&self, other: Self) -> bool {
        self.0 == other.0 && tys_same_shape(self.1@, other.1@)
    }

    fn visit_heads_mut<V: HeadVisitor>(&mut self, f: &mut V) {
        visit_tys(&mut self.1, f);
    }
}

impl HeadCarrier for InterfaceField {
    open spec fn heads(&self) -> Seq<TypeHead> {
        ty_heads(self.ty)
    }

    open spec fn same_shape(&self, other: Self) -> bool {
        self.name == other.name && ty_same_shape(self.ty, other.ty)
    }

    fn visit_heads_mut<V: HeadVisitor>(&mut self, f: &mut V) {
        self.ty.visit_heads_mut(f);
    }
}

impl HeadCarrier for InterfaceMethod {
    open spec fn heads(&self) -> Seq<TypeHead> {
        tys_heads(self.args@) + seq_heads(self.kwargs@) + ty_heads(self.returns) + ty_heads(
            self.errors,
        )
    }

    open spec fn same_shape(&self, other: Self) -> bool {
        &&& self.name == other.name
        &&& tys_same_shape(self.args@, other.args@)
        &&& seq_same_shape(self.kwargs@, other.kwargs@)
        &&& ty_same_shape(self.returns, other.returns)
        &&& ty_same_shape(self.errors, other.errors)
    }

    fn visit_heads_mut<V: HeadVisitor>(&mut self, f: &mut V) {
        let ghost f0 = f@;
        let ghost a = tys_heads(self.args@);
        let ghost b = seq_heads(self.kwargs@);
        let ghost c = ty_heads(self.returns);
        let ghost d = ty_heads(self.errors);
        visit_tys(&mut self.args, f);
        visit_vec_heads(&mut self.kwargs, f);
        self.returns.visit_heads_mut(f);
        self.errors.visit_heads_mut(f);
        proof {
            lemma_visit_seq_append::<V>(f0, a, b);
            lemma_visit_seq_append::<V>(f0, a + b, c);
            lemma_visit_seq_append::<V>(f0, a + b + c, d);
        }
    }
}

impl HeadCarrier for Interface {
    open spec fn heads(&self) -> Seq<TypeHead> {
        seq_heads(self.args@) + tys_heads(self.requires@) + seq_heads(self.assoc@) + seq_heads(
            self.fields@,
        ) + seq_heads(self.methods@)
    }

    open spec fn same_shape(&self, other: Self) -> bool {
        &&& self.type_tag == other.type_tag
        &&& self.name == other.name
        &&& seq_same_shape(self.args@, other.args@)
        &&& tys_same_shape(self.requires@, other.requires@)
        &&& seq_same_shape(self.assoc@, other.assoc@)
        &&& seq_same_shape(self.fields@, other.fields@)
        &&& seq_same_shape(self.methods@, other.methods@)
    }

    fn visit_heads_mut<V: HeadVisitor>(&mut self, f: &mut V) {
        let ghost f0 = f@;
        let ghost a = seq_heads(self.args@);
        let ghost b = tys_heads(self.requires@);
        let ghost c = seq_heads(self.assoc@);
        let ghost d = seq_heads(self.fields@);
        let ghost e = seq_heads(self.methods@);
        visit_vec_heads(&mut self.args, f);
        visit_tys(&mut self.requires, f);
        visit_vec_heads(&mut self.assoc, f);
        visit_vec_heads(&mut self.fields, f);
        visit_vec_heads(&mut self.methods, f);
        proof {
            lemma_visit_seq_append::<V>(f0, a, b);
            lemma_visit_seq_append::<V>(f0, a + b, c);
            lemma_visit_seq_append::<V>(f0, a + b + c, d);
            lemma_visit_seq_append::<V>(f0, a + b + c + d, e);
        }
    }
}

impl HeadCarrier for InterfaceBound {
    open spec fn heads(&self) -> Seq<TypeHead> {
        seq![self.interface] + tys_heads(self.args@) + seq_heads(self.assoc@)
    }

    open spec fn same_shape(&self, other: Self) -> bool {
        &&& tys_same_shape(self.args@, other.args@)
        &&& seq_same_shape(self.assoc@, other.assoc@)
    }

    fn visit_heads_mut<V: HeadVisitor>(&mut self, f: &mut V) {
        let ghost f0 = f@;
        let ghost h0 = self.interface;
        let ghost b = tys_heads(self.args@);
        let ghost c = seq_heads(self.assoc@);
        f.visit(&mut self.interface);
        let ghost f1 = f@;
        let ghost h1 = self.interface;
        visit_tys(&mut self.args, f);
        visit_vec_heads(&mut self.assoc, f);
        proof {
            reveal_with_fuel(visit_seq, 2);
            assert(seq![h0].drop_first() =~= Seq::<TypeHead>::empty());
            assert(seq![h1] + Seq::<TypeHead>::empty() =~= seq![h1]);
            assert(visit_seq::<V>(f0, seq![h0]) == (f1, seq![h1]));
            lemma_visit_seq_append::<V>(f0, seq![h0], b);
            lemma_visit_seq_append::<V>(f0, seq![h0] + b, c);
        }
    }
}

impl HeadCarrier for Vec<InterfaceBound> {
    open spec fn heads(&self) -> Seq<TypeHead> {
        seq_heads(self@)
    }

    open spec fn same_shape(&self, other: Self) -> bool {
        seq_same_shape(self@, other@)
    }

    fn visit_heads_mut<V: HeadVisitor>(&mut self, f: &mut V) {
        visit_vec_heads(self, f);
    }
}

impl HeadCarrier for ImplMethod {
    open spec fn heads(&self) -> Seq<TypeHead> {
        tys_heads(self.frame@)
    }

    open spec fn same_shape(&self, other: Self) -> bool {
        self.name == other.name && tys_same_shape(self.frame@, other.frame@)
    }

    fn visit_heads_mut<V: HeadVisitor>(&mut self, f: &mut V) {
        visit_tys(&mut self.frame, f);
    }
}

impl HeadCarrier for ImplRule {
    open spec fn heads(&self) -> Seq<TypeHead> {
        ty_heads(self.for_ty_pattern) + seq_heads(self.generic_param_bounds@) + tys_heads(
            self.interface_args@,
        ) + seq_heads(self.interface_assoc@) + seq_heads(self.methods@)
    }

    open spec fn same_shape(&self, other: Self) -> bool {
        &&& ty_same_shape(self.for_ty_pattern, other.for_ty_pattern)
        &&& seq_same_shape(self.generic_param_bounds@, other.generic_param_bounds@)
        &&& tys_same_shape(self.interface_args@, other.interface_args@)
        &&& seq_same_shape(self.interface_assoc@, other.interface_assoc@)
        &&& seq_same_shape(self.methods@, other.methods@)
    }

    fn visit_heads_mut<V: HeadVisitor>(&mut self, f: &mut V) {
        let ghost f0 = f@;
        let ghost a = ty_heads(self.for_ty_pattern);
        let ghost b = seq_heads(self.generic_param_bounds@);
        let ghost c = tys_heads(self.interface_args@);
        let ghost d = seq_heads(self.interface_assoc@);
        let ghost e = seq_heads(self.methods@);
        self.for_ty_pattern.visit_heads_mut(f);
        visit_vec_heads(&mut self.generic_param_bounds, f);
        visit_tys(&mut self.interface_args, f);
        visit_vec_heads(&mut self.interface_assoc, f);
        visit_vec_heads(&mut self.methods, f);
        proof {
            lemma_visit_seq_append::<V>(f0, a, b);
            lemma_visit_seq_append::<V>(f0, a + b, c);
            lemma_visit_seq_append::<V>(f0, a + b + c, d);
            lemma_visit_seq_append::<V>(f0, a + b + c + d, e);
        }
    }
}

impl HeadCarrier for ConstValue {
    open spec fn heads(&self) -> Seq<TypeHead> {
        match self {
            ConstValue::Type(t) => ty_heads(*t),
            ConstValue::ClassWithTypeArgs { type_args_templates, .. } => tys_heads(
                type_args_templates@,
            ),
            ConstValue::Null
            | ConstValue::Int(_)
            | ConstValue::Bool(_)
            | ConstValue::Str(_) => Seq::empty(),
        }
    }

    open spec fn same_shape(&self, other: Self) -> bool {
        match *self {
            ConstValue::Type(t) => match other {
                ConstValue::Type(u) => ty_same_shape(t, u),
                _ => false,
            },
            ConstValue::ClassWithTypeArgs { class, type_args_templates } => match other {
                ConstValue::ClassWithTypeArgs { class: c2, type_args_templates: ts2 } => class
                    == c2 && tys_same_shape(type_args_templates@, ts2@),
                _ => false,
            },
            ConstValue::Null
            | ConstValue::Int(_)
            | ConstValue::Bool(_)
            | ConstValue::Str(_) => *self == other,
        }
    }

    fn visit_heads_mut<V: HeadVisitor>(&mut self, f: &mut V) {
        let mut c = ConstValue::Null;
        std::mem::swap(self, &mut c);
        match c {
            ConstValue::Type(mut t) => {
                t.visit_heads_mut(f);
                *self = ConstValue::Type(t);
            },
            ConstValue::ClassWithTypeArgs { class, mut type_args_templates } => {
                visit_tys(&mut type_args_templates, f);
                *self = ConstValue::ClassWithTypeArgs { class, type_args_templates };
            },
            ConstValue::Null => {
                *self = ConstValue::Null;
            },
            ConstValue::Int(x) => {
                *self = ConstValue::Int(x);
            },
            ConstValue::Bool(x) => {
                *self = ConstValue::Bool(x);
            },
            ConstValue::Str(x) => {
                *self = ConstValue::Str(x);
            },
        }
    }
}

impl HeadCarrier for Function {
    open spec fn heads(&self) -> Seq<TypeHead> {
        ty_heads(self.return_type) + ty_heads(self.throws_type) + tys_heads(self.param_types@)
            + seq_heads(self.bytecode.constants@)
    }

    open spec fn same_shape(&self, other: Self) -> bool {
        &&& self.name == other.name
        &&& ty_same_shape(self.return_type, other.return_type)
        &&& ty_same_shape(self.throws_type, other.throws_type)
        &&& tys_same_shape(self.param_types@, other.param_types@)
        &&& seq_same_shape(self.bytecode.constants@, other.bytecode.constants@)
    }

    fn visit_heads_mut<V: HeadVisitor>(&mut self, f: &mut V) {
        let ghost f0 = f@;
        let ghost a = ty_heads(self.return_type);
        let ghost b = ty_heads(self.throws_type);
        let ghost c = tys_heads(self.param_types@);
        let ghost d = seq_heads(self.bytecode.constants@);
        self.return_type.visit_heads_mut(f);
        self.throws_type.visit_heads_mut(f);
        visit_tys(&mut self.param_types, f);
        visit_vec_heads(&mut self.bytecode.constants, f);
        proof {
            lemma_visit_seq_append::<V>(f0, a, b);
            lemma_visit_seq_append::<V>(f0, a + b, c);
            lemma_visit_seq_append::<V>(f0, a + b + c, d);
        }
    }
}

impl HeadCarrier for HostParam {
    open spec fn heads(&self) -> Seq<TypeHead> {
        ty_heads(self.ty)
    }

    open spec fn same_shape(&self, other: Self) -> bool {
        self.name == other.name && ty_same_shape(self.ty, other.ty)
    }

    fn visit_heads_mut<V: HeadVisitor>(&mut self, f: &mut V) {
        self.ty.visit_heads_mut(f);
    }
}

impl HeadCarrier for Class {
    open spec fn heads(&self) -> Seq<TypeHead> {
        seq_heads(self.fields@)
    }

    open spec fn same_shape(&self, other: Self) -> bool {
        &&& self.type_tag == other.type_tag
        &&& self.name == other.name
        &&& seq_same_shape(self.fields@, other.fields@)
    }

    fn visit_heads_mut<V: HeadVisitor>(&mut self, f: &mut V) {
        visit_vec_heads(&mut self.fields, f);
    }
}

impl HeadCarrier for TypeAlias {
    open spec fn heads(&self) -> Seq<TypeHead> {
        ty_heads(self.definition)
    }

    open spec fn same_shape(&self, other: Self) -> bool {
        &&& self.type_tag == other.type_tag
        &&& self.name == other.name
        &&& ty_same_shape(self.definition, other.definition)
    }

    fn visit_heads_mut<V: HeadVisitor>(&mut self, f: &mut V) {
        self.definition.visit_heads_mut(f);
    }
}

impl HeadCarrier for Instance {
    open spec fn heads(&self) -> Seq<TypeHead> {
        tys_heads(self.class_type_args@)
    }

    open spec fn same_shape(&self, other: Self) -> bool {
        self.class == other.class && tys_same_shape(self.class_type_args@, other.class_type_args@)
    }

    fn visit_heads_mut<V: HeadVisitor>(&mut self, f: &mut V) {
        visit_tys(&mut self.class_type_args, f);
    }
}

impl HeadCarrier for Closure {
    open spec fn heads(&self) -> Seq<TypeHead> {
        tys_heads(self.captured_type_args@)
    }

    open spec fn same_shape(&self, other: Self) -> bool {
        self.function == other.function && tys_same_shape(self.captured_type_args@, other.captured_type_args@)
    }

    fn visit_heads_mut<V: HeadVisitor>(&mut self, f: &mut V) {
        visit_tys(&mut self.captured_type_args, f);
    }
}

impl HeadCarrier for BoundMethod {
    open spec fn heads(&self) -> Seq<TypeHead> {
        tys_heads(self.type_args@)
    }

    open spec fn same_shape(&self, other: Self) -> bool {
        self.method == other.method && tys_same_shape(self.type_args@, other.type_args@)
    }

    fn visit_heads_mut<V: HeadVisitor>(&mut self, f: &mut V) {
        visit_tys(&mut self.type_args, f);
    }
}

impl HeadCarrier for GenericFunction {
    open spec fn heads(&self) -> Seq<TypeHead> {
        tys_heads(self.type_args@)
    }

    open spec fn same_shape(&self, other: Self) -> bool {
        self.function == other.function && tys_same_shape(self.type_args@, other.type_args@)
    }

    fn visit_heads_mut<V: HeadVisitor>(&mut self, f: &mut V) {
        visit_tys(&mut self.type_args, f);
    }
}

impl HeadCarrier for HostClosure {
    open spec fn heads(&self) -> Seq<TypeHead> {
        ty_heads(self.ret_ty) + ty_heads(self.throws_ty) + seq_heads(self.params@)
    }

    open spec fn same_shape(&self, other: Self) -> bool {
        &&& ty_same_shape(self.ret_ty, other.ret_ty)
        &&& ty_same_shape(self.throws_ty, other.throws_ty)
        &&& seq_same_shape(self.params@, other.params@)
    }

    fn visit_heads_mut<V: HeadVisitor>(&mut self, f: &mut V) {
        let ghost f0 = f@;
        let ghost a = ty_heads(self.ret_ty);
        let ghost b = ty_heads(self.throws_ty);
        let ghost c = seq_heads(self.params@);
        self.ret_ty.visit_heads_mut(f);
        self.throws_ty.visit_heads_mut(f);
        visit_vec_heads(&mut self.params, f);
        proof {
            lemma_visit_seq_append::<V>(f0, a, b);
            lemma_visit_seq_append::<V>(f0, a + b, c);
        }
    }
}

impl HeadCarrier for UnscheduledFuture {
    open spec fn heads(&self) -> Seq<TypeHead> {
        ty_heads(self.returns) + ty_heads(self.throws)
    }

    open spec fn same_shape(&self, other: Self) -> bool {
        ty_same_shape(self.returns, other.returns) && ty_same_shape(self.throws, other.throws)
    }

    fn visit_heads_mut<V: HeadVisitor>(&mut self, f: &mut V) {
        let ghost f0 = f@;
        let ghost a = ty_heads(self.returns);
        let ghost b = ty_heads(self.throws);
        self.returns.visit_heads_mut(f);
        self.throws.visit_heads_mut(f);
        proof {
            lemma_visit_seq_append::<V>(f0, a, b);
        }
    }
}

impl HeadCarrier for Array {
    open spec fn heads(&self) -> Seq<TypeHead> {
        ty_heads(self.element_ty)
    }

    open spec fn same_shape(&self, other: Self) -> bool {
        ty_same_shape(self.element_ty, other.element_ty)
    }

    fn visit_heads_mut<V: HeadVisitor>(&mut self, f: &mut V) {
        self.element_ty.visit_heads_mut(f);
    }
}

impl HeadCarrier for Dict {
    open spec fn heads(&self) -> Seq<TypeHead> {
        ty_heads(self.key_ty) + ty_heads(self.value_ty)
    }

    open spec fn same_shape(&self, other: Self) -> bool {
        ty_same_shape(self.key_ty, other.key_ty) && ty_same_shape(self.value_ty, other.value_ty)
    }

    fn visit_heads_mut<V: HeadVisitor>(&mut self, f: &mut V) {
        let ghost f0 = f@;
        let ghost a = ty_heads(self.key_ty);
        let ghost b = ty_heads(self.value_ty);
        self.key_ty.visit_heads_mut(f);
        self.value_ty.visit_heads_mut(f);
        proof {
            lemma_visit_seq_append::<V>(f0, a, b);
        }
    }
}

impl Object {
    /// The tag of the declaration this object is, if it is one of the four
    /// declaration kinds that mint a head.
    pub open spec fn declared_tag(self) -> Option<TypeTag> {
        match self {
            Object::Class(c) => Some(c.type_tag),
            Object::Interface(i) => Some(i.type_tag),
            Object::TypeAlias(a) => Some(a.type_tag),
            Object::Enum(e) => Some(e.type_tag),
            Object::ImplRule(_)
            | Object::Function(_)
            | Object::Instance(_)
            | Object::Closure(_)
            | Object::BoundMethod(_)
            | Object::GenericFunction(_)
            | Object::HostClosure(_)
            | Object::UnscheduledFuture(_)
            | Object::Array(_)
            | Object::Dict(_)
            | Object::Type(_)
            | Object::Package(_)
            | Object::Variant(_)
            | Object::Cell(_)
            | Object::String(_)
            | Object::Bigint(_)
            | Object::Uint8Array(_)
            | Object::RustData(_)
            | Object::Collector(_)
            | Object::Float(_)
            | Object::Future(_) => None,
        }
    }

    /// The tag of the declaration this object is, if it is one.
    pub fn declared_type_tag(&self) -> (tag: Option<TypeTag>)
        ensures
            tag == self.declared_tag(),
    {
        match self {
            Object::Class(c) => Some(c.type_tag),
            Object::Interface(i) => Some(i.type_tag),
            Object::TypeAlias(a) => Some(a.type_tag),
            Object::Enum(e) => Some(e.type_tag),
            Object::ImplRule(_)
            | Object::Function(_)
            | Object::Instance(_)
            | Object::Closure(_)
            | Object::BoundMethod(_)
            | Object::GenericFunction(_)
            | Object::HostClosure(_)
            | Object::UnscheduledFuture(_)
            | Object::Array(_)
            | Object::Dict(_)
            | Object::Type(_)
            | Object::Package(_)
            | Object::Variant(_)
            | Object::Cell(_)
            | Object::String(_)
            | Object::Bigint(_)
            | Object::Uint8Array(_)
            | Object::RustData(_)
            | Object::Collector(_)
            | Object::Float(_)
            | Object::Future(_) => None,
        }
    }
}

impl HeadCarrier for Object {
    open spec fn heads(&self) -> Seq<TypeHead> {
        match self {
            Object::Class(c) => c.heads(),
            Object::Interface(i) => i.heads(),
            Object::ImplRule(r) => r.heads(),
            Object::Function(func) => func.heads(),
            Object::TypeAlias(a) => a.heads(),
            Object::Instance(x) => x.heads(),
            Object::Closure(x) => x.heads(),
            Object::BoundMethod(x) => x.heads(),
            Object::GenericFunction(x) => x.heads(),
            Object::HostClosure(x) => x.heads(),
            Object::UnscheduledFuture(x) => x.heads(),
            Object::Array(x) => x.heads(),
            Object::Dict(x) => x.heads(),
            Object::Type(t) => ty_heads(*t),
            Object::Package(_)
            | Object::Enum(_)
            | Object::Variant(_)
            | Object::Cell(_)
            | Object::String(_)
            | Object::Bigint(_)
            | Object::Uint8Array(_)
            | Object::RustData(_)
            | Object::Collector(_)
            | Object::Float(_)
            | Object::Future(_) => Seq::empty(),
        }
    }

    open spec fn same_shape(&self, other: Self) -> bool {
        match *self {
            Object::Class(a) => other matches Object::Class(b) && a.same_shape(b),
            Object::Interface(a) => other matches Object::Interface(b) && a.same_shape(b),
            Object::ImplRule(a) => other matches Object::ImplRule(b) && a.same_shape(b),
            Object::Function(a) => other matches Object::Function(b) && a.same_shape(b),
            Object::TypeAlias(a) => other matches Object::TypeAlias(b) && a.same_shape(b),
            Object::Instance(a) => other matches Object::Instance(b) && a.same_shape(b),
            Object::Closure(a) => other matches Object::Closure(b) && a.same_shape(b),
            Object::BoundMethod(a) => other matches Object::BoundMethod(b) && a.same_shape(b),
            Object::GenericFunction(a) => other matches Object::GenericFunction(b) && a.same_shape(
                b,
            ),
            Object::HostClosure(a) => other matches Object::HostClosure(b) && a.same_shape(b),
            Object::UnscheduledFuture(a) => other matches Object::UnscheduledFuture(b)
                && a.same_shape(b),
            Object::Array(a) => other matches Object::Array(b) && a.same_shape(b),
            Object::Dict(a) => other matches Object::Dict(b) && a.same_shape(b),
            Object::Type(a) => other matches Object::Type(b) && ty_same_shape(a, b),
            Object::Package(_)
            | Object::Enum(_)
            | Object::Variant(_)
            | Object::Cell(_)
            | Object::String(_)
            | Object::Bigint(_)
            | Object::Uint8Array(_)
            | Object::RustData(_)
            | Object::Collector(_)
            | Object::Float(_)
            | Object::Future(_) => *self == other,
        }
    }

    fn visit_heads_mut<V: HeadVisitor>(&mut self, f: &mut V) {
        let mut o = Object::Collector(0);
        std::mem::swap(self, &mut o);
        match o {
            Object::Class(mut x) => {
                x.visit_heads_mut(f);
                *self = Object::Class(x);
            },
            Object::Interface(mut x) => {
                x.visit_heads_mut(f);
                *self = Object::Interface(x);
            },
            Object::ImplRule(mut x) => {
                x.visit_heads_mut(f);
                *self = Object::ImplRule(x);
            },
            Object::Function(mut x) => {
                x.visit_heads_mut(f);
                *self = Object::Function(x);
            },
            Object::TypeAlias(mut x) => {
                x.visit_heads_mut(f);
                *self = Object::TypeAlias(x);
            },
            Object::Instance(mut x) => {
                x.visit_heads_mut(f);
                *self = Object::Instance(x);
            },
            Object::Closure(mut x) => {
                x.visit_heads_mut(f);
                *self = Object::Closure(x);
            },
            Object::BoundMethod(mut x) => {
                x.visit_heads_mut(f);
                *self = Object::BoundMethod(x);
            },
            Object::GenericFunction(mut x) => {
                x.visit_heads_mut(f);
                *self = Object::GenericFunction(x);
            },
            Object::HostClosure(mut x) => {
                x.visit_heads_mut(f);
                *self = Object::HostClosure(x);
            },
            Object::UnscheduledFuture(mut x) => {
                x.visit_heads_mut(f);
                *self = Object::UnscheduledFuture(x);
            },
            Object::Array(mut x) => {
                x.visit_heads_mut(f);
                *self = Object::Array(x);
            },
            Object::Dict(mut x) => {
                x.visit_heads_mut(f);
                *self = Object::Dict(x);
            },
            Object::Type(mut x) => {
                x.visit_heads_mut(f);
                *self = Object::Type(x);
            },
            Object::Package(x) => {
                *self = Object::Package(x);
            },
            Object::Enum(x) => {
                *self = Object::Enum(x);
            },
            Object::Variant(x) => {
                *self = Object::Variant(x);
            },
            Object::Cell(x) => {
                *self = Object::Cell(x);
            },
            Object::String(x) => {
                *self = Object::String(x);
            },
            Object::Bigint(x) => {
                *self = Object::Bigint(x);
            },
            Object::Uint8Array(x) => {
                *self = Object::Uint8Array(x);
            },
            Object::RustData(x) => {
                *self = Object::RustData(x);
            },
            Object::Collector(x) => {
                *self = Object::Collector(x);
            },
            Object::Float(x) => {
                *self = Object::Float(x);
            },
            Object::Future(x) => {
                *self = Object::Future(x);
            },
        }
    }
}

/// Call `f` on every [`TypeHead`] reachable from `object`, in a fixed order,
/// and change nothing else.
///
/// The walk within each type is the type's own; this function lists the
/// type-carrying fields of each kind of object. Objects that carry no type
/// (packages, enums and plain values) are left as they are.
pub fn visit_object_heads_mut<V: HeadVisitor>(object: &mut Object, f: &mut V)
    ensures
        (final(f)@, final(object).heads()) == visit_seq::<V>(old(f)@, old(object).heads()),
        old(object).same_shape(*final(object)),
{
    object.visit_heads_mut(f);
}

/// The heads an object's walk visits are all the heads its type fields carry,
/// field by field in declaration order, and an object without type fields
/// carries none.
pub proof fn lemma_object_heads(o: Object)
    ensures
        o matches Object::Class(c) ==> o.heads() == seq_heads(c.fields@),
        o matches Object::Interface(i) ==> o.heads() == seq_heads(i.args@) + tys_heads(
            i.requires@,
        ) + seq_heads(i.assoc@) + seq_heads(i.fields@) + seq_heads(i.methods@),
        o matches Object::ImplRule(r) ==> o.heads() == ty_heads(r.for_ty_pattern) + seq_heads(
            r.generic_param_bounds@,
        ) + tys_heads(r.interface_args@) + seq_heads(r.interface_assoc@) + seq_heads(r.methods@),
        o matches Object::Function(x) ==> o.heads() == ty_heads(x.return_type) + ty_heads(
            x.throws_type,
        ) + tys_heads(x.param_types@) + seq_heads(x.bytecode.constants@),
        o matches Object::TypeAlias(a) ==> o.heads() == ty_heads(a.definition),
        o matches Object::Instance(x) ==> o.heads() == tys_heads(x.class_type_args@),
        o matches Object::Closure(x) ==> o.heads() == tys_heads(x.captured_type_args@),
        o matches Object::BoundMethod(x) ==> o.heads() == tys_heads(x.type_args@),
        o matches Object::GenericFunction(x) ==> o.heads() == tys_heads(x.type_args@),
        o matches Object::HostClosure(x) ==> o.heads() == ty_heads(x.ret_ty) + ty_heads(
            x.throws_ty,
        ) + seq_heads(x.params@),
        o matches Object::UnscheduledFuture(x) ==> o.heads() == ty_heads(x.returns) + ty_heads(
            x.throws,
        ),
        o matches Object::Array(x) ==> o.heads() == ty_heads(x.element_ty),
        o matches Object::Dict(x) ==> o.heads() == ty_heads(x.key_ty) + ty_heads(x.value_ty),
        o matches Object::Type(t) ==> o.heads() == ty_heads(t),
        (o is Package || o is Enum || o is Variant || o is Cell || o is String || o is Bigint
            || o is Uint8Array || o is RustData || o is Collector || o is Float || o is Future)
            ==> o.heads() == Seq::<TypeHead>::empty(),
{
}

/// The parts of objects carry the heads of all their type fields, in order.
pub proof fn lemma_part_heads(
    field: Field,
    named: (String, Ty),
    bounds: (String, Vec<Ty>),
    ifield: InterfaceField,
    method: InterfaceMethod,
    bound: InterfaceBound,
    bound_list: Vec<InterfaceBound>,
    imethod: ImplMethod,
    constant: ConstValue,
    param: HostParam,
)
    ensures
        field.heads() == ty_heads(field.field_type) + ty_heads(field.field_template),
        named.heads() == ty_heads(named.1),
        bounds.heads() == tys_heads(bounds.1@),
        ifield.heads() == ty_heads(ifield.ty),
        method.heads() == tys_heads(method.args@) + seq_heads(method.kwargs@) + ty_heads(
            method.returns,
        ) + ty_heads(method.errors),
        bound.heads() == seq![bound.interface] + tys_heads(bound.args@) + seq_heads(bound.assoc@),
        bound_list.heads() == seq_heads(bound_list@),
        imethod.heads() == tys_heads(imethod.frame@),
        constant matches ConstValue::Type(t) ==> constant.heads() == ty_heads(t),
        constant matches ConstValue::ClassWithTypeArgs { type_args_templates, .. }
            ==> constant.heads() == tys_heads(type_args_templates@),
        (constant is Null || constant is Int || constant is Bool || constant is Str)
            ==> constant.heads() == Seq::<TypeHead>::empty(),
        param.heads() == ty_heads(param.ty),
{
}

} // verus!
