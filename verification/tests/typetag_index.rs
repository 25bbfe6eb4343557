use bex_vm_types::object::{
    Array, Class, ConstValue, Dict, EnumDecl, Field, Function, Bytecode, ImplMethod, ImplRule,
    Interface, InterfaceBound, InterfaceField, InterfaceMethod, Object, TypeAlias,
    visit_object_heads_mut,
};
use bex_vm_types::ty::{Both, HeapPtr, Ty, TypeHead};
use bex_vm_types::typetag_index::{HeadCollector, HeadResolver, TagIndex};

fn class_decl(tag: u64, name: &str) -> Object {
    Object::Class(Class { type_tag: tag, name: name.to_string(), fields: vec![] })
}

fn head(tag: u64) -> TypeHead {
    TypeHead::of_tag(tag)
}

fn collector() -> HeadCollector {
    HeadCollector { seen: Vec::new() }
}

fn tags(c: &HeadCollector) -> Vec<u64> {
    c.seen.iter().map(|h| h.tag).collect()
}

#[test]
fn index_maps_declarations_to_their_addresses() {
    let pool: Vec<(Object, HeapPtr)> = vec![
        (class_decl(1, "A"), HeapPtr(16)),
        (Object::String("hello".to_string()), HeapPtr(32)),
        (Object::Enum(EnumDecl { type_tag: 2, name: "E".to_string(), variants: vec![] }), HeapPtr(48)),
        (Object::TypeAlias(TypeAlias { type_tag: 3, name: "T".to_string(), definition: Ty::Int }), HeapPtr(64)),
        (Object::Array(Array { element_ty: Ty::Int }), HeapPtr(80)),
    ];
    let index = TagIndex::of_compile_time(&pool);
    assert_eq!(index.get(1), Some(HeapPtr(16)));
    assert_eq!(index.get(2), Some(HeapPtr(48)));
    assert_eq!(index.get(3), Some(HeapPtr(64)));
    assert_eq!(index.get(4), None);
    let map = index.into_map();
    assert_eq!(map.len(), 3);
    assert_eq!(map.get(&3), Some(&HeapPtr(64)));
}

#[test]
fn later_declaration_of_a_tag_wins() {
    let pool: Vec<(Object, HeapPtr)> = vec![
        (class_decl(9, "First"), HeapPtr(1)),
        (class_decl(9, "Second"), HeapPtr(2)),
    ];
    let index = TagIndex::of_compile_time(&pool);
    assert_eq!(index.get(9), Some(HeapPtr(2)));
}

#[test]
fn empty_pool_gives_empty_index() {
    let pool: Vec<(Object, HeapPtr)> = Vec::new();
    let index = TagIndex::of_compile_time(&pool);
    assert_eq!(index.get(0), None);
    assert!(index.into_map().is_empty());
}

#[test]
fn only_declarations_mint_heads() {
    assert_eq!(class_decl(5, "C").declared_type_tag(), Some(5));
    let iface = Object::Interface(Interface {
        type_tag: 6,
        name: "I".to_string(),
        args: vec![],
        requires: vec![],
        assoc: vec![],
        fields: vec![],
        methods: vec![],
    });
    assert_eq!(iface.declared_type_tag(), Some(6));
    assert_eq!(Object::Type(Ty::Enum(head(7))).declared_type_tag(), None);
    assert_eq!(Object::Float(0).declared_type_tag(), None);
}

#[test]
fn class_walk_visits_field_types_then_templates() {
    let mut obj = Object::Class(Class {
        type_tag: 1,
        name: "C".to_string(),
        fields: vec![
            Field {
                name: "a".to_string(),
                field_type: Ty::Class(head(10), vec![Ty::Enum(head(11))]),
                field_template: Ty::Enum(head(12)),
            },
            Field {
                name: "b".to_string(),
                field_type: Ty::Dict(Box::new(Ty::Enum(head(13))), Box::new(Ty::Int)),
                field_template: Ty::Union(vec![Ty::Enum(head(14)), Ty::List(Box::new(Ty::Enum(head(15))))]),
            },
        ],
    });
    let mut r = collector();
    visit_object_heads_mut(&mut obj, &mut r);
    assert_eq!(tags(&r), vec![10, 11, 12, 13, 14, 15]);
    match obj {
        Object::Class(c) => {
            assert_eq!(c.type_tag, 1);
            assert_eq!(c.fields[0].field_type, Ty::Class(head(10), vec![Ty::Enum(head(11))]));
            assert_eq!(c.fields[1].name, "b");
            assert_eq!(
                c.fields[1].field_template,
                Ty::Union(vec![Ty::Enum(head(14)), Ty::List(Box::new(Ty::Enum(head(15))))])
            );
        }
        _ => panic!("still a class"),
    }
}

#[test]
fn interface_walk_order() {
    let mut obj = Object::Interface(Interface {
        type_tag: 1,
        name: "I".to_string(),
        args: vec![("T".to_string(), vec![Ty::Enum(head(1)), Ty::Enum(head(2))])],
        requires: vec![Ty::Enum(head(3))],
        assoc: vec![("Out".to_string(), Ty::Enum(head(4)))],
        fields: vec![InterfaceField { name: "f".to_string(), ty: Ty::Enum(head(5)) }],
        methods: vec![InterfaceMethod {
            name: "m".to_string(),
            args: vec![Ty::Enum(head(6))],
            kwargs: vec![("k".to_string(), Ty::Enum(head(7)))],
            returns: Ty::Enum(head(8)),
            errors: Ty::Enum(head(9)),
        }],
    });
    let mut r = collector();
    visit_object_heads_mut(&mut obj, &mut r);
    assert_eq!(tags(&r), vec![1, 2, 3, 4, 5, 6, 7, 8, 9]);
}

#[test]
fn impl_rule_walk_includes_bound_interfaces() {
    let mut obj = Object::ImplRule(ImplRule {
        for_ty_pattern: Ty::Class(head(1), vec![Ty::TypeArgRef(0)]),
        generic_param_bounds: vec![vec![InterfaceBound {
            interface: head(2),
            args: vec![Ty::Enum(head(3))],
            assoc: vec![("A".to_string(), Ty::Enum(head(4)))],
        }]],
        interface_args: vec![Ty::Enum(head(5))],
        interface_assoc: vec![("B".to_string(), Ty::Enum(head(6)))],
        methods: vec![ImplMethod { name: "m".to_string(), frame: vec![Ty::Enum(head(7))] }],
    });
    let mut r = collector();
    visit_object_heads_mut(&mut obj, &mut r);
    assert_eq!(tags(&r), vec![1, 2, 3, 4, 5, 6, 7]);
}

#[test]
fn function_walk_covers_type_constants() {
    let mut obj = Object::Function(Function {
        name: "f".to_string(),
        return_type: Ty::Enum(head(1)),
        throws_type: Ty::Enum(head(2)),
        param_types: vec![Ty::Enum(head(3))],
        bytecode: Bytecode {
            constants: vec![
                ConstValue::Int(4),
                ConstValue::Type(Ty::Enum(head(4))),
                ConstValue::ClassWithTypeArgs {
                    class: HeapPtr(8),
                    type_args_templates: vec![Ty::Enum(head(5)), Ty::Int],
                },
            ],
        },
    });
    let mut r = collector();
    visit_object_heads_mut(&mut obj, &mut r);
    assert_eq!(tags(&r), vec![1, 2, 3, 4, 5]);
}

#[test]
fn objects_without_types_are_left_alone() {
    let mut obj = Object::Enum(EnumDecl { type_tag: 3, name: "E".to_string(), variants: vec!["A".to_string()] });
    let mut r = collector();
    visit_object_heads_mut(&mut obj, &mut r);
    assert!(r.seen.is_empty());
    let mut obj = Object::Dict(Dict { key_ty: Ty::String, value_ty: Ty::Enum(head(2)) });
    visit_object_heads_mut(&mut obj, &mut r);
    assert_eq!(tags(&r), vec![2]);
}

#[test]
fn resolution_points_heads_at_declarations() {
    let pool: Vec<(Object, HeapPtr)> = vec![
        (class_decl(1, "A"), HeapPtr(16)),
        (class_decl(2, "B"), HeapPtr(32)),
    ];
    let index = TagIndex::of_compile_time(&pool);
    let mut obj = Object::Type(Ty::Union(vec![
        Ty::Class(head(1), vec![Ty::Enum(head(3))]),
        Ty::Enum(head(2)),
    ]));
    index.resolve_heads(&mut obj);
    let resolved = |tag: u64, decl: Option<HeapPtr>| TypeHead { tag, decl };
    let expected = Object::Type(Ty::Union(vec![
        Ty::Class(resolved(1, Some(HeapPtr(16))), vec![Ty::Enum(resolved(3, None))]),
        Ty::Enum(resolved(2, Some(HeapPtr(32)))),
    ]));
    match (&obj, &expected) {
        (Object::Type(a), Object::Type(b)) => assert_eq!(a, b),
        _ => panic!("still a type"),
    }
    // Resolving again changes nothing.
    let mut resolver = HeadResolver { index: &index };
    visit_object_heads_mut(&mut obj, &mut resolver);
    match (&obj, &expected) {
        (Object::Type(a), Object::Type(b)) => assert_eq!(a, b),
        _ => panic!("still a type"),
    }
}

#[test]
fn both_visitors_run_on_each_head() {
    let pool: Vec<(Object, HeapPtr)> = vec![(class_decl(1, "A"), HeapPtr(16))];
    let index = TagIndex::of_compile_time(&pool);
    let mut obj = Object::Type(Ty::Class(head(1), vec![Ty::Enum(head(2))]));
    let mut both = Both { first: HeadResolver { index: &index }, second: collector() };
    visit_object_heads_mut(&mut obj, &mut both);
    assert_eq!(
        both.second.seen,
        vec![TypeHead { tag: 1, decl: Some(HeapPtr(16)) }, TypeHead { tag: 2, decl: None }]
    );
}
