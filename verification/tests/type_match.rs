use bex_vm_types::ty::{Literal, Ty, TypeHead};
use bex_vm_types::type_match::{
    class_type_arg_matches, is_equivalent, is_subtype, value_matches_template, UnboundTypeArg,
    VmInternalError,
};

/// The complete-template value relation: substitute against the frame, then
/// covariant membership. A frame the template cannot be resolved against
/// matches nothing.
fn matches(template: &Ty, frame: &[Ty], actual: &Ty) -> bool {
    match value_matches_template(Some(actual), template, frame) {
        Ok(b) => b,
        Err(_) => false,
    }
}

/// The invariant class-arg relation.
fn arg_matches(template: &Ty, frame: &[Ty], actual: &Ty) -> bool {
    class_type_arg_matches(template, frame, actual)
        .expect("test templates reference only supplied frame slots")
}

fn list(t: Ty) -> Ty {
    Ty::List(Box::new(t))
}

fn map(k: Ty, v: Ty) -> Ty {
    Ty::Dict(Box::new(k), Box::new(v))
}

/// A head for a user class; these tests compare, and identity is the tag.
fn user_class(tag: u64) -> TypeHead {
    TypeHead::of_tag(tag)
}

const FOO: u64 = 0x466f6f;

#[test]
fn list_discriminates_element_type() {
    let int_list_pat = list(Ty::Int);
    assert!(matches(&int_list_pat, &[], &list(Ty::Int)));
    // `int[]` must NOT match a `string[]` value — element position is invariant.
    assert!(!matches(&int_list_pat, &[], &list(Ty::String)));
    // Nor a bare `int`.
    assert!(!matches(&int_list_pat, &[], &Ty::Int));
}

#[test]
fn map_discriminates_value_type() {
    let m_int = map(Ty::String, Ty::Int);
    assert!(matches(&m_int, &[], &map(Ty::String, Ty::Int)));
    assert!(!matches(&m_int, &[], &map(Ty::String, Ty::String)));
}

#[test]
fn class_type_args_are_invariant() {
    let tn = user_class(FOO);
    let foo_int = Ty::Class(tn, vec![Ty::Int]);
    assert!(matches(&foo_int, &[], &Ty::Class(tn, vec![Ty::Int])));
    assert!(!matches(&foo_int, &[], &Ty::Class(tn, vec![Ty::String])));
}

#[test]
fn type_arg_ref_realizes_frame_slot() {
    // `T` arm with the frame binding `T = int`.
    let t = Ty::TypeArgRef(0);
    assert!(matches(&t, &[Ty::Int], &Ty::Int));
    assert!(!matches(&t, &[Ty::Int], &Ty::String));
}

#[test]
fn type_arg_ref_membership_is_covariant_at_top_level() {
    // `T = int | string`: an `int` value is a member of the union arm.
    let t = Ty::TypeArgRef(0);
    let frame = [Ty::Union(vec![Ty::Int, Ty::String])];
    assert!(matches(&t, &frame, &Ty::Int));
    assert!(matches(&t, &frame, &Ty::String));
    assert!(!matches(&t, &frame, &Ty::Bool));
}

#[test]
fn list_of_type_arg_ref() {
    // `T[]` with `T = int`.
    let t_list = list(Ty::TypeArgRef(0));
    assert!(matches(&t_list, &[Ty::Int], &list(Ty::Int)));
    assert!(!matches(&t_list, &[Ty::Int], &list(Ty::String)));
}

#[test]
fn union_top_level_membership() {
    // A bare `int | string` arm.
    let u = Ty::Union(vec![Ty::Int, Ty::String]);
    assert!(matches(&u, &[], &Ty::Int));
    assert!(matches(&u, &[], &Ty::String));
    assert!(!matches(&u, &[], &Ty::Bool));
}

#[test]
fn literal_widens_into_base() {
    // A value of literal type `1` is a member of the `int` arm.
    let int_arm = Ty::Int;
    let one = Ty::Literal(Literal::Int(1));
    assert!(matches(&int_arm, &[], &one));
}

#[test]
fn class_arg_is_invariant_not_covariant() {
    let int_arg = Ty::Int;
    assert!(arg_matches(&int_arg, &[], &Ty::Int));
    assert!(!arg_matches(&int_arg, &[], &Ty::String));
    let union_arg = Ty::Union(vec![Ty::Int, Ty::String]);
    assert!(!arg_matches(&union_arg, &[], &Ty::Int));
}

#[test]
fn class_arg_frame_ref_resolves_and_relates_invariantly() {
    let t = Ty::TypeArgRef(0);
    assert!(arg_matches(&t, &[Ty::Int], &Ty::Int));
    assert!(!arg_matches(&t, &[Ty::Int], &Ty::String));
    // `int | int` is equivalent to `int`, but `int | string` is not.
    let frame = [Ty::Union(vec![Ty::Int, Ty::String])];
    assert!(!arg_matches(&t, &frame, &Ty::Int));
}

#[test]
fn union_absorbs_duplicate_members() {
    let int_int = Ty::Union(vec![Ty::Int, Ty::Int]);
    assert!(is_equivalent(&int_int, &Ty::Int));
    assert!(arg_matches(&Ty::TypeArgRef(0), &[int_int], &Ty::Int));
}

#[test]
fn value_without_concrete_type_matches_nothing() {
    assert_eq!(value_matches_template(None, &Ty::Int, &[]), Ok(false));
    // Not even against a template the frame cannot resolve.
    assert_eq!(value_matches_template(None, &Ty::TypeArgRef(3), &[]), Ok(false));
}

#[test]
fn unbound_frame_reference_is_an_internal_error() {
    let t = map(Ty::TypeArgRef(1), Ty::TypeArgRef(4));
    assert_eq!(
        value_matches_template(Some(&Ty::Int), &t, &[Ty::Int]),
        Err(VmInternalError::TypeSubstitution { slot: 1 })
    );
    assert_eq!(
        class_type_arg_matches(&Ty::TypeArgRef(2), &[Ty::Int, Ty::Bool], &Ty::Int),
        Err(VmInternalError::TypeSubstitution { slot: 2 })
    );
    match t.substitute(&[Ty::Int, Ty::String]) {
        Err(e) => assert_eq!(e, UnboundTypeArg { index: 4 }),
        Ok(_) => panic!("slot 4 is not supplied"),
    }
}

#[test]
fn substitution_replaces_every_reference() {
    let t = Ty::Class(user_class(FOO), vec![Ty::TypeArgRef(1), list(Ty::TypeArgRef(0))]);
    let frame = [Ty::Bool, Ty::Literal(Literal::Int(7))];
    let expected = Ty::Class(
        user_class(FOO),
        vec![Ty::Literal(Literal::Int(7)), list(Ty::Bool)],
    );
    assert_eq!(t.substitute(&frame), Ok(expected));
    // A template without references comes back as it was.
    let realized = map(Ty::String, Ty::Union(vec![Ty::Int, Ty::Null]));
    assert_eq!(realized.substitute(&[]), Ok(realized.copy()));
}

#[test]
fn subtyping_rules() {
    let bar = user_class(7);
    let foo = user_class(FOO);
    // Reflexive, also for unions and classes.
    let u = Ty::Union(vec![Ty::Int, list(Ty::String)]);
    assert!(is_subtype(&u, &u));
    assert!(is_subtype(&Ty::Class(foo, vec![u.copy()]), &Ty::Class(foo, vec![u.copy()])));
    // A union is a subtype when every member is.
    assert!(is_subtype(&Ty::Union(vec![Ty::Int, Ty::Null]), &Ty::Union(vec![Ty::Null, Ty::Int, Ty::Bool])));
    assert!(!is_subtype(&Ty::Union(vec![Ty::Int, Ty::Float]), &Ty::Int));
    // Literals widen, but not the other way round, and not across bases.
    assert!(is_subtype(&Ty::Literal(Literal::Bool(true)), &Ty::Bool));
    assert!(!is_subtype(&Ty::Int, &Ty::Literal(Literal::Int(1))));
    assert!(!is_subtype(&Ty::Literal(Literal::Int(1)), &Ty::Float));
    assert!(!is_subtype(&Ty::Literal(Literal::Int(1)), &Ty::Literal(Literal::Int(2))));
    // Classes and enums are told apart by their heads' tags only.
    assert!(!is_subtype(&Ty::Class(foo, vec![]), &Ty::Class(bar, vec![])));
    let mut resolved = foo;
    resolved.decl = Some(bex_vm_types::ty::HeapPtr(64));
    assert!(is_subtype(&Ty::Enum(foo), &Ty::Enum(resolved)));
    assert!(!is_subtype(&Ty::Class(foo, vec![Ty::Int]), &Ty::Class(foo, vec![])));
    // A literal list is not an int list: element positions are invariant.
    assert!(!is_subtype(&list(Ty::Literal(Literal::Int(1))), &list(Ty::Int)));
}

#[test]
fn subtyping_is_transitive_through_unions() {
    let one = Ty::Literal(Literal::Int(1));
    let int_or_string = Ty::Union(vec![Ty::Int, Ty::String]);
    assert!(is_subtype(&one, &Ty::Int));
    assert!(is_subtype(&Ty::Int, &int_or_string));
    assert!(is_subtype(&one, &int_or_string));
    // Equivalence is symmetric and transitive: `int | int` ≡ `int` ≡ `int | int | int`.
    let twice = Ty::Union(vec![Ty::Int, Ty::Int]);
    let thrice = Ty::Union(vec![Ty::Int, Ty::Int, Ty::Int]);
    assert!(is_equivalent(&Ty::Int, &twice));
    assert!(is_equivalent(&Ty::Int, &thrice));
    assert!(is_equivalent(&twice, &thrice));
}

#[test]
fn copy_is_equal() {
    let t = Ty::Class(user_class(FOO), vec![map(Ty::TypeArgRef(2), Ty::Union(vec![Ty::Null]))]);
    assert_eq!(t.copy(), t);
}

#[test]
fn frame_reference_matches_as_its_slot() {
    let slot = Ty::Union(vec![Ty::Int, Ty::String]);
    let frame = [Ty::Bool, slot.copy()];
    for actual in [Ty::Int, Ty::String, Ty::Bool, Ty::Union(vec![Ty::String, Ty::Int])] {
        assert_eq!(
            value_matches_template(Some(&actual), &Ty::TypeArgRef(1), &frame),
            value_matches_template(Some(&actual), &slot, &[])
        );
        assert_eq!(
            class_type_arg_matches(&Ty::TypeArgRef(1), &frame, &actual),
            class_type_arg_matches(&slot, &[], &actual)
        );
    }
}
