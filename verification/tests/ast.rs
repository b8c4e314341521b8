use lyken::dart::ast::{
    ArgDef, FinalConstVar, FnSig, MetadataItem, MethodQualifiers, OptionalArgKind, Qualified, Type,
};
use lyken::node::Node;

#[test]
fn one_is_an_unqualified_name() {
    let list = Qualified::one("List", vec![Type::simple_path("int")]);
    assert!(list.prefix.is_none());
    assert_eq!(list.name.as_str(), "List");
    assert_eq!(list.params.len(), 1);
    match list.params[0].get() {
        Type::Path(element) => assert_eq!(element.name.as_str(), "int"),
        other => panic!("expected a named type, found {:?}", other),
    }
}

#[test]
fn one_keeps_the_handles_it_is_given() {
    let element = Type::simple_path("T");
    let boxed = Qualified::one("Box", vec![element.clone()]);
    assert!(Node::ptr_eq(&boxed.params[0], &element));
}

#[test]
fn simple_path_is_a_bare_name() {
    let ty = Type::simple_path("String");
    match ty.get() {
        Type::Path(path) => {
            assert!(path.prefix.is_none());
            assert_eq!(path.name.as_str(), "String");
            assert!(path.params.is_empty());
        }
        other => panic!("expected a named type, found {:?}", other),
    }
}

#[test]
fn simple_annotation_has_no_arguments() {
    let item = MetadataItem::simple("override");
    assert!(item.arguments.is_none());
    assert!(item.qualified.prefix.is_none());
    assert_eq!(item.qualified.name.as_str(), "override");
    assert!(item.qualified.params.is_empty());
}

#[test]
fn simple_parameter_is_a_plain_variable() {
    let ty = Type::simple_path("int");
    let arg = ArgDef::simple(ty.clone(), "count");
    assert!(arg.metadata.is_empty());
    assert!(!arg.covariant);
    assert_eq!(arg.ty.fcv, FinalConstVar::Var);
    assert!(Node::ptr_eq(&arg.ty.ty, &ty));
    assert!(!arg.field);
    assert_eq!(arg.var.name.as_str(), "count");
    assert!(arg.var.init.is_none());
}

#[test]
fn default_signature_declares_nothing() {
    let sig = FnSig::default();
    assert!(matches!(sig.return_type.get(), Type::Infer));
    assert!(sig.required.is_empty());
    assert!(sig.optional.is_empty());
    assert_eq!(sig.optional_kind, OptionalArgKind::Positional);
    assert!(!sig.async_);
    assert!(!sig.generator);
}

#[test]
fn optional_parameters_are_positional_by_default() {
    assert_eq!(OptionalArgKind::default(), OptionalArgKind::Positional);
}

#[test]
fn qualifiers_compare_by_variant() {
    assert_eq!(MethodQualifiers::Static, MethodQualifiers::Static);
    assert_ne!(MethodQualifiers::Static, MethodQualifiers::Const);
}
