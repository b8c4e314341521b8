use lyken::dart::ast::{
    ArgDef, ClassMember, FinalConstVar, FnSig, Item, Module, Qualified, StringLiteral, Type, VarDef,
    VarType,
};
use lyken::dart::loader::{ErrorKind, LoadError, Loaded, ModuleCache, Request};
use lyken::node::Node;
use lyken::source::{Span, Symbol};

fn io_error(detail: &str) -> LoadError {
    LoadError { kind: ErrorKind::Io, detail: String::from(detail) }
}

fn syntax_error(detail: &str) -> LoadError {
    LoadError { kind: ErrorKind::Syntax(Span { lo: 4, hi: 5 }), detail: String::from(detail) }
}

fn uri() -> StringLiteral {
    StringLiteral {
        raw: false,
        triple: false,
        quote: '\'',
        prefix: Span { lo: 6, hi: 12 },
        interpolated: vec![],
    }
}

/// What a driver does for one file: ask, and if the cache wants the file
/// parsed, complete the load with `outcome`.
fn load(
    cache: &mut ModuleCache,
    path: &str,
    outcome: Result<Vec<Node<Item>>, LoadError>,
) -> (Node<Module>, Option<String>, bool) {
    match cache.request(path) {
        Request::Cached(module) => (module, None, false),
        Request::Cycle { module, diagnostic } => (module, Some(diagnostic), false),
        Request::Parse => {
            let Loaded { module, diagnostic } = cache.complete(String::from(path), outcome);
            (module, diagnostic, true)
        }
    }
}

#[test]
fn new_cache_holds_nothing() {
    let cache = ModuleCache::new();
    assert!(cache.get("/lib/main.dart").is_none());
    assert!(!cache.is_loading("/lib/main.dart"));
}

#[test]
fn missing_file_gives_a_flagged_empty_module() {
    let mut cache = ModuleCache::new();
    assert!(matches!(cache.request("/nowhere/main.dart"), Request::Parse));
    let loaded = cache.complete(
        String::from("/nowhere/main.dart"),
        Err(io_error("No such file or directory (os error 2)")),
    );
    assert!(loaded.module.has_error);
    assert!(loaded.module.items.is_empty());
    assert_eq!(loaded.module.path, "/nowhere/main.dart");
    assert_eq!(
        loaded.diagnostic,
        Some(String::from("/nowhere/main.dart: No such file or directory (os error 2)"))
    );
}

#[test]
fn syntax_failure_is_reported_in_its_own_words() {
    let mut cache = ModuleCache::new();
    let (module, diagnostic, parsed) =
        load(&mut cache, "/lib/broken.dart", Err(syntax_error("1:5: expected `;`")));
    assert!(parsed);
    assert!(module.has_error);
    assert!(module.items.is_empty());
    assert_eq!(diagnostic, Some(String::from("1:5: expected `;`")));
}

#[test]
fn diagnostic_names_the_file_only_for_a_failure_to_read() {
    assert_eq!(io_error("denied").to_diagnostic("/a.dart"), "/a.dart: denied");
    assert_eq!(syntax_error("unexpected `}`").to_diagnostic("/a.dart"), "unexpected `}`");
    assert_eq!(io_error("").to_diagnostic(""), ": ");
}

#[test]
fn file_that_parses_gives_its_items_without_a_flag() {
    let mut cache = ModuleCache::new();
    let items = vec![
        Node::new(Item::Enum {
            metadata: vec![],
            name: Symbol::intern("Color"),
            values: vec![Symbol::intern("red")],
        }),
        Node::new(Item::PartOf { metadata: vec![], path: vec![Symbol::intern("lib")] }),
    ];
    let first = items[0].clone();
    let (module, diagnostic, parsed) = load(&mut cache, "/lib/color.dart", Ok(items));
    assert!(parsed);
    assert!(!module.has_error);
    assert_eq!(module.path, "/lib/color.dart");
    assert_eq!(module.items.len(), 2);
    assert!(Node::ptr_eq(&module.items[0], &first));
    assert_eq!(diagnostic, None);
}

#[test]
fn empty_file_is_not_a_failed_one() {
    let mut cache = ModuleCache::new();
    let (module, diagnostic, _) = load(&mut cache, "/lib/empty.dart", Ok(vec![]));
    assert!(module.items.is_empty());
    assert!(!module.has_error);
    assert_eq!(diagnostic, None);
}

#[test]
fn same_path_gives_the_same_handle_and_is_parsed_once() {
    let mut cache = ModuleCache::new();
    let (first, _, parsed_first) = load(&mut cache, "/lib/main.dart", Ok(vec![]));
    let (second, _, parsed_second) = load(&mut cache, "/lib/main.dart", Ok(vec![]));
    assert!(parsed_first);
    assert!(!parsed_second);
    assert!(Node::ptr_eq(&first, &second));
    let kept = cache.get("/lib/main.dart").unwrap();
    assert!(Node::ptr_eq(&first, &kept));
}

#[test]
fn failed_load_is_kept_and_reported_once() {
    let mut cache = ModuleCache::new();
    let (first, diagnostic, parsed) = load(&mut cache, "/lib/gone.dart", Err(io_error("gone")));
    assert!(parsed);
    assert_eq!(diagnostic, Some(String::from("/lib/gone.dart: gone")));
    let (second, diagnostic, parsed) = load(&mut cache, "/lib/gone.dart", Ok(vec![]));
    assert!(!parsed);
    assert_eq!(diagnostic, None);
    assert!(second.has_error);
    assert!(Node::ptr_eq(&first, &second));
}

#[test]
fn other_paths_do_not_disturb_what_is_kept() {
    let mut cache = ModuleCache::new();
    let (a, _, _) = load(&mut cache, "/lib/a.dart", Ok(vec![]));
    let (b, _, _) = load(&mut cache, "/lib/b.dart", Err(io_error("gone")));
    let (c, _, _) = load(&mut cache, "/lib/c.dart", Ok(vec![]));
    assert!(Node::ptr_eq(&cache.get("/lib/a.dart").unwrap(), &a));
    assert!(Node::ptr_eq(&cache.get("/lib/b.dart").unwrap(), &b));
    assert!(Node::ptr_eq(&cache.get("/lib/c.dart").unwrap(), &c));
    assert!(!Node::ptr_eq(&a, &c));
    assert!(cache.get("/lib/d.dart").is_none());
}

#[test]
fn broken_part_does_not_fail_the_file_that_includes_it() {
    let mut cache = ModuleCache::new();
    // Parsing `b.dart` meets `part 'a.dart';` and asks for that file, which does not parse.
    assert!(matches!(cache.request("/lib/b.dart"), Request::Parse));
    let (a, diagnostic, parsed) =
        load(&mut cache, "/lib/a.dart", Err(syntax_error("1:1: unexpected `}`")));
    assert!(parsed);
    assert!(a.has_error);
    assert_eq!(diagnostic, Some(String::from("1:1: unexpected `}`")));
    let part = Node::new(Item::Part { metadata: vec![], uri: uri(), module: a.clone() });
    let other = Node::new(Item::LibraryName { metadata: vec![], path: vec![Symbol::intern("b")] });
    let loaded = cache.complete(String::from("/lib/b.dart"), Ok(vec![other, part]));

    assert!(!loaded.module.has_error);
    assert_eq!(loaded.diagnostic, None);
    assert_eq!(loaded.module.items.len(), 2);
    match loaded.module.items[1].get() {
        Item::Part { module, .. } => {
            assert!(module.has_error);
            assert!(module.items.is_empty());
            assert!(Node::ptr_eq(module, &a));
        }
        other => panic!("expected a part, found {:?}", other),
    }
}

#[test]
fn part_of_a_missing_file_is_kept_with_its_flagged_module() {
    let mut cache = ModuleCache::new();
    assert!(matches!(cache.request("/lib/main.dart"), Request::Parse));
    let (missing, diagnostic, _) =
        load(&mut cache, "/lib/a.dart", Err(io_error("No such file or directory (os error 2)")));
    assert_eq!(
        diagnostic,
        Some(String::from("/lib/a.dart: No such file or directory (os error 2)"))
    );
    let part = Node::new(Item::Part { metadata: vec![], uri: uri(), module: missing });
    let loaded = cache.complete(String::from("/lib/main.dart"), Ok(vec![part]));

    assert!(!loaded.module.has_error);
    assert_eq!(loaded.module.items.len(), 1);
    match loaded.module.items[0].get() {
        Item::Part { module, .. } => {
            assert!(module.has_error);
            assert!(module.items.is_empty());
            assert_eq!(module.path, "/lib/a.dart");
        }
        other => panic!("expected a part, found {:?}", other),
    }
}

#[test]
fn part_included_twice_is_one_module() {
    let mut cache = ModuleCache::new();
    assert!(matches!(cache.request("/lib/x.dart"), Request::Parse));
    let (from_x, _, parsed_for_x) = load(&mut cache, "/lib/shared.dart", Ok(vec![]));
    cache.complete(String::from("/lib/x.dart"), Ok(vec![]));
    assert!(matches!(cache.request("/lib/y.dart"), Request::Parse));
    let (from_y, _, parsed_for_y) = load(&mut cache, "/lib/shared.dart", Ok(vec![]));
    cache.complete(String::from("/lib/y.dart"), Ok(vec![]));
    assert!(parsed_for_x);
    assert!(!parsed_for_y);
    assert!(Node::ptr_eq(&from_x, &from_y));
}

#[test]
fn file_counts_as_loading_until_its_load_is_completed() {
    let mut cache = ModuleCache::new();
    assert!(!cache.is_loading("/lib/main.dart"));
    assert!(matches!(cache.request("/lib/main.dart"), Request::Parse));
    assert!(cache.is_loading("/lib/main.dart"));
    assert!(cache.get("/lib/main.dart").is_none());
    cache.complete(String::from("/lib/main.dart"), Ok(vec![]));
    assert!(!cache.is_loading("/lib/main.dart"));
    assert!(cache.get("/lib/main.dart").is_some());
}

#[test]
fn file_that_includes_itself_is_not_parsed_again() {
    let mut cache = ModuleCache::new();
    assert!(matches!(cache.request("/lib/a.dart"), Request::Parse));
    assert!(matches!(cache.request("/lib/b.dart"), Request::Parse));
    // `b.dart` includes `a.dart`, which is still being parsed.
    let stub = match cache.request("/lib/a.dart") {
        Request::Cycle { module, diagnostic } => {
            assert_eq!(diagnostic, "/lib/a.dart: includes itself");
            module
        }
        other => panic!("expected a cycle, found {:?}", other),
    };
    assert!(stub.has_error);
    assert!(stub.items.is_empty());
    assert_eq!(stub.path, "/lib/a.dart");
    assert!(cache.get("/lib/a.dart").is_none());
    assert!(cache.is_loading("/lib/a.dart"));

    let part_a = Node::new(Item::Part { metadata: vec![], uri: uri(), module: stub.clone() });
    let b = cache.complete(String::from("/lib/b.dart"), Ok(vec![part_a])).module;
    let part_b = Node::new(Item::Part { metadata: vec![], uri: uri(), module: b.clone() });
    let a = cache.complete(String::from("/lib/a.dart"), Ok(vec![part_b])).module;

    assert!(!a.has_error);
    assert!(!b.has_error);
    assert!(!Node::ptr_eq(&a, &stub));
    assert!(Node::ptr_eq(&cache.get("/lib/a.dart").unwrap(), &a));
    assert!(Node::ptr_eq(&cache.get("/lib/b.dart").unwrap(), &b));
}

#[test]
fn module_is_made_once_for_a_path() {
    let mut cache = ModuleCache::new();
    let first = cache.complete(String::from("/lib/a.dart"), Err(io_error("gone")));
    assert!(first.module.has_error);
    assert_eq!(first.diagnostic, Some(String::from("/lib/a.dart: gone")));

    let second = cache.complete(String::from("/lib/a.dart"), Ok(vec![]));
    assert!(Node::ptr_eq(&second.module, &first.module));
    assert!(second.module.has_error);
    assert_eq!(second.diagnostic, None);

    let third = cache.complete(String::from("/lib/a.dart"), Err(syntax_error("1:1: bad")));
    assert!(Node::ptr_eq(&third.module, &first.module));
    assert_eq!(third.diagnostic, None);
    assert!(Node::ptr_eq(&cache.get("/lib/a.dart").unwrap(), &first.module));
}

#[test]
fn completing_a_kept_path_leaves_what_is_loading() {
    let mut cache = ModuleCache::new();
    let kept = cache.complete(String::from("/lib/a.dart"), Ok(vec![])).module;
    assert!(matches!(cache.request("/lib/b.dart"), Request::Parse));
    let again = cache.complete(String::from("/lib/a.dart"), Ok(vec![])).module;
    assert!(Node::ptr_eq(&again, &kept));
    assert!(cache.is_loading("/lib/b.dart"));
    assert!(!cache.is_loading("/lib/a.dart"));
    assert!(cache.get("/lib/b.dart").is_none());
}

#[test]
fn paths_are_told_apart_letter_by_letter() {
    let mut cache = ModuleCache::new();
    load(&mut cache, "/lib/a.dart", Ok(vec![]));
    assert!(cache.get("/lib/a.dart").is_some());
    assert!(cache.get("/lib/A.dart").is_none());
    assert!(cache.get("/lib/a.dart ").is_none());
    assert!(cache.get("/lib/./a.dart").is_none());
    assert!(cache.get("").is_none());
}

#[test]
fn module_constructors_set_the_flag() {
    let parsed = Module::parsed(String::from("/a.dart"), vec![]);
    assert_eq!(parsed.path, "/a.dart");
    assert!(!parsed.has_error);
    let failed = Module::failed(String::from("/b.dart"));
    assert_eq!(failed.path, "/b.dart");
    assert!(failed.has_error);
    assert!(failed.items.is_empty());
}

/// `class A { int x; A(this.x); }`
fn class_a() -> Node<Item> {
    let field = Node::new(ClassMember::Fields {
        metadata: vec![],
        static_: false,
        var_type: VarType { fcv: FinalConstVar::Var, ty: Type::simple_path("int") },
        initializers: vec![Node::new(VarDef { name: Symbol::intern("x"), init: None })],
    });
    let mut this_x = ArgDef::simple(Node::new(Type::Infer), "x");
    this_x.field = true;
    let constructor = Node::new(ClassMember::Constructor {
        metadata: vec![],
        method_qualifiers: vec![],
        name: None,
        sig: FnSig { required: vec![this_x], ..FnSig::default() },
        initializers: vec![],
        function_body: None,
    });
    Node::new(Item::Class {
        metadata: vec![],
        abstract_: false,
        name: Symbol::intern("A"),
        generics: vec![],
        superclass: None,
        mixins: vec![],
        interfaces: vec![],
        members: vec![field, constructor],
    })
}

#[test]
fn single_class_file_is_kept_as_it_was_parsed() {
    let mut cache = ModuleCache::new();
    let (module, diagnostic, _) = load(&mut cache, "/lib/a.dart", Ok(vec![class_a()]));
    assert_eq!(diagnostic, None);
    assert!(!module.has_error);
    assert_eq!(module.items.len(), 1);
    let members = match module.items[0].get() {
        Item::Class { name, superclass, members, .. } => {
            assert_eq!(name.as_str(), "A");
            assert!(superclass.is_none());
            members
        }
        other => panic!("expected a class, found {:?}", other),
    };
    assert_eq!(members.len(), 2);
    match members[0].get() {
        ClassMember::Fields { var_type, initializers, .. } => {
            assert_eq!(initializers.len(), 1);
            assert_eq!(initializers[0].name.as_str(), "x");
            assert!(initializers[0].init.is_none());
            match var_type.ty.get() {
                Type::Path(path) => {
                    assert_eq!(path.name.as_str(), "int");
                    assert!(path.prefix.is_none());
                    assert!(path.params.is_empty());
                }
                other => panic!("expected a named type, found {:?}", other),
            }
        }
        other => panic!("expected a field group, found {:?}", other),
    }
    match members[1].get() {
        ClassMember::Constructor { sig, initializers, function_body, .. } => {
            assert_eq!(sig.required.len(), 1);
            assert!(sig.required[0].field);
            assert_eq!(sig.required[0].var.name.as_str(), "x");
            assert!(initializers.is_empty());
            assert!(function_body.is_none());
        }
        other => panic!("expected a constructor, found {:?}", other),
    }
    // Qualified::one builds what the parser builds for a plain name.
    let int = Qualified::one("int", vec![]);
    assert_eq!(int.name.as_str(), "int");
}
