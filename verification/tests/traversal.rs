use lyken::dart::ast::{
    ArgDef, Args, BinOp, BoolBinOp, Cascade, CatchPart, ClassMember, ConstructorInitializer, Expr,
    FinalConstVar, FnBody, FnName, FnSig, ForLoop, Function, Import, ImportFilter, Item, Metadata,
    MetadataItem, MethodQualifiers, Module, NamedArg, OptionalArgKind, OverloadedOp, Qualified,
    Statement, StringLiteral, Suffix, SwitchCase, SymbolLiteral, TryPart, Type, TypeParameter, UnOp,
    ValueBinOp, VarDef, VarType,
};
use lyken::dart::identifiers::IdentifierCollector;
use lyken::dart::visit::{NodeRef, Visit, VisitNode, Visitor, Walk};
use lyken::node::Node;
use lyken::source::{Span, Symbol};
use std::cell::Cell;

/// Hands out identifiers `n0`, `n1`, ... in the order in which they are asked for.
struct Fresh {
    next: Cell<usize>,
}

impl Fresh {
    fn new() -> Fresh {
        Fresh { next: Cell::new(0) }
    }

    fn id(&self) -> Node<Expr> {
        let n = self.next.get();
        self.next.set(n + 1);
        Node::new(Expr::Identifier(Symbol::intern(&format!("n{}", n))))
    }

    fn expected(&self) -> Vec<String> {
        (0..self.next.get()).map(|n| format!("n{}", n)).collect()
    }
}

fn names_of(symbols: &[Symbol]) -> Vec<String> {
    symbols.iter().map(|s| s.as_str().to_string()).collect()
}

fn sym(name: &str) -> Symbol {
    Symbol::intern(name)
}

fn id(name: &str) -> Node<Expr> {
    Node::new(Expr::Identifier(sym(name)))
}

fn span() -> Span {
    Span { lo: 0, hi: 0 }
}

fn literal(interpolated: Vec<Node<Expr>>) -> StringLiteral {
    StringLiteral {
        raw: false,
        triple: false,
        quote: '"',
        prefix: span(),
        interpolated: interpolated.into_iter().map(|e| (e, span())).collect(),
    }
}

fn args(unnamed: Vec<Node<Expr>>, named: Vec<Node<Expr>>) -> Args {
    Args {
        unnamed,
        named: named.into_iter().map(|expr| NamedArg { name: sym("named"), expr }).collect(),
    }
}

/// `@note(argument)`
fn meta(argument: Node<Expr>) -> Metadata {
    vec![MetadataItem {
        qualified: Qualified::one("note", vec![]),
        arguments: Some(args(vec![argument], vec![])),
    }]
}

fn infer() -> Node<Type> {
    Node::new(Type::Infer)
}

fn var_type() -> VarType {
    VarType { fcv: FinalConstVar::Var, ty: infer() }
}

fn var(name: &str, init: Option<Node<Expr>>) -> Node<VarDef> {
    Node::new(VarDef { name: sym(name), init })
}

fn statement(expr: Node<Expr>) -> Node<Statement> {
    Node::new(Statement::Expression(Some(expr)))
}

fn module_of(items: Vec<Node<Item>>) -> Node<Module> {
    Node::new(Module { path: String::from("/lib/main.dart"), items, has_error: false })
}

/// A function `f` whose body is the block of `statements`.
fn function_of(statements: Vec<Node<Statement>>) -> Node<Function> {
    Node::new(Function {
        name: FnName::Regular(sym("f")),
        generics: vec![],
        sig: FnSig::default(),
        body: Some(FnBody::Block(Node::new(Statement::Block(statements)))),
    })
}

/// A type whose only identifiers are in the default value of a parameter of
/// the function type.
fn type_with(default: Node<Expr>) -> Node<Type> {
    let mut sig = FnSig::default();
    sig.optional = vec![ArgDef {
        metadata: vec![],
        covariant: false,
        ty: var_type(),
        field: false,
        var: var("p", Some(default)),
    }];
    sig.optional_kind = OptionalArgKind::Named;
    Node::new(Type::Function(sig))
}

#[test]
fn collector_finds_identifiers_left_to_right() {
    // a + b * c
    let product = Node::new(Expr::Binary(BinOp::Value(ValueBinOp::Mul), id("b"), id("c")));
    let sum = Node::new(Expr::Binary(BinOp::Value(ValueBinOp::Add), id("a"), product));
    let module = module_of(vec![Node::new(Item::Function(function_of(vec![statement(sum)])))]);
    let names = IdentifierCollector::collect(module);
    assert_eq!(names_of(&names), vec!["a", "b", "c"]);
}

#[test]
fn collector_on_an_empty_module_finds_nothing() {
    assert!(IdentifierCollector::collect(module_of(vec![])).is_empty());
}

#[test]
fn collector_reaches_every_kind_of_expression() {
    let f = Fresh::new();
    let exprs = vec![
        Node::new(Expr::Unary(UnOp::Neg, f.id())),
        Node::new(Expr::Binary(BinOp::Bool(BoolBinOp::Lt), f.id(), f.id())),
        Node::new(Expr::Conditional(f.id(), f.id(), f.id())),
        Node::new(Expr::Is(f.id(), type_with(f.id()))),
        Node::new(Expr::IsNot(f.id(), type_with(f.id()))),
        Node::new(Expr::As(f.id(), type_with(f.id()))),
        Node::new(Expr::Suffix(f.id(), Suffix::Index(f.id()))),
        Node::new(Expr::Suffix(f.id(), Suffix::Field(sym("field")))),
        Node::new(Expr::Suffix(f.id(), Suffix::FieldIfNotNull(sym("field")))),
        Node::new(Expr::Suffix(
            f.id(),
            Suffix::Call(
                vec![type_with(f.id()), type_with(f.id())],
                args(vec![f.id(), f.id()], vec![f.id()]),
            ),
        )),
        f.id(),
        Node::new(Expr::Closure(
            FnSig {
                return_type: type_with(f.id()),
                required: vec![ArgDef {
                    metadata: meta(f.id()),
                    covariant: false,
                    ty: VarType { fcv: FinalConstVar::Final, ty: type_with(f.id()) },
                    field: false,
                    var: var("x", Some(f.id())),
                }],
                optional: vec![ArgDef {
                    metadata: meta(f.id()),
                    covariant: true,
                    ty: VarType { fcv: FinalConstVar::Var, ty: type_with(f.id()) },
                    field: false,
                    var: var("y", Some(f.id())),
                }],
                optional_kind: OptionalArgKind::Positional,
                async_: false,
                generator: false,
            },
            FnBody::Arrow(f.id()),
        )),
        Node::new(Expr::New {
            const_: false,
            path: Qualified::one("Point", vec![type_with(f.id())]),
            args: args(vec![f.id()], vec![f.id(), f.id()]),
        }),
        Node::new(Expr::List {
            const_: true,
            element_ty: Some(type_with(f.id())),
            elements: vec![f.id(), f.id(), f.id()],
        }),
        Node::new(Expr::List { const_: false, element_ty: None, elements: vec![f.id()] }),
        Node::new(Expr::MapLiteral {
            const_: false,
            kv_ty: Some((type_with(f.id()), type_with(f.id()))),
            kv: vec![(f.id(), f.id()), (f.id(), f.id())],
        }),
        Node::new(Expr::MapLiteral { const_: false, kv_ty: None, kv: vec![] }),
        Node::new(Expr::Number(sym("42"))),
        Node::new(Expr::String(vec![
            literal(vec![f.id(), f.id()]),
            literal(vec![]),
            literal(vec![f.id()]),
        ])),
        Node::new(Expr::Symbol(SymbolLiteral::Path(vec![sym("a"), sym("b")]))),
        Node::new(Expr::Symbol(SymbolLiteral::Op(OverloadedOp::Index))),
        Node::new(Expr::Paren(f.id())),
        Node::new(Expr::Throw(f.id())),
        Node::new(Expr::Cascade(
            f.id(),
            Cascade {
                suffixes: vec![
                    Suffix::Index(f.id()),
                    Suffix::Call(vec![], args(vec![f.id()], vec![])),
                ],
                assign: Some((Some(ValueBinOp::Add), f.id())),
            },
        )),
        Node::new(Expr::Cascade(f.id(), Cascade { suffixes: vec![], assign: None })),
    ];
    let statements = exprs.into_iter().map(statement).collect();
    let module = module_of(vec![Node::new(Item::Function(function_of(statements)))]);
    let names = IdentifierCollector::collect(module);
    assert_eq!(names_of(&names), f.expected());
    assert_eq!(names.len(), 56);
}

#[test]
fn collector_reaches_every_kind_of_statement() {
    let f = Fresh::new();
    let statements = vec![
        Node::new(Statement::Block(vec![statement(f.id()), statement(f.id())])),
        Node::new(Statement::Vars(
            VarType { fcv: FinalConstVar::Const, ty: type_with(f.id()) },
            vec![var("a", Some(f.id())), var("b", None), var("c", Some(f.id()))],
        )),
        Node::new(Statement::Function(function_of(vec![statement(f.id())]))),
        Node::new(Statement::For(
            false,
            ForLoop::CLike(statement(f.id()), Some(f.id()), vec![f.id(), f.id()]),
            statement(f.id()),
        )),
        Node::new(Statement::For(
            false,
            ForLoop::CLike(Node::new(Statement::Expression(None)), None, vec![]),
            statement(f.id()),
        )),
        Node::new(Statement::For(false, ForLoop::In(sym("x"), f.id()), statement(f.id()))),
        Node::new(Statement::For(
            true,
            ForLoop::InVar(
                VarType { fcv: FinalConstVar::Final, ty: type_with(f.id()) },
                var("x", Some(f.id())),
                f.id(),
            ),
            statement(f.id()),
        )),
        Node::new(Statement::While(f.id(), statement(f.id()))),
        Node::new(Statement::DoWhile(statement(f.id()), f.id())),
        Node::new(Statement::Switch(
            f.id(),
            vec![
                SwitchCase {
                    labels: vec![sym("l")],
                    value: Some(f.id()),
                    statements: vec![statement(f.id()), Node::new(Statement::Break(None))],
                },
                SwitchCase { labels: vec![], value: None, statements: vec![statement(f.id())] },
            ],
        )),
        Node::new(Statement::If(f.id(), statement(f.id()), Some(statement(f.id())))),
        Node::new(Statement::If(f.id(), statement(f.id()), None)),
        Node::new(Statement::Rethrow),
        Node::new(Statement::Try(
            statement(f.id()),
            vec![
                TryPart {
                    on: Some(type_with(f.id())),
                    catch: Some(CatchPart {
                        exception: var("e", None),
                        trace: Some(var("s", None)),
                    }),
                    block: statement(f.id()),
                },
                TryPart { on: None, catch: None, block: statement(f.id()) },
            ],
        )),
        Node::new(Statement::Break(Some(sym("outer")))),
        Node::new(Statement::Continue(None)),
        Node::new(Statement::Return(Some(f.id()))),
        Node::new(Statement::Return(None)),
        Node::new(Statement::Yield(f.id())),
        Node::new(Statement::YieldEach(f.id())),
        Node::new(Statement::Expression(Some(f.id()))),
        Node::new(Statement::Expression(None)),
        Node::new(Statement::Assert(args(vec![f.id(), f.id()], vec![]))),
        Node::new(Statement::Labelled(sym("outer"), statement(f.id()))),
    ];
    let module = module_of(vec![Node::new(Item::Function(function_of(statements)))]);
    let names = IdentifierCollector::collect(module);
    assert_eq!(names_of(&names), f.expected());
    assert_eq!(names.len(), 42);
}

#[test]
fn collector_reaches_every_kind_of_declaration() {
    let f = Fresh::new();
    let generics = |f: &Fresh| {
        vec![
            Node::new(TypeParameter {
                metadata: meta(f.id()),
                name: sym("T"),
                extends: Some(Qualified::one("Base", vec![type_with(f.id())])),
            }),
            Node::new(TypeParameter { metadata: vec![], name: sym("U"), extends: None }),
        ]
    };
    let items = vec![
        Node::new(Item::LibraryName { metadata: meta(f.id()), path: vec![sym("lib")] }),
        Node::new(Item::Import(
            meta(f.id()),
            Import {
                uri: literal(vec![f.id()]),
                deferred: false,
                as_ident: Some(sym("io")),
                filters: vec![ImportFilter { hide: true, names: vec![sym("File")] }],
            },
        )),
        Node::new(Item::Export(meta(f.id()), literal(vec![f.id()]), vec![])),
        Node::new(Item::Part {
            metadata: meta(f.id()),
            uri: literal(vec![f.id()]),
            module: Node::new(Module {
                path: String::from("/lib/part.dart"),
                items: vec![Node::new(Item::Vars(var_type(), vec![var("inner", Some(f.id()))]))],
                has_error: false,
            }),
        }),
        Node::new(Item::PartOf { metadata: meta(f.id()), path: vec![sym("lib")] }),
        Node::new(Item::Class {
            metadata: meta(f.id()),
            abstract_: false,
            name: sym("A"),
            generics: generics(&f),
            superclass: Some(Qualified {
                prefix: Some(Qualified::one("prefix", vec![type_with(f.id())])),
                name: sym("Super"),
                params: vec![type_with(f.id())],
            })
            .map(Node::new),
            mixins: vec![Qualified::one("M", vec![type_with(f.id())])],
            interfaces: vec![
                Qualified::one("I", vec![type_with(f.id())]),
                Qualified::one("J", vec![type_with(f.id())]),
            ],
            members: vec![
                Node::new(ClassMember::Redirect {
                    metadata: meta(f.id()),
                    method_qualifiers: vec![MethodQualifiers::Factory],
                    name: None,
                    sig: FnSig { return_type: type_with(f.id()), ..FnSig::default() },
                    ty: type_with(f.id()),
                }),
                Node::new(ClassMember::Constructor {
                    metadata: meta(f.id()),
                    method_qualifiers: vec![MethodQualifiers::Const],
                    name: Some(sym("named")),
                    sig: FnSig { return_type: type_with(f.id()), ..FnSig::default() },
                    initializers: vec![
                        ConstructorInitializer::Super(None, args(vec![f.id()], vec![])),
                        ConstructorInitializer::This(
                            Some(sym("other")),
                            args(vec![f.id()], vec![]),
                        ),
                        ConstructorInitializer::Assert(args(vec![f.id()], vec![])),
                        ConstructorInitializer::Field(true, sym("x"), f.id()),
                    ],
                    function_body: Some(FnBody::Native(Some(literal(vec![f.id()])))),
                }),
                Node::new(ClassMember::Method(
                    meta(f.id()),
                    vec![MethodQualifiers::Static],
                    function_of(vec![statement(f.id())]),
                )),
                Node::new(ClassMember::Fields {
                    metadata: meta(f.id()),
                    static_: true,
                    var_type: VarType { fcv: FinalConstVar::Final, ty: type_with(f.id()) },
                    initializers: vec![var("x", Some(f.id())), var("y", Some(f.id()))],
                }),
            ],
        }),
        Node::new(Item::MixinClass {
            metadata: meta(f.id()),
            abstract_: true,
            name: sym("B"),
            generics: generics(&f),
            mixins: vec![Qualified::one("M", vec![type_with(f.id())])],
            interfaces: vec![Qualified::one("I", vec![type_with(f.id())])],
        }),
        Node::new(Item::Enum { metadata: meta(f.id()), name: sym("E"), values: vec![sym("one")] }),
        Node::new(Item::TypeAlias {
            metadata: meta(f.id()),
            name: sym("F"),
            generics: generics(&f),
            ty: Node::new(Type::FunctionOld(FnSig {
                return_type: Node::new(Type::Path(Qualified::one("R", vec![type_with(f.id())]))),
                ..FnSig::default()
            })),
        }),
        Node::new(Item::Function(Node::new(Function {
            name: FnName::Operator(OverloadedOp::Value(ValueBinOp::Add)),
            generics: generics(&f),
            sig: FnSig { return_type: type_with(f.id()), ..FnSig::default() },
            body: Some(FnBody::Arrow(f.id())),
        }))),
        Node::new(Item::Function(Node::new(Function {
            name: FnName::Getter(sym("g")),
            generics: vec![],
            sig: FnSig::default(),
            body: None,
        }))),
        Node::new(Item::Vars(
            VarType { fcv: FinalConstVar::Var, ty: type_with(f.id()) },
            vec![var("a", Some(f.id())), var("b", Some(f.id()))],
        )),
    ];
    let names = IdentifierCollector::collect(module_of(items));
    assert_eq!(names_of(&names), f.expected());
    assert_eq!(names.len(), 50);
}

/// Writes down the kind of every node it is called on.
struct Kinds {
    seen: Vec<&'static str>,
}

fn kind_of(node: &NodeRef<'_>) -> &'static str {
    match node {
        NodeRef::Module(_) => "module",
        NodeRef::Item(_) => "item",
        NodeRef::ClassMember(_) => "class_member",
        NodeRef::ConstructorInitializer(_) => "constructor_initializer",
        NodeRef::Meta(_) => "meta",
        NodeRef::Qualified(_) => "qualified",
        NodeRef::Generics(_) => "generics",
        NodeRef::Type(_) => "type",
        NodeRef::Function(_) => "function",
        NodeRef::FnSig(_) => "fn_sig",
        NodeRef::FnBody(_) => "fn_body",
        NodeRef::TryPart(_) => "try_part",
        NodeRef::Statement(_) => "statement",
        NodeRef::Block(_) => "block",
        NodeRef::VarDef(_) => "var_def",
        NodeRef::Expr(_) => "expr",
        NodeRef::Args(_) => "args",
        NodeRef::Suffix(_) => "suffix",
        NodeRef::StringLiteral(_) => "string_literal",
    }
}

impl Visitor for Kinds {
    type State = ();

    fn visit_node(&mut self, node: NodeRef<'_>) -> Walk {
        self.seen.push(kind_of(&node));
        Walk::Descend
    }
}

#[test]
fn class_is_walked_in_declaration_order() {
    let class = Node::new(Item::Class {
        metadata: vec![],
        abstract_: false,
        name: sym("A"),
        generics: vec![],
        superclass: Some(Qualified::one("S", vec![])),
        mixins: vec![Qualified::one("M", vec![])],
        interfaces: vec![Qualified::one("I", vec![])],
        members: vec![Node::new(ClassMember::Fields {
            metadata: vec![],
            static_: false,
            var_type: var_type(),
            initializers: vec![var("x", None)],
        })],
    });
    let mut kinds = Kinds { seen: vec![] };
    Item::visit(class, &mut kinds);
    assert_eq!(
        kinds.seen,
        vec![
            "item",
            "meta",
            "generics",
            "qualified",
            "qualified",
            "qualified",
            "class_member",
            "meta",
            "type",
            "var_def",
        ]
    );
}

#[test]
fn try_is_walked_block_first_then_each_clause() {
    let body = Node::new(Statement::Block(vec![]));
    let handler = Node::new(Statement::Rethrow);
    let statement = Node::new(Statement::Try(
        body,
        vec![
            TryPart { on: Some(infer()), catch: None, block: handler.clone() },
            TryPart { on: None, catch: None, block: handler },
        ],
    ));
    let mut kinds = Kinds { seen: vec![] };
    Statement::visit(statement, &mut kinds);
    assert_eq!(
        kinds.seen,
        vec![
            "statement",
            "statement",
            "block",
            "try_part",
            "type",
            "statement",
            "try_part",
            "statement",
        ]
    );
}

/// Writes down what the walk meets in a catch clause: guard types, variables
/// by name, and statements.
struct Clause {
    seen: Vec<String>,
}

impl Visitor for Clause {
    type State = ();

    fn visit_node(&mut self, node: NodeRef<'_>) -> Walk {
        match node {
            NodeRef::Type(_) => self.seen.push(String::from("guard")),
            NodeRef::VarDef(var) => self.seen.push(var.name.as_str().to_string()),
            NodeRef::Statement(_) => self.seen.push(String::from("body")),
            _ => {}
        }
        Walk::Descend
    }
}

/// Keeps the handles of the variables it is given.
struct Vars {
    seen: Vec<Node<VarDef>>,
}

impl Visitor for Vars {
    type State = ();

    fn visit_node(&mut self, _node: NodeRef<'_>) -> Walk {
        Walk::Descend
    }

    fn dart_var_def(&mut self, var: Node<VarDef>) -> Walk {
        self.seen.push(var);
        Walk::Descend
    }
}

#[test]
fn catch_binders_are_walked_between_guard_and_body() {
    let exception = var("e", None);
    let clause = TryPart {
        on: Some(infer()),
        catch: Some(CatchPart { exception: exception.clone(), trace: Some(var("s", None)) }),
        block: Node::new(Statement::Rethrow),
    };
    let mut seen = Clause { seen: vec![] };
    clause.visit(&mut seen);
    assert_eq!(seen.seen, vec!["guard", "e", "s", "body"]);

    let mut kinds = Kinds { seen: vec![] };
    clause.super_visit(&mut kinds);
    assert_eq!(kinds.seen, vec!["type", "var_def", "var_def", "statement"]);

    let mut vars = Vars { seen: vec![] };
    clause.visit(&mut vars);
    assert_eq!(vars.seen.len(), 2);
    assert!(Node::ptr_eq(&vars.seen[0], &exception));
}

#[test]
fn catch_without_a_trace_binds_the_exception_alone() {
    let clause = TryPart {
        on: None,
        catch: Some(CatchPart { exception: var("e", None), trace: None }),
        block: Node::new(Statement::Rethrow),
    };
    let mut seen = Clause { seen: vec![] };
    clause.visit(&mut seen);
    assert_eq!(seen.seen, vec!["e", "body"]);
}

#[test]
fn clause_without_a_catch_is_guard_and_body() {
    let guarded = TryPart { on: Some(infer()), catch: None, block: Node::new(Statement::Rethrow) };
    let bare = TryPart { on: None, catch: None, block: Node::new(Statement::Rethrow) };
    let mut seen = Clause { seen: vec![] };
    guarded.visit(&mut seen);
    bare.visit(&mut seen);
    assert_eq!(seen.seen, vec!["guard", "body", "body"]);
}

#[test]
fn try_with_catch_clauses_is_walked_in_order() {
    let f = Fresh::new();
    let statement = Node::new(Statement::Try(
        statement(f.id()),
        vec![
            TryPart {
                on: Some(type_with(f.id())),
                catch: Some(CatchPart {
                    exception: var("e", Some(f.id())),
                    trace: Some(var("s", Some(f.id()))),
                }),
                block: statement(f.id()),
            },
            TryPart {
                on: None,
                catch: Some(CatchPart { exception: var("e", Some(f.id())), trace: None }),
                block: statement(f.id()),
            },
        ],
    ));
    let mut names = IdentifierCollector::new();
    Statement::visit(statement, &mut names);
    assert_eq!(names_of(&names.names), f.expected());
    assert_eq!(names.names.len(), 7);
}

#[test]
fn node_is_seen_before_its_children() {
    // f(a)[b]
    let call = Node::new(Expr::Suffix(id("f"), Suffix::Call(vec![], args(vec![id("a")], vec![]))));
    let index = Node::new(Expr::Suffix(call, Suffix::Index(id("b"))));
    let mut kinds = Kinds { seen: vec![] };
    index.visit(&mut kinds);
    assert_eq!(
        kinds.seen,
        vec!["expr", "expr", "expr", "suffix", "args", "expr", "suffix", "expr"]
    );
}

#[test]
fn super_visit_leaves_the_hook_of_the_node_out() {
    let sum = Node::new(Expr::Binary(BinOp::Value(ValueBinOp::Add), id("a"), id("b")));
    let mut kinds = Kinds { seen: vec![] };
    Expr::super_visit(sum.clone(), &mut kinds);
    assert_eq!(kinds.seen, vec!["expr", "expr"]);

    let mut names = IdentifierCollector::new();
    Expr::super_visit(id("alone"), &mut names);
    assert!(names.names.is_empty());
    Expr::visit(id("alone"), &mut names);
    assert_eq!(names_of(&names.names), vec!["alone"]);
}

#[test]
fn walk_goes_into_an_included_module() {
    let included = Node::new(Module {
        path: String::from("/lib/a.dart"),
        items: vec![Node::new(Item::Vars(var_type(), vec![var("x", Some(id("inside")))]))],
        has_error: false,
    });
    let part = Node::new(Item::Part { metadata: vec![], uri: literal(vec![]), module: included });
    let mut kinds = Kinds { seen: vec![] };
    Module::visit(module_of(vec![part.clone()]), &mut kinds);
    assert_eq!(
        kinds.seen,
        vec![
            "module",
            "item",
            "meta",
            "string_literal",
            "module",
            "item",
            "type",
            "var_def",
            "expr",
        ]
    );
    let names = IdentifierCollector::collect(module_of(vec![part]));
    assert_eq!(names_of(&names), vec!["inside"]);
}

/// Collects identifiers, but stays out of nested functions.
struct Shallow {
    names: Vec<String>,
}

impl Visitor for Shallow {
    type State = ();

    fn visit_node(&mut self, _node: NodeRef<'_>) -> Walk {
        Walk::Descend
    }

    fn dart_function(&mut self, _function: Node<Function>) -> Walk {
        Walk::Skip
    }

    fn dart_expr(&mut self, expr: Node<Expr>) -> Walk {
        if let Expr::Identifier(name) = expr.get() {
            self.names.push(name.as_str().to_string());
        }
        Walk::Descend
    }
}

#[test]
fn skipped_node_keeps_its_children_from_the_walk() {
    let nested = Node::new(Statement::Function(function_of(vec![statement(id("hidden"))])));
    let block = Node::new(Statement::Block(vec![
        statement(id("before")),
        nested,
        statement(id("after")),
    ]));
    let mut shallow = Shallow { names: vec![] };
    Statement::visit(block, &mut shallow);
    assert_eq!(shallow.names, vec!["before", "after"]);
}

/// Counts the nodes below each expression before it looks at the expression
/// itself: the walk over the children is started from inside the hook.
struct BottomUp {
    order: Vec<String>,
}

impl Visitor for BottomUp {
    type State = ();

    fn visit_node(&mut self, _node: NodeRef<'_>) -> Walk {
        Walk::Descend
    }

    fn dart_expr(&mut self, expr: Node<Expr>) -> Walk {
        Expr::super_visit(expr.clone(), self);
        self.order.push(match expr.get() {
            Expr::Identifier(name) => name.as_str().to_string(),
            Expr::Binary(op, _, _) => op.as_str().to_string(),
            _ => String::from("?"),
        });
        Walk::Skip
    }
}

#[test]
fn hook_can_walk_the_children_itself() {
    let product = Node::new(Expr::Binary(BinOp::Value(ValueBinOp::Mul), id("b"), id("c")));
    let sum = Node::new(Expr::Binary(BinOp::Value(ValueBinOp::Add), id("a"), product));
    let mut visitor = BottomUp { order: vec![] };
    Expr::visit(sum, &mut visitor);
    assert_eq!(visitor.order, vec!["a", "b", "c", "*", "+"]);
}

#[test]
fn absent_children_are_passed_over() {
    let mut kinds = Kinds { seen: vec![] };
    VarDef::visit(var("x", None), &mut kinds);
    Statement::visit(Node::new(Statement::Return(None)), &mut kinds);
    Qualified::visit(Qualified::one("C", vec![]), &mut kinds);
    assert_eq!(kinds.seen, vec!["var_def", "statement", "qualified"]);
}

#[test]
fn embedded_nodes_are_walked_in_place() {
    let list = args(vec![id("a")], vec![id("b")]);
    let mut names = IdentifierCollector::new();
    list.visit(&mut names);
    list.super_visit(&mut names);
    assert_eq!(names_of(&names.names), vec!["a", "b", "a", "b"]);

    let annotations = meta(id("m"));
    let mut kinds = Kinds { seen: vec![] };
    annotations.visit(&mut kinds);
    assert_eq!(kinds.seen, vec!["meta", "qualified", "args", "expr"]);
}

#[test]
fn shared_subtree_is_walked_wherever_it_hangs() {
    let shared = id("twice");
    let pair = Node::new(Expr::Binary(BinOp::Bool(BoolBinOp::Eq), shared.clone(), shared));
    let mut names = IdentifierCollector::new();
    Expr::visit(pair, &mut names);
    assert_eq!(names_of(&names.names), vec!["twice", "twice"]);
}
