//! The order of a walk.
//!
//! A walk is depth first and meets each node before its children, and the
//! children in the order of their declaration. Here that order is written
//! down by the shape of the tree alone, as the sequence of the nodes that have
//! a hook; and it is shown that a walk by a visitor that never skips calls the
//! hooks on exactly this sequence, so that no such visitor misses a node.

use crate::dart::ast::{
    ArgDef, Args, Cascade, CatchPart, ClassMember, ConstructorInitializer, Expr, FnBody, FnSig,
    ForLoop, Function, Item, Metadata, MetadataItem, Module, NamedArg, Qualified, Statement,
    StringLiteral, Suffix, SwitchCase, TryPart, Type, TypeParameter, ValueBinOp, VarDef,
};
use crate::dart::visit::{NodeRef, Visitor, Walk};
use crate::dart::walk::{
    walk, walk_arg_def, walk_arg_defs, walk_args, walk_args_below, walk_below, walk_block,
    walk_block_below, walk_cascade, walk_cascade_assign, walk_catch_part, walk_class_member,
    walk_class_member_below, walk_class_members, walk_constructor_initializer,
    walk_constructor_initializer_below, walk_constructor_initializers, walk_expr,
    walk_expr_below, walk_exprs, walk_fn_body, walk_fn_body_below, walk_fn_sig,
    walk_fn_sig_below, walk_for_loop, walk_function, walk_function_below, walk_generics,
    walk_generics_below, walk_interpolation, walk_interpolations, walk_item, walk_item_below,
    walk_items, walk_map_entries, walk_map_entry, walk_meta, walk_meta_below,
    walk_metadata_item, walk_metadata_items, walk_module, walk_module_below, walk_named_arg,
    walk_named_args, walk_qualified, walk_qualified_below, walk_qualified_names,
    walk_statement, walk_statement_below, walk_statements, walk_string_literal,
    walk_string_literal_below, walk_string_literals, walk_suffix, walk_suffix_below,
    walk_suffixes, walk_switch_case, walk_switch_cases, walk_try_part, walk_try_part_below,
    walk_try_parts, walk_type, walk_type_below, walk_type_pair, walk_type_parameter,
    walk_type_parameters, walk_types, walk_var_def, walk_var_def_below, walk_var_defs,
};
use crate::node::Node;
use crate::source::Span;
use vstd::prelude::*;

verus! {

/// Whether no hook of the visitor ever skips, whatever its state and the node.
pub open spec fn never_skips<V: Visitor>() -> bool {
    forall|state: V::State, node: NodeRef<'static>|
        (#[trigger] V::react(state, node)).1 == Walk::Descend
}

/// The state of a visitor after its hooks were called on `nodes`, first to
/// last.
#[verifier::opaque]
pub open spec fn react_all<V: Visitor>(state: V::State, nodes: Seq<NodeRef<'static>>) -> V::State
    decreases nodes.len(),
{
    if nodes.len() == 0 {
        state
    } else {
        V::react(react_all::<V>(state, nodes.drop_last()), nodes.last()).0
    }
}

/// Calling the hooks on one sequence and then on another is calling them on
/// the two joined.
pub proof fn lemma_react_all_concat<V: Visitor>(
    state: V::State,
    first: Seq<NodeRef<'static>>,
    second: Seq<NodeRef<'static>>,
)
    ensures
        react_all::<V>(state, first + second) == react_all::<V>(
            react_all::<V>(state, first),
            second,
        ),
    decreases second.len(),
{
    reveal(react_all);
    if second.len() == 0 {
        assert(first + second =~= first);
    } else {
        lemma_react_all_concat::<V>(state, first, second.drop_last());
        assert((first + second).drop_last() =~= first + second.drop_last());
    }
}

/// Calling the hooks on a single node is one reaction.
pub proof fn lemma_react_all_one<V: Visitor>(state: V::State, node: NodeRef<'static>)
    ensures
        react_all::<V>(state, seq![node]) == V::react(state, node).0,
{
    reveal_with_fuel(react_all, 2);
    assert(seq![node].drop_last() =~= Seq::<NodeRef<'static>>::empty());
}

/// Calling the hooks on no node changes nothing.
pub proof fn lemma_react_all_none<V: Visitor>(state: V::State)
    ensures
        react_all::<V>(state, Seq::empty()) == state,
{
    reveal(react_all);
}

/// The nodes at and below `node`, whatever its kind: `node` first, then what
/// lies below each of its children, in the order of their declaration.
pub open spec fn preorder(node: NodeRef<'_>) -> Seq<NodeRef<'static>> {
    match node {
        NodeRef::Module(module) => preorder_module(module),
        NodeRef::Item(item) => preorder_item(item),
        NodeRef::ClassMember(class_member) => preorder_class_member(class_member),
        NodeRef::ConstructorInitializer(initializer) => preorder_constructor_initializer(
            *initializer,
        ),
        NodeRef::Meta(meta) => preorder_meta(*meta),
        NodeRef::Qualified(qualified) => preorder_qualified(qualified),
        NodeRef::Generics(generics) => preorder_generics(*generics),
        NodeRef::Type(ty) => preorder_type(ty),
        NodeRef::Function(function) => preorder_function(function),
        NodeRef::FnSig(sig) => preorder_fn_sig(*sig),
        NodeRef::FnBody(fn_body) => preorder_fn_body(*fn_body),
        NodeRef::TryPart(try_part) => preorder_try_part(*try_part),
        NodeRef::Statement(statement) => preorder_statement(statement),
        NodeRef::Block(statements) => preorder_block(*statements),
        NodeRef::VarDef(var) => preorder_var_def(var),
        NodeRef::Expr(expr) => preorder_expr(expr),
        NodeRef::Args(args) => preorder_args(*args),
        NodeRef::Suffix(suffix) => preorder_suffix(*suffix),
        NodeRef::StringLiteral(string_literal) => preorder_string_literal(*string_literal),
    }
}

/// The nodes below `node`, whatever its kind.
pub open spec fn preorder_below(node: NodeRef<'_>) -> Seq<NodeRef<'static>> {
    match node {
        NodeRef::Module(module) => preorder_module_below(module),
        NodeRef::Item(item) => preorder_item_below(item),
        NodeRef::ClassMember(class_member) => preorder_class_member_below(class_member),
        NodeRef::ConstructorInitializer(initializer) => preorder_constructor_initializer_below(
            *initializer,
        ),
        NodeRef::Meta(meta) => preorder_meta_below(*meta),
        NodeRef::Qualified(qualified) => preorder_qualified_below(qualified),
        NodeRef::Generics(generics) => preorder_generics_below(*generics),
        NodeRef::Type(ty) => preorder_type_below(ty),
        NodeRef::Function(function) => preorder_function_below(function),
        NodeRef::FnSig(sig) => preorder_fn_sig_below(*sig),
        NodeRef::FnBody(fn_body) => preorder_fn_body_below(*fn_body),
        NodeRef::TryPart(try_part) => preorder_try_part_below(*try_part),
        NodeRef::Statement(statement) => preorder_statement_below(statement),
        NodeRef::Block(statements) => preorder_block_below(*statements),
        NodeRef::VarDef(var) => preorder_var_def_below(var),
        NodeRef::Expr(expr) => preorder_expr_below(expr),
        NodeRef::Args(args) => preorder_args_below(*args),
        NodeRef::Suffix(suffix) => preorder_suffix_below(*suffix),
        NodeRef::StringLiteral(string_literal) => preorder_string_literal_below(*string_literal),
    }
}

/// The nodes at and below a module.
pub open spec fn preorder_module(module: Node<Module>) -> Seq<NodeRef<'static>>
    decreases module, 1int,
{
    seq![NodeRef::Module(module)] + preorder_module_below(module)
}

/// The nodes below a module.
pub open spec fn preorder_module_below(module: Node<Module>) -> Seq<NodeRef<'static>>
    decreases module, 0int,
{
    preorder_items(module@.items@)
}

/// The nodes at and below a top-level declaration.
pub open spec fn preorder_item(item: Node<Item>) -> Seq<NodeRef<'static>>
    decreases item, 1int,
{
    seq![NodeRef::Item(item)] + preorder_item_below(item)
}

/// The nodes below a top-level declaration.
pub open spec fn preorder_item_below(item: Node<Item>) -> Seq<NodeRef<'static>>
    decreases item, 0int,
{
    match item@ {
        Item::LibraryName { metadata, .. } => preorder_meta(metadata),
        Item::Import(metadata, import) => {
            preorder_meta(metadata) + preorder_string_literal(import.uri)
        },
        Item::Export(metadata, uri, _) => {
            preorder_meta(metadata) + preorder_string_literal(uri)
        },
        Item::Part { metadata, uri, module } => {
            preorder_meta(metadata)
                + preorder_string_literal(uri)
                + preorder_module(module)
        },
        Item::PartOf { metadata, .. } => preorder_meta(metadata),
        Item::Class { metadata, generics, superclass, mixins, interfaces, members, .. } => {
            preorder_meta(metadata)
                + preorder_generics(generics)
                + (match superclass {
                    Some(child) => preorder_qualified(child),
                    None => Seq::empty(),
                })
                + preorder_qualified_names(mixins@)
                + preorder_qualified_names(interfaces@)
                + preorder_class_members(members@)
        },
        Item::MixinClass { metadata, generics, mixins, interfaces, .. } => {
            preorder_meta(metadata)
                + preorder_generics(generics)
                + preorder_qualified_names(mixins@)
                + preorder_qualified_names(interfaces@)
        },
        Item::Enum { metadata, .. } => preorder_meta(metadata),
        Item::TypeAlias { metadata, generics, ty, .. } => {
            preorder_meta(metadata) + preorder_generics(generics) + preorder_type(ty)
        },
        Item::Function(function) => preorder_function(function),
        Item::Vars(var_type, vars) => preorder_type(var_type.ty) + preorder_var_defs(vars@),
    }
}

/// The nodes at and below a class member.
pub open spec fn preorder_class_member(class_member: Node<ClassMember>) -> Seq<NodeRef<'static>>
    decreases class_member, 1int,
{
    seq![NodeRef::ClassMember(class_member)] + preorder_class_member_below(class_member)
}

/// The nodes below a class member.
pub open spec fn preorder_class_member_below(
    class_member: Node<ClassMember>,
) -> Seq<NodeRef<'static>>
    decreases class_member, 0int,
{
    match class_member@ {
        ClassMember::Redirect { metadata, sig, ty, .. } => {
            preorder_meta(metadata) + preorder_fn_sig(sig) + preorder_type(ty)
        },
        ClassMember::Constructor { metadata, sig, initializers, function_body, .. } => {
            preorder_meta(metadata)
                + preorder_fn_sig(sig)
                + preorder_constructor_initializers(initializers@)
                + (match function_body {
                    Some(child) => preorder_fn_body(child),
                    None => Seq::empty(),
                })
        },
        ClassMember::Method(metadata, _, function) => {
            preorder_meta(metadata) + preorder_function(function)
        },
        ClassMember::Fields { metadata, var_type, initializers, .. } => {
            preorder_meta(metadata)
                + preorder_type(var_type.ty)
                + preorder_var_defs(initializers@)
        },
    }
}

/// The nodes at and below a constructor initializer.
pub open spec fn preorder_constructor_initializer(
    initializer: ConstructorInitializer,
) -> Seq<NodeRef<'static>>
    decreases initializer, 1int,
{
    seq![NodeRef::ConstructorInitializer(&initializer)] + preorder_constructor_initializer_below(
        initializer,
    )
}

/// The nodes below a constructor initializer.
pub open spec fn preorder_constructor_initializer_below(
    initializer: ConstructorInitializer,
) -> Seq<NodeRef<'static>>
    decreases initializer, 0int,
{
    match initializer {
        ConstructorInitializer::Super(_, args) => preorder_args(args),
        ConstructorInitializer::This(_, args) => preorder_args(args),
        ConstructorInitializer::Assert(args) => preorder_args(args),
        ConstructorInitializer::Field(_, _, value) => preorder_expr(value),
    }
}

/// The nodes at and below a list of annotations.
pub open spec fn preorder_meta(meta: Metadata) -> Seq<NodeRef<'static>>
    decreases meta, 1int,
{
    seq![NodeRef::Meta(&meta)] + preorder_meta_below(meta)
}

/// The nodes below a list of annotations.
pub open spec fn preorder_meta_below(meta: Metadata) -> Seq<NodeRef<'static>>
    decreases meta, 0int,
{
    preorder_metadata_items(meta@)
}

/// The nodes at and below a qualified name.
pub open spec fn preorder_qualified(qualified: Node<Qualified>) -> Seq<NodeRef<'static>>
    decreases qualified, 1int,
{
    seq![NodeRef::Qualified(qualified)] + preorder_qualified_below(qualified)
}

/// The nodes below a qualified name.
pub open spec fn preorder_qualified_below(qualified: Node<Qualified>) -> Seq<NodeRef<'static>>
    decreases qualified, 0int,
{
    (match qualified@.prefix {
        Some(child) => preorder_qualified(child),
        None => Seq::empty(),
    })
        + preorder_types(qualified@.params@)
}

/// The nodes at and below a list of type parameters.
pub open spec fn preorder_generics(generics: Vec<Node<TypeParameter>>) -> Seq<NodeRef<'static>>
    decreases generics, 1int,
{
    seq![NodeRef::Generics(&generics)] + preorder_generics_below(generics)
}

/// The nodes below a list of type parameters.
pub open spec fn preorder_generics_below(
    generics: Vec<Node<TypeParameter>>,
) -> Seq<NodeRef<'static>>
    decreases generics, 0int,
{
    preorder_type_parameters(generics@)
}

/// The nodes at and below a type.
pub open spec fn preorder_type(ty: Node<Type>) -> Seq<NodeRef<'static>>
    decreases ty, 1int,
{
    seq![NodeRef::Type(ty)] + preorder_type_below(ty)
}

/// The nodes below a type.
pub open spec fn preorder_type_below(ty: Node<Type>) -> Seq<NodeRef<'static>>
    decreases ty, 0int,
{
    match ty@ {
        Type::Path(qualified) => preorder_qualified(qualified),
        Type::FunctionOld(sig) => preorder_fn_sig(sig),
        Type::Function(sig) => preorder_fn_sig(sig),
        Type::Infer => Seq::empty(),
    }
}

/// The nodes at and below a function.
pub open spec fn preorder_function(function: Node<Function>) -> Seq<NodeRef<'static>>
    decreases function, 1int,
{
    seq![NodeRef::Function(function)] + preorder_function_below(function)
}

/// The nodes below a function.
pub open spec fn preorder_function_below(function: Node<Function>) -> Seq<NodeRef<'static>>
    decreases function, 0int,
{
    preorder_generics(function@.generics)
        + preorder_fn_sig(function@.sig)
        + (match function@.body {
            Some(child) => preorder_fn_body(child),
            None => Seq::empty(),
        })
}

/// The nodes at and below a function signature.
pub open spec fn preorder_fn_sig(sig: FnSig) -> Seq<NodeRef<'static>>
    decreases sig, 1int,
{
    seq![NodeRef::FnSig(&sig)] + preorder_fn_sig_below(sig)
}

/// The nodes below a function signature.
pub open spec fn preorder_fn_sig_below(sig: FnSig) -> Seq<NodeRef<'static>>
    decreases sig, 0int,
{
    preorder_type(sig.return_type)
        + preorder_arg_defs(sig.required@)
        + preorder_arg_defs(sig.optional@)
}

/// The nodes at and below a function body.
pub open spec fn preorder_fn_body(fn_body: FnBody) -> Seq<NodeRef<'static>>
    decreases fn_body, 1int,
{
    seq![NodeRef::FnBody(&fn_body)] + preorder_fn_body_below(fn_body)
}

/// The nodes below a function body.
pub open spec fn preorder_fn_body_below(fn_body: FnBody) -> Seq<NodeRef<'static>>
    decreases fn_body, 0int,
{
    match fn_body {
        FnBody::Arrow(value) => preorder_expr(value),
        FnBody::Block(block) => preorder_statement(block),
        FnBody::Native(name) => {
            match name {
                Some(child) => preorder_string_literal(child),
                None => Seq::empty(),
            }
        },
    }
}

/// The nodes at and below a catch clause.
pub open spec fn preorder_try_part(try_part: TryPart) -> Seq<NodeRef<'static>>
    decreases try_part, 1int,
{
    seq![NodeRef::TryPart(&try_part)] + preorder_try_part_below(try_part)
}

/// The nodes below a catch clause.
pub open spec fn preorder_try_part_below(try_part: TryPart) -> Seq<NodeRef<'static>>
    decreases try_part, 0int,
{
    (match try_part.on {
        Some(child) => preorder_type(child),
        None => Seq::empty(),
    })
        + (match try_part.catch {
            Some(child) => preorder_catch_part(child),
            None => Seq::empty(),
        })
        + preorder_statement(try_part.block)
}

/// The nodes at and below a statement.
pub open spec fn preorder_statement(statement: Node<Statement>) -> Seq<NodeRef<'static>>
    decreases statement, 1int,
{
    seq![NodeRef::Statement(statement)] + preorder_statement_below(statement)
}

/// The nodes below a statement.
pub open spec fn preorder_statement_below(statement: Node<Statement>) -> Seq<NodeRef<'static>>
    decreases statement, 0int,
{
    match statement@ {
        Statement::Block(statements) => preorder_block(statements),
        Statement::Vars(var_type, vars) => {
            preorder_type(var_type.ty) + preorder_var_defs(vars@)
        },
        Statement::Function(function) => preorder_function(function),
        Statement::For(_, for_loop, body) => {
            preorder_for_loop(for_loop) + preorder_statement(body)
        },
        Statement::While(condition, body) => {
            preorder_expr(condition) + preorder_statement(body)
        },
        Statement::DoWhile(body, condition) => {
            preorder_statement(body) + preorder_expr(condition)
        },
        Statement::Switch(subject, cases) => {
            preorder_expr(subject) + preorder_switch_cases(cases@)
        },
        Statement::If(condition, consequent, alternative) => {
            preorder_expr(condition)
                + preorder_statement(consequent)
                + (match alternative {
                    Some(child) => preorder_statement(child),
                    None => Seq::empty(),
                })
        },
        Statement::Rethrow => Seq::empty(),
        Statement::Try(body, parts) => preorder_statement(body) + preorder_try_parts(parts@),
        Statement::Break(_) => Seq::empty(),
        Statement::Continue(_) => Seq::empty(),
        Statement::Return(value) => {
            match value {
                Some(child) => preorder_expr(child),
                None => Seq::empty(),
            }
        },
        Statement::Yield(value) => preorder_expr(value),
        Statement::YieldEach(value) => preorder_expr(value),
        Statement::Expression(value) => {
            match value {
                Some(child) => preorder_expr(child),
                None => Seq::empty(),
            }
        },
        Statement::Assert(args) => preorder_args(args),
        Statement::Labelled(_, body) => preorder_statement(body),
    }
}

/// The nodes at and below the statements of a block.
pub open spec fn preorder_block(statements: Vec<Node<Statement>>) -> Seq<NodeRef<'static>>
    decreases statements, 1int,
{
    seq![NodeRef::Block(&statements)] + preorder_block_below(statements)
}

/// The nodes below the statements of a block.
pub open spec fn preorder_block_below(statements: Vec<Node<Statement>>) -> Seq<NodeRef<'static>>
    decreases statements, 0int,
{
    preorder_statements(statements@)
}

/// The nodes at and below a variable definition.
pub open spec fn preorder_var_def(var: Node<VarDef>) -> Seq<NodeRef<'static>>
    decreases var, 1int,
{
    seq![NodeRef::VarDef(var)] + preorder_var_def_below(var)
}

/// The nodes below a variable definition.
pub open spec fn preorder_var_def_below(var: Node<VarDef>) -> Seq<NodeRef<'static>>
    decreases var, 0int,
{
    match var@.init {
        Some(child) => preorder_expr(child),
        None => Seq::empty(),
    }
}

/// The nodes at and below an expression.
pub open spec fn preorder_expr(expr: Node<Expr>) -> Seq<NodeRef<'static>>
    decreases expr, 1int,
{
    seq![NodeRef::Expr(expr)] + preorder_expr_below(expr)
}

/// The nodes below an expression.
pub open spec fn preorder_expr_below(expr: Node<Expr>) -> Seq<NodeRef<'static>>
    decreases expr, 0int,
{
    match expr@ {
        Expr::Unary(_, operand) => preorder_expr(operand),
        Expr::Binary(_, left, right) => preorder_expr(left) + preorder_expr(right),
        Expr::Conditional(condition, consequent, alternative) => {
            preorder_expr(condition)
                + preorder_expr(consequent)
                + preorder_expr(alternative)
        },
        Expr::Is(value, ty) => preorder_expr(value) + preorder_type(ty),
        Expr::IsNot(value, ty) => preorder_expr(value) + preorder_type(ty),
        Expr::As(value, ty) => preorder_expr(value) + preorder_type(ty),
        Expr::Suffix(value, suffix) => preorder_expr(value) + preorder_suffix(suffix),
        Expr::Identifier(_) => Seq::empty(),
        Expr::Closure(sig, body) => preorder_fn_sig(sig) + preorder_fn_body(body),
        Expr::New { path, args, .. } => preorder_qualified(path) + preorder_args(args),
        Expr::List { element_ty, elements, .. } => {
            (match element_ty {
                Some(child) => preorder_type(child),
                None => Seq::empty(),
            })
                + preorder_exprs(elements@)
        },
        Expr::MapLiteral { kv_ty, kv, .. } => {
            (match kv_ty {
                Some(child) => preorder_type_pair(child),
                None => Seq::empty(),
            })
                + preorder_map_entries(kv@)
        },
        Expr::Number(_) => Seq::empty(),
        Expr::String(literals) => preorder_string_literals(literals@),
        Expr::Symbol(_) => Seq::empty(),
        Expr::Paren(inner) => preorder_expr(inner),
        Expr::Throw(value) => preorder_expr(value),
        Expr::Cascade(value, cascade) => preorder_expr(value) + preorder_cascade(cascade),
    }
}

/// The nodes at and below an argument list.
pub open spec fn preorder_args(args: Args) -> Seq<NodeRef<'static>>
    decreases args, 1int,
{
    seq![NodeRef::Args(&args)] + preorder_args_below(args)
}

/// The nodes below an argument list.
pub open spec fn preorder_args_below(args: Args) -> Seq<NodeRef<'static>>
    decreases args, 0int,
{
    preorder_exprs(args.unnamed@) + preorder_named_args(args.named@)
}

/// The nodes at and below a suffix.
pub open spec fn preorder_suffix(suffix: Suffix) -> Seq<NodeRef<'static>>
    decreases suffix, 1int,
{
    seq![NodeRef::Suffix(&suffix)] + preorder_suffix_below(suffix)
}

/// The nodes below a suffix.
pub open spec fn preorder_suffix_below(suffix: Suffix) -> Seq<NodeRef<'static>>
    decreases suffix, 0int,
{
    match suffix {
        Suffix::Index(index) => preorder_expr(index),
        Suffix::Field(_) => Seq::empty(),
        Suffix::FieldIfNotNull(_) => Seq::empty(),
        Suffix::Call(types, args) => preorder_types(types@) + preorder_args(args),
    }
}

/// The nodes at and below a string literal.
pub open spec fn preorder_string_literal(string_literal: StringLiteral) -> Seq<NodeRef<'static>>
    decreases string_literal, 1int,
{
    seq![NodeRef::StringLiteral(&string_literal)] + preorder_string_literal_below(string_literal)
}

/// The nodes below a string literal.
pub open spec fn preorder_string_literal_below(
    string_literal: StringLiteral,
) -> Seq<NodeRef<'static>>
    decreases string_literal, 0int,
{
    preorder_interpolations(string_literal.interpolated@)
}

/// The nodes below one annotation, which is no node of its own.
pub open spec fn preorder_metadata_item(item: MetadataItem) -> Seq<NodeRef<'static>>
    decreases item, 0int,
{
    preorder_qualified(item.qualified)
        + (match item.arguments {
            Some(child) => preorder_args(child),
            None => Seq::empty(),
        })
}

/// The nodes below one type parameter, which is no node of its own.
pub open spec fn preorder_type_parameter(parameter: Node<TypeParameter>) -> Seq<NodeRef<'static>>
    decreases parameter, 0int,
{
    preorder_meta(parameter@.metadata)
        + (match parameter@.extends {
            Some(child) => preorder_qualified(child),
            None => Seq::empty(),
        })
}

/// The nodes below one parameter of a function, which is no node of its own.
pub open spec fn preorder_arg_def(arg: ArgDef) -> Seq<NodeRef<'static>>
    decreases arg, 0int,
{
    preorder_meta(arg.metadata)
        + preorder_type(arg.ty.ty)
        + preorder_var_def(arg.var)
}

/// The nodes below the head of a `for` loop, which is no node of its own.
pub open spec fn preorder_for_loop(for_loop: ForLoop) -> Seq<NodeRef<'static>>
    decreases for_loop, 0int,
{
    match for_loop {
        ForLoop::CLike(init, condition, updates) => {
            preorder_statement(init)
                + (match condition {
                    Some(child) => preorder_expr(child),
                    None => Seq::empty(),
                })
                + preorder_exprs(updates@)
        },
        ForLoop::In(_, iterable) => preorder_expr(iterable),
        ForLoop::InVar(var_type, var, iterable) => {
            preorder_type(var_type.ty) + preorder_var_def(var) + preorder_expr(iterable)
        },
    }
}

/// The nodes below one case of a `switch`, which is no node of its own.
pub open spec fn preorder_switch_case(case: SwitchCase) -> Seq<NodeRef<'static>>
    decreases case, 0int,
{
    (match case.value {
        Some(child) => preorder_expr(child),
        None => Seq::empty(),
    })
        + preorder_statements(case.statements@)
}

/// The nodes below the binders of a catch clause, which is no node of its own.
pub open spec fn preorder_catch_part(catch: CatchPart) -> Seq<NodeRef<'static>>
    decreases catch, 0int,
{
    preorder_var_def(catch.exception)
        + (match catch.trace {
            Some(child) => preorder_var_def(child),
            None => Seq::empty(),
        })
}

/// The nodes below the key and value types of a map literal, which is no node of its own.
pub open spec fn preorder_type_pair(pair: (Node<Type>, Node<Type>)) -> Seq<NodeRef<'static>>
    decreases pair, 0int,
{
    preorder_type(pair.0) + preorder_type(pair.1)
}

/// The nodes below one entry of a map literal, which is no node of its own.
pub open spec fn preorder_map_entry(entry: (Node<Expr>, Node<Expr>)) -> Seq<NodeRef<'static>>
    decreases entry, 0int,
{
    preorder_expr(entry.0) + preorder_expr(entry.1)
}

/// The nodes below one section of a cascade, which is no node of its own.
pub open spec fn preorder_cascade(cascade: Cascade) -> Seq<NodeRef<'static>>
    decreases cascade, 0int,
{
    preorder_suffixes(cascade.suffixes@)
        + (match cascade.assign {
            Some(child) => preorder_cascade_assign(child),
            None => Seq::empty(),
        })
}

/// The nodes below the assignment that ends a cascade section, which is no node of its own.
pub open spec fn preorder_cascade_assign(
    assign: (Option<ValueBinOp>, Node<Expr>),
) -> Seq<NodeRef<'static>>
    decreases assign, 0int,
{
    preorder_expr(assign.1)
}

/// The nodes below one named argument, which is no node of its own.
pub open spec fn preorder_named_arg(arg: NamedArg) -> Seq<NodeRef<'static>>
    decreases arg, 0int,
{
    preorder_expr(arg.expr)
}

/// The nodes below one interpolation of a string literal, which is no node of its own.
pub open spec fn preorder_interpolation(part: (Node<Expr>, Span)) -> Seq<NodeRef<'static>>
    decreases part, 0int,
{
    preorder_expr(part.0)
}

/// The nodes at and below top-level declarations, first to last.
pub open spec fn preorder_items(items: Seq<Node<Item>>) -> Seq<NodeRef<'static>>
    decreases items, 0int,
{
    if items.len() == 0 {
        Seq::empty()
    } else {
        preorder_items(items.drop_last()) + preorder_item(items.last())
    }
}

/// The nodes at and below annotations, first to last.
pub open spec fn preorder_metadata_items(annotations: Seq<MetadataItem>) -> Seq<NodeRef<'static>>
    decreases annotations, 0int,
{
    if annotations.len() == 0 {
        Seq::empty()
    } else {
        preorder_metadata_items(annotations.drop_last()) + preorder_metadata_item(
            annotations.last(),
        )
    }
}

/// The nodes at and below type parameters, first to last.
pub open spec fn preorder_type_parameters(
    parameters: Seq<Node<TypeParameter>>,
) -> Seq<NodeRef<'static>>
    decreases parameters, 0int,
{
    if parameters.len() == 0 {
        Seq::empty()
    } else {
        preorder_type_parameters(parameters.drop_last()) + preorder_type_parameter(
            parameters.last(),
        )
    }
}

/// The nodes at and below qualified names, first to last.
pub open spec fn preorder_qualified_names(names: Seq<Node<Qualified>>) -> Seq<NodeRef<'static>>
    decreases names, 0int,
{
    if names.len() == 0 {
        Seq::empty()
    } else {
        preorder_qualified_names(names.drop_last()) + preorder_qualified(names.last())
    }
}

/// The nodes at and below class members, first to last.
pub open spec fn preorder_class_members(members: Seq<Node<ClassMember>>) -> Seq<NodeRef<'static>>
    decreases members, 0int,
{
    if members.len() == 0 {
        Seq::empty()
    } else {
        preorder_class_members(members.drop_last()) + preorder_class_member(members.last())
    }
}

/// The nodes at and below variable definitions, first to last.
pub open spec fn preorder_var_defs(vars: Seq<Node<VarDef>>) -> Seq<NodeRef<'static>>
    decreases vars, 0int,
{
    if vars.len() == 0 {
        Seq::empty()
    } else {
        preorder_var_defs(vars.drop_last()) + preorder_var_def(vars.last())
    }
}

/// The nodes at and below types, first to last.
pub open spec fn preorder_types(types: Seq<Node<Type>>) -> Seq<NodeRef<'static>>
    decreases types, 0int,
{
    if types.len() == 0 {
        Seq::empty()
    } else {
        preorder_types(types.drop_last()) + preorder_type(types.last())
    }
}

/// The nodes at and below constructor initializers, first to last.
pub open spec fn preorder_constructor_initializers(
    initializers: Seq<ConstructorInitializer>,
) -> Seq<NodeRef<'static>>
    decreases initializers, 0int,
{
    if initializers.len() == 0 {
        Seq::empty()
    } else {
        preorder_constructor_initializers(initializers.drop_last())
            + preorder_constructor_initializer(initializers.last())
    }
}

/// The nodes at and below parameters of a function, first to last.
pub open spec fn preorder_arg_defs(args: Seq<ArgDef>) -> Seq<NodeRef<'static>>
    decreases args, 0int,
{
    if args.len() == 0 {
        Seq::empty()
    } else {
        preorder_arg_defs(args.drop_last()) + preorder_arg_def(args.last())
    }
}

/// The nodes at and below expressions, first to last.
pub open spec fn preorder_exprs(exprs: Seq<Node<Expr>>) -> Seq<NodeRef<'static>>
    decreases exprs, 0int,
{
    if exprs.len() == 0 {
        Seq::empty()
    } else {
        preorder_exprs(exprs.drop_last()) + preorder_expr(exprs.last())
    }
}

/// The nodes at and below statements, first to last.
pub open spec fn preorder_statements(statements: Seq<Node<Statement>>) -> Seq<NodeRef<'static>>
    decreases statements, 0int,
{
    if statements.len() == 0 {
        Seq::empty()
    } else {
        preorder_statements(statements.drop_last()) + preorder_statement(statements.last())
    }
}

/// The nodes at and below cases of a `switch`, first to last.
pub open spec fn preorder_switch_cases(cases: Seq<SwitchCase>) -> Seq<NodeRef<'static>>
    decreases cases, 0int,
{
    if cases.len() == 0 {
        Seq::empty()
    } else {
        preorder_switch_cases(cases.drop_last()) + preorder_switch_case(cases.last())
    }
}

/// The nodes at and below catch clauses, first to last.
pub open spec fn preorder_try_parts(parts: Seq<TryPart>) -> Seq<NodeRef<'static>>
    decreases parts, 0int,
{
    if parts.len() == 0 {
        Seq::empty()
    } else {
        preorder_try_parts(parts.drop_last()) + preorder_try_part(parts.last())
    }
}

/// The nodes at and below named arguments, first to last.
pub open spec fn preorder_named_args(args: Seq<NamedArg>) -> Seq<NodeRef<'static>>
    decreases args, 0int,
{
    if args.len() == 0 {
        Seq::empty()
    } else {
        preorder_named_args(args.drop_last()) + preorder_named_arg(args.last())
    }
}

/// The nodes at and below suffixes, first to last.
pub open spec fn preorder_suffixes(suffixes: Seq<Suffix>) -> Seq<NodeRef<'static>>
    decreases suffixes, 0int,
{
    if suffixes.len() == 0 {
        Seq::empty()
    } else {
        preorder_suffixes(suffixes.drop_last()) + preorder_suffix(suffixes.last())
    }
}

/// The nodes at and below string literals, first to last.
pub open spec fn preorder_string_literals(literals: Seq<StringLiteral>) -> Seq<NodeRef<'static>>
    decreases literals, 0int,
{
    if literals.len() == 0 {
        Seq::empty()
    } else {
        preorder_string_literals(literals.drop_last()) + preorder_string_literal(literals.last())
    }
}

/// The nodes at and below entries of a map literal, first to last.
pub open spec fn preorder_map_entries(
    entries: Seq<(Node<Expr>, Node<Expr>)>,
) -> Seq<NodeRef<'static>>
    decreases entries, 0int,
{
    if entries.len() == 0 {
        Seq::empty()
    } else {
        preorder_map_entries(entries.drop_last()) + preorder_map_entry(entries.last())
    }
}

/// The nodes at and below interpolations of a string literal, first to last.
pub open spec fn preorder_interpolations(parts: Seq<(Node<Expr>, Span)>) -> Seq<NodeRef<'static>>
    decreases parts, 0int,
{
    if parts.len() == 0 {
        Seq::empty()
    } else {
        preorder_interpolations(parts.drop_last()) + preorder_interpolation(parts.last())
    }
}

/// A walk by a visitor that never skips calls the hooks on the nodes at and
/// below the node it starts from, once for each place a node has in the tree
/// and in the order of `preorder`; the walk over the children alone does so
/// for the nodes below.
pub proof fn lemma_walk_in_preorder<V: Visitor>(state: V::State, node: NodeRef<'static>)
    requires
        never_skips::<V>(),
    ensures
        walk::<V>(state, node) == react_all::<V>(state, preorder(node)),
        walk_below::<V>(state, node) == react_all::<V>(state, preorder_below(node)),
{
    match node {
        NodeRef::Module(module) => {
            lemma_module::<V>(state, module);
            lemma_module_below::<V>(state, module);
        },
        NodeRef::Item(item) => {
            lemma_item::<V>(state, item);
            lemma_item_below::<V>(state, item);
        },
        NodeRef::ClassMember(class_member) => {
            lemma_class_member::<V>(state, class_member);
            lemma_class_member_below::<V>(state, class_member);
        },
        NodeRef::ConstructorInitializer(initializer) => {
            lemma_constructor_initializer::<V>(state, *initializer);
            lemma_constructor_initializer_below::<V>(state, *initializer);
        },
        NodeRef::Meta(meta) => {
            lemma_meta::<V>(state, *meta);
            lemma_meta_below::<V>(state, *meta);
        },
        NodeRef::Qualified(qualified) => {
            lemma_qualified::<V>(state, qualified);
            lemma_qualified_below::<V>(state, qualified);
        },
        NodeRef::Generics(generics) => {
            lemma_generics::<V>(state, *generics);
            lemma_generics_below::<V>(state, *generics);
        },
        NodeRef::Type(ty) => {
            lemma_type::<V>(state, ty);
            lemma_type_below::<V>(state, ty);
        },
        NodeRef::Function(function) => {
            lemma_function::<V>(state, function);
            lemma_function_below::<V>(state, function);
        },
        NodeRef::FnSig(sig) => {
            lemma_fn_sig::<V>(state, *sig);
            lemma_fn_sig_below::<V>(state, *sig);
        },
        NodeRef::FnBody(fn_body) => {
            lemma_fn_body::<V>(state, *fn_body);
            lemma_fn_body_below::<V>(state, *fn_body);
        },
        NodeRef::TryPart(try_part) => {
            lemma_try_part::<V>(state, *try_part);
            lemma_try_part_below::<V>(state, *try_part);
        },
        NodeRef::Statement(statement) => {
            lemma_statement::<V>(state, statement);
            lemma_statement_below::<V>(state, statement);
        },
        NodeRef::Block(statements) => {
            lemma_block::<V>(state, *statements);
            lemma_block_below::<V>(state, *statements);
        },
        NodeRef::VarDef(var) => {
            lemma_var_def::<V>(state, var);
            lemma_var_def_below::<V>(state, var);
        },
        NodeRef::Expr(expr) => {
            lemma_expr::<V>(state, expr);
            lemma_expr_below::<V>(state, expr);
        },
        NodeRef::Args(args) => {
            lemma_args::<V>(state, *args);
            lemma_args_below::<V>(state, *args);
        },
        NodeRef::Suffix(suffix) => {
            lemma_suffix::<V>(state, *suffix);
            lemma_suffix_below::<V>(state, *suffix);
        },
        NodeRef::StringLiteral(string_literal) => {
            lemma_string_literal::<V>(state, *string_literal);
            lemma_string_literal_below::<V>(state, *string_literal);
        },
    }
}

/// A walk over a module, by a visitor that never skips.
proof fn lemma_module<V: Visitor>(state: V::State, module: Node<Module>)
    requires
        never_skips::<V>(),
    ensures
        walk_module::<V>(state, module) == react_all::<V>(state, preorder_module(module)),
    decreases module, 1int,
{
    let node = NodeRef::Module(module);
    lemma_react_all_one::<V>(state, node);
    lemma_module_below::<V>(V::react(state, node).0, module);
    lemma_react_all_concat::<V>(state, seq![node], preorder_module_below(module));
}

/// A walk over the children of a module, by a visitor that never skips.
proof fn lemma_module_below<V: Visitor>(state: V::State, module: Node<Module>)
    requires
        never_skips::<V>(),
    ensures
        walk_module_below::<V>(state, module)
            == react_all::<V>(state, preorder_module_below(module)),
    decreases module, 0int,
{
    lemma_items::<V>(state, module@.items@);
}

/// A walk over a top-level declaration, by a visitor that never skips.
proof fn lemma_item<V: Visitor>(state: V::State, item: Node<Item>)
    requires
        never_skips::<V>(),
    ensures
        walk_item::<V>(state, item) == react_all::<V>(state, preorder_item(item)),
    decreases item, 1int,
{
    let node = NodeRef::Item(item);
    lemma_react_all_one::<V>(state, node);
    lemma_item_below::<V>(V::react(state, node).0, item);
    lemma_react_all_concat::<V>(state, seq![node], preorder_item_below(item));
}

/// A walk over the children of a top-level declaration, by a visitor that never skips.
proof fn lemma_item_below<V: Visitor>(state: V::State, item: Node<Item>)
    requires
        never_skips::<V>(),
    ensures
        walk_item_below::<V>(state, item) == react_all::<V>(state, preorder_item_below(item)),
    decreases item, 0int,
{
    let start = state;
    match item@ {
        Item::LibraryName { metadata, .. } => {
            lemma_meta::<V>(state, metadata);
        },
        Item::Import(metadata, import) => {
            lemma_meta::<V>(state, metadata);
            let state = walk_meta::<V>(state, metadata);
            let seen = preorder_meta(metadata);
            lemma_string_literal::<V>(state, import.uri);
            lemma_react_all_concat::<V>(start, seen, preorder_string_literal(import.uri));
        },
        Item::Export(metadata, uri, _) => {
            lemma_meta::<V>(state, metadata);
            let state = walk_meta::<V>(state, metadata);
            let seen = preorder_meta(metadata);
            lemma_string_literal::<V>(state, uri);
            lemma_react_all_concat::<V>(start, seen, preorder_string_literal(uri));
        },
        Item::Part { metadata, uri, module } => {
            lemma_meta::<V>(state, metadata);
            let state = walk_meta::<V>(state, metadata);
            let seen = preorder_meta(metadata);
            lemma_string_literal::<V>(state, uri);
            let state = walk_string_literal::<V>(state, uri);
            lemma_react_all_concat::<V>(start, seen, preorder_string_literal(uri));
            let seen = seen + preorder_string_literal(uri);
            lemma_module::<V>(state, module);
            lemma_react_all_concat::<V>(start, seen, preorder_module(module));
        },
        Item::PartOf { metadata, .. } => {
            lemma_meta::<V>(state, metadata);
        },
        Item::Class { metadata, generics, superclass, mixins, interfaces, members, .. } => {
            lemma_meta::<V>(state, metadata);
            let state = walk_meta::<V>(state, metadata);
            let seen = preorder_meta(metadata);
            lemma_generics::<V>(state, generics);
            let state = walk_generics::<V>(state, generics);
            lemma_react_all_concat::<V>(start, seen, preorder_generics(generics));
            let seen = seen + preorder_generics(generics);
            lemma_react_all_none::<V>(state);
            if let Some(child) = superclass {
                lemma_qualified::<V>(state, child);
            }
            let state = match superclass {
                Some(child) => walk_qualified::<V>(state, child),
                None => state,
            };
            let more = match superclass {
                Some(child) => preorder_qualified(child),
                None => Seq::empty(),
            };
            lemma_react_all_concat::<V>(start, seen, more);
            let seen = seen + more;
            lemma_qualified_names::<V>(state, mixins@);
            let state = walk_qualified_names::<V>(state, mixins@);
            lemma_react_all_concat::<V>(start, seen, preorder_qualified_names(mixins@));
            let seen = seen + preorder_qualified_names(mixins@);
            lemma_qualified_names::<V>(state, interfaces@);
            let state = walk_qualified_names::<V>(state, interfaces@);
            lemma_react_all_concat::<V>(start, seen, preorder_qualified_names(interfaces@));
            let seen = seen + preorder_qualified_names(interfaces@);
            lemma_class_members::<V>(state, members@);
            lemma_react_all_concat::<V>(start, seen, preorder_class_members(members@));
        },
        Item::MixinClass { metadata, generics, mixins, interfaces, .. } => {
            lemma_meta::<V>(state, metadata);
            let state = walk_meta::<V>(state, metadata);
            let seen = preorder_meta(metadata);
            lemma_generics::<V>(state, generics);
            let state = walk_generics::<V>(state, generics);
            lemma_react_all_concat::<V>(start, seen, preorder_generics(generics));
            let seen = seen + preorder_generics(generics);
            lemma_qualified_names::<V>(state, mixins@);
            let state = walk_qualified_names::<V>(state, mixins@);
            lemma_react_all_concat::<V>(start, seen, preorder_qualified_names(mixins@));
            let seen = seen + preorder_qualified_names(mixins@);
            lemma_qualified_names::<V>(state, interfaces@);
            lemma_react_all_concat::<V>(start, seen, preorder_qualified_names(interfaces@));
        },
        Item::Enum { metadata, .. } => {
            lemma_meta::<V>(state, metadata);
        },
        Item::TypeAlias { metadata, generics, ty, .. } => {
            lemma_meta::<V>(state, metadata);
            let state = walk_meta::<V>(state, metadata);
            let seen = preorder_meta(metadata);
            lemma_generics::<V>(state, generics);
            let state = walk_generics::<V>(state, generics);
            lemma_react_all_concat::<V>(start, seen, preorder_generics(generics));
            let seen = seen + preorder_generics(generics);
            lemma_type::<V>(state, ty);
            lemma_react_all_concat::<V>(start, seen, preorder_type(ty));
        },
        Item::Function(function) => {
            lemma_function::<V>(state, function);
        },
        Item::Vars(var_type, vars) => {
            lemma_type::<V>(state, var_type.ty);
            let state = walk_type::<V>(state, var_type.ty);
            let seen = preorder_type(var_type.ty);
            lemma_var_defs::<V>(state, vars@);
            lemma_react_all_concat::<V>(start, seen, preorder_var_defs(vars@));
        },
    }
}

/// A walk over a class member, by a visitor that never skips.
proof fn lemma_class_member<V: Visitor>(state: V::State, class_member: Node<ClassMember>)
    requires
        never_skips::<V>(),
    ensures
        walk_class_member::<V>(state, class_member)
            == react_all::<V>(state, preorder_class_member(class_member)),
    decreases class_member, 1int,
{
    let node = NodeRef::ClassMember(class_member);
    lemma_react_all_one::<V>(state, node);
    lemma_class_member_below::<V>(V::react(state, node).0, class_member);
    lemma_react_all_concat::<V>(state, seq![node], preorder_class_member_below(class_member));
}

/// A walk over the children of a class member, by a visitor that never skips.
proof fn lemma_class_member_below<V: Visitor>(state: V::State, class_member: Node<ClassMember>)
    requires
        never_skips::<V>(),
    ensures
        walk_class_member_below::<V>(state, class_member)
            == react_all::<V>(state, preorder_class_member_below(class_member)),
    decreases class_member, 0int,
{
    let start = state;
    match class_member@ {
        ClassMember::Redirect { metadata, sig, ty, .. } => {
            lemma_meta::<V>(state, metadata);
            let state = walk_meta::<V>(state, metadata);
            let seen = preorder_meta(metadata);
            lemma_fn_sig::<V>(state, sig);
            let state = walk_fn_sig::<V>(state, sig);
            lemma_react_all_concat::<V>(start, seen, preorder_fn_sig(sig));
            let seen = seen + preorder_fn_sig(sig);
            lemma_type::<V>(state, ty);
            lemma_react_all_concat::<V>(start, seen, preorder_type(ty));
        },
        ClassMember::Constructor { metadata, sig, initializers, function_body, .. } => {
            lemma_meta::<V>(state, metadata);
            let state = walk_meta::<V>(state, metadata);
            let seen = preorder_meta(metadata);
            lemma_fn_sig::<V>(state, sig);
            let state = walk_fn_sig::<V>(state, sig);
            lemma_react_all_concat::<V>(start, seen, preorder_fn_sig(sig));
            let seen = seen + preorder_fn_sig(sig);
            lemma_constructor_initializers::<V>(state, initializers@);
            let state = walk_constructor_initializers::<V>(state, initializers@);
            lemma_react_all_concat::<V>(
                start,
                seen,
                preorder_constructor_initializers(initializers@),
            );
            let seen = seen + preorder_constructor_initializers(initializers@);
            lemma_react_all_none::<V>(state);
            if let Some(child) = function_body {
                lemma_fn_body::<V>(state, child);
            }
            let more = match function_body {
                Some(child) => preorder_fn_body(child),
                None => Seq::empty(),
            };
            lemma_react_all_concat::<V>(start, seen, more);
        },
        ClassMember::Method(metadata, _, function) => {
            lemma_meta::<V>(state, metadata);
            let state = walk_meta::<V>(state, metadata);
            let seen = preorder_meta(metadata);
            lemma_function::<V>(state, function);
            lemma_react_all_concat::<V>(start, seen, preorder_function(function));
        },
        ClassMember::Fields { metadata, var_type, initializers, .. } => {
            lemma_meta::<V>(state, metadata);
            let state = walk_meta::<V>(state, metadata);
            let seen = preorder_meta(metadata);
            lemma_type::<V>(state, var_type.ty);
            let state = walk_type::<V>(state, var_type.ty);
            lemma_react_all_concat::<V>(start, seen, preorder_type(var_type.ty));
            let seen = seen + preorder_type(var_type.ty);
            lemma_var_defs::<V>(state, initializers@);
            lemma_react_all_concat::<V>(start, seen, preorder_var_defs(initializers@));
        },
    }
}

/// A walk over a constructor initializer, by a visitor that never skips.
proof fn lemma_constructor_initializer<V: Visitor>(
    state: V::State,
    initializer: ConstructorInitializer,
)
    requires
        never_skips::<V>(),
    ensures
        walk_constructor_initializer::<V>(state, initializer)
            == react_all::<V>(state, preorder_constructor_initializer(initializer)),
    decreases initializer, 1int,
{
    let node = NodeRef::ConstructorInitializer(&initializer);
    lemma_react_all_one::<V>(state, node);
    lemma_constructor_initializer_below::<V>(V::react(state, node).0, initializer);
    lemma_react_all_concat::<V>(
        state,
        seq![node],
        preorder_constructor_initializer_below(initializer),
    );
}

/// A walk over the children of a constructor initializer, by a visitor that never skips.
proof fn lemma_constructor_initializer_below<V: Visitor>(
    state: V::State,
    initializer: ConstructorInitializer,
)
    requires
        never_skips::<V>(),
    ensures
        walk_constructor_initializer_below::<V>(state, initializer)
            == react_all::<V>(state, preorder_constructor_initializer_below(initializer)),
    decreases initializer, 0int,
{
    match initializer {
        ConstructorInitializer::Super(_, args) => {
            lemma_args::<V>(state, args);
        },
        ConstructorInitializer::This(_, args) => {
            lemma_args::<V>(state, args);
        },
        ConstructorInitializer::Assert(args) => {
            lemma_args::<V>(state, args);
        },
        ConstructorInitializer::Field(_, _, value) => {
            lemma_expr::<V>(state, value);
        },
    }
}

/// A walk over a list of annotations, by a visitor that never skips.
proof fn lemma_meta<V: Visitor>(state: V::State, meta: Metadata)
    requires
        never_skips::<V>(),
    ensures
        walk_meta::<V>(state, meta) == react_all::<V>(state, preorder_meta(meta)),
    decreases meta, 1int,
{
    let node = NodeRef::Meta(&meta);
    lemma_react_all_one::<V>(state, node);
    lemma_meta_below::<V>(V::react(state, node).0, meta);
    lemma_react_all_concat::<V>(state, seq![node], preorder_meta_below(meta));
}

/// A walk over the children of a list of annotations, by a visitor that never skips.
proof fn lemma_meta_below<V: Visitor>(state: V::State, meta: Metadata)
    requires
        never_skips::<V>(),
    ensures
        walk_meta_below::<V>(state, meta) == react_all::<V>(state, preorder_meta_below(meta)),
    decreases meta, 0int,
{
    lemma_metadata_items::<V>(state, meta@);
}

/// A walk over a qualified name, by a visitor that never skips.
proof fn lemma_qualified<V: Visitor>(state: V::State, qualified: Node<Qualified>)
    requires
        never_skips::<V>(),
    ensures
        walk_qualified::<V>(state, qualified)
            == react_all::<V>(state, preorder_qualified(qualified)),
    decreases qualified, 1int,
{
    let node = NodeRef::Qualified(qualified);
    lemma_react_all_one::<V>(state, node);
    lemma_qualified_below::<V>(V::react(state, node).0, qualified);
    lemma_react_all_concat::<V>(state, seq![node], preorder_qualified_below(qualified));
}

/// A walk over the children of a qualified name, by a visitor that never skips.
proof fn lemma_qualified_below<V: Visitor>(state: V::State, qualified: Node<Qualified>)
    requires
        never_skips::<V>(),
    ensures
        walk_qualified_below::<V>(state, qualified)
            == react_all::<V>(state, preorder_qualified_below(qualified)),
    decreases qualified, 0int,
{
    let start = state;
    lemma_react_all_none::<V>(state);
    if let Some(child) = qualified@.prefix {
        lemma_qualified::<V>(state, child);
    }
    let state = match qualified@.prefix {
        Some(child) => walk_qualified::<V>(state, child),
        None => state,
    };
    let seen = match qualified@.prefix {
        Some(child) => preorder_qualified(child),
        None => Seq::empty(),
    };
    lemma_types::<V>(state, qualified@.params@);
    lemma_react_all_concat::<V>(start, seen, preorder_types(qualified@.params@));
}

/// A walk over a list of type parameters, by a visitor that never skips.
proof fn lemma_generics<V: Visitor>(state: V::State, generics: Vec<Node<TypeParameter>>)
    requires
        never_skips::<V>(),
    ensures
        walk_generics::<V>(state, generics) == react_all::<V>(state, preorder_generics(generics)),
    decreases generics, 1int,
{
    let node = NodeRef::Generics(&generics);
    lemma_react_all_one::<V>(state, node);
    lemma_generics_below::<V>(V::react(state, node).0, generics);
    lemma_react_all_concat::<V>(state, seq![node], preorder_generics_below(generics));
}

/// A walk over the children of a list of type parameters, by a visitor that never skips.
proof fn lemma_generics_below<V: Visitor>(state: V::State, generics: Vec<Node<TypeParameter>>)
    requires
        never_skips::<V>(),
    ensures
        walk_generics_below::<V>(state, generics)
            == react_all::<V>(state, preorder_generics_below(generics)),
    decreases generics, 0int,
{
    lemma_type_parameters::<V>(state, generics@);
}

/// A walk over a type, by a visitor that never skips.
proof fn lemma_type<V: Visitor>(state: V::State, ty: Node<Type>)
    requires
        never_skips::<V>(),
    ensures
        walk_type::<V>(state, ty) == react_all::<V>(state, preorder_type(ty)),
    decreases ty, 1int,
{
    let node = NodeRef::Type(ty);
    lemma_react_all_one::<V>(state, node);
    lemma_type_below::<V>(V::react(state, node).0, ty);
    lemma_react_all_concat::<V>(state, seq![node], preorder_type_below(ty));
}

/// A walk over the children of a type, by a visitor that never skips.
proof fn lemma_type_below<V: Visitor>(state: V::State, ty: Node<Type>)
    requires
        never_skips::<V>(),
    ensures
        walk_type_below::<V>(state, ty) == react_all::<V>(state, preorder_type_below(ty)),
    decreases ty, 0int,
{
    match ty@ {
        Type::Path(qualified) => {
            lemma_qualified::<V>(state, qualified);
        },
        Type::FunctionOld(sig) => {
            lemma_fn_sig::<V>(state, sig);
        },
        Type::Function(sig) => {
            lemma_fn_sig::<V>(state, sig);
        },
        Type::Infer => {
            lemma_react_all_none::<V>(state);
        },
    }
}

/// A walk over a function, by a visitor that never skips.
proof fn lemma_function<V: Visitor>(state: V::State, function: Node<Function>)
    requires
        never_skips::<V>(),
    ensures
        walk_function::<V>(state, function) == react_all::<V>(state, preorder_function(function)),
    decreases function, 1int,
{
    let node = NodeRef::Function(function);
    lemma_react_all_one::<V>(state, node);
    lemma_function_below::<V>(V::react(state, node).0, function);
    lemma_react_all_concat::<V>(state, seq![node], preorder_function_below(function));
}

/// A walk over the children of a function, by a visitor that never skips.
proof fn lemma_function_below<V: Visitor>(state: V::State, function: Node<Function>)
    requires
        never_skips::<V>(),
    ensures
        walk_function_below::<V>(state, function)
            == react_all::<V>(state, preorder_function_below(function)),
    decreases function, 0int,
{
    let start = state;
    lemma_generics::<V>(state, function@.generics);
    let state = walk_generics::<V>(state, function@.generics);
    let seen = preorder_generics(function@.generics);
    lemma_fn_sig::<V>(state, function@.sig);
    let state = walk_fn_sig::<V>(state, function@.sig);
    lemma_react_all_concat::<V>(start, seen, preorder_fn_sig(function@.sig));
    let seen = seen + preorder_fn_sig(function@.sig);
    lemma_react_all_none::<V>(state);
    if let Some(child) = function@.body {
        lemma_fn_body::<V>(state, child);
    }
    let more = match function@.body {
        Some(child) => preorder_fn_body(child),
        None => Seq::empty(),
    };
    lemma_react_all_concat::<V>(start, seen, more);
}

/// A walk over a function signature, by a visitor that never skips.
proof fn lemma_fn_sig<V: Visitor>(state: V::State, sig: FnSig)
    requires
        never_skips::<V>(),
    ensures
        walk_fn_sig::<V>(state, sig) == react_all::<V>(state, preorder_fn_sig(sig)),
    decreases sig, 1int,
{
    let node = NodeRef::FnSig(&sig);
    lemma_react_all_one::<V>(state, node);
    lemma_fn_sig_below::<V>(V::react(state, node).0, sig);
    lemma_react_all_concat::<V>(state, seq![node], preorder_fn_sig_below(sig));
}

/// A walk over the children of a function signature, by a visitor that never skips.
proof fn lemma_fn_sig_below<V: Visitor>(state: V::State, sig: FnSig)
    requires
        never_skips::<V>(),
    ensures
        walk_fn_sig_below::<V>(state, sig) == react_all::<V>(state, preorder_fn_sig_below(sig)),
    decreases sig, 0int,
{
    let start = state;
    lemma_type::<V>(state, sig.return_type);
    let state = walk_type::<V>(state, sig.return_type);
    let seen = preorder_type(sig.return_type);
    lemma_arg_defs::<V>(state, sig.required@);
    let state = walk_arg_defs::<V>(state, sig.required@);
    lemma_react_all_concat::<V>(start, seen, preorder_arg_defs(sig.required@));
    let seen = seen + preorder_arg_defs(sig.required@);
    lemma_arg_defs::<V>(state, sig.optional@);
    lemma_react_all_concat::<V>(start, seen, preorder_arg_defs(sig.optional@));
}

/// A walk over a function body, by a visitor that never skips.
proof fn lemma_fn_body<V: Visitor>(state: V::State, fn_body: FnBody)
    requires
        never_skips::<V>(),
    ensures
        walk_fn_body::<V>(state, fn_body) == react_all::<V>(state, preorder_fn_body(fn_body)),
    decreases fn_body, 1int,
{
    let node = NodeRef::FnBody(&fn_body);
    lemma_react_all_one::<V>(state, node);
    lemma_fn_body_below::<V>(V::react(state, node).0, fn_body);
    lemma_react_all_concat::<V>(state, seq![node], preorder_fn_body_below(fn_body));
}

/// A walk over the children of a function body, by a visitor that never skips.
proof fn lemma_fn_body_below<V: Visitor>(state: V::State, fn_body: FnBody)
    requires
        never_skips::<V>(),
    ensures
        walk_fn_body_below::<V>(state, fn_body)
            == react_all::<V>(state, preorder_fn_body_below(fn_body)),
    decreases fn_body, 0int,
{
    match fn_body {
        FnBody::Arrow(value) => {
            lemma_expr::<V>(state, value);
        },
        FnBody::Block(block) => {
            lemma_statement::<V>(state, block);
        },
        FnBody::Native(name) => {
            lemma_react_all_none::<V>(state);
            if let Some(child) = name {
                lemma_string_literal::<V>(state, child);
            }
        },
    }
}

/// A walk over a catch clause, by a visitor that never skips.
proof fn lemma_try_part<V: Visitor>(state: V::State, try_part: TryPart)
    requires
        never_skips::<V>(),
    ensures
        walk_try_part::<V>(state, try_part) == react_all::<V>(state, preorder_try_part(try_part)),
    decreases try_part, 1int,
{
    let node = NodeRef::TryPart(&try_part);
    lemma_react_all_one::<V>(state, node);
    lemma_try_part_below::<V>(V::react(state, node).0, try_part);
    lemma_react_all_concat::<V>(state, seq![node], preorder_try_part_below(try_part));
}

/// A walk over the children of a catch clause, by a visitor that never skips.
proof fn lemma_try_part_below<V: Visitor>(state: V::State, try_part: TryPart)
    requires
        never_skips::<V>(),
    ensures
        walk_try_part_below::<V>(state, try_part)
            == react_all::<V>(state, preorder_try_part_below(try_part)),
    decreases try_part, 0int,
{
    let start = state;
    lemma_react_all_none::<V>(state);
    if let Some(child) = try_part.on {
        lemma_type::<V>(state, child);
    }
    let state = match try_part.on {
        Some(child) => walk_type::<V>(state, child),
        None => state,
    };
    let seen = match try_part.on {
        Some(child) => preorder_type(child),
        None => Seq::empty(),
    };
    lemma_react_all_none::<V>(state);
    if let Some(child) = try_part.catch {
        lemma_catch_part::<V>(state, child);
    }
    let state = match try_part.catch {
        Some(child) => walk_catch_part::<V>(state, child),
        None => state,
    };
    let more = match try_part.catch {
        Some(child) => preorder_catch_part(child),
        None => Seq::empty(),
    };
    lemma_react_all_concat::<V>(start, seen, more);
    let seen = seen + more;
    lemma_statement::<V>(state, try_part.block);
    lemma_react_all_concat::<V>(start, seen, preorder_statement(try_part.block));
}

/// A walk over a statement, by a visitor that never skips.
proof fn lemma_statement<V: Visitor>(state: V::State, statement: Node<Statement>)
    requires
        never_skips::<V>(),
    ensures
        walk_statement::<V>(state, statement)
            == react_all::<V>(state, preorder_statement(statement)),
    decreases statement, 1int,
{
    let node = NodeRef::Statement(statement);
    lemma_react_all_one::<V>(state, node);
    lemma_statement_below::<V>(V::react(state, node).0, statement);
    lemma_react_all_concat::<V>(state, seq![node], preorder_statement_below(statement));
}

/// A walk over the children of a statement, by a visitor that never skips.
proof fn lemma_statement_below<V: Visitor>(state: V::State, statement: Node<Statement>)
    requires
        never_skips::<V>(),
    ensures
        walk_statement_below::<V>(state, statement)
            == react_all::<V>(state, preorder_statement_below(statement)),
    decreases statement, 0int,
{
    let start = state;
    match statement@ {
        Statement::Block(statements) => {
            lemma_block::<V>(state, statements);
        },
        Statement::Vars(var_type, vars) => {
            lemma_type::<V>(state, var_type.ty);
            let state = walk_type::<V>(state, var_type.ty);
            let seen = preorder_type(var_type.ty);
            lemma_var_defs::<V>(state, vars@);
            lemma_react_all_concat::<V>(start, seen, preorder_var_defs(vars@));
        },
        Statement::Function(function) => {
            lemma_function::<V>(state, function);
        },
        Statement::For(_, for_loop, body) => {
            lemma_for_loop::<V>(state, for_loop);
            let state = walk_for_loop::<V>(state, for_loop);
            let seen = preorder_for_loop(for_loop);
            lemma_statement::<V>(state, body);
            lemma_react_all_concat::<V>(start, seen, preorder_statement(body));
        },
        Statement::While(condition, body) => {
            lemma_expr::<V>(state, condition);
            let state = walk_expr::<V>(state, condition);
            let seen = preorder_expr(condition);
            lemma_statement::<V>(state, body);
            lemma_react_all_concat::<V>(start, seen, preorder_statement(body));
        },
        Statement::DoWhile(body, condition) => {
            lemma_statement::<V>(state, body);
            let state = walk_statement::<V>(state, body);
            let seen = preorder_statement(body);
            lemma_expr::<V>(state, condition);
            lemma_react_all_concat::<V>(start, seen, preorder_expr(condition));
        },
        Statement::Switch(subject, cases) => {
            lemma_expr::<V>(state, subject);
            let state = walk_expr::<V>(state, subject);
            let seen = preorder_expr(subject);
            lemma_switch_cases::<V>(state, cases@);
            lemma_react_all_concat::<V>(start, seen, preorder_switch_cases(cases@));
        },
        Statement::If(condition, consequent, alternative) => {
            lemma_expr::<V>(state, condition);
            let state = walk_expr::<V>(state, condition);
            let seen = preorder_expr(condition);
            lemma_statement::<V>(state, consequent);
            let state = walk_statement::<V>(state, consequent);
            lemma_react_all_concat::<V>(start, seen, preorder_statement(consequent));
            let seen = seen + preorder_statement(consequent);
            lemma_react_all_none::<V>(state);
            if let Some(child) = alternative {
                lemma_statement::<V>(state, child);
            }
            let more = match alternative {
                Some(child) => preorder_statement(child),
                None => Seq::empty(),
            };
            lemma_react_all_concat::<V>(start, seen, more);
        },
        Statement::Rethrow => {
            lemma_react_all_none::<V>(state);
        },
        Statement::Try(body, parts) => {
            lemma_statement::<V>(state, body);
            let state = walk_statement::<V>(state, body);
            let seen = preorder_statement(body);
            lemma_try_parts::<V>(state, parts@);
            lemma_react_all_concat::<V>(start, seen, preorder_try_parts(parts@));
        },
        Statement::Break(_) => {
            lemma_react_all_none::<V>(state);
        },
        Statement::Continue(_) => {
            lemma_react_all_none::<V>(state);
        },
        Statement::Return(value) => {
            lemma_react_all_none::<V>(state);
            if let Some(child) = value {
                lemma_expr::<V>(state, child);
            }
        },
        Statement::Yield(value) => {
            lemma_expr::<V>(state, value);
        },
        Statement::YieldEach(value) => {
            lemma_expr::<V>(state, value);
        },
        Statement::Expression(value) => {
            lemma_react_all_none::<V>(state);
            if let Some(child) = value {
                lemma_expr::<V>(state, child);
            }
        },
        Statement::Assert(args) => {
            lemma_args::<V>(state, args);
        },
        Statement::Labelled(_, body) => {
            lemma_statement::<V>(state, body);
        },
    }
}

/// A walk over the statements of a block, by a visitor that never skips.
proof fn lemma_block<V: Visitor>(state: V::State, statements: Vec<Node<Statement>>)
    requires
        never_skips::<V>(),
    ensures
        walk_block::<V>(state, statements) == react_all::<V>(state, preorder_block(statements)),
    decreases statements, 1int,
{
    let node = NodeRef::Block(&statements);
    lemma_react_all_one::<V>(state, node);
    lemma_block_below::<V>(V::react(state, node).0, statements);
    lemma_react_all_concat::<V>(state, seq![node], preorder_block_below(statements));
}

/// A walk over the children of the statements of a block, by a visitor that never skips.
proof fn lemma_block_below<V: Visitor>(state: V::State, statements: Vec<Node<Statement>>)
    requires
        never_skips::<V>(),
    ensures
        walk_block_below::<V>(state, statements)
            == react_all::<V>(state, preorder_block_below(statements)),
    decreases statements, 0int,
{
    lemma_statements::<V>(state, statements@);
}

/// A walk over a variable definition, by a visitor that never skips.
proof fn lemma_var_def<V: Visitor>(state: V::State, var: Node<VarDef>)
    requires
        never_skips::<V>(),
    ensures
        walk_var_def::<V>(state, var) == react_all::<V>(state, preorder_var_def(var)),
    decreases var, 1int,
{
    let node = NodeRef::VarDef(var);
    lemma_react_all_one::<V>(state, node);
    lemma_var_def_below::<V>(V::react(state, node).0, var);
    lemma_react_all_concat::<V>(state, seq![node], preorder_var_def_below(var));
}

/// A walk over the children of a variable definition, by a visitor that never skips.
proof fn lemma_var_def_below<V: Visitor>(state: V::State, var: Node<VarDef>)
    requires
        never_skips::<V>(),
    ensures
        walk_var_def_below::<V>(state, var) == react_all::<V>(state, preorder_var_def_below(var)),
    decreases var, 0int,
{
    lemma_react_all_none::<V>(state);
    if let Some(child) = var@.init {
        lemma_expr::<V>(state, child);
    }
}

/// A walk over an expression, by a visitor that never skips.
proof fn lemma_expr<V: Visitor>(state: V::State, expr: Node<Expr>)
    requires
        never_skips::<V>(),
    ensures
        walk_expr::<V>(state, expr) == react_all::<V>(state, preorder_expr(expr)),
    decreases expr, 1int,
{
    let node = NodeRef::Expr(expr);
    lemma_react_all_one::<V>(state, node);
    lemma_expr_below::<V>(V::react(state, node).0, expr);
    lemma_react_all_concat::<V>(state, seq![node], preorder_expr_below(expr));
}

/// A walk over the children of an expression, by a visitor that never skips.
proof fn lemma_expr_below<V: Visitor>(state: V::State, expr: Node<Expr>)
    requires
        never_skips::<V>(),
    ensures
        walk_expr_below::<V>(state, expr) == react_all::<V>(state, preorder_expr_below(expr)),
    decreases expr, 0int,
{
    let start = state;
    match expr@ {
        Expr::Unary(_, operand) => {
            lemma_expr::<V>(state, operand);
        },
        Expr::Binary(_, left, right) => {
            lemma_expr::<V>(state, left);
            let state = walk_expr::<V>(state, left);
            let seen = preorder_expr(left);
            lemma_expr::<V>(state, right);
            lemma_react_all_concat::<V>(start, seen, preorder_expr(right));
        },
        Expr::Conditional(condition, consequent, alternative) => {
            lemma_expr::<V>(state, condition);
            let state = walk_expr::<V>(state, condition);
            let seen = preorder_expr(condition);
            lemma_expr::<V>(state, consequent);
            let state = walk_expr::<V>(state, consequent);
            lemma_react_all_concat::<V>(start, seen, preorder_expr(consequent));
            let seen = seen + preorder_expr(consequent);
            lemma_expr::<V>(state, alternative);
            lemma_react_all_concat::<V>(start, seen, preorder_expr(alternative));
        },
        Expr::Is(value, ty) => {
            lemma_expr::<V>(state, value);
            let state = walk_expr::<V>(state, value);
            let seen = preorder_expr(value);
            lemma_type::<V>(state, ty);
            lemma_react_all_concat::<V>(start, seen, preorder_type(ty));
        },
        Expr::IsNot(value, ty) => {
            lemma_expr::<V>(state, value);
            let state = walk_expr::<V>(state, value);
            let seen = preorder_expr(value);
            lemma_type::<V>(state, ty);
            lemma_react_all_concat::<V>(start, seen, preorder_type(ty));
        },
        Expr::As(value, ty) => {
            lemma_expr::<V>(state, value);
            let state = walk_expr::<V>(state, value);
            let seen = preorder_expr(value);
            lemma_type::<V>(state, ty);
            lemma_react_all_concat::<V>(start, seen, preorder_type(ty));
        },
        Expr::Suffix(value, suffix) => {
            lemma_expr::<V>(state, value);
            let state = walk_expr::<V>(state, value);
            let seen = preorder_expr(value);
            lemma_suffix::<V>(state, suffix);
            lemma_react_all_concat::<V>(start, seen, preorder_suffix(suffix));
        },
        Expr::Identifier(_) => {
            lemma_react_all_none::<V>(state);
        },
        Expr::Closure(sig, body) => {
            lemma_fn_sig::<V>(state, sig);
            let state = walk_fn_sig::<V>(state, sig);
            let seen = preorder_fn_sig(sig);
            lemma_fn_body::<V>(state, body);
            lemma_react_all_concat::<V>(start, seen, preorder_fn_body(body));
        },
        Expr::New { path, args, .. } => {
            lemma_qualified::<V>(state, path);
            let state = walk_qualified::<V>(state, path);
            let seen = preorder_qualified(path);
            lemma_args::<V>(state, args);
            lemma_react_all_concat::<V>(start, seen, preorder_args(args));
        },
        Expr::List { element_ty, elements, .. } => {
            lemma_react_all_none::<V>(state);
            if let Some(child) = element_ty {
                lemma_type::<V>(state, child);
            }
            let state = match element_ty {
                Some(child) => walk_type::<V>(state, child),
                None => state,
            };
            let seen = match element_ty {
                Some(child) => preorder_type(child),
                None => Seq::empty(),
            };
            lemma_exprs::<V>(state, elements@);
            lemma_react_all_concat::<V>(start, seen, preorder_exprs(elements@));
        },
        Expr::MapLiteral { kv_ty, kv, .. } => {
            lemma_react_all_none::<V>(state);
            if let Some(child) = kv_ty {
                lemma_type_pair::<V>(state, child);
            }
            let state = match kv_ty {
                Some(child) => walk_type_pair::<V>(state, child),
                None => state,
            };
            let seen = match kv_ty {
                Some(child) => preorder_type_pair(child),
                None => Seq::empty(),
            };
            lemma_map_entries::<V>(state, kv@);
            lemma_react_all_concat::<V>(start, seen, preorder_map_entries(kv@));
        },
        Expr::Number(_) => {
            lemma_react_all_none::<V>(state);
        },
        Expr::String(literals) => {
            lemma_string_literals::<V>(state, literals@);
        },
        Expr::Symbol(_) => {
            lemma_react_all_none::<V>(state);
        },
        Expr::Paren(inner) => {
            lemma_expr::<V>(state, inner);
        },
        Expr::Throw(value) => {
            lemma_expr::<V>(state, value);
        },
        Expr::Cascade(value, cascade) => {
            lemma_expr::<V>(state, value);
            let state = walk_expr::<V>(state, value);
            let seen = preorder_expr(value);
            lemma_cascade::<V>(state, cascade);
            lemma_react_all_concat::<V>(start, seen, preorder_cascade(cascade));
        },
    }
}

/// A walk over an argument list, by a visitor that never skips.
proof fn lemma_args<V: Visitor>(state: V::State, args: Args)
    requires
        never_skips::<V>(),
    ensures
        walk_args::<V>(state, args) == react_all::<V>(state, preorder_args(args)),
    decreases args, 1int,
{
    let node = NodeRef::Args(&args);
    lemma_react_all_one::<V>(state, node);
    lemma_args_below::<V>(V::react(state, node).0, args);
    lemma_react_all_concat::<V>(state, seq![node], preorder_args_below(args));
}

/// A walk over the children of an argument list, by a visitor that never skips.
proof fn lemma_args_below<V: Visitor>(state: V::State, args: Args)
    requires
        never_skips::<V>(),
    ensures
        walk_args_below::<V>(state, args) == react_all::<V>(state, preorder_args_below(args)),
    decreases args, 0int,
{
    let start = state;
    lemma_exprs::<V>(state, args.unnamed@);
    let state = walk_exprs::<V>(state, args.unnamed@);
    let seen = preorder_exprs(args.unnamed@);
    lemma_named_args::<V>(state, args.named@);
    lemma_react_all_concat::<V>(start, seen, preorder_named_args(args.named@));
}

/// A walk over a suffix, by a visitor that never skips.
proof fn lemma_suffix<V: Visitor>(state: V::State, suffix: Suffix)
    requires
        never_skips::<V>(),
    ensures
        walk_suffix::<V>(state, suffix) == react_all::<V>(state, preorder_suffix(suffix)),
    decreases suffix, 1int,
{
    let node = NodeRef::Suffix(&suffix);
    lemma_react_all_one::<V>(state, node);
    lemma_suffix_below::<V>(V::react(state, node).0, suffix);
    lemma_react_all_concat::<V>(state, seq![node], preorder_suffix_below(suffix));
}

/// A walk over the children of a suffix, by a visitor that never skips.
proof fn lemma_suffix_below<V: Visitor>(state: V::State, suffix: Suffix)
    requires
        never_skips::<V>(),
    ensures
        walk_suffix_below::<V>(state, suffix)
            == react_all::<V>(state, preorder_suffix_below(suffix)),
    decreases suffix, 0int,
{
    let start = state;
    match suffix {
        Suffix::Index(index) => {
            lemma_expr::<V>(state, index);
        },
        Suffix::Field(_) => {
            lemma_react_all_none::<V>(state);
        },
        Suffix::FieldIfNotNull(_) => {
            lemma_react_all_none::<V>(state);
        },
        Suffix::Call(types, args) => {
            lemma_types::<V>(state, types@);
            let state = walk_types::<V>(state, types@);
            let seen = preorder_types(types@);
            lemma_args::<V>(state, args);
            lemma_react_all_concat::<V>(start, seen, preorder_args(args));
        },
    }
}

/// A walk over a string literal, by a visitor that never skips.
proof fn lemma_string_literal<V: Visitor>(state: V::State, string_literal: StringLiteral)
    requires
        never_skips::<V>(),
    ensures
        walk_string_literal::<V>(state, string_literal)
            == react_all::<V>(state, preorder_string_literal(string_literal)),
    decreases string_literal, 1int,
{
    let node = NodeRef::StringLiteral(&string_literal);
    lemma_react_all_one::<V>(state, node);
    lemma_string_literal_below::<V>(V::react(state, node).0, string_literal);
    lemma_react_all_concat::<V>(state, seq![node], preorder_string_literal_below(string_literal));
}

/// A walk over the children of a string literal, by a visitor that never skips.
proof fn lemma_string_literal_below<V: Visitor>(state: V::State, string_literal: StringLiteral)
    requires
        never_skips::<V>(),
    ensures
        walk_string_literal_below::<V>(state, string_literal)
            == react_all::<V>(state, preorder_string_literal_below(string_literal)),
    decreases string_literal, 0int,
{
    lemma_interpolations::<V>(state, string_literal.interpolated@);
}

/// A walk over one annotation, by a visitor that never skips.
proof fn lemma_metadata_item<V: Visitor>(state: V::State, item: MetadataItem)
    requires
        never_skips::<V>(),
    ensures
        walk_metadata_item::<V>(state, item) == react_all::<V>(state, preorder_metadata_item(item)),
    decreases item, 0int,
{
    let start = state;
    lemma_qualified::<V>(state, item.qualified);
    let state = walk_qualified::<V>(state, item.qualified);
    let seen = preorder_qualified(item.qualified);
    lemma_react_all_none::<V>(state);
    if let Some(child) = item.arguments {
        lemma_args::<V>(state, child);
    }
    let more = match item.arguments {
        Some(child) => preorder_args(child),
        None => Seq::empty(),
    };
    lemma_react_all_concat::<V>(start, seen, more);
}

/// A walk over one type parameter, by a visitor that never skips.
proof fn lemma_type_parameter<V: Visitor>(state: V::State, parameter: Node<TypeParameter>)
    requires
        never_skips::<V>(),
    ensures
        walk_type_parameter::<V>(state, parameter)
            == react_all::<V>(state, preorder_type_parameter(parameter)),
    decreases parameter, 0int,
{
    let start = state;
    lemma_meta::<V>(state, parameter@.metadata);
    let state = walk_meta::<V>(state, parameter@.metadata);
    let seen = preorder_meta(parameter@.metadata);
    lemma_react_all_none::<V>(state);
    if let Some(child) = parameter@.extends {
        lemma_qualified::<V>(state, child);
    }
    let more = match parameter@.extends {
        Some(child) => preorder_qualified(child),
        None => Seq::empty(),
    };
    lemma_react_all_concat::<V>(start, seen, more);
}

/// A walk over one parameter of a function, by a visitor that never skips.
proof fn lemma_arg_def<V: Visitor>(state: V::State, arg: ArgDef)
    requires
        never_skips::<V>(),
    ensures
        walk_arg_def::<V>(state, arg) == react_all::<V>(state, preorder_arg_def(arg)),
    decreases arg, 0int,
{
    let start = state;
    lemma_meta::<V>(state, arg.metadata);
    let state = walk_meta::<V>(state, arg.metadata);
    let seen = preorder_meta(arg.metadata);
    lemma_type::<V>(state, arg.ty.ty);
    let state = walk_type::<V>(state, arg.ty.ty);
    lemma_react_all_concat::<V>(start, seen, preorder_type(arg.ty.ty));
    let seen = seen + preorder_type(arg.ty.ty);
    lemma_var_def::<V>(state, arg.var);
    lemma_react_all_concat::<V>(start, seen, preorder_var_def(arg.var));
}

/// A walk over the head of a `for` loop, by a visitor that never skips.
proof fn lemma_for_loop<V: Visitor>(state: V::State, for_loop: ForLoop)
    requires
        never_skips::<V>(),
    ensures
        walk_for_loop::<V>(state, for_loop) == react_all::<V>(state, preorder_for_loop(for_loop)),
    decreases for_loop, 0int,
{
    let start = state;
    match for_loop {
        ForLoop::CLike(init, condition, updates) => {
            lemma_statement::<V>(state, init);
            let state = walk_statement::<V>(state, init);
            let seen = preorder_statement(init);
            lemma_react_all_none::<V>(state);
            if let Some(child) = condition {
                lemma_expr::<V>(state, child);
            }
            let state = match condition {
                Some(child) => walk_expr::<V>(state, child),
                None => state,
            };
            let more = match condition {
                Some(child) => preorder_expr(child),
                None => Seq::empty(),
            };
            lemma_react_all_concat::<V>(start, seen, more);
            let seen = seen + more;
            lemma_exprs::<V>(state, updates@);
            lemma_react_all_concat::<V>(start, seen, preorder_exprs(updates@));
        },
        ForLoop::In(_, iterable) => {
            lemma_expr::<V>(state, iterable);
        },
        ForLoop::InVar(var_type, var, iterable) => {
            lemma_type::<V>(state, var_type.ty);
            let state = walk_type::<V>(state, var_type.ty);
            let seen = preorder_type(var_type.ty);
            lemma_var_def::<V>(state, var);
            let state = walk_var_def::<V>(state, var);
            lemma_react_all_concat::<V>(start, seen, preorder_var_def(var));
            let seen = seen + preorder_var_def(var);
            lemma_expr::<V>(state, iterable);
            lemma_react_all_concat::<V>(start, seen, preorder_expr(iterable));
        },
    }
}

/// A walk over one case of a `switch`, by a visitor that never skips.
proof fn lemma_switch_case<V: Visitor>(state: V::State, case: SwitchCase)
    requires
        never_skips::<V>(),
    ensures
        walk_switch_case::<V>(state, case) == react_all::<V>(state, preorder_switch_case(case)),
    decreases case, 0int,
{
    let start = state;
    lemma_react_all_none::<V>(state);
    if let Some(child) = case.value {
        lemma_expr::<V>(state, child);
    }
    let state = match case.value {
        Some(child) => walk_expr::<V>(state, child),
        None => state,
    };
    let seen = match case.value {
        Some(child) => preorder_expr(child),
        None => Seq::empty(),
    };
    lemma_statements::<V>(state, case.statements@);
    lemma_react_all_concat::<V>(start, seen, preorder_statements(case.statements@));
}

/// A walk over the binders of a catch clause, by a visitor that never skips.
proof fn lemma_catch_part<V: Visitor>(state: V::State, catch: CatchPart)
    requires
        never_skips::<V>(),
    ensures
        walk_catch_part::<V>(state, catch) == react_all::<V>(state, preorder_catch_part(catch)),
    decreases catch, 0int,
{
    let start = state;
    lemma_var_def::<V>(state, catch.exception);
    let state = walk_var_def::<V>(state, catch.exception);
    let seen = preorder_var_def(catch.exception);
    lemma_react_all_none::<V>(state);
    if let Some(child) = catch.trace {
        lemma_var_def::<V>(state, child);
    }
    let more = match catch.trace {
        Some(child) => preorder_var_def(child),
        None => Seq::empty(),
    };
    lemma_react_all_concat::<V>(start, seen, more);
}

/// A walk over the key and value types of a map literal, by a visitor that never skips.
proof fn lemma_type_pair<V: Visitor>(state: V::State, pair: (Node<Type>, Node<Type>))
    requires
        never_skips::<V>(),
    ensures
        walk_type_pair::<V>(state, pair) == react_all::<V>(state, preorder_type_pair(pair)),
    decreases pair, 0int,
{
    let start = state;
    lemma_type::<V>(state, pair.0);
    let state = walk_type::<V>(state, pair.0);
    let seen = preorder_type(pair.0);
    lemma_type::<V>(state, pair.1);
    lemma_react_all_concat::<V>(start, seen, preorder_type(pair.1));
}

/// A walk over one entry of a map literal, by a visitor that never skips.
proof fn lemma_map_entry<V: Visitor>(state: V::State, entry: (Node<Expr>, Node<Expr>))
    requires
        never_skips::<V>(),
    ensures
        walk_map_entry::<V>(state, entry) == react_all::<V>(state, preorder_map_entry(entry)),
    decreases entry, 0int,
{
    let start = state;
    lemma_expr::<V>(state, entry.0);
    let state = walk_expr::<V>(state, entry.0);
    let seen = preorder_expr(entry.0);
    lemma_expr::<V>(state, entry.1);
    lemma_react_all_concat::<V>(start, seen, preorder_expr(entry.1));
}

/// A walk over one section of a cascade, by a visitor that never skips.
proof fn lemma_cascade<V: Visitor>(state: V::State, cascade: Cascade)
    requires
        never_skips::<V>(),
    ensures
        walk_cascade::<V>(state, cascade) == react_all::<V>(state, preorder_cascade(cascade)),
    decreases cascade, 0int,
{
    let start = state;
    lemma_suffixes::<V>(state, cascade.suffixes@);
    let state = walk_suffixes::<V>(state, cascade.suffixes@);
    let seen = preorder_suffixes(cascade.suffixes@);
    lemma_react_all_none::<V>(state);
    if let Some(child) = cascade.assign {
        lemma_cascade_assign::<V>(state, child);
    }
    let more = match cascade.assign {
        Some(child) => preorder_cascade_assign(child),
        None => Seq::empty(),
    };
    lemma_react_all_concat::<V>(start, seen, more);
}

/// A walk over the assignment that ends a cascade section, by a visitor that never skips.
proof fn lemma_cascade_assign<V: Visitor>(state: V::State, assign: (Option<ValueBinOp>, Node<Expr>))
    requires
        never_skips::<V>(),
    ensures
        walk_cascade_assign::<V>(state, assign)
            == react_all::<V>(state, preorder_cascade_assign(assign)),
    decreases assign, 0int,
{
    lemma_expr::<V>(state, assign.1);
}

/// A walk over one named argument, by a visitor that never skips.
proof fn lemma_named_arg<V: Visitor>(state: V::State, arg: NamedArg)
    requires
        never_skips::<V>(),
    ensures
        walk_named_arg::<V>(state, arg) == react_all::<V>(state, preorder_named_arg(arg)),
    decreases arg, 0int,
{
    lemma_expr::<V>(state, arg.expr);
}

/// A walk over one interpolation of a string literal, by a visitor that never skips.
proof fn lemma_interpolation<V: Visitor>(state: V::State, part: (Node<Expr>, Span))
    requires
        never_skips::<V>(),
    ensures
        walk_interpolation::<V>(state, part) == react_all::<V>(state, preorder_interpolation(part)),
    decreases part, 0int,
{
    lemma_expr::<V>(state, part.0);
}

/// A walk over top-level declarations, by a visitor that never skips.
proof fn lemma_items<V: Visitor>(state: V::State, items: Seq<Node<Item>>)
    requires
        never_skips::<V>(),
    ensures
        walk_items::<V>(state, items) == react_all::<V>(state, preorder_items(items)),
    decreases items, 0int,
{
    if items.len() == 0 {
        lemma_react_all_none::<V>(state);
    } else {
        lemma_items::<V>(state, items.drop_last());
        let before = walk_items::<V>(state, items.drop_last());
        lemma_item::<V>(before, items.last());
        lemma_react_all_concat::<V>(
            state,
            preorder_items(items.drop_last()),
            preorder_item(items.last()),
        );
    }
}

/// A walk over annotations, by a visitor that never skips.
proof fn lemma_metadata_items<V: Visitor>(state: V::State, annotations: Seq<MetadataItem>)
    requires
        never_skips::<V>(),
    ensures
        walk_metadata_items::<V>(state, annotations)
            == react_all::<V>(state, preorder_metadata_items(annotations)),
    decreases annotations, 0int,
{
    if annotations.len() == 0 {
        lemma_react_all_none::<V>(state);
    } else {
        lemma_metadata_items::<V>(state, annotations.drop_last());
        let before = walk_metadata_items::<V>(state, annotations.drop_last());
        lemma_metadata_item::<V>(before, annotations.last());
        lemma_react_all_concat::<V>(
            state,
            preorder_metadata_items(annotations.drop_last()),
            preorder_metadata_item(annotations.last()),
        );
    }
}

/// A walk over type parameters, by a visitor that never skips.
proof fn lemma_type_parameters<V: Visitor>(state: V::State, parameters: Seq<Node<TypeParameter>>)
    requires
        never_skips::<V>(),
    ensures
        walk_type_parameters::<V>(state, parameters)
            == react_all::<V>(state, preorder_type_parameters(parameters)),
    decreases parameters, 0int,
{
    if parameters.len() == 0 {
        lemma_react_all_none::<V>(state);
    } else {
        lemma_type_parameters::<V>(state, parameters.drop_last());
        let before = walk_type_parameters::<V>(state, parameters.drop_last());
        lemma_type_parameter::<V>(before, parameters.last());
        lemma_react_all_concat::<V>(
            state,
            preorder_type_parameters(parameters.drop_last()),
            preorder_type_parameter(parameters.last()),
        );
    }
}

/// A walk over qualified names, by a visitor that never skips.
proof fn lemma_qualified_names<V: Visitor>(state: V::State, names: Seq<Node<Qualified>>)
    requires
        never_skips::<V>(),
    ensures
        walk_qualified_names::<V>(state, names)
            == react_all::<V>(state, preorder_qualified_names(names)),
    decreases names, 0int,
{
    if names.len() == 0 {
        lemma_react_all_none::<V>(state);
    } else {
        lemma_qualified_names::<V>(state, names.drop_last());
        let before = walk_qualified_names::<V>(state, names.drop_last());
        lemma_qualified::<V>(before, names.last());
        lemma_react_all_concat::<V>(
            state,
            preorder_qualified_names(names.drop_last()),
            preorder_qualified(names.last()),
        );
    }
}

/// A walk over class members, by a visitor that never skips.
proof fn lemma_class_members<V: Visitor>(state: V::State, members: Seq<Node<ClassMember>>)
    requires
        never_skips::<V>(),
    ensures
        walk_class_members::<V>(state, members)
            == react_all::<V>(state, preorder_class_members(members)),
    decreases members, 0int,
{
    if members.len() == 0 {
        lemma_react_all_none::<V>(state);
    } else {
        lemma_class_members::<V>(state, members.drop_last());
        let before = walk_class_members::<V>(state, members.drop_last());
        lemma_class_member::<V>(before, members.last());
        lemma_react_all_concat::<V>(
            state,
            preorder_class_members(members.drop_last()),
            preorder_class_member(members.last()),
        );
    }
}

/// A walk over variable definitions, by a visitor that never skips.
proof fn lemma_var_defs<V: Visitor>(state: V::State, vars: Seq<Node<VarDef>>)
    requires
        never_skips::<V>(),
    ensures
        walk_var_defs::<V>(state, vars) == react_all::<V>(state, preorder_var_defs(vars)),
    decreases vars, 0int,
{
    if vars.len() == 0 {
        lemma_react_all_none::<V>(state);
    } else {
        lemma_var_defs::<V>(state, vars.drop_last());
        let before = walk_var_defs::<V>(state, vars.drop_last());
        lemma_var_def::<V>(before, vars.last());
        lemma_react_all_concat::<V>(
            state,
            preorder_var_defs(vars.drop_last()),
            preorder_var_def(vars.last()),
        );
    }
}

/// A walk over types, by a visitor that never skips.
proof fn lemma_types<V: Visitor>(state: V::State, types: Seq<Node<Type>>)
    requires
        never_skips::<V>(),
    ensures
        walk_types::<V>(state, types) == react_all::<V>(state, preorder_types(types)),
    decreases types, 0int,
{
    if types.len() == 0 {
        lemma_react_all_none::<V>(state);
    } else {
        lemma_types::<V>(state, types.drop_last());
        let before = walk_types::<V>(state, types.drop_last());
        lemma_type::<V>(before, types.last());
        lemma_react_all_concat::<V>(
            state,
            preorder_types(types.drop_last()),
            preorder_type(types.last()),
        );
    }
}

/// A walk over constructor initializers, by a visitor that never skips.
proof fn lemma_constructor_initializers<V: Visitor>(
    state: V::State,
    initializers: Seq<ConstructorInitializer>,
)
    requires
        never_skips::<V>(),
    ensures
        walk_constructor_initializers::<V>(state, initializers)
            == react_all::<V>(state, preorder_constructor_initializers(initializers)),
    decreases initializers, 0int,
{
    if initializers.len() == 0 {
        lemma_react_all_none::<V>(state);
    } else {
        lemma_constructor_initializers::<V>(state, initializers.drop_last());
        let before = walk_constructor_initializers::<V>(state, initializers.drop_last());
        lemma_constructor_initializer::<V>(before, initializers.last());
        lemma_react_all_concat::<V>(
            state,
            preorder_constructor_initializers(initializers.drop_last()),
            preorder_constructor_initializer(initializers.last()),
        );
    }
}

/// A walk over parameters of a function, by a visitor that never skips.
proof fn lemma_arg_defs<V: Visitor>(state: V::State, args: Seq<ArgDef>)
    requires
        never_skips::<V>(),
    ensures
        walk_arg_defs::<V>(state, args) == react_all::<V>(state, preorder_arg_defs(args)),
    decreases args, 0int,
{
    if args.len() == 0 {
        lemma_react_all_none::<V>(state);
    } else {
        lemma_arg_defs::<V>(state, args.drop_last());
        let before = walk_arg_defs::<V>(state, args.drop_last());
        lemma_arg_def::<V>(before, args.last());
        lemma_react_all_concat::<V>(
            state,
            preorder_arg_defs(args.drop_last()),
            preorder_arg_def(args.last()),
        );
    }
}

/// A walk over expressions, by a visitor that never skips.
proof fn lemma_exprs<V: Visitor>(state: V::State, exprs: Seq<Node<Expr>>)
    requires
        never_skips::<V>(),
    ensures
        walk_exprs::<V>(state, exprs) == react_all::<V>(state, preorder_exprs(exprs)),
    decreases exprs, 0int,
{
    if exprs.len() == 0 {
        lemma_react_all_none::<V>(state);
    } else {
        lemma_exprs::<V>(state, exprs.drop_last());
        let before = walk_exprs::<V>(state, exprs.drop_last());
        lemma_expr::<V>(before, exprs.last());
        lemma_react_all_concat::<V>(
            state,
            preorder_exprs(exprs.drop_last()),
            preorder_expr(exprs.last()),
        );
    }
}

/// A walk over statements, by a visitor that never skips.
proof fn lemma_statements<V: Visitor>(state: V::State, statements: Seq<Node<Statement>>)
    requires
        never_skips::<V>(),
    ensures
        walk_statements::<V>(state, statements)
            == react_all::<V>(state, preorder_statements(statements)),
    decreases statements, 0int,
{
    if statements.len() == 0 {
        lemma_react_all_none::<V>(state);
    } else {
        lemma_statements::<V>(state, statements.drop_last());
        let before = walk_statements::<V>(state, statements.drop_last());
        lemma_statement::<V>(before, statements.last());
        lemma_react_all_concat::<V>(
            state,
            preorder_statements(statements.drop_last()),
            preorder_statement(statements.last()),
        );
    }
}

/// A walk over cases of a `switch`, by a visitor that never skips.
proof fn lemma_switch_cases<V: Visitor>(state: V::State, cases: Seq<SwitchCase>)
    requires
        never_skips::<V>(),
    ensures
        walk_switch_cases::<V>(state, cases) == react_all::<V>(state, preorder_switch_cases(cases)),
    decreases cases, 0int,
{
    if cases.len() == 0 {
        lemma_react_all_none::<V>(state);
    } else {
        lemma_switch_cases::<V>(state, cases.drop_last());
        let before = walk_switch_cases::<V>(state, cases.drop_last());
        lemma_switch_case::<V>(before, cases.last());
        lemma_react_all_concat::<V>(
            state,
            preorder_switch_cases(cases.drop_last()),
            preorder_switch_case(cases.last()),
        );
    }
}

/// A walk over catch clauses, by a visitor that never skips.
proof fn lemma_try_parts<V: Visitor>(state: V::State, parts: Seq<TryPart>)
    requires
        never_skips::<V>(),
    ensures
        walk_try_parts::<V>(state, parts) == react_all::<V>(state, preorder_try_parts(parts)),
    decreases parts, 0int,
{
    if parts.len() == 0 {
        lemma_react_all_none::<V>(state);
    } else {
        lemma_try_parts::<V>(state, parts.drop_last());
        let before = walk_try_parts::<V>(state, parts.drop_last());
        lemma_try_part::<V>(before, parts.last());
        lemma_react_all_concat::<V>(
            state,
            preorder_try_parts(parts.drop_last()),
            preorder_try_part(parts.last()),
        );
    }
}

/// A walk over named arguments, by a visitor that never skips.
proof fn lemma_named_args<V: Visitor>(state: V::State, args: Seq<NamedArg>)
    requires
        never_skips::<V>(),
    ensures
        walk_named_args::<V>(state, args) == react_all::<V>(state, preorder_named_args(args)),
    decreases args, 0int,
{
    if args.len() == 0 {
        lemma_react_all_none::<V>(state);
    } else {
        lemma_named_args::<V>(state, args.drop_last());
        let before = walk_named_args::<V>(state, args.drop_last());
        lemma_named_arg::<V>(before, args.last());
        lemma_react_all_concat::<V>(
            state,
            preorder_named_args(args.drop_last()),
            preorder_named_arg(args.last()),
        );
    }
}

/// A walk over suffixes, by a visitor that never skips.
proof fn lemma_suffixes<V: Visitor>(state: V::State, suffixes: Seq<Suffix>)
    requires
        never_skips::<V>(),
    ensures
        walk_suffixes::<V>(state, suffixes) == react_all::<V>(state, preorder_suffixes(suffixes)),
    decreases suffixes, 0int,
{
    if suffixes.len() == 0 {
        lemma_react_all_none::<V>(state);
    } else {
        lemma_suffixes::<V>(state, suffixes.drop_last());
        let before = walk_suffixes::<V>(state, suffixes.drop_last());
        lemma_suffix::<V>(before, suffixes.last());
        lemma_react_all_concat::<V>(
            state,
            preorder_suffixes(suffixes.drop_last()),
            preorder_suffix(suffixes.last()),
        );
    }
}

/// A walk over string literals, by a visitor that never skips.
proof fn lemma_string_literals<V: Visitor>(state: V::State, literals: Seq<StringLiteral>)
    requires
        never_skips::<V>(),
    ensures
        walk_string_literals::<V>(state, literals)
            == react_all::<V>(state, preorder_string_literals(literals)),
    decreases literals, 0int,
{
    if literals.len() == 0 {
        lemma_react_all_none::<V>(state);
    } else {
        lemma_string_literals::<V>(state, literals.drop_last());
        let before = walk_string_literals::<V>(state, literals.drop_last());
        lemma_string_literal::<V>(before, literals.last());
        lemma_react_all_concat::<V>(
            state,
            preorder_string_literals(literals.drop_last()),
            preorder_string_literal(literals.last()),
        );
    }
}

/// A walk over entries of a map literal, by a visitor that never skips.
proof fn lemma_map_entries<V: Visitor>(state: V::State, entries: Seq<(Node<Expr>, Node<Expr>)>)
    requires
        never_skips::<V>(),
    ensures
        walk_map_entries::<V>(state, entries)
            == react_all::<V>(state, preorder_map_entries(entries)),
    decreases entries, 0int,
{
    if entries.len() == 0 {
        lemma_react_all_none::<V>(state);
    } else {
        lemma_map_entries::<V>(state, entries.drop_last());
        let before = walk_map_entries::<V>(state, entries.drop_last());
        lemma_map_entry::<V>(before, entries.last());
        lemma_react_all_concat::<V>(
            state,
            preorder_map_entries(entries.drop_last()),
            preorder_map_entry(entries.last()),
        );
    }
}

/// A walk over interpolations of a string literal, by a visitor that never skips.
proof fn lemma_interpolations<V: Visitor>(state: V::State, parts: Seq<(Node<Expr>, Span)>)
    requires
        never_skips::<V>(),
    ensures
        walk_interpolations::<V>(state, parts)
            == react_all::<V>(state, preorder_interpolations(parts)),
    decreases parts, 0int,
{
    if parts.len() == 0 {
        lemma_react_all_none::<V>(state);
    } else {
        lemma_interpolations::<V>(state, parts.drop_last());
        let before = walk_interpolations::<V>(state, parts.drop_last());
        lemma_interpolation::<V>(before, parts.last());
        lemma_react_all_concat::<V>(
            state,
            preorder_interpolations(parts.drop_last()),
            preorder_interpolation(parts.last()),
        );
    }
}

} // verus!
