//! What a walk does to a visitor.
//!
//! A walk goes through the tree depth first, each node before its children
//! and the children in the order of their declaration. At each node that has
//! a hook the visitor reacts: it moves to a next state and says whether the
//! walk goes on below the node. The functions here give the state a visitor
//! is in after such a walk, as a function of the state it started in; the
//! contracts of `visit` and `super_visit` are stated over them.

use crate::dart::ast::{
    ArgDef, Args, Cascade, CatchPart, ClassMember, ConstructorInitializer, Expr, FnBody, FnSig,
    ForLoop, Function, Item, Metadata, MetadataItem, Module, NamedArg, Qualified, Statement,
    StringLiteral, Suffix, SwitchCase, TryPart, Type, TypeParameter, ValueBinOp, VarDef,
};
use crate::dart::visit::{NodeRef, Visitor, Walk};
use crate::node::Node;
use crate::source::Span;
use vstd::prelude::*;

verus! {

/// The state of a visitor after a walk over `node`, whatever its kind.
pub open spec fn walk<V: Visitor>(state: V::State, node: NodeRef<'_>) -> V::State {
    match node {
        NodeRef::Module(module) => walk_module::<V>(state, module),
        NodeRef::Item(item) => walk_item::<V>(state, item),
        NodeRef::ClassMember(class_member) => walk_class_member::<V>(state, class_member),
        NodeRef::ConstructorInitializer(initializer) => walk_constructor_initializer::<V>(
            state,
            *initializer,
        ),
        NodeRef::Meta(meta) => walk_meta::<V>(state, *meta),
        NodeRef::Qualified(qualified) => walk_qualified::<V>(state, qualified),
        NodeRef::Generics(generics) => walk_generics::<V>(state, *generics),
        NodeRef::Type(ty) => walk_type::<V>(state, ty),
        NodeRef::Function(function) => walk_function::<V>(state, function),
        NodeRef::FnSig(sig) => walk_fn_sig::<V>(state, *sig),
        NodeRef::FnBody(fn_body) => walk_fn_body::<V>(state, *fn_body),
        NodeRef::TryPart(try_part) => walk_try_part::<V>(state, *try_part),
        NodeRef::Statement(statement) => walk_statement::<V>(state, statement),
        NodeRef::Block(statements) => walk_block::<V>(state, *statements),
        NodeRef::VarDef(var) => walk_var_def::<V>(state, var),
        NodeRef::Expr(expr) => walk_expr::<V>(state, expr),
        NodeRef::Args(args) => walk_args::<V>(state, *args),
        NodeRef::Suffix(suffix) => walk_suffix::<V>(state, *suffix),
        NodeRef::StringLiteral(string_literal) => walk_string_literal::<V>(state, *string_literal),
    }
}

/// The state of a visitor after a walk over the children of `node`, whatever its
/// kind: what the walk does once the visitor has reacted to `node` itself.
pub open spec fn walk_below<V: Visitor>(state: V::State, node: NodeRef<'_>) -> V::State {
    match node {
        NodeRef::Module(module) => walk_module_below::<V>(state, module),
        NodeRef::Item(item) => walk_item_below::<V>(state, item),
        NodeRef::ClassMember(class_member) => walk_class_member_below::<V>(state, class_member),
        NodeRef::ConstructorInitializer(initializer) => walk_constructor_initializer_below::<V>(
            state,
            *initializer,
        ),
        NodeRef::Meta(meta) => walk_meta_below::<V>(state, *meta),
        NodeRef::Qualified(qualified) => walk_qualified_below::<V>(state, qualified),
        NodeRef::Generics(generics) => walk_generics_below::<V>(state, *generics),
        NodeRef::Type(ty) => walk_type_below::<V>(state, ty),
        NodeRef::Function(function) => walk_function_below::<V>(state, function),
        NodeRef::FnSig(sig) => walk_fn_sig_below::<V>(state, *sig),
        NodeRef::FnBody(fn_body) => walk_fn_body_below::<V>(state, *fn_body),
        NodeRef::TryPart(try_part) => walk_try_part_below::<V>(state, *try_part),
        NodeRef::Statement(statement) => walk_statement_below::<V>(state, statement),
        NodeRef::Block(statements) => walk_block_below::<V>(state, *statements),
        NodeRef::VarDef(var) => walk_var_def_below::<V>(state, var),
        NodeRef::Expr(expr) => walk_expr_below::<V>(state, expr),
        NodeRef::Args(args) => walk_args_below::<V>(state, *args),
        NodeRef::Suffix(suffix) => walk_suffix_below::<V>(state, *suffix),
        NodeRef::StringLiteral(string_literal) => walk_string_literal_below::<V>(
            state,
            *string_literal,
        ),
    }
}

/// The walk over a module: the visitor reacts to it, and unless it skips, the
/// walk goes on below.
pub open spec fn walk_module<V: Visitor>(state: V::State, module: Node<Module>) -> V::State
    decreases module, 1int,
{
    let (state, walk) = V::react(state, NodeRef::Module(module));
    match walk {
        Walk::Descend => walk_module_below::<V>(state, module),
        Walk::Skip => state,
    }
}

/// The walk over the children of a module, in order.
pub open spec fn walk_module_below<V: Visitor>(state: V::State, module: Node<Module>) -> V::State
    decreases module, 0int,
{
    walk_items::<V>(state, module@.items@)
}

/// The walk over a top-level declaration: the visitor reacts to it, and unless it skips, the
/// walk goes on below.
pub open spec fn walk_item<V: Visitor>(state: V::State, item: Node<Item>) -> V::State
    decreases item, 1int,
{
    let (state, walk) = V::react(state, NodeRef::Item(item));
    match walk {
        Walk::Descend => walk_item_below::<V>(state, item),
        Walk::Skip => state,
    }
}

/// The walk over the children of a top-level declaration, in order.
pub open spec fn walk_item_below<V: Visitor>(state: V::State, item: Node<Item>) -> V::State
    decreases item, 0int,
{
    match item@ {
        Item::LibraryName { metadata, .. } => walk_meta::<V>(state, metadata),
        Item::Import(metadata, import) => {
            let state = walk_meta::<V>(state, metadata);
            walk_string_literal::<V>(state, import.uri)
        },
        Item::Export(metadata, uri, _) => {
            let state = walk_meta::<V>(state, metadata);
            walk_string_literal::<V>(state, uri)
        },
        Item::Part { metadata, uri, module } => {
            let state = walk_meta::<V>(state, metadata);
            let state = walk_string_literal::<V>(state, uri);
            walk_module::<V>(state, module)
        },
        Item::PartOf { metadata, .. } => walk_meta::<V>(state, metadata),
        Item::Class { metadata, generics, superclass, mixins, interfaces, members, .. } => {
            let state = walk_meta::<V>(state, metadata);
            let state = walk_generics::<V>(state, generics);
            let state = match superclass {
                Some(child) => walk_qualified::<V>(state, child),
                None => state,
            };
            let state = walk_qualified_names::<V>(state, mixins@);
            let state = walk_qualified_names::<V>(state, interfaces@);
            walk_class_members::<V>(state, members@)
        },
        Item::MixinClass { metadata, generics, mixins, interfaces, .. } => {
            let state = walk_meta::<V>(state, metadata);
            let state = walk_generics::<V>(state, generics);
            let state = walk_qualified_names::<V>(state, mixins@);
            walk_qualified_names::<V>(state, interfaces@)
        },
        Item::Enum { metadata, .. } => walk_meta::<V>(state, metadata),
        Item::TypeAlias { metadata, generics, ty, .. } => {
            let state = walk_meta::<V>(state, metadata);
            let state = walk_generics::<V>(state, generics);
            walk_type::<V>(state, ty)
        },
        Item::Function(function) => walk_function::<V>(state, function),
        Item::Vars(var_type, vars) => {
            let state = walk_type::<V>(state, var_type.ty);
            walk_var_defs::<V>(state, vars@)
        },
    }
}

/// The walk over a class member: the visitor reacts to it, and unless it skips, the
/// walk goes on below.
pub open spec fn walk_class_member<V: Visitor>(
    state: V::State,
    class_member: Node<ClassMember>,
) -> V::State
    decreases class_member, 1int,
{
    let (state, walk) = V::react(state, NodeRef::ClassMember(class_member));
    match walk {
        Walk::Descend => walk_class_member_below::<V>(state, class_member),
        Walk::Skip => state,
    }
}

/// The walk over the children of a class member, in order.
pub open spec fn walk_class_member_below<V: Visitor>(
    state: V::State,
    class_member: Node<ClassMember>,
) -> V::State
    decreases class_member, 0int,
{
    match class_member@ {
        ClassMember::Redirect { metadata, sig, ty, .. } => {
            let state = walk_meta::<V>(state, metadata);
            let state = walk_fn_sig::<V>(state, sig);
            walk_type::<V>(state, ty)
        },
        ClassMember::Constructor { metadata, sig, initializers, function_body, .. } => {
            let state = walk_meta::<V>(state, metadata);
            let state = walk_fn_sig::<V>(state, sig);
            let state = walk_constructor_initializers::<V>(state, initializers@);
            match function_body {
                Some(child) => walk_fn_body::<V>(state, child),
                None => state,
            }
        },
        ClassMember::Method(metadata, _, function) => {
            let state = walk_meta::<V>(state, metadata);
            walk_function::<V>(state, function)
        },
        ClassMember::Fields { metadata, var_type, initializers, .. } => {
            let state = walk_meta::<V>(state, metadata);
            let state = walk_type::<V>(state, var_type.ty);
            walk_var_defs::<V>(state, initializers@)
        },
    }
}

/// The walk over a constructor initializer: the visitor reacts to it, and unless it skips, the
/// walk goes on below.
pub open spec fn walk_constructor_initializer<V: Visitor>(
    state: V::State,
    initializer: ConstructorInitializer,
) -> V::State
    decreases initializer, 1int,
{
    let (state, walk) = V::react(state, NodeRef::ConstructorInitializer(&initializer));
    match walk {
        Walk::Descend => walk_constructor_initializer_below::<V>(state, initializer),
        Walk::Skip => state,
    }
}

/// The walk over the children of a constructor initializer, in order.
pub open spec fn walk_constructor_initializer_below<V: Visitor>(
    state: V::State,
    initializer: ConstructorInitializer,
) -> V::State
    decreases initializer, 0int,
{
    match initializer {
        ConstructorInitializer::Super(_, args) => walk_args::<V>(state, args),
        ConstructorInitializer::This(_, args) => walk_args::<V>(state, args),
        ConstructorInitializer::Assert(args) => walk_args::<V>(state, args),
        ConstructorInitializer::Field(_, _, value) => walk_expr::<V>(state, value),
    }
}

/// The walk over a list of annotations: the visitor reacts to it, and unless it skips, the
/// walk goes on below.
pub open spec fn walk_meta<V: Visitor>(state: V::State, meta: Metadata) -> V::State
    decreases meta, 1int,
{
    let (state, walk) = V::react(state, NodeRef::Meta(&meta));
    match walk {
        Walk::Descend => walk_meta_below::<V>(state, meta),
        Walk::Skip => state,
    }
}

/// The walk over the children of a list of annotations, in order.
pub open spec fn walk_meta_below<V: Visitor>(state: V::State, meta: Metadata) -> V::State
    decreases meta, 0int,
{
    walk_metadata_items::<V>(state, meta@)
}

/// The walk over a qualified name: the visitor reacts to it, and unless it skips, the
/// walk goes on below.
pub open spec fn walk_qualified<V: Visitor>(state: V::State, qualified: Node<Qualified>) -> V::State
    decreases qualified, 1int,
{
    let (state, walk) = V::react(state, NodeRef::Qualified(qualified));
    match walk {
        Walk::Descend => walk_qualified_below::<V>(state, qualified),
        Walk::Skip => state,
    }
}

/// The walk over the children of a qualified name, in order.
pub open spec fn walk_qualified_below<V: Visitor>(
    state: V::State,
    qualified: Node<Qualified>,
) -> V::State
    decreases qualified, 0int,
{
    let state = match qualified@.prefix {
        Some(child) => walk_qualified::<V>(state, child),
        None => state,
    };
    walk_types::<V>(state, qualified@.params@)
}

/// The walk over a list of type parameters: the visitor reacts to it, and unless it skips, the
/// walk goes on below.
pub open spec fn walk_generics<V: Visitor>(
    state: V::State,
    generics: Vec<Node<TypeParameter>>,
) -> V::State
    decreases generics, 1int,
{
    let (state, walk) = V::react(state, NodeRef::Generics(&generics));
    match walk {
        Walk::Descend => walk_generics_below::<V>(state, generics),
        Walk::Skip => state,
    }
}

/// The walk over the children of a list of type parameters, in order.
pub open spec fn walk_generics_below<V: Visitor>(
    state: V::State,
    generics: Vec<Node<TypeParameter>>,
) -> V::State
    decreases generics, 0int,
{
    walk_type_parameters::<V>(state, generics@)
}

/// The walk over a type: the visitor reacts to it, and unless it skips, the
/// walk goes on below.
pub open spec fn walk_type<V: Visitor>(state: V::State, ty: Node<Type>) -> V::State
    decreases ty, 1int,
{
    let (state, walk) = V::react(state, NodeRef::Type(ty));
    match walk {
        Walk::Descend => walk_type_below::<V>(state, ty),
        Walk::Skip => state,
    }
}

/// The walk over the children of a type, in order.
pub open spec fn walk_type_below<V: Visitor>(state: V::State, ty: Node<Type>) -> V::State
    decreases ty, 0int,
{
    match ty@ {
        Type::Path(qualified) => walk_qualified::<V>(state, qualified),
        Type::FunctionOld(sig) => walk_fn_sig::<V>(state, sig),
        Type::Function(sig) => walk_fn_sig::<V>(state, sig),
        Type::Infer => state,
    }
}

/// The walk over a function: the visitor reacts to it, and unless it skips, the
/// walk goes on below.
pub open spec fn walk_function<V: Visitor>(state: V::State, function: Node<Function>) -> V::State
    decreases function, 1int,
{
    let (state, walk) = V::react(state, NodeRef::Function(function));
    match walk {
        Walk::Descend => walk_function_below::<V>(state, function),
        Walk::Skip => state,
    }
}

/// The walk over the children of a function, in order.
pub open spec fn walk_function_below<V: Visitor>(
    state: V::State,
    function: Node<Function>,
) -> V::State
    decreases function, 0int,
{
    let state = walk_generics::<V>(state, function@.generics);
    let state = walk_fn_sig::<V>(state, function@.sig);
    match function@.body {
        Some(child) => walk_fn_body::<V>(state, child),
        None => state,
    }
}

/// The walk over a function signature: the visitor reacts to it, and unless it skips, the
/// walk goes on below.
pub open spec fn walk_fn_sig<V: Visitor>(state: V::State, sig: FnSig) -> V::State
    decreases sig, 1int,
{
    let (state, walk) = V::react(state, NodeRef::FnSig(&sig));
    match walk {
        Walk::Descend => walk_fn_sig_below::<V>(state, sig),
        Walk::Skip => state,
    }
}

/// The walk over the children of a function signature, in order.
pub open spec fn walk_fn_sig_below<V: Visitor>(state: V::State, sig: FnSig) -> V::State
    decreases sig, 0int,
{
    let state = walk_type::<V>(state, sig.return_type);
    let state = walk_arg_defs::<V>(state, sig.required@);
    walk_arg_defs::<V>(state, sig.optional@)
}

/// The walk over a function body: the visitor reacts to it, and unless it skips, the
/// walk goes on below.
pub open spec fn walk_fn_body<V: Visitor>(state: V::State, fn_body: FnBody) -> V::State
    decreases fn_body, 1int,
{
    let (state, walk) = V::react(state, NodeRef::FnBody(&fn_body));
    match walk {
        Walk::Descend => walk_fn_body_below::<V>(state, fn_body),
        Walk::Skip => state,
    }
}

/// The walk over the children of a function body, in order.
pub open spec fn walk_fn_body_below<V: Visitor>(state: V::State, fn_body: FnBody) -> V::State
    decreases fn_body, 0int,
{
    match fn_body {
        FnBody::Arrow(value) => walk_expr::<V>(state, value),
        FnBody::Block(block) => walk_statement::<V>(state, block),
        FnBody::Native(name) => {
            match name {
                Some(child) => walk_string_literal::<V>(state, child),
                None => state,
            }
        },
    }
}

/// The walk over a catch clause: the visitor reacts to it, and unless it skips, the
/// walk goes on below.
pub open spec fn walk_try_part<V: Visitor>(state: V::State, try_part: TryPart) -> V::State
    decreases try_part, 1int,
{
    let (state, walk) = V::react(state, NodeRef::TryPart(&try_part));
    match walk {
        Walk::Descend => walk_try_part_below::<V>(state, try_part),
        Walk::Skip => state,
    }
}

/// The walk over the children of a catch clause, in order.
pub open spec fn walk_try_part_below<V: Visitor>(state: V::State, try_part: TryPart) -> V::State
    decreases try_part, 0int,
{
    let state = match try_part.on {
        Some(child) => walk_type::<V>(state, child),
        None => state,
    };
    let state = match try_part.catch {
        Some(child) => walk_catch_part::<V>(state, child),
        None => state,
    };
    walk_statement::<V>(state, try_part.block)
}

/// The walk over a statement: the visitor reacts to it, and unless it skips, the
/// walk goes on below.
pub open spec fn walk_statement<V: Visitor>(state: V::State, statement: Node<Statement>) -> V::State
    decreases statement, 1int,
{
    let (state, walk) = V::react(state, NodeRef::Statement(statement));
    match walk {
        Walk::Descend => walk_statement_below::<V>(state, statement),
        Walk::Skip => state,
    }
}

/// The walk over the children of a statement, in order.
pub open spec fn walk_statement_below<V: Visitor>(
    state: V::State,
    statement: Node<Statement>,
) -> V::State
    decreases statement, 0int,
{
    match statement@ {
        Statement::Block(statements) => walk_block::<V>(state, statements),
        Statement::Vars(var_type, vars) => {
            let state = walk_type::<V>(state, var_type.ty);
            walk_var_defs::<V>(state, vars@)
        },
        Statement::Function(function) => walk_function::<V>(state, function),
        Statement::For(_, for_loop, body) => {
            let state = walk_for_loop::<V>(state, for_loop);
            walk_statement::<V>(state, body)
        },
        Statement::While(condition, body) => {
            let state = walk_expr::<V>(state, condition);
            walk_statement::<V>(state, body)
        },
        Statement::DoWhile(body, condition) => {
            let state = walk_statement::<V>(state, body);
            walk_expr::<V>(state, condition)
        },
        Statement::Switch(subject, cases) => {
            let state = walk_expr::<V>(state, subject);
            walk_switch_cases::<V>(state, cases@)
        },
        Statement::If(condition, consequent, alternative) => {
            let state = walk_expr::<V>(state, condition);
            let state = walk_statement::<V>(state, consequent);
            match alternative {
                Some(child) => walk_statement::<V>(state, child),
                None => state,
            }
        },
        Statement::Rethrow => state,
        Statement::Try(body, parts) => {
            let state = walk_statement::<V>(state, body);
            walk_try_parts::<V>(state, parts@)
        },
        Statement::Break(_) => state,
        Statement::Continue(_) => state,
        Statement::Return(value) => {
            match value {
                Some(child) => walk_expr::<V>(state, child),
                None => state,
            }
        },
        Statement::Yield(value) => walk_expr::<V>(state, value),
        Statement::YieldEach(value) => walk_expr::<V>(state, value),
        Statement::Expression(value) => {
            match value {
                Some(child) => walk_expr::<V>(state, child),
                None => state,
            }
        },
        Statement::Assert(args) => walk_args::<V>(state, args),
        Statement::Labelled(_, body) => walk_statement::<V>(state, body),
    }
}

/// The walk over the statements of a block: the visitor reacts to it, and unless it skips, the
/// walk goes on below.
pub open spec fn walk_block<V: Visitor>(
    state: V::State,
    statements: Vec<Node<Statement>>,
) -> V::State
    decreases statements, 1int,
{
    let (state, walk) = V::react(state, NodeRef::Block(&statements));
    match walk {
        Walk::Descend => walk_block_below::<V>(state, statements),
        Walk::Skip => state,
    }
}

/// The walk over the children of the statements of a block, in order.
pub open spec fn walk_block_below<V: Visitor>(
    state: V::State,
    statements: Vec<Node<Statement>>,
) -> V::State
    decreases statements, 0int,
{
    walk_statements::<V>(state, statements@)
}

/// The walk over a variable definition: the visitor reacts to it, and unless it skips, the
/// walk goes on below.
pub open spec fn walk_var_def<V: Visitor>(state: V::State, var: Node<VarDef>) -> V::State
    decreases var, 1int,
{
    let (state, walk) = V::react(state, NodeRef::VarDef(var));
    match walk {
        Walk::Descend => walk_var_def_below::<V>(state, var),
        Walk::Skip => state,
    }
}

/// The walk over the children of a variable definition, in order.
pub open spec fn walk_var_def_below<V: Visitor>(state: V::State, var: Node<VarDef>) -> V::State
    decreases var, 0int,
{
    match var@.init {
        Some(child) => walk_expr::<V>(state, child),
        None => state,
    }
}

/// The walk over an expression: the visitor reacts to it, and unless it skips, the
/// walk goes on below.
pub open spec fn walk_expr<V: Visitor>(state: V::State, expr: Node<Expr>) -> V::State
    decreases expr, 1int,
{
    let (state, walk) = V::react(state, NodeRef::Expr(expr));
    match walk {
        Walk::Descend => walk_expr_below::<V>(state, expr),
        Walk::Skip => state,
    }
}

/// The walk over the children of an expression, in order.
pub open spec fn walk_expr_below<V: Visitor>(state: V::State, expr: Node<Expr>) -> V::State
    decreases expr, 0int,
{
    match expr@ {
        Expr::Unary(_, operand) => walk_expr::<V>(state, operand),
        Expr::Binary(_, left, right) => {
            let state = walk_expr::<V>(state, left);
            walk_expr::<V>(state, right)
        },
        Expr::Conditional(condition, consequent, alternative) => {
            let state = walk_expr::<V>(state, condition);
            let state = walk_expr::<V>(state, consequent);
            walk_expr::<V>(state, alternative)
        },
        Expr::Is(value, ty) => {
            let state = walk_expr::<V>(state, value);
            walk_type::<V>(state, ty)
        },
        Expr::IsNot(value, ty) => {
            let state = walk_expr::<V>(state, value);
            walk_type::<V>(state, ty)
        },
        Expr::As(value, ty) => {
            let state = walk_expr::<V>(state, value);
            walk_type::<V>(state, ty)
        },
        Expr::Suffix(value, suffix) => {
            let state = walk_expr::<V>(state, value);
            walk_suffix::<V>(state, suffix)
        },
        Expr::Identifier(_) => state,
        Expr::Closure(sig, body) => {
            let state = walk_fn_sig::<V>(state, sig);
            walk_fn_body::<V>(state, body)
        },
        Expr::New { path, args, .. } => {
            let state = walk_qualified::<V>(state, path);
            walk_args::<V>(state, args)
        },
        Expr::List { element_ty, elements, .. } => {
            let state = match element_ty {
                Some(child) => walk_type::<V>(state, child),
                None => state,
            };
            walk_exprs::<V>(state, elements@)
        },
        Expr::MapLiteral { kv_ty, kv, .. } => {
            let state = match kv_ty {
                Some(child) => walk_type_pair::<V>(state, child),
                None => state,
            };
            walk_map_entries::<V>(state, kv@)
        },
        Expr::Number(_) => state,
        Expr::String(literals) => walk_string_literals::<V>(state, literals@),
        Expr::Symbol(_) => state,
        Expr::Paren(inner) => walk_expr::<V>(state, inner),
        Expr::Throw(value) => walk_expr::<V>(state, value),
        Expr::Cascade(value, cascade) => {
            let state = walk_expr::<V>(state, value);
            walk_cascade::<V>(state, cascade)
        },
    }
}

/// The walk over an argument list: the visitor reacts to it, and unless it skips, the
/// walk goes on below.
pub open spec fn walk_args<V: Visitor>(state: V::State, args: Args) -> V::State
    decreases args, 1int,
{
    let (state, walk) = V::react(state, NodeRef::Args(&args));
    match walk {
        Walk::Descend => walk_args_below::<V>(state, args),
        Walk::Skip => state,
    }
}

/// The walk over the children of an argument list, in order.
pub open spec fn walk_args_below<V: Visitor>(state: V::State, args: Args) -> V::State
    decreases args, 0int,
{
    let state = walk_exprs::<V>(state, args.unnamed@);
    walk_named_args::<V>(state, args.named@)
}

/// The walk over a suffix: the visitor reacts to it, and unless it skips, the
/// walk goes on below.
pub open spec fn walk_suffix<V: Visitor>(state: V::State, suffix: Suffix) -> V::State
    decreases suffix, 1int,
{
    let (state, walk) = V::react(state, NodeRef::Suffix(&suffix));
    match walk {
        Walk::Descend => walk_suffix_below::<V>(state, suffix),
        Walk::Skip => state,
    }
}

/// The walk over the children of a suffix, in order.
pub open spec fn walk_suffix_below<V: Visitor>(state: V::State, suffix: Suffix) -> V::State
    decreases suffix, 0int,
{
    match suffix {
        Suffix::Index(index) => walk_expr::<V>(state, index),
        Suffix::Field(_) => state,
        Suffix::FieldIfNotNull(_) => state,
        Suffix::Call(types, args) => {
            let state = walk_types::<V>(state, types@);
            walk_args::<V>(state, args)
        },
    }
}

/// The walk over a string literal: the visitor reacts to it, and unless it skips, the
/// walk goes on below.
pub open spec fn walk_string_literal<V: Visitor>(
    state: V::State,
    string_literal: StringLiteral,
) -> V::State
    decreases string_literal, 1int,
{
    let (state, walk) = V::react(state, NodeRef::StringLiteral(&string_literal));
    match walk {
        Walk::Descend => walk_string_literal_below::<V>(state, string_literal),
        Walk::Skip => state,
    }
}

/// The walk over the children of a string literal, in order.
pub open spec fn walk_string_literal_below<V: Visitor>(
    state: V::State,
    string_literal: StringLiteral,
) -> V::State
    decreases string_literal, 0int,
{
    walk_interpolations::<V>(state, string_literal.interpolated@)
}

/// The walk over one annotation, which has no hook of its own.
pub open spec fn walk_metadata_item<V: Visitor>(state: V::State, item: MetadataItem) -> V::State
    decreases item, 0int,
{
    let state = walk_qualified::<V>(state, item.qualified);
    match item.arguments {
        Some(child) => walk_args::<V>(state, child),
        None => state,
    }
}

/// The walk over one type parameter, which has no hook of its own.
pub open spec fn walk_type_parameter<V: Visitor>(
    state: V::State,
    parameter: Node<TypeParameter>,
) -> V::State
    decreases parameter, 0int,
{
    let state = walk_meta::<V>(state, parameter@.metadata);
    match parameter@.extends {
        Some(child) => walk_qualified::<V>(state, child),
        None => state,
    }
}

/// The walk over one parameter of a function, which has no hook of its own.
pub open spec fn walk_arg_def<V: Visitor>(state: V::State, arg: ArgDef) -> V::State
    decreases arg, 0int,
{
    let state = walk_meta::<V>(state, arg.metadata);
    let state = walk_type::<V>(state, arg.ty.ty);
    walk_var_def::<V>(state, arg.var)
}

/// The walk over the head of a `for` loop, which has no hook of its own.
pub open spec fn walk_for_loop<V: Visitor>(state: V::State, for_loop: ForLoop) -> V::State
    decreases for_loop, 0int,
{
    match for_loop {
        ForLoop::CLike(init, condition, updates) => {
            let state = walk_statement::<V>(state, init);
            let state = match condition {
                Some(child) => walk_expr::<V>(state, child),
                None => state,
            };
            walk_exprs::<V>(state, updates@)
        },
        ForLoop::In(_, iterable) => walk_expr::<V>(state, iterable),
        ForLoop::InVar(var_type, var, iterable) => {
            let state = walk_type::<V>(state, var_type.ty);
            let state = walk_var_def::<V>(state, var);
            walk_expr::<V>(state, iterable)
        },
    }
}

/// The walk over one case of a `switch`, which has no hook of its own.
pub open spec fn walk_switch_case<V: Visitor>(state: V::State, case: SwitchCase) -> V::State
    decreases case, 0int,
{
    let state = match case.value {
        Some(child) => walk_expr::<V>(state, child),
        None => state,
    };
    walk_statements::<V>(state, case.statements@)
}

/// The walk over the binders of a catch clause, which has no hook of its own.
pub open spec fn walk_catch_part<V: Visitor>(state: V::State, catch: CatchPart) -> V::State
    decreases catch, 0int,
{
    let state = walk_var_def::<V>(state, catch.exception);
    match catch.trace {
        Some(child) => walk_var_def::<V>(state, child),
        None => state,
    }
}

/// The walk over the key and value types of a map literal, which has no hook of its own.
pub open spec fn walk_type_pair<V: Visitor>(
    state: V::State,
    pair: (Node<Type>, Node<Type>),
) -> V::State
    decreases pair, 0int,
{
    let state = walk_type::<V>(state, pair.0);
    walk_type::<V>(state, pair.1)
}

/// The walk over one entry of a map literal, which has no hook of its own.
pub open spec fn walk_map_entry<V: Visitor>(
    state: V::State,
    entry: (Node<Expr>, Node<Expr>),
) -> V::State
    decreases entry, 0int,
{
    let state = walk_expr::<V>(state, entry.0);
    walk_expr::<V>(state, entry.1)
}

/// The walk over one section of a cascade, which has no hook of its own.
pub open spec fn walk_cascade<V: Visitor>(state: V::State, cascade: Cascade) -> V::State
    decreases cascade, 0int,
{
    let state = walk_suffixes::<V>(state, cascade.suffixes@);
    match cascade.assign {
        Some(child) => walk_cascade_assign::<V>(state, child),
        None => state,
    }
}

/// The walk over the assignment that ends a cascade section, which has no hook of its own.
pub open spec fn walk_cascade_assign<V: Visitor>(
    state: V::State,
    assign: (Option<ValueBinOp>, Node<Expr>),
) -> V::State
    decreases assign, 0int,
{
    walk_expr::<V>(state, assign.1)
}

/// The walk over one named argument, which has no hook of its own.
pub open spec fn walk_named_arg<V: Visitor>(state: V::State, arg: NamedArg) -> V::State
    decreases arg, 0int,
{
    walk_expr::<V>(state, arg.expr)
}

/// The walk over one interpolation of a string literal, which has no hook of its own.
pub open spec fn walk_interpolation<V: Visitor>(
    state: V::State,
    part: (Node<Expr>, Span),
) -> V::State
    decreases part, 0int,
{
    walk_expr::<V>(state, part.0)
}

/// The walk over top-level declarations, first to last.
pub open spec fn walk_items<V: Visitor>(state: V::State, items: Seq<Node<Item>>) -> V::State
    decreases items, 0int,
{
    if items.len() == 0 {
        state
    } else {
        walk_item::<V>(walk_items::<V>(state, items.drop_last()), items.last())
    }
}

/// The walk over annotations, first to last.
pub open spec fn walk_metadata_items<V: Visitor>(
    state: V::State,
    annotations: Seq<MetadataItem>,
) -> V::State
    decreases annotations, 0int,
{
    if annotations.len() == 0 {
        state
    } else {
        walk_metadata_item::<V>(
            walk_metadata_items::<V>(state, annotations.drop_last()),
            annotations.last(),
        )
    }
}

/// The walk over type parameters, first to last.
pub open spec fn walk_type_parameters<V: Visitor>(
    state: V::State,
    parameters: Seq<Node<TypeParameter>>,
) -> V::State
    decreases parameters, 0int,
{
    if parameters.len() == 0 {
        state
    } else {
        walk_type_parameter::<V>(
            walk_type_parameters::<V>(state, parameters.drop_last()),
            parameters.last(),
        )
    }
}

/// The walk over qualified names, first to last.
pub open spec fn walk_qualified_names<V: Visitor>(
    state: V::State,
    names: Seq<Node<Qualified>>,
) -> V::State
    decreases names, 0int,
{
    if names.len() == 0 {
        state
    } else {
        walk_qualified::<V>(walk_qualified_names::<V>(state, names.drop_last()), names.last())
    }
}

/// The walk over class members, first to last.
pub open spec fn walk_class_members<V: Visitor>(
    state: V::State,
    members: Seq<Node<ClassMember>>,
) -> V::State
    decreases members, 0int,
{
    if members.len() == 0 {
        state
    } else {
        walk_class_member::<V>(walk_class_members::<V>(state, members.drop_last()), members.last())
    }
}

/// The walk over variable definitions, first to last.
pub open spec fn walk_var_defs<V: Visitor>(state: V::State, vars: Seq<Node<VarDef>>) -> V::State
    decreases vars, 0int,
{
    if vars.len() == 0 {
        state
    } else {
        walk_var_def::<V>(walk_var_defs::<V>(state, vars.drop_last()), vars.last())
    }
}

/// The walk over types, first to last.
pub open spec fn walk_types<V: Visitor>(state: V::State, types: Seq<Node<Type>>) -> V::State
    decreases types, 0int,
{
    if types.len() == 0 {
        state
    } else {
        walk_type::<V>(walk_types::<V>(state, types.drop_last()), types.last())
    }
}

/// The walk over constructor initializers, first to last.
pub open spec fn walk_constructor_initializers<V: Visitor>(
    state: V::State,
    initializers: Seq<ConstructorInitializer>,
) -> V::State
    decreases initializers, 0int,
{
    if initializers.len() == 0 {
        state
    } else {
        walk_constructor_initializer::<V>(
            walk_constructor_initializers::<V>(state, initializers.drop_last()),
            initializers.last(),
        )
    }
}

/// The walk over parameters of a function, first to last.
pub open spec fn walk_arg_defs<V: Visitor>(state: V::State, args: Seq<ArgDef>) -> V::State
    decreases args, 0int,
{
    if args.len() == 0 {
        state
    } else {
        walk_arg_def::<V>(walk_arg_defs::<V>(state, args.drop_last()), args.last())
    }
}

/// The walk over expressions, first to last.
pub open spec fn walk_exprs<V: Visitor>(state: V::State, exprs: Seq<Node<Expr>>) -> V::State
    decreases exprs, 0int,
{
    if exprs.len() == 0 {
        state
    } else {
        walk_expr::<V>(walk_exprs::<V>(state, exprs.drop_last()), exprs.last())
    }
}

/// The walk over statements, first to last.
pub open spec fn walk_statements<V: Visitor>(
    state: V::State,
    statements: Seq<Node<Statement>>,
) -> V::State
    decreases statements, 0int,
{
    if statements.len() == 0 {
        state
    } else {
        walk_statement::<V>(walk_statements::<V>(state, statements.drop_last()), statements.last())
    }
}

/// The walk over cases of a `switch`, first to last.
pub open spec fn walk_switch_cases<V: Visitor>(state: V::State, cases: Seq<SwitchCase>) -> V::State
    decreases cases, 0int,
{
    if cases.len() == 0 {
        state
    } else {
        walk_switch_case::<V>(walk_switch_cases::<V>(state, cases.drop_last()), cases.last())
    }
}

/// The walk over catch clauses, first to last.
pub open spec fn walk_try_parts<V: Visitor>(state: V::State, parts: Seq<TryPart>) -> V::State
    decreases parts, 0int,
{
    if parts.len() == 0 {
        state
    } else {
        walk_try_part::<V>(walk_try_parts::<V>(state, parts.drop_last()), parts.last())
    }
}

/// The walk over named arguments, first to last.
pub open spec fn walk_named_args<V: Visitor>(state: V::State, args: Seq<NamedArg>) -> V::State
    decreases args, 0int,
{
    if args.len() == 0 {
        state
    } else {
        walk_named_arg::<V>(walk_named_args::<V>(state, args.drop_last()), args.last())
    }
}

/// The walk over suffixes, first to last.
pub open spec fn walk_suffixes<V: Visitor>(state: V::State, suffixes: Seq<Suffix>) -> V::State
    decreases suffixes, 0int,
{
    if suffixes.len() == 0 {
        state
    } else {
        walk_suffix::<V>(walk_suffixes::<V>(state, suffixes.drop_last()), suffixes.last())
    }
}

/// The walk over string literals, first to last.
pub open spec fn walk_string_literals<V: Visitor>(
    state: V::State,
    literals: Seq<StringLiteral>,
) -> V::State
    decreases literals, 0int,
{
    if literals.len() == 0 {
        state
    } else {
        walk_string_literal::<V>(
            walk_string_literals::<V>(state, literals.drop_last()),
            literals.last(),
        )
    }
}

/// The walk over entries of a map literal, first to last.
pub open spec fn walk_map_entries<V: Visitor>(
    state: V::State,
    entries: Seq<(Node<Expr>, Node<Expr>)>,
) -> V::State
    decreases entries, 0int,
{
    if entries.len() == 0 {
        state
    } else {
        walk_map_entry::<V>(walk_map_entries::<V>(state, entries.drop_last()), entries.last())
    }
}

/// The walk over interpolations of a string literal, first to last.
pub open spec fn walk_interpolations<V: Visitor>(
    state: V::State,
    parts: Seq<(Node<Expr>, Span)>,
) -> V::State
    decreases parts, 0int,
{
    if parts.len() == 0 {
        state
    } else {
        walk_interpolation::<V>(walk_interpolations::<V>(state, parts.drop_last()), parts.last())
    }
}

} // verus!
