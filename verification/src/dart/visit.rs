//! Walking the tree with a visitor.
//!
//! Every kind of node has two entry points. `visit` is the whole walk over a
//! node: the visitor's hook for that kind is called, and unless the hook says
//! `Walk::Skip`, `super_visit` follows. `super_visit` is the structural part:
//! it walks exactly the children that the node's shape has, in the order of
//! their declaration, each through its own `visit`.
//!
//! A visitor has one hook for each kind of node. It implements `visit_node`,
//! which every hook hands its node to unless the visitor overrides it, so a
//! visitor that cares for a few kinds writes those and leaves the rest to a
//! `visit_node` that returns `Walk::Descend`: the structure of the tree alone
//! then leads the walk on.
//!
//! A hook answers with a `Walk` where one might expect it to call
//! `super_visit` itself. The walk is generic in the visitor, and a method of a
//! trait cannot call a function that is generic in that very trait without the
//! verifier seeing a cycle; so the hook says what it wants, and the walk does
//! it. A visitor outside verified code is free to call `super_visit` from a
//! hook, do its own work afterwards, and answer `Walk::Skip`.

use crate::dart::ast::{
    ArgDef, Args, Cascade, CatchPart, ClassMember, ConstructorInitializer, Expr, FnBody, FnSig,
    ForLoop, Function, Item, Metadata, MetadataItem, Module, NamedArg, Qualified, Statement,
    StringLiteral, Suffix, SwitchCase, TryPart, Type, TypeParameter, ValueBinOp, VarDef,
};
use crate::dart::walk::{
    walk, walk_arg_def, walk_arg_defs, walk_args, walk_args_below, walk_below, walk_block,
    walk_block_below, walk_cascade, walk_cascade_assign, walk_catch_part, walk_class_member,
    walk_class_member_below, walk_class_members, walk_constructor_initializer,
    walk_constructor_initializer_below, walk_constructor_initializers, walk_expr, walk_expr_below,
    walk_exprs, walk_fn_body, walk_fn_body_below, walk_fn_sig, walk_fn_sig_below, walk_for_loop,
    walk_function, walk_function_below, walk_generics, walk_generics_below, walk_interpolation,
    walk_interpolations, walk_item, walk_item_below, walk_items, walk_map_entries, walk_map_entry,
    walk_meta, walk_meta_below, walk_metadata_item, walk_metadata_items, walk_module,
    walk_module_below, walk_named_arg, walk_named_args, walk_qualified, walk_qualified_below,
    walk_qualified_names, walk_statement, walk_statement_below, walk_statements,
    walk_string_literal, walk_string_literal_below, walk_string_literals, walk_suffix,
    walk_suffix_below, walk_suffixes, walk_switch_case, walk_switch_cases, walk_try_part,
    walk_try_part_below, walk_try_parts, walk_type, walk_type_below, walk_type_pair,
    walk_type_parameter, walk_type_parameters, walk_types, walk_var_def, walk_var_def_below,
    walk_var_defs,
};
use crate::node::Node;
use crate::source::Span;
use vstd::prelude::*;

verus! {

/// What a hook tells the walk to do next.
#[derive(Copy, Clone, PartialEq, Eq, Debug, Structural)]
pub enum Walk {
    /// Go on with the children of the node.
    Descend,
    /// Leave the children of the node out.
    Skip,
}

/// A node of any kind that has a hook, as a hook gets it: nodes that live
/// behind a handle come as a handle, the others as a reference.
#[derive(Debug)]
pub enum NodeRef<'a> {
    Module(Node<Module>),
    Item(Node<Item>),
    ClassMember(Node<ClassMember>),
    ConstructorInitializer(&'a ConstructorInitializer),
    Meta(&'a Metadata),
    Qualified(Node<Qualified>),
    Generics(&'a Vec<Node<TypeParameter>>),
    Type(Node<Type>),
    Function(Node<Function>),
    FnSig(&'a FnSig),
    FnBody(&'a FnBody),
    TryPart(&'a TryPart),
    Statement(Node<Statement>),
    Block(&'a Vec<Node<Statement>>),
    VarDef(Node<VarDef>),
    Expr(Node<Expr>),
    Args(&'a Args),
    Suffix(&'a Suffix),
    StringLiteral(&'a StringLiteral),
}

/// What is called back during a walk.
///
/// The contracts see a visitor through its `state`, and its hooks through
/// `react`: the state after a hook has seen a node, and whether the walk goes
/// on below that node, are a function of the state before and of the node.
pub trait Visitor: Sized {
    /// What the contracts know of a visitor.
    type State;

    /// The state the visitor is in. Left as it is, it tells nothing.
    open spec fn state(&self) -> Self::State {
        arbitrary()
    }

    /// The state that follows `state` once a hook has seen `node`, and what the
    /// hook returns. Left as it is, it describes a visitor that never skips
    /// and whose state no hook changes.
    open spec fn react(state: Self::State, node: NodeRef<'_>) -> (Self::State, Walk) {
        (state, Walk::Descend)
    }

    /// Called on every node whose own hook is not overridden.
    fn visit_node(&mut self, node: NodeRef<'_>) -> (walk: Walk)
        ensures
            (final(self).state(), walk) == Self::react(old(self).state(), node),
    ;

    /// Called on a module, before the walk goes on below it.
    fn dart_module(&mut self, module: Node<Module>) -> (walk: Walk)
        ensures
            (final(self).state(), walk) == Self::react(old(self).state(), NodeRef::Module(module)),
    {
        self.visit_node(NodeRef::Module(module))
    }

    /// Called on a top-level declaration, before the walk goes on below it.
    fn dart_item(&mut self, item: Node<Item>) -> (walk: Walk)
        ensures
            (final(self).state(), walk) == Self::react(old(self).state(), NodeRef::Item(item)),
    {
        self.visit_node(NodeRef::Item(item))
    }

    /// Called on a class member, before the walk goes on below it.
    fn dart_class_member(&mut self, class_member: Node<ClassMember>) -> (walk: Walk)
        ensures
            (final(self).state(), walk)
                == Self::react(old(self).state(), NodeRef::ClassMember(class_member)),
    {
        self.visit_node(NodeRef::ClassMember(class_member))
    }

    /// Called on a constructor initializer, before the walk goes on below it.
    fn dart_constructor_initializer(&mut self, initializer: &ConstructorInitializer) -> (walk: Walk)
        ensures
            (final(self).state(), walk)
                == Self::react(old(self).state(), NodeRef::ConstructorInitializer(initializer)),
    {
        self.visit_node(NodeRef::ConstructorInitializer(initializer))
    }

    /// Called on a list of annotations, before the walk goes on below it.
    fn dart_meta(&mut self, meta: &Metadata) -> (walk: Walk)
        ensures
            (final(self).state(), walk) == Self::react(old(self).state(), NodeRef::Meta(meta)),
    {
        self.visit_node(NodeRef::Meta(meta))
    }

    /// Called on a qualified name, before the walk goes on below it.
    fn dart_qualified(&mut self, qualified: Node<Qualified>) -> (walk: Walk)
        ensures
            (final(self).state(), walk)
                == Self::react(old(self).state(), NodeRef::Qualified(qualified)),
    {
        self.visit_node(NodeRef::Qualified(qualified))
    }

    /// Called on a list of type parameters, before the walk goes on below it.
    fn dart_generics(&mut self, generics: &Vec<Node<TypeParameter>>) -> (walk: Walk)
        ensures
            (final(self).state(), walk)
                == Self::react(old(self).state(), NodeRef::Generics(generics)),
    {
        self.visit_node(NodeRef::Generics(generics))
    }

    /// Called on a type, before the walk goes on below it.
    fn dart_type(&mut self, ty: Node<Type>) -> (walk: Walk)
        ensures
            (final(self).state(), walk) == Self::react(old(self).state(), NodeRef::Type(ty)),
    {
        self.visit_node(NodeRef::Type(ty))
    }

    /// Called on a function, before the walk goes on below it.
    fn dart_function(&mut self, function: Node<Function>) -> (walk: Walk)
        ensures
            (final(self).state(), walk)
                == Self::react(old(self).state(), NodeRef::Function(function)),
    {
        self.visit_node(NodeRef::Function(function))
    }

    /// Called on a function signature, before the walk goes on below it.
    fn dart_fn_sig(&mut self, sig: &FnSig) -> (walk: Walk)
        ensures
            (final(self).state(), walk) == Self::react(old(self).state(), NodeRef::FnSig(sig)),
    {
        self.visit_node(NodeRef::FnSig(sig))
    }

    /// Called on a function body, before the walk goes on below it.
    fn dart_fn_body(&mut self, fn_body: &FnBody) -> (walk: Walk)
        ensures
            (final(self).state(), walk) == Self::react(old(self).state(), NodeRef::FnBody(fn_body)),
    {
        self.visit_node(NodeRef::FnBody(fn_body))
    }

    /// Called on a catch clause, before the walk goes on below it.
    fn dart_try_part(&mut self, try_part: &TryPart) -> (walk: Walk)
        ensures
            (final(self).state(), walk)
                == Self::react(old(self).state(), NodeRef::TryPart(try_part)),
    {
        self.visit_node(NodeRef::TryPart(try_part))
    }

    /// Called on a statement, before the walk goes on below it.
    fn dart_statement(&mut self, statement: Node<Statement>) -> (walk: Walk)
        ensures
            (final(self).state(), walk)
                == Self::react(old(self).state(), NodeRef::Statement(statement)),
    {
        self.visit_node(NodeRef::Statement(statement))
    }

    /// Called on the statements of a block, before the walk goes on below it.
    fn dart_block(&mut self, statements: &Vec<Node<Statement>>) -> (walk: Walk)
        ensures
            (final(self).state(), walk)
                == Self::react(old(self).state(), NodeRef::Block(statements)),
    {
        self.visit_node(NodeRef::Block(statements))
    }

    /// Called on a variable definition, before the walk goes on below it.
    fn dart_var_def(&mut self, var: Node<VarDef>) -> (walk: Walk)
        ensures
            (final(self).state(), walk) == Self::react(old(self).state(), NodeRef::VarDef(var)),
    {
        self.visit_node(NodeRef::VarDef(var))
    }

    /// Called on an expression, before the walk goes on below it.
    fn dart_expr(&mut self, expr: Node<Expr>) -> (walk: Walk)
        ensures
            (final(self).state(), walk) == Self::react(old(self).state(), NodeRef::Expr(expr)),
    {
        self.visit_node(NodeRef::Expr(expr))
    }

    /// Called on an argument list, before the walk goes on below it.
    fn dart_args(&mut self, args: &Args) -> (walk: Walk)
        ensures
            (final(self).state(), walk) == Self::react(old(self).state(), NodeRef::Args(args)),
    {
        self.visit_node(NodeRef::Args(args))
    }

    /// Called on a suffix, before the walk goes on below it.
    fn dart_suffix(&mut self, suffix: &Suffix) -> (walk: Walk)
        ensures
            (final(self).state(), walk) == Self::react(old(self).state(), NodeRef::Suffix(suffix)),
    {
        self.visit_node(NodeRef::Suffix(suffix))
    }

    /// Called on a string literal, before the walk goes on below it.
    fn dart_string_literal(&mut self, string_literal: &StringLiteral) -> (walk: Walk)
        ensures
            (final(self).state(), walk)
                == Self::react(old(self).state(), NodeRef::StringLiteral(string_literal)),
    {
        self.visit_node(NodeRef::StringLiteral(string_literal))
    }
}

/// The walk over a kind of node that lives behind a handle.
pub trait VisitNode: Sized {
    /// The node as a hook gets it.
    spec fn as_node_ref(node: Node<Self>) -> NodeRef<'static>;

    /// Walks `node`: the hook first, then, unless it skips, the children.
    fn visit<V: Visitor>(node: Node<Self>, visitor: &mut V)
        ensures
            final(visitor).state() == walk::<V>(old(visitor).state(), Self::as_node_ref(node)),
        decreases node, 1int,
    ;

    /// Walks the children of `node` in the order of their declaration, without
    /// calling the hook for `node` itself.
    fn super_visit<V: Visitor>(node: Node<Self>, visitor: &mut V)
        ensures
            final(visitor).state() == walk_below::<V>(
                old(visitor).state(),
                Self::as_node_ref(node),
            ),
        decreases node, 0int,
    ;
}

/// The walk over a kind of node that is held in place, and over a handle.
pub trait Visit {
    /// The node as a hook gets it.
    spec fn as_node_ref(&self) -> NodeRef<'_>;

    /// Walks the node: the hook first, then, unless it skips, the children.
    fn visit<V: Visitor>(&self, visitor: &mut V)
        ensures
            final(visitor).state() == walk::<V>(old(visitor).state(), self.as_node_ref()),
        decreases self, 1int,
    ;

    /// Walks the children of the node in the order of their declaration,
    /// without calling the hook for the node itself.
    fn super_visit<V: Visitor>(&self, visitor: &mut V)
        ensures
            final(visitor).state() == walk_below::<V>(old(visitor).state(), self.as_node_ref()),
        decreases self, 0int,
    ;
}

impl<T: VisitNode> Visit for Node<T> {
    open spec fn as_node_ref(&self) -> NodeRef<'_> {
        T::as_node_ref(*self)
    }

    fn visit<V: Visitor>(&self, visitor: &mut V) {
        T::visit(self.clone(), visitor)
    }

    fn super_visit<V: Visitor>(&self, visitor: &mut V) {
        T::super_visit(self.clone(), visitor)
    }
}

impl VisitNode for Module {
    open spec fn as_node_ref(node: Node<Self>) -> NodeRef<'static> {
        NodeRef::Module(node)
    }

    fn visit<V: Visitor>(node: Node<Self>, visitor: &mut V)
        ensures
            final(visitor).state() == walk_module::<V>(old(visitor).state(), node),
        decreases node, 1int,
    {
        match visitor.dart_module(node.clone()) {
            Walk::Descend => Self::super_visit(node, visitor),
            Walk::Skip => {},
        }
    }

    fn super_visit<V: Visitor>(node: Node<Self>, visitor: &mut V)
        ensures
            final(visitor).state() == walk_module_below::<V>(old(visitor).state(), node),
        decreases node, 0int,
    {
        let module = node.get();
        visit_items(&module.items, visitor);
    }
}

impl VisitNode for Item {
    open spec fn as_node_ref(node: Node<Self>) -> NodeRef<'static> {
        NodeRef::Item(node)
    }

    fn visit<V: Visitor>(node: Node<Self>, visitor: &mut V)
        ensures
            final(visitor).state() == walk_item::<V>(old(visitor).state(), node),
        decreases node, 1int,
    {
        match visitor.dart_item(node.clone()) {
            Walk::Descend => Self::super_visit(node, visitor),
            Walk::Skip => {},
        }
    }

    fn super_visit<V: Visitor>(node: Node<Self>, visitor: &mut V)
        ensures
            final(visitor).state() == walk_item_below::<V>(old(visitor).state(), node),
        decreases node, 0int,
    {
        match node.get() {
            Item::LibraryName { metadata, .. } => {
                metadata.visit(visitor);
            },
            Item::Import(metadata, import) => {
                metadata.visit(visitor);
                import.uri.visit(visitor);
            },
            Item::Export(metadata, uri, _) => {
                metadata.visit(visitor);
                uri.visit(visitor);
            },
            Item::Part { metadata, uri, module } => {
                metadata.visit(visitor);
                uri.visit(visitor);
                Module::visit(module.clone(), visitor);
            },
            Item::PartOf { metadata, .. } => {
                metadata.visit(visitor);
            },
            Item::Class { metadata, generics, superclass, mixins, interfaces, members, .. } => {
                metadata.visit(visitor);
                generics.visit(visitor);
                if let Some(child) = superclass {
                    Qualified::visit(child.clone(), visitor);
                }
                visit_qualified_names(mixins, visitor);
                visit_qualified_names(interfaces, visitor);
                visit_class_members(members, visitor);
            },
            Item::MixinClass { metadata, generics, mixins, interfaces, .. } => {
                metadata.visit(visitor);
                generics.visit(visitor);
                visit_qualified_names(mixins, visitor);
                visit_qualified_names(interfaces, visitor);
            },
            Item::Enum { metadata, .. } => {
                metadata.visit(visitor);
            },
            Item::TypeAlias { metadata, generics, ty, .. } => {
                metadata.visit(visitor);
                generics.visit(visitor);
                Type::visit(ty.clone(), visitor);
            },
            Item::Function(function) => {
                Function::visit(function.clone(), visitor);
            },
            Item::Vars(var_type, vars) => {
                Type::visit(var_type.ty.clone(), visitor);
                visit_var_defs(vars, visitor);
            },
        }
    }
}

impl VisitNode for ClassMember {
    open spec fn as_node_ref(node: Node<Self>) -> NodeRef<'static> {
        NodeRef::ClassMember(node)
    }

    fn visit<V: Visitor>(node: Node<Self>, visitor: &mut V)
        ensures
            final(visitor).state() == walk_class_member::<V>(old(visitor).state(), node),
        decreases node, 1int,
    {
        match visitor.dart_class_member(node.clone()) {
            Walk::Descend => Self::super_visit(node, visitor),
            Walk::Skip => {},
        }
    }

    fn super_visit<V: Visitor>(node: Node<Self>, visitor: &mut V)
        ensures
            final(visitor).state() == walk_class_member_below::<V>(old(visitor).state(), node),
        decreases node, 0int,
    {
        match node.get() {
            ClassMember::Redirect { metadata, sig, ty, .. } => {
                metadata.visit(visitor);
                sig.visit(visitor);
                Type::visit(ty.clone(), visitor);
            },
            ClassMember::Constructor { metadata, sig, initializers, function_body, .. } => {
                metadata.visit(visitor);
                sig.visit(visitor);
                visit_constructor_initializers(initializers, visitor);
                if let Some(child) = function_body {
                    child.visit(visitor);
                }
            },
            ClassMember::Method(metadata, _, function) => {
                metadata.visit(visitor);
                Function::visit(function.clone(), visitor);
            },
            ClassMember::Fields { metadata, var_type, initializers, .. } => {
                metadata.visit(visitor);
                Type::visit(var_type.ty.clone(), visitor);
                visit_var_defs(initializers, visitor);
            },
        }
    }
}

impl Visit for ConstructorInitializer {
    open spec fn as_node_ref(&self) -> NodeRef<'_> {
        NodeRef::ConstructorInitializer(self)
    }

    fn visit<V: Visitor>(&self, visitor: &mut V)
        ensures
            final(visitor).state()
                == walk_constructor_initializer::<V>(old(visitor).state(), *self),
        decreases self, 1int,
    {
        match visitor.dart_constructor_initializer(self) {
            Walk::Descend => self.super_visit(visitor),
            Walk::Skip => {},
        }
    }

    fn super_visit<V: Visitor>(&self, visitor: &mut V)
        ensures
            final(visitor).state()
                == walk_constructor_initializer_below::<V>(old(visitor).state(), *self),
        decreases self, 0int,
    {
        match self {
            ConstructorInitializer::Super(_, args) => {
                args.visit(visitor);
            },
            ConstructorInitializer::This(_, args) => {
                args.visit(visitor);
            },
            ConstructorInitializer::Assert(args) => {
                args.visit(visitor);
            },
            ConstructorInitializer::Field(_, _, value) => {
                Expr::visit(value.clone(), visitor);
            },
        }
    }
}

impl Visit for Metadata {
    open spec fn as_node_ref(&self) -> NodeRef<'_> {
        NodeRef::Meta(self)
    }

    fn visit<V: Visitor>(&self, visitor: &mut V)
        ensures
            final(visitor).state() == walk_meta::<V>(old(visitor).state(), *self),
        decreases self, 1int,
    {
        match visitor.dart_meta(self) {
            Walk::Descend => self.super_visit(visitor),
            Walk::Skip => {},
        }
    }

    fn super_visit<V: Visitor>(&self, visitor: &mut V)
        ensures
            final(visitor).state() == walk_meta_below::<V>(old(visitor).state(), *self),
        decreases self, 0int,
    {
        visit_metadata_items(self, visitor);
    }
}

impl VisitNode for Qualified {
    open spec fn as_node_ref(node: Node<Self>) -> NodeRef<'static> {
        NodeRef::Qualified(node)
    }

    fn visit<V: Visitor>(node: Node<Self>, visitor: &mut V)
        ensures
            final(visitor).state() == walk_qualified::<V>(old(visitor).state(), node),
        decreases node, 1int,
    {
        match visitor.dart_qualified(node.clone()) {
            Walk::Descend => Self::super_visit(node, visitor),
            Walk::Skip => {},
        }
    }

    fn super_visit<V: Visitor>(node: Node<Self>, visitor: &mut V)
        ensures
            final(visitor).state() == walk_qualified_below::<V>(old(visitor).state(), node),
        decreases node, 0int,
    {
        let qualified = node.get();
        if let Some(child) = &qualified.prefix {
            Qualified::visit(child.clone(), visitor);
        }
        visit_types(&qualified.params, visitor);
    }
}

impl Visit for Vec<Node<TypeParameter>> {
    open spec fn as_node_ref(&self) -> NodeRef<'_> {
        NodeRef::Generics(self)
    }

    fn visit<V: Visitor>(&self, visitor: &mut V)
        ensures
            final(visitor).state() == walk_generics::<V>(old(visitor).state(), *self),
        decreases self, 1int,
    {
        match visitor.dart_generics(self) {
            Walk::Descend => self.super_visit(visitor),
            Walk::Skip => {},
        }
    }

    fn super_visit<V: Visitor>(&self, visitor: &mut V)
        ensures
            final(visitor).state() == walk_generics_below::<V>(old(visitor).state(), *self),
        decreases self, 0int,
    {
        visit_type_parameters(self, visitor);
    }
}

impl VisitNode for Type {
    open spec fn as_node_ref(node: Node<Self>) -> NodeRef<'static> {
        NodeRef::Type(node)
    }

    fn visit<V: Visitor>(node: Node<Self>, visitor: &mut V)
        ensures
            final(visitor).state() == walk_type::<V>(old(visitor).state(), node),
        decreases node, 1int,
    {
        match visitor.dart_type(node.clone()) {
            Walk::Descend => Self::super_visit(node, visitor),
            Walk::Skip => {},
        }
    }

    fn super_visit<V: Visitor>(node: Node<Self>, visitor: &mut V)
        ensures
            final(visitor).state() == walk_type_below::<V>(old(visitor).state(), node),
        decreases node, 0int,
    {
        match node.get() {
            Type::Path(qualified) => {
                Qualified::visit(qualified.clone(), visitor);
            },
            Type::FunctionOld(sig) => {
                sig.visit(visitor);
            },
            Type::Function(sig) => {
                sig.visit(visitor);
            },
            Type::Infer => {},
        }
    }
}

impl VisitNode for Function {
    open spec fn as_node_ref(node: Node<Self>) -> NodeRef<'static> {
        NodeRef::Function(node)
    }

    fn visit<V: Visitor>(node: Node<Self>, visitor: &mut V)
        ensures
            final(visitor).state() == walk_function::<V>(old(visitor).state(), node),
        decreases node, 1int,
    {
        match visitor.dart_function(node.clone()) {
            Walk::Descend => Self::super_visit(node, visitor),
            Walk::Skip => {},
        }
    }

    fn super_visit<V: Visitor>(node: Node<Self>, visitor: &mut V)
        ensures
            final(visitor).state() == walk_function_below::<V>(old(visitor).state(), node),
        decreases node, 0int,
    {
        let function = node.get();
        function.generics.visit(visitor);
        function.sig.visit(visitor);
        if let Some(child) = &function.body {
            child.visit(visitor);
        }
    }
}

impl Visit for FnSig {
    open spec fn as_node_ref(&self) -> NodeRef<'_> {
        NodeRef::FnSig(self)
    }

    fn visit<V: Visitor>(&self, visitor: &mut V)
        ensures
            final(visitor).state() == walk_fn_sig::<V>(old(visitor).state(), *self),
        decreases self, 1int,
    {
        match visitor.dart_fn_sig(self) {
            Walk::Descend => self.super_visit(visitor),
            Walk::Skip => {},
        }
    }

    fn super_visit<V: Visitor>(&self, visitor: &mut V)
        ensures
            final(visitor).state() == walk_fn_sig_below::<V>(old(visitor).state(), *self),
        decreases self, 0int,
    {
        Type::visit(self.return_type.clone(), visitor);
        visit_arg_defs(&self.required, visitor);
        visit_arg_defs(&self.optional, visitor);
    }
}

impl Visit for FnBody {
    open spec fn as_node_ref(&self) -> NodeRef<'_> {
        NodeRef::FnBody(self)
    }

    fn visit<V: Visitor>(&self, visitor: &mut V)
        ensures
            final(visitor).state() == walk_fn_body::<V>(old(visitor).state(), *self),
        decreases self, 1int,
    {
        match visitor.dart_fn_body(self) {
            Walk::Descend => self.super_visit(visitor),
            Walk::Skip => {},
        }
    }

    fn super_visit<V: Visitor>(&self, visitor: &mut V)
        ensures
            final(visitor).state() == walk_fn_body_below::<V>(old(visitor).state(), *self),
        decreases self, 0int,
    {
        match self {
            FnBody::Arrow(value) => {
                Expr::visit(value.clone(), visitor);
            },
            FnBody::Block(block) => {
                Statement::visit(block.clone(), visitor);
            },
            FnBody::Native(name) => {
                if let Some(child) = name {
                    child.visit(visitor);
                }
            },
        }
    }
}

impl Visit for TryPart {
    open spec fn as_node_ref(&self) -> NodeRef<'_> {
        NodeRef::TryPart(self)
    }

    fn visit<V: Visitor>(&self, visitor: &mut V)
        ensures
            final(visitor).state() == walk_try_part::<V>(old(visitor).state(), *self),
        decreases self, 1int,
    {
        match visitor.dart_try_part(self) {
            Walk::Descend => self.super_visit(visitor),
            Walk::Skip => {},
        }
    }

    fn super_visit<V: Visitor>(&self, visitor: &mut V)
        ensures
            final(visitor).state() == walk_try_part_below::<V>(old(visitor).state(), *self),
        decreases self, 0int,
    {
        if let Some(child) = &self.on {
            Type::visit(child.clone(), visitor);
        }
        if let Some(child) = &self.catch {
            visit_catch_part(child, visitor);
        }
        Statement::visit(self.block.clone(), visitor);
    }
}

impl VisitNode for Statement {
    open spec fn as_node_ref(node: Node<Self>) -> NodeRef<'static> {
        NodeRef::Statement(node)
    }

    fn visit<V: Visitor>(node: Node<Self>, visitor: &mut V)
        ensures
            final(visitor).state() == walk_statement::<V>(old(visitor).state(), node),
        decreases node, 1int,
    {
        match visitor.dart_statement(node.clone()) {
            Walk::Descend => Self::super_visit(node, visitor),
            Walk::Skip => {},
        }
    }

    fn super_visit<V: Visitor>(node: Node<Self>, visitor: &mut V)
        ensures
            final(visitor).state() == walk_statement_below::<V>(old(visitor).state(), node),
        decreases node, 0int,
    {
        match node.get() {
            Statement::Block(statements) => {
                statements.visit(visitor);
            },
            Statement::Vars(var_type, vars) => {
                Type::visit(var_type.ty.clone(), visitor);
                visit_var_defs(vars, visitor);
            },
            Statement::Function(function) => {
                Function::visit(function.clone(), visitor);
            },
            Statement::For(_, for_loop, body) => {
                visit_for_loop(for_loop, visitor);
                Statement::visit(body.clone(), visitor);
            },
            Statement::While(condition, body) => {
                Expr::visit(condition.clone(), visitor);
                Statement::visit(body.clone(), visitor);
            },
            Statement::DoWhile(body, condition) => {
                Statement::visit(body.clone(), visitor);
                Expr::visit(condition.clone(), visitor);
            },
            Statement::Switch(subject, cases) => {
                Expr::visit(subject.clone(), visitor);
                visit_switch_cases(cases, visitor);
            },
            Statement::If(condition, consequent, alternative) => {
                Expr::visit(condition.clone(), visitor);
                Statement::visit(consequent.clone(), visitor);
                if let Some(child) = alternative {
                    Statement::visit(child.clone(), visitor);
                }
            },
            Statement::Rethrow => {},
            Statement::Try(body, parts) => {
                Statement::visit(body.clone(), visitor);
                visit_try_parts(parts, visitor);
            },
            Statement::Break(_) => {},
            Statement::Continue(_) => {},
            Statement::Return(value) => {
                if let Some(child) = value {
                    Expr::visit(child.clone(), visitor);
                }
            },
            Statement::Yield(value) => {
                Expr::visit(value.clone(), visitor);
            },
            Statement::YieldEach(value) => {
                Expr::visit(value.clone(), visitor);
            },
            Statement::Expression(value) => {
                if let Some(child) = value {
                    Expr::visit(child.clone(), visitor);
                }
            },
            Statement::Assert(args) => {
                args.visit(visitor);
            },
            Statement::Labelled(_, body) => {
                Statement::visit(body.clone(), visitor);
            },
        }
    }
}

impl Visit for Vec<Node<Statement>> {
    open spec fn as_node_ref(&self) -> NodeRef<'_> {
        NodeRef::Block(self)
    }

    fn visit<V: Visitor>(&self, visitor: &mut V)
        ensures
            final(visitor).state() == walk_block::<V>(old(visitor).state(), *self),
        decreases self, 1int,
    {
        match visitor.dart_block(self) {
            Walk::Descend => self.super_visit(visitor),
            Walk::Skip => {},
        }
    }

    fn super_visit<V: Visitor>(&self, visitor: &mut V)
        ensures
            final(visitor).state() == walk_block_below::<V>(old(visitor).state(), *self),
        decreases self, 0int,
    {
        visit_statements(self, visitor);
    }
}

impl VisitNode for VarDef {
    open spec fn as_node_ref(node: Node<Self>) -> NodeRef<'static> {
        NodeRef::VarDef(node)
    }

    fn visit<V: Visitor>(node: Node<Self>, visitor: &mut V)
        ensures
            final(visitor).state() == walk_var_def::<V>(old(visitor).state(), node),
        decreases node, 1int,
    {
        match visitor.dart_var_def(node.clone()) {
            Walk::Descend => Self::super_visit(node, visitor),
            Walk::Skip => {},
        }
    }

    fn super_visit<V: Visitor>(node: Node<Self>, visitor: &mut V)
        ensures
            final(visitor).state() == walk_var_def_below::<V>(old(visitor).state(), node),
        decreases node, 0int,
    {
        let var = node.get();
        if let Some(child) = &var.init {
            Expr::visit(child.clone(), visitor);
        }
    }
}

impl VisitNode for Expr {
    open spec fn as_node_ref(node: Node<Self>) -> NodeRef<'static> {
        NodeRef::Expr(node)
    }

    fn visit<V: Visitor>(node: Node<Self>, visitor: &mut V)
        ensures
            final(visitor).state() == walk_expr::<V>(old(visitor).state(), node),
        decreases node, 1int,
    {
        match visitor.dart_expr(node.clone()) {
            Walk::Descend => Self::super_visit(node, visitor),
            Walk::Skip => {},
        }
    }

    fn super_visit<V: Visitor>(node: Node<Self>, visitor: &mut V)
        ensures
            final(visitor).state() == walk_expr_below::<V>(old(visitor).state(), node),
        decreases node, 0int,
    {
        match node.get() {
            Expr::Unary(_, operand) => {
                Expr::visit(operand.clone(), visitor);
            },
            Expr::Binary(_, left, right) => {
                Expr::visit(left.clone(), visitor);
                Expr::visit(right.clone(), visitor);
            },
            Expr::Conditional(condition, consequent, alternative) => {
                Expr::visit(condition.clone(), visitor);
                Expr::visit(consequent.clone(), visitor);
                Expr::visit(alternative.clone(), visitor);
            },
            Expr::Is(value, ty) => {
                Expr::visit(value.clone(), visitor);
                Type::visit(ty.clone(), visitor);
            },
            Expr::IsNot(value, ty) => {
                Expr::visit(value.clone(), visitor);
                Type::visit(ty.clone(), visitor);
            },
            Expr::As(value, ty) => {
                Expr::visit(value.clone(), visitor);
                Type::visit(ty.clone(), visitor);
            },
            Expr::Suffix(value, suffix) => {
                Expr::visit(value.clone(), visitor);
                suffix.visit(visitor);
            },
            Expr::Identifier(_) => {},
            Expr::Closure(sig, body) => {
                sig.visit(visitor);
                body.visit(visitor);
            },
            Expr::New { path, args, .. } => {
                Qualified::visit(path.clone(), visitor);
                args.visit(visitor);
            },
            Expr::List { element_ty, elements, .. } => {
                if let Some(child) = element_ty {
                    Type::visit(child.clone(), visitor);
                }
                visit_exprs(elements, visitor);
            },
            Expr::MapLiteral { kv_ty, kv, .. } => {
                if let Some(child) = kv_ty {
                    visit_type_pair(child, visitor);
                }
                visit_map_entries(kv, visitor);
            },
            Expr::Number(_) => {},
            Expr::String(literals) => {
                visit_string_literals(literals, visitor);
            },
            Expr::Symbol(_) => {},
            Expr::Paren(inner) => {
                Expr::visit(inner.clone(), visitor);
            },
            Expr::Throw(value) => {
                Expr::visit(value.clone(), visitor);
            },
            Expr::Cascade(value, cascade) => {
                Expr::visit(value.clone(), visitor);
                visit_cascade(cascade, visitor);
            },
        }
    }
}

impl Visit for Args {
    open spec fn as_node_ref(&self) -> NodeRef<'_> {
        NodeRef::Args(self)
    }

    fn visit<V: Visitor>(&self, visitor: &mut V)
        ensures
            final(visitor).state() == walk_args::<V>(old(visitor).state(), *self),
        decreases self, 1int,
    {
        match visitor.dart_args(self) {
            Walk::Descend => self.super_visit(visitor),
            Walk::Skip => {},
        }
    }

    fn super_visit<V: Visitor>(&self, visitor: &mut V)
        ensures
            final(visitor).state() == walk_args_below::<V>(old(visitor).state(), *self),
        decreases self, 0int,
    {
        visit_exprs(&self.unnamed, visitor);
        visit_named_args(&self.named, visitor);
    }
}

impl Visit for Suffix {
    open spec fn as_node_ref(&self) -> NodeRef<'_> {
        NodeRef::Suffix(self)
    }

    fn visit<V: Visitor>(&self, visitor: &mut V)
        ensures
            final(visitor).state() == walk_suffix::<V>(old(visitor).state(), *self),
        decreases self, 1int,
    {
        match visitor.dart_suffix(self) {
            Walk::Descend => self.super_visit(visitor),
            Walk::Skip => {},
        }
    }

    fn super_visit<V: Visitor>(&self, visitor: &mut V)
        ensures
            final(visitor).state() == walk_suffix_below::<V>(old(visitor).state(), *self),
        decreases self, 0int,
    {
        match self {
            Suffix::Index(index) => {
                Expr::visit(index.clone(), visitor);
            },
            Suffix::Field(_) => {},
            Suffix::FieldIfNotNull(_) => {},
            Suffix::Call(types, args) => {
                visit_types(types, visitor);
                args.visit(visitor);
            },
        }
    }
}

impl Visit for StringLiteral {
    open spec fn as_node_ref(&self) -> NodeRef<'_> {
        NodeRef::StringLiteral(self)
    }

    fn visit<V: Visitor>(&self, visitor: &mut V)
        ensures
            final(visitor).state() == walk_string_literal::<V>(old(visitor).state(), *self),
        decreases self, 1int,
    {
        match visitor.dart_string_literal(self) {
            Walk::Descend => self.super_visit(visitor),
            Walk::Skip => {},
        }
    }

    fn super_visit<V: Visitor>(&self, visitor: &mut V)
        ensures
            final(visitor).state() == walk_string_literal_below::<V>(old(visitor).state(), *self),
        decreases self, 0int,
    {
        visit_interpolations(&self.interpolated, visitor);
    }
}

/// Walks one annotation.
fn visit_metadata_item<V: Visitor>(item: &MetadataItem, visitor: &mut V)
    ensures
        final(visitor).state() == walk_metadata_item::<V>(old(visitor).state(), *item),
    decreases item, 0int,
{
    Qualified::visit(item.qualified.clone(), visitor);
    if let Some(child) = &item.arguments {
        child.visit(visitor);
    }
}

/// Walks one type parameter.
fn visit_type_parameter<V: Visitor>(parameter: &Node<TypeParameter>, visitor: &mut V)
    ensures
        final(visitor).state() == walk_type_parameter::<V>(old(visitor).state(), *parameter),
    decreases parameter, 0int,
{
    let parameter = parameter.get();
    parameter.metadata.visit(visitor);
    if let Some(child) = &parameter.extends {
        Qualified::visit(child.clone(), visitor);
    }
}

/// Walks one parameter of a function.
fn visit_arg_def<V: Visitor>(arg: &ArgDef, visitor: &mut V)
    ensures
        final(visitor).state() == walk_arg_def::<V>(old(visitor).state(), *arg),
    decreases arg, 0int,
{
    arg.metadata.visit(visitor);
    Type::visit(arg.ty.ty.clone(), visitor);
    VarDef::visit(arg.var.clone(), visitor);
}

/// Walks the head of a `for` loop.
fn visit_for_loop<V: Visitor>(for_loop: &ForLoop, visitor: &mut V)
    ensures
        final(visitor).state() == walk_for_loop::<V>(old(visitor).state(), *for_loop),
    decreases for_loop, 0int,
{
    match for_loop {
        ForLoop::CLike(init, condition, updates) => {
            Statement::visit(init.clone(), visitor);
            if let Some(child) = condition {
                Expr::visit(child.clone(), visitor);
            }
            visit_exprs(updates, visitor);
        },
        ForLoop::In(_, iterable) => {
            Expr::visit(iterable.clone(), visitor);
        },
        ForLoop::InVar(var_type, var, iterable) => {
            Type::visit(var_type.ty.clone(), visitor);
            VarDef::visit(var.clone(), visitor);
            Expr::visit(iterable.clone(), visitor);
        },
    }
}

/// Walks one case of a `switch`.
fn visit_switch_case<V: Visitor>(case: &SwitchCase, visitor: &mut V)
    ensures
        final(visitor).state() == walk_switch_case::<V>(old(visitor).state(), *case),
    decreases case, 0int,
{
    if let Some(child) = &case.value {
        Expr::visit(child.clone(), visitor);
    }
    visit_statements(&case.statements, visitor);
}

/// Walks the binders of a catch clause.
fn visit_catch_part<V: Visitor>(catch: &CatchPart, visitor: &mut V)
    ensures
        final(visitor).state() == walk_catch_part::<V>(old(visitor).state(), *catch),
    decreases catch, 0int,
{
    VarDef::visit(catch.exception.clone(), visitor);
    if let Some(child) = &catch.trace {
        VarDef::visit(child.clone(), visitor);
    }
}

/// Walks the key and value types of a map literal.
fn visit_type_pair<V: Visitor>(pair: &(Node<Type>, Node<Type>), visitor: &mut V)
    ensures
        final(visitor).state() == walk_type_pair::<V>(old(visitor).state(), *pair),
    decreases pair, 0int,
{
    Type::visit(pair.0.clone(), visitor);
    Type::visit(pair.1.clone(), visitor);
}

/// Walks one entry of a map literal.
fn visit_map_entry<V: Visitor>(entry: &(Node<Expr>, Node<Expr>), visitor: &mut V)
    ensures
        final(visitor).state() == walk_map_entry::<V>(old(visitor).state(), *entry),
    decreases entry, 0int,
{
    Expr::visit(entry.0.clone(), visitor);
    Expr::visit(entry.1.clone(), visitor);
}

/// Walks one section of a cascade.
fn visit_cascade<V: Visitor>(cascade: &Cascade, visitor: &mut V)
    ensures
        final(visitor).state() == walk_cascade::<V>(old(visitor).state(), *cascade),
    decreases cascade, 0int,
{
    visit_suffixes(&cascade.suffixes, visitor);
    if let Some(child) = &cascade.assign {
        visit_cascade_assign(child, visitor);
    }
}

/// Walks the assignment that ends a cascade section.
fn visit_cascade_assign<V: Visitor>(assign: &(Option<ValueBinOp>, Node<Expr>), visitor: &mut V)
    ensures
        final(visitor).state() == walk_cascade_assign::<V>(old(visitor).state(), *assign),
    decreases assign, 0int,
{
    Expr::visit(assign.1.clone(), visitor);
}

/// Walks one named argument.
fn visit_named_arg<V: Visitor>(arg: &NamedArg, visitor: &mut V)
    ensures
        final(visitor).state() == walk_named_arg::<V>(old(visitor).state(), *arg),
    decreases arg, 0int,
{
    Expr::visit(arg.expr.clone(), visitor);
}

/// Walks one interpolation of a string literal.
fn visit_interpolation<V: Visitor>(part: &(Node<Expr>, Span), visitor: &mut V)
    ensures
        final(visitor).state() == walk_interpolation::<V>(old(visitor).state(), *part),
    decreases part, 0int,
{
    Expr::visit(part.0.clone(), visitor);
}

/// Walks top-level declarations, first to last.
fn visit_items<V: Visitor>(items: &Vec<Node<Item>>, visitor: &mut V)
    ensures
        final(visitor).state() == walk_items::<V>(old(visitor).state(), items@),
    decreases items@, 0int,
{
    let mut i: usize = 0;
    while i < items.len()
        invariant
            i <= items.len(),
            visitor.state() == walk_items::<V>(old(visitor).state(), items@.take(i as int)),
        decreases items.len() - i,
    {
        assert(items@.take(i + 1).drop_last() == items@.take(i as int));
        Item::visit(items[i].clone(), visitor);
        i += 1;
    }
    assert(items@.take(i as int) == items@);
}

/// Walks annotations, first to last.
fn visit_metadata_items<V: Visitor>(annotations: &Vec<MetadataItem>, visitor: &mut V)
    ensures
        final(visitor).state() == walk_metadata_items::<V>(old(visitor).state(), annotations@),
    decreases annotations@, 0int,
{
    let mut i: usize = 0;
    while i < annotations.len()
        invariant
            i <= annotations.len(),
            visitor.state()
                == walk_metadata_items::<V>(old(visitor).state(), annotations@.take(i as int)),
        decreases annotations.len() - i,
    {
        assert(annotations@.take(i + 1).drop_last() == annotations@.take(i as int));
        visit_metadata_item(&annotations[i], visitor);
        i += 1;
    }
    assert(annotations@.take(i as int) == annotations@);
}

/// Walks type parameters, first to last.
fn visit_type_parameters<V: Visitor>(parameters: &Vec<Node<TypeParameter>>, visitor: &mut V)
    ensures
        final(visitor).state() == walk_type_parameters::<V>(old(visitor).state(), parameters@),
    decreases parameters@, 0int,
{
    let mut i: usize = 0;
    while i < parameters.len()
        invariant
            i <= parameters.len(),
            visitor.state()
                == walk_type_parameters::<V>(old(visitor).state(), parameters@.take(i as int)),
        decreases parameters.len() - i,
    {
        assert(parameters@.take(i + 1).drop_last() == parameters@.take(i as int));
        visit_type_parameter(&parameters[i], visitor);
        i += 1;
    }
    assert(parameters@.take(i as int) == parameters@);
}

/// Walks qualified names, first to last.
fn visit_qualified_names<V: Visitor>(names: &Vec<Node<Qualified>>, visitor: &mut V)
    ensures
        final(visitor).state() == walk_qualified_names::<V>(old(visitor).state(), names@),
    decreases names@, 0int,
{
    let mut i: usize = 0;
    while i < names.len()
        invariant
            i <= names.len(),
            visitor.state()
                == walk_qualified_names::<V>(old(visitor).state(), names@.take(i as int)),
        decreases names.len() - i,
    {
        assert(names@.take(i + 1).drop_last() == names@.take(i as int));
        Qualified::visit(names[i].clone(), visitor);
        i += 1;
    }
    assert(names@.take(i as int) == names@);
}

/// Walks class members, first to last.
fn visit_class_members<V: Visitor>(members: &Vec<Node<ClassMember>>, visitor: &mut V)
    ensures
        final(visitor).state() == walk_class_members::<V>(old(visitor).state(), members@),
    decreases members@, 0int,
{
    let mut i: usize = 0;
    while i < members.len()
        invariant
            i <= members.len(),
            visitor.state()
                == walk_class_members::<V>(old(visitor).state(), members@.take(i as int)),
        decreases members.len() - i,
    {
        assert(members@.take(i + 1).drop_last() == members@.take(i as int));
        ClassMember::visit(members[i].clone(), visitor);
        i += 1;
    }
    assert(members@.take(i as int) == members@);
}

/// Walks variable definitions, first to last.
fn visit_var_defs<V: Visitor>(vars: &Vec<Node<VarDef>>, visitor: &mut V)
    ensures
        final(visitor).state() == walk_var_defs::<V>(old(visitor).state(), vars@),
    decreases vars@, 0int,
{
    let mut i: usize = 0;
    while i < vars.len()
        invariant
            i <= vars.len(),
            visitor.state() == walk_var_defs::<V>(old(visitor).state(), vars@.take(i as int)),
        decreases vars.len() - i,
    {
        assert(vars@.take(i + 1).drop_last() == vars@.take(i as int));
        VarDef::visit(vars[i].clone(), visitor);
        i += 1;
    }
    assert(vars@.take(i as int) == vars@);
}

/// Walks types, first to last.
fn visit_types<V: Visitor>(types: &Vec<Node<Type>>, visitor: &mut V)
    ensures
        final(visitor).state() == walk_types::<V>(old(visitor).state(), types@),
    decreases types@, 0int,
{
    let mut i: usize = 0;
    while i < types.len()
        invariant
            i <= types.len(),
            visitor.state() == walk_types::<V>(old(visitor).state(), types@.take(i as int)),
        decreases types.len() - i,
    {
        assert(types@.take(i + 1).drop_last() == types@.take(i as int));
        Type::visit(types[i].clone(), visitor);
        i += 1;
    }
    assert(types@.take(i as int) == types@);
}

/// Walks constructor initializers, first to last.
fn visit_constructor_initializers<V: Visitor>(
    initializers: &Vec<ConstructorInitializer>,
    visitor: &mut V,
)
    ensures
        final(visitor).state()
            == walk_constructor_initializers::<V>(old(visitor).state(), initializers@),
    decreases initializers@, 0int,
{
    let mut i: usize = 0;
    while i < initializers.len()
        invariant
            i <= initializers.len(),
            visitor.state() == walk_constructor_initializers::<V>(
                old(visitor).state(),
                initializers@.take(i as int),
            ),
        decreases initializers.len() - i,
    {
        assert(initializers@.take(i + 1).drop_last() == initializers@.take(i as int));
        initializers[i].visit(visitor);
        i += 1;
    }
    assert(initializers@.take(i as int) == initializers@);
}

/// Walks parameters of a function, first to last.
fn visit_arg_defs<V: Visitor>(args: &Vec<ArgDef>, visitor: &mut V)
    ensures
        final(visitor).state() == walk_arg_defs::<V>(old(visitor).state(), args@),
    decreases args@, 0int,
{
    let mut i: usize = 0;
    while i < args.len()
        invariant
            i <= args.len(),
            visitor.state() == walk_arg_defs::<V>(old(visitor).state(), args@.take(i as int)),
        decreases args.len() - i,
    {
        assert(args@.take(i + 1).drop_last() == args@.take(i as int));
        visit_arg_def(&args[i], visitor);
        i += 1;
    }
    assert(args@.take(i as int) == args@);
}

/// Walks expressions, first to last.
fn visit_exprs<V: Visitor>(exprs: &Vec<Node<Expr>>, visitor: &mut V)
    ensures
        final(visitor).state() == walk_exprs::<V>(old(visitor).state(), exprs@),
    decreases exprs@, 0int,
{
    let mut i: usize = 0;
    while i < exprs.len()
        invariant
            i <= exprs.len(),
            visitor.state() == walk_exprs::<V>(old(visitor).state(), exprs@.take(i as int)),
        decreases exprs.len() - i,
    {
        assert(exprs@.take(i + 1).drop_last() == exprs@.take(i as int));
        Expr::visit(exprs[i].clone(), visitor);
        i += 1;
    }
    assert(exprs@.take(i as int) == exprs@);
}

/// Walks statements, first to last.
fn visit_statements<V: Visitor>(statements: &Vec<Node<Statement>>, visitor: &mut V)
    ensures
        final(visitor).state() == walk_statements::<V>(old(visitor).state(), statements@),
    decreases statements@, 0int,
{
    let mut i: usize = 0;
    while i < statements.len()
        invariant
            i <= statements.len(),
            visitor.state()
                == walk_statements::<V>(old(visitor).state(), statements@.take(i as int)),
        decreases statements.len() - i,
    {
        assert(statements@.take(i + 1).drop_last() == statements@.take(i as int));
        Statement::visit(statements[i].clone(), visitor);
        i += 1;
    }
    assert(statements@.take(i as int) == statements@);
}

/// Walks cases of a `switch`, first to last.
fn visit_switch_cases<V: Visitor>(cases: &Vec<SwitchCase>, visitor: &mut V)
    ensures
        final(visitor).state() == walk_switch_cases::<V>(old(visitor).state(), cases@),
    decreases cases@, 0int,
{
    let mut i: usize = 0;
    while i < cases.len()
        invariant
            i <= cases.len(),
            visitor.state() == walk_switch_cases::<V>(old(visitor).state(), cases@.take(i as int)),
        decreases cases.len() - i,
    {
        assert(cases@.take(i + 1).drop_last() == cases@.take(i as int));
        visit_switch_case(&cases[i], visitor);
        i += 1;
    }
    assert(cases@.take(i as int) == cases@);
}

/// Walks catch clauses, first to last.
fn visit_try_parts<V: Visitor>(parts: &Vec<TryPart>, visitor: &mut V)
    ensures
        final(visitor).state() == walk_try_parts::<V>(old(visitor).state(), parts@),
    decreases parts@, 0int,
{
    let mut i: usize = 0;
    while i < parts.len()
        invariant
            i <= parts.len(),
            visitor.state() == walk_try_parts::<V>(old(visitor).state(), parts@.take(i as int)),
        decreases parts.len() - i,
    {
        assert(parts@.take(i + 1).drop_last() == parts@.take(i as int));
        parts[i].visit(visitor);
        i += 1;
    }
    assert(parts@.take(i as int) == parts@);
}

/// Walks named arguments, first to last.
fn visit_named_args<V: Visitor>(args: &Vec<NamedArg>, visitor: &mut V)
    ensures
        final(visitor).state() == walk_named_args::<V>(old(visitor).state(), args@),
    decreases args@, 0int,
{
    let mut i: usize = 0;
    while i < args.len()
        invariant
            i <= args.len(),
            visitor.state() == walk_named_args::<V>(old(visitor).state(), args@.take(i as int)),
        decreases args.len() - i,
    {
        assert(args@.take(i + 1).drop_last() == args@.take(i as int));
        visit_named_arg(&args[i], visitor);
        i += 1;
    }
    assert(args@.take(i as int) == args@);
}

/// Walks suffixes, first to last.
fn visit_suffixes<V: Visitor>(suffixes: &Vec<Suffix>, visitor: &mut V)
    ensures
        final(visitor).state() == walk_suffixes::<V>(old(visitor).state(), suffixes@),
    decreases suffixes@, 0int,
{
    let mut i: usize = 0;
    while i < suffixes.len()
        invariant
            i <= suffixes.len(),
            visitor.state() == walk_suffixes::<V>(old(visitor).state(), suffixes@.take(i as int)),
        decreases suffixes.len() - i,
    {
        assert(suffixes@.take(i + 1).drop_last() == suffixes@.take(i as int));
        suffixes[i].visit(visitor);
        i += 1;
    }
    assert(suffixes@.take(i as int) == suffixes@);
}

/// Walks string literals, first to last.
fn visit_string_literals<V: Visitor>(literals: &Vec<StringLiteral>, visitor: &mut V)
    ensures
        final(visitor).state() == walk_string_literals::<V>(old(visitor).state(), literals@),
    decreases literals@, 0int,
{
    let mut i: usize = 0;
    while i < literals.len()
        invariant
            i <= literals.len(),
            visitor.state()
                == walk_string_literals::<V>(old(visitor).state(), literals@.take(i as int)),
        decreases literals.len() - i,
    {
        assert(literals@.take(i + 1).drop_last() == literals@.take(i as int));
        literals[i].visit(visitor);
        i += 1;
    }
    assert(literals@.take(i as int) == literals@);
}

/// Walks entries of a map literal, first to last.
fn visit_map_entries<V: Visitor>(entries: &Vec<(Node<Expr>, Node<Expr>)>, visitor: &mut V)
    ensures
        final(visitor).state() == walk_map_entries::<V>(old(visitor).state(), entries@),
    decreases entries@, 0int,
{
    let mut i: usize = 0;
    while i < entries.len()
        invariant
            i <= entries.len(),
            visitor.state() == walk_map_entries::<V>(old(visitor).state(), entries@.take(i as int)),
        decreases entries.len() - i,
    {
        assert(entries@.take(i + 1).drop_last() == entries@.take(i as int));
        visit_map_entry(&entries[i], visitor);
        i += 1;
    }
    assert(entries@.take(i as int) == entries@);
}

/// Walks interpolations of a string literal, first to last.
fn visit_interpolations<V: Visitor>(parts: &Vec<(Node<Expr>, Span)>, visitor: &mut V)
    ensures
        final(visitor).state() == walk_interpolations::<V>(old(visitor).state(), parts@),
    decreases parts@, 0int,
{
    let mut i: usize = 0;
    while i < parts.len()
        invariant
            i <= parts.len(),
            visitor.state()
                == walk_interpolations::<V>(old(visitor).state(), parts@.take(i as int)),
        decreases parts.len() - i,
    {
        assert(parts@.take(i + 1).drop_last() == parts@.take(i as int));
        visit_interpolation(&parts[i], visitor);
        i += 1;
    }
    assert(parts@.take(i as int) == parts@);
}

} // verus!
