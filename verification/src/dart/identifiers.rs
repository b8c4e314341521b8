//! Which identifiers a tree uses, and a visitor that finds them.
//!
//! `IdentifierCollector` takes note of identifier expressions and leaves
//! everything else to the walk. That it ends up with every identifier of the
//! tree, in order, shows that the structure of the tree alone leads a walk to
//! every node.

use crate::dart::ast::{Expr, Module};
use crate::dart::preorder::{lemma_walk_in_preorder, preorder, react_all};
use crate::dart::visit::{NodeRef, VisitNode, Visitor, Walk};
use crate::dart::walk::walk;
use crate::node::Node;
use crate::source::Symbol;
use vstd::prelude::*;

verus! {

/// The identifier that `node` is, if it is an identifier expression.
pub open spec fn identifier_of(node: NodeRef<'_>) -> Option<Symbol> {
    match node {
        NodeRef::Expr(expr) => match expr@ {
            Expr::Identifier(name) => Some(name),
            _ => None,
        },
        _ => None,
    }
}

/// The identifiers among `nodes`, first to last.
pub open spec fn identifiers_among(nodes: Seq<NodeRef<'static>>) -> Seq<Symbol>
    decreases nodes.len(),
{
    if nodes.len() == 0 {
        Seq::empty()
    } else {
        match identifier_of(nodes.last()) {
            Some(name) => identifiers_among(nodes.drop_last()).push(name),
            None => identifiers_among(nodes.drop_last()),
        }
    }
}

/// The identifiers used at and below `node`, in the order of a walk.
pub open spec fn identifiers(node: NodeRef<'_>) -> Seq<Symbol> {
    identifiers_among(preorder(node))
}

/// A visitor that gathers the identifiers used as expressions, in the order in
/// which a walk meets them.
pub struct IdentifierCollector {
    pub names: Vec<Symbol>,
}

impl IdentifierCollector {
    /// A collector that has gathered nothing yet.
    pub fn new() -> (collector: IdentifierCollector)
        ensures
            collector.names@ == Seq::<Symbol>::empty(),
    {
        IdentifierCollector { names: Vec::new() }
    }

    /// The identifiers that a module uses, first to last.
    pub fn collect(module: Node<Module>) -> (names: Vec<Symbol>)
        ensures
            names@ == identifiers(NodeRef::Module(module)),
    {
        let mut collector = IdentifierCollector::new();
        proof {
            lemma_walk_collects_identifiers(collector.names@, NodeRef::Module(module));
        }
        Module::visit(module, &mut collector);
        collector.names
    }
}

impl Visitor for IdentifierCollector {
    type State = Seq<Symbol>;

    open spec fn state(&self) -> Seq<Symbol> {
        self.names@
    }

    open spec fn react(state: Seq<Symbol>, node: NodeRef<'_>) -> (Seq<Symbol>, Walk) {
        match identifier_of(node) {
            Some(name) => (state.push(name), Walk::Descend),
            None => (state, Walk::Descend),
        }
    }

    fn visit_node(&mut self, node: NodeRef<'_>) -> (walk: Walk) {
        match node {
            NodeRef::Expr(expr) => self.dart_expr(expr),
            _ => Walk::Descend,
        }
    }

    fn dart_expr(&mut self, expr: Node<Expr>) -> (walk: Walk) {
        if let Expr::Identifier(name) = expr.get() {
            self.names.push(name.clone());
        }
        Walk::Descend
    }
}

/// The hooks of the collector, called on `nodes`, add the identifiers among
/// them to what was collected.
proof fn lemma_react_all_collects(state: Seq<Symbol>, nodes: Seq<NodeRef<'static>>)
    ensures
        react_all::<IdentifierCollector>(state, nodes) == state + identifiers_among(nodes),
    decreases nodes.len(),
{
    reveal(react_all);
    if nodes.len() > 0 {
        lemma_react_all_collects(state, nodes.drop_last());
    }
}

/// A walk with the collector, from any state and over a node of any kind, adds
/// to what was collected exactly the identifiers at and below that node, in
/// the order of the walk. The collector overrides nothing but what concerns
/// identifier expressions: the structure of the tree alone leads the walk to
/// every one of them.
pub proof fn lemma_walk_collects_identifiers(state: Seq<Symbol>, node: NodeRef<'static>)
    ensures
        walk::<IdentifierCollector>(state, node) == state + identifiers(node),
{
    lemma_walk_in_preorder::<IdentifierCollector>(state, node);
    lemma_react_all_collects(state, preorder(node));
}

} // verus!
