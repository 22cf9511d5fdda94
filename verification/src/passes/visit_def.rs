//! The `val` declarations of a tree, in the order of the text.
//!
//! The walk goes into every node but a `val` declaration: what stands inside
//! one is not reported.
use crate::ast::{clauses_view, nodes_view, AstNode, AstPattern, NodeView, PatternView};
use crate::passes::visit_debug::lines_view;
use vstd::prelude::*;

verus! {

/// The line that reports a `val` declaration.
pub open spec fn val_decl_line() -> Seq<char> {
    "Visit val decl!"@
}

/// `out` with one line for each `val` declaration of a node.
pub open spec fn defs_onto(out: Seq<Seq<char>>, n: NodeView) -> Seq<Seq<char>>
    decreases n, 0nat,
{
    match n {
        NodeView::Program(decls) => node_defs_onto(out, decls, decls.len()),
        NodeView::ValDecl { .. } => out.push(val_decl_line()),
        NodeView::FunDecl { clauses, .. } => clause_defs_onto(out, clauses, clauses.len()),
        NodeView::If { cond, then, else_ } => defs_onto(
            defs_onto(defs_onto(out, *cond), *then),
            *else_,
        ),
        NodeView::Let { decl, body } => defs_onto(defs_onto(out, *decl), *body),
        NodeView::Fn { clauses } => clause_defs_onto(out, clauses, clauses.len()),
        NodeView::BinOp { left, right, .. } => defs_onto(defs_onto(out, *left), *right),
        NodeView::App { func, arg } => defs_onto(defs_onto(out, *func), *arg),
        NodeView::Tuple(items) => node_defs_onto(out, items, items.len()),
        NodeView::List(items) => node_defs_onto(out, items, items.len()),
        _ => out,
    }
}

/// `out` with one line for each `val` declaration of the first `count` nodes
/// of a list.
pub open spec fn node_defs_onto(out: Seq<Seq<char>>, nodes: Seq<NodeView>, count: nat) -> Seq<
    Seq<char>,
>
    decreases nodes, count,
{
    if count == 0 || count > nodes.len() {
        out
    } else {
        defs_onto(node_defs_onto(out, nodes, (count - 1) as nat), nodes[count - 1])
    }
}

/// `out` with one line for each `val` declaration of the bodies of the first
/// `count` clauses of a list.
pub open spec fn clause_defs_onto(
    out: Seq<Seq<char>>,
    clauses: Seq<(PatternView, NodeView)>,
    count: nat,
) -> Seq<Seq<char>>
    decreases clauses, count,
{
    if count == 0 || count > clauses.len() {
        out
    } else {
        defs_onto(clause_defs_onto(out, clauses, (count - 1) as nat), clauses[count - 1].1)
    }
}

/// Appends one line for each `val` declaration of the nodes of a list.
fn report_nodes(out: &mut Vec<String>, nodes: &Vec<Box<AstNode>>)
    ensures
        lines_view(final(out)@) == node_defs_onto(
            lines_view(old(out)@),
            nodes_view(nodes@),
            nodes@.len(),
        ),
    decreases nodes@, 0nat,
{
    let mut i: usize = 0;
    while i < nodes.len()
        invariant
            i <= nodes.len(),
            lines_view(out@) == node_defs_onto(
                lines_view(old(out)@),
                nodes_view(nodes@),
                i as nat,
            ),
        decreases nodes.len() - i,
    {
        let node: &AstNode = &nodes[i];
        report_node(out, node);
        i += 1;
    }
}

/// Appends one line for each `val` declaration of the bodies of the clauses
/// of a list.
fn report_clauses(out: &mut Vec<String>, clauses: &Vec<(AstPattern, Box<AstNode>)>)
    ensures
        lines_view(final(out)@) == clause_defs_onto(
            lines_view(old(out)@),
            clauses_view(clauses@),
            clauses@.len(),
        ),
    decreases clauses@, 0nat,
{
    let mut i: usize = 0;
    while i < clauses.len()
        invariant
            i <= clauses.len(),
            lines_view(out@) == clause_defs_onto(
                lines_view(old(out)@),
                clauses_view(clauses@),
                i as nat,
            ),
        decreases clauses.len() - i,
    {
        let body: &AstNode = &clauses[i].1;
        report_node(out, body);
        i += 1;
    }
}

/// Appends one line for each `val` declaration of a node.
fn report_node(out: &mut Vec<String>, node: &AstNode)
    ensures
        lines_view(final(out)@) == defs_onto(lines_view(old(out)@), node@),
    decreases node, 0nat,
{
    match node {
        AstNode::Program(decls) => {
            report_nodes(out, decls);
        },
        AstNode::ValDecl { .. } => {
            out.push(String::from_str("Visit val decl!"));
            assert(lines_view(out@) =~= lines_view(old(out)@).push(val_decl_line()));
        },
        AstNode::FunDecl { clauses, .. } => {
            report_clauses(out, clauses);
        },
        AstNode::If { cond, then, else_ } => {
            report_node(out, cond);
            report_node(out, then);
            report_node(out, else_);
        },
        AstNode::Let { decl, body } => {
            report_node(out, decl);
            report_node(out, body);
        },
        AstNode::Fn { clauses } => {
            report_clauses(out, clauses);
        },
        AstNode::BinOp { left, right, .. } => {
            report_node(out, left);
            report_node(out, right);
        },
        AstNode::App { func, arg } => {
            report_node(out, func);
            report_node(out, arg);
        },
        AstNode::Tuple(items) => {
            report_nodes(out, items);
        },
        AstNode::List(items) => {
            report_nodes(out, items);
        },
        _ => {},
    }
}

/// Collects a line for each `val` declaration of the trees it visits.
pub struct DefVisitor {
    pub lines: Vec<String>,
}

impl DefVisitor {
    /// A visitor that has seen nothing.
    pub fn new() -> (r: Self)
        ensures
            r.lines@ == Seq::<String>::empty(),
    {
        DefVisitor { lines: Vec::new() }
    }

    /// Appends one line for each `val` declaration of `ast` that stands in no
    /// other `val` declaration. The visit always succeeds.
    pub fn visit(&mut self, ast: &AstNode) -> (r: Result<(), String>)
        ensures
            r is Ok,
            lines_view(final(self).lines@) == defs_onto(lines_view(old(self).lines@), ast@),
    {
        report_node(&mut self.lines, ast);
        Ok(())
    }
}

} // verus!
