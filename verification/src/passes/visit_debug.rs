//! A syntax tree as lines of text for a person to read: one pair of tags for
//! each node, two spaces deeper for each level.
use crate::ast::{
    clauses_view, nodes_view, type_option_view, AstNode, AstPattern, BinOp, LiteralValue,
    LiteralView, NodeView, PatternView, Type, TypeView,
};
use crate::parse_error::{decimal_string, decimal_text};
use vstd::prelude::*;

verus! {

/// The values of a list of lines, in order.
pub open spec fn lines_view(lines: Seq<String>) -> Seq<Seq<char>> {
    Seq::new(lines.len(), |i: int| lines[i]@)
}

/// The indentation one level below `indent`.
pub open spec fn deeper(indent: Seq<char>) -> Seq<char> {
    indent + "  "@
}

/// The name of an operator.
pub open spec fn op_text(op: BinOp) -> Seq<char> {
    match op {
        BinOp::Add => "Add"@,
        BinOp::Sub => "Sub"@,
        BinOp::Mul => "Mul"@,
        BinOp::Div => "Div"@,
        BinOp::Lt => "Lt"@,
        BinOp::Lte => "Lte"@,
        BinOp::Gt => "Gt"@,
        BinOp::Gte => "Gte"@,
        BinOp::Eq => "Eq"@,
        BinOp::Neq => "Neq"@,
    }
}

/// A type written as a term: the name of its shape, with its parts in
/// parentheses.
pub open spec fn type_text(t: TypeView) -> Seq<char>
    decreases t,
{
    match t {
        TypeView::Int => "Int"@,
        TypeView::Bool => "Bool"@,
        TypeView::Char => "Char"@,
        TypeView::String => "String"@,
        TypeView::Var(name) => "Var(\""@ + name + "\")"@,
        TypeView::Arrow(a, b) => "Arrow("@ + type_text(*a) + ", "@ + type_text(*b) + ")"@,
        TypeView::Product(a, b) => "Product("@ + type_text(*a) + ", "@ + type_text(*b) + ")"@,
    }
}

/// `out` with the two lines of an optional type annotation.
pub open spec fn type_onto(out: Seq<Seq<char>>, typ: Option<TypeView>, indent: Seq<char>) -> Seq<
    Seq<char>,
> {
    match typ {
        Some(t) => out.push(indent + "<type value=\""@ + type_text(t) + "\">"@).push(
            indent + "</type>"@,
        ),
        None => out.push(indent + "<type value=\"none\">"@).push(indent + "</type>"@),
    }
}

/// `out` with the lines of a pattern.
pub open spec fn pattern_onto(out: Seq<Seq<char>>, p: PatternView, indent: Seq<char>) -> Seq<
    Seq<char>,
>
    decreases p,
{
    match p {
        PatternView::Literal => out.push(indent + "<literal_pattern>"@).push(
            indent + "</literal_pattern>"@,
        ),
        PatternView::Id(name) => out.push(indent + "<id_pattern value=\""@ + name + "\">"@).push(
            indent + "</id_pattern>"@,
        ),
        PatternView::Wildcard => out.push(indent + "<wildcard_pattern>"@).push(
            indent + "</wildcard_pattern>"@,
        ),
        PatternView::Var(name) => out.push(indent + "<var_pattern value=\""@ + name + "\">"@).push(
            indent + "</var_pattern>"@,
        ),
        PatternView::Pair(a, b) => pattern_onto(
            pattern_onto(out.push(indent + "<pair_pattern>"@), *a, deeper(indent)),
            *b,
            deeper(indent),
        ).push(indent + "</pair_pattern>"@),
    }
}

/// The text of a literal.
pub open spec fn literal_value(lit: LiteralView) -> Seq<char> {
    match lit {
        LiteralView::Integer(s) => s,
        LiteralView::Boolean(s) => s,
        LiteralView::String(s) => s,
    }
}

/// The name of the type of a literal.
pub open spec fn literal_type(lit: LiteralView) -> Seq<char> {
    match lit {
        LiteralView::Integer(_) => "int"@,
        LiteralView::Boolean(_) => "bool"@,
        LiteralView::String(_) => "string"@,
    }
}

/// `out` with the line of a literal, which stands one level below `indent`.
pub open spec fn literal_onto(out: Seq<Seq<char>>, lit: LiteralView, indent: Seq<char>) -> Seq<
    Seq<char>,
> {
    out.push(
        deeper(indent) + "<literal val=\""@ + literal_value(lit) + "\" ty=\""@ + literal_type(lit)
            + "\" />"@,
    )
}

/// `out` with the lines of a node between an opening and a closing tag.
pub open spec fn tagged_onto(
    out: Seq<Seq<char>>,
    open: Seq<char>,
    n: NodeView,
    close: Seq<char>,
    indent: Seq<char>,
) -> Seq<Seq<char>>
    decreases n, 1nat,
{
    node_onto(out.push(indent + open), n, indent).push(indent + close)
}

/// `out` with the lines of a node.
pub open spec fn node_onto(out: Seq<Seq<char>>, n: NodeView, indent: Seq<char>) -> Seq<Seq<char>>
    decreases n, 0nat,
{
    let inner = deeper(indent);
    match n {
        NodeView::Program(decls) => nodes_onto(
            out.push(indent + "<program>"@),
            decls,
            decls.len(),
            inner,
        ).push(indent + "</program>"@),
        NodeView::ValDecl { pat, typ, exp } => node_onto(
            type_onto(pattern_onto(out.push(indent + "<val_decl>"@), pat, inner), typ, inner),
            *exp,
            inner,
        ).push(indent + "</val_decl>"@),
        NodeView::FunDecl { name, clauses, typ } => clauses_onto(
            type_onto(out.push(indent + "<fun_decl name=\""@ + name + "\">"@), typ, inner),
            clauses,
            clauses.len(),
            inner,
        ).push(indent + "</fun_decl>"@),
        NodeView::If { cond, then, else_ } => tagged_onto(
            tagged_onto(
                tagged_onto(out.push(indent + "<if>"@), "<condition>"@, *cond, "</condition>"@, inner),
                "<then>"@,
                *then,
                "</then>"@,
                inner,
            ),
            "<else>"@,
            *else_,
            "</else>"@,
            inner,
        ).push(indent + "</if>"@),
        NodeView::Let { decl, body } => tagged_onto(
            tagged_onto(out.push(indent + "<let>"@), "<decl>"@, *decl, "</decl>"@, inner),
            "<body>"@,
            *body,
            "</body>"@,
            inner,
        ).push(indent + "</let>"@),
        NodeView::Fn { clauses } => clauses_onto(
            out.push(indent + "<fn>"@),
            clauses,
            clauses.len(),
            inner,
        ).push(indent + "</fn>"@),
        NodeView::BinOp { left, op, right } => tagged_onto(
            tagged_onto(
                out.push(indent + "<bin_op op=\""@ + op_text(op) + "\">"@),
                "<left>"@,
                *left,
                "</left>"@,
                inner,
            ),
            "<right>"@,
            *right,
            "</right>"@,
            inner,
        ).push(indent + "</bin_op>"@),
        NodeView::App { func, arg } => tagged_onto(
            tagged_onto(out.push(indent + "<app>"@), "<func>"@, *func, "</func>"@, inner),
            "<arg>"@,
            *arg,
            "</arg>"@,
            inner,
        ).push(indent + "</app>"@),
        NodeView::Id(name) => out.push(indent + "<id value=\""@ + name + "\">"@).push(
            indent + "</id>"@,
        ),
        NodeView::Var(name) => out.push(indent + "<var value=\""@ + name + "\">"@).push(
            indent + "</var>"@,
        ),
        NodeView::Tuple(items) => nodes_onto(
            out.push(indent + "<tuple size=\""@ + decimal_text(items.len()) + "\">"@),
            items,
            items.len(),
            inner,
        ).push(indent + "</tuple>"@),
        NodeView::List(items) => nodes_onto(
            out.push(indent + "<list size=\""@ + decimal_text(items.len()) + "\">"@),
            items,
            items.len(),
            inner,
        ).push(indent + "</list>"@),
        NodeView::Literal(lit) => literal_onto(out, lit, indent),
    }
}

/// `out` with the lines of the first `count` nodes of a list.
pub open spec fn nodes_onto(
    out: Seq<Seq<char>>,
    nodes: Seq<NodeView>,
    count: nat,
    indent: Seq<char>,
) -> Seq<Seq<char>>
    decreases nodes, count,
{
    if count == 0 || count > nodes.len() {
        out
    } else {
        node_onto(nodes_onto(out, nodes, (count - 1) as nat, indent), nodes[count - 1], indent)
    }
}

/// `out` with the lines of the first `count` clauses of a list: each clause
/// between its tags, pattern and body one level deeper.
pub open spec fn clauses_onto(
    out: Seq<Seq<char>>,
    clauses: Seq<(PatternView, NodeView)>,
    count: nat,
    indent: Seq<char>,
) -> Seq<Seq<char>>
    decreases clauses, count,
{
    if count == 0 || count > clauses.len() {
        out
    } else {
        let before = clauses_onto(out, clauses, (count - 1) as nat, indent);
        let clause = clauses[count - 1];
        node_onto(
            pattern_onto(before.push(indent + "<clause>"@), clause.0, deeper(indent)),
            clause.1,
            deeper(indent),
        ).push(indent + "</clause>"@)
    }
}

/// The lines of a tree, without indentation at its root.
pub open spec fn node_lines(n: NodeView) -> Seq<Seq<char>> {
    node_onto(Seq::empty(), n, Seq::empty())
}

/// Appends one line: `indent` and `text`.
fn emit(out: &mut Vec<String>, indent: &String, text: &str)
    ensures
        lines_view(final(out)@) == lines_view(old(out)@).push(indent@ + text@),
{
    let mut line = indent.clone();
    line.append(text);
    out.push(line);
    assert(lines_view(out@) =~= lines_view(old(out)@).push(indent@ + text@));
}

/// Appends one line: `indent`, then `value` between `before` and `after`.
fn emit_with(out: &mut Vec<String>, indent: &String, before: &str, value: &str, after: &str)
    ensures
        lines_view(final(out)@) == lines_view(old(out)@).push(
            indent@ + before@ + value@ + after@,
        ),
{
    let mut line = indent.clone();
    line.append(before);
    line.append(value);
    line.append(after);
    out.push(line);
    assert(lines_view(out@) =~= lines_view(old(out)@).push(indent@ + before@ + value@ + after@));
}

/// The indentation one level below `indent`.
fn deeper_indent(indent: &String) -> (r: String)
    ensures
        r@ == deeper(indent@),
{
    let mut inner = indent.clone();
    inner.append("  ");
    inner
}

/// The name of an operator.
fn op_name(op: BinOp) -> (r: &'static str)
    ensures
        r@ == op_text(op),
{
    match op {
        BinOp::Add => "Add",
        BinOp::Sub => "Sub",
        BinOp::Mul => "Mul",
        BinOp::Div => "Div",
        BinOp::Lt => "Lt",
        BinOp::Lte => "Lte",
        BinOp::Gt => "Gt",
        BinOp::Gte => "Gte",
        BinOp::Eq => "Eq",
        BinOp::Neq => "Neq",
    }
}

/// A type written as a term.
pub fn type_string(t: &Type) -> (r: String)
    ensures
        r@ == type_text(t@),
    decreases t,
{
    match t {
        Type::Int => String::from_str("Int"),
        Type::Bool => String::from_str("Bool"),
        Type::Char => String::from_str("Char"),
        Type::String => String::from_str("String"),
        Type::Var(name) => {
            let mut out = String::from_str("Var(\"");
            out.append(name.as_str());
            out.append("\")");
            out
        },
        Type::Arrow(a, b) => {
            let left = type_string(a);
            let right = type_string(b);
            let mut out = String::from_str("Arrow(");
            out.append(left.as_str());
            out.append(", ");
            out.append(right.as_str());
            out.append(")");
            out
        },
        Type::Product(a, b) => {
            let left = type_string(a);
            let right = type_string(b);
            let mut out = String::from_str("Product(");
            out.append(left.as_str());
            out.append(", ");
            out.append(right.as_str());
            out.append(")");
            out
        },
    }
}

/// Appends the lines of an optional type annotation.
fn render_type(out: &mut Vec<String>, typ: &Option<Type>, indent: &String)
    ensures
        lines_view(final(out)@) == type_onto(
            lines_view(old(out)@),
            type_option_view(*typ),
            indent@,
        ),
{
    match typ {
        Some(t) => {
            let text = type_string(t);
            emit_with(out, indent, "<type value=\"", text.as_str(), "\">");
        },
        None => {
            emit(out, indent, "<type value=\"none\">");
        },
    }
    emit(out, indent, "</type>");
}

/// Appends the lines of a pattern.
fn render_pattern(out: &mut Vec<String>, p: &AstPattern, indent: &String)
    ensures
        lines_view(final(out)@) == pattern_onto(lines_view(old(out)@), p@, indent@),
    decreases p,
{
    match p {
        AstPattern::Literal => {
            emit(out, indent, "<literal_pattern>");
            emit(out, indent, "</literal_pattern>");
        },
        AstPattern::Id(name) => {
            emit_with(out, indent, "<id_pattern value=\"", name.as_str(), "\">");
            emit(out, indent, "</id_pattern>");
        },
        AstPattern::Wildcard => {
            emit(out, indent, "<wildcard_pattern>");
            emit(out, indent, "</wildcard_pattern>");
        },
        AstPattern::Var(name) => {
            emit_with(out, indent, "<var_pattern value=\"", name.as_str(), "\">");
            emit(out, indent, "</var_pattern>");
        },
        AstPattern::Pair(first, second) => {
            let inner = deeper_indent(indent);
            emit(out, indent, "<pair_pattern>");
            render_pattern(out, first, &inner);
            render_pattern(out, second, &inner);
            emit(out, indent, "</pair_pattern>");
        },
    }
}

/// Appends the line of a literal.
fn render_literal(out: &mut Vec<String>, lit: &LiteralValue, indent: &String)
    ensures
        lines_view(final(out)@) == literal_onto(lines_view(old(out)@), lit@, indent@),
{
    let inner = deeper_indent(indent);
    let mut line = inner;
    line.append("<literal val=\"");
    match lit {
        LiteralValue::Integer(s) => {
            line.append(s.as_str());
            line.append("\" ty=\"");
            line.append("int");
        },
        LiteralValue::Boolean(s) => {
            line.append(s.as_str());
            line.append("\" ty=\"");
            line.append("bool");
        },
        LiteralValue::String(s) => {
            line.append(s.as_str());
            line.append("\" ty=\"");
            line.append("string");
        },
    }
    line.append("\" />");
    out.push(line);
    assert(lines_view(out@) =~= literal_onto(lines_view(old(out)@), lit@, indent@));
}

/// Appends the lines of a node between an opening and a closing tag.
fn render_tagged(out: &mut Vec<String>, open: &str, node: &AstNode, close: &str, indent: &String)
    ensures
        lines_view(final(out)@) == tagged_onto(
            lines_view(old(out)@),
            open@,
            node@,
            close@,
            indent@,
        ),
    decreases node, 1nat,
{
    emit(out, indent, open);
    render_node(out, node, indent);
    emit(out, indent, close);
}

/// Appends the lines of the nodes of a list.
fn render_nodes(out: &mut Vec<String>, nodes: &Vec<Box<AstNode>>, indent: &String)
    ensures
        lines_view(final(out)@) == nodes_onto(
            lines_view(old(out)@),
            nodes_view(nodes@),
            nodes@.len(),
            indent@,
        ),
    decreases nodes@, 0nat,
{
    let mut i: usize = 0;
    while i < nodes.len()
        invariant
            i <= nodes.len(),
            lines_view(out@) == nodes_onto(
                lines_view(old(out)@),
                nodes_view(nodes@),
                i as nat,
                indent@,
            ),
        decreases nodes.len() - i,
    {
        let node: &AstNode = &nodes[i];
        render_node(out, node, indent);
        i += 1;
    }
}

/// Appends the lines of the clauses of a list.
fn render_clauses(
    out: &mut Vec<String>,
    clauses: &Vec<(AstPattern, Box<AstNode>)>,
    indent: &String,
)
    ensures
        lines_view(final(out)@) == clauses_onto(
            lines_view(old(out)@),
            clauses_view(clauses@),
            clauses@.len(),
            indent@,
        ),
    decreases clauses@, 0nat,
{
    let inner = deeper_indent(indent);
    let mut i: usize = 0;
    while i < clauses.len()
        invariant
            i <= clauses.len(),
            inner@ == deeper(indent@),
            lines_view(out@) == clauses_onto(
                lines_view(old(out)@),
                clauses_view(clauses@),
                i as nat,
                indent@,
            ),
        decreases clauses.len() - i,
    {
        let body: &AstNode = &clauses[i].1;
        emit(out, indent, "<clause>");
        render_pattern(out, &clauses[i].0, &inner);
        render_node(out, body, &inner);
        emit(out, indent, "</clause>");
        i += 1;
    }
}

/// Appends the lines of a node.
fn render_node(out: &mut Vec<String>, node: &AstNode, indent: &String)
    ensures
        lines_view(final(out)@) == node_onto(lines_view(old(out)@), node@, indent@),
    decreases node, 0nat,
{
    let inner = deeper_indent(indent);
    match node {
        AstNode::Program(decls) => {
            emit(out, indent, "<program>");
            render_nodes(out, decls, &inner);
            emit(out, indent, "</program>");
        },
        AstNode::ValDecl { pat, typ, exp } => {
            emit(out, indent, "<val_decl>");
            render_pattern(out, pat, &inner);
            render_type(out, typ, &inner);
            render_node(out, exp, &inner);
            emit(out, indent, "</val_decl>");
        },
        AstNode::FunDecl { name, clauses, typ } => {
            emit_with(out, indent, "<fun_decl name=\"", name.as_str(), "\">");
            render_type(out, typ, &inner);
            render_clauses(out, clauses, &inner);
            emit(out, indent, "</fun_decl>");
        },
        AstNode::If { cond, then, else_ } => {
            emit(out, indent, "<if>");
            render_tagged(out, "<condition>", cond, "</condition>", &inner);
            render_tagged(out, "<then>", then, "</then>", &inner);
            render_tagged(out, "<else>", else_, "</else>", &inner);
            emit(out, indent, "</if>");
        },
        AstNode::Let { decl, body } => {
            emit(out, indent, "<let>");
            render_tagged(out, "<decl>", decl, "</decl>", &inner);
            render_tagged(out, "<body>", body, "</body>", &inner);
            emit(out, indent, "</let>");
        },
        AstNode::Fn { clauses } => {
            emit(out, indent, "<fn>");
            render_clauses(out, clauses, &inner);
            emit(out, indent, "</fn>");
        },
        AstNode::BinOp { left, op, right } => {
            emit_with(out, indent, "<bin_op op=\"", op_name(*op), "\">");
            render_tagged(out, "<left>", left, "</left>", &inner);
            render_tagged(out, "<right>", right, "</right>", &inner);
            emit(out, indent, "</bin_op>");
        },
        AstNode::App { func, arg } => {
            emit(out, indent, "<app>");
            render_tagged(out, "<func>", func, "</func>", &inner);
            render_tagged(out, "<arg>", arg, "</arg>", &inner);
            emit(out, indent, "</app>");
        },
        AstNode::Id(name) => {
            emit_with(out, indent, "<id value=\"", name.as_str(), "\">");
            emit(out, indent, "</id>");
        },
        AstNode::Var(name) => {
            emit_with(out, indent, "<var value=\"", name.as_str(), "\">");
            emit(out, indent, "</var>");
        },
        AstNode::Tuple(items) => {
            let size = decimal_string(items.len());
            emit_with(out, indent, "<tuple size=\"", size.as_str(), "\">");
            render_nodes(out, items, &inner);
            emit(out, indent, "</tuple>");
        },
        AstNode::List(items) => {
            let size = decimal_string(items.len());
            emit_with(out, indent, "<list size=\"", size.as_str(), "\">");
            render_nodes(out, items, &inner);
            emit(out, indent, "</list>");
        },
        AstNode::Literal(lit) => {
            render_literal(out, lit, indent);
        },
    }
}

/// Collects the lines that show the trees it visits.
pub struct DebugVisitor {
    pub lines: Vec<String>,
}

impl DebugVisitor {
    /// A visitor that has seen nothing.
    pub fn new() -> (r: Self)
        ensures
            r.lines@ == Seq::<String>::empty(),
    {
        DebugVisitor { lines: Vec::new() }
    }

    /// Appends the lines of `ast`, with its root at the left margin. The
    /// visit always succeeds.
    pub fn visit(&mut self, ast: &AstNode) -> (r: Result<(), String>)
        ensures
            r is Ok,
            lines_view(final(self).lines@) == node_onto(
                lines_view(old(self).lines@),
                ast@,
                Seq::empty(),
            ),
    {
        let margin = String::new();
        render_node(&mut self.lines, ast, &margin);
        Ok(())
    }
}

} // verus!
