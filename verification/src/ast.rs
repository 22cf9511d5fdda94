use vstd::prelude::*;

verus! {

/// A binary operator of the expression language.
#[derive(Debug, Clone, Copy, PartialEq, Eq, Structural)]
pub enum BinOp {
    Add,
    Sub,
    Mul,
    Div,
    Lt,
    Lte,
    Gt,
    Gte,
    Eq,
    Neq,
}

/// A literal, kept as the text that the source held.
#[derive(Debug)]
pub enum LiteralValue {
    Integer(String),
    Boolean(String),
    String(String),
}

/// The mathematical value of a [`LiteralValue`].
pub enum LiteralView {
    Integer(Seq<char>),
    Boolean(Seq<char>),
    String(Seq<char>),
}

impl LiteralValue {
    /// The literal as a mathematical value.
    pub open spec fn view(&self) -> LiteralView {
        match self {
            LiteralValue::Integer(s) => LiteralView::Integer(s@),
            LiteralValue::Boolean(s) => LiteralView::Boolean(s@),
            LiteralValue::String(s) => LiteralView::String(s@),
        }
    }
}

impl Clone for LiteralValue {
    fn clone(&self) -> (r: Self)
        ensures
            r@ == self@,
    {
        match self {
            LiteralValue::Integer(s) => LiteralValue::Integer(s.clone()),
            LiteralValue::Boolean(s) => LiteralValue::Boolean(s.clone()),
            LiteralValue::String(s) => LiteralValue::String(s.clone()),
        }
    }
}

/// A type annotation.
#[derive(Debug)]
pub enum Type {
    Int,
    Bool,
    Char,
    String,
    Var(String),
    Arrow(Box<Type>, Box<Type>),
    Product(Box<Type>, Box<Type>),
}

/// The mathematical value of a [`Type`].
pub enum TypeView {
    Int,
    Bool,
    Char,
    String,
    Var(Seq<char>),
    Arrow(Box<TypeView>, Box<TypeView>),
    Product(Box<TypeView>, Box<TypeView>),
}

impl Type {
    /// The type as a mathematical value.
    pub open spec fn view(&self) -> TypeView
        decreases self,
    {
        match self {
            Type::Int => TypeView::Int,
            Type::Bool => TypeView::Bool,
            Type::Char => TypeView::Char,
            Type::String => TypeView::String,
            Type::Var(s) => TypeView::Var(s@),
            Type::Arrow(a, b) => TypeView::Arrow(Box::new(a.view()), Box::new(b.view())),
            Type::Product(a, b) => TypeView::Product(Box::new(a.view()), Box::new(b.view())),
        }
    }
}

impl Clone for Type {
    fn clone(&self) -> (r: Self)
        ensures
            r@ == self@,
        decreases self,
    {
        match self {
            Type::Int => Type::Int,
            Type::Bool => Type::Bool,
            Type::Char => Type::Char,
            Type::String => Type::String,
            Type::Var(s) => Type::Var(s.clone()),
            Type::Arrow(a, b) => Type::Arrow(Box::new((**a).clone()), Box::new((**b).clone())),
            Type::Product(a, b) => Type::Product(
                Box::new((**a).clone()),
                Box::new((**b).clone()),
            ),
        }
    }
}

/// The value of an optional type annotation.
pub open spec fn type_option_view(typ: Option<Type>) -> Option<TypeView> {
    match typ {
        Some(t) => Some(t@),
        None => None,
    }
}

/// A pattern on the left of a clause or of a `val` declaration.
#[derive(Debug)]
pub enum AstPattern {
    Literal,
    Id(String),
    Wildcard,
    Var(String),
    Pair(Box<AstPattern>, Box<AstPattern>),
}

/// The mathematical value of an [`AstPattern`].
pub enum PatternView {
    Literal,
    Id(Seq<char>),
    Wildcard,
    Var(Seq<char>),
    Pair(Box<PatternView>, Box<PatternView>),
}

impl AstPattern {
    /// The pattern as a mathematical value.
    pub open spec fn view(&self) -> PatternView
        decreases self,
    {
        match self {
            AstPattern::Literal => PatternView::Literal,
            AstPattern::Id(s) => PatternView::Id(s@),
            AstPattern::Wildcard => PatternView::Wildcard,
            AstPattern::Var(s) => PatternView::Var(s@),
            AstPattern::Pair(a, b) => PatternView::Pair(Box::new(a.view()), Box::new(b.view())),
        }
    }
}

impl Clone for AstPattern {
    fn clone(&self) -> (r: Self)
        ensures
            r@ == self@,
        decreases self,
    {
        match self {
            AstPattern::Literal => AstPattern::Literal,
            AstPattern::Id(s) => AstPattern::Id(s.clone()),
            AstPattern::Wildcard => AstPattern::Wildcard,
            AstPattern::Var(s) => AstPattern::Var(s.clone()),
            AstPattern::Pair(a, b) => AstPattern::Pair(
                Box::new((**a).clone()),
                Box::new((**b).clone()),
            ),
        }
    }
}

/// A node of the syntax tree. Each node owns its children.
#[derive(Debug)]
pub enum AstNode {
    Program(Vec<Box<AstNode>>),
    ValDecl { pat: AstPattern, typ: Option<Type>, exp: Box<AstNode> },
    FunDecl { name: String, clauses: Vec<(AstPattern, Box<AstNode>)>, typ: Option<Type> },
    If { cond: Box<AstNode>, then: Box<AstNode>, else_: Box<AstNode> },
    Let { decl: Box<AstNode>, body: Box<AstNode> },
    Fn { clauses: Vec<(AstPattern, Box<AstNode>)> },
    BinOp { left: Box<AstNode>, op: BinOp, right: Box<AstNode> },
    App { func: Box<AstNode>, arg: Box<AstNode> },
    Id(String),
    Var(String),
    Tuple(Vec<Box<AstNode>>),
    List(Vec<Box<AstNode>>),
    Literal(LiteralValue),
}

/// The mathematical value of an [`AstNode`]: the same tree over sequences.
pub enum NodeView {
    Program(Seq<NodeView>),
    ValDecl { pat: PatternView, typ: Option<TypeView>, exp: Box<NodeView> },
    FunDecl { name: Seq<char>, clauses: Seq<(PatternView, NodeView)>, typ: Option<TypeView> },
    If { cond: Box<NodeView>, then: Box<NodeView>, else_: Box<NodeView> },
    Let { decl: Box<NodeView>, body: Box<NodeView> },
    Fn { clauses: Seq<(PatternView, NodeView)> },
    BinOp { left: Box<NodeView>, op: BinOp, right: Box<NodeView> },
    App { func: Box<NodeView>, arg: Box<NodeView> },
    Id(Seq<char>),
    Var(Seq<char>),
    Tuple(Seq<NodeView>),
    List(Seq<NodeView>),
    Literal(LiteralView),
}

/// The values of a list of nodes, in order.
pub open spec fn nodes_view(nodes: Seq<Box<AstNode>>) -> Seq<NodeView>
    decreases nodes,
{
    Seq::new(nodes.len(), |i: int| if 0 <= i < nodes.len() { nodes[i].view() } else { NodeView::Tuple(Seq::empty()) })
}

/// The values of a list of clauses, in order.
pub open spec fn clauses_view(clauses: Seq<(AstPattern, Box<AstNode>)>) -> Seq<
    (PatternView, NodeView),
>
    decreases clauses,
{
    Seq::new(
        clauses.len(),
        |i: int| if 0 <= i < clauses.len() { (clauses[i].0@, clauses[i].1.view()) } else { (PatternView::Wildcard, NodeView::Tuple(Seq::empty())) },
    )
}

/// Appending a node appends its value.
pub proof fn lemma_nodes_view_push(nodes: Seq<Box<AstNode>>, node: Box<AstNode>)
    ensures
        nodes_view(nodes.push(node)) == nodes_view(nodes).push(node.view()),
{
    assert(nodes_view(nodes.push(node)) =~= nodes_view(nodes).push(node.view()));
}

/// The values of two lists joined are the values of each, joined.
pub proof fn lemma_nodes_view_concat(a: Seq<Box<AstNode>>, b: Seq<Box<AstNode>>)
    ensures
        nodes_view(a + b) == nodes_view(a) + nodes_view(b),
{
    assert(nodes_view(a + b) =~= nodes_view(a) + nodes_view(b));
}

/// Appending a clause appends its value.
pub proof fn lemma_clauses_view_push(
    clauses: Seq<(AstPattern, Box<AstNode>)>,
    clause: (AstPattern, Box<AstNode>),
)
    ensures
        clauses_view(clauses.push(clause)) == clauses_view(clauses).push(
            (clause.0@, clause.1.view()),
        ),
{
    assert(clauses_view(clauses.push(clause)) =~= clauses_view(clauses).push(
        (clause.0@, clause.1.view()),
    ));
}

impl AstNode {
    /// The tree as a mathematical value.
    pub open spec fn view(&self) -> NodeView
        decreases self,
    {
        match self {
            AstNode::Program(decls) => NodeView::Program(nodes_view(decls@)),
            AstNode::ValDecl { pat, typ, exp } => NodeView::ValDecl {
                pat: pat@,
                typ: type_option_view(*typ),
                exp: Box::new(exp.view()),
            },
            AstNode::FunDecl { name, clauses, typ } => NodeView::FunDecl {
                name: name@,
                clauses: clauses_view(clauses@),
                typ: type_option_view(*typ),
            },
            AstNode::If { cond, then, else_ } => NodeView::If {
                cond: Box::new(cond.view()),
                then: Box::new(then.view()),
                else_: Box::new(else_.view()),
            },
            AstNode::Let { decl, body } => NodeView::Let {
                decl: Box::new(decl.view()),
                body: Box::new(body.view()),
            },
            AstNode::Fn { clauses } => NodeView::Fn { clauses: clauses_view(clauses@) },
            AstNode::BinOp { left, op, right } => NodeView::BinOp {
                left: Box::new(left.view()),
                op: *op,
                right: Box::new(right.view()),
            },
            AstNode::App { func, arg } => NodeView::App {
                func: Box::new(func.view()),
                arg: Box::new(arg.view()),
            },
            AstNode::Id(s) => NodeView::Id(s@),
            AstNode::Var(s) => NodeView::Var(s@),
            AstNode::Tuple(items) => NodeView::Tuple(nodes_view(items@)),
            AstNode::List(items) => NodeView::List(nodes_view(items@)),
            AstNode::Literal(lit) => NodeView::Literal(lit@),
        }
    }
}

/// A copy of an optional type annotation.
fn clone_type_option(typ: &Option<Type>) -> (r: Option<Type>)
    ensures
        type_option_view(r) == type_option_view(*typ),
{
    match typ {
        Some(t) => Some(t.clone()),
        None => None,
    }
}

/// Copies of the nodes of a list, in order.
fn clone_nodes(nodes: &Vec<Box<AstNode>>) -> (r: Vec<Box<AstNode>>)
    ensures
        nodes_view(r@) == nodes_view(nodes@),
    decreases nodes@,
{
    let mut out: Vec<Box<AstNode>> = Vec::new();
    let mut i: usize = 0;
    while i < nodes.len()
        invariant
            i <= nodes.len(),
            out.len() == i,
            forall|k: int| 0 <= k < i ==> (#[trigger] out@[k]).view() == nodes@[k].view(),
        decreases nodes.len() - i,
    {
        let node: &AstNode = &nodes[i];
        out.push(Box::new(node.clone()));
        i += 1;
    }
    assert(nodes_view(out@) =~= nodes_view(nodes@));
    out
}

/// Copies of the clauses of a list, in order.
fn clone_clauses(clauses: &Vec<(AstPattern, Box<AstNode>)>) -> (r: Vec<(AstPattern, Box<AstNode>)>)
    ensures
        clauses_view(r@) == clauses_view(clauses@),
    decreases clauses@,
{
    let mut out: Vec<(AstPattern, Box<AstNode>)> = Vec::new();
    let mut i: usize = 0;
    while i < clauses.len()
        invariant
            i <= clauses.len(),
            out.len() == i,
            forall|k: int|
                0 <= k < i ==> (#[trigger] out@[k]).0@ == clauses@[k].0@ && out@[k].1.view()
                    == clauses@[k].1.view(),
        decreases clauses.len() - i,
    {
        let body: &AstNode = &clauses[i].1;
        out.push((clauses[i].0.clone(), Box::new(body.clone())));
        i += 1;
    }
    assert(clauses_view(out@) =~= clauses_view(clauses@));
    out
}

impl Clone for AstNode {
    fn clone(&self) -> (r: Self)
        ensures
            r@ == self@,
        decreases self,
    {
        match self {
            AstNode::Program(decls) => AstNode::Program(clone_nodes(decls)),
            AstNode::ValDecl { pat, typ, exp } => AstNode::ValDecl {
                pat: pat.clone(),
                typ: clone_type_option(typ),
                exp: Box::new((**exp).clone()),
            },
            AstNode::FunDecl { name, clauses, typ } => AstNode::FunDecl {
                name: name.clone(),
                clauses: clone_clauses(clauses),
                typ: clone_type_option(typ),
            },
            AstNode::If { cond, then, else_ } => AstNode::If {
                cond: Box::new((**cond).clone()),
                then: Box::new((**then).clone()),
                else_: Box::new((**else_).clone()),
            },
            AstNode::Let { decl, body } => AstNode::Let {
                decl: Box::new((**decl).clone()),
                body: Box::new((**body).clone()),
            },
            AstNode::Fn { clauses } => AstNode::Fn { clauses: clone_clauses(clauses) },
            AstNode::BinOp { left, op, right } => AstNode::BinOp {
                left: Box::new((**left).clone()),
                op: *op,
                right: Box::new((**right).clone()),
            },
            AstNode::App { func, arg } => AstNode::App {
                func: Box::new((**func).clone()),
                arg: Box::new((**arg).clone()),
            },
            AstNode::Id(s) => AstNode::Id(s.clone()),
            AstNode::Var(s) => AstNode::Var(s.clone()),
            AstNode::Tuple(items) => AstNode::Tuple(clone_nodes(items)),
            AstNode::List(items) => AstNode::List(clone_nodes(items)),
            AstNode::Literal(lit) => AstNode::Literal(lit.clone()),
        }
    }
}

impl PartialEq for LiteralValue {
    fn eq(&self, other: &LiteralValue) -> (r: bool) {
        match self {
            LiteralValue::Integer(a) => match other {
                LiteralValue::Integer(b) => *a == *b,
                _ => false,
            },
            LiteralValue::Boolean(a) => match other {
                LiteralValue::Boolean(b) => *a == *b,
                _ => false,
            },
            LiteralValue::String(a) => match other {
                LiteralValue::String(b) => *a == *b,
                _ => false,
            },
        }
    }
}

impl vstd::std_specs::cmp::PartialEqSpecImpl for LiteralValue {
    open spec fn obeys_eq_spec() -> bool {
        true
    }

    open spec fn eq_spec(&self, other: &LiteralValue) -> bool {
        self.view() == other.view()
    }
}

impl PartialEq for Type {
    fn eq(&self, other: &Type) -> (r: bool)
        decreases self,
    {
        match self {
            Type::Int => matches!(other, Type::Int),
            Type::Bool => matches!(other, Type::Bool),
            Type::Char => matches!(other, Type::Char),
            Type::String => matches!(other, Type::String),
            Type::Var(a) => match other {
                Type::Var(b) => *a == *b,
                _ => false,
            },
            Type::Arrow(a, b) => match other {
                Type::Arrow(c, d) => (**a).eq(&**c) && (**b).eq(&**d),
                _ => false,
            },
            Type::Product(a, b) => match other {
                Type::Product(c, d) => (**a).eq(&**c) && (**b).eq(&**d),
                _ => false,
            },
        }
    }
}

impl vstd::std_specs::cmp::PartialEqSpecImpl for Type {
    open spec fn obeys_eq_spec() -> bool {
        true
    }

    open spec fn eq_spec(&self, other: &Type) -> bool {
        self.view() == other.view()
    }
}

impl PartialEq for AstPattern {
    fn eq(&self, other: &AstPattern) -> (r: bool)
        decreases self,
    {
        match self {
            AstPattern::Literal => matches!(other, AstPattern::Literal),
            AstPattern::Wildcard => matches!(other, AstPattern::Wildcard),
            AstPattern::Id(a) => match other {
                AstPattern::Id(b) => *a == *b,
                _ => false,
            },
            AstPattern::Var(a) => match other {
                AstPattern::Var(b) => *a == *b,
                _ => false,
            },
            AstPattern::Pair(a, b) => match other {
                AstPattern::Pair(c, d) => (**a).eq(&**c) && (**b).eq(&**d),
                _ => false,
            },
        }
    }
}

impl vstd::std_specs::cmp::PartialEqSpecImpl for AstPattern {
    open spec fn obeys_eq_spec() -> bool {
        true
    }

    open spec fn eq_spec(&self, other: &AstPattern) -> bool {
        self.view() == other.view()
    }
}

/// Whether two optional type annotations have the same value.
fn same_type_option(a: &Option<Type>, b: &Option<Type>) -> (r: bool)
    ensures
        r == (type_option_view(*a) == type_option_view(*b)),
{
    match a {
        Some(s) => match b {
            Some(t) => *s == *t,
            None => false,
        },
        None => b.is_none(),
    }
}

/// Whether two lists of nodes have the same value.
fn same_nodes(a: &Vec<Box<AstNode>>, b: &Vec<Box<AstNode>>) -> (r: bool)
    ensures
        r == (nodes_view(a@) == nodes_view(b@)),
    decreases a@,
{
    if a.len() != b.len() {
        assert(nodes_view(a@).len() != nodes_view(b@).len());
        return false;
    }
    let mut i: usize = 0;
    while i < a.len()
        invariant
            i <= a.len(),
            a.len() == b.len(),
            forall|k: int| 0 <= k < i ==> (#[trigger] a@[k]).view() == b@[k].view(),
        decreases a.len() - i,
    {
        let x: &AstNode = &a[i];
        let y: &AstNode = &b[i];
        if !x.eq(y) {
            assert(nodes_view(a@)[i as int] != nodes_view(b@)[i as int]);
            return false;
        }
        i += 1;
    }
    assert(nodes_view(a@) =~= nodes_view(b@));
    true
}

/// Whether two lists of clauses have the same value.
fn same_clauses(a: &Vec<(AstPattern, Box<AstNode>)>, b: &Vec<(AstPattern, Box<AstNode>)>) -> (r:
    bool)
    ensures
        r == (clauses_view(a@) == clauses_view(b@)),
    decreases a@,
{
    if a.len() != b.len() {
        assert(clauses_view(a@).len() != clauses_view(b@).len());
        return false;
    }
    let mut i: usize = 0;
    while i < a.len()
        invariant
            i <= a.len(),
            a.len() == b.len(),
            forall|k: int|
                0 <= k < i ==> (#[trigger] a@[k]).0@ == b@[k].0@ && a@[k].1.view()
                    == b@[k].1.view(),
        decreases a.len() - i,
    {
        let x: &AstNode = &a[i].1;
        let y: &AstNode = &b[i].1;
        if !(a[i].0 == b[i].0) || !x.eq(y) {
            assert(clauses_view(a@)[i as int] != clauses_view(b@)[i as int]);
            return false;
        }
        i += 1;
    }
    assert(clauses_view(a@) =~= clauses_view(b@));
    true
}

impl PartialEq for AstNode {
    fn eq(&self, other: &AstNode) -> (r: bool)
        decreases self,
    {
        match self {
            AstNode::Program(a) => match other {
                AstNode::Program(b) => same_nodes(a, b),
                _ => false,
            },
            AstNode::ValDecl { pat, typ, exp } => match other {
                AstNode::ValDecl { pat: pat2, typ: typ2, exp: exp2 } => *pat == *pat2
                    && same_type_option(typ, typ2) && (**exp).eq(&**exp2),
                _ => false,
            },
            AstNode::FunDecl { name, clauses, typ } => match other {
                AstNode::FunDecl { name: name2, clauses: clauses2, typ: typ2 } => *name == *name2
                    && same_clauses(clauses, clauses2) && same_type_option(typ, typ2),
                _ => false,
            },
            AstNode::If { cond, then, else_ } => match other {
                AstNode::If { cond: cond2, then: then2, else_: else2 } => (**cond).eq(&**cond2)
                    && (**then).eq(&**then2) && (**else_).eq(&**else2),
                _ => false,
            },
            AstNode::Let { decl, body } => match other {
                AstNode::Let { decl: decl2, body: body2 } => (**decl).eq(&**decl2) && (**body).eq(
                    &**body2,
                ),
                _ => false,
            },
            AstNode::Fn { clauses } => match other {
                AstNode::Fn { clauses: clauses2 } => same_clauses(clauses, clauses2),
                _ => false,
            },
            AstNode::BinOp { left, op, right } => match other {
                AstNode::BinOp { left: left2, op: op2, right: right2 } => (**left).eq(&**left2)
                    && *op == *op2 && (**right).eq(&**right2),
                _ => false,
            },
            AstNode::App { func, arg } => match other {
                AstNode::App { func: func2, arg: arg2 } => (**func).eq(&**func2) && (**arg).eq(
                    &**arg2,
                ),
                _ => false,
            },
            AstNode::Id(a) => match other {
                AstNode::Id(b) => *a == *b,
                _ => false,
            },
            AstNode::Var(a) => match other {
                AstNode::Var(b) => *a == *b,
                _ => false,
            },
            AstNode::Tuple(a) => match other {
                AstNode::Tuple(b) => same_nodes(a, b),
                _ => false,
            },
            AstNode::List(a) => match other {
                AstNode::List(b) => same_nodes(a, b),
                _ => false,
            },
            AstNode::Literal(a) => match other {
                AstNode::Literal(b) => *a == *b,
                _ => false,
            },
        }
    }
}

impl vstd::std_specs::cmp::PartialEqSpecImpl for AstNode {
    open spec fn obeys_eq_spec() -> bool {
        true
    }

    open spec fn eq_spec(&self, other: &AstNode) -> bool {
        self.view() == other.view()
    }
}

} // verus!
