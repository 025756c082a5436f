use vstd::prelude::*;

verus! {

/// The abstract syntax tree produced by parsing: a closed set of variants,
/// each owning its children outright (a tree, never a graph).
#[derive(Debug, PartialEq)]
pub enum ASTNode {
    Let(Box<ASTNode>, Box<ASTNode>),
    Const(String, Box<ASTNode>),
    Var(String, String),
    Func(String, Vec<ASTNode>, String, Box<ASTNode>),
    Proc(String, Vec<ASTNode>, Box<ASTNode>),
    Type(String, Box<ASTNode>),
    Assign(Vec<String>, Box<ASTNode>),
    If(Box<ASTNode>, Box<ASTNode>, Box<ASTNode>),
    While(Box<ASTNode>, Box<ASTNode>),
    Call(String, Vec<ASTNode>),
    Identifier(String),
    Number(i64),
    Char(char),
    Operator(String, Box<ASTNode>, Box<ASTNode>),
    Declaration(Vec<ASTNode>),
    Command(Vec<ASTNode>),
}

/// The mathematical model of an AST node: names are character sequences,
/// numbers are unbounded integers, children are sequences of models.
pub enum SpecNode {
    Let(Box<SpecNode>, Box<SpecNode>),
    Const(Seq<char>, Box<SpecNode>),
    Var(Seq<char>, Seq<char>),
    Func(Seq<char>, Seq<SpecNode>, Seq<char>, Box<SpecNode>),
    Proc(Seq<char>, Seq<SpecNode>, Box<SpecNode>),
    Type(Seq<char>, Box<SpecNode>),
    Assign(Seq<Seq<char>>, Box<SpecNode>),
    If(Box<SpecNode>, Box<SpecNode>, Box<SpecNode>),
    While(Box<SpecNode>, Box<SpecNode>),
    Call(Seq<char>, Seq<SpecNode>),
    Identifier(Seq<char>),
    Number(int),
    Char(char),
    Operator(Seq<char>, Box<SpecNode>, Box<SpecNode>),
    Declaration(Seq<SpecNode>),
    Command(Seq<SpecNode>),
}

/// The model of a list of nodes, element by element.
pub open spec fn deep_nodes(v: Seq<ASTNode>) -> Seq<SpecNode>
    decreases v,
{
    if v.len() == 0 {
        Seq::empty()
    } else {
        deep_nodes(v.drop_last()).push(v.last().deep())
    }
}

impl ASTNode {
    /// The mathematical model of this node.
    pub open spec fn deep(&self) -> SpecNode
        decreases self,
    {
        match self {
            ASTNode::Let(d, c) => SpecNode::Let(Box::new(d.deep()), Box::new(c.deep())),
            ASTNode::Const(name, v) => SpecNode::Const(name@, Box::new(v.deep())),
            ASTNode::Var(name, ty) => SpecNode::Var(name@, ty@),
            ASTNode::Func(name, params, ret, body) => SpecNode::Func(
                name@,
                deep_nodes(params@),
                ret@,
                Box::new(body.deep()),
            ),
            ASTNode::Proc(name, params, body) => SpecNode::Proc(
                name@,
                deep_nodes(params@),
                Box::new(body.deep()),
            ),
            ASTNode::Type(name, def) => SpecNode::Type(name@, Box::new(def.deep())),
            ASTNode::Assign(names, v) => SpecNode::Assign(names.deep_view(), Box::new(v.deep())),
            ASTNode::If(c, a, b) => SpecNode::If(
                Box::new(c.deep()),
                Box::new(a.deep()),
                Box::new(b.deep()),
            ),
            ASTNode::While(c, b) => SpecNode::While(Box::new(c.deep()), Box::new(b.deep())),
            ASTNode::Call(name, args) => SpecNode::Call(name@, deep_nodes(args@)),
            ASTNode::Identifier(name) => SpecNode::Identifier(name@),
            ASTNode::Number(n) => SpecNode::Number(*n as int),
            ASTNode::Char(c) => SpecNode::Char(*c),
            ASTNode::Operator(op, l, r) => SpecNode::Operator(
                op@,
                Box::new(l.deep()),
                Box::new(r.deep()),
            ),
            ASTNode::Declaration(ds) => SpecNode::Declaration(deep_nodes(ds@)),
            ASTNode::Command(cs) => SpecNode::Command(deep_nodes(cs@)),
        }
    }
}

impl View for ASTNode {
    type V = SpecNode;

    open spec fn view(&self) -> SpecNode {
        self.deep()
    }
}

/// A list's model has one element per node.
pub proof fn lemma_deep_nodes_len(v: Seq<ASTNode>)
    ensures
        deep_nodes(v).len() == v.len(),
    decreases v.len(),
{
    if v.len() > 0 {
        lemma_deep_nodes_len(v.drop_last());
    }
}

/// A list's model holds each node's model, in place.
pub proof fn lemma_deep_nodes_index(v: Seq<ASTNode>, i: int)
    requires
        0 <= i < v.len(),
    ensures
        deep_nodes(v).len() == v.len(),
        deep_nodes(v)[i] == v[i].deep(),
    decreases v.len(),
{
    lemma_deep_nodes_len(v);
    lemma_deep_nodes_len(v.drop_last());
    if i < v.len() - 1 {
        lemma_deep_nodes_index(v.drop_last(), i);
        assert(v.drop_last()[i] == v[i]);
    }
}

/// Appending a node appends its model.
pub proof fn lemma_deep_nodes_push(v: Seq<ASTNode>, x: ASTNode)
    ensures
        deep_nodes(v.push(x)) == deep_nodes(v).push(x.deep()),
{
    assert(v.push(x).drop_last() =~= v);
    assert(v.push(x).last() == x);
}

/// Taking a slice of a list and modelling commute.
pub proof fn lemma_deep_nodes_subrange(v: Seq<ASTNode>, a: int, b: int)
    requires
        0 <= a <= b <= v.len(),
    ensures
        deep_nodes(v.subrange(a, b)) == deep_nodes(v).subrange(a, b),
{
    lemma_deep_nodes_len(v);
    lemma_deep_nodes_len(v.subrange(a, b));
    assert(deep_nodes(v.subrange(a, b)) =~= deep_nodes(v).subrange(a, b)) by {
        assert forall|i: int| 0 <= i < b - a implies deep_nodes(v.subrange(a, b))[i] == deep_nodes(
            v,
        ).subrange(a, b)[i] by {
            lemma_deep_nodes_index(v.subrange(a, b), i);
            lemma_deep_nodes_index(v, a + i);
            assert(v.subrange(a, b)[i] == v[a + i]);
        }
    }
}

} // verus!
