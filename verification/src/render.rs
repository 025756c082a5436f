use vstd::prelude::*;

use crate::ast::ASTNode;
use crate::ast::SpecNode;
use crate::ast::deep_nodes;
use crate::ast::lemma_deep_nodes_index;
use crate::ast::lemma_deep_nodes_len;
use crate::ast::lemma_deep_nodes_subrange;
use crate::digits::dec_digits;
use crate::digits::dec_int;
use crate::digits::push_dec_i64;
use crate::digits::push_dec_u64;

verus! {

// The fixed textual rendering of a finished tree: one exact string for each
// node shape, defined below as `sp_render` and computed by
// `ASTNode::to_custom_string`. Downstream tooling reads this text back, so
// the format is part of the library's contract.

/// The rendering of a list of nodes, joined by `sep`.
pub open spec fn sp_render_list(items: Seq<SpecNode>, sep: Seq<char>) -> Seq<char>
    decreases items,
{
    if items.len() == 0 {
        Seq::empty()
    } else if items.len() == 1 {
        sp_render(items[0])
    } else {
        sp_render(items[0]) + sep + sp_render_list(items.subrange(1, items.len() as int), sep)
    }
}

/// The rendering of a list of names, each double-quoted, joined by a comma
/// and a space. A name is emitted verbatim between its quotes: one that
/// itself holds a double quote or a backslash is not given escape
/// sequences (scanned identifiers never hold such characters).
pub open spec fn sp_render_names(names: Seq<Seq<char>>) -> Seq<char>
    decreases names,
{
    if names.len() == 0 {
        Seq::empty()
    } else if names.len() == 1 {
        seq!['"'] + names[0] + seq!['"']
    } else {
        seq!['"'] + names[0] + seq!['"'] + ", "@ + sp_render_names(
            names.subrange(1, names.len() as int),
        )
    }
}

/// The exact text a node renders to.
pub open spec fn sp_render(n: SpecNode) -> Seq<char>
    decreases n,
{
    match n {
        SpecNode::Let(d, c) => "let(\n   "@ + sp_render(*d) + ",\n   "@ + sp_render(*c) + "\n)"@,
        SpecNode::Const(name, v) => "const(\n   name(\""@ + name + "\"),\n   value(\n      "@
            + sp_render(*v) + "\n   )\n)"@,
        SpecNode::Var(name, ty) => "var(name(\""@ + name + "\"),typeName(\""@ + ty + "\"))"@,
        SpecNode::Func(name, params, ret, body) => "func(\n   name(\""@ + name
            + "\"),\n   params(["@ + sp_render_list(params, ","@) + "]),\n   type(typeName(\""@
            + ret + "\")),\n   result(\n      "@ + sp_render(*body) + "\n   )\n)"@,
        SpecNode::Assign(names, v) => "assign(["@ + sp_render_names(names) + "], "@ + sp_render(*v)
            + ")"@,
        SpecNode::If(c, a, b) => "ifCmd(\n   cond("@ + sp_render(*c) + "),\n   then(\n      "@
            + sp_render(*a) + "\n   ),\n   else("@ + sp_render(*b) + ")\n)"@,
        SpecNode::Call(name, args) => "call(\""@ + name + "\",params(["@ + sp_render_list(
            args,
            ","@,
        ) + "]))"@,
        SpecNode::Operator(op, l, r) => "op(\n   "@ + op + ",\n   "@ + sp_render(*l) + ",\n   "@
            + sp_render(*r) + "\n)"@,
        SpecNode::Number(v) => "num("@ + dec_int(v) + ")"@,
        SpecNode::Char(c) => "char("@ + dec_digits((c as u32 % 256) as int) + ")"@,
        SpecNode::Identifier(name) => "ref([\""@ + name + "\"])"@,
        SpecNode::Declaration(ds) => "declaration(\n   ["@ + sp_render_list(ds, ",\n   "@)
            + "]\n)"@,
        SpecNode::Command(cs) => "command(\n   ["@ + sp_render_list(cs, ",\n   "@) + "]\n)"@,
        SpecNode::Proc(_name, _params, _body) => "Unsupported node"@,
        SpecNode::Type(_name, _def) => "Unsupported node"@,
        SpecNode::While(_c, _b) => "Unsupported node"@,
    }
}

/// Renders the nodes of `items` from position `from` on, joined by `sep`.
fn render_nodes(items: &Vec<ASTNode>, from: usize, sep: &str) -> (r: String)
    requires
        from <= items@.len(),
    ensures
        r@ == sp_render_list(deep_nodes(items@.subrange(from as int, items@.len() as int)), sep@),
    decreases items, items@.len() - from,
{
    let ghost tail = items@.subrange(from as int, items@.len() as int);
    proof {
        lemma_deep_nodes_len(tail);
    }
    let n = items.len();
    if from == n {
        String::new()
    } else if from + 1 == n {
        proof {
            lemma_deep_nodes_index(tail, 0);
            assert(tail[0] == items@[from as int]);
        }
        items[from].to_custom_string()
    } else {
        proof {
            lemma_deep_nodes_index(tail, 0);
            assert(tail[0] == items@[from as int]);
            lemma_deep_nodes_subrange(tail, 1, tail.len() as int);
            assert(tail.subrange(1, tail.len() as int) =~= items@.subrange(
                from + 1 as int,
                items@.len() as int,
            ));
        }
        let mut s = items[from].to_custom_string();
        s.append(sep);
        let rest = render_nodes(items, from + 1, sep);
        s.append(rest.as_str());
        s
    }
}

/// Renders the names of `names` from position `from` on, each double-quoted,
/// joined by a comma and a space.
fn render_name_list(names: &Vec<String>, from: usize) -> (r: String)
    requires
        from <= names@.len(),
    ensures
        r@ == sp_render_names(names.deep_view().subrange(from as int, names@.len() as int)),
    decreases names@.len() - from,
{
    let ghost tail = names.deep_view().subrange(from as int, names@.len() as int);
    let n = names.len();
    if from == n {
        String::new()
    } else if from + 1 == n {
        proof {
            assert(tail[0] == names@[from as int]@);
        }
        let mut s = String::from_str("\"");
        s.append(names[from].as_str());
        s.append("\"");
        proof {
            reveal_strlit("\"");
            assert("\""@ =~= seq!['"']);
            assert((seq!['"'] + names@[from as int]@) + seq!['"'] =~= sp_render_names(tail));
        }
        s
    } else {
        proof {
            assert(tail[0] == names@[from as int]@);
            assert(tail.subrange(1, tail.len() as int) =~= names.deep_view().subrange(
                from + 1 as int,
                names@.len() as int,
            ));
        }
        let mut s = String::from_str("\"");
        s.append(names[from].as_str());
        s.append("\", ");
        let rest = render_name_list(names, from + 1);
        s.append(rest.as_str());
        proof {
            reveal_strlit("\"");
            reveal_strlit("\", ");
            reveal_strlit(", ");
            assert("\""@ =~= seq!['"']);
            assert("\", "@ =~= seq!['"'] + ", "@);
            assert(((("\""@ + names@[from as int]@) + "\", "@) + sp_render_names(
                tail.subrange(1, tail.len() as int),
            )) =~= sp_render_names(tail));
        }
        s
    }
}

impl ASTNode {
    /// The fixed textual rendering of this node: exactly `sp_render` of its
    /// model.
    pub fn to_custom_string(&self) -> (r: String)
        ensures
            r@ == sp_render(self@),
        decreases self,
    {
        match self {
            ASTNode::Let(declarations, command) => {
                let mut s = String::from_str("let(\n   ");
                let ds = declarations.to_custom_string();
                s.append(ds.as_str());
                s.append(",\n   ");
                let cs = command.to_custom_string();
                s.append(cs.as_str());
                s.append("\n)");
                s
            },
            ASTNode::Const(name, value) => {
                let mut s = String::from_str("const(\n   name(\"");
                s.append(name.as_str());
                s.append("\"),\n   value(\n      ");
                let vs = value.to_custom_string();
                s.append(vs.as_str());
                s.append("\n   )\n)");
                s
            },
            ASTNode::Var(name, ty) => {
                let mut s = String::from_str("var(name(\"");
                s.append(name.as_str());
                s.append("\"),typeName(\"");
                s.append(ty.as_str());
                s.append("\"))");
                s
            },
            ASTNode::Func(name, params, return_type, body) => {
                let mut s = String::from_str("func(\n   name(\"");
                s.append(name.as_str());
                s.append("\"),\n   params([");
                let ps = render_nodes(params, 0, ",");
                proof {
                    assert(params@.subrange(0, params@.len() as int) =~= params@);
                }
                s.append(ps.as_str());
                s.append("]),\n   type(typeName(\"");
                s.append(return_type.as_str());
                s.append("\")),\n   result(\n      ");
                let bs = body.to_custom_string();
                s.append(bs.as_str());
                s.append("\n   )\n)");
                s
            },
            ASTNode::Assign(names, expr) => {
                let mut s = String::from_str("assign([");
                let ns = render_name_list(names, 0);
                proof {
                    assert(names.deep_view().subrange(0, names@.len() as int) =~= names.deep_view());
                }
                s.append(ns.as_str());
                s.append("], ");
                let es = expr.to_custom_string();
                s.append(es.as_str());
                s.append(")");
                s
            },
            ASTNode::If(cond, then_branch, else_branch) => {
                let mut s = String::from_str("ifCmd(\n   cond(");
                let cs = cond.to_custom_string();
                s.append(cs.as_str());
                s.append("),\n   then(\n      ");
                let ts = then_branch.to_custom_string();
                s.append(ts.as_str());
                s.append("\n   ),\n   else(");
                let es = else_branch.to_custom_string();
                s.append(es.as_str());
                s.append(")\n)");
                s
            },
            ASTNode::Call(name, params) => {
                let mut s = String::from_str("call(\"");
                s.append(name.as_str());
                s.append("\",params([");
                let ps = render_nodes(params, 0, ",");
                proof {
                    assert(params@.subrange(0, params@.len() as int) =~= params@);
                }
                s.append(ps.as_str());
                s.append("]))");
                s
            },
            ASTNode::Operator(op, left, right) => {
                let mut s = String::from_str("op(\n   ");
                s.append(op.as_str());
                s.append(",\n   ");
                let ls = left.to_custom_string();
                s.append(ls.as_str());
                s.append(",\n   ");
                let rs = right.to_custom_string();
                s.append(rs.as_str());
                s.append("\n)");
                s
            },
            ASTNode::Number(num) => {
                let mut s = String::from_str("num(");
                push_dec_i64(&mut s, *num);
                s.append(")");
                s
            },
            ASTNode::Char(c) => {
                let code: u32 = (*c as u32) % 256;
                let mut s = String::from_str("char(");
                push_dec_u64(&mut s, code as u64);
                s.append(")");
                s
            },
            ASTNode::Identifier(name) => {
                let mut s = String::from_str("ref([\"");
                s.append(name.as_str());
                s.append("\"])");
                s
            },
            ASTNode::Declaration(declarations) => {
                let mut s = String::from_str("declaration(\n   [");
                let ds = render_nodes(declarations, 0, ",\n   ");
                proof {
                    assert(declarations@.subrange(0, declarations@.len() as int)
                        =~= declarations@);
                }
                s.append(ds.as_str());
                s.append("]\n)");
                s
            },
            ASTNode::Command(commands) => {
                let mut s = String::from_str("command(\n   [");
                let cs = render_nodes(commands, 0, ",\n   ");
                proof {
                    assert(commands@.subrange(0, commands@.len() as int) =~= commands@);
                }
                s.append(cs.as_str());
                s.append("]\n)");
                s
            },
            ASTNode::Proc(_name, _params, _body) => String::from_str("Unsupported node"),
            ASTNode::Type(_name, _def) => String::from_str("Unsupported node"),
            ASTNode::While(_c, _b) => String::from_str("Unsupported node"),
        }
    }
}

} // verus!
