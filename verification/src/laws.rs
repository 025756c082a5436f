use vstd::prelude::*;

use crate::ast::SpecNode;
use crate::grammar::sp_command;
use crate::grammar::sp_commands;
use crate::grammar::sp_commands_rest;
use crate::grammar::sp_declaration;
use crate::grammar::sp_declarations;
use crate::grammar::sp_declarations_rest;
use crate::grammar::sp_expression;
use crate::grammar::sp_expression_tail;
use crate::grammar::sp_primary;
use crate::grammar::sp_program;
use crate::token::Token;
use crate::token::TokenType;

verus! {

// The laws the parser obeys, stated over the grammar functions that
// `parse_program` is proved to compute exactly. That every accepted token
// stream parses successfully, and that a rejected one yields the first
// error and no tree, is `parse_program`'s own contract; the laws below pin
// down the shape of what comes back.

/// The commands the repetition `(';' Command)*` parses from position `i`
/// on, in source order: one for each semicolon met, each the parse of the
/// command after that semicolon.
pub open spec fn sp_more_commands(toks: Seq<Token>, i: int) -> Seq<SpecNode>
    decreases toks.len() - i,
{
    if toks[i].token_type == TokenType::Semicolon {
        match sp_command(toks, crate::grammar::adv(toks, i)) {
            Ok((c, k)) => {
                if i < k && k <= toks.len() {
                    seq![c] + sp_more_commands(toks, k)
                } else {
                    seq![c]
                }
            },
            Err(_) => Seq::empty(),
        }
    } else {
        Seq::empty()
    }
}

/// The declarations the repetition `(';' Declaration)*` parses from
/// position `i` on, in source order.
pub open spec fn sp_more_declarations(toks: Seq<Token>, i: int) -> Seq<SpecNode>
    decreases toks.len() - i,
{
    if toks[i].token_type == TokenType::Semicolon {
        match sp_declaration(toks, crate::grammar::adv(toks, i)) {
            Ok((d, k)) => {
                if i < k && k <= toks.len() {
                    seq![d] + sp_more_declarations(toks, k)
                } else {
                    seq![d]
                }
            },
            Err(_) => Seq::empty(),
        }
    } else {
        Seq::empty()
    }
}

/// A parsed command's root variant matches the rule its first token chose:
/// `let` yields a `Let` root, `const` a `Const`, `var` a `Var`, `func` a
/// `Func`, `if` an `If`, and an identifier an `Assign` or a `Call`. A
/// `begin` block hands its inner region through unchanged, so its root is
/// whatever that region yields; no other first token is ever accepted.
pub proof fn lemma_command_root_variant(toks: Seq<Token>, i: int)
    ensures
        sp_command(toks, i) matches Ok(nj) ==> match toks[i].token_type {
            TokenType::Let => nj.0 is Let,
            TokenType::Const => nj.0 is Const,
            TokenType::Var => nj.0 is Var,
            TokenType::Func => nj.0 is Func,
            TokenType::If => nj.0 is If,
            TokenType::Identifier => nj.0 is Assign || nj.0 is Call,
            TokenType::Begin => true,
            _ => false,
        },
{
}

/// A parsed declaration's root variant matches the rule its first token
/// chose; no other first token is ever accepted.
pub proof fn lemma_declaration_root_variant(toks: Seq<Token>, i: int)
    ensures
        sp_declaration(toks, i) matches Ok(nj) ==> match toks[i].token_type {
            TokenType::Const => nj.0 is Const,
            TokenType::Var => nj.0 is Var,
            TokenType::Func => nj.0 is Func,
            _ => false,
        },
{
}

/// The repetition step of the collapsing law for commands: continuing a
/// region with the commands in `acc` already parsed ends on a token that is
/// no semicolon; where the cursor stands on a semicolon more commands
/// follow, so the result is a `Command` wrapper extending `acc` in source
/// order, and where it does not, the result collapses: the sole command
/// itself for a one-element region, the wrapper for two or more.
pub proof fn lemma_commands_rest_collapse(toks: Seq<Token>, i: int, acc: Seq<SpecNode>)
    requires
        acc.len() >= 1,
    ensures
        sp_commands_rest(toks, i, acc) matches Ok(nj) ==> {
            &&& toks[nj.1].token_type != TokenType::Semicolon
            &&& (toks[i].token_type != TokenType::Semicolon ==> nj.1 == i && nj.0 == (
                if acc.len() == 1 {
                    acc[0]
                } else {
                    SpecNode::Command(acc)
                }))
            &&& (toks[i].token_type == TokenType::Semicolon ==> (nj.0
                matches SpecNode::Command(cs) && cs == acc + sp_more_commands(toks, i)
                && cs.len() > acc.len()))
        },
    decreases toks.len() - i,
{
    if toks[i].token_type == TokenType::Semicolon {
        match sp_command(toks, crate::grammar::adv(toks, i)) {
            Ok((c, k)) => {
                if i < k && k <= toks.len() {
                    lemma_commands_rest_collapse(toks, k, acc.push(c));
                    match sp_commands_rest(toks, k, acc.push(c)) {
                        Ok(nj) => {
                            if toks[k].token_type == TokenType::Semicolon {
                                assert(acc.push(c) + sp_more_commands(toks, k) =~= acc + (seq![c]
                                    + sp_more_commands(toks, k)));
                            } else {
                                assert(acc.push(c) =~= acc + (seq![c] + sp_more_commands(
                                    toks,
                                    k,
                                )));
                            }
                        },
                        Err(_) => {},
                    }
                }
            },
            Err(_) => {},
        }
    }
}

/// Collapsing law for commands: a region with exactly one command (no
/// semicolon follows it) parses to that command directly, never wrapped; a
/// region with two or more always produces the `Command` wrapper holding
/// the first command and then each semicolon-separated successor, in
/// source order.
pub proof fn lemma_commands_collapse(toks: Seq<Token>, i: int)
    ensures
        sp_commands(toks, i) matches Ok(nj) ==> {
            &&& sp_command(toks, i) matches Ok(fj)
            &&& (toks[fj.1].token_type != TokenType::Semicolon ==> nj == fj)
            &&& (toks[fj.1].token_type == TokenType::Semicolon ==> (nj.0
                matches SpecNode::Command(cs) && cs == seq![fj.0] + sp_more_commands(toks, fj.1)
                && cs.len() >= 2))
        },
{
    match sp_command(toks, i) {
        Ok((c, j)) => {
            if i <= j && j <= toks.len() {
                lemma_commands_rest_collapse(toks, j, seq![c]);
            }
        },
        Err(_) => {},
    }
}

/// The repetition step of the collapsing law for declarations, exactly as
/// for commands.
pub proof fn lemma_declarations_rest_collapse(toks: Seq<Token>, i: int, acc: Seq<SpecNode>)
    requires
        acc.len() >= 1,
    ensures
        sp_declarations_rest(toks, i, acc) matches Ok(nj) ==> {
            &&& toks[nj.1].token_type != TokenType::Semicolon
            &&& (toks[i].token_type != TokenType::Semicolon ==> nj.1 == i && nj.0 == (
                if acc.len() == 1 {
                    acc[0]
                } else {
                    SpecNode::Declaration(acc)
                }))
            &&& (toks[i].token_type == TokenType::Semicolon ==> (nj.0
                matches SpecNode::Declaration(ds) && ds == acc + sp_more_declarations(toks, i)
                && ds.len() > acc.len()))
        },
    decreases toks.len() - i,
{
    if toks[i].token_type == TokenType::Semicolon {
        match sp_declaration(toks, crate::grammar::adv(toks, i)) {
            Ok((d, k)) => {
                if i < k && k <= toks.len() {
                    lemma_declarations_rest_collapse(toks, k, acc.push(d));
                    match sp_declarations_rest(toks, k, acc.push(d)) {
                        Ok(nj) => {
                            if toks[k].token_type == TokenType::Semicolon {
                                assert(acc.push(d) + sp_more_declarations(toks, k) =~= acc + (
                                seq![d] + sp_more_declarations(toks, k)));
                            } else {
                                assert(acc.push(d) =~= acc + (seq![d] + sp_more_declarations(
                                    toks,
                                    k,
                                )));
                            }
                        },
                        Err(_) => {},
                    }
                }
            },
            Err(_) => {},
        }
    }
}

/// Collapsing law for declarations: a region with exactly one declaration
/// parses to that declaration directly, never wrapped; two or more always
/// produce the `Declaration` wrapper holding the first declaration and
/// then each semicolon-separated successor, in source order.
pub proof fn lemma_declarations_collapse(toks: Seq<Token>, i: int)
    ensures
        sp_declarations(toks, i) matches Ok(nj) ==> {
            &&& sp_declaration(toks, i) matches Ok(fj)
            &&& (toks[fj.1].token_type != TokenType::Semicolon ==> nj == fj)
            &&& (toks[fj.1].token_type == TokenType::Semicolon ==> (nj.0
                matches SpecNode::Declaration(ds) && ds == seq![fj.0] + sp_more_declarations(
                toks,
                fj.1,
            ) && ds.len() >= 2))
        },
{
    match sp_declaration(toks, i) {
        Ok((d, j)) => {
            if i <= j && j <= toks.len() {
                lemma_declarations_rest_collapse(toks, j, seq![d]);
            }
        },
        Err(_) => {},
    }
}

/// Whether the stream holds no opening parenthesis: parentheses make a
/// grouped expression stand whole as one operand, which is the one way an
/// `Operator` node can become another's right operand.
pub open spec fn paren_free(toks: Seq<Token>) -> bool {
    forall|j: int| 0 <= j < toks.len() ==> toks[j].token_type != TokenType::LeftParen
}

/// In a stream without parentheses, a primary expression is never an
/// `Operator` node: a literal, an identifier, or a call.
pub proof fn lemma_primary_not_operator(toks: Seq<Token>, i: int)
    requires
        paren_free(toks),
        0 <= i,
    ensures
        sp_primary(toks, i) matches Ok(nj) ==> !(nj.0 is Operator),
{
}

/// The repetition step of the left-to-right law: in a stream without
/// parentheses, folding operators onto `left` yields `left` itself or an
/// `Operator` node whose right operand is a primary, never another
/// `Operator`.
pub proof fn lemma_expression_tail_shape(toks: Seq<Token>, i: int, left: SpecNode)
    requires
        paren_free(toks),
        0 <= i,
    ensures
        sp_expression_tail(toks, i, left) matches Ok(nj) ==> (nj.0 == left || (
        nj.0 matches SpecNode::Operator(op, l, r) && !((*r) is Operator))),
    decreases toks.len() - i,
{
    if toks[i].token_type == TokenType::Operator {
        let j = crate::grammar::adv(toks, i);
        match sp_primary(toks, j) {
            Ok((right, k)) => {
                if i < k && k <= toks.len() {
                    lemma_primary_not_operator(toks, j);
                    lemma_expression_tail_shape(
                        toks,
                        k,
                        SpecNode::Operator(
                            toks[i].lexeme@,
                            Box::new(left),
                            Box::new(right),
                        ),
                    );
                }
            },
            Err(_) => {},
        }
    }
}

/// Left-to-right expression law: every operator binds at the same level and
/// associates strictly to the left, so in a stream without parentheses no
/// `Operator` node ever hangs as the right operand of another — each right
/// operand is a primary. In particular a sum followed by a product nests
/// the sum on the left, not the product on the right. (A parenthesized
/// group stands whole as one operand, so it, and only it, can put an
/// `Operator` on the right.)
pub proof fn lemma_expression_left_to_right(toks: Seq<Token>, i: int)
    requires
        paren_free(toks),
        0 <= i,
    ensures
        sp_expression(toks, i) matches Ok(nj) ==> (nj.0 matches SpecNode::Operator(op, l, r)
            ==> !((*r) is Operator)),
{
    match sp_primary(toks, i) {
        Ok((left, j)) => {
            if i <= j && j <= toks.len() {
                lemma_primary_not_operator(toks, i);
                lemma_expression_tail_shape(toks, j, left);
            }
        },
        Err(_) => {},
    }
}

/// The root of a whole accepted program follows the first token: a single
/// command gives that command's variant, several give the `Command`
/// wrapper; a stream whose first token can begin no command is never
/// accepted (a `begin` block again hands its inner region through).
pub proof fn lemma_program_root_variant(toks: Seq<Token>)
    ensures
        sp_program(toks) matches Ok(nj) ==> match toks[0].token_type {
            TokenType::Let => nj.0 is Let || nj.0 is Command,
            TokenType::Const => nj.0 is Const || nj.0 is Command,
            TokenType::Var => nj.0 is Var || nj.0 is Command,
            TokenType::Func => nj.0 is Func || nj.0 is Command,
            TokenType::If => nj.0 is If || nj.0 is Command,
            TokenType::Identifier => nj.0 is Assign || nj.0 is Call || nj.0 is Command,
            TokenType::Begin => true,
            _ => false,
        },
{
    if toks.len() > 0 {
        lemma_commands_collapse(toks, 0);
        lemma_command_root_variant(toks, 0);
    }
}

} // verus!
