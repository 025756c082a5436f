use vstd::prelude::*;

use crate::ast::SpecNode;
use crate::digits::int_lexeme_val;
use crate::error::SyntaxError;
use crate::error::assign_or_call_err;
use crate::error::command_err;
use crate::error::declaration_err;
use crate::error::eoi_err;
use crate::error::expected_err;
use crate::error::ident_err;
use crate::error::primary_err;
use crate::token::Token;
use crate::token::TokenType;

verus! {

// The grammar, written down as total mathematical functions over the token
// sequence and a cursor position. Each function mirrors one parsing
// procedure: it returns the parsed node together with the cursor position
// after it, or the first syntax error met. The executable parser is proved
// to return exactly these values.
//
// The cursor moves with `adv`, which sticks at the last token: the stream
// ends logically at its end-of-stream marker, and moving past the end is a
// no-op. A construct left unfinished by a stream that ends too early is
// reported as `UnexpectedEndOfInput` where the grammar would otherwise
// re-read the final token forever: after `begin`, and after `(` in an
// expression, when that token closes the stream. The index guards on the
// other recursive calls keep the recursion well founded over arbitrary
// arguments; the executable parser's proofs show the cursor always moves
// enough, so on its runs they never fail.

/// The cursor position after consuming the token at `i`: one step forward,
/// sticking at the last token of the stream.
pub open spec fn adv(toks: Seq<Token>, i: int) -> int {
    if i + 1 < toks.len() {
        i + 1
    } else {
        i
    }
}

/// The token kinds that can begin a command.
pub open spec fn cmd_start(k: TokenType) -> bool {
    ||| k == TokenType::Let
    ||| k == TokenType::Const
    ||| k == TokenType::Var
    ||| k == TokenType::Func
    ||| k == TokenType::If
    ||| k == TokenType::Begin
    ||| k == TokenType::Identifier
}

/// The token kinds that can begin a declaration.
pub open spec fn decl_start(k: TokenType) -> bool {
    ||| k == TokenType::Const
    ||| k == TokenType::Var
    ||| k == TokenType::Func
}

/// The token kinds that can begin a primary expression.
pub open spec fn primary_start(k: TokenType) -> bool {
    ||| k == TokenType::IntegerLiteral
    ||| k == TokenType::CharLiteral
    ||| k == TokenType::Identifier
    ||| k == TokenType::LeftParen
}

/// The token kinds that can begin a formal parameter.
pub open spec fn formal_start(k: TokenType) -> bool {
    ||| k == TokenType::Var
    ||| k == TokenType::Identifier
}

/// Consuming the token at `i` when it has kind `k`; otherwise the error
/// naming `k`, the found kind, and the found token's position.
pub open spec fn sp_expect(toks: Seq<Token>, i: int, k: TokenType) -> Result<int, SyntaxError> {
    if toks[i].token_type == k {
        Ok(adv(toks, i))
    } else {
        Err(expected_err(k, toks[i]))
    }
}

/// Consuming an identifier at `i`, yielding its lexeme.
pub open spec fn sp_ident(toks: Seq<Token>, i: int) -> Result<(Seq<char>, int), SyntaxError> {
    if toks[i].token_type == TokenType::Identifier {
        Ok((toks[i].lexeme@, adv(toks, i)))
    } else {
        Err(ident_err(toks[i]))
    }
}

/// `Commands := Command (';' Command)*` — one command, then the rest.
pub open spec fn sp_commands(toks: Seq<Token>, i: int) -> Result<(SpecNode, int), SyntaxError>
    decreases toks.len() - i, 12int,
{
    match sp_command(toks, i) {
        Ok((c, j)) => {
            if i <= j && j <= toks.len() {
                sp_commands_rest(toks, j, seq![c])
            } else {
                Err(eoi_err(toks[i]))
            }
        },
        Err(e) => Err(e),
    }
}

/// The repetition of `(';' Command)*` after the commands in `acc`, and the
/// collapsing rule: a single command stands for itself, two or more are
/// wrapped in a `Command` node in source order.
pub open spec fn sp_commands_rest(toks: Seq<Token>, i: int, acc: Seq<SpecNode>) -> Result<
    (SpecNode, int),
    SyntaxError,
>
    decreases toks.len() - i, 11int,
{
    if toks[i].token_type == TokenType::Semicolon {
        match sp_command(toks, adv(toks, i)) {
            Ok((c, k)) => {
                if i < k && k <= toks.len() {
                    sp_commands_rest(toks, k, acc.push(c))
                } else {
                    Err(eoi_err(toks[i]))
                }
            },
            Err(e) => Err(e),
        }
    } else {
        if acc.len() == 1 {
            Ok((acc[0], i))
        } else {
            Ok((SpecNode::Command(acc), i))
        }
    }
}

/// `Command`, chosen by the kind of the current token.
pub open spec fn sp_command(toks: Seq<Token>, i: int) -> Result<(SpecNode, int), SyntaxError>
    decreases toks.len() - i, 10int,
{
    let t = toks[i];
    match t.token_type {
        TokenType::Let => {
            match sp_declarations(toks, adv(toks, i)) {
                Ok((d, k)) => match sp_expect(toks, k, TokenType::In) {
                    Ok(m) => {
                        if i < m && m <= toks.len() {
                            match sp_commands(toks, m) {
                                Ok((c, p)) => Ok(
                                    (SpecNode::Let(Box::new(d), Box::new(c)), p),
                                ),
                                Err(e) => Err(e),
                            }
                        } else {
                            Err(eoi_err(t))
                        }
                    },
                    Err(e) => Err(e),
                },
                Err(e) => Err(e),
            }
        },
        TokenType::Const => {
            match sp_ident(toks, adv(toks, i)) {
                Ok((name, k)) => match sp_expect(toks, k, TokenType::Tilde) {
                    Ok(m) => match sp_expression(toks, m) {
                        Ok((v, p)) => Ok((SpecNode::Const(name, Box::new(v)), p)),
                        Err(e) => Err(e),
                    },
                    Err(e) => Err(e),
                },
                Err(e) => Err(e),
            }
        },
        TokenType::Var => {
            match sp_ident(toks, adv(toks, i)) {
                Ok((name, k)) => match sp_expect(toks, k, TokenType::Colon) {
                    Ok(m) => match sp_ident(toks, m) {
                        Ok((ty, p)) => Ok((SpecNode::Var(name, ty), p)),
                        Err(e) => Err(e),
                    },
                    Err(e) => Err(e),
                },
                Err(e) => Err(e),
            }
        },
        TokenType::Func => sp_func(toks, i),
        TokenType::If => {
            match sp_expression(toks, adv(toks, i)) {
                Ok((cond, k)) => match sp_expect(toks, k, TokenType::Then) {
                    Ok(m) => {
                        if i < m && m <= toks.len() {
                            match sp_commands(toks, m) {
                                Ok((tb, p)) => match sp_expect(toks, p, TokenType::Else) {
                                    Ok(q) => {
                                        if i < q && q <= toks.len() {
                                            match sp_commands(toks, q) {
                                                Ok((eb, w)) => Ok(
                                                    (
                                                        SpecNode::If(
                                                            Box::new(cond),
                                                            Box::new(tb),
                                                            Box::new(eb),
                                                        ),
                                                        w,
                                                    ),
                                                ),
                                                Err(e) => Err(e),
                                            }
                                        } else {
                                            Err(eoi_err(t))
                                        }
                                    },
                                    Err(e) => Err(e),
                                },
                                Err(e) => Err(e),
                            }
                        } else {
                            Err(eoi_err(t))
                        }
                    },
                    Err(e) => Err(e),
                },
                Err(e) => Err(e),
            }
        },
        TokenType::Begin => {
            let j = adv(toks, i);
            if i < j {
                match sp_commands(toks, j) {
                    Ok((inner, k)) => match sp_expect(toks, k, TokenType::End) {
                        Ok(m) => Ok((inner, m)),
                        Err(e) => Err(e),
                    },
                    Err(e) => Err(e),
                }
            } else {
                Err(eoi_err(t))
            }
        },
        TokenType::Identifier => {
            match sp_ident(toks, i) {
                Ok((name, j)) => {
                    if toks[j].token_type == TokenType::Assign {
                        match sp_expression(toks, adv(toks, j)) {
                            Ok((v, p)) => Ok(
                                (SpecNode::Assign(seq![name], Box::new(v)), p),
                            ),
                            Err(e) => Err(e),
                        }
                    } else if toks[j].token_type == TokenType::LeftParen {
                        match sp_actual_params(toks, adv(toks, j)) {
                            Ok((args, p)) => match sp_expect(toks, p, TokenType::RightParen) {
                                Ok(q) => Ok((SpecNode::Call(name, args), q)),
                                Err(e) => Err(e),
                            },
                            Err(e) => Err(e),
                        }
                    } else {
                        Err(assign_or_call_err(toks[j]))
                    }
                },
                Err(e) => Err(e),
            }
        },
        _ => Err(command_err(t)),
    }
}

/// `'func' Ident '(' FormalParams ')' ':' Ident '~' Expression`, shared by
/// commands and declarations.
pub open spec fn sp_func(toks: Seq<Token>, i: int) -> Result<(SpecNode, int), SyntaxError>
    decreases toks.len() - i, 9int,
{
    match sp_ident(toks, adv(toks, i)) {
        Ok((name, k)) => match sp_expect(toks, k, TokenType::LeftParen) {
            Ok(m) => {
                if i <= m && m <= toks.len() {
                    match sp_formal_params(toks, m) {
                        Ok((params, p)) => match sp_expect(toks, p, TokenType::RightParen) {
                            Ok(q) => match sp_expect(toks, q, TokenType::Colon) {
                                Ok(w) => match sp_ident(toks, w) {
                                    Ok((ret, x)) => match sp_expect(toks, x, TokenType::Tilde) {
                                        Ok(y) => {
                                            if i <= y && y <= toks.len() {
                                                match sp_expression(toks, y) {
                                                    Ok((body, z)) => Ok(
                                                        (
                                                            SpecNode::Func(
                                                                name,
                                                                params,
                                                                ret,
                                                                Box::new(body),
                                                            ),
                                                            z,
                                                        ),
                                                    ),
                                                    Err(e) => Err(e),
                                                }
                                            } else {
                                                Err(eoi_err(toks[i]))
                                            }
                                        },
                                        Err(e) => Err(e),
                                    },
                                    Err(e) => Err(e),
                                },
                                Err(e) => Err(e),
                            },
                            Err(e) => Err(e),
                        },
                        Err(e) => Err(e),
                    }
                } else {
                    Err(eoi_err(toks[i]))
                }
            },
            Err(e) => Err(e),
        },
        Err(e) => Err(e),
    }
}

/// `Declarations := Declaration (';' Declaration)*` — one declaration, then
/// the rest.
pub open spec fn sp_declarations(toks: Seq<Token>, i: int) -> Result<(SpecNode, int), SyntaxError>
    decreases toks.len() - i, 8int,
{
    match sp_declaration(toks, i) {
        Ok((d, j)) => {
            if i <= j && j <= toks.len() {
                sp_declarations_rest(toks, j, seq![d])
            } else {
                Err(eoi_err(toks[i]))
            }
        },
        Err(e) => Err(e),
    }
}

/// The repetition of `(';' Declaration)*` after the declarations in `acc`,
/// and the collapsing rule: a single declaration stands for itself, two or
/// more are wrapped in a `Declaration` node in source order.
pub open spec fn sp_declarations_rest(toks: Seq<Token>, i: int, acc: Seq<SpecNode>) -> Result<
    (SpecNode, int),
    SyntaxError,
>
    decreases toks.len() - i, 7int,
{
    if toks[i].token_type == TokenType::Semicolon {
        match sp_declaration(toks, adv(toks, i)) {
            Ok((d, k)) => {
                if i < k && k <= toks.len() {
                    sp_declarations_rest(toks, k, acc.push(d))
                } else {
                    Err(eoi_err(toks[i]))
                }
            },
            Err(e) => Err(e),
        }
    } else {
        if acc.len() == 1 {
            Ok((acc[0], i))
        } else {
            Ok((SpecNode::Declaration(acc), i))
        }
    }
}

/// `Declaration`, chosen by the kind of the current token.
pub open spec fn sp_declaration(toks: Seq<Token>, i: int) -> Result<(SpecNode, int), SyntaxError>
    decreases toks.len() - i, 6int,
{
    let t = toks[i];
    match t.token_type {
        TokenType::Const => {
            match sp_ident(toks, adv(toks, i)) {
                Ok((name, k)) => match sp_expect(toks, k, TokenType::Tilde) {
                    Ok(m) => match sp_expression(toks, m) {
                        Ok((v, p)) => Ok((SpecNode::Const(name, Box::new(v)), p)),
                        Err(e) => Err(e),
                    },
                    Err(e) => Err(e),
                },
                Err(e) => Err(e),
            }
        },
        TokenType::Var => {
            match sp_ident(toks, adv(toks, i)) {
                Ok((name, k)) => match sp_expect(toks, k, TokenType::Colon) {
                    Ok(m) => match sp_ident(toks, m) {
                        Ok((ty, p)) => Ok((SpecNode::Var(name, ty), p)),
                        Err(e) => Err(e),
                    },
                    Err(e) => Err(e),
                },
                Err(e) => Err(e),
            }
        },
        TokenType::Func => sp_func(toks, i),
        _ => Err(declaration_err(t)),
    }
}

/// `ActualParams := [ Expression (',' Expression)* ]` — empty exactly when
/// the current token is the closing parenthesis.
pub open spec fn sp_actual_params(toks: Seq<Token>, i: int) -> Result<
    (Seq<SpecNode>, int),
    SyntaxError,
>
    decreases toks.len() - i, 5int,
{
    if toks[i].token_type == TokenType::RightParen {
        Ok((Seq::empty(), i))
    } else {
        match sp_expression(toks, i) {
            Ok((e0, j)) => {
                if i <= j && j <= toks.len() {
                    sp_actual_params_rest(toks, j, seq![e0])
                } else {
                    Err(eoi_err(toks[i]))
                }
            },
            Err(e) => Err(e),
        }
    }
}

/// The repetition of `(',' Expression)*` after the arguments in `acc`.
pub open spec fn sp_actual_params_rest(toks: Seq<Token>, i: int, acc: Seq<SpecNode>) -> Result<
    (Seq<SpecNode>, int),
    SyntaxError,
>
    decreases toks.len() - i, 4int,
{
    if toks[i].token_type == TokenType::Comma {
        match sp_expression(toks, adv(toks, i)) {
            Ok((e0, k)) => {
                if i < k && k <= toks.len() {
                    sp_actual_params_rest(toks, k, acc.push(e0))
                } else {
                    Err(eoi_err(toks[i]))
                }
            },
            Err(e) => Err(e),
        }
    } else {
        Ok((acc, i))
    }
}

/// `Expression := Primary (Operator Primary)*` — flat, left-to-right, with
/// no precedence levels.
pub open spec fn sp_expression(toks: Seq<Token>, i: int) -> Result<(SpecNode, int), SyntaxError>
    decreases toks.len() - i, 3int,
{
    match sp_primary(toks, i) {
        Ok((left, j)) => {
            if i <= j && j <= toks.len() {
                sp_expression_tail(toks, j, left)
            } else {
                Err(eoi_err(toks[i]))
            }
        },
        Err(e) => Err(e),
    }
}

/// The repetition of `(Operator Primary)*`: while an operator stands at the
/// cursor, the expression built so far becomes the left operand of a new
/// `Operator` node — every operator binds at the same level, associating
/// strictly to the left.
pub open spec fn sp_expression_tail(toks: Seq<Token>, i: int, left: SpecNode) -> Result<
    (SpecNode, int),
    SyntaxError,
>
    decreases toks.len() - i, 2int,
{
    if toks[i].token_type == TokenType::Operator {
        let op = toks[i].lexeme@;
        match sp_primary(toks, adv(toks, i)) {
            Ok((right, k)) => {
                if i < k && k <= toks.len() {
                    sp_expression_tail(
                        toks,
                        k,
                        SpecNode::Operator(op, Box::new(left), Box::new(right)),
                    )
                } else {
                    Err(eoi_err(toks[i]))
                }
            },
            Err(e) => Err(e),
        }
    } else {
        Ok((left, i))
    }
}

/// `Primary := IntegerLiteral | CharLiteral | Ident ['(' ActualParams ')']
/// | '(' Expression ')'` — parentheses only group: they yield the inner
/// expression's tree itself, with no node of their own.
pub open spec fn sp_primary(toks: Seq<Token>, i: int) -> Result<(SpecNode, int), SyntaxError>
    decreases toks.len() - i, 1int,
{
    let t = toks[i];
    match t.token_type {
        TokenType::IntegerLiteral => Ok(
            (SpecNode::Number(int_lexeme_val(t.lexeme@)), adv(toks, i)),
        ),
        TokenType::CharLiteral => Ok((SpecNode::Char(t.lexeme@[0]), adv(toks, i))),
        TokenType::Identifier => {
            match sp_ident(toks, i) {
                Ok((name, j)) => {
                    if toks[j].token_type == TokenType::LeftParen {
                        match sp_actual_params(toks, adv(toks, j)) {
                            Ok((args, p)) => match sp_expect(toks, p, TokenType::RightParen) {
                                Ok(q) => Ok((SpecNode::Call(name, args), q)),
                                Err(e) => Err(e),
                            },
                            Err(e) => Err(e),
                        }
                    } else {
                        Ok((SpecNode::Identifier(name), j))
                    }
                },
                Err(e) => Err(e),
            }
        },
        TokenType::LeftParen => {
            let j = adv(toks, i);
            if i < j {
                match sp_expression(toks, j) {
                    Ok((inner, k)) => match sp_expect(toks, k, TokenType::RightParen) {
                        Ok(m) => Ok((inner, m)),
                        Err(e) => Err(e),
                    },
                    Err(e) => Err(e),
                }
            } else {
                Err(eoi_err(t))
            }
        },
        _ => Err(primary_err(t)),
    }
}

/// `FormalParams := [ FormalParam (',' FormalParam)* ]` — empty exactly when
/// the current token is the closing parenthesis.
pub open spec fn sp_formal_params(toks: Seq<Token>, i: int) -> Result<
    (Seq<SpecNode>, int),
    SyntaxError,
>
    decreases toks.len() - i, 1int,
{
    if toks[i].token_type == TokenType::RightParen {
        Ok((Seq::empty(), i))
    } else {
        match sp_formal_param(toks, i) {
            Ok((p0, j)) => {
                if i <= j && j <= toks.len() {
                    sp_formal_params_rest(toks, j, seq![p0])
                } else {
                    Err(eoi_err(toks[i]))
                }
            },
            Err(e) => Err(e),
        }
    }
}

/// The repetition of `(',' FormalParam)*` after the parameters in `acc`.
pub open spec fn sp_formal_params_rest(toks: Seq<Token>, i: int, acc: Seq<SpecNode>) -> Result<
    (Seq<SpecNode>, int),
    SyntaxError,
>
    decreases toks.len() - i, 0int,
{
    if toks[i].token_type == TokenType::Comma {
        match sp_formal_param(toks, adv(toks, i)) {
            Ok((p0, k)) => {
                if i < k && k <= toks.len() {
                    sp_formal_params_rest(toks, k, acc.push(p0))
                } else {
                    Err(eoi_err(toks[i]))
                }
            },
            Err(e) => Err(e),
        }
    } else {
        Ok((acc, i))
    }
}

/// `FormalParam := ['var'] Ident ':' Ident` — the optional `var` marker is
/// consumed but both forms yield the same `Var` node.
pub open spec fn sp_formal_param(toks: Seq<Token>, i: int) -> Result<(SpecNode, int), SyntaxError> {
    let j = if toks[i].token_type == TokenType::Var {
        adv(toks, i)
    } else {
        i
    };
    match sp_ident(toks, j) {
        Ok((name, k)) => match sp_expect(toks, k, TokenType::Colon) {
            Ok(m) => match sp_ident(toks, m) {
                Ok((ty, p)) => Ok((SpecNode::Var(name, ty), p)),
                Err(e) => Err(e),
            },
            Err(e) => Err(e),
        },
        Err(e) => Err(e),
    }
}

/// `Program := Commands`, with a stream that holds no commands at all —
/// empty, or beginning at its end-of-stream marker — reported as the
/// distinct "no input" structural error before grammar matching starts.
pub open spec fn sp_program(toks: Seq<Token>) -> Result<(SpecNode, int), SyntaxError> {
    if toks.len() == 0 || toks[0].token_type == TokenType::EOF {
        Err(SyntaxError::NoInput)
    } else {
        sp_commands(toks, 0)
    }
}

} // verus!
