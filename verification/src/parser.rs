use vstd::prelude::*;

use crate::ast::ASTNode;
use crate::ast::SpecNode;
use crate::ast::deep_nodes;
use crate::ast::lemma_deep_nodes_index;
use crate::ast::lemma_deep_nodes_len;
use crate::ast::lemma_deep_nodes_push;
use crate::digits::parse_i64;
use crate::error::SyntaxError;
use crate::grammar::adv;
use crate::grammar::cmd_start;
use crate::grammar::decl_start;
use crate::grammar::formal_start;
use crate::grammar::primary_start;
use crate::grammar::sp_actual_params;
use crate::grammar::sp_actual_params_rest;
use crate::grammar::sp_command;
use crate::grammar::sp_commands;
use crate::grammar::sp_commands_rest;
use crate::grammar::sp_declaration;
use crate::grammar::sp_declarations;
use crate::grammar::sp_declarations_rest;
use crate::grammar::sp_expect;
use crate::grammar::sp_expression;
use crate::grammar::sp_expression_tail;
use crate::grammar::sp_formal_param;
use crate::grammar::sp_formal_params;
use crate::grammar::sp_formal_params_rest;
use crate::grammar::sp_func;
use crate::grammar::sp_ident;
use crate::grammar::sp_primary;
use crate::grammar::sp_program;
use crate::token::Token;
use crate::token::TokenType;
use crate::token::wf_tokens;

verus! {

/// The parser's cursor over an already-materialized token stream: the
/// stream, an index into it, and a cached copy of the token at the index.
/// The stream is read-only for the parser's whole lifetime; only the index
/// and the cache move.
pub struct SyntaxParser {
    pub current: Token,
    pub tokens: Vec<Token>,
    pub index: usize,
}

impl SyntaxParser {
    /// The cursor invariant: the index stays inside the stream and the
    /// cached token is the one at the index; an empty stream parks the
    /// cursor at zero behind a synthetic end-of-stream token.
    pub open spec fn wf(&self) -> bool {
        &&& self.tokens@.len() > 0 ==> {
            &&& self.index < self.tokens@.len()
            &&& self.current == self.tokens@[self.index as int]
        }
        &&& self.tokens@.len() == 0 ==> {
            &&& self.index == 0
            &&& self.current.token_type == TokenType::EOF
        }
    }

    /// Builds a parser positioned on the first token of `tokens`, or on a
    /// synthetic end-of-stream token if there is none.
    pub fn from_tokens(tokens: Vec<Token>) -> (p: Self)
        ensures
            p.wf(),
            p.tokens@ == tokens@,
            p.index == 0,
            tokens@.len() == 0 ==> p.current.token_type == TokenType::EOF && p.current.lexeme@
                == Seq::<char>::empty() && p.current.row == 0 && p.current.col == 0,
    {
        if tokens.len() > 0 {
            let current = tokens[0].duplicate();
            SyntaxParser { current, tokens, index: 0 }
        } else {
            SyntaxParser {
                current: Token::new(TokenType::EOF, String::new(), 0, 0),
                tokens,
                index: 0,
            }
        }
    }

    /// Moves the cursor one token forward; a no-op at the end of the stream.
    fn advance(&mut self)
        requires
            old(self).wf(),
            old(self).tokens@.len() > 0,
        ensures
            final(self).wf(),
            final(self).tokens@ == old(self).tokens@,
            final(self).index as int == adv(final(self).tokens@, old(self).index as int),
    {
        if self.index < self.tokens.len() - 1 {
            self.index = self.index + 1;
            self.current = self.tokens[self.index].duplicate();
        }
    }

    /// Consumes the current token if it has the required kind; otherwise
    /// reports what was required, what stood there, and where, touching
    /// nothing.
    fn expect_token(&mut self, expected: TokenType) -> (r: Result<(), SyntaxError>)
        requires
            old(self).wf(),
            old(self).tokens@.len() > 0,
        ensures
            final(self).wf(),
            final(self).tokens@ == old(self).tokens@,
            old(self).index <= final(self).index,
            match r {
                Ok(_) => sp_expect(final(self).tokens@, old(self).index as int, expected)
                    == Ok::<int, SyntaxError>(final(self).index as int) && old(self).current.token_type
                    == expected,
                Err(e) => sp_expect(final(self).tokens@, old(self).index as int, expected)
                    == Err::<int, SyntaxError>(e) && *final(self) == *old(self),
            },
    {
        if self.current.token_type == expected {
            self.advance();
            Ok(())
        } else {
            Err(
                SyntaxError::Expected {
                    expected,
                    found: self.current.token_type,
                    found_lexeme: self.current.lexeme.clone(),
                    row: self.current.row,
                    col: self.current.col,
                },
            )
        }
    }

    /// Consumes an identifier and yields its lexeme; otherwise reports what
    /// stood there, touching nothing.
    fn capture_identifier(&mut self) -> (r: Result<String, SyntaxError>)
        requires
            old(self).wf(),
            old(self).tokens@.len() > 0,
        ensures
            final(self).wf(),
            final(self).tokens@ == old(self).tokens@,
            old(self).index <= final(self).index,
            match r {
                Ok(name) => sp_ident(final(self).tokens@, old(self).index as int) == Ok::<
                    (Seq<char>, int),
                    SyntaxError,
                >((name@, final(self).index as int)) && old(self).current.token_type
                    == TokenType::Identifier,
                Err(e) => sp_ident(final(self).tokens@, old(self).index as int) == Err::<
                    (Seq<char>, int),
                    SyntaxError,
                >(e) && *final(self) == *old(self),
            },
    {
        if self.current.token_type == TokenType::Identifier {
            let id_name = self.current.lexeme.clone();
            self.advance();
            Ok(id_name)
        } else {
            Err(
                SyntaxError::ExpectedIdentifier {
                    found: self.current.token_type,
                    found_lexeme: self.current.lexeme.clone(),
                    row: self.current.row,
                    col: self.current.col,
                },
            )
        }
    }

    /// Parses a whole program: a stream that holds no commands at all —
    /// empty, or standing at its end-of-stream marker — is the distinct
    /// "no input" error, anything else is a `Commands` region, and the
    /// result is exactly what the grammar (`sp_program`) assigns to the
    /// stream.
    pub fn parse_program(&mut self) -> (r: Result<ASTNode, SyntaxError>)
        requires
            old(self).wf(),
            wf_tokens(old(self).tokens@),
        ensures
            final(self).wf(),
            final(self).tokens@ == old(self).tokens@,
            old(self).index <= final(self).index,
            old(self).current.token_type == TokenType::EOF ==> r == Err::<ASTNode, SyntaxError>(
                SyntaxError::NoInput,
            ) && *final(self) == *old(self),
            old(self).current.token_type != TokenType::EOF ==> match r {
                Ok(node) => sp_commands(final(self).tokens@, old(self).index as int) == Ok::<
                    (SpecNode, int),
                    SyntaxError,
                >((node@, final(self).index as int)),
                Err(e) => sp_commands(final(self).tokens@, old(self).index as int) == Err::<
                    (SpecNode, int),
                    SyntaxError,
                >(e),
            },
            old(self).index == 0 ==> match r {
                Ok(node) => sp_program(final(self).tokens@) == Ok::<(SpecNode, int), SyntaxError>(
                    (node@, final(self).index as int),
                ),
                Err(e) => sp_program(final(self).tokens@) == Err::<(SpecNode, int), SyntaxError>(e),
            },
    {
        if self.current.token_type == TokenType::EOF {
            Err(SyntaxError::NoInput)
        } else {
            self.process_commands()
        }
    }

    /// `Commands := Command (';' Command)*`, with the collapsing rule: one
    /// command stands for itself, two or more are wrapped in a `Command`
    /// node in source order.
    #[verifier::loop_isolation(false)]
    fn process_commands(&mut self) -> (r: Result<ASTNode, SyntaxError>)
        requires
            old(self).wf(),
            old(self).tokens@.len() > 0,
            wf_tokens(old(self).tokens@),
        ensures
            final(self).wf(),
            final(self).tokens@ == old(self).tokens@,
            old(self).index <= final(self).index,
            match r {
                Ok(node) => sp_commands(final(self).tokens@, old(self).index as int) == Ok::<
                    (SpecNode, int),
                    SyntaxError,
                >((node@, final(self).index as int)) && cmd_start(old(self).current.token_type),
                Err(e) => sp_commands(final(self).tokens@, old(self).index as int) == Err::<
                    (SpecNode, int),
                    SyntaxError,
                >(e),
            },
        decreases self.tokens.len() - self.index, 12int,
    {
        let ghost toks = self.tokens@;
        let ghost i0 = self.index as int;
        let first = match self.parse_single_command() {
            Ok(c) => c,
            Err(e) => return Err(e),
        };
        let mut commands: Vec<ASTNode> = Vec::new();
        commands.push(first);
        proof {
            lemma_deep_nodes_push(Seq::<ASTNode>::empty(), commands@[0]);
            assert(commands@ =~= Seq::<ASTNode>::empty().push(commands@[0]));
            assert(deep_nodes(commands@) =~= seq![commands@[0].deep()]);
        }
        while self.current.token_type == TokenType::Semicolon
            invariant
                self.wf(),
                self.tokens@ == toks,
                toks.len() > 0,
                wf_tokens(toks),
                i0 <= self.index as int,
                commands@.len() >= 1,
                cmd_start(toks[i0].token_type),
                sp_commands(toks, i0) == sp_commands_rest(
                    toks,
                    self.index as int,
                    deep_nodes(commands@),
                ),
            decreases toks.len() - self.index,
        {
            let ghost iw = self.index as int;
            let ghost acc0 = commands@;
            self.advance();
            let c = match self.parse_single_command() {
                Ok(c) => c,
                Err(e) => return Err(e),
            };
            proof {
                assert(adv(toks, iw) > iw);
            }
            commands.push(c);
            proof {
                lemma_deep_nodes_push(acc0, c);
                assert(commands@ == acc0.push(c));
            }
        }
        proof {
            lemma_deep_nodes_len(commands@);
        }
        if commands.len() == 1 {
            let node = commands.remove(0);
            proof {
                lemma_deep_nodes_index(commands@.insert(0, node), 0);
                assert(commands@.insert(0, node)[0] == node);
            }
            Ok(node)
        } else {
            Ok(ASTNode::Command(commands))
        }
    }

    /// `Command`, chosen by the kind of the current token; consumes exactly
    /// the command's tokens and yields its node, or the first error met.
    fn parse_single_command(&mut self) -> (r: Result<ASTNode, SyntaxError>)
        requires
            old(self).wf(),
            old(self).tokens@.len() > 0,
            wf_tokens(old(self).tokens@),
        ensures
            final(self).wf(),
            final(self).tokens@ == old(self).tokens@,
            old(self).index <= final(self).index,
            match r {
                Ok(node) => sp_command(final(self).tokens@, old(self).index as int) == Ok::<
                    (SpecNode, int),
                    SyntaxError,
                >((node@, final(self).index as int)) && cmd_start(old(self).current.token_type),
                Err(e) => sp_command(final(self).tokens@, old(self).index as int) == Err::<
                    (SpecNode, int),
                    SyntaxError,
                >(e),
            },
        decreases self.tokens.len() - self.index, 10int,
    {
        let ghost toks = self.tokens@;
        let ghost i0 = self.index as int;
        match self.current.token_type {
            TokenType::Let => {
                self.advance();
                let declarations = match self.process_declarations() {
                    Ok(d) => d,
                    Err(e) => return Err(e),
                };
                proof {
                    assert(adv(toks, i0) > i0);
                }
                match self.expect_token(TokenType::In) {
                    Ok(_) => {},
                    Err(e) => return Err(e),
                }
                let commands = match self.process_commands() {
                    Ok(c) => c,
                    Err(e) => return Err(e),
                };
                Ok(ASTNode::Let(Box::new(declarations), Box::new(commands)))
            },
            TokenType::Const => {
                self.advance();
                let name = match self.capture_identifier() {
                    Ok(n) => n,
                    Err(e) => return Err(e),
                };
                match self.expect_token(TokenType::Tilde) {
                    Ok(_) => {},
                    Err(e) => return Err(e),
                }
                let expression = match self.parse_expression() {
                    Ok(x) => x,
                    Err(e) => return Err(e),
                };
                Ok(ASTNode::Const(name, Box::new(expression)))
            },
            TokenType::Var => {
                self.advance();
                let variable_name = match self.capture_identifier() {
                    Ok(n) => n,
                    Err(e) => return Err(e),
                };
                match self.expect_token(TokenType::Colon) {
                    Ok(_) => {},
                    Err(e) => return Err(e),
                }
                let type_identifier = match self.capture_identifier() {
                    Ok(n) => n,
                    Err(e) => return Err(e),
                };
                Ok(ASTNode::Var(variable_name, type_identifier))
            },
            TokenType::Func => self.parse_function_item(),
            TokenType::If => {
                self.advance();
                let condition = match self.parse_expression() {
                    Ok(x) => x,
                    Err(e) => return Err(e),
                };
                proof {
                    assert(adv(toks, i0) > i0);
                }
                match self.expect_token(TokenType::Then) {
                    Ok(_) => {},
                    Err(e) => return Err(e),
                }
                let then_block = match self.process_commands() {
                    Ok(c) => c,
                    Err(e) => return Err(e),
                };
                match self.expect_token(TokenType::Else) {
                    Ok(_) => {},
                    Err(e) => return Err(e),
                }
                let else_block = match self.process_commands() {
                    Ok(c) => c,
                    Err(e) => return Err(e),
                };
                Ok(ASTNode::If(Box::new(condition), Box::new(then_block), Box::new(else_block)))
            },
            TokenType::Begin => {
                if self.index >= self.tokens.len() - 1 {
                    // the stream ends at this token: `begin` needs commands
                    // and `end` after it, and re-reading the final token
                    // would never end
                    return Err(
                        SyntaxError::UnexpectedEndOfInput {
                            row: self.current.row,
                            col: self.current.col,
                        },
                    );
                }
                self.advance();
                let inner_commands = match self.process_commands() {
                    Ok(c) => c,
                    Err(e) => return Err(e),
                };
                match self.expect_token(TokenType::End) {
                    Ok(_) => {},
                    Err(e) => return Err(e),
                }
                Ok(inner_commands)
            },
            TokenType::Identifier => {
                let id = match self.capture_identifier() {
                    Ok(n) => n,
                    Err(e) => return Err(e),
                };
                if self.current.token_type == TokenType::Assign {
                    self.advance();
                    let expr = match self.parse_expression() {
                        Ok(x) => x,
                        Err(e) => return Err(e),
                    };
                    let mut names: Vec<String> = Vec::new();
                    names.push(id);
                    proof {
                        assert(names.deep_view() =~= seq![toks[i0].lexeme@]);
                    }
                    Ok(ASTNode::Assign(names, Box::new(expr)))
                } else if self.current.token_type == TokenType::LeftParen {
                    self.advance();
                    let args = match self.get_actual_parameters() {
                        Ok(a) => a,
                        Err(e) => return Err(e),
                    };
                    match self.expect_token(TokenType::RightParen) {
                        Ok(_) => {},
                        Err(e) => return Err(e),
                    }
                    Ok(ASTNode::Call(id, args))
                } else {
                    Err(
                        SyntaxError::ExpectedAssignOrLeftParen {
                            found: self.current.token_type,
                            found_lexeme: self.current.lexeme.clone(),
                            row: self.current.row,
                            col: self.current.col,
                        },
                    )
                }
            },
            _ => Err(
                SyntaxError::UnexpectedCommandToken {
                    found: self.current.token_type,
                    found_lexeme: self.current.lexeme.clone(),
                    row: self.current.row,
                    col: self.current.col,
                },
            ),
        }
    }

    /// `'func' Ident '(' FormalParams ')' ':' Ident '~' Expression`, shared
    /// by commands and declarations.
    fn parse_function_item(&mut self) -> (r: Result<ASTNode, SyntaxError>)
        requires
            old(self).wf(),
            old(self).tokens@.len() > 0,
            wf_tokens(old(self).tokens@),
            old(self).current.token_type == TokenType::Func,
        ensures
            final(self).wf(),
            final(self).tokens@ == old(self).tokens@,
            old(self).index <= final(self).index,
            match r {
                Ok(node) => sp_func(final(self).tokens@, old(self).index as int) == Ok::<
                    (SpecNode, int),
                    SyntaxError,
                >((node@, final(self).index as int)),
                Err(e) => sp_func(final(self).tokens@, old(self).index as int) == Err::<
                    (SpecNode, int),
                    SyntaxError,
                >(e),
            },
        decreases self.tokens.len() - self.index, 9int,
    {
        let ghost toks = self.tokens@;
        let ghost i0 = self.index as int;
        self.advance();
        let func_name = match self.capture_identifier() {
            Ok(n) => n,
            Err(e) => return Err(e),
        };
        match self.expect_token(TokenType::LeftParen) {
            Ok(_) => {},
            Err(e) => return Err(e),
        }
        let parameters = match self.get_formal_parameters() {
            Ok(p) => p,
            Err(e) => return Err(e),
        };
        match self.expect_token(TokenType::RightParen) {
            Ok(_) => {},
            Err(e) => return Err(e),
        }
        match self.expect_token(TokenType::Colon) {
            Ok(_) => {},
            Err(e) => return Err(e),
        }
        let return_type = match self.capture_identifier() {
            Ok(n) => n,
            Err(e) => return Err(e),
        };
        match self.expect_token(TokenType::Tilde) {
            Ok(_) => {},
            Err(e) => return Err(e),
        }
        let func_body = match self.parse_expression() {
            Ok(x) => x,
            Err(e) => return Err(e),
        };
        Ok(ASTNode::Func(func_name, parameters, return_type, Box::new(func_body)))
    }

    /// `FormalParams := [ FormalParam (',' FormalParam)* ]`.
    #[verifier::loop_isolation(false)]
    fn get_formal_parameters(&mut self) -> (r: Result<Vec<ASTNode>, SyntaxError>)
        requires
            old(self).wf(),
            old(self).tokens@.len() > 0,
            wf_tokens(old(self).tokens@),
        ensures
            final(self).wf(),
            final(self).tokens@ == old(self).tokens@,
            old(self).index <= final(self).index,
            match r {
                Ok(params) => sp_formal_params(final(self).tokens@, old(self).index as int) == Ok::<
                    (Seq<SpecNode>, int),
                    SyntaxError,
                >((deep_nodes(params@), final(self).index as int)),
                Err(e) => sp_formal_params(final(self).tokens@, old(self).index as int) == Err::<
                    (Seq<SpecNode>, int),
                    SyntaxError,
                >(e),
            },
        decreases self.tokens.len() - self.index, 1int,
    {
        let ghost toks = self.tokens@;
        let ghost i0 = self.index as int;
        let mut params: Vec<ASTNode> = Vec::new();
        if self.current.token_type != TokenType::RightParen {
            let first = match self.parse_formal_parameter() {
                Ok(p) => p,
                Err(e) => return Err(e),
            };
            params.push(first);
            proof {
                lemma_deep_nodes_push(Seq::<ASTNode>::empty(), params@[0]);
                assert(params@ =~= Seq::<ASTNode>::empty().push(params@[0]));
                assert(deep_nodes(params@) =~= seq![params@[0].deep()]);
            }
            while self.current.token_type == TokenType::Comma
                invariant
                    self.wf(),
                    self.tokens@ == toks,
                    toks.len() > 0,
                    wf_tokens(toks),
                    i0 <= self.index as int,
                    sp_formal_params(toks, i0) == sp_formal_params_rest(
                        toks,
                        self.index as int,
                        deep_nodes(params@),
                    ),
                decreases toks.len() - self.index,
            {
                let ghost iw = self.index as int;
                let ghost acc0 = params@;
                self.advance();
                let p = match self.parse_formal_parameter() {
                    Ok(p) => p,
                    Err(e) => return Err(e),
                };
                proof {
                    assert(adv(toks, iw) > iw);
                }
                params.push(p);
                proof {
                    lemma_deep_nodes_push(acc0, p);
                    assert(params@ == acc0.push(p));
                }
            }
        } else {
            proof {
                assert(deep_nodes(params@) =~= Seq::<SpecNode>::empty());
            }
        }
        Ok(params)
    }

    /// `FormalParam := ['var'] Ident ':' Ident`; both forms yield the same
    /// `Var` node.
    fn parse_formal_parameter(&mut self) -> (r: Result<ASTNode, SyntaxError>)
        requires
            old(self).wf(),
            old(self).tokens@.len() > 0,
            wf_tokens(old(self).tokens@),
        ensures
            final(self).wf(),
            final(self).tokens@ == old(self).tokens@,
            old(self).index <= final(self).index,
            match r {
                Ok(p) => sp_formal_param(final(self).tokens@, old(self).index as int) == Ok::<
                    (SpecNode, int),
                    SyntaxError,
                >((p@, final(self).index as int)) && formal_start(old(self).current.token_type),
                Err(e) => sp_formal_param(final(self).tokens@, old(self).index as int) == Err::<
                    (SpecNode, int),
                    SyntaxError,
                >(e),
            },
    {
        if self.current.token_type == TokenType::Var {
            self.advance();
        }
        let name = match self.capture_identifier() {
            Ok(n) => n,
            Err(e) => return Err(e),
        };
        match self.expect_token(TokenType::Colon) {
            Ok(_) => {},
            Err(e) => return Err(e),
        }
        let param_type = match self.capture_identifier() {
            Ok(n) => n,
            Err(e) => return Err(e),
        };
        Ok(ASTNode::Var(name, param_type))
    }

    /// `ActualParams := [ Expression (',' Expression)* ]`.
    #[verifier::loop_isolation(false)]
    fn get_actual_parameters(&mut self) -> (r: Result<Vec<ASTNode>, SyntaxError>)
        requires
            old(self).wf(),
            old(self).tokens@.len() > 0,
            wf_tokens(old(self).tokens@),
        ensures
            final(self).wf(),
            final(self).tokens@ == old(self).tokens@,
            old(self).index <= final(self).index,
            match r {
                Ok(params) => sp_actual_params(final(self).tokens@, old(self).index as int) == Ok::<
                    (Seq<SpecNode>, int),
                    SyntaxError,
                >((deep_nodes(params@), final(self).index as int)),
                Err(e) => sp_actual_params(final(self).tokens@, old(self).index as int) == Err::<
                    (Seq<SpecNode>, int),
                    SyntaxError,
                >(e),
            },
        decreases self.tokens.len() - self.index, 5int,
    {
        let ghost toks = self.tokens@;
        let ghost i0 = self.index as int;
        let mut params: Vec<ASTNode> = Vec::new();
        if self.current.token_type != TokenType::RightParen {
            let first = match self.parse_expression() {
                Ok(x) => x,
                Err(e) => return Err(e),
            };
            params.push(first);
            proof {
                lemma_deep_nodes_push(Seq::<ASTNode>::empty(), params@[0]);
                assert(params@ =~= Seq::<ASTNode>::empty().push(params@[0]));
                assert(deep_nodes(params@) =~= seq![params@[0].deep()]);
            }
            while self.current.token_type == TokenType::Comma
                invariant
                    self.wf(),
                    self.tokens@ == toks,
                    toks.len() > 0,
                    wf_tokens(toks),
                    i0 <= self.index as int,
                    sp_actual_params(toks, i0) == sp_actual_params_rest(
                        toks,
                        self.index as int,
                        deep_nodes(params@),
                    ),
                decreases toks.len() - self.index,
            {
                let ghost iw = self.index as int;
                let ghost acc0 = params@;
                self.advance();
                let x = match self.parse_expression() {
                    Ok(x) => x,
                    Err(e) => return Err(e),
                };
                proof {
                    assert(adv(toks, iw) > iw);
                }
                params.push(x);
                proof {
                    lemma_deep_nodes_push(acc0, x);
                    assert(params@ == acc0.push(x));
                }
            }
        } else {
            proof {
                assert(deep_nodes(params@) =~= Seq::<SpecNode>::empty());
            }
        }
        Ok(params)
    }

    /// `Declarations := Declaration (';' Declaration)*`, with the collapsing
    /// rule: one declaration stands for itself, two or more are wrapped in a
    /// `Declaration` node in source order.
    #[verifier::loop_isolation(false)]
    fn process_declarations(&mut self) -> (r: Result<ASTNode, SyntaxError>)
        requires
            old(self).wf(),
            old(self).tokens@.len() > 0,
            wf_tokens(old(self).tokens@),
        ensures
            final(self).wf(),
            final(self).tokens@ == old(self).tokens@,
            old(self).index <= final(self).index,
            match r {
                Ok(node) => sp_declarations(final(self).tokens@, old(self).index as int) == Ok::<
                    (SpecNode, int),
                    SyntaxError,
                >((node@, final(self).index as int)) && decl_start(old(self).current.token_type),
                Err(e) => sp_declarations(final(self).tokens@, old(self).index as int) == Err::<
                    (SpecNode, int),
                    SyntaxError,
                >(e),
            },
        decreases self.tokens.len() - self.index, 8int,
    {
        let ghost toks = self.tokens@;
        let ghost i0 = self.index as int;
        let first = match self.parse_single_declaration() {
            Ok(d) => d,
            Err(e) => return Err(e),
        };
        let mut decls: Vec<ASTNode> = Vec::new();
        decls.push(first);
        proof {
            lemma_deep_nodes_push(Seq::<ASTNode>::empty(), decls@[0]);
            assert(decls@ =~= Seq::<ASTNode>::empty().push(decls@[0]));
            assert(deep_nodes(decls@) =~= seq![decls@[0].deep()]);
        }
        while self.current.token_type == TokenType::Semicolon
            invariant
                self.wf(),
                self.tokens@ == toks,
                toks.len() > 0,
                wf_tokens(toks),
                i0 <= self.index as int,
                decls@.len() >= 1,
                decl_start(toks[i0].token_type),
                sp_declarations(toks, i0) == sp_declarations_rest(
                    toks,
                    self.index as int,
                    deep_nodes(decls@),
                ),
            decreases toks.len() - self.index,
        {
            let ghost iw = self.index as int;
            let ghost acc0 = decls@;
            self.advance();
            let d = match self.parse_single_declaration() {
                Ok(d) => d,
                Err(e) => return Err(e),
            };
            proof {
                assert(adv(toks, iw) > iw);
            }
            decls.push(d);
            proof {
                lemma_deep_nodes_push(acc0, d);
                assert(decls@ == acc0.push(d));
            }
        }
        proof {
            lemma_deep_nodes_len(decls@);
        }
        if decls.len() == 1 {
            let node = decls.remove(0);
            proof {
                lemma_deep_nodes_index(decls@.insert(0, node), 0);
                assert(decls@.insert(0, node)[0] == node);
            }
            Ok(node)
        } else {
            Ok(ASTNode::Declaration(decls))
        }
    }

    /// `Declaration`, chosen by the kind of the current token.
    fn parse_single_declaration(&mut self) -> (r: Result<ASTNode, SyntaxError>)
        requires
            old(self).wf(),
            old(self).tokens@.len() > 0,
            wf_tokens(old(self).tokens@),
        ensures
            final(self).wf(),
            final(self).tokens@ == old(self).tokens@,
            old(self).index <= final(self).index,
            match r {
                Ok(node) => sp_declaration(final(self).tokens@, old(self).index as int) == Ok::<
                    (SpecNode, int),
                    SyntaxError,
                >((node@, final(self).index as int)) && decl_start(old(self).current.token_type),
                Err(e) => sp_declaration(final(self).tokens@, old(self).index as int) == Err::<
                    (SpecNode, int),
                    SyntaxError,
                >(e),
            },
        decreases self.tokens.len() - self.index, 6int,
    {
        match self.current.token_type {
            TokenType::Const => {
                self.advance();
                let name = match self.capture_identifier() {
                    Ok(n) => n,
                    Err(e) => return Err(e),
                };
                match self.expect_token(TokenType::Tilde) {
                    Ok(_) => {},
                    Err(e) => return Err(e),
                }
                let expr = match self.parse_expression() {
                    Ok(x) => x,
                    Err(e) => return Err(e),
                };
                Ok(ASTNode::Const(name, Box::new(expr)))
            },
            TokenType::Var => {
                self.advance();
                let var_name = match self.capture_identifier() {
                    Ok(n) => n,
                    Err(e) => return Err(e),
                };
                match self.expect_token(TokenType::Colon) {
                    Ok(_) => {},
                    Err(e) => return Err(e),
                }
                let var_type = match self.capture_identifier() {
                    Ok(n) => n,
                    Err(e) => return Err(e),
                };
                Ok(ASTNode::Var(var_name, var_type))
            },
            TokenType::Func => self.parse_function_item(),
            _ => Err(
                SyntaxError::UnexpectedDeclarationToken {
                    found: self.current.token_type,
                    found_lexeme: self.current.lexeme.clone(),
                    row: self.current.row,
                    col: self.current.col,
                },
            ),
        }
    }

    /// `Expression := Primary (Operator Primary)*` — flat and left-to-right.
    fn parse_expression(&mut self) -> (r: Result<ASTNode, SyntaxError>)
        requires
            old(self).wf(),
            old(self).tokens@.len() > 0,
            wf_tokens(old(self).tokens@),
        ensures
            final(self).wf(),
            final(self).tokens@ == old(self).tokens@,
            old(self).index <= final(self).index,
            match r {
                Ok(node) => sp_expression(final(self).tokens@, old(self).index as int) == Ok::<
                    (SpecNode, int),
                    SyntaxError,
                >((node@, final(self).index as int)) && primary_start(old(self).current.token_type),
                Err(e) => sp_expression(final(self).tokens@, old(self).index as int) == Err::<
                    (SpecNode, int),
                    SyntaxError,
                >(e),
            },
        decreases self.tokens.len() - self.index, 4int,
    {
        let left = match self.parse_primary_expression() {
            Ok(x) => x,
            Err(e) => return Err(e),
        };
        self.parse_expression_prime(left)
    }

    /// The repetition of `(Operator Primary)*`: each operator met folds the
    /// expression built so far into the left operand of a new `Operator`
    /// node — strictly left-associative, with no precedence levels.
    fn parse_expression_prime(&mut self, left: ASTNode) -> (r: Result<ASTNode, SyntaxError>)
        requires
            old(self).wf(),
            old(self).tokens@.len() > 0,
            wf_tokens(old(self).tokens@),
        ensures
            final(self).wf(),
            final(self).tokens@ == old(self).tokens@,
            old(self).index <= final(self).index,
            match r {
                Ok(node) => sp_expression_tail(final(self).tokens@, old(self).index as int, left@)
                    == Ok::<(SpecNode, int), SyntaxError>((node@, final(self).index as int)),
                Err(e) => sp_expression_tail(final(self).tokens@, old(self).index as int, left@)
                    == Err::<(SpecNode, int), SyntaxError>(e),
            },
        decreases self.tokens.len() - self.index, 3int,
    {
        let ghost toks = self.tokens@;
        let ghost i0 = self.index as int;
        if self.current.token_type == TokenType::Operator {
            let operator = self.current.lexeme.clone();
            self.advance();
            let right = match self.parse_primary_expression() {
                Ok(x) => x,
                Err(e) => return Err(e),
            };
            proof {
                assert(adv(toks, i0) > i0);
            }
            let expr = ASTNode::Operator(operator, Box::new(left), Box::new(right));
            self.parse_expression_prime(expr)
        } else {
            Ok(left)
        }
    }

    /// `Primary := IntegerLiteral | CharLiteral | Ident ['(' ActualParams
    /// ')'] | '(' Expression ')'`.
    fn parse_primary_expression(&mut self) -> (r: Result<ASTNode, SyntaxError>)
        requires
            old(self).wf(),
            old(self).tokens@.len() > 0,
            wf_tokens(old(self).tokens@),
        ensures
            final(self).wf(),
            final(self).tokens@ == old(self).tokens@,
            old(self).index <= final(self).index,
            match r {
                Ok(node) => sp_primary(final(self).tokens@, old(self).index as int) == Ok::<
                    (SpecNode, int),
                    SyntaxError,
                >((node@, final(self).index as int)) && primary_start(old(self).current.token_type),
                Err(e) => sp_primary(final(self).tokens@, old(self).index as int) == Err::<
                    (SpecNode, int),
                    SyntaxError,
                >(e),
            },
        decreases self.tokens.len() - self.index, 2int,
    {
        let ghost toks = self.tokens@;
        let ghost i0 = self.index as int;
        match self.current.token_type {
            TokenType::IntegerLiteral => {
                proof {
                    assert(toks[i0].wf());
                }
                let num_value = match parse_i64(self.current.lexeme.as_str()) {
                    Some(v) => v,
                    None => vstd::pervasive::unreached(),
                };
                self.advance();
                Ok(ASTNode::Number(num_value))
            },
            TokenType::CharLiteral => {
                proof {
                    assert(toks[i0].wf());
                }
                let char_value = self.current.lexeme.as_str().get_char(0);
                self.advance();
                Ok(ASTNode::Char(char_value))
            },
            TokenType::Identifier => {
                let id = match self.capture_identifier() {
                    Ok(n) => n,
                    Err(e) => return Err(e),
                };
                if self.current.token_type == TokenType::LeftParen {
                    self.advance();
                    let param_list = match self.get_actual_parameters() {
                        Ok(a) => a,
                        Err(e) => return Err(e),
                    };
                    match self.expect_token(TokenType::RightParen) {
                        Ok(_) => {},
                        Err(e) => return Err(e),
                    }
                    Ok(ASTNode::Call(id, param_list))
                } else {
                    Ok(ASTNode::Identifier(id))
                }
            },
            TokenType::LeftParen => {
                if self.index >= self.tokens.len() - 1 {
                    // the stream ends at this token: `(` needs an expression
                    // and `)` after it, and re-reading the final token would
                    // never end
                    return Err(
                        SyntaxError::UnexpectedEndOfInput {
                            row: self.current.row,
                            col: self.current.col,
                        },
                    );
                }
                self.advance();
                let expr = match self.parse_expression() {
                    Ok(x) => x,
                    Err(e) => return Err(e),
                };
                match self.expect_token(TokenType::RightParen) {
                    Ok(_) => {},
                    Err(e) => return Err(e),
                }
                Ok(expr)
            },
            _ => Err(
                SyntaxError::UnexpectedPrimaryToken {
                    found: self.current.token_type,
                    found_lexeme: self.current.lexeme.clone(),
                    row: self.current.row,
                    col: self.current.col,
                },
            ),
        }
    }
}

} // verus!
