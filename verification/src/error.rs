use vstd::prelude::*;

use crate::digits::dec_digits;
use crate::digits::push_dec_usize;
use crate::token::Token;
use crate::token::TokenType;

verus! {

/// Structured failure information carried out of the parser: what was
/// expected, the found token's kind and lexeme, and where it stood. No
/// recovery is attempted.
#[derive(Clone, PartialEq, Eq, Debug)]
pub enum SyntaxError {
    /// `expect_token` found a token of another kind than required.
    Expected {
        expected: TokenType,
        found: TokenType,
        found_lexeme: String,
        row: usize,
        col: usize,
    },
    /// An identifier was required and something else stood there.
    ExpectedIdentifier { found: TokenType, found_lexeme: String, row: usize, col: usize },
    /// An identifier began a command but neither `:=` nor `(` followed it.
    ExpectedAssignOrLeftParen { found: TokenType, found_lexeme: String, row: usize, col: usize },
    /// The current token cannot begin a command.
    UnexpectedCommandToken { found: TokenType, found_lexeme: String, row: usize, col: usize },
    /// The current token cannot begin a declaration.
    UnexpectedDeclarationToken { found: TokenType, found_lexeme: String, row: usize, col: usize },
    /// The current token cannot begin a primary expression.
    UnexpectedPrimaryToken { found: TokenType, found_lexeme: String, row: usize, col: usize },
    /// The token stream ended inside an unfinished construct.
    UnexpectedEndOfInput { row: usize, col: usize },
    /// The token stream holds no commands at all: it is empty, or parsing
    /// begins at its end-of-stream marker.
    NoInput,
}

/// The error `expect_token` reports when `t` is not of kind `k`.
pub open spec fn expected_err(k: TokenType, t: Token) -> SyntaxError {
    SyntaxError::Expected {
        expected: k,
        found: t.token_type,
        found_lexeme: t.lexeme,
        row: t.row,
        col: t.col,
    }
}

/// The error reported when `t` should have been an identifier.
pub open spec fn ident_err(t: Token) -> SyntaxError {
    SyntaxError::ExpectedIdentifier {
        found: t.token_type,
        found_lexeme: t.lexeme,
        row: t.row,
        col: t.col,
    }
}

/// The error reported when an identifier command is followed by `t`,
/// which is neither `:=` nor `(`.
pub open spec fn assign_or_call_err(t: Token) -> SyntaxError {
    SyntaxError::ExpectedAssignOrLeftParen {
        found: t.token_type,
        found_lexeme: t.lexeme,
        row: t.row,
        col: t.col,
    }
}

/// The error reported when `t` cannot begin a command.
pub open spec fn command_err(t: Token) -> SyntaxError {
    SyntaxError::UnexpectedCommandToken {
        found: t.token_type,
        found_lexeme: t.lexeme,
        row: t.row,
        col: t.col,
    }
}

/// The error reported when `t` cannot begin a declaration.
pub open spec fn declaration_err(t: Token) -> SyntaxError {
    SyntaxError::UnexpectedDeclarationToken {
        found: t.token_type,
        found_lexeme: t.lexeme,
        row: t.row,
        col: t.col,
    }
}

/// The error reported when `t` cannot begin a primary expression.
pub open spec fn primary_err(t: Token) -> SyntaxError {
    SyntaxError::UnexpectedPrimaryToken {
        found: t.token_type,
        found_lexeme: t.lexeme,
        row: t.row,
        col: t.col,
    }
}

/// The error reported when the stream ends at `t` inside a construct.
pub open spec fn eoi_err(t: Token) -> SyntaxError {
    SyntaxError::UnexpectedEndOfInput { row: t.row, col: t.col }
}

/// The position suffix of a message: ` at row R, col C`.
pub open spec fn sp_position(row: int, col: int) -> Seq<char> {
    " at row "@ + dec_digits(row) + ", col "@ + dec_digits(col)
}

/// The exact message text an error carries to the user.
pub open spec fn sp_message(e: SyntaxError) -> Seq<char> {
    match e {
        SyntaxError::Expected { expected, found, row, col, .. } => "Expected "@ + expected.spec_name()
            + ", but found "@ + found.spec_name() + sp_position(row as int, col as int),
        SyntaxError::ExpectedIdentifier { found, row, col, .. } => "Expected identifier, found "@
            + found.spec_name() + sp_position(row as int, col as int),
        SyntaxError::ExpectedAssignOrLeftParen { found, row, col, .. } => "Unexpected token: "@
            + found.spec_name() + sp_position(row as int, col as int),
        SyntaxError::UnexpectedCommandToken { found, row, col, .. } => "Unexpected command token: "@
            + found.spec_name() + sp_position(row as int, col as int),
        SyntaxError::UnexpectedDeclarationToken { found, row, col, .. } =>
            "Unexpected declaration token: "@ + found.spec_name() + sp_position(
            row as int,
            col as int,
        ),
        SyntaxError::UnexpectedPrimaryToken { found, row, col, .. } =>
            "Unexpected primary expression token: "@ + found.spec_name() + sp_position(
            row as int,
            col as int,
        ),
        SyntaxError::UnexpectedEndOfInput { row, col } => "Unexpected end of input"@ + sp_position(
            row as int,
            col as int,
        ),
        SyntaxError::NoInput => "No input"@,
    }
}

/// Appends ` at row R, col C` to `s`.
fn push_position(s: &mut String, row: usize, col: usize)
    ensures
        final(s)@ == old(s)@ + sp_position(row as int, col as int),
{
    s.append(" at row ");
    push_dec_usize(s, row);
    s.append(", col ");
    push_dec_usize(s, col);
    proof {
        assert((((old(s)@ + " at row "@) + dec_digits(row as int)) + ", col "@) + dec_digits(
            col as int,
        ) =~= old(s)@ + sp_position(row as int, col as int));
    }
}

impl SyntaxError {
    /// The message text for this error, word for word what the parser
    /// reports (see `sp_message`).
    pub fn describe(&self) -> (r: String)
        ensures
            r@ == sp_message(*self),
    {
        match self {
            SyntaxError::Expected { expected, found, row, col, .. } => {
                let mut s = String::from_str("Expected ");
                s.append(expected.name());
                s.append(", but found ");
                s.append(found.name());
                push_position(&mut s, *row, *col);
                s
            },
            SyntaxError::ExpectedIdentifier { found, row, col, .. } => {
                let mut s = String::from_str("Expected identifier, found ");
                s.append(found.name());
                push_position(&mut s, *row, *col);
                s
            },
            SyntaxError::ExpectedAssignOrLeftParen { found, row, col, .. } => {
                let mut s = String::from_str("Unexpected token: ");
                s.append(found.name());
                push_position(&mut s, *row, *col);
                s
            },
            SyntaxError::UnexpectedCommandToken { found, row, col, .. } => {
                let mut s = String::from_str("Unexpected command token: ");
                s.append(found.name());
                push_position(&mut s, *row, *col);
                s
            },
            SyntaxError::UnexpectedDeclarationToken { found, row, col, .. } => {
                let mut s = String::from_str("Unexpected declaration token: ");
                s.append(found.name());
                push_position(&mut s, *row, *col);
                s
            },
            SyntaxError::UnexpectedPrimaryToken { found, row, col, .. } => {
                let mut s = String::from_str("Unexpected primary expression token: ");
                s.append(found.name());
                push_position(&mut s, *row, *col);
                s
            },
            SyntaxError::UnexpectedEndOfInput { row, col } => {
                let mut s = String::from_str("Unexpected end of input");
                push_position(&mut s, *row, *col);
                s
            },
            SyntaxError::NoInput => String::from_str("No input"),
        }
    }
}

/// An error found while reading the textual token representation, before
/// parsing begins; the whole run aborts on the first one.
#[derive(Clone, Copy, PartialEq, Eq, Structural, Debug)]
pub enum InputError {
    /// The kind name on a token line matches no token kind.
    UnknownKind,
    /// The row field of a token line is not a valid number.
    InvalidRow,
    /// The column field of a token line is not a valid number.
    InvalidCol,
}

} // verus!
