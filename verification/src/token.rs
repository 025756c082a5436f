use vstd::prelude::*;

use crate::digits::is_i64_lexeme;

verus! {

/// The closed set of lexical token kinds produced by the scanner.
#[derive(Clone, Copy, PartialEq, Eq, Structural, Debug)]
pub enum TokenType {
    EOF,
    Illegal,
    Identifier,
    IntegerLiteral,
    CharLiteral,
    Operator,
    Array,
    Begin,
    Const,
    Do,
    Else,
    End,
    Func,
    If,
    In,
    Let,
    Of,
    Proc,
    Record,
    Then,
    Type,
    Var,
    While,
    Period,
    Colon,
    Semicolon,
    Comma,
    Equals,
    Tilde,
    LeftParen,
    RightParen,
    LeftBracket,
    RightBracket,
    LeftBrace,
    RightBrace,
    Assign,
}

/// A classified, positioned lexical unit.
#[derive(Debug, PartialEq, Clone)]
pub struct Token {
    pub token_type: TokenType,
    pub lexeme: String,
    pub row: usize,
    pub col: usize,
}

impl Token {
    pub fn new(token_type: TokenType, lexeme: String, row: usize, col: usize) -> (t: Self)
        ensures
            t.token_type == token_type,
            t.lexeme == lexeme,
            t.row == row,
            t.col == col,
    {
        Token { token_type, lexeme, row, col }
    }

    /// Whether this token's lexeme is well formed for its kind: an integer
    /// literal's lexeme denotes a 64-bit value, a character literal's lexeme
    /// is not empty. The scanner owes this of every token it hands over;
    /// other kinds carry no obligation.
    pub open spec fn wf(&self) -> bool {
        &&& self.token_type == TokenType::IntegerLiteral ==> is_i64_lexeme(self.lexeme@)
        &&& self.token_type == TokenType::CharLiteral ==> self.lexeme@.len() > 0
    }

    /// An exact copy; used internally where the cursor caches the current token.
    pub fn duplicate(&self) -> (t: Token)
        ensures
            t == *self,
    {
        Token {
            token_type: self.token_type,
            lexeme: self.lexeme.clone(),
            row: self.row,
            col: self.col,
        }
    }
}

impl TokenType {
    /// The name of this kind, as the scanner writes it and as error messages
    /// show it.
    pub open spec fn spec_name(self) -> Seq<char> {
        match self {
            TokenType::EOF => "EOF"@,
            TokenType::Illegal => "Illegal"@,
            TokenType::Identifier => "Identifier"@,
            TokenType::IntegerLiteral => "IntegerLiteral"@,
            TokenType::CharLiteral => "CharLiteral"@,
            TokenType::Operator => "Operator"@,
            TokenType::Array => "Array"@,
            TokenType::Begin => "Begin"@,
            TokenType::Const => "Const"@,
            TokenType::Do => "Do"@,
            TokenType::Else => "Else"@,
            TokenType::End => "End"@,
            TokenType::Func => "Func"@,
            TokenType::If => "If"@,
            TokenType::In => "In"@,
            TokenType::Let => "Let"@,
            TokenType::Of => "Of"@,
            TokenType::Proc => "Proc"@,
            TokenType::Record => "Record"@,
            TokenType::Then => "Then"@,
            TokenType::Type => "Type"@,
            TokenType::Var => "Var"@,
            TokenType::While => "While"@,
            TokenType::Period => "Period"@,
            TokenType::Colon => "Colon"@,
            TokenType::Semicolon => "Semicolon"@,
            TokenType::Comma => "Comma"@,
            TokenType::Equals => "Equals"@,
            TokenType::Tilde => "Tilde"@,
            TokenType::LeftParen => "LeftParen"@,
            TokenType::RightParen => "RightParen"@,
            TokenType::LeftBracket => "LeftBracket"@,
            TokenType::RightBracket => "RightBracket"@,
            TokenType::LeftBrace => "LeftBrace"@,
            TokenType::RightBrace => "RightBrace"@,
            TokenType::Assign => "Assign"@,
        }
    }

    /// The name of this kind (see `spec_name`).
    pub fn name(&self) -> (r: &'static str)
        ensures
            r@ == self.spec_name(),
    {
        match self {
            TokenType::EOF => "EOF",
            TokenType::Illegal => "Illegal",
            TokenType::Identifier => "Identifier",
            TokenType::IntegerLiteral => "IntegerLiteral",
            TokenType::CharLiteral => "CharLiteral",
            TokenType::Operator => "Operator",
            TokenType::Array => "Array",
            TokenType::Begin => "Begin",
            TokenType::Const => "Const",
            TokenType::Do => "Do",
            TokenType::Else => "Else",
            TokenType::End => "End",
            TokenType::Func => "Func",
            TokenType::If => "If",
            TokenType::In => "In",
            TokenType::Let => "Let",
            TokenType::Of => "Of",
            TokenType::Proc => "Proc",
            TokenType::Record => "Record",
            TokenType::Then => "Then",
            TokenType::Type => "Type",
            TokenType::Var => "Var",
            TokenType::While => "While",
            TokenType::Period => "Period",
            TokenType::Colon => "Colon",
            TokenType::Semicolon => "Semicolon",
            TokenType::Comma => "Comma",
            TokenType::Equals => "Equals",
            TokenType::Tilde => "Tilde",
            TokenType::LeftParen => "LeftParen",
            TokenType::RightParen => "RightParen",
            TokenType::LeftBracket => "LeftBracket",
            TokenType::RightBracket => "RightBracket",
            TokenType::LeftBrace => "LeftBrace",
            TokenType::RightBrace => "RightBrace",
            TokenType::Assign => "Assign",
        }
    }
}

/// Whether every token of the sequence is well formed (see `Token::wf`).
pub open spec fn wf_tokens(toks: Seq<Token>) -> bool {
    forall|i: int| 0 <= i < toks.len() ==> (#[trigger] toks[i]).wf()
}

} // verus!
