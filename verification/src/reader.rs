use vstd::prelude::*;

use crate::digits::int_lexeme_digits;
use crate::digits::int_lexeme_val;
use crate::digits::lemma_digits_val_nonneg;
use crate::digits::is_usize_lexeme;
use crate::digits::parse_usize;
use crate::error::InputError;
use crate::text::sp_find_from;
use crate::text::sp_trim;
use crate::text::sp_trim_char;
use crate::text::find_char_from;
use crate::text::str_eq;
use crate::text::trim_bounds;
use crate::text::trim_char_bounds;
use crate::token::Token;
use crate::token::TokenType;

verus! {

// The front end of the parser: it reads the persisted, line-oriented token
// representation, one token per line, in the literal form
// `{Kind, 'lexeme', row, col}`. The kind name is mapped to the token kind
// by exact string match; an unknown name or an invalid number is an input
// error, reported once, and the whole run aborts before parsing begins.

/// The token kind whose name is exactly `s`, if any.
pub open spec fn sp_kind_of_name(s: Seq<char>) -> Option<TokenType> {
    if s == "EOF"@ {
        Some(TokenType::EOF)
    } else if s == "Illegal"@ {
        Some(TokenType::Illegal)
    } else if s == "Identifier"@ {
        Some(TokenType::Identifier)
    } else if s == "IntegerLiteral"@ {
        Some(TokenType::IntegerLiteral)
    } else if s == "CharLiteral"@ {
        Some(TokenType::CharLiteral)
    } else if s == "Operator"@ {
        Some(TokenType::Operator)
    } else if s == "Array"@ {
        Some(TokenType::Array)
    } else if s == "Begin"@ {
        Some(TokenType::Begin)
    } else if s == "Const"@ {
        Some(TokenType::Const)
    } else if s == "Do"@ {
        Some(TokenType::Do)
    } else if s == "Else"@ {
        Some(TokenType::Else)
    } else if s == "End"@ {
        Some(TokenType::End)
    } else if s == "Func"@ {
        Some(TokenType::Func)
    } else if s == "If"@ {
        Some(TokenType::If)
    } else if s == "In"@ {
        Some(TokenType::In)
    } else if s == "Let"@ {
        Some(TokenType::Let)
    } else if s == "Of"@ {
        Some(TokenType::Of)
    } else if s == "Proc"@ {
        Some(TokenType::Proc)
    } else if s == "Record"@ {
        Some(TokenType::Record)
    } else if s == "Then"@ {
        Some(TokenType::Then)
    } else if s == "Type"@ {
        Some(TokenType::Type)
    } else if s == "Var"@ {
        Some(TokenType::Var)
    } else if s == "While"@ {
        Some(TokenType::While)
    } else if s == "Period"@ {
        Some(TokenType::Period)
    } else if s == "Colon"@ {
        Some(TokenType::Colon)
    } else if s == "Semicolon"@ {
        Some(TokenType::Semicolon)
    } else if s == "Comma"@ {
        Some(TokenType::Comma)
    } else if s == "Equals"@ {
        Some(TokenType::Equals)
    } else if s == "Tilde"@ {
        Some(TokenType::Tilde)
    } else if s == "LeftParen"@ {
        Some(TokenType::LeftParen)
    } else if s == "RightParen"@ {
        Some(TokenType::RightParen)
    } else if s == "LeftBracket"@ {
        Some(TokenType::LeftBracket)
    } else if s == "RightBracket"@ {
        Some(TokenType::RightBracket)
    } else if s == "LeftBrace"@ {
        Some(TokenType::LeftBrace)
    } else if s == "RightBrace"@ {
        Some(TokenType::RightBrace)
    } else if s == "Assign"@ {
        Some(TokenType::Assign)
    } else {
        None
    }
}

/// Maps a textual kind name to the token kind by exact string match (see
/// `sp_kind_of_name`).
pub fn token_type_from_name(s: &str) -> (r: Option<TokenType>)
    ensures
        r == sp_kind_of_name(s@),
{
    if str_eq(s, "EOF") {
        Some(TokenType::EOF)
    } else if str_eq(s, "Illegal") {
        Some(TokenType::Illegal)
    } else if str_eq(s, "Identifier") {
        Some(TokenType::Identifier)
    } else if str_eq(s, "IntegerLiteral") {
        Some(TokenType::IntegerLiteral)
    } else if str_eq(s, "CharLiteral") {
        Some(TokenType::CharLiteral)
    } else if str_eq(s, "Operator") {
        Some(TokenType::Operator)
    } else if str_eq(s, "Array") {
        Some(TokenType::Array)
    } else if str_eq(s, "Begin") {
        Some(TokenType::Begin)
    } else if str_eq(s, "Const") {
        Some(TokenType::Const)
    } else if str_eq(s, "Do") {
        Some(TokenType::Do)
    } else if str_eq(s, "Else") {
        Some(TokenType::Else)
    } else if str_eq(s, "End") {
        Some(TokenType::End)
    } else if str_eq(s, "Func") {
        Some(TokenType::Func)
    } else if str_eq(s, "If") {
        Some(TokenType::If)
    } else if str_eq(s, "In") {
        Some(TokenType::In)
    } else if str_eq(s, "Let") {
        Some(TokenType::Let)
    } else if str_eq(s, "Of") {
        Some(TokenType::Of)
    } else if str_eq(s, "Proc") {
        Some(TokenType::Proc)
    } else if str_eq(s, "Record") {
        Some(TokenType::Record)
    } else if str_eq(s, "Then") {
        Some(TokenType::Then)
    } else if str_eq(s, "Type") {
        Some(TokenType::Type)
    } else if str_eq(s, "Var") {
        Some(TokenType::Var)
    } else if str_eq(s, "While") {
        Some(TokenType::While)
    } else if str_eq(s, "Period") {
        Some(TokenType::Period)
    } else if str_eq(s, "Colon") {
        Some(TokenType::Colon)
    } else if str_eq(s, "Semicolon") {
        Some(TokenType::Semicolon)
    } else if str_eq(s, "Comma") {
        Some(TokenType::Comma)
    } else if str_eq(s, "Equals") {
        Some(TokenType::Equals)
    } else if str_eq(s, "Tilde") {
        Some(TokenType::Tilde)
    } else if str_eq(s, "LeftParen") {
        Some(TokenType::LeftParen)
    } else if str_eq(s, "RightParen") {
        Some(TokenType::RightParen)
    } else if str_eq(s, "LeftBracket") {
        Some(TokenType::LeftBracket)
    } else if str_eq(s, "RightBracket") {
        Some(TokenType::RightBracket)
    } else if str_eq(s, "LeftBrace") {
        Some(TokenType::LeftBrace)
    } else if str_eq(s, "RightBrace") {
        Some(TokenType::RightBrace)
    } else if str_eq(s, "Assign") {
        Some(TokenType::Assign)
    } else {
        None
    }
}

/// The four comma-separated fields of a token line, or `None` where the
/// line has fewer than four: the text before the first comma, between the
/// first and second, between the second and third, and between the third
/// and the fourth (or the end).
pub open spec fn sp_token_fields(s: Seq<char>) -> Option<
    (Seq<char>, Seq<char>, Seq<char>, Seq<char>),
> {
    let c1 = sp_find_from(s, ',', 0);
    let c2 = sp_find_from(s, ',', c1 + 1);
    let c3 = sp_find_from(s, ',', c2 + 1);
    let c4 = sp_find_from(s, ',', c3 + 1);
    if c3 < s.len() {
        Some(
            (
                s.subrange(0, c1),
                s.subrange(c1 + 1, c2),
                s.subrange(c2 + 1, c3),
                s.subrange(c3 + 1, c4),
            ),
        )
    } else {
        None
    }
}

/// What a token line denotes: nothing for a line of fewer than four fields,
/// an input error for a bad row, column or kind name, and otherwise the
/// token's kind, lexeme, row and column. The kind field is stripped of
/// braces and trimmed; the lexeme is trimmed, then stripped of single
/// quotes; the row is trimmed; the column is stripped of a closing brace,
/// then trimmed.
pub open spec fn sp_token_line(s: Seq<char>) -> Result<
    Option<(TokenType, Seq<char>, int, int)>,
    InputError,
> {
    match sp_token_fields(s) {
        None => Ok(None),
        Some((p0, p1, p2, p3)) => {
            let kind_text = sp_trim(sp_trim_char(p0, '{'));
            let lexeme = sp_trim_char(sp_trim(p1), '\'');
            let row_text = sp_trim(p2);
            let col_text = sp_trim(sp_trim_char(p3, '}'));
            if !is_usize_lexeme(row_text) {
                Err(InputError::InvalidRow)
            } else if !is_usize_lexeme(col_text) {
                Err(InputError::InvalidCol)
            } else {
                match sp_kind_of_name(kind_text) {
                    None => Err(InputError::UnknownKind),
                    Some(k) => Ok(
                        Some((k, lexeme, int_lexeme_val(row_text), int_lexeme_val(col_text))),
                    ),
                }
            }
        },
    }
}

/// Reads one line of the persisted token representation (see
/// `sp_token_line`): `Ok(None)` for a line of fewer than four fields,
/// `Ok(Some(token))` for a well-formed line, and the first input error
/// otherwise.
pub fn parse_token_line(line: &str) -> (r: Result<Option<Token>, InputError>)
    ensures
        match r {
            Ok(None) => sp_token_line(line@) == Ok::<
                Option<(TokenType, Seq<char>, int, int)>,
                InputError,
            >(None),
            Ok(Some(t)) => sp_token_line(line@) == Ok::<
                Option<(TokenType, Seq<char>, int, int)>,
                InputError,
            >(Some((t.token_type, t.lexeme@, t.row as int, t.col as int))),
            Err(e) => sp_token_line(line@) == Err::<
                Option<(TokenType, Seq<char>, int, int)>,
                InputError,
            >(e),
        },
{
    let n = line.unicode_len();
    let c1 = find_char_from(line, 0, ',');
    let c2 = if c1 < n {
        find_char_from(line, c1 + 1, ',')
    } else {
        n
    };
    let c3 = if c2 < n {
        find_char_from(line, c2 + 1, ',')
    } else {
        n
    };
    if c3 >= n {
        proof {
            assert(sp_token_fields(line@) is None);
        }
        return Ok(None);
    }
    let c4 = find_char_from(line, c3 + 1, ',');

    // kind: strip braces off the first field, then trim
    let (ka, kb) = trim_char_bounds(line, 0, c1, '{');
    let (ka2, kb2) = trim_bounds(line, ka, kb);
    // lexeme: trim the second field, then strip single quotes
    let (la, lb) = trim_bounds(line, c1 + 1, c2);
    let (la2, lb2) = trim_char_bounds(line, la, lb, '\'');
    // row: trim the third field
    let (ra, rb) = trim_bounds(line, c2 + 1, c3);
    // column: strip the closing brace off the fourth field, then trim
    let (ca, cb) = trim_char_bounds(line, c3 + 1, c4, '}');
    let (ca2, cb2) = trim_bounds(line, ca, cb);

    let row = match parse_usize(line.substring_char(ra, rb)) {
        Some(v) => v,
        None => {
            return Err(InputError::InvalidRow);
        },
    };
    let col = match parse_usize(line.substring_char(ca2, cb2)) {
        Some(v) => v,
        None => {
            return Err(InputError::InvalidCol);
        },
    };
    let kind = match token_type_from_name(line.substring_char(ka2, kb2)) {
        Some(k) => k,
        None => {
            return Err(InputError::UnknownKind);
        },
    };
    let lexeme = line.substring_char(la2, lb2).to_owned();
    proof {
        let row_text = sp_trim(line@.subrange(c2 + 1, c3 as int));
        let col_text = sp_trim(sp_trim_char(line@.subrange(c3 + 1, c4 as int), '}'));
        lemma_digits_val_nonneg(int_lexeme_digits(row_text));
        lemma_digits_val_nonneg(int_lexeme_digits(col_text));
    }
    Ok(Some(Token::new(kind, lexeme, row, col)))
}

} // verus!
