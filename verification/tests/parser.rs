use triangle_syntax::ASTNode;
use triangle_syntax::SyntaxError;
use triangle_syntax::SyntaxParser;
use triangle_syntax::Token;
use triangle_syntax::TokenType;

fn tok(kind: TokenType, lexeme: &str, row: usize, col: usize) -> Token {
    Token::new(kind, lexeme.to_string(), row, col)
}

fn parse(tokens: Vec<Token>) -> Result<ASTNode, SyntaxError> {
    let mut parser = SyntaxParser::from_tokens(tokens);
    parser.parse_program()
}

fn num(v: i64) -> Box<ASTNode> {
    Box::new(ASTNode::Number(v))
}

#[test]
fn empty_stream_is_no_input() {
    assert_eq!(parse(Vec::new()), Err(SyntaxError::NoInput));
}

#[test]
fn lone_end_of_stream_marker_is_no_input() {
    // an empty program's token file still carries its end-of-stream marker
    let r = parse(vec![tok(TokenType::EOF, "", 1, 1)]);
    assert_eq!(r, Err(SyntaxError::NoInput));
}

#[test]
fn var_command_parses_to_var_node() {
    let r = parse(vec![
        tok(TokenType::Var, "var", 1, 1),
        tok(TokenType::Identifier, "x", 1, 5),
        tok(TokenType::Colon, ":", 1, 7),
        tok(TokenType::Identifier, "integer", 1, 9),
        tok(TokenType::EOF, "", 1, 16),
    ]);
    assert_eq!(r, Ok(ASTNode::Var("x".to_string(), "integer".to_string())));
}

#[test]
fn identifier_then_semicolon_names_assign_or_left_paren() {
    let r = parse(vec![
        tok(TokenType::Identifier, "x", 1, 1),
        tok(TokenType::Semicolon, ";", 1, 2),
    ]);
    assert_eq!(
        r,
        Err(SyntaxError::ExpectedAssignOrLeftParen {
            found: TokenType::Semicolon,
            found_lexeme: ";".to_string(),
            row: 1,
            col: 2,
        })
    );
}

#[test]
fn expression_folds_left_to_right() {
    // x := 1 + 2 * 3 parses as (1 + 2) * 3: no precedence levels
    let r = parse(vec![
        tok(TokenType::Identifier, "x", 1, 1),
        tok(TokenType::Assign, ":=", 1, 3),
        tok(TokenType::IntegerLiteral, "1", 1, 6),
        tok(TokenType::Operator, "+", 1, 8),
        tok(TokenType::IntegerLiteral, "2", 1, 10),
        tok(TokenType::Operator, "*", 1, 12),
        tok(TokenType::IntegerLiteral, "3", 1, 14),
        tok(TokenType::EOF, "", 1, 15),
    ]);
    let sum = ASTNode::Operator("+".to_string(), num(1), num(2));
    let product = ASTNode::Operator("*".to_string(), Box::new(sum), num(3));
    assert_eq!(
        r,
        Ok(ASTNode::Assign(vec!["x".to_string()], Box::new(product)))
    );
}

#[test]
fn single_command_is_not_wrapped() {
    let r = parse(vec![
        tok(TokenType::Identifier, "x", 1, 1),
        tok(TokenType::Assign, ":=", 1, 3),
        tok(TokenType::IntegerLiteral, "1", 1, 6),
        tok(TokenType::EOF, "", 1, 7),
    ]);
    assert_eq!(
        r,
        Ok(ASTNode::Assign(vec!["x".to_string()], num(1)))
    );
}

#[test]
fn two_commands_are_wrapped_in_source_order() {
    let r = parse(vec![
        tok(TokenType::Identifier, "x", 1, 1),
        tok(TokenType::Assign, ":=", 1, 3),
        tok(TokenType::IntegerLiteral, "1", 1, 6),
        tok(TokenType::Semicolon, ";", 1, 7),
        tok(TokenType::Identifier, "y", 2, 1),
        tok(TokenType::Assign, ":=", 2, 3),
        tok(TokenType::IntegerLiteral, "2", 2, 6),
        tok(TokenType::EOF, "", 2, 7),
    ]);
    assert_eq!(
        r,
        Ok(ASTNode::Command(vec![
            ASTNode::Assign(vec!["x".to_string()], num(1)),
            ASTNode::Assign(vec!["y".to_string()], num(2)),
        ]))
    );
}

#[test]
fn let_stream_yields_let_root() {
    let r = parse(vec![
        tok(TokenType::Let, "let", 1, 1),
        tok(TokenType::Var, "var", 1, 5),
        tok(TokenType::Identifier, "x", 1, 9),
        tok(TokenType::Colon, ":", 1, 11),
        tok(TokenType::Identifier, "integer", 1, 13),
        tok(TokenType::In, "in", 2, 1),
        tok(TokenType::Identifier, "x", 2, 4),
        tok(TokenType::Assign, ":=", 2, 6),
        tok(TokenType::IntegerLiteral, "1", 2, 9),
        tok(TokenType::EOF, "", 2, 10),
    ]);
    assert_eq!(
        r,
        Ok(ASTNode::Let(
            Box::new(ASTNode::Var("x".to_string(), "integer".to_string())),
            Box::new(ASTNode::Assign(vec!["x".to_string()], num(1))),
        ))
    );
}

#[test]
fn two_declarations_are_wrapped_in_source_order() {
    let r = parse(vec![
        tok(TokenType::Let, "let", 1, 1),
        tok(TokenType::Const, "const", 1, 5),
        tok(TokenType::Identifier, "a", 1, 11),
        tok(TokenType::Tilde, "~", 1, 13),
        tok(TokenType::IntegerLiteral, "7", 1, 15),
        tok(TokenType::Semicolon, ";", 1, 16),
        tok(TokenType::Var, "var", 2, 1),
        tok(TokenType::Identifier, "b", 2, 5),
        tok(TokenType::Colon, ":", 2, 7),
        tok(TokenType::Identifier, "integer", 2, 9),
        tok(TokenType::In, "in", 3, 1),
        tok(TokenType::Identifier, "b", 3, 4),
        tok(TokenType::Assign, ":=", 3, 6),
        tok(TokenType::Identifier, "a", 3, 9),
        tok(TokenType::EOF, "", 3, 10),
    ]);
    assert_eq!(
        r,
        Ok(ASTNode::Let(
            Box::new(ASTNode::Declaration(vec![
                ASTNode::Const("a".to_string(), num(7)),
                ASTNode::Var("b".to_string(), "integer".to_string()),
            ])),
            Box::new(ASTNode::Assign(
                vec!["b".to_string()],
                Box::new(ASTNode::Identifier("a".to_string())),
            )),
        ))
    );
}

#[test]
fn if_command_parses_both_branches() {
    let r = parse(vec![
        tok(TokenType::If, "if", 1, 1),
        tok(TokenType::Identifier, "p", 1, 4),
        tok(TokenType::Then, "then", 1, 6),
        tok(TokenType::Identifier, "x", 1, 11),
        tok(TokenType::Assign, ":=", 1, 13),
        tok(TokenType::IntegerLiteral, "1", 1, 16),
        tok(TokenType::Else, "else", 2, 1),
        tok(TokenType::Identifier, "x", 2, 6),
        tok(TokenType::Assign, ":=", 2, 8),
        tok(TokenType::IntegerLiteral, "2", 2, 11),
        tok(TokenType::EOF, "", 2, 12),
    ]);
    assert_eq!(
        r,
        Ok(ASTNode::If(
            Box::new(ASTNode::Identifier("p".to_string())),
            Box::new(ASTNode::Assign(vec!["x".to_string()], num(1))),
            Box::new(ASTNode::Assign(vec!["x".to_string()], num(2))),
        ))
    );
}

#[test]
fn begin_end_passes_inner_region_through() {
    let r = parse(vec![
        tok(TokenType::Begin, "begin", 1, 1),
        tok(TokenType::Identifier, "x", 1, 7),
        tok(TokenType::Assign, ":=", 1, 9),
        tok(TokenType::IntegerLiteral, "1", 1, 12),
        tok(TokenType::Semicolon, ";", 1, 13),
        tok(TokenType::Identifier, "y", 1, 15),
        tok(TokenType::Assign, ":=", 1, 17),
        tok(TokenType::IntegerLiteral, "2", 1, 20),
        tok(TokenType::End, "end", 2, 1),
        tok(TokenType::EOF, "", 2, 4),
    ]);
    assert_eq!(
        r,
        Ok(ASTNode::Command(vec![
            ASTNode::Assign(vec!["x".to_string()], num(1)),
            ASTNode::Assign(vec!["y".to_string()], num(2)),
        ]))
    );
}

#[test]
fn call_command_collects_arguments() {
    let r = parse(vec![
        tok(TokenType::Identifier, "f", 1, 1),
        tok(TokenType::LeftParen, "(", 1, 2),
        tok(TokenType::IntegerLiteral, "1", 1, 3),
        tok(TokenType::Comma, ",", 1, 4),
        tok(TokenType::Identifier, "c", 1, 6),
        tok(TokenType::RightParen, ")", 1, 7),
        tok(TokenType::EOF, "", 1, 8),
    ]);
    assert_eq!(
        r,
        Ok(ASTNode::Call(
            "f".to_string(),
            vec![ASTNode::Number(1), ASTNode::Identifier("c".to_string())],
        ))
    );
}

#[test]
fn call_command_with_no_arguments() {
    let r = parse(vec![
        tok(TokenType::Identifier, "f", 1, 1),
        tok(TokenType::LeftParen, "(", 1, 2),
        tok(TokenType::RightParen, ")", 1, 3),
        tok(TokenType::EOF, "", 1, 4),
    ]);
    assert_eq!(r, Ok(ASTNode::Call("f".to_string(), Vec::new())));
}

#[test]
fn func_declaration_collects_parameters() {
    let r = parse(vec![
        tok(TokenType::Let, "let", 1, 1),
        tok(TokenType::Func, "func", 1, 5),
        tok(TokenType::Identifier, "g", 1, 10),
        tok(TokenType::LeftParen, "(", 1, 11),
        tok(TokenType::Identifier, "a", 1, 12),
        tok(TokenType::Colon, ":", 1, 14),
        tok(TokenType::Identifier, "integer", 1, 16),
        tok(TokenType::Comma, ",", 1, 23),
        tok(TokenType::Var, "var", 1, 25),
        tok(TokenType::Identifier, "b", 1, 29),
        tok(TokenType::Colon, ":", 1, 31),
        tok(TokenType::Identifier, "boolean", 1, 33),
        tok(TokenType::RightParen, ")", 1, 40),
        tok(TokenType::Colon, ":", 1, 42),
        tok(TokenType::Identifier, "integer", 1, 44),
        tok(TokenType::Tilde, "~", 1, 52),
        tok(TokenType::Identifier, "a", 1, 54),
        tok(TokenType::Operator, "+", 1, 56),
        tok(TokenType::IntegerLiteral, "1", 1, 58),
        tok(TokenType::In, "in", 2, 1),
        tok(TokenType::Identifier, "x", 2, 4),
        tok(TokenType::Assign, ":=", 2, 6),
        tok(TokenType::IntegerLiteral, "0", 2, 9),
        tok(TokenType::EOF, "", 2, 10),
    ]);
    assert_eq!(
        r,
        Ok(ASTNode::Let(
            Box::new(ASTNode::Func(
                "g".to_string(),
                vec![
                    ASTNode::Var("a".to_string(), "integer".to_string()),
                    ASTNode::Var("b".to_string(), "boolean".to_string()),
                ],
                "integer".to_string(),
                Box::new(ASTNode::Operator(
                    "+".to_string(),
                    Box::new(ASTNode::Identifier("a".to_string())),
                    num(1),
                )),
            )),
            Box::new(ASTNode::Assign(vec!["x".to_string()], num(0))),
        ))
    );
}

#[test]
fn parentheses_only_group() {
    // x := 1 * (2 + 3): the grouped sum stands whole as the right operand,
    // with no node of its own
    let r = parse(vec![
        tok(TokenType::Identifier, "x", 1, 1),
        tok(TokenType::Assign, ":=", 1, 3),
        tok(TokenType::IntegerLiteral, "1", 1, 6),
        tok(TokenType::Operator, "*", 1, 8),
        tok(TokenType::LeftParen, "(", 1, 10),
        tok(TokenType::IntegerLiteral, "2", 1, 11),
        tok(TokenType::Operator, "+", 1, 13),
        tok(TokenType::IntegerLiteral, "3", 1, 15),
        tok(TokenType::RightParen, ")", 1, 16),
        tok(TokenType::EOF, "", 1, 17),
    ]);
    let sum = ASTNode::Operator("+".to_string(), num(2), num(3));
    assert_eq!(
        r,
        Ok(ASTNode::Assign(
            vec!["x".to_string()],
            Box::new(ASTNode::Operator("*".to_string(), num(1), Box::new(sum))),
        ))
    );
}

#[test]
fn missing_colon_reports_expected_kind_and_position() {
    let r = parse(vec![
        tok(TokenType::Var, "var", 1, 1),
        tok(TokenType::Identifier, "x", 1, 5),
        tok(TokenType::Identifier, "integer", 1, 7),
        tok(TokenType::EOF, "", 1, 14),
    ]);
    assert_eq!(
        r,
        Err(SyntaxError::Expected {
            expected: TokenType::Colon,
            found: TokenType::Identifier,
            found_lexeme: "integer".to_string(),
            row: 1,
            col: 7,
        })
    );
}

#[test]
fn missing_identifier_reports_found_kind() {
    let r = parse(vec![
        tok(TokenType::Var, "var", 2, 1),
        tok(TokenType::IntegerLiteral, "5", 2, 5),
        tok(TokenType::EOF, "", 2, 6),
    ]);
    assert_eq!(
        r,
        Err(SyntaxError::ExpectedIdentifier {
            found: TokenType::IntegerLiteral,
            found_lexeme: "5".to_string(),
            row: 2,
            col: 5,
        })
    );
}

#[test]
fn bad_command_start_is_reported() {
    let r = parse(vec![
        tok(TokenType::Semicolon, ";", 1, 1),
        tok(TokenType::EOF, "", 1, 2),
    ]);
    assert_eq!(
        r,
        Err(SyntaxError::UnexpectedCommandToken {
            found: TokenType::Semicolon,
            found_lexeme: ";".to_string(),
            row: 1,
            col: 1,
        })
    );
}

#[test]
fn bad_declaration_start_is_reported() {
    let r = parse(vec![
        tok(TokenType::Let, "let", 1, 1),
        tok(TokenType::If, "if", 1, 5),
        tok(TokenType::EOF, "", 1, 7),
    ]);
    assert_eq!(
        r,
        Err(SyntaxError::UnexpectedDeclarationToken {
            found: TokenType::If,
            found_lexeme: "if".to_string(),
            row: 1,
            col: 5,
        })
    );
}

#[test]
fn bad_primary_start_is_reported() {
    let r = parse(vec![
        tok(TokenType::Identifier, "x", 1, 1),
        tok(TokenType::Assign, ":=", 1, 3),
        tok(TokenType::Semicolon, ";", 1, 6),
        tok(TokenType::EOF, "", 1, 7),
    ]);
    assert_eq!(
        r,
        Err(SyntaxError::UnexpectedPrimaryToken {
            found: TokenType::Semicolon,
            found_lexeme: ";".to_string(),
            row: 1,
            col: 6,
        })
    );
}

#[test]
fn first_error_wins_and_no_tree_is_returned() {
    // the assignment is fine; the second command's bad primary is the first
    // malformed token, and its position is the one reported
    let r = parse(vec![
        tok(TokenType::Identifier, "x", 1, 1),
        tok(TokenType::Assign, ":=", 1, 3),
        tok(TokenType::IntegerLiteral, "1", 1, 6),
        tok(TokenType::Semicolon, ";", 1, 7),
        tok(TokenType::Identifier, "y", 3, 1),
        tok(TokenType::Assign, ":=", 3, 3),
        tok(TokenType::Then, "then", 3, 9),
        tok(TokenType::EOF, "", 3, 13),
    ]);
    assert_eq!(
        r,
        Err(SyntaxError::UnexpectedPrimaryToken {
            found: TokenType::Then,
            found_lexeme: "then".to_string(),
            row: 3,
            col: 9,
        })
    );
}

#[test]
fn begin_as_final_token_ends_the_input() {
    let r = parse(vec![tok(TokenType::Begin, "begin", 2, 3)]);
    assert_eq!(r, Err(SyntaxError::UnexpectedEndOfInput { row: 2, col: 3 }));
}

#[test]
fn open_paren_as_final_token_ends_the_input() {
    let r = parse(vec![
        tok(TokenType::Identifier, "x", 1, 1),
        tok(TokenType::Assign, ":=", 1, 3),
        tok(TokenType::LeftParen, "(", 1, 6),
    ]);
    assert_eq!(r, Err(SyntaxError::UnexpectedEndOfInput { row: 1, col: 6 }));
}

#[test]
fn reserved_words_without_rules_are_rejected() {
    for kind in [TokenType::Array, TokenType::Of, TokenType::Record] {
        let r = parse(vec![tok(kind, "", 4, 2), tok(TokenType::EOF, "", 4, 9)]);
        assert_eq!(
            r,
            Err(SyntaxError::UnexpectedCommandToken {
                found: kind,
                found_lexeme: "".to_string(),
                row: 4,
                col: 2,
            })
        );
    }
}

#[test]
fn extreme_integer_literals_parse() {
    let r = parse(vec![
        tok(TokenType::Identifier, "x", 1, 1),
        tok(TokenType::Assign, ":=", 1, 3),
        tok(TokenType::IntegerLiteral, "9223372036854775807", 1, 6),
        tok(TokenType::Operator, "+", 1, 26),
        tok(TokenType::IntegerLiteral, "-9223372036854775808", 1, 28),
        tok(TokenType::EOF, "", 1, 48),
    ]);
    assert_eq!(
        r,
        Ok(ASTNode::Assign(
            vec!["x".to_string()],
            Box::new(ASTNode::Operator(
                "+".to_string(),
                num(i64::MAX),
                num(i64::MIN),
            )),
        ))
    );
}

#[test]
fn char_literal_takes_first_character() {
    let r = parse(vec![
        tok(TokenType::Identifier, "c", 1, 1),
        tok(TokenType::Assign, ":=", 1, 3),
        tok(TokenType::CharLiteral, "A", 1, 6),
        tok(TokenType::EOF, "", 1, 7),
    ]);
    assert_eq!(
        r,
        Ok(ASTNode::Assign(vec!["c".to_string()], Box::new(ASTNode::Char('A'))))
    );
}
