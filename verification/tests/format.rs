use triangle_syntax::ASTNode;
use triangle_syntax::InputError;
use triangle_syntax::SyntaxError;
use triangle_syntax::SyntaxParser;
use triangle_syntax::Token;
use triangle_syntax::TokenType;
use triangle_syntax::digits::parse_i64;
use triangle_syntax::digits::parse_usize;
use triangle_syntax::graph_dot;
use triangle_syntax::parse_token_line;
use triangle_syntax::parse_tree;
use triangle_syntax::sanitize_label;
use triangle_syntax::token_type_from_name;

fn tok(kind: TokenType, lexeme: &str, row: usize, col: usize) -> Token {
    Token::new(kind, lexeme.to_string(), row, col)
}

#[test]
fn var_node_renders_exactly() {
    let node = ASTNode::Var("x".to_string(), "integer".to_string());
    assert_eq!(node.to_custom_string(), "var(name(\"x\"),typeName(\"integer\"))");
}

#[test]
fn var_round_trip_from_tokens_to_text() {
    let mut parser = SyntaxParser::from_tokens(vec![
        tok(TokenType::Var, "var", 1, 1),
        tok(TokenType::Identifier, "x", 1, 5),
        tok(TokenType::Colon, ":", 1, 7),
        tok(TokenType::Identifier, "integer", 1, 9),
        tok(TokenType::EOF, "", 1, 16),
    ]);
    let node = parser.parse_program().unwrap();
    assert_eq!(node.to_custom_string(), "var(name(\"x\"),typeName(\"integer\"))");
}

#[test]
fn number_nodes_render_in_decimal() {
    assert_eq!(ASTNode::Number(0).to_custom_string(), "num(0)");
    assert_eq!(ASTNode::Number(1305).to_custom_string(), "num(1305)");
    assert_eq!(ASTNode::Number(-42).to_custom_string(), "num(-42)");
    assert_eq!(
        ASTNode::Number(i64::MIN).to_custom_string(),
        "num(-9223372036854775808)"
    );
}

#[test]
fn char_nodes_render_as_truncated_code() {
    assert_eq!(ASTNode::Char('A').to_custom_string(), "char(65)");
    // a code point above one byte keeps only its low eight bits
    assert_eq!(ASTNode::Char('€').to_custom_string(), "char(172)");
}

#[test]
fn identifier_and_call_render_exactly() {
    assert_eq!(
        ASTNode::Identifier("count".to_string()).to_custom_string(),
        "ref([\"count\"])"
    );
    let call = ASTNode::Call(
        "f".to_string(),
        vec![ASTNode::Number(1), ASTNode::Identifier("c".to_string())],
    );
    assert_eq!(call.to_custom_string(), "call(\"f\",params([num(1),ref([\"c\"])]))");
}

#[test]
fn assign_renders_its_name_list() {
    let one = ASTNode::Assign(vec!["x".to_string()], Box::new(ASTNode::Number(1)));
    assert_eq!(one.to_custom_string(), "assign([\"x\"], num(1))");
    let two = ASTNode::Assign(
        vec!["x".to_string(), "y".to_string()],
        Box::new(ASTNode::Number(2)),
    );
    assert_eq!(two.to_custom_string(), "assign([\"x\", \"y\"], num(2))");
}

#[test]
fn let_renders_with_fixed_indentation() {
    let node = ASTNode::Let(
        Box::new(ASTNode::Var("x".to_string(), "integer".to_string())),
        Box::new(ASTNode::Assign(vec!["x".to_string()], Box::new(ASTNode::Number(1)))),
    );
    assert_eq!(
        node.to_custom_string(),
        "let(\n   var(name(\"x\"),typeName(\"integer\")),\n   assign([\"x\"], num(1))\n)"
    );
}

#[test]
fn operator_and_if_render_with_fixed_indentation() {
    let op = ASTNode::Operator(
        "+".to_string(),
        Box::new(ASTNode::Number(1)),
        Box::new(ASTNode::Number(2)),
    );
    assert_eq!(op.to_custom_string(), "op(\n   +,\n   num(1),\n   num(2)\n)");
    let branch = ASTNode::If(
        Box::new(ASTNode::Identifier("p".to_string())),
        Box::new(ASTNode::Number(1)),
        Box::new(ASTNode::Number(2)),
    );
    assert_eq!(
        branch.to_custom_string(),
        "ifCmd(\n   cond(ref([\"p\"])),\n   then(\n      num(1)\n   ),\n   else(num(2))\n)"
    );
}

#[test]
fn unsupported_nodes_render_as_placeholder() {
    let w = ASTNode::While(Box::new(ASTNode::Number(1)), Box::new(ASTNode::Number(2)));
    assert_eq!(w.to_custom_string(), "Unsupported node");
    let p = ASTNode::Proc("p".to_string(), Vec::new(), Box::new(ASTNode::Number(1)));
    assert_eq!(p.to_custom_string(), "Unsupported node");
    let t = ASTNode::Type("t".to_string(), Box::new(ASTNode::Number(1)));
    assert_eq!(t.to_custom_string(), "Unsupported node");
}

#[test]
fn messages_match_the_reported_fields() {
    let e = SyntaxError::Expected {
        expected: TokenType::Colon,
        found: TokenType::Identifier,
        found_lexeme: "count".to_string(),
        row: 3,
        col: 7,
    };
    assert_eq!(e.describe(), "Expected Colon, but found Identifier at row 3, col 7");
    let e = SyntaxError::ExpectedIdentifier {
        found: TokenType::IntegerLiteral,
        found_lexeme: "5".to_string(),
        row: 2,
        col: 5,
    };
    assert_eq!(e.describe(), "Expected identifier, found IntegerLiteral at row 2, col 5");
    let e = SyntaxError::ExpectedAssignOrLeftParen {
        found: TokenType::Semicolon,
        found_lexeme: ";".to_string(),
        row: 1,
        col: 2,
    };
    assert_eq!(e.describe(), "Unexpected token: Semicolon at row 1, col 2");
    let e = SyntaxError::UnexpectedCommandToken {
        found: TokenType::EOF,
        found_lexeme: "".to_string(),
        row: 9,
        col: 1,
    };
    assert_eq!(e.describe(), "Unexpected command token: EOF at row 9, col 1");
    let e = SyntaxError::UnexpectedDeclarationToken {
        found: TokenType::If,
        found_lexeme: "if".to_string(),
        row: 1,
        col: 5,
    };
    assert_eq!(e.describe(), "Unexpected declaration token: If at row 1, col 5");
    let e = SyntaxError::UnexpectedPrimaryToken {
        found: TokenType::Then,
        found_lexeme: "then".to_string(),
        row: 3,
        col: 9,
    };
    assert_eq!(e.describe(), "Unexpected primary expression token: Then at row 3, col 9");
    let e = SyntaxError::UnexpectedEndOfInput { row: 2, col: 3 };
    assert_eq!(e.describe(), "Unexpected end of input at row 2, col 3");
    assert_eq!(SyntaxError::NoInput.describe(), "No input");
}

#[test]
fn kind_names_map_back_to_kinds() {
    assert_eq!(token_type_from_name("Assign"), Some(TokenType::Assign));
    assert_eq!(token_type_from_name("EOF"), Some(TokenType::EOF));
    assert_eq!(token_type_from_name("IntegerLiteral"), Some(TokenType::IntegerLiteral));
    assert_eq!(token_type_from_name("LeftBracket"), Some(TokenType::LeftBracket));
    assert_eq!(token_type_from_name("assign"), None);
    assert_eq!(token_type_from_name(""), None);
    assert_eq!(token_type_from_name("Assign "), None);
}

#[test]
fn token_line_reads_all_four_fields() {
    let r = parse_token_line("{Identifier, 'x', 1, 2}");
    assert_eq!(r, Ok(Some(tok(TokenType::Identifier, "x", 1, 2))));
    let r = parse_token_line("{Operator, '+', 12, 34}");
    assert_eq!(r, Ok(Some(tok(TokenType::Operator, "+", 12, 34))));
}

#[test]
fn short_token_line_is_skipped() {
    assert_eq!(parse_token_line(""), Ok(None));
    assert_eq!(parse_token_line("{EOF, ''}"), Ok(None));
}

#[test]
fn bad_token_line_fields_are_input_errors() {
    assert_eq!(
        parse_token_line("{Bogus, 'x', 1, 2}"),
        Err(InputError::UnknownKind)
    );
    assert_eq!(
        parse_token_line("{Identifier, 'x', one, 2}"),
        Err(InputError::InvalidRow)
    );
    assert_eq!(
        parse_token_line("{Identifier, 'x', 1, two}"),
        Err(InputError::InvalidCol)
    );
    // the row is checked before the column, the column before the kind
    assert_eq!(
        parse_token_line("{Bogus, 'x', one, two}"),
        Err(InputError::InvalidRow)
    );
    assert_eq!(
        parse_token_line("{Bogus, 'x', 1, two}"),
        Err(InputError::InvalidCol)
    );
}

#[test]
fn decimal_parsing_matches_the_i64_range() {
    assert_eq!(parse_i64("0"), Some(0));
    assert_eq!(parse_i64("+5"), Some(5));
    assert_eq!(parse_i64("-17"), Some(-17));
    assert_eq!(parse_i64("9223372036854775807"), Some(i64::MAX));
    assert_eq!(parse_i64("-9223372036854775808"), Some(i64::MIN));
    assert_eq!(parse_i64("9223372036854775808"), None);
    assert_eq!(parse_i64("-9223372036854775809"), None);
    assert_eq!(parse_i64(""), None);
    assert_eq!(parse_i64("-"), None);
    assert_eq!(parse_i64("--1"), None);
    assert_eq!(parse_i64("1a"), None);
    assert_eq!(parse_i64(" 1"), None);
}

#[test]
fn decimal_parsing_matches_the_usize_range() {
    assert_eq!(parse_usize("0"), Some(0));
    assert_eq!(parse_usize("+31"), Some(31));
    assert_eq!(parse_usize("-1"), None);
    assert_eq!(parse_usize(""), None);
    assert_eq!(parse_usize("18446744073709551615"), Some(usize::MAX));
    assert_eq!(parse_usize("18446744073709551616"), None);
}

#[test]
fn labels_lose_their_double_quotes() {
    assert_eq!(sanitize_label("a\"b"), "a'b");
    assert_eq!(sanitize_label("plain"), "plain");
    assert_eq!(sanitize_label("\"\""), "''");
}

#[test]
fn tree_text_becomes_vertices_and_edges() {
    let g = parse_tree("a(b,c)");
    assert_eq!(
        graph_dot(&g),
        "digraph G {\n    0 [label=\"a\"];\n    1 [label=\"b\"];\n    2 [label=\"c\"];\n    0 -> 1;\n    0 -> 2;\n}\n"
    );
}

#[test]
fn tree_text_lines_are_trimmed_and_joined() {
    // labels may continue across line breaks; surrounding spaces go away
    let g = parse_tree("let(\n   x,\n   y\n)");
    assert_eq!(
        graph_dot(&g),
        "digraph G {\n    0 [label=\"let\"];\n    1 [label=\"x\"];\n    2 [label=\"y\"];\n    0 -> 1;\n    0 -> 2;\n}\n"
    );
}

#[test]
fn rendered_var_reads_back_as_a_tree() {
    let node = ASTNode::Var("x".to_string(), "integer".to_string());
    let text = node.to_custom_string();
    let g = parse_tree(&text);
    // the lexeme quotes survive as label text and the DOT writer turns
    // them into single quotes
    assert_eq!(
        graph_dot(&g),
        "digraph G {\n    0 [label=\"var\"];\n    1 [label=\"name\"];\n    2 [label=\"'x'\"];\n    3 [label=\"typeName\"];\n    4 [label=\"'integer'\"];\n    0 -> 1;\n    1 -> 2;\n    0 -> 3;\n    3 -> 4;\n}\n"
    );
}

#[test]
fn dot_output_lists_vertices_then_edges() {
    let g = parse_tree("a(\"b\")");
    assert_eq!(
        graph_dot(&g),
        "digraph G {\n    0 [label=\"a\"];\n    1 [label=\"'b'\"];\n    0 -> 1;\n}\n"
    );
}

#[test]
fn empty_tree_text_gives_an_empty_graph() {
    let g = parse_tree("");
    assert_eq!(graph_dot(&g), "digraph G {\n}\n");
}

#[test]
fn unbalanced_tree_text_is_tolerated() {
    // closing more than was opened pops an empty stack harmlessly, and a
    // trailing label without a delimiter is discarded
    let g = parse_tree("a),b(c,tail");
    assert_eq!(
        graph_dot(&g),
        "digraph G {\n    0 [label=\"a\"];\n    1 [label=\"b\"];\n    2 [label=\"c\"];\n    1 -> 2;\n}\n"
    );
}
