pub mod ast;
pub mod digits;
pub mod error;
pub mod export;
pub mod grammar;
pub mod laws;
pub mod parser;
pub mod reader;
pub mod render;
pub mod text;
pub mod token;

pub use ast::ASTNode;
pub use ast::SpecNode;
pub use error::InputError;
pub use error::SyntaxError;
pub use export::LabelGraph;
pub use export::graph_dot;
pub use export::parse_tree;
pub use export::sanitize_label;
pub use parser::SyntaxParser;
pub use reader::parse_token_line;
pub use reader::token_type_from_name;
pub use token::Token;
pub use token::TokenType;
