pub mod astnode;
pub mod bytes;
pub mod debuginfo;
pub mod dynsym;
pub mod encoding;
pub mod error;
pub mod image;
pub mod instruction;
pub mod labels;
pub mod lexer;
pub mod log_buffer;
pub mod message;
pub mod opcode;
pub mod parser;
pub mod parser_laws;
pub mod program;
pub mod scan;
pub mod section;
pub mod session;
pub mod state;
pub mod text;
pub mod token;
pub mod vm;
