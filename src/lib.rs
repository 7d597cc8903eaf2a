//! A stack machine whose instruction set is mostly cryptographic primitives,
//! with a compiler from a line-oriented mnemonic language.
pub mod opcode;
pub mod instruction;
pub mod encoding;
pub mod hash;
pub mod aes;
pub mod rsa;
pub mod pbkdf2;
pub mod compiler;
pub mod error;
pub mod trace;
pub mod vm;
pub mod precheck;
pub mod lexer;
pub mod parser;

pub use compiler::Compiler;
pub use instruction::Instruction;
pub use opcode::Opcode;
pub use vm::Vm;
