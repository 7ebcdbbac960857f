pub mod call;
pub mod common;
pub mod env;
pub mod error;
pub mod global_vars;
pub mod if_else;
pub mod llvm;
pub mod loops;
pub mod ret;
pub mod structs;
