//! Kismet bytecode

pub mod tokens;
pub mod expression;
pub mod parse;
pub mod read;
pub mod read_expr;
pub mod read_body;
pub mod read_misc;
pub mod read_cases;
pub mod read_text;
pub mod read_ex0;
pub mod read_ex1;
pub mod read_ex2;
pub mod read_ex3;
pub mod read_ex4;
pub mod ser;
pub mod write;
pub mod write_expr;
pub mod write_body;
pub mod write_ex0;
pub mod write_ex1;
pub mod write_ex2;
pub mod write_ex3;
pub mod write_ex4;
pub mod rt_prim;
pub mod fits;
pub mod layout;
pub mod rt;
pub mod rt_body;
pub mod rt_ex0;
pub mod rt_ex1;
pub mod rt_ex2;
pub mod rt_ex3;
pub mod rt_ex4;
