//! The analysis behind the `remote`, `actor`, `actor_methods` and `main`
//! attribute macros: which types are object references or results, which
//! functions and methods are accepted, and the names and call shapes of the
//! code that the macros generate. The analysis works on plain descriptions
//! of the parsed items; turning syntax into descriptions, and plans back
//! into tokens, happens where the syntax crates are.

pub mod desc;
pub mod types;
pub mod remote;
pub mod actor;
