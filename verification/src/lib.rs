//! Small programs and libraries about Rust, with their logic verified: a line search tool,
//! a guessing game, a shirt store, number parsing, page titles, and the printing and echo
//! logic of two ESP32 programs, among others.

pub mod adder;
pub mod advanced;
pub mod appendix;
pub mod by_example;
pub mod coins;
pub mod esp32;
pub mod flow;
pub mod generics;
pub mod guessing;
pub mod inventory;
pub mod minigrep;
pub mod minigrep_env;
pub mod ownership;
pub mod parse;
pub mod restaurant;
pub mod shapes;
pub mod smart_pointers;
pub mod text;
pub mod title;
