//! Verified walkthroughs of core Rust language concepts: control flow,
//! scalar and compound data types, functions and expressions, ownership,
//! borrowing, slices, structs, enums, and pattern matching.
//!
//! Each module pairs one concept with small executable functions whose
//! contracts pin down exactly what every function returns or changes.

pub mod borrowing;
pub mod control_flow;
pub mod data_types;
pub mod enums;
pub mod functions;
pub mod if_let_demo;
pub mod match_demo;
pub mod ownership;
pub mod rectangles;
pub mod slice;
pub mod structs;
pub mod variables;
