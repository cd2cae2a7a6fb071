//! Cairo assembly (CASM) representation and construction.
//!
//! The crate holds the operands and instructions of CASM, and a builder that lays instructions
//! out while it keeps track of the allocation pointer, of the labels and of the instruction sizes.

pub mod aux_info;
pub mod bigint;
pub mod builder;
pub mod cell_expression;
pub mod hints;
pub mod instructions;
pub mod laws;
pub mod model;
pub mod operand;
pub mod ordered_map;
pub mod semantics;
pub mod state;
