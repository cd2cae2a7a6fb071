//! What holds of every builder, and of the code that it builds.

pub mod code;
pub mod conditions;
pub mod forms;
pub mod histories;
pub mod invariants;
pub mod labels;
pub mod maps;
pub mod operations;
pub mod recording;
pub mod runs;
pub mod statements;
pub mod values;
pub mod views;
