pub mod agent;
pub mod chat;
pub mod clock;
pub mod commands;
pub mod decider;
pub mod decision;
pub mod exchange;
pub mod llm;
pub mod memory;
pub mod registry;
pub mod seqs;
pub mod sort;
pub mod text;
pub mod tools;
pub mod translate;
pub mod types;
