//! Command dispatch and hook lifecycle for a role-assigning chat bot.
pub mod text;
pub mod tokenizer;
pub mod registry;
pub mod pipeline;
pub mod role;
pub mod laws;
