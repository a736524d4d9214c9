//! Decision core of a voice assistant: the listening state machine that cuts
//! utterances out of an audio stream, the transcript decision engine, the
//! confirmation-gated executor for dangerous commands, and the search-gating
//! workflow that answers questions from knowledge or from web results.
pub mod decision;
pub mod executor;
pub mod listen;
pub mod llm;
pub mod search;
pub mod text;
