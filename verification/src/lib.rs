//! Process and configuration lifecycle manager for an external proxy-engine
//! process: supervises the running state of the engine, validates candidate
//! configurations (engine check mode and embedded scripts), and performs
//! transactional configuration switches with rollback on failure.
pub mod config;
pub mod hotkey;
pub mod manager;
pub mod outcome;
pub mod text;
pub mod validate;
