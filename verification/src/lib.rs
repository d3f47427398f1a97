//! Schema catalog and SQL resolution for per-subject analytical databases.

pub mod api;
pub mod catalog;
pub mod config;
pub mod db;
pub mod discovery;
pub mod distance;
pub mod extract;
pub mod extract_laws;
pub mod ingest;
pub mod lexer;
pub mod llm;
pub mod orchestrator;
pub mod pages;
pub mod pattern;
pub mod qualifier;
pub mod qualifier_laws;
pub mod resolve;
pub mod rewrite_lemmas;
pub mod schema_manager;
pub mod text;
