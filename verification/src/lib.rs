//! Verified core of the idklol game backend services.
pub mod text;
pub mod command;
pub mod env_config;
pub mod logging;
pub mod runtime;
pub mod digest;
pub mod catalog;
pub mod catalog_service;
pub mod auth;
pub mod order;
pub mod prompts;
pub mod npc;
pub mod chat;
pub mod requests;
pub mod characters;
pub mod bridge;
pub mod harness;
pub mod sampling;
pub mod cycles;
pub mod harness_settings;
pub mod candidates;
pub mod report;
