//! The state and rules of a terminal client for agents that speak the Agent
//! Client Protocol: how wire notifications become events, how events and keys
//! change the screen state, and what is sent back.
//!
//! Everything here is pure: input comes in as plain values, and what has to be
//! done outside comes back as plain values.

pub mod acp_fs;
pub mod agents;
pub mod app;
pub mod asks;
pub mod auth;
pub mod bind;
pub mod bus;
pub mod clock;
pub mod coalesce;
pub mod commands;
pub mod compose;
pub mod ctl;
pub mod draft;
pub mod effect;
pub mod events;
pub mod fold;
pub mod handle;
pub mod info;
pub mod input;
pub mod json;
pub mod keys;
pub mod laws;
pub mod laws_asks;
pub mod laws_commands;
pub mod laws_events;
pub mod laws_keys;
pub mod laws_lists;
pub mod laws_replies;
pub mod laws_sessions;
pub mod laws_told;
pub mod lists;
pub mod mouse;
pub mod overlays;
pub mod picker;
pub mod plugins;
pub mod presets;
pub mod queue;
pub mod replies;
pub mod resume;
pub mod screen;
pub mod select;
pub mod sense;
mod sense_menus;
mod sense_prompts;
mod sense_sessions;
mod sense_told;
pub mod seqs;
pub mod session;
pub mod settings;
pub mod shell;
pub mod slash;
pub mod slots;
pub mod sound;
pub mod start;
pub mod tabs;
pub mod term;
pub mod text;
pub mod theme;
pub mod tree;
