//! Core runtime of a terminal client for managing VPN subscription profiles.
//!
//! The crate covers the parts of the client with real control-flow and data
//! pressure: a focus router that hands raw key input to exactly one view at a
//! time, a dispatcher that drains one pending action per tick from the focused
//! view and broadcasts follow-up actions to every view, and the ingestion
//! pipeline that turns an HTTP response for a subscription URL into a profile
//! entity (quota header parsing, filename derivation, home-page header).
//! Terminal setup, drawing, the HTTP transport and the SQLite store live in
//! the surrounding binary and are reached only through narrow boundaries.

pub mod action;
pub mod app;
pub mod help;
pub mod input;
pub mod menu;
pub mod menus;
pub mod mode;
pub mod prfitem;
pub mod view;
