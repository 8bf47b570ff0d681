//! Tracks one train journey: picks the matching service among a station's
//! departures, decides when its live running data is refreshed, and lays out
//! each stop of the journey as a styled, fixed-width status line.

pub mod station;
pub mod service;
pub mod matcher;
pub mod render;
pub mod tracker;
