//! Backend core of a desktop productivity tracker: a verified time-accounting
//! state machine shared behind a reader/writer lock, a pure activity
//! categorizer over the foreground window's name and title, and the planning
//! and bookkeeping half of the screenshot-capture pipeline.

pub mod capture;
pub mod categorize;
pub mod digits;
pub mod state;
pub mod timer;
