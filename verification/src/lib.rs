//! A bridge to a fitness-tracking API, and the report that compares a
//! logged workout with the routine it was started from.
//!
//! The report is the heart of the crate. `targets` resolves a routine into a
//! table of target rep ranges, found by exercise template and set position.
//! `outcome` classifies a rep count against a range and aggregates the sets
//! of an exercise. `routine_table`, `workout_table` and `report` lay the
//! result out as fixed-width text, on the grid of `layout` and with the
//! numbers of `text` and `units`. `session` leads through the fetches that a
//! report needs without doing them.
//!
//! Around it stand the API's requests as plain values (`requests`), its
//! plain records (`resources`), the choice of the API key (`config`), and
//! the reading and writing of JSON text (`json`).

pub mod config;
pub mod json;
pub mod layout;
pub mod models;
pub mod outcome;
pub mod report;
pub mod requests;
pub mod resources;
pub mod routine_table;
pub mod session;
pub mod targets;
pub mod text;
pub mod units;
pub mod workout_table;
