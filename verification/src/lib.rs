//! Row-level rules of a session store that keeps its state in SQL tables.
pub mod assignment;
pub mod assignment_columns;
pub mod assignment_laws;
pub mod claim;
pub mod consent;
pub mod consent_change;
pub mod consent_columns;
pub mod consent_laws;
pub mod creation;
pub mod delivery;
pub mod delivery_columns;
pub mod delivery_laws;
pub mod digest;
pub mod error;
pub mod execution;
pub mod execution_columns;
pub mod execution_laws;
pub mod flush;
pub mod idle;
pub mod idle_columns;
pub mod ids;
pub mod input_columns;
pub mod invariants;
pub mod json;
pub mod listing;
pub mod listing_columns;
pub mod messages;
pub mod model;
pub mod notification;
pub mod ordering;
pub mod reconciliation;
pub mod rows;
pub mod session;
pub mod terminal;
pub mod text;
pub mod time;
pub mod trace_config;
pub mod trace_input;
pub mod truth;
pub mod warm;
