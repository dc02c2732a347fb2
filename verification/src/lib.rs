use vstd::prelude::*;

pub mod text;
pub mod quant_interp;
pub mod osc_column;
pub mod state_sync;
pub mod performance;
pub mod piano;
pub mod mod_matrix;
pub mod audit_registry;
pub mod command_history;
pub mod widgets;
pub mod state;
pub mod layout;
pub mod actions;
pub mod oscillator;
pub mod agent;
pub mod note_edit;
pub mod compose;
pub mod chain;

verus! {

} // verus!
