pub mod account_id;
pub mod constants;
pub mod custody;
pub mod errors;
pub mod instructions;
pub mod state;
pub mod transitions;
