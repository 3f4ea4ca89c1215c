pub mod errors;
pub mod history;
pub mod instructions;
pub mod key;
pub mod pda;
pub mod seeds;
pub mod states;
pub mod tip_jar;
