//! What holds of the loop as a whole.

pub mod answers;
pub mod calls;
pub mod choices;
pub mod clients;
pub mod parts;
pub mod requests;
pub mod run;
pub mod stalls;
pub mod steps;
