//! Exponential-decay vesting for a single account, driven by a logical clock.
//!
//! A deposit vests continuously: the part that is still vesting shrinks along
//! an exponential curve, and what has left that pool can be claimed. The
//! account keeps its books in integers. The one real-valued step, evaluating
//! the curve, is done by the caller, who hands each operation the still
//! vesting principal as the curve gives it for the time that has passed
//! (the *decayed principal*, rounded down). Everything this crate states
//! holds for every such value.
//!
//! - [`clock`]: the logical clock.
//! - [`model`]: the account as a mathematical value, and its transitions.
//! - [`token_stream`]: the executable account.
//! - [`laws`]: what holds of the model across operations.

pub mod clock;
pub mod model;
pub mod token_stream;
pub mod laws;



