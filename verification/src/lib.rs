//! Combine several independent fallible computations into one outcome.
//!
//! If every computation succeeds, the combined outcome is a tuple holding all
//! of the success payloads in order. If one or more fail, the combined outcome
//! is a list of every error that occurred, in the order the fallible values
//! were folded in — not just the first. This suits validation-style work,
//! where reporting all invalid fields at once is worth more than stopping at
//! the first.
//!
//! The success payload types may all differ; every error payload in one chain
//! shares one type. Both operands of each combine step are already evaluated
//! before the call: a failure on one side never suppresses the report of a
//! failure on the other.

mod accumulate;
mod chain;
mod laws;
mod model;

pub use accumulate::and;
pub use accumulate::Accumulator;
pub use accumulate::MAX_ARITY;
pub use chain::MultiTry;
pub use laws::lemma_all_successes_chain2;
pub use laws::lemma_all_successes_chain3;
pub use laws::lemma_all_successes_chain4;
pub use laws::lemma_all_successes_chain5;
pub use laws::lemma_all_successes_chain6;
pub use laws::lemma_all_successes_chain7;
pub use laws::lemma_all_successes_chain8;
pub use laws::lemma_call_order_sensitivity;
pub use laws::lemma_error_order_chain2;
pub use laws::lemma_error_order_chain3;
pub use laws::lemma_error_order_chain4;
pub use laws::lemma_error_order_chain5;
pub use laws::lemma_error_order_chain6;
pub use laws::lemma_error_order_chain7;
pub use laws::lemma_error_order_chain8;
pub use laws::lemma_finalize_pure;
pub use model::combine_spec;
pub use model::err_seq;
pub use model::extend1_spec;
pub use model::extend2_spec;
pub use model::extend3_spec;
pub use model::extend4_spec;
pub use model::extend5_spec;
pub use model::extend6_spec;
pub use model::extend7_spec;
pub use model::outcome_view;
pub use model::state_errs;
