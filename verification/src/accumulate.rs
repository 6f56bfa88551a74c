//! The `Accumulator` state: an explicit chain with a separate finalize step.
//!
//! A chain starts with [`and`], which folds the first two fallible values
//! into an arity-2 state, grows by one fallible value per `and` method call,
//! and ends with [`Accumulator::finalize`], which hands the plain
//! success-or-failure outcome back to the caller. The state is transformed,
//! never mutated in place: each call consumes the prior state and returns the
//! next one.

use vstd::prelude::*;

use crate::model::combine_spec;
use crate::model::extend2_spec;
use crate::model::extend3_spec;
use crate::model::extend4_spec;
use crate::model::extend5_spec;
use crate::model::extend6_spec;
use crate::model::extend7_spec;
use crate::model::outcome_view;

verus! {

/// The largest number of success slots one chain can hold. Extending a chain
/// past it does not compile: there is no `and` at a higher arity.
pub const MAX_ARITY: usize = 8;

/// The running state of a chain of fallible values.
///
/// Either every value combined so far succeeded, and the state holds their
/// payloads as a tuple in combine order, or at least one failed, and the
/// state holds every error payload gathered so far in combine order. Once a
/// chain fails it never returns to success; it can only gather more errors.
pub enum Accumulator<T, E> {
    /// Every fallible value combined so far succeeded.
    Success(T),
    /// At least one fallible value failed; earlier success payloads are
    /// discarded, as the purpose of the chain is now error reporting alone.
    Failure(Vec<E>),
}

impl<T, E> Accumulator<T, E> {
    /// The error payloads gathered so far, in combine order; a success state
    /// holds none.
    pub open spec fn errors(self) -> Seq<E> {
        match self {
            Accumulator::Success(_) => Seq::empty(),
            Accumulator::Failure(errs) => errs@,
        }
    }

    /// The model of this state: the success tuple, or the sequence of errors
    /// gathered so far.
    pub open spec fn outcome(self) -> Result<T, Seq<E>> {
        match self {
            Accumulator::Success(t) => Result::Ok(t),
            Accumulator::Failure(errs) => Result::Err(errs@),
        }
    }

    /// Converts a terminal state into the plain success-or-failure outcome:
    /// exactly the state's payload, with no further wrapping. This is the
    /// single exit point of a chain; the outcome is a pure function of the
    /// state, so finalizing equal states always yields equal outcomes.
    pub fn finalize(self) -> (r: Result<T, Vec<E>>)
        ensures
            outcome_view(r) == self.outcome(),
    {
        match self {
            Accumulator::Success(t) => Result::Ok(t),
            Accumulator::Failure(errs) => Result::Err(errs),
        }
    }
}

/// Combines the first two fallible values of a chain into an arity-2 state.
/// Both values are already evaluated: a failure of one never suppresses the
/// report of a failure of the other. Success exactly when both succeed;
/// otherwise every error that occurred, in call order.
pub fn and<T1, T2, E>(a: Result<T1, E>, b: Result<T2, E>) -> (r: Accumulator<(T1, T2), E>)
    ensures
        r.outcome() == combine_spec(a, b),
{
    match (a, b) {
        (Result::Ok(va), Result::Ok(vb)) => Accumulator::Success((va, vb)),
        (Result::Ok(_), Result::Err(eb)) => {
            let mut errs: Vec<E> = Vec::new();
            errs.push(eb);
            proof {
                assert(errs@ =~= Seq::<E>::empty() + seq![eb]);
            }
            Accumulator::Failure(errs)
        },
        (Result::Err(ea), Result::Ok(_)) => {
            let mut errs: Vec<E> = Vec::new();
            errs.push(ea);
            proof {
                assert(errs@ =~= seq![ea] + Seq::<E>::empty());
            }
            Accumulator::Failure(errs)
        },
        (Result::Err(ea), Result::Err(eb)) => {
            let mut errs: Vec<E> = Vec::new();
            errs.push(ea);
            errs.push(eb);
            proof {
                assert(errs@ =~= seq![ea] + seq![eb]);
            }
            Accumulator::Failure(errs)
        },
    }
}

impl<T1, T2, E> Accumulator<(T1, T2), E> {
    /// Extends an arity-2 state by one more fallible value.
    pub fn and<R>(self, next: Result<R, E>) -> (r: Accumulator<(T1, T2, R), E>)
        ensures
            r.outcome() == extend2_spec(self.outcome(), next),
    {
        match (self, next) {
            (Accumulator::Success(t), Result::Ok(v)) => Accumulator::Success((t.0, t.1, v)),
            (Accumulator::Success(_), Result::Err(e)) => {
                let mut errs: Vec<E> = Vec::new();
                errs.push(e);
                proof {
                    assert(errs@ =~= Seq::<E>::empty() + seq![e]);
                }
                Accumulator::Failure(errs)
            },
            (Accumulator::Failure(errs), Result::Ok(_)) => {
                proof {
                    assert(errs@ =~= errs@ + Seq::<E>::empty());
                }
                Accumulator::Failure(errs)
            },
            (Accumulator::Failure(mut errs), Result::Err(e)) => {
                let ghost prior = errs@;
                errs.push(e);
                proof {
                    assert(errs@ =~= prior + seq![e]);
                }
                Accumulator::Failure(errs)
            },
        }
    }
}

impl<T1, T2, T3, E> Accumulator<(T1, T2, T3), E> {
    /// Extends an arity-3 state by one more fallible value.
    pub fn and<R>(self, next: Result<R, E>) -> (r: Accumulator<(T1, T2, T3, R), E>)
        ensures
            r.outcome() == extend3_spec(self.outcome(), next),
    {
        match (self, next) {
            (Accumulator::Success(t), Result::Ok(v)) => Accumulator::Success((t.0, t.1, t.2, v)),
            (Accumulator::Success(_), Result::Err(e)) => {
                let mut errs: Vec<E> = Vec::new();
                errs.push(e);
                proof {
                    assert(errs@ =~= Seq::<E>::empty() + seq![e]);
                }
                Accumulator::Failure(errs)
            },
            (Accumulator::Failure(errs), Result::Ok(_)) => {
                proof {
                    assert(errs@ =~= errs@ + Seq::<E>::empty());
                }
                Accumulator::Failure(errs)
            },
            (Accumulator::Failure(mut errs), Result::Err(e)) => {
                let ghost prior = errs@;
                errs.push(e);
                proof {
                    assert(errs@ =~= prior + seq![e]);
                }
                Accumulator::Failure(errs)
            },
        }
    }
}

impl<T1, T2, T3, T4, E> Accumulator<(T1, T2, T3, T4), E> {
    /// Extends an arity-4 state by one more fallible value.
    pub fn and<R>(self, next: Result<R, E>) -> (r: Accumulator<(T1, T2, T3, T4, R), E>)
        ensures
            r.outcome() == extend4_spec(self.outcome(), next),
    {
        match (self, next) {
            (Accumulator::Success(t), Result::Ok(v)) => Accumulator::Success(
                (t.0, t.1, t.2, t.3, v),
            ),
            (Accumulator::Success(_), Result::Err(e)) => {
                let mut errs: Vec<E> = Vec::new();
                errs.push(e);
                proof {
                    assert(errs@ =~= Seq::<E>::empty() + seq![e]);
                }
                Accumulator::Failure(errs)
            },
            (Accumulator::Failure(errs), Result::Ok(_)) => {
                proof {
                    assert(errs@ =~= errs@ + Seq::<E>::empty());
                }
                Accumulator::Failure(errs)
            },
            (Accumulator::Failure(mut errs), Result::Err(e)) => {
                let ghost prior = errs@;
                errs.push(e);
                proof {
                    assert(errs@ =~= prior + seq![e]);
                }
                Accumulator::Failure(errs)
            },
        }
    }
}

impl<T1, T2, T3, T4, T5, E> Accumulator<(T1, T2, T3, T4, T5), E> {
    /// Extends an arity-5 state by one more fallible value.
    pub fn and<R>(self, next: Result<R, E>) -> (r: Accumulator<(T1, T2, T3, T4, T5, R), E>)
        ensures
            r.outcome() == extend5_spec(self.outcome(), next),
    {
        match (self, next) {
            (Accumulator::Success(t), Result::Ok(v)) => Accumulator::Success(
                (t.0, t.1, t.2, t.3, t.4, v),
            ),
            (Accumulator::Success(_), Result::Err(e)) => {
                let mut errs: Vec<E> = Vec::new();
                errs.push(e);
                proof {
                    assert(errs@ =~= Seq::<E>::empty() + seq![e]);
                }
                Accumulator::Failure(errs)
            },
            (Accumulator::Failure(errs), Result::Ok(_)) => {
                proof {
                    assert(errs@ =~= errs@ + Seq::<E>::empty());
                }
                Accumulator::Failure(errs)
            },
            (Accumulator::Failure(mut errs), Result::Err(e)) => {
                let ghost prior = errs@;
                errs.push(e);
                proof {
                    assert(errs@ =~= prior + seq![e]);
                }
                Accumulator::Failure(errs)
            },
        }
    }
}

impl<T1, T2, T3, T4, T5, T6, E> Accumulator<(T1, T2, T3, T4, T5, T6), E> {
    /// Extends an arity-6 state by one more fallible value.
    pub fn and<R>(self, next: Result<R, E>) -> (r: Accumulator<(T1, T2, T3, T4, T5, T6, R), E>)
        ensures
            r.outcome() == extend6_spec(self.outcome(), next),
    {
        match (self, next) {
            (Accumulator::Success(t), Result::Ok(v)) => Accumulator::Success(
                (t.0, t.1, t.2, t.3, t.4, t.5, v),
            ),
            (Accumulator::Success(_), Result::Err(e)) => {
                let mut errs: Vec<E> = Vec::new();
                errs.push(e);
                proof {
                    assert(errs@ =~= Seq::<E>::empty() + seq![e]);
                }
                Accumulator::Failure(errs)
            },
            (Accumulator::Failure(errs), Result::Ok(_)) => {
                proof {
                    assert(errs@ =~= errs@ + Seq::<E>::empty());
                }
                Accumulator::Failure(errs)
            },
            (Accumulator::Failure(mut errs), Result::Err(e)) => {
                let ghost prior = errs@;
                errs.push(e);
                proof {
                    assert(errs@ =~= prior + seq![e]);
                }
                Accumulator::Failure(errs)
            },
        }
    }
}

impl<T1, T2, T3, T4, T5, T6, T7, E> Accumulator<(T1, T2, T3, T4, T5, T6, T7), E> {
    /// Extends an arity-7 state by one more fallible value.
    pub fn and<R>(self, next: Result<R, E>) -> (r: Accumulator<(T1, T2, T3, T4, T5, T6, T7, R), E>)
        ensures
            r.outcome() == extend7_spec(self.outcome(), next),
    {
        match (self, next) {
            (Accumulator::Success(t), Result::Ok(v)) => Accumulator::Success(
                (t.0, t.1, t.2, t.3, t.4, t.5, t.6, v),
            ),
            (Accumulator::Success(_), Result::Err(e)) => {
                let mut errs: Vec<E> = Vec::new();
                errs.push(e);
                proof {
                    assert(errs@ =~= Seq::<E>::empty() + seq![e]);
                }
                Accumulator::Failure(errs)
            },
            (Accumulator::Failure(errs), Result::Ok(_)) => {
                proof {
                    assert(errs@ =~= errs@ + Seq::<E>::empty());
                }
                Accumulator::Failure(errs)
            },
            (Accumulator::Failure(mut errs), Result::Err(e)) => {
                let ghost prior = errs@;
                errs.push(e);
                proof {
                    assert(errs@ =~= prior + seq![e]);
                }
                Accumulator::Failure(errs)
            },
        }
    }
}

} // verus!
