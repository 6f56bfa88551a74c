//! The `MultiTry` extension trait: combining plain `Result` values.
//!
//! A chain starts from an ordinary `Result<T, E>` and grows by one fallible
//! value per `and_try` call. The running state is itself a plain
//! `Result<(..), Vec<E>>`, so the caller's own error propagation (`?`, or an
//! explicit branch) consumes the final outcome directly. One implementation
//! per arity carries the chain up to [`crate::MAX_ARITY`] success slots.

use vstd::prelude::*;

use crate::model::combine_spec;
use crate::model::extend1_spec;
use crate::model::extend2_spec;
use crate::model::extend3_spec;
use crate::model::extend4_spec;
use crate::model::extend5_spec;
use crate::model::extend6_spec;
use crate::model::extend7_spec;
use crate::model::outcome_view;

verus! {

/// Exposes the `and_try` method for combining multiple `Result` values.
///
/// The `Ok` type of each combined `Result` may differ; each success payload
/// takes one slot of the output tuple, in call order. The `Err` types must
/// all be the same; every error that occurred is gathered into one `Vec`, in
/// call order, with nothing dropped, reordered or deduplicated.
pub trait MultiTry<RT, ERR> {
    /// The output of the `and_try` operation.
    type Output;

    /// Returns the current value combined with the given `Result`. If both
    /// succeeded, the output holds every success payload; if either failed,
    /// it holds every error that occurred, in call order.
    fn and_try(self, other: Result<RT, ERR>) -> Self::Output;
}

impl<T, RT, ERR> MultiTry<RT, ERR> for Result<T, ERR> {
    type Output = Result<(T, RT), Vec<ERR>>;

    fn and_try(self, other: Result<RT, ERR>) -> (r: Result<(T, RT), Vec<ERR>>)
        ensures
            outcome_view(r) == combine_spec(self, other),
    {
        match (self, other) {
            (Result::Ok(a), Result::Ok(b)) => Result::Ok((a, b)),
            (Result::Ok(_), Result::Err(eb)) => {
                let mut errs: Vec<ERR> = Vec::new();
                errs.push(eb);
                proof {
                    assert(errs@ =~= Seq::<ERR>::empty() + seq![eb]);
                }
                Result::Err(errs)
            },
            (Result::Err(ea), Result::Ok(_)) => {
                let mut errs: Vec<ERR> = Vec::new();
                errs.push(ea);
                proof {
                    assert(errs@ =~= seq![ea] + Seq::<ERR>::empty());
                }
                Result::Err(errs)
            },
            (Result::Err(ea), Result::Err(eb)) => {
                let mut errs: Vec<ERR> = Vec::new();
                errs.push(ea);
                errs.push(eb);
                proof {
                    assert(errs@ =~= seq![ea] + seq![eb]);
                }
                Result::Err(errs)
            },
        }
    }
}

impl<RT, ERR, T1> MultiTry<RT, ERR> for Result<(T1,), Vec<ERR>> {
    type Output = Result<(T1, RT), Vec<ERR>>;

    fn and_try(self, other: Result<RT, ERR>) -> (r: Result<(T1, RT), Vec<ERR>>)
        ensures
            outcome_view(r) == extend1_spec(outcome_view(self), other),
    {
        match (self, other) {
            (Result::Ok(t), Result::Ok(b)) => Result::Ok((t.0, b)),
            (Result::Ok(_), Result::Err(e)) => {
                let mut errs: Vec<ERR> = Vec::new();
                errs.push(e);
                proof {
                    assert(errs@ =~= Seq::<ERR>::empty() + seq![e]);
                }
                Result::Err(errs)
            },
            (Result::Err(errs), Result::Ok(_)) => {
                proof {
                    assert(errs@ =~= errs@ + Seq::<ERR>::empty());
                }
                Result::Err(errs)
            },
            (Result::Err(mut errs), Result::Err(e)) => {
                let ghost prior = errs@;
                errs.push(e);
                proof {
                    assert(errs@ =~= prior + seq![e]);
                }
                Result::Err(errs)
            },
        }
    }
}

impl<RT, ERR, T1, T2> MultiTry<RT, ERR> for Result<(T1, T2), Vec<ERR>> {
    type Output = Result<(T1, T2, RT), Vec<ERR>>;

    fn and_try(self, other: Result<RT, ERR>) -> (r: Result<(T1, T2, RT), Vec<ERR>>)
        ensures
            outcome_view(r) == extend2_spec(outcome_view(self), other),
    {
        match (self, other) {
            (Result::Ok(t), Result::Ok(b)) => Result::Ok((t.0, t.1, b)),
            (Result::Ok(_), Result::Err(e)) => {
                let mut errs: Vec<ERR> = Vec::new();
                errs.push(e);
                proof {
                    assert(errs@ =~= Seq::<ERR>::empty() + seq![e]);
                }
                Result::Err(errs)
            },
            (Result::Err(errs), Result::Ok(_)) => {
                proof {
                    assert(errs@ =~= errs@ + Seq::<ERR>::empty());
                }
                Result::Err(errs)
            },
            (Result::Err(mut errs), Result::Err(e)) => {
                let ghost prior = errs@;
                errs.push(e);
                proof {
                    assert(errs@ =~= prior + seq![e]);
                }
                Result::Err(errs)
            },
        }
    }
}

impl<RT, ERR, T1, T2, T3> MultiTry<RT, ERR> for Result<(T1, T2, T3), Vec<ERR>> {
    type Output = Result<(T1, T2, T3, RT), Vec<ERR>>;

    fn and_try(self, other: Result<RT, ERR>) -> (r: Result<(T1, T2, T3, RT), Vec<ERR>>)
        ensures
            outcome_view(r) == extend3_spec(outcome_view(self), other),
    {
        match (self, other) {
            (Result::Ok(t), Result::Ok(b)) => Result::Ok((t.0, t.1, t.2, b)),
            (Result::Ok(_), Result::Err(e)) => {
                let mut errs: Vec<ERR> = Vec::new();
                errs.push(e);
                proof {
                    assert(errs@ =~= Seq::<ERR>::empty() + seq![e]);
                }
                Result::Err(errs)
            },
            (Result::Err(errs), Result::Ok(_)) => {
                proof {
                    assert(errs@ =~= errs@ + Seq::<ERR>::empty());
                }
                Result::Err(errs)
            },
            (Result::Err(mut errs), Result::Err(e)) => {
                let ghost prior = errs@;
                errs.push(e);
                proof {
                    assert(errs@ =~= prior + seq![e]);
                }
                Result::Err(errs)
            },
        }
    }
}

impl<RT, ERR, T1, T2, T3, T4> MultiTry<RT, ERR> for Result<(T1, T2, T3, T4), Vec<ERR>> {
    type Output = Result<(T1, T2, T3, T4, RT), Vec<ERR>>;

    fn and_try(self, other: Result<RT, ERR>) -> (r: Result<(T1, T2, T3, T4, RT), Vec<ERR>>)
        ensures
            outcome_view(r) == extend4_spec(outcome_view(self), other),
    {
        match (self, other) {
            (Result::Ok(t), Result::Ok(b)) => Result::Ok((t.0, t.1, t.2, t.3, b)),
            (Result::Ok(_), Result::Err(e)) => {
                let mut errs: Vec<ERR> = Vec::new();
                errs.push(e);
                proof {
                    assert(errs@ =~= Seq::<ERR>::empty() + seq![e]);
                }
                Result::Err(errs)
            },
            (Result::Err(errs), Result::Ok(_)) => {
                proof {
                    assert(errs@ =~= errs@ + Seq::<ERR>::empty());
                }
                Result::Err(errs)
            },
            (Result::Err(mut errs), Result::Err(e)) => {
                let ghost prior = errs@;
                errs.push(e);
                proof {
                    assert(errs@ =~= prior + seq![e]);
                }
                Result::Err(errs)
            },
        }
    }
}

impl<RT, ERR, T1, T2, T3, T4, T5> MultiTry<RT, ERR> for Result<(T1, T2, T3, T4, T5), Vec<ERR>> {
    type Output = Result<(T1, T2, T3, T4, T5, RT), Vec<ERR>>;

    fn and_try(self, other: Result<RT, ERR>) -> (r: Result<(T1, T2, T3, T4, T5, RT), Vec<ERR>>)
        ensures
            outcome_view(r) == extend5_spec(outcome_view(self), other),
    {
        match (self, other) {
            (Result::Ok(t), Result::Ok(b)) => Result::Ok((t.0, t.1, t.2, t.3, t.4, b)),
            (Result::Ok(_), Result::Err(e)) => {
                let mut errs: Vec<ERR> = Vec::new();
                errs.push(e);
                proof {
                    assert(errs@ =~= Seq::<ERR>::empty() + seq![e]);
                }
                Result::Err(errs)
            },
            (Result::Err(errs), Result::Ok(_)) => {
                proof {
                    assert(errs@ =~= errs@ + Seq::<ERR>::empty());
                }
                Result::Err(errs)
            },
            (Result::Err(mut errs), Result::Err(e)) => {
                let ghost prior = errs@;
                errs.push(e);
                proof {
                    assert(errs@ =~= prior + seq![e]);
                }
                Result::Err(errs)
            },
        }
    }
}

impl<RT, ERR, T1, T2, T3, T4, T5, T6> MultiTry<RT, ERR> for Result<
    (T1, T2, T3, T4, T5, T6),
    Vec<ERR>,
> {
    type Output = Result<(T1, T2, T3, T4, T5, T6, RT), Vec<ERR>>;

    fn and_try(self, other: Result<RT, ERR>) -> (r: Result<
        (T1, T2, T3, T4, T5, T6, RT),
        Vec<ERR>,
    >)
        ensures
            outcome_view(r) == extend6_spec(outcome_view(self), other),
    {
        match (self, other) {
            (Result::Ok(t), Result::Ok(b)) => Result::Ok((t.0, t.1, t.2, t.3, t.4, t.5, b)),
            (Result::Ok(_), Result::Err(e)) => {
                let mut errs: Vec<ERR> = Vec::new();
                errs.push(e);
                proof {
                    assert(errs@ =~= Seq::<ERR>::empty() + seq![e]);
                }
                Result::Err(errs)
            },
            (Result::Err(errs), Result::Ok(_)) => {
                proof {
                    assert(errs@ =~= errs@ + Seq::<ERR>::empty());
                }
                Result::Err(errs)
            },
            (Result::Err(mut errs), Result::Err(e)) => {
                let ghost prior = errs@;
                errs.push(e);
                proof {
                    assert(errs@ =~= prior + seq![e]);
                }
                Result::Err(errs)
            },
        }
    }
}

impl<RT, ERR, T1, T2, T3, T4, T5, T6, T7> MultiTry<RT, ERR> for Result<
    (T1, T2, T3, T4, T5, T6, T7),
    Vec<ERR>,
> {
    type Output = Result<(T1, T2, T3, T4, T5, T6, T7, RT), Vec<ERR>>;

    fn and_try(self, other: Result<RT, ERR>) -> (r: Result<
        (T1, T2, T3, T4, T5, T6, T7, RT),
        Vec<ERR>,
    >)
        ensures
            outcome_view(r) == extend7_spec(outcome_view(self), other),
    {
        match (self, other) {
            (Result::Ok(t), Result::Ok(b)) => Result::Ok((t.0, t.1, t.2, t.3, t.4, t.5, t.6, b)),
            (Result::Ok(_), Result::Err(e)) => {
                let mut errs: Vec<ERR> = Vec::new();
                errs.push(e);
                proof {
                    assert(errs@ =~= Seq::<ERR>::empty() + seq![e]);
                }
                Result::Err(errs)
            },
            (Result::Err(errs), Result::Ok(_)) => {
                proof {
                    assert(errs@ =~= errs@ + Seq::<ERR>::empty());
                }
                Result::Err(errs)
            },
            (Result::Err(mut errs), Result::Err(e)) => {
                let ghost prior = errs@;
                errs.push(e);
                proof {
                    assert(errs@ =~= prior + seq![e]);
                }
                Result::Err(errs)
            },
        }
    }
}

} // verus!
