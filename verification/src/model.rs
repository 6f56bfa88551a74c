//! The mathematical model of the accumulation algebra.
//!
//! A chain's state is modelled as `Result<T, Seq<E>>`: either the tuple of
//! success payloads gathered so far, or the sequence of error payloads
//! gathered so far, in combine order. Every operation of the library states
//! its contract as an equation over this model: the combined state is a
//! success exactly when both operands succeed, and on failure its error
//! sequence is the concatenation of the errors already held with the errors
//! the new operand contributes.

use vstd::prelude::*;

verus! {

/// The error payloads that one fallible value contributes to a chain:
/// none if it succeeded, its single error if it failed.
pub open spec fn err_seq<T, E>(r: Result<T, E>) -> Seq<E> {
    match r {
        Result::Ok(_) => Seq::empty(),
        Result::Err(e) => seq![e],
    }
}

/// The error payloads a modelled accumulator state already holds:
/// a success state holds none.
pub open spec fn state_errs<T, E>(cur: Result<T, Seq<E>>) -> Seq<E> {
    match cur {
        Result::Ok(_) => Seq::empty(),
        Result::Err(errs) => errs,
    }
}

/// Interprets an executable outcome, whose error list is a `Vec`, as its
/// model, whose error list is a `Seq`.
pub open spec fn outcome_view<T, E>(r: Result<T, Vec<E>>) -> Result<T, Seq<E>> {
    match r {
        Result::Ok(t) => Result::Ok(t),
        Result::Err(errs) => Result::Err(errs@),
    }
}

/// Model of the initial combine: the first two fallible values of a chain
/// become an arity-2 state. Success exactly when both succeed; otherwise the
/// errors of both, in call order.
pub open spec fn combine_spec<T1, T2, E>(a: Result<T1, E>, b: Result<T2, E>) -> Result<
    (T1, T2),
    Seq<E>,
> {
    if a is Ok && b is Ok {
        Result::Ok((a->Ok_0, b->Ok_0))
    } else {
        Result::Err(err_seq(a) + err_seq(b))
    }
}

/// Model of extending an arity-1 state by one fallible value.
/// Success exactly when the state and the new value both succeed; otherwise
/// the errors already held followed by the new value's error, if any.
pub open spec fn extend1_spec<T1, R, E>(cur: Result<(T1,), Seq<E>>, next: Result<R, E>) -> Result<
    (T1, R),
    Seq<E>,
> {
    if cur is Ok && next is Ok {
        Result::Ok((cur->Ok_0.0, next->Ok_0))
    } else {
        Result::Err(state_errs(cur) + err_seq(next))
    }
}

/// Model of extending an arity-2 state by one fallible value.
pub open spec fn extend2_spec<T1, T2, R, E>(
    cur: Result<(T1, T2), Seq<E>>,
    next: Result<R, E>,
) -> Result<(T1, T2, R), Seq<E>> {
    if cur is Ok && next is Ok {
        Result::Ok((cur->Ok_0.0, cur->Ok_0.1, next->Ok_0))
    } else {
        Result::Err(state_errs(cur) + err_seq(next))
    }
}

/// Model of extending an arity-3 state by one fallible value.
pub open spec fn extend3_spec<T1, T2, T3, R, E>(
    cur: Result<(T1, T2, T3), Seq<E>>,
    next: Result<R, E>,
) -> Result<(T1, T2, T3, R), Seq<E>> {
    if cur is Ok && next is Ok {
        Result::Ok((cur->Ok_0.0, cur->Ok_0.1, cur->Ok_0.2, next->Ok_0))
    } else {
        Result::Err(state_errs(cur) + err_seq(next))
    }
}

/// Model of extending an arity-4 state by one fallible value.
pub open spec fn extend4_spec<T1, T2, T3, T4, R, E>(
    cur: Result<(T1, T2, T3, T4), Seq<E>>,
    next: Result<R, E>,
) -> Result<(T1, T2, T3, T4, R), Seq<E>> {
    if cur is Ok && next is Ok {
        Result::Ok((cur->Ok_0.0, cur->Ok_0.1, cur->Ok_0.2, cur->Ok_0.3, next->Ok_0))
    } else {
        Result::Err(state_errs(cur) + err_seq(next))
    }
}

/// Model of extending an arity-5 state by one fallible value.
pub open spec fn extend5_spec<T1, T2, T3, T4, T5, R, E>(
    cur: Result<(T1, T2, T3, T4, T5), Seq<E>>,
    next: Result<R, E>,
) -> Result<(T1, T2, T3, T4, T5, R), Seq<E>> {
    if cur is Ok && next is Ok {
        Result::Ok((cur->Ok_0.0, cur->Ok_0.1, cur->Ok_0.2, cur->Ok_0.3, cur->Ok_0.4, next->Ok_0))
    } else {
        Result::Err(state_errs(cur) + err_seq(next))
    }
}

/// Model of extending an arity-6 state by one fallible value.
pub open spec fn extend6_spec<T1, T2, T3, T4, T5, T6, R, E>(
    cur: Result<(T1, T2, T3, T4, T5, T6), Seq<E>>,
    next: Result<R, E>,
) -> Result<(T1, T2, T3, T4, T5, T6, R), Seq<E>> {
    if cur is Ok && next is Ok {
        Result::Ok(
            (
                cur->Ok_0.0,
                cur->Ok_0.1,
                cur->Ok_0.2,
                cur->Ok_0.3,
                cur->Ok_0.4,
                cur->Ok_0.5,
                next->Ok_0,
            ),
        )
    } else {
        Result::Err(state_errs(cur) + err_seq(next))
    }
}

/// Model of extending an arity-7 state by one fallible value.
pub open spec fn extend7_spec<T1, T2, T3, T4, T5, T6, T7, R, E>(
    cur: Result<(T1, T2, T3, T4, T5, T6, T7), Seq<E>>,
    next: Result<R, E>,
) -> Result<(T1, T2, T3, T4, T5, T6, T7, R), Seq<E>> {
    if cur is Ok && next is Ok {
        Result::Ok(
            (
                cur->Ok_0.0,
                cur->Ok_0.1,
                cur->Ok_0.2,
                cur->Ok_0.3,
                cur->Ok_0.4,
                cur->Ok_0.5,
                cur->Ok_0.6,
                next->Ok_0,
            ),
        )
    } else {
        Result::Err(state_errs(cur) + err_seq(next))
    }
}

} // verus!
