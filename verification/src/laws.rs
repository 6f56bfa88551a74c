//! The laws of the accumulation algebra, stated over the model that every
//! operation's contract uses.
//!
//! A chain of fallible values is modelled by folding [`combine_spec`] and the
//! per-arity extend functions left to right, exactly as the executable `and`,
//! `and_try` and `finalize` operations promise in their contracts. The proofs
//! here state what those contracts add up to across a whole chain: an
//! all-success chain yields the tuple of payloads in order, any failure
//! yields every error in call order, the error order follows call order
//! rather than input identity, and finalization is a pure read.

use vstd::prelude::*;

use crate::accumulate::Accumulator;
use crate::model::combine_spec;
use crate::model::err_seq;
use crate::model::extend2_spec;
use crate::model::extend3_spec;
use crate::model::extend4_spec;
use crate::model::extend5_spec;
use crate::model::extend6_spec;
use crate::model::extend7_spec;

verus! {

/// A chain of two fallible values that both succeed yields a success tuple
/// holding each value's payload in call order.
pub proof fn lemma_all_successes_chain2<T1, T2, E>(a: Result<T1, E>, b: Result<T2, E>)
    requires
        a is Ok,
        b is Ok,
    ensures
        combine_spec(a, b) == Result::<(T1, T2), Seq<E>>::Ok((a->Ok_0, b->Ok_0)),
{
}

/// A chain of three fallible values that all succeed yields a success tuple
/// holding each value's payload in call order.
pub proof fn lemma_all_successes_chain3<T1, T2, T3, E>(
    a: Result<T1, E>,
    b: Result<T2, E>,
    c: Result<T3, E>,
)
    requires
        a is Ok,
        b is Ok,
        c is Ok,
    ensures
        extend2_spec(combine_spec(a, b), c) == Result::<(T1, T2, T3), Seq<E>>::Ok(
            (a->Ok_0, b->Ok_0, c->Ok_0),
        ),
{
}

/// A chain of four fallible values that all succeed yields a success tuple
/// holding each value's payload in call order.
pub proof fn lemma_all_successes_chain4<T1, T2, T3, T4, E>(
    a: Result<T1, E>,
    b: Result<T2, E>,
    c: Result<T3, E>,
    d: Result<T4, E>,
)
    requires
        a is Ok,
        b is Ok,
        c is Ok,
        d is Ok,
    ensures
        extend3_spec(extend2_spec(combine_spec(a, b), c), d) == Result::<
            (T1, T2, T3, T4),
            Seq<E>,
        >::Ok((a->Ok_0, b->Ok_0, c->Ok_0, d->Ok_0)),
{
}

/// A chain of five fallible values that all succeed yields a success tuple
/// holding each value's payload in call order.
pub proof fn lemma_all_successes_chain5<T1, T2, T3, T4, T5, E>(
    a: Result<T1, E>,
    b: Result<T2, E>,
    c: Result<T3, E>,
    d: Result<T4, E>,
    e: Result<T5, E>,
)
    requires
        a is Ok,
        b is Ok,
        c is Ok,
        d is Ok,
        e is Ok,
    ensures
        extend4_spec(extend3_spec(extend2_spec(combine_spec(a, b), c), d), e) == Result::<
            (T1, T2, T3, T4, T5),
            Seq<E>,
        >::Ok((a->Ok_0, b->Ok_0, c->Ok_0, d->Ok_0, e->Ok_0)),
{
}

/// A chain of six fallible values that all succeed yields a success tuple
/// holding each value's payload in call order.
pub proof fn lemma_all_successes_chain6<T1, T2, T3, T4, T5, T6, E>(
    a: Result<T1, E>,
    b: Result<T2, E>,
    c: Result<T3, E>,
    d: Result<T4, E>,
    e: Result<T5, E>,
    f: Result<T6, E>,
)
    requires
        a is Ok,
        b is Ok,
        c is Ok,
        d is Ok,
        e is Ok,
        f is Ok,
    ensures
        extend5_spec(extend4_spec(extend3_spec(extend2_spec(combine_spec(a, b), c), d), e), f)
            == Result::<(T1, T2, T3, T4, T5, T6), Seq<E>>::Ok(
            (a->Ok_0, b->Ok_0, c->Ok_0, d->Ok_0, e->Ok_0, f->Ok_0),
        ),
{
}

/// A chain of seven fallible values that all succeed yields a success tuple
/// holding each value's payload in call order.
pub proof fn lemma_all_successes_chain7<T1, T2, T3, T4, T5, T6, T7, E>(
    a: Result<T1, E>,
    b: Result<T2, E>,
    c: Result<T3, E>,
    d: Result<T4, E>,
    e: Result<T5, E>,
    f: Result<T6, E>,
    g: Result<T7, E>,
)
    requires
        a is Ok,
        b is Ok,
        c is Ok,
        d is Ok,
        e is Ok,
        f is Ok,
        g is Ok,
    ensures
        extend6_spec(
            extend5_spec(extend4_spec(extend3_spec(extend2_spec(combine_spec(a, b), c), d), e), f),
            g,
        ) == Result::<(T1, T2, T3, T4, T5, T6, T7), Seq<E>>::Ok(
            (a->Ok_0, b->Ok_0, c->Ok_0, d->Ok_0, e->Ok_0, f->Ok_0, g->Ok_0),
        ),
{
}

/// A chain of eight fallible values — the full supported arity — that all
/// succeed yields a success tuple holding each value's payload in call order.
pub proof fn lemma_all_successes_chain8<T1, T2, T3, T4, T5, T6, T7, T8, E>(
    a: Result<T1, E>,
    b: Result<T2, E>,
    c: Result<T3, E>,
    d: Result<T4, E>,
    e: Result<T5, E>,
    f: Result<T6, E>,
    g: Result<T7, E>,
    h: Result<T8, E>,
)
    requires
        a is Ok,
        b is Ok,
        c is Ok,
        d is Ok,
        e is Ok,
        f is Ok,
        g is Ok,
        h is Ok,
    ensures
        extend7_spec(
            extend6_spec(
                extend5_spec(
                    extend4_spec(extend3_spec(extend2_spec(combine_spec(a, b), c), d), e),
                    f,
                ),
                g,
            ),
            h,
        ) == Result::<(T1, T2, T3, T4, T5, T6, T7, T8), Seq<E>>::Ok(
            (a->Ok_0, b->Ok_0, c->Ok_0, d->Ok_0, e->Ok_0, f->Ok_0, g->Ok_0, h->Ok_0),
        ),
{
}

/// A chain of two fallible values of which at least one fails yields a
/// failure whose error list, read left to right, holds exactly the failing
/// values' errors in call order — no successes, omissions or reordering.
pub proof fn lemma_error_order_chain2<T1, T2, E>(a: Result<T1, E>, b: Result<T2, E>)
    requires
        a is Err || b is Err,
    ensures
        combine_spec(a, b) is Err,
        combine_spec(a, b)->Err_0 == err_seq(a) + err_seq(b),
{
}

/// A chain of three fallible values of which at least one fails yields a
/// failure whose error list holds exactly the failing values' errors in call
/// order.
pub proof fn lemma_error_order_chain3<T1, T2, T3, E>(
    a: Result<T1, E>,
    b: Result<T2, E>,
    c: Result<T3, E>,
)
    requires
        a is Err || b is Err || c is Err,
    ensures
        extend2_spec(combine_spec(a, b), c) is Err,
        extend2_spec(combine_spec(a, b), c)->Err_0 == err_seq(a) + err_seq(b) + err_seq(c),
{
}

/// A chain of four fallible values of which at least one fails yields a
/// failure whose error list holds exactly the failing values' errors in call
/// order.
pub proof fn lemma_error_order_chain4<T1, T2, T3, T4, E>(
    a: Result<T1, E>,
    b: Result<T2, E>,
    c: Result<T3, E>,
    d: Result<T4, E>,
)
    requires
        a is Err || b is Err || c is Err || d is Err,
    ensures
        extend3_spec(extend2_spec(combine_spec(a, b), c), d) is Err,
        extend3_spec(extend2_spec(combine_spec(a, b), c), d)->Err_0 == err_seq(a) + err_seq(b)
            + err_seq(c) + err_seq(d),
{
}

/// A chain of five fallible values of which at least one fails yields a
/// failure whose error list holds exactly the failing values' errors in call
/// order.
pub proof fn lemma_error_order_chain5<T1, T2, T3, T4, T5, E>(
    a: Result<T1, E>,
    b: Result<T2, E>,
    c: Result<T3, E>,
    d: Result<T4, E>,
    e: Result<T5, E>,
)
    requires
        a is Err || b is Err || c is Err || d is Err || e is Err,
    ensures
        extend4_spec(extend3_spec(extend2_spec(combine_spec(a, b), c), d), e) is Err,
        extend4_spec(extend3_spec(extend2_spec(combine_spec(a, b), c), d), e)->Err_0 == err_seq(a)
            + err_seq(b) + err_seq(c) + err_seq(d) + err_seq(e),
{
}

/// A chain of six fallible values of which at least one fails yields a
/// failure whose error list holds exactly the failing values' errors in call
/// order.
pub proof fn lemma_error_order_chain6<T1, T2, T3, T4, T5, T6, E>(
    a: Result<T1, E>,
    b: Result<T2, E>,
    c: Result<T3, E>,
    d: Result<T4, E>,
    e: Result<T5, E>,
    f: Result<T6, E>,
)
    requires
        a is Err || b is Err || c is Err || d is Err || e is Err || f is Err,
    ensures
        extend5_spec(
            extend4_spec(extend3_spec(extend2_spec(combine_spec(a, b), c), d), e),
            f,
        ) is Err,
        extend5_spec(extend4_spec(extend3_spec(extend2_spec(combine_spec(a, b), c), d), e), f)->Err_0
            == err_seq(a) + err_seq(b) + err_seq(c) + err_seq(d) + err_seq(e) + err_seq(f),
{
}

/// A chain of seven fallible values of which at least one fails yields a
/// failure whose error list holds exactly the failing values' errors in call
/// order.
pub proof fn lemma_error_order_chain7<T1, T2, T3, T4, T5, T6, T7, E>(
    a: Result<T1, E>,
    b: Result<T2, E>,
    c: Result<T3, E>,
    d: Result<T4, E>,
    e: Result<T5, E>,
    f: Result<T6, E>,
    g: Result<T7, E>,
)
    requires
        a is Err || b is Err || c is Err || d is Err || e is Err || f is Err || g is Err,
    ensures
        extend6_spec(
            extend5_spec(extend4_spec(extend3_spec(extend2_spec(combine_spec(a, b), c), d), e), f),
            g,
        ) is Err,
        extend6_spec(
            extend5_spec(extend4_spec(extend3_spec(extend2_spec(combine_spec(a, b), c), d), e), f),
            g,
        )->Err_0 == err_seq(a) + err_seq(b) + err_seq(c) + err_seq(d) + err_seq(e) + err_seq(f)
            + err_seq(g),
{
}

/// A chain of eight fallible values — the full supported arity — of which at
/// least one fails yields a failure whose error list holds exactly the
/// failing values' errors in call order.
pub proof fn lemma_error_order_chain8<T1, T2, T3, T4, T5, T6, T7, T8, E>(
    a: Result<T1, E>,
    b: Result<T2, E>,
    c: Result<T3, E>,
    d: Result<T4, E>,
    e: Result<T5, E>,
    f: Result<T6, E>,
    g: Result<T7, E>,
    h: Result<T8, E>,
)
    requires
        a is Err || b is Err || c is Err || d is Err || e is Err || f is Err || g is Err
            || h is Err,
    ensures
        extend7_spec(
            extend6_spec(
                extend5_spec(
                    extend4_spec(extend3_spec(extend2_spec(combine_spec(a, b), c), d), e),
                    f,
                ),
                g,
            ),
            h,
        ) is Err,
        extend7_spec(
            extend6_spec(
                extend5_spec(
                    extend4_spec(extend3_spec(extend2_spec(combine_spec(a, b), c), d), e),
                    f,
                ),
                g,
            ),
            h,
        )->Err_0 == err_seq(a) + err_seq(b) + err_seq(c) + err_seq(d) + err_seq(e) + err_seq(f)
            + err_seq(g) + err_seq(h),
{
}

/// Combining is call-order-sensitive: when errors are present, the error
/// list reflects the order in which the values were folded in, not their
/// identity. Folding `a, b, c` reports the errors in that order, folding
/// `b, c, a` reports them in that other order, and the two lists differ
/// whenever the three errors are not all one value.
pub proof fn lemma_call_order_sensitivity<T1, T2, T3, E>(
    a: Result<T1, E>,
    b: Result<T2, E>,
    c: Result<T3, E>,
)
    requires
        a is Err,
        b is Err,
        c is Err,
        !(a->Err_0 == b->Err_0 && b->Err_0 == c->Err_0),
    ensures
        extend2_spec(combine_spec(a, b), c)->Err_0 == seq![a->Err_0, b->Err_0, c->Err_0],
        extend2_spec(combine_spec(b, c), a)->Err_0 == seq![b->Err_0, c->Err_0, a->Err_0],
        extend2_spec(combine_spec(a, b), c)->Err_0 != extend2_spec(combine_spec(b, c), a)->Err_0,
{
    let first = seq![a->Err_0, b->Err_0, c->Err_0];
    let second = seq![b->Err_0, c->Err_0, a->Err_0];
    assert(extend2_spec(combine_spec(a, b), c)->Err_0 =~= first);
    assert(extend2_spec(combine_spec(b, c), a)->Err_0 =~= second);
    if first == second {
        assert(first[0] == second[0]);
        assert(first[1] == second[1]);
        assert(false);
    }
}

/// Finalization is a pure read: the outcome is a function of the accumulator
/// state alone, so finalizing the same state twice yields the same outcome
/// both times. The contract of `Accumulator::finalize` pins its result to
/// `outcome()`, which these two hypotheses quote.
pub proof fn lemma_finalize_pure<T, E>(
    state: Accumulator<T, E>,
    first: Result<T, Seq<E>>,
    second: Result<T, Seq<E>>,
)
    requires
        first == state.outcome(),
        second == state.outcome(),
    ensures
        first == second,
{
}

} // verus!
