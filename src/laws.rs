//! Properties that hold of every store the operations can produce.
use vstd::prelude::*;
use crate::boost::{BASIS_POINTS, MAX_BOOST, burned_bp, boost_bp, multiplier_for};
use crate::token::{Pubkey, TokenData, UserData, burn_spec};
use crate::registry::BurnRegistry;

verus! {

/// Supply is conserved: what remains plus what was burned is the initial
/// supply, for every token of a well-formed store.
pub proof fn lemma_supply_conserved(reg: &BurnRegistry, mint: Pubkey)
    requires
        reg.wf(),
        reg.has_token(mint),
    ensures
        reg.token(mint).current_supply + reg.token(mint).total_burned
            == reg.token(mint).initial_supply,
{
    reg.lemma_token_wf(mint);
}

/// The burned total never exceeds the initial supply.
pub proof fn lemma_burned_within_supply(reg: &BurnRegistry, mint: Pubkey)
    requires
        reg.wf(),
        reg.has_token(mint),
    ensures
        0 <= reg.token(mint).total_burned <= reg.token(mint).initial_supply,
{
    reg.lemma_token_wf(mint);
}

/// The multiplier is always 100% plus a tenth of the burned share in basis
/// points, rounded down and capped at 50%.
pub proof fn lemma_multiplier_follows_burns(reg: &BurnRegistry, mint: Pubkey)
    requires
        reg.wf(),
        reg.has_token(mint),
    ensures
        ({
            let t = reg.token(mint);
            let pct = (t.total_burned * 10000) / (t.initial_supply as int);
            let boost = (pct * 10) / 100;
            t.current_boost_multiplier == 10000 + if boost < 5000 {
                boost
            } else {
                5000
            }
        }),
{
    reg.lemma_token_wf(mint);
}

/// What the holders of a token have burned adds up to its burned total.
pub proof fn lemma_holders_sum_to_total(reg: &BurnRegistry, mint: Pubkey)
    requires
        reg.wf(),
        reg.has_token(mint),
    ensures
        reg.holders_total(mint) == reg.token(mint).total_burned,
{
    reg.lemma_token_wf(mint);
}

/// Growth composes: counters that did not go down over two steps did not go
/// down over both.
pub proof fn lemma_growth_composes(a: &BurnRegistry, b: &BurnRegistry, c: &BurnRegistry)
    requires
        b.grown_from(a),
        c.grown_from(b),
    ensures
        c.grown_from(a),
{
    assert forall|m: Pubkey| #[trigger] a.has_token(m) implies {
        &&& c.has_token(m)
        &&& c.token(m).total_burned >= a.token(m).total_burned
        &&& c.token(m).burn_transaction_count >= a.token(m).burn_transaction_count
    } by {
        assert(b.has_token(m));
    }
    assert forall|h: Pubkey, m: Pubkey| #[trigger] c.burned_by(h, m) >= a.burned_by(h, m) by {
        assert(b.burned_by(h, m) >= a.burned_by(h, m));
    }
}

/// A burn is no idempotent operation: burning the same amount again, when
/// both burns succeed, raises the burned total each time.
pub proof fn lemma_repeated_burn_grows(t: TokenData, u: UserData, amount: u64)
    requires
        burn_spec(t, u, amount) is Ok,
        burn_spec(burn_spec(t, u, amount)->Ok_0.0, burn_spec(t, u, amount)->Ok_0.1, amount) is Ok,
    ensures
        ({
            let (t1, u1) = burn_spec(t, u, amount)->Ok_0;
            let (t2, u2) = burn_spec(t1, u1, amount)->Ok_0;
            t.total_burned < t1.total_burned < t2.total_burned && u.burned_amount
                < u1.burned_amount < u2.burned_amount
        }),
{
}

/// The multiplier never exceeds 150%; while the burned total stays within the
/// initial supply it never exceeds 110%; and a burned total of five times the
/// initial supply or more, which only a projection can reach, meets the 150%
/// cap exactly.
pub proof fn lemma_multiplier_capped(total_burned: u64, initial_supply: u64)
    requires
        initial_supply > 0,
    ensures
        BASIS_POINTS <= multiplier_for(total_burned as int, initial_supply as int)
            <= BASIS_POINTS + MAX_BOOST,
        total_burned <= initial_supply ==> multiplier_for(
            total_burned as int,
            initial_supply as int,
        ) <= 11000,
        total_burned >= 5 * initial_supply ==> multiplier_for(
            total_burned as int,
            initial_supply as int,
        ) == BASIS_POINTS + MAX_BOOST,
{
    let pct = burned_bp(total_burned as int, initial_supply as int);
    assert(pct >= 0) by (nonlinear_arith)
        requires
            pct == (total_burned as int * 10000) / (initial_supply as int),
            initial_supply > 0,
    ;
    if total_burned <= initial_supply {
        assert(pct <= 10000) by (nonlinear_arith)
            requires
                pct == (total_burned as int * 10000) / (initial_supply as int),
                initial_supply > 0,
                total_burned <= initial_supply,
        ;
    }
    if total_burned >= 5 * initial_supply {
        assert(pct >= 50000) by (nonlinear_arith)
            requires
                pct == (total_burned as int * 10000) / (initial_supply as int),
                initial_supply > 0,
                total_burned >= 5 * initial_supply,
        ;
    }
}

} // verus!
