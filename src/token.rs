//! The per-token supply record, the per-holder burn record, and the burn
//! transition between them.
use vstd::prelude::*;
use vstd::string::*;
use crate::boost::{
    BASIS_POINTS, MAX_BOOST, CalcError, burned_bp, boost_bp, multiplier_for, market_cap,
    burned_percentage, boost_multiplier, current_market_cap, boost_percentage,
};

verus! {

/// Longest token name, in characters.
pub const MAX_NAME_LEN: usize = 32;

/// Longest token symbol, in characters.
pub const MAX_SYMBOL_LEN: usize = 16;

/// A 32-byte account key held as four 64-bit words, first bytes first, each
/// word read little-endian.
#[derive(Clone, Copy, Debug, PartialEq, Eq, Hash, Structural)]
pub struct Pubkey(pub u64, pub u64, pub u64, pub u64);

/// Why the token ledger service refused to burn a holder's units.
#[derive(Clone, Copy, Debug, PartialEq, Eq, Structural)]
pub enum LedgerError {
    InsufficientBalance,
    Unauthorized,
}

/// Every failure of the token operations.
#[derive(Clone, Copy, Debug, PartialEq, Eq, Structural)]
pub enum ErrorCode {
    /// A burn of zero units was asked for.
    InvalidBurnAmount,
    /// The name or the symbol is longer than allowed.
    FieldTooLong,
    /// The initial supply is zero, so no burned share could be computed.
    InvalidSupply,
    /// A record for this token exists already.
    AlreadyInitialized,
    /// No record exists for this token.
    NotFound,
    /// A counter or a derived figure does not fit in 64 bits.
    Overflow,
    /// The burn is larger than the supply that remains.
    InsufficientSupply,
    /// A division by zero was attempted.
    DivisionByZero,
    /// The token ledger service refused the burn.
    ExternalBurnFailed(LedgerError),
}

/// Maps an arithmetic failure onto the token errors.
pub fn calc_error(e: CalcError) -> (r: ErrorCode)
    ensures
        e == CalcError::DivisionByZero ==> r == ErrorCode::DivisionByZero,
        e == CalcError::Overflow ==> r == ErrorCode::Overflow,
{
    match e {
        CalcError::DivisionByZero => ErrorCode::DivisionByZero,
        CalcError::Overflow => ErrorCode::Overflow,
    }
}

/// The single authoritative supply record of one token.
#[derive(Clone, Debug)]
pub struct TokenData {
    pub authority: Pubkey,
    pub mint: Pubkey,
    pub name: String,
    pub symbol: String,
    pub decimals: u8,
    pub initial_supply: u64,
    pub current_supply: u64,
    pub total_burned: u64,
    pub base_market_cap: u64,
    /// Boost multiplier in basis points (10000 is 100%).
    pub current_boost_multiplier: u64,
    pub burn_transaction_count: u64,
}

/// What one holder has burned of one token.
#[derive(Clone, Copy, Debug, PartialEq, Eq, Structural)]
pub struct UserData {
    pub user: Pubkey,
    pub mint: Pubkey,
    pub burned_amount: u64,
}

/// A read-only snapshot of a token's figures.
#[derive(Clone, Copy, Debug, PartialEq, Eq, Structural)]
pub struct TokenStats {
    pub initial_supply: u64,
    pub current_supply: u64,
    pub total_burned: u64,
    pub burned_percentage: u64,
    pub current_market_cap: u64,
    pub boost_percentage: u64,
    pub burn_transaction_count: u64,
}

/// Notice that a holder burned units.
#[derive(Clone, Copy, Debug, PartialEq, Eq, Structural)]
pub struct TokensBurned {
    pub user: Pubkey,
    pub amount: u64,
    pub new_market_cap_multiplier: u64,
}

/// Notice that a burn moved the boost multiplier.
#[derive(Clone, Copy, Debug, PartialEq, Eq, Structural)]
pub struct MarketCapBoosted {
    pub old_multiplier: u64,
    pub new_multiplier: u64,
    pub percentage_burned: u64,
}

/// The notices a successful burn emits: always the burn itself, and a boost
/// notice when the multiplier moved.
#[derive(Clone, Copy, Debug, PartialEq, Eq, Structural)]
pub struct BurnEvents {
    pub burned: TokensBurned,
    pub boosted: Option<MarketCapBoosted>,
}

impl TokenData {
    /// The record's invariant: supply is conserved, the burned total stays
    /// within the initial supply, and the multiplier follows the burned share.
    pub open spec fn wf(&self) -> bool {
        &&& self.initial_supply > 0
        &&& self.current_supply + self.total_burned == self.initial_supply
        &&& self.current_boost_multiplier
            == multiplier_for(self.total_burned as int, self.initial_supply as int)
        &&& self.name@.len() <= MAX_NAME_LEN
        &&& self.symbol@.len() <= MAX_SYMBOL_LEN
    }
}

/// The fresh record that `initialize` creates.
pub open spec fn initial_record(
    authority: Pubkey,
    mint: Pubkey,
    name: Seq<char>,
    symbol: Seq<char>,
    decimals: u8,
    initial_supply: u64,
    base_market_cap: u64,
    t: TokenData,
) -> bool {
    &&& t.authority == authority
    &&& t.mint == mint
    &&& t.name@ == name
    &&& t.symbol@ == symbol
    &&& t.decimals == decimals
    &&& t.initial_supply == initial_supply
    &&& t.current_supply == initial_supply
    &&& t.total_burned == 0
    &&& t.base_market_cap == base_market_cap
    &&& t.current_boost_multiplier == BASIS_POINTS
    &&& t.burn_transaction_count == 0
}

/// Outcome of burning `amount` units of `t` held by `u`: the error, checked in
/// this order, or the updated token and holder records.
pub open spec fn burn_spec(t: TokenData, u: UserData, amount: u64) -> Result<
    (TokenData, UserData),
    ErrorCode,
> {
    if amount == 0 {
        Err(ErrorCode::InvalidBurnAmount)
    } else if t.total_burned + amount > u64::MAX {
        Err(ErrorCode::Overflow)
    } else if amount > t.current_supply {
        Err(ErrorCode::InsufficientSupply)
    } else if t.burn_transaction_count + 1 > u64::MAX {
        Err(ErrorCode::Overflow)
    } else if u.burned_amount + amount > u64::MAX {
        Err(ErrorCode::Overflow)
    } else {
        let total = (t.total_burned + amount) as u64;
        Ok(
            (
                TokenData {
                    total_burned: total,
                    current_supply: (t.current_supply - amount) as u64,
                    burn_transaction_count: (t.burn_transaction_count + 1) as u64,
                    current_boost_multiplier: multiplier_for(
                        total as int,
                        t.initial_supply as int,
                    ) as u64,
                    ..t
                },
                UserData { burned_amount: (u.burned_amount + amount) as u64, ..u },
            ),
        )
    }
}

/// Creates the record of a new token with its whole supply unburned.
pub fn initialize(
    authority: Pubkey,
    mint: Pubkey,
    name: String,
    symbol: String,
    decimals: u8,
    initial_supply: u64,
    base_market_cap: u64,
) -> (r: Result<TokenData, ErrorCode>)
    ensures
        (name@.len() > MAX_NAME_LEN || symbol@.len() > MAX_SYMBOL_LEN)
            ==> r == Err::<TokenData, ErrorCode>(ErrorCode::FieldTooLong),
        (name@.len() <= MAX_NAME_LEN && symbol@.len() <= MAX_SYMBOL_LEN && initial_supply == 0)
            ==> r == Err::<TokenData, ErrorCode>(ErrorCode::InvalidSupply),
        (name@.len() <= MAX_NAME_LEN && symbol@.len() <= MAX_SYMBOL_LEN && initial_supply > 0)
            ==> r is Ok,
        r matches Ok(t) ==> t.wf() && initial_record(
            authority,
            mint,
            name@,
            symbol@,
            decimals,
            initial_supply,
            base_market_cap,
            t,
        ),
{
    if name.as_str().unicode_len() > MAX_NAME_LEN || symbol.as_str().unicode_len() > MAX_SYMBOL_LEN {
        return Err(ErrorCode::FieldTooLong);
    }
    if initial_supply == 0 {
        return Err(ErrorCode::InvalidSupply);
    }
    let t = TokenData {
        authority,
        mint,
        name,
        symbol,
        decimals,
        initial_supply,
        current_supply: initial_supply,
        total_burned: 0,
        base_market_cap,
        current_boost_multiplier: BASIS_POINTS,
        burn_transaction_count: 0,
    };
    assert(burned_bp(0, initial_supply as int) == 0);
    Ok(t)
}

/// Tells whether a record satisfies its invariant, for records that come
/// from outside the library.
pub fn is_well_formed(t: &TokenData) -> (r: bool)
    ensures
        r == t.wf(),
{
    if t.initial_supply == 0 || t.name.as_str().unicode_len() > MAX_NAME_LEN
        || t.symbol.as_str().unicode_len() > MAX_SYMBOL_LEN {
        return false;
    }
    match t.current_supply.checked_add(t.total_burned) {
        Some(sum) => {
            if sum != t.initial_supply {
                return false;
            }
        },
        None => {
            return false;
        },
    }
    proof {
        lemma_burned_bp_bounded(t.total_burned as int, t.initial_supply as int);
    }
    match burned_percentage(t.total_burned, t.initial_supply) {
        Ok(p) => t.current_boost_multiplier == boost_multiplier(p),
        Err(_) => false,
    }
}

/// A well-formed record's burned share, which never exceeds 100%.
proof fn lemma_burned_bp_bounded(total_burned: int, initial_supply: int)
    requires
        0 <= total_burned <= initial_supply,
        initial_supply > 0,
    ensures
        0 <= burned_bp(total_burned, initial_supply) <= 10000,
{
    assert(total_burned * 10000 <= initial_supply * 10000) by (nonlinear_arith)
        requires
            0 <= total_burned <= initial_supply,
    ;
    assert((total_burned * 10000) / initial_supply <= (initial_supply * 10000) / initial_supply)
        by (nonlinear_arith)
        requires
            total_burned * 10000 <= initial_supply * 10000,
            initial_supply > 0,
    ;
    assert((initial_supply * 10000) / initial_supply == 10000) by (nonlinear_arith)
        requires
            initial_supply > 0,
    ;
    assert(0 <= (total_burned * 10000) / initial_supply) by (nonlinear_arith)
        requires
            total_burned >= 0,
            initial_supply > 0,
    ;
}

/// Burned share of the token's initial supply, in basis points.
pub fn get_burned_percentage(token_data: &TokenData) -> (r: u64)
    requires
        token_data.wf(),
    ensures
        r == burned_bp(token_data.total_burned as int, token_data.initial_supply as int),
        r <= 10000,
{
    proof {
        lemma_burned_bp_bounded(token_data.total_burned as int, token_data.initial_supply as int);
    }
    match burned_percentage(token_data.total_burned, token_data.initial_supply) {
        Ok(p) => p,
        Err(_) => 0,
    }
}

/// Recomputes the multiplier from the burned share.
pub fn update_market_cap_boost(token_data: &mut TokenData)
    requires
        old(token_data).initial_supply > 0,
        old(token_data).total_burned <= old(token_data).initial_supply,
    ensures
        *final(token_data) == (TokenData {
            current_boost_multiplier: multiplier_for(
                old(token_data).total_burned as int,
                old(token_data).initial_supply as int,
            ) as u64,
            ..*old(token_data)
        }),
{
    proof {
        lemma_burned_bp_bounded(token_data.total_burned as int, token_data.initial_supply as int);
    }
    let pct = match burned_percentage(token_data.total_burned, token_data.initial_supply) {
        Ok(p) => p,
        Err(_) => 0,
    };
    token_data.current_boost_multiplier = boost_multiplier(pct);
}

/// Market cap the token shows: its base scaled by the current multiplier.
pub fn get_current_market_cap(token_data: &TokenData) -> (r: Result<u64, ErrorCode>)
    ensures
        market_cap(token_data.base_market_cap as int, token_data.current_boost_multiplier as int)
            <= u64::MAX ==> r == Ok::<u64, ErrorCode>(
            market_cap(
                token_data.base_market_cap as int,
                token_data.current_boost_multiplier as int,
            ) as u64,
        ),
        market_cap(token_data.base_market_cap as int, token_data.current_boost_multiplier as int)
            > u64::MAX ==> r == Err::<u64, ErrorCode>(ErrorCode::Overflow),
{
    match current_market_cap(token_data.base_market_cap, token_data.current_boost_multiplier) {
        Ok(c) => Ok(c),
        Err(e) => Err(calc_error(e)),
    }
}

/// Boost the multiplier adds on top of 100%, in basis points.
pub fn get_boost_percentage(token_data: &TokenData) -> (r: u64)
    requires
        token_data.wf(),
    ensures
        r == token_data.current_boost_multiplier - BASIS_POINTS,
        r <= MAX_BOOST,
{
    boost_percentage(token_data.current_boost_multiplier)
}

/// The snapshot that `get_token_stats` reports for a record.
pub open spec fn stats_spec(t: TokenData) -> TokenStats {
    TokenStats {
        initial_supply: t.initial_supply,
        current_supply: t.current_supply,
        total_burned: t.total_burned,
        burned_percentage: burned_bp(t.total_burned as int, t.initial_supply as int) as u64,
        current_market_cap: market_cap(
            t.base_market_cap as int,
            t.current_boost_multiplier as int,
        ) as u64,
        boost_percentage: (t.current_boost_multiplier - BASIS_POINTS) as u64,
        burn_transaction_count: t.burn_transaction_count,
    }
}

/// Reports the token's figures; fails only when the market cap does not fit
/// in 64 bits.
pub fn get_token_stats(token_data: &TokenData) -> (r: Result<TokenStats, ErrorCode>)
    requires
        token_data.wf(),
    ensures
        market_cap(token_data.base_market_cap as int, token_data.current_boost_multiplier as int)
            <= u64::MAX ==> r == Ok::<TokenStats, ErrorCode>(stats_spec(*token_data)),
        market_cap(token_data.base_market_cap as int, token_data.current_boost_multiplier as int)
            > u64::MAX ==> r == Err::<TokenStats, ErrorCode>(ErrorCode::Overflow),
{
    let burned_percentage = get_burned_percentage(token_data);
    let current_market_cap = match get_current_market_cap(token_data) {
        Ok(c) => c,
        Err(e) => {
            return Err(e);
        },
    };
    let boost_percentage = get_boost_percentage(token_data);
    Ok(
        TokenStats {
            initial_supply: token_data.initial_supply,
            current_supply: token_data.current_supply,
            total_burned: token_data.total_burned,
            burned_percentage,
            current_market_cap,
            boost_percentage,
            burn_transaction_count: token_data.burn_transaction_count,
        },
    )
}

/// Boost that burning `burn_amount` more units would give, without changing
/// anything. The projected total is not held to the initial supply.
pub open spec fn preview_spec(t: TokenData, burn_amount: u64) -> Result<u64, ErrorCode> {
    if t.total_burned + burn_amount > u64::MAX {
        Err(ErrorCode::Overflow)
    } else {
        Ok(boost_bp(burned_bp(t.total_burned + burn_amount, t.initial_supply as int)) as u64)
    }
}

/// Projects the boost, in basis points, that burning `burn_amount` more units
/// would give.
pub fn calculate_boost_from_burn(token_data: &TokenData, burn_amount: u64) -> (r: Result<
    u64,
    ErrorCode,
>)
    requires
        token_data.wf(),
    ensures
        r == preview_spec(*token_data, burn_amount),
        r matches Ok(b) ==> b <= MAX_BOOST,
{
    let potential_total_burned = match token_data.total_burned.checked_add(burn_amount) {
        Some(t) => t,
        None => {
            return Err(ErrorCode::Overflow);
        },
    };
    match burned_percentage(potential_total_burned, token_data.initial_supply) {
        Ok(p) => Ok(boost_multiplier(p) - BASIS_POINTS),
        Err(_) => {
            assert(boost_bp(burned_bp(potential_total_burned as int, token_data.initial_supply as int))
                == MAX_BOOST);
            Ok(MAX_BOOST)
        },
    }
}

/// Burns `amount` units of the token held by `user_data`. `ledger` is what the
/// token ledger service answered to the burn of the holder's units. The checks
/// run in the order of `burn_spec`, then the ledger's answer; on any failure
/// neither record changes.
pub fn burn_tokens(
    token_data: &mut TokenData,
    user_data: &mut UserData,
    amount: u64,
    ledger: Result<(), LedgerError>,
) -> (r: Result<BurnEvents, ErrorCode>)
    requires
        old(token_data).wf(),
    ensures
        burn_spec(*old(token_data), *old(user_data), amount) matches Err(e) ==> r == Err::<
            BurnEvents,
            ErrorCode,
        >(e),
        burn_spec(*old(token_data), *old(user_data), amount) is Ok ==> (ledger matches Err(le)
            ==> r == Err::<BurnEvents, ErrorCode>(ErrorCode::ExternalBurnFailed(le))),
        burn_spec(*old(token_data), *old(user_data), amount) is Ok && ledger is Ok ==> r is Ok,
        r is Err ==> *final(token_data) == *old(token_data) && *final(user_data) == *old(
            user_data,
        ),
        r matches Ok(ev) ==> {
            &&& burn_spec(*old(token_data), *old(user_data), amount) == Ok::<
                (TokenData, UserData),
                ErrorCode,
            >((*final(token_data), *final(user_data)))
            &&& final(token_data).wf()
            &&& ev.burned == (TokensBurned {
                user: old(user_data).user,
                amount,
                new_market_cap_multiplier: final(token_data).current_boost_multiplier,
            })
            &&& (old(token_data).current_boost_multiplier
                == final(token_data).current_boost_multiplier <==> ev.boosted is None)
            &&& (ev.boosted matches Some(b) ==> b == (MarketCapBoosted {
                old_multiplier: old(token_data).current_boost_multiplier,
                new_multiplier: final(token_data).current_boost_multiplier,
                percentage_burned: burned_bp(
                    final(token_data).total_burned as int,
                    final(token_data).initial_supply as int,
                ) as u64,
            }))
        },
{
    if amount == 0 {
        return Err(ErrorCode::InvalidBurnAmount);
    }
    let total_burned = match token_data.total_burned.checked_add(amount) {
        Some(t) => t,
        None => {
            return Err(ErrorCode::Overflow);
        },
    };
    let current_supply = match token_data.current_supply.checked_sub(amount) {
        Some(c) => c,
        None => {
            return Err(ErrorCode::InsufficientSupply);
        },
    };
    let burn_transaction_count = match token_data.burn_transaction_count.checked_add(1) {
        Some(c) => c,
        None => {
            return Err(ErrorCode::Overflow);
        },
    };
    let burned_amount = match user_data.burned_amount.checked_add(amount) {
        Some(b) => b,
        None => {
            return Err(ErrorCode::Overflow);
        },
    };
    match ledger {
        Ok(()) => {},
        Err(le) => {
            return Err(ErrorCode::ExternalBurnFailed(le));
        },
    }
    token_data.total_burned = total_burned;
    token_data.current_supply = current_supply;
    token_data.burn_transaction_count = burn_transaction_count;
    user_data.burned_amount = burned_amount;
    let old_multiplier = token_data.current_boost_multiplier;
    update_market_cap_boost(token_data);
    let burned = TokensBurned {
        user: user_data.user,
        amount,
        new_market_cap_multiplier: token_data.current_boost_multiplier,
    };
    let boosted = if old_multiplier != token_data.current_boost_multiplier {
        Some(
            MarketCapBoosted {
                old_multiplier,
                new_multiplier: token_data.current_boost_multiplier,
                percentage_burned: get_burned_percentage(token_data),
            },
        )
    } else {
        None
    };
    Ok(BurnEvents { burned, boosted })
}

} // verus!
