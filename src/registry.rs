//! The store of token records, one per mint, and of holder records, one per
//! (holder, mint) pair, with the operations that keep them consistent.
use vstd::prelude::*;
use crate::boost::{BASIS_POINTS, MAX_BOOST};
use crate::token::{
    Pubkey, TokenData, UserData, TokenStats, BurnEvents, ErrorCode, LedgerError, initial_record,
    burn_spec, stats_spec, preview_spec, initialize, burn_tokens, get_token_stats,
    calculate_boost_from_burn,
};
use crate::boost::market_cap;

verus! {

/// What a holder record adds to the burned total of `mint`.
pub open spec fn share_of(u: UserData, mint: Pubkey) -> int {
    if u.mint == mint {
        u.burned_amount as int
    } else {
        0
    }
}

/// Sum of what the holder records in `s` have burned of `mint`.
pub open spec fn sum_burned(s: Seq<UserData>, mint: Pubkey) -> int
    decreases s.len(),
{
    if s.len() == 0 {
        0
    } else {
        sum_burned(s.drop_last(), mint) + share_of(s.last(), mint)
    }
}

proof fn lemma_sum_push(s: Seq<UserData>, u: UserData, mint: Pubkey)
    ensures
        sum_burned(s.push(u), mint) == sum_burned(s, mint) + share_of(u, mint),
{
    assert(s.push(u).drop_last() =~= s);
}

proof fn lemma_sum_update(s: Seq<UserData>, j: int, u: UserData, mint: Pubkey)
    requires
        0 <= j < s.len(),
    ensures
        sum_burned(s.update(j, u), mint) == sum_burned(s, mint) - share_of(s[j], mint)
            + share_of(u, mint),
    decreases s.len(),
{
    if j == s.len() - 1 {
        assert(s.update(j, u).drop_last() =~= s.drop_last());
    } else {
        assert(s.update(j, u).drop_last() =~= s.drop_last().update(j, u));
        lemma_sum_update(s.drop_last(), j, u, mint);
    }
}

proof fn lemma_share_bounded(s: Seq<UserData>, j: int, mint: Pubkey)
    requires
        0 <= j < s.len(),
    ensures
        sum_burned(s, mint) >= share_of(s[j], mint),
        sum_burned(s, mint) >= 0,
    decreases s.len(),
{
    lemma_sum_nonneg(s.drop_last(), mint);
    if j < s.len() - 1 {
        lemma_share_bounded(s.drop_last(), j, mint);
    }
}

proof fn lemma_sum_nonneg(s: Seq<UserData>, mint: Pubkey)
    ensures
        sum_burned(s, mint) >= 0,
    decreases s.len(),
{
    if s.len() > 0 {
        lemma_sum_nonneg(s.drop_last(), mint);
    }
}

/// All token and holder records.
pub struct BurnRegistry {
    tokens: Vec<TokenData>,
    users: Vec<UserData>,
}

impl BurnRegistry {
    /// A record exists for `mint`.
    pub closed spec fn has_token(&self, mint: Pubkey) -> bool {
        exists|i: int| 0 <= i < self.tokens@.len() && #[trigger] self.tokens@[i].mint == mint
    }

    /// The record of `mint`, where one exists.
    pub closed spec fn token(&self, mint: Pubkey) -> TokenData {
        self.tokens@[choose|i: int|
            0 <= i < self.tokens@.len() && #[trigger] self.tokens@[i].mint == mint]
    }

    /// A holder record exists for `holder` and `mint`.
    pub closed spec fn has_user(&self, holder: Pubkey, mint: Pubkey) -> bool {
        exists|j: int|
            0 <= j < self.users@.len() && #[trigger] self.users@[j].user == holder
                && self.users@[j].mint == mint
    }

    /// What `holder` has burned of `mint`; zero before the first burn.
    pub closed spec fn burned_by(&self, holder: Pubkey, mint: Pubkey) -> u64 {
        if self.has_user(holder, mint) {
            self.users@[choose|j: int|
                0 <= j < self.users@.len() && #[trigger] self.users@[j].user == holder
                    && self.users@[j].mint == mint].burned_amount
        } else {
            0
        }
    }

    /// Sum of what all holders have burned of `mint`.
    pub closed spec fn holders_total(&self, mint: Pubkey) -> int {
        sum_burned(self.users@, mint)
    }

    /// The store's invariant: one record per key, each token record well
    /// formed, and each token's holder records adding up to its burned total.
    pub closed spec fn wf(&self) -> bool {
        &&& forall|i: int| 0 <= i < self.tokens@.len() ==> (#[trigger] self.tokens@[i]).wf()
        &&& forall|i: int, k: int|
            0 <= i < self.tokens@.len() && 0 <= k < self.tokens@.len() && i != k
                ==> #[trigger] self.tokens@[i].mint != #[trigger] self.tokens@[k].mint
        &&& forall|j: int, k: int|
            0 <= j < self.users@.len() && 0 <= k < self.users@.len() && j != k
                ==> !(#[trigger] self.users@[j].user == #[trigger] self.users@[k].user
                && self.users@[j].mint == self.users@[k].mint)
        &&& forall|i: int|
            0 <= i < self.tokens@.len() ==> sum_burned(self.users@, #[trigger] self.tokens@[i].mint)
                == self.tokens@[i].total_burned
        &&& forall|mint: Pubkey| !self.has_token(mint) ==> #[trigger] sum_burned(self.users@, mint) == 0
    }

    proof fn lemma_token_at(&self, i: int)
        requires
            self.wf(),
            0 <= i < self.tokens@.len(),
        ensures
            self.has_token(self.tokens@[i].mint),
            self.token(self.tokens@[i].mint) == self.tokens@[i],
    {
        let mint = self.tokens@[i].mint;
        assert(self.has_token(mint));
        let k = choose|k: int| 0 <= k < self.tokens@.len() && #[trigger] self.tokens@[k].mint == mint;
        assert(k == i);
    }

    proof fn lemma_user_at(&self, j: int)
        requires
            self.wf(),
            0 <= j < self.users@.len(),
        ensures
            self.has_user(self.users@[j].user, self.users@[j].mint),
            self.burned_by(self.users@[j].user, self.users@[j].mint) == self.users@[j].burned_amount,
    {
        let u = self.users@[j];
        assert(self.has_user(u.user, u.mint));
        let k = choose|k: int|
            0 <= k < self.users@.len() && #[trigger] self.users@[k].user == u.user
                && self.users@[k].mint == u.mint;
        assert(k == j);
    }

    /// The holder record of `holder` and `mint`, as it stands or as it would
    /// be created.
    pub open spec fn holder_record(&self, holder: Pubkey, mint: Pubkey) -> UserData {
        UserData { user: holder, mint, burned_amount: self.burned_by(holder, mint) }
    }

    /// The token records of every mint but `mint` are as in `prev`.
    pub open spec fn tokens_agree_except(&self, prev: &Self, mint: Pubkey) -> bool {
        forall|m: Pubkey|
            m != mint ==> #[trigger] self.has_token(m) == prev.has_token(m) && (prev.has_token(m)
                ==> self.token(m) == prev.token(m))
    }

    /// The holder records of every pair but (`holder`, `mint`) are as in `prev`.
    pub open spec fn holders_agree_except(&self, prev: &Self, holder: Pubkey, mint: Pubkey) -> bool {
        forall|h: Pubkey, m: Pubkey|
            !(h == holder && m == mint) ==> #[trigger] self.burned_by(h, m) == prev.burned_by(h, m)
    }

    /// Every record reads as in `prev`.
    pub open spec fn same_records(&self, prev: &Self) -> bool {
        &&& forall|m: Pubkey|
            #[trigger] self.has_token(m) == prev.has_token(m) && (prev.has_token(m)
                ==> self.token(m) == prev.token(m))
        &&& forall|h: Pubkey, m: Pubkey| #[trigger] self.burned_by(h, m) == prev.burned_by(h, m)
    }

    /// No counter went down since `prev`: no token record vanished, and burned
    /// totals, burn counts and holder totals are at least what they were.
    pub open spec fn grown_from(&self, prev: &Self) -> bool {
        &&& forall|m: Pubkey|
            #[trigger] prev.has_token(m) ==> {
                &&& self.has_token(m)
                &&& self.token(m).total_burned >= prev.token(m).total_burned
                &&& self.token(m).burn_transaction_count >= prev.token(m).burn_transaction_count
            }
        &&& forall|h: Pubkey, m: Pubkey| #[trigger] self.burned_by(h, m) >= prev.burned_by(h, m)
    }

    /// A store that differs from `prev` in the token record at `i`, now `t`,
    /// and in one holder record, now `u`, with the burned totals moved
    /// together, is well formed and reads as `prev` elsewhere.
    proof fn lemma_burn_commit(
        &self,
        prev: &Self,
        i: int,
        t: TokenData,
        u: UserData,
        ju: Option<usize>,
    )
        requires
            prev.wf(),
            0 <= i < prev.tokens@.len(),
            t.wf(),
            t.mint == prev.tokens@[i].mint,
            u.mint == t.mint,
            self.tokens@ == prev.tokens@.update(i, t),
            ju matches Some(j) ==> j < prev.users@.len() && prev.users@[j as int].user == u.user
                && prev.users@[j as int].mint == u.mint && self.users@ == prev.users@.update(
                j as int,
                u,
            ),
            ju is None ==> !prev.has_user(u.user, u.mint) && self.users@ == prev.users@.push(u),
            forall|mm: Pubkey| #[trigger]
                sum_burned(self.users@, mm) == sum_burned(prev.users@, mm) + share_of(u, mm)
                    - share_of(prev.holder_record(u.user, u.mint), mm),
            u.burned_amount >= prev.burned_by(u.user, u.mint),
            t.total_burned == prev.tokens@[i].total_burned + u.burned_amount - prev.burned_by(
                u.user,
                u.mint,
            ),
            t.burn_transaction_count >= prev.tokens@[i].burn_transaction_count,
        ensures
            self.wf(),
            self.has_token(t.mint),
            self.token(t.mint) == t,
            prev.token(t.mint) == prev.tokens@[i],
            self.holder_record(u.user, u.mint) == u,
            self.tokens_agree_except(prev, t.mint),
            self.holders_agree_except(prev, u.user, u.mint),
            self.grown_from(prev),
    {
        let mint = t.mint;
        prev.lemma_token_at(i);
        assert forall|mm: Pubkey| prev.has_token(mm) <==> #[trigger] self.has_token(mm) by {
            if prev.has_token(mm) {
                let k = choose|k: int|
                    0 <= k < prev.tokens@.len() && #[trigger] prev.tokens@[k].mint == mm;
                assert(self.tokens@[k].mint == mm);
            }
            if self.has_token(mm) {
                let k = choose|k: int|
                    0 <= k < self.tokens@.len() && #[trigger] self.tokens@[k].mint == mm;
                assert(prev.tokens@[k].mint == mm);
            }
        }
        assert forall|h: Pubkey, mm: Pubkey| prev.has_user(h, mm) implies #[trigger] self.has_user(h, mm) by {
            let k = choose|k: int|
                0 <= k < prev.users@.len() && #[trigger] prev.users@[k].user == h
                    && prev.users@[k].mint == mm;
            assert(self.users@[k].user == h && self.users@[k].mint == mm);
        }
        assert forall|h: Pubkey, mm: Pubkey| #[trigger] self.has_user(h, mm) && !(h == u.user && mm
            == mint) implies prev.has_user(h, mm) by {
            let k = choose|k: int|
                0 <= k < self.users@.len() && #[trigger] self.users@[k].user == h
                    && self.users@[k].mint == mm;
            assert(prev.users@[k].user == h && prev.users@[k].mint == mm);
        }
        if let Some(j) = ju {
            prev.lemma_user_at(j as int);
        }
        assert(self.users@.len() > 0);
        assert forall|ia: int, ib: int|
            0 <= ia < self.users@.len() && 0 <= ib < self.users@.len() && ia != ib
                implies !(#[trigger] self.users@[ia].user == #[trigger] self.users@[ib].user
            && self.users@[ia].mint == self.users@[ib].mint) by {
            if ju is None {
                let n = prev.users@.len() as int;
                if ia == n {
                    assert(prev.users@[ib].user == u.user ==> prev.users@[ib].mint != mint);
                } else if ib == n {
                    assert(prev.users@[ia].user == u.user ==> prev.users@[ia].mint != mint);
                }
            }
        }
        assert forall|k: int| 0 <= k < self.tokens@.len() implies sum_burned(
            self.users@,
            #[trigger] self.tokens@[k].mint,
        ) == self.tokens@[k].total_burned by {
            assert(self.tokens@[k].mint == prev.tokens@[k].mint);
        }
        assert(self.wf());
        self.lemma_token_at(i);
        assert(self.has_user(u.user, mint)) by {
            if let Some(j) = ju {
                assert(self.users@[j as int] == u);
            } else {
                assert(self.users@[prev.users@.len() as int] == u);
            }
        }
        if let Some(j) = ju {
            self.lemma_user_at(j as int);
        } else {
            self.lemma_user_at(prev.users@.len() as int);
        }
        assert forall|mm: Pubkey| mm != mint && prev.has_token(mm) implies #[trigger] self.token(mm)
            == prev.token(mm) by {
            let k = choose|k: int|
                0 <= k < prev.tokens@.len() && #[trigger] prev.tokens@[k].mint == mm;
            prev.lemma_token_at(k);
            self.lemma_token_at(k);
        }
        assert forall|h: Pubkey, mm: Pubkey| !(h == u.user && mm == mint) implies #[trigger] self.burned_by(
            h,
            mm,
        ) == prev.burned_by(h, mm) by {
            if prev.has_user(h, mm) {
                let k = choose|k: int|
                    0 <= k < prev.users@.len() && #[trigger] prev.users@[k].user == h
                        && prev.users@[k].mint == mm;
                prev.lemma_user_at(k);
                assert(self.users@[k] == prev.users@[k]);
                self.lemma_user_at(k);
            }
        }
    }

    /// The record of a token that a well-formed store holds is well formed,
    /// and its holders' burns add up to its burned total.
    pub proof fn lemma_token_wf(&self, mint: Pubkey)
        requires
            self.wf(),
            self.has_token(mint),
        ensures
            self.token(mint).wf(),
            self.holders_total(mint) == self.token(mint).total_burned,
    {
        let k = choose|k: int| 0 <= k < self.tokens@.len() && #[trigger] self.tokens@[k].mint == mint;
        self.lemma_token_at(k);
    }

    proof fn lemma_same_views(&self, prev: &Self)
        requires
            self.tokens@ == prev.tokens@,
            self.users@ == prev.users@,
        ensures
            self.same_records(prev),
            self.grown_from(prev),
    {
        assert forall|m: Pubkey| #[trigger] self.has_token(m) == prev.has_token(m) && (prev.has_token(
            m,
        ) ==> self.token(m) == prev.token(m)) by {}
        assert forall|h: Pubkey, m: Pubkey| #[trigger] self.burned_by(h, m) == prev.burned_by(h, m) by {
            assert(self.has_user(h, m) == prev.has_user(h, m));
        }
    }

    /// An empty store.
    pub fn new() -> (r: Self)
        ensures
            r.wf(),
            forall|mint: Pubkey| !r.has_token(mint),
    {
        let r = BurnRegistry { tokens: Vec::new(), users: Vec::new() };
        assert forall|mint: Pubkey| !r.has_token(mint) by {}
        r
    }

    fn find_token(&self, mint: Pubkey) -> (r: Option<usize>)
        ensures
            r matches Some(i) ==> i < self.tokens@.len() && self.tokens@[i as int].mint == mint,
            r is None ==> !self.has_token(mint),
    {
        let mut i: usize = 0;
        while i < self.tokens.len()
            invariant
                i <= self.tokens@.len(),
                forall|k: int| 0 <= k < i ==> self.tokens@[k].mint != mint,
            decreases self.tokens@.len() - i,
        {
            if self.tokens[i].mint == mint {
                return Some(i);
            }
            i = i + 1;
        }
        None
    }

    fn find_user(&self, holder: Pubkey, mint: Pubkey) -> (r: Option<usize>)
        ensures
            r matches Some(j) ==> j < self.users@.len() && self.users@[j as int].user == holder
                && self.users@[j as int].mint == mint,
            r is None ==> !self.has_user(holder, mint),
    {
        let mut j: usize = 0;
        while j < self.users.len()
            invariant
                j <= self.users@.len(),
                forall|k: int|
                    0 <= k < j ==> !(self.users@[k].user == holder && self.users@[k].mint == mint),
            decreases self.users@.len() - j,
        {
            if self.users[j].user == holder && self.users[j].mint == mint {
                return Some(j);
            }
            j = j + 1;
        }
        None
    }

    /// Creates the record of token `mint`. Fails when one exists already,
    /// and otherwise as `token::initialize` does; on failure nothing changes.
    pub fn initialize(
        &mut self,
        authority: Pubkey,
        mint: Pubkey,
        name: String,
        symbol: String,
        decimals: u8,
        initial_supply: u64,
        base_market_cap: u64,
    ) -> (r: Result<(), ErrorCode>)
        requires
            old(self).wf(),
        ensures
            final(self).wf(),
            old(self).has_token(mint) ==> r == Err::<(), ErrorCode>(ErrorCode::AlreadyInitialized),
            !old(self).has_token(mint) && (name@.len() > crate::token::MAX_NAME_LEN
                || symbol@.len() > crate::token::MAX_SYMBOL_LEN) ==> r == Err::<(), ErrorCode>(
                ErrorCode::FieldTooLong,
            ),
            !old(self).has_token(mint) && name@.len() <= crate::token::MAX_NAME_LEN
                && symbol@.len() <= crate::token::MAX_SYMBOL_LEN && initial_supply == 0 ==> r
                == Err::<(), ErrorCode>(ErrorCode::InvalidSupply),
            !old(self).has_token(mint) && name@.len() <= crate::token::MAX_NAME_LEN
                && symbol@.len() <= crate::token::MAX_SYMBOL_LEN && initial_supply > 0 ==> r is Ok,
            r is Err ==> final(self).same_records(old(self)),
            r is Ok ==> {
                &&& final(self).has_token(mint)
                &&& initial_record(
                    authority,
                    mint,
                    name@,
                    symbol@,
                    decimals,
                    initial_supply,
                    base_market_cap,
                    final(self).token(mint),
                )
                &&& final(self).tokens_agree_except(old(self), mint)
                &&& forall|h: Pubkey, m: Pubkey| #[trigger] final(self).burned_by(h, m)
                    == old(self).burned_by(h, m)
                &&& forall|h: Pubkey| #[trigger] final(self).burned_by(h, mint) == 0
            },
            final(self).grown_from(old(self)),
    {
        if self.find_token(mint).is_some() {
            return Err(ErrorCode::AlreadyInitialized);
        }
        let t = match initialize(
            authority,
            mint,
            name,
            symbol,
            decimals,
            initial_supply,
            base_market_cap,
        ) {
            Ok(t) => t,
            Err(e) => {
                return Err(e);
            },
        };
        let ghost prev = *self;
        self.tokens.push(t);
        proof {
            let n = prev.tokens@.len() as int;
            assert(self.tokens@ == prev.tokens@.push(t));
            assert(self.users@ == prev.users@);
            assert(sum_burned(self.users@, mint) == 0);
            assert forall|mm: Pubkey| prev.has_token(mm) implies self.has_token(mm) by {
                let k = choose|k: int|
                    0 <= k < prev.tokens@.len() && #[trigger] prev.tokens@[k].mint == mm;
                assert(self.tokens@[k].mint == mm);
            }
            assert forall|mm: Pubkey| #[trigger] self.has_token(mm) && mm != mint implies prev.has_token(mm) by {
                let k = choose|k: int|
                    0 <= k < self.tokens@.len() && #[trigger] self.tokens@[k].mint == mm;
                assert(prev.tokens@[k].mint == mm);
            }
            assert(self.has_token(mint)) by {
                assert(self.tokens@[n].mint == mint);
            }
            assert(self.wf());
            self.lemma_token_at(n);
            assert forall|mm: Pubkey| prev.has_token(mm) implies self.token(mm) == prev.token(mm) by {
                let k = choose|k: int|
                    0 <= k < prev.tokens@.len() && #[trigger] prev.tokens@[k].mint == mm;
                prev.lemma_token_at(k);
                self.lemma_token_at(k);
            }
            assert forall|h: Pubkey, mm: Pubkey| #[trigger] self.burned_by(h, mm) == prev.burned_by(h, mm) by {
                assert(self.has_user(h, mm) == prev.has_user(h, mm));
            }
            assert forall|h: Pubkey| #[trigger] self.burned_by(h, mint) == 0 by {
                if prev.has_user(h, mint) {
                    let j = choose|j: int|
                        0 <= j < prev.users@.len() && #[trigger] prev.users@[j].user == h
                            && prev.users@[j].mint == mint;
                    lemma_share_bounded(prev.users@, j, mint);
                    prev.lemma_user_at(j);
                }
            }
        }
        Ok(())
    }

    /// Burns `amount` units of token `mint` held by `holder`, creating the
    /// holder's record on the first burn. `ledger` is what the token ledger
    /// service answered to the burn of the holder's units. Fails with
    /// `NotFound` for an unknown token, and otherwise as `token::burn_tokens`
    /// does; on failure nothing changes.
    pub fn burn(&mut self, holder: Pubkey, mint: Pubkey, amount: u64, ledger: Result<(), LedgerError>) -> (r:
        Result<BurnEvents, ErrorCode>)
        requires
            old(self).wf(),
        ensures
            final(self).wf(),
            !old(self).has_token(mint) ==> r == Err::<BurnEvents, ErrorCode>(ErrorCode::NotFound),
            old(self).has_token(mint) ==> (burn_spec(
                old(self).token(mint),
                old(self).holder_record(holder, mint),
                amount,
            ) matches Err(e) ==> r == Err::<BurnEvents, ErrorCode>(e)),
            old(self).has_token(mint) && burn_spec(
                old(self).token(mint),
                old(self).holder_record(holder, mint),
                amount,
            ) is Ok ==> (ledger matches Err(le) ==> r == Err::<BurnEvents, ErrorCode>(
                ErrorCode::ExternalBurnFailed(le),
            )),
            old(self).has_token(mint) && burn_spec(
                old(self).token(mint),
                old(self).holder_record(holder, mint),
                amount,
            ) is Ok && ledger is Ok ==> r is Ok,
            r is Err ==> final(self).same_records(old(self)),
            r is Ok ==> {
                &&& old(self).has_token(mint)
                &&& final(self).has_token(mint)
                &&& burn_spec(old(self).token(mint), old(self).holder_record(holder, mint), amount)
                    == Ok::<(TokenData, UserData), ErrorCode>(
                    (final(self).token(mint), final(self).holder_record(holder, mint)),
                )
                &&& final(self).tokens_agree_except(old(self), mint)
                &&& final(self).holders_agree_except(old(self), holder, mint)
            },
            final(self).grown_from(old(self)),
    {
        let i = match self.find_token(mint) {
            Some(i) => i,
            None => {
                return Err(ErrorCode::NotFound);
            },
        };
        let ju = self.find_user(holder, mint);
        let mut u = match ju {
            Some(j) => self.users[j],
            None => UserData { user: holder, mint, burned_amount: 0 },
        };
        let ghost prev = *self;
        proof {
            self.lemma_token_at(i as int);
            if let Some(j) = ju {
                self.lemma_user_at(j as int);
            }
            assert(u == self.holder_record(holder, mint));
        }
        let mut t = self.tokens.remove(i);
        let r = burn_tokens(&mut t, &mut u, amount, ledger);
        self.tokens.insert(i, t);
        match r {
            Err(e) => {
                assert(self.tokens@ =~= prev.tokens@);
                proof {
                    self.lemma_same_views(&prev);
                }
                return Err(e);
            },
            Ok(ev) => {
                assert(self.tokens@ =~= prev.tokens@.update(i as int, t));
                let ghost old_u = prev.holder_record(holder, mint);
                match ju {
                    Some(j) => {
                        self.users.set(j, u);
                        proof {
                            assert(self.users@ == prev.users@.update(j as int, u));
                            assert forall|mm: Pubkey| #[trigger]
                                sum_burned(self.users@, mm) == sum_burned(prev.users@, mm)
                                    + share_of(u, mm) - share_of(old_u, mm) by {
                                lemma_sum_update(prev.users@, j as int, u, mm);
                            }
                        }
                    },
                    None => {
                        self.users.push(u);
                        proof {
                            assert forall|mm: Pubkey| #[trigger]
                                sum_burned(self.users@, mm) == sum_burned(prev.users@, mm)
                                    + share_of(u, mm) - share_of(old_u, mm) by {
                                lemma_sum_push(prev.users@, u, mm);
                            }
                        }
                    },
                }
                proof {
                    self.lemma_burn_commit(&prev, i as int, t, u, ju);
                }
                Ok(ev)
            },
        }
    }

    /// The figures of token `mint`.
    pub fn get_stats(&self, mint: Pubkey) -> (r: Result<TokenStats, ErrorCode>)
        requires
            self.wf(),
        ensures
            !self.has_token(mint) ==> r == Err::<TokenStats, ErrorCode>(ErrorCode::NotFound),
            self.has_token(mint) && market_cap(
                self.token(mint).base_market_cap as int,
                self.token(mint).current_boost_multiplier as int,
            ) <= u64::MAX ==> r == Ok::<TokenStats, ErrorCode>(stats_spec(self.token(mint))),
            self.has_token(mint) && market_cap(
                self.token(mint).base_market_cap as int,
                self.token(mint).current_boost_multiplier as int,
            ) > u64::MAX ==> r == Err::<TokenStats, ErrorCode>(ErrorCode::Overflow),
    {
        match self.find_token(mint) {
            Some(i) => {
                proof {
                    self.lemma_token_at(i as int);
                }
                get_token_stats(&self.tokens[i])
            },
            None => Err(ErrorCode::NotFound),
        }
    }

    /// The boost and the multiplier, in basis points, that burning `amount`
    /// more units of token `mint` would give; nothing changes.
    pub fn preview_boost(&self, mint: Pubkey, amount: u64) -> (r: Result<(u64, u64), ErrorCode>)
        requires
            self.wf(),
        ensures
            !self.has_token(mint) ==> r == Err::<(u64, u64), ErrorCode>(ErrorCode::NotFound),
            self.has_token(mint) ==> (preview_spec(self.token(mint), amount) matches Err(e) ==> r
                == Err::<(u64, u64), ErrorCode>(e)),
            self.has_token(mint) ==> (preview_spec(self.token(mint), amount) matches Ok(b) ==> r
                == Ok::<(u64, u64), ErrorCode>((b, (BASIS_POINTS + b) as u64))),
    {
        match self.find_token(mint) {
            Some(i) => {
                proof {
                    self.lemma_token_at(i as int);
                }
                match calculate_boost_from_burn(&self.tokens[i], amount) {
                    Ok(b) => Ok((b, BASIS_POINTS + b)),
                    Err(e) => Err(e),
                }
            },
            None => Err(ErrorCode::NotFound),
        }
    }

    /// The record of token `mint`, if there is one.
    pub fn token_data(&self, mint: Pubkey) -> (r: Option<&TokenData>)
        requires
            self.wf(),
        ensures
            r is None <==> !self.has_token(mint),
            r matches Some(t) ==> *t == self.token(mint) && t.wf(),
    {
        match self.find_token(mint) {
            Some(i) => {
                proof {
                    self.lemma_token_at(i as int);
                }
                Some(&self.tokens[i])
            },
            None => None,
        }
    }

    /// What `holder` has burned of token `mint`.
    pub fn burned_amount(&self, holder: Pubkey, mint: Pubkey) -> (r: u64)
        requires
            self.wf(),
        ensures
            r == self.burned_by(holder, mint),
    {
        match self.find_user(holder, mint) {
            Some(j) => {
                proof {
                    self.lemma_user_at(j as int);
                }
                self.users[j].burned_amount
            },
            None => 0,
        }
    }
}

} // verus!