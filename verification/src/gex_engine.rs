//! Vocabulary of the provider-neutral GEX analytics engine, and the bookkeeping of quote times
//! per contract.
use crate::text::{blank, is_blank, str_equal, texts};
use vstd::prelude::*;

verus! {

/// Options side.
#[derive(Debug, Clone, Copy, PartialEq, Eq, Structural)]
pub enum OptionSide {
    Call,
    Put,
}

#[derive(Debug, Clone, Copy, PartialEq, Eq, Structural)]
pub enum NetGammaRegime {
    Positive,
    Negative,
    Flat,
}

/// Exposure model: calls count positive and puts negative, because actual dealer inventory is
/// not available from market data.
#[derive(Debug, Clone, Copy, PartialEq, Eq, Structural)]
pub enum ExposureModel {
    SideSignedOpenInterest,
}

/// The gamma-flip computation is deliberately unresolved.
#[derive(Debug, Clone, Copy, PartialEq, Eq, Structural)]
pub enum GammaFlipModel {
    Unresolved,
}

#[derive(Debug, Clone, Copy, PartialEq, Eq, Structural)]
pub enum GexError {
    MissingUnderlying,
    MissingContractSymbol,
    MissingExpiration,
    UnderlyingMismatch,
    InvalidStrike,
    InvalidGamma,
    InvalidMultiplier,
    InvalidSpot,
    InvalidQuoteTime,
    StaleContractUpdate,
    StaleSpotUpdate,
    ExposureOverflow,
    SpotUnavailable,
}

/// Quote time of each contract symbol. Updates never move a contract's quote time backwards.
#[derive(Debug, Clone, Default)]
pub struct QuoteClock {
    symbols: Vec<String>,
    times: Vec<i64>,
}

impl QuoteClock {
    /// Every symbol appears once and has one quote time.
    pub closed spec fn wf(&self) -> bool {
        &&& self.symbols@.len() == self.times@.len()
        &&& texts(self.symbols@).no_duplicates()
    }

    closed spec fn index_of(&self, k: Seq<char>) -> int {
        choose|i: int| 0 <= i < self.symbols@.len() && self.symbols@[i]@ == k
    }
}

impl View for QuoteClock {
    type V = Map<Seq<char>, i64>;

    closed spec fn view(&self) -> Map<Seq<char>, i64> {
        Map::new(
            |k: Seq<char>| texts(self.symbols@).contains(k),
            |k: Seq<char>| self.times@[self.index_of(k)],
        )
    }
}

impl QuoteClock {
    proof fn lemma_lookup(&self, i: int)
        requires
            self.wf(),
            0 <= i < self.symbols@.len(),
        ensures
            self@.dom().contains(self.symbols@[i]@),
            self.index_of(self.symbols@[i]@) == i,
            self@[self.symbols@[i]@] == self.times@[i],
    {
        let k = self.symbols@[i]@;
        assert(texts(self.symbols@)[i] == k);
        let j = self.index_of(k);
        assert(texts(self.symbols@)[j] == texts(self.symbols@)[i]);
    }

    proof fn lemma_member(&self, k: Seq<char>) -> (i: int)
        requires
            self.wf(),
            self@.dom().contains(k),
        ensures
            0 <= i < self.symbols@.len(),
            self.symbols@[i]@ == k,
            self@[k] == self.times@[i],
    {
        let w = choose|w: int| 0 <= w < texts(self.symbols@).len() && texts(self.symbols@)[w] == k;
        assert(self.symbols@[w]@ == k);
        self.lemma_lookup(w);
        w
    }

    pub fn new() -> (r: Self)
        ensures
            r.wf(),
            r@ == Map::<Seq<char>, i64>::empty(),
    {
        let r = QuoteClock { symbols: Vec::new(), times: Vec::new() };
        proof {
            assert(texts(r.symbols@) =~= Seq::<Seq<char>>::empty());
            assert(r@ =~= Map::<Seq<char>, i64>::empty());
        }
        r
    }

    fn position(&self, symbol: &str) -> (r: Option<usize>)
        requires
            self.wf(),
        ensures
            match r {
                Some(i) => i < self.symbols@.len() && self.symbols@[i as int]@ == symbol@
                    && self@.dom().contains(symbol@) && self@[symbol@] == self.times@[i as int],
                None => !self@.dom().contains(symbol@),
            },
    {
        let mut i: usize = 0;
        while i < self.symbols.len()
            invariant
                self.wf(),
                i <= self.symbols@.len(),
                forall|j: int| 0 <= j < i ==> self.symbols@[j]@ != symbol@,
            decreases self.symbols@.len() - i,
        {
            if str_equal(self.symbols[i].as_str(), symbol) {
                proof {
                    self.lemma_lookup(i as int);
                }
                return Some(i);
            }
            i = i + 1;
        }
        proof {
            if self@.dom().contains(symbol@) {
                let _ = self.lemma_member(symbol@);
            }
        }
        None
    }

    /// Number of contracts with a quote time.
    #[must_use]
    pub fn len(&self) -> (r: usize)
        requires
            self.wf(),
        ensures
            r == self@.dom().len(),
    {
        proof {
            assert(self@.dom() =~= texts(self.symbols@).to_set());
            texts(self.symbols@).unique_seq_to_set();
        }
        self.symbols.len()
    }

    /// The quote time of a contract, if it has one.
    #[must_use]
    pub fn quote_time(&self, symbol: &str) -> (r: Option<i64>)
        requires
            self.wf(),
        ensures
            r == (if self@.dom().contains(symbol@) {
                Some(self@[symbol@])
            } else {
                None
            }),
    {
        match self.position(symbol) {
            Some(i) => Some(self.times[i]),
            None => None,
        }
    }

    /// An update is stale when the contract already has a later quote time.
    #[must_use]
    pub fn is_stale(&self, symbol: &str, quote_time_millis: i64) -> (r: bool)
        requires
            self.wf(),
        ensures
            r == (self@.dom().contains(symbol@) && quote_time_millis < self@[symbol@]),
    {
        match self.quote_time(symbol) {
            Some(current) => quote_time_millis < current,
            None => false,
        }
    }

    /// Records a contract's quote time, replacing any earlier one.
    pub fn record(&mut self, symbol: &str, quote_time_millis: i64)
        requires
            old(self).wf(),
        ensures
            final(self).wf(),
            final(self)@ == old(self)@.insert(symbol@, quote_time_millis),
    {
        let ghost before = *self;
        match self.position(symbol) {
            Some(i) => {
                self.times.set(i, quote_time_millis);
                proof {
                    assert(self.symbols@ == before.symbols@);
                    assert forall|k: Seq<char>| #[trigger] self@.dom().contains(k) <==> before@.dom().insert(
                        symbol@,
                    ).contains(k) by {}
                    assert forall|k: Seq<char>| self@.dom().contains(k) implies #[trigger] self@[k]
                        == before@.insert(symbol@, quote_time_millis)[k] by {
                        let w = self.lemma_member(k);
                        before.lemma_lookup(w);
                        if k == symbol@ {
                            before.lemma_lookup(i as int);
                        }
                    }
                    assert(self@ =~= before@.insert(symbol@, quote_time_millis));
                }
            },
            None => {
                self.symbols.push(symbol.to_owned());
                self.times.push(quote_time_millis);
                proof {
                    let n = before.symbols@.len() as int;
                    assert(self.symbols@.len() == n + 1);
                    assert(forall|j: int| 0 <= j < n ==> self.symbols@[j] == before.symbols@[j]);
                    assert(forall|j: int| 0 <= j < n ==> self.times@[j] == before.times@[j]);
                    assert(self.symbols@[n]@ == symbol@);
                    assert(texts(self.symbols@) =~= texts(before.symbols@).push(symbol@));
                    assert(!texts(before.symbols@).contains(symbol@));
                    assert forall|k: Seq<char>| #[trigger] self@.dom().contains(k) <==> before@.dom().insert(
                        symbol@,
                    ).contains(k) by {
                        if self@.dom().contains(k) && k != symbol@ {
                            let w = self.lemma_member(k);
                            assert(w != n);
                            assert(self.symbols@[w] == before.symbols@[w]);
                            before.lemma_lookup(w);
                        }
                        if before@.dom().contains(k) {
                            let ow = before.lemma_member(k);
                            assert(self.symbols@[ow] == before.symbols@[ow]);
                            self.lemma_lookup(ow);
                        }
                        if k == symbol@ {
                            self.lemma_lookup(n);
                        }
                    }
                    assert forall|k: Seq<char>| self@.dom().contains(k) implies #[trigger] self@[k]
                        == before@.insert(symbol@, quote_time_millis)[k] by {
                        let w = self.lemma_member(k);
                        if k != symbol@ {
                            assert(w != n);
                            assert(self.symbols@[w] == before.symbols@[w]);
                            assert(self.times@[w] == before.times@[w]);
                            before.lemma_lookup(w);
                        } else {
                            self.lemma_lookup(n);
                        }
                    }
                    assert(self@ =~= before@.insert(symbol@, quote_time_millis));
                }
            },
        }
    }

    /// Forgets a contract's quote time; reports whether it had one.
    pub fn remove(&mut self, symbol: &str) -> (r: bool)
        requires
            old(self).wf(),
        ensures
            final(self).wf(),
            r == old(self)@.dom().contains(symbol@),
            final(self)@ == old(self)@.remove(symbol@),
    {
        let ghost before = *self;
        match self.position(symbol) {
            None => {
                proof {
                    assert(before@ =~= before@.remove(symbol@));
                }
                false
            },
            Some(i) => {
                self.symbols.remove(i);
                self.times.remove(i);
                proof {
                    let old_texts = texts(before.symbols@);
                    assert(texts(self.symbols@) =~= old_texts.remove(i as int));
                    assert forall|a: int, b: int|
                        0 <= a < b < texts(self.symbols@).len() implies texts(self.symbols@)[a]
                        != texts(self.symbols@)[b] by {
                        let oa = if a < i { a } else { a + 1 };
                        let ob = if b < i { b } else { b + 1 };
                        assert(texts(self.symbols@)[a] == old_texts[oa]);
                        assert(texts(self.symbols@)[b] == old_texts[ob]);
                    }
                    assert forall|k: Seq<char>| #[trigger] self@.dom().contains(k) <==> before@.remove(
                        symbol@,
                    ).dom().contains(k) by {
                        if self@.dom().contains(k) {
                            let w = self.lemma_member(k);
                            let ow = if w < i { w } else { w + 1 };
                            assert(self.symbols@[w] == before.symbols@[ow]);
                            before.lemma_lookup(ow);
                            assert(old_texts[ow] == k);
                            assert(old_texts[i as int] == symbol@);
                            assert(ow != i);
                        }
                        if before@.remove(symbol@).dom().contains(k) {
                            let ow = before.lemma_member(k);
                            assert(ow != i);
                            let w = if ow < i { ow } else { ow - 1 };
                            assert(self.symbols@[w] == before.symbols@[ow]);
                            self.lemma_lookup(w);
                        }
                    }
                    assert forall|k: Seq<char>| self@.dom().contains(k) implies #[trigger] self@[k]
                        == before@.remove(symbol@)[k] by {
                        let w = self.lemma_member(k);
                        let ow = if w < i { w } else { w + 1 };
                        assert(self.symbols@[w] == before.symbols@[ow]);
                        before.lemma_lookup(ow);
                    }
                    assert(self@ =~= before@.remove(symbol@));
                }
                true
            },
        }
    }

    /// The earliest quote time of any contract; none when no contract has one.
    #[must_use]
    pub fn oldest(&self) -> (r: Option<i64>)
        requires
            self.wf(),
        ensures
            match r {
                None => self@.dom() =~= Set::<Seq<char>>::empty(),
                Some(t) => (exists|k: Seq<char>| #[trigger] self@.dom().contains(k) && self@[k] == t)
                    && forall|k: Seq<char>| #[trigger] self@.dom().contains(k) ==> t <= self@[k],
            },
    {
        let mut best: Option<i64> = None;
        let mut i: usize = 0;
        while i < self.times.len()
            invariant
                self.wf(),
                i <= self.times@.len(),
                best is None <==> i == 0,
                best matches Some(t) ==> (exists|j: int| 0 <= j < i && #[trigger] self.times@[j] == t)
                    && forall|j: int| 0 <= j < i ==> t <= #[trigger] self.times@[j],
            decreases self.times@.len() - i,
        {
            let t = self.times[i];
            best = match best {
                None => Some(t),
                Some(b) => if t < b {
                    Some(t)
                } else {
                    Some(b)
                },
            };
            i = i + 1;
        }
        proof {
            match best {
                None => {
                    assert forall|k: Seq<char>| !self@.dom().contains(k) by {
                        if self@.dom().contains(k) {
                            let _ = self.lemma_member(k);
                        }
                    }
                    assert(self@.dom() =~= Set::<Seq<char>>::empty());
                },
                Some(t) => {
                    let j = choose|j: int| 0 <= j < self.times@.len() && #[trigger] self.times@[j] == t;
                    self.lemma_lookup(j);
                    assert(self@.dom().contains(self.symbols@[j]@) && self@[self.symbols@[j]@] == t);
                    assert forall|k: Seq<char>| #[trigger] self@.dom().contains(k) implies t <= self@[k] by {
                        let w = self.lemma_member(k);
                    }
                },
            }
        }
        best
    }

    /// The latest quote time of any contract; none when no contract has one.
    #[must_use]
    pub fn newest(&self) -> (r: Option<i64>)
        requires
            self.wf(),
        ensures
            match r {
                None => self@.dom() =~= Set::<Seq<char>>::empty(),
                Some(t) => (exists|k: Seq<char>| #[trigger] self@.dom().contains(k) && self@[k] == t)
                    && forall|k: Seq<char>| #[trigger] self@.dom().contains(k) ==> self@[k] <= t,
            },
    {
        let mut best: Option<i64> = None;
        let mut i: usize = 0;
        while i < self.times.len()
            invariant
                self.wf(),
                i <= self.times@.len(),
                best is None <==> i == 0,
                best matches Some(t) ==> (exists|j: int| 0 <= j < i && #[trigger] self.times@[j] == t)
                    && forall|j: int| 0 <= j < i ==> #[trigger] self.times@[j] <= t,
            decreases self.times@.len() - i,
        {
            let t = self.times[i];
            best = match best {
                None => Some(t),
                Some(b) => if t > b {
                    Some(t)
                } else {
                    Some(b)
                },
            };
            i = i + 1;
        }
        proof {
            match best {
                None => {
                    assert forall|k: Seq<char>| !self@.dom().contains(k) by {
                        if self@.dom().contains(k) {
                            let _ = self.lemma_member(k);
                        }
                    }
                    assert(self@.dom() =~= Set::<Seq<char>>::empty());
                },
                Some(t) => {
                    let j = choose|j: int| 0 <= j < self.times@.len() && #[trigger] self.times@[j] == t;
                    self.lemma_lookup(j);
                    assert(self@.dom().contains(self.symbols@[j]@) && self@[self.symbols@[j]@] == t);
                    assert forall|k: Seq<char>| #[trigger] self@.dom().contains(k) implies self@[k] <= t by {
                        let w = self.lemma_member(k);
                    }
                },
            }
        }
        best
    }
}

/// A spot update needs a non-negative quote time that does not precede the current spot's.
pub fn spot_update_check(current_quote_time_millis: Option<i64>, quote_time_millis: i64) -> (r: Result<
    (),
    GexError,
>)
    ensures
        r == (if quote_time_millis < 0 {
            Err(GexError::InvalidQuoteTime)
        } else if current_quote_time_millis matches Some(current) && quote_time_millis < current {
            Err(GexError::StaleSpotUpdate)
        } else {
            Ok(())
        }),
{
    if quote_time_millis < 0 {
        return Err(GexError::InvalidQuoteTime);
    }
    match current_quote_time_millis {
        Some(current) => if quote_time_millis < current {
            Err(GexError::StaleSpotUpdate)
        } else {
            Ok(())
        },
        None => Ok(()),
    }
}

/// The identity checks of a contract update, in order: a contract symbol, an underlying, the
/// book's own underlying, and an expiration.
pub open spec fn contract_identity_result(
    expected_underlying: Seq<char>,
    symbol: Seq<char>,
    underlying: Seq<char>,
    expiration: Seq<char>,
) -> Result<(), GexError> {
    if blank(symbol) {
        Err(GexError::MissingContractSymbol)
    } else if blank(underlying) {
        Err(GexError::MissingUnderlying)
    } else if underlying != expected_underlying {
        Err(GexError::UnderlyingMismatch)
    } else if blank(expiration) {
        Err(GexError::MissingExpiration)
    } else {
        Ok(())
    }
}

/// Checks a contract update's identity against the book's underlying.
pub fn contract_identity_check(
    expected_underlying: &str,
    symbol: &str,
    underlying: &str,
    expiration: &str,
) -> (r: Result<(), GexError>)
    ensures
        r == contract_identity_result(expected_underlying@, symbol@, underlying@, expiration@),
{
    if is_blank(symbol) {
        return Err(GexError::MissingContractSymbol);
    }
    if is_blank(underlying) {
        return Err(GexError::MissingUnderlying);
    }
    if !str_equal(underlying, expected_underlying) {
        return Err(GexError::UnderlyingMismatch);
    }
    if is_blank(expiration) {
        return Err(GexError::MissingExpiration);
    }
    Ok(())
}

} // verus!
