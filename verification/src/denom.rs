//! The settlement currency and escrowed payments.
//!
//! Each deployment allows exactly one native settlement currency; bids must
//! be tendered in it.

use vstd::prelude::*;
use vstd::string::StringSliceAdditionalSpecFns;

verus! {

/// The name of a native currency.
#[derive(Debug, PartialEq, Eq)]
pub struct Denom(String);

impl View for Denom {
    type V = Seq<char>;

    closed spec fn view(&self) -> Seq<char> {
        self.0@
    }
}

impl Denom {
    /// Wraps a currency name.
    pub fn new(name: String) -> (r: Denom)
        ensures
            r@ == name@,
    {
        Denom(name)
    }

    /// A copy standing for the same currency.
    pub fn dup(&self) -> (r: Denom)
        ensures
            r@ == self@,
    {
        Denom(self.0.clone())
    }

    /// Whether `name` names this currency.
    pub fn matches(&self, name: &String) -> (r: bool)
        ensures
            r == (self@ == name@),
    {
        self.0 == *name
    }

    /// The currency name as bytes.
    pub fn as_bytes(&self) -> (b: &[u8])
        ensures
            vstd::utf8::is_ascii_chars(self@) ==> b@ == Seq::new(
                self@.len(),
                |i: int| self@[i] as u8,
            ),
    {
        proof {
            broadcast use vstd::string::is_ascii_spec_bytes;
        }
        let s = self.0.as_str();
        let b = s.as_bytes();
        proof {
            if vstd::utf8::is_ascii_chars(self@) {
                assert(vstd::string::is_ascii(s));
                assert(b@ =~= Seq::new(self@.len(), |i: int| self@[i] as u8));
            }
        }
        b
    }
}

/// A quantity of a named currency.
#[derive(Debug, Clone, PartialEq, Eq)]
pub struct Coin {
    /// The currency's name.
    pub denom: String,
    /// The amount, in the currency's smallest unit.
    pub amount: u128,
}

/// The first coin of `coins` denominated in `denom`, if any.
pub open spec fn spec_find_allowed_coin(coins: Seq<Coin>, denom: Seq<char>) -> Option<Coin>
    decreases coins.len(),
{
    if coins.len() == 0 {
        None
    } else if coins[0].denom@ == denom {
        Some(coins[0])
    } else {
        spec_find_allowed_coin(coins.drop_first(), denom)
    }
}

/// Picks the tendered coin denominated in the allowed settlement currency.
pub fn find_allowed_coin(coins: &Vec<Coin>, denom: &Denom) -> (r: Option<Coin>)
    ensures
        r == spec_find_allowed_coin(coins@, denom@),
        r matches Some(c) ==> exists|i: int| 0 <= i < coins@.len() && coins@[i] == c,
{
    let n = coins.len();
    proof {
        assert(coins@.skip(0) =~= coins@);
    }
    for i in 0..n
        invariant
            n == coins@.len(),
            spec_find_allowed_coin(coins@, denom@)
                == spec_find_allowed_coin(coins@.skip(i as int), denom@),
            forall|j: int| 0 <= j < i ==> #[trigger] coins@[j].denom@ != denom@,
    {
        proof {
            assert(coins@.skip(i as int)[0] == coins@[i as int]);
            assert(coins@.skip(i as int).drop_first() =~= coins@.skip(i as int + 1));
        }
        if denom.matches(&coins[i].denom) {
            let c = Coin { denom: coins[i].denom.clone(), amount: coins[i].amount };
            proof {
                assert(c == coins@[i as int]);
            }
            return Some(c);
        }
    }
    proof {
        assert(coins@.skip(n as int).len() == 0);
    }
    None
}

/// True if some currency of `denoms` is named `d`.
pub open spec fn denom_allowed(denoms: Seq<Denom>, d: Seq<char>) -> bool {
    exists|j: int| 0 <= j < denoms.len() && #[trigger] denoms[j]@ == d
}

/// True if every coin of `coins` is denominated in a currency of `denoms`.
pub open spec fn all_denoms_allowed(coins: Seq<Coin>, denoms: Seq<Denom>) -> bool {
    forall|i: int| 0 <= i < coins.len() ==> denom_allowed(denoms, #[trigger] coins[i].denom@)
}

/// Whether every tendered coin is denominated in an allowed currency.
pub fn has_allowed_denoms(coins: &Vec<Coin>, denoms: &Vec<Denom>) -> (r: bool)
    ensures
        r == all_denoms_allowed(coins@, denoms@),
{
    let n = coins.len();
    for i in 0..n
        invariant
            n == coins@.len(),
            forall|k: int| 0 <= k < i ==> denom_allowed(denoms@, #[trigger] coins@[k].denom@),
    {
        let m = denoms.len();
        let mut found = false;
        for j in 0..m
            invariant
                m == denoms@.len(),
                i < coins@.len(),
                found ==> denom_allowed(denoms@, coins@[i as int].denom@),
                !found ==> forall|l: int|
                    0 <= l < j ==> #[trigger] denoms@[l]@ != coins@[i as int].denom@,
        {
            if denoms[j].matches(&coins[i].denom) {
                found = true;
            }
        }
        if !found {
            proof {
                assert(!denom_allowed(denoms@, coins@[i as int].denom@));
            }
            return false;
        }
    }
    true
}

} // verus!
