//! Balances as the exchange reports them.

use vstd::prelude::*;
use crate::models::ticker::{parse_or_zero, units_or_zero};

verus! {

/// The balance of one asset. Amounts are the decimal strings the exchange sent.
#[derive(Debug, Clone)]
pub struct Balance {
    pub asset: String,
    pub free: String,
    pub locked: String,
}

impl Balance {
    /// Something of the asset is held, free or locked.
    pub open spec fn non_zero(&self) -> bool {
        units_or_zero(self.free@) > 0 || units_or_zero(self.locked@) > 0
    }

    /// Free amount in units; 0 where the text is no decimal.
    pub fn free_f64(&self) -> (r: u64)
        ensures
            r == units_or_zero(self.free@),
    {
        parse_or_zero(self.free.as_str())
    }

    /// Locked amount in units; 0 where the text is no decimal.
    pub fn locked_f64(&self) -> (r: u64)
        ensures
            r == units_or_zero(self.locked@),
    {
        parse_or_zero(self.locked.as_str())
    }
}

/// The account as the exchange reports it.
#[derive(Debug, Clone)]
pub struct AccountInfo {
    pub maker_commission: i32,
    pub taker_commission: i32,
    pub buyer_commission: i32,
    pub seller_commission: i32,
    pub can_trade: bool,
    pub can_deposit: bool,
    pub can_withdraw: bool,
    pub balances: Vec<Balance>,
}

/// Free amount of the first balance of `asset`; 0 if there is none.
pub open spec fn free_of(balances: Seq<Balance>, asset: Seq<char>) -> u64
    decreases balances.len(),
{
    if balances.len() == 0 {
        0
    } else if balances[0].asset@ == asset {
        units_or_zero(balances[0].free@)
    } else {
        free_of(balances.drop_first(), asset)
    }
}

/// The balances of which something is held, in their order.
pub open spec fn held(balances: Seq<Balance>) -> Seq<Balance>
    decreases balances.len(),
{
    if balances.len() == 0 {
        Seq::empty()
    } else if balances.last().non_zero() {
        held(balances.drop_last()).push(balances.last())
    } else {
        held(balances.drop_last())
    }
}

/// The balances that a list of references points at.
pub open spec fn targets(refs: Seq<&Balance>) -> Seq<Balance> {
    Seq::new(refs.len(), |i: int| *refs[i])
}

impl AccountInfo {
    /// Free amount of an asset in units; 0 if the account has none of it.
    pub fn get_free(&self, asset: &str) -> (r: u64)
        ensures
            r == free_of(self.balances@, asset@),
    {
        let wanted: String = asset.to_owned();
        let mut i: usize = 0;
        proof {
            assert(self.balances@.skip(0) =~= self.balances@);
        }
        while i < self.balances.len()
            invariant
                i <= self.balances.len(),
                wanted@ == asset@,
                free_of(self.balances@, asset@) == free_of(self.balances@.skip(i as int), asset@),
            decreases self.balances.len() - i,
        {
            proof {
                assert(self.balances@.skip(i as int).drop_first() =~= self.balances@.skip(i + 1));
                assert(self.balances@.skip(i as int)[0] == self.balances@[i as int]);
            }
            if self.balances[i].asset == wanted {
                return self.balances[i].free_f64();
            }
            i = i + 1;
        }
        proof {
            assert(self.balances@.skip(i as int) =~= Seq::<Balance>::empty());
        }
        0
    }

    /// The balances of which something is held, free or locked.
    pub fn non_zero_balances(&self) -> (r: Vec<&Balance>)
        ensures
            targets(r@) == held(self.balances@),
    {
        let mut out: Vec<&Balance> = Vec::new();
        let mut i: usize = 0;
        while i < self.balances.len()
            invariant
                i <= self.balances.len(),
                targets(out@) == held(self.balances@.take(i as int)),
            decreases self.balances.len() - i,
        {
            let balance = &self.balances[i];
            let ghost before = out@;
            proof {
                assert(self.balances@.take(i + 1).drop_last() =~= self.balances@.take(i as int));
                assert(self.balances@.take(i + 1).last() == *balance);
            }
            if balance.free_f64() > 0 || balance.locked_f64() > 0 {
                out.push(balance);
                proof {
                    assert(targets(out@) =~= targets(before).push(*balance));
                }
            }
            i = i + 1;
        }
        proof {
            assert(self.balances@.take(i as int) =~= self.balances@);
        }
        out
    }
}

} // verus!
