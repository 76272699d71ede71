use crate::error::Error;
use crate::types::{Coin, Cw20Coin};
use vstd::prelude::*;
use vstd::string::*;

verus! {

/// An amount of one asset: a native coin, or a token of a cw20 contract.
#[derive(Debug, Clone, PartialEq, Eq)]
pub enum Amount {
    Native(Coin),
    Cw20(Cw20Coin),
}

/// What an `Amount` holds, as mathematical values.
pub enum AmountView {
    Native { denom: Seq<char>, amount: u128 },
    Cw20 { address: Seq<char>, amount: u128 },
}

impl View for Amount {
    type V = AmountView;

    open spec fn view(&self) -> AmountView {
        match self {
            Amount::Native(c) => AmountView::Native { denom: c.denom@, amount: c.amount },
            Amount::Cw20(c) => AmountView::Cw20 { address: c.address@, amount: c.amount },
        }
    }
}

/// The prefix that marks a cw20 token inside a denomination string.
pub open spec fn cw20_prefix() -> Seq<char> {
    seq!['c', 'w', '2', '0', ':']
}

pub open spec fn has_cw20_prefix(d: Seq<char>) -> bool {
    d.len() >= 5 && d.subrange(0, 5) == cw20_prefix()
}

/// The amount that a denomination string and a value stand for.
pub open spec fn amount_from_parts(d: Seq<char>, amount: u128) -> AmountView {
    if has_cw20_prefix(d) {
        AmountView::Cw20 { address: d.subrange(5, d.len() as int), amount }
    } else {
        AmountView::Native { denom: d, amount }
    }
}

/// The denomination string of an amount.
pub open spec fn amount_denom(a: AmountView) -> Seq<char> {
    match a {
        AmountView::Native { denom, .. } => denom,
        AmountView::Cw20 { address, .. } => cw20_prefix() + address,
    }
}

/// The value of an amount.
pub open spec fn amount_value(a: AmountView) -> u128 {
    match a {
        AmountView::Native { amount, .. } => amount,
        AmountView::Cw20 { amount, .. } => amount,
    }
}

/// Reading back the denomination of a cw20 amount gives the amount again.
pub proof fn lemma_cw20_denom_round_trip(amount: u128, address: Seq<char>)
    ensures
        amount_from_parts(amount_denom(AmountView::Cw20 { address, amount }), amount)
            == (AmountView::Cw20 { address, amount }),
        amount_denom(
            amount_from_parts(amount_denom(AmountView::Cw20 { address, amount }), amount),
        ) == amount_denom(AmountView::Cw20 { address, amount }),
{
    let d = cw20_prefix() + address;
    assert(d.subrange(0, 5) =~= cw20_prefix());
    assert(d.subrange(5, d.len() as int) =~= address);
}

/// A native denomination without the cw20 prefix survives the same round trip.
pub proof fn lemma_native_denom_round_trip(amount: u128, denom: Seq<char>)
    requires
        !has_cw20_prefix(denom),
    ensures
        amount_from_parts(amount_denom(AmountView::Native { denom, amount }), amount)
            == (AmountView::Native { denom, amount }),
{
}

/// Any denomination string reads back unchanged through an amount.
pub proof fn lemma_from_parts_denom(d: Seq<char>, amount: u128)
    ensures
        amount_denom(amount_from_parts(d, amount)) == d,
        amount_value(amount_from_parts(d, amount)) == amount,
{
    if has_cw20_prefix(d) {
        assert(cw20_prefix() + d.subrange(5, d.len() as int) =~= d);
    }
}

impl Amount {
    /// Reads a denomination string and a value as an amount: a string that
    /// starts with `cw20:` names the cw20 contract after the prefix.
    pub fn from_parts(denom: String, amount: u128) -> (r: Amount)
        ensures
            r@ == amount_from_parts(denom@, amount),
    {
        let n = denom.as_str().unicode_len();
        let prefixed = n >= 5 && denom.as_str().get_char(0) == 'c' && denom.as_str().get_char(1)
            == 'w' && denom.as_str().get_char(2) == '2' && denom.as_str().get_char(3) == '0'
            && denom.as_str().get_char(4) == ':';
        assert(prefixed == has_cw20_prefix(denom@)) by {
            if n >= 5 {
                if prefixed {
                    assert(denom@.subrange(0, 5) =~= cw20_prefix());
                }
                if denom@.subrange(0, 5) == cw20_prefix() {
                    assert(denom@[0] == denom@.subrange(0, 5)[0]);
                    assert(denom@[1] == denom@.subrange(0, 5)[1]);
                    assert(denom@[2] == denom@.subrange(0, 5)[2]);
                    assert(denom@[3] == denom@.subrange(0, 5)[3]);
                    assert(denom@[4] == denom@.subrange(0, 5)[4]);
                }
            }
        }
        if prefixed {
            let address = String::from_str(denom.as_str().substring_char(5, n));
            Amount::Cw20(Cw20Coin { address, amount })
        } else {
            Amount::Native(Coin { denom, amount })
        }
    }

    /// An amount of the cw20 token at `addr`.
    pub fn cw20(amount: u128, addr: &str) -> (r: Amount)
        ensures
            r@ == (AmountView::Cw20 { address: addr@, amount }),
    {
        Amount::Cw20(Cw20Coin { address: String::from_str(addr), amount })
    }

    /// An amount of the native coin `denom`.
    pub fn native(amount: u128, denom: &str) -> (r: Amount)
        ensures
            r@ == (AmountView::Native { denom: denom@, amount }),
    {
        Amount::Native(Coin { denom: String::from_str(denom), amount })
    }

    /// The denomination string: the coin's denomination, or `cw20:` and the
    /// contract address.
    pub fn denom(&self) -> (r: String)
        ensures
            r@ == amount_denom(self@),
    {
        match self {
            Amount::Native(c) => c.denom.clone(),
            Amount::Cw20(c) => {
                proof {
                    reveal_strlit("cw20:");
                }
                let prefix = String::from_str("cw20:");
                assert(prefix@ =~= cw20_prefix());
                prefix.concat(c.address.as_str())
            },
        }
    }

    /// The value of the amount.
    pub fn amount(&self) -> (r: u128)
        ensures
            r == amount_value(self@),
    {
        match self {
            Amount::Native(c) => c.amount,
            Amount::Cw20(c) => c.amount,
        }
    }

    /// The value as a `u64`; fails when it does not fit.
    pub fn u64_amount(&self) -> (r: Result<u64, Error>)
        ensures
            amount_value(self@) <= u64::MAX ==> r == Ok::<u64, Error>(amount_value(self@) as u64),
            amount_value(self@) > u64::MAX ==> r == Err::<u64, Error>(Error::AmountOverflow {  }),
    {
        let v = self.amount();
        if v <= u64::MAX as u128 {
            Ok(v as u64)
        } else {
            Err(Error::AmountOverflow {  })
        }
    }

    /// Whether the value is zero.
    pub fn is_empty(&self) -> (r: bool)
        ensures
            r == (amount_value(self@) == 0),
    {
        match self {
            Amount::Native(c) => c.amount == 0,
            Amount::Cw20(c) => c.amount == 0,
        }
    }
}

} // verus!
