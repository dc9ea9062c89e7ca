//! Client accounts and their one-line summary.
use crate::payment_system::format::append_nat_text;
use crate::payment_system::format::decimal_text;
use crate::payment_system::format::nat_text;
use crate::payment_system::types::amount_add;
use crate::payment_system::types::round_half_even;
use crate::payment_system::types::strip_trailing_zeros;
use crate::payment_system::types::sum_fits;
use crate::payment_system::types::Amount;
use crate::payment_system::types::ClientId;
use std::collections::BTreeMap;
use vstd::prelude::*;

verus! {

/// The account database: each client's account, by client id.
pub type Accounts = BTreeMap<ClientId, Account>;

/// The number of decimal places an account summary shows.
pub const PRECISION: u32 = 4u32;

/// The header line of the account summary.
pub const ACCOUNT_HEADERS: &'static str = "client,available,held,total,locked";

/// The latest state of a client's account.
#[derive(Clone, Copy, Debug)]
pub struct Account {
    pub client_id: ClientId,
    pub available: Amount,
    pub held: Amount,
    pub locked: bool,
}

/// The amount zero, as a spec value.
pub open spec fn zero_amount() -> Amount {
    Amount::from_parts((0int, 0nat))
}

/// The text of an amount in a summary: rounded to `PRECISION` places with
/// banker's rounding, without trailing zeros.
pub open spec fn amount_text(a: Amount) -> Seq<char> {
    let p = strip_trailing_zeros(round_half_even(a.parts(), PRECISION as nat));
    decimal_text(p.0, p.1)
}

/// The text of a boolean.
pub open spec fn bool_text(b: bool) -> Seq<char> {
    if b {
        seq!['t', 'r', 'u', 'e']
    } else {
        seq!['f', 'a', 'l', 's', 'e']
    }
}

/// The summary line of an account: client, available, held, total and locked,
/// separated by commas; `None` where the total overflows.
pub open spec fn account_text(a: Account) -> Option<Seq<char>> {
    match amount_add(a.available, a.held) {
        Some(total) => Some(
            nat_text(a.client_id as nat) + seq![','] + amount_text(a.available) + seq![',']
                + amount_text(a.held) + seq![','] + amount_text(total) + seq![','] + bool_text(
                a.locked,
            ),
        ),
        None => None,
    }
}

impl Account {
    /// The account of a client that has no account yet: no funds, not locked.
    pub open spec fn spec_new(client_id: ClientId) -> Account {
        Account { client_id, available: zero_amount(), held: zero_amount(), locked: false }
    }

    /// A new, empty and unlocked account for the client.
    pub fn new(client_id: ClientId) -> (r: Account)
        ensures
            r == Account::spec_new(client_id),
    {
        let zero = Amount::zero();
        proof {
            Amount::lemma_parts_from(zero);
        }
        Account { client_id, available: zero, held: zero, locked: false }
    }

    pub fn client_id(&self) -> (r: ClientId)
        ensures
            r == self.client_id,
    {
        self.client_id
    }

    pub fn available_funds(&self) -> (r: &Amount)
        ensures
            *r == self.available,
    {
        &self.available
    }

    pub fn available_funds_mut(&mut self) -> (r: &mut Amount)
        ensures
            *r == old(self).available,
            *final(self) == (Account { available: *final(r), ..*old(self) }),
    {
        &mut self.available
    }

    pub fn held_funds(&self) -> (r: &Amount)
        ensures
            *r == self.held,
    {
        &self.held
    }

    pub fn held_funds_mut(&mut self) -> (r: &mut Amount)
        ensures
            *r == old(self).held,
            *final(self) == (Account { held: *final(r), ..*old(self) }),
    {
        &mut self.held
    }

    /// The total funds, available plus held. The sum must not overflow (where
    /// it does, `Decimal`'s `+` panics).
    pub fn total_funds(&self) -> (r: Amount)
        requires
            amount_add(self.available, self.held) is Some,
        ensures
            amount_add(self.available, self.held) == Some(r),
            sum_fits(self.available, self.held) ==> r@ == self.available@ + self.held@,
    {
        self.available.checked_add(self.held).unwrap()
    }

    pub fn locked(&self) -> (r: bool)
        ensures
            r == self.locked,
    {
        self.locked
    }

    pub fn lock(&mut self)
        ensures
            *final(self) == (Account { locked: true, ..*old(self) }),
    {
        self.locked = true;
    }

    /// The summary line of the account, `client,available,held,total,locked`,
    /// with amounts rounded to four places. The total must not overflow.
    pub fn to_string(&self) -> (r: String)
        requires
            amount_add(self.available, self.held) is Some,
        ensures
            account_text(*self) == Some(r@),
    {
        let total = self.total_funds();
        let mut out = String::new();
        append_nat_text(&mut out, self.client_id as u32);
        out.append(",");
        out.append(self.available.round_dp(PRECISION).normalize().to_string().as_str());
        out.append(",");
        out.append(self.held.round_dp(PRECISION).normalize().to_string().as_str());
        out.append(",");
        out.append(total.round_dp(PRECISION).normalize().to_string().as_str());
        out.append(",");
        if self.locked {
            out.append("true");
        } else {
            out.append("false");
        }
        proof {
            reveal_strlit(",");
            reveal_strlit("true");
            reveal_strlit("false");
            assert(out@ =~= account_text(*self).unwrap());
        }
        out
    }
}

} // verus!
