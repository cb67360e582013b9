//! Accounts and transactions as the bank reports them, and the rule that
//! decides which accounts the list shows.
//!
//! Balances and amounts are not held here: they are only ever painted, and the
//! binary keeps them beside these records.

use vstd::prelude::*;

verus! {

/// The person an account belongs to.
#[derive(Clone, Debug, Default, PartialEq, Eq)]
pub struct Owner {
    pub name: String,
    pub first_name: String,
    pub last_name: String,
    pub age: i64,
    pub customer_key: String,
    pub ssn_key: String,
}

/// What the bank allows on an account.
#[derive(Clone, Copy, Debug, Default, PartialEq, Eq)]
pub struct AccountProperties {
    pub is_transfer_from_enabled: bool,
    pub is_transfer_to_enabled: bool,
    pub is_payment_from_enabled: bool,
    pub is_allowed_in_avtale_giro: bool,
    pub has_access: bool,
    pub is_balance_preferred: bool,
    pub is_flexi_loan: bool,
    pub is_codebitor_loan: bool,
    pub is_security_balance: bool,
    pub is_aksjesparekonto: bool,
    pub is_savings_account: bool,
    pub is_bonus_account: bool,
    pub user_has_right_of_disposal: bool,
    pub user_has_right_of_access: bool,
    pub is_owned: bool,
    pub is_withdrawals_allowed: bool,
    pub is_blocked: bool,
    pub is_hidden: bool,
    pub is_balance_updated_immediately_on_transfer_to: bool,
    pub is_default_payment_account: bool,
}

/// One account.
#[derive(Clone, Debug, Default, PartialEq, Eq)]
pub struct Account {
    /// The key by which the bank finds the account's transactions.
    pub key: String,
    pub account_number: String,
    pub iban: String,
    pub name: String,
    pub description: String,
    pub currency_code: String,
    pub owner: Option<Owner>,
    pub product_type: String,
    /// The kind of account; `"CREDITCARD"` for a credit card.
    pub type_field: String,
    pub product_id: String,
    pub description_code: String,
    pub disposal_role: bool,
    pub account_properties: AccountProperties,
    /// The identifier that a transfer to a credit card is addressed to.
    pub credit_card_account_id: Option<String>,
}

/// One booked transaction.
#[derive(Clone, Debug, Default, PartialEq, Eq)]
pub struct Transaction {
    /// Milliseconds since the Unix epoch.
    pub date: i64,
    pub description: Option<String>,
    pub cleaned_description: Option<String>,
    pub currency_code: String,
    pub type_text: String,
}

impl Account {
    /// The account is a credit card.
    pub open spec fn spec_is_credit_card(self) -> bool {
        self.type_field@ == "CREDITCARD"@
    }

    /// Whether the account is a credit card.
    pub fn is_credit_card(&self) -> (credit_card: bool)
        ensures
            credit_card == self.spec_is_credit_card(),
    {
        let kind = String::from_str("CREDITCARD");
        self.type_field == kind
    }
}

impl Account {
    /// The name to show for the account's owner.
    pub open spec fn spec_owner_name(self) -> Seq<char> {
        match self.owner {
            Some(owner) => owner.name@,
            None => "N/A"@,
        }
    }

    /// The name to show for the account's owner: `N/A` where the bank named
    /// none.
    pub fn owner_name(&self) -> (name: &str)
        ensures
            name@ == self.spec_owner_name(),
    {
        match &self.owner {
            Some(owner) => owner.name.as_str(),
            None => "N/A",
        }
    }
}

impl Transaction {
    /// The text to show for the transaction.
    pub open spec fn spec_label(self) -> Seq<char> {
        match self.cleaned_description {
            Some(cleaned) => cleaned@,
            None => match self.description {
                Some(description) => description@,
                None => "N/A"@,
            },
        }
    }

    /// The text to show for the transaction: the cleaned description where
    /// there is one, else the description, else `N/A`.
    pub fn label(&self) -> (text: &str)
        ensures
            text@ == self.spec_label(),
    {
        match &self.cleaned_description {
            Some(cleaned) => cleaned.as_str(),
            None => match &self.description {
                Some(description) => description.as_str(),
                None => "N/A",
            },
        }
    }
}

/// The account list shows `account`: credit cards only while they are switched on.
pub open spec fn is_shown(account: Account, show_credit_card: bool) -> bool {
    show_credit_card || !account.spec_is_credit_card()
}

/// The positions in `accounts` of the accounts that the list shows, in order.
pub open spec fn visible_rows(accounts: Seq<Account>, show_credit_card: bool) -> Seq<usize>
    decreases accounts.len(),
{
    if accounts.len() == 0 {
        Seq::empty()
    } else {
        let before = visible_rows(accounts.drop_last(), show_credit_card);
        if is_shown(accounts.last(), show_credit_card) {
            before.push((accounts.len() - 1) as usize)
        } else {
            before
        }
    }
}

/// The rows of the visible list are positions of shown accounts, in rising
/// order, and no shown account is left out.
pub proof fn lemma_visible_rows(accounts: Seq<Account>, show_credit_card: bool)
    requires
        accounts.len() <= usize::MAX,
    ensures
        visible_rows(accounts, show_credit_card).len() <= accounts.len(),
        forall|r: int|
            0 <= r < visible_rows(accounts, show_credit_card).len() ==> {
                let at = #[trigger] visible_rows(accounts, show_credit_card)[r];
                at < accounts.len() && is_shown(accounts[at as int], show_credit_card)
            },
        forall|r: int, s: int|
            0 <= r < s < visible_rows(accounts, show_credit_card).len() ==> visible_rows(
                accounts,
                show_credit_card,
            )[r] < visible_rows(accounts, show_credit_card)[s],
        forall|at: int|
            0 <= at < accounts.len() && is_shown(#[trigger] accounts[at], show_credit_card)
                ==> visible_rows(accounts, show_credit_card).contains(at as usize),
    decreases accounts.len(),
{
    let rows = visible_rows(accounts, show_credit_card);
    if accounts.len() > 0 {
        let shorter = accounts.drop_last();
        let before = visible_rows(shorter, show_credit_card);
        lemma_visible_rows(shorter, show_credit_card);
        let last = (accounts.len() - 1) as usize;
        assert forall|at: int|
            0 <= at < accounts.len() && is_shown(
                #[trigger] accounts[at],
                show_credit_card,
            ) implies rows.contains(at as usize) by {
            if at < shorter.len() {
                assert(shorter[at] == accounts[at]);
                assert(before.contains(at as usize));
                let r = choose|r: int| 0 <= r < before.len() && before[r] == at as usize;
                assert(rows[r] == at as usize);
            } else {
                assert(rows[rows.len() - 1] == last);
            }
        }
        assert forall|r: int| 0 <= r < rows.len() implies {
            let at = #[trigger] rows[r];
            at < accounts.len() && is_shown(accounts[at as int], show_credit_card)
        } by {
            if r < before.len() {
                assert(rows[r] == before[r]);
                assert(shorter[before[r] as int] == accounts[before[r] as int]);
            }
        }
        assert forall|r: int, s: int| 0 <= r < s < rows.len() implies rows[r] < rows[s] by {
            assert(rows[r] == before[r]);
            if s < before.len() {
                assert(rows[s] == before[s]);
            }
        }
    }
}

/// The positions of the accounts that the list shows.
pub fn visible_accounts(accounts: &Vec<Account>, show_credit_card: bool) -> (rows: Vec<usize>)
    ensures
        rows@ == visible_rows(accounts@, show_credit_card),
{
    let mut rows: Vec<usize> = Vec::new();
    let mut i: usize = 0;
    while i < accounts.len()
        invariant
            i <= accounts.len(),
            rows@ == visible_rows(accounts@.take(i as int), show_credit_card),
        decreases accounts.len() - i,
    {
        let shown = show_credit_card || !accounts[i].is_credit_card();
        assert(accounts@.take(i + 1).drop_last() =~= accounts@.take(i as int));
        assert(accounts@.take(i + 1).last() == accounts@[i as int]);
        if shown {
            rows.push(i);
        }
        i += 1;
    }
    assert(accounts@.take(i as int) =~= accounts@);
    rows
}

/// The number of accounts that the list shows.
pub fn visible_count(accounts: &Vec<Account>, show_credit_card: bool) -> (count: usize)
    ensures
        count == visible_rows(accounts@, show_credit_card).len(),
{
    visible_accounts(accounts, show_credit_card).len()
}

/// The position in `accounts` of the account on row `row` of the visible list.
pub open spec fn spec_account_at(
    accounts: Seq<Account>,
    show_credit_card: bool,
    row: Option<usize>,
) -> Option<usize> {
    match row {
        Some(r) => if r < visible_rows(accounts, show_credit_card).len() {
            Some(visible_rows(accounts, show_credit_card)[r as int])
        } else {
            None
        },
        None => None,
    }
}

/// The position in `accounts` of the account on row `row` of the visible list,
/// if there is such a row.
pub fn account_at(accounts: &Vec<Account>, show_credit_card: bool, row: Option<usize>) -> (at:
    Option<usize>)
    ensures
        at == spec_account_at(accounts@, show_credit_card, row),
        at matches Some(i) ==> i < accounts.len(),
{
    proof {
        assert(accounts@.len() == accounts.len());
        lemma_visible_rows(accounts@, show_credit_card);
    }
    match row {
        Some(r) => {
            let rows = visible_accounts(accounts, show_credit_card);
            if r < rows.len() {
                Some(rows[r])
            } else {
                None
            }
        },
        None => None,
    }
}

} // verus!
