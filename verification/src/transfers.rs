//! The transfer form: its two text fields, the accounts it moves money
//! between, and the request that a filled-in form stands for.

use crate::accounts::Account;
use crate::input::{
    input_cursor, input_empty, input_from, input_handle_key, input_position, input_text,
    input_value, typed_into,
};
use crate::keys::{Key, KeyCode};
use crate::text::{char_is_numeric, is_blank, is_numeric, lemma_blank_trims_to_empty, trim, trimmed};
use tui_input::Input;
use vstd::prelude::*;

verus! {

/// A transfer between two ordinary accounts, as the bank takes it.
#[derive(Clone, Debug, PartialEq, Eq)]
pub struct CreateTransferDTO {
    pub amount: String,
    pub due_date: Option<String>,
    pub message: Option<String>,
    pub to_account: String,
    pub from_account: String,
    pub currency_code: Option<String>,
}

/// A transfer to a credit card, as the bank takes it. It has no message.
#[derive(Clone, Debug, PartialEq, Eq)]
pub struct TransferToCreditCardDTO {
    pub amount: String,
    pub due_date: Option<String>,
    pub from_account: String,
    pub credit_card_account_id: String,
}

/// The bank's answer to a transfer. No errors means the transfer went through.
#[derive(Clone, Debug, Default, PartialEq, Eq)]
pub struct TransferResponse {
    pub errors: Vec<ErrorDTO>,
    pub payment_id: Option<String>,
    pub status: Option<String>,
}

/// One reason for which the bank declined a transfer.
#[derive(Clone, Debug, PartialEq, Eq)]
pub struct ErrorDTO {
    pub code: String,
    pub message: String,
    pub trace_id: String,
    pub http_code: i32,
    pub resource: Option<String>,
    pub localized_message: Option<LocalizedMessage>,
}

/// An error message in the user's language.
#[derive(Clone, Debug, PartialEq, Eq)]
pub struct LocalizedMessage {
    pub locale: Option<String>,
    pub message: Option<String>,
}

/// What there is to tell the user about one declined transfer.
#[derive(Clone, Debug, PartialEq, Eq)]
pub struct Diagnostic {
    pub code: String,
    pub trace_id: String,
    pub http_code: i32,
    pub message: String,
    /// The message in the user's language, where the bank sent one.
    pub localized: Option<String>,
}

/// The field of the transfer form that typed characters go to.
#[derive(Clone, Copy, Debug, PartialEq, Eq)]
pub enum TransferInput {
    Amount,
    Message,
}

/// The request to send for a filled-in form.
#[derive(Clone, Debug, PartialEq, Eq)]
pub enum TransferRequest {
    Debit(CreateTransferDTO),
    CreditCard(TransferToCreditCardDTO),
}

/// What a `CreateTransferDTO` says.
pub struct DebitOrder {
    pub amount: Seq<char>,
    pub due_date: Option<Seq<char>>,
    pub message: Option<Seq<char>>,
    pub to_account: Seq<char>,
    pub from_account: Seq<char>,
    pub currency_code: Option<Seq<char>>,
}

/// What a `TransferToCreditCardDTO` says.
pub struct CreditCardOrder {
    pub amount: Seq<char>,
    pub due_date: Option<Seq<char>>,
    pub from_account: Seq<char>,
    pub credit_card_account_id: Seq<char>,
}

/// What a `TransferRequest` says.
pub enum TransferOrder {
    Debit(DebitOrder),
    CreditCard(CreditCardOrder),
}

/// The characters of an optional text.
pub open spec fn text_of(text: Option<String>) -> Option<Seq<char>> {
    match text {
        Some(t) => Some(t@),
        None => None,
    }
}

impl View for CreateTransferDTO {
    type V = DebitOrder;

    open spec fn view(&self) -> DebitOrder {
        DebitOrder {
            amount: self.amount@,
            due_date: text_of(self.due_date),
            message: text_of(self.message),
            to_account: self.to_account@,
            from_account: self.from_account@,
            currency_code: text_of(self.currency_code),
        }
    }
}

impl View for TransferToCreditCardDTO {
    type V = CreditCardOrder;

    open spec fn view(&self) -> CreditCardOrder {
        CreditCardOrder {
            amount: self.amount@,
            due_date: text_of(self.due_date),
            from_account: self.from_account@,
            credit_card_account_id: self.credit_card_account_id@,
        }
    }
}

impl View for TransferRequest {
    type V = TransferOrder;

    open spec fn view(&self) -> TransferOrder {
        match self {
            TransferRequest::Debit(transfer) => TransferOrder::Debit(transfer@),
            TransferRequest::CreditCard(transfer) => TransferOrder::CreditCard(transfer@),
        }
    }
}

impl TransferOrder {
    /// The message that the request carries, if it carries one.
    pub open spec fn message(self) -> Option<Seq<char>> {
        match self {
            TransferOrder::Debit(order) => order.message,
            TransferOrder::CreditCard(_) => None,
        }
    }
}

impl TransferInput {
    /// The other field.
    pub open spec fn spec_toggled(self) -> TransferInput {
        match self {
            TransferInput::Amount => TransferInput::Message,
            TransferInput::Message => TransferInput::Amount,
        }
    }

    /// The other field.
    pub fn toggled(self) -> (other: TransferInput)
        ensures
            other == self.spec_toggled(),
    {
        match self {
            TransferInput::Amount => TransferInput::Message,
            TransferInput::Message => TransferInput::Amount,
        }
    }
}

impl TransferResponse {
    /// The bank reported no error.
    pub open spec fn spec_succeeded(self) -> bool {
        self.errors@.len() == 0
    }

    /// What there is to tell about each error, in the bank's order.
    pub open spec fn spec_diagnostics(self) -> Seq<Diagnostic> {
        Seq::new(self.errors@.len(), |i: int| self.errors@[i].spec_diagnostic())
    }

    /// What there is to tell about each error that the bank reported, in the
    /// bank's order.
    pub fn diagnostics(&self) -> (diagnostics: Vec<Diagnostic>)
        ensures
            diagnostics@ == self.spec_diagnostics(),
    {
        let mut diagnostics: Vec<Diagnostic> = Vec::new();
        let mut i: usize = 0;
        while i < self.errors.len()
            invariant
                i <= self.errors@.len(),
                diagnostics@.len() == i,
                forall|k: int|
                    0 <= k < i ==> diagnostics@[k] == self.errors@[k].spec_diagnostic(),
            decreases self.errors@.len() - i,
        {
            diagnostics.push(self.errors[i].diagnostic());
            i += 1;
        }
        assert(diagnostics@ =~= self.spec_diagnostics());
        diagnostics
    }

    /// Whether the transfer went through: the bank reported no error.
    pub fn succeeded(&self) -> (ok: bool)
        ensures
            ok == self.spec_succeeded(),
    {
        self.errors.len() == 0
    }
}

impl ErrorDTO {
    /// The message in the user's language, where the bank sent one.
    pub open spec fn spec_localized_text(self) -> Option<String> {
        match self.localized_message {
            Some(localized) => localized.message,
            None => None,
        }
    }

    /// What there is to tell about this error.
    pub open spec fn spec_diagnostic(self) -> Diagnostic {
        Diagnostic {
            code: self.code,
            trace_id: self.trace_id,
            http_code: self.http_code,
            message: self.message,
            localized: self.spec_localized_text(),
        }
    }

    /// What there is to tell about this error: its code, trace identifier,
    /// status and message, and the message in the user's language where the
    /// bank sent one.
    pub fn diagnostic(&self) -> (diagnostic: Diagnostic)
        ensures
            diagnostic == self.spec_diagnostic(),
    {
        let localized = match self.localized_text() {
            Some(text) => Some(text.clone()),
            None => None,
        };
        Diagnostic {
            code: self.code.clone(),
            trace_id: self.trace_id.clone(),
            http_code: self.http_code,
            message: self.message.clone(),
            localized,
        }
    }

    /// The message in the user's language, where the bank sent one.
    pub fn localized_text(&self) -> (text: Option<&String>)
        ensures
            text == (match self.localized_message {
                Some(localized) => match localized.message {
                    Some(message) => Some(&message),
                    None => None,
                },
                None => None,
            }),
    {
        match &self.localized_message {
            Some(localized) => match &localized.message {
                Some(message) => Some(message),
                None => None,
            },
            None => None,
        }
    }
}

/// The amount field takes `c`: a numeric character, a point or a comma.
pub open spec fn is_amount_char(c: char) -> bool {
    is_numeric(c) || c == '.' || c == ','
}

/// Whether the amount field takes `c`.
pub fn accepts_amount_char(c: char) -> (accepted: bool)
    ensures
        accepted == is_amount_char(c),
        '0' <= c <= '9' ==> accepted,
{
    if c == '.' || c == ',' {
        true
    } else {
        char_is_numeric(c)
    }
}

/// The amount field turns `key` away: it types a character, or is a character
/// key held with other modifiers, and the character is not one the field takes.
pub open spec fn amount_rejects(key: Key) -> bool {
    match key.code {
        KeyCode::Char(c) => !is_amount_char(c),
        _ => false,
    }
}

/// The request that a form stands for, given its two texts and the accounts
/// it refers to by position in `accounts`; `None` where the form is not ready.
///
/// The form is ready when the amount is not blank and both positions name an
/// account, and, for a credit card as destination, when the card has its
/// identifier. Amount and message lose the white space around them; a blank
/// message is left out, and a credit card gets none.
pub open spec fn planned_transfer(
    amount: Seq<char>,
    message: Seq<char>,
    from_account: Option<usize>,
    to_account: Option<usize>,
    accounts: Seq<Account>,
) -> Option<TransferOrder> {
    if trimmed(amount).len() == 0 {
        None
    } else if !(from_account matches Some(from) && from < accounts.len()) {
        None
    } else if !(to_account matches Some(to) && to < accounts.len()) {
        None
    } else {
        let source = accounts[from_account->0 as int];
        let destination = accounts[to_account->0 as int];
        if destination.spec_is_credit_card() {
            match destination.credit_card_account_id {
                Some(card) => Some(
                    TransferOrder::CreditCard(
                        CreditCardOrder {
                            amount: trimmed(amount),
                            due_date: None,
                            from_account: source.account_number@,
                            credit_card_account_id: card@,
                        },
                    ),
                ),
                None => None,
            }
        } else {
            Some(
                TransferOrder::Debit(
                    DebitOrder {
                        amount: trimmed(amount),
                        due_date: None,
                        message: if trimmed(message).len() == 0 {
                            None
                        } else {
                            Some(trimmed(message))
                        },
                        to_account: destination.account_number@,
                        from_account: source.account_number@,
                        currency_code: None,
                    },
                ),
            )
        }
    }
}

/// A request to a credit card never carries a message, whatever the message
/// field holds.
pub proof fn lemma_credit_card_transfer_has_no_message(
    amount: Seq<char>,
    message: Seq<char>,
    from_account: Option<usize>,
    to_account: Option<usize>,
    accounts: Seq<Account>,
)
    requires
        to_account matches Some(to) && to < accounts.len() && accounts[to as int].spec_is_credit_card(),
    ensures
        planned_transfer(amount, message, from_account, to_account, accounts) matches Some(order)
            ==> order is CreditCard && order.message() is None,
{
}

/// A form whose amount is empty or all white space stands for no request.
pub proof fn lemma_blank_amount_plans_nothing(
    amount: Seq<char>,
    message: Seq<char>,
    from_account: Option<usize>,
    to_account: Option<usize>,
    accounts: Seq<Account>,
)
    requires
        is_blank(amount),
    ensures
        planned_transfer(amount, message, from_account, to_account, accounts) is None,
{
    lemma_blank_trims_to_empty(amount);
}

/// The transfer being filled in.
pub struct TransferDraft {
    /// The position in the account list of the account that pays.
    pub from_account: Option<usize>,
    /// The position in the account list of the account that receives.
    pub to_account: Option<usize>,
    pub amount_input: Input,
    pub message_input: Input,
    pub active_input: TransferInput,
}

/// What a draft holds: the chosen accounts, the text and cursor of each
/// field, and the field that is active.
pub struct DraftModel {
    pub from_account: Option<usize>,
    pub to_account: Option<usize>,
    pub amount: Seq<char>,
    pub amount_cursor: nat,
    pub message: Seq<char>,
    pub message_cursor: nat,
    pub active_input: TransferInput,
}

impl View for TransferDraft {
    type V = DraftModel;

    open spec fn view(&self) -> DraftModel {
        DraftModel {
            from_account: self.from_account,
            to_account: self.to_account,
            amount: input_text(self.amount_input),
            amount_cursor: input_cursor(self.amount_input),
            message: input_text(self.message_input),
            message_cursor: input_cursor(self.message_input),
            active_input: self.active_input,
        }
    }
}

impl DraftModel {
    /// The draft with no account chosen and both fields empty. The active
    /// field stays.
    pub open spec fn cleared(self) -> DraftModel {
        DraftModel {
            from_account: None,
            to_account: None,
            amount: Seq::empty(),
            amount_cursor: 0,
            message: Seq::empty(),
            message_cursor: 0,
            active_input: self.active_input,
        }
    }

    /// The request that the form stands for.
    pub open spec fn planned(self, accounts: Seq<Account>) -> Option<TransferOrder> {
        planned_transfer(self.amount, self.message, self.from_account, self.to_account, accounts)
    }

    /// What handling `key` does to a form: tab switches the field; any other
    /// key goes to the active field alone, unless that is the amount field
    /// and it turns the key away.
    pub open spec fn keyed(self, key: Key, after: DraftModel) -> bool {
        if key.code is Tab {
            after == (DraftModel { active_input: self.active_input.spec_toggled(), ..self })
        } else {
            match self.active_input {
                TransferInput::Amount => if amount_rejects(key) {
                    after == self
                } else {
                    &&& after == (DraftModel {
                        amount: after.amount,
                        amount_cursor: after.amount_cursor,
                        ..self
                    })
                    &&& typed_into(
                        self.amount,
                        self.amount_cursor,
                        key,
                        after.amount,
                        after.amount_cursor,
                    )
                },
                TransferInput::Message => {
                    &&& after == (DraftModel {
                        message: after.message,
                        message_cursor: after.message_cursor,
                        ..self
                    })
                    &&& typed_into(
                        self.message,
                        self.message_cursor,
                        key,
                        after.message,
                        after.message_cursor,
                    )
                },
            }
        }
    }
}

impl TransferDraft {
    /// An empty form with the amount field active.
    pub fn new() -> (draft: TransferDraft)
        ensures
            draft@ == draft@.cleared(),
            draft@.active_input == TransferInput::Amount,
    {
        TransferDraft {
            from_account: None,
            to_account: None,
            amount_input: input_empty(),
            message_input: input_empty(),
            active_input: TransferInput::Amount,
        }
    }

    /// Replaces the text of the amount field; the cursor goes to its end.
    pub fn set_amount(&mut self, text: String)
        ensures
            final(self)@ == (DraftModel {
                amount: text@,
                amount_cursor: text@.len(),
                ..old(self)@
            }),
    {
        self.amount_input = input_from(text);
    }

    /// Replaces the text of the message field; the cursor goes to its end.
    pub fn set_message(&mut self, text: String)
        ensures
            final(self)@ == (DraftModel {
                message: text@,
                message_cursor: text@.len(),
                ..old(self)@
            }),
    {
        self.message_input = input_from(text);
    }

    /// The text of the amount field.
    pub fn amount_text(&self) -> (text: String)
        ensures
            text@ == self@.amount,
    {
        input_value(&self.amount_input).to_owned()
    }

    /// The text of the message field.
    pub fn message_text(&self) -> (text: String)
        ensures
            text@ == self@.message,
    {
        input_value(&self.message_input).to_owned()
    }

    /// The cursor of the active field, counted in characters from the start.
    pub fn cursor(&self) -> (cursor: usize)
        ensures
            cursor == (match self@.active_input {
                TransferInput::Amount => self@.amount_cursor,
                TransferInput::Message => self@.message_cursor,
            }),
    {
        match self.active_input {
            TransferInput::Amount => input_position(&self.amount_input),
            TransferInput::Message => input_position(&self.message_input),
        }
    }

    /// Empties both fields and forgets both accounts. The active field stays.
    pub fn clear(&mut self)
        ensures
            final(self)@ == old(self)@.cleared(),
    {
        self.amount_input = input_empty();
        self.message_input = input_empty();
        self.from_account = None;
        self.to_account = None;
    }

    /// Handles a key pressed while the form is open.
    pub fn handle_key(&mut self, key: Key)
        ensures
            old(self)@.keyed(key, final(self)@),
    {
        match key.code {
            KeyCode::Tab => {
                self.active_input = self.active_input.toggled();
            },
            KeyCode::Char(c) => {
                match self.active_input {
                    TransferInput::Amount => {
                        if accepts_amount_char(c) {
                            input_handle_key(&mut self.amount_input, key);
                        }
                    },
                    TransferInput::Message => {
                        input_handle_key(&mut self.message_input, key);
                    },
                }
            },
            _ => {
                match self.active_input {
                    TransferInput::Amount => {
                        input_handle_key(&mut self.amount_input, key);
                    },
                    TransferInput::Message => {
                        input_handle_key(&mut self.message_input, key);
                    },
                }
            },
        }
    }

    /// The request to send for the form, or `None` where the form is not
    /// ready and nothing is to be sent.
    pub fn request(&self, accounts: &Vec<Account>) -> (request: Option<TransferRequest>)
        ensures
            match request {
                Some(r) => self@.planned(accounts@) == Some(r@),
                None => self@.planned(accounts@) is None,
            },
    {
        let amount = trim(input_value(&self.amount_input));
        if amount.is_empty() {
            return None;
        }
        let source = match self.from_account {
            Some(from) => {
                if from < accounts.len() {
                    &accounts[from]
                } else {
                    return None;
                }
            },
            None => {
                return None;
            },
        };
        let destination = match self.to_account {
            Some(to) => {
                if to < accounts.len() {
                    &accounts[to]
                } else {
                    return None;
                }
            },
            None => {
                return None;
            },
        };
        if destination.is_credit_card() {
            match &destination.credit_card_account_id {
                Some(card) => Some(
                    TransferRequest::CreditCard(
                        TransferToCreditCardDTO {
                            amount: amount.to_owned(),
                            due_date: None,
                            from_account: source.account_number.clone(),
                            credit_card_account_id: card.clone(),
                        },
                    ),
                ),
                None => None,
            }
        } else {
            let text = trim(input_value(&self.message_input));
            let message = if text.is_empty() {
                None
            } else {
                Some(text.to_owned())
            };
            Some(
                TransferRequest::Debit(
                    CreateTransferDTO {
                        amount: amount.to_owned(),
                        due_date: None,
                        message,
                        to_account: destination.account_number.clone(),
                        from_account: source.account_number.clone(),
                        currency_code: None,
                    },
                ),
            )
        }
    }
}

} // verus!
