//! The state of the interface and what each key, each answer from the bank
//! and each frame does to it.
//!
//! The handlers decide; they do not fetch. Where a decision needs the bank,
//! the handler returns the `Action` to perform, and the answer comes back
//! through the handler for it.

use crate::accounts::{
    account_at, lemma_visible_rows, spec_account_at, visible_count, visible_rows, Account,
    Transaction,
};
use crate::api::ApiError;
use crate::cursor::{lemma_moves_keep_cursor_well_formed, SelectionCursor};
use crate::keys::{Key, KeyCode};
use crate::navigation::{popped, root_only, NavigationStack, View};
use crate::quit::{QuitGesture, QuitProgress, Shutdown};
use crate::text::is_blank;
use crate::transfers::{
    lemma_blank_amount_plans_nothing, Diagnostic, DraftModel, TransferDraft, TransferOrder,
    TransferRequest, TransferResponse,
};
use vstd::prelude::*;
use vstd::view::View as _;

verus! {

/// The number of entries in the action menu.
pub const MENU_LEN: usize = 2;

/// The screen that the menu entry on `row` leads to.
pub open spec fn spec_menu_target(row: Option<usize>) -> Option<View> {
    match row {
        Some(r) => if r == 0 {
            Some(View::Transactions)
        } else if r == 1 {
            Some(View::TransferSelect)
        } else {
            None
        },
        None => None,
    }
}

/// The screen that the menu entry on `row` leads to.
pub fn menu_target(row: Option<usize>) -> (target: Option<View>)
    ensures
        target == spec_menu_target(row),
{
    match row {
        Some(r) => {
            if r == 0 {
                Some(View::Transactions)
            } else if r == 1 {
                Some(View::TransferSelect)
            } else {
                None
            }
        },
        None => None,
    }
}

/// The label of the menu entry on `row`; empty beyond the menu.
pub fn menu_label(row: usize) -> (label: &'static str)
    ensures
        label@ == (if row == 0 {
            "Transactions"@
        } else if row == 1 {
            "Transfer from"@
        } else {
            ""@
        }),
{
    if row == 0 {
        "Transactions"
    } else if row == 1 {
        "Transfer from"
    } else {
        ""
    }
}

/// Everything the interface remembers.
pub struct AppState {
    /// The selected row of the visible account list.
    pub account_index: SelectionCursor,
    pub menu_index: SelectionCursor,
    pub transaction_index: SelectionCursor,
    pub show_balance: bool,
    pub show_credit_card: bool,
    pub accounts: Vec<Account>,
    pub view_stack: NavigationStack,
    pub transactions: Vec<Transaction>,
    pub draft: TransferDraft,
    pub quit: QuitGesture,
    pub shutdown: Shutdown,
}

/// What a handler asks its caller to do.
#[derive(Clone, Debug, PartialEq, Eq)]
pub enum Action {
    /// Nothing.
    Nothing,
    /// Fetch the transactions of the account with this key and hand them to
    /// `show_transactions`.
    FetchTransactions { account_key: String },
    /// Send this transfer and hand the answer to `finish_transfer`.
    SubmitTransfer(TransferRequest),
    /// Fetch the accounts and hand them to `replace_accounts`.
    FetchAccounts,
    /// Tell the user why the bank declined the transfer.
    Report(Vec<Diagnostic>),
    /// Start the closing animation.
    StartShutdown,
}

/// What one frame tells the caller.
#[derive(Clone, Copy, Debug, PartialEq, Eq)]
pub struct Frame {
    /// How far the hold-to-quit gesture has come; absent while no hold is in
    /// progress.
    pub quit_progress: Option<QuitProgress>,
    /// The gesture has completed with this frame: start the closing animation.
    pub start_shutdown: bool,
    /// The closing animation has run its time: leave.
    pub exit: bool,
}

/// What an `AppState` holds.
pub struct AppModel {
    pub account_index: SelectionCursor,
    pub menu_index: SelectionCursor,
    pub transaction_index: SelectionCursor,
    pub show_balance: bool,
    pub show_credit_card: bool,
    pub accounts: Seq<Account>,
    /// The frames of the view stack, root first.
    pub stack: Seq<View>,
    pub transactions: Seq<Transaction>,
    pub draft: DraftModel,
    pub quit: QuitGesture,
    pub shutdown: Shutdown,
}

/// What an `Action` asks for.
pub enum Effect {
    Nothing,
    FetchTransactions { account_key: Seq<char> },
    SubmitTransfer(TransferOrder),
    FetchAccounts,
    Report(Seq<Diagnostic>),
    StartShutdown,
}

impl vstd::view::View for AppState {
    type V = AppModel;

    open spec fn view(&self) -> AppModel {
        AppModel {
            account_index: self.account_index,
            menu_index: self.menu_index,
            transaction_index: self.transaction_index,
            show_balance: self.show_balance,
            show_credit_card: self.show_credit_card,
            accounts: self.accounts@,
            stack: self.view_stack@,
            transactions: self.transactions@,
            draft: self.draft@,
            quit: self.quit,
            shutdown: self.shutdown,
        }
    }
}

impl vstd::view::View for Action {
    type V = Effect;

    open spec fn view(&self) -> Effect {
        match self {
            Action::Nothing => Effect::Nothing,
            Action::FetchTransactions { account_key } => Effect::FetchTransactions {
                account_key: account_key@,
            },
            Action::SubmitTransfer(request) => Effect::SubmitTransfer(request@),
            Action::FetchAccounts => Effect::FetchAccounts,
            Action::Report(diagnostics) => Effect::Report(diagnostics@),
            Action::StartShutdown => Effect::StartShutdown,
        }
    }
}

impl AppModel {
    /// The screen on display.
    pub open spec fn top(self) -> View {
        self.stack.last()
    }

    /// The positions of the accounts that the account list shows.
    pub open spec fn visible(self) -> Seq<usize> {
        visible_rows(self.accounts, self.show_credit_card)
    }

    /// The state with every cursor fitted to the list it moves over: the
    /// account cursor to the accounts that are shown, not to all of them.
    pub open spec fn rebased(self) -> AppModel {
        AppModel {
            account_index: self.account_index.spec_resized(self.visible().len() as usize),
            menu_index: self.menu_index.spec_resized(MENU_LEN),
            transaction_index: self.transaction_index.spec_resized(
                self.transactions.len() as usize,
            ),
            ..self
        }
    }

    /// The position in `accounts` of the account under the account cursor.
    pub open spec fn selected_account(self) -> Option<usize> {
        spec_account_at(self.accounts, self.show_credit_card, self.account_index.index)
    }

    /// The state after an arrow key: the cursor of the list on display moves
    /// one row, down or up. The transfer form has no list.
    pub open spec fn moved(self, down: bool) -> AppModel {
        match self.top() {
            View::Accounts | View::TransferSelect => AppModel {
                account_index: if down {
                    self.account_index.spec_next()
                } else {
                    self.account_index.spec_previous()
                },
                ..self
            },
            View::Menu => AppModel {
                menu_index: if down {
                    self.menu_index.spec_next()
                } else {
                    self.menu_index.spec_previous()
                },
                ..self
            },
            View::Transactions => AppModel {
                transaction_index: if down {
                    self.transaction_index.spec_next()
                } else {
                    self.transaction_index.spec_previous()
                },
                ..self
            },
            View::TransferModal => self,
        }
    }

    /// The state with `view` on top of the stack.
    pub open spec fn entered(self, view: View) -> AppModel {
        AppModel { stack: self.stack.push(view), ..self }
    }

    /// The state after the selected menu entry is confirmed, and what is to be
    /// done for it.
    ///
    /// The transactions entry asks for the transactions of the selected
    /// account; the list opens once they have arrived. The transfer entry
    /// takes the selected account as the one that pays and opens the account
    /// list again. Without a selected account neither does anything.
    pub open spec fn menu_chosen(self) -> (AppModel, Effect) {
        match spec_menu_target(self.menu_index.index) {
            Some(View::Transactions) => match self.selected_account() {
                Some(at) => (
                    self,
                    Effect::FetchTransactions { account_key: self.accounts[at as int].key@ },
                ),
                None => (self, Effect::Nothing),
            },
            Some(View::TransferSelect) => match self.selected_account() {
                Some(at) => (
                    AppModel {
                        draft: DraftModel { from_account: Some(at), ..self.draft },
                        ..self.entered(View::TransferSelect)
                    },
                    Effect::Nothing,
                ),
                None => (self, Effect::Nothing),
            },
            Some(other) => (self.entered(other), Effect::Nothing),
            None => (self, Effect::Nothing),
        }
    }

    /// The state after the receiving account is confirmed: the selected
    /// account receives, and the transfer form opens. Without a selected
    /// account nothing happens.
    pub open spec fn destination_chosen(self) -> AppModel {
        match self.selected_account() {
            Some(at) => AppModel {
                draft: DraftModel { to_account: Some(at), ..self.draft },
                ..self.entered(View::TransferModal)
            },
            None => self,
        }
    }

    /// The state after credit cards are switched on or off: the account
    /// cursor is fitted to the list as it is shown now.
    pub open spec fn credit_cards_toggled(self) -> AppModel {
        let shown = AppModel { show_credit_card: !self.show_credit_card, ..self };
        AppModel {
            account_index: self.account_index.spec_resized(shown.visible().len() as usize),
            ..shown
        }
    }

    /// What confirming the transfer form asks for: the transfer, if the form
    /// is ready; nothing, if it is not.
    pub open spec fn submitted(self) -> Effect {
        match self.draft.planned(self.accounts) {
            Some(order) => Effect::SubmitTransfer(order),
            None => Effect::Nothing,
        }
    }

    /// The confirm key: what it does depends on the screen.
    pub open spec fn confirmed(self) -> (AppModel, Effect) {
        match self.top() {
            View::Accounts => (self.entered(View::Menu), Effect::Nothing),
            View::Menu => self.menu_chosen(),
            View::TransferSelect => (self.destination_chosen(), Effect::Nothing),
            View::TransferModal => (self, self.submitted()),
            View::Transactions => (self, Effect::Nothing),
        }
    }

    /// A key that goes to the transfer form: only the draft changes, as the
    /// form's own rules say.
    pub open spec fn form_keyed(self, key: Key, after: AppModel) -> bool {
        &&& after == (AppModel { draft: after.draft, ..self })
        &&& self.draft.keyed(key, after.draft)
    }

    /// The state after the immediate-exit key, and what is to be done: the
    /// first such key starts the closing animation.
    pub open spec fn exit_requested(self, now: u64) -> (AppModel, Effect) {
        (
            AppModel { shutdown: self.shutdown.spec_begun(now), ..self },
            if self.shutdown.started is None {
                Effect::StartShutdown
            } else {
                Effect::Nothing
            },
        )
    }

    /// The state after a press of the quit key outside the transfer form: the
    /// gesture takes note of it, unless the program is leaving already.
    pub open spec fn quit_key_pressed(self, now: u64) -> AppModel {
        if self.shutdown.started is Some {
            self
        } else {
            AppModel { quit: self.quit.spec_on_key_held(now), ..self }
        }
    }

    /// What a key pressed at `now` does: `after` is the state that results and
    /// `effect` what the caller is asked to do.
    ///
    /// The cursors are first fitted to their lists. Then, by key: the arrows
    /// move the cursor of the list on display; enter confirms; escape goes
    /// back one screen; `b` on the account list shows or hides balances; `m`
    /// shows or hides credit cards on every screen. On the transfer form
    /// every other key goes to the form. Elsewhere control-c asks to leave at
    /// once, `q` feeds the hold-to-quit gesture, and other keys do nothing.
    pub open spec fn key_handled(self, key: Key, now: u64, after: AppModel, effect: Effect) -> bool {
        let s = self.rebased();
        match key.code {
            KeyCode::Down => after == s.moved(true) && effect == Effect::Nothing,
            KeyCode::Up => after == s.moved(false) && effect == Effect::Nothing,
            KeyCode::Enter => (after, effect) == s.confirmed(),
            KeyCode::Esc => after == (AppModel { stack: popped(s.stack), ..s }) && effect
                == Effect::Nothing,
            KeyCode::Char(c) => if c == 'b' && s.top() == View::Accounts {
                after == (AppModel { show_balance: !s.show_balance, ..s }) && effect
                    == Effect::Nothing
            } else if c == 'm' {
                after == s.credit_cards_toggled() && effect == Effect::Nothing
            } else if s.top() == View::TransferModal {
                s.form_keyed(key, after) && effect == Effect::Nothing
            } else if c == 'c' && key.spec_has_control() {
                (after, effect) == s.exit_requested(now)
            } else if c == 'q' {
                after == s.quit_key_pressed(now) && effect == Effect::Nothing
            } else {
                after == s && effect == Effect::Nothing
            },
            _ => if s.top() == View::TransferModal {
                s.form_keyed(key, after) && effect == Effect::Nothing
            } else {
                after == s && effect == Effect::Nothing
            },
        }
    }

    /// The state after the bank has answered a transfer, and what is to be
    /// done. If the transfer went through, the draft is cleared, the stack
    /// falls back to the account list, and the accounts are to be fetched
    /// again. If it did not, nothing changes: the form stays open as it was,
    /// and what the bank reported is to be told. Without an answer there is
    /// nothing to tell.
    pub open spec fn transfer_finished(self, outcome: Result<TransferResponse, ApiError>) -> (
        AppModel,
        Effect,
    ) {
        match outcome {
            Ok(response) => if response.spec_succeeded() {
                (
                    AppModel { draft: self.draft.cleared(), stack: root_only(), ..self },
                    Effect::FetchAccounts,
                )
            } else {
                (self, Effect::Report(response.spec_diagnostics()))
            },
            Err(_) => (self, Effect::Nothing),
        }
    }

    /// The state after the transactions asked for have arrived: they replace
    /// the old ones, the cursor is fitted to them, and their list opens.
    pub open spec fn transactions_shown(self, transactions: Seq<Transaction>) -> AppModel {
        AppModel {
            transactions,
            transaction_index: self.transaction_index.spec_resized(transactions.len() as usize),
            ..self.entered(View::Transactions)
        }
    }

    /// The state after the accounts have been fetched again: they replace the
    /// old ones, and the account cursor is fitted to those that are shown.
    pub open spec fn accounts_replaced(self, accounts: Seq<Account>) -> AppModel {
        let replaced = AppModel { accounts, ..self };
        AppModel {
            account_index: self.account_index.spec_resized(replaced.visible().len() as usize),
            ..replaced
        }
    }

    /// The state after the frame at `now`, and what the frame tells.
    ///
    /// While the program is leaving, the gesture rests and the frame tells
    /// whether the closing animation has run its time. On the transfer form
    /// the gesture rests too: the quit key is a letter there. Otherwise the
    /// gesture advances, and a completed hold starts the closing animation.
    pub open spec fn ticked(self, now: u64) -> (AppModel, Frame) {
        if self.shutdown.started is Some {
            (
                AppModel { quit: self.quit.idle(), ..self },
                Frame {
                    quit_progress: None,
                    start_shutdown: false,
                    exit: self.shutdown.spec_is_finished(now),
                },
            )
        } else if self.top() == View::TransferModal {
            (
                AppModel { quit: self.quit.idle(), ..self },
                Frame { quit_progress: None, start_shutdown: false, exit: false },
            )
        } else {
            let (quit, tick) = self.quit.spec_tick(now);
            (
                AppModel {
                    quit,
                    shutdown: if tick.should_quit {
                        Shutdown { started: Some(now) }
                    } else {
                        self.shutdown
                    },
                    ..self
                },
                Frame {
                    quit_progress: tick.progress,
                    start_shutdown: tick.should_quit,
                    exit: false,
                },
            )
        }
    }
}

impl AppState {
    /// The state at start: the account list with its first row selected,
    /// balances and credit cards hidden, an empty transfer form, and a quit
    /// gesture that completes after `quit_threshold_ms` of holding.
    pub fn new(accounts: Vec<Account>, quit_threshold_ms: u64) -> (app: AppState)
        ensures
            app@.accounts == accounts@,
            app@.stack == root_only(),
            app@.account_index == SelectionCursor::new_spec(
                visible_rows(accounts@, false).len() as usize,
            ),
            app@.menu_index == SelectionCursor::new_spec(MENU_LEN),
            app@.transaction_index == SelectionCursor::new_spec(0),
            !app@.show_balance,
            !app@.show_credit_card,
            app@.transactions == Seq::<Transaction>::empty(),
            app@.draft == app@.draft.cleared(),
            app@.quit == (QuitGesture {
                hold_start: None,
                last_key_time: None,
                threshold_ms: quit_threshold_ms,
            }),
            app@.shutdown.started is None,
            app@ == app@.rebased(),
    {
        let shown = visible_count(&accounts, false);
        AppState {
            account_index: SelectionCursor::new(shown),
            menu_index: SelectionCursor::new(MENU_LEN),
            transaction_index: SelectionCursor::new(0),
            show_balance: false,
            show_credit_card: false,
            accounts,
            view_stack: NavigationStack::new(),
            transactions: Vec::new(),
            draft: TransferDraft::new(),
            quit: QuitGesture::new(quit_threshold_ms),
            shutdown: Shutdown::new(),
        }
    }

    /// Fits every cursor to the list it moves over.
    pub fn rebase(&mut self)
        ensures
            final(self)@ == old(self)@.rebased(),
    {
        let shown = visible_count(&self.accounts, self.show_credit_card);
        self.account_index.resize(shown);
        self.menu_index.resize(MENU_LEN);
        self.transaction_index.resize(self.transactions.len());
    }

    /// The position in `accounts` of the account under the account cursor.
    pub fn selected_account(&self) -> (at: Option<usize>)
        ensures
            at == self@.selected_account(),
            at matches Some(i) ==> i < self.accounts.len(),
    {
        account_at(&self.accounts, self.show_credit_card, self.account_index.selected())
    }

    /// Moves the cursor of the list on display one row down or up.
    fn move_cursor(&mut self, down: bool)
        ensures
            final(self)@ == old(self)@.moved(down),
    {
        match self.view_stack.top() {
            View::Accounts | View::TransferSelect => {
                if down {
                    self.account_index.next();
                } else {
                    self.account_index.previous();
                }
            },
            View::Menu => {
                if down {
                    self.menu_index.next();
                } else {
                    self.menu_index.previous();
                }
            },
            View::Transactions => {
                if down {
                    self.transaction_index.next();
                } else {
                    self.transaction_index.previous();
                }
            },
            View::TransferModal => {},
        }
    }

    /// Confirms the selected entry of the action menu.
    pub fn handle_menu_select(&mut self) -> (action: Action)
        ensures
            (final(self)@, action@) == old(self)@.menu_chosen(),
    {
        match menu_target(self.menu_index.selected()) {
            Some(View::Transactions) => match self.selected_account() {
                Some(at) => Action::FetchTransactions { account_key: self.accounts[at].key.clone() },
                None => Action::Nothing,
            },
            Some(View::TransferSelect) => match self.selected_account() {
                Some(at) => {
                    self.draft.from_account = Some(at);
                    self.view_stack.push(View::TransferSelect);
                    Action::Nothing
                },
                None => Action::Nothing,
            },
            Some(other) => {
                self.view_stack.push(other);
                Action::Nothing
            },
            None => Action::Nothing,
        }
    }

    /// Confirms the receiving account and opens the transfer form.
    fn choose_destination(&mut self)
        ensures
            final(self)@ == old(self)@.destination_chosen(),
    {
        match self.selected_account() {
            Some(at) => {
                self.draft.to_account = Some(at);
                self.view_stack.push(View::TransferModal);
            },
            None => {},
        }
    }

    /// Shows or hides credit cards.
    fn toggle_credit_cards(&mut self)
        ensures
            final(self)@ == old(self)@.credit_cards_toggled(),
    {
        self.show_credit_card = !self.show_credit_card;
        let shown = visible_count(&self.accounts, self.show_credit_card);
        self.account_index.resize(shown);
    }

    /// Hands a key to the transfer form.
    fn key_to_form(&mut self, key: Key)
        ensures
            old(self)@.form_keyed(key, final(self)@),
    {
        self.draft.handle_key(key);
    }

    /// Handles the confirm key.
    fn confirm(&mut self) -> (action: Action)
        ensures
            (final(self)@, action@) == old(self)@.confirmed(),
    {
        match self.view_stack.top() {
            View::Accounts => {
                self.view_stack.push(View::Menu);
                Action::Nothing
            },
            View::Menu => self.handle_menu_select(),
            View::TransferSelect => {
                self.choose_destination();
                Action::Nothing
            },
            View::TransferModal => perform_transfer(self),
            View::Transactions => Action::Nothing,
        }
    }

    /// Handles a key pressed at `now` and returns what the caller is to do.
    pub fn handle_key(&mut self, key: Key, now: u64) -> (action: Action)
        ensures
            old(self)@.key_handled(key, now, final(self)@, action@),
    {
        self.rebase();
        match key.code {
            KeyCode::Down => {
                self.move_cursor(true);
                Action::Nothing
            },
            KeyCode::Up => {
                self.move_cursor(false);
                Action::Nothing
            },
            KeyCode::Enter => self.confirm(),
            KeyCode::Esc => {
                self.view_stack.pop();
                Action::Nothing
            },
            KeyCode::Char(c) => {
                let top = self.view_stack.top();
                if c == 'b' && matches!(top, View::Accounts) {
                    self.show_balance = !self.show_balance;
                    Action::Nothing
                } else if c == 'm' {
                    self.toggle_credit_cards();
                    Action::Nothing
                } else if matches!(top, View::TransferModal) {
                    self.key_to_form(key);
                    Action::Nothing
                } else if c == 'c' && key.has_control() {
                    if self.shutdown.begin(now) {
                        Action::StartShutdown
                    } else {
                        Action::Nothing
                    }
                } else if c == 'q' {
                    if !self.shutdown.is_underway() {
                        self.quit.on_key_held(now);
                    }
                    Action::Nothing
                } else {
                    Action::Nothing
                }
            },
            _ => {
                if matches!(self.view_stack.top(), View::TransferModal) {
                    self.key_to_form(key);
                }
                Action::Nothing
            },
        }
    }

    /// Takes in the transactions that `Action::FetchTransactions` asked for
    /// and opens their list. If the fetch failed nothing changes, and the
    /// menu stays open for another try.
    pub fn show_transactions(&mut self, fetched: Result<Vec<Transaction>, ApiError>)
        ensures
            final(self)@ == (match fetched {
                Ok(transactions) => old(self)@.transactions_shown(transactions@),
                Err(_) => old(self)@,
            }),
    {
        match fetched {
            Ok(transactions) => {
                self.transaction_index.resize(transactions.len());
                self.transactions = transactions;
                self.view_stack.push(View::Transactions);
            },
            Err(_) => {},
        }
    }

    /// Takes in the accounts that `Action::FetchAccounts` asked for. If the
    /// fetch failed the accounts stay as they were.
    pub fn replace_accounts(&mut self, fetched: Result<Vec<Account>, ApiError>)
        ensures
            final(self)@ == (match fetched {
                Ok(accounts) => old(self)@.accounts_replaced(accounts@),
                Err(_) => old(self)@,
            }),
    {
        match fetched {
            Ok(accounts) => {
                let shown = visible_count(&accounts, self.show_credit_card);
                self.account_index.resize(shown);
                self.accounts = accounts;
            },
            Err(_) => {},
        }
    }

    /// Advances the quit gesture and the closing animation to the frame at
    /// `now`.
    pub fn tick(&mut self, now: u64) -> (frame: Frame)
        ensures
            (final(self)@, frame) == old(self)@.ticked(now),
            frame.quit_progress matches Some(p) ==> p.elapsed_ms <= p.threshold_ms,
    {
        if self.shutdown.is_underway() {
            self.quit.reset();
            Frame { quit_progress: None, start_shutdown: false, exit: self.shutdown.is_finished(now) }
        } else if matches!(self.view_stack.top(), View::TransferModal) {
            self.quit.reset();
            Frame { quit_progress: None, start_shutdown: false, exit: false }
        } else {
            let tick = self.quit.tick(now);
            if tick.should_quit {
                self.shutdown.begin(now);
            }
            Frame { quit_progress: tick.progress, start_shutdown: tick.should_quit, exit: false }
        }
    }
}

/// Confirms the transfer form: returns the transfer to send if the form is
/// ready, and nothing if it is not. The form stays as it is either way.
pub fn perform_transfer(app: &AppState) -> (action: Action)
    ensures
        action@ == app@.submitted(),
{
    match app.draft.request(&app.accounts) {
        Some(request) => Action::SubmitTransfer(request),
        None => Action::Nothing,
    }
}

/// Takes in the bank's answer to the transfer that `Action::SubmitTransfer`
/// asked for.
pub fn finish_transfer(app: &mut AppState, outcome: &Result<TransferResponse, ApiError>) -> (action:
    Action)
    ensures
        (final(app)@, action@) == old(app)@.transfer_finished(*outcome),
{
    match outcome {
        Ok(response) => {
            if response.succeeded() {
                app.draft.clear();
                app.view_stack.collapse();
                Action::FetchAccounts
            } else {
                Action::Report(response.diagnostics())
            }
        },
        Err(_) => Action::Nothing,
    }
}

/// The stack rests on the account list.
pub open spec fn is_rooted(stack: Seq<View>) -> bool {
    stack.len() >= 1 && stack[0] == View::Accounts
}

/// No key empties the stack or takes the account list from under it.
pub proof fn lemma_keys_keep_stack_rooted(
    before: AppModel,
    key: Key,
    now: u64,
    after: AppModel,
    effect: Effect,
)
    requires
        is_rooted(before.stack),
        before.key_handled(key, now, after, effect),
    ensures
        is_rooted(after.stack),
{
}

/// After every key the account cursor is well formed and spans exactly the
/// accounts that are shown, whether or not credit cards are among them.
pub proof fn lemma_account_cursor_spans_visible_list(
    before: AppModel,
    key: Key,
    now: u64,
    after: AppModel,
    effect: Effect,
)
    requires
        before.accounts.len() <= usize::MAX,
        before.key_handled(key, now, after, effect),
    ensures
        after.account_index.wf(),
        after.account_index.length == after.visible().len(),
        after.selected_account() is Some <==> after.visible().len() > 0,
{
    let s = before.rebased();
    lemma_visible_rows(before.accounts, before.show_credit_card);
    lemma_visible_rows(before.accounts, !before.show_credit_card);
    lemma_moves_keep_cursor_well_formed(s.account_index);
}

/// A transfer form whose amount is empty or all white space submits nothing
/// and stays as it is.
pub proof fn lemma_blank_amount_submits_nothing(app: AppModel)
    requires
        is_blank(app.draft.amount),
        app.stack.len() >= 1,
        app.top() == View::TransferModal,
    ensures
        app.submitted() == Effect::Nothing,
        app.confirmed() == (app, Effect::Nothing),
{
    lemma_blank_amount_plans_nothing(
        app.draft.amount,
        app.draft.message,
        app.draft.from_account,
        app.draft.to_account,
        app.accounts,
    );
}

/// A transfer that went through leaves an empty draft and the account list
/// alone on the stack, however deep the stack was; and a second such answer
/// changes nothing more.
pub proof fn lemma_successful_transfer_resets(app: AppModel, response: TransferResponse)
    requires
        response.spec_succeeded(),
    ensures
        app.transfer_finished(Ok(response)).0.stack == seq![View::Accounts],
        app.transfer_finished(Ok(response)).0.draft.amount == Seq::<char>::empty(),
        app.transfer_finished(Ok(response)).0.draft.message == Seq::<char>::empty(),
        app.transfer_finished(Ok(response)).0.draft.from_account is None,
        app.transfer_finished(Ok(response)).0.draft.to_account is None,
        app.transfer_finished(Ok(response)).1 == Effect::FetchAccounts,
        app.transfer_finished(Ok(response)).0.transfer_finished(Ok(response))
            == app.transfer_finished(Ok(response)),
{
}

/// A transfer that did not go through, or got no answer, leaves everything
/// as it was.
pub proof fn lemma_failed_transfer_changes_nothing(
    app: AppModel,
    outcome: Result<TransferResponse, ApiError>,
)
    requires
        !(outcome matches Ok(response) && response.spec_succeeded()),
    ensures
        app.transfer_finished(outcome).0 == app,
        app.transfer_finished(outcome).1 != Effect::FetchAccounts,
{
}

} // verus!
