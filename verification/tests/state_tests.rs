use auox::accounts::{Account, Transaction};
use auox::api::ApiError;
use auox::cursor::SelectionCursor;
use auox::keys::{Key, KeyCode, CONTROL};
use auox::navigation::View;
use auox::quit::{QuitProgress, EXIT_ANIMATION_MS};
use auox::state::{
    finish_transfer, menu_label, menu_target, perform_transfer, Action, AppState, Frame, MENU_LEN,
};
use auox::transfers::{
    CreateTransferDTO, Diagnostic, ErrorDTO, TransferInput, TransferRequest, TransferResponse,
    TransferToCreditCardDTO,
};

fn account(number: &str, kind: &str, card: Option<&str>) -> Account {
    Account {
        key: format!("key-{}", number),
        account_number: number.to_string(),
        name: format!("Account {}", number),
        type_field: kind.to_string(),
        credit_card_account_id: card.map(|c| c.to_string()),
        ..Account::default()
    }
}

fn accounts() -> Vec<Account> {
    vec![
        account("1111", "USER", None),
        account("9999", "CREDITCARD", Some("card-9")),
        account("2222", "SAVING", None),
    ]
}

fn app() -> AppState {
    AppState::new(accounts(), 1000)
}

fn press(app: &mut AppState, code: KeyCode) -> Action {
    app.handle_key(Key::plain(code), 0)
}

fn type_text(app: &mut AppState, text: &str) {
    for c in text.chars() {
        assert_eq!(app.handle_key(Key::char(c), 0), Action::Nothing);
    }
}

/// Selects the first account, opens the transfer form towards the second
/// visible account and types the amount.
fn open_form_with_amount(app: &mut AppState, amount: &str) {
    assert_eq!(press(app, KeyCode::Enter), Action::Nothing);
    assert_eq!(press(app, KeyCode::Down), Action::Nothing);
    assert_eq!(menu_label(app.menu_index.selected().unwrap()), "Transfer from");
    assert_eq!(press(app, KeyCode::Enter), Action::Nothing);
    assert_eq!(press(app, KeyCode::Down), Action::Nothing);
    assert_eq!(press(app, KeyCode::Enter), Action::Nothing);
    type_text(app, amount);
}

fn paid() -> TransferResponse {
    TransferResponse { errors: Vec::new(), payment_id: Some("abc123".to_string()), status: None }
}

fn declined() -> TransferResponse {
    TransferResponse {
        errors: vec![ErrorDTO {
            code: "INSUFFICIENT_FUNDS".to_string(),
            message: "...".to_string(),
            trace_id: "trace".to_string(),
            http_code: 422,
            resource: None,
            localized_message: None,
        }],
        payment_id: None,
        status: None,
    }
}

#[test]
fn app_starts_on_account_list() {
    let app = app();
    assert_eq!(app.view_stack.frames(), vec![View::Accounts]);
    assert_eq!(app.account_index, SelectionCursor { index: Some(0), length: 2 });
    assert_eq!(app.menu_index, SelectionCursor { index: Some(0), length: MENU_LEN });
    assert_eq!(app.transaction_index, SelectionCursor { index: None, length: 0 });
    assert!(!app.show_balance);
    assert!(!app.show_credit_card);
    assert_eq!(app.accounts, accounts());
    assert!(app.transactions.is_empty());
    assert_eq!(app.draft.amount_text(), "");
    assert_eq!(app.quit.threshold_ms, 1000);
    assert_eq!(app.shutdown.started, None);
}

#[test]
fn app_without_accounts_has_no_selection() {
    let mut app = AppState::new(Vec::new(), 1000);
    assert_eq!(app.account_index.selected(), None);
    assert_eq!(press(&mut app, KeyCode::Down), Action::Nothing);
    assert_eq!(press(&mut app, KeyCode::Up), Action::Nothing);
    assert_eq!(app.account_index.selected(), None);
    assert_eq!(app.selected_account(), None);
}

#[test]
fn arrows_wrap_around_the_visible_accounts() {
    let mut app = app();
    press(&mut app, KeyCode::Down);
    assert_eq!(app.account_index.selected(), Some(1));
    assert_eq!(app.selected_account(), Some(2));
    press(&mut app, KeyCode::Down);
    assert_eq!(app.account_index.selected(), Some(0));
    press(&mut app, KeyCode::Up);
    assert_eq!(app.account_index.selected(), Some(1));
}

#[test]
fn arrows_move_the_menu_cursor_in_the_menu() {
    let mut app = app();
    press(&mut app, KeyCode::Enter);
    press(&mut app, KeyCode::Up);
    assert_eq!(app.menu_index.selected(), Some(1));
    assert_eq!(app.account_index.selected(), Some(0));
    press(&mut app, KeyCode::Down);
    assert_eq!(app.menu_index.selected(), Some(0));
}

#[test]
fn menu_has_transactions_and_transfer() {
    assert_eq!(MENU_LEN, 2);
    assert_eq!(menu_target(Some(0)), Some(View::Transactions));
    assert_eq!(menu_target(Some(1)), Some(View::TransferSelect));
    assert_eq!(menu_target(Some(2)), None);
    assert_eq!(menu_target(None), None);
    assert_eq!(menu_label(0), "Transactions");
    assert_eq!(menu_label(1), "Transfer from");
    assert_eq!(menu_label(2), "");
}

#[test]
fn enter_on_accounts_opens_menu() {
    let mut app = app();
    assert_eq!(press(&mut app, KeyCode::Enter), Action::Nothing);
    assert_eq!(app.view_stack.frames(), vec![View::Accounts, View::Menu]);
}

#[test]
fn transactions_entry_fetches_before_list_opens() {
    let mut app = app();
    press(&mut app, KeyCode::Down);
    press(&mut app, KeyCode::Enter);
    let action = press(&mut app, KeyCode::Enter);
    assert_eq!(action, Action::FetchTransactions { account_key: "key-2222".to_string() });
    assert_eq!(app.view_stack.frames(), vec![View::Accounts, View::Menu]);
    let fetched = vec![Transaction::default(), Transaction::default(), Transaction::default()];
    app.show_transactions(Ok(fetched.clone()));
    assert_eq!(app.view_stack.frames(), vec![View::Accounts, View::Menu, View::Transactions]);
    assert_eq!(app.transactions, fetched);
    assert_eq!(app.transaction_index, SelectionCursor { index: Some(0), length: 3 });
    press(&mut app, KeyCode::Up);
    assert_eq!(app.transaction_index.selected(), Some(2));
}

#[test]
fn failed_transaction_fetch_keeps_menu_open() {
    let mut app = app();
    press(&mut app, KeyCode::Enter);
    press(&mut app, KeyCode::Enter);
    app.show_transactions(Err(ApiError::Transport));
    assert_eq!(app.view_stack.frames(), vec![View::Accounts, View::Menu]);
    assert!(app.transactions.is_empty());
}

#[test]
fn empty_transaction_list_has_no_selection() {
    let mut app = app();
    press(&mut app, KeyCode::Enter);
    press(&mut app, KeyCode::Enter);
    app.show_transactions(Ok(Vec::new()));
    assert_eq!(app.view_stack.top(), View::Transactions);
    press(&mut app, KeyCode::Down);
    assert_eq!(app.transaction_index.selected(), None);
    assert_eq!(press(&mut app, KeyCode::Enter), Action::Nothing);
    assert_eq!(app.view_stack.top(), View::Transactions);
}

#[test]
fn menu_without_selected_account_does_nothing() {
    let mut app = AppState::new(Vec::new(), 1000);
    press(&mut app, KeyCode::Enter);
    assert_eq!(press(&mut app, KeyCode::Enter), Action::Nothing);
    press(&mut app, KeyCode::Down);
    assert_eq!(press(&mut app, KeyCode::Enter), Action::Nothing);
    assert_eq!(app.view_stack.frames(), vec![View::Accounts, View::Menu]);
    assert_eq!(app.draft.from_account, None);
}

#[test]
fn escape_goes_back_one_screen_and_stops_at_root() {
    let mut app = app();
    press(&mut app, KeyCode::Enter);
    press(&mut app, KeyCode::Down);
    press(&mut app, KeyCode::Enter);
    assert_eq!(app.view_stack.frames(), vec![View::Accounts, View::Menu, View::TransferSelect]);
    press(&mut app, KeyCode::Esc);
    assert_eq!(app.view_stack.frames(), vec![View::Accounts, View::Menu]);
    press(&mut app, KeyCode::Esc);
    press(&mut app, KeyCode::Esc);
    press(&mut app, KeyCode::Esc);
    assert_eq!(app.view_stack.frames(), vec![View::Accounts]);
}

#[test]
fn balance_toggle_works_on_account_list_only() {
    let mut app = app();
    type_text(&mut app, "b");
    assert!(app.show_balance);
    type_text(&mut app, "b");
    assert!(!app.show_balance);
    press(&mut app, KeyCode::Enter);
    type_text(&mut app, "b");
    assert!(!app.show_balance);
}

#[test]
fn credit_card_toggle_refits_the_account_cursor() {
    let mut app = app();
    type_text(&mut app, "m");
    assert!(app.show_credit_card);
    assert_eq!(app.account_index, SelectionCursor { index: Some(0), length: 3 });
    press(&mut app, KeyCode::Up);
    assert_eq!(app.account_index.selected(), Some(2));
    assert_eq!(app.selected_account(), Some(2));
    type_text(&mut app, "m");
    assert!(!app.show_credit_card);
    assert_eq!(app.account_index, SelectionCursor { index: Some(1), length: 2 });
    assert_eq!(app.selected_account(), Some(2));
}

#[test]
fn credit_card_toggle_works_on_every_screen() {
    let mut app = app();
    press(&mut app, KeyCode::Enter);
    type_text(&mut app, "m");
    assert!(app.show_credit_card);
    let mut app = AppState::new(accounts(), 1000);
    open_form_with_amount(&mut app, "1");
    app.handle_key(Key::plain(KeyCode::Tab), 0);
    type_text(&mut app, "mum");
    assert_eq!(app.draft.message_text(), "u");
    assert!(!app.show_credit_card);
}

#[test]
fn cursor_is_refitted_when_the_list_changed_behind_it() {
    let mut app = app();
    app.account_index = SelectionCursor { index: Some(7), length: 9 };
    press(&mut app, KeyCode::Other);
    assert_eq!(app.account_index, SelectionCursor { index: Some(1), length: 2 });
    app.show_credit_card = true;
    press(&mut app, KeyCode::Down);
    assert_eq!(app.account_index, SelectionCursor { index: Some(2), length: 3 });
}

#[test]
fn transfer_wizard_captures_source_and_destination() {
    let mut app = app();
    open_form_with_amount(&mut app, "");
    assert_eq!(
        app.view_stack.frames(),
        vec![View::Accounts, View::Menu, View::TransferSelect, View::TransferModal]
    );
    assert_eq!(app.draft.from_account, Some(0));
    assert_eq!(app.draft.to_account, Some(2));
}

#[test]
fn successful_transfer_clears_draft_and_collapses_stack() {
    let mut app = app();
    open_form_with_amount(&mut app, "250,50");
    assert_eq!(app.draft.amount_text(), "250,50");
    let action = press(&mut app, KeyCode::Enter);
    assert_eq!(
        action,
        Action::SubmitTransfer(TransferRequest::Debit(CreateTransferDTO {
            amount: "250,50".to_string(),
            due_date: None,
            message: None,
            to_account: "2222".to_string(),
            from_account: "1111".to_string(),
            currency_code: None,
        }))
    );
    assert_eq!(app.view_stack.top(), View::TransferModal);
    let action = finish_transfer(&mut app, &Ok(paid()));
    assert_eq!(action, Action::FetchAccounts);
    assert_eq!(app.view_stack.frames(), vec![View::Accounts]);
    assert_eq!(app.draft.amount_text(), "");
    assert_eq!(app.draft.message_text(), "");
    assert_eq!(app.draft.from_account, None);
    assert_eq!(app.draft.to_account, None);
}

#[test]
fn declined_transfer_leaves_form_untouched() {
    let mut app = app();
    open_form_with_amount(&mut app, "250,50");
    let before = app.view_stack.frames();
    assert!(matches!(press(&mut app, KeyCode::Enter), Action::SubmitTransfer(_)));
    let action = finish_transfer(&mut app, &Ok(declined()));
    assert_eq!(
        action,
        Action::Report(vec![Diagnostic {
            code: "INSUFFICIENT_FUNDS".to_string(),
            trace_id: "trace".to_string(),
            http_code: 422,
            message: "...".to_string(),
            localized: None,
        }])
    );
    assert_eq!(app.view_stack.frames(), before);
    assert_eq!(app.view_stack.top(), View::TransferModal);
    assert_eq!(app.draft.amount_text(), "250,50");
    assert_eq!(app.draft.from_account, Some(0));
    assert_eq!(app.draft.to_account, Some(2));
}

#[test]
fn unanswered_transfer_leaves_form_untouched() {
    let mut app = app();
    open_form_with_amount(&mut app, "5");
    for error in [ApiError::Transport, ApiError::Status(500), ApiError::Malformed] {
        assert_eq!(finish_transfer(&mut app, &Err(error)), Action::Nothing);
        assert_eq!(app.view_stack.top(), View::TransferModal);
        assert_eq!(app.draft.amount_text(), "5");
    }
}

#[test]
fn success_resets_from_any_depth_and_twice_is_once() {
    let mut app = app();
    app.view_stack.push(View::Menu);
    app.view_stack.push(View::Transactions);
    app.view_stack.push(View::Menu);
    app.view_stack.push(View::TransferSelect);
    app.view_stack.push(View::TransferModal);
    app.draft.set_amount("1".to_string());
    app.draft.set_message("m".to_string());
    app.draft.from_account = Some(0);
    app.draft.to_account = Some(1);
    for _ in 0..2 {
        assert_eq!(finish_transfer(&mut app, &Ok(paid())), Action::FetchAccounts);
        assert_eq!(app.view_stack.frames(), vec![View::Accounts]);
        assert_eq!(app.draft.amount_text(), "");
        assert_eq!(app.draft.message_text(), "");
        assert_eq!(app.draft.from_account, None);
        assert_eq!(app.draft.to_account, None);
        assert_eq!(app.draft.active_input, TransferInput::Amount);
    }
}

#[test]
fn blank_amount_submits_nothing() {
    let mut app = app();
    open_form_with_amount(&mut app, "");
    app.draft.set_amount("   ".to_string());
    assert_eq!(press(&mut app, KeyCode::Enter), Action::Nothing);
    assert_eq!(perform_transfer(&app), Action::Nothing);
    assert_eq!(app.view_stack.top(), View::TransferModal);
    assert_eq!(app.draft.amount_text(), "   ");
}

#[test]
fn transfer_to_credit_card_drops_the_message() {
    let mut app = app();
    type_text(&mut app, "m");
    assert_eq!(press(&mut app, KeyCode::Enter), Action::Nothing);
    assert_eq!(press(&mut app, KeyCode::Down), Action::Nothing);
    assert_eq!(press(&mut app, KeyCode::Enter), Action::Nothing);
    assert_eq!(press(&mut app, KeyCode::Down), Action::Nothing);
    assert_eq!(press(&mut app, KeyCode::Enter), Action::Nothing);
    assert_eq!(app.draft.to_account, Some(1));
    type_text(&mut app, "75");
    app.handle_key(Key::plain(KeyCode::Tab), 0);
    type_text(&mut app, "for the card");
    assert_eq!(app.draft.message_text(), "for the card");
    assert_eq!(
        press(&mut app, KeyCode::Enter),
        Action::SubmitTransfer(TransferRequest::CreditCard(TransferToCreditCardDTO {
            amount: "75".to_string(),
            due_date: None,
            from_account: "1111".to_string(),
            credit_card_account_id: "card-9".to_string(),
        }))
    );
}

#[test]
fn form_keeps_arrows_and_quit_key_to_itself() {
    let mut app = app();
    open_form_with_amount(&mut app, "12");
    let cursor = app.account_index;
    press(&mut app, KeyCode::Down);
    press(&mut app, KeyCode::Up);
    assert_eq!(app.account_index, cursor);
    app.handle_key(Key::plain(KeyCode::Tab), 0);
    type_text(&mut app, "quick");
    assert_eq!(app.draft.message_text(), "quick");
    assert_eq!(app.quit.hold_start, None);
    let action = app.handle_key(Key { code: KeyCode::Char('c'), modifiers: CONTROL }, 0);
    assert_eq!(action, Action::Nothing);
    assert_eq!(app.shutdown.started, None);
}

#[test]
fn refreshed_accounts_refit_the_cursor() {
    let mut app = app();
    press(&mut app, KeyCode::Down);
    app.replace_accounts(Ok(vec![account("5555", "USER", None)]));
    assert_eq!(app.accounts, vec![account("5555", "USER", None)]);
    assert_eq!(app.account_index, SelectionCursor { index: Some(0), length: 1 });
    app.replace_accounts(Err(ApiError::Status(503)));
    assert_eq!(app.accounts, vec![account("5555", "USER", None)]);
    app.replace_accounts(Ok(Vec::new()));
    assert_eq!(app.account_index, SelectionCursor { index: None, length: 0 });
}

#[test]
fn control_c_starts_shutdown_once() {
    let mut app = app();
    let key = Key { code: KeyCode::Char('c'), modifiers: CONTROL };
    assert_eq!(app.handle_key(key, 100), Action::StartShutdown);
    assert_eq!(app.handle_key(key, 300), Action::Nothing);
    assert_eq!(app.shutdown.started, Some(100));
    assert!(!app.tick(100 + EXIT_ANIMATION_MS - 1).exit);
    assert!(app.tick(100 + EXIT_ANIMATION_MS).exit);
}

#[test]
fn plain_c_does_not_quit() {
    let mut app = app();
    assert_eq!(app.handle_key(Key::char('c'), 100), Action::Nothing);
    assert_eq!(app.shutdown.started, None);
}

#[test]
fn held_quit_key_starts_shutdown_then_exits() {
    let mut app = app();
    let mut started = 0;
    let mut exited_at = None;
    let mut now = 0;
    while now <= 2000 && exited_at.is_none() {
        if now % 50 == 0 {
            assert_eq!(app.handle_key(Key::char('q'), now), Action::Nothing);
        }
        if now % 100 == 0 {
            let frame = app.tick(now);
            if frame.start_shutdown {
                started += 1;
                assert_eq!(now, 1000);
            }
            if frame.exit {
                exited_at = Some(now);
            }
        }
        now += 10;
    }
    assert_eq!(started, 1);
    assert_eq!(exited_at, Some(1500));
}

#[test]
fn frame_reports_quit_progress() {
    let mut app = app();
    app.handle_key(Key::char('q'), 0);
    app.handle_key(Key::char('q'), 200);
    assert_eq!(
        app.tick(250),
        Frame {
            quit_progress: Some(QuitProgress { elapsed_ms: 250, threshold_ms: 1000 }),
            start_shutdown: false,
            exit: false,
        }
    );
    assert_eq!(app.tick(801), Frame { quit_progress: None, start_shutdown: false, exit: false });
}

#[test]
fn quit_gesture_rests_on_the_transfer_form() {
    let mut app = app();
    app.handle_key(Key::char('q'), 0);
    app.view_stack.push(View::TransferModal);
    assert_eq!(app.tick(100), Frame { quit_progress: None, start_shutdown: false, exit: false });
    assert_eq!(app.quit.hold_start, None);
}

#[test]
fn quit_key_is_ignored_while_leaving() {
    let mut app = app();
    app.handle_key(Key { code: KeyCode::Char('c'), modifiers: CONTROL }, 0);
    app.handle_key(Key::char('q'), 10);
    assert_eq!(app.quit.hold_start, None);
    assert_eq!(app.tick(20), Frame { quit_progress: None, start_shutdown: false, exit: false });
}
