use auox::navigation::{NavigationStack, View};

#[test]
fn new_stack_shows_accounts() {
    let stack = NavigationStack::new();
    assert_eq!(stack.top(), View::Accounts);
    assert_eq!(stack.frames(), vec![View::Accounts]);
    assert!(stack.is_root());
}

#[test]
fn push_puts_view_on_top() {
    let mut stack = NavigationStack::new();
    stack.push(View::Menu);
    stack.push(View::Transactions);
    assert_eq!(stack.top(), View::Transactions);
    assert_eq!(stack.frames(), vec![View::Accounts, View::Menu, View::Transactions]);
    assert!(!stack.is_root());
}

#[test]
fn pop_returns_to_previous_view() {
    let mut stack = NavigationStack::new();
    stack.push(View::Menu);
    stack.push(View::TransferSelect);
    stack.pop();
    assert_eq!(stack.top(), View::Menu);
    stack.pop();
    assert_eq!(stack.top(), View::Accounts);
}

#[test]
fn pop_at_root_does_nothing() {
    let mut stack = NavigationStack::new();
    stack.pop();
    stack.pop();
    assert_eq!(stack.frames(), vec![View::Accounts]);
}

#[test]
fn collapse_drops_everything_above_root() {
    let mut stack = NavigationStack::new();
    stack.push(View::Menu);
    stack.push(View::TransferSelect);
    stack.push(View::TransferModal);
    stack.collapse();
    assert_eq!(stack.frames(), vec![View::Accounts]);
    stack.collapse();
    assert_eq!(stack.frames(), vec![View::Accounts]);
}

#[test]
fn accounts_pushed_again_leaves_root_in_place() {
    let mut stack = NavigationStack::new();
    stack.push(View::Accounts);
    assert_eq!(stack.frames(), vec![View::Accounts, View::Accounts]);
    stack.pop();
    assert_eq!(stack.frames(), vec![View::Accounts]);
}
