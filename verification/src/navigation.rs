//! The stack of screens.

use vstd::prelude::*;
use vstd::view::View as _;

verus! {

/// One screen of the interface.
#[derive(Clone, Copy, Debug, PartialEq, Eq)]
pub enum View {
    /// The list of accounts: the root screen.
    Accounts,
    /// The actions offered for the selected account.
    Menu,
    /// The transactions of the selected account.
    Transactions,
    /// The account list again, to pick the account that receives a transfer.
    TransferSelect,
    /// The transfer form with its amount and message fields.
    TransferModal,
}

/// The screens above the root, oldest first. The root is always the account
/// list and is not stored, so the stack can neither be empty nor rest on
/// another screen.
#[derive(Clone, Debug)]
pub struct NavigationStack {
    above: Vec<View>,
}

impl vstd::view::View for NavigationStack {
    type V = Seq<View>;

    /// All frames, root first.
    closed spec fn view(&self) -> Seq<View> {
        seq![View::Accounts] + self.above@
    }
}

/// `frames` without its top frame, unless the root is all there is.
pub open spec fn popped(frames: Seq<View>) -> Seq<View> {
    if frames.len() > 1 {
        frames.drop_last()
    } else {
        frames
    }
}

/// The stack that holds the root alone.
pub open spec fn root_only() -> Seq<View> {
    seq![View::Accounts]
}

impl NavigationStack {
    /// The stack that shows the account list alone.
    pub fn new() -> (stack: NavigationStack)
        ensures
            stack@ == root_only(),
    {
        NavigationStack { above: Vec::new() }
    }

    /// A stack is never empty and rests on the account list.
    pub proof fn lemma_rooted(&self)
        ensures
            self@.len() >= 1,
            self@[0] == View::Accounts,
    {
    }

    /// The screen on display.
    pub fn top(&self) -> (view: View)
        ensures
            view == self@.last(),
    {
        let n = self.above.len();
        if n == 0 {
            View::Accounts
        } else {
            self.above[n - 1]
        }
    }

    /// Whether the account list is all there is.
    pub fn is_root(&self) -> (root: bool)
        ensures
            root == (self@.len() == 1),
    {
        self.above.len() == 0
    }

    /// Puts `view` on top.
    pub fn push(&mut self, view: View)
        ensures
            final(self)@ == old(self)@.push(view),
    {
        self.above.push(view);
        assert(self@ =~= old(self)@.push(view));
    }

    /// Takes the top frame off; at the root it does nothing.
    pub fn pop(&mut self)
        ensures
            final(self)@ == popped(old(self)@),
    {
        self.above.pop();
        assert(self@ =~= popped(old(self)@));
    }

    /// Drops every frame above the root.
    pub fn collapse(&mut self)
        ensures
            final(self)@ == root_only(),
    {
        self.above.clear();
        assert(self@ =~= root_only());
    }

    /// The frames from the root up.
    pub fn frames(&self) -> (frames: Vec<View>)
        ensures
            frames@ == self@,
    {
        let mut frames: Vec<View> = Vec::new();
        frames.push(View::Accounts);
        let mut i: usize = 0;
        while i < self.above.len()
            invariant
                i <= self.above.len(),
                frames@ == seq![View::Accounts] + self.above@.take(i as int),
            decreases self.above.len() - i,
        {
            frames.push(self.above[i]);
            assert(self.above@.take(i + 1) =~= self.above@.take(i as int).push(self.above@[i as int]));
            assert(frames@ =~= seq![View::Accounts] + self.above@.take(i + 1));
            i += 1;
        }
        assert(self.above@.take(i as int) =~= self.above@);
        frames
    }
}

} // verus!
