//! The nested browsing sub-state and its reducer.
//!
//! The application state owns a navigation stack of browser pages; the main
//! reducer never inspects it and only delegates [`BrowserAction`]s to
//! [`BrowserState::update_with`], wrapping each resulting [`BrowserEvent`]
//! in order. The whole sub-transition is captured by [`browser_next`] and
//! [`browser_emitted`].

use vstd::prelude::*;

verus! {

/// An intent aimed at the browsing sub-state.
#[derive(Clone, Debug, PartialEq)]
pub enum BrowserAction {
    /// Open the named page on top of the navigation stack.
    NavigationPush(String),
    /// Leave the page on top of the navigation stack.
    NavigationPop,
    /// Leave pages until the named one is on top again.
    NavigationPopTo(String),
}

/// A notification produced by the browsing sub-state.
#[derive(Clone, Debug, PartialEq)]
pub enum BrowserEvent {
    NavigationPushed(String),
    NavigationPopped,
    NavigationPoppedTo(String),
}

/// The browsing sub-state: a stack of page names, most recent on top.
#[derive(Clone, Debug, PartialEq)]
pub struct BrowserState {
    pub navigation: Vec<String>,
}

impl View for BrowserState {
    type V = Seq<String>;

    open spec fn view(&self) -> Seq<String> {
        self.navigation@
    }
}

/// True when some page of `stack` is named `target`.
pub open spec fn stack_contains(stack: Seq<String>, target: Seq<char>) -> bool {
    exists|i: int| 0 <= i < stack.len() && stack[i]@ == target
}

/// How many pages lie above the topmost page named `target`: the number of
/// pops it takes to bring that page to the top.
pub open spec fn pops_until(stack: Seq<String>, target: Seq<char>) -> int
    decreases stack.len(),
{
    if stack.len() == 0 {
        0
    } else if stack.last()@ == target {
        0
    } else {
        1 + pops_until(stack.drop_last(), target)
    }
}

/// The navigation stack after a browser action. Popping an empty stack and
/// popping towards a page that is not on the stack both leave it untouched.
pub open spec fn browser_next(stack: Seq<String>, action: BrowserAction) -> Seq<String> {
    match action {
        BrowserAction::NavigationPush(name) => stack.push(name),
        BrowserAction::NavigationPop => if stack.len() > 0 {
            stack.drop_last()
        } else {
            stack
        },
        BrowserAction::NavigationPopTo(name) => if stack_contains(stack, name@) {
            stack.take(stack.len() - pops_until(stack, name@))
        } else {
            stack
        },
    }
}

/// The events a browser action emits: one per structural change, in the
/// order the changes occur.
pub open spec fn browser_emitted(stack: Seq<String>, action: BrowserAction) -> Seq<BrowserEvent> {
    match action {
        BrowserAction::NavigationPush(name) => seq![BrowserEvent::NavigationPushed(name)],
        BrowserAction::NavigationPop => if stack.len() > 0 {
            seq![BrowserEvent::NavigationPopped]
        } else {
            Seq::empty()
        },
        BrowserAction::NavigationPopTo(name) => if stack_contains(stack, name@) {
            Seq::new(
                pops_until(stack, name@) as nat,
                |i: int| BrowserEvent::NavigationPopped,
            ).push(BrowserEvent::NavigationPoppedTo(name))
        } else {
            Seq::empty()
        },
    }
}

/// When the page `j` positions below the top is the topmost one named
/// `target`, the pop distance to `target` is exactly `j`.
proof fn lemma_pops_until_at(stack: Seq<String>, target: Seq<char>, j: int)
    requires
        0 <= j < stack.len(),
        stack[stack.len() - 1 - j]@ == target,
        forall|t: int| stack.len() - j <= t < stack.len() ==> stack[t]@ != target,
    ensures
        stack_contains(stack, target),
        pops_until(stack, target) == j,
    decreases j,
{
    assert(stack_contains(stack, target));
    if j > 0 {
        assert(stack[stack.len() - 1]@ != target);
        let rest = stack.drop_last();
        assert(rest[rest.len() - 1 - (j - 1)] == stack[stack.len() - 1 - j]);
        assert forall|t: int| rest.len() - (j - 1) <= t < rest.len() implies rest[t]@
            != target by {
            assert(rest[t] == stack[t]);
        }
        lemma_pops_until_at(rest, target, j - 1);
    }
}

/// Scans the navigation stack from the top for a page named `name`: the
/// number of pages above it when it is there, nothing when it is not.
fn pops_to_page(navigation: &Vec<String>, name: &String) -> (result: Option<usize>)
    ensures
        (match result {
            Some(count) => stack_contains(navigation@, name@) && count == pops_until(
                navigation@,
                name@,
            ) && count < navigation@.len(),
            None => !stack_contains(navigation@, name@),
        }),
{
    let n: usize = navigation.len();
    let mut j: usize = 0;
    while j < n && !(navigation[n - 1 - j].eq(name))
        invariant
            n == navigation@.len(),
            j <= n,
            forall|t: int| n - j <= t < n ==> navigation@[t]@ != name@,
        decreases n - j,
    {
        j += 1;
    }
    if j < n {
        proof {
            lemma_pops_until_at(navigation@, name@, j as int);
        }
        Some(j)
    } else {
        proof {
            if stack_contains(navigation@, name@) {
                let i: int = choose|i: int|
                    0 <= i < navigation@.len() && navigation@[i]@ == name@;
                assert(navigation@[i]@ != name@);
            }
        }
        None
    }
}

impl BrowserState {
    /// A browsing sub-state with an empty navigation stack.
    pub fn new() -> (result: BrowserState)
        ensures
            result@ =~= Seq::<String>::empty(),
    {
        BrowserState { navigation: Vec::new() }
    }

    /// Applies one browser action to the navigation stack and returns the
    /// events it produced, in order.
    pub fn update_with(&mut self, action: BrowserAction) -> (events: Vec<BrowserEvent>)
        ensures
            final(self)@ == browser_next(old(self)@, action),
            events@ == browser_emitted(old(self)@, action),
    {
        match action {
            BrowserAction::NavigationPush(name) => {
                self.navigation.push(name.clone());
                let mut events: Vec<BrowserEvent> = Vec::new();
                events.push(BrowserEvent::NavigationPushed(name));
                proof {
                    assert(events@ =~= browser_emitted(old(self)@, action));
                }
                events
            },
            BrowserAction::NavigationPop => {
                let mut events: Vec<BrowserEvent> = Vec::new();
                if self.navigation.len() > 0 {
                    let _ = self.navigation.pop();
                    events.push(BrowserEvent::NavigationPopped);
                    proof {
                        assert(self@ =~= old(self)@.drop_last());
                        assert(events@ =~= browser_emitted(old(self)@, action));
                    }
                } else {
                    proof {
                        assert(events@ =~= browser_emitted(old(self)@, action));
                    }
                }
                events
            },
            BrowserAction::NavigationPopTo(name) => {
                match pops_to_page(&self.navigation, &name) {
                    None => Vec::new(),
                    Some(count) => {
                        let ghost stack0 = self@;
                        let ghost target = name@;
                        let mut events: Vec<BrowserEvent> = Vec::new();
                        let mut c: usize = 0;
                        while c < count
                            invariant
                                c <= count,
                                stack_contains(stack0, target),
                                count == pops_until(stack0, target),
                                count < stack0.len(),
                                self@ =~= stack0.take(stack0.len() - c),
                                events@.len() == c,
                                forall|t: int|
                                    0 <= t < c ==> events@[t]
                                        == BrowserEvent::NavigationPopped,
                            decreases count - c,
                        {
                            let _ = self.navigation.pop();
                            events.push(BrowserEvent::NavigationPopped);
                            c += 1;
                            proof {
                                assert(self@ =~= stack0.take(stack0.len() - c));
                            }
                        }
                        events.push(BrowserEvent::NavigationPoppedTo(name));
                        proof {
                            assert(self@ =~= stack0.take(
                                stack0.len() - pops_until(stack0, target),
                            ));
                            assert(events@ =~= browser_emitted(old(self)@, action));
                        }
                        events
                    },
                }
            },
        }
    }
}

} // verus!
