//! The views of the application, the stack of views the user has opened,
//! and the mapping between the base views and the tab bar.

use vstd::prelude::*;
use crate::event::ConfirmAction;

verus! {

/// One screen of the application.
#[derive(Debug, PartialEq)]
pub enum Mode {
    Containers,
    ContainerDetails(String),
    Logs(String),
    Images,
    ImageRun(String),
    Shell(String),
    ShellConfig(String),
    Events,
    Statistics,
    Networks,
    Volumes,
    Help,
    ConfirmDialog { prompt: String, action: ConfirmAction },
    Explorer(String),
    ExplorerVolume(String, String),
}

impl Clone for Mode {
    fn clone(&self) -> (r: Self)
        ensures
            r == *self,
    {
        match self {
            Mode::Containers => Mode::Containers,
            Mode::ContainerDetails(s) => Mode::ContainerDetails(s.clone()),
            Mode::Logs(s) => Mode::Logs(s.clone()),
            Mode::Images => Mode::Images,
            Mode::ImageRun(s) => Mode::ImageRun(s.clone()),
            Mode::Shell(s) => Mode::Shell(s.clone()),
            Mode::ShellConfig(s) => Mode::ShellConfig(s.clone()),
            Mode::Events => Mode::Events,
            Mode::Statistics => Mode::Statistics,
            Mode::Networks => Mode::Networks,
            Mode::Volumes => Mode::Volumes,
            Mode::Help => Mode::Help,
            Mode::ConfirmDialog { prompt, action } => Mode::ConfirmDialog {
                prompt: prompt.clone(),
                action: action.clone(),
            },
            Mode::Explorer(s) => Mode::Explorer(s.clone()),
            Mode::ExplorerVolume(a, b) => Mode::ExplorerVolume(a.clone(), b.clone()),
        }
    }
}

/// The number of tabs in the tab bar.
pub const TAB_COUNT: usize = 7;

/// The deepest the view stack grows; older views fall off the bottom.
pub const MAX_DEPTH: usize = 10;

/// The tab that shows `mode`, for the base views; `None` for sub-views.
pub open spec fn tab_of(mode: Mode) -> Option<usize> {
    match mode {
        Mode::Containers => Some(0usize),
        Mode::Images => Some(1usize),
        Mode::Networks => Some(2usize),
        Mode::Volumes => Some(3usize),
        Mode::Events => Some(4usize),
        Mode::Statistics => Some(5usize),
        Mode::Help => Some(6usize),
        _ => None,
    }
}

/// The base view behind tab `tab`; out-of-range tabs show the containers.
pub open spec fn mode_of_tab(tab: usize) -> Mode {
    if tab == 0 { Mode::Containers }
    else if tab == 1 { Mode::Images }
    else if tab == 2 { Mode::Networks }
    else if tab == 3 { Mode::Volumes }
    else if tab == 4 { Mode::Events }
    else if tab == 5 { Mode::Statistics }
    else if tab == 6 { Mode::Help }
    else { Mode::Containers }
}

/// Whether `mode` is one of the base views reachable from the tab bar.
pub open spec fn is_base(mode: Mode) -> bool {
    tab_of(mode) is Some
}

pub fn mode_to_tab(mode: &Mode) -> (r: Option<usize>)
    ensures
        r == tab_of(*mode),
{
    match mode {
        Mode::Containers => Some(0),
        Mode::Images => Some(1),
        Mode::Networks => Some(2),
        Mode::Volumes => Some(3),
        Mode::Events => Some(4),
        Mode::Statistics => Some(5),
        Mode::Help => Some(6),
        _ => None,
    }
}

pub fn tab_to_mode(tab: usize) -> (r: Mode)
    ensures
        r == mode_of_tab(tab),
{
    match tab {
        0 => Mode::Containers,
        1 => Mode::Images,
        2 => Mode::Networks,
        3 => Mode::Volumes,
        4 => Mode::Events,
        5 => Mode::Statistics,
        6 => Mode::Help,
        _ => Mode::Containers,
    }
}

/// Every tab leads to a base view, and that view is shown by the same tab.
pub proof fn lemma_tab_round_trip(tab: usize)
    requires
        tab < TAB_COUNT,
    ensures
        tab_of(mode_of_tab(tab)) == Some(tab),
        is_base(mode_of_tab(tab)),
{
}

/// A base view is the view of its own tab.
pub proof fn lemma_mode_round_trip(mode: Mode)
    requires
        is_base(mode),
    ensures
        tab_of(mode)->0 < TAB_COUNT,
        mode_of_tab(tab_of(mode)->0) == mode,
{
}

/// The stack after opening `mode`: the oldest view is dropped once the stack
/// is full.
pub open spec fn pushed(s: Seq<Mode>, mode: Mode) -> Seq<Mode> {
    if s.len() >= MAX_DEPTH {
        s.drop_first().push(mode)
    } else {
        s.push(mode)
    }
}

/// The stack and the view returned after going back: the bottom view is
/// never popped.
pub open spec fn popped(s: Seq<Mode>) -> (Seq<Mode>, Option<Mode>) {
    if s.len() > 1 {
        (s.drop_last(), Some(s.last()))
    } else {
        (s, None)
    }
}

/// The stack of open views. It always holds at least one view and at most
/// [`MAX_DEPTH`].
#[derive(Debug)]
pub struct ModeStack {
    stack: Vec<Mode>,
    max_depth: usize,
}

impl View for ModeStack {
    type V = Seq<Mode>;

    closed spec fn view(&self) -> Seq<Mode> {
        self.stack@
    }
}

impl ModeStack {
    #[verifier::type_invariant]
    closed spec fn bounded(self) -> bool {
        &&& self.max_depth == MAX_DEPTH
        &&& 1 <= self.stack@.len() <= MAX_DEPTH
    }

    /// Moves the views out, leaving a single placeholder view behind.
    fn take_stack(&mut self) -> (r: Vec<Mode>)
        ensures
            r@ == old(self)@,
            1 <= r@.len() <= MAX_DEPTH,
            final(self)@ == seq![Mode::Containers],
    {
        proof {
            use_type_invariant(&*self);
        }
        let mut placeholder: Vec<Mode> = Vec::new();
        placeholder.push(Mode::Containers);
        std::mem::swap(&mut placeholder, &mut self.stack);
        placeholder
    }

    /// A stack holding only the containers view.
    pub fn new() -> (r: Self)
        ensures
            r@ == seq![Mode::Containers],
    {
        let mut stack = Vec::new();
        stack.push(Mode::Containers);
        ModeStack { stack, max_depth: MAX_DEPTH }
    }

    /// The view on top of the stack.
    pub fn current(&self) -> (r: &Mode)
        ensures
            *r == self@.last(),
    {
        proof {
            use_type_invariant(self);
        }
        let n = self.stack.len();
        &self.stack[n - 1]
    }

    /// Opens `mode` on top of the stack.
    pub fn push(&mut self, mode: Mode)
        ensures
            final(self)@ == pushed(old(self)@, mode),
    {
        proof {
            use_type_invariant(&*self);
        }
        let mut stack = self.take_stack();
        if stack.len() >= MAX_DEPTH {
            stack.remove(0);
        }
        stack.push(mode);
        proof {
            assert(stack@ =~= pushed(old(self)@, mode));
        }
        *self = ModeStack { stack, max_depth: MAX_DEPTH };
    }

    /// Closes the top view, unless it is the only one.
    pub fn back(&mut self) -> (r: Option<Mode>)
        ensures
            final(self)@ == popped(old(self)@).0,
            r == popped(old(self)@).1,
    {
        proof {
            use_type_invariant(&*self);
        }
        if self.stack.len() > 1 {
            let mut stack = self.take_stack();
            let top = stack.pop();
            proof {
                assert(stack@ =~= old(self)@.drop_last());
            }
            *self = ModeStack { stack, max_depth: MAX_DEPTH };
            top
        } else {
            None
        }
    }

    /// Replaces the top view by `mode`.
    pub fn replace_current(&mut self, mode: Mode)
        ensures
            final(self)@ == old(self)@.drop_last().push(mode),
    {
        proof {
            use_type_invariant(&*self);
        }
        let mut stack = self.take_stack();
        stack.pop();
        stack.push(mode);
        *self = ModeStack { stack, max_depth: MAX_DEPTH };
    }

    /// The number of open views.
    pub fn len(&self) -> (r: usize)
        ensures
            r == self@.len(),
            1 <= r <= MAX_DEPTH,
    {
        proof {
            use_type_invariant(self);
        }
        self.stack.len()
    }
}

impl Clone for ModeStack {
    fn clone(&self) -> (r: Self)
        ensures
            r@ == self@,
    {
        proof {
            use_type_invariant(self);
        }
        let mut stack: Vec<Mode> = Vec::new();
        let mut i: usize = 0;
        while i < self.stack.len()
            invariant
                i <= self.stack@.len(),
                stack@ == self.stack@.subrange(0, i as int),
            decreases self.stack@.len() - i,
        {
            stack.push(self.stack[i].clone());
            i = i + 1;
            assert(stack@ =~= self.stack@.subrange(0, i as int));
        }
        assert(stack@ =~= self.stack@);
        ModeStack { stack, max_depth: MAX_DEPTH }
    }
}

impl Default for ModeStack {
    fn default() -> (r: Self)
        ensures
            r@ == seq![Mode::Containers],
    {
        Self::new()
    }
}

/// Opening a view and going back again returns that view and restores the
/// stack, as long as the stack was not full.
pub proof fn lemma_push_then_back(s: Seq<Mode>, mode: Mode)
    requires
        1 <= s.len() < MAX_DEPTH,
    ensures
        popped(pushed(s, mode)).0 == s,
        popped(pushed(s, mode)).1 == Some(mode),
{
    assert(pushed(s, mode).drop_last() =~= s);
}

/// The opened view is on top afterwards, and the stack stays within its
/// bounds.
pub proof fn lemma_push_shows_mode(s: Seq<Mode>, mode: Mode)
    requires
        1 <= s.len() <= MAX_DEPTH,
    ensures
        pushed(s, mode).last() == mode,
        1 <= pushed(s, mode).len() <= MAX_DEPTH,
{
}

/// Going back from a single view changes nothing.
pub proof fn lemma_back_keeps_root(s: Seq<Mode>)
    requires
        s.len() == 1,
    ensures
        popped(s) == (s, None::<Mode>),
{
}

} // verus!
