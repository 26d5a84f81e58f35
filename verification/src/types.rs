//! Error and command types shared across the library.

use vstd::prelude::*;

verus! {

/// An error carrying a message, raised when an internal invariant is broken
/// (for example a path that cannot be shown as text).
#[derive(Debug)]
pub struct MyError {
    msg: String,
}

impl View for MyError {
    type V = Seq<char>;

    closed spec fn view(&self) -> Seq<char> {
        self.msg@
    }
}

impl MyError {
    pub fn new(msg: &str) -> (r: Self)
        ensures
            r@ == msg@,
    {
        Self { msg: msg.to_owned() }
    }

    /// The message this error was built from.
    pub fn message(&self) -> (r: String)
        ensures
            r@ == self@,
    {
        self.msg.clone()
    }
}

/// A command driving the navigation state machine and the render cycle.
#[derive(Clone, Copy, Debug, PartialEq, Eq, Structural)]
pub enum Action {
    Render,
    Resize(u16, u16),
    Quit,
    Parent,
    Child,
    MoveUp,
    MoveUpALOT,
    MoveDown,
    MoveDownALOT,
}

} // verus!
