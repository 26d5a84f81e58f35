//! Navigation state: the current directory, the selection, and the cached
//! child list, driven by keyboard commands.
//!
//! Selection index 0 means the path-header row is selected; `1..=N` selects
//! the N-th child. Directory changes happen in two steps so the state never
//! holds a path with a stale child list: `apply` decides the target and
//! returns it as an [`Effect::ChangeDir`], the caller enumerates that
//! directory (an I/O step the library cannot take), and `enter` installs the
//! path together with its children.

use vstd::prelude::*;

use crate::types::Action;

verus! {

/// What the event loop must do after a command was applied.
#[derive(Debug, PartialEq, Eq)]
pub enum Effect {
    /// Nothing to do; the state change (if any) is complete.
    Nothing,
    /// Run a render pass.
    Render,
    /// Resize the virtual terminal to the given width and height.
    Resize(u16, u16),
    /// Enumerate this directory's children and hand them to `enter`.
    ChangeDir(String),
}

/// The parent of a path, as `std::path::Path::parent` computes it from the
/// path's characters alone: `None` for a root or empty path.
pub uninterp spec fn parent_str(s: Seq<char>) -> Option<Seq<char>>;

/// Relies on std::path::Path::parent: the path without its final component,
/// or `None` for a root or empty path, a pure function of the characters.
#[verifier::external_body]
fn parent_of(path: &String) -> (r: Option<String>)
    ensures
        r.deep_view() == parent_str(path@),
{
    match std::path::Path::new(path.as_str()).parent() {
        Some(p) => match p.to_str() {
            Some(s) => Some(s.to_owned()),
            None => None,
        },
        None => None,
    }
}

/// The selection after one step up: saturating decrement.
pub open spec fn up_target(sel: int) -> int {
    if sel > 0 {
        sel - 1
    } else {
        0
    }
}

/// The selection after one step down: increment clamped to `len`.
pub open spec fn down_target(sel: int, len: int) -> int {
    if sel < len {
        sel + 1
    } else {
        len
    }
}

/// The selection after a ten-row jump up, clamped to 0.
pub open spec fn up_jump_target(sel: int) -> int {
    if sel > 9 {
        sel - 10
    } else {
        0
    }
}

/// The selection after a ten-row jump down, clamped to `len`.
pub open spec fn down_jump_target(sel: int, len: int) -> int {
    if sel + 10 <= len {
        sel + 10
    } else {
        len
    }
}

/// The browser's state: current path, selection, cached children, and the
/// quit flag the event loop polls.
pub struct NavState {
    pub current_path: String,
    pub current_position: usize,
    pub children: Vec<String>,
    pub should_quit: bool,
}

impl NavState {
    /// The selection never points past the child list.
    pub open spec fn wf(self) -> bool {
        self.current_position <= self.children@.len()
    }

    /// The path, children and quit flag agree; only the selection may differ.
    pub open spec fn same_dir(self, other: NavState) -> bool {
        &&& self.current_path == other.current_path
        &&& self.children == other.children
        &&& self.should_quit == other.should_quit
    }

    pub fn new(path: String, children: Vec<String>) -> (s: Self)
        ensures
            s.wf(),
            s.current_path == path,
            s.current_position == 0,
            s.children == children,
            !s.should_quit,
    {
        Self { current_path: path, current_position: 0, children, should_quit: false }
    }

    /// Completes a directory change: installs the new path with its freshly
    /// enumerated children and moves the selection back to the header row.
    pub fn enter(&mut self, path: String, children: Vec<String>)
        ensures
            final(self).wf(),
            final(self).current_path == path,
            final(self).current_position == 0,
            final(self).children == children,
            final(self).should_quit == old(self).should_quit,
    {
        self.current_path = path;
        self.current_position = 0;
        self.children = children;
    }

    pub fn move_up(&mut self)
        requires
            old(self).wf(),
        ensures
            final(self).wf(),
            final(self).same_dir(*old(self)),
            final(self).current_position as int == up_target(old(self).current_position as int),
    {
        if self.current_position > 0 {
            self.current_position = self.current_position - 1;
        }
    }

    pub fn move_down(&mut self)
        requires
            old(self).wf(),
        ensures
            final(self).wf(),
            final(self).same_dir(*old(self)),
            final(self).current_position as int == down_target(
                old(self).current_position as int,
                old(self).children@.len() as int,
            ),
    {
        if self.current_position < self.children.len() {
            self.current_position = self.current_position + 1;
        }
    }

    pub fn move_up_a_lot(&mut self)
        requires
            old(self).wf(),
        ensures
            final(self).wf(),
            final(self).same_dir(*old(self)),
            final(self).current_position as int == up_jump_target(
                old(self).current_position as int,
            ),
    {
        if self.current_position > 9 {
            self.current_position = self.current_position - 10;
        } else {
            self.current_position = 0;
        }
    }

    pub fn move_down_a_lot(&mut self)
        requires
            old(self).wf(),
        ensures
            final(self).wf(),
            final(self).same_dir(*old(self)),
            final(self).current_position as int == down_jump_target(
                old(self).current_position as int,
                old(self).children@.len() as int,
            ),
    {
        if self.children.len() - self.current_position >= 10 {
            self.current_position = self.current_position + 10;
        } else {
            self.current_position = self.children.len();
        }
    }

    /// Applies one command and says what the event loop must do next. The
    /// state changes exactly as the command demands; a `Parent` command from
    /// a path with no parent changes nothing at all.
    pub fn apply(&mut self, action: Action) -> (eff: Effect)
        requires
            old(self).wf(),
        ensures
            final(self).wf(),
            match action {
                Action::Render => *final(self) == *old(self) && eff == Effect::Render,
                Action::Resize(w, h) => *final(self) == *old(self) && eff == Effect::Resize(w, h),
                Action::Quit => {
                    &&& final(self).current_path == old(self).current_path
                    &&& final(self).children == old(self).children
                    &&& final(self).current_position == old(self).current_position
                    &&& final(self).should_quit
                    &&& eff == Effect::Nothing
                },
                Action::MoveUp => {
                    &&& final(self).same_dir(*old(self))
                    &&& final(self).current_position as int == up_target(
                        old(self).current_position as int,
                    )
                    &&& eff == Effect::Nothing
                },
                Action::MoveDown => {
                    &&& final(self).same_dir(*old(self))
                    &&& final(self).current_position as int == down_target(
                        old(self).current_position as int,
                        old(self).children@.len() as int,
                    )
                    &&& eff == Effect::Nothing
                },
                Action::MoveUpALOT => {
                    &&& final(self).same_dir(*old(self))
                    &&& final(self).current_position as int == up_jump_target(
                        old(self).current_position as int,
                    )
                    &&& eff == Effect::Nothing
                },
                Action::MoveDownALOT => {
                    &&& final(self).same_dir(*old(self))
                    &&& final(self).current_position as int == down_jump_target(
                        old(self).current_position as int,
                        old(self).children@.len() as int,
                    )
                    &&& eff == Effect::Nothing
                },
                Action::Parent => {
                    &&& *final(self) == *old(self)
                    &&& match parent_str(old(self).current_path@) {
                        Some(p) => eff matches Effect::ChangeDir(s) && s@ == p,
                        None => eff == Effect::Nothing,
                    }
                },
                Action::Child => {
                    &&& *final(self) == *old(self)
                    &&& if old(self).current_position == 0 {
                        eff == Effect::Nothing
                    } else {
                        eff matches Effect::ChangeDir(s) && s@ == old(self).children@[old(
                            self,
                        ).current_position - 1]@
                    }
                },
            },
    {
        match action {
            Action::Render => Effect::Render,
            Action::Resize(w, h) => Effect::Resize(w, h),
            Action::Quit => {
                self.should_quit = true;
                Effect::Nothing
            },
            Action::MoveUp => {
                self.move_up();
                Effect::Nothing
            },
            Action::MoveDown => {
                self.move_down();
                Effect::Nothing
            },
            Action::MoveUpALOT => {
                self.move_up_a_lot();
                Effect::Nothing
            },
            Action::MoveDownALOT => {
                self.move_down_a_lot();
                Effect::Nothing
            },
            Action::Parent => {
                match parent_of(&self.current_path) {
                    Some(p) => Effect::ChangeDir(p),
                    None => Effect::Nothing,
                }
            },
            Action::Child => {
                if self.current_position != 0 {
                    let child = self.children[self.current_position - 1].clone();
                    Effect::ChangeDir(child)
                } else {
                    Effect::Nothing
                }
            },
        }
    }
}

/// The keyboard map: which command a pressed key issues, exactly as the
/// help of the browser documents it.
pub fn action_for_key(c: char) -> (r: Option<Action>)
    ensures
        r == match c {
            'q' => Some(Action::Quit),
            'j' => Some(Action::MoveDown),
            'J' => Some(Action::MoveDownALOT),
            'k' => Some(Action::MoveUp),
            'K' => Some(Action::MoveUpALOT),
            'u' => Some(Action::Parent),
            'd' => Some(Action::Child),
            _ => None::<Action>,
        },
{
    match c {
        'q' => Some(Action::Quit),
        'j' => Some(Action::MoveDown),
        'J' => Some(Action::MoveDownALOT),
        'k' => Some(Action::MoveUp),
        'K' => Some(Action::MoveUpALOT),
        'u' => Some(Action::Parent),
        'd' => Some(Action::Child),
        _ => None,
    }
}

/// Navigation clamp laws: a step up at the header row and a step down at the
/// last child are no-ops, and every move lands inside `[0, len]` — the
/// ten-row jumps clamp at the ends instead of running past them.
pub proof fn lemma_navigation_clamp(sel: int, len: int)
    requires
        0 <= sel <= len,
    ensures
        sel == 0 ==> up_target(sel) == sel,
        sel == len ==> down_target(sel, len) == sel,
        0 <= up_target(sel) <= len,
        0 <= down_target(sel, len) <= len,
        0 <= up_jump_target(sel) <= len,
        0 <= down_jump_target(sel, len) <= len,
{
}

} // verus!
