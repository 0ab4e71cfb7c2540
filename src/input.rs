use vstd::prelude::*;

verus! {

/// The held state of each player action: true from a key's press to its release.
#[derive(Debug, Clone, Copy, PartialEq, Eq, Structural)]
pub struct Input {
    pub right: bool,
    pub left: bool,
    pub down: bool,
    pub toggle_jetpack: bool,
    pub fire: bool,
    pub jump: bool,
}

impl Input {
    /// No action held.
    pub fn new() -> (r: Input)
        ensures
            !r.right && !r.left && !r.down && !r.toggle_jetpack && !r.fire && !r.jump,
    {
        Input { right: false, left: false, down: false, toggle_jetpack: false, fire: false, jump: false }
    }

    pub fn clear_toggles(&mut self)
        ensures
            *final(self) == (Input { toggle_jetpack: false, ..*old(self) }),
    {
        self.toggle_jetpack = false;
    }

    pub fn right(&self) -> (r: bool)
        ensures
            r == self.right,
    {
        self.right
    }

    pub fn left(&self) -> (r: bool)
        ensures
            r == self.left,
    {
        self.left
    }

    pub fn jump(&self) -> (r: bool)
        ensures
            r == self.jump,
    {
        self.jump
    }

    pub fn down(&self) -> (r: bool)
        ensures
            r == self.down,
    {
        self.down
    }

    pub fn toggle_jetpack(&self) -> (r: bool)
        ensures
            r == self.toggle_jetpack,
    {
        self.toggle_jetpack
    }

    pub fn fire(&self) -> (r: bool)
        ensures
            r == self.fire,
    {
        self.fire
    }
}

} // verus!
