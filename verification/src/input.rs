//! Controller actions and the game's input flags.

use vstd::prelude::*;

verus! {

/// The game's input flag bits.
pub const SHOOT: u32 = 0x1;
pub const BOMB: u32 = 0x2;
pub const FOCUS: u32 = 0x8;
pub const UP: u32 = 0x10;
pub const DOWN: u32 = 0x20;
pub const LEFT: u32 = 0x40;
pub const RIGHT: u32 = 0x80;
pub const SKIP: u32 = 0x200;

/// The bits a controller action may hold: shoot, bomb, focus and the four directions.
pub const ACTION_MASK: u32 = 0b1111_1011;

/// A set of the game's input flags, as the joypad routine returns it.
#[derive(Debug, Clone, Copy, PartialEq, Eq, Structural)]
pub struct InputFlags {
    pub bits: u32,
}

impl InputFlags {
    /// No input.
    pub fn empty() -> (r: Self)
        ensures
            r.bits == 0,
    {
        InputFlags { bits: 0 }
    }

    /// Exactly the given bits.
    pub fn from_bits(bits: u32) -> (r: Self)
        ensures
            r.bits == bits,
    {
        InputFlags { bits }
    }

    /// Adds the bits of `flag`.
    pub fn insert(&mut self, flag: u32)
        ensures
            final(self).bits == old(self).bits | flag,
    {
        self.bits = self.bits | flag;
    }

    /// Removes the bits of `flag`.
    pub fn remove(&mut self, flag: u32)
        ensures
            final(self).bits == old(self).bits & !flag,
    {
        self.bits = self.bits & !flag;
    }
}

/// Whether `bits` is a valid action: no bit outside [`ACTION_MASK`] is set.
pub open spec fn action_bits_ok(bits: u32) -> bool {
    bits & !ACTION_MASK == 0
}

/// A controller-supplied action, a subset of the input flags.
#[derive(Debug, Clone, Copy, PartialEq, Eq, Structural)]
pub struct Action {
    bits: u32,
}

impl Action {
    /// The action's input bits.
    pub closed spec fn spec_bits(self) -> u32 {
        self.bits
    }

    /// Decodes an action from the wire. Returns `None` if a bit outside the mask is set.
    pub fn from_wire(bits: u32) -> (r: Option<Self>)
        ensures
            r is Some <==> action_bits_ok(bits),
            r matches Some(a) ==> a.spec_bits() == bits,
    {
        if bits & !ACTION_MASK == 0 {
            Some(Action { bits })
        } else {
            None
        }
    }

    /// The action that presses nothing.
    pub fn neutral() -> (r: Self)
        ensures
            r.spec_bits() == 0,
    {
        Action { bits: 0 }
    }

    /// Returns the action's input bits.
    pub fn bits(self) -> (r: u32)
        ensures
            r == self.spec_bits(),
    {
        self.bits
    }

    /// The input flags that this action presses.
    pub fn to_flags(self) -> (r: InputFlags)
        ensures
            r.bits == self.spec_bits(),
    {
        InputFlags { bits: self.bits }
    }
}

} // verus!
