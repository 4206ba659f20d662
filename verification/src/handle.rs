//! Plain values that stand for objects living outside the bridge.

use vstd::prelude::*;

verus! {

/// A reference to an object of the native engine: a studio system, a bank, an
/// event description, an event instance or a command replay.
///
/// The bridge never looks behind a handle; it only carries it from the native
/// thread to the interpreter and back.
#[derive(Clone, Copy, Debug, PartialEq, Eq, Structural)]
pub struct Handle {
    pub raw: usize,
}

/// A reference to a value owned by the interpreter: a registered callable or
/// a payload that a script attached to a native object.
#[derive(Clone, Copy, Debug, PartialEq, Eq, Structural)]
pub struct Value {
    pub raw: usize,
}

/// The 128-bit identifier the native engine gives to banks and events.
#[derive(Clone, Copy, Debug, PartialEq, Eq)]
pub struct Guid {
    pub data1: u32,
    pub data2: u16,
    pub data3: u16,
    pub data4: [u8; 8],
}

} // verus!
