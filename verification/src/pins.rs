//! A pin of the LED array is at every instant exclusively either a
//! floating input or a driven push-pull output. The closed enum makes an
//! intermediate or uninitialized mode unrepresentable, and a mode switch
//! replaces the whole value, so no caller can observe a half-switched pin.

use vstd::prelude::*;

verus! {

/// Logic level driven onto an output pin.
#[derive(Clone, Copy, PartialEq, Eq, Structural, Debug)]
pub enum PinLevel {
    High,
    Low,
}

/// A pin that is exclusively a floating input or a driven output.
#[derive(Clone, Copy, PartialEq, Eq, Structural, Debug)]
pub enum DynamicPin {
    /// High-impedance input; the pin sources and sinks no current.
    Floating,
    /// Push-pull output driven to the given level.
    Out(PinLevel),
}

impl DynamicPin {
    /// A fresh pin starts as a floating input.
    pub fn new() -> (p: DynamicPin)
        ensures
            p == DynamicPin::Floating,
    {
        DynamicPin::Floating
    }

    /// Switch the pin to a floating input, whatever mode it was in.
    pub fn set_floating(&mut self)
        ensures
            *final(self) == DynamicPin::Floating,
    {
        *self = DynamicPin::Floating;
    }

    /// Switch the pin to an output driven to `level`, whatever mode it
    /// was in.
    pub fn set_out(&mut self, level: PinLevel)
        ensures
            *final(self) == DynamicPin::Out(level),
    {
        *self = DynamicPin::Out(level);
    }

    /// Whether the pin is currently driving the line.
    pub open spec fn is_driven(self) -> bool {
        self is Out
    }
}

} // verus!
