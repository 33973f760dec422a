//! The global pause switch.

use vstd::prelude::*;
use crate::error::TokenError;

verus! {

/// One boolean: whether the guarded operations are suspended.
pub struct PauseSwitch {
    on: bool,
}

impl View for PauseSwitch {
    type V = bool;

    closed spec fn view(&self) -> bool {
        self.on
    }
}

impl PauseSwitch {
    /// A switch that is off.
    pub fn new() -> (switch: PauseSwitch)
        ensures
            !switch@,
    {
        PauseSwitch { on: false }
    }

    /// Whether the switch is on.
    pub fn paused(&self) -> (on: bool)
        ensures
            on == self@,
    {
        self.on
    }

    /// Turns the switch on. Doing so while it is on changes nothing.
    pub fn pause(&mut self)
        ensures
            final(self)@,
    {
        self.on = true;
    }

    /// Turns the switch off. Doing so while it is off changes nothing.
    pub fn unpause(&mut self)
        ensures
            !final(self)@,
    {
        self.on = false;
    }

    /// Passes while the switch is off, and is `ContractPaused` while it is on.
    pub fn require_not_paused(&self) -> (res: Result<(), TokenError>)
        ensures
            res == (if self@ {
                Err::<(), TokenError>(TokenError::ContractPaused)
            } else {
                Ok::<(), TokenError>(())
            }),
    {
        if self.on {
            Err(TokenError::ContractPaused)
        } else {
            Ok(())
        }
    }
}

} // verus!
