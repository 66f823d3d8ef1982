use vstd::prelude::*;

use crate::theme::Theme;

verus! {

/// The value a write leaves: the new theme, unless the slot is closed.
pub open spec fn written(closed: bool, value: Option<Theme>, theme: Option<Theme>) -> Option<Theme> {
    if closed {
        value
    } else {
        theme
    }
}

/// The single slot holding the last operating-system theme that the watcher
/// reported. Writes overwrite; once the owner is torn down the slot is closed and
/// later writes leave it as it was.
#[derive(Clone, Debug)]
pub struct Observation {
    value: Option<Theme>,
    closed: bool,
}

impl Observation {
    pub closed spec fn value_spec(&self) -> Option<Theme> {
        self.value
    }

    pub closed spec fn is_closed(&self) -> bool {
        self.closed
    }

    /// An open slot that holds nothing yet.
    pub fn new() -> (r: Observation)
        ensures
            r.value_spec() is None,
            !r.is_closed(),
    {
        Observation { value: None, closed: false }
    }

    /// The latest theme written, or `None` if nothing was.
    pub fn read(&self) -> (r: Option<Theme>)
        ensures
            r == self.value_spec(),
    {
        self.value
    }

    /// Whether the slot has been closed by teardown.
    pub fn closed(&self) -> (r: bool)
        ensures
            r == self.is_closed(),
    {
        self.closed
    }

    /// Records a newly reported theme; returns whether it was stored.
    pub fn write(&mut self, theme: Option<Theme>) -> (r: bool)
        ensures
            r == !old(self).is_closed(),
            final(self).is_closed() == old(self).is_closed(),
            final(self).value_spec() == written(old(self).is_closed(), old(self).value_spec(), theme),
    {
        if self.closed {
            false
        } else {
            self.value = theme;
            true
        }
    }

    /// Closes the slot; the value last written stays readable.
    pub fn close(&mut self)
        ensures
            final(self).is_closed(),
            final(self).value_spec() == old(self).value_spec(),
    {
        self.closed = true;
    }
}

} // verus!
