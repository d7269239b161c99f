//! A component shown in a centred rectangle over the rest of the screen.

use vstd::prelude::*;

verus! {

/// A component and the share of the screen, in percent, that its rectangle takes.
pub struct Popup<T> {
    pub component: T,
    pub w_percent: u16,
    pub h_percent: u16,
}

/// The three shares, in percent, that cut a centred part out of a length: what is
/// left of it, the part itself, and what is right of it.
pub struct Shares {
    pub before: u16,
    pub middle: u16,
    pub after: u16,
}

impl<T> Popup<T> {
    /// Width of the rectangle in percent of the screen.
    pub open spec fn spec_w_percent(&self) -> u16 {
        self.w_percent
    }

    /// Height of the rectangle in percent of the screen.
    pub open spec fn spec_h_percent(&self) -> u16 {
        self.h_percent
    }

    /// Wraps `widget` in a rectangle 40 percent wide and 25 percent high.
    pub fn new(widget: T) -> (popup: Popup<T>)
        ensures
            popup.component == widget,
            popup.spec_w_percent() == 40,
            popup.spec_h_percent() == 25,
    {
        Popup { component: widget, w_percent: 40, h_percent: 25 }
    }

    /// The wrapped component.
    pub fn get(&self) -> (component: &T)
        ensures
            *component == self.component,
    {
        &self.component
    }

    /// The shares that centre a part of `percent` percent: half of the rest, rounded
    /// down, on either side of it.
    pub open spec fn centred(percent: u16) -> Shares {
        Shares {
            before: ((100 - percent) / 2) as u16,
            middle: percent,
            after: ((100 - percent) / 2) as u16,
        }
    }

    /// The horizontal shares of the rectangle.
    pub fn columns(&self) -> (shares: Shares)
        requires
            self.spec_w_percent() <= 100,
        ensures
            shares == Self::centred(self.spec_w_percent()),
    {
        let side: u16 = (100 - self.w_percent) / 2;
        Shares { before: side, middle: self.w_percent, after: side }
    }

    /// The vertical shares of the rectangle.
    pub fn rows(&self) -> (shares: Shares)
        requires
            self.spec_h_percent() <= 100,
        ensures
            shares == Self::centred(self.spec_h_percent()),
    {
        let side: u16 = (100 - self.h_percent) / 2;
        Shares { before: side, middle: self.h_percent, after: side }
    }
}

} // verus!
