//! Display-text fragments. `Attributes` is opaque display configuration
//! owned by the host bar: the library attaches it to every output fragment
//! and never inspects or mutates it.

use vstd::prelude::*;

verus! {

/// Space around a fragment, in pixels.
#[derive(Clone, Copy, Debug, PartialEq, Eq)]
pub struct Padding {
    pub left: u32,
    pub right: u32,
    pub top: u32,
    pub bottom: u32,
}

/// Opaque display configuration (font, colors, padding) supplied by the host
/// when the widget is registered. Colors are packed RGBA words.
#[derive(Debug, PartialEq, Eq)]
pub struct Attributes {
    pub font: String,
    pub fg_color: u32,
    pub bg_color: Option<u32>,
    pub padding: Padding,
}

impl Attributes {
    /// An exact copy; the widget keeps its own attributes and hands a copy to
    /// every fragment it yields.
    pub fn duplicate(&self) -> (r: Attributes)
        ensures
            r == *self,
    {
        Attributes {
            font: self.font.clone(),
            fg_color: self.fg_color,
            bg_color: self.bg_color,
            padding: self.padding,
        }
    }
}

/// One display fragment: a string together with the attributes the host
/// should draw it with. A tick yields an ordered sequence of these;
/// the order defines left-to-right placement.
#[derive(Debug, PartialEq, Eq)]
pub struct Text {
    pub attr: Attributes,
    pub content: String,
}

} // verus!
