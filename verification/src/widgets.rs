//! Capabilities of the surrounding container: the view it adds root widgets
//! to, and the position a component occupies inside it.

use vstd::prelude::*;

verus! {

/// A container widget that factory components can be added to.
///
/// Only the shape of the collaboration is declared here: the child widget
/// type the container accepts, the feedback handle it returns for an inserted
/// child, and the position values it understands. The insertion and removal
/// bookkeeping itself belongs to the container runtime.
pub trait FactoryView {
    /// The widget type the container accepts as children.
    type Children;

    /// The handle the container returns for an inserted child, used when
    /// building the widget bundle of the component.
    type ReturnedWidget;

    /// The kind of position values the container understands (a grid
    /// coordinate, an ordering key, or nothing at all).
    type Position;
}

/// A widget holding one line of text.
pub struct Label {
    /// The text currently shown.
    pub text: String,
}

/// A container that accepts labels as children, hands back no feedback
/// handle, and places children by insertion order alone.
pub struct LabelColumn;

impl FactoryView for LabelColumn {
    type Children = Label;

    type ReturnedWidget = ();

    type Position = ();
}

/// The slot-geometry capability: where a component stands inside containers
/// that place their children by an explicit position value.
pub trait Position<P> {
    /// The position the component asks for when it sits at slot `index`.
    fn position(&self, index: usize) -> P;
}

impl<T> Position<()> for T {
    /// Containers that place children by insertion order alone need no
    /// position value, so every component fits them.
    fn position(&self, _index: usize) -> () {
        ()
    }
}

} // verus!
