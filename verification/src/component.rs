//! The component abstraction an application author implements.

use crate::alignment::Alignment;
use crate::background::Background;
use crate::event::Event;
use crate::foreground::Foreground;
use crate::width::Width;
use vstd::prelude::*;

verus! {

/// A custom component of the bar.
///
/// Every hook is optional and has a documented default: no background, no
/// foreground, center alignment, no width restraints, events ignored. The
/// redraw cadence — a period or an application-supplied ping channel — is
/// declared to the executing edge when the component is added; a component
/// that declares none is drawn exactly once and then stays idle.
pub trait Component {
    /// Called first in every redraw cycle; may update the implementor's
    /// state. Returning `false` skips the cycle entirely and saves the
    /// work of drawing the same content again.
    ///
    /// Default: `true`, the component is always redrawn.
    fn update(&mut self) -> bool {
        true
    }

    /// Called for every interaction event routed to this component. The
    /// return value says whether the component wants a redraw now.
    ///
    /// Default: `false`, events are ignored.
    fn event(&mut self, _event: Event) -> bool {
        false
    }

    /// The background of the component.
    ///
    /// Default: no background.
    fn background(&self) -> Background {
        Background::new()
    }

    /// The foreground of the component.
    ///
    /// Default: no foreground.
    fn foreground(&self) -> Foreground {
        Foreground::new()
    }

    /// The alignment bucket of the component.
    ///
    /// Default: center.
    fn alignment(&self) -> Alignment {
        Alignment::CENTER
    }

    /// The width policy of the component.
    ///
    /// Default: no restraints.
    fn width(&self) -> Width {
        Width::new()
    }
}

} // verus!
