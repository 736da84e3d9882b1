//! What the navigator does on an event.

use vstd::prelude::*;
use crate::model::app_state::{AppState, AppStateView};

verus! {

/// An event, as far as the navigator tells events apart.
#[derive(Clone, Copy, Debug, PartialEq, Eq, Structural)]
pub enum NavigatorEvent {
    /// The command to close the view that is shown.
    PopView,
    /// Any other event.
    Other,
}

/// Handles events for the navigator.
#[derive(Clone, Copy, Debug)]
pub struct NavigatorController;

impl NavigatorController {
    /// On the command to close a view, the view that is shown is closed and
    /// an update is asked for; any other event changes nothing. Returns
    /// whether an update is asked for.
    pub fn event(&self, event: NavigatorEvent, data: &mut AppState) -> (request_update: bool)
        ensures
            request_update == (event == NavigatorEvent::PopView),
            final(data)@ == if event == NavigatorEvent::PopView {
                AppStateView {
                    nav_state: if old(data)@.nav_state.len() > 0 {
                        old(data)@.nav_state.drop_last()
                    } else {
                        old(data)@.nav_state
                    },
                    ..old(data)@
                }
            } else {
                old(data)@
            },
    {
        match event {
            NavigatorEvent::PopView => {
                data.pop_view();
                true
            },
            NavigatorEvent::Other => false,
        }
    }
}

} // verus!
