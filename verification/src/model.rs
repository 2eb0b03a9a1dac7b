//! Value types shared by the whole controller: one service as the directory
//! reports it, and the control actions that can be issued against it.

use vstd::prelude::*;

verus! {

/// Ghost image of a [`Service`]: every status string as a sequence of
/// characters, so that contracts can speak about service lists without
/// mentioning the executable `String` type.
pub struct ServiceModel {
    pub name: Seq<char>,
    pub active_state: Seq<char>,
    pub sub_state: Seq<char>,
    pub loaded_state: Seq<char>,
    pub is_user_config: bool,
}

impl ServiceModel {
    /// A service counts as running when the directory reports it both
    /// `active` and `running`.
    pub open spec fn is_running(self) -> bool {
        self.active_state == "active"@ && self.sub_state == "running"@
    }
}

/// The status of one managed service, replaced wholesale on every refresh.
///
/// `name` is the unique key; the three state fields are free-form status
/// strings from the directory; `is_user_config` tells an operator-defined
/// unit apart from a system-wide one.
pub struct Service {
    pub name: String,
    pub active_state: String,
    pub sub_state: String,
    pub loaded_state: String,
    pub is_user_config: bool,
}

impl View for Service {
    type V = ServiceModel;

    open spec fn view(&self) -> ServiceModel {
        ServiceModel {
            name: self.name@,
            active_state: self.active_state@,
            sub_state: self.sub_state@,
            loaded_state: self.loaded_state@,
            is_user_config: self.is_user_config,
        }
    }
}

impl DeepView for Service {
    type V = ServiceModel;

    open spec fn deep_view(&self) -> ServiceModel {
        self.view()
    }
}

impl Clone for Service {
    fn clone(&self) -> (r: Self)
        ensures
            r == *self,
    {
        Service {
            name: self.name.clone(),
            active_state: self.active_state.clone(),
            sub_state: self.sub_state.clone(),
            loaded_state: self.loaded_state.clone(),
            is_user_config: self.is_user_config,
        }
    }
}

impl Service {
    pub fn is_running(&self) -> (r: bool)
        ensures
            r == self@.is_running(),
    {
        let active = "active".to_string();
        let running = "running".to_string();
        self.active_state == active && self.sub_state == running
    }
}

/// A control action the operator can issue against a service.
#[derive(Clone, Copy, PartialEq, Eq, Structural, Debug)]
pub enum ServiceAction {
    Start,
    Stop,
    Restart,
}

} // verus!
