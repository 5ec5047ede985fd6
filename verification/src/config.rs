//! What the author of a scope asks the generator for.

use vstd::prelude::*;

verus! {

/// The request for a dispatcher in the handler style: one free function.
#[derive(Clone, Debug, Default, PartialEq, Eq)]
pub struct AxumConfig {
    /// The name of the generated function; `actions_handler` where none is
    /// given.
    pub handler: Option<String>,
}

/// The request for a dispatcher for the embedded framework: one type
/// without data that serves requests.
#[derive(Clone, Debug, Default, PartialEq, Eq)]
pub struct PicoserveConfig {
    /// The types of the values that the host takes from the path of the
    /// request, in order, each as source text.
    pub path_parameters: Vec<String>,
    /// The name of the generated type; `ActionsHandler` where none is given.
    pub handler: Option<String>,
}

/// The configuration of a scope.
#[derive(Clone, Debug, Default, PartialEq, Eq)]
pub struct ScopeConfig {
    /// The type of the state that the actions share, as source text.
    pub state: Option<String>,
    /// Whether, and how, to generate the handler-style dispatcher.
    pub axum: Option<AxumConfig>,
    /// Whether, and how, to generate the dispatcher for the embedded
    /// framework.
    pub picoserve: Option<PicoserveConfig>,
}

/// What [`AxumConfig`] holds.
pub struct AxumConfigView {
    pub handler: Option<Seq<char>>,
}

/// What [`PicoserveConfig`] holds.
pub struct PicoserveConfigView {
    pub path_parameters: Seq<Seq<char>>,
    pub handler: Option<Seq<char>>,
}

/// What [`ScopeConfig`] holds.
pub struct ScopeConfigView {
    pub state: Option<Seq<char>>,
    pub axum: Option<AxumConfigView>,
    pub picoserve: Option<PicoserveConfigView>,
}

impl View for AxumConfig {
    type V = AxumConfigView;

    open spec fn view(&self) -> AxumConfigView {
        AxumConfigView { handler: self.handler.deep_view() }
    }
}

impl DeepView for AxumConfig {
    type V = AxumConfigView;

    open spec fn deep_view(&self) -> AxumConfigView {
        self@
    }
}

impl View for PicoserveConfig {
    type V = PicoserveConfigView;

    open spec fn view(&self) -> PicoserveConfigView {
        PicoserveConfigView {
            path_parameters: self.path_parameters.deep_view(),
            handler: self.handler.deep_view(),
        }
    }
}

impl DeepView for PicoserveConfig {
    type V = PicoserveConfigView;

    open spec fn deep_view(&self) -> PicoserveConfigView {
        self@
    }
}

impl View for ScopeConfig {
    type V = ScopeConfigView;

    open spec fn view(&self) -> ScopeConfigView {
        ScopeConfigView {
            state: self.state.deep_view(),
            axum: self.axum.deep_view(),
            picoserve: self.picoserve.deep_view(),
        }
    }
}

impl DeepView for ScopeConfig {
    type V = ScopeConfigView;

    open spec fn deep_view(&self) -> ScopeConfigView {
        self@
    }
}

} // verus!
