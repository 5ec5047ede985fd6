//! The dispatcher in the handler style: one free function that the host
//! framework calls with the state it extracted, the raw query and the whole
//! request, and that answers with a response.

use crate::config::{AxumConfig, AxumConfigView};
use crate::dispatcher::{dispatch, dispatch_text, Adapter, AdapterView};
use crate::model::{Action, ActionView};
use vstd::prelude::*;
use vstd::string::*;

verus! {

/// The name of the generated function.
pub open spec fn axum_handler_name(config: AxumConfigView) -> Seq<char> {
    match config.handler {
        Some(name) => name,
        None => "actions_handler"@,
    }
}

/// The source of the parameter by which the host hands over the shared
/// state, where the scope declares one.
pub open spec fn axum_state_argument(state: Option<Seq<char>>) -> Seq<char> {
    match state {
        Some(state) => "axum::extract::State(state): axum::extract::State<"@ + state + ">, "@,
        None => Seq::empty(),
    }
}

/// The source of the state that an action is called with.
pub open spec fn axum_state_value(state: Option<Seq<char>>) -> Seq<char> {
    match state {
        Some(_) => "state"@,
        None => "()"@,
    }
}

/// How the handler-style framework takes part in the dispatcher.
pub open spec fn axum_adapter(state: Option<Seq<char>>) -> AdapterView {
    AdapterView {
        query: "query.as_deref()"@,
        call_open: "Handler::call("@,
        call_close: ", request, "@ + axum_state_value(state) + ").await"@,
        response: ".into_response()"@,
        not_found: "(axum::http::StatusCode::NOT_FOUND, \"Action Not Found\").into_response()"@,
    }
}

/// The source of the handler-style dispatcher.
pub open spec fn axum_handler_text(
    state: Option<Seq<char>>,
    config: AxumConfigView,
    actions: Seq<ActionView>,
) -> Seq<char> {
    "async fn "@ + axum_handler_name(config) + "("@ + axum_state_argument(state)
        + "axum::extract::RawQuery(query): axum::extract::RawQuery, request: axum::extract::Request) -> axum::response::Response {\nuse axum::{extract::Form, handler::Handler, response::IntoResponse};\n"@
        + dispatch_text(actions, axum_adapter(state)) + "}\n"@
}

fn adapter(state: &Option<String>) -> (adapter: Adapter)
    ensures
        adapter@ == axum_adapter(state.deep_view()),
{
    let mut call_close = String::from_str(", request, ");
    match state {
        Some(_) => call_close.append("state"),
        None => call_close.append("()"),
    }
    call_close.append(").await");
    Adapter {
        query: String::from_str("query.as_deref()"),
        call_open: String::from_str("Handler::call("),
        call_close,
        response: String::from_str(".into_response()"),
        not_found: String::from_str(
            "(axum::http::StatusCode::NOT_FOUND, \"Action Not Found\").into_response()",
        ),
    }
}

/// Writes the handler-style dispatcher for `actions`.
///
/// The function is named as `config` asks, `actions_handler` by default.
/// Where the scope declares a shared state, the function takes it from the
/// host before it selects an action and hands it to the action; without one
/// the action is called with the unit value.
pub fn axum_handler(state: &Option<String>, config: &AxumConfig, actions: &Vec<Action>) -> (source:
    String)
    ensures
        source@ == axum_handler_text(state.deep_view(), config@, actions.deep_view()),
{
    let mut source = String::from_str("async fn ");
    match &config.handler {
        Some(name) => source.append(name.as_str()),
        None => source.append("actions_handler"),
    }
    source.append("(");
    if let Some(state) = state {
        let mut argument = String::from_str("axum::extract::State(state): axum::extract::State<");
        argument.append(state.as_str());
        argument.append(">, ");
        source.append(argument.as_str());
    }
    source.append(
        "axum::extract::RawQuery(query): axum::extract::RawQuery, request: axum::extract::Request) -> axum::response::Response {\nuse axum::{extract::Form, handler::Handler, response::IntoResponse};\n",
    );
    let adapter = adapter(state);
    let body = dispatch(actions, &adapter);
    source.append(body.as_str());
    source.append("}\n");
    source
}

} // verus!
