//! The dispatcher for the embedded framework: a type without data that
//! serves requests. The host hands it the state, the values that it took
//! from the path of the request, the request and the writer of the response.

use crate::config::{PicoserveConfig, PicoserveConfigView};
use crate::dispatcher::{dispatch, dispatch_text, Adapter, AdapterView};
use crate::emit::{join_terminated, terminated};
use crate::model::{Action, ActionView};
use crate::text::{decimal, decimal_text};
use vstd::prelude::*;
use vstd::string::*;

verus! {

/// The name of the generated type.
pub open spec fn picoserve_handler_name(config: PicoserveConfigView) -> Seq<char> {
    match config.handler {
        Some(name) => name,
        None => "ActionsHandler"@,
    }
}

/// The name that binds the value taken from the path at `position`.
pub open spec fn path_parameter_name(position: nat) -> Seq<char> {
    "path_parameter_"@ + decimal(position)
}

/// The names that bind the values taken from the path, one for each of
/// `count` path parameters.
pub open spec fn path_parameter_names(count: nat) -> Seq<Seq<char>> {
    Seq::new(count, |position: int| path_parameter_name(position as nat))
}

/// The source that hands the values taken from the path on to an action, in
/// the host's form for none, for one, and for more than one.
pub open spec fn path_parameter_list(names: Seq<Seq<char>>) -> Seq<char> {
    if names.len() == 0 {
        "picoserve::routing::NoPathParameters"@
    } else if names.len() == 1 {
        "picoserve::routing::OnePathParameter("@ + names[0] + ")"@
    } else {
        "picoserve::routing::ManyPathParameters(("@ + terminated(names, ", "@) + "))"@
    }
}

/// The source of the type parameter that stands for the state where the
/// scope declares none.
pub open spec fn state_generics(state: Option<Seq<char>>) -> Seq<char> {
    match state {
        Some(_) => Seq::empty(),
        None => "<State>"@,
    }
}

/// The source of the type of the state: the one that the scope declares, or
/// the type parameter.
pub open spec fn state_type(state: Option<Seq<char>>) -> Seq<char> {
    match state {
        Some(state) => state,
        None => "State"@,
    }
}

/// How the embedded framework takes part in the dispatcher, with the given
/// names for the values taken from the path.
pub open spec fn picoserve_adapter(names: Seq<Seq<char>>) -> AdapterView {
    AdapterView {
        query: "request.parts.query().map(|query| query.0)"@,
        call_open: "picoserve::routing::RequestHandlerFunction::call_handler_func(&"@,
        call_close: ", state, "@ + path_parameter_list(names) + ", request, response_writer).await"@,
        response: Seq::empty(),
        not_found: "(picoserve::response::StatusCode::NOT_FOUND, \"Action Not Found\").write_to(request.body_connection.finalize().await?, response_writer).await"@,
    }
}

/// The source of the generated type.
pub open spec fn picoserve_service_text(config: PicoserveConfigView) -> Seq<char> {
    "struct "@ + picoserve_handler_name(config) + ";\n"@
}

/// The source that makes the generated type serve requests.
pub open spec fn picoserve_implementation_text(
    state: Option<Seq<char>>,
    config: PicoserveConfigView,
    actions: Seq<ActionView>,
) -> Seq<char> {
    let names = path_parameter_names(config.path_parameters.len());
    "impl"@ + state_generics(state) + " picoserve::routing::RequestHandlerService<"@ + state_type(
        state,
    ) + ", ("@ + terminated(config.path_parameters, ", "@) + ")> for "@ + picoserve_handler_name(
        config,
    )
        + " {\nasync fn call_request_handler_service<R: picoserve::io::Read, W: picoserve::response::ResponseWriter<Error = R::Error>>(&self, state: &"@
        + state_type(state) + ", ("@ + terminated(names, ", "@) + "): ("@ + terminated(
        config.path_parameters,
        ", "@,
    )
        + "), request: picoserve::request::Request<'_, R>, response_writer: W) -> Result<picoserve::ResponseSent, W::Error> {\nuse picoserve::{extract::Form, response::IntoResponse};\n"@
        + dispatch_text(actions, picoserve_adapter(names)) + "}\n}\n"@
}

fn name_list(count: usize) -> (names: Vec<String>)
    ensures
        names.deep_view() == path_parameter_names(count as nat),
{
    let mut names: Vec<String> = Vec::new();
    let mut position: usize = 0;
    while position < count
        invariant
            position <= count,
            names.deep_view() == path_parameter_names(position as nat),
        decreases count - position,
    {
        let ghost before = names.deep_view();
        let mut name = String::from_str("path_parameter_");
        let number = decimal_text(position);
        name.append(number.as_str());
        names.push(name);
        assert(names.deep_view() =~= before.push(path_parameter_name(position as nat)));
        position = position + 1;
    }
    names
}

fn parameter_list(names: &Vec<String>) -> (source: String)
    ensures
        source@ == path_parameter_list(names.deep_view()),
{
    if names.len() == 0 {
        String::from_str("picoserve::routing::NoPathParameters")
    } else if names.len() == 1 {
        let mut source = String::from_str("picoserve::routing::OnePathParameter(");
        source.append(names[0].as_str());
        source.append(")");
        source
    } else {
        let mut source = String::from_str("picoserve::routing::ManyPathParameters((");
        let listed = join_terminated(names, ", ");
        source.append(listed.as_str());
        source.append("))");
        source
    }
}

fn adapter(names: &Vec<String>) -> (adapter: Adapter)
    ensures
        adapter@ == picoserve_adapter(names.deep_view()),
{
    let mut call_close = String::from_str(", state, ");
    let list = parameter_list(names);
    call_close.append(list.as_str());
    call_close.append(", request, response_writer).await");
    Adapter {
        query: String::from_str("request.parts.query().map(|query| query.0)"),
        call_open: String::from_str(
            "picoserve::routing::RequestHandlerFunction::call_handler_func(&",
        ),
        call_close,
        response: String::new(),
        not_found: String::from_str(
            "(picoserve::response::StatusCode::NOT_FOUND, \"Action Not Found\").write_to(request.body_connection.finalize().await?, response_writer).await",
        ),
    }
}

fn handler_name(config: &PicoserveConfig) -> (name: String)
    ensures
        name@ == picoserve_handler_name(config@),
{
    match &config.handler {
        Some(name) => name.clone(),
        None => String::from_str("ActionsHandler"),
    }
}

fn state_name(state: &Option<String>) -> (name: String)
    ensures
        name@ == state_type(state.deep_view()),
{
    match state {
        Some(state) => state.clone(),
        None => String::from_str("State"),
    }
}

/// Writes the dispatcher for the embedded framework: the declaration of the
/// type, and the implementation that makes it serve requests.
///
/// The type is named as `config` asks, `ActionsHandler` by default. Where
/// the scope declares no shared state, the implementation holds for every
/// type of state. The values that the host takes from the path reach every
/// action, whether there are none, one or more of them.
pub fn picoserve_handler(
    state: &Option<String>,
    config: &PicoserveConfig,
    actions: &Vec<Action>,
) -> (sources: (String, String))
    ensures
        sources.0@ == picoserve_service_text(config@),
        sources.1@ == picoserve_implementation_text(
            state.deep_view(),
            config@,
            actions.deep_view(),
        ),
{
    let handler = handler_name(config);
    let mut service = String::from_str("struct ");
    service.append(handler.as_str());
    service.append(";\n");

    let state_name = state_name(state);
    let names = name_list(config.path_parameters.len());
    let types = join_terminated(&config.path_parameters, ", ");
    let bound = join_terminated(&names, ", ");
    let mut implementation = String::from_str("impl");
    if state.is_none() {
        implementation.append("<State>");
    }
    implementation.append(" picoserve::routing::RequestHandlerService<");
    implementation.append(state_name.as_str());
    implementation.append(", (");
    implementation.append(types.as_str());
    implementation.append(")> for ");
    implementation.append(handler.as_str());
    implementation.append(
        " {\nasync fn call_request_handler_service<R: picoserve::io::Read, W: picoserve::response::ResponseWriter<Error = R::Error>>(&self, state: &",
    );
    implementation.append(state_name.as_str());
    implementation.append(", (");
    implementation.append(bound.as_str());
    implementation.append("): (");
    implementation.append(types.as_str());
    implementation.append(
        "), request: picoserve::request::Request<'_, R>, response_writer: W) -> Result<picoserve::ResponseSent, W::Error> {\nuse picoserve::{extract::Form, response::IntoResponse};\n",
    );
    let adapter = adapter(&names);
    let body = dispatch(actions, &adapter);
    implementation.append(body.as_str());
    implementation.append("}\n}\n");
    (service, implementation)
}

} // verus!
