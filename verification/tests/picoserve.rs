use html_form_actions::{
    picoserve_handler, try_actions, Action, BuildExt, Declaration, FormField, FormMarker, Function,
    Item, Module, Parameter, Pattern, PicoserveConfig, ScopeConfig,
};

fn function(name: &str, action: bool, inputs: Vec<Parameter>) -> Declaration {
    Declaration::Function(Function { ident: String::from(name), action, inputs })
}

fn page() -> Module {
    Module {
        ident: String::from("page"),
        content: Some(vec![
            Declaration::Other,
            function("page_handler", false, vec![]),
            function(
                "my_action",
                true,
                vec![Parameter::Typed {
                    form: Some(FormMarker { rename: None }),
                    pattern: Pattern::Ident(String::from("a")),
                    ty: String::from("i32"),
                }],
            ),
            function(
                "route",
                false,
                vec![Parameter::Typed {
                    form: None,
                    pattern: Pattern::Ident(String::from("router")),
                    ty: String::from("picoserve::Router<R>"),
                }],
            ),
        ]),
    }
}

fn my_action() -> Action {
    Action {
        ident: String::from("my_action"),
        form: vec![FormField {
            ident: String::from("a"),
            rename: None,
            form_name: String::from("a_name"),
            ty: String::from("i32"),
        }],
        other_arguments: vec![],
    }
}

fn config(path_parameters: &[&str], handler: Option<&str>) -> PicoserveConfig {
    PicoserveConfig {
        path_parameters: path_parameters.iter().map(|ty| String::from(*ty)).collect(),
        handler: handler.map(String::from),
    }
}

const NOT_FOUND: &str = "_ => (picoserve::response::StatusCode::NOT_FOUND, \"Action Not Found\")\
    .write_to(request.body_connection.finalize().await?, response_writer).await,\n";

const SIGNATURE: &str = "async fn call_request_handler_service<R: picoserve::io::Read, \
    W: picoserve::response::ResponseWriter<Error = R::Error>>";

const RESULT: &str = "request: picoserve::request::Request<'_, R>, response_writer: W) \
    -> Result<picoserve::ResponseSent, W::Error> {\n\
    use picoserve::{extract::Form, response::IntoResponse};\n";

#[test]
fn picoserve_basic() {
    let scope = ScopeConfig { state: None, axum: None, picoserve: Some(config(&[], None)) };
    let generated = page().with(|module| try_actions(&scope, module)).unwrap();
    assert_eq!(generated.ident, "page");
    assert_eq!(generated.items.len(), 7);
    assert_eq!(
        generated.items[4],
        Item::Metadata(String::from(
            "mod my_action {\n\
             pub(super) struct Form {\n\
             pub(super) action: &'static str,\n\
             pub(super) a_name: &'static str,\n\
             }\n\
             pub(super) const FORM: Form = Form {\n\
             action: \"?/my_action\",\n\
             a_name: \"a\",\n\
             };\n\
             }\n"
        ))
    );
    assert_eq!(generated.items[5], Item::PicoserveService(String::from("struct ActionsHandler;\n")));
    let implementation = match &generated.items[6] {
        Item::PicoserveImplementation(source) => source,
        other => panic!("not the implementation: {other:?}"),
    };
    let expected = format!(
        "impl<State> picoserve::routing::RequestHandlerService<State, ()> for ActionsHandler {{\n\
         {SIGNATURE}(&self, state: &State, (): (), {RESULT}\
         match html_form_actions::select_action(request.parts.query().map(|query| query.0), \
         &[\"/my_action\", ]) {{\n\
         Some(0usize) => {{\n\
         #[derive(serde::Deserialize)]\n\
         struct Form {{\n\
         a: i32,\n\
         }}\n\
         picoserve::routing::RequestHandlerFunction::call_handler_func(\
         &|Form(Form {{ a, }})| async move {{ my_action(a, ).await }}, state, \
         picoserve::routing::NoPathParameters, request, response_writer).await\n\
         }}\n\
         {NOT_FOUND}\
         }}\n\
         }}\n\
         }}\n"
    );
    assert_eq!(*implementation, expected);
    let parsed: syn::ItemImpl = syn::parse_str(implementation).unwrap();
    assert_eq!(parsed.generics.params.len(), 1);
    assert_eq!(parsed.items.len(), 1);
    let service: syn::ItemStruct = syn::parse_str("struct ActionsHandler;\n").unwrap();
    assert_eq!(service.ident, "ActionsHandler");
}

#[test]
fn picoserve_named_handler() {
    let scope = ScopeConfig {
        state: None,
        axum: None,
        picoserve: Some(config(&[], Some("NamedActionsHandler"))),
    };
    let generated = try_actions(&scope, page()).unwrap();
    assert_eq!(
        generated.items[5],
        Item::PicoserveService(String::from("struct NamedActionsHandler;\n"))
    );
    let implementation = match &generated.items[6] {
        Item::PicoserveImplementation(source) => source,
        other => panic!("not the implementation: {other:?}"),
    };
    assert!(implementation.starts_with(
        "impl<State> picoserve::routing::RequestHandlerService<State, ()> for NamedActionsHandler {"
    ));
    let parsed: syn::ItemImpl = syn::parse_str(implementation).unwrap();
    let named = match parsed.self_ty.as_ref() {
        syn::Type::Path(path) => path.path.is_ident("NamedActionsHandler"),
        _ => false,
    };
    assert!(named);
}

#[test]
fn declared_state_takes_the_place_of_the_type_parameter() {
    let (_, implementation) =
        picoserve_handler(&Some(String::from("AppState")), &config(&[], None), &vec![my_action()]);
    assert!(implementation.starts_with(
        "impl picoserve::routing::RequestHandlerService<AppState, ()> for ActionsHandler {"
    ));
    assert!(implementation.contains("(&self, state: &AppState, (): (), request:"));
    let parsed: syn::ItemImpl = syn::parse_str(&implementation).unwrap();
    assert_eq!(parsed.generics.params.len(), 0);
}

#[test]
fn one_path_parameter_reaches_the_action_alone() {
    let (_, implementation) = picoserve_handler(&None, &config(&["u32"], None), &vec![my_action()]);
    assert!(implementation.starts_with(
        "impl<State> picoserve::routing::RequestHandlerService<State, (u32, )> for ActionsHandler {"
    ));
    assert!(implementation.contains("state: &State, (path_parameter_0, ): (u32, ), request:"));
    assert!(implementation.contains(
        ", state, picoserve::routing::OnePathParameter(path_parameter_0), request, response_writer)"
    ));
    let parsed: syn::ItemImpl = syn::parse_str(&implementation).unwrap();
    assert_eq!(parsed.items.len(), 1);
}

#[test]
fn several_path_parameters_reach_the_action_as_a_tuple() {
    let (_, implementation) =
        picoserve_handler(&None, &config(&["u32", "String", "bool"], None), &vec![my_action()]);
    assert!(implementation.contains(
        "state: &State, (path_parameter_0, path_parameter_1, path_parameter_2, ): \
         (u32, String, bool, ), request:"
    ));
    assert!(implementation.contains(
        ", state, picoserve::routing::ManyPathParameters((path_parameter_0, path_parameter_1, \
         path_parameter_2, )), request, response_writer)"
    ));
    let parsed: syn::ItemImpl = syn::parse_str(&implementation).unwrap();
    assert_eq!(parsed.items.len(), 1);
}

#[test]
fn service_of_a_scope_without_actions_only_answers_not_found() {
    let (service, implementation) = picoserve_handler(&None, &config(&[], None), &Vec::new());
    assert_eq!(service, "struct ActionsHandler;\n");
    let expected = format!(
        "impl<State> picoserve::routing::RequestHandlerService<State, ()> for ActionsHandler {{\n\
         {SIGNATURE}(&self, state: &State, (): (), {RESULT}\
         match html_form_actions::select_action(request.parts.query().map(|query| query.0), \
         &[]) {{\n\
         {NOT_FOUND}\
         }}\n\
         }}\n\
         }}\n"
    );
    assert_eq!(implementation, expected);
    let parsed: syn::ItemImpl = syn::parse_str(&implementation).unwrap();
    assert_eq!(parsed.items.len(), 1);
}
