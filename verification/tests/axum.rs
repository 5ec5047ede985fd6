use html_form_actions::dispatcher::{action_call, dispatch, routes_array};
use html_form_actions::{
    axum_handler, try_actions, Action, Adapter, AxumConfig, BuildExt, Declaration, FormField,
    FormMarker, Function, Item, Module, Parameter, Pattern, ScopeConfig,
};

fn form(name: &str, ty: &str) -> Parameter {
    Parameter::Typed {
        form: Some(FormMarker { rename: None }),
        pattern: Pattern::Ident(String::from(name)),
        ty: String::from(ty),
    }
}

fn function(name: &str, action: bool, inputs: Vec<Parameter>) -> Declaration {
    Declaration::Function(Function { ident: String::from(name), action, inputs })
}

fn page(my_action: Declaration, router: &str) -> Module {
    Module {
        ident: String::from("page"),
        content: Some(vec![
            Declaration::Other,
            Declaration::Other,
            Declaration::Other,
            function("page_handler", false, vec![]),
            my_action,
            function(
                "route",
                false,
                vec![Parameter::Typed {
                    form: None,
                    pattern: Pattern::Ident(String::from("router")),
                    ty: String::from(router),
                }],
            ),
        ]),
    }
}

fn metadata_of_my_action() -> &'static str {
    "mod my_action {\n\
     pub(super) struct Form {\n\
     pub(super) action: &'static str,\n\
     pub(super) a_name: &'static str,\n\
     }\n\
     pub(super) const FORM: Form = Form {\n\
     action: \"?/my_action\",\n\
     a_name: \"a\",\n\
     };\n\
     }\n"
}

fn field(name: &str, rename: Option<&str>, ty: &str) -> FormField {
    FormField {
        ident: String::from(name),
        rename: rename.map(String::from),
        form_name: format!("{name}_name"),
        ty: String::from(ty),
    }
}

fn action(name: &str, form: Vec<FormField>, others: &[&str]) -> Action {
    Action {
        ident: String::from(name),
        form,
        other_arguments: others.iter().map(|other| String::from(*other)).collect(),
    }
}

fn handler_of(generated: &[Item]) -> &str {
    let handlers: Vec<&str> = generated
        .iter()
        .filter_map(|item| match item {
            Item::AxumHandler(source) => Some(source.as_str()),
            _ => None,
        })
        .collect();
    assert_eq!(handlers.len(), 1);
    handlers[0]
}

#[test]
fn axum_basic() {
    let config =
        ScopeConfig { state: None, axum: Some(AxumConfig { handler: None }), picoserve: None };
    let module = page(function("my_action", true, vec![form("a", "i32")]), "axum::Router");
    let generated = module.with(|module| try_actions(&config, module)).unwrap();
    assert_eq!(generated.ident, "page");
    assert_eq!(generated.items.len(), 8);
    assert_eq!(
        generated.items[4],
        Item::Declared(function(
            "my_action",
            false,
            vec![Parameter::Typed {
                form: None,
                pattern: Pattern::Ident(String::from("a")),
                ty: String::from("i32"),
            }]
        ))
    );
    assert_eq!(generated.items[6], Item::Metadata(String::from(metadata_of_my_action())));
    let handler = handler_of(&generated.items);
    assert_eq!(
        handler,
        "async fn actions_handler(axum::extract::RawQuery(query): axum::extract::RawQuery, \
         request: axum::extract::Request) -> axum::response::Response {\n\
         use axum::{extract::Form, handler::Handler, response::IntoResponse};\n\
         match html_form_actions::select_action(query.as_deref(), &[\"/my_action\", ]) {\n\
         Some(0usize) => {\n\
         #[derive(serde::Deserialize)]\n\
         struct Form {\n\
         a: i32,\n\
         }\n\
         Handler::call(|Form(Form { a, })| async move { my_action(a, ).await.into_response() }, \
         request, ()).await\n\
         }\n\
         _ => (axum::http::StatusCode::NOT_FOUND, \"Action Not Found\").into_response(),\n\
         }\n\
         }\n"
    );
    let parsed: syn::ItemFn = syn::parse_str(handler).unwrap();
    assert_eq!(parsed.sig.ident, "actions_handler");
    assert!(parsed.sig.asyncness.is_some());
    assert_eq!(parsed.sig.inputs.len(), 2);
}

#[test]
fn state() {
    let config = ScopeConfig {
        state: Some(String::from("AppState")),
        axum: Some(AxumConfig { handler: None }),
        picoserve: None,
    };
    let my_action = function(
        "my_action",
        true,
        vec![
            form("a", "i32"),
            Parameter::Typed {
                form: None,
                pattern: Pattern::Other,
                ty: String::from("State<AppState>"),
            },
        ],
    );
    let generated = try_actions(&config, page(my_action, "axum::Router<AppState>")).unwrap();
    assert_eq!(generated.items.len(), 8);
    assert_eq!(generated.items[6], Item::Metadata(String::from(metadata_of_my_action())));
    let handler = handler_of(&generated.items);
    assert_eq!(
        handler,
        "async fn actions_handler(axum::extract::State(state): axum::extract::State<AppState>, \
         axum::extract::RawQuery(query): axum::extract::RawQuery, \
         request: axum::extract::Request) -> axum::response::Response {\n\
         use axum::{extract::Form, handler::Handler, response::IntoResponse};\n\
         match html_form_actions::select_action(query.as_deref(), &[\"/my_action\", ]) {\n\
         Some(0usize) => {\n\
         #[derive(serde::Deserialize)]\n\
         struct Form {\n\
         a: i32,\n\
         }\n\
         Handler::call(|arg_1, Form(Form { a, })| async move { \
         my_action(a, arg_1, ).await.into_response() }, request, state).await\n\
         }\n\
         _ => (axum::http::StatusCode::NOT_FOUND, \"Action Not Found\").into_response(),\n\
         }\n\
         }\n"
    );
    let parsed: syn::ItemFn = syn::parse_str(handler).unwrap();
    assert_eq!(parsed.sig.inputs.len(), 3);
}

#[test]
fn axum_named_handler() {
    let config = ScopeConfig {
        state: None,
        axum: Some(AxumConfig { handler: Some(String::from("named_actions_handler")) }),
        picoserve: None,
    };
    let module = page(function("my_action", true, vec![form("a", "i32")]), "axum::Router");
    let generated = try_actions(&config, module).unwrap();
    assert_eq!(generated.items[6], Item::Metadata(String::from(metadata_of_my_action())));
    let handler = handler_of(&generated.items);
    assert!(handler.starts_with("async fn named_actions_handler(axum::extract::RawQuery(query)"));
    let parsed: syn::ItemFn = syn::parse_str(handler).unwrap();
    assert_eq!(parsed.sig.ident, "named_actions_handler");
}

#[test]
fn handler_of_a_scope_without_actions_only_answers_not_found() {
    let source = axum_handler(&None, &AxumConfig::default(), &Vec::new());
    assert_eq!(
        source,
        "async fn actions_handler(axum::extract::RawQuery(query): axum::extract::RawQuery, \
         request: axum::extract::Request) -> axum::response::Response {\n\
         use axum::{extract::Form, handler::Handler, response::IntoResponse};\n\
         match html_form_actions::select_action(query.as_deref(), &[]) {\n\
         _ => (axum::http::StatusCode::NOT_FOUND, \"Action Not Found\").into_response(),\n\
         }\n\
         }\n"
    );
    let parsed: syn::ItemFn = syn::parse_str(&source).unwrap();
    let matched = match parsed.block.stmts.last().unwrap() {
        syn::Stmt::Expr(syn::Expr::Match(matched), _) => matched,
        other => panic!("not a match: {other:?}"),
    };
    assert_eq!(matched.arms.len(), 1);
}

#[test]
fn handler_has_one_branch_for_each_action_in_declared_order() {
    let actions = vec![
        action("add_value", vec![field("value", None, "i32")], &["values"]),
        action(
            "update_value",
            vec![field("index", None, "usize"), field("value", Some("x"), "i32")],
            &["values"],
        ),
        action("remove_value", vec![field("index", None, "usize")], &["values"]),
    ];
    let source = axum_handler(&Some(String::from("AppState")), &AxumConfig::default(), &actions);
    let parsed: syn::ItemFn = syn::parse_str(&source).unwrap();
    let matched = match parsed.block.stmts.last().unwrap() {
        syn::Stmt::Expr(syn::Expr::Match(matched), _) => matched,
        other => panic!("not a match: {other:?}"),
    };
    assert_eq!(matched.arms.len(), 4);
    let add = source.find("add_value(value, values, )").unwrap();
    let update = source.find("update_value(index, value, values, )").unwrap();
    let remove = source.find("remove_value(index, values, )").unwrap();
    assert!(add < update && update < remove);
    assert!(source.contains("&[\"/add_value\", \"/update_value\", \"/remove_value\", ]"));
    assert!(source.contains("Some(2usize) => {"));
}

#[test]
fn call_hands_over_form_fields_first_and_context_arguments_after() {
    let action = action(
        "update_value",
        vec![field("index", None, "usize"), field("value", Some("x"), "i32")],
        &["values", "arg_3"],
    );
    assert_eq!(
        action_call(&action, ".into_response()"),
        "|values, arg_3, Form(Form { index, value, })| async move { \
         update_value(index, value, values, arg_3, ).await.into_response() }"
    );
    assert_eq!(
        action_call(&action, ""),
        "|values, arg_3, Form(Form { index, value, })| async move { \
         update_value(index, value, values, arg_3, ).await }"
    );
}

#[test]
fn routes_are_listed_as_string_literals() {
    assert_eq!(routes_array(&Vec::new()), "&[]");
    let actions = vec![action("a", vec![], &[]), action("b", vec![], &[])];
    assert_eq!(routes_array(&actions), "&[\"/a\", \"/b\", ]");
}

#[test]
fn dispatch_is_written_around_the_pieces_of_the_host() {
    let adapter = Adapter {
        query: String::from("QUERY"),
        call_open: String::from("OPEN("),
        call_close: String::from(")CLOSE"),
        response: String::from(".respond()"),
        not_found: String::from("MISSING"),
    };
    let actions = vec![action("ping", vec![], &[])];
    assert_eq!(
        dispatch(&actions, &adapter),
        "match html_form_actions::select_action(QUERY, &[\"/ping\", ]) {\n\
         Some(0usize) => {\n\
         #[derive(serde::Deserialize)]\n\
         struct Form {\n\
         }\n\
         OPEN(|Form(Form { })| async move { ping().await.respond() })CLOSE\n\
         }\n\
         _ => MISSING,\n\
         }\n"
    );
}
