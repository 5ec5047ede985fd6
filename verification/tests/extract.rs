use html_form_actions::extract::validate;
use html_form_actions::{
    Action, Declaration, FormField, FormMarker, Function, GenerationError, Parameter, Pattern,
};

fn form(name: &str, rename: Option<&str>, ty: &str) -> Parameter {
    Parameter::Typed {
        form: Some(FormMarker { rename: rename.map(String::from) }),
        pattern: Pattern::Ident(String::from(name)),
        ty: String::from(ty),
    }
}

fn context(name: &str, ty: &str) -> Parameter {
    Parameter::Typed {
        form: None,
        pattern: Pattern::Ident(String::from(name)),
        ty: String::from(ty),
    }
}

fn destructured(ty: &str) -> Parameter {
    Parameter::Typed { form: None, pattern: Pattern::Other, ty: String::from(ty) }
}

fn function(name: &str, action: bool, inputs: Vec<Parameter>) -> Declaration {
    Declaration::Function(Function { ident: String::from(name), action, inputs })
}

fn field(name: &str, rename: Option<&str>, ty: &str) -> FormField {
    FormField {
        ident: String::from(name),
        rename: rename.map(String::from),
        form_name: format!("{name}_name"),
        ty: String::from(ty),
    }
}

#[test]
fn scope_without_functions_has_no_actions() {
    let mut items = vec![Declaration::Other, Declaration::Other];
    assert_eq!(Action::extract(&mut items), Ok(vec![]));
    assert_eq!(items, vec![Declaration::Other, Declaration::Other]);
}

#[test]
fn empty_scope_has_no_actions() {
    let mut items = Vec::new();
    assert_eq!(Action::extract(&mut items), Ok(vec![]));
    assert!(items.is_empty());
}

#[test]
fn form_parameters_become_form_fields() {
    let mut items = vec![function(
        "update_value",
        true,
        vec![form("index", None, "usize"), form("value", Some("x"), "i32")],
    )];
    let actions = Action::extract(&mut items).unwrap();
    assert_eq!(
        actions,
        vec![Action {
            ident: String::from("update_value"),
            form: vec![field("index", None, "usize"), field("value", Some("x"), "i32")],
            other_arguments: vec![],
        }]
    );
    assert_eq!(actions[0].form[0].form_name, "index_name");
    assert_eq!(actions[0].form[1].form_name, "value_name");
}

#[test]
fn unmarked_parameters_become_context_arguments() {
    let mut items = vec![function(
        "add_value",
        true,
        vec![form("value", None, "i32"), context("values", "Values"), context("user", "User")],
    )];
    let actions = Action::extract(&mut items).unwrap();
    assert_eq!(actions.len(), 1);
    assert_eq!(actions[0].form, vec![field("value", None, "i32")]);
    assert_eq!(actions[0].other_arguments, vec!["values", "user"]);
}

#[test]
fn destructuring_context_parameter_gets_a_placeholder_for_its_position() {
    let mut items = vec![function(
        "my_action",
        true,
        vec![
            destructured("State<A>"),
            form("a", None, "i32"),
            destructured("State<AppState>"),
            context("plain", "Plain"),
        ],
    )];
    let actions = Action::extract(&mut items).unwrap();
    assert_eq!(actions[0].other_arguments, vec!["arg_0", "arg_2", "plain"]);
    assert_eq!(actions[0].form, vec![field("a", None, "i32")]);
}

#[test]
fn placeholder_counts_in_decimal() {
    let mut inputs = Vec::new();
    for _ in 0..12 {
        inputs.push(form("a", None, "i32"));
    }
    inputs.push(destructured("T"));
    let mut items = vec![function("wide", true, inputs)];
    let actions = Action::extract(&mut items).unwrap();
    assert_eq!(actions[0].other_arguments, vec!["arg_12"]);
}

#[test]
fn actions_keep_the_order_of_their_functions() {
    let mut items = vec![
        Declaration::Other,
        function("add_value", true, vec![]),
        function("helper", false, vec![context("x", "i32")]),
        function("update_value", true, vec![]),
        Declaration::Other,
        function("remove_value", true, vec![]),
    ];
    let actions = Action::extract(&mut items).unwrap();
    let names: Vec<&str> = actions.iter().map(|action| action.ident.as_str()).collect();
    assert_eq!(names, vec!["add_value", "update_value", "remove_value"]);
}

#[test]
fn markers_are_taken_off_actions_only() {
    let marked_helper = function("helper", false, vec![form("kept", Some("k"), "i32")]);
    let mut items = vec![
        Declaration::Other,
        marked_helper.clone(),
        function("my_action", true, vec![form("a", Some("x"), "i32"), context("s", "S")]),
    ];
    Action::extract(&mut items).unwrap();
    assert_eq!(
        items,
        vec![
            Declaration::Other,
            marked_helper,
            function("my_action", false, vec![context("a", "i32"), context("s", "S")]),
        ]
    );
}

#[test]
fn receiver_of_an_action_is_refused() {
    let mut items = vec![
        Declaration::Other,
        function("my_action", true, vec![form("a", None, "i32"), Parameter::Receiver]),
    ];
    let before = items.clone();
    let error = Action::extract(&mut items).unwrap_err();
    assert_eq!(error, GenerationError::SelfParameterError { declaration: 1, parameter: 1 });
    assert_eq!(error.message(), "\"self\" is not allowed");
    assert_eq!(items, before);
}

#[test]
fn receiver_of_another_function_is_accepted() {
    let mut items = vec![function("method", false, vec![Parameter::Receiver])];
    assert_eq!(Action::extract(&mut items), Ok(vec![]));
    assert_eq!(items, vec![function("method", false, vec![Parameter::Receiver])]);
}

#[test]
fn destructuring_form_parameter_is_refused() {
    let mut items = vec![function(
        "my_action",
        true,
        vec![Parameter::Typed {
            form: Some(FormMarker { rename: None }),
            pattern: Pattern::Other,
            ty: String::from("(i32, i32)"),
        }],
    )];
    let before = items.clone();
    let error = Action::extract(&mut items).unwrap_err();
    assert_eq!(
        error,
        GenerationError::InvalidFormParameterPattern { declaration: 0, parameter: 0 }
    );
    assert_eq!(error.message(), "parameters tagged with #[form] must be identifiers");
    assert_eq!(items, before);
}

#[test]
fn first_mistake_is_the_one_reported() {
    let bad_pattern = Parameter::Typed {
        form: Some(FormMarker { rename: None }),
        pattern: Pattern::Other,
        ty: String::from("T"),
    };
    let mut items = vec![
        function("fine", true, vec![form("a", None, "i32")]),
        function("skipped", false, vec![Parameter::Receiver]),
        function("first", true, vec![context("c", "C"), bad_pattern.clone(), Parameter::Receiver]),
        function("second", true, vec![Parameter::Receiver]),
    ];
    assert_eq!(
        validate(&items),
        Err(GenerationError::InvalidFormParameterPattern { declaration: 2, parameter: 1 })
    );
    assert_eq!(
        Action::extract(&mut items),
        Err(GenerationError::InvalidFormParameterPattern { declaration: 2, parameter: 1 })
    );
}

#[test]
fn valid_scope_passes_validation() {
    let items = vec![
        function("fine", true, vec![form("a", None, "i32"), destructured("S")]),
        function("method", false, vec![Parameter::Receiver]),
    ];
    assert_eq!(validate(&items), Ok(()));
}

#[test]
fn module_without_content_has_its_own_message() {
    assert_eq!(GenerationError::ModuleWithoutContent.message(), "The module must have content");
}
