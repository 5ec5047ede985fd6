use html_form_actions::BuildExt;

fn add_route(routes: Vec<&'static str>) -> Vec<&'static str> {
    let mut routes = routes;
    routes.push("/basic");
    routes
}

#[test]
fn with_applies_the_function_to_the_value() {
    assert_eq!(5.with(|n| n + 1), 6);
}

#[test]
fn with_may_change_the_type() {
    assert_eq!("abc".with(|text| text.len()), 3);
}

#[test]
fn with_chains_builders() {
    let routes = Vec::new().with(add_route).with(add_route);
    assert_eq!(routes, vec!["/basic", "/basic"]);
}
