//! The dispatcher that is generated for a scope, as far as every host
//! framework shares it: the request's action key is resolved and compared
//! with the action key of each action in declared order, the form of the
//! first action that matches is decoded and the action called, and a
//! request that matches none is answered as not found. What differs between
//! the host frameworks reaches this core through an [`Adapter`].

use crate::descriptor::{descriptor_of, route_match_of, struct_declaration_text};
use crate::dispatch::selection;
use crate::emit::{concat_all, join_terminated, joined, terminated};
use crate::model::{Action, ActionView, FormFieldView};
use crate::resolver::action_key;
use crate::text::{
    decimal,
    decimal_text,
    lemma_literal_denotes_text,
    literal_value,
    string_literal,
    string_literal_text,
};
use vstd::prelude::*;
use vstd::string::*;

verus! {

/// The pieces of source by which a host framework takes part in a
/// dispatcher.
#[derive(Clone, Debug, PartialEq, Eq)]
pub struct Adapter {
    /// The expression that yields the raw query of the request.
    pub query: String,
    /// What stands before the call of an action: the host's way to decode
    /// the form and hand it over.
    pub call_open: String,
    /// What stands behind the call of an action: the values that the host
    /// supplies, and the end of the call.
    pub call_close: String,
    /// What turns the result of an action into the host's response.
    pub response: String,
    /// The expression that answers a request for no known action.
    pub not_found: String,
}

/// What [`Adapter`] holds.
pub struct AdapterView {
    pub query: Seq<char>,
    pub call_open: Seq<char>,
    pub call_close: Seq<char>,
    pub response: Seq<char>,
    pub not_found: Seq<char>,
}

impl View for Adapter {
    type V = AdapterView;

    open spec fn view(&self) -> AdapterView {
        AdapterView {
            query: self.query@,
            call_open: self.call_open@,
            call_close: self.call_close@,
            response: self.response@,
            not_found: self.not_found@,
        }
    }
}

impl DeepView for Adapter {
    type V = AdapterView;

    open spec fn deep_view(&self) -> AdapterView {
        self@
    }
}

/// The names that the form fields bind, in declared order.
pub open spec fn field_idents(form: Seq<FormFieldView>) -> Seq<Seq<char>> {
    form.map_values(|field: FormFieldView| field.ident)
}

/// The arguments with which an action is called: the values of its form
/// fields first, then its context arguments, each group in declared order.
pub open spec fn call_arguments(action: ActionView) -> Seq<Seq<char>> {
    field_idents(action.form) + action.other_arguments
}

/// The action keys of the actions, in declared order.
pub open spec fn route_keys(actions: Seq<ActionView>) -> Seq<Seq<char>> {
    actions.map_values(|action: ActionView| route_match_of(action.ident))
}

/// The action key of each action as a string literal.
pub open spec fn route_literals(actions: Seq<ActionView>) -> Seq<Seq<char>> {
    actions.map_values(|action: ActionView| string_literal(route_match_of(action.ident)))
}

/// The source of the list of action keys that the dispatcher selects from.
pub open spec fn routes_text(actions: Seq<ActionView>) -> Seq<char> {
    "&["@ + terminated(route_literals(actions), ", "@) + "]"@
}

/// The source of the call of an action: a function that takes the context
/// arguments and then the decoded form, calls the action and turns its
/// result into a response.
pub open spec fn action_call_text(action: ActionView, response: Seq<char>) -> Seq<char> {
    "|"@ + terminated(action.other_arguments, ", "@) + "Form(Form { "@ + terminated(
        field_idents(action.form),
        ", "@,
    ) + "})| async move { "@ + action.ident + "("@ + terminated(call_arguments(action), ", "@)
        + ").await"@ + response + " }"@
}

/// The source of the branch for the action at `position`: the decode
/// structure of its form, and its call in the host's wrapping.
pub open spec fn branch_text(action: ActionView, position: nat, adapter: AdapterView) -> Seq<char> {
    "Some("@ + decimal(position) + "usize) => {\n"@ + struct_declaration_text(
        descriptor_of(action).fields,
    ) + adapter.call_open + action_call_text(action, adapter.response) + adapter.call_close
        + "\n}\n"@
}

/// The source of the branch of each action, in declared order.
pub open spec fn branches(actions: Seq<ActionView>, adapter: AdapterView) -> Seq<Seq<char>> {
    Seq::new(actions.len(), |position: int| branch_text(actions[position], position as nat, adapter))
}

/// The source of the dispatch: the selection among the action keys, one
/// branch for each action, and the answer for a request that selects none.
pub open spec fn dispatch_text(actions: Seq<ActionView>, adapter: AdapterView) -> Seq<char> {
    "match html_form_actions::select_action("@ + adapter.query + ", "@ + routes_text(actions)
        + ") {\n"@ + joined(branches(actions, adapter)) + "_ => "@ + adapter.not_found + ",\n}\n"@
}

/// The list of action keys in the generated source is the list that the
/// selection is stated over: it has one entry for each action, in declared
/// order, and each entry is a literal that denotes the action key of its
/// action.
pub proof fn lemma_listed_routes_are_the_action_keys(actions: Seq<ActionView>, position: int)
    requires
        0 <= position < actions.len(),
    ensures
        route_literals(actions).len() == actions.len(),
        route_keys(actions).len() == actions.len(),
        route_keys(actions)[position] == route_match_of(actions[position].ident),
        literal_value(route_literals(actions)[position]) == Some(route_keys(actions)[position]),
{
    lemma_literal_denotes_text(route_match_of(actions[position].ident));
}

/// Action keys made from different names differ.
pub proof fn lemma_route_match_is_injective(first: Seq<char>, second: Seq<char>)
    requires
        route_match_of(first) == route_match_of(second),
    ensures
        first == second,
{
    reveal_strlit("/");
    assert(route_match_of(first).skip(1) == first);
}

/// A generated dispatcher reaches exactly the action that a request names:
/// among actions with different names, the request whose action key is that
/// of the action at `position` takes the branch of that action and of no
/// other.
pub proof fn lemma_request_reaches_its_action(
    actions: Seq<ActionView>,
    position: int,
    raw_query: Option<Seq<char>>,
)
    requires
        0 <= position < actions.len(),
        forall|a: int, b: int| 0 <= a < b < actions.len() ==> actions[a].ident != actions[b].ident,
        action_key(raw_query) == Some(route_match_of(actions[position].ident)),
    ensures
        selection(action_key(raw_query), route_keys(actions)) == Some(position),
{
    let routes = route_keys(actions);
    assert forall|a: int, b: int| 0 <= a < b < routes.len() implies routes[a] != routes[b] by {
        if routes[a] == routes[b] {
            lemma_route_match_is_injective(actions[a].ident, actions[b].ident);
        }
    }
    crate::dispatch::lemma_key_selects_its_action(raw_query, routes, position);
}

/// The dispatcher of a scope without actions answers every request as not
/// found: its selection finds nothing whatever the request, and its source
/// holds no branch but the one for a request that selects nothing.
pub proof fn lemma_empty_scope_finds_nothing(raw_query: Option<Seq<char>>, adapter: AdapterView)
    ensures
        selection(action_key(raw_query), route_keys(Seq::empty())) is None,
        branches(Seq::empty(), adapter).len() == 0,
        dispatch_text(Seq::empty(), adapter) == "match html_form_actions::select_action("@
            + adapter.query + ", "@ + ("&["@ + "]"@) + ") {\n"@ + "_ => "@ + adapter.not_found
            + ",\n}\n"@,
{
}

fn call_argument_list(action: &Action) -> (arguments: Vec<String>)
    ensures
        arguments.deep_view() == call_arguments(action@),
{
    let ghost form = action@.form;
    let ghost others = action@.other_arguments;
    let mut arguments: Vec<String> = Vec::new();
    let mut index: usize = 0;
    while index < action.form.len()
        invariant
            index <= action.form.len(),
            form == action@.form,
            arguments.deep_view() == field_idents(form.take(index as int)),
        decreases action.form.len() - index,
    {
        let ghost before = arguments.deep_view();
        arguments.push(action.form[index].ident.clone());
        assert(arguments.deep_view() =~= before.push(form[index as int].ident));
        index = index + 1;
    }
    let mut index: usize = 0;
    while index < action.other_arguments.len()
        invariant
            index <= action.other_arguments.len(),
            others == action@.other_arguments,
            form == action@.form,
            arguments.deep_view() == field_idents(form) + others.take(index as int),
        decreases action.other_arguments.len() - index,
    {
        let ghost before = arguments.deep_view();
        arguments.push(action.other_arguments[index].clone());
        assert(arguments.deep_view() =~= before.push(others[index as int]));
        index = index + 1;
    }
    arguments
}

fn field_ident_list(action: &Action) -> (idents: Vec<String>)
    ensures
        idents.deep_view() == field_idents(action@.form),
{
    let ghost form = action@.form;
    let mut idents: Vec<String> = Vec::new();
    let mut index: usize = 0;
    while index < action.form.len()
        invariant
            index <= action.form.len(),
            form == action@.form,
            idents.deep_view() == field_idents(form.take(index as int)),
        decreases action.form.len() - index,
    {
        let ghost before = idents.deep_view();
        idents.push(action.form[index].ident.clone());
        assert(idents.deep_view() =~= before.push(form[index as int].ident));
        index = index + 1;
    }
    idents
}

/// Writes the call of an action.
pub fn action_call(action: &Action, response: &str) -> (source: String)
    ensures
        source@ == action_call_text(action@, response@),
{
    let mut source = String::from_str("|");
    let others = join_terminated(&action.other_arguments, ", ");
    source.append(others.as_str());
    source.append("Form(Form { ");
    let idents = field_ident_list(action);
    let fields = join_terminated(&idents, ", ");
    source.append(fields.as_str());
    source.append("})| async move { ");
    source.append(action.ident.as_str());
    source.append("(");
    let arguments = call_argument_list(action);
    let passed = join_terminated(&arguments, ", ");
    source.append(passed.as_str());
    source.append(").await");
    source.append(response);
    source.append(" }");
    source
}

/// Writes the list of action keys that the dispatcher selects from.
pub fn routes_array(actions: &Vec<Action>) -> (source: String)
    ensures
        source@ == routes_text(actions.deep_view()),
{
    let ghost views = actions.deep_view();
    let mut literals: Vec<String> = Vec::new();
    let mut index: usize = 0;
    while index < actions.len()
        invariant
            index <= actions.len(),
            views == actions.deep_view(),
            literals.deep_view() == route_literals(views.take(index as int)),
        decreases actions.len() - index,
    {
        let ghost before = literals.deep_view();
        let key = actions[index].query();
        literals.push(string_literal_text(key.as_str()));
        assert(literals.deep_view() =~= before.push(
            string_literal(route_match_of(views[index as int].ident)),
        ));
        index = index + 1;
    }
    assert(views.take(index as int) == views);
    let mut source = String::from_str("&[");
    let listed = join_terminated(&literals, ", ");
    source.append(listed.as_str());
    source.append("]");
    source
}

fn branch(action: &Action, position: usize, adapter: &Adapter) -> (source: String)
    ensures
        source@ == branch_text(action@, position as nat, adapter@),
{
    let mut source = String::from_str("Some(");
    let number = decimal_text(position);
    source.append(number.as_str());
    source.append("usize) => {\n");
    let decode = action.struct_declaration();
    source.append(decode.as_str());
    source.append(adapter.call_open.as_str());
    let call = action_call(action, adapter.response.as_str());
    source.append(call.as_str());
    source.append(adapter.call_close.as_str());
    source.append("\n}\n");
    source
}

/// Writes the dispatch among `actions` for the host framework behind
/// `adapter`.
pub fn dispatch(actions: &Vec<Action>, adapter: &Adapter) -> (source: String)
    ensures
        source@ == dispatch_text(actions.deep_view(), adapter@),
{
    let ghost views = actions.deep_view();
    let mut texts: Vec<String> = Vec::new();
    let mut index: usize = 0;
    while index < actions.len()
        invariant
            index <= actions.len(),
            views == actions.deep_view(),
            texts.deep_view() == branches(views.take(index as int), adapter@),
        decreases actions.len() - index,
    {
        let ghost before = texts.deep_view();
        texts.push(branch(&actions[index], index, adapter));
        assert(texts.deep_view() =~= before.push(
            branch_text(views[index as int], index as nat, adapter@),
        ));
        index = index + 1;
    }
    assert(views.take(index as int) == views);
    let mut source = String::from_str("match html_form_actions::select_action(");
    source.append(adapter.query.as_str());
    source.append(", ");
    let routes = routes_array(actions);
    source.append(routes.as_str());
    source.append(") {\n");
    let body = concat_all(&texts);
    source.append(body.as_str());
    source.append("_ => ");
    source.append(adapter.not_found.as_str());
    source.append(",\n}\n");
    source
}

} // verus!
