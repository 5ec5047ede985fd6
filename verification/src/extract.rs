//! Finding the actions of a scope: which functions carry the action marker,
//! which of their parameters a form fills, and which the host supplies.

use crate::error::GenerationError;
use crate::model::{
    clone_name, form_name_of, Action, ActionView, Declaration, DeclarationView, FormField, FormFieldView,
    Function, FunctionView, Parameter, ParameterView, Pattern, PatternView,
};
use crate::text::{decimal, decimal_text};
use vstd::prelude::*;
use vstd::string::*;

verus! {

/// The name that stands for the parameter at `position` where its pattern
/// gives none.
pub open spec fn placeholder(position: nat) -> Seq<char> {
    "arg_"@ + decimal(position)
}

/// Whether an action may not have this parameter: it is the receiver, or it
/// carries the form marker and binds no simple name.
pub open spec fn is_offending(parameter: ParameterView) -> bool {
    match parameter {
        ParameterView::Receiver => true,
        ParameterView::Typed { form, pattern, .. } => form is Some && pattern is Other,
    }
}

/// Whether the declaration is a function that carries the action marker.
pub open spec fn is_action(declaration: DeclarationView) -> bool {
    declaration matches DeclarationView::Function(function) && function.action
}

/// Whether parameter `parameter` of declaration `declaration` is one that an
/// action may not have, in a function that is an action.
pub open spec fn offence_at(items: Seq<DeclarationView>, declaration: int, parameter: int) -> bool {
    &&& 0 <= declaration < items.len()
    &&& items[declaration] matches DeclarationView::Function(function)
    &&& function.action
    &&& 0 <= parameter < function.inputs.len()
    &&& is_offending(function.inputs[parameter])
}

/// Whether the scope can be generated from: no action has a parameter that
/// it may not have.
pub open spec fn is_valid(items: Seq<DeclarationView>) -> bool {
    forall|declaration: int, parameter: int| !offence_at(items, declaration, parameter)
}

/// Whether the offence at this place is the first of the scope, reading the
/// declarations in order and the parameters of each in order.
pub open spec fn is_first_offence(
    items: Seq<DeclarationView>,
    declaration: int,
    parameter: int,
) -> bool {
    &&& offence_at(items, declaration, parameter)
    &&& forall|d: int, p: int| #[trigger]
        offence_at(items, d, p) ==> declaration < d || (declaration == d && parameter <= p)
}

/// Whether `error` reports the offence at its place in `items` by the right
/// name: a receiver as such, any other offence as an invalid pattern.
pub open spec fn reports(error: GenerationError, items: Seq<DeclarationView>) -> bool {
    match error {
        GenerationError::SelfParameterError { declaration, parameter } => {
            &&& is_first_offence(items, declaration as int, parameter as int)
            &&& items[declaration as int]->Function_0.inputs[parameter as int] is Receiver
        },
        GenerationError::InvalidFormParameterPattern { declaration, parameter } => {
            &&& is_first_offence(items, declaration as int, parameter as int)
            &&& items[declaration as int]->Function_0.inputs[parameter as int] is Typed
        },
        GenerationError::ModuleWithoutContent => false,
    }
}

/// The form fields among `inputs`, in declared order: one for each
/// parameter that carries the form marker and binds a simple name.
pub open spec fn form_fields(inputs: Seq<ParameterView>) -> Seq<FormFieldView>
    decreases inputs.len(),
{
    if inputs.len() == 0 {
        Seq::empty()
    } else {
        let earlier = form_fields(inputs.drop_last());
        match inputs.last() {
            ParameterView::Typed {
                form: Some(marker),
                pattern: PatternView::Ident(ident),
                ty,
            } => earlier.push(
                FormFieldView { ident, rename: marker.rename, form_name: form_name_of(ident), ty },
            ),
            _ => earlier,
        }
    }
}

/// The context arguments among `inputs`, in declared order: one for each
/// typed parameter without the form marker, by its own name or, where its
/// pattern is no simple name, by the placeholder for its position among all
/// the parameters.
pub open spec fn context_arguments(inputs: Seq<ParameterView>) -> Seq<Seq<char>>
    decreases inputs.len(),
{
    if inputs.len() == 0 {
        Seq::empty()
    } else {
        let earlier = context_arguments(inputs.drop_last());
        match inputs.last() {
            ParameterView::Typed { form: None, pattern: PatternView::Ident(ident), .. } =>
                earlier.push(ident),
            ParameterView::Typed { form: None, pattern: PatternView::Other, .. } => earlier.push(
                placeholder((inputs.len() - 1) as nat),
            ),
            _ => earlier,
        }
    }
}

/// The action that a function with the action marker declares.
pub open spec fn action_of(function: FunctionView) -> ActionView {
    ActionView {
        ident: function.ident,
        form: form_fields(function.inputs),
        other_arguments: context_arguments(function.inputs),
    }
}

/// The actions of a scope, in the order of their functions.
pub open spec fn actions_of(items: Seq<DeclarationView>) -> Seq<ActionView>
    decreases items.len(),
{
    if items.len() == 0 {
        Seq::empty()
    } else {
        let earlier = actions_of(items.drop_last());
        match items.last() {
            DeclarationView::Function(function) => if function.action {
                earlier.push(action_of(function))
            } else {
                earlier
            },
            DeclarationView::Other => earlier,
        }
    }
}

/// A parameter without its form marker.
pub open spec fn unmarked_parameter(parameter: ParameterView) -> ParameterView {
    match parameter {
        ParameterView::Receiver => ParameterView::Receiver,
        ParameterView::Typed { form, pattern, ty } => ParameterView::Typed {
            form: None,
            pattern,
            ty,
        },
    }
}

/// Parameters without their form markers.
pub open spec fn unmarked_parameters(inputs: Seq<ParameterView>) -> Seq<ParameterView> {
    inputs.map_values(|parameter: ParameterView| unmarked_parameter(parameter))
}

/// A function without the action marker and without the form markers of its
/// parameters.
pub open spec fn unmarked_function(function: FunctionView) -> FunctionView {
    FunctionView {
        ident: function.ident,
        action: false,
        inputs: unmarked_parameters(function.inputs),
    }
}

/// A declaration as the generated scope holds it: an action without its
/// markers, anything else as it was.
pub open spec fn unmarked(declaration: DeclarationView) -> DeclarationView {
    match declaration {
        DeclarationView::Function(function) => if function.action {
            DeclarationView::Function(unmarked_function(function))
        } else {
            declaration
        },
        DeclarationView::Other => declaration,
    }
}

/// The declarations of a scope without the markers of its actions.
pub open spec fn all_unmarked(items: Seq<DeclarationView>) -> Seq<DeclarationView> {
    items.map_values(|declaration: DeclarationView| unmarked(declaration))
}


/// Every form field that is read from parameters is well formed: its
/// metadata constant is named after the name that it binds.
pub proof fn lemma_form_fields_are_well_formed(inputs: Seq<ParameterView>, index: int)
    requires
        0 <= index < form_fields(inputs).len(),
    ensures
        form_fields(inputs)[index].is_well_formed(),
    decreases inputs.len(),
{
    if inputs.len() > 0 {
        let earlier = form_fields(inputs.drop_last());
        if index < earlier.len() {
            lemma_form_fields_are_well_formed(inputs.drop_last(), index);
        }
    }
}

/// Every action that is read from a scope is well formed.
pub proof fn lemma_actions_are_well_formed(items: Seq<DeclarationView>, index: int)
    requires
        0 <= index < actions_of(items).len(),
    ensures
        actions_of(items)[index].is_well_formed(),
    decreases items.len(),
{
    if items.len() > 0 {
        let earlier = actions_of(items.drop_last());
        if index < earlier.len() {
            lemma_actions_are_well_formed(items.drop_last(), index);
        } else {
            let action = action_of(items.last()->Function_0);
            assert forall|field: int| 0 <= field < action.form.len() implies (
            #[trigger] action.form[field]).is_well_formed() by {
                lemma_form_fields_are_well_formed(items.last()->Function_0.inputs, field);
            }
        }
    }
}

/// A scope in which no function carries the action marker has no actions.
pub proof fn lemma_scope_without_markers_has_no_actions(items: Seq<DeclarationView>)
    requires
        forall|declaration: int| 0 <= declaration < items.len() ==> !is_action(items[declaration]),
    ensures
        actions_of(items) == Seq::<ActionView>::empty(),
    decreases items.len(),
{
    if items.len() > 0 {
        lemma_scope_without_markers_has_no_actions(items.drop_last());
    }
}

/// The actions of the first declarations of a scope are the first actions
/// of the scope: a later declaration changes nothing about an earlier
/// action.
pub proof fn lemma_actions_of_prefix(items: Seq<DeclarationView>, count: int)
    requires
        0 <= count <= items.len(),
    ensures
        actions_of(items.take(count)).len() <= actions_of(items).len(),
        actions_of(items.take(count)) == actions_of(items).take(
            actions_of(items.take(count)).len() as int,
        ),
    decreases items.len(),
{
    if count == items.len() {
        assert(items.take(count) == items);
    } else {
        assert(items.drop_last().take(count) == items.take(count));
        lemma_actions_of_prefix(items.drop_last(), count);
    }
}

/// Actions keep the order of their functions: the action that declaration
/// `declaration` declares stands behind the actions of all earlier
/// declarations and before those of all later ones.
pub proof fn lemma_action_has_its_place(items: Seq<DeclarationView>, declaration: int)
    requires
        0 <= declaration < items.len(),
        is_action(items[declaration]),
    ensures
        actions_of(items.take(declaration)).len() < actions_of(items).len(),
        actions_of(items)[actions_of(items.take(declaration)).len() as int] == action_of(
            items[declaration]->Function_0,
        ),
{
    let through = items.take(declaration + 1);
    assert(through.drop_last() == items.take(declaration));
    lemma_actions_of_prefix(items, declaration + 1);
    let place = actions_of(items.take(declaration)).len() as int;
    assert(actions_of(through)[place] == action_of(items[declaration]->Function_0));
}

/// Looks for the first parameter of `function` that an action may not have.
fn check_parameters(function: &Function, declaration: usize) -> (checked: Result<
    (),
    GenerationError,
>)
    ensures
        match checked {
            Ok(()) => forall|p: int|
                0 <= p < function@.inputs.len() ==> !is_offending(#[trigger] function@.inputs[p]),
            Err(GenerationError::SelfParameterError { declaration: d, parameter: p }) => {
                &&& d == declaration
                &&& 0 <= p < function@.inputs.len()
                &&& function@.inputs[p as int] is Receiver
                &&& forall|q: int| 0 <= q < p ==> !is_offending(#[trigger] function@.inputs[q])
            },
            Err(GenerationError::InvalidFormParameterPattern { declaration: d, parameter: p }) => {
                &&& d == declaration
                &&& 0 <= p < function@.inputs.len()
                &&& function@.inputs[p as int] is Typed
                &&& is_offending(function@.inputs[p as int])
                &&& forall|q: int| 0 <= q < p ==> !is_offending(#[trigger] function@.inputs[q])
            },
            Err(GenerationError::ModuleWithoutContent) => false,
        },
{
    let mut position: usize = 0;
    while position < function.inputs.len()
        invariant
            position <= function.inputs.len(),
            forall|q: int| 0 <= q < position ==> !is_offending(#[trigger] function@.inputs[q]),
        decreases function.inputs.len() - position,
    {
        match &function.inputs[position] {
            Parameter::Receiver => {
                return Err(
                    GenerationError::SelfParameterError { declaration, parameter: position },
                );
            },
            Parameter::Typed { form, pattern, ty: _ } => {
                if form.is_some() {
                    match pattern {
                        Pattern::Ident(_) => {},
                        Pattern::Other => {
                            return Err(
                                GenerationError::InvalidFormParameterPattern {
                                    declaration,
                                    parameter: position,
                                },
                            );
                        },
                    }
                }
            },
        }
        position = position + 1;
    }
    Ok(())
}

/// Checks that no action of the scope has a parameter that it may not have,
/// and reports the first such parameter otherwise.
pub fn validate(items: &Vec<Declaration>) -> (checked: Result<(), GenerationError>)
    ensures
        checked is Ok <==> is_valid(items.deep_view()),
        checked matches Err(error) ==> reports(error, items.deep_view()),
{
    let ghost views = items.deep_view();
    let mut index: usize = 0;
    while index < items.len()
        invariant
            index <= items.len(),
            views == items.deep_view(),
            forall|d: int, p: int| 0 <= d < index ==> !offence_at(views, d, p),
        decreases items.len() - index,
    {
        match &items[index] {
            Declaration::Function(function) => {
                if function.action {
                    match check_parameters(function, index) {
                        Ok(()) => {},
                        Err(error) => {
                            proof {
                                let p = match error {
                                    GenerationError::SelfParameterError { parameter, .. } => parameter,
                                    GenerationError::InvalidFormParameterPattern {
                                        parameter,
                                        ..
                                    } => parameter,
                                    GenerationError::ModuleWithoutContent => 0,
                                };
                                assert(offence_at(views, index as int, p as int));
                            }
                            return Err(error);
                        },
                    }
                }
            },
            Declaration::Other => {},
        }
        index = index + 1;
    }
    Ok(())
}

/// Reads one action: its form fields and context arguments, and the
/// function as it stands without its markers.
fn extract_action(function: &Function) -> (extracted: (Action, Function))
    requires
        forall|p: int|
            0 <= p < function@.inputs.len() ==> !is_offending(#[trigger] function@.inputs[p]),
    ensures
        extracted.0@ == action_of(function@),
        extracted.1@ == unmarked_function(function@),
{
    let ghost inputs = function@.inputs;
    let mut form: Vec<FormField> = Vec::new();
    let mut other_arguments: Vec<String> = Vec::new();
    let mut unmarked_inputs: Vec<Parameter> = Vec::new();
    let mut position: usize = 0;
    while position < function.inputs.len()
        invariant
            position <= function.inputs.len(),
            inputs == function@.inputs,
            forall|p: int| 0 <= p < inputs.len() ==> !is_offending(#[trigger] inputs[p]),
            form.deep_view() == form_fields(inputs.take(position as int)),
            other_arguments.deep_view() == context_arguments(inputs.take(position as int)),
            unmarked_inputs.deep_view() == unmarked_parameters(inputs.take(position as int)),
        decreases function.inputs.len() - position,
    {
        let ghost before = inputs.take(position as int);
        let ghost now = inputs.take(position + 1);
        let ghost unmarked_before = unmarked_inputs.deep_view();
        proof {
            assert(now.drop_last() == before);
        }
        match &function.inputs[position] {
            Parameter::Receiver => {},
            Parameter::Typed { form: marker, pattern, ty } => {
                match marker {
                    Some(marker) => {
                        match pattern {
                            Pattern::Ident(ident) => {
                                form.push(
                                    FormField::new(
                                        ident.clone(),
                                        clone_name(&marker.rename),
                                        ty.clone(),
                                    ),
                                );
                                unmarked_inputs.push(
                                    Parameter::Typed {
                                        form: None,
                                        pattern: Pattern::Ident(ident.clone()),
                                        ty: ty.clone(),
                                    },
                                );
                            },
                            Pattern::Other => {},
                        }
                    },
                    None => {
                        match pattern {
                            Pattern::Ident(ident) => {
                                other_arguments.push(ident.clone());
                                unmarked_inputs.push(
                                    Parameter::Typed {
                                        form: None,
                                        pattern: Pattern::Ident(ident.clone()),
                                        ty: ty.clone(),
                                    },
                                );
                            },
                            Pattern::Other => {
                                let mut name = String::from_str("arg_");
                                let number = decimal_text(position);
                                name.append(number.as_str());
                                other_arguments.push(name);
                                unmarked_inputs.push(
                                    Parameter::Typed {
                                        form: None,
                                        pattern: Pattern::Other,
                                        ty: ty.clone(),
                                    },
                                );
                            },
                        }
                    },
                }
            },
        }
        proof {
            assert(unmarked_inputs.deep_view() =~= unmarked_before.push(
                unmarked_parameter(inputs[position as int]),
            ));
        }
        position = position + 1;
    }
    proof {
        assert(inputs.take(position as int) == inputs);
    }
    let action = Action { ident: function.ident.clone(), form, other_arguments };
    let plain = Function { ident: function.ident.clone(), action: false, inputs: unmarked_inputs };
    (action, plain)
}

impl Action {
    /// Reads the actions of a scope and takes their markers off.
    ///
    /// Every function that carries the action marker is an action. Each of
    /// its parameters with the form marker becomes a form field and each
    /// other parameter a context argument, in declared order. Where an
    /// action takes `self`, or a parameter with the form marker binds no
    /// simple name, the first such parameter is reported and the scope is
    /// left as it was.
    pub fn extract(items: &mut Vec<Declaration>) -> (extracted: Result<
        Vec<Action>,
        GenerationError,
    >)
        ensures
            extracted is Ok <==> is_valid(old(items).deep_view()),
            match extracted {
                Ok(actions) => {
                    &&& actions.deep_view() == actions_of(old(items).deep_view())
                    &&& final(items).deep_view() == all_unmarked(old(items).deep_view())
                },
                Err(error) => {
                    &&& reports(error, old(items).deep_view())
                    &&& *final(items) == *old(items)
                },
            },
    {
        match validate(items) {
            Ok(()) => {},
            Err(error) => {
                return Err(error);
            },
        }
        let ghost views = items.deep_view();
        let mut actions: Vec<Action> = Vec::new();
        let mut index: usize = 0;
        while index < items.len()
            invariant
                index <= items.len(),
                items.len() == views.len(),
                is_valid(views),
                actions.deep_view() == actions_of(views.take(index as int)),
                forall|d: int| 0 <= d < index ==> #[trigger] items.deep_view()[d] == unmarked(views[d]),
                forall|d: int|
                    index <= d < views.len() ==> #[trigger] items.deep_view()[d] == views[d],
            decreases items.len() - index,
        {
            let ghost before = views.take(index as int);
            let ghost now = views.take(index + 1);
            let ghost current = items.deep_view();
            proof {
                assert(now.drop_last() == before);
                assert(current[index as int] == views[index as int]);
            }
            let replacement = match &items[index] {
                Declaration::Function(function) => {
                    if function.action {
                        proof {
                            assert forall|p: int| 0 <= p < function@.inputs.len() implies !is_offending(
                                #[trigger] function@.inputs[p],
                            ) by {
                                assert(!offence_at(views, index as int, p));
                            }
                        }
                        let (action, plain) = extract_action(function);
                        actions.push(action);
                        Some(plain)
                    } else {
                        None
                    }
                },
                Declaration::Other => None,
            };
            match replacement {
                Some(plain) => {
                    items.set(index, Declaration::Function(plain));
                },
                None => {},
            }
            proof {
                assert forall|d: int| 0 <= d < index + 1 implies #[trigger] items.deep_view()[d]
                    == unmarked(views[d]) by {
                    if d < index {
                        assert(items.deep_view()[d] == current[d]);
                    }
                }
                assert forall|d: int| index + 1 <= d < views.len() implies #[trigger] items.deep_view()[d]
                    == views[d] by {
                    assert(items.deep_view()[d] == current[d]);
                }
            }
            index = index + 1;
        }
        proof {
            assert(views.take(index as int) == views);
        }
        Ok(actions)
    }
}

} // verus!
