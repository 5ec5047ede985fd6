//! The rewriting of a scope: its own declarations without their markers,
//! then the metadata of each action, then the dispatcher for each host
//! framework that the scope asks for. A scope with a mistake in it yields
//! nothing but the report of that mistake.

use crate::axum::{axum_handler, axum_handler_text};
use crate::config::{ScopeConfig, ScopeConfigView};
use crate::descriptor::{descriptor_of, metadata_module_text};
use crate::error::GenerationError;
use crate::extract::{
    actions_of,
    all_unmarked,
    is_first_offence,
    is_valid,
    offence_at,
    reports,
};
use crate::model::{Action, ActionView, Declaration, DeclarationView, ParameterView};
use crate::picoserve::{
    picoserve_handler,
    picoserve_implementation_text,
    picoserve_service_text,
};
use vstd::prelude::*;

verus! {

/// A module with the declarations of a scope.
#[derive(Clone, Debug, PartialEq, Eq)]
pub struct Module {
    /// The name of the module.
    pub ident: String,
    /// The declarations in the body of the module, in order; `None` for a
    /// module that is declared without a body.
    pub content: Option<Vec<Declaration>>,
}

/// One item of a generated scope.
#[derive(Clone, Debug, PartialEq, Eq)]
pub enum Item {
    /// A declaration of the scope itself, without the markers of an action.
    Declared(Declaration),
    /// The source of the metadata of one action.
    Metadata(String),
    /// The source of the handler-style dispatcher.
    AxumHandler(String),
    /// The source of the type that is the dispatcher for the embedded
    /// framework.
    PicoserveService(String),
    /// The source that makes that type serve requests.
    PicoserveImplementation(String),
}

/// A generated scope.
#[derive(Clone, Debug, PartialEq, Eq)]
pub struct Generated {
    /// The name of the module.
    pub ident: String,
    /// The items of the module, in order.
    pub items: Vec<Item>,
}

/// What [`Module`] holds.
pub struct ModuleView {
    pub ident: Seq<char>,
    pub content: Option<Seq<DeclarationView>>,
}

/// What [`Item`] holds.
pub enum ItemView {
    Declared(DeclarationView),
    Metadata(Seq<char>),
    AxumHandler(Seq<char>),
    PicoserveService(Seq<char>),
    PicoserveImplementation(Seq<char>),
}

/// What [`Generated`] holds.
pub struct GeneratedView {
    pub ident: Seq<char>,
    pub items: Seq<ItemView>,
}

impl View for Module {
    type V = ModuleView;

    open spec fn view(&self) -> ModuleView {
        ModuleView { ident: self.ident@, content: self.content.deep_view() }
    }
}

impl DeepView for Module {
    type V = ModuleView;

    open spec fn deep_view(&self) -> ModuleView {
        self@
    }
}

impl View for Item {
    type V = ItemView;

    open spec fn view(&self) -> ItemView {
        match self {
            Item::Declared(declaration) => ItemView::Declared(declaration@),
            Item::Metadata(source) => ItemView::Metadata(source@),
            Item::AxumHandler(source) => ItemView::AxumHandler(source@),
            Item::PicoserveService(source) => ItemView::PicoserveService(source@),
            Item::PicoserveImplementation(source) => ItemView::PicoserveImplementation(source@),
        }
    }
}

impl DeepView for Item {
    type V = ItemView;

    open spec fn deep_view(&self) -> ItemView {
        self@
    }
}

impl View for Generated {
    type V = GeneratedView;

    open spec fn view(&self) -> GeneratedView {
        GeneratedView { ident: self.ident@, items: self.items.deep_view() }
    }
}

impl DeepView for Generated {
    type V = GeneratedView;

    open spec fn deep_view(&self) -> GeneratedView {
        self@
    }
}

/// The declarations of the scope as items.
pub open spec fn declared_items(declarations: Seq<DeclarationView>) -> Seq<ItemView> {
    declarations.map_values(|declaration: DeclarationView| ItemView::Declared(declaration))
}

/// The metadata of each action, in declared order.
pub open spec fn metadata_items(actions: Seq<ActionView>) -> Seq<ItemView> {
    actions.map_values(
        |action: ActionView| ItemView::Metadata(metadata_module_text(descriptor_of(action))),
    )
}

/// The handler-style dispatcher, where the scope asks for it.
pub open spec fn axum_items(config: ScopeConfigView, actions: Seq<ActionView>) -> Seq<ItemView> {
    match config.axum {
        Some(axum) => seq![ItemView::AxumHandler(axum_handler_text(config.state, axum, actions))],
        None => Seq::empty(),
    }
}

/// The dispatcher for the embedded framework, where the scope asks for it.
pub open spec fn picoserve_items(config: ScopeConfigView, actions: Seq<ActionView>) -> Seq<
    ItemView,
> {
    match config.picoserve {
        Some(picoserve) => seq![
            ItemView::PicoserveService(picoserve_service_text(picoserve)),
            ItemView::PicoserveImplementation(
                picoserve_implementation_text(config.state, picoserve, actions),
            ),
        ],
        None => Seq::empty(),
    }
}

/// The items of the scope generated from `declarations`: the declarations
/// themselves without the markers of the actions, the metadata of each
/// action, and the dispatchers that `config` asks for.
pub open spec fn generated_items(
    config: ScopeConfigView,
    declarations: Seq<DeclarationView>,
) -> Seq<ItemView> {
    let actions = actions_of(declarations);
    declared_items(all_unmarked(declarations)) + metadata_items(actions) + axum_items(
        config,
        actions,
    ) + picoserve_items(config, actions)
}

/// Whether a scope can be generated from the module: it has a body, and no
/// action in it has a parameter that it may not have.
pub open spec fn can_generate(module: ModuleView) -> bool {
    module.content matches Some(declarations) && is_valid(declarations)
}

/// The parameter at this place of the scope.
pub open spec fn parameter_at(
    declarations: Seq<DeclarationView>,
    declaration: int,
    parameter: int,
) -> ParameterView {
    declarations[declaration]->Function_0.inputs[parameter]
}

/// An action may not take `self`. Nothing is generated from a module in
/// which an action has a receiver among its parameters, and where that
/// receiver is the first mistake of the module, the report names it and
/// says that `self` is not allowed.
pub proof fn lemma_receiver_generates_nothing(
    module: ModuleView,
    declaration: int,
    parameter: int,
    error: GenerationError,
)
    requires
        module.content matches Some(declarations) && offence_at(
            declarations,
            declaration,
            parameter,
        ) && parameter_at(declarations, declaration, parameter) is Receiver,
    ensures
        !can_generate(module),
        reports(error, module.content->Some_0) && is_first_offence(
            module.content->Some_0,
            declaration,
            parameter,
        ) ==> {
            &&& error matches GenerationError::SelfParameterError { declaration: d, parameter: p }
            &&& d == declaration
            &&& p == parameter
            &&& error.spec_message() == "\"self\" is not allowed"@
        },
{
}

/// A form field must bind a simple name. Nothing is generated from a module
/// in which a parameter of an action carries the form marker and binds its
/// value by any other pattern, and where that parameter is the first
/// mistake of the module, the report names it.
pub proof fn lemma_destructured_form_parameter_generates_nothing(
    module: ModuleView,
    declaration: int,
    parameter: int,
    error: GenerationError,
)
    requires
        module.content matches Some(declarations) && offence_at(
            declarations,
            declaration,
            parameter,
        ) && parameter_at(declarations, declaration, parameter) is Typed,
    ensures
        !can_generate(module),
        reports(error, module.content->Some_0) && is_first_offence(
            module.content->Some_0,
            declaration,
            parameter,
        ) ==> {
            &&& error matches GenerationError::InvalidFormParameterPattern {
                declaration: d,
                parameter: p,
            }
            &&& d == declaration
            &&& p == parameter
        },
{
}

/// A module whose actions have no parameter that they may not have, and
/// which has a body, is generated from: no other mistake stops the
/// generator.
pub proof fn lemma_sound_module_is_generated(module: ModuleView)
    requires
        module.content matches Some(declarations) && forall|d: int, p: int|
            !offence_at(declarations, d, p),
    ensures
        can_generate(module),
{
}

/// Generates the scope of a module.
///
/// The generated scope has the name of the module. It holds, in this order,
/// the declarations of the module without the markers of its actions, the
/// metadata of each action, the handler-style dispatcher where `config`
/// asks for one, and the type and implementation of the dispatcher for the
/// embedded framework where it asks for that. A module without a body, or
/// with an action that has a parameter it may not have, yields the report
/// of that and nothing else.
pub fn try_actions(config: &ScopeConfig, module: Module) -> (generated: Result<
    Generated,
    GenerationError,
>)
    ensures
        generated is Ok <==> can_generate(module@),
        match generated {
            Ok(scope) => {
                &&& scope@.ident == module@.ident
                &&& scope@.items == generated_items(config@, module@.content->Some_0)
            },
            Err(error) => match module@.content {
                Some(declarations) => reports(error, declarations),
                None => error == GenerationError::ModuleWithoutContent,
            },
        },
{
    let Module { ident, content } = module;
    let mut declarations = match content {
        Some(declarations) => declarations,
        None => {
            return Err(GenerationError::ModuleWithoutContent);
        },
    };
    let actions = match Action::extract(&mut declarations) {
        Ok(actions) => actions,
        Err(error) => {
            return Err(error);
        },
    };
    let ghost unmarked = declarations.deep_view();
    let mut items: Vec<Item> = Vec::new();
    for declaration in iter: declarations
        invariant
            unmarked == iter.seq().map_values(|d: Declaration| d@),
            items.deep_view() == declared_items(unmarked.take(iter.index() as int)),
    {
        let ghost before = items.deep_view();
        items.push(Item::Declared(declaration));
        assert(items.deep_view() =~= before.push(ItemView::Declared(unmarked[iter.index() as int])));
    }
    let ghost views = actions.deep_view();
    let mut index: usize = 0;
    while index < actions.len()
        invariant
            index <= actions.len(),
            views == actions.deep_view(),
            items.deep_view() == declared_items(unmarked) + metadata_items(
                views.take(index as int),
            ),
        decreases actions.len() - index,
    {
        let ghost before = items.deep_view();
        let descriptor = actions[index].describe();
        items.push(Item::Metadata(descriptor.metadata_module()));
        assert(items.deep_view() =~= before.push(
            ItemView::Metadata(metadata_module_text(descriptor_of(views[index as int]))),
        ));
        index = index + 1;
    }
    assert(views.take(index as int) == views);
    if let Some(axum) = &config.axum {
        items.push(Item::AxumHandler(axum_handler(&config.state, axum, &actions)));
    }
    if let Some(picoserve) = &config.picoserve {
        let (service, implementation) = picoserve_handler(&config.state, picoserve, &actions);
        items.push(Item::PicoserveService(service));
        items.push(Item::PicoserveImplementation(implementation));
    }
    Ok(Generated { ident, items })
}

} // verus!
