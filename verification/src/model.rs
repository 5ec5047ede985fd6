//! The declarations of a scope as the generator reads them, and the actions
//! that it finds among them.

use vstd::prelude::*;
use vstd::string::*;

verus! {

/// How a parameter binds its value.
#[derive(Clone, Debug, PartialEq, Eq)]
pub enum Pattern {
    /// A simple name.
    Ident(String),
    /// Any other pattern, such as one that takes a value apart.
    Other,
}

/// The form marker of a parameter.
#[derive(Clone, Debug, PartialEq, Eq)]
pub struct FormMarker {
    /// The name of the field in the submitted form, where it differs from
    /// the parameter's own name.
    pub rename: Option<String>,
}

/// One parameter of a function.
#[derive(Clone, Debug, PartialEq, Eq)]
pub enum Parameter {
    /// The receiver, `self` in any of its forms.
    Receiver,
    /// A parameter with a pattern and a type.
    Typed {
        /// The form marker, where the parameter carries one.
        form: Option<FormMarker>,
        /// The pattern that binds the value.
        pattern: Pattern,
        /// The declared type, as source text.
        ty: String,
    },
}

/// A function of a scope.
#[derive(Clone, Debug, PartialEq, Eq)]
pub struct Function {
    /// The name of the function.
    pub ident: String,
    /// Whether the function carries the action marker.
    pub action: bool,
    /// The parameters, in declared order.
    pub inputs: Vec<Parameter>,
}

/// One declaration of a scope.
#[derive(Clone, Debug, PartialEq, Eq)]
pub enum Declaration {
    /// A function.
    Function(Function),
    /// Anything else; the generator passes it through unread.
    Other,
}

/// A parameter of an action that the submitted form fills.
#[derive(Clone, Debug, PartialEq, Eq)]
pub struct FormField {
    /// The name that the parameter binds.
    pub ident: String,
    /// The name of the field in the submitted form, where it differs from
    /// `ident`.
    pub rename: Option<String>,
    /// The name of the metadata constant that exposes the field's name.
    pub form_name: String,
    /// The declared type, as source text.
    pub ty: String,
}

/// A function that handles the submission of one form.
#[derive(Clone, Debug, PartialEq, Eq)]
pub struct Action {
    /// The name of the function, which also names the action.
    pub ident: String,
    /// The parameters that the form fills, in declared order.
    pub form: Vec<FormField>,
    /// The parameters that the host framework supplies, in declared order,
    /// each by the name that the dispatcher binds it to.
    pub other_arguments: Vec<String>,
}

/// What [`Pattern`] holds.
pub enum PatternView {
    Ident(Seq<char>),
    Other,
}

/// What [`FormMarker`] holds.
pub struct FormMarkerView {
    pub rename: Option<Seq<char>>,
}

/// What [`Parameter`] holds.
pub enum ParameterView {
    Receiver,
    Typed { form: Option<FormMarkerView>, pattern: PatternView, ty: Seq<char> },
}

/// What [`Function`] holds.
pub struct FunctionView {
    pub ident: Seq<char>,
    pub action: bool,
    pub inputs: Seq<ParameterView>,
}

/// What [`Declaration`] holds.
pub enum DeclarationView {
    Function(FunctionView),
    Other,
}

/// What [`FormField`] holds.
pub struct FormFieldView {
    pub ident: Seq<char>,
    pub rename: Option<Seq<char>>,
    pub form_name: Seq<char>,
    pub ty: Seq<char>,
}

/// What [`Action`] holds.
pub struct ActionView {
    pub ident: Seq<char>,
    pub form: Seq<FormFieldView>,
    pub other_arguments: Seq<Seq<char>>,
}

impl View for Pattern {
    type V = PatternView;

    open spec fn view(&self) -> PatternView {
        match self {
            Pattern::Ident(name) => PatternView::Ident(name@),
            Pattern::Other => PatternView::Other,
        }
    }
}

impl DeepView for Pattern {
    type V = PatternView;

    open spec fn deep_view(&self) -> PatternView {
        self@
    }
}

impl View for FormMarker {
    type V = FormMarkerView;

    open spec fn view(&self) -> FormMarkerView {
        FormMarkerView { rename: self.rename.deep_view() }
    }
}

impl DeepView for FormMarker {
    type V = FormMarkerView;

    open spec fn deep_view(&self) -> FormMarkerView {
        self@
    }
}

impl View for Parameter {
    type V = ParameterView;

    open spec fn view(&self) -> ParameterView {
        match self {
            Parameter::Receiver => ParameterView::Receiver,
            Parameter::Typed { form, pattern, ty } => ParameterView::Typed {
                form: form.deep_view(),
                pattern: pattern@,
                ty: ty@,
            },
        }
    }
}

impl DeepView for Parameter {
    type V = ParameterView;

    open spec fn deep_view(&self) -> ParameterView {
        self@
    }
}

impl View for Function {
    type V = FunctionView;

    open spec fn view(&self) -> FunctionView {
        FunctionView { ident: self.ident@, action: self.action, inputs: self.inputs.deep_view() }
    }
}

impl DeepView for Function {
    type V = FunctionView;

    open spec fn deep_view(&self) -> FunctionView {
        self@
    }
}

impl View for Declaration {
    type V = DeclarationView;

    open spec fn view(&self) -> DeclarationView {
        match self {
            Declaration::Function(function) => DeclarationView::Function(function@),
            Declaration::Other => DeclarationView::Other,
        }
    }
}

impl DeepView for Declaration {
    type V = DeclarationView;

    open spec fn deep_view(&self) -> DeclarationView {
        self@
    }
}

impl View for FormField {
    type V = FormFieldView;

    open spec fn view(&self) -> FormFieldView {
        FormFieldView {
            ident: self.ident@,
            rename: self.rename.deep_view(),
            form_name: self.form_name@,
            ty: self.ty@,
        }
    }
}

impl DeepView for FormField {
    type V = FormFieldView;

    open spec fn deep_view(&self) -> FormFieldView {
        self@
    }
}

impl View for Action {
    type V = ActionView;

    open spec fn view(&self) -> ActionView {
        ActionView {
            ident: self.ident@,
            form: self.form.deep_view(),
            other_arguments: self.other_arguments.deep_view(),
        }
    }
}

impl DeepView for Action {
    type V = ActionView;

    open spec fn deep_view(&self) -> ActionView {
        self@
    }
}

/// The name of the metadata constant for the form field that binds `ident`.
pub open spec fn form_name_of(ident: Seq<char>) -> Seq<char> {
    ident + "_name"@
}

impl FormFieldView {
    /// Whether the metadata constant of the field is named after the name
    /// that the field binds.
    pub open spec fn is_well_formed(self) -> bool {
        self.form_name == form_name_of(self.ident)
    }
}

impl ActionView {
    /// Whether every form field of the action is well formed.
    pub open spec fn is_well_formed(self) -> bool {
        forall|index: int| 0 <= index < self.form.len() ==> (#[trigger] self.form[index]).is_well_formed()
    }
}

/// A copy of an optional name.
pub(crate) fn clone_name(name: &Option<String>) -> (copy: Option<String>)
    ensures
        copy.deep_view() == name.deep_view(),
{
    match name {
        Some(name) => Some(name.clone()),
        None => None,
    }
}

impl FormField {
    /// The form field for a parameter that binds `ident` and has the type
    /// `ty`, under the name `rename` in the submitted form where one is
    /// given.
    pub fn new(ident: String, rename: Option<String>, ty: String) -> (field: FormField)
        ensures
            field@ == (FormFieldView {
                ident: ident@,
                rename: rename.deep_view(),
                form_name: form_name_of(ident@),
                ty: ty@,
            }),
            field@.is_well_formed(),
    {
        let mut form_name = ident.clone();
        form_name.append("_name");
        FormField { ident, rename, form_name, ty }
    }
}

} // verus!
