//! The form descriptor of an action: the structure that a submitted form is
//! decoded into, and the metadata that a page needs to write that form.
//! Both are built from the same form fields in the same order, so a page
//! that takes its field names from the metadata names exactly the fields
//! that the decoder expects.

use crate::emit::{concat_all, joined};
use crate::model::{clone_name, Action, ActionView, FormField, FormFieldView};
use crate::text::{lemma_literal_denotes_text, literal_value, string_literal, string_literal_text};
use vstd::prelude::*;
use vstd::string::*;

verus! {

/// One field of the structure that a submitted form is decoded into.
#[derive(Clone, Debug, PartialEq, Eq)]
pub struct DecodeField {
    /// The name of the field in the structure.
    pub ident: String,
    /// The name of the field in the submitted form, where it differs from
    /// `ident`.
    pub rename: Option<String>,
    /// The type of the field, as source text.
    pub ty: String,
}

/// One constant of the metadata of a form: the name of a form field.
#[derive(Clone, Debug, PartialEq, Eq)]
pub struct NameConstant {
    /// The name of the constant.
    pub ident: String,
    /// The name of the field in the submitted form.
    pub value: String,
}

/// What the generator knows of the form of one action.
#[derive(Clone, Debug, PartialEq, Eq)]
pub struct FormDescriptor {
    /// The name of the action.
    pub ident: String,
    /// The route of the form: a relative URL that keeps the path of the page
    /// and names the action in its query.
    pub action: String,
    /// The action key that a request for this action carries in its query.
    pub route_match: String,
    /// The metadata constants, one for each form field, in declared order.
    pub names: Vec<NameConstant>,
    /// The fields of the decode structure, one for each form field, in
    /// declared order.
    pub fields: Vec<DecodeField>,
}

/// What [`DecodeField`] holds.
pub struct DecodeFieldView {
    pub ident: Seq<char>,
    pub rename: Option<Seq<char>>,
    pub ty: Seq<char>,
}

impl DecodeFieldView {
    /// The name under which the decoder looks for the field in the
    /// submitted form: its rename, or without one its own name.
    pub open spec fn external_name(self) -> Seq<char> {
        match self.rename {
            Some(name) => name,
            None => self.ident,
        }
    }
}

/// What [`NameConstant`] holds.
pub struct NameConstantView {
    pub ident: Seq<char>,
    pub value: Seq<char>,
}

/// What [`FormDescriptor`] holds.
pub struct FormDescriptorView {
    pub ident: Seq<char>,
    pub action: Seq<char>,
    pub route_match: Seq<char>,
    pub names: Seq<NameConstantView>,
    pub fields: Seq<DecodeFieldView>,
}

impl View for DecodeField {
    type V = DecodeFieldView;

    open spec fn view(&self) -> DecodeFieldView {
        DecodeFieldView { ident: self.ident@, rename: self.rename.deep_view(), ty: self.ty@ }
    }
}

impl DeepView for DecodeField {
    type V = DecodeFieldView;

    open spec fn deep_view(&self) -> DecodeFieldView {
        self@
    }
}

impl View for NameConstant {
    type V = NameConstantView;

    open spec fn view(&self) -> NameConstantView {
        NameConstantView { ident: self.ident@, value: self.value@ }
    }
}

impl DeepView for NameConstant {
    type V = NameConstantView;

    open spec fn deep_view(&self) -> NameConstantView {
        self@
    }
}

impl View for FormDescriptor {
    type V = FormDescriptorView;

    open spec fn view(&self) -> FormDescriptorView {
        FormDescriptorView {
            ident: self.ident@,
            action: self.action@,
            route_match: self.route_match@,
            names: self.names.deep_view(),
            fields: self.fields.deep_view(),
        }
    }
}

impl DeepView for FormDescriptor {
    type V = FormDescriptorView;

    open spec fn deep_view(&self) -> FormDescriptorView {
        self@
    }
}

/// The name of a form field in the submitted form: its rename, or without
/// one the name that the parameter binds.
pub open spec fn external_name_of(field: FormFieldView) -> Seq<char> {
    match field.rename {
        Some(name) => name,
        None => field.ident,
    }
}

/// The action key of the action named `ident`.
pub open spec fn route_match_of(ident: Seq<char>) -> Seq<char> {
    "/"@ + ident
}

/// The route of the form of the action named `ident`.
pub open spec fn route_of(ident: Seq<char>) -> Seq<char> {
    "?/"@ + ident
}

/// The field of the decode structure for a form field.
pub open spec fn decode_field_of(field: FormFieldView) -> DecodeFieldView {
    DecodeFieldView { ident: field.ident, rename: field.rename, ty: field.ty }
}

/// The metadata constant for a form field.
pub open spec fn name_constant_of(field: FormFieldView) -> NameConstantView {
    NameConstantView { ident: field.form_name, value: external_name_of(field) }
}

/// The fields of the decode structure for the form fields of an action.
pub open spec fn decode_fields_of(form: Seq<FormFieldView>) -> Seq<DecodeFieldView> {
    form.map_values(|field: FormFieldView| decode_field_of(field))
}

/// The metadata constants for the form fields of an action.
pub open spec fn name_constants_of(form: Seq<FormFieldView>) -> Seq<NameConstantView> {
    form.map_values(|field: FormFieldView| name_constant_of(field))
}

/// The form descriptor of an action.
pub open spec fn descriptor_of(action: ActionView) -> FormDescriptorView {
    FormDescriptorView {
        ident: action.ident,
        action: route_of(action.ident),
        route_match: route_match_of(action.ident),
        names: name_constants_of(action.form),
        fields: decode_fields_of(action.form),
    }
}

/// The metadata and the decoder of an action agree: they have one entry for
/// each form field, in the same order, and the name that the metadata
/// constant of a field exposes is the name under which the decoder looks
/// for that field: its rename where it has one, its own name otherwise.
pub proof fn lemma_metadata_agrees_with_decoder(action: ActionView, index: int)
    requires
        0 <= index < action.form.len(),
    ensures
        descriptor_of(action).names.len() == action.form.len(),
        descriptor_of(action).fields.len() == action.form.len(),
        descriptor_of(action).names[index].ident == action.form[index].form_name,
        descriptor_of(action).fields[index].ident == action.form[index].ident,
        descriptor_of(action).fields[index].ty == action.form[index].ty,
        descriptor_of(action).fields[index].rename == action.form[index].rename,
        descriptor_of(action).names[index].value
            == descriptor_of(action).fields[index].external_name(),
        action.form[index].rename matches Some(name) ==> descriptor_of(action).names[index].value
            == name,
        action.form[index].rename is None ==> descriptor_of(action).names[index].value
            == action.form[index].ident,
{
}

impl DecodeField {
    /// The name under which the decoder looks for this field in the
    /// submitted form.
    pub fn external_name(&self) -> (name: String)
        ensures
            name@ == self@.external_name(),
    {
        match &self.rename {
            Some(name) => name.clone(),
            None => self.ident.clone(),
        }
    }
}

impl FormField {
    /// The name of this field in the submitted form.
    pub fn external_name(&self) -> (name: String)
        ensures
            name@ == external_name_of(self@),
    {
        match &self.rename {
            Some(name) => name.clone(),
            None => self.ident.clone(),
        }
    }
}

impl Action {
    /// The action key that a request for this action carries in its query.
    pub fn query(&self) -> (key: String)
        ensures
            key@ == route_match_of(self@.ident),
    {
        let mut key = String::from_str("/");
        key.append(self.ident.as_str());
        key
    }

    /// The route of the form of this action, for the `action` attribute of
    /// the form.
    pub fn route(&self) -> (route: String)
        ensures
            route@ == route_of(self@.ident),
    {
        let mut route = String::from_str("?/");
        route.append(self.ident.as_str());
        route
    }

    /// Builds the form descriptor of this action.
    pub fn describe(&self) -> (descriptor: FormDescriptor)
        ensures
            descriptor@ == descriptor_of(self@),
    {
        let ghost form = self@.form;
        let mut names: Vec<NameConstant> = Vec::new();
        let mut fields: Vec<DecodeField> = Vec::new();
        let mut index: usize = 0;
        while index < self.form.len()
            invariant
                index <= self.form.len(),
                form == self@.form,
                names.deep_view() == name_constants_of(form.take(index as int)),
                fields.deep_view() == decode_fields_of(form.take(index as int)),
            decreases self.form.len() - index,
        {
            let ghost names_before = names.deep_view();
            let ghost fields_before = fields.deep_view();
            let field = &self.form[index];
            names.push(NameConstant { ident: field.form_name.clone(), value: field.external_name() });
            fields.push(
                DecodeField {
                    ident: field.ident.clone(),
                    rename: clone_name(&field.rename),
                    ty: field.ty.clone(),
                },
            );
            proof {
                assert(names.deep_view() =~= names_before.push(name_constant_of(form[index as int])));
                assert(fields.deep_view() =~= fields_before.push(decode_field_of(form[index as int])));
            }
            index = index + 1;
        }
        assert(form.take(index as int) == form);
        FormDescriptor {
            ident: self.ident.clone(),
            action: self.route(),
            route_match: self.query(),
            names,
            fields,
        }
    }
}


/// The source of the attribute that gives a field of the decode structure
/// its name in the submitted form. A field without a rename has none: the
/// decoder then looks for it under its own name.
pub open spec fn rename_attribute(rename: Option<Seq<char>>) -> Seq<char> {
    match rename {
        Some(name) => "#[serde(rename = "@ + string_literal(name) + ")] "@,
        None => Seq::empty(),
    }
}

/// The source of one field of the decode structure: the field with its
/// type, behind the attribute for its rename where it has one.
pub open spec fn decode_line(field: DecodeFieldView) -> Seq<char> {
    rename_attribute(field.rename) + field.ident + ": "@ + field.ty + ",\n"@
}

/// The source of each field of the decode structure.
pub open spec fn decode_lines(fields: Seq<DecodeFieldView>) -> Seq<Seq<char>> {
    fields.map_values(|field: DecodeFieldView| decode_line(field))
}

/// The source of the decode structure: a structure named `Form` that can be
/// decoded from a form body, with the given fields in order.
pub open spec fn struct_declaration_text(fields: Seq<DecodeFieldView>) -> Seq<char> {
    "#[derive(serde::Deserialize)]\nstruct Form {\n"@ + joined(decode_lines(fields)) + "}\n"@
}

/// The source of the field of the metadata record that holds a constant.
pub open spec fn name_declaration(name: NameConstantView) -> Seq<char> {
    "pub(super) "@ + name.ident + ": &'static str,\n"@
}

/// The source of the field of each constant.
pub open spec fn name_declarations(names: Seq<NameConstantView>) -> Seq<Seq<char>> {
    names.map_values(|name: NameConstantView| name_declaration(name))
}

/// The source that gives a constant of the metadata record its value.
pub open spec fn name_definition(name: NameConstantView) -> Seq<char> {
    name.ident + ": "@ + string_literal(name.value) + ",\n"@
}

/// The source that gives each constant its value.
pub open spec fn name_definitions(names: Seq<NameConstantView>) -> Seq<Seq<char>> {
    names.map_values(|name: NameConstantView| name_definition(name))
}

/// The source of the metadata of an action: a module named as the action,
/// which holds the type `Form` of the metadata record and the record itself
/// as the constant `FORM`, with the route of the form in its field `action`
/// and the name of each form field in a field of its own.
pub open spec fn metadata_module_text(descriptor: FormDescriptorView) -> Seq<char> {
    "mod "@ + descriptor.ident
        + " {\npub(super) struct Form {\npub(super) action: &'static str,\n"@ + joined(
        name_declarations(descriptor.names),
    ) + "}\npub(super) const FORM: Form = Form {\naction: "@ + string_literal(descriptor.action)
        + ",\n"@ + joined(name_definitions(descriptor.names)) + "};\n}\n"@
}

/// The generated source says of each form field what the descriptor holds:
/// the literal written into the metadata and the literal written into the
/// decode structure both denote the name of the field in the submitted
/// form. The decode structure carries the attribute for a rename exactly
/// where the field has one; a field without one is written with its name
/// and type alone, and the decoder looks for it under that name.
pub proof fn lemma_written_names_denote_the_external_name(action: ActionView, index: int)
    requires
        0 <= index < action.form.len(),
    ensures
        name_definition(descriptor_of(action).names[index]) == action.form[index].form_name + ": "@
            + string_literal(external_name_of(action.form[index])) + ",\n"@,
        literal_value(string_literal(external_name_of(action.form[index]))) == Some(
            external_name_of(action.form[index]),
        ),
        action.form[index].rename matches Some(name) ==> decode_line(
            descriptor_of(action).fields[index],
        ) == "#[serde(rename = "@ + string_literal(name) + ")] "@ + action.form[index].ident + ": "@
            + action.form[index].ty + ",\n"@,
        action.form[index].rename is None ==> decode_line(descriptor_of(action).fields[index])
            == action.form[index].ident + ": "@ + action.form[index].ty + ",\n"@,
{
    lemma_literal_denotes_text(external_name_of(action.form[index]));
}

/// The attribute for a rename is written exactly for a field that has one.
pub proof fn lemma_attribute_marks_a_rename(rename: Option<Seq<char>>)
    ensures
        rename is Some <==> rename_attribute(rename).len() > 0,
{
    reveal_strlit("#[serde(rename = ");
}

fn decode_line_text(field: &DecodeField) -> (line: String)
    ensures
        line@ == decode_line(field@),
{
    let mut line = String::new();
    if let Some(name) = &field.rename {
        line.append("#[serde(rename = ");
        let literal = string_literal_text(name.as_str());
        line.append(literal.as_str());
        line.append(")] ");
    }
    line.append(field.ident.as_str());
    line.append(": ");
    line.append(field.ty.as_str());
    line.append(",\n");
    line
}

fn name_declaration_text(name: &NameConstant) -> (line: String)
    ensures
        line@ == name_declaration(name@),
{
    let mut line = String::from_str("pub(super) ");
    line.append(name.ident.as_str());
    line.append(": &'static str,\n");
    line
}

fn name_definition_text(name: &NameConstant) -> (line: String)
    ensures
        line@ == name_definition(name@),
{
    let mut line = name.ident.clone();
    line.append(": ");
    let literal = string_literal_text(name.value.as_str());
    line.append(literal.as_str());
    line.append(",\n");
    line
}

impl FormDescriptor {
    /// Writes the decode structure of the form.
    pub fn struct_declaration(&self) -> (source: String)
        ensures
            source@ == struct_declaration_text(self@.fields),
    {
        let ghost fields = self@.fields;
        let mut lines: Vec<String> = Vec::new();
        let mut index: usize = 0;
        while index < self.fields.len()
            invariant
                index <= self.fields.len(),
                fields == self@.fields,
                lines.deep_view() == decode_lines(fields.take(index as int)),
            decreases self.fields.len() - index,
        {
            let ghost before = lines.deep_view();
            lines.push(decode_line_text(&self.fields[index]));
            assert(lines.deep_view() =~= before.push(decode_line(fields[index as int])));
            index = index + 1;
        }
        assert(fields.take(index as int) == fields);
        let mut source = String::from_str("#[derive(serde::Deserialize)]\nstruct Form {\n");
        let body = concat_all(&lines);
        source.append(body.as_str());
        source.append("}\n");
        source
    }

    /// Writes the metadata of the form.
    pub fn metadata_module(&self) -> (source: String)
        ensures
            source@ == metadata_module_text(self@),
    {
        let ghost names = self@.names;
        let mut declarations: Vec<String> = Vec::new();
        let mut definitions: Vec<String> = Vec::new();
        let mut index: usize = 0;
        while index < self.names.len()
            invariant
                index <= self.names.len(),
                names == self@.names,
                declarations.deep_view() == name_declarations(names.take(index as int)),
                definitions.deep_view() == name_definitions(names.take(index as int)),
            decreases self.names.len() - index,
        {
            let ghost declarations_before = declarations.deep_view();
            let ghost definitions_before = definitions.deep_view();
            declarations.push(name_declaration_text(&self.names[index]));
            definitions.push(name_definition_text(&self.names[index]));
            assert(declarations.deep_view() =~= declarations_before.push(
                name_declaration(names[index as int]),
            ));
            assert(definitions.deep_view() =~= definitions_before.push(
                name_definition(names[index as int]),
            ));
            index = index + 1;
        }
        assert(names.take(index as int) == names);
        let mut source = String::from_str("mod ");
        source.append(self.ident.as_str());
        source.append(" {\npub(super) struct Form {\npub(super) action: &'static str,\n");
        let declared = concat_all(&declarations);
        source.append(declared.as_str());
        source.append("}\npub(super) const FORM: Form = Form {\naction: ");
        let route = string_literal_text(self.action.as_str());
        source.append(route.as_str());
        source.append(",\n");
        let defined = concat_all(&definitions);
        source.append(defined.as_str());
        source.append("};\n}\n");
        source
    }
}

impl Action {
    /// Writes the decode structure of the form of this action.
    pub fn struct_declaration(&self) -> (source: String)
        ensures
            source@ == struct_declaration_text(descriptor_of(self@).fields),
    {
        self.describe().struct_declaration()
    }
}

} // verus!
