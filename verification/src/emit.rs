//! Emission: the artifact set as source text.
//!
//! Every list is written with its separator after each element, the last
//! one included, so that an empty list leaves no trace and every element is
//! written the same way.

use vstd::prelude::*;
use crate::assemble::{commandify, generated};
use crate::error::ValidationError;
use crate::artifact::{
    ArtifactSet, ArtifactSetView, BehaviorBody, BehaviorBodyView, BehaviorImpl, BehaviorImplView,
    DataTypeDecl, DataTypeDeclView, ExtensionBody, ExtensionBodyView, ExtensionImpl,
    ExtensionImplView, ExtensionTarget, Forwarded, ForwardedView, FunctionBody, FunctionBodyView,
    FunctionDecl, FunctionDeclView, ResultRouting, ResultRoutingView, SystemInput, SystemInputView,
    WorldParameter, WorldParameterView,
};
use crate::model::{
    Config, ConfigView, FunctionSpec, FunctionSpecView, GenericParam, GenericParamView, Parameter,
    ParameterView, Text,
};
use crate::naming::{command_word, command_word_of, ResolvedNames, ResolvedNamesView};
use crate::text::parameter_names;

verus! {

/// The parts, each followed by `end`.
pub open spec fn terminated(parts: Seq<Text>, end: Text) -> Text
    decreases parts.len(),
{
    if parts.len() == 0 {
        Seq::empty()
    } else {
        terminated(parts.drop_last(), end) + parts.last() + end
    }
}

/// Writes the parts, each followed by `end`.
pub fn write_terminated(parts: &Vec<String>, end: &str) -> (text: String)
    ensures
        text@ == terminated(parts.deep_view(), end@),
{
    let ghost all = parts.deep_view();
    let mut text = String::new();
    let mut i: usize = 0;
    while i < parts.len()
        invariant
            i <= parts.len(),
            all == parts.deep_view(),
            text@ == terminated(all.take(i as int), end@),
        decreases parts.len() - i,
    {
        proof {
            assert(all.take(i + 1).drop_last() =~= all.take(i as int));
            assert(all.take(i + 1).last() == parts[i as int]@);
        }
        text.append(parts[i].as_str());
        text.append(end);
        i += 1;
    }
    assert(all.take(i as int) =~= all);
    text
}

/// The generic parameters as declared, one text each.
pub open spec fn generic_declarations(generics: Seq<GenericParamView>) -> Seq<Text> {
    Seq::new(generics.len(), |i: int| generics[i].declaration)
}

/// The bare names of the generic parameters, one text each.
pub open spec fn generic_names(generics: Seq<GenericParamView>) -> Seq<Text> {
    Seq::new(generics.len(), |i: int| generics[i].name)
}

/// A list between angle brackets; nothing at all where the list is empty.
pub open spec fn angle_list(parts: Seq<Text>) -> Text {
    if parts.len() == 0 {
        Seq::empty()
    } else {
        "<"@ + terminated(parts, ", "@) + ">"@
    }
}

/// The generic parameter list of a declaration.
pub open spec fn generics_text(generics: Seq<GenericParamView>) -> Text {
    angle_list(generic_declarations(generics))
}

/// The generic argument list that names the declared parameters.
pub open spec fn generic_arguments_text(generics: Seq<GenericParamView>) -> Text {
    angle_list(generic_names(generics))
}

/// Writes a list between angle brackets.
pub fn write_angle_list(parts: &Vec<String>) -> (text: String)
    ensures
        text@ == angle_list(parts.deep_view()),
{
    if parts.len() == 0 {
        assert(parts.deep_view().len() == 0);
        String::new()
    } else {
        assert(parts.deep_view().len() != 0);
        let mut text = String::from_str("<");
        text.append(write_terminated(parts, ", ").as_str());
        text.append(">");
        text
    }
}

/// Writes the generic parameter list of a declaration.
pub fn write_generics(generics: &Vec<GenericParam>) -> (text: String)
    ensures
        text@ == generics_text(generics.deep_view()),
{
    let mut declarations: Vec<String> = Vec::new();
    let mut i: usize = 0;
    while i < generics.len()
        invariant
            i <= generics.len(),
            declarations.len() == i,
            forall|j: int| 0 <= j < i ==> declarations[j]@ == generics[j].declaration@,
        decreases generics.len() - i,
    {
        declarations.push(generics[i].declaration.clone());
        i += 1;
    }
    assert(declarations.deep_view() =~= generic_declarations(generics.deep_view()));
    write_angle_list(&declarations)
}

/// Writes the generic argument list that names the declared parameters.
pub fn write_generic_arguments(generics: &Vec<GenericParam>) -> (text: String)
    ensures
        text@ == generic_arguments_text(generics.deep_view()),
{
    let mut names: Vec<String> = Vec::new();
    let mut i: usize = 0;
    while i < generics.len()
        invariant
            i <= generics.len(),
            names.len() == i,
            forall|j: int| 0 <= j < i ==> names[j]@ == generics[j].name@,
        decreases generics.len() - i,
    {
        names.push(generics[i].name.clone());
        i += 1;
    }
    assert(names.deep_view() =~= generic_names(generics.deep_view()));
    write_angle_list(&names)
}

/// A parameter as a method declares it.
pub open spec fn parameter_text(parameter: ParameterView) -> Text {
    parameter.name + ": "@ + parameter.ty
}

/// The parameters as a method declares them, one text each.
pub open spec fn parameter_declarations(parameters: Seq<ParameterView>) -> Seq<Text> {
    Seq::new(parameters.len(), |i: int| parameter_text(parameters[i]))
}

/// The parameters as public fields of the data type, one text each.
pub open spec fn field_declarations(fields: Seq<ParameterView>) -> Seq<Text> {
    Seq::new(fields.len(), |i: int| "pub "@ + parameter_text(fields[i]))
}

/// Writes a parameter as a method declares it.
pub fn write_parameter(parameter: &Parameter) -> (text: String)
    ensures
        text@ == parameter_text(parameter.deep_view()),
{
    let mut text = parameter.name.clone();
    text.append(": ");
    text.append(parameter.ty.as_str());
    text
}

/// Writes the parameters as a method declares them.
pub fn write_parameter_declarations(parameters: &Vec<Parameter>) -> (texts: Vec<String>)
    ensures
        texts.deep_view() == parameter_declarations(parameters.deep_view()),
{
    let mut texts: Vec<String> = Vec::new();
    let mut i: usize = 0;
    while i < parameters.len()
        invariant
            i <= parameters.len(),
            texts.len() == i,
            forall|j: int| 0 <= j < i ==> texts[j]@ == parameter_text(parameters[j].deep_view()),
        decreases parameters.len() - i,
    {
        texts.push(write_parameter(&parameters[i]));
        i += 1;
    }
    assert(texts.deep_view() =~= parameter_declarations(parameters.deep_view()));
    texts
}

/// Writes the parameters as public fields.
pub fn write_field_declarations(fields: &Vec<Parameter>) -> (texts: Vec<String>)
    ensures
        texts.deep_view() == field_declarations(fields.deep_view()),
{
    let mut texts: Vec<String> = Vec::new();
    let mut i: usize = 0;
    while i < fields.len()
        invariant
            i <= fields.len(),
            texts.len() == i,
            forall|j: int|
                0 <= j < i ==> texts[j]@ == "pub "@ + parameter_text(fields[j].deep_view()),
        decreases fields.len() - i,
    {
        let mut text = String::from_str("pub ");
        text.append(write_parameter(&fields[i]).as_str());
        texts.push(text);
        i += 1;
    }
    assert(texts.deep_view() =~= field_declarations(fields.deep_view()));
    texts
}

/// A return annotation; nothing where no type is declared.
pub open spec fn return_annotation(return_type: Option<Text>) -> Text {
    match return_type {
        Some(ty) => " -> "@ + ty,
        None => Seq::empty(),
    }
}

/// Writes a return annotation.
pub fn write_return_annotation(return_type: &Option<String>) -> (text: String)
    ensures
        text@ == return_annotation(return_type.deep_view()),
{
    match return_type {
        Some(ty) => {
            let mut text = String::from_str(" -> ");
            text.append(ty.as_str());
            text
        },
        None => String::new(),
    }
}

/// One arm's handler call; nothing where no handler is configured.
pub open spec fn handler_call(payload: Text, handler: Option<Text>) -> Text {
    match handler {
        Some(name) => "world.run_system_once_with("@ + payload + ", "@ + name + ")"@,
        None => Seq::empty(),
    }
}

/// Writes one arm's handler call.
pub fn write_handler_call(payload: &str, handler: &Option<String>) -> (text: String)
    ensures
        text@ == handler_call(payload@, handler.deep_view()),
{
    match handler {
        Some(name) => {
            let mut text = String::from_str("world.run_system_once_with(");
            text.append(payload);
            text.append(", ");
            text.append(name.as_str());
            text.append(")");
            text
        },
        None => String::new(),
    }
}

/// The routing block: one call of the relocated function, then one arm
/// for each outcome.
pub open spec fn routing_text(routing: ResultRoutingView) -> Text {
    "{ use "@ + routing.root_namespace + "::system::RunSystemOnce; let result = "@ + routing.callee
        + "(world, "@ + terminated(routing.arguments, ", "@) + "); match result { Ok(ok) => { "@
        + handler_call("ok"@, routing.on_success) + " }, Err(error) => { "@ + handler_call(
        "error"@,
        routing.on_error,
    ) + " }, } }"@
}

/// Writes the routing block.
pub fn write_routing(routing: &ResultRouting) -> (text: String)
    ensures
        text@ == routing_text(routing.deep_view()),
{
    let mut text = String::from_str("{ use ");
    text.append(routing.root_namespace.as_str());
    text.append("::system::RunSystemOnce; let result = ");
    text.append(routing.callee.as_str());
    text.append("(world, ");
    text.append(write_terminated(&routing.arguments, ", ").as_str());
    text.append("); match result { Ok(ok) => { ");
    text.append(write_handler_call("ok", &routing.on_success).as_str());
    text.append(" }, Err(error) => { ");
    text.append(write_handler_call("error", &routing.on_error).as_str());
    text.append(" }, } }");
    text
}

/// The body of a function, as a block.
pub open spec fn body_text(body: FunctionBodyView) -> Text {
    match body {
        FunctionBodyView::Declared(block) => block,
        FunctionBodyView::Routing(routing) => routing_text(routing),
    }
}

/// Writes the body of a function.
pub fn write_body(body: &FunctionBody) -> (text: String)
    ensures
        text@ == body_text(body.deep_view()),
{
    match body {
        FunctionBody::Declared(block) => block.clone(),
        FunctionBody::Routing(routing) => write_routing(routing),
    }
}

/// What precedes the item keyword of the data type, and, after the lint
/// allowance, that of each function: attributes, visibility, qualifiers.
pub open spec fn item_prefix(forwarded: ForwardedView) -> Text {
    terminated(forwarded.attributes, " "@) + forwarded.visibility + " "@ + forwarded.qualifiers
}

/// Writes what precedes the item keyword.
pub fn write_item_prefix(forwarded: &Forwarded) -> (text: String)
    ensures
        text@ == item_prefix(forwarded.deep_view()),
{
    let mut text = write_terminated(&forwarded.attributes, " ");
    text.append(forwarded.visibility.as_str());
    text.append(" ");
    text.append(forwarded.qualifiers.as_str());
    text
}

/// An emitted function.
pub open spec fn function_text(forwarded: ForwardedView, function: FunctionDeclView) -> Text {
    "#[allow(unused)] "@ + item_prefix(forwarded) + " fn "@ + function.name + generics_text(
        forwarded.generics,
    ) + "("@ + forwarded.inputs + ")"@ + return_annotation(function.return_type) + " "@ + body_text(
        function.body,
    )
}

/// Writes an emitted function.
pub fn write_function(forwarded: &Forwarded, function: &FunctionDecl) -> (text: String)
    ensures
        text@ == function_text(forwarded.deep_view(), function.deep_view()),
{
    let mut text = String::from_str("#[allow(unused)] ");
    text.append(write_item_prefix(forwarded).as_str());
    text.append(" fn ");
    text.append(function.name.as_str());
    text.append(write_generics(&forwarded.generics).as_str());
    text.append("(");
    text.append(forwarded.inputs.as_str());
    text.append(")");
    text.append(write_return_annotation(&function.return_type).as_str());
    text.append(" ");
    text.append(write_body(&function.body).as_str());
    text
}

/// The field list of the data type: a bare semicolon for a unit type,
/// else the public fields between braces.
pub open spec fn field_list_text(fields: Seq<ParameterView>) -> Text {
    if fields.len() == 0 {
        ";"@
    } else {
        " { "@ + terminated(field_declarations(fields), ", "@) + "}"@
    }
}

/// Writes the field list of the data type.
pub fn write_field_list(fields: &Vec<Parameter>) -> (text: String)
    ensures
        text@ == field_list_text(fields.deep_view()),
{
    if fields.len() == 0 {
        assert(fields.deep_view().len() == 0);
        String::from_str(";")
    } else {
        assert(fields.deep_view().len() != 0);
        let mut text = String::from_str(" { ");
        text.append(write_terminated(&write_field_declarations(fields), ", ").as_str());
        text.append("}");
        text
    }
}

/// The declaration of the data type.
pub open spec fn data_type_text(forwarded: ForwardedView, data_type: DataTypeDeclView) -> Text {
    item_prefix(forwarded) + " struct "@ + data_type.name + generics_text(forwarded.generics)
        + field_list_text(data_type.fields)
}

/// Writes the declaration of the data type.
pub fn write_data_type(forwarded: &Forwarded, data_type: &DataTypeDecl) -> (text: String)
    ensures
        text@ == data_type_text(forwarded.deep_view(), data_type.deep_view()),
{
    let mut text = write_item_prefix(forwarded);
    text.append(" struct ");
    text.append(data_type.name.as_str());
    text.append(write_generics(&forwarded.generics).as_str());
    text.append(write_field_list(&data_type.fields).as_str());
    text
}

/// The statement that unpacks a value of the data type into the given
/// bindings; nothing at all where there are none.
pub open spec fn destructuring_text(data_type_name: Text, bindings: Seq<Text>) -> Text {
    if bindings.len() == 0 {
        Seq::empty()
    } else {
        "let "@ + data_type_name + " { "@ + terminated(bindings, ", "@) + "} = self; "@
    }
}

/// Writes the statement that unpacks a value of the data type.
pub fn write_destructuring(data_type_name: &str, bindings: &Vec<String>) -> (text: String)
    ensures
        text@ == destructuring_text(data_type_name@, bindings.deep_view()),
{
    if bindings.len() == 0 {
        assert(bindings.deep_view().len() == 0);
        String::new()
    } else {
        assert(bindings.deep_view().len() != 0);
        let mut text = String::from_str("let ");
        text.append(data_type_name);
        text.append(" { ");
        text.append(write_terminated(bindings, ", ").as_str());
        text.append("} = self; ");
        text
    }
}

/// The expression that builds a value of the data type from the given
/// bindings.
pub open spec fn construction_text(data_type_name: Text, bindings: Seq<Text>) -> Text {
    data_type_name + " { "@ + terminated(bindings, ", "@) + "}"@
}

/// Writes the expression that builds a value of the data type.
pub fn write_construction(data_type_name: &str, bindings: &Vec<String>) -> (text: String)
    ensures
        text@ == construction_text(data_type_name@, bindings.deep_view()),
{
    let mut text = String::from_str(data_type_name);
    text.append(" { ");
    text.append(write_terminated(bindings, ", ").as_str());
    text.append("}");
    text
}

/// The statement that runs `system` once on `receiver`.
pub open spec fn run_text(receiver: Text, input: SystemInputView, system: Text) -> Text {
    match input {
        SystemInputView::Nothing => receiver + ".run_system_once("@ + system + ");"@,
        SystemInputView::Single(binding) => receiver + ".run_system_once_with("@ + binding + ", "@
            + system + ");"@,
        SystemInputView::Tuple(bindings) => receiver + ".run_system_once_with(("@ + terminated(
            bindings,
            ", "@,
        ) + "), "@ + system + ");"@,
    }
}

/// Writes the statement that runs `system` once on `receiver`.
pub fn write_run(receiver: &str, input: &SystemInput, system: &str) -> (text: String)
    ensures
        text@ == run_text(receiver@, input.deep_view(), system@),
{
    let mut text = String::from_str(receiver);
    match input {
        SystemInput::Nothing => {
            text.append(".run_system_once(");
        },
        SystemInput::Single(binding) => {
            text.append(".run_system_once_with(");
            text.append(binding.as_str());
            text.append(", ");
        },
        SystemInput::Tuple(bindings) => {
            text.append(".run_system_once_with((");
            text.append(write_terminated(bindings, ", ").as_str());
            text.append("), ");
        },
    }
    text.append(system);
    text.append(");");
    text
}

/// The import of the run-once facility from under `root`.
pub open spec fn import_text(root: Text) -> Text {
    "use "@ + root + "::system::RunSystemOnce; "@
}

/// Writes the import of the run-once facility.
pub fn write_import(root: &str) -> (text: String)
    ensures
        text@ == import_text(root@),
{
    let mut text = String::from_str("use ");
    text.append(root);
    text.append("::system::RunSystemOnce; ");
    text
}

/// The subject parameter of the behaviour, with its comma.
pub open spec fn subject_parameter_text(subject: Option<ParameterView>) -> Text {
    match subject {
        Some(parameter) => parameter_text(parameter) + ", "@,
        None => Seq::empty(),
    }
}

/// Writes the subject parameter of the behaviour.
pub fn write_subject_parameter(subject: &Option<Parameter>) -> (text: String)
    ensures
        text@ == subject_parameter_text(subject.deep_view()),
{
    match subject {
        Some(parameter) => {
            let mut text = write_parameter(parameter);
            text.append(", ");
            text
        },
        None => String::new(),
    }
}

/// The world parameter of the behaviour.
pub open spec fn world_parameter_text(root: Text, world: WorldParameterView) -> Text {
    match world {
        WorldParameterView::Declared(declaration) => declaration,
        WorldParameterView::Framework => "world: &mut "@ + root + "::world::World"@,
    }
}

/// Writes the world parameter of the behaviour.
pub fn write_world_parameter(root: &str, world: &WorldParameter) -> (text: String)
    ensures
        text@ == world_parameter_text(root@, world.deep_view()),
{
    match world {
        WorldParameter::Declared(declaration) => declaration.clone(),
        WorldParameter::Framework => {
            let mut text = String::from_str("world: &mut ");
            text.append(root);
            text.append("::world::World");
            text
        },
    }
}

/// The statements of the behaviour.
pub open spec fn behavior_body_text(names: ResolvedNamesView, behavior: BehaviorImplView) -> Text {
    match behavior.body {
        BehaviorBodyView::Inline(body) => destructuring_text(
            names.data_type_name,
            behavior.destructured,
        ) + body_text(body),
        BehaviorBodyView::RunSystem { system, input } => import_text(names.root_namespace)
            + destructuring_text(names.data_type_name, behavior.destructured) + run_text(
            "world"@,
            input,
            system,
        ),
    }
}

/// Writes the statements of the behaviour.
pub fn write_behavior_body(names: &ResolvedNames, behavior: &BehaviorImpl) -> (text: String)
    ensures
        text@ == behavior_body_text(names.deep_view(), behavior.deep_view()),
{
    match &behavior.body {
        BehaviorBody::Inline(body) => {
            let mut text = write_destructuring(
                names.data_type_name.as_str(),
                &behavior.destructured,
            );
            text.append(write_body(body).as_str());
            text
        },
        BehaviorBody::RunSystem { system, input } => {
            let mut text = write_import(names.root_namespace.as_str());
            text.append(
                write_destructuring(names.data_type_name.as_str(), &behavior.destructured).as_str(),
            );
            text.append(write_run("world", input, system.as_str()).as_str());
            text
        },
    }
}

/// The implementation of the framework's command trait.
pub open spec fn behavior_text(
    names: ResolvedNamesView,
    forwarded: ForwardedView,
    behavior: BehaviorImplView,
) -> Text {
    "impl"@ + generics_text(forwarded.generics) + " "@ + names.root_namespace + "::system::"@
        + command_word(behavior.scope) + " for "@ + names.data_type_name + generic_arguments_text(
        forwarded.generics,
    ) + " { fn apply(self, "@ + subject_parameter_text(behavior.subject) + world_parameter_text(
        names.root_namespace,
        behavior.world,
    ) + ") { "@ + behavior_body_text(names, behavior) + " } }"@
}

/// Writes the implementation of the framework's command trait.
pub fn write_behavior(names: &ResolvedNames, forwarded: &Forwarded, behavior: &BehaviorImpl) -> (text:
    String)
    ensures
        text@ == behavior_text(names.deep_view(), forwarded.deep_view(), behavior.deep_view()),
{
    let mut text = String::from_str("impl");
    text.append(write_generics(&forwarded.generics).as_str());
    text.append(" ");
    text.append(names.root_namespace.as_str());
    text.append("::system::");
    text.append(command_word_of(behavior.scope));
    text.append(" for ");
    text.append(names.data_type_name.as_str());
    text.append(write_generic_arguments(&forwarded.generics).as_str());
    text.append(" { fn apply(self, ");
    text.append(write_subject_parameter(&behavior.subject).as_str());
    text.append(write_world_parameter(names.root_namespace.as_str(), &behavior.world).as_str());
    text.append(") { ");
    text.append(write_behavior_body(names, behavior).as_str());
    text.append(" } }");
    text
}

/// The path of a target type under `root`.
pub open spec fn target_text(root: Text, target: ExtensionTarget) -> Text {
    match target {
        ExtensionTarget::Commands => root + "::system::Commands<'_, '_>"@,
        ExtensionTarget::EntityCommands => root + "::system::EntityCommands<'_>"@,
        ExtensionTarget::World => root + "::world::World"@,
        ExtensionTarget::EntityWorldMut => root + "::world::EntityWorldMut<'_>"@,
    }
}

/// Writes the path of a target type.
pub fn write_target(root: &str, target: ExtensionTarget) -> (text: String)
    ensures
        text@ == target_text(root@, target),
{
    let mut text = String::from_str(root);
    match target {
        ExtensionTarget::Commands => text.append("::system::Commands<'_, '_>"),
        ExtensionTarget::EntityCommands => text.append("::system::EntityCommands<'_>"),
        ExtensionTarget::World => text.append("::world::World"),
        ExtensionTarget::EntityWorldMut => text.append("::world::EntityWorldMut<'_>"),
    }
    text
}

/// The head of the extension method: its name, generics, parameters and
/// return annotation.
pub open spec fn method_head_text(
    names: ResolvedNamesView,
    forwarded: ForwardedView,
    extension: ExtensionImplView,
) -> Text {
    "fn "@ + names.public_name + generics_text(forwarded.generics) + "(&mut self, "@ + terminated(
        parameter_declarations(extension.parameters),
        ", "@,
    ) + ")"@ + return_annotation(extension.return_type)
}

/// Writes the head of the extension method.
pub fn write_method_head(names: &ResolvedNames, forwarded: &Forwarded, extension: &ExtensionImpl) -> (text:
    String)
    ensures
        text@ == method_head_text(names.deep_view(), forwarded.deep_view(), extension.deep_view()),
{
    let mut text = String::from_str("fn ");
    text.append(names.public_name.as_str());
    text.append(write_generics(&forwarded.generics).as_str());
    text.append("(&mut self, ");
    text.append(
        write_terminated(&write_parameter_declarations(&extension.parameters), ", ").as_str(),
    );
    text.append(")");
    text.append(write_return_annotation(&extension.return_type).as_str());
    text
}

/// The definition of the extension trait.
pub open spec fn trait_definition_text(
    names: ResolvedNamesView,
    forwarded: ForwardedView,
    extension: ExtensionImplView,
) -> Text {
    "pub trait "@ + names.trait_name + " { "@ + terminated(forwarded.docs, " "@) + method_head_text(
        names,
        forwarded,
        extension,
    ) + "; }"@
}

/// Writes the definition of the extension trait.
pub fn write_trait_definition(
    names: &ResolvedNames,
    forwarded: &Forwarded,
    extension: &ExtensionImpl,
) -> (text: String)
    ensures
        text@ == trait_definition_text(
            names.deep_view(),
            forwarded.deep_view(),
            extension.deep_view(),
        ),
{
    let mut text = String::from_str("pub trait ");
    text.append(names.trait_name.as_str());
    text.append(" { ");
    text.append(write_terminated(&forwarded.docs, " ").as_str());
    text.append(write_method_head(names, forwarded, extension).as_str());
    text.append("; }");
    text
}

/// The call that applies a freshly built value at once.
pub open spec fn apply_text(
    names: ResolvedNamesView,
    forwarded: ForwardedView,
    extension: ExtensionImplView,
) -> Text {
    let qualified = "<"@ + names.data_type_name + generic_arguments_text(forwarded.generics)
        + " as "@ + names.root_namespace + "::system::"@;
    let value = construction_text(names.data_type_name, extension.constructed());
    if extension.target == ExtensionTarget::EntityWorldMut || extension.target
        == ExtensionTarget::EntityCommands {
        "let id = self.id(); self.world_scope(|world| { "@ + qualified + "EntityCommand>::apply("@
            + value + ", id, world); }); "@
    } else {
        qualified + "Command>::apply("@ + value + ", self); "@
    }
}

/// Writes the call that applies a freshly built value at once.
pub fn write_apply(names: &ResolvedNames, forwarded: &Forwarded, extension: &ExtensionImpl) -> (text:
    String)
    ensures
        text@ == apply_text(names.deep_view(), forwarded.deep_view(), extension.deep_view()),
{
    let mut qualified = String::from_str("<");
    qualified.append(names.data_type_name.as_str());
    qualified.append(write_generic_arguments(&forwarded.generics).as_str());
    qualified.append(" as ");
    qualified.append(names.root_namespace.as_str());
    qualified.append("::system::");
    let value = write_construction(
        names.data_type_name.as_str(),
        &parameter_names(&extension.parameters),
    );
    let entity = match extension.target {
        ExtensionTarget::EntityWorldMut => true,
        ExtensionTarget::EntityCommands => true,
        _ => false,
    };
    if entity {
        let mut text = String::from_str("let id = self.id(); self.world_scope(|world| { ");
        text.append(qualified.as_str());
        text.append("EntityCommand>::apply(");
        text.append(value.as_str());
        text.append(", id, world); }); ");
        text
    } else {
        let mut text = qualified;
        text.append("Command>::apply(");
        text.append(value.as_str());
        text.append(", self); ");
        text
    }
}

/// The statement that binds the subject to the target's id.
pub open spec fn subject_binding_text(subject: Option<Text>) -> Text {
    match subject {
        Some(binding) => "let "@ + binding + " = self.id(); "@,
        None => Seq::empty(),
    }
}

/// Writes the statement that binds the subject to the target's id.
pub fn write_subject_binding(subject: &Option<String>) -> (text: String)
    ensures
        text@ == subject_binding_text(subject.deep_view()),
{
    match subject {
        Some(binding) => {
            let mut text = String::from_str("let ");
            text.append(binding.as_str());
            text.append(" = self.id(); ");
            text
        },
        None => String::new(),
    }
}

/// The run of a system on the target, re-entering the world where asked.
pub open spec fn direct_run_text(scoped: bool, input: SystemInputView, system: Text) -> Text {
    if scoped {
        "self.world_scope(|world| { "@ + run_text("world"@, input, system) + " }); "@
    } else {
        run_text("self"@, input, system) + " "@
    }
}

/// Writes the run of a system on the target.
pub fn write_direct_run(scoped: bool, input: &SystemInput, system: &str) -> (text: String)
    ensures
        text@ == direct_run_text(scoped, input.deep_view(), system@),
{
    if scoped {
        let mut text = String::from_str("self.world_scope(|world| { ");
        text.append(write_run("world", input, system).as_str());
        text.append(" }); ");
        text
    } else {
        let mut text = write_run("self", input, system);
        text.append(" ");
        text
    }
}

/// The statements of an extension method, before what it hands back.
pub open spec fn extension_body_text(
    names: ResolvedNamesView,
    forwarded: ForwardedView,
    extension: ExtensionImplView,
) -> Text {
    match extension.body {
        ExtensionBodyView::Enqueue => "self.add("@ + construction_text(
            names.data_type_name,
            extension.constructed(),
        ) + "); "@,
        ExtensionBodyView::Apply => apply_text(names, forwarded, extension),
        ExtensionBodyView::RunSystem { system, input, subject, scoped, import_root } => import_text(
            import_root,
        ) + subject_binding_text(subject) + direct_run_text(scoped, input, system),
    }
}

/// Writes the statements of an extension method.
pub fn write_extension_body(
    names: &ResolvedNames,
    forwarded: &Forwarded,
    extension: &ExtensionImpl,
) -> (text: String)
    ensures
        text@ == extension_body_text(
            names.deep_view(),
            forwarded.deep_view(),
            extension.deep_view(),
        ),
{
    match &extension.body {
        ExtensionBody::Enqueue => {
            let mut text = String::from_str("self.add(");
            text.append(
                write_construction(
                    names.data_type_name.as_str(),
                    &parameter_names(&extension.parameters),
                ).as_str(),
            );
            text.append("); ");
            text
        },
        ExtensionBody::Apply => write_apply(names, forwarded, extension),
        ExtensionBody::RunSystem { system, input, subject, scoped, import_root } => {
            let mut text = write_import(import_root.as_str());
            text.append(write_subject_binding(subject).as_str());
            text.append(write_direct_run(*scoped, input, system.as_str()).as_str());
            text
        },
    }
}

/// What an extension method hands back: the target, where it declares a
/// return type.
pub open spec fn handed_back_text(return_type: Option<Text>) -> Text {
    match return_type {
        Some(_) => "self"@,
        None => Seq::empty(),
    }
}

/// Writes what an extension method hands back.
pub fn write_handed_back(return_type: &Option<String>) -> (text: String)
    ensures
        text@ == handed_back_text(return_type.deep_view()),
{
    match return_type {
        Some(_) => String::from_str("self"),
        None => String::new(),
    }
}

/// One implementation of the extension trait.
pub open spec fn extension_impl_text(
    names: ResolvedNamesView,
    forwarded: ForwardedView,
    extension: ExtensionImplView,
) -> Text {
    "impl "@ + names.trait_name + " for "@ + target_text(names.root_namespace, extension.target)
        + " { "@ + method_head_text(names, forwarded, extension) + " { "@ + extension_body_text(
        names,
        forwarded,
        extension,
    ) + handed_back_text(extension.return_type) + " } }"@
}

/// Writes one implementation of the extension trait.
pub fn write_extension_impl(
    names: &ResolvedNames,
    forwarded: &Forwarded,
    extension: &ExtensionImpl,
) -> (text: String)
    ensures
        text@ == extension_impl_text(
            names.deep_view(),
            forwarded.deep_view(),
            extension.deep_view(),
        ),
{
    let mut text = String::from_str("impl ");
    text.append(names.trait_name.as_str());
    text.append(" for ");
    text.append(write_target(names.root_namespace.as_str(), extension.target).as_str());
    text.append(" { ");
    text.append(write_method_head(names, forwarded, extension).as_str());
    text.append(" { ");
    text.append(write_extension_body(names, forwarded, extension).as_str());
    text.append(write_handed_back(&extension.return_type).as_str());
    text.append(" } }");
    text
}

/// The wrapper, where there is one, after a space.
pub open spec fn wrapper_text(forwarded: ForwardedView, wrapper: Option<FunctionDeclView>) -> Text {
    match wrapper {
        Some(function) => " "@ + function_text(forwarded, function),
        None => Seq::empty(),
    }
}

/// The trait with its implementation for the queuing handle, where emitted.
pub open spec fn queued_extension_text(
    names: ResolvedNamesView,
    forwarded: ForwardedView,
    extension: Option<ExtensionImplView>,
) -> Text {
    match extension {
        Some(e) => " "@ + trait_definition_text(names, forwarded, e) + " "@ + extension_impl_text(
            names,
            forwarded,
            e,
        ),
        None => Seq::empty(),
    }
}

/// The implementation for the world or the entity, where emitted.
pub open spec fn direct_extension_text(
    names: ResolvedNamesView,
    forwarded: ForwardedView,
    extension: Option<ExtensionImplView>,
) -> Text {
    match extension {
        Some(e) => " "@ + extension_impl_text(names, forwarded, e),
        None => Seq::empty(),
    }
}

/// The whole artifact set as source text: the function, the wrapper, the
/// data type, the behaviour, and the extensions, in this order.
pub open spec fn rendered(set: ArtifactSetView) -> Text {
    function_text(set.forwarded, set.function) + wrapper_text(set.forwarded, set.wrapper) + " "@
        + data_type_text(set.forwarded, set.data_type) + " "@ + behavior_text(
        set.names,
        set.forwarded,
        set.behavior,
    ) + queued_extension_text(set.names, set.forwarded, set.queued_extension)
        + direct_extension_text(set.names, set.forwarded, set.direct_extension)
}

/// Writes the wrapper, where there is one.
pub fn write_wrapper(forwarded: &Forwarded, wrapper: &Option<FunctionDecl>) -> (text: String)
    ensures
        text@ == wrapper_text(forwarded.deep_view(), wrapper.deep_view()),
{
    match wrapper {
        Some(function) => {
            let mut text = String::from_str(" ");
            text.append(write_function(forwarded, function).as_str());
            text
        },
        None => String::new(),
    }
}

/// Writes the trait with its implementation for the queuing handle.
pub fn write_queued_extension(
    names: &ResolvedNames,
    forwarded: &Forwarded,
    extension: &Option<ExtensionImpl>,
) -> (text: String)
    ensures
        text@ == queued_extension_text(
            names.deep_view(),
            forwarded.deep_view(),
            extension.deep_view(),
        ),
{
    match extension {
        Some(e) => {
            let mut text = String::from_str(" ");
            text.append(write_trait_definition(names, forwarded, e).as_str());
            text.append(" ");
            text.append(write_extension_impl(names, forwarded, e).as_str());
            text
        },
        None => String::new(),
    }
}

/// Writes the implementation for the world or the entity.
pub fn write_direct_extension(
    names: &ResolvedNames,
    forwarded: &Forwarded,
    extension: &Option<ExtensionImpl>,
) -> (text: String)
    ensures
        text@ == direct_extension_text(
            names.deep_view(),
            forwarded.deep_view(),
            extension.deep_view(),
        ),
{
    match extension {
        Some(e) => {
            let mut text = String::from_str(" ");
            text.append(write_extension_impl(names, forwarded, e).as_str());
            text
        },
        None => String::new(),
    }
}

/// Renders the whole artifact set as source text.
pub fn render(set: &ArtifactSet) -> (text: String)
    ensures
        text@ == rendered(set.deep_view()),
{
    let mut text = write_function(&set.forwarded, &set.function);
    text.append(write_wrapper(&set.forwarded, &set.wrapper).as_str());
    text.append(" ");
    text.append(write_data_type(&set.forwarded, &set.data_type).as_str());
    text.append(" ");
    text.append(write_behavior(&set.names, &set.forwarded, &set.behavior).as_str());
    text.append(write_queued_extension(&set.names, &set.forwarded, &set.queued_extension).as_str());
    text.append(write_direct_extension(&set.names, &set.forwarded, &set.direct_extension).as_str());
    text
}

/// The source text that a generation emits, or the error that ends it.
pub open spec fn emitted(item: FunctionSpecView, config: ConfigView, entity_command: bool) -> Result<
    Text,
    ValidationError,
> {
    match generated(item, config, entity_command) {
        Ok(set) => Ok(rendered(set)),
        Err(error) => Err(error),
    }
}

/// Compiles `item` under `config` and renders the artifacts as source text.
pub fn generate(config: &Config, item: &FunctionSpec, entity_command: bool) -> (result: Result<
    String,
    ValidationError,
>)
    ensures
        match result {
            Ok(text) => emitted(item.deep_view(), config.deep_view(), entity_command) == Ok::<
                Text,
                ValidationError,
            >(text@),
            Err(error) => emitted(item.deep_view(), config.deep_view(), entity_command) == Err::<
                Text,
                ValidationError,
            >(error),
        },
{
    match commandify(config, item, entity_command) {
        Ok(set) => Ok(render(&set)),
        Err(error) => Err(error),
    }
}

} // verus!
