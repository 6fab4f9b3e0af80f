//! The artifact assembler: from the function, the configuration, the scope,
//! the resolved names and the classified fields to the artifact set.

use vstd::prelude::*;
use crate::artifact::{
    ArtifactSet, ArtifactSetView, BehaviorBody, BehaviorBodyView, BehaviorImpl, BehaviorImplView,
    DataTypeDecl, DataTypeDeclView, ExtensionBody, ExtensionBodyView, ExtensionImpl,
    ExtensionImplView, ExtensionTarget, Forwarded, ForwardedView, FunctionBody, FunctionBodyView,
    FunctionDecl, FunctionDeclView, ResultRouting, ResultRoutingView, SystemInput, SystemInputView,
    WorldParameter, WorldParameterView,
};
use crate::classify::{classification, classify_fields, ClassifiedFields, ClassifiedFieldsView};
use crate::error::ValidationError;
use crate::model::{
    Config, ConfigView, ExecutionStyle, ExecutionStyleView, FunctionSpec, FunctionSpecView, Scope,
    Text,
};
use crate::naming::{
    default_root, names_from, pascal_case, public_name, resolve_names, ResolvedNames,
    ResolvedNamesView,
};
use crate::text::{
    copy_generics, copy_optional_parameter, copy_optional_text, copy_parameters, copy_texts,
    names_of, parameter_names, return_text, return_text_of,
};

verus! {

/// The name under which the declared function is kept when a wrapper takes
/// its place.
pub open spec fn internal_name(name: Text) -> Text {
    name + "_with_result"@
}

/// The return type that the extension methods declare: the function's own
/// where no handler takes the result, none where one does.
pub open spec fn propagated_return(item: FunctionSpecView, config: ConfigView) -> Option<Text> {
    if config.has_result_handler() {
        None
    } else {
        return_text(item.return_type)
    }
}

/// The routing block: it calls the relocated function with the captured
/// fields and hands each outcome to its handler.
pub open spec fn routing_of(
    item: FunctionSpecView,
    config: ConfigView,
    names: ResolvedNamesView,
    fields: ClassifiedFieldsView,
) -> ResultRoutingView {
    ResultRoutingView {
        root_namespace: names.root_namespace,
        callee: internal_name(item.name),
        arguments: names_of(fields.captured_fields),
        on_success: config.success_handler,
        on_error: config.error_handler,
    }
}

/// The body that stands behind the declared name: the routing block where
/// a handler is configured, the declared block where none is.
pub open spec fn public_body_of(
    item: FunctionSpecView,
    config: ConfigView,
    names: ResolvedNamesView,
    fields: ClassifiedFieldsView,
) -> FunctionBodyView {
    if config.has_result_handler() {
        FunctionBodyView::Routing(routing_of(item, config, names, fields))
    } else {
        FunctionBodyView::Declared(item.body)
    }
}

/// The declared function as it is emitted. With a handler it is renamed and
/// keeps its return type; without one it keeps its name and loses the
/// return type, which nothing reads.
pub open spec fn function_of(item: FunctionSpecView, config: ConfigView) -> FunctionDeclView {
    if config.has_result_handler() {
        FunctionDeclView {
            name: internal_name(item.name),
            return_type: return_text(item.return_type),
            body: FunctionBodyView::Declared(item.body),
        }
    } else {
        FunctionDeclView {
            name: item.name,
            return_type: None,
            body: FunctionBodyView::Declared(item.body),
        }
    }
}

/// The wrapper, emitted exactly where a handler is configured. It bears the
/// declared name and the declared return type.
pub open spec fn wrapper_of(
    item: FunctionSpecView,
    config: ConfigView,
    names: ResolvedNamesView,
    fields: ClassifiedFieldsView,
) -> Option<FunctionDeclView> {
    if config.has_result_handler() {
        Some(
            FunctionDeclView {
                name: item.name,
                return_type: return_text(item.return_type),
                body: FunctionBodyView::Routing(routing_of(item, config, names, fields)),
            },
        )
    } else {
        None
    }
}

/// The data type: the captured fields under the resolved name.
pub open spec fn data_type_of(names: ResolvedNamesView, fields: ClassifiedFieldsView) -> DataTypeDeclView {
    DataTypeDeclView { name: names.data_type_name, fields: fields.captured_fields }
}

/// The behaviour, by execution style and scope.
pub open spec fn behavior_of(
    item: FunctionSpecView,
    config: ConfigView,
    scope: Scope,
    names: ResolvedNamesView,
    fields: ClassifiedFieldsView,
) -> BehaviorImplView {
    BehaviorImplView {
        scope,
        subject: match scope {
            Scope::Entity => fields.subject,
            Scope::World => None,
        },
        world: match config.style {
            ExecutionStyleView::Exclusive { world } => WorldParameterView::Declared(world),
            ExecutionStyleView::System => WorldParameterView::Framework,
        },
        destructured: names_of(fields.captured_fields),
        body: match config.style {
            ExecutionStyleView::Exclusive { .. } => BehaviorBodyView::Inline(
                public_body_of(item, config, names, fields),
            ),
            ExecutionStyleView::System => BehaviorBodyView::RunSystem {
                system: item.name,
                input: SystemInputView::shaped(names_of(fields.system_inputs(config.style))),
            },
        },
    }
}

/// The extension trait with its implementation for the queuing handle,
/// unless the trait is suppressed.
pub open spec fn queued_extension_of(
    item: FunctionSpecView,
    config: ConfigView,
    scope: Scope,
    fields: ClassifiedFieldsView,
) -> Option<ExtensionImplView> {
    if config.suppress_trait {
        None
    } else {
        Some(
            ExtensionImplView {
                target: ExtensionTarget::queued(scope),
                parameters: fields.captured_fields,
                return_type: propagated_return(item, config),
                body: ExtensionBodyView::Enqueue,
            },
        )
    }
}

/// What the direct implementation does, by execution style. In exclusive
/// style it applies the behaviour at once. In system style it runs the
/// system at once: without fields as it is; with fields, for an entity,
/// after binding the subject to the target's id and from inside the world.
/// The run-once facility is imported from the framework's default root
/// there, whatever root is configured.
pub open spec fn direct_body_of(
    item: FunctionSpecView,
    config: ConfigView,
    scope: Scope,
    fields: ClassifiedFieldsView,
) -> ExtensionBodyView {
    match config.style {
        ExecutionStyleView::Exclusive { .. } => ExtensionBodyView::Apply,
        ExecutionStyleView::System => if fields.captured_fields.len() == 0 {
            ExtensionBodyView::RunSystem {
                system: item.name,
                input: SystemInputView::Nothing,
                subject: None,
                scoped: false,
                import_root: default_root(),
            }
        } else {
            ExtensionBodyView::RunSystem {
                system: item.name,
                input: SystemInputView::shaped(names_of(fields.system_inputs(config.style))),
                subject: match (scope, fields.subject) {
                    (Scope::Entity, Some(subject)) => Some(subject.name),
                    _ => None,
                },
                scoped: scope == Scope::Entity,
                import_root: default_root(),
            }
        },
    }
}

/// The implementation of the extension trait for the world or the entity,
/// unless the trait or the world extension is suppressed.
pub open spec fn direct_extension_of(
    item: FunctionSpecView,
    config: ConfigView,
    scope: Scope,
    fields: ClassifiedFieldsView,
) -> Option<ExtensionImplView> {
    if config.suppress_trait || config.suppress_world_extension {
        None
    } else {
        Some(
            ExtensionImplView {
                target: ExtensionTarget::direct(scope),
                parameters: fields.captured_fields,
                return_type: propagated_return(item, config),
                body: direct_body_of(item, config, scope, fields),
            },
        )
    }
}

/// What the artifacts take over from the function as it stands.
pub open spec fn forwarded_of(item: FunctionSpecView) -> ForwardedView {
    ForwardedView {
        attributes: item.attributes,
        docs: item.docs,
        visibility: item.visibility,
        qualifiers: item.qualifiers,
        generics: item.generics,
        inputs: item.inputs,
    }
}

/// The artifact set of a function, given its names and classified fields.
pub open spec fn assembled(
    item: FunctionSpecView,
    config: ConfigView,
    scope: Scope,
    names: ResolvedNamesView,
    fields: ClassifiedFieldsView,
) -> ArtifactSetView {
    ArtifactSetView {
        names,
        forwarded: forwarded_of(item),
        function: function_of(item, config),
        wrapper: wrapper_of(item, config, names, fields),
        data_type: data_type_of(names, fields),
        behavior: behavior_of(item, config, scope, names, fields),
        queued_extension: queued_extension_of(item, config, scope, fields),
        direct_extension: direct_extension_of(item, config, scope, fields),
    }
}

/// The outcome of a generation, given the Pascal-case form of the public
/// name: a variadic function is rejected before anything else is looked
/// at, then the parameters are classified, then the artifacts assembled.
pub open spec fn generation(
    item: FunctionSpecView,
    config: ConfigView,
    entity_command: bool,
    pascal: Text,
) -> Result<ArtifactSetView, ValidationError> {
    if item.variadic {
        Err(ValidationError::Variadic)
    } else {
        match classification(item.parameters, entity_command) {
            Err(error) => Err(error),
            Ok(fields) => Ok(
                assembled(
                    item,
                    config,
                    Scope::of(entity_command),
                    names_from(item.name, config, Scope::of(entity_command), pascal),
                    fields,
                ),
            ),
        }
    }
}

/// The outcome of generating the artifacts of `item` under `config`.
pub open spec fn generated(item: FunctionSpecView, config: ConfigView, entity_command: bool) -> Result<
    ArtifactSetView,
    ValidationError,
> {
    generation(item, config, entity_command, pascal_case(public_name(item.name, config)))
}

/// The name under which the declared function is kept behind a wrapper.
pub fn make_internal_name(name: &str) -> (internal: String)
    ensures
        internal@ == internal_name(name@),
{
    let mut internal = String::from_str(name);
    internal.append("_with_result");
    internal
}

/// Builds the routing block.
pub fn result_routing(
    item: &FunctionSpec,
    config: &Config,
    names: &ResolvedNames,
    fields: &ClassifiedFields,
) -> (routing: ResultRouting)
    ensures
        routing.deep_view() == routing_of(
            item.deep_view(),
            config.deep_view(),
            names.deep_view(),
            fields.deep_view(),
        ),
{
    ResultRouting {
        root_namespace: names.root_namespace.clone(),
        callee: make_internal_name(item.name.as_str()),
        arguments: parameter_names(&fields.captured_fields),
        on_success: copy_optional_text(&config.success_handler),
        on_error: copy_optional_text(&config.error_handler),
    }
}

/// Builds the body that stands behind the declared name.
pub fn public_body(
    item: &FunctionSpec,
    config: &Config,
    names: &ResolvedNames,
    fields: &ClassifiedFields,
) -> (body: FunctionBody)
    ensures
        body.deep_view() == public_body_of(
            item.deep_view(),
            config.deep_view(),
            names.deep_view(),
            fields.deep_view(),
        ),
{
    if config.has_result_handler() {
        FunctionBody::Routing(result_routing(item, config, names, fields))
    } else {
        FunctionBody::Declared(item.body.clone())
    }
}

/// Builds the declared function as it is emitted.
pub fn relocated_function(item: &FunctionSpec, config: &Config) -> (function: FunctionDecl)
    ensures
        function.deep_view() == function_of(item.deep_view(), config.deep_view()),
{
    if config.has_result_handler() {
        FunctionDecl {
            name: make_internal_name(item.name.as_str()),
            return_type: return_text_of(&item.return_type),
            body: FunctionBody::Declared(item.body.clone()),
        }
    } else {
        FunctionDecl {
            name: item.name.clone(),
            return_type: None,
            body: FunctionBody::Declared(item.body.clone()),
        }
    }
}

/// Builds the result-routing wrapper where a handler is configured.
pub fn routing_wrapper(
    item: &FunctionSpec,
    config: &Config,
    names: &ResolvedNames,
    fields: &ClassifiedFields,
) -> (wrapper: Option<FunctionDecl>)
    ensures
        wrapper.deep_view() == wrapper_of(
            item.deep_view(),
            config.deep_view(),
            names.deep_view(),
            fields.deep_view(),
        ),
{
    if config.has_result_handler() {
        Some(
            FunctionDecl {
                name: item.name.clone(),
                return_type: return_text_of(&item.return_type),
                body: FunctionBody::Routing(result_routing(item, config, names, fields)),
            },
        )
    } else {
        None
    }
}

/// Builds the data type.
pub fn data_type(names: &ResolvedNames, fields: &ClassifiedFields) -> (decl: DataTypeDecl)
    ensures
        decl.deep_view() == data_type_of(names.deep_view(), fields.deep_view()),
{
    DataTypeDecl {
        name: names.data_type_name.clone(),
        fields: copy_parameters(&fields.captured_fields),
    }
}

/// Builds the behaviour.
pub fn behavior(
    item: &FunctionSpec,
    config: &Config,
    scope: Scope,
    names: &ResolvedNames,
    fields: &ClassifiedFields,
) -> (behavior: BehaviorImpl)
    ensures
        behavior.deep_view() == behavior_of(
            item.deep_view(),
            config.deep_view(),
            scope,
            names.deep_view(),
            fields.deep_view(),
        ),
{
    let subject = match scope {
        Scope::Entity => copy_optional_parameter(&fields.subject),
        Scope::World => None,
    };
    let destructured = parameter_names(&fields.captured_fields);
    match &config.style {
        ExecutionStyle::Exclusive { world } => BehaviorImpl {
            scope,
            subject,
            world: WorldParameter::Declared(world.clone()),
            destructured,
            body: BehaviorBody::Inline(public_body(item, config, names, fields)),
        },
        ExecutionStyle::System => BehaviorImpl {
            scope,
            subject,
            world: WorldParameter::Framework,
            destructured,
            body: BehaviorBody::RunSystem {
                system: item.name.clone(),
                input: SystemInput::shaped(parameter_names(&fields.system_inputs(&config.style))),
            },
        },
    }
}

/// The return type that the extension methods declare.
pub fn propagated_return_of(item: &FunctionSpec, config: &Config) -> (text: Option<String>)
    ensures
        text.deep_view() == propagated_return(item.deep_view(), config.deep_view()),
{
    if config.has_result_handler() {
        None
    } else {
        return_text_of(&item.return_type)
    }
}

/// Builds the extension for the queuing handle, unless suppressed.
pub fn queued_extension(
    item: &FunctionSpec,
    config: &Config,
    scope: Scope,
    fields: &ClassifiedFields,
) -> (extension: Option<ExtensionImpl>)
    ensures
        extension.deep_view() == queued_extension_of(
            item.deep_view(),
            config.deep_view(),
            scope,
            fields.deep_view(),
        ),
{
    if config.suppress_trait {
        None
    } else {
        Some(
            ExtensionImpl {
                target: match scope {
                    Scope::World => ExtensionTarget::Commands,
                    Scope::Entity => ExtensionTarget::EntityCommands,
                },
                parameters: copy_parameters(&fields.captured_fields),
                return_type: propagated_return_of(item, config),
                body: ExtensionBody::Enqueue,
            },
        )
    }
}

/// Builds what the direct implementation does.
pub fn direct_body(
    item: &FunctionSpec,
    config: &Config,
    scope: Scope,
    fields: &ClassifiedFields,
) -> (body: ExtensionBody)
    ensures
        body.deep_view() == direct_body_of(
            item.deep_view(),
            config.deep_view(),
            scope,
            fields.deep_view(),
        ),
{
    match &config.style {
        ExecutionStyle::Exclusive { .. } => ExtensionBody::Apply,
        ExecutionStyle::System => {
            if fields.captured_fields.len() == 0 {
                ExtensionBody::RunSystem {
                    system: item.name.clone(),
                    input: SystemInput::Nothing,
                    subject: None,
                    scoped: false,
                    import_root: String::from_str("::bevy::ecs"),
                }
            } else {
                ExtensionBody::RunSystem {
                    system: item.name.clone(),
                    input: SystemInput::shaped(
                        parameter_names(&fields.system_inputs(&config.style)),
                    ),
                    subject: match (scope, &fields.subject) {
                        (Scope::Entity, Some(subject)) => Some(subject.name.clone()),
                        _ => None,
                    },
                    scoped: match scope {
                        Scope::Entity => true,
                        Scope::World => false,
                    },
                    import_root: String::from_str("::bevy::ecs"),
                }
            }
        },
    }
}

/// Builds the extension for the world or the entity, unless suppressed.
pub fn direct_extension(
    item: &FunctionSpec,
    config: &Config,
    scope: Scope,
    fields: &ClassifiedFields,
) -> (extension: Option<ExtensionImpl>)
    ensures
        extension.deep_view() == direct_extension_of(
            item.deep_view(),
            config.deep_view(),
            scope,
            fields.deep_view(),
        ),
{
    if config.suppress_trait || config.suppress_world_extension {
        None
    } else {
        Some(
            ExtensionImpl {
                target: match scope {
                    Scope::World => ExtensionTarget::World,
                    Scope::Entity => ExtensionTarget::EntityWorldMut,
                },
                parameters: copy_parameters(&fields.captured_fields),
                return_type: propagated_return_of(item, config),
                body: direct_body(item, config, scope, fields),
            },
        )
    }
}

/// Copies what the artifacts take over from the function as it stands.
pub fn forwarded(item: &FunctionSpec) -> (forwarded: Forwarded)
    ensures
        forwarded.deep_view() == forwarded_of(item.deep_view()),
{
    Forwarded {
        attributes: copy_texts(&item.attributes),
        docs: copy_texts(&item.docs),
        visibility: item.visibility.clone(),
        qualifiers: item.qualifiers.clone(),
        generics: copy_generics(&item.generics),
        inputs: item.inputs.clone(),
    }
}

/// Assembles the artifact set of a function whose names are resolved and
/// whose parameters are classified.
pub fn assemble(
    item: &FunctionSpec,
    config: &Config,
    scope: Scope,
    names: ResolvedNames,
    fields: &ClassifiedFields,
) -> (set: ArtifactSet)
    ensures
        set.deep_view() == assembled(
            item.deep_view(),
            config.deep_view(),
            scope,
            names.deep_view(),
            fields.deep_view(),
        ),
{
    let function = relocated_function(item, config);
    let wrapper = routing_wrapper(item, config, &names, fields);
    let data_type = data_type(&names, fields);
    let behavior = behavior(item, config, scope, &names, fields);
    let queued_extension = queued_extension(item, config, scope, fields);
    let direct_extension = direct_extension(item, config, scope, fields);
    ArtifactSet {
        names,
        forwarded: forwarded(item),
        function,
        wrapper,
        data_type,
        behavior,
        queued_extension,
        direct_extension,
    }
}

/// Compiles `item` under `config` into its artifact set, for a world command
/// or, with `entity_command`, for an entity command.
///
/// A variadic function is rejected whatever else holds. Otherwise more
/// than one subject parameter is rejected, and so is an entity command
/// without one. Every other input yields the artifact set that
/// [`generated`] describes.
pub fn commandify(config: &Config, item: &FunctionSpec, entity_command: bool) -> (result: Result<
    ArtifactSet,
    ValidationError,
>)
    ensures
        match result {
            Ok(set) => generated(item.deep_view(), config.deep_view(), entity_command) == Ok::<
                ArtifactSetView,
                ValidationError,
            >(set.deep_view()),
            Err(error) => generated(item.deep_view(), config.deep_view(), entity_command) == Err::<
                ArtifactSetView,
                ValidationError,
            >(error),
        },
{
    if item.variadic {
        return Err(ValidationError::Variadic);
    }
    let scope = Scope::from_flag(entity_command);
    let names = resolve_names(item.name.as_str(), config, scope);
    match classify_fields(&item.parameters, entity_command) {
        Err(error) => Err(error),
        Ok(fields) => Ok(assemble(item, config, scope, names, &fields)),
    }
}

} // verus!
