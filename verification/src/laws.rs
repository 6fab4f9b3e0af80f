//! Laws of the generation, each proved from the definitions that the
//! contracts of the library use.

use vstd::prelude::*;
use crate::artifact::{FunctionBodyView, Invocation, Outcome};
use crate::assemble::{generated, internal_name};
use crate::classify::{classification, non_subjects, subjects};
use crate::emit::{destructuring_text, emitted, field_list_text};
use crate::error::ValidationError;
use crate::model::{Config, FunctionSpec, Parameter, Scope};
use crate::naming::{command_word, pascal_case, public_name, resolved_names};
use crate::text::names_of;

verus! {

/// Two runs on inputs that hold the same values have the same outcome:
/// the same error, or artifact sets that are equal in every part.
pub proof fn generation_is_deterministic(
    first_item: FunctionSpec,
    first_config: Config,
    second_item: FunctionSpec,
    second_config: Config,
    entity_command: bool,
)
    requires
        first_item.deep_view() == second_item.deep_view(),
        first_config.deep_view() == second_config.deep_view(),
    ensures
        generated(first_item.deep_view(), first_config.deep_view(), entity_command) == generated(
            second_item.deep_view(),
            second_config.deep_view(),
            entity_command,
        ),
        emitted(first_item.deep_view(), first_config.deep_view(), entity_command) == emitted(
            second_item.deep_view(),
            second_config.deep_view(),
            entity_command,
        ),
{
}

/// Where the public name is overridden and the data type's name or the
/// trait's name is not, the derived name starts from the override, not
/// from the function's own name.
pub proof fn derived_names_follow_public_name(
    function_name: Seq<char>,
    config: Config,
    scope: Scope,
)
    requires
        config.public_name is Some,
    ensures
        resolved_names(function_name, config.deep_view(), scope).public_name
            == config.public_name->Some_0@,
        config.generated_type_name is None ==> resolved_names(
            function_name,
            config.deep_view(),
            scope,
        ).data_type_name == pascal_case(config.public_name->Some_0@) + command_word(scope),
        config.generated_trait_name is None ==> resolved_names(
            function_name,
            config.deep_view(),
            scope,
        ).trait_name == command_word(scope) + "s"@ + pascal_case(config.public_name->Some_0@)
            + "Ext"@,
{
}

/// In entity scope the classification succeeds exactly where one parameter
/// has the subject type: none is a missing subject, two or more are ambiguous.
pub proof fn subject_requirement(parameters: Vec<Parameter>)
    ensures
        subjects(parameters.deep_view()).len() == 0 ==> classification(
            parameters.deep_view(),
            true,
        ) == Err::<crate::classify::ClassifiedFieldsView, ValidationError>(
            ValidationError::MissingSubject,
        ),
        subjects(parameters.deep_view()).len() == 1 ==> (classification(
            parameters.deep_view(),
            true,
        ) matches Ok(fields) && fields.subject == Some(subjects(parameters.deep_view())[0])),
        subjects(parameters.deep_view()).len() >= 2 ==> classification(
            parameters.deep_view(),
            true,
        ) == Err::<crate::classify::ClassifiedFieldsView, ValidationError>(
            ValidationError::AmbiguousSubject,
        ),
{
}

/// The same requirement, seen from the whole generation of an entity
/// command for a function that is not variadic.
pub proof fn entity_command_needs_one_subject(item: FunctionSpec, config: Config)
    requires
        !item.variadic,
    ensures
        generated(item.deep_view(), config.deep_view(), true) is Ok <==> subjects(
            item.parameters.deep_view(),
        ).len() == 1,
{
}

/// Every artifact lists the captured fields alike. Without captured fields
/// the data type is a unit type, the behaviour unpacks nothing and the
/// extension methods take and build nothing. With captured fields the data
/// type holds exactly them, in declaration order, and the behaviour and
/// every extension method name all of them in that order.
pub proof fn fields_are_rendered_alike(item: FunctionSpec, config: Config, entity_command: bool)
    requires
        generated(item.deep_view(), config.deep_view(), entity_command) is Ok,
    ensures
        ({
            let set = generated(item.deep_view(), config.deep_view(), entity_command)->Ok_0;
            let captured = non_subjects(item.parameters.deep_view());
            &&& set.data_type.fields == captured
            &&& set.data_type.is_unit() <==> captured.len() == 0
            &&& set.behavior.destructured == names_of(captured)
            &&& set.behavior.destructured.len() == captured.len()
            &&& set.queued_extension matches Some(extension) ==> extension.parameters == captured
                && extension.constructed() == names_of(captured)
            &&& set.direct_extension matches Some(extension) ==> extension.parameters == captured
                && extension.constructed() == names_of(captured)
            &&& set.wrapper matches Some(wrapper) ==> (wrapper.body matches FunctionBodyView::Routing(
                routing,
            ) && routing.arguments == names_of(captured))
        }),
{
}

/// A data type without fields is written without a field list, and no
/// statement unpacks it, whatever its name.
pub proof fn unit_type_is_written_bare(fields: Vec<Parameter>, data_type_name: Seq<char>)
    requires
        fields.deep_view().len() == 0,
    ensures
        field_list_text(fields.deep_view()) == ";"@,
        destructuring_text(data_type_name, names_of(fields.deep_view())) == Seq::<char>::empty(),
{
}

/// With both handlers configured, the wrapper stands under the declared
/// name, calls the relocated function once, and then runs exactly one
/// handler: the success handler after a success, the error handler after
/// a failure.
pub proof fn result_routing_round_trip(item: FunctionSpec, config: Config, entity_command: bool)
    requires
        item.deep_view().is_fallible(),
        config.success_handler is Some,
        config.error_handler is Some,
        generated(item.deep_view(), config.deep_view(), entity_command) is Ok,
    ensures
        ({
            let set = generated(item.deep_view(), config.deep_view(), entity_command)->Ok_0;
            &&& set.function.name == internal_name(item.name@)
            &&& set.function.body == FunctionBodyView::Declared(item.body@)
            &&& set.wrapper matches Some(wrapper)
            &&& wrapper.name == item.name@
            &&& wrapper.return_type == Some(item.return_type->Some_0.ty@)
            &&& wrapper.body matches FunctionBodyView::Routing(routing)
            &&& routing.callee == set.function.name
            &&& routing.invocations(Outcome::Success) == seq![
                Invocation::Function(set.function.name),
                Invocation::Handler(config.success_handler->Some_0@),
            ]
            &&& routing.invocations(Outcome::Failure) == seq![
                Invocation::Function(set.function.name),
                Invocation::Handler(config.error_handler->Some_0@),
            ]
        }),
{
}

/// With the trait suppressed, the artifact set holds neither the trait
/// with its implementation for the queuing handle nor the implementation
/// for the world or the entity, whatever else is configured.
pub proof fn suppressed_trait_emits_no_extension(
    item: FunctionSpec,
    config: Config,
    entity_command: bool,
)
    requires
        config.suppress_trait,
        generated(item.deep_view(), config.deep_view(), entity_command) is Ok,
    ensures
        generated(item.deep_view(), config.deep_view(), entity_command)->Ok_0.queued_extension
            is None,
        generated(item.deep_view(), config.deep_view(), entity_command)->Ok_0.direct_extension
            is None,
{
}

/// A variadic function is rejected as such, whatever its other parts and
/// the configuration hold.
pub proof fn variadic_is_rejected(item: FunctionSpec, config: Config, entity_command: bool)
    requires
        item.variadic,
    ensures
        generated(item.deep_view(), config.deep_view(), entity_command) == Err::<
            crate::artifact::ArtifactSetView,
            ValidationError,
        >(ValidationError::Variadic),
{
}

} // verus!
