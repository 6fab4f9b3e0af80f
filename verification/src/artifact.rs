//! The artifact set: what the assembler decides to emit, as structured data.

use vstd::prelude::*;
use crate::model::{GenericParam, GenericParamView, Parameter, ParameterView, Scope, Text};
use crate::naming::{ResolvedNames, ResolvedNamesView};
use crate::text::names_of;

verus! {

/// The outcome of one run of the function behind a result-routing wrapper.
#[derive(Clone, Copy, Debug, PartialEq, Eq, Structural)]
pub enum Outcome {
    Success,
    Failure,
}

/// One call that an emitted body makes when it runs.
pub enum Invocation {
    /// A call of the function under the given name.
    Function(Text),
    /// A one-shot run of the handler under the given name, fed the payload.
    Handler(Text),
}

/// The body of a result-routing wrapper: one call of the relocated function,
/// then one arm for each outcome, which runs that outcome's handler once
/// where one is configured and otherwise drops the payload.
#[derive(Clone, Debug, PartialEq, Eq)]
pub struct ResultRouting {
    /// The namespace from which the run-once facility is imported.
    pub root_namespace: String,
    /// The name of the relocated function.
    pub callee: String,
    /// The arguments handed to it after the world, in order.
    pub arguments: Vec<String>,
    pub on_success: Option<String>,
    pub on_error: Option<String>,
}

pub struct ResultRoutingView {
    pub root_namespace: Text,
    pub callee: Text,
    pub arguments: Seq<Text>,
    pub on_success: Option<Text>,
    pub on_error: Option<Text>,
}

impl ResultRoutingView {
    /// The handler of the arm that matches `outcome`.
    pub open spec fn handler_for(self, outcome: Outcome) -> Option<Text> {
        match outcome {
            Outcome::Success => self.on_success,
            Outcome::Failure => self.on_error,
        }
    }

    /// The calls that one run of the wrapper makes when the relocated
    /// function ends in `outcome`, in order.
    pub open spec fn invocations(self, outcome: Outcome) -> Seq<Invocation> {
        match self.handler_for(outcome) {
            Some(handler) => seq![Invocation::Function(self.callee), Invocation::Handler(handler)],
            None => seq![Invocation::Function(self.callee)],
        }
    }
}

impl DeepView for ResultRouting {
    type V = ResultRoutingView;

    open spec fn deep_view(&self) -> ResultRoutingView {
        ResultRoutingView {
            root_namespace: self.root_namespace@,
            callee: self.callee@,
            arguments: self.arguments.deep_view(),
            on_success: self.on_success.deep_view(),
            on_error: self.on_error.deep_view(),
        }
    }
}

impl ResultRouting {
    /// The handler that runs when the relocated function ends in `outcome`.
    pub fn handler_for(&self, outcome: Outcome) -> (handler: Option<&String>)
        ensures
            handler.deep_view() == self.deep_view().handler_for(outcome),
    {
        match outcome {
            Outcome::Success => self.on_success.as_ref(),
            Outcome::Failure => self.on_error.as_ref(),
        }
    }
}

/// The body of an emitted function.
#[derive(Clone, Debug, PartialEq, Eq)]
pub enum FunctionBody {
    /// The block that the function was declared with, untouched.
    Declared(String),
    /// A synthesized block that routes the result to the handlers.
    Routing(ResultRouting),
}

pub enum FunctionBodyView {
    Declared(Text),
    Routing(ResultRoutingView),
}

impl DeepView for FunctionBody {
    type V = FunctionBodyView;

    open spec fn deep_view(&self) -> FunctionBodyView {
        match self {
            FunctionBody::Declared(block) => FunctionBodyView::Declared(block@),
            FunctionBody::Routing(routing) => FunctionBodyView::Routing(routing.deep_view()),
        }
    }
}

/// An emitted function. Attributes, visibility, qualifiers, generics and
/// inputs are those of the declared function.
#[derive(Clone, Debug, PartialEq, Eq)]
pub struct FunctionDecl {
    pub name: String,
    pub return_type: Option<String>,
    pub body: FunctionBody,
}

pub struct FunctionDeclView {
    pub name: Text,
    pub return_type: Option<Text>,
    pub body: FunctionBodyView,
}

impl DeepView for FunctionDecl {
    type V = FunctionDeclView;

    open spec fn deep_view(&self) -> FunctionDeclView {
        FunctionDeclView {
            name: self.name@,
            return_type: self.return_type.deep_view(),
            body: self.body.deep_view(),
        }
    }
}

/// The data type that stores the captured arguments. Without fields it is a
/// unit type; with fields they are public, named, and moved in and out.
#[derive(Clone, Debug, PartialEq, Eq)]
pub struct DataTypeDecl {
    pub name: String,
    pub fields: Vec<Parameter>,
}

pub struct DataTypeDeclView {
    pub name: Text,
    pub fields: Seq<ParameterView>,
}

impl DataTypeDeclView {
    /// Whether the type is declared without a field list.
    pub open spec fn is_unit(self) -> bool {
        self.fields.len() == 0
    }
}

impl DeepView for DataTypeDecl {
    type V = DataTypeDeclView;

    open spec fn deep_view(&self) -> DataTypeDeclView {
        DataTypeDeclView { name: self.name@, fields: self.fields.deep_view() }
    }
}

impl DataTypeDecl {
    /// Whether the type is declared without a field list.
    pub fn is_unit(&self) -> (unit: bool)
        ensures
            unit == self.deep_view().is_unit(),
    {
        self.fields.len() == 0
    }
}

/// What a system is fed when it is run once.
#[derive(Clone, Debug, PartialEq, Eq)]
pub enum SystemInput {
    /// The system takes no input.
    Nothing,
    /// One binding, handed over as it is.
    Single(String),
    /// Two bindings or more, handed over as a tuple.
    Tuple(Vec<String>),
}

pub enum SystemInputView {
    Nothing,
    Single(Text),
    Tuple(Seq<Text>),
}

impl SystemInputView {
    /// The input that the given bindings make up.
    pub open spec fn shaped(bindings: Seq<Text>) -> SystemInputView {
        if bindings.len() == 0 {
            SystemInputView::Nothing
        } else if bindings.len() == 1 {
            SystemInputView::Single(bindings[0])
        } else {
            SystemInputView::Tuple(bindings)
        }
    }

    /// The bindings that the input hands over, in order.
    pub open spec fn bindings(self) -> Seq<Text> {
        match self {
            SystemInputView::Nothing => Seq::empty(),
            SystemInputView::Single(binding) => seq![binding],
            SystemInputView::Tuple(bindings) => bindings,
        }
    }
}

impl DeepView for SystemInput {
    type V = SystemInputView;

    open spec fn deep_view(&self) -> SystemInputView {
        match self {
            SystemInput::Nothing => SystemInputView::Nothing,
            SystemInput::Single(binding) => SystemInputView::Single(binding@),
            SystemInput::Tuple(bindings) => SystemInputView::Tuple(bindings.deep_view()),
        }
    }
}

impl SystemInput {
    /// Shapes the bindings into a system input.
    pub fn shaped(bindings: Vec<String>) -> (input: SystemInput)
        ensures
            input.deep_view() == SystemInputView::shaped(bindings.deep_view()),
    {
        let mut bindings = bindings;
        if bindings.len() == 0 {
            SystemInput::Nothing
        } else if bindings.len() == 1 {
            let ghost before = bindings.deep_view();
            match bindings.pop() {
                Some(binding) => {
                    assert(binding@ == before[0]);
                    SystemInput::Single(binding)
                },
                None => SystemInput::Nothing,
            }
        } else {
            SystemInput::Tuple(bindings)
        }
    }
}

/// The world parameter of the behaviour.
#[derive(Clone, Debug, PartialEq, Eq)]
pub enum WorldParameter {
    /// The parameter as the function declared it.
    Declared(String),
    /// A parameter named `world`, of the framework's world type.
    Framework,
}

pub enum WorldParameterView {
    Declared(Text),
    Framework,
}

impl DeepView for WorldParameter {
    type V = WorldParameterView;

    open spec fn deep_view(&self) -> WorldParameterView {
        match self {
            WorldParameter::Declared(declaration) => WorldParameterView::Declared(declaration@),
            WorldParameter::Framework => WorldParameterView::Framework,
        }
    }
}

/// What the behaviour does once the fields are unpacked.
#[derive(Clone, Debug, PartialEq, Eq)]
pub enum BehaviorBody {
    /// Runs a function body in place, against the world parameter.
    Inline(FunctionBody),
    /// Runs the named system once, with the given input.
    RunSystem { system: String, input: SystemInput },
}

pub enum BehaviorBodyView {
    Inline(FunctionBodyView),
    RunSystem { system: Text, input: SystemInputView },
}

impl DeepView for BehaviorBody {
    type V = BehaviorBodyView;

    open spec fn deep_view(&self) -> BehaviorBodyView {
        match self {
            BehaviorBody::Inline(body) => BehaviorBodyView::Inline(body.deep_view()),
            BehaviorBody::RunSystem { system, input } => BehaviorBodyView::RunSystem {
                system: system@,
                input: input.deep_view(),
            },
        }
    }
}

/// The implementation of the framework's command trait for the data type.
/// It takes the value by value: a command is applied once.
#[derive(Clone, Debug, PartialEq, Eq)]
pub struct BehaviorImpl {
    /// Which of the framework's two command traits is implemented.
    pub scope: Scope,
    /// The subject parameter, in entity scope.
    pub subject: Option<Parameter>,
    pub world: WorldParameter,
    /// The bindings that the value is unpacked into, in field order.
    /// Where there are none, nothing is unpacked.
    pub destructured: Vec<String>,
    pub body: BehaviorBody,
}

pub struct BehaviorImplView {
    pub scope: Scope,
    pub subject: Option<ParameterView>,
    pub world: WorldParameterView,
    pub destructured: Seq<Text>,
    pub body: BehaviorBodyView,
}

impl DeepView for BehaviorImpl {
    type V = BehaviorImplView;

    open spec fn deep_view(&self) -> BehaviorImplView {
        BehaviorImplView {
            scope: self.scope,
            subject: self.subject.deep_view(),
            world: self.world.deep_view(),
            destructured: self.destructured.deep_view(),
            body: self.body.deep_view(),
        }
    }
}

/// The framework types that the extension trait is implemented for.
#[derive(Clone, Copy, Debug, PartialEq, Eq, Structural)]
pub enum ExtensionTarget {
    /// The handle that queues world commands.
    Commands,
    /// The handle that queues commands for one entity.
    EntityCommands,
    /// The world itself.
    World,
    /// One entity of the world, held mutably.
    EntityWorldMut,
}

impl ExtensionTarget {
    /// Whether commands issued on the target are queued rather than run.
    pub open spec fn is_queued(self) -> bool {
        self == ExtensionTarget::Commands || self == ExtensionTarget::EntityCommands
    }

    /// The queued target of a scope.
    pub open spec fn queued(scope: Scope) -> ExtensionTarget {
        match scope {
            Scope::World => ExtensionTarget::Commands,
            Scope::Entity => ExtensionTarget::EntityCommands,
        }
    }

    /// The direct target of a scope.
    pub open spec fn direct(scope: Scope) -> ExtensionTarget {
        match scope {
            Scope::World => ExtensionTarget::World,
            Scope::Entity => ExtensionTarget::EntityWorldMut,
        }
    }
}

/// What the extension method does with the value that it builds from its
/// parameters.
#[derive(Clone, Debug, PartialEq, Eq)]
pub enum ExtensionBody {
    /// Builds the value and queues it on the handle.
    Enqueue,
    /// Builds the value and applies its behaviour at once; for an entity,
    /// inside a scope that re-enters the world under the entity's id.
    Apply,
    /// Runs the system at once on the target.
    RunSystem {
        system: String,
        input: SystemInput,
        /// The binding that receives the target's id before the run.
        subject: Option<String>,
        /// Whether the run happens inside a scope that re-enters the world.
        scoped: bool,
        /// The namespace from which the run-once facility is imported.
        import_root: String,
    },
}

pub enum ExtensionBodyView {
    Enqueue,
    Apply,
    RunSystem { system: Text, input: SystemInputView, subject: Option<Text>, scoped: bool, import_root: Text },
}

impl DeepView for ExtensionBody {
    type V = ExtensionBodyView;

    open spec fn deep_view(&self) -> ExtensionBodyView {
        match self {
            ExtensionBody::Enqueue => ExtensionBodyView::Enqueue,
            ExtensionBody::Apply => ExtensionBodyView::Apply,
            ExtensionBody::RunSystem {
                system,
                input,
                subject,
                scoped,
                import_root,
            } => ExtensionBodyView::RunSystem {
                system: system@,
                input: input.deep_view(),
                subject: subject.deep_view(),
                scoped: *scoped,
                import_root: import_root@,
            },
        }
    }
}

/// One implementation of the extension trait. Its method bears the public
/// name and takes the captured fields as parameters.
#[derive(Clone, Debug, PartialEq, Eq)]
pub struct ExtensionImpl {
    pub target: ExtensionTarget,
    pub parameters: Vec<Parameter>,
    /// The declared return type where the method propagates a value. The
    /// method then hands back the target it was called on.
    pub return_type: Option<String>,
    pub body: ExtensionBody,
}

pub struct ExtensionImplView {
    pub target: ExtensionTarget,
    pub parameters: Seq<ParameterView>,
    pub return_type: Option<Text>,
    pub body: ExtensionBodyView,
}

impl ExtensionImplView {
    /// The bindings from which the method builds the value, in field order.
    pub open spec fn constructed(self) -> Seq<Text> {
        names_of(self.parameters)
    }
}

impl DeepView for ExtensionImpl {
    type V = ExtensionImplView;

    open spec fn deep_view(&self) -> ExtensionImplView {
        ExtensionImplView {
            target: self.target,
            parameters: self.parameters.deep_view(),
            return_type: self.return_type.deep_view(),
            body: self.body.deep_view(),
        }
    }
}

/// What is taken over from the declared function as it stands.
#[derive(Clone, Debug, PartialEq, Eq)]
pub struct Forwarded {
    pub attributes: Vec<String>,
    pub docs: Vec<String>,
    pub visibility: String,
    pub qualifiers: String,
    pub generics: Vec<GenericParam>,
    pub inputs: String,
}

pub struct ForwardedView {
    pub attributes: Seq<Text>,
    pub docs: Seq<Text>,
    pub visibility: Text,
    pub qualifiers: Text,
    pub generics: Seq<GenericParamView>,
    pub inputs: Text,
}

impl DeepView for Forwarded {
    type V = ForwardedView;

    open spec fn deep_view(&self) -> ForwardedView {
        ForwardedView {
            attributes: self.attributes.deep_view(),
            docs: self.docs.deep_view(),
            visibility: self.visibility@,
            qualifiers: self.qualifiers@,
            generics: self.generics.deep_view(),
            inputs: self.inputs@,
        }
    }
}

/// Everything that one function compiles into.
#[derive(Clone, Debug, PartialEq, Eq)]
pub struct ArtifactSet {
    pub names: ResolvedNames,
    pub forwarded: Forwarded,
    /// The declared function; under another name where a wrapper takes its place.
    pub function: FunctionDecl,
    /// The result-routing wrapper, under the declared name.
    pub wrapper: Option<FunctionDecl>,
    pub data_type: DataTypeDecl,
    pub behavior: BehaviorImpl,
    /// The extension trait and its implementation for the queuing handle.
    pub queued_extension: Option<ExtensionImpl>,
    /// The implementation of the extension trait for the world or the entity.
    pub direct_extension: Option<ExtensionImpl>,
}

pub struct ArtifactSetView {
    pub names: ResolvedNamesView,
    pub forwarded: ForwardedView,
    pub function: FunctionDeclView,
    pub wrapper: Option<FunctionDeclView>,
    pub data_type: DataTypeDeclView,
    pub behavior: BehaviorImplView,
    pub queued_extension: Option<ExtensionImplView>,
    pub direct_extension: Option<ExtensionImplView>,
}

impl DeepView for ArtifactSet {
    type V = ArtifactSetView;

    open spec fn deep_view(&self) -> ArtifactSetView {
        ArtifactSetView {
            names: self.names.deep_view(),
            forwarded: self.forwarded.deep_view(),
            function: self.function.deep_view(),
            wrapper: self.wrapper.deep_view(),
            data_type: self.data_type.deep_view(),
            behavior: self.behavior.deep_view(),
            queued_extension: self.queued_extension.deep_view(),
            direct_extension: self.direct_extension.deep_view(),
        }
    }
}

} // verus!
