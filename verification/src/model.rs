//! The input model: the annotated function and the configuration directives,
//! as plain values, each with the mathematical view that contracts speak of.

use vstd::prelude::*;

verus! {

/// Source text in contracts: a sequence of characters.
pub type Text = Seq<char>;

/// Whether a command addresses the world as a whole or one entity in it.
#[derive(Clone, Copy, Debug, PartialEq, Eq, Structural)]
pub enum Scope {
    World,
    Entity,
}

impl Scope {
    /// The scope that the entity-command flag selects.
    pub open spec fn of(entity_command: bool) -> Scope {
        if entity_command {
            Scope::Entity
        } else {
            Scope::World
        }
    }

    /// The scope that the entity-command flag selects.
    pub fn from_flag(entity_command: bool) -> (scope: Scope)
        ensures
            scope == Scope::of(entity_command),
    {
        if entity_command {
            Scope::Entity
        } else {
            Scope::World
        }
    }
}

/// The three kinds of generic parameter.
#[derive(Clone, Copy, Debug, PartialEq, Eq, Structural)]
pub enum GenericKind {
    Lifetime,
    Type,
    Constant,
}

/// One generic parameter of the function.
#[derive(Debug, PartialEq, Eq)]
pub struct GenericParam {
    pub kind: GenericKind,
    /// The bare name by which the parameter is referred to (`'a`, `T`, `N`).
    pub name: String,
    /// The parameter as declared, bounds and defaults included.
    pub declaration: String,
}

pub struct GenericParamView {
    pub kind: GenericKind,
    pub name: Text,
    pub declaration: Text,
}

impl DeepView for GenericParam {
    type V = GenericParamView;

    open spec fn deep_view(&self) -> GenericParamView {
        GenericParamView { kind: self.kind, name: self.name@, declaration: self.declaration@ }
    }
}

impl Clone for GenericParam {
    fn clone(&self) -> (copy: Self)
        ensures
            copy.deep_view() == self.deep_view(),
    {
        GenericParam {
            kind: self.kind,
            name: self.name.clone(),
            declaration: self.declaration.clone(),
        }
    }
}

/// One logical parameter of the function: a binding name and its type.
#[derive(Debug, PartialEq, Eq)]
pub struct Parameter {
    pub name: String,
    pub ty: String,
    /// Whether the type is the framework's addressable-unit type, which makes
    /// the parameter a candidate for the subject of an entity command.
    pub is_subject: bool,
}

pub struct ParameterView {
    pub name: Text,
    pub ty: Text,
    pub is_subject: bool,
}

impl DeepView for Parameter {
    type V = ParameterView;

    open spec fn deep_view(&self) -> ParameterView {
        ParameterView { name: self.name@, ty: self.ty@, is_subject: self.is_subject }
    }
}

impl Parameter {
    /// A parameter of any type but the subject type.
    pub fn field(name: &str, ty: &str) -> (parameter: Parameter)
        ensures
            parameter.deep_view() == (ParameterView { name: name@, ty: ty@, is_subject: false }),
    {
        Parameter { name: String::from_str(name), ty: String::from_str(ty), is_subject: false }
    }

    /// A parameter of the subject type.
    pub fn subject(name: &str, ty: &str) -> (parameter: Parameter)
        ensures
            parameter.deep_view() == (ParameterView { name: name@, ty: ty@, is_subject: true }),
    {
        Parameter { name: String::from_str(name), ty: String::from_str(ty), is_subject: true }
    }
}

impl Clone for Parameter {
    fn clone(&self) -> (copy: Self)
        ensures
            copy.deep_view() == self.deep_view(),
    {
        Parameter { name: self.name.clone(), ty: self.ty.clone(), is_subject: self.is_subject }
    }
}

/// The declared return type.
#[derive(Debug, PartialEq, Eq)]
pub struct ReturnType {
    pub ty: String,
    /// Whether the type is a two-armed success/error result.
    pub fallible: bool,
}

pub struct ReturnTypeView {
    pub ty: Text,
    pub fallible: bool,
}

impl DeepView for ReturnType {
    type V = ReturnTypeView;

    open spec fn deep_view(&self) -> ReturnTypeView {
        ReturnTypeView { ty: self.ty@, fallible: self.fallible }
    }
}

impl Clone for ReturnType {
    fn clone(&self) -> (copy: Self)
        ensures
            copy.deep_view() == self.deep_view(),
    {
        ReturnType { ty: self.ty.clone(), fallible: self.fallible }
    }
}

/// The annotated function. Visibility, qualifiers, attributes, the declared
/// input list and the body are opaque text that is only ever forwarded.
#[derive(Clone, Debug, PartialEq, Eq)]
pub struct FunctionSpec {
    pub name: String,
    pub visibility: String,
    /// Constness, asyncness, unsafety and calling convention, as written.
    pub qualifiers: String,
    /// Every attribute of the function, as written, in order.
    pub attributes: Vec<String>,
    /// The doc-comment fragments among the attributes, in order.
    pub docs: Vec<String>,
    pub generics: Vec<GenericParam>,
    /// The input list between the parentheses, as written.
    pub inputs: String,
    /// The logical parameters, in declaration order.
    pub parameters: Vec<Parameter>,
    /// Whether the input list ends in a variadic parameter.
    pub variadic: bool,
    pub return_type: Option<ReturnType>,
    pub body: String,
}

pub struct FunctionSpecView {
    pub name: Text,
    pub visibility: Text,
    pub qualifiers: Text,
    pub attributes: Seq<Text>,
    pub docs: Seq<Text>,
    pub generics: Seq<GenericParamView>,
    pub inputs: Text,
    pub parameters: Seq<ParameterView>,
    pub variadic: bool,
    pub return_type: Option<ReturnTypeView>,
    pub body: Text,
}

impl FunctionSpecView {
    /// Whether the function returns a two-armed success/error result.
    pub open spec fn is_fallible(self) -> bool {
        self.return_type matches Some(r) && r.fallible
    }
}

impl DeepView for FunctionSpec {
    type V = FunctionSpecView;

    open spec fn deep_view(&self) -> FunctionSpecView {
        FunctionSpecView {
            name: self.name@,
            visibility: self.visibility@,
            qualifiers: self.qualifiers@,
            attributes: self.attributes.deep_view(),
            docs: self.docs.deep_view(),
            generics: self.generics.deep_view(),
            inputs: self.inputs@,
            parameters: self.parameters.deep_view(),
            variadic: self.variadic,
            return_type: self.return_type.deep_view(),
            body: self.body@,
        }
    }
}

impl FunctionSpec {
    /// Whether the function returns a two-armed success/error result.
    pub fn is_fallible(&self) -> (fallible: bool)
        ensures
            fallible == self.deep_view().is_fallible(),
    {
        match &self.return_type {
            Some(r) => r.fallible,
            None => false,
        }
    }
}

/// How the command reaches the world when it is applied.
#[derive(Clone, Debug, PartialEq, Eq)]
pub enum ExecutionStyle {
    /// The function takes the world directly. `world` is the declaration of
    /// that parameter, as written; it becomes the world parameter of the
    /// behaviour, whose body is the function's own.
    Exclusive { world: String },
    /// The function is a system that the runtime schedules and feeds.
    System,
}

pub enum ExecutionStyleView {
    Exclusive { world: Text },
    System,
}

impl DeepView for ExecutionStyle {
    type V = ExecutionStyleView;

    open spec fn deep_view(&self) -> ExecutionStyleView {
        match self {
            ExecutionStyle::Exclusive { world } => ExecutionStyleView::Exclusive { world: world@ },
            ExecutionStyle::System => ExecutionStyleView::System,
        }
    }
}

/// The configuration directives. An absent name is derived; an absent
/// handler is not called.
#[derive(Clone, Debug, PartialEq, Eq)]
pub struct Config {
    pub style: ExecutionStyle,
    pub public_name: Option<String>,
    pub generated_type_name: Option<String>,
    pub generated_trait_name: Option<String>,
    pub root_namespace: Option<String>,
    pub suppress_trait: bool,
    pub suppress_world_extension: bool,
    pub success_handler: Option<String>,
    pub error_handler: Option<String>,
}

pub struct ConfigView {
    pub style: ExecutionStyleView,
    pub public_name: Option<Text>,
    pub generated_type_name: Option<Text>,
    pub generated_trait_name: Option<Text>,
    pub root_namespace: Option<Text>,
    pub suppress_trait: bool,
    pub suppress_world_extension: bool,
    pub success_handler: Option<Text>,
    pub error_handler: Option<Text>,
}

impl ConfigView {
    /// Whether any result handler is configured.
    pub open spec fn has_result_handler(self) -> bool {
        self.success_handler is Some || self.error_handler is Some
    }
}

impl DeepView for Config {
    type V = ConfigView;

    open spec fn deep_view(&self) -> ConfigView {
        ConfigView {
            style: self.style.deep_view(),
            public_name: self.public_name.deep_view(),
            generated_type_name: self.generated_type_name.deep_view(),
            generated_trait_name: self.generated_trait_name.deep_view(),
            root_namespace: self.root_namespace.deep_view(),
            suppress_trait: self.suppress_trait,
            suppress_world_extension: self.suppress_world_extension,
            success_handler: self.success_handler.deep_view(),
            error_handler: self.error_handler.deep_view(),
        }
    }
}

impl ConfigView {
    /// The configuration without any directive: every name derived, nothing
    /// suppressed, no handler.
    pub open spec fn plain(style: ExecutionStyleView) -> ConfigView {
        ConfigView {
            style,
            public_name: None,
            generated_type_name: None,
            generated_trait_name: None,
            root_namespace: None,
            suppress_trait: false,
            suppress_world_extension: false,
            success_handler: None,
            error_handler: None,
        }
    }
}

impl Config {
    /// The configuration without any directive.
    pub fn plain(style: ExecutionStyle) -> (config: Config)
        ensures
            config.deep_view() == ConfigView::plain(style.deep_view()),
    {
        Config {
            style,
            public_name: None,
            generated_type_name: None,
            generated_trait_name: None,
            root_namespace: None,
            suppress_trait: false,
            suppress_world_extension: false,
            success_handler: None,
            error_handler: None,
        }
    }

    /// Whether any result handler is configured.
    pub fn has_result_handler(&self) -> (present: bool)
        ensures
            present == self.deep_view().has_result_handler(),
    {
        self.success_handler.is_some() || self.error_handler.is_some()
    }
}

} // verus!
