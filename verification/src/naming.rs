//! Name resolution: the public name first, then the names derived from it.

use vstd::prelude::*;
use crate::model::{Config, ConfigView, Scope, Text};

verus! {

/// The Pascal-case form of a name, as the `Inflector` crate computes it.
pub uninterp spec fn pascal_case(name: Seq<char>) -> Seq<char>;

/// Calls `inflector::cases::pascalcase::to_pascal_case`, the function behind
/// `Inflector::to_pascal_case` for strings. It reads nothing but its
/// argument, so the same name always gives the same result, and it has no
/// failure path besides the allocation of its output. The contract claims
/// no more than that: it gives the result a name and says nothing of what
/// the result holds.
#[verifier::external_body]
fn to_pascal_case(name: &str) -> (pascal: String)
    ensures
        pascal@ == pascal_case(name@),
{
    inflector::cases::pascalcase::to_pascal_case(name)
}

/// The names under which the artifacts are emitted.
#[derive(Clone, Debug, PartialEq, Eq)]
pub struct ResolvedNames {
    /// The name of the method through which the command is issued.
    pub public_name: String,
    /// The name of the data type.
    pub data_type_name: String,
    /// The name of the extension trait.
    pub trait_name: String,
    /// The path under which the framework's items are found.
    pub root_namespace: String,
}

pub struct ResolvedNamesView {
    pub public_name: Text,
    pub data_type_name: Text,
    pub trait_name: Text,
    pub root_namespace: Text,
}

impl DeepView for ResolvedNames {
    type V = ResolvedNamesView;

    open spec fn deep_view(&self) -> ResolvedNamesView {
        ResolvedNamesView {
            public_name: self.public_name@,
            data_type_name: self.data_type_name@,
            trait_name: self.trait_name@,
            root_namespace: self.root_namespace@,
        }
    }
}

/// The public name: the override where there is one, else the function's own.
pub open spec fn public_name(function_name: Text, config: ConfigView) -> Text {
    match config.public_name {
        Some(name) => name,
        None => function_name,
    }
}

/// The framework's word for a command of the given scope.
pub open spec fn command_word(scope: Scope) -> Text {
    match scope {
        Scope::World => "Command"@,
        Scope::Entity => "EntityCommand"@,
    }
}

/// The data type's name where none is given.
pub open spec fn default_type_name(pascal: Text, scope: Scope) -> Text {
    pascal + command_word(scope)
}

/// The extension trait's name where none is given.
pub open spec fn default_trait_name(pascal: Text, scope: Scope) -> Text {
    command_word(scope) + "s"@ + pascal + "Ext"@
}

/// The root namespace where none is given.
pub open spec fn default_root() -> Text {
    "::bevy::ecs"@
}

/// The resolved names, given the Pascal-case form of the public name.
/// An override is taken as it stands; only the public name is ever case-converted.
pub open spec fn names_from(
    function_name: Text,
    config: ConfigView,
    scope: Scope,
    pascal: Text,
) -> ResolvedNamesView {
    ResolvedNamesView {
        public_name: public_name(function_name, config),
        data_type_name: match config.generated_type_name {
            Some(name) => name,
            None => default_type_name(pascal, scope),
        },
        trait_name: match config.generated_trait_name {
            Some(name) => name,
            None => default_trait_name(pascal, scope),
        },
        root_namespace: match config.root_namespace {
            Some(root) => root,
            None => default_root(),
        },
    }
}

/// The resolved names of a function under a configuration. The derived
/// names start from the resolved public name, never from the function's
/// own name where that one is overridden.
pub open spec fn resolved_names(function_name: Text, config: ConfigView, scope: Scope) -> ResolvedNamesView {
    names_from(function_name, config, scope, pascal_case(public_name(function_name, config)))
}

/// The framework's word for a command of the given scope.
pub fn command_word_of(scope: Scope) -> (word: &'static str)
    ensures
        word@ == command_word(scope),
{
    match scope {
        Scope::World => "Command",
        Scope::Entity => "EntityCommand",
    }
}

/// The data type's default name, from the Pascal-case public name.
pub fn make_default_type_name(pascal: &str, scope: Scope) -> (name: String)
    ensures
        name@ == default_type_name(pascal@, scope),
{
    let mut name = String::from_str(pascal);
    name.append(command_word_of(scope));
    name
}

/// The extension trait's default name, from the Pascal-case public name.
pub fn make_default_trait_name(pascal: &str, scope: Scope) -> (name: String)
    ensures
        name@ == default_trait_name(pascal@, scope),
{
    let mut name = String::from_str(command_word_of(scope));
    name.append("s");
    name.append(pascal);
    name.append("Ext");
    name
}

/// Resolves every name, given the Pascal-case form of the public name.
pub fn derive_names(function_name: &str, config: &Config, scope: Scope, pascal: &str) -> (names:
    ResolvedNames)
    ensures
        names.deep_view() == names_from(function_name@, config.deep_view(), scope, pascal@),
{
    let public_name = match &config.public_name {
        Some(name) => name.clone(),
        None => String::from_str(function_name),
    };
    let data_type_name = match &config.generated_type_name {
        Some(name) => name.clone(),
        None => make_default_type_name(pascal, scope),
    };
    let trait_name = match &config.generated_trait_name {
        Some(name) => name.clone(),
        None => make_default_trait_name(pascal, scope),
    };
    let root_namespace = match &config.root_namespace {
        Some(root) => root.clone(),
        None => String::from_str("::bevy::ecs"),
    };
    ResolvedNames { public_name, data_type_name, trait_name, root_namespace }
}

/// Resolves every name. The public name is converted to Pascal case only
/// where a derived name is needed.
pub fn resolve_names(function_name: &str, config: &Config, scope: Scope) -> (names: ResolvedNames)
    ensures
        names.deep_view() == resolved_names(function_name@, config.deep_view(), scope),
{
    if config.generated_type_name.is_some() && config.generated_trait_name.is_some() {
        derive_names(function_name, config, scope, "")
    } else {
        let pascal = match &config.public_name {
            Some(name) => to_pascal_case(name.as_str()),
            None => to_pascal_case(function_name),
        };
        derive_names(function_name, config, scope, pascal.as_str())
    }
}

} // verus!
