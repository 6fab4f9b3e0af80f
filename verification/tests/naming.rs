use commandify::naming::{
    command_word_of, derive_names, make_default_trait_name, make_default_type_name, resolve_names,
};
use commandify::{commandify, Config, ExecutionStyle, FunctionSpec, Scope};

fn plain_config() -> Config {
    Config {
        style: ExecutionStyle::System,
        public_name: None,
        generated_type_name: None,
        generated_trait_name: None,
        root_namespace: None,
        suppress_trait: false,
        suppress_world_extension: false,
        success_handler: None,
        error_handler: None,
    }
}

fn bare_function(name: &str) -> FunctionSpec {
    FunctionSpec {
        name: name.to_string(),
        visibility: String::new(),
        qualifiers: String::new(),
        attributes: vec![],
        docs: vec![],
        generics: vec![],
        inputs: String::new(),
        parameters: vec![],
        variadic: false,
        return_type: None,
        body: "{ }".to_string(),
    }
}

#[test]
fn public_name_override_drives_the_derived_type_name() {
    let mut config = plain_config();
    config.public_name = Some("spawnThing".to_string());
    let names = resolve_names("internal_spawn", &config, Scope::World);
    assert_eq!(names.public_name, "spawnThing");
    assert_eq!(names.data_type_name, "SpawnThingCommand");
    assert_eq!(names.trait_name, "CommandsSpawnThingExt");
}

#[test]
fn public_name_override_drives_the_derived_names_in_entity_scope() {
    let mut config = plain_config();
    config.public_name = Some("spawnThing".to_string());
    let names = resolve_names("internal_spawn", &config, Scope::Entity);
    assert_eq!(names.data_type_name, "SpawnThingEntityCommand");
    assert_eq!(names.trait_name, "EntityCommandsSpawnThingExt");
}

#[test]
fn names_default_to_the_function_name() {
    let names = resolve_names("spawn_enemy", &plain_config(), Scope::World);
    assert_eq!(names.public_name, "spawn_enemy");
    assert_eq!(names.data_type_name, "SpawnEnemyCommand");
    assert_eq!(names.trait_name, "CommandsSpawnEnemyExt");
    assert_eq!(names.root_namespace, "::bevy::ecs");
}

#[test]
fn overrides_are_taken_as_they_stand() {
    let mut config = plain_config();
    config.generated_type_name = Some("my_struct".to_string());
    config.generated_trait_name = Some("my_trait".to_string());
    config.root_namespace = Some("::my_engine::ecs".to_string());
    let names = resolve_names("spawn_enemy", &config, Scope::Entity);
    assert_eq!(names.public_name, "spawn_enemy");
    assert_eq!(names.data_type_name, "my_struct");
    assert_eq!(names.trait_name, "my_trait");
    assert_eq!(names.root_namespace, "::my_engine::ecs");
}

#[test]
fn one_override_leaves_the_other_name_derived() {
    let mut config = plain_config();
    config.generated_type_name = Some("Custom".to_string());
    let names = resolve_names("spawn_enemy", &config, Scope::World);
    assert_eq!(names.data_type_name, "Custom");
    assert_eq!(names.trait_name, "CommandsSpawnEnemyExt");

    let mut config = plain_config();
    config.generated_trait_name = Some("CustomExt".to_string());
    let names = resolve_names("spawn_enemy", &config, Scope::World);
    assert_eq!(names.data_type_name, "SpawnEnemyCommand");
    assert_eq!(names.trait_name, "CustomExt");
}

#[test]
fn derive_names_builds_on_the_given_pascal_form() {
    let names = derive_names("anything", &plain_config(), Scope::World, "Zed");
    assert_eq!(names.public_name, "anything");
    assert_eq!(names.data_type_name, "ZedCommand");
    assert_eq!(names.trait_name, "CommandsZedExt");
    let names = derive_names("anything", &plain_config(), Scope::Entity, "Zed");
    assert_eq!(names.data_type_name, "ZedEntityCommand");
    assert_eq!(names.trait_name, "EntityCommandsZedExt");
}

#[test]
fn default_name_builders_follow_the_formulas() {
    assert_eq!(command_word_of(Scope::World), "Command");
    assert_eq!(command_word_of(Scope::Entity), "EntityCommand");
    assert_eq!(make_default_type_name("Foo", Scope::World), "FooCommand");
    assert_eq!(make_default_type_name("Foo", Scope::Entity), "FooEntityCommand");
    assert_eq!(make_default_trait_name("Foo", Scope::World), "CommandsFooExt");
    assert_eq!(make_default_trait_name("Foo", Scope::Entity), "EntityCommandsFooExt");
    assert_eq!(make_default_type_name("", Scope::World), "Command");
}

#[test]
fn generation_emits_under_the_resolved_names() {
    let mut config = plain_config();
    config.public_name = Some("spawnThing".to_string());
    let set = commandify(&config, &bare_function("internal_spawn"), false).unwrap();
    assert_eq!(set.names.public_name, "spawnThing");
    assert_eq!(set.names.data_type_name, "SpawnThingCommand");
    assert_eq!(set.data_type.name, "SpawnThingCommand");
    assert_eq!(set.names.trait_name, "CommandsSpawnThingExt");
    // the emitted function keeps the declared name
    assert_eq!(set.function.name, "internal_spawn");
}
