use commandify::emit::{
    write_angle_list, write_construction, write_destructuring, write_field_list, write_generics,
    write_generic_arguments, write_handler_call, write_return_annotation, write_run,
    write_terminated,
};
use commandify::{
    commandify, generate, render, Config, ExecutionStyle, FunctionSpec, GenericKind, GenericParam,
    Parameter, ReturnType, SystemInput, ValidationError,
};

fn field(name: &str, ty: &str) -> Parameter {
    Parameter { name: name.to_string(), ty: ty.to_string(), is_subject: false }
}

fn subject(name: &str) -> Parameter {
    Parameter { name: name.to_string(), ty: "Entity".to_string(), is_subject: true }
}

fn exclusive() -> ExecutionStyle {
    ExecutionStyle::Exclusive { world: "world: &mut World".to_string() }
}

fn config(style: ExecutionStyle) -> Config {
    Config {
        style,
        public_name: None,
        generated_type_name: None,
        generated_trait_name: None,
        root_namespace: None,
        suppress_trait: false,
        suppress_world_extension: false,
        success_handler: None,
        error_handler: None,
    }
}

fn function(name: &str, inputs: &str, parameters: Vec<Parameter>, body: &str) -> FunctionSpec {
    FunctionSpec {
        name: name.to_string(),
        visibility: "pub".to_string(),
        qualifiers: String::new(),
        attributes: vec![],
        docs: vec![],
        generics: vec![],
        inputs: inputs.to_string(),
        parameters,
        variadic: false,
        return_type: None,
        body: body.to_string(),
    }
}

fn texts(parts: &[&str]) -> Vec<String> {
    parts.iter().map(|part| part.to_string()).collect()
}

#[test]
fn an_exclusive_world_command_without_fields_is_written_out() {
    let item = function("reset", "world: &mut World", vec![], "{ world.clear(); }");
    let set = commandify(&config(exclusive()), &item, false).unwrap();
    let expected = [
        "#[allow(unused)] pub  fn reset(world: &mut World) { world.clear(); }",
        " pub  struct ResetCommand;",
        " impl ::bevy::ecs::system::Command for ResetCommand",
        " { fn apply(self, world: &mut World) { { world.clear(); } } }",
        " pub trait CommandsResetExt { fn reset(&mut self, ); }",
        " impl CommandsResetExt for ::bevy::ecs::system::Commands<'_, '_>",
        " { fn reset(&mut self, ) { self.add(ResetCommand { });  } }",
        " impl CommandsResetExt for ::bevy::ecs::world::World",
        " { fn reset(&mut self, )",
        " { <ResetCommand as ::bevy::ecs::system::Command>::apply(ResetCommand { }, self);  } }",
    ]
    .concat();
    assert_eq!(render(&set), expected);
    assert!(syn::parse_str::<syn::File>(&expected).is_ok());
}

#[test]
fn an_exclusive_entity_command_with_handlers_is_written_out() {
    let mut item = function(
        "damage",
        "world: &mut World, target: Entity, amount: u32, source: T",
        vec![subject("target"), field("amount", "u32"), field("source", "T")],
        "{ Ok(amount) }",
    );
    item.visibility = "pub(crate)".to_string();
    item.attributes = texts(&["#[inline]", "#[doc = \" Hurts.\"]"]);
    item.docs = texts(&["#[doc = \" Hurts.\"]"]);
    item.generics = vec![
        GenericParam {
            kind: GenericKind::Type,
            name: "T".to_string(),
            declaration: "T: Component".to_string(),
        },
        GenericParam {
            kind: GenericKind::Constant,
            name: "N".to_string(),
            declaration: "const N: usize".to_string(),
        },
    ];
    item.return_type = Some(ReturnType { ty: "Result<u32, String>".to_string(), fallible: true });
    let mut config = config(exclusive());
    config.success_handler = Some("on_hit".to_string());
    config.error_handler = Some("on_miss".to_string());
    let set = commandify(&config, &item, true).unwrap();

    let routing = [
        "{ use ::bevy::ecs::system::RunSystemOnce;",
        " let result = damage_with_result(world, amount, source, );",
        " match result { Ok(ok) => { world.run_system_once_with(ok, on_hit) },",
        " Err(error) => { world.run_system_once_with(error, on_miss) }, } }",
    ]
    .concat();
    let signature = "<T: Component, const N: usize, >\
        (world: &mut World, target: Entity, amount: u32, source: T) -> Result<u32, String> ";
    let method = "fn damage<T: Component, const N: usize, >(&mut self, amount: u32, source: T, )";
    let expected = [
        "#[allow(unused)] #[inline] #[doc = \" Hurts.\"] pub(crate)  fn damage_with_result",
        signature,
        "{ Ok(amount) }",
        " #[allow(unused)] #[inline] #[doc = \" Hurts.\"] pub(crate)  fn damage",
        signature,
        routing.as_str(),
        " #[inline] #[doc = \" Hurts.\"] pub(crate)  struct DamageEntityCommand",
        "<T: Component, const N: usize, > { pub amount: u32, pub source: T, }",
        " impl<T: Component, const N: usize, > ::bevy::ecs::system::EntityCommand",
        " for DamageEntityCommand<T, N, >",
        " { fn apply(self, target: Entity, world: &mut World)",
        " { let DamageEntityCommand { amount, source, } = self; ",
        routing.as_str(),
        " } }",
        " pub trait EntityCommandsDamageExt { #[doc = \" Hurts.\"] ",
        method,
        "; }",
        " impl EntityCommandsDamageExt for ::bevy::ecs::system::EntityCommands<'_> { ",
        method,
        " { self.add(DamageEntityCommand { amount, source, });  } }",
        " impl EntityCommandsDamageExt for ::bevy::ecs::world::EntityWorldMut<'_> { ",
        method,
        " { let id = self.id(); self.world_scope(|world| {",
        " <DamageEntityCommand<T, N, > as ::bevy::ecs::system::EntityCommand>::apply",
        "(DamageEntityCommand { amount, source, }, id, world); });  } }",
    ]
    .concat();
    assert_eq!(render(&set), expected);
    assert!(syn::parse_str::<syn::File>(&expected).is_ok());
}

#[test]
fn a_system_world_command_with_two_fields_is_written_out() {
    let mut item = function(
        "spawn_pair",
        "In((left, right)): In<(u32, u32)>, mut commands: Commands",
        vec![field("left", "u32"), field("right", "u32")],
        "{ }",
    );
    item.visibility = String::new();
    item.return_type = Some(ReturnType { ty: "&mut Self".to_string(), fallible: false });
    let set = commandify(&config(ExecutionStyle::System), &item, false).unwrap();
    let method = "fn spawn_pair(&mut self, left: u32, right: u32, ) -> &mut Self";
    let expected = [
        "#[allow(unused)]   fn spawn_pair",
        "(In((left, right)): In<(u32, u32)>, mut commands: Commands) { }",
        "   struct SpawnPairCommand { pub left: u32, pub right: u32, }",
        " impl ::bevy::ecs::system::Command for SpawnPairCommand",
        " { fn apply(self, world: &mut ::bevy::ecs::world::World)",
        " { use ::bevy::ecs::system::RunSystemOnce;",
        " let SpawnPairCommand { left, right, } = self;",
        " world.run_system_once_with((left, right, ), spawn_pair); } }",
        " pub trait CommandsSpawnPairExt { ",
        method,
        "; }",
        " impl CommandsSpawnPairExt for ::bevy::ecs::system::Commands<'_, '_> { ",
        method,
        " { self.add(SpawnPairCommand { left, right, }); self } }",
        " impl CommandsSpawnPairExt for ::bevy::ecs::world::World { ",
        method,
        " { use ::bevy::ecs::system::RunSystemOnce;",
        " self.run_system_once_with((left, right, ), spawn_pair); self } }",
    ]
    .concat();
    assert_eq!(render(&set), expected);
    assert!(syn::parse_str::<syn::File>(&expected).is_ok());
}

#[test]
fn a_system_entity_command_is_written_out() {
    let mut item = function(
        "heal",
        "In((target, amount)): In<(Entity, u32)>",
        vec![subject("target"), field("amount", "u32")],
        "{ }",
    );
    item.visibility = String::new();
    let mut config = config(ExecutionStyle::System);
    config.root_namespace = Some("::engine".to_string());
    config.public_name = Some("heal_now".to_string());
    let set = commandify(&config, &item, true).unwrap();
    let expected = [
        "#[allow(unused)]   fn heal(In((target, amount)): In<(Entity, u32)>) { }",
        "   struct HealNowEntityCommand { pub amount: u32, }",
        " impl ::engine::system::EntityCommand for HealNowEntityCommand",
        " { fn apply(self, target: Entity, world: &mut ::engine::world::World)",
        " { use ::engine::system::RunSystemOnce;",
        " let HealNowEntityCommand { amount, } = self;",
        " world.run_system_once_with(amount, heal); } }",
        " pub trait EntityCommandsHealNowExt { fn heal_now(&mut self, amount: u32, ); }",
        " impl EntityCommandsHealNowExt for ::engine::system::EntityCommands<'_>",
        " { fn heal_now(&mut self, amount: u32, )",
        " { self.add(HealNowEntityCommand { amount, });  } }",
        " impl EntityCommandsHealNowExt for ::engine::world::EntityWorldMut<'_>",
        " { fn heal_now(&mut self, amount: u32, )",
        " { use ::bevy::ecs::system::RunSystemOnce; let target = self.id();",
        " self.world_scope(|world| { world.run_system_once_with(amount, heal); });  } }",
    ]
    .concat();
    assert_eq!(render(&set), expected);
    assert!(syn::parse_str::<syn::File>(&expected).is_ok());
}

#[test]
fn a_system_command_without_fields_runs_without_input() {
    let mut item = function("tick", "mut commands: Commands", vec![], "{ }");
    item.visibility = String::new();
    let mut config = config(ExecutionStyle::System);
    config.suppress_trait = true;
    let set = commandify(&config, &item, false).unwrap();
    let expected = [
        "#[allow(unused)]   fn tick(mut commands: Commands) { }",
        "   struct TickCommand;",
        " impl ::bevy::ecs::system::Command for TickCommand",
        " { fn apply(self, world: &mut ::bevy::ecs::world::World)",
        " { use ::bevy::ecs::system::RunSystemOnce; world.run_system_once(tick); } }",
    ]
    .concat();
    assert_eq!(render(&set), expected);
}

#[test]
fn every_combination_is_written_as_well_formed_items() {
    let styles = vec![exclusive(), ExecutionStyle::System];
    for style in &styles {
        for entity_command in [false, true] {
            for fields in 0..3 {
                for handlers in 0..4 {
                    for suppress in 0..3 {
                        for generic in [false, true] {
                            let mut parameters = vec![subject("target")];
                            let mut inputs = "world: &mut World, target: Entity".to_string();
                            for i in 0..fields {
                                parameters.push(field(&format!("f{i}"), "u32"));
                                inputs.push_str(&format!(", f{i}: u32"));
                            }
                            let mut item = function("act", &inputs, parameters, "{ Ok(()) }");
                            item.return_type = Some(ReturnType {
                                ty: "Result<(), ()>".to_string(),
                                fallible: true,
                            });
                            if generic {
                                item.generics = vec![GenericParam {
                                    kind: GenericKind::Lifetime,
                                    name: "'a".to_string(),
                                    declaration: "'a".to_string(),
                                }];
                            }
                            let mut config = config(style.clone());
                            if handlers & 1 == 1 {
                                config.success_handler = Some("on_ok".to_string());
                            }
                            if handlers & 2 == 2 {
                                config.error_handler = Some("on_err".to_string());
                            }
                            config.suppress_trait = suppress == 1;
                            config.suppress_world_extension = suppress == 2;
                            let text = generate(&config, &item, entity_command).unwrap();
                            let file = syn::parse_str::<syn::File>(&text);
                            assert!(file.is_ok(), "{text}");
                            let items = file.unwrap().items.len();
                            let functions = if handlers == 0 { 1 } else { 2 };
                            let extensions = match suppress {
                                0 => 3,
                                1 => 0,
                                _ => 2,
                            };
                            assert_eq!(items, functions + 2 + extensions, "{text}");
                        }
                    }
                }
            }
        }
    }
}

#[test]
fn generate_renders_what_commandify_assembles() {
    let item = function(
        "act",
        "world: &mut World, amount: u32",
        vec![field("amount", "u32")],
        "{ }",
    );
    let config = config(exclusive());
    let set = commandify(&config, &item, false).unwrap();
    assert_eq!(generate(&config, &item, false), Ok(render(&set)));
    assert_eq!(generate(&config, &item, true), Err(ValidationError::MissingSubject));
    let mut variadic = item.clone();
    variadic.variadic = true;
    assert_eq!(generate(&config, &variadic, false), Err(ValidationError::Variadic));
    let twice = function("act", "", vec![subject("a"), subject("b")], "{ }");
    assert_eq!(generate(&config, &twice, false), Err(ValidationError::AmbiguousSubject));
}

#[test]
fn lists_are_written_with_a_separator_after_each_part() {
    assert_eq!(write_terminated(&vec![], ", "), "");
    assert_eq!(write_terminated(&texts(&["a"]), ", "), "a, ");
    assert_eq!(write_terminated(&texts(&["a", "b", "c"]), ", "), "a, b, c, ");
    assert_eq!(write_terminated(&texts(&["x", "y"]), " "), "x y ");
    assert_eq!(write_angle_list(&vec![]), "");
    assert_eq!(write_angle_list(&texts(&["T", "U"])), "<T, U, >");
}

#[test]
fn generics_are_written_as_declared_and_as_named() {
    let generics = vec![
        GenericParam {
            kind: GenericKind::Lifetime,
            name: "'a".to_string(),
            declaration: "'a: 'static".to_string(),
        },
        GenericParam {
            kind: GenericKind::Type,
            name: "T".to_string(),
            declaration: "T: Clone + 'a".to_string(),
        },
        GenericParam {
            kind: GenericKind::Constant,
            name: "N".to_string(),
            declaration: "const N: usize".to_string(),
        },
    ];
    assert_eq!(write_generics(&generics), "<'a: 'static, T: Clone + 'a, const N: usize, >");
    assert_eq!(write_generic_arguments(&generics), "<'a, T, N, >");
    assert_eq!(write_generics(&vec![]), "");
    assert_eq!(write_generic_arguments(&vec![]), "");
}

#[test]
fn the_small_fragments_are_written_by_their_formulas() {
    assert_eq!(write_field_list(&vec![]), ";");
    assert_eq!(write_field_list(&vec![field("a", "A")]), " { pub a: A, }");
    assert_eq!(write_destructuring("Thing", &vec![]), "");
    assert_eq!(write_destructuring("Thing", &texts(&["a", "b"])), "let Thing { a, b, } = self; ");
    assert_eq!(write_construction("Thing", &vec![]), "Thing { }");
    assert_eq!(write_construction("Thing", &texts(&["a"])), "Thing { a, }");
    assert_eq!(write_return_annotation(&None), "");
    assert_eq!(write_return_annotation(&Some("u8".to_string())), " -> u8");
    assert_eq!(write_handler_call("ok", &None), "");
    assert_eq!(
        write_handler_call("ok", &Some("done".to_string())),
        "world.run_system_once_with(ok, done)"
    );
    assert_eq!(write_run("world", &SystemInput::Nothing, "sys"), "world.run_system_once(sys);");
    assert_eq!(
        write_run("self", &SystemInput::Single("a".to_string()), "sys"),
        "self.run_system_once_with(a, sys);"
    );
    assert_eq!(
        write_run("world", &SystemInput::Tuple(texts(&["a", "b"])), "sys"),
        "world.run_system_once_with((a, b, ), sys);"
    );
}
