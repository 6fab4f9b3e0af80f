use commandify::{
    classify_fields, second_subject_position, ExecutionStyle, Parameter, ValidationError,
};

fn field(name: &str, ty: &str) -> Parameter {
    Parameter { name: name.to_string(), ty: ty.to_string(), is_subject: false }
}

fn subject(name: &str) -> Parameter {
    Parameter { name: name.to_string(), ty: "Entity".to_string(), is_subject: true }
}

#[test]
fn entity_scope_without_a_subject_is_rejected() {
    let parameters = vec![field("amount", "u32")];
    assert_eq!(classify_fields(&parameters, true), Err(ValidationError::MissingSubject));
    assert_eq!(classify_fields(&vec![], true), Err(ValidationError::MissingSubject));
}

#[test]
fn entity_scope_with_one_subject_succeeds() {
    let parameters = vec![field("amount", "u32"), subject("target"), field("label", "String")];
    let fields = classify_fields(&parameters, true).unwrap();
    assert_eq!(fields.subject, Some(subject("target")));
    assert_eq!(fields.captured_fields, vec![field("amount", "u32"), field("label", "String")]);
}

#[test]
fn entity_scope_with_two_subjects_is_rejected() {
    let parameters = vec![subject("first"), field("amount", "u32"), subject("second")];
    assert_eq!(classify_fields(&parameters, true), Err(ValidationError::AmbiguousSubject));
}

#[test]
fn world_scope_with_two_subjects_is_rejected_too() {
    let parameters = vec![subject("first"), subject("second")];
    assert_eq!(classify_fields(&parameters, false), Err(ValidationError::AmbiguousSubject));
    let parameters = vec![subject("a"), subject("b"), subject("c")];
    assert_eq!(classify_fields(&parameters, false), Err(ValidationError::AmbiguousSubject));
}

#[test]
fn world_scope_needs_no_subject() {
    let parameters = vec![field("amount", "u32")];
    let fields = classify_fields(&parameters, false).unwrap();
    assert_eq!(fields.subject, None);
    assert_eq!(fields.captured_fields, parameters);

    let fields = classify_fields(&vec![], false).unwrap();
    assert_eq!(fields.subject, None);
    assert!(fields.captured_fields.is_empty());
}

#[test]
fn world_scope_sets_a_lone_subject_apart() {
    let parameters = vec![subject("target"), field("amount", "u32")];
    let fields = classify_fields(&parameters, false).unwrap();
    assert_eq!(fields.subject, Some(subject("target")));
    assert_eq!(fields.captured_fields, vec![field("amount", "u32")]);
}

#[test]
fn declaration_order_is_preserved() {
    let parameters = vec![
        field("d", "D"),
        field("a", "A"),
        subject("target"),
        field("c", "C"),
        field("b", "B"),
    ];
    let fields = classify_fields(&parameters, true).unwrap();
    let names: Vec<&str> = fields.captured_fields.iter().map(|p| p.name.as_str()).collect();
    assert_eq!(names, vec!["d", "a", "c", "b"]);
}

#[test]
fn system_inputs_follow_the_execution_style() {
    let parameters = vec![field("left", "u32"), subject("target"), field("right", "u32")];
    let fields = classify_fields(&parameters, true).unwrap();
    assert_eq!(
        fields.system_inputs(&ExecutionStyle::System),
        vec![field("left", "u32"), field("right", "u32")]
    );
    let exclusive = ExecutionStyle::Exclusive { world: "world: &mut World".to_string() };
    assert!(fields.system_inputs(&exclusive).is_empty());
}

#[test]
fn the_second_subject_is_located() {
    assert_eq!(second_subject_position(&vec![]), None);
    assert_eq!(second_subject_position(&vec![field("a", "A"), subject("s")]), None);
    assert_eq!(
        second_subject_position(&vec![subject("s"), field("a", "A"), subject("t"), subject("u")]),
        Some(2)
    );
    assert_eq!(second_subject_position(&vec![subject("s"), subject("t")]), Some(1));
}

#[test]
fn the_parameter_builders_set_the_shape() {
    assert_eq!(Parameter::field("amount", "u32"), field("amount", "u32"));
    assert_eq!(Parameter::subject("target", "Entity"), subject("target"));
}
