//! The field classifier: separates the subject parameter from the rest.

use vstd::prelude::*;
use crate::error::ValidationError;
use crate::model::{ExecutionStyle, ExecutionStyleView, Parameter, ParameterView};
use crate::text::copy_parameters;

verus! {

/// The parameters that have the subject type, in declaration order.
pub open spec fn subjects(parameters: Seq<ParameterView>) -> Seq<ParameterView> {
    parameters.filter(|p: ParameterView| p.is_subject)
}

/// The parameters that do not have the subject type, in declaration order.
pub open spec fn non_subjects(parameters: Seq<ParameterView>) -> Seq<ParameterView> {
    parameters.filter(|p: ParameterView| !p.is_subject)
}

/// The parameters of a function, split into the subject and everything else.
#[derive(Clone, Debug, PartialEq, Eq)]
pub struct ClassifiedFields {
    /// The parameter that names the entity which the command addresses.
    pub subject: Option<Parameter>,
    /// Every other parameter, in declaration order. The data type stores
    /// them, and in system style they are what the system is fed.
    pub captured_fields: Vec<Parameter>,
}

pub struct ClassifiedFieldsView {
    pub subject: Option<ParameterView>,
    pub captured_fields: Seq<ParameterView>,
}

impl DeepView for ClassifiedFields {
    type V = ClassifiedFieldsView;

    open spec fn deep_view(&self) -> ClassifiedFieldsView {
        ClassifiedFieldsView {
            subject: self.subject.deep_view(),
            captured_fields: self.captured_fields.deep_view(),
        }
    }
}

impl ClassifiedFieldsView {
    /// What the system is fed when it is run: the captured fields in system
    /// style, nothing in exclusive style, where the body reads the fields
    /// in place.
    pub open spec fn system_inputs(self, style: ExecutionStyleView) -> Seq<ParameterView> {
        match style {
            ExecutionStyleView::System => self.captured_fields,
            ExecutionStyleView::Exclusive { .. } => Seq::empty(),
        }
    }
}

impl ClassifiedFields {
    /// What the system is fed when it is run, in declaration order.
    pub fn system_inputs(&self, style: &ExecutionStyle) -> (inputs: Vec<Parameter>)
        ensures
            inputs.deep_view() == self.deep_view().system_inputs(style.deep_view()),
    {
        match style {
            ExecutionStyle::System => copy_parameters(&self.captured_fields),
            ExecutionStyle::Exclusive { .. } => {
                let inputs: Vec<Parameter> = Vec::new();
                assert(inputs.deep_view() =~= Seq::empty());
                inputs
            },
        }
    }
}

/// What classifying `parameters` gives: more than one subject is ambiguous
/// in either scope, none is an error in entity scope, and otherwise the
/// subject, if there is one, is set apart from the other parameters.
pub open spec fn classification(parameters: Seq<ParameterView>, entity_scoped: bool) -> Result<
    ClassifiedFieldsView,
    ValidationError,
> {
    let found = subjects(parameters);
    if found.len() > 1 {
        Err(ValidationError::AmbiguousSubject)
    } else if entity_scoped && found.len() == 0 {
        Err(ValidationError::MissingSubject)
    } else {
        Ok(
            ClassifiedFieldsView {
                subject: if found.len() == 1 {
                    Some(found[0])
                } else {
                    None
                },
                captured_fields: non_subjects(parameters),
            },
        )
    }
}

/// Whether the parameter at `position` is the second one with the subject
/// type, the one that makes the subject ambiguous.
pub open spec fn is_second_subject(parameters: Seq<ParameterView>, position: int) -> bool {
    &&& 0 <= position < parameters.len()
    &&& parameters[position].is_subject
    &&& subjects(parameters.take(position)).len() == 1
}

/// Where an ambiguous subject is to be reported: the position of the second
/// parameter with the subject type, if there is one.
pub fn second_subject_position(parameters: &Vec<Parameter>) -> (position: Option<usize>)
    ensures
        position is Some <==> subjects(parameters.deep_view()).len() > 1,
        position matches Some(p) ==> is_second_subject(parameters.deep_view(), p as int),
{
    let ghost all = parameters.deep_view();
    let mut seen: bool = false;
    let mut i: usize = 0;
    while i < parameters.len()
        invariant
            i <= parameters.len(),
            all == parameters.deep_view(),
            subjects(all.take(i as int)).len() == if seen {
                1nat
            } else {
                0nat
            },
        decreases parameters.len() - i,
    {
        proof {
            let before = all.take(i as int);
            let next = all[i as int];
            assert(all.take(i + 1) =~= before.push(next));
            before.lemma_filter_push(next, |p: ParameterView| p.is_subject);
            assert(next == parameters[i as int].deep_view());
        }
        if parameters[i].is_subject {
            if seen {
                proof {
                    all.lemma_filter_take_len(|p: ParameterView| p.is_subject, i + 1);
                }
                return Some(i);
            }
            seen = true;
        }
        i += 1;
    }
    assert(all.take(i as int) =~= all);
    None
}

/// Splits the parameters into the subject and the captured fields.
pub fn classify_fields(parameters: &Vec<Parameter>, entity_scoped: bool) -> (result: Result<
    ClassifiedFields,
    ValidationError,
>)
    ensures
        match result {
            Ok(fields) => classification(parameters.deep_view(), entity_scoped) == Ok::<
                ClassifiedFieldsView,
                ValidationError,
            >(fields.deep_view()),
            Err(error) => classification(parameters.deep_view(), entity_scoped) == Err::<
                ClassifiedFieldsView,
                ValidationError,
            >(error),
        },
{
    let ghost all = parameters.deep_view();
    let mut subject: Option<Parameter> = None;
    let mut ambiguous: bool = false;
    let mut captured: Vec<Parameter> = Vec::new();
    let mut i: usize = 0;
    while i < parameters.len()
        invariant
            i <= parameters.len(),
            all == parameters.deep_view(),
            captured.deep_view() == non_subjects(all.take(i as int)),
            ambiguous <==> subjects(all.take(i as int)).len() > 1,
            !ambiguous ==> (subject.deep_view() == if subjects(all.take(i as int)).len() == 1 {
                Some(subjects(all.take(i as int))[0])
            } else {
                None
            }),
        decreases parameters.len() - i,
    {
        proof {
            let before = all.take(i as int);
            let next = all[i as int];
            assert(all.take(i + 1) =~= before.push(next));
            before.lemma_filter_push(next, |p: ParameterView| p.is_subject);
            before.lemma_filter_push(next, |p: ParameterView| !p.is_subject);
            assert(next == parameters[i as int].deep_view());
        }
        let ghost earlier = captured.deep_view();
        let parameter = &parameters[i];
        if parameter.is_subject {
            if subject.is_some() {
                ambiguous = true;
            } else {
                subject = Some(parameter.clone());
            }
        } else {
            captured.push(parameter.clone());
            assert(captured.deep_view() =~= earlier.push(parameter.deep_view()));
        }
        i += 1;
    }
    assert(all.take(i as int) =~= all);
    if ambiguous {
        Err(ValidationError::AmbiguousSubject)
    } else if entity_scoped && subject.is_none() {
        Err(ValidationError::MissingSubject)
    } else {
        Ok(ClassifiedFields { subject, captured_fields: captured })
    }
}

} // verus!
