//! Helpers for sequences of text and of parameters.

use vstd::prelude::*;
use crate::model::{GenericParam, Parameter, ParameterView, ReturnType, ReturnTypeView, Text};

verus! {

/// The binding names of the parameters, in order.
pub open spec fn names_of(parameters: Seq<ParameterView>) -> Seq<Text> {
    Seq::new(parameters.len(), |i: int| parameters[i].name)
}

/// A copy of a list of texts.
pub fn copy_texts(texts: &Vec<String>) -> (copy: Vec<String>)
    ensures
        copy.deep_view() == texts.deep_view(),
{
    let mut copy: Vec<String> = Vec::new();
    let mut i: usize = 0;
    while i < texts.len()
        invariant
            i <= texts.len(),
            copy.len() == i,
            forall|j: int| 0 <= j < i ==> copy[j]@ == texts[j]@,
        decreases texts.len() - i,
    {
        copy.push(texts[i].clone());
        i += 1;
    }
    assert(copy.deep_view() =~= texts.deep_view());
    copy
}

/// A copy of a list of parameters.
pub fn copy_parameters(parameters: &Vec<Parameter>) -> (copy: Vec<Parameter>)
    ensures
        copy.deep_view() == parameters.deep_view(),
{
    let mut copy: Vec<Parameter> = Vec::new();
    let mut i: usize = 0;
    while i < parameters.len()
        invariant
            i <= parameters.len(),
            copy.len() == i,
            forall|j: int| 0 <= j < i ==> copy[j].deep_view() == parameters[j].deep_view(),
        decreases parameters.len() - i,
    {
        copy.push(parameters[i].clone());
        i += 1;
    }
    assert(copy.deep_view() =~= parameters.deep_view());
    copy
}

/// The binding names of a list of parameters, in order.
pub fn parameter_names(parameters: &Vec<Parameter>) -> (names: Vec<String>)
    ensures
        names.deep_view() == names_of(parameters.deep_view()),
{
    let mut names: Vec<String> = Vec::new();
    let mut i: usize = 0;
    while i < parameters.len()
        invariant
            i <= parameters.len(),
            names.len() == i,
            forall|j: int| 0 <= j < i ==> names[j]@ == parameters[j].name@,
        decreases parameters.len() - i,
    {
        names.push(parameters[i].name.clone());
        i += 1;
    }
    assert(names.deep_view() =~= names_of(parameters.deep_view()));
    names
}

/// A copy of a list of generic parameters.
pub fn copy_generics(generics: &Vec<GenericParam>) -> (copy: Vec<GenericParam>)
    ensures
        copy.deep_view() == generics.deep_view(),
{
    let mut copy: Vec<GenericParam> = Vec::new();
    let mut i: usize = 0;
    while i < generics.len()
        invariant
            i <= generics.len(),
            copy.len() == i,
            forall|j: int| 0 <= j < i ==> copy[j].deep_view() == generics[j].deep_view(),
        decreases generics.len() - i,
    {
        copy.push(generics[i].clone());
        i += 1;
    }
    assert(copy.deep_view() =~= generics.deep_view());
    copy
}

/// A copy of an optional parameter.
pub fn copy_optional_parameter(parameter: &Option<Parameter>) -> (copy: Option<Parameter>)
    ensures
        copy.deep_view() == parameter.deep_view(),
{
    match parameter {
        Some(p) => Some(p.clone()),
        None => None,
    }
}

/// The text of a return type, where one is declared.
pub open spec fn return_text(return_type: Option<ReturnTypeView>) -> Option<Text> {
    match return_type {
        Some(r) => Some(r.ty),
        None => None,
    }
}

/// The text of a return type, where one is declared.
pub fn return_text_of(return_type: &Option<ReturnType>) -> (text: Option<String>)
    ensures
        text.deep_view() == return_text(return_type.deep_view()),
{
    match return_type {
        Some(r) => Some(r.ty.clone()),
        None => None,
    }
}

/// A copy of an optional text.
pub fn copy_optional_text(text: &Option<String>) -> (copy: Option<String>)
    ensures
        copy.deep_view() == text.deep_view(),
{
    match text {
        Some(t) => Some(t.clone()),
        None => None,
    }
}

} // verus!
