//! The privacy contract of tool output, checked on the shape of the serialized value: privacy
//! assertions must be `false`, no key may name sensitive data, and the top level may hold only
//! the fields that the tool registers.
use vstd::prelude::*;

use crate::registry::{
    is_privacy_assertion_key, is_sensitive_key, is_sensitive_output_key, privacy_assertion_keys,
    privacy_contract_error, AgentToolError,
};
use crate::text::str_equal;

verus! {

/// The shape of a serialized value, as far as the privacy contract reads it.
#[derive(Debug)]
pub enum OutputValue {
    /// The boolean `false`.
    False,
    /// Any other scalar: `null`, `true`, a number or a string.
    Scalar,
    Array(Vec<OutputValue>),
    Object(Vec<OutputField>),
}

/// A field of an object: its key and its value.
#[derive(Debug)]
pub struct OutputField {
    pub name: String,
    pub value: OutputValue,
}

/// Whether the key is one of the privacy assertions.
pub open spec fn is_assertion_key(name: Seq<char>) -> bool {
    exists|i: int| 0 <= i < privacy_assertion_keys().len() && name == (#[trigger] privacy_assertion_keys()[i])@
}

/// Whether one field keeps the contract by itself: a privacy assertion is `false`, and any other
/// key names nothing sensitive.
pub open spec fn field_ok(field: OutputField) -> bool {
    if is_assertion_key(field.name@) {
        field.value == OutputValue::False
    } else {
        !is_sensitive_key(field.name@)
    }
}

/// Whether a value keeps the contract at every depth.
pub open spec fn shape_ok(value: OutputValue) -> bool
    decreases value,
{
    match value {
        OutputValue::Array(values) => forall|i: int| 0 <= i < values.len() ==> shape_ok(#[trigger] values[i]),
        OutputValue::Object(fields) => forall|i: int|
            0 <= i < fields.len() ==> field_ok(#[trigger] fields[i]) && shape_ok(fields[i].value),
        _ => true,
    }
}

/// Whether the key is one of the allowed ones.
pub open spec fn key_allowed(name: Seq<char>, allowed: Seq<&'static str>) -> bool {
    exists|j: int| 0 <= j < allowed.len() && name == (#[trigger] allowed[j])@
}

/// Whether the value is an object whose keys are all among the allowed ones.
pub open spec fn top_level_ok(value: OutputValue, allowed: Seq<&'static str>) -> bool {
    match value {
        OutputValue::Object(fields) => forall|i: int|
            0 <= i < fields.len() ==> key_allowed((#[trigger] fields[i]).name@, allowed),
        _ => false,
    }
}

fn is_false(value: &OutputValue) -> (r: bool)
    ensures
        r == (*value == OutputValue::False),
{
    match value {
        OutputValue::False => true,
        _ => false,
    }
}

/// Checks that a value keeps the privacy contract at every depth.
pub fn validate_public_output_shape(value: &OutputValue) -> (result: Result<(), AgentToolError>)
    ensures
        result is Ok <==> shape_ok(*value),
        result matches Err(error) ==> error == privacy_contract_error_value(),
    decreases value,
{
    match value {
        OutputValue::Array(values) => {
            let mut i: usize = 0;
            while i < values.len()
                invariant
                    i <= values@.len(),
                    *value == OutputValue::Array(*values),
                    forall|k: int| 0 <= k < i ==> shape_ok(#[trigger] values[k]),
                decreases values@.len() - i,
            {
                proof {
                    vstd::std_specs::vec::axiom_vec_index_decreases(*values, i as int);
                    assert(decreases_to!(*values => values[i as int]));
                    assert(decreases_to!(*value => (*value)->Array_0));
                    assert(decreases_to!(*value => values[i as int]));
                }
                match validate_public_output_shape(&values[i]) {
                    Ok(()) => {},
                    Err(error) => {
                        assert(!shape_ok(values[i as int]));
                        return Err(error);
                    },
                }
                i = i + 1;
            }
            assert(forall|k: int| 0 <= k < values.len() ==> shape_ok(#[trigger] values[k]));
            Ok(())
        },
        OutputValue::Object(fields) => {
            let mut i: usize = 0;
            while i < fields.len()
                invariant
                    i <= fields@.len(),
                    *value == OutputValue::Object(*fields),
                    forall|k: int| 0 <= k < i ==> field_ok(#[trigger] fields[k]) && shape_ok(fields[k].value),
                decreases fields@.len() - i,
            {
                let field = &fields[i];
                if is_privacy_assertion_key(field.name.as_str()) {
                    if !is_false(&field.value) {
                        return Err(contract_error());
                    }
                } else if is_sensitive_output_key(field.name.as_str()) {
                    return Err(contract_error());
                }
                proof {
                    vstd::std_specs::vec::axiom_vec_index_decreases(*fields, i as int);
                    assert(decreases_to!(*value => (*value)->Object_0));
                    assert(decreases_to!(fields[i as int] => fields[i as int].value));
                    assert(decreases_to!(*value => fields[i as int].value));
                }
                match validate_public_output_shape(&field.value) {
                    Ok(()) => {},
                    Err(error) => {
                        return Err(error);
                    },
                }
                i = i + 1;
            }
            Ok(())
        },
        _ => Ok(()),
    }
}

/// The privacy contract error, as a value.
pub open spec fn privacy_contract_error_value() -> AgentToolError {
    AgentToolError { code: crate::registry::AgentToolErrorCode::ExecutionFailed, message: "agent tool output violates the privacy contract" }
}

fn contract_error() -> (error: AgentToolError)
    ensures
        error == privacy_contract_error_value(),
{
    AgentToolError::new(
        crate::registry::AgentToolErrorCode::ExecutionFailed,
        "agent tool output violates the privacy contract",
    )
}

/// Checks that a value is an object whose keys are all among the allowed ones.
pub fn validate_top_level_output_fields(value: &OutputValue, allowed: &[&'static str]) -> (result: Result<
    (),
    AgentToolError,
>)
    ensures
        match result {
            Ok(()) => top_level_ok(*value, allowed@),
            Err(error) => !top_level_ok(*value, allowed@) && error == privacy_contract_error_value(),
        },
{
    match value {
        OutputValue::Object(fields) => {
            let mut i: usize = 0;
            while i < fields.len()
                invariant
                    i <= fields@.len(),
                    *value == OutputValue::Object(*fields),
                    forall|k: int| 0 <= k < i ==> key_allowed((#[trigger] fields[k]).name@, allowed@),
                decreases fields@.len() - i,
            {
                let mut found = false;
                let mut j: usize = 0;
                while j < allowed.len()
                    invariant
                        j <= allowed@.len(),
                        i < fields@.len(),
                        found ==> key_allowed(fields[i as int].name@, allowed@),
                        !found ==> forall|t: int| 0 <= t < j ==> fields[i as int].name@ != (#[trigger] allowed@[t])@,
                    decreases allowed@.len() - j,
                {
                    if str_equal(fields[i].name.as_str(), allowed[j]) {
                        found = true;
                    }
                    j = j + 1;
                }
                if !found {
                    assert(!key_allowed(fields[i as int].name@, allowed@));
                    return Err(contract_error());
                }
                i = i + 1;
            }
            Ok(())
        },
        _ => Err(contract_error()),
    }
}

/// Checks both rules of tool output: the shape at every depth, then the top-level fields.
pub fn validate_tool_output(value: &OutputValue, allowed: &[&'static str]) -> (result: Result<(), AgentToolError>)
    ensures
        match result {
            Ok(()) => shape_ok(*value) && top_level_ok(*value, allowed@),
            Err(error) => (!shape_ok(*value) || !top_level_ok(*value, allowed@)) && error == privacy_contract_error_value(),
        },
{
    match validate_public_output_shape(value) {
        Ok(()) => {},
        Err(error) => {
            return Err(error);
        },
    }
    validate_top_level_output_fields(value, allowed)
}

} // verus!
