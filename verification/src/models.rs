//! Model directory: picking, out of the provider's model-listing response,
//! the identifiers of the models that support content generation, in the
//! provider's order.

use vstd::prelude::*;
use crate::json::JsonValue;
use crate::json::member;
use crate::json::str_val;
use crate::text::str_eq;

verus! {

/// A failure of model listing: the provider was unreachable, or its
/// response did not have the expected shape.
#[derive(Debug)]
pub enum DirectoryError {
    Transport(String),
    ResponseShape,
}

/// The one descriptive line for a listing failure.
pub open spec fn directory_error_seq(e: DirectoryError) -> Seq<char> {
    match e {
        DirectoryError::Transport(m) => m@,
        DirectoryError::ResponseShape => "Unexpected response from models endpoint"@,
    }
}

impl DirectoryError {
    /// Renders this failure as one descriptive line.
    pub fn message(&self) -> (r: String)
        ensures
            r@ == directory_error_seq(*self),
    {
        match self {
            DirectoryError::Transport(m) => m.clone(),
            DirectoryError::ResponseShape => "Unexpected response from models endpoint".to_owned(),
        }
    }
}

/// The `models` field of the listing response, when it is an array.
pub open spec fn models_array(v: JsonValue) -> Option<Seq<JsonValue>> {
    match member(v, "models"@) {
        Some(m) => match m {
            JsonValue::Array(items) => Some(items@),
            _ => None,
        },
        None => None,
    }
}

/// An entry's advertised capability list contains `generateContent`.
pub open spec fn model_supported(m: JsonValue) -> bool {
    match member(m, "supportedGenerationMethods"@) {
        Some(caps) => match caps {
            JsonValue::Array(items) => exists|i: int|
                0 <= i < items@.len() && str_val(#[trigger] items@[i]) == Some("generateContent"@),
            _ => false,
        },
        None => false,
    }
}

/// An entry's `name` field, when it is a string.
pub open spec fn model_name(m: JsonValue) -> Option<Seq<char>> {
    match member(m, "name"@) {
        Some(n) => str_val(n),
        None => None,
    }
}

/// The names of the supported entries, in order. An entry without a string
/// `name`, or without `generateContent` among its capabilities, is dropped.
pub open spec fn model_names(items: Seq<JsonValue>) -> Seq<Seq<char>>
    decreases items.len(),
{
    if items.len() == 0 {
        Seq::empty()
    } else {
        let rest = model_names(items.skip(1));
        match model_name(items[0]) {
            Some(n) => if model_supported(items[0]) {
                seq![n] + rest
            } else {
                rest
            },
            None => rest,
        }
    }
}

/// Whether this entry advertises the `generateContent` capability.
fn is_model_supported(m: &JsonValue) -> (r: bool)
    ensures
        r == model_supported(*m),
{
    let caps = match m.get("supportedGenerationMethods") {
        Some(c) => c,
        None => {
            return false;
        },
    };
    match caps {
        JsonValue::Array(items) => {
            let mut i: usize = 0;
            while i < items.len()
                invariant
                    i <= items@.len(),
                    model_supported(*m) == exists|j: int|
                        0 <= j < items@.len() && str_val(#[trigger] items@[j]) == Some(
                            "generateContent"@,
                        ),
                    forall|j: int|
                        0 <= j < i ==> str_val(#[trigger] items@[j]) != Some("generateContent"@),
                decreases items@.len() - i,
            {
                if let Some(s) = items[i].as_text() {
                    if str_eq(s.as_str(), "generateContent") {
                        proof {
                            assert(str_val(items@[i as int]) == Some("generateContent"@));
                        }
                        return true;
                    }
                }
                i = i + 1;
            }
            false
        },
        _ => false,
    }
}

/// Extracts from a decoded model-listing response the names of the models
/// that support content generation, preserving the provider's order. Fails
/// exactly when the response has no `models` array.
pub fn extract_model_names(v: &JsonValue) -> (r: Result<Vec<String>, DirectoryError>)
    ensures
        match r {
            Ok(names) => models_array(*v) matches Some(items) && names.deep_view() == model_names(
                items,
            ),
            Err(e) => e is ResponseShape && models_array(*v) is None,
        },
{
    let arr = match v.get("models") {
        Some(m) => m,
        None => {
            return Err(DirectoryError::ResponseShape);
        },
    };
    match arr {
        JsonValue::Array(items) => {
            let mut names: Vec<String> = Vec::new();
            let mut i: usize = 0;
            proof {
                assert(items@.skip(0) =~= items@);
                assert(names.deep_view() + model_names(items@) =~= model_names(items@));
            }
            while i < items.len()
                invariant
                    i <= items@.len(),
                    model_names(items@) == names.deep_view() + model_names(
                        items@.skip(i as int),
                    ),
                decreases items@.len() - i,
            {
                let ghost pre = items@.skip(i as int);
                let ghost names0 = names.deep_view();
                proof {
                    assert(pre[0] == items@[i as int]);
                    assert(pre.skip(1) =~= items@.skip(i + 1));
                }
                let name_ref = match items[i].get("name") {
                    Some(n) => n.as_text(),
                    None => None,
                };
                if let Some(n) = name_ref {
                    if is_model_supported(&items[i]) {
                        names.push(n.clone());
                        proof {
                            assert(names.deep_view() =~= names0 + seq![n@]);
                            assert(names0 + (seq![n@] + model_names(pre.skip(1)))
                                =~= names.deep_view() + model_names(items@.skip(i + 1)));
                        }
                    }
                }
                i = i + 1;
            }
            proof {
                assert(items@.skip(items@.len() as int) =~= Seq::<JsonValue>::empty());
                assert(names.deep_view() + model_names(items@.skip(items@.len() as int))
                    =~= names.deep_view());
            }
            Ok(names)
        },
        _ => Err(DirectoryError::ResponseShape),
    }
}

} // verus!
