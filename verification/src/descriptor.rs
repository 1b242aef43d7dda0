//! The format of `kernel.json`, the file that describes a kernel.
//!
//! The file holds one JSON object. Its member `argv`, an array of strings, is
//! required. `display_name` and `language`, strings, and `env`, an object of
//! strings, may be left out. Other members are passed over.

use crate::json::{json_document, names_once, parse_json, JsonValue};
use crate::kernelspecs::{JupyterKernelspec, KernelspecView};
use crate::views::option_view;
use vstd::prelude::*;

verus! {

/// A member that holds a string and may be left out: without it, the empty
/// text.
pub open spec fn optional_text(found: Option<JsonValue>) -> Option<Seq<char>> {
    match found {
        Some(value) => value.text(),
        None => Some(Seq::empty()),
    }
}

/// A member that holds an object of strings and may be left out, or be
/// `null`.
pub open spec fn optional_text_members(found: Option<JsonValue>) -> Option<
    Option<Seq<(Seq<char>, Seq<char>)>>,
> {
    match found {
        None => Some(None),
        Some(JsonValue::Null) => Some(None),
        Some(value) => match value.text_members() {
            Some(pairs) => Some(Some(pairs)),
            None => None,
        },
    }
}

/// The `argv` member, which has to be there.
pub open spec fn required_texts(found: Option<JsonValue>) -> Option<Seq<Seq<char>>> {
    match found {
        Some(value) => value.texts(),
        None => None,
    }
}

/// The descriptor that a JSON value holds; `None` for a value that does not
/// fit the format.
pub open spec fn kernelspec_of(json: JsonValue) -> Option<KernelspecView> {
    let argv = required_texts(json.field("argv"@));
    let display_name = optional_text(json.field("display_name"@));
    let language = optional_text(json.field("language"@));
    let env = optional_text_members(json.field("env"@));
    if json is Object && argv is Some && display_name is Some && language is Some && env is Some {
        Some(
            KernelspecView {
                argv: argv.unwrap(),
                display_name: display_name.unwrap(),
                language: language.unwrap(),
                env: env.unwrap(),
            },
        )
    } else {
        None
    }
}

/// The descriptor that the text of a `kernel.json` holds; `None` for a text
/// that is no JSON document or does not fit the format.
pub open spec fn descriptor(text: Seq<char>) -> Option<KernelspecView> {
    match json_document(text) {
        Some(json) => kernelspec_of(json),
        None => None,
    }
}

/// A descriptor that was read out of a JSON value names each variable of its
/// environment once.
pub proof fn law_descriptor_names_each_variable_once(json: JsonValue)
    requires
        kernelspec_of(json) is Some,
    ensures
        kernelspec_of(json).unwrap().wf(),
{
    match json.field("env"@) {
        Some(JsonValue::Object(members)) => {
            assert(names_once(members@));
        },
        _ => {},
    }
}

fn text_or_empty(found: Option<&JsonValue>) -> (text: Option<String>)
    ensures
        text.deep_view() == optional_text(
            match found {
                Some(value) => Some(*value),
                None => None,
            },
        ),
{
    match found {
        Some(value) => value.as_text(),
        None => Some(String::new()),
    }
}

fn text_members_or_none(found: Option<&JsonValue>) -> (env: Option<Option<Vec<(String, String)>>>)
    ensures
        env.deep_view() == optional_text_members(
            match found {
                Some(value) => Some(*value),
                None => None,
            },
        ),
{
    match found {
        None => Some(None),
        Some(JsonValue::Null) => Some(None),
        Some(value) => match value.as_text_members() {
            Some(pairs) => Some(Some(pairs)),
            None => None,
        },
    }
}

/// Reads a descriptor out of a JSON value.
pub fn kernelspec_from_json(json: &JsonValue) -> (spec: Option<JupyterKernelspec>)
    ensures
        option_view(spec) == kernelspec_of(*json),
        spec matches Some(spec) ==> spec@.wf(),
{
    proof {
        if kernelspec_of(*json) is Some {
            law_descriptor_names_each_variable_once(*json);
        }
    }
    let argv = match json.get("argv") {
        Some(value) => value.as_texts(),
        None => None,
    };
    let display_name = text_or_empty(json.get("display_name"));
    let language = text_or_empty(json.get("language"));
    let env = text_members_or_none(json.get("env"));
    match (argv, display_name, language, env) {
        (Some(argv), Some(display_name), Some(language), Some(env)) => Some(
            JupyterKernelspec { argv, display_name, language, env },
        ),
        _ => None,
    }
}

/// Reads a descriptor out of the text of a `kernel.json`.
pub fn parse_kernelspec(text: &str) -> (spec: Option<JupyterKernelspec>)
    ensures
        option_view(spec) == descriptor(text@),
        spec matches Some(spec) ==> spec@.wf(),
{
    match parse_json(text) {
        Some(json) => kernelspec_from_json(&json),
        None => None,
    }
}

} // verus!
