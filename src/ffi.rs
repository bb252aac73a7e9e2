//! The entry points the editor's scripting side calls: commands by name
//! and completion.
use vstd::prelude::*;
use crate::commands::{dispatch, dispatch_spec};
use crate::errors::AmpError;
use crate::json::{entries_view, entry, jstr, lemma_object_view, Json, JsonV};

verus! {

/// The error object handed back to the scripting side.
pub open spec fn error_object_spec(e: AmpError) -> JsonV {
    JsonV::Object(seq![
        ("error"@, JsonV::Bool(true)),
        ("message"@, JsonV::Str(e.user_message_spec())),
        ("category"@, JsonV::Str(e.category_spec())),
    ])
}

/// `{error: true, message, category}` for a failed command.
pub fn create_error_object(err: &AmpError) -> (r: Json)
    ensures
        r@ == error_object_spec(*err),
{
    let message = err.user_message();
    let ghost mv = message@;
    let mut out: Vec<(String, Json)> = Vec::new();
    out.push(entry("error", Json::Bool(true)));
    out.push(entry("message", Json::Str(message)));
    out.push(entry("category", jstr(err.category())));
    proof {
        lemma_object_view(out);
    }
    assert(entries_view(out@) =~= seq![
        ("error"@, JsonV::Bool(true)),
        ("message"@, JsonV::Str(mv)),
        ("category"@, JsonV::Str(err.category_spec())),
    ]);
    Json::Object(out)
}

/// Runs a command by name: its result, or the error object.
pub fn call(command: &str, args: Json) -> (r: Json)
    ensures
        match dispatch_spec(command@, args@) {
            Some(v) => r@ == v,
            None => r@ == JsonV::Object(seq![
                ("error"@, JsonV::Bool(true)),
                ("message"@, JsonV::Str("Command '"@ + command@ + "' not found. Run :AmpHelp for available commands."@)),
                ("category"@, JsonV::Str("command"@)),
            ]),
        },
{
    match dispatch(command, args) {
        Ok(v) => v,
        Err(e) => create_error_object(&e),
    }
}

/// Completion candidates for `prefix` of a kind; no kind has any yet.
pub fn autocomplete_impl(_kind: &str, _prefix: &str) -> (r: Result<Vec<String>, AmpError>)
    ensures
        r matches Ok(v) && v@.len() == 0,
{
    Ok(Vec::new())
}

/// Completion candidates; a failure yields none.
pub fn autocomplete(kind: &str, prefix: &str) -> (r: Vec<String>)
    ensures
        r@.len() == 0,
{
    match autocomplete_impl(kind, prefix) {
        Ok(items) => items,
        Err(_) => Vec::new(),
    }
}

} // verus!
