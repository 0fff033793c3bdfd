//! Chains: deciding between history and a fresh request, and turning a chain's
//! source data into its rendered value.

use vstd::prelude::*;
use vstd::string::StrSliceExecFns;
use crate::context::{
    ChainRequestTrigger, ContentType, RequestRecord, Response, SelectFailure, first_index, string_is,
};
use crate::error::{ChainError, ChainErrorV, TriggeredRequestError, TriggeredRequestErrorV};

verus! {

/// What a request chain does with its trigger and history.
#[derive(Clone, Copy, Debug, PartialEq, Eq)]
pub enum TriggerDecision {
    /// Use the response of the last record in history.
    Reuse,
    /// Build and send the request anew.
    Send,
    /// Fail: history is needed and holds nothing.
    NoResponse,
}

/// Whether a trigger reads history at all. History is looked up only then.
pub open spec fn uses_history(trigger: ChainRequestTrigger) -> bool {
    !(trigger is Always)
}

/// A record that ended at `end_time` is still fresh at `now` under `Expire(d)`.
pub open spec fn still_fresh(end_time: i64, d: i64, now: i64) -> bool {
    end_time as int + d as int >= now as int
}

/// The decision table of triggers, given the end time of the last record in
/// history, if there is one.
pub open spec fn decide_spec(
    trigger: ChainRequestTrigger,
    last_end: Option<i64>,
    now: i64,
) -> TriggerDecision {
    match trigger {
        ChainRequestTrigger::Never => if last_end is Some {
            TriggerDecision::Reuse
        } else {
            TriggerDecision::NoResponse
        },
        ChainRequestTrigger::NoHistory => if last_end is Some {
            TriggerDecision::Reuse
        } else {
            TriggerDecision::Send
        },
        ChainRequestTrigger::Expire(d) => match last_end {
            Some(e) => if still_fresh(e, d, now) {
                TriggerDecision::Reuse
            } else {
                TriggerDecision::Send
            },
            None => TriggerDecision::Send,
        },
        ChainRequestTrigger::Always => TriggerDecision::Send,
    }
}

/// Whether a trigger reads history; callers look it up only then.
pub fn uses_history_of(trigger: ChainRequestTrigger) -> (r: bool)
    ensures
        r == uses_history(trigger),
{
    match trigger {
        ChainRequestTrigger::Always => false,
        _ => true,
    }
}

/// Decides between history and a fresh request.
pub fn decide_trigger(trigger: ChainRequestTrigger, last_end: Option<i64>, now: i64) -> (r:
    TriggerDecision)
    ensures
        r == decide_spec(trigger, last_end, now),
{
    match trigger {
        ChainRequestTrigger::Never => match last_end {
            Some(_) => TriggerDecision::Reuse,
            None => TriggerDecision::NoResponse,
        },
        ChainRequestTrigger::NoHistory => match last_end {
            Some(_) => TriggerDecision::Reuse,
            None => TriggerDecision::Send,
        },
        ChainRequestTrigger::Expire(d) => match last_end {
            Some(e) => {
                if (e as i128) + (d as i128) >= now as i128 {
                    TriggerDecision::Reuse
                } else {
                    TriggerDecision::Send
                }
            },
            None => TriggerDecision::Send,
        },
        ChainRequestTrigger::Always => TriggerDecision::Send,
    }
}

/// The end time of a record, if there is one.
pub open spec fn last_end_of(h: Option<RequestRecord>) -> Option<i64> {
    match h {
        Some(r) => Some(r.end_time),
        None => None,
    }
}

/// What sending anew gives: a failure to build the request comes first, then
/// `NotAllowed` without an engine, then the outcome of sending; each failure is
/// attributed to the recipe.
pub open spec fn send_spec(
    recipe: Seq<char>,
    fresh: Result<Response, TriggeredRequestError>,
    engine: bool,
) -> Result<Response, ChainErrorV> {
    match fresh {
        Err(TriggeredRequestError::Build { cause }) => Err(
            ChainErrorV::Trigger(recipe, TriggeredRequestErrorV::Build(cause@)),
        ),
        _ => if !engine {
            Err(ChainErrorV::Trigger(recipe, TriggeredRequestErrorV::NotAllowed))
        } else {
            match fresh {
                Ok(r) => Ok(r),
                Err(e) => Err(ChainErrorV::Trigger(recipe, e@)),
            }
        },
    }
}

/// The response that a request chain reads, given what the database and the
/// HTTP engine gave.
pub open spec fn response_spec(
    recipe: Seq<char>,
    trigger: ChainRequestTrigger,
    history: Result<Option<RequestRecord>, String>,
    fresh: Result<Response, TriggeredRequestError>,
    engine: bool,
    now: i64,
) -> Result<Response, ChainErrorV> {
    if !uses_history(trigger) {
        send_spec(recipe, fresh, engine)
    } else {
        match history {
            Err(cause) => Err(ChainErrorV::Database(cause@)),
            Ok(h) => match decide_spec(trigger, last_end_of(h), now) {
                TriggerDecision::Reuse => Ok(h->Some_0.response),
                TriggerDecision::Send => send_spec(recipe, fresh, engine),
                TriggerDecision::NoResponse => Err(ChainErrorV::NoResponse),
            },
        }
    }
}

/// Whether resolving a request chain's response would build and send the
/// request, given what history gave: callers send only then.
pub open spec fn sends_spec(
    trigger: ChainRequestTrigger,
    history: Result<Option<RequestRecord>, String>,
    now: i64,
) -> bool {
    !uses_history(trigger) || (history matches Ok(h) && decide_spec(trigger, last_end_of(h), now)
        == TriggerDecision::Send)
}

/// Decides whether a request chain needs a fresh response.
pub fn needs_send(
    trigger: ChainRequestTrigger,
    history: &Result<Option<RequestRecord>, String>,
    now: i64,
) -> (r: bool)
    ensures
        r == sends_spec(trigger, *history, now),
{
    if !uses_history_of(trigger) {
        return true;
    }
    match history {
        Err(_) => false,
        Ok(h) => {
            let last_end = match h {
                Some(rec) => Some(rec.end_time),
                None => None,
            };
            match decide_trigger(trigger, last_end, now) {
                TriggerDecision::Send => true,
                _ => false,
            }
        },
    }
}

/// Where the fresh response is not needed, its value makes no difference.
pub proof fn lemma_fresh_unread_unless_sent(
    recipe: Seq<char>,
    trigger: ChainRequestTrigger,
    history: Result<Option<RequestRecord>, String>,
    fresh_a: Result<Response, TriggeredRequestError>,
    fresh_b: Result<Response, TriggeredRequestError>,
    engine: bool,
    now: i64,
)
    requires
        !sends_spec(trigger, history, now),
    ensures
        response_spec(recipe, trigger, history, fresh_a, engine, now) == response_spec(
            recipe,
            trigger,
            history,
            fresh_b,
            engine,
            now,
        ),
{
}

/// Resolves a request chain's response from history or a fresh send.
pub fn resolve_response<'a>(
    recipe: &String,
    trigger: ChainRequestTrigger,
    history: &'a Result<Option<RequestRecord>, String>,
    fresh: &'a Result<Response, TriggeredRequestError>,
    engine: bool,
    now: i64,
) -> (r: Result<&'a Response, ChainError>)
    ensures
        match (r, response_spec(recipe@, trigger, *history, *fresh, engine, now)) {
            (Ok(a), Ok(b)) => *a == b,
            (Err(e), Err(f)) => e@ == f,
            _ => false,
        },
{
    if !uses_history_of(trigger) {
        return send_response(recipe, fresh, engine);
    }
    match history {
        Err(cause) => Err(ChainError::Database { cause: cause.clone() }),
        Ok(h) => {
            let last_end = match h {
                Some(rec) => Some(rec.end_time),
                None => None,
            };
            match decide_trigger(trigger, last_end, now) {
                TriggerDecision::Reuse => {
                    let rec = h.as_ref().unwrap();
                    Ok(&rec.response)
                },
                TriggerDecision::Send => send_response(recipe, fresh, engine),
                TriggerDecision::NoResponse => Err(ChainError::NoResponse),
            }
        },
    }
}

fn send_response<'a>(
    recipe: &String,
    fresh: &'a Result<Response, TriggeredRequestError>,
    engine: bool,
) -> (r: Result<&'a Response, ChainError>)
    ensures
        match (r, send_spec(recipe@, *fresh, engine)) {
            (Ok(a), Ok(b)) => *a == b,
            (Err(e), Err(f)) => e@ == f,
            _ => false,
        },
{
    if let Err(TriggeredRequestError::Build { cause }) = fresh {
        return Err(
            ChainError::Trigger {
                recipe_id: recipe.clone(),
                error: TriggeredRequestError::Build { cause: cause.clone() },
            },
        );
    }
    if !engine {
        return Err(
            ChainError::Trigger { recipe_id: recipe.clone(), error: TriggeredRequestError::NotAllowed },
        );
    }
    match fresh {
        Ok(resp) => Ok(resp),
        Err(e) => Err(ChainError::Trigger { recipe_id: recipe.clone(), error: e.duplicate() }),
    }
}

/// A record young enough for `Expire(d)` and a record under `Never` give the
/// same response: both reuse history.
pub proof fn lemma_expire_and_never_agree(
    recipe_a: Seq<char>,
    recipe_b: Seq<char>,
    d: i64,
    record: RequestRecord,
    fresh_a: Result<Response, TriggeredRequestError>,
    fresh_b: Result<Response, TriggeredRequestError>,
    engine_a: bool,
    engine_b: bool,
    now: i64,
)
    requires
        still_fresh(record.end_time, d, now),
    ensures
        response_spec(
            recipe_a,
            ChainRequestTrigger::Expire(d),
            Ok(Some(record)),
            fresh_a,
            engine_a,
            now,
        ) == response_spec(
            recipe_b,
            ChainRequestTrigger::Never,
            Ok(Some(record)),
            fresh_b,
            engine_b,
            now,
        ),
        response_spec(
            recipe_a,
            ChainRequestTrigger::Expire(d),
            Ok(Some(record)),
            fresh_a,
            engine_a,
            now,
        ) == Ok::<Response, ChainErrorV>(record.response),
{
}

/// The content type that a path's extension names: `.json` files are JSON. A
/// file name that is only the extension, such as `.json`, has none.
pub open spec fn extension_content_type(path: Seq<char>) -> Option<ContentType> {
    let n = path.len();
    if n > 5 && path.subrange(n - 5, n as int) == seq!['.', 'j', 's', 'o', 'n'] && path[n - 6]
        != '/' {
        Some(ContentType::Json)
    } else {
        None
    }
}

/// Recognises a content type from a file path's extension.
pub fn content_type_from_extension(path: &String) -> (r: Option<ContentType>)
    ensures
        r == extension_content_type(path@),
{
    let s = path.as_str();
    let n = s.unicode_len();
    if n <= 5 {
        return None;
    }
    let tail = s.substring_char(n - 5, n);
    let tail_owned = String::from_str(tail);
    proof {
        reveal_strlit(".json");
    }
    let json = String::from_str(".json");
    if tail_owned == json && s.get_char(n - 6) != '/' {
        proof {
            assert(json@ =~= seq!['.', 'j', 's', 'o', 'n']);
        }
        Some(ContentType::Json)
    } else {
        proof {
            assert(json@ =~= seq!['.', 'j', 's', 'o', 'n']);
        }
        None
    }
}

/// The chain's own content type wins over the one detected from its source.
pub open spec fn resolve_content_type(
    declared: Option<ContentType>,
    detected: Option<ContentType>,
) -> Option<ContentType> {
    match declared {
        Some(c) => Some(c),
        None => detected,
    }
}

/// The content type a chain's value is read as.
pub fn content_type_of(declared: Option<ContentType>, detected: Option<ContentType>) -> (r: Option<
    ContentType,
>)
    ensures
        r == resolve_content_type(declared, detected),
{
    match declared {
        Some(c) => Some(c),
        None => detected,
    }
}

/// What decoding bytes as UTF-8 gives: the characters, or the decoder's message.
pub uninterp spec fn utf8_decode(b: Seq<u8>) -> Result<Seq<char>, Seq<char>>;

/// Relies on `String::from_utf8`: whether it succeeds, the text it gives back and
/// the message of its error depend on the bytes alone.
#[verifier::external_body]
fn decode_utf8(b: &Vec<u8>) -> (r: Result<String, String>)
    ensures
        match (r, utf8_decode(b@)) {
            (Ok(s), Ok(t)) => s@ == t,
            (Err(e), Err(m)) => e@ == m,
            _ => false,
        },
{
    String::from_utf8(b.clone()).map_err(|e| e.to_string())
}

/// What a chain's bytes render to without a selector.
pub open spec fn text_spec(b: Seq<u8>) -> Result<Seq<char>, ChainErrorV> {
    match utf8_decode(b) {
        Ok(t) => Ok(t),
        Err(m) => Err(ChainErrorV::InvalidUtf8(m)),
    }
}

/// Decodes a chain's bytes as text.
pub fn bytes_to_text(b: &Vec<u8>) -> (r: Result<String, ChainError>)
    ensures
        match (r, text_spec(b@)) {
            (Ok(s), Ok(t)) => s@ == t,
            (Err(e), Err(f)) => e@ == f,
            _ => false,
        },
{
    match decode_utf8(b) {
        Ok(s) => Ok(s),
        Err(m) => Err(ChainError::InvalidUtf8 { cause: m }),
    }
}

/// What a chain's value is once a selector applies: the resolved content type
/// must be known, and then the selector's result is taken.
pub open spec fn select_spec(
    content_type: Option<ContentType>,
    selected: Result<String, SelectFailure>,
) -> Result<Seq<char>, ChainErrorV> {
    match content_type {
        None => Err(ChainErrorV::UnknownContentType),
        Some(_) => match selected {
            Ok(s) => Ok(s@),
            Err(SelectFailure::Parse { cause }) => Err(ChainErrorV::ParseResponse(cause@)),
            Err(SelectFailure::Query { cause }) => Err(ChainErrorV::Selector(cause@)),
        },
    }
}

/// Applies a selector's outcome to a chain value.
pub fn select_value(content_type: Option<ContentType>, selected: &Result<String, SelectFailure>) -> (r:
    Result<String, ChainError>)
    ensures
        match (r, select_spec(content_type, *selected)) {
            (Ok(s), Ok(t)) => s@ == t,
            (Err(e), Err(f)) => e@ == f,
            _ => false,
        },
{
    match content_type {
        None => Err(ChainError::UnknownContentType),
        Some(_) => match selected {
            Ok(s) => Ok(s.clone()),
            Err(SelectFailure::Parse { cause }) => Err(ChainError::ParseResponse { cause: cause.clone() }),
            Err(SelectFailure::Query { cause }) => Err(ChainError::Selector { cause: cause.clone() }),
        },
    }
}

/// Whether a recipe id is defined in the collection's recipes.
pub open spec fn recipe_known(recipes: Seq<String>, recipe: Seq<char>) -> bool {
    first_index(recipes, string_is(recipe)) is Some
}

/// The label of a prompt chain's question: its message, else the chain's id.
pub fn prompt_label(chain_id: &String, message: &Option<String>) -> (r: String)
    ensures
        r@ == match message {
            Some(m) => m@,
            None => chain_id@,
        },
{
    match message {
        Some(m) => m.clone(),
        None => chain_id.clone(),
    }
}

} // verus!
