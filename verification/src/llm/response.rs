//! Reading a generated encounter out of the model's reply: removing code
//! fences, and the checks a parsed reply must pass.

use vstd::prelude::*;
use vstd::string::*;
use vstd::utf8::*;

use crate::llm::prompt::PromptTrigger;
use crate::text::{has_prefix, has_suffix, strip_prefix, strip_suffix, trim, trimmed};

verus! {

/// Errors that can occur while reading a reply.
#[derive(Debug)]
pub enum ParseError {
    /// The reply was not valid JSON.
    InvalidJson(String),
    /// The JSON did not have the expected shape.
    MissingField(String),
    /// The event text was empty or too short.
    TextTooShort,
    /// No choices were provided.
    NoChoices,
}

/// The text after removing a fence: the fence opening, and the closing
/// fence when there is one (if there is none, nothing is removed at all),
/// then trimmed.
pub open spec fn unfenced(t: Seq<char>, opening: Seq<char>) -> Seq<char> {
    let inner = t.skip(opening.len() as int);
    if has_suffix(inner, "```"@) {
        trimmed(inner.take(inner.len() - 3))
    } else {
        trimmed(t)
    }
}

/// The reply with surrounding whitespace and a markdown code fence
/// (```json or ```) removed.
pub open spec fn cleaned_reply(raw: Seq<char>) -> Seq<char> {
    let t = trimmed(raw);
    if has_prefix(t, "```json"@) {
        unfenced(t, "```json"@)
    } else if has_prefix(t, "```"@) {
        unfenced(t, "```"@)
    } else {
        t
    }
}

/// Strip whitespace and markdown code fences from a model reply.
pub fn strip_code_fences(raw: &str) -> (r: &str)
    ensures
        r@ == cleaned_reply(raw@),
{
    proof {
        reveal_strlit("```");
    }
    let t = trim(raw);
    match strip_prefix(t, "```json") {
        Some(inner) => match strip_suffix(inner, "```") {
            Some(body) => trim(body),
            None => trim(t),
        },
        None => match strip_prefix(t, "```") {
            Some(inner) => match strip_suffix(inner, "```") {
                Some(body) => trim(body),
                None => trim(t),
            },
            None => t,
        },
    }
}

/// A reply that did not parse: when it does not end with a closing brace
/// it was most likely cut off, and the message says so.
pub fn json_failure(cleaned: &str, parser_message: &str) -> (r: ParseError)
    ensures
        r matches ParseError::InvalidJson(m) && m@ == (if cleaned@.len() > 0
            && cleaned@.last() == '}' {
            parser_message@
        } else {
            "Response appears truncated (doesn't end with '}').  This usually means max_tokens is too low. Error: "@
                + parser_message@
        }),
{
    let n = cleaned.unicode_len();
    let ends_with_brace = n > 0 && cleaned.get_char(n - 1) == '}';
    if !ends_with_brace {
        let mut m = "Response appears truncated (doesn't end with '}').  This usually means max_tokens is too low. Error: ".to_owned();
        m.append(parser_message);
        ParseError::InvalidJson(m)
    } else {
        ParseError::InvalidJson(parser_message.to_owned())
    }
}

/// Fewest bytes of event text a generated encounter must have.
pub const MIN_TEXT_BYTES: usize = 50;

/// A parsed encounter needs at least fifty bytes of text and at least one
/// choice.
pub fn validate_event(text: &str, choice_count: usize) -> (r: Result<(), ParseError>)
    ensures
        (text.len() as nat) < 50 ==> r matches Err(ParseError::TextTooShort),
        (text.len() as nat) >= 50 && choice_count == 0 ==> r matches Err(ParseError::NoChoices),
        (text.len() as nat) >= 50 && choice_count > 0 ==> r is Ok,
{
    if text.len() < MIN_TEXT_BYTES {
        Err(ParseError::TextTooShort)
    } else if choice_count == 0 {
        Err(ParseError::NoChoices)
    } else {
        Ok(())
    }
}

/// Whether a generated encounter answers something the player did or
/// sets a scene around them.
#[derive(Debug, Clone, Copy, PartialEq, Eq, Structural)]
pub enum EventKind {
    Discovery,
    Ambient,
}

/// An encounter read from a reply, ready for the game: the choices keep
/// whatever form the caller parsed them into.
#[derive(Debug)]
pub struct GeneratedEvent<C> {
    pub id: String,
    pub encounter_type: String,
    pub tone: String,
    pub category: String,
    pub priority: u32,
    pub text: String,
    pub choices: Vec<C>,
    /// What set the encounter off.
    pub trigger: PromptTrigger,
    pub event_kind: EventKind,
}

/// A choice's effects, or the single pass effect when none of them was
/// recognised.
pub fn effects_or_pass<E>(effects: Vec<E>, pass: E) -> (r: Vec<E>)
    ensures
        r@ == (if effects@.len() == 0 {
            seq![pass]
        } else {
            effects@
        }),
{
    if effects.len() == 0 {
        let mut v = Vec::new();
        v.push(pass);
        v
    } else {
        effects
    }
}

/// Turn a parsed reply into an encounter: the text must pass the checks;
/// the event is named by `event_id`, marked as generated and ambient in
/// category, keeps the trigger it answers, and is a discovery with a tone
/// of wonder when the player acted and an ambient, quiet one otherwise.
pub fn assemble_event<C>(text: &str, choices: Vec<C>, trigger: PromptTrigger, event_id: &str) -> (r:
    Result<GeneratedEvent<C>, ParseError>)
    ensures
        (text.len() as nat) < 50 ==> r matches Err(
            ParseError::TextTooShort,
        ),
        (text.len() as nat) >= 50 && choices@.len() == 0 ==> r matches Err(
            ParseError::NoChoices,
        ),
        (text.len() as nat) >= 50 && choices@.len() > 0 ==> (r matches Ok(ev) && ev.id@
            == event_id@ && ev.encounter_type@ == "llm_generated"@ && ev.tone@ == (if trigger is Action {
            "wonder"@
        } else {
            "quiet"@
        }) && ev.category@ == "ambient"@ && ev.priority == 0 && ev.text@ == text@ && ev.choices@
            == choices@ && ev.trigger == trigger && ev.event_kind == (if trigger is Action {
            EventKind::Discovery
        } else {
            EventKind::Ambient
        })),
{
    match validate_event(text, choices.len()) {
        Err(e) => Err(e),
        Ok(()) => {
            let (event_kind, tone) = if trigger.is_player_action() {
                (EventKind::Discovery, "wonder".to_owned())
            } else {
                (EventKind::Ambient, "quiet".to_owned())
            };
            Ok(
                GeneratedEvent {
                    id: event_id.to_owned(),
                    encounter_type: "llm_generated".to_owned(),
                    tone,
                    category: "ambient".to_owned(),
                    priority: 0,
                    text: text.to_owned(),
                    choices,
                    trigger,
                    event_kind,
                },
            )
        },
    }
}

impl ParseError {
    /// The error as a message for the log.
    pub fn describe(&self) -> (r: String)
        ensures
            match self {
                ParseError::InvalidJson(e) => r@ == "Invalid JSON: "@ + e@,
                ParseError::MissingField(f) => r@ == "Missing field: "@ + f@,
                ParseError::TextTooShort => r@ == "Event text too short"@,
                ParseError::NoChoices => r@ == "No choices in response"@,
            },
    {
        match self {
            ParseError::InvalidJson(e) => {
                let mut r = "Invalid JSON: ".to_owned();
                r.append(e.as_str());
                r
            },
            ParseError::MissingField(f) => {
                let mut r = "Missing field: ".to_owned();
                r.append(f.as_str());
                r
            },
            ParseError::TextTooShort => "Event text too short".to_owned(),
            ParseError::NoChoices => "No choices in response".to_owned(),
        }
    }
}

} // verus!
