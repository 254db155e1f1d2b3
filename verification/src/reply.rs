//! Reading a provider's response: where in the JSON document each provider
//! puts its reply, and what is returned for every status and body.

use crate::failure::{GenerateError, GenerateErrorView};
use crate::json::{doc_element, doc_member, element, json_doc, json_parse, member, parse, text_of, JsonDoc};
use crate::provider::Provider;
use crate::text::{trim, trimmed};
use vstd::prelude::*;

verus! {

/// One step into a JSON document: to a member of an object or to an element
/// of an array.
#[derive(Clone, Copy, Debug, PartialEq, Eq)]
pub enum PathStep {
    Key(&'static str),
    Index(usize),
}

/// A [`PathStep`] as plain values.
pub enum PathStepView {
    Key(Seq<char>),
    Index(nat),
}

impl View for PathStep {
    type V = PathStepView;

    open spec fn view(&self) -> PathStepView {
        match self {
            PathStep::Key(key) => PathStepView::Key(key@),
            PathStep::Index(index) => PathStepView::Index(*index as nat),
        }
    }
}

/// The steps of `path` as plain values.
pub open spec fn path_view(path: Seq<PathStep>) -> Seq<PathStepView> {
    path.map_values(|s: PathStep| s@)
}

/// Where one step from `d` leads: a key leads into objects only, an index
/// into arrays only.
pub open spec fn step_into(d: JsonDoc, step: PathStepView) -> Option<JsonDoc> {
    match step {
        PathStepView::Key(key) => doc_member(d, key),
        PathStepView::Index(index) => doc_element(d, index),
    }
}

/// Where `path` leads from `d`, if every step of it can be taken.
pub open spec fn follow(d: JsonDoc, path: Seq<PathStepView>) -> Option<JsonDoc>
    decreases path.len(),
{
    if path.len() == 0 {
        Some(d)
    } else {
        match step_into(d, path[0]) {
            Some(next) => follow(next, path.drop_first()),
            None => None,
        }
    }
}

/// The path to the reply in a response of `p`.
pub open spec fn reply_path(p: Provider) -> Seq<PathStepView> {
    match p {
        Provider::Ollama => seq![PathStepView::Key("response"@)],
        Provider::OpenAi | Provider::Custom => seq![
            PathStepView::Key("choices"@),
            PathStepView::Index(0),
            PathStepView::Key("message"@),
            PathStepView::Key("content"@),
        ],
        Provider::Gemini => seq![
            PathStepView::Key("candidates"@),
            PathStepView::Index(0),
            PathStepView::Key("content"@),
            PathStepView::Key("parts"@),
            PathStepView::Index(0),
            PathStepView::Key("text"@),
        ],
        Provider::Anthropic => seq![
            PathStepView::Key("content"@),
            PathStepView::Index(0),
            PathStepView::Key("text"@),
        ],
    }
}

/// The reply in the document `doc` of a response of `p`. The value at the
/// provider's path is the reply, trimmed, where it is a string. Every other
/// document has not the expected shape, for every provider: one in which the
/// path cannot be followed, and one that holds anything but a string there.
pub open spec fn reply_in(p: Provider, doc: JsonDoc) -> Result<Seq<char>, GenerateErrorView> {
    match follow(doc, reply_path(p)) {
        Some(JsonDoc::Text(t)) => Ok(trimmed(t)),
        _ => Err(GenerateErrorView::UnexpectedShape { provider: p }),
    }
}

/// Whether a string stands at the path of `p` in `doc`.
pub open spec fn has_text_reply(p: Provider, doc: JsonDoc) -> bool {
    match follow(doc, reply_path(p)) {
        Some(JsonDoc::Text(_)) => true,
        _ => false,
    }
}

/// A document gives a reply exactly where a string stands at the provider's
/// path. A null, a boolean, a number, an array or an object there is a
/// failure, as a missing path is, and never an empty reply.
pub proof fn reply_needs_text(p: Provider, doc: JsonDoc)
    ensures
        reply_in(p, doc) is Ok <==> has_text_reply(p, doc),
        reply_in(p, doc) is Err ==> reply_in(p, doc) == Err::<Seq<char>, GenerateErrorView>(
            GenerateErrorView::UnexpectedShape { provider: p },
        ),
{
}

/// Whether `status` is an HTTP status of success.
pub open spec fn is_success(status: u16) -> bool {
    200 <= status < 300
}

/// What a response of `p` with the given status and body amounts to: the
/// commit message, or the failure.
pub open spec fn reply_of(p: Provider, status: u16, body: Seq<char>) -> Result<
    Seq<char>,
    GenerateErrorView,
> {
    if !is_success(status) {
        Err(GenerateErrorView::Status { provider: p, code: status, body })
    } else {
        match json_parse(body) {
            Some(doc) => reply_in(p, doc),
            None => Err(GenerateErrorView::Unparseable { provider: p }),
        }
    }
}

/// Whether a response holds a reply: its status is one of success, its body
/// is a JSON document, and a string stands at the provider's path in it.
pub open spec fn holds_reply(p: Provider, status: u16, body: Seq<char>) -> bool {
    &&& is_success(status)
    &&& json_parse(body) is Some
    &&& has_text_reply(p, json_parse(body)->0)
}

/// The outcome of reading a response, as plain values.
pub open spec fn outcome_view(r: Result<String, GenerateError>) -> Result<
    Seq<char>,
    GenerateErrorView,
> {
    match r {
        Ok(message) => Ok(message@),
        Err(e) => Err(e@),
    }
}

impl Provider {
    /// The path to the reply in a response of this provider.
    pub fn reply_steps(self) -> (r: Vec<PathStep>)
        ensures
            path_view(r@) == reply_path(self),
    {
        let mut path: Vec<PathStep> = Vec::new();
        match self {
            Provider::Ollama => {
                path.push(PathStep::Key("response"));
            },
            Provider::OpenAi | Provider::Custom => {
                path.push(PathStep::Key("choices"));
                path.push(PathStep::Index(0));
                path.push(PathStep::Key("message"));
                path.push(PathStep::Key("content"));
            },
            Provider::Gemini => {
                path.push(PathStep::Key("candidates"));
                path.push(PathStep::Index(0));
                path.push(PathStep::Key("content"));
                path.push(PathStep::Key("parts"));
                path.push(PathStep::Index(0));
                path.push(PathStep::Key("text"));
            },
            Provider::Anthropic => {
                path.push(PathStep::Key("content"));
                path.push(PathStep::Index(0));
                path.push(PathStep::Key("text"));
            },
        }
        assert(path_view(path@) =~= reply_path(self));
        path
    }
}

/// Follows `path` from `root`.
pub fn descend<'a>(root: &'a serde_json::Value, path: &Vec<PathStep>) -> (r: Option<
    &'a serde_json::Value,
>)
    ensures
        match r {
            Some(v) => follow(json_doc(*root), path_view(path@)) == Some(json_doc(*v)),
            None => follow(json_doc(*root), path_view(path@)) is None,
        },
{
    let ghost steps = path_view(path@);
    let mut current: &'a serde_json::Value = root;
    let mut i: usize = 0;
    proof {
        assert(steps.skip(0) == steps);
    }
    while i < path.len()
        invariant
            i <= path.len(),
            steps == path_view(path@),
            follow(json_doc(*root), steps) == follow(json_doc(*current), steps.skip(i as int)),
        decreases path.len() - i,
    {
        let next = match path[i] {
            PathStep::Key(key) => member(current, key),
            PathStep::Index(index) => element(current, index),
        };
        proof {
            let rest = steps.skip(i as int);
            assert(rest[0] == path@[i as int]@);
            assert(rest.drop_first() == steps.skip(i + 1));
        }
        match next {
            Some(v) => {
                current = v;
            },
            None => {
                return None;
            },
        }
        i += 1;
    }
    Some(current)
}

/// Takes the reply out of the parsed response `doc` of `p`: the string at
/// the provider's path, trimmed. A document without a string there is a
/// failure of shape.
pub fn reply_from_value(p: Provider, doc: &serde_json::Value) -> (r: Result<String, GenerateError>)
    ensures
        outcome_view(r) == reply_in(p, json_doc(*doc)),
        r is Ok <==> has_text_reply(p, json_doc(*doc)),
        r matches Err(e) ==> e@ == (GenerateErrorView::UnexpectedShape { provider: p }),
{
    let path = p.reply_steps();
    match descend(doc, &path) {
        Some(v) => match text_of(v) {
            Some(t) => Ok(trim(t)),
            None => Err(GenerateError::UnexpectedShape { provider: p }),
        },
        None => Err(GenerateError::UnexpectedShape { provider: p }),
    }
}

/// Reads the response of `p`: a status outside 200..=299 is a failure that
/// carries status and body, a body that is no JSON document is unparseable,
/// and every other response is read by [`reply_from_value`]. So a message
/// comes back only from a response of success whose body holds a string at
/// the provider's path.
pub fn read_reply(p: Provider, status: u16, body: &str) -> (r: Result<String, GenerateError>)
    ensures
        outcome_view(r) == reply_of(p, status, body@),
        r is Ok <==> holds_reply(p, status, body@),
{
    if status < 200 || status >= 300 {
        return Err(
            GenerateError::Status { provider: p, code: status, body: String::from_str(body) },
        );
    }
    match parse(body) {
        Ok(doc) => reply_from_value(p, &doc),
        Err(_) => Err(GenerateError::Unparseable { provider: p }),
    }
}

} // verus!
