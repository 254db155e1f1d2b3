//! The models that a local Ollama offers, read from what `ollama list`
//! prints: a header line, then one line for each model, the name first.

use crate::text::{
    chars_of, first_word, line_spans, lines, spans_cover, string_of, texts, word_span,
};
use vstd::prelude::*;

verus! {

/// A model as Ollama's `/api/tags` lists it.
#[derive(Debug, PartialEq, Eq)]
pub struct OllamaModel {
    pub name: String,
}

/// The answer of Ollama's `/api/tags`.
#[derive(Debug, PartialEq, Eq)]
pub struct OllamaTagsResponse {
    pub models: Vec<OllamaModel>,
}

/// The lines below the header.
pub open spec fn below_header(all: Seq<Seq<char>>) -> Seq<Seq<char>> {
    if all.len() == 0 {
        all
    } else {
        all.drop_first()
    }
}

/// The model names in the output of `ollama list`: the first word of each
/// line below the header that has one, in order.
pub open spec fn model_names(output: Seq<char>) -> Seq<Seq<char>> {
    below_header(lines(output)).filter_map(|line: Seq<char>| first_word(line))
}

/// Reads the model names from the output of `ollama list`.
pub fn parse_model_list(output: &str) -> (names: Vec<String>)
    ensures
        texts(names@) == model_names(output@),
{
    let chars = chars_of(output);
    let spans = line_spans(&chars);
    let ghost all = lines(chars@);
    let ghost rows = below_header(all);
    let ghost word = |line: Seq<char>| first_word(line);
    let mut names: Vec<String> = Vec::new();
    if spans.len() == 0 {
        assert(rows.filter_map(word) =~= Seq::empty());
        assert(texts(names@) =~= Seq::empty());
        return names;
    }
    let mut i: usize = 1;
    while i < spans.len()
        invariant
            1 <= i <= spans.len(),
            chars@ == output@,
            all == lines(chars@),
            rows == below_header(all),
            word == (|line: Seq<char>| first_word(line)),
            spans_cover(chars@, spans@, all),
            texts(names@) == rows.take(i - 1).filter_map(word),
        decreases spans.len() - i,
    {
        let span = spans[i];
        proof {
            assert(rows[i - 1] == all[i as int]);
            rows.lemma_filter_map_take_succ(word, i - 1);
        }
        match word_span(&chars, span.start, span.end) {
            Some((a, b)) => {
                let ghost before = names@;
                names.push(string_of(&chars, a, b));
                assert(texts(names@) =~= texts(before).push(
                    chars@.subrange(a as int, b as int),
                ));
            },
            None => {},
        }
        i += 1;
    }
    proof {
        assert(rows.take(i - 1) == rows);
    }
    names
}

/// What a run of `ollama list` amounts to: the model names in its standard
/// output where it reported success, else a message that ends in its
/// standard error.
pub fn models_from_run(success: bool, stdout: &str, stderr: &str) -> (r: Result<
    Vec<String>,
    String,
>)
    ensures
        match r {
            Ok(names) => success && texts(names@) == model_names(stdout@),
            Err(message) => !success && message@ == "'ollama list' failed: "@ + stderr@,
        },
{
    if !success {
        let mut message = String::from_str("'ollama list' failed: ");
        message.append(stderr);
        return Err(message);
    }
    Ok(parse_model_list(stdout))
}

/// The message for an `ollama list` that could not be started; `reason`
/// says why.
pub fn list_not_started(reason: &str) -> (r: String)
    ensures
        r@ == "Failed to execute 'ollama list': "@ + reason@,
{
    let mut message = String::from_str("Failed to execute 'ollama list': ");
    message.append(reason);
    message
}

} // verus!
