//! The language model's side of a greeting: the request that is sent and
//! the text that is kept of the answer.

use vstd::prelude::*;
use crate::capability::Failure;
use crate::config::Configuration;
use crate::template::{fill_all, format_template, texts};

verus! {

/// The pattern of a reasoning block: an opening `think` tag with whatever
/// attributes, the shortest text that follows, and the closing tag.
pub open spec fn reasoning_pattern() -> Seq<char> {
    "<think\\b[^>]*>[\\s\\S]*?</think>"@
}

/// Whether `regex::Regex::new` accepts `pattern`.
pub uninterp spec fn regex_compiles(pattern: Seq<char>) -> bool;

/// `text` after `regex::Regex::replace_all` has replaced every match of
/// `pattern` in it by `replacement`.
pub uninterp spec fn regex_replace_all(
    pattern: Seq<char>,
    text: Seq<char>,
    replacement: Seq<char>,
) -> Seq<char>;

/// `regex::Error`, the reason why a pattern was not accepted. Nothing is
/// read from it.
#[verifier::external_type_specification]
#[verifier::external_body]
pub struct ExRegexError(regex::Error);

/// Calls `regex::Regex::new` on `pattern` and, where the pattern compiles,
/// `regex::Regex::replace_all` on `text` and `replacement`, which replaces
/// all non-overlapping matches in the text. Both results depend on the
/// arguments alone; `regex_compiles` and `regex_replace_all` are their
/// names.
#[verifier::external_body]
fn replace_all(pattern: &str, text: &str, replacement: &str) -> (out: Result<String, regex::Error>)
    ensures
        out is Ok <==> regex_compiles(pattern@),
        out matches Ok(replaced) ==> replaced@ == regex_replace_all(pattern@, text@, replacement@),
{
    let re = regex::Regex::new(pattern)?;
    Ok(re.replace_all(text, replacement).into_owned())
}

/// The pattern of a reasoning block was not accepted.
#[derive(Debug, Clone, Copy, PartialEq, Eq, Structural)]
pub struct PatternError;

/// What is sent to the language model.
#[derive(Debug)]
pub struct GenerationRequest {
    pub model: String,
    pub prompt: String,
}

/// The language model client's rules.
#[derive(Debug)]
pub struct OllamaAi;

impl OllamaAi {
    /// Removes every reasoning block from `text` and keeps everything around
    /// it, whitespace included.
    pub fn remove_reasoning(text: &str) -> (out: Result<String, PatternError>)
        ensures
            out is Ok <==> regex_compiles(reasoning_pattern()),
            out matches Ok(kept) ==> kept@ == regex_replace_all(
                reasoning_pattern(),
                text@,
                Seq::<char>::empty(),
            ),
    {
        proof {
            reveal_strlit("");
        }
        assert(""@ =~= Seq::<char>::empty());
        match replace_all("<think\\b[^>]*>[\\s\\S]*?</think>", text, "") {
            Ok(kept) => Ok(kept),
            Err(_) => Err(PatternError),
        }
    }

    /// The request for a text about `weather`: the configured model and the
    /// configured prompt with the weather summary filled in.
    pub fn request(cfg: &Configuration, weather: &str) -> (request: GenerationRequest)
        ensures
            request.model@ == cfg.ai_model@,
            request.prompt@ == fill_all(cfg.ai_prompt@, seq![weather@]),
    {
        let mut args: Vec<String> = Vec::new();
        args.push(weather.to_owned());
        assert(texts(args@) == seq![weather@]);
        GenerationRequest {
            model: cfg.ai_model.clone(),
            prompt: format_template(cfg.ai_prompt.as_str(), &args),
        }
    }

    /// What is kept of the language model's answer: the response without its
    /// reasoning blocks. A failed call stays failed, and so does a response
    /// whose reasoning could not be removed.
    pub fn response(answer: Result<String, Failure>) -> (out: Result<String, Failure>)
        ensures
            out is Ok <==> answer is Ok && regex_compiles(reasoning_pattern()),
            out matches Ok(kept) ==> kept@ == regex_replace_all(
                reasoning_pattern(),
                answer->Ok_0@,
                Seq::<char>::empty(),
            ),
            answer matches Err(failure) ==> out == Err::<String, Failure>(failure),
    {
        match answer {
            Ok(text) => match OllamaAi::remove_reasoning(text.as_str()) {
                Ok(kept) => Ok(kept),
                Err(_) => Err(Failure { reason: "reasoning pattern rejected".to_owned() }),
            },
            Err(failure) => Err(failure),
        }
    }
}

} // verus!
