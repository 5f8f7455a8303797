//! A chat with a language model served by Ollama, which remembers the
//! conversation between prompts.
//!
//! The plugin builds the request ([`Ollama::request`]); the caller sends it
//! as JSON and hands back the decoded reply ([`Ollama::receive`]), which the
//! plugin keeps the conversation's context from.
use vstd::prelude::*;

use crate::plugin::ExecutionStatus;
use crate::text::{
    byte_len, lemma_flatten_lines_has_no_breaks, lemma_flatten_lines_shrinks, lemma_truncated_fits,
    chars_equal, chars_of, cuts_cleanly, flatten_line_breaks, flatten_lines, join_with, join_words,
    string_from_chars, truncate_chars, truncated, truncates_cleanly, views,
};

verus! {

/// Why a prompt got no answer.
#[derive(Clone, Copy, Debug, PartialEq, Eq, Structural)]
pub enum ErrorKind {
    /// A download error
    Download,
    /// Missing URL error
    MissingUrl,
    /// Missing title error
    MissingTitle,
    /// Useless title error
    UselessTitle,
    /// Html decoding error
    HtmlDecoding,
    /// Deserialize error
    Deserialize,
    /// Serialize error
    Serialize,
}

/// The text each error shows.
pub open spec fn error_text(kind: ErrorKind) -> Seq<char> {
    match kind {
        ErrorKind::Download => "A download error occured"@,
        ErrorKind::MissingUrl => "No URL was found"@,
        ErrorKind::MissingTitle => "No title was found"@,
        ErrorKind::UselessTitle => "The titles found were not useful enough"@,
        ErrorKind::HtmlDecoding => "Failed to decode Html characters"@,
        ErrorKind::Deserialize => "Failed to deserialize reply"@,
        ErrorKind::Serialize => "Failed to serialize reply"@,
    }
}

impl ErrorKind {
    /// The text this error shows.
    pub fn message(&self) -> (s: String)
        ensures
            s@ == error_text(*self),
    {
        match self {
            ErrorKind::Download => "A download error occured".to_owned(),
            ErrorKind::MissingUrl => "No URL was found".to_owned(),
            ErrorKind::MissingTitle => "No title was found".to_owned(),
            ErrorKind::UselessTitle => "The titles found were not useful enough".to_owned(),
            ErrorKind::HtmlDecoding => "Failed to decode Html characters".to_owned(),
            ErrorKind::Deserialize => "Failed to deserialize reply".to_owned(),
            ErrorKind::Serialize => "Failed to serialize reply".to_owned(),
        }
    }
}

/// The generation options sent with a prompt.
#[derive(Clone, Copy, Debug, PartialEq, Eq, Structural)]
pub struct OllamaOptions {
    pub num_predict: i64,
}

/// The most tokens a reply may have.
pub const NUM_PREDICT: i64 = 200;

/// What is sent to Ollama's `generate` endpoint.
pub struct OllamaRequest {
    pub model: String,
    pub prompt: String,
    pub context: Vec<u16>,
    pub stream: bool,
    pub options: OllamaOptions,
}

/// The contents of an [`OllamaRequest`].
pub struct OllamaRequestView {
    pub model: Seq<char>,
    pub prompt: Seq<char>,
    pub context: Seq<u16>,
    pub stream: bool,
    pub options: OllamaOptions,
}

impl View for OllamaRequest {
    type V = OllamaRequestView;

    open spec fn view(&self) -> OllamaRequestView {
        OllamaRequestView {
            model: self.model@,
            prompt: self.prompt@,
            context: self.context@,
            stream: self.stream,
            options: self.options,
        }
    }
}

/// What Ollama answers: the generated text, and the conversation so far.
pub struct OllamaReply {
    pub response: String,
    pub context: Vec<u16>,
}

/// What an `ollama` command asks for.
pub enum OllamaAction {
    /// Send this reply.
    Reply(String),
    /// Send this request to Ollama, then hand its reply to [`Ollama::receive`].
    Prompt(OllamaRequest),
}

/// The plugin: where Ollama is, which model to use, and the conversation's
/// context so far.
pub struct Ollama {
    url: String,
    model: String,
    context: Vec<u16>,
}

/// The contents of an [`Ollama`] plugin.
pub struct OllamaView {
    pub url: Seq<char>,
    pub model: Seq<char>,
    pub context: Seq<u16>,
}

impl View for Ollama {
    type V = OllamaView;

    closed spec fn view(&self) -> OllamaView {
        OllamaView { url: self.url@, model: self.model@, context: self.context@ }
    }
}

/// The request for `prompt` from a plugin in state `o`: the model, the
/// prompt, the context so far, no streaming, and at most 200 tokens.
pub open spec fn request_for(o: OllamaView, prompt: Seq<char>) -> OllamaRequestView {
    OllamaRequestView {
        model: o.model,
        prompt,
        context: o.context,
        stream: false,
        options: OllamaOptions { num_predict: NUM_PREDICT },
    }
}

/// The plugin `o` after the conversation has moved to `context`.
pub open spec fn remembering(o: OllamaView, context: Seq<u16>) -> OllamaView {
    OllamaView { context, ..o }
}

/// How a reply is shown: cut to 412 bytes, then line breaks flattened.
pub open spec fn reply_text(response: Seq<char>) -> Seq<char> {
    flatten_lines(truncated(response, 412))
}

impl Ollama {
    /// A plugin for the model `model` served at `url`, with no conversation yet.
    pub fn new(url: String, model: String) -> (o: Ollama)
        ensures
            o@ == (OllamaView { url: url@, model: model@, context: Seq::<u16>::empty() }),
    {
        Ollama { url, model, context: Vec::new() }
    }

    /// Where Ollama is served.
    pub fn url(&self) -> (u: &String)
        ensures
            u@ == self@.url,
    {
        &self.url
    }

    /// The request that asks the model about `prompt`, carrying the
    /// conversation so far (`prompt`, up to the sending).
    pub fn request(&self, prompt: String) -> (r: OllamaRequest)
        ensures
            r@ == request_for(self@, prompt@),
    {
        OllamaRequest {
            model: self.model.clone(),
            prompt,
            context: self.context.clone(),
            stream: false,
            options: OllamaOptions { num_predict: NUM_PREDICT },
        }
    }

    /// Takes Ollama's reply (`prompt`, from the reply on): the conversation
    /// goes on from the reply's context, and the answer is the response, cut
    /// and flattened. A failed exchange leaves the conversation as it was.
    pub fn receive(&mut self, reply: Result<OllamaReply, ErrorKind>) -> (r: Result<String, ErrorKind>)
        requires
            reply matches Ok(rep) ==> truncates_cleanly(rep.response@, 412),
        ensures
            match reply {
                Ok(rep) => {
                    &&& final(self)@ == remembering(old(self)@, rep.context@)
                    &&& r matches Ok(s) && s@ == reply_text(rep.response@)
                },
                Err(e) => {
                    &&& final(self)@ == old(self)@
                    &&& r == Err::<String, ErrorKind>(e)
                },
            },
    {
        match reply {
            Ok(rep) => {
                self.context = rep.context;
                let response = chars_of(rep.response.as_str());
                let cut = truncate_chars(response.as_slice(), 412);
                let flat = flatten_line_breaks(cut.as_slice());
                Ok(string_from_chars(flat.as_slice()))
            },
            Err(e) => Err(e),
        }
    }

    /// Whether [`Ollama::receive`] can take `reply`: its response can be cut
    /// at 412 bytes (where `String::truncate` would panic).
    pub fn can_receive(&self, reply: &Result<OllamaReply, ErrorKind>) -> (r: bool)
        ensures
            r == (reply matches Ok(rep) ==> truncates_cleanly(rep.response@, 412)),
    {
        match reply {
            Ok(rep) => {
                let cs = chars_of(rep.response.as_str());
                cuts_cleanly(cs.as_slice(), 412)
            },
            Err(_) => true,
        }
    }

    /// Forgets the conversation.
    pub fn clear(&mut self)
        ensures
            final(self)@ == remembering(old(self)@, Seq::<u16>::empty()),
    {
        self.context = Vec::new();
    }

    /// An `ollama` command: `/clear` as first word forgets the conversation;
    /// anything else is a prompt made of all the words joined by spaces.
    pub fn command(&mut self, tokens: &Vec<String>) -> (a: OllamaAction)
        requires
            tokens@.len() > 0,
        ensures
            tokens@[0]@ == "/clear"@ ==> {
                &&& final(self)@ == remembering(old(self)@, Seq::<u16>::empty())
                &&& a matches OllamaAction::Reply(s) && s@ == "Cleared memory"@
            },
            tokens@[0]@ != "/clear"@ ==> {
                &&& final(self)@ == old(self)@
                &&& a matches OllamaAction::Prompt(req) && req@ == request_for(
                    old(self)@,
                    join_with(views(tokens@), seq![' ']),
                )
            },
    {
        let first = chars_of(tokens[0].as_str());
        let clear = chars_of("/clear");
        if chars_equal(first.as_slice(), clear.as_slice()) {
            self.clear();
            return OllamaAction::Reply("Cleared memory".to_owned());
        }
        let joined = join_words(tokens.as_slice());
        let prompt = string_from_chars(joined.as_slice());
        OllamaAction::Prompt(self.request(prompt))
    }

    /// Channel messages are not for this plugin.
    pub fn execute(&self) -> (s: ExecutionStatus)
        ensures
            s == ExecutionStatus::Done,
    {
        ExecutionStatus::Done
    }

    /// Evaluation is not offered.
    pub fn evaluate(&self) -> (r: Result<String, String>)
        ensures
            r matches Err(m) && m@ == "Evaluation of commands is not implemented for ollama at this time"@,
    {
        Err("Evaluation of commands is not implemented for ollama at this time".to_owned())
    }
}

/// A prompt sent after a reply carries the context of that reply, to the
/// same model; after `/clear` it carries none.
pub proof fn law_next_prompt_carries_context(o: OllamaView, context: Seq<u16>, prompt: Seq<char>)
    ensures
        request_for(remembering(o, context), prompt).context == context,
        request_for(remembering(o, context), prompt).model == o.model,
        request_for(remembering(o, Seq::<u16>::empty()), prompt).context.len() == 0,
        remembering(o, context).url == o.url,
{
}

/// What the plugin answers is one line (no line feed or carriage return) of
/// at most 412 bytes, whatever the model said.
pub proof fn law_reply_is_one_short_line(response: Seq<char>)
    ensures
        byte_len(reply_text(response)) <= 412,
        forall|i: int|
            0 <= i < reply_text(response).len() ==> reply_text(response)[i] != '\n' && reply_text(
                response,
            )[i] != '\r',
{
    lemma_truncated_fits(response, 412);
    lemma_flatten_lines_shrinks(truncated(response, 412));
    lemma_flatten_lines_has_no_breaks(truncated(response, 412));
}

} // verus!
