//! Model providers reached over HTTP (Anthropic, OpenAI and compatible
//! servers such as Ollama, Google Gemini): their settings, the requests
//! they send and the reading of each streamed event into answer chunks.
use vstd::prelude::*;
use crate::context::ResponseChunk;
use crate::executor::{utf8_lossy, utf8_lossy_spec};
use crate::json::{
    json_as_str, json_get, json_get_spec, json_index, json_index_spec, json_object, json_object_spec, json_parse,
    json_parse_spec, json_quote, json_quote_spec, json_str_spec,
};
use crate::text::{concat2, concat3, owned, str_eq};
use crate::tools::mcp_adapter::pair_views;

verus! {

/// A chunk that carries text.
pub open spec fn is_text_chunk(c: ResponseChunk, text: Seq<char>) -> bool {
    &&& c.content_delta matches Some(t) && t@ == text
    &&& c.tool_call_delta is None
    &&& c.usage is None
    &&& !c.is_final
}

/// The chunk that ends an answer.
pub open spec fn is_final_chunk(c: ResponseChunk) -> bool {
    &&& c.content_delta is None
    &&& c.tool_call_delta is None
    &&& c.usage is None
    &&& c.is_final
}

/// A chunk carrying `text`.
pub fn text_chunk(text: String) -> (res: ResponseChunk)
    ensures
        is_text_chunk(res, text@),
{
    ResponseChunk { content_delta: Some(text), tool_call_delta: None, usage: None, is_final: false }
}

/// The chunk that ends an answer.
pub fn final_chunk() -> (res: ResponseChunk)
    ensures
        is_final_chunk(res),
{
    ResponseChunk { content_delta: None, tool_call_delta: None, usage: None, is_final: true }
}

/// The error for asking a provider for a whole answer at once.
pub fn complete_unsupported_message() -> (res: String)
    ensures
        res@ == "Non-streaming complete not implemented yet for live providers. Please use stream_complete."@,
{
    owned("Non-streaming complete not implemented yet for live providers. Please use stream_complete.")
}

/// The error a stream ends with when its transport fails; `provider` is
/// "Anthropic" or "OpenAI".
pub fn stream_error_message(provider: &str, error: &str) -> (res: String)
    ensures
        res@ == provider@ + " stream error: "@ + error@,
{
    concat3(provider, " stream error: ", error)
}

/// A JSON array of one element.
fn single_array(element: &str) -> (res: String)
    ensures
        res@ == "["@ + element@ + "]"@,
{
    concat3("[", element, "]")
}

/// The user message `{"role":"user","content":prompt}`.
pub open spec fn user_message_spec(prompt: Seq<char>) -> Seq<char> {
    json_object_spec(seq![("role"@, json_quote_spec("user"@)), ("content"@, json_quote_spec(prompt))])
}

fn user_message(prompt: &str) -> (res: String)
    ensures
        res@ == user_message_spec(prompt@),
{
    let entries = vec![(owned("role"), json_quote("user")), (owned("content"), json_quote(prompt))];
    assert(pair_views(entries@) =~= seq![("role"@, json_quote_spec("user"@)), ("content"@, json_quote_spec(prompt@))]);
    json_object(&entries)
}

/// Anthropic's Messages API.
pub struct AnthropicProvider {
    pub api_key: String,
    pub model: String,
}

/// Anthropic's request body: the model, at most 4096 tokens, the prompt as
/// the one user message, streamed.
pub open spec fn anthropic_payload_spec(model: Seq<char>, prompt: Seq<char>) -> Seq<char> {
    json_object_spec(seq![
        ("model"@, json_quote_spec(model)),
        ("max_tokens"@, "4096"@),
        ("messages"@, "["@ + user_message_spec(prompt) + "]"@),
        ("stream"@, "true"@),
    ])
}

/// The text delta of an Anthropic event, if it has one.
pub open spec fn anthropic_delta(v: Seq<char>) -> Option<Seq<char>> {
    match json_get_spec(v, "delta"@) {
        Some(d) => match json_get_spec(d, "text"@) {
            Some(t) => json_str_spec(t),
            None => None,
        },
        None => None,
    }
}

/// Whether an Anthropic event ends the message.
pub open spec fn anthropic_stops(v: Seq<char>) -> bool {
    match json_get_spec(v, "type"@) {
        Some(t) => json_str_spec(t) == Some("message_stop"@),
        None => false,
    }
}

impl AnthropicProvider {
    /// A provider for `model`, or, when none is given, for `default_model`,
    /// which the caller supplies.
    pub fn new(api_key: String, model: Option<String>, default_model: String) -> (res: Self)
        ensures
            res.api_key@ == api_key@,
            res.model@ == match model {
                Some(m) => m@,
                None => default_model@,
            },
    {
        let model = match model {
            Some(m) => m,
            None => default_model,
        };
        AnthropicProvider { api_key, model }
    }

    /// The endpoint requests go to.
    pub fn endpoint() -> (res: &'static str)
        ensures
            res@ == "https://api.anthropic.com/v1/messages"@,
    {
        "https://api.anthropic.com/v1/messages"
    }

    /// The API version header's value.
    pub fn api_version() -> (res: &'static str)
        ensures
            res@ == "2023-06-01"@,
    {
        "2023-06-01"
    }

    /// The request body for `prompt`.
    pub fn payload(&self, prompt: &str) -> (res: String)
        ensures
            res@ == anthropic_payload_spec(self.model@, prompt@),
    {
        let m = user_message(prompt);
        let entries = vec![
            (owned("model"), json_quote(self.model.as_str())),
            (owned("max_tokens"), owned("4096")),
            (owned("messages"), single_array(m.as_str())),
            (owned("stream"), owned("true")),
        ];
        assert(pair_views(entries@) =~= seq![
            ("model"@, json_quote_spec(self.model@)),
            ("max_tokens"@, "4096"@),
            ("messages"@, "["@ + user_message_spec(prompt@) + "]"@),
            ("stream"@, "true"@),
        ]);
        json_object(&entries)
    }

    /// The chunks for one event's data: its text delta, then the final chunk
    /// when it ends the message; data that is not JSON is an error.
    pub fn read_event(data: &str) -> (res: Result<Vec<ResponseChunk>, String>)
        ensures
            match json_parse_spec(data@) {
                Err(e) => res matches Err(m) && m@ == e,
                Ok(v) => res matches Ok(chunks) && {
                    let n: int = if anthropic_delta(v) is Some { 1 } else { 0 };
                    &&& chunks@.len() == n + if anthropic_stops(v) { 1int } else { 0int }
                    &&& anthropic_delta(v) matches Some(t) ==> is_text_chunk(chunks@[0], t)
                    &&& anthropic_stops(v) ==> is_final_chunk(chunks@[n])
                },
            },
    {
        let v = match json_parse(data) {
            Ok(v) => v,
            Err(e) => return Err(e),
        };
        let mut chunks: Vec<ResponseChunk> = Vec::new();
        let delta = match json_get(v.as_str(), "delta") {
            Some(d) => match json_get(d.as_str(), "text") {
                Some(t) => json_as_str(t.as_str()),
                None => None,
            },
            None => None,
        };
        match delta {
            Some(t) => chunks.push(text_chunk(t)),
            None => {},
        }
        let stops = match json_get(v.as_str(), "type") {
            Some(t) => match json_as_str(t.as_str()) {
                Some(s) => str_eq(s.as_str(), "message_stop"),
                None => false,
            },
            None => false,
        };
        if stops {
            chunks.push(final_chunk());
        }
        Ok(chunks)
    }
}

/// OpenAI's Chat Completions API, or a server that offers it (Ollama).
pub struct OpenAiProvider {
    pub api_key: String,
    pub model: String,
    pub base_url: String,
}

/// The chat request body: the model, the prompt as the one user message,
/// streamed.
pub open spec fn openai_payload_spec(model: Seq<char>, prompt: Seq<char>) -> Seq<char> {
    json_object_spec(seq![
        ("model"@, json_quote_spec(model)),
        ("messages"@, "["@ + user_message_spec(prompt) + "]"@),
        ("stream"@, "true"@),
    ])
}

/// The content delta of a chat event: `choices[0].delta.content`.
pub open spec fn openai_delta(v: Seq<char>) -> Option<Seq<char>> {
    match json_get_spec(v, "choices"@) {
        Some(c) => match json_index_spec(c, 0) {
            Some(first) => match json_get_spec(first, "delta"@) {
                Some(d) => match json_get_spec(d, "content"@) {
                    Some(t) => json_str_spec(t),
                    None => None,
                },
                None => None,
            },
            None => None,
        },
        None => None,
    }
}

/// What one chat event gives: chunks, and whether the stream is over.
#[derive(Debug)]
pub struct ChatEvent {
    pub chunks: Vec<ResponseChunk>,
    pub done: bool,
}

impl OpenAiProvider {
    /// A provider for OpenAI's API and `model`, by default "gpt-4o".
    pub fn new(api_key: String, model: Option<String>) -> (res: Self)
        ensures
            res.api_key@ == api_key@,
            res.model@ == match model {
                Some(m) => m@,
                None => "gpt-4o"@,
            },
            res.base_url@ == "https://api.openai.com/v1"@,
    {
        let model = match model {
            Some(m) => m,
            None => owned("gpt-4o"),
        };
        OpenAiProvider { api_key, model, base_url: owned("https://api.openai.com/v1") }
    }

    /// A provider for a local Ollama server and `model`.
    pub fn ollama(model: String) -> (res: Self)
        ensures
            res.api_key@ == "ollama"@,
            res.model@ == model@,
            res.base_url@ == "http://localhost:11434/v1"@,
    {
        OpenAiProvider { api_key: owned("ollama"), model, base_url: owned("http://localhost:11434/v1") }
    }

    /// The endpoint requests go to.
    pub fn endpoint(&self) -> (res: String)
        ensures
            res@ == self.base_url@ + "/chat/completions"@,
    {
        concat2(self.base_url.as_str(), "/chat/completions")
    }

    /// The request body for `prompt`.
    pub fn payload(&self, prompt: &str) -> (res: String)
        ensures
            res@ == openai_payload_spec(self.model@, prompt@),
    {
        let m = user_message(prompt);
        let entries = vec![
            (owned("model"), json_quote(self.model.as_str())),
            (owned("messages"), single_array(m.as_str())),
            (owned("stream"), owned("true")),
        ];
        assert(pair_views(entries@) =~= seq![
            ("model"@, json_quote_spec(self.model@)),
            ("messages"@, "["@ + user_message_spec(prompt@) + "]"@),
            ("stream"@, "true"@),
        ]);
        json_object(&entries)
    }

    /// Reads one event's data: "[DONE]" ends the stream with the final
    /// chunk; otherwise the content delta, if any; data that is not JSON is
    /// an error.
    pub fn read_event(data: &str) -> (res: Result<ChatEvent, String>)
        ensures
            data@ == "[DONE]"@ ==> (res matches Ok(ev) && ev.done && ev.chunks@.len() == 1 && is_final_chunk(ev.chunks@[0])),
            data@ != "[DONE]"@ ==> match json_parse_spec(data@) {
                Err(e) => res matches Err(m) && m@ == e,
                Ok(v) => res matches Ok(ev) && !ev.done && match openai_delta(v) {
                    Some(t) => ev.chunks@.len() == 1 && is_text_chunk(ev.chunks@[0], t),
                    None => ev.chunks@.len() == 0,
                },
            },
    {
        if str_eq(data, "[DONE]") {
            return Ok(ChatEvent { chunks: vec![final_chunk()], done: true });
        }
        let v = match json_parse(data) {
            Ok(v) => v,
            Err(e) => return Err(e),
        };
        let delta = match json_get(v.as_str(), "choices") {
            Some(c) => match json_index(c.as_str(), 0) {
                Some(first) => match json_get(first.as_str(), "delta") {
                    Some(d) => match json_get(d.as_str(), "content") {
                        Some(t) => json_as_str(t.as_str()),
                        None => None,
                    },
                    None => None,
                },
                None => None,
            },
            None => None,
        };
        match delta {
            Some(t) => Ok(ChatEvent { chunks: vec![text_chunk(t)], done: false }),
            None => Ok(ChatEvent { chunks: Vec::new(), done: false }),
        }
    }
}

/// Google's Gemini API.
pub struct GeminiProvider {
    pub api_key: String,
    pub model: String,
}

/// Gemini's request body: `{"contents":[{"parts":[{"text":prompt}]}]}`.
pub open spec fn gemini_payload_spec(prompt: Seq<char>) -> Seq<char> {
    let part = json_object_spec(seq![("text"@, json_quote_spec(prompt))]);
    let content = json_object_spec(seq![("parts"@, "["@ + part + "]"@)]);
    json_object_spec(seq![("contents"@, "["@ + content + "]"@)])
}

/// The text of a Gemini chunk: `candidates[0].content.parts[0].text`.
pub open spec fn gemini_text(v: Seq<char>) -> Option<Seq<char>> {
    match json_get_spec(v, "candidates"@) {
        Some(c) => match json_index_spec(c, 0) {
            Some(first) => match json_get_spec(first, "content"@) {
                Some(ct) => match json_get_spec(ct, "parts"@) {
                    Some(p) => match json_index_spec(p, 0) {
                        Some(part) => match json_get_spec(part, "text"@) {
                            Some(t) => json_str_spec(t),
                            None => None,
                        },
                        None => None,
                    },
                    None => None,
                },
                None => None,
            },
            None => None,
        },
        None => None,
    }
}

/// A received block of bytes as JSON text: decoded with replacement
/// characters, and `null` when it does not parse.
pub open spec fn gemini_block_value(bytes: Seq<u8>) -> Seq<char> {
    match json_parse_spec(utf8_lossy_spec(bytes)) {
        Ok(v) => v,
        Err(_) => "null"@,
    }
}

impl GeminiProvider {
    /// A provider for `model`, by default "gemini-1.5-flash".
    pub fn new(api_key: String, model: Option<String>) -> (res: Self)
        ensures
            res.api_key@ == api_key@,
            res.model@ == match model {
                Some(m) => m@,
                None => "gemini-1.5-flash"@,
            },
    {
        let model = match model {
            Some(m) => m,
            None => owned("gemini-1.5-flash"),
        };
        GeminiProvider { api_key, model }
    }

    /// The streaming endpoint, with the model and the key in it.
    pub fn endpoint(&self) -> (res: String)
        ensures
            res@ == "https://generativelanguage.googleapis.com/v1beta/models/"@ + self.model@
                + ":streamGenerateContent?key="@ + self.api_key@,
    {
        let head = concat3(
            "https://generativelanguage.googleapis.com/v1beta/models/",
            self.model.as_str(),
            ":streamGenerateContent?key=",
        );
        concat2(head.as_str(), self.api_key.as_str())
    }

    /// The request body for `prompt`.
    pub fn payload(prompt: &str) -> (res: String)
        ensures
            res@ == gemini_payload_spec(prompt@),
    {
        let pe = vec![(owned("text"), json_quote(prompt))];
        assert(pair_views(pe@) =~= seq![("text"@, json_quote_spec(prompt@))]);
        let part = json_object(&pe);
        let ce = vec![(owned("parts"), single_array(part.as_str()))];
        let ghost pv = json_object_spec(seq![("text"@, json_quote_spec(prompt@))]);
        assert(pair_views(ce@) =~= seq![("parts"@, "["@ + pv + "]"@)]);
        let content = json_object(&ce);
        let oe = vec![(owned("contents"), single_array(content.as_str()))];
        let ghost cv = json_object_spec(seq![("parts"@, "["@ + pv + "]"@)]);
        assert(pair_views(oe@) =~= seq![("contents"@, "["@ + cv + "]"@)]);
        json_object(&oe)
    }

    /// The chunk for one received block of bytes, if it carries text.
    pub fn read_block(bytes: &[u8]) -> (res: Option<ResponseChunk>)
        ensures
            match gemini_text(gemini_block_value(bytes@)) {
                Some(t) => res matches Some(c) && is_text_chunk(c, t),
                None => res is None,
            },
    {
        let text = utf8_lossy(bytes);
        let v = match json_parse(text.as_str()) {
            Ok(v) => v,
            Err(_) => owned("null"),
        };
        let t = match json_get(v.as_str(), "candidates") {
            Some(c) => match json_index(c.as_str(), 0) {
                Some(first) => match json_get(first.as_str(), "content") {
                    Some(ct) => match json_get(ct.as_str(), "parts") {
                        Some(p) => match json_index(p.as_str(), 0) {
                            Some(part) => match json_get(part.as_str(), "text") {
                                Some(t) => json_as_str(t.as_str()),
                                None => None,
                            },
                            None => None,
                        },
                        None => None,
                    },
                    None => None,
                },
                None => None,
            },
            None => None,
        };
        match t {
            Some(t) => Some(text_chunk(t)),
            None => None,
        }
    }
}

} // verus!
