//! Where the client sends its requests, and what it sends.
use vstd::prelude::*;

verus! {

/// The host used when none is configured.
pub const DEFAULT_HOST: &'static str = "127.0.0.1";

/// The port used when none is configured.
pub const DEFAULT_PORT: &'static str = "11434";

/// The model used when none is configured.
pub const DEFAULT_MODEL: &'static str = "llama3";

/// The text of a value that is configured, or else of its default.
pub open spec fn or_default(v: Option<String>, default: Seq<char>) -> Seq<char> {
    match v {
        Some(s) => s@,
        None => default,
    }
}

/// The generation endpoint of a host and port.
pub open spec fn endpoint(host: Seq<char>, port: Seq<char>) -> Seq<char> {
    "http://"@ + host + ":"@ + port + "/api/generate"@
}

/// The lowercase hexadecimal digit of `n`, below 16.
pub open spec fn hex_digit(n: int) -> char {
    seq!['0', '1', '2', '3', '4', '5', '6', '7', '8', '9', 'a', 'b', 'c', 'd', 'e', 'f'][n]
}

/// How a character stands inside a JSON string literal: a quote, a backslash
/// and the control characters escaped (with a short escape where JSON has
/// one, else `\u00XX`), every other character as it is.
pub open spec fn json_escape(c: char) -> Seq<char> {
    if c == '"' {
        seq!['\\', '"']
    } else if c == '\\' {
        seq!['\\', '\\']
    } else if c == '\u{8}' {
        seq!['\\', 'b']
    } else if c == '\t' {
        seq!['\\', 't']
    } else if c == '\n' {
        seq!['\\', 'n']
    } else if c == '\u{c}' {
        seq!['\\', 'f']
    } else if c == '\r' {
        seq!['\\', 'r']
    } else if (c as int) < 0x20 {
        seq!['\\', 'u', '0', '0', hex_digit((c as int) / 16), hex_digit((c as int) % 16)]
    } else {
        seq![c]
    }
}

/// The escaped characters of a text, in order.
pub open spec fn json_escaped(s: Seq<char>) -> Seq<char>
    decreases s.len(),
{
    if s.len() == 0 {
        Seq::empty()
    } else {
        json_escaped(s.drop_last()) + json_escape(s.last())
    }
}

/// The JSON string literal that holds the text.
pub open spec fn json_quoted(s: Seq<char>) -> Seq<char> {
    seq!['"'] + json_escaped(s) + seq!['"']
}

/// Relies on serde_json::to_string on a `str`: the text between quotes, with
/// the escapes of its escape table. Serializing a `str` into a `String` does
/// not fail.
#[verifier::external_body]
fn quote_json(s: &str) -> (r: String)
    ensures
        r@ == json_quoted(s@),
{
    serde_json::to_string(s).unwrap_or_default()
}

/// The body of a streaming generation request.
pub open spec fn request_body_text(model: Seq<char>, prompt: Seq<char>) -> Seq<char> {
    "{\"model\":"@ + json_quoted(model) + ",\"prompt\":"@ + json_quoted(prompt)
        + ",\"stream\":true}"@
}

/// The JSON body of a streaming generation request for the prompt.
pub fn request_body(model: &str, prompt: &str) -> (r: String)
    ensures
        r@ == request_body_text(model@, prompt@),
{
    let mut body = String::from_str("{\"model\":");
    body.append(quote_json(model).as_str());
    body.append(",\"prompt\":");
    body.append(quote_json(prompt).as_str());
    body.append(",\"stream\":true}");
    body
}

/// Where requests go and which model answers them.
pub struct Config {
    pub ollama_url: String,
    pub model_name: String,
}

impl Config {
    /// The configuration from the values that are set: the endpoint
    /// `http://{host}:{port}/api/generate`, and the model, each unset value
    /// taking its default.
    pub fn from_values(host: Option<String>, port: Option<String>, model: Option<String>) -> (r:
        Config)
        ensures
            r.ollama_url@ == endpoint(
                or_default(host, DEFAULT_HOST@),
                or_default(port, DEFAULT_PORT@),
            ),
            r.model_name@ == or_default(model, DEFAULT_MODEL@),
    {
        let host = match host {
            Some(h) => h,
            None => String::from_str(DEFAULT_HOST),
        };
        let port = match port {
            Some(p) => p,
            None => String::from_str(DEFAULT_PORT),
        };
        let model_name = match model {
            Some(m) => m,
            None => String::from_str(DEFAULT_MODEL),
        };
        let mut url = String::from_str("http://");
        url.append(host.as_str());
        url.append(":");
        url.append(port.as_str());
        url.append("/api/generate");
        Config { ollama_url: url, model_name }
    }
}

} // verus!
