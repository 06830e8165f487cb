//! Requests to the gateway's API, and what its replies mean.
use crate::json;
use crate::text;
use vstd::prelude::*;

verus! {

#[derive(Debug, Clone, Copy, PartialEq, Eq, Structural)]
pub enum Method {
    Get,
    Post,
}

/// A request, all but the bearer key.
#[derive(Debug)]
pub struct Request {
    pub method: Method,
    pub url: String,
    /// Headers beside the bearer key, by name.
    pub headers: Vec<(String, String)>,
    /// The JSON body of a `Post`; none where nothing is sent.
    pub body: Option<String>,
}

/// The headers of a request.
pub open spec fn headers_of(h: Seq<(String, String)>) -> Seq<(Seq<char>, Seq<char>)> {
    h.map_values(|p: (String, String)| (p.0@, p.1@))
}

impl Request {
    /// Whether `self` is a plain `Get` of a path.
    pub open spec fn gets(self, base: Seq<char>, path: Seq<char>) -> bool {
        &&& self.method == Method::Get
        &&& self.url@ == base + path
        &&& headers_of(self.headers@) == Seq::<(Seq<char>, Seq<char>)>::empty()
        &&& self.body is None
    }

    /// Whether `self` is a `Post` of a body to a path.
    pub open spec fn posts(
        self,
        base: Seq<char>,
        path: Seq<char>,
        headers: Seq<(Seq<char>, Seq<char>)>,
        body: Option<Seq<char>>,
    ) -> bool {
        &&& self.method == Method::Post
        &&& self.url@ == base + path
        &&& headers_of(self.headers@) == headers
        &&& text::opt_text(self.body) == body
    }

    /// A `Get` of a path.
    pub fn get(base: &str, path: &str) -> (r: Self)
        ensures
            r.gets(base@, path@),
    {
        let headers: Vec<(String, String)> = Vec::new();
        assert(headers_of(headers@) =~= Seq::empty());
        Request { method: Method::Get, url: text::prefixed(base, path), headers, body: None }
    }

    /// A `Post` to a path.
    pub fn post(base: &str, path: &str, body: Option<String>) -> (r: Self)
        ensures
            r.posts(base@, path@, Seq::empty(), text::opt_text(body)),
    {
        let headers: Vec<(String, String)> = Vec::new();
        assert(headers_of(headers@) =~= Seq::empty());
        Request { method: Method::Post, url: text::prefixed(base, path), headers, body }
    }

    /// The request with one more header.
    pub fn with_header(self, name: &str, value: &str) -> (r: Self)
        ensures
            r == (Request { headers: r.headers, ..self }),
            headers_of(r.headers@) == headers_of(self.headers@).push((name@, value@)),
    {
        let ghost before = self.headers@;
        let mut r = self;
        r.headers.push((name.to_owned(), value.to_owned()));
        assert(headers_of(r.headers@) =~= headers_of(before).push((name@, value@)));
        r
    }
}

/// The body of a chat turn.
pub open spec fn chat_body(model: Seq<char>, message: Seq<char>) -> Seq<char> {
    "{\"messages\":[{\"content\":"@ + json::json_quoted(message)
        + ",\"role\":\"user\"}],\"model\":"@ + json::json_quoted(model) + ",\"stream\":false}"@
}

/// The body of a chat turn.
pub fn write_chat_body(model: &str, message: &str) -> (r: String)
    ensures
        r@ == chat_body(model@, message@),
{
    let mut out = "{\"messages\":[{\"content\":".to_owned();
    out.push_str(&json::quote(message));
    out.push_str(",\"role\":\"user\"}],\"model\":");
    out.push_str(&json::quote(model));
    out.push_str(",\"stream\":false}");
    out
}

/// The body that holds one text under a key.
pub fn one_text(key: &str, value: &str) -> (r: String)
    ensures
        r@ == "{"@ + json::json_quoted(key@) + ":"@ + json::json_quoted(value@) + "}"@,
{
    let mut out = "{".to_owned();
    out.push_str(&json::quote(key));
    out.push_str(":");
    out.push_str(&json::quote(value));
    out.push_str("}");
    out
}

/// The assistant's reply in the answer to a chat turn, where `found` is the text it
/// holds; nothing where it holds none.
pub fn reply_text(found: Option<String>) -> (r: String)
    ensures
        r@ == match found {
            Some(s) => s@,
            None => Seq::empty(),
        },
{
    match found {
        Some(s) => s,
        None => {
            let s = String::new();
            assert(s@ =~= Seq::empty());
            s
        },
    }
}

/// The assistant's reply in the answer to a chat turn; an answer that is not JSON is an
/// error.
pub fn chat_reply(answer: &str) -> (r: Result<String, String>)
    ensures
        match json::json_fault(answer@) {
            Some(e) => r matches Err(x) && x@ == e,
            None => r matches Ok(s) && s@ == match json::json_string_at(
                answer@,
                "/choices/0/message/content"@,
            ) {
                Some(t) => t,
                None => Seq::empty(),
            },
        },
{
    match json::check(answer) {
        Err(e) => Err(e),
        Ok(_) => Ok(reply_text(json::string_at(answer, "/choices/0/message/content"))),
    }
}

/// The count under a pointer of an answer, zero where there is none; an answer that is
/// no JSON object is an error.
pub fn count_in(answer: &str, pointer: &str) -> (r: Result<u64, String>)
    ensures
        match json::object_fault(answer@) {
            Some(e) => r matches Err(x) && x@ == e,
            None => r matches Ok(n) && n == match json::json_count_at(answer@, pointer@) {
                Some(k) => k,
                None => 0u64,
            },
        },
{
    match json::check_object(answer) {
        Err(e) => Err(e),
        Ok(_) => match json::count_at(answer, pointer) {
            Some(n) => Ok(n),
            None => Ok(0),
        },
    }
}

/// The flag under a pointer of an answer, false where there is none; an answer that is
/// no JSON object is an error.
pub fn flag_in(answer: &str, pointer: &str) -> (r: Result<bool, String>)
    ensures
        match json::object_fault(answer@) {
            Some(e) => r matches Err(x) && x@ == e,
            None => r matches Ok(b) && b == (json::json_flag_at(answer@, pointer@) == Some(true)),
        },
{
    match json::check_object(answer) {
        Err(e) => Err(e),
        Ok(_) => match json::flag_at(answer, pointer) {
            Some(b) => Ok(b),
            None => Ok(false),
        },
    }
}

} // verus!
