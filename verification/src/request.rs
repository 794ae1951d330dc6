//! The request that creates a gist: the builder and the body it sends.

use vstd::prelude::*;
use vstd::string::StringExecFns;

verus! {

/// The JSON string literal that `serde_json` writes for `text`: the text in
/// double quotes, with the characters that JSON does not take as they are
/// escaped.
pub uninterp spec fn json_string(text: Seq<char>) -> Seq<char>;

/// `serde_json`'s rendering of `Value::String`: the JSON string literal for
/// `text`. The rendering depends on the text alone.
#[verifier::external_body]
fn json_quote(text: &str) -> (quoted: String)
    ensures
        quoted@ == json_string(text@),
{
    serde_json::Value::String(text.to_owned()).to_string()
}

/// What a creation request says, as mathematical values.
pub struct Request {
    pub username: Seq<char>,
    pub description: Seq<char>,
    pub public: bool,
}

/// The body of a creation request: who creates the gist, how it is
/// described, whether it is public, and the one placeholder file that it
/// starts with.
#[derive(Debug, Clone, PartialEq, Eq)]
pub struct RequestBody {
    pub user: String,
    pub description: String,
    pub public: bool,
    pub file_name: String,
    pub file_content: String,
}

/// The JSON word for a truth value.
pub open spec fn json_bool(value: bool) -> Seq<char> {
    if value {
        "true"@
    } else {
        "false"@
    }
}

/// The JSON document of a body: an object with the members `description`,
/// `files`, `public` and `user`, in the order of their names. `files` is an
/// object with the placeholder file's name as its one member, which holds
/// the `content`.
pub open spec fn body_json(
    user: Seq<char>,
    description: Seq<char>,
    public: bool,
    file_name: Seq<char>,
    file_content: Seq<char>,
) -> Seq<char> {
    "{\"description\":"@ + json_string(description) + ",\"files\":{"@ + json_string(file_name)
        + ":{\"content\":"@ + json_string(file_content) + "}},\"public\":"@ + json_bool(public)
        + ",\"user\":"@ + json_string(user) + "}"@
}

impl RequestBody {
    /// The body as a JSON document.
    pub fn to_json(&self) -> (json: String)
        ensures
            json@ == body_json(
                self.user@,
                self.description@,
                self.public,
                self.file_name@,
                self.file_content@,
            ),
    {
        let public = if self.public {
            "true"
        } else {
            "false"
        };
        let user = json_quote(self.user.as_str());
        let description = json_quote(self.description.as_str());
        let file_name = json_quote(self.file_name.as_str());
        let file_content = json_quote(self.file_content.as_str());
        String::from_str("{\"description\":").concat(description.as_str()).concat(
            ",\"files\":{",
        ).concat(file_name.as_str()).concat(":{\"content\":").concat(file_content.as_str()).concat(
            "}},\"public\":",
        ).concat(public).concat(",\"user\":").concat(user.as_str()).concat("}")
    }
}

/// Collects what a creation request says.
#[derive(Debug, Clone)]
pub struct ApiRequestBuilder {
    username: String,
    description: String,
    public: bool,
}

impl View for ApiRequestBuilder {
    type V = Request;

    closed spec fn view(&self) -> Request {
        Request {
            username: self.username@,
            description: self.description@,
            public: self.public,
        }
    }
}

impl ApiRequestBuilder {
    /// A builder for a secret gist of `username`, without a description.
    pub fn new(username: String) -> (builder: ApiRequestBuilder)
        ensures
            builder@ == (Request { username: username@, description: Seq::empty(), public: false }),
    {
        ApiRequestBuilder { username: username, description: String::new(), public: false }
    }

    /// Replaces the description and changes nothing else.
    pub fn with_description(&mut self, description: &str) -> (builder: &mut Self)
        ensures
            builder@ == (Request { description: description@, ..old(self)@ }),
            *final(self) == *final(builder),
    {
        self.description = String::from_str(description);
        self
    }

    /// Replaces the visibility and changes nothing else.
    pub fn with_public(&mut self, public: bool) -> (builder: &mut Self)
        ensures
            builder@ == (Request { public: public, ..old(self)@ }),
            *final(self) == *final(builder),
    {
        self.public = public;
        self
    }

    /// The body of the request collected so far, with the placeholder file
    /// `gistitfile` that says `Hello gistit`.
    pub fn get_body(&self) -> (body: RequestBody)
        ensures
            body.user@ == self@.username,
            body.description@ == self@.description,
            body.public == self@.public,
            body.file_name@ == "gistitfile"@,
            body.file_content@ == "Hello gistit"@,
    {
        RequestBody {
            user: self.username.clone(),
            description: self.description.clone(),
            public: self.public,
            file_name: String::from_str("gistitfile"),
            file_content: String::from_str("Hello gistit"),
        }
    }
}

} // verus!
