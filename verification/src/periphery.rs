//! The agent protocol as the controller speaks it: which request goes
//! where, and what an answer means.

use vstd::prelude::*;
use crate::resources::Server;
use crate::text::{join2, owned};

verus! {

/// The text that `reqwest::StatusCode`'s `Display` gives for the status
/// with this code: the code and its canonical reason.
pub uninterp spec fn status_line(code: u16) -> Seq<char>;

/// The text that `Debug` formatting in its pretty form gives for a string:
/// the string in quotes, with what needs it escaped.
pub uninterp spec fn quoted(text: Seq<char>) -> Seq<char>;

/// How a request is made.
#[derive(Clone, Copy, Debug, PartialEq, Eq, Structural, Hash)]
pub enum Method {
    Get,
    Post,
}

/// A status code of a response, from 100 to 999.
#[derive(Clone, Copy, Debug, PartialEq, Eq)]
pub struct Status {
    code: u16,
}

/// A request to an agent, ready to send.
#[derive(Debug, PartialEq, Eq)]
pub struct Request {
    pub method: Method,
    pub url: String,
}

/// What came back for a request.
#[derive(Debug, PartialEq, Eq)]
pub enum Response {
    /// The request did not get through; this is why.
    Unreachable(String),
    /// The agent answered with this status; the body is its text, or the
    /// reason why it could not be read.
    Answered(Status, Result<String, String>),
}

/// Why a request to an agent failed.
#[derive(Debug, PartialEq, Eq)]
pub enum PeripheryError {
    /// The agent of this server could not be reached.
    Unreachable { method: Method, server: String, cause: String },
    /// The agent of this server answered with an error status and this text.
    Rejected { server: String, status: Status, error: String },
    /// The agent answered with an error status, and its text could not be
    /// read.
    ErrorText { status: Status, cause: String },
    /// The agent answered with success, and its answer could not be read.
    Payload { cause: String },
}

impl Method {
    /// The method as messages name it.
    pub open spec fn name_spec(self) -> Seq<char> {
        match self {
            Method::Get => "get"@,
            Method::Post => "post"@,
        }
    }

    /// The method as messages name it.
    pub fn name(&self) -> (name: &'static str)
        ensures
            name@ == self.name_spec(),
    {
        match self {
            Method::Get => "get",
            Method::Post => "post",
        }
    }
}

impl Status {
    #[verifier::type_invariant]
    pub closed spec fn wf(self) -> bool {
        100 <= self.code <= 999
    }

    /// The code of the status.
    pub closed spec fn spec_code(self) -> u16 {
        self.code
    }

    /// The status says that the request succeeded: its code is 200.
    pub open spec fn spec_is_ok(self) -> bool {
        self.spec_code() == 200
    }

    /// The status with this code, if the code is one: from 100 to 999.
    pub fn new(code: u16) -> (status: Option<Status>)
        ensures
            status.is_some() <==> 100 <= code <= 999,
            status.is_some() ==> status.unwrap().spec_code() == code,
    {
        if 100 <= code && code <= 999 {
            Some(Status { code })
        } else {
            None
        }
    }

    /// The code of the status.
    pub fn code(&self) -> (code: u16)
        ensures
            code == self.spec_code(),
            100 <= code <= 999,
    {
        proof {
            use_type_invariant(self);
        }
        self.code
    }

    /// Whether the status says that the request succeeded.
    pub fn is_ok(&self) -> (ok: bool)
        ensures
            ok == self.spec_is_ok(),
    {
        self.code == 200
    }

    /// The status as messages write it: the code and its canonical reason.
    pub fn text(&self) -> (text: String)
        ensures
            text@ == status_line(self.spec_code()),
    {
        proof {
            use_type_invariant(self);
        }
        match format_status(self.code) {
            Some(text) => text,
            None => String::new(),
        }
    }
}

/// Makes a `reqwest::StatusCode` with `StatusCode::from_u16` and writes it
/// with its `Display` impl. `from_u16` takes the codes from 100 to 999 and
/// no others; the text is a function of the code alone.
#[verifier::external_body]
fn format_status(code: u16) -> (text: Option<String>)
    ensures
        text.is_some() <==> 100 <= code <= 999,
        text.is_some() ==> text.unwrap()@ == status_line(code),
{
    match reqwest::StatusCode::from_u16(code) {
        Ok(status) => Some(status.to_string()),
        Err(_) => None,
    }
}

/// Writes a string with `Debug` formatting in its pretty form, as
/// `format!("{:#?}", ..)` does. The text is a function of the string alone.
#[verifier::external_body]
fn format_quoted(text: &str) -> (written: String)
    ensures
        written@ == quoted(text@),
{
    format!("{:#?}", text)
}

impl PeripheryError {
    /// The agent could not be reached at all, as opposed to having answered
    /// with an error.
    pub open spec fn spec_is_unreachable(self) -> bool {
        self is Unreachable
    }

    /// Whether the agent could not be reached at all.
    pub fn is_unreachable(&self) -> (unreachable: bool)
        ensures
            unreachable == self.spec_is_unreachable(),
    {
        match self {
            PeripheryError::Unreachable { .. } => true,
            _ => false,
        }
    }

    /// The failure in words.
    pub open spec fn message_spec(self) -> Seq<char> {
        match self {
            PeripheryError::Unreachable { method, server, cause } => "failed at "@
                + method.name_spec() + " request to server "@ + server@ + " | not reachable: "@
                + cause@,
            PeripheryError::Rejected { server, status, error } => "failed at request to server "@
                + server@ + " | status: "@ + status_line(status.spec_code()) + " | error: "@
                + quoted(error@),
            PeripheryError::ErrorText { status, cause } =>
                "failed at getting error text | status: "@ + status_line(status.spec_code())
                    + ": "@ + cause@,
            PeripheryError::Payload { cause } => "failed at parsing response: "@ + cause@,
        }
    }

    /// The failure in words.
    pub fn message(&self) -> (text: String)
        ensures
            text@ == self.message_spec(),
    {
        match self {
            PeripheryError::Unreachable { method, server, cause } => {
                let mut text = owned("failed at ");
                text.append(method.name());
                text.append(" request to server ");
                text.append(server.as_str());
                text.append(" | not reachable: ");
                text.append(cause.as_str());
                text
            },
            PeripheryError::Rejected { server, status, error } => {
                let line = status.text();
                let written = format_quoted(error.as_str());
                let mut text = owned("failed at request to server ");
                text.append(server.as_str());
                text.append(" | status: ");
                text.append(line.as_str());
                text.append(" | error: ");
                text.append(written.as_str());
                text
            },
            PeripheryError::ErrorText { status, cause } => {
                let line = status.text();
                let mut text = owned("failed at getting error text | status: ");
                text.append(line.as_str());
                text.append(": ");
                text.append(cause.as_str());
                text
            },
            PeripheryError::Payload { cause } => join2(
                "failed at parsing response: ",
                cause.as_str(),
            ),
        }
    }
}

/// What an answer means for a request made with `method` to the agent of
/// the server called `server`: the body if the status is 200 and the body
/// could be read, and else the failure.
pub open spec fn reading(method: Method, server: String, response: Response) -> Result<
    String,
    PeripheryError,
> {
    match response {
        Response::Unreachable(cause) => Err(PeripheryError::Unreachable { method, server, cause }),
        Response::Answered(status, body) => if status.spec_is_ok() {
            match body {
                Ok(text) => Ok(text),
                Err(cause) => Err(PeripheryError::Payload { cause }),
            }
        } else {
            match body {
                Ok(error) => Err(PeripheryError::Rejected { server, status, error }),
                Err(cause) => Err(PeripheryError::ErrorText { status, cause }),
            }
        },
    }
}

/// The address of `endpoint` on the agent of `server`: the agent's address
/// with the endpoint written after it.
pub fn endpoint_url(server: &Server, endpoint: &str) -> (url: String)
    ensures
        url@ == server.address@ + endpoint@,
{
    join2(server.address.as_str(), endpoint)
}

/// The request that asks the agent of `server` for what is at `endpoint`.
pub fn get(server: &Server, endpoint: &str) -> (request: Request)
    ensures
        request.method == Method::Get,
        request.url@ == server.address@ + endpoint@,
{
    Request { method: Method::Get, url: endpoint_url(server, endpoint) }
}

/// The request that has the agent of `server` act at `endpoint`; its body
/// is the caller's to add.
pub fn post(server: &Server, endpoint: &str) -> (request: Request)
    ensures
        request.method == Method::Post,
        request.url@ == server.address@ + endpoint@,
{
    Request { method: Method::Post, url: endpoint_url(server, endpoint) }
}

/// The request that asks the agent of `server` whether it is up.
pub fn health_check(server: &Server) -> (request: Request)
    ensures
        request.method == Method::Get,
        request.url@ == server.address@ + "health"@,
{
    get(server, "health")
}

/// The request that asks the agent of `server` for its GitHub accounts.
pub fn get_github_accounts(server: &Server) -> (request: Request)
    ensures
        request.method == Method::Get,
        request.url@ == server.address@ + "/accounts/github"@,
{
    get(server, "/accounts/github")
}

/// The request that asks the agent of `server` for its Docker accounts.
pub fn get_docker_accounts(server: &Server) -> (request: Request)
    ensures
        request.method == Method::Get,
        request.url@ == server.address@ + "/accounts/docker"@,
{
    get(server, "/accounts/docker")
}

/// Reads what came back for a request made with `method` to the agent of
/// `server`: the body if the status is 200 and the body could be read, else
/// the failure, which tells an agent that was not reached from one that
/// answered with an error.
pub fn read_response(method: Method, server: &Server, response: Response) -> (result: Result<
    String,
    PeripheryError,
>)
    ensures
        result == reading(method, server.name, response),
{
    match response {
        Response::Unreachable(cause) => Err(
            PeripheryError::Unreachable { method, server: server.name.clone(), cause },
        ),
        Response::Answered(status, body) => {
            if status.is_ok() {
                match body {
                    Ok(text) => Ok(text),
                    Err(cause) => Err(PeripheryError::Payload { cause }),
                }
            } else {
                match body {
                    Ok(error) => Err(
                        PeripheryError::Rejected { server: server.name.clone(), status, error },
                    ),
                    Err(cause) => Err(PeripheryError::ErrorText { status, cause }),
                }
            }
        },
    }
}

/// A request fails as unreachable exactly when it did not get through: an
/// answer, whatever its status, never does.
pub proof fn unreachable_is_told_apart(method: Method, server: String, response: Response)
    ensures
        (reading(method, server, response) matches Err(error) && error.spec_is_unreachable())
            <==> response is Unreachable,
        reading(method, server, response) is Ok <==> (response matches Response::Answered(
            status,
            body,
        ) && status.spec_is_ok() && body is Ok),
{
}

} // verus!
