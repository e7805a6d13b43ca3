//! The exchange with the daemon about the start of a container: the command
//! that is sent, the answers that can come back, and the failure that each
//! answer stands for.

use vstd::prelude::*;
use crate::error::{DockerTestError, ErrorView};

verus! {

#[verifier::external_type_specification]
#[verifier::external_body]
pub struct ExDaemonError(bollard::errors::Error);

/// What `serde_json` makes of the text `payload`, reduced to the one member
/// that is asked for.
///
/// `Err(text)` where `payload` is no JSON document, `text` being the
/// description that `serde_json` gives of the fault. Otherwise `Ok(member)`:
/// `Some(s)` where the document is an object whose member `key` is the string
/// `s`, and `None` in every other case (no object, no such member, a member
/// that is no string).
pub uninterp spec fn json_string_member(payload: Seq<char>, key: Seq<char>) -> Result<
    Option<Seq<char>>,
    Seq<char>,
>;

/// The characters of a decoded member, or of the description of the fault.
pub open spec fn decoded_view(decoded: Result<Option<String>, String>) -> Result<
    Option<Seq<char>>,
    Seq<char>,
> {
    match decoded {
        Ok(Some(member)) => Ok(Some(member@)),
        Ok(None) => Ok(None),
        Err(text) => Err(text@),
    }
}

/// Parses `payload` with `serde_json::from_str` into a `serde_json::Value`,
/// indexes the value by `key` and reads the member with `Value::as_str`; a
/// parse error is handed back as its `Display` text. Trusted: the result is
/// what [`json_string_member`] names, a function of the two texts alone.
#[verifier::external_body]
fn decode_string_member(payload: &str, key: &str) -> (decoded: Result<Option<String>, String>)
    ensures
        decoded_view(decoded) == json_string_member(payload@, key@),
{
    match serde_json::from_str::<serde_json::Value>(payload) {
        Ok(document) => Ok(document[key].as_str().map(String::from)),
        Err(fault) => Err(fault.to_string()),
    }
}

/// The error body of a "not found" response: the `message` that the variant
/// `DockerResponseNotFoundError` of `bollard::errors::Error` carries, and
/// `None` for every other variant.
pub uninterp spec fn not_found_payload(error: bollard::errors::Error) -> Option<Seq<char>>;

/// Tells the variant `DockerResponseNotFoundError` of `bollard::errors::Error`
/// from all others, and hands out a copy of the body that it carries.
/// Trusted: the result is what [`not_found_payload`] names, a function of the
/// error alone.
#[verifier::external_body]
fn not_found_body(error: &bollard::errors::Error) -> (body: Option<String>)
    ensures
        match not_found_payload(*error) {
            Some(payload) => body matches Some(b) && b@ == payload,
            None => body is None,
        },
{
    match error {
        bollard::errors::Error::DockerResponseNotFoundError { message } => Some(message.clone()),
        _ => None,
    }
}

/// What can go with a start command beside the name of the container.
#[derive(Debug)]
pub struct StartOptions {
    /// The key sequence that detaches from the container.
    pub detach_keys: String,
}

/// The command that asks the daemon to start a container.
#[derive(Debug)]
pub struct StartCommand<'a> {
    /// The name by which the container is addressed.
    pub name: &'a str,
    /// The options of this one call, if it has any.
    pub options: Option<StartOptions>,
}

/// The daemon's answer to the command that starts a container.
#[derive(Debug)]
pub enum StartReply {
    /// The daemon acknowledged the command.
    Started,
    /// The daemon does not know the container; `message` is the cause that
    /// its error body names.
    NotFound { message: String },
    /// The daemon does not know the container, and its error body is no JSON;
    /// `reason` says why it could not be decoded.
    Undecodable { reason: String },
    /// The daemon does not know the container, and its error body is JSON that
    /// names no cause; `body` is that body as it came.
    Unexplained { body: String },
    /// Any other failure; `reason` is the daemon's own message.
    Failed { reason: String },
}

/// A [`StartReply`] with its texts as sequences of characters.
pub enum StartReplyView {
    Started,
    NotFound { message: Seq<char> },
    Undecodable { reason: Seq<char> },
    Unexplained { body: Seq<char> },
    Failed { reason: Seq<char> },
}

impl View for StartReply {
    type V = StartReplyView;

    open spec fn view(&self) -> StartReplyView {
        match self {
            StartReply::Started => StartReplyView::Started,
            StartReply::NotFound { message } => StartReplyView::NotFound { message: message@ },
            StartReply::Undecodable { reason } => StartReplyView::Undecodable { reason: reason@ },
            StartReply::Unexplained { body } => StartReplyView::Unexplained { body: body@ },
            StartReply::Failed { reason } => StartReplyView::Failed { reason: reason@ },
        }
    }
}

/// The text of the error for a container that the daemon does not know.
pub open spec fn startup_text(message: Seq<char>) -> Seq<char> {
    "failed to start container due to `"@ + message + "`"@
}

/// The text of the error for an error body that is no JSON.
pub open spec fn undecodable_text(reason: Seq<char>) -> Seq<char> {
    "daemon json response decode failure: "@ + reason
}

/// The text of the error for an error body that is JSON and names no cause.
pub open spec fn unexplained_text(body: Seq<char>) -> Seq<char> {
    "daemon json response without a message: "@ + body
}

/// The text of the error for any other failure of the start command.
pub open spec fn failed_text(reason: Seq<char>) -> Seq<char> {
    "failed to start container: "@ + reason
}

impl StartReplyView {
    /// The error that this answer surfaces; `None` for an acknowledged start.
    pub open spec fn failure(self) -> Option<ErrorView> {
        match self {
            StartReplyView::Started => None,
            StartReplyView::NotFound { message } => Some(ErrorView::Startup(startup_text(message))),
            StartReplyView::Undecodable { reason } => Some(
                ErrorView::Daemon(undecodable_text(reason)),
            ),
            StartReplyView::Unexplained { body } => Some(
                ErrorView::Daemon(unexplained_text(body)),
            ),
            StartReplyView::Failed { reason } => Some(ErrorView::Daemon(failed_text(reason))),
        }
    }

    /// The answer that a "not found" response stands for whose error body
    /// `body` decodes to `decoded`.
    pub open spec fn of_decoded(
        body: Seq<char>,
        decoded: Result<Option<Seq<char>>, Seq<char>>,
    ) -> StartReplyView {
        match decoded {
            Ok(Some(message)) => StartReplyView::NotFound { message },
            Ok(None) => StartReplyView::Unexplained { body },
            Err(reason) => StartReplyView::Undecodable { reason },
        }
    }

    /// The answer that a "not found" response with the error body `payload`
    /// stands for.
    pub open spec fn of_not_found(payload: Seq<char>) -> StartReplyView {
        Self::of_decoded(payload, json_string_member(payload, "message"@))
    }
}

/// `prefix` followed by `text`.
fn prefixed(prefix: &str, text: &str) -> (joined: String)
    ensures
        joined@ == prefix@ + text@,
{
    let mut joined = String::from_str(prefix);
    joined.append(text);
    joined
}

impl StartReply {
    /// The answer that a "not found" response stands for whose error body
    /// `body` decodes to `decoded`.
    ///
    /// `decoded` is `Ok(Some(message))` for a body that names a cause,
    /// `Err(reason)` for a body that is no JSON, and `Ok(None)` for a JSON body
    /// without a message.
    pub fn from_decoded(body: &str, decoded: Result<Option<String>, String>) -> (reply: StartReply)
        ensures
            reply@ == StartReplyView::of_decoded(body@, decoded_view(decoded)),
    {
        match decoded {
            Ok(Some(message)) => StartReply::NotFound { message },
            Ok(None) => StartReply::Unexplained { body: String::from_str(body) },
            Err(reason) => StartReply::Undecodable { reason },
        }
    }

    /// The answer that a "not found" response with the error body `payload`
    /// stands for: the body is decoded as JSON and its member `message` read.
    pub fn not_found(payload: &str) -> (reply: StartReply)
        ensures
            reply@ == StartReplyView::of_not_found(payload@),
    {
        StartReply::from_decoded(payload, decode_string_member(payload, "message"))
    }

    /// The answer that a failed start command stands for. `body` is the error
    /// body of a "not found" response, and `None` for every other failure;
    /// `text` is the description that the daemon client gives of the failure.
    pub fn from_failure(body: Option<String>, text: String) -> (reply: StartReply)
        ensures
            reply@ == match body {
                Some(payload) => StartReplyView::of_not_found(payload@),
                None => StartReplyView::Failed { reason: text@ },
            },
    {
        match body {
            Some(payload) => StartReply::not_found(payload.as_str()),
            None => StartReply::Failed { reason: text },
        }
    }

    /// The answer that the outcome of the daemon client's start call stands
    /// for: [`StartReply::Started`] for `Ok`; for a "not found" error what its
    /// body decodes to; for every other error [`StartReply::Failed`] with the
    /// text that the error displays.
    pub fn from_daemon(outcome: Result<(), bollard::errors::Error>) -> (reply: StartReply)
        ensures
            outcome is Ok ==> reply@ == StartReplyView::Started,
            outcome matches Err(error) ==> match not_found_payload(error) {
                Some(payload) => reply@ == StartReplyView::of_not_found(payload),
                None => exists|text: String|
                    vstd::string::to_string_from_display_ensures::<bollard::errors::Error>(
                        &error,
                        text,
                    ) && reply@ == (StartReplyView::Failed { reason: text@ }),
            },
    {
        match outcome {
            Ok(()) => StartReply::Started,
            Err(error) => StartReply::from_failure(not_found_body(&error), error.to_string()),
        }
    }

    /// The error that this answer surfaces; `None` for an acknowledged start.
    pub fn failure(&self) -> (failure: Option<DockerTestError>)
        ensures
            match self@.failure() {
                Some(view) => failure matches Some(e) && e@ == view,
                None => failure is None,
            },
    {
        match self {
            StartReply::Started => None,
            StartReply::NotFound { message } => {
                let mut text = prefixed("failed to start container due to `", message.as_str());
                text.append("`");
                Some(DockerTestError::Startup(text))
            },
            StartReply::Undecodable { reason } => Some(
                DockerTestError::Daemon(
                    prefixed("daemon json response decode failure: ", reason.as_str()),
                ),
            ),
            StartReply::Unexplained { body } => Some(
                DockerTestError::Daemon(
                    prefixed("daemon json response without a message: ", body.as_str()),
                ),
            ),
            StartReply::Failed { reason } => Some(
                DockerTestError::Daemon(prefixed("failed to start container: ", reason.as_str())),
            ),
        }
    }
}

} // verus!
