//! The server-sent event stream: the channel that telemetry events are
//! handed to, the frames the clients receive, and the test a client's
//! request passes before it is subscribed.
use vstd::prelude::*;

use std::sync::mpsc::Sender;

use crate::auth::AuthMode;
use crate::observability::{bearer_equals, opt_view, spec_bearer_equals};
use crate::text::{
    chars_of, eq_ignore_case, find_char_in_span, find_from, str_eq_ignore_case, trim, trim_str,
};

verus! {

broadcast use vstd::string::group_string_axioms;

/// `std::sync::mpsc::Sender`, the sending half of a channel.
#[verifier::external_type_specification]
#[verifier::external_body]
#[verifier::reject_recursive_types(T)]
pub struct ExSender<T>(Sender<T>);

/// `Sender::send`. The message is handed to the channel unless the
/// receiving half is gone; which of the two happened is not reported, as
/// the stream drops events that nobody reads.
#[verifier::external_body]
fn send_string(sender: &Sender<String>, message: String) {
    let _ = sender.send(message);
}

/// Where telemetry events are published for the stream's clients.
pub struct EventStreamOutput {
    sender: Sender<String>,
}

impl EventStreamOutput {
    /// The sending half of the channel that the output publishes into.
    pub closed spec fn channel(&self) -> Sender<String> {
        self.sender
    }

    /// An output that publishes into the channel of `sender`.
    pub fn new(sender: Sender<String>) -> (r: EventStreamOutput)
        ensures
            r.channel() == sender,
    {
        EventStreamOutput { sender }
    }

    /// Publishes one event, already encoded as JSON.
    pub fn emit(&self, body: String) {
        send_string(&self.sender, body);
    }
}

/// The frame a client receives for an event: a `telemetry` event whose
/// data line is the event.
pub open spec fn spec_sse_frame(event: Seq<char>) -> Seq<char> {
    "event: telemetry\ndata: "@ + event + "\n\n"@
}

pub fn sse_frame(event: &str) -> (r: String)
    ensures
        r@ == spec_sse_frame(event@),
{
    let mut out = "event: telemetry\ndata: ".to_owned();
    out.append(event);
    out.append("\n\n");
    out
}

/// The value of a header line when its name is `authorization` (in any
/// ASCII case): what follows the first `:`, trimmed.
pub open spec fn spec_authorization_value(line: Seq<char>) -> Option<Seq<char>> {
    let j = find_from(line, ':', 0);
    if j < line.len() && eq_ignore_case(line.subrange(0, j), "authorization"@) {
        Some(trim(line.subrange(j + 1, line.len() as int)))
    } else {
        None
    }
}

/// Reads one header line of a subscribing client: the authorization
/// value it carries, if any.
pub fn authorization_value(line: &str) -> (r: Option<String>)
    ensures
        match r {
            Some(v) => spec_authorization_value(line@) == Some(v@),
            None => spec_authorization_value(line@) is None,
        },
{
    let v = chars_of(line);
    let n = v.len();
    let j = find_char_in_span(&v, 0, n, ':');
    assert(v@.subrange(0, n as int) =~= v@);
    if j < n {
        let name = line.substring_char(0, j);
        if str_eq_ignore_case(name, "authorization") {
            let rest = line.substring_char(j + 1, n);
            return Some(trim_str(rest).to_owned());
        }
    }
    None
}

/// Whether a client may subscribe, by the same bearer rule as the HTTP
/// endpoint: always in local mode; in token mode when its header is
/// `Bearer <token>` with the shared token, in EVRUS mode with the JWT. A
/// missing header, or a missing token or JWT, never lets a client in.
pub open spec fn spec_client_allowed(
    mode: AuthMode,
    token_secret: Option<Seq<char>>,
    evrus_jwt: Option<Seq<char>>,
    auth_header: Option<Seq<char>>,
) -> bool {
    match mode {
        AuthMode::Local => true,
        AuthMode::Token => spec_bearer_equals(auth_header, token_secret),
        AuthMode::Evrus => spec_bearer_equals(auth_header, evrus_jwt),
    }
}

pub fn client_allowed(
    mode: AuthMode,
    token_secret: Option<&str>,
    evrus_jwt: Option<&str>,
    auth_header: Option<&str>,
) -> (r: bool)
    ensures
        r == spec_client_allowed(
            mode,
            opt_view(token_secret),
            opt_view(evrus_jwt),
            opt_view(auth_header),
        ),
{
    match mode {
        AuthMode::Local => true,
        AuthMode::Token => bearer_equals(auth_header, token_secret),
        AuthMode::Evrus => bearer_equals(auth_header, evrus_jwt),
    }
}

/// In token mode a client is subscribed exactly when it presents
/// `Bearer <token>` with the shared token, so presenting it is always
/// enough; without a shared token, or without a header, nobody is.
pub proof fn law_token_clients_present_the_token(
    token: Seq<char>,
    jwt: Option<Seq<char>>,
    header: Option<Seq<char>>,
)
    ensures
        spec_client_allowed(AuthMode::Token, Some(token), jwt, header) <==> header == Some(
            "Bearer "@ + token,
        ),
        spec_client_allowed(AuthMode::Token, Some(token), jwt, Some("Bearer "@ + token)),
        !spec_client_allowed(AuthMode::Token, None, jwt, header),
        !spec_client_allowed(AuthMode::Token, Some(token), jwt, None),
        !spec_client_allowed(AuthMode::Evrus, Some(token), None, header),
{
    let p = "Bearer "@;
    let h = p + token;
    assert(h.subrange(0, p.len() as int) =~= p);
    assert(h.subrange(p.len() as int, h.len() as int) =~= token);
    if let Some(x) = header {
        if spec_client_allowed(AuthMode::Token, Some(token), jwt, header) {
            assert(x =~= x.subrange(0, p.len() as int) + x.subrange(p.len() as int, x.len() as int));
        }
    }
}

} // verus!
