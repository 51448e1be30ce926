//! The command encoder: from an endpoint and a script path to the handshake
//! and the one text frame of a delivery.
//!
//! Encoding touches no network. The handshake is described in plain values
//! and also built as an `http` request, ready to be handed to the transport.
//! The script path is taken as text and put into the frame as it stands:
//! quotes and other special characters in it are not escaped.

use vstd::prelude::*;

verus! {

/// Requests of the `http` crate, carried through to the transport unread.
#[verifier::external_type_specification]
#[verifier::external_body]
#[verifier::reject_recursive_types(T)]
pub struct ExRequest<T>(http::Request<T>);

/// The `http` crate's error, told apart from success and nothing more.
#[verifier::external_type_specification]
#[verifier::external_body]
pub struct ExHttpError(http::Error);

/// The request header that names the sub-protocol.
pub const PROTOCOL_HEADER: &'static str = "Sec-WebSocket-Protocol";

/// The sub-protocol token that the remote host expects.
pub const BUS_PROTOCOL: &'static str = "bus.sp.nanomsg.org";

/// Whether the `http` crate builds a request for `uri` that carries the one
/// header `name: value`.
pub uninterp spec fn request_builds(uri: Seq<char>, name: Seq<char>, value: Seq<char>) -> bool;

/// Calls `http::Request::builder`, then `uri`, `header` and `body` on the
/// builder, with an empty body. The builder parses the three texts and
/// reports the first that it rejects; the contract claims only that whether
/// it succeeds is settled by the three texts.
#[verifier::external_body]
fn build_request(uri: &str, name: &str, value: &str) -> (built: Result<
    http::Request<()>,
    http::Error,
>)
    ensures
        built is Ok <==> request_builds(uri@, name@, value@),
{
    http::Request::builder().uri(uri).header(name, value).body(())
}

/// A script-load command: the script to load, named as it was configured.
#[derive(Debug)]
pub struct Command {
    pub script_identifier: String,
}

/// A connection-upgrade handshake in plain values.
#[derive(Debug)]
pub struct Handshake {
    /// Where the handshake is addressed.
    pub uri: String,
    /// The sub-protocol that it declares.
    pub protocol: String,
}

/// The mathematical content of a [`Handshake`].
pub struct HandshakeView {
    pub uri: Seq<char>,
    pub protocol: Seq<char>,
}

impl View for Handshake {
    type V = HandshakeView;

    open spec fn view(&self) -> HandshakeView {
        HandshakeView { uri: self.uri@, protocol: self.protocol@ }
    }
}

/// A command made ready to send.
#[derive(Debug)]
pub struct Encoded {
    /// What the handshake says.
    pub handshake: Handshake,
    /// The same handshake as a request of the `http` crate.
    pub request: http::Request<()>,
    /// The content of the single text frame.
    pub payload: String,
}

/// The mathematical content of an [`Encoded`] command: what its handshake
/// says and what its frame holds.
pub struct EncodedView {
    pub handshake: HandshakeView,
    pub payload: Seq<char>,
}

impl View for Encoded {
    type V = EncodedView;

    open spec fn view(&self) -> EncodedView {
        EncodedView { handshake: self.handshake@, payload: self.payload@ }
    }
}

/// Why a command could not be encoded.
#[derive(Clone, Copy, Debug, PartialEq, Eq, Structural)]
pub enum EncodeError {
    /// No handshake request can be addressed to the endpoint.
    InvalidTarget,
}

/// The frame for a script: the load statement with the path between double
/// quotes, a line feed, and a NUL that ends the statement.
pub open spec fn payload_text(script_path: Seq<char>) -> Seq<char> {
    "norns.script.load(\""@ + script_path + "\")\n\0"@
}

/// The handshake for an endpoint: addressed to it, declaring the bus
/// protocol.
pub open spec fn handshake_for(endpoint: Seq<char>) -> HandshakeView {
    HandshakeView { uri: endpoint, protocol: BUS_PROTOCOL@ }
}

/// Whether a handshake request can be addressed to `endpoint`.
pub open spec fn addressable(endpoint: Seq<char>) -> bool {
    request_builds(endpoint, PROTOCOL_HEADER@, BUS_PROTOCOL@)
}

/// The encoded command for a script at an endpoint.
pub open spec fn encoded_for(endpoint: Seq<char>, script_path: Seq<char>) -> EncodedView {
    EncodedView { handshake: handshake_for(endpoint), payload: payload_text(script_path) }
}

impl Command {
    /// The command that loads the script at `script_path`.
    pub fn load(script_path: &str) -> (command: Command)
        ensures
            command.script_identifier@ == script_path@,
    {
        Command { script_identifier: String::from_str(script_path) }
    }

    /// The text frame that carries the command.
    pub fn payload(&self) -> (payload: String)
        ensures
            payload@ == payload_text(self.script_identifier@),
    {
        let mut text = String::from_str("norns.script.load(\"");
        text.append(self.script_identifier.as_str());
        text.append("\")\n\0");
        text
    }
}

/// Puts an encoded command together from the request that was built for
/// `endpoint`, or reports that none could be built.
pub fn assemble(
    built: Result<http::Request<()>, http::Error>,
    endpoint: &str,
    command: &Command,
) -> (encoded: Result<Encoded, EncodeError>)
    ensures
        match encoded {
            Ok(ready) => {
                &&& built == Ok::<http::Request<()>, http::Error>(ready.request)
                &&& ready@ == encoded_for(endpoint@, command.script_identifier@)
            },
            Err(error) => built is Err && error == EncodeError::InvalidTarget,
        },
{
    match built {
        Ok(request) => Ok(
            Encoded {
                handshake: Handshake {
                    uri: String::from_str(endpoint),
                    protocol: String::from_str(BUS_PROTOCOL),
                },
                request,
                payload: command.payload(),
            },
        ),
        Err(_) => Err(EncodeError::InvalidTarget),
    }
}

/// Whether a handshake request can be addressed to `endpoint`.
pub fn can_address(endpoint: &str) -> (yes: bool)
    ensures
        yes == addressable(endpoint@),
{
    build_request(endpoint, PROTOCOL_HEADER, BUS_PROTOCOL).is_ok()
}

/// Encodes `command` for `endpoint`. Succeeds exactly when a handshake
/// request can be addressed to the endpoint; the handshake then goes to the
/// endpoint as given and declares the bus protocol, and the frame is the
/// load statement for the command's script.
pub fn encode(endpoint: &str, command: &Command) -> (encoded: Result<Encoded, EncodeError>)
    ensures
        match encoded {
            Ok(ready) => {
                &&& addressable(endpoint@)
                &&& ready@ == encoded_for(endpoint@, command.script_identifier@)
            },
            Err(error) => !addressable(endpoint@) && error == EncodeError::InvalidTarget,
        },
{
    let built = build_request(endpoint, PROTOCOL_HEADER, BUS_PROTOCOL);
    assemble(built, endpoint, command)
}

/// The frame, character by character: the nineteen characters of the load
/// statement up to and including the opening quote, the script path as it
/// stands, then a closing quote, a closing bracket, a line feed and one NUL.
pub proof fn lemma_payload_shape(script_path: Seq<char>)
    ensures
        ({
            let payload = payload_text(script_path);
            let n = script_path.len() as int;
            &&& payload.len() == n + 23
            &&& payload.subrange(0, 19) == "norns.script.load(\""@
            &&& payload.subrange(19, 19 + n) == script_path
            &&& payload[19 + n] == '"'
            &&& payload[20 + n] == ')'
            &&& payload[21 + n] == '\n'
            &&& payload[22 + n] == '\0'
        }),
{
    reveal_strlit("norns.script.load(\"");
    reveal_strlit("\")\n\0");
    let payload = payload_text(script_path);
    let n = script_path.len() as int;
    assert(payload.subrange(0, 19) =~= "norns.script.load(\""@);
    assert(payload.subrange(19, 19 + n) =~= script_path);
}

} // verus!
