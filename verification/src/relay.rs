use crate::errors::Error;
use crate::text::dec_chars;
use crate::text::json_escape;
use crate::text::json_escaped;
use crate::text::u64_to_dec;
use vstd::prelude::*;
use vstd::string::StringExecFns;

verus! {

/// Transfer role in the relay session.
#[derive(Debug, Clone, Copy, PartialEq, Eq, Structural)]
pub enum TransferRole {
    Sender,
    Receiver,
}

impl TransferRole {
    /// The wire spelling of this role.
    pub open spec fn spec_label(&self) -> Seq<char> {
        match self {
            TransferRole::Sender => "sender"@,
            TransferRole::Receiver => "receiver"@,
        }
    }

    /// The literal string the handshake line carries for this role.
    pub fn as_str(&self) -> (r: &str)
        ensures
            r@ == self.spec_label(),
    {
        match self {
            TransferRole::Sender => "sender",
            TransferRole::Receiver => "receiver",
        }
    }
}

/// The metadata of one paired transfer attempt.
///
/// The relay assigns the session id; the optional fields are the sender's
/// declared metadata, which the relay reports only to the receiver. Well-
/// formedness is the session invariant: a sender-role session carries no
/// metadata, a receiver-role session carries the four required fields
/// (the content hash is the extended protocol variant's extra field).
pub struct TransferSession {
    pub session_id: String,
    pub role: TransferRole,
    pub filename: Option<String>,
    pub file_size: Option<u64>,
    pub signature: Option<String>,
    pub sender_fp: Option<String>,
    pub file_hash: Option<String>,
}

impl TransferSession {
    /// The session invariant tied to the role.
    pub open spec fn wf(&self) -> bool {
        match self.role {
            TransferRole::Sender => self.filename is None && self.file_size is None
                && self.signature is None && self.sender_fp is None && self.file_hash is None,
            TransferRole::Receiver => self.filename is Some && self.file_size is Some
                && self.signature is Some && self.sender_fp is Some,
        }
    }

    pub open spec fn spec_session_id(&self) -> Seq<char> {
        self.session_id@
    }

    pub open spec fn spec_role(&self) -> TransferRole {
        self.role
    }

    /// A sender-role session: the sender knows its own metadata locally, so
    /// none is carried.
    pub fn sender_session(session_id: String) -> (r: TransferSession)
        ensures
            r.wf(),
            r.spec_role() == TransferRole::Sender,
            r.spec_session_id() == session_id@,
    {
        TransferSession {
            session_id,
            role: TransferRole::Sender,
            filename: None,
            file_size: None,
            signature: None,
            sender_fp: None,
            file_hash: None,
        }
    }

    /// A receiver-role session from the fields of a relay `listen` response.
    ///
    /// Succeeds exactly when the four required metadata fields are present;
    /// a missing field is a malformed response and fails with `InvalidInput`
    /// naming it. The content hash stays optional.
    pub fn receiver_session(
        session_id: String,
        filename: Option<String>,
        file_size: Option<u64>,
        signature: Option<String>,
        sender_fp: Option<String>,
        file_hash: Option<String>,
    ) -> (r: Result<TransferSession, Error>)
        ensures
            r is Ok <==> filename is Some && file_size is Some && signature is Some
                && sender_fp is Some,
            r is Err ==> r->Err_0 is InvalidInput,
            r matches Ok(s) ==> s.wf() && s.spec_role() == TransferRole::Receiver
                && s.spec_session_id() == session_id@ && s.filename == filename && s.file_size
                == file_size && s.signature == signature && s.sender_fp == sender_fp
                && s.file_hash == file_hash,
    {
        if filename.is_none() {
            return Err(Error::InvalidInput(String::from_str("No filename in session")));
        }
        if file_size.is_none() {
            return Err(Error::InvalidInput(String::from_str("No file size in session")));
        }
        if signature.is_none() {
            return Err(Error::InvalidInput(String::from_str("No signature in session")));
        }
        if sender_fp.is_none() {
            return Err(Error::InvalidInput(String::from_str("No sender fingerprint in session")));
        }
        Ok(
            TransferSession {
                session_id,
                role: TransferRole::Receiver,
                filename,
                file_size,
                signature,
                sender_fp,
                file_hash,
            },
        )
    }

    /// Get the session ID.
    pub fn session_id(&self) -> (r: &str)
        ensures
            r@ == self.spec_session_id(),
    {
        self.session_id.as_str()
    }

    /// Get the transfer role.
    pub fn role(&self) -> (r: TransferRole)
        ensures
            r == self.spec_role(),
    {
        self.role
    }
}

/// Client for one relay deployment: the HTTP base URL used for the two
/// negotiation calls and the endpoint of the proxied socket. Immutable after
/// construction and stateless across calls.
pub struct RelayClient {
    pub http_base_url: String,
    pub socket_host: String,
    pub socket_port: u16,
}

impl RelayClient {
    pub open spec fn spec_http_base_url(&self) -> Seq<char> {
        self.http_base_url@
    }

    pub open spec fn spec_socket_host(&self) -> Seq<char> {
        self.socket_host@
    }

    pub open spec fn spec_socket_port(&self) -> u16 {
        self.socket_port
    }

    /// Create a new relay client.
    pub fn new(http_base_url: String, socket_host: String, socket_port: u16) -> (r: RelayClient)
        ensures
            r.spec_http_base_url() == http_base_url@,
            r.spec_socket_host() == socket_host@,
            r.spec_socket_port() == socket_port,
    {
        RelayClient { http_base_url, socket_host, socket_port }
    }

    /// The URL the sender-side negotiation posts to.
    pub fn serve_url(&self) -> (r: String)
        ensures
            r@ == self.spec_http_base_url() + "/api/relay/serve"@,
    {
        String::from_str(self.http_base_url.as_str()).concat("/api/relay/serve")
    }

    /// The URL the receiver-side negotiation posts to.
    pub fn listen_url(&self) -> (r: String)
        ensures
            r@ == self.spec_http_base_url() + "/api/relay/listen"@,
    {
        String::from_str(self.http_base_url.as_str()).concat("/api/relay/listen")
    }

    /// The `host:port` address of the relay's socket endpoint.
    pub fn socket_addr(&self) -> (r: String)
        ensures
            r@ == self.spec_socket_host() + seq![':'] + dec_chars(self.spec_socket_port() as int),
    {
        let port = u64_to_dec(self.socket_port as u64);
        let r = String::from_str(self.socket_host.as_str()).concat(":").concat(port.as_str());
        proof {
            reveal_strlit(":");
            assert(self.socket_host@ + ":"@ + dec_chars(self.socket_port as int)
                =~= self.socket_host@ + seq![':'] + dec_chars(self.socket_port as int));
        }
        r
    }

    /// The socket port, for callers that dial the socket themselves.
    pub fn socket_port(&self) -> (r: u16)
        ensures
            r == self.spec_socket_port(),
    {
        self.socket_port
    }
}

/// The JSON body of the sender's negotiation request, exactly as it goes on
/// the wire.
pub open spec fn serve_request_body_chars(
    sender_fp: Seq<char>,
    receiver_fp: Seq<char>,
    filename: Seq<char>,
    file_size: int,
    signature: Seq<char>,
    file_hash: Seq<char>,
) -> Seq<char> {
    "{\"senderFp\":\""@ + json_escaped(sender_fp) + "\",\"receiverFp\":\""@ + json_escaped(
        receiver_fp,
    ) + "\",\"filename\":\""@ + json_escaped(filename) + "\",\"fileSize\":"@ + dec_chars(file_size)
        + ",\"signature\":\""@ + json_escaped(signature) + "\",\"fileHash\":\""@ + json_escaped(
        file_hash,
    ) + "\"}"@
}

/// Builds the JSON body of the sender's negotiation request.
pub fn serve_request_body(
    sender_fp: &str,
    receiver_fp: &str,
    filename: &str,
    file_size: u64,
    signature: &str,
    file_hash: &str,
) -> (r: String)
    ensures
        r@ == serve_request_body_chars(
            sender_fp@,
            receiver_fp@,
            filename@,
            file_size as int,
            signature@,
            file_hash@,
        ),
{
    let size = u64_to_dec(file_size);
    String::from_str("{\"senderFp\":\"").concat(json_escape(sender_fp).as_str()).concat(
        "\",\"receiverFp\":\"",
    ).concat(json_escape(receiver_fp).as_str()).concat("\",\"filename\":\"").concat(
        json_escape(filename).as_str(),
    ).concat("\",\"fileSize\":").concat(size.as_str()).concat(",\"signature\":\"").concat(
        json_escape(signature).as_str(),
    ).concat("\",\"fileHash\":\"").concat(json_escape(file_hash).as_str()).concat("\"}")
}

/// The JSON body of the receiver's negotiation request, exactly as it goes
/// on the wire.
pub open spec fn listen_request_body_chars(receiver_fp: Seq<char>) -> Seq<char> {
    "{\"receiverFp\":\""@ + json_escaped(receiver_fp) + "\"}"@
}

/// Builds the JSON body of the receiver's negotiation request.
pub fn listen_request_body(receiver_fp: &str) -> (r: String)
    ensures
        r@ == listen_request_body_chars(receiver_fp@),
{
    String::from_str("{\"receiverFp\":\"").concat(json_escape(receiver_fp).as_str()).concat("\"}")
}

/// The error reported when the relay answers the `serve` call with a
/// non-success status: a network error carrying status and body.
pub fn serve_failure_error(status: u16, body: &str) -> (r: Error)
    ensures
        r is NetworkError,
        r.spec_detail() == "Serve API failed with status "@ + dec_chars(status as int) + ": "@
            + body@,
{
    let s = u64_to_dec(status as u64);
    Error::NetworkError(
        String::from_str("Serve API failed with status ").concat(s.as_str()).concat(": ").concat(
            body,
        ),
    )
}

/// The error reported when the relay answers the `listen` call with a
/// non-success status: a network error carrying status and body.
pub fn listen_failure_error(status: u16, body: &str) -> (r: Error)
    ensures
        r is NetworkError,
        r.spec_detail() == "Listen API failed with status "@ + dec_chars(status as int) + ": "@
            + body@,
{
    let s = u64_to_dec(status as u64);
    Error::NetworkError(
        String::from_str("Listen API failed with status ").concat(s.as_str()).concat(": ").concat(
            body,
        ),
    )
}

} // verus!
