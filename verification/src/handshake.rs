use crate::errors::Error;
use crate::relay::TransferRole;
use vstd::prelude::*;
use vstd::string::StringExecFns;

verus! {

/// The pairing-confirmation line the relay sends once both ends are paired:
/// the 6 bytes of `READY\n`.
pub open spec fn ready_signal_bytes() -> Seq<u8> {
    seq![82u8, 69u8, 65u8, 68u8, 89u8, 10u8]
}

/// The confirmation the client answers with: the 4 bytes of `ACK\n`.
pub open spec fn ack_signal_bytes() -> Seq<u8> {
    seq![65u8, 67u8, 75u8, 10u8]
}

/// The `READY\n` line as bytes.
pub fn ready_signal() -> (r: Vec<u8>)
    ensures
        r@ == ready_signal_bytes(),
{
    let mut v: Vec<u8> = Vec::new();
    v.push(82);
    v.push(69);
    v.push(65);
    v.push(68);
    v.push(89);
    v.push(10);
    proof {
        assert(v@ =~= ready_signal_bytes());
    }
    v
}

/// The `ACK\n` line as bytes.
pub fn ack_signal() -> (r: Vec<u8>)
    ensures
        r@ == ack_signal_bytes(),
{
    let mut v: Vec<u8> = Vec::new();
    v.push(65);
    v.push(67);
    v.push(75);
    v.push(10);
    proof {
        assert(v@ =~= ack_signal_bytes());
    }
    v
}

/// Whether a buffer holds exactly the `READY\n` line.
pub fn is_ready_signal(buf: &[u8]) -> (r: bool)
    ensures
        r == (buf@ == ready_signal_bytes()),
{
    if buf.len() != 6 {
        return false;
    }
    let r = buf[0] == 82 && buf[1] == 69 && buf[2] == 65 && buf[3] == 68 && buf[4] == 89 && buf[5]
        == 10;
    proof {
        if r {
            assert(buf@ =~= ready_signal_bytes());
        }
    }
    r
}

/// The identifying line a client sends first: `session_id:role` and a
/// newline, which lets the relay pair the two raw sockets of one session.
pub fn identify_line(session_id: &str, role: TransferRole) -> (r: String)
    ensures
        r@ == session_id@ + seq![':'] + role.spec_label() + seq!['\n'],
{
    let r = String::from_str(session_id).concat(":").concat(role.as_str()).concat("\n");
    proof {
        reveal_strlit(":");
        reveal_strlit("\n");
        assert(session_id@ + ":"@ + role.spec_label() + "\n"@ =~= session_id@ + seq![':']
            + role.spec_label() + seq!['\n']);
    }
    r
}

/// Which handshake the relay deployment speaks: the leaner variant that only
/// identifies the socket, or the variant that adds the READY/ACK rendezvous
/// and a settle delay.
#[derive(Debug, Clone, Copy, PartialEq, Eq, Structural)]
pub enum HandshakeMode {
    IdentifyOnly,
    ReadyAck,
}

/// Where the handshake stands.
#[derive(Debug, Clone, Copy, PartialEq, Eq, Structural)]
pub enum HandshakeState {
    SendingIdentify,
    AwaitingReady,
    SendingAck,
    Settling,
    Established,
    Failed,
}

/// The socket-handshake state machine.
///
/// The caller performs each socket action and reports it back: send the
/// identify line, read the 6-byte pairing confirmation, send the
/// acknowledgement, wait the settle delay. Only the transitions below reach
/// `Established`; in READY/ACK mode that passes through a successful
/// `ready_received`, so no payload phase can be entered on a socket that
/// never delivered `READY\n`.
pub struct Handshake {
    pub mode: HandshakeMode,
    pub state: HandshakeState,
    pub ready_seen: bool,
    pub settle_millis: u64,
}

impl Handshake {
    /// In READY/ACK mode, every state past `AwaitingReady` except `Failed`
    /// records that the exact `READY\n` bytes arrived; the identify-only
    /// variant never enters the READY/ACK states.
    pub open spec fn wf(&self) -> bool {
        &&& (self.mode == HandshakeMode::ReadyAck && (self.state == HandshakeState::SendingAck
            || self.state == HandshakeState::Settling || self.state
            == HandshakeState::Established) ==> self.ready_seen)
        &&& (self.mode == HandshakeMode::IdentifyOnly ==> self.state
            != HandshakeState::AwaitingReady && self.state != HandshakeState::SendingAck
            && self.state != HandshakeState::Settling)
    }

    /// A fresh handshake about to send the identify line. The settle delay
    /// is the deployment's stability margin, applied in READY/ACK mode after
    /// the acknowledgement.
    pub fn new(mode: HandshakeMode, settle_millis: u64) -> (r: Handshake)
        ensures
            r.wf(),
            r.mode == mode,
            r.state == HandshakeState::SendingIdentify,
            !r.ready_seen,
            r.settle_millis == settle_millis,
    {
        Handshake { mode, state: HandshakeState::SendingIdentify, ready_seen: false, settle_millis }
    }

    /// The identify line went out. The leaner variant is now established;
    /// the READY/ACK variant waits for the pairing confirmation.
    pub fn identify_sent(&mut self)
        requires
            old(self).wf(),
            old(self).state == HandshakeState::SendingIdentify,
        ensures
            final(self).wf(),
            final(self).mode == old(self).mode,
            final(self).ready_seen == old(self).ready_seen,
            final(self).settle_millis == old(self).settle_millis,
            old(self).mode == HandshakeMode::IdentifyOnly ==> final(self).state
                == HandshakeState::Established,
            old(self).mode == HandshakeMode::ReadyAck ==> final(self).state
                == HandshakeState::AwaitingReady,
    {
        match self.mode {
            HandshakeMode::IdentifyOnly => {
                self.state = HandshakeState::Established;
            },
            HandshakeMode::ReadyAck => {
                self.state = HandshakeState::AwaitingReady;
            },
        }
    }

    /// The 6 bytes read in place of the pairing confirmation.
    ///
    /// Succeeds, moving on to the acknowledgement, exactly when they are
    /// `READY\n`; anything else is a protocol violation that fails the
    /// handshake for good with a network error.
    pub fn ready_received(&mut self, buf: &[u8]) -> (r: Result<(), Error>)
        requires
            old(self).wf(),
            old(self).mode == HandshakeMode::ReadyAck,
            old(self).state == HandshakeState::AwaitingReady,
        ensures
            final(self).wf(),
            final(self).mode == old(self).mode,
            final(self).settle_millis == old(self).settle_millis,
            r is Ok <==> buf@ == ready_signal_bytes(),
            final(self).ready_seen == (buf@ == ready_signal_bytes()),
            buf@ == ready_signal_bytes() ==> final(self).state == HandshakeState::SendingAck,
            buf@ != ready_signal_bytes() ==> final(self).state == HandshakeState::Failed
                && r->Err_0 is NetworkError,
    {
        if is_ready_signal(buf) {
            self.ready_seen = true;
            self.state = HandshakeState::SendingAck;
            Ok(())
        } else {
            self.ready_seen = false;
            self.state = HandshakeState::Failed;
            Err(Error::NetworkError(String::from_str("Expected READY signal")))
        }
    }

    /// The `ACK\n` answer went out; the settle delay is next.
    pub fn ack_sent(&mut self)
        requires
            old(self).wf(),
            old(self).state == HandshakeState::SendingAck,
        ensures
            final(self).wf(),
            final(self).state == HandshakeState::Settling,
            final(self).mode == old(self).mode,
            final(self).ready_seen == old(self).ready_seen,
            final(self).settle_millis == old(self).settle_millis,
    {
        self.state = HandshakeState::Settling;
    }

    /// The settle delay elapsed; the socket is ready for payload bytes.
    pub fn settled(&mut self)
        requires
            old(self).wf(),
            old(self).state == HandshakeState::Settling,
        ensures
            final(self).wf(),
            final(self).state == HandshakeState::Established,
            final(self).mode == old(self).mode,
            final(self).ready_seen == old(self).ready_seen,
            final(self).settle_millis == old(self).settle_millis,
    {
        self.state = HandshakeState::Established;
    }

    /// A socket-level failure (connect, write, or a short read) at any point:
    /// the handshake is unusable for good.
    pub fn connection_failed(&mut self)
        requires
            old(self).wf(),
        ensures
            final(self).wf(),
            final(self).state == HandshakeState::Failed,
            final(self).mode == old(self).mode,
            final(self).ready_seen == old(self).ready_seen,
            final(self).settle_millis == old(self).settle_millis,
    {
        self.state = HandshakeState::Failed;
    }

    /// Whether the socket may carry payload bytes.
    pub fn is_established(&self) -> (r: bool)
        ensures
            r == (self.state == HandshakeState::Established),
    {
        matches!(self.state, HandshakeState::Established)
    }

    /// The stability margin to wait after the acknowledgement, in
    /// milliseconds.
    pub fn settle_delay_millis(&self) -> (r: u64)
        ensures
            r == self.settle_millis,
    {
        self.settle_millis
    }
}

/// A READY/ACK-mode handshake can only be established after the exact
/// `READY\n` bytes were received: a socket that never delivers them never
/// reaches the payload phase.
pub proof fn lemma_established_requires_ready(h: Handshake)
    requires
        h.wf(),
        h.mode == HandshakeMode::ReadyAck,
        h.state == HandshakeState::Established,
    ensures
        h.ready_seen,
{
}

} // verus!
