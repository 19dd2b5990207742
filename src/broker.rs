//! The decisions of one device connection, as a state machine: the driver
//! performs each returned action and hands back what happened.

use vstd::prelude::*;

use crate::crypto::{aead_seal, KEY_LEN, NONCE_LEN, TAG_LEN};
use crate::handshake::{response_ok, Challenge, CHALLENGE_FRAME_LEN, PAYLOAD_LEN, SEED_LEN};
use crate::session::{recorded, VerificationSession};
use crate::protocol::{
    append_bytes, frame_progress, frame_progress_spec, sealed_frame, FrameProgress, MAX_SEALED_LEN,
    CHALLENGE_ACCEPTED,
    CHALLENGE_APPROVED, CHALLENGE_CANCELLED, CHALLENGE_REJECTED, CHALLENGE_REQUESTED,
};

verus! {

/// Why one connection ended without a verdict. Each ends that connection only.
#[derive(PartialEq, Eq, Structural, Clone, Copy, Debug)]
pub enum HandlerError {
    /// The stream closed or broke.
    Connection,
    /// The first byte was neither a request nor a cancellation.
    InvalidRequest,
    /// Bytes arrived while the handler was waiting for a device id.
    OutOfOrder,
    /// The device did not accept the challenge.
    Rejected,
    /// The response frame was longer than declared or badly terminated.
    MalformedFrame,
    /// No device id was handed over in time.
    Timeout,
    /// The system random generator failed.
    Random,
}

/// How a connection ended.
#[derive(PartialEq, Eq, Structural, Clone, Copy, Debug)]
pub enum Outcome {
    /// The device withdrew: the session's verified flag is cleared.
    Cancelled,
    /// The handshake ran to its end; the flag is set to this verdict.
    Verified(bool),
    /// The connection failed; the session is left as it is.
    Failed(HandlerError),
}

/// Where a connection handler stands.
#[derive(PartialEq, Eq, Structural, Clone, Copy, Debug)]
pub enum Phase {
    AwaitRequest,
    AwaitDeviceId,
    AwaitAccept,
    AwaitResponse,
    Done,
}

/// What finished the wait for a device id.
#[derive(PartialEq, Eq, Structural, Clone, Copy, Debug)]
pub enum WaitEvent {
    TimedOut,
    StrayBytes,
    DeviceId(u8),
}

/// What the handler asks its driver to do next.
pub enum Action {
    /// Wake one waiter of the rendezvous, then wait for a device id.
    SignalConnected,
    /// Write these bytes, then read one byte.
    SendChallenge(Vec<u8>),
    /// Read more bytes of the response frame.
    ReadMore,
    /// Write the verdict byte, then finish with `Outcome::Verified(verified)`.
    Reply { byte: u8, verified: bool },
    /// Stop, with this outcome.
    Finish(Outcome),
}

/// The byte that tells the device its verdict.
pub open spec fn verdict_byte(verified: bool) -> u8 {
    if verified { CHALLENGE_APPROVED } else { CHALLENGE_REJECTED }
}

/// The decisions of one connection, from its first byte to its verdict.
pub struct Handler {
    pub key: Vec<u8>,
    pub phase: Phase,
    pub challenge: Option<Challenge>,
    pub buf: Vec<u8>,
}

impl Handler {
    pub open spec fn wf(&self) -> bool {
        &&& self.key@.len() == KEY_LEN
        &&& (self.phase == Phase::AwaitAccept || self.phase == Phase::AwaitResponse) ==> {
            &&& self.challenge matches Some(c)
            &&& c.wf()
            &&& c.key@ == self.key@
        }
    }

    /// A handler waiting for the first byte of a new connection.
    pub fn new(key: &[u8]) -> (r: Handler)
        requires
            key@.len() == KEY_LEN,
        ensures
            r.wf(),
            r.phase == Phase::AwaitRequest,
            r.key@ == key@,
            r.challenge is None,
            r.buf@.len() == 0,
    {
        let mut k: Vec<u8> = Vec::new();
        append_bytes(&mut k, key);
        Handler { key: k, phase: Phase::AwaitRequest, challenge: None, buf: Vec::new() }
    }

    /// The connection's first byte: a cancellation ends it at once, a request
    /// goes on to the rendezvous, anything else is a protocol error.
    pub fn on_request(&mut self, byte: u8) -> (r: Action)
        requires
            old(self).wf(),
            old(self).phase == Phase::AwaitRequest,
        ensures
            final(self).wf(),
            final(self).key == old(self).key,
            final(self).challenge == old(self).challenge,
            byte == CHALLENGE_CANCELLED ==> final(self).phase == Phase::Done && r == Action::Finish(
                Outcome::Cancelled,
            ),
            byte == CHALLENGE_REQUESTED ==> final(self).phase == Phase::AwaitDeviceId && r
                == Action::SignalConnected,
            byte != CHALLENGE_CANCELLED && byte != CHALLENGE_REQUESTED ==> final(self).phase
                == Phase::Done && r == Action::Finish(Outcome::Failed(HandlerError::InvalidRequest)),
    {
        if byte == CHALLENGE_CANCELLED {
            self.phase = Phase::Done;
            Action::Finish(Outcome::Cancelled)
        } else if byte == CHALLENGE_REQUESTED {
            self.phase = Phase::AwaitDeviceId;
            Action::SignalConnected
        } else {
            self.phase = Phase::Done;
            Action::Finish(Outcome::Failed(HandlerError::InvalidRequest))
        }
    }

    /// The handshake for device `id`, from a given seed and nonce: the
    /// challenge frame goes out and the handler waits for the device's accept.
    pub fn begin(&mut self, id: u8, seed: &[u8], nonce: &[u8]) -> (r: Action)
        requires
            old(self).wf(),
            old(self).phase == Phase::AwaitDeviceId,
            seed@.len() == SEED_LEN,
            nonce@.len() == NONCE_LEN,
        ensures
            final(self).wf(),
            final(self).key == old(self).key,
            final(self).phase == Phase::AwaitAccept,
            final(self).challenge matches Some(c) && c.id == id && c.op == seed@[0] && c.payload@
                == seed@.subrange(1, SEED_LEN as int) && c.nonce@ == nonce@,
            final(self).challenge matches Some(c) && r matches Action::SendChallenge(f) && f@
                == c.frame_spec(),
            final(self).challenge matches Some(c) && aead_seal(c.key@, c.nonce@, c.payload@).len()
                == PAYLOAD_LEN + TAG_LEN,
            r matches Action::SendChallenge(f) && f@.len() == CHALLENGE_FRAME_LEN,
    {
        let c = Challenge::with_seed(id, self.key.as_slice(), seed, nonce);
        let frame = c.write_to_buf();
        self.challenge = Some(c);
        self.phase = Phase::AwaitAccept;
        Action::SendChallenge(frame)
    }

    /// The end of the wait for a device id. A timeout or bytes sent out of
    /// turn end the connection; a device id starts the handshake with a fresh
    /// random challenge.
    pub fn on_wait(&mut self, event: WaitEvent) -> (r: Action)
        requires
            old(self).wf(),
            old(self).phase == Phase::AwaitDeviceId,
        ensures
            final(self).wf(),
            final(self).key == old(self).key,
            event == WaitEvent::TimedOut ==> final(self).phase == Phase::Done && r == Action::Finish(
                Outcome::Failed(HandlerError::Timeout),
            ),
            event == WaitEvent::StrayBytes ==> final(self).phase == Phase::Done && r
                == Action::Finish(Outcome::Failed(HandlerError::OutOfOrder)),
            event matches WaitEvent::DeviceId(id) ==> {
                ||| final(self).phase == Phase::Done && r == Action::Finish(
                    Outcome::Failed(HandlerError::Random),
                )
                ||| final(self).phase == Phase::AwaitAccept && (final(self).challenge matches Some(c)
                    && c.id == id && c.wf() && aead_seal(c.key@, c.nonce@, c.payload@).len()
                    == PAYLOAD_LEN + TAG_LEN && (r matches Action::SendChallenge(f) && f@
                    == c.frame_spec() && f@.len() == CHALLENGE_FRAME_LEN))
            },
    {
        match event {
            WaitEvent::TimedOut => {
                self.phase = Phase::Done;
                Action::Finish(Outcome::Failed(HandlerError::Timeout))
            },
            WaitEvent::StrayBytes => {
                self.phase = Phase::Done;
                Action::Finish(Outcome::Failed(HandlerError::OutOfOrder))
            },
            WaitEvent::DeviceId(id) => {
                match Challenge::generate(id, self.key.as_slice()) {
                    Some(c) => {
                        let frame = c.write_to_buf();
                        self.challenge = Some(c);
                        self.phase = Phase::AwaitAccept;
                        Action::SendChallenge(frame)
                    },
                    None => {
                        self.phase = Phase::Done;
                        Action::Finish(Outcome::Failed(HandlerError::Random))
                    },
                }
            },
        }
    }

    /// The device's reply to the challenge frame: only the accept byte lets
    /// the handler go on to read a response.
    pub fn on_accept(&mut self, byte: u8) -> (r: Action)
        requires
            old(self).wf(),
            old(self).phase == Phase::AwaitAccept,
        ensures
            final(self).wf(),
            final(self).key == old(self).key,
            final(self).challenge == old(self).challenge,
            byte == CHALLENGE_ACCEPTED ==> final(self).phase == Phase::AwaitResponse
                && final(self).buf@.len() == 0 && r == Action::ReadMore,
            byte != CHALLENGE_ACCEPTED ==> final(self).phase == Phase::Done && r == Action::Finish(
                Outcome::Failed(HandlerError::Rejected),
            ),
    {
        if byte == CHALLENGE_ACCEPTED {
            self.phase = Phase::AwaitResponse;
            self.buf = Vec::new();
            Action::ReadMore
        } else {
            self.phase = Phase::Done;
            Action::Finish(Outcome::Failed(HandlerError::Rejected))
        }
    }

    /// Bytes of the response frame. Once the declared length is reached the
    /// frame is opened and compared with the expected answer, and the verdict
    /// goes back to the device; a frame that overruns its length or is badly
    /// terminated ends the connection.
    pub fn on_response(&mut self, chunk: &[u8]) -> (r: Action)
        requires
            old(self).wf(),
            old(self).phase == Phase::AwaitResponse,
        ensures
            final(self).wf(),
            final(self).key == old(self).key,
            final(self).challenge == old(self).challenge,
            final(self).buf@ == old(self).buf@ + chunk@,
            ({
                let buf = old(self).buf@ + chunk@;
                let c = old(self).challenge->Some_0;
                match frame_progress_spec(buf, 0) {
                    FrameProgress::Incomplete => final(self).phase == Phase::AwaitResponse && r
                        == Action::ReadMore,
                    FrameProgress::Malformed => final(self).phase == Phase::Done && r
                        == Action::Finish(Outcome::Failed(HandlerError::MalformedFrame)),
                    FrameProgress::Complete => {
                        let ok = response_ok(c.key@, c.response.data@, buf);
                        final(self).phase == Phase::Done && r == (Action::Reply {
                            byte: verdict_byte(ok),
                            verified: ok,
                        })
                    },
                }
            }),
            forall|n: Seq<u8>, s: Seq<u8>|
                n.len() == NONCE_LEN && s.len() <= MAX_SEALED_LEN && s == aead_seal(
                    old(self).key@,
                    n,
                    old(self).challenge->Some_0.response.data@,
                ) && old(self).buf@ + chunk@ == #[trigger] sealed_frame(n, s) ==> r
                    == (Action::Reply { byte: CHALLENGE_APPROVED, verified: true }),
    {
        append_bytes(&mut self.buf, chunk);
        proof {
            assert forall|n: Seq<u8>, s: Seq<u8>|
                n.len() == NONCE_LEN && s.len() <= MAX_SEALED_LEN && self.buf@ == #[trigger] sealed_frame(n, s)
                implies frame_progress_spec(self.buf@, 0) == FrameProgress::Complete by {
                assert(seq![] + sealed_frame(n, s) =~= self.buf@);
                crate::protocol::lemma_sealed_frame_round_trip(seq![], n, s);
            }
        }
        match frame_progress(self.buf.as_slice(), 0) {
            FrameProgress::Incomplete => Action::ReadMore,
            FrameProgress::Malformed => {
                self.phase = Phase::Done;
                Action::Finish(Outcome::Failed(HandlerError::MalformedFrame))
            },
            FrameProgress::Complete => {
                let ok = match &self.challenge {
                    Some(c) => c.check_response(self.buf.as_slice()),
                    None => false,
                };
                self.phase = Phase::Done;
                let byte = if ok { CHALLENGE_APPROVED } else { CHALLENGE_REJECTED };
                Action::Reply { byte, verified: ok }
            },
        }
    }

    /// The stream closed or broke before the handler was done.
    pub fn on_closed(&mut self) -> (r: Action)
        requires
            old(self).wf(),
        ensures
            final(self).wf(),
            final(self).phase == Phase::Done,
            r == Action::Finish(Outcome::Failed(HandlerError::Connection)),
    {
        self.phase = Phase::Done;
        Action::Finish(Outcome::Failed(HandlerError::Connection))
    }
}

/// A response that does not open to the expected answer is met with the
/// rejection byte, and recording its verdict leaves the session unverified.
pub proof fn lemma_wrong_response_rejected(
    key: Seq<u8>,
    expected: Seq<u8>,
    frame: Seq<u8>,
    s: VerificationSession,
)
    requires
        !response_ok(key, expected, frame),
    ensures
        verdict_byte(response_ok(key, expected, frame)) == CHALLENGE_REJECTED,
        !recorded(s, Outcome::Verified(response_ok(key, expected, frame))).verified,
{
}

/// A response that opens to the expected answer is met with the approval
/// byte, and recording its verdict makes the session verified.
pub proof fn lemma_right_response_approved(
    key: Seq<u8>,
    expected: Seq<u8>,
    frame: Seq<u8>,
    s: VerificationSession,
)
    requires
        response_ok(key, expected, frame),
    ensures
        verdict_byte(response_ok(key, expected, frame)) == CHALLENGE_APPROVED,
        recorded(s, Outcome::Verified(response_ok(key, expected, frame))).verified,
{
}

} // verus!
