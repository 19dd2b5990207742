//! The verification session shared by the coordinator and the connection
//! handlers, and the coordinator's decisions on it.

use vstd::prelude::*;
use vstd::string::StringExecFns;

use rand::RngCore;

use crate::broker::Outcome;

verus! {

/// The decimal digits.
pub open spec fn digits() -> Seq<char> {
    seq!['0', '1', '2', '3', '4', '5', '6', '7', '8', '9']
}

/// The decimal text of `n`, without leading zeros.
pub open spec fn decimal_spec(n: nat) -> Seq<char>
    decreases n,
{
    if n < 10 {
        seq![digits()[n as int]]
    } else {
        decimal_spec(n / 10) + seq![digits()[(n % 10) as int]]
    }
}

fn digit_str(d: u8) -> (r: &'static str)
    requires
        d < 10,
    ensures
        r@ == seq![digits()[d as int]],
{
    if d == 0 {
        proof { reveal_strlit("0"); }
        "0"
    } else if d == 1 {
        proof { reveal_strlit("1"); }
        "1"
    } else if d == 2 {
        proof { reveal_strlit("2"); }
        "2"
    } else if d == 3 {
        proof { reveal_strlit("3"); }
        "3"
    } else if d == 4 {
        proof { reveal_strlit("4"); }
        "4"
    } else if d == 5 {
        proof { reveal_strlit("5"); }
        "5"
    } else if d == 6 {
        proof { reveal_strlit("6"); }
        "6"
    } else if d == 7 {
        proof { reveal_strlit("7"); }
        "7"
    } else if d == 8 {
        proof { reveal_strlit("8"); }
        "8"
    } else {
        proof { reveal_strlit("9"); }
        "9"
    }
}

/// The decimal text of a byte.
pub fn decimal(n: u8) -> (r: String)
    ensures
        r@ == decimal_spec(n as nat),
{
    let mut s = String::new();
    if n >= 100 {
        s.append(digit_str(n / 100));
    }
    if n >= 10 {
        s.append(digit_str((n / 10) % 10));
    }
    s.append(digit_str(n % 10));
    proof {
        let m = n as nat;
        if m >= 100 {
            assert(decimal_spec(m / 10) == decimal_spec(m / 100) + seq![digits()[((m / 10) % 10) as int]]);
            assert(decimal_spec(m / 100) == seq![digits()[(m / 100) as int]]);
        } else if m >= 10 {
            assert(decimal_spec(m / 10) == seq![digits()[(m / 10) as int]]);
        }
        assert(s@ =~= decimal_spec(m));
    }
    s
}

/// What the coordinator does after asking for the push notification.
pub struct StartReply {
    /// The text returned to the local caller.
    pub message: String,
    /// Whether to wait for a connection and then publish the device id.
    pub rendezvous: bool,
}

/// The process-wide state of the one verification in flight.
#[derive(PartialEq, Eq, Structural, Clone, Copy, Debug)]
pub struct VerificationSession {
    pub active_device_id: Option<u8>,
    pub verified: bool,
}

/// No attempt active and nothing verified.
pub open spec fn idle() -> VerificationSession {
    VerificationSession { active_device_id: None, verified: false }
}

/// The session after a connection ended with `outcome`.
pub open spec fn recorded(s: VerificationSession, outcome: Outcome) -> VerificationSession {
    match outcome {
        Outcome::Cancelled => VerificationSession { verified: false, ..s },
        Outcome::Verified(v) => VerificationSession { verified: v, ..s },
        Outcome::Failed(_) => s,
    }
}

pub open spec fn failure_prefix() -> Seq<char> {
    "failed to send auth notification: "@
}

pub open spec fn started_prefix() -> Seq<char> {
    "started auth flow for: "@
}

impl VerificationSession {
    /// The session at process start.
    pub fn new() -> (r: VerificationSession)
        ensures
            r == idle(),
    {
        VerificationSession { active_device_id: None, verified: false }
    }

    /// The current verdict; reads only.
    pub fn verify_status(&self) -> (r: bool)
        ensures
            r == self.verified,
    {
        self.verified
    }

    /// Forgets the active device and clears the verdict.
    pub fn stop_verify(&mut self)
        ensures
            *final(self) == idle(),
            *old(self) == idle() ==> *final(self) == *old(self),
    {
        self.active_device_id = None;
        self.verified = false;
    }

    /// Takes the result of asking for the push notification to device `id`.
    /// A failed delivery leaves the session alone and is reported in the
    /// message; a delivered one makes `id` the active device and asks for the
    /// rendezvous.
    pub fn start_verify(&mut self, id: u8, delivery: &Result<(), String>) -> (r: StartReply)
        ensures
            delivery matches Err(e) ==> {
                &&& *final(self) == *old(self)
                &&& !r.rendezvous
                &&& r.message@ == failure_prefix() + e@
            },
            delivery is Ok ==> {
                &&& *final(self) == VerificationSession { active_device_id: Some(id), ..*old(self) }
                &&& r.rendezvous
                &&& r.message@ == started_prefix() + decimal_spec(id as nat)
            },
    {
        match delivery {
            Err(e) => {
                let mut message = String::new();
                proof { reveal_strlit("failed to send auth notification: "); }
                message.append("failed to send auth notification: ");
                message.append(e.as_str());
                StartReply { message, rendezvous: false }
            },
            Ok(()) => {
                self.active_device_id = Some(id);
                let mut message = String::new();
                proof { reveal_strlit("started auth flow for: "); }
                message.append("started auth flow for: ");
                let digits = decimal(id);
                message.append(digits.as_str());
                StartReply { message, rendezvous: true }
            },
        }
    }

    /// Stores how a connection ended: a cancellation clears the verdict, a
    /// finished handshake sets it, a failed connection changes nothing.
    pub fn record(&mut self, outcome: Outcome)
        ensures
            *final(self) == recorded(*old(self), outcome),
    {
        match outcome {
            Outcome::Cancelled => self.verified = false,
            Outcome::Verified(v) => self.verified = v,
            Outcome::Failed(_) => {},
        }
    }
}

/// A cancellation always leaves the session unverified, and a failed
/// connection never touches it.
pub proof fn lemma_cancel_and_failure(s: VerificationSession, e: crate::broker::HandlerError)
    ensures
        !recorded(s, Outcome::Cancelled).verified,
        recorded(s, Outcome::Failed(e)) == s,
{
}

/// Relies on rand's `OsRng` through `RngCore::try_fill_bytes`: one byte from
/// the operating system's generator, or `None` when it reports an error.
#[verifier::external_body]
fn os_random_byte() -> (r: Option<u8>) {
    let mut b = [0u8; 1];
    match rand::rngs::OsRng.try_fill_bytes(&mut b) {
        Ok(()) => Some(b[0]),
        Err(_) => None,
    }
}

/// The device id of "the" enrolled device. There is no enrollment registry:
/// each call draws a fresh random byte; `None` when the generator fails.
pub fn get_default_device() -> (r: Option<u8>) {
    os_random_byte()
}

} // verus!
