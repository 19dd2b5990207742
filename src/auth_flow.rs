//! The login side's policy: how many attempts, how long to poll, and when to
//! stop; plus the parsing of the authentication module's arguments.

use vstd::prelude::*;
use vstd::string::StringExecFns;

verus! {

/// Attempts a login makes before it gives up.
pub const MAX_TRIES: u8 = 3;

/// Pause between two status polls, in milliseconds.
pub const POLL_INTERVAL_MS: u64 = 200;

/// Time after the start of the login past which polling stops, in milliseconds.
pub const DEADLINE_MS: u64 = 10000;

/// What the authentication module does next.
#[derive(PartialEq, Eq, Structural, Clone, Copy, Debug)]
pub enum FlowStep {
    /// Ask the coordinator for the default device.
    GetDevice,
    /// Ask the coordinator to start a verification of this device.
    StartVerify(u8),
    /// Ask the coordinator for the verification status.
    PollStatus,
    /// Sleep this many milliseconds, then poll again.
    Sleep(u64),
    /// Reset the coordinator and finish; `AuthFlow::succeeded` is the answer.
    StopVerify,
}

/// The login side of a verification: up to three attempts, each polling the
/// status until it is true or the deadline has passed, always ending with a
/// reset.
#[derive(PartialEq, Eq, Structural, Clone, Copy, Debug)]
pub struct AuthFlow {
    /// Attempts finished so far.
    pub tries: u8,
    /// Whether a status poll has answered true.
    pub success: bool,
}

/// The step after an attempt ended without success.
pub open spec fn after_try(tries: u8) -> FlowStep {
    if tries + 1 < MAX_TRIES { FlowStep::GetDevice } else { FlowStep::StopVerify }
}

impl AuthFlow {
    pub open spec fn wf(&self) -> bool {
        self.tries < MAX_TRIES
    }

    /// A login that has not asked anything yet; its first step is `GetDevice`.
    pub fn new() -> (r: AuthFlow)
        ensures
            r.wf(),
            r.tries == 0,
            !r.success,
    {
        AuthFlow { tries: 0, success: false }
    }

    fn end_try(&mut self) -> (r: FlowStep)
        requires
            old(self).wf(),
        ensures
            r == after_try(old(self).tries),
            r == FlowStep::GetDevice ==> final(self).tries == old(self).tries + 1,
            r == FlowStep::GetDevice ==> final(self).wf(),
            r == FlowStep::StopVerify ==> final(self).tries == old(self).tries,
            final(self).success == old(self).success,
    {
        if self.tries + 1 < MAX_TRIES {
            self.tries = self.tries + 1;
            FlowStep::GetDevice
        } else {
            FlowStep::StopVerify
        }
    }

    /// The coordinator's answer for the default device: with none, the login
    /// stops at once.
    pub fn on_device(&mut self, device: Option<u8>) -> (r: FlowStep)
        requires
            old(self).wf(),
        ensures
            *final(self) == *old(self),
            device matches Some(id) ==> r == FlowStep::StartVerify(id),
            device is None ==> r == FlowStep::StopVerify,
    {
        match device {
            Some(id) => FlowStep::StartVerify(id),
            None => FlowStep::StopVerify,
        }
    }

    /// Whether the coordinator took the start request: if not, the login
    /// stops at once.
    pub fn on_started(&mut self, started: bool) -> (r: FlowStep)
        requires
            old(self).wf(),
        ensures
            *final(self) == *old(self),
            started ==> r == FlowStep::PollStatus,
            !started ==> r == FlowStep::StopVerify,
    {
        if started {
            FlowStep::PollStatus
        } else {
            FlowStep::StopVerify
        }
    }

    /// A status answer (`None` when the call failed), `elapsed_ms` after the
    /// login began. True ends in success; a failed call or a passed deadline
    /// ends the attempt; otherwise poll again after the interval.
    pub fn on_status(&mut self, status: Option<bool>, elapsed_ms: u64) -> (r: FlowStep)
        requires
            old(self).wf(),
        ensures
            status == Some(true) ==> r == FlowStep::StopVerify && final(self).success
                && final(self).tries == old(self).tries,
            status is None ==> r == after_try(old(self).tries) && final(self).success
                == old(self).success,
            status == Some(false) && elapsed_ms > DEADLINE_MS ==> r == after_try(old(self).tries)
                && final(self).success == old(self).success,
            status == Some(false) && elapsed_ms <= DEADLINE_MS ==> r == FlowStep::Sleep(
                POLL_INTERVAL_MS,
            ) && *final(self) == *old(self),
            r == FlowStep::GetDevice ==> final(self).tries == old(self).tries + 1,
            r == FlowStep::StopVerify ==> final(self).tries == old(self).tries,
            r != FlowStep::StopVerify ==> final(self).wf(),
    {
        match status {
            Some(true) => {
                self.success = true;
                FlowStep::StopVerify
            },
            Some(false) => {
                if elapsed_ms > DEADLINE_MS {
                    self.end_try()
                } else {
                    FlowStep::Sleep(POLL_INTERVAL_MS)
                }
            },
            None => self.end_try(),
        }
    }

    /// The login's answer once the coordinator has been reset: success only
    /// if a status poll answered true.
    pub fn succeeded(&self) -> (r: bool)
        ensures
            r == self.success,
    {
        self.success
    }
}

/// An argument given to the authentication module.
#[derive(Debug)]
pub enum Args {
    /// `debug`: log at debug level.
    Debug,
    /// Anything else, kept as given.
    UnknownArg(String),
}

/// Whether `a` is what the argument text `s` parses to.
pub open spec fn parses_to(s: Seq<char>, a: Args) -> bool {
    if s == "debug"@ {
        a is Debug
    } else {
        a matches Args::UnknownArg(t) && t@ == s
    }
}

/// The module's arguments, one for each given text, in order.
pub fn parse_args(argv: &Vec<String>) -> (r: Vec<Args>)
    ensures
        r@.len() == argv@.len(),
        forall|i: int| 0 <= i < argv@.len() ==> parses_to(argv@[i]@, #[trigger] r@[i]),
{
    proof { reveal_strlit("debug"); }
    let debug = String::from_str("debug");
    let mut out: Vec<Args> = Vec::new();
    let mut i: usize = 0;
    while i < argv.len()
        invariant
            i <= argv@.len(),
            out@.len() == i,
            debug@ == "debug"@,
            forall|j: int| 0 <= j < i ==> parses_to(argv@[j]@, #[trigger] out@[j]),
        decreases argv@.len() - i,
    {
        let arg = if argv[i] == debug {
            Args::Debug
        } else {
            Args::UnknownArg(argv[i].clone())
        };
        out.push(arg);
        i = i + 1;
    }
    out
}

/// Whether the arguments ask for debug logging.
pub fn debug_requested(args: &Vec<Args>) -> (r: bool)
    ensures
        r == exists|i: int| 0 <= i < args@.len() && (#[trigger] args@[i]) is Debug,
{
    let mut i: usize = 0;
    while i < args.len()
        invariant
            i <= args@.len(),
            forall|j: int| 0 <= j < i ==> !((#[trigger] args@[j]) is Debug),
        decreases args@.len() - i,
    {
        if let Args::Debug = &args[i] {
            return true;
        }
        i = i + 1;
    }
    false
}

} // verus!
