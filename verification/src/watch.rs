//! The port-watch read loop's decision logic. Each attempt to read from the
//! open port ends in one of three ways — bytes arrived, the timeout elapsed
//! with nothing to read, or the read failed — and the loop reacts by
//! forwarding the bytes unchanged, by idling, or by aborting. A timeout is
//! never an error; any other failure is fatal at once.
use crate::decimal::decimal_chars;
use crate::decimal::u64_to_decimal;
use vstd::prelude::*;
use vstd::string::*;

verus! {

/// How one read attempt on the open port ended.
pub enum ReadEvent {
    /// The read returned these bytes (possibly none).
    Data(Vec<u8>),
    /// No byte arrived within the configured timeout window.
    TimedOut,
    /// The read failed for a reason other than the timeout.
    Failed,
}

/// What the watch loop does in reaction to one read attempt.
pub enum StepAction {
    /// Write exactly these bytes to the output sink, then keep reading.
    Emit(Vec<u8>),
    /// Do nothing and keep reading.
    Idle,
    /// Stop watching; the failure is fatal.
    Abort,
}

/// Decide the loop's reaction to one read attempt: received bytes are
/// forwarded unmodified, a timeout is suppressed, any other failure aborts.
pub fn watch_step(event: ReadEvent) -> (a: StepAction)
    ensures
        event matches ReadEvent::Data(b) ==> a matches StepAction::Emit(out) && out@ == b@,
        event is TimedOut ==> a is Idle,
        event is Failed ==> a is Abort,
{
    match event {
        ReadEvent::Data(bytes) => StepAction::Emit(bytes),
        ReadEvent::TimedOut => StepAction::Idle,
        ReadEvent::Failed => StepAction::Abort,
    }
}

/// The bytes the loop writes when it sees `events` in order: the payloads
/// of every read before the first failure, concatenated; timeouts add
/// nothing, and nothing follows a failure.
pub open spec fn emitted_bytes(events: Seq<ReadEvent>) -> Seq<u8>
    decreases events.len(),
{
    if events.len() == 0 {
        Seq::empty()
    } else {
        match events[0] {
            ReadEvent::Data(b) => b@ + emitted_bytes(events.drop_first()),
            ReadEvent::TimedOut => emitted_bytes(events.drop_first()),
            ReadEvent::Failed => Seq::empty(),
        }
    }
}

/// Some read attempt in `events` failed fatally.
pub open spec fn hits_failure(events: Seq<ReadEvent>) -> bool
    decreases events.len(),
{
    if events.len() == 0 {
        false
    } else {
        events[0] is Failed || hits_failure(events.drop_first())
    }
}

/// Run the watch loop over a finite sequence of read events, as the real
/// loop would react to them in order: returns the exact bytes written to
/// the output sink and whether a fatal failure ended the loop.
pub fn drain_events(events: Vec<ReadEvent>) -> (r: (Vec<u8>, bool))
    ensures
        r.0@ == emitted_bytes(events@),
        r.1 == hits_failure(events@),
{
    let mut out: Vec<u8> = Vec::new();
    let n = events.len();
    let mut i: usize = 0;
    proof {
        assert(events@.skip(0) =~= events@);
    }
    while i < n
        invariant
            0 <= i <= n,
            n == events@.len(),
            emitted_bytes(events@) == out@ + emitted_bytes(events@.skip(i as int)),
            hits_failure(events@) == hits_failure(events@.skip(i as int)),
        decreases n - i,
    {
        let ghost rest = events@.skip(i as int);
        proof {
            assert(rest[0] == events@[i as int]);
            assert(rest.drop_first() =~= events@.skip(i + 1));
        }
        match &events[i] {
            ReadEvent::Data(b) => {
                let ghost before = out@;
                let mut j: usize = 0;
                while j < b.len()
                    invariant
                        0 <= j <= b@.len(),
                        out@ == before + b@.take(j as int),
                    decreases b@.len() - j,
                {
                    out.push(b[j]);
                    proof {
                        assert(b@.take(j + 1) =~= b@.take(j as int).push(b@[j as int]));
                    }
                    j = j + 1;
                }
                proof {
                    assert(b@.take(b@.len() as int) =~= b@);
                    assert(out@ + emitted_bytes(events@.skip(i + 1)) == before + (b@
                        + emitted_bytes(events@.skip(i + 1))));
                }
            },
            ReadEvent::TimedOut => {},
            ReadEvent::Failed => {
                return (out, true);
            },
        }
        i = i + 1;
    }
    proof {
        assert(events@.skip(n as int) =~= Seq::<ReadEvent>::empty());
    }
    (out, false)
}

/// Copy out the first `n` bytes of the read buffer: exactly what one
/// successful read of `n` bytes delivered.
pub fn received_bytes(buf: &[u8], n: usize) -> (r: Vec<u8>)
    requires
        n <= buf@.len(),
    ensures
        r@ == buf@.take(n as int),
{
    let mut r: Vec<u8> = Vec::new();
    let mut j: usize = 0;
    while j < n
        invariant
            0 <= j <= n <= buf@.len(),
            r@ == buf@.take(j as int),
        decreases n - j,
    {
        r.push(buf[j]);
        proof {
            assert(buf@.take(j + 1) =~= buf@.take(j as int).push(buf@[j as int]));
        }
        j = j + 1;
    }
    r
}

/// The banner printed after the port was opened, naming the port and the
/// baud rate.
pub open spec fn banner_chars(port: Seq<char>, baud: int) -> Seq<char> {
    "Receiving data on "@ + port + " at "@ + decimal_chars(baud) + " baud:"@
}

/// Build the banner line for a successful open.
pub fn watch_banner(port_name: &str, baud: u32) -> (r: String)
    ensures
        r@ == banner_chars(port_name@, baud as int),
{
    let rate = u64_to_decimal(baud as u64);
    String::from_str("Receiving data on ").concat(port_name).concat(" at ").concat(
        rate.as_str(),
    ).concat(" baud:")
}

/// The diagnostic printed when the port cannot be opened, naming the port
/// and the underlying error.
pub open spec fn open_failure_chars(port: Seq<char>, error: Seq<char>) -> Seq<char> {
    "Failed to open \""@ + port + "\". Error: "@ + error
}

/// Build the diagnostic line for a failed open.
pub fn open_failure_message(port_name: &str, error_text: &str) -> (r: String)
    ensures
        r@ == open_failure_chars(port_name@, error_text@),
{
    String::from_str("Failed to open \"").concat(port_name).concat("\". Error: ").concat(
        error_text,
    )
}

} // verus!
