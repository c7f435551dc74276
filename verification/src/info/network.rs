//! Network probes: what a ping, a public-address lookup and a transfer
//! timing amount to.
//!
//! The probes themselves are run by the caller. The functions here take
//! what a probe observed and say what it means.

use vstd::prelude::*;
use vstd::string::StringExecFns;
use crate::number::Quotient;
use crate::number::decimal_text;
use crate::number::push_decimal;

verus! {

/// Host that is pinged.
pub const PING_ADDRESS: &'static str = "8.8.8.8";

/// Seconds after which a lookup of the public address is given up.
pub const LOOKUP_TIMEOUT_SECONDS: u64 = 10;

/// Bytes sent to time an upload.
pub const UPLOAD_PAYLOAD_BYTES: usize = 10_000_000;

/// Bytes asked for to time a download.
pub const DOWNLOAD_REQUEST_BYTES: u64 = 100_000_000;

/// What running the ping command came to.
#[derive(Clone, Debug, PartialEq, Eq)]
pub enum PingOutcome {
    /// The command ran and exited after `elapsed_millis` milliseconds.
    Exited { success: bool, elapsed_millis: u128, stderr: String },
    /// The command could not be run.
    NotStarted { reason: String },
}

/// Why the network section of a report is missing.
#[derive(Clone, Copy, Debug, PartialEq, Eq, Structural)]
pub enum NetworkError {
    Unreachable,
    Timeout,
}

/// The network record of a report: round-trip time in milliseconds, public
/// address, and transfer rates in megabits per second.
#[derive(Clone, Debug, PartialEq, Eq)]
pub struct NetworkInfo {
    pub ping_ms: u32,
    pub public_ip: String,
    pub download_mbps: Quotient,
    pub upload_mbps: Quotient,
}

/// Whether an HTTP status code reports success: the codes from 200 to 299.
pub open spec fn is_success_status(status: u16) -> bool {
    200 <= status < 300
}

/// Megabits per second of `bytes` bytes moved in `nanos` nanoseconds:
/// `bytes * 8 / (seconds * 10^6)`, which is `bytes * 8000 / nanos`.
pub open spec fn megabits_per_second(bytes: u64, nanos: u64) -> Quotient {
    Quotient { numerator: (bytes * 8000) as u128, denominator: nanos as u128 }
}

/// What a ping comes to.
pub open spec fn ping_result(outcome: PingOutcome, result: Result<u32, String>) -> bool {
    match outcome {
        PingOutcome::Exited { success, elapsed_millis, stderr } => if success {
            result == Ok::<u32, String>((elapsed_millis % 0x1_0000_0000) as u32)
        } else {
            result matches Err(message) && message@ == "Ping failed: "@ + stderr@
        },
        PingOutcome::NotStarted { reason } => result matches Err(message) && message@
            == "Failed to execute ping: "@ + reason@,
    }
}

/// The arguments of the ping command: one echo request with a timeout of
/// five seconds, in the spelling of the platform.
pub fn ping_arguments(windows: bool) -> (arguments: Vec<&'static str>)
    ensures
        arguments@ == if windows {
            seq!["-n", "1", "-w", "5000", PING_ADDRESS]
        } else {
            seq!["-c", "1", "-W", "5", PING_ADDRESS]
        },
{
    let mut arguments: Vec<&'static str> = Vec::new();
    if windows {
        arguments.push("-n");
        arguments.push("1");
        arguments.push("-w");
        arguments.push("5000");
    } else {
        arguments.push("-c");
        arguments.push("1");
        arguments.push("-W");
        arguments.push("5");
    }
    arguments.push(PING_ADDRESS);
    assert(arguments@ =~= if windows {
        seq!["-n", "1", "-w", "5000", PING_ADDRESS]
    } else {
        seq!["-c", "1", "-W", "5", PING_ADDRESS]
    });
    arguments
}

/// The round-trip time of a ping in milliseconds, as far as it fits in 32
/// bits (larger times wrap around), or why there is none: the command
/// failed, or it could not be run.
pub fn get_ping(outcome: PingOutcome) -> (result: Result<u32, String>)
    ensures
        ping_result(outcome, result),
{
    match outcome {
        PingOutcome::Exited { success, elapsed_millis, stderr } => {
            if success {
                Ok((elapsed_millis % 0x1_0000_0000) as u32)
            } else {
                let mut message = String::from_str("Ping failed: ");
                message.append(stderr.as_str());
                Err(message)
            }
        },
        PingOutcome::NotStarted { reason } => {
            let mut message = String::from_str("Failed to execute ping: ");
            message.append(reason.as_str());
            Err(message)
        },
    }
}

/// The status line of a status code as the HTTP library writes it: the
/// code and its canonical reason phrase.
pub uninterp spec fn status_line(status: u16) -> Seq<char>;

/// How a status is shown: by its status line where it is a status code, a
/// number from 100 to 999, and as the bare number where it is not.
pub open spec fn status_text(status: u16) -> Seq<char> {
    if 100 <= status <= 999 {
        status_line(status)
    } else {
        decimal_text(status as nat)
    }
}

/// What the answer of the lookup service comes to, given how its status
/// is shown: the body of a successful answer, else an error that shows the
/// status.
pub open spec fn public_ip_result(status: u16, shown: Seq<char>, body: String, result: Result<
    String,
    String,
>) -> bool {
    if is_success_status(status) {
        result == Ok::<String, String>(body)
    } else {
        result matches Err(message) && message@ == "Failed to get IP: HTTP "@ + shown
    }
}

/// The status line of a status code: `reqwest::StatusCode::from_u16`, and
/// of the code it gives the `Display` form. `from_u16` takes the numbers
/// from 100 to 999 and no other, so there is a line for exactly those. The
/// contract gives the line its name and claims nothing else of it.
#[verifier::external_body]
fn describe_status(status: u16) -> (line: Option<String>)
    ensures
        line is Some <==> 100 <= status <= 999,
        line matches Some(text) ==> text@ == status_line(status),
{
    match reqwest::StatusCode::from_u16(status) {
        Ok(code) => Some(code.to_string()),
        Err(_) => None,
    }
}

/// The public address from the answer of the lookup service, with the
/// text that shows its status given: the body of a successful answer, else
/// an error that shows the status.
pub fn public_ip_from_answer(status: u16, shown: &str, body: String) -> (result: Result<
    String,
    String,
>)
    ensures
        public_ip_result(status, shown@, body, result),
{
    if 200 <= status && status < 300 {
        Ok(body)
    } else {
        let mut message = String::from_str("Failed to get IP: HTTP ");
        message.append(shown);
        Err(message)
    }
}

/// The public address from the answer of the lookup service: the body of
/// a successful answer, else an error that shows the status line.
pub fn get_public_ip(status: u16, body: String) -> (result: Result<String, String>)
    ensures
        public_ip_result(status, status_text(status), body, result),
{
    match describe_status(status) {
        Some(line) => public_ip_from_answer(status, line.as_str(), body),
        None => {
            let mut number = String::new();
            push_decimal(&mut number, status as u128);
            assert(number@ =~= decimal_text(status as nat));
            public_ip_from_answer(status, number.as_str(), body)
        },
    }
}

/// Download and upload rate from the timings of the two transfers: the
/// download moved `downloaded_bytes`, the upload the fixed payload.
pub fn measure_internet_speed(downloaded_bytes: u64, download_nanos: u64, upload_nanos: u64) -> (rates:
    (Quotient, Quotient))
    ensures
        rates.0 == megabits_per_second(downloaded_bytes, download_nanos),
        rates.1 == megabits_per_second(UPLOAD_PAYLOAD_BYTES as u64, upload_nanos),
{
    let download = Quotient {
        numerator: downloaded_bytes as u128 * 8000,
        denominator: download_nanos as u128,
    };
    let upload = Quotient {
        numerator: UPLOAD_PAYLOAD_BYTES as u128 * 8000,
        denominator: upload_nanos as u128,
    };
    (download, upload)
}

/// The rates of a speed measurement, or the reason it failed under the
/// heading of the speed test.
pub fn get_internet_speed(measured: Result<(Quotient, Quotient), String>) -> (result: Result<
    (Quotient, Quotient),
    String,
>)
    ensures
        measured matches Ok(rates) ==> result == Ok::<(Quotient, Quotient), String>(rates),
        measured matches Err(reason) ==> (result matches Err(message) && message@
            == "Failed to measure internet speed: "@ + reason@),
{
    match measured {
        Ok(rates) => Ok(rates),
        Err(reason) => {
            let mut message = String::from_str("Failed to measure internet speed: ");
            message.append(reason.as_str());
            Err(message)
        },
    }
}

/// One byte from the thread-local generator of the `rand` crate, as
/// `rand::random` hands it out. The byte depends on chance, so nothing is
/// claimed of it.
#[verifier::external_body]
fn random_byte() -> u8 {
    rand::random::<u8>()
}

/// The payload of an upload: `size` random bytes.
pub fn upload_payload(size: usize) -> (payload: Vec<u8>)
    ensures
        payload@.len() == size,
{
    let mut payload: Vec<u8> = Vec::new();
    let mut filled: usize = 0;
    while filled < size
        invariant
            filled <= size,
            payload@.len() == filled,
        decreases size - filled,
    {
        payload.push(random_byte());
        filled = filled + 1;
    }
    payload
}

impl NetworkInfo {
    /// The network record of three probes. One failed probe is enough for
    /// there to be no record: the reason is a timeout where a probe ran
    /// into its time limit, else the host counts as unreachable.
    pub fn from_probes(
        ping: Result<u32, String>,
        public_ip: Result<String, String>,
        speed: Result<(Quotient, Quotient), String>,
        timed_out: bool,
    ) -> (result: Result<NetworkInfo, NetworkError>)
        ensures
            result == match (ping, public_ip, speed) {
                (Ok(ping_ms), Ok(address), Ok(rates)) => Ok::<NetworkInfo, NetworkError>(
                    NetworkInfo {
                        ping_ms,
                        public_ip: address,
                        download_mbps: rates.0,
                        upload_mbps: rates.1,
                    },
                ),
                _ => Err::<NetworkInfo, NetworkError>(
                    if timed_out {
                        NetworkError::Timeout
                    } else {
                        NetworkError::Unreachable
                    },
                ),
            },
    {
        match (ping, public_ip, speed) {
            (Ok(ping_ms), Ok(address), Ok(rates)) => Ok(
                NetworkInfo {
                    ping_ms,
                    public_ip: address,
                    download_mbps: rates.0,
                    upload_mbps: rates.1,
                },
            ),
            _ => {
                if timed_out {
                    Err(NetworkError::Timeout)
                } else {
                    Err(NetworkError::Unreachable)
                }
            },
        }
    }
}

/// A megabits-per-second figure is the number of bits moved, divided by
/// the seconds it took times one million. Cleared of fractions:
/// `rate * (nanos * 10^6) == bytes * 8 * 10^9`.
pub proof fn lemma_megabits_formula(bytes: u64, nanos: u64)
    ensures
        ({
            let rate = megabits_per_second(bytes, nanos);
            &&& rate.is_finite() <==> nanos > 0
            &&& rate.numerator * (nanos * 1_000_000) == (bytes * 8) * 1_000_000_000
                * rate.denominator
        }),
{
    let b = bytes as int;
    let n = nanos as int;
    assert((b * 8000) * (n * 1_000_000) == (b * 8) * 1_000_000_000 * n) by (nonlinear_arith);
}

} // verus!
