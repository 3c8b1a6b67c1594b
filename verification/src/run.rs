//! Run identity, lifecycle status, and the summary read model.

use vstd::prelude::*;

use crate::params::BenchParams;
use crate::stats::{LatencyStats, ThroughputSample};

verus! {

/// Whether 128 bits carry the version (4, random) and variant (RFC 4122)
/// fields of a random UUID.
pub open spec fn is_random_uuid_bits(bits: u128) -> bool {
    bits & 0xF000C000000000000000u128 == 0x40008000000000000000u128
}

/// Calls `uuid::Uuid::new_v4` and reads the UUID as a big-endian `u128`.
///
/// Trusted: the bits are random apart from the version and variant fields,
/// which `new_v4` fixes to a random RFC 4122 UUID.
#[verifier::external_body]
fn random_uuid_bits() -> (r: u128)
    ensures
        is_random_uuid_bits(r),
{
    uuid::Uuid::new_v4().as_u128()
}

/// The error `uuid` reports for text that is not a UUID.
#[verifier::external_type_specification]
#[verifier::external_body]
pub struct ExUuidError(uuid::Error);

/// The 128 bits (big-endian) of the UUID that `uuid::Uuid::parse_str` reads
/// from a text, or `None` where it rejects the text.
pub uninterp spec fn uuid_parse(text: Seq<char>) -> Option<u128>;


/// Calls `uuid::Uuid::parse_str` and reads the UUID as a big-endian `u128`.
///
/// Trusted: the result depends on the text alone; it is `Ok` exactly where
/// `uuid_parse` holds bits, and then it carries those bits.
#[verifier::external_body]
fn parse_uuid_bits(text: &str) -> (r: Result<u128, uuid::Error>)
    ensures
        r is Ok <==> uuid_parse(text@) is Some,
        r is Ok ==> r->Ok_0 == uuid_parse(text@)->0,
{
    match uuid::Uuid::parse_str(text) {
        Ok(id) => Ok(id.as_u128()),
        Err(e) => Err(e),
    }
}

/// The lower-case hexadecimal digit of `n` (below sixteen).
pub open spec fn hex_digit(n: int) -> char {
    if n < 10 {
        digit_char(n as nat)
    } else if n == 10 {
        'a'
    } else if n == 11 {
        'b'
    } else if n == 12 {
        'c'
    } else if n == 13 {
        'd'
    } else if n == 14 {
        'e'
    } else {
        'f'
    }
}

/// The `k`-th hexadecimal digit of 128 bits, most significant first.
pub open spec fn uuid_nibble(bits: u128, k: int) -> int {
    (bits as int / vstd::arithmetic::power::pow(16, (31 - k) as nat)) % 16
}

/// Which hexadecimal digit stands at position `i` of the hyphenated form.
pub open spec fn nibble_at(i: int) -> int {
    if i < 8 {
        i
    } else if i < 13 {
        i - 1
    } else if i < 18 {
        i - 2
    } else if i < 23 {
        i - 3
    } else {
        i - 4
    }
}

/// The hyphenated text of a UUID: 32 lower-case hexadecimal digits, most
/// significant first, in groups of 8-4-4-4-12 joined by hyphens.
pub open spec fn uuid_hyphenated(bits: u128) -> Seq<char> {
    Seq::new(
        36,
        |i: int|
            if i == 8 || i == 13 || i == 18 || i == 23 {
                '-'
            } else {
                hex_digit(uuid_nibble(bits, nibble_at(i)))
            },
    )
}

/// Formats the UUID of `bits` with `uuid::Uuid`'s `Display` impl.
///
/// Trusted: the display form of a UUID is its hyphenated, lower-case
/// hexadecimal text.
#[verifier::external_body]
fn uuid_bits_text(bits: u128) -> (r: String)
    ensures
        r@ == uuid_hyphenated(bits),
{
    uuid::Uuid::from_u128(bits).to_string()
}

/// Unique identifier for a benchmark run: the 128 bits of a UUID.
#[derive(Debug, Clone, Copy, PartialEq, Eq, Hash, Structural)]
pub struct RunId(u128);

impl View for RunId {
    type V = u128;

    closed spec fn view(&self) -> u128 {
        self.0
    }
}

impl RunId {
    /// Generate a fresh random id (a version-4 UUID).
    pub fn generate() -> (r: Self)
        ensures
            is_random_uuid_bits(r@),
    {
        Self(random_uuid_bits())
    }

    /// Wrap the 128 bits of an existing UUID (big-endian).
    pub fn from_u128(bits: u128) -> (r: Self)
        ensures
            r@ == bits,
    {
        Self(bits)
    }

    /// The 128 bits of the UUID (big-endian).
    pub fn as_u128(&self) -> (r: u128)
        ensures
            r == self@,
    {
        self.0
    }

    /// Parse a run id from the text of its UUID.
    pub fn parse(text: &str) -> (r: Result<Self, uuid::Error>)
        ensures
            r is Ok <==> uuid_parse(text@) is Some,
            r is Ok ==> r->Ok_0@ == uuid_parse(text@)->0,
    {
        match parse_uuid_bits(text) {
            Ok(bits) => Ok(Self(bits)),
            Err(e) => Err(e),
        }
    }

    /// The text of this run id's UUID (its display form).
    pub fn to_text(&self) -> (r: String)
        ensures
            r@ == uuid_hyphenated(self@),
    {
        uuid_bits_text(self.0)
    }
}

/// Why a run failed.
#[derive(Debug, Clone, Copy, PartialEq, Eq, Structural)]
pub enum FailureReason {
    /// The QUIC handshake did not complete within the timeout.
    ConnectTimeout,
    /// An established connection dropped mid-run.
    ConnectionLost,
    /// A socket/stream I/O error.
    Io,
    /// An unexpected internal error.
    Internal,
}

/// The stable, snake-case name of a failure reason.
pub open spec fn failure_reason_name(reason: FailureReason) -> Seq<char> {
    match reason {
        FailureReason::ConnectTimeout => "connect_timeout"@,
        FailureReason::ConnectionLost => "connection_lost"@,
        FailureReason::Io => "io"@,
        FailureReason::Internal => "internal"@,
    }
}

impl FailureReason {
    /// The stable, snake-case name of this reason (its display form).
    pub fn as_str(&self) -> (r: &'static str)
        ensures
            r@ == failure_reason_name(*self),
    {
        match self {
            FailureReason::ConnectTimeout => "connect_timeout",
            FailureReason::ConnectionLost => "connection_lost",
            FailureReason::Io => "io",
            FailureReason::Internal => "internal",
        }
    }
}

/// Lifecycle state of a run.
#[derive(Debug, Clone, Copy, PartialEq, Eq, Structural)]
pub enum RunStatus {
    /// Accepted, not yet started.
    Pending,
    /// In flight; `completed` round-trips so far.
    Running { completed: u64 },
    /// Finished successfully.
    Completed,
    /// Terminated with a failure.
    Failed { reason: FailureReason },
}

/// The stable, snake-case name of a run state.
pub open spec fn run_state_name(status: RunStatus) -> Seq<char> {
    match status {
        RunStatus::Pending => "pending"@,
        RunStatus::Running { .. } => "running"@,
        RunStatus::Completed => "completed"@,
        RunStatus::Failed { .. } => "failed"@,
    }
}

impl RunStatus {
    /// The stable, snake-case name of this state.
    pub fn state_name(&self) -> (r: &'static str)
        ensures
            r@ == run_state_name(*self),
    {
        match self {
            RunStatus::Pending => "pending",
            RunStatus::Running { .. } => "running",
            RunStatus::Completed => "completed",
            RunStatus::Failed { .. } => "failed",
        }
    }

    /// Round-trips completed so far, for a running run.
    pub fn completed(&self) -> (r: Option<u64>)
        ensures
            r == (match *self {
                RunStatus::Running { completed } => Some(completed),
                _ => None,
            }),
    {
        match self {
            RunStatus::Running { completed } => Some(*completed),
            _ => None,
        }
    }

    /// Why the run failed, for a failed run.
    pub fn failure_reason(&self) -> (r: Option<FailureReason>)
        ensures
            r == (match *self {
                RunStatus::Failed { reason } => Some(reason),
                _ => None,
            }),
    {
        match self {
            RunStatus::Failed { reason } => Some(*reason),
            _ => None,
        }
    }

    /// Whether the run reached a terminal state.
    pub open spec fn is_terminal(self) -> bool {
        self is Completed || self is Failed
    }
}

/// The decimal digit character of `d` (below ten).
pub open spec fn digit_char(d: nat) -> char {
    if d == 0 {
        '0'
    } else if d == 1 {
        '1'
    } else if d == 2 {
        '2'
    } else if d == 3 {
        '3'
    } else if d == 4 {
        '4'
    } else if d == 5 {
        '5'
    } else if d == 6 {
        '6'
    } else if d == 7 {
        '7'
    } else if d == 8 {
        '8'
    } else {
        '9'
    }
}

/// The decimal numeral of `n`, without leading zeros.
pub open spec fn decimal(n: nat) -> Seq<char>
    decreases n,
{
    if n < 10 {
        seq![digit_char(n)]
    } else {
        decimal(n / 10).push(digit_char(n % 10))
    }
}

/// The value of a decimal digit character, or -1 for any other character.
pub open spec fn digit_value(c: char) -> int {
    if c == '0' {
        0
    } else if c == '1' {
        1
    } else if c == '2' {
        2
    } else if c == '3' {
        3
    } else if c == '4' {
        4
    } else if c == '5' {
        5
    } else if c == '6' {
        6
    } else if c == '7' {
        7
    } else if c == '8' {
        8
    } else if c == '9' {
        9
    } else {
        -1
    }
}

/// The number a string of decimal digits reads as, most significant first.
pub open spec fn numeral_value(s: Seq<char>) -> int
    decreases s.len(),
{
    if s.len() == 0 {
        0
    } else {
        numeral_value(s.drop_last()) * 10 + digit_value(s.last())
    }
}

proof fn lemma_digit_value_of_digit_char(d: nat)
    requires
        d < 10,
    ensures
        digit_value(digit_char(d)) == d,
{
}

/// The decimal numeral of a number is the standard one: it consists of
/// decimal digits only, reads back as the number, and starts with a zero only
/// when it is the numeral of zero.
pub proof fn lemma_decimal_reads_back(n: nat)
    ensures
        decimal(n).len() >= 1,
        forall|i: int| 0 <= i < decimal(n).len() ==> 0 <= #[trigger] digit_value(decimal(n)[i]) <= 9,
        numeral_value(decimal(n)) == n,
        decimal(n)[0] == '0' ==> n == 0,
    decreases n,
{
    if n >= 10 {
        lemma_decimal_reads_back(n / 10);
        let s = decimal(n);
        let q = decimal(n / 10);
        assert(s.drop_last() =~= q);
        assert(s[0] == q[0]);
        lemma_digit_value_of_digit_char(n % 10);
        assert(s.last() == digit_char(n % 10));
        assert(numeral_value(s) == numeral_value(q) * 10 + digit_value(s.last()));
        assert((n / 10) * 10 + n % 10 == n);
        assert forall|i: int| 0 <= i < s.len() implies 0 <= #[trigger] digit_value(s[i]) <= 9 by {
            if i < q.len() {
                assert(s[i] == q[i]);
            }
        }
    } else {
        let s = decimal(n);
        lemma_digit_value_of_digit_char(n);
        assert(s.drop_last() =~= Seq::<char>::empty());
        assert(numeral_value(s) == numeral_value(s.drop_last()) * 10 + digit_value(s.last()));
    }
}

/// The JSON form of a run status: an object tagged by `"state"`, with the
/// variant's fields beside the tag and snake-case names.
pub open spec fn status_json(status: RunStatus) -> Seq<char> {
    match status {
        RunStatus::Pending => "{\"state\":\"pending\"}"@,
        RunStatus::Running { completed } => "{\"state\":\"running\",\"completed\":"@ + decimal(
            completed as nat,
        ) + "}"@,
        RunStatus::Completed => "{\"state\":\"completed\"}"@,
        RunStatus::Failed { reason } => "{\"state\":\"failed\",\"reason\":\""@
            + failure_reason_name(reason) + "\"}"@,
    }
}

fn digit_str(d: u64) -> (r: &'static str)
    requires
        d < 10,
    ensures
        r@ == seq![digit_char(d as nat)],
{
    proof {
        reveal_strlit("0");
        reveal_strlit("1");
        reveal_strlit("2");
        reveal_strlit("3");
        reveal_strlit("4");
        reveal_strlit("5");
        reveal_strlit("6");
        reveal_strlit("7");
        reveal_strlit("8");
        reveal_strlit("9");
    }
    if d == 0 {
        "0"
    } else if d == 1 {
        "1"
    } else if d == 2 {
        "2"
    } else if d == 3 {
        "3"
    } else if d == 4 {
        "4"
    } else if d == 5 {
        "5"
    } else if d == 6 {
        "6"
    } else if d == 7 {
        "7"
    } else if d == 8 {
        "8"
    } else {
        "9"
    }
}

fn push_decimal(out: &mut String, n: u64)
    ensures
        final(out)@ == old(out)@ + decimal(n as nat),
    decreases n,
{
    if n >= 10 {
        push_decimal(out, n / 10);
    }
    out.append(digit_str(n % 10));
    proof {
        if n >= 10 {
            assert(old(out)@ + decimal(n as nat) =~= old(out)@ + decimal((n / 10) as nat) + seq![
                digit_char((n % 10) as nat),
            ]);
        } else {
            assert(decimal(n as nat) == seq![digit_char(n as nat)]);
        }
    }
}

impl RunStatus {
    /// The JSON form of this status, e.g. `{"state":"running","completed":7}`.
    pub fn to_json(&self) -> (r: String)
        ensures
            r@ == status_json(*self),
    {
        match self {
            RunStatus::Pending => String::from_str("{\"state\":\"pending\"}"),
            RunStatus::Running { completed } => {
                let mut out = String::from_str("{\"state\":\"running\",\"completed\":");
                push_decimal(&mut out, *completed);
                out.append("}");
                out
            },
            RunStatus::Completed => String::from_str("{\"state\":\"completed\"}"),
            RunStatus::Failed { reason } => {
                let mut out = String::from_str("{\"state\":\"failed\",\"reason\":\"");
                out.append(reason.as_str());
                out.append("\"}");
                out
            },
        }
    }
}

/// Immutable summary of a run (read model).
///
/// Times are nanoseconds since the Unix epoch.
#[derive(Debug, Clone, Copy, PartialEq, Eq, Structural)]
pub struct RunSummary {
    /// Run id.
    pub id: RunId,
    /// Parameters used.
    pub params: BenchParams,
    /// Current lifecycle state.
    pub status: RunStatus,
    /// Latency distribution (present once samples exist).
    pub stats: Option<LatencyStats>,
    /// Throughput measurements (present once completed).
    pub throughput: Option<ThroughputSample>,
    /// When the run started.
    pub started_at: i128,
    /// When the run reached a terminal state.
    pub finished_at: Option<i128>,
}

} // verus!
