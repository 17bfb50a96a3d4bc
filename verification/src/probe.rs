//! Probe outcomes and the interpretation of the remote verification
//! endpoint's response.
//!
//! One probe asks a remote verification endpoint whether the request appears
//! to originate from the VPN provider's exit node. The transport is driven by
//! the surrounding process; this module owns the decision logic: reading the
//! boolean exit-node field out of the response body, and mapping a finished
//! probe's outcome to a classification.

use crate::state::ConnectionState;
use vstd::prelude::*;

verus! {

/// How long one probe attempt may take before it is abandoned.
pub const PROBE_TIMEOUT_SECS: u64 = 2;

/// Failure of a single probe attempt: the transport failed or timed out, or
/// the response body did not carry the boolean exit-node field.
#[derive(Clone, Copy, PartialEq, Eq, Structural, Debug)]
pub enum ProbeError {
    Transport,
    Malformed,
}

/// The outcome of a whole probe cycle, after retries: either the endpoint's
/// boolean exit-node answer, or exhaustion of every attempt.
#[derive(Clone, Copy, PartialEq, Eq, Structural, Debug)]
pub enum ProbeOutcome {
    Success(bool),
    Exhausted,
}

/// The classification that a probe outcome maps to: a confirmed exit-node
/// answer gives `Connected` or `Disconnected`, exhaustion gives `Unknown`.
pub open spec fn classify_spec(o: ProbeOutcome) -> ConnectionState {
    match o {
        ProbeOutcome::Success(true) => ConnectionState::Connected,
        ProbeOutcome::Success(false) => ConnectionState::Disconnected,
        ProbeOutcome::Exhausted => ConnectionState::Unknown,
    }
}

/// Maps a probe outcome to its classification.
pub fn classify(o: &ProbeOutcome) -> (r: ConnectionState)
    ensures
        r == classify_spec(*o),
{
    match o {
        ProbeOutcome::Success(b) => {
            if *b {
                ConnectionState::Connected
            } else {
                ConnectionState::Disconnected
            }
        },
        ProbeOutcome::Exhausted => ConnectionState::Unknown,
    }
}

/// Law: the classification mapping is deterministic and total: a probe that
/// succeeded with `true` classifies as `Connected`, one that succeeded with
/// `false` as `Disconnected`, and an exhausted probe as `Unknown`.
pub proof fn lemma_classification_mapping(o: ProbeOutcome)
    ensures
        o == ProbeOutcome::Success(true) ==> classify_spec(o) == ConnectionState::Connected,
        o == ProbeOutcome::Success(false) ==> classify_spec(o) == ConnectionState::Disconnected,
        o == ProbeOutcome::Exhausted ==> classify_spec(o) == ConnectionState::Unknown,
{
}

/// The `k`-th byte of the quoted field name `"mullvad_exit_ip"`.
pub open spec fn key_byte(k: int) -> u8 {
    if k == 0 {
        34
    } else if k == 1 {
        109
    } else if k == 2 {
        117
    } else if k == 3 {
        108
    } else if k == 4 {
        108
    } else if k == 5 {
        118
    } else if k == 6 {
        97
    } else if k == 7 {
        100
    } else if k == 8 {
        95
    } else if k == 9 {
        101
    } else if k == 10 {
        120
    } else if k == 11 {
        105
    } else if k == 12 {
        116
    } else if k == 13 {
        95
    } else if k == 14 {
        105
    } else if k == 15 {
        112
    } else {
        34
    }
}

/// The quoted field name occupies bytes `i .. i + 17` of `s`.
pub open spec fn key_at(s: Seq<u8>, i: int) -> bool {
    &&& 0 <= i
    &&& i + 17 <= s.len()
    &&& forall|k: int| 0 <= k < 17 ==> #[trigger] s[i + k] == key_byte(k)
}

/// JSON insignificant whitespace.
pub open spec fn is_ws(c: u8) -> bool {
    c == 32 || c == 9 || c == 10 || c == 13
}

/// The first index at or after `j` whose byte is not whitespace (or the end
/// of `s`).
pub open spec fn skip_ws_spec(s: Seq<u8>, j: int) -> int
    decreases s.len() - j,
{
    if 0 <= j && j < s.len() && is_ws(s[j]) {
        skip_ws_spec(s, j + 1)
    } else {
        j
    }
}

/// The literal `true` stands at index `b` of `s`.
pub open spec fn is_true_at(s: Seq<u8>, b: int) -> bool {
    &&& 0 <= b
    &&& b + 4 <= s.len()
    &&& s[b] == 116
    &&& s[b + 1] == 114
    &&& s[b + 2] == 117
    &&& s[b + 3] == 101
}

/// The literal `false` stands at index `b` of `s`.
pub open spec fn is_false_at(s: Seq<u8>, b: int) -> bool {
    &&& 0 <= b
    &&& b + 5 <= s.len()
    &&& s[b] == 102
    &&& s[b + 1] == 97
    &&& s[b + 2] == 108
    &&& s[b + 3] == 115
    &&& s[b + 4] == 101
}

/// The boolean value that follows a field name ending at index `j`: optional
/// whitespace, a colon, optional whitespace, then `true` or `false`.
pub open spec fn value_at(s: Seq<u8>, j: int) -> Option<bool> {
    let a = skip_ws_spec(s, j);
    if 0 <= a && a < s.len() && s[a] == 58 {
        let b = skip_ws_spec(s, a + 1);
        if is_true_at(s, b) {
            Some(true)
        } else if is_false_at(s, b) {
            Some(false)
        } else {
            None
        }
    } else {
        None
    }
}

/// Scans `s` from index `i` for the first occurrence of the quoted field
/// name; the parse succeeds exactly when one is found and a boolean value
/// follows it.
pub open spec fn scan_spec(s: Seq<u8>, i: int) -> Result<bool, ProbeError>
    decreases s.len() - i,
{
    if i + 17 <= s.len() {
        if key_at(s, i) {
            match value_at(s, i + 17) {
                Some(b) => Ok(b),
                None => Err(ProbeError::Malformed),
            }
        } else {
            scan_spec(s, i + 1)
        }
    } else {
        Err(ProbeError::Malformed)
    }
}

/// What interpreting a response body yields: the boolean exit-node field if
/// the body carries one, `Malformed` otherwise.
pub open spec fn parse_spec(s: Seq<u8>) -> Result<bool, ProbeError> {
    scan_spec(s, 0)
}

/// The `k`-th byte of the quoted field name, for the scanner.
fn key_byte_exec(k: usize) -> (r: u8)
    requires
        k < 17,
    ensures
        r == key_byte(k as int),
{
    match k {
        0 => 34,
        1 => 109,
        2 => 117,
        3 => 108,
        4 => 108,
        5 => 118,
        6 => 97,
        7 => 100,
        8 => 95,
        9 => 101,
        10 => 120,
        11 => 105,
        12 => 116,
        13 => 95,
        14 => 105,
        15 => 112,
        _ => 34,
    }
}

/// Whether the quoted field name stands at index `i` of `s`.
fn key_matches_at(s: &[u8], i: usize) -> (r: bool)
    requires
        i + 17 <= s@.len(),
    ensures
        r == key_at(s@, i as int),
{
    let n = s.len();
    let mut k: usize = 0;
    let mut ok = true;
    while k < 17
        invariant
            n == s@.len(),
            i + 17 <= s@.len(),
            k <= 17,
            ok == (forall|t: int| 0 <= t < k ==> #[trigger] s@[i + t] == key_byte(t)),
        decreases 17 - k,
    {
        if s[i + k] != key_byte_exec(k) {
            ok = false;
        }
        k = k + 1;
    }
    ok
}

/// Advances past whitespace.
fn skip_ws(s: &[u8], start: usize) -> (r: usize)
    requires
        start <= s@.len(),
    ensures
        r == skip_ws_spec(s@, start as int),
        start <= r <= s@.len(),
{
    let mut j = start;
    while j < s.len() && is_ws_byte(s[j])
        invariant
            start <= j <= s@.len(),
            skip_ws_spec(s@, start as int) == skip_ws_spec(s@, j as int),
        decreases s@.len() - j,
    {
        j = j + 1;
    }
    j
}

/// Whether `c` is JSON whitespace.
fn is_ws_byte(c: u8) -> (r: bool)
    ensures
        r == is_ws(c),
{
    c == 32 || c == 9 || c == 10 || c == 13
}

/// Reads the boolean value that must follow the field name ending at `j`.
fn value_result(s: &[u8], j: usize) -> (r: Result<bool, ProbeError>)
    requires
        j <= s@.len(),
    ensures
        r == (match value_at(s@, j as int) {
            Some(b) => Ok::<bool, ProbeError>(b),
            None => Err::<bool, ProbeError>(ProbeError::Malformed),
        }),
{
    let a = skip_ws(s, j);
    if a < s.len() && s[a] == 58 {
        let b = skip_ws(s, a + 1);
        if s.len() - b >= 4 && s[b] == 116 && s[b + 1] == 114 && s[b + 2] == 117 && s[b + 3]
            == 101 {
            Ok(true)
        } else if s.len() - b >= 5 && s[b] == 102 && s[b + 1] == 97 && s[b + 2] == 108 && s[b
            + 3] == 115 && s[b + 4] == 101 {
            Ok(false)
        } else {
            Err(ProbeError::Malformed)
        }
    } else {
        Err(ProbeError::Malformed)
    }
}

/// Interprets a probe response body: returns the value of the boolean
/// exit-node field if the body carries one, and `Malformed` otherwise.
///
/// The body is searched for the first occurrence of the quoted field name
/// `"mullvad_exit_ip"`; it must be followed by a colon and a boolean
/// literal, with JSON whitespace permitted around the colon.
pub fn parse_exit_flag(body: &[u8]) -> (r: Result<bool, ProbeError>)
    ensures
        r == parse_spec(body@),
{
    let n = body.len();
    if n < 17 {
        return Err(ProbeError::Malformed);
    }
    let mut i: usize = 0;
    while i <= n - 17
        invariant
            n == body@.len(),
            17 <= n,
            i <= n,
            scan_spec(body@, 0) == scan_spec(body@, i as int),
        decreases n - i,
    {
        if key_matches_at(body, i) {
            return value_result(body, i + 17);
        }
        i = i + 1;
    }
    Err(ProbeError::Malformed)
}

} // verus!
