//! Reading the answers of a device: volume, playback position and
//! transport state.
//!
//! Answers are scraped leniently. A field that is missing or cannot be read
//! gives its default (`0`, `00:00:00`, `Unknown`), never an error.

use crate::decimal::{
    decimal_text, lemma_decimal_round_trip, lemma_decimal_text, parse_bounded, parse_decimal,
};
use crate::device::opt_view;
use crate::pattern::{first_group, regex_first_group};
use crate::text::{
    ascii_upper_text, chars_of, eq_ignoring_ascii_case, find_char, index_from, is_ascii_text,
    lemma_ascii_upper_text, lemma_index_from_found, slice_of, string_of, to_ascii_upper, trim,
    trimmed,
};
use vstd::prelude::*;

verus! {

/// Pattern for the volume in the answer to `GetVolume`.
pub const VOLUME_PATTERN: &'static str =
    "(?i)<(?:.*:)?CurrentVolume[^>]*>(\\s*\\d+\\s*)</(?:.*:)?CurrentVolume>";

/// Pattern for the elapsed time in the answer to `GetPositionInfo`, tag
/// written exactly.
pub const REL_TIME_PATTERN: &'static str = "<RelTime>(.*?)</RelTime>";

/// Pattern for the track's duration in the answer to `GetPositionInfo`, tag
/// written exactly.
pub const DURATION_PATTERN: &'static str = "<TrackDuration>(.*?)</TrackDuration>";

/// Pattern for the elapsed time, in any case and with attributes.
pub const REL_TIME_LENIENT: &'static str = "(?i)<RelTime[^>]*>(.*?)</RelTime>";

/// Pattern for the track's duration, in any case and with attributes.
pub const DURATION_LENIENT: &'static str = "(?i)<TrackDuration[^>]*>(.*?)</TrackDuration>";

/// Pattern for the state in the answer to `GetTransportInfo`.
pub const STATE_PATTERN: &'static str =
    "(?i)<(?:.*:)?CurrentTransportState[^>]*>(.*?)</(?:.*:)?CurrentTransportState>";

/// The time reported when an answer gives none.
pub const ZERO_TIME: &'static str = "00:00:00";

/// What a renderer's transport is doing.
#[derive(Debug, Clone, Copy, PartialEq, Eq, Structural)]
pub enum TransportState {
    Stopped,
    Playing,
    Paused,
    /// Buffering or loading.
    Transitioning,
    /// Nothing has been cast.
    NoMedia,
    /// The device reported something else, or nothing.
    Unknown,
}

/// The upper-case form of `s` that `str::to_uppercase` gives.
pub uninterp spec fn uppercase_of(s: Seq<char>) -> Seq<char>;

/// The upper-case form of `s`. It is called for texts with characters
/// outside ASCII only.
///
/// Trusted: `str::to_uppercase`. The contract only names its result as a
/// function of the text.
#[verifier::external_body]
pub(crate) fn to_upper(s: &str) -> (upper: String)
    ensures
        upper@ == uppercase_of(s@),
{
    s.to_uppercase()
}

/// The state that an upper-case token stands for.
pub open spec fn state_of_token(token: Seq<char>) -> TransportState {
    if token == "PLAYING"@ {
        TransportState::Playing
    } else if token == "PAUSED_PLAYBACK"@ || token == "PAUSED"@ {
        TransportState::Paused
    } else if token == "STOPPED"@ {
        TransportState::Stopped
    } else if token == "TRANSITIONING"@ {
        TransportState::Transitioning
    } else if token == "NO_MEDIA_PRESENT"@ {
        TransportState::NoMedia
    } else {
        TransportState::Unknown
    }
}

/// The upper-case form of a token. A token of ASCII characters, as every
/// token of the protocol is, has its letters `a` to `z` raised; any other
/// text has the form that `str::to_uppercase` gives.
pub open spec fn upper_form(token: Seq<char>) -> Seq<char> {
    if is_ascii_text(token) {
        ascii_upper_text(token)
    } else {
        uppercase_of(token)
    }
}

/// The state that a token as a device writes it stands for: white space
/// around it and the case of its letters do not count.
pub open spec fn state_of_raw(raw: Seq<char>) -> TransportState {
    state_of_token(upper_form(trimmed(raw)))
}

/// The state that the captured text of an answer stands for; `Unknown`
/// when nothing was captured.
pub open spec fn state_of_capture(captured: Option<Seq<char>>) -> TransportState {
    match captured {
        Some(raw) => state_of_raw(raw),
        None => TransportState::Unknown,
    }
}

/// Two tokens that differ only in the case of their ASCII letters and in
/// the white space around them, one of them made of ASCII characters, stand
/// for the same state.
pub proof fn lemma_state_ignores_case(a: Seq<char>, b: Seq<char>)
    requires
        is_ascii_text(trimmed(a)),
        eq_ignoring_ascii_case(trimmed(a), trimmed(b)),
    ensures
        state_of_raw(a) == state_of_raw(b),
{
    lemma_ascii_upper_text(trimmed(a), trimmed(b));
}

/// Whether two texts hold the same characters.
fn same_text(a: &Vec<char>, b: &str) -> (same: bool)
    ensures
        same == (a@ == b@),
{
    let w = chars_of(b);
    if a.len() != w.len() {
        return false;
    }
    let mut i: usize = 0;
    while i < a.len()
        invariant
            i <= a.len() == w.len(),
            w@ == b@,
            forall|j: int| 0 <= j < i ==> a@[j] == w@[j],
        decreases a.len() - i,
    {
        if a[i] != w[i] {
            return false;
        }
        i += 1;
    }
    assert(a@ =~= w@);
    true
}

impl TransportState {
    /// The state that an upper-case token stands for. Every token has one:
    /// what is not recognised is `Unknown`.
    pub fn from_token(token: &str) -> (state: TransportState)
        ensures
            state == state_of_token(token@),
    {
        let t = chars_of(token);
        if same_text(&t, "PLAYING") {
            TransportState::Playing
        } else if same_text(&t, "PAUSED_PLAYBACK") || same_text(&t, "PAUSED") {
            TransportState::Paused
        } else if same_text(&t, "STOPPED") {
            TransportState::Stopped
        } else if same_text(&t, "TRANSITIONING") {
            TransportState::Transitioning
        } else if same_text(&t, "NO_MEDIA_PRESENT") {
            TransportState::NoMedia
        } else {
            TransportState::Unknown
        }
    }

    /// The state that a token as a device writes it stands for.
    pub fn interpret(raw: &str) -> (state: TransportState)
        ensures
            state == state_of_raw(raw@),
    {
        let token = trim(&chars_of(raw));
        let upper = match to_ascii_upper(&token) {
            Some(raised) => string_of(&raised),
            None => to_upper(string_of(&token).as_str()),
        };
        TransportState::from_token(upper.as_str())
    }

    /// The state that the captured text of an answer stands for.
    pub fn from_capture(captured: Option<String>) -> (state: TransportState)
        ensures
            state == state_of_capture(opt_view(captured)),
    {
        match captured {
            Some(raw) => TransportState::interpret(raw.as_str()),
            None => TransportState::Unknown,
        }
    }
}

/// The transport state in the answer to `GetTransportInfo`; `Unknown` when
/// the answer holds no state.
pub fn transport_state_from_response(xml: &str) -> (state: TransportState)
    ensures
        state == state_of_capture(regex_first_group(STATE_PATTERN@, xml@)),
{
    TransportState::from_capture(first_group(STATE_PATTERN, xml))
}

/// The volume that the captured text of an answer writes: the number
/// between the white space, when it is a decimal number of at most 255, and
/// `0` otherwise or when nothing was captured.
pub open spec fn volume_of(captured: Option<Seq<char>>) -> u8 {
    match captured {
        Some(raw) => match parse_bounded(trimmed(raw), 255) {
            Some(n) => n as u8,
            None => 0,
        },
        None => 0,
    }
}

/// The volume that the captured text of an answer writes.
pub fn volume_from_capture(captured: Option<String>) -> (volume: u8)
    ensures
        volume == volume_of(opt_view(captured)),
{
    match captured {
        Some(raw) => {
            let digits = trim(&chars_of(raw.as_str()));
            match parse_decimal(&digits, 255) {
                Some(n) => n as u8,
                None => 0,
            }
        },
        None => 0,
    }
}

/// The volume in the answer to `GetVolume`; `0` when the answer holds no
/// readable volume.
pub fn volume_from_response(xml: &str) -> (volume: u8)
    ensures
        volume == volume_of(regex_first_group(VOLUME_PATTERN@, xml@)),
        regex_first_group(VOLUME_PATTERN@, xml@) is None ==> volume == 0,
{
    volume_from_capture(first_group(VOLUME_PATTERN, xml))
}

/// The time that a captured text writes; `00:00:00` when nothing was
/// captured.
pub open spec fn time_text(captured: Option<Seq<char>>) -> Seq<char> {
    match captured {
        Some(t) => t,
        None => ZERO_TIME@,
    }
}

/// The time that a captured text writes.
pub fn time_from_capture(captured: Option<String>) -> (time: String)
    ensures
        time@ == time_text(opt_view(captured)),
{
    match captured {
        Some(t) => t,
        None => ZERO_TIME.to_owned(),
    }
}

/// Elapsed time and track duration in the answer to `GetPositionInfo`, as
/// written there, the tags matched exactly.
pub fn position_from_response(xml: &str) -> (times: (String, String))
    ensures
        times.0@ == time_text(regex_first_group(REL_TIME_PATTERN@, xml@)),
        times.1@ == time_text(regex_first_group(DURATION_PATTERN@, xml@)),
{
    let current = time_from_capture(first_group(REL_TIME_PATTERN, xml));
    let total = time_from_capture(first_group(DURATION_PATTERN, xml));
    (current, total)
}

/// The number that one field of a time writes; `0` when it is no decimal
/// number that fits 64 bits.
pub open spec fn time_field(s: Seq<char>) -> nat {
    match parse_bounded(s, u64::MAX as nat) {
        Some(n) => n,
        None => 0,
    }
}

/// The seconds that `t` writes as `HH:MM:SS`: hours times 3600 plus minutes
/// times 60 plus seconds, each unreadable field counting as `0`; `0` when
/// `t` does not consist of exactly three fields.
pub open spec fn seconds_of(t: Seq<char>) -> nat {
    let a = index_from(t, ':', 0);
    let b = index_from(t, ':', a + 1);
    let c = index_from(t, ':', b + 1);
    if a < t.len() && b < t.len() && c == t.len() {
        time_field(t.subrange(0, a)) * 3600 + time_field(t.subrange(a + 1, b)) * 60 + time_field(
            t.subrange(b + 1, t.len() as int),
        )
    } else {
        0
    }
}

/// `seconds_of` in 64 bits: a sum that does not fit wraps around.
pub open spec fn wrapped_seconds(t: Seq<char>) -> u64 {
    (seconds_of(t) % 0x1_0000_0000_0000_0000) as u64
}

/// The time of `h` hours, `m` minutes and `s` seconds, each written in
/// decimal, with `:` between them.
pub open spec fn clock_text(h: nat, m: nat, s: nat) -> Seq<char> {
    decimal_text(h) + seq![':'] + decimal_text(m) + seq![':'] + decimal_text(s)
}

/// Reading a written time gives its seconds: hours times 3600 plus minutes
/// times 60 plus seconds.
pub proof fn lemma_time_round_trip(h: nat, m: nat, s: nat)
    requires
        h <= u64::MAX,
        m <= u64::MAX,
        s <= u64::MAX,
    ensures
        seconds_of(clock_text(h, m, s)) == h * 3600 + m * 60 + s,
{
    let hh = decimal_text(h);
    let mm = decimal_text(m);
    let ss = decimal_text(s);
    let t = clock_text(h, m, s);
    lemma_decimal_text(h);
    lemma_decimal_text(m);
    lemma_decimal_text(s);
    lemma_decimal_round_trip(h, u64::MAX as nat);
    lemma_decimal_round_trip(m, u64::MAX as nat);
    lemma_decimal_round_trip(s, u64::MAX as nat);
    let a = hh.len() as int;
    let b = a + 1 + mm.len();
    let n = t.len() as int;
    assert(n == b + 1 + ss.len());
    assert forall|j: int| 0 <= j < a implies t[j] != ':' by {
        assert(t[j] == hh[j]);
    }
    assert(t[a] == ':');
    lemma_index_from_found(t, ':', 0, a);
    assert forall|j: int| a + 1 <= j < b implies t[j] != ':' by {
        assert(t[j] == mm[j - a - 1]);
    }
    assert(t[b] == ':');
    lemma_index_from_found(t, ':', a + 1, b);
    assert forall|j: int| b + 1 <= j < n implies t[j] != ':' by {
        assert(t[j] == ss[j - b - 1]);
    }
    lemma_index_from_found(t, ':', b + 1, n);
    assert(t.subrange(0, a) =~= hh);
    assert(t.subrange(a + 1, b) =~= mm);
    assert(t.subrange(b + 1, n) =~= ss);
}

/// One field of a time as a number.
fn field_value(v: &Vec<char>, from: usize, to: usize) -> (n: u64)
    requires
        from <= to <= v.len(),
    ensures
        n == time_field(v@.subrange(from as int, to as int)),
{
    let field = slice_of(v, from, to);
    match parse_decimal(&field, u64::MAX) {
        Some(n) => n,
        None => 0,
    }
}

/// The seconds that `t` writes as `HH:MM:SS`.
pub fn parse_time(t: &str) -> (secs: u64)
    ensures
        secs == wrapped_seconds(t@),
        seconds_of(t@) <= u64::MAX ==> secs == seconds_of(t@),
{
    let v = chars_of(t);
    let n: usize = v.len();
    let a = find_char(&v, ':', 0);
    if a >= n {
        return 0;
    }
    let b = find_char(&v, ':', a + 1);
    if b >= n {
        return 0;
    }
    let c = find_char(&v, ':', b + 1);
    if c < n {
        return 0;
    }
    let h: u128 = field_value(&v, 0, a) as u128;
    let m: u128 = field_value(&v, a + 1, b) as u128;
    let s: u128 = field_value(&v, b + 1, n) as u128;
    let total: u128 = h * 3600 + m * 60 + s;
    (total % 0x1_0000_0000_0000_0000) as u64
}

/// Elapsed time and track duration in the answer to `GetPositionInfo`, in
/// seconds, the tags matched in any case and with attributes.
pub fn position_secs_from_response(xml: &str) -> (secs: (u64, u64))
    ensures
        secs.0 == wrapped_seconds(time_text(regex_first_group(REL_TIME_LENIENT@, xml@))),
        secs.1 == wrapped_seconds(time_text(regex_first_group(DURATION_LENIENT@, xml@))),
{
    let current = time_from_capture(first_group(REL_TIME_LENIENT, xml));
    let total = time_from_capture(first_group(DURATION_LENIENT, xml));
    (parse_time(current.as_str()), parse_time(total.as_str()))
}

} // verus!
