//! The wire codec of the structured protocol.
//!
//! Inbound frames are JSON text: either the bare tag `"GetState"`, or
//! `{"SendState":{"time":<number>,"uid":<integer>,"playing":<bool>}}` with
//! whitespace allowed between tokens. Outbound frames are the flat object
//! `{"time":<number>,"source_uid":<integer>,"playing":<bool>}`. The playback
//! time is carried as the untouched decimal text of the JSON number, so no
//! floating point is ever interpreted here; session ids are unsigned 16-bit
//! integers. Anything that does not match the inbound grammar decodes to
//! [`DecodeError::InvalidStructure`].
//!
//! The grammar is defined by the `sp_*` specification functions; `decode` and
//! `encode` are proved to agree with them exactly.

use vstd::prelude::*;

use crate::server::ClientData;
use crate::server::ClientDataSpec;
use crate::server::ServerCommand;
use crate::server::ServerCommandSpec;

verus! {

/// JSON inter-token whitespace.
pub open spec fn is_ws(c: char) -> bool {
    c == ' ' || c == '\t' || c == '\n' || c == '\r'
}

/// An ASCII decimal digit.
pub open spec fn is_digit(c: char) -> bool {
    48 <= c as int && c as int <= 57
}

/// The numeric value of an ASCII decimal digit.
pub open spec fn digit_val(c: char) -> int {
    c as int - 48
}

/// The first index at or after `i` that does not hold whitespace.
pub open spec fn sp_ws(s: Seq<char>, i: int) -> int
    decreases s.len() - i,
{
    if 0 <= i < s.len() && is_ws(s[i]) {
        sp_ws(s, i + 1)
    } else {
        i
    }
}

/// The index just past `lit` when `s` carries `lit` verbatim at `i`.
pub open spec fn sp_lit(s: Seq<char>, i: int, lit: Seq<char>) -> Option<int>
    decreases lit.len(),
{
    if lit.len() == 0 {
        Some(i)
    } else if 0 <= i < s.len() && s[i] == lit[0] {
        sp_lit(s, i + 1, lit.drop_first())
    } else {
        None
    }
}

/// The index just past `c` when, after whitespace, `s` carries `c` at `i`.
pub open spec fn sp_char(s: Seq<char>, i: int, c: char) -> Option<int> {
    let j = sp_ws(s, i);
    if 0 <= j < s.len() && s[j] == c {
        Some(j + 1)
    } else {
        None
    }
}

/// The index just past an object key: whitespace, the quoted key `k`,
/// whitespace, and a colon.
pub open spec fn sp_key(s: Seq<char>, i: int, k: Seq<char>) -> Option<int> {
    match sp_lit(s, sp_ws(s, i), k) {
        Some(j) => sp_char(s, j, ':'),
        None => None,
    }
}

/// The end of the maximal digit run starting at `i`.
pub open spec fn sp_digits_end(s: Seq<char>, i: int) -> int
    decreases s.len() - i,
{
    if 0 <= i < s.len() && is_digit(s[i]) {
        sp_digits_end(s, i + 1)
    } else {
        i
    }
}

/// The value of the digit run `s[i..j)`.
pub open spec fn sp_digits_val(s: Seq<char>, i: int, j: int) -> int
    decreases j - i,
{
    if i < j {
        sp_digits_val(s, i, j - 1) * 10 + digit_val(s[j - 1])
    } else {
        0
    }
}

/// The end of a JSON number starting exactly at `i`: an optional minus sign,
/// an integer part without a superfluous leading zero, an optional fraction,
/// an optional exponent.
pub open spec fn sp_number(s: Seq<char>, i: int) -> Option<int> {
    let i0 = if 0 <= i < s.len() && s[i] == '-' {
        i + 1
    } else {
        i
    };
    if !(0 <= i0 < s.len() && is_digit(s[i0])) {
        None
    } else {
        let i1 = if s[i0] == '0' {
            i0 + 1
        } else {
            sp_digits_end(s, i0)
        };
        match sp_frac(s, i1) {
            Some(j) => sp_exp(s, j),
            None => None,
        }
    }
}

/// The end of an optional fraction part starting at `i`.
pub open spec fn sp_frac(s: Seq<char>, i: int) -> Option<int> {
    if 0 <= i < s.len() && s[i] == '.' {
        if 0 <= i + 1 < s.len() && is_digit(s[i + 1]) {
            Some(sp_digits_end(s, i + 1))
        } else {
            None
        }
    } else {
        Some(i)
    }
}

/// The end of an optional exponent part starting at `i`.
pub open spec fn sp_exp(s: Seq<char>, i: int) -> Option<int> {
    if 0 <= i < s.len() && (s[i] == 'e' || s[i] == 'E') {
        let j = if 0 <= i + 1 < s.len() && (s[i + 1] == '+' || s[i + 1] == '-') {
            i + 2
        } else {
            i + 1
        };
        if 0 <= j < s.len() && is_digit(s[j]) {
            Some(sp_digits_end(s, j))
        } else {
            None
        }
    } else {
        Some(i)
    }
}

/// A session id on the wire: a digit run without a superfluous leading zero
/// whose value fits 16 bits.
pub open spec fn sp_u16(s: Seq<char>, i: int) -> Option<(u16, int)> {
    let j = sp_digits_end(s, i);
    if i < j && (s[i] != '0' || j == i + 1) && j - i <= 5 && sp_digits_val(s, i, j) <= 65535 {
        Some((sp_digits_val(s, i, j) as u16, j))
    } else {
        None
    }
}

/// A JSON boolean starting exactly at `i`.
pub open spec fn sp_bool(s: Seq<char>, i: int) -> Option<(bool, int)> {
    match sp_lit(s, i, "true"@) {
        Some(j) => Some((true, j)),
        None => match sp_lit(s, i, "false"@) {
            Some(j) => Some((false, j)),
            None => None,
        },
    }
}

/// Abstract value of an [`IncomingRequest`].
pub enum IncomingRequestSpec {
    SendState(ClientDataSpec),
    GetState,
}

/// What an inbound frame decodes to: `None` is a decode failure.
pub open spec fn sp_decode(s: Seq<char>) -> Option<IncomingRequestSpec> {
    let i = sp_ws(s, 0);
    if 0 <= i < s.len() && s[i] == '"' {
        sp_decode_getstate(s, i)
    } else if 0 <= i < s.len() && s[i] == '{' {
        sp_decode_sendstate(s, i)
    } else {
        None
    }
}

/// The tail of the grammar after a leading quote: the bare tag `"GetState"`
/// followed only by whitespace.
pub open spec fn sp_decode_getstate(s: Seq<char>, i: int) -> Option<IncomingRequestSpec> {
    match sp_lit(s, i, "\"GetState\""@) {
        Some(j) => if sp_ws(s, j) == s.len() {
            Some(IncomingRequestSpec::GetState)
        } else {
            None
        },
        None => None,
    }
}

/// The tail of the grammar after a leading `{`: the tagged `SendState` object.
pub open spec fn sp_decode_sendstate(s: Seq<char>, i: int) -> Option<IncomingRequestSpec> {
    match sp_key(s, i + 1, "\"SendState\""@) {
        Some(a) => match sp_char(s, a, '{') {
            Some(b) => match sp_key(s, b, "\"time\""@) {
                Some(c) => sp_after_time_key(s, sp_ws(s, c)),
                None => None,
            },
            None => None,
        },
        None => None,
    }
}

/// The tail after the `time` key: its number, then the `uid` member.
pub open spec fn sp_after_time_key(s: Seq<char>, t0: int) -> Option<IncomingRequestSpec> {
    match sp_number(s, t0) {
        Some(t1) => {
            let time = s.subrange(t0, t1);
            match sp_char(s, t1, ',') {
                Some(d) => match sp_key(s, d, "\"uid\""@) {
                    Some(e) => match sp_u16(s, sp_ws(s, e)) {
                        Some((uid, f)) => sp_after_uid(s, time, uid, f),
                        None => None,
                    },
                    None => None,
                },
                None => None,
            }
        },
        None => None,
    }
}

/// The tail after the `uid` value: the `playing` member.
pub open spec fn sp_after_uid(s: Seq<char>, time: Seq<char>, uid: u16, f: int) -> Option<
    IncomingRequestSpec,
> {
    match sp_char(s, f, ',') {
        Some(g) => match sp_key(s, g, "\"playing\""@) {
            Some(h) => match sp_bool(s, sp_ws(s, h)) {
                Some((playing, m)) => sp_after_playing(s, time, uid, playing, m),
                None => None,
            },
            None => None,
        },
        None => None,
    }
}

/// The tail after the `playing` value: both closing braces and trailing
/// whitespace up to the end of the frame.
pub open spec fn sp_after_playing(
    s: Seq<char>,
    time: Seq<char>,
    uid: u16,
    playing: bool,
    m: int,
) -> Option<IncomingRequestSpec> {
    match sp_char(s, m, '}') {
        Some(q) => match sp_char(s, q, '}') {
            Some(w) => if sp_ws(s, w) == s.len() {
                Some(
                    IncomingRequestSpec::SendState(
                        ClientDataSpec { time: time, uid: uid, playing: playing },
                    ),
                )
            } else {
                None
            },
            None => None,
        },
        None => None,
    }
}

/// A decoded inbound command.
pub enum IncomingRequest {
    /// Overwrite the shared playback state; the carried uid is the producer's
    /// claim and is replaced by the session's real id before use.
    SendState(ClientData),
    /// Ask for the current playback state.
    GetState,
}

impl View for IncomingRequest {
    type V = IncomingRequestSpec;

    open spec fn view(&self) -> IncomingRequestSpec {
        match self {
            IncomingRequest::SendState(d) => IncomingRequestSpec::SendState(d@),
            IncomingRequest::GetState => IncomingRequestSpec::GetState,
        }
    }
}

/// Why an inbound frame was rejected.
#[derive(Clone, Copy, Debug, PartialEq, Eq, Structural)]
pub enum DecodeError {
    /// The frame does not match the inbound grammar.
    InvalidStructure,
}

/// Whether `c` is JSON inter-token whitespace.
fn ws_char(c: char) -> (b: bool)
    ensures
        b == is_ws(c),
{
    c == ' ' || c == '\t' || c == '\n' || c == '\r'
}

/// Whether `c` is an ASCII decimal digit.
fn digit_char(c: char) -> (b: bool)
    ensures
        b == is_digit(c),
{
    let u: u32 = c as u32;
    u >= 48 && u <= 57
}

/// Skips whitespace.
fn skip_ws(s: &Vec<char>, i: usize) -> (j: usize)
    requires
        i <= s@.len(),
    ensures
        j as int == sp_ws(s@, i as int),
        i <= j <= s@.len(),
{
    let mut j: usize = i;
    while j < s.len() && ws_char(s[j])
        invariant
            i <= j <= s@.len(),
            sp_ws(s@, i as int) == sp_ws(s@, j as int),
        decreases s@.len() - j,
    {
        j = j + 1;
    }
    j
}

/// Matches `lit` verbatim at `i`.
fn match_lit(s: &Vec<char>, i: usize, lit: &str) -> (r: Option<usize>)
    requires
        i <= s@.len(),
    ensures
        match r {
            Some(j) => sp_lit(s@, i as int, lit@) == Some(j as int) && i <= j <= s@.len(),
            None => sp_lit(s@, i as int, lit@) is None,
        },
{
    let n: usize = lit.unicode_len();
    let mut k: usize = 0;
    proof {
        assert(lit@.skip(0) =~= lit@);
    }
    while k < n
        invariant
            k <= n,
            n == lit@.len(),
            i <= s@.len(),
            i + k <= s@.len(),
            sp_lit(s@, i as int, lit@) == sp_lit(s@, i + k, lit@.skip(k as int)),
        decreases n - k,
    {
        if s.len() - i <= k {
            proof {
                assert(lit@.skip(k as int).len() > 0);
            }
            return None;
        }
        let c: char = lit.get_char(k);
        proof {
            assert(lit@.skip(k as int)[0] == lit@[k as int]);
        }
        if s[i + k] != c {
            return None;
        }
        proof {
            assert(lit@.skip(k as int).drop_first() =~= lit@.skip(k as int + 1));
        }
        k = k + 1;
    }
    let sl: usize = s.len();
    proof {
        assert(lit@.skip(n as int).len() == 0);
        assert(i + n <= sl);
    }
    Some(i + n)
}

/// Matches, after whitespace, the single character `c`.
fn expect_char(s: &Vec<char>, i: usize, c: char) -> (r: Option<usize>)
    requires
        i <= s@.len(),
    ensures
        match r {
            Some(j) => sp_char(s@, i as int, c) == Some(j as int) && i <= j <= s@.len(),
            None => sp_char(s@, i as int, c) is None,
        },
{
    let j: usize = skip_ws(s, i);
    if j < s.len() && s[j] == c {
        Some(j + 1)
    } else {
        None
    }
}

/// Matches an object key: whitespace, the quoted key, whitespace, a colon.
fn match_key(s: &Vec<char>, i: usize, k: &str) -> (r: Option<usize>)
    requires
        i <= s@.len(),
    ensures
        match r {
            Some(j) => sp_key(s@, i as int, k@) == Some(j as int) && i <= j <= s@.len(),
            None => sp_key(s@, i as int, k@) is None,
        },
{
    let a: usize = skip_ws(s, i);
    match match_lit(s, a, k) {
        Some(j) => expect_char(s, j, ':'),
        None => None,
    }
}

/// Scans the maximal digit run starting at `i`.
fn scan_digits(s: &Vec<char>, i: usize) -> (j: usize)
    requires
        i <= s@.len(),
    ensures
        j as int == sp_digits_end(s@, i as int),
        i <= j <= s@.len(),
{
    let mut j: usize = i;
    while j < s.len() && digit_char(s[j])
        invariant
            i <= j <= s@.len(),
            sp_digits_end(s@, i as int) == sp_digits_end(s@, j as int),
        decreases s@.len() - j,
    {
        j = j + 1;
    }
    j
}

/// Every index of the maximal digit run holds a digit.
proof fn lemma_digits_range(s: Seq<char>, i: int)
    requires
        0 <= i <= s.len(),
    ensures
        i <= sp_digits_end(s, i) <= s.len(),
        forall|k: int| i <= k < sp_digits_end(s, i) ==> is_digit(#[trigger] s[k]),
    decreases s.len() - i,
{
    if i < s.len() && is_digit(s[i]) {
        lemma_digits_range(s, i + 1);
    }
}

/// Scans a JSON number starting exactly at `i`.
fn scan_number(s: &Vec<char>, i: usize) -> (r: Option<usize>)
    requires
        i <= s@.len(),
    ensures
        match r {
            Some(j) => sp_number(s@, i as int) == Some(j as int) && i <= j <= s@.len(),
            None => sp_number(s@, i as int) is None,
        },
{
    let mut i0: usize = i;
    if i0 < s.len() && s[i0] == '-' {
        i0 = i0 + 1;
    }
    if i0 >= s.len() {
        return None;
    }
    if !digit_char(s[i0]) {
        return None;
    }
    let i1: usize = if s[i0] == '0' {
        i0 + 1
    } else {
        scan_digits(s, i0)
    };
    match scan_frac(s, i1) {
        Some(j) => scan_exp(s, j),
        None => None,
    }
}

/// Scans an optional fraction part starting at `i`.
fn scan_frac(s: &Vec<char>, i: usize) -> (r: Option<usize>)
    requires
        i <= s@.len(),
    ensures
        match r {
            Some(j) => sp_frac(s@, i as int) == Some(j as int) && i <= j <= s@.len(),
            None => sp_frac(s@, i as int) is None,
        },
{
    if i < s.len() && s[i] == '.' {
        if i + 1 < s.len() && digit_char(s[i + 1]) {
            Some(scan_digits(s, i + 1))
        } else {
            None
        }
    } else {
        Some(i)
    }
}

/// Scans an optional exponent part starting at `i`.
fn scan_exp(s: &Vec<char>, i: usize) -> (r: Option<usize>)
    requires
        i <= s@.len(),
    ensures
        match r {
            Some(j) => sp_exp(s@, i as int) == Some(j as int) && i <= j <= s@.len(),
            None => sp_exp(s@, i as int) is None,
        },
{
    if i < s.len() && (s[i] == 'e' || s[i] == 'E') {
        let j: usize = if i + 1 < s.len() && (s[i + 1] == '+' || s[i + 1] == '-') {
            i + 2
        } else {
            i + 1
        };
        if j < s.len() && digit_char(s[j]) {
            Some(scan_digits(s, j))
        } else {
            None
        }
    } else {
        Some(i)
    }
}

/// Scans a 16-bit session id starting exactly at `i`.
fn scan_u16(s: &Vec<char>, i: usize) -> (r: Option<(u16, usize)>)
    requires
        i <= s@.len(),
    ensures
        match r {
            Some(p) => sp_u16(s@, i as int) == Some((p.0, p.1 as int)) && i <= p.1 <= s@.len(),
            None => sp_u16(s@, i as int) is None,
        },
{
    let j: usize = scan_digits(s, i);
    if j == i {
        return None;
    }
    if s[i] == '0' && j > i + 1 {
        return None;
    }
    if j - i > 5 {
        return None;
    }
    proof {
        lemma_digits_range(s@, i as int);
    }
    let mut val: u32 = 0;
    let mut k: usize = i;
    while k < j
        invariant
            i <= k <= j,
            j - i <= 5,
            j <= s@.len(),
            j as int == sp_digits_end(s@, i as int),
            forall|t: int| i <= t < j ==> is_digit(#[trigger] s@[t]),
            val as int == sp_digits_val(s@, i as int, k as int),
            k - i == 0 ==> val == 0,
            k - i == 1 ==> val <= 9,
            k - i == 2 ==> val <= 99,
            k - i == 3 ==> val <= 999,
            k - i == 4 ==> val <= 9999,
            k - i == 5 ==> val <= 99999,
        decreases j - k,
    {
        let d: u32 = (s[k] as u32) - 48;
        val = val * 10 + d;
        k = k + 1;
    }
    if val > 65535 {
        return None;
    }
    Some((val as u16, j))
}

/// Scans a JSON boolean starting exactly at `i`.
fn scan_bool(s: &Vec<char>, i: usize) -> (r: Option<(bool, usize)>)
    requires
        i <= s@.len(),
    ensures
        match r {
            Some(p) => sp_bool(s@, i as int) == Some((p.0, p.1 as int)) && i <= p.1 <= s@.len(),
            None => sp_bool(s@, i as int) is None,
        },
{
    match match_lit(s, i, "true") {
        Some(j) => Some((true, j)),
        None => match match_lit(s, i, "false") {
            Some(j) => Some((false, j)),
            None => None,
        },
    }
}

/// Copies `s[a..b)` into a fresh buffer.
fn copy_range(s: &Vec<char>, a: usize, b: usize) -> (r: Vec<char>)
    requires
        a <= b <= s@.len(),
    ensures
        r@ == s@.subrange(a as int, b as int),
{
    let mut r: Vec<char> = Vec::new();
    let mut k: usize = a;
    proof {
        assert(r@ =~= s@.subrange(a as int, a as int));
    }
    while k < b
        invariant
            a <= k <= b <= s@.len(),
            r@ == s@.subrange(a as int, k as int),
        decreases b - k,
    {
        r.push(s[k]);
        proof {
            assert(r@ =~= s@.subrange(a as int, k as int + 1));
        }
        k = k + 1;
    }
    r
}

/// Decodes one inbound frame: exactly the frames of the inbound grammar are
/// accepted, and the decoded command carries exactly what the frame carried
/// (the time as its untouched number text); every other frame is rejected
/// with [`DecodeError::InvalidStructure`].
pub fn decode(frame: &Vec<char>) -> (r: Result<IncomingRequest, DecodeError>)
    ensures
        match r {
            Ok(m) => sp_decode(frame@) == Some(m@),
            Err(e) => sp_decode(frame@) is None && e == DecodeError::InvalidStructure,
        },
{
    let i: usize = skip_ws(frame, 0);
    if i < frame.len() && frame[i] == '"' {
        match match_lit(frame, i, "\"GetState\"") {
            Some(j) => {
                let k: usize = skip_ws(frame, j);
                if k == frame.len() {
                    Ok(IncomingRequest::GetState)
                } else {
                    Err(DecodeError::InvalidStructure)
                }
            },
            None => Err(DecodeError::InvalidStructure),
        }
    } else if i < frame.len() && frame[i] == '{' {
        decode_sendstate(frame, i)
    } else {
        Err(DecodeError::InvalidStructure)
    }
}

/// Decodes the `SendState` object whose opening brace stands at `i`.
fn decode_sendstate(frame: &Vec<char>, i: usize) -> (r: Result<IncomingRequest, DecodeError>)
    requires
        i < frame@.len(),
    ensures
        match r {
            Ok(m) => sp_decode_sendstate(frame@, i as int) == Some(m@),
            Err(e) => sp_decode_sendstate(frame@, i as int) is None && e
                == DecodeError::InvalidStructure,
        },
{
    let len: usize = frame.len();
    let a: usize = match match_key(frame, i + 1, "\"SendState\"") {
        Some(x) => x,
        None => {
            return Err(DecodeError::InvalidStructure);
        },
    };
    let b: usize = match expect_char(frame, a, '{') {
        Some(x) => x,
        None => {
            return Err(DecodeError::InvalidStructure);
        },
    };
    let c: usize = match match_key(frame, b, "\"time\"") {
        Some(x) => x,
        None => {
            return Err(DecodeError::InvalidStructure);
        },
    };
    let t0: usize = skip_ws(frame, c);
    let t1: usize = match scan_number(frame, t0) {
        Some(x) => x,
        None => {
            return Err(DecodeError::InvalidStructure);
        },
    };
    let time: Vec<char> = copy_range(frame, t0, t1);
    let d: usize = match expect_char(frame, t1, ',') {
        Some(x) => x,
        None => {
            return Err(DecodeError::InvalidStructure);
        },
    };
    let e: usize = match match_key(frame, d, "\"uid\"") {
        Some(x) => x,
        None => {
            return Err(DecodeError::InvalidStructure);
        },
    };
    let e1: usize = skip_ws(frame, e);
    let (uid, f): (u16, usize) = match scan_u16(frame, e1) {
        Some(x) => x,
        None => {
            return Err(DecodeError::InvalidStructure);
        },
    };
    let g: usize = match expect_char(frame, f, ',') {
        Some(x) => x,
        None => {
            return Err(DecodeError::InvalidStructure);
        },
    };
    let h: usize = match match_key(frame, g, "\"playing\"") {
        Some(x) => x,
        None => {
            return Err(DecodeError::InvalidStructure);
        },
    };
    let h1: usize = skip_ws(frame, h);
    let (playing, m): (bool, usize) = match scan_bool(frame, h1) {
        Some(x) => x,
        None => {
            return Err(DecodeError::InvalidStructure);
        },
    };
    let q: usize = match expect_char(frame, m, '}') {
        Some(x) => x,
        None => {
            return Err(DecodeError::InvalidStructure);
        },
    };
    let w: usize = match expect_char(frame, q, '}') {
        Some(x) => x,
        None => {
            return Err(DecodeError::InvalidStructure);
        },
    };
    let z: usize = skip_ws(frame, w);
    if z != frame.len() {
        return Err(DecodeError::InvalidStructure);
    }
    Ok(IncomingRequest::SendState(ClientData { time: time, uid: uid, playing: playing }))
}

/// The character of an ASCII decimal digit value.
pub open spec fn digit_char_of(d: int) -> char {
    ((48 + d) as u8) as char
}

/// The decimal text of a session id.
pub open spec fn sp_dec_u16(n: int) -> Seq<char>
    decreases n,
{
    if n < 10 {
        seq![digit_char_of(n)]
    } else {
        sp_dec_u16(n / 10).push(digit_char_of(n % 10))
    }
}

/// The outbound frame for a state notification: the flat object carrying the
/// time text, the attributed session id in decimal, and the play flag.
pub open spec fn sp_encode(c: ServerCommandSpec) -> Seq<char> {
    "{\"time\":"@ + c.time + ",\"source_uid\":"@ + sp_dec_u16(c.source_uid as int)
        + ",\"playing\":"@ + (if c.playing {
        "true"@
    } else {
        "false"@
    }) + "}"@
}

/// The reply to a frame that failed to decode.
pub open spec fn sp_error_reply() -> Seq<char> {
    "{\"error\":\"invalid structure\"}"@
}

/// Appends a literal.
fn push_str_chars(out: &mut Vec<char>, lit: &str)
    ensures
        final(out)@ == old(out)@ + lit@,
{
    let n: usize = lit.unicode_len();
    let mut k: usize = 0;
    proof {
        assert(out@ =~= old(out)@ + lit@.take(0));
    }
    while k < n
        invariant
            k <= n,
            n == lit@.len(),
            out@ == old(out)@ + lit@.take(k as int),
        decreases n - k,
    {
        let c: char = lit.get_char(k);
        out.push(c);
        proof {
            assert(out@ =~= old(out)@ + lit@.take(k as int + 1));
        }
        k = k + 1;
    }
    proof {
        assert(lit@.take(n as int) =~= lit@);
    }
}

/// Appends a character buffer.
fn push_chars(out: &mut Vec<char>, v: &Vec<char>)
    ensures
        final(out)@ == old(out)@ + v@,
{
    let mut k: usize = 0;
    proof {
        assert(out@ =~= old(out)@ + v@.take(0));
    }
    while k < v.len()
        invariant
            k <= v@.len(),
            out@ == old(out)@ + v@.take(k as int),
        decreases v@.len() - k,
    {
        out.push(v[k]);
        proof {
            assert(out@ =~= old(out)@ + v@.take(k as int + 1));
        }
        k = k + 1;
    }
    proof {
        assert(v@.take(v@.len() as int) =~= v@);
    }
}

/// The character of a digit value.
fn digit_to_char(d: u16) -> (c: char)
    requires
        d <= 9,
    ensures
        c == digit_char_of(d as int),
{
    ((48 + d) as u8) as char
}

/// Appends the decimal text of `n`.
fn push_dec(out: &mut Vec<char>, n: u16)
    ensures
        final(out)@ == old(out)@ + sp_dec_u16(n as int),
    decreases n,
{
    if n < 10 {
        let c: char = digit_to_char(n);
        out.push(c);
        proof {
            assert(out@ =~= old(out)@ + sp_dec_u16(n as int));
        }
    } else {
        push_dec(out, n / 10);
        let c: char = digit_to_char(n % 10);
        out.push(c);
        proof {
            assert(out@ =~= old(out)@ + sp_dec_u16(n as int));
        }
    }
}

/// Encodes a state notification into its outbound frame.
pub fn encode(cmd: &ServerCommand) -> (r: Vec<char>)
    ensures
        r@ == sp_encode(cmd@),
{
    let mut out: Vec<char> = Vec::new();
    push_str_chars(&mut out, "{\"time\":");
    push_chars(&mut out, &cmd.time);
    push_str_chars(&mut out, ",\"source_uid\":");
    push_dec(&mut out, cmd.source_uid);
    push_str_chars(&mut out, ",\"playing\":");
    if cmd.playing {
        push_str_chars(&mut out, "true");
    } else {
        push_str_chars(&mut out, "false");
    }
    push_str_chars(&mut out, "}");
    proof {
        assert(out@ =~= sp_encode(cmd@));
    }
    out
}

/// The reply sent for a frame that failed to decode.
pub fn error_reply() -> (r: Vec<char>)
    ensures
        r@ == sp_error_reply(),
{
    let mut out: Vec<char> = Vec::new();
    push_str_chars(&mut out, "{\"error\":\"invalid structure\"}");
    proof {
        assert(out@ =~= sp_error_reply());
    }
    out
}

} // verus!
