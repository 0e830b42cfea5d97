//! Canonicalization of a verification request into a session record.

use crate::hexcode::{decode_hex, hex_decoded, is_hex_digit, is_hex_text};
use crate::session::GameSession;
use vstd::prelude::*;
use vstd::utf8::encode_utf8;

verus! {

/// Why a request could not become a session record.
#[derive(Clone, Copy, Debug, PartialEq, Eq)]
pub enum RequestError {
    /// The player address is not 20 bytes of hex text.
    InvalidAddress,
    /// The session ends before it starts.
    InvalidTimestamps,
}

/// A verification request as it arrives: the address is still text.
#[derive(Clone, Debug)]
pub struct ProofRequest {
    pub player_address: String,
    pub start_timestamp: u64,
    pub end_timestamp: u64,
    pub blocks_destroyed: u32,
    pub decisions_made: Vec<u8>,
    pub final_soul_tokens: u64,
    pub total_clicks: u32,
    pub version: u8,
}

/// Bytes with one leading `0x`, where there is one, removed.
pub open spec fn strip_hex_prefix(b: Seq<u8>) -> Seq<u8> {
    if b.len() >= 2 && b[0] == 48u8 && b[1] == 120u8 {
        b.subrange(2, b.len() as int)
    } else {
        b
    }
}

/// The hex digits of an address text.
pub open spec fn address_digits(s: Seq<char>) -> Seq<u8> {
    strip_hex_prefix(encode_utf8(s))
}

/// An address text that stands for exactly 20 bytes.
pub open spec fn address_ok(s: Seq<char>) -> bool {
    is_hex_text(address_digits(s)) && address_digits(s).len() == 40
}

/// Decodes a player address: hex digits of 20 bytes, after any leading `0x`.
pub fn decode_player_address(text: &str) -> (r: Result<[u8; 20], RequestError>)
    ensures
        r is Ok <==> address_ok(text@),
        r matches Ok(a) ==> a@ == hex_decoded(address_digits(text@)),
        r matches Err(e) ==> e == RequestError::InvalidAddress,
{
    let b = text.as_bytes();
    let k: usize = if b.len() >= 2 && b[0] == 48u8 && b[1] == 120u8 {
        2
    } else {
        0
    };
    assert(b@.subrange(0, b@.len() as int) =~= b@);
    let mut digits: Vec<u8> = Vec::new();
    let mut i: usize = k;
    while i < b.len()
        invariant
            k <= i <= b@.len(),
            digits@ == b@.subrange(k as int, i as int),
        decreases b@.len() - i,
    {
        digits.push(b[i]);
        i = i + 1;
        assert(digits@ =~= b@.subrange(k as int, i as int));
    }
    assert(digits@ == strip_hex_prefix(b@));
    match decode_hex(digits.as_slice()) {
        Ok(v) => {
            if v.len() != 20 {
                return Err(RequestError::InvalidAddress);
            }
            let mut a = [0u8; 20];
            let mut j: usize = 0;
            while j < 20
                invariant
                    j <= 20,
                    v@.len() == 20,
                    forall|m: int| 0 <= m < j ==> a@[m] == v@[m],
                decreases 20 - j,
            {
                a[j] = v[j];
                j = j + 1;
            }
            assert(a@ =~= v@);
            Ok(a)
        },
        Err(_) => Err(RequestError::InvalidAddress),
    }
}

/// The human-readable text of a request error.
pub open spec fn request_error_text(e: RequestError) -> Seq<char> {
    match e {
        RequestError::InvalidAddress => "address must be 20 bytes of hex text"@,
        RequestError::InvalidTimestamps => "session ends before it starts"@,
    }
}

impl RequestError {
    /// The human-readable text of this error.
    pub fn message(&self) -> (r: String)
        ensures
            r@ == request_error_text(*self),
    {
        match self {
            RequestError::InvalidAddress => "address must be 20 bytes of hex text".to_owned(),
            RequestError::InvalidTimestamps => "session ends before it starts".to_owned(),
        }
    }
}

/// An address text is accepted exactly when its digits, after any leading
/// `0x`, decode, and decode to 20 bytes.
pub proof fn lemma_address_twenty_bytes(s: Seq<char>)
    ensures
        address_ok(s) <==> (is_hex_text(address_digits(s)) && hex_decoded(address_digits(s)).len()
            == 20),
{
}

/// The prefix is optional and single: after one leading `0x` the digits are
/// the rest of the text, a second `0x` included.
pub proof fn lemma_prefix_optional(t: Seq<u8>)
    ensures
        strip_hex_prefix(seq![48u8, 120u8] + t) == t,
        !(t.len() >= 2 && t[0] == 48u8 && t[1] == 120u8) ==> strip_hex_prefix(t) == t,
{
    let p = seq![48u8, 120u8] + t;
    assert(p.subrange(2, p.len() as int) =~= t);
}

/// Text with two leading `0x` is refused: `x` is no hex digit.
pub proof fn lemma_double_prefix_refused(t: Seq<u8>)
    ensures
        !is_hex_text(strip_hex_prefix(seq![48u8, 120u8, 48u8, 120u8] + t)),
{
    let p = seq![48u8, 120u8, 48u8, 120u8] + t;
    let d = strip_hex_prefix(p);
    assert(d == p.subrange(2, p.len() as int));
    assert(d[1] == 120u8);
    assert(!is_hex_digit(d[1]));
}

impl ProofRequest {
    /// The session record of this request. The address must decode to
    /// exactly 20 bytes, and the session may not end before it starts.
    pub fn to_game_session(&self) -> (r: Result<GameSession, RequestError>)
        ensures
            !address_ok(self.player_address@) ==> r == Err::<GameSession, RequestError>(
                RequestError::InvalidAddress,
            ),
            address_ok(self.player_address@) && self.end_timestamp < self.start_timestamp ==> r
                == Err::<GameSession, RequestError>(RequestError::InvalidTimestamps),
            r is Ok <==> address_ok(self.player_address@) && self.start_timestamp
                <= self.end_timestamp,
            r matches Ok(s) ==> {
                &&& s.player_address@ == hex_decoded(address_digits(self.player_address@))
                &&& s.start_timestamp == self.start_timestamp
                &&& s.end_timestamp == self.end_timestamp
                &&& s.blocks_destroyed == self.blocks_destroyed
                &&& s.decisions_made@ == self.decisions_made@
                &&& s.final_soul_tokens == self.final_soul_tokens
                &&& s.total_clicks == self.total_clicks
                &&& s.version == self.version
            },
    {
        let player_address = match decode_player_address(self.player_address.as_str()) {
            Ok(a) => a,
            Err(e) => {
                return Err(e);
            },
        };
        if self.end_timestamp < self.start_timestamp {
            return Err(RequestError::InvalidTimestamps);
        }
        Ok(
            GameSession {
                player_address,
                start_timestamp: self.start_timestamp,
                end_timestamp: self.end_timestamp,
                blocks_destroyed: self.blocks_destroyed,
                decisions_made: self.decisions_made.clone(),
                final_soul_tokens: self.final_soul_tokens,
                total_clicks: self.total_clicks,
                version: self.version,
            },
        )
    }
}

} // verus!
