//! Tokens that tie a response to the request that caused it.
use rand::distributions::{Distribution, Uniform};
use vstd::prelude::*;

use crate::error::XapError;
use crate::wire::{read_u16_le, spec_u16_le, spec_u16_le_bytes};

verus! {

/// Smallest token value a host may choose for a request that expects a response.
pub const TOKEN_MIN_REGULAR: u16 = 0x0100;

/// Largest token value a host may choose for a request that expects a response.
pub const TOKEN_MAX_REGULAR: u16 = 0xFFFD;

/// Token of requests that expect no response.
pub const TOKEN_WITHOUT_RESPONSE: u16 = 0xFFFE;

/// Token that marks a report as a broadcast from the device.
pub const TOKEN_BROADCAST: u16 = 0xFFFF;

#[derive(Debug, Clone, Copy, PartialEq, Eq, Hash, Structural)]
pub enum Token {
    WithResponse(u16),
    WithoutResponse,
    Broadcast,
}

/// Draws a value uniformly from `low..=high`.
///
/// Calls `rand::distributions::Uniform::from(low..=high).sample(&mut rand::thread_rng())`;
/// the only claim made of it is that the sample lies in the range, which the
/// rejection loop of `UniformInt::sample` in rand 0.8 guarantees.  The value
/// itself depends on chance.
#[verifier::external_body]
fn random_u16_inclusive(low: u16, high: u16) -> (r: u16)
    requires
        low <= high,
    ensures
        low <= r <= high,
{
    Uniform::from(low..=high).sample(&mut rand::thread_rng())
}

impl Token {
    /// A token is well formed when it is one that the protocol can carry.
    pub open spec fn well_formed(self) -> bool {
        match self {
            Token::WithResponse(v) => TOKEN_MIN_REGULAR <= v <= TOKEN_MAX_REGULAR,
            _ => true,
        }
    }

    /// The raw 16 bit value of a token on the wire.
    pub open spec fn spec_raw(self) -> u16 {
        match self {
            Token::WithResponse(v) => v,
            Token::WithoutResponse => TOKEN_WITHOUT_RESPONSE,
            Token::Broadcast => TOKEN_BROADCAST,
        }
    }

    /// How a raw 16 bit value is interpreted as a token.
    pub open spec fn spec_from_raw(raw: u16) -> Result<Token, XapError> {
        if TOKEN_MIN_REGULAR <= raw <= TOKEN_MAX_REGULAR {
            Ok(Token::WithResponse(raw))
        } else if raw == TOKEN_WITHOUT_RESPONSE {
            Ok(Token::WithoutResponse)
        } else if raw == TOKEN_BROADCAST {
            Ok(Token::Broadcast)
        } else {
            Err(XapError::InvalidToken(raw))
        }
    }

    /// Reading a token from the start of a byte sequence.
    pub open spec fn spec_read(s: Seq<u8>) -> Result<Token, XapError> {
        if s.len() < 2 {
            Err(XapError::UnexpectedEndOfInput)
        } else {
            Token::spec_from_raw(spec_u16_le(s, 0))
        }
    }

    /// A fresh token for a request that expects a response.
    pub fn regular_token() -> (t: Token)
        ensures
            t is WithResponse,
            t.well_formed(),
    {
        Token::WithResponse(random_u16_inclusive(TOKEN_MIN_REGULAR, TOKEN_MAX_REGULAR))
    }

    /// The token of a broadcast.
    pub fn broadcast_token() -> (t: Token)
        ensures
            t == Token::Broadcast,
    {
        Token::Broadcast
    }

    /// The token of a request that expects no response.
    pub fn without_response_token() -> (t: Token)
        ensures
            t == Token::WithoutResponse,
    {
        Token::WithoutResponse
    }

    pub fn from_raw(raw: u16) -> (r: Result<Token, XapError>)
        ensures
            r == Token::spec_from_raw(raw),
    {
        if TOKEN_MIN_REGULAR <= raw && raw <= TOKEN_MAX_REGULAR {
            Ok(Token::WithResponse(raw))
        } else if raw == TOKEN_WITHOUT_RESPONSE {
            Ok(Token::WithoutResponse)
        } else if raw == TOKEN_BROADCAST {
            Ok(Token::Broadcast)
        } else {
            Err(XapError::InvalidToken(raw))
        }
    }

    /// Reads a little-endian token from the start of `s`.
    pub fn read(s: &[u8]) -> (r: Result<Token, XapError>)
        ensures
            r == Token::spec_read(s@),
    {
        if s.len() < 2 {
            Err(XapError::UnexpectedEndOfInput)
        } else {
            Token::from_raw(read_u16_le(s, 0))
        }
    }

    pub fn raw(&self) -> (r: u16)
        ensures
            r == self.spec_raw(),
    {
        match self {
            Token::WithResponse(v) => *v,
            Token::WithoutResponse => TOKEN_WITHOUT_RESPONSE,
            Token::Broadcast => TOKEN_BROADCAST,
        }
    }
}

/// Every well-formed token survives a trip through its raw value.
pub proof fn lemma_token_raw_roundtrip(t: Token)
    requires
        t.well_formed(),
    ensures
        Token::spec_from_raw(t.spec_raw()) == Ok::<Token, XapError>(t),
{
}

/// A raw value that reads as a token is that token's raw value.
pub proof fn lemma_token_from_raw_inverse(raw: u16)
    ensures
        Token::spec_from_raw(raw) matches Ok(t) ==> t.well_formed() && t.spec_raw() == raw,
{
}

/// Writing a well-formed token in little-endian order and reading it back gives the same token.
pub proof fn lemma_token_bytes_roundtrip(t: Token)
    requires
        t.well_formed(),
    ensures
        Token::spec_read(spec_u16_le_bytes(t.spec_raw())) == Ok::<Token, XapError>(t),
{
    crate::wire::lemma_u16_le_roundtrip(t.spec_raw());
}

} // verus!
