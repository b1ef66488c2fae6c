//! Responses: the frame a device answers with and the values read from its payload.
use vstd::prelude::*;
use vstd::utf8::{decode_utf8, valid_utf8};

use crate::error::XapError;
use crate::request::{XapRequest, XapResponse};
use crate::text::utf8_to_string;
use crate::token::Token;
use crate::wire::{read_u16_le, read_u32_le, read_u64_le, spec_u16_le, spec_u32_le, spec_u64_le};

verus! {

/// The flag byte of a response.
#[derive(Debug, Clone, Copy, PartialEq, Eq, PartialOrd, Ord, Hash, Structural)]
pub struct ResponseFlags(pub u8);

impl ResponseFlags {
    /// The request was executed.
    pub const SUCCESS: u8 = 0b1;

    /// The request addressed a secure route while the device was locked.
    pub const SECURE_FAILURE: u8 = 0b10;

    pub fn bits(&self) -> (r: u8)
        ensures
            r == self.0,
    {
        self.0
    }

    /// Whether every bit of `flag` is set.
    pub fn contains(&self, flag: u8) -> (r: bool)
        ensures
            r == (self.0 & flag == flag),
    {
        self.0 & flag == flag
    }
}

/// Reading the header and payload of a response frame: token, flags,
/// payload length and that many payload bytes.
pub open spec fn spec_response_frame(report: Seq<u8>) -> Result<(Token, u8, Seq<u8>), XapError> {
    match Token::spec_read(report) {
        Err(e) => Err(e),
        Ok(token) => if report.len() < 4 {
            Err(XapError::UnexpectedEndOfInput)
        } else if report.len() < 4 + report[3] {
            Err(XapError::UnexpectedEndOfInput)
        } else {
            Ok((token, report[2], report.subrange(4, 4 + report[3])))
        },
    }
}

/// A response frame is accepted when its flags say plain success; a secure
/// failure and every other flag combination are refused.
pub open spec fn spec_response_from_report(report: Seq<u8>) -> Result<(Token, u8, Seq<u8>), XapError> {
    match spec_response_frame(report) {
        Err(e) => Err(e),
        Ok((token, flags, payload)) => if flags == ResponseFlags::SUCCESS {
            Ok((token, flags, payload))
        } else if flags == ResponseFlags::SECURE_FAILURE {
            Err(XapError::SecureLocked)
        } else {
            Err(XapError::UnknownResponseFlags(flags))
        },
    }
}

/// A response as it arrived from the device.
#[derive(Debug, Clone)]
pub struct RawResponse {
    token: Token,
    flags: ResponseFlags,
    payload: Vec<u8>,
}

impl View for RawResponse {
    type V = (Token, u8, Seq<u8>);

    closed spec fn view(&self) -> (Token, u8, Seq<u8>) {
        (self.token, self.flags.0, self.payload@)
    }
}

impl RawResponse {
    /// Reads a response from a received HID report.
    pub fn from_raw_report(report: &[u8]) -> (r: Result<RawResponse, XapError>)
        ensures
            match r {
                Ok(resp) => spec_response_from_report(report@) == Ok::<(Token, u8, Seq<u8>), XapError>(resp@),
                Err(e) => spec_response_from_report(report@) == Err::<(Token, u8, Seq<u8>), XapError>(e),
            },
    {
        let token = match Token::read(report) {
            Ok(t) => t,
            Err(e) => return Err(e),
        };
        if report.len() < 4 {
            return Err(XapError::UnexpectedEndOfInput);
        }
        let flags = report[2];
        let len = report[3] as usize;
        if report.len() < 4 + len {
            return Err(XapError::UnexpectedEndOfInput);
        }
        let n = report.len();
        let mut payload: Vec<u8> = Vec::new();
        let mut i: usize = 0;
        while i < len
            invariant
                i <= len,
                n == report@.len(),
                4 + len <= n,
                payload@ == report@.subrange(4, 4 + i),
            decreases len - i,
        {
            payload.push(report[4 + i]);
            i = i + 1;
            assert(payload@ =~= report@.subrange(4, 4 + i));
        }
        let response = RawResponse { token, flags: ResponseFlags(flags), payload };
        if flags == ResponseFlags::SUCCESS {
            Ok(response)
        } else if flags == ResponseFlags::SECURE_FAILURE {
            Err(XapError::SecureLocked)
        } else {
            Err(XapError::UnknownResponseFlags(flags))
        }
    }

    pub fn token(&self) -> (r: &Token)
        ensures
            *r == self@.0,
    {
        &self.token
    }

    pub fn flags(&self) -> (r: ResponseFlags)
        ensures
            r.0 == self@.1,
    {
        self.flags
    }

    pub fn payload(&self) -> (r: &[u8])
        ensures
            r@ == self@.2,
    {
        self.payload.as_slice()
    }

    /// Reads the response value of request type `T` from the payload.
    pub fn into_xap_response<T: XapRequest>(self) -> (r: Result<T::Response, XapError>)
        ensures
            match r {
                Ok(v) => T::Response::spec_decode(self@.2) == Ok::<
                    <T::Response as XapResponse>::Model,
                    XapError,
                >(v.model()),
                Err(e) => T::Response::spec_decode(self@.2) == Err::<
                    <T::Response as XapResponse>::Model,
                    XapError,
                >(e),
            },
    {
        T::Response::decode(self.payload.as_slice())
    }
}

/// A string payload that fills the rest of the response.
#[derive(Debug, Default, Clone)]
pub struct UTF8String(pub String);

impl XapResponse for UTF8String {
    type Model = Seq<char>;

    open spec fn model(&self) -> Seq<char> {
        self.0@
    }

    open spec fn spec_decode(payload: Seq<u8>) -> Result<Seq<char>, XapError> {
        if valid_utf8(payload) {
            Ok(decode_utf8(payload))
        } else {
            Err(XapError::InvalidUtf8)
        }
    }

    fn decode(payload: &[u8]) -> (r: Result<UTF8String, XapError>) {
        match utf8_to_string(vstd::slice::slice_to_vec(payload)) {
            Some(s) => Ok(UTF8String(s)),
            None => Err(XapError::InvalidUtf8),
        }
    }
}

/// The answer of a secure action: zero means the device refused it because it is locked.
#[derive(Debug, Clone, Copy)]
pub struct SecureActionResponse(pub u8);

impl SecureActionResponse {
    pub fn into_result(self) -> (r: Result<(), XapError>)
        ensures
            self.0 == 0 ==> r == Err::<(), XapError>(XapError::SecureLocked),
            self.0 != 0 ==> r == Ok::<(), XapError>(()),
    {
        if self.0 == 0 {
            Err(XapError::SecureLocked)
        } else {
            Ok(())
        }
    }
}

impl XapResponse for SecureActionResponse {
    type Model = u8;

    open spec fn model(&self) -> u8 {
        self.0
    }

    open spec fn spec_decode(payload: Seq<u8>) -> Result<u8, XapError> {
        spec_decode_u8(payload)
    }

    fn decode(payload: &[u8]) -> (r: Result<SecureActionResponse, XapError>) {
        match decode_u8(payload) {
            Ok(v) => Ok(SecureActionResponse(v)),
            Err(e) => Err(e),
        }
    }
}

/// A response without payload: nothing is read, so it never fails.
impl XapResponse for () {
    type Model = ();

    open spec fn model(&self) -> () {
        ()
    }

    open spec fn spec_decode(payload: Seq<u8>) -> Result<(), XapError> {
        Ok(())
    }

    fn decode(payload: &[u8]) -> (r: Result<(), XapError>) {
        Ok(())
    }
}

pub open spec fn spec_decode_u8(payload: Seq<u8>) -> Result<u8, XapError> {
    if payload.len() < 1 {
        Err(XapError::UnexpectedEndOfInput)
    } else {
        Ok(payload[0])
    }
}

pub open spec fn spec_decode_u16(payload: Seq<u8>) -> Result<u16, XapError> {
    if payload.len() < 2 {
        Err(XapError::UnexpectedEndOfInput)
    } else {
        Ok(spec_u16_le(payload, 0))
    }
}

pub open spec fn spec_decode_u32(payload: Seq<u8>) -> Result<u32, XapError> {
    if payload.len() < 4 {
        Err(XapError::UnexpectedEndOfInput)
    } else {
        Ok(spec_u32_le(payload, 0))
    }
}

pub open spec fn spec_decode_u64(payload: Seq<u8>) -> Result<u64, XapError> {
    if payload.len() < 8 {
        Err(XapError::UnexpectedEndOfInput)
    } else {
        Ok(spec_u64_le(payload, 0))
    }
}

pub fn decode_u8(payload: &[u8]) -> (r: Result<u8, XapError>)
    ensures
        r == spec_decode_u8(payload@),
{
    if payload.len() < 1 {
        Err(XapError::UnexpectedEndOfInput)
    } else {
        Ok(payload[0])
    }
}

pub fn decode_u16(payload: &[u8]) -> (r: Result<u16, XapError>)
    ensures
        r == spec_decode_u16(payload@),
{
    if payload.len() < 2 {
        Err(XapError::UnexpectedEndOfInput)
    } else {
        Ok(read_u16_le(payload, 0))
    }
}

pub fn decode_u32(payload: &[u8]) -> (r: Result<u32, XapError>)
    ensures
        r == spec_decode_u32(payload@),
{
    if payload.len() < 4 {
        Err(XapError::UnexpectedEndOfInput)
    } else {
        Ok(read_u32_le(payload, 0))
    }
}

pub fn decode_u64(payload: &[u8]) -> (r: Result<u64, XapError>)
    ensures
        r == spec_decode_u64(payload@),
{
    if payload.len() < 8 {
        Err(XapError::UnexpectedEndOfInput)
    } else {
        Ok(read_u64_le(payload, 0))
    }
}

} // verus!
