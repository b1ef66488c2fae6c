//! Broadcasts: reports a device sends on its own, marked with the broadcast token.
use vstd::prelude::*;

use crate::error::XapError;
use crate::status::XapSecureStatus;
use crate::token::Token;

verus! {

/// The kinds of broadcast a device may send.
#[derive(Debug, Clone, Copy, PartialEq, Eq, Structural)]
pub enum BroadcastType {
    Log,
    SecureStatus,
    Keyboard,
    User,
}

impl BroadcastType {
    /// Broadcast type bytes 0 to 3 name the four kinds; any other byte is refused.
    pub open spec fn spec_from_u8(raw: u8) -> Result<BroadcastType, XapError> {
        if raw == 0 {
            Ok(BroadcastType::Log)
        } else if raw == 1 {
            Ok(BroadcastType::SecureStatus)
        } else if raw == 2 {
            Ok(BroadcastType::Keyboard)
        } else if raw == 3 {
            Ok(BroadcastType::User)
        } else {
            Err(XapError::InvalidBroadcastType(raw))
        }
    }

    pub fn from_u8(raw: u8) -> (r: Result<BroadcastType, XapError>)
        ensures
            r == BroadcastType::spec_from_u8(raw),
    {
        match raw {
            0 => Ok(BroadcastType::Log),
            1 => Ok(BroadcastType::SecureStatus),
            2 => Ok(BroadcastType::Keyboard),
            3 => Ok(BroadcastType::User),
            _ => Err(XapError::InvalidBroadcastType(raw)),
        }
    }
}

/// Reading a broadcast frame: token, broadcast type, payload length and payload.
pub open spec fn spec_broadcast_frame(report: Seq<u8>) -> Result<
    (Token, BroadcastType, Seq<u8>),
    XapError,
> {
    match Token::spec_read(report) {
        Err(e) => Err(e),
        Ok(token) => if report.len() < 3 {
            Err(XapError::UnexpectedEndOfInput)
        } else {
            match BroadcastType::spec_from_u8(report[2]) {
                Err(e) => Err(e),
                Ok(kind) => if report.len() < 4 {
                    Err(XapError::UnexpectedEndOfInput)
                } else if report.len() < 4 + report[3] {
                    Err(XapError::UnexpectedEndOfInput)
                } else {
                    Ok((token, kind, report.subrange(4, 4 + report[3])))
                },
            }
        },
    }
}

/// A broadcast as it arrived from the device.
#[derive(Debug, Clone)]
pub struct BroadcastRaw {
    token: Token,
    broadcast_type: BroadcastType,
    payload: Vec<u8>,
}

impl View for BroadcastRaw {
    type V = (Token, BroadcastType, Seq<u8>);

    closed spec fn view(&self) -> (Token, BroadcastType, Seq<u8>) {
        (self.token, self.broadcast_type, self.payload@)
    }
}

/// A value that can be read from the payload of a broadcast.
pub trait XAPBroadcast: Sized {
    type Model;

    spec fn model(&self) -> Self::Model;

    /// The payloads that reading this kind of broadcast cannot handle.
    spec fn spec_decode_panics(payload: Seq<u8>) -> bool;

    spec fn spec_decode(payload: Seq<u8>) -> Result<Self::Model, XapError>;

    fn decode(payload: &[u8]) -> (r: Result<Self, XapError>)
        requires
            !Self::spec_decode_panics(payload@),
        ensures
            match r {
                Ok(v) => Self::spec_decode(payload@) == Ok::<Self::Model, XapError>(v.model()),
                Err(e) => Self::spec_decode(payload@) == Err::<Self::Model, XapError>(e),
            },
    ;
}

impl BroadcastRaw {
    pub fn broadcast_type(&self) -> (r: &BroadcastType)
        ensures
            *r == self@.1,
    {
        &self.broadcast_type
    }

    pub fn token(&self) -> (r: &Token)
        ensures
            *r == self@.0,
    {
        &self.token
    }

    pub fn payload(&self) -> (r: &[u8])
        ensures
            r@ == self@.2,
    {
        self.payload.as_slice()
    }

    /// Reads a broadcast from a received HID report.
    pub fn from_raw_report(report: &[u8]) -> (r: Result<BroadcastRaw, XapError>)
        ensures
            match r {
                Ok(b) => spec_broadcast_frame(report@) == Ok::<
                    (Token, BroadcastType, Seq<u8>),
                    XapError,
                >(b@),
                Err(e) => spec_broadcast_frame(report@) == Err::<
                    (Token, BroadcastType, Seq<u8>),
                    XapError,
                >(e),
            },
    {
        let token = match Token::read(report) {
            Ok(t) => t,
            Err(e) => return Err(e),
        };
        if report.len() < 3 {
            return Err(XapError::UnexpectedEndOfInput);
        }
        let broadcast_type = match BroadcastType::from_u8(report[2]) {
            Ok(k) => k,
            Err(e) => return Err(e),
        };
        if report.len() < 4 {
            return Err(XapError::UnexpectedEndOfInput);
        }
        let len = report[3] as usize;
        let n = report.len();
        if n < 4 + len {
            return Err(XapError::UnexpectedEndOfInput);
        }
        let mut payload: Vec<u8> = Vec::new();
        let mut i: usize = 0;
        while i < len
            invariant
                i <= len,
                n == report@.len(),
                4 + len <= n,
                payload@ == report@.subrange(4, 4 + i),
            decreases len - i,
        {
            payload.push(report[4 + i]);
            i = i + 1;
            assert(payload@ =~= report@.subrange(4, 4 + i));
        }
        Ok(BroadcastRaw { token, broadcast_type, payload })
    }

    /// Reads the broadcast value of type `T` from the payload.
    pub fn into_xap_broadcast<T: XAPBroadcast>(self) -> (r: Result<T, XapError>)
        requires
            !T::spec_decode_panics(self@.2),
        ensures
            match r {
                Ok(v) => T::spec_decode(self@.2) == Ok::<T::Model, XapError>(v.model()),
                Err(e) => T::spec_decode(self@.2) == Err::<T::Model, XapError>(e),
            },
    {
        T::decode(self.payload.as_slice())
    }
}

/// A log message broadcast.
///
/// The payload starts with a length byte.  Only an empty message can be
/// read: the message bytes are copied into a buffer that was reserved but
/// never grown, so a nonzero length indexes past its end.
#[derive(Debug)]
pub struct LogBroadcast(pub String);

impl XAPBroadcast for LogBroadcast {
    type Model = Seq<char>;

    open spec fn model(&self) -> Seq<char> {
        self.0@
    }

    open spec fn spec_decode_panics(payload: Seq<u8>) -> bool {
        payload.len() >= 1 && payload[0] != 0
    }

    open spec fn spec_decode(payload: Seq<u8>) -> Result<Seq<char>, XapError> {
        if payload.len() < 1 {
            Err(XapError::UnexpectedEndOfInput)
        } else {
            Ok(Seq::empty())
        }
    }

    fn decode(payload: &[u8]) -> (r: Result<LogBroadcast, XapError>) {
        if payload.len() < 1 {
            Err(XapError::UnexpectedEndOfInput)
        } else {
            Ok(LogBroadcast(String::new()))
        }
    }
}

/// A broadcast announcing a new secure status.
#[derive(Debug, Clone, Copy)]
pub struct SecureStatusBroadcast(pub XapSecureStatus);

impl XAPBroadcast for SecureStatusBroadcast {
    type Model = XapSecureStatus;

    open spec fn model(&self) -> XapSecureStatus {
        self.0
    }

    open spec fn spec_decode_panics(payload: Seq<u8>) -> bool {
        false
    }

    open spec fn spec_decode(payload: Seq<u8>) -> Result<XapSecureStatus, XapError> {
        if payload.len() < 1 {
            Err(XapError::UnexpectedEndOfInput)
        } else {
            Ok(XapSecureStatus::spec_from_u8(payload[0]))
        }
    }

    fn decode(payload: &[u8]) -> (r: Result<SecureStatusBroadcast, XapError>) {
        if payload.len() < 1 {
            Err(XapError::UnexpectedEndOfInput)
        } else {
            Ok(SecureStatusBroadcast(XapSecureStatus::from_u8(payload[0])))
        }
    }
}

} // verus!
