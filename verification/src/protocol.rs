//! Requests addressed by route id alone, without the protocol version that
//! introduced the route, and the response frames they are answered with.
use vstd::prelude::*;

use crate::error::XapError;
use crate::request::{spec_report, spec_request_frame, XapResponse};
use crate::response::{spec_response_frame, ResponseFlags};
use crate::text::utf8_to_string;
use crate::token::Token;
use crate::wire::{push_u16_le, spec_u16_le_bytes};
use vstd::utf8::{decode_utf8, valid_utf8};

pub use crate::response::SecureActionResponse;

pub mod subsystems;

verus! {

/// A request addressed to one route by its id.
pub trait XAPRequest: Sized {
    type Response: XapResponse;

    /// The route id: one byte per level of the route tree.
    spec fn spec_id() -> Seq<u8>;

    /// Whether the route can only be used on an unlocked device.
    spec fn spec_is_secure() -> bool;

    /// The encoded arguments of the request.
    spec fn spec_payload(&self) -> Seq<u8>;

    fn id() -> (r: &'static [u8])
        ensures
            r@ == Self::spec_id(),
            1 <= r@.len() <= 3,
    ;

    fn is_secure() -> (r: bool)
        ensures
            r == Self::spec_is_secure(),
    ;

    fn payload(&self) -> (r: Vec<u8>)
        ensures
            r@ == self.spec_payload(),
            r@.len() <= 16,
    ;
}

/// A string payload that fills the rest of the response.
#[derive(Debug, Default, Clone)]
pub struct UTF8StringResponse(pub String);

impl XapResponse for UTF8StringResponse {
    type Model = Seq<char>;

    open spec fn model(&self) -> Seq<char> {
        self.0@
    }

    open spec fn spec_decode(payload: Seq<u8>) -> Result<Seq<char>, XapError> {
        if valid_utf8(payload) {
            Ok(decode_utf8(payload))
        } else {
            Err(XapError::InvalidUtf8)
        }
    }

    fn decode(payload: &[u8]) -> (r: Result<UTF8StringResponse, XapError>) {
        match utf8_to_string(vstd::slice::slice_to_vec(payload)) {
            Some(s) => Ok(UTF8StringResponse(s)),
            None => Err(XapError::InvalidUtf8),
        }
    }
}

/// A request together with the token that identifies its response.
pub struct RequestRaw<T: XAPRequest> {
    token: Token,
    payload: T,
}

impl<T: XAPRequest> RequestRaw<T> {
    #[verifier::type_invariant]
    spec fn inv(self) -> bool {
        &&& self.token is WithResponse
        &&& self.token.well_formed()
    }

    pub closed spec fn spec_token(&self) -> Token {
        self.token
    }

    pub closed spec fn spec_request(&self) -> T {
        self.payload
    }

    /// The frame this request is sent as: token, length, route id and arguments.
    pub open spec fn spec_frame(&self) -> Seq<u8> {
        spec_request_frame(self.spec_token().spec_raw(), T::spec_id(), self.spec_request().spec_payload())
    }

    /// Wraps a request with a fresh token that expects a response.
    pub fn new(payload: T) -> (r: RequestRaw<T>)
        ensures
            r.spec_request() == payload,
            r.spec_token() is WithResponse,
            r.spec_token().well_formed(),
    {
        RequestRaw { token: Token::regular_token(), payload }
    }

    pub fn token(&self) -> (r: &Token)
        ensures
            *r == self.spec_token(),
            r is WithResponse,
            r.well_formed(),
    {
        proof {
            use_type_invariant(self);
        }
        &self.token
    }

    /// The frame bytes of this request.
    pub fn frame(&self) -> (r: Vec<u8>)
        ensures
            r@ == self.spec_frame(),
            r@.len() <= 2 + 1 + 3 + 16,
    {
        let id = T::id();
        let args = self.payload.payload();
        let mut out: Vec<u8> = Vec::new();
        push_u16_le(&mut out, self.token.raw());
        out.push((id.len() + args.len()) as u8);
        let mut i: usize = 0;
        while i < id.len()
            invariant
                i <= id@.len(),
                out@ == spec_u16_le_bytes(self.token.spec_raw()) + seq![(id@.len() + args@.len()) as u8]
                    + id@.subrange(0, i as int),
            decreases id@.len() - i,
        {
            out.push(id[i]);
            i = i + 1;
            assert(out@ =~= spec_u16_le_bytes(self.token.spec_raw()) + seq![
                (id@.len() + args@.len()) as u8,
            ] + id@.subrange(0, i as int));
        }
        let mut j: usize = 0;
        while j < args.len()
            invariant
                j <= args@.len(),
                id@.len() <= 3,
                out@ == spec_u16_le_bytes(self.token.spec_raw()) + seq![(id@.len() + args@.len()) as u8]
                    + id@ + args@.subrange(0, j as int),
            decreases args@.len() - j,
        {
            out.push(args[j]);
            j = j + 1;
            assert(out@ =~= spec_u16_le_bytes(self.token.spec_raw()) + seq![
                (id@.len() + args@.len()) as u8,
            ] + id@ + args@.subrange(0, j as int));
        }
        assert(id@.subrange(0, id@.len() as int) =~= id@);
        assert(args@.subrange(0, args@.len() as int) =~= args@);
        assert(out@ =~= self.spec_frame());
        out
    }

    /// The HID report that sends this request, report id byte included.
    pub fn to_report(&self) -> (r: [u8; 65])
        ensures
            r@ == spec_report(self.spec_frame()),
    {
        let frame = self.frame();
        let mut report: [u8; 65] = [0; 65];
        let mut i: usize = 0;
        while i < frame.len()
            invariant
                i <= frame@.len() <= 22,
                report@.len() == 65,
                forall|k: int| 1 <= k < i + 1 ==> report@[k] == frame@[k - 1],
                forall|k: int| i + 1 <= k < 65 ==> report@[k] == 0u8,
                report@[0] == 0u8,
            decreases frame@.len() - i,
        {
            report.set(i + 1, frame[i]);
            i = i + 1;
        }
        assert(report@ =~= spec_report(self.spec_frame()));
        report
    }
}

/// A response frame is accepted when its flags include success; among those
/// a secure failure is refused. Flags without success mean a failed request.
pub open spec fn spec_checked_response(report: Seq<u8>) -> Result<(Token, u8, Seq<u8>), XapError> {
    match spec_response_frame(report) {
        Err(e) => Err(e),
        Ok((token, flags, payload)) => if flags & ResponseFlags::SUCCESS != ResponseFlags::SUCCESS {
            Err(XapError::FailedTransaction)
        } else if flags & ResponseFlags::SECURE_FAILURE == ResponseFlags::SECURE_FAILURE {
            Err(XapError::SecureLocked)
        } else {
            Ok((token, flags, payload))
        },
    }
}

/// A response as it arrived from the device.
#[derive(Debug, Clone)]
pub struct ResponseRaw {
    token: Token,
    flags: ResponseFlags,
    payload: Vec<u8>,
}

impl View for ResponseRaw {
    type V = (Token, u8, Seq<u8>);

    closed spec fn view(&self) -> (Token, u8, Seq<u8>) {
        (self.token, self.flags.0, self.payload@)
    }
}

impl ResponseRaw {
    /// Reads a response from a received HID report, as `spec_checked_response` says.
    pub fn from_raw_report(report: &[u8]) -> (r: Result<ResponseRaw, XapError>)
        ensures
            match r {
                Ok(resp) => spec_checked_response(report@) == Ok::<(Token, u8, Seq<u8>), XapError>(resp@),
                Err(e) => spec_checked_response(report@) == Err::<(Token, u8, Seq<u8>), XapError>(e),
            },
    {
        let token = match Token::read(report) {
            Ok(t) => t,
            Err(e) => return Err(e),
        };
        if report.len() < 4 {
            return Err(XapError::UnexpectedEndOfInput);
        }
        let flags = report[2];
        let len = report[3] as usize;
        if report.len() < 4 + len {
            return Err(XapError::UnexpectedEndOfInput);
        }
        let n = report.len();
        let mut payload: Vec<u8> = Vec::new();
        let mut i: usize = 0;
        while i < len
            invariant
                i <= len,
                n == report@.len(),
                4 + len <= n,
                payload@ == report@.subrange(4, 4 + i),
            decreases len - i,
        {
            payload.push(report[4 + i]);
            i = i + 1;
            assert(payload@ =~= report@.subrange(4, 4 + i));
        }
        if flags & ResponseFlags::SUCCESS != ResponseFlags::SUCCESS {
            Err(XapError::FailedTransaction)
        } else if flags & ResponseFlags::SECURE_FAILURE == ResponseFlags::SECURE_FAILURE {
            Err(XapError::SecureLocked)
        } else {
            Ok(ResponseRaw { token, flags: ResponseFlags(flags), payload })
        }
    }

    pub fn token(&self) -> (r: &Token)
        ensures
            *r == self@.0,
    {
        &self.token
    }

    pub fn payload(&self) -> (r: &[u8])
        ensures
            r@ == self@.2,
    {
        self.payload.as_slice()
    }

    /// Reads the response value of request type `T` from the payload.
    pub fn into_xap_response<T: XAPRequest>(self) -> (r: Result<T::Response, XapError>)
        ensures
            match r {
                Ok(v) => T::Response::spec_decode(self@.2) == Ok::<
                    <T::Response as XapResponse>::Model,
                    XapError,
                >(v.model()),
                Err(e) => T::Response::spec_decode(self@.2) == Err::<
                    <T::Response as XapResponse>::Model,
                    XapError,
                >(e),
            },
    {
        T::Response::decode(self.payload.as_slice())
    }
}

} // verus!
