//! Requests: the route a request addresses, its payload, and the frame that
//! carries it to the device.
use vstd::prelude::*;

use crate::error::XapError;
use crate::token::Token;
use crate::wire::{push_u16_le, spec_u16_le_bytes};

verus! {

/// Size of an XAP HID report, without the leading report id byte.
pub const XAP_REPORT_SIZE: usize = 64;

/// A value that can be read from the payload of an XAP response.
pub trait XapResponse: Sized {
    /// The plain value a response stands for.
    type Model;

    spec fn model(&self) -> Self::Model;

    /// What reading a value from the start of `payload` gives.  Bytes after
    /// the value are ignored.
    spec fn spec_decode(payload: Seq<u8>) -> Result<Self::Model, XapError>;

    fn decode(payload: &[u8]) -> (r: Result<Self, XapError>)
        ensures
            match r {
                Ok(v) => Self::spec_decode(payload@) == Ok::<Self::Model, XapError>(v.model()),
                Err(e) => Self::spec_decode(payload@) == Err::<Self::Model, XapError>(e),
            },
    ;
}

/// A request addressed to one XAP route.
pub trait XapRequest: Sized {
    type Response: XapResponse;

    /// The route id: one byte per level of the route tree.
    spec fn spec_id() -> Seq<u8>;

    /// The first XAP version that knows the route.
    spec fn spec_xap_version() -> u32;

    /// The encoded arguments of the request.
    spec fn spec_payload(&self) -> Seq<u8>;

    fn id() -> (r: &'static [u8])
        ensures
            r@ == Self::spec_id(),
            1 <= r@.len() <= 3,
    ;

    fn xap_version() -> (r: u32)
        ensures
            r == Self::spec_xap_version(),
    ;

    fn payload(&self) -> (r: Vec<u8>)
        ensures
            r@ == self.spec_payload(),
            r@.len() <= 16,
    ;
}

/// The bytes of a request frame: token, payload length, route id and arguments.
pub open spec fn spec_request_frame(token_raw: u16, id: Seq<u8>, payload: Seq<u8>) -> Seq<u8> {
    spec_u16_le_bytes(token_raw) + seq![(id.len() + payload.len()) as u8] + id + payload
}

/// The HID report that carries a frame: a zero report id, the frame, and zero padding
/// up to the report size.
pub open spec fn spec_report(frame: Seq<u8>) -> Seq<u8> {
    seq![0u8] + frame + Seq::new((XAP_REPORT_SIZE - frame.len()) as nat, |i: int| 0u8)
}

/// The HID report that sends the frame of a request with this token, route
/// id and arguments; `None` when the frame does not fit into one report.
pub fn build_report(token: u16, id: &[u8], payload: &[u8]) -> (r: Option<[u8; 65]>)
    ensures
        match r {
            Some(report) => 3 + id@.len() + payload@.len() <= XAP_REPORT_SIZE && report@
                == spec_report(spec_request_frame(token, id@, payload@)),
            None => 3 + id@.len() + payload@.len() > XAP_REPORT_SIZE,
        },
{
    if id.len() > 61 || payload.len() > 61 - id.len() {
        return None;
    }
    let mut frame: Vec<u8> = Vec::new();
    push_u16_le(&mut frame, token);
    frame.push((id.len() + payload.len()) as u8);
    let mut i: usize = 0;
    while i < id.len()
        invariant
            i <= id@.len(),
            id@.len() + payload@.len() <= 61,
            frame@ == spec_u16_le_bytes(token) + seq![(id@.len() + payload@.len()) as u8]
                + id@.subrange(0, i as int),
        decreases id@.len() - i,
    {
        frame.push(id[i]);
        i = i + 1;
        assert(frame@ =~= spec_u16_le_bytes(token) + seq![(id@.len() + payload@.len()) as u8]
            + id@.subrange(0, i as int));
    }
    let mut j: usize = 0;
    while j < payload.len()
        invariant
            j <= payload@.len(),
            id@.len() + payload@.len() <= 61,
            frame@ == spec_u16_le_bytes(token) + seq![(id@.len() + payload@.len()) as u8] + id@
                + payload@.subrange(0, j as int),
        decreases payload@.len() - j,
    {
        frame.push(payload[j]);
        j = j + 1;
        assert(frame@ =~= spec_u16_le_bytes(token) + seq![(id@.len() + payload@.len()) as u8]
            + id@ + payload@.subrange(0, j as int));
    }
    assert(id@.subrange(0, id@.len() as int) =~= id@);
    assert(payload@.subrange(0, payload@.len() as int) =~= payload@);
    assert(frame@ =~= spec_request_frame(token, id@, payload@));
    let mut report: [u8; 65] = [0; 65];
    let mut k: usize = 0;
    while k < frame.len()
        invariant
            k <= frame@.len() <= 64,
            report@.len() == 65,
            forall|x: int| 1 <= x < k + 1 ==> report@[x] == frame@[x - 1],
            forall|x: int| k + 1 <= x < 65 ==> report@[x] == 0u8,
            report@[0] == 0u8,
        decreases frame@.len() - k,
    {
        report.set(k + 1, frame[k]);
        k = k + 1;
    }
    assert(report@ =~= spec_report(frame@));
    Some(report)
}

/// A request together with the token that identifies its response.
pub struct RawRequest<T: XapRequest> {
    token: Token,
    payload: T,
}

impl<T: XapRequest> RawRequest<T> {
    #[verifier::type_invariant]
    spec fn inv(self) -> bool {
        &&& self.token is WithResponse
        &&& self.token.well_formed()
    }

    pub closed spec fn spec_token(&self) -> Token {
        self.token
    }

    pub closed spec fn spec_request(&self) -> T {
        self.payload
    }

    /// The frame this request is sent as.
    pub open spec fn spec_frame(&self) -> Seq<u8> {
        spec_request_frame(self.spec_token().spec_raw(), T::spec_id(), self.spec_request().spec_payload())
    }

    /// Wraps a request with a fresh token that expects a response.
    pub fn new(payload: T) -> (r: RawRequest<T>)
        ensures
            r.spec_request() == payload,
            r.spec_token() is WithResponse,
            r.spec_token().well_formed(),
    {
        RawRequest { token: Token::regular_token(), payload }
    }

    pub fn token(&self) -> (r: &Token)
        ensures
            *r == self.spec_token(),
            r is WithResponse,
            r.well_formed(),
    {
        proof {
            use_type_invariant(self);
        }
        &self.token
    }

    pub fn request(&self) -> (r: &T)
        ensures
            *r == self.spec_request(),
    {
        &self.payload
    }

    /// The frame bytes of this request.
    pub fn frame(&self) -> (r: Vec<u8>)
        ensures
            r@ == self.spec_frame(),
            r@.len() <= 2 + 1 + 3 + 16,
    {
        let id = T::id();
        let args = self.payload.payload();
        let mut out: Vec<u8> = Vec::new();
        push_u16_le(&mut out, self.token.raw());
        out.push((id.len() + args.len()) as u8);
        let mut i: usize = 0;
        while i < id.len()
            invariant
                i <= id@.len(),
                out@ == spec_u16_le_bytes(self.token.spec_raw()) + seq![(id@.len() + args@.len()) as u8]
                    + id@.subrange(0, i as int),
            decreases id@.len() - i,
        {
            out.push(id[i]);
            i = i + 1;
            assert(out@ =~= spec_u16_le_bytes(self.token.spec_raw()) + seq![
                (id@.len() + args@.len()) as u8,
            ] + id@.subrange(0, i as int));
        }
        let mut j: usize = 0;
        while j < args.len()
            invariant
                j <= args@.len(),
                id@.len() <= 3,
                out@ == spec_u16_le_bytes(self.token.spec_raw()) + seq![(id@.len() + args@.len()) as u8]
                    + id@ + args@.subrange(0, j as int),
            decreases args@.len() - j,
        {
            out.push(args[j]);
            j = j + 1;
            assert(out@ =~= spec_u16_le_bytes(self.token.spec_raw()) + seq![
                (id@.len() + args@.len()) as u8,
            ] + id@ + args@.subrange(0, j as int));
        }
        assert(id@.subrange(0, id@.len() as int) =~= id@);
        assert(args@.subrange(0, args@.len() as int) =~= args@);
        assert(out@ =~= self.spec_frame());
        out
    }

    /// The HID report that sends this request, report id byte included.
    pub fn to_report(&self) -> (r: [u8; 65])
        ensures
            r@ == spec_report(self.spec_frame()),
    {
        let frame = self.frame();
        let mut report: [u8; 65] = [0; 65];
        let mut i: usize = 0;
        while i < frame.len()
            invariant
                i <= frame@.len() <= 22,
                report@.len() == 65,
                forall|k: int| 1 <= k < i + 1 ==> report@[k] == frame@[k - 1],
                forall|k: int| i + 1 <= k < 65 ==> report@[k] == 0u8,
                report@[0] == 0u8,
            decreases frame@.len() - i,
        {
            report.set(i + 1, frame[i]);
            i = i + 1;
        }
        assert(report@ =~= spec_report(frame@));
        report
    }
}

} // verus!
