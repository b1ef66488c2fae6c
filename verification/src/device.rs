//! The protocol side of one connected device: pending requests, the
//! responses that answer them, queued broadcasts, and the device state.
use std::collections::{HashMap, VecDeque};
use std::sync::Arc;

use vstd::prelude::*;

use crate::aggregation::{Config, Matrix, XapDeviceInfo};
use crate::broadcast::{
    BroadcastRaw, BroadcastType, LogBroadcast, SecureStatusBroadcast, XAPBroadcast,
};
use crate::constants::keycode::{XapKeyCode, XapKeyCodeView};
use crate::constants::XapConstants;
use crate::error::XapError;
use crate::request::{
    build_report, spec_report, spec_request_frame, RawRequest, XapRequest, XapResponse,
    XAP_REPORT_SIZE,
};
use crate::response::RawResponse;
use crate::spec::keymap::KeymapGetKeycodeArg;
use crate::spec::remapping::RemappingSetKeycodeArg;
use crate::status::XapSecureStatus;
use crate::token::Token;

verus! {

broadcast use vstd::std_specs::hash::group_hash_axioms;

/// One key of a keymap: its keycode and where it sits.
#[derive(Debug, Clone, Default)]
pub struct KeymapKey {
    pub code: XapKeyCode,
    pub position: KeymapGetKeycodeArg,
}

/// The keycodes of a device, by layer, row and column.
#[derive(Debug, Clone)]
pub struct Keymap(pub Vec<Vec<Vec<KeymapKey>>>);

impl Keymap {
    /// Whether layer `l`, row `r` and column `c` lie inside the keymap.
    pub open spec fn spec_in_bounds(&self, l: int, r: int, c: int) -> bool {
        &&& 0 <= l < self.0@.len()
        &&& 0 <= r < self.0@[l]@.len()
        &&& 0 <= c < self.0@[l]@[r]@.len()
    }

    /// The key at layer `l`, row `r` and column `c`.
    pub open spec fn spec_key(&self, l: int, r: int, c: int) -> KeymapKey {
        self.0@[l]@[r]@[c]
    }

    /// Both keymaps have the same layers, rows and columns.
    pub open spec fn spec_same_shape(&self, other: &Keymap) -> bool {
        &&& self.0@.len() == other.0@.len()
        &&& forall|l: int|
            0 <= l < self.0@.len() ==> (#[trigger] self.0@[l])@.len() == other.0@[l]@.len()
        &&& forall|l: int, r: int|
            0 <= l < self.0@.len() && 0 <= r < self.0@[l]@.len() ==> (
            #[trigger] self.0@[l]@[r])@.len() == other.0@[l]@[r]@.len()
    }

    /// Stores `code` at its own position; every other key stays.
    pub fn set_keycode(&mut self, code: KeymapKey)
        requires
            old(self).spec_in_bounds(
                code.position.layer as int,
                code.position.row as int,
                code.position.column as int,
            ),
        ensures
            final(self).spec_same_shape(old(self)),
            forall|l: int, r: int, c: int|
                old(self).spec_in_bounds(l, r, c) ==> #[trigger] final(self).spec_key(l, r, c) == if l
                    == code.position.layer && r == code.position.row && c == code.position.column {
                    code
                } else {
                    old(self).spec_key(l, r, c)
                },
    {
        let l = code.position.layer as usize;
        let r = code.position.row as usize;
        let c = code.position.column as usize;
        let ghost before = *self;
        let mut layer = self.0.remove(l);
        let mut row = layer.remove(r);
        row.set(c, code);
        layer.insert(r, row);
        self.0.insert(l, layer);
        proof {
            assert(self.0@[l as int]@ =~= before.0@[l as int]@.update(r as int, self.0@[l as int]@[r as int]));
            assert(self.0@ =~= before.0@.update(l as int, self.0@[l as int]));
        }
    }
}

/// What tells one HID interface from another: its path and identifiers.
#[derive(Debug, Clone, PartialEq, Eq)]
pub struct HidIdentity {
    pub path: Vec<u8>,
    pub vendor_id: u16,
    pub product_id: u16,
    pub usage_page: u16,
    pub usage: u16,
}

impl HidIdentity {
    /// Both describe the same interface.
    pub open spec fn spec_same(&self, other: &HidIdentity) -> bool {
        &&& self.path@ == other.path@
        &&& self.vendor_id == other.vendor_id
        &&& self.product_id == other.product_id
        &&& self.usage_page == other.usage_page
        &&& self.usage == other.usage
    }

    /// Whether both describe the same interface.
    pub fn same(&self, other: &HidIdentity) -> (r: bool)
        ensures
            r == self.spec_same(other),
    {
        bytes_eq(&self.path, &other.path) && self.vendor_id == other.vendor_id && self.product_id
            == other.product_id && self.usage_page == other.usage_page && self.usage == other.usage
    }

    /// A copy of this identity.
    pub fn duplicate(&self) -> (r: HidIdentity)
        ensures
            r.spec_same(self),
    {
        HidIdentity {
            path: self.path.clone(),
            vendor_id: self.vendor_id,
            product_id: self.product_id,
            usage_page: self.usage_page,
            usage: self.usage,
        }
    }
}

fn bytes_eq(a: &Vec<u8>, b: &Vec<u8>) -> (r: bool)
    ensures
        r == (a@ == b@),
{
    if a.len() != b.len() {
        return false;
    }
    let mut i: usize = 0;
    while i < a.len()
        invariant
            i <= a@.len(),
            a@.len() == b@.len(),
            forall|j: int| 0 <= j < i ==> a@[j] == b@[j],
        decreases a@.len() - i,
    {
        if a[i] != b[i] {
            return false;
        }
        i = i + 1;
    }
    assert(a@ =~= b@);
    true
}

/// What the client knows of a device.
#[derive(Debug, Clone)]
pub struct XapDeviceState {
    pub id: u128,
    pub info: Option<XapDeviceInfo>,
    pub keymap: Keymap,
    pub config: Config,
    pub secure_status: XapSecureStatus,
}

/// What a device reports to the user interface.
#[derive(Debug, Clone)]
pub enum XapEvent {
    LogReceived { id: u128, log: String },
    SecureStatusChanged { id: u128, secure_status: XapSecureStatus },
    NewDevice { id: u128 },
    RemovedDevice { id: u128 },
}

/// The plain value of an event.
pub enum XapEventView {
    LogReceived { id: u128, log: Seq<char> },
    SecureStatusChanged { id: u128, secure_status: XapSecureStatus },
    NewDevice { id: u128 },
    RemovedDevice { id: u128 },
}

impl View for XapEvent {
    type V = XapEventView;

    open spec fn view(&self) -> XapEventView {
        match self {
            XapEvent::LogReceived { id, log } => XapEventView::LogReceived { id: *id, log: log@ },
            XapEvent::SecureStatusChanged { id, secure_status } => XapEventView::SecureStatusChanged {
                id: *id,
                secure_status: *secure_status,
            },
            XapEvent::NewDevice { id } => XapEventView::NewDevice { id: *id },
            XapEvent::RemovedDevice { id } => XapEventView::RemovedDevice { id: *id },
        }
    }
}

/// The plain values of a list of events.
pub open spec fn events_view(s: Seq<XapEvent>) -> Seq<XapEventView> {
    s.map_values(|e: XapEvent| e@)
}

/// A broadcast as plain values: token, kind and payload.
pub type BroadcastView = (Token, BroadcastType, Seq<u8>);

/// A response as plain values: token, flags and payload.
pub type ResponseView = (Token, u8, Seq<u8>);

/// The plain values of the pending requests: by token, the response if one arrived.
pub open spec fn responses_view(m: Map<u16, Option<RawResponse>>) -> Map<u16, Option<ResponseView>> {
    m.map_values(
        |o: Option<RawResponse>|
            match o {
                Some(r) => Some(r@),
                None => None,
            },
    )
}

/// The plain values of the broadcast queue, oldest first.
pub open spec fn queue_view(q: Seq<BroadcastRaw>) -> Seq<BroadcastView> {
    q.map_values(|b: BroadcastRaw| b@)
}

/// The part of a device that reports change: secure status, queued
/// broadcasts and pending requests.
pub struct SessionView {
    pub secure_status: XapSecureStatus,
    pub queue: Seq<BroadcastView>,
    pub responses: Map<u16, Option<ResponseView>>,
}

/// What handling a received report of `length` bytes does: a broadcast is
/// queued (a secure status broadcast also updates the status); a response is
/// stored for the request that waits for it. A response nobody waits for,
/// or that repeats one already stored, is dropped and counts as nothing read.
pub open spec fn spec_handle_report(s: SessionView, report: Seq<u8>, length: usize) -> (
    SessionView,
    Result<usize, XapError>,
) {
    if length == 0 {
        (s, Ok(0))
    } else {
        match Token::spec_read(report) {
            Err(e) => (s, Err(e)),
            Ok(Token::Broadcast) => match crate::broadcast::spec_broadcast_frame(report) {
                Err(e) => (s, Err(e)),
                Ok(b) => if b.1 == BroadcastType::SecureStatus {
                    match SecureStatusBroadcast::spec_decode(b.2) {
                        Err(e) => (s, Err(e)),
                        Ok(status) => (
                            SessionView { secure_status: status, queue: s.queue.push(b), ..s },
                            Ok(length),
                        ),
                    }
                } else {
                    (SessionView { queue: s.queue.push(b), ..s }, Ok(length))
                },
            },
            Ok(_) => match crate::response::spec_response_from_report(report) {
                Err(e) => (s, Err(e)),
                Ok(resp) => {
                    let key = resp.0.spec_raw();
                    if s.responses.contains_key(key) && s.responses[key] is None {
                        (SessionView { responses: s.responses.insert(key, Some(resp)), ..s }, Ok(length))
                    } else {
                        (s, Ok(0))
                    }
                },
            },
        }
    }
}

/// Taking the response to the request with `token`: when it has arrived,
/// its payload, and the token no longer waits; otherwise nothing changes.
pub open spec fn spec_take(s: SessionView, token: u16) -> (SessionView, Option<Seq<u8>>) {
    match s.responses.get(token) {
        Some(Some(resp)) => (SessionView { responses: s.responses.remove(token), ..s }, Some(resp.2)),
        _ => (s, None),
    }
}

/// A response to a request that waits for it is stored, and taking it then
/// gives back its payload and ends the wait.
pub proof fn law_waiting_request_gets_its_response(
    s: SessionView,
    report: Seq<u8>,
    length: usize,
    token: u16,
    payload: Seq<u8>,
)
    requires
        length > 0,
        s.responses.contains_key(token),
        s.responses[token] is None,
        crate::response::spec_response_from_report(report) == Ok::<ResponseView, XapError>(
            (Token::WithResponse(token), crate::response::ResponseFlags::SUCCESS, payload),
        ),
        Token::WithResponse(token).well_formed(),
    ensures
        spec_handle_report(s, report, length).1 == Ok::<usize, XapError>(length),
        spec_take(spec_handle_report(s, report, length).0, token).1 == Some(payload),
        spec_take(spec_handle_report(s, report, length).0, token).0.responses
            == s.responses.remove(token),
        spec_take(spec_handle_report(s, report, length).0, token).0.queue == s.queue,
{
    assert(Token::spec_read(report) == Ok::<Token, XapError>(Token::WithResponse(token)));
    let after = spec_handle_report(s, report, length).0;
    assert(after.responses == s.responses.insert(
        token,
        Some((Token::WithResponse(token), crate::response::ResponseFlags::SUCCESS, payload)),
    ));
    assert(after.responses.insert(token, None).remove(token) =~= s.responses.remove(token));
    assert(after.responses.remove(token) =~= s.responses.remove(token));
}

/// A response that no request waits for, or that repeats a stored one,
/// changes nothing and counts as nothing read.
pub proof fn law_unexpected_response_dropped(s: SessionView, report: Seq<u8>, length: usize)
    requires
        length > 0,
        crate::response::spec_response_from_report(report) is Ok,
        crate::response::spec_response_from_report(report)->Ok_0.0 != Token::Broadcast,
        ({
            let key = crate::response::spec_response_from_report(report)->Ok_0.0.spec_raw();
            !s.responses.contains_key(key) || s.responses[key] is Some
        }),
    ensures
        spec_handle_report(s, report, length) == (s, Ok::<usize, XapError>(0)),
{
    let t = crate::response::spec_response_from_report(report)->Ok_0.0;
    assert(Token::spec_read(report) == Ok::<Token, XapError>(t));
}

/// A secure status broadcast sets the secure status and is queued behind
/// the broadcasts already waiting.
pub proof fn law_secure_status_broadcast(s: SessionView, report: Seq<u8>, length: usize)
    requires
        length > 0,
        crate::broadcast::spec_broadcast_frame(report) is Ok,
        crate::broadcast::spec_broadcast_frame(report)->Ok_0.0 == Token::Broadcast,
        crate::broadcast::spec_broadcast_frame(report)->Ok_0.1 == BroadcastType::SecureStatus,
        crate::broadcast::spec_broadcast_frame(report)->Ok_0.2.len() >= 1,
    ensures
        ({
            let b = crate::broadcast::spec_broadcast_frame(report)->Ok_0;
            let (after, r) = spec_handle_report(s, report, length);
            &&& r == Ok::<usize, XapError>(length)
            &&& after.secure_status == XapSecureStatus::spec_from_u8(b.2[0])
            &&& after.queue == s.queue.push(b)
            &&& after.responses == s.responses
        }),
{
}

/// The events that the queued broadcasts announce, oldest first: a log
/// broadcast gives its text, a secure status broadcast the current status;
/// keyboard and user broadcasts give nothing. An unreadable log broadcast
/// stops the draining with its error.
pub open spec fn spec_drain(queue: Seq<BroadcastView>, id: u128, status: XapSecureStatus) -> Result<
    Seq<XapEventView>,
    XapError,
>
    decreases queue.len(),
{
    if queue.len() == 0 {
        Ok(Seq::empty())
    } else {
        let b = queue[0];
        let rest = spec_drain(queue.drop_first(), id, status);
        match b.1 {
            BroadcastType::Log => match LogBroadcast::spec_decode(b.2) {
                Err(e) => Err(e),
                Ok(log) => match rest {
                    Ok(events) => Ok(seq![XapEventView::LogReceived { id, log }] + events),
                    Err(e) => Err(e),
                },
            },
            BroadcastType::SecureStatus => match rest {
                Ok(events) => Ok(
                    seq![XapEventView::SecureStatusChanged { id, secure_status: status }] + events,
                ),
                Err(e) => Err(e),
            },
            _ => rest,
        }
    }
}

/// The broadcasts left in the queue after draining: none, or those behind
/// the one that could not be read.
pub open spec fn spec_drain_rest(queue: Seq<BroadcastView>) -> Seq<BroadcastView>
    decreases queue.len(),
{
    if queue.len() == 0 {
        queue
    } else if queue[0].1 == BroadcastType::Log && LogBroadcast::spec_decode(queue[0].2) is Err {
        queue.drop_first()
    } else {
        spec_drain_rest(queue.drop_first())
    }
}

/// No queued log broadcast is one that reading a log broadcast cannot handle.
pub open spec fn spec_queue_readable(queue: Seq<BroadcastView>) -> bool {
    forall|i: int|
        0 <= i < queue.len() && (#[trigger] queue[i]).1 == BroadcastType::Log
            ==> !LogBroadcast::spec_decode_panics(queue[i].2)
}

/// `!v < device_version` for the request version `v`, the test that refuses a request.
pub open spec fn spec_refuses(request_version: u32, device_version: u32) -> bool {
    ((0xFFFF_FFFFu32 - request_version) as u32) < device_version
}

/// The protocol side of one connected device.
#[derive(Debug)]
pub struct XapDevice {
    info: HidIdentity,
    constants: Arc<XapConstants>,
    state: XapDeviceState,
    pub broadcast_queue: VecDeque<BroadcastRaw>,
    responses: HashMap<u16, Option<RawResponse>>,
}

/// A fresh random device id.
///
/// Calls `uuid::Uuid::new_v4` and takes its 128 bits; the value is random,
/// so nothing is stated of it.
#[verifier::external_body]
fn new_device_id() -> (r: u128) {
    uuid::Uuid::new_v4().as_u128()
}

impl XapDevice {
    pub closed spec fn spec_id(&self) -> u128 {
        self.state.id
    }

    pub closed spec fn spec_info(&self) -> HidIdentity {
        self.info
    }

    pub closed spec fn spec_constants(&self) -> XapConstants {
        *self.constants
    }

    pub closed spec fn spec_state(&self) -> XapDeviceState {
        self.state
    }

    /// Secure status, queued broadcasts and pending requests.
    pub closed spec fn session(&self) -> SessionView {
        SessionView {
            secure_status: self.state.secure_status,
            queue: queue_view(self.broadcast_queue@),
            responses: responses_view(self.responses@),
        }
    }

    /// A device that has not been asked anything yet: locked, with no
    /// description, an empty keymap and no pending request.
    pub fn new(info: HidIdentity, constants: Arc<XapConstants>) -> (r: XapDevice)
        ensures
            r.spec_info() == info,
            r.spec_constants() == *constants,
            r.spec_state().id == r.spec_id(),
            r.spec_state().info is None,
            r.spec_state().keymap.0@.len() == 0,
            r.spec_state().config == (Config { matrix_size: Matrix { cols: 0, rows: 0 } }),
            r.session().secure_status == XapSecureStatus::Locked,
            r.session().queue.len() == 0,
            r.session().responses == Map::<u16, Option<ResponseView>>::empty(),
    {
        let id = new_device_id();
        let state = XapDeviceState {
            id,
            info: None,
            keymap: Keymap(Vec::new()),
            config: Config { matrix_size: Matrix { cols: 0, rows: 0 } },
            secure_status: XapSecureStatus::Locked,
        };
        let r = XapDevice {
            info,
            constants,
            state,
            broadcast_queue: VecDeque::new(),
            responses: HashMap::new(),
        };
        assert(r.session().queue =~= Seq::<BroadcastView>::empty());
        assert(r.session().responses =~= Map::<u16, Option<ResponseView>>::empty());
        r
    }

    pub fn id(&self) -> (r: u128)
        ensures
            r == self.spec_id(),
    {
        self.state.id
    }

    pub fn state(&self) -> (r: &XapDeviceState)
        ensures
            *r == self.spec_state(),
    {
        &self.state
    }

    pub fn constants(&self) -> (r: &XapConstants)
        ensures
            *r == self.spec_constants(),
    {
        &self.constants
    }

    pub fn secure_status(&self) -> (r: XapSecureStatus)
        ensures
            r == self.session().secure_status,
    {
        self.state.secure_status
    }

    /// Whether `candidate` is the HID interface this device was opened on:
    /// same path, product, vendor, usage page and usage.
    pub fn is_hid_device(&self, candidate: &HidIdentity) -> (r: bool)
        ensures
            r == candidate.spec_same(&self.spec_info()),
    {
        bytes_eq(&candidate.path, &self.info.path) && candidate.product_id == self.info.product_id
            && candidate.vendor_id == self.info.vendor_id && candidate.usage_page
            == self.info.usage_page && candidate.usage == self.info.usage
    }

    /// The description that probing the device gave.
    pub fn xap_info(&self) -> (r: &XapDeviceInfo)
        requires
            self.spec_state().info is Some,
        ensures
            *r == self.spec_state().info->0,
    {
        self.state.info.as_ref().unwrap()
    }

    /// Registers a request: checks that the device speaks a recent enough
    /// XAP version, draws a token for it and gives the token and the HID
    /// report to send. The token now waits for its response.
    pub fn prepare_query<T: XapRequest>(&mut self, request: T) -> (r: Result<(u16, [u8; 65]), XapError>)
        ensures
            final(self).spec_id() == old(self).spec_id(),
            final(self).spec_info() == old(self).spec_info(),
            final(self).spec_constants() == old(self).spec_constants(),
            final(self).spec_state() == old(self).spec_state(),
            final(self).session().secure_status == old(self).session().secure_status,
            final(self).session().queue == old(self).session().queue,
            match old(self).spec_state().info {
                Some(info) => spec_refuses(T::spec_xap_version(), info.xap.version) <==> r is Err,
                None => r is Ok,
            },
            match r {
                Ok((token, report)) => {
                    &&& Token::WithResponse(token).well_formed()
                    &&& report@ == spec_report(
                        spec_request_frame(token, T::spec_id(), request.spec_payload()),
                    )
                    &&& final(self).session().responses == old(self).session().responses.insert(
                        token,
                        None,
                    )
                },
                Err(e) => {
                    &&& final(self).session().responses == old(self).session().responses
                    &&& e == XapError::UnsupportedRequest {
                        request_version: T::spec_xap_version(),
                        device_version: old(self).spec_state().info->0.xap.version,
                    }
                },
            },
    {
        if let Some(info) = &self.state.info {
            let v = T::xap_version();
            let negated: u32 = 0xFFFF_FFFFu32 - v;
            if negated < info.xap.version {
                return Err(
                    XapError::UnsupportedRequest {
                        request_version: v,
                        device_version: info.xap.version,
                    },
                );
            }
        }
        let request = RawRequest::new(request);
        let report = request.to_report();
        let token = request.token().raw();
        let ghost before = self.responses@;
        self.responses.insert(token, None);
        proof {
            assert(responses_view(self.responses@) =~= responses_view(before).insert(token, None));
        }
        Ok((token, report))
    }

    /// Registers a request given by route id, introducing XAP version and
    /// arguments, as `prepare_query` does for a typed request; a frame too
    /// long for one report is refused.
    pub fn prepare_raw_query(&mut self, id: &[u8], xap_version: u32, payload: &[u8]) -> (r: Result<
        (u16, [u8; 65]),
        XapError,
    >)
        ensures
            final(self).spec_id() == old(self).spec_id(),
            final(self).spec_info() == old(self).spec_info(),
            final(self).spec_constants() == old(self).spec_constants(),
            final(self).spec_state() == old(self).spec_state(),
            final(self).session().secure_status == old(self).session().secure_status,
            final(self).session().queue == old(self).session().queue,
            match old(self).spec_state().info {
                Some(info) => spec_refuses(xap_version, info.xap.version) ==> r == Err::<
                    (u16, [u8; 65]),
                    XapError,
                >(
                    XapError::UnsupportedRequest {
                        request_version: xap_version,
                        device_version: info.xap.version,
                    },
                ),
                None => true,
            },
            (match old(self).spec_state().info {
                Some(info) => !spec_refuses(xap_version, info.xap.version),
                None => true,
            }) ==> (3 + id@.len() + payload@.len() > XAP_REPORT_SIZE <==> r == Err::<
                (u16, [u8; 65]),
                XapError,
            >(XapError::ReportOverflow)),
            match r {
                Ok((token, report)) => {
                    &&& Token::WithResponse(token).well_formed()
                    &&& report@ == spec_report(spec_request_frame(token, id@, payload@))
                    &&& final(self).session().responses == old(self).session().responses.insert(
                        token,
                        None,
                    )
                },
                Err(_) => final(self).session().responses == old(self).session().responses,
            },
    {
        if let Some(info) = &self.state.info {
            let negated: u32 = 0xFFFF_FFFFu32 - xap_version;
            if negated < info.xap.version {
                return Err(
                    XapError::UnsupportedRequest {
                        request_version: xap_version,
                        device_version: info.xap.version,
                    },
                );
            }
        }
        let token = match Token::regular_token() {
            Token::WithResponse(t) => t,
            _ => {
                proof {
                    assert(false);
                }
                return Err(XapError::ReportOverflow);
            },
        };
        let report = match build_report(token, id, payload) {
            Some(report) => report,
            None => return Err(XapError::ReportOverflow),
        };
        let ghost before = self.responses@;
        self.responses.insert(token, None);
        proof {
            assert(responses_view(self.responses@) =~= responses_view(before).insert(token, None));
        }
        Ok((token, report))
    }

    /// Takes the payload of the response to the request with `token` when
    /// it has arrived; the token then no longer waits. `None`, changing
    /// nothing, while no response is there.
    pub fn take_raw_response(&mut self, token: u16) -> (r: Option<Vec<u8>>)
        ensures
            final(self).spec_id() == old(self).spec_id(),
            final(self).spec_info() == old(self).spec_info(),
            final(self).spec_constants() == old(self).spec_constants(),
            final(self).spec_state() == old(self).spec_state(),
            final(self).session() == spec_take(old(self).session(), token).0,
            match spec_take(old(self).session(), token).1 {
                Some(p) => r matches Some(x) && x@ == p,
                None => r is None,
            },
    {
        let arrived = match self.responses.get(&token) {
            Some(slot) => slot.is_some(),
            None => false,
        };
        if !arrived {
            return None;
        }
        let ghost before = self.responses@;
        match self.responses.remove(&token) {
            Some(Some(resp)) => {
                assert(responses_view(self.responses@) =~= responses_view(before).remove(token));
                Some(vstd::slice::slice_to_vec(resp.payload()))
            },
            _ => {
                proof {
                    assert(false);
                }
                None
            },
        }
    }

    /// Handles a report of `length` bytes read from the device, as
    /// `spec_handle_report` says. Gives the number of bytes that counted.
    pub fn handle_report(&mut self, report: &[u8], length: usize) -> (r: Result<usize, XapError>)
        ensures
            final(self).spec_id() == old(self).spec_id(),
            final(self).spec_info() == old(self).spec_info(),
            final(self).spec_constants() == old(self).spec_constants(),
            final(self).spec_state().info == old(self).spec_state().info,
            final(self).spec_state().keymap == old(self).spec_state().keymap,
            final(self).spec_state().config == old(self).spec_state().config,
            (final(self).session(), r) == spec_handle_report(old(self).session(), report@, length),
    {
        if length == 0 {
            return Ok(0);
        }
        let token = match Token::read(report) {
            Ok(t) => t,
            Err(e) => return Err(e),
        };
        if let Token::Broadcast = token {
            let broadcast = match BroadcastRaw::from_raw_report(report) {
                Ok(b) => b,
                Err(e) => return Err(e),
            };
            if let BroadcastType::SecureStatus = broadcast.broadcast_type() {
                match SecureStatusBroadcast::decode(broadcast.payload()) {
                    Ok(status) => {
                        self.state.secure_status = status.0;
                    },
                    Err(e) => return Err(e),
                }
            }
            let ghost before = self.broadcast_queue@;
            let ghost b = broadcast@;
            self.broadcast_queue.push_back(broadcast);
            assert(queue_view(self.broadcast_queue@) =~= queue_view(before).push(b));
            Ok(length)
        } else {
            let response = match RawResponse::from_raw_report(report) {
                Ok(resp) => resp,
                Err(e) => return Err(e),
            };
            let key = response.token().raw();
            let waiting = match self.responses.get(&key) {
                Some(slot) => slot.is_none(),
                None => false,
            };
            if waiting {
                let ghost before = self.responses@;
                let ghost v = response@;
                self.responses.insert(key, Some(response));
                assert(responses_view(self.responses@) =~= responses_view(before).insert(
                    key,
                    Some(v),
                ));
                Ok(length)
            } else {
                Ok(0)
            }
        }
    }

    /// Takes the response to the request with `token` when it has arrived
    /// and reads it as the response of request type `T`; the token then no
    /// longer waits. `None`, changing nothing, while no response is there.
    pub fn take_response<T: XapRequest>(&mut self, token: u16) -> (r: Option<
        Result<T::Response, XapError>,
    >)
        ensures
            final(self).spec_id() == old(self).spec_id(),
            final(self).spec_info() == old(self).spec_info(),
            final(self).spec_constants() == old(self).spec_constants(),
            final(self).spec_state() == old(self).spec_state(),
            final(self).session().secure_status == old(self).session().secure_status,
            final(self).session().queue == old(self).session().queue,
            match old(self).session().responses.get(token) {
                Some(Some(resp)) => {
                    &&& final(self).session().responses == old(self).session().responses.remove(
                        token,
                    )
                    &&& r matches Some(res) && match res {
                        Ok(v) => T::Response::spec_decode(resp.2) == Ok::<
                            <T::Response as XapResponse>::Model,
                            XapError,
                        >(v.model()),
                        Err(e) => T::Response::spec_decode(resp.2) == Err::<
                            <T::Response as XapResponse>::Model,
                            XapError,
                        >(e),
                    }
                },
                _ => {
                    &&& final(self).session().responses == old(self).session().responses
                    &&& r is None
                },
            },
    {
        let arrived = match self.responses.get(&token) {
            Some(slot) => slot.is_some(),
            None => false,
        };
        if !arrived {
            return None;
        }
        let ghost before = self.responses@;
        match self.responses.remove(&token) {
            Some(Some(resp)) => {
                assert(responses_view(self.responses@) =~= responses_view(before).remove(token));
                Some(resp.into_xap_response::<T>())
            },
            _ => {
                proof {
                    assert(false);
                }
                None
            },
        }
    }

    /// Whether every queued log broadcast can be read.
    pub fn broadcasts_readable(&self) -> (r: bool)
        ensures
            r == spec_queue_readable(self.session().queue),
    {
        let n = self.broadcast_queue.len();
        let mut i: usize = 0;
        while i < n
            invariant
                i <= n,
                n == self.broadcast_queue@.len(),
                forall|j: int|
                    0 <= j < i && (#[trigger] queue_view(self.broadcast_queue@)[j]).1
                        == BroadcastType::Log ==> !LogBroadcast::spec_decode_panics(
                        queue_view(self.broadcast_queue@)[j].2,
                    ),
            decreases n - i,
        {
            let b = &self.broadcast_queue[i];
            if let BroadcastType::Log = b.broadcast_type() {
                let p = b.payload();
                if p.len() >= 1 && p[0] != 0 {
                    assert(queue_view(self.broadcast_queue@)[i as int] == b@);
                    return false;
                }
            }
            assert(queue_view(self.broadcast_queue@)[i as int] == b@);
            i = i + 1;
        }
        true
    }

    /// Turns the queued broadcasts into events, oldest first, and empties the
    /// queue; an unreadable log broadcast stops with its error and leaves the
    /// broadcasts behind it queued.
    pub fn drain_broadcasts(&mut self) -> (r: Result<Vec<XapEvent>, XapError>)
        requires
            spec_queue_readable(old(self).session().queue),
        ensures
            final(self).spec_id() == old(self).spec_id(),
            final(self).spec_info() == old(self).spec_info(),
            final(self).spec_constants() == old(self).spec_constants(),
            final(self).spec_state() == old(self).spec_state(),
            final(self).session().secure_status == old(self).session().secure_status,
            final(self).session().responses == old(self).session().responses,
            final(self).session().queue == spec_drain_rest(old(self).session().queue),
            match spec_drain(
                old(self).session().queue,
                old(self).spec_id(),
                old(self).session().secure_status,
            ) {
                Ok(events) => r matches Ok(v) && events_view(v@) == events,
                Err(e) => r == Err::<Vec<XapEvent>, XapError>(e),
            },
    {
        let ghost q0 = queue_view(self.broadcast_queue@);
        let total = self.broadcast_queue.len();
        let ghost id = self.state.id;
        let ghost status = self.state.secure_status;
        let mut events: Vec<XapEvent> = Vec::new();
        proof {
            assert(q0.subrange(0, q0.len() as int) =~= q0);
            assert(events_view(events@) =~= Seq::<XapEventView>::empty());
            lemma_concat_empty(spec_drain(q0, id, status));
        }
        let mut k: usize = 0;
        while self.broadcast_queue.len() > 0
            invariant
                self.state.id == id,
                self.state.secure_status == status,
                self.info == old(self).info,
                self.constants == old(self).constants,
                self.state == old(self).state,
                self.responses@ == old(self).responses@,
                q0 == queue_view(old(self).broadcast_queue@),
                k <= q0.len(),
                q0.len() == total,
                queue_view(self.broadcast_queue@) == q0.subrange(k as int, q0.len() as int),
                spec_queue_readable(q0),
                spec_drain(q0, id, status) == spec_concat_drain(
                    events_view(events@),
                    spec_drain(q0.subrange(k as int, q0.len() as int), id, status),
                ),
                spec_drain_rest(q0) == spec_drain_rest(q0.subrange(k as int, q0.len() as int)),
            decreases self.broadcast_queue@.len(),
        {
            let ghost rest = q0.subrange(k as int, q0.len() as int);
            let ghost qbefore = self.broadcast_queue@;
            let broadcast = match self.broadcast_queue.pop_front() {
                Some(b) => b,
                None => {
                    return Ok(events);
                },
            };
            proof {
                assert(queue_view(qbefore)[0] == broadcast@);
                assert(rest[0] == broadcast@);
                assert(rest.drop_first() =~= q0.subrange(k + 1, q0.len() as int));
                assert(queue_view(self.broadcast_queue@) =~= rest.drop_first());
                assert(q0[k as int] == rest[0]);
            }
            let ghost before = events@;
            let kind = *broadcast.broadcast_type();
            match kind {
                BroadcastType::Log => {
                    match broadcast.into_xap_broadcast::<LogBroadcast>() {
                        Ok(log) => {
                            events.push(XapEvent::LogReceived { id: self.state.id, log: log.0 });
                            proof {
                                lemma_concat_push(
                                    events_view(before),
                                    XapEventView::LogReceived { id, log: log.0@ },
                                    spec_drain(rest.drop_first(), id, status),
                                );
                                assert(events_view(events@) =~= events_view(before).push(
                                    XapEventView::LogReceived { id, log: log.0@ },
                                ));
                            }
                        },
                        Err(e) => {
                            proof {
                                lemma_concat_err(events_view(events@), e);
                            }
                            return Err(e);
                        },
                    }
                },
                BroadcastType::SecureStatus => {
                    events.push(
                        XapEvent::SecureStatusChanged {
                            id: self.state.id,
                            secure_status: self.state.secure_status,
                        },
                    );
                    proof {
                        lemma_concat_push(
                            events_view(before),
                            XapEventView::SecureStatusChanged { id, secure_status: status },
                            spec_drain(rest.drop_first(), id, status),
                        );
                        assert(events_view(events@) =~= events_view(before).push(
                            XapEventView::SecureStatusChanged { id, secure_status: status },
                        ));
                    }
                },
                _ => {},
            }
            k = k + 1;
        }
        proof {
            assert(q0.subrange(k as int, q0.len() as int) =~= Seq::<BroadcastView>::empty());
            assert(events_view(events@) =~= events_view(events@) + Seq::<XapEventView>::empty());
        }
        Ok(events)
    }

    /// Records the answer to a secure status request.
    pub fn set_secure_status(&mut self, status: XapSecureStatus)
        ensures
            final(self).spec_id() == old(self).spec_id(),
            final(self).spec_info() == old(self).spec_info(),
            final(self).spec_constants() == old(self).spec_constants(),
            final(self).spec_state() == (XapDeviceState {
                secure_status: status,
                ..old(self).spec_state()
            }),
            final(self).session() == (SessionView { secure_status: status, ..old(self).session() }),
    {
        self.state.secure_status = status;
    }

    /// Records the keycode that a successful remapping request wrote: the
    /// key at its position gets the keycode the tables give for it.
    pub fn apply_keycode(&mut self, config: RemappingSetKeycodeArg)
        requires
            old(self).spec_state().keymap.spec_in_bounds(
                config.layer as int,
                config.row as int,
                config.column as int,
            ),
        ensures
            final(self).spec_id() == old(self).spec_id(),
            final(self).spec_info() == old(self).spec_info(),
            final(self).spec_constants() == old(self).spec_constants(),
            final(self).session() == old(self).session(),
            final(self).spec_state().info == old(self).spec_state().info,
            final(self).spec_state().config == old(self).spec_state().config,
            final(self).spec_state().keymap.spec_same_shape(&old(self).spec_state().keymap),
            forall|l: int, r: int, c: int|
                old(self).spec_state().keymap.spec_in_bounds(l, r, c) ==> if l == config.layer && r
                    == config.row && c == config.column {
                    #[trigger] final(self).spec_state().keymap.spec_key(l, r, c).code@
                        == old(self).spec_constants().spec_keycode(config.keycode)
                        && final(self).spec_state().keymap.spec_key(l, r, c).position
                        == KeymapGetKeycodeArg {
                        layer: config.layer,
                        row: config.row,
                        column: config.column,
                    }
                } else {
                    final(self).spec_state().keymap.spec_key(l, r, c)
                        == old(self).spec_state().keymap.spec_key(l, r, c)
                },
    {
        let code = self.constants.get_keycode(config.keycode);
        let key = KeymapKey {
            code,
            position: KeymapGetKeycodeArg {
                layer: config.layer,
                row: config.row,
                column: config.column,
            },
        };
        self.state.keymap.set_keycode(key);
    }

    /// Stores the description and keymap that probing the device gave.
    pub fn set_probe_result(&mut self, info: XapDeviceInfo, config: Config, keymap: Keymap)
        ensures
            final(self).spec_id() == old(self).spec_id(),
            final(self).spec_info() == old(self).spec_info(),
            final(self).spec_constants() == old(self).spec_constants(),
            final(self).session() == old(self).session(),
            final(self).spec_state() == (XapDeviceState {
                info: Some(info),
                config,
                keymap,
                ..old(self).spec_state()
            }),
    {
        self.state.info = Some(info);
        self.state.config = config;
        self.state.keymap = keymap;
    }
}

/// Drained events followed by the events of the rest.
pub open spec fn spec_concat_drain(
    done: Seq<XapEventView>,
    rest: Result<Seq<XapEventView>, XapError>,
) -> Result<Seq<XapEventView>, XapError> {
    match rest {
        Ok(events) => Ok(done + events),
        Err(e) => Err(e),
    }
}

proof fn lemma_concat_push(
    done: Seq<XapEventView>,
    e: XapEventView,
    rest: Result<Seq<XapEventView>, XapError>,
)
    ensures
        spec_concat_drain(
            done,
            match rest {
                Ok(events) => Ok(seq![e] + events),
                Err(err) => Err(err),
            },
        ) == spec_concat_drain(done.push(e), rest),
{
    match rest {
        Ok(events) => {
            assert(done + (seq![e] + events) =~= done.push(e) + events);
        },
        Err(_) => {},
    }
}

proof fn lemma_concat_empty(rest: Result<Seq<XapEventView>, XapError>)
    ensures
        spec_concat_drain(Seq::empty(), rest) == rest,
{
    match rest {
        Ok(events) => {
            assert(Seq::<XapEventView>::empty() + events =~= events);
        },
        Err(_) => {},
    }
}

proof fn lemma_concat_err(done: Seq<XapEventView>, e: XapError)
    ensures
        spec_concat_drain(done, Err(e)) == Err::<Seq<XapEventView>, XapError>(e),
{
}

} // verus!
