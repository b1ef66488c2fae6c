//! The set of connected devices and the decisions of enumerating them.
use std::sync::Arc;

use vstd::prelude::*;

use crate::constants::XapConstants;
use crate::device::{HidIdentity, XapDevice, XapEvent, XapEventView, events_view};
use crate::codegen::{hex_digit_lower, spec_hex_byte_lower};
use crate::error::XapError;
use crate::text::{chars_to_string, push_str};

verus! {

/// The HID usage page of XAP interfaces.
pub const XAP_USAGE_PAGE: u16 = 0xFF51;

/// The HID usage of XAP interfaces.
pub const XAP_USAGE: u16 = 0x0058;

/// Why a client request failed.
#[derive(Debug, Clone, Copy, PartialEq, Eq, Structural)]
pub enum XapClientError {
    /// No connected device has this id.
    UnknownDevice(u128),
    /// The device answered with something the protocol does not allow.
    ProtocolError(XapError),
    /// The device did not answer in time.
    Timeout,
}

/// Whether an interface speaks XAP, judged by its usage page and usage.
pub open spec fn spec_is_xap_interface(i: HidIdentity) -> bool {
    i.usage_page == XAP_USAGE_PAGE && i.usage == XAP_USAGE
}

/// Whether some interface of `found` is the one `device` was opened on.
pub open spec fn spec_present(device: XapDevice, found: Seq<HidIdentity>) -> bool {
    exists|j: int| 0 <= j < found.len() && #[trigger] found[j].spec_same(&device.spec_info())
}

/// The devices of `devices` whose interface is among `found`, in order.
pub open spec fn spec_kept(devices: Seq<XapDevice>, found: Seq<HidIdentity>) -> Seq<XapDevice>
    decreases devices.len(),
{
    if devices.len() == 0 {
        devices
    } else {
        let rest = spec_kept(devices.drop_last(), found);
        if spec_present(devices.last(), found) {
            rest.push(devices.last())
        } else {
            rest
        }
    }
}

/// The removal events for the devices of `devices` whose interface is gone, in order.
pub open spec fn spec_removed(devices: Seq<XapDevice>, found: Seq<HidIdentity>) -> Seq<XapEventView>
    decreases devices.len(),
{
    if devices.len() == 0 {
        Seq::empty()
    } else {
        let rest = spec_removed(devices.drop_last(), found);
        if spec_present(devices.last(), found) {
            rest
        } else {
            rest.push(XapEventView::RemovedDevice { id: devices.last().spec_id() })
        }
    }
}

/// Whether the `i`-th device stays: its reader still runs or its interface
/// is among `found`.
pub open spec fn spec_stays(devices: Seq<XapDevice>, running: Seq<bool>, found: Seq<HidIdentity>, i: int) -> bool {
    running[i] || spec_present(devices[i], found)
}

/// The devices of `devices` that stay, in order, where `running[i]` tells
/// whether the reader of the `i`-th device still runs.
pub open spec fn spec_kept_live(devices: Seq<XapDevice>, running: Seq<bool>, found: Seq<HidIdentity>) -> Seq<
    XapDevice,
>
    decreases devices.len(),
{
    if devices.len() == 0 {
        devices
    } else {
        let rest = spec_kept_live(devices.drop_last(), running, found);
        if spec_stays(devices, running, found, devices.len() - 1) {
            rest.push(devices.last())
        } else {
            rest
        }
    }
}

/// The removal events for the devices of `devices` that do not stay, in order.
pub open spec fn spec_removed_live(devices: Seq<XapDevice>, running: Seq<bool>, found: Seq<HidIdentity>) -> Seq<
    XapEventView,
>
    decreases devices.len(),
{
    if devices.len() == 0 {
        Seq::empty()
    } else {
        let rest = spec_removed_live(devices.drop_last(), running, found);
        if spec_stays(devices, running, found, devices.len() - 1) {
            rest
        } else {
            rest.push(XapEventView::RemovedDevice { id: devices.last().spec_id() })
        }
    }
}

/// With no reader running, a device stays exactly when its interface is
/// listed.
proof fn lemma_live_without_readers(devices: Seq<XapDevice>, running: Seq<bool>, found: Seq<HidIdentity>)
    requires
        forall|i: int| 0 <= i < devices.len() ==> !(#[trigger] running[i]),
    ensures
        spec_kept_live(devices, running, found) == spec_kept(devices, found),
        spec_removed_live(devices, running, found) == spec_removed(devices, found),
    decreases devices.len(),
{
    if devices.len() > 0 {
        let d = devices.drop_last();
        assert forall|i: int| 0 <= i < d.len() implies !(#[trigger] running[i]) by {
            assert(!running[i]);
        }
        lemma_live_without_readers(d, running, found);
        assert(!running[devices.len() - 1]);
        assert(devices[devices.len() - 1] == devices.last());
    }
}

/// Restricting to a prefix of the devices does not change which of them
/// stay.
proof fn lemma_stays_prefix(devices: Seq<XapDevice>, running: Seq<bool>, found: Seq<HidIdentity>, k: int)
    requires
        0 <= k < devices.len(),
    ensures
        spec_stays(devices.subrange(0, k + 1), running, found, k) == spec_stays(devices, running, found, k),
        devices.subrange(0, k + 1).last() == devices[k],
{
}

/// Whether some device of `devices` was opened on interface `c`.
pub open spec fn spec_known(devices: Seq<XapDevice>, c: HidIdentity) -> bool {
    exists|i: int| 0 <= i < devices.len() && c.spec_same(&(#[trigger] devices[i]).spec_info())
}

/// Whether an enumeration opens the `j`-th interface found: no device was
/// opened on it and no earlier interface found is the same one.
pub open spec fn spec_opens(devices: Seq<XapDevice>, found: Seq<HidIdentity>, j: int) -> bool {
    &&& !spec_known(devices, found[j])
    &&& forall|x: int| 0 <= x < j ==> !(#[trigger] found[x]).spec_same(&found[j])
}

/// The positions among the first `n` interfaces found that an enumeration
/// opens, ascending.
pub open spec fn spec_to_open(devices: Seq<XapDevice>, found: Seq<HidIdentity>, n: nat) -> Seq<int>
    decreases n,
{
    if n == 0 {
        Seq::empty()
    } else {
        let prev = spec_to_open(devices, found, (n - 1) as nat);
        if spec_opens(devices, found, n - 1) {
            prev.push(n - 1)
        } else {
            prev
        }
    }
}

/// The positions an enumeration opens are below `n`, and each position
/// below `n` that it opens is among them.
proof fn lemma_to_open_members(devices: Seq<XapDevice>, found: Seq<HidIdentity>, n: nat)
    ensures
        forall|i: int|
            0 <= i < spec_to_open(devices, found, n).len() ==> 0 <= #[trigger] spec_to_open(
                devices,
                found,
                n,
            )[i] < n,
        forall|j: int|
            0 <= j < n && spec_opens(devices, found, j) ==> #[trigger] spec_to_open(
                devices,
                found,
                n,
            ).contains(j),
    decreases n,
{
    if n > 0 {
        lemma_to_open_members(devices, found, (n - 1) as nat);
        let prev = spec_to_open(devices, found, (n - 1) as nat);
        assert forall|j: int|
            0 <= j < n && spec_opens(devices, found, j) implies #[trigger] spec_to_open(
            devices,
            found,
            n,
        ).contains(j) by {
            if j < n - 1 {
                assert(prev.contains(j));
                let k = choose|k: int| 0 <= k < prev.len() && prev[k] == j;
                assert(spec_to_open(devices, found, n)[k] == j);
            } else {
                assert(spec_to_open(devices, found, n).last() == j);
            }
        }
    }
}

/// Every device kept by a removal over `found` was opened on an interface
/// of `found`.
proof fn lemma_kept_present(devices: Seq<XapDevice>, found: Seq<HidIdentity>)
    ensures
        forall|i: int|
            0 <= i < spec_kept(devices, found).len() ==> spec_present(
                #[trigger] spec_kept(devices, found)[i],
                found,
            ),
    decreases devices.len(),
{
    if devices.len() > 0 {
        let rest = spec_kept(devices.drop_last(), found);
        lemma_kept_present(devices.drop_last(), found);
        let k = spec_kept(devices, found);
        assert forall|i: int| 0 <= i < k.len() implies spec_present(#[trigger] k[i], found) by {
            if i < rest.len() {
                assert(k[i] == rest[i]);
            } else {
                assert(k[i] == devices.last());
            }
        }
    }
}

/// A removal over `found` keeps every device that was opened on an
/// interface of `found`, and announces nothing.
proof fn lemma_all_present_kept(devices: Seq<XapDevice>, found: Seq<HidIdentity>)
    requires
        forall|i: int| 0 <= i < devices.len() ==> spec_present(#[trigger] devices[i], found),
    ensures
        spec_kept(devices, found) == devices,
        spec_removed(devices, found) == Seq::<XapEventView>::empty(),
    decreases devices.len(),
{
    if devices.len() > 0 {
        let d = devices.drop_last();
        assert forall|i: int| 0 <= i < d.len() implies spec_present(#[trigger] d[i], found) by {
            assert(d[i] == devices[i]);
        }
        lemma_all_present_kept(d, found);
        assert(devices[devices.len() - 1] == devices.last());
        assert(d.push(devices.last()) =~= devices);
    }
}

/// An enumeration settles: it keeps the devices whose interface is listed
/// and opens one new device on each listed interface it opens; run again
/// over the same list, it removes no device and opens none.
pub proof fn law_enumeration_settles(devices: Seq<XapDevice>, found: Seq<HidIdentity>, added: Seq<XapDevice>)
    requires
        added.len() == spec_to_open(spec_kept(devices, found), found, found.len()).len(),
        forall|i: int|
            0 <= i < added.len() ==> (#[trigger] added[i]).spec_info() == found[spec_to_open(
                spec_kept(devices, found),
                found,
                found.len(),
            )[i]],
    ensures
        spec_kept(spec_kept(devices, found) + added, found) == spec_kept(devices, found) + added,
        spec_removed(spec_kept(devices, found) + added, found) == Seq::<XapEventView>::empty(),
        spec_to_open(spec_kept(devices, found) + added, found, found.len()) == Seq::<int>::empty(),
{
    let kept = spec_kept(devices, found);
    let plan = spec_to_open(kept, found, found.len());
    let after = kept + added;
    lemma_kept_present(devices, found);
    lemma_to_open_members(kept, found, found.len());
    assert forall|i: int| 0 <= i < after.len() implies spec_present(#[trigger] after[i], found) by {
        if i < kept.len() {
            assert(after[i] == kept[i]);
        } else {
            let a = i - kept.len();
            assert(after[i] == added[a]);
            let j = plan[a];
            assert(0 <= j < found.len());
            assert(found[j].spec_same(&after[i].spec_info()));
        }
    }
    lemma_all_present_kept(after, found);
    assert forall|j: int| 0 <= j < found.len() implies !spec_opens(after, found, j) by {
        if spec_opens(kept, found, j) {
            assert(plan.contains(j));
            let a = choose|a: int| 0 <= a < plan.len() && plan[a] == j;
            assert(after[kept.len() + a] == added[a]);
            assert(found[j].spec_same(&after[kept.len() + a].spec_info()));
        } else if spec_known(kept, found[j]) {
            let i = choose|i: int| 0 <= i < kept.len() && found[j].spec_same(&(#[trigger] kept[i]).spec_info());
            assert(after[i] == kept[i]);
        }
    }
    lemma_none_opened(after, found, found.len());
}

/// When no position below `n` is opened, the list of positions is empty.
proof fn lemma_none_opened(devices: Seq<XapDevice>, found: Seq<HidIdentity>, n: nat)
    requires
        n <= found.len(),
        forall|j: int| 0 <= j < found.len() ==> !spec_opens(devices, found, j),
    ensures
        spec_to_open(devices, found, n) == Seq::<int>::empty(),
    decreases n,
{
    if n > 0 {
        lemma_none_opened(devices, found, (n - 1) as nat);
    }
}

/// The connected devices and the constant tables they share.
pub struct XapClient {
    devices: Vec<XapDevice>,
    constants: Arc<XapConstants>,
}

impl XapClient {
    pub closed spec fn spec_devices(&self) -> Seq<XapDevice> {
        self.devices@
    }

    pub closed spec fn spec_constants(&self) -> XapConstants {
        *self.constants
    }

    /// A client without devices.
    pub fn new(constants: XapConstants) -> (r: XapClient)
        ensures
            r.spec_devices().len() == 0,
            r.spec_constants() == constants,
    {
        XapClient { devices: Vec::new(), constants: Arc::new(constants) }
    }

    /// The constant tables, to share with a new device.
    pub fn constants(&self) -> (r: Arc<XapConstants>)
        ensures
            *r == self.spec_constants(),
    {
        Arc::clone(&self.constants)
    }

    /// The constant tables.
    pub fn xap_constants(&self) -> (r: &XapConstants)
        ensures
            *r == self.spec_constants(),
    {
        &self.constants
    }

    /// Whether an interface speaks XAP.
    pub fn is_xap_interface(identity: &HidIdentity) -> (r: bool)
        ensures
            r == spec_is_xap_interface(*identity),
    {
        identity.usage_page == XAP_USAGE_PAGE && identity.usage == XAP_USAGE
    }

    /// The XAP interfaces among those found, in order.
    pub fn xap_interfaces(found: Vec<HidIdentity>) -> (r: Vec<HidIdentity>)
        ensures
            r@ == found@.filter(|i: HidIdentity| spec_is_xap_interface(i)),
    {
        let ghost pred = |i: HidIdentity| spec_is_xap_interface(i);
        let mut out: Vec<HidIdentity> = Vec::new();
        let mut rest = found;
        let ghost all = rest@;
        let total = rest.len();
        let mut k: usize = 0;
        proof {
            reveal(Seq::filter);
            assert(all.subrange(0, 0) =~= Seq::<HidIdentity>::empty());
        }
        while rest.len() > 0
            invariant
                k + rest@.len() == all.len(),
                total == all.len(),
                pred == (|i: HidIdentity| spec_is_xap_interface(i)),
                rest@ == all.subrange(k as int, all.len() as int),
                out@ == all.subrange(0, k as int).filter(pred),
            decreases rest@.len(),
        {
            let ghost old_rest = rest@;
            let i = rest.remove(0);
            proof {
                reveal(Seq::filter);
                assert(old_rest[0] == all[k as int]);
                assert(all.subrange(0, k + 1).drop_last() =~= all.subrange(0, k as int));
                assert(all.subrange(0, k + 1).last() == i);
            }
            let ghost before = out@;
            if Self::is_xap_interface(&i) {
                out.push(i);
            }
            proof {
                reveal(Seq::filter);
                let s1 = all.subrange(0, k + 1);
                assert(s1.len() > 0);
                assert(s1.filter(pred) == (if pred(s1.last()) {
                    s1.drop_last().filter(pred).push(s1.last())
                } else {
                    s1.drop_last().filter(pred)
                }));
                assert(pred(i) == spec_is_xap_interface(i));
                assert(out@ == all.subrange(0, k + 1).filter(pred));
            }
            k = k + 1;
            assert(rest@ =~= all.subrange(k as int, all.len() as int));
        }
        assert(all.subrange(0, all.len() as int) =~= all);
        out
    }

    /// Whether a connected device was opened on this interface.
    pub fn is_known(&self, identity: &HidIdentity) -> (r: bool)
        ensures
            r == exists|i: int|
                0 <= i < self.spec_devices().len() && identity.spec_same(
                    &(#[trigger] self.spec_devices()[i]).spec_info(),
                ),
    {
        let mut i: usize = 0;
        while i < self.devices.len()
            invariant
                i <= self.devices@.len(),
                forall|j: int|
                    0 <= j < i ==> !identity.spec_same(&(#[trigger] self.devices@[j]).spec_info()),
            decreases self.devices@.len() - i,
        {
            if self.devices[i].is_hid_device(identity) {
                assert(identity.spec_same(&self.spec_devices()[i as int].spec_info())) by {
                    lemma_same_symmetric(*identity, self.devices@[i as int].spec_info());
                }
                return true;
            }
            proof {
                lemma_same_symmetric(*identity, self.devices@[i as int].spec_info());
            }
            i = i + 1;
        }
        false
    }

    /// Drops the devices whose interface is no longer among those found,
    /// giving a removal event for each, in order.
    pub fn remove_missing(&mut self, found: &Vec<HidIdentity>) -> (r: Vec<XapEvent>)
        ensures
            final(self).spec_devices() == spec_kept(old(self).spec_devices(), found@),
            final(self).spec_constants() == old(self).spec_constants(),
            events_view(r@) == spec_removed(old(self).spec_devices(), found@),
    {
        let mut running: Vec<bool> = Vec::new();
        let mut i: usize = 0;
        while i < self.devices.len()
            invariant
                i <= self.devices@.len(),
                running@.len() == i,
                forall|j: int| 0 <= j < i ==> !(#[trigger] running@[j]),
            decreases self.devices@.len() - i,
        {
            running.push(false);
            i = i + 1;
        }
        proof {
            lemma_live_without_readers(self.devices@, running@, found@);
        }
        self.remove_gone(found, &running)
    }

    /// Drops the devices whose reader no longer runs and whose interface is
    /// no longer among those found, giving a removal event for each, in
    /// order; `running[i]` tells whether the reader of the `i`-th device
    /// still runs.
    pub fn remove_gone(&mut self, found: &Vec<HidIdentity>, running: &Vec<bool>) -> (r: Vec<XapEvent>)
        requires
            running@.len() == old(self).spec_devices().len(),
        ensures
            final(self).spec_devices() == spec_kept_live(old(self).spec_devices(), running@, found@),
            final(self).spec_constants() == old(self).spec_constants(),
            events_view(r@) == spec_removed_live(old(self).spec_devices(), running@, found@),
    {
        let mut events: Vec<XapEvent> = Vec::new();
        let mut kept: Vec<XapDevice> = Vec::new();
        let mut rest: Vec<XapDevice> = Vec::new();
        std::mem::swap(&mut rest, &mut self.devices);
        let ghost all = rest@;
        let total = rest.len();
        let mut k: usize = 0;
        assert(all.subrange(0, 0) =~= Seq::<XapDevice>::empty());
        assert(events_view(events@) =~= Seq::<XapEventView>::empty());
        while rest.len() > 0
            invariant
                k + rest@.len() == all.len(),
                total == all.len(),
                running@.len() == all.len(),
                rest@ == all.subrange(k as int, all.len() as int),
                kept@ == spec_kept_live(all.subrange(0, k as int), running@, found@),
                events_view(events@) == spec_removed_live(all.subrange(0, k as int), running@, found@),
            decreases rest@.len(),
        {
            let device = rest.remove(0);
            proof {
                assert(all.subrange(0, k + 1).drop_last() =~= all.subrange(0, k as int));
                lemma_stays_prefix(all, running@, found@, k as int);
                assert(device == all[k as int]);
            }
            let mut present = running[k];
            let mut j: usize = 0;
            while j < found.len()
                invariant
                    j <= found@.len(),
                    present == (running@[k as int] || exists|x: int|
                        0 <= x < j && #[trigger] found@[x].spec_same(&device.spec_info())),
                decreases found@.len() - j,
            {
                if device.is_hid_device(&found[j]) {
                    present = true;
                }
                j = j + 1;
            }
            if present {
                kept.push(device);
            } else {
                let ghost before = events@;
                events.push(XapEvent::RemovedDevice { id: device.id() });
                assert(events_view(events@) =~= events_view(before).push(
                    XapEventView::RemovedDevice { id: device.spec_id() },
                ));
            }
            k = k + 1;
            assert(rest@ =~= all.subrange(k as int, all.len() as int));
        }
        assert(all.subrange(0, all.len() as int) =~= all);
        self.devices = kept;
        events
    }

    /// The positions of the interfaces found that an enumeration opens, in
    /// order: those no device was opened on, each interface only once.
    pub fn interfaces_to_open(&self, found: &Vec<HidIdentity>) -> (r: Vec<usize>)
        ensures
            r@.map_values(|i: usize| i as int) == spec_to_open(self.spec_devices(), found@, found@.len()),
    {
        let mut out: Vec<usize> = Vec::new();
        let mut j: usize = 0;
        assert(out@.map_values(|i: usize| i as int) =~= Seq::<int>::empty());
        while j < found.len()
            invariant
                j <= found@.len(),
                out@.map_values(|i: usize| i as int) == spec_to_open(self.spec_devices(), found@, j as nat),
            decreases found@.len() - j,
        {
            let known = self.is_known(&found[j]);
            let mut earlier = false;
            let mut x: usize = 0;
            while x < j
                invariant
                    x <= j < found@.len(),
                    earlier == exists|y: int| 0 <= y < x && #[trigger] found@[y].spec_same(&found@[j as int]),
                decreases j - x,
            {
                if found[x].same(&found[j]) {
                    earlier = true;
                }
                x = x + 1;
            }
            if !known && !earlier {
                let ghost before = out@;
                out.push(j);
                assert(out@.map_values(|i: usize| i as int) =~= before.map_values(|i: usize| i as int).push(
                    j as int,
                ));
            }
            j = j + 1;
        }
        out
    }

    /// Adds a device that was opened and probed, announcing it.
    pub fn add_device(&mut self, device: XapDevice) -> (r: XapEvent)
        ensures
            final(self).spec_devices() == old(self).spec_devices().push(device),
            final(self).spec_constants() == old(self).spec_constants(),
            r@ == (XapEventView::NewDevice { id: device.spec_id() }),
    {
        let id = device.id();
        self.devices.push(device);
        XapEvent::NewDevice { id }
    }

    /// The number of connected devices.
    pub fn device_count(&self) -> (r: usize)
        ensures
            r == self.spec_devices().len(),
    {
        self.devices.len()
    }

    /// The position of the device with this id, or `UnknownDevice`.
    pub fn device_index(&self, id: u128) -> (r: Result<usize, XapClientError>)
        ensures
            match r {
                Ok(i) => i < self.spec_devices().len() && self.spec_devices()[i as int].spec_id() == id
                    && forall|j: int| 0 <= j < i ==> (#[trigger] self.spec_devices()[j]).spec_id() != id,
                Err(e) => e == XapClientError::UnknownDevice(id) && forall|j: int|
                    0 <= j < self.spec_devices().len() ==> (#[trigger] self.spec_devices()[j]).spec_id()
                        != id,
            },
    {
        let mut i: usize = 0;
        while i < self.devices.len()
            invariant
                i <= self.devices@.len(),
                forall|j: int| 0 <= j < i ==> (#[trigger] self.devices@[j]).spec_id() != id,
            decreases self.devices@.len() - i,
        {
            if self.devices[i].id() == id {
                return Ok(i);
            }
            i = i + 1;
        }
        Err(XapClientError::UnknownDevice(id))
    }

    /// The device at a position.
    pub fn device(&self, index: usize) -> (r: &XapDevice)
        requires
            index < self.spec_devices().len(),
        ensures
            *r == self.spec_devices()[index as int],
    {
        &self.devices[index]
    }

    /// The device at a position, to change it.
    pub fn device_mut(&mut self, index: usize) -> (r: &mut XapDevice)
        requires
            index < old(self).spec_devices().len(),
        ensures
            *r == old(self).spec_devices()[index as int],
            final(self).spec_devices() == old(self).spec_devices().update(index as int, *final(r)),
            final(self).spec_constants() == old(self).spec_constants(),
    {
        &mut self.devices[index]
    }
}

impl XapClient {
    /// The device with this id, or `UnknownDevice`.
    pub fn get_device(&self, id: u128) -> (r: Result<&XapDevice, XapClientError>)
        ensures
            match r {
                Ok(d) => exists|i: int|
                    0 <= i < self.spec_devices().len() && *d == self.spec_devices()[i]
                        && d.spec_id() == id,
                Err(e) => e == XapClientError::UnknownDevice(id) && forall|j: int|
                    0 <= j < self.spec_devices().len() ==> (#[trigger] self.spec_devices()[j]).spec_id()
                        != id,
            },
    {
        match self.device_index(id) {
            Ok(i) => Ok(self.device(i)),
            Err(e) => Err(e),
        }
    }

    /// All connected devices, in order.
    pub fn get_devices(&self) -> (r: Vec<&XapDevice>)
        ensures
            r@.len() == self.spec_devices().len(),
            forall|i: int| 0 <= i < r@.len() ==> *r@[i] == self.spec_devices()[i],
    {
        let mut out: Vec<&XapDevice> = Vec::new();
        let mut i: usize = 0;
        while i < self.devices.len()
            invariant
                i <= self.devices@.len(),
                out@.len() == i,
                forall|k: int| 0 <= k < i ==> *out@[k] == self.devices@[k],
            decreases self.devices@.len() - i,
        {
            out.push(&self.devices[i]);
            i = i + 1;
        }
        out
    }
}

/// An interface as the HID layer lists it, with the strings it could fetch.
#[derive(Debug, Clone)]
pub struct HidDeviceDescription {
    pub identity: HidIdentity,
    pub serial_number: Option<String>,
    pub product_string: Option<String>,
    pub manufacturer_string: Option<String>,
}

/// `{:04x}` of a 16 bit value: four lowercase hexadecimal digits.
pub open spec fn spec_hex4(v: u16) -> Seq<char> {
    spec_hex_byte_lower((v / 256) as u8) + spec_hex_byte_lower((v % 256) as u8)
}

/// A fetched string, or the marker for one that could not be fetched.
pub open spec fn spec_or_marker(s: Option<String>, marker: Seq<char>) -> Seq<char> {
    match s {
        Some(t) => t@,
        None => marker,
    }
}

/// The line that describes an interface: its ids in hexadecimal, then its
/// serial number, product name and manufacturer.
pub open spec fn spec_description(d: HidDeviceDescription) -> Seq<char> {
    "VID: "@ + spec_hex4(d.identity.vendor_id) + ", PID: "@ + spec_hex4(d.identity.product_id)
        + ", Serial: "@ + spec_or_marker(d.serial_number, "<COULD NOT FETCH>"@)
        + ", Product name: "@ + spec_or_marker(d.product_string, "<COULD NOT FETCH>"@)
        + ", Manufacturer: "@ + spec_or_marker(d.manufacturer_string, "<COULD_NOT_FETCH>"@)
}

/// The descriptions of the XAP interfaces among those found, in order.
pub open spec fn spec_xap_descriptions(found: Seq<HidDeviceDescription>) -> Seq<Seq<char>>
    decreases found.len(),
{
    if found.len() == 0 {
        Seq::empty()
    } else {
        let rest = spec_xap_descriptions(found.drop_last());
        if spec_is_xap_interface(found.last().identity) {
            rest.push(spec_description(found.last()))
        } else {
            rest
        }
    }
}

fn push_hex4(out: &mut Vec<char>, v: u16)
    ensures
        final(out)@ == old(out)@ + spec_hex4(v),
{
    let hi = (v / 256) as u8;
    let lo = (v % 256) as u8;
    out.push(hex_digit_lower(hi / 16));
    out.push(hex_digit_lower(hi % 16));
    out.push(hex_digit_lower(lo / 16));
    out.push(hex_digit_lower(lo % 16));
    assert(final(out)@ =~= old(out)@ + spec_hex4(v));
}

fn push_or_marker(out: &mut Vec<char>, s: &Option<String>, marker: &str)
    ensures
        final(out)@ == old(out)@ + spec_or_marker(*s, marker@),
{
    match s {
        Some(t) => push_str(out, t.as_str()),
        None => push_str(out, marker),
    }
}

/// The line that describes an interface.
pub fn device_description(d: &HidDeviceDescription) -> (r: String)
    ensures
        r@ == spec_description(*d),
{
    let mut out: Vec<char> = Vec::new();
    push_str(&mut out, "VID: ");
    push_hex4(&mut out, d.identity.vendor_id);
    push_str(&mut out, ", PID: ");
    push_hex4(&mut out, d.identity.product_id);
    push_str(&mut out, ", Serial: ");
    push_or_marker(&mut out, &d.serial_number, "<COULD NOT FETCH>");
    push_str(&mut out, ", Product name: ");
    push_or_marker(&mut out, &d.product_string, "<COULD NOT FETCH>");
    push_str(&mut out, ", Manufacturer: ");
    push_or_marker(&mut out, &d.manufacturer_string, "<COULD_NOT_FETCH>");
    assert(out@ =~= spec_description(*d));
    chars_to_string(out)
}

impl XapClient {
    /// One line for each XAP interface among those found, in order.
    pub fn get_xap_devices(found: &Vec<HidDeviceDescription>) -> (r: Vec<String>)
        ensures
            r@.map_values(|s: String| s@) == spec_xap_descriptions(found@),
    {
        let mut out: Vec<String> = Vec::new();
        let mut i: usize = 0;
        assert(found@.subrange(0, 0) =~= Seq::<HidDeviceDescription>::empty());
        while i < found.len()
            invariant
                i <= found@.len(),
                out@.map_values(|s: String| s@) == spec_xap_descriptions(found@.subrange(0, i as int)),
            decreases found@.len() - i,
        {
            let ghost before = out@;
            if Self::is_xap_interface(&found[i].identity) {
                out.push(device_description(&found[i]));
                assert(out@.map_values(|s: String| s@) =~= before.map_values(|s: String| s@).push(
                    spec_description(found@[i as int]),
                ));
            }
            proof {
                let p = found@.subrange(0, i + 1);
                assert(p.drop_last() =~= found@.subrange(0, i as int));
                assert(p.last() == found@[i as int]);
            }
            i = i + 1;
        }
        assert(found@.subrange(0, found@.len() as int) =~= found@);
        out
    }
}

proof fn lemma_same_symmetric(a: HidIdentity, b: HidIdentity)
    ensures
        a.spec_same(&b) == b.spec_same(&a),
{
}

} // verus!
