//! A leaner variant of the manager: no inspect mode, two debugging banners,
//! and a list that is re-sorted only when a device is added.

use vstd::prelude::*;
use crate::btui::{
    Expiry, Flow, Operation, needless, needless_text, success_text, failure_text, row_device,
    is_needless, needless_message, success_message, failure_message,
};
pub use crate::btui::{Banner, BannerType};
use crate::device::{
    BTDevice, sort_desc, without_address, replace_address, sort_devices,
    contains_address, remove_address, replace_device, addresses_unique, lemma_sort_desc_unique,
    lemma_without_address_unique, lemma_add_new_unique, lemma_replace_address_unique, add_new,
};
use crate::text::text_eq;
use crate::display::listed_devices;

verus! {

/// What the event loop hands the manager.
pub enum BMEvent {
    Pass,
    Exit,
    ScrollDown,
    ScrollUp,
    DeviceAdded(BTDevice),
    DeviceRemoved(BTDevice),
    DeviceModified(BTDevice),
    BannerExpired(String),
    ConnectRequested,
    PairRequested,
    DisconnectRequested,
    RemoveRequested,
    DebugFailBanner,
    DebugSuccessBanner,
    ShowHideUnnamed,
}

/// What the manager is doing: browsing, or about to act on one device.
pub enum BMMode {
    Browse,
    TryConnect(BTDevice),
    TryPair(BTDevice),
    TryDisconnect(BTDevice),
    TryRemove(BTDevice),
}

impl Clone for BMMode {
    fn clone(&self) -> (r: Self)
        ensures
            r == *self,
    {
        match self {
            BMMode::Browse => BMMode::Browse,
            BMMode::TryConnect(d) => BMMode::TryConnect(d.clone()),
            BMMode::TryPair(d) => BMMode::TryPair(d.clone()),
            BMMode::TryDisconnect(d) => BMMode::TryDisconnect(d.clone()),
            BMMode::TryRemove(d) => BMMode::TryRemove(d.clone()),
        }
    }
}

/// The manager's answer to one event: what the loop does next, and the
/// banner timers to start, in order.
pub struct BMStep {
    pub flow: Flow,
    pub expiries: Vec<Expiry>,
}

/// The manager's state.
pub struct BluemanApp {
    pub devices: Vec<BTDevice>,
    pub mode: BMMode,
    pub banner: Option<Banner>,
    /// The highlighted table row; row `i` shows device `i - 1`.
    pub selected: Option<usize>,
    pub show_unnamed: bool,
}

/// How long a banner of this kind stays up, in seconds.
pub open spec fn bm_banner_seconds(t: BannerType) -> u64 {
    match t {
        BannerType::Failure => 4,
        _ => 2,
    }
}

/// The operation a mode is about to carry out, and on which device.
pub open spec fn bm_attempt_of(m: BMMode) -> Option<(Operation, BTDevice)> {
    match m {
        BMMode::TryConnect(d) => Some((Operation::Connect, d)),
        BMMode::TryPair(d) => Some((Operation::Pair, d)),
        BMMode::TryDisconnect(d) => Some((Operation::Disconnect, d)),
        BMMode::TryRemove(d) => Some((Operation::Remove, d)),
        _ => None,
    }
}

/// The device list after an event while browsing; a modified device is
/// replaced where it stands.
pub open spec fn bm_browse_devices(s: Seq<BTDevice>, e: BMEvent) -> Seq<BTDevice> {
    match e {
        BMEvent::DeviceAdded(d) => sort_desc(add_new(s, d)),
        BMEvent::DeviceRemoved(d) => without_address(s, d.address@),
        BMEvent::DeviceModified(d) => replace_address(s, d),
        _ => s,
    }
}

/// The highlighted row after an event while browsing; down from no
/// highlight goes to the first device row even when there is none.
pub open spec fn bm_browse_selected(sel: Option<usize>, e: BMEvent) -> Option<usize> {
    match e {
        BMEvent::ScrollUp => match sel {
            Some(i) => if i <= 1 {
                None
            } else {
                Some((i - 1) as usize)
            },
            None => None,
        },
        BMEvent::ScrollDown => match sel {
            Some(i) => if i < usize::MAX {
                Some((i + 1) as usize)
            } else {
                sel
            },
            None => Some(1usize),
        },
        _ => sel,
    }
}

/// The mode after an event while browsing.
pub open spec fn bm_browse_mode(
    devices: Seq<BTDevice>,
    show_unnamed: bool,
    sel: Option<usize>,
    e: BMEvent,
) -> BMMode {
    match row_device(devices, show_unnamed, sel) {
        Some(d) => match e {
            BMEvent::ConnectRequested => BMMode::TryConnect(d),
            BMEvent::PairRequested => BMMode::TryPair(d),
            BMEvent::DisconnectRequested => BMMode::TryDisconnect(d),
            BMEvent::RemoveRequested => BMMode::TryRemove(d),
            _ => BMMode::Browse,
        },
        None => BMMode::Browse,
    }
}

/// The banner a debugging event puts up, if any.
pub open spec fn debug_banner(e: BMEvent) -> Option<(Seq<char>, BannerType)> {
    match e {
        BMEvent::DebugFailBanner => Some(("Failure message!"@, BannerType::Failure)),
        BMEvent::DebugSuccessBanner => Some(("Success message!"@, BannerType::Success)),
        _ => None,
    }
}

/// The banner after an event, before the mode is acted on.
pub open spec fn bm_banner_matches(after: Option<Banner>, before: Option<Banner>, e: BMEvent) -> bool {
    match debug_banner(e) {
        Some((m, t)) => after matches Some(b) && b.0@ == m && b.1 == t,
        None => match e {
            BMEvent::BannerExpired(msg) => after == (match before {
                Some(x) => if x.0@ == msg@ {
                    None
                } else {
                    before
                },
                None => before,
            }),
            _ => after == before,
        },
    }
}

/// Every event the manager browses keeps the addresses in the device list
/// distinct.
pub proof fn lemma_bm_browse_keeps_addresses_unique(s: Seq<BTDevice>, e: BMEvent)
    requires
        addresses_unique(s),
    ensures
        addresses_unique(bm_browse_devices(s, e)),
{
    match e {
        BMEvent::DeviceAdded(d) => {
            lemma_add_new_unique(s, d);
            lemma_sort_desc_unique(add_new(s, d));
        },
        BMEvent::DeviceRemoved(d) => {
            lemma_without_address_unique(s, d.address@);
        },
        BMEvent::DeviceModified(d) => {
            lemma_replace_address_unique(s, d);
        },
        _ => {},
    }
}

fn bm_banner_duration(t: BannerType) -> (r: u64)
    ensures
        r == bm_banner_seconds(t),
{
    match t {
        BannerType::Failure => 4,
        _ => 2,
    }
}

impl BluemanApp {
    /// A manager with no devices, browsing, with no banner and no row
    /// highlighted.
    pub fn new() -> (r: Self)
        ensures
            r.devices@.len() == 0,
            r.mode is Browse,
            r.banner is None,
            r.selected is None,
            !r.show_unnamed,
    {
        BluemanApp {
            devices: Vec::new(),
            mode: BMMode::Browse,
            banner: None,
            selected: None,
            show_unnamed: false,
        }
    }

    fn selected_device(&self) -> (r: Option<BTDevice>)
        ensures
            r == row_device(self.devices@, self.show_unnamed, self.selected),
    {
        let rows = listed_devices(&self.devices, self.show_unnamed);
        match self.selected {
            Some(i) => if 1 <= i && i <= rows.len() {
                Some(rows[i - 1].clone())
            } else {
                None
            },
            None => None,
        }
    }

    /// Puts up a banner and returns the timer that takes it down again.
    pub fn set_new_banner(&mut self, b: Banner) -> (r: Expiry)
        ensures
            final(self).banner == Some(b),
            r.message@ == b.0@,
            r.seconds == bm_banner_seconds(b.1),
            final(self).devices == old(self).devices,
            final(self).mode == old(self).mode,
            final(self).selected == old(self).selected,
            final(self).show_unnamed == old(self).show_unnamed,
    {
        let r = Expiry { message: b.0.clone(), seconds: bm_banner_duration(b.1) };
        self.banner = Some(b);
        r
    }

    /// Acts on one event. `Exit` ends the loop and changes nothing. Any other
    /// event first applies what holds in every mode (an expiry notice takes
    /// down the banner it names; a debugging event puts up its banner), then
    /// is acted on by the mode: browsing applies it to the list, the
    /// selection and the mode; an operation mode asks for the operation, or,
    /// where it is needless, puts up a status banner and returns to browsing.
    pub fn handle_event(&mut self, e: BMEvent) -> (r: BMStep)
        ensures
            addresses_unique(old(self).devices@) ==> addresses_unique(final(self).devices@),
            e is Exit ==> r.flow is Quit && r.expiries@.len() == 0 && *final(self) == *old(self),
            old(self).mode is Browse && !(e is Exit) ==> {
                &&& final(self).devices@ == bm_browse_devices(old(self).devices@, e)
                &&& final(self).selected == bm_browse_selected(old(self).selected, e)
                &&& final(self).mode == bm_browse_mode(
                    old(self).devices@,
                    old(self).show_unnamed,
                    old(self).selected,
                    e,
                )
                &&& final(self).show_unnamed == (old(self).show_unnamed != (e is ShowHideUnnamed))
                &&& bm_banner_matches(final(self).banner, old(self).banner, e)
                &&& r.flow is Draw
            },
            !(e is Exit) && debug_banner(e) is None ==> r.expiries@.len() <= 1,
            old(self).mode is Browse && debug_banner(e) is Some ==> r.expiries@.len() == 1,
            debug_banner(e) matches Some((m, t)) ==> {
                &&& r.expiries@.len() >= 1
                &&& r.expiries@[0].message@ == m
                &&& r.expiries@[0].seconds == bm_banner_seconds(t)
            },
            bm_attempt_of(old(self).mode) matches Some((op, d)) ==> !(e is Exit) ==> {
                &&& final(self).devices == old(self).devices
                &&& final(self).selected == old(self).selected
                &&& final(self).show_unnamed == old(self).show_unnamed
                &&& if needless(op, d) {
                    &&& final(self).mode is Browse
                    &&& final(self).banner matches Some(b) && b.0@ == needless_text(op, d.name@)
                        && b.1 == BannerType::Status
                    &&& r.flow is Hold
                    &&& r.expiries@.len() >= 1
                    &&& r.expiries@.last().message@ == needless_text(op, d.name@)
                    &&& r.expiries@.last().seconds == bm_banner_seconds(BannerType::Status)
                } else {
                    &&& final(self).mode == old(self).mode
                    &&& bm_banner_matches(final(self).banner, old(self).banner, e)
                    &&& r.flow == Flow::Perform(op, d)
                    &&& r.expiries@.len() == (if debug_banner(e) is Some { 1int } else { 0 })
                }
            },
    {
        let mut expiries: Vec<Expiry> = Vec::new();
        match &e {
            BMEvent::Exit => {
                return BMStep { flow: Flow::Quit, expiries };
            },
            BMEvent::BannerExpired(msg) => {
                let clear = match &self.banner {
                    Some(b) => text_eq(b.0.as_str(), msg.as_str()),
                    None => false,
                };
                if clear {
                    self.banner = None;
                }
            },
            BMEvent::DebugFailBanner => {
                let x = self.set_new_banner(
                    Banner(String::from_str("Failure message!"), BannerType::Failure),
                );
                expiries.push(x);
            },
            BMEvent::DebugSuccessBanner => {
                let x = self.set_new_banner(
                    Banner(String::from_str("Success message!"), BannerType::Success),
                );
                expiries.push(x);
            },
            _ => {},
        }
        let mode = self.mode.clone();
        let flow = match mode {
            BMMode::Browse => {
                proof {
                    if addresses_unique(self.devices@) {
                        lemma_bm_browse_keeps_addresses_unique(self.devices@, e);
                    }
                }
                self.browse(e);
                Flow::Draw
            },
            BMMode::TryConnect(d) => self.attempt(Operation::Connect, d, &mut expiries),
            BMMode::TryPair(d) => self.attempt(Operation::Pair, d, &mut expiries),
            BMMode::TryDisconnect(d) => self.attempt(Operation::Disconnect, d, &mut expiries),
            BMMode::TryRemove(d) => self.attempt(Operation::Remove, d, &mut expiries),
        };
        BMStep { flow, expiries }
    }

    fn attempt(&mut self, op: Operation, d: BTDevice, expiries: &mut Vec<Expiry>) -> (r: Flow)
        ensures
            final(self).devices == old(self).devices,
            final(self).selected == old(self).selected,
            final(self).show_unnamed == old(self).show_unnamed,
            needless(op, d) ==> {
                &&& final(self).mode is Browse
                &&& final(self).banner matches Some(b) && b.0@ == needless_text(op, d.name@) && b.1
                    == BannerType::Status
                &&& r is Hold
                &&& final(expiries)@.len() == old(expiries)@.len() + 1
                &&& forall|i: int| 0 <= i < old(expiries)@.len() ==> final(expiries)@[i] == old(expiries)@[i]
                &&& final(expiries)@.last().message@ == needless_text(op, d.name@)
                &&& final(expiries)@.last().seconds == bm_banner_seconds(BannerType::Status)
            },
            !needless(op, d) ==> {
                &&& final(self).mode == old(self).mode
                &&& final(self).banner == old(self).banner
                &&& r == Flow::Perform(op, d)
                &&& final(expiries)@ == old(expiries)@
            },
    {
        if is_needless(op, &d) {
            let msg = needless_message(op, d.name.as_str());
            let x = self.set_new_banner(Banner(msg, BannerType::Status));
            self.mode = BMMode::Browse;
            expiries.push(x);
            Flow::Hold
        } else {
            Flow::Perform(op, d)
        }
    }

    /// Records the outcome of an operation on a device: a success banner, or
    /// a failure banner that carries the error text; either way the manager
    /// returns to browsing. Returns the timer that takes the banner down.
    pub fn complete(&mut self, op: Operation, d: &BTDevice, outcome: Result<(), String>) -> (r: Expiry)
        ensures
            final(self).mode is Browse,
            final(self).banner matches Some(b) && r.message@ == b.0@ && r.seconds
                == bm_banner_seconds(b.1) && match outcome {
                Ok(_) => b.0@ == success_text(op, d.name@) && b.1 == BannerType::Success,
                Err(err) => b.0@ == failure_text(op, d.name@, err@) && b.1 == BannerType::Failure,
            },
            final(self).devices == old(self).devices,
            final(self).selected == old(self).selected,
            final(self).show_unnamed == old(self).show_unnamed,
    {
        let b = match outcome {
            Ok(_) => Banner(success_message(op, d.name.as_str()), BannerType::Success),
            Err(err) => Banner(failure_message(op, d.name.as_str(), err.as_str()), BannerType::Failure),
        };
        let x = self.set_new_banner(b);
        self.mode = BMMode::Browse;
        x
    }

    fn browse(&mut self, e: BMEvent)
        requires
            old(self).mode is Browse,
        ensures
            final(self).devices@ == bm_browse_devices(old(self).devices@, e),
            final(self).selected == bm_browse_selected(old(self).selected, e),
            final(self).show_unnamed == (old(self).show_unnamed != (e is ShowHideUnnamed)),
            final(self).mode == bm_browse_mode(old(self).devices@, old(self).show_unnamed, old(self).selected, e),
            final(self).banner == old(self).banner,
    {
        let current = self.selected_device();
        match e {
            BMEvent::ScrollUp => match self.selected {
                Some(i) => {
                    if i <= 1 {
                        self.selected = None;
                    } else {
                        self.selected = Some(i - 1);
                    }
                },
                None => {},
            },
            BMEvent::ScrollDown => match self.selected {
                Some(i) => {
                    if i < usize::MAX {
                        self.selected = Some(i + 1);
                    }
                },
                None => {
                    self.selected = Some(1);
                },
            },
            BMEvent::DeviceAdded(d) => {
                if !contains_address(&self.devices, d.address.as_str()) {
                    self.devices.push(d);
                }
                self.devices = sort_devices(&self.devices);
            },
            BMEvent::DeviceRemoved(d) => {
                self.devices = remove_address(&self.devices, d.address.as_str());
            },
            BMEvent::DeviceModified(d) => {
                self.devices = replace_device(&self.devices, &d);
            },
            BMEvent::ConnectRequested => {
                if let Some(d) = current {
                    self.mode = BMMode::TryConnect(d);
                }
            },
            BMEvent::PairRequested => {
                if let Some(d) = current {
                    self.mode = BMMode::TryPair(d);
                }
            },
            BMEvent::DisconnectRequested => {
                if let Some(d) = current {
                    self.mode = BMMode::TryDisconnect(d);
                }
            },
            BMEvent::RemoveRequested => {
                if let Some(d) = current {
                    self.mode = BMMode::TryRemove(d);
                }
            },
            BMEvent::ShowHideUnnamed => {
                self.show_unnamed = !self.show_unnamed;
            },
            _ => {},
        }
    }
}

} // verus!
