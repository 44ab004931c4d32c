//! The manager's decisions: what each event does to the device list, the
//! selection, the mode and the status banner, and what the event loop has to
//! do next.

use vstd::prelude::*;
use crate::device::{
    BTDevice, sort_desc, without_address, replace_address, sort_devices,
    contains_address, remove_address, replace_device, addresses_unique, sorted_desc,
    lemma_sort_desc, lemma_sort_desc_unique, lemma_without_address_unique,
    lemma_without_address_sorted, lemma_add_new_unique, lemma_replace_address_unique, add_new,
};
use crate::text::{joined, text_eq};
use crate::display::{listed, listed_devices};

verus! {

/// How a banner reports its outcome.
#[derive(Clone, Copy, PartialEq, Eq, Structural, Debug)]
pub enum BannerType {
    Success,
    Failure,
    Status,
}

/// A transient status message and its kind.
pub struct Banner(pub String, pub BannerType);

impl Clone for Banner {
    fn clone(&self) -> (r: Self)
        ensures
            r == *self,
    {
        Banner(self.0.clone(), self.1)
    }
}

/// What the event loop hands the manager.
pub enum AppEvent {
    Pass,
    Exit,
    Esc,
    ScrollDown,
    ScrollUp,
    DeviceAdded(BTDevice),
    DeviceRemoved(BTDevice),
    DeviceModified(BTDevice),
    BannerExpired(String),
    ConnectRequested,
    PairRequested,
    DisconnectRequested,
    RemoveRequested,
    ShowHideUnnamed,
    InspectCurrent,
}

/// What the manager is doing: browsing the table, inspecting one device, or
/// about to act on one device.
pub enum AppMode {
    Browse,
    Inspect(BTDevice),
    TryConnect(BTDevice),
    TryPair(BTDevice),
    TryDisconnect(BTDevice),
    TryRemove(BTDevice),
}

impl Clone for AppMode {
    fn clone(&self) -> (r: Self)
        ensures
            r == *self,
    {
        match self {
            AppMode::Browse => AppMode::Browse,
            AppMode::Inspect(d) => AppMode::Inspect(d.clone()),
            AppMode::TryConnect(d) => AppMode::TryConnect(d.clone()),
            AppMode::TryPair(d) => AppMode::TryPair(d.clone()),
            AppMode::TryDisconnect(d) => AppMode::TryDisconnect(d.clone()),
            AppMode::TryRemove(d) => AppMode::TryRemove(d.clone()),
        }
    }
}

/// An action on one device that the Bluetooth stack carries out.
#[derive(Clone, Copy, PartialEq, Eq, Structural, Debug)]
pub enum Operation {
    Connect,
    Pair,
    Disconnect,
    Remove,
}

/// What the event loop does after an event.
pub enum Flow {
    /// Leave the loop.
    Quit,
    /// Redraw the screen.
    Draw,
    /// Wait for the next event without redrawing.
    Hold,
    /// Carry out the operation on the device, hand the outcome to
    /// `BTUIApp::complete`, then redraw.
    Perform(Operation, BTDevice),
    /// Read the device's details, hand their text to `BTUIApp::set_inspect_text`,
    /// then redraw.
    Inspect(BTDevice),
}

/// A banner timer to start: after `seconds`, the loop sends
/// `AppEvent::BannerExpired(message)`.
pub struct Expiry {
    pub message: String,
    pub seconds: u64,
}

/// The manager's answer to one event.
pub struct Step {
    pub flow: Flow,
    pub expiry: Option<Expiry>,
    /// Send `AppEvent::Pass` so that the new mode is acted on at once.
    pub nudge: bool,
}

/// The manager's state.
pub struct BTUIApp {
    /// The known devices, in descending order of (rank, name).
    pub devices: Vec<BTDevice>,
    pub mode: AppMode,
    pub banner: Option<Banner>,
    /// The highlighted table row; row 0 is the header, so row `i` shows
    /// device `i - 1`.
    pub selected: Option<usize>,
    pub show_unnamed: bool,
    /// The lines shown while inspecting a device.
    pub inspect_text: Option<Vec<String>>,
}

/// The operation a mode is about to carry out, and on which device.
pub open spec fn attempt_of(m: AppMode) -> Option<(Operation, BTDevice)> {
    match m {
        AppMode::TryConnect(d) => Some((Operation::Connect, d)),
        AppMode::TryPair(d) => Some((Operation::Pair, d)),
        AppMode::TryDisconnect(d) => Some((Operation::Disconnect, d)),
        AppMode::TryRemove(d) => Some((Operation::Remove, d)),
        _ => None,
    }
}

/// The mode that carries out `op` on `d`.
pub open spec fn attempt_mode(op: Operation, d: BTDevice) -> AppMode {
    match op {
        Operation::Connect => AppMode::TryConnect(d),
        Operation::Pair => AppMode::TryPair(d),
        Operation::Disconnect => AppMode::TryDisconnect(d),
        Operation::Remove => AppMode::TryRemove(d),
    }
}

/// The operation is pointless on the device as last seen: it is already
/// connected, already paired, not connected, or not paired.
pub open spec fn needless(op: Operation, d: BTDevice) -> bool {
    match op {
        Operation::Connect => d.connected,
        Operation::Pair => d.paired,
        Operation::Disconnect => !d.connected,
        Operation::Remove => !d.paired,
    }
}

/// The status message for a needless operation.
pub open spec fn needless_text(op: Operation, name: Seq<char>) -> Seq<char> {
    match op {
        Operation::Connect => name + " already connected"@,
        Operation::Pair => name + " already paired"@,
        Operation::Disconnect => name + " is not connected"@,
        Operation::Remove => name + " is not paired"@,
    }
}

/// The message for an operation that succeeded.
pub open spec fn success_text(op: Operation, name: Seq<char>) -> Seq<char> {
    match op {
        Operation::Connect => "Successfully connected to "@ + name,
        Operation::Pair => "Successfully paired with "@ + name,
        Operation::Disconnect => "Successfully disconnected from "@ + name,
        Operation::Remove => "Successfully removed device "@ + name,
    }
}

/// The message for an operation that failed with the error text `err`.
pub open spec fn failure_text(op: Operation, name: Seq<char>, err: Seq<char>) -> Seq<char> {
    match op {
        Operation::Connect => "Failed to connect to "@ + name + ": "@ + err,
        Operation::Pair => "Failed to pair with "@ + name + ": "@ + err,
        Operation::Disconnect => "Failed to disconnect from "@ + name + ": "@ + err,
        Operation::Remove => "Failed to remove device "@ + name + ": "@ + err,
    }
}

/// How long a banner of this kind stays up, in seconds.
pub open spec fn banner_seconds(t: BannerType) -> u64 {
    match t {
        BannerType::Failure => 4,
        _ => 3,
    }
}

/// The device shown on table row `sel`, if that row shows one. The table
/// lists only the devices that `listed` admits, so row `i` shows the
/// `i`-th of those. A row past the listed devices shows none, and a request
/// made there is ignored (the table clamps its highlight when it is drawn).
pub open spec fn row_device(devices: Seq<BTDevice>, show_unnamed: bool, sel: Option<usize>) -> Option<BTDevice> {
    let rows = devices.filter(|d: BTDevice| listed(d, show_unnamed));
    match sel {
        Some(i) => if 1 <= i <= rows.len() {
            Some(rows[i - 1])
        } else {
            None
        },
        None => None,
    }
}

/// The device list after an event while browsing.
pub open spec fn browse_devices(s: Seq<BTDevice>, e: AppEvent) -> Seq<BTDevice> {
    match e {
        AppEvent::DeviceAdded(d) => sort_desc(add_new(s, d)),
        AppEvent::DeviceRemoved(d) => without_address(s, d.address@),
        AppEvent::DeviceModified(d) => sort_desc(replace_address(s, d)),
        _ => s,
    }
}

/// The highlighted row after an event while browsing: up leaves the table
/// from its first device row, down enters it at the first device row when
/// there is a device.
pub open spec fn browse_selected(sel: Option<usize>, len: nat, e: AppEvent) -> Option<usize> {
    match e {
        AppEvent::ScrollUp => match sel {
            Some(i) => if i <= 1 {
                None
            } else {
                Some((i - 1) as usize)
            },
            None => None,
        },
        AppEvent::ScrollDown => match sel {
            Some(i) => if i < usize::MAX {
                Some((i + 1) as usize)
            } else {
                sel
            },
            None => if len != 0 {
                Some(1usize)
            } else {
                None
            },
        },
        _ => sel,
    }
}

/// The mode after an event while browsing: a request on the highlighted
/// device enters the matching mode; with no device highlighted it is ignored.
pub open spec fn browse_mode(
    devices: Seq<BTDevice>,
    show_unnamed: bool,
    sel: Option<usize>,
    e: AppEvent,
) -> AppMode {
    match row_device(devices, show_unnamed, sel) {
        Some(d) => match e {
            AppEvent::ConnectRequested => AppMode::TryConnect(d),
            AppEvent::PairRequested => AppMode::TryPair(d),
            AppEvent::DisconnectRequested => AppMode::TryDisconnect(d),
            AppEvent::RemoveRequested => AppMode::TryRemove(d),
            AppEvent::InspectCurrent => AppMode::Inspect(d),
            _ => AppMode::Browse,
        },
        None => AppMode::Browse,
    }
}

/// The banner after an event, before the mode is acted on: an expiry notice
/// takes down the banner whose message it names.
pub open spec fn banner_after(b: Option<Banner>, e: AppEvent) -> Option<Banner> {
    match e {
        AppEvent::BannerExpired(msg) => match b {
            Some(x) => if x.0@ == msg@ {
                None
            } else {
                b
            },
            None => b,
        },
        _ => b,
    }
}

/// The mode after an event, before the mode is acted on: escape returns to
/// browsing.
pub open spec fn mode_after(m: AppMode, e: AppEvent) -> AppMode {
    if e is Esc {
        AppMode::Browse
    } else {
        m
    }
}

/// A well-formed device list: no two devices share an address, and the
/// list is in descending order of (rank, name).
pub open spec fn list_wf(s: Seq<BTDevice>) -> bool {
    addresses_unique(s) && sorted_desc(s)
}

/// Every event the manager browses keeps the device list well formed: an
/// added device enters only under a new address, a modified one keeps its
/// address, and the list is re-sorted after either.
pub proof fn lemma_browse_keeps_list_wf(s: Seq<BTDevice>, e: AppEvent)
    requires
        list_wf(s),
    ensures
        list_wf(browse_devices(s, e)),
{
    match e {
        AppEvent::DeviceAdded(d) => {
            lemma_add_new_unique(s, d);
            lemma_sort_desc(add_new(s, d));
            lemma_sort_desc_unique(add_new(s, d));
        },
        AppEvent::DeviceRemoved(d) => {
            lemma_without_address_unique(s, d.address@);
            lemma_without_address_sorted(s, d.address@);
        },
        AppEvent::DeviceModified(d) => {
            lemma_replace_address_unique(s, d);
            lemma_sort_desc(replace_address(s, d));
            lemma_sort_desc_unique(replace_address(s, d));
        },
        _ => {},
    }
}

fn banner_duration(t: BannerType) -> (r: u64)
    ensures
        r == banner_seconds(t),
{
    match t {
        BannerType::Failure => 4,
        _ => 3,
    }
}

pub(crate) fn needless_message(op: Operation, name: &str) -> (r: String)
    ensures
        r@ == needless_text(op, name@),
{
    match op {
        Operation::Connect => joined(name, " already connected"),
        Operation::Pair => joined(name, " already paired"),
        Operation::Disconnect => joined(name, " is not connected"),
        Operation::Remove => joined(name, " is not paired"),
    }
}

pub(crate) fn success_message(op: Operation, name: &str) -> (r: String)
    ensures
        r@ == success_text(op, name@),
{
    match op {
        Operation::Connect => joined("Successfully connected to ", name),
        Operation::Pair => joined("Successfully paired with ", name),
        Operation::Disconnect => joined("Successfully disconnected from ", name),
        Operation::Remove => joined("Successfully removed device ", name),
    }
}

pub(crate) fn failure_message(op: Operation, name: &str, err: &str) -> (r: String)
    ensures
        r@ == failure_text(op, name@, err@),
{
    let head = match op {
        Operation::Connect => joined("Failed to connect to ", name),
        Operation::Pair => joined("Failed to pair with ", name),
        Operation::Disconnect => joined("Failed to disconnect from ", name),
        Operation::Remove => joined("Failed to remove device ", name),
    };
    let mut s = head;
    s.append(": ");
    s.append(err);
    s
}

pub(crate) fn is_needless(op: Operation, d: &BTDevice) -> (r: bool)
    ensures
        r == needless(op, *d),
{
    match op {
        Operation::Connect => d.connected,
        Operation::Pair => d.paired,
        Operation::Disconnect => !d.connected,
        Operation::Remove => !d.paired,
    }
}

impl BTUIApp {
    /// A manager with no devices, browsing, with no banner and no row
    /// highlighted.
    pub fn new() -> (r: Self)
        ensures
            r.devices@.len() == 0,
            list_wf(r.devices@),
            r.mode is Browse,
            r.banner is None,
            r.selected is None,
            !r.show_unnamed,
            r.inspect_text is None,
    {
        BTUIApp {
            devices: Vec::new(),
            mode: AppMode::Browse,
            banner: None,
            selected: None,
            show_unnamed: false,
            inspect_text: None,
        }
    }

    /// The device on the highlighted row, if there is one.
    pub fn selected_device(&self) -> (r: Option<BTDevice>)
        ensures
            r == row_device(self.devices@, self.show_unnamed, self.selected),
    {
        let rows = listed_devices(&self.devices, self.show_unnamed);
        match self.selected {
            Some(i) => if 1 <= i && i <= rows.len() {
                Some(rows[i - 1].clone())
            } else {
                None
            },
            None => None,
        }
    }

    /// Puts up a banner and returns the timer that takes it down again.
    pub fn set_new_banner(&mut self, b: Banner) -> (r: Expiry)
        ensures
            final(self).banner == Some(b),
            r.message@ == b.0@,
            r.seconds == banner_seconds(b.1),
            final(self).devices == old(self).devices,
            final(self).mode == old(self).mode,
            final(self).selected == old(self).selected,
            final(self).show_unnamed == old(self).show_unnamed,
            final(self).inspect_text == old(self).inspect_text,
    {
        let r = Expiry { message: b.0.clone(), seconds: banner_duration(b.1) };
        self.banner = Some(b);
        r
    }

    /// Sets the text shown while inspecting a device.
    pub fn set_inspect_text(&mut self, lines: Vec<String>)
        ensures
            final(self).inspect_text == Some(lines),
            final(self).devices == old(self).devices,
            final(self).mode == old(self).mode,
            final(self).banner == old(self).banner,
            final(self).selected == old(self).selected,
            final(self).show_unnamed == old(self).show_unnamed,
    {
        self.inspect_text = Some(lines);
    }

    /// Acts on one event. `Exit` ends the loop and changes nothing. Any other
    /// event first applies what holds in every mode (escape returns to
    /// browsing and drops the inspect text; an expiry notice takes down the
    /// banner it names), then is acted on by the mode: browsing applies it to
    /// the list, the selection and the mode (a request acts on the device of
    /// the highlighted listed row, and is ignored where that row shows no
    /// device); inspecting asks for the device's
    /// details; an operation mode asks for the operation, or, where it is
    /// needless, puts up a status banner and returns to browsing.
    pub fn handle_event(&mut self, e: AppEvent) -> (r: Step)
        ensures
            list_wf(old(self).devices@) ==> list_wf(final(self).devices@),
            e is Exit ==> r.flow is Quit && r.expiry is None && !r.nudge && *final(self) == *old(
                self,
            ),
            !(e is Exit) ==> final(self).show_unnamed == (old(self).show_unnamed != (
            e is ShowHideUnnamed && mode_after(old(self).mode, e) is Browse)),
            !(e is Exit) && mode_after(old(self).mode, e) is Browse ==> {
                &&& final(self).devices@ == browse_devices(old(self).devices@, e)
                &&& final(self).selected == browse_selected(
                    old(self).selected,
                    old(self).devices@.len(),
                    e,
                )
                &&& final(self).mode == browse_mode(old(self).devices@, old(self).show_unnamed, old(self).selected, e)
                &&& final(self).banner == banner_after(old(self).banner, e)
                &&& final(self).inspect_text == (if e is Esc {
                    None
                } else {
                    old(self).inspect_text
                })
                &&& r.flow is Draw
                &&& r.expiry is None
                &&& r.nudge == (e is InspectCurrent && row_device(
                    old(self).devices@,
                    old(self).show_unnamed,
                    old(self).selected,
                ) is Some)
            },
            !(e is Exit) && !(mode_after(old(self).mode, e) is Browse) ==> {
                &&& final(self).devices == old(self).devices
                &&& final(self).selected == old(self).selected
                &&& final(self).inspect_text == old(self).inspect_text
                &&& !r.nudge
            },
            old(self).mode matches AppMode::Inspect(d) ==> !(e is Exit) && !(e is Esc) ==> {
                &&& final(self).mode == old(self).mode
                &&& final(self).banner == banner_after(old(self).banner, e)
                &&& r.flow == Flow::Inspect(d)
                &&& r.expiry is None
            },
            attempt_of(old(self).mode) matches Some((op, d)) ==> !(e is Exit) && !(e is Esc) ==> {
                if needless(op, d) {
                    &&& final(self).mode is Browse
                    &&& final(self).banner matches Some(b) && b.0@ == needless_text(op, d.name@)
                        && b.1 == BannerType::Status
                    &&& r.flow is Hold
                    &&& r.expiry matches Some(x) && x.message@ == needless_text(op, d.name@)
                        && x.seconds == banner_seconds(BannerType::Status)
                } else {
                    &&& final(self).mode == old(self).mode
                    &&& final(self).banner == banner_after(old(self).banner, e)
                    &&& r.flow == Flow::Perform(op, d)
                    &&& r.expiry is None
                }
            },
    {
        if let AppEvent::Exit = e {
            return Step { flow: Flow::Quit, expiry: None, nudge: false };
        }
        match &e {
            AppEvent::Esc => {
                self.mode = AppMode::Browse;
                self.inspect_text = None;
            },
            AppEvent::BannerExpired(msg) => {
                let clear = match &self.banner {
                    Some(b) => text_eq(b.0.as_str(), msg.as_str()),
                    None => false,
                };
                if clear {
                    self.banner = None;
                }
            },
            _ => {},
        }
        let mode = self.mode.clone();
        match mode {
            AppMode::Browse => {
                proof {
                    if list_wf(self.devices@) {
                        lemma_browse_keeps_list_wf(self.devices@, e);
                    }
                }
                let nudge = self.browse(e);
                Step { flow: Flow::Draw, expiry: None, nudge }
            },
            AppMode::Inspect(d) => Step { flow: Flow::Inspect(d), expiry: None, nudge: false },
            AppMode::TryConnect(d) => self.attempt(Operation::Connect, d),
            AppMode::TryPair(d) => self.attempt(Operation::Pair, d),
            AppMode::TryDisconnect(d) => self.attempt(Operation::Disconnect, d),
            AppMode::TryRemove(d) => self.attempt(Operation::Remove, d),
        }
    }

    fn attempt(&mut self, op: Operation, d: BTDevice) -> (r: Step)
        ensures
            final(self).devices == old(self).devices,
            final(self).selected == old(self).selected,
            final(self).show_unnamed == old(self).show_unnamed,
            final(self).inspect_text == old(self).inspect_text,
            !r.nudge,
            needless(op, d) ==> {
                &&& final(self).mode is Browse
                &&& final(self).banner matches Some(b) && b.0@ == needless_text(op, d.name@) && b.1
                    == BannerType::Status
                &&& r.flow is Hold
                &&& r.expiry matches Some(x) && x.message@ == needless_text(op, d.name@)
                    && x.seconds == banner_seconds(BannerType::Status)
            },
            !needless(op, d) ==> {
                &&& final(self).mode == old(self).mode
                &&& final(self).banner == old(self).banner
                &&& r.flow == Flow::Perform(op, d)
                &&& r.expiry is None
            },
    {
        if is_needless(op, &d) {
            let msg = needless_message(op, d.name.as_str());
            let x = self.set_new_banner(Banner(msg, BannerType::Status));
            self.mode = AppMode::Browse;
            Step { flow: Flow::Hold, expiry: Some(x), nudge: false }
        } else {
            Step { flow: Flow::Perform(op, d), expiry: None, nudge: false }
        }
    }

    /// Records the outcome of an operation on a device: a success banner, or
    /// a failure banner that carries the error text; either way the manager
    /// returns to browsing. Returns the timer that takes the banner down.
    pub fn complete(&mut self, op: Operation, d: &BTDevice, outcome: Result<(), String>) -> (r: Expiry)
        ensures
            final(self).mode is Browse,
            final(self).banner matches Some(b) && r.message@ == b.0@ && r.seconds
                == banner_seconds(b.1) && match outcome {
                Ok(_) => b.0@ == success_text(op, d.name@) && b.1 == BannerType::Success,
                Err(err) => b.0@ == failure_text(op, d.name@, err@) && b.1 == BannerType::Failure,
            },
            final(self).devices == old(self).devices,
            final(self).selected == old(self).selected,
            final(self).show_unnamed == old(self).show_unnamed,
            final(self).inspect_text == old(self).inspect_text,
    {
        let b = match outcome {
            Ok(_) => Banner(success_message(op, d.name.as_str()), BannerType::Success),
            Err(err) => Banner(failure_message(op, d.name.as_str(), err.as_str()), BannerType::Failure),
        };
        let x = self.set_new_banner(b);
        self.mode = AppMode::Browse;
        x
    }

    fn browse(&mut self, e: AppEvent) -> (nudge: bool)
        requires
            old(self).mode is Browse,
        ensures
            final(self).devices@ == browse_devices(old(self).devices@, e),
            final(self).selected == browse_selected(
                old(self).selected,
                old(self).devices@.len(),
                e,
            ),
            final(self).show_unnamed == (old(self).show_unnamed != (e is ShowHideUnnamed)),
            final(self).mode == browse_mode(old(self).devices@, old(self).show_unnamed, old(self).selected, e),
            final(self).banner == old(self).banner,
            final(self).inspect_text == old(self).inspect_text,
            nudge == (e is InspectCurrent && row_device(
                old(self).devices@,
                old(self).show_unnamed,
                old(self).selected,
            ) is Some),
    {
        let current = self.selected_device();
        match e {
            AppEvent::ScrollUp => {
                match self.selected {
                    Some(i) => {
                        if i <= 1 {
                            self.selected = None;
                        } else {
                            self.selected = Some(i - 1);
                        }
                    },
                    None => {},
                }
                false
            },
            AppEvent::ScrollDown => {
                match self.selected {
                    Some(i) => {
                        if i < usize::MAX {
                            self.selected = Some(i + 1);
                        }
                    },
                    None => {
                        if self.devices.len() != 0 {
                            self.selected = Some(1);
                        }
                    },
                }
                false
            },
            AppEvent::DeviceAdded(d) => {
                if !contains_address(&self.devices, d.address.as_str()) {
                    self.devices.push(d);
                }
                self.devices = sort_devices(&self.devices);
                false
            },
            AppEvent::DeviceRemoved(d) => {
                self.devices = remove_address(&self.devices, d.address.as_str());
                false
            },
            AppEvent::DeviceModified(d) => {
                let replaced = replace_device(&self.devices, &d);
                self.devices = sort_devices(&replaced);
                false
            },
            AppEvent::ConnectRequested => {
                if let Some(d) = current {
                    self.mode = AppMode::TryConnect(d);
                }
                false
            },
            AppEvent::PairRequested => {
                if let Some(d) = current {
                    self.mode = AppMode::TryPair(d);
                }
                false
            },
            AppEvent::DisconnectRequested => {
                if let Some(d) = current {
                    self.mode = AppMode::TryDisconnect(d);
                }
                false
            },
            AppEvent::RemoveRequested => {
                if let Some(d) = current {
                    self.mode = AppMode::TryRemove(d);
                }
                false
            },
            AppEvent::ShowHideUnnamed => {
                self.show_unnamed = !self.show_unnamed;
                false
            },
            AppEvent::InspectCurrent => {
                if let Some(d) = current {
                    self.mode = AppMode::Inspect(d);
                    true
                } else {
                    false
                }
            },
            _ => false,
        }
    }
}

} // verus!
