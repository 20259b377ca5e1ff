//! SSDP discovery: the search request, reading the answers, and the
//! decisions of a scan.
//!
//! A scan tries multicast first. It falls back to broadcast when multicast
//! fails or when its time window closes without any device. Devices of both
//! strategies are collected into one list with at most one record for each
//! address. The scan fails only when both strategies failed.
//!
//! Within a strategy the socket is polled until the time window closes. A
//! read that finds nothing, or times out, is no error: it ends the polling
//! for the moment. Any other read error fails the strategy.

use crate::decimal::{decimal, decimal_text};
use crate::descriptor::{device_from, resolve};
use crate::device::{opt_view, CastError, DeviceModel, ProjectorInfo};
use crate::text::{
    chars_of, eq_ignoring_ascii_case, find_char, index_from, same_ignoring_ascii_case, slice_of,
    string_of, trim, trimmed,
};
use vstd::prelude::*;
use vstd::utf8::{decode_utf8, valid_utf8};

verus! {

/// The search request up to the number of seconds.
pub const MSEARCH_HEAD: &'static str =
    "M-SEARCH * HTTP/1.1\r\nHOST: 239.255.255.250:1900\r\nMAN: \"ssdp:discover\"\r\nMX: ";

/// The search request after the number of seconds.
pub const MSEARCH_TAIL: &'static str = "\r\nST: upnp:rootdevice\r\n\r\n";

/// Name of the header that carries a device's description URL.
pub const LOCATION_HEADER: &'static str = "location";

/// The search request that gives devices `timeout_secs` seconds to answer.
pub open spec fn msearch_text(timeout_secs: nat) -> Seq<char> {
    MSEARCH_HEAD@ + decimal_text(timeout_secs) + MSEARCH_TAIL@
}

/// The search request that gives devices `timeout_secs` seconds to answer.
pub fn msearch_request(timeout_secs: u64) -> (request: String)
    ensures
        request@ == msearch_text(timeout_secs as nat),
{
    let secs = string_of(&decimal(timeout_secs));
    let mut request = String::new();
    request.append(MSEARCH_HEAD);
    request.append(secs.as_str());
    request.append(MSEARCH_TAIL);
    assert(request@ =~= msearch_text(timeout_secs as nat));
    request
}

/// The value of the header `name` that `line` holds: the line is split at
/// its first colon, so colons in the value stay; the name is compared
/// without regard to case; white space around name and value is dropped.
pub open spec fn header_value(line: Seq<char>, name: Seq<char>) -> Option<Seq<char>> {
    let colon = index_from(line, ':', 0);
    if colon < line.len() && eq_ignoring_ascii_case(trimmed(line.subrange(0, colon)), name) {
        Some(trimmed(line.subrange(colon + 1, line.len() as int)))
    } else {
        None
    }
}

/// The value of the first `LOCATION` header among the lines of `text` that
/// start at or after position `from`.
pub open spec fn location_from(text: Seq<char>, from: int) -> Option<Seq<char>>
    decreases text.len() - from,
{
    if from < 0 || from > text.len() {
        None
    } else {
        let end = index_from(text, '\n', from);
        match header_value(text.subrange(from, end), LOCATION_HEADER@) {
            Some(v) => Some(v),
            None => if from <= end < text.len() {
                location_from(text, end + 1)
            } else {
                None
            },
        }
    }
}

/// The description URL that the answer `text` advertises: the value of its
/// first `LOCATION` header.
pub open spec fn location_in(text: Seq<char>) -> Option<Seq<char>> {
    location_from(text, 0)
}

/// The value of the header `name` that `line` holds.
pub fn header_value_of(line: &Vec<char>, name: &str) -> (value: Option<Vec<char>>)
    ensures
        match value {
            Some(v) => header_value(line@, name@) == Some(v@),
            None => header_value(line@, name@) is None,
        },
{
    let colon = find_char(line, ':', 0);
    if colon >= line.len() {
        return None;
    }
    let given = trim(&slice_of(line, 0, colon));
    let wanted = chars_of(name);
    if same_ignoring_ascii_case(&given, &wanted) {
        Some(trim(&slice_of(line, colon + 1, line.len())))
    } else {
        None
    }
}

/// The description URL that the answer `response` advertises, if it
/// advertises one.
pub fn extract_location(response: &str) -> (location: Option<String>)
    ensures
        match location {
            Some(l) => location_in(response@) == Some(l@),
            None => location_in(response@) is None,
        },
{
    let v = chars_of(response);
    let mut from: usize = 0;
    loop
        invariant
            from <= v.len(),
            v@ == response@,
            location_in(response@) == location_from(v@, from as int),
        decreases v.len() - from,
    {
        let end = find_char(&v, '\n', from);
        let line = slice_of(&v, from, end);
        match header_value_of(&line, LOCATION_HEADER) {
            Some(value) => {
                return Some(string_of(&value));
            },
            None => {},
        }
        if end >= v.len() {
            return None;
        }
        from = end + 1;
    }
}

/// Decodes `bytes` as UTF-8.
///
/// Trusted: `String::from_utf8`. It is taken to succeed exactly on valid
/// UTF-8 and then to give the characters that the bytes encode.
#[verifier::external_body]
pub(crate) fn utf8_text(bytes: Vec<u8>) -> (text: Option<String>)
    ensures
        match text {
            Some(t) => valid_utf8(bytes@) && t@ == decode_utf8(bytes@),
            None => !valid_utf8(bytes@),
        },
{
    match String::from_utf8(bytes) {
        Ok(t) => Some(t),
        Err(_) => None,
    }
}

/// The description URL that a datagram advertises: none when the datagram
/// is not valid UTF-8 or holds no `LOCATION` header.
pub open spec fn location_of(datagram: Seq<u8>) -> Option<Seq<char>> {
    if valid_utf8(datagram) {
        location_in(decode_utf8(datagram))
    } else {
        None
    }
}

/// The description URL that the received `datagram` advertises. A datagram
/// that gives none is to be skipped.
pub fn location_of_datagram(datagram: Vec<u8>) -> (location: Option<String>)
    ensures
        match location {
            Some(l) => location_of(datagram@) == Some(l@),
            None => location_of(datagram@) is None,
        },
{
    match utf8_text(datagram) {
        Some(text) => extract_location(text.as_str()),
        None => None,
    }
}

/// Whether one of `devices` has the address `ip`.
pub open spec fn knows_ip(devices: Seq<DeviceModel>, ip: Seq<char>) -> bool {
    exists|i: int| 0 <= i < devices.len() && (#[trigger] devices[i]).ip == ip
}

/// Whether no two of `devices` share an address.
pub open spec fn distinct_ips(devices: Seq<DeviceModel>) -> bool {
    forall|i: int, j: int|
        0 <= i < j < devices.len() ==> (#[trigger] devices[i]).ip != (#[trigger] devices[j]).ip
}

/// `devices` with `device` at the end, unless its address is known already.
pub open spec fn with_device(devices: Seq<DeviceModel>, device: DeviceModel) -> Seq<DeviceModel> {
    if knows_ip(devices, device.ip) {
        devices
    } else {
        devices.push(device)
    }
}

/// The models of a list of records.
pub open spec fn models(devices: Seq<ProjectorInfo>) -> Seq<DeviceModel> {
    devices.map_values(|d: ProjectorInfo| d@)
}

/// Adding a device keeps addresses distinct.
pub proof fn lemma_with_device_distinct(devices: Seq<DeviceModel>, device: DeviceModel)
    requires
        distinct_ips(devices),
    ensures
        distinct_ips(with_device(devices, device)),
{
    if !knows_ip(devices, device.ip) {
        let out = devices.push(device);
        assert forall|i: int, j: int| 0 <= i < j < out.len() implies (#[trigger] out[i]).ip != (
        #[trigger] out[j]).ip by {
            if j == devices.len() {
                assert(devices[i].ip != device.ip);
            } else {
                assert(out[i] == devices[i] && out[j] == devices[j]);
            }
        }
    }
}

/// Appends `device` to `devices` unless a record with its address is there
/// already; says whether it was appended.
pub fn add_device(devices: &mut Vec<ProjectorInfo>, device: ProjectorInfo) -> (added: bool)
    ensures
        models(final(devices)@) == with_device(models(old(devices)@), device@),
        added == !knows_ip(models(old(devices)@), device@.ip),
{
    let ghost before = models(devices@);
    let mut i: usize = 0;
    while i < devices.len()
        invariant
            i <= devices.len(),
            *devices == *old(devices),
            before == models(devices@),
            forall|j: int| 0 <= j < i ==> (#[trigger] before[j]).ip != device@.ip,
        decreases devices.len() - i,
    {
        if devices[i].ip == device.ip {
            assert(before[i as int].ip == device@.ip);
            return false;
        }
        i += 1;
    }
    devices.push(device);
    assert(models(devices@) =~= before.push(device@));
    true
}

/// Which strategy a scan is in.
#[derive(Debug, Clone, Copy, PartialEq, Eq, Structural)]
pub enum ScanPhase {
    /// Searching by multicast.
    Multicast,
    /// Searching by broadcast.
    Broadcast,
    /// No strategy is left to try.
    Finished,
}

/// What happened during a scan.
#[derive(Debug)]
pub enum ScanEvent {
    /// The description at `location` was fetched, or, with no `body`, the
    /// fetch failed or timed out.
    Description { location: String, body: Option<String> },
    /// The time window of the current strategy closed.
    Elapsed,
    /// The current strategy failed: its socket could not be set up, the
    /// search could not be sent, or receiving broke.
    Failed,
}

/// Mathematical model of a `ScanEvent`.
pub ghost enum EventModel {
    Description { location: Seq<char>, body: Option<Seq<char>> },
    Elapsed,
    Failed,
}

impl View for ScanEvent {
    type V = EventModel;

    open spec fn view(&self) -> EventModel {
        match *self {
            ScanEvent::Description { location, body } => EventModel::Description {
                location: location@,
                body: opt_view(body),
            },
            ScanEvent::Elapsed => EventModel::Elapsed,
            ScanEvent::Failed => EventModel::Failed,
        }
    }
}

/// What one read of the search socket gave.
#[derive(Debug, Clone, Copy, PartialEq, Eq, Structural)]
pub enum ReadOutcome {
    /// A datagram arrived.
    Datagram,
    /// Nothing is there to read at the moment.
    WouldBlock,
    /// The read timed out.
    TimedOut,
    /// The read failed in any other way.
    Broken,
}

/// What the caller of a scan is to do next.
#[derive(Debug, Clone, Copy, PartialEq, Eq, Structural)]
pub enum ScanAction {
    /// Go on receiving answers.
    Listen,
    /// Pause for a moment, then go on receiving answers.
    Wait,
    /// Send the search by broadcast, then receive answers.
    Broadcast,
    /// Stop: the scan has its result.
    Done,
}

/// Mathematical model of a `Scan`.
pub ghost struct ScanModel {
    pub phase: ScanPhase,
    pub multicast_failed: bool,
    pub broadcast_failed: bool,
    pub devices: Seq<DeviceModel>,
}

/// The devices known after the description at `location` came back as
/// `body`: a failed fetch drops the candidate.
pub open spec fn devices_after(
    devices: Seq<DeviceModel>,
    location: Seq<char>,
    body: Option<Seq<char>>,
) -> Seq<DeviceModel> {
    match body {
        Some(xml) => with_device(devices, device_from(location, xml)),
        None => devices,
    }
}

/// The state of a scan after `event`.
pub open spec fn next_state(s: ScanModel, event: EventModel) -> ScanModel {
    match s.phase {
        ScanPhase::Finished => s,
        ScanPhase::Multicast => match event {
            EventModel::Description { location, body } => ScanModel {
                devices: devices_after(s.devices, location, body),
                ..s
            },
            EventModel::Elapsed => ScanModel {
                phase: if s.devices.len() == 0 {
                    ScanPhase::Broadcast
                } else {
                    ScanPhase::Finished
                },
                ..s
            },
            EventModel::Failed => ScanModel {
                phase: ScanPhase::Broadcast,
                multicast_failed: true,
                ..s
            },
        },
        ScanPhase::Broadcast => match event {
            EventModel::Description { location, body } => ScanModel {
                devices: devices_after(s.devices, location, body),
                ..s
            },
            EventModel::Elapsed => ScanModel { phase: ScanPhase::Finished, ..s },
            EventModel::Failed => ScanModel {
                phase: ScanPhase::Finished,
                broadcast_failed: true,
                ..s
            },
        },
    }
}

/// What to do once a scan in phase `before` has reached phase `after`.
pub open spec fn action_for(before: ScanPhase, after: ScanPhase) -> ScanAction {
    match after {
        ScanPhase::Finished => ScanAction::Done,
        ScanPhase::Broadcast => if before == ScanPhase::Broadcast {
            ScanAction::Listen
        } else {
            ScanAction::Broadcast
        },
        ScanPhase::Multicast => ScanAction::Listen,
    }
}

/// What a read amounts to for the scan: a broken read fails the strategy;
/// any other read closes it once its time window has closed; while the
/// window is open, nothing happens to the scan.
pub open spec fn read_event(outcome: ReadOutcome, window_open: bool) -> Option<EventModel> {
    match outcome {
        ReadOutcome::Broken => Some(EventModel::Failed),
        _ => if window_open {
            None
        } else {
            Some(EventModel::Elapsed)
        },
    }
}

/// The state of a scan after a read.
pub open spec fn state_after_read(s: ScanModel, outcome: ReadOutcome, window_open: bool)
    -> ScanModel {
    match read_event(outcome, window_open) {
        Some(event) => next_state(s, event),
        None => s,
    }
}

/// What to do after a read: when it ended the strategy, what the scan
/// asks for then; else read again after a datagram, and pause first when
/// there was nothing to read.
pub open spec fn action_after_read(s: ScanModel, outcome: ReadOutcome, window_open: bool)
    -> ScanAction {
    if s.phase == ScanPhase::Finished {
        ScanAction::Done
    } else {
        match read_event(outcome, window_open) {
            Some(event) => action_for(s.phase, next_state(s, event).phase),
            None => if outcome == ReadOutcome::Datagram {
                ScanAction::Listen
            } else {
                ScanAction::Wait
            },
        }
    }
}

/// A read never loses a device, and a read that found nothing or timed out
/// never fails a strategy.
pub proof fn lemma_read_keeps_devices(s: ScanModel, outcome: ReadOutcome, window_open: bool)
    ensures
        state_after_read(s, outcome, window_open).devices == s.devices,
        outcome != ReadOutcome::Broken ==> state_after_read(s, outcome, window_open).multicast_failed
            == s.multicast_failed && state_after_read(s, outcome, window_open).broadcast_failed
            == s.broadcast_failed,
{
}

/// The state in which every scan starts.
pub open spec fn initial_state() -> ScanModel {
    ScanModel {
        phase: ScanPhase::Multicast,
        multicast_failed: false,
        broadcast_failed: false,
        devices: Seq::empty(),
    }
}

/// What a scan in state `s` has to show: the devices, or the error when
/// both strategies failed.
pub open spec fn result_of(s: ScanModel) -> Result<Seq<DeviceModel>, CastError> {
    if s.multicast_failed && s.broadcast_failed {
        Err(CastError::Discovery)
    } else {
        Ok(s.devices)
    }
}

/// The state of a scan after the events `events`, in order.
pub open spec fn state_after(s: ScanModel, events: Seq<EventModel>) -> ScanModel
    decreases events.len(),
{
    if events.len() == 0 {
        s
    } else {
        next_state(state_after(s, events.drop_last()), events.last())
    }
}

/// An event keeps the addresses of a scan's devices distinct.
pub proof fn lemma_next_state_distinct(s: ScanModel, event: EventModel)
    requires
        distinct_ips(s.devices),
    ensures
        distinct_ips(next_state(s, event).devices),
{
    match event {
        EventModel::Description { location, body } => {
            match body {
                Some(xml) => {
                    lemma_with_device_distinct(s.devices, device_from(location, xml));
                },
                None => {},
            }
        },
        _ => {},
    }
}

/// Whatever happens during a scan, no two of its devices share an address.
pub proof fn lemma_scan_distinct(events: Seq<EventModel>)
    ensures
        distinct_ips(state_after(initial_state(), events).devices),
    decreases events.len(),
{
    if events.len() > 0 {
        lemma_scan_distinct(events.drop_last());
        lemma_next_state_distinct(state_after(initial_state(), events.drop_last()), events.last());
    }
}

/// `devices` after the description at `location` came back as `body`.
pub fn record(devices: Vec<ProjectorInfo>, location: String, body: Option<String>) -> (out: Vec<
    ProjectorInfo,
>)
    ensures
        models(out@) == devices_after(models(devices@), location@, opt_view(body)),
{
    let mut out = devices;
    match resolve(location.as_str(), body) {
        Ok(info) => {
            add_device(&mut out, info);
        },
        Err(_) => {},
    }
    out
}

/// A discovery session: the strategy in use and the devices found so far.
pub struct Scan {
    phase: ScanPhase,
    multicast_failed: bool,
    broadcast_failed: bool,
    devices: Vec<ProjectorInfo>,
}

impl View for Scan {
    type V = ScanModel;

    closed spec fn view(&self) -> ScanModel {
        ScanModel {
            phase: self.phase,
            multicast_failed: self.multicast_failed,
            broadcast_failed: self.broadcast_failed,
            devices: models(self.devices@),
        }
    }
}

impl Scan {
    #[verifier::type_invariant]
    spec fn distinct(&self) -> bool {
        distinct_ips(models(self.devices@))
    }

    /// A scan that is about to search by multicast.
    pub fn new() -> (scan: Scan)
        ensures
            scan@ == initial_state(),
    {
        let scan = Scan {
            phase: ScanPhase::Multicast,
            multicast_failed: false,
            broadcast_failed: false,
            devices: Vec::new(),
        };
        assert(models(scan.devices@) =~= Seq::<DeviceModel>::empty());
        scan
    }

    /// The strategy in use.
    pub fn phase(&self) -> (phase: ScanPhase)
        ensures
            phase == self@.phase,
    {
        self.phase
    }

    /// Takes in `event`: the scan as it is afterwards, and what to do next.
    pub fn step(self, event: ScanEvent) -> (next: (Scan, ScanAction))
        ensures
            next.0@ == next_state(self@, event@),
            next.1 == action_for(self@.phase, next.0@.phase),
            distinct_ips(next.0@.devices),
    {
        proof {
            use_type_invariant(&self);
            lemma_next_state_distinct(self@, event@);
        }
        let before = self.phase;
        let Scan { phase, multicast_failed, broadcast_failed, devices } = self;
        let after = match before {
            ScanPhase::Finished => Scan { phase, multicast_failed, broadcast_failed, devices },
            ScanPhase::Multicast => match event {
                ScanEvent::Description { location, body } => Scan {
                    phase,
                    multicast_failed,
                    broadcast_failed,
                    devices: record(devices, location, body),
                },
                ScanEvent::Elapsed => Scan {
                    phase: if devices.len() == 0 {
                        ScanPhase::Broadcast
                    } else {
                        ScanPhase::Finished
                    },
                    multicast_failed,
                    broadcast_failed,
                    devices,
                },
                ScanEvent::Failed => Scan {
                    phase: ScanPhase::Broadcast,
                    multicast_failed: true,
                    broadcast_failed,
                    devices,
                },
            },
            ScanPhase::Broadcast => match event {
                ScanEvent::Description { location, body } => Scan {
                    phase,
                    multicast_failed,
                    broadcast_failed,
                    devices: record(devices, location, body),
                },
                ScanEvent::Elapsed => Scan {
                    phase: ScanPhase::Finished,
                    multicast_failed,
                    broadcast_failed,
                    devices,
                },
                ScanEvent::Failed => Scan {
                    phase: ScanPhase::Finished,
                    multicast_failed,
                    broadcast_failed: true,
                    devices,
                },
            },
        };
        let action = match after.phase {
            ScanPhase::Finished => ScanAction::Done,
            ScanPhase::Broadcast => match before {
                ScanPhase::Broadcast => ScanAction::Listen,
                _ => ScanAction::Broadcast,
            },
            ScanPhase::Multicast => ScanAction::Listen,
        };
        (after, action)
    }

    /// Takes in what one read of the search socket gave, `window_open`
    /// telling whether the strategy's time window is still open: the scan
    /// as it is afterwards, and what to do next. A datagram that was read
    /// is to be taken in whatever follows.
    pub fn after_read(self, outcome: ReadOutcome, window_open: bool) -> (next: (Scan, ScanAction))
        ensures
            next.0@ == state_after_read(self@, outcome, window_open),
            next.1 == action_after_read(self@, outcome, window_open),
            distinct_ips(next.0@.devices),
    {
        proof {
            use_type_invariant(&self);
        }
        match self.phase {
            ScanPhase::Finished => {
                return (self, ScanAction::Done);
            },
            _ => {},
        }
        match outcome {
            ReadOutcome::Broken => self.step(ScanEvent::Failed),
            _ => {
                if !window_open {
                    self.step(ScanEvent::Elapsed)
                } else {
                    match outcome {
                        ReadOutcome::Datagram => (self, ScanAction::Listen),
                        _ => (self, ScanAction::Wait),
                    }
                }
            },
        }
    }

    /// The result of the scan: the devices found, no two with the same
    /// address, or the error when both strategies failed.
    pub fn finish(self) -> (found: Result<Vec<ProjectorInfo>, CastError>)
        ensures
            match found {
                Ok(devices) => result_of(self@) == Ok::<_, CastError>(models(devices@))
                    && distinct_ips(models(devices@)),
                Err(e) => result_of(self@) == Err::<Seq<DeviceModel>, _>(e),
            },
    {
        proof {
            use_type_invariant(&self);
        }
        if self.multicast_failed && self.broadcast_failed {
            Err(CastError::Discovery)
        } else {
            Ok(self.devices)
        }
    }
}

/// The models of a list of events.
pub open spec fn event_models(events: Seq<ScanEvent>) -> Seq<EventModel> {
    events.map_values(|e: ScanEvent| e@)
}

/// Runs one scan over `events`, what happened in the order in which it
/// happened, and gives its result: the devices found, no two with the same
/// address, or the error when both strategies failed.
pub fn scan_projectors(events: Vec<ScanEvent>) -> (found: Result<Vec<ProjectorInfo>, CastError>)
    ensures
        match found {
            Ok(devices) => result_of(state_after(initial_state(), event_models(events@))) == Ok::<
                _,
                CastError,
            >(models(devices@)) && distinct_ips(models(devices@)),
            Err(e) => result_of(state_after(initial_state(), event_models(events@))) == Err::<
                Seq<DeviceModel>,
                _,
            >(e),
        },
{
    let mut scan = Scan::new();
    let ghost all = events@;
    assert(event_models(all.take(0)) =~= Seq::<EventModel>::empty());
    for event in it: events
        invariant
            it.seq() == all,
            scan@ == state_after(initial_state(), event_models(all.take(it.index()))),
    {
        proof {
            let i = it.index();
            assert(event_models(all.take(i + 1)).drop_last() =~= event_models(all.take(i)));
            assert(event_models(all.take(i + 1)).last() == event@);
        }
        scan = scan.step(event).0;
    }
    assert(all.take(all.len() as int) =~= all);
    scan.finish()
}

} // verus!
