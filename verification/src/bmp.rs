//! The Black Magic Probe family: its discovery scanner, the construction of a
//! probe from a selector, and its session state machine.

use rusb::UsbContext;
use vstd::prelude::*;

use crate::probe::{
    DebugProbeError, DebugProbeInfo, DebugProbeInfoView, DebugProbeSelector, DebugProbeType,
    ProbeCreationError, ProbeOperation, ProbeState, ProbeView, WireProtocol, starts_with_spec,
};

verus! {

/// USB vendor id under which this family enumerates.
pub const BMP_VID: u16 = 0x1d50;

/// Session speed in force on a freshly constructed probe, in kilohertz.
pub const BMP_DEFAULT_SPEED_KHZ: u32 = 1000;

/// The family prefix a candidate's product string must start with.
pub open spec fn bmp_product_prefix() -> Seq<char> {
    "Black Magic Probe"@
}

/// Relies on str::starts_with: true exactly when the characters of `prefix`
/// lead those of `s`.
#[verifier::external_body]
fn str_starts_with(s: &str, prefix: &str) -> (r: bool)
    ensures
        r == starts_with_spec(s@, prefix@),
{
    s.starts_with(prefix)
}

/// What discovery learns of one enumerated USB device: the identity from its
/// descriptor, and its descriptor strings where reading them succeeded.
pub struct UsbCandidate {
    pub vendor_id: u16,
    pub product_id: u16,
    pub product: Option<String>,
    pub serial_number: Option<String>,
}

/// Mathematical image of a `UsbCandidate`.
#[verifier::ext_equal]
pub struct UsbCandidateView {
    pub vendor_id: u16,
    pub product_id: u16,
    pub product: Option<Seq<char>>,
    pub serial_number: Option<Seq<char>>,
}

impl View for UsbCandidate {
    type V = UsbCandidateView;

    open spec fn view(&self) -> UsbCandidateView {
        UsbCandidateView {
            vendor_id: self.vendor_id,
            product_id: self.product_id,
            product: match self.product {
                Some(p) => Some(p@),
                None => None,
            },
            serial_number: match self.serial_number {
                Some(s) => Some(s@),
                None => None,
            },
        }
    }
}

/// Whether discovery emits an identity for this candidate: the vendor id must
/// equal the family's, and a product string must have been read and start with
/// the family prefix. A candidate lacking a readable product string yields no
/// identity, not an error.
pub open spec fn emits_bmp_identity(c: UsbCandidateView) -> bool {
    &&& c.vendor_id == BMP_VID
    &&& c.product is Some
    &&& starts_with_spec(c.product->0, bmp_product_prefix())
}

/// The identity emitted for an accepted candidate.
pub open spec fn bmp_identity_of(c: UsbCandidateView) -> DebugProbeInfoView {
    DebugProbeInfoView {
        identifier: c.product->0,
        vendor_id: c.vendor_id,
        product_id: c.product_id,
        serial_number: c.serial_number,
        probe_type: DebugProbeType::BMP,
    }
}

/// Classify one enumerated USB device: the identity it contributes to a
/// discovery scan, if any.
pub fn get_bmp_info(candidate: &UsbCandidate) -> (r: Option<DebugProbeInfo>)
    ensures
        r is Some <==> emits_bmp_identity(candidate@),
        r matches Some(info) ==> info@ == bmp_identity_of(candidate@),
{
    if candidate.vendor_id != BMP_VID {
        return None;
    }
    match &candidate.product {
        None => None,
        Some(product) => {
            if str_starts_with(product.as_str(), "Black Magic Probe") {
                let serial_number = match &candidate.serial_number {
                    Some(s) => Some(s.clone()),
                    None => None,
                };
                let info = DebugProbeInfo {
                    identifier: product.clone(),
                    vendor_id: candidate.vendor_id,
                    product_id: candidate.product_id,
                    serial_number,
                    probe_type: DebugProbeType::BMP,
                };
                assert(info@ =~= bmp_identity_of(candidate@));
                Some(info)
            } else {
                None
            }
        },
    }
}

/// Filter correctness: a candidate under a foreign vendor id yields no
/// identity, whatever its strings say.
pub proof fn lemma_vendor_filter(c: UsbCandidateView)
    requires
        c.vendor_id != BMP_VID,
    ensures
        !emits_bmp_identity(c),
{
}

/// Content-check correctness: a matching vendor id alone is not enough — a
/// candidate whose product string is unreadable or does not start with the
/// family prefix yields no identity.
pub proof fn lemma_content_filter(c: UsbCandidateView)
    requires
        c.product is None || !starts_with_spec(c.product->0, bmp_product_prefix()),
    ensures
        !emits_bmp_identity(c),
{
}

/// The images of a sequence of candidates.
pub open spec fn candidate_views(s: Seq<UsbCandidate>) -> Seq<UsbCandidateView> {
    s.map_values(|c: UsbCandidate| c@)
}

/// The images of a sequence of identities.
pub open spec fn info_views(s: Seq<DebugProbeInfo>) -> Seq<DebugProbeInfoView> {
    s.map_values(|i: DebugProbeInfo| i@)
}

/// What one scan over the given candidates emits: the identity of each
/// accepted candidate, in candidate order.
pub open spec fn bmp_identities_spec(devs: Seq<UsbCandidateView>) -> Seq<DebugProbeInfoView>
    decreases devs.len(),
{
    if devs.len() == 0 {
        Seq::empty()
    } else {
        let rest = bmp_identities_spec(devs.drop_last());
        if emits_bmp_identity(devs.last()) {
            rest.push(bmp_identity_of(devs.last()))
        } else {
            rest
        }
    }
}

/// Shape of everything this family's scanner emits: the family's vendor id,
/// an identifier led by the family prefix, and the family's probe kind.
pub open spec fn is_bmp_identity(info: DebugProbeInfoView) -> bool {
    &&& info.vendor_id == BMP_VID
    &&& starts_with_spec(info.identifier, bmp_product_prefix())
    &&& info.probe_type == DebugProbeType::BMP
}

/// Every identity a scan over any candidates emits has the family's shape.
pub proof fn lemma_bmp_identities_shape(devs: Seq<UsbCandidateView>)
    ensures
        forall|i: int|
            0 <= i < bmp_identities_spec(devs).len() ==> is_bmp_identity(
                #[trigger] bmp_identities_spec(devs)[i],
            ),
    decreases devs.len(),
{
    if devs.len() > 0 {
        lemma_bmp_identities_shape(devs.drop_last());
        let rest = bmp_identities_spec(devs.drop_last());
        if emits_bmp_identity(devs.last()) {
            assert forall|i: int|
                0 <= i < bmp_identities_spec(devs).len() implies is_bmp_identity(
                #[trigger] bmp_identities_spec(devs)[i],
            ) by {
                if i < rest.len() {
                    assert(bmp_identities_spec(devs)[i] == rest[i]);
                } else {
                    assert(bmp_identities_spec(devs)[i] == bmp_identity_of(devs.last()));
                }
            }
        }
    }
}

/// Scanner core: the identities the given candidates contribute, in order.
/// Discovery never fails the caller; a rejected or unreadable candidate is
/// skipped, never an error.
pub fn bmp_identities(devices: &Vec<UsbCandidate>) -> (r: Vec<DebugProbeInfo>)
    ensures
        info_views(r@) == bmp_identities_spec(candidate_views(devices@)),
{
    let ghost all = candidate_views(devices@);
    let mut out: Vec<DebugProbeInfo> = Vec::new();
    let mut i: usize = 0;
    while i < devices.len()
        invariant
            i <= devices@.len(),
            all == candidate_views(devices@),
            info_views(out@) == bmp_identities_spec(all.take(i as int)),
        decreases devices@.len() - i,
    {
        proof {
            assert(all.take(i + 1 as int).drop_last() =~= all.take(i as int));
            assert(all.take(i + 1 as int).last() == devices@[i as int]@);
        }
        match get_bmp_info(&devices[i]) {
            Some(info) => {
                let ghost prev = out@;
                out.push(info);
                proof {
                    assert(info_views(out@) =~= info_views(prev).push(info@));
                }
            },
            None => {},
        }
        i += 1;
    }
    proof {
        assert(all.take(devices@.len() as int) =~= all);
    }
    out
}

/// Timeout for reading a device's descriptor strings, in milliseconds: short
/// enough that a wedged device cannot stall a scan, long enough for a real
/// device's turnaround.
pub const BMP_STRING_TIMEOUT_MS: u64 = 100;

/// Relies on rusb::Context::new, rusb::UsbContext::devices and
/// rusb::Device::device_descriptor: one entry per enumerable USB device, in
/// enumeration order, holding its vendor and product id where its descriptor
/// could be read, or nothing where it could not. What is attached depends on
/// the host and the moment, so nothing more is assumed of the outcome.
#[verifier::external_body]
fn usb_list_device_ids() -> (r: Option<Vec<Option<(u16, u16)>>>) {
    let ctx = rusb::Context::new().ok()?;
    let devices = ctx.devices().ok()?;
    let mut ids: Vec<Option<(u16, u16)>> = Vec::new();
    for device in devices.iter() {
        ids.push(device.device_descriptor().ok().map(|d| (d.vendor_id(), d.product_id())));
    }
    Some(ids)
}

/// Relies on rusb device enumeration and rusb::DeviceHandle::read_languages,
/// read_product_string and read_serial_number_string: briefly opens the device
/// at the given enumeration position and reads its product string, and its
/// serial number where one is reported. A device lacking a usable language
/// table, or one that cannot be opened, yields nothing. The list is enumerated
/// afresh, so the outcome depends on the host and the moment; nothing more is
/// assumed of it.
#[verifier::external_body]
fn usb_read_strings(index: usize, timeout_ms: u64) -> (r: Option<(String, Option<String>)>) {
    let timeout = std::time::Duration::from_millis(timeout_ms);
    let ctx = rusb::Context::new().ok()?;
    let devices = ctx.devices().ok()?;
    let device = devices.iter().nth(index)?;
    let descriptor = device.device_descriptor().ok()?;
    let handle = device.open().ok()?;
    let language = handle.read_languages(timeout).ok()?.first().cloned()?;
    let product = handle.read_product_string(language, &descriptor, timeout).ok()?;
    let serial = handle.read_serial_number_string(language, &descriptor, timeout).ok();
    Some((product, serial))
}

/// This family's discovery scan: enumerate the host's USB devices, filter
/// cheaply by vendor id before any per-device I/O, read descriptor strings
/// only for the survivors, and classify. Never fails the caller: a failed
/// enumeration yields an empty sequence, and a faulty device is skipped so it
/// cannot block discovery of the rest.
pub fn list_bmp_devices() -> (r: Vec<DebugProbeInfo>)
    ensures
        forall|i: int| 0 <= i < r@.len() ==> is_bmp_identity((#[trigger] r@[i])@),
{
    let ids = match usb_list_device_ids() {
        Some(v) => v,
        None => {
            return Vec::new();
        },
    };
    let mut candidates: Vec<UsbCandidate> = Vec::new();
    let mut i: usize = 0;
    while i < ids.len()
        invariant
            i <= ids@.len(),
        decreases ids@.len() - i,
    {
        match ids[i] {
            Some(id) => {
                let strings = if id.0 == BMP_VID {
                    usb_read_strings(i, BMP_STRING_TIMEOUT_MS)
                } else {
                    None
                };
                let candidate = match strings {
                    Some(s) => UsbCandidate {
                        vendor_id: id.0,
                        product_id: id.1,
                        product: Some(s.0),
                        serial_number: s.1,
                    },
                    None => UsbCandidate {
                        vendor_id: id.0,
                        product_id: id.1,
                        product: None,
                        serial_number: None,
                    },
                };
                candidates.push(candidate);
            },
            None => {},
        }
        i += 1;
    }
    let infos = bmp_identities(&candidates);
    proof {
        lemma_bmp_identities_shape(candidate_views(candidates@));
        assert forall|k: int| 0 <= k < infos@.len() implies is_bmp_identity(
            (#[trigger] infos@[k])@,
        ) by {
            assert(info_views(infos@)[k] == infos@[k]@);
        }
    }
    infos
}

/// Baud rate at which this family's serial transport is opened.
pub const BMP_BAUD: u32 = 115_200;

/// Read timeout for a freshly opened serial transport, in milliseconds: short
/// enough that a non-responsive device does not stall construction.
pub const BMP_OPEN_TIMEOUT_MS: u64 = 10;

/// An open serial port of the host, the transport this family talks through.
#[verifier::external_type_specification]
#[verifier::external_body]
pub struct ExTTYPort(serialport::TTYPort);

/// One host serial port as enumeration reports it: its path and, where the
/// host knows the port to be USB-backed, the bridge's vendor and product id.
pub struct SerialPortRecord {
    pub name: String,
    pub usb: Option<(u16, u16)>,
}

/// Mathematical image of a `SerialPortRecord`.
#[verifier::ext_equal]
pub struct SerialPortRecordView {
    pub name: Seq<char>,
    pub usb: Option<(u16, u16)>,
}

impl View for SerialPortRecord {
    type V = SerialPortRecordView;

    open spec fn view(&self) -> SerialPortRecordView {
        SerialPortRecordView { name: self.name@, usb: self.usb }
    }
}

/// Relies on serialport::available_ports: each returned record carries one
/// host serial port's path, with the vendor and product id of its bridge where
/// the host reports the port as USB-backed. What the host has depends on the
/// machine, so nothing more is assumed of the outcome. In this build that
/// function reads the host's tty class directory itself and aborts if the
/// directory cannot be listed at all; that reliance on the host is the
/// outside crate's, restated here rather than hidden.
#[verifier::external_body]
fn serial_list_ports() -> (r: Option<Vec<SerialPortRecord>>) {
    let ports = match serialport::available_ports() {
        Ok(p) => p,
        Err(_) => return None,
    };
    Some(ports.into_iter().map(|p| SerialPortRecord {
        name: p.port_name,
        usb: match p.port_type {
            serialport::SerialPortType::UsbPort(info) => Some((info.vid, info.pid)),
            _ => None,
        },
    }).collect())
}

/// Relies on serialport::new and SerialPortBuilder::timeout and open_native:
/// opens the named port at the given baud rate and read timeout, or reports
/// that it could not be opened.
#[verifier::external_body]
fn serial_open_port(name: &str, baud: u32, timeout_ms: u64) -> (r: Option<serialport::TTYPort>) {
    serialport::new(name, baud)
        .timeout(std::time::Duration::from_millis(timeout_ms))
        .open_native()
        .ok()
}

/// Whether a host serial port is the transport a selector asks for: it must be
/// USB-backed with exactly the selector's vendor and product id.
pub open spec fn port_matches(p: SerialPortRecordView, vendor_id: u16, product_id: u16) -> bool {
    &&& p.usb is Some
    &&& (p.usb->0).0 == vendor_id
    &&& (p.usb->0).1 == product_id
}

/// Resolve a selector against the given host serial ports: the position of the
/// first matching port, if any. First match wins, by design: ties among
/// physically identical devices are not broken further.
pub fn select_port_index(ports: &Vec<SerialPortRecord>, selector: &DebugProbeSelector) -> (r:
    Option<usize>)
    ensures
        r matches Some(i) ==> {
            &&& i < ports@.len()
            &&& port_matches(ports@[i as int]@, selector.vendor_id, selector.product_id)
            &&& forall|j: int|
                0 <= j < i ==> !port_matches(
                    (#[trigger] ports@[j])@,
                    selector.vendor_id,
                    selector.product_id,
                )
        },
        r is None ==> forall|j: int|
            0 <= j < ports@.len() ==> !port_matches(
                (#[trigger] ports@[j])@,
                selector.vendor_id,
                selector.product_id,
            ),
{
    let mut i: usize = 0;
    while i < ports.len()
        invariant
            i <= ports@.len(),
            forall|j: int|
                0 <= j < i ==> !port_matches(
                    (#[trigger] ports@[j])@,
                    selector.vendor_id,
                    selector.product_id,
                ),
        decreases ports@.len() - i,
    {
        match ports[i].usb {
            Some(id) => {
                if id.0 == selector.vendor_id && id.1 == selector.product_id {
                    return Some(i);
                }
            },
            None => {},
        }
        i += 1;
    }
    None
}

/// The transport handle this family owns: one open serial port, held
/// exclusively by exactly one probe instance and released when that instance
/// is dropped.
pub struct BMPDevice {
    _port: serialport::TTYPort,
}

impl BMPDevice {
    /// Adopt an already-open serial port as this family's transport handle.
    pub fn new(port: serialport::TTYPort) -> BMPDevice {
        BMPDevice { _port: port }
    }
}

/// Resolve a selector against the given host serial ports and open the first
/// match with the family's fixed parameters. Deliberately first-match: the
/// search stops at the first port whose ids match, whether or not it opens.
pub fn open_from_ports(ports: &Vec<SerialPortRecord>, selector: &DebugProbeSelector) -> (r: Result<
    BMPDevice,
    ProbeCreationError,
>)
    ensures
        r is Err ==> r == Err::<BMPDevice, ProbeCreationError>(ProbeCreationError::NotFound),
        (forall|j: int|
            0 <= j < ports@.len() ==> !port_matches(
                (#[trigger] ports@[j])@,
                selector.vendor_id,
                selector.product_id,
            )) ==> r is Err,
        r is Ok ==> exists|j: int|
            0 <= j < ports@.len() && port_matches(
                (#[trigger] ports@[j])@,
                selector.vendor_id,
                selector.product_id,
            ),
{
    match select_port_index(ports, selector) {
        None => Err(ProbeCreationError::NotFound),
        Some(i) => match serial_open_port(ports[i].name.as_str(), BMP_BAUD, BMP_OPEN_TIMEOUT_MS) {
            Some(port) => Ok(BMPDevice::new(port)),
            None => Err(ProbeCreationError::NotFound),
        },
    }
}

/// Construct this family's transport from a selector: enumerate the host's
/// serial ports and open the first match. A failed enumeration, no match, and
/// a match that fails to open all collapse to `NotFound`.
pub fn open_device_from_selector(selector: &DebugProbeSelector) -> (r: Result<
    BMPDevice,
    ProbeCreationError,
>)
    ensures
        r is Err ==> r == Err::<BMPDevice, ProbeCreationError>(ProbeCreationError::NotFound),
{
    match serial_list_ports() {
        Some(ports) => open_from_ports(&ports, selector),
        None => Err(ProbeCreationError::NotFound),
    }
}

/// A freshly constructed probe: transport open, family defaults in force.
/// The defaults stay caller-overridable until `attach`.
pub open spec fn fresh_bmp_view() -> ProbeView {
    ProbeView {
        state: ProbeState::Connected,
        protocol: WireProtocol::Swd,
        speed_khz: BMP_DEFAULT_SPEED_KHZ,
    }
}

/// The wire protocols this family accepts in `select_protocol`.
pub open spec fn bmp_supports_protocol(protocol: WireProtocol) -> bool {
    protocol == WireProtocol::Jtag
}

/// What selecting a protocol does: an accepted protocol is recorded and the
/// session moves to `ProtocolSelected`; a rejected one changes nothing and the
/// error carries exactly the rejected value.
pub open spec fn select_protocol_step(v: ProbeView, protocol: WireProtocol) -> (
    ProbeView,
    Result<(), DebugProbeError>,
) {
    if bmp_supports_protocol(protocol) {
        (ProbeView { state: ProbeState::ProtocolSelected, protocol, ..v }, Ok(()))
    } else {
        (v, Err(DebugProbeError::UnsupportedProtocol(protocol)))
    }
}

/// What attaching does: before any protocol selection it is a usage error and
/// changes nothing — the family does not silently default a protocol; after a
/// selection it succeeds and the session is attached.
pub open spec fn attach_step(v: ProbeView) -> (ProbeView, Result<(), DebugProbeError>) {
    if v.state == ProbeState::Connected {
        (v, Err(DebugProbeError::ProtocolNotSelected))
    } else {
        (ProbeView { state: ProbeState::Attached, ..v }, Ok(()))
    }
}

/// What detaching does: protocol-level state is released and the session
/// returns to `Connected`; the transport handle stays open. Always succeeds,
/// from any state.
pub open spec fn detach_step(v: ProbeView) -> (ProbeView, Result<(), DebugProbeError>) {
    (ProbeView { state: ProbeState::Connected, ..v }, Ok(()))
}

/// What setting the speed does: this family stores any requested value and
/// reflects it back, with no hardware-imposed clamping.
pub open spec fn set_speed_step(v: ProbeView, speed_khz: u32) -> (
    ProbeView,
    Result<u32, DebugProbeError>,
) {
    (ProbeView { speed_khz, ..v }, Ok(speed_khz))
}

/// Handoff target for architecture-specific debug communication; what lies
/// behind it is outside this crate's scope, and this family does not build it
/// yet, so no value of this type can be produced.
pub struct ArmInterface {
    _device: BMPDevice,
}

/// A Black Magic Probe: one exclusively owned serial transport plus the
/// session parameters of the probe contract.
pub struct BMPProbe {
    pub device: BMPDevice,
    protocol: WireProtocol,
    speed: u32,
    state: ProbeState,
}

impl View for BMPProbe {
    type V = ProbeView;

    closed spec fn view(&self) -> ProbeView {
        ProbeView { state: self.state, protocol: self.protocol, speed_khz: self.speed }
    }
}

impl BMPProbe {
    /// The transport handle this instance owns. The session operations below
    /// promise to leave it alone: it is opened once, at construction, and
    /// stays with the instance until the instance itself is consumed.
    pub closed spec fn transport(&self) -> BMPDevice {
        self.device
    }

    /// Wrap an open transport as a connected probe with the family defaults.
    pub fn new_from_device(device: BMPDevice) -> (r: Self)
        ensures
            r@ == fresh_bmp_view(),
            r.transport() == device,
    {
        BMPProbe {
            device,
            protocol: WireProtocol::Swd,
            speed: BMP_DEFAULT_SPEED_KHZ,
            state: ProbeState::Connected,
        }
    }

    /// Resolve a selector to one transport, open it, and return the connected
    /// probe; every way of not finding an openable transport is `NotFound`.
    pub fn new_from_selector(selector: &DebugProbeSelector) -> (r: Result<
        Box<BMPProbe>,
        DebugProbeError,
    >)
        ensures
            r matches Ok(p) ==> p@ == fresh_bmp_view(),
            r is Err ==> r == Err::<Box<BMPProbe>, DebugProbeError>(
                DebugProbeError::ProbeCouldNotBeCreated(ProbeCreationError::NotFound),
            ),
    {
        match open_device_from_selector(selector) {
            Ok(device) => Ok(Box::new(BMPProbe::new_from_device(device))),
            Err(e) => Err(DebugProbeError::ProbeCouldNotBeCreated(e)),
        }
    }

    /// Stable human-readable family name.
    pub fn get_name(&self) -> (r: &str)
        ensures
            r@ == bmp_product_prefix(),
    {
        "Black Magic Probe"
    }

    /// The session speed in force, in kilohertz.
    pub fn speed(&self) -> (r: u32)
        ensures
            r == self@.speed_khz,
    {
        self.speed
    }

    /// Request a session speed; this family stores and reflects any value.
    pub fn set_speed(&mut self, speed_khz: u32) -> (r: Result<u32, DebugProbeError>)
        ensures
            final(self)@ == set_speed_step(old(self)@, speed_khz).0,
            r == set_speed_step(old(self)@, speed_khz).1,
            final(self).transport() == old(self).transport(),
    {
        self.speed = speed_khz;
        Ok(speed_khz)
    }

    /// Select the wire protocol for this session.
    pub fn select_protocol(&mut self, protocol: WireProtocol) -> (r: Result<(), DebugProbeError>)
        ensures
            final(self)@ == select_protocol_step(old(self)@, protocol).0,
            r == select_protocol_step(old(self)@, protocol).1,
            final(self).transport() == old(self).transport(),
    {
        if protocol != WireProtocol::Jtag {
            Err(DebugProbeError::UnsupportedProtocol(protocol))
        } else {
            self.protocol = protocol;
            self.state = ProbeState::ProtocolSelected;
            Ok(())
        }
    }

    /// Perform the transport-level handshake; callable only after a protocol
    /// was selected.
    pub fn attach(&mut self) -> (r: Result<(), DebugProbeError>)
        ensures
            final(self)@ == attach_step(old(self)@).0,
            r == attach_step(old(self)@).1,
            final(self).transport() == old(self).transport(),
    {
        match self.state {
            ProbeState::Connected => Err(DebugProbeError::ProtocolNotSelected),
            _ => {
                self.state = ProbeState::Attached;
                Ok(())
            },
        }
    }

    /// Release protocol-level state; the transport handle stays open.
    pub fn detach(&mut self) -> (r: Result<(), DebugProbeError>)
        ensures
            final(self)@ == detach_step(old(self)@).0,
            r == detach_step(old(self)@).1,
            final(self).transport() == old(self).transport(),
    {
        self.state = ProbeState::Connected;
        Ok(())
    }

    /// Pulse the target's reset line. Not built for this family yet, and it
    /// fails loudly rather than silently doing nothing.
    pub fn target_reset(&mut self) -> (r: Result<(), DebugProbeError>)
        ensures
            final(self)@ == old(self)@,
            final(self).transport() == old(self).transport(),
            r == Err::<(), DebugProbeError>(
                DebugProbeError::NotImplemented(ProbeOperation::TargetReset),
            ),
    {
        Err(DebugProbeError::NotImplemented(ProbeOperation::TargetReset))
    }

    /// Assert the target's reset line. Not built for this family yet.
    pub fn target_reset_assert(&mut self) -> (r: Result<(), DebugProbeError>)
        ensures
            final(self)@ == old(self)@,
            final(self).transport() == old(self).transport(),
            r == Err::<(), DebugProbeError>(
                DebugProbeError::NotImplemented(ProbeOperation::TargetResetAssert),
            ),
    {
        Err(DebugProbeError::NotImplemented(ProbeOperation::TargetResetAssert))
    }

    /// Deassert the target's reset line. Not built for this family yet.
    pub fn target_reset_deassert(&mut self) -> (r: Result<(), DebugProbeError>)
        ensures
            final(self)@ == old(self)@,
            final(self).transport() == old(self).transport(),
            r == Err::<(), DebugProbeError>(
                DebugProbeError::NotImplemented(ProbeOperation::TargetResetDeassert),
            ),
    {
        Err(DebugProbeError::NotImplemented(ProbeOperation::TargetResetDeassert))
    }

    /// Capability query: this family does bridge to an ARM debug interface.
    pub fn has_arm_interface(&self) -> (r: bool)
        ensures
            r == true,
    {
        true
    }

    /// Consuming handoff to the architecture-specific interface. On failure
    /// the original probe is handed back unchanged so the caller can retry;
    /// this family's interface is not built yet, so it always comes back.
    pub fn try_get_arm_interface(self) -> (r: Result<
        ArmInterface,
        (BMPProbe, DebugProbeError),
    >)
        ensures
            r is Err,
            r matches Err(pair) ==> pair.0 == self && pair.1 == DebugProbeError::NotImplemented(
                ProbeOperation::ArmInterface,
            ),
    {
        Err((self, DebugProbeError::NotImplemented(ProbeOperation::ArmInterface)))
    }

    /// The connection state the session is in.
    pub fn current_state(&self) -> (r: ProbeState)
        ensures
            r == self@.state,
    {
        self.state
    }

    /// The wire protocol in force.
    pub fn protocol(&self) -> (r: WireProtocol)
        ensures
            r == self@.protocol,
    {
        self.protocol
    }
}

/// Detaching is idempotent: it succeeds from any state, a second detach also
/// succeeds, and the second leaves the probe exactly as the first left it.
pub proof fn lemma_detach_idempotent(v: ProbeView)
    ensures
        detach_step(v).1 is Ok,
        detach_step(detach_step(v).0).1 is Ok,
        detach_step(detach_step(v).0).0 == detach_step(v).0,
{
}

/// The session state machine: on a fresh probe, `attach` before any protocol
/// selection fails rather than defaulting one; after a successful selection,
/// `attach` succeeds; and selecting an unsupported protocol then fails with an
/// error carrying exactly the rejected protocol, changing nothing.
pub proof fn lemma_attach_state_machine(rejected: WireProtocol)
    requires
        !bmp_supports_protocol(rejected),
    ensures
        ({
            let v0 = fresh_bmp_view();
            let (v1, r1) = select_protocol_step(v0, WireProtocol::Jtag);
            let (v2, r2) = attach_step(v1);
            &&& attach_step(v0).1 is Err
            &&& attach_step(v0).0 == v0
            &&& r1 is Ok
            &&& r2 is Ok
            &&& v2.state == ProbeState::Attached
            &&& select_protocol_step(v2, rejected) == (
                v2,
                Err::<(), DebugProbeError>(DebugProbeError::UnsupportedProtocol(rejected)),
            )
        }),
{
}

/// Speed is stored and reflected: after `set_speed`, the accepted speed and
/// the speed later read back are both exactly the requested value, and the
/// rest of the session state is untouched.
pub proof fn lemma_set_speed_reflects(v: ProbeView, speed_khz: u32)
    ensures
        set_speed_step(v, speed_khz).1 == Ok::<u32, DebugProbeError>(speed_khz),
        set_speed_step(v, speed_khz).0.speed_khz == speed_khz,
        set_speed_step(v, speed_khz).0.state == v.state,
        set_speed_step(v, speed_khz).0.protocol == v.protocol,
{
}

} // verus!
