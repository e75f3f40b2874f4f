//! Value types shared by every probe family: identity and selector records,
//! wire protocols, the connection state machine's states, and the error
//! taxonomy of construction and session operations.

use vstd::prelude::*;

verus! {

/// Low-level wire protocol spoken to the target's debug port.
#[derive(Clone, Copy, PartialEq, Eq, Structural, Debug)]
pub enum WireProtocol {
    Swd,
    Jtag,
}

/// The known probe families.
#[derive(Clone, Copy, PartialEq, Eq, Structural, Debug)]
pub enum DebugProbeType {
    BMP,
}

/// Connection lifecycle of one probe instance. Construction only succeeds by
/// opening a transport, so every value of a probe type is at least
/// `Connected`; a disconnected probe has no representative value.
#[derive(Clone, Copy, PartialEq, Eq, Structural, Debug)]
pub enum ProbeState {
    Connected,
    ProtocolSelected,
    Attached,
}

/// A session operation, named so an error can say which operation failed.
#[derive(Clone, Copy, PartialEq, Eq, Structural, Debug)]
pub enum ProbeOperation {
    TargetReset,
    TargetResetAssert,
    TargetResetDeassert,
    ArmInterface,
}

/// Construction failure. `NotFound` deliberately collapses enumeration
/// failure, no matching device, and an open failure into one stable signal.
#[derive(Clone, Copy, PartialEq, Eq, Structural, Debug)]
pub enum ProbeCreationError {
    NotFound,
}

/// Failure of a session operation on a constructed probe.
#[derive(Clone, Copy, PartialEq, Eq, Structural, Debug)]
pub enum DebugProbeError {
    /// The requested wire protocol is not spoken by this family; carries the
    /// rejected protocol so callers can report it precisely.
    UnsupportedProtocol(WireProtocol),
    /// `attach` was called before any protocol selection.
    ProtocolNotSelected,
    /// The family does not implement the named operation; failing loudly here
    /// keeps a caller from believing a hardware action occurred.
    NotImplemented(ProbeOperation),
    /// Construction on behalf of a caller failed.
    ProbeCouldNotBeCreated(ProbeCreationError),
}

/// Caller-supplied criteria identifying one probe among many enumerated.
pub struct DebugProbeSelector {
    pub vendor_id: u16,
    pub product_id: u16,
    pub serial_number: Option<String>,
}

/// One discovered probe, produced read-only by a discovery scan.
pub struct DebugProbeInfo {
    pub identifier: String,
    pub vendor_id: u16,
    pub product_id: u16,
    pub serial_number: Option<String>,
    pub probe_type: DebugProbeType,
}

/// Mathematical image of a `DebugProbeInfo`: its strings as char sequences.
#[verifier::ext_equal]
pub struct DebugProbeInfoView {
    pub identifier: Seq<char>,
    pub vendor_id: u16,
    pub product_id: u16,
    pub serial_number: Option<Seq<char>>,
    pub probe_type: DebugProbeType,
}

impl View for DebugProbeInfo {
    type V = DebugProbeInfoView;

    open spec fn view(&self) -> DebugProbeInfoView {
        DebugProbeInfoView {
            identifier: self.identifier@,
            vendor_id: self.vendor_id,
            product_id: self.product_id,
            serial_number: match self.serial_number {
                Some(s) => Some(s@),
                None => None,
            },
            probe_type: self.probe_type,
        }
    }
}

/// Abstract state of one probe instance: everything the session contract
/// observes of it.
pub struct ProbeView {
    pub state: ProbeState,
    pub protocol: WireProtocol,
    pub speed_khz: u32,
}

/// The characters of `prefix` lead those of `s`.
pub open spec fn starts_with_spec(s: Seq<char>, prefix: Seq<char>) -> bool {
    prefix.len() <= s.len() && s.subrange(0, prefix.len() as int) == prefix
}

} // verus!
