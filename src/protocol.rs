use vstd::prelude::*;
use crate::frames::HwDataFrame;
use crate::hardware::{AdapterHardware, AdapterOp, HardwareError, frame_view, is_no_response};

verus! {

broadcast use vstd::string::group_string_axioms;

/// Failures of a diagnostic protocol operation.
#[derive(Debug)]
pub enum ProtocolError {
    /// The ECU answered with a negative response carrying this code.
    ECUError(u8),
    /// The protocol state machine refused the request.
    ServerError(String),
    /// The adapter failed; its error is kept whole.
    DeviceError(HardwareError),
}

pub type ProtocolResult<T> = Result<T, ProtocolError>;

impl From<HardwareError> for ProtocolError {
    fn from(e: HardwareError) -> (r: Self)
        ensures
            r == ProtocolError::DeviceError(e),
    {
        ProtocolError::DeviceError(e)
    }
}

impl vstd::std_specs::convert::FromSpecImpl<HardwareError> for ProtocolError {
    open spec fn obeys_from_spec() -> bool {
        true
    }

    open spec fn from_spec(e: HardwareError) -> Self {
        ProtocolError::DeviceError(e)
    }
}

/// Wraps an adapter failure at the protocol boundary, losing nothing.
pub fn device_error(e: HardwareError) -> (r: ProtocolError)
    ensures
        r == ProtocolError::DeviceError(e),
{
    ProtocolError::from(e)
}

/// Lifecycle state of a trouble code, as the ECU reports it.
#[derive(Debug, Copy, Clone, PartialEq, Eq, Structural)]
pub enum DTCState {
    /// No fault recorded.
    NoFault,
    Stored,
    Pending,
    Active,
}

/// A diagnostic trouble code read from an ECU.
#[derive(Debug, Clone)]
pub struct DTC {
    code: String,
    state: DTCState,
    mil_on: bool,
}

/// The content of a trouble code: its code text, state and lamp flag.
pub type DtcView = (Seq<char>, DTCState, bool);

impl View for DTC {
    type V = DtcView;

    closed spec fn view(&self) -> DtcView {
        (self.code@, self.state, self.mil_on)
    }
}

impl DTC {
    pub fn new(code: String, state: DTCState, mil_on: bool) -> (r: Self)
        ensures
            r@ == (code@, state, mil_on),
    {
        DTC { code, state, mil_on }
    }

    /// The code in the manufacturer's format.
    pub fn code(&self) -> (r: &String)
        ensures
            r@ == self@.0,
    {
        &self.code
    }

    pub fn state(&self) -> (r: DTCState)
        ensures
            r == self@.1,
    {
        self.state
    }

    /// Whether the malfunction indicator lamp is lit for this code.
    pub fn mil_on(&self) -> (r: bool)
        ensures
            r == self@.2,
    {
        self.mil_on
    }
}

/// The contents of a list of trouble codes.
pub open spec fn dtc_contents(v: Seq<DTC>) -> Seq<DtcView> {
    v.map_values(|d: DTC| d@)
}

/// A diagnostic protocol (KWP2000, UDS) spoken over one open, filtered
/// channel.
pub trait GenericProtocolServer {
    /// The trouble codes that the ECU holds at present.
    spec fn ecu_dtcs(&self) -> Seq<DtcView>;

    /// Sends a request and waits for the ECU's reply; a negative response
    /// comes back as `ECUError`, never as payload.
    fn send_command_with_response(&mut self, send: &[u8]) -> (r: ProtocolResult<Vec<u8>>)
        ensures
            r matches Ok(v) ==> negative_code(v@) is None,
    ;

    /// Sends a request without waiting for a reply.
    fn send_command(&mut self, send: &[u8]) -> ProtocolResult<()>;

    /// Reads the ECU's current trouble codes: a full snapshot, which leaves
    /// the ECU's codes as they were.
    fn read_dtcs(&mut self) -> (r: ProtocolResult<Vec<DTC>>)
        ensures
            final(self).ecu_dtcs() == old(self).ecu_dtcs(),
            r is Ok ==> dtc_contents(r->Ok_0@) == old(self).ecu_dtcs(),
    ;
}

/// Two successive trouble-code reads, with no change of the ECU's codes
/// between them, give lists of equal content.
pub proof fn lemma_read_dtcs_snapshot<S: GenericProtocolServer>(
    before: S,
    between: S,
    first: Seq<DTC>,
    second: Seq<DTC>,
)
    requires
        between.ecu_dtcs() == before.ecu_dtcs(),
        dtc_contents(first) == before.ecu_dtcs(),
        dtc_contents(second) == between.ecu_dtcs(),
    ensures
        dtc_contents(first) == dtc_contents(second),
{
}

/// First byte of an ECU's negative response: `[0x7F, service, code]`.
pub const NEGATIVE_RESPONSE: u8 = 0x7F;

/// Negative response code by which the ECU asks for more time.
pub const RESPONSE_PENDING: u8 = 0x78;

/// Whether a reply is a negative response, and its code if so.
pub open spec fn negative_code(resp: Seq<u8>) -> Option<u8> {
    if resp.len() >= 3 && resp[0] == NEGATIVE_RESPONSE {
        Some(resp[2])
    } else {
        None
    }
}

/// Sorts an ECU reply: a negative response becomes `ECUError` with its code;
/// anything else is the reply's payload.
pub fn classify_response(resp: &[u8]) -> (r: ProtocolResult<Vec<u8>>)
    ensures
        match negative_code(resp@) {
            Some(code) => r matches Err(ProtocolError::ECUError(c)) && c == code,
            None => r matches Ok(v) && v@ == resp@,
        },
{
    if resp.len() >= 3 && resp[0] == NEGATIVE_RESPONSE {
        Err(ProtocolError::ECUError(resp[2]))
    } else {
        Ok(vstd::slice::slice_to_vec(resp))
    }
}

/// Whether a reply says that the ECU is still working on the request.
pub fn is_response_pending(resp: &[u8]) -> (r: bool)
    ensures
        r == (negative_code(resp@) == Some(RESPONSE_PENDING)),
{
    resp.len() >= 3 && resp[0] == NEGATIVE_RESPONSE && resp[2] == RESPONSE_PENDING
}

/// Whether a protocol server has a request on the wire.
#[derive(Debug, Copy, Clone, PartialEq, Eq, Structural)]
pub enum SessionState {
    Idle,
    AwaitingResponse,
}

/// Admits one outstanding request at a time: frame correlation on the bus
/// is by timing, so requests must not interleave.
#[derive(Debug)]
pub struct RequestLock {
    state: SessionState,
}

impl RequestLock {
    pub closed spec fn current(&self) -> SessionState {
        self.state
    }

    pub fn new() -> (r: Self)
        ensures
            r.current() == SessionState::Idle,
    {
        RequestLock { state: SessionState::Idle }
    }

    pub fn state(&self) -> (r: SessionState)
        ensures
            r == self.current(),
    {
        self.state
    }

    /// Starts a request; refused with `ServerError` while another one is
    /// outstanding.
    pub fn begin(&mut self) -> (r: ProtocolResult<()>)
        ensures
            old(self).current() == SessionState::Idle ==> r is Ok && final(self).current()
                == SessionState::AwaitingResponse,
            old(self).current() == SessionState::AwaitingResponse ==> (r matches Err(ProtocolError::ServerError(_)))
                && final(self).current() == SessionState::AwaitingResponse,
    {
        match self.state {
            SessionState::Idle => {
                self.state = SessionState::AwaitingResponse;
                Ok(())
            },
            SessionState::AwaitingResponse => Err(ProtocolError::ServerError("a request is already outstanding".to_string())),
        }
    }

    /// Ends the outstanding request, whatever its outcome.
    pub fn finish(&mut self)
        ensures
            final(self).current() == SessionState::Idle,
    {
        self.state = SessionState::Idle;
    }
}

/// Sorts a reply frame: a negative response becomes `ECUError` with its
/// code; any other frame is handed back as it is.
pub fn classify_reply<T: HwDataFrame>(frame: T) -> (r: ProtocolResult<T>)
    ensures
        match negative_code(frame.payload()) {
            Some(code) => r matches Err(ProtocolError::ECUError(c)) && c == code,
            None => r == Ok::<T, ProtocolError>(frame),
        },
{
    match negative_code_exec(frame.get_data()) {
        Some(c) => Err(ProtocolError::ECUError(c)),
        None => Ok(frame),
    }
}

/// The reply frame that the last read of a history returned, if it
/// returned one.
pub open spec fn last_reply(h: Seq<AdapterOp>) -> (u32, Seq<u8>) {
    match h.last() {
        AdapterOp::ReadData { outcome: Ok(frames), .. } => frames[0],
        _ => (0, Seq::empty()),
    }
}

/// Sends one request frame and waits for one reply frame.
///
/// While another request is outstanding the call fails with `ServerError`
/// and leaves the adapter alone. Otherwise the lock ends idle; an adapter
/// failure comes back as `DeviceError`, a negative reply as `ECUError` with
/// its code, and any other reply frame as `Ok`.
pub fn exchange<A: AdapterHardware, T: HwDataFrame>(
    lock: &mut RequestLock,
    dev: &mut A,
    request: T,
    write_timeout_ms: u128,
    read_timeout_ms: u128,
) -> (r: ProtocolResult<T>)
    ensures
        old(lock).current() == SessionState::AwaitingResponse ==> {
            &&& r matches Err(ProtocolError::ServerError(_))
            &&& final(lock).current() == SessionState::AwaitingResponse
            &&& final(dev).history() == old(dev).history()
        },
        old(lock).current() == SessionState::Idle ==> {
            let h0 = old(dev).history();
            let h = final(dev).history();
            let sent = seq![frame_view(request)];
            let wrote = h0.push(AdapterOp::WriteData { frames: sent, timeout_ms: write_timeout_ms, error: None });
            let read = |o| wrote.push(AdapterOp::ReadData { max_read: 1, timeout_ms: read_timeout_ms, outcome: o });
            let reply = last_reply(h);
            &&& final(lock).current() == SessionState::Idle
            &&& {
                ||| r matches Err(ProtocolError::DeviceError(e)) && h == h0.push(
                    AdapterOp::WriteData { frames: sent, timeout_ms: write_timeout_ms, error: Some(e) },
                )
                ||| r matches Err(ProtocolError::DeviceError(e)) && h == read(Err(e))
                ||| r matches Err(ProtocolError::DeviceError(e)) && h == read(Ok(Seq::empty())) && is_no_response(e)
                ||| h == read(Ok(seq![reply])) && match negative_code(reply.1) {
                    Some(code) => r matches Err(ProtocolError::ECUError(c)) && c == code,
                    None => r is Ok && frame_view(r->Ok_0) == reply,
                }
            }
        },
{
    match lock.begin() {
        Err(e) => {
            return Err(e);
        },
        Ok(()) => {},
    }
    let reply = dev.read_and_write(request, write_timeout_ms, read_timeout_ms);
    lock.finish();
    match reply {
        Err(e) => Err(device_error(e)),
        Ok(frame) => classify_reply(frame),
    }
}

fn negative_code_exec(resp: &[u8]) -> (r: Option<u8>)
    ensures
        r == negative_code(resp@),
{
    if resp.len() >= 3 && resp[0] == NEGATIVE_RESPONSE {
        Some(resp[2])
    } else {
        None
    }
}

} // verus!
