use vstd::prelude::*;
use crate::filters::without_id;
use crate::frames::HwDataFrame;

verus! {

broadcast use vstd::string::group_string_axioms;

/// Failures reported by an adapter backend.
#[derive(Debug, Clone)]
pub enum HardwareError {
    /// The adapter's native library reported a failure.
    HwApiError { code: u32, desc: String },
    /// A local I/O failure, with its description.
    IoError(String),
    /// Any other failure, with its description.
    Other(String),
}

pub type HardwareResult<T> = Result<T, HardwareError>;

/// Logical communication channel kinds.
#[derive(Debug, Copy, Clone, PartialEq, Eq, Structural)]
pub enum AdapterChannel {
    /// CAN bus channel (ISO 11898).
    Can,
    /// ISO-TP channel (ISO 15765).
    IsoTp,
    /// KWP over LIN channel (ISO 14230).
    Kwp,
    /// OBD channel (ISO 9141).
    Obd,
}

/// Adapter buffer selection.
#[derive(Debug, Copy, Clone, PartialEq, Eq, Structural)]
pub enum AdapterBuffer {
    /// Vehicle to adapter.
    Input,
    /// Adapter to vehicle.
    Output,
    /// Both directions.
    Both,
}

/// Admission filters installed on a channel.
#[derive(Debug, Copy, Clone, PartialEq, Eq, Structural)]
pub enum AdapterFilter {
    /// Admits a frame whose identifier satisfies `frame_id & mask == id`.
    Pass { mask: u32, id: u32 },
    /// Drops a frame whose identifier satisfies `frame_id & mask == id`.
    Block { mask: u32, id: u32 },
    /// Like `Pass`, with the identifier used for ISO-TP flow control.
    IsoTP { mask: u32, id: u32, fc: u32 },
}

/// Timing and framing parameters of a channel.
#[allow(non_camel_case_types)]
#[derive(Debug, Copy, Clone, PartialEq, Eq, Structural)]
pub enum IoctlIdentifier {
    /// ISO-TP separation time (ms).
    ISO15765_STMIN(u32),
    /// ISO-TP block size.
    ISO15765_BS(u32),
    /// ISO 9141 minimum ECU inter-byte time.
    P1_MIN(u32),
    /// ISO 9141 maximum ECU inter-byte time.
    P1_MAX(u32),
    /// ISO 9141 minimum ECU response time.
    P2_MIN(u32),
    /// ISO 9141 maximum ECU response time.
    P2_MAX(u32),
    /// ISO 9141 minimum time between a response and the next request.
    P3_MIN(u32),
    /// ISO 9141 maximum time between a response and the next request.
    P3_MAX(u32),
    /// ISO 9141 minimum tester inter-byte time of a request.
    P4_MIN(u32),
    /// ISO 9141 maximum tester inter-byte time of a request.
    P4_MAX(u32),
    /// ISO 9141 maximum time from address byte end to synchronisation start.
    W1(u32),
    /// ISO 9141 maximum time from synchronisation byte end to key byte 1.
    W2(u32),
    /// ISO 9141 maximum time between key byte 1 and key byte 2.
    W3(u32),
    /// ISO 9141 maximum time between key byte 2 and its inversion.
    W4(u32),
    /// ISO 9141 minimum time before the address byte is sent again.
    W5(u32),
    /// Bus idle time before a fast initialisation.
    TIDLE(u32),
    /// Duration of the fast initialisation low pulse.
    TINL(u32),
    /// Duration of the fast initialisation wake-up pulse.
    TWUP(u32),
    /// Parity: 0 none, 1 odd, 2 even.
    PARITY(u8),
}

/// Electrical and framing flags fixed on a channel with its first filter.
#[allow(non_camel_case_types)]
#[derive(Debug, Copy, Clone, PartialEq, Eq, Structural)]
pub enum ChannelFlags {
    /// The CAN network uses 29-bit identifiers.
    CAN_USE_29BIT_ADDR,
    /// ISO-TP uses extended addressing.
    ISOTP_USE_EXT_ADDR,
    /// The LIN channel carries no checksum.
    ISO9141_NO_CHECKSUM,
}

/// Initialisation of a LIN channel.
#[derive(Debug, Clone)]
pub enum LinInitType {
    /// Fast initialisation.
    FastInit { id: u32, data: Vec<u8> },
    /// Five-baud initialisation.
    FiveBaudInit(Vec<u8>),
}

/// One call made on an adapter, with what it returned.
pub enum AdapterOp {
    OpenDevice { error: Option<HardwareError> },
    CloseDevice { error: Option<HardwareError> },
    ReadVoltage { outcome: HardwareResult<u32> },
    OpenChannel { kind: AdapterChannel, outcome: HardwareResult<u32> },
    CloseChannel { channel_id: u32, error: Option<HardwareError> },
    AddFilter {
        channel_id: u32,
        filter: AdapterFilter,
        baud: u32,
        flags: Seq<ChannelFlags>,
        outcome: HardwareResult<u32>,
    },
    DelFilter { channel_id: u32, filter_id: u32, outcome: HardwareResult<u32> },
    ClearBuffer { channel_id: u32, buffer: AdapterBuffer, error: Option<HardwareError> },
    /// A read; on success the identifier and payload of each frame that
    /// came back.
    ReadData { max_read: usize, timeout_ms: u128, outcome: HardwareResult<Seq<(u32, Seq<u8>)>> },
    /// A write of frames, given by identifier and payload.
    WriteData { frames: Seq<(u32, Seq<u8>)>, timeout_ms: u128, error: Option<HardwareError> },
}

/// A frame's identifier and payload.
pub open spec fn frame_view<T: HwDataFrame>(f: T) -> (u32, Seq<u8>) {
    (f.frame_id(), f.payload())
}

/// Identifier and payload of each frame.
pub open spec fn frame_views<T: HwDataFrame>(v: Seq<T>) -> Seq<(u32, Seq<u8>)> {
    v.map_values(|f: T| frame_view(f))
}

/// What a read returned, each frame given by identifier and payload.
pub open spec fn read_outcome<T: HwDataFrame>(r: HardwareResult<Vec<T>>) -> HardwareResult<Seq<(u32, Seq<u8>)>> {
    match r {
        Ok(v) => Ok(frame_views(v@)),
        Err(e) => Err(e),
    }
}

/// The error that an operation returned, if any.
pub open spec fn failure<T>(r: HardwareResult<T>) -> Option<HardwareError> {
    match r {
        Ok(_) => None,
        Err(e) => Some(e),
    }
}

/// The error of a read-back that returned no frame.
pub open spec fn is_no_response(e: HardwareError) -> bool {
    match e {
        HardwareError::Other(s) => s@ == "no response frame was received"@,
        _ => false,
    }
}

/// An adapter backend: a native device and the logical channels opened on it.
///
/// `history` is the sequence of calls made on the adapter; each operation
/// appends exactly one entry that records what it returned.
pub trait AdapterHardware: Sized {
    spec fn history(&self) -> Seq<AdapterOp>;

    /// The filters installed on a channel, with their ids, in order.
    spec fn channel_filters(&self, channel_id: u32) -> Seq<(u32, AdapterFilter)>;

    /// Loads the backend's library and opens the device.
    fn open_device(&mut self) -> (r: HardwareResult<()>)
        ensures
            final(self).history() == old(self).history().push(AdapterOp::OpenDevice { error: failure(r) }),
    ;

    /// Closes the device, ending every connection to the vehicle.
    fn close_device(&mut self) -> (r: HardwareResult<()>)
        ensures
            final(self).history() == old(self).history().push(AdapterOp::CloseDevice { error: failure(r) }),
    ;

    /// Supply voltage on the adapter's battery pin, in millivolts.
    fn read_voltage(&mut self) -> (r: HardwareResult<u32>)
        ensures
            final(self).history() == old(self).history().push(AdapterOp::ReadVoltage { outcome: r }),
    ;

    /// Opens a logical channel of the given kind and returns its id. The new
    /// channel admits no inbound traffic until a filter is installed.
    fn open_channel(&mut self, channel_type: AdapterChannel) -> (r: HardwareResult<u32>)
        ensures
            final(self).history() == old(self).history().push(
                AdapterOp::OpenChannel { kind: channel_type, outcome: r },
            ),
            r is Ok ==> final(self).channel_filters(r->Ok_0) == Seq::<(u32, AdapterFilter)>::empty(),
    ;

    /// Closes a channel with all its filters.
    fn close_channel(&mut self, id: u32) -> (r: HardwareResult<()>)
        ensures
            final(self).history() == old(self).history().push(
                AdapterOp::CloseChannel { channel_id: id, error: failure(r) },
            ),
    ;

    /// Installs a filter on a channel, fixing its bus speed and flags, and
    /// returns the filter's id.
    fn add_channel_filter(
        &mut self,
        channel_id: u32,
        filter: AdapterFilter,
        baud: u32,
        flags: &[ChannelFlags],
    ) -> (r: HardwareResult<u32>)
        ensures
            final(self).history() == old(self).history().push(
                AdapterOp::AddFilter { channel_id, filter, baud, flags: flags@, outcome: r },
            ),
            r is Ok ==> final(self).channel_filters(channel_id) == old(self).channel_filters(channel_id).push(
                (r->Ok_0, filter),
            ),
            r is Ok ==> forall|k: int|
                0 <= k < old(self).channel_filters(channel_id).len() ==> #[trigger] old(self).channel_filters(
                    channel_id,
                )[k].0 != r->Ok_0,
    ;

    /// Removes one filter from a channel.
    fn del_channel_filter(&mut self, channel_id: u32, filter_id: u32) -> (r: HardwareResult<u32>)
        ensures
            final(self).history() == old(self).history().push(
                AdapterOp::DelFilter { channel_id, filter_id, outcome: r },
            ),
            r is Ok ==> final(self).channel_filters(channel_id) == without_id(
                old(self).channel_filters(channel_id),
                filter_id,
            ),
    ;

    /// Drops buffered frames of a channel; its filters stay.
    fn clear_channel_buffer(&mut self, channel_id: u32, buffer: AdapterBuffer) -> (r: HardwareResult<()>)
        ensures
            final(self).history() == old(self).history().push(
                AdapterOp::ClearBuffer { channel_id, buffer, error: failure(r) },
            ),
    ;

    /// Reads up to `max_read` frames of type `T`, waiting at most
    /// `timeout_ms` (0: only what is already queued).
    fn read_data<T: HwDataFrame>(&mut self, max_read: usize, timeout_ms: u128) -> (r: HardwareResult<Vec<T>>)
        ensures
            final(self).history() == old(self).history().push(
                AdapterOp::ReadData { max_read, timeout_ms, outcome: read_outcome(r) },
            ),
            r is Ok ==> r->Ok_0@.len() <= max_read,
    ;

    /// Writes frames of type `T` (0: return right after the hand-off).
    fn write_data<T: HwDataFrame>(&mut self, input: &[T], timeout_ms: u128) -> (r: HardwareResult<()>)
        ensures
            final(self).history() == old(self).history().push(
                AdapterOp::WriteData { frames: frame_views(input@), timeout_ms, error: failure(r) },
            ),
    ;

    /// Sets one timing or framing parameter of a channel.
    fn channel_set_ioctl(channel_id: u32, param: IoctlIdentifier) -> HardwareResult<()>;

    /// Reads one parameter of a channel into `param`.
    fn channel_get_ioctl(channel_id: u32, param: &mut IoctlIdentifier) -> HardwareResult<()>;

    /// Initialises a LIN channel; on success `init_type` holds the ECU's response.
    fn channel_lin_init(channel_id: u32, init_type: &mut LinInitType) -> HardwareResult<()>;

    /// Writes one frame, then reads one frame back. The read is made only
    /// when the write succeeded.
    fn read_and_write<T: HwDataFrame>(&mut self, write: T, write_timeout_ms: u128, read_timeout_ms: u128) -> (r: HardwareResult<T>)
        ensures
            ({
                let h0 = old(self).history();
                let h = final(self).history();
                let sent = seq![frame_view(write)];
                let wrote = h0.push(AdapterOp::WriteData { frames: sent, timeout_ms: write_timeout_ms, error: None });
                let read = |o| wrote.push(AdapterOp::ReadData { max_read: 1, timeout_ms: read_timeout_ms, outcome: o });
                ||| r is Err && h == h0.push(
                    AdapterOp::WriteData { frames: sent, timeout_ms: write_timeout_ms, error: failure(r) },
                )
                ||| r is Err && h == read(Err(r->Err_0))
                ||| h == read(Ok(Seq::empty())) && r is Err && is_no_response(r->Err_0)
                ||| r is Ok && h == read(Ok(seq![frame_view(r->Ok_0)]))
            }),
    {
        let ghost h0 = self.history();
        let ghost sent = seq![frame_view(write)];
        let mut out: Vec<T> = Vec::new();
        out.push(write);
        assert(frame_views(out@) =~= sent);
        let w = self.write_data(out.as_slice(), write_timeout_ms);
        match w {
            Err(e) => {
                assert(self.history() == h0.push(
                    AdapterOp::WriteData { frames: sent, timeout_ms: write_timeout_ms, error: Some(e) },
                ));
                return Err(e);
            },
            Ok(()) => {},
        }
        let ghost wrote = self.history();
        let read = self.read_data::<T>(1, read_timeout_ms);
        match read {
            Err(e) => {
                assert(self.history() == wrote.push(
                    AdapterOp::ReadData { max_read: 1, timeout_ms: read_timeout_ms, outcome: Err(e) },
                ));
                Err(e)
            },
            Ok(mut frames) => {
                if frames.len() == 0 {
                    assert(frame_views(frames@) =~= Seq::<(u32, Seq<u8>)>::empty());
                    Err(HardwareError::Other("no response frame was received".to_string()))
                } else {
                    let ghost all = frames@;
                    let f = frames.swap_remove(0);
                    assert(frame_views(all) =~= seq![frame_view(f)]);
                    Ok(f)
                }
            },
        }
    }

    /// Closes and reopens the device, stopping at the first failure.
    fn reset_device(&mut self) -> (r: HardwareResult<()>)
        ensures
            ({
                let h0 = old(self).history();
                let h = final(self).history();
                let closed = h0.push(AdapterOp::CloseDevice { error: None });
                ||| r is Err && h == h0.push(AdapterOp::CloseDevice { error: failure(r) })
                ||| h == closed.push(AdapterOp::OpenDevice { error: failure(r) })
            }),
    {
        let ghost h0 = self.history();
        let c = self.close_device();
        match c {
            Err(e) => {
                assert(self.history() == h0.push(AdapterOp::CloseDevice { error: Some(e) }));
                assert(h0 == old(self).history());
                let r: HardwareResult<()> = Err(e);
                assert(r is Err);
                assert(self.history() == old(self).history().push(AdapterOp::CloseDevice { error: failure(r) }));
                r
            },
            Ok(()) => self.open_device(),
        }
    }
}

/// Adapter programming interfaces, in display and selection order.
#[derive(Debug, Copy, Clone, PartialEq, Eq, PartialOrd, Ord, Hash, Structural)]
pub enum HardwareAPI {
    Null,
    Passthru,
    Pdu,
    Sd,
    Sim,
    /// Kernel CAN sockets (unix hosts only).
    SocketCAN,
}

/// Display name of each interface.
pub open spec fn api_name(api: HardwareAPI) -> Seq<char> {
    match api {
        HardwareAPI::Null => "NULL"@,
        HardwareAPI::Passthru => "Passthru"@,
        HardwareAPI::Pdu => "D-PDU"@,
        HardwareAPI::Sd => "SDConnect"@,
        HardwareAPI::Sim => "Simulation"@,
        HardwareAPI::SocketCAN => "SocketCAN"@,
    }
}

impl HardwareAPI {
    /// The interface's display name.
    pub fn to_string(&self) -> (r: String)
        ensures
            r@ == api_name(*self),
    {
        match self {
            HardwareAPI::Null => "NULL".to_string(),
            HardwareAPI::Passthru => "Passthru".to_string(),
            HardwareAPI::Pdu => "D-PDU".to_string(),
            HardwareAPI::Sd => "SDConnect".to_string(),
            HardwareAPI::Sim => "Simulation".to_string(),
            HardwareAPI::SocketCAN => "SocketCAN".to_string(),
        }
    }
}

impl Default for HardwareAPI {
    fn default() -> (r: Self)
        ensures
            r == HardwareAPI::Null,
    {
        HardwareAPI::Null
    }
}

/// Name of the one device that the simulation interface offers.
pub open spec fn simulation_device_name() -> Seq<char> {
    "OpenStar-Simulation"@
}

/// Whether `r` is the device list of an interface: the simulation device
/// for the simulation, what the driver scan found for Passthru (nothing if
/// it failed), and nothing for the others.
pub open spec fn is_device_list(api: HardwareAPI, passthru_found: Option<Vec<String>>, r: Seq<String>) -> bool {
    if api == HardwareAPI::Sim {
        r.len() == 1 && r[0]@ == simulation_device_name()
    } else if api == HardwareAPI::Passthru {
        r == match passthru_found {
            Some(v) => v@,
            None => Seq::<String>::empty(),
        }
    } else {
        r.len() == 0
    }
}

/// Devices that an interface offers. `passthru_found` is what a scan of the
/// installed Passthru drivers gave (`None` when the scan failed); only the
/// Passthru interface uses it.
pub fn get_device_list(api: HardwareAPI, passthru_found: Option<Vec<String>>) -> (r: Vec<String>)
    ensures
        is_device_list(api, passthru_found, r@),
{
    match api {
        HardwareAPI::Sim => {
            let mut v: Vec<String> = Vec::new();
            v.push("OpenStar-Simulation".to_string());
            v
        },
        HardwareAPI::Passthru => match passthru_found {
            Some(v) => v,
            None => Vec::new(),
        },
        _ => Vec::new(),
    }
}

/// Accepts a device for opening; every named device of every interface is
/// accepted.
pub fn open_device(name: &str, api: HardwareAPI) -> (r: bool)
    ensures
        r,
{
    true
}

/// Description of each Passthru status code, as j2534_rust words it.
pub open spec fn passthru_description(code: u32) -> Seq<char> {
    match code {
        0x00 => "No Error"@,
        0x01 => "Operation not supported"@,
        0x02 => "Invalid channel ID"@,
        0x03 => "Invalid protocol ID"@,
        0x04 => "Null parameter received"@,
        0x05 => "Invalid IOCTL Value"@,
        0x06 => "Invalid flags"@,
        0x07 => "Unspecified error"@,
        0x08 => "Device not connected"@,
        0x09 => "Device timeout"@,
        0x0A => "Invalid or malformed message"@,
        0x0B => "Time interval outside specified range"@,
        0x0C => "Too many filters or periodic messages"@,
        0x0D => "Message ID / Handle ID not recognized"@,
        0x0E => "Device is already in use"@,
        0x0F => "IOCTL ID not recognized"@,
        0x10 => "Receive buffer is empty"@,
        0x11 => "Transmit buffer is full"@,
        0x12 => "Device buffer overflow"@,
        0x13 => "Unknown pin specified"@,
        0x14 => "Channel is already in use"@,
        0x15 => "Message protocol ID does not match that of the communication channel"@,
        0x16 => "Filter ID not recognized"@,
        0x17 => "No flow control filter is set"@,
        0x18 => "An existing filter already matches"@,
        0x19 => "Unable to set requested baudrate"@,
        0x1A => "Device ID not recognized"@,
        _ => Seq::empty(),
    }
}

/// Highest status code that the Passthru standard defines.
pub const PASSTHRU_MAX_CODE: u32 = 0x1A;

/// Relies on j2534_rust::PassthruError: `try_from` accepts exactly the codes
/// 0x00 to 0x1A, and its `Display` gives the descriptions that
/// `passthru_description` lists.
#[verifier::external_body]
fn passthru_text(code: u32) -> (r: Option<String>)
    ensures
        r is Some <==> code <= PASSTHRU_MAX_CODE,
        r is Some ==> r->0@ == passthru_description(code),
{
    j2534_rust::PassthruError::try_from(code).ok().map(|e| e.to_string())
}

/// The hardware error for a Passthru status code, carrying the code and its
/// description; `None` for a code that the standard does not define.
pub fn passthru_error(code: u32) -> (r: Option<HardwareError>)
    ensures
        r is Some <==> code <= PASSTHRU_MAX_CODE,
        r is Some ==> (r->0 matches HardwareError::HwApiError { code: c, desc }
            && c == code && desc@ == passthru_description(code)),
{
    match passthru_text(code) {
        Some(desc) => Some(HardwareError::HwApiError { code, desc }),
        None => None,
    }
}

} // verus!
