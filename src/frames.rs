use vstd::prelude::*;
use crate::hardware::AdapterChannel;
use crate::logger::Loggable;
use crate::text::{bool_text, hex_list, hex_padded, push_bool, push_hex, push_hex_list};

verus! {

broadcast use vstd::string::group_string_axioms;

/// Largest payload that one classic CAN frame carries.
pub const CAN_MAX_PAYLOAD: usize = 8;

/// Highest identifier that fits the 11-bit standard CAN addressing.
pub const CAN_STD_ID_MAX: u32 = 0x7FF;

/// What a CAN frame keeps of a payload: at most its first eight bytes.
pub open spec fn can_stored(data: Seq<u8>) -> Seq<u8> {
    if data.len() <= 8 {
        data
    } else {
        data.subrange(0, 8)
    }
}

/// Uniform payload and identifier contract shared by every frame variant.
/// Each variant travels on one channel kind.
pub trait HwDataFrame: Sized + Default {
    /// The payload that the frame currently holds.
    spec fn payload(&self) -> Seq<u8>;

    /// The frame's identifier.
    spec fn frame_id(&self) -> u32;

    /// The payload that the variant keeps when `data` is set.
    spec fn stored_payload(data: Seq<u8>) -> Seq<u8>;

    /// The channel kind that carries this variant.
    spec fn kind() -> AdapterChannel;

    fn channel_kind() -> (r: AdapterChannel)
        ensures
            r == Self::kind(),
    ;

    /// Replaces the payload wholesale.
    fn set_data(&mut self, data: &[u8])
        ensures
            final(self).payload() == Self::stored_payload(data@),
            final(self).frame_id() == old(self).frame_id(),
    ;

    fn get_data(&self) -> (r: &[u8])
        ensures
            r@ == self.payload(),
    ;

    fn get_id(&self) -> (r: u32)
        ensures
            r == self.frame_id(),
    ;

    /// Replaces the identifier, recomputing any derived addressing flag.
    fn set_id(&mut self, id: u32)
        ensures
            final(self).frame_id() == id,
            final(self).payload() == old(self).payload(),
    ;
}

/// A classic CAN frame: an identifier and up to eight payload bytes.
#[derive(Debug, Clone)]
pub struct HWCanFrame {
    id: u32,
    data: Vec<u8>,
    can_ext_addr: bool,
}

impl HWCanFrame {
    /// Whether the frame is flagged for 29-bit addressing.
    pub closed spec fn ext_addr(&self) -> bool {
        self.can_ext_addr
    }

    /// The frame's payload never exceeds the CAN capacity.
    pub open spec fn wf(&self) -> bool {
        self.payload().len() <= 8
    }

    pub fn new(id: u32, data: &[u8]) -> (r: Self)
        ensures
            r.wf(),
            r.payload() == can_stored(data@),
            r.frame_id() == id,
            r.ext_addr() == (id > CAN_STD_ID_MAX),
    {
        let mut c = HWCanFrame::default();
        c.set_data(data);
        c.set_id(id);
        c
    }

    /// True when the identifier needs 29-bit addressing.
    pub fn can_ext_addr(&self) -> (r: bool)
        ensures
            r == self.ext_addr(),
    {
        self.can_ext_addr
    }

    /// Data length code: the number of payload bytes held.
    pub fn dlc(&self) -> (r: u8)
        requires
            self.wf(),
        ensures
            r as int == self.payload().len(),
    {
        self.data.len() as u8
    }
}

impl Default for HWCanFrame {
    fn default() -> (r: Self)
        ensures
            r.payload().len() == 0,
            r.frame_id() == 0,
    {
        HWCanFrame { id: 0, data: Vec::new(), can_ext_addr: false }
    }
}

impl HwDataFrame for HWCanFrame {
    open spec fn kind() -> AdapterChannel {
        AdapterChannel::Can
    }

    fn channel_kind() -> (r: AdapterChannel) {
        AdapterChannel::Can
    }

    closed spec fn payload(&self) -> Seq<u8> {
        self.data@
    }

    closed spec fn frame_id(&self) -> u32 {
        self.id
    }

    open spec fn stored_payload(data: Seq<u8>) -> Seq<u8> {
        can_stored(data)
    }

    fn set_data(&mut self, data: &[u8])
        ensures
            final(self).ext_addr() == old(self).ext_addr(),
    {
        let max: usize = if data.len() < CAN_MAX_PAYLOAD {
            data.len()
        } else {
            CAN_MAX_PAYLOAD
        };
        let mut kept: Vec<u8> = Vec::new();
        let mut i: usize = 0;
        while i < max
            invariant
                max <= data@.len(),
                max <= 8,
                max == data@.len() || max == 8,
                i <= max,
                kept@ == data@.subrange(0, i as int),
            decreases max - i,
        {
            kept.push(data[i]);
            i = i + 1;
        }
        assert(kept@ == can_stored(data@));
        self.data = kept;
    }

    fn get_data(&self) -> (r: &[u8]) {
        self.data.as_slice()
    }

    fn get_id(&self) -> (r: u32) {
        self.id
    }

    fn set_id(&mut self, id: u32)
        ensures
            final(self).ext_addr() == (id > CAN_STD_ID_MAX),
    {
        self.id = id;
        self.can_ext_addr = id > CAN_STD_ID_MAX;
    }
}

/// An ISO-TP frame: an identifier and a payload of any length.
#[derive(Debug, Clone)]
pub struct HwIsoTpFrame {
    id: u32,
    can_ext_addr: bool,
    ext: bool,
    data: Vec<u8>,
}

impl HwIsoTpFrame {
    /// Whether the identifier needs 29-bit CAN addressing.
    pub closed spec fn can_ext(&self) -> bool {
        self.can_ext_addr
    }

    /// Whether the frame uses ISO-TP extended addressing.
    pub closed spec fn isotp_ext(&self) -> bool {
        self.ext
    }

    pub fn new(id: u32, isotp_ext_addr: bool, data: &[u8]) -> (r: Self)
        ensures
            r.payload() == data@,
            r.frame_id() == id,
            r.isotp_ext() == isotp_ext_addr,
            r.can_ext() == (id > CAN_STD_ID_MAX),
    {
        let mut c = HwIsoTpFrame::default();
        c.ext = isotp_ext_addr;
        c.set_data(data);
        c.set_id(id);
        c
    }

    /// True when the frame uses ISO-TP extended addressing.
    pub fn isotp_ext_addr(&self) -> (r: bool)
        ensures
            r == self.isotp_ext(),
    {
        self.ext
    }

    /// True when the identifier needs 29-bit CAN addressing.
    pub fn can_ext_addr(&self) -> (r: bool)
        ensures
            r == self.can_ext(),
    {
        self.can_ext_addr
    }
}

impl Default for HwIsoTpFrame {
    fn default() -> (r: Self)
        ensures
            r.payload().len() == 0,
            r.frame_id() == 0,
    {
        HwIsoTpFrame { id: 0, can_ext_addr: false, ext: false, data: Vec::new() }
    }
}

impl HwDataFrame for HwIsoTpFrame {
    open spec fn kind() -> AdapterChannel {
        AdapterChannel::IsoTp
    }

    fn channel_kind() -> (r: AdapterChannel) {
        AdapterChannel::IsoTp
    }

    closed spec fn payload(&self) -> Seq<u8> {
        self.data@
    }

    closed spec fn frame_id(&self) -> u32 {
        self.id
    }

    open spec fn stored_payload(data: Seq<u8>) -> Seq<u8> {
        data
    }

    fn set_data(&mut self, data: &[u8])
        ensures
            final(self).isotp_ext() == old(self).isotp_ext(),
            final(self).can_ext() == old(self).can_ext(),
    {
        self.data = vstd::slice::slice_to_vec(data);
    }

    fn get_data(&self) -> (r: &[u8]) {
        self.data.as_slice()
    }

    fn get_id(&self) -> (r: u32) {
        self.id
    }

    fn set_id(&mut self, id: u32)
        ensures
            final(self).can_ext() == (id > CAN_STD_ID_MAX),
            final(self).isotp_ext() == old(self).isotp_ext(),
    {
        self.id = id;
        self.can_ext_addr = id > CAN_STD_ID_MAX;
    }
}

/// A KWP2000 frame carried over LIN: an identifier and a payload of any
/// length, with no addressing flags.
#[derive(Debug, Clone)]
pub struct HwKwpFrame {
    id: u32,
    data: Vec<u8>,
}

impl HwKwpFrame {
    pub fn new(id: u32, data: &[u8]) -> (r: Self)
        ensures
            r.payload() == data@,
            r.frame_id() == id,
    {
        let mut c = HwKwpFrame::default();
        c.set_data(data);
        c.set_id(id);
        c
    }
}

impl Default for HwKwpFrame {
    fn default() -> (r: Self)
        ensures
            r.payload().len() == 0,
            r.frame_id() == 0,
    {
        HwKwpFrame { id: 0, data: Vec::new() }
    }
}

impl HwDataFrame for HwKwpFrame {
    open spec fn kind() -> AdapterChannel {
        AdapterChannel::Kwp
    }

    fn channel_kind() -> (r: AdapterChannel) {
        AdapterChannel::Kwp
    }

    closed spec fn payload(&self) -> Seq<u8> {
        self.data@
    }

    closed spec fn frame_id(&self) -> u32 {
        self.id
    }

    open spec fn stored_payload(data: Seq<u8>) -> Seq<u8> {
        data
    }

    fn set_data(&mut self, data: &[u8]) {
        self.data = vstd::slice::slice_to_vec(data);
    }

    fn get_data(&self) -> (r: &[u8]) {
        self.data.as_slice()
    }

    fn get_id(&self) -> (r: u32) {
        self.id
    }

    fn set_id(&mut self, id: u32) {
        self.id = id;
    }
}

impl Loggable for HWCanFrame {
    open spec fn log_text(&self) -> Seq<char> {
        "CanFrame - ID: 0x"@ + hex_padded(self.frame_id() as nat, 4) + ", Data: "@ + hex_list(self.payload())
    }

    fn to_log_string(&self) -> (r: String) {
        let mut out = "CanFrame - ID: 0x".to_string();
        push_hex(&mut out, self.id, 4);
        out.append(", Data: ");
        push_hex_list(&mut out, self.data.as_slice());
        out
    }
}

impl Loggable for HwIsoTpFrame {
    open spec fn log_text(&self) -> Seq<char> {
        "IsoTPFrame - ID: 0x"@ + hex_padded(self.frame_id() as nat, 4) + ", Ext: "@ + bool_text(self.isotp_ext())
            + ", Data: "@ + hex_list(self.payload())
    }

    fn to_log_string(&self) -> (r: String) {
        let mut out = "IsoTPFrame - ID: 0x".to_string();
        push_hex(&mut out, self.id, 4);
        out.append(", Ext: ");
        push_bool(&mut out, self.ext);
        out.append(", Data: ");
        push_hex_list(&mut out, self.data.as_slice());
        out
    }
}

/// Reading a CAN frame's payload after setting it gives back the bytes set
/// when there are at most eight of them, and their first eight otherwise.
pub proof fn lemma_can_payload_round_trip(data: Seq<u8>)
    ensures
        data.len() <= 8 ==> HWCanFrame::stored_payload(data) == data,
        data.len() > 8 ==> HWCanFrame::stored_payload(data) == data.subrange(0, 8),
        HWCanFrame::stored_payload(data).len() <= 8,
{
}

/// Reading an ISO-TP frame's payload after setting it gives back exactly the
/// bytes set, whatever their number.
pub proof fn lemma_isotp_payload_round_trip(data: Seq<u8>)
    ensures
        HwIsoTpFrame::stored_payload(data) == data,
{
}

} // verus!
