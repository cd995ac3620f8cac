use vstd::prelude::*;
use crate::filters::{admits, filter_matches, lemma_delete_keeps_bound, lemma_delete_removes_id, without_id};
use crate::frames::HwDataFrame;
use crate::hardware::{
    AdapterBuffer, AdapterChannel, AdapterFilter, AdapterHardware, AdapterOp, ChannelFlags,
    HardwareError, HardwareResult, IoctlIdentifier, LinInitType, failure, frame_views, read_outcome,
};

verus! {

broadcast use vstd::string::group_string_axioms;

fn filter_matches_exec(f: AdapterFilter, frame_id: u32) -> (r: bool)
    ensures
        r == filter_matches(f, frame_id),
{
    match f {
        AdapterFilter::Pass { mask, id } => frame_id & mask == id,
        AdapterFilter::Block { mask, id } => frame_id & mask == id,
        AdapterFilter::IsoTP { mask, id, fc } => frame_id & mask == id,
    }
}

fn admits_exec(filters: &Vec<(u32, AdapterFilter)>, frame_id: u32) -> (r: bool)
    ensures
        r == admits(filters@, frame_id),
{
    let mut pass = false;
    let mut block = false;
    let mut i: usize = 0;
    while i < filters.len()
        invariant
            i <= filters@.len(),
            pass == exists|j: int|
                0 <= j < i && !(filters@[j].1 is Block) && #[trigger] filter_matches(
                    filters@[j].1,
                    frame_id,
                ),
            block == exists|j: int|
                0 <= j < i && filters@[j].1 is Block && #[trigger] filter_matches(
                    filters@[j].1,
                    frame_id,
                ),
        decreases filters@.len() - i,
    {
        let f = filters[i].1;
        if filter_matches_exec(f, frame_id) {
            match f {
                AdapterFilter::Block { .. } => {
                    block = true;
                },
                _ => {
                    pass = true;
                },
            }
        }
        i = i + 1;
    }
    pass && !block
}

/// Whether some filter in the list carries the id.
fn has_filter_id(filters: &Vec<(u32, AdapterFilter)>, fid: u32) -> (r: Option<usize>)
    ensures
        r is None ==> forall|k: int| 0 <= k < filters@.len() ==> filters@[k].0 != fid,
        r is Some ==> r->0 < filters@.len() && filters@[r->0 as int].0 == fid,
{
    let mut i: usize = 0;
    while i < filters.len()
        invariant
            i <= filters@.len(),
            forall|k: int| 0 <= k < i ==> filters@[k].0 != fid,
        decreases filters@.len() - i,
    {
        if filters[i].0 == fid {
            return Some(i);
        }
        i = i + 1;
    }
    None
}

/// A frame queued on a simulated channel.
pub struct SimFrame {
    pub id: u32,
    pub data: Vec<u8>,
}

/// Identifier and payload of each queued frame.
pub open spec fn queue_view(q: Seq<SimFrame>) -> Seq<(u32, Seq<u8>)> {
    q.map_values(|f: SimFrame| (f.id, f.data@))
}

/// A logical channel of the simulation backend.
pub struct SimChannel {
    pub kind: AdapterChannel,
    pub open: bool,
    /// Installed filters with their ids.
    pub filters: Vec<(u32, AdapterFilter)>,
    /// Id that the next filter will get.
    pub next_filter_id: u32,
    /// Inbound frames waiting to be read.
    pub rx: Vec<SimFrame>,
}

/// A software adapter: frames written on a channel kind come back, through
/// each open channel's filters, on every open channel of that kind.
pub struct SimulationAdapter {
    device_open: bool,
    channels: Vec<SimChannel>,
    fault: Option<SimFault>,
    opens: u32,
    log: Ghost<Seq<AdapterOp>>,
}

/// A failure that the simulation can be told to produce on the next call of
/// one operation.
#[derive(Debug, Copy, Clone, PartialEq, Eq, Structural)]
pub enum SimFault {
    CloseDevice,
    WriteData,
}

/// Supply voltage that the simulated adapter reports, in millivolts.
pub const SIM_VOLTAGE_MV: u32 = 12000;

impl SimulationAdapter {
    pub closed spec fn is_open(&self) -> bool {
        self.device_open
    }

    /// Every channel ever opened since the device was opened; a channel's
    /// id is its position plus one.
    pub closed spec fn chans(&self) -> Seq<SimChannel> {
        self.channels@
    }

    pub closed spec fn pending_fault(&self) -> Option<SimFault> {
        self.fault
    }

    pub closed spec fn open_count(&self) -> u32 {
        self.opens
    }

    /// Makes the next call of the operation fail.
    pub fn fail_next(&mut self, fault: SimFault)
        ensures
            old(self).wf() ==> final(self).wf(),
            final(self).pending_fault() == Some(fault),
            final(self).is_open() == old(self).is_open(),
            final(self).chans() == old(self).chans(),
            final(self).open_count() == old(self).open_count(),
            final(self).history() == old(self).history(),
    {
        self.fault = Some(fault);
    }

    /// Number of `open_device` calls made (saturating).
    pub fn device_opens(&self) -> (r: u32)
        ensures
            r == self.open_count(),
    {
        self.opens
    }

    /// Every installed filter's id is below the id that its channel hands
    /// out next, so the next id is fresh.
    pub open spec fn wf(&self) -> bool {
        forall|c: int, k: int|
            0 <= c < self.chans().len() && 0 <= k < self.chans()[c].filters@.len() ==> #[trigger] self.chans()[c].filters@[k].0
                < self.chans()[c].next_filter_id
    }

    pub open spec fn channel_open(&self, id: u32) -> bool {
        1 <= id <= self.chans().len() && self.chans()[id - 1].open
    }

    pub open spec fn filters_of(&self, id: u32) -> Seq<(u32, AdapterFilter)> {
        self.chans()[id - 1].filters@
    }

    pub open spec fn queue_of(&self, id: u32) -> Seq<(u32, Seq<u8>)> {
        queue_view(self.chans()[id - 1].rx@)
    }

    pub fn new() -> (r: Self)
        ensures
            !r.is_open(),
            r.chans().len() == 0,
            r.history().len() == 0,
            r.pending_fault() is None,
            r.open_count() == 0,
            r.wf(),
    {
        SimulationAdapter { device_open: false, channels: Vec::new(), fault: None, opens: 0, log: Ghost(Seq::empty()) }
    }

    /// Index of the open channel with this id.
    fn channel_index(&self, id: u32) -> (r: Option<usize>)
        ensures
            r is Some <==> self.channel_open(id),
            r is Some ==> r->0 == id - 1,
    {
        if id >= 1 && ((id - 1) as usize) < self.channels.len() && self.channels[(id - 1) as usize].open {
            Some((id - 1) as usize)
        } else {
            None
        }
    }
}

fn not_open_error() -> (r: HardwareError) {
    HardwareError::Other("device is not open".to_string())
}

fn unknown_channel_error() -> (r: HardwareError) {
    HardwareError::Other("unknown channel".to_string())
}

fn remove_filter_id(filters: &Vec<(u32, AdapterFilter)>, fid: u32) -> (r: Vec<(u32, AdapterFilter)>)
    ensures
        r@ == without_id(filters@, fid),
{
    let mut out: Vec<(u32, AdapterFilter)> = Vec::new();
    let mut i: usize = 0;
    while i < filters.len()
        invariant
            i <= filters@.len(),
            out@ == without_id(filters@.subrange(0, i as int), fid),
        decreases filters@.len() - i,
    {
        assert(filters@.subrange(0, i + 1).drop_last() == filters@.subrange(0, i as int));
        let f = filters[i];
        if f.0 != fid {
            out.push(f);
        }
        i = i + 1;
    }
    assert(filters@.subrange(0, filters@.len() as int) == filters@);
    out
}

/// The channel, among `chans`, whose queue a read of `kind` drains: the
/// open channel of that kind with the lowest id.
pub open spec fn is_read_channel(chans: Seq<SimChannel>, kind: AdapterChannel, i: int) -> bool {
    &&& 0 <= i < chans.len()
    &&& chans[i].open
    &&& chans[i].kind == kind
    &&& forall|j: int| 0 <= j < i ==> !(chans[j].open && chans[j].kind == kind)
}

/// What a channel receives of a frame of `kind` sent on the bus.
pub open spec fn receives(c: SimChannel, kind: AdapterChannel, frame_id: u32) -> bool {
    c.open && c.kind == kind && admits(c.filters@, frame_id)
}

/// What a channel queues of frames of `kind` written in turn: those it
/// admits, in order.
pub open spec fn delivered<T: HwDataFrame>(c: SimChannel, kind: AdapterChannel, frames: Seq<T>) -> Seq<(u32, Seq<u8>)>
    decreases frames.len(),
{
    if frames.len() == 0 {
        Seq::empty()
    } else {
        let rest = delivered(c, kind, frames.drop_last());
        let f = frames.last();
        if receives(c, kind, f.frame_id()) {
            rest.push((f.frame_id(), f.payload()))
        } else {
            rest
        }
    }
}

/// A channel as it stands after a frame went by: the same but for its queue.
pub open spec fn same_but_queue(a: SimChannel, b: SimChannel) -> bool {
    &&& a.kind == b.kind
    &&& a.open == b.open
    &&& a.filters@ == b.filters@
    &&& a.next_filter_id == b.next_filter_id
}

impl SimulationAdapter {
    /// Puts a frame of `kind` on the simulated bus: every open channel of that
    /// kind whose filters admit the identifier queues it.
    pub fn inject_frame(&mut self, kind: AdapterChannel, frame_id: u32, data: &[u8])
        ensures
            old(self).wf() ==> final(self).wf(),
            final(self).is_open() == old(self).is_open(),
            final(self).history() == old(self).history(),
            final(self).open_count() == old(self).open_count(),
            final(self).pending_fault() == old(self).pending_fault(),
            final(self).chans().len() == old(self).chans().len(),
            forall|c: int|
                0 <= c < old(self).chans().len() ==> {
                    let a = old(self).chans()[c];
                    let b = #[trigger] final(self).chans()[c];
                    &&& same_but_queue(a, b)
                    &&& queue_view(b.rx@) == if receives(a, kind, frame_id) {
                        queue_view(a.rx@).push((frame_id, data@))
                    } else {
                        queue_view(a.rx@)
                    }
                },
    {
        let mut i: usize = 0;
        while i < self.channels.len()
            invariant
                i <= self.channels@.len(),
                self.device_open == old(self).device_open,
                self.opens == old(self).opens,
                self.fault == old(self).fault,
                self.log == old(self).log,
                self.channels@.len() == old(self).channels@.len(),
                forall|c: int|
                    0 <= c < self.channels@.len() ==> {
                        let a = old(self).channels@[c];
                        let b = #[trigger] self.channels@[c];
                        &&& same_but_queue(a, b)
                        &&& queue_view(b.rx@) == if c < i && receives(a, kind, frame_id) {
                            queue_view(a.rx@).push((frame_id, data@))
                        } else {
                            queue_view(a.rx@)
                        }
                    },
            decreases self.channels@.len() - i,
        {
            let deliver = self.channels[i].open && self.channels[i].kind == kind && admits_exec(
                &self.channels[i].filters,
                frame_id,
            );
            if deliver {
                let frame = SimFrame { id: frame_id, data: vstd::slice::slice_to_vec(data) };
                let ghost before = self.channels@[i as int].rx@;
                self.channels[i].rx.push(frame);
                assert(queue_view(self.channels@[i as int].rx@) =~= queue_view(before).push((frame_id, data@)));
            }
            i = i + 1;
        }
    }
}

impl SimulationAdapter {
    /// Index of the channel that a read of `kind` drains.
    fn read_channel_index(&self, kind: AdapterChannel) -> (r: Option<usize>)
        ensures
            r is Some ==> is_read_channel(self.chans(), kind, r->0 as int),
            r is None ==> forall|j: int|
                0 <= j < self.chans().len() ==> !(#[trigger] self.chans()[j].open && self.chans()[j].kind == kind),
    {
        let mut i: usize = 0;
        while i < self.channels.len()
            invariant
                i <= self.channels@.len(),
                forall|j: int| 0 <= j < i ==> !(#[trigger] self.channels@[j].open && self.channels@[j].kind == kind),
            decreases self.channels@.len() - i,
        {
            if self.channels[i].open && self.channels[i].kind == kind {
                return Some(i);
            }
            i = i + 1;
        }
        None
    }

    /// Takes up to `max_read` frames from the front of channel `idx`'s queue.
    fn take_frames<T: HwDataFrame>(&mut self, idx: usize, max_read: usize) -> (r: Vec<T>)
        requires
            idx < old(self).chans().len(),
        ensures
            final(self).is_open() == old(self).is_open(),
            final(self).log == old(self).log,
            final(self).chans().len() == old(self).chans().len(),
            forall|c: int|
                0 <= c < old(self).chans().len() && c != idx ==> #[trigger] final(self).chans()[c] == old(self).chans()[c],
            same_but_queue(old(self).chans()[idx as int], final(self).chans()[idx as int]),
            ({
                let q = queue_view(old(self).chans()[idx as int].rx@);
                let n = if max_read < q.len() { max_read as int } else { q.len() as int };
                &&& r@.len() == n
                &&& queue_view(final(self).chans()[idx as int].rx@) == q.subrange(n, q.len() as int)
                &&& forall|k: int| 0 <= k < n ==> {
                    &&& (#[trigger] r@[k]).frame_id() == q[k].0
                    &&& r@[k].payload() == T::stored_payload(q[k].1)
                }
            }),
    {
        let ghost q = queue_view(self.channels@[idx as int].rx@);
        let n: usize = if max_read < self.channels[idx].rx.len() {
            max_read
        } else {
            self.channels[idx].rx.len()
        };
        let mut out: Vec<T> = Vec::new();
        let mut k: usize = 0;
        while k < n
            invariant
                k <= n,
                n <= q.len(),
                idx < self.channels@.len(),
                self.device_open == old(self).device_open,
                self.log == old(self).log,
                self.channels@.len() == old(self).channels@.len(),
                forall|c: int|
                    0 <= c < old(self).chans().len() && c != idx ==> #[trigger] self.channels@[c] == old(self).channels@[c],
                same_but_queue(old(self).channels@[idx as int], self.channels@[idx as int]),
                queue_view(self.channels@[idx as int].rx@) == q.subrange(k as int, q.len() as int),
                out@.len() == k,
                forall|j: int| 0 <= j < k ==> {
                    &&& (#[trigger] out@[j]).frame_id() == q[j].0
                    &&& out@[j].payload() == T::stored_payload(q[j].1)
                },
            decreases n - k,
        {
            let ghost before = self.channels@[idx as int].rx@;
            assert(queue_view(before).len() == before.len());
            assert(queue_view(before)[0] == q[k as int]);
            let f = self.channels[idx].rx.remove(0);
            assert(self.channels@[idx as int].rx@ == before.remove(0));
            assert forall|j: int| 0 <= j < before.len() - 1 implies #[trigger] queue_view(before.remove(0))[j] == q[k + 1 + j] by {
                assert(before.remove(0)[j] == before[j + 1]);
                assert(queue_view(before)[j + 1] == q[k + 1 + j]);
            }
            assert(queue_view(self.channels@[idx as int].rx@) =~= q.subrange(k + 1, q.len() as int));
            assert(f.id == q[k as int].0 && f.data@ == q[k as int].1);
            let mut t = T::default();
            t.set_data(f.data.as_slice());
            t.set_id(f.id);
            out.push(t);
            k = k + 1;
        }
        out
    }
}

impl AdapterHardware for SimulationAdapter {
    closed spec fn history(&self) -> Seq<AdapterOp> {
        self.log@
    }

    open spec fn channel_filters(&self, channel_id: u32) -> Seq<(u32, AdapterFilter)> {
        self.filters_of(channel_id)
    }

    fn open_device(&mut self) -> (r: HardwareResult<()>)
        ensures
            old(self).wf() ==> final(self).wf(),
            r is Ok,
            final(self).is_open(),
            old(self).is_open() ==> final(self).chans() == old(self).chans(),
            !old(self).is_open() ==> final(self).chans().len() == 0,
            final(self).pending_fault() == old(self).pending_fault(),
            final(self).open_count() == if old(self).open_count() < u32::MAX {
                (old(self).open_count() + 1) as u32
            } else {
                old(self).open_count()
            },
    {
        if self.opens < u32::MAX {
            self.opens = self.opens + 1;
        }
        if !self.device_open {
            self.channels = Vec::new();
            self.device_open = true;
        }
        let r: HardwareResult<()> = Ok(());
        self.log = Ghost(self.log@.push(AdapterOp::OpenDevice { error: failure(r) }));
        r
    }

    fn close_device(&mut self) -> (r: HardwareResult<()>)
        ensures
            old(self).wf() ==> final(self).wf(),
            r is Err <==> old(self).pending_fault() == Some(SimFault::CloseDevice),
            r is Err ==> final(self).is_open() == old(self).is_open() && final(self).chans() == old(self).chans()
                && final(self).pending_fault() is None,
            r is Ok ==> !final(self).is_open() && final(self).chans().len() == 0
                && final(self).pending_fault() == old(self).pending_fault(),
            final(self).open_count() == old(self).open_count(),
    {
        let r: HardwareResult<()> = if self.fault == Some(SimFault::CloseDevice) {
            self.fault = None;
            Err(HardwareError::Other("simulated close failure".to_string()))
        } else {
            self.channels = Vec::new();
            self.device_open = false;
            Ok(())
        };
        self.log = Ghost(self.log@.push(AdapterOp::CloseDevice { error: failure(r) }));
        r
    }

    fn read_voltage(&mut self) -> (r: HardwareResult<u32>)
        ensures
            old(self).wf() ==> final(self).wf(),
            r is Ok <==> old(self).is_open(),
            r is Ok ==> r->Ok_0 == SIM_VOLTAGE_MV,
            final(self).is_open() == old(self).is_open(),
            final(self).chans() == old(self).chans(),
    {
        let r = if self.device_open {
            Ok(SIM_VOLTAGE_MV)
        } else {
            Err(not_open_error())
        };
        self.log = Ghost(self.log@.push(AdapterOp::ReadVoltage { outcome: r }));
        r
    }

    fn open_channel(&mut self, channel_type: AdapterChannel) -> (r: HardwareResult<u32>)
        ensures
            old(self).wf() ==> final(self).wf(),
            r is Ok <==> old(self).is_open() && old(self).chans().len() < u32::MAX,
            final(self).is_open() == old(self).is_open(),
            r is Err ==> final(self).chans() == old(self).chans(),
            r is Ok ==> {
                let id = r->Ok_0;
                &&& id == old(self).chans().len() + 1
                &&& final(self).chans().len() == id
                &&& forall|c: int| 0 <= c < old(self).chans().len() ==> #[trigger] final(self).chans()[c] == old(self).chans()[c]
                &&& final(self).channel_open(id)
                &&& final(self).chans()[id - 1].kind == channel_type
                &&& final(self).filters_of(id) == Seq::<(u32, AdapterFilter)>::empty()
                &&& final(self).queue_of(id).len() == 0
            },
    {
        let r = if !self.device_open {
            Err(not_open_error())
        } else if self.channels.len() >= u32::MAX as usize {
            Err(HardwareError::Other("too many channels".to_string()))
        } else {
            self.channels.push(SimChannel {
                kind: channel_type,
                open: true,
                filters: Vec::new(),
                next_filter_id: 1,
                rx: Vec::new(),
            });
            Ok(self.channels.len() as u32)
        };
        self.log = Ghost(self.log@.push(AdapterOp::OpenChannel { kind: channel_type, outcome: r }));
        r
    }

    fn close_channel(&mut self, id: u32) -> (r: HardwareResult<()>)
        ensures
            old(self).wf() ==> final(self).wf(),
            r is Ok <==> old(self).channel_open(id),
            final(self).is_open() == old(self).is_open(),
            final(self).chans().len() == old(self).chans().len(),
            r is Err ==> final(self).chans() == old(self).chans(),
            r is Ok ==> {
                &&& !final(self).channel_open(id)
                &&& final(self).filters_of(id) == Seq::<(u32, AdapterFilter)>::empty()
                &&& final(self).queue_of(id).len() == 0
                &&& forall|c: int|
                    0 <= c < old(self).chans().len() && c != id - 1 ==> #[trigger] final(self).chans()[c] == old(self).chans()[c]
            },
    {
        let r = match self.channel_index(id) {
            None => Err(unknown_channel_error()),
            Some(idx) => {
                self.channels[idx].open = false;
                self.channels[idx].filters = Vec::new();
                self.channels[idx].rx = Vec::new();
                Ok(())
            },
        };
        self.log = Ghost(self.log@.push(AdapterOp::CloseChannel { channel_id: id, error: failure(r) }));
        r
    }

    fn add_channel_filter(
        &mut self,
        channel_id: u32,
        filter: AdapterFilter,
        baud: u32,
        flags: &[ChannelFlags],
    ) -> (r: HardwareResult<u32>)
        ensures
            old(self).wf() ==> final(self).wf(),
            final(self).is_open() == old(self).is_open(),
            final(self).chans().len() == old(self).chans().len(),
            old(self).wf() ==> (r is Ok <==> old(self).channel_open(channel_id)
                && old(self).chans()[channel_id - 1].next_filter_id < u32::MAX),
            !old(self).channel_open(channel_id) ==> r is Err,
            r is Err ==> final(self).chans() == old(self).chans(),
            r is Ok ==> {
                let fid = r->Ok_0;
                &&& old(self).channel_open(channel_id)
                &&& final(self).channel_open(channel_id)
                &&& forall|k: int| 0 <= k < old(self).filters_of(channel_id).len() ==> #[trigger] old(self).filters_of(channel_id)[k].0 != fid
                &&& final(self).filters_of(channel_id) == old(self).filters_of(channel_id).push((fid, filter))
                &&& final(self).queue_of(channel_id) == old(self).queue_of(channel_id)
                &&& forall|c: int|
                    0 <= c < old(self).chans().len() && c != channel_id - 1 ==> #[trigger] final(self).chans()[c] == old(self).chans()[c]
            },
    {
        let r = match self.channel_index(channel_id) {
            None => Err(unknown_channel_error()),
            Some(idx) => {
                let fid = self.channels[idx].next_filter_id;
                if fid == u32::MAX {
                    Err(HardwareError::Other("too many filters".to_string()))
                } else if has_filter_id(&self.channels[idx].filters, fid).is_some() {
                    Err(HardwareError::Other("filter id in use".to_string()))
                } else {
                    self.channels[idx].filters.push((fid, filter));
                    self.channels[idx].next_filter_id = fid + 1;
                    Ok(fid)
                }
            },
        };
        self.log = Ghost(self.log@.push(
            AdapterOp::AddFilter { channel_id, filter, baud, flags: flags@, outcome: r },
        ));
        r
    }

    fn del_channel_filter(&mut self, channel_id: u32, filter_id: u32) -> (r: HardwareResult<u32>)
        ensures
            old(self).wf() ==> final(self).wf(),
            final(self).is_open() == old(self).is_open(),
            final(self).chans().len() == old(self).chans().len(),
            r is Ok <==> old(self).channel_open(channel_id) && exists|k: int|
                0 <= k < old(self).filters_of(channel_id).len() && #[trigger] old(self).filters_of(channel_id)[k].0 == filter_id,
            r is Err ==> final(self).chans() == old(self).chans(),
            r is Ok ==> {
                &&& r->Ok_0 == filter_id
                &&& final(self).channel_open(channel_id)
                &&& final(self).filters_of(channel_id) == without_id(old(self).filters_of(channel_id), filter_id)
                &&& forall|k: int|
                    0 <= k < final(self).filters_of(channel_id).len() ==> #[trigger] final(self).filters_of(channel_id)[k].0 != filter_id
                &&& final(self).queue_of(channel_id) == old(self).queue_of(channel_id)
                &&& forall|c: int|
                    0 <= c < old(self).chans().len() && c != channel_id - 1 ==> #[trigger] final(self).chans()[c] == old(self).chans()[c]
            },
    {
        let r = match self.channel_index(channel_id) {
            None => Err(unknown_channel_error()),
            Some(idx) => {
                let found = has_filter_id(&self.channels[idx].filters, filter_id);
                if found.is_none() {
                    Err(HardwareError::Other("unknown filter".to_string()))
                } else {
                    assert(old(self).filters_of(channel_id)[found->0 as int].0 == filter_id);
                    let kept = remove_filter_id(&self.channels[idx].filters, filter_id);
                    proof {
                        lemma_delete_removes_id(old(self).filters_of(channel_id), filter_id);
                        if old(self).wf() {
                            lemma_delete_keeps_bound(
                                old(self).filters_of(channel_id),
                                filter_id,
                                old(self).chans()[idx as int].next_filter_id,
                            );
                        }
                    }
                    self.channels[idx].filters = kept;
                    Ok(filter_id)
                }
            },
        };
        self.log = Ghost(self.log@.push(AdapterOp::DelFilter { channel_id, filter_id, outcome: r }));
        r
    }

    fn clear_channel_buffer(&mut self, channel_id: u32, buffer: AdapterBuffer) -> (r: HardwareResult<()>)
        ensures
            old(self).wf() ==> final(self).wf(),
            r is Ok <==> old(self).channel_open(channel_id),
            final(self).is_open() == old(self).is_open(),
            final(self).chans().len() == old(self).chans().len(),
            r is Err ==> final(self).chans() == old(self).chans(),
            r is Ok ==> {
                &&& same_but_queue(old(self).chans()[channel_id - 1], final(self).chans()[channel_id - 1])
                &&& final(self).queue_of(channel_id) == if buffer == AdapterBuffer::Output {
                    old(self).queue_of(channel_id)
                } else {
                    Seq::empty()
                }
                &&& forall|c: int|
                    0 <= c < old(self).chans().len() && c != channel_id - 1 ==> #[trigger] final(self).chans()[c] == old(self).chans()[c]
            },
    {
        let r = match self.channel_index(channel_id) {
            None => Err(unknown_channel_error()),
            Some(idx) => {
                match buffer {
                    AdapterBuffer::Output => {},
                    _ => {
                        self.channels[idx].rx = Vec::new();
                        assert(queue_view(self.channels@[idx as int].rx@) =~= Seq::empty());
                    },
                }
                Ok(())
            },
        };
        self.log = Ghost(self.log@.push(AdapterOp::ClearBuffer { channel_id, buffer, error: failure(r) }));
        r
    }

    fn read_data<T: HwDataFrame>(&mut self, max_read: usize, timeout_ms: u128) -> (r: HardwareResult<Vec<T>>)
        ensures
            old(self).wf() ==> final(self).wf(),
            final(self).is_open() == old(self).is_open(),
            final(self).chans().len() == old(self).chans().len(),
            r is Err ==> final(self).chans() == old(self).chans(),
            forall|i: int| #[trigger] is_read_channel(old(self).chans(), T::kind(), i) && old(self).is_open() ==> {
                let q = queue_view(old(self).chans()[i].rx@);
                let n = if max_read < q.len() { max_read as int } else { q.len() as int };
                &&& r is Ok
                &&& r->Ok_0@.len() == n
                &&& queue_view(final(self).chans()[i].rx@) == q.subrange(n, q.len() as int)
                &&& forall|k: int| 0 <= k < n ==> {
                    &&& (#[trigger] r->Ok_0@[k]).frame_id() == q[k].0
                    &&& r->Ok_0@[k].payload() == T::stored_payload(q[k].1)
                }
            },
    {
        let r = if !self.device_open {
            Err(not_open_error())
        } else {
            match self.read_channel_index(T::channel_kind()) {
                None => Err(unknown_channel_error()),
                Some(idx) => Ok(self.take_frames::<T>(idx, max_read)),
            }
        };
        self.log = Ghost(self.log@.push(AdapterOp::ReadData { max_read, timeout_ms, outcome: read_outcome(r) }));
        r
    }

    fn write_data<T: HwDataFrame>(&mut self, input: &[T], timeout_ms: u128) -> (r: HardwareResult<()>)
        ensures
            old(self).wf() ==> final(self).wf(),
            r is Ok <==> old(self).is_open() && old(self).pending_fault() != Some(SimFault::WriteData),
            r is Err ==> final(self).chans() == old(self).chans(),
            final(self).is_open() == old(self).is_open(),
            final(self).open_count() == old(self).open_count(),
            final(self).chans().len() == old(self).chans().len(),
            r is Ok ==> forall|c: int|
                0 <= c < old(self).chans().len() ==> {
                    let a = old(self).chans()[c];
                    let b = #[trigger] final(self).chans()[c];
                    &&& same_but_queue(a, b)
                    &&& queue_view(b.rx@) == queue_view(a.rx@) + delivered(a, T::kind(), input@)
                },
    {
        let r = if !self.device_open {
            Err(not_open_error())
        } else if self.fault == Some(SimFault::WriteData) {
            self.fault = None;
            Err(HardwareError::Other("simulated write failure".to_string()))
        } else {
            let kind = T::channel_kind();
            let mut i: usize = 0;
            while i < input.len()
                invariant
                    i <= input@.len(),
                    kind == T::kind(),
                    self.device_open == old(self).device_open,
                    self.opens == old(self).opens,
                    self.log == old(self).log,
                    self.channels@.len() == old(self).channels@.len(),
                    forall|c: int|
                        0 <= c < old(self).channels@.len() ==> {
                            let a = old(self).channels@[c];
                            let b = #[trigger] self.channels@[c];
                            &&& same_but_queue(a, b)
                            &&& queue_view(b.rx@) == queue_view(a.rx@) + delivered(a, kind, input@.subrange(0, i as int))
                        },
                decreases input@.len() - i,
            {
                let f = &input[i];
                let ghost before = self.channels@;
                self.inject_frame(kind, f.get_id(), f.get_data());
                assert forall|c: int| 0 <= c < old(self).channels@.len() implies {
                    let a = old(self).channels@[c];
                    let b = #[trigger] self.channels@[c];
                    &&& same_but_queue(a, b)
                    &&& queue_view(b.rx@) == queue_view(a.rx@) + delivered(a, kind, input@.subrange(0, i + 1))
                } by {
                    let a = old(self).channels@[c];
                    let m = before[c];
                    let b = self.channels@[c];
                    assert(input@.subrange(0, i + 1).drop_last() =~= input@.subrange(0, i as int));
                    assert(input@.subrange(0, i + 1).last() == input@[i as int]);
                    assert(receives(m, kind, f.frame_id()) == receives(a, kind, f.frame_id()));
                    if receives(a, kind, f.frame_id()) {
                        assert(queue_view(b.rx@) =~= queue_view(a.rx@) + delivered(a, kind, input@.subrange(0, i + 1)));
                    } else {
                        assert(queue_view(b.rx@) =~= queue_view(a.rx@) + delivered(a, kind, input@.subrange(0, i + 1)));
                    }
                }
                i = i + 1;
            }
            assert(input@.subrange(0, input@.len() as int) =~= input@);
            Ok(())
        };
        self.log = Ghost(self.log@.push(
            AdapterOp::WriteData { frames: frame_views(input@), timeout_ms, error: failure(r) },
        ));
        r
    }

    fn channel_set_ioctl(channel_id: u32, param: IoctlIdentifier) -> (r: HardwareResult<()>)
        ensures
            r is Err,
    {
        Err(HardwareError::Other("not supported by the simulation".to_string()))
    }

    fn channel_get_ioctl(channel_id: u32, param: &mut IoctlIdentifier) -> (r: HardwareResult<()>)
        ensures
            r is Err,
            *final(param) == *old(param),
    {
        Err(HardwareError::Other("not supported by the simulation".to_string()))
    }

    fn channel_lin_init(channel_id: u32, init_type: &mut LinInitType) -> (r: HardwareResult<()>)
        ensures
            r is Err,
    {
        Err(HardwareError::Other("not supported by the simulation".to_string()))
    }
}

} // verus!
