use vstd::prelude::*;

use crate::history::header::{header_of, HistoryHeader, HISTORY_HEADER_SIZE};
use crate::history::readings::{request_bytes, HistoryRequest};
use crate::protocol::{le16_at, width_of, LogParameter};

verus! {

/// What a channel pull does with a packet too short to hold a page header.
#[derive(Debug, Clone, Copy, PartialEq, Eq, Structural)]
pub enum OnShortPacket {
    /// The pull fails with a protocol error.
    Fail,
    /// The channel ends with what was gathered so far.
    StopCleanly,
}

/// Where a channel pull stands.
#[derive(Debug, Clone, Copy, PartialEq, Eq, Structural)]
pub enum PullStatus {
    /// More pages are wanted: read another packet.
    Pulling,
    /// The channel ended normally.
    Finished,
    /// The channel broke the paging protocol.
    Failed,
    /// Reading from the transport failed.
    ReadFailed,
}

/// End of the sample region of a page: `min(10 + n × width, len)`.
pub open spec fn region_end(p: LogParameter, len: int, n: int) -> int {
    let full = 10 + n * width_of(p);
    if full < len {
        full
    } else {
        len
    }
}

/// Number of whole samples between the header and the region end.
pub open spec fn page_sample_count(p: LogParameter, len: int, n: int) -> int {
    (region_end(p, len, n) - 10) / (width_of(p) as int)
}

/// Sample `i` of a page: one byte for humidity, else a little-endian `u16`.
pub open spec fn sample_at(p: LogParameter, b: Seq<u8>, i: int) -> u16 {
    if width_of(p) == 1 {
        b[10 + i] as u16
    } else {
        le16_at(b, 10 + 2 * i) as u16
    }
}

/// The samples that a page declaring `n` of them holds, as far as the
/// packet's bytes reach.
pub open spec fn page_samples(p: LogParameter, b: Seq<u8>, n: int) -> Seq<u16> {
    Seq::new(page_sample_count(p, b.len() as int, n) as nat, |i: int| sample_at(p, b, i))
}

/// Status after a packet reaches a pull that is still pulling.
pub open spec fn packet_status(policy: OnShortPacket, b: Seq<u8>) -> PullStatus {
    if b.len() < 10 {
        match policy {
            OnShortPacket::Fail => PullStatus::Failed,
            OnShortPacket::StopCleanly => PullStatus::Finished,
        }
    } else {
        match header_of(b) {
            Some(h) => if h.num_measurements == 0 {
                PullStatus::Finished
            } else {
                PullStatus::Pulling
            },
            None => PullStatus::Finished,
        }
    }
}

/// Samples a packet adds to a pull that is still pulling.
pub open spec fn packet_samples(p: LogParameter, policy: OnShortPacket, b: Seq<u8>) -> Seq<u16> {
    if packet_status(policy, b) == PullStatus::Pulling {
        page_samples(p, b, header_of(b).unwrap().num_measurements as int)
    } else {
        Seq::empty()
    }
}

/// The first header kept after a packet reaches a pull that is still pulling.
pub open spec fn kept_header(
    first: Option<HistoryHeader>,
    policy: OnShortPacket,
    b: Seq<u8>,
) -> Option<HistoryHeader> {
    if first is None && packet_status(policy, b) == PullStatus::Pulling {
        header_of(b)
    } else {
        first
    }
}

/// Appends to `out` the samples of the page in `packet` that declares
/// `num` of them, stopping where the packet's bytes end.
pub fn decode_page(parameter: LogParameter, packet: &[u8], num: u8, out: &mut Vec<u16>)
    requires
        packet@.len() >= 10,
    ensures
        final(out)@ == old(out)@ + page_samples(parameter, packet@, num as int),
{
    let width = parameter.sample_width();
    let len = packet.len();
    let full: usize = HISTORY_HEADER_SIZE + (num as usize) * width;
    let end: usize = if full < len {
        full
    } else {
        len
    };
    let count: usize = (end - HISTORY_HEADER_SIZE) / width;
    let ghost want = page_samples(parameter, packet@, num as int);
    assert(count == want.len());
    let mut i: usize = 0;
    while i < count
        invariant
            i <= count,
            count == want.len(),
            want == page_samples(parameter, packet@, num as int),
            width == width_of(parameter),
            count * width + 10 <= packet@.len(),
            out@ == old(out)@ + want.subrange(0, i as int),
        decreases count - i,
    {
        assert((i + 1) * width <= count * width) by (nonlinear_arith)
            requires
                i < count,
                width >= 1,
        ;
        let v: u16 = if width == 1 {
            packet[HISTORY_HEADER_SIZE + i] as u16
        } else {
            crate::protocol::read_u16_le(packet, HISTORY_HEADER_SIZE + 2 * i)
        };
        out.push(v);
        i = i + 1;
        assert(want.subrange(0, i as int) =~= want.subrange(0, i - 1).push(v));
    }
    assert(want.subrange(0, count as int) =~= want);
}

/// The pull of one history channel: feed it the packets read from the
/// history characteristic until it stops pulling.
pub struct ChannelPull {
    pub parameter: LogParameter,
    pub on_short_packet: OnShortPacket,
    pub status: PullStatus,
    /// The first page header seen with samples on it.
    pub first_header: Option<HistoryHeader>,
    /// Raw samples gathered so far, in page order.
    pub samples: Vec<u16>,
}

/// Policy for short packets that each channel has by default: fatal for
/// temperature, a clean end for the others.
pub open spec fn default_policy(p: LogParameter) -> OnShortPacket {
    if p == LogParameter::Temperature {
        OnShortPacket::Fail
    } else {
        OnShortPacket::StopCleanly
    }
}

/// What a channel pull has gathered: its status, the first header kept,
/// and the samples so far.
pub type PullModel = (PullStatus, Option<HistoryHeader>, Seq<u16>);

/// The model of a pull.
pub open spec fn model(c: ChannelPull) -> PullModel {
    (c.status, c.first_header, c.samples@)
}

/// The model of a pull that has seen nothing yet.
pub open spec fn fresh_model() -> PullModel {
    (PullStatus::Pulling, None, Seq::empty())
}

/// One packet given to a pull of `p` with short-packet policy `policy`: a
/// pull that has stopped keeps its state, one still pulling takes the packet.
pub open spec fn step_model(
    p: LogParameter,
    policy: OnShortPacket,
    st: PullModel,
    b: Seq<u8>,
) -> PullModel {
    if st.0 != PullStatus::Pulling {
        st
    } else {
        (packet_status(policy, b), kept_header(st.1, policy, b), st.2 + packet_samples(p, policy, b))
    }
}

/// The packets `pk` given one after another.
pub open spec fn run_packets(
    p: LogParameter,
    policy: OnShortPacket,
    st: PullModel,
    pk: Seq<Seq<u8>>,
) -> PullModel
    decreases pk.len(),
{
    if pk.len() == 0 {
        st
    } else {
        step_model(p, policy, run_packets(p, policy, st, pk.drop_last()), pk.last())
    }
}

/// How a pull changes when it is given the packet `b` (see
/// [`ChannelPull::on_packet`]).
pub open spec fn packet_taken(before: ChannelPull, after: ChannelPull, b: Seq<u8>) -> bool {
    &&& after.parameter == before.parameter
    &&& after.on_short_packet == before.on_short_packet
    &&& model(after) == step_model(before.parameter, before.on_short_packet, model(before), b)
}

/// How a pull changes when a read fails (see [`ChannelPull::on_read_failed`]):
/// one still pulling stops with a transport failure.
pub open spec fn read_failure_taken(before: ChannelPull, after: ChannelPull) -> bool {
    &&& after.parameter == before.parameter
    &&& after.on_short_packet == before.on_short_packet
    &&& after.first_header == before.first_header
    &&& after.samples@ == before.samples@
    &&& after.status == (if before.status == PullStatus::Pulling {
        PullStatus::ReadFailed
    } else {
        before.status
    })
}

/// The packets as byte sequences.
pub open spec fn packet_views(pk: Seq<Vec<u8>>) -> Seq<Seq<u8>> {
    pk.map_values(|v: Vec<u8>| v@)
}

/// Whether `c` is a pull of `p` that has seen nothing yet and has its
/// default policy.
pub open spec fn is_fresh(c: ChannelPull, p: LogParameter) -> bool {
    &&& c.parameter == p
    &&& c.on_short_packet == default_policy(p)
    &&& c.status == PullStatus::Pulling
    &&& c.first_header is None
    &&& c.samples@.len() == 0
}

impl ChannelPull {
    /// A fresh pull of `parameter` with its default short-packet policy.
    pub fn new(parameter: LogParameter) -> (r: ChannelPull)
        ensures
            is_fresh(r, parameter),
    {
        let policy = match parameter {
            LogParameter::Temperature => OnShortPacket::Fail,
            _ => OnShortPacket::StopCleanly,
        };
        ChannelPull::with_policy(parameter, policy)
    }

    /// A fresh pull of `parameter` that treats short packets by `policy`.
    pub fn with_policy(parameter: LogParameter, policy: OnShortPacket) -> (r: ChannelPull)
        ensures
            r.parameter == parameter,
            r.on_short_packet == policy,
            r.status == PullStatus::Pulling,
            r.first_header is None,
            r.samples@.len() == 0,
    {
        ChannelPull {
            parameter,
            on_short_packet: policy,
            status: PullStatus::Pulling,
            first_header: None,
            samples: Vec::new(),
        }
    }

    /// The request that starts this channel: always from the first index.
    pub fn request(&self) -> (r: Vec<u8>)
        ensures
            r@ == request_bytes(HistoryRequest { parameter: self.parameter, first_index: 1 }),
    {
        let request = HistoryRequest { parameter: self.parameter, first_index: 1 };
        request.encode()
    }

    /// Whether another packet should be read.
    pub fn is_pulling(&self) -> (r: bool)
        ensures
            r == (self.status == PullStatus::Pulling),
    {
        self.status == PullStatus::Pulling
    }

    /// Takes one packet read from the history characteristic and returns the
    /// new status. A packet shorter than a header ends the pull as the
    /// policy says; one that holds no header, or a header with no samples,
    /// ends it normally; any other page adds the samples it holds. A pull
    /// that has stopped ignores further packets.
    pub fn on_packet(&mut self, packet: &[u8]) -> (r: PullStatus)
        ensures
            r == final(self).status,
            packet_taken(*old(self), *final(self), packet@),
    {
        if self.status != PullStatus::Pulling {
            return self.status;
        }
        if packet.len() < HISTORY_HEADER_SIZE {
            self.status = match self.on_short_packet {
                OnShortPacket::Fail => PullStatus::Failed,
                OnShortPacket::StopCleanly => PullStatus::Finished,
            };
            assert(self.samples@ =~= old(self).samples@ + Seq::<u16>::empty());
            return self.status;
        }
        match HistoryHeader::decode(packet) {
            Some(header) => {
                if header.num_measurements == 0 {
                    self.status = PullStatus::Finished;
                    assert(self.samples@ =~= old(self).samples@ + Seq::<u16>::empty());
                } else {
                    if self.first_header.is_none() {
                        self.first_header = Some(header);
                    }
                    decode_page(self.parameter, packet, header.num_measurements, &mut self.samples);
                }
            },
            None => {
                self.status = PullStatus::Finished;
                assert(self.samples@ =~= old(self).samples@ + Seq::<u16>::empty());
            },
        }
        self.status
    }

    /// A failed read stops the pull with a transport failure.
    pub fn on_read_failed(&mut self)
        ensures
            read_failure_taken(*old(self), *final(self)),
    {
        if self.status == PullStatus::Pulling {
            self.status = PullStatus::ReadFailed;
        }
    }

    /// Gives the packets to the pull in order until it stops pulling, and
    /// returns how many it took: the packets read in one channel pull.
    pub fn take_packets(&mut self, packets: &Vec<Vec<u8>>) -> (consumed: usize)
        ensures
            final(self).parameter == old(self).parameter,
            final(self).on_short_packet == old(self).on_short_packet,
            consumed <= packets@.len(),
            model(*final(self)) == run_packets(
                old(self).parameter,
                old(self).on_short_packet,
                model(*old(self)),
                packet_views(packets@).subrange(0, consumed as int),
            ),
            consumed < packets@.len() ==> final(self).status != PullStatus::Pulling,
            forall|j: int|
                0 <= j < consumed ==> (#[trigger] run_packets(
                    old(self).parameter,
                    old(self).on_short_packet,
                    model(*old(self)),
                    packet_views(packets@).subrange(0, j),
                )).0 == PullStatus::Pulling,
    {
        let ghost st0 = model(*self);
        let ghost views = packet_views(packets@);
        let mut i: usize = 0;
        assert(views.subrange(0, 0) =~= Seq::<Seq<u8>>::empty());
        while i < packets.len() && self.is_pulling()
            invariant
                i <= packets@.len(),
                views == packet_views(packets@),
                self.parameter == old(self).parameter,
                self.on_short_packet == old(self).on_short_packet,
                st0 == model(*old(self)),
                model(*self) == run_packets(
                    self.parameter,
                    self.on_short_packet,
                    st0,
                    views.subrange(0, i as int),
                ),
                forall|j: int|
                    0 <= j < i ==> (#[trigger] run_packets(
                        self.parameter,
                        self.on_short_packet,
                        st0,
                        views.subrange(0, j),
                    )).0 == PullStatus::Pulling,
            decreases packets@.len() - i,
        {
            self.on_packet(packets[i].as_slice());
            assert(views.subrange(0, i + 1).drop_last() =~= views.subrange(0, i as int));
            assert(views.subrange(0, i + 1).last() == packets@[i as int]@);
            i = i + 1;
        }
        i
    }
}

/// A page whose header declares no samples ends the pull at once and adds
/// nothing, whatever the short-packet policy.
pub proof fn lemma_sentinel_ends_pull(p: LogParameter, policy: OnShortPacket, b: Seq<u8>)
    requires
        header_of(b) matches Some(h) && h.num_measurements == 0,
    ensures
        packet_status(policy, b) == PullStatus::Finished,
        packet_samples(p, policy, b) == Seq::<u16>::empty(),
{
}

/// A packet too short for a header fails a temperature pull but ends a
/// pressure pull cleanly, under the default policies.
pub proof fn lemma_short_packet_policies(b: Seq<u8>)
    requires
        b.len() < 10,
    ensures
        packet_status(default_policy(LogParameter::Temperature), b) == PullStatus::Failed,
        packet_status(default_policy(LogParameter::Pressure), b) == PullStatus::Finished,
        packet_samples(LogParameter::Pressure, default_policy(LogParameter::Pressure), b)
            == Seq::<u16>::empty(),
{
}

/// A page yields at most the samples it declares, each read from bytes the
/// packet holds; all of them when the packet is long enough.
pub proof fn lemma_page_within_packet(p: LogParameter, b: Seq<u8>, n: u8)
    requires
        b.len() >= 10,
    ensures
        page_samples(p, b, n as int).len() <= n,
        10 + page_samples(p, b, n as int).len() * width_of(p) <= b.len(),
        10 + n * width_of(p) <= b.len() ==> page_samples(p, b, n as int).len() == n,
        10 + n * width_of(p) > b.len() ==> page_samples(p, b, n as int).len() == (b.len() - 10)
            / (width_of(p) as int),
        forall|i: int|
            0 <= i < page_samples(p, b, n as int).len() ==> #[trigger] page_samples(
                p,
                b,
                n as int,
            )[i] == sample_at(p, b, i),
{
    let w = width_of(p) as int;
    let end = region_end(p, b.len() as int, n as int);
    let c = page_sample_count(p, b.len() as int, n as int);
    assert(c * w <= end - 10 && c <= n) by (nonlinear_arith)
        requires
            c == (end - 10) / w,
            w >= 1,
            0 <= end - 10 <= n * w,
    ;
    if 10 + n * w <= b.len() {
        assert(c == n) by (nonlinear_arith)
            requires
                c == (end - 10) / w,
                end - 10 == n * w,
                w >= 1,
        ;
    }
}

/// Whether every packet of `pk` is a page holding samples: a header that
/// decodes and declares at least one sample.
pub open spec fn all_pages(pk: Seq<Seq<u8>>) -> bool {
    forall|j: int|
        0 <= j < pk.len() ==> (#[trigger] header_of(pk[j]) matches Some(h)
            && h.num_measurements > 0)
}

/// The samples that the pages `pk` hold, one page after another.
pub open spec fn pages_samples(p: LogParameter, pk: Seq<Seq<u8>>) -> Seq<u16>
    decreases pk.len(),
{
    if pk.len() == 0 {
        Seq::empty()
    } else {
        pages_samples(p, pk.drop_last()) + page_samples(
            p,
            pk.last(),
            header_of(pk.last()).unwrap().num_measurements as int,
        )
    }
}

/// Pages that hold samples keep a pull pulling and append their samples in
/// order; the first of them gives the kept header if none was kept yet.
pub proof fn lemma_pages_accumulate(
    p: LogParameter,
    policy: OnShortPacket,
    st: PullModel,
    pk: Seq<Seq<u8>>,
)
    requires
        st.0 == PullStatus::Pulling,
        all_pages(pk),
    ensures
        run_packets(p, policy, st, pk).0 == PullStatus::Pulling,
        run_packets(p, policy, st, pk).1 == (if st.1 is Some {
            st.1
        } else if pk.len() > 0 {
            header_of(pk[0])
        } else {
            None
        }),
        run_packets(p, policy, st, pk).2 == st.2 + pages_samples(p, pk),
    decreases pk.len(),
{
    if pk.len() == 0 {
        assert(st.2 + Seq::<u16>::empty() =~= st.2);
    } else {
        let front = pk.drop_last();
        assert forall|j: int| 0 <= j < front.len() implies #[trigger] header_of(front[j]) matches Some(h)
            && h.num_measurements > 0 by {
            assert(front[j] == pk[j]);
        }
        lemma_pages_accumulate(p, policy, st, front);
        assert(header_of(pk[pk.len() - 1]) is Some);
        if front.len() > 0 {
            assert(front[0] == pk[0]);
        }
        let prev = run_packets(p, policy, st, front);
        let last = pk.last();
        assert(prev.2 + packet_samples(p, policy, last) =~= st.2 + pages_samples(p, pk));
    }
}

/// A pull that has stopped ignores any further packets.
pub proof fn lemma_stopped_stays(
    p: LogParameter,
    policy: OnShortPacket,
    st: PullModel,
    pk: Seq<Seq<u8>>,
)
    requires
        st.0 != PullStatus::Pulling,
    ensures
        run_packets(p, policy, st, pk) == st,
    decreases pk.len(),
{
    if pk.len() > 0 {
        lemma_stopped_stays(p, policy, st, pk.drop_last());
    }
}

/// Packets after the one that stops a pull change nothing.
pub proof fn lemma_run_after_stop(
    p: LogParameter,
    policy: OnShortPacket,
    st: PullModel,
    pk: Seq<Seq<u8>>,
    more: Seq<Seq<u8>>,
)
    requires
        run_packets(p, policy, st, pk).0 != PullStatus::Pulling,
    ensures
        run_packets(p, policy, st, pk + more) == run_packets(p, policy, st, pk),
    decreases more.len(),
{
    if more.len() == 0 {
        assert(pk + more =~= pk);
    } else {
        lemma_run_after_stop(p, policy, st, pk, more.drop_last());
        assert((pk + more).drop_last() =~= pk + more.drop_last());
    }
}

/// Helper: a fresh pull given the pages `pk[0..k]` and then `pk[k]`, with
/// every earlier prefix still pulling.
proof fn lemma_pages_then_last(p: LogParameter, policy: OnShortPacket, pk: Seq<Seq<u8>>, k: int)
    requires
        0 <= k,
        pk.len() == k + 1,
        all_pages(pk.subrange(0, k)),
    ensures
        forall|j: int|
            0 <= j <= k ==> (#[trigger] run_packets(
                p,
                policy,
                fresh_model(),
                pk.subrange(0, j),
            )).0 == PullStatus::Pulling,
        run_packets(p, policy, fresh_model(), pk) == step_model(
            p,
            policy,
            (
                PullStatus::Pulling,
                if k > 0 {
                    header_of(pk[0])
                } else {
                    None
                },
                pages_samples(p, pk.subrange(0, k)),
            ),
            pk[k],
        ),
{
    let front = pk.subrange(0, k);
    assert forall|j: int|
        0 <= j <= k implies (#[trigger] run_packets(
        p,
        policy,
        fresh_model(),
        pk.subrange(0, j),
    )).0 == PullStatus::Pulling by {
        let pre = pk.subrange(0, j);
        assert forall|i: int| 0 <= i < pre.len() implies #[trigger] header_of(pre[i]) matches Some(h)
            && h.num_measurements > 0 by {
            assert(pre[i] == front[i]);
        }
        lemma_pages_accumulate(p, policy, fresh_model(), pre);
    }
    lemma_pages_accumulate(p, policy, fresh_model(), front);
    assert(pk.drop_last() =~= front);
    if k > 0 {
        assert(front[0] == pk[0]);
    }
    assert(Seq::<u16>::empty() + pages_samples(p, front) =~= pages_samples(p, front));
    assert(run_packets(p, policy, fresh_model(), front) == (
        PullStatus::Pulling,
        if k > 0 {
            header_of(pk[0])
        } else {
            None::<HistoryHeader>
        },
        pages_samples(p, front),
    ));
    assert(pk.last() == pk[k]);
}

/// A channel whose pages hold samples up to a page declaring none: the pull
/// reads exactly those packets (it pulls before each and stops after the
/// last), keeps the first page's header, and holds the samples of the
/// earlier pages only; packets after it change nothing.
pub proof fn lemma_sentinel_ends_channel(
    p: LogParameter,
    policy: OnShortPacket,
    pk: Seq<Seq<u8>>,
    k: int,
    more: Seq<Seq<u8>>,
)
    requires
        0 <= k,
        pk.len() == k + 1,
        all_pages(pk.subrange(0, k)),
        header_of(pk[k]) matches Some(h) && h.num_measurements == 0,
    ensures
        forall|j: int|
            0 <= j <= k ==> (#[trigger] run_packets(
                p,
                policy,
                fresh_model(),
                pk.subrange(0, j),
            )).0 == PullStatus::Pulling,
        run_packets(p, policy, fresh_model(), pk) == (
            PullStatus::Finished,
            if k > 0 {
                header_of(pk[0])
            } else {
                None
            },
            pages_samples(p, pk.subrange(0, k)),
        ),
        run_packets(p, policy, fresh_model(), pk + more) == run_packets(
            p,
            policy,
            fresh_model(),
            pk,
        ),
{
    lemma_pages_then_last(p, policy, pk, k);
    let s = pages_samples(p, pk.subrange(0, k));
    assert(s + Seq::<u16>::empty() =~= s);
    lemma_run_after_stop(p, policy, fresh_model(), pk, more);
}

/// A packet too short for a header after pages holding samples: a
/// temperature pull fails there, a pressure pull ends cleanly with the
/// samples of the earlier pages, both under their default policies; neither
/// reads further.
pub proof fn lemma_short_packet_ends_channel(pk: Seq<Seq<u8>>, k: int, more: Seq<Seq<u8>>)
    requires
        0 <= k,
        pk.len() == k + 1,
        all_pages(pk.subrange(0, k)),
        pk[k].len() < 10,
    ensures
        forall|j: int|
            0 <= j <= k ==> (#[trigger] run_packets(
                LogParameter::Temperature,
                default_policy(LogParameter::Temperature),
                fresh_model(),
                pk.subrange(0, j),
            )).0 == PullStatus::Pulling,
        run_packets(
            LogParameter::Temperature,
            default_policy(LogParameter::Temperature),
            fresh_model(),
            pk + more,
        ).0 == PullStatus::Failed,
        forall|j: int|
            0 <= j <= k ==> (#[trigger] run_packets(
                LogParameter::Pressure,
                default_policy(LogParameter::Pressure),
                fresh_model(),
                pk.subrange(0, j),
            )).0 == PullStatus::Pulling,
        run_packets(
            LogParameter::Pressure,
            default_policy(LogParameter::Pressure),
            fresh_model(),
            pk + more,
        ) == (
            PullStatus::Finished,
            if k > 0 {
                header_of(pk[0])
            } else {
                None
            },
            pages_samples(LogParameter::Pressure, pk.subrange(0, k)),
        ),
{
    let t = LogParameter::Temperature;
    let pr = LogParameter::Pressure;
    lemma_pages_then_last(t, default_policy(t), pk, k);
    lemma_pages_then_last(pr, default_policy(pr), pk, k);
    let s = pages_samples(pr, pk.subrange(0, k));
    assert(s + Seq::<u16>::empty() =~= s);
    lemma_run_after_stop(t, default_policy(t), fresh_model(), pk, more);
    lemma_run_after_stop(pr, default_policy(pr), fresh_model(), pk, more);
}

} // verus!
