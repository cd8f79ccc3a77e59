//! A flow's counters, observed TCP flags and timestamps.
use vstd::prelude::*;
use crate::clock::{Timestamp, elapsed_millis, millis_between, new_flow_id, now, uuid_shaped};
use crate::tcp::{str_views, tcp_flag_names};
use crate::text::{dec, push_dec};

verus! {

/// TCP flags observed in the flow.
#[derive(Debug, Clone, Copy, PartialEq, Eq, Structural)]
pub struct TcpFlags {
    pub syn: bool,
    pub ack: bool,
    pub fin: bool,
    pub rst: bool,
    pub psh: bool,
    pub urg: bool,
}

/// The flags after observing the TCP flags byte `flags`.
pub open spec fn flags_updated(f: TcpFlags, flags: u8) -> TcpFlags {
    TcpFlags {
        syn: f.syn || flags & 0x02 != 0,
        ack: f.ack || flags & 0x10 != 0,
        fin: f.fin || flags & 0x01 != 0,
        rst: f.rst || flags & 0x04 != 0,
        psh: f.psh || flags & 0x08 != 0,
        urg: f.urg || flags & 0x20 != 0,
    }
}

/// No flag observed.
pub open spec fn no_flags() -> TcpFlags {
    TcpFlags { syn: false, ack: false, fin: false, rst: false, psh: false, urg: false }
}

/// The names of the observed flags, in the order SYN, ACK, FIN, RST, PSH, URG.
pub open spec fn flag_list(f: TcpFlags) -> Seq<Seq<char>> {
    (if f.syn { seq!["SYN"@] } else { Seq::empty() })
    + (if f.ack { seq!["ACK"@] } else { Seq::empty() })
    + (if f.fin { seq!["FIN"@] } else { Seq::empty() })
    + (if f.rst { seq!["RST"@] } else { Seq::empty() })
    + (if f.psh { seq!["PSH"@] } else { Seq::empty() })
    + (if f.urg { seq!["URG"@] } else { Seq::empty() })
}

impl Default for TcpFlags {
    fn default() -> (f: Self)
        ensures
            f == no_flags(),
    {
        TcpFlags { syn: false, ack: false, fin: false, rst: false, psh: false, urg: false }
    }
}

impl TcpFlags {
    /// Records the flags set in a TCP flags byte; flags seen before stay set.
    pub fn update(&mut self, flags: u8)
        ensures
            *final(self) == flags_updated(*old(self), flags),
    {
        self.syn = self.syn || flags & 0x02 != 0;
        self.ack = self.ack || flags & 0x10 != 0;
        self.fin = self.fin || flags & 0x01 != 0;
        self.rst = self.rst || flags & 0x04 != 0;
        self.psh = self.psh || flags & 0x08 != 0;
        self.urg = self.urg || flags & 0x20 != 0;
    }

    /// Names of the observed flags.
    pub fn to_vec(&self) -> (names: Vec<&'static str>)
        ensures
            str_views(names@) == flag_list(*self),
    {
        let mut names: Vec<&'static str> = Vec::new();
        let ghost f = *self;
        if self.syn {
            names.push("SYN");
        }
        assert(str_views(names@) =~= (if f.syn { seq!["SYN"@] } else { Seq::<Seq<char>>::empty() }));
        let ghost n1 = str_views(names@);
        if self.ack {
            names.push("ACK");
        }
        assert(str_views(names@) =~= n1 + (if f.ack { seq!["ACK"@] } else { Seq::<Seq<char>>::empty() }));
        let ghost n2 = str_views(names@);
        if self.fin {
            names.push("FIN");
        }
        assert(str_views(names@) =~= n2 + (if f.fin { seq!["FIN"@] } else { Seq::<Seq<char>>::empty() }));
        let ghost n3 = str_views(names@);
        if self.rst {
            names.push("RST");
        }
        assert(str_views(names@) =~= n3 + (if f.rst { seq!["RST"@] } else { Seq::<Seq<char>>::empty() }));
        let ghost n4 = str_views(names@);
        if self.psh {
            names.push("PSH");
        }
        assert(str_views(names@) =~= n4 + (if f.psh { seq!["PSH"@] } else { Seq::<Seq<char>>::empty() }));
        let ghost n5 = str_views(names@);
        if self.urg {
            names.push("URG");
        }
        assert(str_views(names@) =~= n5 + (if f.urg { seq!["URG"@] } else { Seq::<Seq<char>>::empty() }));
        names
    }
}

/// Flow entry with counters and metadata.
#[derive(Debug)]
pub struct FlowEntry {
    /// Flow identifier (a UUID).
    pub flow_id: String,
    /// When the flow started.
    pub timestamp_start: Timestamp,
    /// When the flow last changed.
    pub timestamp_end: Timestamp,
    /// Packets counted in the forward direction.
    pub packets_forward: u32,
    /// Packets counted in the reverse direction.
    pub packets_reverse: u32,
    /// Bytes counted in the forward direction.
    pub bytes_forward: u64,
    /// Bytes counted in the reverse direction.
    pub bytes_reverse: u64,
    /// TCP flags observed.
    pub tcp_flags: TcpFlags,
    /// Last activity (for timeout detection).
    pub last_activity: Timestamp,
    /// Whether the entry counts the forward direction.
    pub is_forward: bool,
}

/// The value of a flow entry, with its identifier as text.
pub struct FlowEntryView {
    pub flow_id: Seq<char>,
    pub timestamp_start: Timestamp,
    pub timestamp_end: Timestamp,
    pub packets_forward: u32,
    pub packets_reverse: u32,
    pub bytes_forward: u64,
    pub bytes_reverse: u64,
    pub tcp_flags: TcpFlags,
    pub last_activity: Timestamp,
    pub is_forward: bool,
}

impl Clone for FlowEntry {
    fn clone(&self) -> (e: Self)
        ensures
            e@ == self@,
    {
        FlowEntry {
            flow_id: self.flow_id.clone(),
            timestamp_start: self.timestamp_start,
            timestamp_end: self.timestamp_end,
            packets_forward: self.packets_forward,
            packets_reverse: self.packets_reverse,
            bytes_forward: self.bytes_forward,
            bytes_reverse: self.bytes_reverse,
            tcp_flags: self.tcp_flags,
            last_activity: self.last_activity,
            is_forward: self.is_forward,
        }
    }
}

impl View for FlowEntry {
    type V = FlowEntryView;

    open spec fn view(&self) -> FlowEntryView {
        FlowEntryView {
            flow_id: self.flow_id@,
            timestamp_start: self.timestamp_start,
            timestamp_end: self.timestamp_end,
            packets_forward: self.packets_forward,
            packets_reverse: self.packets_reverse,
            bytes_forward: self.bytes_forward,
            bytes_reverse: self.bytes_reverse,
            tcp_flags: self.tcp_flags,
            last_activity: self.last_activity,
            is_forward: self.is_forward,
        }
    }
}

/// The entry that a flow starting at `t` gets: identifier `id`, no packets, no flags.
pub open spec fn started_entry(id: Seq<char>, t: Timestamp, is_forward: bool) -> FlowEntryView {
    FlowEntryView {
        flow_id: id,
        timestamp_start: t,
        timestamp_end: t,
        packets_forward: 0,
        packets_reverse: 0,
        bytes_forward: 0,
        bytes_reverse: 0,
        tcp_flags: no_flags(),
        last_activity: t,
        is_forward,
    }
}

/// Counting a packet of `bytes` bytes does not overflow the counters of `e`.
pub open spec fn can_count(e: FlowEntryView, bytes: u64) -> bool {
    if e.is_forward {
        e.packets_forward < u32::MAX && e.bytes_forward + bytes <= u64::MAX
    } else {
        e.packets_reverse < u32::MAX && e.bytes_reverse + bytes <= u64::MAX
    }
}

/// The entry after counting, at time `t`, a packet of `bytes` bytes with optional TCP flags.
pub open spec fn counted_entry(e: FlowEntryView, t: Timestamp, bytes: u64, tcp_flags: Option<u8>) -> FlowEntryView {
    FlowEntryView {
        flow_id: e.flow_id,
        timestamp_start: e.timestamp_start,
        timestamp_end: t,
        packets_forward: if e.is_forward { (e.packets_forward + 1) as u32 } else { e.packets_forward },
        packets_reverse: if e.is_forward { e.packets_reverse } else { (e.packets_reverse + 1) as u32 },
        bytes_forward: if e.is_forward { (e.bytes_forward + bytes) as u64 } else { e.bytes_forward },
        bytes_reverse: if e.is_forward { e.bytes_reverse } else { (e.bytes_reverse + bytes) as u64 },
        tcp_flags: match tcp_flags {
            Some(f) => flags_updated(e.tcp_flags, f),
            None => e.tcp_flags,
        },
        last_activity: t,
        is_forward: e.is_forward,
    }
}

/// All timestamps of `e` are well formed.
pub open spec fn entry_times_wf(e: FlowEntryView) -> bool {
    e.timestamp_start.wf() && e.timestamp_end.wf() && e.last_activity.wf()
}

/// The display text of a flow entry: the first eight characters of its identifier,
/// its totals and its duration.
pub open spec fn flow_entry_text(e: FlowEntryView) -> Seq<char> {
    "Flow("@ + e.flow_id.take(8) + ": "@ + dec((e.packets_forward + e.packets_reverse) as nat)
        + " packets, "@ + dec((e.bytes_forward + e.bytes_reverse) as nat) + " bytes, "@
        + dec((millis_between(e.timestamp_end, e.timestamp_start) as u64) as nat) + "ms)"@
}

impl FlowEntry {
    /// Creates a flow entry that starts now, with a fresh UUID.
    pub fn new(is_forward: bool) -> (e: Self)
        ensures
            uuid_shaped(e.flow_id@),
            e.timestamp_start.wf(),
            e@ == started_entry(e.flow_id@, e.timestamp_start, is_forward),
    {
        let t = now();
        let flow_id = new_flow_id();
        Self::started_at(flow_id, t, is_forward)
    }

    /// Creates a flow entry with identifier `flow_id` that starts at `t`.
    pub fn started_at(flow_id: String, t: Timestamp, is_forward: bool) -> (e: Self)
        ensures
            e@ == started_entry(flow_id@, t, is_forward),
    {
        FlowEntry {
            flow_id,
            timestamp_start: t,
            timestamp_end: t,
            packets_forward: 0,
            packets_reverse: 0,
            bytes_forward: 0,
            bytes_reverse: 0,
            tcp_flags: TcpFlags::default(),
            last_activity: t,
            is_forward,
        }
    }

    /// Counts a new packet of `bytes` bytes now, recording its TCP flags if any.
    pub fn update(&mut self, bytes: u64, tcp_flags: Option<u8>)
        requires
            can_count(old(self)@, bytes),
        ensures
            final(self).timestamp_end.wf(),
            final(self)@ == counted_entry(old(self)@, final(self).timestamp_end, bytes, tcp_flags),
    {
        let t = now();
        self.update_at(t, bytes, tcp_flags);
    }

    /// Counts, at time `t`, a new packet of `bytes` bytes, recording its TCP flags if any.
    pub fn update_at(&mut self, t: Timestamp, bytes: u64, tcp_flags: Option<u8>)
        requires
            can_count(old(self)@, bytes),
        ensures
            final(self)@ == counted_entry(old(self)@, t, bytes, tcp_flags),
    {
        self.timestamp_end = t;
        self.last_activity = t;
        if self.is_forward {
            self.packets_forward = self.packets_forward + 1;
            self.bytes_forward = self.bytes_forward + bytes;
        } else {
            self.packets_reverse = self.packets_reverse + 1;
            self.bytes_reverse = self.bytes_reverse + bytes;
        }
        match tcp_flags {
            Some(flags) => self.tcp_flags.update(flags),
            None => {},
        }
    }

    /// Duration in milliseconds: the whole milliseconds from start to end, as a `u64`.
    pub fn duration_ms(&self) -> (ms: u64)
        requires
            self.timestamp_start.wf(),
            self.timestamp_end.wf(),
        ensures
            ms == millis_between(self.timestamp_end, self.timestamp_start) as u64,
    {
        elapsed_millis(self.timestamp_end, self.timestamp_start) as u64
    }

    /// Packets in both directions.
    pub fn total_packets(&self) -> (n: u32)
        requires
            self.packets_forward + self.packets_reverse <= u32::MAX,
        ensures
            n == self.packets_forward + self.packets_reverse,
    {
        self.packets_forward + self.packets_reverse
    }

    /// Bytes in both directions.
    pub fn total_bytes(&self) -> (n: u64)
        requires
            self.bytes_forward + self.bytes_reverse <= u64::MAX,
        ensures
            n == self.bytes_forward + self.bytes_reverse,
    {
        self.bytes_forward + self.bytes_reverse
    }

    /// The display text: `Flow(<id prefix>: N packets, M bytes, Dms)`.
    pub fn to_string(&self) -> (s: String)
        requires
            self.flow_id@.len() >= 8,
            vstd::utf8::is_ascii_chars(self.flow_id@.take(8)),
            self.packets_forward + self.packets_reverse <= u32::MAX,
            self.bytes_forward + self.bytes_reverse <= u64::MAX,
            self.timestamp_start.wf(),
            self.timestamp_end.wf(),
        ensures
            s@ == flow_entry_text(self@),
    {
        let mut s = String::from_str("Flow(");
        let prefix = self.flow_id.as_str().substring_char(0, 8);
        s.append(prefix);
        s.append(": ");
        push_dec(&mut s, self.total_packets() as u64);
        s.append(" packets, ");
        push_dec(&mut s, self.total_bytes());
        s.append(" bytes, ");
        push_dec(&mut s, self.duration_ms());
        s.append("ms)");
        assert(prefix@ =~= self.flow_id@.take(8));
        s
    }
}

/// Recording flags byte `a` then `b` gives the same flags as recording `b` then `a`.
pub proof fn flag_updates_commute(f: TcpFlags, a: u8, b: u8)
    ensures
        flags_updated(flags_updated(f, a), b) == flags_updated(flags_updated(f, b), a),
{
}

/// Recording the same flags byte twice gives the same flags as recording it once.
pub proof fn flag_update_is_idempotent(f: TcpFlags, a: u8)
    ensures
        flags_updated(flags_updated(f, a), a) == flags_updated(f, a),
{
}

/// A flag once observed stays observed.
pub proof fn flag_update_keeps_flags(f: TcpFlags, a: u8)
    ensures
        ({
            let g = flags_updated(f, a);
            &&& f.syn ==> g.syn
            &&& f.ack ==> g.ack
            &&& f.fin ==> g.fin
            &&& f.rst ==> g.rst
            &&& f.psh ==> g.psh
            &&& f.urg ==> g.urg
        }),
{
}

proof fn lemma_concat_contains(a: Seq<Seq<char>>, b: Seq<Seq<char>>, x: Seq<char>)
    ensures
        (a + b).contains(x) <==> (a.contains(x) || b.contains(x)),
{
    if (a + b).contains(x) {
        let i = choose|i: int| 0 <= i < (a + b).len() && (a + b)[i] == x;
        if i >= a.len() {
            assert(b[i - a.len()] == x);
        }
    }
    if a.contains(x) {
        let i = choose|i: int| 0 <= i < a.len() && a[i] == x;
        assert((a + b)[i] == x);
    }
    if b.contains(x) {
        let i = choose|i: int| 0 <= i < b.len() && b[i] == x;
        assert((a + b)[a.len() + i] == x);
    }
}

proof fn lemma_maybe_contains(c: bool, n: Seq<char>, x: Seq<char>)
    ensures
        (if c { seq![n] } else { Seq::<Seq<char>>::empty() }).contains(x) <==> (c && x == n),
{
    if c {
        assert(seq![n][0] == n);
    }
}

/// The flag names recorded from a TCP flags byte are the names a TCP header with that
/// byte lists (in another order).
pub proof fn recorded_flag_names_match_header(b: u8)
    ensures
        flag_list(flags_updated(no_flags(), b)).to_set() == tcp_flag_names(b).to_set(),
{
    let fin = b & 0x01 != 0;
    let syn = b & 0x02 != 0;
    let rst = b & 0x04 != 0;
    let psh = b & 0x08 != 0;
    let ack = b & 0x10 != 0;
    let urg = b & 0x20 != 0;
    let e = Seq::<Seq<char>>::empty();
    let s_syn = if syn { seq!["SYN"@] } else { e };
    let s_ack = if ack { seq!["ACK"@] } else { e };
    let s_fin = if fin { seq!["FIN"@] } else { e };
    let s_rst = if rst { seq!["RST"@] } else { e };
    let s_psh = if psh { seq!["PSH"@] } else { e };
    let s_urg = if urg { seq!["URG"@] } else { e };
    let l = flag_list(flags_updated(no_flags(), b));
    let h = tcp_flag_names(b);
    assert(l == s_syn + s_ack + s_fin + s_rst + s_psh + s_urg);
    assert(h == s_fin + s_syn + s_rst + s_psh + s_ack + s_urg);
    assert forall|x: Seq<char>| l.contains(x) <==> h.contains(x) by {
        lemma_maybe_contains(syn, "SYN"@, x);
        lemma_maybe_contains(ack, "ACK"@, x);
        lemma_maybe_contains(fin, "FIN"@, x);
        lemma_maybe_contains(rst, "RST"@, x);
        lemma_maybe_contains(psh, "PSH"@, x);
        lemma_maybe_contains(urg, "URG"@, x);
        lemma_concat_contains(s_syn, s_ack, x);
        lemma_concat_contains(s_syn + s_ack, s_fin, x);
        lemma_concat_contains(s_syn + s_ack + s_fin, s_rst, x);
        lemma_concat_contains(s_syn + s_ack + s_fin + s_rst, s_psh, x);
        lemma_concat_contains(s_syn + s_ack + s_fin + s_rst + s_psh, s_urg, x);
        lemma_concat_contains(s_fin, s_syn, x);
        lemma_concat_contains(s_fin + s_syn, s_rst, x);
        lemma_concat_contains(s_fin + s_syn + s_rst, s_psh, x);
        lemma_concat_contains(s_fin + s_syn + s_rst + s_psh, s_ack, x);
        lemma_concat_contains(s_fin + s_syn + s_rst + s_psh + s_ack, s_urg, x);
    }
    assert(l.to_set() =~= h.to_set());
}

/// Counting a packet adds one to the entry's packets and its size to its bytes, in the
/// entry's direction, and keeps its identity, start and direction.
pub proof fn counting_adds_one_packet(e: FlowEntryView, t: Timestamp, bytes: u64, tcp_flags: Option<u8>)
    requires
        can_count(e, bytes),
    ensures
        ({
            let c = counted_entry(e, t, bytes, tcp_flags);
            &&& c.packets_forward + c.packets_reverse == e.packets_forward + e.packets_reverse + 1
            &&& c.bytes_forward + c.bytes_reverse == e.bytes_forward + e.bytes_reverse + bytes
            &&& c.flow_id == e.flow_id
            &&& c.timestamp_start == e.timestamp_start
            &&& c.is_forward == e.is_forward
            &&& c.last_activity == t && c.timestamp_end == t
        }),
{
}

/// A freshly created entry meets everything its display text needs: an identifier of at
/// least eight characters that starts with eight ASCII ones, totals that fit, and
/// well-formed times.
pub proof fn new_entry_is_displayable(e: FlowEntry)
    requires
        uuid_shaped(e.flow_id@),
        e.timestamp_start.wf(),
        e@ == started_entry(e.flow_id@, e.timestamp_start, e.is_forward),
    ensures
        e.flow_id@.len() >= 8,
        vstd::utf8::is_ascii_chars(e.flow_id@.take(8)),
        e.packets_forward + e.packets_reverse <= u32::MAX,
        e.bytes_forward + e.bytes_reverse <= u64::MAX,
        e.timestamp_start.wf(),
        e.timestamp_end.wf(),
{
    assert forall|i: int| 0 <= i < 8 implies '\0' <= #[trigger] e.flow_id@.take(8)[i] <= '\u{7f}' by {
        assert(crate::clock::is_lower_hex(e.flow_id@[i]));
    }
}

/// Recording a TCP flags byte sets each flag whose bit is set in it and keeps those
/// already seen: FIN is bit 0, SYN bit 1, RST bit 2, PSH bit 3, ACK bit 4 and URG bit 5
/// (bit `i` of `b` being `(b / 2^i) % 2`).
pub proof fn flag_update_reads_header_bits(f: TcpFlags, b: u8)
    ensures
        flags_updated(f, b).fin == (f.fin || b % 2 == 1),
        flags_updated(f, b).syn == (f.syn || (b / 2) % 2 == 1),
        flags_updated(f, b).rst == (f.rst || (b / 4) % 2 == 1),
        flags_updated(f, b).psh == (f.psh || (b / 8) % 2 == 1),
        flags_updated(f, b).ack == (f.ack || (b / 16) % 2 == 1),
        flags_updated(f, b).urg == (f.urg || (b / 32) % 2 == 1),
{
    assert((b & 0x01 != 0) == (b % 2 == 1)) by (bit_vector);
    assert((b & 0x02 != 0) == ((b / 2) % 2 == 1)) by (bit_vector);
    assert((b & 0x04 != 0) == ((b / 4) % 2 == 1)) by (bit_vector);
    assert((b & 0x08 != 0) == ((b / 8) % 2 == 1)) by (bit_vector);
    assert((b & 0x10 != 0) == ((b / 16) % 2 == 1)) by (bit_vector);
    assert((b & 0x20 != 0) == ((b / 32) % 2 == 1)) by (bit_vector);
}

} // verus!
