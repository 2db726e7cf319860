use vstd::prelude::*;

use crate::devices::virtio::net::packet::clone_bytes;

verus! {

/// At most this many frames are merged into one segment.
pub const MAX_GRO_SEGMENTS: usize = 32;

/// At most this many payload bytes are merged into one segment.
pub const MAX_GSO_SIZE: usize = 16384;

/// Ethernet, IPv4 and TCP headers without options.
pub const MIN_TCP_FRAME: usize = 54;

pub const TCP_FIN: u8 = 0x01;
pub const TCP_SYN: u8 = 0x02;
pub const TCP_RST: u8 = 0x04;

/// The fields of an IPv4/TCP frame that the merging looks at.
#[derive(Clone, Copy, Debug, PartialEq, Eq, Structural)]
pub struct TcpSegment {
    pub seq: u32,
    pub payload_len: usize,
    pub header_len: usize,
    pub ip_hdr_len: usize,
    pub tcp_hdr_len: usize,
    pub flags: u8,
}

/// What the guest needs to split a merged segment again.
#[derive(Clone, Copy, Debug, PartialEq, Eq, Structural)]
pub struct GsoMeta {
    pub hdr_len: u16,
    pub mss: u16,
    pub csum_start: u16,
}

/// A frame to deliver, with its segmentation data when it was merged.
pub struct GroOutput {
    pub frame: Vec<u8>,
    pub gso: Option<GsoMeta>,
}

/// The big-endian 32-bit value of bytes `i..i + 4`.
pub open spec fn be32(f: Seq<u8>, i: int) -> u32 {
    ((f[i] as u32) << 24) | ((f[i + 1] as u32) << 16) | ((f[i + 2] as u32) << 8) | (f[i + 3] as u32)
}

/// The IPv4 header length that byte 14 of an Ethernet frame announces.
pub open spec fn ihl_bytes(f: Seq<u8>) -> int {
    ((f[14] & 0x0F) as int) * 4
}

/// The frame read as Ethernet + IPv4 + TCP: `None` unless it is long
/// enough, carries IPv4 (ethertype 0x0800) with protocol 6 and header
/// lengths of at least 20 bytes that fit in it.
pub open spec fn spec_parse_tcp(f: Seq<u8>) -> Option<TcpSegment> {
    if f.len() < MIN_TCP_FRAME || f[12] != 0x08 || f[13] != 0x00 {
        None
    } else {
        let ip = ihl_bytes(f);
        let t = 14 + ip;
        if ip < 20 || t + 20 > f.len() || f[23] != 6 {
            None
        } else {
            let tcp = ((f[t + 12] >> 4u8) as int) * 4;
            let h = t + tcp;
            if tcp < 20 || h > f.len() {
                None
            } else {
                Some(
                    TcpSegment {
                        seq: be32(f, t + 4),
                        payload_len: (f.len() - h) as usize,
                        header_len: h as usize,
                        ip_hdr_len: ip as usize,
                        tcp_hdr_len: tcp as usize,
                        flags: f[t + 13],
                    },
                )
            }
        }
    }
}

fn parse_tcp(frame: &Vec<u8>) -> (r: Option<TcpSegment>)
    ensures
        r == spec_parse_tcp(frame@),
{
    let n = frame.len();
    if n < MIN_TCP_FRAME {
        return None;
    }
    if frame[12] != 0x08 || frame[13] != 0x00 {
        return None;
    }
    let ip_hdr_len = ((frame[14] & 0x0F) as usize) * 4;
    if ip_hdr_len < 20 {
        return None;
    }
    let ip_end = 14 + ip_hdr_len;
    if ip_end + 20 > n {
        return None;
    }
    if frame[14 + 9] != 6 {
        return None;
    }
    let tcp_start = ip_end;
    let tcp_hdr_len = ((frame[tcp_start + 12] >> 4) as usize) * 4;
    if tcp_hdr_len < 20 {
        return None;
    }
    let header_len = 14 + ip_hdr_len + tcp_hdr_len;
    if header_len > n {
        return None;
    }
    let seq = ((frame[tcp_start + 4] as u32) << 24) | ((frame[tcp_start + 5] as u32) << 16) | ((
    frame[tcp_start + 6] as u32) << 8) | (frame[tcp_start + 7] as u32);
    let flags = frame[tcp_start + 13];
    Some(
        TcpSegment {
            seq,
            payload_len: n - header_len,
            header_len,
            ip_hdr_len,
            tcp_hdr_len,
            flags,
        },
    )
}

/// Whether `a` and `b` belong to one TCP flow: same ethertype and IP
/// header length, same source and destination addresses and ports.
pub open spec fn spec_same_flow(a: Seq<u8>, b: Seq<u8>) -> bool {
    let e = 14 + ihl_bytes(a);
    &&& a.len() >= MIN_TCP_FRAME && b.len() >= MIN_TCP_FRAME
    &&& a[12] == b[12] && a[13] == b[13]
    &&& ihl_bytes(a) == ihl_bytes(b)
    &&& a.len() >= e + 4 && b.len() >= e + 4
    &&& a.subrange(26, 34) == b.subrange(26, 34)
    &&& a.subrange(e, e + 4) == b.subrange(e, e + 4)
}

/// Whether `a[start..start + n]` and `b[start..start + n]` are equal.
fn same_bytes(a: &Vec<u8>, b: &Vec<u8>, start: usize, n: usize) -> (r: bool)
    requires
        start + n <= a@.len(),
        start + n <= b@.len(),
    ensures
        r == (a@.subrange(start as int, start + n) == b@.subrange(start as int, start + n)),
{
    let la = a.len();
    let mut i: usize = 0;
    while i < n
        invariant
            la == a@.len(),
            start + n <= a@.len(),
            start + n <= b@.len(),
            i <= n,
            forall|k: int| start <= k < start + i ==> a@[k] == b@[k],
        decreases n - i,
    {
        if a[start + i] != b[start + i] {
            assert(a@.subrange(start as int, start + n)[i as int] != b@.subrange(start as int, start + n)[i as int]);
            return false;
        }
        i += 1;
    }
    assert(a@.subrange(start as int, start + n) =~= b@.subrange(start as int, start + n));
    true
}

fn same_flow(a: &Vec<u8>, b: &Vec<u8>) -> (r: bool)
    ensures
        r == spec_same_flow(a@, b@),
{
    if a.len() < MIN_TCP_FRAME || b.len() < MIN_TCP_FRAME {
        return false;
    }
    if a[12] != b[12] || a[13] != b[13] {
        return false;
    }
    let a_ip = ((a[14] & 0x0F) as usize) * 4;
    let b_ip = ((b[14] & 0x0F) as usize) * 4;
    if a_ip != b_ip {
        return false;
    }
    let ip_end = 14 + a_ip;
    if a.len() < ip_end + 4 || b.len() < ip_end + 4 {
        return false;
    }
    if !same_bytes(a, b, 26, 8) {
        return false;
    }
    same_bytes(a, b, ip_end, 4)
}

/// SYN, FIN and RST end a merging run.
pub open spec fn spec_coalescable_flags(flags: u8) -> bool {
    flags & (TCP_SYN | TCP_FIN | TCP_RST) == 0
}

fn coalescable_flags(flags: u8) -> (b: bool)
    ensures
        b == spec_coalescable_flags(flags),
{
    (flags & (TCP_SYN | TCP_FIN | TCP_RST)) == 0
}

// ---------------------------------------------------------------- checksum

/// The sum of the big-endian 16-bit words `f[at..at + 2k]`.
pub open spec fn word_sum(f: Seq<u8>, at: int, k: nat) -> int
    decreases k,
{
    if k == 0 {
        0
    } else {
        word_sum(f, at, (k - 1) as nat) + ((f[at + 2 * (k - 1)] as int) * 256 + f[at + 2 * (k - 1) + 1] as int)
    }
}

/// `s` with its carries folded back in until it fits in 16 bits.
pub open spec fn fold_carries(s: u32) -> u32
    decreases s,
{
    if s >> 16u32 == 0 {
        s
    } else {
        proof {
            lemma_fold_step(s);
        }
        fold_carries(((s & 0xFFFF) + (s >> 16u32)) as u32)
    }
}

pub proof fn lemma_fold_step(s: u32)
    requires
        s >> 16u32 != 0,
    ensures
        (s & 0xFFFF) + (s >> 16u32) < s,
{
    assert(s >> 16u32 != 0 ==> (s & 0xFFFF) + (s >> 16u32) < s) by (bit_vector);
}

/// The IPv4 header checksum of the `ip_len` header bytes from offset 14
/// (with the checksum field read as it stands).
pub open spec fn ip_checksum(f: Seq<u8>, ip_len: nat) -> u16 {
    !(fold_carries(word_sum(f, 14, ip_len / 2) as u32) as u16)
}

proof fn lemma_word_sum_bound(f: Seq<u8>, at: int, k: nat)
    ensures
        0 <= word_sum(f, at, k) <= 65535 * k,
    decreases k,
{
    if k > 0 {
        lemma_word_sum_bound(f, at, (k - 1) as nat);
    }
}

/// Recomputes the IPv4 header checksum of `f` (bytes 24 and 25).
fn fix_ip_checksum(f: &mut Vec<u8>, ip_len: usize)
    requires
        14 + ip_len <= old(f)@.len(),
        ip_len <= 60,
        ip_len % 2 == 0,
        old(f)@.len() >= 26,
    ensures
        ({
            let z = old(f)@.update(24, 0u8).update(25, 0u8);
            let c = ip_checksum(z, ip_len as nat);
            final(f)@ == z.update(24, (c >> 8u16) as u8).update(25, (c & 0xFF) as u8)
        }),
{
    f.set(24, 0);
    f.set(25, 0);
    let ghost z = f@;
    let mut sum: u32 = 0;
    let mut i: usize = 0;
    while i < ip_len
        invariant
            f@ == z,
            14 + ip_len <= z.len(),
            ip_len <= 60,
            ip_len % 2 == 0,
            i % 2 == 0,
            i <= ip_len,
            sum == word_sum(z, 14, (i / 2) as nat),
            sum <= 65535 * (i / 2),
        decreases ip_len - i,
    {
        proof {
            lemma_word_sum_bound(z, 14, (i / 2) as nat);
        }
        let w = ((f[14 + i] as u32) << 8) | (f[14 + i + 1] as u32);
        let hi = f[14 + i];
        let lo = f[14 + i + 1];
        assert(((hi as u32) << 8u32) | (lo as u32) == (hi as u32) * 256 + (lo as u32)) by (bit_vector);
        sum = sum + w;
        i = i + 2;
        assert((i / 2) as nat == ((i - 2) / 2) as nat + 1);
    }
    while sum >> 16 != 0
        invariant
            fold_carries(sum) == fold_carries(word_sum(z, 14, (ip_len / 2) as nat) as u32),
        decreases sum,
    {
        proof {
            lemma_fold_step(sum);
        }
        sum = (sum & 0xFFFF) + (sum >> 16);
    }
    let csum = !(sum as u16);
    f.set(24, (csum >> 8) as u8);
    f.set(25, (csum & 0xFF) as u8);
}

// ------------------------------------------------------------ the merging

/// The state of the merging after some frames: what was emitted, and the
/// run of frame indices being merged with its bookkeeping.
pub struct GroState {
    pub out: Seq<(Seq<u8>, Option<GsoMeta>)>,
    pub run: Seq<usize>,
    pub size: int,
    pub mss: u16,
    pub hdr_len: u16,
    pub csum_start: u16,
    pub seq: u32,
    pub info: Option<TcpSegment>,
}

/// The payloads (bytes from `h` on) of the frames of `run`, in order.
pub open spec fn run_payloads(frames: Seq<Seq<u8>>, run: Seq<usize>, h: int) -> Seq<u8>
    decreases run.len(),
{
    if run.len() == 0 {
        Seq::empty()
    } else {
        let last = frames[run.last() as int];
        run_payloads(frames, run.drop_last(), h) + last.subrange(h, last.len() as int)
    }
}

/// The merged frame of a run: the first frame's headers, every payload,
/// the IPv4 total length rewritten and the header checksum recomputed.
pub open spec fn merged_frame(frames: Seq<Seq<u8>>, st: GroState) -> Seq<u8> {
    let info = st.info->Some_0;
    let h = info.header_len as int;
    let body = frames[st.run[0] as int].subrange(0, h) + run_payloads(frames, st.run, h);
    let total = (info.ip_hdr_len + info.tcp_hdr_len + st.size) as u16;
    let z = body.update(16, (total >> 8u16) as u8).update(17, (total & 0xFF) as u8).update(24, 0u8).update(
        25,
        0u8,
    );
    let c = ip_checksum(z, info.ip_hdr_len as nat);
    z.update(24, (c >> 8u16) as u8).update(25, (c & 0xFF) as u8)
}

/// `st` with an empty run.
pub open spec fn cleared(st: GroState) -> GroState {
    GroState { run: Seq::empty(), size: 0, mss: 0, hdr_len: 0, csum_start: 0, info: None, ..st }
}

/// Ends the run: one frame is emitted as it is, several as one merged
/// segment with its segmentation data.
pub open spec fn flushed(frames: Seq<Seq<u8>>, st: GroState) -> GroState {
    if st.run.len() == 0 {
        st
    } else if st.run.len() == 1 {
        GroState { out: st.out.push((frames[st.run[0] as int], None)), ..cleared(st) }
    } else {
        GroState {
            out: st.out.push(
                (
                    merged_frame(frames, st),
                    Some(GsoMeta { hdr_len: st.hdr_len, mss: st.mss, csum_start: st.csum_start }),
                ),
            ),
            ..cleared(st)
        }
    }
}

/// Whether frame `i` (a TCP segment `info` with payload) extends the run:
/// same flow and the next sequence number, no SYN/FIN/RST, and room left
/// in bytes and in frames.
pub open spec fn extends_run(frames: Seq<Seq<u8>>, st: GroState, i: int, info: TcpSegment) -> bool {
    &&& st.info is Some
    &&& spec_same_flow(frames[i], frames[st.run[0] as int])
    &&& st.seq == info.seq
    &&& spec_coalescable_flags(info.flags)
    &&& st.size + info.payload_len <= MAX_GSO_SIZE
    &&& st.run.len() < MAX_GRO_SEGMENTS
    &&& frames[i].len() >= st.hdr_len
}

/// The merging after one more frame, number `i`.
pub open spec fn gro_step(frames: Seq<Seq<u8>>, st: GroState, i: int) -> GroState {
    match spec_parse_tcp(frames[i]) {
        None => {
            let s = flushed(frames, st);
            GroState { out: s.out.push((frames[i], None)), ..s }
        },
        Some(info) => if info.payload_len == 0 {
            let s = flushed(frames, st);
            GroState { out: s.out.push((frames[i], None)), ..s }
        } else if extends_run(frames, st, i, info) {
            GroState {
                run: st.run.push(i as usize),
                size: st.size + info.payload_len,
                seq: info.seq.wrapping_add(info.payload_len as u32),
                ..st
            }
        } else {
            let s = flushed(frames, st);
            let started = GroState {
                run: seq![i as usize],
                size: info.payload_len as int,
                mss: info.payload_len as u16,
                hdr_len: info.header_len as u16,
                csum_start: (14 + info.ip_hdr_len) as u16,
                seq: info.seq.wrapping_add(info.payload_len as u32),
                info: Some(info),
                ..s
            };
            if spec_coalescable_flags(info.flags) {
                started
            } else {
                flushed(frames, started)
            }
        },
    }
}

/// The merging after the first `k` frames.
pub open spec fn gro_prefix(frames: Seq<Seq<u8>>, k: nat) -> GroState
    decreases k,
{
    if k == 0 {
        GroState {
            out: Seq::empty(),
            run: Seq::empty(),
            size: 0,
            mss: 0,
            hdr_len: 0,
            csum_start: 0,
            seq: 0,
            info: None,
        }
    } else {
        gro_step(frames, gro_prefix(frames, (k - 1) as nat), k - 1)
    }
}

/// What merging `frames` delivers, in order: runs of consecutive
/// segments of one TCP flow become single segments, every other frame
/// passes as it is.
pub open spec fn spec_gro(frames: Seq<Seq<u8>>) -> Seq<(Seq<u8>, Option<GsoMeta>)> {
    if frames.len() == 0 {
        Seq::empty()
    } else if frames.len() == 1 {
        seq![(frames[0], None)]
    } else {
        flushed(frames, gro_prefix(frames, frames.len())).out
    }
}

/// The frames of a list of outputs, with their segmentation data.
pub open spec fn outputs_view(v: Seq<GroOutput>) -> Seq<(Seq<u8>, Option<GsoMeta>)> {
    v.map_values(|o: GroOutput| (o.frame@, o.gso))
}

/// The frames of a list of byte vectors.
pub open spec fn frames_view(v: Seq<Vec<u8>>) -> Seq<Seq<u8>> {
    v.map_values(|f: Vec<u8>| f@)
}


/// What a parsed segment's header fields are bounded by.
pub proof fn lemma_parse_bounds(f: Seq<u8>)
    requires
        spec_parse_tcp(f) is Some,
    ensures
        ({
            let info = spec_parse_tcp(f)->Some_0;
            &&& 20 <= info.ip_hdr_len <= 60
            &&& info.ip_hdr_len % 2 == 0
            &&& 20 <= info.tcp_hdr_len <= 60
            &&& info.header_len == 14 + info.ip_hdr_len + info.tcp_hdr_len
            &&& 54 <= info.header_len <= f.len()
        }),
{
    let b = f[14];
    assert(b & 0x0F <= 15) by (bit_vector);
    let t = 14 + ihl_bytes(f);
    let c = f[t + 12];
    assert(c >> 4u8 <= 15) by (bit_vector);
}

/// The executable state of the run being merged.
struct Run {
    run: Vec<usize>,
    size: usize,
    mss: u16,
    hdr_len: u16,
    csum_start: u16,
    seq: u32,
    info: Option<TcpSegment>,
}

/// The merging state that `r` and the outputs so far stand for.
spec fn state_of(r: &Run, out: Seq<GroOutput>) -> GroState {
    GroState {
        out: outputs_view(out),
        run: r.run@,
        size: r.size as int,
        mss: r.mss,
        hdr_len: r.hdr_len,
        csum_start: r.csum_start,
        seq: r.seq,
        info: r.info,
    }
}

/// Whether a merging state can be flushed: its run is made of parsed
/// frames that all carry the first one's headers, and a run of several
/// frames stays within the size limit.
pub open spec fn run_wf(frames: Seq<Seq<u8>>, st: GroState) -> bool {
    &&& (st.info is Some <==> st.run.len() > 0)
    &&& st.run.len() <= MAX_GRO_SEGMENTS
    &&& st.size >= 0
    &&& forall|k: int| 0 <= k < st.run.len() ==> #[trigger] st.run[k] < frames.len()
    &&& st.info is Some ==> {
        let info = st.info->Some_0;
        &&& spec_parse_tcp(frames[st.run[0] as int]) == Some(info)
        &&& st.hdr_len == info.header_len as u16
        &&& forall|k: int|
            0 <= k < st.run.len() ==> #[trigger] frames[st.run[k] as int].len() >= info.header_len
    }
    &&& st.run.len() >= 2 ==> st.size <= MAX_GSO_SIZE
}

/// Appends `src[start..start + n]` to `dst`.
fn append_range(dst: &mut Vec<u8>, src: &Vec<u8>, start: usize, n: usize)
    requires
        start + n <= src@.len(),
    ensures
        final(dst)@ == old(dst)@ + src@.subrange(start as int, start + n),
{
    let ls = src.len();
    let mut i: usize = 0;
    while i < n
        invariant
            ls == src@.len(),
            start + n <= src@.len(),
            i <= n,
            dst@ == old(dst)@ + src@.subrange(start as int, start + i),
        decreases n - i,
    {
        dst.push(src[start + i]);
        i += 1;
        assert(dst@ =~= old(dst)@ + src@.subrange(start as int, start + i));
    }
}

/// The merged frame of the (several-frame) run `r`.
fn merge_run(r: &Run, frames: &Vec<Vec<u8>>) -> (c: Vec<u8>)
    requires
        run_wf(frames_view(frames@), state_of(r, Seq::empty())),
        r.run@.len() >= 2,
    ensures
        c@ == merged_frame(frames_view(frames@), state_of(r, Seq::empty())),
{
    let ghost fv = frames_view(frames@);
    let ghost st = state_of(r, Seq::empty());
    let info = r.info.unwrap();
    let h = info.header_len;
    proof {
        assert(r.run@[0] < fv.len());
        lemma_parse_bounds(fv[r.run@[0] as int]);
    }
    let first = &frames[r.run[0]];
    let mut c: Vec<u8> = Vec::new();
    append_range(&mut c, first, 0, h);
    let n = r.run.len();
    let mut k: usize = 0;
    while k < n
        invariant
            n == r.run@.len(),
            k <= n,
            fv == frames_view(frames@),
            st == state_of(r, Seq::empty()),
            run_wf(fv, st),
            h == info.header_len,
            r.info == Some(info),
            c@ == fv[r.run@[0] as int].subrange(0, h as int) + run_payloads(fv, r.run@.subrange(0, k as int), h as int),
        decreases n - k,
    {
        let idx = r.run[k];
        assert(r.run@[k as int] < fv.len());
        assert(fv[idx as int].len() >= h);
        let f = &frames[idx];
        let fl = f.len();
        append_range(&mut c, f, h, fl - h);
        proof {
            let sub = r.run@.subrange(0, k + 1);
            assert(sub.drop_last() =~= r.run@.subrange(0, k as int));
            assert(sub.last() == idx);
        }
        k += 1;
    }
    assert(r.run@.subrange(0, n as int) =~= r.run@);
    let total = (info.ip_hdr_len + info.tcp_hdr_len + r.size) as u16;
    c.set(16, (total >> 8) as u8);
    c.set(17, (total & 0xFF) as u8);
    fix_ip_checksum(&mut c, info.ip_hdr_len);
    c
}

/// Ends the run (see `flushed`).
fn flush(r: &mut Run, frames: &Vec<Vec<u8>>, output: &mut Vec<GroOutput>)
    requires
        run_wf(frames_view(frames@), state_of(old(r), old(output)@)),
    ensures
        state_of(final(r), final(output)@) == flushed(frames_view(frames@), state_of(old(r), old(output)@)),
        run_wf(frames_view(frames@), state_of(final(r), final(output)@)),
{
    let ghost fv = frames_view(frames@);
    let ghost st = state_of(r, output@);
    if r.run.len() == 0 {
        return;
    }
    assert(r.run@[0] < fv.len());
    if r.run.len() == 1 {
        let f = clone_bytes(&frames[r.run[0]]);
        output.push(GroOutput { frame: f, gso: None });
    } else {
        let ghost stc = state_of(r, Seq::empty());
        assert(run_wf(fv, stc));
        let c = merge_run(r, frames);
        assert(merged_frame(fv, stc) == merged_frame(fv, st));
        output.push(
            GroOutput {
                frame: c,
                gso: Some(GsoMeta { hdr_len: r.hdr_len, mss: r.mss, csum_start: r.csum_start }),
            },
        );
    }
    r.run.clear();
    r.size = 0;
    r.mss = 0;
    r.hdr_len = 0;
    r.csum_start = 0;
    r.info = None;
    assert(outputs_view(output@) =~= flushed(fv, st).out);
    assert(r.run@ =~= flushed(fv, st).run);
}

/// Merges runs of consecutive segments of one TCP flow into single
/// segments (see `spec_gro`); non-TCP frames, segments without payload
/// and frames that end a run pass as they are, in order.
pub fn gro_coalesce(frames: &Vec<Vec<u8>>) -> (out: Vec<GroOutput>)
    ensures
        outputs_view(out@) == spec_gro(frames_view(frames@)),
{
    let ghost fv = frames_view(frames@);
    let n = frames.len();
    if n == 0 {
        let out: Vec<GroOutput> = Vec::new();
        assert(outputs_view(out@) =~= spec_gro(fv));
        return out;
    }
    if n == 1 {
        let mut out: Vec<GroOutput> = Vec::new();
        out.push(GroOutput { frame: clone_bytes(&frames[0]), gso: None });
        assert(outputs_view(out@) =~= spec_gro(fv));
        return out;
    }
    let mut output: Vec<GroOutput> = Vec::new();
    let mut r = Run { run: Vec::new(), size: 0, mss: 0, hdr_len: 0, csum_start: 0, seq: 0, info: None };
    proof {
        assert(outputs_view(output@) =~= gro_prefix(fv, 0).out);
        assert(r.run@ =~= gro_prefix(fv, 0).run);
    }
    let mut i: usize = 0;
    while i < n
        invariant
            n == frames@.len(),
            fv == frames_view(frames@),
            i <= n,
            state_of(&r, output@) == gro_prefix(fv, i as nat),
            run_wf(fv, state_of(&r, output@)),
        decreases n - i,
    {
        let ghost st = state_of(&r, output@);
        let frame = &frames[i];
        assert(fv[i as int] == frame@);
        match parse_tcp(frame) {
            None => {
                flush(&mut r, frames, &mut output);
                let ghost s1 = state_of(&r, output@);
                output.push(GroOutput { frame: clone_bytes(frame), gso: None });
                assert(outputs_view(output@) =~= s1.out.push((fv[i as int], None)));
            },
            Some(info) => {
                proof {
                    lemma_parse_bounds(frame@);
                }
                if info.payload_len == 0 {
                    flush(&mut r, frames, &mut output);
                    let ghost s1 = state_of(&r, output@);
                    output.push(GroOutput { frame: clone_bytes(frame), gso: None });
                    assert(outputs_view(output@) =~= s1.out.push((fv[i as int], None)));
                } else {
                    let can_append = if r.info.is_some() {
                        assert(r.run@[0] < fv.len());
                        if !same_flow(frame, &frames[r.run[0]]) {
                            false
                        } else if r.seq != info.seq {
                            false
                        } else if !coalescable_flags(info.flags) {
                            false
                        } else if r.size > MAX_GSO_SIZE || info.payload_len > MAX_GSO_SIZE - r.size {
                            false
                        } else if r.run.len() >= MAX_GRO_SEGMENTS {
                            false
                        } else if frame.len() < r.hdr_len as usize {
                            false
                        } else {
                            true
                        }
                    } else {
                        false
                    };
                    assert(can_append == extends_run(fv, st, i as int, info));
                    if can_append {
                        let ghost old_run = r.run@;
                        r.run.push(i);
                        r.size = r.size + info.payload_len;
                        r.seq = info.seq.wrapping_add(info.payload_len as u32);
                        proof {
                            let info0 = st.info->Some_0;
                            lemma_parse_bounds(fv[old_run[0] as int]);
                            assert(r.run@[0] == old_run[0]);
                            assert forall|k: int| 0 <= k < r.run@.len() implies #[trigger] r.run@[k] < fv.len()
                                && fv[r.run@[k] as int].len() >= info0.header_len by {
                                if k < old_run.len() {
                                    assert(r.run@[k] == old_run[k]);
                                }
                            }
                        }
                    } else {
                        flush(&mut r, frames, &mut output);
                        r.run.push(i);
                        r.size = info.payload_len;
                        r.mss = info.payload_len as u16;
                        r.hdr_len = info.header_len as u16;
                        r.csum_start = (14 + info.ip_hdr_len) as u16;
                        r.seq = info.seq.wrapping_add(info.payload_len as u32);
                        r.info = Some(info);
                        assert(r.run@ =~= seq![i]);
                        if !coalescable_flags(info.flags) {
                            flush(&mut r, frames, &mut output);
                        }
                    }
                }
            },
        }
        i += 1;
    }
    flush(&mut r, frames, &mut output);
    output
}

/// Merging only touches TCP segments: when no frame is an IPv4/TCP
/// segment, every frame is delivered as it is, in order, without
/// segmentation data.
pub proof fn law_gro_passes_other_frames(frames: Seq<Seq<u8>>)
    requires
        forall|i: int| 0 <= i < frames.len() ==> spec_parse_tcp(#[trigger] frames[i]) is None,
    ensures
        spec_gro(frames) == frames.map_values(|f: Seq<u8>| (f, None::<GsoMeta>)),
{
    if frames.len() >= 2 {
        lemma_prefix_passes(frames, frames.len());
        assert(frames.subrange(0, frames.len() as int) =~= frames);
    }
    assert(spec_gro(frames) =~= frames.map_values(|f: Seq<u8>| (f, None::<GsoMeta>)));
}

proof fn lemma_prefix_passes(frames: Seq<Seq<u8>>, k: nat)
    requires
        k <= frames.len(),
        forall|i: int| 0 <= i < frames.len() ==> spec_parse_tcp(#[trigger] frames[i]) is None,
    ensures
        gro_prefix(frames, k).run.len() == 0,
        gro_prefix(frames, k).out == frames.subrange(0, k as int).map_values(|f: Seq<u8>| (f, None::<GsoMeta>)),
    decreases k,
{
    if k > 0 {
        lemma_prefix_passes(frames, (k - 1) as nat);
        let prev = gro_prefix(frames, (k - 1) as nat);
        assert(spec_parse_tcp(frames[k - 1]) is None);
        assert(flushed(frames, prev) == prev);
        assert(gro_prefix(frames, k).out =~= frames.subrange(0, k as int).map_values(
            |f: Seq<u8>| (f, None::<GsoMeta>),
        ));
    }
}


/// An IPv4 header (the `ip_len` bytes from offset 14) checks: its 16-bit
/// words summed with end-around carry give 0xFFFF.
pub open spec fn ip_header_checks(f: Seq<u8>, ip_len: nat) -> bool {
    fold_carries(word_sum(f, 14, ip_len / 2) as u32) == 0xFFFF
}

/// Folding carries keeps the value modulo 0xFFFF, ends at most 0xFFFF,
/// and gives zero only for zero.
proof fn lemma_fold_carries(s: u32)
    ensures
        fold_carries(s) as int % 0xFFFF == s as int % 0xFFFF,
        fold_carries(s) <= 0xFFFF,
        s != 0 ==> fold_carries(s) != 0,
    decreases s,
{
    if s >> 16u32 != 0 {
        lemma_fold_step(s);
        let t = ((s & 0xFFFF) + (s >> 16u32)) as u32;
        lemma_fold_carries(t);
        assert(s & 0xFFFF == s % 65536 && s >> 16u32 == s / 65536) by (bit_vector);
        let hi = (s / 65536) as int;
        let lo = (s % 65536) as int;
        assert(s as int == 65536 * hi + lo);
        vstd::arithmetic::div_mod::lemma_mod_multiples_vanish(hi, hi + lo, 0xFFFF);
        assert(65536 * hi + lo == 0xFFFF * hi + (hi + lo));
    } else {
        assert(s >> 16u32 == 0 ==> s <= 0xFFFF) by (bit_vector);
    }
}

/// Changing the zero checksum word (bytes 24 and 25) of a header to `c`
/// adds `c` to its word sum.
proof fn lemma_word_sum_checksum(z: Seq<u8>, c: u16, k: nat)
    requires
        z.len() >= 26,
        14 + 2 * k <= z.len(),
        z[24] == 0,
        z[25] == 0,
    ensures
        word_sum(z.update(24, (c >> 8u16) as u8).update(25, (c & 0xFF) as u8), 14, k) == word_sum(z, 14, k) + if k > 5 {
            c as int
        } else {
            0
        },
    decreases k,
{
    if k > 0 {
        lemma_word_sum_checksum(z, c, (k - 1) as nat);
        let hi = (c >> 8u16) as u8;
        let lo = (c & 0xFF) as u8;
        let f = z.update(24, hi).update(25, lo);
        let j = 14 + 2 * (k - 1);
        assert((hi as int) * 256 + (lo as int) == c as int) by {
            assert(((c >> 8u16) as u8) as u16 * 256 + ((c & 0xFF) as u8) as u16 == c) by (bit_vector);
        }
        if k - 1 == 5 {
            assert(f[j] == hi && f[j + 1] == lo);
        } else {
            assert(f[j] == z[j] && f[j + 1] == z[j + 1]);
        }
    }
}

/// A recomputed IPv4 header checksum makes the header check: with the
/// checksum field of `f` zeroed, and `ip_checksum` of that stored in it,
/// the header's words sum to 0xFFFF.
pub proof fn law_fixed_checksum_checks(f: Seq<u8>, ip_len: nat)
    requires
        20 <= ip_len <= 60,
        14 + ip_len <= f.len(),
    ensures
        ({
            let z = f.update(24, 0u8).update(25, 0u8);
            let c = ip_checksum(z, ip_len);
            ip_header_checks(z.update(24, (c >> 8u16) as u8).update(25, (c & 0xFF) as u8), ip_len)
        }),
{
    let z = f.update(24, 0u8).update(25, 0u8);
    let k = ip_len / 2;
    lemma_word_sum_bound(z, 14, k);
    let sum = word_sum(z, 14, k);
    let folded = fold_carries(sum as u32);
    lemma_fold_carries(sum as u32);
    let c = ip_checksum(z, ip_len);
    assert(c as int == 0xFFFF - folded) by {
        let g = folded as u16;
        assert(g as int == folded);
        assert(!g == (0xFFFFu16 - g) as u16) by (bit_vector);
    }
    lemma_word_sum_checksum(z, c, k);
    let total = sum + c;
    assert(65535 * k <= 65535 * 30) by (nonlinear_arith)
        requires
            k <= 30,
    ;
    if sum == 0 {
        assert(0u32 >> 16u32 == 0u32) by (bit_vector);
    }
    assert(0 < total < 0x1_0000_0000);
    lemma_fold_carries(total as u32);
    assert(total % 0xFFFF == 0) by {
        assert(total == sum + 0xFFFF - folded);
        assert((sum - folded) % 0xFFFF == 0) by {
            assert(sum % 0xFFFF == folded % 0xFFFF);
            vstd::arithmetic::div_mod::lemma_fundamental_div_mod(sum, 0xFFFF);
            vstd::arithmetic::div_mod::lemma_fundamental_div_mod(folded as int, 0xFFFF);
            assert(sum - folded == 0xFFFF * (sum / 0xFFFF - folded / 0xFFFF));
            vstd::arithmetic::div_mod::lemma_mod_multiples_vanish(sum / 0xFFFF - folded / 0xFFFF, 0, 0xFFFF);
        }
        vstd::arithmetic::div_mod::lemma_mod_add_multiples_vanish(sum - folded, 0xFFFF);
    }
    let ft = fold_carries(total as u32);
    assert(ft as int % 0xFFFF == 0);
    assert(ft == 0xFFFF) by {
        assert(0 < ft <= 0xFFFF);
        if ft < 0xFFFF {
            vstd::arithmetic::div_mod::lemma_small_mod(ft as nat, 0xFFFF);
        }
    }
}


/// A merged segment carries a valid IPv4 header checksum: the header of
/// `merged_frame` checks (see `ip_header_checks`).
pub proof fn law_merged_frame_checks(frames: Seq<Seq<u8>>, st: GroState)
    requires
        run_wf(frames, st),
        st.run.len() > 0,
    ensures
        ip_header_checks(merged_frame(frames, st), st.info->Some_0.ip_hdr_len as nat),
{
    let info = st.info->Some_0;
    let first = frames[st.run[0] as int];
    lemma_parse_bounds(first);
    let h = info.header_len as int;
    let body = first.subrange(0, h) + run_payloads(frames, st.run, h);
    let total = (info.ip_hdr_len + info.tcp_hdr_len + st.size) as u16;
    let f = body.update(16, (total >> 8u16) as u8).update(17, (total & 0xFF) as u8);
    law_fixed_checksum_checks(f, info.ip_hdr_len as nat);
}

/// The IPv4 total length of a merged segment counts the IP packet alone:
/// the merged frame without its 14-byte Ethernet header. This holds when
/// the run's size is the payload merged, as it is when the frames share
/// their header length.
pub proof fn law_merged_ip_length(frames: Seq<Seq<u8>>, st: GroState)
    requires
        run_wf(frames, st),
        st.run.len() >= 2,
        st.size == run_payloads(frames, st.run, st.info->Some_0.header_len as int).len(),
    ensures
        ({
            let m = merged_frame(frames, st);
            m[16] as int * 256 + m[17] as int == m.len() - 14
        }),
{
    let info = st.info->Some_0;
    let first = frames[st.run[0] as int];
    lemma_parse_bounds(first);
    let h = info.header_len as int;
    let body = first.subrange(0, h) + run_payloads(frames, st.run, h);
    let t = (info.ip_hdr_len + info.tcp_hdr_len + st.size) as u16;
    assert(t as int == info.ip_hdr_len + info.tcp_hdr_len + st.size);
    assert((t >> 8u16) as u32 * 256u32 + (t & 0xFFu16) as u32 == t as u32 && ((t >> 8u16) as u8) as u32 == (t
        >> 8u16) as u32 && ((t & 0xFFu16) as u8) as u32 == (t & 0xFFu16) as u32) by (bit_vector);
}

/// Whether `b` starts with `a`.
pub open spec fn starts_with(b: Seq<(Seq<u8>, Option<GsoMeta>)>, a: Seq<(Seq<u8>, Option<GsoMeta>)>) -> bool {
    a.len() <= b.len() && b.subrange(0, a.len() as int) == a
}

/// Ending a run only adds to the outputs.
proof fn lemma_flushed_extends(frames: Seq<Seq<u8>>, st: GroState)
    ensures
        starts_with(flushed(frames, st).out, st.out),
{
    assert(flushed(frames, st).out.subrange(0, st.out.len() as int) =~= st.out);
}

/// One more frame only adds to the outputs.
proof fn lemma_step_extends(frames: Seq<Seq<u8>>, st: GroState, i: int)
    ensures
        starts_with(gro_step(frames, st, i).out, st.out),
{
    lemma_flushed_extends(frames, st);
    let s = flushed(frames, st);
    match spec_parse_tcp(frames[i]) {
        None => {
            assert(gro_step(frames, st, i).out.subrange(0, st.out.len() as int) =~= st.out);
        },
        Some(info) => {
            if info.payload_len == 0 {
                assert(gro_step(frames, st, i).out.subrange(0, st.out.len() as int) =~= st.out);
            } else if !extends_run(frames, st, i, info) {
                let started = GroState {
                    run: seq![i as usize],
                    size: info.payload_len as int,
                    mss: info.payload_len as u16,
                    hdr_len: info.header_len as u16,
                    csum_start: (14 + info.ip_hdr_len) as u16,
                    seq: info.seq.wrapping_add(info.payload_len as u32),
                    info: Some(info),
                    ..s
                };
                lemma_flushed_extends(frames, started);
                assert(started.out == s.out);
                let r = gro_step(frames, st, i).out;
                if spec_coalescable_flags(info.flags) {
                    assert(r == s.out);
                } else {
                    assert(r == flushed(frames, started).out);
                    assert(r.subrange(0, s.out.len() as int) == s.out);
                }
                assert(r.subrange(0, st.out.len() as int) =~= r.subrange(0, s.out.len() as int).subrange(
                    0,
                    st.out.len() as int,
                ));
                assert(s.out.subrange(0, st.out.len() as int) == st.out);
            } else {
                assert(gro_step(frames, st, i).out.subrange(0, st.out.len() as int) =~= st.out);
            }
        },
    }
}

/// The outputs after `k` frames start the outputs after `m >= k` frames.
proof fn lemma_prefix_extends(frames: Seq<Seq<u8>>, k: nat, m: nat)
    requires
        k <= m,
    ensures
        starts_with(gro_prefix(frames, m).out, gro_prefix(frames, k).out),
    decreases m - k,
{
    if k < m {
        lemma_prefix_extends(frames, k, (m - 1) as nat);
        lemma_step_extends(frames, gro_prefix(frames, (m - 1) as nat), m - 1);
        let a = gro_prefix(frames, k).out;
        let b = gro_prefix(frames, (m - 1) as nat).out;
        let c = gro_prefix(frames, m).out;
        assert(c == gro_step(frames, gro_prefix(frames, (m - 1) as nat), m - 1).out);
        assert(c.subrange(0, b.len() as int) == b);
        assert(b.subrange(0, a.len() as int) == a);
        assert(c.subrange(0, a.len() as int) =~= c.subrange(0, b.len() as int).subrange(0, a.len() as int));
        assert(c.subrange(0, a.len() as int) == a);
    } else {
        let a = gro_prefix(frames, k).out;
        assert(a.subrange(0, a.len() as int) =~= a);
    }
}

/// A TCP segment with SYN, FIN or RST set stands alone: it is never
/// merged with another segment but delivered as it is, without
/// segmentation data, as one of the outputs.
pub proof fn law_gro_keeps_control_segments(frames: Seq<Seq<u8>>, i: int)
    requires
        0 <= i < frames.len() <= usize::MAX,
        spec_parse_tcp(frames[i]) matches Some(info) && info.flags & (TCP_SYN | TCP_FIN | TCP_RST) != 0,
    ensures
        exists|j: int| 0 <= j < spec_gro(frames).len() && #[trigger] spec_gro(frames)[j] == (frames[i], None::<GsoMeta>),
{
    if frames.len() == 1 {
        assert(spec_gro(frames)[0] == (frames[i], None::<GsoMeta>));
    } else {
        let n = frames.len();
        let st = gro_prefix(frames, i as nat);
        let after = gro_prefix(frames, (i + 1) as nat);
        assert(after == gro_step(frames, st, i));
        let info = spec_parse_tcp(frames[i])->Some_0;
        assert(!spec_coalescable_flags(info.flags));
        let s0 = flushed(frames, st);
        if info.payload_len == 0 {
            assert(after.out == s0.out.push((frames[i], None::<GsoMeta>)));
        } else {
            assert(!extends_run(frames, st, i, info));
            let started = GroState {
                run: seq![i as usize],
                size: info.payload_len as int,
                mss: info.payload_len as u16,
                hdr_len: info.header_len as u16,
                csum_start: (14 + info.ip_hdr_len) as u16,
                seq: info.seq.wrapping_add(info.payload_len as u32),
                info: Some(info),
                ..s0
            };
            assert(after == flushed(frames, started));
            assert(started.run.len() == 1 && started.run[0] as int == i);
            assert(after.out == s0.out.push((frames[i], None::<GsoMeta>)));
        }
        let j = after.out.len() - 1;
        assert(j >= 0 && after.out[j] == (frames[i], None::<GsoMeta>));
        lemma_prefix_extends(frames, (i + 1) as nat, n);
        lemma_flushed_extends(frames, gro_prefix(frames, n));
        let fin = spec_gro(frames);
        assert(fin.subrange(0, after.out.len() as int)[j] == fin[j]);
        assert(fin[j] == (frames[i], None::<GsoMeta>));
    }
}

} // verus!
