//! Decoder for a self-describing, tagged-record binary container that
//! archives time-series instrument data as a stream of frames.
//!
//! The stream is a sequence of length-prefixed, typed records
//! ([`structures::Structure`]), decoded little-endian from a forward-only
//! [`bytes::ByteSource`].  This module holds the frame traversal engine:
//! it reads a file prologue, walks one frame's records, filters channel
//! metadata by name and GPS time window, and resolves payload vectors to
//! their owning metadata records through instance-id pointers.  All time
//! arithmetic is exact, in whole nanoseconds (see [`time`]).

use vstd::prelude::*;

pub mod bytes;
pub mod error;
pub mod structures;
pub mod time;

use crate::bytes::ByteSource;
use crate::bytes::take_raw;
use crate::bytes::take_u16;
use crate::bytes::take_u32;
use crate::bytes::take_u64;
use crate::bytes::take_u8;
use crate::error::DecodeError;
use crate::structures::FrameHV;
use crate::structures::Structure;
use crate::structures::StructureV;
use crate::structures::class_of;
use crate::structures::dv_instance_of;
use crate::structures::end_ns;
use crate::structures::instance_of;
use crate::structures::name_of;
use crate::structures::parse_structure;
use crate::structures::start_ns;
use crate::structures::take_skip;
use crate::time::window_overlaps;

verus! {

/// IEEE-754 binary32 bit pattern of the sample value stored in the file
/// prologue as an endianness and width self-test.
pub const F32_PI_BITS: u32 = 0x40490FDB;

/// IEEE-754 binary64 bit pattern of the same sample value.
pub const F64_PI_BITS: u64 = 0x400921FB54442D18;

/// The file prologue: magic tag, format and library tags, declared type
/// widths, sample integers and sample floats (held as bit patterns) used
/// purely as a self-test, and the frame-library and checksum-kind tags.
#[derive(Debug, PartialEq)]
pub struct FileHeader {
    pub magic: Vec<u8>,
    pub data_format: u8,
    pub library: u8,
    pub size_u16: u8,
    pub size_u32: u8,
    pub size_u64: u8,
    pub size_f32: u8,
    pub size_f64: u8,
    pub sample_u16: u16,
    pub sample_u32: u32,
    pub sample_u64: u64,
    pub pi_f32: u32,
    pub pi_f64: u64,
    pub frame_lib: u8,
    pub checksum: u8,
}

/// Model of [`FileHeader`].
pub struct FileHeaderV {
    pub magic: Seq<u8>,
    pub data_format: u8,
    pub library: u8,
    pub size_u16: u8,
    pub size_u32: u8,
    pub size_u64: u8,
    pub size_f32: u8,
    pub size_f64: u8,
    pub sample_u16: u16,
    pub sample_u32: u32,
    pub sample_u64: u64,
    pub pi_f32: u32,
    pub pi_f64: u64,
    pub frame_lib: u8,
    pub checksum: u8,
}

impl View for FileHeader {
    type V = FileHeaderV;

    open spec fn view(&self) -> FileHeaderV {
        FileHeaderV {
            magic: self.magic@,
            data_format: self.data_format,
            library: self.library,
            size_u16: self.size_u16,
            size_u32: self.size_u32,
            size_u64: self.size_u64,
            size_f32: self.size_f32,
            size_f64: self.size_f64,
            sample_u16: self.sample_u16,
            sample_u32: self.sample_u32,
            sample_u64: self.sample_u64,
            pi_f32: self.pi_f32,
            pi_f64: self.pi_f64,
            frame_lib: self.frame_lib,
            checksum: self.checksum,
        }
    }
}

/// Parse the file prologue: 5-byte magic, data-format and library tags,
/// five declared type widths, three sample integers, two sample floats
/// (bit patterns), a frame-library tag and a checksum-kind tag.
pub open spec fn parse_prologue(s: Seq<u8>) -> Option<(FileHeaderV, Seq<u8>)> {
    match take_raw(s, 5) {
        Some((magic, r1)) => match take_u8(r1) {
            Some((data_format, r2)) => match take_u8(r2) {
                Some((library, r3)) => match take_u8(r3) {
                    Some((size_u16, r4)) => match take_u8(r4) {
                        Some((size_u32, r5)) => match take_u8(r5) {
                            Some((size_u64, r6)) => match take_u8(r6) {
                                Some((size_f32, r7)) => match take_u8(r7) {
                                    Some((size_f64, r8)) => match take_u16(r8) {
                                        Some((sample_u16, r9)) => match take_u32(r9) {
                                            Some((sample_u32, r10)) => match take_u64(r10) {
                                                Some((sample_u64, r11)) => match take_u32(r11) {
                                                    Some((pi_f32, r12)) => match take_u64(r12) {
                                                        Some((pi_f64, r13)) => match take_u8(
                                                            r13,
                                                        ) {
                                                            Some((frame_lib, r14)) => match
                                                                take_u8(r14) {
                                                                Some((checksum, r15)) => Some(
                                                                    (
                                                                        FileHeaderV {
                                                                            magic,
                                                                            data_format,
                                                                            library,
                                                                            size_u16,
                                                                            size_u32,
                                                                            size_u64,
                                                                            size_f32,
                                                                            size_f64,
                                                                            sample_u16,
                                                                            sample_u32,
                                                                            sample_u64,
                                                                            pi_f32,
                                                                            pi_f64,
                                                                            frame_lib,
                                                                            checksum,
                                                                        },
                                                                        r15,
                                                                    ),
                                                                ),
                                                                None => None,
                                                            },
                                                            None => None,
                                                        },
                                                        None => None,
                                                    },
                                                    None => None,
                                                },
                                                None => None,
                                            },
                                            None => None,
                                        },
                                        None => None,
                                    },
                                    None => None,
                                },
                                None => None,
                            },
                            None => None,
                        },
                        None => None,
                    },
                    None => None,
                },
                None => None,
            },
            None => None,
        },
        None => None,
    }
}

/// Decode the file prologue from the start of a stream.
pub fn read_file_header(src: &mut ByteSource) -> (r: Result<FileHeader, DecodeError>)
    ensures
        match r {
            Ok(v) => parse_prologue(old(src)@) == Some((v@, final(src)@)),
            Err(e) => {
                &&& e == DecodeError::TruncatedStream
                &&& parse_prologue(old(src)@) is None
            },
        },
{
    let magic = match src.read_raw(5) {
        Ok(v) => v,
        Err(e) => return Err(e),
    };
    let data_format = match src.read_one_byte() {
        Ok(v) => v,
        Err(e) => return Err(e),
    };
    let library = match src.read_one_byte() {
        Ok(v) => v,
        Err(e) => return Err(e),
    };
    let size_u16 = match src.read_one_byte() {
        Ok(v) => v,
        Err(e) => return Err(e),
    };
    let size_u32 = match src.read_one_byte() {
        Ok(v) => v,
        Err(e) => return Err(e),
    };
    let size_u64 = match src.read_one_byte() {
        Ok(v) => v,
        Err(e) => return Err(e),
    };
    let size_f32 = match src.read_one_byte() {
        Ok(v) => v,
        Err(e) => return Err(e),
    };
    let size_f64 = match src.read_one_byte() {
        Ok(v) => v,
        Err(e) => return Err(e),
    };
    let sample_u16 = match src.read_u16() {
        Ok(v) => v,
        Err(e) => return Err(e),
    };
    let sample_u32 = match src.read_u32() {
        Ok(v) => v,
        Err(e) => return Err(e),
    };
    let sample_u64 = match src.read_u64() {
        Ok(v) => v,
        Err(e) => return Err(e),
    };
    let pi_f32 = match src.read_f32() {
        Ok(v) => v,
        Err(e) => return Err(e),
    };
    let pi_f64 = match src.read_f64() {
        Ok(v) => v,
        Err(e) => return Err(e),
    };
    let frame_lib = match src.read_one_byte() {
        Ok(v) => v,
        Err(e) => return Err(e),
    };
    let checksum = match src.read_one_byte() {
        Ok(v) => v,
        Err(e) => return Err(e),
    };
    Ok(
        FileHeader {
            magic,
            data_format,
            library,
            size_u16,
            size_u32,
            size_u64,
            size_f32,
            size_f64,
            sample_u16,
            sample_u32,
            sample_u64,
            pi_f32,
            pi_f64,
            frame_lib,
            checksum,
        },
    )
}

impl FileHeader {
    /// The prologue's self-test: both embedded sample floats must be the
    /// bit-exact IEEE-754 encodings of the expected constant; anything
    /// else is a corruption signal.
    pub fn self_check(&self) -> (r: bool)
        ensures
            r == (self.pi_f32 == F32_PI_BITS && self.pi_f64 == F64_PI_BITS),
    {
        self.pi_f32 == F32_PI_BITS && self.pi_f64 == F64_PI_BITS
    }
}

/// Parse records until the first one that is not a dictionary element
/// (class 2); dictionary elements are consumed and dropped.  The length
/// test on the remainder always holds of a real record, which spans at
/// least its 14-byte preamble; it bounds the recursion.
#[verifier::opaque]
pub open spec fn parse_elements(s: Seq<u8>) -> Option<(StructureV, Seq<u8>)>
    decreases s.len(),
{
    match parse_structure(s) {
        Some((v, r)) => if class_of(v) == 2 {
            if r.len() < s.len() {
                parse_elements(r)
            } else {
                None
            }
        } else {
            Some((v, r))
        },
        None => None,
    }
}

/// Step over records by their declared spans until the first one that is
/// not a dictionary element (class 2); yield its class tag and instance.
#[verifier::opaque]
pub open spec fn skip_elements(s: Seq<u8>) -> Option<((u16, u32), Seq<u8>)>
    decreases s.len(),
{
    match take_skip(s) {
        Some((p, r)) => if p.0 == 2 {
            if r.len() < s.len() {
                skip_elements(r)
            } else {
                None
            }
        } else {
            Some((p, r))
        },
        None => None,
    }
}

/// Whether a frame's span overlaps the query window (the frame-traversal
/// time filter), over exact nanosecond instants.
pub open spec fn accepted(h: FrameHV, qs: u64, qe: u64) -> bool {
    window_overlaps(start_ns(h) as int, end_ns(h) as int, qs as int, qe as int)
}

/// The models of a sequence of decoded records.
pub open spec fn seq_view(v: Seq<Structure>) -> Seq<StructureV> {
    Seq::new(v.len(), |i: int| v[i]@)
}

/// Walk one frame's records after its header: each cycle is a dictionary
/// header announcing a class, dictionary elements, and the record itself.
/// Channel metadata (classes 4 and 11) is kept when the frame is accepted
/// and the name matches, and its payload pointer becomes pending; a
/// payload vector (class 20) is kept when its instance id is pending; the
/// frame terminator (class 7) ends the walk; every other class is stepped
/// over and reported as a protocol anomaly.  The accumulators carry the
/// kept records, kept vectors and anomaly tags in stream order.
pub open spec fn frame_scan(
    s: Seq<u8>,
    name: Seq<u8>,
    accept: bool,
    pending: Seq<u32>,
    metas: Seq<StructureV>,
    vects: Seq<StructureV>,
    anns: Seq<u16>,
) -> Option<((Seq<StructureV>, Seq<StructureV>, Seq<u16>), Seq<u8>)>
    decreases s.len(),
{
    match parse_structure(s) {
        Some((h, r1)) => if !(h is FrSH) {
            None
        } else {
            let c = h.arrow_FrSH_0().class;
            if c == 7 {
                match parse_elements(r1) {
                    Some((v, r2)) => if class_of(v) == 7 {
                        Some(((metas, vects, anns), r2))
                    } else {
                        None
                    },
                    None => None,
                }
            } else if c == 4 || c == 11 || c == 20 {
                match parse_elements(r1) {
                    Some((v, r2)) => if class_of(v) != c {
                        None
                    } else if r2.len() >= s.len() {
                        None
                    } else {
                        if c == 20 {
                            if pending.contains(instance_of(v)) {
                                frame_scan(r2, name, accept, pending, metas, vects.push(v), anns)
                            } else {
                                frame_scan(r2, name, accept, pending, metas, vects, anns)
                            }
                        } else {
                            if accept && name_of(v) == name {
                                frame_scan(
                                    r2,
                                    name,
                                    accept,
                                    pending.push(dv_instance_of(v)),
                                    metas.push(v),
                                    vects,
                                    anns,
                                )
                            } else {
                                frame_scan(r2, name, accept, pending, metas, vects, anns)
                            }
                        }
                    },
                    None => None,
                }
            } else {
                match skip_elements(r1) {
                    Some((p, r2)) => if p.0 != c {
                        None
                    } else if r2.len() >= s.len() {
                        None
                    } else {
                        frame_scan(r2, name, accept, pending, metas, vects, anns.push(c))
                    },
                    None => None,
                }
            }
        },
        None => None,
    }
}

/// Parse one whole frame given the declared class of its announcing
/// dictionary header: the frame header (which must be class 3), then the
/// record walk with the time filter fixed by the header's span.
pub open spec fn parse_frame(s: Seq<u8>, declared: u16, name: Seq<u8>, qs: u64, qe: u64) -> Option<
    ((Seq<StructureV>, Seq<StructureV>, Seq<u16>), Seq<u8>),
> {
    if declared != 3 {
        None
    } else {
        match parse_elements(s) {
            Some((hv, r1)) => if class_of(hv) == 3 {
                frame_scan(
                    r1,
                    name,
                    accepted(hv.arrow_FrameH_0(), qs, qe),
                    Seq::empty(),
                    Seq::empty(),
                    Seq::empty(),
                    Seq::empty(),
                )
            } else {
                None
            },
            None => None,
        }
    }
}

/// What one frame traversal yields: the accepted channel metadata records
/// and their resolved payload vectors, both in stream order, and the class
/// tags of out-of-place records that were absorbed as protocol anomalies
/// rather than raised as errors.
#[derive(Debug, PartialEq)]
pub struct FrameReadout {
    pub records: Vec<Structure>,
    pub vectors: Vec<Structure>,
    pub anomalies: Vec<u16>,
}

impl View for FrameReadout {
    type V = (Seq<StructureV>, Seq<StructureV>, Seq<u16>);

    open spec fn view(&self) -> (Seq<StructureV>, Seq<StructureV>, Seq<u16>) {
        (seq_view(self.records@), seq_view(self.vectors@), self.anomalies@)
    }
}

/// `seq_view` commutes with `push`.
proof fn lemma_seq_view_push(v: Seq<Structure>, x: Structure)
    ensures
        seq_view(v.push(x)) == seq_view(v).push(x@),
{
    assert(seq_view(v.push(x)) =~= seq_view(v).push(x@));
}

/// Whether a `u32` sequence holds a value, by linear scan.
fn contains_u32(v: &Vec<u32>, x: u32) -> (r: bool)
    ensures
        r == v@.contains(x),
{
    let mut i: usize = 0;
    while i < v.len()
        invariant
            i <= v@.len(),
            forall|k: int| 0 <= k < i ==> v@[k] != x,
        decreases v@.len() - i,
    {
        if v[i] == x {
            return true;
        }
        i = i + 1;
    }
    proof {
        assert(!v@.contains(x));
    }
    false
}

/// Byte-string equality.
fn bytes_eq(a: &Vec<u8>, b: &Vec<u8>) -> (r: bool)
    ensures
        r == (a@ == b@),
{
    if a.len() != b.len() {
        return false;
    }
    let mut i: usize = 0;
    while i < a.len()
        invariant
            i <= a@.len(),
            a@.len() == b@.len(),
            forall|k: int| 0 <= k < i ==> a@[k] == b@[k],
        decreases a@.len() - i,
    {
        if a[i] != b[i] {
            return false;
        }
        i = i + 1;
    }
    proof {
        assert(a@ =~= b@);
    }
    true
}

/// Decode the next record, which must be a dictionary header; yield it
/// with the class number it declares for the record that follows.
pub fn read_frame_header(src: &mut ByteSource) -> (r: Result<(Structure, u16), DecodeError>)
    ensures
        match r {
            Ok(p) => {
                &&& parse_structure(old(src)@) == Some((p.0@, final(src)@))
                &&& p.0@ is FrSH
                &&& p.1 == p.0@.arrow_FrSH_0().class
                &&& final(src)@.len() < old(src)@.len()
            },
            Err(e) => {
                &&& (e == DecodeError::UnexpectedStructureClass ==> (match parse_structure(
                    old(src)@,
                ) {
                    Some(p) => !(p.0 is FrSH),
                    None => false,
                }))
                &&& (e != DecodeError::UnexpectedStructureClass ==> parse_structure(old(src)@)
                    is None)
            },
        },
{
    let st = match Structure::read(src) {
        Ok(v) => v,
        Err(e) => return Err(e),
    };
    let c = match &st {
        Structure::FrSH(x) => x.get_struct_class(),
        _ => {
            return Err(DecodeError::UnexpectedStructureClass);
        },
    };
    Ok((st, c))
}

/// Decode one announced record: consume the dictionary elements that
/// follow the given dictionary header, then the record itself, whose
/// class must be the one the header declared.
pub fn read_one_structure(src: &mut ByteSource, frsh: Structure) -> (r: Result<
    Structure,
    DecodeError,
>)
    requires
        frsh@ is FrSH,
    ensures
        match r {
            Ok(st) => {
                &&& parse_elements(old(src)@) == Some((st@, final(src)@))
                &&& class_of(st@) == frsh@.arrow_FrSH_0().class
                &&& final(src)@.len() < old(src)@.len()
            },
            Err(e) => {
                &&& (e == DecodeError::UnexpectedStructureClass ==> (match parse_elements(
                    old(src)@,
                ) {
                    Some(p) => class_of(p.0) != frsh@.arrow_FrSH_0().class,
                    None => false,
                }))
                &&& (e != DecodeError::UnexpectedStructureClass ==> parse_elements(old(src)@)
                    is None)
            },
        },
{
    proof {
        reveal(parse_elements);
    }
    let declared = match &frsh {
        Structure::FrSH(x) => x.get_struct_class(),
        _ => {
            proof {
                assert(false);
            }
            0
        },
    };
    let mut current = match Structure::read(src) {
        Ok(v) => v,
        Err(e) => return Err(e),
    };
    while current.get_class() == 2
        invariant
            class_of(current@) == 2 ==> parse_elements(old(src)@) == parse_elements(src@)
                && src@.len() < old(src)@.len(),
            class_of(current@) != 2 ==> parse_elements(old(src)@) == Some((current@, src@))
                && src@.len() < old(src)@.len(),
        decreases src@.len(),
    {
        proof {
            reveal(parse_elements);
        }
        current = match Structure::read(src) {
            Ok(v) => v,
            Err(e) => return Err(e),
        };
    }
    if current.get_class() == declared {
        Ok(current)
    } else {
        Err(DecodeError::UnexpectedStructureClass)
    }
}

/// Step over one announced record by declared spans: the dictionary
/// elements after the given dictionary header, then the record itself,
/// whose class must be the one the header declared; nothing is decoded.
/// Yields the skipped record's instance id.
pub fn skip_one_structure(src: &mut ByteSource, frsh: Structure) -> (r: Result<u32, DecodeError>)
    requires
        frsh@ is FrSH,
    ensures
        match r {
            Ok(inst) => {
                &&& skip_elements(old(src)@) == Some(
                    ((frsh@.arrow_FrSH_0().class, inst), final(src)@),
                )
                &&& final(src)@.len() < old(src)@.len()
            },
            Err(e) => {
                &&& (e == DecodeError::UnexpectedStructureClass ==> (match skip_elements(
                    old(src)@,
                ) {
                    Some(p) => p.0.0 != frsh@.arrow_FrSH_0().class,
                    None => false,
                }))
                &&& (e != DecodeError::UnexpectedStructureClass ==> skip_elements(old(src)@)
                    is None && e == DecodeError::TruncatedStream)
            },
        },
{
    proof {
        reveal(skip_elements);
    }
    let declared = match &frsh {
        Structure::FrSH(x) => x.get_struct_class(),
        _ => {
            proof {
                assert(false);
            }
            0
        },
    };
    let first = match Structure::skip(src) {
        Ok(p) => p,
        Err(e) => return Err(e),
    };
    let mut class = first.0;
    let mut instance = first.1;
    while class == 2
        invariant
            class == 2 ==> skip_elements(old(src)@) == skip_elements(src@) && src@.len() < old(
                src,
            )@.len(),
            class != 2 ==> skip_elements(old(src)@) == Some(((class, instance), src@))
                && src@.len() < old(src)@.len(),
        decreases src@.len(),
    {
        proof {
            reveal(skip_elements);
        }
        let p = match Structure::skip(src) {
            Ok(p) => p,
            Err(e) => return Err(e),
        };
        class = p.0;
        instance = p.1;
    }
    if class == declared {
        Ok(instance)
    } else {
        Err(DecodeError::UnexpectedStructureClass)
    }
}

/// Traverse one frame.  `frsh` is the already-decoded dictionary header
/// that announced the frame header; it must declare class 3.  Records are
/// filtered by channel `name` and by overlap of the frame's GPS span with
/// the window `[gps_start, gps_end]`, both in nanoseconds; payload
/// vectors are resolved to the kept metadata records by instance id.
/// Out-of-place records are stepped over and reported in
/// `FrameReadout::anomalies`, not raised as errors.
#[verifier::rlimit(100)]
#[verifier::loop_isolation(false)]
pub fn read_frame(
    src: &mut ByteSource,
    frsh: Structure,
    name: Vec<u8>,
    gps_start: u64,
    gps_end: u64,
) -> (r: Result<FrameReadout, DecodeError>)
    requires
        frsh@ is FrSH,
    ensures
        match r {
            Ok(out) => parse_frame(
                old(src)@,
                frsh@.arrow_FrSH_0().class,
                name@,
                gps_start,
                gps_end,
            ) == Some((out@, final(src)@)),
            Err(e) => {
                &&& parse_frame(old(src)@, frsh@.arrow_FrSH_0().class, name@, gps_start, gps_end)
                    is None
                &&& (frsh@.arrow_FrSH_0().class != 3 ==> e
                    == DecodeError::UnexpectedStructureClass)
            },
        },
{
    let declared = match &frsh {
        Structure::FrSH(x) => x.get_struct_class(),
        _ => {
            proof {
                assert(false);
            }
            0
        },
    };
    if declared != 3 {
        return Err(DecodeError::UnexpectedStructureClass);
    }
    let current = match read_one_structure(src, frsh) {
        Ok(v) => v,
        Err(e) => return Err(e),
    };
    let times = match &current {
        Structure::FrameH(x) => (x.get_start(), x.get_end()),
        _ => {
            proof {
                assert(false);
            }
            (0, 0)
        },
    };
    let accept = crate::time::window_accepts(times.0, times.1, gps_start, gps_end);
    let ghost s1 = src@;
    let mut records: Vec<Structure> = Vec::new();
    let mut vectors: Vec<Structure> = Vec::new();
    let mut anomalies: Vec<u16> = Vec::new();
    let mut pending: Vec<u32> = Vec::new();
    proof {
        assert(seq_view(records@) =~= Seq::<StructureV>::empty());
        assert(seq_view(vectors@) =~= Seq::<StructureV>::empty());
        assert(anomalies@ =~= Seq::<u16>::empty());
        assert(pending@ =~= Seq::<u32>::empty());
    }
    loop
        invariant
            frame_scan(s1, name@, accept, Seq::empty(), Seq::empty(), Seq::empty(), Seq::empty())
                == frame_scan(
                src@,
                name@,
                accept,
                pending@,
                seq_view(records@),
                seq_view(vectors@),
                anomalies@,
            ),
        decreases src@.len(),
    {
        let (fh, c) = match read_frame_header(src) {
            Ok(p) => p,
            Err(e) => return Err(e),
        };
        if c == 7 {
            match read_one_structure(src, fh) {
                Ok(_) => (),
                Err(e) => return Err(e),
            };
            return Ok(FrameReadout { records, vectors, anomalies });
        } else if c == 4 || c == 11 || c == 20 {
            let st = match read_one_structure(src, fh) {
                Ok(v) => v,
                Err(e) => return Err(e),
            };
            if c == 20 {
                if contains_u32(&pending, st.get_instance()) {
                    proof {
                        lemma_seq_view_push(vectors@, st);
                    }
                    vectors.push(st);
                }
            } else {
                let st_name = st.get_name();
                if accept && bytes_eq(&st_name, &name) {
                    pending.push(st.get_datavector_instance());
                    proof {
                        lemma_seq_view_push(records@, st);
                    }
                    records.push(st);
                }
            }
        } else {
            match skip_one_structure(src, fh) {
                Ok(_) => (),
                Err(e) => return Err(e),
            };
            anomalies.push(c);
        }
    }
}

/// What the traversal keeps as channel metadata: an analog or processed
/// channel record bearing the queried name.
pub open spec fn meta_selected(v: StructureV, name: Seq<u8>) -> bool {
    (class_of(v) == 4 || class_of(v) == 11) && name_of(v) == name
}

/// A kept payload vector resolves a kept metadata record: its instance id
/// equals some metadata record's payload pointer.
pub open spec fn vector_resolved(v: StructureV, metas: Seq<StructureV>) -> bool {
    class_of(v) == 20 && exists|j: int|
        0 <= j < metas.len() && dv_instance_of(#[trigger] metas[j]) == instance_of(v)
}

/// Selection law of the frame walk, over any accumulator state: the walk
/// only ever appends, every metadata record it appends bears the queried
/// name, every vector it appends resolves a pending payload pointer, and
/// when the frame was rejected by the time filter it appends no metadata
/// record at all (and no vector, once nothing is pending).
pub proof fn lemma_frame_scan_selection(
    s: Seq<u8>,
    name: Seq<u8>,
    accept: bool,
    pending: Seq<u32>,
    metas: Seq<StructureV>,
    vects: Seq<StructureV>,
    anns: Seq<u16>,
    m: Seq<StructureV>,
    v: Seq<StructureV>,
    a: Seq<u16>,
    rest: Seq<u8>,
)
    requires
        frame_scan(s, name, accept, pending, metas, vects, anns) == Some(((m, v, a), rest)),
        forall|i: int| 0 <= i < metas.len() ==> meta_selected(#[trigger] metas[i], name),
        forall|x: u32|
            pending.contains(x) ==> exists|j: int|
                0 <= j < metas.len() && dv_instance_of(#[trigger] metas[j]) == x,
        forall|i: int| 0 <= i < vects.len() ==> vector_resolved(#[trigger] vects[i], metas),
        accept || pending.len() == 0,
    ensures
        metas.len() <= m.len() && m.take(metas.len() as int) == metas,
        forall|i: int| 0 <= i < m.len() ==> meta_selected(#[trigger] m[i], name),
        forall|i: int| 0 <= i < v.len() ==> vector_resolved(#[trigger] v[i], m),
        !accept ==> m == metas && v == vects,
    decreases s.len(),
{
    let scan = frame_scan(s, name, accept, pending, metas, vects, anns);
    match parse_structure(s) {
        Some((h, r1)) => {
            let c = h.arrow_FrSH_0().class;
            if c == 7 {
                assert(m == metas && v == vects);
                assert(m.take(metas.len() as int) =~= metas);
            } else if c == 4 || c == 11 || c == 20 {
                let (x, r2) = parse_elements(r1).unwrap();
                if c == 20 {
                    if pending.contains(instance_of(x)) {
                        assert(vector_resolved(x, metas));
                        assert(forall|i: int|
                            0 <= i < vects.push(x).len() ==> vector_resolved(
                                #[trigger] vects.push(x)[i],
                                metas,
                            ));
                        lemma_frame_scan_selection(
                            r2,
                            name,
                            accept,
                            pending,
                            metas,
                            vects.push(x),
                            anns,
                            m,
                            v,
                            a,
                            rest,
                        );
                        assert(accept) by {
                            if !accept {
                                assert(pending.len() == 0);
                                let w = choose|k: int|
                                    0 <= k < pending.len() && pending[k] == instance_of(x);
                                assert(false);
                            }
                        }
                    } else {
                        lemma_frame_scan_selection(
                            r2,
                            name,
                            accept,
                            pending,
                            metas,
                            vects,
                            anns,
                            m,
                            v,
                            a,
                            rest,
                        );
                    }
                } else {
                    if accept && name_of(x) == name {
                        let metas2 = metas.push(x);
                        let pending2 = pending.push(dv_instance_of(x));
                        assert(meta_selected(x, name));
                        assert(forall|i: int|
                            0 <= i < metas2.len() ==> meta_selected(#[trigger] metas2[i], name));
                        assert forall|y: u32| pending2.contains(y) implies exists|j: int|
                            0 <= j < metas2.len() && dv_instance_of(#[trigger] metas2[j])
                                == y by {
                            let k = choose|k: int|
                                0 <= k < pending2.len() && pending2[k] == y;
                            if k < pending.len() {
                                assert(pending.contains(y));
                                let j = choose|j: int|
                                    0 <= j < metas.len() && dv_instance_of(
                                        #[trigger] metas[j],
                                    ) == y;
                                assert(dv_instance_of(metas2[j]) == y);
                            } else {
                                assert(dv_instance_of(metas2[metas.len() as int]) == y);
                            }
                        }
                        assert forall|i: int|
                            0 <= i < vects.len() implies vector_resolved(
                            #[trigger] vects[i],
                            metas2,
                        ) by {
                            assert(vector_resolved(vects[i], metas));
                            let j = choose|j: int|
                                0 <= j < metas.len() && dv_instance_of(#[trigger] metas[j])
                                    == instance_of(vects[i]);
                            assert(dv_instance_of(metas2[j]) == instance_of(vects[i]));
                        }
                        lemma_frame_scan_selection(
                            r2,
                            name,
                            accept,
                            pending2,
                            metas2,
                            vects,
                            anns,
                            m,
                            v,
                            a,
                            rest,
                        );
                        assert(m.take(metas.len() as int) =~= metas) by {
                            assert(metas2.take(metas.len() as int) =~= metas);
                            assert(m.take(metas2.len() as int) == metas2);
                            assert(forall|i: int|
                                0 <= i < metas.len() ==> m[i] == #[trigger] metas2[i]);
                        }
                    } else {
                        lemma_frame_scan_selection(
                            r2,
                            name,
                            accept,
                            pending,
                            metas,
                            vects,
                            anns,
                            m,
                            v,
                            a,
                            rest,
                        );
                    }
                }
            } else {
                let (p, r2) = skip_elements(r1).unwrap();
                lemma_frame_scan_selection(
                    r2,
                    name,
                    accept,
                    pending,
                    metas,
                    vects,
                    anns.push(c),
                    m,
                    v,
                    a,
                    rest,
                );
            }
        },
        None => {
            assert(false);
        },
    }
}

/// Resolution law of one whole frame: every metadata record a traversal
/// returns is channel metadata bearing the queried name; every returned
/// vector is a payload record whose instance id equals the payload
/// pointer of one of the returned metadata records; and a frame whose
/// span misses the query window yields nothing at all.
pub proof fn lemma_readout_resolved(
    s: Seq<u8>,
    declared: u16,
    name: Seq<u8>,
    qs: u64,
    qe: u64,
    m: Seq<StructureV>,
    v: Seq<StructureV>,
    a: Seq<u16>,
    rest: Seq<u8>,
)
    requires
        parse_frame(s, declared, name, qs, qe) == Some(((m, v, a), rest)),
    ensures
        forall|i: int| 0 <= i < m.len() ==> meta_selected(#[trigger] m[i], name),
        forall|i: int| 0 <= i < v.len() ==> vector_resolved(#[trigger] v[i], m),
        (match parse_elements(s) {
            Some(p) => !accepted(p.0.arrow_FrameH_0(), qs, qe) ==> m.len() == 0 && v.len() == 0,
            None => true,
        }),
{
    let (hv, r1) = parse_elements(s).unwrap();
    let acc = accepted(hv.arrow_FrameH_0(), qs, qe);
    lemma_frame_scan_selection(
        r1,
        name,
        acc,
        Seq::empty(),
        Seq::empty(),
        Seq::empty(),
        Seq::empty(),
        m,
        v,
        a,
        rest,
    );
}

} // verus!
