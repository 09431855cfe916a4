//! The record kinds of the container and their variant decoders.
//!
//! Every record begins with a common 14-byte preamble: byte span (`u64`),
//! a checksum-kind tag (`u8`, consumed but not interpreted), a class tag
//! (`u8`) and an instance id (`u32`).  The dispatcher routes the rest of
//! the record to the decoder of its class; unknown class tags are a hard
//! stop.  Text fields are held as their UTF-8 bytes, floating-point fields
//! as their little-endian IEEE-754 bit patterns.
//!
//! Each decoder is specified against a pure `parse_*` function from the
//! byte sequence to the mathematical model of the record (a `*V` struct
//! whose text fields are `Seq<u8>`) plus the remaining suffix.

use vstd::prelude::*;

use crate::bytes::ByteSource;
use crate::bytes::ptr_p;
use crate::bytes::take_ptr;
use crate::bytes::take_raw;
use crate::bytes::take_rep;
use crate::bytes::take_text;
use crate::bytes::take_u16;
use crate::bytes::take_u32;
use crate::bytes::take_u64;
use crate::bytes::take_u8;
use crate::bytes::text_p;
use crate::bytes::u16_p;
use crate::bytes::u32_p;
use crate::bytes::u64_p;
use crate::error::DecodeError;

verus! {

/// Dictionary header: declares the class number and name of the record
/// that follows it in the dictionary block.
#[derive(Debug, PartialEq)]
pub struct FrSH {
    pub length: u64,
    pub instance: u32,
    pub name: Vec<u8>,
    pub class: u16,
    pub comment: Vec<u8>,
}

/// Model of [`FrSH`].
pub struct FrSHV {
    pub length: u64,
    pub instance: u32,
    pub name: Seq<u8>,
    pub class: u16,
    pub comment: Seq<u8>,
}

impl View for FrSH {
    type V = FrSHV;

    open spec fn view(&self) -> FrSHV {
        FrSHV {
            length: self.length,
            instance: self.instance,
            name: self.name@,
            class: self.class,
            comment: self.comment@,
        }
    }
}

/// One dictionary element describing a field layout.
#[derive(Debug, PartialEq)]
pub struct FrSE {
    pub length: u64,
    pub instance: u32,
    pub name: Vec<u8>,
    pub class: Vec<u8>,
    pub comment: Vec<u8>,
}

/// Model of [`FrSE`].
pub struct FrSEV {
    pub length: u64,
    pub instance: u32,
    pub name: Seq<u8>,
    pub class: Seq<u8>,
    pub comment: Seq<u8>,
}

impl View for FrSE {
    type V = FrSEV;

    open spec fn view(&self) -> FrSEV {
        FrSEV {
            length: self.length,
            instance: self.instance,
            name: self.name@,
            class: self.class@,
            comment: self.comment@,
        }
    }
}

/// One frame's envelope.  `dt` is the duration's binary64 bit pattern;
/// `data` keeps the nonzero child pointers in stream order.
#[derive(Debug, PartialEq)]
pub struct FrameH {
    pub length: u64,
    pub instance: u32,
    pub name: Vec<u8>,
    pub run: u32,
    pub frame: u32,
    pub gps_sec: u32,
    pub gps_nano: u32,
    pub u_leap: u16,
    pub dt: u64,
    pub data: Vec<(u16, u32)>,
}

/// Model of [`FrameH`].
pub struct FrameHV {
    pub length: u64,
    pub instance: u32,
    pub name: Seq<u8>,
    pub run: u32,
    pub frame: u32,
    pub gps_sec: u32,
    pub gps_nano: u32,
    pub u_leap: u16,
    pub dt: u64,
    pub data: Seq<(u16, u32)>,
}

impl View for FrameH {
    type V = FrameHV;

    open spec fn view(&self) -> FrameHV {
        FrameHV {
            length: self.length,
            instance: self.instance,
            name: self.name@,
            run: self.run,
            frame: self.frame,
            gps_sec: self.gps_sec,
            gps_nano: self.gps_nano,
            u_leap: self.u_leap,
            dt: self.dt,
            data: self.data@,
        }
    }
}

/// Analog-channel metadata.  The `f32`/`f64` fields of the format are held
/// as bit patterns; `data` and `next` are cross-reference pointers.
#[derive(Debug, PartialEq)]
pub struct FrAdcData {
    pub length: u64,
    pub instance: u32,
    pub name: Vec<u8>,
    pub comment: Vec<u8>,
    pub ch_group: u32,
    pub ch_num: u32,
    pub n_bits: u32,
    pub bias: u32,
    pub slope: u32,
    pub unit: Vec<u8>,
    pub sample_rate: u64,
    pub time_offset: u64,
    pub f_shift: u64,
    pub phase: u32,
    pub valid_data: u32,
    pub data: (u16, u32),
    pub next: (u16, u32),
}

/// Model of [`FrAdcData`].
pub struct FrAdcDataV {
    pub length: u64,
    pub instance: u32,
    pub name: Seq<u8>,
    pub comment: Seq<u8>,
    pub ch_group: u32,
    pub ch_num: u32,
    pub n_bits: u32,
    pub bias: u32,
    pub slope: u32,
    pub unit: Seq<u8>,
    pub sample_rate: u64,
    pub time_offset: u64,
    pub f_shift: u64,
    pub phase: u32,
    pub valid_data: u32,
    pub data: (u16, u32),
    pub next: (u16, u32),
}

impl View for FrAdcData {
    type V = FrAdcDataV;

    open spec fn view(&self) -> FrAdcDataV {
        FrAdcDataV {
            length: self.length,
            instance: self.instance,
            name: self.name@,
            comment: self.comment@,
            ch_group: self.ch_group,
            ch_num: self.ch_num,
            n_bits: self.n_bits,
            bias: self.bias,
            slope: self.slope,
            unit: self.unit@,
            sample_rate: self.sample_rate,
            time_offset: self.time_offset,
            f_shift: self.f_shift,
            phase: self.phase,
            valid_data: self.valid_data,
            data: self.data,
            next: self.next,
        }
    }
}

/// File terminator marker.
#[derive(Debug, PartialEq)]
pub struct FrEndOfFile {
    pub length: u64,
    pub instance: u32,
    pub n_frames: u32,
    pub n_bytes: u64,
    pub seek_toc: u64,
}

/// Model of [`FrEndOfFile`].
pub struct FrEndOfFileV {
    pub length: u64,
    pub instance: u32,
    pub n_frames: u32,
    pub n_bytes: u64,
    pub seek_toc: u64,
}

impl View for FrEndOfFile {
    type V = FrEndOfFileV;

    open spec fn view(&self) -> FrEndOfFileV {
        FrEndOfFileV {
            length: self.length,
            instance: self.instance,
            n_frames: self.n_frames,
            n_bytes: self.n_bytes,
            seek_toc: self.seek_toc,
        }
    }
}

/// Frame terminator marker.
#[derive(Debug, PartialEq)]
pub struct FrEndOfFrame {
    pub length: u64,
    pub instance: u32,
    pub run: u32,
    pub frame: u32,
    pub gps_sec: u32,
    pub gps_nano: u32,
}

/// Model of [`FrEndOfFrame`].
pub struct FrEndOfFrameV {
    pub length: u64,
    pub instance: u32,
    pub run: u32,
    pub frame: u32,
    pub gps_sec: u32,
    pub gps_nano: u32,
}

impl View for FrEndOfFrame {
    type V = FrEndOfFrameV;

    open spec fn view(&self) -> FrEndOfFrameV {
        FrEndOfFrameV {
            length: self.length,
            instance: self.instance,
            run: self.run,
            frame: self.frame,
            gps_sec: self.gps_sec,
            gps_nano: self.gps_nano,
        }
    }
}

/// Derived/processed-channel metadata.  `aux` zips the auxiliary parameter
/// values (binary64 bit patterns) with their names, pairwise by position.
#[derive(Debug, PartialEq)]
pub struct FrProcData {
    pub length: u64,
    pub instance: u32,
    pub name: Vec<u8>,
    pub comment: Vec<u8>,
    pub object_type: u16,
    pub sub_type: u16,
    pub time_offset: u64,
    pub time_range: u64,
    pub f_shift: u64,
    pub phase: u32,
    pub f_range: u64,
    pub bw: u64,
    pub aux: Vec<(u64, Vec<u8>)>,
    pub data: (u16, u32),
    pub next: (u16, u32),
}

/// Model of [`FrProcData`].
pub struct FrProcDataV {
    pub length: u64,
    pub instance: u32,
    pub name: Seq<u8>,
    pub comment: Seq<u8>,
    pub object_type: u16,
    pub sub_type: u16,
    pub time_offset: u64,
    pub time_range: u64,
    pub f_shift: u64,
    pub phase: u32,
    pub f_range: u64,
    pub bw: u64,
    pub aux: Seq<(u64, Seq<u8>)>,
    pub data: (u16, u32),
    pub next: (u16, u32),
}

impl View for FrProcData {
    type V = FrProcDataV;

    open spec fn view(&self) -> FrProcDataV {
        FrProcDataV {
            length: self.length,
            instance: self.instance,
            name: self.name@,
            comment: self.comment@,
            object_type: self.object_type,
            sub_type: self.sub_type,
            time_offset: self.time_offset,
            time_range: self.time_range,
            f_shift: self.f_shift,
            phase: self.phase,
            f_range: self.f_range,
            bw: self.bw,
            aux: Seq::new(self.aux@.len(), |i: int| (self.aux@[i].0, self.aux@[i].1@)),
            data: self.data,
            next: self.next,
        }
    }
}

/// Index over the file: per-frame timing and offsets, dictionary ids and
/// names, and per-channel name and position tables.  Positions tables are
/// channel-major: one row of per-frame offsets for each channel name.
#[derive(Debug, PartialEq)]
pub struct FrTOC {
    pub length: u64,
    pub instance: u32,
    pub leap: u16,
    pub gps_sec: Vec<u32>,
    pub gps_nano: Vec<u32>,
    pub dt: Vec<u64>,
    pub position: Vec<u64>,
    pub sh_id: Vec<u16>,
    pub sh_name: Vec<Vec<u8>>,
    pub name_adc: Vec<Vec<u8>>,
    pub position_adc: Vec<Vec<u64>>,
    pub name_proc: Vec<Vec<u8>>,
    pub position_proc: Vec<Vec<u64>>,
}

/// Model of [`FrTOC`].
pub struct FrTOCV {
    pub length: u64,
    pub instance: u32,
    pub leap: u16,
    pub gps_sec: Seq<u32>,
    pub gps_nano: Seq<u32>,
    pub dt: Seq<u64>,
    pub position: Seq<u64>,
    pub sh_id: Seq<u16>,
    pub sh_name: Seq<Seq<u8>>,
    pub name_adc: Seq<Seq<u8>>,
    pub position_adc: Seq<Seq<u64>>,
    pub name_proc: Seq<Seq<u8>>,
    pub position_proc: Seq<Seq<u64>>,
}

impl View for FrTOC {
    type V = FrTOCV;

    open spec fn view(&self) -> FrTOCV {
        FrTOCV {
            length: self.length,
            instance: self.instance,
            leap: self.leap,
            gps_sec: self.gps_sec@,
            gps_nano: self.gps_nano@,
            dt: self.dt@,
            position: self.position@,
            sh_id: self.sh_id@,
            sh_name: self.sh_name.deep_view(),
            name_adc: self.name_adc.deep_view(),
            position_adc: self.position_adc.deep_view(),
            name_proc: self.name_proc.deep_view(),
            position_proc: self.position_proc.deep_view(),
        }
    }
}

/// Payload container: raw payload bytes plus per-dimension geometry.
/// `dx` and `start_x` hold binary64 bit patterns.
#[derive(Debug, PartialEq)]
pub struct FrVect {
    pub length: u64,
    pub instance: u32,
    pub name: Vec<u8>,
    pub compress: u16,
    pub data_type: u16,
    pub n_data: u64,
    pub n_bytes: u64,
    pub data: Vec<u8>,
    pub n_dim: u32,
    pub dim: Vec<u64>,
    pub dx: Vec<u64>,
    pub start_x: Vec<u64>,
    pub unit_x: Vec<Vec<u8>>,
    pub unit_y: Vec<u8>,
    pub next: (u16, u32),
}

/// Model of [`FrVect`].
pub struct FrVectV {
    pub length: u64,
    pub instance: u32,
    pub name: Seq<u8>,
    pub compress: u16,
    pub data_type: u16,
    pub n_data: u64,
    pub n_bytes: u64,
    pub data: Seq<u8>,
    pub n_dim: u32,
    pub dim: Seq<u64>,
    pub dx: Seq<u64>,
    pub start_x: Seq<u64>,
    pub unit_x: Seq<Seq<u8>>,
    pub unit_y: Seq<u8>,
    pub next: (u16, u32),
}

impl View for FrVect {
    type V = FrVectV;

    open spec fn view(&self) -> FrVectV {
        FrVectV {
            length: self.length,
            instance: self.instance,
            name: self.name@,
            compress: self.compress,
            data_type: self.data_type,
            n_data: self.n_data,
            n_bytes: self.n_bytes,
            data: self.data@,
            n_dim: self.n_dim,
            dim: self.dim@,
            dx: self.dx@,
            start_x: self.start_x@,
            unit_x: self.unit_x.deep_view(),
            unit_y: self.unit_y@,
            next: self.next,
        }
    }
}

/// A decoded record: the tagged union over all known record kinds.
#[derive(Debug, PartialEq)]
pub enum Structure {
    FrSH(FrSH),
    FrSE(FrSE),
    FrameH(FrameH),
    FrAdcData(FrAdcData),
    FrEndOfFile(FrEndOfFile),
    FrEndOfFrame(FrEndOfFrame),
    FrProcData(FrProcData),
    FrTOC(FrTOC),
    FrVect(FrVect),
}

/// Model of [`Structure`].
pub enum StructureV {
    FrSH(FrSHV),
    FrSE(FrSEV),
    FrameH(FrameHV),
    FrAdcData(FrAdcDataV),
    FrEndOfFile(FrEndOfFileV),
    FrEndOfFrame(FrEndOfFrameV),
    FrProcData(FrProcDataV),
    FrTOC(FrTOCV),
    FrVect(FrVectV),
}

impl View for Structure {
    type V = StructureV;

    open spec fn view(&self) -> StructureV {
        match self {
            Structure::FrSH(x) => StructureV::FrSH(x@),
            Structure::FrSE(x) => StructureV::FrSE(x@),
            Structure::FrameH(x) => StructureV::FrameH(x@),
            Structure::FrAdcData(x) => StructureV::FrAdcData(x@),
            Structure::FrEndOfFile(x) => StructureV::FrEndOfFile(x@),
            Structure::FrEndOfFrame(x) => StructureV::FrEndOfFrame(x@),
            Structure::FrProcData(x) => StructureV::FrProcData(x@),
            Structure::FrTOC(x) => StructureV::FrTOC(x@),
            Structure::FrVect(x) => StructureV::FrVect(x@),
        }
    }
}

/// Parse the common 14-byte preamble: byte span, checksum-kind tag
/// (consumed, not interpreted), class tag, instance id.
pub open spec fn take_preamble(s: Seq<u8>) -> Option<((u64, u8, u32), Seq<u8>)> {
    match take_u64(s) {
        Some((length, r1)) => match take_u8(r1) {
            Some((_chk, r2)) => match take_u8(r2) {
                Some((class, r3)) => match take_u32(r3) {
                    Some((instance, r4)) => Some(((length, class, instance), r4)),
                    None => None,
                },
                None => None,
            },
            None => None,
        },
        None => None,
    }
}

/// Parse an `FrSH` body, after the preamble gave `length` and `instance`.
pub open spec fn parse_frsh(s: Seq<u8>, length: u64, instance: u32) -> Option<(FrSHV, Seq<u8>)> {
    match take_text(s) {
        Some((name, r1)) => match take_u16(r1) {
            Some((class, r2)) => match take_text(r2) {
                Some((comment, r3)) => match take_u32(r3) {
                    Some((_chk, r4)) => Some(
                        (FrSHV { length, instance, name, class, comment }, r4),
                    ),
                    None => None,
                },
                None => None,
            },
            None => None,
        },
        None => None,
    }
}

/// Parse an `FrSE` body.
pub open spec fn parse_frse(s: Seq<u8>, length: u64, instance: u32) -> Option<(FrSEV, Seq<u8>)> {
    match take_text(s) {
        Some((name, r1)) => match take_text(r1) {
            Some((class, r2)) => match take_text(r2) {
                Some((comment, r3)) => match take_u32(r3) {
                    Some((_chk, r4)) => Some(
                        (FrSEV { length, instance, name, class, comment }, r4),
                    ),
                    None => None,
                },
                None => None,
            },
            None => None,
        },
        None => None,
    }
}

/// Parse an `FrEndOfFile` body.
pub open spec fn parse_frendoffile(s: Seq<u8>, length: u64, instance: u32) -> Option<
    (FrEndOfFileV, Seq<u8>),
> {
    match take_u32(s) {
        Some((n_frames, r1)) => match take_u64(r1) {
            Some((n_bytes, r2)) => match take_u64(r2) {
                Some((seek_toc, r3)) => match take_u32(r3) {
                    Some((_chk_toc, r4)) => match take_u32(r4) {
                        Some((_chk_header, r5)) => match take_u32(r5) {
                            Some((_chk, r6)) => match take_u32(r6) {
                                Some((_chk_file, r7)) => Some(
                                    (
                                        FrEndOfFileV {
                                            length,
                                            instance,
                                            n_frames,
                                            n_bytes,
                                            seek_toc,
                                        },
                                        r7,
                                    ),
                                ),
                                None => None,
                            },
                            None => None,
                        },
                        None => None,
                    },
                    None => None,
                },
                None => None,
            },
            None => None,
        },
        None => None,
    }
}

/// Parse an `FrEndOfFrame` body.
pub open spec fn parse_frendofframe(s: Seq<u8>, length: u64, instance: u32) -> Option<
    (FrEndOfFrameV, Seq<u8>),
> {
    match take_u32(s) {
        Some((run, r1)) => match take_u32(r1) {
            Some((frame, r2)) => match take_u32(r2) {
                Some((gps_sec, r3)) => match take_u32(r3) {
                    Some((gps_nano, r4)) => match take_u32(r4) {
                        Some((_chk, r5)) => Some(
                            (
                                FrEndOfFrameV { length, instance, run, frame, gps_sec, gps_nano },
                                r5,
                            ),
                        ),
                        None => None,
                    },
                    None => None,
                },
                None => None,
            },
            None => None,
        },
        None => None,
    }
}

impl FrSH {
    /// Decode the body of a dictionary header record.
    pub fn read(src: &mut ByteSource, length: u64, instance: u32) -> (r: Result<
        FrSH,
        DecodeError,
    >)
        ensures
            match r {
                Ok(v) => parse_frsh(old(src)@, length, instance) == Some((v@, final(src)@))
                    && final(src)@.len() <= old(src)@.len(),
                Err(e) => {
                    &&& parse_frsh(old(src)@, length, instance) is None
                    &&& (e == DecodeError::TruncatedStream || e == DecodeError::MalformedText)
                },
            },
    {
        let name = match src.read_one_string() {
            Ok(v) => v,
            Err(e) => return Err(e),
        };
        let class = match src.read_u16() {
            Ok(v) => v,
            Err(e) => return Err(e),
        };
        let comment = match src.read_one_string() {
            Ok(v) => v,
            Err(e) => return Err(e),
        };
        match src.read_u32() {
            Ok(_) => (),
            Err(e) => return Err(e),
        };
        Ok(FrSH { length, instance, name, class, comment })
    }

    /// The class tag of this record kind.
    pub fn class(&self) -> (r: u16)
        ensures
            r == 1,
    {
        1
    }

    /// The class number this dictionary header declares for the record
    /// that follows it.
    pub fn get_struct_class(&self) -> (r: u16)
        ensures
            r == self.class,
    {
        self.class
    }

    pub fn get_instance(&self) -> (r: u32)
        ensures
            r == self.instance,
    {
        self.instance
    }
}

impl FrSE {
    /// Decode the body of a dictionary element record.
    pub fn read(src: &mut ByteSource, length: u64, instance: u32) -> (r: Result<
        FrSE,
        DecodeError,
    >)
        ensures
            match r {
                Ok(v) => parse_frse(old(src)@, length, instance) == Some((v@, final(src)@))
                    && final(src)@.len() <= old(src)@.len(),
                Err(e) => {
                    &&& parse_frse(old(src)@, length, instance) is None
                    &&& (e == DecodeError::TruncatedStream || e == DecodeError::MalformedText)
                },
            },
    {
        let name = match src.read_one_string() {
            Ok(v) => v,
            Err(e) => return Err(e),
        };
        let class = match src.read_one_string() {
            Ok(v) => v,
            Err(e) => return Err(e),
        };
        let comment = match src.read_one_string() {
            Ok(v) => v,
            Err(e) => return Err(e),
        };
        match src.read_u32() {
            Ok(_) => (),
            Err(e) => return Err(e),
        };
        Ok(FrSE { length, instance, name, class, comment })
    }

    /// The class tag of this record kind.
    pub fn class(&self) -> (r: u16)
        ensures
            r == 2,
    {
        2
    }

    pub fn get_instance(&self) -> (r: u32)
        ensures
            r == self.instance,
    {
        self.instance
    }
}

impl FrEndOfFile {
    /// Decode the body of a file terminator record.
    pub fn read(src: &mut ByteSource, length: u64, instance: u32) -> (r: Result<
        FrEndOfFile,
        DecodeError,
    >)
        ensures
            match r {
                Ok(v) => parse_frendoffile(old(src)@, length, instance)
                    == Some((v@, final(src)@)) && final(src)@.len() <= old(src)@.len(),
                Err(e) => {
                    &&& parse_frendoffile(old(src)@, length, instance) is None
                    &&& e == DecodeError::TruncatedStream
                },
            },
    {
        let n_frames = match src.read_u32() {
            Ok(v) => v,
            Err(e) => return Err(e),
        };
        let n_bytes = match src.read_u64() {
            Ok(v) => v,
            Err(e) => return Err(e),
        };
        let seek_toc = match src.read_u64() {
            Ok(v) => v,
            Err(e) => return Err(e),
        };
        match src.read_u32() {
            Ok(_) => (),
            Err(e) => return Err(e),
        };
        match src.read_u32() {
            Ok(_) => (),
            Err(e) => return Err(e),
        };
        match src.read_u32() {
            Ok(_) => (),
            Err(e) => return Err(e),
        };
        match src.read_u32() {
            Ok(_) => (),
            Err(e) => return Err(e),
        };
        Ok(FrEndOfFile { length, instance, n_frames, n_bytes, seek_toc })
    }

    /// The class tag of this record kind.
    pub fn class(&self) -> (r: u16)
        ensures
            r == 6,
    {
        6
    }

    pub fn get_instance(&self) -> (r: u32)
        ensures
            r == self.instance,
    {
        self.instance
    }
}

impl FrEndOfFrame {
    /// Decode the body of a frame terminator record.
    pub fn read(src: &mut ByteSource, length: u64, instance: u32) -> (r: Result<
        FrEndOfFrame,
        DecodeError,
    >)
        ensures
            match r {
                Ok(v) => parse_frendofframe(old(src)@, length, instance)
                    == Some((v@, final(src)@)) && final(src)@.len() <= old(src)@.len(),
                Err(e) => {
                    &&& parse_frendofframe(old(src)@, length, instance) is None
                    &&& e == DecodeError::TruncatedStream
                },
            },
    {
        let run = match src.read_u32() {
            Ok(v) => v,
            Err(e) => return Err(e),
        };
        let frame = match src.read_u32() {
            Ok(v) => v,
            Err(e) => return Err(e),
        };
        let gps_sec = match src.read_u32() {
            Ok(v) => v,
            Err(e) => return Err(e),
        };
        let gps_nano = match src.read_u32() {
            Ok(v) => v,
            Err(e) => return Err(e),
        };
        match src.read_u32() {
            Ok(_) => (),
            Err(e) => return Err(e),
        };
        Ok(FrEndOfFrame { length, instance, run, frame, gps_sec, gps_nano })
    }

    /// The class tag of this record kind.
    pub fn class(&self) -> (r: u16)
        ensures
            r == 7,
    {
        7
    }

    pub fn get_instance(&self) -> (r: u32)
        ensures
            r == self.instance,
    {
        self.instance
    }
}

/// The child pointers of a frame header that are real references:
/// `class == 0` denotes "no reference" and is dropped, order kept.
pub open spec fn nonzero_ptrs(ps: Seq<(u16, u32)>) -> Seq<(u16, u32)>
    decreases ps.len(),
{
    if ps.len() == 0 {
        Seq::empty()
    } else {
        let init = nonzero_ptrs(ps.drop_last());
        if ps.last().0 != 0 {
            init.push(ps.last())
        } else {
            init
        }
    }
}

/// Parse an `FrameH` body.
#[verifier::opaque]
pub open spec fn parse_frameh(s: Seq<u8>, length: u64, instance: u32) -> Option<
    (FrameHV, Seq<u8>),
> {
    match take_text(s) {
        Some((name, r1)) => match take_u32(r1) {
            Some((run, r2)) => match take_u32(r2) {
                Some((frame, r3)) => match take_u32(r3) {
                    Some((_quality, r4)) => match take_u32(r4) {
                        Some((gps_sec, r5)) => match take_u32(r5) {
                            Some((gps_nano, r6)) => match take_u16(r6) {
                                Some((u_leap, r7)) => match take_u64(r7) {
                                    Some((dt, r8)) => match take_rep(r8, 13, ptr_p()) {
                                        Some((ptrs, r9)) => match take_u32(r9) {
                                            Some((_chk, r10)) => Some(
                                                (
                                                    FrameHV {
                                                        length,
                                                        instance,
                                                        name,
                                                        run,
                                                        frame,
                                                        gps_sec,
                                                        gps_nano,
                                                        u_leap,
                                                        dt,
                                                        data: nonzero_ptrs(ptrs),
                                                    },
                                                    r10,
                                                ),
                                            ),
                                            None => None,
                                        },
                                        None => None,
                                    },
                                    None => None,
                                },
                                None => None,
                            },
                            None => None,
                        },
                        None => None,
                    },
                    None => None,
                },
                None => None,
            },
            None => None,
        },
        None => None,
    }
}

/// Parse an `FrAdcData` body.
#[verifier::opaque]
pub open spec fn parse_fradcdata(s: Seq<u8>, length: u64, instance: u32) -> Option<
    (FrAdcDataV, Seq<u8>),
> {
    match take_text(s) {
        Some((name, r1)) => match take_text(r1) {
            Some((comment, r2)) => match take_u32(r2) {
                Some((ch_group, r3)) => match take_u32(r3) {
                    Some((ch_num, r4)) => match take_u32(r4) {
                        Some((n_bits, r5)) => match take_u32(r5) {
                            Some((bias, r6)) => match take_u32(r6) {
                                Some((slope, r7)) => match take_text(r7) {
                                    Some((unit, r8)) => match take_u64(r8) {
                                        Some((sample_rate, r9)) => match take_u64(r9) {
                                            Some((time_offset, r10)) => match take_u64(r10) {
                                                Some((f_shift, r11)) => match take_u32(r11) {
                                                    Some((phase, r12)) => match take_u32(r12) {
                                                        Some((valid_data, r13)) => match take_ptr(
                                                            r13,
                                                        ) {
                                                            Some((data, r14)) => match take_ptr(
                                                                r14,
                                                            ) {
                                                                Some((_aux, r15)) => match
                                                                    take_ptr(r15) {
                                                                    Some((next, r16)) => match
                                                                        take_u32(r16) {
                                                                        Some((_chk, r17)) => Some(
                                                                            (
                                                                                FrAdcDataV {
                                                                                    length,
                                                                                    instance,
                                                                                    name,
                                                                                    comment,
                                                                                    ch_group,
                                                                                    ch_num,
                                                                                    n_bits,
                                                                                    bias,
                                                                                    slope,
                                                                                    unit,
                                                                                    sample_rate,
                                                                                    time_offset,
                                                                                    f_shift,
                                                                                    phase,
                                                                                    valid_data,
                                                                                    data,
                                                                                    next,
                                                                                },
                                                                                r17,
                                                                            ),
                                                                        ),
                                                                        None => None,
                                                                    },
                                                                    None => None,
                                                                },
                                                                None => None,
                                                            },
                                                            None => None,
                                                        },
                                                        None => None,
                                                    },
                                                    None => None,
                                                },
                                                None => None,
                                            },
                                            None => None,
                                        },
                                        None => None,
                                    },
                                    None => None,
                                },
                                None => None,
                            },
                            None => None,
                        },
                        None => None,
                    },
                    None => None,
                },
                None => None,
            },
            None => None,
        },
        None => None,
    }
}

impl FrameH {
    /// Decode the body of a frame header record.
    pub fn read(src: &mut ByteSource, length: u64, instance: u32) -> (r: Result<
        FrameH,
        DecodeError,
    >)
        ensures
            match r {
                Ok(v) => parse_frameh(old(src)@, length, instance) == Some((v@, final(src)@))
                    && final(src)@.len() <= old(src)@.len(),
                Err(e) => {
                    &&& parse_frameh(old(src)@, length, instance) is None
                    &&& (e == DecodeError::TruncatedStream || e == DecodeError::MalformedText)
                },
            },
    {
        proof {
            reveal(parse_frameh);
        }
        let name = match src.read_one_string() {
            Ok(v) => v,
            Err(e) => return Err(e),
        };
        let run = match src.read_u32() {
            Ok(v) => v,
            Err(e) => return Err(e),
        };
        let frame = match src.read_u32() {
            Ok(v) => v,
            Err(e) => return Err(e),
        };
        match src.read_u32() {
            Ok(_) => (),
            Err(e) => return Err(e),
        };
        let gps_sec = match src.read_u32() {
            Ok(v) => v,
            Err(e) => return Err(e),
        };
        let gps_nano = match src.read_u32() {
            Ok(v) => v,
            Err(e) => return Err(e),
        };
        let u_leap = match src.read_u16() {
            Ok(v) => v,
            Err(e) => return Err(e),
        };
        let dt = match src.read_f64() {
            Ok(v) => v,
            Err(e) => return Err(e),
        };
        let ptrs = match src.read_n_ptr(13) {
            Ok(v) => v,
            Err(e) => return Err(e),
        };
        match src.read_u32() {
            Ok(_) => (),
            Err(e) => return Err(e),
        };
        let mut data: Vec<(u16, u32)> = Vec::new();
        let mut i: usize = 0;
        proof {
            assert(data@ =~= nonzero_ptrs(ptrs@.take(0)));
        }
        while i < ptrs.len()
            invariant
                i <= ptrs@.len(),
                data@ == nonzero_ptrs(ptrs@.take(i as int)),
            decreases ptrs@.len() - i,
        {
            let p = ptrs[i];
            proof {
                assert(ptrs@.take(i + 1).drop_last() =~= ptrs@.take(i as int));
                assert(ptrs@.take(i + 1).last() == p);
            }
            if p.0 != 0 {
                data.push(p);
            }
            i = i + 1;
        }
        proof {
            assert(ptrs@.take(ptrs@.len() as int) =~= ptrs@);
        }
        Ok(
            FrameH {
                length,
                instance,
                name,
                run,
                frame,
                gps_sec,
                gps_nano,
                u_leap,
                dt,
                data,
            },
        )
    }

    /// The class tag of this record kind.
    pub fn class(&self) -> (r: u16)
        ensures
            r == 3,
    {
        3
    }

    pub fn get_instance(&self) -> (r: u32)
        ensures
            r == self.instance,
    {
        self.instance
    }
}

impl FrAdcData {
    /// Decode the body of an analog-channel metadata record.
    pub fn read(src: &mut ByteSource, length: u64, instance: u32) -> (r: Result<
        FrAdcData,
        DecodeError,
    >)
        ensures
            match r {
                Ok(v) => parse_fradcdata(old(src)@, length, instance) == Some((v@, final(src)@))
                    && final(src)@.len() <= old(src)@.len(),
                Err(e) => {
                    &&& parse_fradcdata(old(src)@, length, instance) is None
                    &&& (e == DecodeError::TruncatedStream || e == DecodeError::MalformedText)
                },
            },
    {
        proof {
            reveal(parse_fradcdata);
        }
        let name = match src.read_one_string() {
            Ok(v) => v,
            Err(e) => return Err(e),
        };
        let comment = match src.read_one_string() {
            Ok(v) => v,
            Err(e) => return Err(e),
        };
        let ch_group = match src.read_u32() {
            Ok(v) => v,
            Err(e) => return Err(e),
        };
        let ch_num = match src.read_u32() {
            Ok(v) => v,
            Err(e) => return Err(e),
        };
        let n_bits = match src.read_u32() {
            Ok(v) => v,
            Err(e) => return Err(e),
        };
        let bias = match src.read_f32() {
            Ok(v) => v,
            Err(e) => return Err(e),
        };
        let slope = match src.read_f32() {
            Ok(v) => v,
            Err(e) => return Err(e),
        };
        let unit = match src.read_one_string() {
            Ok(v) => v,
            Err(e) => return Err(e),
        };
        let sample_rate = match src.read_f64() {
            Ok(v) => v,
            Err(e) => return Err(e),
        };
        let time_offset = match src.read_f64() {
            Ok(v) => v,
            Err(e) => return Err(e),
        };
        let f_shift = match src.read_f64() {
            Ok(v) => v,
            Err(e) => return Err(e),
        };
        let phase = match src.read_f32() {
            Ok(v) => v,
            Err(e) => return Err(e),
        };
        let valid_data = match src.read_u32() {
            Ok(v) => v,
            Err(e) => return Err(e),
        };
        let data = match src.read_ptr() {
            Ok(v) => v,
            Err(e) => return Err(e),
        };
        match src.read_ptr() {
            Ok(_) => (),
            Err(e) => return Err(e),
        };
        let next = match src.read_ptr() {
            Ok(v) => v,
            Err(e) => return Err(e),
        };
        match src.read_u32() {
            Ok(_) => (),
            Err(e) => return Err(e),
        };
        Ok(
            FrAdcData {
                length,
                instance,
                name,
                comment,
                ch_group,
                ch_num,
                n_bits,
                bias,
                slope,
                unit,
                sample_rate,
                time_offset,
                f_shift,
                phase,
                valid_data,
                data,
                next,
            },
        )
    }

    /// The class tag of this record kind.
    pub fn class(&self) -> (r: u16)
        ensures
            r == 4,
    {
        4
    }

    /// The instance id of the payload vector this record points to.
    pub fn get_datavector_instance(&self) -> (r: u32)
        ensures
            r == self.data.1,
    {
        self.data.1
    }

    pub fn get_instance(&self) -> (r: u32)
        ensures
            r == self.instance,
    {
        self.instance
    }

    /// The calibration and timing fields, as IEEE-754 bit patterns in the
    /// order bias, slope, sample rate, time offset, frequency shift, phase.
    pub fn get_dump(&self) -> (r: (u32, u32, u64, u64, u64, u32))
        ensures
            r == (self.bias, self.slope, self.sample_rate, self.time_offset, self.f_shift,
            self.phase),
    {
        (self.bias, self.slope, self.sample_rate, self.time_offset, self.f_shift, self.phase)
    }
}

/// Parse an `FrProcData` body.  The auxiliary parameters are stored as two
/// same-length arrays, values first, then names, and are zipped pairwise
/// by position.
#[verifier::opaque]
pub open spec fn parse_frprocdata(s: Seq<u8>, length: u64, instance: u32) -> Option<
    (FrProcDataV, Seq<u8>),
> {
    match take_text(s) {
        Some((name, r1)) => match take_text(r1) {
            Some((comment, r2)) => match take_u16(r2) {
                Some((object_type, r3)) => match take_u16(r3) {
                    Some((sub_type, r4)) => match take_u64(r4) {
                        Some((time_offset, r5)) => match take_u64(r5) {
                            Some((time_range, r6)) => match take_u64(r6) {
                                Some((f_shift, r7)) => match take_u32(r7) {
                                    Some((phase, r8)) => match take_u64(r8) {
                                        Some((f_range, r9)) => match take_u64(r9) {
                                            Some((bw, r10)) => match take_u16(r10) {
                                                Some((n_aux, r11)) => match take_rep(
                                                    r11,
                                                    n_aux as nat,
                                                    u64_p(),
                                                ) {
                                                    Some((vals, r12)) => match take_rep(
                                                        r12,
                                                        n_aux as nat,
                                                        text_p(),
                                                    ) {
                                                        Some((names, r13)) => match take_ptr(
                                                            r13,
                                                        ) {
                                                            Some((data, r14)) => match take_ptr(
                                                                r14,
                                                            ) {
                                                                Some((_aux_ptr, r15)) => match
                                                                    take_ptr(r15) {
                                                                    Some((_table, r16)) => match
                                                                        take_ptr(r16) {
                                                                        Some((_history, r17)) =>
                                                                        match take_ptr(r17) {
                                                                            Some((next, r18)) =>
                                                                            match take_u32(r18) {
                                                                                Some(
                                                                                    (_chk, r19),
                                                                                ) => Some(
                                                                                    (
                                                                                        FrProcDataV {
                                                                                            length,
                                                                                            instance,
                                                                                            name,
                                                                                            comment,
                                                                                            object_type,
                                                                                            sub_type,
                                                                                            time_offset,
                                                                                            time_range,
                                                                                            f_shift,
                                                                                            phase,
                                                                                            f_range,
                                                                                            bw,
                                                                                            aux: Seq::new(
                                                                                                n_aux as nat,
                                                                                                |i: int|
                                                                                                    (
                                                                                                        vals[i],
                                                                                                        names[i],
                                                                                                    ),
                                                                                            ),
                                                                                            data,
                                                                                            next,
                                                                                        },
                                                                                        r19,
                                                                                    ),
                                                                                ),
                                                                                None => None,
                                                                            },
                                                                            None => None,
                                                                        },
                                                                        None => None,
                                                                    },
                                                                    None => None,
                                                                },
                                                                None => None,
                                                            },
                                                            None => None,
                                                        },
                                                        None => None,
                                                    },
                                                    None => None,
                                                },
                                                None => None,
                                            },
                                            None => None,
                                        },
                                        None => None,
                                    },
                                    None => None,
                                },
                                None => None,
                            },
                            None => None,
                        },
                        None => None,
                    },
                    None => None,
                },
                None => None,
            },
            None => None,
        },
        None => None,
    }
}

/// The first `j` zipped auxiliary pairs agree with the value and name
/// arrays they were built from.
pub open spec fn aux_zip_ok(
    aux: Seq<(u64, Vec<u8>)>,
    vals: Seq<u64>,
    names: Seq<Seq<u8>>,
    j: int,
) -> bool {
    forall|k: int| 0 <= k < j ==> aux[k].0 == vals[k] && aux[k].1@ == names[k]
}

impl FrProcData {
    /// Decode the body of a processed-channel metadata record.
    #[verifier::loop_isolation(false)]
    pub fn read(src: &mut ByteSource, length: u64, instance: u32) -> (r: Result<
        FrProcData,
        DecodeError,
    >)
        ensures
            match r {
                Ok(v) => parse_frprocdata(old(src)@, length, instance)
                    == Some((v@, final(src)@)) && final(src)@.len() <= old(src)@.len(),
                Err(e) => {
                    &&& parse_frprocdata(old(src)@, length, instance) is None
                    &&& (e == DecodeError::TruncatedStream || e == DecodeError::MalformedText)
                },
            },
    {
        proof {
            reveal(parse_frprocdata);
        }
        let name = match src.read_one_string() {
            Ok(v) => v,
            Err(e) => return Err(e),
        };
        let comment = match src.read_one_string() {
            Ok(v) => v,
            Err(e) => return Err(e),
        };
        let object_type = match src.read_u16() {
            Ok(v) => v,
            Err(e) => return Err(e),
        };
        let sub_type = match src.read_u16() {
            Ok(v) => v,
            Err(e) => return Err(e),
        };
        let time_offset = match src.read_f64() {
            Ok(v) => v,
            Err(e) => return Err(e),
        };
        let time_range = match src.read_f64() {
            Ok(v) => v,
            Err(e) => return Err(e),
        };
        let f_shift = match src.read_f64() {
            Ok(v) => v,
            Err(e) => return Err(e),
        };
        let phase = match src.read_f32() {
            Ok(v) => v,
            Err(e) => return Err(e),
        };
        let f_range = match src.read_f64() {
            Ok(v) => v,
            Err(e) => return Err(e),
        };
        let bw = match src.read_f64() {
            Ok(v) => v,
            Err(e) => return Err(e),
        };
        let n_aux = match src.read_u16() {
            Ok(v) => v,
            Err(e) => return Err(e),
        };
        let ghost r11 = src@;
        let vals = match src.read_n_u64(n_aux as usize) {
            Ok(v) => v,
            Err(e) => return Err(e),
        };
        proof {
            crate::bytes::lemma_take_rep_len(r11, n_aux as nat, u64_p());
        }
        let ghost r12 = src@;
        let mut aux: Vec<(u64, Vec<u8>)> = Vec::new();
        let ghost fnames = crate::bytes::text_p();
        let ghost mut names_acc: Seq<Seq<u8>> = Seq::empty();
        let mut j: usize = 0;
        let n: usize = n_aux as usize;
        proof {
            assert(take_rep(r12, 0, fnames) == Some((names_acc, src@)));
        }
        while j < n
            invariant
                j <= n == n_aux,
                aux@.len() == j,
                vals@.len() == n,
                fnames == crate::bytes::text_p(),
                names_acc.len() == j,
                take_rep(r12, j as nat, fnames) == Some((names_acc, src@)),
                src@.len() <= r12.len(),
                aux_zip_ok(aux@, vals@, names_acc, j as int),
            decreases n - j,
        {
            let ghost cur = src@;
            let nm = match src.read_one_string() {
                Ok(v) => v,
                Err(e) => {
                    proof {
                        assert(fnames(cur) == take_text(cur));
                        assert(take_rep(r12, (j + 1) as nat, fnames) is None);
                        crate::bytes::lemma_take_rep_none(
                            r12,
                            (j + 1) as nat,
                            n_aux as nat,
                            fnames,
                        );
                    }
                    return Err(e);
                },
            };
            proof {
                assert(fnames(cur) == take_text(cur));
            }
            let ghost prev_aux = aux@;
            let ghost prev_names = names_acc;
            aux.push((vals[j], nm));
            proof {
                names_acc = prev_names.push(nm@);
                assert(aux@ == prev_aux.push((vals@[j as int], nm)));
                assert(aux_zip_ok(aux@, vals@, names_acc, j + 1)) by {
                    assert forall|k: int|
                        0 <= k < j + 1 implies aux@[k].0 == vals@[k] && aux@[k].1@
                        == names_acc[k] by {
                        if k < j {
                            assert(aux@[k] == prev_aux[k]);
                            assert(names_acc[k] == prev_names[k]);
                        } else {
                            assert(aux@[k] == (vals@[j as int], nm));
                            assert(names_acc[k] == nm@);
                        }
                    }
                }
            }
            j = j + 1;
        }
        let data = match src.read_ptr() {
            Ok(v) => v,
            Err(e) => return Err(e),
        };
        match src.read_ptr() {
            Ok(_) => (),
            Err(e) => return Err(e),
        };
        match src.read_ptr() {
            Ok(_) => (),
            Err(e) => return Err(e),
        };
        match src.read_ptr() {
            Ok(_) => (),
            Err(e) => return Err(e),
        };
        let next = match src.read_ptr() {
            Ok(v) => v,
            Err(e) => return Err(e),
        };
        match src.read_u32() {
            Ok(_) => (),
            Err(e) => return Err(e),
        };
        let out = FrProcData {
            length,
            instance,
            name,
            comment,
            object_type,
            sub_type,
            time_offset,
            time_range,
            f_shift,
            phase,
            f_range,
            bw,
            aux,
            data,
            next,
        };
        proof {
            assert(out@.aux =~= Seq::new(
                n_aux as nat,
                |i: int| (vals@[i], names_acc[i]),
            ));
        }
        Ok(out)
    }

    /// The class tag of this record kind.
    pub fn class(&self) -> (r: u16)
        ensures
            r == 11,
    {
        11
    }

    /// The instance id of the payload vector this record points to.
    pub fn get_datavector_instance(&self) -> (r: u32)
        ensures
            r == self.data.1,
    {
        self.data.1
    }

    pub fn get_instance(&self) -> (r: u32)
        ensures
            r == self.instance,
    {
        self.instance
    }

    /// The typing, timing and band fields, floats as IEEE-754 bit patterns,
    /// in the order object type, sub type, time offset, time range,
    /// frequency shift, phase, frequency range, bandwidth.
    pub fn get_dump(&self) -> (r: (u16, u16, u64, u64, u64, u32, u64, u64))
        ensures
            r == (self.object_type, self.sub_type, self.time_offset, self.time_range,
            self.f_shift, self.phase, self.f_range, self.bw),
    {
        (self.object_type, self.sub_type, self.time_offset, self.time_range, self.f_shift,
        self.phase, self.f_range, self.bw)
    }
}

/// Parse an `FrVect` body.
#[verifier::opaque]
pub open spec fn parse_frvect(s: Seq<u8>, length: u64, instance: u32) -> Option<
    (FrVectV, Seq<u8>),
> {
    match take_text(s) {
        Some((name, r1)) => match take_u16(r1) {
            Some((compress, r2)) => match take_u16(r2) {
                Some((data_type, r3)) => match take_u64(r3) {
                    Some((n_data, r4)) => match take_u64(r4) {
                        Some((n_bytes, r5)) => match take_raw(r5, n_bytes as nat) {
                            Some((data, r6)) => match take_u32(r6) {
                                Some((n_dim, r7)) => match take_rep(r7, n_dim as nat, u64_p()) {
                                    Some((dim, r8)) => match take_rep(r8, n_dim as nat, u64_p()) {
                                        Some((dx, r9)) => match take_rep(
                                            r9,
                                            n_dim as nat,
                                            u64_p(),
                                        ) {
                                            Some((start_x, r10)) => match take_rep(
                                                r10,
                                                n_dim as nat,
                                                text_p(),
                                            ) {
                                                Some((unit_x, r11)) => match take_text(r11) {
                                                    Some((unit_y, r12)) => match take_ptr(r12) {
                                                        Some((next, r13)) => match take_u32(
                                                            r13,
                                                        ) {
                                                            Some((_chk, r14)) => Some(
                                                                (
                                                                    FrVectV {
                                                                        length,
                                                                        instance,
                                                                        name,
                                                                        compress,
                                                                        data_type,
                                                                        n_data,
                                                                        n_bytes,
                                                                        data,
                                                                        n_dim,
                                                                        dim,
                                                                        dx,
                                                                        start_x,
                                                                        unit_x,
                                                                        unit_y,
                                                                        next,
                                                                    },
                                                                    r14,
                                                                ),
                                                            ),
                                                            None => None,
                                                        },
                                                        None => None,
                                                    },
                                                    None => None,
                                                },
                                                None => None,
                                            },
                                            None => None,
                                        },
                                        None => None,
                                    },
                                    None => None,
                                },
                                None => None,
                            },
                            None => None,
                        },
                        None => None,
                    },
                    None => None,
                },
                None => None,
            },
            None => None,
        },
        None => None,
    }
}

impl FrVect {
    /// Decode the body of a payload vector record.
    pub fn read(src: &mut ByteSource, length: u64, instance: u32) -> (r: Result<
        FrVect,
        DecodeError,
    >)
        ensures
            match r {
                Ok(v) => parse_frvect(old(src)@, length, instance) == Some((v@, final(src)@))
                    && final(src)@.len() <= old(src)@.len(),
                Err(e) => {
                    &&& parse_frvect(old(src)@, length, instance) is None
                    &&& (e == DecodeError::TruncatedStream || e == DecodeError::MalformedText)
                },
            },
    {
        proof {
            reveal(parse_frvect);
        }
        let name = match src.read_one_string() {
            Ok(v) => v,
            Err(e) => return Err(e),
        };
        let compress = match src.read_u16() {
            Ok(v) => v,
            Err(e) => return Err(e),
        };
        let data_type = match src.read_u16() {
            Ok(v) => v,
            Err(e) => return Err(e),
        };
        let n_data = match src.read_u64() {
            Ok(v) => v,
            Err(e) => return Err(e),
        };
        let n_bytes = match src.read_u64() {
            Ok(v) => v,
            Err(e) => return Err(e),
        };
        let rem = src.remaining();
        if n_bytes > rem as u64 {
            return Err(DecodeError::TruncatedStream);
        }
        let data = match src.read_raw(n_bytes as usize) {
            Ok(v) => v,
            Err(e) => return Err(e),
        };
        let n_dim = match src.read_u32() {
            Ok(v) => v,
            Err(e) => return Err(e),
        };
        let dim = match src.read_n_u64(n_dim as usize) {
            Ok(v) => v,
            Err(e) => return Err(e),
        };
        let dx = match src.read_n_u64(n_dim as usize) {
            Ok(v) => v,
            Err(e) => return Err(e),
        };
        let start_x = match src.read_n_u64(n_dim as usize) {
            Ok(v) => v,
            Err(e) => return Err(e),
        };
        let unit_x = match src.read_n_text(n_dim as usize) {
            Ok(v) => v,
            Err(e) => return Err(e),
        };
        let unit_y = match src.read_one_string() {
            Ok(v) => v,
            Err(e) => return Err(e),
        };
        let next = match src.read_ptr() {
            Ok(v) => v,
            Err(e) => return Err(e),
        };
        match src.read_u32() {
            Ok(_) => (),
            Err(e) => return Err(e),
        };
        Ok(
            FrVect {
                length,
                instance,
                name,
                compress,
                data_type,
                n_data,
                n_bytes,
                data,
                n_dim,
                dim,
                dx,
                start_x,
                unit_x,
                unit_y,
                next,
            },
        )
    }

    /// The class tag of this record kind.
    pub fn class(&self) -> (r: u16)
        ensures
            r == 20,
    {
        20
    }

    pub fn get_instance(&self) -> (r: u32)
        ensures
            r == self.instance,
    {
        self.instance
    }

    /// The compression-scheme tag of the raw payload bytes.
    pub fn get_compress(&self) -> (r: u16)
        ensures
            r == self.compress,
    {
        self.compress
    }

    /// A copy of the raw payload bytes.
    pub fn get_data(&self) -> (r: Vec<u8>)
        ensures
            r@ == self.data@,
    {
        let mut out: Vec<u8> = Vec::new();
        let mut i: usize = 0;
        proof {
            assert(out@ =~= self.data@.take(0));
        }
        while i < self.data.len()
            invariant
                i <= self.data@.len(),
                out@ == self.data@.take(i as int),
            decreases self.data@.len() - i,
        {
            out.push(self.data[i]);
            proof {
                assert(out@ =~= self.data@.take(i + 1));
            }
            i = i + 1;
        }
        proof {
            assert(self.data@.take(self.data@.len() as int) =~= self.data@);
        }
        out
    }
}

/// Parse the per-frame timing and offset section of the table of contents:
/// leap seconds, frame count, and seven per-frame arrays (data quality,
/// GPS seconds, GPS nanoseconds, duration, run, frame number, position)
/// followed by four per-frame byte-offset arrays.  Arrays whose values are
/// not needed downstream are still consumed to keep byte alignment.
pub open spec fn parse_toc_frames(s: Seq<u8>) -> Option<
    ((u16, u32, Seq<u32>, Seq<u32>, Seq<u64>, Seq<u64>), Seq<u8>),
> {
    match take_u16(s) {
        Some((leap, r1)) => match take_u32(r1) {
            Some((n_frames, r2)) => match take_rep(r2, n_frames as nat, u32_p()) {
                Some((_quality, r3)) => match take_rep(r3, n_frames as nat, u32_p()) {
                    Some((gps_sec, r4)) => match take_rep(r4, n_frames as nat, u32_p()) {
                        Some((gps_nano, r5)) => match take_rep(r5, n_frames as nat, u64_p()) {
                            Some((dt, r6)) => match take_rep(r6, n_frames as nat, u32_p()) {
                                Some((_run, r7)) => match take_rep(r7, n_frames as nat, u32_p()) {
                                    Some((_frame, r8)) => match take_rep(
                                        r8,
                                        n_frames as nat,
                                        u64_p(),
                                    ) {
                                        Some((position, r9)) => match take_rep(
                                            r9,
                                            n_frames as nat,
                                            u64_p(),
                                        ) {
                                            Some((_adc, r10)) => match take_rep(
                                                r10,
                                                n_frames as nat,
                                                u64_p(),
                                            ) {
                                                Some((_ser, r11)) => match take_rep(
                                                    r11,
                                                    n_frames as nat,
                                                    u64_p(),
                                                ) {
                                                    Some((_table, r12)) => match take_rep(
                                                        r12,
                                                        n_frames as nat,
                                                        u64_p(),
                                                    ) {
                                                        Some((_msg, r13)) => Some(
                                                            (
                                                                (
                                                                    leap,
                                                                    n_frames,
                                                                    gps_sec,
                                                                    gps_nano,
                                                                    dt,
                                                                    position,
                                                                ),
                                                                r13,
                                                            ),
                                                        ),
                                                        None => None,
                                                    },
                                                    None => None,
                                                },
                                                None => None,
                                            },
                                            None => None,
                                        },
                                        None => None,
                                    },
                                    None => None,
                                },
                                None => None,
                            },
                            None => None,
                        },
                        None => None,
                    },
                    None => None,
                },
                None => None,
            },
            None => None,
        },
        None => None,
    }
}

/// Parse the dictionary-header section: id array then name array.
pub open spec fn parse_toc_sh(s: Seq<u8>) -> Option<((Seq<u16>, Seq<Seq<u8>>), Seq<u8>)> {
    match take_u16(s) {
        Some((n_sh, r1)) => match take_rep(r1, n_sh as nat, u16_p()) {
            Some((sh_id, r2)) => match take_rep(r2, n_sh as nat, text_p()) {
                Some((sh_name, r3)) => Some(((sh_id, sh_name), r3)),
                None => None,
            },
            None => None,
        },
        None => None,
    }
}

/// Consume the detector section: a count, that many names, that many
/// 64-bit positions.  Nothing of it is needed downstream.
pub open spec fn parse_toc_detector(s: Seq<u8>) -> Option<Seq<u8>> {
    match take_u32(s) {
        Some((n_det, r1)) => match take_rep(r1, n_det as nat, text_p()) {
            Some((_names, r2)) => match take_rep(r2, n_det as nat, u64_p()) {
                Some((_pos, r3)) => Some(r3),
                None => None,
            },
            None => None,
        },
        None => None,
    }
}

/// Consume the static-data section: a first count with two name arrays and
/// one `u32` array, then a second count with three `u32` arrays and one
/// `u64` array.  Nothing of it is needed downstream.
pub open spec fn parse_toc_static(s: Seq<u8>) -> Option<Seq<u8>> {
    match take_u32(s) {
        Some((n1, r1)) => match take_rep(r1, n1 as nat, text_p()) {
            Some((_a, r2)) => match take_rep(r2, n1 as nat, text_p()) {
                Some((_b, r3)) => match take_rep(r3, n1 as nat, u32_p()) {
                    Some((_c, r4)) => match take_u32(r4) {
                        Some((n2, r5)) => match take_rep(r5, n2 as nat, u32_p()) {
                            Some((_d, r6)) => match take_rep(r6, n2 as nat, u32_p()) {
                                Some((_e, r7)) => match take_rep(r7, n2 as nat, u32_p()) {
                                    Some((_f, r8)) => match take_rep(r8, n2 as nat, u64_p()) {
                                        Some((_g, r9)) => Some(r9),
                                        None => None,
                                    },
                                    None => None,
                                },
                                None => None,
                            },
                            None => None,
                        },
                        None => None,
                    },
                    None => None,
                },
                None => None,
            },
            None => None,
        },
        None => None,
    }
}

/// Parse a named per-frame position table: a count, that many channel
/// names, and one row of `k` 64-bit offsets per name, channel-major.
pub open spec fn parse_toc_named_rows(s: Seq<u8>, k: nat) -> Option<
    ((Seq<Seq<u8>>, Seq<Seq<u64>>), Seq<u8>),
> {
    match take_u32(s) {
        Some((n, r1)) => match take_rep(r1, n as nat, text_p()) {
            Some((names, r2)) => match take_rep(r2, n as nat, crate::bytes::u64_row_p(k)) {
                Some((rows, r3)) => Some(((names, rows), r3)),
                None => None,
            },
            None => None,
        },
        None => None,
    }
}

/// Parse the analog-channel section: count, names, channel ids, group ids
/// (both id arrays consumed and discarded), then the per-frame position
/// rows, channel-major.
pub open spec fn parse_toc_adc(s: Seq<u8>, k: nat) -> Option<
    ((Seq<Seq<u8>>, Seq<Seq<u64>>), Seq<u8>),
> {
    match take_u32(s) {
        Some((n, r1)) => match take_rep(r1, n as nat, text_p()) {
            Some((names, r2)) => match take_rep(r2, n as nat, u32_p()) {
                Some((_ch_id, r3)) => match take_rep(r3, n as nat, u32_p()) {
                    Some((_grp_id, r4)) => match take_rep(
                        r4,
                        n as nat,
                        crate::bytes::u64_row_p(k),
                    ) {
                        Some((rows, r5)) => Some(((names, rows), r5)),
                        None => None,
                    },
                    None => None,
                },
                None => None,
            },
            None => None,
        },
        None => None,
    }
}

/// Consume an event section: an event-type count with names and one `u32`
/// per type, then an event count with three `u32` arrays (the third holds
/// binary32 bit patterns) and one `u64` array.  Nothing of it is needed
/// downstream.
pub open spec fn parse_toc_events(s: Seq<u8>) -> Option<Seq<u8>> {
    match take_u32(s) {
        Some((n_type, r1)) => match take_rep(r1, n_type as nat, text_p()) {
            Some((_names, r2)) => match take_rep(r2, n_type as nat, u32_p()) {
                Some((_a, r3)) => match take_u32(r3) {
                    Some((n_ev, r4)) => match take_rep(r4, n_ev as nat, u32_p()) {
                        Some((_b, r5)) => match take_rep(r5, n_ev as nat, u32_p()) {
                            Some((_c, r6)) => match take_rep(r6, n_ev as nat, u32_p()) {
                                Some((_amp, r7)) => match take_rep(r7, n_ev as nat, u64_p()) {
                                    Some((_d, r8)) => Some(r8),
                                    None => None,
                                },
                                None => None,
                            },
                            None => None,
                        },
                        None => None,
                    },
                    None => None,
                },
                None => None,
            },
            None => None,
        },
        None => None,
    }
}

/// Parse an `FrTOC` body by sections, in the file's declared order.
#[verifier::opaque]
pub open spec fn parse_frtoc(s: Seq<u8>, length: u64, instance: u32) -> Option<
    (FrTOCV, Seq<u8>),
> {
    match parse_toc_frames(s) {
        Some(((leap, n_frames, gps_sec, gps_nano, dt, position), r1)) => match parse_toc_sh(r1) {
            Some(((sh_id, sh_name), r2)) => match parse_toc_detector(r2) {
                Some(r3) => match parse_toc_static(r3) {
                    Some(r4) => match parse_toc_adc(r4, n_frames as nat) {
                        Some(((name_adc, position_adc), r5)) => match parse_toc_named_rows(
                            r5,
                            n_frames as nat,
                        ) {
                            Some(((name_proc, position_proc), r6)) => match parse_toc_named_rows(
                                r6,
                                n_frames as nat,
                            ) {
                                Some((_sim, r7)) => match parse_toc_named_rows(
                                    r7,
                                    n_frames as nat,
                                ) {
                                    Some((_ser, r8)) => match parse_toc_named_rows(
                                        r8,
                                        n_frames as nat,
                                    ) {
                                        Some((_sum, r9)) => match parse_toc_events(r9) {
                                            Some(r10) => match parse_toc_events(r10) {
                                                Some(r11) => match take_u32(r11) {
                                                    Some((_chk, r12)) => Some(
                                                        (
                                                            FrTOCV {
                                                                length,
                                                                instance,
                                                                leap,
                                                                gps_sec,
                                                                gps_nano,
                                                                dt,
                                                                position,
                                                                sh_id,
                                                                sh_name,
                                                                name_adc,
                                                                position_adc,
                                                                name_proc,
                                                                position_proc,
                                                            },
                                                            r12,
                                                        ),
                                                    ),
                                                    None => None,
                                                },
                                                None => None,
                                            },
                                            None => None,
                                        },
                                        None => None,
                                    },
                                    None => None,
                                },
                                None => None,
                            },
                            None => None,
                        },
                        None => None,
                    },
                    None => None,
                },
                None => None,
            },
            None => None,
        },
        None => None,
    }
}

impl FrTOC {
    /// Decode the body of a table-of-contents record.
    #[verifier::rlimit(100)]
    pub fn read(src: &mut ByteSource, length: u64, instance: u32) -> (r: Result<
        FrTOC,
        DecodeError,
    >)
        ensures
            match r {
                Ok(v) => parse_frtoc(old(src)@, length, instance) == Some((v@, final(src)@))
                    && final(src)@.len() <= old(src)@.len(),
                Err(e) => {
                    &&& parse_frtoc(old(src)@, length, instance) is None
                    &&& (e == DecodeError::TruncatedStream || e == DecodeError::MalformedText)
                },
            },
    {
        proof {
            reveal(parse_frtoc);
        }
        // Per-frame timing and offsets.
        let leap = match src.read_u16() {
            Ok(v) => v,
            Err(e) => return Err(e),
        };
        let n_frames = match src.read_u32() {
            Ok(v) => v,
            Err(e) => return Err(e),
        };
        let nf = n_frames as usize;
        match src.read_n_u32(nf) {
            Ok(_) => (),
            Err(e) => return Err(e),
        };
        let gps_sec = match src.read_n_u32(nf) {
            Ok(v) => v,
            Err(e) => return Err(e),
        };
        let gps_nano = match src.read_n_u32(nf) {
            Ok(v) => v,
            Err(e) => return Err(e),
        };
        let dt = match src.read_n_u64(nf) {
            Ok(v) => v,
            Err(e) => return Err(e),
        };
        match src.read_n_u32(nf) {
            Ok(_) => (),
            Err(e) => return Err(e),
        };
        match src.read_n_u32(nf) {
            Ok(_) => (),
            Err(e) => return Err(e),
        };
        let position = match src.read_n_u64(nf) {
            Ok(v) => v,
            Err(e) => return Err(e),
        };
        match src.read_n_u64(nf) {
            Ok(_) => (),
            Err(e) => return Err(e),
        };
        match src.read_n_u64(nf) {
            Ok(_) => (),
            Err(e) => return Err(e),
        };
        match src.read_n_u64(nf) {
            Ok(_) => (),
            Err(e) => return Err(e),
        };
        match src.read_n_u64(nf) {
            Ok(_) => (),
            Err(e) => return Err(e),
        };
        // Dictionary headers.
        let n_sh = match src.read_u16() {
            Ok(v) => v,
            Err(e) => return Err(e),
        };
        let sh_id = match src.read_n_u16(n_sh as usize) {
            Ok(v) => v,
            Err(e) => return Err(e),
        };
        let sh_name = match src.read_n_text(n_sh as usize) {
            Ok(v) => v,
            Err(e) => return Err(e),
        };
        // Detectors.
        let n_det = match src.read_u32() {
            Ok(v) => v,
            Err(e) => return Err(e),
        };
        match src.read_n_text(n_det as usize) {
            Ok(_) => (),
            Err(e) => return Err(e),
        };
        match src.read_n_u64(n_det as usize) {
            Ok(_) => (),
            Err(e) => return Err(e),
        };
        // Static data.
        let n_static = match src.read_u32() {
            Ok(v) => v,
            Err(e) => return Err(e),
        };
        match src.read_n_text(n_static as usize) {
            Ok(_) => (),
            Err(e) => return Err(e),
        };
        match src.read_n_text(n_static as usize) {
            Ok(_) => (),
            Err(e) => return Err(e),
        };
        match src.read_n_u32(n_static as usize) {
            Ok(_) => (),
            Err(e) => return Err(e),
        };
        let n_static2 = match src.read_u32() {
            Ok(v) => v,
            Err(e) => return Err(e),
        };
        match src.read_n_u32(n_static2 as usize) {
            Ok(_) => (),
            Err(e) => return Err(e),
        };
        match src.read_n_u32(n_static2 as usize) {
            Ok(_) => (),
            Err(e) => return Err(e),
        };
        match src.read_n_u32(n_static2 as usize) {
            Ok(_) => (),
            Err(e) => return Err(e),
        };
        match src.read_n_u64(n_static2 as usize) {
            Ok(_) => (),
            Err(e) => return Err(e),
        };
        // Analog channels.
        let n_adc = match src.read_u32() {
            Ok(v) => v,
            Err(e) => return Err(e),
        };
        let name_adc = match src.read_n_text(n_adc as usize) {
            Ok(v) => v,
            Err(e) => return Err(e),
        };
        match src.read_n_u32(n_adc as usize) {
            Ok(_) => (),
            Err(e) => return Err(e),
        };
        match src.read_n_u32(n_adc as usize) {
            Ok(_) => (),
            Err(e) => return Err(e),
        };
        let position_adc = match src.read_n_u64_rows(n_adc as usize, nf) {
            Ok(v) => v,
            Err(e) => return Err(e),
        };
        // Processed channels.
        let n_proc = match src.read_u32() {
            Ok(v) => v,
            Err(e) => return Err(e),
        };
        let name_proc = match src.read_n_text(n_proc as usize) {
            Ok(v) => v,
            Err(e) => return Err(e),
        };
        let position_proc = match src.read_n_u64_rows(n_proc as usize, nf) {
            Ok(v) => v,
            Err(e) => return Err(e),
        };
        // Simulated, serial and summary tables: consumed, not kept.
        let n_sim = match src.read_u32() {
            Ok(v) => v,
            Err(e) => return Err(e),
        };
        match src.read_n_text(n_sim as usize) {
            Ok(_) => (),
            Err(e) => return Err(e),
        };
        match src.read_n_u64_rows(n_sim as usize, nf) {
            Ok(_) => (),
            Err(e) => return Err(e),
        };
        let n_ser = match src.read_u32() {
            Ok(v) => v,
            Err(e) => return Err(e),
        };
        match src.read_n_text(n_ser as usize) {
            Ok(_) => (),
            Err(e) => return Err(e),
        };
        match src.read_n_u64_rows(n_ser as usize, nf) {
            Ok(_) => (),
            Err(e) => return Err(e),
        };
        let n_sum = match src.read_u32() {
            Ok(v) => v,
            Err(e) => return Err(e),
        };
        match src.read_n_text(n_sum as usize) {
            Ok(_) => (),
            Err(e) => return Err(e),
        };
        match src.read_n_u64_rows(n_sum as usize, nf) {
            Ok(_) => (),
            Err(e) => return Err(e),
        };
        // Event and simulated-event sections: consumed, not kept.
        let n_evt = match src.read_u32() {
            Ok(v) => v,
            Err(e) => return Err(e),
        };
        match src.read_n_text(n_evt as usize) {
            Ok(_) => (),
            Err(e) => return Err(e),
        };
        match src.read_n_u32(n_evt as usize) {
            Ok(_) => (),
            Err(e) => return Err(e),
        };
        let n_ev = match src.read_u32() {
            Ok(v) => v,
            Err(e) => return Err(e),
        };
        match src.read_n_u32(n_ev as usize) {
            Ok(_) => (),
            Err(e) => return Err(e),
        };
        match src.read_n_u32(n_ev as usize) {
            Ok(_) => (),
            Err(e) => return Err(e),
        };
        match src.read_n_u32(n_ev as usize) {
            Ok(_) => (),
            Err(e) => return Err(e),
        };
        match src.read_n_u64(n_ev as usize) {
            Ok(_) => (),
            Err(e) => return Err(e),
        };
        let n_sevt = match src.read_u32() {
            Ok(v) => v,
            Err(e) => return Err(e),
        };
        match src.read_n_text(n_sevt as usize) {
            Ok(_) => (),
            Err(e) => return Err(e),
        };
        match src.read_n_u32(n_sevt as usize) {
            Ok(_) => (),
            Err(e) => return Err(e),
        };
        let n_sev = match src.read_u32() {
            Ok(v) => v,
            Err(e) => return Err(e),
        };
        match src.read_n_u32(n_sev as usize) {
            Ok(_) => (),
            Err(e) => return Err(e),
        };
        match src.read_n_u32(n_sev as usize) {
            Ok(_) => (),
            Err(e) => return Err(e),
        };
        match src.read_n_u32(n_sev as usize) {
            Ok(_) => (),
            Err(e) => return Err(e),
        };
        match src.read_n_u64(n_sev as usize) {
            Ok(_) => (),
            Err(e) => return Err(e),
        };
        match src.read_u32() {
            Ok(_) => (),
            Err(e) => return Err(e),
        };
        Ok(
            FrTOC {
                length,
                instance,
                leap,
                gps_sec,
                gps_nano,
                dt,
                position,
                sh_id,
                sh_name,
                name_adc,
                position_adc,
                name_proc,
                position_proc,
            },
        )
    }

    /// The class tag of this record kind.
    pub fn class(&self) -> (r: u16)
        ensures
            r == 19,
    {
        19
    }

    pub fn get_instance(&self) -> (r: u32)
        ensures
            r == self.instance,
    {
        self.instance
    }
}

/// The class tags the dispatcher knows.
pub open spec fn known_class(c: u8) -> bool {
    c == 1 || c == 2 || c == 3 || c == 4 || c == 6 || c == 7 || c == 11 || c == 19 || c == 20
}

/// Parse one whole record: the common preamble, then the body of the
/// class the preamble names.
#[verifier::opaque]
pub open spec fn parse_structure(s: Seq<u8>) -> Option<(StructureV, Seq<u8>)> {
    match take_preamble(s) {
        Some(((length, class, instance), r)) => if class == 1 {
            match parse_frsh(r, length, instance) {
                Some((v, r2)) => Some((StructureV::FrSH(v), r2)),
                None => None,
            }
        } else if class == 2 {
            match parse_frse(r, length, instance) {
                Some((v, r2)) => Some((StructureV::FrSE(v), r2)),
                None => None,
            }
        } else if class == 3 {
            match parse_frameh(r, length, instance) {
                Some((v, r2)) => Some((StructureV::FrameH(v), r2)),
                None => None,
            }
        } else if class == 4 {
            match parse_fradcdata(r, length, instance) {
                Some((v, r2)) => Some((StructureV::FrAdcData(v), r2)),
                None => None,
            }
        } else if class == 6 {
            match parse_frendoffile(r, length, instance) {
                Some((v, r2)) => Some((StructureV::FrEndOfFile(v), r2)),
                None => None,
            }
        } else if class == 7 {
            match parse_frendofframe(r, length, instance) {
                Some((v, r2)) => Some((StructureV::FrEndOfFrame(v), r2)),
                None => None,
            }
        } else if class == 11 {
            match parse_frprocdata(r, length, instance) {
                Some((v, r2)) => Some((StructureV::FrProcData(v), r2)),
                None => None,
            }
        } else if class == 19 {
            match parse_frtoc(r, length, instance) {
                Some((v, r2)) => Some((StructureV::FrTOC(v), r2)),
                None => None,
            }
        } else if class == 20 {
            match parse_frvect(r, length, instance) {
                Some((v, r2)) => Some((StructureV::FrVect(v), r2)),
                None => None,
            }
        } else {
            None
        },
        None => None,
    }
}

/// Step over one record without interpreting its body: the preamble, then
/// `length - 14` bytes.  Yields the class tag (widened) and instance id.
/// A record whose declared span is shorter than its own preamble cannot
/// be stepped over.
pub open spec fn take_skip(s: Seq<u8>) -> Option<((u16, u32), Seq<u8>)> {
    match take_preamble(s) {
        Some(((length, class, instance), r)) => if length < 14 {
            None
        } else if r.len() >= length - 14 {
            Some(((class as u16, instance), r.skip(length - 14)))
        } else {
            None
        },
        None => None,
    }
}

/// The class tag of a decoded record.
pub open spec fn class_of(v: StructureV) -> u16 {
    match v {
        StructureV::FrSH(_) => 1,
        StructureV::FrSE(_) => 2,
        StructureV::FrameH(_) => 3,
        StructureV::FrAdcData(_) => 4,
        StructureV::FrEndOfFile(_) => 6,
        StructureV::FrEndOfFrame(_) => 7,
        StructureV::FrProcData(_) => 11,
        StructureV::FrTOC(_) => 19,
        StructureV::FrVect(_) => 20,
    }
}

/// The instance id of a decoded record.
pub open spec fn instance_of(v: StructureV) -> u32 {
    match v {
        StructureV::FrSH(x) => x.instance,
        StructureV::FrSE(x) => x.instance,
        StructureV::FrameH(x) => x.instance,
        StructureV::FrAdcData(x) => x.instance,
        StructureV::FrEndOfFile(x) => x.instance,
        StructureV::FrEndOfFrame(x) => x.instance,
        StructureV::FrProcData(x) => x.instance,
        StructureV::FrTOC(x) => x.instance,
        StructureV::FrVect(x) => x.instance,
    }
}

/// Whether this record kind carries a name field.
pub open spec fn has_name(v: StructureV) -> bool {
    match v {
        StructureV::FrSH(_) => true,
        StructureV::FrSE(_) => true,
        StructureV::FrameH(_) => true,
        StructureV::FrAdcData(_) => true,
        StructureV::FrProcData(_) => true,
        StructureV::FrVect(_) => true,
        _ => false,
    }
}

/// The name of a record that carries one.
pub open spec fn name_of(v: StructureV) -> Seq<u8> {
    match v {
        StructureV::FrSH(x) => x.name,
        StructureV::FrSE(x) => x.name,
        StructureV::FrameH(x) => x.name,
        StructureV::FrAdcData(x) => x.name,
        StructureV::FrProcData(x) => x.name,
        StructureV::FrVect(x) => x.name,
        _ => Seq::empty(),
    }
}

/// Copy a byte vector.
fn copy_bytes(v: &Vec<u8>) -> (r: Vec<u8>)
    ensures
        r@ == v@,
{
    let mut out: Vec<u8> = Vec::new();
    let mut i: usize = 0;
    proof {
        assert(out@ =~= v@.take(0));
    }
    while i < v.len()
        invariant
            i <= v@.len(),
            out@ == v@.take(i as int),
        decreases v@.len() - i,
    {
        out.push(v[i]);
        proof {
            assert(out@ =~= v@.take(i + 1));
        }
        i = i + 1;
    }
    proof {
        assert(v@.take(v@.len() as int) =~= v@);
    }
    out
}

impl Structure {
    /// Decode one whole record: read the common preamble, then dispatch on
    /// its class tag.  An unrecognized tag is a hard stop: the preamble
    /// gives no safe way to resynchronize on an unknown layout.
    #[verifier::rlimit(100)]
    pub fn read(src: &mut ByteSource) -> (r: Result<Structure, DecodeError>)
        ensures
            (match r {
                Ok(st) => parse_structure(old(src)@) == Some((st@, final(src)@))
                    && final(src)@.len() < old(src)@.len(),
                Err(e) => {
                    &&& parse_structure(old(src)@) is None
                    &&& e != DecodeError::UnexpectedStructureClass
                },
            }),
            (match take_preamble(old(src)@) {
                Some(p) => !known_class(p.0.1) ==> r == Err::<Structure, DecodeError>(
                    DecodeError::UnknownStructureClass(p.0.1),
                ),
                None => r == Err::<Structure, DecodeError>(DecodeError::TruncatedStream),
            }),
    {
        proof {
            reveal(parse_structure);
        }
        let length = match src.read_u64() {
            Ok(v) => v,
            Err(e) => return Err(e),
        };
        match src.read_one_byte() {
            Ok(_) => (),
            Err(e) => return Err(e),
        };
        let class = match src.read_one_byte() {
            Ok(v) => v,
            Err(e) => return Err(e),
        };
        let instance = match src.read_u32() {
            Ok(v) => v,
            Err(e) => return Err(e),
        };
        match class {
            1 => match FrSH::read(src, length, instance) {
                Ok(v) => Ok(Structure::FrSH(v)),
                Err(e) => Err(e),
            },
            2 => match FrSE::read(src, length, instance) {
                Ok(v) => Ok(Structure::FrSE(v)),
                Err(e) => Err(e),
            },
            3 => match FrameH::read(src, length, instance) {
                Ok(v) => Ok(Structure::FrameH(v)),
                Err(e) => Err(e),
            },
            4 => match FrAdcData::read(src, length, instance) {
                Ok(v) => Ok(Structure::FrAdcData(v)),
                Err(e) => Err(e),
            },
            6 => match FrEndOfFile::read(src, length, instance) {
                Ok(v) => Ok(Structure::FrEndOfFile(v)),
                Err(e) => Err(e),
            },
            7 => match FrEndOfFrame::read(src, length, instance) {
                Ok(v) => Ok(Structure::FrEndOfFrame(v)),
                Err(e) => Err(e),
            },
            11 => match FrProcData::read(src, length, instance) {
                Ok(v) => Ok(Structure::FrProcData(v)),
                Err(e) => Err(e),
            },
            19 => match FrTOC::read(src, length, instance) {
                Ok(v) => Ok(Structure::FrTOC(v)),
                Err(e) => Err(e),
            },
            20 => match FrVect::read(src, length, instance) {
                Ok(v) => Ok(Structure::FrVect(v)),
                Err(e) => Err(e),
            },
            _ => Err(DecodeError::UnknownStructureClass(class)),
        }
    }

    /// Step over one record using its declared byte span, without decoding
    /// the body; yields its class tag and instance id.
    pub fn skip(src: &mut ByteSource) -> (r: Result<(u16, u32), DecodeError>)
        ensures
            match r {
                Ok(p) => take_skip(old(src)@) == Some((p, final(src)@)),
                Err(e) => {
                    &&& e == DecodeError::TruncatedStream
                    &&& take_skip(old(src)@) is None
                },
            },
    {
        let length = match src.read_u64() {
            Ok(v) => v,
            Err(e) => return Err(e),
        };
        match src.read_one_byte() {
            Ok(_) => (),
            Err(e) => return Err(e),
        };
        let class = match src.read_one_byte() {
            Ok(v) => v,
            Err(e) => return Err(e),
        };
        let instance = match src.read_u32() {
            Ok(v) => v,
            Err(e) => return Err(e),
        };
        if length < 14 {
            return Err(DecodeError::TruncatedStream);
        }
        let body = length - 14;
        let rem = src.remaining();
        if body > rem as u64 {
            return Err(DecodeError::TruncatedStream);
        }
        match src.skip_raw(body as usize) {
            Ok(()) => (),
            Err(e) => return Err(e),
        };
        Ok((class as u16, instance))
    }

    /// The class tag of this record.
    pub fn get_class(&self) -> (r: u16)
        ensures
            r == class_of(self@),
    {
        match self {
            Structure::FrSH(x) => x.class(),
            Structure::FrSE(x) => x.class(),
            Structure::FrameH(x) => x.class(),
            Structure::FrAdcData(x) => x.class(),
            Structure::FrEndOfFile(x) => x.class(),
            Structure::FrEndOfFrame(x) => x.class(),
            Structure::FrProcData(x) => x.class(),
            Structure::FrTOC(x) => x.class(),
            Structure::FrVect(x) => x.class(),
        }
    }

    /// The instance id of this record.
    pub fn get_instance(&self) -> (r: u32)
        ensures
            r == instance_of(self@),
    {
        match self {
            Structure::FrSH(x) => x.get_instance(),
            Structure::FrSE(x) => x.get_instance(),
            Structure::FrameH(x) => x.get_instance(),
            Structure::FrAdcData(x) => x.get_instance(),
            Structure::FrEndOfFile(x) => x.get_instance(),
            Structure::FrEndOfFrame(x) => x.get_instance(),
            Structure::FrProcData(x) => x.get_instance(),
            Structure::FrTOC(x) => x.get_instance(),
            Structure::FrVect(x) => x.get_instance(),
        }
    }

    /// The name of this record; only for the kinds that carry one.
    pub fn get_name(&self) -> (r: Vec<u8>)
        requires
            has_name(self@),
        ensures
            r@ == name_of(self@),
    {
        match self {
            Structure::FrSH(x) => copy_bytes(&x.name),
            Structure::FrSE(x) => copy_bytes(&x.name),
            Structure::FrameH(x) => copy_bytes(&x.name),
            Structure::FrAdcData(x) => copy_bytes(&x.name),
            Structure::FrProcData(x) => copy_bytes(&x.name),
            Structure::FrVect(x) => copy_bytes(&x.name),
            _ => {
                proof {
                    assert(false);
                }
                Vec::new()
            },
        }
    }

    /// The frame's start instant in nanoseconds; only for frame headers.
    pub fn get_start(&self) -> (r: u64)
        requires
            self@ is FrameH,
        ensures
            r == start_ns(self@.arrow_FrameH_0()),
    {
        match self {
            Structure::FrameH(x) => x.get_start(),
            _ => {
                proof {
                    assert(false);
                }
                0
            },
        }
    }

    /// The frame's end instant in nanoseconds; only for frame headers.
    pub fn get_end(&self) -> (r: u64)
        requires
            self@ is FrameH,
        ensures
            r == end_ns(self@.arrow_FrameH_0()),
    {
        match self {
            Structure::FrameH(x) => x.get_end(),
            _ => {
                proof {
                    assert(false);
                }
                0
            },
        }
    }

    /// The instance id of the payload vector a metadata record points to;
    /// only for channel metadata kinds.
    pub fn get_datavector_instance(&self) -> (r: u32)
        requires
            self@ is FrAdcData || self@ is FrProcData,
        ensures
            r == dv_instance_of(self@),
    {
        match self {
            Structure::FrAdcData(x) => x.get_datavector_instance(),
            Structure::FrProcData(x) => x.get_datavector_instance(),
            _ => {
                proof {
                    assert(false);
                }
                0
            },
        }
    }

    /// The compression-scheme tag of a payload vector record.
    pub fn get_compress(&self) -> (r: u16)
        requires
            self@ is FrVect,
        ensures
            r == self@.arrow_FrVect_0().compress,
    {
        match self {
            Structure::FrVect(x) => x.get_compress(),
            _ => {
                proof {
                    assert(false);
                }
                0
            },
        }
    }

    /// A copy of the raw payload bytes of a payload vector record.
    pub fn get_data(&self) -> (r: Vec<u8>)
        requires
            self@ is FrVect,
        ensures
            r@ == self@.arrow_FrVect_0().data,
    {
        match self {
            Structure::FrVect(x) => x.get_data(),
            _ => {
                proof {
                    assert(false);
                }
                Vec::new()
            },
        }
    }
}

/// The payload-pointer instance of a channel metadata record.
pub open spec fn dv_instance_of(v: StructureV) -> u32 {
    match v {
        StructureV::FrAdcData(x) => x.data.1,
        StructureV::FrProcData(x) => x.data.1,
        _ => 0,
    }
}

/// The frame's exact start instant in nanoseconds.
pub open spec fn start_ns(h: FrameHV) -> nat {
    (h.gps_sec * 1_000_000_000 + h.gps_nano) as nat
}

/// The frame's end instant in nanoseconds: start plus duration, rounded
/// toward zero and saturating at `u64::MAX`.
pub open spec fn end_ns(h: FrameHV) -> nat {
    if start_ns(h) + crate::time::f64_ns(h.dt) > u64::MAX {
        u64::MAX as nat
    } else {
        start_ns(h) + crate::time::f64_ns(h.dt)
    }
}

impl FrameH {
    /// The frame's start instant in nanoseconds, exact.
    pub fn get_start(&self) -> (r: u64)
        ensures
            r == start_ns(self@),
    {
        crate::time::gps_ns(self.gps_sec, self.gps_nano)
    }

    /// The frame's end instant in nanoseconds: start plus duration,
    /// saturating at `u64::MAX`.
    pub fn get_end(&self) -> (r: u64)
        ensures
            r == end_ns(self@),
    {
        let start = crate::time::gps_ns(self.gps_sec, self.gps_nano);
        let dur = crate::time::f64_bits_to_ns(self.dt);
        if dur > u64::MAX - start {
            u64::MAX
        } else {
            start + dur
        }
    }
}

} // verus!
