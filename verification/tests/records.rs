use framedec::bytes::ByteSource;
use framedec::error::DecodeError;
use framedec::read_frame;
use framedec::read_frame_header;
use framedec::read_one_structure;
use framedec::skip_one_structure;
use framedec::structures::FrSH;
use framedec::structures::Structure;

const PREAMBLE_LEN: u64 = 14;

fn text(s: &str) -> Vec<u8> {
    let mut out = (s.len() as u16).to_le_bytes().to_vec();
    out.extend_from_slice(s.as_bytes());
    out
}

fn ptr(class: u16, instance: u32) -> Vec<u8> {
    let mut out = class.to_le_bytes().to_vec();
    out.extend_from_slice(&instance.to_le_bytes());
    out
}

/// One whole record: preamble (span, checksum kind, class, instance) then
/// the body.  The span counts the preamble and the body.
fn record(class: u8, instance: u32, body: &[u8]) -> Vec<u8> {
    let mut out = (PREAMBLE_LEN + body.len() as u64).to_le_bytes().to_vec();
    out.push(1);
    out.push(class);
    out.extend_from_slice(&instance.to_le_bytes());
    out.extend_from_slice(body);
    out
}

fn frsh_record(instance: u32, name: &str, declared: u16, comment: &str) -> Vec<u8> {
    let mut body = text(name);
    body.extend_from_slice(&declared.to_le_bytes());
    body.extend_from_slice(&text(comment));
    body.extend_from_slice(&7u32.to_le_bytes());
    record(1, instance, &body)
}

fn frse_record(instance: u32, name: &str, class: &str, comment: &str) -> Vec<u8> {
    let mut body = text(name);
    body.extend_from_slice(&text(class));
    body.extend_from_slice(&text(comment));
    body.extend_from_slice(&7u32.to_le_bytes());
    record(2, instance, &body)
}

fn frameh_record(instance: u32, name: &str, gps_sec: u32, gps_nano: u32, dt: f64) -> Vec<u8> {
    let mut body = text(name);
    body.extend_from_slice(&3u32.to_le_bytes()); // run
    body.extend_from_slice(&12u32.to_le_bytes()); // frame number
    body.extend_from_slice(&0u32.to_le_bytes()); // data quality
    body.extend_from_slice(&gps_sec.to_le_bytes());
    body.extend_from_slice(&gps_nano.to_le_bytes());
    body.extend_from_slice(&18u16.to_le_bytes()); // leap offset
    body.extend_from_slice(&dt.to_le_bytes());
    body.extend_from_slice(&ptr(4, 21)); // one real child pointer
    for _ in 0..12 {
        body.extend_from_slice(&ptr(0, 0)); // "no reference"
    }
    body.extend_from_slice(&7u32.to_le_bytes());
    record(3, instance, &body)
}

fn adc_record(instance: u32, name: &str, data_ptr: u32) -> Vec<u8> {
    let mut body = text(name);
    body.extend_from_slice(&text("an analog channel"));
    body.extend_from_slice(&5u32.to_le_bytes()); // channel group
    body.extend_from_slice(&6u32.to_le_bytes()); // channel number
    body.extend_from_slice(&16u32.to_le_bytes()); // bit depth
    body.extend_from_slice(&0.5f32.to_le_bytes()); // bias
    body.extend_from_slice(&2.0f32.to_le_bytes()); // slope
    body.extend_from_slice(&text("V"));
    body.extend_from_slice(&16384.0f64.to_le_bytes()); // sample rate
    body.extend_from_slice(&0.0f64.to_le_bytes()); // time offset
    body.extend_from_slice(&0.0f64.to_le_bytes()); // frequency shift
    body.extend_from_slice(&0.0f32.to_le_bytes()); // phase
    body.extend_from_slice(&1u32.to_le_bytes()); // validity flag
    body.extend_from_slice(&ptr(20, data_ptr)); // payload vector
    body.extend_from_slice(&ptr(0, 0)); // aux
    body.extend_from_slice(&ptr(0, 0)); // next
    body.extend_from_slice(&7u32.to_le_bytes());
    record(4, instance, &body)
}

fn proc_record(instance: u32, name: &str, data_ptr: u32, aux: &[(f64, &str)]) -> Vec<u8> {
    let mut body = text(name);
    body.extend_from_slice(&text("a derived channel"));
    body.extend_from_slice(&1u16.to_le_bytes()); // object type
    body.extend_from_slice(&2u16.to_le_bytes()); // sub type
    body.extend_from_slice(&0.0f64.to_le_bytes()); // time offset
    body.extend_from_slice(&1.0f64.to_le_bytes()); // time range
    body.extend_from_slice(&0.0f64.to_le_bytes()); // frequency shift
    body.extend_from_slice(&0.0f32.to_le_bytes()); // phase
    body.extend_from_slice(&8192.0f64.to_le_bytes()); // frequency range
    body.extend_from_slice(&0.0f64.to_le_bytes()); // bandwidth
    body.extend_from_slice(&(aux.len() as u16).to_le_bytes());
    for (v, _) in aux {
        body.extend_from_slice(&v.to_le_bytes());
    }
    for (_, n) in aux {
        body.extend_from_slice(&text(n));
    }
    body.extend_from_slice(&ptr(20, data_ptr));
    body.extend_from_slice(&ptr(0, 0)); // aux
    body.extend_from_slice(&ptr(0, 0)); // table
    body.extend_from_slice(&ptr(0, 0)); // history
    body.extend_from_slice(&ptr(0, 0)); // next
    body.extend_from_slice(&7u32.to_le_bytes());
    record(11, instance, &body)
}

fn vect_record(instance: u32, name: &str, data: &[u8]) -> Vec<u8> {
    let mut body = text(name);
    body.extend_from_slice(&0u16.to_le_bytes()); // compression scheme
    body.extend_from_slice(&1u16.to_le_bytes()); // element type
    body.extend_from_slice(&(data.len() as u64).to_le_bytes()); // element count
    body.extend_from_slice(&(data.len() as u64).to_le_bytes()); // byte count
    body.extend_from_slice(data);
    body.extend_from_slice(&1u32.to_le_bytes()); // dimensions
    body.extend_from_slice(&(data.len() as u64).to_le_bytes()); // size
    body.extend_from_slice(&1.0f64.to_le_bytes()); // step
    body.extend_from_slice(&0.0f64.to_le_bytes()); // origin
    body.extend_from_slice(&text("s")); // per-dimension unit
    body.extend_from_slice(&text("count")); // value unit
    body.extend_from_slice(&ptr(0, 0)); // next
    body.extend_from_slice(&7u32.to_le_bytes());
    record(20, instance, &body)
}

fn end_of_frame_record(instance: u32, gps_sec: u32) -> Vec<u8> {
    let mut body = 3u32.to_le_bytes().to_vec(); // run
    body.extend_from_slice(&12u32.to_le_bytes()); // frame number
    body.extend_from_slice(&gps_sec.to_le_bytes());
    body.extend_from_slice(&0u32.to_le_bytes()); // nanoseconds
    body.extend_from_slice(&7u32.to_le_bytes());
    record(7, instance, &body)
}

fn end_of_file_record(instance: u32) -> Vec<u8> {
    let mut body = 2u32.to_le_bytes().to_vec(); // frame count
    body.extend_from_slice(&4096u64.to_le_bytes()); // total bytes
    body.extend_from_slice(&2048u64.to_le_bytes()); // offset to index
    for _ in 0..4 {
        body.extend_from_slice(&7u32.to_le_bytes());
    }
    record(6, instance, &body)
}

fn announcing_frsh(declared: u16) -> Structure {
    Structure::FrSH(FrSH {
        length: 0,
        instance: 0,
        name: b"announce".to_vec(),
        class: declared,
        comment: Vec::new(),
    })
}

#[test]
fn frsh_decodes() {
    let mut src = ByteSource::new(frsh_record(1, "FrameH", 3, "frame header"));
    let st = Structure::read(&mut src).unwrap();
    assert_eq!(src.remaining(), 0);
    assert_eq!(st.get_class(), 1);
    assert_eq!(st.get_instance(), 1);
    assert_eq!(st.get_name(), b"FrameH".to_vec());
    match st {
        Structure::FrSH(x) => assert_eq!(x.get_struct_class(), 3),
        _ => panic!("wrong variant"),
    }
}

#[test]
fn frse_decodes() {
    let mut src = ByteSource::new(frse_record(2, "dataQuality", "INT_4U", ""));
    let st = Structure::read(&mut src).unwrap();
    assert_eq!(st.get_class(), 2);
    assert_eq!(st.get_name(), b"dataQuality".to_vec());
}

#[test]
fn frameh_decodes_with_times() {
    let mut src = ByteSource::new(frameh_record(1, "run3", 100, 500_000_000, 10.0));
    let st = Structure::read(&mut src).unwrap();
    assert_eq!(src.remaining(), 0);
    assert_eq!(st.get_class(), 3);
    // 100 s + 0.5 s start, 10 s duration, in nanoseconds.
    assert_eq!(st.get_start(), 100_500_000_000);
    assert_eq!(st.get_end(), 110_500_000_000);
    match st {
        Structure::FrameH(x) => {
            // Only the one nonzero child pointer is kept.
            assert_eq!(x.data, vec![(4u16, 21u32)]);
            assert_eq!(x.u_leap, 18);
        },
        _ => panic!("wrong variant"),
    }
}

#[test]
fn adc_decodes() {
    let mut src = ByteSource::new(adc_record(9, "X1:STRAIN", 7));
    let st = Structure::read(&mut src).unwrap();
    assert_eq!(src.remaining(), 0);
    assert_eq!(st.get_class(), 4);
    assert_eq!(st.get_name(), b"X1:STRAIN".to_vec());
    assert_eq!(st.get_datavector_instance(), 7);
    match st {
        Structure::FrAdcData(x) => {
            let (bias, slope, rate, _, _, _) = x.get_dump();
            assert_eq!(f32::from_bits(bias), 0.5);
            assert_eq!(f32::from_bits(slope), 2.0);
            assert_eq!(f64::from_bits(rate), 16384.0);
            assert_eq!(x.unit, b"V".to_vec());
        },
        _ => panic!("wrong variant"),
    }
}

#[test]
fn proc_decodes_and_zips_aux_pairs() {
    let aux = [(2.5f64, "f0"), (-1.0f64, "q")];
    let mut src = ByteSource::new(proc_record(3, "X1:SPECTRUM", 8, &aux));
    let st = Structure::read(&mut src).unwrap();
    assert_eq!(src.remaining(), 0);
    assert_eq!(st.get_class(), 11);
    assert_eq!(st.get_datavector_instance(), 8);
    match st {
        Structure::FrProcData(x) => {
            assert_eq!(x.aux.len(), 2);
            assert_eq!(f64::from_bits(x.aux[0].0), 2.5);
            assert_eq!(x.aux[0].1, b"f0".to_vec());
            assert_eq!(f64::from_bits(x.aux[1].0), -1.0);
            assert_eq!(x.aux[1].1, b"q".to_vec());
        },
        _ => panic!("wrong variant"),
    }
}

#[test]
fn vect_decodes() {
    let payload = [10u8, 20, 30, 40];
    let mut src = ByteSource::new(vect_record(7, "X1:STRAIN", &payload));
    let st = Structure::read(&mut src).unwrap();
    assert_eq!(src.remaining(), 0);
    assert_eq!(st.get_class(), 20);
    assert_eq!(st.get_instance(), 7);
    assert_eq!(st.get_compress(), 0);
    assert_eq!(st.get_data(), payload.to_vec());
}

#[test]
fn end_markers_decode() {
    let mut src = ByteSource::new(end_of_frame_record(1, 101));
    assert_eq!(Structure::read(&mut src).unwrap().get_class(), 7);
    let mut src = ByteSource::new(end_of_file_record(1));
    let st = Structure::read(&mut src).unwrap();
    assert_eq!(st.get_class(), 6);
    match st {
        Structure::FrEndOfFile(x) => {
            assert_eq!(x.n_frames, 2);
            assert_eq!(x.n_bytes, 4096);
            assert_eq!(x.seek_toc, 2048);
            assert_eq!(x.get_instance(), 1);
        },
        _ => panic!("wrong variant"),
    }
}

#[test]
fn unknown_class_tag_is_a_hard_stop() {
    // Class tag 200 in the preamble must fail, not silently skip.
    let mut src = ByteSource::new(record(200, 1, &[0, 0, 0, 0]));
    assert_eq!(
        Structure::read(&mut src),
        Err(DecodeError::UnknownStructureClass(200))
    );
}

#[test]
fn truncated_record_fails() {
    let whole = adc_record(9, "X1:STRAIN", 7);
    let mut src = ByteSource::new(whole[..whole.len() - 10].to_vec());
    assert_eq!(Structure::read(&mut src), Err(DecodeError::TruncatedStream));
}

#[test]
fn skip_steps_over_by_declared_span() {
    let mut stream = vect_record(7, "X1:STRAIN", &[1, 2, 3]);
    stream.extend_from_slice(&frsh_record(1, "next", 3, ""));
    let mut src = ByteSource::new(stream);
    assert_eq!(Structure::skip(&mut src), Ok((20, 7)));
    // The source now stands at the following record.
    assert_eq!(Structure::read(&mut src).unwrap().get_class(), 1);
}

#[test]
fn read_one_structure_passes_dictionary_elements() {
    // A dictionary element right before the announced record must be
    // consumed in the same cycle, not mistaken for the record.
    let mut stream = frse_record(5, "name", "STRING", "");
    stream.extend_from_slice(&frse_record(6, "dt", "REAL_8", ""));
    stream.extend_from_slice(&frameh_record(1, "run3", 0, 0, 1.0));
    let mut src = ByteSource::new(stream);
    let st = read_one_structure(&mut src, announcing_frsh(3)).unwrap();
    assert_eq!(st.get_class(), 3);
    assert_eq!(src.remaining(), 0);
}

#[test]
fn read_one_structure_rejects_class_mismatch() {
    let mut src = ByteSource::new(vect_record(7, "X1:STRAIN", &[1]));
    assert_eq!(
        read_one_structure(&mut src, announcing_frsh(3)),
        Err(DecodeError::UnexpectedStructureClass)
    );
}

#[test]
fn skip_one_structure_passes_dictionary_elements() {
    let mut stream = frse_record(5, "name", "STRING", "");
    stream.extend_from_slice(&vect_record(7, "X1:STRAIN", &[1, 2, 3]));
    stream.extend_from_slice(&end_of_frame_record(1, 0));
    let mut src = ByteSource::new(stream);
    assert_eq!(skip_one_structure(&mut src, announcing_frsh(20)), Ok(7));
    assert_eq!(Structure::read(&mut src).unwrap().get_class(), 7);
}

#[test]
fn read_frame_header_yields_declared_class() {
    let mut src = ByteSource::new(frsh_record(1, "FrameH", 3, ""));
    let (st, declared) = read_frame_header(&mut src).unwrap();
    assert_eq!(declared, 3);
    assert_eq!(st.get_class(), 1);
}

#[test]
fn read_frame_header_rejects_other_records() {
    let mut src = ByteSource::new(end_of_frame_record(1, 0));
    assert_eq!(
        read_frame_header(&mut src),
        Err(DecodeError::UnexpectedStructureClass)
    );
}

/// One frame: header, then announced records, then the terminator.
fn frame_stream(gps_sec: u32, dt: f64, channel: &str, meta_ptr: u32, vect_inst: u32) -> Vec<u8> {
    let mut s = frameh_record(1, "run3", gps_sec, 0, dt);
    s.extend_from_slice(&frsh_record(2, "FrAdcData", 4, ""));
    s.extend_from_slice(&adc_record(1, channel, meta_ptr));
    s.extend_from_slice(&frsh_record(3, "FrVect", 20, ""));
    s.extend_from_slice(&vect_record(vect_inst, channel, &[1, 2, 3, 4]));
    s.extend_from_slice(&frsh_record(4, "FrEndOfFrame", 7, ""));
    s.extend_from_slice(&end_of_frame_record(1, gps_sec));
    s
}

#[test]
fn traversal_pairs_metadata_with_its_vector() {
    // The metadata's payload pointer names instance 7; the vector carries
    // instance 7 and must be paired with it.
    let mut src = ByteSource::new(frame_stream(100, 10.0, "X1:STRAIN", 7, 7));
    let out = read_frame(
        &mut src,
        announcing_frsh(3),
        b"X1:STRAIN".to_vec(),
        105_000_000_000,
        120_000_000_000,
    )
    .unwrap();
    assert_eq!(out.records.len(), 1);
    assert_eq!(out.vectors.len(), 1);
    assert_eq!(out.records[0].get_datavector_instance(), 7);
    assert_eq!(out.vectors[0].get_instance(), 7);
    assert!(out.anomalies.is_empty());
    assert_eq!(src.remaining(), 0);
}

#[test]
fn traversal_drops_unmatched_vector() {
    // A vector whose instance id matches no pending pointer is dropped.
    let mut src = ByteSource::new(frame_stream(100, 10.0, "X1:STRAIN", 7, 8));
    let out = read_frame(
        &mut src,
        announcing_frsh(3),
        b"X1:STRAIN".to_vec(),
        105_000_000_000,
        120_000_000_000,
    )
    .unwrap();
    assert_eq!(out.records.len(), 1);
    assert_eq!(out.vectors.len(), 0);
}

#[test]
fn traversal_rejects_frame_outside_window() {
    // Frame [100 s, 110 s] against window [200 s, 210 s]: nothing kept.
    let mut src = ByteSource::new(frame_stream(100, 10.0, "X1:STRAIN", 7, 7));
    let out = read_frame(
        &mut src,
        announcing_frsh(3),
        b"X1:STRAIN".to_vec(),
        200_000_000_000,
        210_000_000_000,
    )
    .unwrap();
    assert!(out.records.is_empty());
    assert!(out.vectors.is_empty());
    assert_eq!(src.remaining(), 0);
}

#[test]
fn traversal_filters_by_channel_name() {
    let mut src = ByteSource::new(frame_stream(100, 10.0, "X1:STRAIN", 7, 7));
    let out = read_frame(
        &mut src,
        announcing_frsh(3),
        b"X1:OTHER".to_vec(),
        105_000_000_000,
        120_000_000_000,
    )
    .unwrap();
    assert!(out.records.is_empty());
    assert!(out.vectors.is_empty());
}

#[test]
fn traversal_reports_out_of_place_records_as_anomalies() {
    let mut s = frameh_record(1, "run3", 100, 0, 10.0);
    // A table of contents has no business inside a frame body: it is
    // stepped over and reported, not raised as an error.
    s.extend_from_slice(&frsh_record(2, "FrEndOfFile", 6, ""));
    s.extend_from_slice(&end_of_file_record(1));
    s.extend_from_slice(&frsh_record(3, "FrEndOfFrame", 7, ""));
    s.extend_from_slice(&end_of_frame_record(1, 100));
    let mut src = ByteSource::new(s);
    let out = read_frame(
        &mut src,
        announcing_frsh(3),
        b"X1:STRAIN".to_vec(),
        0,
        200_000_000_000,
    )
    .unwrap();
    assert!(out.records.is_empty());
    assert_eq!(out.anomalies, vec![6]);
    assert_eq!(src.remaining(), 0);
}

#[test]
fn traversal_rejects_wrong_announcing_header() {
    let mut src = ByteSource::new(frame_stream(100, 10.0, "X1:STRAIN", 7, 7));
    assert_eq!(
        read_frame(&mut src, announcing_frsh(4), b"X1:STRAIN".to_vec(), 0, 1),
        Err(DecodeError::UnexpectedStructureClass)
    );
}

#[test]
fn two_frame_stream_end_to_end() {
    // Frame 1 spans GPS [0 s, 1 s), frame 2 spans [1 s, 2 s); each holds
    // one channel "X" and its vector.  The window [0.5 s, 1.5 s] overlaps
    // both, so both metadata records and both vectors come back, in frame
    // order.
    let mut s = frsh_record(1, "FrameH", 3, "");
    s.extend_from_slice(&frame_stream(0, 1.0, "X", 7, 7));
    s.extend_from_slice(&frsh_record(1, "FrameH", 3, ""));
    s.extend_from_slice(&frame_stream(1, 1.0, "X", 9, 9));
    let mut src = ByteSource::new(s);
    let mut all_records = Vec::new();
    let mut all_vectors = Vec::new();
    for _ in 0..2 {
        let (frsh, declared) = read_frame_header(&mut src).unwrap();
        assert_eq!(declared, 3);
        let out = read_frame(
            &mut src,
            frsh,
            b"X".to_vec(),
            500_000_000,
            1_500_000_000,
        )
        .unwrap();
        all_records.extend(out.records);
        all_vectors.extend(out.vectors);
    }
    assert_eq!(src.remaining(), 0);
    assert_eq!(all_records.len(), 2);
    assert_eq!(all_vectors.len(), 2);
    assert_eq!(all_records[0].get_datavector_instance(), 7);
    assert_eq!(all_records[1].get_datavector_instance(), 9);
    assert_eq!(all_vectors[0].get_instance(), 7);
    assert_eq!(all_vectors[1].get_instance(), 9);
}

fn toc_record(instance: u32) -> Vec<u8> {
    let nf = 2u32; // frames
    let mut body = 13u16.to_le_bytes().to_vec(); // leap seconds
    body.extend_from_slice(&nf.to_le_bytes());
    for q in [0u32, 0] {
        body.extend_from_slice(&q.to_le_bytes()); // data quality
    }
    for sec in [100u32, 101] {
        body.extend_from_slice(&sec.to_le_bytes());
    }
    for nano in [0u32, 0] {
        body.extend_from_slice(&nano.to_le_bytes());
    }
    for dt in [1.0f64, 1.0] {
        body.extend_from_slice(&dt.to_le_bytes());
    }
    for run in [3u32, 3] {
        body.extend_from_slice(&run.to_le_bytes());
    }
    for frame in [0u32, 1] {
        body.extend_from_slice(&frame.to_le_bytes());
    }
    for pos in [40u64, 4000] {
        body.extend_from_slice(&pos.to_le_bytes());
    }
    for _ in 0..4 {
        for off in [0u64, 0] {
            body.extend_from_slice(&off.to_le_bytes()); // section offsets
        }
    }
    // Dictionary headers.
    body.extend_from_slice(&2u16.to_le_bytes());
    body.extend_from_slice(&3u16.to_le_bytes());
    body.extend_from_slice(&4u16.to_le_bytes());
    body.extend_from_slice(&text("FrameH"));
    body.extend_from_slice(&text("FrAdcData"));
    // Detectors: none.
    body.extend_from_slice(&0u32.to_le_bytes());
    // Static data: none in either table.
    body.extend_from_slice(&0u32.to_le_bytes());
    body.extend_from_slice(&0u32.to_le_bytes());
    // Analog channels: one, with a position per frame.
    body.extend_from_slice(&1u32.to_le_bytes());
    body.extend_from_slice(&text("X1:STRAIN"));
    body.extend_from_slice(&6u32.to_le_bytes()); // channel id
    body.extend_from_slice(&5u32.to_le_bytes()); // group id
    for pos in [64u64, 4024] {
        body.extend_from_slice(&pos.to_le_bytes());
    }
    // Processed channels: none; simulated, serial, summary: none.
    for _ in 0..4 {
        body.extend_from_slice(&0u32.to_le_bytes());
    }
    // Events and simulated events: no types and no entries.
    for _ in 0..4 {
        body.extend_from_slice(&0u32.to_le_bytes());
    }
    body.extend_from_slice(&7u32.to_le_bytes());
    record(19, instance, &body)
}

#[test]
fn toc_decodes() {
    let mut src = ByteSource::new(toc_record(1));
    let st = Structure::read(&mut src).unwrap();
    assert_eq!(src.remaining(), 0);
    assert_eq!(st.get_class(), 19);
    match st {
        Structure::FrTOC(x) => {
            assert_eq!(x.leap, 13);
            assert_eq!(x.gps_sec, vec![100, 101]);
            assert_eq!(x.dt.len(), 2);
            assert_eq!(f64::from_bits(x.dt[0]), 1.0);
            assert_eq!(x.position, vec![40, 4000]);
            assert_eq!(x.sh_id, vec![3, 4]);
            assert_eq!(x.sh_name, vec![b"FrameH".to_vec(), b"FrAdcData".to_vec()]);
            assert_eq!(x.name_adc, vec![b"X1:STRAIN".to_vec()]);
            assert_eq!(x.position_adc, vec![vec![64, 4024]]);
            assert!(x.name_proc.is_empty());
        },
        _ => panic!("wrong variant"),
    }
}

#[test]
fn declared_span_matches_bytes_consumed() {
    // A decoded record's declared byte span equals what the decoder
    // actually consumed, preamble and trailing checksum included.
    let streams: Vec<Vec<u8>> = vec![
        frsh_record(1, "FrameH", 3, "frame header"),
        frse_record(2, "dataQuality", "INT_4U", ""),
        frameh_record(1, "run3", 100, 0, 10.0),
        adc_record(9, "X1:STRAIN", 7),
        proc_record(3, "X1:SPECTRUM", 8, &[(2.5, "f0")]),
        vect_record(7, "X1:STRAIN", &[1, 2, 3, 4]),
        end_of_frame_record(1, 100),
        end_of_file_record(1),
        toc_record(1),
    ];
    for stream in streams {
        let declared = u64::from_le_bytes(stream[..8].try_into().unwrap());
        let before = stream.len();
        let mut src = ByteSource::new(stream);
        Structure::read(&mut src).unwrap();
        let consumed = before - src.remaining();
        assert_eq!(consumed as u64, declared);
    }
}

#[test]
fn traversal_keeps_processed_channels_too() {
    let mut s = frameh_record(1, "run3", 100, 0, 10.0);
    s.extend_from_slice(&frsh_record(2, "FrProcData", 11, ""));
    s.extend_from_slice(&proc_record(1, "X1:SPECTRUM", 5, &[(0.5, "f0")]));
    s.extend_from_slice(&frsh_record(3, "FrVect", 20, ""));
    s.extend_from_slice(&vect_record(5, "X1:SPECTRUM", &[9, 9]));
    s.extend_from_slice(&frsh_record(4, "FrEndOfFrame", 7, ""));
    s.extend_from_slice(&end_of_frame_record(1, 100));
    let mut src = ByteSource::new(s);
    let out = read_frame(
        &mut src,
        announcing_frsh(3),
        b"X1:SPECTRUM".to_vec(),
        100_000_000_000,
        120_000_000_000,
    )
    .unwrap();
    assert_eq!(out.records.len(), 1);
    assert_eq!(out.records[0].get_class(), 11);
    assert_eq!(out.vectors.len(), 1);
    assert_eq!(out.vectors[0].get_instance(), 5);
}
