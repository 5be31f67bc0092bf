use boom::document::{DocValue, Document};
use boom::model::{DiaForcedSource, DiaNondetectionLimit, DiaSource, LsstAlert};
use boom::mongify::{get_coordinates, mongify_dia_source};
use boom::packet::{encode_packet, read_lsst_alert};
use boom::store::{add_to_set_ds, AlertStore};
use boom::worker::{map_insert_alert_error, LsstAlertWorker, RegistryBodies};
use boom::{AlertError, SchemaRegistryError};

fn base_dia_source(candid: i64, object_id: i64, ra: f64, dec: f64) -> DiaSource {
    DiaSource {
        candid,
        visit: 7,
        detector: 3,
        object_id: Some(object_id),
        ss_object_id: None,
        parent_dia_source_id: None,
        mjd: 60500.5f64.to_bits(),
        ra: ra.to_bits(),
        ra_err: None,
        dec: dec.to_bits(),
        dec_err: None,
        centroid_flag: None,
        is_negative: Some(false),
        ap_flux: None,
        ap_flux_err: None,
        ap_flux_flag: None,
        ap_flux_flag_aperture_truncated: None,
        snr: Some(12.5f32.to_bits()),
        psf_flux: Some(300.25f32.to_bits()),
        psf_flux_err: Some(3.5f32.to_bits()),
        psf_ra: None,
        psf_ra_err: None,
        psf_dec: None,
        psf_dec_err: None,
        psf_chi2: None,
        psf_ndata: Some(42),
        psf_flux_flag: None,
        psf_flux_flag_edge: None,
        psf_flux_flag_no_good_pixels: None,
        trail_flux: None,
        trail_flux_err: None,
        trail_ra: None,
        trail_ra_err: None,
        trail_dec: None,
        trail_dec_err: None,
        trail_length: None,
        trail_length_err: None,
        trail_angle: None,
        trail_angle_err: None,
        trail_chi2: None,
        trail_ndata: None,
        trail_flag_edge: None,
        forced_psf_flux_flag: None,
        forced_psf_flux_flag_edge: None,
        forced_psf_flux_flag_no_good_pixels: None,
        snap_diff_flux: None,
        snap_diff_flux_err: None,
        fp_bkgd: None,
        fp_bkgd_err: None,
        shape_flag: None,
        shape_flag_no_pixels: None,
        shape_flag_not_contained: None,
        shape_flag_parent_source: None,
        extendedness: Some(0.0f32.to_bits()),
        reliability: None,
        band: Some(String::from("r")),
        pixel_flags: None,
        pixel_flags_bad: None,
        pixel_flags_cr: None,
        pixel_flags_cr_center: None,
        pixel_flags_edge: Some(true),
        pixel_flags_interpolated: None,
        pixel_flags_interpolated_center: None,
        pixel_flags_offimage: None,
        pixel_flags_saturated: None,
        pixel_flags_saturated_center: None,
        pixel_flags_suspect: None,
        pixel_flags_suspect_center: None,
        pixel_flags_streak: None,
        pixel_flags_streak_center: None,
        pixel_flags_injected: None,
        pixel_flags_injected_center: None,
        pixel_flags_injected_template: None,
        pixel_flags_injected_template_center: None,
        magpsf: None,
        sigmapsf: None,
        science_flux: None,
    }
}

fn base_forced_source(id: i64, object_id: i64) -> DiaForcedSource {
    DiaForcedSource {
        dia_forced_source_id: id,
        object_id,
        ra: 10.0f64.to_bits(),
        dec: (-5.0f64).to_bits(),
        visit: 7,
        detector: 3,
        psf_flux: Some(55.5f32.to_bits()),
        psf_flux_err: Some(1.25f32.to_bits()),
        mjd: 60400.25f64.to_bits(),
        band: Some(String::from("g")),
        magpsf: None,
        sigmapsf: None,
        science_flux: None,
    }
}

fn sample_alert() -> LsstAlert {
    let candidate = base_dia_source(42, 4242, 10.0, -5.0);
    let prv = base_dia_source(41, 4242, 10.0001, -5.0001);
    let fp = base_forced_source(9001, 4242);
    let nondet = DiaNondetectionLimit {
        ccd_visit_id: 77,
        mjd: 60300.0f64.to_bits(),
        band: String::from("i"),
        dia_noise: 0.5f32.to_bits(),
    };
    LsstAlert {
        candid: 42,
        candidate,
        prv_candidates: Some(vec![prv]),
        fp_hists: Some(vec![fp]),
        prv_nondetections: Some(vec![nondet]),
        dia_object: None,
        cutout_difference: Some(vec![1u8, 2, 3]),
        cutout_science: Some(vec![4u8, 5]),
        cutout_template: Some(vec![]),
    }
}

fn warm_bodies() -> RegistryBodies {
    RegistryBodies {
        subjects: String::from("[\"alert-packet\",\"other-subject\"]"),
        versions: String::from("[700,701,702]"),
        schema: String::from("{\"schema\": \"\\\"long\\\"\"}"),
    }
}

fn mags(m: f32, s: f32) -> Option<(u32, u32)> {
    Some((m.to_bits(), s.to_bits()))
}

// --- wire primitives ---------------------------------------------------

#[test]
fn test_long_round_trip() {
    for v in [0i64, 1, -1, 63, 64, -64, -65, 1000000, i64::MAX, i64::MIN] {
        let mut out: Vec<u8> = Vec::new();
        boom::avro::write_long(&mut out, v);
        let (got, end) = boom::avro::read_long(out.as_slice(), 0).unwrap();
        assert_eq!(got, v);
        assert_eq!(end, out.len());
    }
}

#[test]
fn test_varint_single_byte_values() {
    let mut out: Vec<u8> = Vec::new();
    boom::avro::write_long(&mut out, 1);
    assert_eq!(out, vec![2u8]);
    let mut out2: Vec<u8> = Vec::new();
    boom::avro::write_long(&mut out2, -1);
    assert_eq!(out2, vec![1u8]);
}

#[test]
fn test_double_round_trip() {
    let bits = 3.1415926535f64.to_bits();
    let mut out: Vec<u8> = Vec::new();
    boom::avro::write_double(&mut out, bits);
    assert_eq!(out.len(), 8);
    let (got, _) = boom::avro::read_double(out.as_slice(), 0).unwrap();
    assert_eq!(f64::from_bits(got), 3.1415926535f64);
}

#[test]
fn test_string_round_trip() {
    let mut out: Vec<u8> = Vec::new();
    boom::avro::write_string(&mut out, "alert-packet");
    let (got, _) = boom::avro::read_string(out.as_slice(), 0).unwrap();
    assert_eq!(got, "alert-packet");
}

#[test]
fn test_string_rejects_bad_utf8() {
    // length 2, then an invalid UTF-8 byte run
    let bytes = vec![4u8, 0xff, 0xfe];
    assert!(boom::avro::read_string(bytes.as_slice(), 0).is_none());
}

// --- packet round trip (wire form in, same envelope out) ---------------

#[test]
fn test_alert_packet_round_trip() {
    let alert = sample_alert();
    let bytes = encode_packet(&alert, 701);
    assert_eq!(bytes[0], 0u8);
    assert_eq!(
        u32::from_be_bytes([bytes[1], bytes[2], bytes[3], bytes[4]]),
        701
    );
    let (decoded, end) = read_lsst_alert(bytes.as_slice(), 5).unwrap();
    assert_eq!(end, bytes.len());
    assert_eq!(decoded, alert);
    // the self-delimiting payload ignores trailing bytes
    let mut extended = bytes.clone();
    extended.push(0xAB);
    let (decoded2, end2) = read_lsst_alert(extended.as_slice(), 5).unwrap();
    assert_eq!(decoded2, alert);
    assert_eq!(end2, bytes.len());
}

#[test]
fn test_alert_preserves_empty_cutout() {
    // an empty buffer is distinguished from an absent one
    let mut alert = sample_alert();
    alert.cutout_template = Some(vec![]);
    alert.cutout_difference = None;
    let bytes = encode_packet(&alert, 701);
    let (decoded, _) = read_lsst_alert(bytes.as_slice(), 5).unwrap();
    assert_eq!(decoded.cutout_template, Some(vec![]));
    assert_eq!(decoded.cutout_difference, None);
}

#[test]
fn test_decode_rejects_truncated_payload() {
    let alert = sample_alert();
    let bytes = encode_packet(&alert, 701);
    let cut = &bytes[..bytes.len() - 1];
    assert!(read_lsst_alert(cut, 5).is_none());
}

// --- worker: frame, registry, cache -------------------------------------

#[test]
fn test_alert_from_avro_bytes() {
    let mut worker = LsstAlertWorker::new();
    let alert = sample_alert();
    let bytes = encode_packet(&alert, 701);
    let got = worker.alert_from_avro_bytes(bytes.as_slice(), &warm_bodies());
    let got = got.unwrap();
    assert_eq!(got, alert);
    assert_eq!(got.candid, 42);
    assert_eq!(got.candidate.candid, 42);
    assert_eq!(f64::from_bits(got.candidate.ra), 10.0);
    assert_eq!(f64::from_bits(got.candidate.dec), -5.0);
    assert_eq!(got.prv_candidates.as_ref().unwrap().len(), 1);
    assert_eq!(got.fp_hists.as_ref().unwrap().len(), 1);
    assert_eq!(got.cutout_science.as_ref().unwrap().len(), 2);
    assert_eq!(worker.fetches, 1);
}

#[test]
fn test_bad_magic_byte() {
    let mut worker = LsstAlertWorker::new();
    let alert = sample_alert();
    let mut bytes = encode_packet(&alert, 701);
    bytes[0] = 0x01;
    let got = worker.alert_from_avro_bytes(bytes.as_slice(), &warm_bodies());
    assert_eq!(got, Err(AlertError::MagicBytesError));
}

#[test]
fn test_unknown_schema_version() {
    let mut worker = LsstAlertWorker::new();
    let alert = sample_alert();
    let bytes = encode_packet(&alert, 999);
    let got = worker.alert_from_avro_bytes(bytes.as_slice(), &warm_bodies());
    assert_eq!(
        got,
        Err(AlertError::SchemaRegistry(SchemaRegistryError::InvalidVersion))
    );
}

#[test]
fn test_invalid_subject() {
    let bodies = RegistryBodies {
        subjects: String::from("[\"something-else\"]"),
        versions: String::from("[701]"),
        schema: String::from("{\"schema\": \"\\\"long\\\"\"}"),
    };
    let mut worker = LsstAlertWorker::new();
    let got = worker.get_schema("alert-packet", 701, &bodies);
    assert_eq!(got.err(), Some(SchemaRegistryError::InvalidSubject));
}

#[test]
fn test_registry_parsing_error() {
    let bodies = RegistryBodies {
        subjects: String::from("this is not json"),
        versions: String::from("[701]"),
        schema: String::from("{\"schema\": \"\\\"long\\\"\"}"),
    };
    let mut worker = LsstAlertWorker::new();
    let got = worker.get_schema("alert-packet", 701, &bodies);
    assert_eq!(got.err(), Some(SchemaRegistryError::ParsingError));
}

#[test]
fn test_invalid_schema_body() {
    let bodies = RegistryBodies {
        subjects: String::from("[\"alert-packet\"]"),
        versions: String::from("[701]"),
        schema: String::from("{\"schema\": \"not a schema at all\"}"),
    };
    let mut worker = LsstAlertWorker::new();
    let got = worker.get_schema("alert-packet", 701, &bodies);
    assert_eq!(got.err(), Some(SchemaRegistryError::InvalidSchema));
}

#[test]
fn test_schema_cache_warm() {
    let mut worker = LsstAlertWorker::new();
    let alert = sample_alert();
    let bytes = encode_packet(&alert, 701);
    worker
        .alert_from_avro_bytes(bytes.as_slice(), &warm_bodies())
        .unwrap();
    assert_eq!(worker.fetches, 1);
    // the second packet of the same schema needs no registry traffic at all:
    // even unusable bodies are never consulted
    let garbage = RegistryBodies {
        subjects: String::from("not json"),
        versions: String::from("not json"),
        schema: String::from("not json"),
    };
    let again = worker.alert_from_avro_bytes(bytes.as_slice(), &garbage);
    assert!(again.is_ok());
    assert_eq!(worker.fetches, 1);
}

#[test]
fn test_schema_cache_counts_one_fetch_per_version() {
    let mut worker = LsstAlertWorker::new();
    let bodies = warm_bodies();
    for _ in 0..5 {
        worker.get_schema("alert-packet", 701, &bodies).unwrap();
    }
    assert_eq!(worker.fetches, 1);
    worker.get_schema("alert-packet", 702, &bodies).unwrap();
    assert_eq!(worker.fetches, 2);
}

// --- worker names --------------------------------------------------------

#[test]
fn test_worker_names() {
    let worker = LsstAlertWorker::new();
    assert_eq!(worker.stream_name(), "LSST");
    assert_eq!(worker.input_queue_name(), "LSST_alerts_packets_queue");
    assert_eq!(worker.output_queue_name(), "LSST_alerts_filter_queue");
    assert_eq!(worker.alert_collection_name(), "LSST_alerts");
    assert_eq!(worker.alert_cutout_collection_name(), "LSST_alerts_cutouts");
    assert_eq!(worker.alert_aux_collection_name(), "LSST_alerts_aux");
}

// --- enrichment ----------------------------------------------------------

#[test]
fn test_add_mag_data_present_and_absent() {
    let mut d = base_dia_source(1, 2, 10.0, -5.0);
    d.add_mag_data(mags(21.5, 0.1));
    assert_eq!(d.magpsf, Some(21.5f32.to_bits()));
    assert_eq!(d.sigmapsf, Some(0.1f32.to_bits()));
    // a non-positive effective flux admits no magnitude: both stay absent
    d.add_mag_data(None);
    assert_eq!(d.magpsf, None);
    assert_eq!(d.sigmapsf, None);
    // everything else is untouched
    assert_eq!(d.candid, 1);
    assert_eq!(d.band, Some(String::from("r")));
}

// --- projection -----------------------------------------------------------

fn get<'a>(d: &'a Document, key: &str) -> Option<&'a DocValue> {
    for (k, v) in d.pairs.iter() {
        if k == key {
            return Some(v);
        }
    }
    None
}

#[test]
fn test_mongify_renames_and_elides() {
    let mut d = base_dia_source(42, 4242, 10.0, -5.0);
    d.add_mag_data(mags(21.5, 0.1));
    let doc = mongify_dia_source(&d);
    // renamed keys carry the stored values
    assert!(matches!(get(&doc, "candid"), Some(DocValue::I64(42))));
    assert!(matches!(get(&doc, "objectId"), Some(DocValue::I64(4242))));
    match get(&doc, "ra") {
        Some(DocValue::Double(bits)) => assert_eq!(f64::from_bits(*bits), 10.0),
        other => panic!("ra missing or mistyped: {:?}", other),
    }
    match get(&doc, "dec") {
        Some(DocValue::Double(bits)) => assert_eq!(f64::from_bits(*bits), -5.0),
        other => panic!("dec missing or mistyped: {:?}", other),
    }
    match get(&doc, "mjd") {
        Some(DocValue::Double(bits)) => assert_eq!(f64::from_bits(*bits), 60500.5),
        other => panic!("mjd missing or mistyped: {:?}", other),
    }
    match get(&doc, "psfFlux") {
        Some(DocValue::Single(bits)) => assert_eq!(f32::from_bits(*bits), 300.25),
        other => panic!("psfFlux missing or mistyped: {:?}", other),
    }
    match get(&doc, "magpsf") {
        Some(DocValue::Single(bits)) => assert_eq!(f32::from_bits(*bits), 21.5),
        other => panic!("magpsf missing or mistyped: {:?}", other),
    }
    match get(&doc, "band") {
        Some(DocValue::Str(s)) => assert_eq!(s, "r"),
        other => panic!("band missing or mistyped: {:?}", other),
    }
    // wire names do not leak into storage
    assert!(get(&doc, "diaSourceId").is_none());
    assert!(get(&doc, "diaObjectId").is_none());
    // absent optional fields are omitted entirely
    assert!(get(&doc, "raErr").is_none());
    assert!(get(&doc, "trailFlux").is_none());
    assert!(get(&doc, "scienceFlux").is_none());
}

#[test]
fn test_round_trip_decode_then_project() {
    // decode a packet, project its candidate: every present wire field
    // reaches the document under its storage name
    let alert = sample_alert();
    let bytes = encode_packet(&alert, 701);
    let (decoded, _) = read_lsst_alert(bytes.as_slice(), 5).unwrap();
    let doc = mongify_dia_source(&decoded.candidate);
    assert!(matches!(get(&doc, "candid"), Some(DocValue::I64(42))));
    assert!(matches!(get(&doc, "visit"), Some(DocValue::I64(7))));
    assert!(matches!(get(&doc, "detector"), Some(DocValue::I32(3))));
    assert!(matches!(get(&doc, "psfNdata"), Some(DocValue::I32(42))));
    assert!(matches!(
        get(&doc, "pixelFlags_edge"),
        Some(DocValue::Bool(true))
    ));
    assert!(matches!(
        get(&doc, "is_negative"),
        Some(DocValue::Bool(false))
    ));
    assert!(get(&doc, "ssObjectId").is_none());
}

#[test]
fn test_coordinates_convention() {
    let ra = 10.0f64;
    let dec = -5.0f64;
    let doc = get_coordinates((ra - 180.0).to_bits(), dec.to_bits());
    let geo = match get(&doc, "radec_geojson") {
        Some(DocValue::Obj(g)) => g,
        other => panic!("radec_geojson missing: {:?}", other),
    };
    match get(geo, "type") {
        Some(DocValue::Str(s)) => assert_eq!(s, "Point"),
        other => panic!("type missing: {:?}", other),
    }
    match get(geo, "coordinates") {
        Some(DocValue::List(items)) => {
            assert_eq!(items.len(), 2);
            match (&items[0], &items[1]) {
                (DocValue::Double(lon), DocValue::Double(la)) => {
                    assert_eq!(f64::from_bits(*lon), -170.0);
                    assert_eq!(f64::from_bits(*la), -5.0);
                }
                other => panic!("coordinates mistyped: {:?}", other),
            }
        }
        other => panic!("coordinates missing: {:?}", other),
    }
}

// --- persistence protocol -------------------------------------------------

fn run_alert(
    worker: &LsstAlertWorker,
    store: &mut AlertStore,
    alert: LsstAlert,
    now: f64,
) -> Result<i64, AlertError> {
    let ra = f64::from_bits(alert.candidate.ra);
    let prv_n = alert.prv_candidates.as_ref().map_or(0, |v| v.len());
    let fp_n = alert.fp_hists.as_ref().map_or(0, |v| v.len());
    let prv_mags = vec![mags(20.0, 0.2); prv_n];
    let fp_mags = vec![mags(19.5, 0.3); fp_n];
    worker.process_alert(
        alert,
        mags(21.5, 0.1),
        &prv_mags,
        &fp_mags,
        now.to_bits(),
        (ra - 180.0).to_bits(),
        Document::new(),
        store,
    )
}

#[test]
fn test_process_alert() {
    let worker = LsstAlertWorker::new();
    let mut store = AlertStore::new();
    let got = run_alert(&worker, &mut store, sample_alert(), 2460000.5);
    assert_eq!(got, Ok(42));
    assert_eq!(store.alerts.len(), 1);
    assert_eq!(store.alerts[0].candid, 42);
    assert_eq!(store.alerts[0].object_id, 4242);
    assert_eq!(store.alerts[0].created_at, store.alerts[0].updated_at);
    assert_eq!(
        store.alerts[0].candidate.magpsf,
        Some(21.5f32.to_bits())
    );
    assert_eq!(store.cutouts.len(), 1);
    assert_eq!(store.cutouts[0].candid, 42);
    assert_eq!(store.cutouts[0].cutout_science, vec![4u8, 5]);
    assert_eq!(store.cutouts[0].cutout_template, Vec::<u8>::new());
    assert_eq!(store.aux.len(), 1);
    assert_eq!(store.aux[0].object_id, 4242);
    // the enriched current candidate follows the previous detection
    assert_eq!(store.aux[0].prv_candidates.len(), 2);
    assert_eq!(store.aux[0].prv_candidates[0].candid, 41);
    assert_eq!(store.aux[0].prv_candidates[1].candid, 42);
    assert_eq!(store.aux[0].fp_hists.len(), 1);
}

#[test]
fn test_process_alert_duplicate() {
    let worker = LsstAlertWorker::new();
    let mut store = AlertStore::new();
    run_alert(&worker, &mut store, sample_alert(), 2460000.5).unwrap();
    let again = run_alert(&worker, &mut store, sample_alert(), 2460001.5);
    assert_eq!(again, Err(AlertError::AlertExists));
    // nothing changed: same rows, and the history arrays did not grow
    assert_eq!(store.alerts.len(), 1);
    assert_eq!(store.cutouts.len(), 1);
    assert_eq!(store.aux.len(), 1);
    assert_eq!(store.aux[0].prv_candidates.len(), 2);
    assert_eq!(store.aux[0].fp_hists.len(), 1);
    assert_eq!(store.aux[0].updated_at, 2460000.5f64.to_bits());
}

#[test]
fn test_process_alert_merge_same_object() {
    let worker = LsstAlertWorker::new();
    let mut store = AlertStore::new();
    run_alert(&worker, &mut store, sample_alert(), 2460000.5).unwrap();
    // a second packet of the same object: same previous detection, new candid
    let mut second = sample_alert();
    second.candid = 43;
    second.candidate.candid = 43;
    let got = run_alert(&worker, &mut store, second, 2460001.5);
    assert_eq!(got, Ok(43));
    assert_eq!(store.aux.len(), 1);
    // union of the two histories: shared previous detection stays single,
    // each packet's enriched candidate appears once
    assert_eq!(store.aux[0].prv_candidates.len(), 3);
    assert_eq!(store.aux[0].fp_hists.len(), 1);
    assert_eq!(store.aux[0].created_at, 2460000.5f64.to_bits());
    assert_eq!(store.aux[0].updated_at, 2460001.5f64.to_bits());
    // primary and cutout rows exist for both packets
    assert_eq!(store.alerts.len(), 2);
    assert_eq!(store.cutouts.len(), 2);
}

#[test]
fn test_add_to_set_dedups() {
    let a = base_dia_source(1, 2, 10.0, -5.0);
    let b = base_dia_source(2, 2, 11.0, -5.5);
    let mut rows = vec![a.clone()];
    add_to_set_ds(&mut rows, vec![a.clone(), b.clone(), b.clone(), a.clone()]);
    assert_eq!(rows.len(), 2);
    assert_eq!(rows[0].candid, 1);
    assert_eq!(rows[1].candid, 2);
}

#[test]
fn test_map_insert_alert_error() {
    assert_eq!(map_insert_alert_error(11000), AlertError::AlertExists);
    assert_eq!(map_insert_alert_error(0), AlertError::InsertAlertError);
    assert_eq!(map_insert_alert_error(121), AlertError::InsertAlertError);
}

#[test]
fn test_schema_cached_query() {
    let mut worker = LsstAlertWorker::new();
    assert!(!worker.schema_cached("alert-packet", 701));
    worker.get_schema("alert-packet", 701, &warm_bodies()).unwrap();
    assert!(worker.schema_cached("alert-packet", 701));
    assert!(!worker.schema_cached("alert-packet", 702));
    assert!(!worker.schema_cached("other-subject", 701));
}
