//! The wire layout of one alert packet: each record of the canonical model as
//! an ordered run of primitive encodings, nullable fields as unions, histories
//! as block-encoded arrays, and the envelope that ties them together.
//!
//! `dec_lsst_alert` is the specification of the payload format. The executable
//! reader returns exactly what it defines; the executable writer produces a
//! byte run that the `lemma_read_*` lemmas prove decodes back to the value
//! written, so a packet survives an encode-decode round trip unchanged.

use vstd::prelude::*;

verus! {

use vstd::utf8::encode_utf8;
use crate::avro::{
    zigzag,
    enc_varint,
    dec_varint,
    lemma_read_varint,
    lemma_dec_varint_range,
    read_varint,
    lemma_concat_assoc,
    lemma_enc_varint_len,
    enc_long,
    dec_long,
    lemma_read_long,
    read_long,
    write_long,
    lemma_dec_long_range,
    enc_opt_long,
    dec_opt_long,
    lemma_read_opt_long,
    read_opt_long,
    write_opt_long,
    lemma_dec_opt_long_range,
    enc_int,
    dec_int,
    lemma_read_int,
    read_int,
    write_int,
    lemma_dec_int_range,
    enc_opt_int,
    dec_opt_int,
    lemma_read_opt_int,
    read_opt_int,
    write_opt_int,
    lemma_dec_opt_int_range,
    enc_double,
    dec_double,
    lemma_read_double,
    read_double,
    write_double,
    lemma_dec_double_range,
    enc_opt_double,
    dec_opt_double,
    lemma_read_opt_double,
    read_opt_double,
    write_opt_double,
    lemma_dec_opt_double_range,
    enc_single,
    dec_single,
    lemma_read_single,
    read_single,
    write_single,
    lemma_dec_single_range,
    enc_opt_single,
    dec_opt_single,
    lemma_read_opt_single,
    read_opt_single,
    write_opt_single,
    lemma_dec_opt_single_range,
    enc_bool,
    dec_bool,
    lemma_read_bool,
    read_bool,
    write_bool,
    lemma_dec_bool_range,
    enc_opt_bool,
    dec_opt_bool,
    lemma_read_opt_bool,
    read_opt_bool,
    write_opt_bool,
    lemma_dec_opt_bool_range,
    enc_string,
    dec_string,
    lemma_read_string,
    read_string,
    write_string,
    lemma_dec_string_range,
    enc_opt_string,
    dec_opt_string,
    lemma_read_opt_string,
    read_opt_string,
    write_opt_string,
    lemma_dec_opt_string_range,
    enc_bytes,
    dec_bytes,
    lemma_read_bytes,
    read_bytes,
    write_bytes,
    lemma_dec_bytes_range,
    enc_opt_bytes,
    dec_opt_bytes,
    lemma_read_opt_bytes,
    read_opt_bytes,
    write_opt_bytes,
    lemma_dec_opt_bytes_range,
    view_opt_string,
    view_opt_bytes,
};
use crate::model::{
    DiaSource,
    DiaSourceSpec,
    DiaObject,
    DiaObjectSpec,
    DiaForcedSource,
    DiaForcedSourceSpec,
    DiaNondetectionLimit,
    DiaNondetectionLimitSpec,
    LsstAlert,
    LsstAlertSpec,
    wire_form_dia_source,
    wire_form_dia_forced_source,
    wire_form_lsst_alert,
    encodable_dia_source,
    encodable_dia_forced_source,
    encodable_dia_nondetection_limit,
    encodable_lsst_alert,
    seq_view_dia_source,
    seq_view_dia_forced_source,
    seq_view_dia_nondetection_limit,
    view_opt_vec_dia_source,
    view_opt_vec_dia_forced_source,
    view_opt_vec_dia_nondetection_limit,
    view_opt_dia_object,
};

broadcast use vstd::seq::group_seq_axioms;

// ---------------------------------------------------------------------------
// DiaSource
// ---------------------------------------------------------------------------

pub open spec fn enc_ds_c1(a: DiaSourceSpec) -> Seq<u8> {
    enc_long(a.candid)
        + enc_long(a.visit)
        + enc_int(a.detector)
        + enc_opt_long(a.object_id)
        + enc_opt_long(a.ss_object_id)
        + enc_opt_long(a.parent_dia_source_id)
        + enc_double(a.mjd)
        + enc_double(a.ra)
}

pub open spec fn dec_ds_c1(s: Seq<u8>, i: int) -> Option<((i64, i64, i32, Option<i64>, Option<i64>, Option<i64>, u64, u64), int)> {
    match dec_long(s, i) {
        None => None,
        Some((f0, p0)) => {
            match dec_long(s, p0) {
                None => None,
                Some((f1, p1)) => {
                    match dec_int(s, p1) {
                        None => None,
                        Some((f2, p2)) => {
                            match dec_opt_long(s, p2) {
                                None => None,
                                Some((f3, p3)) => {
                                    match dec_opt_long(s, p3) {
                                        None => None,
                                        Some((f4, p4)) => {
                                            match dec_opt_long(s, p4) {
                                                None => None,
                                                Some((f5, p5)) => {
                                                    match dec_double(s, p5) {
                                                        None => None,
                                                        Some((f6, p6)) => {
                                                            match dec_double(s, p6) {
                                                                None => None,
                                                                Some((f7, p7)) => {
                                                                    Some(((f0, f1, f2, f3, f4, f5, f6, f7), p7))
                                                                },
                                                            }
                                                        },
                                                    }
                                                },
                                            }
                                        },
                                    }
                                },
                            }
                        },
                    }
                },
            }
        },
    }
}

pub proof fn lemma_dec_ds_c1_range(s: Seq<u8>, i: int)
    ensures
        dec_ds_c1(s, i) matches Some((v, j)) ==> i < j <= s.len(),
{
    lemma_dec_long_range(s, i);
    match dec_long(s, i) {
        None => {},
        Some((f0, p0)) => {
            lemma_dec_long_range(s, p0);
            match dec_long(s, p0) {
                None => {},
                Some((f1, p1)) => {
                    lemma_dec_int_range(s, p1);
                    match dec_int(s, p1) {
                        None => {},
                        Some((f2, p2)) => {
                            lemma_dec_opt_long_range(s, p2);
                            match dec_opt_long(s, p2) {
                                None => {},
                                Some((f3, p3)) => {
                                    lemma_dec_opt_long_range(s, p3);
                                    match dec_opt_long(s, p3) {
                                        None => {},
                                        Some((f4, p4)) => {
                                            lemma_dec_opt_long_range(s, p4);
                                            match dec_opt_long(s, p4) {
                                                None => {},
                                                Some((f5, p5)) => {
                                                    lemma_dec_double_range(s, p5);
                                                    match dec_double(s, p5) {
                                                        None => {},
                                                        Some((f6, p6)) => {
                                                            lemma_dec_double_range(s, p6);
                                                            match dec_double(s, p6) {
                                                                None => {},
                                                                Some((f7, p7)) => {
                                                                },
                                                            }
                                                        },
                                                    }
                                                },
                                            }
                                        },
                                    }
                                },
                            }
                        },
                    }
                },
            }
        },
    }
}

pub proof fn lemma_read_ds_c1(a: DiaSourceSpec, s: Seq<u8>, i: int, rest: Seq<u8>)
    requires
        0 <= i <= s.len(),
        encodable_dia_source(a),
        s.skip(i) == enc_ds_c1(a) + rest,
    ensures
        i + enc_ds_c1(a).len() <= s.len(),
        dec_ds_c1(s, i) == Some(((a.candid, a.visit, a.detector, a.object_id, a.ss_object_id, a.parent_dia_source_id, a.mjd, a.ra), i + enc_ds_c1(a).len())),
        s.skip(i + enc_ds_c1(a).len()) == rest,
{
    let t8 = rest;
    let t7 = enc_double(a.ra) + t8;
    let t6 = enc_double(a.mjd) + t7;
    let t5 = enc_opt_long(a.parent_dia_source_id) + t6;
    let t4 = enc_opt_long(a.ss_object_id) + t5;
    let t3 = enc_opt_long(a.object_id) + t4;
    let t2 = enc_int(a.detector) + t3;
    let t1 = enc_long(a.visit) + t2;
    lemma_concat_assoc(
        enc_long(a.candid)
        + enc_long(a.visit)
        + enc_int(a.detector)
        + enc_opt_long(a.object_id)
        + enc_opt_long(a.ss_object_id)
        + enc_opt_long(a.parent_dia_source_id)
        + enc_double(a.mjd),
        enc_double(a.ra),
        t8,
    );
    lemma_concat_assoc(
        enc_long(a.candid)
        + enc_long(a.visit)
        + enc_int(a.detector)
        + enc_opt_long(a.object_id)
        + enc_opt_long(a.ss_object_id)
        + enc_opt_long(a.parent_dia_source_id),
        enc_double(a.mjd),
        t7,
    );
    lemma_concat_assoc(
        enc_long(a.candid)
        + enc_long(a.visit)
        + enc_int(a.detector)
        + enc_opt_long(a.object_id)
        + enc_opt_long(a.ss_object_id),
        enc_opt_long(a.parent_dia_source_id),
        t6,
    );
    lemma_concat_assoc(
        enc_long(a.candid)
        + enc_long(a.visit)
        + enc_int(a.detector)
        + enc_opt_long(a.object_id),
        enc_opt_long(a.ss_object_id),
        t5,
    );
    lemma_concat_assoc(
        enc_long(a.candid)
        + enc_long(a.visit)
        + enc_int(a.detector),
        enc_opt_long(a.object_id),
        t4,
    );
    lemma_concat_assoc(
        enc_long(a.candid)
        + enc_long(a.visit),
        enc_int(a.detector),
        t3,
    );
    lemma_concat_assoc(
        enc_long(a.candid),
        enc_long(a.visit),
        t2,
    );
    let i0 = i;
    lemma_read_long(a.candid, s, i0, t1);
    let i1 = i0 + enc_long(a.candid).len();
    lemma_read_long(a.visit, s, i1, t2);
    let i2 = i1 + enc_long(a.visit).len();
    lemma_read_int(a.detector, s, i2, t3);
    let i3 = i2 + enc_int(a.detector).len();
    lemma_read_opt_long(a.object_id, s, i3, t4);
    let i4 = i3 + enc_opt_long(a.object_id).len();
    lemma_read_opt_long(a.ss_object_id, s, i4, t5);
    let i5 = i4 + enc_opt_long(a.ss_object_id).len();
    lemma_read_opt_long(a.parent_dia_source_id, s, i5, t6);
    let i6 = i5 + enc_opt_long(a.parent_dia_source_id).len();
    lemma_read_double(a.mjd, s, i6, t7);
    let i7 = i6 + enc_double(a.mjd).len();
    lemma_read_double(a.ra, s, i7, t8);
    let i8 = i7 + enc_double(a.ra).len();
    assert(i8 == i + enc_ds_c1(a).len());
}

pub fn read_ds_c1(bytes: &[u8], pos: usize) -> (r: Option<((i64, i64, i32, Option<i64>, Option<i64>, Option<i64>, u64, u64), usize)>)
    ensures
        match r {
            Some((v, j)) => dec_ds_c1(bytes@, pos as int) == Some(((v.0, v.1, v.2, v.3, v.4, v.5, v.6, v.7), j as int)),
            None => dec_ds_c1(bytes@, pos as int) is None,
        },
{
    let (f0, p0) = read_long(bytes, pos)?;
    let (f1, p1) = read_long(bytes, p0)?;
    let (f2, p2) = read_int(bytes, p1)?;
    let (f3, p3) = read_opt_long(bytes, p2)?;
    let (f4, p4) = read_opt_long(bytes, p3)?;
    let (f5, p5) = read_opt_long(bytes, p4)?;
    let (f6, p6) = read_double(bytes, p5)?;
    let (f7, p7) = read_double(bytes, p6)?;
    Some(((f0, f1, f2, f3, f4, f5, f6, f7), p7))
}

#[verifier::rlimit(100)]
pub fn write_ds_c1(out: &mut Vec<u8>, a: &DiaSource)
    requires
        encodable_dia_source(a@),
    ensures
        final(out)@ == old(out)@ + enc_ds_c1(a@),
{
    write_long(out, a.candid);
    assert(out@ =~= old(out)@ + (enc_long(a@.candid)));
    write_long(out, a.visit);
    assert(out@ =~= old(out)@ + (enc_long(a@.candid)
        + enc_long(a@.visit)));
    write_int(out, a.detector);
    assert(out@ =~= old(out)@ + (enc_long(a@.candid)
        + enc_long(a@.visit)
        + enc_int(a@.detector)));
    write_opt_long(out, a.object_id);
    assert(out@ =~= old(out)@ + (enc_long(a@.candid)
        + enc_long(a@.visit)
        + enc_int(a@.detector)
        + enc_opt_long(a@.object_id)));
    write_opt_long(out, a.ss_object_id);
    assert(out@ =~= old(out)@ + (enc_long(a@.candid)
        + enc_long(a@.visit)
        + enc_int(a@.detector)
        + enc_opt_long(a@.object_id)
        + enc_opt_long(a@.ss_object_id)));
    write_opt_long(out, a.parent_dia_source_id);
    assert(out@ =~= old(out)@ + (enc_long(a@.candid)
        + enc_long(a@.visit)
        + enc_int(a@.detector)
        + enc_opt_long(a@.object_id)
        + enc_opt_long(a@.ss_object_id)
        + enc_opt_long(a@.parent_dia_source_id)));
    write_double(out, a.mjd);
    assert(out@ =~= old(out)@ + (enc_long(a@.candid)
        + enc_long(a@.visit)
        + enc_int(a@.detector)
        + enc_opt_long(a@.object_id)
        + enc_opt_long(a@.ss_object_id)
        + enc_opt_long(a@.parent_dia_source_id)
        + enc_double(a@.mjd)));
    write_double(out, a.ra);
    assert(out@ =~= old(out)@ + (enc_long(a@.candid)
        + enc_long(a@.visit)
        + enc_int(a@.detector)
        + enc_opt_long(a@.object_id)
        + enc_opt_long(a@.ss_object_id)
        + enc_opt_long(a@.parent_dia_source_id)
        + enc_double(a@.mjd)
        + enc_double(a@.ra)));
}

pub open spec fn enc_ds_c2(a: DiaSourceSpec) -> Seq<u8> {
    enc_opt_single(a.ra_err)
        + enc_double(a.dec)
        + enc_opt_single(a.dec_err)
        + enc_opt_bool(a.centroid_flag)
        + enc_opt_bool(a.is_negative)
        + enc_opt_single(a.ap_flux)
        + enc_opt_single(a.ap_flux_err)
        + enc_opt_bool(a.ap_flux_flag)
}

pub open spec fn dec_ds_c2(s: Seq<u8>, i: int) -> Option<((Option<u32>, u64, Option<u32>, Option<bool>, Option<bool>, Option<u32>, Option<u32>, Option<bool>), int)> {
    match dec_opt_single(s, i) {
        None => None,
        Some((f0, p0)) => {
            match dec_double(s, p0) {
                None => None,
                Some((f1, p1)) => {
                    match dec_opt_single(s, p1) {
                        None => None,
                        Some((f2, p2)) => {
                            match dec_opt_bool(s, p2) {
                                None => None,
                                Some((f3, p3)) => {
                                    match dec_opt_bool(s, p3) {
                                        None => None,
                                        Some((f4, p4)) => {
                                            match dec_opt_single(s, p4) {
                                                None => None,
                                                Some((f5, p5)) => {
                                                    match dec_opt_single(s, p5) {
                                                        None => None,
                                                        Some((f6, p6)) => {
                                                            match dec_opt_bool(s, p6) {
                                                                None => None,
                                                                Some((f7, p7)) => {
                                                                    Some(((f0, f1, f2, f3, f4, f5, f6, f7), p7))
                                                                },
                                                            }
                                                        },
                                                    }
                                                },
                                            }
                                        },
                                    }
                                },
                            }
                        },
                    }
                },
            }
        },
    }
}

pub proof fn lemma_dec_ds_c2_range(s: Seq<u8>, i: int)
    ensures
        dec_ds_c2(s, i) matches Some((v, j)) ==> i < j <= s.len(),
{
    lemma_dec_opt_single_range(s, i);
    match dec_opt_single(s, i) {
        None => {},
        Some((f0, p0)) => {
            lemma_dec_double_range(s, p0);
            match dec_double(s, p0) {
                None => {},
                Some((f1, p1)) => {
                    lemma_dec_opt_single_range(s, p1);
                    match dec_opt_single(s, p1) {
                        None => {},
                        Some((f2, p2)) => {
                            lemma_dec_opt_bool_range(s, p2);
                            match dec_opt_bool(s, p2) {
                                None => {},
                                Some((f3, p3)) => {
                                    lemma_dec_opt_bool_range(s, p3);
                                    match dec_opt_bool(s, p3) {
                                        None => {},
                                        Some((f4, p4)) => {
                                            lemma_dec_opt_single_range(s, p4);
                                            match dec_opt_single(s, p4) {
                                                None => {},
                                                Some((f5, p5)) => {
                                                    lemma_dec_opt_single_range(s, p5);
                                                    match dec_opt_single(s, p5) {
                                                        None => {},
                                                        Some((f6, p6)) => {
                                                            lemma_dec_opt_bool_range(s, p6);
                                                            match dec_opt_bool(s, p6) {
                                                                None => {},
                                                                Some((f7, p7)) => {
                                                                },
                                                            }
                                                        },
                                                    }
                                                },
                                            }
                                        },
                                    }
                                },
                            }
                        },
                    }
                },
            }
        },
    }
}

pub proof fn lemma_read_ds_c2(a: DiaSourceSpec, s: Seq<u8>, i: int, rest: Seq<u8>)
    requires
        0 <= i <= s.len(),
        encodable_dia_source(a),
        s.skip(i) == enc_ds_c2(a) + rest,
    ensures
        i + enc_ds_c2(a).len() <= s.len(),
        dec_ds_c2(s, i) == Some(((a.ra_err, a.dec, a.dec_err, a.centroid_flag, a.is_negative, a.ap_flux, a.ap_flux_err, a.ap_flux_flag), i + enc_ds_c2(a).len())),
        s.skip(i + enc_ds_c2(a).len()) == rest,
{
    let t8 = rest;
    let t7 = enc_opt_bool(a.ap_flux_flag) + t8;
    let t6 = enc_opt_single(a.ap_flux_err) + t7;
    let t5 = enc_opt_single(a.ap_flux) + t6;
    let t4 = enc_opt_bool(a.is_negative) + t5;
    let t3 = enc_opt_bool(a.centroid_flag) + t4;
    let t2 = enc_opt_single(a.dec_err) + t3;
    let t1 = enc_double(a.dec) + t2;
    lemma_concat_assoc(
        enc_opt_single(a.ra_err)
        + enc_double(a.dec)
        + enc_opt_single(a.dec_err)
        + enc_opt_bool(a.centroid_flag)
        + enc_opt_bool(a.is_negative)
        + enc_opt_single(a.ap_flux)
        + enc_opt_single(a.ap_flux_err),
        enc_opt_bool(a.ap_flux_flag),
        t8,
    );
    lemma_concat_assoc(
        enc_opt_single(a.ra_err)
        + enc_double(a.dec)
        + enc_opt_single(a.dec_err)
        + enc_opt_bool(a.centroid_flag)
        + enc_opt_bool(a.is_negative)
        + enc_opt_single(a.ap_flux),
        enc_opt_single(a.ap_flux_err),
        t7,
    );
    lemma_concat_assoc(
        enc_opt_single(a.ra_err)
        + enc_double(a.dec)
        + enc_opt_single(a.dec_err)
        + enc_opt_bool(a.centroid_flag)
        + enc_opt_bool(a.is_negative),
        enc_opt_single(a.ap_flux),
        t6,
    );
    lemma_concat_assoc(
        enc_opt_single(a.ra_err)
        + enc_double(a.dec)
        + enc_opt_single(a.dec_err)
        + enc_opt_bool(a.centroid_flag),
        enc_opt_bool(a.is_negative),
        t5,
    );
    lemma_concat_assoc(
        enc_opt_single(a.ra_err)
        + enc_double(a.dec)
        + enc_opt_single(a.dec_err),
        enc_opt_bool(a.centroid_flag),
        t4,
    );
    lemma_concat_assoc(
        enc_opt_single(a.ra_err)
        + enc_double(a.dec),
        enc_opt_single(a.dec_err),
        t3,
    );
    lemma_concat_assoc(
        enc_opt_single(a.ra_err),
        enc_double(a.dec),
        t2,
    );
    let i0 = i;
    lemma_read_opt_single(a.ra_err, s, i0, t1);
    let i1 = i0 + enc_opt_single(a.ra_err).len();
    lemma_read_double(a.dec, s, i1, t2);
    let i2 = i1 + enc_double(a.dec).len();
    lemma_read_opt_single(a.dec_err, s, i2, t3);
    let i3 = i2 + enc_opt_single(a.dec_err).len();
    lemma_read_opt_bool(a.centroid_flag, s, i3, t4);
    let i4 = i3 + enc_opt_bool(a.centroid_flag).len();
    lemma_read_opt_bool(a.is_negative, s, i4, t5);
    let i5 = i4 + enc_opt_bool(a.is_negative).len();
    lemma_read_opt_single(a.ap_flux, s, i5, t6);
    let i6 = i5 + enc_opt_single(a.ap_flux).len();
    lemma_read_opt_single(a.ap_flux_err, s, i6, t7);
    let i7 = i6 + enc_opt_single(a.ap_flux_err).len();
    lemma_read_opt_bool(a.ap_flux_flag, s, i7, t8);
    let i8 = i7 + enc_opt_bool(a.ap_flux_flag).len();
    assert(i8 == i + enc_ds_c2(a).len());
}

pub fn read_ds_c2(bytes: &[u8], pos: usize) -> (r: Option<((Option<u32>, u64, Option<u32>, Option<bool>, Option<bool>, Option<u32>, Option<u32>, Option<bool>), usize)>)
    ensures
        match r {
            Some((v, j)) => dec_ds_c2(bytes@, pos as int) == Some(((v.0, v.1, v.2, v.3, v.4, v.5, v.6, v.7), j as int)),
            None => dec_ds_c2(bytes@, pos as int) is None,
        },
{
    let (f0, p0) = read_opt_single(bytes, pos)?;
    let (f1, p1) = read_double(bytes, p0)?;
    let (f2, p2) = read_opt_single(bytes, p1)?;
    let (f3, p3) = read_opt_bool(bytes, p2)?;
    let (f4, p4) = read_opt_bool(bytes, p3)?;
    let (f5, p5) = read_opt_single(bytes, p4)?;
    let (f6, p6) = read_opt_single(bytes, p5)?;
    let (f7, p7) = read_opt_bool(bytes, p6)?;
    Some(((f0, f1, f2, f3, f4, f5, f6, f7), p7))
}

#[verifier::rlimit(100)]
pub fn write_ds_c2(out: &mut Vec<u8>, a: &DiaSource)
    requires
        encodable_dia_source(a@),
    ensures
        final(out)@ == old(out)@ + enc_ds_c2(a@),
{
    write_opt_single(out, a.ra_err);
    assert(out@ =~= old(out)@ + (enc_opt_single(a@.ra_err)));
    write_double(out, a.dec);
    assert(out@ =~= old(out)@ + (enc_opt_single(a@.ra_err)
        + enc_double(a@.dec)));
    write_opt_single(out, a.dec_err);
    assert(out@ =~= old(out)@ + (enc_opt_single(a@.ra_err)
        + enc_double(a@.dec)
        + enc_opt_single(a@.dec_err)));
    write_opt_bool(out, a.centroid_flag);
    assert(out@ =~= old(out)@ + (enc_opt_single(a@.ra_err)
        + enc_double(a@.dec)
        + enc_opt_single(a@.dec_err)
        + enc_opt_bool(a@.centroid_flag)));
    write_opt_bool(out, a.is_negative);
    assert(out@ =~= old(out)@ + (enc_opt_single(a@.ra_err)
        + enc_double(a@.dec)
        + enc_opt_single(a@.dec_err)
        + enc_opt_bool(a@.centroid_flag)
        + enc_opt_bool(a@.is_negative)));
    write_opt_single(out, a.ap_flux);
    assert(out@ =~= old(out)@ + (enc_opt_single(a@.ra_err)
        + enc_double(a@.dec)
        + enc_opt_single(a@.dec_err)
        + enc_opt_bool(a@.centroid_flag)
        + enc_opt_bool(a@.is_negative)
        + enc_opt_single(a@.ap_flux)));
    write_opt_single(out, a.ap_flux_err);
    assert(out@ =~= old(out)@ + (enc_opt_single(a@.ra_err)
        + enc_double(a@.dec)
        + enc_opt_single(a@.dec_err)
        + enc_opt_bool(a@.centroid_flag)
        + enc_opt_bool(a@.is_negative)
        + enc_opt_single(a@.ap_flux)
        + enc_opt_single(a@.ap_flux_err)));
    write_opt_bool(out, a.ap_flux_flag);
    assert(out@ =~= old(out)@ + (enc_opt_single(a@.ra_err)
        + enc_double(a@.dec)
        + enc_opt_single(a@.dec_err)
        + enc_opt_bool(a@.centroid_flag)
        + enc_opt_bool(a@.is_negative)
        + enc_opt_single(a@.ap_flux)
        + enc_opt_single(a@.ap_flux_err)
        + enc_opt_bool(a@.ap_flux_flag)));
}

pub open spec fn enc_ds_c3(a: DiaSourceSpec) -> Seq<u8> {
    enc_opt_bool(a.ap_flux_flag_aperture_truncated)
        + enc_opt_single(a.snr)
        + enc_opt_single(a.psf_flux)
        + enc_opt_single(a.psf_flux_err)
        + enc_opt_double(a.psf_ra)
        + enc_opt_single(a.psf_ra_err)
        + enc_opt_double(a.psf_dec)
        + enc_opt_single(a.psf_dec_err)
}

pub open spec fn dec_ds_c3(s: Seq<u8>, i: int) -> Option<((Option<bool>, Option<u32>, Option<u32>, Option<u32>, Option<u64>, Option<u32>, Option<u64>, Option<u32>), int)> {
    match dec_opt_bool(s, i) {
        None => None,
        Some((f0, p0)) => {
            match dec_opt_single(s, p0) {
                None => None,
                Some((f1, p1)) => {
                    match dec_opt_single(s, p1) {
                        None => None,
                        Some((f2, p2)) => {
                            match dec_opt_single(s, p2) {
                                None => None,
                                Some((f3, p3)) => {
                                    match dec_opt_double(s, p3) {
                                        None => None,
                                        Some((f4, p4)) => {
                                            match dec_opt_single(s, p4) {
                                                None => None,
                                                Some((f5, p5)) => {
                                                    match dec_opt_double(s, p5) {
                                                        None => None,
                                                        Some((f6, p6)) => {
                                                            match dec_opt_single(s, p6) {
                                                                None => None,
                                                                Some((f7, p7)) => {
                                                                    Some(((f0, f1, f2, f3, f4, f5, f6, f7), p7))
                                                                },
                                                            }
                                                        },
                                                    }
                                                },
                                            }
                                        },
                                    }
                                },
                            }
                        },
                    }
                },
            }
        },
    }
}

pub proof fn lemma_dec_ds_c3_range(s: Seq<u8>, i: int)
    ensures
        dec_ds_c3(s, i) matches Some((v, j)) ==> i < j <= s.len(),
{
    lemma_dec_opt_bool_range(s, i);
    match dec_opt_bool(s, i) {
        None => {},
        Some((f0, p0)) => {
            lemma_dec_opt_single_range(s, p0);
            match dec_opt_single(s, p0) {
                None => {},
                Some((f1, p1)) => {
                    lemma_dec_opt_single_range(s, p1);
                    match dec_opt_single(s, p1) {
                        None => {},
                        Some((f2, p2)) => {
                            lemma_dec_opt_single_range(s, p2);
                            match dec_opt_single(s, p2) {
                                None => {},
                                Some((f3, p3)) => {
                                    lemma_dec_opt_double_range(s, p3);
                                    match dec_opt_double(s, p3) {
                                        None => {},
                                        Some((f4, p4)) => {
                                            lemma_dec_opt_single_range(s, p4);
                                            match dec_opt_single(s, p4) {
                                                None => {},
                                                Some((f5, p5)) => {
                                                    lemma_dec_opt_double_range(s, p5);
                                                    match dec_opt_double(s, p5) {
                                                        None => {},
                                                        Some((f6, p6)) => {
                                                            lemma_dec_opt_single_range(s, p6);
                                                            match dec_opt_single(s, p6) {
                                                                None => {},
                                                                Some((f7, p7)) => {
                                                                },
                                                            }
                                                        },
                                                    }
                                                },
                                            }
                                        },
                                    }
                                },
                            }
                        },
                    }
                },
            }
        },
    }
}

pub proof fn lemma_read_ds_c3(a: DiaSourceSpec, s: Seq<u8>, i: int, rest: Seq<u8>)
    requires
        0 <= i <= s.len(),
        encodable_dia_source(a),
        s.skip(i) == enc_ds_c3(a) + rest,
    ensures
        i + enc_ds_c3(a).len() <= s.len(),
        dec_ds_c3(s, i) == Some(((a.ap_flux_flag_aperture_truncated, a.snr, a.psf_flux, a.psf_flux_err, a.psf_ra, a.psf_ra_err, a.psf_dec, a.psf_dec_err), i + enc_ds_c3(a).len())),
        s.skip(i + enc_ds_c3(a).len()) == rest,
{
    let t8 = rest;
    let t7 = enc_opt_single(a.psf_dec_err) + t8;
    let t6 = enc_opt_double(a.psf_dec) + t7;
    let t5 = enc_opt_single(a.psf_ra_err) + t6;
    let t4 = enc_opt_double(a.psf_ra) + t5;
    let t3 = enc_opt_single(a.psf_flux_err) + t4;
    let t2 = enc_opt_single(a.psf_flux) + t3;
    let t1 = enc_opt_single(a.snr) + t2;
    lemma_concat_assoc(
        enc_opt_bool(a.ap_flux_flag_aperture_truncated)
        + enc_opt_single(a.snr)
        + enc_opt_single(a.psf_flux)
        + enc_opt_single(a.psf_flux_err)
        + enc_opt_double(a.psf_ra)
        + enc_opt_single(a.psf_ra_err)
        + enc_opt_double(a.psf_dec),
        enc_opt_single(a.psf_dec_err),
        t8,
    );
    lemma_concat_assoc(
        enc_opt_bool(a.ap_flux_flag_aperture_truncated)
        + enc_opt_single(a.snr)
        + enc_opt_single(a.psf_flux)
        + enc_opt_single(a.psf_flux_err)
        + enc_opt_double(a.psf_ra)
        + enc_opt_single(a.psf_ra_err),
        enc_opt_double(a.psf_dec),
        t7,
    );
    lemma_concat_assoc(
        enc_opt_bool(a.ap_flux_flag_aperture_truncated)
        + enc_opt_single(a.snr)
        + enc_opt_single(a.psf_flux)
        + enc_opt_single(a.psf_flux_err)
        + enc_opt_double(a.psf_ra),
        enc_opt_single(a.psf_ra_err),
        t6,
    );
    lemma_concat_assoc(
        enc_opt_bool(a.ap_flux_flag_aperture_truncated)
        + enc_opt_single(a.snr)
        + enc_opt_single(a.psf_flux)
        + enc_opt_single(a.psf_flux_err),
        enc_opt_double(a.psf_ra),
        t5,
    );
    lemma_concat_assoc(
        enc_opt_bool(a.ap_flux_flag_aperture_truncated)
        + enc_opt_single(a.snr)
        + enc_opt_single(a.psf_flux),
        enc_opt_single(a.psf_flux_err),
        t4,
    );
    lemma_concat_assoc(
        enc_opt_bool(a.ap_flux_flag_aperture_truncated)
        + enc_opt_single(a.snr),
        enc_opt_single(a.psf_flux),
        t3,
    );
    lemma_concat_assoc(
        enc_opt_bool(a.ap_flux_flag_aperture_truncated),
        enc_opt_single(a.snr),
        t2,
    );
    let i0 = i;
    lemma_read_opt_bool(a.ap_flux_flag_aperture_truncated, s, i0, t1);
    let i1 = i0 + enc_opt_bool(a.ap_flux_flag_aperture_truncated).len();
    lemma_read_opt_single(a.snr, s, i1, t2);
    let i2 = i1 + enc_opt_single(a.snr).len();
    lemma_read_opt_single(a.psf_flux, s, i2, t3);
    let i3 = i2 + enc_opt_single(a.psf_flux).len();
    lemma_read_opt_single(a.psf_flux_err, s, i3, t4);
    let i4 = i3 + enc_opt_single(a.psf_flux_err).len();
    lemma_read_opt_double(a.psf_ra, s, i4, t5);
    let i5 = i4 + enc_opt_double(a.psf_ra).len();
    lemma_read_opt_single(a.psf_ra_err, s, i5, t6);
    let i6 = i5 + enc_opt_single(a.psf_ra_err).len();
    lemma_read_opt_double(a.psf_dec, s, i6, t7);
    let i7 = i6 + enc_opt_double(a.psf_dec).len();
    lemma_read_opt_single(a.psf_dec_err, s, i7, t8);
    let i8 = i7 + enc_opt_single(a.psf_dec_err).len();
    assert(i8 == i + enc_ds_c3(a).len());
}

pub fn read_ds_c3(bytes: &[u8], pos: usize) -> (r: Option<((Option<bool>, Option<u32>, Option<u32>, Option<u32>, Option<u64>, Option<u32>, Option<u64>, Option<u32>), usize)>)
    ensures
        match r {
            Some((v, j)) => dec_ds_c3(bytes@, pos as int) == Some(((v.0, v.1, v.2, v.3, v.4, v.5, v.6, v.7), j as int)),
            None => dec_ds_c3(bytes@, pos as int) is None,
        },
{
    let (f0, p0) = read_opt_bool(bytes, pos)?;
    let (f1, p1) = read_opt_single(bytes, p0)?;
    let (f2, p2) = read_opt_single(bytes, p1)?;
    let (f3, p3) = read_opt_single(bytes, p2)?;
    let (f4, p4) = read_opt_double(bytes, p3)?;
    let (f5, p5) = read_opt_single(bytes, p4)?;
    let (f6, p6) = read_opt_double(bytes, p5)?;
    let (f7, p7) = read_opt_single(bytes, p6)?;
    Some(((f0, f1, f2, f3, f4, f5, f6, f7), p7))
}

#[verifier::rlimit(100)]
pub fn write_ds_c3(out: &mut Vec<u8>, a: &DiaSource)
    requires
        encodable_dia_source(a@),
    ensures
        final(out)@ == old(out)@ + enc_ds_c3(a@),
{
    write_opt_bool(out, a.ap_flux_flag_aperture_truncated);
    assert(out@ =~= old(out)@ + (enc_opt_bool(a@.ap_flux_flag_aperture_truncated)));
    write_opt_single(out, a.snr);
    assert(out@ =~= old(out)@ + (enc_opt_bool(a@.ap_flux_flag_aperture_truncated)
        + enc_opt_single(a@.snr)));
    write_opt_single(out, a.psf_flux);
    assert(out@ =~= old(out)@ + (enc_opt_bool(a@.ap_flux_flag_aperture_truncated)
        + enc_opt_single(a@.snr)
        + enc_opt_single(a@.psf_flux)));
    write_opt_single(out, a.psf_flux_err);
    assert(out@ =~= old(out)@ + (enc_opt_bool(a@.ap_flux_flag_aperture_truncated)
        + enc_opt_single(a@.snr)
        + enc_opt_single(a@.psf_flux)
        + enc_opt_single(a@.psf_flux_err)));
    write_opt_double(out, a.psf_ra);
    assert(out@ =~= old(out)@ + (enc_opt_bool(a@.ap_flux_flag_aperture_truncated)
        + enc_opt_single(a@.snr)
        + enc_opt_single(a@.psf_flux)
        + enc_opt_single(a@.psf_flux_err)
        + enc_opt_double(a@.psf_ra)));
    write_opt_single(out, a.psf_ra_err);
    assert(out@ =~= old(out)@ + (enc_opt_bool(a@.ap_flux_flag_aperture_truncated)
        + enc_opt_single(a@.snr)
        + enc_opt_single(a@.psf_flux)
        + enc_opt_single(a@.psf_flux_err)
        + enc_opt_double(a@.psf_ra)
        + enc_opt_single(a@.psf_ra_err)));
    write_opt_double(out, a.psf_dec);
    assert(out@ =~= old(out)@ + (enc_opt_bool(a@.ap_flux_flag_aperture_truncated)
        + enc_opt_single(a@.snr)
        + enc_opt_single(a@.psf_flux)
        + enc_opt_single(a@.psf_flux_err)
        + enc_opt_double(a@.psf_ra)
        + enc_opt_single(a@.psf_ra_err)
        + enc_opt_double(a@.psf_dec)));
    write_opt_single(out, a.psf_dec_err);
    assert(out@ =~= old(out)@ + (enc_opt_bool(a@.ap_flux_flag_aperture_truncated)
        + enc_opt_single(a@.snr)
        + enc_opt_single(a@.psf_flux)
        + enc_opt_single(a@.psf_flux_err)
        + enc_opt_double(a@.psf_ra)
        + enc_opt_single(a@.psf_ra_err)
        + enc_opt_double(a@.psf_dec)
        + enc_opt_single(a@.psf_dec_err)));
}

pub open spec fn enc_ds_c4(a: DiaSourceSpec) -> Seq<u8> {
    enc_opt_single(a.psf_chi2)
        + enc_opt_int(a.psf_ndata)
        + enc_opt_bool(a.psf_flux_flag)
        + enc_opt_bool(a.psf_flux_flag_edge)
        + enc_opt_bool(a.psf_flux_flag_no_good_pixels)
        + enc_opt_single(a.trail_flux)
        + enc_opt_single(a.trail_flux_err)
        + enc_opt_double(a.trail_ra)
}

pub open spec fn dec_ds_c4(s: Seq<u8>, i: int) -> Option<((Option<u32>, Option<i32>, Option<bool>, Option<bool>, Option<bool>, Option<u32>, Option<u32>, Option<u64>), int)> {
    match dec_opt_single(s, i) {
        None => None,
        Some((f0, p0)) => {
            match dec_opt_int(s, p0) {
                None => None,
                Some((f1, p1)) => {
                    match dec_opt_bool(s, p1) {
                        None => None,
                        Some((f2, p2)) => {
                            match dec_opt_bool(s, p2) {
                                None => None,
                                Some((f3, p3)) => {
                                    match dec_opt_bool(s, p3) {
                                        None => None,
                                        Some((f4, p4)) => {
                                            match dec_opt_single(s, p4) {
                                                None => None,
                                                Some((f5, p5)) => {
                                                    match dec_opt_single(s, p5) {
                                                        None => None,
                                                        Some((f6, p6)) => {
                                                            match dec_opt_double(s, p6) {
                                                                None => None,
                                                                Some((f7, p7)) => {
                                                                    Some(((f0, f1, f2, f3, f4, f5, f6, f7), p7))
                                                                },
                                                            }
                                                        },
                                                    }
                                                },
                                            }
                                        },
                                    }
                                },
                            }
                        },
                    }
                },
            }
        },
    }
}

pub proof fn lemma_dec_ds_c4_range(s: Seq<u8>, i: int)
    ensures
        dec_ds_c4(s, i) matches Some((v, j)) ==> i < j <= s.len(),
{
    lemma_dec_opt_single_range(s, i);
    match dec_opt_single(s, i) {
        None => {},
        Some((f0, p0)) => {
            lemma_dec_opt_int_range(s, p0);
            match dec_opt_int(s, p0) {
                None => {},
                Some((f1, p1)) => {
                    lemma_dec_opt_bool_range(s, p1);
                    match dec_opt_bool(s, p1) {
                        None => {},
                        Some((f2, p2)) => {
                            lemma_dec_opt_bool_range(s, p2);
                            match dec_opt_bool(s, p2) {
                                None => {},
                                Some((f3, p3)) => {
                                    lemma_dec_opt_bool_range(s, p3);
                                    match dec_opt_bool(s, p3) {
                                        None => {},
                                        Some((f4, p4)) => {
                                            lemma_dec_opt_single_range(s, p4);
                                            match dec_opt_single(s, p4) {
                                                None => {},
                                                Some((f5, p5)) => {
                                                    lemma_dec_opt_single_range(s, p5);
                                                    match dec_opt_single(s, p5) {
                                                        None => {},
                                                        Some((f6, p6)) => {
                                                            lemma_dec_opt_double_range(s, p6);
                                                            match dec_opt_double(s, p6) {
                                                                None => {},
                                                                Some((f7, p7)) => {
                                                                },
                                                            }
                                                        },
                                                    }
                                                },
                                            }
                                        },
                                    }
                                },
                            }
                        },
                    }
                },
            }
        },
    }
}

pub proof fn lemma_read_ds_c4(a: DiaSourceSpec, s: Seq<u8>, i: int, rest: Seq<u8>)
    requires
        0 <= i <= s.len(),
        encodable_dia_source(a),
        s.skip(i) == enc_ds_c4(a) + rest,
    ensures
        i + enc_ds_c4(a).len() <= s.len(),
        dec_ds_c4(s, i) == Some(((a.psf_chi2, a.psf_ndata, a.psf_flux_flag, a.psf_flux_flag_edge, a.psf_flux_flag_no_good_pixels, a.trail_flux, a.trail_flux_err, a.trail_ra), i + enc_ds_c4(a).len())),
        s.skip(i + enc_ds_c4(a).len()) == rest,
{
    let t8 = rest;
    let t7 = enc_opt_double(a.trail_ra) + t8;
    let t6 = enc_opt_single(a.trail_flux_err) + t7;
    let t5 = enc_opt_single(a.trail_flux) + t6;
    let t4 = enc_opt_bool(a.psf_flux_flag_no_good_pixels) + t5;
    let t3 = enc_opt_bool(a.psf_flux_flag_edge) + t4;
    let t2 = enc_opt_bool(a.psf_flux_flag) + t3;
    let t1 = enc_opt_int(a.psf_ndata) + t2;
    lemma_concat_assoc(
        enc_opt_single(a.psf_chi2)
        + enc_opt_int(a.psf_ndata)
        + enc_opt_bool(a.psf_flux_flag)
        + enc_opt_bool(a.psf_flux_flag_edge)
        + enc_opt_bool(a.psf_flux_flag_no_good_pixels)
        + enc_opt_single(a.trail_flux)
        + enc_opt_single(a.trail_flux_err),
        enc_opt_double(a.trail_ra),
        t8,
    );
    lemma_concat_assoc(
        enc_opt_single(a.psf_chi2)
        + enc_opt_int(a.psf_ndata)
        + enc_opt_bool(a.psf_flux_flag)
        + enc_opt_bool(a.psf_flux_flag_edge)
        + enc_opt_bool(a.psf_flux_flag_no_good_pixels)
        + enc_opt_single(a.trail_flux),
        enc_opt_single(a.trail_flux_err),
        t7,
    );
    lemma_concat_assoc(
        enc_opt_single(a.psf_chi2)
        + enc_opt_int(a.psf_ndata)
        + enc_opt_bool(a.psf_flux_flag)
        + enc_opt_bool(a.psf_flux_flag_edge)
        + enc_opt_bool(a.psf_flux_flag_no_good_pixels),
        enc_opt_single(a.trail_flux),
        t6,
    );
    lemma_concat_assoc(
        enc_opt_single(a.psf_chi2)
        + enc_opt_int(a.psf_ndata)
        + enc_opt_bool(a.psf_flux_flag)
        + enc_opt_bool(a.psf_flux_flag_edge),
        enc_opt_bool(a.psf_flux_flag_no_good_pixels),
        t5,
    );
    lemma_concat_assoc(
        enc_opt_single(a.psf_chi2)
        + enc_opt_int(a.psf_ndata)
        + enc_opt_bool(a.psf_flux_flag),
        enc_opt_bool(a.psf_flux_flag_edge),
        t4,
    );
    lemma_concat_assoc(
        enc_opt_single(a.psf_chi2)
        + enc_opt_int(a.psf_ndata),
        enc_opt_bool(a.psf_flux_flag),
        t3,
    );
    lemma_concat_assoc(
        enc_opt_single(a.psf_chi2),
        enc_opt_int(a.psf_ndata),
        t2,
    );
    let i0 = i;
    lemma_read_opt_single(a.psf_chi2, s, i0, t1);
    let i1 = i0 + enc_opt_single(a.psf_chi2).len();
    lemma_read_opt_int(a.psf_ndata, s, i1, t2);
    let i2 = i1 + enc_opt_int(a.psf_ndata).len();
    lemma_read_opt_bool(a.psf_flux_flag, s, i2, t3);
    let i3 = i2 + enc_opt_bool(a.psf_flux_flag).len();
    lemma_read_opt_bool(a.psf_flux_flag_edge, s, i3, t4);
    let i4 = i3 + enc_opt_bool(a.psf_flux_flag_edge).len();
    lemma_read_opt_bool(a.psf_flux_flag_no_good_pixels, s, i4, t5);
    let i5 = i4 + enc_opt_bool(a.psf_flux_flag_no_good_pixels).len();
    lemma_read_opt_single(a.trail_flux, s, i5, t6);
    let i6 = i5 + enc_opt_single(a.trail_flux).len();
    lemma_read_opt_single(a.trail_flux_err, s, i6, t7);
    let i7 = i6 + enc_opt_single(a.trail_flux_err).len();
    lemma_read_opt_double(a.trail_ra, s, i7, t8);
    let i8 = i7 + enc_opt_double(a.trail_ra).len();
    assert(i8 == i + enc_ds_c4(a).len());
}

pub fn read_ds_c4(bytes: &[u8], pos: usize) -> (r: Option<((Option<u32>, Option<i32>, Option<bool>, Option<bool>, Option<bool>, Option<u32>, Option<u32>, Option<u64>), usize)>)
    ensures
        match r {
            Some((v, j)) => dec_ds_c4(bytes@, pos as int) == Some(((v.0, v.1, v.2, v.3, v.4, v.5, v.6, v.7), j as int)),
            None => dec_ds_c4(bytes@, pos as int) is None,
        },
{
    let (f0, p0) = read_opt_single(bytes, pos)?;
    let (f1, p1) = read_opt_int(bytes, p0)?;
    let (f2, p2) = read_opt_bool(bytes, p1)?;
    let (f3, p3) = read_opt_bool(bytes, p2)?;
    let (f4, p4) = read_opt_bool(bytes, p3)?;
    let (f5, p5) = read_opt_single(bytes, p4)?;
    let (f6, p6) = read_opt_single(bytes, p5)?;
    let (f7, p7) = read_opt_double(bytes, p6)?;
    Some(((f0, f1, f2, f3, f4, f5, f6, f7), p7))
}

#[verifier::rlimit(100)]
pub fn write_ds_c4(out: &mut Vec<u8>, a: &DiaSource)
    requires
        encodable_dia_source(a@),
    ensures
        final(out)@ == old(out)@ + enc_ds_c4(a@),
{
    write_opt_single(out, a.psf_chi2);
    assert(out@ =~= old(out)@ + (enc_opt_single(a@.psf_chi2)));
    write_opt_int(out, a.psf_ndata);
    assert(out@ =~= old(out)@ + (enc_opt_single(a@.psf_chi2)
        + enc_opt_int(a@.psf_ndata)));
    write_opt_bool(out, a.psf_flux_flag);
    assert(out@ =~= old(out)@ + (enc_opt_single(a@.psf_chi2)
        + enc_opt_int(a@.psf_ndata)
        + enc_opt_bool(a@.psf_flux_flag)));
    write_opt_bool(out, a.psf_flux_flag_edge);
    assert(out@ =~= old(out)@ + (enc_opt_single(a@.psf_chi2)
        + enc_opt_int(a@.psf_ndata)
        + enc_opt_bool(a@.psf_flux_flag)
        + enc_opt_bool(a@.psf_flux_flag_edge)));
    write_opt_bool(out, a.psf_flux_flag_no_good_pixels);
    assert(out@ =~= old(out)@ + (enc_opt_single(a@.psf_chi2)
        + enc_opt_int(a@.psf_ndata)
        + enc_opt_bool(a@.psf_flux_flag)
        + enc_opt_bool(a@.psf_flux_flag_edge)
        + enc_opt_bool(a@.psf_flux_flag_no_good_pixels)));
    write_opt_single(out, a.trail_flux);
    assert(out@ =~= old(out)@ + (enc_opt_single(a@.psf_chi2)
        + enc_opt_int(a@.psf_ndata)
        + enc_opt_bool(a@.psf_flux_flag)
        + enc_opt_bool(a@.psf_flux_flag_edge)
        + enc_opt_bool(a@.psf_flux_flag_no_good_pixels)
        + enc_opt_single(a@.trail_flux)));
    write_opt_single(out, a.trail_flux_err);
    assert(out@ =~= old(out)@ + (enc_opt_single(a@.psf_chi2)
        + enc_opt_int(a@.psf_ndata)
        + enc_opt_bool(a@.psf_flux_flag)
        + enc_opt_bool(a@.psf_flux_flag_edge)
        + enc_opt_bool(a@.psf_flux_flag_no_good_pixels)
        + enc_opt_single(a@.trail_flux)
        + enc_opt_single(a@.trail_flux_err)));
    write_opt_double(out, a.trail_ra);
    assert(out@ =~= old(out)@ + (enc_opt_single(a@.psf_chi2)
        + enc_opt_int(a@.psf_ndata)
        + enc_opt_bool(a@.psf_flux_flag)
        + enc_opt_bool(a@.psf_flux_flag_edge)
        + enc_opt_bool(a@.psf_flux_flag_no_good_pixels)
        + enc_opt_single(a@.trail_flux)
        + enc_opt_single(a@.trail_flux_err)
        + enc_opt_double(a@.trail_ra)));
}

pub open spec fn enc_ds_c5(a: DiaSourceSpec) -> Seq<u8> {
    enc_opt_single(a.trail_ra_err)
        + enc_opt_double(a.trail_dec)
        + enc_opt_single(a.trail_dec_err)
        + enc_opt_single(a.trail_length)
        + enc_opt_single(a.trail_length_err)
        + enc_opt_single(a.trail_angle)
        + enc_opt_single(a.trail_angle_err)
        + enc_opt_single(a.trail_chi2)
}

pub open spec fn dec_ds_c5(s: Seq<u8>, i: int) -> Option<((Option<u32>, Option<u64>, Option<u32>, Option<u32>, Option<u32>, Option<u32>, Option<u32>, Option<u32>), int)> {
    match dec_opt_single(s, i) {
        None => None,
        Some((f0, p0)) => {
            match dec_opt_double(s, p0) {
                None => None,
                Some((f1, p1)) => {
                    match dec_opt_single(s, p1) {
                        None => None,
                        Some((f2, p2)) => {
                            match dec_opt_single(s, p2) {
                                None => None,
                                Some((f3, p3)) => {
                                    match dec_opt_single(s, p3) {
                                        None => None,
                                        Some((f4, p4)) => {
                                            match dec_opt_single(s, p4) {
                                                None => None,
                                                Some((f5, p5)) => {
                                                    match dec_opt_single(s, p5) {
                                                        None => None,
                                                        Some((f6, p6)) => {
                                                            match dec_opt_single(s, p6) {
                                                                None => None,
                                                                Some((f7, p7)) => {
                                                                    Some(((f0, f1, f2, f3, f4, f5, f6, f7), p7))
                                                                },
                                                            }
                                                        },
                                                    }
                                                },
                                            }
                                        },
                                    }
                                },
                            }
                        },
                    }
                },
            }
        },
    }
}

pub proof fn lemma_dec_ds_c5_range(s: Seq<u8>, i: int)
    ensures
        dec_ds_c5(s, i) matches Some((v, j)) ==> i < j <= s.len(),
{
    lemma_dec_opt_single_range(s, i);
    match dec_opt_single(s, i) {
        None => {},
        Some((f0, p0)) => {
            lemma_dec_opt_double_range(s, p0);
            match dec_opt_double(s, p0) {
                None => {},
                Some((f1, p1)) => {
                    lemma_dec_opt_single_range(s, p1);
                    match dec_opt_single(s, p1) {
                        None => {},
                        Some((f2, p2)) => {
                            lemma_dec_opt_single_range(s, p2);
                            match dec_opt_single(s, p2) {
                                None => {},
                                Some((f3, p3)) => {
                                    lemma_dec_opt_single_range(s, p3);
                                    match dec_opt_single(s, p3) {
                                        None => {},
                                        Some((f4, p4)) => {
                                            lemma_dec_opt_single_range(s, p4);
                                            match dec_opt_single(s, p4) {
                                                None => {},
                                                Some((f5, p5)) => {
                                                    lemma_dec_opt_single_range(s, p5);
                                                    match dec_opt_single(s, p5) {
                                                        None => {},
                                                        Some((f6, p6)) => {
                                                            lemma_dec_opt_single_range(s, p6);
                                                            match dec_opt_single(s, p6) {
                                                                None => {},
                                                                Some((f7, p7)) => {
                                                                },
                                                            }
                                                        },
                                                    }
                                                },
                                            }
                                        },
                                    }
                                },
                            }
                        },
                    }
                },
            }
        },
    }
}

pub proof fn lemma_read_ds_c5(a: DiaSourceSpec, s: Seq<u8>, i: int, rest: Seq<u8>)
    requires
        0 <= i <= s.len(),
        encodable_dia_source(a),
        s.skip(i) == enc_ds_c5(a) + rest,
    ensures
        i + enc_ds_c5(a).len() <= s.len(),
        dec_ds_c5(s, i) == Some(((a.trail_ra_err, a.trail_dec, a.trail_dec_err, a.trail_length, a.trail_length_err, a.trail_angle, a.trail_angle_err, a.trail_chi2), i + enc_ds_c5(a).len())),
        s.skip(i + enc_ds_c5(a).len()) == rest,
{
    let t8 = rest;
    let t7 = enc_opt_single(a.trail_chi2) + t8;
    let t6 = enc_opt_single(a.trail_angle_err) + t7;
    let t5 = enc_opt_single(a.trail_angle) + t6;
    let t4 = enc_opt_single(a.trail_length_err) + t5;
    let t3 = enc_opt_single(a.trail_length) + t4;
    let t2 = enc_opt_single(a.trail_dec_err) + t3;
    let t1 = enc_opt_double(a.trail_dec) + t2;
    lemma_concat_assoc(
        enc_opt_single(a.trail_ra_err)
        + enc_opt_double(a.trail_dec)
        + enc_opt_single(a.trail_dec_err)
        + enc_opt_single(a.trail_length)
        + enc_opt_single(a.trail_length_err)
        + enc_opt_single(a.trail_angle)
        + enc_opt_single(a.trail_angle_err),
        enc_opt_single(a.trail_chi2),
        t8,
    );
    lemma_concat_assoc(
        enc_opt_single(a.trail_ra_err)
        + enc_opt_double(a.trail_dec)
        + enc_opt_single(a.trail_dec_err)
        + enc_opt_single(a.trail_length)
        + enc_opt_single(a.trail_length_err)
        + enc_opt_single(a.trail_angle),
        enc_opt_single(a.trail_angle_err),
        t7,
    );
    lemma_concat_assoc(
        enc_opt_single(a.trail_ra_err)
        + enc_opt_double(a.trail_dec)
        + enc_opt_single(a.trail_dec_err)
        + enc_opt_single(a.trail_length)
        + enc_opt_single(a.trail_length_err),
        enc_opt_single(a.trail_angle),
        t6,
    );
    lemma_concat_assoc(
        enc_opt_single(a.trail_ra_err)
        + enc_opt_double(a.trail_dec)
        + enc_opt_single(a.trail_dec_err)
        + enc_opt_single(a.trail_length),
        enc_opt_single(a.trail_length_err),
        t5,
    );
    lemma_concat_assoc(
        enc_opt_single(a.trail_ra_err)
        + enc_opt_double(a.trail_dec)
        + enc_opt_single(a.trail_dec_err),
        enc_opt_single(a.trail_length),
        t4,
    );
    lemma_concat_assoc(
        enc_opt_single(a.trail_ra_err)
        + enc_opt_double(a.trail_dec),
        enc_opt_single(a.trail_dec_err),
        t3,
    );
    lemma_concat_assoc(
        enc_opt_single(a.trail_ra_err),
        enc_opt_double(a.trail_dec),
        t2,
    );
    let i0 = i;
    lemma_read_opt_single(a.trail_ra_err, s, i0, t1);
    let i1 = i0 + enc_opt_single(a.trail_ra_err).len();
    lemma_read_opt_double(a.trail_dec, s, i1, t2);
    let i2 = i1 + enc_opt_double(a.trail_dec).len();
    lemma_read_opt_single(a.trail_dec_err, s, i2, t3);
    let i3 = i2 + enc_opt_single(a.trail_dec_err).len();
    lemma_read_opt_single(a.trail_length, s, i3, t4);
    let i4 = i3 + enc_opt_single(a.trail_length).len();
    lemma_read_opt_single(a.trail_length_err, s, i4, t5);
    let i5 = i4 + enc_opt_single(a.trail_length_err).len();
    lemma_read_opt_single(a.trail_angle, s, i5, t6);
    let i6 = i5 + enc_opt_single(a.trail_angle).len();
    lemma_read_opt_single(a.trail_angle_err, s, i6, t7);
    let i7 = i6 + enc_opt_single(a.trail_angle_err).len();
    lemma_read_opt_single(a.trail_chi2, s, i7, t8);
    let i8 = i7 + enc_opt_single(a.trail_chi2).len();
    assert(i8 == i + enc_ds_c5(a).len());
}

pub fn read_ds_c5(bytes: &[u8], pos: usize) -> (r: Option<((Option<u32>, Option<u64>, Option<u32>, Option<u32>, Option<u32>, Option<u32>, Option<u32>, Option<u32>), usize)>)
    ensures
        match r {
            Some((v, j)) => dec_ds_c5(bytes@, pos as int) == Some(((v.0, v.1, v.2, v.3, v.4, v.5, v.6, v.7), j as int)),
            None => dec_ds_c5(bytes@, pos as int) is None,
        },
{
    let (f0, p0) = read_opt_single(bytes, pos)?;
    let (f1, p1) = read_opt_double(bytes, p0)?;
    let (f2, p2) = read_opt_single(bytes, p1)?;
    let (f3, p3) = read_opt_single(bytes, p2)?;
    let (f4, p4) = read_opt_single(bytes, p3)?;
    let (f5, p5) = read_opt_single(bytes, p4)?;
    let (f6, p6) = read_opt_single(bytes, p5)?;
    let (f7, p7) = read_opt_single(bytes, p6)?;
    Some(((f0, f1, f2, f3, f4, f5, f6, f7), p7))
}

#[verifier::rlimit(100)]
pub fn write_ds_c5(out: &mut Vec<u8>, a: &DiaSource)
    requires
        encodable_dia_source(a@),
    ensures
        final(out)@ == old(out)@ + enc_ds_c5(a@),
{
    write_opt_single(out, a.trail_ra_err);
    assert(out@ =~= old(out)@ + (enc_opt_single(a@.trail_ra_err)));
    write_opt_double(out, a.trail_dec);
    assert(out@ =~= old(out)@ + (enc_opt_single(a@.trail_ra_err)
        + enc_opt_double(a@.trail_dec)));
    write_opt_single(out, a.trail_dec_err);
    assert(out@ =~= old(out)@ + (enc_opt_single(a@.trail_ra_err)
        + enc_opt_double(a@.trail_dec)
        + enc_opt_single(a@.trail_dec_err)));
    write_opt_single(out, a.trail_length);
    assert(out@ =~= old(out)@ + (enc_opt_single(a@.trail_ra_err)
        + enc_opt_double(a@.trail_dec)
        + enc_opt_single(a@.trail_dec_err)
        + enc_opt_single(a@.trail_length)));
    write_opt_single(out, a.trail_length_err);
    assert(out@ =~= old(out)@ + (enc_opt_single(a@.trail_ra_err)
        + enc_opt_double(a@.trail_dec)
        + enc_opt_single(a@.trail_dec_err)
        + enc_opt_single(a@.trail_length)
        + enc_opt_single(a@.trail_length_err)));
    write_opt_single(out, a.trail_angle);
    assert(out@ =~= old(out)@ + (enc_opt_single(a@.trail_ra_err)
        + enc_opt_double(a@.trail_dec)
        + enc_opt_single(a@.trail_dec_err)
        + enc_opt_single(a@.trail_length)
        + enc_opt_single(a@.trail_length_err)
        + enc_opt_single(a@.trail_angle)));
    write_opt_single(out, a.trail_angle_err);
    assert(out@ =~= old(out)@ + (enc_opt_single(a@.trail_ra_err)
        + enc_opt_double(a@.trail_dec)
        + enc_opt_single(a@.trail_dec_err)
        + enc_opt_single(a@.trail_length)
        + enc_opt_single(a@.trail_length_err)
        + enc_opt_single(a@.trail_angle)
        + enc_opt_single(a@.trail_angle_err)));
    write_opt_single(out, a.trail_chi2);
    assert(out@ =~= old(out)@ + (enc_opt_single(a@.trail_ra_err)
        + enc_opt_double(a@.trail_dec)
        + enc_opt_single(a@.trail_dec_err)
        + enc_opt_single(a@.trail_length)
        + enc_opt_single(a@.trail_length_err)
        + enc_opt_single(a@.trail_angle)
        + enc_opt_single(a@.trail_angle_err)
        + enc_opt_single(a@.trail_chi2)));
}

pub open spec fn enc_ds_c6(a: DiaSourceSpec) -> Seq<u8> {
    enc_opt_int(a.trail_ndata)
        + enc_opt_bool(a.trail_flag_edge)
        + enc_opt_bool(a.forced_psf_flux_flag)
        + enc_opt_bool(a.forced_psf_flux_flag_edge)
        + enc_opt_bool(a.forced_psf_flux_flag_no_good_pixels)
        + enc_opt_single(a.snap_diff_flux)
        + enc_opt_single(a.snap_diff_flux_err)
        + enc_opt_single(a.fp_bkgd)
}

pub open spec fn dec_ds_c6(s: Seq<u8>, i: int) -> Option<((Option<i32>, Option<bool>, Option<bool>, Option<bool>, Option<bool>, Option<u32>, Option<u32>, Option<u32>), int)> {
    match dec_opt_int(s, i) {
        None => None,
        Some((f0, p0)) => {
            match dec_opt_bool(s, p0) {
                None => None,
                Some((f1, p1)) => {
                    match dec_opt_bool(s, p1) {
                        None => None,
                        Some((f2, p2)) => {
                            match dec_opt_bool(s, p2) {
                                None => None,
                                Some((f3, p3)) => {
                                    match dec_opt_bool(s, p3) {
                                        None => None,
                                        Some((f4, p4)) => {
                                            match dec_opt_single(s, p4) {
                                                None => None,
                                                Some((f5, p5)) => {
                                                    match dec_opt_single(s, p5) {
                                                        None => None,
                                                        Some((f6, p6)) => {
                                                            match dec_opt_single(s, p6) {
                                                                None => None,
                                                                Some((f7, p7)) => {
                                                                    Some(((f0, f1, f2, f3, f4, f5, f6, f7), p7))
                                                                },
                                                            }
                                                        },
                                                    }
                                                },
                                            }
                                        },
                                    }
                                },
                            }
                        },
                    }
                },
            }
        },
    }
}

pub proof fn lemma_dec_ds_c6_range(s: Seq<u8>, i: int)
    ensures
        dec_ds_c6(s, i) matches Some((v, j)) ==> i < j <= s.len(),
{
    lemma_dec_opt_int_range(s, i);
    match dec_opt_int(s, i) {
        None => {},
        Some((f0, p0)) => {
            lemma_dec_opt_bool_range(s, p0);
            match dec_opt_bool(s, p0) {
                None => {},
                Some((f1, p1)) => {
                    lemma_dec_opt_bool_range(s, p1);
                    match dec_opt_bool(s, p1) {
                        None => {},
                        Some((f2, p2)) => {
                            lemma_dec_opt_bool_range(s, p2);
                            match dec_opt_bool(s, p2) {
                                None => {},
                                Some((f3, p3)) => {
                                    lemma_dec_opt_bool_range(s, p3);
                                    match dec_opt_bool(s, p3) {
                                        None => {},
                                        Some((f4, p4)) => {
                                            lemma_dec_opt_single_range(s, p4);
                                            match dec_opt_single(s, p4) {
                                                None => {},
                                                Some((f5, p5)) => {
                                                    lemma_dec_opt_single_range(s, p5);
                                                    match dec_opt_single(s, p5) {
                                                        None => {},
                                                        Some((f6, p6)) => {
                                                            lemma_dec_opt_single_range(s, p6);
                                                            match dec_opt_single(s, p6) {
                                                                None => {},
                                                                Some((f7, p7)) => {
                                                                },
                                                            }
                                                        },
                                                    }
                                                },
                                            }
                                        },
                                    }
                                },
                            }
                        },
                    }
                },
            }
        },
    }
}

pub proof fn lemma_read_ds_c6(a: DiaSourceSpec, s: Seq<u8>, i: int, rest: Seq<u8>)
    requires
        0 <= i <= s.len(),
        encodable_dia_source(a),
        s.skip(i) == enc_ds_c6(a) + rest,
    ensures
        i + enc_ds_c6(a).len() <= s.len(),
        dec_ds_c6(s, i) == Some(((a.trail_ndata, a.trail_flag_edge, a.forced_psf_flux_flag, a.forced_psf_flux_flag_edge, a.forced_psf_flux_flag_no_good_pixels, a.snap_diff_flux, a.snap_diff_flux_err, a.fp_bkgd), i + enc_ds_c6(a).len())),
        s.skip(i + enc_ds_c6(a).len()) == rest,
{
    let t8 = rest;
    let t7 = enc_opt_single(a.fp_bkgd) + t8;
    let t6 = enc_opt_single(a.snap_diff_flux_err) + t7;
    let t5 = enc_opt_single(a.snap_diff_flux) + t6;
    let t4 = enc_opt_bool(a.forced_psf_flux_flag_no_good_pixels) + t5;
    let t3 = enc_opt_bool(a.forced_psf_flux_flag_edge) + t4;
    let t2 = enc_opt_bool(a.forced_psf_flux_flag) + t3;
    let t1 = enc_opt_bool(a.trail_flag_edge) + t2;
    lemma_concat_assoc(
        enc_opt_int(a.trail_ndata)
        + enc_opt_bool(a.trail_flag_edge)
        + enc_opt_bool(a.forced_psf_flux_flag)
        + enc_opt_bool(a.forced_psf_flux_flag_edge)
        + enc_opt_bool(a.forced_psf_flux_flag_no_good_pixels)
        + enc_opt_single(a.snap_diff_flux)
        + enc_opt_single(a.snap_diff_flux_err),
        enc_opt_single(a.fp_bkgd),
        t8,
    );
    lemma_concat_assoc(
        enc_opt_int(a.trail_ndata)
        + enc_opt_bool(a.trail_flag_edge)
        + enc_opt_bool(a.forced_psf_flux_flag)
        + enc_opt_bool(a.forced_psf_flux_flag_edge)
        + enc_opt_bool(a.forced_psf_flux_flag_no_good_pixels)
        + enc_opt_single(a.snap_diff_flux),
        enc_opt_single(a.snap_diff_flux_err),
        t7,
    );
    lemma_concat_assoc(
        enc_opt_int(a.trail_ndata)
        + enc_opt_bool(a.trail_flag_edge)
        + enc_opt_bool(a.forced_psf_flux_flag)
        + enc_opt_bool(a.forced_psf_flux_flag_edge)
        + enc_opt_bool(a.forced_psf_flux_flag_no_good_pixels),
        enc_opt_single(a.snap_diff_flux),
        t6,
    );
    lemma_concat_assoc(
        enc_opt_int(a.trail_ndata)
        + enc_opt_bool(a.trail_flag_edge)
        + enc_opt_bool(a.forced_psf_flux_flag)
        + enc_opt_bool(a.forced_psf_flux_flag_edge),
        enc_opt_bool(a.forced_psf_flux_flag_no_good_pixels),
        t5,
    );
    lemma_concat_assoc(
        enc_opt_int(a.trail_ndata)
        + enc_opt_bool(a.trail_flag_edge)
        + enc_opt_bool(a.forced_psf_flux_flag),
        enc_opt_bool(a.forced_psf_flux_flag_edge),
        t4,
    );
    lemma_concat_assoc(
        enc_opt_int(a.trail_ndata)
        + enc_opt_bool(a.trail_flag_edge),
        enc_opt_bool(a.forced_psf_flux_flag),
        t3,
    );
    lemma_concat_assoc(
        enc_opt_int(a.trail_ndata),
        enc_opt_bool(a.trail_flag_edge),
        t2,
    );
    let i0 = i;
    lemma_read_opt_int(a.trail_ndata, s, i0, t1);
    let i1 = i0 + enc_opt_int(a.trail_ndata).len();
    lemma_read_opt_bool(a.trail_flag_edge, s, i1, t2);
    let i2 = i1 + enc_opt_bool(a.trail_flag_edge).len();
    lemma_read_opt_bool(a.forced_psf_flux_flag, s, i2, t3);
    let i3 = i2 + enc_opt_bool(a.forced_psf_flux_flag).len();
    lemma_read_opt_bool(a.forced_psf_flux_flag_edge, s, i3, t4);
    let i4 = i3 + enc_opt_bool(a.forced_psf_flux_flag_edge).len();
    lemma_read_opt_bool(a.forced_psf_flux_flag_no_good_pixels, s, i4, t5);
    let i5 = i4 + enc_opt_bool(a.forced_psf_flux_flag_no_good_pixels).len();
    lemma_read_opt_single(a.snap_diff_flux, s, i5, t6);
    let i6 = i5 + enc_opt_single(a.snap_diff_flux).len();
    lemma_read_opt_single(a.snap_diff_flux_err, s, i6, t7);
    let i7 = i6 + enc_opt_single(a.snap_diff_flux_err).len();
    lemma_read_opt_single(a.fp_bkgd, s, i7, t8);
    let i8 = i7 + enc_opt_single(a.fp_bkgd).len();
    assert(i8 == i + enc_ds_c6(a).len());
}

pub fn read_ds_c6(bytes: &[u8], pos: usize) -> (r: Option<((Option<i32>, Option<bool>, Option<bool>, Option<bool>, Option<bool>, Option<u32>, Option<u32>, Option<u32>), usize)>)
    ensures
        match r {
            Some((v, j)) => dec_ds_c6(bytes@, pos as int) == Some(((v.0, v.1, v.2, v.3, v.4, v.5, v.6, v.7), j as int)),
            None => dec_ds_c6(bytes@, pos as int) is None,
        },
{
    let (f0, p0) = read_opt_int(bytes, pos)?;
    let (f1, p1) = read_opt_bool(bytes, p0)?;
    let (f2, p2) = read_opt_bool(bytes, p1)?;
    let (f3, p3) = read_opt_bool(bytes, p2)?;
    let (f4, p4) = read_opt_bool(bytes, p3)?;
    let (f5, p5) = read_opt_single(bytes, p4)?;
    let (f6, p6) = read_opt_single(bytes, p5)?;
    let (f7, p7) = read_opt_single(bytes, p6)?;
    Some(((f0, f1, f2, f3, f4, f5, f6, f7), p7))
}

#[verifier::rlimit(100)]
pub fn write_ds_c6(out: &mut Vec<u8>, a: &DiaSource)
    requires
        encodable_dia_source(a@),
    ensures
        final(out)@ == old(out)@ + enc_ds_c6(a@),
{
    write_opt_int(out, a.trail_ndata);
    assert(out@ =~= old(out)@ + (enc_opt_int(a@.trail_ndata)));
    write_opt_bool(out, a.trail_flag_edge);
    assert(out@ =~= old(out)@ + (enc_opt_int(a@.trail_ndata)
        + enc_opt_bool(a@.trail_flag_edge)));
    write_opt_bool(out, a.forced_psf_flux_flag);
    assert(out@ =~= old(out)@ + (enc_opt_int(a@.trail_ndata)
        + enc_opt_bool(a@.trail_flag_edge)
        + enc_opt_bool(a@.forced_psf_flux_flag)));
    write_opt_bool(out, a.forced_psf_flux_flag_edge);
    assert(out@ =~= old(out)@ + (enc_opt_int(a@.trail_ndata)
        + enc_opt_bool(a@.trail_flag_edge)
        + enc_opt_bool(a@.forced_psf_flux_flag)
        + enc_opt_bool(a@.forced_psf_flux_flag_edge)));
    write_opt_bool(out, a.forced_psf_flux_flag_no_good_pixels);
    assert(out@ =~= old(out)@ + (enc_opt_int(a@.trail_ndata)
        + enc_opt_bool(a@.trail_flag_edge)
        + enc_opt_bool(a@.forced_psf_flux_flag)
        + enc_opt_bool(a@.forced_psf_flux_flag_edge)
        + enc_opt_bool(a@.forced_psf_flux_flag_no_good_pixels)));
    write_opt_single(out, a.snap_diff_flux);
    assert(out@ =~= old(out)@ + (enc_opt_int(a@.trail_ndata)
        + enc_opt_bool(a@.trail_flag_edge)
        + enc_opt_bool(a@.forced_psf_flux_flag)
        + enc_opt_bool(a@.forced_psf_flux_flag_edge)
        + enc_opt_bool(a@.forced_psf_flux_flag_no_good_pixels)
        + enc_opt_single(a@.snap_diff_flux)));
    write_opt_single(out, a.snap_diff_flux_err);
    assert(out@ =~= old(out)@ + (enc_opt_int(a@.trail_ndata)
        + enc_opt_bool(a@.trail_flag_edge)
        + enc_opt_bool(a@.forced_psf_flux_flag)
        + enc_opt_bool(a@.forced_psf_flux_flag_edge)
        + enc_opt_bool(a@.forced_psf_flux_flag_no_good_pixels)
        + enc_opt_single(a@.snap_diff_flux)
        + enc_opt_single(a@.snap_diff_flux_err)));
    write_opt_single(out, a.fp_bkgd);
    assert(out@ =~= old(out)@ + (enc_opt_int(a@.trail_ndata)
        + enc_opt_bool(a@.trail_flag_edge)
        + enc_opt_bool(a@.forced_psf_flux_flag)
        + enc_opt_bool(a@.forced_psf_flux_flag_edge)
        + enc_opt_bool(a@.forced_psf_flux_flag_no_good_pixels)
        + enc_opt_single(a@.snap_diff_flux)
        + enc_opt_single(a@.snap_diff_flux_err)
        + enc_opt_single(a@.fp_bkgd)));
}

pub open spec fn enc_ds_c7(a: DiaSourceSpec) -> Seq<u8> {
    enc_opt_single(a.fp_bkgd_err)
        + enc_opt_bool(a.shape_flag)
        + enc_opt_bool(a.shape_flag_no_pixels)
        + enc_opt_bool(a.shape_flag_not_contained)
        + enc_opt_bool(a.shape_flag_parent_source)
        + enc_opt_single(a.extendedness)
        + enc_opt_single(a.reliability)
        + enc_opt_string(a.band)
}

pub open spec fn dec_ds_c7(s: Seq<u8>, i: int) -> Option<((Option<u32>, Option<bool>, Option<bool>, Option<bool>, Option<bool>, Option<u32>, Option<u32>, Option<Seq<char>>), int)> {
    match dec_opt_single(s, i) {
        None => None,
        Some((f0, p0)) => {
            match dec_opt_bool(s, p0) {
                None => None,
                Some((f1, p1)) => {
                    match dec_opt_bool(s, p1) {
                        None => None,
                        Some((f2, p2)) => {
                            match dec_opt_bool(s, p2) {
                                None => None,
                                Some((f3, p3)) => {
                                    match dec_opt_bool(s, p3) {
                                        None => None,
                                        Some((f4, p4)) => {
                                            match dec_opt_single(s, p4) {
                                                None => None,
                                                Some((f5, p5)) => {
                                                    match dec_opt_single(s, p5) {
                                                        None => None,
                                                        Some((f6, p6)) => {
                                                            match dec_opt_string(s, p6) {
                                                                None => None,
                                                                Some((f7, p7)) => {
                                                                    Some(((f0, f1, f2, f3, f4, f5, f6, f7), p7))
                                                                },
                                                            }
                                                        },
                                                    }
                                                },
                                            }
                                        },
                                    }
                                },
                            }
                        },
                    }
                },
            }
        },
    }
}

pub proof fn lemma_dec_ds_c7_range(s: Seq<u8>, i: int)
    ensures
        dec_ds_c7(s, i) matches Some((v, j)) ==> i < j <= s.len(),
{
    lemma_dec_opt_single_range(s, i);
    match dec_opt_single(s, i) {
        None => {},
        Some((f0, p0)) => {
            lemma_dec_opt_bool_range(s, p0);
            match dec_opt_bool(s, p0) {
                None => {},
                Some((f1, p1)) => {
                    lemma_dec_opt_bool_range(s, p1);
                    match dec_opt_bool(s, p1) {
                        None => {},
                        Some((f2, p2)) => {
                            lemma_dec_opt_bool_range(s, p2);
                            match dec_opt_bool(s, p2) {
                                None => {},
                                Some((f3, p3)) => {
                                    lemma_dec_opt_bool_range(s, p3);
                                    match dec_opt_bool(s, p3) {
                                        None => {},
                                        Some((f4, p4)) => {
                                            lemma_dec_opt_single_range(s, p4);
                                            match dec_opt_single(s, p4) {
                                                None => {},
                                                Some((f5, p5)) => {
                                                    lemma_dec_opt_single_range(s, p5);
                                                    match dec_opt_single(s, p5) {
                                                        None => {},
                                                        Some((f6, p6)) => {
                                                            lemma_dec_opt_string_range(s, p6);
                                                            match dec_opt_string(s, p6) {
                                                                None => {},
                                                                Some((f7, p7)) => {
                                                                },
                                                            }
                                                        },
                                                    }
                                                },
                                            }
                                        },
                                    }
                                },
                            }
                        },
                    }
                },
            }
        },
    }
}

pub proof fn lemma_read_ds_c7(a: DiaSourceSpec, s: Seq<u8>, i: int, rest: Seq<u8>)
    requires
        0 <= i <= s.len(),
        encodable_dia_source(a),
        s.skip(i) == enc_ds_c7(a) + rest,
    ensures
        i + enc_ds_c7(a).len() <= s.len(),
        dec_ds_c7(s, i) == Some(((a.fp_bkgd_err, a.shape_flag, a.shape_flag_no_pixels, a.shape_flag_not_contained, a.shape_flag_parent_source, a.extendedness, a.reliability, a.band), i + enc_ds_c7(a).len())),
        s.skip(i + enc_ds_c7(a).len()) == rest,
{
    let t8 = rest;
    let t7 = enc_opt_string(a.band) + t8;
    let t6 = enc_opt_single(a.reliability) + t7;
    let t5 = enc_opt_single(a.extendedness) + t6;
    let t4 = enc_opt_bool(a.shape_flag_parent_source) + t5;
    let t3 = enc_opt_bool(a.shape_flag_not_contained) + t4;
    let t2 = enc_opt_bool(a.shape_flag_no_pixels) + t3;
    let t1 = enc_opt_bool(a.shape_flag) + t2;
    lemma_concat_assoc(
        enc_opt_single(a.fp_bkgd_err)
        + enc_opt_bool(a.shape_flag)
        + enc_opt_bool(a.shape_flag_no_pixels)
        + enc_opt_bool(a.shape_flag_not_contained)
        + enc_opt_bool(a.shape_flag_parent_source)
        + enc_opt_single(a.extendedness)
        + enc_opt_single(a.reliability),
        enc_opt_string(a.band),
        t8,
    );
    lemma_concat_assoc(
        enc_opt_single(a.fp_bkgd_err)
        + enc_opt_bool(a.shape_flag)
        + enc_opt_bool(a.shape_flag_no_pixels)
        + enc_opt_bool(a.shape_flag_not_contained)
        + enc_opt_bool(a.shape_flag_parent_source)
        + enc_opt_single(a.extendedness),
        enc_opt_single(a.reliability),
        t7,
    );
    lemma_concat_assoc(
        enc_opt_single(a.fp_bkgd_err)
        + enc_opt_bool(a.shape_flag)
        + enc_opt_bool(a.shape_flag_no_pixels)
        + enc_opt_bool(a.shape_flag_not_contained)
        + enc_opt_bool(a.shape_flag_parent_source),
        enc_opt_single(a.extendedness),
        t6,
    );
    lemma_concat_assoc(
        enc_opt_single(a.fp_bkgd_err)
        + enc_opt_bool(a.shape_flag)
        + enc_opt_bool(a.shape_flag_no_pixels)
        + enc_opt_bool(a.shape_flag_not_contained),
        enc_opt_bool(a.shape_flag_parent_source),
        t5,
    );
    lemma_concat_assoc(
        enc_opt_single(a.fp_bkgd_err)
        + enc_opt_bool(a.shape_flag)
        + enc_opt_bool(a.shape_flag_no_pixels),
        enc_opt_bool(a.shape_flag_not_contained),
        t4,
    );
    lemma_concat_assoc(
        enc_opt_single(a.fp_bkgd_err)
        + enc_opt_bool(a.shape_flag),
        enc_opt_bool(a.shape_flag_no_pixels),
        t3,
    );
    lemma_concat_assoc(
        enc_opt_single(a.fp_bkgd_err),
        enc_opt_bool(a.shape_flag),
        t2,
    );
    let i0 = i;
    lemma_read_opt_single(a.fp_bkgd_err, s, i0, t1);
    let i1 = i0 + enc_opt_single(a.fp_bkgd_err).len();
    lemma_read_opt_bool(a.shape_flag, s, i1, t2);
    let i2 = i1 + enc_opt_bool(a.shape_flag).len();
    lemma_read_opt_bool(a.shape_flag_no_pixels, s, i2, t3);
    let i3 = i2 + enc_opt_bool(a.shape_flag_no_pixels).len();
    lemma_read_opt_bool(a.shape_flag_not_contained, s, i3, t4);
    let i4 = i3 + enc_opt_bool(a.shape_flag_not_contained).len();
    lemma_read_opt_bool(a.shape_flag_parent_source, s, i4, t5);
    let i5 = i4 + enc_opt_bool(a.shape_flag_parent_source).len();
    lemma_read_opt_single(a.extendedness, s, i5, t6);
    let i6 = i5 + enc_opt_single(a.extendedness).len();
    lemma_read_opt_single(a.reliability, s, i6, t7);
    let i7 = i6 + enc_opt_single(a.reliability).len();
    lemma_read_opt_string(a.band, s, i7, t8);
    let i8 = i7 + enc_opt_string(a.band).len();
    assert(i8 == i + enc_ds_c7(a).len());
}

pub fn read_ds_c7(bytes: &[u8], pos: usize) -> (r: Option<((Option<u32>, Option<bool>, Option<bool>, Option<bool>, Option<bool>, Option<u32>, Option<u32>, Option<String>), usize)>)
    ensures
        match r {
            Some((v, j)) => dec_ds_c7(bytes@, pos as int) == Some(((v.0, v.1, v.2, v.3, v.4, v.5, v.6, view_opt_string(v.7)), j as int)),
            None => dec_ds_c7(bytes@, pos as int) is None,
        },
{
    let (f0, p0) = read_opt_single(bytes, pos)?;
    let (f1, p1) = read_opt_bool(bytes, p0)?;
    let (f2, p2) = read_opt_bool(bytes, p1)?;
    let (f3, p3) = read_opt_bool(bytes, p2)?;
    let (f4, p4) = read_opt_bool(bytes, p3)?;
    let (f5, p5) = read_opt_single(bytes, p4)?;
    let (f6, p6) = read_opt_single(bytes, p5)?;
    let (f7, p7) = read_opt_string(bytes, p6)?;
    Some(((f0, f1, f2, f3, f4, f5, f6, f7), p7))
}

#[verifier::rlimit(100)]
pub fn write_ds_c7(out: &mut Vec<u8>, a: &DiaSource)
    requires
        encodable_dia_source(a@),
    ensures
        final(out)@ == old(out)@ + enc_ds_c7(a@),
{
    write_opt_single(out, a.fp_bkgd_err);
    assert(out@ =~= old(out)@ + (enc_opt_single(a@.fp_bkgd_err)));
    write_opt_bool(out, a.shape_flag);
    assert(out@ =~= old(out)@ + (enc_opt_single(a@.fp_bkgd_err)
        + enc_opt_bool(a@.shape_flag)));
    write_opt_bool(out, a.shape_flag_no_pixels);
    assert(out@ =~= old(out)@ + (enc_opt_single(a@.fp_bkgd_err)
        + enc_opt_bool(a@.shape_flag)
        + enc_opt_bool(a@.shape_flag_no_pixels)));
    write_opt_bool(out, a.shape_flag_not_contained);
    assert(out@ =~= old(out)@ + (enc_opt_single(a@.fp_bkgd_err)
        + enc_opt_bool(a@.shape_flag)
        + enc_opt_bool(a@.shape_flag_no_pixels)
        + enc_opt_bool(a@.shape_flag_not_contained)));
    write_opt_bool(out, a.shape_flag_parent_source);
    assert(out@ =~= old(out)@ + (enc_opt_single(a@.fp_bkgd_err)
        + enc_opt_bool(a@.shape_flag)
        + enc_opt_bool(a@.shape_flag_no_pixels)
        + enc_opt_bool(a@.shape_flag_not_contained)
        + enc_opt_bool(a@.shape_flag_parent_source)));
    write_opt_single(out, a.extendedness);
    assert(out@ =~= old(out)@ + (enc_opt_single(a@.fp_bkgd_err)
        + enc_opt_bool(a@.shape_flag)
        + enc_opt_bool(a@.shape_flag_no_pixels)
        + enc_opt_bool(a@.shape_flag_not_contained)
        + enc_opt_bool(a@.shape_flag_parent_source)
        + enc_opt_single(a@.extendedness)));
    write_opt_single(out, a.reliability);
    assert(out@ =~= old(out)@ + (enc_opt_single(a@.fp_bkgd_err)
        + enc_opt_bool(a@.shape_flag)
        + enc_opt_bool(a@.shape_flag_no_pixels)
        + enc_opt_bool(a@.shape_flag_not_contained)
        + enc_opt_bool(a@.shape_flag_parent_source)
        + enc_opt_single(a@.extendedness)
        + enc_opt_single(a@.reliability)));
    write_opt_string(out, &a.band);
    assert(out@ =~= old(out)@ + (enc_opt_single(a@.fp_bkgd_err)
        + enc_opt_bool(a@.shape_flag)
        + enc_opt_bool(a@.shape_flag_no_pixels)
        + enc_opt_bool(a@.shape_flag_not_contained)
        + enc_opt_bool(a@.shape_flag_parent_source)
        + enc_opt_single(a@.extendedness)
        + enc_opt_single(a@.reliability)
        + enc_opt_string(a@.band)));
}

pub open spec fn enc_ds_c8(a: DiaSourceSpec) -> Seq<u8> {
    enc_opt_bool(a.pixel_flags)
        + enc_opt_bool(a.pixel_flags_bad)
        + enc_opt_bool(a.pixel_flags_cr)
        + enc_opt_bool(a.pixel_flags_cr_center)
        + enc_opt_bool(a.pixel_flags_edge)
        + enc_opt_bool(a.pixel_flags_interpolated)
        + enc_opt_bool(a.pixel_flags_interpolated_center)
        + enc_opt_bool(a.pixel_flags_offimage)
}

pub open spec fn dec_ds_c8(s: Seq<u8>, i: int) -> Option<((Option<bool>, Option<bool>, Option<bool>, Option<bool>, Option<bool>, Option<bool>, Option<bool>, Option<bool>), int)> {
    match dec_opt_bool(s, i) {
        None => None,
        Some((f0, p0)) => {
            match dec_opt_bool(s, p0) {
                None => None,
                Some((f1, p1)) => {
                    match dec_opt_bool(s, p1) {
                        None => None,
                        Some((f2, p2)) => {
                            match dec_opt_bool(s, p2) {
                                None => None,
                                Some((f3, p3)) => {
                                    match dec_opt_bool(s, p3) {
                                        None => None,
                                        Some((f4, p4)) => {
                                            match dec_opt_bool(s, p4) {
                                                None => None,
                                                Some((f5, p5)) => {
                                                    match dec_opt_bool(s, p5) {
                                                        None => None,
                                                        Some((f6, p6)) => {
                                                            match dec_opt_bool(s, p6) {
                                                                None => None,
                                                                Some((f7, p7)) => {
                                                                    Some(((f0, f1, f2, f3, f4, f5, f6, f7), p7))
                                                                },
                                                            }
                                                        },
                                                    }
                                                },
                                            }
                                        },
                                    }
                                },
                            }
                        },
                    }
                },
            }
        },
    }
}

pub proof fn lemma_dec_ds_c8_range(s: Seq<u8>, i: int)
    ensures
        dec_ds_c8(s, i) matches Some((v, j)) ==> i < j <= s.len(),
{
    lemma_dec_opt_bool_range(s, i);
    match dec_opt_bool(s, i) {
        None => {},
        Some((f0, p0)) => {
            lemma_dec_opt_bool_range(s, p0);
            match dec_opt_bool(s, p0) {
                None => {},
                Some((f1, p1)) => {
                    lemma_dec_opt_bool_range(s, p1);
                    match dec_opt_bool(s, p1) {
                        None => {},
                        Some((f2, p2)) => {
                            lemma_dec_opt_bool_range(s, p2);
                            match dec_opt_bool(s, p2) {
                                None => {},
                                Some((f3, p3)) => {
                                    lemma_dec_opt_bool_range(s, p3);
                                    match dec_opt_bool(s, p3) {
                                        None => {},
                                        Some((f4, p4)) => {
                                            lemma_dec_opt_bool_range(s, p4);
                                            match dec_opt_bool(s, p4) {
                                                None => {},
                                                Some((f5, p5)) => {
                                                    lemma_dec_opt_bool_range(s, p5);
                                                    match dec_opt_bool(s, p5) {
                                                        None => {},
                                                        Some((f6, p6)) => {
                                                            lemma_dec_opt_bool_range(s, p6);
                                                            match dec_opt_bool(s, p6) {
                                                                None => {},
                                                                Some((f7, p7)) => {
                                                                },
                                                            }
                                                        },
                                                    }
                                                },
                                            }
                                        },
                                    }
                                },
                            }
                        },
                    }
                },
            }
        },
    }
}

pub proof fn lemma_read_ds_c8(a: DiaSourceSpec, s: Seq<u8>, i: int, rest: Seq<u8>)
    requires
        0 <= i <= s.len(),
        encodable_dia_source(a),
        s.skip(i) == enc_ds_c8(a) + rest,
    ensures
        i + enc_ds_c8(a).len() <= s.len(),
        dec_ds_c8(s, i) == Some(((a.pixel_flags, a.pixel_flags_bad, a.pixel_flags_cr, a.pixel_flags_cr_center, a.pixel_flags_edge, a.pixel_flags_interpolated, a.pixel_flags_interpolated_center, a.pixel_flags_offimage), i + enc_ds_c8(a).len())),
        s.skip(i + enc_ds_c8(a).len()) == rest,
{
    let t8 = rest;
    let t7 = enc_opt_bool(a.pixel_flags_offimage) + t8;
    let t6 = enc_opt_bool(a.pixel_flags_interpolated_center) + t7;
    let t5 = enc_opt_bool(a.pixel_flags_interpolated) + t6;
    let t4 = enc_opt_bool(a.pixel_flags_edge) + t5;
    let t3 = enc_opt_bool(a.pixel_flags_cr_center) + t4;
    let t2 = enc_opt_bool(a.pixel_flags_cr) + t3;
    let t1 = enc_opt_bool(a.pixel_flags_bad) + t2;
    lemma_concat_assoc(
        enc_opt_bool(a.pixel_flags)
        + enc_opt_bool(a.pixel_flags_bad)
        + enc_opt_bool(a.pixel_flags_cr)
        + enc_opt_bool(a.pixel_flags_cr_center)
        + enc_opt_bool(a.pixel_flags_edge)
        + enc_opt_bool(a.pixel_flags_interpolated)
        + enc_opt_bool(a.pixel_flags_interpolated_center),
        enc_opt_bool(a.pixel_flags_offimage),
        t8,
    );
    lemma_concat_assoc(
        enc_opt_bool(a.pixel_flags)
        + enc_opt_bool(a.pixel_flags_bad)
        + enc_opt_bool(a.pixel_flags_cr)
        + enc_opt_bool(a.pixel_flags_cr_center)
        + enc_opt_bool(a.pixel_flags_edge)
        + enc_opt_bool(a.pixel_flags_interpolated),
        enc_opt_bool(a.pixel_flags_interpolated_center),
        t7,
    );
    lemma_concat_assoc(
        enc_opt_bool(a.pixel_flags)
        + enc_opt_bool(a.pixel_flags_bad)
        + enc_opt_bool(a.pixel_flags_cr)
        + enc_opt_bool(a.pixel_flags_cr_center)
        + enc_opt_bool(a.pixel_flags_edge),
        enc_opt_bool(a.pixel_flags_interpolated),
        t6,
    );
    lemma_concat_assoc(
        enc_opt_bool(a.pixel_flags)
        + enc_opt_bool(a.pixel_flags_bad)
        + enc_opt_bool(a.pixel_flags_cr)
        + enc_opt_bool(a.pixel_flags_cr_center),
        enc_opt_bool(a.pixel_flags_edge),
        t5,
    );
    lemma_concat_assoc(
        enc_opt_bool(a.pixel_flags)
        + enc_opt_bool(a.pixel_flags_bad)
        + enc_opt_bool(a.pixel_flags_cr),
        enc_opt_bool(a.pixel_flags_cr_center),
        t4,
    );
    lemma_concat_assoc(
        enc_opt_bool(a.pixel_flags)
        + enc_opt_bool(a.pixel_flags_bad),
        enc_opt_bool(a.pixel_flags_cr),
        t3,
    );
    lemma_concat_assoc(
        enc_opt_bool(a.pixel_flags),
        enc_opt_bool(a.pixel_flags_bad),
        t2,
    );
    let i0 = i;
    lemma_read_opt_bool(a.pixel_flags, s, i0, t1);
    let i1 = i0 + enc_opt_bool(a.pixel_flags).len();
    lemma_read_opt_bool(a.pixel_flags_bad, s, i1, t2);
    let i2 = i1 + enc_opt_bool(a.pixel_flags_bad).len();
    lemma_read_opt_bool(a.pixel_flags_cr, s, i2, t3);
    let i3 = i2 + enc_opt_bool(a.pixel_flags_cr).len();
    lemma_read_opt_bool(a.pixel_flags_cr_center, s, i3, t4);
    let i4 = i3 + enc_opt_bool(a.pixel_flags_cr_center).len();
    lemma_read_opt_bool(a.pixel_flags_edge, s, i4, t5);
    let i5 = i4 + enc_opt_bool(a.pixel_flags_edge).len();
    lemma_read_opt_bool(a.pixel_flags_interpolated, s, i5, t6);
    let i6 = i5 + enc_opt_bool(a.pixel_flags_interpolated).len();
    lemma_read_opt_bool(a.pixel_flags_interpolated_center, s, i6, t7);
    let i7 = i6 + enc_opt_bool(a.pixel_flags_interpolated_center).len();
    lemma_read_opt_bool(a.pixel_flags_offimage, s, i7, t8);
    let i8 = i7 + enc_opt_bool(a.pixel_flags_offimage).len();
    assert(i8 == i + enc_ds_c8(a).len());
}

pub fn read_ds_c8(bytes: &[u8], pos: usize) -> (r: Option<((Option<bool>, Option<bool>, Option<bool>, Option<bool>, Option<bool>, Option<bool>, Option<bool>, Option<bool>), usize)>)
    ensures
        match r {
            Some((v, j)) => dec_ds_c8(bytes@, pos as int) == Some(((v.0, v.1, v.2, v.3, v.4, v.5, v.6, v.7), j as int)),
            None => dec_ds_c8(bytes@, pos as int) is None,
        },
{
    let (f0, p0) = read_opt_bool(bytes, pos)?;
    let (f1, p1) = read_opt_bool(bytes, p0)?;
    let (f2, p2) = read_opt_bool(bytes, p1)?;
    let (f3, p3) = read_opt_bool(bytes, p2)?;
    let (f4, p4) = read_opt_bool(bytes, p3)?;
    let (f5, p5) = read_opt_bool(bytes, p4)?;
    let (f6, p6) = read_opt_bool(bytes, p5)?;
    let (f7, p7) = read_opt_bool(bytes, p6)?;
    Some(((f0, f1, f2, f3, f4, f5, f6, f7), p7))
}

#[verifier::rlimit(100)]
pub fn write_ds_c8(out: &mut Vec<u8>, a: &DiaSource)
    requires
        encodable_dia_source(a@),
    ensures
        final(out)@ == old(out)@ + enc_ds_c8(a@),
{
    write_opt_bool(out, a.pixel_flags);
    assert(out@ =~= old(out)@ + (enc_opt_bool(a@.pixel_flags)));
    write_opt_bool(out, a.pixel_flags_bad);
    assert(out@ =~= old(out)@ + (enc_opt_bool(a@.pixel_flags)
        + enc_opt_bool(a@.pixel_flags_bad)));
    write_opt_bool(out, a.pixel_flags_cr);
    assert(out@ =~= old(out)@ + (enc_opt_bool(a@.pixel_flags)
        + enc_opt_bool(a@.pixel_flags_bad)
        + enc_opt_bool(a@.pixel_flags_cr)));
    write_opt_bool(out, a.pixel_flags_cr_center);
    assert(out@ =~= old(out)@ + (enc_opt_bool(a@.pixel_flags)
        + enc_opt_bool(a@.pixel_flags_bad)
        + enc_opt_bool(a@.pixel_flags_cr)
        + enc_opt_bool(a@.pixel_flags_cr_center)));
    write_opt_bool(out, a.pixel_flags_edge);
    assert(out@ =~= old(out)@ + (enc_opt_bool(a@.pixel_flags)
        + enc_opt_bool(a@.pixel_flags_bad)
        + enc_opt_bool(a@.pixel_flags_cr)
        + enc_opt_bool(a@.pixel_flags_cr_center)
        + enc_opt_bool(a@.pixel_flags_edge)));
    write_opt_bool(out, a.pixel_flags_interpolated);
    assert(out@ =~= old(out)@ + (enc_opt_bool(a@.pixel_flags)
        + enc_opt_bool(a@.pixel_flags_bad)
        + enc_opt_bool(a@.pixel_flags_cr)
        + enc_opt_bool(a@.pixel_flags_cr_center)
        + enc_opt_bool(a@.pixel_flags_edge)
        + enc_opt_bool(a@.pixel_flags_interpolated)));
    write_opt_bool(out, a.pixel_flags_interpolated_center);
    assert(out@ =~= old(out)@ + (enc_opt_bool(a@.pixel_flags)
        + enc_opt_bool(a@.pixel_flags_bad)
        + enc_opt_bool(a@.pixel_flags_cr)
        + enc_opt_bool(a@.pixel_flags_cr_center)
        + enc_opt_bool(a@.pixel_flags_edge)
        + enc_opt_bool(a@.pixel_flags_interpolated)
        + enc_opt_bool(a@.pixel_flags_interpolated_center)));
    write_opt_bool(out, a.pixel_flags_offimage);
    assert(out@ =~= old(out)@ + (enc_opt_bool(a@.pixel_flags)
        + enc_opt_bool(a@.pixel_flags_bad)
        + enc_opt_bool(a@.pixel_flags_cr)
        + enc_opt_bool(a@.pixel_flags_cr_center)
        + enc_opt_bool(a@.pixel_flags_edge)
        + enc_opt_bool(a@.pixel_flags_interpolated)
        + enc_opt_bool(a@.pixel_flags_interpolated_center)
        + enc_opt_bool(a@.pixel_flags_offimage)));
}

pub open spec fn enc_ds_c9(a: DiaSourceSpec) -> Seq<u8> {
    enc_opt_bool(a.pixel_flags_saturated)
        + enc_opt_bool(a.pixel_flags_saturated_center)
        + enc_opt_bool(a.pixel_flags_suspect)
        + enc_opt_bool(a.pixel_flags_suspect_center)
        + enc_opt_bool(a.pixel_flags_streak)
        + enc_opt_bool(a.pixel_flags_streak_center)
        + enc_opt_bool(a.pixel_flags_injected)
        + enc_opt_bool(a.pixel_flags_injected_center)
}

pub open spec fn dec_ds_c9(s: Seq<u8>, i: int) -> Option<((Option<bool>, Option<bool>, Option<bool>, Option<bool>, Option<bool>, Option<bool>, Option<bool>, Option<bool>), int)> {
    match dec_opt_bool(s, i) {
        None => None,
        Some((f0, p0)) => {
            match dec_opt_bool(s, p0) {
                None => None,
                Some((f1, p1)) => {
                    match dec_opt_bool(s, p1) {
                        None => None,
                        Some((f2, p2)) => {
                            match dec_opt_bool(s, p2) {
                                None => None,
                                Some((f3, p3)) => {
                                    match dec_opt_bool(s, p3) {
                                        None => None,
                                        Some((f4, p4)) => {
                                            match dec_opt_bool(s, p4) {
                                                None => None,
                                                Some((f5, p5)) => {
                                                    match dec_opt_bool(s, p5) {
                                                        None => None,
                                                        Some((f6, p6)) => {
                                                            match dec_opt_bool(s, p6) {
                                                                None => None,
                                                                Some((f7, p7)) => {
                                                                    Some(((f0, f1, f2, f3, f4, f5, f6, f7), p7))
                                                                },
                                                            }
                                                        },
                                                    }
                                                },
                                            }
                                        },
                                    }
                                },
                            }
                        },
                    }
                },
            }
        },
    }
}

pub proof fn lemma_dec_ds_c9_range(s: Seq<u8>, i: int)
    ensures
        dec_ds_c9(s, i) matches Some((v, j)) ==> i < j <= s.len(),
{
    lemma_dec_opt_bool_range(s, i);
    match dec_opt_bool(s, i) {
        None => {},
        Some((f0, p0)) => {
            lemma_dec_opt_bool_range(s, p0);
            match dec_opt_bool(s, p0) {
                None => {},
                Some((f1, p1)) => {
                    lemma_dec_opt_bool_range(s, p1);
                    match dec_opt_bool(s, p1) {
                        None => {},
                        Some((f2, p2)) => {
                            lemma_dec_opt_bool_range(s, p2);
                            match dec_opt_bool(s, p2) {
                                None => {},
                                Some((f3, p3)) => {
                                    lemma_dec_opt_bool_range(s, p3);
                                    match dec_opt_bool(s, p3) {
                                        None => {},
                                        Some((f4, p4)) => {
                                            lemma_dec_opt_bool_range(s, p4);
                                            match dec_opt_bool(s, p4) {
                                                None => {},
                                                Some((f5, p5)) => {
                                                    lemma_dec_opt_bool_range(s, p5);
                                                    match dec_opt_bool(s, p5) {
                                                        None => {},
                                                        Some((f6, p6)) => {
                                                            lemma_dec_opt_bool_range(s, p6);
                                                            match dec_opt_bool(s, p6) {
                                                                None => {},
                                                                Some((f7, p7)) => {
                                                                },
                                                            }
                                                        },
                                                    }
                                                },
                                            }
                                        },
                                    }
                                },
                            }
                        },
                    }
                },
            }
        },
    }
}

pub proof fn lemma_read_ds_c9(a: DiaSourceSpec, s: Seq<u8>, i: int, rest: Seq<u8>)
    requires
        0 <= i <= s.len(),
        encodable_dia_source(a),
        s.skip(i) == enc_ds_c9(a) + rest,
    ensures
        i + enc_ds_c9(a).len() <= s.len(),
        dec_ds_c9(s, i) == Some(((a.pixel_flags_saturated, a.pixel_flags_saturated_center, a.pixel_flags_suspect, a.pixel_flags_suspect_center, a.pixel_flags_streak, a.pixel_flags_streak_center, a.pixel_flags_injected, a.pixel_flags_injected_center), i + enc_ds_c9(a).len())),
        s.skip(i + enc_ds_c9(a).len()) == rest,
{
    let t8 = rest;
    let t7 = enc_opt_bool(a.pixel_flags_injected_center) + t8;
    let t6 = enc_opt_bool(a.pixel_flags_injected) + t7;
    let t5 = enc_opt_bool(a.pixel_flags_streak_center) + t6;
    let t4 = enc_opt_bool(a.pixel_flags_streak) + t5;
    let t3 = enc_opt_bool(a.pixel_flags_suspect_center) + t4;
    let t2 = enc_opt_bool(a.pixel_flags_suspect) + t3;
    let t1 = enc_opt_bool(a.pixel_flags_saturated_center) + t2;
    lemma_concat_assoc(
        enc_opt_bool(a.pixel_flags_saturated)
        + enc_opt_bool(a.pixel_flags_saturated_center)
        + enc_opt_bool(a.pixel_flags_suspect)
        + enc_opt_bool(a.pixel_flags_suspect_center)
        + enc_opt_bool(a.pixel_flags_streak)
        + enc_opt_bool(a.pixel_flags_streak_center)
        + enc_opt_bool(a.pixel_flags_injected),
        enc_opt_bool(a.pixel_flags_injected_center),
        t8,
    );
    lemma_concat_assoc(
        enc_opt_bool(a.pixel_flags_saturated)
        + enc_opt_bool(a.pixel_flags_saturated_center)
        + enc_opt_bool(a.pixel_flags_suspect)
        + enc_opt_bool(a.pixel_flags_suspect_center)
        + enc_opt_bool(a.pixel_flags_streak)
        + enc_opt_bool(a.pixel_flags_streak_center),
        enc_opt_bool(a.pixel_flags_injected),
        t7,
    );
    lemma_concat_assoc(
        enc_opt_bool(a.pixel_flags_saturated)
        + enc_opt_bool(a.pixel_flags_saturated_center)
        + enc_opt_bool(a.pixel_flags_suspect)
        + enc_opt_bool(a.pixel_flags_suspect_center)
        + enc_opt_bool(a.pixel_flags_streak),
        enc_opt_bool(a.pixel_flags_streak_center),
        t6,
    );
    lemma_concat_assoc(
        enc_opt_bool(a.pixel_flags_saturated)
        + enc_opt_bool(a.pixel_flags_saturated_center)
        + enc_opt_bool(a.pixel_flags_suspect)
        + enc_opt_bool(a.pixel_flags_suspect_center),
        enc_opt_bool(a.pixel_flags_streak),
        t5,
    );
    lemma_concat_assoc(
        enc_opt_bool(a.pixel_flags_saturated)
        + enc_opt_bool(a.pixel_flags_saturated_center)
        + enc_opt_bool(a.pixel_flags_suspect),
        enc_opt_bool(a.pixel_flags_suspect_center),
        t4,
    );
    lemma_concat_assoc(
        enc_opt_bool(a.pixel_flags_saturated)
        + enc_opt_bool(a.pixel_flags_saturated_center),
        enc_opt_bool(a.pixel_flags_suspect),
        t3,
    );
    lemma_concat_assoc(
        enc_opt_bool(a.pixel_flags_saturated),
        enc_opt_bool(a.pixel_flags_saturated_center),
        t2,
    );
    let i0 = i;
    lemma_read_opt_bool(a.pixel_flags_saturated, s, i0, t1);
    let i1 = i0 + enc_opt_bool(a.pixel_flags_saturated).len();
    lemma_read_opt_bool(a.pixel_flags_saturated_center, s, i1, t2);
    let i2 = i1 + enc_opt_bool(a.pixel_flags_saturated_center).len();
    lemma_read_opt_bool(a.pixel_flags_suspect, s, i2, t3);
    let i3 = i2 + enc_opt_bool(a.pixel_flags_suspect).len();
    lemma_read_opt_bool(a.pixel_flags_suspect_center, s, i3, t4);
    let i4 = i3 + enc_opt_bool(a.pixel_flags_suspect_center).len();
    lemma_read_opt_bool(a.pixel_flags_streak, s, i4, t5);
    let i5 = i4 + enc_opt_bool(a.pixel_flags_streak).len();
    lemma_read_opt_bool(a.pixel_flags_streak_center, s, i5, t6);
    let i6 = i5 + enc_opt_bool(a.pixel_flags_streak_center).len();
    lemma_read_opt_bool(a.pixel_flags_injected, s, i6, t7);
    let i7 = i6 + enc_opt_bool(a.pixel_flags_injected).len();
    lemma_read_opt_bool(a.pixel_flags_injected_center, s, i7, t8);
    let i8 = i7 + enc_opt_bool(a.pixel_flags_injected_center).len();
    assert(i8 == i + enc_ds_c9(a).len());
}

pub fn read_ds_c9(bytes: &[u8], pos: usize) -> (r: Option<((Option<bool>, Option<bool>, Option<bool>, Option<bool>, Option<bool>, Option<bool>, Option<bool>, Option<bool>), usize)>)
    ensures
        match r {
            Some((v, j)) => dec_ds_c9(bytes@, pos as int) == Some(((v.0, v.1, v.2, v.3, v.4, v.5, v.6, v.7), j as int)),
            None => dec_ds_c9(bytes@, pos as int) is None,
        },
{
    let (f0, p0) = read_opt_bool(bytes, pos)?;
    let (f1, p1) = read_opt_bool(bytes, p0)?;
    let (f2, p2) = read_opt_bool(bytes, p1)?;
    let (f3, p3) = read_opt_bool(bytes, p2)?;
    let (f4, p4) = read_opt_bool(bytes, p3)?;
    let (f5, p5) = read_opt_bool(bytes, p4)?;
    let (f6, p6) = read_opt_bool(bytes, p5)?;
    let (f7, p7) = read_opt_bool(bytes, p6)?;
    Some(((f0, f1, f2, f3, f4, f5, f6, f7), p7))
}

#[verifier::rlimit(100)]
pub fn write_ds_c9(out: &mut Vec<u8>, a: &DiaSource)
    requires
        encodable_dia_source(a@),
    ensures
        final(out)@ == old(out)@ + enc_ds_c9(a@),
{
    write_opt_bool(out, a.pixel_flags_saturated);
    assert(out@ =~= old(out)@ + (enc_opt_bool(a@.pixel_flags_saturated)));
    write_opt_bool(out, a.pixel_flags_saturated_center);
    assert(out@ =~= old(out)@ + (enc_opt_bool(a@.pixel_flags_saturated)
        + enc_opt_bool(a@.pixel_flags_saturated_center)));
    write_opt_bool(out, a.pixel_flags_suspect);
    assert(out@ =~= old(out)@ + (enc_opt_bool(a@.pixel_flags_saturated)
        + enc_opt_bool(a@.pixel_flags_saturated_center)
        + enc_opt_bool(a@.pixel_flags_suspect)));
    write_opt_bool(out, a.pixel_flags_suspect_center);
    assert(out@ =~= old(out)@ + (enc_opt_bool(a@.pixel_flags_saturated)
        + enc_opt_bool(a@.pixel_flags_saturated_center)
        + enc_opt_bool(a@.pixel_flags_suspect)
        + enc_opt_bool(a@.pixel_flags_suspect_center)));
    write_opt_bool(out, a.pixel_flags_streak);
    assert(out@ =~= old(out)@ + (enc_opt_bool(a@.pixel_flags_saturated)
        + enc_opt_bool(a@.pixel_flags_saturated_center)
        + enc_opt_bool(a@.pixel_flags_suspect)
        + enc_opt_bool(a@.pixel_flags_suspect_center)
        + enc_opt_bool(a@.pixel_flags_streak)));
    write_opt_bool(out, a.pixel_flags_streak_center);
    assert(out@ =~= old(out)@ + (enc_opt_bool(a@.pixel_flags_saturated)
        + enc_opt_bool(a@.pixel_flags_saturated_center)
        + enc_opt_bool(a@.pixel_flags_suspect)
        + enc_opt_bool(a@.pixel_flags_suspect_center)
        + enc_opt_bool(a@.pixel_flags_streak)
        + enc_opt_bool(a@.pixel_flags_streak_center)));
    write_opt_bool(out, a.pixel_flags_injected);
    assert(out@ =~= old(out)@ + (enc_opt_bool(a@.pixel_flags_saturated)
        + enc_opt_bool(a@.pixel_flags_saturated_center)
        + enc_opt_bool(a@.pixel_flags_suspect)
        + enc_opt_bool(a@.pixel_flags_suspect_center)
        + enc_opt_bool(a@.pixel_flags_streak)
        + enc_opt_bool(a@.pixel_flags_streak_center)
        + enc_opt_bool(a@.pixel_flags_injected)));
    write_opt_bool(out, a.pixel_flags_injected_center);
    assert(out@ =~= old(out)@ + (enc_opt_bool(a@.pixel_flags_saturated)
        + enc_opt_bool(a@.pixel_flags_saturated_center)
        + enc_opt_bool(a@.pixel_flags_suspect)
        + enc_opt_bool(a@.pixel_flags_suspect_center)
        + enc_opt_bool(a@.pixel_flags_streak)
        + enc_opt_bool(a@.pixel_flags_streak_center)
        + enc_opt_bool(a@.pixel_flags_injected)
        + enc_opt_bool(a@.pixel_flags_injected_center)));
}

pub open spec fn enc_ds_c10(a: DiaSourceSpec) -> Seq<u8> {
    enc_opt_bool(a.pixel_flags_injected_template)
        + enc_opt_bool(a.pixel_flags_injected_template_center)
}

pub open spec fn dec_ds_c10(s: Seq<u8>, i: int) -> Option<((Option<bool>, Option<bool>), int)> {
    match dec_opt_bool(s, i) {
        None => None,
        Some((f0, p0)) => {
            match dec_opt_bool(s, p0) {
                None => None,
                Some((f1, p1)) => {
                    Some(((f0, f1), p1))
                },
            }
        },
    }
}

pub proof fn lemma_dec_ds_c10_range(s: Seq<u8>, i: int)
    ensures
        dec_ds_c10(s, i) matches Some((v, j)) ==> i < j <= s.len(),
{
    lemma_dec_opt_bool_range(s, i);
    match dec_opt_bool(s, i) {
        None => {},
        Some((f0, p0)) => {
            lemma_dec_opt_bool_range(s, p0);
            match dec_opt_bool(s, p0) {
                None => {},
                Some((f1, p1)) => {
                },
            }
        },
    }
}

pub proof fn lemma_read_ds_c10(a: DiaSourceSpec, s: Seq<u8>, i: int, rest: Seq<u8>)
    requires
        0 <= i <= s.len(),
        encodable_dia_source(a),
        s.skip(i) == enc_ds_c10(a) + rest,
    ensures
        i + enc_ds_c10(a).len() <= s.len(),
        dec_ds_c10(s, i) == Some(((a.pixel_flags_injected_template, a.pixel_flags_injected_template_center), i + enc_ds_c10(a).len())),
        s.skip(i + enc_ds_c10(a).len()) == rest,
{
    let t2 = rest;
    let t1 = enc_opt_bool(a.pixel_flags_injected_template_center) + t2;
    lemma_concat_assoc(
        enc_opt_bool(a.pixel_flags_injected_template),
        enc_opt_bool(a.pixel_flags_injected_template_center),
        t2,
    );
    let i0 = i;
    lemma_read_opt_bool(a.pixel_flags_injected_template, s, i0, t1);
    let i1 = i0 + enc_opt_bool(a.pixel_flags_injected_template).len();
    lemma_read_opt_bool(a.pixel_flags_injected_template_center, s, i1, t2);
    let i2 = i1 + enc_opt_bool(a.pixel_flags_injected_template_center).len();
    assert(i2 == i + enc_ds_c10(a).len());
}

pub fn read_ds_c10(bytes: &[u8], pos: usize) -> (r: Option<((Option<bool>, Option<bool>), usize)>)
    ensures
        match r {
            Some((v, j)) => dec_ds_c10(bytes@, pos as int) == Some(((v.0, v.1), j as int)),
            None => dec_ds_c10(bytes@, pos as int) is None,
        },
{
    let (f0, p0) = read_opt_bool(bytes, pos)?;
    let (f1, p1) = read_opt_bool(bytes, p0)?;
    Some(((f0, f1), p1))
}

#[verifier::rlimit(100)]
pub fn write_ds_c10(out: &mut Vec<u8>, a: &DiaSource)
    requires
        encodable_dia_source(a@),
    ensures
        final(out)@ == old(out)@ + enc_ds_c10(a@),
{
    write_opt_bool(out, a.pixel_flags_injected_template);
    assert(out@ =~= old(out)@ + (enc_opt_bool(a@.pixel_flags_injected_template)));
    write_opt_bool(out, a.pixel_flags_injected_template_center);
    assert(out@ =~= old(out)@ + (enc_opt_bool(a@.pixel_flags_injected_template)
        + enc_opt_bool(a@.pixel_flags_injected_template_center)));
}

#[verifier::opaque]
pub open spec fn enc_dia_source(a: DiaSourceSpec) -> Seq<u8> {
    enc_ds_c1(a)
        + enc_ds_c2(a)
        + enc_ds_c3(a)
        + enc_ds_c4(a)
        + enc_ds_c5(a)
        + enc_ds_c6(a)
        + enc_ds_c7(a)
        + enc_ds_c8(a)
        + enc_ds_c9(a)
        + enc_ds_c10(a)
}

#[verifier::opaque]
pub open spec fn dec_dia_source(s: Seq<u8>, i: int) -> Option<(DiaSourceSpec, int)> {
    match dec_ds_c1(s, i) {
        None => None,
        Some((c1, p1)) => {
            match dec_ds_c2(s, p1) {
                None => None,
                Some((c2, p2)) => {
                    match dec_ds_c3(s, p2) {
                        None => None,
                        Some((c3, p3)) => {
                            match dec_ds_c4(s, p3) {
                                None => None,
                                Some((c4, p4)) => {
                                    match dec_ds_c5(s, p4) {
                                        None => None,
                                        Some((c5, p5)) => {
                                            match dec_ds_c6(s, p5) {
                                                None => None,
                                                Some((c6, p6)) => {
                                                    match dec_ds_c7(s, p6) {
                                                        None => None,
                                                        Some((c7, p7)) => {
                                                            match dec_ds_c8(s, p7) {
                                                                None => None,
                                                                Some((c8, p8)) => {
                                                                    match dec_ds_c9(s, p8) {
                                                                        None => None,
                                                                        Some((c9, p9)) => {
                                                                            match dec_ds_c10(s, p9) {
                                                                                None => None,
                                                                                Some((c10, p10)) => {
                                                                                    Some((DiaSourceSpec {
                                                                                        candid: c1.0,
                                                                                        visit: c1.1,
                                                                                        detector: c1.2,
                                                                                        object_id: c1.3,
                                                                                        ss_object_id: c1.4,
                                                                                        parent_dia_source_id: c1.5,
                                                                                        mjd: c1.6,
                                                                                        ra: c1.7,
                                                                                        ra_err: c2.0,
                                                                                        dec: c2.1,
                                                                                        dec_err: c2.2,
                                                                                        centroid_flag: c2.3,
                                                                                        is_negative: c2.4,
                                                                                        ap_flux: c2.5,
                                                                                        ap_flux_err: c2.6,
                                                                                        ap_flux_flag: c2.7,
                                                                                        ap_flux_flag_aperture_truncated: c3.0,
                                                                                        snr: c3.1,
                                                                                        psf_flux: c3.2,
                                                                                        psf_flux_err: c3.3,
                                                                                        psf_ra: c3.4,
                                                                                        psf_ra_err: c3.5,
                                                                                        psf_dec: c3.6,
                                                                                        psf_dec_err: c3.7,
                                                                                        psf_chi2: c4.0,
                                                                                        psf_ndata: c4.1,
                                                                                        psf_flux_flag: c4.2,
                                                                                        psf_flux_flag_edge: c4.3,
                                                                                        psf_flux_flag_no_good_pixels: c4.4,
                                                                                        trail_flux: c4.5,
                                                                                        trail_flux_err: c4.6,
                                                                                        trail_ra: c4.7,
                                                                                        trail_ra_err: c5.0,
                                                                                        trail_dec: c5.1,
                                                                                        trail_dec_err: c5.2,
                                                                                        trail_length: c5.3,
                                                                                        trail_length_err: c5.4,
                                                                                        trail_angle: c5.5,
                                                                                        trail_angle_err: c5.6,
                                                                                        trail_chi2: c5.7,
                                                                                        trail_ndata: c6.0,
                                                                                        trail_flag_edge: c6.1,
                                                                                        forced_psf_flux_flag: c6.2,
                                                                                        forced_psf_flux_flag_edge: c6.3,
                                                                                        forced_psf_flux_flag_no_good_pixels: c6.4,
                                                                                        snap_diff_flux: c6.5,
                                                                                        snap_diff_flux_err: c6.6,
                                                                                        fp_bkgd: c6.7,
                                                                                        fp_bkgd_err: c7.0,
                                                                                        shape_flag: c7.1,
                                                                                        shape_flag_no_pixels: c7.2,
                                                                                        shape_flag_not_contained: c7.3,
                                                                                        shape_flag_parent_source: c7.4,
                                                                                        extendedness: c7.5,
                                                                                        reliability: c7.6,
                                                                                        band: c7.7,
                                                                                        pixel_flags: c8.0,
                                                                                        pixel_flags_bad: c8.1,
                                                                                        pixel_flags_cr: c8.2,
                                                                                        pixel_flags_cr_center: c8.3,
                                                                                        pixel_flags_edge: c8.4,
                                                                                        pixel_flags_interpolated: c8.5,
                                                                                        pixel_flags_interpolated_center: c8.6,
                                                                                        pixel_flags_offimage: c8.7,
                                                                                        pixel_flags_saturated: c9.0,
                                                                                        pixel_flags_saturated_center: c9.1,
                                                                                        pixel_flags_suspect: c9.2,
                                                                                        pixel_flags_suspect_center: c9.3,
                                                                                        pixel_flags_streak: c9.4,
                                                                                        pixel_flags_streak_center: c9.5,
                                                                                        pixel_flags_injected: c9.6,
                                                                                        pixel_flags_injected_center: c9.7,
                                                                                        pixel_flags_injected_template: c10.0,
                                                                                        pixel_flags_injected_template_center: c10.1,
                                                                                        magpsf: None,
                                                                                        sigmapsf: None,
                                                                                        science_flux: None,
                                                                                    }, p10))
                                                                                },
                                                                            }
                                                                        },
                                                                    }
                                                                },
                                                            }
                                                        },
                                                    }
                                                },
                                            }
                                        },
                                    }
                                },
                            }
                        },
                    }
                },
            }
        },
    }
}

pub proof fn lemma_dec_dia_source_range(s: Seq<u8>, i: int)
    ensures
        dec_dia_source(s, i) matches Some((v, j)) ==> i < j <= s.len(),
{
    reveal(dec_dia_source);
    lemma_dec_ds_c1_range(s, i);
    match dec_ds_c1(s, i) {
        None => {},
        Some((c1, p1)) => {
            lemma_dec_ds_c2_range(s, p1);
            match dec_ds_c2(s, p1) {
                None => {},
                Some((c2, p2)) => {
                    lemma_dec_ds_c3_range(s, p2);
                    match dec_ds_c3(s, p2) {
                        None => {},
                        Some((c3, p3)) => {
                            lemma_dec_ds_c4_range(s, p3);
                            match dec_ds_c4(s, p3) {
                                None => {},
                                Some((c4, p4)) => {
                                    lemma_dec_ds_c5_range(s, p4);
                                    match dec_ds_c5(s, p4) {
                                        None => {},
                                        Some((c5, p5)) => {
                                            lemma_dec_ds_c6_range(s, p5);
                                            match dec_ds_c6(s, p5) {
                                                None => {},
                                                Some((c6, p6)) => {
                                                    lemma_dec_ds_c7_range(s, p6);
                                                    match dec_ds_c7(s, p6) {
                                                        None => {},
                                                        Some((c7, p7)) => {
                                                            lemma_dec_ds_c8_range(s, p7);
                                                            match dec_ds_c8(s, p7) {
                                                                None => {},
                                                                Some((c8, p8)) => {
                                                                    lemma_dec_ds_c9_range(s, p8);
                                                                    match dec_ds_c9(s, p8) {
                                                                        None => {},
                                                                        Some((c9, p9)) => {
                                                                            lemma_dec_ds_c10_range(s, p9);
                                                                            match dec_ds_c10(s, p9) {
                                                                                None => {},
                                                                                Some((c10, p10)) => {
                                                                                },
                                                                            }
                                                                        },
                                                                    }
                                                                },
                                                            }
                                                        },
                                                    }
                                                },
                                            }
                                        },
                                    }
                                },
                            }
                        },
                    }
                },
            }
        },
    }
}

pub proof fn lemma_read_dia_source(a: DiaSourceSpec, s: Seq<u8>, i: int, rest: Seq<u8>)
    requires
        0 <= i <= s.len(),
        wire_form_dia_source(a),
        encodable_dia_source(a),
        s.skip(i) == enc_dia_source(a) + rest,
    ensures
        i + enc_dia_source(a).len() <= s.len(),
        dec_dia_source(s, i) == Some((a, i + enc_dia_source(a).len())),
        s.skip(i + enc_dia_source(a).len()) == rest,
{
    reveal(enc_dia_source);
    reveal(dec_dia_source);
    let t10 = rest;
    let t9 = enc_ds_c10(a) + t10;
    let t8 = enc_ds_c9(a) + t9;
    let t7 = enc_ds_c8(a) + t8;
    let t6 = enc_ds_c7(a) + t7;
    let t5 = enc_ds_c6(a) + t6;
    let t4 = enc_ds_c5(a) + t5;
    let t3 = enc_ds_c4(a) + t4;
    let t2 = enc_ds_c3(a) + t3;
    let t1 = enc_ds_c2(a) + t2;
    lemma_concat_assoc(enc_ds_c1(a) + enc_ds_c2(a) + enc_ds_c3(a) + enc_ds_c4(a) + enc_ds_c5(a) + enc_ds_c6(a) + enc_ds_c7(a) + enc_ds_c8(a) + enc_ds_c9(a), enc_ds_c10(a), t10);
    lemma_concat_assoc(enc_ds_c1(a) + enc_ds_c2(a) + enc_ds_c3(a) + enc_ds_c4(a) + enc_ds_c5(a) + enc_ds_c6(a) + enc_ds_c7(a) + enc_ds_c8(a), enc_ds_c9(a), t9);
    lemma_concat_assoc(enc_ds_c1(a) + enc_ds_c2(a) + enc_ds_c3(a) + enc_ds_c4(a) + enc_ds_c5(a) + enc_ds_c6(a) + enc_ds_c7(a), enc_ds_c8(a), t8);
    lemma_concat_assoc(enc_ds_c1(a) + enc_ds_c2(a) + enc_ds_c3(a) + enc_ds_c4(a) + enc_ds_c5(a) + enc_ds_c6(a), enc_ds_c7(a), t7);
    lemma_concat_assoc(enc_ds_c1(a) + enc_ds_c2(a) + enc_ds_c3(a) + enc_ds_c4(a) + enc_ds_c5(a), enc_ds_c6(a), t6);
    lemma_concat_assoc(enc_ds_c1(a) + enc_ds_c2(a) + enc_ds_c3(a) + enc_ds_c4(a), enc_ds_c5(a), t5);
    lemma_concat_assoc(enc_ds_c1(a) + enc_ds_c2(a) + enc_ds_c3(a), enc_ds_c4(a), t4);
    lemma_concat_assoc(enc_ds_c1(a) + enc_ds_c2(a), enc_ds_c3(a), t3);
    lemma_concat_assoc(enc_ds_c1(a), enc_ds_c2(a), t2);
    let i0 = i;
    lemma_read_ds_c1(a, s, i0, t1);
    let i1 = i0 + enc_ds_c1(a).len();
    lemma_read_ds_c2(a, s, i1, t2);
    let i2 = i1 + enc_ds_c2(a).len();
    lemma_read_ds_c3(a, s, i2, t3);
    let i3 = i2 + enc_ds_c3(a).len();
    lemma_read_ds_c4(a, s, i3, t4);
    let i4 = i3 + enc_ds_c4(a).len();
    lemma_read_ds_c5(a, s, i4, t5);
    let i5 = i4 + enc_ds_c5(a).len();
    lemma_read_ds_c6(a, s, i5, t6);
    let i6 = i5 + enc_ds_c6(a).len();
    lemma_read_ds_c7(a, s, i6, t7);
    let i7 = i6 + enc_ds_c7(a).len();
    lemma_read_ds_c8(a, s, i7, t8);
    let i8 = i7 + enc_ds_c8(a).len();
    lemma_read_ds_c9(a, s, i8, t9);
    let i9 = i8 + enc_ds_c9(a).len();
    lemma_read_ds_c10(a, s, i9, t10);
    let i10 = i9 + enc_ds_c10(a).len();
    assert(i10 == i + enc_dia_source(a).len());
    let d = DiaSourceSpec {
        candid: a.candid,
        visit: a.visit,
        detector: a.detector,
        object_id: a.object_id,
        ss_object_id: a.ss_object_id,
        parent_dia_source_id: a.parent_dia_source_id,
        mjd: a.mjd,
        ra: a.ra,
        ra_err: a.ra_err,
        dec: a.dec,
        dec_err: a.dec_err,
        centroid_flag: a.centroid_flag,
        is_negative: a.is_negative,
        ap_flux: a.ap_flux,
        ap_flux_err: a.ap_flux_err,
        ap_flux_flag: a.ap_flux_flag,
        ap_flux_flag_aperture_truncated: a.ap_flux_flag_aperture_truncated,
        snr: a.snr,
        psf_flux: a.psf_flux,
        psf_flux_err: a.psf_flux_err,
        psf_ra: a.psf_ra,
        psf_ra_err: a.psf_ra_err,
        psf_dec: a.psf_dec,
        psf_dec_err: a.psf_dec_err,
        psf_chi2: a.psf_chi2,
        psf_ndata: a.psf_ndata,
        psf_flux_flag: a.psf_flux_flag,
        psf_flux_flag_edge: a.psf_flux_flag_edge,
        psf_flux_flag_no_good_pixels: a.psf_flux_flag_no_good_pixels,
        trail_flux: a.trail_flux,
        trail_flux_err: a.trail_flux_err,
        trail_ra: a.trail_ra,
        trail_ra_err: a.trail_ra_err,
        trail_dec: a.trail_dec,
        trail_dec_err: a.trail_dec_err,
        trail_length: a.trail_length,
        trail_length_err: a.trail_length_err,
        trail_angle: a.trail_angle,
        trail_angle_err: a.trail_angle_err,
        trail_chi2: a.trail_chi2,
        trail_ndata: a.trail_ndata,
        trail_flag_edge: a.trail_flag_edge,
        forced_psf_flux_flag: a.forced_psf_flux_flag,
        forced_psf_flux_flag_edge: a.forced_psf_flux_flag_edge,
        forced_psf_flux_flag_no_good_pixels: a.forced_psf_flux_flag_no_good_pixels,
        snap_diff_flux: a.snap_diff_flux,
        snap_diff_flux_err: a.snap_diff_flux_err,
        fp_bkgd: a.fp_bkgd,
        fp_bkgd_err: a.fp_bkgd_err,
        shape_flag: a.shape_flag,
        shape_flag_no_pixels: a.shape_flag_no_pixels,
        shape_flag_not_contained: a.shape_flag_not_contained,
        shape_flag_parent_source: a.shape_flag_parent_source,
        extendedness: a.extendedness,
        reliability: a.reliability,
        band: a.band,
        pixel_flags: a.pixel_flags,
        pixel_flags_bad: a.pixel_flags_bad,
        pixel_flags_cr: a.pixel_flags_cr,
        pixel_flags_cr_center: a.pixel_flags_cr_center,
        pixel_flags_edge: a.pixel_flags_edge,
        pixel_flags_interpolated: a.pixel_flags_interpolated,
        pixel_flags_interpolated_center: a.pixel_flags_interpolated_center,
        pixel_flags_offimage: a.pixel_flags_offimage,
        pixel_flags_saturated: a.pixel_flags_saturated,
        pixel_flags_saturated_center: a.pixel_flags_saturated_center,
        pixel_flags_suspect: a.pixel_flags_suspect,
        pixel_flags_suspect_center: a.pixel_flags_suspect_center,
        pixel_flags_streak: a.pixel_flags_streak,
        pixel_flags_streak_center: a.pixel_flags_streak_center,
        pixel_flags_injected: a.pixel_flags_injected,
        pixel_flags_injected_center: a.pixel_flags_injected_center,
        pixel_flags_injected_template: a.pixel_flags_injected_template,
        pixel_flags_injected_template_center: a.pixel_flags_injected_template_center,
        magpsf: None,
        sigmapsf: None,
        science_flux: None,
    };
    assert(d =~= a);
}

pub fn read_dia_source(bytes: &[u8], pos: usize) -> (r: Option<(DiaSource, usize)>)
    ensures
        match r {
            Some((v, j)) => dec_dia_source(bytes@, pos as int) == Some((v@, j as int)),
            None => dec_dia_source(bytes@, pos as int) is None,
        },
{
    proof {
        reveal(dec_dia_source);
    }
    let (c1, p1) = read_ds_c1(bytes, pos)?;
    let (c2, p2) = read_ds_c2(bytes, p1)?;
    let (c3, p3) = read_ds_c3(bytes, p2)?;
    let (c4, p4) = read_ds_c4(bytes, p3)?;
    let (c5, p5) = read_ds_c5(bytes, p4)?;
    let (c6, p6) = read_ds_c6(bytes, p5)?;
    let (c7, p7) = read_ds_c7(bytes, p6)?;
    let (c8, p8) = read_ds_c8(bytes, p7)?;
    let (c9, p9) = read_ds_c9(bytes, p8)?;
    let (c10, p10) = read_ds_c10(bytes, p9)?;
    let v = DiaSource {
        candid: c1.0,
        visit: c1.1,
        detector: c1.2,
        object_id: c1.3,
        ss_object_id: c1.4,
        parent_dia_source_id: c1.5,
        mjd: c1.6,
        ra: c1.7,
        ra_err: c2.0,
        dec: c2.1,
        dec_err: c2.2,
        centroid_flag: c2.3,
        is_negative: c2.4,
        ap_flux: c2.5,
        ap_flux_err: c2.6,
        ap_flux_flag: c2.7,
        ap_flux_flag_aperture_truncated: c3.0,
        snr: c3.1,
        psf_flux: c3.2,
        psf_flux_err: c3.3,
        psf_ra: c3.4,
        psf_ra_err: c3.5,
        psf_dec: c3.6,
        psf_dec_err: c3.7,
        psf_chi2: c4.0,
        psf_ndata: c4.1,
        psf_flux_flag: c4.2,
        psf_flux_flag_edge: c4.3,
        psf_flux_flag_no_good_pixels: c4.4,
        trail_flux: c4.5,
        trail_flux_err: c4.6,
        trail_ra: c4.7,
        trail_ra_err: c5.0,
        trail_dec: c5.1,
        trail_dec_err: c5.2,
        trail_length: c5.3,
        trail_length_err: c5.4,
        trail_angle: c5.5,
        trail_angle_err: c5.6,
        trail_chi2: c5.7,
        trail_ndata: c6.0,
        trail_flag_edge: c6.1,
        forced_psf_flux_flag: c6.2,
        forced_psf_flux_flag_edge: c6.3,
        forced_psf_flux_flag_no_good_pixels: c6.4,
        snap_diff_flux: c6.5,
        snap_diff_flux_err: c6.6,
        fp_bkgd: c6.7,
        fp_bkgd_err: c7.0,
        shape_flag: c7.1,
        shape_flag_no_pixels: c7.2,
        shape_flag_not_contained: c7.3,
        shape_flag_parent_source: c7.4,
        extendedness: c7.5,
        reliability: c7.6,
        band: c7.7,
        pixel_flags: c8.0,
        pixel_flags_bad: c8.1,
        pixel_flags_cr: c8.2,
        pixel_flags_cr_center: c8.3,
        pixel_flags_edge: c8.4,
        pixel_flags_interpolated: c8.5,
        pixel_flags_interpolated_center: c8.6,
        pixel_flags_offimage: c8.7,
        pixel_flags_saturated: c9.0,
        pixel_flags_saturated_center: c9.1,
        pixel_flags_suspect: c9.2,
        pixel_flags_suspect_center: c9.3,
        pixel_flags_streak: c9.4,
        pixel_flags_streak_center: c9.5,
        pixel_flags_injected: c9.6,
        pixel_flags_injected_center: c9.7,
        pixel_flags_injected_template: c10.0,
        pixel_flags_injected_template_center: c10.1,
        magpsf: None,
        sigmapsf: None,
        science_flux: None,
    };
    Some((v, p10))
}

#[verifier::rlimit(100)]
pub fn write_dia_source(out: &mut Vec<u8>, a: &DiaSource)
    requires
        encodable_dia_source(a@),
    ensures
        final(out)@ == old(out)@ + enc_dia_source(a@),
{
    proof {
        reveal(enc_dia_source);
    }
    write_ds_c1(out, a);
    assert(out@ =~= old(out)@ + (enc_ds_c1(a@)));
    write_ds_c2(out, a);
    assert(out@ =~= old(out)@ + (enc_ds_c1(a@) + enc_ds_c2(a@)));
    write_ds_c3(out, a);
    assert(out@ =~= old(out)@ + (enc_ds_c1(a@) + enc_ds_c2(a@) + enc_ds_c3(a@)));
    write_ds_c4(out, a);
    assert(out@ =~= old(out)@ + (enc_ds_c1(a@) + enc_ds_c2(a@) + enc_ds_c3(a@) + enc_ds_c4(a@)));
    write_ds_c5(out, a);
    assert(out@ =~= old(out)@ + (enc_ds_c1(a@) + enc_ds_c2(a@) + enc_ds_c3(a@) + enc_ds_c4(a@) + enc_ds_c5(a@)));
    write_ds_c6(out, a);
    assert(out@ =~= old(out)@ + (enc_ds_c1(a@) + enc_ds_c2(a@) + enc_ds_c3(a@) + enc_ds_c4(a@) + enc_ds_c5(a@) + enc_ds_c6(a@)));
    write_ds_c7(out, a);
    assert(out@ =~= old(out)@ + (enc_ds_c1(a@) + enc_ds_c2(a@) + enc_ds_c3(a@) + enc_ds_c4(a@) + enc_ds_c5(a@) + enc_ds_c6(a@) + enc_ds_c7(a@)));
    write_ds_c8(out, a);
    assert(out@ =~= old(out)@ + (enc_ds_c1(a@) + enc_ds_c2(a@) + enc_ds_c3(a@) + enc_ds_c4(a@) + enc_ds_c5(a@) + enc_ds_c6(a@) + enc_ds_c7(a@) + enc_ds_c8(a@)));
    write_ds_c9(out, a);
    assert(out@ =~= old(out)@ + (enc_ds_c1(a@) + enc_ds_c2(a@) + enc_ds_c3(a@) + enc_ds_c4(a@) + enc_ds_c5(a@) + enc_ds_c6(a@) + enc_ds_c7(a@) + enc_ds_c8(a@) + enc_ds_c9(a@)));
    write_ds_c10(out, a);
    assert(out@ =~= old(out)@ + (enc_ds_c1(a@) + enc_ds_c2(a@) + enc_ds_c3(a@) + enc_ds_c4(a@) + enc_ds_c5(a@) + enc_ds_c6(a@) + enc_ds_c7(a@) + enc_ds_c8(a@) + enc_ds_c9(a@) + enc_ds_c10(a@)));
}

// ---------------------------------------------------------------------------
// DiaObject
// ---------------------------------------------------------------------------

pub open spec fn enc_do_c1(a: DiaObjectSpec) -> Seq<u8> {
    enc_long(a.object_id)
        + enc_double(a.ra)
        + enc_opt_single(a.ra_err)
        + enc_double(a.dec)
        + enc_opt_single(a.dec_err)
        + enc_opt_double(a.radec_mjd_tai)
        + enc_opt_single(a.pm_ra)
        + enc_opt_single(a.pm_ra_err)
}

pub open spec fn dec_do_c1(s: Seq<u8>, i: int) -> Option<((i64, u64, Option<u32>, u64, Option<u32>, Option<u64>, Option<u32>, Option<u32>), int)> {
    match dec_long(s, i) {
        None => None,
        Some((f0, p0)) => {
            match dec_double(s, p0) {
                None => None,
                Some((f1, p1)) => {
                    match dec_opt_single(s, p1) {
                        None => None,
                        Some((f2, p2)) => {
                            match dec_double(s, p2) {
                                None => None,
                                Some((f3, p3)) => {
                                    match dec_opt_single(s, p3) {
                                        None => None,
                                        Some((f4, p4)) => {
                                            match dec_opt_double(s, p4) {
                                                None => None,
                                                Some((f5, p5)) => {
                                                    match dec_opt_single(s, p5) {
                                                        None => None,
                                                        Some((f6, p6)) => {
                                                            match dec_opt_single(s, p6) {
                                                                None => None,
                                                                Some((f7, p7)) => {
                                                                    Some(((f0, f1, f2, f3, f4, f5, f6, f7), p7))
                                                                },
                                                            }
                                                        },
                                                    }
                                                },
                                            }
                                        },
                                    }
                                },
                            }
                        },
                    }
                },
            }
        },
    }
}

pub proof fn lemma_dec_do_c1_range(s: Seq<u8>, i: int)
    ensures
        dec_do_c1(s, i) matches Some((v, j)) ==> i < j <= s.len(),
{
    lemma_dec_long_range(s, i);
    match dec_long(s, i) {
        None => {},
        Some((f0, p0)) => {
            lemma_dec_double_range(s, p0);
            match dec_double(s, p0) {
                None => {},
                Some((f1, p1)) => {
                    lemma_dec_opt_single_range(s, p1);
                    match dec_opt_single(s, p1) {
                        None => {},
                        Some((f2, p2)) => {
                            lemma_dec_double_range(s, p2);
                            match dec_double(s, p2) {
                                None => {},
                                Some((f3, p3)) => {
                                    lemma_dec_opt_single_range(s, p3);
                                    match dec_opt_single(s, p3) {
                                        None => {},
                                        Some((f4, p4)) => {
                                            lemma_dec_opt_double_range(s, p4);
                                            match dec_opt_double(s, p4) {
                                                None => {},
                                                Some((f5, p5)) => {
                                                    lemma_dec_opt_single_range(s, p5);
                                                    match dec_opt_single(s, p5) {
                                                        None => {},
                                                        Some((f6, p6)) => {
                                                            lemma_dec_opt_single_range(s, p6);
                                                            match dec_opt_single(s, p6) {
                                                                None => {},
                                                                Some((f7, p7)) => {
                                                                },
                                                            }
                                                        },
                                                    }
                                                },
                                            }
                                        },
                                    }
                                },
                            }
                        },
                    }
                },
            }
        },
    }
}

pub proof fn lemma_read_do_c1(a: DiaObjectSpec, s: Seq<u8>, i: int, rest: Seq<u8>)
    requires
        0 <= i <= s.len(),
        s.skip(i) == enc_do_c1(a) + rest,
    ensures
        i + enc_do_c1(a).len() <= s.len(),
        dec_do_c1(s, i) == Some(((a.object_id, a.ra, a.ra_err, a.dec, a.dec_err, a.radec_mjd_tai, a.pm_ra, a.pm_ra_err), i + enc_do_c1(a).len())),
        s.skip(i + enc_do_c1(a).len()) == rest,
{
    let t8 = rest;
    let t7 = enc_opt_single(a.pm_ra_err) + t8;
    let t6 = enc_opt_single(a.pm_ra) + t7;
    let t5 = enc_opt_double(a.radec_mjd_tai) + t6;
    let t4 = enc_opt_single(a.dec_err) + t5;
    let t3 = enc_double(a.dec) + t4;
    let t2 = enc_opt_single(a.ra_err) + t3;
    let t1 = enc_double(a.ra) + t2;
    lemma_concat_assoc(
        enc_long(a.object_id)
        + enc_double(a.ra)
        + enc_opt_single(a.ra_err)
        + enc_double(a.dec)
        + enc_opt_single(a.dec_err)
        + enc_opt_double(a.radec_mjd_tai)
        + enc_opt_single(a.pm_ra),
        enc_opt_single(a.pm_ra_err),
        t8,
    );
    lemma_concat_assoc(
        enc_long(a.object_id)
        + enc_double(a.ra)
        + enc_opt_single(a.ra_err)
        + enc_double(a.dec)
        + enc_opt_single(a.dec_err)
        + enc_opt_double(a.radec_mjd_tai),
        enc_opt_single(a.pm_ra),
        t7,
    );
    lemma_concat_assoc(
        enc_long(a.object_id)
        + enc_double(a.ra)
        + enc_opt_single(a.ra_err)
        + enc_double(a.dec)
        + enc_opt_single(a.dec_err),
        enc_opt_double(a.radec_mjd_tai),
        t6,
    );
    lemma_concat_assoc(
        enc_long(a.object_id)
        + enc_double(a.ra)
        + enc_opt_single(a.ra_err)
        + enc_double(a.dec),
        enc_opt_single(a.dec_err),
        t5,
    );
    lemma_concat_assoc(
        enc_long(a.object_id)
        + enc_double(a.ra)
        + enc_opt_single(a.ra_err),
        enc_double(a.dec),
        t4,
    );
    lemma_concat_assoc(
        enc_long(a.object_id)
        + enc_double(a.ra),
        enc_opt_single(a.ra_err),
        t3,
    );
    lemma_concat_assoc(
        enc_long(a.object_id),
        enc_double(a.ra),
        t2,
    );
    let i0 = i;
    lemma_read_long(a.object_id, s, i0, t1);
    let i1 = i0 + enc_long(a.object_id).len();
    lemma_read_double(a.ra, s, i1, t2);
    let i2 = i1 + enc_double(a.ra).len();
    lemma_read_opt_single(a.ra_err, s, i2, t3);
    let i3 = i2 + enc_opt_single(a.ra_err).len();
    lemma_read_double(a.dec, s, i3, t4);
    let i4 = i3 + enc_double(a.dec).len();
    lemma_read_opt_single(a.dec_err, s, i4, t5);
    let i5 = i4 + enc_opt_single(a.dec_err).len();
    lemma_read_opt_double(a.radec_mjd_tai, s, i5, t6);
    let i6 = i5 + enc_opt_double(a.radec_mjd_tai).len();
    lemma_read_opt_single(a.pm_ra, s, i6, t7);
    let i7 = i6 + enc_opt_single(a.pm_ra).len();
    lemma_read_opt_single(a.pm_ra_err, s, i7, t8);
    let i8 = i7 + enc_opt_single(a.pm_ra_err).len();
    assert(i8 == i + enc_do_c1(a).len());
}

pub fn read_do_c1(bytes: &[u8], pos: usize) -> (r: Option<((i64, u64, Option<u32>, u64, Option<u32>, Option<u64>, Option<u32>, Option<u32>), usize)>)
    ensures
        match r {
            Some((v, j)) => dec_do_c1(bytes@, pos as int) == Some(((v.0, v.1, v.2, v.3, v.4, v.5, v.6, v.7), j as int)),
            None => dec_do_c1(bytes@, pos as int) is None,
        },
{
    let (f0, p0) = read_long(bytes, pos)?;
    let (f1, p1) = read_double(bytes, p0)?;
    let (f2, p2) = read_opt_single(bytes, p1)?;
    let (f3, p3) = read_double(bytes, p2)?;
    let (f4, p4) = read_opt_single(bytes, p3)?;
    let (f5, p5) = read_opt_double(bytes, p4)?;
    let (f6, p6) = read_opt_single(bytes, p5)?;
    let (f7, p7) = read_opt_single(bytes, p6)?;
    Some(((f0, f1, f2, f3, f4, f5, f6, f7), p7))
}

#[verifier::rlimit(100)]
pub fn write_do_c1(out: &mut Vec<u8>, a: &DiaObject)
    ensures
        final(out)@ == old(out)@ + enc_do_c1(a@),
{
    write_long(out, a.object_id);
    assert(out@ =~= old(out)@ + (enc_long(a@.object_id)));
    write_double(out, a.ra);
    assert(out@ =~= old(out)@ + (enc_long(a@.object_id)
        + enc_double(a@.ra)));
    write_opt_single(out, a.ra_err);
    assert(out@ =~= old(out)@ + (enc_long(a@.object_id)
        + enc_double(a@.ra)
        + enc_opt_single(a@.ra_err)));
    write_double(out, a.dec);
    assert(out@ =~= old(out)@ + (enc_long(a@.object_id)
        + enc_double(a@.ra)
        + enc_opt_single(a@.ra_err)
        + enc_double(a@.dec)));
    write_opt_single(out, a.dec_err);
    assert(out@ =~= old(out)@ + (enc_long(a@.object_id)
        + enc_double(a@.ra)
        + enc_opt_single(a@.ra_err)
        + enc_double(a@.dec)
        + enc_opt_single(a@.dec_err)));
    write_opt_double(out, a.radec_mjd_tai);
    assert(out@ =~= old(out)@ + (enc_long(a@.object_id)
        + enc_double(a@.ra)
        + enc_opt_single(a@.ra_err)
        + enc_double(a@.dec)
        + enc_opt_single(a@.dec_err)
        + enc_opt_double(a@.radec_mjd_tai)));
    write_opt_single(out, a.pm_ra);
    assert(out@ =~= old(out)@ + (enc_long(a@.object_id)
        + enc_double(a@.ra)
        + enc_opt_single(a@.ra_err)
        + enc_double(a@.dec)
        + enc_opt_single(a@.dec_err)
        + enc_opt_double(a@.radec_mjd_tai)
        + enc_opt_single(a@.pm_ra)));
    write_opt_single(out, a.pm_ra_err);
    assert(out@ =~= old(out)@ + (enc_long(a@.object_id)
        + enc_double(a@.ra)
        + enc_opt_single(a@.ra_err)
        + enc_double(a@.dec)
        + enc_opt_single(a@.dec_err)
        + enc_opt_double(a@.radec_mjd_tai)
        + enc_opt_single(a@.pm_ra)
        + enc_opt_single(a@.pm_ra_err)));
}

pub open spec fn enc_do_c2(a: DiaObjectSpec) -> Seq<u8> {
    enc_opt_single(a.pm_dec)
        + enc_opt_single(a.pm_dec_err)
        + enc_opt_single(a.parallax)
        + enc_opt_single(a.parallax_err)
        + enc_opt_single(a.pm_parallax_chi2)
        + enc_opt_int(a.pm_parallax_ndata)
        + enc_opt_single(a.u_psf_flux_mean)
        + enc_opt_single(a.u_psf_flux_mean_err)
}

pub open spec fn dec_do_c2(s: Seq<u8>, i: int) -> Option<((Option<u32>, Option<u32>, Option<u32>, Option<u32>, Option<u32>, Option<i32>, Option<u32>, Option<u32>), int)> {
    match dec_opt_single(s, i) {
        None => None,
        Some((f0, p0)) => {
            match dec_opt_single(s, p0) {
                None => None,
                Some((f1, p1)) => {
                    match dec_opt_single(s, p1) {
                        None => None,
                        Some((f2, p2)) => {
                            match dec_opt_single(s, p2) {
                                None => None,
                                Some((f3, p3)) => {
                                    match dec_opt_single(s, p3) {
                                        None => None,
                                        Some((f4, p4)) => {
                                            match dec_opt_int(s, p4) {
                                                None => None,
                                                Some((f5, p5)) => {
                                                    match dec_opt_single(s, p5) {
                                                        None => None,
                                                        Some((f6, p6)) => {
                                                            match dec_opt_single(s, p6) {
                                                                None => None,
                                                                Some((f7, p7)) => {
                                                                    Some(((f0, f1, f2, f3, f4, f5, f6, f7), p7))
                                                                },
                                                            }
                                                        },
                                                    }
                                                },
                                            }
                                        },
                                    }
                                },
                            }
                        },
                    }
                },
            }
        },
    }
}

pub proof fn lemma_dec_do_c2_range(s: Seq<u8>, i: int)
    ensures
        dec_do_c2(s, i) matches Some((v, j)) ==> i < j <= s.len(),
{
    lemma_dec_opt_single_range(s, i);
    match dec_opt_single(s, i) {
        None => {},
        Some((f0, p0)) => {
            lemma_dec_opt_single_range(s, p0);
            match dec_opt_single(s, p0) {
                None => {},
                Some((f1, p1)) => {
                    lemma_dec_opt_single_range(s, p1);
                    match dec_opt_single(s, p1) {
                        None => {},
                        Some((f2, p2)) => {
                            lemma_dec_opt_single_range(s, p2);
                            match dec_opt_single(s, p2) {
                                None => {},
                                Some((f3, p3)) => {
                                    lemma_dec_opt_single_range(s, p3);
                                    match dec_opt_single(s, p3) {
                                        None => {},
                                        Some((f4, p4)) => {
                                            lemma_dec_opt_int_range(s, p4);
                                            match dec_opt_int(s, p4) {
                                                None => {},
                                                Some((f5, p5)) => {
                                                    lemma_dec_opt_single_range(s, p5);
                                                    match dec_opt_single(s, p5) {
                                                        None => {},
                                                        Some((f6, p6)) => {
                                                            lemma_dec_opt_single_range(s, p6);
                                                            match dec_opt_single(s, p6) {
                                                                None => {},
                                                                Some((f7, p7)) => {
                                                                },
                                                            }
                                                        },
                                                    }
                                                },
                                            }
                                        },
                                    }
                                },
                            }
                        },
                    }
                },
            }
        },
    }
}

pub proof fn lemma_read_do_c2(a: DiaObjectSpec, s: Seq<u8>, i: int, rest: Seq<u8>)
    requires
        0 <= i <= s.len(),
        s.skip(i) == enc_do_c2(a) + rest,
    ensures
        i + enc_do_c2(a).len() <= s.len(),
        dec_do_c2(s, i) == Some(((a.pm_dec, a.pm_dec_err, a.parallax, a.parallax_err, a.pm_parallax_chi2, a.pm_parallax_ndata, a.u_psf_flux_mean, a.u_psf_flux_mean_err), i + enc_do_c2(a).len())),
        s.skip(i + enc_do_c2(a).len()) == rest,
{
    let t8 = rest;
    let t7 = enc_opt_single(a.u_psf_flux_mean_err) + t8;
    let t6 = enc_opt_single(a.u_psf_flux_mean) + t7;
    let t5 = enc_opt_int(a.pm_parallax_ndata) + t6;
    let t4 = enc_opt_single(a.pm_parallax_chi2) + t5;
    let t3 = enc_opt_single(a.parallax_err) + t4;
    let t2 = enc_opt_single(a.parallax) + t3;
    let t1 = enc_opt_single(a.pm_dec_err) + t2;
    lemma_concat_assoc(
        enc_opt_single(a.pm_dec)
        + enc_opt_single(a.pm_dec_err)
        + enc_opt_single(a.parallax)
        + enc_opt_single(a.parallax_err)
        + enc_opt_single(a.pm_parallax_chi2)
        + enc_opt_int(a.pm_parallax_ndata)
        + enc_opt_single(a.u_psf_flux_mean),
        enc_opt_single(a.u_psf_flux_mean_err),
        t8,
    );
    lemma_concat_assoc(
        enc_opt_single(a.pm_dec)
        + enc_opt_single(a.pm_dec_err)
        + enc_opt_single(a.parallax)
        + enc_opt_single(a.parallax_err)
        + enc_opt_single(a.pm_parallax_chi2)
        + enc_opt_int(a.pm_parallax_ndata),
        enc_opt_single(a.u_psf_flux_mean),
        t7,
    );
    lemma_concat_assoc(
        enc_opt_single(a.pm_dec)
        + enc_opt_single(a.pm_dec_err)
        + enc_opt_single(a.parallax)
        + enc_opt_single(a.parallax_err)
        + enc_opt_single(a.pm_parallax_chi2),
        enc_opt_int(a.pm_parallax_ndata),
        t6,
    );
    lemma_concat_assoc(
        enc_opt_single(a.pm_dec)
        + enc_opt_single(a.pm_dec_err)
        + enc_opt_single(a.parallax)
        + enc_opt_single(a.parallax_err),
        enc_opt_single(a.pm_parallax_chi2),
        t5,
    );
    lemma_concat_assoc(
        enc_opt_single(a.pm_dec)
        + enc_opt_single(a.pm_dec_err)
        + enc_opt_single(a.parallax),
        enc_opt_single(a.parallax_err),
        t4,
    );
    lemma_concat_assoc(
        enc_opt_single(a.pm_dec)
        + enc_opt_single(a.pm_dec_err),
        enc_opt_single(a.parallax),
        t3,
    );
    lemma_concat_assoc(
        enc_opt_single(a.pm_dec),
        enc_opt_single(a.pm_dec_err),
        t2,
    );
    let i0 = i;
    lemma_read_opt_single(a.pm_dec, s, i0, t1);
    let i1 = i0 + enc_opt_single(a.pm_dec).len();
    lemma_read_opt_single(a.pm_dec_err, s, i1, t2);
    let i2 = i1 + enc_opt_single(a.pm_dec_err).len();
    lemma_read_opt_single(a.parallax, s, i2, t3);
    let i3 = i2 + enc_opt_single(a.parallax).len();
    lemma_read_opt_single(a.parallax_err, s, i3, t4);
    let i4 = i3 + enc_opt_single(a.parallax_err).len();
    lemma_read_opt_single(a.pm_parallax_chi2, s, i4, t5);
    let i5 = i4 + enc_opt_single(a.pm_parallax_chi2).len();
    lemma_read_opt_int(a.pm_parallax_ndata, s, i5, t6);
    let i6 = i5 + enc_opt_int(a.pm_parallax_ndata).len();
    lemma_read_opt_single(a.u_psf_flux_mean, s, i6, t7);
    let i7 = i6 + enc_opt_single(a.u_psf_flux_mean).len();
    lemma_read_opt_single(a.u_psf_flux_mean_err, s, i7, t8);
    let i8 = i7 + enc_opt_single(a.u_psf_flux_mean_err).len();
    assert(i8 == i + enc_do_c2(a).len());
}

pub fn read_do_c2(bytes: &[u8], pos: usize) -> (r: Option<((Option<u32>, Option<u32>, Option<u32>, Option<u32>, Option<u32>, Option<i32>, Option<u32>, Option<u32>), usize)>)
    ensures
        match r {
            Some((v, j)) => dec_do_c2(bytes@, pos as int) == Some(((v.0, v.1, v.2, v.3, v.4, v.5, v.6, v.7), j as int)),
            None => dec_do_c2(bytes@, pos as int) is None,
        },
{
    let (f0, p0) = read_opt_single(bytes, pos)?;
    let (f1, p1) = read_opt_single(bytes, p0)?;
    let (f2, p2) = read_opt_single(bytes, p1)?;
    let (f3, p3) = read_opt_single(bytes, p2)?;
    let (f4, p4) = read_opt_single(bytes, p3)?;
    let (f5, p5) = read_opt_int(bytes, p4)?;
    let (f6, p6) = read_opt_single(bytes, p5)?;
    let (f7, p7) = read_opt_single(bytes, p6)?;
    Some(((f0, f1, f2, f3, f4, f5, f6, f7), p7))
}

#[verifier::rlimit(100)]
pub fn write_do_c2(out: &mut Vec<u8>, a: &DiaObject)
    ensures
        final(out)@ == old(out)@ + enc_do_c2(a@),
{
    write_opt_single(out, a.pm_dec);
    assert(out@ =~= old(out)@ + (enc_opt_single(a@.pm_dec)));
    write_opt_single(out, a.pm_dec_err);
    assert(out@ =~= old(out)@ + (enc_opt_single(a@.pm_dec)
        + enc_opt_single(a@.pm_dec_err)));
    write_opt_single(out, a.parallax);
    assert(out@ =~= old(out)@ + (enc_opt_single(a@.pm_dec)
        + enc_opt_single(a@.pm_dec_err)
        + enc_opt_single(a@.parallax)));
    write_opt_single(out, a.parallax_err);
    assert(out@ =~= old(out)@ + (enc_opt_single(a@.pm_dec)
        + enc_opt_single(a@.pm_dec_err)
        + enc_opt_single(a@.parallax)
        + enc_opt_single(a@.parallax_err)));
    write_opt_single(out, a.pm_parallax_chi2);
    assert(out@ =~= old(out)@ + (enc_opt_single(a@.pm_dec)
        + enc_opt_single(a@.pm_dec_err)
        + enc_opt_single(a@.parallax)
        + enc_opt_single(a@.parallax_err)
        + enc_opt_single(a@.pm_parallax_chi2)));
    write_opt_int(out, a.pm_parallax_ndata);
    assert(out@ =~= old(out)@ + (enc_opt_single(a@.pm_dec)
        + enc_opt_single(a@.pm_dec_err)
        + enc_opt_single(a@.parallax)
        + enc_opt_single(a@.parallax_err)
        + enc_opt_single(a@.pm_parallax_chi2)
        + enc_opt_int(a@.pm_parallax_ndata)));
    write_opt_single(out, a.u_psf_flux_mean);
    assert(out@ =~= old(out)@ + (enc_opt_single(a@.pm_dec)
        + enc_opt_single(a@.pm_dec_err)
        + enc_opt_single(a@.parallax)
        + enc_opt_single(a@.parallax_err)
        + enc_opt_single(a@.pm_parallax_chi2)
        + enc_opt_int(a@.pm_parallax_ndata)
        + enc_opt_single(a@.u_psf_flux_mean)));
    write_opt_single(out, a.u_psf_flux_mean_err);
    assert(out@ =~= old(out)@ + (enc_opt_single(a@.pm_dec)
        + enc_opt_single(a@.pm_dec_err)
        + enc_opt_single(a@.parallax)
        + enc_opt_single(a@.parallax_err)
        + enc_opt_single(a@.pm_parallax_chi2)
        + enc_opt_int(a@.pm_parallax_ndata)
        + enc_opt_single(a@.u_psf_flux_mean)
        + enc_opt_single(a@.u_psf_flux_mean_err)));
}

pub open spec fn enc_do_c3(a: DiaObjectSpec) -> Seq<u8> {
    enc_opt_single(a.u_psf_flux_chi2)
        + enc_opt_int(a.u_psf_flux_ndata)
        + enc_opt_single(a.u_fp_flux_mean)
        + enc_opt_single(a.u_fp_flux_mean_err)
        + enc_opt_single(a.g_psf_flux_mean)
        + enc_opt_single(a.g_psf_flux_mean_err)
        + enc_opt_single(a.g_psf_flux_chi2)
        + enc_opt_int(a.g_psf_flux_ndata)
}

pub open spec fn dec_do_c3(s: Seq<u8>, i: int) -> Option<((Option<u32>, Option<i32>, Option<u32>, Option<u32>, Option<u32>, Option<u32>, Option<u32>, Option<i32>), int)> {
    match dec_opt_single(s, i) {
        None => None,
        Some((f0, p0)) => {
            match dec_opt_int(s, p0) {
                None => None,
                Some((f1, p1)) => {
                    match dec_opt_single(s, p1) {
                        None => None,
                        Some((f2, p2)) => {
                            match dec_opt_single(s, p2) {
                                None => None,
                                Some((f3, p3)) => {
                                    match dec_opt_single(s, p3) {
                                        None => None,
                                        Some((f4, p4)) => {
                                            match dec_opt_single(s, p4) {
                                                None => None,
                                                Some((f5, p5)) => {
                                                    match dec_opt_single(s, p5) {
                                                        None => None,
                                                        Some((f6, p6)) => {
                                                            match dec_opt_int(s, p6) {
                                                                None => None,
                                                                Some((f7, p7)) => {
                                                                    Some(((f0, f1, f2, f3, f4, f5, f6, f7), p7))
                                                                },
                                                            }
                                                        },
                                                    }
                                                },
                                            }
                                        },
                                    }
                                },
                            }
                        },
                    }
                },
            }
        },
    }
}

pub proof fn lemma_dec_do_c3_range(s: Seq<u8>, i: int)
    ensures
        dec_do_c3(s, i) matches Some((v, j)) ==> i < j <= s.len(),
{
    lemma_dec_opt_single_range(s, i);
    match dec_opt_single(s, i) {
        None => {},
        Some((f0, p0)) => {
            lemma_dec_opt_int_range(s, p0);
            match dec_opt_int(s, p0) {
                None => {},
                Some((f1, p1)) => {
                    lemma_dec_opt_single_range(s, p1);
                    match dec_opt_single(s, p1) {
                        None => {},
                        Some((f2, p2)) => {
                            lemma_dec_opt_single_range(s, p2);
                            match dec_opt_single(s, p2) {
                                None => {},
                                Some((f3, p3)) => {
                                    lemma_dec_opt_single_range(s, p3);
                                    match dec_opt_single(s, p3) {
                                        None => {},
                                        Some((f4, p4)) => {
                                            lemma_dec_opt_single_range(s, p4);
                                            match dec_opt_single(s, p4) {
                                                None => {},
                                                Some((f5, p5)) => {
                                                    lemma_dec_opt_single_range(s, p5);
                                                    match dec_opt_single(s, p5) {
                                                        None => {},
                                                        Some((f6, p6)) => {
                                                            lemma_dec_opt_int_range(s, p6);
                                                            match dec_opt_int(s, p6) {
                                                                None => {},
                                                                Some((f7, p7)) => {
                                                                },
                                                            }
                                                        },
                                                    }
                                                },
                                            }
                                        },
                                    }
                                },
                            }
                        },
                    }
                },
            }
        },
    }
}

pub proof fn lemma_read_do_c3(a: DiaObjectSpec, s: Seq<u8>, i: int, rest: Seq<u8>)
    requires
        0 <= i <= s.len(),
        s.skip(i) == enc_do_c3(a) + rest,
    ensures
        i + enc_do_c3(a).len() <= s.len(),
        dec_do_c3(s, i) == Some(((a.u_psf_flux_chi2, a.u_psf_flux_ndata, a.u_fp_flux_mean, a.u_fp_flux_mean_err, a.g_psf_flux_mean, a.g_psf_flux_mean_err, a.g_psf_flux_chi2, a.g_psf_flux_ndata), i + enc_do_c3(a).len())),
        s.skip(i + enc_do_c3(a).len()) == rest,
{
    let t8 = rest;
    let t7 = enc_opt_int(a.g_psf_flux_ndata) + t8;
    let t6 = enc_opt_single(a.g_psf_flux_chi2) + t7;
    let t5 = enc_opt_single(a.g_psf_flux_mean_err) + t6;
    let t4 = enc_opt_single(a.g_psf_flux_mean) + t5;
    let t3 = enc_opt_single(a.u_fp_flux_mean_err) + t4;
    let t2 = enc_opt_single(a.u_fp_flux_mean) + t3;
    let t1 = enc_opt_int(a.u_psf_flux_ndata) + t2;
    lemma_concat_assoc(
        enc_opt_single(a.u_psf_flux_chi2)
        + enc_opt_int(a.u_psf_flux_ndata)
        + enc_opt_single(a.u_fp_flux_mean)
        + enc_opt_single(a.u_fp_flux_mean_err)
        + enc_opt_single(a.g_psf_flux_mean)
        + enc_opt_single(a.g_psf_flux_mean_err)
        + enc_opt_single(a.g_psf_flux_chi2),
        enc_opt_int(a.g_psf_flux_ndata),
        t8,
    );
    lemma_concat_assoc(
        enc_opt_single(a.u_psf_flux_chi2)
        + enc_opt_int(a.u_psf_flux_ndata)
        + enc_opt_single(a.u_fp_flux_mean)
        + enc_opt_single(a.u_fp_flux_mean_err)
        + enc_opt_single(a.g_psf_flux_mean)
        + enc_opt_single(a.g_psf_flux_mean_err),
        enc_opt_single(a.g_psf_flux_chi2),
        t7,
    );
    lemma_concat_assoc(
        enc_opt_single(a.u_psf_flux_chi2)
        + enc_opt_int(a.u_psf_flux_ndata)
        + enc_opt_single(a.u_fp_flux_mean)
        + enc_opt_single(a.u_fp_flux_mean_err)
        + enc_opt_single(a.g_psf_flux_mean),
        enc_opt_single(a.g_psf_flux_mean_err),
        t6,
    );
    lemma_concat_assoc(
        enc_opt_single(a.u_psf_flux_chi2)
        + enc_opt_int(a.u_psf_flux_ndata)
        + enc_opt_single(a.u_fp_flux_mean)
        + enc_opt_single(a.u_fp_flux_mean_err),
        enc_opt_single(a.g_psf_flux_mean),
        t5,
    );
    lemma_concat_assoc(
        enc_opt_single(a.u_psf_flux_chi2)
        + enc_opt_int(a.u_psf_flux_ndata)
        + enc_opt_single(a.u_fp_flux_mean),
        enc_opt_single(a.u_fp_flux_mean_err),
        t4,
    );
    lemma_concat_assoc(
        enc_opt_single(a.u_psf_flux_chi2)
        + enc_opt_int(a.u_psf_flux_ndata),
        enc_opt_single(a.u_fp_flux_mean),
        t3,
    );
    lemma_concat_assoc(
        enc_opt_single(a.u_psf_flux_chi2),
        enc_opt_int(a.u_psf_flux_ndata),
        t2,
    );
    let i0 = i;
    lemma_read_opt_single(a.u_psf_flux_chi2, s, i0, t1);
    let i1 = i0 + enc_opt_single(a.u_psf_flux_chi2).len();
    lemma_read_opt_int(a.u_psf_flux_ndata, s, i1, t2);
    let i2 = i1 + enc_opt_int(a.u_psf_flux_ndata).len();
    lemma_read_opt_single(a.u_fp_flux_mean, s, i2, t3);
    let i3 = i2 + enc_opt_single(a.u_fp_flux_mean).len();
    lemma_read_opt_single(a.u_fp_flux_mean_err, s, i3, t4);
    let i4 = i3 + enc_opt_single(a.u_fp_flux_mean_err).len();
    lemma_read_opt_single(a.g_psf_flux_mean, s, i4, t5);
    let i5 = i4 + enc_opt_single(a.g_psf_flux_mean).len();
    lemma_read_opt_single(a.g_psf_flux_mean_err, s, i5, t6);
    let i6 = i5 + enc_opt_single(a.g_psf_flux_mean_err).len();
    lemma_read_opt_single(a.g_psf_flux_chi2, s, i6, t7);
    let i7 = i6 + enc_opt_single(a.g_psf_flux_chi2).len();
    lemma_read_opt_int(a.g_psf_flux_ndata, s, i7, t8);
    let i8 = i7 + enc_opt_int(a.g_psf_flux_ndata).len();
    assert(i8 == i + enc_do_c3(a).len());
}

pub fn read_do_c3(bytes: &[u8], pos: usize) -> (r: Option<((Option<u32>, Option<i32>, Option<u32>, Option<u32>, Option<u32>, Option<u32>, Option<u32>, Option<i32>), usize)>)
    ensures
        match r {
            Some((v, j)) => dec_do_c3(bytes@, pos as int) == Some(((v.0, v.1, v.2, v.3, v.4, v.5, v.6, v.7), j as int)),
            None => dec_do_c3(bytes@, pos as int) is None,
        },
{
    let (f0, p0) = read_opt_single(bytes, pos)?;
    let (f1, p1) = read_opt_int(bytes, p0)?;
    let (f2, p2) = read_opt_single(bytes, p1)?;
    let (f3, p3) = read_opt_single(bytes, p2)?;
    let (f4, p4) = read_opt_single(bytes, p3)?;
    let (f5, p5) = read_opt_single(bytes, p4)?;
    let (f6, p6) = read_opt_single(bytes, p5)?;
    let (f7, p7) = read_opt_int(bytes, p6)?;
    Some(((f0, f1, f2, f3, f4, f5, f6, f7), p7))
}

#[verifier::rlimit(100)]
pub fn write_do_c3(out: &mut Vec<u8>, a: &DiaObject)
    ensures
        final(out)@ == old(out)@ + enc_do_c3(a@),
{
    write_opt_single(out, a.u_psf_flux_chi2);
    assert(out@ =~= old(out)@ + (enc_opt_single(a@.u_psf_flux_chi2)));
    write_opt_int(out, a.u_psf_flux_ndata);
    assert(out@ =~= old(out)@ + (enc_opt_single(a@.u_psf_flux_chi2)
        + enc_opt_int(a@.u_psf_flux_ndata)));
    write_opt_single(out, a.u_fp_flux_mean);
    assert(out@ =~= old(out)@ + (enc_opt_single(a@.u_psf_flux_chi2)
        + enc_opt_int(a@.u_psf_flux_ndata)
        + enc_opt_single(a@.u_fp_flux_mean)));
    write_opt_single(out, a.u_fp_flux_mean_err);
    assert(out@ =~= old(out)@ + (enc_opt_single(a@.u_psf_flux_chi2)
        + enc_opt_int(a@.u_psf_flux_ndata)
        + enc_opt_single(a@.u_fp_flux_mean)
        + enc_opt_single(a@.u_fp_flux_mean_err)));
    write_opt_single(out, a.g_psf_flux_mean);
    assert(out@ =~= old(out)@ + (enc_opt_single(a@.u_psf_flux_chi2)
        + enc_opt_int(a@.u_psf_flux_ndata)
        + enc_opt_single(a@.u_fp_flux_mean)
        + enc_opt_single(a@.u_fp_flux_mean_err)
        + enc_opt_single(a@.g_psf_flux_mean)));
    write_opt_single(out, a.g_psf_flux_mean_err);
    assert(out@ =~= old(out)@ + (enc_opt_single(a@.u_psf_flux_chi2)
        + enc_opt_int(a@.u_psf_flux_ndata)
        + enc_opt_single(a@.u_fp_flux_mean)
        + enc_opt_single(a@.u_fp_flux_mean_err)
        + enc_opt_single(a@.g_psf_flux_mean)
        + enc_opt_single(a@.g_psf_flux_mean_err)));
    write_opt_single(out, a.g_psf_flux_chi2);
    assert(out@ =~= old(out)@ + (enc_opt_single(a@.u_psf_flux_chi2)
        + enc_opt_int(a@.u_psf_flux_ndata)
        + enc_opt_single(a@.u_fp_flux_mean)
        + enc_opt_single(a@.u_fp_flux_mean_err)
        + enc_opt_single(a@.g_psf_flux_mean)
        + enc_opt_single(a@.g_psf_flux_mean_err)
        + enc_opt_single(a@.g_psf_flux_chi2)));
    write_opt_int(out, a.g_psf_flux_ndata);
    assert(out@ =~= old(out)@ + (enc_opt_single(a@.u_psf_flux_chi2)
        + enc_opt_int(a@.u_psf_flux_ndata)
        + enc_opt_single(a@.u_fp_flux_mean)
        + enc_opt_single(a@.u_fp_flux_mean_err)
        + enc_opt_single(a@.g_psf_flux_mean)
        + enc_opt_single(a@.g_psf_flux_mean_err)
        + enc_opt_single(a@.g_psf_flux_chi2)
        + enc_opt_int(a@.g_psf_flux_ndata)));
}

pub open spec fn enc_do_c4(a: DiaObjectSpec) -> Seq<u8> {
    enc_opt_single(a.g_fp_flux_mean)
        + enc_opt_single(a.g_fp_flux_mean_err)
        + enc_opt_single(a.r_psf_flux_mean)
        + enc_opt_single(a.r_psf_flux_mean_err)
        + enc_opt_single(a.r_psf_flux_chi2)
        + enc_opt_int(a.r_psf_flux_ndata)
        + enc_opt_single(a.r_fp_flux_mean)
        + enc_opt_single(a.r_fp_flux_mean_err)
}

pub open spec fn dec_do_c4(s: Seq<u8>, i: int) -> Option<((Option<u32>, Option<u32>, Option<u32>, Option<u32>, Option<u32>, Option<i32>, Option<u32>, Option<u32>), int)> {
    match dec_opt_single(s, i) {
        None => None,
        Some((f0, p0)) => {
            match dec_opt_single(s, p0) {
                None => None,
                Some((f1, p1)) => {
                    match dec_opt_single(s, p1) {
                        None => None,
                        Some((f2, p2)) => {
                            match dec_opt_single(s, p2) {
                                None => None,
                                Some((f3, p3)) => {
                                    match dec_opt_single(s, p3) {
                                        None => None,
                                        Some((f4, p4)) => {
                                            match dec_opt_int(s, p4) {
                                                None => None,
                                                Some((f5, p5)) => {
                                                    match dec_opt_single(s, p5) {
                                                        None => None,
                                                        Some((f6, p6)) => {
                                                            match dec_opt_single(s, p6) {
                                                                None => None,
                                                                Some((f7, p7)) => {
                                                                    Some(((f0, f1, f2, f3, f4, f5, f6, f7), p7))
                                                                },
                                                            }
                                                        },
                                                    }
                                                },
                                            }
                                        },
                                    }
                                },
                            }
                        },
                    }
                },
            }
        },
    }
}

pub proof fn lemma_dec_do_c4_range(s: Seq<u8>, i: int)
    ensures
        dec_do_c4(s, i) matches Some((v, j)) ==> i < j <= s.len(),
{
    lemma_dec_opt_single_range(s, i);
    match dec_opt_single(s, i) {
        None => {},
        Some((f0, p0)) => {
            lemma_dec_opt_single_range(s, p0);
            match dec_opt_single(s, p0) {
                None => {},
                Some((f1, p1)) => {
                    lemma_dec_opt_single_range(s, p1);
                    match dec_opt_single(s, p1) {
                        None => {},
                        Some((f2, p2)) => {
                            lemma_dec_opt_single_range(s, p2);
                            match dec_opt_single(s, p2) {
                                None => {},
                                Some((f3, p3)) => {
                                    lemma_dec_opt_single_range(s, p3);
                                    match dec_opt_single(s, p3) {
                                        None => {},
                                        Some((f4, p4)) => {
                                            lemma_dec_opt_int_range(s, p4);
                                            match dec_opt_int(s, p4) {
                                                None => {},
                                                Some((f5, p5)) => {
                                                    lemma_dec_opt_single_range(s, p5);
                                                    match dec_opt_single(s, p5) {
                                                        None => {},
                                                        Some((f6, p6)) => {
                                                            lemma_dec_opt_single_range(s, p6);
                                                            match dec_opt_single(s, p6) {
                                                                None => {},
                                                                Some((f7, p7)) => {
                                                                },
                                                            }
                                                        },
                                                    }
                                                },
                                            }
                                        },
                                    }
                                },
                            }
                        },
                    }
                },
            }
        },
    }
}

pub proof fn lemma_read_do_c4(a: DiaObjectSpec, s: Seq<u8>, i: int, rest: Seq<u8>)
    requires
        0 <= i <= s.len(),
        s.skip(i) == enc_do_c4(a) + rest,
    ensures
        i + enc_do_c4(a).len() <= s.len(),
        dec_do_c4(s, i) == Some(((a.g_fp_flux_mean, a.g_fp_flux_mean_err, a.r_psf_flux_mean, a.r_psf_flux_mean_err, a.r_psf_flux_chi2, a.r_psf_flux_ndata, a.r_fp_flux_mean, a.r_fp_flux_mean_err), i + enc_do_c4(a).len())),
        s.skip(i + enc_do_c4(a).len()) == rest,
{
    let t8 = rest;
    let t7 = enc_opt_single(a.r_fp_flux_mean_err) + t8;
    let t6 = enc_opt_single(a.r_fp_flux_mean) + t7;
    let t5 = enc_opt_int(a.r_psf_flux_ndata) + t6;
    let t4 = enc_opt_single(a.r_psf_flux_chi2) + t5;
    let t3 = enc_opt_single(a.r_psf_flux_mean_err) + t4;
    let t2 = enc_opt_single(a.r_psf_flux_mean) + t3;
    let t1 = enc_opt_single(a.g_fp_flux_mean_err) + t2;
    lemma_concat_assoc(
        enc_opt_single(a.g_fp_flux_mean)
        + enc_opt_single(a.g_fp_flux_mean_err)
        + enc_opt_single(a.r_psf_flux_mean)
        + enc_opt_single(a.r_psf_flux_mean_err)
        + enc_opt_single(a.r_psf_flux_chi2)
        + enc_opt_int(a.r_psf_flux_ndata)
        + enc_opt_single(a.r_fp_flux_mean),
        enc_opt_single(a.r_fp_flux_mean_err),
        t8,
    );
    lemma_concat_assoc(
        enc_opt_single(a.g_fp_flux_mean)
        + enc_opt_single(a.g_fp_flux_mean_err)
        + enc_opt_single(a.r_psf_flux_mean)
        + enc_opt_single(a.r_psf_flux_mean_err)
        + enc_opt_single(a.r_psf_flux_chi2)
        + enc_opt_int(a.r_psf_flux_ndata),
        enc_opt_single(a.r_fp_flux_mean),
        t7,
    );
    lemma_concat_assoc(
        enc_opt_single(a.g_fp_flux_mean)
        + enc_opt_single(a.g_fp_flux_mean_err)
        + enc_opt_single(a.r_psf_flux_mean)
        + enc_opt_single(a.r_psf_flux_mean_err)
        + enc_opt_single(a.r_psf_flux_chi2),
        enc_opt_int(a.r_psf_flux_ndata),
        t6,
    );
    lemma_concat_assoc(
        enc_opt_single(a.g_fp_flux_mean)
        + enc_opt_single(a.g_fp_flux_mean_err)
        + enc_opt_single(a.r_psf_flux_mean)
        + enc_opt_single(a.r_psf_flux_mean_err),
        enc_opt_single(a.r_psf_flux_chi2),
        t5,
    );
    lemma_concat_assoc(
        enc_opt_single(a.g_fp_flux_mean)
        + enc_opt_single(a.g_fp_flux_mean_err)
        + enc_opt_single(a.r_psf_flux_mean),
        enc_opt_single(a.r_psf_flux_mean_err),
        t4,
    );
    lemma_concat_assoc(
        enc_opt_single(a.g_fp_flux_mean)
        + enc_opt_single(a.g_fp_flux_mean_err),
        enc_opt_single(a.r_psf_flux_mean),
        t3,
    );
    lemma_concat_assoc(
        enc_opt_single(a.g_fp_flux_mean),
        enc_opt_single(a.g_fp_flux_mean_err),
        t2,
    );
    let i0 = i;
    lemma_read_opt_single(a.g_fp_flux_mean, s, i0, t1);
    let i1 = i0 + enc_opt_single(a.g_fp_flux_mean).len();
    lemma_read_opt_single(a.g_fp_flux_mean_err, s, i1, t2);
    let i2 = i1 + enc_opt_single(a.g_fp_flux_mean_err).len();
    lemma_read_opt_single(a.r_psf_flux_mean, s, i2, t3);
    let i3 = i2 + enc_opt_single(a.r_psf_flux_mean).len();
    lemma_read_opt_single(a.r_psf_flux_mean_err, s, i3, t4);
    let i4 = i3 + enc_opt_single(a.r_psf_flux_mean_err).len();
    lemma_read_opt_single(a.r_psf_flux_chi2, s, i4, t5);
    let i5 = i4 + enc_opt_single(a.r_psf_flux_chi2).len();
    lemma_read_opt_int(a.r_psf_flux_ndata, s, i5, t6);
    let i6 = i5 + enc_opt_int(a.r_psf_flux_ndata).len();
    lemma_read_opt_single(a.r_fp_flux_mean, s, i6, t7);
    let i7 = i6 + enc_opt_single(a.r_fp_flux_mean).len();
    lemma_read_opt_single(a.r_fp_flux_mean_err, s, i7, t8);
    let i8 = i7 + enc_opt_single(a.r_fp_flux_mean_err).len();
    assert(i8 == i + enc_do_c4(a).len());
}

pub fn read_do_c4(bytes: &[u8], pos: usize) -> (r: Option<((Option<u32>, Option<u32>, Option<u32>, Option<u32>, Option<u32>, Option<i32>, Option<u32>, Option<u32>), usize)>)
    ensures
        match r {
            Some((v, j)) => dec_do_c4(bytes@, pos as int) == Some(((v.0, v.1, v.2, v.3, v.4, v.5, v.6, v.7), j as int)),
            None => dec_do_c4(bytes@, pos as int) is None,
        },
{
    let (f0, p0) = read_opt_single(bytes, pos)?;
    let (f1, p1) = read_opt_single(bytes, p0)?;
    let (f2, p2) = read_opt_single(bytes, p1)?;
    let (f3, p3) = read_opt_single(bytes, p2)?;
    let (f4, p4) = read_opt_single(bytes, p3)?;
    let (f5, p5) = read_opt_int(bytes, p4)?;
    let (f6, p6) = read_opt_single(bytes, p5)?;
    let (f7, p7) = read_opt_single(bytes, p6)?;
    Some(((f0, f1, f2, f3, f4, f5, f6, f7), p7))
}

#[verifier::rlimit(100)]
pub fn write_do_c4(out: &mut Vec<u8>, a: &DiaObject)
    ensures
        final(out)@ == old(out)@ + enc_do_c4(a@),
{
    write_opt_single(out, a.g_fp_flux_mean);
    assert(out@ =~= old(out)@ + (enc_opt_single(a@.g_fp_flux_mean)));
    write_opt_single(out, a.g_fp_flux_mean_err);
    assert(out@ =~= old(out)@ + (enc_opt_single(a@.g_fp_flux_mean)
        + enc_opt_single(a@.g_fp_flux_mean_err)));
    write_opt_single(out, a.r_psf_flux_mean);
    assert(out@ =~= old(out)@ + (enc_opt_single(a@.g_fp_flux_mean)
        + enc_opt_single(a@.g_fp_flux_mean_err)
        + enc_opt_single(a@.r_psf_flux_mean)));
    write_opt_single(out, a.r_psf_flux_mean_err);
    assert(out@ =~= old(out)@ + (enc_opt_single(a@.g_fp_flux_mean)
        + enc_opt_single(a@.g_fp_flux_mean_err)
        + enc_opt_single(a@.r_psf_flux_mean)
        + enc_opt_single(a@.r_psf_flux_mean_err)));
    write_opt_single(out, a.r_psf_flux_chi2);
    assert(out@ =~= old(out)@ + (enc_opt_single(a@.g_fp_flux_mean)
        + enc_opt_single(a@.g_fp_flux_mean_err)
        + enc_opt_single(a@.r_psf_flux_mean)
        + enc_opt_single(a@.r_psf_flux_mean_err)
        + enc_opt_single(a@.r_psf_flux_chi2)));
    write_opt_int(out, a.r_psf_flux_ndata);
    assert(out@ =~= old(out)@ + (enc_opt_single(a@.g_fp_flux_mean)
        + enc_opt_single(a@.g_fp_flux_mean_err)
        + enc_opt_single(a@.r_psf_flux_mean)
        + enc_opt_single(a@.r_psf_flux_mean_err)
        + enc_opt_single(a@.r_psf_flux_chi2)
        + enc_opt_int(a@.r_psf_flux_ndata)));
    write_opt_single(out, a.r_fp_flux_mean);
    assert(out@ =~= old(out)@ + (enc_opt_single(a@.g_fp_flux_mean)
        + enc_opt_single(a@.g_fp_flux_mean_err)
        + enc_opt_single(a@.r_psf_flux_mean)
        + enc_opt_single(a@.r_psf_flux_mean_err)
        + enc_opt_single(a@.r_psf_flux_chi2)
        + enc_opt_int(a@.r_psf_flux_ndata)
        + enc_opt_single(a@.r_fp_flux_mean)));
    write_opt_single(out, a.r_fp_flux_mean_err);
    assert(out@ =~= old(out)@ + (enc_opt_single(a@.g_fp_flux_mean)
        + enc_opt_single(a@.g_fp_flux_mean_err)
        + enc_opt_single(a@.r_psf_flux_mean)
        + enc_opt_single(a@.r_psf_flux_mean_err)
        + enc_opt_single(a@.r_psf_flux_chi2)
        + enc_opt_int(a@.r_psf_flux_ndata)
        + enc_opt_single(a@.r_fp_flux_mean)
        + enc_opt_single(a@.r_fp_flux_mean_err)));
}

pub open spec fn enc_do_c5(a: DiaObjectSpec) -> Seq<u8> {
    enc_opt_single(a.i_psf_flux_mean)
        + enc_opt_single(a.i_psf_flux_mean_err)
        + enc_opt_single(a.i_psf_flux_chi2)
        + enc_opt_int(a.i_psf_flux_ndata)
        + enc_opt_single(a.i_fp_flux_mean)
        + enc_opt_single(a.i_fp_flux_mean_err)
        + enc_opt_single(a.z_psf_flux_mean)
        + enc_opt_single(a.z_psf_flux_mean_err)
}

pub open spec fn dec_do_c5(s: Seq<u8>, i: int) -> Option<((Option<u32>, Option<u32>, Option<u32>, Option<i32>, Option<u32>, Option<u32>, Option<u32>, Option<u32>), int)> {
    match dec_opt_single(s, i) {
        None => None,
        Some((f0, p0)) => {
            match dec_opt_single(s, p0) {
                None => None,
                Some((f1, p1)) => {
                    match dec_opt_single(s, p1) {
                        None => None,
                        Some((f2, p2)) => {
                            match dec_opt_int(s, p2) {
                                None => None,
                                Some((f3, p3)) => {
                                    match dec_opt_single(s, p3) {
                                        None => None,
                                        Some((f4, p4)) => {
                                            match dec_opt_single(s, p4) {
                                                None => None,
                                                Some((f5, p5)) => {
                                                    match dec_opt_single(s, p5) {
                                                        None => None,
                                                        Some((f6, p6)) => {
                                                            match dec_opt_single(s, p6) {
                                                                None => None,
                                                                Some((f7, p7)) => {
                                                                    Some(((f0, f1, f2, f3, f4, f5, f6, f7), p7))
                                                                },
                                                            }
                                                        },
                                                    }
                                                },
                                            }
                                        },
                                    }
                                },
                            }
                        },
                    }
                },
            }
        },
    }
}

pub proof fn lemma_dec_do_c5_range(s: Seq<u8>, i: int)
    ensures
        dec_do_c5(s, i) matches Some((v, j)) ==> i < j <= s.len(),
{
    lemma_dec_opt_single_range(s, i);
    match dec_opt_single(s, i) {
        None => {},
        Some((f0, p0)) => {
            lemma_dec_opt_single_range(s, p0);
            match dec_opt_single(s, p0) {
                None => {},
                Some((f1, p1)) => {
                    lemma_dec_opt_single_range(s, p1);
                    match dec_opt_single(s, p1) {
                        None => {},
                        Some((f2, p2)) => {
                            lemma_dec_opt_int_range(s, p2);
                            match dec_opt_int(s, p2) {
                                None => {},
                                Some((f3, p3)) => {
                                    lemma_dec_opt_single_range(s, p3);
                                    match dec_opt_single(s, p3) {
                                        None => {},
                                        Some((f4, p4)) => {
                                            lemma_dec_opt_single_range(s, p4);
                                            match dec_opt_single(s, p4) {
                                                None => {},
                                                Some((f5, p5)) => {
                                                    lemma_dec_opt_single_range(s, p5);
                                                    match dec_opt_single(s, p5) {
                                                        None => {},
                                                        Some((f6, p6)) => {
                                                            lemma_dec_opt_single_range(s, p6);
                                                            match dec_opt_single(s, p6) {
                                                                None => {},
                                                                Some((f7, p7)) => {
                                                                },
                                                            }
                                                        },
                                                    }
                                                },
                                            }
                                        },
                                    }
                                },
                            }
                        },
                    }
                },
            }
        },
    }
}

pub proof fn lemma_read_do_c5(a: DiaObjectSpec, s: Seq<u8>, i: int, rest: Seq<u8>)
    requires
        0 <= i <= s.len(),
        s.skip(i) == enc_do_c5(a) + rest,
    ensures
        i + enc_do_c5(a).len() <= s.len(),
        dec_do_c5(s, i) == Some(((a.i_psf_flux_mean, a.i_psf_flux_mean_err, a.i_psf_flux_chi2, a.i_psf_flux_ndata, a.i_fp_flux_mean, a.i_fp_flux_mean_err, a.z_psf_flux_mean, a.z_psf_flux_mean_err), i + enc_do_c5(a).len())),
        s.skip(i + enc_do_c5(a).len()) == rest,
{
    let t8 = rest;
    let t7 = enc_opt_single(a.z_psf_flux_mean_err) + t8;
    let t6 = enc_opt_single(a.z_psf_flux_mean) + t7;
    let t5 = enc_opt_single(a.i_fp_flux_mean_err) + t6;
    let t4 = enc_opt_single(a.i_fp_flux_mean) + t5;
    let t3 = enc_opt_int(a.i_psf_flux_ndata) + t4;
    let t2 = enc_opt_single(a.i_psf_flux_chi2) + t3;
    let t1 = enc_opt_single(a.i_psf_flux_mean_err) + t2;
    lemma_concat_assoc(
        enc_opt_single(a.i_psf_flux_mean)
        + enc_opt_single(a.i_psf_flux_mean_err)
        + enc_opt_single(a.i_psf_flux_chi2)
        + enc_opt_int(a.i_psf_flux_ndata)
        + enc_opt_single(a.i_fp_flux_mean)
        + enc_opt_single(a.i_fp_flux_mean_err)
        + enc_opt_single(a.z_psf_flux_mean),
        enc_opt_single(a.z_psf_flux_mean_err),
        t8,
    );
    lemma_concat_assoc(
        enc_opt_single(a.i_psf_flux_mean)
        + enc_opt_single(a.i_psf_flux_mean_err)
        + enc_opt_single(a.i_psf_flux_chi2)
        + enc_opt_int(a.i_psf_flux_ndata)
        + enc_opt_single(a.i_fp_flux_mean)
        + enc_opt_single(a.i_fp_flux_mean_err),
        enc_opt_single(a.z_psf_flux_mean),
        t7,
    );
    lemma_concat_assoc(
        enc_opt_single(a.i_psf_flux_mean)
        + enc_opt_single(a.i_psf_flux_mean_err)
        + enc_opt_single(a.i_psf_flux_chi2)
        + enc_opt_int(a.i_psf_flux_ndata)
        + enc_opt_single(a.i_fp_flux_mean),
        enc_opt_single(a.i_fp_flux_mean_err),
        t6,
    );
    lemma_concat_assoc(
        enc_opt_single(a.i_psf_flux_mean)
        + enc_opt_single(a.i_psf_flux_mean_err)
        + enc_opt_single(a.i_psf_flux_chi2)
        + enc_opt_int(a.i_psf_flux_ndata),
        enc_opt_single(a.i_fp_flux_mean),
        t5,
    );
    lemma_concat_assoc(
        enc_opt_single(a.i_psf_flux_mean)
        + enc_opt_single(a.i_psf_flux_mean_err)
        + enc_opt_single(a.i_psf_flux_chi2),
        enc_opt_int(a.i_psf_flux_ndata),
        t4,
    );
    lemma_concat_assoc(
        enc_opt_single(a.i_psf_flux_mean)
        + enc_opt_single(a.i_psf_flux_mean_err),
        enc_opt_single(a.i_psf_flux_chi2),
        t3,
    );
    lemma_concat_assoc(
        enc_opt_single(a.i_psf_flux_mean),
        enc_opt_single(a.i_psf_flux_mean_err),
        t2,
    );
    let i0 = i;
    lemma_read_opt_single(a.i_psf_flux_mean, s, i0, t1);
    let i1 = i0 + enc_opt_single(a.i_psf_flux_mean).len();
    lemma_read_opt_single(a.i_psf_flux_mean_err, s, i1, t2);
    let i2 = i1 + enc_opt_single(a.i_psf_flux_mean_err).len();
    lemma_read_opt_single(a.i_psf_flux_chi2, s, i2, t3);
    let i3 = i2 + enc_opt_single(a.i_psf_flux_chi2).len();
    lemma_read_opt_int(a.i_psf_flux_ndata, s, i3, t4);
    let i4 = i3 + enc_opt_int(a.i_psf_flux_ndata).len();
    lemma_read_opt_single(a.i_fp_flux_mean, s, i4, t5);
    let i5 = i4 + enc_opt_single(a.i_fp_flux_mean).len();
    lemma_read_opt_single(a.i_fp_flux_mean_err, s, i5, t6);
    let i6 = i5 + enc_opt_single(a.i_fp_flux_mean_err).len();
    lemma_read_opt_single(a.z_psf_flux_mean, s, i6, t7);
    let i7 = i6 + enc_opt_single(a.z_psf_flux_mean).len();
    lemma_read_opt_single(a.z_psf_flux_mean_err, s, i7, t8);
    let i8 = i7 + enc_opt_single(a.z_psf_flux_mean_err).len();
    assert(i8 == i + enc_do_c5(a).len());
}

pub fn read_do_c5(bytes: &[u8], pos: usize) -> (r: Option<((Option<u32>, Option<u32>, Option<u32>, Option<i32>, Option<u32>, Option<u32>, Option<u32>, Option<u32>), usize)>)
    ensures
        match r {
            Some((v, j)) => dec_do_c5(bytes@, pos as int) == Some(((v.0, v.1, v.2, v.3, v.4, v.5, v.6, v.7), j as int)),
            None => dec_do_c5(bytes@, pos as int) is None,
        },
{
    let (f0, p0) = read_opt_single(bytes, pos)?;
    let (f1, p1) = read_opt_single(bytes, p0)?;
    let (f2, p2) = read_opt_single(bytes, p1)?;
    let (f3, p3) = read_opt_int(bytes, p2)?;
    let (f4, p4) = read_opt_single(bytes, p3)?;
    let (f5, p5) = read_opt_single(bytes, p4)?;
    let (f6, p6) = read_opt_single(bytes, p5)?;
    let (f7, p7) = read_opt_single(bytes, p6)?;
    Some(((f0, f1, f2, f3, f4, f5, f6, f7), p7))
}

#[verifier::rlimit(100)]
pub fn write_do_c5(out: &mut Vec<u8>, a: &DiaObject)
    ensures
        final(out)@ == old(out)@ + enc_do_c5(a@),
{
    write_opt_single(out, a.i_psf_flux_mean);
    assert(out@ =~= old(out)@ + (enc_opt_single(a@.i_psf_flux_mean)));
    write_opt_single(out, a.i_psf_flux_mean_err);
    assert(out@ =~= old(out)@ + (enc_opt_single(a@.i_psf_flux_mean)
        + enc_opt_single(a@.i_psf_flux_mean_err)));
    write_opt_single(out, a.i_psf_flux_chi2);
    assert(out@ =~= old(out)@ + (enc_opt_single(a@.i_psf_flux_mean)
        + enc_opt_single(a@.i_psf_flux_mean_err)
        + enc_opt_single(a@.i_psf_flux_chi2)));
    write_opt_int(out, a.i_psf_flux_ndata);
    assert(out@ =~= old(out)@ + (enc_opt_single(a@.i_psf_flux_mean)
        + enc_opt_single(a@.i_psf_flux_mean_err)
        + enc_opt_single(a@.i_psf_flux_chi2)
        + enc_opt_int(a@.i_psf_flux_ndata)));
    write_opt_single(out, a.i_fp_flux_mean);
    assert(out@ =~= old(out)@ + (enc_opt_single(a@.i_psf_flux_mean)
        + enc_opt_single(a@.i_psf_flux_mean_err)
        + enc_opt_single(a@.i_psf_flux_chi2)
        + enc_opt_int(a@.i_psf_flux_ndata)
        + enc_opt_single(a@.i_fp_flux_mean)));
    write_opt_single(out, a.i_fp_flux_mean_err);
    assert(out@ =~= old(out)@ + (enc_opt_single(a@.i_psf_flux_mean)
        + enc_opt_single(a@.i_psf_flux_mean_err)
        + enc_opt_single(a@.i_psf_flux_chi2)
        + enc_opt_int(a@.i_psf_flux_ndata)
        + enc_opt_single(a@.i_fp_flux_mean)
        + enc_opt_single(a@.i_fp_flux_mean_err)));
    write_opt_single(out, a.z_psf_flux_mean);
    assert(out@ =~= old(out)@ + (enc_opt_single(a@.i_psf_flux_mean)
        + enc_opt_single(a@.i_psf_flux_mean_err)
        + enc_opt_single(a@.i_psf_flux_chi2)
        + enc_opt_int(a@.i_psf_flux_ndata)
        + enc_opt_single(a@.i_fp_flux_mean)
        + enc_opt_single(a@.i_fp_flux_mean_err)
        + enc_opt_single(a@.z_psf_flux_mean)));
    write_opt_single(out, a.z_psf_flux_mean_err);
    assert(out@ =~= old(out)@ + (enc_opt_single(a@.i_psf_flux_mean)
        + enc_opt_single(a@.i_psf_flux_mean_err)
        + enc_opt_single(a@.i_psf_flux_chi2)
        + enc_opt_int(a@.i_psf_flux_ndata)
        + enc_opt_single(a@.i_fp_flux_mean)
        + enc_opt_single(a@.i_fp_flux_mean_err)
        + enc_opt_single(a@.z_psf_flux_mean)
        + enc_opt_single(a@.z_psf_flux_mean_err)));
}

pub open spec fn enc_do_c6(a: DiaObjectSpec) -> Seq<u8> {
    enc_opt_single(a.z_psf_flux_chi2)
        + enc_opt_int(a.z_psf_flux_ndata)
        + enc_opt_single(a.z_fp_flux_mean)
        + enc_opt_single(a.z_fp_flux_mean_err)
        + enc_opt_single(a.y_psf_flux_mean)
        + enc_opt_single(a.y_psf_flux_mean_err)
        + enc_opt_single(a.y_psf_flux_chi2)
        + enc_opt_int(a.y_psf_flux_ndata)
}

pub open spec fn dec_do_c6(s: Seq<u8>, i: int) -> Option<((Option<u32>, Option<i32>, Option<u32>, Option<u32>, Option<u32>, Option<u32>, Option<u32>, Option<i32>), int)> {
    match dec_opt_single(s, i) {
        None => None,
        Some((f0, p0)) => {
            match dec_opt_int(s, p0) {
                None => None,
                Some((f1, p1)) => {
                    match dec_opt_single(s, p1) {
                        None => None,
                        Some((f2, p2)) => {
                            match dec_opt_single(s, p2) {
                                None => None,
                                Some((f3, p3)) => {
                                    match dec_opt_single(s, p3) {
                                        None => None,
                                        Some((f4, p4)) => {
                                            match dec_opt_single(s, p4) {
                                                None => None,
                                                Some((f5, p5)) => {
                                                    match dec_opt_single(s, p5) {
                                                        None => None,
                                                        Some((f6, p6)) => {
                                                            match dec_opt_int(s, p6) {
                                                                None => None,
                                                                Some((f7, p7)) => {
                                                                    Some(((f0, f1, f2, f3, f4, f5, f6, f7), p7))
                                                                },
                                                            }
                                                        },
                                                    }
                                                },
                                            }
                                        },
                                    }
                                },
                            }
                        },
                    }
                },
            }
        },
    }
}

pub proof fn lemma_dec_do_c6_range(s: Seq<u8>, i: int)
    ensures
        dec_do_c6(s, i) matches Some((v, j)) ==> i < j <= s.len(),
{
    lemma_dec_opt_single_range(s, i);
    match dec_opt_single(s, i) {
        None => {},
        Some((f0, p0)) => {
            lemma_dec_opt_int_range(s, p0);
            match dec_opt_int(s, p0) {
                None => {},
                Some((f1, p1)) => {
                    lemma_dec_opt_single_range(s, p1);
                    match dec_opt_single(s, p1) {
                        None => {},
                        Some((f2, p2)) => {
                            lemma_dec_opt_single_range(s, p2);
                            match dec_opt_single(s, p2) {
                                None => {},
                                Some((f3, p3)) => {
                                    lemma_dec_opt_single_range(s, p3);
                                    match dec_opt_single(s, p3) {
                                        None => {},
                                        Some((f4, p4)) => {
                                            lemma_dec_opt_single_range(s, p4);
                                            match dec_opt_single(s, p4) {
                                                None => {},
                                                Some((f5, p5)) => {
                                                    lemma_dec_opt_single_range(s, p5);
                                                    match dec_opt_single(s, p5) {
                                                        None => {},
                                                        Some((f6, p6)) => {
                                                            lemma_dec_opt_int_range(s, p6);
                                                            match dec_opt_int(s, p6) {
                                                                None => {},
                                                                Some((f7, p7)) => {
                                                                },
                                                            }
                                                        },
                                                    }
                                                },
                                            }
                                        },
                                    }
                                },
                            }
                        },
                    }
                },
            }
        },
    }
}

pub proof fn lemma_read_do_c6(a: DiaObjectSpec, s: Seq<u8>, i: int, rest: Seq<u8>)
    requires
        0 <= i <= s.len(),
        s.skip(i) == enc_do_c6(a) + rest,
    ensures
        i + enc_do_c6(a).len() <= s.len(),
        dec_do_c6(s, i) == Some(((a.z_psf_flux_chi2, a.z_psf_flux_ndata, a.z_fp_flux_mean, a.z_fp_flux_mean_err, a.y_psf_flux_mean, a.y_psf_flux_mean_err, a.y_psf_flux_chi2, a.y_psf_flux_ndata), i + enc_do_c6(a).len())),
        s.skip(i + enc_do_c6(a).len()) == rest,
{
    let t8 = rest;
    let t7 = enc_opt_int(a.y_psf_flux_ndata) + t8;
    let t6 = enc_opt_single(a.y_psf_flux_chi2) + t7;
    let t5 = enc_opt_single(a.y_psf_flux_mean_err) + t6;
    let t4 = enc_opt_single(a.y_psf_flux_mean) + t5;
    let t3 = enc_opt_single(a.z_fp_flux_mean_err) + t4;
    let t2 = enc_opt_single(a.z_fp_flux_mean) + t3;
    let t1 = enc_opt_int(a.z_psf_flux_ndata) + t2;
    lemma_concat_assoc(
        enc_opt_single(a.z_psf_flux_chi2)
        + enc_opt_int(a.z_psf_flux_ndata)
        + enc_opt_single(a.z_fp_flux_mean)
        + enc_opt_single(a.z_fp_flux_mean_err)
        + enc_opt_single(a.y_psf_flux_mean)
        + enc_opt_single(a.y_psf_flux_mean_err)
        + enc_opt_single(a.y_psf_flux_chi2),
        enc_opt_int(a.y_psf_flux_ndata),
        t8,
    );
    lemma_concat_assoc(
        enc_opt_single(a.z_psf_flux_chi2)
        + enc_opt_int(a.z_psf_flux_ndata)
        + enc_opt_single(a.z_fp_flux_mean)
        + enc_opt_single(a.z_fp_flux_mean_err)
        + enc_opt_single(a.y_psf_flux_mean)
        + enc_opt_single(a.y_psf_flux_mean_err),
        enc_opt_single(a.y_psf_flux_chi2),
        t7,
    );
    lemma_concat_assoc(
        enc_opt_single(a.z_psf_flux_chi2)
        + enc_opt_int(a.z_psf_flux_ndata)
        + enc_opt_single(a.z_fp_flux_mean)
        + enc_opt_single(a.z_fp_flux_mean_err)
        + enc_opt_single(a.y_psf_flux_mean),
        enc_opt_single(a.y_psf_flux_mean_err),
        t6,
    );
    lemma_concat_assoc(
        enc_opt_single(a.z_psf_flux_chi2)
        + enc_opt_int(a.z_psf_flux_ndata)
        + enc_opt_single(a.z_fp_flux_mean)
        + enc_opt_single(a.z_fp_flux_mean_err),
        enc_opt_single(a.y_psf_flux_mean),
        t5,
    );
    lemma_concat_assoc(
        enc_opt_single(a.z_psf_flux_chi2)
        + enc_opt_int(a.z_psf_flux_ndata)
        + enc_opt_single(a.z_fp_flux_mean),
        enc_opt_single(a.z_fp_flux_mean_err),
        t4,
    );
    lemma_concat_assoc(
        enc_opt_single(a.z_psf_flux_chi2)
        + enc_opt_int(a.z_psf_flux_ndata),
        enc_opt_single(a.z_fp_flux_mean),
        t3,
    );
    lemma_concat_assoc(
        enc_opt_single(a.z_psf_flux_chi2),
        enc_opt_int(a.z_psf_flux_ndata),
        t2,
    );
    let i0 = i;
    lemma_read_opt_single(a.z_psf_flux_chi2, s, i0, t1);
    let i1 = i0 + enc_opt_single(a.z_psf_flux_chi2).len();
    lemma_read_opt_int(a.z_psf_flux_ndata, s, i1, t2);
    let i2 = i1 + enc_opt_int(a.z_psf_flux_ndata).len();
    lemma_read_opt_single(a.z_fp_flux_mean, s, i2, t3);
    let i3 = i2 + enc_opt_single(a.z_fp_flux_mean).len();
    lemma_read_opt_single(a.z_fp_flux_mean_err, s, i3, t4);
    let i4 = i3 + enc_opt_single(a.z_fp_flux_mean_err).len();
    lemma_read_opt_single(a.y_psf_flux_mean, s, i4, t5);
    let i5 = i4 + enc_opt_single(a.y_psf_flux_mean).len();
    lemma_read_opt_single(a.y_psf_flux_mean_err, s, i5, t6);
    let i6 = i5 + enc_opt_single(a.y_psf_flux_mean_err).len();
    lemma_read_opt_single(a.y_psf_flux_chi2, s, i6, t7);
    let i7 = i6 + enc_opt_single(a.y_psf_flux_chi2).len();
    lemma_read_opt_int(a.y_psf_flux_ndata, s, i7, t8);
    let i8 = i7 + enc_opt_int(a.y_psf_flux_ndata).len();
    assert(i8 == i + enc_do_c6(a).len());
}

pub fn read_do_c6(bytes: &[u8], pos: usize) -> (r: Option<((Option<u32>, Option<i32>, Option<u32>, Option<u32>, Option<u32>, Option<u32>, Option<u32>, Option<i32>), usize)>)
    ensures
        match r {
            Some((v, j)) => dec_do_c6(bytes@, pos as int) == Some(((v.0, v.1, v.2, v.3, v.4, v.5, v.6, v.7), j as int)),
            None => dec_do_c6(bytes@, pos as int) is None,
        },
{
    let (f0, p0) = read_opt_single(bytes, pos)?;
    let (f1, p1) = read_opt_int(bytes, p0)?;
    let (f2, p2) = read_opt_single(bytes, p1)?;
    let (f3, p3) = read_opt_single(bytes, p2)?;
    let (f4, p4) = read_opt_single(bytes, p3)?;
    let (f5, p5) = read_opt_single(bytes, p4)?;
    let (f6, p6) = read_opt_single(bytes, p5)?;
    let (f7, p7) = read_opt_int(bytes, p6)?;
    Some(((f0, f1, f2, f3, f4, f5, f6, f7), p7))
}

#[verifier::rlimit(100)]
pub fn write_do_c6(out: &mut Vec<u8>, a: &DiaObject)
    ensures
        final(out)@ == old(out)@ + enc_do_c6(a@),
{
    write_opt_single(out, a.z_psf_flux_chi2);
    assert(out@ =~= old(out)@ + (enc_opt_single(a@.z_psf_flux_chi2)));
    write_opt_int(out, a.z_psf_flux_ndata);
    assert(out@ =~= old(out)@ + (enc_opt_single(a@.z_psf_flux_chi2)
        + enc_opt_int(a@.z_psf_flux_ndata)));
    write_opt_single(out, a.z_fp_flux_mean);
    assert(out@ =~= old(out)@ + (enc_opt_single(a@.z_psf_flux_chi2)
        + enc_opt_int(a@.z_psf_flux_ndata)
        + enc_opt_single(a@.z_fp_flux_mean)));
    write_opt_single(out, a.z_fp_flux_mean_err);
    assert(out@ =~= old(out)@ + (enc_opt_single(a@.z_psf_flux_chi2)
        + enc_opt_int(a@.z_psf_flux_ndata)
        + enc_opt_single(a@.z_fp_flux_mean)
        + enc_opt_single(a@.z_fp_flux_mean_err)));
    write_opt_single(out, a.y_psf_flux_mean);
    assert(out@ =~= old(out)@ + (enc_opt_single(a@.z_psf_flux_chi2)
        + enc_opt_int(a@.z_psf_flux_ndata)
        + enc_opt_single(a@.z_fp_flux_mean)
        + enc_opt_single(a@.z_fp_flux_mean_err)
        + enc_opt_single(a@.y_psf_flux_mean)));
    write_opt_single(out, a.y_psf_flux_mean_err);
    assert(out@ =~= old(out)@ + (enc_opt_single(a@.z_psf_flux_chi2)
        + enc_opt_int(a@.z_psf_flux_ndata)
        + enc_opt_single(a@.z_fp_flux_mean)
        + enc_opt_single(a@.z_fp_flux_mean_err)
        + enc_opt_single(a@.y_psf_flux_mean)
        + enc_opt_single(a@.y_psf_flux_mean_err)));
    write_opt_single(out, a.y_psf_flux_chi2);
    assert(out@ =~= old(out)@ + (enc_opt_single(a@.z_psf_flux_chi2)
        + enc_opt_int(a@.z_psf_flux_ndata)
        + enc_opt_single(a@.z_fp_flux_mean)
        + enc_opt_single(a@.z_fp_flux_mean_err)
        + enc_opt_single(a@.y_psf_flux_mean)
        + enc_opt_single(a@.y_psf_flux_mean_err)
        + enc_opt_single(a@.y_psf_flux_chi2)));
    write_opt_int(out, a.y_psf_flux_ndata);
    assert(out@ =~= old(out)@ + (enc_opt_single(a@.z_psf_flux_chi2)
        + enc_opt_int(a@.z_psf_flux_ndata)
        + enc_opt_single(a@.z_fp_flux_mean)
        + enc_opt_single(a@.z_fp_flux_mean_err)
        + enc_opt_single(a@.y_psf_flux_mean)
        + enc_opt_single(a@.y_psf_flux_mean_err)
        + enc_opt_single(a@.y_psf_flux_chi2)
        + enc_opt_int(a@.y_psf_flux_ndata)));
}

pub open spec fn enc_do_c7(a: DiaObjectSpec) -> Seq<u8> {
    enc_opt_single(a.y_fp_flux_mean)
        + enc_opt_single(a.y_fp_flux_mean_err)
        + enc_opt_single(a.u_psf_flux_err_mean)
        + enc_opt_single(a.g_psf_flux_err_mean)
        + enc_opt_single(a.r_psf_flux_err_mean)
        + enc_opt_single(a.i_psf_flux_err_mean)
        + enc_opt_single(a.z_psf_flux_err_mean)
        + enc_opt_single(a.y_psf_flux_err_mean)
}

pub open spec fn dec_do_c7(s: Seq<u8>, i: int) -> Option<((Option<u32>, Option<u32>, Option<u32>, Option<u32>, Option<u32>, Option<u32>, Option<u32>, Option<u32>), int)> {
    match dec_opt_single(s, i) {
        None => None,
        Some((f0, p0)) => {
            match dec_opt_single(s, p0) {
                None => None,
                Some((f1, p1)) => {
                    match dec_opt_single(s, p1) {
                        None => None,
                        Some((f2, p2)) => {
                            match dec_opt_single(s, p2) {
                                None => None,
                                Some((f3, p3)) => {
                                    match dec_opt_single(s, p3) {
                                        None => None,
                                        Some((f4, p4)) => {
                                            match dec_opt_single(s, p4) {
                                                None => None,
                                                Some((f5, p5)) => {
                                                    match dec_opt_single(s, p5) {
                                                        None => None,
                                                        Some((f6, p6)) => {
                                                            match dec_opt_single(s, p6) {
                                                                None => None,
                                                                Some((f7, p7)) => {
                                                                    Some(((f0, f1, f2, f3, f4, f5, f6, f7), p7))
                                                                },
                                                            }
                                                        },
                                                    }
                                                },
                                            }
                                        },
                                    }
                                },
                            }
                        },
                    }
                },
            }
        },
    }
}

pub proof fn lemma_dec_do_c7_range(s: Seq<u8>, i: int)
    ensures
        dec_do_c7(s, i) matches Some((v, j)) ==> i < j <= s.len(),
{
    lemma_dec_opt_single_range(s, i);
    match dec_opt_single(s, i) {
        None => {},
        Some((f0, p0)) => {
            lemma_dec_opt_single_range(s, p0);
            match dec_opt_single(s, p0) {
                None => {},
                Some((f1, p1)) => {
                    lemma_dec_opt_single_range(s, p1);
                    match dec_opt_single(s, p1) {
                        None => {},
                        Some((f2, p2)) => {
                            lemma_dec_opt_single_range(s, p2);
                            match dec_opt_single(s, p2) {
                                None => {},
                                Some((f3, p3)) => {
                                    lemma_dec_opt_single_range(s, p3);
                                    match dec_opt_single(s, p3) {
                                        None => {},
                                        Some((f4, p4)) => {
                                            lemma_dec_opt_single_range(s, p4);
                                            match dec_opt_single(s, p4) {
                                                None => {},
                                                Some((f5, p5)) => {
                                                    lemma_dec_opt_single_range(s, p5);
                                                    match dec_opt_single(s, p5) {
                                                        None => {},
                                                        Some((f6, p6)) => {
                                                            lemma_dec_opt_single_range(s, p6);
                                                            match dec_opt_single(s, p6) {
                                                                None => {},
                                                                Some((f7, p7)) => {
                                                                },
                                                            }
                                                        },
                                                    }
                                                },
                                            }
                                        },
                                    }
                                },
                            }
                        },
                    }
                },
            }
        },
    }
}

pub proof fn lemma_read_do_c7(a: DiaObjectSpec, s: Seq<u8>, i: int, rest: Seq<u8>)
    requires
        0 <= i <= s.len(),
        s.skip(i) == enc_do_c7(a) + rest,
    ensures
        i + enc_do_c7(a).len() <= s.len(),
        dec_do_c7(s, i) == Some(((a.y_fp_flux_mean, a.y_fp_flux_mean_err, a.u_psf_flux_err_mean, a.g_psf_flux_err_mean, a.r_psf_flux_err_mean, a.i_psf_flux_err_mean, a.z_psf_flux_err_mean, a.y_psf_flux_err_mean), i + enc_do_c7(a).len())),
        s.skip(i + enc_do_c7(a).len()) == rest,
{
    let t8 = rest;
    let t7 = enc_opt_single(a.y_psf_flux_err_mean) + t8;
    let t6 = enc_opt_single(a.z_psf_flux_err_mean) + t7;
    let t5 = enc_opt_single(a.i_psf_flux_err_mean) + t6;
    let t4 = enc_opt_single(a.r_psf_flux_err_mean) + t5;
    let t3 = enc_opt_single(a.g_psf_flux_err_mean) + t4;
    let t2 = enc_opt_single(a.u_psf_flux_err_mean) + t3;
    let t1 = enc_opt_single(a.y_fp_flux_mean_err) + t2;
    lemma_concat_assoc(
        enc_opt_single(a.y_fp_flux_mean)
        + enc_opt_single(a.y_fp_flux_mean_err)
        + enc_opt_single(a.u_psf_flux_err_mean)
        + enc_opt_single(a.g_psf_flux_err_mean)
        + enc_opt_single(a.r_psf_flux_err_mean)
        + enc_opt_single(a.i_psf_flux_err_mean)
        + enc_opt_single(a.z_psf_flux_err_mean),
        enc_opt_single(a.y_psf_flux_err_mean),
        t8,
    );
    lemma_concat_assoc(
        enc_opt_single(a.y_fp_flux_mean)
        + enc_opt_single(a.y_fp_flux_mean_err)
        + enc_opt_single(a.u_psf_flux_err_mean)
        + enc_opt_single(a.g_psf_flux_err_mean)
        + enc_opt_single(a.r_psf_flux_err_mean)
        + enc_opt_single(a.i_psf_flux_err_mean),
        enc_opt_single(a.z_psf_flux_err_mean),
        t7,
    );
    lemma_concat_assoc(
        enc_opt_single(a.y_fp_flux_mean)
        + enc_opt_single(a.y_fp_flux_mean_err)
        + enc_opt_single(a.u_psf_flux_err_mean)
        + enc_opt_single(a.g_psf_flux_err_mean)
        + enc_opt_single(a.r_psf_flux_err_mean),
        enc_opt_single(a.i_psf_flux_err_mean),
        t6,
    );
    lemma_concat_assoc(
        enc_opt_single(a.y_fp_flux_mean)
        + enc_opt_single(a.y_fp_flux_mean_err)
        + enc_opt_single(a.u_psf_flux_err_mean)
        + enc_opt_single(a.g_psf_flux_err_mean),
        enc_opt_single(a.r_psf_flux_err_mean),
        t5,
    );
    lemma_concat_assoc(
        enc_opt_single(a.y_fp_flux_mean)
        + enc_opt_single(a.y_fp_flux_mean_err)
        + enc_opt_single(a.u_psf_flux_err_mean),
        enc_opt_single(a.g_psf_flux_err_mean),
        t4,
    );
    lemma_concat_assoc(
        enc_opt_single(a.y_fp_flux_mean)
        + enc_opt_single(a.y_fp_flux_mean_err),
        enc_opt_single(a.u_psf_flux_err_mean),
        t3,
    );
    lemma_concat_assoc(
        enc_opt_single(a.y_fp_flux_mean),
        enc_opt_single(a.y_fp_flux_mean_err),
        t2,
    );
    let i0 = i;
    lemma_read_opt_single(a.y_fp_flux_mean, s, i0, t1);
    let i1 = i0 + enc_opt_single(a.y_fp_flux_mean).len();
    lemma_read_opt_single(a.y_fp_flux_mean_err, s, i1, t2);
    let i2 = i1 + enc_opt_single(a.y_fp_flux_mean_err).len();
    lemma_read_opt_single(a.u_psf_flux_err_mean, s, i2, t3);
    let i3 = i2 + enc_opt_single(a.u_psf_flux_err_mean).len();
    lemma_read_opt_single(a.g_psf_flux_err_mean, s, i3, t4);
    let i4 = i3 + enc_opt_single(a.g_psf_flux_err_mean).len();
    lemma_read_opt_single(a.r_psf_flux_err_mean, s, i4, t5);
    let i5 = i4 + enc_opt_single(a.r_psf_flux_err_mean).len();
    lemma_read_opt_single(a.i_psf_flux_err_mean, s, i5, t6);
    let i6 = i5 + enc_opt_single(a.i_psf_flux_err_mean).len();
    lemma_read_opt_single(a.z_psf_flux_err_mean, s, i6, t7);
    let i7 = i6 + enc_opt_single(a.z_psf_flux_err_mean).len();
    lemma_read_opt_single(a.y_psf_flux_err_mean, s, i7, t8);
    let i8 = i7 + enc_opt_single(a.y_psf_flux_err_mean).len();
    assert(i8 == i + enc_do_c7(a).len());
}

pub fn read_do_c7(bytes: &[u8], pos: usize) -> (r: Option<((Option<u32>, Option<u32>, Option<u32>, Option<u32>, Option<u32>, Option<u32>, Option<u32>, Option<u32>), usize)>)
    ensures
        match r {
            Some((v, j)) => dec_do_c7(bytes@, pos as int) == Some(((v.0, v.1, v.2, v.3, v.4, v.5, v.6, v.7), j as int)),
            None => dec_do_c7(bytes@, pos as int) is None,
        },
{
    let (f0, p0) = read_opt_single(bytes, pos)?;
    let (f1, p1) = read_opt_single(bytes, p0)?;
    let (f2, p2) = read_opt_single(bytes, p1)?;
    let (f3, p3) = read_opt_single(bytes, p2)?;
    let (f4, p4) = read_opt_single(bytes, p3)?;
    let (f5, p5) = read_opt_single(bytes, p4)?;
    let (f6, p6) = read_opt_single(bytes, p5)?;
    let (f7, p7) = read_opt_single(bytes, p6)?;
    Some(((f0, f1, f2, f3, f4, f5, f6, f7), p7))
}

#[verifier::rlimit(100)]
pub fn write_do_c7(out: &mut Vec<u8>, a: &DiaObject)
    ensures
        final(out)@ == old(out)@ + enc_do_c7(a@),
{
    write_opt_single(out, a.y_fp_flux_mean);
    assert(out@ =~= old(out)@ + (enc_opt_single(a@.y_fp_flux_mean)));
    write_opt_single(out, a.y_fp_flux_mean_err);
    assert(out@ =~= old(out)@ + (enc_opt_single(a@.y_fp_flux_mean)
        + enc_opt_single(a@.y_fp_flux_mean_err)));
    write_opt_single(out, a.u_psf_flux_err_mean);
    assert(out@ =~= old(out)@ + (enc_opt_single(a@.y_fp_flux_mean)
        + enc_opt_single(a@.y_fp_flux_mean_err)
        + enc_opt_single(a@.u_psf_flux_err_mean)));
    write_opt_single(out, a.g_psf_flux_err_mean);
    assert(out@ =~= old(out)@ + (enc_opt_single(a@.y_fp_flux_mean)
        + enc_opt_single(a@.y_fp_flux_mean_err)
        + enc_opt_single(a@.u_psf_flux_err_mean)
        + enc_opt_single(a@.g_psf_flux_err_mean)));
    write_opt_single(out, a.r_psf_flux_err_mean);
    assert(out@ =~= old(out)@ + (enc_opt_single(a@.y_fp_flux_mean)
        + enc_opt_single(a@.y_fp_flux_mean_err)
        + enc_opt_single(a@.u_psf_flux_err_mean)
        + enc_opt_single(a@.g_psf_flux_err_mean)
        + enc_opt_single(a@.r_psf_flux_err_mean)));
    write_opt_single(out, a.i_psf_flux_err_mean);
    assert(out@ =~= old(out)@ + (enc_opt_single(a@.y_fp_flux_mean)
        + enc_opt_single(a@.y_fp_flux_mean_err)
        + enc_opt_single(a@.u_psf_flux_err_mean)
        + enc_opt_single(a@.g_psf_flux_err_mean)
        + enc_opt_single(a@.r_psf_flux_err_mean)
        + enc_opt_single(a@.i_psf_flux_err_mean)));
    write_opt_single(out, a.z_psf_flux_err_mean);
    assert(out@ =~= old(out)@ + (enc_opt_single(a@.y_fp_flux_mean)
        + enc_opt_single(a@.y_fp_flux_mean_err)
        + enc_opt_single(a@.u_psf_flux_err_mean)
        + enc_opt_single(a@.g_psf_flux_err_mean)
        + enc_opt_single(a@.r_psf_flux_err_mean)
        + enc_opt_single(a@.i_psf_flux_err_mean)
        + enc_opt_single(a@.z_psf_flux_err_mean)));
    write_opt_single(out, a.y_psf_flux_err_mean);
    assert(out@ =~= old(out)@ + (enc_opt_single(a@.y_fp_flux_mean)
        + enc_opt_single(a@.y_fp_flux_mean_err)
        + enc_opt_single(a@.u_psf_flux_err_mean)
        + enc_opt_single(a@.g_psf_flux_err_mean)
        + enc_opt_single(a@.r_psf_flux_err_mean)
        + enc_opt_single(a@.i_psf_flux_err_mean)
        + enc_opt_single(a@.z_psf_flux_err_mean)
        + enc_opt_single(a@.y_psf_flux_err_mean)));
}

#[verifier::opaque]
pub open spec fn enc_dia_object(a: DiaObjectSpec) -> Seq<u8> {
    enc_do_c1(a)
        + enc_do_c2(a)
        + enc_do_c3(a)
        + enc_do_c4(a)
        + enc_do_c5(a)
        + enc_do_c6(a)
        + enc_do_c7(a)
}

#[verifier::opaque]
pub open spec fn dec_dia_object(s: Seq<u8>, i: int) -> Option<(DiaObjectSpec, int)> {
    match dec_do_c1(s, i) {
        None => None,
        Some((c1, p1)) => {
            match dec_do_c2(s, p1) {
                None => None,
                Some((c2, p2)) => {
                    match dec_do_c3(s, p2) {
                        None => None,
                        Some((c3, p3)) => {
                            match dec_do_c4(s, p3) {
                                None => None,
                                Some((c4, p4)) => {
                                    match dec_do_c5(s, p4) {
                                        None => None,
                                        Some((c5, p5)) => {
                                            match dec_do_c6(s, p5) {
                                                None => None,
                                                Some((c6, p6)) => {
                                                    match dec_do_c7(s, p6) {
                                                        None => None,
                                                        Some((c7, p7)) => {
                                                            Some((DiaObjectSpec {
                                                                object_id: c1.0,
                                                                ra: c1.1,
                                                                ra_err: c1.2,
                                                                dec: c1.3,
                                                                dec_err: c1.4,
                                                                radec_mjd_tai: c1.5,
                                                                pm_ra: c1.6,
                                                                pm_ra_err: c1.7,
                                                                pm_dec: c2.0,
                                                                pm_dec_err: c2.1,
                                                                parallax: c2.2,
                                                                parallax_err: c2.3,
                                                                pm_parallax_chi2: c2.4,
                                                                pm_parallax_ndata: c2.5,
                                                                u_psf_flux_mean: c2.6,
                                                                u_psf_flux_mean_err: c2.7,
                                                                u_psf_flux_chi2: c3.0,
                                                                u_psf_flux_ndata: c3.1,
                                                                u_fp_flux_mean: c3.2,
                                                                u_fp_flux_mean_err: c3.3,
                                                                g_psf_flux_mean: c3.4,
                                                                g_psf_flux_mean_err: c3.5,
                                                                g_psf_flux_chi2: c3.6,
                                                                g_psf_flux_ndata: c3.7,
                                                                g_fp_flux_mean: c4.0,
                                                                g_fp_flux_mean_err: c4.1,
                                                                r_psf_flux_mean: c4.2,
                                                                r_psf_flux_mean_err: c4.3,
                                                                r_psf_flux_chi2: c4.4,
                                                                r_psf_flux_ndata: c4.5,
                                                                r_fp_flux_mean: c4.6,
                                                                r_fp_flux_mean_err: c4.7,
                                                                i_psf_flux_mean: c5.0,
                                                                i_psf_flux_mean_err: c5.1,
                                                                i_psf_flux_chi2: c5.2,
                                                                i_psf_flux_ndata: c5.3,
                                                                i_fp_flux_mean: c5.4,
                                                                i_fp_flux_mean_err: c5.5,
                                                                z_psf_flux_mean: c5.6,
                                                                z_psf_flux_mean_err: c5.7,
                                                                z_psf_flux_chi2: c6.0,
                                                                z_psf_flux_ndata: c6.1,
                                                                z_fp_flux_mean: c6.2,
                                                                z_fp_flux_mean_err: c6.3,
                                                                y_psf_flux_mean: c6.4,
                                                                y_psf_flux_mean_err: c6.5,
                                                                y_psf_flux_chi2: c6.6,
                                                                y_psf_flux_ndata: c6.7,
                                                                y_fp_flux_mean: c7.0,
                                                                y_fp_flux_mean_err: c7.1,
                                                                u_psf_flux_err_mean: c7.2,
                                                                g_psf_flux_err_mean: c7.3,
                                                                r_psf_flux_err_mean: c7.4,
                                                                i_psf_flux_err_mean: c7.5,
                                                                z_psf_flux_err_mean: c7.6,
                                                                y_psf_flux_err_mean: c7.7,
                                                            }, p7))
                                                        },
                                                    }
                                                },
                                            }
                                        },
                                    }
                                },
                            }
                        },
                    }
                },
            }
        },
    }
}

pub proof fn lemma_dec_dia_object_range(s: Seq<u8>, i: int)
    ensures
        dec_dia_object(s, i) matches Some((v, j)) ==> i < j <= s.len(),
{
    reveal(dec_dia_object);
    lemma_dec_do_c1_range(s, i);
    match dec_do_c1(s, i) {
        None => {},
        Some((c1, p1)) => {
            lemma_dec_do_c2_range(s, p1);
            match dec_do_c2(s, p1) {
                None => {},
                Some((c2, p2)) => {
                    lemma_dec_do_c3_range(s, p2);
                    match dec_do_c3(s, p2) {
                        None => {},
                        Some((c3, p3)) => {
                            lemma_dec_do_c4_range(s, p3);
                            match dec_do_c4(s, p3) {
                                None => {},
                                Some((c4, p4)) => {
                                    lemma_dec_do_c5_range(s, p4);
                                    match dec_do_c5(s, p4) {
                                        None => {},
                                        Some((c5, p5)) => {
                                            lemma_dec_do_c6_range(s, p5);
                                            match dec_do_c6(s, p5) {
                                                None => {},
                                                Some((c6, p6)) => {
                                                    lemma_dec_do_c7_range(s, p6);
                                                    match dec_do_c7(s, p6) {
                                                        None => {},
                                                        Some((c7, p7)) => {
                                                        },
                                                    }
                                                },
                                            }
                                        },
                                    }
                                },
                            }
                        },
                    }
                },
            }
        },
    }
}

pub proof fn lemma_read_dia_object(a: DiaObjectSpec, s: Seq<u8>, i: int, rest: Seq<u8>)
    requires
        0 <= i <= s.len(),
        s.skip(i) == enc_dia_object(a) + rest,
    ensures
        i + enc_dia_object(a).len() <= s.len(),
        dec_dia_object(s, i) == Some((a, i + enc_dia_object(a).len())),
        s.skip(i + enc_dia_object(a).len()) == rest,
{
    reveal(enc_dia_object);
    reveal(dec_dia_object);
    let t7 = rest;
    let t6 = enc_do_c7(a) + t7;
    let t5 = enc_do_c6(a) + t6;
    let t4 = enc_do_c5(a) + t5;
    let t3 = enc_do_c4(a) + t4;
    let t2 = enc_do_c3(a) + t3;
    let t1 = enc_do_c2(a) + t2;
    lemma_concat_assoc(enc_do_c1(a) + enc_do_c2(a) + enc_do_c3(a) + enc_do_c4(a) + enc_do_c5(a) + enc_do_c6(a), enc_do_c7(a), t7);
    lemma_concat_assoc(enc_do_c1(a) + enc_do_c2(a) + enc_do_c3(a) + enc_do_c4(a) + enc_do_c5(a), enc_do_c6(a), t6);
    lemma_concat_assoc(enc_do_c1(a) + enc_do_c2(a) + enc_do_c3(a) + enc_do_c4(a), enc_do_c5(a), t5);
    lemma_concat_assoc(enc_do_c1(a) + enc_do_c2(a) + enc_do_c3(a), enc_do_c4(a), t4);
    lemma_concat_assoc(enc_do_c1(a) + enc_do_c2(a), enc_do_c3(a), t3);
    lemma_concat_assoc(enc_do_c1(a), enc_do_c2(a), t2);
    let i0 = i;
    lemma_read_do_c1(a, s, i0, t1);
    let i1 = i0 + enc_do_c1(a).len();
    lemma_read_do_c2(a, s, i1, t2);
    let i2 = i1 + enc_do_c2(a).len();
    lemma_read_do_c3(a, s, i2, t3);
    let i3 = i2 + enc_do_c3(a).len();
    lemma_read_do_c4(a, s, i3, t4);
    let i4 = i3 + enc_do_c4(a).len();
    lemma_read_do_c5(a, s, i4, t5);
    let i5 = i4 + enc_do_c5(a).len();
    lemma_read_do_c6(a, s, i5, t6);
    let i6 = i5 + enc_do_c6(a).len();
    lemma_read_do_c7(a, s, i6, t7);
    let i7 = i6 + enc_do_c7(a).len();
    assert(i7 == i + enc_dia_object(a).len());
    let d = DiaObjectSpec {
        object_id: a.object_id,
        ra: a.ra,
        ra_err: a.ra_err,
        dec: a.dec,
        dec_err: a.dec_err,
        radec_mjd_tai: a.radec_mjd_tai,
        pm_ra: a.pm_ra,
        pm_ra_err: a.pm_ra_err,
        pm_dec: a.pm_dec,
        pm_dec_err: a.pm_dec_err,
        parallax: a.parallax,
        parallax_err: a.parallax_err,
        pm_parallax_chi2: a.pm_parallax_chi2,
        pm_parallax_ndata: a.pm_parallax_ndata,
        u_psf_flux_mean: a.u_psf_flux_mean,
        u_psf_flux_mean_err: a.u_psf_flux_mean_err,
        u_psf_flux_chi2: a.u_psf_flux_chi2,
        u_psf_flux_ndata: a.u_psf_flux_ndata,
        u_fp_flux_mean: a.u_fp_flux_mean,
        u_fp_flux_mean_err: a.u_fp_flux_mean_err,
        g_psf_flux_mean: a.g_psf_flux_mean,
        g_psf_flux_mean_err: a.g_psf_flux_mean_err,
        g_psf_flux_chi2: a.g_psf_flux_chi2,
        g_psf_flux_ndata: a.g_psf_flux_ndata,
        g_fp_flux_mean: a.g_fp_flux_mean,
        g_fp_flux_mean_err: a.g_fp_flux_mean_err,
        r_psf_flux_mean: a.r_psf_flux_mean,
        r_psf_flux_mean_err: a.r_psf_flux_mean_err,
        r_psf_flux_chi2: a.r_psf_flux_chi2,
        r_psf_flux_ndata: a.r_psf_flux_ndata,
        r_fp_flux_mean: a.r_fp_flux_mean,
        r_fp_flux_mean_err: a.r_fp_flux_mean_err,
        i_psf_flux_mean: a.i_psf_flux_mean,
        i_psf_flux_mean_err: a.i_psf_flux_mean_err,
        i_psf_flux_chi2: a.i_psf_flux_chi2,
        i_psf_flux_ndata: a.i_psf_flux_ndata,
        i_fp_flux_mean: a.i_fp_flux_mean,
        i_fp_flux_mean_err: a.i_fp_flux_mean_err,
        z_psf_flux_mean: a.z_psf_flux_mean,
        z_psf_flux_mean_err: a.z_psf_flux_mean_err,
        z_psf_flux_chi2: a.z_psf_flux_chi2,
        z_psf_flux_ndata: a.z_psf_flux_ndata,
        z_fp_flux_mean: a.z_fp_flux_mean,
        z_fp_flux_mean_err: a.z_fp_flux_mean_err,
        y_psf_flux_mean: a.y_psf_flux_mean,
        y_psf_flux_mean_err: a.y_psf_flux_mean_err,
        y_psf_flux_chi2: a.y_psf_flux_chi2,
        y_psf_flux_ndata: a.y_psf_flux_ndata,
        y_fp_flux_mean: a.y_fp_flux_mean,
        y_fp_flux_mean_err: a.y_fp_flux_mean_err,
        u_psf_flux_err_mean: a.u_psf_flux_err_mean,
        g_psf_flux_err_mean: a.g_psf_flux_err_mean,
        r_psf_flux_err_mean: a.r_psf_flux_err_mean,
        i_psf_flux_err_mean: a.i_psf_flux_err_mean,
        z_psf_flux_err_mean: a.z_psf_flux_err_mean,
        y_psf_flux_err_mean: a.y_psf_flux_err_mean,
    };
    assert(d =~= a);
}

pub fn read_dia_object(bytes: &[u8], pos: usize) -> (r: Option<(DiaObject, usize)>)
    ensures
        match r {
            Some((v, j)) => dec_dia_object(bytes@, pos as int) == Some((v@, j as int)),
            None => dec_dia_object(bytes@, pos as int) is None,
        },
{
    proof {
        reveal(dec_dia_object);
    }
    let (c1, p1) = read_do_c1(bytes, pos)?;
    let (c2, p2) = read_do_c2(bytes, p1)?;
    let (c3, p3) = read_do_c3(bytes, p2)?;
    let (c4, p4) = read_do_c4(bytes, p3)?;
    let (c5, p5) = read_do_c5(bytes, p4)?;
    let (c6, p6) = read_do_c6(bytes, p5)?;
    let (c7, p7) = read_do_c7(bytes, p6)?;
    let v = DiaObject {
        object_id: c1.0,
        ra: c1.1,
        ra_err: c1.2,
        dec: c1.3,
        dec_err: c1.4,
        radec_mjd_tai: c1.5,
        pm_ra: c1.6,
        pm_ra_err: c1.7,
        pm_dec: c2.0,
        pm_dec_err: c2.1,
        parallax: c2.2,
        parallax_err: c2.3,
        pm_parallax_chi2: c2.4,
        pm_parallax_ndata: c2.5,
        u_psf_flux_mean: c2.6,
        u_psf_flux_mean_err: c2.7,
        u_psf_flux_chi2: c3.0,
        u_psf_flux_ndata: c3.1,
        u_fp_flux_mean: c3.2,
        u_fp_flux_mean_err: c3.3,
        g_psf_flux_mean: c3.4,
        g_psf_flux_mean_err: c3.5,
        g_psf_flux_chi2: c3.6,
        g_psf_flux_ndata: c3.7,
        g_fp_flux_mean: c4.0,
        g_fp_flux_mean_err: c4.1,
        r_psf_flux_mean: c4.2,
        r_psf_flux_mean_err: c4.3,
        r_psf_flux_chi2: c4.4,
        r_psf_flux_ndata: c4.5,
        r_fp_flux_mean: c4.6,
        r_fp_flux_mean_err: c4.7,
        i_psf_flux_mean: c5.0,
        i_psf_flux_mean_err: c5.1,
        i_psf_flux_chi2: c5.2,
        i_psf_flux_ndata: c5.3,
        i_fp_flux_mean: c5.4,
        i_fp_flux_mean_err: c5.5,
        z_psf_flux_mean: c5.6,
        z_psf_flux_mean_err: c5.7,
        z_psf_flux_chi2: c6.0,
        z_psf_flux_ndata: c6.1,
        z_fp_flux_mean: c6.2,
        z_fp_flux_mean_err: c6.3,
        y_psf_flux_mean: c6.4,
        y_psf_flux_mean_err: c6.5,
        y_psf_flux_chi2: c6.6,
        y_psf_flux_ndata: c6.7,
        y_fp_flux_mean: c7.0,
        y_fp_flux_mean_err: c7.1,
        u_psf_flux_err_mean: c7.2,
        g_psf_flux_err_mean: c7.3,
        r_psf_flux_err_mean: c7.4,
        i_psf_flux_err_mean: c7.5,
        z_psf_flux_err_mean: c7.6,
        y_psf_flux_err_mean: c7.7,
    };
    Some((v, p7))
}

#[verifier::rlimit(100)]
pub fn write_dia_object(out: &mut Vec<u8>, a: &DiaObject)
    ensures
        final(out)@ == old(out)@ + enc_dia_object(a@),
{
    proof {
        reveal(enc_dia_object);
    }
    write_do_c1(out, a);
    assert(out@ =~= old(out)@ + (enc_do_c1(a@)));
    write_do_c2(out, a);
    assert(out@ =~= old(out)@ + (enc_do_c1(a@) + enc_do_c2(a@)));
    write_do_c3(out, a);
    assert(out@ =~= old(out)@ + (enc_do_c1(a@) + enc_do_c2(a@) + enc_do_c3(a@)));
    write_do_c4(out, a);
    assert(out@ =~= old(out)@ + (enc_do_c1(a@) + enc_do_c2(a@) + enc_do_c3(a@) + enc_do_c4(a@)));
    write_do_c5(out, a);
    assert(out@ =~= old(out)@ + (enc_do_c1(a@) + enc_do_c2(a@) + enc_do_c3(a@) + enc_do_c4(a@) + enc_do_c5(a@)));
    write_do_c6(out, a);
    assert(out@ =~= old(out)@ + (enc_do_c1(a@) + enc_do_c2(a@) + enc_do_c3(a@) + enc_do_c4(a@) + enc_do_c5(a@) + enc_do_c6(a@)));
    write_do_c7(out, a);
    assert(out@ =~= old(out)@ + (enc_do_c1(a@) + enc_do_c2(a@) + enc_do_c3(a@) + enc_do_c4(a@) + enc_do_c5(a@) + enc_do_c6(a@) + enc_do_c7(a@)));
}

// ---------------------------------------------------------------------------
// DiaForcedSource
// ---------------------------------------------------------------------------

pub open spec fn enc_fs_c1(a: DiaForcedSourceSpec) -> Seq<u8> {
    enc_long(a.dia_forced_source_id)
        + enc_long(a.object_id)
        + enc_double(a.ra)
        + enc_double(a.dec)
        + enc_long(a.visit)
        + enc_int(a.detector)
        + enc_opt_single(a.psf_flux)
        + enc_opt_single(a.psf_flux_err)
}

pub open spec fn dec_fs_c1(s: Seq<u8>, i: int) -> Option<((i64, i64, u64, u64, i64, i32, Option<u32>, Option<u32>), int)> {
    match dec_long(s, i) {
        None => None,
        Some((f0, p0)) => {
            match dec_long(s, p0) {
                None => None,
                Some((f1, p1)) => {
                    match dec_double(s, p1) {
                        None => None,
                        Some((f2, p2)) => {
                            match dec_double(s, p2) {
                                None => None,
                                Some((f3, p3)) => {
                                    match dec_long(s, p3) {
                                        None => None,
                                        Some((f4, p4)) => {
                                            match dec_int(s, p4) {
                                                None => None,
                                                Some((f5, p5)) => {
                                                    match dec_opt_single(s, p5) {
                                                        None => None,
                                                        Some((f6, p6)) => {
                                                            match dec_opt_single(s, p6) {
                                                                None => None,
                                                                Some((f7, p7)) => {
                                                                    Some(((f0, f1, f2, f3, f4, f5, f6, f7), p7))
                                                                },
                                                            }
                                                        },
                                                    }
                                                },
                                            }
                                        },
                                    }
                                },
                            }
                        },
                    }
                },
            }
        },
    }
}

pub proof fn lemma_dec_fs_c1_range(s: Seq<u8>, i: int)
    ensures
        dec_fs_c1(s, i) matches Some((v, j)) ==> i < j <= s.len(),
{
    lemma_dec_long_range(s, i);
    match dec_long(s, i) {
        None => {},
        Some((f0, p0)) => {
            lemma_dec_long_range(s, p0);
            match dec_long(s, p0) {
                None => {},
                Some((f1, p1)) => {
                    lemma_dec_double_range(s, p1);
                    match dec_double(s, p1) {
                        None => {},
                        Some((f2, p2)) => {
                            lemma_dec_double_range(s, p2);
                            match dec_double(s, p2) {
                                None => {},
                                Some((f3, p3)) => {
                                    lemma_dec_long_range(s, p3);
                                    match dec_long(s, p3) {
                                        None => {},
                                        Some((f4, p4)) => {
                                            lemma_dec_int_range(s, p4);
                                            match dec_int(s, p4) {
                                                None => {},
                                                Some((f5, p5)) => {
                                                    lemma_dec_opt_single_range(s, p5);
                                                    match dec_opt_single(s, p5) {
                                                        None => {},
                                                        Some((f6, p6)) => {
                                                            lemma_dec_opt_single_range(s, p6);
                                                            match dec_opt_single(s, p6) {
                                                                None => {},
                                                                Some((f7, p7)) => {
                                                                },
                                                            }
                                                        },
                                                    }
                                                },
                                            }
                                        },
                                    }
                                },
                            }
                        },
                    }
                },
            }
        },
    }
}

pub proof fn lemma_read_fs_c1(a: DiaForcedSourceSpec, s: Seq<u8>, i: int, rest: Seq<u8>)
    requires
        0 <= i <= s.len(),
        encodable_dia_forced_source(a),
        s.skip(i) == enc_fs_c1(a) + rest,
    ensures
        i + enc_fs_c1(a).len() <= s.len(),
        dec_fs_c1(s, i) == Some(((a.dia_forced_source_id, a.object_id, a.ra, a.dec, a.visit, a.detector, a.psf_flux, a.psf_flux_err), i + enc_fs_c1(a).len())),
        s.skip(i + enc_fs_c1(a).len()) == rest,
{
    let t8 = rest;
    let t7 = enc_opt_single(a.psf_flux_err) + t8;
    let t6 = enc_opt_single(a.psf_flux) + t7;
    let t5 = enc_int(a.detector) + t6;
    let t4 = enc_long(a.visit) + t5;
    let t3 = enc_double(a.dec) + t4;
    let t2 = enc_double(a.ra) + t3;
    let t1 = enc_long(a.object_id) + t2;
    lemma_concat_assoc(
        enc_long(a.dia_forced_source_id)
        + enc_long(a.object_id)
        + enc_double(a.ra)
        + enc_double(a.dec)
        + enc_long(a.visit)
        + enc_int(a.detector)
        + enc_opt_single(a.psf_flux),
        enc_opt_single(a.psf_flux_err),
        t8,
    );
    lemma_concat_assoc(
        enc_long(a.dia_forced_source_id)
        + enc_long(a.object_id)
        + enc_double(a.ra)
        + enc_double(a.dec)
        + enc_long(a.visit)
        + enc_int(a.detector),
        enc_opt_single(a.psf_flux),
        t7,
    );
    lemma_concat_assoc(
        enc_long(a.dia_forced_source_id)
        + enc_long(a.object_id)
        + enc_double(a.ra)
        + enc_double(a.dec)
        + enc_long(a.visit),
        enc_int(a.detector),
        t6,
    );
    lemma_concat_assoc(
        enc_long(a.dia_forced_source_id)
        + enc_long(a.object_id)
        + enc_double(a.ra)
        + enc_double(a.dec),
        enc_long(a.visit),
        t5,
    );
    lemma_concat_assoc(
        enc_long(a.dia_forced_source_id)
        + enc_long(a.object_id)
        + enc_double(a.ra),
        enc_double(a.dec),
        t4,
    );
    lemma_concat_assoc(
        enc_long(a.dia_forced_source_id)
        + enc_long(a.object_id),
        enc_double(a.ra),
        t3,
    );
    lemma_concat_assoc(
        enc_long(a.dia_forced_source_id),
        enc_long(a.object_id),
        t2,
    );
    let i0 = i;
    lemma_read_long(a.dia_forced_source_id, s, i0, t1);
    let i1 = i0 + enc_long(a.dia_forced_source_id).len();
    lemma_read_long(a.object_id, s, i1, t2);
    let i2 = i1 + enc_long(a.object_id).len();
    lemma_read_double(a.ra, s, i2, t3);
    let i3 = i2 + enc_double(a.ra).len();
    lemma_read_double(a.dec, s, i3, t4);
    let i4 = i3 + enc_double(a.dec).len();
    lemma_read_long(a.visit, s, i4, t5);
    let i5 = i4 + enc_long(a.visit).len();
    lemma_read_int(a.detector, s, i5, t6);
    let i6 = i5 + enc_int(a.detector).len();
    lemma_read_opt_single(a.psf_flux, s, i6, t7);
    let i7 = i6 + enc_opt_single(a.psf_flux).len();
    lemma_read_opt_single(a.psf_flux_err, s, i7, t8);
    let i8 = i7 + enc_opt_single(a.psf_flux_err).len();
    assert(i8 == i + enc_fs_c1(a).len());
}

pub fn read_fs_c1(bytes: &[u8], pos: usize) -> (r: Option<((i64, i64, u64, u64, i64, i32, Option<u32>, Option<u32>), usize)>)
    ensures
        match r {
            Some((v, j)) => dec_fs_c1(bytes@, pos as int) == Some(((v.0, v.1, v.2, v.3, v.4, v.5, v.6, v.7), j as int)),
            None => dec_fs_c1(bytes@, pos as int) is None,
        },
{
    let (f0, p0) = read_long(bytes, pos)?;
    let (f1, p1) = read_long(bytes, p0)?;
    let (f2, p2) = read_double(bytes, p1)?;
    let (f3, p3) = read_double(bytes, p2)?;
    let (f4, p4) = read_long(bytes, p3)?;
    let (f5, p5) = read_int(bytes, p4)?;
    let (f6, p6) = read_opt_single(bytes, p5)?;
    let (f7, p7) = read_opt_single(bytes, p6)?;
    Some(((f0, f1, f2, f3, f4, f5, f6, f7), p7))
}

#[verifier::rlimit(100)]
pub fn write_fs_c1(out: &mut Vec<u8>, a: &DiaForcedSource)
    requires
        encodable_dia_forced_source(a@),
    ensures
        final(out)@ == old(out)@ + enc_fs_c1(a@),
{
    write_long(out, a.dia_forced_source_id);
    assert(out@ =~= old(out)@ + (enc_long(a@.dia_forced_source_id)));
    write_long(out, a.object_id);
    assert(out@ =~= old(out)@ + (enc_long(a@.dia_forced_source_id)
        + enc_long(a@.object_id)));
    write_double(out, a.ra);
    assert(out@ =~= old(out)@ + (enc_long(a@.dia_forced_source_id)
        + enc_long(a@.object_id)
        + enc_double(a@.ra)));
    write_double(out, a.dec);
    assert(out@ =~= old(out)@ + (enc_long(a@.dia_forced_source_id)
        + enc_long(a@.object_id)
        + enc_double(a@.ra)
        + enc_double(a@.dec)));
    write_long(out, a.visit);
    assert(out@ =~= old(out)@ + (enc_long(a@.dia_forced_source_id)
        + enc_long(a@.object_id)
        + enc_double(a@.ra)
        + enc_double(a@.dec)
        + enc_long(a@.visit)));
    write_int(out, a.detector);
    assert(out@ =~= old(out)@ + (enc_long(a@.dia_forced_source_id)
        + enc_long(a@.object_id)
        + enc_double(a@.ra)
        + enc_double(a@.dec)
        + enc_long(a@.visit)
        + enc_int(a@.detector)));
    write_opt_single(out, a.psf_flux);
    assert(out@ =~= old(out)@ + (enc_long(a@.dia_forced_source_id)
        + enc_long(a@.object_id)
        + enc_double(a@.ra)
        + enc_double(a@.dec)
        + enc_long(a@.visit)
        + enc_int(a@.detector)
        + enc_opt_single(a@.psf_flux)));
    write_opt_single(out, a.psf_flux_err);
    assert(out@ =~= old(out)@ + (enc_long(a@.dia_forced_source_id)
        + enc_long(a@.object_id)
        + enc_double(a@.ra)
        + enc_double(a@.dec)
        + enc_long(a@.visit)
        + enc_int(a@.detector)
        + enc_opt_single(a@.psf_flux)
        + enc_opt_single(a@.psf_flux_err)));
}

pub open spec fn enc_fs_c2(a: DiaForcedSourceSpec) -> Seq<u8> {
    enc_double(a.mjd)
        + enc_opt_string(a.band)
}

pub open spec fn dec_fs_c2(s: Seq<u8>, i: int) -> Option<((u64, Option<Seq<char>>), int)> {
    match dec_double(s, i) {
        None => None,
        Some((f0, p0)) => {
            match dec_opt_string(s, p0) {
                None => None,
                Some((f1, p1)) => {
                    Some(((f0, f1), p1))
                },
            }
        },
    }
}

pub proof fn lemma_dec_fs_c2_range(s: Seq<u8>, i: int)
    ensures
        dec_fs_c2(s, i) matches Some((v, j)) ==> i < j <= s.len(),
{
    lemma_dec_double_range(s, i);
    match dec_double(s, i) {
        None => {},
        Some((f0, p0)) => {
            lemma_dec_opt_string_range(s, p0);
            match dec_opt_string(s, p0) {
                None => {},
                Some((f1, p1)) => {
                },
            }
        },
    }
}

pub proof fn lemma_read_fs_c2(a: DiaForcedSourceSpec, s: Seq<u8>, i: int, rest: Seq<u8>)
    requires
        0 <= i <= s.len(),
        encodable_dia_forced_source(a),
        s.skip(i) == enc_fs_c2(a) + rest,
    ensures
        i + enc_fs_c2(a).len() <= s.len(),
        dec_fs_c2(s, i) == Some(((a.mjd, a.band), i + enc_fs_c2(a).len())),
        s.skip(i + enc_fs_c2(a).len()) == rest,
{
    let t2 = rest;
    let t1 = enc_opt_string(a.band) + t2;
    lemma_concat_assoc(
        enc_double(a.mjd),
        enc_opt_string(a.band),
        t2,
    );
    let i0 = i;
    lemma_read_double(a.mjd, s, i0, t1);
    let i1 = i0 + enc_double(a.mjd).len();
    lemma_read_opt_string(a.band, s, i1, t2);
    let i2 = i1 + enc_opt_string(a.band).len();
    assert(i2 == i + enc_fs_c2(a).len());
}

pub fn read_fs_c2(bytes: &[u8], pos: usize) -> (r: Option<((u64, Option<String>), usize)>)
    ensures
        match r {
            Some((v, j)) => dec_fs_c2(bytes@, pos as int) == Some(((v.0, view_opt_string(v.1)), j as int)),
            None => dec_fs_c2(bytes@, pos as int) is None,
        },
{
    let (f0, p0) = read_double(bytes, pos)?;
    let (f1, p1) = read_opt_string(bytes, p0)?;
    Some(((f0, f1), p1))
}

#[verifier::rlimit(100)]
pub fn write_fs_c2(out: &mut Vec<u8>, a: &DiaForcedSource)
    requires
        encodable_dia_forced_source(a@),
    ensures
        final(out)@ == old(out)@ + enc_fs_c2(a@),
{
    write_double(out, a.mjd);
    assert(out@ =~= old(out)@ + (enc_double(a@.mjd)));
    write_opt_string(out, &a.band);
    assert(out@ =~= old(out)@ + (enc_double(a@.mjd)
        + enc_opt_string(a@.band)));
}

pub open spec fn enc_dia_forced_source(a: DiaForcedSourceSpec) -> Seq<u8> {
    enc_fs_c1(a)
        + enc_fs_c2(a)
}

pub open spec fn dec_dia_forced_source(s: Seq<u8>, i: int) -> Option<(DiaForcedSourceSpec, int)> {
    match dec_fs_c1(s, i) {
        None => None,
        Some((c1, p1)) => {
            match dec_fs_c2(s, p1) {
                None => None,
                Some((c2, p2)) => {
                    Some((DiaForcedSourceSpec {
                        dia_forced_source_id: c1.0,
                        object_id: c1.1,
                        ra: c1.2,
                        dec: c1.3,
                        visit: c1.4,
                        detector: c1.5,
                        psf_flux: c1.6,
                        psf_flux_err: c1.7,
                        mjd: c2.0,
                        band: c2.1,
                        magpsf: None,
                        sigmapsf: None,
                        science_flux: None,
                    }, p2))
                },
            }
        },
    }
}

pub proof fn lemma_dec_dia_forced_source_range(s: Seq<u8>, i: int)
    ensures
        dec_dia_forced_source(s, i) matches Some((v, j)) ==> i < j <= s.len(),
{
    lemma_dec_fs_c1_range(s, i);
    match dec_fs_c1(s, i) {
        None => {},
        Some((c1, p1)) => {
            lemma_dec_fs_c2_range(s, p1);
            match dec_fs_c2(s, p1) {
                None => {},
                Some((c2, p2)) => {
                },
            }
        },
    }
}

pub proof fn lemma_read_dia_forced_source(a: DiaForcedSourceSpec, s: Seq<u8>, i: int, rest: Seq<u8>)
    requires
        0 <= i <= s.len(),
        wire_form_dia_forced_source(a),
        encodable_dia_forced_source(a),
        s.skip(i) == enc_dia_forced_source(a) + rest,
    ensures
        i + enc_dia_forced_source(a).len() <= s.len(),
        dec_dia_forced_source(s, i) == Some((a, i + enc_dia_forced_source(a).len())),
        s.skip(i + enc_dia_forced_source(a).len()) == rest,
{
    let t2 = rest;
    let t1 = enc_fs_c2(a) + t2;
    lemma_concat_assoc(enc_fs_c1(a), enc_fs_c2(a), t2);
    let i0 = i;
    lemma_read_fs_c1(a, s, i0, t1);
    let i1 = i0 + enc_fs_c1(a).len();
    lemma_read_fs_c2(a, s, i1, t2);
    let i2 = i1 + enc_fs_c2(a).len();
    assert(i2 == i + enc_dia_forced_source(a).len());
    let d = DiaForcedSourceSpec {
        dia_forced_source_id: a.dia_forced_source_id,
        object_id: a.object_id,
        ra: a.ra,
        dec: a.dec,
        visit: a.visit,
        detector: a.detector,
        psf_flux: a.psf_flux,
        psf_flux_err: a.psf_flux_err,
        mjd: a.mjd,
        band: a.band,
        magpsf: None,
        sigmapsf: None,
        science_flux: None,
    };
    assert(d =~= a);
}

pub fn read_dia_forced_source(bytes: &[u8], pos: usize) -> (r: Option<(DiaForcedSource, usize)>)
    ensures
        match r {
            Some((v, j)) => dec_dia_forced_source(bytes@, pos as int) == Some((v@, j as int)),
            None => dec_dia_forced_source(bytes@, pos as int) is None,
        },
{
    let (c1, p1) = read_fs_c1(bytes, pos)?;
    let (c2, p2) = read_fs_c2(bytes, p1)?;
    let v = DiaForcedSource {
        dia_forced_source_id: c1.0,
        object_id: c1.1,
        ra: c1.2,
        dec: c1.3,
        visit: c1.4,
        detector: c1.5,
        psf_flux: c1.6,
        psf_flux_err: c1.7,
        mjd: c2.0,
        band: c2.1,
        magpsf: None,
        sigmapsf: None,
        science_flux: None,
    };
    Some((v, p2))
}

pub fn write_dia_forced_source(out: &mut Vec<u8>, a: &DiaForcedSource)
    requires
        encodable_dia_forced_source(a@),
    ensures
        final(out)@ == old(out)@ + enc_dia_forced_source(a@),
{
    write_fs_c1(out, a);
    assert(out@ =~= old(out)@ + (enc_fs_c1(a@)));
    write_fs_c2(out, a);
    assert(out@ =~= old(out)@ + (enc_fs_c1(a@) + enc_fs_c2(a@)));
}

// ---------------------------------------------------------------------------
// DiaNondetectionLimit
// ---------------------------------------------------------------------------

pub open spec fn enc_nd_c1(a: DiaNondetectionLimitSpec) -> Seq<u8> {
    enc_long(a.ccd_visit_id)
        + enc_double(a.mjd)
        + enc_string(a.band)
        + enc_single(a.dia_noise)
}

pub open spec fn dec_nd_c1(s: Seq<u8>, i: int) -> Option<((i64, u64, Seq<char>, u32), int)> {
    match dec_long(s, i) {
        None => None,
        Some((f0, p0)) => {
            match dec_double(s, p0) {
                None => None,
                Some((f1, p1)) => {
                    match dec_string(s, p1) {
                        None => None,
                        Some((f2, p2)) => {
                            match dec_single(s, p2) {
                                None => None,
                                Some((f3, p3)) => {
                                    Some(((f0, f1, f2, f3), p3))
                                },
                            }
                        },
                    }
                },
            }
        },
    }
}

pub proof fn lemma_dec_nd_c1_range(s: Seq<u8>, i: int)
    ensures
        dec_nd_c1(s, i) matches Some((v, j)) ==> i < j <= s.len(),
{
    lemma_dec_long_range(s, i);
    match dec_long(s, i) {
        None => {},
        Some((f0, p0)) => {
            lemma_dec_double_range(s, p0);
            match dec_double(s, p0) {
                None => {},
                Some((f1, p1)) => {
                    lemma_dec_string_range(s, p1);
                    match dec_string(s, p1) {
                        None => {},
                        Some((f2, p2)) => {
                            lemma_dec_single_range(s, p2);
                            match dec_single(s, p2) {
                                None => {},
                                Some((f3, p3)) => {
                                },
                            }
                        },
                    }
                },
            }
        },
    }
}

pub proof fn lemma_read_nd_c1(a: DiaNondetectionLimitSpec, s: Seq<u8>, i: int, rest: Seq<u8>)
    requires
        0 <= i <= s.len(),
        encodable_dia_nondetection_limit(a),
        s.skip(i) == enc_nd_c1(a) + rest,
    ensures
        i + enc_nd_c1(a).len() <= s.len(),
        dec_nd_c1(s, i) == Some(((a.ccd_visit_id, a.mjd, a.band, a.dia_noise), i + enc_nd_c1(a).len())),
        s.skip(i + enc_nd_c1(a).len()) == rest,
{
    let t4 = rest;
    let t3 = enc_single(a.dia_noise) + t4;
    let t2 = enc_string(a.band) + t3;
    let t1 = enc_double(a.mjd) + t2;
    lemma_concat_assoc(
        enc_long(a.ccd_visit_id)
        + enc_double(a.mjd)
        + enc_string(a.band),
        enc_single(a.dia_noise),
        t4,
    );
    lemma_concat_assoc(
        enc_long(a.ccd_visit_id)
        + enc_double(a.mjd),
        enc_string(a.band),
        t3,
    );
    lemma_concat_assoc(
        enc_long(a.ccd_visit_id),
        enc_double(a.mjd),
        t2,
    );
    let i0 = i;
    lemma_read_long(a.ccd_visit_id, s, i0, t1);
    let i1 = i0 + enc_long(a.ccd_visit_id).len();
    lemma_read_double(a.mjd, s, i1, t2);
    let i2 = i1 + enc_double(a.mjd).len();
    lemma_read_string(a.band, s, i2, t3);
    let i3 = i2 + enc_string(a.band).len();
    lemma_read_single(a.dia_noise, s, i3, t4);
    let i4 = i3 + enc_single(a.dia_noise).len();
    assert(i4 == i + enc_nd_c1(a).len());
}

pub fn read_nd_c1(bytes: &[u8], pos: usize) -> (r: Option<((i64, u64, String, u32), usize)>)
    ensures
        match r {
            Some((v, j)) => dec_nd_c1(bytes@, pos as int) == Some(((v.0, v.1, v.2@, v.3), j as int)),
            None => dec_nd_c1(bytes@, pos as int) is None,
        },
{
    let (f0, p0) = read_long(bytes, pos)?;
    let (f1, p1) = read_double(bytes, p0)?;
    let (f2, p2) = read_string(bytes, p1)?;
    let (f3, p3) = read_single(bytes, p2)?;
    Some(((f0, f1, f2, f3), p3))
}

#[verifier::rlimit(100)]
pub fn write_nd_c1(out: &mut Vec<u8>, a: &DiaNondetectionLimit)
    requires
        encodable_dia_nondetection_limit(a@),
    ensures
        final(out)@ == old(out)@ + enc_nd_c1(a@),
{
    write_long(out, a.ccd_visit_id);
    assert(out@ =~= old(out)@ + (enc_long(a@.ccd_visit_id)));
    write_double(out, a.mjd);
    assert(out@ =~= old(out)@ + (enc_long(a@.ccd_visit_id)
        + enc_double(a@.mjd)));
    write_string(out, a.band.as_str());
    assert(out@ =~= old(out)@ + (enc_long(a@.ccd_visit_id)
        + enc_double(a@.mjd)
        + enc_string(a@.band)));
    write_single(out, a.dia_noise);
    assert(out@ =~= old(out)@ + (enc_long(a@.ccd_visit_id)
        + enc_double(a@.mjd)
        + enc_string(a@.band)
        + enc_single(a@.dia_noise)));
}

pub open spec fn enc_dia_nondetection_limit(a: DiaNondetectionLimitSpec) -> Seq<u8> {
    enc_nd_c1(a)
}

pub open spec fn dec_dia_nondetection_limit(s: Seq<u8>, i: int) -> Option<(DiaNondetectionLimitSpec, int)> {
    match dec_nd_c1(s, i) {
        None => None,
        Some((c1, p1)) => {
            Some((DiaNondetectionLimitSpec {
                ccd_visit_id: c1.0,
                mjd: c1.1,
                band: c1.2,
                dia_noise: c1.3,
            }, p1))
        },
    }
}

pub proof fn lemma_dec_dia_nondetection_limit_range(s: Seq<u8>, i: int)
    ensures
        dec_dia_nondetection_limit(s, i) matches Some((v, j)) ==> i < j <= s.len(),
{
    lemma_dec_nd_c1_range(s, i);
    match dec_nd_c1(s, i) {
        None => {},
        Some((c1, p1)) => {
        },
    }
}

pub proof fn lemma_read_dia_nondetection_limit(a: DiaNondetectionLimitSpec, s: Seq<u8>, i: int, rest: Seq<u8>)
    requires
        0 <= i <= s.len(),
        encodable_dia_nondetection_limit(a),
        s.skip(i) == enc_dia_nondetection_limit(a) + rest,
    ensures
        i + enc_dia_nondetection_limit(a).len() <= s.len(),
        dec_dia_nondetection_limit(s, i) == Some((a, i + enc_dia_nondetection_limit(a).len())),
        s.skip(i + enc_dia_nondetection_limit(a).len()) == rest,
{
    let t1 = rest;
    let i0 = i;
    lemma_read_nd_c1(a, s, i0, t1);
    let i1 = i0 + enc_nd_c1(a).len();
    assert(i1 == i + enc_dia_nondetection_limit(a).len());
    let d = DiaNondetectionLimitSpec {
        ccd_visit_id: a.ccd_visit_id,
        mjd: a.mjd,
        band: a.band,
        dia_noise: a.dia_noise,
    };
    assert(d =~= a);
}

pub fn read_dia_nondetection_limit(bytes: &[u8], pos: usize) -> (r: Option<(DiaNondetectionLimit, usize)>)
    ensures
        match r {
            Some((v, j)) => dec_dia_nondetection_limit(bytes@, pos as int) == Some((v@, j as int)),
            None => dec_dia_nondetection_limit(bytes@, pos as int) is None,
        },
{
    let (c1, p1) = read_nd_c1(bytes, pos)?;
    let v = DiaNondetectionLimit {
        ccd_visit_id: c1.0,
        mjd: c1.1,
        band: c1.2,
        dia_noise: c1.3,
    };
    Some((v, p1))
}

pub fn write_dia_nondetection_limit(out: &mut Vec<u8>, a: &DiaNondetectionLimit)
    requires
        encodable_dia_nondetection_limit(a@),
    ensures
        final(out)@ == old(out)@ + enc_dia_nondetection_limit(a@),
{
    write_nd_c1(out, a);
    assert(out@ =~= old(out)@ + (enc_nd_c1(a@)));
}


// ---------------------------------------------------------------------------
// arrays: one or more counted blocks of records, closed by a zero count
// ---------------------------------------------------------------------------

pub open spec fn enc_ds_items(items: Seq<DiaSourceSpec>) -> Seq<u8>
    decreases items.len(),
{
    if items.len() == 0 {
        seq![]
    } else {
        enc_dia_source(items[0]) + enc_ds_items(items.drop_first())
    }
}

pub open spec fn dec_ds_items(s: Seq<u8>, i: int, count: nat) -> Option<(Seq<DiaSourceSpec>, int)>
    decreases count,
{
    if count == 0 {
        Some((Seq::empty(), i))
    } else {
        match dec_dia_source(s, i) {
            None => None,
            Some((v, j)) => match dec_ds_items(s, j, (count - 1) as nat) {
                None => None,
                Some((vs, k)) => Some((seq![v] + vs, k)),
            },
        }
    }
}

pub proof fn lemma_dec_ds_items_range(s: Seq<u8>, i: int, count: nat)
    requires
        i <= s.len(),
    ensures
        dec_ds_items(s, i, count) matches Some((m, e)) ==> i <= e <= s.len() && (count > 0 ==> i < e),
    decreases count,
{
    if count > 0 {
        lemma_dec_dia_source_range(s, i);
        match dec_dia_source(s, i) {
            None => {},
            Some((v, j)) => {
                lemma_dec_ds_items_range(s, j, (count - 1) as nat);
            },
        }
    }
}

#[verifier::rlimit(100)]
#[verifier::spinoff_prover]
pub proof fn lemma_read_ds_items(items: Seq<DiaSourceSpec>, s: Seq<u8>, i: int, rest: Seq<u8>)
    requires
        0 <= i <= s.len(),
        forall|k: int| 0 <= k < items.len() ==> wire_form_dia_source(#[trigger] items[k]) && encodable_dia_source(items[k]),
        s.skip(i) == enc_ds_items(items) + rest,
    ensures
        i + enc_ds_items(items).len() <= s.len(),
        dec_ds_items(s, i, items.len() as nat) == Some((items, i + enc_ds_items(items).len())),
        s.skip(i + enc_ds_items(items).len()) == rest,
    decreases items.len(),
{
    if items.len() == 0 {
        assert(enc_ds_items(items) + rest =~= rest);
        assert(s.skip(i) == rest);
        assert(items =~= Seq::<DiaSourceSpec>::empty());
    } else {
        lemma_concat_assoc(enc_dia_source(items[0]), enc_ds_items(items.drop_first()), rest);
        lemma_read_dia_source(items[0], s, i, enc_ds_items(items.drop_first()) + rest);
        assert(forall|k: int| 0 <= k < items.drop_first().len() ==> #[trigger] items.drop_first()[k] == items[k + 1]);
        lemma_read_ds_items(items.drop_first(), s, i + enc_dia_source(items[0]).len(), rest);
        assert(seq![items[0]] + items.drop_first() =~= items);
    }
}

pub proof fn lemma_enc_ds_items_snoc(items: Seq<DiaSourceSpec>, x: DiaSourceSpec)
    ensures
        enc_ds_items(items.push(x)) == enc_ds_items(items) + enc_dia_source(x),
    decreases items.len(),
{
    if items.len() == 0 {
        assert(items.push(x)[0] == x);
        assert(items.push(x).drop_first() =~= Seq::<DiaSourceSpec>::empty());
        assert(enc_dia_source(x) + enc_ds_items(Seq::<DiaSourceSpec>::empty()) =~= enc_dia_source(x));
        assert(enc_ds_items(items) + enc_dia_source(x) =~= enc_dia_source(x));
    } else {
        assert(items.push(x).drop_first() =~= items.drop_first().push(x));
        assert(items.push(x)[0] == items[0]);
        lemma_enc_ds_items_snoc(items.drop_first(), x);
        lemma_concat_assoc(enc_dia_source(items[0]), enc_ds_items(items.drop_first()), enc_dia_source(x));
    }
}

pub open spec fn enc_ds_array(items: Seq<DiaSourceSpec>) -> Seq<u8> {
    if items.len() == 0 {
        enc_long(0)
    } else {
        enc_long(items.len() as i64) + enc_ds_items(items) + enc_long(0)
    }
}

pub open spec fn dec_ds_blocks(s: Seq<u8>, i: int) -> Option<(Seq<DiaSourceSpec>, int)>
    decreases s.len() - i,
{
    match dec_long(s, i) {
        None => None,
        Some((n, j)) => {
            if n == 0 {
                Some((Seq::empty(), j))
            } else if n > 0 {
                match dec_ds_items(s, j, n as nat) {
                    None => None,
                    Some((items, k)) => {
                        if i < k <= s.len() {
                            match dec_ds_blocks(s, k) {
                                None => None,
                                Some((more, e)) => Some((items + more, e)),
                            }
                        } else {
                            None
                        }
                    },
                }
            } else {
                match dec_long(s, j) {
                    None => None,
                    Some((sz, j2)) => match dec_ds_items(s, j2, (-(n as int)) as nat) {
                        None => None,
                        Some((items, k)) => {
                            if i < k <= s.len() {
                                match dec_ds_blocks(s, k) {
                                    None => None,
                                    Some((more, e)) => Some((items + more, e)),
                                }
                            } else {
                                None
                            }
                        },
                    },
                }
            }
        },
    }
}

#[verifier::rlimit(100)]
pub proof fn lemma_read_ds_array(items: Seq<DiaSourceSpec>, s: Seq<u8>, i: int, rest: Seq<u8>)
    requires
        0 <= i <= s.len(),
        items.len() <= i64::MAX,
        forall|k: int| 0 <= k < items.len() ==> wire_form_dia_source(#[trigger] items[k]) && encodable_dia_source(items[k]),
        s.skip(i) == enc_ds_array(items) + rest,
    ensures
        i + enc_ds_array(items).len() <= s.len(),
        dec_ds_blocks(s, i) == Some((items, i + enc_ds_array(items).len())),
        s.skip(i + enc_ds_array(items).len()) == rest,
{
    if items.len() == 0 {
        lemma_read_long(0i64, s, i, rest);
        assert(Seq::<DiaSourceSpec>::empty() =~= items);
    } else {
        let n = items.len() as i64;
        lemma_concat_assoc(enc_long(n) + enc_ds_items(items), enc_long(0i64), rest);
        lemma_concat_assoc(enc_long(n), enc_ds_items(items), enc_long(0i64) + rest);
        lemma_read_long(n, s, i, enc_ds_items(items) + (enc_long(0i64) + rest));
        let i1 = i + enc_long(n).len();
        lemma_read_ds_items(items, s, i1, enc_long(0i64) + rest);
        let i2 = i1 + enc_ds_items(items).len();
        lemma_read_long(0i64, s, i2, rest);
        lemma_enc_varint_len(zigzag(n));
        let i3 = i2 + enc_long(0i64).len();
        assert(dec_ds_blocks(s, i2) == Some((Seq::<DiaSourceSpec>::empty(), i3)));
        assert(items + Seq::<DiaSourceSpec>::empty() =~= items);
    }
}

#[verifier::rlimit(100)]
#[verifier::loop_isolation(false)]
pub fn read_array_dia_source(bytes: &[u8], pos: usize) -> (r: Option<(Vec<DiaSource>, usize)>)
    ensures
        match r {
            Some((v, j)) => dec_ds_blocks(bytes@, pos as int) == Some((seq_view_dia_source(v@), j as int)),
            None => dec_ds_blocks(bytes@, pos as int) is None,
        },
{
    if pos > bytes.len() {
        return None;
    }
    let mut acc: Vec<DiaSource> = Vec::new();
    let mut cur: usize = pos;
    proof {
        assert(seq_view_dia_source(acc@) =~= Seq::<DiaSourceSpec>::empty());
    }
    loop
        invariant
            pos <= cur <= bytes@.len(),
            match dec_ds_blocks(bytes@, cur as int) {
                None => dec_ds_blocks(bytes@, pos as int) is None,
                Some((m, e)) => dec_ds_blocks(bytes@, pos as int) == Some((seq_view_dia_source(acc@) + m, e)),
            },
        decreases bytes@.len() - cur,
    {
        match read_long(bytes, cur) {
            None => {
                return None;
            },
            Some((n, j)) => {
                proof {
                    lemma_dec_varint_range(bytes@, cur as int);
                }
                if n == 0 {
                    proof {
                        assert(seq_view_dia_source(acc@) + Seq::<DiaSourceSpec>::empty() =~= seq_view_dia_source(acc@));
                    }
                    return Some((acc, j));
                }
                let mut icur: usize = j;
                let cnt: u64 = if n < 0 {
                    match read_long(bytes, icur) {
                        None => {
                            return None;
                        },
                        Some((sz, j2)) => {
                            proof {
                                lemma_dec_varint_range(bytes@, icur as int);
                            }
                            icur = j2;
                        },
                    }
                    ((-(n + 1)) as u64) + 1
                } else {
                    n as u64
                };
                let ghost istart = icur as int;
                let mut items: Vec<DiaSource> = Vec::new();
                let mut k: u64 = 0;
                proof {
                    assert(seq_view_dia_source(items@) =~= Seq::<DiaSourceSpec>::empty());
                }
                while k < cnt
                    invariant
                        k <= cnt,
                        cur < icur <= bytes@.len(),
                        (cur as int) < istart <= icur as int,
                        match dec_ds_items(bytes@, icur as int, (cnt - k) as nat) {
                            None => dec_ds_items(bytes@, istart, cnt as nat) is None,
                            Some((m, e)) => dec_ds_items(bytes@, istart, cnt as nat) == Some((seq_view_dia_source(items@) + m, e)),
                        },
                    decreases cnt - k,
                {
                    match read_dia_source(bytes, icur) {
                        None => {
                            proof {
                                if n > 0 {
                                    assert(cnt as nat == n as nat);
                                } else {
                                    assert(cnt as nat == (-(n as int)) as nat);
                                }
                                assert(dec_ds_items(bytes@, istart, cnt as nat) is None);
                                assert(dec_ds_blocks(bytes@, cur as int) is None);
                            }
                            return None;
                        },
                        Some((x, j2)) => {
                            proof {
                                lemma_dec_dia_source_range(bytes@, icur as int);
                                assert(seq_view_dia_source(items@.push(x)) =~= seq_view_dia_source(items@) + seq![x@]);
                                match dec_ds_items(bytes@, j2 as int, ((cnt - k) - 1) as nat) {
                                    None => {},
                                    Some((m2, e)) => {
                                        assert(((seq_view_dia_source(items@) + seq![x@]) + m2) =~= (seq_view_dia_source(items@) + (seq![x@] + m2)));
                                    },
                                }
                            }
                            items.push(x);
                            icur = j2;
                            k = k + 1;
                        },
                    }
                }
                proof {
                    assert(seq_view_dia_source(items@) + Seq::<DiaSourceSpec>::empty() =~= seq_view_dia_source(items@));
                    match dec_ds_blocks(bytes@, icur as int) {
                        None => {},
                        Some((more, e2)) => {
                            assert(((seq_view_dia_source(acc@) + seq_view_dia_source(items@)) + more) =~= (seq_view_dia_source(acc@) + (seq_view_dia_source(items@) + more)));
                        },
                    }
                    assert(seq_view_dia_source(acc@ + items@) =~= seq_view_dia_source(acc@) + seq_view_dia_source(items@));
                }
                acc.append(&mut items);
                cur = icur;
            },
        }
    }
}

#[verifier::rlimit(100)]
pub fn write_array_dia_source(out: &mut Vec<u8>, items: &Vec<DiaSource>)
    requires
        items@.len() <= i64::MAX,
        forall|k: int| 0 <= k < items@.len() ==> wire_form_dia_source(#[trigger] items@[k]@) && encodable_dia_source(items@[k]@),
    ensures
        final(out)@ == old(out)@ + enc_ds_array(seq_view_dia_source(items@)),
{
    let ghost sv = seq_view_dia_source(items@);
    if items.len() == 0 {
        write_long(out, 0);
        proof {
            assert(sv.len() == 0);
        }
    } else {
        write_long(out, items.len() as i64);
        let mut k: usize = 0;
        proof {
            assert(sv.take(0) =~= Seq::<DiaSourceSpec>::empty());
            assert(out@ =~= old(out)@ + enc_long(items@.len() as i64) + enc_ds_items(sv.take(0)));
        }
        while k < items.len()
            invariant
                k <= items@.len(),
                items@.len() <= i64::MAX,
                forall|k: int| 0 <= k < items@.len() ==> wire_form_dia_source(#[trigger] items@[k]@) && encodable_dia_source(items@[k]@),
                sv == seq_view_dia_source(items@),
                out@ == old(out)@ + enc_long(items@.len() as i64) + enc_ds_items(sv.take(k as int)),
            decreases items@.len() - k,
        {
            write_dia_source(out, &items[k]);
            proof {
                assert(sv.take(k + 1 as int) =~= sv.take(k as int).push(sv[k as int]));
                lemma_enc_ds_items_snoc(sv.take(k as int), sv[k as int]);
                assert(items@[k as int]@ == sv[k as int]);
                assert(out@ =~= old(out)@ + enc_long(items@.len() as i64) + enc_ds_items(sv.take(k + 1 as int)));
            }
            k = k + 1;
        }
        write_long(out, 0);
        proof {
            assert(sv.take(sv.len() as int) =~= sv);
            assert(out@ =~= old(out)@ + enc_ds_array(sv));
        }
    }
}

pub open spec fn enc_opt_ds_array(v: Option<Seq<DiaSourceSpec>>) -> Seq<u8> {
    match v {
        None => seq![0u8],
        Some(items) => seq![2u8] + enc_ds_array(items),
    }
}

pub open spec fn dec_opt_ds_array(s: Seq<u8>, i: int) -> Option<(Option<Seq<DiaSourceSpec>>, int)> {
    match dec_varint(s, i) {
        None => None,
        Some((tag, j)) => if tag == 0 {
            Some((Option::<Seq<DiaSourceSpec>>::None, j))
        } else if tag == 2 {
            match dec_ds_blocks(s, j) {
                None => None,
                Some((x, k)) => Some((Some(x), k)),
            }
        } else {
            None
        },
    }
}

#[verifier::rlimit(100)]
#[verifier::spinoff_prover]
pub proof fn lemma_read_opt_ds_array(v: Option<Seq<DiaSourceSpec>>, s: Seq<u8>, i: int, rest: Seq<u8>)
    requires
        0 <= i <= s.len(),
        match v {
            Some(items) => items.len() <= i64::MAX && (forall|k: int| 0 <= k < items.len() ==> wire_form_dia_source(#[trigger] items[k]) && encodable_dia_source(items[k])),
            None => true,
        },
        s.skip(i) == enc_opt_ds_array(v) + rest,
    ensures
        i + enc_opt_ds_array(v).len() <= s.len(),
        dec_opt_ds_array(s, i) == Some((v, i + enc_opt_ds_array(v).len())),
        s.skip(i + enc_opt_ds_array(v).len()) == rest,
{
    match v {
        None => {
            assert(enc_opt_ds_array(v) =~= enc_varint(0u64));
            lemma_read_varint(0u64, s, i, rest);
        },
        Some(items) => {
            assert(seq![2u8] =~= enc_varint(2u64));
            lemma_concat_assoc(seq![2u8], enc_ds_array(items), rest);
            lemma_read_varint(2u64, s, i, enc_ds_array(items) + rest);
            lemma_read_ds_array(items, s, i + 1, rest);
        },
    }
}

pub fn read_opt_array_dia_source(bytes: &[u8], pos: usize) -> (r: Option<(Option<Vec<DiaSource>>, usize)>)
    ensures
        match r {
            Some((v, j)) => dec_opt_ds_array(bytes@, pos as int) == Some((view_opt_vec_dia_source(v), j as int)),
            None => dec_opt_ds_array(bytes@, pos as int) is None,
        },
{
    match read_varint(bytes, pos) {
        None => None,
        Some((tag, j)) => {
            if tag == 0 {
                Some((None, j))
            } else if tag == 2 {
                match read_array_dia_source(bytes, j) {
                    None => None,
                    Some((x, k)) => Some((Some(x), k)),
                }
            } else {
                None
            }
        },
    }
}

#[verifier::rlimit(100)]
pub fn write_opt_array_dia_source(out: &mut Vec<u8>, v: &Option<Vec<DiaSource>>)
    requires
        match v {
            Some(items) => items@.len() <= i64::MAX && (forall|k: int| 0 <= k < items@.len() ==> wire_form_dia_source(#[trigger] items@[k]@) && encodable_dia_source(items@[k]@)),
            None => true,
        },
    ensures
        final(out)@ == old(out)@ + enc_opt_ds_array(view_opt_vec_dia_source(*v)),
{
    match v {
        None => {
            out.push(0u8);
            assert(out@ =~= old(out)@ + enc_opt_ds_array(view_opt_vec_dia_source(*v)));
        },
        Some(items) => {
            out.push(2u8);
            write_array_dia_source(out, items);
            assert(out@ =~= old(out)@ + enc_opt_ds_array(view_opt_vec_dia_source(*v)));
        },
    }
}

pub open spec fn enc_fs_items(items: Seq<DiaForcedSourceSpec>) -> Seq<u8>
    decreases items.len(),
{
    if items.len() == 0 {
        seq![]
    } else {
        enc_dia_forced_source(items[0]) + enc_fs_items(items.drop_first())
    }
}

pub open spec fn dec_fs_items(s: Seq<u8>, i: int, count: nat) -> Option<(Seq<DiaForcedSourceSpec>, int)>
    decreases count,
{
    if count == 0 {
        Some((Seq::empty(), i))
    } else {
        match dec_dia_forced_source(s, i) {
            None => None,
            Some((v, j)) => match dec_fs_items(s, j, (count - 1) as nat) {
                None => None,
                Some((vs, k)) => Some((seq![v] + vs, k)),
            },
        }
    }
}

pub proof fn lemma_dec_fs_items_range(s: Seq<u8>, i: int, count: nat)
    requires
        i <= s.len(),
    ensures
        dec_fs_items(s, i, count) matches Some((m, e)) ==> i <= e <= s.len() && (count > 0 ==> i < e),
    decreases count,
{
    if count > 0 {
        lemma_dec_dia_forced_source_range(s, i);
        match dec_dia_forced_source(s, i) {
            None => {},
            Some((v, j)) => {
                lemma_dec_fs_items_range(s, j, (count - 1) as nat);
            },
        }
    }
}

pub proof fn lemma_read_fs_items(items: Seq<DiaForcedSourceSpec>, s: Seq<u8>, i: int, rest: Seq<u8>)
    requires
        0 <= i <= s.len(),
        forall|k: int| 0 <= k < items.len() ==> wire_form_dia_forced_source(#[trigger] items[k]) && encodable_dia_forced_source(items[k]),
        s.skip(i) == enc_fs_items(items) + rest,
    ensures
        i + enc_fs_items(items).len() <= s.len(),
        dec_fs_items(s, i, items.len() as nat) == Some((items, i + enc_fs_items(items).len())),
        s.skip(i + enc_fs_items(items).len()) == rest,
    decreases items.len(),
{
    if items.len() == 0 {
        assert(enc_fs_items(items) + rest =~= rest);
        assert(s.skip(i) == rest);
        assert(items =~= Seq::<DiaForcedSourceSpec>::empty());
    } else {
        lemma_concat_assoc(enc_dia_forced_source(items[0]), enc_fs_items(items.drop_first()), rest);
        lemma_read_dia_forced_source(items[0], s, i, enc_fs_items(items.drop_first()) + rest);
        assert(forall|k: int| 0 <= k < items.drop_first().len() ==> #[trigger] items.drop_first()[k] == items[k + 1]);
        lemma_read_fs_items(items.drop_first(), s, i + enc_dia_forced_source(items[0]).len(), rest);
        assert(seq![items[0]] + items.drop_first() =~= items);
    }
}

pub proof fn lemma_enc_fs_items_snoc(items: Seq<DiaForcedSourceSpec>, x: DiaForcedSourceSpec)
    ensures
        enc_fs_items(items.push(x)) == enc_fs_items(items) + enc_dia_forced_source(x),
    decreases items.len(),
{
    if items.len() == 0 {
        assert(items.push(x)[0] == x);
        assert(items.push(x).drop_first() =~= Seq::<DiaForcedSourceSpec>::empty());
        assert(enc_dia_forced_source(x) + enc_fs_items(Seq::<DiaForcedSourceSpec>::empty()) =~= enc_dia_forced_source(x));
        assert(enc_fs_items(items) + enc_dia_forced_source(x) =~= enc_dia_forced_source(x));
    } else {
        assert(items.push(x).drop_first() =~= items.drop_first().push(x));
        assert(items.push(x)[0] == items[0]);
        lemma_enc_fs_items_snoc(items.drop_first(), x);
        lemma_concat_assoc(enc_dia_forced_source(items[0]), enc_fs_items(items.drop_first()), enc_dia_forced_source(x));
    }
}

pub open spec fn enc_fs_array(items: Seq<DiaForcedSourceSpec>) -> Seq<u8> {
    if items.len() == 0 {
        enc_long(0)
    } else {
        enc_long(items.len() as i64) + enc_fs_items(items) + enc_long(0)
    }
}

pub open spec fn dec_fs_blocks(s: Seq<u8>, i: int) -> Option<(Seq<DiaForcedSourceSpec>, int)>
    decreases s.len() - i,
{
    match dec_long(s, i) {
        None => None,
        Some((n, j)) => {
            if n == 0 {
                Some((Seq::empty(), j))
            } else if n > 0 {
                match dec_fs_items(s, j, n as nat) {
                    None => None,
                    Some((items, k)) => {
                        if i < k <= s.len() {
                            match dec_fs_blocks(s, k) {
                                None => None,
                                Some((more, e)) => Some((items + more, e)),
                            }
                        } else {
                            None
                        }
                    },
                }
            } else {
                match dec_long(s, j) {
                    None => None,
                    Some((sz, j2)) => match dec_fs_items(s, j2, (-(n as int)) as nat) {
                        None => None,
                        Some((items, k)) => {
                            if i < k <= s.len() {
                                match dec_fs_blocks(s, k) {
                                    None => None,
                                    Some((more, e)) => Some((items + more, e)),
                                }
                            } else {
                                None
                            }
                        },
                    },
                }
            }
        },
    }
}

#[verifier::rlimit(100)]
pub proof fn lemma_read_fs_array(items: Seq<DiaForcedSourceSpec>, s: Seq<u8>, i: int, rest: Seq<u8>)
    requires
        0 <= i <= s.len(),
        items.len() <= i64::MAX,
        forall|k: int| 0 <= k < items.len() ==> wire_form_dia_forced_source(#[trigger] items[k]) && encodable_dia_forced_source(items[k]),
        s.skip(i) == enc_fs_array(items) + rest,
    ensures
        i + enc_fs_array(items).len() <= s.len(),
        dec_fs_blocks(s, i) == Some((items, i + enc_fs_array(items).len())),
        s.skip(i + enc_fs_array(items).len()) == rest,
{
    if items.len() == 0 {
        lemma_read_long(0i64, s, i, rest);
        assert(Seq::<DiaForcedSourceSpec>::empty() =~= items);
    } else {
        let n = items.len() as i64;
        lemma_concat_assoc(enc_long(n) + enc_fs_items(items), enc_long(0i64), rest);
        lemma_concat_assoc(enc_long(n), enc_fs_items(items), enc_long(0i64) + rest);
        lemma_read_long(n, s, i, enc_fs_items(items) + (enc_long(0i64) + rest));
        let i1 = i + enc_long(n).len();
        lemma_read_fs_items(items, s, i1, enc_long(0i64) + rest);
        let i2 = i1 + enc_fs_items(items).len();
        lemma_read_long(0i64, s, i2, rest);
        lemma_enc_varint_len(zigzag(n));
        let i3 = i2 + enc_long(0i64).len();
        assert(dec_fs_blocks(s, i2) == Some((Seq::<DiaForcedSourceSpec>::empty(), i3)));
        assert(items + Seq::<DiaForcedSourceSpec>::empty() =~= items);
    }
}

#[verifier::rlimit(100)]
#[verifier::loop_isolation(false)]
pub fn read_array_dia_forced_source(bytes: &[u8], pos: usize) -> (r: Option<(Vec<DiaForcedSource>, usize)>)
    ensures
        match r {
            Some((v, j)) => dec_fs_blocks(bytes@, pos as int) == Some((seq_view_dia_forced_source(v@), j as int)),
            None => dec_fs_blocks(bytes@, pos as int) is None,
        },
{
    if pos > bytes.len() {
        return None;
    }
    let mut acc: Vec<DiaForcedSource> = Vec::new();
    let mut cur: usize = pos;
    proof {
        assert(seq_view_dia_forced_source(acc@) =~= Seq::<DiaForcedSourceSpec>::empty());
    }
    loop
        invariant
            pos <= cur <= bytes@.len(),
            match dec_fs_blocks(bytes@, cur as int) {
                None => dec_fs_blocks(bytes@, pos as int) is None,
                Some((m, e)) => dec_fs_blocks(bytes@, pos as int) == Some((seq_view_dia_forced_source(acc@) + m, e)),
            },
        decreases bytes@.len() - cur,
    {
        match read_long(bytes, cur) {
            None => {
                return None;
            },
            Some((n, j)) => {
                proof {
                    lemma_dec_varint_range(bytes@, cur as int);
                }
                if n == 0 {
                    proof {
                        assert(seq_view_dia_forced_source(acc@) + Seq::<DiaForcedSourceSpec>::empty() =~= seq_view_dia_forced_source(acc@));
                    }
                    return Some((acc, j));
                }
                let mut icur: usize = j;
                let cnt: u64 = if n < 0 {
                    match read_long(bytes, icur) {
                        None => {
                            return None;
                        },
                        Some((sz, j2)) => {
                            proof {
                                lemma_dec_varint_range(bytes@, icur as int);
                            }
                            icur = j2;
                        },
                    }
                    ((-(n + 1)) as u64) + 1
                } else {
                    n as u64
                };
                let ghost istart = icur as int;
                let mut items: Vec<DiaForcedSource> = Vec::new();
                let mut k: u64 = 0;
                proof {
                    assert(seq_view_dia_forced_source(items@) =~= Seq::<DiaForcedSourceSpec>::empty());
                }
                while k < cnt
                    invariant
                        k <= cnt,
                        cur < icur <= bytes@.len(),
                        (cur as int) < istart <= icur as int,
                        match dec_fs_items(bytes@, icur as int, (cnt - k) as nat) {
                            None => dec_fs_items(bytes@, istart, cnt as nat) is None,
                            Some((m, e)) => dec_fs_items(bytes@, istart, cnt as nat) == Some((seq_view_dia_forced_source(items@) + m, e)),
                        },
                    decreases cnt - k,
                {
                    match read_dia_forced_source(bytes, icur) {
                        None => {
                            proof {
                                if n > 0 {
                                    assert(cnt as nat == n as nat);
                                } else {
                                    assert(cnt as nat == (-(n as int)) as nat);
                                }
                                assert(dec_fs_items(bytes@, istart, cnt as nat) is None);
                                assert(dec_fs_blocks(bytes@, cur as int) is None);
                            }
                            return None;
                        },
                        Some((x, j2)) => {
                            proof {
                                lemma_dec_dia_forced_source_range(bytes@, icur as int);
                                assert(seq_view_dia_forced_source(items@.push(x)) =~= seq_view_dia_forced_source(items@) + seq![x@]);
                                match dec_fs_items(bytes@, j2 as int, ((cnt - k) - 1) as nat) {
                                    None => {},
                                    Some((m2, e)) => {
                                        assert(((seq_view_dia_forced_source(items@) + seq![x@]) + m2) =~= (seq_view_dia_forced_source(items@) + (seq![x@] + m2)));
                                    },
                                }
                            }
                            items.push(x);
                            icur = j2;
                            k = k + 1;
                        },
                    }
                }
                proof {
                    assert(seq_view_dia_forced_source(items@) + Seq::<DiaForcedSourceSpec>::empty() =~= seq_view_dia_forced_source(items@));
                    match dec_fs_blocks(bytes@, icur as int) {
                        None => {},
                        Some((more, e2)) => {
                            assert(((seq_view_dia_forced_source(acc@) + seq_view_dia_forced_source(items@)) + more) =~= (seq_view_dia_forced_source(acc@) + (seq_view_dia_forced_source(items@) + more)));
                        },
                    }
                    assert(seq_view_dia_forced_source(acc@ + items@) =~= seq_view_dia_forced_source(acc@) + seq_view_dia_forced_source(items@));
                }
                acc.append(&mut items);
                cur = icur;
            },
        }
    }
}

pub fn write_array_dia_forced_source(out: &mut Vec<u8>, items: &Vec<DiaForcedSource>)
    requires
        items@.len() <= i64::MAX,
        forall|k: int| 0 <= k < items@.len() ==> wire_form_dia_forced_source(#[trigger] items@[k]@) && encodable_dia_forced_source(items@[k]@),
    ensures
        final(out)@ == old(out)@ + enc_fs_array(seq_view_dia_forced_source(items@)),
{
    let ghost sv = seq_view_dia_forced_source(items@);
    if items.len() == 0 {
        write_long(out, 0);
        proof {
            assert(sv.len() == 0);
        }
    } else {
        write_long(out, items.len() as i64);
        let mut k: usize = 0;
        proof {
            assert(sv.take(0) =~= Seq::<DiaForcedSourceSpec>::empty());
            assert(out@ =~= old(out)@ + enc_long(items@.len() as i64) + enc_fs_items(sv.take(0)));
        }
        while k < items.len()
            invariant
                k <= items@.len(),
                items@.len() <= i64::MAX,
                forall|k: int| 0 <= k < items@.len() ==> wire_form_dia_forced_source(#[trigger] items@[k]@) && encodable_dia_forced_source(items@[k]@),
                sv == seq_view_dia_forced_source(items@),
                out@ == old(out)@ + enc_long(items@.len() as i64) + enc_fs_items(sv.take(k as int)),
            decreases items@.len() - k,
        {
            write_dia_forced_source(out, &items[k]);
            proof {
                assert(sv.take(k + 1 as int) =~= sv.take(k as int).push(sv[k as int]));
                lemma_enc_fs_items_snoc(sv.take(k as int), sv[k as int]);
                assert(items@[k as int]@ == sv[k as int]);
                assert(out@ =~= old(out)@ + enc_long(items@.len() as i64) + enc_fs_items(sv.take(k + 1 as int)));
            }
            k = k + 1;
        }
        write_long(out, 0);
        proof {
            assert(sv.take(sv.len() as int) =~= sv);
            assert(out@ =~= old(out)@ + enc_fs_array(sv));
        }
    }
}

pub open spec fn enc_opt_fs_array(v: Option<Seq<DiaForcedSourceSpec>>) -> Seq<u8> {
    match v {
        None => seq![0u8],
        Some(items) => seq![2u8] + enc_fs_array(items),
    }
}

pub open spec fn dec_opt_fs_array(s: Seq<u8>, i: int) -> Option<(Option<Seq<DiaForcedSourceSpec>>, int)> {
    match dec_varint(s, i) {
        None => None,
        Some((tag, j)) => if tag == 0 {
            Some((Option::<Seq<DiaForcedSourceSpec>>::None, j))
        } else if tag == 2 {
            match dec_fs_blocks(s, j) {
                None => None,
                Some((x, k)) => Some((Some(x), k)),
            }
        } else {
            None
        },
    }
}

pub proof fn lemma_read_opt_fs_array(v: Option<Seq<DiaForcedSourceSpec>>, s: Seq<u8>, i: int, rest: Seq<u8>)
    requires
        0 <= i <= s.len(),
        match v {
            Some(items) => items.len() <= i64::MAX && (forall|k: int| 0 <= k < items.len() ==> wire_form_dia_forced_source(#[trigger] items[k]) && encodable_dia_forced_source(items[k])),
            None => true,
        },
        s.skip(i) == enc_opt_fs_array(v) + rest,
    ensures
        i + enc_opt_fs_array(v).len() <= s.len(),
        dec_opt_fs_array(s, i) == Some((v, i + enc_opt_fs_array(v).len())),
        s.skip(i + enc_opt_fs_array(v).len()) == rest,
{
    match v {
        None => {
            assert(enc_opt_fs_array(v) =~= enc_varint(0u64));
            lemma_read_varint(0u64, s, i, rest);
        },
        Some(items) => {
            assert(seq![2u8] =~= enc_varint(2u64));
            lemma_concat_assoc(seq![2u8], enc_fs_array(items), rest);
            lemma_read_varint(2u64, s, i, enc_fs_array(items) + rest);
            lemma_read_fs_array(items, s, i + 1, rest);
        },
    }
}

pub fn read_opt_array_dia_forced_source(bytes: &[u8], pos: usize) -> (r: Option<(Option<Vec<DiaForcedSource>>, usize)>)
    ensures
        match r {
            Some((v, j)) => dec_opt_fs_array(bytes@, pos as int) == Some((view_opt_vec_dia_forced_source(v), j as int)),
            None => dec_opt_fs_array(bytes@, pos as int) is None,
        },
{
    match read_varint(bytes, pos) {
        None => None,
        Some((tag, j)) => {
            if tag == 0 {
                Some((None, j))
            } else if tag == 2 {
                match read_array_dia_forced_source(bytes, j) {
                    None => None,
                    Some((x, k)) => Some((Some(x), k)),
                }
            } else {
                None
            }
        },
    }
}

pub fn write_opt_array_dia_forced_source(out: &mut Vec<u8>, v: &Option<Vec<DiaForcedSource>>)
    requires
        match v {
            Some(items) => items@.len() <= i64::MAX && (forall|k: int| 0 <= k < items@.len() ==> wire_form_dia_forced_source(#[trigger] items@[k]@) && encodable_dia_forced_source(items@[k]@)),
            None => true,
        },
    ensures
        final(out)@ == old(out)@ + enc_opt_fs_array(view_opt_vec_dia_forced_source(*v)),
{
    match v {
        None => {
            out.push(0u8);
            assert(out@ =~= old(out)@ + enc_opt_fs_array(view_opt_vec_dia_forced_source(*v)));
        },
        Some(items) => {
            out.push(2u8);
            write_array_dia_forced_source(out, items);
            assert(out@ =~= old(out)@ + enc_opt_fs_array(view_opt_vec_dia_forced_source(*v)));
        },
    }
}

pub open spec fn enc_nd_items(items: Seq<DiaNondetectionLimitSpec>) -> Seq<u8>
    decreases items.len(),
{
    if items.len() == 0 {
        seq![]
    } else {
        enc_dia_nondetection_limit(items[0]) + enc_nd_items(items.drop_first())
    }
}

pub open spec fn dec_nd_items(s: Seq<u8>, i: int, count: nat) -> Option<(Seq<DiaNondetectionLimitSpec>, int)>
    decreases count,
{
    if count == 0 {
        Some((Seq::empty(), i))
    } else {
        match dec_dia_nondetection_limit(s, i) {
            None => None,
            Some((v, j)) => match dec_nd_items(s, j, (count - 1) as nat) {
                None => None,
                Some((vs, k)) => Some((seq![v] + vs, k)),
            },
        }
    }
}

pub proof fn lemma_dec_nd_items_range(s: Seq<u8>, i: int, count: nat)
    requires
        i <= s.len(),
    ensures
        dec_nd_items(s, i, count) matches Some((m, e)) ==> i <= e <= s.len() && (count > 0 ==> i < e),
    decreases count,
{
    if count > 0 {
        lemma_dec_dia_nondetection_limit_range(s, i);
        match dec_dia_nondetection_limit(s, i) {
            None => {},
            Some((v, j)) => {
                lemma_dec_nd_items_range(s, j, (count - 1) as nat);
            },
        }
    }
}

pub proof fn lemma_read_nd_items(items: Seq<DiaNondetectionLimitSpec>, s: Seq<u8>, i: int, rest: Seq<u8>)
    requires
        0 <= i <= s.len(),
        forall|k: int| 0 <= k < items.len() ==> encodable_dia_nondetection_limit(#[trigger] items[k]),
        s.skip(i) == enc_nd_items(items) + rest,
    ensures
        i + enc_nd_items(items).len() <= s.len(),
        dec_nd_items(s, i, items.len() as nat) == Some((items, i + enc_nd_items(items).len())),
        s.skip(i + enc_nd_items(items).len()) == rest,
    decreases items.len(),
{
    if items.len() == 0 {
        assert(enc_nd_items(items) + rest =~= rest);
        assert(s.skip(i) == rest);
        assert(items =~= Seq::<DiaNondetectionLimitSpec>::empty());
    } else {
        lemma_concat_assoc(enc_dia_nondetection_limit(items[0]), enc_nd_items(items.drop_first()), rest);
        lemma_read_dia_nondetection_limit(items[0], s, i, enc_nd_items(items.drop_first()) + rest);
        assert(forall|k: int| 0 <= k < items.drop_first().len() ==> #[trigger] items.drop_first()[k] == items[k + 1]);
        lemma_read_nd_items(items.drop_first(), s, i + enc_dia_nondetection_limit(items[0]).len(), rest);
        assert(seq![items[0]] + items.drop_first() =~= items);
    }
}

pub proof fn lemma_enc_nd_items_snoc(items: Seq<DiaNondetectionLimitSpec>, x: DiaNondetectionLimitSpec)
    ensures
        enc_nd_items(items.push(x)) == enc_nd_items(items) + enc_dia_nondetection_limit(x),
    decreases items.len(),
{
    if items.len() == 0 {
        assert(items.push(x)[0] == x);
        assert(items.push(x).drop_first() =~= Seq::<DiaNondetectionLimitSpec>::empty());
        assert(enc_dia_nondetection_limit(x) + enc_nd_items(Seq::<DiaNondetectionLimitSpec>::empty()) =~= enc_dia_nondetection_limit(x));
        assert(enc_nd_items(items) + enc_dia_nondetection_limit(x) =~= enc_dia_nondetection_limit(x));
    } else {
        assert(items.push(x).drop_first() =~= items.drop_first().push(x));
        assert(items.push(x)[0] == items[0]);
        lemma_enc_nd_items_snoc(items.drop_first(), x);
        lemma_concat_assoc(enc_dia_nondetection_limit(items[0]), enc_nd_items(items.drop_first()), enc_dia_nondetection_limit(x));
    }
}

pub open spec fn enc_nd_array(items: Seq<DiaNondetectionLimitSpec>) -> Seq<u8> {
    if items.len() == 0 {
        enc_long(0)
    } else {
        enc_long(items.len() as i64) + enc_nd_items(items) + enc_long(0)
    }
}

pub open spec fn dec_nd_blocks(s: Seq<u8>, i: int) -> Option<(Seq<DiaNondetectionLimitSpec>, int)>
    decreases s.len() - i,
{
    match dec_long(s, i) {
        None => None,
        Some((n, j)) => {
            if n == 0 {
                Some((Seq::empty(), j))
            } else if n > 0 {
                match dec_nd_items(s, j, n as nat) {
                    None => None,
                    Some((items, k)) => {
                        if i < k <= s.len() {
                            match dec_nd_blocks(s, k) {
                                None => None,
                                Some((more, e)) => Some((items + more, e)),
                            }
                        } else {
                            None
                        }
                    },
                }
            } else {
                match dec_long(s, j) {
                    None => None,
                    Some((sz, j2)) => match dec_nd_items(s, j2, (-(n as int)) as nat) {
                        None => None,
                        Some((items, k)) => {
                            if i < k <= s.len() {
                                match dec_nd_blocks(s, k) {
                                    None => None,
                                    Some((more, e)) => Some((items + more, e)),
                                }
                            } else {
                                None
                            }
                        },
                    },
                }
            }
        },
    }
}

#[verifier::rlimit(100)]
pub proof fn lemma_read_nd_array(items: Seq<DiaNondetectionLimitSpec>, s: Seq<u8>, i: int, rest: Seq<u8>)
    requires
        0 <= i <= s.len(),
        items.len() <= i64::MAX,
        forall|k: int| 0 <= k < items.len() ==> encodable_dia_nondetection_limit(#[trigger] items[k]),
        s.skip(i) == enc_nd_array(items) + rest,
    ensures
        i + enc_nd_array(items).len() <= s.len(),
        dec_nd_blocks(s, i) == Some((items, i + enc_nd_array(items).len())),
        s.skip(i + enc_nd_array(items).len()) == rest,
{
    if items.len() == 0 {
        lemma_read_long(0i64, s, i, rest);
        assert(Seq::<DiaNondetectionLimitSpec>::empty() =~= items);
    } else {
        let n = items.len() as i64;
        lemma_concat_assoc(enc_long(n) + enc_nd_items(items), enc_long(0i64), rest);
        lemma_concat_assoc(enc_long(n), enc_nd_items(items), enc_long(0i64) + rest);
        lemma_read_long(n, s, i, enc_nd_items(items) + (enc_long(0i64) + rest));
        let i1 = i + enc_long(n).len();
        lemma_read_nd_items(items, s, i1, enc_long(0i64) + rest);
        let i2 = i1 + enc_nd_items(items).len();
        lemma_read_long(0i64, s, i2, rest);
        lemma_enc_varint_len(zigzag(n));
        let i3 = i2 + enc_long(0i64).len();
        assert(dec_nd_blocks(s, i2) == Some((Seq::<DiaNondetectionLimitSpec>::empty(), i3)));
        assert(items + Seq::<DiaNondetectionLimitSpec>::empty() =~= items);
    }
}

#[verifier::rlimit(100)]
#[verifier::loop_isolation(false)]
pub fn read_array_dia_nondetection_limit(bytes: &[u8], pos: usize) -> (r: Option<(Vec<DiaNondetectionLimit>, usize)>)
    ensures
        match r {
            Some((v, j)) => dec_nd_blocks(bytes@, pos as int) == Some((seq_view_dia_nondetection_limit(v@), j as int)),
            None => dec_nd_blocks(bytes@, pos as int) is None,
        },
{
    if pos > bytes.len() {
        return None;
    }
    let mut acc: Vec<DiaNondetectionLimit> = Vec::new();
    let mut cur: usize = pos;
    proof {
        assert(seq_view_dia_nondetection_limit(acc@) =~= Seq::<DiaNondetectionLimitSpec>::empty());
    }
    loop
        invariant
            pos <= cur <= bytes@.len(),
            match dec_nd_blocks(bytes@, cur as int) {
                None => dec_nd_blocks(bytes@, pos as int) is None,
                Some((m, e)) => dec_nd_blocks(bytes@, pos as int) == Some((seq_view_dia_nondetection_limit(acc@) + m, e)),
            },
        decreases bytes@.len() - cur,
    {
        match read_long(bytes, cur) {
            None => {
                return None;
            },
            Some((n, j)) => {
                proof {
                    lemma_dec_varint_range(bytes@, cur as int);
                }
                if n == 0 {
                    proof {
                        assert(seq_view_dia_nondetection_limit(acc@) + Seq::<DiaNondetectionLimitSpec>::empty() =~= seq_view_dia_nondetection_limit(acc@));
                    }
                    return Some((acc, j));
                }
                let mut icur: usize = j;
                let cnt: u64 = if n < 0 {
                    match read_long(bytes, icur) {
                        None => {
                            return None;
                        },
                        Some((sz, j2)) => {
                            proof {
                                lemma_dec_varint_range(bytes@, icur as int);
                            }
                            icur = j2;
                        },
                    }
                    ((-(n + 1)) as u64) + 1
                } else {
                    n as u64
                };
                let ghost istart = icur as int;
                let mut items: Vec<DiaNondetectionLimit> = Vec::new();
                let mut k: u64 = 0;
                proof {
                    assert(seq_view_dia_nondetection_limit(items@) =~= Seq::<DiaNondetectionLimitSpec>::empty());
                }
                while k < cnt
                    invariant
                        k <= cnt,
                        cur < icur <= bytes@.len(),
                        (cur as int) < istart <= icur as int,
                        match dec_nd_items(bytes@, icur as int, (cnt - k) as nat) {
                            None => dec_nd_items(bytes@, istart, cnt as nat) is None,
                            Some((m, e)) => dec_nd_items(bytes@, istart, cnt as nat) == Some((seq_view_dia_nondetection_limit(items@) + m, e)),
                        },
                    decreases cnt - k,
                {
                    match read_dia_nondetection_limit(bytes, icur) {
                        None => {
                            proof {
                                if n > 0 {
                                    assert(cnt as nat == n as nat);
                                } else {
                                    assert(cnt as nat == (-(n as int)) as nat);
                                }
                                assert(dec_nd_items(bytes@, istart, cnt as nat) is None);
                                assert(dec_nd_blocks(bytes@, cur as int) is None);
                            }
                            return None;
                        },
                        Some((x, j2)) => {
                            proof {
                                lemma_dec_dia_nondetection_limit_range(bytes@, icur as int);
                                assert(seq_view_dia_nondetection_limit(items@.push(x)) =~= seq_view_dia_nondetection_limit(items@) + seq![x@]);
                                match dec_nd_items(bytes@, j2 as int, ((cnt - k) - 1) as nat) {
                                    None => {},
                                    Some((m2, e)) => {
                                        assert(((seq_view_dia_nondetection_limit(items@) + seq![x@]) + m2) =~= (seq_view_dia_nondetection_limit(items@) + (seq![x@] + m2)));
                                    },
                                }
                            }
                            items.push(x);
                            icur = j2;
                            k = k + 1;
                        },
                    }
                }
                proof {
                    assert(seq_view_dia_nondetection_limit(items@) + Seq::<DiaNondetectionLimitSpec>::empty() =~= seq_view_dia_nondetection_limit(items@));
                    match dec_nd_blocks(bytes@, icur as int) {
                        None => {},
                        Some((more, e2)) => {
                            assert(((seq_view_dia_nondetection_limit(acc@) + seq_view_dia_nondetection_limit(items@)) + more) =~= (seq_view_dia_nondetection_limit(acc@) + (seq_view_dia_nondetection_limit(items@) + more)));
                        },
                    }
                    assert(seq_view_dia_nondetection_limit(acc@ + items@) =~= seq_view_dia_nondetection_limit(acc@) + seq_view_dia_nondetection_limit(items@));
                }
                acc.append(&mut items);
                cur = icur;
            },
        }
    }
}

pub fn write_array_dia_nondetection_limit(out: &mut Vec<u8>, items: &Vec<DiaNondetectionLimit>)
    requires
        items@.len() <= i64::MAX,
        forall|k: int| 0 <= k < items@.len() ==> encodable_dia_nondetection_limit(#[trigger] items@[k]@),
    ensures
        final(out)@ == old(out)@ + enc_nd_array(seq_view_dia_nondetection_limit(items@)),
{
    let ghost sv = seq_view_dia_nondetection_limit(items@);
    if items.len() == 0 {
        write_long(out, 0);
        proof {
            assert(sv.len() == 0);
        }
    } else {
        write_long(out, items.len() as i64);
        let mut k: usize = 0;
        proof {
            assert(sv.take(0) =~= Seq::<DiaNondetectionLimitSpec>::empty());
            assert(out@ =~= old(out)@ + enc_long(items@.len() as i64) + enc_nd_items(sv.take(0)));
        }
        while k < items.len()
            invariant
                k <= items@.len(),
                items@.len() <= i64::MAX,
                forall|k: int| 0 <= k < items@.len() ==> encodable_dia_nondetection_limit(#[trigger] items@[k]@),
                sv == seq_view_dia_nondetection_limit(items@),
                out@ == old(out)@ + enc_long(items@.len() as i64) + enc_nd_items(sv.take(k as int)),
            decreases items@.len() - k,
        {
            write_dia_nondetection_limit(out, &items[k]);
            proof {
                assert(sv.take(k + 1 as int) =~= sv.take(k as int).push(sv[k as int]));
                lemma_enc_nd_items_snoc(sv.take(k as int), sv[k as int]);
                assert(items@[k as int]@ == sv[k as int]);
                assert(out@ =~= old(out)@ + enc_long(items@.len() as i64) + enc_nd_items(sv.take(k + 1 as int)));
            }
            k = k + 1;
        }
        write_long(out, 0);
        proof {
            assert(sv.take(sv.len() as int) =~= sv);
            assert(out@ =~= old(out)@ + enc_nd_array(sv));
        }
    }
}

pub open spec fn enc_opt_nd_array(v: Option<Seq<DiaNondetectionLimitSpec>>) -> Seq<u8> {
    match v {
        None => seq![0u8],
        Some(items) => seq![2u8] + enc_nd_array(items),
    }
}

pub open spec fn dec_opt_nd_array(s: Seq<u8>, i: int) -> Option<(Option<Seq<DiaNondetectionLimitSpec>>, int)> {
    match dec_varint(s, i) {
        None => None,
        Some((tag, j)) => if tag == 0 {
            Some((Option::<Seq<DiaNondetectionLimitSpec>>::None, j))
        } else if tag == 2 {
            match dec_nd_blocks(s, j) {
                None => None,
                Some((x, k)) => Some((Some(x), k)),
            }
        } else {
            None
        },
    }
}

pub proof fn lemma_read_opt_nd_array(v: Option<Seq<DiaNondetectionLimitSpec>>, s: Seq<u8>, i: int, rest: Seq<u8>)
    requires
        0 <= i <= s.len(),
        match v {
            Some(items) => items.len() <= i64::MAX && (forall|k: int| 0 <= k < items.len() ==> encodable_dia_nondetection_limit(#[trigger] items[k])),
            None => true,
        },
        s.skip(i) == enc_opt_nd_array(v) + rest,
    ensures
        i + enc_opt_nd_array(v).len() <= s.len(),
        dec_opt_nd_array(s, i) == Some((v, i + enc_opt_nd_array(v).len())),
        s.skip(i + enc_opt_nd_array(v).len()) == rest,
{
    match v {
        None => {
            assert(enc_opt_nd_array(v) =~= enc_varint(0u64));
            lemma_read_varint(0u64, s, i, rest);
        },
        Some(items) => {
            assert(seq![2u8] =~= enc_varint(2u64));
            lemma_concat_assoc(seq![2u8], enc_nd_array(items), rest);
            lemma_read_varint(2u64, s, i, enc_nd_array(items) + rest);
            lemma_read_nd_array(items, s, i + 1, rest);
        },
    }
}

pub fn read_opt_array_dia_nondetection_limit(bytes: &[u8], pos: usize) -> (r: Option<(Option<Vec<DiaNondetectionLimit>>, usize)>)
    ensures
        match r {
            Some((v, j)) => dec_opt_nd_array(bytes@, pos as int) == Some((view_opt_vec_dia_nondetection_limit(v), j as int)),
            None => dec_opt_nd_array(bytes@, pos as int) is None,
        },
{
    match read_varint(bytes, pos) {
        None => None,
        Some((tag, j)) => {
            if tag == 0 {
                Some((None, j))
            } else if tag == 2 {
                match read_array_dia_nondetection_limit(bytes, j) {
                    None => None,
                    Some((x, k)) => Some((Some(x), k)),
                }
            } else {
                None
            }
        },
    }
}

pub fn write_opt_array_dia_nondetection_limit(out: &mut Vec<u8>, v: &Option<Vec<DiaNondetectionLimit>>)
    requires
        match v {
            Some(items) => items@.len() <= i64::MAX && (forall|k: int| 0 <= k < items@.len() ==> encodable_dia_nondetection_limit(#[trigger] items@[k]@)),
            None => true,
        },
    ensures
        final(out)@ == old(out)@ + enc_opt_nd_array(view_opt_vec_dia_nondetection_limit(*v)),
{
    match v {
        None => {
            out.push(0u8);
            assert(out@ =~= old(out)@ + enc_opt_nd_array(view_opt_vec_dia_nondetection_limit(*v)));
        },
        Some(items) => {
            out.push(2u8);
            write_array_dia_nondetection_limit(out, items);
            assert(out@ =~= old(out)@ + enc_opt_nd_array(view_opt_vec_dia_nondetection_limit(*v)));
        },
    }
}

// ---------------------------------------------------------------------------
// the optional object summary
// ---------------------------------------------------------------------------

pub open spec fn enc_opt_dia_object(v: Option<DiaObjectSpec>) -> Seq<u8> {
    match v {
        None => seq![0u8],
        Some(o) => seq![2u8] + enc_dia_object(o),
    }
}

pub open spec fn dec_opt_dia_object(s: Seq<u8>, i: int) -> Option<(Option<DiaObjectSpec>, int)> {
    match dec_varint(s, i) {
        None => None,
        Some((tag, j)) => if tag == 0 {
            Some((Option::<DiaObjectSpec>::None, j))
        } else if tag == 2 {
            match dec_dia_object(s, j) {
                None => None,
                Some((x, k)) => Some((Some(x), k)),
            }
        } else {
            None
        },
    }
}

#[verifier::rlimit(100)]
#[verifier::spinoff_prover]
pub proof fn lemma_read_opt_dia_object(v: Option<DiaObjectSpec>, s: Seq<u8>, i: int, rest: Seq<u8>)
    requires
        0 <= i <= s.len(),
        s.skip(i) == enc_opt_dia_object(v) + rest,
    ensures
        i + enc_opt_dia_object(v).len() <= s.len(),
        dec_opt_dia_object(s, i) == Some((v, i + enc_opt_dia_object(v).len())),
        s.skip(i + enc_opt_dia_object(v).len()) == rest,
{
    match v {
        None => {
            assert(enc_opt_dia_object(v) =~= enc_varint(0u64));
            lemma_read_varint(0u64, s, i, rest);
        },
        Some(o) => {
            assert(seq![2u8] =~= enc_varint(2u64));
            lemma_concat_assoc(seq![2u8], enc_dia_object(o), rest);
            lemma_read_varint(2u64, s, i, enc_dia_object(o) + rest);
            lemma_read_dia_object(o, s, i + 1, rest);
        },
    }
}

pub fn read_opt_dia_object(bytes: &[u8], pos: usize) -> (r: Option<(Option<DiaObject>, usize)>)
    ensures
        match r {
            Some((v, j)) => dec_opt_dia_object(bytes@, pos as int) == Some((view_opt_dia_object(v), j as int)),
            None => dec_opt_dia_object(bytes@, pos as int) is None,
        },
{
    match read_varint(bytes, pos) {
        None => None,
        Some((tag, j)) => {
            if tag == 0 {
                Some((None, j))
            } else if tag == 2 {
                match read_dia_object(bytes, j) {
                    None => None,
                    Some((x, k)) => Some((Some(x), k)),
                }
            } else {
                None
            }
        },
    }
}

#[verifier::rlimit(100)]
pub fn write_opt_dia_object(out: &mut Vec<u8>, v: &Option<DiaObject>)
    ensures
        final(out)@ == old(out)@ + enc_opt_dia_object(view_opt_dia_object(*v)),
{
    match v {
        None => {
            out.push(0u8);
            assert(out@ =~= old(out)@ + enc_opt_dia_object(view_opt_dia_object(*v)));
        },
        Some(o) => {
            out.push(2u8);
            write_dia_object(out, o);
            assert(out@ =~= old(out)@ + enc_opt_dia_object(view_opt_dia_object(*v)));
        },
    }
}

// ---------------------------------------------------------------------------
// the alert envelope
// ---------------------------------------------------------------------------

pub open spec fn enc_lsst_alert(a: LsstAlertSpec) -> Seq<u8> {
    enc_long(a.candid)
        + enc_dia_source(a.candidate)
        + enc_opt_ds_array(a.prv_candidates)
        + enc_opt_fs_array(a.fp_hists)
        + enc_opt_nd_array(a.prv_nondetections)
        + enc_opt_dia_object(a.dia_object)
        + enc_opt_bytes(a.cutout_difference)
        + enc_opt_bytes(a.cutout_science)
        + enc_opt_bytes(a.cutout_template)
}

/// The payload format of one packet: the specification the reader is held
/// to. This is the current alert-packet schema written out as a fixed
/// layout; schema resolution against the registry gates decoding but does
/// not alter this shape.
pub open spec fn dec_lsst_alert(s: Seq<u8>, i: int) -> Option<(LsstAlertSpec, int)> {
    match dec_long(s, i) {
        None => None,
        Some((f0, p0)) => {
            match dec_dia_source(s, p0) {
                None => None,
                Some((f1, p1)) => {
                    match dec_opt_ds_array(s, p1) {
                        None => None,
                        Some((f2, p2)) => {
                            match dec_opt_fs_array(s, p2) {
                                None => None,
                                Some((f3, p3)) => {
                                    match dec_opt_nd_array(s, p3) {
                                        None => None,
                                        Some((f4, p4)) => {
                                            match dec_opt_dia_object(s, p4) {
                                                None => None,
                                                Some((f5, p5)) => {
                                                    match dec_opt_bytes(s, p5) {
                                                        None => None,
                                                        Some((f6, p6)) => {
                                                            match dec_opt_bytes(s, p6) {
                                                                None => None,
                                                                Some((f7, p7)) => {
                                                                    match dec_opt_bytes(s, p7) {
                                                                        None => None,
                                                                        Some((f8, p8)) => {
                                                                            Some((LsstAlertSpec {
                                                                                candid: f0,
                                                                                candidate: f1,
                                                                                prv_candidates: f2,
                                                                                fp_hists: f3,
                                                                                prv_nondetections: f4,
                                                                                dia_object: f5,
                                                                                cutout_difference: f6,
                                                                                cutout_science: f7,
                                                                                cutout_template: f8,
                                                                            }, p8))
                                                                        },
                                                                    }
                                                                },
                                                            }
                                                        },
                                                    }
                                                },
                                            }
                                        },
                                    }
                                },
                            }
                        },
                    }
                },
            }
        },
    }
}

/// Round trip of the payload: a wire-form envelope, encoded, decodes back to
/// itself with every field intact.
pub proof fn lemma_read_lsst_alert(a: LsstAlertSpec, s: Seq<u8>, i: int, rest: Seq<u8>)
    requires
        0 <= i <= s.len(),
        wire_form_lsst_alert(a),
        encodable_lsst_alert(a),
        s.skip(i) == enc_lsst_alert(a) + rest,
    ensures
        i + enc_lsst_alert(a).len() <= s.len(),
        dec_lsst_alert(s, i) == Some((a, i + enc_lsst_alert(a).len())),
        s.skip(i + enc_lsst_alert(a).len()) == rest,
{
    let t9 = rest;
    let t8 = enc_opt_bytes(a.cutout_template) + t9;
    let t7 = enc_opt_bytes(a.cutout_science) + t8;
    let t6 = enc_opt_bytes(a.cutout_difference) + t7;
    let t5 = enc_opt_dia_object(a.dia_object) + t6;
    let t4 = enc_opt_nd_array(a.prv_nondetections) + t5;
    let t3 = enc_opt_fs_array(a.fp_hists) + t4;
    let t2 = enc_opt_ds_array(a.prv_candidates) + t3;
    let t1 = enc_dia_source(a.candidate) + t2;
    lemma_concat_assoc(
        enc_long(a.candid)
        + enc_dia_source(a.candidate)
        + enc_opt_ds_array(a.prv_candidates)
        + enc_opt_fs_array(a.fp_hists)
        + enc_opt_nd_array(a.prv_nondetections)
        + enc_opt_dia_object(a.dia_object)
        + enc_opt_bytes(a.cutout_difference)
        + enc_opt_bytes(a.cutout_science),
        enc_opt_bytes(a.cutout_template),
        t9,
    );
    lemma_concat_assoc(
        enc_long(a.candid)
        + enc_dia_source(a.candidate)
        + enc_opt_ds_array(a.prv_candidates)
        + enc_opt_fs_array(a.fp_hists)
        + enc_opt_nd_array(a.prv_nondetections)
        + enc_opt_dia_object(a.dia_object)
        + enc_opt_bytes(a.cutout_difference),
        enc_opt_bytes(a.cutout_science),
        t8,
    );
    lemma_concat_assoc(
        enc_long(a.candid)
        + enc_dia_source(a.candidate)
        + enc_opt_ds_array(a.prv_candidates)
        + enc_opt_fs_array(a.fp_hists)
        + enc_opt_nd_array(a.prv_nondetections)
        + enc_opt_dia_object(a.dia_object),
        enc_opt_bytes(a.cutout_difference),
        t7,
    );
    lemma_concat_assoc(
        enc_long(a.candid)
        + enc_dia_source(a.candidate)
        + enc_opt_ds_array(a.prv_candidates)
        + enc_opt_fs_array(a.fp_hists)
        + enc_opt_nd_array(a.prv_nondetections),
        enc_opt_dia_object(a.dia_object),
        t6,
    );
    lemma_concat_assoc(
        enc_long(a.candid)
        + enc_dia_source(a.candidate)
        + enc_opt_ds_array(a.prv_candidates)
        + enc_opt_fs_array(a.fp_hists),
        enc_opt_nd_array(a.prv_nondetections),
        t5,
    );
    lemma_concat_assoc(
        enc_long(a.candid)
        + enc_dia_source(a.candidate)
        + enc_opt_ds_array(a.prv_candidates),
        enc_opt_fs_array(a.fp_hists),
        t4,
    );
    lemma_concat_assoc(
        enc_long(a.candid)
        + enc_dia_source(a.candidate),
        enc_opt_ds_array(a.prv_candidates),
        t3,
    );
    lemma_concat_assoc(
        enc_long(a.candid),
        enc_dia_source(a.candidate),
        t2,
    );
    let i0 = i;
    lemma_read_long(a.candid, s, i0, t1);
    let i1 = i0 + enc_long(a.candid).len();
    lemma_read_dia_source(a.candidate, s, i1, t2);
    let i2 = i1 + enc_dia_source(a.candidate).len();
    lemma_read_opt_ds_array(a.prv_candidates, s, i2, t3);
    let i3 = i2 + enc_opt_ds_array(a.prv_candidates).len();
    lemma_read_opt_fs_array(a.fp_hists, s, i3, t4);
    let i4 = i3 + enc_opt_fs_array(a.fp_hists).len();
    lemma_read_opt_nd_array(a.prv_nondetections, s, i4, t5);
    let i5 = i4 + enc_opt_nd_array(a.prv_nondetections).len();
    lemma_read_opt_dia_object(a.dia_object, s, i5, t6);
    let i6 = i5 + enc_opt_dia_object(a.dia_object).len();
    lemma_read_opt_bytes(a.cutout_difference, s, i6, t7);
    let i7 = i6 + enc_opt_bytes(a.cutout_difference).len();
    lemma_read_opt_bytes(a.cutout_science, s, i7, t8);
    let i8 = i7 + enc_opt_bytes(a.cutout_science).len();
    lemma_read_opt_bytes(a.cutout_template, s, i8, t9);
    let i9 = i8 + enc_opt_bytes(a.cutout_template).len();
    assert(i9 == i + enc_lsst_alert(a).len());
    let d = LsstAlertSpec {
        candid: a.candid,
        candidate: a.candidate,
        prv_candidates: a.prv_candidates,
        fp_hists: a.fp_hists,
        prv_nondetections: a.prv_nondetections,
        dia_object: a.dia_object,
        cutout_difference: a.cutout_difference,
        cutout_science: a.cutout_science,
        cutout_template: a.cutout_template,
    };
    assert(d =~= a);
}

/// Reads one envelope; returns exactly what `dec_lsst_alert` defines.
pub fn read_lsst_alert(bytes: &[u8], pos: usize) -> (r: Option<(LsstAlert, usize)>)
    ensures
        match r {
            Some((v, j)) => dec_lsst_alert(bytes@, pos as int) == Some((v@, j as int)),
            None => dec_lsst_alert(bytes@, pos as int) is None,
        },
{
    let (f0, p0) = read_long(bytes, pos)?;
    let (f1, p1) = read_dia_source(bytes, p0)?;
    let (f2, p2) = read_opt_array_dia_source(bytes, p1)?;
    let (f3, p3) = read_opt_array_dia_forced_source(bytes, p2)?;
    let (f4, p4) = read_opt_array_dia_nondetection_limit(bytes, p3)?;
    let (f5, p5) = read_opt_dia_object(bytes, p4)?;
    let (f6, p6) = read_opt_bytes(bytes, p5)?;
    let (f7, p7) = read_opt_bytes(bytes, p6)?;
    let (f8, p8) = read_opt_bytes(bytes, p7)?;
    let v = LsstAlert {
        candid: f0,
        candidate: f1,
        prv_candidates: f2,
        fp_hists: f3,
        prv_nondetections: f4,
        dia_object: f5,
        cutout_difference: f6,
        cutout_science: f7,
        cutout_template: f8,
    };
    Some((v, p8))
}

/// Writes one envelope in the exact wire form that `dec_lsst_alert` reads.
#[verifier::rlimit(100)]
#[verifier::rlimit(100)]
#[verifier::spinoff_prover]
pub fn write_lsst_alert(out: &mut Vec<u8>, a: &LsstAlert)
    requires
        wire_form_lsst_alert(a@),
        encodable_lsst_alert(a@),
    ensures
        final(out)@ == old(out)@ + enc_lsst_alert(a@),
{
    proof {
        match &a.prv_candidates {
            Some(items) => {
                assert forall|k: int| 0 <= k < items@.len() implies wire_form_dia_source(
                    #[trigger] items@[k]@,
                ) && encodable_dia_source(items@[k]@) by {
                    assert(seq_view_dia_source(items@)[k] == items@[k]@);
                }
            },
            None => {},
        }
        match &a.fp_hists {
            Some(items) => {
                assert forall|k: int| 0 <= k < items@.len() implies wire_form_dia_forced_source(
                    #[trigger] items@[k]@,
                ) && encodable_dia_forced_source(items@[k]@) by {
                    assert(seq_view_dia_forced_source(items@)[k] == items@[k]@);
                }
            },
            None => {},
        }
        match &a.prv_nondetections {
            Some(items) => {
                assert forall|k: int| 0 <= k < items@.len()
                    implies encodable_dia_nondetection_limit(#[trigger] items@[k]@) by {
                    assert(seq_view_dia_nondetection_limit(items@)[k] == items@[k]@);
                }
            },
            None => {},
        }
    }
    write_long(out, a.candid);
    assert(out@ =~= old(out)@ + (enc_long(a@.candid)));
    write_dia_source(out, &a.candidate);
    assert(out@ =~= old(out)@ + (enc_long(a@.candid)
        + enc_dia_source(a@.candidate)));
    write_opt_array_dia_source(out, &a.prv_candidates);
    assert(out@ =~= old(out)@ + (enc_long(a@.candid)
        + enc_dia_source(a@.candidate)
        + enc_opt_ds_array(a@.prv_candidates)));
    write_opt_array_dia_forced_source(out, &a.fp_hists);
    assert(out@ =~= old(out)@ + (enc_long(a@.candid)
        + enc_dia_source(a@.candidate)
        + enc_opt_ds_array(a@.prv_candidates)
        + enc_opt_fs_array(a@.fp_hists)));
    write_opt_array_dia_nondetection_limit(out, &a.prv_nondetections);
    assert(out@ =~= old(out)@ + (enc_long(a@.candid)
        + enc_dia_source(a@.candidate)
        + enc_opt_ds_array(a@.prv_candidates)
        + enc_opt_fs_array(a@.fp_hists)
        + enc_opt_nd_array(a@.prv_nondetections)));
    write_opt_dia_object(out, &a.dia_object);
    assert(out@ =~= old(out)@ + (enc_long(a@.candid)
        + enc_dia_source(a@.candidate)
        + enc_opt_ds_array(a@.prv_candidates)
        + enc_opt_fs_array(a@.fp_hists)
        + enc_opt_nd_array(a@.prv_nondetections)
        + enc_opt_dia_object(a@.dia_object)));
    write_opt_bytes(out, &a.cutout_difference);
    assert(out@ =~= old(out)@ + (enc_long(a@.candid)
        + enc_dia_source(a@.candidate)
        + enc_opt_ds_array(a@.prv_candidates)
        + enc_opt_fs_array(a@.fp_hists)
        + enc_opt_nd_array(a@.prv_nondetections)
        + enc_opt_dia_object(a@.dia_object)
        + enc_opt_bytes(a@.cutout_difference)));
    write_opt_bytes(out, &a.cutout_science);
    assert(out@ =~= old(out)@ + (enc_long(a@.candid)
        + enc_dia_source(a@.candidate)
        + enc_opt_ds_array(a@.prv_candidates)
        + enc_opt_fs_array(a@.fp_hists)
        + enc_opt_nd_array(a@.prv_nondetections)
        + enc_opt_dia_object(a@.dia_object)
        + enc_opt_bytes(a@.cutout_difference)
        + enc_opt_bytes(a@.cutout_science)));
    write_opt_bytes(out, &a.cutout_template);
    assert(out@ =~= old(out)@ + (enc_long(a@.candid)
        + enc_dia_source(a@.candidate)
        + enc_opt_ds_array(a@.prv_candidates)
        + enc_opt_fs_array(a@.fp_hists)
        + enc_opt_nd_array(a@.prv_nondetections)
        + enc_opt_dia_object(a@.dia_object)
        + enc_opt_bytes(a@.cutout_difference)
        + enc_opt_bytes(a@.cutout_science)
        + enc_opt_bytes(a@.cutout_template)));
}

// ---------------------------------------------------------------------------
// the packet frame: magic byte and big-endian schema identifier
// ---------------------------------------------------------------------------

/// The magic byte that opens every packet.
pub const MAGIC_BYTE: u8 = 0;

/// Big-endian 32-bit value at position `i`.
pub open spec fn be_u32_at(s: Seq<u8>, i: int) -> int {
    0x1000000 * s[i] + 0x10000 * s[i + 1] + 0x100 * s[i + 2] + s[i + 3]
}

/// Checks the magic byte and extracts the schema identifier of the header.
pub fn decode_header(bytes: &[u8]) -> (r: Result<u32, crate::AlertError>)
    requires
        bytes@.len() >= 5,
    ensures
        match r {
            Ok(id) => bytes@[0] == MAGIC_BYTE && id == be_u32_at(bytes@, 1),
            Err(e) => e == crate::AlertError::MagicBytesError && bytes@[0] != MAGIC_BYTE,
        },
{
    if bytes[0] != MAGIC_BYTE {
        return Err(crate::AlertError::MagicBytesError);
    }
    let id: u32 = 0x1000000 * (bytes[1] as u32) + 0x10000 * (bytes[2] as u32) + 0x100 * (bytes[3]
        as u32) + (bytes[4] as u32);
    Ok(id)
}

/// Builds a complete packet: magic byte, big-endian schema id, then the
/// payload. The result provably decodes back to the envelope it was built
/// from, which is the round-trip guarantee the tests exercise.
#[verifier::rlimit(100)]
#[verifier::spinoff_prover]
pub fn encode_packet(alert: &LsstAlert, schema_id: u32) -> (r: Vec<u8>)
    requires
        wire_form_lsst_alert(alert@),
        encodable_lsst_alert(alert@),
    ensures
        r@.len() >= 5,
        r@[0] == MAGIC_BYTE,
        be_u32_at(r@, 1) == schema_id,
        dec_lsst_alert(r@, 5) == Some((alert@, r@.len() as int)),
{
    let b1: u8 = (schema_id / 0x1000000) as u8;
    let b2: u8 = ((schema_id / 0x10000) % 0x100) as u8;
    let b3: u8 = ((schema_id / 0x100) % 0x100) as u8;
    let b4: u8 = (schema_id % 0x100) as u8;
    let mut out: Vec<u8> = Vec::new();
    out.push(MAGIC_BYTE);
    out.push(b1);
    out.push(b2);
    out.push(b3);
    out.push(b4);
    let ghost header = out@;
    proof {
        assert(header =~= seq![MAGIC_BYTE, b1, b2, b3, b4]);
    }
    write_lsst_alert(&mut out, alert);
    proof {
        assert(out@.skip(0) =~= out@);
        crate::avro::lemma_skip_split(out@, 0, header, enc_lsst_alert(alert@));
        assert(out@[0] == header[0]);
        assert(out@[1] == header[1]);
        assert(out@[2] == header[2]);
        assert(out@[3] == header[3]);
        assert(out@[4] == header[4]);
        assert(0x1000000 * b1 + 0x10000 * b2 + 0x100 * b3 + b4 == schema_id);
        assert(enc_lsst_alert(alert@) + Seq::<u8>::empty() =~= enc_lsst_alert(alert@));
        lemma_read_lsst_alert(alert@, out@, 5, Seq::<u8>::empty());
    }
    out
}

} // verus!
