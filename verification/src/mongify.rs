//! Projection of typed records onto storage documents: field names take their
//! storage spelling, optional fields that are absent are omitted entirely, and
//! numeric scalars keep their width. The `*_pairs` specification functions
//! state, field by field, exactly which pairs the projection yields; decoding
//! a packet and projecting it therefore preserves every present wire field
//! under its storage name.

use vstd::prelude::*;

verus! {

use vstd::string::StringExecFns;
use crate::avro::{lemma_concat_assoc, lemma_push_concat};
use crate::document::{
    DocValue,
    DocValueSpec,
    Document,
    doc_view,
    dv_view,
    lemma_dv_view_obj,
    lemma_dv_view_list,
};
use crate::model::{
    DiaSource,
    DiaSourceSpec,
    DiaForcedSource,
    DiaForcedSourceSpec,
};

broadcast use vstd::seq::group_seq_axioms;

type Pairs = Seq<(Seq<char>, DocValueSpec)>;

pub open spec fn mongify_ds_pairs_c1(a: DiaSourceSpec) -> Pairs {
    seq![("candid"@, DocValueSpec::I64(a.candid))]
        + seq![("visit"@, DocValueSpec::I64(a.visit))]
        + seq![("detector"@, DocValueSpec::I32(a.detector))]
        + (match a.object_id { Some(x) => seq![("objectId"@, DocValueSpec::I64(x))], None => seq![] })
        + (match a.ss_object_id { Some(x) => seq![("ssObjectId"@, DocValueSpec::I64(x))], None => seq![] })
}

pub open spec fn mongify_ds_pairs_c2(a: DiaSourceSpec) -> Pairs {
    (match a.parent_dia_source_id { Some(x) => seq![("parentDiaSourceId"@, DocValueSpec::I64(x))], None => seq![] })
        + seq![("mjd"@, DocValueSpec::Double(a.mjd))]
        + seq![("ra"@, DocValueSpec::Double(a.ra))]
        + (match a.ra_err { Some(x) => seq![("raErr"@, DocValueSpec::Single(x))], None => seq![] })
        + seq![("dec"@, DocValueSpec::Double(a.dec))]
}

pub open spec fn mongify_ds_pairs_c3(a: DiaSourceSpec) -> Pairs {
    (match a.dec_err { Some(x) => seq![("decErr"@, DocValueSpec::Single(x))], None => seq![] })
        + (match a.centroid_flag { Some(x) => seq![("centroid_flag"@, DocValueSpec::Bool(x))], None => seq![] })
        + (match a.is_negative { Some(x) => seq![("is_negative"@, DocValueSpec::Bool(x))], None => seq![] })
        + (match a.ap_flux { Some(x) => seq![("apFlux"@, DocValueSpec::Single(x))], None => seq![] })
        + (match a.ap_flux_err { Some(x) => seq![("apFluxErr"@, DocValueSpec::Single(x))], None => seq![] })
}

pub open spec fn mongify_ds_pairs_c4(a: DiaSourceSpec) -> Pairs {
    (match a.ap_flux_flag { Some(x) => seq![("apFlux_flag"@, DocValueSpec::Bool(x))], None => seq![] })
        + (match a.ap_flux_flag_aperture_truncated { Some(x) => seq![("apFlux_flag_apertureTruncated"@, DocValueSpec::Bool(x))], None => seq![] })
        + (match a.snr { Some(x) => seq![("snr"@, DocValueSpec::Single(x))], None => seq![] })
        + (match a.psf_flux { Some(x) => seq![("psfFlux"@, DocValueSpec::Single(x))], None => seq![] })
        + (match a.psf_flux_err { Some(x) => seq![("psfFluxErr"@, DocValueSpec::Single(x))], None => seq![] })
}

pub open spec fn mongify_ds_pairs_c5(a: DiaSourceSpec) -> Pairs {
    (match a.psf_ra { Some(x) => seq![("psfRa"@, DocValueSpec::Double(x))], None => seq![] })
        + (match a.psf_ra_err { Some(x) => seq![("psfRaErr"@, DocValueSpec::Single(x))], None => seq![] })
        + (match a.psf_dec { Some(x) => seq![("psfDec"@, DocValueSpec::Double(x))], None => seq![] })
        + (match a.psf_dec_err { Some(x) => seq![("psfDecErr"@, DocValueSpec::Single(x))], None => seq![] })
        + (match a.psf_chi2 { Some(x) => seq![("psfChi2"@, DocValueSpec::Single(x))], None => seq![] })
}

pub open spec fn mongify_ds_pairs_c6(a: DiaSourceSpec) -> Pairs {
    (match a.psf_ndata { Some(x) => seq![("psfNdata"@, DocValueSpec::I32(x))], None => seq![] })
        + (match a.psf_flux_flag { Some(x) => seq![("psfFlux_flag"@, DocValueSpec::Bool(x))], None => seq![] })
        + (match a.psf_flux_flag_edge { Some(x) => seq![("psfFlux_flag_edge"@, DocValueSpec::Bool(x))], None => seq![] })
        + (match a.psf_flux_flag_no_good_pixels { Some(x) => seq![("psfFlux_flag_noGoodPixels"@, DocValueSpec::Bool(x))], None => seq![] })
        + (match a.trail_flux { Some(x) => seq![("trailFlux"@, DocValueSpec::Single(x))], None => seq![] })
}

pub open spec fn mongify_ds_pairs_c7(a: DiaSourceSpec) -> Pairs {
    (match a.trail_flux_err { Some(x) => seq![("trailFluxErr"@, DocValueSpec::Single(x))], None => seq![] })
        + (match a.trail_ra { Some(x) => seq![("trailRa"@, DocValueSpec::Double(x))], None => seq![] })
        + (match a.trail_ra_err { Some(x) => seq![("trailRaErr"@, DocValueSpec::Single(x))], None => seq![] })
        + (match a.trail_dec { Some(x) => seq![("trailDec"@, DocValueSpec::Double(x))], None => seq![] })
        + (match a.trail_dec_err { Some(x) => seq![("trailDecErr"@, DocValueSpec::Single(x))], None => seq![] })
}

pub open spec fn mongify_ds_pairs_c8(a: DiaSourceSpec) -> Pairs {
    (match a.trail_length { Some(x) => seq![("trailLength"@, DocValueSpec::Single(x))], None => seq![] })
        + (match a.trail_length_err { Some(x) => seq![("trailLengthErr"@, DocValueSpec::Single(x))], None => seq![] })
        + (match a.trail_angle { Some(x) => seq![("trailAngle"@, DocValueSpec::Single(x))], None => seq![] })
        + (match a.trail_angle_err { Some(x) => seq![("trailAngleErr"@, DocValueSpec::Single(x))], None => seq![] })
        + (match a.trail_chi2 { Some(x) => seq![("trailChi2"@, DocValueSpec::Single(x))], None => seq![] })
}

pub open spec fn mongify_ds_pairs_c9(a: DiaSourceSpec) -> Pairs {
    (match a.trail_ndata { Some(x) => seq![("trailNdata"@, DocValueSpec::I32(x))], None => seq![] })
        + (match a.trail_flag_edge { Some(x) => seq![("trail_flag_edge"@, DocValueSpec::Bool(x))], None => seq![] })
        + (match a.forced_psf_flux_flag { Some(x) => seq![("forced_PsfFlux_flag"@, DocValueSpec::Bool(x))], None => seq![] })
        + (match a.forced_psf_flux_flag_edge { Some(x) => seq![("forced_PsfFlux_flag_edge"@, DocValueSpec::Bool(x))], None => seq![] })
        + (match a.forced_psf_flux_flag_no_good_pixels { Some(x) => seq![("forced_PsfFlux_flag_noGoodPixels"@, DocValueSpec::Bool(x))], None => seq![] })
}

pub open spec fn mongify_ds_pairs_c10(a: DiaSourceSpec) -> Pairs {
    (match a.snap_diff_flux { Some(x) => seq![("snapDiffFlux"@, DocValueSpec::Single(x))], None => seq![] })
        + (match a.snap_diff_flux_err { Some(x) => seq![("snapDiffFluxErr"@, DocValueSpec::Single(x))], None => seq![] })
        + (match a.fp_bkgd { Some(x) => seq![("fpBkgd"@, DocValueSpec::Single(x))], None => seq![] })
        + (match a.fp_bkgd_err { Some(x) => seq![("fpBkgdErr"@, DocValueSpec::Single(x))], None => seq![] })
        + (match a.shape_flag { Some(x) => seq![("shape_flag"@, DocValueSpec::Bool(x))], None => seq![] })
}

pub open spec fn mongify_ds_pairs_c11(a: DiaSourceSpec) -> Pairs {
    (match a.shape_flag_no_pixels { Some(x) => seq![("shape_flag_no_pixels"@, DocValueSpec::Bool(x))], None => seq![] })
        + (match a.shape_flag_not_contained { Some(x) => seq![("shape_flag_not_contained"@, DocValueSpec::Bool(x))], None => seq![] })
        + (match a.shape_flag_parent_source { Some(x) => seq![("shape_flag_parent_source"@, DocValueSpec::Bool(x))], None => seq![] })
        + (match a.extendedness { Some(x) => seq![("extendedness"@, DocValueSpec::Single(x))], None => seq![] })
        + (match a.reliability { Some(x) => seq![("reliability"@, DocValueSpec::Single(x))], None => seq![] })
}

pub open spec fn mongify_ds_pairs_c12(a: DiaSourceSpec) -> Pairs {
    (match a.band { Some(x) => seq![("band"@, DocValueSpec::Str(x))], None => seq![] })
        + (match a.pixel_flags { Some(x) => seq![("pixelFlags"@, DocValueSpec::Bool(x))], None => seq![] })
        + (match a.pixel_flags_bad { Some(x) => seq![("pixelFlags_bad"@, DocValueSpec::Bool(x))], None => seq![] })
        + (match a.pixel_flags_cr { Some(x) => seq![("pixelFlags_cr"@, DocValueSpec::Bool(x))], None => seq![] })
        + (match a.pixel_flags_cr_center { Some(x) => seq![("pixelFlags_crCenter"@, DocValueSpec::Bool(x))], None => seq![] })
}

pub open spec fn mongify_ds_pairs_c13(a: DiaSourceSpec) -> Pairs {
    (match a.pixel_flags_edge { Some(x) => seq![("pixelFlags_edge"@, DocValueSpec::Bool(x))], None => seq![] })
        + (match a.pixel_flags_interpolated { Some(x) => seq![("pixelFlags_interpolated"@, DocValueSpec::Bool(x))], None => seq![] })
        + (match a.pixel_flags_interpolated_center { Some(x) => seq![("pixelFlags_interpolatedCenter"@, DocValueSpec::Bool(x))], None => seq![] })
        + (match a.pixel_flags_offimage { Some(x) => seq![("pixelFlags_offimage"@, DocValueSpec::Bool(x))], None => seq![] })
        + (match a.pixel_flags_saturated { Some(x) => seq![("pixelFlags_saturated"@, DocValueSpec::Bool(x))], None => seq![] })
}

pub open spec fn mongify_ds_pairs_c14(a: DiaSourceSpec) -> Pairs {
    (match a.pixel_flags_saturated_center { Some(x) => seq![("pixelFlags_saturatedCenter"@, DocValueSpec::Bool(x))], None => seq![] })
        + (match a.pixel_flags_suspect { Some(x) => seq![("pixelFlags_suspect"@, DocValueSpec::Bool(x))], None => seq![] })
        + (match a.pixel_flags_suspect_center { Some(x) => seq![("pixelFlags_suspectCenter"@, DocValueSpec::Bool(x))], None => seq![] })
        + (match a.pixel_flags_streak { Some(x) => seq![("pixelFlags_streak"@, DocValueSpec::Bool(x))], None => seq![] })
        + (match a.pixel_flags_streak_center { Some(x) => seq![("pixelFlags_streakCenter"@, DocValueSpec::Bool(x))], None => seq![] })
}

pub open spec fn mongify_ds_pairs_c15(a: DiaSourceSpec) -> Pairs {
    (match a.pixel_flags_injected { Some(x) => seq![("pixelFlags_injected"@, DocValueSpec::Bool(x))], None => seq![] })
        + (match a.pixel_flags_injected_center { Some(x) => seq![("pixelFlags_injectedCenter"@, DocValueSpec::Bool(x))], None => seq![] })
        + (match a.pixel_flags_injected_template { Some(x) => seq![("pixelFlags_injected_template"@, DocValueSpec::Bool(x))], None => seq![] })
        + (match a.pixel_flags_injected_template_center { Some(x) => seq![("pixelFlags_injected_templateCenter"@, DocValueSpec::Bool(x))], None => seq![] })
        + (match a.magpsf { Some(x) => seq![("magpsf"@, DocValueSpec::Single(x))], None => seq![] })
}

pub open spec fn mongify_ds_pairs_c16(a: DiaSourceSpec) -> Pairs {
    (match a.sigmapsf { Some(x) => seq![("sigmapsf"@, DocValueSpec::Single(x))], None => seq![] })
        + (match a.science_flux { Some(x) => seq![("scienceFlux"@, DocValueSpec::Single(x))], None => seq![] })
}

/// The pairs that projecting one record yields, in storage order.
pub open spec fn mongify_dia_source_pairs(a: DiaSourceSpec) -> Pairs {
    mongify_ds_pairs_c1(a)
        + mongify_ds_pairs_c2(a)
        + mongify_ds_pairs_c3(a)
        + mongify_ds_pairs_c4(a)
        + mongify_ds_pairs_c5(a)
        + mongify_ds_pairs_c6(a)
        + mongify_ds_pairs_c7(a)
        + mongify_ds_pairs_c8(a)
        + mongify_ds_pairs_c9(a)
        + mongify_ds_pairs_c10(a)
        + mongify_ds_pairs_c11(a)
        + mongify_ds_pairs_c12(a)
        + mongify_ds_pairs_c13(a)
        + mongify_ds_pairs_c14(a)
        + mongify_ds_pairs_c15(a)
        + mongify_ds_pairs_c16(a)
}

#[verifier::rlimit(100)]
fn mongify_ds_c1(d: &mut Document, a: &DiaSource)
    ensures
        doc_view(*final(d)) == doc_view(*old(d)) + mongify_ds_pairs_c1(a@),
{
    let ghost b = doc_view(*d);
    let ghost t1: Pairs = seq![("candid"@, DocValueSpec::I64(a@.candid))];
    let ghost t2: Pairs = seq![("visit"@, DocValueSpec::I64(a@.visit))];
    let ghost t3: Pairs = seq![("detector"@, DocValueSpec::I32(a@.detector))];
    let ghost t4: Pairs = (match a@.object_id { Some(x) => seq![("objectId"@, DocValueSpec::I64(x))], None => seq![] });
    let ghost t5: Pairs = (match a@.ss_object_id { Some(x) => seq![("ssObjectId"@, DocValueSpec::I64(x))], None => seq![] });
    let ghost p1: Pairs = t1;
    let ghost p2: Pairs = p1 + t2;
    let ghost p3: Pairs = p2 + t3;
    let ghost p4: Pairs = p3 + t4;
    let ghost p5: Pairs = p4 + t5;
    d.push("candid", DocValue::I64(a.candid));
        proof {
            lemma_push_concat(b, ("candid"@, DocValueSpec::I64(a@.candid)));
            assert(t1 == seq![("candid"@, DocValueSpec::I64(a@.candid))]);
            assert(doc_view(*d) == b + p1);
        }
    d.push("visit", DocValue::I64(a.visit));
        proof {
            lemma_push_concat(b + p1, ("visit"@, DocValueSpec::I64(a@.visit)));
            lemma_concat_assoc(b, p1, seq![("visit"@, DocValueSpec::I64(a@.visit))]);
            assert(t2 == seq![("visit"@, DocValueSpec::I64(a@.visit))]);
            assert(doc_view(*d) == b + p2);
        }
    d.push("detector", DocValue::I32(a.detector));
        proof {
            lemma_push_concat(b + p2, ("detector"@, DocValueSpec::I32(a@.detector)));
            lemma_concat_assoc(b, p2, seq![("detector"@, DocValueSpec::I32(a@.detector))]);
            assert(t3 == seq![("detector"@, DocValueSpec::I32(a@.detector))]);
            assert(doc_view(*d) == b + p3);
        }
    match a.object_id {
        Some(x) => {
            d.push("objectId", DocValue::I64(x));
            proof {
                lemma_push_concat(b + p3, ("objectId"@, DocValueSpec::I64(x)));
                lemma_concat_assoc(b, p3, seq![("objectId"@, DocValueSpec::I64(x))]);
                assert(t4 == seq![("objectId"@, DocValueSpec::I64(x))]);
                assert(doc_view(*d) == b + p4);
            }
        },
        None => {
            proof {
                assert(t4 =~= Seq::<(Seq<char>, DocValueSpec)>::empty());
                assert(p3 + t4 =~= p3);
                assert(doc_view(*d) == b + p4);
            }
        },
    }
    match a.ss_object_id {
        Some(x) => {
            d.push("ssObjectId", DocValue::I64(x));
            proof {
                lemma_push_concat(b + p4, ("ssObjectId"@, DocValueSpec::I64(x)));
                lemma_concat_assoc(b, p4, seq![("ssObjectId"@, DocValueSpec::I64(x))]);
                assert(t5 == seq![("ssObjectId"@, DocValueSpec::I64(x))]);
                assert(doc_view(*d) == b + p5);
            }
        },
        None => {
            proof {
                assert(t5 =~= Seq::<(Seq<char>, DocValueSpec)>::empty());
                assert(p4 + t5 =~= p4);
                assert(doc_view(*d) == b + p5);
            }
        },
    }
    proof {
        assert(p5 == mongify_ds_pairs_c1(a@));
    }
}

#[verifier::rlimit(100)]
fn mongify_ds_c2(d: &mut Document, a: &DiaSource)
    ensures
        doc_view(*final(d)) == doc_view(*old(d)) + mongify_ds_pairs_c2(a@),
{
    let ghost b = doc_view(*d);
    let ghost t1: Pairs = (match a@.parent_dia_source_id { Some(x) => seq![("parentDiaSourceId"@, DocValueSpec::I64(x))], None => seq![] });
    let ghost t2: Pairs = seq![("mjd"@, DocValueSpec::Double(a@.mjd))];
    let ghost t3: Pairs = seq![("ra"@, DocValueSpec::Double(a@.ra))];
    let ghost t4: Pairs = (match a@.ra_err { Some(x) => seq![("raErr"@, DocValueSpec::Single(x))], None => seq![] });
    let ghost t5: Pairs = seq![("dec"@, DocValueSpec::Double(a@.dec))];
    let ghost p1: Pairs = t1;
    let ghost p2: Pairs = p1 + t2;
    let ghost p3: Pairs = p2 + t3;
    let ghost p4: Pairs = p3 + t4;
    let ghost p5: Pairs = p4 + t5;
    match a.parent_dia_source_id {
        Some(x) => {
            d.push("parentDiaSourceId", DocValue::I64(x));
            proof {
                lemma_push_concat(b, ("parentDiaSourceId"@, DocValueSpec::I64(x)));
                assert(t1 == seq![("parentDiaSourceId"@, DocValueSpec::I64(x))]);
                assert(doc_view(*d) == b + p1);
            }
        },
        None => {
            proof {
                assert(t1 =~= Seq::<(Seq<char>, DocValueSpec)>::empty());
                assert(b + t1 =~= b);
                assert(doc_view(*d) == b + p1);
            }
        },
    }
    d.push("mjd", DocValue::Double(a.mjd));
        proof {
            lemma_push_concat(b + p1, ("mjd"@, DocValueSpec::Double(a@.mjd)));
            lemma_concat_assoc(b, p1, seq![("mjd"@, DocValueSpec::Double(a@.mjd))]);
            assert(t2 == seq![("mjd"@, DocValueSpec::Double(a@.mjd))]);
            assert(doc_view(*d) == b + p2);
        }
    d.push("ra", DocValue::Double(a.ra));
        proof {
            lemma_push_concat(b + p2, ("ra"@, DocValueSpec::Double(a@.ra)));
            lemma_concat_assoc(b, p2, seq![("ra"@, DocValueSpec::Double(a@.ra))]);
            assert(t3 == seq![("ra"@, DocValueSpec::Double(a@.ra))]);
            assert(doc_view(*d) == b + p3);
        }
    match a.ra_err {
        Some(x) => {
            d.push("raErr", DocValue::Single(x));
            proof {
                lemma_push_concat(b + p3, ("raErr"@, DocValueSpec::Single(x)));
                lemma_concat_assoc(b, p3, seq![("raErr"@, DocValueSpec::Single(x))]);
                assert(t4 == seq![("raErr"@, DocValueSpec::Single(x))]);
                assert(doc_view(*d) == b + p4);
            }
        },
        None => {
            proof {
                assert(t4 =~= Seq::<(Seq<char>, DocValueSpec)>::empty());
                assert(p3 + t4 =~= p3);
                assert(doc_view(*d) == b + p4);
            }
        },
    }
    d.push("dec", DocValue::Double(a.dec));
        proof {
            lemma_push_concat(b + p4, ("dec"@, DocValueSpec::Double(a@.dec)));
            lemma_concat_assoc(b, p4, seq![("dec"@, DocValueSpec::Double(a@.dec))]);
            assert(t5 == seq![("dec"@, DocValueSpec::Double(a@.dec))]);
            assert(doc_view(*d) == b + p5);
        }
    proof {
        assert(p5 == mongify_ds_pairs_c2(a@));
    }
}

#[verifier::rlimit(100)]
fn mongify_ds_c3(d: &mut Document, a: &DiaSource)
    ensures
        doc_view(*final(d)) == doc_view(*old(d)) + mongify_ds_pairs_c3(a@),
{
    let ghost b = doc_view(*d);
    let ghost t1: Pairs = (match a@.dec_err { Some(x) => seq![("decErr"@, DocValueSpec::Single(x))], None => seq![] });
    let ghost t2: Pairs = (match a@.centroid_flag { Some(x) => seq![("centroid_flag"@, DocValueSpec::Bool(x))], None => seq![] });
    let ghost t3: Pairs = (match a@.is_negative { Some(x) => seq![("is_negative"@, DocValueSpec::Bool(x))], None => seq![] });
    let ghost t4: Pairs = (match a@.ap_flux { Some(x) => seq![("apFlux"@, DocValueSpec::Single(x))], None => seq![] });
    let ghost t5: Pairs = (match a@.ap_flux_err { Some(x) => seq![("apFluxErr"@, DocValueSpec::Single(x))], None => seq![] });
    let ghost p1: Pairs = t1;
    let ghost p2: Pairs = p1 + t2;
    let ghost p3: Pairs = p2 + t3;
    let ghost p4: Pairs = p3 + t4;
    let ghost p5: Pairs = p4 + t5;
    match a.dec_err {
        Some(x) => {
            d.push("decErr", DocValue::Single(x));
            proof {
                lemma_push_concat(b, ("decErr"@, DocValueSpec::Single(x)));
                assert(t1 == seq![("decErr"@, DocValueSpec::Single(x))]);
                assert(doc_view(*d) == b + p1);
            }
        },
        None => {
            proof {
                assert(t1 =~= Seq::<(Seq<char>, DocValueSpec)>::empty());
                assert(b + t1 =~= b);
                assert(doc_view(*d) == b + p1);
            }
        },
    }
    match a.centroid_flag {
        Some(x) => {
            d.push("centroid_flag", DocValue::Bool(x));
            proof {
                lemma_push_concat(b + p1, ("centroid_flag"@, DocValueSpec::Bool(x)));
                lemma_concat_assoc(b, p1, seq![("centroid_flag"@, DocValueSpec::Bool(x))]);
                assert(t2 == seq![("centroid_flag"@, DocValueSpec::Bool(x))]);
                assert(doc_view(*d) == b + p2);
            }
        },
        None => {
            proof {
                assert(t2 =~= Seq::<(Seq<char>, DocValueSpec)>::empty());
                assert(p1 + t2 =~= p1);
                assert(doc_view(*d) == b + p2);
            }
        },
    }
    match a.is_negative {
        Some(x) => {
            d.push("is_negative", DocValue::Bool(x));
            proof {
                lemma_push_concat(b + p2, ("is_negative"@, DocValueSpec::Bool(x)));
                lemma_concat_assoc(b, p2, seq![("is_negative"@, DocValueSpec::Bool(x))]);
                assert(t3 == seq![("is_negative"@, DocValueSpec::Bool(x))]);
                assert(doc_view(*d) == b + p3);
            }
        },
        None => {
            proof {
                assert(t3 =~= Seq::<(Seq<char>, DocValueSpec)>::empty());
                assert(p2 + t3 =~= p2);
                assert(doc_view(*d) == b + p3);
            }
        },
    }
    match a.ap_flux {
        Some(x) => {
            d.push("apFlux", DocValue::Single(x));
            proof {
                lemma_push_concat(b + p3, ("apFlux"@, DocValueSpec::Single(x)));
                lemma_concat_assoc(b, p3, seq![("apFlux"@, DocValueSpec::Single(x))]);
                assert(t4 == seq![("apFlux"@, DocValueSpec::Single(x))]);
                assert(doc_view(*d) == b + p4);
            }
        },
        None => {
            proof {
                assert(t4 =~= Seq::<(Seq<char>, DocValueSpec)>::empty());
                assert(p3 + t4 =~= p3);
                assert(doc_view(*d) == b + p4);
            }
        },
    }
    match a.ap_flux_err {
        Some(x) => {
            d.push("apFluxErr", DocValue::Single(x));
            proof {
                lemma_push_concat(b + p4, ("apFluxErr"@, DocValueSpec::Single(x)));
                lemma_concat_assoc(b, p4, seq![("apFluxErr"@, DocValueSpec::Single(x))]);
                assert(t5 == seq![("apFluxErr"@, DocValueSpec::Single(x))]);
                assert(doc_view(*d) == b + p5);
            }
        },
        None => {
            proof {
                assert(t5 =~= Seq::<(Seq<char>, DocValueSpec)>::empty());
                assert(p4 + t5 =~= p4);
                assert(doc_view(*d) == b + p5);
            }
        },
    }
    proof {
        assert(p5 == mongify_ds_pairs_c3(a@));
    }
}

#[verifier::rlimit(100)]
fn mongify_ds_c4(d: &mut Document, a: &DiaSource)
    ensures
        doc_view(*final(d)) == doc_view(*old(d)) + mongify_ds_pairs_c4(a@),
{
    let ghost b = doc_view(*d);
    let ghost t1: Pairs = (match a@.ap_flux_flag { Some(x) => seq![("apFlux_flag"@, DocValueSpec::Bool(x))], None => seq![] });
    let ghost t2: Pairs = (match a@.ap_flux_flag_aperture_truncated { Some(x) => seq![("apFlux_flag_apertureTruncated"@, DocValueSpec::Bool(x))], None => seq![] });
    let ghost t3: Pairs = (match a@.snr { Some(x) => seq![("snr"@, DocValueSpec::Single(x))], None => seq![] });
    let ghost t4: Pairs = (match a@.psf_flux { Some(x) => seq![("psfFlux"@, DocValueSpec::Single(x))], None => seq![] });
    let ghost t5: Pairs = (match a@.psf_flux_err { Some(x) => seq![("psfFluxErr"@, DocValueSpec::Single(x))], None => seq![] });
    let ghost p1: Pairs = t1;
    let ghost p2: Pairs = p1 + t2;
    let ghost p3: Pairs = p2 + t3;
    let ghost p4: Pairs = p3 + t4;
    let ghost p5: Pairs = p4 + t5;
    match a.ap_flux_flag {
        Some(x) => {
            d.push("apFlux_flag", DocValue::Bool(x));
            proof {
                lemma_push_concat(b, ("apFlux_flag"@, DocValueSpec::Bool(x)));
                assert(t1 == seq![("apFlux_flag"@, DocValueSpec::Bool(x))]);
                assert(doc_view(*d) == b + p1);
            }
        },
        None => {
            proof {
                assert(t1 =~= Seq::<(Seq<char>, DocValueSpec)>::empty());
                assert(b + t1 =~= b);
                assert(doc_view(*d) == b + p1);
            }
        },
    }
    match a.ap_flux_flag_aperture_truncated {
        Some(x) => {
            d.push("apFlux_flag_apertureTruncated", DocValue::Bool(x));
            proof {
                lemma_push_concat(b + p1, ("apFlux_flag_apertureTruncated"@, DocValueSpec::Bool(x)));
                lemma_concat_assoc(b, p1, seq![("apFlux_flag_apertureTruncated"@, DocValueSpec::Bool(x))]);
                assert(t2 == seq![("apFlux_flag_apertureTruncated"@, DocValueSpec::Bool(x))]);
                assert(doc_view(*d) == b + p2);
            }
        },
        None => {
            proof {
                assert(t2 =~= Seq::<(Seq<char>, DocValueSpec)>::empty());
                assert(p1 + t2 =~= p1);
                assert(doc_view(*d) == b + p2);
            }
        },
    }
    match a.snr {
        Some(x) => {
            d.push("snr", DocValue::Single(x));
            proof {
                lemma_push_concat(b + p2, ("snr"@, DocValueSpec::Single(x)));
                lemma_concat_assoc(b, p2, seq![("snr"@, DocValueSpec::Single(x))]);
                assert(t3 == seq![("snr"@, DocValueSpec::Single(x))]);
                assert(doc_view(*d) == b + p3);
            }
        },
        None => {
            proof {
                assert(t3 =~= Seq::<(Seq<char>, DocValueSpec)>::empty());
                assert(p2 + t3 =~= p2);
                assert(doc_view(*d) == b + p3);
            }
        },
    }
    match a.psf_flux {
        Some(x) => {
            d.push("psfFlux", DocValue::Single(x));
            proof {
                lemma_push_concat(b + p3, ("psfFlux"@, DocValueSpec::Single(x)));
                lemma_concat_assoc(b, p3, seq![("psfFlux"@, DocValueSpec::Single(x))]);
                assert(t4 == seq![("psfFlux"@, DocValueSpec::Single(x))]);
                assert(doc_view(*d) == b + p4);
            }
        },
        None => {
            proof {
                assert(t4 =~= Seq::<(Seq<char>, DocValueSpec)>::empty());
                assert(p3 + t4 =~= p3);
                assert(doc_view(*d) == b + p4);
            }
        },
    }
    match a.psf_flux_err {
        Some(x) => {
            d.push("psfFluxErr", DocValue::Single(x));
            proof {
                lemma_push_concat(b + p4, ("psfFluxErr"@, DocValueSpec::Single(x)));
                lemma_concat_assoc(b, p4, seq![("psfFluxErr"@, DocValueSpec::Single(x))]);
                assert(t5 == seq![("psfFluxErr"@, DocValueSpec::Single(x))]);
                assert(doc_view(*d) == b + p5);
            }
        },
        None => {
            proof {
                assert(t5 =~= Seq::<(Seq<char>, DocValueSpec)>::empty());
                assert(p4 + t5 =~= p4);
                assert(doc_view(*d) == b + p5);
            }
        },
    }
    proof {
        assert(p5 == mongify_ds_pairs_c4(a@));
    }
}

#[verifier::rlimit(100)]
fn mongify_ds_c5(d: &mut Document, a: &DiaSource)
    ensures
        doc_view(*final(d)) == doc_view(*old(d)) + mongify_ds_pairs_c5(a@),
{
    let ghost b = doc_view(*d);
    let ghost t1: Pairs = (match a@.psf_ra { Some(x) => seq![("psfRa"@, DocValueSpec::Double(x))], None => seq![] });
    let ghost t2: Pairs = (match a@.psf_ra_err { Some(x) => seq![("psfRaErr"@, DocValueSpec::Single(x))], None => seq![] });
    let ghost t3: Pairs = (match a@.psf_dec { Some(x) => seq![("psfDec"@, DocValueSpec::Double(x))], None => seq![] });
    let ghost t4: Pairs = (match a@.psf_dec_err { Some(x) => seq![("psfDecErr"@, DocValueSpec::Single(x))], None => seq![] });
    let ghost t5: Pairs = (match a@.psf_chi2 { Some(x) => seq![("psfChi2"@, DocValueSpec::Single(x))], None => seq![] });
    let ghost p1: Pairs = t1;
    let ghost p2: Pairs = p1 + t2;
    let ghost p3: Pairs = p2 + t3;
    let ghost p4: Pairs = p3 + t4;
    let ghost p5: Pairs = p4 + t5;
    match a.psf_ra {
        Some(x) => {
            d.push("psfRa", DocValue::Double(x));
            proof {
                lemma_push_concat(b, ("psfRa"@, DocValueSpec::Double(x)));
                assert(t1 == seq![("psfRa"@, DocValueSpec::Double(x))]);
                assert(doc_view(*d) == b + p1);
            }
        },
        None => {
            proof {
                assert(t1 =~= Seq::<(Seq<char>, DocValueSpec)>::empty());
                assert(b + t1 =~= b);
                assert(doc_view(*d) == b + p1);
            }
        },
    }
    match a.psf_ra_err {
        Some(x) => {
            d.push("psfRaErr", DocValue::Single(x));
            proof {
                lemma_push_concat(b + p1, ("psfRaErr"@, DocValueSpec::Single(x)));
                lemma_concat_assoc(b, p1, seq![("psfRaErr"@, DocValueSpec::Single(x))]);
                assert(t2 == seq![("psfRaErr"@, DocValueSpec::Single(x))]);
                assert(doc_view(*d) == b + p2);
            }
        },
        None => {
            proof {
                assert(t2 =~= Seq::<(Seq<char>, DocValueSpec)>::empty());
                assert(p1 + t2 =~= p1);
                assert(doc_view(*d) == b + p2);
            }
        },
    }
    match a.psf_dec {
        Some(x) => {
            d.push("psfDec", DocValue::Double(x));
            proof {
                lemma_push_concat(b + p2, ("psfDec"@, DocValueSpec::Double(x)));
                lemma_concat_assoc(b, p2, seq![("psfDec"@, DocValueSpec::Double(x))]);
                assert(t3 == seq![("psfDec"@, DocValueSpec::Double(x))]);
                assert(doc_view(*d) == b + p3);
            }
        },
        None => {
            proof {
                assert(t3 =~= Seq::<(Seq<char>, DocValueSpec)>::empty());
                assert(p2 + t3 =~= p2);
                assert(doc_view(*d) == b + p3);
            }
        },
    }
    match a.psf_dec_err {
        Some(x) => {
            d.push("psfDecErr", DocValue::Single(x));
            proof {
                lemma_push_concat(b + p3, ("psfDecErr"@, DocValueSpec::Single(x)));
                lemma_concat_assoc(b, p3, seq![("psfDecErr"@, DocValueSpec::Single(x))]);
                assert(t4 == seq![("psfDecErr"@, DocValueSpec::Single(x))]);
                assert(doc_view(*d) == b + p4);
            }
        },
        None => {
            proof {
                assert(t4 =~= Seq::<(Seq<char>, DocValueSpec)>::empty());
                assert(p3 + t4 =~= p3);
                assert(doc_view(*d) == b + p4);
            }
        },
    }
    match a.psf_chi2 {
        Some(x) => {
            d.push("psfChi2", DocValue::Single(x));
            proof {
                lemma_push_concat(b + p4, ("psfChi2"@, DocValueSpec::Single(x)));
                lemma_concat_assoc(b, p4, seq![("psfChi2"@, DocValueSpec::Single(x))]);
                assert(t5 == seq![("psfChi2"@, DocValueSpec::Single(x))]);
                assert(doc_view(*d) == b + p5);
            }
        },
        None => {
            proof {
                assert(t5 =~= Seq::<(Seq<char>, DocValueSpec)>::empty());
                assert(p4 + t5 =~= p4);
                assert(doc_view(*d) == b + p5);
            }
        },
    }
    proof {
        assert(p5 == mongify_ds_pairs_c5(a@));
    }
}

#[verifier::rlimit(100)]
fn mongify_ds_c6(d: &mut Document, a: &DiaSource)
    ensures
        doc_view(*final(d)) == doc_view(*old(d)) + mongify_ds_pairs_c6(a@),
{
    let ghost b = doc_view(*d);
    let ghost t1: Pairs = (match a@.psf_ndata { Some(x) => seq![("psfNdata"@, DocValueSpec::I32(x))], None => seq![] });
    let ghost t2: Pairs = (match a@.psf_flux_flag { Some(x) => seq![("psfFlux_flag"@, DocValueSpec::Bool(x))], None => seq![] });
    let ghost t3: Pairs = (match a@.psf_flux_flag_edge { Some(x) => seq![("psfFlux_flag_edge"@, DocValueSpec::Bool(x))], None => seq![] });
    let ghost t4: Pairs = (match a@.psf_flux_flag_no_good_pixels { Some(x) => seq![("psfFlux_flag_noGoodPixels"@, DocValueSpec::Bool(x))], None => seq![] });
    let ghost t5: Pairs = (match a@.trail_flux { Some(x) => seq![("trailFlux"@, DocValueSpec::Single(x))], None => seq![] });
    let ghost p1: Pairs = t1;
    let ghost p2: Pairs = p1 + t2;
    let ghost p3: Pairs = p2 + t3;
    let ghost p4: Pairs = p3 + t4;
    let ghost p5: Pairs = p4 + t5;
    match a.psf_ndata {
        Some(x) => {
            d.push("psfNdata", DocValue::I32(x));
            proof {
                lemma_push_concat(b, ("psfNdata"@, DocValueSpec::I32(x)));
                assert(t1 == seq![("psfNdata"@, DocValueSpec::I32(x))]);
                assert(doc_view(*d) == b + p1);
            }
        },
        None => {
            proof {
                assert(t1 =~= Seq::<(Seq<char>, DocValueSpec)>::empty());
                assert(b + t1 =~= b);
                assert(doc_view(*d) == b + p1);
            }
        },
    }
    match a.psf_flux_flag {
        Some(x) => {
            d.push("psfFlux_flag", DocValue::Bool(x));
            proof {
                lemma_push_concat(b + p1, ("psfFlux_flag"@, DocValueSpec::Bool(x)));
                lemma_concat_assoc(b, p1, seq![("psfFlux_flag"@, DocValueSpec::Bool(x))]);
                assert(t2 == seq![("psfFlux_flag"@, DocValueSpec::Bool(x))]);
                assert(doc_view(*d) == b + p2);
            }
        },
        None => {
            proof {
                assert(t2 =~= Seq::<(Seq<char>, DocValueSpec)>::empty());
                assert(p1 + t2 =~= p1);
                assert(doc_view(*d) == b + p2);
            }
        },
    }
    match a.psf_flux_flag_edge {
        Some(x) => {
            d.push("psfFlux_flag_edge", DocValue::Bool(x));
            proof {
                lemma_push_concat(b + p2, ("psfFlux_flag_edge"@, DocValueSpec::Bool(x)));
                lemma_concat_assoc(b, p2, seq![("psfFlux_flag_edge"@, DocValueSpec::Bool(x))]);
                assert(t3 == seq![("psfFlux_flag_edge"@, DocValueSpec::Bool(x))]);
                assert(doc_view(*d) == b + p3);
            }
        },
        None => {
            proof {
                assert(t3 =~= Seq::<(Seq<char>, DocValueSpec)>::empty());
                assert(p2 + t3 =~= p2);
                assert(doc_view(*d) == b + p3);
            }
        },
    }
    match a.psf_flux_flag_no_good_pixels {
        Some(x) => {
            d.push("psfFlux_flag_noGoodPixels", DocValue::Bool(x));
            proof {
                lemma_push_concat(b + p3, ("psfFlux_flag_noGoodPixels"@, DocValueSpec::Bool(x)));
                lemma_concat_assoc(b, p3, seq![("psfFlux_flag_noGoodPixels"@, DocValueSpec::Bool(x))]);
                assert(t4 == seq![("psfFlux_flag_noGoodPixels"@, DocValueSpec::Bool(x))]);
                assert(doc_view(*d) == b + p4);
            }
        },
        None => {
            proof {
                assert(t4 =~= Seq::<(Seq<char>, DocValueSpec)>::empty());
                assert(p3 + t4 =~= p3);
                assert(doc_view(*d) == b + p4);
            }
        },
    }
    match a.trail_flux {
        Some(x) => {
            d.push("trailFlux", DocValue::Single(x));
            proof {
                lemma_push_concat(b + p4, ("trailFlux"@, DocValueSpec::Single(x)));
                lemma_concat_assoc(b, p4, seq![("trailFlux"@, DocValueSpec::Single(x))]);
                assert(t5 == seq![("trailFlux"@, DocValueSpec::Single(x))]);
                assert(doc_view(*d) == b + p5);
            }
        },
        None => {
            proof {
                assert(t5 =~= Seq::<(Seq<char>, DocValueSpec)>::empty());
                assert(p4 + t5 =~= p4);
                assert(doc_view(*d) == b + p5);
            }
        },
    }
    proof {
        assert(p5 == mongify_ds_pairs_c6(a@));
    }
}

#[verifier::rlimit(100)]
fn mongify_ds_c7(d: &mut Document, a: &DiaSource)
    ensures
        doc_view(*final(d)) == doc_view(*old(d)) + mongify_ds_pairs_c7(a@),
{
    let ghost b = doc_view(*d);
    let ghost t1: Pairs = (match a@.trail_flux_err { Some(x) => seq![("trailFluxErr"@, DocValueSpec::Single(x))], None => seq![] });
    let ghost t2: Pairs = (match a@.trail_ra { Some(x) => seq![("trailRa"@, DocValueSpec::Double(x))], None => seq![] });
    let ghost t3: Pairs = (match a@.trail_ra_err { Some(x) => seq![("trailRaErr"@, DocValueSpec::Single(x))], None => seq![] });
    let ghost t4: Pairs = (match a@.trail_dec { Some(x) => seq![("trailDec"@, DocValueSpec::Double(x))], None => seq![] });
    let ghost t5: Pairs = (match a@.trail_dec_err { Some(x) => seq![("trailDecErr"@, DocValueSpec::Single(x))], None => seq![] });
    let ghost p1: Pairs = t1;
    let ghost p2: Pairs = p1 + t2;
    let ghost p3: Pairs = p2 + t3;
    let ghost p4: Pairs = p3 + t4;
    let ghost p5: Pairs = p4 + t5;
    match a.trail_flux_err {
        Some(x) => {
            d.push("trailFluxErr", DocValue::Single(x));
            proof {
                lemma_push_concat(b, ("trailFluxErr"@, DocValueSpec::Single(x)));
                assert(t1 == seq![("trailFluxErr"@, DocValueSpec::Single(x))]);
                assert(doc_view(*d) == b + p1);
            }
        },
        None => {
            proof {
                assert(t1 =~= Seq::<(Seq<char>, DocValueSpec)>::empty());
                assert(b + t1 =~= b);
                assert(doc_view(*d) == b + p1);
            }
        },
    }
    match a.trail_ra {
        Some(x) => {
            d.push("trailRa", DocValue::Double(x));
            proof {
                lemma_push_concat(b + p1, ("trailRa"@, DocValueSpec::Double(x)));
                lemma_concat_assoc(b, p1, seq![("trailRa"@, DocValueSpec::Double(x))]);
                assert(t2 == seq![("trailRa"@, DocValueSpec::Double(x))]);
                assert(doc_view(*d) == b + p2);
            }
        },
        None => {
            proof {
                assert(t2 =~= Seq::<(Seq<char>, DocValueSpec)>::empty());
                assert(p1 + t2 =~= p1);
                assert(doc_view(*d) == b + p2);
            }
        },
    }
    match a.trail_ra_err {
        Some(x) => {
            d.push("trailRaErr", DocValue::Single(x));
            proof {
                lemma_push_concat(b + p2, ("trailRaErr"@, DocValueSpec::Single(x)));
                lemma_concat_assoc(b, p2, seq![("trailRaErr"@, DocValueSpec::Single(x))]);
                assert(t3 == seq![("trailRaErr"@, DocValueSpec::Single(x))]);
                assert(doc_view(*d) == b + p3);
            }
        },
        None => {
            proof {
                assert(t3 =~= Seq::<(Seq<char>, DocValueSpec)>::empty());
                assert(p2 + t3 =~= p2);
                assert(doc_view(*d) == b + p3);
            }
        },
    }
    match a.trail_dec {
        Some(x) => {
            d.push("trailDec", DocValue::Double(x));
            proof {
                lemma_push_concat(b + p3, ("trailDec"@, DocValueSpec::Double(x)));
                lemma_concat_assoc(b, p3, seq![("trailDec"@, DocValueSpec::Double(x))]);
                assert(t4 == seq![("trailDec"@, DocValueSpec::Double(x))]);
                assert(doc_view(*d) == b + p4);
            }
        },
        None => {
            proof {
                assert(t4 =~= Seq::<(Seq<char>, DocValueSpec)>::empty());
                assert(p3 + t4 =~= p3);
                assert(doc_view(*d) == b + p4);
            }
        },
    }
    match a.trail_dec_err {
        Some(x) => {
            d.push("trailDecErr", DocValue::Single(x));
            proof {
                lemma_push_concat(b + p4, ("trailDecErr"@, DocValueSpec::Single(x)));
                lemma_concat_assoc(b, p4, seq![("trailDecErr"@, DocValueSpec::Single(x))]);
                assert(t5 == seq![("trailDecErr"@, DocValueSpec::Single(x))]);
                assert(doc_view(*d) == b + p5);
            }
        },
        None => {
            proof {
                assert(t5 =~= Seq::<(Seq<char>, DocValueSpec)>::empty());
                assert(p4 + t5 =~= p4);
                assert(doc_view(*d) == b + p5);
            }
        },
    }
    proof {
        assert(p5 == mongify_ds_pairs_c7(a@));
    }
}

#[verifier::rlimit(100)]
fn mongify_ds_c8(d: &mut Document, a: &DiaSource)
    ensures
        doc_view(*final(d)) == doc_view(*old(d)) + mongify_ds_pairs_c8(a@),
{
    let ghost b = doc_view(*d);
    let ghost t1: Pairs = (match a@.trail_length { Some(x) => seq![("trailLength"@, DocValueSpec::Single(x))], None => seq![] });
    let ghost t2: Pairs = (match a@.trail_length_err { Some(x) => seq![("trailLengthErr"@, DocValueSpec::Single(x))], None => seq![] });
    let ghost t3: Pairs = (match a@.trail_angle { Some(x) => seq![("trailAngle"@, DocValueSpec::Single(x))], None => seq![] });
    let ghost t4: Pairs = (match a@.trail_angle_err { Some(x) => seq![("trailAngleErr"@, DocValueSpec::Single(x))], None => seq![] });
    let ghost t5: Pairs = (match a@.trail_chi2 { Some(x) => seq![("trailChi2"@, DocValueSpec::Single(x))], None => seq![] });
    let ghost p1: Pairs = t1;
    let ghost p2: Pairs = p1 + t2;
    let ghost p3: Pairs = p2 + t3;
    let ghost p4: Pairs = p3 + t4;
    let ghost p5: Pairs = p4 + t5;
    match a.trail_length {
        Some(x) => {
            d.push("trailLength", DocValue::Single(x));
            proof {
                lemma_push_concat(b, ("trailLength"@, DocValueSpec::Single(x)));
                assert(t1 == seq![("trailLength"@, DocValueSpec::Single(x))]);
                assert(doc_view(*d) == b + p1);
            }
        },
        None => {
            proof {
                assert(t1 =~= Seq::<(Seq<char>, DocValueSpec)>::empty());
                assert(b + t1 =~= b);
                assert(doc_view(*d) == b + p1);
            }
        },
    }
    match a.trail_length_err {
        Some(x) => {
            d.push("trailLengthErr", DocValue::Single(x));
            proof {
                lemma_push_concat(b + p1, ("trailLengthErr"@, DocValueSpec::Single(x)));
                lemma_concat_assoc(b, p1, seq![("trailLengthErr"@, DocValueSpec::Single(x))]);
                assert(t2 == seq![("trailLengthErr"@, DocValueSpec::Single(x))]);
                assert(doc_view(*d) == b + p2);
            }
        },
        None => {
            proof {
                assert(t2 =~= Seq::<(Seq<char>, DocValueSpec)>::empty());
                assert(p1 + t2 =~= p1);
                assert(doc_view(*d) == b + p2);
            }
        },
    }
    match a.trail_angle {
        Some(x) => {
            d.push("trailAngle", DocValue::Single(x));
            proof {
                lemma_push_concat(b + p2, ("trailAngle"@, DocValueSpec::Single(x)));
                lemma_concat_assoc(b, p2, seq![("trailAngle"@, DocValueSpec::Single(x))]);
                assert(t3 == seq![("trailAngle"@, DocValueSpec::Single(x))]);
                assert(doc_view(*d) == b + p3);
            }
        },
        None => {
            proof {
                assert(t3 =~= Seq::<(Seq<char>, DocValueSpec)>::empty());
                assert(p2 + t3 =~= p2);
                assert(doc_view(*d) == b + p3);
            }
        },
    }
    match a.trail_angle_err {
        Some(x) => {
            d.push("trailAngleErr", DocValue::Single(x));
            proof {
                lemma_push_concat(b + p3, ("trailAngleErr"@, DocValueSpec::Single(x)));
                lemma_concat_assoc(b, p3, seq![("trailAngleErr"@, DocValueSpec::Single(x))]);
                assert(t4 == seq![("trailAngleErr"@, DocValueSpec::Single(x))]);
                assert(doc_view(*d) == b + p4);
            }
        },
        None => {
            proof {
                assert(t4 =~= Seq::<(Seq<char>, DocValueSpec)>::empty());
                assert(p3 + t4 =~= p3);
                assert(doc_view(*d) == b + p4);
            }
        },
    }
    match a.trail_chi2 {
        Some(x) => {
            d.push("trailChi2", DocValue::Single(x));
            proof {
                lemma_push_concat(b + p4, ("trailChi2"@, DocValueSpec::Single(x)));
                lemma_concat_assoc(b, p4, seq![("trailChi2"@, DocValueSpec::Single(x))]);
                assert(t5 == seq![("trailChi2"@, DocValueSpec::Single(x))]);
                assert(doc_view(*d) == b + p5);
            }
        },
        None => {
            proof {
                assert(t5 =~= Seq::<(Seq<char>, DocValueSpec)>::empty());
                assert(p4 + t5 =~= p4);
                assert(doc_view(*d) == b + p5);
            }
        },
    }
    proof {
        assert(p5 == mongify_ds_pairs_c8(a@));
    }
}

#[verifier::rlimit(100)]
fn mongify_ds_c9(d: &mut Document, a: &DiaSource)
    ensures
        doc_view(*final(d)) == doc_view(*old(d)) + mongify_ds_pairs_c9(a@),
{
    let ghost b = doc_view(*d);
    let ghost t1: Pairs = (match a@.trail_ndata { Some(x) => seq![("trailNdata"@, DocValueSpec::I32(x))], None => seq![] });
    let ghost t2: Pairs = (match a@.trail_flag_edge { Some(x) => seq![("trail_flag_edge"@, DocValueSpec::Bool(x))], None => seq![] });
    let ghost t3: Pairs = (match a@.forced_psf_flux_flag { Some(x) => seq![("forced_PsfFlux_flag"@, DocValueSpec::Bool(x))], None => seq![] });
    let ghost t4: Pairs = (match a@.forced_psf_flux_flag_edge { Some(x) => seq![("forced_PsfFlux_flag_edge"@, DocValueSpec::Bool(x))], None => seq![] });
    let ghost t5: Pairs = (match a@.forced_psf_flux_flag_no_good_pixels { Some(x) => seq![("forced_PsfFlux_flag_noGoodPixels"@, DocValueSpec::Bool(x))], None => seq![] });
    let ghost p1: Pairs = t1;
    let ghost p2: Pairs = p1 + t2;
    let ghost p3: Pairs = p2 + t3;
    let ghost p4: Pairs = p3 + t4;
    let ghost p5: Pairs = p4 + t5;
    match a.trail_ndata {
        Some(x) => {
            d.push("trailNdata", DocValue::I32(x));
            proof {
                lemma_push_concat(b, ("trailNdata"@, DocValueSpec::I32(x)));
                assert(t1 == seq![("trailNdata"@, DocValueSpec::I32(x))]);
                assert(doc_view(*d) == b + p1);
            }
        },
        None => {
            proof {
                assert(t1 =~= Seq::<(Seq<char>, DocValueSpec)>::empty());
                assert(b + t1 =~= b);
                assert(doc_view(*d) == b + p1);
            }
        },
    }
    match a.trail_flag_edge {
        Some(x) => {
            d.push("trail_flag_edge", DocValue::Bool(x));
            proof {
                lemma_push_concat(b + p1, ("trail_flag_edge"@, DocValueSpec::Bool(x)));
                lemma_concat_assoc(b, p1, seq![("trail_flag_edge"@, DocValueSpec::Bool(x))]);
                assert(t2 == seq![("trail_flag_edge"@, DocValueSpec::Bool(x))]);
                assert(doc_view(*d) == b + p2);
            }
        },
        None => {
            proof {
                assert(t2 =~= Seq::<(Seq<char>, DocValueSpec)>::empty());
                assert(p1 + t2 =~= p1);
                assert(doc_view(*d) == b + p2);
            }
        },
    }
    match a.forced_psf_flux_flag {
        Some(x) => {
            d.push("forced_PsfFlux_flag", DocValue::Bool(x));
            proof {
                lemma_push_concat(b + p2, ("forced_PsfFlux_flag"@, DocValueSpec::Bool(x)));
                lemma_concat_assoc(b, p2, seq![("forced_PsfFlux_flag"@, DocValueSpec::Bool(x))]);
                assert(t3 == seq![("forced_PsfFlux_flag"@, DocValueSpec::Bool(x))]);
                assert(doc_view(*d) == b + p3);
            }
        },
        None => {
            proof {
                assert(t3 =~= Seq::<(Seq<char>, DocValueSpec)>::empty());
                assert(p2 + t3 =~= p2);
                assert(doc_view(*d) == b + p3);
            }
        },
    }
    match a.forced_psf_flux_flag_edge {
        Some(x) => {
            d.push("forced_PsfFlux_flag_edge", DocValue::Bool(x));
            proof {
                lemma_push_concat(b + p3, ("forced_PsfFlux_flag_edge"@, DocValueSpec::Bool(x)));
                lemma_concat_assoc(b, p3, seq![("forced_PsfFlux_flag_edge"@, DocValueSpec::Bool(x))]);
                assert(t4 == seq![("forced_PsfFlux_flag_edge"@, DocValueSpec::Bool(x))]);
                assert(doc_view(*d) == b + p4);
            }
        },
        None => {
            proof {
                assert(t4 =~= Seq::<(Seq<char>, DocValueSpec)>::empty());
                assert(p3 + t4 =~= p3);
                assert(doc_view(*d) == b + p4);
            }
        },
    }
    match a.forced_psf_flux_flag_no_good_pixels {
        Some(x) => {
            d.push("forced_PsfFlux_flag_noGoodPixels", DocValue::Bool(x));
            proof {
                lemma_push_concat(b + p4, ("forced_PsfFlux_flag_noGoodPixels"@, DocValueSpec::Bool(x)));
                lemma_concat_assoc(b, p4, seq![("forced_PsfFlux_flag_noGoodPixels"@, DocValueSpec::Bool(x))]);
                assert(t5 == seq![("forced_PsfFlux_flag_noGoodPixels"@, DocValueSpec::Bool(x))]);
                assert(doc_view(*d) == b + p5);
            }
        },
        None => {
            proof {
                assert(t5 =~= Seq::<(Seq<char>, DocValueSpec)>::empty());
                assert(p4 + t5 =~= p4);
                assert(doc_view(*d) == b + p5);
            }
        },
    }
    proof {
        assert(p5 == mongify_ds_pairs_c9(a@));
    }
}

#[verifier::rlimit(100)]
fn mongify_ds_c10(d: &mut Document, a: &DiaSource)
    ensures
        doc_view(*final(d)) == doc_view(*old(d)) + mongify_ds_pairs_c10(a@),
{
    let ghost b = doc_view(*d);
    let ghost t1: Pairs = (match a@.snap_diff_flux { Some(x) => seq![("snapDiffFlux"@, DocValueSpec::Single(x))], None => seq![] });
    let ghost t2: Pairs = (match a@.snap_diff_flux_err { Some(x) => seq![("snapDiffFluxErr"@, DocValueSpec::Single(x))], None => seq![] });
    let ghost t3: Pairs = (match a@.fp_bkgd { Some(x) => seq![("fpBkgd"@, DocValueSpec::Single(x))], None => seq![] });
    let ghost t4: Pairs = (match a@.fp_bkgd_err { Some(x) => seq![("fpBkgdErr"@, DocValueSpec::Single(x))], None => seq![] });
    let ghost t5: Pairs = (match a@.shape_flag { Some(x) => seq![("shape_flag"@, DocValueSpec::Bool(x))], None => seq![] });
    let ghost p1: Pairs = t1;
    let ghost p2: Pairs = p1 + t2;
    let ghost p3: Pairs = p2 + t3;
    let ghost p4: Pairs = p3 + t4;
    let ghost p5: Pairs = p4 + t5;
    match a.snap_diff_flux {
        Some(x) => {
            d.push("snapDiffFlux", DocValue::Single(x));
            proof {
                lemma_push_concat(b, ("snapDiffFlux"@, DocValueSpec::Single(x)));
                assert(t1 == seq![("snapDiffFlux"@, DocValueSpec::Single(x))]);
                assert(doc_view(*d) == b + p1);
            }
        },
        None => {
            proof {
                assert(t1 =~= Seq::<(Seq<char>, DocValueSpec)>::empty());
                assert(b + t1 =~= b);
                assert(doc_view(*d) == b + p1);
            }
        },
    }
    match a.snap_diff_flux_err {
        Some(x) => {
            d.push("snapDiffFluxErr", DocValue::Single(x));
            proof {
                lemma_push_concat(b + p1, ("snapDiffFluxErr"@, DocValueSpec::Single(x)));
                lemma_concat_assoc(b, p1, seq![("snapDiffFluxErr"@, DocValueSpec::Single(x))]);
                assert(t2 == seq![("snapDiffFluxErr"@, DocValueSpec::Single(x))]);
                assert(doc_view(*d) == b + p2);
            }
        },
        None => {
            proof {
                assert(t2 =~= Seq::<(Seq<char>, DocValueSpec)>::empty());
                assert(p1 + t2 =~= p1);
                assert(doc_view(*d) == b + p2);
            }
        },
    }
    match a.fp_bkgd {
        Some(x) => {
            d.push("fpBkgd", DocValue::Single(x));
            proof {
                lemma_push_concat(b + p2, ("fpBkgd"@, DocValueSpec::Single(x)));
                lemma_concat_assoc(b, p2, seq![("fpBkgd"@, DocValueSpec::Single(x))]);
                assert(t3 == seq![("fpBkgd"@, DocValueSpec::Single(x))]);
                assert(doc_view(*d) == b + p3);
            }
        },
        None => {
            proof {
                assert(t3 =~= Seq::<(Seq<char>, DocValueSpec)>::empty());
                assert(p2 + t3 =~= p2);
                assert(doc_view(*d) == b + p3);
            }
        },
    }
    match a.fp_bkgd_err {
        Some(x) => {
            d.push("fpBkgdErr", DocValue::Single(x));
            proof {
                lemma_push_concat(b + p3, ("fpBkgdErr"@, DocValueSpec::Single(x)));
                lemma_concat_assoc(b, p3, seq![("fpBkgdErr"@, DocValueSpec::Single(x))]);
                assert(t4 == seq![("fpBkgdErr"@, DocValueSpec::Single(x))]);
                assert(doc_view(*d) == b + p4);
            }
        },
        None => {
            proof {
                assert(t4 =~= Seq::<(Seq<char>, DocValueSpec)>::empty());
                assert(p3 + t4 =~= p3);
                assert(doc_view(*d) == b + p4);
            }
        },
    }
    match a.shape_flag {
        Some(x) => {
            d.push("shape_flag", DocValue::Bool(x));
            proof {
                lemma_push_concat(b + p4, ("shape_flag"@, DocValueSpec::Bool(x)));
                lemma_concat_assoc(b, p4, seq![("shape_flag"@, DocValueSpec::Bool(x))]);
                assert(t5 == seq![("shape_flag"@, DocValueSpec::Bool(x))]);
                assert(doc_view(*d) == b + p5);
            }
        },
        None => {
            proof {
                assert(t5 =~= Seq::<(Seq<char>, DocValueSpec)>::empty());
                assert(p4 + t5 =~= p4);
                assert(doc_view(*d) == b + p5);
            }
        },
    }
    proof {
        assert(p5 == mongify_ds_pairs_c10(a@));
    }
}

#[verifier::rlimit(100)]
fn mongify_ds_c11(d: &mut Document, a: &DiaSource)
    ensures
        doc_view(*final(d)) == doc_view(*old(d)) + mongify_ds_pairs_c11(a@),
{
    let ghost b = doc_view(*d);
    let ghost t1: Pairs = (match a@.shape_flag_no_pixels { Some(x) => seq![("shape_flag_no_pixels"@, DocValueSpec::Bool(x))], None => seq![] });
    let ghost t2: Pairs = (match a@.shape_flag_not_contained { Some(x) => seq![("shape_flag_not_contained"@, DocValueSpec::Bool(x))], None => seq![] });
    let ghost t3: Pairs = (match a@.shape_flag_parent_source { Some(x) => seq![("shape_flag_parent_source"@, DocValueSpec::Bool(x))], None => seq![] });
    let ghost t4: Pairs = (match a@.extendedness { Some(x) => seq![("extendedness"@, DocValueSpec::Single(x))], None => seq![] });
    let ghost t5: Pairs = (match a@.reliability { Some(x) => seq![("reliability"@, DocValueSpec::Single(x))], None => seq![] });
    let ghost p1: Pairs = t1;
    let ghost p2: Pairs = p1 + t2;
    let ghost p3: Pairs = p2 + t3;
    let ghost p4: Pairs = p3 + t4;
    let ghost p5: Pairs = p4 + t5;
    match a.shape_flag_no_pixels {
        Some(x) => {
            d.push("shape_flag_no_pixels", DocValue::Bool(x));
            proof {
                lemma_push_concat(b, ("shape_flag_no_pixels"@, DocValueSpec::Bool(x)));
                assert(t1 == seq![("shape_flag_no_pixels"@, DocValueSpec::Bool(x))]);
                assert(doc_view(*d) == b + p1);
            }
        },
        None => {
            proof {
                assert(t1 =~= Seq::<(Seq<char>, DocValueSpec)>::empty());
                assert(b + t1 =~= b);
                assert(doc_view(*d) == b + p1);
            }
        },
    }
    match a.shape_flag_not_contained {
        Some(x) => {
            d.push("shape_flag_not_contained", DocValue::Bool(x));
            proof {
                lemma_push_concat(b + p1, ("shape_flag_not_contained"@, DocValueSpec::Bool(x)));
                lemma_concat_assoc(b, p1, seq![("shape_flag_not_contained"@, DocValueSpec::Bool(x))]);
                assert(t2 == seq![("shape_flag_not_contained"@, DocValueSpec::Bool(x))]);
                assert(doc_view(*d) == b + p2);
            }
        },
        None => {
            proof {
                assert(t2 =~= Seq::<(Seq<char>, DocValueSpec)>::empty());
                assert(p1 + t2 =~= p1);
                assert(doc_view(*d) == b + p2);
            }
        },
    }
    match a.shape_flag_parent_source {
        Some(x) => {
            d.push("shape_flag_parent_source", DocValue::Bool(x));
            proof {
                lemma_push_concat(b + p2, ("shape_flag_parent_source"@, DocValueSpec::Bool(x)));
                lemma_concat_assoc(b, p2, seq![("shape_flag_parent_source"@, DocValueSpec::Bool(x))]);
                assert(t3 == seq![("shape_flag_parent_source"@, DocValueSpec::Bool(x))]);
                assert(doc_view(*d) == b + p3);
            }
        },
        None => {
            proof {
                assert(t3 =~= Seq::<(Seq<char>, DocValueSpec)>::empty());
                assert(p2 + t3 =~= p2);
                assert(doc_view(*d) == b + p3);
            }
        },
    }
    match a.extendedness {
        Some(x) => {
            d.push("extendedness", DocValue::Single(x));
            proof {
                lemma_push_concat(b + p3, ("extendedness"@, DocValueSpec::Single(x)));
                lemma_concat_assoc(b, p3, seq![("extendedness"@, DocValueSpec::Single(x))]);
                assert(t4 == seq![("extendedness"@, DocValueSpec::Single(x))]);
                assert(doc_view(*d) == b + p4);
            }
        },
        None => {
            proof {
                assert(t4 =~= Seq::<(Seq<char>, DocValueSpec)>::empty());
                assert(p3 + t4 =~= p3);
                assert(doc_view(*d) == b + p4);
            }
        },
    }
    match a.reliability {
        Some(x) => {
            d.push("reliability", DocValue::Single(x));
            proof {
                lemma_push_concat(b + p4, ("reliability"@, DocValueSpec::Single(x)));
                lemma_concat_assoc(b, p4, seq![("reliability"@, DocValueSpec::Single(x))]);
                assert(t5 == seq![("reliability"@, DocValueSpec::Single(x))]);
                assert(doc_view(*d) == b + p5);
            }
        },
        None => {
            proof {
                assert(t5 =~= Seq::<(Seq<char>, DocValueSpec)>::empty());
                assert(p4 + t5 =~= p4);
                assert(doc_view(*d) == b + p5);
            }
        },
    }
    proof {
        assert(p5 == mongify_ds_pairs_c11(a@));
    }
}

#[verifier::rlimit(100)]
fn mongify_ds_c12(d: &mut Document, a: &DiaSource)
    ensures
        doc_view(*final(d)) == doc_view(*old(d)) + mongify_ds_pairs_c12(a@),
{
    let ghost b = doc_view(*d);
    let ghost t1: Pairs = (match a@.band { Some(x) => seq![("band"@, DocValueSpec::Str(x))], None => seq![] });
    let ghost t2: Pairs = (match a@.pixel_flags { Some(x) => seq![("pixelFlags"@, DocValueSpec::Bool(x))], None => seq![] });
    let ghost t3: Pairs = (match a@.pixel_flags_bad { Some(x) => seq![("pixelFlags_bad"@, DocValueSpec::Bool(x))], None => seq![] });
    let ghost t4: Pairs = (match a@.pixel_flags_cr { Some(x) => seq![("pixelFlags_cr"@, DocValueSpec::Bool(x))], None => seq![] });
    let ghost t5: Pairs = (match a@.pixel_flags_cr_center { Some(x) => seq![("pixelFlags_crCenter"@, DocValueSpec::Bool(x))], None => seq![] });
    let ghost p1: Pairs = t1;
    let ghost p2: Pairs = p1 + t2;
    let ghost p3: Pairs = p2 + t3;
    let ghost p4: Pairs = p3 + t4;
    let ghost p5: Pairs = p4 + t5;
    match &a.band {
        Some(x) => {
            d.push("band", DocValue::Str(x.clone()));
            proof {
                lemma_push_concat(b, ("band"@, DocValueSpec::Str(x@)));
                assert(t1 == seq![("band"@, DocValueSpec::Str(x@))]);
                assert(doc_view(*d) == b + p1);
            }
        },
        None => {
            proof {
                assert(t1 =~= Seq::<(Seq<char>, DocValueSpec)>::empty());
                assert(b + t1 =~= b);
                assert(doc_view(*d) == b + p1);
            }
        },
    }
    match a.pixel_flags {
        Some(x) => {
            d.push("pixelFlags", DocValue::Bool(x));
            proof {
                lemma_push_concat(b + p1, ("pixelFlags"@, DocValueSpec::Bool(x)));
                lemma_concat_assoc(b, p1, seq![("pixelFlags"@, DocValueSpec::Bool(x))]);
                assert(t2 == seq![("pixelFlags"@, DocValueSpec::Bool(x))]);
                assert(doc_view(*d) == b + p2);
            }
        },
        None => {
            proof {
                assert(t2 =~= Seq::<(Seq<char>, DocValueSpec)>::empty());
                assert(p1 + t2 =~= p1);
                assert(doc_view(*d) == b + p2);
            }
        },
    }
    match a.pixel_flags_bad {
        Some(x) => {
            d.push("pixelFlags_bad", DocValue::Bool(x));
            proof {
                lemma_push_concat(b + p2, ("pixelFlags_bad"@, DocValueSpec::Bool(x)));
                lemma_concat_assoc(b, p2, seq![("pixelFlags_bad"@, DocValueSpec::Bool(x))]);
                assert(t3 == seq![("pixelFlags_bad"@, DocValueSpec::Bool(x))]);
                assert(doc_view(*d) == b + p3);
            }
        },
        None => {
            proof {
                assert(t3 =~= Seq::<(Seq<char>, DocValueSpec)>::empty());
                assert(p2 + t3 =~= p2);
                assert(doc_view(*d) == b + p3);
            }
        },
    }
    match a.pixel_flags_cr {
        Some(x) => {
            d.push("pixelFlags_cr", DocValue::Bool(x));
            proof {
                lemma_push_concat(b + p3, ("pixelFlags_cr"@, DocValueSpec::Bool(x)));
                lemma_concat_assoc(b, p3, seq![("pixelFlags_cr"@, DocValueSpec::Bool(x))]);
                assert(t4 == seq![("pixelFlags_cr"@, DocValueSpec::Bool(x))]);
                assert(doc_view(*d) == b + p4);
            }
        },
        None => {
            proof {
                assert(t4 =~= Seq::<(Seq<char>, DocValueSpec)>::empty());
                assert(p3 + t4 =~= p3);
                assert(doc_view(*d) == b + p4);
            }
        },
    }
    match a.pixel_flags_cr_center {
        Some(x) => {
            d.push("pixelFlags_crCenter", DocValue::Bool(x));
            proof {
                lemma_push_concat(b + p4, ("pixelFlags_crCenter"@, DocValueSpec::Bool(x)));
                lemma_concat_assoc(b, p4, seq![("pixelFlags_crCenter"@, DocValueSpec::Bool(x))]);
                assert(t5 == seq![("pixelFlags_crCenter"@, DocValueSpec::Bool(x))]);
                assert(doc_view(*d) == b + p5);
            }
        },
        None => {
            proof {
                assert(t5 =~= Seq::<(Seq<char>, DocValueSpec)>::empty());
                assert(p4 + t5 =~= p4);
                assert(doc_view(*d) == b + p5);
            }
        },
    }
    proof {
        assert(p5 == mongify_ds_pairs_c12(a@));
    }
}

#[verifier::rlimit(100)]
fn mongify_ds_c13(d: &mut Document, a: &DiaSource)
    ensures
        doc_view(*final(d)) == doc_view(*old(d)) + mongify_ds_pairs_c13(a@),
{
    let ghost b = doc_view(*d);
    let ghost t1: Pairs = (match a@.pixel_flags_edge { Some(x) => seq![("pixelFlags_edge"@, DocValueSpec::Bool(x))], None => seq![] });
    let ghost t2: Pairs = (match a@.pixel_flags_interpolated { Some(x) => seq![("pixelFlags_interpolated"@, DocValueSpec::Bool(x))], None => seq![] });
    let ghost t3: Pairs = (match a@.pixel_flags_interpolated_center { Some(x) => seq![("pixelFlags_interpolatedCenter"@, DocValueSpec::Bool(x))], None => seq![] });
    let ghost t4: Pairs = (match a@.pixel_flags_offimage { Some(x) => seq![("pixelFlags_offimage"@, DocValueSpec::Bool(x))], None => seq![] });
    let ghost t5: Pairs = (match a@.pixel_flags_saturated { Some(x) => seq![("pixelFlags_saturated"@, DocValueSpec::Bool(x))], None => seq![] });
    let ghost p1: Pairs = t1;
    let ghost p2: Pairs = p1 + t2;
    let ghost p3: Pairs = p2 + t3;
    let ghost p4: Pairs = p3 + t4;
    let ghost p5: Pairs = p4 + t5;
    match a.pixel_flags_edge {
        Some(x) => {
            d.push("pixelFlags_edge", DocValue::Bool(x));
            proof {
                lemma_push_concat(b, ("pixelFlags_edge"@, DocValueSpec::Bool(x)));
                assert(t1 == seq![("pixelFlags_edge"@, DocValueSpec::Bool(x))]);
                assert(doc_view(*d) == b + p1);
            }
        },
        None => {
            proof {
                assert(t1 =~= Seq::<(Seq<char>, DocValueSpec)>::empty());
                assert(b + t1 =~= b);
                assert(doc_view(*d) == b + p1);
            }
        },
    }
    match a.pixel_flags_interpolated {
        Some(x) => {
            d.push("pixelFlags_interpolated", DocValue::Bool(x));
            proof {
                lemma_push_concat(b + p1, ("pixelFlags_interpolated"@, DocValueSpec::Bool(x)));
                lemma_concat_assoc(b, p1, seq![("pixelFlags_interpolated"@, DocValueSpec::Bool(x))]);
                assert(t2 == seq![("pixelFlags_interpolated"@, DocValueSpec::Bool(x))]);
                assert(doc_view(*d) == b + p2);
            }
        },
        None => {
            proof {
                assert(t2 =~= Seq::<(Seq<char>, DocValueSpec)>::empty());
                assert(p1 + t2 =~= p1);
                assert(doc_view(*d) == b + p2);
            }
        },
    }
    match a.pixel_flags_interpolated_center {
        Some(x) => {
            d.push("pixelFlags_interpolatedCenter", DocValue::Bool(x));
            proof {
                lemma_push_concat(b + p2, ("pixelFlags_interpolatedCenter"@, DocValueSpec::Bool(x)));
                lemma_concat_assoc(b, p2, seq![("pixelFlags_interpolatedCenter"@, DocValueSpec::Bool(x))]);
                assert(t3 == seq![("pixelFlags_interpolatedCenter"@, DocValueSpec::Bool(x))]);
                assert(doc_view(*d) == b + p3);
            }
        },
        None => {
            proof {
                assert(t3 =~= Seq::<(Seq<char>, DocValueSpec)>::empty());
                assert(p2 + t3 =~= p2);
                assert(doc_view(*d) == b + p3);
            }
        },
    }
    match a.pixel_flags_offimage {
        Some(x) => {
            d.push("pixelFlags_offimage", DocValue::Bool(x));
            proof {
                lemma_push_concat(b + p3, ("pixelFlags_offimage"@, DocValueSpec::Bool(x)));
                lemma_concat_assoc(b, p3, seq![("pixelFlags_offimage"@, DocValueSpec::Bool(x))]);
                assert(t4 == seq![("pixelFlags_offimage"@, DocValueSpec::Bool(x))]);
                assert(doc_view(*d) == b + p4);
            }
        },
        None => {
            proof {
                assert(t4 =~= Seq::<(Seq<char>, DocValueSpec)>::empty());
                assert(p3 + t4 =~= p3);
                assert(doc_view(*d) == b + p4);
            }
        },
    }
    match a.pixel_flags_saturated {
        Some(x) => {
            d.push("pixelFlags_saturated", DocValue::Bool(x));
            proof {
                lemma_push_concat(b + p4, ("pixelFlags_saturated"@, DocValueSpec::Bool(x)));
                lemma_concat_assoc(b, p4, seq![("pixelFlags_saturated"@, DocValueSpec::Bool(x))]);
                assert(t5 == seq![("pixelFlags_saturated"@, DocValueSpec::Bool(x))]);
                assert(doc_view(*d) == b + p5);
            }
        },
        None => {
            proof {
                assert(t5 =~= Seq::<(Seq<char>, DocValueSpec)>::empty());
                assert(p4 + t5 =~= p4);
                assert(doc_view(*d) == b + p5);
            }
        },
    }
    proof {
        assert(p5 == mongify_ds_pairs_c13(a@));
    }
}

#[verifier::rlimit(100)]
fn mongify_ds_c14(d: &mut Document, a: &DiaSource)
    ensures
        doc_view(*final(d)) == doc_view(*old(d)) + mongify_ds_pairs_c14(a@),
{
    let ghost b = doc_view(*d);
    let ghost t1: Pairs = (match a@.pixel_flags_saturated_center { Some(x) => seq![("pixelFlags_saturatedCenter"@, DocValueSpec::Bool(x))], None => seq![] });
    let ghost t2: Pairs = (match a@.pixel_flags_suspect { Some(x) => seq![("pixelFlags_suspect"@, DocValueSpec::Bool(x))], None => seq![] });
    let ghost t3: Pairs = (match a@.pixel_flags_suspect_center { Some(x) => seq![("pixelFlags_suspectCenter"@, DocValueSpec::Bool(x))], None => seq![] });
    let ghost t4: Pairs = (match a@.pixel_flags_streak { Some(x) => seq![("pixelFlags_streak"@, DocValueSpec::Bool(x))], None => seq![] });
    let ghost t5: Pairs = (match a@.pixel_flags_streak_center { Some(x) => seq![("pixelFlags_streakCenter"@, DocValueSpec::Bool(x))], None => seq![] });
    let ghost p1: Pairs = t1;
    let ghost p2: Pairs = p1 + t2;
    let ghost p3: Pairs = p2 + t3;
    let ghost p4: Pairs = p3 + t4;
    let ghost p5: Pairs = p4 + t5;
    match a.pixel_flags_saturated_center {
        Some(x) => {
            d.push("pixelFlags_saturatedCenter", DocValue::Bool(x));
            proof {
                lemma_push_concat(b, ("pixelFlags_saturatedCenter"@, DocValueSpec::Bool(x)));
                assert(t1 == seq![("pixelFlags_saturatedCenter"@, DocValueSpec::Bool(x))]);
                assert(doc_view(*d) == b + p1);
            }
        },
        None => {
            proof {
                assert(t1 =~= Seq::<(Seq<char>, DocValueSpec)>::empty());
                assert(b + t1 =~= b);
                assert(doc_view(*d) == b + p1);
            }
        },
    }
    match a.pixel_flags_suspect {
        Some(x) => {
            d.push("pixelFlags_suspect", DocValue::Bool(x));
            proof {
                lemma_push_concat(b + p1, ("pixelFlags_suspect"@, DocValueSpec::Bool(x)));
                lemma_concat_assoc(b, p1, seq![("pixelFlags_suspect"@, DocValueSpec::Bool(x))]);
                assert(t2 == seq![("pixelFlags_suspect"@, DocValueSpec::Bool(x))]);
                assert(doc_view(*d) == b + p2);
            }
        },
        None => {
            proof {
                assert(t2 =~= Seq::<(Seq<char>, DocValueSpec)>::empty());
                assert(p1 + t2 =~= p1);
                assert(doc_view(*d) == b + p2);
            }
        },
    }
    match a.pixel_flags_suspect_center {
        Some(x) => {
            d.push("pixelFlags_suspectCenter", DocValue::Bool(x));
            proof {
                lemma_push_concat(b + p2, ("pixelFlags_suspectCenter"@, DocValueSpec::Bool(x)));
                lemma_concat_assoc(b, p2, seq![("pixelFlags_suspectCenter"@, DocValueSpec::Bool(x))]);
                assert(t3 == seq![("pixelFlags_suspectCenter"@, DocValueSpec::Bool(x))]);
                assert(doc_view(*d) == b + p3);
            }
        },
        None => {
            proof {
                assert(t3 =~= Seq::<(Seq<char>, DocValueSpec)>::empty());
                assert(p2 + t3 =~= p2);
                assert(doc_view(*d) == b + p3);
            }
        },
    }
    match a.pixel_flags_streak {
        Some(x) => {
            d.push("pixelFlags_streak", DocValue::Bool(x));
            proof {
                lemma_push_concat(b + p3, ("pixelFlags_streak"@, DocValueSpec::Bool(x)));
                lemma_concat_assoc(b, p3, seq![("pixelFlags_streak"@, DocValueSpec::Bool(x))]);
                assert(t4 == seq![("pixelFlags_streak"@, DocValueSpec::Bool(x))]);
                assert(doc_view(*d) == b + p4);
            }
        },
        None => {
            proof {
                assert(t4 =~= Seq::<(Seq<char>, DocValueSpec)>::empty());
                assert(p3 + t4 =~= p3);
                assert(doc_view(*d) == b + p4);
            }
        },
    }
    match a.pixel_flags_streak_center {
        Some(x) => {
            d.push("pixelFlags_streakCenter", DocValue::Bool(x));
            proof {
                lemma_push_concat(b + p4, ("pixelFlags_streakCenter"@, DocValueSpec::Bool(x)));
                lemma_concat_assoc(b, p4, seq![("pixelFlags_streakCenter"@, DocValueSpec::Bool(x))]);
                assert(t5 == seq![("pixelFlags_streakCenter"@, DocValueSpec::Bool(x))]);
                assert(doc_view(*d) == b + p5);
            }
        },
        None => {
            proof {
                assert(t5 =~= Seq::<(Seq<char>, DocValueSpec)>::empty());
                assert(p4 + t5 =~= p4);
                assert(doc_view(*d) == b + p5);
            }
        },
    }
    proof {
        assert(p5 == mongify_ds_pairs_c14(a@));
    }
}

#[verifier::rlimit(100)]
fn mongify_ds_c15(d: &mut Document, a: &DiaSource)
    ensures
        doc_view(*final(d)) == doc_view(*old(d)) + mongify_ds_pairs_c15(a@),
{
    let ghost b = doc_view(*d);
    let ghost t1: Pairs = (match a@.pixel_flags_injected { Some(x) => seq![("pixelFlags_injected"@, DocValueSpec::Bool(x))], None => seq![] });
    let ghost t2: Pairs = (match a@.pixel_flags_injected_center { Some(x) => seq![("pixelFlags_injectedCenter"@, DocValueSpec::Bool(x))], None => seq![] });
    let ghost t3: Pairs = (match a@.pixel_flags_injected_template { Some(x) => seq![("pixelFlags_injected_template"@, DocValueSpec::Bool(x))], None => seq![] });
    let ghost t4: Pairs = (match a@.pixel_flags_injected_template_center { Some(x) => seq![("pixelFlags_injected_templateCenter"@, DocValueSpec::Bool(x))], None => seq![] });
    let ghost t5: Pairs = (match a@.magpsf { Some(x) => seq![("magpsf"@, DocValueSpec::Single(x))], None => seq![] });
    let ghost p1: Pairs = t1;
    let ghost p2: Pairs = p1 + t2;
    let ghost p3: Pairs = p2 + t3;
    let ghost p4: Pairs = p3 + t4;
    let ghost p5: Pairs = p4 + t5;
    match a.pixel_flags_injected {
        Some(x) => {
            d.push("pixelFlags_injected", DocValue::Bool(x));
            proof {
                lemma_push_concat(b, ("pixelFlags_injected"@, DocValueSpec::Bool(x)));
                assert(t1 == seq![("pixelFlags_injected"@, DocValueSpec::Bool(x))]);
                assert(doc_view(*d) == b + p1);
            }
        },
        None => {
            proof {
                assert(t1 =~= Seq::<(Seq<char>, DocValueSpec)>::empty());
                assert(b + t1 =~= b);
                assert(doc_view(*d) == b + p1);
            }
        },
    }
    match a.pixel_flags_injected_center {
        Some(x) => {
            d.push("pixelFlags_injectedCenter", DocValue::Bool(x));
            proof {
                lemma_push_concat(b + p1, ("pixelFlags_injectedCenter"@, DocValueSpec::Bool(x)));
                lemma_concat_assoc(b, p1, seq![("pixelFlags_injectedCenter"@, DocValueSpec::Bool(x))]);
                assert(t2 == seq![("pixelFlags_injectedCenter"@, DocValueSpec::Bool(x))]);
                assert(doc_view(*d) == b + p2);
            }
        },
        None => {
            proof {
                assert(t2 =~= Seq::<(Seq<char>, DocValueSpec)>::empty());
                assert(p1 + t2 =~= p1);
                assert(doc_view(*d) == b + p2);
            }
        },
    }
    match a.pixel_flags_injected_template {
        Some(x) => {
            d.push("pixelFlags_injected_template", DocValue::Bool(x));
            proof {
                lemma_push_concat(b + p2, ("pixelFlags_injected_template"@, DocValueSpec::Bool(x)));
                lemma_concat_assoc(b, p2, seq![("pixelFlags_injected_template"@, DocValueSpec::Bool(x))]);
                assert(t3 == seq![("pixelFlags_injected_template"@, DocValueSpec::Bool(x))]);
                assert(doc_view(*d) == b + p3);
            }
        },
        None => {
            proof {
                assert(t3 =~= Seq::<(Seq<char>, DocValueSpec)>::empty());
                assert(p2 + t3 =~= p2);
                assert(doc_view(*d) == b + p3);
            }
        },
    }
    match a.pixel_flags_injected_template_center {
        Some(x) => {
            d.push("pixelFlags_injected_templateCenter", DocValue::Bool(x));
            proof {
                lemma_push_concat(b + p3, ("pixelFlags_injected_templateCenter"@, DocValueSpec::Bool(x)));
                lemma_concat_assoc(b, p3, seq![("pixelFlags_injected_templateCenter"@, DocValueSpec::Bool(x))]);
                assert(t4 == seq![("pixelFlags_injected_templateCenter"@, DocValueSpec::Bool(x))]);
                assert(doc_view(*d) == b + p4);
            }
        },
        None => {
            proof {
                assert(t4 =~= Seq::<(Seq<char>, DocValueSpec)>::empty());
                assert(p3 + t4 =~= p3);
                assert(doc_view(*d) == b + p4);
            }
        },
    }
    match a.magpsf {
        Some(x) => {
            d.push("magpsf", DocValue::Single(x));
            proof {
                lemma_push_concat(b + p4, ("magpsf"@, DocValueSpec::Single(x)));
                lemma_concat_assoc(b, p4, seq![("magpsf"@, DocValueSpec::Single(x))]);
                assert(t5 == seq![("magpsf"@, DocValueSpec::Single(x))]);
                assert(doc_view(*d) == b + p5);
            }
        },
        None => {
            proof {
                assert(t5 =~= Seq::<(Seq<char>, DocValueSpec)>::empty());
                assert(p4 + t5 =~= p4);
                assert(doc_view(*d) == b + p5);
            }
        },
    }
    proof {
        assert(p5 == mongify_ds_pairs_c15(a@));
    }
}

#[verifier::rlimit(100)]
fn mongify_ds_c16(d: &mut Document, a: &DiaSource)
    ensures
        doc_view(*final(d)) == doc_view(*old(d)) + mongify_ds_pairs_c16(a@),
{
    let ghost b = doc_view(*d);
    let ghost t1: Pairs = (match a@.sigmapsf { Some(x) => seq![("sigmapsf"@, DocValueSpec::Single(x))], None => seq![] });
    let ghost t2: Pairs = (match a@.science_flux { Some(x) => seq![("scienceFlux"@, DocValueSpec::Single(x))], None => seq![] });
    let ghost p1: Pairs = t1;
    let ghost p2: Pairs = p1 + t2;
    match a.sigmapsf {
        Some(x) => {
            d.push("sigmapsf", DocValue::Single(x));
            proof {
                lemma_push_concat(b, ("sigmapsf"@, DocValueSpec::Single(x)));
                assert(t1 == seq![("sigmapsf"@, DocValueSpec::Single(x))]);
                assert(doc_view(*d) == b + p1);
            }
        },
        None => {
            proof {
                assert(t1 =~= Seq::<(Seq<char>, DocValueSpec)>::empty());
                assert(b + t1 =~= b);
                assert(doc_view(*d) == b + p1);
            }
        },
    }
    match a.science_flux {
        Some(x) => {
            d.push("scienceFlux", DocValue::Single(x));
            proof {
                lemma_push_concat(b + p1, ("scienceFlux"@, DocValueSpec::Single(x)));
                lemma_concat_assoc(b, p1, seq![("scienceFlux"@, DocValueSpec::Single(x))]);
                assert(t2 == seq![("scienceFlux"@, DocValueSpec::Single(x))]);
                assert(doc_view(*d) == b + p2);
            }
        },
        None => {
            proof {
                assert(t2 =~= Seq::<(Seq<char>, DocValueSpec)>::empty());
                assert(p1 + t2 =~= p1);
                assert(doc_view(*d) == b + p2);
            }
        },
    }
    proof {
        assert(p2 == mongify_ds_pairs_c16(a@));
    }
}

/// Projects one record onto a storage document.
pub fn mongify_dia_source(a: &DiaSource) -> (r: Document)
    ensures
        doc_view(r) == mongify_dia_source_pairs(a@),
{
    let ghost q1: Pairs = mongify_ds_pairs_c1(a@);
    let ghost q2: Pairs = mongify_ds_pairs_c2(a@);
    let ghost q3: Pairs = mongify_ds_pairs_c3(a@);
    let ghost q4: Pairs = mongify_ds_pairs_c4(a@);
    let ghost q5: Pairs = mongify_ds_pairs_c5(a@);
    let ghost q6: Pairs = mongify_ds_pairs_c6(a@);
    let ghost q7: Pairs = mongify_ds_pairs_c7(a@);
    let ghost q8: Pairs = mongify_ds_pairs_c8(a@);
    let ghost q9: Pairs = mongify_ds_pairs_c9(a@);
    let ghost q10: Pairs = mongify_ds_pairs_c10(a@);
    let ghost q11: Pairs = mongify_ds_pairs_c11(a@);
    let ghost q12: Pairs = mongify_ds_pairs_c12(a@);
    let ghost q13: Pairs = mongify_ds_pairs_c13(a@);
    let ghost q14: Pairs = mongify_ds_pairs_c14(a@);
    let ghost q15: Pairs = mongify_ds_pairs_c15(a@);
    let ghost q16: Pairs = mongify_ds_pairs_c16(a@);
    let ghost s1: Pairs = q1;
    let ghost s2: Pairs = s1 + q2;
    let ghost s3: Pairs = s2 + q3;
    let ghost s4: Pairs = s3 + q4;
    let ghost s5: Pairs = s4 + q5;
    let ghost s6: Pairs = s5 + q6;
    let ghost s7: Pairs = s6 + q7;
    let ghost s8: Pairs = s7 + q8;
    let ghost s9: Pairs = s8 + q9;
    let ghost s10: Pairs = s9 + q10;
    let ghost s11: Pairs = s10 + q11;
    let ghost s12: Pairs = s11 + q12;
    let ghost s13: Pairs = s12 + q13;
    let ghost s14: Pairs = s13 + q14;
    let ghost s15: Pairs = s14 + q15;
    let ghost s16: Pairs = s15 + q16;
    let mut d = Document::new();
    mongify_ds_c1(&mut d, a);
    proof {
        assert(Seq::<(Seq<char>, DocValueSpec)>::empty() + q1 =~= q1);
        assert(doc_view(d) == s1);
    }
    mongify_ds_c2(&mut d, a);
    proof {
        assert(doc_view(d) == s2);
    }
    mongify_ds_c3(&mut d, a);
    proof {
        assert(doc_view(d) == s3);
    }
    mongify_ds_c4(&mut d, a);
    proof {
        assert(doc_view(d) == s4);
    }
    mongify_ds_c5(&mut d, a);
    proof {
        assert(doc_view(d) == s5);
    }
    mongify_ds_c6(&mut d, a);
    proof {
        assert(doc_view(d) == s6);
    }
    mongify_ds_c7(&mut d, a);
    proof {
        assert(doc_view(d) == s7);
    }
    mongify_ds_c8(&mut d, a);
    proof {
        assert(doc_view(d) == s8);
    }
    mongify_ds_c9(&mut d, a);
    proof {
        assert(doc_view(d) == s9);
    }
    mongify_ds_c10(&mut d, a);
    proof {
        assert(doc_view(d) == s10);
    }
    mongify_ds_c11(&mut d, a);
    proof {
        assert(doc_view(d) == s11);
    }
    mongify_ds_c12(&mut d, a);
    proof {
        assert(doc_view(d) == s12);
    }
    mongify_ds_c13(&mut d, a);
    proof {
        assert(doc_view(d) == s13);
    }
    mongify_ds_c14(&mut d, a);
    proof {
        assert(doc_view(d) == s14);
    }
    mongify_ds_c15(&mut d, a);
    proof {
        assert(doc_view(d) == s15);
    }
    mongify_ds_c16(&mut d, a);
    proof {
        assert(doc_view(d) == s16);
    }
    proof {
        assert(s16 == mongify_dia_source_pairs(a@));
    }
    d
}

/// Deep equality of two records, exactly equality of their views; the
/// set-union merge of history arrays dedups by it.
pub fn dia_source_eq(a: &DiaSource, b: &DiaSource) -> (r: bool)
    ensures
        r == (a@ == b@),
{
    let r =
        a.candid == b.candid
        && a.visit == b.visit
        && a.detector == b.detector
        && a.object_id == b.object_id
        && a.ss_object_id == b.ss_object_id
        && a.parent_dia_source_id == b.parent_dia_source_id
        && a.mjd == b.mjd
        && a.ra == b.ra
        && a.ra_err == b.ra_err
        && a.dec == b.dec
        && a.dec_err == b.dec_err
        && a.centroid_flag == b.centroid_flag
        && a.is_negative == b.is_negative
        && a.ap_flux == b.ap_flux
        && a.ap_flux_err == b.ap_flux_err
        && a.ap_flux_flag == b.ap_flux_flag
        && a.ap_flux_flag_aperture_truncated == b.ap_flux_flag_aperture_truncated
        && a.snr == b.snr
        && a.psf_flux == b.psf_flux
        && a.psf_flux_err == b.psf_flux_err
        && a.psf_ra == b.psf_ra
        && a.psf_ra_err == b.psf_ra_err
        && a.psf_dec == b.psf_dec
        && a.psf_dec_err == b.psf_dec_err
        && a.psf_chi2 == b.psf_chi2
        && a.psf_ndata == b.psf_ndata
        && a.psf_flux_flag == b.psf_flux_flag
        && a.psf_flux_flag_edge == b.psf_flux_flag_edge
        && a.psf_flux_flag_no_good_pixels == b.psf_flux_flag_no_good_pixels
        && a.trail_flux == b.trail_flux
        && a.trail_flux_err == b.trail_flux_err
        && a.trail_ra == b.trail_ra
        && a.trail_ra_err == b.trail_ra_err
        && a.trail_dec == b.trail_dec
        && a.trail_dec_err == b.trail_dec_err
        && a.trail_length == b.trail_length
        && a.trail_length_err == b.trail_length_err
        && a.trail_angle == b.trail_angle
        && a.trail_angle_err == b.trail_angle_err
        && a.trail_chi2 == b.trail_chi2
        && a.trail_ndata == b.trail_ndata
        && a.trail_flag_edge == b.trail_flag_edge
        && a.forced_psf_flux_flag == b.forced_psf_flux_flag
        && a.forced_psf_flux_flag_edge == b.forced_psf_flux_flag_edge
        && a.forced_psf_flux_flag_no_good_pixels == b.forced_psf_flux_flag_no_good_pixels
        && a.snap_diff_flux == b.snap_diff_flux
        && a.snap_diff_flux_err == b.snap_diff_flux_err
        && a.fp_bkgd == b.fp_bkgd
        && a.fp_bkgd_err == b.fp_bkgd_err
        && a.shape_flag == b.shape_flag
        && a.shape_flag_no_pixels == b.shape_flag_no_pixels
        && a.shape_flag_not_contained == b.shape_flag_not_contained
        && a.shape_flag_parent_source == b.shape_flag_parent_source
        && a.extendedness == b.extendedness
        && a.reliability == b.reliability
        && (match (&a.band, &b.band) {
            (Some(x), Some(y)) => *x == *y,
            (None, None) => true,
            _ => false,
        })
        && a.pixel_flags == b.pixel_flags
        && a.pixel_flags_bad == b.pixel_flags_bad
        && a.pixel_flags_cr == b.pixel_flags_cr
        && a.pixel_flags_cr_center == b.pixel_flags_cr_center
        && a.pixel_flags_edge == b.pixel_flags_edge
        && a.pixel_flags_interpolated == b.pixel_flags_interpolated
        && a.pixel_flags_interpolated_center == b.pixel_flags_interpolated_center
        && a.pixel_flags_offimage == b.pixel_flags_offimage
        && a.pixel_flags_saturated == b.pixel_flags_saturated
        && a.pixel_flags_saturated_center == b.pixel_flags_saturated_center
        && a.pixel_flags_suspect == b.pixel_flags_suspect
        && a.pixel_flags_suspect_center == b.pixel_flags_suspect_center
        && a.pixel_flags_streak == b.pixel_flags_streak
        && a.pixel_flags_streak_center == b.pixel_flags_streak_center
        && a.pixel_flags_injected == b.pixel_flags_injected
        && a.pixel_flags_injected_center == b.pixel_flags_injected_center
        && a.pixel_flags_injected_template == b.pixel_flags_injected_template
        && a.pixel_flags_injected_template_center == b.pixel_flags_injected_template_center
        && a.magpsf == b.magpsf
        && a.sigmapsf == b.sigmapsf
        && a.science_flux == b.science_flux;
    proof {
        if r {
            assert(a@ =~= b@);
        }
    }
    r
}

pub open spec fn mongify_fs_pairs_c1(a: DiaForcedSourceSpec) -> Pairs {
    seq![("diaForcedSourceId"@, DocValueSpec::I64(a.dia_forced_source_id))]
        + seq![("objectId"@, DocValueSpec::I64(a.object_id))]
        + seq![("ra"@, DocValueSpec::Double(a.ra))]
        + seq![("dec"@, DocValueSpec::Double(a.dec))]
        + seq![("visit"@, DocValueSpec::I64(a.visit))]
}

pub open spec fn mongify_fs_pairs_c2(a: DiaForcedSourceSpec) -> Pairs {
    seq![("detector"@, DocValueSpec::I32(a.detector))]
        + (match a.psf_flux { Some(x) => seq![("psfFlux"@, DocValueSpec::Single(x))], None => seq![] })
        + (match a.psf_flux_err { Some(x) => seq![("psfFluxErr"@, DocValueSpec::Single(x))], None => seq![] })
        + seq![("mjd"@, DocValueSpec::Double(a.mjd))]
        + (match a.band { Some(x) => seq![("band"@, DocValueSpec::Str(x))], None => seq![] })
}

pub open spec fn mongify_fs_pairs_c3(a: DiaForcedSourceSpec) -> Pairs {
    (match a.magpsf { Some(x) => seq![("magpsf"@, DocValueSpec::Single(x))], None => seq![] })
        + (match a.sigmapsf { Some(x) => seq![("sigmapsf"@, DocValueSpec::Single(x))], None => seq![] })
        + (match a.science_flux { Some(x) => seq![("scienceFlux"@, DocValueSpec::Single(x))], None => seq![] })
}

/// The pairs that projecting one record yields, in storage order.
pub open spec fn mongify_dia_forced_source_pairs(a: DiaForcedSourceSpec) -> Pairs {
    mongify_fs_pairs_c1(a)
        + mongify_fs_pairs_c2(a)
        + mongify_fs_pairs_c3(a)
}

#[verifier::rlimit(100)]
fn mongify_fs_c1(d: &mut Document, a: &DiaForcedSource)
    ensures
        doc_view(*final(d)) == doc_view(*old(d)) + mongify_fs_pairs_c1(a@),
{
    let ghost b = doc_view(*d);
    let ghost t1: Pairs = seq![("diaForcedSourceId"@, DocValueSpec::I64(a@.dia_forced_source_id))];
    let ghost t2: Pairs = seq![("objectId"@, DocValueSpec::I64(a@.object_id))];
    let ghost t3: Pairs = seq![("ra"@, DocValueSpec::Double(a@.ra))];
    let ghost t4: Pairs = seq![("dec"@, DocValueSpec::Double(a@.dec))];
    let ghost t5: Pairs = seq![("visit"@, DocValueSpec::I64(a@.visit))];
    let ghost p1: Pairs = t1;
    let ghost p2: Pairs = p1 + t2;
    let ghost p3: Pairs = p2 + t3;
    let ghost p4: Pairs = p3 + t4;
    let ghost p5: Pairs = p4 + t5;
    d.push("diaForcedSourceId", DocValue::I64(a.dia_forced_source_id));
        proof {
            lemma_push_concat(b, ("diaForcedSourceId"@, DocValueSpec::I64(a@.dia_forced_source_id)));
            assert(t1 == seq![("diaForcedSourceId"@, DocValueSpec::I64(a@.dia_forced_source_id))]);
            assert(doc_view(*d) == b + p1);
        }
    d.push("objectId", DocValue::I64(a.object_id));
        proof {
            lemma_push_concat(b + p1, ("objectId"@, DocValueSpec::I64(a@.object_id)));
            lemma_concat_assoc(b, p1, seq![("objectId"@, DocValueSpec::I64(a@.object_id))]);
            assert(t2 == seq![("objectId"@, DocValueSpec::I64(a@.object_id))]);
            assert(doc_view(*d) == b + p2);
        }
    d.push("ra", DocValue::Double(a.ra));
        proof {
            lemma_push_concat(b + p2, ("ra"@, DocValueSpec::Double(a@.ra)));
            lemma_concat_assoc(b, p2, seq![("ra"@, DocValueSpec::Double(a@.ra))]);
            assert(t3 == seq![("ra"@, DocValueSpec::Double(a@.ra))]);
            assert(doc_view(*d) == b + p3);
        }
    d.push("dec", DocValue::Double(a.dec));
        proof {
            lemma_push_concat(b + p3, ("dec"@, DocValueSpec::Double(a@.dec)));
            lemma_concat_assoc(b, p3, seq![("dec"@, DocValueSpec::Double(a@.dec))]);
            assert(t4 == seq![("dec"@, DocValueSpec::Double(a@.dec))]);
            assert(doc_view(*d) == b + p4);
        }
    d.push("visit", DocValue::I64(a.visit));
        proof {
            lemma_push_concat(b + p4, ("visit"@, DocValueSpec::I64(a@.visit)));
            lemma_concat_assoc(b, p4, seq![("visit"@, DocValueSpec::I64(a@.visit))]);
            assert(t5 == seq![("visit"@, DocValueSpec::I64(a@.visit))]);
            assert(doc_view(*d) == b + p5);
        }
    proof {
        assert(p5 == mongify_fs_pairs_c1(a@));
    }
}

#[verifier::rlimit(100)]
fn mongify_fs_c2(d: &mut Document, a: &DiaForcedSource)
    ensures
        doc_view(*final(d)) == doc_view(*old(d)) + mongify_fs_pairs_c2(a@),
{
    let ghost b = doc_view(*d);
    let ghost t1: Pairs = seq![("detector"@, DocValueSpec::I32(a@.detector))];
    let ghost t2: Pairs = (match a@.psf_flux { Some(x) => seq![("psfFlux"@, DocValueSpec::Single(x))], None => seq![] });
    let ghost t3: Pairs = (match a@.psf_flux_err { Some(x) => seq![("psfFluxErr"@, DocValueSpec::Single(x))], None => seq![] });
    let ghost t4: Pairs = seq![("mjd"@, DocValueSpec::Double(a@.mjd))];
    let ghost t5: Pairs = (match a@.band { Some(x) => seq![("band"@, DocValueSpec::Str(x))], None => seq![] });
    let ghost p1: Pairs = t1;
    let ghost p2: Pairs = p1 + t2;
    let ghost p3: Pairs = p2 + t3;
    let ghost p4: Pairs = p3 + t4;
    let ghost p5: Pairs = p4 + t5;
    d.push("detector", DocValue::I32(a.detector));
        proof {
            lemma_push_concat(b, ("detector"@, DocValueSpec::I32(a@.detector)));
            assert(t1 == seq![("detector"@, DocValueSpec::I32(a@.detector))]);
            assert(doc_view(*d) == b + p1);
        }
    match a.psf_flux {
        Some(x) => {
            d.push("psfFlux", DocValue::Single(x));
            proof {
                lemma_push_concat(b + p1, ("psfFlux"@, DocValueSpec::Single(x)));
                lemma_concat_assoc(b, p1, seq![("psfFlux"@, DocValueSpec::Single(x))]);
                assert(t2 == seq![("psfFlux"@, DocValueSpec::Single(x))]);
                assert(doc_view(*d) == b + p2);
            }
        },
        None => {
            proof {
                assert(t2 =~= Seq::<(Seq<char>, DocValueSpec)>::empty());
                assert(p1 + t2 =~= p1);
                assert(doc_view(*d) == b + p2);
            }
        },
    }
    match a.psf_flux_err {
        Some(x) => {
            d.push("psfFluxErr", DocValue::Single(x));
            proof {
                lemma_push_concat(b + p2, ("psfFluxErr"@, DocValueSpec::Single(x)));
                lemma_concat_assoc(b, p2, seq![("psfFluxErr"@, DocValueSpec::Single(x))]);
                assert(t3 == seq![("psfFluxErr"@, DocValueSpec::Single(x))]);
                assert(doc_view(*d) == b + p3);
            }
        },
        None => {
            proof {
                assert(t3 =~= Seq::<(Seq<char>, DocValueSpec)>::empty());
                assert(p2 + t3 =~= p2);
                assert(doc_view(*d) == b + p3);
            }
        },
    }
    d.push("mjd", DocValue::Double(a.mjd));
        proof {
            lemma_push_concat(b + p3, ("mjd"@, DocValueSpec::Double(a@.mjd)));
            lemma_concat_assoc(b, p3, seq![("mjd"@, DocValueSpec::Double(a@.mjd))]);
            assert(t4 == seq![("mjd"@, DocValueSpec::Double(a@.mjd))]);
            assert(doc_view(*d) == b + p4);
        }
    match &a.band {
        Some(x) => {
            d.push("band", DocValue::Str(x.clone()));
            proof {
                lemma_push_concat(b + p4, ("band"@, DocValueSpec::Str(x@)));
                lemma_concat_assoc(b, p4, seq![("band"@, DocValueSpec::Str(x@))]);
                assert(t5 == seq![("band"@, DocValueSpec::Str(x@))]);
                assert(doc_view(*d) == b + p5);
            }
        },
        None => {
            proof {
                assert(t5 =~= Seq::<(Seq<char>, DocValueSpec)>::empty());
                assert(p4 + t5 =~= p4);
                assert(doc_view(*d) == b + p5);
            }
        },
    }
    proof {
        assert(p5 == mongify_fs_pairs_c2(a@));
    }
}

#[verifier::rlimit(100)]
fn mongify_fs_c3(d: &mut Document, a: &DiaForcedSource)
    ensures
        doc_view(*final(d)) == doc_view(*old(d)) + mongify_fs_pairs_c3(a@),
{
    let ghost b = doc_view(*d);
    let ghost t1: Pairs = (match a@.magpsf { Some(x) => seq![("magpsf"@, DocValueSpec::Single(x))], None => seq![] });
    let ghost t2: Pairs = (match a@.sigmapsf { Some(x) => seq![("sigmapsf"@, DocValueSpec::Single(x))], None => seq![] });
    let ghost t3: Pairs = (match a@.science_flux { Some(x) => seq![("scienceFlux"@, DocValueSpec::Single(x))], None => seq![] });
    let ghost p1: Pairs = t1;
    let ghost p2: Pairs = p1 + t2;
    let ghost p3: Pairs = p2 + t3;
    match a.magpsf {
        Some(x) => {
            d.push("magpsf", DocValue::Single(x));
            proof {
                lemma_push_concat(b, ("magpsf"@, DocValueSpec::Single(x)));
                assert(t1 == seq![("magpsf"@, DocValueSpec::Single(x))]);
                assert(doc_view(*d) == b + p1);
            }
        },
        None => {
            proof {
                assert(t1 =~= Seq::<(Seq<char>, DocValueSpec)>::empty());
                assert(b + t1 =~= b);
                assert(doc_view(*d) == b + p1);
            }
        },
    }
    match a.sigmapsf {
        Some(x) => {
            d.push("sigmapsf", DocValue::Single(x));
            proof {
                lemma_push_concat(b + p1, ("sigmapsf"@, DocValueSpec::Single(x)));
                lemma_concat_assoc(b, p1, seq![("sigmapsf"@, DocValueSpec::Single(x))]);
                assert(t2 == seq![("sigmapsf"@, DocValueSpec::Single(x))]);
                assert(doc_view(*d) == b + p2);
            }
        },
        None => {
            proof {
                assert(t2 =~= Seq::<(Seq<char>, DocValueSpec)>::empty());
                assert(p1 + t2 =~= p1);
                assert(doc_view(*d) == b + p2);
            }
        },
    }
    match a.science_flux {
        Some(x) => {
            d.push("scienceFlux", DocValue::Single(x));
            proof {
                lemma_push_concat(b + p2, ("scienceFlux"@, DocValueSpec::Single(x)));
                lemma_concat_assoc(b, p2, seq![("scienceFlux"@, DocValueSpec::Single(x))]);
                assert(t3 == seq![("scienceFlux"@, DocValueSpec::Single(x))]);
                assert(doc_view(*d) == b + p3);
            }
        },
        None => {
            proof {
                assert(t3 =~= Seq::<(Seq<char>, DocValueSpec)>::empty());
                assert(p2 + t3 =~= p2);
                assert(doc_view(*d) == b + p3);
            }
        },
    }
    proof {
        assert(p3 == mongify_fs_pairs_c3(a@));
    }
}

/// Projects one record onto a storage document.
pub fn mongify_dia_forced_source(a: &DiaForcedSource) -> (r: Document)
    ensures
        doc_view(r) == mongify_dia_forced_source_pairs(a@),
{
    let ghost q1: Pairs = mongify_fs_pairs_c1(a@);
    let ghost q2: Pairs = mongify_fs_pairs_c2(a@);
    let ghost q3: Pairs = mongify_fs_pairs_c3(a@);
    let ghost s1: Pairs = q1;
    let ghost s2: Pairs = s1 + q2;
    let ghost s3: Pairs = s2 + q3;
    let mut d = Document::new();
    mongify_fs_c1(&mut d, a);
    proof {
        assert(Seq::<(Seq<char>, DocValueSpec)>::empty() + q1 =~= q1);
        assert(doc_view(d) == s1);
    }
    mongify_fs_c2(&mut d, a);
    proof {
        assert(doc_view(d) == s2);
    }
    mongify_fs_c3(&mut d, a);
    proof {
        assert(doc_view(d) == s3);
    }
    proof {
        assert(s3 == mongify_dia_forced_source_pairs(a@));
    }
    d
}

/// Deep equality of two records, exactly equality of their views; the
/// set-union merge of history arrays dedups by it.
pub fn dia_forced_source_eq(a: &DiaForcedSource, b: &DiaForcedSource) -> (r: bool)
    ensures
        r == (a@ == b@),
{
    let r =
        a.dia_forced_source_id == b.dia_forced_source_id
        && a.object_id == b.object_id
        && a.ra == b.ra
        && a.dec == b.dec
        && a.visit == b.visit
        && a.detector == b.detector
        && a.psf_flux == b.psf_flux
        && a.psf_flux_err == b.psf_flux_err
        && a.mjd == b.mjd
        && (match (&a.band, &b.band) {
            (Some(x), Some(y)) => *x == *y,
            (None, None) => true,
            _ => false,
        })
        && a.magpsf == b.magpsf
        && a.sigmapsf == b.sigmapsf
        && a.science_flux == b.science_flux;
    proof {
        if r {
            assert(a@ =~= b@);
        }
    }
    r
}

// ---------------------------------------------------------------------------
// the documents the persistence protocol writes
// ---------------------------------------------------------------------------

/// The coordinates substructure attached at enrichment time. The first entry
/// of the point is the right ascension shifted into longitude range: the
/// caller passes `ra - 180.0`, computed on the raw values, as `ra_minus_180`.
pub open spec fn coordinates_pairs(ra_minus_180: u64, dec: u64) -> Seq<
    (Seq<char>, DocValueSpec),
> {
    seq![
        ("radec_geojson"@, DocValueSpec::Obj(seq![
            ("type"@, DocValueSpec::Str("Point"@)),
            ("coordinates"@, DocValueSpec::List(seq![
                DocValueSpec::Double(ra_minus_180),
                DocValueSpec::Double(dec),
            ])),
        ])),
    ]
}

/// Builds the coordinates substructure; the stored longitude is exactly the
/// shifted right ascension handed in.
pub fn get_coordinates(ra_minus_180: u64, dec: u64) -> (r: Document)
    ensures
        doc_view(r) == coordinates_pairs(ra_minus_180, dec),
{
    let mut point: Vec<DocValue> = Vec::new();
    point.push(DocValue::Double(ra_minus_180));
    point.push(DocValue::Double(dec));
    let ghost pv0 = point@;
    let coords = DocValue::List(point);
    let ghost c0 = coords;
    let mut geo = Document::new();
    geo.push("type", DocValue::Str(String::from_str("Point")));
    geo.push("coordinates", coords);
    let ghost g0 = geo;
    let obj = DocValue::Obj(geo);
    let ghost o0 = obj;
    let mut d = Document::new();
    d.push("radec_geojson", obj);
    proof {
        reveal_with_fuel(dv_view, 3);
        lemma_dv_view_list(c0);
        assert(pv0.map_values(|x: DocValue| dv_view(x)) =~~= seq![
            DocValueSpec::Double(ra_minus_180),
            DocValueSpec::Double(dec),
        ]);
        assert(dv_view(c0) == DocValueSpec::List(
            seq![DocValueSpec::Double(ra_minus_180), DocValueSpec::Double(dec)],
        ));
        assert(doc_view(g0) =~~= seq![
            ("type"@, DocValueSpec::Str("Point"@)),
            (
                "coordinates"@,
                DocValueSpec::List(
                    seq![DocValueSpec::Double(ra_minus_180), DocValueSpec::Double(dec)],
                ),
            ),
        ]);
        lemma_dv_view_obj(o0);
        assert(doc_view(d) =~~= coordinates_pairs(ra_minus_180, dec));
    }
    d
}

/// Shape of the primary document: key, object, enriched candidate,
/// coordinates, and both timestamps set to the same capture instant.
pub open spec fn alert_doc_pairs(
    candid: i64,
    object_id: i64,
    candidate: Seq<(Seq<char>, DocValueSpec)>,
    coordinates: Seq<(Seq<char>, DocValueSpec)>,
    now: u64,
) -> Seq<(Seq<char>, DocValueSpec)> {
    seq![
        ("_id"@, DocValueSpec::I64(candid)),
        ("objectId"@, DocValueSpec::I64(object_id)),
        ("candidate"@, DocValueSpec::Obj(candidate)),
        ("coordinates"@, DocValueSpec::Obj(coordinates)),
        ("created_at"@, DocValueSpec::Double(now)),
        ("updated_at"@, DocValueSpec::Double(now)),
    ]
}

/// Builds the primary document of phase one.
pub fn build_alert_doc(
    candid: i64,
    object_id: i64,
    candidate: Document,
    coordinates: Document,
    now: u64,
) -> (r: Document)
    ensures
        doc_view(r) == alert_doc_pairs(
            candid,
            object_id,
            doc_view(candidate),
            doc_view(coordinates),
            now,
        ),
{
    let ghost cv = doc_view(candidate);
    let ghost xv = doc_view(coordinates);
    let cand_val = DocValue::Obj(candidate);
    let ghost cand0 = cand_val;
    let coord_val = DocValue::Obj(coordinates);
    let ghost coord0 = coord_val;
    let mut d = Document::new();
    d.push("_id", DocValue::I64(candid));
    d.push("objectId", DocValue::I64(object_id));
    d.push("candidate", cand_val);
    d.push("coordinates", coord_val);
    d.push("created_at", DocValue::Double(now));
    d.push("updated_at", DocValue::Double(now));
    proof {
        lemma_dv_view_obj(cand0);
        lemma_dv_view_obj(coord0);
        assert(doc_view(d) =~~= alert_doc_pairs(candid, object_id, cv, xv, now));
    }
    d
}

/// Shape of the cutout document of phase two.
pub open spec fn cutout_doc_pairs(
    candid: i64,
    science: Seq<u8>,
    template: Seq<u8>,
    difference: Seq<u8>,
) -> Seq<(Seq<char>, DocValueSpec)> {
    seq![
        ("_id"@, DocValueSpec::I64(candid)),
        ("cutoutScience"@, DocValueSpec::Bin(science)),
        ("cutoutTemplate"@, DocValueSpec::Bin(template)),
        ("cutoutDifference"@, DocValueSpec::Bin(difference)),
    ]
}

/// Builds the cutout document of phase two. The buffers move in unchanged.
pub fn build_cutout_doc(
    candid: i64,
    science: Vec<u8>,
    template: Vec<u8>,
    difference: Vec<u8>,
) -> (r: Document)
    ensures
        doc_view(r) == cutout_doc_pairs(candid, science@, template@, difference@),
{
    let ghost sv = science@;
    let ghost tv = template@;
    let ghost dv = difference@;
    let mut d = Document::new();
    d.push("_id", DocValue::I64(candid));
    d.push("cutoutScience", DocValue::Bin(science));
    d.push("cutoutTemplate", DocValue::Bin(template));
    d.push("cutoutDifference", DocValue::Bin(difference));
    proof {
        reveal_with_fuel(dv_view, 6);
        assert(doc_view(d) =~~= cutout_doc_pairs(candid, sv, tv, dv));
    }
    d
}

/// Views of a run of documents, each wrapped as a nested document value.
pub open spec fn seq_obj_view(v: Seq<Document>) -> Seq<DocValueSpec> {
    Seq::new(v.len(), |k: int| DocValueSpec::Obj(doc_view(v[k])))
}

/// Wraps documents as array elements.
pub fn docs_to_values(v: Vec<Document>) -> (r: Vec<DocValue>)
    ensures
        r@.len() == v@.len(),
        forall|k: int| 0 <= k < r@.len() ==> crate::document::dv_view(#[trigger] r@[k])
            == DocValueSpec::Obj(doc_view(v@[k])),
{
    let mut r: Vec<DocValue> = Vec::new();
    let mut src = v;
    let n = src.len();
    let mut k: usize = 0;
    let ghost orig = src@;
    while k < n
        invariant
            k <= n == orig.len(),
            src@ == orig.skip(k as int),
            r@.len() == k,
            forall|m: int| 0 <= m < k ==> crate::document::dv_view(#[trigger] r@[m])
                == DocValueSpec::Obj(doc_view(orig[m])),
        decreases n - k,
    {
        let d = src.remove(0);
        proof {
            assert(orig.skip(k as int)[0] == orig[k as int]);
            assert(orig.skip(k as int).skip(1) =~= orig.skip(k + 1 as int));
        }
        r.push(DocValue::Obj(d));
        proof {
            lemma_dv_view_obj(r@[k as int]);
        }
        k = k + 1;
    }
    r
}

/// Shape of the auxiliary document written when the object is first seen:
/// the enriched current candidate follows the previous detections, the
/// cross-match result is stored verbatim, and the coordinates carry the
/// shifted right ascension.
pub open spec fn aux_doc_pairs(
    object_id: i64,
    prv_candidates: Seq<DocValueSpec>,
    fp_hists: Seq<DocValueSpec>,
    cross_matches: Seq<(Seq<char>, DocValueSpec)>,
    now: u64,
    ra_minus_180: u64,
    dec: u64,
) -> Seq<(Seq<char>, DocValueSpec)> {
    seq![
        ("_id"@, DocValueSpec::I64(object_id)),
        ("prv_candidates"@, DocValueSpec::List(prv_candidates)),
        ("fp_hists"@, DocValueSpec::List(fp_hists)),
        ("cross_matches"@, DocValueSpec::Obj(cross_matches)),
        ("created_at"@, DocValueSpec::Double(now)),
        ("updated_at"@, DocValueSpec::Double(now)),
        ("coordinates"@, DocValueSpec::Obj(coordinates_pairs(ra_minus_180, dec))),
    ]
}

/// Builds the auxiliary document of phase three, creation branch.
pub fn build_aux_doc(
    object_id: i64,
    prv_candidates: Vec<DocValue>,
    fp_hists: Vec<DocValue>,
    cross_matches: Document,
    now: u64,
    ra_minus_180: u64,
    dec: u64,
) -> (r: Document)
    ensures
        doc_view(r) == aux_doc_pairs(
            object_id,
            prv_candidates@.map_values(|x: DocValue| dv_view(x)),
            fp_hists@.map_values(|x: DocValue| dv_view(x)),
            doc_view(cross_matches),
            now,
            ra_minus_180,
            dec,
        ),
{
    let ghost pv = prv_candidates@.map_values(|x: DocValue| dv_view(x));
    let ghost fv = fp_hists@.map_values(|x: DocValue| dv_view(x));
    let ghost xv = doc_view(cross_matches);
    let prv_val = DocValue::List(prv_candidates);
    let ghost prv0 = prv_val;
    let fp_val = DocValue::List(fp_hists);
    let ghost fp0 = fp_val;
    let xm_val = DocValue::Obj(cross_matches);
    let ghost xm0 = xm_val;
    let coord_doc = get_coordinates(ra_minus_180, dec);
    let coord_val = DocValue::Obj(coord_doc);
    let ghost coord0 = coord_val;
    let mut d = Document::new();
    d.push("_id", DocValue::I64(object_id));
    d.push("prv_candidates", prv_val);
    d.push("fp_hists", fp_val);
    d.push("cross_matches", xm_val);
    d.push("created_at", DocValue::Double(now));
    d.push("updated_at", DocValue::Double(now));
    d.push("coordinates", coord_val);
    proof {
        lemma_dv_view_list(prv0);
        lemma_dv_view_list(fp0);
        lemma_dv_view_obj(xm0);
        lemma_dv_view_obj(coord0);
        assert(doc_view(d) =~~= aux_doc_pairs(object_id, pv, fv, xv, now, ra_minus_180, dec));
    }
    d
}

/// Shape of the auxiliary update of phase three, merge branch: element-wise
/// set union into both history arrays and a touch of the update timestamp.
pub open spec fn aux_update_pairs(
    prv_candidates: Seq<DocValueSpec>,
    fp_hists: Seq<DocValueSpec>,
    now: u64,
) -> Seq<(Seq<char>, DocValueSpec)> {
    seq![
        ("$addToSet"@, DocValueSpec::Obj(seq![
            ("prv_candidates"@, DocValueSpec::Obj(seq![
                ("$each"@, DocValueSpec::List(prv_candidates)),
            ])),
            ("fp_hists"@, DocValueSpec::Obj(seq![
                ("$each"@, DocValueSpec::List(fp_hists)),
            ])),
        ])),
        ("$set"@, DocValueSpec::Obj(seq![("updated_at"@, DocValueSpec::Double(now))])),
    ]
}

/// Builds the auxiliary update document of phase three, merge branch.
pub fn build_aux_update_doc(
    prv_candidates: Vec<DocValue>,
    fp_hists: Vec<DocValue>,
    now: u64,
) -> (r: Document)
    ensures
        doc_view(r) == aux_update_pairs(
            prv_candidates@.map_values(|x: DocValue| dv_view(x)),
            fp_hists@.map_values(|x: DocValue| dv_view(x)),
            now,
        ),
{
    let ghost pv = prv_candidates@.map_values(|x: DocValue| dv_view(x));
    let ghost fv = fp_hists@.map_values(|x: DocValue| dv_view(x));
    let prv_val = DocValue::List(prv_candidates);
    let ghost prv0 = prv_val;
    let fp_val = DocValue::List(fp_hists);
    let ghost fp0 = fp_val;
    let mut each_prv = Document::new();
    each_prv.push("$each", prv_val);
    let ghost each_prv0 = each_prv;
    let mut each_fp = Document::new();
    each_fp.push("$each", fp_val);
    let ghost each_fp0 = each_fp;
    let each_prv_val = DocValue::Obj(each_prv);
    let ghost each_prv_val0 = each_prv_val;
    let each_fp_val = DocValue::Obj(each_fp);
    let ghost each_fp_val0 = each_fp_val;
    let mut add = Document::new();
    add.push("prv_candidates", each_prv_val);
    add.push("fp_hists", each_fp_val);
    let ghost add0 = add;
    let add_val = DocValue::Obj(add);
    let ghost add_val0 = add_val;
    let mut set = Document::new();
    set.push("updated_at", DocValue::Double(now));
    let ghost set0 = set;
    let set_val = DocValue::Obj(set);
    let ghost set_val0 = set_val;
    let mut d = Document::new();
    d.push("$addToSet", add_val);
    d.push("$set", set_val);
    proof {
        lemma_dv_view_list(prv0);
        lemma_dv_view_list(fp0);
        lemma_dv_view_obj(each_prv_val0);
        lemma_dv_view_obj(each_fp_val0);
        lemma_dv_view_obj(add_val0);
        lemma_dv_view_obj(set_val0);
        assert(doc_view(each_prv0) =~~= seq![("$each"@, DocValueSpec::List(pv))]);
        assert(doc_view(each_fp0) =~~= seq![("$each"@, DocValueSpec::List(fv))]);
        assert(doc_view(add0) =~~= seq![
            ("prv_candidates"@, DocValueSpec::Obj(seq![("$each"@, DocValueSpec::List(pv))])),
            ("fp_hists"@, DocValueSpec::Obj(seq![("$each"@, DocValueSpec::List(fv))])),
        ]);
        assert(doc_view(set0) =~~= seq![("updated_at"@, DocValueSpec::Double(now))]);
        assert(doc_view(d) =~~= aux_update_pairs(pv, fv, now));
    }
    d
}

} // verus!

