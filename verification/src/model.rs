//! The canonical data model: typed records for detections, forced-photometry
//! samples, non-detection limits and object summaries, and the alert envelope.
//!
//! Every floating-point quantity of the wire format is held as its raw bit
//! pattern (`u64` or `u32`): the library never does arithmetic on such values,
//! it preserves them exactly. Each record has a specification-level mirror
//! (its view) over mathematical sequences, which contracts are stated over.

use vstd::prelude::*;

verus! {

use vstd::utf8::encode_utf8;
use crate::avro::{view_opt_string, view_opt_bytes};

/// A single difference-image detection. Floating-point attributes are carried
/// as raw IEEE-754 bit patterns (`u64` for wide, `u32` for narrow values); the
/// library moves them through decode, enrichment and projection unchanged.
#[derive(Debug, PartialEq)]
pub struct DiaSource {
    pub candid: i64,
    pub visit: i64,
    pub detector: i32,
    pub object_id: Option<i64>,
    pub ss_object_id: Option<i64>,
    pub parent_dia_source_id: Option<i64>,
    pub mjd: u64,
    pub ra: u64,
    pub ra_err: Option<u32>,
    pub dec: u64,
    pub dec_err: Option<u32>,
    pub centroid_flag: Option<bool>,
    pub is_negative: Option<bool>,
    pub ap_flux: Option<u32>,
    pub ap_flux_err: Option<u32>,
    pub ap_flux_flag: Option<bool>,
    pub ap_flux_flag_aperture_truncated: Option<bool>,
    pub snr: Option<u32>,
    pub psf_flux: Option<u32>,
    pub psf_flux_err: Option<u32>,
    pub psf_ra: Option<u64>,
    pub psf_ra_err: Option<u32>,
    pub psf_dec: Option<u64>,
    pub psf_dec_err: Option<u32>,
    pub psf_chi2: Option<u32>,
    pub psf_ndata: Option<i32>,
    pub psf_flux_flag: Option<bool>,
    pub psf_flux_flag_edge: Option<bool>,
    pub psf_flux_flag_no_good_pixels: Option<bool>,
    pub trail_flux: Option<u32>,
    pub trail_flux_err: Option<u32>,
    pub trail_ra: Option<u64>,
    pub trail_ra_err: Option<u32>,
    pub trail_dec: Option<u64>,
    pub trail_dec_err: Option<u32>,
    pub trail_length: Option<u32>,
    pub trail_length_err: Option<u32>,
    pub trail_angle: Option<u32>,
    pub trail_angle_err: Option<u32>,
    pub trail_chi2: Option<u32>,
    pub trail_ndata: Option<i32>,
    pub trail_flag_edge: Option<bool>,
    pub forced_psf_flux_flag: Option<bool>,
    pub forced_psf_flux_flag_edge: Option<bool>,
    pub forced_psf_flux_flag_no_good_pixels: Option<bool>,
    pub snap_diff_flux: Option<u32>,
    pub snap_diff_flux_err: Option<u32>,
    pub fp_bkgd: Option<u32>,
    pub fp_bkgd_err: Option<u32>,
    pub shape_flag: Option<bool>,
    pub shape_flag_no_pixels: Option<bool>,
    pub shape_flag_not_contained: Option<bool>,
    pub shape_flag_parent_source: Option<bool>,
    pub extendedness: Option<u32>,
    pub reliability: Option<u32>,
    pub band: Option<String>,
    pub pixel_flags: Option<bool>,
    pub pixel_flags_bad: Option<bool>,
    pub pixel_flags_cr: Option<bool>,
    pub pixel_flags_cr_center: Option<bool>,
    pub pixel_flags_edge: Option<bool>,
    pub pixel_flags_interpolated: Option<bool>,
    pub pixel_flags_interpolated_center: Option<bool>,
    pub pixel_flags_offimage: Option<bool>,
    pub pixel_flags_saturated: Option<bool>,
    pub pixel_flags_saturated_center: Option<bool>,
    pub pixel_flags_suspect: Option<bool>,
    pub pixel_flags_suspect_center: Option<bool>,
    pub pixel_flags_streak: Option<bool>,
    pub pixel_flags_streak_center: Option<bool>,
    pub pixel_flags_injected: Option<bool>,
    pub pixel_flags_injected_center: Option<bool>,
    pub pixel_flags_injected_template: Option<bool>,
    pub pixel_flags_injected_template_center: Option<bool>,
    pub magpsf: Option<u32>,
    pub sigmapsf: Option<u32>,
    pub science_flux: Option<u32>,
}

impl Clone for DiaSource {
    /// A clone is the same record, field for field.
    fn clone(&self) -> (res: Self)
        ensures
            res == *self,
    {
        DiaSource {
            candid: self.candid,
            visit: self.visit,
            detector: self.detector,
            object_id: self.object_id,
            ss_object_id: self.ss_object_id,
            parent_dia_source_id: self.parent_dia_source_id,
            mjd: self.mjd,
            ra: self.ra,
            ra_err: self.ra_err,
            dec: self.dec,
            dec_err: self.dec_err,
            centroid_flag: self.centroid_flag,
            is_negative: self.is_negative,
            ap_flux: self.ap_flux,
            ap_flux_err: self.ap_flux_err,
            ap_flux_flag: self.ap_flux_flag,
            ap_flux_flag_aperture_truncated: self.ap_flux_flag_aperture_truncated,
            snr: self.snr,
            psf_flux: self.psf_flux,
            psf_flux_err: self.psf_flux_err,
            psf_ra: self.psf_ra,
            psf_ra_err: self.psf_ra_err,
            psf_dec: self.psf_dec,
            psf_dec_err: self.psf_dec_err,
            psf_chi2: self.psf_chi2,
            psf_ndata: self.psf_ndata,
            psf_flux_flag: self.psf_flux_flag,
            psf_flux_flag_edge: self.psf_flux_flag_edge,
            psf_flux_flag_no_good_pixels: self.psf_flux_flag_no_good_pixels,
            trail_flux: self.trail_flux,
            trail_flux_err: self.trail_flux_err,
            trail_ra: self.trail_ra,
            trail_ra_err: self.trail_ra_err,
            trail_dec: self.trail_dec,
            trail_dec_err: self.trail_dec_err,
            trail_length: self.trail_length,
            trail_length_err: self.trail_length_err,
            trail_angle: self.trail_angle,
            trail_angle_err: self.trail_angle_err,
            trail_chi2: self.trail_chi2,
            trail_ndata: self.trail_ndata,
            trail_flag_edge: self.trail_flag_edge,
            forced_psf_flux_flag: self.forced_psf_flux_flag,
            forced_psf_flux_flag_edge: self.forced_psf_flux_flag_edge,
            forced_psf_flux_flag_no_good_pixels: self.forced_psf_flux_flag_no_good_pixels,
            snap_diff_flux: self.snap_diff_flux,
            snap_diff_flux_err: self.snap_diff_flux_err,
            fp_bkgd: self.fp_bkgd,
            fp_bkgd_err: self.fp_bkgd_err,
            shape_flag: self.shape_flag,
            shape_flag_no_pixels: self.shape_flag_no_pixels,
            shape_flag_not_contained: self.shape_flag_not_contained,
            shape_flag_parent_source: self.shape_flag_parent_source,
            extendedness: self.extendedness,
            reliability: self.reliability,
            band: match &self.band {
                Some(s) => Some(s.clone()),
                None => None,
            },
            pixel_flags: self.pixel_flags,
            pixel_flags_bad: self.pixel_flags_bad,
            pixel_flags_cr: self.pixel_flags_cr,
            pixel_flags_cr_center: self.pixel_flags_cr_center,
            pixel_flags_edge: self.pixel_flags_edge,
            pixel_flags_interpolated: self.pixel_flags_interpolated,
            pixel_flags_interpolated_center: self.pixel_flags_interpolated_center,
            pixel_flags_offimage: self.pixel_flags_offimage,
            pixel_flags_saturated: self.pixel_flags_saturated,
            pixel_flags_saturated_center: self.pixel_flags_saturated_center,
            pixel_flags_suspect: self.pixel_flags_suspect,
            pixel_flags_suspect_center: self.pixel_flags_suspect_center,
            pixel_flags_streak: self.pixel_flags_streak,
            pixel_flags_streak_center: self.pixel_flags_streak_center,
            pixel_flags_injected: self.pixel_flags_injected,
            pixel_flags_injected_center: self.pixel_flags_injected_center,
            pixel_flags_injected_template: self.pixel_flags_injected_template,
            pixel_flags_injected_template_center: self.pixel_flags_injected_template_center,
            magpsf: self.magpsf,
            sigmapsf: self.sigmapsf,
            science_flux: self.science_flux,
        }
    }
}

/// Mathematical view of [`DiaSource`].
#[verifier::ext_equal]
pub ghost struct DiaSourceSpec {
    pub candid: i64,
    pub visit: i64,
    pub detector: i32,
    pub object_id: Option<i64>,
    pub ss_object_id: Option<i64>,
    pub parent_dia_source_id: Option<i64>,
    pub mjd: u64,
    pub ra: u64,
    pub ra_err: Option<u32>,
    pub dec: u64,
    pub dec_err: Option<u32>,
    pub centroid_flag: Option<bool>,
    pub is_negative: Option<bool>,
    pub ap_flux: Option<u32>,
    pub ap_flux_err: Option<u32>,
    pub ap_flux_flag: Option<bool>,
    pub ap_flux_flag_aperture_truncated: Option<bool>,
    pub snr: Option<u32>,
    pub psf_flux: Option<u32>,
    pub psf_flux_err: Option<u32>,
    pub psf_ra: Option<u64>,
    pub psf_ra_err: Option<u32>,
    pub psf_dec: Option<u64>,
    pub psf_dec_err: Option<u32>,
    pub psf_chi2: Option<u32>,
    pub psf_ndata: Option<i32>,
    pub psf_flux_flag: Option<bool>,
    pub psf_flux_flag_edge: Option<bool>,
    pub psf_flux_flag_no_good_pixels: Option<bool>,
    pub trail_flux: Option<u32>,
    pub trail_flux_err: Option<u32>,
    pub trail_ra: Option<u64>,
    pub trail_ra_err: Option<u32>,
    pub trail_dec: Option<u64>,
    pub trail_dec_err: Option<u32>,
    pub trail_length: Option<u32>,
    pub trail_length_err: Option<u32>,
    pub trail_angle: Option<u32>,
    pub trail_angle_err: Option<u32>,
    pub trail_chi2: Option<u32>,
    pub trail_ndata: Option<i32>,
    pub trail_flag_edge: Option<bool>,
    pub forced_psf_flux_flag: Option<bool>,
    pub forced_psf_flux_flag_edge: Option<bool>,
    pub forced_psf_flux_flag_no_good_pixels: Option<bool>,
    pub snap_diff_flux: Option<u32>,
    pub snap_diff_flux_err: Option<u32>,
    pub fp_bkgd: Option<u32>,
    pub fp_bkgd_err: Option<u32>,
    pub shape_flag: Option<bool>,
    pub shape_flag_no_pixels: Option<bool>,
    pub shape_flag_not_contained: Option<bool>,
    pub shape_flag_parent_source: Option<bool>,
    pub extendedness: Option<u32>,
    pub reliability: Option<u32>,
    pub band: Option<Seq<char>>,
    pub pixel_flags: Option<bool>,
    pub pixel_flags_bad: Option<bool>,
    pub pixel_flags_cr: Option<bool>,
    pub pixel_flags_cr_center: Option<bool>,
    pub pixel_flags_edge: Option<bool>,
    pub pixel_flags_interpolated: Option<bool>,
    pub pixel_flags_interpolated_center: Option<bool>,
    pub pixel_flags_offimage: Option<bool>,
    pub pixel_flags_saturated: Option<bool>,
    pub pixel_flags_saturated_center: Option<bool>,
    pub pixel_flags_suspect: Option<bool>,
    pub pixel_flags_suspect_center: Option<bool>,
    pub pixel_flags_streak: Option<bool>,
    pub pixel_flags_streak_center: Option<bool>,
    pub pixel_flags_injected: Option<bool>,
    pub pixel_flags_injected_center: Option<bool>,
    pub pixel_flags_injected_template: Option<bool>,
    pub pixel_flags_injected_template_center: Option<bool>,
    pub magpsf: Option<u32>,
    pub sigmapsf: Option<u32>,
    pub science_flux: Option<u32>,
}

impl View for DiaSource {
    type V = DiaSourceSpec;

    open spec fn view(&self) -> DiaSourceSpec {
        DiaSourceSpec {
            candid: self.candid,
            visit: self.visit,
            detector: self.detector,
            object_id: self.object_id,
            ss_object_id: self.ss_object_id,
            parent_dia_source_id: self.parent_dia_source_id,
            mjd: self.mjd,
            ra: self.ra,
            ra_err: self.ra_err,
            dec: self.dec,
            dec_err: self.dec_err,
            centroid_flag: self.centroid_flag,
            is_negative: self.is_negative,
            ap_flux: self.ap_flux,
            ap_flux_err: self.ap_flux_err,
            ap_flux_flag: self.ap_flux_flag,
            ap_flux_flag_aperture_truncated: self.ap_flux_flag_aperture_truncated,
            snr: self.snr,
            psf_flux: self.psf_flux,
            psf_flux_err: self.psf_flux_err,
            psf_ra: self.psf_ra,
            psf_ra_err: self.psf_ra_err,
            psf_dec: self.psf_dec,
            psf_dec_err: self.psf_dec_err,
            psf_chi2: self.psf_chi2,
            psf_ndata: self.psf_ndata,
            psf_flux_flag: self.psf_flux_flag,
            psf_flux_flag_edge: self.psf_flux_flag_edge,
            psf_flux_flag_no_good_pixels: self.psf_flux_flag_no_good_pixels,
            trail_flux: self.trail_flux,
            trail_flux_err: self.trail_flux_err,
            trail_ra: self.trail_ra,
            trail_ra_err: self.trail_ra_err,
            trail_dec: self.trail_dec,
            trail_dec_err: self.trail_dec_err,
            trail_length: self.trail_length,
            trail_length_err: self.trail_length_err,
            trail_angle: self.trail_angle,
            trail_angle_err: self.trail_angle_err,
            trail_chi2: self.trail_chi2,
            trail_ndata: self.trail_ndata,
            trail_flag_edge: self.trail_flag_edge,
            forced_psf_flux_flag: self.forced_psf_flux_flag,
            forced_psf_flux_flag_edge: self.forced_psf_flux_flag_edge,
            forced_psf_flux_flag_no_good_pixels: self.forced_psf_flux_flag_no_good_pixels,
            snap_diff_flux: self.snap_diff_flux,
            snap_diff_flux_err: self.snap_diff_flux_err,
            fp_bkgd: self.fp_bkgd,
            fp_bkgd_err: self.fp_bkgd_err,
            shape_flag: self.shape_flag,
            shape_flag_no_pixels: self.shape_flag_no_pixels,
            shape_flag_not_contained: self.shape_flag_not_contained,
            shape_flag_parent_source: self.shape_flag_parent_source,
            extendedness: self.extendedness,
            reliability: self.reliability,
            band: view_opt_string(self.band),
            pixel_flags: self.pixel_flags,
            pixel_flags_bad: self.pixel_flags_bad,
            pixel_flags_cr: self.pixel_flags_cr,
            pixel_flags_cr_center: self.pixel_flags_cr_center,
            pixel_flags_edge: self.pixel_flags_edge,
            pixel_flags_interpolated: self.pixel_flags_interpolated,
            pixel_flags_interpolated_center: self.pixel_flags_interpolated_center,
            pixel_flags_offimage: self.pixel_flags_offimage,
            pixel_flags_saturated: self.pixel_flags_saturated,
            pixel_flags_saturated_center: self.pixel_flags_saturated_center,
            pixel_flags_suspect: self.pixel_flags_suspect,
            pixel_flags_suspect_center: self.pixel_flags_suspect_center,
            pixel_flags_streak: self.pixel_flags_streak,
            pixel_flags_streak_center: self.pixel_flags_streak_center,
            pixel_flags_injected: self.pixel_flags_injected,
            pixel_flags_injected_center: self.pixel_flags_injected_center,
            pixel_flags_injected_template: self.pixel_flags_injected_template,
            pixel_flags_injected_template_center: self.pixel_flags_injected_template_center,
            magpsf: self.magpsf,
            sigmapsf: self.sigmapsf,
            science_flux: self.science_flux,
        }
    }
}

/// Per-object aggregate summary, one weighted-mean flux block per band.
#[derive(Debug, Clone, PartialEq)]
pub struct DiaObject {
    pub object_id: i64,
    pub ra: u64,
    pub ra_err: Option<u32>,
    pub dec: u64,
    pub dec_err: Option<u32>,
    pub radec_mjd_tai: Option<u64>,
    pub pm_ra: Option<u32>,
    pub pm_ra_err: Option<u32>,
    pub pm_dec: Option<u32>,
    pub pm_dec_err: Option<u32>,
    pub parallax: Option<u32>,
    pub parallax_err: Option<u32>,
    pub pm_parallax_chi2: Option<u32>,
    pub pm_parallax_ndata: Option<i32>,
    pub u_psf_flux_mean: Option<u32>,
    pub u_psf_flux_mean_err: Option<u32>,
    pub u_psf_flux_chi2: Option<u32>,
    pub u_psf_flux_ndata: Option<i32>,
    pub u_fp_flux_mean: Option<u32>,
    pub u_fp_flux_mean_err: Option<u32>,
    pub g_psf_flux_mean: Option<u32>,
    pub g_psf_flux_mean_err: Option<u32>,
    pub g_psf_flux_chi2: Option<u32>,
    pub g_psf_flux_ndata: Option<i32>,
    pub g_fp_flux_mean: Option<u32>,
    pub g_fp_flux_mean_err: Option<u32>,
    pub r_psf_flux_mean: Option<u32>,
    pub r_psf_flux_mean_err: Option<u32>,
    pub r_psf_flux_chi2: Option<u32>,
    pub r_psf_flux_ndata: Option<i32>,
    pub r_fp_flux_mean: Option<u32>,
    pub r_fp_flux_mean_err: Option<u32>,
    pub i_psf_flux_mean: Option<u32>,
    pub i_psf_flux_mean_err: Option<u32>,
    pub i_psf_flux_chi2: Option<u32>,
    pub i_psf_flux_ndata: Option<i32>,
    pub i_fp_flux_mean: Option<u32>,
    pub i_fp_flux_mean_err: Option<u32>,
    pub z_psf_flux_mean: Option<u32>,
    pub z_psf_flux_mean_err: Option<u32>,
    pub z_psf_flux_chi2: Option<u32>,
    pub z_psf_flux_ndata: Option<i32>,
    pub z_fp_flux_mean: Option<u32>,
    pub z_fp_flux_mean_err: Option<u32>,
    pub y_psf_flux_mean: Option<u32>,
    pub y_psf_flux_mean_err: Option<u32>,
    pub y_psf_flux_chi2: Option<u32>,
    pub y_psf_flux_ndata: Option<i32>,
    pub y_fp_flux_mean: Option<u32>,
    pub y_fp_flux_mean_err: Option<u32>,
    pub u_psf_flux_err_mean: Option<u32>,
    pub g_psf_flux_err_mean: Option<u32>,
    pub r_psf_flux_err_mean: Option<u32>,
    pub i_psf_flux_err_mean: Option<u32>,
    pub z_psf_flux_err_mean: Option<u32>,
    pub y_psf_flux_err_mean: Option<u32>,
}

/// Mathematical view of [`DiaObject`].
#[verifier::ext_equal]
pub ghost struct DiaObjectSpec {
    pub object_id: i64,
    pub ra: u64,
    pub ra_err: Option<u32>,
    pub dec: u64,
    pub dec_err: Option<u32>,
    pub radec_mjd_tai: Option<u64>,
    pub pm_ra: Option<u32>,
    pub pm_ra_err: Option<u32>,
    pub pm_dec: Option<u32>,
    pub pm_dec_err: Option<u32>,
    pub parallax: Option<u32>,
    pub parallax_err: Option<u32>,
    pub pm_parallax_chi2: Option<u32>,
    pub pm_parallax_ndata: Option<i32>,
    pub u_psf_flux_mean: Option<u32>,
    pub u_psf_flux_mean_err: Option<u32>,
    pub u_psf_flux_chi2: Option<u32>,
    pub u_psf_flux_ndata: Option<i32>,
    pub u_fp_flux_mean: Option<u32>,
    pub u_fp_flux_mean_err: Option<u32>,
    pub g_psf_flux_mean: Option<u32>,
    pub g_psf_flux_mean_err: Option<u32>,
    pub g_psf_flux_chi2: Option<u32>,
    pub g_psf_flux_ndata: Option<i32>,
    pub g_fp_flux_mean: Option<u32>,
    pub g_fp_flux_mean_err: Option<u32>,
    pub r_psf_flux_mean: Option<u32>,
    pub r_psf_flux_mean_err: Option<u32>,
    pub r_psf_flux_chi2: Option<u32>,
    pub r_psf_flux_ndata: Option<i32>,
    pub r_fp_flux_mean: Option<u32>,
    pub r_fp_flux_mean_err: Option<u32>,
    pub i_psf_flux_mean: Option<u32>,
    pub i_psf_flux_mean_err: Option<u32>,
    pub i_psf_flux_chi2: Option<u32>,
    pub i_psf_flux_ndata: Option<i32>,
    pub i_fp_flux_mean: Option<u32>,
    pub i_fp_flux_mean_err: Option<u32>,
    pub z_psf_flux_mean: Option<u32>,
    pub z_psf_flux_mean_err: Option<u32>,
    pub z_psf_flux_chi2: Option<u32>,
    pub z_psf_flux_ndata: Option<i32>,
    pub z_fp_flux_mean: Option<u32>,
    pub z_fp_flux_mean_err: Option<u32>,
    pub y_psf_flux_mean: Option<u32>,
    pub y_psf_flux_mean_err: Option<u32>,
    pub y_psf_flux_chi2: Option<u32>,
    pub y_psf_flux_ndata: Option<i32>,
    pub y_fp_flux_mean: Option<u32>,
    pub y_fp_flux_mean_err: Option<u32>,
    pub u_psf_flux_err_mean: Option<u32>,
    pub g_psf_flux_err_mean: Option<u32>,
    pub r_psf_flux_err_mean: Option<u32>,
    pub i_psf_flux_err_mean: Option<u32>,
    pub z_psf_flux_err_mean: Option<u32>,
    pub y_psf_flux_err_mean: Option<u32>,
}

impl View for DiaObject {
    type V = DiaObjectSpec;

    open spec fn view(&self) -> DiaObjectSpec {
        DiaObjectSpec {
            object_id: self.object_id,
            ra: self.ra,
            ra_err: self.ra_err,
            dec: self.dec,
            dec_err: self.dec_err,
            radec_mjd_tai: self.radec_mjd_tai,
            pm_ra: self.pm_ra,
            pm_ra_err: self.pm_ra_err,
            pm_dec: self.pm_dec,
            pm_dec_err: self.pm_dec_err,
            parallax: self.parallax,
            parallax_err: self.parallax_err,
            pm_parallax_chi2: self.pm_parallax_chi2,
            pm_parallax_ndata: self.pm_parallax_ndata,
            u_psf_flux_mean: self.u_psf_flux_mean,
            u_psf_flux_mean_err: self.u_psf_flux_mean_err,
            u_psf_flux_chi2: self.u_psf_flux_chi2,
            u_psf_flux_ndata: self.u_psf_flux_ndata,
            u_fp_flux_mean: self.u_fp_flux_mean,
            u_fp_flux_mean_err: self.u_fp_flux_mean_err,
            g_psf_flux_mean: self.g_psf_flux_mean,
            g_psf_flux_mean_err: self.g_psf_flux_mean_err,
            g_psf_flux_chi2: self.g_psf_flux_chi2,
            g_psf_flux_ndata: self.g_psf_flux_ndata,
            g_fp_flux_mean: self.g_fp_flux_mean,
            g_fp_flux_mean_err: self.g_fp_flux_mean_err,
            r_psf_flux_mean: self.r_psf_flux_mean,
            r_psf_flux_mean_err: self.r_psf_flux_mean_err,
            r_psf_flux_chi2: self.r_psf_flux_chi2,
            r_psf_flux_ndata: self.r_psf_flux_ndata,
            r_fp_flux_mean: self.r_fp_flux_mean,
            r_fp_flux_mean_err: self.r_fp_flux_mean_err,
            i_psf_flux_mean: self.i_psf_flux_mean,
            i_psf_flux_mean_err: self.i_psf_flux_mean_err,
            i_psf_flux_chi2: self.i_psf_flux_chi2,
            i_psf_flux_ndata: self.i_psf_flux_ndata,
            i_fp_flux_mean: self.i_fp_flux_mean,
            i_fp_flux_mean_err: self.i_fp_flux_mean_err,
            z_psf_flux_mean: self.z_psf_flux_mean,
            z_psf_flux_mean_err: self.z_psf_flux_mean_err,
            z_psf_flux_chi2: self.z_psf_flux_chi2,
            z_psf_flux_ndata: self.z_psf_flux_ndata,
            z_fp_flux_mean: self.z_fp_flux_mean,
            z_fp_flux_mean_err: self.z_fp_flux_mean_err,
            y_psf_flux_mean: self.y_psf_flux_mean,
            y_psf_flux_mean_err: self.y_psf_flux_mean_err,
            y_psf_flux_chi2: self.y_psf_flux_chi2,
            y_psf_flux_ndata: self.y_psf_flux_ndata,
            y_fp_flux_mean: self.y_fp_flux_mean,
            y_fp_flux_mean_err: self.y_fp_flux_mean_err,
            u_psf_flux_err_mean: self.u_psf_flux_err_mean,
            g_psf_flux_err_mean: self.g_psf_flux_err_mean,
            r_psf_flux_err_mean: self.r_psf_flux_err_mean,
            i_psf_flux_err_mean: self.i_psf_flux_err_mean,
            z_psf_flux_err_mean: self.z_psf_flux_err_mean,
            y_psf_flux_err_mean: self.y_psf_flux_err_mean,
        }
    }
}

/// A single-epoch forced-photometry sample.
#[derive(Debug, Clone, PartialEq)]
pub struct DiaForcedSource {
    pub dia_forced_source_id: i64,
    pub object_id: i64,
    pub ra: u64,
    pub dec: u64,
    pub visit: i64,
    pub detector: i32,
    pub psf_flux: Option<u32>,
    pub psf_flux_err: Option<u32>,
    pub mjd: u64,
    pub band: Option<String>,
    pub magpsf: Option<u32>,
    pub sigmapsf: Option<u32>,
    pub science_flux: Option<u32>,
}

/// Mathematical view of [`DiaForcedSource`].
#[verifier::ext_equal]
pub ghost struct DiaForcedSourceSpec {
    pub dia_forced_source_id: i64,
    pub object_id: i64,
    pub ra: u64,
    pub dec: u64,
    pub visit: i64,
    pub detector: i32,
    pub psf_flux: Option<u32>,
    pub psf_flux_err: Option<u32>,
    pub mjd: u64,
    pub band: Option<Seq<char>>,
    pub magpsf: Option<u32>,
    pub sigmapsf: Option<u32>,
    pub science_flux: Option<u32>,
}

impl View for DiaForcedSource {
    type V = DiaForcedSourceSpec;

    open spec fn view(&self) -> DiaForcedSourceSpec {
        DiaForcedSourceSpec {
            dia_forced_source_id: self.dia_forced_source_id,
            object_id: self.object_id,
            ra: self.ra,
            dec: self.dec,
            visit: self.visit,
            detector: self.detector,
            psf_flux: self.psf_flux,
            psf_flux_err: self.psf_flux_err,
            mjd: self.mjd,
            band: view_opt_string(self.band),
            magpsf: self.magpsf,
            sigmapsf: self.sigmapsf,
            science_flux: self.science_flux,
        }
    }
}

/// A non-detection limit: the faintest flux detectable at an epoch.
#[derive(Debug, Clone, PartialEq)]
pub struct DiaNondetectionLimit {
    pub ccd_visit_id: i64,
    pub mjd: u64,
    pub band: String,
    pub dia_noise: u32,
}

/// Mathematical view of [`DiaNondetectionLimit`].
#[verifier::ext_equal]
pub ghost struct DiaNondetectionLimitSpec {
    pub ccd_visit_id: i64,
    pub mjd: u64,
    pub band: Seq<char>,
    pub dia_noise: u32,
}

impl View for DiaNondetectionLimit {
    type V = DiaNondetectionLimitSpec;

    open spec fn view(&self) -> DiaNondetectionLimitSpec {
        DiaNondetectionLimitSpec {
            ccd_visit_id: self.ccd_visit_id,
            mjd: self.mjd,
            band: self.band@,
            dia_noise: self.dia_noise,
        }
    }
}

/// A record is in wire form when the fields the worker derives after decoding
/// are still absent; the wire schema does not carry them.
pub open spec fn wire_form_dia_source(a: DiaSourceSpec) -> bool {
    a.magpsf is None && a.sigmapsf is None && a.science_flux is None
}

pub open spec fn wire_form_dia_forced_source(a: DiaForcedSourceSpec) -> bool {
    a.magpsf is None && a.sigmapsf is None && a.science_flux is None
}

/// String and buffer fields are short enough for a length prefix.
pub open spec fn encodable_dia_source(a: DiaSourceSpec) -> bool {
    (match a.band { Some(c) => encode_utf8(c).len() <= i64::MAX, None => true })
}

/// String and buffer fields are short enough for a length prefix.
pub open spec fn encodable_dia_forced_source(a: DiaForcedSourceSpec) -> bool {
    (match a.band { Some(c) => encode_utf8(c).len() <= i64::MAX, None => true })
}

/// String and buffer fields are short enough for a length prefix.
pub open spec fn encodable_dia_nondetection_limit(a: DiaNondetectionLimitSpec) -> bool {
    encode_utf8(a.band).len() <= i64::MAX
}

impl DiaSource {
    /// Attaches the derived point-source magnitude and its uncertainty, or
    /// records both as absent when the effective flux admits no magnitude.
    /// All other fields are untouched.
    pub fn add_mag_data(&mut self, mag: Option<(u32, u32)>)
        ensures
            final(self)@ == (DiaSourceSpec {
                magpsf: match mag { Some(m) => Some(m.0), None => None },
                sigmapsf: match mag { Some(m) => Some(m.1), None => None },
                ..old(self)@
            }),
    {
        match mag {
            Some((m, sg)) => {
                self.magpsf = Some(m);
                self.sigmapsf = Some(sg);
            },
            None => {
                self.magpsf = None;
                self.sigmapsf = None;
            },
        }
    }
}

impl DiaForcedSource {
    /// Attaches the derived point-source magnitude and its uncertainty, or
    /// records both as absent when the effective flux admits no magnitude.
    /// All other fields are untouched.
    pub fn add_mag_data(&mut self, mag: Option<(u32, u32)>)
        ensures
            final(self)@ == (DiaForcedSourceSpec {
                magpsf: match mag { Some(m) => Some(m.0), None => None },
                sigmapsf: match mag { Some(m) => Some(m.1), None => None },
                ..old(self)@
            }),
    {
        match mag {
            Some((m, sg)) => {
                self.magpsf = Some(m);
                self.sigmapsf = Some(sg);
            },
            None => {
                self.magpsf = None;
                self.sigmapsf = None;
            },
        }
    }
}

/// The alert envelope of one packet.
#[derive(Debug, Clone, PartialEq)]
pub struct LsstAlert {
    pub candid: i64,
    pub candidate: DiaSource,
    pub prv_candidates: Option<Vec<DiaSource>>,
    pub fp_hists: Option<Vec<DiaForcedSource>>,
    pub prv_nondetections: Option<Vec<DiaNondetectionLimit>>,
    pub dia_object: Option<DiaObject>,
    pub cutout_difference: Option<Vec<u8>>,
    pub cutout_science: Option<Vec<u8>>,
    pub cutout_template: Option<Vec<u8>>,
}

/// Mathematical view of [`LsstAlert`].
#[verifier::ext_equal]
pub ghost struct LsstAlertSpec {
    pub candid: i64,
    pub candidate: DiaSourceSpec,
    pub prv_candidates: Option<Seq<DiaSourceSpec>>,
    pub fp_hists: Option<Seq<DiaForcedSourceSpec>>,
    pub prv_nondetections: Option<Seq<DiaNondetectionLimitSpec>>,
    pub dia_object: Option<DiaObjectSpec>,
    pub cutout_difference: Option<Seq<u8>>,
    pub cutout_science: Option<Seq<u8>>,
    pub cutout_template: Option<Seq<u8>>,
}

pub open spec fn seq_view_dia_source(v: Seq<DiaSource>) -> Seq<DiaSourceSpec> {
    v.map_values(|x: DiaSource| x@)
}

pub open spec fn seq_view_dia_forced_source(v: Seq<DiaForcedSource>) -> Seq<DiaForcedSourceSpec> {
    v.map_values(|x: DiaForcedSource| x@)
}

pub open spec fn seq_view_dia_nondetection_limit(v: Seq<DiaNondetectionLimit>) -> Seq<
    DiaNondetectionLimitSpec,
> {
    v.map_values(|x: DiaNondetectionLimit| x@)
}

pub open spec fn view_opt_vec_dia_source(v: Option<Vec<DiaSource>>) -> Option<Seq<DiaSourceSpec>> {
    match v {
        None => None,
        Some(items) => Some(seq_view_dia_source(items@)),
    }
}

pub open spec fn view_opt_vec_dia_forced_source(v: Option<Vec<DiaForcedSource>>) -> Option<
    Seq<DiaForcedSourceSpec>,
> {
    match v {
        None => None,
        Some(items) => Some(seq_view_dia_forced_source(items@)),
    }
}

pub open spec fn view_opt_vec_dia_nondetection_limit(v: Option<Vec<DiaNondetectionLimit>>) -> Option<
    Seq<DiaNondetectionLimitSpec>,
> {
    match v {
        None => None,
        Some(items) => Some(seq_view_dia_nondetection_limit(items@)),
    }
}

pub open spec fn view_opt_dia_object(v: Option<DiaObject>) -> Option<DiaObjectSpec> {
    match v {
        None => None,
        Some(o) => Some(o@),
    }
}

impl View for LsstAlert {
    type V = LsstAlertSpec;

    open spec fn view(&self) -> LsstAlertSpec {
        LsstAlertSpec {
            candid: self.candid,
            candidate: self.candidate@,
            prv_candidates: view_opt_vec_dia_source(self.prv_candidates),
            fp_hists: view_opt_vec_dia_forced_source(self.fp_hists),
            prv_nondetections: view_opt_vec_dia_nondetection_limit(self.prv_nondetections),
            dia_object: view_opt_dia_object(self.dia_object),
            cutout_difference: view_opt_bytes(self.cutout_difference),
            cutout_science: view_opt_bytes(self.cutout_science),
            cutout_template: view_opt_bytes(self.cutout_template),
        }
    }
}

/// An envelope is in wire form when no record in it carries derived fields yet.
pub open spec fn wire_form_lsst_alert(a: LsstAlertSpec) -> bool {
    &&& wire_form_dia_source(a.candidate)
    &&& match a.prv_candidates {
        Some(items) => forall|k: int|
            0 <= k < items.len() ==> wire_form_dia_source(#[trigger] items[k]),
        None => true,
    }
    &&& match a.fp_hists {
        Some(items) => forall|k: int|
            0 <= k < items.len() ==> wire_form_dia_forced_source(#[trigger] items[k]),
        None => true,
    }
}

/// Every variable-length field of the envelope fits its length prefix.
pub open spec fn encodable_lsst_alert(a: LsstAlertSpec) -> bool {
    &&& encodable_dia_source(a.candidate)
    &&& match a.prv_candidates {
        Some(items) => items.len() <= i64::MAX && forall|k: int|
            0 <= k < items.len() ==> encodable_dia_source(#[trigger] items[k]),
        None => true,
    }
    &&& match a.fp_hists {
        Some(items) => items.len() <= i64::MAX && forall|k: int|
            0 <= k < items.len() ==> encodable_dia_forced_source(#[trigger] items[k]),
        None => true,
    }
    &&& match a.prv_nondetections {
        Some(items) => items.len() <= i64::MAX && forall|k: int|
            0 <= k < items.len() ==> encodable_dia_nondetection_limit(#[trigger] items[k]),
        None => true,
    }
    &&& match a.cutout_difference {
        Some(b) => b.len() <= i64::MAX,
        None => true,
    }
    &&& match a.cutout_science {
        Some(b) => b.len() <= i64::MAX,
        None => true,
    }
    &&& match a.cutout_template {
        Some(b) => b.len() <= i64::MAX,
        None => true,
    }
}

} // verus!
