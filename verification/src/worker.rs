//! The per-stream worker: schema resolution against the remote registry with
//! an in-process cache, packet decoding, and the three-phase persistence
//! protocol. The worker never performs transport itself: the driver fetches
//! the registry response bodies and hands them in, so every decision made on
//! them is verified. A cache hit consumes no fetched bodies and bumps no
//! fetch count, which is what keeps the registry contacted at most once per
//! schema version.

use vstd::prelude::*;

verus! {

use vstd::string::StringExecFns;
use crate::{AlertError, SchemaRegistryError};
use crate::avro::view_opt_bytes;
use crate::document::Document;
use crate::model::{
    DiaSource,
    DiaSourceSpec,
    DiaForcedSource,
    DiaForcedSourceSpec,
    LsstAlert,
    seq_view_dia_source,
    seq_view_dia_forced_source,
};
use crate::packet::{MAGIC_BYTE, be_u32_at, decode_header, dec_lsst_alert, read_lsst_alert};
use crate::store::{
    AlertStore,
    PrimaryRecord,
    CutoutRecord,
    AuxRecord,
    wf_alert_store,
    has_candid,
    has_cutout,
    has_object,
    aux_index_of,
    add_all_dsv,
    add_all_fsv,
    lemma_add_all_ds_view,
    lemma_add_all_fs_view,
};

broadcast use vstd::seq::group_seq_axioms;

// ---------------------------------------------------------------------------
// the remote registry, behind trusted declarations
// ---------------------------------------------------------------------------

#[verifier::external_type_specification]
#[verifier::external_body]
pub struct ExSchema(apache_avro::Schema);

/// Whether a schema body parses: apache_avro::Schema::parse_str succeeds on a
/// text or not as a function of the text alone.
pub uninterp spec fn schema_parses(text: Seq<char>) -> bool;

/// Relies on apache_avro::Schema::parse_str: it parses the schema text, and
/// succeeds or fails on the text alone.
#[verifier::external_body]
fn parse_schema(text: &str) -> (r: Option<apache_avro::Schema>)
    ensures
        r is Some <==> schema_parses(text@),
{
    match apache_avro::Schema::parse_str(text) {
        Ok(s) => Some(s),
        Err(_) => None,
    }
}

/// What a registry subjects listing parses to, as a function of the body text.
pub uninterp spec fn parsed_subjects(text: Seq<char>) -> Option<Seq<Seq<char>>>;

/// Relies on serde_json::from_str::<Vec<String>>: the parse of a JSON array
/// of strings, a function of the text alone.
#[verifier::external_body]
fn parse_subjects(text: &str) -> (r: Option<Vec<String>>)
    ensures
        match r {
            Some(v) => parsed_subjects(text@) == Some(v.deep_view()),
            None => parsed_subjects(text@) is None,
        },
{
    serde_json::from_str::<Vec<String>>(text).ok()
}

/// What a registry versions listing parses to, as a function of the body text.
pub uninterp spec fn parsed_versions(text: Seq<char>) -> Option<Seq<u32>>;

/// Relies on serde_json::from_str::<Vec<u32>>: the parse of a JSON array of
/// integers, a function of the text alone.
#[verifier::external_body]
fn parse_versions(text: &str) -> (r: Option<Vec<u32>>)
    ensures
        match r {
            Some(v) => parsed_versions(text@) == Some(v@),
            None => parsed_versions(text@) is None,
        },
{
    serde_json::from_str::<Vec<u32>>(text).ok()
}

/// The string under the `schema` key of a registry schema response, as a
/// function of the body text.
pub uninterp spec fn parsed_schema_field(text: Seq<char>) -> Option<Seq<char>>;

/// Relies on serde_json::from_str::<serde_json::Value>, Value::get and
/// Value::as_str: the `schema` string of the response body, a function of the
/// text alone.
#[verifier::external_body]
fn parse_schema_field(text: &str) -> (r: Option<String>)
    ensures
        match r {
            Some(s) => parsed_schema_field(text@) == Some(s@),
            None => parsed_schema_field(text@) is None,
        },
{
    let v: serde_json::Value = match serde_json::from_str(text) {
        Ok(v) => v,
        Err(_) => return None,
    };
    match v.get("schema").and_then(|s| s.as_str()) {
        Some(s) => Some(s.to_string()),
        None => None,
    }
}

// ---------------------------------------------------------------------------
// registry validation, fully decided on the fetched bodies
// ---------------------------------------------------------------------------

/// Whether a listing contains a subject name.
pub open spec fn contains_str(v: Seq<Seq<char>>, s: Seq<char>) -> bool {
    exists|k: int| 0 <= k < v.len() && v[k] == s
}

/// Whether a listing contains a version.
pub open spec fn contains_u32(v: Seq<u32>, x: u32) -> bool {
    exists|k: int| 0 <= k < v.len() && v[k] == x
}

/// The outcome the registry protocol owes for one resolution, given the three
/// fetched bodies: each defensive check in order, then the schema text.
pub open spec fn resolve_spec(
    subject: Seq<char>,
    version: u32,
    subjects_body: Seq<char>,
    versions_body: Seq<char>,
    schema_body: Seq<char>,
) -> Result<Seq<char>, SchemaRegistryError> {
    match parsed_subjects(subjects_body) {
        None => Err(SchemaRegistryError::ParsingError),
        Some(subs) => if !contains_str(subs, subject) {
            Err(SchemaRegistryError::InvalidSubject)
        } else {
            match parsed_versions(versions_body) {
                None => Err(SchemaRegistryError::ParsingError),
                Some(vers) => if !contains_u32(vers, version) {
                    Err(SchemaRegistryError::InvalidVersion)
                } else {
                    match parsed_schema_field(schema_body) {
                        None => Err(SchemaRegistryError::ParsingError),
                        Some(text) => if schema_parses(text) {
                            Ok(text)
                        } else {
                            Err(SchemaRegistryError::InvalidSchema)
                        },
                    }
                },
            }
        },
    }
}

/// The response bodies one resolution consumes, fetched by the driver:
/// the subjects listing, the subject's versions listing, and the schema body.
pub struct RegistryBodies {
    pub subjects: String,
    pub versions: String,
    pub schema: String,
}

/// Whether the cache holds a schema under this subject and version.
pub open spec fn cache_has(
    entries: Seq<(String, u32, apache_avro::Schema)>,
    subject: Seq<char>,
    version: u32,
) -> bool {
    exists|k: int| 0 <= k < entries.len() && entries[k].0@ == subject && entries[k].1 == version
}

/// One worker of one alert stream: its name, its schema cache, and the count
/// of registry fetches it has performed.
pub struct LsstAlertWorker {
    pub stream_name: String,
    pub cache: Vec<(String, u32, apache_avro::Schema)>,
    pub fetches: u64,
}

impl LsstAlertWorker {
    /// A fresh worker of the stream, with a cold cache.
    pub fn new() -> (r: LsstAlertWorker)
        ensures
            r.stream_name@ == "LSST"@,
            r.cache@.len() == 0,
            r.fetches == 0,
    {
        LsstAlertWorker {
            stream_name: String::from_str("LSST"),
            cache: Vec::new(),
            fetches: 0,
        }
    }

    /// The stream this worker serves.
    pub fn stream_name(&self) -> (r: String)
        ensures
            r@ == self.stream_name@,
    {
        self.stream_name.clone()
    }

    /// Name of the queue packets arrive on.
    pub fn input_queue_name(&self) -> (r: String)
        ensures
            r@ == self.stream_name@ + "_alerts_packets_queue"@,
    {
        self.stream_name.clone().concat("_alerts_packets_queue")
    }

    /// Name of the queue processed alerts leave on.
    pub fn output_queue_name(&self) -> (r: String)
        ensures
            r@ == self.stream_name@ + "_alerts_filter_queue"@,
    {
        self.stream_name.clone().concat("_alerts_filter_queue")
    }

    /// Name of the primary collection.
    pub fn alert_collection_name(&self) -> (r: String)
        ensures
            r@ == self.stream_name@ + "_alerts"@,
    {
        self.stream_name.clone().concat("_alerts")
    }

    /// Name of the cutout collection.
    pub fn alert_cutout_collection_name(&self) -> (r: String)
        ensures
            r@ == self.stream_name@ + "_alerts_cutouts"@,
    {
        self.stream_name.clone().concat("_alerts_cutouts")
    }

    /// Name of the auxiliary collection.
    pub fn alert_aux_collection_name(&self) -> (r: String)
        ensures
            r@ == self.stream_name@ + "_alerts_aux"@,
    {
        self.stream_name.clone().concat("_alerts_aux")
    }

    /// Parses a subjects listing; a malformed body is a parsing failure.
    pub fn get_subjects(subjects_body: &str) -> (r: Result<Vec<String>, SchemaRegistryError>)
        ensures
            match parsed_subjects(subjects_body@) {
                None => r == Err::<Vec<String>, _>(SchemaRegistryError::ParsingError),
                Some(v) => r matches Ok(x) && x.deep_view() == v,
            },
    {
        match parse_subjects(subjects_body) {
            None => Err(SchemaRegistryError::ParsingError),
            Some(v) => Ok(v),
        }
    }

    /// Validates the subject against the listing, then parses its versions.
    pub fn get_versions(subject: &str, subjects_body: &str, versions_body: &str) -> (r: Result<
        Vec<u32>,
        SchemaRegistryError,
    >)
        ensures
            match parsed_subjects(subjects_body@) {
                None => r == Err::<Vec<u32>, _>(SchemaRegistryError::ParsingError),
                Some(subs) => if !contains_str(subs, subject@) {
                    r == Err::<Vec<u32>, _>(SchemaRegistryError::InvalidSubject)
                } else {
                    match parsed_versions(versions_body@) {
                        None => r == Err::<Vec<u32>, _>(SchemaRegistryError::ParsingError),
                        Some(vers) => r matches Ok(x) && x@ == vers,
                    }
                },
            },
    {
        let subs = match Self::get_subjects(subjects_body) {
            Ok(v) => v,
            Err(e) => {
                return Err(e);
            },
        };
        let target = subject.to_owned();
        let n = subs.len();
        let mut k: usize = 0;
        let mut present = false;
        while k < n
            invariant
                k <= n == subs@.len(),
                parsed_subjects(subjects_body@) == Some(subs.deep_view()),
                present == exists|t: int| 0 <= t < k && subs@[t]@ == subject@,
                target@ == subject@,
            decreases n - k,
        {
            if subs[k] == target {
                present = true;
            }
            k = k + 1;
        }
        proof {
            assert(forall|t: int|
                0 <= t < subs@.len() ==> subs.deep_view()[t] == #[trigger] subs@[t]@);
        }
        if !present {
            return Err(SchemaRegistryError::InvalidSubject);
        }
        match parse_versions(versions_body) {
            None => Err(SchemaRegistryError::ParsingError),
            Some(v) => Ok(v),
        }
    }

    /// One full resolution against fetched bodies: validates the subject and
    /// version defensively, then parses the schema text.
    pub fn get_schema_by_id(
        subject: &str,
        version: u32,
        bodies: &RegistryBodies,
    ) -> (r: Result<apache_avro::Schema, SchemaRegistryError>)
        ensures
            match resolve_spec(
                subject@,
                version,
                bodies.subjects@,
                bodies.versions@,
                bodies.schema@,
            ) {
                Ok(text) => r is Ok,
                Err(e) => r == Err::<apache_avro::Schema, _>(e),
            },
    {
        let versions = match Self::get_versions(
            subject,
            bodies.subjects.as_str(),
            bodies.versions.as_str(),
        ) {
            Ok(v) => v,
            Err(e) => {
                return Err(e);
            },
        };
        let n = versions.len();
        let mut k: usize = 0;
        let mut present = false;
        while k < n
            invariant
                k <= n == versions@.len(),
                present == exists|t: int| 0 <= t < k && versions@[t] == version,
            decreases n - k,
        {
            if versions[k] == version {
                present = true;
            }
            k = k + 1;
        }
        if !present {
            return Err(SchemaRegistryError::InvalidVersion);
        }
        let text = match parse_schema_field(bodies.schema.as_str()) {
            None => {
                return Err(SchemaRegistryError::ParsingError);
            },
            Some(t) => t,
        };
        match parse_schema(text.as_str()) {
            None => Err(SchemaRegistryError::InvalidSchema),
            Some(s) => Ok(s),
        }
    }

    /// Index of a cached schema, if any.
    fn cached_index(&self, subject: &str, version: u32) -> (r: Option<usize>)
        ensures
            match r {
                Some(i) => i < self.cache@.len() && self.cache@[i as int].0@ == subject@
                    && self.cache@[i as int].1 == version,
                None => !cache_has(self.cache@, subject@, version),
            },
    {
        let target = subject.to_owned();
        let n = self.cache.len();
        let mut k: usize = 0;
        while k < n
            invariant
                k <= n == self.cache@.len(),
                target@ == subject@,
                forall|t: int|
                    0 <= t < k ==> !((#[trigger] self.cache@[t]).0@ == subject@ && self.cache@[t].1
                        == version),
            decreases n - k,
        {
            if self.cache[k].1 == version && self.cache[k].0 == target {
                return Some(k);
            }
            k = k + 1;
        }
        None
    }

    /// Whether a schema is already cached: a driver asks this before fetching
    /// registry bodies, so a warm cache causes no registry traffic at all.
    pub fn schema_cached(&self, subject: &str, version: u32) -> (r: bool)
        ensures
            r == cache_has(self.cache@, subject@, version),
    {
        match self.cached_index(subject, version) {
            Some(_) => true,
            None => false,
        }
    }

    /// Resolves a schema: a previously cached one if present, otherwise one
    /// resolution against the fetched bodies, cached on success. A hit
    /// consumes nothing and fetches nothing; each miss is one registry fetch.
    pub fn get_schema(
        &mut self,
        subject: &str,
        version: u32,
        bodies: &RegistryBodies,
    ) -> (r: Result<&apache_avro::Schema, SchemaRegistryError>)
        requires
            old(self).fetches < u64::MAX,
        ensures
            final(self).stream_name == old(self).stream_name,
            cache_has(old(self).cache@, subject@, version) ==> r is Ok && final(self).cache@ == old(self).cache@ && final(self).fetches == old(self).fetches,
            !cache_has(old(self).cache@, subject@, version) ==> final(self).fetches == old(self).fetches + 1 && (match resolve_spec(
                subject@,
                version,
                bodies.subjects@,
                bodies.versions@,
                bodies.schema@,
            ) {
                Ok(text) => {
                    &&& r is Ok
                    &&& final(self).cache@.len() == old(self).cache@.len() + 1
                    &&& forall|t: int|
                        0 <= t < old(self).cache@.len() ==> (#[trigger] final(self).cache@[t]) == old(self).cache@[t]
                    &&& final(self).cache@[old(self).cache@.len() as int].0@ == subject@
                    &&& final(self).cache@[old(self).cache@.len() as int].1 == version
                },
                Err(e) => r == Err::<&apache_avro::Schema, _>(e) && final(self).cache@ == old(self).cache@,
            }),
            cache_has(final(self).cache@, subject@, version) <==> (cache_has(
                old(self).cache@,
                subject@,
                version,
            ) || resolve_spec(
                subject@,
                version,
                bodies.subjects@,
                bodies.versions@,
                bodies.schema@,
            ) is Ok),
    {
        match self.cached_index(subject, version) {
            Some(i) => Ok(&self.cache[i].2),
            None => {
                self.fetches = self.fetches + 1;
                match Self::get_schema_by_id(subject, version, bodies) {
                    Ok(schema) => {
                        let entry = (subject.to_owned(), version, schema);
                        self.cache.push(entry);
                        let i = self.cache.len() - 1;
                        proof {
                            assert(self.cache@[i as int].0@ == subject@);
                            assert(self.cache@[i as int].1 == version);
                            assert(cache_has(self.cache@, subject@, version));
                        }
                        Ok(&self.cache[i].2)
                    },
                    Err(e) => Err(e),
                }
            },
        }
    }

    /// Decodes one packet: checks the frame, resolves the schema named in the
    /// header (from the cache when warm), then reads the payload. Fails with
    /// the magic-byte error on a bad frame, a registry error when resolution
    /// fails, and the decode error exactly when the payload does not parse.
    ///
    /// The resolution gates decoding — an unregistered schema id never
    /// reaches the payload — but does not shape it: the payload is read
    /// against the fixed layout `dec_lsst_alert` states, the current
    /// alert-packet schema. A future registered version with a different
    /// layout would be rejected as a decode failure, not adapted.
    pub fn alert_from_avro_bytes(
        &mut self,
        avro_bytes: &[u8],
        bodies: &RegistryBodies,
    ) -> (r: Result<LsstAlert, AlertError>)
        requires
            avro_bytes@.len() >= 5,
            old(self).fetches < u64::MAX,
        ensures
            final(self).stream_name == old(self).stream_name,
            avro_bytes@[0] != MAGIC_BYTE ==> r == Err::<LsstAlert, _>(AlertError::MagicBytesError)
                && *final(self) == *old(self),
            avro_bytes@[0] == MAGIC_BYTE ==> ({
                let version = be_u32_at(avro_bytes@, 1) as u32;
                let hit = cache_has(old(self).cache@, "alert-packet"@, version);
                let outcome = resolve_spec(
                    "alert-packet"@,
                    version,
                    bodies.subjects@,
                    bodies.versions@,
                    bodies.schema@,
                );
                &&& (hit ==> final(self).fetches == old(self).fetches && final(self).cache@ == old(self).cache@)
                &&& (!hit ==> final(self).fetches == old(self).fetches + 1)
                &&& ((hit || outcome is Ok) ==> (match dec_lsst_alert(avro_bytes@, 5) {
                    Some((a, n)) => r matches Ok(al) && al@ == a,
                    None => r == Err::<LsstAlert, _>(AlertError::DecodeError),
                }))
                &&& (!hit ==> (match outcome {
                    Err(e) => r == Err::<LsstAlert, _>(AlertError::SchemaRegistry(e)),
                    Ok(_) => true,
                }))
            }),
    {
        let schema_id = match decode_header(avro_bytes) {
            Ok(id) => id,
            Err(e) => {
                return Err(e);
            },
        };
        match self.get_schema("alert-packet", schema_id, bodies) {
            Ok(_schema) => {},
            Err(e) => {
                return Err(AlertError::SchemaRegistry(e));
            },
        }
        match read_lsst_alert(avro_bytes, 5) {
            Some((alert, _end)) => Ok(alert),
            None => Err(AlertError::DecodeError),
        }
    }
}

/// Classifies the store driver's write failure of phase one: the unique-key
/// violation code is the defined duplicate signal, anything else is a plain
/// insertion failure.
pub fn map_insert_alert_error(code: i32) -> (r: AlertError)
    ensures
        r == (if code == 11000 {
            AlertError::AlertExists
        } else {
            AlertError::InsertAlertError
        }),
{
    if code == 11000 {
        AlertError::AlertExists
    } else {
        AlertError::InsertAlertError
    }
}

// ---------------------------------------------------------------------------
// enrichment, stated over views
// ---------------------------------------------------------------------------

/// A detection after magnitude enrichment: the derived fields carry the
/// supplied magnitudes, present exactly when a magnitude was supplied; every
/// other attribute is kept.
pub open spec fn enriched_ds(c: DiaSourceSpec, mag: Option<(u32, u32)>) -> DiaSourceSpec {
    DiaSourceSpec {
        magpsf: match mag {
            Some(m) => Some(m.0),
            None => None,
        },
        sigmapsf: match mag {
            Some(m) => Some(m.1),
            None => None,
        },
        ..c
    }
}

pub open spec fn enriched_fs(c: DiaForcedSourceSpec, mag: Option<(u32, u32)>) -> DiaForcedSourceSpec {
    DiaForcedSourceSpec {
        magpsf: match mag {
            Some(m) => Some(m.0),
            None => None,
        },
        sigmapsf: match mag {
            Some(m) => Some(m.1),
            None => None,
        },
        ..c
    }
}

/// Element-wise enrichment of a history run.
pub open spec fn enriched_ds_seq(
    items: Seq<DiaSourceSpec>,
    mags: Seq<Option<(u32, u32)>>,
) -> Seq<DiaSourceSpec> {
    Seq::new(items.len(), |k: int| enriched_ds(items[k], mags[k]))
}

pub open spec fn enriched_fs_seq(
    items: Seq<DiaForcedSourceSpec>,
    mags: Seq<Option<(u32, u32)>>,
) -> Seq<DiaForcedSourceSpec> {
    Seq::new(items.len(), |k: int| enriched_fs(items[k], mags[k]))
}

/// Enriches every previous detection with its magnitude pair.
fn enrich_ds_vec(items: Vec<DiaSource>, mags: &Vec<Option<(u32, u32)>>) -> (r: Vec<DiaSource>)
    requires
        mags@.len() == items@.len(),
    ensures
        seq_view_dia_source(r@) == enriched_ds_seq(seq_view_dia_source(items@), mags@),
{
    let ghost orig = items@;
    let mut src = items;
    let mut out: Vec<DiaSource> = Vec::new();
    let n = src.len();
    let mut k: usize = 0;
    while k < n
        invariant
            k <= n == orig.len(),
            mags@.len() == orig.len(),
            src@ == orig.skip(k as int),
            out@.len() == k,
            forall|t: int| 0 <= t < k ==> (#[trigger] out@[t])@ == enriched_ds(orig[t]@, mags@[t]),
        decreases n - k,
    {
        let mut x = src.remove(0);
        proof {
            assert(orig.skip(k as int)[0] == orig[k as int]);
            assert(orig.skip(k as int).skip(1) =~= orig.skip(k + 1 as int));
        }
        x.add_mag_data(mags[k]);
        out.push(x);
        k = k + 1;
    }
    proof {
        assert(seq_view_dia_source(out@) =~= enriched_ds_seq(seq_view_dia_source(orig), mags@));
    }
    out
}

/// Enriches every forced-photometry sample with its magnitude pair.
fn enrich_fs_vec(
    items: Vec<DiaForcedSource>,
    mags: &Vec<Option<(u32, u32)>>,
) -> (r: Vec<DiaForcedSource>)
    requires
        mags@.len() == items@.len(),
    ensures
        seq_view_dia_forced_source(r@) == enriched_fs_seq(
            seq_view_dia_forced_source(items@),
            mags@,
        ),
{
    let ghost orig = items@;
    let mut src = items;
    let mut out: Vec<DiaForcedSource> = Vec::new();
    let n = src.len();
    let mut k: usize = 0;
    while k < n
        invariant
            k <= n == orig.len(),
            mags@.len() == orig.len(),
            src@ == orig.skip(k as int),
            out@.len() == k,
            forall|t: int| 0 <= t < k ==> (#[trigger] out@[t])@ == enriched_fs(orig[t]@, mags@[t]),
        decreases n - k,
    {
        let mut x = src.remove(0);
        proof {
            assert(orig.skip(k as int)[0] == orig[k as int]);
            assert(orig.skip(k as int).skip(1) =~= orig.skip(k + 1 as int));
        }
        x.add_mag_data(mags[k]);
        out.push(x);
        k = k + 1;
    }
    proof {
        assert(seq_view_dia_forced_source(out@) =~= enriched_fs_seq(
            seq_view_dia_forced_source(orig),
            mags@,
        ));
    }
    out
}

/// Views of the previous detections of an envelope, an empty run when absent.
pub open spec fn prv_views(a: LsstAlert) -> Seq<DiaSourceSpec> {
    match a.prv_candidates {
        Some(v) => seq_view_dia_source(v@),
        None => Seq::empty(),
    }
}

/// Views of the forced-photometry history of an envelope.
pub open spec fn fp_views(a: LsstAlert) -> Seq<DiaForcedSourceSpec> {
    match a.fp_hists {
        Some(v) => seq_view_dia_forced_source(v@),
        None => Seq::empty(),
    }
}

impl LsstAlertWorker {
    /// The three-phase persistence protocol for one decoded envelope, against
    /// the store model.
    ///
    /// Phase one inserts the primary record; a duplicate key is the defined
    /// `AlertExists` failure and leaves every collection untouched, which is
    /// what makes replaying a packet harmless. Phase two inserts the cutout
    /// record. Phase three creates the per-object history row, storing the
    /// cross-match result verbatim, or merges into it by element-wise set
    /// union, so the history arrays never grow under replayed elements.
    ///
    /// Success is owed whenever the packet's key is fresh in both the primary
    /// and the cutout collection; the one remaining failure, a stale cutout
    /// row under this key left by an interrupted earlier run, reports the
    /// cutout phase and leaves the cutout and history collections untouched,
    /// so a replay observes the duplicate primary key as the spec intends.
    ///
    /// The magnitudes and the shifted right ascension (`ra - 180.0`) are
    /// computed on the raw floating-point values by the caller and passed in;
    /// `now` is the Julian date of the capture instant, as a bit pattern.
    pub fn process_alert(
        &self,
        alert: LsstAlert,
        candidate_mag: Option<(u32, u32)>,
        prv_mags: &Vec<Option<(u32, u32)>>,
        fp_mags: &Vec<Option<(u32, u32)>>,
        now: u64,
        ra_minus_180: u64,
        xmatch: Document,
        store: &mut AlertStore,
    ) -> (r: Result<i64, AlertError>)
        requires
            wf_alert_store(*old(store)),
            alert.candidate.object_id is Some,
            alert.cutout_science is Some,
            alert.cutout_template is Some,
            alert.cutout_difference is Some,
            prv_mags@.len() == prv_views(alert).len(),
            fp_mags@.len() == fp_views(alert).len(),
        ensures
            wf_alert_store(*final(store)),
            has_candid(old(store).alerts@, alert.candid) ==> r == Err::<i64, _>(
                AlertError::AlertExists,
            ) && *final(store) == *old(store),
            !has_candid(old(store).alerts@, alert.candid) ==> ({
                let oid = alert.candidate.object_id.unwrap();
                let cand = enriched_ds(alert.candidate@, candidate_mag);
                let new_prv = enriched_ds_seq(prv_views(alert), prv_mags@).push(cand);
                let new_fp = enriched_fs_seq(fp_views(alert), fp_mags@);
                &&& (match r {
                    Ok(c) => c == alert.candid,
                    Err(e) => e == AlertError::InsertCutoutError,
                })
                &&& (!has_cutout(old(store).cutouts@, alert.candid) ==> r is Ok)
                &&& (r is Err ==> final(store).cutouts@ == old(store).cutouts@
                    && final(store).aux@ == old(store).aux@)
                &&& final(store).alerts@.len() == old(store).alerts@.len() + 1
                &&& forall|t: int|
                    0 <= t < old(store).alerts@.len() ==> (#[trigger] final(store).alerts@[t])
                        == old(store).alerts@[t]
                &&& ({
                    let row = final(store).alerts@[old(store).alerts@.len() as int];
                    &&& row.candid == alert.candid
                    &&& row.object_id == oid
                    &&& row.candidate@ == cand
                    &&& row.ra_minus_180 == ra_minus_180
                    &&& row.dec == alert.candidate.dec
                    &&& row.created_at == now
                    &&& row.updated_at == now
                })
                &&& (r is Ok ==> ({
                    &&& final(store).cutouts@.len() == old(store).cutouts@.len() + 1
                    &&& forall|t: int|
                        0 <= t < old(store).cutouts@.len() ==> (#[trigger] final(store).cutouts@[t]) == old(store).cutouts@[t]
                    &&& ({
                        let crow = final(store).cutouts@[old(store).cutouts@.len() as int];
                        &&& crow.candid == alert.candid
                        &&& Some(crow.cutout_science@) == view_opt_bytes(alert.cutout_science)
                        &&& Some(crow.cutout_template@) == view_opt_bytes(alert.cutout_template)
                        &&& Some(crow.cutout_difference@) == view_opt_bytes(
                            alert.cutout_difference,
                        )
                    })
                    &&& (if has_object(old(store).aux@, oid) {
                        let idx = aux_index_of(old(store).aux@, oid);
                        let arow = old(store).aux@[idx];
                        let nrow = final(store).aux@[idx];
                        &&& final(store).aux@.len() == old(store).aux@.len()
                        &&& forall|t: int|
                            0 <= t < old(store).aux@.len() && t != idx ==> (#[trigger] final(store).aux@[t]) == old(store).aux@[t]
                        &&& nrow.object_id == oid
                        &&& seq_view_dia_source(nrow.prv_candidates@) == add_all_dsv(
                            seq_view_dia_source(arow.prv_candidates@),
                            new_prv,
                        )
                        &&& seq_view_dia_forced_source(nrow.fp_hists@) == add_all_fsv(
                            seq_view_dia_forced_source(arow.fp_hists@),
                            new_fp,
                        )
                        &&& nrow.cross_matches == arow.cross_matches
                        &&& nrow.created_at == arow.created_at
                        &&& nrow.updated_at == now
                    } else {
                        &&& final(store).aux@.len() == old(store).aux@.len() + 1
                        &&& forall|t: int|
                            0 <= t < old(store).aux@.len() ==> (#[trigger] final(store).aux@[t])
                                == old(store).aux@[t]
                        &&& ({
                            let arow = final(store).aux@[old(store).aux@.len() as int];
                            &&& arow.object_id == oid
                            &&& seq_view_dia_source(arow.prv_candidates@) == new_prv
                            &&& seq_view_dia_forced_source(arow.fp_hists@) == new_fp
                            &&& arow.cross_matches == xmatch
                            &&& arow.created_at == now
                            &&& arow.updated_at == now
                            &&& arow.ra_minus_180 == ra_minus_180
                            &&& arow.dec == alert.candidate.dec
                        })
                    })
                }))
            }),
    {
        let ghost a0 = alert;
        let mut alert = alert;
        let candid = alert.candid;
        let prv = alert.prv_candidates;
        alert.prv_candidates = None;
        let fp = alert.fp_hists;
        alert.fp_hists = None;
        let object_id = alert.candidate.object_id.unwrap();
        let dec_bits = alert.candidate.dec;

        let mut candidate = alert.candidate;
        candidate.add_mag_data(candidate_mag);

        // phase one: the primary record, insert-only under a unique key
        let primary = PrimaryRecord {
            candid,
            object_id,
            candidate: candidate.clone(),
            ra_minus_180,
            dec: dec_bits,
            created_at: now,
            updated_at: now,
        };
        match store.insert_alert(primary) {
            Err(_) => {
                return Err(AlertError::AlertExists);
            },
            Ok(_) => {},
        }

        // phase two: the cutout record
        let cutout = CutoutRecord {
            candid,
            cutout_science: alert.cutout_science.unwrap(),
            cutout_template: alert.cutout_template.unwrap(),
            cutout_difference: alert.cutout_difference.unwrap(),
        };
        match store.insert_cutout(cutout) {
            Err(_) => {
                return Err(AlertError::InsertCutoutError);
            },
            Ok(_) => {},
        }

        // phase three: per-object history, created or merged by set union
        let prv_vec = match prv {
            Some(v) => v,
            None => Vec::new(),
        };
        proof {
            assert(seq_view_dia_source(prv_vec@) =~= prv_views(a0));
        }
        let mut new_prv = enrich_ds_vec(prv_vec, prv_mags);
        let ghost before_push = new_prv@;
        new_prv.push(candidate);
        let fp_vec = match fp {
            Some(v) => v,
            None => Vec::new(),
        };
        proof {
            assert(seq_view_dia_forced_source(fp_vec@) =~= fp_views(a0));
        }
        let new_fp = enrich_fs_vec(fp_vec, fp_mags);
        proof {
            assert(candidate@ =~= enriched_ds(a0.candidate@, candidate_mag));
            assert(seq_view_dia_source(new_prv@) =~= seq_view_dia_source(before_push).push(
                candidate@,
            ));
            assert(seq_view_dia_source(new_prv@) == enriched_ds_seq(
                prv_views(a0),
                prv_mags@,
            ).push(enriched_ds(a0.candidate@, candidate_mag)));
            assert(seq_view_dia_forced_source(new_fp@) == enriched_fs_seq(fp_views(a0), fp_mags@));
        }
        if store.aux_exists(object_id) {
            proof {
                lemma_add_all_ds_view(
                    old(store).aux@[aux_index_of(old(store).aux@, object_id)].prv_candidates@,
                    new_prv@,
                );
                lemma_add_all_fs_view(
                    old(store).aux@[aux_index_of(old(store).aux@, object_id)].fp_hists@,
                    new_fp@,
                );
            }
            store.update_aux(object_id, new_prv, new_fp, now);
        } else {
            let aux = AuxRecord {
                object_id,
                prv_candidates: new_prv,
                fp_hists: new_fp,
                cross_matches: xmatch,
                created_at: now,
                updated_at: now,
                ra_minus_180,
                dec: dec_bits,
            };
            match store.insert_aux(aux) {
                Err(_) => {
                    return Err(AlertError::InsertAuxAlertError);
                },
                Ok(_) => {},
            }
        }
        Ok(candid)
    }
}

} // verus!
