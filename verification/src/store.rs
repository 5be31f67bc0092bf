//! In-memory model of the document store: the three collections one stream
//! writes, with the semantics the persistence protocol relies on. The primary
//! and cutout collections are insert-only with a unique key, so a duplicate
//! insertion is a defined failure; the auxiliary collection supports
//! element-wise set union into its history arrays, which makes merging
//! idempotent. The driver around the library performs the same operations
//! against the real store with the documents the projection module builds.

use vstd::prelude::*;

verus! {

use crate::document::Document;
use crate::model::{
    DiaSource,
    DiaSourceSpec,
    DiaForcedSource,
    DiaForcedSourceSpec,
    seq_view_dia_source,
    seq_view_dia_forced_source,
};
use crate::mongify::{dia_source_eq, dia_forced_source_eq};

broadcast use vstd::seq::group_seq_axioms;

/// A row of the primary collection. `ra_minus_180` holds the shifted right
/// ascension (`ra - 180.0`, computed by the caller on the raw values); both
/// timestamps are set to the capture instant of the call.
#[derive(Debug, Clone)]
pub struct PrimaryRecord {
    pub candid: i64,
    pub object_id: i64,
    pub candidate: DiaSource,
    pub ra_minus_180: u64,
    pub dec: u64,
    pub created_at: u64,
    pub updated_at: u64,
}

/// A row of the cutout collection.
#[derive(Debug, Clone)]
pub struct CutoutRecord {
    pub candid: i64,
    pub cutout_science: Vec<u8>,
    pub cutout_template: Vec<u8>,
    pub cutout_difference: Vec<u8>,
}

/// A row of the auxiliary collection: per-object history, keyed by object.
#[derive(Debug)]
pub struct AuxRecord {
    pub object_id: i64,
    pub prv_candidates: Vec<DiaSource>,
    pub fp_hists: Vec<DiaForcedSource>,
    pub cross_matches: Document,
    pub created_at: u64,
    pub updated_at: u64,
    pub ra_minus_180: u64,
    pub dec: u64,
}

/// The three collections of one stream.
#[derive(Debug)]
pub struct AlertStore {
    pub alerts: Vec<PrimaryRecord>,
    pub cutouts: Vec<CutoutRecord>,
    pub aux: Vec<AuxRecord>,
}

/// Whether the primary collection holds a row under this key.
pub open spec fn has_candid(rows: Seq<PrimaryRecord>, candid: i64) -> bool {
    exists|k: int| 0 <= k < rows.len() && rows[k].candid == candid
}

/// Whether the cutout collection holds a row under this key.
pub open spec fn has_cutout(rows: Seq<CutoutRecord>, candid: i64) -> bool {
    exists|k: int| 0 <= k < rows.len() && rows[k].candid == candid
}

/// Whether the auxiliary collection holds a row for this object.
pub open spec fn has_object(rows: Seq<AuxRecord>, object_id: i64) -> bool {
    exists|k: int| 0 <= k < rows.len() && rows[k].object_id == object_id
}

/// The row index of an object, meaningful under the key-uniqueness invariant.
pub open spec fn aux_index_of(rows: Seq<AuxRecord>, object_id: i64) -> int {
    choose|k: int| 0 <= k < rows.len() && rows[k].object_id == object_id
}

/// Key uniqueness of all three collections: what the unique index of the real
/// store enforces, and what turns a duplicate insert into a defined failure.
pub open spec fn wf_alert_store(s: AlertStore) -> bool {
    &&& forall|k1: int, k2: int|
        0 <= k1 < k2 < s.alerts@.len() ==> (#[trigger] s.alerts@[k1]).candid != (
        #[trigger] s.alerts@[k2]).candid
    &&& forall|k1: int, k2: int|
        0 <= k1 < k2 < s.cutouts@.len() ==> (#[trigger] s.cutouts@[k1]).candid != (
        #[trigger] s.cutouts@[k2]).candid
    &&& forall|k1: int, k2: int|
        0 <= k1 < k2 < s.aux@.len() ==> (#[trigger] s.aux@[k1]).object_id != (
        #[trigger] s.aux@[k2]).object_id
}

/// Whether a detection equal to `x` (by view) already sits in `rows`.
pub open spec fn contains_ds(rows: Seq<DiaSource>, x: DiaSource) -> bool {
    exists|k: int| 0 <= k < rows.len() && rows[k]@ == x@
}

/// Set union of one element into a detection history: the array grows only if
/// no deeply-equal element is present.
pub open spec fn add_one_ds(rows: Seq<DiaSource>, x: DiaSource) -> Seq<DiaSource> {
    if contains_ds(rows, x) {
        rows
    } else {
        rows.push(x)
    }
}

/// Element-wise set union, left to right.
pub open spec fn add_all_ds(rows: Seq<DiaSource>, items: Seq<DiaSource>) -> Seq<DiaSource>
    decreases items.len(),
{
    if items.len() == 0 {
        rows
    } else {
        add_all_ds(add_one_ds(rows, items[0]), items.drop_first())
    }
}

pub open spec fn contains_fs(rows: Seq<DiaForcedSource>, x: DiaForcedSource) -> bool {
    exists|k: int| 0 <= k < rows.len() && rows[k]@ == x@
}

pub open spec fn add_one_fs(rows: Seq<DiaForcedSource>, x: DiaForcedSource) -> Seq<
    DiaForcedSource,
> {
    if contains_fs(rows, x) {
        rows
    } else {
        rows.push(x)
    }
}

pub open spec fn add_all_fs(rows: Seq<DiaForcedSource>, items: Seq<DiaForcedSource>) -> Seq<
    DiaForcedSource,
>
    decreases items.len(),
{
    if items.len() == 0 {
        rows
    } else {
        add_all_fs(add_one_fs(rows, items[0]), items.drop_first())
    }
}

/// View-level mirror of the union: what the contracts of the persistence
/// protocol are stated over.
pub open spec fn contains_dsv(rows: Seq<DiaSourceSpec>, x: DiaSourceSpec) -> bool {
    exists|k: int| 0 <= k < rows.len() && rows[k] == x
}

pub open spec fn add_one_dsv(rows: Seq<DiaSourceSpec>, x: DiaSourceSpec) -> Seq<DiaSourceSpec> {
    if contains_dsv(rows, x) {
        rows
    } else {
        rows.push(x)
    }
}

pub open spec fn add_all_dsv(rows: Seq<DiaSourceSpec>, items: Seq<DiaSourceSpec>) -> Seq<
    DiaSourceSpec,
>
    decreases items.len(),
{
    if items.len() == 0 {
        rows
    } else {
        add_all_dsv(add_one_dsv(rows, items[0]), items.drop_first())
    }
}

pub open spec fn contains_fsv(rows: Seq<DiaForcedSourceSpec>, x: DiaForcedSourceSpec) -> bool {
    exists|k: int| 0 <= k < rows.len() && rows[k] == x
}

pub open spec fn add_one_fsv(rows: Seq<DiaForcedSourceSpec>, x: DiaForcedSourceSpec) -> Seq<
    DiaForcedSourceSpec,
> {
    if contains_fsv(rows, x) {
        rows
    } else {
        rows.push(x)
    }
}

pub open spec fn add_all_fsv(
    rows: Seq<DiaForcedSourceSpec>,
    items: Seq<DiaForcedSourceSpec>,
) -> Seq<DiaForcedSourceSpec>
    decreases items.len(),
{
    if items.len() == 0 {
        rows
    } else {
        add_all_fsv(add_one_fsv(rows, items[0]), items.drop_first())
    }
}

/// The union of stored rows mirrors the union of their views exactly.
pub proof fn lemma_add_all_ds_view(rows: Seq<DiaSource>, items: Seq<DiaSource>)
    ensures
        seq_view_dia_source(add_all_ds(rows, items)) == add_all_dsv(
            seq_view_dia_source(rows),
            seq_view_dia_source(items),
        ),
    decreases items.len(),
{
    if items.len() > 0 {
        assert(contains_ds(rows, items[0]) == contains_dsv(
            seq_view_dia_source(rows),
            items[0]@,
        )) by {
            if contains_ds(rows, items[0]) {
                let k = choose|k: int| 0 <= k < rows.len() && rows[k]@ == items[0]@;
                assert(seq_view_dia_source(rows)[k] == items[0]@);
            }
            if contains_dsv(seq_view_dia_source(rows), items[0]@) {
                let k = choose|k: int|
                    0 <= k < rows.len() && seq_view_dia_source(rows)[k] == items[0]@;
                assert(rows[k]@ == items[0]@);
            }
        }
        assert(seq_view_dia_source(rows.push(items[0])) =~= seq_view_dia_source(rows).push(
            items[0]@,
        ));
        assert(seq_view_dia_source(add_one_ds(rows, items[0])) =~= add_one_dsv(
            seq_view_dia_source(rows),
            items[0]@,
        ));
        assert(seq_view_dia_source(items.drop_first()) =~= seq_view_dia_source(
            items,
        ).drop_first());
        assert(seq_view_dia_source(items)[0] == items[0]@);
        lemma_add_all_ds_view(add_one_ds(rows, items[0]), items.drop_first());
    }
}

pub proof fn lemma_add_all_fs_view(rows: Seq<DiaForcedSource>, items: Seq<DiaForcedSource>)
    ensures
        seq_view_dia_forced_source(add_all_fs(rows, items)) == add_all_fsv(
            seq_view_dia_forced_source(rows),
            seq_view_dia_forced_source(items),
        ),
    decreases items.len(),
{
    if items.len() > 0 {
        assert(contains_fs(rows, items[0]) == contains_fsv(
            seq_view_dia_forced_source(rows),
            items[0]@,
        )) by {
            if contains_fs(rows, items[0]) {
                let k = choose|k: int| 0 <= k < rows.len() && rows[k]@ == items[0]@;
                assert(seq_view_dia_forced_source(rows)[k] == items[0]@);
            }
            if contains_fsv(seq_view_dia_forced_source(rows), items[0]@) {
                let k = choose|k: int|
                    0 <= k < rows.len() && seq_view_dia_forced_source(rows)[k] == items[0]@;
                assert(rows[k]@ == items[0]@);
            }
        }
        assert(seq_view_dia_forced_source(rows.push(items[0])) =~= seq_view_dia_forced_source(
            rows,
        ).push(items[0]@));
        assert(seq_view_dia_forced_source(add_one_fs(rows, items[0])) =~= add_one_fsv(
            seq_view_dia_forced_source(rows),
            items[0]@,
        ));
        assert(seq_view_dia_forced_source(items.drop_first()) =~= seq_view_dia_forced_source(
            items,
        ).drop_first());
        assert(seq_view_dia_forced_source(items)[0] == items[0]@);
        lemma_add_all_fs_view(add_one_fs(rows, items[0]), items.drop_first());
    }
}

/// A set union adds nothing when every incoming element is already present:
/// replaying a packet leaves the history arrays exactly as they were.
pub proof fn lemma_add_all_dsv_idempotent(rows: Seq<DiaSourceSpec>, items: Seq<DiaSourceSpec>)
    requires
        forall|k: int| 0 <= k < items.len() ==> contains_dsv(rows, #[trigger] items[k]),
    ensures
        add_all_dsv(rows, items) == rows,
    decreases items.len(),
{
    if items.len() > 0 {
        assert(contains_dsv(rows, items[0]));
        assert(forall|k: int|
            0 <= k < items.drop_first().len() ==> #[trigger] items.drop_first()[k] == items[k
                + 1]);
        lemma_add_all_dsv_idempotent(rows, items.drop_first());
    }
}

pub proof fn lemma_add_all_fsv_idempotent(
    rows: Seq<DiaForcedSourceSpec>,
    items: Seq<DiaForcedSourceSpec>,
)
    requires
        forall|k: int| 0 <= k < items.len() ==> contains_fsv(rows, #[trigger] items[k]),
    ensures
        add_all_fsv(rows, items) == rows,
    decreases items.len(),
{
    if items.len() > 0 {
        assert(contains_fsv(rows, items[0]));
        assert(forall|k: int|
            0 <= k < items.drop_first().len() ==> #[trigger] items.drop_first()[k] == items[k
                + 1]);
        lemma_add_all_fsv_idempotent(rows, items.drop_first());
    }
}

/// Unions at the tail commute with peeling one element: the step the merge
/// loops rest on.
pub proof fn lemma_add_all_ds_snoc(rows: Seq<DiaSource>, items: Seq<DiaSource>, x: DiaSource)
    ensures
        add_all_ds(rows, items.push(x)) == add_one_ds(add_all_ds(rows, items), x),
    decreases items.len(),
{
    if items.len() == 0 {
        assert(items.push(x)[0] == x);
        assert(items.push(x).drop_first() =~= Seq::<DiaSource>::empty());
        assert(add_all_ds(add_one_ds(rows, x), Seq::empty()) == add_one_ds(rows, x));
    } else {
        assert(items.push(x)[0] == items[0]);
        assert(items.push(x).drop_first() =~= items.drop_first().push(x));
        lemma_add_all_ds_snoc(add_one_ds(rows, items[0]), items.drop_first(), x);
        assert(add_all_ds(rows, items) == add_all_ds(
            add_one_ds(rows, items[0]),
            items.drop_first(),
        ));
    }
}

pub proof fn lemma_add_all_fs_snoc(
    rows: Seq<DiaForcedSource>,
    items: Seq<DiaForcedSource>,
    x: DiaForcedSource,
)
    ensures
        add_all_fs(rows, items.push(x)) == add_one_fs(add_all_fs(rows, items), x),
    decreases items.len(),
{
    if items.len() == 0 {
        assert(items.push(x)[0] == x);
        assert(items.push(x).drop_first() =~= Seq::<DiaForcedSource>::empty());
        assert(add_all_fs(add_one_fs(rows, x), Seq::empty()) == add_one_fs(rows, x));
    } else {
        assert(items.push(x)[0] == items[0]);
        assert(items.push(x).drop_first() =~= items.drop_first().push(x));
        lemma_add_all_fs_snoc(add_one_fs(rows, items[0]), items.drop_first(), x);
        assert(add_all_fs(rows, items) == add_all_fs(
            add_one_fs(rows, items[0]),
            items.drop_first(),
        ));
    }
}

/// Performs the set union of `items` into `rows`, in order.
pub fn add_to_set_ds(rows: &mut Vec<DiaSource>, items: Vec<DiaSource>)
    ensures
        final(rows)@ == add_all_ds(old(rows)@, items@),
{
    let ghost orig = rows@;
    let ghost all = items@;
    let mut src = items;
    let n = src.len();
    let mut k: usize = 0;
    proof {
        assert(all.take(0) =~= Seq::<DiaSource>::empty());
    }
    while k < n
        invariant
            k <= n == all.len(),
            src@ == all.skip(k as int),
            rows@ == add_all_ds(orig, all.take(k as int)),
        decreases n - k,
    {
        let x = src.remove(0);
        proof {
            assert(all.skip(k as int)[0] == all[k as int]);
            assert(all.skip(k as int).skip(1) =~= all.skip(k + 1 as int));
        }
        let ghost before = rows@;
        let mut found = false;
        let m = rows.len();
        let mut j: usize = 0;
        while j < m
            invariant
                j <= m == rows@.len(),
                rows@ == before,
                found == exists|t: int| 0 <= t < j && rows@[t]@ == x@,
            decreases m - j,
        {
            if dia_source_eq(&rows[j], &x) {
                found = true;
            }
            j = j + 1;
        }
        if !found {
            rows.push(x);
        }
        proof {
            assert(all.take(k + 1 as int) =~= all.take(k as int).push(all[k as int]));
            lemma_add_all_ds_snoc(orig, all.take(k as int), all[k as int]);
        }
        k = k + 1;
    }
    proof {
        assert(all.take(n as int) =~= all);
    }
}

/// Performs the set union of `items` into `rows`, in order.
pub fn add_to_set_fs(rows: &mut Vec<DiaForcedSource>, items: Vec<DiaForcedSource>)
    ensures
        final(rows)@ == add_all_fs(old(rows)@, items@),
{
    let ghost orig = rows@;
    let ghost all = items@;
    let mut src = items;
    let n = src.len();
    let mut k: usize = 0;
    proof {
        assert(all.take(0) =~= Seq::<DiaForcedSource>::empty());
    }
    while k < n
        invariant
            k <= n == all.len(),
            src@ == all.skip(k as int),
            rows@ == add_all_fs(orig, all.take(k as int)),
        decreases n - k,
    {
        let x = src.remove(0);
        proof {
            assert(all.skip(k as int)[0] == all[k as int]);
            assert(all.skip(k as int).skip(1) =~= all.skip(k + 1 as int));
        }
        let ghost before = rows@;
        let mut found = false;
        let m = rows.len();
        let mut j: usize = 0;
        while j < m
            invariant
                j <= m == rows@.len(),
                rows@ == before,
                found == exists|t: int| 0 <= t < j && rows@[t]@ == x@,
            decreases m - j,
        {
            if dia_forced_source_eq(&rows[j], &x) {
                found = true;
            }
            j = j + 1;
        }
        if !found {
            rows.push(x);
        }
        proof {
            assert(all.take(k + 1 as int) =~= all.take(k as int).push(all[k as int]));
            lemma_add_all_fs_snoc(orig, all.take(k as int), all[k as int]);
        }
        k = k + 1;
    }
    proof {
        assert(all.take(n as int) =~= all);
    }
}

impl AlertStore {
    /// Three empty collections.
    pub fn new() -> (r: AlertStore)
        ensures
            r.alerts@.len() == 0,
            r.cutouts@.len() == 0,
            r.aux@.len() == 0,
            wf_alert_store(r),
    {
        AlertStore { alerts: Vec::new(), cutouts: Vec::new(), aux: Vec::new() }
    }

    /// Whether the primary collection holds this key.
    pub fn alert_exists(&self, candid: i64) -> (r: bool)
        ensures
            r == has_candid(self.alerts@, candid),
    {
        let n = self.alerts.len();
        let mut k: usize = 0;
        while k < n
            invariant
                k <= n == self.alerts@.len(),
                forall|t: int| 0 <= t < k ==> (#[trigger] self.alerts@[t]).candid != candid,
            decreases n - k,
        {
            if self.alerts[k].candid == candid {
                return true;
            }
            k = k + 1;
        }
        false
    }

    /// Inserts into the primary collection; a duplicate key is a defined
    /// failure and leaves the store untouched.
    pub fn insert_alert(&mut self, rec: PrimaryRecord) -> (r: Result<(), ()>)
        requires
            wf_alert_store(*old(self)),
        ensures
            wf_alert_store(*final(self)),
            has_candid(old(self).alerts@, rec.candid) ==> r is Err && *final(self) == *old(self),
            !has_candid(old(self).alerts@, rec.candid) ==> r is Ok && final(self).alerts@ == old(self).alerts@.push(rec) && final(self).cutouts@ == old(self).cutouts@ && final(self).aux@
                == old(self).aux@,
    {
        if self.alert_exists(rec.candid) {
            return Err(());
        }
        self.alerts.push(rec);
        Ok(())
    }

    /// Whether the cutout collection holds this key.
    pub fn cutout_exists(&self, candid: i64) -> (r: bool)
        ensures
            r == has_cutout(self.cutouts@, candid),
    {
        let n = self.cutouts.len();
        let mut k: usize = 0;
        while k < n
            invariant
                k <= n == self.cutouts@.len(),
                forall|t: int| 0 <= t < k ==> (#[trigger] self.cutouts@[t]).candid != candid,
            decreases n - k,
        {
            if self.cutouts[k].candid == candid {
                return true;
            }
            k = k + 1;
        }
        false
    }

    /// Inserts into the cutout collection; a duplicate key is a failure.
    pub fn insert_cutout(&mut self, rec: CutoutRecord) -> (r: Result<(), ()>)
        requires
            wf_alert_store(*old(self)),
        ensures
            wf_alert_store(*final(self)),
            has_cutout(old(self).cutouts@, rec.candid) ==> r is Err && *final(self) == *old(self),
            !has_cutout(old(self).cutouts@, rec.candid) ==> r is Ok && final(self).cutouts@ == old(self).cutouts@.push(rec) && final(self).alerts@ == old(self).alerts@ && final(self).aux@
                == old(self).aux@,
    {
        if self.cutout_exists(rec.candid) {
            return Err(());
        }
        self.cutouts.push(rec);
        Ok(())
    }

    /// Whether the auxiliary collection holds a row for this object.
    pub fn aux_exists(&self, object_id: i64) -> (r: bool)
        ensures
            r == has_object(self.aux@, object_id),
    {
        let n = self.aux.len();
        let mut k: usize = 0;
        while k < n
            invariant
                k <= n == self.aux@.len(),
                forall|t: int| 0 <= t < k ==> (#[trigger] self.aux@[t]).object_id != object_id,
            decreases n - k,
        {
            if self.aux[k].object_id == object_id {
                return true;
            }
            k = k + 1;
        }
        false
    }

    /// Inserts the first auxiliary row of an object.
    pub fn insert_aux(&mut self, rec: AuxRecord) -> (r: Result<(), ()>)
        requires
            wf_alert_store(*old(self)),
        ensures
            wf_alert_store(*final(self)),
            has_object(old(self).aux@, rec.object_id) ==> r is Err && *final(self) == *old(self),
            !has_object(old(self).aux@, rec.object_id) ==> r is Ok && final(self).aux@ == old(self).aux@.push(rec) && final(self).alerts@ == old(self).alerts@ && final(self).cutouts@
                == old(self).cutouts@,
    {
        if self.aux_exists(rec.object_id) {
            return Err(());
        }
        self.aux.push(rec);
        Ok(())
    }

    /// Merges new history into the existing auxiliary row of an object:
    /// element-wise set union into both arrays and a touch of the update
    /// timestamp. Everything else of the row, and every other row, is kept.
    pub fn update_aux(
        &mut self,
        object_id: i64,
        prv_candidates: Vec<DiaSource>,
        fp_hists: Vec<DiaForcedSource>,
        now: u64,
    )
        requires
            wf_alert_store(*old(self)),
            has_object(old(self).aux@, object_id),
        ensures
            wf_alert_store(*final(self)),
            final(self).alerts@ == old(self).alerts@,
            final(self).cutouts@ == old(self).cutouts@,
            final(self).aux@.len() == old(self).aux@.len(),
            ({
                let idx = aux_index_of(old(self).aux@, object_id);
                let row = old(self).aux@[idx];
                let new_row = final(self).aux@[idx];
                &&& forall|t: int|
                    0 <= t < old(self).aux@.len() && t != idx ==> (#[trigger] final(self).aux@[t]) == old(self).aux@[t]
                &&& new_row.object_id == row.object_id
                &&& new_row.prv_candidates@ == add_all_ds(row.prv_candidates@, prv_candidates@)
                &&& new_row.fp_hists@ == add_all_fs(row.fp_hists@, fp_hists@)
                &&& new_row.cross_matches == row.cross_matches
                &&& new_row.created_at == row.created_at
                &&& new_row.updated_at == now
                &&& new_row.ra_minus_180 == row.ra_minus_180
                &&& new_row.dec == row.dec
            }),
    {
        let ghost oldaux = self.aux@;
        let ghost idx = aux_index_of(self.aux@, object_id);
        proof {
            assert(0 <= idx < oldaux.len() && oldaux[idx].object_id == object_id);
        }
        let n = self.aux.len();
        let mut k: usize = 0;
        while k < n && self.aux[k].object_id != object_id
            invariant
                k <= n == self.aux@.len(),
                self.aux@ == oldaux,
                forall|t: int| 0 <= t < k ==> (#[trigger] oldaux[t]).object_id != object_id,
            decreases n - k,
        {
            k = k + 1;
        }
        proof {
            assert(k < n);
            assert(oldaux[k as int].object_id == object_id);
            assert(k as int == idx);
        }
        let mut row = self.aux.remove(k);
        add_to_set_ds(&mut row.prv_candidates, prv_candidates);
        add_to_set_fs(&mut row.fp_hists, fp_hists);
        row.updated_at = now;
        self.aux.insert(k, row);
        proof {
            assert(oldaux.remove(idx).len() == oldaux.len() - 1);
            assert forall|t: int|
                0 <= t < oldaux.len() && t != idx implies self.aux@[t] == oldaux[t] by {
                if t < idx {
                    assert(oldaux.remove(idx)[t] == oldaux[t]);
                } else {
                    assert(oldaux.remove(idx)[t - 1] == oldaux[t]);
                }
            }
        }
    }
}

} // verus!
