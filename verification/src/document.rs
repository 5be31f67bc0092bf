//! Storage documents: an ordered key/value tree whose values are scalar
//! primitives, byte buffers, nested documents, or arrays. This is the shape
//! the persistence layer writes; the projection from typed records onto it
//! lives in the projection module.

use vstd::prelude::*;

verus! {

broadcast use vstd::seq::group_seq_axioms;

/// One value of a storage document. Floating-point scalars are carried as raw
/// bit patterns, wide (`Double`) or narrow (`Single`), so their width is kept.
#[derive(Debug)]
pub enum DocValue {
    I32(i32),
    I64(i64),
    Double(u64),
    Single(u32),
    Bool(bool),
    Str(String),
    Bin(Vec<u8>),
    List(Vec<DocValue>),
    Obj(Document),
}

/// An ordered key/value tree. Keys keep their insertion order; absent optional
/// fields are omitted entirely rather than written as explicit nulls.
#[derive(Debug)]
pub struct Document {
    pub pairs: Vec<(String, DocValue)>,
}

/// Mathematical shape of a document value, over sequences.
#[verifier::ext_equal]
pub ghost enum DocValueSpec {
    I32(i32),
    I64(i64),
    Double(u64),
    Single(u32),
    Bool(bool),
    Str(Seq<char>),
    Bin(Seq<u8>),
    List(Seq<DocValueSpec>),
    Obj(Seq<(Seq<char>, DocValueSpec)>),
}

/// View of one document value.
pub open spec fn dv_view(v: DocValue) -> DocValueSpec
    decreases v,
{
    match v {
        DocValue::I32(x) => DocValueSpec::I32(x),
        DocValue::I64(x) => DocValueSpec::I64(x),
        DocValue::Double(x) => DocValueSpec::Double(x),
        DocValue::Single(x) => DocValueSpec::Single(x),
        DocValue::Bool(x) => DocValueSpec::Bool(x),
        DocValue::Str(s) => DocValueSpec::Str(s@),
        DocValue::Bin(b) => DocValueSpec::Bin(b@),
        DocValue::List(items) => DocValueSpec::List(
            Seq::new(
                items@.len(),
                |k: int|
                    if 0 <= k < items@.len() {
                        dv_view(items@[k])
                    } else {
                        DocValueSpec::Bool(false)
                    },
            ),
        ),
        DocValue::Obj(d) => DocValueSpec::Obj(
            Seq::new(
                d.pairs@.len(),
                |k: int|
                    if 0 <= k < d.pairs@.len() {
                        (d.pairs@[k].0@, dv_view(d.pairs@[k].1))
                    } else {
                        (Seq::empty(), DocValueSpec::Bool(false))
                    },
            ),
        ),
    }
}

/// View of a whole document: its ordered pairs, keys as character sequences.
pub open spec fn doc_view(d: Document) -> Seq<(Seq<char>, DocValueSpec)> {
    Seq::new(d.pairs@.len(), |k: int| (d.pairs@[k].0@, dv_view(d.pairs@[k].1)))
}

/// First value stored under `key`, if any: the lookup a reader of the store
/// performs.
pub open spec fn doc_get(pairs: Seq<(Seq<char>, DocValueSpec)>, key: Seq<char>) -> Option<
    DocValueSpec,
>
    decreases pairs.len(),
{
    if pairs.len() == 0 {
        None
    } else if pairs[0].0 == key {
        Some(pairs[0].1)
    } else {
        doc_get(pairs.drop_first(), key)
    }
}

/// The view of a nested document value is the view of the document.
pub proof fn lemma_dv_view_obj(v: DocValue)
    ensures
        v matches DocValue::Obj(d) ==> dv_view(v) == DocValueSpec::Obj(doc_view(d)),
{
    match v {
        DocValue::Obj(d) => {
            assert(dv_view(v) matches DocValueSpec::Obj(p) && p =~= doc_view(d));
        },
        _ => {},
    }
}

/// The view of an array value is the element-wise view of its items.
pub proof fn lemma_dv_view_list(v: DocValue)
    ensures
        v matches DocValue::List(elems) ==> dv_view(v) == DocValueSpec::List(
            elems@.map_values(|x: DocValue| dv_view(x)),
        ),
{
    match v {
        DocValue::List(elems) => {
            assert(dv_view(v) matches DocValueSpec::List(p) && p =~= elems@.map_values(
                |x: DocValue| dv_view(x),
            ));
        },
        _ => {},
    }
}

impl Document {
    /// The empty document.
    pub fn new() -> (r: Document)
        ensures
            doc_view(r) == Seq::<(Seq<char>, DocValueSpec)>::empty(),
    {
        let d = Document { pairs: Vec::new() };
        proof {
            assert(doc_view(d) =~= Seq::<(Seq<char>, DocValueSpec)>::empty());
        }
        d
    }

    /// Appends one pair; every earlier pair keeps its place.
    pub fn push(&mut self, key: &str, value: DocValue)
        ensures
            doc_view(*final(self)) == doc_view(*old(self)).push((key@, dv_view(value))),
    {
        let ghost prev = doc_view(*self);
        self.pairs.push((key.to_owned(), value));
        proof {
            assert(doc_view(*self) =~= prev.push((key@, dv_view(value))));
        }
    }
}

} // verus!
