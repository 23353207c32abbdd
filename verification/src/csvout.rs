//! Batch aggregation and CSV emission.
//!
//! Per-file outcomes flatten into one aggregate record list, and the list
//! becomes CSV bytes: a fixed header row, then one row per record.  The
//! CSV collaborator encodes each row; the encoded image of a record
//! sequence is a function of the fields alone, so the whole output is
//! pinned by [`csv_of`].

use vstd::prelude::*;
use crate::records::{Purchase, PurchaseView};

verus! {

/// An in-memory CSV writer.  The writer type of the CSV collaborator is
/// generic over an output trait that the verifier does not know, so it is
/// held here behind an opaque struct; [`csv_buf`] names what it has
/// written.
#[verifier::external_body]
pub struct CsvBuffer {
    inner: csv::Writer<Vec<u8>>,
}

/// The CSV-encoded bytes of the records written to a writer so far,
/// including what its internal buffer still holds.
pub uninterp spec fn csv_buf(w: CsvBuffer) -> Seq<u8>;

/// The bytes that encoding one record of the given fields appends: the
/// fields comma-separated, quoted per standard CSV escaping when they need
/// it, and a record terminator.  The encoding depends on the fields alone.
pub uninterp spec fn csv_record_enc(fields: Seq<Seq<char>>) -> Seq<u8>;

/// Relies on `csv::Writer::from_writer` over an in-memory buffer: a fresh
/// writer has written nothing.
#[verifier::external_body]
fn csv_writer_new() -> (w: CsvBuffer)
    ensures
        csv_buf(w) == Seq::<u8>::empty(),
{
    CsvBuffer { inner: csv::Writer::from_writer(Vec::new()) }
}

/// Relies on `csv::Writer::write_record`: appends one encoded record of
/// the three fields.  Every record written here has three fields and the
/// underlying buffer is in memory, so the call does not fail.
#[verifier::external_body]
fn csv_write_record3(w: &mut CsvBuffer, a: &str, b: &str, c: &str)
    ensures
        csv_buf(*final(w)) == csv_buf(*old(w)) + csv_record_enc(seq![a@, b@, c@]),
{
    let _ = w.inner.write_record(&[a, b, c]);
}

/// Relies on `csv::Writer::into_inner`: flushes and hands back the
/// underlying buffer; flushing into an in-memory buffer does not fail.
#[verifier::external_body]
fn csv_into_bytes(w: CsvBuffer) -> (r: Vec<u8>)
    ensures
        r@ == csv_buf(w),
{
    match w.inner.into_inner() {
        Ok(v) => v,
        Err(_) => Vec::new(),
    }
}

/// The fields of the fixed header row.
pub open spec fn header_fields() -> Seq<Seq<char>> {
    seq!["Item"@, "Purchaser"@, "Price"@]
}

/// The fields of one record's row: item name, purchaser, rendered price.
pub open spec fn record_fields(p: PurchaseView) -> Seq<Seq<char>> {
    seq![p.name, p.purchaser, p.price.text]
}

/// The encoded rows of a record sequence, in order.
pub open spec fn rows_enc(records: Seq<PurchaseView>) -> Seq<u8>
    decreases records.len(),
{
    if records.len() == 0 {
        Seq::<u8>::empty()
    } else {
        rows_enc(records.drop_last()) + csv_record_enc(record_fields(records.last()))
    }
}

/// The full CSV image of a record sequence: the header row, then one row
/// per record.
pub open spec fn csv_of(records: Seq<PurchaseView>) -> Seq<u8> {
    csv_record_enc(header_fields()) + rows_enc(records)
}

/// Serializes the aggregate record list as CSV bytes: the header row
/// `Item,Purchaser,Price`, then one row per record, in list order.
pub fn write_purchases(purchases: &Vec<Purchase>) -> (r: Vec<u8>)
    ensures
        r@ == csv_of(purchases.deep_view()),
{
    let mut w = csv_writer_new();
    csv_write_record3(&mut w, "Item", "Purchaser", "Price");
    proof {
        assert(seq!["Item"@, "Purchaser"@, "Price"@] =~= header_fields());
        assert(Seq::<u8>::empty() + csv_record_enc(header_fields()) =~= csv_record_enc(
            header_fields(),
        ));
        assert(purchases.deep_view().take(0) =~= Seq::<PurchaseView>::empty());
        assert(csv_record_enc(header_fields()) + rows_enc(Seq::<PurchaseView>::empty())
            =~= csv_record_enc(header_fields()));
    }
    let n = purchases.len();
    let mut i: usize = 0;
    while i < n
        invariant
            n == purchases@.len(),
            0 <= i <= n,
            csv_buf(w) == csv_record_enc(header_fields()) + rows_enc(
                purchases.deep_view().take(i as int),
            ),
        decreases n - i,
    {
        let p = &purchases[i];
        csv_write_record3(&mut w, p.name.as_str(), p.purchaser.as_str(), p.price.text.as_str());
        proof {
            let dv = purchases.deep_view();
            assert(dv.take(i + 1).drop_last() =~= dv.take(i as int));
            assert(dv.take(i + 1).last() == dv[i as int]);
            assert(seq![p.name@, p.purchaser@, p.price.text@] =~= record_fields(dv[i as int]));
            assert(csv_record_enc(header_fields()) + rows_enc(dv.take(i as int)) + csv_record_enc(
                record_fields(dv[i as int]),
            ) =~= csv_record_enc(header_fields()) + rows_enc(dv.take(i + 1)));
        }
        i += 1;
    }
    proof {
        assert(purchases.deep_view().take(n as int) =~= purchases.deep_view());
    }
    csv_into_bytes(w)
}

/// The aggregate record sequence of a batch: the per-file outcomes
/// flattened in order, with `None` outcomes — files that were no receipts
/// — contributing nothing.
pub open spec fn flatten_outcomes(outcomes: Seq<Option<Seq<PurchaseView>>>) -> Seq<PurchaseView>
    decreases outcomes.len(),
{
    if outcomes.len() == 0 {
        Seq::<PurchaseView>::empty()
    } else {
        flatten_outcomes(outcomes.drop_last()) + (match outcomes.last() {
            Some(v) => v,
            None => Seq::<PurchaseView>::empty(),
        })
    }
}

/// Appends every record of `extra` to `out`, in order.
fn append_records(out: &mut Vec<Purchase>, extra: &Vec<Purchase>)
    ensures
        final(out).deep_view() == old(out).deep_view() + extra.deep_view(),
{
    let n = extra.len();
    proof {
        assert(out.deep_view() + extra.deep_view().take(0) =~= out.deep_view());
    }
    let mut k: usize = 0;
    while k < n
        invariant
            n == extra@.len(),
            0 <= k <= n,
            out.deep_view() == old(out).deep_view() + extra.deep_view().take(k as int),
        decreases n - k,
    {
        let ghost prev = out.deep_view();
        out.push(extra[k].clone());
        proof {
            assert(out.deep_view() =~= prev.push(extra.deep_view()[k as int]));
            assert(prev.push(extra.deep_view()[k as int]) =~= old(out).deep_view()
                + extra.deep_view().take(k + 1));
        }
        k += 1;
    }
    proof {
        assert(extra.deep_view().take(n as int) =~= extra.deep_view());
        assert(out.deep_view() =~= old(out).deep_view() + extra.deep_view());
    }
}

/// Flattens the per-file outcomes of a batch into the aggregate record
/// list, in outcome order, discarding `None` outcomes.
pub fn collect_purchases(outcomes: &Vec<Option<Vec<Purchase>>>) -> (r: Vec<Purchase>)
    ensures
        r.deep_view() == flatten_outcomes(outcomes.deep_view()),
{
    let mut out: Vec<Purchase> = Vec::new();
    let n = outcomes.len();
    proof {
        assert(outcomes.deep_view().take(0) =~= Seq::<Option<Seq<PurchaseView>>>::empty());
    }
    let mut i: usize = 0;
    while i < n
        invariant
            n == outcomes@.len(),
            0 <= i <= n,
            out.deep_view() == flatten_outcomes(outcomes.deep_view().take(i as int)),
        decreases n - i,
    {
        proof {
            let dv = outcomes.deep_view();
            assert(dv.take(i + 1).drop_last() =~= dv.take(i as int));
            assert(dv.take(i + 1).last() == dv[i as int]);
        }
        let ghost before = out.deep_view();
        match &outcomes[i] {
            Some(v) => {
                append_records(&mut out, v);
            },
            None => {
                proof {
                    assert(before + Seq::<PurchaseView>::empty() =~= before);
                }
            },
        }
        proof {
            assert(out.deep_view() =~= flatten_outcomes(outcomes.deep_view().take(i + 1)));
        }
        i += 1;
    }
    proof {
        assert(outcomes.deep_view().take(n as int) =~= outcomes.deep_view());
    }
    out
}

/// The batch output is a function of the extracted records alone: two runs
/// that extract the same records, in the same order, write byte-identical
/// CSV content.
pub proof fn lemma_csv_of_records_alone(a: Seq<PurchaseView>, b: Seq<PurchaseView>)
    requires
        a.len() == b.len(),
        forall|i: int| 0 <= i < a.len() ==> a[i] == b[i],
    ensures
        csv_of(a) == csv_of(b),
{
    assert(a =~= b);
}

/// A batch with no records writes only the header row.
pub proof fn lemma_csv_empty()
    ensures
        csv_of(Seq::<PurchaseView>::empty()) == csv_record_enc(header_fields()),
{
    assert(csv_record_enc(header_fields()) + rows_enc(Seq::<PurchaseView>::empty())
        =~= csv_record_enc(header_fields()));
}

} // verus!
