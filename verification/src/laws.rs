//! The general laws of the store, proved over the same models its
//! contracts use: what a fresh insertion does to `list`'s order, that
//! deleting an absent id changes nothing, how `list` and the CSV export
//! order the same records, and that every listed record stands in the
//! export with its exact field values.

use vstd::prelude::*;

use crate::csvfmt::{
    csv_field, csv_field_decoded, csv_fields_joined, csv_row, lemma_csv_field_lossless,
    needs_quoting,
};
use crate::records::{ids_below, rows_ascending, Rec};
use crate::store::{csv_body, csv_export, csv_header_fields, rec_fields};

verus! {

/// After adding one record whose id is larger than every current one —
/// what `add` guarantees of the id it assigns — `list` (newest id first)
/// shows the new record first, then the old records in their old order,
/// and the new id was not previously in use.
pub proof fn lemma_add_then_list(rows: Seq<Rec>, rec: Rec)
    requires
        forall|q: int| 0 <= q < rows.len() ==> rows[q].0 < rec.0,
    ensures
        rows.push(rec).reverse().len() == rows.len() + 1,
        rows.push(rec).reverse()[0] == rec,
        forall|q: int|
            0 <= q < rows.len() ==> rows.push(rec).reverse()[q + 1] == rows.reverse()[q],
        forall|q: int| 0 <= q < rows.len() ==> rows[q].0 != rec.0,
{
    assert(rows.push(rec).reverse() =~= seq![rec] + rows.reverse());
    assert forall|q: int| 0 <= q < rows.len() implies rows.push(rec).reverse()[q + 1]
        == rows.reverse()[q] by {
        assert((seq![rec] + rows.reverse())[q + 1] == rows.reverse()[q]);
    }
}

/// With the rows strictly ascending by id — the store's invariant —
/// `list`'s newest-first sequence is strictly descending by id, and the
/// export's ascending sequence is the rows themselves.
pub proof fn lemma_list_strictly_descending(rows: Seq<Rec>)
    requires
        rows_ascending(rows),
    ensures
        forall|i: int, j: int|
            0 <= i < j < rows.len() ==> rows.reverse()[i].0 > rows.reverse()[j].0,
{
    assert forall|i: int, j: int| 0 <= i < j < rows.len() implies rows.reverse()[i].0
        > rows.reverse()[j].0 by {
        assert(rows.reverse()[i] == rows[rows.len() - 1 - i]);
        assert(rows.reverse()[j] == rows[rows.len() - 1 - j]);
    }
}

/// An id above the watermark — as each fresh insertion's id is — was
/// never assigned: it differs from the id of every record the watermark
/// bounds.
pub proof fn lemma_fresh_id_unused(rows: Seq<Rec>, w: int, id: int)
    requires
        ids_below(rows, w),
        id > w,
    ensures
        forall|q: int| 0 <= q < rows.len() ==> rows[q].0 != id,
{
}

/// Deleting an id that no record carries filters nothing out: the record
/// set is left exactly as it was.
pub proof fn lemma_delete_absent(rows: Seq<Rec>, id: int)
    requires
        forall|q: int| 0 <= q < rows.len() ==> rows[q].0 != id,
    ensures
        rows.filter(|rec: Rec| rec.0 != id) == rows,
    decreases rows.len(),
{
    reveal(Seq::filter);
    let pred = |rec: Rec| rec.0 != id;
    if rows.len() == 0 {
        assert(rows.filter(pred) =~= rows);
    } else {
        lemma_delete_absent(rows.drop_last(), id);
        assert(rows[rows.len() - 1].0 != id);
        assert(pred(rows.last()));
        assert(rows.filter(pred) == rows.drop_last().filter(pred).push(rows.last()));
        assert(rows.drop_last().push(rows.last()) =~= rows);
    }
}

/// Records appended in the order a, b, c — as three `add` calls append
/// them — come back from `list` as [c, b, a] before the older records,
/// while the export body renders the older records and then a, b, c, in
/// that order.
pub proof fn lemma_insertion_orders(rows: Seq<Rec>, a: Rec, b: Rec, c: Rec)
    ensures
        rows.push(a).push(b).push(c).reverse() == seq![c, b, a] + rows.reverse(),
        csv_body(rows.push(a).push(b).push(c)) == csv_body(rows) + csv_row(rec_fields(a))
            + csv_row(rec_fields(b)) + csv_row(rec_fields(c)),
{
    assert(rows.push(a).push(b).push(c).reverse() =~= seq![c, b, a] + rows.reverse());
    let r1 = rows.push(a);
    let r2 = r1.push(b);
    let r3 = r2.push(c);
    assert(r3.drop_last() =~= r2);
    assert(csv_body(r3) == csv_body(r2) + csv_row(rec_fields(c)));
    assert(r2.drop_last() =~= r1);
    assert(csv_body(r2) == csv_body(r1) + csv_row(rec_fields(b)));
    assert(r1.drop_last() =~= rows);
    assert(csv_body(r1) == csv_body(rows) + csv_row(rec_fields(a)));
    assert(csv_body(r3) =~= csv_body(rows) + csv_row(rec_fields(a)) + csv_row(rec_fields(b))
        + csv_row(rec_fields(c)));
}

/// The export body splits around any one record: row `p` of the body is
/// exactly the CSV row of record `p`.
pub proof fn lemma_csv_body_decompose(rows: Seq<Rec>, p: int)
    requires
        0 <= p < rows.len(),
    ensures
        csv_body(rows) == csv_body(rows.subrange(0, p)) + csv_row(rec_fields(rows[p]))
            + csv_body(rows.subrange(p + 1, rows.len() as int)),
    decreases rows.len(),
{
    if p == rows.len() - 1 {
        assert(rows.drop_last() =~= rows.subrange(0, p));
        assert(rows.subrange(p + 1, rows.len() as int) =~= Seq::<Rec>::empty());
        assert(csv_body(rows.subrange(p + 1, rows.len() as int)) == Seq::<char>::empty());
        assert(csv_body(rows) =~= csv_body(rows.subrange(0, p)) + csv_row(rec_fields(rows[p]))
            + csv_body(rows.subrange(p + 1, rows.len() as int)));
    } else {
        let front = rows.drop_last();
        lemma_csv_body_decompose(front, p);
        assert(front.subrange(0, p) =~= rows.subrange(0, p));
        assert(rows.subrange(p + 1, rows.len() as int).drop_last() =~= front.subrange(
            p + 1,
            front.len() as int,
        ));
        assert(rows.subrange(p + 1, rows.len() as int).last() == rows.last());
        assert(rows.subrange(p + 1, rows.len() as int).len() > 0);
        assert(csv_body(rows) =~= csv_body(rows.subrange(0, p)) + csv_row(rec_fields(rows[p]))
            + csv_body(rows.subrange(p + 1, rows.len() as int)));
    }
}

/// None of the header fields needs quoting, so the export's header row is
/// exactly the text `id,first,surname,phone,created_at` followed by a
/// newline.
pub proof fn lemma_header_row_text()
    ensures
        csv_row(csv_header_fields()) == "id,first,surname,phone,created_at\n"@,
{
    reveal_strlit("id");
    reveal_strlit("first");
    reveal_strlit("surname");
    reveal_strlit("phone");
    reveal_strlit("created_at");
    reveal_strlit("id,first,surname,phone,created_at\n");
    assert(!needs_quoting("id"@));
    assert(!needs_quoting("first"@));
    assert(!needs_quoting("surname"@));
    assert(!needs_quoting("phone"@));
    assert(!needs_quoting("created_at"@));
    let hf = csv_header_fields();
    let h1 = seq!["id"@];
    let h2 = seq!["id"@, "first"@];
    let h3 = seq!["id"@, "first"@, "surname"@];
    let h4 = seq!["id"@, "first"@, "surname"@, "phone"@];
    assert(csv_fields_joined(h1) == "id"@);
    assert(h2.drop_last() =~= h1 && h2.last() == "first"@);
    assert(csv_fields_joined(h2) == csv_fields_joined(h1) + seq![','] + "first"@);
    assert(h3.drop_last() =~= h2 && h3.last() == "surname"@);
    assert(csv_fields_joined(h3) == csv_fields_joined(h2) + seq![','] + "surname"@);
    assert(h4.drop_last() =~= h3 && h4.last() == "phone"@);
    assert(csv_fields_joined(h4) == csv_fields_joined(h3) + seq![','] + "phone"@);
    assert(hf.drop_last() =~= h4 && hf.last() == "created_at"@);
    assert(csv_fields_joined(hf) == csv_fields_joined(h4) + seq![','] + "created_at"@);
    assert(csv_row(hf) =~= "id,first,surname,phone,created_at\n"@);
}

/// Every record `list` shows appears as a row of the CSV export with its
/// exact field values: the record at position q of `list`'s newest-first
/// sequence is data row `len - 1 - q` of the export, and decoding each of
/// its encoded fields gives the field's text back unchanged.
pub proof fn lemma_list_export_round_trip(rows: Seq<Rec>, q: int)
    requires
        0 <= q < rows.len(),
    ensures
        csv_export(rows) == csv_row(csv_header_fields()) + csv_body(
            rows.subrange(0, rows.len() - 1 - q),
        ) + csv_row(rec_fields(rows.reverse()[q])) + csv_body(
            rows.subrange(rows.len() - q, rows.len() as int),
        ),
        forall|j: int|
            0 <= j < 5 ==> csv_field_decoded(
                #[trigger] csv_field(rec_fields(rows.reverse()[q])[j]),
            ) == rec_fields(rows.reverse()[q])[j],
{
    let p = rows.len() - 1 - q;
    assert(rows.reverse()[q] == rows[p]);
    lemma_csv_body_decompose(rows, p);
    let rec = rows[p];
    assert forall|j: int| 0 <= j < 5 implies csv_field_decoded(
        #[trigger] csv_field(rec_fields(rec)[j]),
    ) == rec_fields(rec)[j] by {
        lemma_csv_field_lossless(rec_fields(rec)[j]);
    }
}

} // verus!
