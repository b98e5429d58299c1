//! The registration record and its mathematical model.

use vstd::prelude::*;

verus! {

/// The model of one stored row: id, first name, surname, phone and
/// creation timestamp, as plain mathematical values.
pub type Rec = (int, Seq<char>, Seq<char>, Seq<char>, Seq<char>);

/// One person's registration record as the store hands it out.
pub struct Registration {
    /// The store-assigned, unique identifier.
    pub id: i64,
    /// First name, stored trimmed and non-empty.
    pub first: String,
    /// Surname, stored trimmed and non-empty.
    pub surname: String,
    /// Phone, stored trimmed and non-empty.
    pub phone: String,
    /// Timestamp text the store set at insertion.
    pub created_at: String,
}

impl View for Registration {
    type V = Rec;

    open spec fn view(&self) -> Rec {
        (self.id as int, self.first@, self.surname@, self.phone@, self.created_at@)
    }
}

/// The models of a sequence of records, in order.
pub open spec fn rec_models(s: Seq<Registration>) -> Seq<Rec> {
    Seq::new(s.len(), |i: int| s[i]@)
}

/// Whether the rows stand in strictly ascending id order.
pub open spec fn rows_ascending(rows: Seq<Rec>) -> bool {
    forall|i: int, j: int| 0 <= i < j < rows.len() ==> rows[i].0 < rows[j].0
}

/// Whether every row's id is at most `w`.
pub open spec fn ids_below(rows: Seq<Rec>, w: int) -> bool {
    forall|q: int| 0 <= q < rows.len() ==> rows[q].0 <= w
}

/// Appending a record whose id is larger than every current one keeps
/// the rows strictly ascending.
pub proof fn lemma_ascending_push(rows: Seq<Rec>, rec: Rec)
    requires
        rows_ascending(rows),
        forall|q: int| 0 <= q < rows.len() ==> rows[q].0 < rec.0,
    ensures
        rows_ascending(rows.push(rec)),
{
    let pushed = rows.push(rec);
    assert forall|i: int, j: int| 0 <= i < j < pushed.len() implies pushed[i].0 < pushed[j].0 by {
        if j < rows.len() {
            assert(pushed[i] == rows[i] && pushed[j] == rows[j]);
        } else {
            assert(pushed[i] == rows[i] && pushed[j] == rec);
        }
    }
}

/// Filtering rows keeps both the strictly ascending id order and any
/// upper bound on the ids.
pub proof fn lemma_filter_keeps_order(rows: Seq<Rec>, pred: spec_fn(Rec) -> bool, w: int)
    requires
        rows_ascending(rows),
        ids_below(rows, w),
    ensures
        rows_ascending(rows.filter(pred)),
        ids_below(rows.filter(pred), w),
    decreases rows.len(),
{
    reveal(Seq::filter);
    if rows.len() == 0 {
        assert(rows.filter(pred) =~= rows);
    } else {
        let front = rows.drop_last();
        let last = rows.last();
        assert(forall|q: int| 0 <= q < front.len() ==> front[q] == rows[q]);
        assert(forall|q: int| 0 <= q < front.len() ==> front[q].0 < last.0);
        lemma_filter_keeps_order(front, pred, last.0 - 1);
        let ff = front.filter(pred);
        if pred(last) {
            assert(rows.filter(pred) == ff.push(last));
            lemma_ascending_push(ff, last);
            assert forall|q: int| 0 <= q < ff.push(last).len() implies ff.push(last)[q].0 <= w by {
                if q < ff.len() {
                    assert(ff.push(last)[q] == ff[q]);
                } else {
                    assert(ff.push(last)[q] == last);
                }
            }
        } else {
            assert(rows.filter(pred) == ff);
            assert forall|q: int| 0 <= q < ff.len() implies ff[q].0 <= w by {
                assert(ff[q].0 <= last.0 - 1);
            }
        }
    }
}

} // verus!
