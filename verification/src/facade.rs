//! The command surface the front-end calls: each command maps one-to-one
//! to a store or export operation and translates the domain error into a
//! single flat message string.

use vstd::prelude::*;

use crate::errors::validation_msg;
use crate::records::{rec_models, Rec, Registration};
use crate::store::{csv_export, valid_triple, Store};
use crate::text::trim_spec;

verus! {

/// Ensures write-ahead journalling and the schema on the store's
/// database; repeating it never errors the schema away and never touches
/// a row once the schema stands.
pub fn initialize_db(store: &mut Store) -> (r: Result<(), String>)
    ensures
        r is Ok ==> final(store).well_formed(),
        old(store).ready() ==> final(store).rows() == old(store).rows() && final(store).ready()
            && final(store).watermark() == old(store).watermark(),
        r is Ok && !old(store).ready() ==> final(store).rows() == Seq::<Rec>::empty(),
{
    match store.initialize() {
        Ok(()) => Ok(()),
        Err(e) => Err(e.message()),
    }
}

/// Validates, trims and stores one registration; a triple with an empty
/// or whitespace-only field is rejected with the fixed validation message
/// and stores nothing.
pub fn add_registration(store: &mut Store, first: &str, surname: &str, phone: &str) -> (r: Result<
    (),
    String,
>)
    ensures
        !valid_triple(first@, surname@, phone@) ==> (r matches Err(m) && m@ == validation_msg()),
        r is Err ==> final(store).rows() == old(store).rows(),
        final(store).ready() == old(store).ready(),
        final(store).watermark() >= old(store).watermark(),
        old(store).well_formed() ==> final(store).well_formed(),
        r is Ok ==> valid_triple(first@, surname@, phone@) && exists|id: int, ts: Seq<char>|
            #![auto]
            {
                &&& id > old(store).watermark()
                &&& final(store).watermark() == id
                &&& forall|q: int|
                    0 <= q < old(store).rows().len() ==> old(store).rows()[q].0 < id
                &&& final(store).rows() == old(store).rows().push(
                    (id, trim_spec(first@), trim_spec(surname@), trim_spec(phone@), ts),
                )
            },
{
    match store.add(first, surname, phone) {
        Ok(()) => Ok(()),
        Err(e) => Err(e.message()),
    }
}

/// All current records, newest id first.
pub fn list_registrations(store: &Store) -> (r: Result<Vec<Registration>, String>)
    ensures
        r matches Ok(v) ==> rec_models(v@) == store.rows().reverse(),
{
    match store.list() {
        Ok(v) => Ok(v),
        Err(e) => Err(e.message()),
    }
}

/// Deletes the record with the given id; an absent id is a no-op success.
pub fn delete_registration(store: &mut Store, id: i64) -> (r: Result<(), String>)
    ensures
        r is Ok ==> final(store).rows() == old(store).rows().filter(
            (|rec: Rec| rec.0 != id as int),
        ),
        r is Err ==> final(store).rows() == old(store).rows(),
        final(store).ready() == old(store).ready(),
        final(store).watermark() == old(store).watermark(),
        old(store).well_formed() ==> final(store).well_formed(),
{
    match store.delete(id) {
        Ok(()) => Ok(()),
        Err(e) => Err(e.message()),
    }
}

/// The CSV export of all current records, oldest id first, under the
/// exact header. Writing the document to its timestamped file in the
/// downloads directory is the shell's affair.
pub fn export_csv(store: &Store) -> (r: Result<String, String>)
    ensures
        r matches Ok(s) ==> s@ == csv_export(store.rows()),
{
    match store.export_csv() {
        Ok(s) => Ok(s),
        Err(e) => Err(e.message()),
    }
}

} // verus!
