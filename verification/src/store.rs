//! The store: owns the embedded database connection, ensures the schema,
//! and provides the verified create/list/delete/export operations over
//! registration records.
//!
//! The database itself is an outside resource; what it holds is modelled
//! by the uninterpreted `db_rows`, the rows of the `registrations` table
//! in ascending rowid order, and every call into `rusqlite` stands behind
//! a trusted wrapper whose contract speaks over that model.

use vstd::prelude::*;

use crate::csvfmt::{csv_row, encode_row, fields_model};
use crate::errors::AppError;
use crate::records::{
    ids_below, lemma_ascending_push, lemma_filter_keeps_order, rec_models, rows_ascending, Rec,
    Registration,
};
use crate::text::{
    chars_of, dec_int, extend_chars, i64_to_chars, string_from_chars, trim_chars, trim_spec,
};

verus! {

#[verifier::external_type_specification]
#[verifier::external_body]
pub struct ExConnection(rusqlite::Connection);

#[verifier::external_type_specification]
#[verifier::external_body]
pub struct ExSqlError(rusqlite::Error);

/// The rows of the `registrations` table reachable through `conn`, in
/// ascending rowid order. SQLite keeps rowids unique, so this order is
/// well defined.
pub uninterp spec fn db_rows(conn: rusqlite::Connection) -> Seq<Rec>;

/// Whether the `registrations` table exists in the database reachable
/// through `conn`.
pub uninterp spec fn schema_ready(conn: rusqlite::Connection) -> bool;

/// The table's append watermark: every id ever assigned to a row of the
/// `registrations` table is at most this value, and a fresh insertion
/// exceeds it. SQLite keeps it for an `AUTOINCREMENT` table in
/// `sqlite_sequence` (zero before any row was ever inserted), and never
/// lowers it, deletes included.
pub uninterp spec fn db_watermark(conn: rusqlite::Connection) -> int;

/// Relies on `rusqlite::Connection::open`: opens (or creates) the database
/// file at `path`. What the file already held decides the rows, so nothing
/// is claimed of them.
#[verifier::external_body]
fn open_connection(path: &str) -> (r: Result<rusqlite::Connection, rusqlite::Error>) {
    rusqlite::Connection::open(path)
}

/// Relies on `rusqlite::Connection::open_in_memory`: a fresh in-memory
/// database holds no tables at all.
#[verifier::external_body]
fn open_memory_connection() -> (r: Result<rusqlite::Connection, rusqlite::Error>)
    ensures
        r matches Ok(c) ==> !schema_ready(c),
{
    rusqlite::Connection::open_in_memory()
}

/// Relies on `rusqlite::Connection::pragma_update`: setting `journal_mode`
/// changes only the journalling strategy, never table contents, schema or
/// sequence.
#[verifier::external_body]
fn set_wal_mode(conn: &mut rusqlite::Connection) -> (r: Result<(), rusqlite::Error>)
    ensures
        db_rows(*final(conn)) == db_rows(*old(conn)),
        schema_ready(*final(conn)) == schema_ready(*old(conn)),
        db_watermark(*final(conn)) == db_watermark(*old(conn)),
{
    conn.pragma_update(None, "journal_mode", "WAL")
}

/// Relies on `rusqlite::Connection::execute_batch` running
/// `CREATE TABLE IF NOT EXISTS` / `CREATE INDEX IF NOT EXISTS`: when the
/// table already exists it is left untouched, rows, sequence and all —
/// the batch then touches no row whether it succeeds or fails; when the
/// table does not exist, success means it was created empty (a failure
/// may leave it half-created, so nothing is claimed then). The table's
/// `id` is its `INTEGER PRIMARY KEY`, an alias of the rowid, so the
/// model's ascending rowid order is strictly ascending id order, and
/// every current rowid is at most the largest ever assigned.
#[verifier::external_body]
fn create_schema(conn: &mut rusqlite::Connection) -> (r: Result<(), rusqlite::Error>)
    ensures
        r is Ok ==> schema_ready(*final(conn)),
        schema_ready(*old(conn)) ==> db_rows(*final(conn)) == db_rows(*old(conn))
            && schema_ready(*final(conn)) && db_watermark(*final(conn)) == db_watermark(
            *old(conn),
        ),
        r is Ok && !schema_ready(*old(conn)) ==> db_rows(*final(conn)) == Seq::<Rec>::empty(),
        r is Ok ==> rows_ascending(db_rows(*final(conn))) && ids_below(
            db_rows(*final(conn)),
            db_watermark(*final(conn)),
        ),
{
    conn.execute_batch(
        "CREATE TABLE IF NOT EXISTS registrations (
            id INTEGER PRIMARY KEY AUTOINCREMENT,
            first TEXT NOT NULL,
            surname TEXT NOT NULL,
            phone TEXT NOT NULL,
            created_at TEXT DEFAULT CURRENT_TIMESTAMP
        );
        CREATE INDEX IF NOT EXISTS idx_reg_created_at ON registrations(created_at);",
    )
}

/// Relies on `rusqlite::Connection::execute` running a single `INSERT`:
/// SQLite appends one row whose `AUTOINCREMENT` id is larger than every
/// id ever used — the watermark, which then equals the new id — so also
/// larger than every current one, and whose `created_at` column defaults
/// to the current timestamp; a failed statement changes nothing.
#[verifier::external_body]
fn insert_row(conn: &mut rusqlite::Connection, first: &str, surname: &str, phone: &str) -> (r:
    Result<(), rusqlite::Error>)
    ensures
        r is Ok ==> exists|id: int, ts: Seq<char>|
            #![auto]
            {
                &&& id > db_watermark(*old(conn))
                &&& db_watermark(*final(conn)) == id
                &&& forall|q: int|
                    0 <= q < db_rows(*old(conn)).len() ==> db_rows(*old(conn))[q].0 < id
                &&& db_rows(*final(conn)) == db_rows(*old(conn)).push(
                    (id, first@, surname@, phone@, ts),
                )
            },
        schema_ready(*final(conn)) == schema_ready(*old(conn)),
        r is Err ==> db_rows(*final(conn)) == db_rows(*old(conn)) && db_watermark(*final(conn))
            == db_watermark(*old(conn)),
{
    match conn.execute(
        "INSERT INTO registrations (first, surname, phone) VALUES (?1, ?2, ?3);",
        (first, surname, phone),
    ) {
        Ok(_) => Ok(()),
        Err(e) => Err(e),
    }
}

/// Relies on `rusqlite::Statement::query` over `SELECT ... ORDER BY id
/// DESC`: the rows come back in descending id order, the reverse of the
/// model's ascending order, with every column as stored.
#[verifier::external_body]
fn select_all_desc(conn: &rusqlite::Connection) -> (r: Result<Vec<Registration>, rusqlite::Error>)
    ensures
        r matches Ok(v) ==> rec_models(v@) == db_rows(*conn).reverse(),
{
    let mut stmt = conn.prepare(
        "SELECT id, first, surname, phone, created_at FROM registrations ORDER BY id DESC",
    )?;
    let mut rows = stmt.query(())?;
    let mut out: Vec<Registration> = Vec::new();
    while let Some(row) = rows.next()? {
        out.push(Registration {
            id: row.get(0)?,
            first: row.get(1)?,
            surname: row.get(2)?,
            phone: row.get(3)?,
            created_at: row.get(4)?,
        });
    }
    Ok(out)
}

/// Relies on `rusqlite::Statement::query` over `SELECT ... ORDER BY id
/// ASC`: the rows come back exactly in the model's ascending order, with
/// every column as stored.
#[verifier::external_body]
fn select_all_asc(conn: &rusqlite::Connection) -> (r: Result<Vec<Registration>, rusqlite::Error>)
    ensures
        r matches Ok(v) ==> rec_models(v@) == db_rows(*conn),
{
    let mut stmt = conn.prepare(
        "SELECT id, first, surname, phone, created_at FROM registrations ORDER BY id ASC",
    )?;
    let mut rows = stmt.query(())?;
    let mut out: Vec<Registration> = Vec::new();
    while let Some(row) = rows.next()? {
        out.push(Registration {
            id: row.get(0)?,
            first: row.get(1)?,
            surname: row.get(2)?,
            phone: row.get(3)?,
            created_at: row.get(4)?,
        });
    }
    Ok(out)
}

/// Relies on `rusqlite::Connection::execute` running a single `DELETE`
/// by id: exactly the rows with that id (at most one, ids being unique)
/// leave, the others keep their order; the `AUTOINCREMENT` sequence is
/// never lowered by a delete; a failed statement changes nothing.
#[verifier::external_body]
fn delete_rows_with_id(conn: &mut rusqlite::Connection, id: i64) -> (r: Result<
    (),
    rusqlite::Error,
>)
    ensures
        r is Ok ==> db_rows(*final(conn)) == db_rows(*old(conn)).filter(
            (|rec: Rec| rec.0 != id as int),
        ),
        schema_ready(*final(conn)) == schema_ready(*old(conn)),
        db_watermark(*final(conn)) == db_watermark(*old(conn)),
        r is Err ==> db_rows(*final(conn)) == db_rows(*old(conn)),
{
    match conn.execute("DELETE FROM registrations WHERE id = ?1", (id,)) {
        Ok(_) => Ok(()),
        Err(e) => Err(e),
    }
}

/// Relies on `rusqlite::Error`'s `Display` impl for the human-readable
/// text of a database error.
#[verifier::external_body]
fn sql_error_text(e: &rusqlite::Error) -> (r: String) {
    e.to_string()
}

/// The header fields of the CSV export.
pub open spec fn csv_header_fields() -> Seq<Seq<char>> {
    seq!["id"@, "first"@, "surname"@, "phone"@, "created_at"@]
}

/// The five field texts of one record as they stand in its CSV row: the
/// id in decimal, then the stored texts.
pub open spec fn rec_fields(r: Rec) -> Seq<Seq<char>> {
    seq![dec_int(r.0), r.1, r.2, r.3, r.4]
}

/// The data rows of the CSV export, one row per record, in the given
/// (ascending id) order.
pub open spec fn csv_body(rows: Seq<Rec>) -> Seq<char>
    decreases rows.len(),
{
    if rows.len() == 0 {
        Seq::empty()
    } else {
        csv_body(rows.drop_last()) + csv_row(rec_fields(rows.last()))
    }
}

/// The whole CSV export of `rows`: the header row, then one row per
/// record, oldest id first.
pub open spec fn csv_export(rows: Seq<Rec>) -> Seq<char> {
    csv_row(csv_header_fields()) + csv_body(rows)
}

/// Whether a field is acceptable to `add`: something other than
/// whitespace is left once it is trimmed.
pub open spec fn valid_field(s: Seq<char>) -> bool {
    trim_spec(s).len() > 0
}

/// Whether a (first, surname, phone) triple is acceptable to `add`.
pub open spec fn valid_triple(first: Seq<char>, surname: Seq<char>, phone: Seq<char>) -> bool {
    valid_field(first) && valid_field(surname) && valid_field(phone)
}

/// The store: one open connection to the registrations database. The
/// model reads the database through this one connection, under the data
/// model's ownership assumption: the file belongs to this application
/// instance alone, with no concurrent writer and no second store open on
/// the same file.
pub struct Store {
    conn: rusqlite::Connection,
}

impl Store {
    /// The current rows of the store, in ascending id order.
    pub closed spec fn rows(&self) -> Seq<Rec> {
        db_rows(self.conn)
    }

    /// Whether the schema has been ensured on this store's database.
    pub closed spec fn ready(&self) -> bool {
        schema_ready(self.conn)
    }

    /// The append watermark: at least every id ever assigned, exceeded
    /// by each fresh insertion, and never lowered.
    pub closed spec fn watermark(&self) -> int {
        db_watermark(self.conn)
    }

    /// The store's invariant once `initialize` has succeeded: the schema
    /// stands, the rows are strictly ascending by id, and every id is at
    /// most the watermark — so an id above the watermark was never
    /// assigned to any record.
    pub open spec fn well_formed(&self) -> bool {
        self.ready() && rows_ascending(self.rows()) && ids_below(self.rows(), self.watermark())
    }

    /// Opens (or creates) the database file at `path`, sets write-ahead
    /// journalling, and ensures the schema. The parent directory of
    /// `path` must already exist.
    pub fn open_at(path: &str) -> (r: Result<Store, AppError>)
        ensures
            r matches Ok(s) ==> s.well_formed(),
            r matches Err(e) ==> e is Storage,
    {
        match open_connection(path) {
            Ok(conn) => {
                let mut store = Store { conn };
                match store.initialize() {
                    Ok(()) => Ok(store),
                    Err(e) => Err(e),
                }
            },
            Err(e) => Err(AppError::Storage(sql_error_text(&e))),
        }
    }

    /// Opens a fresh, empty in-memory store: same schema, no file.
    pub fn open_in_memory() -> (r: Result<Store, AppError>)
        ensures
            r matches Ok(s) ==> s.well_formed() && s.rows() == Seq::<Rec>::empty(),
            r matches Err(e) ==> e is Storage,
    {
        match open_memory_connection() {
            Ok(conn) => {
                let mut store = Store { conn };
                match store.initialize() {
                    Ok(()) => Ok(store),
                    Err(e) => Err(e),
                }
            },
            Err(e) => Err(AppError::Storage(sql_error_text(&e))),
        }
    }

    /// Sets write-ahead journalling and ensures the `registrations` table
    /// and its `created_at` index exist. Idempotent: when the schema is
    /// already there, nothing changes and no row is touched.
    pub fn initialize(&mut self) -> (r: Result<(), AppError>)
        ensures
            r is Ok ==> final(self).well_formed(),
            old(self).ready() ==> final(self).rows() == old(self).rows() && final(self).ready()
                && final(self).watermark() == old(self).watermark(),
            r is Ok && !old(self).ready() ==> final(self).rows() == Seq::<Rec>::empty(),
            r matches Err(e) ==> e is Storage,
    {
        match set_wal_mode(&mut self.conn) {
            Ok(()) => {},
            Err(e) => {
                return Err(AppError::Storage(sql_error_text(&e)));
            },
        }
        match create_schema(&mut self.conn) {
            Ok(()) => Ok(()),
            Err(e) => Err(AppError::Storage(sql_error_text(&e))),
        }
    }

    /// Validates, trims and inserts a new registration. Exactly the
    /// triples with some field empty after trimming are rejected with the
    /// validation error; an accepted triple is stored trimmed, under a
    /// fresh id larger than every current one, with a store-assigned
    /// timestamp.
    pub fn add(&mut self, first: &str, surname: &str, phone: &str) -> (r: Result<(), AppError>)
        ensures
            r == Err::<(), AppError>(AppError::Validation) <==> !valid_triple(
                first@,
                surname@,
                phone@,
            ),
            r is Err ==> final(self).rows() == old(self).rows() && final(self).watermark()
                == old(self).watermark(),
            final(self).ready() == old(self).ready(),
            final(self).watermark() >= old(self).watermark(),
            old(self).well_formed() ==> final(self).well_formed(),
            r matches Err(e) ==> e is Validation || e is Storage,
            r is Ok ==> exists|id: int, ts: Seq<char>|
                #![auto]
                {
                    &&& id > old(self).watermark()
                    &&& final(self).watermark() == id
                    &&& forall|q: int|
                        0 <= q < old(self).rows().len() ==> old(self).rows()[q].0 < id
                    &&& final(self).rows() == old(self).rows().push(
                        (id, trim_spec(first@), trim_spec(surname@), trim_spec(phone@), ts),
                    )
                },
    {
        let first_chars = chars_of(first);
        let surname_chars = chars_of(surname);
        let phone_chars = chars_of(phone);
        let first_trim = trim_chars(&first_chars);
        let surname_trim = trim_chars(&surname_chars);
        let phone_trim = trim_chars(&phone_chars);
        if first_trim.len() == 0 || surname_trim.len() == 0 || phone_trim.len() == 0 {
            return Err(AppError::Validation);
        }
        let first_s = string_from_chars(first_trim);
        let surname_s = string_from_chars(surname_trim);
        let phone_s = string_from_chars(phone_trim);
        match insert_row(&mut self.conn, first_s.as_str(), surname_s.as_str(), phone_s.as_str()) {
            Ok(()) => {
                proof {
                    let (id, ts): (int, Seq<char>) = choose|id: int, ts: Seq<char>|
                        #![auto]
                        {
                            &&& id > old(self).watermark()
                            &&& self.watermark() == id
                            &&& forall|q: int|
                                0 <= q < old(self).rows().len() ==> old(self).rows()[q].0 < id
                            &&& self.rows() == old(self).rows().push(
                                (id, first_s@, surname_s@, phone_s@, ts),
                            )
                        };
                    let rec = (id, trim_spec(first@), trim_spec(surname@), trim_spec(phone@), ts);
                    assert(self.rows() == old(self).rows().push(rec));
                    if old(self).well_formed() {
                        lemma_ascending_push(old(self).rows(), rec);
                        assert forall|q: int| 0 <= q < self.rows().len() implies self.rows()[q].0
                            <= self.watermark() by {
                            if q < old(self).rows().len() {
                                assert(self.rows()[q] == old(self).rows()[q]);
                            } else {
                                assert(self.rows()[q] == rec);
                            }
                        }
                    }
                }
                Ok(())
            },
            Err(e) => Err(AppError::Storage(sql_error_text(&e))),
        }
    }

    /// All current records, newest id first.
    pub fn list(&self) -> (r: Result<Vec<Registration>, AppError>)
        ensures
            r matches Ok(v) ==> rec_models(v@) == self.rows().reverse(),
            r matches Err(e) ==> e is Storage,
    {
        match select_all_desc(&self.conn) {
            Ok(v) => Ok(v),
            Err(e) => Err(AppError::Storage(sql_error_text(&e))),
        }
    }

    /// Renders all current records as a CSV document: the exact header
    /// row, then one row per record in ascending id order, fields quoted
    /// by the standard rules. Writing the document to a file is the
    /// caller's affair.
    pub fn export_csv(&self) -> (r: Result<String, AppError>)
        ensures
            r matches Ok(s) ==> s@ == csv_export(self.rows()),
            r matches Err(e) ==> e is Storage,
    {
        let recs = match select_all_asc(&self.conn) {
            Ok(v) => v,
            Err(e) => {
                return Err(AppError::Storage(sql_error_text(&e)));
            },
        };
        let mut out: Vec<char> = Vec::new();
        let mut header: Vec<Vec<char>> = Vec::new();
        header.push(chars_of("id"));
        header.push(chars_of("first"));
        header.push(chars_of("surname"));
        header.push(chars_of("phone"));
        header.push(chars_of("created_at"));
        proof {
            assert(fields_model(header@) =~= csv_header_fields());
        }
        let hrow = encode_row(&header);
        extend_chars(&mut out, &hrow);
        let ghost model = rec_models(recs@);
        let mut k: usize = 0;
        while k < recs.len()
            invariant
                k <= recs.len(),
                model == rec_models(recs@),
                out@ =~= csv_row(csv_header_fields()) + csv_body(model.subrange(0, k as int)),
            decreases recs.len() - k,
        {
            let rec = &recs[k];
            let mut fields: Vec<Vec<char>> = Vec::new();
            fields.push(i64_to_chars(rec.id));
            fields.push(chars_of(rec.first.as_str()));
            fields.push(chars_of(rec.surname.as_str()));
            fields.push(chars_of(rec.phone.as_str()));
            fields.push(chars_of(rec.created_at.as_str()));
            proof {
                assert(fields_model(fields@) =~= rec_fields(model[k as int]));
            }
            let row = encode_row(&fields);
            extend_chars(&mut out, &row);
            k += 1;
            proof {
                let cur = model.subrange(0, k as int);
                assert(cur.drop_last() =~= model.subrange(0, (k - 1) as int));
                assert(out@ =~= csv_row(csv_header_fields()) + csv_body(cur));
            }
        }
        proof {
            assert(model.subrange(0, model.len() as int) =~= model);
            assert(out@ =~= csv_export(self.rows()));
        }
        Ok(string_from_chars(out))
    }

    /// Deletes the record with the given id; deleting an absent id is a
    /// no-op success.
    pub fn delete(&mut self, id: i64) -> (r: Result<(), AppError>)
        ensures
            r is Ok ==> final(self).rows() == old(self).rows().filter(
                (|rec: Rec| rec.0 != id as int),
            ),
            r is Err ==> final(self).rows() == old(self).rows(),
            final(self).ready() == old(self).ready(),
            final(self).watermark() == old(self).watermark(),
            old(self).well_formed() ==> final(self).well_formed(),
            r matches Err(e) ==> e is Storage,
    {
        match delete_rows_with_id(&mut self.conn, id) {
            Ok(()) => {
                proof {
                    if old(self).well_formed() {
                        lemma_filter_keeps_order(
                            old(self).rows(),
                            |rec: Rec| rec.0 != id as int,
                            old(self).watermark(),
                        );
                    }
                }
                Ok(())
            },
            Err(e) => Err(AppError::Storage(sql_error_text(&e))),
        }
    }
}

} // verus!
