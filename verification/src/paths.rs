//! Path resolution and the export filename: the user's home, downloads and
//! per-application data directories come from the environment through
//! trusted wrappers; joining them with the fixed database filename, and
//! rendering the timestamped export filename, is verified.

use vstd::prelude::*;

use crate::errors::AppError;
use crate::text::{chars_of, extend_chars, padded_dec, padded_u64_chars, string_from_chars};

verus! {

#[verifier::external_type_specification]
#[verifier::external_body]
pub struct ExUserDirs(directories_next::UserDirs);

#[verifier::external_type_specification]
#[verifier::external_body]
pub struct ExProjectDirs(directories_next::ProjectDirs);

/// Relies on `directories_next::UserDirs::new`: resolves the user's
/// directories from the environment; `None` when no home directory can
/// be found.
#[verifier::external_body]
fn user_dirs() -> (r: Option<directories_next::UserDirs>) {
    directories_next::UserDirs::new()
}

/// Relies on `directories_next::UserDirs::home_dir` for the home
/// directory's location; the path is environment-chosen, so nothing is
/// claimed of its text.
#[verifier::external_body]
fn home_dir_text(u: &directories_next::UserDirs) -> (r: String) {
    u.home_dir().to_string_lossy().into_owned()
}

/// Relies on `directories_next::UserDirs::download_dir`: the downloads
/// directory's location, `None` when the platform defines none.
#[verifier::external_body]
fn download_dir_text(u: &directories_next::UserDirs) -> (r: Option<String>) {
    match u.download_dir() {
        Some(p) => Some(p.to_string_lossy().into_owned()),
        None => None,
    }
}

/// Relies on `directories_next::ProjectDirs::from`: resolves the
/// per-application directories for the named application; `None` when no
/// home directory can be found.
#[verifier::external_body]
fn project_dirs(qualifier: &str, organization: &str, application: &str) -> (r: Option<
    directories_next::ProjectDirs,
>) {
    directories_next::ProjectDirs::from(qualifier, organization, application)
}

/// Relies on `directories_next::ProjectDirs::data_dir` for the
/// application's data directory; the path is environment-chosen, so
/// nothing is claimed of its text.
#[verifier::external_body]
fn data_dir_text(p: &directories_next::ProjectDirs) -> (r: String) {
    p.data_dir().to_string_lossy().into_owned()
}

/// Relies on `chrono::Local::now` and its `Datelike` / `Timelike`
/// accessors: the current local time's year, and its month in 1..=12,
/// day in 1..=31, hour below 24 and minute below 60, as those traits
/// document. Caveat: `chrono` itself panics when the system clock reads
/// before the Unix epoch; that depends on the machine, not on any input,
/// so no precondition can exclude it.
#[verifier::external_body]
fn local_now_parts() -> (r: (i32, u32, u32, u32, u32))
    ensures
        1 <= r.1 <= 12,
        1 <= r.2 <= 31,
        r.3 <= 23,
        r.4 <= 59,
{
    let now = chrono::Local::now();
    (
        chrono::Datelike::year(&now),
        chrono::Datelike::month(&now),
        chrono::Datelike::day(&now),
        chrono::Timelike::hour(&now),
        chrono::Timelike::minute(&now),
    )
}

/// The concatenation of two strings.
pub fn concat_strs(a: &str, b: &str) -> (r: String)
    ensures
        r@ == a@ + b@,
{
    let mut out = chars_of(a);
    let bs = chars_of(b);
    extend_chars(&mut out, &bs);
    string_from_chars(out)
}

/// The year rendered for the export stamp: zero-padded to four digits,
/// sign first when negative.
pub open spec fn year_chars(y: int) -> Seq<char> {
    if y < 0 {
        seq!['-'] + padded_dec((-y) as nat, 4)
    } else {
        padded_dec(y as nat, 4)
    }
}

/// The stamp `YYYYMMDD_HHmm` of a local time, at minute granularity.
pub open spec fn stamp_spec(y: int, mo: nat, d: nat, h: nat, mi: nat) -> Seq<char> {
    year_chars(y) + padded_dec(mo, 2) + padded_dec(d, 2) + seq!['_'] + padded_dec(h, 2)
        + padded_dec(mi, 2)
}

/// The name of the export file for a local time.
pub open spec fn export_filename_spec(y: int, mo: nat, d: nat, h: nat, mi: nat) -> Seq<char> {
    "HHI_Registrations_"@ + stamp_spec(y, mo, d, h, mi) + ".csv"@
}

/// Renders the `YYYYMMDD_HHmm` stamp of the given local time.
pub fn stamp_chars(y: i32, mo: u32, d: u32, h: u32, mi: u32) -> (r: Vec<char>)
    ensures
        r@ == stamp_spec(y as int, mo as nat, d as nat, h as nat, mi as nat),
{
    let mut out: Vec<char> = Vec::new();
    if y < 0 {
        out.push('-');
        let mag: u64 = (-(y as i64)) as u64;
        let ypart = padded_u64_chars(mag, 4);
        extend_chars(&mut out, &ypart);
    } else {
        let ypart = padded_u64_chars(y as u64, 4);
        extend_chars(&mut out, &ypart);
    }
    let mpart = padded_u64_chars(mo as u64, 2);
    extend_chars(&mut out, &mpart);
    let dpart = padded_u64_chars(d as u64, 2);
    extend_chars(&mut out, &dpart);
    out.push('_');
    let hpart = padded_u64_chars(h as u64, 2);
    extend_chars(&mut out, &hpart);
    let mipart = padded_u64_chars(mi as u64, 2);
    extend_chars(&mut out, &mipart);
    proof {
        assert(out@ =~= stamp_spec(y as int, mo as nat, d as nat, h as nat, mi as nat));
    }
    out
}

/// Renders the export file's name, `HHI_Registrations_<YYYYMMDD_HHmm>.csv`,
/// for the given local time.
pub fn export_filename(y: i32, mo: u32, d: u32, h: u32, mi: u32) -> (r: String)
    ensures
        r@ == export_filename_spec(y as int, mo as nat, d as nat, h as nat, mi as nat),
{
    let mut out = chars_of("HHI_Registrations_");
    let stamp = stamp_chars(y, mo, d, h, mi);
    extend_chars(&mut out, &stamp);
    let ext = chars_of(".csv");
    extend_chars(&mut out, &ext);
    proof {
        assert(out@ =~= export_filename_spec(
            y as int,
            mo as nat,
            d as nat,
            h as nat,
            mi as nat,
        ));
    }
    string_from_chars(out)
}

/// Whether `s` is some directory joined with the fixed database filename.
pub open spec fn is_db_path(s: Seq<char>) -> bool {
    exists|dir: Seq<char>| s == dir + "/hhireg.db"@
}

/// Whether `s` is some directory joined with an export filename stamped
/// at some minute.
pub open spec fn is_export_path(s: Seq<char>) -> bool {
    exists|dir: Seq<char>, y: int, mo: nat, d: nat, h: nat, mi: nat|
        s == dir + seq!['/'] + export_filename_spec(y, mo, d, h, mi)
}

/// The database file's legacy location: the user's home directory joined
/// with the fixed filename.
pub fn old_db_path_home() -> (r: Result<String, AppError>)
    ensures
        r matches Ok(p) ==> is_db_path(p@),
        r matches Err(e) ==> e is Path && e.message_spec()
            == "Could not resolve user directories"@,
{
    match user_dirs() {
        Some(u) => {
            let home = home_dir_text(&u);
            let p = concat_strs(home.as_str(), "/hhireg.db");
            proof {
                assert(p@ == home@ + "/hhireg.db"@);
            }
            Ok(p)
        },
        None => Err(AppError::Path("Could not resolve user directories".to_owned())),
    }
}

/// The database file's current location: the application's data directory
/// joined with the fixed filename. The directory itself may not exist yet;
/// creating it is the caller's affair.
pub fn app_db_path() -> (r: Result<String, AppError>)
    ensures
        r matches Ok(p) ==> is_db_path(p@),
        r matches Err(e) ==> e is Path && e.message_spec() == "Could not resolve app data dir"@,
{
    match project_dirs("", "", "HHI Registration") {
        Some(d) => {
            let data = data_dir_text(&d);
            let p = concat_strs(data.as_str(), "/hhireg.db");
            proof {
                assert(p@ == data@ + "/hhireg.db"@);
            }
            Ok(p)
        },
        None => Err(AppError::Path("Could not resolve app data dir".to_owned())),
    }
}

/// The user's downloads directory.
pub fn downloads_dir() -> (r: Result<String, AppError>)
    ensures
        r matches Err(e) ==> e is Path && (e.message_spec()
            == "Could not resolve user directories"@ || e.message_spec()
            == "Downloads folder not found"@),
{
    match user_dirs() {
        Some(u) => {
            match download_dir_text(&u) {
                Some(p) => Ok(p),
                None => Err(AppError::Path("Downloads folder not found".to_owned())),
            }
        },
        None => Err(AppError::Path("Could not resolve user directories".to_owned())),
    }
}

/// Where the next CSV export would be written: the downloads directory
/// joined with the filename stamped at the current local minute. An
/// export in the same minute names the same file and silently overwrites
/// it.
pub fn export_target_path() -> (r: Result<String, AppError>)
    ensures
        r matches Ok(p) ==> is_export_path(p@),
        r matches Err(e) ==> e is Path && (e.message_spec()
            == "Could not resolve user directories"@ || e.message_spec()
            == "Downloads folder not found"@),
{
    let dl = match downloads_dir() {
        Ok(d) => d,
        Err(e) => {
            return Err(e);
        },
    };
    let (y, mo, d, h, mi) = local_now_parts();
    let name = export_filename(y, mo, d, h, mi);
    let mut out = chars_of(dl.as_str());
    out.push('/');
    let nm = chars_of(name.as_str());
    extend_chars(&mut out, &nm);
    let p = string_from_chars(out);
    proof {
        assert(p@ == dl@ + seq!['/'] + export_filename_spec(
            y as int,
            mo as nat,
            d as nat,
            h as nat,
            mi as nat,
        ));
    }
    Ok(p)
}

/// Whether the one-time legacy migration must run: there is a database
/// file at the legacy location and none yet at the current one. Once the
/// current location is populated this is false, so the migration never
/// runs twice.
pub fn migration_needed(legacy_exists: bool, current_exists: bool) -> (r: bool)
    ensures
        r == (legacy_exists && !current_exists),
{
    legacy_exists && !current_exists
}

} // verus!
