use hhireg::csvfmt::{encode_field, encode_row};
use hhireg::errors::AppError;
use hhireg::paths::{concat_strs, export_filename, migration_needed};
use hhireg::text::{chars_of, i64_to_chars, padded_u64_chars, string_from_chars, trim_chars, u64_to_chars};

fn cs(s: &str) -> Vec<char> {
    s.chars().collect()
}

#[test]
fn trim_chars_strips_both_ends() {
    assert_eq!(trim_chars(&cs("  a b \t\n")), cs("a b"));
    assert_eq!(trim_chars(&cs("ab")), cs("ab"));
    assert_eq!(trim_chars(&cs("   ")), cs(""));
    assert_eq!(trim_chars(&cs("")), cs(""));
}

#[test]
fn trim_chars_matches_str_trim_on_unicode_whitespace() {
    for s in ["\u{a0}x\u{a0}", "\u{2003}a b\u{3000}", "\u{85}\u{1680}", "a\u{200a}", "\u{2028}z"] {
        assert_eq!(trim_chars(&cs(s)), cs(s.trim()), "trim mismatch on {s:?}");
    }
}

#[test]
fn chars_of_matches_rust_chars() {
    assert_eq!(chars_of("héllo, wörld"), cs("héllo, wörld"));
    assert_eq!(string_from_chars(cs("héllo")), "héllo");
}

#[test]
fn decimal_rendering_is_exact() {
    assert_eq!(u64_to_chars(0), cs("0"));
    assert_eq!(u64_to_chars(90210), cs("90210"));
    assert_eq!(i64_to_chars(-42), cs("-42"));
    assert_eq!(i64_to_chars(7), cs("7"));
    assert_eq!(i64_to_chars(i64::MIN), cs("-9223372036854775808"));
    assert_eq!(i64_to_chars(i64::MAX), cs("9223372036854775807"));
}

#[test]
fn zero_padding_is_exact() {
    assert_eq!(padded_u64_chars(7, 2), cs("07"));
    assert_eq!(padded_u64_chars(12, 2), cs("12"));
    assert_eq!(padded_u64_chars(123, 2), cs("123"));
    assert_eq!(padded_u64_chars(9, 4), cs("0009"));
}

#[test]
fn plain_fields_pass_through_unquoted() {
    assert_eq!(encode_field(&cs("plain text")), cs("plain text"));
    assert_eq!(encode_field(&cs("")), cs(""));
}

#[test]
fn special_fields_are_quoted_and_escaped() {
    assert_eq!(encode_field(&cs("a,b")), cs("\"a,b\""));
    assert_eq!(encode_field(&cs("say \"hi\"")), cs("\"say \"\"hi\"\"\""));
    assert_eq!(encode_field(&cs("two\nlines")), cs("\"two\nlines\""));
}

#[test]
fn rows_join_fields_with_commas() {
    let fields = vec![cs("1"), cs("Ada"), cs("Love,lace")];
    assert_eq!(encode_row(&fields), cs("1,Ada,\"Love,lace\"\n"));
}

#[test]
fn export_filename_stamps_the_minute() {
    assert_eq!(export_filename(2024, 3, 7, 9, 5), "HHI_Registrations_20240307_0905.csv");
    assert_eq!(export_filename(2024, 12, 31, 23, 59), "HHI_Registrations_20241231_2359.csv");
    assert_eq!(export_filename(-1, 1, 2, 3, 4), "HHI_Registrations_-00010102_0304.csv");
}

#[test]
fn concat_strs_appends() {
    assert_eq!(concat_strs("/home/someone", "/hhireg.db"), "/home/someone/hhireg.db");
    assert_eq!(concat_strs("", ""), "");
}

#[test]
fn migration_runs_once() {
    assert!(migration_needed(true, false));
    assert!(!migration_needed(true, true));
    assert!(!migration_needed(false, false));
    assert!(!migration_needed(false, true));
}

#[test]
fn validation_message_is_exact() {
    assert_eq!(AppError::Validation.message(), "Please fill in First, Surname and Phone.");
    assert!(AppError::Validation.is_validation());
    assert!(!AppError::Path("x".to_owned()).is_validation());
    assert_eq!(AppError::Storage("disk full".to_owned()).message(), "disk full");
}

#[test]
fn db_paths_end_with_fixed_filename() {
    match hhireg::paths::old_db_path_home() {
        Ok(p) => assert!(p.ends_with("/hhireg.db")),
        Err(e) => assert!(!e.message().is_empty()),
    }
    match hhireg::paths::app_db_path() {
        Ok(p) => assert!(p.ends_with("/hhireg.db")),
        Err(e) => assert!(!e.message().is_empty()),
    }
    match hhireg::paths::downloads_dir() {
        Ok(p) => assert!(!p.is_empty()),
        Err(e) => assert!(!e.message().is_empty()),
    }
}

#[test]
fn export_target_is_a_stamped_csv_in_downloads() {
    match hhireg::paths::export_target_path() {
        Ok(p) => {
            assert!(p.contains("/HHI_Registrations_"));
            assert!(p.ends_with(".csv"));
        }
        Err(e) => assert!(!e.message().is_empty()),
    }
}
