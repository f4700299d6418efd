use polling::logging::{log_format, LogFormat, LogGuard};
use polling::paths::{db_path, tmp_path, tmp_path_under, NAME_LEN};
use polling::random::{
    hexstring_of, rand_account_address, rand_hexstring, rand_string, rand_time, rand_u64,
    rand_vec, ADDRESS_LEN, HEX_DIGITS, TIME_END,
};

#[test]
fn hexstring_of_prefixes_the_digits() {
    assert_eq!(hexstring_of(&vec!['a', '0', 'f']), "0xa0f");
    assert_eq!(hexstring_of(&Vec::new()), "0x");
}

#[test]
fn rand_hexstring_has_prefix_and_forty_digits() {
    for _ in 0..50 {
        let s = rand_hexstring();
        assert_eq!(s.len(), 2 + HEX_DIGITS);
        assert_eq!(s.len(), 42);
        assert!(s.starts_with("0x"));
        assert!(s[2..].chars().all(|c| "0123456789abcdef".contains(c)));
    }
}

#[test]
fn rand_hexstring_varies() {
    assert_ne!(rand_hexstring(), rand_hexstring());
}

#[test]
fn rand_account_address_is_forty_two_alphanumerics() {
    for _ in 0..50 {
        let s = rand_account_address();
        assert_eq!(ADDRESS_LEN, 42);
        assert_eq!(s.chars().count(), 42);
        assert!(s.chars().all(|c| c.is_ascii_alphanumeric()));
    }
}

#[test]
fn rand_string_has_the_asked_length() {
    assert_eq!(rand_string::<0>(), "");
    let s = rand_string::<24>();
    assert_eq!(s.chars().count(), 24);
    assert!(s.chars().all(|c| c.is_ascii_alphanumeric()));
    assert_ne!(rand_string::<24>(), rand_string::<24>());
}

#[test]
fn rand_vec_has_the_asked_length() {
    assert_eq!(rand_vec::<0>().len(), 0);
    assert_eq!(rand_vec::<1>().len(), 1);
    assert_eq!(rand_vec::<32>().len(), 32);
}

#[test]
fn rand_vec_is_filled() {
    let v = rand_vec::<64>();
    assert!(v.iter().any(|b| *b != 0));
    assert_ne!(rand_vec::<64>(), rand_vec::<64>());
}

#[test]
fn rand_u64_varies() {
    let a = rand_u64();
    let b = rand_u64();
    let c = rand_u64();
    assert!(a != b || b != c);
}

#[test]
fn rand_time_is_in_range() {
    assert_eq!(TIME_END, 1_000_000_000);
    for _ in 0..200 {
        let t = rand_time();
        assert!(0 <= t && t < 1_000_000_000);
    }
}

#[test]
fn db_path_joins_its_parts() {
    assert_eq!(db_path("/tmp", "abc"), "/tmp/abc.db3");
    assert_eq!(db_path("", ""), "/.db3");
}

#[test]
fn tmp_path_lies_under_test_db() {
    let p = tmp_path();
    assert!(p.starts_with("test_db/"));
    assert!(p.ends_with(".db3"));
    let name = &p["test_db/".len()..p.len() - ".db3".len()];
    assert_eq!(NAME_LEN, 24);
    assert_eq!(name.chars().count(), 24);
    assert!(name.chars().all(|c| c.is_ascii_alphanumeric()));
    assert_ne!(tmp_path(), tmp_path());
}

#[test]
fn tmp_path_under_a_directory() {
    let p = tmp_path_under("/var/tmp");
    assert!(p.starts_with("/var/tmp/"));
    assert!(p.ends_with(".db3"));
    assert_eq!(p.chars().count(), "/var/tmp/".len() + 24 + ".db3".len());
}

#[test]
fn log_format_is_structured_only_for_true_and_one() {
    assert_eq!(log_format(Some("true")), LogFormat::Structured);
    assert_eq!(log_format(Some("1")), LogFormat::Structured);
    assert_eq!(log_format(Some("TRUE")), LogFormat::Compact);
    assert_eq!(log_format(Some("0")), LogFormat::Compact);
    assert_eq!(log_format(Some("")), LogFormat::Compact);
    assert_eq!(log_format(Some("true ")), LogFormat::Compact);
    assert_eq!(log_format(None), LogFormat::Compact);
}

#[test]
fn logging_is_claimed_once() {
    let mut guard = LogGuard::new();
    assert_eq!(guard, LogGuard::Fresh);
    assert!(guard.claim());
    assert!(!guard.claim());
    assert!(!guard.claim());
    assert_eq!(guard, LogGuard::Initialized);
}
