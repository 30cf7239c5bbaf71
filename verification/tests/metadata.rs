use build_info_format::integer::decimal_to_usize;
use build_info_format::metadata::{MAX_SECONDS, MIN_SECONDS};
use build_info_format::text::{chars_of, push_decimal, push_prefix, push_quoted, string_of};
use build_info_format::{
    crate_version, epoch_to_utc, nanos_to_utc, CompilerChannel, CompilerInfo, CrateInfo,
    DateTimeUtc, GitInfo, Identifier, Integer, Version, VersionControl,
};

fn written<F: Fn(&mut String)>(write: F) -> String {
    let mut buffer = String::new();
    write(&mut buffer);
    buffer
}

fn chrono_text(seconds: i64, nanoseconds: u32) -> String {
    chrono::DateTime::from_timestamp(seconds, nanoseconds)
        .unwrap()
        .format("%Y-%m-%d %H:%M:%S%.fZ")
        .to_string()
}

#[test]
fn version_of_this_crate() {
    let version = crate_version();
    assert_eq!(
        version,
        Version { major: 0, minor: 1, patch: 0, pre: vec![], build: vec![] }
    );
    assert_eq!(written(|b| version.push_to(b)), "0.1.0");
}

#[test]
fn nanoseconds_to_instant() {
    let instant = nanos_to_utc(1_431_648_000_026_490_000);
    assert_eq!(instant.timestamp(), 1_431_648_000);
    assert_eq!(instant.timestamp_subsec_nanos(), 26_490_000);
    assert_eq!(written(|b| instant.push_to(b)), "2015-05-15 00:00:00.026490Z");
    let before = nanos_to_utc(-1);
    assert_eq!(before.timestamp(), -1);
    assert_eq!(before.timestamp_subsec_nanos(), 999_999_999);
    assert_eq!(written(|b| before.push_to(b)), "1969-12-31 23:59:59.999999999Z");
    assert_eq!(nanos_to_utc(0), epoch_to_utc(0));
    assert_eq!(nanos_to_utc(-1_000_000_000), epoch_to_utc(-1));
    assert_eq!(nanos_to_utc(-1_000_000_001).timestamp(), -2);
    assert_eq!(nanos_to_utc(-1_000_000_001).timestamp_subsec_nanos(), 999_999_999);
    assert_eq!(nanos_to_utc(i64::MAX).timestamp(), 9_223_372_036);
    assert_eq!(nanos_to_utc(i64::MAX).timestamp_subsec_nanos(), 854_775_807);
    assert_eq!(nanos_to_utc(i64::MIN).timestamp(), -9_223_372_037);
    assert_eq!(nanos_to_utc(i64::MIN).timestamp_subsec_nanos(), 145_224_192);
    assert_eq!(written(|b| nanos_to_utc(i64::MIN).push_to(b)), "1677-09-21 00:12:43.145224192Z");
    assert_eq!(written(|b| nanos_to_utc(i64::MAX).push_to(b)), "2262-04-11 23:47:16.854775807Z");
}

#[test]
fn seconds_to_instant() {
    let instant = epoch_to_utc(1_431_648_000);
    assert_eq!(instant.timestamp(), 1_431_648_000);
    assert_eq!(instant.timestamp_subsec_nanos(), 0);
    assert_eq!(written(|b| instant.push_to(b)), "2015-05-15 00:00:00Z");
    assert_eq!(written(|b| epoch_to_utc(-86_400).push_to(b)), "1969-12-31 00:00:00Z");
    assert_eq!(written(|b| epoch_to_utc(951_782_400).push_to(b)), "2000-02-29 00:00:00Z");
}

#[test]
fn fraction_of_a_second_is_written_only_where_it_is_not_zero() {
    let text = |nanoseconds: u32| {
        let instant = DateTimeUtc::new(0, nanoseconds).unwrap();
        written(|b| instant.push_to(b))
    };
    assert_eq!(text(0), "1970-01-01 00:00:00Z");
    assert_eq!(text(500_000_000), "1970-01-01 00:00:00.500Z");
    assert_eq!(text(1_000), "1970-01-01 00:00:00.000001Z");
    assert_eq!(text(1), "1970-01-01 00:00:00.000000001Z");
}

#[test]
fn instants_are_the_ones_that_chrono_knows() {
    assert_eq!(DateTimeUtc::new(0, 1_000_000_000), None);
    assert_eq!(DateTimeUtc::new(MIN_SECONDS - 1, 0), None);
    assert_eq!(DateTimeUtc::new(MAX_SECONDS + 1, 0), None);
    assert_eq!(DateTimeUtc::new(i64::MIN, 0), None);
    assert_eq!(DateTimeUtc::new(i64::MAX, 0), None);
    assert!(chrono::DateTime::from_timestamp(MIN_SECONDS - 1, 0).is_none());
    assert!(chrono::DateTime::from_timestamp(MAX_SECONDS + 1, 0).is_none());
    assert!(chrono::DateTime::from_timestamp(MIN_SECONDS, 0).is_some());
    assert!(chrono::DateTime::from_timestamp(MAX_SECONDS, 999_999_999).is_some());
    let first = DateTimeUtc::new(MIN_SECONDS, 0).unwrap();
    let last = DateTimeUtc::new(MAX_SECONDS, 999_999_999).unwrap();
    assert_eq!(written(|b| first.push_to(b)), chrono_text(MIN_SECONDS, 0));
    assert_eq!(written(|b| last.push_to(b)), chrono_text(MAX_SECONDS, 999_999_999));
    assert_eq!(written(|b| epoch_to_utc(MAX_SECONDS).push_to(b)), chrono_text(MAX_SECONDS, 0));
    assert_eq!(written(|b| first.push_to(b)), "-262143-01-01 00:00:00Z");
    assert_eq!(written(|b| last.push_to(b)), "+262142-12-31 23:59:59.999999999Z");
}

#[test]
fn version_text() {
    let plain = Version { major: 1, minor: 0, patch: 12, pre: vec![], build: vec![] };
    assert_eq!(written(|b| plain.push_to(b)), "1.0.12");
    let full = Version {
        major: 1,
        minor: 2,
        patch: 3,
        pre: vec![Identifier::AlphaNumeric("alpha".to_string()), Identifier::Numeric(1)],
        build: vec![Identifier::AlphaNumeric("build5".to_string())],
    };
    assert_eq!(written(|b| full.push_to(b)), "1.2.3-alpha.1+build5");
    let build_only = Version {
        major: 0,
        minor: 0,
        patch: 0,
        pre: vec![],
        build: vec![Identifier::Numeric(20220102), Identifier::Numeric(0)],
    };
    assert_eq!(written(|b| build_only.push_to(b)), "0.0.0+20220102.0");
    assert_eq!(written(|b| Identifier::Numeric(u64::MAX).push_to(b)), "18446744073709551615");
}

#[test]
fn record_texts() {
    let version = Version { major: 1, minor: 60, patch: 0, pre: vec![], build: vec![] };
    let compiler = |commit_id: Option<&str>, commit_date: Option<&str>| CompilerInfo {
        version: version.clone(),
        commit_id: commit_id.map(|s| s.to_string()),
        commit_date: commit_date.map(|s| s.to_string()),
        channel: CompilerChannel::Stable,
        host_triple: "h".to_string(),
        target_triple: "t".to_string(),
    };
    let text = |c: &CompilerInfo| written(|b| c.push_to(b));
    assert_eq!(text(&compiler(None, None)), "rustc 1.60.0");
    assert_eq!(text(&compiler(None, Some("2022-04-04"))), "rustc 1.60.0");
    assert_eq!(text(&compiler(Some("0123456789abcdef"), None)), "rustc 1.60.0 (012345678)");
    assert_eq!(
        text(&compiler(Some("0123456789abcdef"), Some("2022-04-04"))),
        "rustc 1.60.0 (012345678 2022-04-04)"
    );
    assert_eq!(text(&compiler(Some("abc"), Some("2022-04-04"))), "rustc 1.60.0 (abc 2022-04-04)");
    assert_eq!(text(&compiler(Some("123456789"), None)), "rustc 1.60.0 (123456789)");
    assert_eq!(text(&compiler(Some(""), None)), "rustc 1.60.0 ()");
    let git = |dirty: bool, branch: Option<&str>| GitInfo {
        commit_id: "abc1234".to_string(),
        commit_short_id: None,
        commit_date: String::new(),
        dirty,
        branch: branch.map(|s| s.to_string()),
        tags: vec![],
    };
    assert_eq!(written(|b| git(false, None).push_to(b)), "abc1234");
    assert_eq!(written(|b| git(true, None).push_to(b)), "abc1234+");
    assert_eq!(written(|b| git(false, Some("main")).push_to(b)), "abc1234 (main)");
    assert_eq!(written(|b| git(true, Some("main")).push_to(b)), "abc1234+ (main)");
    assert_eq!(
        written(|b| VersionControl::Git(git(true, Some("x"))).push_to(b)),
        "abc1234+ (x)"
    );
    assert_eq!(written(|b| CompilerChannel::Dev.push_to(b)), "Dev");
    assert_eq!(written(|b| CompilerChannel::Nightly.push_to(b)), "Nightly");
    assert_eq!(written(|b| CompilerChannel::Beta.push_to(b)), "Beta");
    assert_eq!(written(|b| CompilerChannel::Stable.push_to(b)), "Stable");
}

#[test]
fn crates_are_cloned_with_their_dependencies() {
    let leaf = CrateInfo {
        name: "leaf".to_string(),
        version: Version { major: 0, minor: 1, patch: 0, pre: vec![], build: vec![] },
        authors: vec!["a".to_string()],
        license: Some("MIT".to_string()),
        dependencies: vec![],
    };
    let top = CrateInfo {
        name: "top".to_string(),
        version: Version { major: 2, minor: 0, patch: 0, pre: vec![], build: vec![] },
        authors: vec![],
        license: None,
        dependencies: vec![leaf.clone(), leaf.clone()],
    };
    let copy = top.clone();
    assert_eq!(copy, top);
    assert_eq!(copy.dependencies.len(), 2);
    assert_eq!(copy.dependencies[1].name, "leaf");
    assert_eq!(written(|b| copy.push_to(b)), "top v2.0.0");
}

#[test]
fn integers_from_digits_of_any_radix() {
    let text = |n: &Integer| written(|b| n.push_to(b));
    assert_eq!(text(&Integer::from_digits(&vec![15, 15], 16)), "255");
    assert_eq!(text(&Integer::from_digits(&vec![1, 0, 1], 2)), "5");
    assert_eq!(text(&Integer::from_digits(&vec![0, 0, 7], 10)), "7");
    assert_eq!(text(&Integer::from_digits(&vec![], 10)), "0");
    assert_eq!(text(&Integer::from_digits(&vec![0, 0], 8)), "0");
    assert_eq!(text(&Integer::from_digits(&vec![255, 255], 256)), "65535");
    assert_eq!(Integer::from_digits(&vec![1, 0], 16), Integer::from_u64(16));
    assert_eq!(
        text(&Integer::from_digits(&vec![1, 0, 0, 0, 0, 0, 0, 0, 0, 0, 0, 0, 0, 0, 0, 0, 0], 16)),
        "18446744073709551616"
    );
}

#[test]
fn integers_to_and_from_machine_words() {
    assert_eq!(Integer::from_u64(0).to_usize(), Some(0));
    assert_eq!(Integer::from_usize(usize::MAX).to_usize(), Some(usize::MAX));
    assert_eq!(Integer::from_usize(12345).to_usize(), Some(12345));
    assert_eq!(Integer::from_digits(&vec![1u8; 40], 10).to_usize(), None);
    assert_eq!(Integer::from_u64(42).clone(), Integer::from_u64(42));
    assert_eq!(decimal_to_usize(&vec![0, 4, 2]), Some(42));
    assert_eq!(decimal_to_usize(&vec![]), Some(0));
    let max = usize::MAX.to_string();
    let max_digits: Vec<u8> = max.bytes().map(|b| b - b'0').collect();
    assert_eq!(decimal_to_usize(&max_digits), Some(usize::MAX));
    let mut beyond = max_digits.clone();
    let last = beyond.len() - 1;
    beyond[last] += 1;
    assert_eq!(decimal_to_usize(&beyond), None);
    let mut longer = max_digits;
    longer.push(0);
    assert_eq!(decimal_to_usize(&longer), None);
}

#[test]
fn text_helpers() {
    assert_eq!(chars_of("aü€"), vec!['a', 'ü', '€']);
    assert_eq!(chars_of(""), Vec::<char>::new());
    assert_eq!(string_of(&vec!['a', 'b', 'c', 'd'], 1, 3), "bc");
    assert_eq!(string_of(&vec!['a', 'b'], 2, 2), "");
    assert_eq!(written(|b| push_decimal(b, 0)), "0");
    assert_eq!(written(|b| push_decimal(b, 10)), "10");
    assert_eq!(written(|b| push_decimal(b, 9_007_199_254_740_993)), "9007199254740993");
    assert_eq!(written(|b| push_prefix(b, "äöüxyz", 3)), "äöü");
    assert_eq!(written(|b| push_prefix(b, "ab", 3)), "ab");
    assert_eq!(written(|b| push_prefix(b, "abc", 0)), "");
    assert_eq!(written(|b| push_quoted(b, "a'b\"c", '\'')), "'a\\'b\"c'");
    assert_eq!(written(|b| push_quoted(b, "a'b\"c\r", '"')), "\"a'b\\\"c\\r\"");
}
