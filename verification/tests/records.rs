use races::race::error::RaceError;
use races::race::files::{file_name, race_id_of_file, Directory};
use races::race::identifier::{clean_name, slug};
use races::race::ordering::sort_by_start;
use races::race::record::{Degrees, LatLon, Race, Timestamp};
use races::text::{copy_range, push_decimal};

fn race(id: &str, start: Option<i64>) -> Race {
    Race {
        id: Some(String::from(id)),
        race_id: None,
        archived: false,
        name: String::from(id),
        short_name: None,
        boat: String::new(),
        start_time: start.map(Timestamp::from_seconds),
        end_time: None,
        start: LatLon {
            lat: Degrees::from_bits(0),
            lon: Degrees::from_bits(0),
        },
        waypoints: Vec::new(),
        ice_limits: None,
    }
}

fn sorted_ids(starts: &[(&str, Option<i64>)]) -> Vec<String> {
    let races = starts.iter().map(|(id, start)| race(id, *start)).collect();
    sort_by_start(races)
        .into_iter()
        .map(|race| race.id.unwrap())
        .collect()
}

#[test]
fn sort_by_start_is_descending_and_stable() {
    assert_eq!(sorted_ids(&[]), Vec::<String>::new());
    assert_eq!(sorted_ids(&[("a", None)]), vec!["a"]);
    assert_eq!(
        sorted_ids(&[("a", Some(1)), ("b", Some(2)), ("c", Some(3))]),
        vec!["c", "b", "a"]
    );
    assert_eq!(
        sorted_ids(&[("a", Some(3)), ("b", Some(2)), ("c", Some(1))]),
        vec!["a", "b", "c"]
    );
    assert_eq!(
        sorted_ids(&[
            ("a", Some(5)),
            ("b", None),
            ("c", Some(5)),
            ("d", None),
            ("e", Some(5)),
            ("f", Some(6))
        ]),
        vec!["f", "a", "c", "e", "b", "d"]
    );
}

#[test]
fn sort_by_start_puts_a_start_before_the_epoch_ahead_of_no_start() {
    assert_eq!(
        sorted_ids(&[("none", None), ("old", Some(-86_400)), ("least", Some(i64::MIN))]),
        vec!["old", "least", "none"]
    );
}

#[test]
fn locate_overwrites_identifier_and_flag_only() {
    let mut stored = race("inside", Some(7));
    stored.archived = false;
    let located = stored.clone().locate(String::from("outside"), true);
    let mut expected = stored;
    expected.id = Some(String::from("outside"));
    expected.archived = true;
    assert_eq!(located, expected);
}

#[test]
fn degrees_keep_the_bits_of_the_double() {
    for value in [0.0_f64, -0.0, 46.5, -179.999_999_9, f64::MAX, f64::MIN_POSITIVE] {
        let angle = Degrees::from_bits(value.to_bits());
        assert_eq!(f64::from_bits(angle.to_bits()).to_bits(), value.to_bits());
    }
}

#[test]
fn timestamp_from_millis_drops_what_is_below_a_second() {
    assert_eq!(Timestamp::from_millis(0).seconds, 0);
    assert_eq!(Timestamp::from_millis(999).seconds, 0);
    assert_eq!(Timestamp::from_millis(1_000).seconds, 1);
    assert_eq!(Timestamp::from_millis(1_500).seconds, 1);
    assert_eq!(Timestamp::from_millis(1_704_844_800_999).seconds, 1_704_844_800);
    assert_eq!(Timestamp::from_millis(-1).seconds, -1);
    assert_eq!(Timestamp::from_millis(-1_000).seconds, -1);
    assert_eq!(Timestamp::from_millis(-1_001).seconds, -2);
    assert_eq!(
        Timestamp::from_millis(i64::MAX).seconds,
        9_223_372_036_854_775
    );
    assert_eq!(
        Timestamp::from_millis(i64::MIN).seconds,
        -9_223_372_036_854_776
    );
    assert_eq!(Timestamp::from_seconds(-5).seconds, -5);
}

#[test]
fn file_name_adds_the_ending() {
    assert_eq!(file_name("race1"), "race1.yaml");
    assert_eq!(file_name(""), ".yaml");
    assert_eq!(file_name("a.b"), "a.b.yaml");
    assert_eq!(file_name("vendée"), "vendée.yaml");
}

#[test]
fn race_id_of_file_takes_the_ending_off() {
    assert_eq!(race_id_of_file("race1.yaml"), Some(String::from("race1")));
    assert_eq!(race_id_of_file("a.b.yaml"), Some(String::from("a.b")));
    assert_eq!(race_id_of_file("vendée.yaml"), Some(String::from("vendée")));
    assert_eq!(race_id_of_file("..yaml"), Some(String::from(".")));
    assert_eq!(race_id_of_file(".yaml"), None);
    assert_eq!(race_id_of_file("yaml"), None);
    assert_eq!(race_id_of_file(""), None);
    assert_eq!(race_id_of_file("race1.yml"), None);
    assert_eq!(race_id_of_file("race1.YAML"), None);
    assert_eq!(race_id_of_file("race1.yaml.bak"), None);
    assert_eq!(race_id_of_file("race1yaml"), None);
}

#[test]
fn race_id_of_file_inverts_file_name() {
    for id in ["race1", "a.b", "x", "with space", "vendée-globe"] {
        assert_eq!(race_id_of_file(&file_name(id)), Some(String::from(id)));
    }
}

#[test]
fn directories_know_their_flag() {
    assert!(!Directory::Active.is_archived());
    assert!(Directory::Archived.is_archived());
}

fn decimal(n: u64) -> String {
    let mut text = String::new();
    push_decimal(&mut text, n);
    text
}

#[test]
fn push_decimal_writes_the_numeral() {
    assert_eq!(decimal(0), "0");
    assert_eq!(decimal(7), "7");
    assert_eq!(decimal(10), "10");
    assert_eq!(decimal(65_535), "65535");
    assert_eq!(decimal(1_000_000), "1000000");
    assert_eq!(decimal(u64::MAX), "18446744073709551615");
    let mut text = String::from("n=");
    push_decimal(&mut text, 409);
    assert_eq!(text, "n=409");
}

#[test]
fn copy_range_counts_characters() {
    assert_eq!(copy_range("vendée globe", 0, 6), "vendée");
    assert_eq!(copy_range("vendée globe", 7, 12), "globe");
    assert_eq!(copy_range("vendée globe", 5, 5), "");
    assert_eq!(copy_range("", 0, 0), "");
}

#[test]
fn slug_joins_the_words_by_hyphens() {
    assert_eq!(slug("vendee globe 2024"), "vendee-globe-2024");
    assert_eq!(slug("  hello   world  "), "hello-world");
    assert_eq!(slug(""), "");
    assert_eq!(slug("   "), "");
    assert_eq!(slug("a"), "a");
    assert_eq!(slug("a-b"), "ab");
    assert_eq!(slug("a - b"), "a-b");
    assert_eq!(slug("route du rhum (2022)!"), "route-du-rhum-2022");
    assert_eq!(slug("tab\tand\nnewline"), "tabandnewline");
    assert_eq!(slug("Kept AS it IS"), "Kept-AS-it-IS");
    assert_eq!(slug("é è"), "");
    assert_eq!(slug("x é y"), "x-y");
}

#[test]
fn clean_name_puts_the_name_in_lower_case_first() {
    assert_eq!(clean_name("Vendée Globe 2024"), "vende-globe-2024");
    assert_eq!(clean_name("TRANSAT Jacques Vabre"), "transat-jacques-vabre");
    assert_eq!(clean_name("ABC"), "abc");
    // The Kelvin sign becomes the letter k.
    assert_eq!(clean_name("\u{212A}2"), "k2");
    // The capital I with a dot becomes an i and a combining dot.
    assert_eq!(clean_name("\u{130}stanbul"), "istanbul");
}

#[test]
fn race_error_messages() {
    assert_eq!(
        RaceError::AlreadyExists(String::from("race1")).message(),
        "Race race1 already exists."
    );
    assert_eq!(
        RaceError::NotFound(String::from("race1")).message(),
        "Race race1 does not exist."
    );
    assert_eq!(RaceError::IdIsMandatory().message(), "Id is mandatory");
}
