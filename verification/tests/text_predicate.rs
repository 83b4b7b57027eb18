use lesbar::grapheme::{Grapheme, GraphemeBuf};
use lesbar::text::{graphemes, has_text, is_grapheme, is_legible_cluster_str};

#[test]
fn empty_str_has_no_text() {
    assert!(!has_text(""));
}

#[test]
fn str_with_private_use_characters_has_text_one_from_plane_basic_multilingual() {
    assert!(has_text("\u{E064}"));
}

#[test]
fn str_with_private_use_characters_has_text_one_from_plane_15() {
    assert!(has_text("\u{F00FF}"));
}

#[test]
fn str_with_private_use_characters_has_text_one_from_plane_16() {
    assert!(has_text("\u{100000}"));
}

#[test]
fn str_with_private_use_characters_has_text_one_with_non_text() {
    assert!(has_text("\u{200B}\u{E064}"));
}

#[test]
fn str_with_private_use_characters_has_text_many_from_each_plane() {
    assert!(has_text("\u{E000}\u{F0000}\u{10FFFD}"));
}

#[test]
fn str_with_private_use_characters_has_text_many_with_non_text() {
    assert!(has_text("\u{E000}\u{200B}\u{E001}"));
}

#[test]
fn zero_width_only_str_has_no_text() {
    assert!(!has_text("\u{200B}"));
    assert!(!has_text("\u{FEFF}"));
    assert!(!has_text("\u{200B}\u{200D}\u{FEFF}"));
}

#[test]
fn ordinary_str_has_text() {
    assert!(has_text("A"));
    assert!(has_text(" "));
    assert!(has_text("\tend"));
    assert!(has_text("練習"));
}

// The string-level predicate is the conjunction of a whole-string width
// check and the existence of a legible cluster; check both conjuncts
// directly on the clusters of a concrete string.
#[test]
fn has_text_matches_cluster_level_characterization() {
    let text = "\u{200B}a\u{0301}";
    let clusters = graphemes(text);
    assert_eq!(clusters, vec!["\u{200B}".to_string(), "a\u{0301}".to_string()]);
    assert!(!is_legible_cluster_str(&clusters[0]));
    assert!(is_legible_cluster_str(&clusters[1]));
    assert!(has_text(text));

    let invisible = "\u{200B}\u{FEFF}";
    assert!(graphemes(invisible)
        .iter()
        .all(|cluster| !is_legible_cluster_str(cluster)));
    assert!(!has_text(invisible));
}

#[test]
fn lone_private_use_cluster_is_legible() {
    assert!(is_legible_cluster_str("\u{E064}"));
    assert!(!is_legible_cluster_str("\u{200B}"));
}

#[test]
fn graphemes_partition_the_string() {
    let text = "a\u{0310}e\u{0301}o\u{0308}\u{0332}";
    let clusters = graphemes(text);
    assert_eq!(
        clusters,
        vec![
            "a\u{0310}".to_string(),
            "e\u{0301}".to_string(),
            "o\u{0308}\u{0332}".to_string(),
        ]
    );
    assert_eq!(clusters.concat(), text);
    assert!(graphemes("").is_empty());
}

#[test]
fn is_grapheme_accepts_single_clusters_only() {
    assert!(is_grapheme("A"));
    assert!(is_grapheme("a\u{0310}"));
    assert!(is_grapheme("\u{1F3F3}\u{FE0F}\u{200D}\u{1F308}"));
    assert!(!is_grapheme(""));
    assert!(!is_grapheme("ab"));
    assert!(!is_grapheme("\u{200B}\u{E064}"));
}

#[test]
fn grapheme_try_from_str_validates_and_keeps_rejected_input() {
    let cluster = Grapheme::try_from_str("a\u{0310}").unwrap();
    assert_eq!(cluster.as_str(), "a\u{0310}");
    assert_eq!(cluster.to_char(), None);

    let single = Grapheme::try_from_str("あ").unwrap();
    assert_eq!(single.to_char(), Some('あ'));

    let error = Grapheme::try_from_str("ab").unwrap_err();
    assert_eq!(*error.as_invalid(), "ab");
    assert_eq!(error.into_invalid(), "ab");

    let empty = Grapheme::try_from_str("").unwrap_err();
    assert_eq!(empty.into_invalid(), "");
}

#[test]
fn grapheme_classifies_private_use_characters() {
    let private = Grapheme::try_from_str("\u{E064}").unwrap();
    assert!(private.is_private_use_character());
    assert!(private.is_legible_text());

    let plain = Grapheme::try_from_str("A").unwrap();
    assert!(!plain.is_private_use_character());
    assert!(plain.is_legible_text());

    let invisible = Grapheme::try_from_str("\u{200B}").unwrap();
    assert!(!invisible.is_private_use_character());
    assert!(!invisible.is_legible_text());
}

#[test]
fn grapheme_buf_round_trips_through_validation() {
    let buf = GraphemeBuf::try_from_string("o\u{0308}".to_string()).unwrap();
    assert_eq!(buf.as_str(), "o\u{0308}");
    assert_eq!(buf.as_grapheme().as_str(), "o\u{0308}");
    assert_eq!(buf.into_string(), "o\u{0308}");

    let error = GraphemeBuf::try_from_string("ab".to_string()).unwrap_err();
    assert_eq!(error.into_invalid(), "ab");
}

#[test]
fn grapheme_to_owned_copies_the_cluster() {
    let cluster = Grapheme::try_from_str("字").unwrap();
    let owned = cluster.to_owned();
    assert_eq!(owned.as_str(), "字");
}

#[test]
fn rune_error_accessors_return_the_rejected_value() {
    let error = Grapheme::try_from_str("ab").unwrap_err();
    let (value, unit) = error.take();
    assert_eq!(value, "ab");
    let _ = unit;

    let error = Grapheme::try_from_str("ab").unwrap_err();
    let _unit = error.take_and_drop();

    let error = Grapheme::try_from_str("ab").unwrap_err();
    let owning = error.into_owning();
    assert_eq!(owning.into_invalid(), "ab".to_string());

    let error = Grapheme::try_from_str("").unwrap_err();
    assert_eq!(
        error.message(),
        "encountered an invalid code point, character, or grapheme cluster"
    );
}
