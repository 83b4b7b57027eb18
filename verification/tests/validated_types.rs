use lesbar::grapheme::Grapheme;
use lesbar::pstr::PStr;
use lesbar::tstr::TGrapheme;
use lesbar::pstring::PString;
use lesbar::tstr::TStr;
use lesbar::tstring::TString;

// Construction succeeds exactly when the input has legible text; on
// failure the rejected value comes back byte-identical.
#[test]
fn construction_succeeds_iff_input_has_text() {
    assert!(TStr::try_from_str("legible").is_ok());
    assert!(TString::try_from_str("legible").is_ok());
    assert!(PStr::try_from_str("legible").is_ok());
    assert!(PString::try_from_str("legible").is_ok());

    for illegible in ["", "\u{200B}", "\u{FEFF}", "\u{200B}\u{200D}"] {
        assert_eq!(TStr::try_from_str(illegible).unwrap_err(), illegible);
        assert_eq!(TString::try_from_str(illegible).unwrap_err(), illegible);
        assert_eq!(PStr::try_from_str(illegible).unwrap_err(), illegible);
        assert_eq!(PString::try_from_str(illegible).unwrap_err(), illegible);
    }
}

#[test]
fn rejected_owned_string_is_returned_unchanged() {
    let rejected = TString::try_from_string("\u{200B}".to_string()).unwrap_err();
    assert_eq!(rejected, "\u{200B}");
    let rejected = PString::try_from_string(String::new()).unwrap_err();
    assert_eq!(rejected, "");
}

#[test]
fn lone_private_use_constructs_a_buffer() {
    let buffer = TString::try_from_str("\u{E064}").unwrap();
    assert_eq!(buffer.as_str(), "\u{E064}");
}

#[test]
fn tstr_round_trips_to_tstring() {
    let view = TStr::try_from_str("round trip").unwrap();
    let buffer = view.into_tstring();
    assert_eq!(buffer.as_str(), "round trip");
    assert_eq!(buffer.as_tstr().as_str(), "round trip");
    assert_eq!(buffer.into_string(), "round trip");
}

#[test]
fn tstr_graphemes_cover_the_view() {
    let view = TStr::try_from_str("ab\u{0308}c").unwrap();
    let clusters = view.graphemes();
    assert_eq!(
        clusters,
        vec!["a".to_string(), "b\u{0308}".to_string(), "c".to_string()]
    );
    assert_eq!(clusters.concat(), view.as_str());
}

#[test]
fn tstring_leak_preserves_contents() {
    let buffer = TString::try_from_str("still here").unwrap();
    let view = buffer.leak();
    assert_eq!(view.as_str(), "still here");
}

#[test]
fn take_combinators_report_the_outcome() {
    let mut buffer = TString::try_from_str("AB").unwrap();
    assert!(buffer.pop_char().or_false());
    assert!(!buffer.pop_char().or_false());
    assert_eq!(buffer.as_str(), "A");

    let mut buffer = TString::try_from_str("AB").unwrap();
    assert_eq!(buffer.pop_char().or_none(), Some('B'));
    assert_eq!(buffer.pop_char().or_none(), None);

    let mut buffer = TString::try_from_str("AB").unwrap();
    assert_eq!(buffer.pop_char().or_get(), Ok('B'));
    assert_eq!(buffer.pop_char().or_get(), Err("A".to_string()));

    let mut buffer = TString::try_from_str("AB").unwrap();
    assert_eq!(buffer.pop_char().or_else(|| "drained"), Ok('B'));
    assert_eq!(buffer.pop_char().or_else(|| "drained"), Err("drained"));
}

#[test]
fn tgrapheme_accepts_legible_clusters_only() {
    let legible = Grapheme::try_from_str("A").unwrap();
    let validated = TGrapheme::try_from_grapheme(legible).unwrap();
    assert_eq!(validated.as_grapheme().as_str(), "A");

    let private_use = Grapheme::try_from_str("\u{E064}").unwrap();
    assert!(TGrapheme::try_from_grapheme(private_use).is_ok());

    let invisible = Grapheme::try_from_str("\u{200B}").unwrap();
    let rejected = TGrapheme::try_from_grapheme(invisible).unwrap_err();
    assert_eq!(rejected.as_str(), "\u{200B}");
}

#[test]
fn pstr_width_is_never_zero() {
    let view = PStr::try_from_str("A").unwrap();
    assert_eq!(view.width(), 1);

    let wide = PStr::try_from_str("あ").unwrap();
    assert_eq!(wide.width(), 2);

    let mixed = PStr::try_from_str("Ｈｅｌｌｏ, ｗｏｒｌｄ!").unwrap();
    assert_eq!(mixed.width(), 23);
}

#[test]
fn pstr_width_cjk_widens_ambiguous_characters() {
    let section = PStr::try_from_str("\u{A7}").unwrap();
    assert_eq!(section.width(), 1);
    assert_eq!(section.width_cjk(), 2);
}

#[test]
fn pstring_accessors_preserve_contents() {
    let buffer = PString::try_from_str("printable").unwrap();
    assert_eq!(buffer.as_str(), "printable");
    assert_eq!(buffer.as_pstr().as_str(), "printable");
    assert_eq!(buffer.as_pstr().into_pstring().as_str(), "printable");
    assert_eq!(buffer.into_string(), "printable");

    let leaked = PString::try_from_str("leaked").unwrap().leak();
    assert_eq!(leaked.as_str(), "leaked");
}
