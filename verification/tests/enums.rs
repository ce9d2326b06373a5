use ajour_config::channel::SelfUpdateChannel;
use ajour_config::flavor::Flavor;
use ajour_config::lang::Language;

#[test]
fn language_codes_are_total_and_distinct() {
    let all = Language::all();
    assert_eq!(all.len(), 14);
    for (i, a) in all.iter().enumerate() {
        assert!(!a.language_code().is_empty());
        assert!(!a.label().is_empty());
        assert!(!a.identifier().is_empty());
        for (j, b) in all.iter().enumerate() {
            if i != j {
                assert_ne!(a.language_code(), b.language_code());
                assert_ne!(a.label(), b.label());
                assert_ne!(a.identifier(), b.identifier());
            }
        }
    }
}

#[test]
fn language_code_values() {
    assert_eq!(Language::Czech.language_code(), "cs_CZ");
    assert_eq!(Language::English.language_code(), "en_US");
    assert_eq!(Language::Danish.language_code(), "da_DK");
    assert_eq!(Language::German.language_code(), "de_DE");
    assert_eq!(Language::French.language_code(), "fr_FR");
    assert_eq!(Language::Russian.language_code(), "ru_RU");
    assert_eq!(Language::Swedish.language_code(), "se_SE");
    assert_eq!(Language::Spanish.language_code(), "es_ES");
    assert_eq!(Language::Hungarian.language_code(), "hu_HU");
    assert_eq!(Language::Norwegian.language_code(), "nb_NO");
    assert_eq!(Language::Slovak.language_code(), "sk_SK");
    assert_eq!(Language::Turkish.language_code(), "tr_TR");
    assert_eq!(Language::Portuguese.language_code(), "pt_PT");
    assert_eq!(Language::Ukrainian.language_code(), "uk_UA");
}

#[test]
fn language_labels() {
    assert_eq!(Language::Czech.label(), "Čeština");
    assert_eq!(Language::Norwegian.label(), "Norsk Bokmål");
    assert_eq!(Language::Ukrainian.label(), "Yкраїнська");
    assert_eq!(Language::English.label(), "English");
}

#[test]
fn language_identifier_round_trip() {
    for l in Language::all() {
        assert_eq!(Language::from_identifier(l.identifier()), Some(l));
    }
    assert_eq!(Language::from_identifier("Klingon"), None);
}

#[test]
fn language_default_is_english() {
    assert_eq!(Language::default(), Language::English);
}

#[test]
fn channel_all_and_default() {
    assert_eq!(SelfUpdateChannel::all(), [SelfUpdateChannel::Stable, SelfUpdateChannel::Beta]);
    assert_eq!(SelfUpdateChannel::default(), SelfUpdateChannel::Stable);
    assert_eq!(SelfUpdateChannel::Stable.label(), "Stable");
    assert_eq!(SelfUpdateChannel::Beta.label(), "Beta");
    for c in SelfUpdateChannel::all() {
        assert_eq!(SelfUpdateChannel::from_identifier(c.identifier()), Some(c));
    }
    assert_eq!(SelfUpdateChannel::from_identifier("Nightly"), None);
}

#[test]
fn flavor_folder_names_and_identifiers() {
    assert_eq!(Flavor::Retail.folder_name(), "_retail_");
    assert_eq!(Flavor::ClassicEra.folder_name(), "_classic_era_");
    assert_eq!(Flavor::ClassicTbc.folder_name(), "_classic_");
    let all = Flavor::all();
    assert_eq!(all.len(), 5);
    for (i, a) in all.iter().enumerate() {
        assert_eq!(Flavor::from_identifier(a.identifier()), Some(*a));
        for (j, b) in all.iter().enumerate() {
            if i != j {
                assert_ne!(a.identifier(), b.identifier());
                assert_ne!(a.folder_name(), b.folder_name());
            }
        }
    }
    assert_eq!(Flavor::from_identifier("pandaria"), None);
}
