use ajour_config::config::{select_directory, Config, Wow};
use ajour_config::flavor::Flavor;

fn config_with_root(flavor: Flavor, root: &str) -> Config {
    let mut c = Config::default();
    c.wow = Wow { directories: vec![(flavor, String::from(root))] };
    c
}

#[test]
fn unrecorded_flavor_resolves_to_nothing() {
    let c = Config::default();
    for f in Flavor::all() {
        assert_eq!(c.get_addon_directory_for_flavor(&f), None);
        assert_eq!(c.get_wtf_directory_for_flavor(&f), None);
        assert_eq!(c.get_download_directory_for_flavor(f), None);
        assert_eq!(c.get_root_directory_for_flavor(&f), None);
        assert!(c.plan_addon_directory(&f).is_none());
    }
    let c = config_with_root(Flavor::Retail, "/games/wow/_retail_");
    assert_eq!(c.get_addon_directory_for_flavor(&Flavor::ClassicEra), None);
}

#[test]
fn exact_case_match_wins_without_search() {
    let picked = select_directory(String::from("/r/Interface/AddOns"), true, &vec![
        String::from("/r/interface/addons"),
    ]);
    assert_eq!(picked, "/r/Interface/AddOns");
}

#[test]
fn case_variant_match_is_used_when_exact_is_absent() {
    let picked = select_directory(String::from("/games/wow/_retail_/Interface/AddOns"), false, &vec![
        String::from("/games/wow/_retail_/interface/addons"),
    ]);
    assert_eq!(picked, "/games/wow/_retail_/interface/addons");
}

#[test]
fn last_case_variant_match_wins() {
    let picked = select_directory(String::from("/r/Interface/AddOns"), false, &vec![
        String::from("/r/INTERFACE/ADDONS"),
        String::from("/r/interface/addons"),
    ]);
    assert_eq!(picked, "/r/interface/addons");
}

#[test]
fn no_match_at_all_falls_back_to_the_exact_path() {
    let picked = select_directory(String::from("/r/Interface/AddOns"), false, &vec![]);
    assert_eq!(picked, "/r/Interface/AddOns");
}

#[test]
fn missing_root_still_yields_the_expected_paths() {
    let root = "/surely/not/present/anywhere/_retail_";
    let c = config_with_root(Flavor::Retail, root);
    assert_eq!(
        c.get_addon_directory_for_flavor(&Flavor::Retail),
        Some(format!("{}/Interface/AddOns", root))
    );
    assert_eq!(
        c.get_wtf_directory_for_flavor(&Flavor::Retail),
        Some(format!("{}/WTF", root))
    );
    let plan = c.plan_addon_directory(&Flavor::Retail).unwrap();
    assert_eq!(plan.path, format!("{}/Interface/AddOns", root));
    assert!(!plan.create);
}

#[test]
fn download_directory_is_the_raw_root() {
    let c = config_with_root(Flavor::ClassicEra, "/games/wow/_classic_era_");
    assert_eq!(
        c.get_download_directory_for_flavor(Flavor::ClassicEra),
        Some(String::from("/games/wow/_classic_era_"))
    );
}

#[test]
fn root_directory_is_the_parent_of_the_recorded_root() {
    let c = config_with_root(Flavor::Retail, "/games/wow/_retail_");
    assert_eq!(
        c.get_root_directory_for_flavor(&Flavor::Retail),
        Some(String::from("/games/wow"))
    );
    let c = config_with_root(Flavor::Retail, "/_retail_");
    assert_eq!(c.get_root_directory_for_flavor(&Flavor::Retail), Some(String::from("/")));
}

#[test]
fn flavor_directory_joins_the_folder_name() {
    let c = Config::default();
    assert_eq!(
        c.get_flavor_directory_for_flavor(&Flavor::Retail, &String::from("/games/wow")),
        "/games/wow/_retail_"
    );
    assert_eq!(
        c.get_flavor_directory_for_flavor(&Flavor::ClassicTbc, &String::from("/games/wow")),
        "/games/wow/_classic_"
    );
}
