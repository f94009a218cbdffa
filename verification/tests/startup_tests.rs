use weather_proxy::error::Error;
use weather_proxy::startup::{
    classify_converter_arg, converter_probe_outcome, converter_search_outcome, icon_base_url,
    plan_cache_dir, require_api_key, subdir_path, ConverterLookup, DirStep,
};

#[test]
fn cache_subdirectories_hang_off_the_root() {
    assert_eq!(subdir_path("/var/cache/proxy", "icon"), "/var/cache/proxy/icon");
    assert_eq!(subdir_path(".", "data"), "./data");
}

#[test]
fn existing_directory_is_used() {
    assert_eq!(plan_cache_dir("/c/icon", true, true), Ok(DirStep::UseExisting));
}

#[test]
fn free_path_is_created() {
    assert_eq!(plan_cache_dir("/c/icon", false, false), Ok(DirStep::Create));
}

#[test]
fn conflicting_path_is_fatal() {
    assert_eq!(
        plan_cache_dir("/c/icon", true, false),
        Err(Error::PathConflict(String::from("/c/icon")))
    );
}

#[test]
fn bare_converter_name_is_searched_on_the_path() {
    assert_eq!(classify_converter_arg("rsvg-convert"), Ok(ConverterLookup::SearchPath));
}

#[test]
fn converter_path_with_directory_part_is_probed() {
    assert_eq!(classify_converter_arg("/usr/bin/rsvg-convert"), Ok(ConverterLookup::Probe));
    assert_eq!(classify_converter_arg("bin/rsvg-convert"), Ok(ConverterLookup::Probe));
}

#[test]
fn empty_converter_name_is_not_found() {
    assert_eq!(
        classify_converter_arg(""),
        Err(Error::NotFoundError(String::new()))
    );
    assert_eq!(
        classify_converter_arg("/"),
        Err(Error::NotFoundError(String::from("/")))
    );
}

#[test]
fn search_outcome_uses_what_was_found() {
    assert_eq!(
        converter_search_outcome("rsvg-convert", Some(String::from("/usr/bin/rsvg-convert"))),
        Ok(String::from("/usr/bin/rsvg-convert"))
    );
    assert_eq!(
        converter_search_outcome("rsvg-convert", None),
        Err(Error::NotFoundError(String::from("rsvg-convert")))
    );
}

#[test]
fn probe_outcome_keeps_accessible_paths() {
    assert_eq!(
        converter_probe_outcome(String::from("/opt/rsvg"), true),
        Ok(String::from("/opt/rsvg"))
    );
    assert_eq!(
        converter_probe_outcome(String::from("/opt/rsvg"), false),
        Err(Error::NotFoundError(String::from("/opt/rsvg")))
    );
}

#[test]
fn serving_requires_a_credential() {
    assert_eq!(require_api_key(Some(String::from("k"))), Ok(String::from("k")));
    assert_eq!(require_api_key(None), Err(Error::NoApiKey));
}

#[test]
fn icon_base_url_embeds_the_style() {
    assert_eq!(
        icon_base_url("funky/dark"),
        "https://yastatic.net/weather/i/icons/funky/dark/"
    );
}
