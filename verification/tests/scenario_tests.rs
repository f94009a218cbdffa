use weather_proxy::digits::{parse_u32, u32_to_string};
use weather_proxy::error::Error;
use weather_proxy::fetch::{classify_status, install_plan, scan_chunks, StatusOutcome};
use weather_proxy::icon::{IconCache, IconPhase};
use weather_proxy::router::{route, Route};
use weather_proxy::weather::{WeatherCache, WeatherStep};

#[test]
fn scenario_cold_weather_serve() {
    // Empty cache directory: the request is routed, one unconditional fetch
    // is planned, a 200 installs the body, and the response carries the exact
    // bytes as JSON.
    let c = WeatherCache {
        cache: String::from("/c/data/data.json"),
        url: String::from("https://api.weather.yandex.ru/v2/informers?lat=1&lon=2&lang=ru_RU"),
        key: String::from("test-api-key"),
    };
    assert!(matches!(route("GET", "/weather.json"), Route::Weather));
    assert_eq!(c.plan(None, 1_700_000_000), WeatherStep::Refetch);
    let (header, value) = c.request_header();
    assert_eq!(header, "X-Yandex-API-Key");
    assert_eq!(value, "test-api-key");
    assert_eq!(c.on_fetch_status(200), Ok(()));
    let body: Vec<Vec<u8>> = vec![b"{\"now\":1}".to_vec()];
    let written = scan_chunks(&body).expect("body fits the cap");
    assert_eq!(written, 9);
    let plan = install_plan(&None);
    assert_eq!(plan.mode, 0o640);
    let meta = c.response_meta(written as u64);
    assert_eq!(meta.content_type, "application/json");
    assert_eq!(meta.content_length, 9);
}

#[test]
fn scenario_cold_icon_serve() {
    // No source vector on disk yet: the conditional GET goes out without a
    // condition, the 200 leads to exactly one render at width 64, and the
    // response inherits the fetched source's timestamp.
    let c = IconCache {
        convert: String::from("rsvg-convert"),
        cache: String::from("/c/icon"),
        url: String::from("https://yastatic.net/weather/i/icons/funky/dark/"),
    };
    let (resolution, name) = match route("GET", "/icon/64/sun") {
        Route::Icon { resolution, name } => (resolution, name),
        other => panic!("unexpected route: {:?}", other),
    };
    let req = c.revalidation_request(&name, None);
    assert_eq!(req.url, "https://yastatic.net/weather/i/icons/funky/dark/sun.svg");
    assert_eq!(req.if_modified_since, None);
    let outcome = classify_status(200, req.if_modified_since.is_some());
    assert_eq!(outcome, StatusOutcome::Success);
    let raster = c.raster_path(&name, resolution);
    let phase = c.next_phase(&outcome, false, &raster).expect("fresh source renders");
    assert_eq!(phase, IconPhase::Render);
    let source_mtime: i64 = 1445412480;
    let cmd = c.render_command(&c.svg_path(&name), "/c/icon/.tmp1", resolution);
    assert_eq!(cmd[3], "64");
    assert_eq!(c.on_render_exit(Some(0)), Ok(()));
    let plan = c.raster_install_plan(source_mtime);
    assert_eq!(plan.mtime, Some(source_mtime));
    let meta = c.response_meta(2048, source_mtime);
    assert_eq!(meta.content_type, "image/png");
    assert_eq!(meta.last_modified.as_deref(), Some("Wed, 21 Oct 2015 07:28:00 GMT"));
}

#[test]
fn scenario_failed_render_leaves_no_raster() {
    // The rasterizer exits with code 1: the serve fails before any install
    // step is planned, so no raster file is created or overwritten.
    let c = IconCache {
        convert: String::from("rsvg-convert"),
        cache: String::from("/c/icon"),
        url: String::from("https://yastatic.net/weather/i/icons/funky/dark/"),
    };
    let outcome = classify_status(200, true);
    assert_eq!(c.next_phase(&outcome, true, "/c/icon/sun.64.png"), Ok(IconPhase::Render));
    assert_eq!(c.on_render_exit(Some(1)), Err(Error::ConversionFailure(1)));
}

#[test]
fn decimal_rendering_is_canonical() {
    assert_eq!(u32_to_string(0), "0");
    assert_eq!(u32_to_string(7), "7");
    assert_eq!(u32_to_string(64), "64");
    assert_eq!(u32_to_string(305), "305");
    assert_eq!(u32_to_string(4294967295), "4294967295");
}

#[test]
fn decimal_parsing_matches_the_standard_parser() {
    for s in ["0", "64", "064", "+64", "4294967295", "4294967296", "", "+", "6a4", "-4"] {
        assert_eq!(parse_u32(s), s.parse::<u32>().ok(), "input: {:?}", s);
    }
}
