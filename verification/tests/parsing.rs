use rasterkit::errors::{EngineError, ParseError};
use rasterkit::strategy::{filter_parser, strategy_parser, Filter, FitMode};

#[test]
fn common_t() {
    let res = strategy_parser("fit_nearest");
    println!("{:?}", res);
}

#[test]
fn strategy_fit_nearest() {
    let st = strategy_parser("fit_nearest").unwrap();
    assert_eq!(st.mode, FitMode::Fit);
    assert_eq!(st.filter, Filter::Nearest);
}

#[test]
fn strategy_cover_lanczos3() {
    let st = strategy_parser("cover_lanczos3").unwrap();
    assert_eq!(st.mode, FitMode::Cover);
    assert_eq!(st.filter, Filter::Lanczos3);
}

#[test]
fn strategy_exact_catmull_rom() {
    let st = strategy_parser("exact_catmullRom").unwrap();
    assert_eq!(st.mode, FitMode::Exact);
    assert_eq!(st.filter, Filter::CatmullRom);
}

#[test]
fn strategy_all_fifteen_tokens() {
    let modes = ["fit", "cover", "exact"];
    let filters = ["nearest", "triangle", "catmullRom", "gaussian", "lanczos3"];
    for m in modes {
        for f in filters {
            let token = format!("{}_{}", m, f);
            assert!(strategy_parser(&token).is_ok(), "{}", token);
        }
    }
}

#[test]
fn strategy_unknown_mode_names_segment() {
    match strategy_parser("blah_nearest") {
        Err(ParseError::Mode(t)) => assert_eq!(t, "blah"),
        other => panic!("{:?}", other),
    }
}

#[test]
fn strategy_missing_filter_segment() {
    match strategy_parser("fit") {
        Err(ParseError::Shape(t)) => assert_eq!(t, "fit"),
        other => panic!("{:?}", other),
    }
}

#[test]
fn strategy_too_many_segments() {
    assert!(matches!(strategy_parser("fit_nearest_x"), Err(ParseError::Shape(_))));
}

#[test]
fn strategy_unknown_filter_names_segment() {
    match strategy_parser("fit_blah") {
        Err(ParseError::Filter(t)) => assert_eq!(t, "blah"),
        other => panic!("{:?}", other),
    }
}

#[test]
fn strategy_empty_mode_segment() {
    match strategy_parser("_nearest") {
        Err(ParseError::Mode(t)) => assert_eq!(t, ""),
        other => panic!("{:?}", other),
    }
}

#[test]
fn strategy_is_case_sensitive() {
    assert!(matches!(strategy_parser("Fit_nearest"), Err(ParseError::Mode(_))));
    assert!(matches!(strategy_parser("fit_Nearest"), Err(ParseError::Filter(_))));
}

#[test]
fn filter_parser_accepts_all_five() {
    assert_eq!(filter_parser("nearest").unwrap(), Filter::Nearest);
    assert_eq!(filter_parser("triangle").unwrap(), Filter::Triangle);
    assert_eq!(filter_parser("catmullRom").unwrap(), Filter::CatmullRom);
    assert_eq!(filter_parser("gaussian").unwrap(), Filter::Gaussian);
    assert_eq!(filter_parser("lanczos3").unwrap(), Filter::Lanczos3);
}

#[test]
fn filter_parser_rejects_unknown() {
    match filter_parser("catmullrom") {
        Err(ParseError::Filter(t)) => assert_eq!(t, "catmullrom"),
        other => panic!("{:?}", other),
    }
}

#[test]
fn parse_error_messages() {
    let m = EngineError::Parse(ParseError::Mode("blah".to_string())).message();
    assert_eq!(m, "Invalid strategy | invalid mode: blah");
    let f = EngineError::Parse(ParseError::Filter("x".to_string())).message();
    assert_eq!(f, "Invalid strategy | invalid filter: x");
    let s = EngineError::Parse(ParseError::Shape("fit".to_string())).message();
    assert_eq!(s, "Invalid strategy | fit");
    let p = EngineError::Parse(ParseError::Subtype("xyz".to_string())).message();
    assert_eq!(p, "unknown pnm subtype: xyz");
}

#[test]
fn sum_adds() {
    assert_eq!(rasterkit::sum(2, 3), 5);
    assert_eq!(rasterkit::sum(-4, 4), 0);
}
