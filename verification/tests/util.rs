use cosm_orc::orchestrator::cosm_orc::{contract_name, wasm_contract_name, wasm_file_stem};
use cosm_orc::util::decimal::Decimal;
use cosm_orc::util::key_str::{first_external_frame, process_backtrace, FrameSymbol};
use cosm_orc::util::num::parse_u64;
use cosm_orc::util::str_map::StrMap;
use cosm_orc::util::text::contains;

#[test]
fn parse_u64_reads_decimal_numbers() {
    assert_eq!(parse_u64("0"), Some(0));
    assert_eq!(parse_u64("42"), Some(42));
    assert_eq!(parse_u64("+42"), Some(42));
    assert_eq!(parse_u64("007"), Some(7));
    assert_eq!(parse_u64("18446744073709551615"), Some(u64::MAX));
}

#[test]
fn parse_u64_refuses_what_is_no_number() {
    assert_eq!(parse_u64(""), None);
    assert_eq!(parse_u64("+"), None);
    assert_eq!(parse_u64("-1"), None);
    assert_eq!(parse_u64("4 2"), None);
    assert_eq!(parse_u64("42a"), None);
    assert_eq!(parse_u64("++1"), None);
    assert_eq!(parse_u64("١٢"), None);
    assert_eq!(parse_u64("18446744073709551616"), None);
    assert_eq!(parse_u64("99999999999999999999999"), None);
}

#[test]
fn parse_u64_agrees_with_std() {
    for s in ["0", "1", "+9", "10", "65535", "18446744073709551615", "18446744073709551616", "", "x", "1x", " 1", "1 ", "+", "+-1", "0000000000000000000000001"] {
        assert_eq!(parse_u64(s), s.parse::<u64>().ok(), "{:?}", s);
    }
}

#[test]
fn decimal_parse_reads_units_and_scale() {
    let d = Decimal::parse("1.5").unwrap();
    assert_eq!((d.units(), d.scale()), (15, 1));
    let d = Decimal::parse("0.025").unwrap();
    assert_eq!((d.units(), d.scale()), (25, 3));
    let d = Decimal::parse("2").unwrap();
    assert_eq!((d.units(), d.scale()), (2, 0));
    let d = Decimal::parse("0.000000000000000001").unwrap();
    assert_eq!((d.units(), d.scale()), (1, 18));
    let d = Decimal::parse("18446744073709551615").unwrap();
    assert_eq!((d.units(), d.scale()), (u64::MAX, 0));
    let d = Decimal::parse("18.446744073709551615").unwrap();
    assert_eq!((d.units(), d.scale()), (18446744073709551615, 18));
}

#[test]
fn decimal_parse_refuses_other_forms() {
    for s in ["", ".", ".5", "1.", "1..5", "1.5.2", "-1", "+1", "1e3", "inf", "NaN", "1,5", " 1", "0.0000000000000000001", "1.8446744073709551615", "18446744073709551616", "1844674407370955161.6"] {
        assert!(Decimal::parse(s).is_none(), "{:?}", s);
    }
}

#[test]
fn decimal_new_bounds_the_scale() {
    assert!(Decimal::new(1, 18).is_some());
    assert!(Decimal::new(1, 19).is_none());
    assert_eq!(Decimal::new(15, 1).unwrap(), Decimal::parse("1.5").unwrap());
}

#[test]
fn ceil_mul_rounds_up() {
    let adjustment = Decimal::parse("1.5").unwrap();
    assert_eq!(adjustment.ceil_mul(100000), 150000);
    assert_eq!(adjustment.ceil_mul(3), 5);
    assert_eq!(adjustment.ceil_mul(0), 0);
    let price = Decimal::parse("0.025").unwrap();
    assert_eq!(price.ceil_mul(150000), 3750);
    assert_eq!(price.ceil_mul(1), 1);
    assert_eq!(price.ceil_mul(40), 1);
    assert_eq!(price.ceil_mul(41), 2);
    assert_eq!(Decimal::parse("0").unwrap().ceil_mul(77), 0);
    assert_eq!(Decimal::parse("1").unwrap().ceil_mul(u64::MAX), u64::MAX);
}

#[test]
fn ceil_mul_is_capped() {
    assert_eq!(Decimal::parse("2").unwrap().ceil_mul(u64::MAX), u64::MAX);
    assert_eq!(Decimal::parse("1.000000000000000001").unwrap().ceil_mul(u64::MAX), u64::MAX);
    assert_eq!(
        Decimal::parse("18446744073709551615").unwrap().ceil_mul(u64::MAX),
        u64::MAX
    );
    assert_eq!(
        Decimal::parse("0.5").unwrap().ceil_mul(u64::MAX),
        9223372036854775808
    );
}

#[test]
fn contains_finds_substrings() {
    assert!(contains("http://localhost", "://"));
    assert!(contains("abc", ""));
    assert!(contains("", ""));
    assert!(contains("abc", "abc"));
    assert!(contains("aab", "ab"));
    assert!(contains("héllo wörld", "wör"));
    assert!(!contains("localhost:26657", "://"));
    assert!(!contains("ab", "abc"));
    assert!(!contains("", "a"));
    assert!(!contains("abcabd", "abe"));
}

#[test]
fn contract_name_strips_the_architecture() {
    assert_eq!(contract_name("cw20_base", "x86_64"), "cw20_base");
    assert_eq!(contract_name("cw20_base-x86_64", "x86_64"), "cw20_base");
    assert_eq!(contract_name("cw20_base-aarch64", "aarch64"), "cw20_base");
    assert_eq!(contract_name("cw20_base-aarch64", "x86_64"), "cw20_base-aarch64");
    assert_eq!(contract_name("cw-x86_64-x86_64", "x86_64"), "cw");
    assert_eq!(contract_name("-x86_64", "x86_64"), "");
    assert_eq!(contract_name("x86_64", "x86_64"), "x86_64");
    assert_eq!(contract_name("", "x86_64"), "");
    assert_eq!(contract_name("name-", ""), "name");
    for (stem, arch) in [("a-b-b", "b"), ("cw-x86_64", "x86_64"), ("cw", "arm"), ("--", "")] {
        let suffix = format!("-{}", arch);
        assert_eq!(contract_name(stem, arch), stem.trim_end_matches(suffix.as_str()));
    }
}

#[test]
fn str_map_upserts_and_removes() {
    let mut m: StrMap<cosm_orc::orchestrator::deploy::DeployInfo> = StrMap::new();
    assert_eq!(m.len(), 0);
    assert!(!m.contains_key("a"));
    let info = |id| cosm_orc::orchestrator::deploy::DeployInfo {
        code_id: Some(id),
        address: None,
    };
    m.insert("a".to_string(), info(1));
    m.insert("b".to_string(), info(2));
    m.insert("a".to_string(), info(3));
    assert_eq!(m.len(), 2);
    assert_eq!(m.get("a").unwrap().code_id, Some(3));
    assert_eq!(m.get("b").unwrap().code_id, Some(2));
    assert!(m.get("c").is_none());
    assert_eq!(m.entries().len(), 2);
    assert_eq!(m.remove("a").unwrap().code_id, Some(3));
    assert!(m.remove("a").is_none());
    assert_eq!(m.len(), 1);
    assert!(m.contains_key("b"));
    let copy = m.clone();
    assert_eq!(copy.len(), 1);
    assert_eq!(copy.get("b").unwrap().code_id, Some(2));
    let m = StrMap::from_entries(vec![
        ("x".to_string(), info(1)),
        ("y".to_string(), info(2)),
        ("x".to_string(), info(9)),
    ]);
    assert_eq!(m.len(), 2);
    assert_eq!(m.get("x").unwrap().code_id, Some(9));
}

fn frame(file: &str, line: u32) -> Vec<FrameSymbol> {
    vec![FrameSymbol {
        file_name: Some(file.to_string()),
        line: Some(line),
    }]
}

#[test]
fn first_external_frame_skips_internal_files() {
    let frames = vec![
        frame("/cargo/registry/src/x/backtrace-0.3.66/src/capture.rs", 10),
        frame("/home/me/cosm-orc/src/orchestrator/cosm_orc.rs", 20),
        frame("/home/me/project/tests/it.rs", 30),
        frame("/home/me/project/tests/other.rs", 40),
    ];
    assert_eq!(
        first_external_frame(&frames),
        Some(("/home/me/project/tests/it.rs".to_string(), 30))
    );
}

#[test]
fn first_external_frame_judges_by_the_first_symbol() {
    let mut inlined = frame("/x/backtrace-0.3/src/lib.rs", 1);
    inlined.extend(frame("/home/me/project/tests/it.rs", 2));
    assert_eq!(
        first_external_frame(&vec![inlined, frame("/b.rs", 7)]),
        Some(("/b.rs".to_string(), 7))
    );
    let mut outer = frame("/a.rs", 5);
    outer.extend(frame("/x/backtrace-0.3/src/lib.rs", 1));
    assert_eq!(
        first_external_frame(&vec![outer, frame("/b.rs", 7)]),
        Some(("/a.rs".to_string(), 5))
    );
}

#[test]
fn first_external_frame_gives_up_on_unknown_places() {
    assert_eq!(first_external_frame(&vec![]), None);
    assert_eq!(
        first_external_frame(&vec![frame("/x/backtrace-0.3/src/lib.rs", 1)]),
        None
    );
    assert_eq!(first_external_frame(&vec![vec![], frame("/a.rs", 1)]), None);
    let nameless = vec![FrameSymbol {
        file_name: None,
        line: Some(3),
    }];
    assert_eq!(first_external_frame(&vec![nameless, frame("/a.rs", 1)]), None);
    let lineless = vec![FrameSymbol {
        file_name: Some("/a.rs".to_string()),
        line: None,
    }];
    assert_eq!(first_external_frame(&vec![lineless, frame("/b.rs", 1)]), None);
    let internal_lineless = vec![FrameSymbol {
        file_name: Some("/x/backtrace-0.3/src/lib.rs".to_string()),
        line: None,
    }];
    assert_eq!(
        first_external_frame(&vec![internal_lineless, frame("/b.rs", 7)]),
        Some(("/b.rs".to_string(), 7))
    );
}

#[test]
fn process_backtrace_reads_a_real_backtrace() {
    let b = backtrace::Backtrace::new();
    if let Some((file, line)) = process_backtrace(&b) {
        assert!(!file.contains("/backtrace-"));
        assert!(line > 0);
    }
    let empty = backtrace::Backtrace::from(Vec::new());
    assert_eq!(process_backtrace(&empty), None);
}

#[test]
fn wasm_file_stem_is_what_stands_before_the_extension() {
    assert_eq!(wasm_file_stem("cw_test.wasm"), Some("cw_test".to_string()));
    assert_eq!(wasm_file_stem("a.b.wasm"), Some("a.b".to_string()));
    assert_eq!(wasm_file_stem("..wasm"), Some(".".to_string()));
    assert_eq!(wasm_file_stem("x-aarch64.wasm"), Some("x-aarch64".to_string()));
}

#[test]
fn wasm_file_stem_refuses_other_files() {
    assert_eq!(wasm_file_stem(""), None);
    assert_eq!(wasm_file_stem("wasm"), None);
    assert_eq!(wasm_file_stem(".wasm"), None);
    assert_eq!(wasm_file_stem("cw_test.wasm.bak"), None);
    assert_eq!(wasm_file_stem("cw_test.wasm."), None);
    assert_eq!(wasm_file_stem("cw_test.WASM"), None);
    assert_eq!(wasm_file_stem("cw_test.wasmx"), None);
    assert_eq!(wasm_file_stem("cw_test.was"), None);
    assert_eq!(wasm_file_stem("cw_test.json"), None);
    assert_eq!(wasm_file_stem("cw_test"), None);
    assert_eq!(wasm_file_stem(".."), None);
}

#[test]
fn wasm_contract_name_drops_the_architecture() {
    assert_eq!(
        wasm_contract_name("cw_test-aarch64.wasm", "aarch64"),
        Some("cw_test".to_string())
    );
    assert_eq!(
        wasm_contract_name("cw_test-aarch64.wasm", "x86_64"),
        Some("cw_test-aarch64".to_string())
    );
    assert_eq!(wasm_contract_name("cw_test.wasm", "aarch64"), Some("cw_test".to_string()));
    assert_eq!(wasm_contract_name("cw_test-aarch64.txt", "aarch64"), None);
    assert_eq!(wasm_contract_name(".wasm", "aarch64"), None);
}
