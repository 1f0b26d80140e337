use mwifiex_nl80211_test_mode::runner::{
    apply_cli_variables, parse_key_val, replace_chars, stop_after_failure, substitute_variables,
    wait_message, COMMAND_SETTLE_MS,
};

fn pairs(v: &[(&str, &str)]) -> Vec<(String, String)> {
    v.iter().map(|(k, v)| (k.to_string(), v.to_string())).collect()
}

#[test]
fn cli_overrides_declared_variables() {
    let mut vars = pairs(&[("channel", "1"), ("band", "ghz2_4")]);
    let cli = pairs(&[("channel", "23"), ("power", "3"), ("channel", "36"), ("band", "ghz5")]);
    let unapplied = apply_cli_variables(&mut vars, &cli);
    assert_eq!(vars, pairs(&[("channel", "36"), ("band", "ghz5")]));
    assert_eq!(unapplied, vec![1]);
}

#[test]
fn no_overrides_change_nothing() {
    let mut vars = pairs(&[("a", "1")]);
    let unapplied = apply_cli_variables(&mut vars, &[]);
    assert_eq!(vars, pairs(&[("a", "1")]));
    assert!(unapplied.is_empty());
    let mut none: Vec<(String, String)> = Vec::new();
    assert_eq!(apply_cli_variables(&mut none, &pairs(&[("x", "1"), ("y", "2")])), vec![0, 1]);
}

#[test]
fn placeholders_are_replaced() {
    let raw = "radio0: ${radio0}\nradio1: ${radio1}\nagain: ${radio0}\nother: ${unknown}\n";
    let vars = pairs(&[("radio0", "11"), ("radio1", "0")]);
    assert_eq!(
        substitute_variables(raw, &vars),
        "radio0: 11\nradio1: 0\nagain: 11\nother: ${unknown}\n"
    );
}

#[test]
fn placeholders_are_replaced_in_order() {
    // a value that spells a later placeholder is replaced too, as with
    // `str::replace` applied one variable after the other
    let vars = pairs(&[("a", "${b}"), ("b", "2")]);
    assert_eq!(substitute_variables("${a} ${b}", &vars), "2 2");
    let vars = pairs(&[("b", "2"), ("a", "${b}")]);
    assert_eq!(substitute_variables("${a} ${b}", &vars), "${b} 2");
}

#[test]
fn replacement_matches_str_replace() {
    let cases = [("aaa", "aa", "X"), ("abcabc", "bc", ""), ("xyz", "q", "Q"), ("", "a", "b"), ("aaaa", "aa", "a")];
    for (s, pat, with) in cases {
        let sc: Vec<char> = s.chars().collect();
        let pc: Vec<char> = pat.chars().collect();
        let wc: Vec<char> = with.chars().collect();
        let got: String = replace_chars(&sc, &pc, &wc).into_iter().collect();
        assert_eq!(got, s.replace(pat, with));
    }
}

#[test]
fn wait_messages() {
    assert_eq!(wait_message(&None), "Press Enter to continue...");
    assert_eq!(wait_message(&Some("Attach probe".to_string())), "Attach probe");
}

#[test]
fn only_an_explicit_no_stops_a_sequence() {
    assert!(stop_after_failure(Some(false)));
    assert!(!stop_after_failure(Some(true)));
    assert!(!stop_after_failure(None));
    assert_eq!(COMMAND_SETTLE_MS, 500);
}

#[test]
fn key_value_arguments() {
    assert_eq!(parse_key_val("channel=116"), Ok(("channel".to_string(), "116".to_string())));
    assert_eq!(parse_key_val("a=b=c"), Ok(("a".to_string(), "b=c".to_string())));
    assert_eq!(parse_key_val("=x"), Ok((String::new(), "x".to_string())));
    assert_eq!(
        parse_key_val("channel"),
        Err("invalid KEY=VALUE format: no `=` found in `channel`".to_string())
    );
}

#[test]
fn later_overrides_win_and_unknown_ones_change_nothing() {
    let base = pairs(&[("a", "1"), ("b", "2")]);
    let mut with_unknown = base.clone();
    let unapplied = apply_cli_variables(&mut with_unknown, &pairs(&[("z", "9")]));
    assert_eq!(with_unknown, base);
    assert_eq!(unapplied, vec![0]);
    let mut twice = base.clone();
    apply_cli_variables(&mut twice, &pairs(&[("b", "3"), ("b", "4")]));
    assert_eq!(twice, pairs(&[("a", "1"), ("b", "4")]));
}
