use mwifiex_nl80211_test_mode::command::{InvalidValue, MfgCmd, SignalBandwidth};
use mwifiex_nl80211_test_mode::procfs::{parse_procfs_command, ArgError, ProcfsError};
use mwifiex_nl80211_test_mode::util::MacAddrError;

#[test]
fn missing_equals_is_reported() {
    assert_eq!(parse_procfs_command("tx_antenna 1"), Err(ProcfsError::MissingEquals));
    assert_eq!(parse_procfs_command(""), Err(ProcfsError::MissingEquals));
}

#[test]
fn unknown_key_is_reported() {
    assert_eq!(parse_procfs_command("unknown_cmd=1"), Err(ProcfsError::UnknownCommand));
    assert_eq!(parse_procfs_command("=1"), Err(ProcfsError::UnknownCommand));
}

#[test]
fn missing_argument_names_its_position() {
    assert_eq!(
        parse_procfs_command("radio_mode=11"),
        Err(ProcfsError::Argument(ArgError::Missing { position: 1 }))
    );
    assert_eq!(
        parse_procfs_command("tx_power=15"),
        Err(ProcfsError::Argument(ArgError::Missing { position: 1 }))
    );
    assert_eq!(
        parse_procfs_command("channel="),
        Err(ProcfsError::Argument(ArgError::Missing { position: 0 }))
    );
}

#[test]
fn invalid_hex_is_reported() {
    assert_eq!(
        parse_procfs_command("channel=0xZZ"),
        Err(ProcfsError::Argument(ArgError::InvalidHex { position: 0 }))
    );
    assert_eq!(
        parse_procfs_command("channel=0x1ffffffffffffffff"),
        Err(ProcfsError::Argument(ArgError::InvalidHex { position: 0 }))
    );
    assert_eq!(
        parse_procfs_command("channel=0x"),
        Err(ProcfsError::Argument(ArgError::InvalidHex { position: 0 }))
    );
}

#[test]
fn out_of_range_or_malformed_value_is_reported() {
    assert_eq!(
        parse_procfs_command("channel=70000"),
        Err(ProcfsError::Argument(ArgError::InvalidValue { position: 0 }))
    );
    assert_eq!(
        parse_procfs_command("channel=0x10000"),
        Err(ProcfsError::Argument(ArgError::InvalidValue { position: 0 }))
    );
    assert_eq!(
        parse_procfs_command("channel=abc"),
        Err(ProcfsError::Argument(ArgError::InvalidValue { position: 0 }))
    );
    assert_eq!(
        parse_procfs_command("rf_test_mode=-1"),
        Err(ProcfsError::Argument(ArgError::InvalidValue { position: 0 }))
    );
}

#[test]
fn invalid_selection_is_reported() {
    assert_eq!(
        parse_procfs_command("tx_antenna=5"),
        Err(ProcfsError::InvalidValue(InvalidValue::AntennaMode(5)))
    );
    assert_eq!(
        parse_procfs_command("tx_power=15 7 0"),
        Err(ProcfsError::InvalidValue(InvalidValue::Modulation(7)))
    );
    assert_eq!(
        parse_procfs_command("tx_frame=1 0 0 0 0 0 0 0 0 0 0 0 0 7"),
        Err(ProcfsError::InvalidValue(InvalidValue::SignalBandwidth(7)))
    );
    assert_eq!(
        parse_procfs_command("trigger_frame=1 9"),
        Err(ProcfsError::InvalidValue(InvalidValue::StandaloneHeTbMode(9)))
    );
}

#[test]
fn invalid_bssid_is_reported() {
    assert_eq!(
        parse_procfs_command("tx_frame=1 0 0 0 0 0 0 0 0 0 0 0 0 0 0 0 0 0 0 0 0 00:11:zz:33:44:55"),
        Err(ProcfsError::MacAddress(MacAddrError::InvalidByte { segment: 2 }))
    );
    assert_eq!(
        parse_procfs_command("tx_frame=1 0 0 0 0 0 0 0 0 0 0 0 0 0 0 0 0 0 0 0 0 00:11:22"),
        Err(ProcfsError::MacAddress(MacAddrError::WrongLength { count: 3 }))
    );
}

#[test]
fn first_failing_argument_decides_the_error() {
    // the enable flag is read before the tx power's other arguments
    assert_eq!(
        parse_procfs_command("tx_power=x 9"),
        Err(ProcfsError::Argument(ArgError::InvalidValue { position: 0 }))
    );
    // the modulation is converted before the path is read
    assert_eq!(
        parse_procfs_command("tx_power=15 9"),
        Err(ProcfsError::InvalidValue(InvalidValue::Modulation(9)))
    );
}

#[test]
fn surrounding_whitespace_is_ignored() {
    let plain = parse_procfs_command("channel=11");
    assert_eq!(parse_procfs_command("\t channel=11 \n"), plain);
    assert_eq!(parse_procfs_command("  channel = 11"), plain);
    assert_eq!(parse_procfs_command("\u{3000}get_and_reset_per\u{2003}"), parse_procfs_command("get_and_reset_per"));
}

#[test]
fn hex_and_sign_forms() {
    assert_eq!(parse_procfs_command("channel=0X1F"), Ok(MfgCmd::RfChannel { channel: 31 }));
    assert_eq!(parse_procfs_command("channel=+6"), Ok(MfgCmd::RfChannel { channel: 6 }));
    assert_eq!(
        parse_procfs_command("he_tb_tx=1 0x1 5 400 -3"),
        Ok(MfgCmd::HeTbTx { enable: true, qnum: 1, aid: 5, axq0_mu_timer: 400, tx_pwr: -3 })
    );
}

#[test]
fn invalid_optional_arguments_take_their_defaults() {
    match parse_procfs_command("tx_frame=1 x y z 1 2 3 0 0 0 0 0 0 bad") {
        Ok(MfgCmd::TxFrame { tx_rate, payload_pattern, payload_length, adjust_burst_sifs_gap, adjust_sifs_us, short_preamble, signal_bw, num_pkt, .. }) => {
            assert_eq!(tx_rate, 0);
            assert_eq!(payload_pattern, 0);
            assert_eq!(payload_length, 0);
            assert!(adjust_burst_sifs_gap);
            assert_eq!(adjust_sifs_us, 2);
            assert!(short_preamble);
            assert_eq!(signal_bw, SignalBandwidth::Default);
            assert_eq!(num_pkt, -1);
        }
        other => panic!("unexpected {other:?}"),
    }
}
