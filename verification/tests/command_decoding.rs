use mwifiex_nl80211_test_mode::command::{
    AntennaMode, CardType, CommandError, InvalidValue, LtfSymbol, MfgCmd, Modulation, RfBand,
    SignalBandwidth, TxPathId, UlBandwidth,
};
use mwifiex_nl80211_test_mode::ffi::CAL_DATA_LEN;
use mwifiex_nl80211_test_mode::netlink::MwifiexDryRunHandle;

fn encode(cmd: &MfgCmd) -> Vec<u8> {
    cmd.into_host_command_buffer(CardType::IW610).expect("encodable")
}

#[test]
fn decoding_the_own_buffer_gives_the_command_back() {
    let cmds = vec![
        MfgCmd::RfTestMode { enable: true },
        MfgCmd::TxAntenna { mode: AntennaMode::AB },
        MfgCmd::RadioMode { radio0: 11, radio1: 3 },
        MfgCmd::RfBand { band: RfBand::Ghz5 },
        MfgCmd::RfChannel { channel: 149 },
        MfgCmd::HeTbTx { enable: true, qnum: 1, aid: 5, axq0_mu_timer: 400, tx_pwr: -9 },
        MfgCmd::OtpMacAddr { write: true, mac_addr: [1, 2, 3, 4, 5, 6] },
        MfgCmd::OtpCalData { write: true, cal_data: vec![7, 8, 9] },
    ];
    for cmd in cmds {
        let buffer = encode(&cmd);
        assert_eq!(cmd.from_host_command_response(&buffer), Ok(cmd.clone()));
    }
}

#[test]
fn dry_run_reports_the_command_as_the_firmware_reads_it() {
    let handle = MwifiexDryRunHandle { card_type: CardType::IW610 };
    let cmd = MfgCmd::TxPower { power_dbm: 16, modulation: Modulation::Ofdm, path: TxPathId::B };
    // the power travels in 1/16 dBm on this card
    assert_eq!(
        handle.send_mfg_cmd(&cmd),
        Ok(MfgCmd::TxPower { power_dbm: 256, modulation: Modulation::Ofdm, path: TxPathId::B })
    );
    let per = MfgCmd::GetAndResetPer {
        rx_total_packet_count: 5,
        rx_multi_broadcast_packet_count: 6,
        rx_frame_check_sequence_errors: 7,
    };
    assert_eq!(
        handle.send_mfg_cmd(&per),
        Ok(MfgCmd::GetAndResetPer {
            rx_total_packet_count: 0,
            rx_multi_broadcast_packet_count: 0,
            rx_frame_check_sequence_errors: 0,
        })
    );
    let trig = mwifiex_nl80211_test_mode::procfs::parse_procfs_command(
        "trigger_frame=1 0 1 2 5484 0 1000 0 1 0 1 0 0 0 1 0 1 0 65535 0 511 5 0 106 1 0 0 0 90 0 0 0 0",
    )
    .unwrap();
    assert_eq!(handle.send_mfg_cmd(&trig), Ok(trig.clone()));
}

#[test]
fn tx_power_limits_are_enforced() {
    let too_high = MfgCmd::TxPower { power_dbm: 25, modulation: Modulation::Cck, path: TxPathId::A };
    assert_eq!(
        too_high.into_host_command_buffer(CardType::_8987),
        Err(CommandError::PowerTooHigh { max: 24 })
    );
    // newer cards take up to 64 dBm, in 1/16 dBm steps
    for p in [25i32, 30, 64] {
        let cmd = MfgCmd::TxPower { power_dbm: p, modulation: Modulation::Cck, path: TxPathId::A };
        let buffer = cmd.into_host_command_buffer(CardType::IW610).unwrap();
        assert_eq!(u32::from_le_bytes([buffer[20], buffer[21], buffer[22], buffer[23]]), (16 * p) as u32);
        let dry = MwifiexDryRunHandle { card_type: CardType::_9098 };
        assert_eq!(
            dry.send_mfg_cmd(&cmd),
            Ok(MfgCmd::TxPower { power_dbm: 16 * p, modulation: Modulation::Cck, path: TxPathId::A })
        );
    }
    // out-of-range requests fall back to the firmware default (-1)
    let default = MfgCmd::TxPower { power_dbm: 65, modulation: Modulation::Cck, path: TxPathId::A };
    let buffer = default.into_host_command_buffer(CardType::IW610).unwrap();
    assert_eq!(&buffer[20..24], &[0xff, 0xff, 0xff, 0xff]);
    // negative powers become 11-bit two's complement, above the limit
    let negative = MfgCmd::TxPower { power_dbm: -2, modulation: Modulation::Cck, path: TxPathId::A };
    assert_eq!(
        negative.into_host_command_buffer(CardType::IW610),
        Err(CommandError::PowerTooHigh { max: 1024 })
    );
    let lowest = MfgCmd::TxPower { power_dbm: -64, modulation: Modulation::Cck, path: TxPathId::A };
    assert_eq!(
        lowest.into_host_command_buffer(CardType::IW610),
        Err(CommandError::PowerTooHigh { max: 1024 })
    );
    let below = MfgCmd::TxPower { power_dbm: -65, modulation: Modulation::Cck, path: TxPathId::A };
    let buffer = below.into_host_command_buffer(CardType::IW610).unwrap();
    assert_eq!(&buffer[20..24], &[0xff, 0xff, 0xff, 0xff]);
    let unset = MfgCmd::TxPower { power_dbm: -1, modulation: Modulation::Cck, path: TxPathId::A };
    let buffer = unset.into_host_command_buffer(CardType::IW610).unwrap();
    assert_eq!(&buffer[20..24], &[0xff, 0xff, 0xff, 0xff]);
    let max = MfgCmd::TxPower { power_dbm: 24, modulation: Modulation::Cck, path: TxPathId::A };
    let buffer = max.into_host_command_buffer(CardType::IW610).unwrap();
    assert_eq!(&buffer[20..24], &[0x80, 0x01, 0x00, 0x00]);
}

#[test]
fn cal_data_longer_than_the_buffer_is_refused() {
    let cmd = MfgCmd::OtpCalData { write: true, cal_data: vec![0; CAL_DATA_LEN + 1] };
    assert_eq!(
        cmd.into_host_command_buffer(CardType::IW610),
        Err(CommandError::CalDataTooLong { len: CAL_DATA_LEN + 1 })
    );
    let full = MfgCmd::OtpCalData { write: true, cal_data: vec![0; CAL_DATA_LEN] };
    assert!(full.into_host_command_buffer(CardType::IW610).is_ok());
}

#[test]
fn short_responses_are_refused() {
    let cmd = MfgCmd::RfChannel { channel: 6 };
    assert_eq!(
        cmd.from_host_command_response(&[0u8; 19]),
        Err(CommandError::ResponseTooShort { needed: 20 })
    );
    let buffer = encode(&cmd);
    assert_eq!(
        cmd.from_host_command_response(&buffer[..31]),
        Err(CommandError::ResponseTooShort { needed: 32 })
    );
}

#[test]
fn firmware_failures_are_reported() {
    let cmd = MfgCmd::RfChannel { channel: 6 };
    let mut buffer = encode(&cmd);
    buffer[6] = 2;
    match cmd.from_host_command_response(&buffer) {
        Err(CommandError::Firmware { header }) => {
            assert_eq!(header.result, 2);
            assert_eq!(header.body.mfg_cmd, 0x100A);
        }
        other => panic!("unexpected {other:?}"),
    }
}

#[test]
fn answers_to_another_command_are_refused() {
    let cmd = MfgCmd::RfChannel { channel: 6 };
    let other = encode(&MfgCmd::RfBand { band: RfBand::Ghz5 });
    assert_eq!(
        cmd.from_host_command_response(&other),
        Err(CommandError::WrongCommand { expected: 0x100A, received: 0x1034 })
    );
}

#[test]
fn unknown_selections_in_responses_are_refused() {
    let cmd = MfgCmd::TxAntenna { mode: AntennaMode::A };
    let mut buffer = encode(&cmd);
    buffer[20] = 7;
    assert_eq!(
        cmd.from_host_command_response(&buffer),
        Err(CommandError::InvalidValue(InvalidValue::AntennaMode(7)))
    );
}

#[test]
fn selections_convert_both_ways() {
    for v in 0u32..6 {
        match AntennaMode::try_from(v) {
            Ok(m) => assert_eq!(m.value(), v),
            Err(e) => assert_eq!(e, InvalidValue::AntennaMode(v)),
        }
    }
    assert_eq!(AntennaMode::try_from(3u32), Ok(AntennaMode::AB));
    assert_eq!(SignalBandwidth::try_from(4u32), Ok(SignalBandwidth::Bw80));
    assert_eq!(SignalBandwidth::try_from(0xFFFF_FFFFu32), Ok(SignalBandwidth::Default));
    assert_eq!(SignalBandwidth::Default.value(), -1);
    assert_eq!(UlBandwidth::try_from(3u64), Err(InvalidValue::UlBandwidth(3)));
    assert_eq!(LtfSymbol::try_from(1u64), Ok(LtfSymbol::TwoXHELTF));
}

#[test]
fn command_numbers() {
    assert_eq!(MfgCmd::RfTestMode { enable: false }.command_number(), 0);
    assert_eq!(MfgCmd::RfTestMode { enable: true }.command_number(), 1);
    assert_eq!(MfgCmd::TxAntenna { mode: AntennaMode::A }.command_number(), 0x1004);
    assert_eq!(MfgCmd::OtpCalData { write: false, cal_data: vec![] }.command_number(), 0x121A);
}

#[test]
fn bit_field_limits_are_checked() {
    let ok = mwifiex_nl80211_test_mode::procfs::parse_procfs_command("trigger_frame=1 0 3").unwrap();
    assert!(ok.fits_bit_fields());
    let wide = mwifiex_nl80211_test_mode::procfs::parse_procfs_command("trigger_frame=1 0 4").unwrap();
    assert!(!wide.fits_bit_fields());
    assert!(MfgCmd::RfChannel { channel: 6 }.fits_bit_fields());
}

#[test]
fn encoded_lengths() {
    let trig = mwifiex_nl80211_test_mode::procfs::parse_procfs_command("trigger_frame=1").unwrap();
    assert_eq!(trig.into_host_command_buffer(CardType::IW610).unwrap().len(), 58);
    assert_eq!(encode(&MfgCmd::RfChannel { channel: 1 }).len(), 32);
    assert_eq!(encode(&MfgCmd::OtpMacAddr { write: false, mac_addr: [0; 6] }).len(), 26);
    assert_eq!(encode(&MfgCmd::OtpCalData { write: false, cal_data: vec![] }).len(), 1428);
}
