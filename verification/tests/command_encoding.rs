use mwifiex_nl80211_test_mode::command::{
    ActiveSubchannel, AntennaMode, CardType, ChannelBandwidth, MfgCmd, Modulation, RfBand,
    SignalBandwidth, TxPathId,
};
use mwifiex_nl80211_test_mode::ffi::{
    GenericCfg, HostCmd, MfgCmdHeader, MwifiexMfgCmd, HOST_CMD_CMD_MFG_COMMAND,
};

fn validate_host_cmd_header(buffer: &[u8], expected_size: u16) -> &[u8] {
    let size_bytes = u16::to_le_bytes(expected_size);
    let command_bytes = HOST_CMD_CMD_MFG_COMMAND.to_le_bytes();

    assert_eq!(
        buffer[0..8],
        [
            command_bytes[0],
            command_bytes[1],
            size_bytes[0],
            size_bytes[1],
            0x00,
            0x00,
            0x00,
            0x00
        ],
        "HostCmd header mismatch: expected size {:#x}",
        expected_size
    );

    &buffer[8..]
}

fn validate_mfg_cmd_header(buffer: &[u8], expected_mfg_cmd: u32, expected_action: u16) -> &[u8] {
    let mfg_cmd_bytes = u32::to_le_bytes(expected_mfg_cmd);
    let action_bytes = u16::to_le_bytes(expected_action);

    assert_eq!(
        buffer[0..12],
        [
            mfg_cmd_bytes[0],
            mfg_cmd_bytes[1],
            mfg_cmd_bytes[2],
            mfg_cmd_bytes[3],
            action_bytes[0],
            action_bytes[1],
            0x00,
            0x00,
            0x00,
            0x00,
            0x00,
            0x00
        ],
        "MfgCmd header mismatch: expected mfg_cmd {:#x} and action {:#x}",
        expected_mfg_cmd,
        expected_action
    );

    &buffer[12..]
}

#[test]
fn host_cmd_header() {
    let host_cmd: HostCmd<[u8; 4]> = HostCmd::default();
    let bytes = host_cmd.to_vec();

    let body = validate_host_cmd_header(&bytes, 12);

    assert_eq!(body.len(), 4);
    assert_eq!(body, &[0, 0, 0, 0]);
}

#[test]
fn mfg_cmd_header() {
    let mfg_cmd_header: MfgCmdHeader<GenericCfg> = MfgCmdHeader::new(
        0xCAFE_B0BA,
        true,
        GenericCfg {
            data1: 0xFFEE_DDCC,
            data2: 0xBBAA_9988,
            data3: 0x7766_5544,
        },
    );
    let bytes = mfg_cmd_header.to_vec();

    let body = validate_mfg_cmd_header(&bytes, 0xCAFE_B0BA, 1);

    assert_eq!(
        body,
        &[0xCC, 0xDD, 0xEE, 0xFF, 0x88, 0x99, 0xAA, 0xBB, 0x44, 0x55, 0x66, 0x77]
    );

    let mfg_cmd_header: MfgCmdHeader<GenericCfg> = MfgCmdHeader::new(
        0xCAFE_B0BA,
        false,
        GenericCfg {
            data1: 0xFFEE_DDCC,
            data2: 0xBBAA_9988,
            data3: 0x7766_5544,
        },
    );
    let bytes = mfg_cmd_header.to_vec();

    let body = validate_mfg_cmd_header(&bytes, 0xCAFE_B0BA, 0);

    assert_eq!(
        body,
        &[0xCC, 0xDD, 0xEE, 0xFF, 0x88, 0x99, 0xAA, 0xBB, 0x44, 0x55, 0x66, 0x77]
    );
}

#[test]
fn mfg_cmd_rf_test_mode_enable() {
    let host_cmd = MfgCmd::RfTestMode { enable: true }
        .into_host_command_buffer(CardType::IW610)
        .expect("failed to convert into buffer");

    let mfg_header = validate_host_cmd_header(&host_cmd, 32);
    let body = validate_mfg_cmd_header(mfg_header, 0x0001, 0x0001);

    assert_eq!(body, &[0x00; 12]);
}

#[test]
fn mfg_cmd_rf_test_mode_disable() {
    let host_cmd = MfgCmd::RfTestMode { enable: false }
        .into_host_command_buffer(CardType::IW610)
        .expect("failed to convert into buffer");

    let mfg_header = validate_host_cmd_header(&host_cmd, 32);
    let body = validate_mfg_cmd_header(mfg_header, 0x0000, 0x0001);

    assert_eq!(body, &[0x00; 12]);
}

#[test]
fn mfg_cmd_tx_antenna() {
    let host_cmd = MfgCmd::TxAntenna {
        mode: AntennaMode::A,
    }
    .into_host_command_buffer(CardType::IW610)
    .expect("failed to convert into buffer");

    let mfg_header = validate_host_cmd_header(&host_cmd, 32);
    let body = validate_mfg_cmd_header(mfg_header, 0x1004, 0x0001);

    assert_eq!(&body[0..4], &[0x01, 0x00, 0x00, 0x00]);
}

#[test]
fn mfg_cmd_rx_antenna() {
    let host_cmd = MfgCmd::RxAntenna {
        mode: AntennaMode::B,
    }
    .into_host_command_buffer(CardType::IW610)
    .expect("failed to convert into buffer");

    let mfg_header = validate_host_cmd_header(&host_cmd, 32);
    let body = validate_mfg_cmd_header(mfg_header, 0x1005, 0x0001);

    assert_eq!(&body[0..4], &[0x02, 0x00, 0x00, 0x00]);
}

#[test]
fn mfg_cmd_radio_mode() {
    let host_cmd = MfgCmd::RadioMode {
        radio0: 3,
        radio1: 0,
    }
    .into_host_command_buffer(CardType::IW610)
    .expect("failed to convert into buffer");

    let mfg_header = validate_host_cmd_header(&host_cmd, 32);
    let body = validate_mfg_cmd_header(mfg_header, 0x1211, 0x0001);

    assert_eq!(&body[0..4], &[0x03, 0x00, 0x00, 0x00]);
    assert_eq!(&body[4..8], &[0x00, 0x00, 0x00, 0x00]);
}

#[test]
fn mfg_cmd_rf_band() {
    let host_cmd = MfgCmd::RfBand { band: RfBand::Ghz5 }
        .into_host_command_buffer(CardType::IW610)
        .expect("failed to convert into buffer");

    let mfg_header = validate_host_cmd_header(&host_cmd, 32);
    let body = validate_mfg_cmd_header(mfg_header, 0x1034, 0x0001);

    assert_eq!(&body[0..4], &[0x01, 0x00, 0x00, 0x00]);
}

#[test]
fn mfg_cmd_channel_bandwidth() {
    let host_cmd = MfgCmd::ChannelBandwidth {
        bandwidth: ChannelBandwidth::Bw20,
    }
    .into_host_command_buffer(CardType::IW610)
    .expect("failed to convert into buffer");

    let mfg_header = validate_host_cmd_header(&host_cmd, 32);
    let body = validate_mfg_cmd_header(mfg_header, 0x1044, 0x0001);

    assert_eq!(&body[0..4], &[0x00, 0x00, 0x00, 0x00]);
}

#[test]
fn mfg_cmd_rf_channel() {
    let host_cmd = MfgCmd::RfChannel { channel: 6 }
        .into_host_command_buffer(CardType::IW610)
        .expect("failed to convert into buffer");

    let mfg_header = validate_host_cmd_header(&host_cmd, 32);
    let body = validate_mfg_cmd_header(mfg_header, 0x100A, 0x0001);

    assert_eq!(&body[0..4], &[0x06, 0x00, 0x00, 0x00]);
}

#[test]
fn mfg_cmd_get_and_reset_per() {
    let host_cmd = MfgCmd::GetAndResetPer {
        rx_total_packet_count: 0,
        rx_multi_broadcast_packet_count: 0,
        rx_frame_check_sequence_errors: 0,
    }
    .into_host_command_buffer(CardType::IW610)
    .expect("failed to convert into buffer");

    let mfg_header = validate_host_cmd_header(&host_cmd, 32);
    let _body = validate_mfg_cmd_header(mfg_header, 0x1010, 0x0000);
}

#[test]
fn mfg_cmd_tx_power_iw610() {
    let host_cmd = MfgCmd::TxPower {
        power_dbm: 16,
        modulation: Modulation::Mcs,
        path: TxPathId::A,
    }
    .into_host_command_buffer(CardType::IW610)
    .expect("failed to convert into buffer");

    let mfg_header = validate_host_cmd_header(&host_cmd, 32);
    let body = validate_mfg_cmd_header(mfg_header, 0x1033, 0x0001);

    assert_eq!(&body[0..4], &[0x00, 0x01, 0x00, 0x00]);
    assert_eq!(&body[4..8], &[0x02, 0x00, 0x00, 0x00]);
    assert_eq!(&body[8..12], &[0x00, 0x00, 0x00, 0x00]);
}

#[test]
fn mfg_cmd_tx_power_8987() {
    let host_cmd = MfgCmd::TxPower {
        power_dbm: 16,
        modulation: Modulation::Mcs,
        path: TxPathId::A,
    }
    .into_host_command_buffer(CardType::_8987)
    .expect("failed to convert into buffer");

    let mfg_header = validate_host_cmd_header(&host_cmd, 32);
    let body = validate_mfg_cmd_header(mfg_header, 0x1033, 0x0001);

    assert_eq!(&body[0..4], &[0x10, 0x00, 0x00, 0x00]);
    assert_eq!(&body[4..8], &[0x02, 0x00, 0x00, 0x00]);
    assert_eq!(&body[8..12], &[0x00, 0x00, 0x00, 0x00]);
}

#[test]
fn mfg_cmd_tx_continuous() {
    let host_cmd = MfgCmd::TxContinuous {
        enable: true,
        continuous_wave_mode: false,
        payload_pattern: 0xAAA,
        cs_mode: false,
        active_subchannel: ActiveSubchannel::Both,
        tx_rate: 8,
    }
    .into_host_command_buffer(CardType::IW610)
    .expect("failed to convert into buffer");

    let mfg_header = validate_host_cmd_header(&host_cmd, 48);
    let body = validate_mfg_cmd_header(mfg_header, 0x1009, 0x0001);

    assert_eq!(&body[0..4], &[0x01, 0x00, 0x00, 0x00]);
    assert_eq!(&body[4..8], &[0x00, 0x00, 0x00, 0x00]);
    assert_eq!(&body[8..12], &[0xAA, 0x0A, 0x00, 0x00]);
    assert_eq!(&body[12..16], &[0x00, 0x00, 0x00, 0x00]);
    assert_eq!(&body[16..20], &[0x03, 0x00, 0x00, 0x00]);
    assert_eq!(&body[20..24], &[0x08, 0x00, 0x00, 0x00]);
}

#[test]
fn mfg_cmd_tx_frame() {
    let host_cmd = MfgCmd::TxFrame {
        enable: true,
        tx_rate: 8,
        payload_pattern: 2730,
        payload_length: 598,
        adjust_burst_sifs_gap: false,
        adjust_sifs_us: 20,
        short_preamble: false,
        active_subchannel: ActiveSubchannel::Lower,
        short_gi: false,
        adv_coding: false,
        beamforming: false,
        greenfield_mode: false,
        stbc: false,
        signal_bw: SignalBandwidth::Default,
        num_pkt: -1i32,
        max_pkt_ext: -1i32,
        beam_change: -1i32,
        dcm: -1i32,
        doppler: -1i32,
        midamble_period: -1i32,
        q_num: -1i32,
        bssid: [0x05, 0x43, 0x3F, 0xC4, 0x51, 0xff],
    }
    .into_host_command_buffer(CardType::IW610)
    .expect("failed to convert into buffer");

    let mfg_header = validate_host_cmd_header(&host_cmd, 112);
    let body = validate_mfg_cmd_header(mfg_header, 0x1021, 0x0001);

    assert_eq!(&body[0..4], &[0x01, 0x00, 0x00, 0x00]);
    assert_eq!(&body[4..8], &[0x08, 0x00, 0x00, 0x00]);
    assert_eq!(&body[8..12], &[0xAA, 0x0A, 0x00, 0x00]);
    assert_eq!(&body[12..16], &[0x56, 0x02, 0x00, 0x00]);
    assert_eq!(&body[16..22], &[0x05, 0x43, 0x3F, 0xC4, 0x51, 0xff]);
    assert_eq!(&body[22..24], &[0x00, 0x00]);
    assert_eq!(&body[24..28], &[0x14, 0x00, 0x00, 0x00]);
    assert_eq!(&body[28..32], &[0x00, 0x00, 0x00, 0x00]);
    assert_eq!(&body[32..36], &[0x00, 0x00, 0x00, 0x00]);
    assert_eq!(&body[36..40], &[0x00, 0x00, 0x00, 0x00]);
    assert_eq!(&body[40..44], &[0x00, 0x00, 0x00, 0x00]);
    assert_eq!(&body[44..48], &[0x00, 0x00, 0x00, 0x00]);
    assert_eq!(&body[48..52], &[0x00, 0x00, 0x00, 0x00]);
    assert_eq!(&body[52..56], &[0x00, 0x00, 0x00, 0x00]);
    assert_eq!(&body[56..60], &[0x00, 0x00, 0x00, 0x00]);
    assert_eq!(&body[60..64], &[0xff, 0xff, 0xff, 0xff]);
    assert_eq!(&body[64..68], &[0xff, 0xff, 0xff, 0xff]);
    assert_eq!(&body[68..72], &[0xff, 0xff, 0xff, 0xff]);
    assert_eq!(&body[72..76], &[0xff, 0xff, 0xff, 0xff]);
    assert_eq!(&body[76..80], &[0xff, 0xff, 0xff, 0xff]);
    assert_eq!(&body[80..84], &[0xff, 0xff, 0xff, 0xff]);
    assert_eq!(&body[84..88], &[0xff, 0xff, 0xff, 0xff]);
    assert_eq!(&body[88..92], &[0xff, 0xff, 0xff, 0xff]);
}

#[test]
fn mfg_cmd_he_tb_tx() {
    let host_cmd = MfgCmd::HeTbTx {
        enable: true,
        qnum: 1,
        aid: 5,
        axq0_mu_timer: 400,
        tx_pwr: 9,
    }
    .into_host_command_buffer(CardType::IW610)
    .expect("failed to convert into buffer");

    let mfg_header = validate_host_cmd_header(&host_cmd, 30);
    let body = validate_mfg_cmd_header(mfg_header, 0x110A, 0x0001);

    assert_eq!(&body[0..2], &[0x01, 0x00]);
    assert_eq!(&body[2..4], &[0x01, 0x00]);
    assert_eq!(&body[4..6], &[0x05, 0x00]);
    assert_eq!(&body[6..8], &[0x90, 0x01]);
    assert_eq!(&body[8..10], &[0x09, 0x00]);
}

#[test]
fn mfg_cmd_otp_mac_addr() {
    let host_cmd = MfgCmd::OtpMacAddr {
        write: false,
        mac_addr: [0x00, 0x11, 0x22, 0x33, 0x44, 0x55],
    }
    .into_host_command_buffer(CardType::IW610)
    .expect("failed to convert into buffer");

    let mfg_header = validate_host_cmd_header(&host_cmd, 26);
    let body = validate_mfg_cmd_header(mfg_header, 0x108C, 0x0000);

    assert_eq!(body, &[0x00, 0x11, 0x22, 0x33, 0x44, 0x55]);
}

#[test]
fn mfg_cmd_otp_cal_data() {
    let cal_data = vec![0xAA; 100];
    let host_cmd = MfgCmd::OtpCalData {
        write: true,
        cal_data,
    }
    .into_host_command_buffer(CardType::IW610)
    .expect("failed to convert into buffer");

    let mfg_header = validate_host_cmd_header(&host_cmd, 1428);
    let body = validate_mfg_cmd_header(mfg_header, 0x121A, 0x0001);

    assert_eq!(&body[0..4], &[0x00, 0x00, 0x00, 0x00]);
    assert_eq!(&body[4..8], &[0x64, 0x00, 0x00, 0x00]);
    assert_eq!(&body[8..18], &[0xAA; 10]);
}

#[test]
fn host_command_from_header() {
    let body = GenericCfg { data1: 1, data2: 2, data3: 3 };
    let from_header = HostCmd::from(MfgCmdHeader::new(0x1004, true, body)).to_vec();
    let via_trait = body.into_host_cmd(0x1004, true).to_vec();
    assert_eq!(from_header, via_trait);
    let rest = validate_host_cmd_header(&from_header, 32);
    let body_bytes = validate_mfg_cmd_header(rest, 0x1004, 1);
    assert_eq!(body_bytes, &[1, 0, 0, 0, 2, 0, 0, 0, 3, 0, 0, 0]);
}
