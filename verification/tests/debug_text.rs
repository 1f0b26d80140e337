use mwifiex_nl80211_test_mode::command::{
    ActiveSubchannel, AntennaMode, ChannelBandwidth, MfgCmd, Modulation, RfBand, SignalBandwidth,
    TxPathId,
};
use mwifiex_nl80211_test_mode::procfs::parse_procfs_command;

fn commands() -> Vec<MfgCmd> {
    vec![
        MfgCmd::RfTestMode { enable: true },
        MfgCmd::TxAntenna { mode: AntennaMode::AB },
        MfgCmd::RxAntenna { mode: AntennaMode::B },
        MfgCmd::RadioMode { radio0: 11, radio1: 0 },
        MfgCmd::RfBand { band: RfBand::Ghz2_4 },
        MfgCmd::ChannelBandwidth { bandwidth: ChannelBandwidth::Bw80 },
        MfgCmd::RfChannel { channel: 65535 },
        MfgCmd::GetAndResetPer {
            rx_total_packet_count: 4294967295,
            rx_multi_broadcast_packet_count: 10,
            rx_frame_check_sequence_errors: 0,
        },
        MfgCmd::TxPower { power_dbm: -2147483648, modulation: Modulation::Mcs, path: TxPathId::A },
        MfgCmd::TxContinuous {
            enable: false,
            continuous_wave_mode: true,
            payload_pattern: 0xAAA,
            cs_mode: false,
            active_subchannel: ActiveSubchannel::Both,
            tx_rate: 8,
        },
        MfgCmd::TxFrame {
            enable: true,
            tx_rate: 8,
            payload_pattern: 2730,
            payload_length: 598,
            adjust_burst_sifs_gap: false,
            adjust_sifs_us: 20,
            short_preamble: false,
            active_subchannel: ActiveSubchannel::Lower,
            short_gi: false,
            adv_coding: true,
            beamforming: false,
            greenfield_mode: false,
            stbc: false,
            signal_bw: SignalBandwidth::Default,
            num_pkt: -1,
            max_pkt_ext: 7,
            beam_change: -1,
            dcm: -1,
            doppler: -1,
            midamble_period: -1,
            q_num: -1,
            bssid: [0x05, 0x43, 0x3F, 0xC4, 0x51, 0xff],
        },
        parse_procfs_command("trigger_frame=1 2 1 2 5484 0 1000 0 1 2 1 0 1 0 1 0 1 0 65535 0 511 5 0 106 1 0 0 1 90 0 0 0 0")
            .unwrap(),
        MfgCmd::HeTbTx { enable: true, qnum: 1, aid: 5, axq0_mu_timer: 400, tx_pwr: -9 },
        MfgCmd::OtpCalData { write: false, cal_data: vec![] },
        MfgCmd::OtpCalData { write: true, cal_data: vec![0, 1, 255, 100] },
        MfgCmd::OtpMacAddr { write: true, mac_addr: [0, 0x11, 0x22, 0x33, 0x44, 0x55] },
    ]
}

#[test]
fn debug_string_is_the_pretty_debug_text() {
    for cmd in commands() {
        assert_eq!(cmd.debug_string(), format!("{cmd:#?}"));
    }
}

#[test]
fn debug_string_layout() {
    assert_eq!(
        MfgCmd::TxPower { power_dbm: -3, modulation: Modulation::Ofdm, path: TxPathId::B }
            .debug_string(),
        "TxPower {\n    power_dbm: -3,\n    modulation: Ofdm,\n    path: B,\n}"
    );
    assert_eq!(
        MfgCmd::OtpMacAddr { write: false, mac_addr: [1, 2, 3, 4, 5, 6] }.debug_string(),
        "OtpMacAddr {\n    write: false,\n    mac_addr: [\n        1,\n        2,\n        3,\n        4,\n        5,\n        6,\n    ],\n}"
    );
}
