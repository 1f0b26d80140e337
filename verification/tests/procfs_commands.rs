use mwifiex_nl80211_test_mode::command::{
    ActiveSubchannel, AntennaMode, ChannelBandwidth, LtfSymbol, MfgCmd, Modulation, RfBand,
    SignalBandwidth, SpatialStreamAllocation, StandaloneHeTbMode, TxPathId, UlBandwidth,
};
use mwifiex_nl80211_test_mode::ffi::MAC_ADDR_LENGTH;
use mwifiex_nl80211_test_mode::procfs::parse_procfs_command;

#[test]
fn parse_rf_test_mode_enable() {
    let cmd = parse_procfs_command("rf_test_mode=1").unwrap();
    assert_eq!(cmd, MfgCmd::RfTestMode { enable: true });
}

#[test]
fn parse_rf_test_mode_disable() {
    let cmd = parse_procfs_command("rf_test_mode=0").unwrap();
    assert_eq!(cmd, MfgCmd::RfTestMode { enable: false });
}

#[test]
fn parse_tx_antenna_path_a() {
    let cmd = parse_procfs_command("tx_antenna=1").unwrap();
    assert_eq!(
        cmd,
        MfgCmd::TxAntenna {
            mode: AntennaMode::A
        }
    );
}

#[test]
fn parse_tx_antenna_path_ab() {
    let cmd = parse_procfs_command("tx_antenna=3").unwrap();
    assert_eq!(
        cmd,
        MfgCmd::TxAntenna {
            mode: AntennaMode::AB
        }
    );
}

#[test]
fn parse_rx_antenna_path_b() {
    let cmd = parse_procfs_command("rx_antenna=2").unwrap();
    assert_eq!(
        cmd,
        MfgCmd::RxAntenna {
            mode: AntennaMode::B
        }
    );
}

#[test]
fn parse_radio_mode_two_radios() {
    let cmd = parse_procfs_command("radio_mode=11 11").unwrap();
    assert_eq!(
        cmd,
        MfgCmd::RadioMode {
            radio0: 11,
            radio1: 11
        }
    );
}

#[test]
fn parse_band_2_4_ghz() {
    let cmd = parse_procfs_command("band=0").unwrap();
    assert_eq!(
        cmd,
        MfgCmd::RfBand {
            band: RfBand::Ghz2_4
        }
    );
}

#[test]
fn parse_band_5_ghz() {
    let cmd = parse_procfs_command("band=1").unwrap();
    assert_eq!(cmd, MfgCmd::RfBand { band: RfBand::Ghz5 });
}

#[test]
fn parse_bw_20() {
    let cmd = parse_procfs_command("bw=0").unwrap();
    assert_eq!(
        cmd,
        MfgCmd::ChannelBandwidth {
            bandwidth: ChannelBandwidth::Bw20
        }
    );
}

#[test]
fn parse_bw_40() {
    let cmd = parse_procfs_command("bw=1").unwrap();
    assert_eq!(
        cmd,
        MfgCmd::ChannelBandwidth {
            bandwidth: ChannelBandwidth::Bw40
        }
    );
}

#[test]
fn parse_channel_6() {
    let cmd = parse_procfs_command("channel=6").unwrap();
    assert_eq!(cmd, MfgCmd::RfChannel { channel: 6 });
}

#[test]
fn parse_channel_36() {
    let cmd = parse_procfs_command("channel=36").unwrap();
    assert_eq!(cmd, MfgCmd::RfChannel { channel: 36 });
}

#[test]
fn parse_get_and_reset_per() {
    let cmd = parse_procfs_command("get_and_reset_per").unwrap();
    assert_eq!(
        cmd,
        MfgCmd::GetAndResetPer {
            rx_total_packet_count: 0,
            rx_multi_broadcast_packet_count: 0,
            rx_frame_check_sequence_errors: 0,
        }
    );
}

#[test]
fn parse_tx_power_full() {
    let cmd = parse_procfs_command("tx_power=15 1 0").unwrap();
    assert_eq!(
        cmd,
        MfgCmd::TxPower {
            power_dbm: 15,
            modulation: Modulation::Ofdm,
            path: TxPathId::A,
        }
    );
}

#[test]
fn parse_tx_continuous_start() {
    let cmd = parse_procfs_command("tx_continuous=1 0 0 0 0 7").unwrap();
    assert_eq!(
        cmd,
        MfgCmd::TxContinuous {
            enable: true,
            continuous_wave_mode: false,
            payload_pattern: 0,
            cs_mode: false,
            active_subchannel: ActiveSubchannel::Lower,
            tx_rate: 7,
        }
    );
}

#[test]
fn parse_tx_continuous_stop() {
    let cmd = parse_procfs_command("tx_continuous=0").unwrap();
    assert_eq!(
        cmd,
        MfgCmd::TxContinuous {
            enable: false,
            continuous_wave_mode: false,
            payload_pattern: 0,
            cs_mode: false,
            active_subchannel: ActiveSubchannel::Lower,
            tx_rate: 0,
        }
    );
}

#[test]
fn parse_tx_continuous_cw_mode() {
    let cmd = parse_procfs_command("tx_continuous=1 1 0 0 0 0").unwrap();
    assert_eq!(
        cmd,
        MfgCmd::TxContinuous {
            enable: true,
            continuous_wave_mode: true,
            payload_pattern: 0,
            cs_mode: false,
            active_subchannel: ActiveSubchannel::Lower,
            tx_rate: 0,
        }
    );
}

#[test]
fn parse_tx_frame_basic() {
    let cmd = parse_procfs_command("tx_frame=1 7 0 1024").unwrap();
    assert_eq!(
        cmd,
        MfgCmd::TxFrame {
            enable: true,
            tx_rate: 7,
            payload_pattern: 0,
            payload_length: 1024,
            adjust_burst_sifs_gap: false,
            adjust_sifs_us: 0,
            short_preamble: false,
            active_subchannel: ActiveSubchannel::Lower,
            short_gi: false,
            adv_coding: false,
            beamforming: false,
            greenfield_mode: false,
            stbc: false,
            signal_bw: SignalBandwidth::Default,
            num_pkt: -1,
            max_pkt_ext: -1,
            beam_change: -1,
            dcm: -1,
            doppler: -1,
            midamble_period: -1,
            q_num: -1,
            bssid: [0; MAC_ADDR_LENGTH],
        }
    );
}

#[test]
fn parse_tx_frame_stop() {
    let cmd = parse_procfs_command("tx_frame=0").unwrap();
    assert_eq!(
        cmd,
        MfgCmd::TxFrame {
            enable: false,
            tx_rate: 0,
            payload_pattern: 0,
            payload_length: 0,
            adjust_burst_sifs_gap: false,
            adjust_sifs_us: 0,
            short_preamble: false,
            active_subchannel: ActiveSubchannel::Lower,
            short_gi: false,
            adv_coding: false,
            beamforming: false,
            greenfield_mode: false,
            stbc: false,
            signal_bw: SignalBandwidth::Default,
            num_pkt: -1,
            max_pkt_ext: -1,
            beam_change: -1,
            dcm: -1,
            doppler: -1,
            midamble_period: -1,
            q_num: -1,
            bssid: [0; MAC_ADDR_LENGTH],
        }
    );
}

#[test]
fn parse_tx_frame_with_bssid() {
    let cmd = parse_procfs_command(
        "tx_frame=1 12 0 1024 0 0 0 0 0 0 0 0 0 0 10000 0 0 0 0 0 0 00:11:22:33:44:55",
    )
    .unwrap();
    assert_eq!(
        cmd,
        MfgCmd::TxFrame {
            enable: true,
            tx_rate: 12,
            payload_pattern: 0,
            payload_length: 1024,
            adjust_burst_sifs_gap: false,
            adjust_sifs_us: 0,
            short_preamble: false,
            active_subchannel: ActiveSubchannel::Lower,
            short_gi: false,
            adv_coding: false,
            beamforming: false,
            greenfield_mode: false,
            stbc: false,
            signal_bw: SignalBandwidth::Bw20,
            num_pkt: 10000,
            max_pkt_ext: 0,
            beam_change: 0,
            dcm: 0,
            doppler: 0,
            midamble_period: 0,
            q_num: 0,
            bssid: [0x00, 0x11, 0x22, 0x33, 0x44, 0x55],
        }
    );
}

#[test]
fn parse_tx_frame_he_er_su() {
    // Example from AN14114: 5 GHz HE ER SU TX frame
    let cmd = parse_procfs_command("tx_frame=1 12 0 1024 0 0 0 0 0 1 0 0 0 4 0 2 0 0 0 0 -1")
        .unwrap();
    assert_eq!(
        cmd,
        MfgCmd::TxFrame {
            enable: true,
            tx_rate: 12,
            payload_pattern: 0,
            payload_length: 1024,
            adjust_burst_sifs_gap: false,
            adjust_sifs_us: 0,
            short_preamble: false,
            active_subchannel: ActiveSubchannel::Lower,
            short_gi: false,
            adv_coding: true,
            beamforming: false,
            greenfield_mode: false,
            stbc: false,
            signal_bw: SignalBandwidth::Bw80,
            num_pkt: 0,
            max_pkt_ext: 2,
            beam_change: 0,
            dcm: 0,
            doppler: 0,
            midamble_period: 0,
            q_num: -1,
            bssid: [0; MAC_ADDR_LENGTH],
        }
    );
}

#[test]
fn parse_trigger_frame_basic() {
    let cmd = parse_procfs_command(
        "trigger_frame=1 0 1 2 5484 0 1000 0 0 0 1 0 0 0 0 0 1 0 65535 0 511 5 0 68 0 7 0 0 90 0 0 0 0",
    )
    .unwrap();
    assert_eq!(
        cmd,
        MfgCmd::TriggerFrame {
            enable: true,
            standalone_hetb: StandaloneHeTbMode::Disabled,
            frame_ctrl_type: 1,
            frame_ctrl_subtype: 2,
            frame_duration: 5484,
            trigger_type: 0,
            ul_len: 1000,
            more_tf: false,
            cs_required: false,
            ul_bw: UlBandwidth::Bw20,
            ltf_type: 1,
            ltf_mode: false,
            ltf_symbol: LtfSymbol::OneXHELTF,
            ul_stbc: false,
            ldpc_ess: false,
            ap_tx_pwr: 0,
            pre_fec_pad_fct: 1,
            pe_disambig: false,
            spatial_reuse: 65535,
            doppler: false,
            he_sig2: 511,
            aid12: 5,
            ru_alloc_reg: false,
            ru_alloc: 68,
            ul_coding_type: false,
            ul_mcs: 7,
            ul_dcm: false,
            ss_alloc: SpatialStreamAllocation::OneSS,
            ul_target_rssi: 90,
            mpdu_mu_sf: 0,
            tid_al: 0,
            ac_pl: false,
            pref_ac: 0,
        }
    );
}

#[test]
fn parse_trigger_frame_disable() {
    let cmd = parse_procfs_command("trigger_frame=0").unwrap();

    assert_eq!(
        cmd,
        MfgCmd::TriggerFrame {
            enable: false,
            standalone_hetb: StandaloneHeTbMode::Disabled,
            frame_ctrl_type: 0,
            frame_ctrl_subtype: 0,
            frame_duration: 0,
            trigger_type: 0,
            ul_len: 0,
            more_tf: false,
            cs_required: false,
            ul_bw: UlBandwidth::Bw20,
            ltf_type: 0,
            ltf_mode: false,
            ltf_symbol: LtfSymbol::OneXHELTF,
            ul_stbc: false,
            ldpc_ess: false,
            ap_tx_pwr: 0,
            pre_fec_pad_fct: 0,
            pe_disambig: false,
            spatial_reuse: 0,
            doppler: false,
            he_sig2: 0,
            aid12: 0,
            ru_alloc_reg: false,
            ru_alloc: 0,
            ul_coding_type: false,
            ul_mcs: 0,
            ul_dcm: false,
            ss_alloc: SpatialStreamAllocation::OneSS,
            ul_target_rssi: 0,
            mpdu_mu_sf: 0,
            tid_al: 0,
            ac_pl: false,
            pref_ac: 0,
        }
    );
}

#[test]
fn parse_he_tb_tx_enable() {
    let cmd = parse_procfs_command("he_tb_tx=1 1 5 400 20").unwrap();

    assert_eq!(
        cmd,
        MfgCmd::HeTbTx {
            enable: true,
            qnum: 1,
            aid: 5,
            axq0_mu_timer: 400,
            tx_pwr: 20,
        }
    );
}

#[test]
fn parse_he_tb_tx_disable() {
    let cmd = parse_procfs_command("he_tb_tx=0").unwrap();

    assert_eq!(
        cmd,
        MfgCmd::HeTbTx {
            enable: false,
            qnum: 0,
            aid: 0,
            axq0_mu_timer: 0,
            tx_pwr: 0,
        }
    );
}

#[test]
fn parse_whitespace_tolerance() {
    let cmd = parse_procfs_command("  channel=11  ").unwrap();
    assert_eq!(cmd, MfgCmd::RfChannel { channel: 11 });
}

// AN14114: "Set TX continuous mode" examples
#[test]
fn an14114_tx_continuous_packet_mode() {
    // tx_continuous=1 0 0xAAA 0 3 0x8 — continuous packet mode, 0xAAA pattern,
    // both sub-channels, 12 Mbps rate
    let cmd = parse_procfs_command("tx_continuous=1 0 0xAAA 0 3 0x8").unwrap();
    assert_eq!(
        cmd,
        MfgCmd::TxContinuous {
            enable: true,
            continuous_wave_mode: false,
            payload_pattern: 0xAAA,
            cs_mode: false,
            active_subchannel: ActiveSubchannel::Both,
            tx_rate: 8,
        }
    );
}

#[test]
fn an14114_tx_continuous_wave_mode() {
    // tx_continuous=1 1 0xAAA 0 3 0x8 — start continuous wave mode
    let cmd = parse_procfs_command("tx_continuous=1 1 0xAAA 0 3 0x8").unwrap();
    assert_eq!(
        cmd,
        MfgCmd::TxContinuous {
            enable: true,
            continuous_wave_mode: true,
            payload_pattern: 0xAAA,
            cs_mode: false,
            active_subchannel: ActiveSubchannel::Both,
            tx_rate: 8,
        }
    );
}

#[test]
fn an14114_tx_continuous_wave_mode_stop() {
    // tx_continuous=0 1 0xAAA 0 3 0x8 — stop continuous wave mode
    let cmd = parse_procfs_command("tx_continuous=0 1 0xAAA 0 3 0x8").unwrap();
    assert_eq!(
        cmd,
        MfgCmd::TxContinuous {
            enable: false,
            continuous_wave_mode: true,
            payload_pattern: 0xAAA,
            cs_mode: false,
            active_subchannel: ActiveSubchannel::Both,
            tx_rate: 8,
        }
    );
}

// AN14114: "2.4 GHz TX command sequence using TX_continuous"
#[test]
fn an14114_tx_continuous_2_4_ghz_he_mcs8() {
    // tx_continuous=1 1 0xAAA 0 3 0x2108 — CW mode, HE SS1 MCS8 rate
    let cmd = parse_procfs_command("tx_continuous=1 1 0xAAA 0 3 0x2108").unwrap();
    assert_eq!(
        cmd,
        MfgCmd::TxContinuous {
            enable: true,
            continuous_wave_mode: true,
            payload_pattern: 0xAAA,
            cs_mode: false,
            active_subchannel: ActiveSubchannel::Both,
            tx_rate: 0x2108,
        }
    );
}

// AN14114: "88W9098 5 GHz TX command sequence using tx_continuous"
#[test]
fn an14114_tx_continuous_88w9098_5_ghz_he_mcs9() {
    // tx_continuous=1 0 0xAAA 0 3 0x2109 — continuous packet mode, HE SS1 MCS9
    let cmd = parse_procfs_command("tx_continuous=1 0 0xAAA 0 3 0x2109").unwrap();
    assert_eq!(
        cmd,
        MfgCmd::TxContinuous {
            enable: true,
            continuous_wave_mode: false,
            payload_pattern: 0xAAA,
            cs_mode: false,
            active_subchannel: ActiveSubchannel::Both,
            tx_rate: 0x2109,
        }
    );
}

#[test]
fn an14114_tx_continuous_88w9098_5_ghz_cw_mode() {
    // tx_continuous=1 1 0xAAA 0 3 0x2109 — CW mode, HE SS1 MCS9
    let cmd = parse_procfs_command("tx_continuous=1 1 0xAAA 0 3 0x2109").unwrap();
    assert_eq!(
        cmd,
        MfgCmd::TxContinuous {
            enable: true,
            continuous_wave_mode: true,
            payload_pattern: 0xAAA,
            cs_mode: false,
            active_subchannel: ActiveSubchannel::Both,
            tx_rate: 0x2109,
        }
    );
}

#[test]
fn an14114_tx_continuous_88w9098_5_ghz_cw_stop() {
    // tx_continuous=0 1 0xAAA 0 3 0x2109 — stop CW mode
    let cmd = parse_procfs_command("tx_continuous=0 1 0xAAA 0 3 0x2109").unwrap();
    assert_eq!(
        cmd,
        MfgCmd::TxContinuous {
            enable: false,
            continuous_wave_mode: true,
            payload_pattern: 0xAAA,
            cs_mode: false,
            active_subchannel: ActiveSubchannel::Both,
            tx_rate: 0x2109,
        }
    );
}

// AN14114: "Set TX frame" example
#[test]
fn an14114_tx_frame_12_mbps() {
    // tx_frame=1 0x8 0xAAA 0x256 0 20 0 0 0 0 0 0 0 -1 -1 -1 -1 -1 -1 -1 -1
    // 12 Mbps, 0xAAA pattern, 0x256 (598) packet length
    let cmd = parse_procfs_command(
        "tx_frame=1 0x8 0xAAA 0x256 0 20 0 0 0 0 0 0 0 -1 -1 -1 -1 -1 -1 -1 -1",
    )
    .unwrap();
    assert_eq!(
        cmd,
        MfgCmd::TxFrame {
            enable: true,
            tx_rate: 0x8,
            payload_pattern: 0xAAA,
            payload_length: 0x256,
            adjust_burst_sifs_gap: false,
            adjust_sifs_us: 20,
            short_preamble: false,
            active_subchannel: ActiveSubchannel::Lower,
            short_gi: false,
            adv_coding: false,
            beamforming: false,
            greenfield_mode: false,
            stbc: false,
            signal_bw: SignalBandwidth::Default,
            num_pkt: -1,
            max_pkt_ext: -1,
            beam_change: -1,
            dcm: -1,
            doppler: -1,
            midamble_period: -1,
            q_num: -1,
            bssid: [0; MAC_ADDR_LENGTH],
        }
    );
}

// AN14114: "88W9098 5 GHz TX command sequence using tx_frame"
#[test]
fn an14114_tx_frame_88w9098_5_ghz_he_mcs11() {
    // tx_frame=1 0x210b 0xAAA 0x100 1 20 0 0 0 1 0 0 0 -1 -1 -1 -1 -1 -1 -1 -1
    // HE SS1 MCS11, adv_coding enabled, adjust_burst_sifs_gap enabled
    let cmd = parse_procfs_command(
        "tx_frame=1 0x210b 0xAAA 0x100 1 20 0 0 0 1 0 0 0 -1 -1 -1 -1 -1 -1 -1 -1",
    )
    .unwrap();
    assert_eq!(
        cmd,
        MfgCmd::TxFrame {
            enable: true,
            tx_rate: 0x210b,
            payload_pattern: 0xAAA,
            payload_length: 0x100,
            adjust_burst_sifs_gap: true,
            adjust_sifs_us: 20,
            short_preamble: false,
            active_subchannel: ActiveSubchannel::Lower,
            short_gi: false,
            adv_coding: true,
            beamforming: false,
            greenfield_mode: false,
            stbc: false,
            signal_bw: SignalBandwidth::Default,
            num_pkt: -1,
            max_pkt_ext: -1,
            beam_change: -1,
            dcm: -1,
            doppler: -1,
            midamble_period: -1,
            q_num: -1,
            bssid: [0; MAC_ADDR_LENGTH],
        }
    );
}

// AN14114: "5 GHz TX command sequence using tx_frame for HE-ER SU"
#[test]
fn an14114_tx_frame_88w9098_he_er_su_mcs1() {
    // tx_frame=1 0x2101 0xAAA 0x100 1 20 1 0 0 0 0 0 0 -1 -1 -1 -1 -1 -1 -1 -1
    // HE SS1 MCS1, short_preamble for HE-ER SU
    let cmd = parse_procfs_command(
        "tx_frame=1 0x2101 0xAAA 0x100 1 20 1 0 0 0 0 0 0 -1 -1 -1 -1 -1 -1 -1 -1",
    )
    .unwrap();
    assert_eq!(
        cmd,
        MfgCmd::TxFrame {
            enable: true,
            tx_rate: 0x2101,
            payload_pattern: 0xAAA,
            payload_length: 0x100,
            adjust_burst_sifs_gap: true,
            adjust_sifs_us: 20,
            short_preamble: true,
            active_subchannel: ActiveSubchannel::Lower,
            short_gi: false,
            adv_coding: false,
            beamforming: false,
            greenfield_mode: false,
            stbc: false,
            signal_bw: SignalBandwidth::Default,
            num_pkt: -1,
            max_pkt_ext: -1,
            beam_change: -1,
            dcm: -1,
            doppler: -1,
            midamble_period: -1,
            q_num: -1,
            bssid: [0; MAC_ADDR_LENGTH],
        }
    );
}

// AN14114: "88W9098 2.4 GHz TX command sequence using tx_frame"
#[test]
fn an14114_tx_frame_88w9098_2_4_ghz_he_mcs4() {
    // tx_frame=1 0x2104 0xAAA 0x100 1 20 0 0 0 0 0 0 0 -1 -1 -1 -1 -1 -1 -1 -1
    // HE SS1 MCS4
    let cmd = parse_procfs_command(
        "tx_frame=1 0x2104 0xAAA 0x100 1 20 0 0 0 0 0 0 0 -1 -1 -1 -1 -1 -1 -1 -1",
    )
    .unwrap();
    assert_eq!(
        cmd,
        MfgCmd::TxFrame {
            enable: true,
            tx_rate: 0x2104,
            payload_pattern: 0xAAA,
            payload_length: 0x100,
            adjust_burst_sifs_gap: true,
            adjust_sifs_us: 20,
            short_preamble: false,
            active_subchannel: ActiveSubchannel::Lower,
            short_gi: false,
            adv_coding: false,
            beamforming: false,
            greenfield_mode: false,
            stbc: false,
            signal_bw: SignalBandwidth::Default,
            num_pkt: -1,
            max_pkt_ext: -1,
            beam_change: -1,
            dcm: -1,
            doppler: -1,
            midamble_period: -1,
            q_num: -1,
            bssid: [0; MAC_ADDR_LENGTH],
        }
    );
}

// AN14114: "Configure the golden unit" — trigger_frame for UL-OFDMA
#[test]
fn an14114_trigger_frame_golden_unit() {
    // trigger_frame=1 1 1 2 5484 0 1000 0 0 0 1 0 0 0 1 0 1 0 65535 0 511 5 0 0 1 0x2102 0 0 90 0 0 0 0
    // standalone_hetb=1 (trigger-based), ldpc_ess=1, ul_coding_type=1, ul_mcs=0x2102
    let cmd = parse_procfs_command(
        "trigger_frame=1 1 1 2 5484 0 1000 0 0 0 1 0 0 0 1 0 1 0 65535 0 511 5 0 0 1 0x2102 0 0 90 0 0 0 0",
    )
    .unwrap();
    assert_eq!(
        cmd,
        MfgCmd::TriggerFrame {
            enable: true,
            standalone_hetb: StandaloneHeTbMode::TriggerBased,
            frame_ctrl_type: 1,
            frame_ctrl_subtype: 2,
            frame_duration: 5484,
            trigger_type: 0,
            ul_len: 1000,
            more_tf: false,
            cs_required: false,
            ul_bw: UlBandwidth::Bw20,
            ltf_type: 1,
            ltf_mode: false,
            ltf_symbol: LtfSymbol::OneXHELTF,
            ul_stbc: false,
            ldpc_ess: true,
            ap_tx_pwr: 0,
            pre_fec_pad_fct: 1,
            pe_disambig: false,
            spatial_reuse: 65535,
            doppler: false,
            he_sig2: 511,
            aid12: 5,
            ru_alloc_reg: false,
            ru_alloc: 0,
            ul_coding_type: true,
            ul_mcs: 0x2102,
            ul_dcm: false,
            ss_alloc: SpatialStreamAllocation::OneSS,
            ul_target_rssi: 90,
            mpdu_mu_sf: 0,
            tid_al: 0,
            ac_pl: false,
            pref_ac: 0,
        }
    );
}

// AN14114: "Testing standalone UL-OFDMA"
#[test]
fn an14114_trigger_frame_standalone() {
    // trigger_frame=1 2 1 2 5484 0 1000 0 0 2 1 0 0 0 1 0 1 0 65535 0 511 5 0 67 1 0 0 0 90 0 0 0 0
    // standalone_hetb=2 (standalone), ul_bw=2 (80 MHz), ru_alloc=67, ul_coding_type=1
    let cmd = parse_procfs_command(
        "trigger_frame=1 2 1 2 5484 0 1000 0 0 2 1 0 0 0 1 0 1 0 65535 0 511 5 0 67 1 0 0 0 90 0 0 0 0",
    )
    .unwrap();
    assert_eq!(
        cmd,
        MfgCmd::TriggerFrame {
            enable: true,
            standalone_hetb: StandaloneHeTbMode::Standalone,
            frame_ctrl_type: 1,
            frame_ctrl_subtype: 2,
            frame_duration: 5484,
            trigger_type: 0,
            ul_len: 1000,
            more_tf: false,
            cs_required: false,
            ul_bw: UlBandwidth::Bw80,
            ltf_type: 1,
            ltf_mode: false,
            ltf_symbol: LtfSymbol::OneXHELTF,
            ul_stbc: false,
            ldpc_ess: true,
            ap_tx_pwr: 0,
            pre_fec_pad_fct: 1,
            pe_disambig: false,
            spatial_reuse: 65535,
            doppler: false,
            he_sig2: 511,
            aid12: 5,
            ru_alloc_reg: false,
            ru_alloc: 67,
            ul_coding_type: true,
            ul_mcs: 0,
            ul_dcm: false,
            ss_alloc: SpatialStreamAllocation::OneSS,
            ul_target_rssi: 90,
            mpdu_mu_sf: 0,
            tid_al: 0,
            ac_pl: false,
            pref_ac: 0,
        }
    );
}

// AN14114: "Configure the golden unit" — tx_frame for UL-OFDMA golden unit
#[test]
fn an14114_tx_frame_golden_unit_ofdma() {
    // tx_frame=1 0x2102 0xabababab 0x256 0 20 0 0 0 0 0 0 0 -1 -1 -1 -1 -1 -1 -1 -1
    // HE SS1 MCS2 for trigger frame generation
    let cmd = parse_procfs_command(
        "tx_frame=1 0x2102 0xabababab 0x256 0 20 0 0 0 0 0 0 0 -1 -1 -1 -1 -1 -1 -1 -1",
    )
    .unwrap();
    assert_eq!(
        cmd,
        MfgCmd::TxFrame {
            enable: true,
            tx_rate: 0x2102,
            payload_pattern: 0xabababab,
            payload_length: 0x256,
            adjust_burst_sifs_gap: false,
            adjust_sifs_us: 20,
            short_preamble: false,
            active_subchannel: ActiveSubchannel::Lower,
            short_gi: false,
            adv_coding: false,
            beamforming: false,
            greenfield_mode: false,
            stbc: false,
            signal_bw: SignalBandwidth::Default,
            num_pkt: -1,
            max_pkt_ext: -1,
            beam_change: -1,
            dcm: -1,
            doppler: -1,
            midamble_period: -1,
            q_num: -1,
            bssid: [0; MAC_ADDR_LENGTH],
        }
    );
}

// AN14114: "Testing standalone UL-OFDMA" — tx_frame for standalone
#[test]
fn an14114_tx_frame_standalone_ofdma() {
    // tx_frame=1 0x2100 0xabababab 0x256 0 20 0 0 0 0 0 0 0 -1 -1 -1 -1 -1 -1 -1 -1
    // HE SS1 MCS0 for standalone UL-OFDMA
    let cmd = parse_procfs_command(
        "tx_frame=1 0x2100 0xabababab 0x256 0 20 0 0 0 0 0 0 0 -1 -1 -1 -1 -1 -1 -1 -1",
    )
    .unwrap();
    assert_eq!(
        cmd,
        MfgCmd::TxFrame {
            enable: true,
            tx_rate: 0x2100,
            payload_pattern: 0xabababab,
            payload_length: 0x256,
            adjust_burst_sifs_gap: false,
            adjust_sifs_us: 20,
            short_preamble: false,
            active_subchannel: ActiveSubchannel::Lower,
            short_gi: false,
            adv_coding: false,
            beamforming: false,
            greenfield_mode: false,
            stbc: false,
            signal_bw: SignalBandwidth::Default,
            num_pkt: -1,
            max_pkt_ext: -1,
            beam_change: -1,
            dcm: -1,
            doppler: -1,
            midamble_period: -1,
            q_num: -1,
            bssid: [0; MAC_ADDR_LENGTH],
        }
    );
}

// AN14114: "Configure the golden unit and DUT" — he_tb_tx with 9 dBm
#[test]
fn an14114_he_tb_tx_dut_9dbm() {
    // he_tb_tx=1 1 5 400 9 — HE TB-TX with TX power 9 dBm
    let cmd = parse_procfs_command("he_tb_tx=1 1 5 400 9").unwrap();
    assert_eq!(
        cmd,
        MfgCmd::HeTbTx {
            enable: true,
            qnum: 1,
            aid: 5,
            axq0_mu_timer: 400,
            tx_pwr: 9,
        }
    );
}

#[test]
fn parse_unknown_command_fails() {
    let result = parse_procfs_command("unknown_cmd=1");
    assert!(result.is_err());
}

#[test]
fn parse_missing_equals_fails() {
    let result = parse_procfs_command("tx_antenna 1");
    assert!(result.is_err());
}

#[test]
fn parse_invalid_antenna_mode_fails() {
    assert!(parse_procfs_command("tx_antenna=5").is_err());
}

#[test]
fn parse_radio_mode_missing_radio1_fails() {
    let result = parse_procfs_command("radio_mode=11");
    assert!(result.is_err());
}

#[test]
fn parse_tx_power_missing_args_fails() {
    let result = parse_procfs_command("tx_power=15");
    assert!(result.is_err());
}
