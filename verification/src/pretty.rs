//! The pretty-printed debug text of a command (`{:#?}`): the variant's name,
//! then one indented `field: value,` line per field, lists one element per
//! line.

use vstd::prelude::*;

use crate::command::{
    ActiveSubchannel, AntennaMode, ChannelBandwidth, LtfSymbol, MfgCmd, MfgCmdModel, Modulation,
    RfBand, SignalBandwidth, SpatialStreamAllocation, StandaloneHeTbMode, TxPathId, UlBandwidth,
};
use crate::text::push_char;

verus! {

/// The decimal digit `d`.
pub open spec fn digit_char(d: nat) -> char {
    if d == 0 {
        '0'
    } else if d == 1 {
        '1'
    } else if d == 2 {
        '2'
    } else if d == 3 {
        '3'
    } else if d == 4 {
        '4'
    } else if d == 5 {
        '5'
    } else if d == 6 {
        '6'
    } else if d == 7 {
        '7'
    } else if d == 8 {
        '8'
    } else {
        '9'
    }
}

/// The decimal digits of `n`, most significant first, without leading zeros.
pub open spec fn nat_text(n: nat) -> Seq<char>
    decreases n,
{
    if n < 10 {
        seq![digit_char(n)]
    } else {
        nat_text(n / 10) + seq![digit_char(n % 10)]
    }
}

/// `v` in decimal, with a `-` where it is negative.
pub open spec fn int_text(v: int) -> Seq<char> {
    if v < 0 {
        seq!['-'] + nat_text((-v) as nat)
    } else {
        nat_text(v as nat)
    }
}

/// `true` or `false`.
pub open spec fn bool_text(b: bool) -> Seq<char> {
    if b {
        "true"@
    } else {
        "false"@
    }
}

/// The line of a field: indented, the field's name, `: `, its value and `,`.
pub open spec fn field_text(name: Seq<char>, value: Seq<char>) -> Seq<char> {
    "    "@ + name + ": "@ + value + ",\n"@
}

/// The element lines of a byte list, one element per line.
pub open spec fn byte_lines(b: Seq<u8>) -> Seq<char>
    decreases b.len(),
{
    if b.len() == 0 {
        Seq::empty()
    } else {
        byte_lines(b.drop_last()) + "        "@ + int_text(b.last() as int) + ",\n"@
    }
}

/// A byte list as a field value: `[]` where empty, else one element per line.
pub open spec fn bytes_text(b: Seq<u8>) -> Seq<char> {
    if b.len() == 0 {
        "[]"@
    } else {
        "[\n"@ + byte_lines(b) + "    ]"@
    }
}

/// The name of a `AntennaMode` selection.
pub open spec fn antenna_mode_text(v: AntennaMode) -> Seq<char> {
    match v {
        AntennaMode::A => "A"@,
        AntennaMode::B => "B"@,
        AntennaMode::AB => "AB"@,
    }
}

fn antenna_mode_name(v: AntennaMode) -> (r: &'static str)
    ensures
        r@ == antenna_mode_text(v),
{
    match v {
        AntennaMode::A => "A",
        AntennaMode::B => "B",
        AntennaMode::AB => "AB",
    }
}

/// The name of a `TxPathId` selection.
pub open spec fn tx_path_id_text(v: TxPathId) -> Seq<char> {
    match v {
        TxPathId::A => "A"@,
        TxPathId::B => "B"@,
        TxPathId::AB => "AB"@,
    }
}

fn tx_path_id_name(v: TxPathId) -> (r: &'static str)
    ensures
        r@ == tx_path_id_text(v),
{
    match v {
        TxPathId::A => "A",
        TxPathId::B => "B",
        TxPathId::AB => "AB",
    }
}

/// The name of a `RfBand` selection.
pub open spec fn rf_band_text(v: RfBand) -> Seq<char> {
    match v {
        RfBand::Ghz2_4 => "Ghz2_4"@,
        RfBand::Ghz5 => "Ghz5"@,
    }
}

fn rf_band_name(v: RfBand) -> (r: &'static str)
    ensures
        r@ == rf_band_text(v),
{
    match v {
        RfBand::Ghz2_4 => "Ghz2_4",
        RfBand::Ghz5 => "Ghz5",
    }
}

/// The name of a `ChannelBandwidth` selection.
pub open spec fn channel_bandwidth_text(v: ChannelBandwidth) -> Seq<char> {
    match v {
        ChannelBandwidth::Bw20 => "Bw20"@,
        ChannelBandwidth::Bw40 => "Bw40"@,
        ChannelBandwidth::Bw80 => "Bw80"@,
    }
}

fn channel_bandwidth_name(v: ChannelBandwidth) -> (r: &'static str)
    ensures
        r@ == channel_bandwidth_text(v),
{
    match v {
        ChannelBandwidth::Bw20 => "Bw20",
        ChannelBandwidth::Bw40 => "Bw40",
        ChannelBandwidth::Bw80 => "Bw80",
    }
}

/// The name of a `Modulation` selection.
pub open spec fn modulation_text(v: Modulation) -> Seq<char> {
    match v {
        Modulation::Cck => "Cck"@,
        Modulation::Ofdm => "Ofdm"@,
        Modulation::Mcs => "Mcs"@,
    }
}

fn modulation_name(v: Modulation) -> (r: &'static str)
    ensures
        r@ == modulation_text(v),
{
    match v {
        Modulation::Cck => "Cck",
        Modulation::Ofdm => "Ofdm",
        Modulation::Mcs => "Mcs",
    }
}

/// The name of a `ActiveSubchannel` selection.
pub open spec fn active_subchannel_text(v: ActiveSubchannel) -> Seq<char> {
    match v {
        ActiveSubchannel::Lower => "Lower"@,
        ActiveSubchannel::Upper => "Upper"@,
        ActiveSubchannel::Both => "Both"@,
    }
}

fn active_subchannel_name(v: ActiveSubchannel) -> (r: &'static str)
    ensures
        r@ == active_subchannel_text(v),
{
    match v {
        ActiveSubchannel::Lower => "Lower",
        ActiveSubchannel::Upper => "Upper",
        ActiveSubchannel::Both => "Both",
    }
}

/// The name of a `SignalBandwidth` selection.
pub open spec fn signal_bandwidth_text(v: SignalBandwidth) -> Seq<char> {
    match v {
        SignalBandwidth::Bw20 => "Bw20"@,
        SignalBandwidth::Bw40 => "Bw40"@,
        SignalBandwidth::Bw80 => "Bw80"@,
        SignalBandwidth::Default => "Default"@,
    }
}

fn signal_bandwidth_name(v: SignalBandwidth) -> (r: &'static str)
    ensures
        r@ == signal_bandwidth_text(v),
{
    match v {
        SignalBandwidth::Bw20 => "Bw20",
        SignalBandwidth::Bw40 => "Bw40",
        SignalBandwidth::Bw80 => "Bw80",
        SignalBandwidth::Default => "Default",
    }
}

/// The name of a `StandaloneHeTbMode` selection.
pub open spec fn standalone_he_tb_mode_text(v: StandaloneHeTbMode) -> Seq<char> {
    match v {
        StandaloneHeTbMode::Disabled => "Disabled"@,
        StandaloneHeTbMode::TriggerBased => "TriggerBased"@,
        StandaloneHeTbMode::Standalone => "Standalone"@,
        StandaloneHeTbMode::SuOfdma => "SuOfdma"@,
    }
}

fn standalone_he_tb_mode_name(v: StandaloneHeTbMode) -> (r: &'static str)
    ensures
        r@ == standalone_he_tb_mode_text(v),
{
    match v {
        StandaloneHeTbMode::Disabled => "Disabled",
        StandaloneHeTbMode::TriggerBased => "TriggerBased",
        StandaloneHeTbMode::Standalone => "Standalone",
        StandaloneHeTbMode::SuOfdma => "SuOfdma",
    }
}

/// The name of a `UlBandwidth` selection.
pub open spec fn ul_bandwidth_text(v: UlBandwidth) -> Seq<char> {
    match v {
        UlBandwidth::Bw20 => "Bw20"@,
        UlBandwidth::Bw40 => "Bw40"@,
        UlBandwidth::Bw80 => "Bw80"@,
    }
}

fn ul_bandwidth_name(v: UlBandwidth) -> (r: &'static str)
    ensures
        r@ == ul_bandwidth_text(v),
{
    match v {
        UlBandwidth::Bw20 => "Bw20",
        UlBandwidth::Bw40 => "Bw40",
        UlBandwidth::Bw80 => "Bw80",
    }
}

/// The name of a `LtfSymbol` selection.
pub open spec fn ltf_symbol_text(v: LtfSymbol) -> Seq<char> {
    match v {
        LtfSymbol::OneXHELTF => "OneXHELTF"@,
        LtfSymbol::TwoXHELTF => "TwoXHELTF"@,
    }
}

fn ltf_symbol_name(v: LtfSymbol) -> (r: &'static str)
    ensures
        r@ == ltf_symbol_text(v),
{
    match v {
        LtfSymbol::OneXHELTF => "OneXHELTF",
        LtfSymbol::TwoXHELTF => "TwoXHELTF",
    }
}

/// The name of a `SpatialStreamAllocation` selection.
pub open spec fn spatial_stream_allocation_text(v: SpatialStreamAllocation) -> Seq<char> {
    match v {
        SpatialStreamAllocation::OneSS => "OneSS"@,
        SpatialStreamAllocation::TwoSS => "TwoSS"@,
    }
}

fn spatial_stream_allocation_name(v: SpatialStreamAllocation) -> (r: &'static str)
    ensures
        r@ == spatial_stream_allocation_text(v),
{
    match v {
        SpatialStreamAllocation::OneSS => "OneSS",
        SpatialStreamAllocation::TwoSS => "TwoSS",
    }
}

/// The text that `{:#?}` gives for a command.
pub open spec fn debug_text(cmd: MfgCmdModel) -> Seq<char> {
    match cmd {
        MfgCmdModel::RfTestMode { enable } => "RfTestMode {\n"@ + field_text("enable"@, bool_text(enable)) + "}"@,
        MfgCmdModel::TxAntenna { mode } => "TxAntenna {\n"@ + field_text("mode"@, antenna_mode_text(mode)) + "}"@,
        MfgCmdModel::RxAntenna { mode } => "RxAntenna {\n"@ + field_text("mode"@, antenna_mode_text(mode)) + "}"@,
        MfgCmdModel::RadioMode { radio0, radio1 } => "RadioMode {\n"@ + field_text("radio0"@, int_text(radio0 as int)) + field_text("radio1"@, int_text(radio1 as int)) + "}"@,
        MfgCmdModel::RfBand { band } => "RfBand {\n"@ + field_text("band"@, rf_band_text(band)) + "}"@,
        MfgCmdModel::ChannelBandwidth { bandwidth } => "ChannelBandwidth {\n"@ + field_text("bandwidth"@, channel_bandwidth_text(bandwidth)) + "}"@,
        MfgCmdModel::RfChannel { channel } => "RfChannel {\n"@ + field_text("channel"@, int_text(channel as int)) + "}"@,
        MfgCmdModel::GetAndResetPer { rx_total_packet_count, rx_multi_broadcast_packet_count, rx_frame_check_sequence_errors } => "GetAndResetPer {\n"@ + field_text("rx_total_packet_count"@, int_text(rx_total_packet_count as int)) + field_text("rx_multi_broadcast_packet_count"@, int_text(rx_multi_broadcast_packet_count as int)) + field_text("rx_frame_check_sequence_errors"@, int_text(rx_frame_check_sequence_errors as int)) + "}"@,
        MfgCmdModel::TxPower { power_dbm, modulation, path } => "TxPower {\n"@ + field_text("power_dbm"@, int_text(power_dbm as int)) + field_text("modulation"@, modulation_text(modulation)) + field_text("path"@, tx_path_id_text(path)) + "}"@,
        MfgCmdModel::TxContinuous { enable, continuous_wave_mode, payload_pattern, cs_mode, active_subchannel, tx_rate } => "TxContinuous {\n"@ + field_text("enable"@, bool_text(enable)) + field_text("continuous_wave_mode"@, bool_text(continuous_wave_mode)) + field_text("payload_pattern"@, int_text(payload_pattern as int)) + field_text("cs_mode"@, bool_text(cs_mode)) + field_text("active_subchannel"@, active_subchannel_text(active_subchannel)) + field_text("tx_rate"@, int_text(tx_rate as int)) + "}"@,
        MfgCmdModel::TxFrame { enable, tx_rate, payload_pattern, payload_length, adjust_burst_sifs_gap, adjust_sifs_us, short_preamble, active_subchannel, short_gi, adv_coding, beamforming, greenfield_mode, stbc, signal_bw, num_pkt, max_pkt_ext, beam_change, dcm, doppler, midamble_period, q_num, bssid } => "TxFrame {\n"@ + field_text("enable"@, bool_text(enable)) + field_text("tx_rate"@, int_text(tx_rate as int)) + field_text("payload_pattern"@, int_text(payload_pattern as int)) + field_text("payload_length"@, int_text(payload_length as int)) + field_text("adjust_burst_sifs_gap"@, bool_text(adjust_burst_sifs_gap)) + field_text("adjust_sifs_us"@, int_text(adjust_sifs_us as int)) + field_text("short_preamble"@, bool_text(short_preamble)) + field_text("active_subchannel"@, active_subchannel_text(active_subchannel)) + field_text("short_gi"@, bool_text(short_gi)) + field_text("adv_coding"@, bool_text(adv_coding)) + field_text("beamforming"@, bool_text(beamforming)) + field_text("greenfield_mode"@, bool_text(greenfield_mode)) + field_text("stbc"@, bool_text(stbc)) + field_text("signal_bw"@, signal_bandwidth_text(signal_bw)) + field_text("num_pkt"@, int_text(num_pkt as int)) + field_text("max_pkt_ext"@, int_text(max_pkt_ext as int)) + field_text("beam_change"@, int_text(beam_change as int)) + field_text("dcm"@, int_text(dcm as int)) + field_text("doppler"@, int_text(doppler as int)) + field_text("midamble_period"@, int_text(midamble_period as int)) + field_text("q_num"@, int_text(q_num as int)) + field_text("bssid"@, bytes_text(bssid)) + "}"@,
        MfgCmdModel::TriggerFrame { enable, standalone_hetb, frame_ctrl_type, frame_ctrl_subtype, frame_duration, trigger_type, ul_len, more_tf, cs_required, ul_bw, ltf_type, ltf_mode, ltf_symbol, ul_stbc, ldpc_ess, ap_tx_pwr, pre_fec_pad_fct, pe_disambig, spatial_reuse, doppler, he_sig2, aid12, ru_alloc_reg, ru_alloc, ul_coding_type, ul_mcs, ul_dcm, ss_alloc, ul_target_rssi, mpdu_mu_sf, tid_al, ac_pl, pref_ac } => "TriggerFrame {\n"@ + field_text("enable"@, bool_text(enable)) + field_text("standalone_hetb"@, standalone_he_tb_mode_text(standalone_hetb)) + field_text("frame_ctrl_type"@, int_text(frame_ctrl_type as int)) + field_text("frame_ctrl_subtype"@, int_text(frame_ctrl_subtype as int)) + field_text("frame_duration"@, int_text(frame_duration as int)) + field_text("trigger_type"@, int_text(trigger_type as int)) + field_text("ul_len"@, int_text(ul_len as int)) + field_text("more_tf"@, bool_text(more_tf)) + field_text("cs_required"@, bool_text(cs_required)) + field_text("ul_bw"@, ul_bandwidth_text(ul_bw)) + field_text("ltf_type"@, int_text(ltf_type as int)) + field_text("ltf_mode"@, bool_text(ltf_mode)) + field_text("ltf_symbol"@, ltf_symbol_text(ltf_symbol)) + field_text("ul_stbc"@, bool_text(ul_stbc)) + field_text("ldpc_ess"@, bool_text(ldpc_ess)) + field_text("ap_tx_pwr"@, int_text(ap_tx_pwr as int)) + field_text("pre_fec_pad_fct"@, int_text(pre_fec_pad_fct as int)) + field_text("pe_disambig"@, bool_text(pe_disambig)) + field_text("spatial_reuse"@, int_text(spatial_reuse as int)) + field_text("doppler"@, bool_text(doppler)) + field_text("he_sig2"@, int_text(he_sig2 as int)) + field_text("aid12"@, int_text(aid12 as int)) + field_text("ru_alloc_reg"@, bool_text(ru_alloc_reg)) + field_text("ru_alloc"@, int_text(ru_alloc as int)) + field_text("ul_coding_type"@, bool_text(ul_coding_type)) + field_text("ul_mcs"@, int_text(ul_mcs as int)) + field_text("ul_dcm"@, bool_text(ul_dcm)) + field_text("ss_alloc"@, spatial_stream_allocation_text(ss_alloc)) + field_text("ul_target_rssi"@, int_text(ul_target_rssi as int)) + field_text("mpdu_mu_sf"@, int_text(mpdu_mu_sf as int)) + field_text("tid_al"@, int_text(tid_al as int)) + field_text("ac_pl"@, bool_text(ac_pl)) + field_text("pref_ac"@, int_text(pref_ac as int)) + "}"@,
        MfgCmdModel::HeTbTx { enable, qnum, aid, axq0_mu_timer, tx_pwr } => "HeTbTx {\n"@ + field_text("enable"@, bool_text(enable)) + field_text("qnum"@, int_text(qnum as int)) + field_text("aid"@, int_text(aid as int)) + field_text("axq0_mu_timer"@, int_text(axq0_mu_timer as int)) + field_text("tx_pwr"@, int_text(tx_pwr as int)) + "}"@,
        MfgCmdModel::OtpCalData { write, cal_data } => "OtpCalData {\n"@ + field_text("write"@, bool_text(write)) + field_text("cal_data"@, bytes_text(cal_data)) + "}"@,
        MfgCmdModel::OtpMacAddr { write, mac_addr } => "OtpMacAddr {\n"@ + field_text("write"@, bool_text(write)) + field_text("mac_addr"@, bytes_text(mac_addr)) + "}"@,
    }
}

/// Append `s`.
fn push_str(out: &mut String, s: &str)
    ensures
        final(out)@ == old(out)@ + s@,
{
    out.append(s);
}

/// Append the decimal digits of `n`.
fn push_nat(out: &mut String, n: u128)
    ensures
        final(out)@ == old(out)@ + nat_text(n as nat),
    decreases n,
{
    if n >= 10 {
        push_nat(out, n / 10);
    }
    let d = n % 10;
    let c = if d == 0 {
        '0'
    } else if d == 1 {
        '1'
    } else if d == 2 {
        '2'
    } else if d == 3 {
        '3'
    } else if d == 4 {
        '4'
    } else if d == 5 {
        '5'
    } else if d == 6 {
        '6'
    } else if d == 7 {
        '7'
    } else if d == 8 {
        '8'
    } else {
        '9'
    };
    push_char(out, c);
}

/// Append `v` in decimal.
fn push_int(out: &mut String, v: i128)
    requires
        v > i128::MIN,
    ensures
        final(out)@ == old(out)@ + int_text(v as int),
{
    if v < 0 {
        let ghost start = out@;
        push_char(out, '-');
        push_nat(out, (-v) as u128);
        assert(out@ =~= start + (seq!['-'] + nat_text((-v) as nat)));
    } else {
        push_nat(out, v as u128);
    }
}

fn push_text_field(out: &mut String, name: &str, text: &str)
    ensures
        final(out)@ == old(out)@ + field_text(name@, text@),
{
    let ghost start = out@;
    push_str(out, "    ");
    push_str(out, name);
    push_str(out, ": ");
    push_str(out, text);
    push_str(out, ",\n");
    assert(out@ =~= start + field_text(name@, text@));
}

fn push_bool_field(out: &mut String, name: &str, b: bool)
    ensures
        final(out)@ == old(out)@ + field_text(name@, bool_text(b)),
{
    let ghost start = out@;
    push_str(out, "    ");
    push_str(out, name);
    push_str(out, ": ");
    if b {
        push_str(out, "true");
    } else {
        push_str(out, "false");
    }
    push_str(out, ",\n");
    assert(out@ =~= start + field_text(name@, bool_text(b)));
}

fn push_int_field(out: &mut String, name: &str, v: i128)
    requires
        v > i128::MIN,
    ensures
        final(out)@ == old(out)@ + field_text(name@, int_text(v as int)),
{
    let ghost start = out@;
    push_str(out, "    ");
    push_str(out, name);
    push_str(out, ": ");
    push_int(out, v);
    push_str(out, ",\n");
    assert(out@ =~= start + field_text(name@, int_text(v as int)));
}

fn push_bytes_field(out: &mut String, name: &str, b: &[u8])
    ensures
        final(out)@ == old(out)@ + field_text(name@, bytes_text(b@)),
{
    let ghost start = out@;
    push_str(out, "    ");
    push_str(out, name);
    push_str(out, ": ");
    let ghost before = out@;
    if b.len() == 0 {
        push_str(out, "[]");
    } else {
        push_str(out, "[\n");
        let ghost mid = out@;
        let mut i: usize = 0;
        assert(b@.take(0) =~= Seq::<u8>::empty());
        while i < b.len()
            invariant
                i <= b@.len(),
                out@ == mid + byte_lines(b@.take(i as int)),
            decreases b@.len() - i,
        {
            let ghost prev = out@;
            push_str(out, "        ");
            push_int(out, b[i] as i128);
            push_str(out, ",\n");
            assert(b@.take(i + 1).drop_last() =~= b@.take(i as int));
            assert(b@.take(i + 1).last() == b@[i as int]);
            assert(out@ =~= mid + byte_lines(b@.take(i + 1)));
            i = i + 1;
        }
        assert(b@.take(i as int) =~= b@);
        push_str(out, "    ]");
        assert(out@ =~= before + bytes_text(b@));
    }
    push_str(out, ",\n");
    assert(out@ =~= start + field_text(name@, bytes_text(b@)));
}

impl MfgCmd {
    /// The command's pretty-printed debug text, as `{:#?}` gives it: the
    /// variant's name and `{`, one `    field: value,` line per field (byte
    /// lists one element per line, indented once more), then `}`.
    #[verifier::rlimit(50)]
    pub fn debug_string(&self) -> (r: String)
        ensures
            r@ == debug_text(self@),
    {
        match self {
            MfgCmd::RfTestMode { enable } => {
                let mut out = String::from_str("RfTestMode {\n");
                push_bool_field(&mut out, "enable", *enable);
                push_str(&mut out, "}");
                out
            },
            MfgCmd::TxAntenna { mode } => {
                let mut out = String::from_str("TxAntenna {\n");
                push_text_field(&mut out, "mode", antenna_mode_name(*mode));
                push_str(&mut out, "}");
                out
            },
            MfgCmd::RxAntenna { mode } => {
                let mut out = String::from_str("RxAntenna {\n");
                push_text_field(&mut out, "mode", antenna_mode_name(*mode));
                push_str(&mut out, "}");
                out
            },
            MfgCmd::RadioMode { radio0, radio1 } => {
                let mut out = String::from_str("RadioMode {\n");
                push_int_field(&mut out, "radio0", *radio0 as i128);
                push_int_field(&mut out, "radio1", *radio1 as i128);
                push_str(&mut out, "}");
                out
            },
            MfgCmd::RfBand { band } => {
                let mut out = String::from_str("RfBand {\n");
                push_text_field(&mut out, "band", rf_band_name(*band));
                push_str(&mut out, "}");
                out
            },
            MfgCmd::ChannelBandwidth { bandwidth } => {
                let mut out = String::from_str("ChannelBandwidth {\n");
                push_text_field(&mut out, "bandwidth", channel_bandwidth_name(*bandwidth));
                push_str(&mut out, "}");
                out
            },
            MfgCmd::RfChannel { channel } => {
                let mut out = String::from_str("RfChannel {\n");
                push_int_field(&mut out, "channel", *channel as i128);
                push_str(&mut out, "}");
                out
            },
            MfgCmd::GetAndResetPer { rx_total_packet_count, rx_multi_broadcast_packet_count, rx_frame_check_sequence_errors } => {
                let mut out = String::from_str("GetAndResetPer {\n");
                push_int_field(&mut out, "rx_total_packet_count", *rx_total_packet_count as i128);
                push_int_field(&mut out, "rx_multi_broadcast_packet_count", *rx_multi_broadcast_packet_count as i128);
                push_int_field(&mut out, "rx_frame_check_sequence_errors", *rx_frame_check_sequence_errors as i128);
                push_str(&mut out, "}");
                out
            },
            MfgCmd::TxPower { power_dbm, modulation, path } => {
                let mut out = String::from_str("TxPower {\n");
                push_int_field(&mut out, "power_dbm", *power_dbm as i128);
                push_text_field(&mut out, "modulation", modulation_name(*modulation));
                push_text_field(&mut out, "path", tx_path_id_name(*path));
                push_str(&mut out, "}");
                out
            },
            MfgCmd::TxContinuous { enable, continuous_wave_mode, payload_pattern, cs_mode, active_subchannel, tx_rate } => {
                let mut out = String::from_str("TxContinuous {\n");
                push_bool_field(&mut out, "enable", *enable);
                push_bool_field(&mut out, "continuous_wave_mode", *continuous_wave_mode);
                push_int_field(&mut out, "payload_pattern", *payload_pattern as i128);
                push_bool_field(&mut out, "cs_mode", *cs_mode);
                push_text_field(&mut out, "active_subchannel", active_subchannel_name(*active_subchannel));
                push_int_field(&mut out, "tx_rate", *tx_rate as i128);
                push_str(&mut out, "}");
                out
            },
            MfgCmd::TxFrame { enable, tx_rate, payload_pattern, payload_length, adjust_burst_sifs_gap, adjust_sifs_us, short_preamble, active_subchannel, short_gi, adv_coding, beamforming, greenfield_mode, stbc, signal_bw, num_pkt, max_pkt_ext, beam_change, dcm, doppler, midamble_period, q_num, bssid } => {
                let mut out = String::from_str("TxFrame {\n");
                push_bool_field(&mut out, "enable", *enable);
                push_int_field(&mut out, "tx_rate", *tx_rate as i128);
                push_int_field(&mut out, "payload_pattern", *payload_pattern as i128);
                push_int_field(&mut out, "payload_length", *payload_length as i128);
                push_bool_field(&mut out, "adjust_burst_sifs_gap", *adjust_burst_sifs_gap);
                push_int_field(&mut out, "adjust_sifs_us", *adjust_sifs_us as i128);
                push_bool_field(&mut out, "short_preamble", *short_preamble);
                push_text_field(&mut out, "active_subchannel", active_subchannel_name(*active_subchannel));
                push_bool_field(&mut out, "short_gi", *short_gi);
                push_bool_field(&mut out, "adv_coding", *adv_coding);
                push_bool_field(&mut out, "beamforming", *beamforming);
                push_bool_field(&mut out, "greenfield_mode", *greenfield_mode);
                push_bool_field(&mut out, "stbc", *stbc);
                push_text_field(&mut out, "signal_bw", signal_bandwidth_name(*signal_bw));
                push_int_field(&mut out, "num_pkt", *num_pkt as i128);
                push_int_field(&mut out, "max_pkt_ext", *max_pkt_ext as i128);
                push_int_field(&mut out, "beam_change", *beam_change as i128);
                push_int_field(&mut out, "dcm", *dcm as i128);
                push_int_field(&mut out, "doppler", *doppler as i128);
                push_int_field(&mut out, "midamble_period", *midamble_period as i128);
                push_int_field(&mut out, "q_num", *q_num as i128);
                push_bytes_field(&mut out, "bssid", bssid.as_slice());
                push_str(&mut out, "}");
                out
            },
            MfgCmd::TriggerFrame { enable, standalone_hetb, frame_ctrl_type, frame_ctrl_subtype, frame_duration, trigger_type, ul_len, more_tf, cs_required, ul_bw, ltf_type, ltf_mode, ltf_symbol, ul_stbc, ldpc_ess, ap_tx_pwr, pre_fec_pad_fct, pe_disambig, spatial_reuse, doppler, he_sig2, aid12, ru_alloc_reg, ru_alloc, ul_coding_type, ul_mcs, ul_dcm, ss_alloc, ul_target_rssi, mpdu_mu_sf, tid_al, ac_pl, pref_ac } => {
                let mut out = String::from_str("TriggerFrame {\n");
                push_bool_field(&mut out, "enable", *enable);
                push_text_field(&mut out, "standalone_hetb", standalone_he_tb_mode_name(*standalone_hetb));
                push_int_field(&mut out, "frame_ctrl_type", *frame_ctrl_type as i128);
                push_int_field(&mut out, "frame_ctrl_subtype", *frame_ctrl_subtype as i128);
                push_int_field(&mut out, "frame_duration", *frame_duration as i128);
                push_int_field(&mut out, "trigger_type", *trigger_type as i128);
                push_int_field(&mut out, "ul_len", *ul_len as i128);
                push_bool_field(&mut out, "more_tf", *more_tf);
                push_bool_field(&mut out, "cs_required", *cs_required);
                push_text_field(&mut out, "ul_bw", ul_bandwidth_name(*ul_bw));
                push_int_field(&mut out, "ltf_type", *ltf_type as i128);
                push_bool_field(&mut out, "ltf_mode", *ltf_mode);
                push_text_field(&mut out, "ltf_symbol", ltf_symbol_name(*ltf_symbol));
                push_bool_field(&mut out, "ul_stbc", *ul_stbc);
                push_bool_field(&mut out, "ldpc_ess", *ldpc_ess);
                push_int_field(&mut out, "ap_tx_pwr", *ap_tx_pwr as i128);
                push_int_field(&mut out, "pre_fec_pad_fct", *pre_fec_pad_fct as i128);
                push_bool_field(&mut out, "pe_disambig", *pe_disambig);
                push_int_field(&mut out, "spatial_reuse", *spatial_reuse as i128);
                push_bool_field(&mut out, "doppler", *doppler);
                push_int_field(&mut out, "he_sig2", *he_sig2 as i128);
                push_int_field(&mut out, "aid12", *aid12 as i128);
                push_bool_field(&mut out, "ru_alloc_reg", *ru_alloc_reg);
                push_int_field(&mut out, "ru_alloc", *ru_alloc as i128);
                push_bool_field(&mut out, "ul_coding_type", *ul_coding_type);
                push_int_field(&mut out, "ul_mcs", *ul_mcs as i128);
                push_bool_field(&mut out, "ul_dcm", *ul_dcm);
                push_text_field(&mut out, "ss_alloc", spatial_stream_allocation_name(*ss_alloc));
                push_int_field(&mut out, "ul_target_rssi", *ul_target_rssi as i128);
                push_int_field(&mut out, "mpdu_mu_sf", *mpdu_mu_sf as i128);
                push_int_field(&mut out, "tid_al", *tid_al as i128);
                push_bool_field(&mut out, "ac_pl", *ac_pl);
                push_int_field(&mut out, "pref_ac", *pref_ac as i128);
                push_str(&mut out, "}");
                out
            },
            MfgCmd::HeTbTx { enable, qnum, aid, axq0_mu_timer, tx_pwr } => {
                let mut out = String::from_str("HeTbTx {\n");
                push_bool_field(&mut out, "enable", *enable);
                push_int_field(&mut out, "qnum", *qnum as i128);
                push_int_field(&mut out, "aid", *aid as i128);
                push_int_field(&mut out, "axq0_mu_timer", *axq0_mu_timer as i128);
                push_int_field(&mut out, "tx_pwr", *tx_pwr as i128);
                push_str(&mut out, "}");
                out
            },
            MfgCmd::OtpCalData { write, cal_data } => {
                let mut out = String::from_str("OtpCalData {\n");
                push_bool_field(&mut out, "write", *write);
                push_bytes_field(&mut out, "cal_data", cal_data.as_slice());
                push_str(&mut out, "}");
                out
            },
            MfgCmd::OtpMacAddr { write, mac_addr } => {
                let mut out = String::from_str("OtpMacAddr {\n");
                push_bool_field(&mut out, "write", *write);
                push_bytes_field(&mut out, "mac_addr", mac_addr.as_slice());
                push_str(&mut out, "}");
                out
            },
        }
    }
}

} // verus!
