//! The byte layout of the test mode commands, stated over the raw bytes:
//! where each command's values stand in the host command buffer that it is
//! sent in, which firmware number stands for which selection, and what a
//! response buffer reports.

use vstd::prelude::*;

use crate::command::{
    generic_cfg, host_bytes, spec_parse_body, spec_parse_header, ActiveSubchannel, AntennaMode,
    CardType, ChannelBandwidth, CommandError, InvalidValue, LtfSymbol, MfgCmdModel, Modulation,
    RfBand, SignalBandwidth, SpatialStreamAllocation, StandaloneHeTbMode, TxPathId, UlBandwidth,
};
use crate::ffi::{
    GenericCfg, HostCmd, IeeetypesBasicHeTrigUserInfo, IeeetypesFrameCtrl, IeeetypesHeTrigComInfo,
    IeeetypesHeTrigUserInfoBits, IeeetypesHeTrigUserInfoRssi, MfgCmdHeader, WireFormat, CAL_DATA_LEN,
    MAC_ADDR_LENGTH,
};
use crate::wire::{le16, le32, lemma_read16_le16, lemma_read32_le32, read16, read32, read64};

verus! {

/// Whether `buf` is the 32-byte host command of a generic manufacturing
/// command: result 0 at byte 6, command code `code` at byte 8, and the
/// three values at bytes 20, 24 and 28, each a little-endian `u32`.
pub open spec fn generic_buffer(buf: Seq<u8>, code: u32, data1: u32, data2: u32, data3: u32) -> bool {
    &&& buf.len() == 32
    &&& read16(buf, 6) == 0
    &&& read32(buf, 8) == code
    &&& read32(buf, 20) == data1
    &&& read32(buf, 24) == data2
    &&& read32(buf, 28) == data3
}

/// The host command of a generic manufacturing command lays out its code
/// and its three values at the fixed offsets of `generic_buffer`.
pub proof fn lemma_generic_cfg_bytes(code: u32, write: bool, data1: u32, data2: u32, data3: u32)
    ensures
        generic_buffer(host_bytes(code, write, generic_cfg(data1, data2, data3)), code, data1, data2, data3),
{
    let g = generic_cfg(data1, data2, data3);
    let m = MfgCmdHeader::spec_new(code, write, g);
    let h = HostCmd::spec_default_with(m);
    let buf = h.wire();
    assert(buf.len() == 32);
    assert(buf.subrange(6, 8) =~= le16(0));
    lemma_read16_le16(buf, 6, 0);
    assert(buf.subrange(8, 12) =~= le32(code));
    lemma_read32_le32(buf, 8, code);
    assert(buf.subrange(20, 24) =~= le32(data1));
    lemma_read32_le32(buf, 20, data1);
    assert(buf.subrange(24, 28) =~= le32(data2));
    lemma_read32_le32(buf, 24, data2);
    assert(buf.subrange(28, 32) =~= le32(data3));
    lemma_read32_le32(buf, 28, data3);
}

/// A response of at least 32 bytes carries its result at byte 6, its
/// command code at byte 8 and the three values of a generic body at bytes
/// 20, 24 and 28.
pub proof fn lemma_generic_response_fields(buf: Seq<u8>)
    requires
        buf.len() >= 32,
    ensures
        spec_parse_header(buf) matches Ok(h) && h.result == read16(buf, 6) && h.body.mfg_cmd == read32(
            buf,
            8,
        ),
        spec_parse_body::<GenericCfg>(buf) == Ok::<GenericCfg, CommandError>(
            GenericCfg { data1: read32(buf, 20), data2: read32(buf, 24), data3: read32(buf, 28) },
        ),
{
    let t = buf.take(20);
    assert(t[6] == buf[6] && t[7] == buf[7]);
    assert(t.skip(8)[0] == buf[8] && t.skip(8)[1] == buf[9] && t.skip(8)[2] == buf[10] && t.skip(8)[3]
        == buf[11]);
    let n = 20 + GenericCfg::wire_len();
    let b = buf.take(n as int).skip(8).skip(12);
    assert(b[0] == buf[20] && b[1] == buf[21] && b[2] == buf[22] && b[3] == buf[23]);
    assert(b[4] == buf[24] && b[5] == buf[25] && b[6] == buf[26] && b[7] == buf[27]);
    assert(b[8] == buf[28] && b[9] == buf[29] && b[10] == buf[30] && b[11] == buf[31]);
}

/// `tx_power` on the 9098, 9097, 9177, IW624, AW693 and IW610 (and on no
/// other card) sends a power of 0 to 64 dBm in 1/16 dBm steps, `-1` or a
/// power beyond 64 dBm either way as `0xffff_ffff` (the firmware default),
/// and refuses the other negative powers; every other card sends the power
/// in dBm as it is and refuses more than 24 dBm. The modulation travels in
/// the second value (CCK 0, OFDM 1, MCS 2) and the path in the third (A 0,
/// B 1, A and B 2), under command code `0x1033`.
pub proof fn lemma_tx_power_bytes(power_dbm: i32, modulation: Modulation, path: TxPathId, card: CardType)
    ensures
        ({
            let cmd = MfgCmdModel::TxPower { power_dbm, modulation, path };
            let m: u32 = if modulation == Modulation::Cck {
                0
            } else if modulation == Modulation::Ofdm {
                1
            } else {
                2
            };
            let p: u32 = if path == TxPathId::A {
                0
            } else if path == TxPathId::B {
                1
            } else {
                2
            };
            let scaling = card == CardType::_9098 || card == CardType::_9097 || card == CardType::_9177
                || card == CardType::IW624 || card == CardType::AW693 || card == CardType::IW610;
            &&& scaling && 0 <= power_dbm <= 64 ==> (cmd.encode(card) matches Ok(buf) && generic_buffer(
                buf,
                0x1033,
                (16 * power_dbm) as u32,
                m,
                p,
            ))
            &&& scaling && (power_dbm == -1 || power_dbm > 64 || power_dbm < -64) ==> (cmd.encode(
                card,
            ) matches Ok(buf) && generic_buffer(buf, 0x1033, 0xffff_ffff, m, p))
            &&& scaling && -64 <= power_dbm <= -2 ==> cmd.encode(card) == Err::<Seq<u8>, CommandError>(
                CommandError::PowerTooHigh { max: 1024 },
            )
            &&& !scaling && power_dbm <= 24 ==> (cmd.encode(card) matches Ok(buf) && generic_buffer(
                buf,
                0x1033,
                power_dbm as u32,
                m,
                p,
            ))
            &&& !scaling && power_dbm > 24 ==> cmd.encode(card) == Err::<Seq<u8>, CommandError>(
                CommandError::PowerTooHigh { max: 24 },
            )
        }),
{
    let cmd = MfgCmdModel::TxPower { power_dbm, modulation, path };
    if card.spec_scales_power() {
        crate::command::lemma_power_field_scaled(card, power_dbm);
    }
    if cmd.encode(card) is Ok {
        let field = crate::command::spec_power_field(card, power_dbm)->Ok_0;
        lemma_generic_cfg_bytes(0x1033, true, field, modulation.spec_value(), path.spec_value());
    }
}

/// The other generic commands: `rf_test_mode` is sent as code 1 (enable) or
/// 0 (disable) with no values; the TX and RX antenna (codes `0x1004`,
/// `0x1005`) as 1 for path A, 2 for B and 3 for both; the radio mode
/// (`0x1211`) as its two radios; the band (`0x1034`) as 0 for 2.4 GHz and 1
/// for 5 GHz; the channel bandwidth (`0x1044`) as 0 for 20 MHz, 1 for 40 MHz
/// and 4 for 80 MHz; the channel (`0x100A`) as its number; and
/// `get_and_reset_per` (`0x1010`) with no values. None of them depends on
/// the card.
pub proof fn lemma_generic_command_bytes(cmd: MfgCmdModel, card: CardType)
    ensures
        cmd matches MfgCmdModel::RfTestMode { enable } ==> (cmd.encode(card) matches Ok(buf)
            && generic_buffer(buf, if enable { 1 } else { 0 }, 0, 0, 0)),
        cmd matches MfgCmdModel::TxAntenna { mode } ==> (cmd.encode(card) matches Ok(buf)
            && generic_buffer(
            buf,
            0x1004,
            if mode == AntennaMode::A { 1 } else if mode == AntennaMode::B { 2 } else { 3 },
            0,
            0,
        )),
        cmd matches MfgCmdModel::RxAntenna { mode } ==> (cmd.encode(card) matches Ok(buf)
            && generic_buffer(
            buf,
            0x1005,
            if mode == AntennaMode::A { 1 } else if mode == AntennaMode::B { 2 } else { 3 },
            0,
            0,
        )),
        cmd matches MfgCmdModel::RadioMode { radio0, radio1 } ==> (cmd.encode(card) matches Ok(buf)
            && generic_buffer(buf, 0x1211, radio0, radio1, 0)),
        cmd matches MfgCmdModel::RfBand { band } ==> (cmd.encode(card) matches Ok(buf)
            && generic_buffer(buf, 0x1034, if band == RfBand::Ghz2_4 { 0 } else { 1 }, 0, 0)),
        cmd matches MfgCmdModel::ChannelBandwidth { bandwidth } ==> (cmd.encode(card) matches Ok(buf)
            && generic_buffer(
            buf,
            0x1044,
            if bandwidth == ChannelBandwidth::Bw20 {
                0
            } else if bandwidth == ChannelBandwidth::Bw40 {
                1
            } else {
                4
            },
            0,
            0,
        )),
        cmd matches MfgCmdModel::RfChannel { channel } ==> (cmd.encode(card) matches Ok(buf)
            && generic_buffer(buf, 0x100A, channel as u32, 0, 0)),
        cmd is GetAndResetPer ==> (cmd.encode(card) matches Ok(buf) && generic_buffer(
            buf,
            0x1010,
            0,
            0,
            0,
        )),
{
    let code = cmd.command_number();
    match cmd {
        MfgCmdModel::RfTestMode { .. } => lemma_generic_cfg_bytes(code, true, 0, 0, 0),
        MfgCmdModel::TxAntenna { mode } => lemma_generic_cfg_bytes(code, true, mode.spec_value(), 0, 0),
        MfgCmdModel::RxAntenna { mode } => lemma_generic_cfg_bytes(code, true, mode.spec_value(), 0, 0),
        MfgCmdModel::RadioMode { radio0, radio1 } => lemma_generic_cfg_bytes(code, true, radio0, radio1, 0),
        MfgCmdModel::RfBand { band } => lemma_generic_cfg_bytes(code, true, band.spec_value(), 0, 0),
        MfgCmdModel::ChannelBandwidth { bandwidth } => lemma_generic_cfg_bytes(
            code,
            true,
            bandwidth.spec_value(),
            0,
            0,
        ),
        MfgCmdModel::RfChannel { channel } => lemma_generic_cfg_bytes(code, true, channel as u32, 0, 0),
        MfgCmdModel::GetAndResetPer { .. } => lemma_generic_cfg_bytes(code, false, 0, 0, 0),
        _ => {},
    }
}

/// A response is refused when it is shorter than the 20 bytes of the
/// header, when the result at byte 6 is not 0 (a firmware failure), or when
/// the command code at byte 8 is not the request's.
pub proof fn lemma_response_header_checks(req: MfgCmdModel, buf: Seq<u8>)
    ensures
        buf.len() < 20 ==> req.decode_response(buf) == Err::<MfgCmdModel, CommandError>(
            CommandError::ResponseTooShort { needed: 20 },
        ),
        buf.len() >= 20 && read16(buf, 6) != 0 ==> (req.decode_response(buf) matches Err(
            CommandError::Firmware { header },
        ) && header.result == read16(buf, 6) && header.body.mfg_cmd == read32(buf, 8)),
        buf.len() >= 20 && read16(buf, 6) == 0 && read32(buf, 8) != req.command_number()
            ==> req.decode_response(buf) == Err::<MfgCmdModel, CommandError>(
            CommandError::WrongCommand { expected: req.command_number(), received: read32(buf, 8) },
        ),
{
    if buf.len() >= 20 {
        let t = buf.take(20);
        assert(t[6] == buf[6] && t[7] == buf[7]);
        assert(t.skip(8)[0] == buf[8] && t.skip(8)[1] == buf[9] && t.skip(8)[2] == buf[10]
            && t.skip(8)[3] == buf[11]);
    }
}

/// A successful response (result 0 at byte 6, the request's command code at
/// byte 8) to a generic command reports the values at bytes 20, 24 and 28:
/// `rf_test_mode` reports test mode on for code 1 and off for code 0;
/// `get_and_reset_per` its three counters in order (all packets, multicast
/// and broadcast packets, frame check sequence errors); the radio mode its
/// two radios; the channel its number; the antenna 1, 2 or 3 for path A, B
/// or both; the band 0 or 1 for 2.4 or 5 GHz; the channel bandwidth 0, 1 or
/// 4 for 20, 40 or 80 MHz; `tx_power` the power, then the modulation (CCK 0,
/// OFDM 1, MCS 2) and the path (A 0, B 1, both 2). A number that names no
/// selection makes the response an error.
pub proof fn lemma_generic_response_decoding(req: MfgCmdModel, buf: Seq<u8>)
    requires
        buf.len() >= 32,
        read16(buf, 6) == 0,
    ensures
        ({
            let code = read32(buf, 8);
            let d1 = read32(buf, 20);
            let d2 = read32(buf, 24);
            let d3 = read32(buf, 28);
            &&& req is GetAndResetPer && code == 0x1010 ==> req.decode_response(buf) == Ok::<
                MfgCmdModel,
                CommandError,
            >(
                MfgCmdModel::GetAndResetPer {
                    rx_total_packet_count: d1,
                    rx_multi_broadcast_packet_count: d2,
                    rx_frame_check_sequence_errors: d3,
                },
            )
            &&& req is RfTestMode && code == req.command_number() ==> req.decode_response(buf) == Ok::<
                MfgCmdModel,
                CommandError,
            >(MfgCmdModel::RfTestMode { enable: code == 1 })
            &&& req is RadioMode && code == 0x1211 ==> req.decode_response(buf) == Ok::<
                MfgCmdModel,
                CommandError,
            >(MfgCmdModel::RadioMode { radio0: d1, radio1: d2 })
            &&& req is RfChannel && code == 0x100A ==> req.decode_response(buf) == Ok::<
                MfgCmdModel,
                CommandError,
            >(MfgCmdModel::RfChannel { channel: d1 as u16 })
            &&& req is TxAntenna && code == 0x1004 ==> req.decode_response(buf) == if d1 == 1 {
                Ok::<MfgCmdModel, CommandError>(MfgCmdModel::TxAntenna { mode: AntennaMode::A })
            } else if d1 == 2 {
                Ok::<MfgCmdModel, CommandError>(MfgCmdModel::TxAntenna { mode: AntennaMode::B })
            } else if d1 == 3 {
                Ok::<MfgCmdModel, CommandError>(MfgCmdModel::TxAntenna { mode: AntennaMode::AB })
            } else {
                Err::<MfgCmdModel, CommandError>(
                    CommandError::InvalidValue(InvalidValue::AntennaMode(d1)),
                )
            }
            &&& req is RxAntenna && code == 0x1005 ==> req.decode_response(buf) == if d1 == 1 {
                Ok::<MfgCmdModel, CommandError>(MfgCmdModel::RxAntenna { mode: AntennaMode::A })
            } else if d1 == 2 {
                Ok::<MfgCmdModel, CommandError>(MfgCmdModel::RxAntenna { mode: AntennaMode::B })
            } else if d1 == 3 {
                Ok::<MfgCmdModel, CommandError>(MfgCmdModel::RxAntenna { mode: AntennaMode::AB })
            } else {
                Err::<MfgCmdModel, CommandError>(
                    CommandError::InvalidValue(InvalidValue::AntennaMode(d1)),
                )
            }
            &&& req is RfBand && code == 0x1034 ==> req.decode_response(buf) == if d1 == 0 {
                Ok::<MfgCmdModel, CommandError>(MfgCmdModel::RfBand { band: RfBand::Ghz2_4 })
            } else if d1 == 1 {
                Ok::<MfgCmdModel, CommandError>(MfgCmdModel::RfBand { band: RfBand::Ghz5 })
            } else {
                Err::<MfgCmdModel, CommandError>(CommandError::InvalidValue(InvalidValue::RfBand(d1)))
            }
            &&& req is ChannelBandwidth && code == 0x1044 ==> req.decode_response(buf) == if d1 == 0 {
                Ok::<MfgCmdModel, CommandError>(
                    MfgCmdModel::ChannelBandwidth { bandwidth: ChannelBandwidth::Bw20 },
                )
            } else if d1 == 1 {
                Ok::<MfgCmdModel, CommandError>(
                    MfgCmdModel::ChannelBandwidth { bandwidth: ChannelBandwidth::Bw40 },
                )
            } else if d1 == 4 {
                Ok::<MfgCmdModel, CommandError>(
                    MfgCmdModel::ChannelBandwidth { bandwidth: ChannelBandwidth::Bw80 },
                )
            } else {
                Err::<MfgCmdModel, CommandError>(
                    CommandError::InvalidValue(InvalidValue::ChannelBandwidth(d1)),
                )
            }
            &&& req is TxPower && code == 0x1033 ==> req.decode_response(buf) == if d2 > 2 {
                Err::<MfgCmdModel, CommandError>(
                    CommandError::InvalidValue(InvalidValue::Modulation(d2)),
                )
            } else if d3 > 2 {
                Err::<MfgCmdModel, CommandError>(CommandError::InvalidValue(InvalidValue::TxPathId(d3)))
            } else {
                Ok::<MfgCmdModel, CommandError>(
                    MfgCmdModel::TxPower {
                        power_dbm: d1 as i32,
                        modulation: if d2 == 0 {
                            Modulation::Cck
                        } else if d2 == 1 {
                            Modulation::Ofdm
                        } else {
                            Modulation::Mcs
                        },
                        path: if d3 == 0 {
                            TxPathId::A
                        } else if d3 == 1 {
                            TxPathId::B
                        } else {
                            TxPathId::AB
                        },
                    },
                )
            }
        }),
{
    lemma_generic_response_fields(buf);
}

/// The firmware's number for each selection, and the selection that each
/// number names (any other number names none): antenna A 1, B 2, both 3; TX
/// path A 0, B 1, both 2; band 2.4 GHz 0, 5 GHz 1; channel bandwidth 20 MHz
/// 0, 40 MHz 1, 80 MHz 4; modulation CCK 0, OFDM 1, MCS 2; active
/// subchannel lower 0, upper 1, both 3; signal bandwidth 20 MHz 0, 40 MHz 1,
/// 80 MHz 4, default -1 (all 32 bits set); standalone HE TB mode disabled
/// 0, trigger-based 1, standalone 2, SU-OFDMA 3; UL bandwidth 20 MHz 0,
/// 40 MHz 1, 80 MHz 2; LTF symbol 1x 0, 2x 1; spatial streams 1 SS 0, 2 SS 1.
pub proof fn lemma_selection_codes(v: u32, w: u64)
    ensures
        AntennaMode::A.spec_value() == 1,
        AntennaMode::B.spec_value() == 2,
        AntennaMode::AB.spec_value() == 3,
        AntennaMode::spec_from_value(v) ==
            if v == 1 {
                Ok::<AntennaMode, InvalidValue>(AntennaMode::A)
            } else if v == 2 {
                Ok::<AntennaMode, InvalidValue>(AntennaMode::B)
            } else if v == 3 {
                Ok::<AntennaMode, InvalidValue>(AntennaMode::AB)
            } else {
                Err::<AntennaMode, InvalidValue>(InvalidValue::AntennaMode(v))
            },
        TxPathId::A.spec_value() == 0,
        TxPathId::B.spec_value() == 1,
        TxPathId::AB.spec_value() == 2,
        TxPathId::spec_from_value(v) ==
            if v == 0 {
                Ok::<TxPathId, InvalidValue>(TxPathId::A)
            } else if v == 1 {
                Ok::<TxPathId, InvalidValue>(TxPathId::B)
            } else if v == 2 {
                Ok::<TxPathId, InvalidValue>(TxPathId::AB)
            } else {
                Err::<TxPathId, InvalidValue>(InvalidValue::TxPathId(v))
            },
        RfBand::Ghz2_4.spec_value() == 0,
        RfBand::Ghz5.spec_value() == 1,
        RfBand::spec_from_value(v) ==
            if v == 0 {
                Ok::<RfBand, InvalidValue>(RfBand::Ghz2_4)
            } else if v == 1 {
                Ok::<RfBand, InvalidValue>(RfBand::Ghz5)
            } else {
                Err::<RfBand, InvalidValue>(InvalidValue::RfBand(v))
            },
        ChannelBandwidth::Bw20.spec_value() == 0,
        ChannelBandwidth::Bw40.spec_value() == 1,
        ChannelBandwidth::Bw80.spec_value() == 4,
        ChannelBandwidth::spec_from_value(v) ==
            if v == 0 {
                Ok::<ChannelBandwidth, InvalidValue>(ChannelBandwidth::Bw20)
            } else if v == 1 {
                Ok::<ChannelBandwidth, InvalidValue>(ChannelBandwidth::Bw40)
            } else if v == 4 {
                Ok::<ChannelBandwidth, InvalidValue>(ChannelBandwidth::Bw80)
            } else {
                Err::<ChannelBandwidth, InvalidValue>(InvalidValue::ChannelBandwidth(v))
            },
        Modulation::Cck.spec_value() == 0,
        Modulation::Ofdm.spec_value() == 1,
        Modulation::Mcs.spec_value() == 2,
        Modulation::spec_from_value(v) ==
            if v == 0 {
                Ok::<Modulation, InvalidValue>(Modulation::Cck)
            } else if v == 1 {
                Ok::<Modulation, InvalidValue>(Modulation::Ofdm)
            } else if v == 2 {
                Ok::<Modulation, InvalidValue>(Modulation::Mcs)
            } else {
                Err::<Modulation, InvalidValue>(InvalidValue::Modulation(v))
            },
        ActiveSubchannel::Lower.spec_value() == 0,
        ActiveSubchannel::Upper.spec_value() == 1,
        ActiveSubchannel::Both.spec_value() == 3,
        ActiveSubchannel::spec_from_value(v) ==
            if v == 0 {
                Ok::<ActiveSubchannel, InvalidValue>(ActiveSubchannel::Lower)
            } else if v == 1 {
                Ok::<ActiveSubchannel, InvalidValue>(ActiveSubchannel::Upper)
            } else if v == 3 {
                Ok::<ActiveSubchannel, InvalidValue>(ActiveSubchannel::Both)
            } else {
                Err::<ActiveSubchannel, InvalidValue>(InvalidValue::ActiveSubchannel(v))
            },
        SignalBandwidth::Bw20.spec_wire_value() == 0,
        SignalBandwidth::Bw40.spec_wire_value() == 1,
        SignalBandwidth::Bw80.spec_wire_value() == 4,
        SignalBandwidth::Default.spec_wire_value() == 0xffff_ffff,
        SignalBandwidth::Default.spec_value() == -1,
        SignalBandwidth::spec_from_value(v) ==
            if v == 0 {
                Ok::<SignalBandwidth, InvalidValue>(SignalBandwidth::Bw20)
            } else if v == 1 {
                Ok::<SignalBandwidth, InvalidValue>(SignalBandwidth::Bw40)
            } else if v == 4 {
                Ok::<SignalBandwidth, InvalidValue>(SignalBandwidth::Bw80)
            } else if v == 0xffff_ffff {
                Ok::<SignalBandwidth, InvalidValue>(SignalBandwidth::Default)
            } else {
                Err::<SignalBandwidth, InvalidValue>(InvalidValue::SignalBandwidth(v as i32))
            },
        StandaloneHeTbMode::Disabled.spec_value() == 0,
        StandaloneHeTbMode::TriggerBased.spec_value() == 1,
        StandaloneHeTbMode::Standalone.spec_value() == 2,
        StandaloneHeTbMode::SuOfdma.spec_value() == 3,
        StandaloneHeTbMode::spec_from_value(v) ==
            if v == 0 {
                Ok::<StandaloneHeTbMode, InvalidValue>(StandaloneHeTbMode::Disabled)
            } else if v == 1 {
                Ok::<StandaloneHeTbMode, InvalidValue>(StandaloneHeTbMode::TriggerBased)
            } else if v == 2 {
                Ok::<StandaloneHeTbMode, InvalidValue>(StandaloneHeTbMode::Standalone)
            } else if v == 3 {
                Ok::<StandaloneHeTbMode, InvalidValue>(StandaloneHeTbMode::SuOfdma)
            } else {
                Err::<StandaloneHeTbMode, InvalidValue>(InvalidValue::StandaloneHeTbMode(v))
            },
        UlBandwidth::Bw20.spec_value() == 0,
        UlBandwidth::Bw40.spec_value() == 1,
        UlBandwidth::Bw80.spec_value() == 2,
        UlBandwidth::spec_from_value(w) ==
            if w == 0 {
                Ok::<UlBandwidth, InvalidValue>(UlBandwidth::Bw20)
            } else if w == 1 {
                Ok::<UlBandwidth, InvalidValue>(UlBandwidth::Bw40)
            } else if w == 2 {
                Ok::<UlBandwidth, InvalidValue>(UlBandwidth::Bw80)
            } else {
                Err::<UlBandwidth, InvalidValue>(InvalidValue::UlBandwidth(w))
            },
        LtfSymbol::OneXHELTF.spec_value() == 0,
        LtfSymbol::TwoXHELTF.spec_value() == 1,
        LtfSymbol::spec_from_value(w) ==
            if w == 0 {
                Ok::<LtfSymbol, InvalidValue>(LtfSymbol::OneXHELTF)
            } else if w == 1 {
                Ok::<LtfSymbol, InvalidValue>(LtfSymbol::TwoXHELTF)
            } else {
                Err::<LtfSymbol, InvalidValue>(InvalidValue::LtfSymbol(w))
            },
        SpatialStreamAllocation::OneSS.spec_value() == 0,
        SpatialStreamAllocation::TwoSS.spec_value() == 1,
        SpatialStreamAllocation::spec_from_value(v) ==
            if v == 0 {
                Ok::<SpatialStreamAllocation, InvalidValue>(SpatialStreamAllocation::OneSS)
            } else if v == 1 {
                Ok::<SpatialStreamAllocation, InvalidValue>(SpatialStreamAllocation::TwoSS)
            } else {
                Err::<SpatialStreamAllocation, InvalidValue>(InvalidValue::SpatialStreamAllocation(v))
            },
{
}

/// The body of a host command starts at byte 20, after the host header
/// (result at byte 6) and the manufacturing header (command code at byte 8,
/// action at byte 12: 1 to set, 0 to get).
pub proof fn lemma_body_bytes<T: WireFormat>(code: u32, write: bool, body: T)
    ensures
        host_bytes(code, write, body).len() == 20 + T::wire_len(),
        host_bytes(code, write, body).subrange(20, 20 + T::wire_len() as int) == body.wire(),
        read16(host_bytes(code, write, body), 6) == 0,
        read32(host_bytes(code, write, body), 8) == code,
        read16(host_bytes(code, write, body), 12) == if write { 1u16 } else { 0u16 },
{
    let buf = host_bytes(code, write, body);
    body.lemma_wire_len();
    assert(buf.subrange(20, 20 + T::wire_len() as int) =~= body.wire());
    assert(buf.subrange(6, 8) =~= le16(0));
    lemma_read16_le16(buf, 6, 0);
    assert(buf.subrange(8, 12) =~= le32(code));
    lemma_read32_le32(buf, 8, code);
    let action: u16 = if write { 1 } else { 0 };
    assert(buf.subrange(12, 14) =~= le16(action));
    lemma_read16_le16(buf, 12, action);
}

/// Reads the little-endian field at `o` of a body that starts at byte 20.
proof fn lemma_body_u32(buf: Seq<u8>, body: Seq<u8>, o: int, v: u32)
    requires
        buf.len() >= 20 + body.len(),
        buf.subrange(20, 20 + body.len() as int) == body,
        0 <= o,
        o + 4 <= body.len(),
        body.subrange(o, o + 4) == le32(v),
    ensures
        read32(buf, 20 + o) == v,
{
    assert(buf.subrange(20 + o, 24 + o) =~= body.subrange(o, o + 4));
    lemma_read32_le32(buf, 20 + o, v);
}

/// Reads the little-endian field at `o` of a body that starts at byte 20.
proof fn lemma_body_u16(buf: Seq<u8>, body: Seq<u8>, o: int, v: u16)
    requires
        buf.len() >= 20 + body.len(),
        buf.subrange(20, 20 + body.len() as int) == body,
        0 <= o,
        o + 2 <= body.len(),
        body.subrange(o, o + 2) == le16(v),
    ensures
        read16(buf, 20 + o) == v,
{
    assert(buf.subrange(20 + o, 22 + o) =~= body.subrange(o, o + 2));
    lemma_read16_le16(buf, 20 + o, v);
}

/// `tx_continuous` (code `0x1009`, 48 bytes) carries from byte 20 on, each
/// a little-endian `u32`: start (1) or stop (0), continuous wave mode,
/// payload pattern, carrier suppression, active subchannel (lower 0, upper
/// 1, both 3), TX rate, and a zero reserved word.
pub proof fn lemma_tx_continuous_bytes(cmd: MfgCmdModel, card: CardType)
    ensures
        cmd matches MfgCmdModel::TxContinuous {
            enable,
            continuous_wave_mode,
            payload_pattern,
            cs_mode,
            active_subchannel,
            tx_rate,
        } ==> (cmd.encode(card) matches Ok(buf) && {
                &&& buf.len() == 48
                &&& read16(buf, 6) == 0
                &&& read32(buf, 8) == 0x1009
                &&& read16(buf, 12) == 1
                &&& read32(buf, 20) == (if enable { 1int } else { 0int })
                &&& read32(buf, 24) == (if continuous_wave_mode { 1int } else { 0int })
                &&& read32(buf, 28) == payload_pattern
                &&& read32(buf, 32) == (if cs_mode { 1int } else { 0int })
                &&& read32(buf, 36) == (if active_subchannel == ActiveSubchannel::Lower { 0u32 } else if active_subchannel == ActiveSubchannel::Upper { 1 } else { 3 })
                &&& read32(buf, 40) == tx_rate
                &&& read32(buf, 44) == 0
            }),
{
    if let MfgCmdModel::TxContinuous { enable, continuous_wave_mode, payload_pattern, cs_mode, active_subchannel, tx_rate } = cmd {
        let body = crate::ffi::TxCont {
            enable_tx: crate::command::flag32(enable),
            cw_mode: crate::command::flag32(continuous_wave_mode),
            payload_pattern,
            cs_mode: crate::command::flag32(cs_mode),
            act_sub_ch: active_subchannel.spec_value(),
            tx_rate,
            rsvd: 0,
        };
        lemma_tx_cont_fields(body);
        assert(cmd.encode(card) == Ok::<Seq<u8>, CommandError>(host_bytes(0x1009u32, true, body)));
    }
}

/// Where the fields of a `tx_continuous` body stand in its host command.
proof fn lemma_tx_cont_fields(body: crate::ffi::TxCont)
    ensures
        ({
            let buf = host_bytes(0x1009u32, true, body);
            &&& buf.len() == 48
            &&& read16(buf, 6) == 0
            &&& read32(buf, 8) == 0x1009
            &&& read16(buf, 12) == 1
            &&& read32(buf, 20) == body.enable_tx
            &&& read32(buf, 24) == body.cw_mode
            &&& read32(buf, 28) == body.payload_pattern
            &&& read32(buf, 32) == body.cs_mode
            &&& read32(buf, 36) == body.act_sub_ch
            &&& read32(buf, 40) == body.tx_rate
            &&& read32(buf, 44) == body.rsvd
        }),
{
    lemma_body_bytes(0x1009u32, true, body);
    let buf = host_bytes(0x1009u32, true, body);
    let w = body.wire();
    assert(w.subrange(0, 4) =~= le32(body.enable_tx));
    lemma_body_u32(buf, w, 0, body.enable_tx);
    assert(w.subrange(4, 8) =~= le32(body.cw_mode));
    lemma_body_u32(buf, w, 4, body.cw_mode);
    assert(w.subrange(8, 12) =~= le32(body.payload_pattern));
    lemma_body_u32(buf, w, 8, body.payload_pattern);
    assert(w.subrange(12, 16) =~= le32(body.cs_mode));
    lemma_body_u32(buf, w, 12, body.cs_mode);
    assert(w.subrange(16, 20) =~= le32(body.act_sub_ch));
    lemma_body_u32(buf, w, 16, body.act_sub_ch);
    assert(w.subrange(20, 24) =~= le32(body.tx_rate));
    lemma_body_u32(buf, w, 20, body.tx_rate);
    assert(w.subrange(24, 28) =~= le32(body.rsvd));
    lemma_body_u32(buf, w, 24, body.rsvd);
}

/// `he_tb_tx` (code `0x110A`, 30 bytes) carries from byte 20 on, each a
/// little-endian 16-bit word: enable (1 or 0), queue number, AID, AXQ0 MU
/// timer, and the TX power in two's complement.
pub proof fn lemma_he_tb_tx_bytes(cmd: MfgCmdModel, card: CardType)
    ensures
        cmd matches MfgCmdModel::HeTbTx { enable, qnum, aid, axq0_mu_timer, tx_pwr } ==> (cmd.encode(
            card,
        ) matches Ok(buf) && {
                &&& buf.len() == 30
                &&& read16(buf, 6) == 0
                &&& read32(buf, 8) == 0x110A
                &&& read16(buf, 12) == 1
                &&& read16(buf, 20) == (if enable { 1int } else { 0int })
                &&& read16(buf, 22) == qnum
                &&& read16(buf, 24) == aid
                &&& read16(buf, 26) == axq0_mu_timer
                &&& read16(buf, 28) == tx_pwr as u16
            }),
{
    if let MfgCmdModel::HeTbTx { enable, qnum, aid, axq0_mu_timer, tx_pwr } = cmd {
        let body = crate::ffi::HeTbTx {
            enable: crate::command::flag16(enable),
            qnum,
            aid,
            axq_mu_timer: axq0_mu_timer,
            tx_power: tx_pwr,
        };
        lemma_body_bytes(0x110Au32, true, body);
        let buf = host_bytes(0x110Au32, true, body);
        let w = body.wire();
        assert(w.subrange(0, 2) =~= le16(body.enable));
        lemma_body_u16(buf, w, 0, body.enable);
        assert(w.subrange(2, 4) =~= le16(body.qnum));
        lemma_body_u16(buf, w, 2, body.qnum);
        assert(w.subrange(4, 6) =~= le16(body.aid));
        lemma_body_u16(buf, w, 4, body.aid);
        assert(w.subrange(6, 8) =~= le16(body.axq_mu_timer));
        lemma_body_u16(buf, w, 6, body.axq_mu_timer);
        assert(w.subrange(8, 10) =~= le16(body.tx_power as u16));
        lemma_body_u16(buf, w, 8, body.tx_power as u16);
    }
}

/// `tx_frame` (code `0x1021`, 112 bytes) carries from byte 20 on: start (1)
/// or stop (0), TX rate, payload pattern and payload length as
/// little-endian `u32`s, the BSSID at bytes 36 to 41, the burst SIFS gap
/// flag as a 16-bit word at 42, then as `u32`s the SIFS in microseconds,
/// short preamble, active subchannel (lower 0, upper 1, both 3), short GI,
/// advanced coding, beamforming, greenfield, STBC, a zero reserved word,
/// the signal bandwidth (0, 1, 4 for 20, 40, 80 MHz, all bits set for the
/// default), and the packet count, maximum packet extension, beam change,
/// DCM, doppler, midamble period and queue number in two's complement.
#[verifier::rlimit(60)]
pub proof fn lemma_tx_frame_bytes(cmd: MfgCmdModel, card: CardType)
    requires
        cmd.wf(),
    ensures
        cmd matches MfgCmdModel::TxFrame { enable, tx_rate, payload_pattern, payload_length, adjust_burst_sifs_gap, adjust_sifs_us, short_preamble, active_subchannel, short_gi, adv_coding, beamforming, greenfield_mode, stbc, signal_bw, num_pkt, max_pkt_ext, beam_change, dcm, doppler, midamble_period, q_num, bssid } ==> (cmd.encode(card) matches Ok(buf) && {
                &&& buf.len() == 112
                &&& read16(buf, 6) == 0
                &&& read32(buf, 8) == 0x1021
                &&& read16(buf, 12) == 1
                &&& read32(buf, 20) == (if enable { 1int } else { 0int })
                &&& read32(buf, 24) == tx_rate
                &&& read32(buf, 28) == payload_pattern
                &&& read32(buf, 32) == payload_length
                &&& buf.subrange(36, 42) == bssid
                &&& read16(buf, 42) == (if adjust_burst_sifs_gap { 1int } else { 0int })
                &&& read32(buf, 44) == adjust_sifs_us
                &&& read32(buf, 48) == (if short_preamble { 1int } else { 0int })
                &&& read32(buf, 52) == (if active_subchannel == ActiveSubchannel::Lower { 0u32 } else if active_subchannel == ActiveSubchannel::Upper { 1 } else { 3 })
                &&& read32(buf, 56) == (if short_gi { 1int } else { 0int })
                &&& read32(buf, 60) == (if adv_coding { 1int } else { 0int })
                &&& read32(buf, 64) == (if beamforming { 1int } else { 0int })
                &&& read32(buf, 68) == (if greenfield_mode { 1int } else { 0int })
                &&& read32(buf, 72) == (if stbc { 1int } else { 0int })
                &&& read32(buf, 76) == 0
                &&& read32(buf, 80) == (if signal_bw == SignalBandwidth::Bw20 { 0u32 } else if signal_bw == SignalBandwidth::Bw40 { 1 } else if signal_bw == SignalBandwidth::Bw80 { 4 } else { 0xffff_ffff })
                &&& read32(buf, 84) == num_pkt as u32
                &&& read32(buf, 88) == max_pkt_ext as u32
                &&& read32(buf, 92) == beam_change as u32
                &&& read32(buf, 96) == dcm as u32
                &&& read32(buf, 100) == doppler as u32
                &&& read32(buf, 104) == midamble_period as u32
                &&& read32(buf, 108) == q_num as u32
            }),
{
    if let MfgCmdModel::TxFrame { enable, tx_rate, payload_pattern, payload_length, adjust_burst_sifs_gap, adjust_sifs_us, short_preamble, active_subchannel, short_gi, adv_coding, beamforming, greenfield_mode, stbc, signal_bw, num_pkt, max_pkt_ext, beam_change, dcm, doppler, midamble_period, q_num, bssid } = cmd {
        let body = crate::command::tx_frame_body(
            enable, tx_rate, payload_pattern, payload_length, adjust_burst_sifs_gap, adjust_sifs_us, short_preamble, active_subchannel, short_gi, adv_coding, beamforming, greenfield_mode, stbc, signal_bw, num_pkt, max_pkt_ext, beam_change, dcm, doppler, midamble_period, q_num, bssid,
        );
        crate::command::lemma_array_of_view::<MAC_ADDR_LENGTH>(bssid);
        lemma_tx_frame_fields(body);
        assert(cmd.encode(card) == Ok::<Seq<u8>, CommandError>(host_bytes(0x1021u32, true, body)));
    }
}

/// Where the fields of a `tx_frame` body stand in its host command.
#[verifier::rlimit(60)]
proof fn lemma_tx_frame_fields(body: crate::ffi::TxFrame2)
    ensures
        ({
            let buf = host_bytes(0x1021u32, true, body);
            &&& buf.len() == 112
            &&& read16(buf, 6) == 0
            &&& read32(buf, 8) == 0x1021
            &&& read16(buf, 12) == 1
            &&& read32(buf, 20) == body.enable
            &&& read32(buf, 24) == body.data_rate
            &&& read32(buf, 28) == body.frame_pattern
            &&& read32(buf, 32) == body.frame_length
            &&& buf.subrange(36, 42) == body.bssid@
            &&& read16(buf, 42) == body.adjust_burst_sifs
            &&& read32(buf, 44) == body.burst_sifs_in_us
            &&& read32(buf, 48) == body.short_preamble
            &&& read32(buf, 52) == body.act_sub_ch
            &&& read32(buf, 56) == body.short_gi
            &&& read32(buf, 60) == body.adv_coding
            &&& read32(buf, 64) == body.tx_bf
            &&& read32(buf, 68) == body.gf_mode
            &&& read32(buf, 72) == body.stbc
            &&& read32(buf, 76) == body.rsvd[0]
            &&& read32(buf, 80) == body.signal_bw
            &&& read32(buf, 84) == body.num_pkt
            &&& read32(buf, 88) == body.max_pe
            &&& read32(buf, 92) == body.beam_change
            &&& read32(buf, 96) == body.dcm
            &&& read32(buf, 100) == body.doppler
            &&& read32(buf, 104) == body.mid_p
            &&& read32(buf, 108) == body.q_num
        }),
{
    lemma_body_bytes(0x1021u32, true, body);
    let buf = host_bytes(0x1021u32, true, body);
    let w = body.wire();
    assert(w.len() == 92);
    assert(w.subrange(0, 4) =~= le32(body.enable));
    lemma_body_u32(buf, w, 0, body.enable);
    assert(w.subrange(4, 8) =~= le32(body.data_rate));
    lemma_body_u32(buf, w, 4, body.data_rate);
    assert(w.subrange(8, 12) =~= le32(body.frame_pattern));
    lemma_body_u32(buf, w, 8, body.frame_pattern);
    assert(w.subrange(12, 16) =~= le32(body.frame_length));
    lemma_body_u32(buf, w, 12, body.frame_length);
    assert(buf.subrange(36, 42) =~= w.subrange(16, 22));
    assert(w.subrange(16, 22) =~= body.bssid@);
    assert(w.subrange(22, 24) =~= le16(body.adjust_burst_sifs));
    lemma_body_u16(buf, w, 22, body.adjust_burst_sifs);
    assert(w.subrange(24, 28) =~= le32(body.burst_sifs_in_us));
    lemma_body_u32(buf, w, 24, body.burst_sifs_in_us);
    assert(w.subrange(28, 32) =~= le32(body.short_preamble));
    lemma_body_u32(buf, w, 28, body.short_preamble);
    assert(w.subrange(32, 36) =~= le32(body.act_sub_ch));
    lemma_body_u32(buf, w, 32, body.act_sub_ch);
    assert(w.subrange(36, 40) =~= le32(body.short_gi));
    lemma_body_u32(buf, w, 36, body.short_gi);
    assert(w.subrange(40, 44) =~= le32(body.adv_coding));
    lemma_body_u32(buf, w, 40, body.adv_coding);
    assert(w.subrange(44, 48) =~= le32(body.tx_bf));
    lemma_body_u32(buf, w, 44, body.tx_bf);
    assert(w.subrange(48, 52) =~= le32(body.gf_mode));
    lemma_body_u32(buf, w, 48, body.gf_mode);
    assert(w.subrange(52, 56) =~= le32(body.stbc));
    lemma_body_u32(buf, w, 52, body.stbc);
    assert(w.subrange(56, 60) =~= le32(body.rsvd[0]));
    lemma_body_u32(buf, w, 56, body.rsvd[0]);
    assert(w.subrange(60, 64) =~= le32(body.signal_bw));
    lemma_body_u32(buf, w, 60, body.signal_bw);
    assert(w.subrange(64, 68) =~= le32(body.num_pkt));
    lemma_body_u32(buf, w, 64, body.num_pkt);
    assert(w.subrange(68, 72) =~= le32(body.max_pe));
    lemma_body_u32(buf, w, 68, body.max_pe);
    assert(w.subrange(72, 76) =~= le32(body.beam_change));
    lemma_body_u32(buf, w, 72, body.beam_change);
    assert(w.subrange(76, 80) =~= le32(body.dcm));
    lemma_body_u32(buf, w, 76, body.dcm);
    assert(w.subrange(80, 84) =~= le32(body.doppler));
    lemma_body_u32(buf, w, 80, body.doppler);
    assert(w.subrange(84, 88) =~= le32(body.mid_p));
    lemma_body_u32(buf, w, 84, body.mid_p);
    assert(w.subrange(88, 92) =~= le32(body.q_num));
    lemma_body_u32(buf, w, 88, body.q_num);
}

/// `otp_mac_addr` (code `0x108C`, 26 bytes) is a write (action 1) or a read
/// (action 0) and carries the MAC address at bytes 20 to 25.
pub proof fn lemma_otp_mac_addr_bytes(cmd: MfgCmdModel, card: CardType)
    requires
        cmd.wf(),
    ensures
        cmd matches MfgCmdModel::OtpMacAddr { write, mac_addr } ==> (cmd.encode(card) matches Ok(buf) && {
                &&& buf.len() == 26
                &&& read16(buf, 6) == 0
                &&& read32(buf, 8) == 0x108C
                &&& read16(buf, 12) == (if write { 1int } else { 0int })
                &&& buf.subrange(20, 26) == mac_addr
            }),
{
    if let MfgCmdModel::OtpMacAddr { write, mac_addr } = cmd {
        let body = crate::ffi::OtpMacAddrRdWr { mac_addr: crate::ffi::array_of::<MAC_ADDR_LENGTH>(mac_addr) };
        crate::command::lemma_array_of_view::<MAC_ADDR_LENGTH>(mac_addr);
        lemma_body_bytes(0x108Cu32, write, body);
    }
}

/// `otp_cal_data` (code `0x121A`) is a write (action 1) or a read (action 0)
/// of at most `CAL_DATA_LEN` bytes: a zero status at byte 20, the length at
/// byte 24, then the data from byte 28, padded with zeros to
/// `CAL_DATA_LEN` bytes; longer data is refused.
pub proof fn lemma_otp_cal_data_bytes(cmd: MfgCmdModel, card: CardType)
    ensures
        cmd matches MfgCmdModel::OtpCalData { write, cal_data } ==> {
            &&& cal_data.len() > CAL_DATA_LEN ==> cmd.encode(card) == Err::<Seq<u8>, CommandError>(
                CommandError::CalDataTooLong { len: cal_data.len() as usize },
            )
            &&& cal_data.len() <= CAL_DATA_LEN ==> (cmd.encode(card) matches Ok(buf) && {
                &&& buf.len() == 28 + CAL_DATA_LEN
                &&& read16(buf, 6) == 0
                &&& read32(buf, 8) == 0x121A
                &&& read16(buf, 12) == (if write { 1int } else { 0int })
                &&& read32(buf, 20) == 0
                &&& read32(buf, 24) == cal_data.len()
                &&& buf.subrange(28, 28 + cal_data.len() as int) == cal_data
                &&& forall|i: int| 28 + cal_data.len() <= i < buf.len() ==> buf[i] == 0
            })
        },
{
    if let MfgCmdModel::OtpCalData { write, cal_data } = cmd {
        if cal_data.len() <= CAL_DATA_LEN {
            let padded = cal_data + Seq::new((CAL_DATA_LEN - cal_data.len()) as nat, |i: int| 0u8);
            crate::command::lemma_array_of_view::<CAL_DATA_LEN>(padded);
            let body = crate::ffi::OtpCalDataRdWr {
                cal_data_status: 0,
                cal_data_len: cal_data.len() as u32,
                cal_data: crate::command::cal_data_buffer(cal_data),
            };
            lemma_body_bytes(0x121Au32, write, body);
            let buf = host_bytes(0x121Au32, write, body);
            let w = body.wire();
            assert(w.subrange(0, 4) =~= le32(0));
            lemma_body_u32(buf, w, 0, 0);
            assert(w.subrange(4, 8) =~= le32(cal_data.len() as u32));
            lemma_body_u32(buf, w, 4, cal_data.len() as u32);
            assert forall|i: int| 0 <= i < cal_data.len() implies #[trigger] buf[28 + i] == cal_data[i] by {
                assert(buf[28 + i] == w[8 + i]);
                assert(w[8 + i] == padded[i]);
            }
            assert(buf.subrange(28, 28 + cal_data.len() as int) =~= cal_data);
            assert forall|i: int| 28 + cal_data.len() <= i < buf.len() implies buf[i] == 0 by {
                assert(buf[i] == w[i - 20]);
                assert(w[i - 20] == padded[i - 28]);
            }
        }
    }
}

/// Where the fields of a trigger frame body stand in its host command: the
/// two leading words, the frame control word at byte 28, the duration at
/// 30, the common info at 44, the user info at 52, its target RSSI at 56
/// and the basic user info at 57.
#[verifier::rlimit(60)]
proof fn lemma_trigger_frame_fields(body: crate::ffi::IeeetypesCtlBasicTrigHdr)
    requires
        body.fits(),
    ensures
        ({
            let buf = host_bytes(0x110Cu32, true, body);
            &&& buf.len() == 58
            &&& read16(buf, 6) == 0
            &&& read32(buf, 8) == 0x110C
            &&& read16(buf, 12) == 1
            &&& read32(buf, 20) == body.enable_tx
            &&& read32(buf, 24) == body.standalone_hetb
            &&& IeeetypesFrameCtrl::spec_from_bits(read16(buf, 28)) == body.frm_ctl
            &&& read16(buf, 30) == body.duration
            &&& IeeetypesHeTrigComInfo::spec_from_bits(read64(buf, 44)) == body.trig_common_field
            &&& IeeetypesHeTrigUserInfoBits::spec_from_bits(read32(buf, 52))
                == body.trig_user_info_field.bits
            &&& IeeetypesHeTrigUserInfoRssi::spec_from_bits(buf[56]) == body.trig_user_info_field.rssi
            &&& IeeetypesBasicHeTrigUserInfo::spec_from_bits(buf[57]) == body.basic_trig_user_info
            &&& buf.subrange(32, 38) == body.dest_addr@
            &&& buf.subrange(38, 44) == body.src_addr@
        }),
{
    let buf = host_bytes(0x110Cu32, true, body);
    lemma_body_bytes(0x110Cu32, true, body);
    crate::command::lemma_parse_own_bytes(0x110Cu32, true, body);
    let s = buf.take(58).skip(8).skip(12);
    assert forall|i: int| 0 <= i < 38 implies #[trigger] s[i] == buf[20 + i] by {}
    assert(s.subrange(8, 10)[0] == buf[28] && s.subrange(8, 10)[1] == buf[29]);
    let c = s.subrange(24, 32);
    assert(c[0] == buf[44] && c[1] == buf[45] && c[2] == buf[46] && c[3] == buf[47]);
    assert(c[4] == buf[48] && c[5] == buf[49] && c[6] == buf[50] && c[7] == buf[51]);
    let u = s.subrange(32, 37);
    assert(u.subrange(0, 4)[0] == buf[52] && u.subrange(0, 4)[1] == buf[53]);
    assert(u.subrange(0, 4)[2] == buf[54] && u.subrange(0, 4)[3] == buf[55]);
    assert(u.subrange(4, 5)[0] == buf[56]);
    assert(s.subrange(37, 38)[0] == buf[57]);
    assert(s[0] == buf[20] && s[1] == buf[21] && s[2] == buf[22] && s[3] == buf[23]);
    assert(s[4] == buf[24] && s[5] == buf[25] && s[6] == buf[26] && s[7] == buf[27]);
    assert(s[10] == buf[30] && s[11] == buf[31]);
    crate::command::lemma_array_of_view::<MAC_ADDR_LENGTH>(s.subrange(12, 18));
    crate::command::lemma_array_of_view::<MAC_ADDR_LENGTH>(s.subrange(18, 24));
    assert(buf.subrange(32, 38) =~= s.subrange(12, 18));
    assert(buf.subrange(38, 44) =~= s.subrange(18, 24));
}

/// `trigger_frame` (code `0x110C`, 58 bytes) carries from byte 20 on: enable
/// (1 or 0) and the standalone HE TB mode (disabled 0, trigger-based 1,
/// standalone 2, SU-OFDMA 3) as little-endian `u32`s; the frame control
/// word at byte 28 with the type in bits 2 and 3 and the subtype in bits 4
/// to 7; the duration at 30; the common info as a little-endian `u64` at 44
/// (trigger type bits 0 to 3, UL length 4 to 15, more TF 16, CS required
/// 17, UL bandwidth 18 and 19 as 0, 1, 2 for 20, 40, 80 MHz, LTF type 20
/// and 21, LTF mode 22, LTF symbol 23 to 25 as 0 for 1x and 1 for 2x, UL
/// STBC 26, LDPC extra symbol 27, AP TX power 28 to 33, pre-FEC padding 34
/// and 35, PE disambiguity 36, spatial reuse 37 to 52, doppler 53, HE-SIG-A2
/// 54 to 62); the user info as a little-endian `u32` at 52 (AID12 bits 0 to
/// 11, RU allocation region 12, RU allocation 13 to 19, UL coding type 20,
/// UL MCS 21 to 24, UL DCM 25, spatial streams 26 to 31 as 0 for one and 1
/// for two); the UL target RSSI in bits 0 to 6 of byte 56; and byte 57 with
/// the MPDU MU spacing factor in bits 0 and 1, the TID aggregation limit in
/// 2 to 4, the preferred AC policy in 5 and the preferred AC in 6 and 7.
/// The protocol version and the flags of the frame control word, both
/// addresses (bytes 32 to 43) and the reserved bits are zero.
#[verifier::rlimit(60)]
pub proof fn lemma_trigger_frame_bytes(cmd: MfgCmdModel, card: CardType)
    requires
        cmd.fits_bit_fields(),
    ensures
        cmd matches MfgCmdModel::TriggerFrame { enable, standalone_hetb, frame_ctrl_type, frame_ctrl_subtype, frame_duration, trigger_type, ul_len, more_tf, cs_required, ul_bw, ltf_type, ltf_mode, ltf_symbol, ul_stbc, ldpc_ess, ap_tx_pwr, pre_fec_pad_fct, pe_disambig, spatial_reuse, doppler, he_sig2, aid12, ru_alloc_reg, ru_alloc, ul_coding_type, ul_mcs, ul_dcm, ss_alloc, ul_target_rssi, mpdu_mu_sf, tid_al, ac_pl, pref_ac } ==> (cmd.encode(card) matches Ok(buf) && {
                &&& buf.len() == 58
                &&& read16(buf, 6) == 0
                &&& read32(buf, 8) == 0x110C
                &&& read16(buf, 12) == 1
                &&& read32(buf, 20) == (if enable { 1int } else { 0int })
                &&& read32(buf, 24) == (if standalone_hetb == StandaloneHeTbMode::Disabled { 0u32 } else if standalone_hetb == StandaloneHeTbMode::TriggerBased { 1 } else if standalone_hetb == StandaloneHeTbMode::Standalone { 2 } else { 3 })
                &&& (read16(buf, 28) >> 2) & 0x3 == frame_ctrl_type
                &&& (read16(buf, 28) >> 4) & 0xf == frame_ctrl_subtype
                &&& read16(buf, 30) == frame_duration
                &&& read64(buf, 44) & 0xf == trigger_type
                &&& (read64(buf, 44) >> 4) & 0xfff == ul_len
                &&& (read64(buf, 44) >> 16) & 0x1 == (if more_tf { 1int } else { 0int })
                &&& (read64(buf, 44) >> 17) & 0x1 == (if cs_required { 1int } else { 0int })
                &&& (read64(buf, 44) >> 18) & 0x3 == (if ul_bw == UlBandwidth::Bw20 { 0u64 } else if ul_bw == UlBandwidth::Bw40 { 1 } else { 2 })
                &&& (read64(buf, 44) >> 20) & 0x3 == ltf_type
                &&& (read64(buf, 44) >> 22) & 0x1 == (if ltf_mode { 1int } else { 0int })
                &&& (read64(buf, 44) >> 23) & 0x7 == (if ltf_symbol == LtfSymbol::OneXHELTF { 0u64 } else { 1 })
                &&& (read64(buf, 44) >> 26) & 0x1 == (if ul_stbc { 1int } else { 0int })
                &&& (read64(buf, 44) >> 27) & 0x1 == (if ldpc_ess { 1int } else { 0int })
                &&& (read64(buf, 44) >> 28) & 0x3f == ap_tx_pwr
                &&& (read64(buf, 44) >> 34) & 0x3 == pre_fec_pad_fct
                &&& (read64(buf, 44) >> 36) & 0x1 == (if pe_disambig { 1int } else { 0int })
                &&& (read64(buf, 44) >> 37) & 0xffff == spatial_reuse
                &&& (read64(buf, 44) >> 53) & 0x1 == (if doppler { 1int } else { 0int })
                &&& (read64(buf, 44) >> 54) & 0x1ff == he_sig2
                &&& read32(buf, 52) & 0xfff == aid12
                &&& (read32(buf, 52) >> 12) & 0x1 == (if ru_alloc_reg { 1int } else { 0int })
                &&& (read32(buf, 52) >> 13) & 0x7f == ru_alloc
                &&& (read32(buf, 52) >> 20) & 0x1 == (if ul_coding_type { 1int } else { 0int })
                &&& (read32(buf, 52) >> 21) & 0xf == ul_mcs
                &&& (read32(buf, 52) >> 25) & 0x1 == (if ul_dcm { 1int } else { 0int })
                &&& (read32(buf, 52) >> 26) & 0x3f == (if ss_alloc == SpatialStreamAllocation::OneSS { 0u32 } else { 1 })
                &&& buf[56] & 0x7f == ul_target_rssi
                &&& buf[57] & 0x3 == mpdu_mu_sf
                &&& (buf[57] >> 2) & 0x7 == tid_al
                &&& (buf[57] >> 5) & 0x1 == (if ac_pl { 1int } else { 0int })
                &&& (buf[57] >> 6) & 0x3 == pref_ac
                &&& read16(buf, 28) & 0x3 == 0
                &&& read16(buf, 28) >> 8 == 0
                &&& forall|i: int| 32 <= i < 44 ==> buf[i] == 0
                &&& read64(buf, 44) >> 63 == 0
                &&& buf[56] >> 7 == 0
            }),
{
    if cmd is TriggerFrame {
        let body = crate::command::trigger_frame_body_of(cmd);
        crate::command::lemma_decode_trigger_frame_body(cmd);
        lemma_trigger_frame_fields(body);
        assert(cmd.encode(card) == Ok::<Seq<u8>, CommandError>(host_bytes(0x110Cu32, true, body)));
        let buf = host_bytes(0x110Cu32, true, body);
        let zeros = Seq::new(MAC_ADDR_LENGTH as nat, |i: int| 0u8);
        crate::command::lemma_array_of_view::<MAC_ADDR_LENGTH>(zeros);
        assert forall|i: int| 32 <= i < 44 implies buf[i] == 0 by {
            if i < 38 {
                assert(buf[i] == buf.subrange(32, 38)[i - 32]);
            } else {
                assert(buf[i] == buf.subrange(38, 44)[i - 38]);
            }
        }
        let w = read16(buf, 28);
        assert(((w >> 8) & 1 == 0 && (w >> 9) & 1 == 0 && (w >> 10) & 1 == 0 && (w >> 11) & 1 == 0
            && (w >> 12) & 1 == 0 && (w >> 13) & 1 == 0 && (w >> 14) & 1 == 0 && (w >> 15) & 1 == 0)
            ==> w >> 8 == 0) by (bit_vector);
        let c = read64(buf, 44);
        assert((c >> 63) & 1 == 0 ==> c >> 63 == 0) by (bit_vector);
        let r = buf[56];
        assert((r >> 7) & 1 == 0 ==> r >> 7 == 0) by (bit_vector);
    }
}

/// Every request starts with the same host header: command `0x0089` (the
/// manufacturing command) at byte 0, the length of the whole buffer at
/// byte 2, zero sequence number and result at bytes 4 and 6, the command
/// code at byte 8, the action at byte 12 (0 to read for `get_and_reset_per`
/// and the OTP reads, 1 to set for every other command), and zero device
/// id and error at bytes 14 and 16.
pub proof fn lemma_request_header_bytes(cmd: MfgCmdModel, card: CardType)
    requires
        cmd.wf(),
        cmd.fits_bit_fields(),
        cmd.encode(card) is Ok,
    ensures
        ({
            let buf = cmd.encode(card)->Ok_0;
            let reads = cmd is GetAndResetPer || cmd matches MfgCmdModel::OtpCalData { write: false, .. }
                || cmd matches MfgCmdModel::OtpMacAddr { write: false, .. };
            &&& buf.len() >= 20
            &&& read16(buf, 0) == 0x0089
            &&& read16(buf, 2) == buf.len()
            &&& read16(buf, 4) == 0
            &&& read16(buf, 6) == 0
            &&& read32(buf, 8) == cmd.command_number()
            &&& read16(buf, 12) == (if reads { 0int } else { 1int })
            &&& read16(buf, 14) == 0
            &&& read32(buf, 16) == 0
        }),
{
    let buf = cmd.encode(card)->Ok_0;
    crate::command::lemma_encoded_header(cmd, card);
    crate::command::lemma_encoded_len(cmd, card);
    let t = buf.take(20);
    assert forall|i: int| 0 <= i < 20 implies #[trigger] t[i] == buf[i] by {}
    let m = t.skip(8);
    assert forall|i: int| 0 <= i < 12 implies #[trigger] m[i] == buf[8 + i] by {}
}

/// A response whose header is accepted but that is shorter than the
/// request's body needs is refused with the size it needed: 32 bytes for
/// the generic commands, 48 for `tx_continuous`, 112 for `tx_frame`, 58 for
/// `trigger_frame`, 30 for `he_tb_tx`, 26 for `otp_mac_addr` and
/// `28 + CAL_DATA_LEN` for `otp_cal_data`; `rf_test_mode` reads no body.
pub proof fn lemma_short_response(req: MfgCmdModel, buf: Seq<u8>)
    requires
        buf.len() >= 20,
        read16(buf, 6) == 0,
        read32(buf, 8) == req.command_number(),
    ensures
        ({
            let needed: int = match req {
                MfgCmdModel::RfTestMode { .. } => 20,
                MfgCmdModel::TxContinuous { .. } => 48,
                MfgCmdModel::TxFrame { .. } => 112,
                MfgCmdModel::TriggerFrame { .. } => 58,
                MfgCmdModel::HeTbTx { .. } => 30,
                MfgCmdModel::OtpMacAddr { .. } => 26,
                MfgCmdModel::OtpCalData { .. } => 28 + CAL_DATA_LEN,
                _ => 32,
            };
            &&& buf.len() < needed ==> req.decode_response(buf) == Err::<MfgCmdModel, CommandError>(
                CommandError::ResponseTooShort { needed: needed as usize },
            )
            &&& req is RfTestMode ==> req.decode_response(buf) is Ok
        }),
{
    lemma_response_header_checks(req, buf);
    let t = buf.take(20);
    assert(t[6] == buf[6] && t[7] == buf[7]);
    assert(t.skip(8)[0] == buf[8] && t.skip(8)[1] == buf[9] && t.skip(8)[2] == buf[10] && t.skip(8)[3]
        == buf[11]);
}

/// The body of a response is parsed from byte 20 on.
proof fn lemma_response_body<T: WireFormat>(buf: Seq<u8>)
    requires
        buf.len() >= 20 + T::wire_len(),
    ensures
        spec_parse_body::<T>(buf) == Ok::<T, CommandError>(
            T::parse_wire(buf.subrange(20, 20 + T::wire_len() as int)),
        ),
{
    let n = 20 + T::wire_len();
    assert(buf.take(n as int).skip(8).skip(12) =~= buf.subrange(20, n as int));
}

/// Reading inside a window of `buf` reads `buf` itself.
proof fn lemma_window_reads(buf: Seq<u8>, lo: int, hi: int)
    requires
        0 <= lo <= hi <= buf.len(),
    ensures
        forall|k: int|
            0 <= k && k + 2 <= hi - lo ==> #[trigger] read16(buf.subrange(lo, hi), k) == read16(buf, lo + k),
        forall|k: int|
            0 <= k && k + 4 <= hi - lo ==> #[trigger] read32(buf.subrange(lo, hi), k) == read32(buf, lo + k),
        forall|k: int|
            0 <= k && k + 8 <= hi - lo ==> #[trigger] read64(buf.subrange(lo, hi), k) == read64(buf, lo + k),
        forall|a: int, b: int|
            0 <= a <= b <= hi - lo ==> #[trigger] buf.subrange(lo, hi).subrange(a, b) == buf.subrange(lo + a, lo + b),
{
    let w = buf.subrange(lo, hi);
    assert forall|a: int, b: int| 0 <= a <= b <= hi - lo implies #[trigger] w.subrange(a, b) == buf.subrange(lo + a, lo + b) by {
        assert(w.subrange(a, b) =~= buf.subrange(lo + a, lo + b));
    }
    assert forall|k: int| 0 <= k && k + 8 <= hi - lo implies #[trigger] read64(w, k) == read64(buf, lo + k) by {
        assert(w[k] == buf[lo + k] && w[k + 1] == buf[lo + k + 1] && w[k + 2] == buf[lo + k + 2] && w[k + 3] == buf[lo + k + 3]);
        assert(w[k + 4] == buf[lo + k + 4] && w[k + 5] == buf[lo + k + 5] && w[k + 6] == buf[lo + k + 6] && w[k + 7] == buf[lo + k + 7]);
    }
    assert forall|k: int| 0 <= k && k + 4 <= hi - lo implies #[trigger] read32(w, k) == read32(buf, lo + k) by {
        assert(w[k] == buf[lo + k] && w[k + 1] == buf[lo + k + 1] && w[k + 2] == buf[lo + k + 2] && w[k + 3] == buf[lo + k + 3]);
    }
    assert forall|k: int| 0 <= k && k + 2 <= hi - lo implies #[trigger] read16(w, k) == read16(buf, lo + k) by {
        assert(w[k] == buf[lo + k] && w[k + 1] == buf[lo + k + 1]);
    }
}

/// A successful `tx_continuous` response (at least 48 bytes) reports, from
/// byte 20 on, start or stop (any non-zero word starts), continuous wave
/// mode, payload pattern, carrier suppression, active subchannel (0 lower,
/// 1 upper, 3 both; another number makes it an error) and TX rate.
#[verifier::rlimit(60)]
pub proof fn lemma_tx_continuous_response(req: MfgCmdModel, buf: Seq<u8>)
    requires
        req is TxContinuous,
        buf.len() >= 48,
        read16(buf, 6) == 0,
        read32(buf, 8) == 0x1009,
    ensures
        ({
            let a = read32(buf, 36);
            req.decode_response(buf) == if !(a == 0 || a == 1 || a == 3) {
                Err::<MfgCmdModel, CommandError>(CommandError::InvalidValue(InvalidValue::ActiveSubchannel(a)))
            } else {
                Ok::<MfgCmdModel, CommandError>(
                    MfgCmdModel::TxContinuous {
                        enable: read32(buf, 20) != 0,
                        continuous_wave_mode: read32(buf, 24) != 0,
                        payload_pattern: read32(buf, 28),
                        cs_mode: read32(buf, 32) != 0,
                        active_subchannel: (if a == 0 { ActiveSubchannel::Lower } else if a == 1 { ActiveSubchannel::Upper } else { ActiveSubchannel::Both }),
                        tx_rate: read32(buf, 40),
                    },
                )
            }
        }),
{
    lemma_response_header_checks(req, buf);
    let t = buf.take(20);
    assert(t[6] == buf[6] && t[7] == buf[7]);
    assert(t.skip(8)[0] == buf[8] && t.skip(8)[1] == buf[9] && t.skip(8)[2] == buf[10] && t.skip(8)[3]
        == buf[11]);
    lemma_response_body::<crate::ffi::TxCont>(buf);
    lemma_window_reads(buf, 20, 48);
    }

/// A successful `he_tb_tx` response (at least 30 bytes) reports, as 16-bit
/// words from byte 20 on, enable (any non-zero word), queue number, AID,
/// AXQ0 MU timer and the TX power in two's complement.
#[verifier::rlimit(60)]
pub proof fn lemma_he_tb_tx_response(req: MfgCmdModel, buf: Seq<u8>)
    requires
        req is HeTbTx,
        buf.len() >= 30,
        read16(buf, 6) == 0,
        read32(buf, 8) == 0x110A,
    ensures
        ({
            req.decode_response(buf) == Ok::<MfgCmdModel, CommandError>(
                    MfgCmdModel::HeTbTx {
                        enable: read16(buf, 20) != 0,
                        qnum: read16(buf, 22),
                        aid: read16(buf, 24),
                        axq0_mu_timer: read16(buf, 26),
                        tx_pwr: read16(buf, 28) as i16,
                    },
                )
        }),
{
    lemma_response_header_checks(req, buf);
    let t = buf.take(20);
    assert(t[6] == buf[6] && t[7] == buf[7]);
    assert(t.skip(8)[0] == buf[8] && t.skip(8)[1] == buf[9] && t.skip(8)[2] == buf[10] && t.skip(8)[3]
        == buf[11]);
    lemma_response_body::<crate::ffi::HeTbTx>(buf);
    lemma_window_reads(buf, 20, 30);
    }

/// A successful `tx_frame` response (at least 112 bytes) reports the fields
/// at the offsets that `lemma_tx_frame_bytes` sends them at: a flag is set
/// by any non-zero word, the signed values are read in two's complement,
/// and an active subchannel other than 0, 1, 3 or then a signal bandwidth
/// other than 0, 1, 4 or all bits set makes the response an error.
#[verifier::rlimit(60)]
pub proof fn lemma_tx_frame_response(req: MfgCmdModel, buf: Seq<u8>)
    requires
        req is TxFrame,
        buf.len() >= 112,
        read16(buf, 6) == 0,
        read32(buf, 8) == 0x1021,
    ensures
        ({
            let a = read32(buf, 52);
            let w = read32(buf, 80);
            req.decode_response(buf) == if !(a == 0 || a == 1 || a == 3) {
                Err::<MfgCmdModel, CommandError>(CommandError::InvalidValue(InvalidValue::ActiveSubchannel(a)))
            } else if !(w == 0 || w == 1 || w == 4 || w == 0xffff_ffff) {
                Err::<MfgCmdModel, CommandError>(CommandError::InvalidValue(InvalidValue::SignalBandwidth(w as i32)))
            } else {
                Ok::<MfgCmdModel, CommandError>(
                    MfgCmdModel::TxFrame {
                        enable: read32(buf, 20) != 0,
                        tx_rate: read32(buf, 24),
                        payload_pattern: read32(buf, 28),
                        payload_length: read32(buf, 32),
                        adjust_burst_sifs_gap: read16(buf, 42) != 0,
                        adjust_sifs_us: read32(buf, 44),
                        short_preamble: read32(buf, 48) != 0,
                        active_subchannel: (if a == 0 { ActiveSubchannel::Lower } else if a == 1 { ActiveSubchannel::Upper } else { ActiveSubchannel::Both }),
                        short_gi: read32(buf, 56) != 0,
                        adv_coding: read32(buf, 60) != 0,
                        beamforming: read32(buf, 64) != 0,
                        greenfield_mode: read32(buf, 68) != 0,
                        stbc: read32(buf, 72) != 0,
                        signal_bw: (if w == 0 { SignalBandwidth::Bw20 } else if w == 1 { SignalBandwidth::Bw40 } else if w == 4 { SignalBandwidth::Bw80 } else { SignalBandwidth::Default }),
                        num_pkt: read32(buf, 84) as i32,
                        max_pkt_ext: read32(buf, 88) as i32,
                        beam_change: read32(buf, 92) as i32,
                        dcm: read32(buf, 96) as i32,
                        doppler: read32(buf, 100) as i32,
                        midamble_period: read32(buf, 104) as i32,
                        q_num: read32(buf, 108) as i32,
                        bssid: buf.subrange(36, 42),
                    },
                )
            }
        }),
{
    lemma_response_header_checks(req, buf);
    let t = buf.take(20);
    assert(t[6] == buf[6] && t[7] == buf[7]);
    assert(t.skip(8)[0] == buf[8] && t.skip(8)[1] == buf[9] && t.skip(8)[2] == buf[10] && t.skip(8)[3]
        == buf[11]);
    lemma_response_body::<crate::ffi::TxFrame2>(buf);
    lemma_window_reads(buf, 20, 112);
    let w = buf.subrange(20, 112);
    crate::command::lemma_array_of_view::<MAC_ADDR_LENGTH>(w.subrange(16, 22));
}

/// A successful `trigger_frame` response (at least 58 bytes) reports the
/// fields at the bytes and bits that `lemma_trigger_frame_bytes` sends them
/// at: a flag is set by a one bit, and a standalone HE TB mode above 3, then
/// a UL bandwidth above 2, then an LTF symbol above 1, then a spatial
/// stream allocation above 1 makes the response an error.
#[verifier::rlimit(60)]
pub proof fn lemma_trigger_frame_response(req: MfgCmdModel, buf: Seq<u8>)
    requires
        req is TriggerFrame,
        buf.len() >= 58,
        read16(buf, 6) == 0,
        read32(buf, 8) == 0x110C,
    ensures
        ({
            let h = read32(buf, 24);
            let ub = (read64(buf, 44) >> 18) & 0x3;
            let ls = (read64(buf, 44) >> 23) & 0x7;
            let sa = (read32(buf, 52) >> 26) & 0x3f;
            req.decode_response(buf) == if !(h == 0 || h == 1 || h == 2 || h == 3) {
                Err::<MfgCmdModel, CommandError>(CommandError::InvalidValue(InvalidValue::StandaloneHeTbMode(h)))
            } else if !(ub == 0 || ub == 1 || ub == 2) {
                Err::<MfgCmdModel, CommandError>(CommandError::InvalidValue(InvalidValue::UlBandwidth(ub)))
            } else if !(ls == 0 || ls == 1) {
                Err::<MfgCmdModel, CommandError>(CommandError::InvalidValue(InvalidValue::LtfSymbol(ls)))
            } else if !(sa == 0 || sa == 1) {
                Err::<MfgCmdModel, CommandError>(CommandError::InvalidValue(InvalidValue::SpatialStreamAllocation(sa)))
            } else {
                Ok::<MfgCmdModel, CommandError>(
                    MfgCmdModel::TriggerFrame {
                        enable: read32(buf, 20) != 0,
                        standalone_hetb: (if h == 0 { StandaloneHeTbMode::Disabled } else if h == 1 { StandaloneHeTbMode::TriggerBased } else if h == 2 { StandaloneHeTbMode::Standalone } else { StandaloneHeTbMode::SuOfdma }),
                        frame_ctrl_type: (read16(buf, 28) >> 2) & 0x3,
                        frame_ctrl_subtype: (read16(buf, 28) >> 4) & 0xf,
                        frame_duration: read16(buf, 30),
                        trigger_type: read64(buf, 44) & 0xf,
                        ul_len: (read64(buf, 44) >> 4) & 0xfff,
                        more_tf: (read64(buf, 44) >> 16) & 0x1 != 0,
                        cs_required: (read64(buf, 44) >> 17) & 0x1 != 0,
                        ul_bw: (if ub == 0 { UlBandwidth::Bw20 } else if ub == 1 { UlBandwidth::Bw40 } else { UlBandwidth::Bw80 }),
                        ltf_type: (read64(buf, 44) >> 20) & 0x3,
                        ltf_mode: (read64(buf, 44) >> 22) & 0x1 != 0,
                        ltf_symbol: (if ls == 0 { LtfSymbol::OneXHELTF } else { LtfSymbol::TwoXHELTF }),
                        ul_stbc: (read64(buf, 44) >> 26) & 0x1 != 0,
                        ldpc_ess: (read64(buf, 44) >> 27) & 0x1 != 0,
                        ap_tx_pwr: (read64(buf, 44) >> 28) & 0x3f,
                        pre_fec_pad_fct: (read64(buf, 44) >> 34) & 0x3,
                        pe_disambig: (read64(buf, 44) >> 36) & 0x1 != 0,
                        spatial_reuse: (read64(buf, 44) >> 37) & 0xffff,
                        doppler: (read64(buf, 44) >> 53) & 0x1 != 0,
                        he_sig2: (read64(buf, 44) >> 54) & 0x1ff,
                        aid12: read32(buf, 52) & 0xfff,
                        ru_alloc_reg: (read32(buf, 52) >> 12) & 0x1 != 0,
                        ru_alloc: (read32(buf, 52) >> 13) & 0x7f,
                        ul_coding_type: (read32(buf, 52) >> 20) & 0x1 != 0,
                        ul_mcs: (read32(buf, 52) >> 21) & 0xf,
                        ul_dcm: (read32(buf, 52) >> 25) & 0x1 != 0,
                        ss_alloc: (if sa == 0 { SpatialStreamAllocation::OneSS } else { SpatialStreamAllocation::TwoSS }),
                        ul_target_rssi: buf[56] & 0x7f,
                        mpdu_mu_sf: buf[57] & 0x3,
                        tid_al: (buf[57] >> 2) & 0x7,
                        ac_pl: (buf[57] >> 5) & 0x1 != 0,
                        pref_ac: (buf[57] >> 6) & 0x3,
                    },
                )
            }
        }),
{
    lemma_response_header_checks(req, buf);
    let t = buf.take(20);
    assert(t[6] == buf[6] && t[7] == buf[7]);
    assert(t.skip(8)[0] == buf[8] && t.skip(8)[1] == buf[9] && t.skip(8)[2] == buf[10] && t.skip(8)[3]
        == buf[11]);
    lemma_response_body::<crate::ffi::IeeetypesCtlBasicTrigHdr>(buf);
    lemma_window_reads(buf, 20, 58);
    let w = buf.subrange(20, 58);
    lemma_window_reads(w, 32, 37);
    assert(w.subrange(32, 37).subrange(4, 5)[0] == buf[56]);
    assert(w.subrange(37, 38)[0] == buf[57]);
}

/// A successful `otp_mac_addr` response (at least 26 bytes) reports the MAC
/// address at bytes 20 to 25; a successful `otp_cal_data` response (at
/// least `28 + CAL_DATA_LEN` bytes) reports the data from byte 28 on, as
/// many bytes as the length at byte 24 says but at most `CAL_DATA_LEN`.
/// Both keep whether the request was a write.
pub proof fn lemma_otp_responses(req: MfgCmdModel, buf: Seq<u8>)
    requires
        read16(buf, 6) == 0,
    ensures
        req matches MfgCmdModel::OtpMacAddr { write, .. } ==> (buf.len() >= 26 && read32(buf, 8)
            == 0x108C ==> req.decode_response(buf) == Ok::<MfgCmdModel, CommandError>(
            MfgCmdModel::OtpMacAddr { write, mac_addr: buf.subrange(20, 26) },
        )),
        req matches MfgCmdModel::OtpCalData { write, .. } ==> (buf.len() >= 28 + CAL_DATA_LEN && read32(
            buf,
            8,
        ) == 0x121A ==> req.decode_response(buf) == Ok::<MfgCmdModel, CommandError>(
            MfgCmdModel::OtpCalData {
                write,
                cal_data: buf.subrange(
                    28,
                    28 + if read32(buf, 24) < CAL_DATA_LEN {
                        read32(buf, 24) as int
                    } else {
                        CAL_DATA_LEN as int
                    },
                ),
            },
        )),
{
    if buf.len() >= 26 {
        lemma_response_header_checks(req, buf);
        let t = buf.take(20);
        assert(t[6] == buf[6] && t[7] == buf[7]);
        assert(t.skip(8)[0] == buf[8] && t.skip(8)[1] == buf[9] && t.skip(8)[2] == buf[10]
            && t.skip(8)[3] == buf[11]);
        if req is OtpMacAddr {
            lemma_response_body::<crate::ffi::OtpMacAddrRdWr>(buf);
            lemma_window_reads(buf, 20, 26);
            crate::command::lemma_array_of_view::<MAC_ADDR_LENGTH>(buf.subrange(20, 26).subrange(0, 6));
        }
        if req is OtpCalData && buf.len() >= 28 + CAL_DATA_LEN {
            let n = 28 + CAL_DATA_LEN;
            lemma_response_body::<crate::ffi::OtpCalDataRdWr>(buf);
            lemma_window_reads(buf, 20, n as int);
            let d = buf.subrange(20, n as int).subrange(8, 8 + CAL_DATA_LEN);
            crate::command::lemma_array_of_view::<CAL_DATA_LEN>(d);
            let len: int = if read32(buf, 24) < CAL_DATA_LEN {
                read32(buf, 24) as int
            } else {
                CAL_DATA_LEN as int
            };
            assert(d.take(len) =~= buf.subrange(28, 28 + len));
        }
    }
}

} // verus!
