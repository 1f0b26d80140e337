//! The legacy mwifiex procfs command syntax (`key=value ...`, as written to
//! `/proc/mwlan/<adapter>/config`), parsed into test mode commands.

use vstd::prelude::*;

use crate::command::{
    ActiveSubchannel, AntennaMode, ChannelBandwidth, InvalidValue, LtfSymbol, MfgCmd, MfgCmdModel,
    Modulation, RfBand, SignalBandwidth, SpatialStreamAllocation, StandaloneHeTbMode, TxPathId,
    UlBandwidth,
};
use crate::ffi::{zero_array, MAC_ADDR_LENGTH};
use crate::text::{
    all_whitespace, is_whitespace, trim_end, trim_start, lemma_trim_surrounded,
    chars_eq_str, chars_of, find, find_char, from_str_radix, lemma_find_char, parse_int, slice_chars,
    split_whitespace,
    trim, trim_bounds, views, words,
};
use crate::util::{parse_mac_chars, spec_parse_mac, MacAddrError};

verus! {

/// An integer type that a procfs argument can be read as.
pub trait ProcfsInt: Sized + Copy {
    /// The smallest value of the type.
    spec fn lo() -> int;

    /// The largest value of the type.
    spec fn hi() -> int;

    /// The value of the type that is `v`.
    spec fn spec_from_int(v: int) -> Self;

    /// The default value of the type.
    spec fn spec_default() -> Self;

    proof fn lemma_bounds()
        ensures
            -0xffff_ffff_ffff_ffff <= Self::lo() <= 0 <= Self::hi() <= 0xffff_ffff_ffff_ffff,
    ;

    fn bounds() -> (r: (i128, i128))
        ensures
            r.0 == Self::lo(),
            r.1 == Self::hi(),
    ;

    fn from_int(v: i128) -> (r: Self)
        requires
            Self::lo() <= v <= Self::hi(),
        ensures
            r == Self::spec_from_int(v as int),
    ;

    fn default_value() -> (r: Self)
        ensures
            r == Self::spec_default(),
    ;
}

impl ProcfsInt for u8 {
    open spec fn lo() -> int {
        0
    }

    open spec fn hi() -> int {
        0xff
    }

    open spec fn spec_from_int(v: int) -> Self {
        v as u8
    }

    open spec fn spec_default() -> Self {
        0
    }

    proof fn lemma_bounds() {
    }

    fn bounds() -> (r: (i128, i128)) {
        (0, 0xff)
    }

    fn from_int(v: i128) -> (r: Self) {
        v as u8
    }

    fn default_value() -> (r: Self) {
        0
    }
}

impl ProcfsInt for u16 {
    open spec fn lo() -> int {
        0
    }

    open spec fn hi() -> int {
        0xffff
    }

    open spec fn spec_from_int(v: int) -> Self {
        v as u16
    }

    open spec fn spec_default() -> Self {
        0
    }

    proof fn lemma_bounds() {
    }

    fn bounds() -> (r: (i128, i128)) {
        (0, 0xffff)
    }

    fn from_int(v: i128) -> (r: Self) {
        v as u16
    }

    fn default_value() -> (r: Self) {
        0
    }
}

impl ProcfsInt for u32 {
    open spec fn lo() -> int {
        0
    }

    open spec fn hi() -> int {
        0xffff_ffff
    }

    open spec fn spec_from_int(v: int) -> Self {
        v as u32
    }

    open spec fn spec_default() -> Self {
        0
    }

    proof fn lemma_bounds() {
    }

    fn bounds() -> (r: (i128, i128)) {
        (0, 0xffff_ffff)
    }

    fn from_int(v: i128) -> (r: Self) {
        v as u32
    }

    fn default_value() -> (r: Self) {
        0
    }
}

impl ProcfsInt for u64 {
    open spec fn lo() -> int {
        0
    }

    open spec fn hi() -> int {
        0xffff_ffff_ffff_ffff
    }

    open spec fn spec_from_int(v: int) -> Self {
        v as u64
    }

    open spec fn spec_default() -> Self {
        0
    }

    proof fn lemma_bounds() {
    }

    fn bounds() -> (r: (i128, i128)) {
        (0, 0xffff_ffff_ffff_ffff)
    }

    fn from_int(v: i128) -> (r: Self) {
        v as u64
    }

    fn default_value() -> (r: Self) {
        0
    }
}

impl ProcfsInt for i16 {
    open spec fn lo() -> int {
        -0x8000
    }

    open spec fn hi() -> int {
        0x7fff
    }

    open spec fn spec_from_int(v: int) -> Self {
        v as i16
    }

    open spec fn spec_default() -> Self {
        0
    }

    proof fn lemma_bounds() {
    }

    fn bounds() -> (r: (i128, i128)) {
        (-0x8000, 0x7fff)
    }

    fn from_int(v: i128) -> (r: Self) {
        v as i16
    }

    fn default_value() -> (r: Self) {
        0
    }
}

impl ProcfsInt for i32 {
    open spec fn lo() -> int {
        -0x8000_0000
    }

    open spec fn hi() -> int {
        0x7fff_ffff
    }

    open spec fn spec_from_int(v: int) -> Self {
        v as i32
    }

    open spec fn spec_default() -> Self {
        0
    }

    proof fn lemma_bounds() {
    }

    fn bounds() -> (r: (i128, i128)) {
        (-0x8000_0000, 0x7fff_ffff)
    }

    fn from_int(v: i128) -> (r: Self) {
        v as i32
    }

    fn default_value() -> (r: Self) {
        0
    }
}

/// Why an argument could not be read.
#[derive(Debug, Clone, Copy, PartialEq, Eq, Structural)]
pub enum ArgError {
    /// There is no argument at this position.
    Missing { position: usize },
    /// The argument at this position starts with `0x` but is no `u64` in hexadecimal.
    InvalidHex { position: usize },
    /// The argument at this position is no value of the requested type.
    InvalidValue { position: usize },
}

/// Why a procfs command was rejected.
#[derive(Debug, Clone, Copy, PartialEq, Eq, Structural)]
pub enum ProcfsError {
    /// The command has no `=` (and is not `get_and_reset_per`).
    MissingEquals,
    /// The key names no command.
    UnknownCommand,
    /// A required argument is missing or invalid.
    Argument(ArgError),
    /// An argument names no selection of its enumeration.
    InvalidValue(InvalidValue),
    /// The BSSID argument is no MAC address.
    MacAddress(MacAddrError),
}

/// The argument at `idx` read as a `T`: a `0x`/`0X` prefix introduces a `u64`
/// in hexadecimal, which must then fit `T`; anything else is read as a
/// decimal `T`.
pub open spec fn spec_arg<T: ProcfsInt>(toks: Seq<Seq<char>>, idx: nat) -> Result<T, ArgError> {
    if idx >= toks.len() {
        Err(ArgError::Missing { position: idx as usize })
    } else {
        let t = toks[idx as int];
        if t.len() >= 2 && t[0] == '0' && (t[1] == 'x' || t[1] == 'X') {
            match from_str_radix(t.skip(2), 16, 0, 0xffff_ffff_ffff_ffff) {
                None => Err(ArgError::InvalidHex { position: idx as usize }),
                Some(v) => if T::lo() <= v <= T::hi() {
                    Ok(T::spec_from_int(v))
                } else {
                    Err(ArgError::InvalidValue { position: idx as usize })
                },
            }
        } else {
            match from_str_radix(t, 10, T::lo(), T::hi()) {
                Some(v) => Ok(T::spec_from_int(v)),
                None => Err(ArgError::InvalidValue { position: idx as usize }),
            }
        }
    }
}

/// The argument at `idx`, or `default` where it is missing or invalid.
pub open spec fn spec_arg_or<T: ProcfsInt>(toks: Seq<Seq<char>>, idx: nat, default: T) -> T {
    match spec_arg::<T>(toks, idx) {
        Ok(v) => v,
        Err(_) => default,
    }
}

/// The argument at `idx`, or the type's default where it is missing or invalid.
pub open spec fn spec_arg_or_default<T: ProcfsInt>(toks: Seq<Seq<char>>, idx: nat) -> T {
    spec_arg_or(toks, idx, T::spec_default())
}

/// Get a token at a specific index, or return an error.
pub fn parse<T: ProcfsInt>(tokens: &Vec<Vec<char>>, idx: usize) -> (r: Result<T, ArgError>)
    ensures
        r == spec_arg::<T>(views(tokens@), idx as nat),
{
    if idx >= tokens.len() {
        return Err(ArgError::Missing { position: idx });
    }
    let value = &tokens[idx];
    assert(views(tokens@)[idx as int] == value@);
    proof {
        T::lemma_bounds();
    }
    let (lo, hi) = T::bounds();
    if value.len() >= 2 && value[0] == '0' && (value[1] == 'x' || value[1] == 'X') {
        let digits = slice_chars(value.as_slice(), 2, value.len());
        assert(digits@ =~= value@.skip(2));
        match parse_int(digits.as_slice(), 16, 0, 0xffff_ffff_ffff_ffff) {
            None => Err(ArgError::InvalidHex { position: idx }),
            Some(v) => {
                if lo <= v && v <= hi {
                    Ok(T::from_int(v))
                } else {
                    Err(ArgError::InvalidValue { position: idx })
                }
            },
        }
    } else {
        match parse_int(value.as_slice(), 10, lo, hi) {
            Some(v) => Ok(T::from_int(v)),
            None => Err(ArgError::InvalidValue { position: idx }),
        }
    }
}

/// The token at `idx`, or `default` where it is missing or invalid.
pub fn parse_or<T: ProcfsInt>(tokens: &Vec<Vec<char>>, idx: usize, default: T) -> (r: T)
    ensures
        r == spec_arg_or(views(tokens@), idx as nat, default),
{
    match parse(tokens, idx) {
        Ok(v) => v,
        Err(_) => default,
    }
}

/// The token at `idx`, or the type's default where it is missing or invalid.
pub fn parse_or_default<T: ProcfsInt>(tokens: &Vec<Vec<char>>, idx: usize) -> (r: T)
    ensures
        r == spec_arg_or_default::<T>(views(tokens@), idx as nat),
{
    parse_or(tokens, idx, T::default_value())
}

/// A required argument: the argument at `idx`, or the reason it cannot be read.
pub open spec fn spec_req<T: ProcfsInt>(toks: Seq<Seq<char>>, idx: nat) -> Result<T, ProcfsError> {
    match spec_arg::<T>(toks, idx) {
        Ok(v) => Ok(v),
        Err(e) => Err(ProcfsError::Argument(e)),
    }
}

/// An optional on/off argument: set where the argument reads as a non-zero `u32`.
pub open spec fn spec_flag(toks: Seq<Seq<char>>, idx: nat) -> bool {
    spec_arg_or_default::<u32>(toks, idx) != 0
}

/// A conversion into one of the command enumerations, its error reported as a
/// procfs error.
pub open spec fn spec_sel<E>(r: Result<E, InvalidValue>) -> Result<E, ProcfsError> {
    match r {
        Ok(e) => Ok(e),
        Err(e) => Err(ProcfsError::InvalidValue(e)),
    }
}

/// The BSSID argument of `tx_frame` (position 21), all zeros where it is absent.
pub open spec fn spec_bssid(toks: Seq<Seq<char>>) -> Result<Seq<u8>, ProcfsError> {
    if toks.len() > 21 {
        match spec_parse_mac(toks[21]) {
            Ok(b) => Ok(b),
            Err(e) => Err(ProcfsError::MacAddress(e)),
        }
    } else {
        Ok(Seq::new(MAC_ADDR_LENGTH as nat, |i: int| 0u8))
    }
}

/// `rf_test_mode=<enable>`
pub open spec fn spec_rf_test_mode(toks: Seq<Seq<char>>) -> Result<MfgCmdModel, ProcfsError> {
    match spec_req::<u32>(toks, 0) {
        Err(e) => Err(e),
        Ok(v) => Ok(MfgCmdModel::RfTestMode { enable: v != 0 }),
    }
}

/// `tx_antenna=<mode>` (`tx` set) or `rx_antenna=<mode>`
pub open spec fn spec_antenna(toks: Seq<Seq<char>>, tx: bool) -> Result<MfgCmdModel, ProcfsError> {
    match spec_req::<u32>(toks, 0) {
        Err(e) => Err(e),
        Ok(v) => match spec_sel(AntennaMode::spec_from_value(v)) {
            Err(e) => Err(e),
            Ok(mode) => if tx {
                Ok(MfgCmdModel::TxAntenna { mode })
            } else {
                Ok(MfgCmdModel::RxAntenna { mode })
            },
        },
    }
}

/// `radio_mode=<radio0> <radio1>`
pub open spec fn spec_radio_mode(toks: Seq<Seq<char>>) -> Result<MfgCmdModel, ProcfsError> {
    match spec_req::<u32>(toks, 0) {
        Err(e) => Err(e),
        Ok(radio0) => match spec_req::<u32>(toks, 1) {
            Err(e) => Err(e),
            Ok(radio1) => Ok(MfgCmdModel::RadioMode { radio0, radio1 }),
        },
    }
}

/// `band=<band>`
pub open spec fn spec_band(toks: Seq<Seq<char>>) -> Result<MfgCmdModel, ProcfsError> {
    match spec_req::<u32>(toks, 0) {
        Err(e) => Err(e),
        Ok(v) => match spec_sel(RfBand::spec_from_value(v)) {
            Err(e) => Err(e),
            Ok(band) => Ok(MfgCmdModel::RfBand { band }),
        },
    }
}

/// `bw=<bandwidth>`
pub open spec fn spec_bw(toks: Seq<Seq<char>>) -> Result<MfgCmdModel, ProcfsError> {
    match spec_req::<u32>(toks, 0) {
        Err(e) => Err(e),
        Ok(v) => match spec_sel(ChannelBandwidth::spec_from_value(v)) {
            Err(e) => Err(e),
            Ok(bandwidth) => Ok(MfgCmdModel::ChannelBandwidth { bandwidth }),
        },
    }
}

/// `channel=<channel>`
pub open spec fn spec_channel(toks: Seq<Seq<char>>) -> Result<MfgCmdModel, ProcfsError> {
    match spec_req::<u16>(toks, 0) {
        Err(e) => Err(e),
        Ok(channel) => Ok(MfgCmdModel::RfChannel { channel }),
    }
}

/// `tx_power=<power> <modulation> <path_id>`
pub open spec fn spec_tx_power(toks: Seq<Seq<char>>) -> Result<MfgCmdModel, ProcfsError> {
    match spec_req::<i32>(toks, 0) {
        Err(e) => Err(e),
        Ok(power_dbm) => match spec_req::<u32>(toks, 1) {
            Err(e) => Err(e),
            Ok(m) => match spec_sel(Modulation::spec_from_value(m)) {
                Err(e) => Err(e),
                Ok(modulation) => match spec_req::<u32>(toks, 2) {
                    Err(e) => Err(e),
                    Ok(p) => match spec_sel(TxPathId::spec_from_value(p)) {
                        Err(e) => Err(e),
                        Ok(path) => Ok(MfgCmdModel::TxPower { power_dbm, modulation, path }),
                    },
                },
            },
        },
    }
}

/// `tx_continuous=<start/stop> [cw_mode payload_pattern cs_mode active_subchannel tx_rate]`
pub open spec fn spec_tx_continuous(toks: Seq<Seq<char>>) -> Result<MfgCmdModel, ProcfsError> {
    match spec_req::<u32>(toks, 0) {
        Err(e) => Err(e),
        Ok(en) => match spec_sel(
            ActiveSubchannel::spec_from_value(spec_arg_or_default::<u32>(toks, 4)),
        ) {
            Err(e) => Err(e),
            Ok(active_subchannel) => Ok(
                MfgCmdModel::TxContinuous {
                    enable: en != 0,
                    continuous_wave_mode: spec_flag(toks, 1),
                    payload_pattern: spec_arg_or_default::<u32>(toks, 2),
                    cs_mode: spec_flag(toks, 3),
                    active_subchannel,
                    tx_rate: spec_arg_or_default::<u32>(toks, 5),
                },
            ),
        },
    }
}

/// `tx_frame=<start/stop> [tx_rate payload_pattern payload_length ... bssid]`
pub open spec fn spec_tx_frame(toks: Seq<Seq<char>>) -> Result<MfgCmdModel, ProcfsError> {
    match spec_req::<u32>(toks, 0) {
        Err(e) => Err(e),
        Ok(en) => match spec_sel(
            ActiveSubchannel::spec_from_value(spec_arg_or_default::<u32>(toks, 7)),
        ) {
            Err(e) => Err(e),
            Ok(active_subchannel) => match spec_sel(
                SignalBandwidth::spec_from_value(spec_arg_or::<u32>(toks, 13, 0xFFFF_FFFFu32)),
            ) {
                Err(e) => Err(e),
                Ok(signal_bw) => match spec_bssid(toks) {
                    Err(e) => Err(e),
                    Ok(bssid) => Ok(
                        MfgCmdModel::TxFrame {
                            enable: en != 0,
                            tx_rate: spec_arg_or_default::<u32>(toks, 1),
                            payload_pattern: spec_arg_or_default::<u32>(toks, 2),
                            payload_length: spec_arg_or_default::<u32>(toks, 3),
                            adjust_burst_sifs_gap: spec_flag(toks, 4),
                            adjust_sifs_us: spec_arg_or_default::<u32>(toks, 5),
                            short_preamble: spec_flag(toks, 6),
                            active_subchannel,
                            short_gi: spec_flag(toks, 8),
                            adv_coding: spec_flag(toks, 9),
                            beamforming: spec_flag(toks, 10),
                            greenfield_mode: spec_flag(toks, 11),
                            stbc: spec_flag(toks, 12),
                            signal_bw,
                            num_pkt: spec_arg_or::<i32>(toks, 14, -1i32),
                            max_pkt_ext: spec_arg_or::<i32>(toks, 15, -1i32),
                            beam_change: spec_arg_or::<i32>(toks, 16, -1i32),
                            dcm: spec_arg_or::<i32>(toks, 17, -1i32),
                            doppler: spec_arg_or::<i32>(toks, 18, -1i32),
                            midamble_period: spec_arg_or::<i32>(toks, 19, -1i32),
                            q_num: spec_arg_or::<i32>(toks, 20, -1i32),
                            bssid,
                        },
                    ),
                },
            },
        },
    }
}

/// The trigger frame that `trigger_frame=` describes, once its enumerated
/// arguments have been read.
pub open spec fn spec_trigger_fields(
    toks: Seq<Seq<char>>,
    en: u32,
    standalone_hetb: StandaloneHeTbMode,
    ul_bw: UlBandwidth,
    ltf_symbol: LtfSymbol,
    ss_alloc: SpatialStreamAllocation,
) -> MfgCmdModel {
    MfgCmdModel::TriggerFrame {
        enable: en != 0,
        standalone_hetb,
        frame_ctrl_type: spec_arg_or_default::<u16>(toks, 2),
        frame_ctrl_subtype: spec_arg_or_default::<u16>(toks, 3),
        frame_duration: spec_arg_or_default::<u16>(toks, 4),
        trigger_type: spec_arg_or_default::<u64>(toks, 5),
        ul_len: spec_arg_or_default::<u64>(toks, 6),
        more_tf: spec_flag(toks, 7),
        cs_required: spec_flag(toks, 8),
        ul_bw,
        ltf_type: spec_arg_or_default::<u64>(toks, 10),
        ltf_mode: spec_flag(toks, 11),
        ltf_symbol,
        ul_stbc: spec_flag(toks, 13),
        ldpc_ess: spec_flag(toks, 14),
        ap_tx_pwr: spec_arg_or_default::<u64>(toks, 15),
        pre_fec_pad_fct: spec_arg_or_default::<u64>(toks, 16),
        pe_disambig: spec_flag(toks, 17),
        spatial_reuse: spec_arg_or_default::<u64>(toks, 18),
        doppler: spec_flag(toks, 19),
        he_sig2: spec_arg_or_default::<u64>(toks, 20),
        aid12: spec_arg_or_default::<u32>(toks, 21),
        ru_alloc_reg: spec_flag(toks, 22),
        ru_alloc: spec_arg_or_default::<u32>(toks, 23),
        ul_coding_type: spec_flag(toks, 24),
        ul_mcs: spec_arg_or_default::<u32>(toks, 25),
        ul_dcm: spec_flag(toks, 26),
        ss_alloc,
        ul_target_rssi: spec_arg_or_default::<u8>(toks, 28),
        mpdu_mu_sf: spec_arg_or_default::<u8>(toks, 29),
        tid_al: spec_arg_or_default::<u8>(toks, 30),
        ac_pl: spec_flag(toks, 31),
        pref_ac: spec_arg_or_default::<u8>(toks, 32),
    }
}

/// `trigger_frame=<enable_TX> [standalone_hetb frame_ctrl_type ... pref_ac]`
pub open spec fn spec_trigger_frame(toks: Seq<Seq<char>>) -> Result<MfgCmdModel, ProcfsError> {
    match spec_req::<u32>(toks, 0) {
        Err(e) => Err(e),
        Ok(en) => match spec_sel(
            StandaloneHeTbMode::spec_from_value(spec_arg_or_default::<u32>(toks, 1)),
        ) {
            Err(e) => Err(e),
            Ok(sh) => match spec_sel(
                UlBandwidth::spec_from_value(spec_arg_or_default::<u64>(toks, 9)),
            ) {
                Err(e) => Err(e),
                Ok(ub) => match spec_sel(
                    LtfSymbol::spec_from_value(spec_arg_or_default::<u64>(toks, 12)),
                ) {
                    Err(e) => Err(e),
                    Ok(ls) => match spec_sel(
                        SpatialStreamAllocation::spec_from_value(
                            spec_arg_or_default::<u32>(toks, 27),
                        ),
                    ) {
                        Err(e) => Err(e),
                        Ok(sa) => Ok(spec_trigger_fields(toks, en, sh, ub, ls, sa)),
                    },
                },
            },
        },
    }
}

/// `he_tb_tx=<enable> [qnum aid axq0_mu_timer tx_pwr]`
pub open spec fn spec_he_tb_tx(toks: Seq<Seq<char>>) -> Result<MfgCmdModel, ProcfsError> {
    match spec_req::<u32>(toks, 0) {
        Err(e) => Err(e),
        Ok(en) => Ok(
            MfgCmdModel::HeTbTx {
                enable: en != 0,
                qnum: spec_arg_or_default::<u16>(toks, 1),
                aid: spec_arg_or_default::<u16>(toks, 2),
                axq0_mu_timer: spec_arg_or_default::<u16>(toks, 3),
                tx_pwr: spec_arg_or_default::<i16>(toks, 4),
            },
        ),
    }
}

/// The command that `key=<toks>` names.
pub open spec fn spec_command(key: Seq<char>, toks: Seq<Seq<char>>) -> Result<
    MfgCmdModel,
    ProcfsError,
> {
    if key == "rf_test_mode"@ {
        spec_rf_test_mode(toks)
    } else if key == "tx_antenna"@ {
        spec_antenna(toks, true)
    } else if key == "rx_antenna"@ {
        spec_antenna(toks, false)
    } else if key == "radio_mode"@ {
        spec_radio_mode(toks)
    } else if key == "band"@ {
        spec_band(toks)
    } else if key == "bw"@ {
        spec_bw(toks)
    } else if key == "channel"@ {
        spec_channel(toks)
    } else if key == "tx_power"@ {
        spec_tx_power(toks)
    } else if key == "tx_continuous"@ {
        spec_tx_continuous(toks)
    } else if key == "tx_frame"@ {
        spec_tx_frame(toks)
    } else if key == "trigger_frame"@ {
        spec_trigger_frame(toks)
    } else if key == "he_tb_tx"@ {
        spec_he_tb_tx(toks)
    } else {
        Err(ProcfsError::UnknownCommand)
    }
}

/// The command that a procfs line spells: surrounding whitespace is ignored;
/// `get_and_reset_per` stands alone; every other command is `key=arguments`,
/// split at the first `=`, with whitespace around the key ignored and the
/// arguments separated by whitespace.
pub open spec fn spec_parse_procfs(input: Seq<char>) -> Result<MfgCmdModel, ProcfsError> {
    let s = trim(input);
    if s == "get_and_reset_per"@ {
        Ok(
            MfgCmdModel::GetAndResetPer {
                rx_total_packet_count: 0,
                rx_multi_broadcast_packet_count: 0,
                rx_frame_check_sequence_errors: 0,
            },
        )
    } else {
        match find_char(s, '=') {
            None => Err(ProcfsError::MissingEquals),
            Some(i) => spec_command(trim(s.take(i as int)), split_whitespace(s.skip(i + 1 as int))),
        }
    }
}

/// The model of a parse result.
pub open spec fn procfs_result(r: Result<MfgCmd, ProcfsError>) -> Result<MfgCmdModel, ProcfsError> {
    match r {
        Ok(c) => Ok(c@),
        Err(e) => Err(e),
    }
}

/// A required argument.
fn required<T: ProcfsInt>(toks: &Vec<Vec<char>>, idx: usize) -> (r: Result<T, ProcfsError>)
    ensures
        r == spec_req::<T>(views(toks@), idx as nat),
{
    match parse(toks, idx) {
        Ok(v) => Ok(v),
        Err(e) => Err(ProcfsError::Argument(e)),
    }
}

/// An optional on/off argument.
fn flag(toks: &Vec<Vec<char>>, idx: usize) -> (r: bool)
    ensures
        r == spec_flag(views(toks@), idx as nat),
{
    parse_or_default::<u32>(toks, idx) != 0
}

fn parse_rf_test_mode(toks: &Vec<Vec<char>>) -> (r: Result<MfgCmd, ProcfsError>)
    ensures
        procfs_result(r) == spec_rf_test_mode(views(toks@)),
{
    let v = required::<u32>(toks, 0)?;
    Ok(MfgCmd::RfTestMode { enable: v != 0 })
}

fn parse_antenna(toks: &Vec<Vec<char>>, tx: bool) -> (r: Result<MfgCmd, ProcfsError>)
    ensures
        procfs_result(r) == spec_antenna(views(toks@), tx),
{
    let v = required::<u32>(toks, 0)?;
    let mode = match AntennaMode::try_from(v) {
        Ok(m) => m,
        Err(e) => return Err(ProcfsError::InvalidValue(e)),
    };
    if tx {
        Ok(MfgCmd::TxAntenna { mode })
    } else {
        Ok(MfgCmd::RxAntenna { mode })
    }
}

fn parse_radio_mode(toks: &Vec<Vec<char>>) -> (r: Result<MfgCmd, ProcfsError>)
    ensures
        procfs_result(r) == spec_radio_mode(views(toks@)),
{
    let radio0 = required::<u32>(toks, 0)?;
    let radio1 = required::<u32>(toks, 1)?;
    Ok(MfgCmd::RadioMode { radio0, radio1 })
}

fn parse_band(toks: &Vec<Vec<char>>) -> (r: Result<MfgCmd, ProcfsError>)
    ensures
        procfs_result(r) == spec_band(views(toks@)),
{
    let v = required::<u32>(toks, 0)?;
    match RfBand::try_from(v) {
        Ok(band) => Ok(MfgCmd::RfBand { band }),
        Err(e) => Err(ProcfsError::InvalidValue(e)),
    }
}

fn parse_bw(toks: &Vec<Vec<char>>) -> (r: Result<MfgCmd, ProcfsError>)
    ensures
        procfs_result(r) == spec_bw(views(toks@)),
{
    let v = required::<u32>(toks, 0)?;
    match ChannelBandwidth::try_from(v) {
        Ok(bandwidth) => Ok(MfgCmd::ChannelBandwidth { bandwidth }),
        Err(e) => Err(ProcfsError::InvalidValue(e)),
    }
}

fn parse_channel(toks: &Vec<Vec<char>>) -> (r: Result<MfgCmd, ProcfsError>)
    ensures
        procfs_result(r) == spec_channel(views(toks@)),
{
    let channel = required::<u16>(toks, 0)?;
    Ok(MfgCmd::RfChannel { channel })
}

fn parse_tx_power(toks: &Vec<Vec<char>>) -> (r: Result<MfgCmd, ProcfsError>)
    ensures
        procfs_result(r) == spec_tx_power(views(toks@)),
{
    let power_dbm = required::<i32>(toks, 0)?;
    let m = required::<u32>(toks, 1)?;
    let modulation = match Modulation::try_from(m) {
        Ok(x) => x,
        Err(e) => return Err(ProcfsError::InvalidValue(e)),
    };
    let p = required::<u32>(toks, 2)?;
    let path = match TxPathId::try_from(p) {
        Ok(x) => x,
        Err(e) => return Err(ProcfsError::InvalidValue(e)),
    };
    Ok(MfgCmd::TxPower { power_dbm, modulation, path })
}

fn parse_tx_continuous(toks: &Vec<Vec<char>>) -> (r: Result<MfgCmd, ProcfsError>)
    ensures
        procfs_result(r) == spec_tx_continuous(views(toks@)),
{
    let en = required::<u32>(toks, 0)?;
    let active_subchannel = match ActiveSubchannel::try_from(parse_or_default::<u32>(toks, 4)) {
        Ok(x) => x,
        Err(e) => return Err(ProcfsError::InvalidValue(e)),
    };
    Ok(
        MfgCmd::TxContinuous {
            enable: en != 0,
            continuous_wave_mode: flag(toks, 1),
            payload_pattern: parse_or_default::<u32>(toks, 2),
            cs_mode: flag(toks, 3),
            active_subchannel,
            tx_rate: parse_or_default::<u32>(toks, 5),
        },
    )
}

fn parse_he_tb_tx(toks: &Vec<Vec<char>>) -> (r: Result<MfgCmd, ProcfsError>)
    ensures
        procfs_result(r) == spec_he_tb_tx(views(toks@)),
{
    let en = required::<u32>(toks, 0)?;
    Ok(
        MfgCmd::HeTbTx {
            enable: en != 0,
            qnum: parse_or_default::<u16>(toks, 1),
            aid: parse_or_default::<u16>(toks, 2),
            axq0_mu_timer: parse_or_default::<u16>(toks, 3),
            tx_pwr: parse_or_default::<i16>(toks, 4),
        },
    )
}

fn parse_bssid(toks: &Vec<Vec<char>>) -> (r: Result<[u8; MAC_ADDR_LENGTH], ProcfsError>)
    ensures
        match (r, spec_bssid(views(toks@))) {
            (Ok(a), Ok(b)) => a@ == b,
            (Err(e), Err(f)) => e == f,
            _ => false,
        },
{
    if toks.len() > 21 {
        assert(views(toks@)[21] == toks@[21]@);
        match parse_mac_chars(toks[21].as_slice()) {
            Ok(m) => Ok(m),
            Err(e) => Err(ProcfsError::MacAddress(e)),
        }
    } else {
        Ok(zero_array::<MAC_ADDR_LENGTH>())
    }
}

#[verifier::rlimit(30)]
fn parse_tx_frame(toks: &Vec<Vec<char>>) -> (r: Result<MfgCmd, ProcfsError>)
    ensures
        procfs_result(r) == spec_tx_frame(views(toks@)),
{
    let en = required::<u32>(toks, 0)?;
    let active_subchannel = match ActiveSubchannel::try_from(parse_or_default::<u32>(toks, 7)) {
        Ok(x) => x,
        Err(e) => return Err(ProcfsError::InvalidValue(e)),
    };
    let signal_bw = match SignalBandwidth::try_from(parse_or::<u32>(toks, 13, 0xFFFF_FFFF)) {
        Ok(x) => x,
        Err(e) => return Err(ProcfsError::InvalidValue(e)),
    };
    let bssid = parse_bssid(toks)?;
    Ok(
        MfgCmd::TxFrame {
            enable: en != 0,
            tx_rate: parse_or_default::<u32>(toks, 1),
            payload_pattern: parse_or_default::<u32>(toks, 2),
            payload_length: parse_or_default::<u32>(toks, 3),
            adjust_burst_sifs_gap: flag(toks, 4),
            adjust_sifs_us: parse_or_default::<u32>(toks, 5),
            short_preamble: flag(toks, 6),
            active_subchannel,
            short_gi: flag(toks, 8),
            adv_coding: flag(toks, 9),
            beamforming: flag(toks, 10),
            greenfield_mode: flag(toks, 11),
            stbc: flag(toks, 12),
            signal_bw,
            num_pkt: parse_or::<i32>(toks, 14, -1),
            max_pkt_ext: parse_or::<i32>(toks, 15, -1),
            beam_change: parse_or::<i32>(toks, 16, -1),
            dcm: parse_or::<i32>(toks, 17, -1),
            doppler: parse_or::<i32>(toks, 18, -1),
            midamble_period: parse_or::<i32>(toks, 19, -1),
            q_num: parse_or::<i32>(toks, 20, -1),
            bssid,
        },
    )
}

#[verifier::rlimit(30)]
fn parse_trigger_frame(toks: &Vec<Vec<char>>) -> (r: Result<MfgCmd, ProcfsError>)
    ensures
        procfs_result(r) == spec_trigger_frame(views(toks@)),
{
    let en = required::<u32>(toks, 0)?;
    let standalone_hetb = match StandaloneHeTbMode::try_from(parse_or_default::<u32>(toks, 1)) {
        Ok(x) => x,
        Err(e) => return Err(ProcfsError::InvalidValue(e)),
    };
    let ul_bw = match UlBandwidth::try_from(parse_or_default::<u64>(toks, 9)) {
        Ok(x) => x,
        Err(e) => return Err(ProcfsError::InvalidValue(e)),
    };
    let ltf_symbol = match LtfSymbol::try_from(parse_or_default::<u64>(toks, 12)) {
        Ok(x) => x,
        Err(e) => return Err(ProcfsError::InvalidValue(e)),
    };
    let ss_alloc = match SpatialStreamAllocation::try_from(parse_or_default::<u32>(toks, 27)) {
        Ok(x) => x,
        Err(e) => return Err(ProcfsError::InvalidValue(e)),
    };
    Ok(
        MfgCmd::TriggerFrame {
            enable: en != 0,
            standalone_hetb,
            frame_ctrl_type: parse_or_default::<u16>(toks, 2),
            frame_ctrl_subtype: parse_or_default::<u16>(toks, 3),
            frame_duration: parse_or_default::<u16>(toks, 4),
            trigger_type: parse_or_default::<u64>(toks, 5),
            ul_len: parse_or_default::<u64>(toks, 6),
            more_tf: flag(toks, 7),
            cs_required: flag(toks, 8),
            ul_bw,
            ltf_type: parse_or_default::<u64>(toks, 10),
            ltf_mode: flag(toks, 11),
            ltf_symbol,
            ul_stbc: flag(toks, 13),
            ldpc_ess: flag(toks, 14),
            ap_tx_pwr: parse_or_default::<u64>(toks, 15),
            pre_fec_pad_fct: parse_or_default::<u64>(toks, 16),
            pe_disambig: flag(toks, 17),
            spatial_reuse: parse_or_default::<u64>(toks, 18),
            doppler: flag(toks, 19),
            he_sig2: parse_or_default::<u64>(toks, 20),
            aid12: parse_or_default::<u32>(toks, 21),
            ru_alloc_reg: flag(toks, 22),
            ru_alloc: parse_or_default::<u32>(toks, 23),
            ul_coding_type: flag(toks, 24),
            ul_mcs: parse_or_default::<u32>(toks, 25),
            ul_dcm: flag(toks, 26),
            ss_alloc,
            ul_target_rssi: parse_or_default::<u8>(toks, 28),
            mpdu_mu_sf: parse_or_default::<u8>(toks, 29),
            tid_al: parse_or_default::<u8>(toks, 30),
            ac_pl: flag(toks, 31),
            pref_ac: parse_or_default::<u8>(toks, 32),
        },
    )
}

/// Parse a legacy procfs command string into a [`MfgCmd`].
pub fn parse_procfs_command(input: &str) -> (r: Result<MfgCmd, ProcfsError>)
    ensures
        procfs_result(r) == spec_parse_procfs(input@),
{
    let chars = chars_of(input);
    let (a, b) = trim_bounds(chars.as_slice());
    let line = slice_chars(chars.as_slice(), a, b);
    assert(line@ == trim(input@));
    if chars_eq_str(line.as_slice(), "get_and_reset_per") {
        return Ok(
            MfgCmd::GetAndResetPer {
                rx_total_packet_count: 0,
                rx_multi_broadcast_packet_count: 0,
                rx_frame_check_sequence_errors: 0,
            },
        );
    }
    let eq = match find(line.as_slice(), '=') {
        None => return Err(ProcfsError::MissingEquals),
        Some(i) => i,
    };
    proof {
        lemma_find_char(line@, '=');
    }
    let raw_key = slice_chars(line.as_slice(), 0, eq);
    let (ka, kb) = trim_bounds(raw_key.as_slice());
    let key = slice_chars(raw_key.as_slice(), ka, kb);
    let rest = slice_chars(line.as_slice(), eq + 1, line.len());
    let toks = words(rest.as_slice());
    assert(raw_key@ =~= line@.take(eq as int));
    assert(rest@ =~= line@.skip(eq + 1 as int));
    let k = key.as_slice();
    if chars_eq_str(k, "rf_test_mode") {
        parse_rf_test_mode(&toks)
    } else if chars_eq_str(k, "tx_antenna") {
        parse_antenna(&toks, true)
    } else if chars_eq_str(k, "rx_antenna") {
        parse_antenna(&toks, false)
    } else if chars_eq_str(k, "radio_mode") {
        parse_radio_mode(&toks)
    } else if chars_eq_str(k, "band") {
        parse_band(&toks)
    } else if chars_eq_str(k, "bw") {
        parse_bw(&toks)
    } else if chars_eq_str(k, "channel") {
        parse_channel(&toks)
    } else if chars_eq_str(k, "tx_power") {
        parse_tx_power(&toks)
    } else if chars_eq_str(k, "tx_continuous") {
        parse_tx_continuous(&toks)
    } else if chars_eq_str(k, "tx_frame") {
        parse_tx_frame(&toks)
    } else if chars_eq_str(k, "trigger_frame") {
        parse_trigger_frame(&toks)
    } else if chars_eq_str(k, "he_tb_tx") {
        parse_he_tb_tx(&toks)
    } else {
        Err(ProcfsError::UnknownCommand)
    }
}

/// Whitespace around a procfs command does not change what it means.
pub proof fn lemma_parse_ignores_surrounding_whitespace(
    pre: Seq<char>,
    input: Seq<char>,
    post: Seq<char>,
)
    requires
        all_whitespace(pre),
        all_whitespace(post),
    ensures
        spec_parse_procfs(pre + input + post) == spec_parse_procfs(input),
{
    lemma_trim_surrounded(pre, input, post);
}


/// An optional argument that is missing or cannot be read takes its
/// default; one that can be read is used.
pub proof fn lemma_optional_arg<T: ProcfsInt>(toks: Seq<Seq<char>>, idx: nat, default: T)
    ensures
        spec_arg::<T>(toks, idx) is Err ==> spec_arg_or(toks, idx, default) == default,
        spec_arg::<T>(toks, idx) matches Ok(v) ==> spec_arg_or(toks, idx, default) == v,
        idx >= toks.len() ==> spec_arg::<T>(toks, idx) == Err::<T, ArgError>(
            ArgError::Missing { position: idx as usize },
        ),
{
}

/// A procfs line is refused exactly when it is not `get_and_reset_per` and
/// either has no `=` or names a command whose arguments are refused; a key
/// that names no command is refused as unknown.
pub proof fn lemma_procfs_errors(input: Seq<char>)
    ensures
        ({
            let s = trim(input);
            spec_parse_procfs(input) is Err <==> s != "get_and_reset_per"@ && match find_char(
                s,
                '=',
            ) {
                None => true,
                Some(i) => spec_command(trim(s.take(i as int)), split_whitespace(s.skip(i + 1 as int)))
                    is Err,
            }
        }),
        ({
            let s = trim(input);
            s != "get_and_reset_per"@ && find_char(s, '=') is None ==> spec_parse_procfs(input)
                == Err::<MfgCmdModel, ProcfsError>(ProcfsError::MissingEquals)
        }),
{
}

/// A key that names none of the commands makes the line unknown, whatever
/// its arguments.
pub proof fn lemma_unknown_key(key: Seq<char>, toks: Seq<Seq<char>>)
    requires
        key != "rf_test_mode"@,
        key != "tx_antenna"@,
        key != "rx_antenna"@,
        key != "radio_mode"@,
        key != "band"@,
        key != "bw"@,
        key != "channel"@,
        key != "tx_power"@,
        key != "tx_continuous"@,
        key != "tx_frame"@,
        key != "trigger_frame"@,
        key != "he_tb_tx"@,
    ensures
        spec_command(key, toks) == Err::<MfgCmdModel, ProcfsError>(ProcfsError::UnknownCommand),
{
}

/// Each command key selects its own command.
proof fn lemma_command_keys(toks: Seq<Seq<char>>)
    ensures
        spec_command("rf_test_mode"@, toks) == spec_rf_test_mode(toks),
        spec_command("tx_antenna"@, toks) == spec_antenna(toks, true),
        spec_command("rx_antenna"@, toks) == spec_antenna(toks, false),
        spec_command("radio_mode"@, toks) == spec_radio_mode(toks),
        spec_command("band"@, toks) == spec_band(toks),
        spec_command("bw"@, toks) == spec_bw(toks),
        spec_command("channel"@, toks) == spec_channel(toks),
        spec_command("tx_power"@, toks) == spec_tx_power(toks),
        spec_command("tx_continuous"@, toks) == spec_tx_continuous(toks),
        spec_command("tx_frame"@, toks) == spec_tx_frame(toks),
        spec_command("trigger_frame"@, toks) == spec_trigger_frame(toks),
        spec_command("he_tb_tx"@, toks) == spec_he_tb_tx(toks),
{
    reveal_strlit("rf_test_mode");
    reveal_strlit("tx_antenna");
    reveal_strlit("rx_antenna");
    reveal_strlit("radio_mode");
    reveal_strlit("band");
    reveal_strlit("bw");
    reveal_strlit("channel");
    reveal_strlit("tx_power");
    reveal_strlit("tx_continuous");
    reveal_strlit("tx_frame");
    reveal_strlit("trigger_frame");
    reveal_strlit("he_tb_tx");
    assert("tx_antenna"@.len() != "rf_test_mode"@.len());
    assert("rx_antenna"@.len() != "rf_test_mode"@.len());
    assert("rx_antenna"@[0] != "tx_antenna"@[0]);
    assert("radio_mode"@.len() != "rf_test_mode"@.len());
    assert("radio_mode"@[0] != "tx_antenna"@[0]);
    assert("radio_mode"@[1] != "rx_antenna"@[1]);
    assert("band"@.len() != "rf_test_mode"@.len());
    assert("band"@.len() != "tx_antenna"@.len());
    assert("band"@.len() != "rx_antenna"@.len());
    assert("band"@.len() != "radio_mode"@.len());
    assert("bw"@.len() != "rf_test_mode"@.len());
    assert("bw"@.len() != "tx_antenna"@.len());
    assert("bw"@.len() != "rx_antenna"@.len());
    assert("bw"@.len() != "radio_mode"@.len());
    assert("bw"@.len() != "band"@.len());
    assert("channel"@.len() != "rf_test_mode"@.len());
    assert("channel"@.len() != "tx_antenna"@.len());
    assert("channel"@.len() != "rx_antenna"@.len());
    assert("channel"@.len() != "radio_mode"@.len());
    assert("channel"@.len() != "band"@.len());
    assert("channel"@.len() != "bw"@.len());
    assert("tx_power"@.len() != "rf_test_mode"@.len());
    assert("tx_power"@.len() != "tx_antenna"@.len());
    assert("tx_power"@.len() != "rx_antenna"@.len());
    assert("tx_power"@.len() != "radio_mode"@.len());
    assert("tx_power"@.len() != "band"@.len());
    assert("tx_power"@.len() != "bw"@.len());
    assert("tx_power"@.len() != "channel"@.len());
    assert("tx_continuous"@.len() != "rf_test_mode"@.len());
    assert("tx_continuous"@.len() != "tx_antenna"@.len());
    assert("tx_continuous"@.len() != "rx_antenna"@.len());
    assert("tx_continuous"@.len() != "radio_mode"@.len());
    assert("tx_continuous"@.len() != "band"@.len());
    assert("tx_continuous"@.len() != "bw"@.len());
    assert("tx_continuous"@.len() != "channel"@.len());
    assert("tx_continuous"@.len() != "tx_power"@.len());
    assert("tx_frame"@.len() != "rf_test_mode"@.len());
    assert("tx_frame"@.len() != "tx_antenna"@.len());
    assert("tx_frame"@.len() != "rx_antenna"@.len());
    assert("tx_frame"@.len() != "radio_mode"@.len());
    assert("tx_frame"@.len() != "band"@.len());
    assert("tx_frame"@.len() != "bw"@.len());
    assert("tx_frame"@.len() != "channel"@.len());
    assert("tx_frame"@[3] != "tx_power"@[3]);
    assert("tx_frame"@.len() != "tx_continuous"@.len());
    assert("trigger_frame"@.len() != "rf_test_mode"@.len());
    assert("trigger_frame"@.len() != "tx_antenna"@.len());
    assert("trigger_frame"@.len() != "rx_antenna"@.len());
    assert("trigger_frame"@.len() != "radio_mode"@.len());
    assert("trigger_frame"@.len() != "band"@.len());
    assert("trigger_frame"@.len() != "bw"@.len());
    assert("trigger_frame"@.len() != "channel"@.len());
    assert("trigger_frame"@.len() != "tx_power"@.len());
    assert("trigger_frame"@[1] != "tx_continuous"@[1]);
    assert("trigger_frame"@.len() != "tx_frame"@.len());
    assert("he_tb_tx"@.len() != "rf_test_mode"@.len());
    assert("he_tb_tx"@.len() != "tx_antenna"@.len());
    assert("he_tb_tx"@.len() != "rx_antenna"@.len());
    assert("he_tb_tx"@.len() != "radio_mode"@.len());
    assert("he_tb_tx"@.len() != "band"@.len());
    assert("he_tb_tx"@.len() != "bw"@.len());
    assert("he_tb_tx"@.len() != "channel"@.len());
    assert("he_tb_tx"@[0] != "tx_power"@[0]);
    assert("he_tb_tx"@.len() != "tx_continuous"@.len());
    assert("he_tb_tx"@[0] != "tx_frame"@[0]);
    assert("he_tb_tx"@.len() != "trigger_frame"@.len());
}

/// `trigger_frame=` takes its arguments in the AN14114 order, each setting
/// one field: 0 enable, 1 standalone HE TB mode (0 disabled, 1
/// trigger-based, 2 standalone, 3 SU-OFDMA), 2 frame control type, 3
/// subtype, 4 duration, 5 trigger type, 6 UL length, 7 more TF, 8 CS
/// required, 9 UL bandwidth (0, 1, 2 for 20, 40, 80 MHz), 10 LTF type, 11
/// LTF mode, 12 LTF symbol (0 1x, 1 2x), 13 UL STBC, 14 LDPC extra symbol,
/// 15 AP TX power, 16 pre-FEC padding factor, 17 PE disambiguity, 18
/// spatial reuse, 19 doppler, 20 HE-SIG-A2, 21 AID12, 22 RU allocation
/// region, 23 RU allocation, 24 UL coding type, 25 UL MCS, 26 UL DCM, 27
/// spatial streams (0 one, 1 two), 28 UL target RSSI, 29 MPDU MU spacing
/// factor, 30 TID aggregation limit, 31 preferred AC policy, 32 preferred
/// AC. The first is required; any other that is missing or unreadable
/// counts as 0, and a flag is set by any non-zero number.
#[verifier::rlimit(60)]
pub proof fn lemma_trigger_frame_arguments(toks: Seq<Seq<char>>)
    ensures
        ({
            let a1 = spec_arg_or::<u32>(toks, 1, 0);
            let a9 = spec_arg_or::<u64>(toks, 9, 0);
            let a12 = spec_arg_or::<u64>(toks, 12, 0);
            let a27 = spec_arg_or::<u32>(toks, 27, 0);
            &&& spec_command("trigger_frame"@, toks) is Ok <==> spec_arg::<u32>(toks, 0) is Ok && a1 <= 3 && a9 <= 2 && a12 <= 1 && a27 <= 1
            &&& spec_arg::<u32>(toks, 0) is Ok && a1 <= 3 && a9 <= 2 && a12 <= 1 && a27 <= 1 ==> spec_command("trigger_frame"@, toks) == Ok::<MfgCmdModel, ProcfsError>(
                    MfgCmdModel::TriggerFrame {
                        enable: spec_arg::<u32>(toks, 0)->Ok_0 != 0,
                        standalone_hetb: (if a1 == 0 { StandaloneHeTbMode::Disabled } else if a1 == 1 { StandaloneHeTbMode::TriggerBased } else if a1 == 2 { StandaloneHeTbMode::Standalone } else { StandaloneHeTbMode::SuOfdma }),
                        frame_ctrl_type: spec_arg_or::<u16>(toks, 2, 0),
                        frame_ctrl_subtype: spec_arg_or::<u16>(toks, 3, 0),
                        frame_duration: spec_arg_or::<u16>(toks, 4, 0),
                        trigger_type: spec_arg_or::<u64>(toks, 5, 0),
                        ul_len: spec_arg_or::<u64>(toks, 6, 0),
                        more_tf: spec_arg_or::<u32>(toks, 7, 0) != 0,
                        cs_required: spec_arg_or::<u32>(toks, 8, 0) != 0,
                        ul_bw: (if a9 == 0 { UlBandwidth::Bw20 } else if a9 == 1 { UlBandwidth::Bw40 } else { UlBandwidth::Bw80 }),
                        ltf_type: spec_arg_or::<u64>(toks, 10, 0),
                        ltf_mode: spec_arg_or::<u32>(toks, 11, 0) != 0,
                        ltf_symbol: (if a12 == 0 { LtfSymbol::OneXHELTF } else { LtfSymbol::TwoXHELTF }),
                        ul_stbc: spec_arg_or::<u32>(toks, 13, 0) != 0,
                        ldpc_ess: spec_arg_or::<u32>(toks, 14, 0) != 0,
                        ap_tx_pwr: spec_arg_or::<u64>(toks, 15, 0),
                        pre_fec_pad_fct: spec_arg_or::<u64>(toks, 16, 0),
                        pe_disambig: spec_arg_or::<u32>(toks, 17, 0) != 0,
                        spatial_reuse: spec_arg_or::<u64>(toks, 18, 0),
                        doppler: spec_arg_or::<u32>(toks, 19, 0) != 0,
                        he_sig2: spec_arg_or::<u64>(toks, 20, 0),
                        aid12: spec_arg_or::<u32>(toks, 21, 0),
                        ru_alloc_reg: spec_arg_or::<u32>(toks, 22, 0) != 0,
                        ru_alloc: spec_arg_or::<u32>(toks, 23, 0),
                        ul_coding_type: spec_arg_or::<u32>(toks, 24, 0) != 0,
                        ul_mcs: spec_arg_or::<u32>(toks, 25, 0),
                        ul_dcm: spec_arg_or::<u32>(toks, 26, 0) != 0,
                        ss_alloc: (if a27 == 0 { SpatialStreamAllocation::OneSS } else { SpatialStreamAllocation::TwoSS }),
                        ul_target_rssi: spec_arg_or::<u8>(toks, 28, 0),
                        mpdu_mu_sf: spec_arg_or::<u8>(toks, 29, 0),
                        tid_al: spec_arg_or::<u8>(toks, 30, 0),
                        ac_pl: spec_arg_or::<u32>(toks, 31, 0) != 0,
                        pref_ac: spec_arg_or::<u8>(toks, 32, 0),
                    },
                )
        }),
{
    lemma_command_keys(toks);
}

/// `tx_frame=` takes its arguments in the AN14114 order: 0 enable, 1 TX
/// rate, 2 payload pattern, 3 payload length, 4 adjust burst SIFS gap, 5
/// SIFS in microseconds, 6 short preamble, 7 active subchannel (0 lower, 1
/// upper, 3 both), 8 short GI, 9 advanced coding, 10 beamforming, 11
/// greenfield, 12 STBC, 13 signal bandwidth (0, 1, 4 for 20, 40, 80 MHz,
/// -1 default), 14 packet count, 15 maximum packet extension, 16 beam
/// change, 17 DCM, 18 doppler, 19 midamble period, 20 queue number, 21
/// BSSID. The first is required; a missing or unreadable number counts as
/// 0, but the signal bandwidth and the signed values 14 to 20 as -1.
#[verifier::rlimit(60)]
pub proof fn lemma_tx_frame_arguments(toks: Seq<Seq<char>>)
    ensures
        ({
            let a7 = spec_arg_or::<u32>(toks, 7, 0);
            let a13 = spec_arg_or::<u32>(toks, 13, 0xffff_ffffu32);
            &&& spec_command("tx_frame"@, toks) is Ok <==> spec_arg::<u32>(toks, 0) is Ok && (a7 == 0 || a7 == 1 || a7 == 3) && (a13 == 0 || a13 == 1 || a13 == 4 || a13 == 0xffff_ffff) && spec_bssid(toks) is Ok
            &&& spec_arg::<u32>(toks, 0) is Ok && (a7 == 0 || a7 == 1 || a7 == 3) && (a13 == 0 || a13 == 1 || a13 == 4 || a13 == 0xffff_ffff) && spec_bssid(toks) is Ok ==> spec_command("tx_frame"@, toks) == Ok::<MfgCmdModel, ProcfsError>(
                    MfgCmdModel::TxFrame {
                        enable: spec_arg::<u32>(toks, 0)->Ok_0 != 0,
                        tx_rate: spec_arg_or::<u32>(toks, 1, 0),
                        payload_pattern: spec_arg_or::<u32>(toks, 2, 0),
                        payload_length: spec_arg_or::<u32>(toks, 3, 0),
                        adjust_burst_sifs_gap: spec_arg_or::<u32>(toks, 4, 0) != 0,
                        adjust_sifs_us: spec_arg_or::<u32>(toks, 5, 0),
                        short_preamble: spec_arg_or::<u32>(toks, 6, 0) != 0,
                        active_subchannel: (if a7 == 0 { ActiveSubchannel::Lower } else if a7 == 1 { ActiveSubchannel::Upper } else { ActiveSubchannel::Both }),
                        short_gi: spec_arg_or::<u32>(toks, 8, 0) != 0,
                        adv_coding: spec_arg_or::<u32>(toks, 9, 0) != 0,
                        beamforming: spec_arg_or::<u32>(toks, 10, 0) != 0,
                        greenfield_mode: spec_arg_or::<u32>(toks, 11, 0) != 0,
                        stbc: spec_arg_or::<u32>(toks, 12, 0) != 0,
                        signal_bw: (if a13 == 0 { SignalBandwidth::Bw20 } else if a13 == 1 { SignalBandwidth::Bw40 } else if a13 == 4 { SignalBandwidth::Bw80 } else { SignalBandwidth::Default }),
                        num_pkt: spec_arg_or::<i32>(toks, 14, -1i32),
                        max_pkt_ext: spec_arg_or::<i32>(toks, 15, -1i32),
                        beam_change: spec_arg_or::<i32>(toks, 16, -1i32),
                        dcm: spec_arg_or::<i32>(toks, 17, -1i32),
                        doppler: spec_arg_or::<i32>(toks, 18, -1i32),
                        midamble_period: spec_arg_or::<i32>(toks, 19, -1i32),
                        q_num: spec_arg_or::<i32>(toks, 20, -1i32),
                        bssid: spec_bssid(toks)->Ok_0,
                    },
                )
        }),
{
    lemma_command_keys(toks);
}

/// `tx_continuous=` takes 0 start or stop (required), 1 continuous wave
/// mode, 2 payload pattern, 3 carrier suppression mode, 4 active subchannel
/// (0 lower, 1 upper, 3 both) and 5 TX rate; a missing or unreadable one
/// counts as 0.
pub proof fn lemma_tx_continuous_arguments(toks: Seq<Seq<char>>)
    ensures
        ({
            let a4 = spec_arg_or::<u32>(toks, 4, 0);
            &&& spec_command("tx_continuous"@, toks) is Ok <==> spec_arg::<u32>(toks, 0) is Ok && (a4 == 0 || a4 == 1 || a4 == 3)
            &&& spec_arg::<u32>(toks, 0) is Ok && (a4 == 0 || a4 == 1 || a4 == 3) ==> spec_command("tx_continuous"@, toks) == Ok::<MfgCmdModel, ProcfsError>(
                    MfgCmdModel::TxContinuous {
                        enable: spec_arg::<u32>(toks, 0)->Ok_0 != 0,
                        continuous_wave_mode: spec_arg_or::<u32>(toks, 1, 0) != 0,
                        payload_pattern: spec_arg_or::<u32>(toks, 2, 0),
                        cs_mode: spec_arg_or::<u32>(toks, 3, 0) != 0,
                        active_subchannel: (if a4 == 0 { ActiveSubchannel::Lower } else if a4 == 1 { ActiveSubchannel::Upper } else { ActiveSubchannel::Both }),
                        tx_rate: spec_arg_or::<u32>(toks, 5, 0),
                    },
                )
        }),
{
    lemma_command_keys(toks);
}

/// `he_tb_tx=` takes 0 enable (required), 1 queue number, 2 AID, 3 AXQ0 MU
/// timer and 4 TX power; a missing or unreadable one counts as 0.
pub proof fn lemma_he_tb_tx_arguments(toks: Seq<Seq<char>>)
    ensures
        ({
            &&& spec_command("he_tb_tx"@, toks) is Ok <==> spec_arg::<u32>(toks, 0) is Ok
            &&& spec_arg::<u32>(toks, 0) is Ok ==> spec_command("he_tb_tx"@, toks) == Ok::<MfgCmdModel, ProcfsError>(
                    MfgCmdModel::HeTbTx {
                        enable: spec_arg::<u32>(toks, 0)->Ok_0 != 0,
                        qnum: spec_arg_or::<u16>(toks, 1, 0),
                        aid: spec_arg_or::<u16>(toks, 2, 0),
                        axq0_mu_timer: spec_arg_or::<u16>(toks, 3, 0),
                        tx_pwr: spec_arg_or::<i16>(toks, 4, 0),
                    },
                )
        }),
{
    lemma_command_keys(toks);
}

/// `tx_power=` takes the power in dBm, the modulation (0 CCK, 1 OFDM, 2
/// MCS) and the path (0 A, 1 B, 2 both), all three required.
pub proof fn lemma_tx_power_arguments(toks: Seq<Seq<char>>)
    ensures
        ({
            let m = spec_arg::<u32>(toks, 1)->Ok_0;
            let p = spec_arg::<u32>(toks, 2)->Ok_0;
            &&& spec_command("tx_power"@, toks) is Ok <==> spec_arg::<i32>(toks, 0) is Ok && spec_arg::<u32>(toks, 1) is Ok && m <= 2 && spec_arg::<u32>(toks, 2) is Ok && p <= 2
            &&& spec_arg::<i32>(toks, 0) is Ok && spec_arg::<u32>(toks, 1) is Ok && m <= 2 && spec_arg::<u32>(toks, 2) is Ok && p <= 2 ==> spec_command("tx_power"@, toks) == Ok::<MfgCmdModel, ProcfsError>(
                    MfgCmdModel::TxPower {
                        power_dbm: spec_arg::<i32>(toks, 0)->Ok_0,
                        modulation: (if m == 0 { Modulation::Cck } else if m == 1 { Modulation::Ofdm } else { Modulation::Mcs }),
                        path: (if p == 0 { TxPathId::A } else if p == 1 { TxPathId::B } else { TxPathId::AB }),
                    },
                )
        }),
{
    lemma_command_keys(toks);
}

/// `radio_mode=` takes radio 0 and radio 1, both required.
pub proof fn lemma_radio_mode_arguments(toks: Seq<Seq<char>>)
    ensures
        ({
            &&& spec_command("radio_mode"@, toks) is Ok <==> spec_arg::<u32>(toks, 0) is Ok && spec_arg::<u32>(toks, 1) is Ok
            &&& spec_arg::<u32>(toks, 0) is Ok && spec_arg::<u32>(toks, 1) is Ok ==> spec_command("radio_mode"@, toks) == Ok::<MfgCmdModel, ProcfsError>(
                    MfgCmdModel::RadioMode {
                        radio0: spec_arg::<u32>(toks, 0)->Ok_0,
                        radio1: spec_arg::<u32>(toks, 1)->Ok_0,
                    },
                )
        }),
{
    lemma_command_keys(toks);
}

/// `tx_antenna=` takes the TX antenna: 1 path A, 2 path B, 3 both.
pub proof fn lemma_tx_antenna_argument(toks: Seq<Seq<char>>)
    ensures
        ({
            let v = spec_arg::<u32>(toks, 0)->Ok_0;
            &&& spec_command("tx_antenna"@, toks) is Ok <==> spec_arg::<u32>(toks, 0) is Ok && 1 <= v <= 3
            &&& spec_arg::<u32>(toks, 0) is Ok && 1 <= v <= 3 ==> spec_command("tx_antenna"@, toks) == Ok::<MfgCmdModel, ProcfsError>(
                    MfgCmdModel::TxAntenna {
                        mode: (if v == 1 { AntennaMode::A } else if v == 2 { AntennaMode::B } else { AntennaMode::AB }),
                    },
                )
        }),
{
    lemma_command_keys(toks);
}

/// `rx_antenna=` takes the RX antenna: 1 path A, 2 path B, 3 both.
pub proof fn lemma_rx_antenna_argument(toks: Seq<Seq<char>>)
    ensures
        ({
            let v = spec_arg::<u32>(toks, 0)->Ok_0;
            &&& spec_command("rx_antenna"@, toks) is Ok <==> spec_arg::<u32>(toks, 0) is Ok && 1 <= v <= 3
            &&& spec_arg::<u32>(toks, 0) is Ok && 1 <= v <= 3 ==> spec_command("rx_antenna"@, toks) == Ok::<MfgCmdModel, ProcfsError>(
                    MfgCmdModel::RxAntenna {
                        mode: (if v == 1 { AntennaMode::A } else if v == 2 { AntennaMode::B } else { AntennaMode::AB }),
                    },
                )
        }),
{
    lemma_command_keys(toks);
}

/// `band=` takes 0 for 2.4 GHz and 1 for 5 GHz.
pub proof fn lemma_band_argument(toks: Seq<Seq<char>>)
    ensures
        ({
            let v = spec_arg::<u32>(toks, 0)->Ok_0;
            &&& spec_command("band"@, toks) is Ok <==> spec_arg::<u32>(toks, 0) is Ok && v <= 1
            &&& spec_arg::<u32>(toks, 0) is Ok && v <= 1 ==> spec_command("band"@, toks) == Ok::<MfgCmdModel, ProcfsError>(
                    MfgCmdModel::RfBand {
                        band: (if v == 0 { RfBand::Ghz2_4 } else { RfBand::Ghz5 }),
                    },
                )
        }),
{
    lemma_command_keys(toks);
}

/// `bw=` takes 0 for 20 MHz, 1 for 40 MHz and 4 for 80 MHz.
pub proof fn lemma_bw_argument(toks: Seq<Seq<char>>)
    ensures
        ({
            let v = spec_arg::<u32>(toks, 0)->Ok_0;
            &&& spec_command("bw"@, toks) is Ok <==> spec_arg::<u32>(toks, 0) is Ok && (v == 0 || v == 1 || v == 4)
            &&& spec_arg::<u32>(toks, 0) is Ok && (v == 0 || v == 1 || v == 4) ==> spec_command("bw"@, toks) == Ok::<MfgCmdModel, ProcfsError>(
                    MfgCmdModel::ChannelBandwidth {
                        bandwidth: (if v == 0 { ChannelBandwidth::Bw20 } else if v == 1 { ChannelBandwidth::Bw40 } else { ChannelBandwidth::Bw80 }),
                    },
                )
        }),
{
    lemma_command_keys(toks);
}

/// `channel=` takes the channel number.
pub proof fn lemma_channel_argument(toks: Seq<Seq<char>>)
    ensures
        ({
            &&& spec_command("channel"@, toks) is Ok <==> spec_arg::<u16>(toks, 0) is Ok
            &&& spec_arg::<u16>(toks, 0) is Ok ==> spec_command("channel"@, toks) == Ok::<MfgCmdModel, ProcfsError>(
                    MfgCmdModel::RfChannel {
                        channel: spec_arg::<u16>(toks, 0)->Ok_0,
                    },
                )
        }),
{
    lemma_command_keys(toks);
}

/// `rf_test_mode=` takes 1 (or any non-zero number) to enter test mode and
/// 0 to leave it.
pub proof fn lemma_rf_test_mode_argument(toks: Seq<Seq<char>>)
    ensures
        ({
            &&& spec_command("rf_test_mode"@, toks) is Ok <==> spec_arg::<u32>(toks, 0) is Ok
            &&& spec_arg::<u32>(toks, 0) is Ok ==> spec_command("rf_test_mode"@, toks) == Ok::<MfgCmdModel, ProcfsError>(
                    MfgCmdModel::RfTestMode {
                        enable: spec_arg::<u32>(toks, 0)->Ok_0 != 0,
                    },
                )
        }),
{
    lemma_command_keys(toks);
}

/// The first `=` of `key=args` is the one after the key, where the key has
/// none.
proof fn lemma_first_equals(key: Seq<char>, args: Seq<char>)
    requires
        forall|i: int| 0 <= i < key.len() ==> key[i] != '=',
    ensures
        find_char(key + "="@ + args, '=') == Some(key.len()),
    decreases key.len(),
{
    reveal_strlit("=");
    let s = key + "="@ + args;
    if key.len() == 0 {
        assert(s[0] == '=');
    } else {
        assert(s.drop_first() =~= key.drop_first() + "="@ + args);
        lemma_first_equals(key.drop_first(), args);
        assert(s[0] == key[0]);
    }
}

/// The facts about a line `key=args` that its parse rests on.
proof fn lemma_key_value_shape(key: Seq<char>, args: Seq<char>)
    requires
        key.len() > 0,
        !is_whitespace(key[0]),
        forall|i: int| 0 <= i < key.len() ==> key[i] != '=',
        args.len() == 0 || !is_whitespace(args.last()),
    ensures
        ({
            let line = key + "="@ + args;
            &&& trim(line) == line
            &&& line != "get_and_reset_per"@
            &&& find_char(line, '=') == Some(key.len())
            &&& line.take(key.len() as int) == key
            &&& line.skip(key.len() + 1 as int) == args
        }),
{
    reveal_strlit("=");
    reveal_strlit("get_and_reset_per");
    let line = key + "="@ + args;
    assert(line[0] == key[0]);
    assert(line.last() == if args.len() == 0 { '=' } else { args.last() });
    assert(trim_start(line) == line);
    assert(trim_end(line) == line);
    lemma_first_equals(key, args);
    assert(line[key.len() as int] == '=');
    if line == "get_and_reset_per"@ {
        assert("get_and_reset_per"@[key.len() as int] == '=');
        assert(false);
    }
    assert(line.take(key.len() as int) =~= key);
    assert(line.skip(key.len() + 1 as int) =~= args);
}

/// A line `key=arguments` whose key holds no `=` is the command that the
/// key (without its surrounding whitespace) names, given the arguments
/// split at whitespace: everything after the first `=` is arguments.
pub proof fn lemma_key_value_line(key: Seq<char>, args: Seq<char>)
    requires
        key.len() > 0,
        !is_whitespace(key[0]),
        forall|i: int| 0 <= i < key.len() ==> key[i] != '=',
        args.len() == 0 || !is_whitespace(args.last()),
    ensures
        spec_parse_procfs(key + "="@ + args) == spec_command(trim(key), split_whitespace(args)),
{
    lemma_key_value_shape(key, args);
}

/// `get_and_reset_per` alone on the line (whitespace around it ignored)
/// asks for the packet error counters; the request carries zero counters.
pub proof fn lemma_get_and_reset_per_line(input: Seq<char>)
    requires
        trim(input) == "get_and_reset_per"@,
    ensures
        spec_parse_procfs(input) == Ok::<MfgCmdModel, ProcfsError>(
            MfgCmdModel::GetAndResetPer {
                rx_total_packet_count: 0,
                rx_multi_broadcast_packet_count: 0,
                rx_frame_check_sequence_errors: 0,
            },
        ),
{
}

} // verus!
