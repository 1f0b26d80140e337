//! The interactive shell: the commands that it offers, the questions that
//! it asks for each, and the command that the answers make.

use vstd::prelude::*;

use crate::command::{
    ActiveSubchannel, AntennaMode, ChannelBandwidth, LtfSymbol, MfgCmd, MfgCmdModel, Modulation,
    RfBand, SignalBandwidth, SpatialStreamAllocation, StandaloneHeTbMode, TxPathId, UlBandwidth,
};
use crate::ffi::{zero_array, CAL_DATA_LEN, MAC_ADDR_LENGTH};
use crate::text::{chars_of, digit, digit_value};

verus! {

/// An entry of the interactive shell's menu.
#[derive(Debug, Clone, Copy, PartialEq, Eq, PartialOrd, Ord, Structural)]
pub enum CommandChoice {
    RfTestMode,
    TxAntenna,
    RxAntenna,
    RadioMode,
    RfBand,
    ChannelBandwidth,
    RfChannel,
    GetAndResetPer,
    TxPower,
    TxContinuous,
    TxFrame,
    TriggerFrame,
    HeTbTx,
    OtpCalData,
    OtpMacAddr,
    Exit,
}

impl CommandChoice {
    /// The menu, in the order in which it is shown.
    pub open spec fn spec_all() -> Seq<CommandChoice> {
        seq![
            CommandChoice::RfTestMode,
            CommandChoice::TxAntenna,
            CommandChoice::RxAntenna,
            CommandChoice::RadioMode,
            CommandChoice::RfBand,
            CommandChoice::ChannelBandwidth,
            CommandChoice::RfChannel,
            CommandChoice::GetAndResetPer,
            CommandChoice::TxPower,
            CommandChoice::TxContinuous,
            CommandChoice::TxFrame,
            CommandChoice::TriggerFrame,
            CommandChoice::HeTbTx,
            CommandChoice::OtpCalData,
            CommandChoice::OtpMacAddr,
            CommandChoice::Exit,
        ]
    }

    /// The menu, in the order in which it is shown.
    pub fn all() -> (r: Vec<Self>)
        ensures
            r@ == Self::spec_all(),
    {
        let mut v = Vec::new();
        v.push(CommandChoice::RfTestMode);
        v.push(CommandChoice::TxAntenna);
        v.push(CommandChoice::RxAntenna);
        v.push(CommandChoice::RadioMode);
        v.push(CommandChoice::RfBand);
        v.push(CommandChoice::ChannelBandwidth);
        v.push(CommandChoice::RfChannel);
        v.push(CommandChoice::GetAndResetPer);
        v.push(CommandChoice::TxPower);
        v.push(CommandChoice::TxContinuous);
        v.push(CommandChoice::TxFrame);
        v.push(CommandChoice::TriggerFrame);
        v.push(CommandChoice::HeTbTx);
        v.push(CommandChoice::OtpCalData);
        v.push(CommandChoice::OtpMacAddr);
        v.push(CommandChoice::Exit);
        assert(v@ =~= Self::spec_all());
        v
    }

    /// Whether the entry may alter the hardware for good (the OTP commands),
    /// so that the user confirms it first.
    pub fn ask_for_confirmation(&self) -> (r: bool)
        ensures
            r == (*self == CommandChoice::OtpCalData || *self == CommandChoice::OtpMacAddr),
    {
        match self {
            CommandChoice::OtpCalData | CommandChoice::OtpMacAddr => true,
            _ => false,
        }
    }

    /// The text of the entry in the menu.
    pub open spec fn spec_name(self) -> Seq<char> {
        match self {
            CommandChoice::RfTestMode => "rf_test_mode"@,
            CommandChoice::TxAntenna => "tx_antenna"@,
            CommandChoice::RxAntenna => "rx_antenna"@,
            CommandChoice::RadioMode => "radio_mode"@,
            CommandChoice::RfBand => "rf_band"@,
            CommandChoice::ChannelBandwidth => "channel_bandwidth"@,
            CommandChoice::RfChannel => "rf_channel"@,
            CommandChoice::GetAndResetPer => "get_and_reset_per"@,
            CommandChoice::TxPower => "tx_power"@,
            CommandChoice::TxContinuous => "tx_continuous"@,
            CommandChoice::TxFrame => "tx_frame"@,
            CommandChoice::TriggerFrame => "trigger_frame"@,
            CommandChoice::HeTbTx => "he_tb_tx"@,
            CommandChoice::OtpCalData => "otp_cal_data"@,
            CommandChoice::OtpMacAddr => "otp_mac_addr"@,
            CommandChoice::Exit => "exit"@,
        }
    }

    /// The text of the entry in the menu.
    pub fn name(&self) -> (r: &'static str)
        ensures
            r@ == self.spec_name(),
    {
        match self {
            CommandChoice::RfTestMode => "rf_test_mode",
            CommandChoice::TxAntenna => "tx_antenna",
            CommandChoice::RxAntenna => "rx_antenna",
            CommandChoice::RadioMode => "radio_mode",
            CommandChoice::RfBand => "rf_band",
            CommandChoice::ChannelBandwidth => "channel_bandwidth",
            CommandChoice::RfChannel => "rf_channel",
            CommandChoice::GetAndResetPer => "get_and_reset_per",
            CommandChoice::TxPower => "tx_power",
            CommandChoice::TxContinuous => "tx_continuous",
            CommandChoice::TxFrame => "tx_frame",
            CommandChoice::TriggerFrame => "trigger_frame",
            CommandChoice::HeTbTx => "he_tb_tx",
            CommandChoice::OtpCalData => "otp_cal_data",
            CommandChoice::OtpMacAddr => "otp_mac_addr",
            CommandChoice::Exit => "exit",
        }
    }
}

/// A list of named options that a question offers.
#[derive(Debug, Clone, Copy, PartialEq, Eq, Structural)]
pub enum Selection {
    Antenna,
    RfBand,
    Bandwidth,
    Modulation,
    TxPath,
    ActiveSubchannel,
    SignalBandwidth,
    StandaloneHeTb,
    UlBandwidth,
    LtfSymbol,
    SpatialStreams,
}

impl Selection {
    /// The names of the options, in the order in which they are offered.
    pub open spec fn spec_labels(self) -> Seq<&'static str> {
        match self {
            Selection::Antenna => seq!["A", "B", "AB"],
            Selection::RfBand => seq!["2.4 GHz", "5 GHz"],
            Selection::Bandwidth => seq!["20 MHz", "40 MHz", "80 MHz"],
            Selection::Modulation => seq!["CCK", "OFDM", "MCS"],
            Selection::TxPath => seq!["A", "B", "AB"],
            Selection::ActiveSubchannel => seq!["Lower", "Upper", "Both"],
            Selection::SignalBandwidth => seq!["Default", "20 MHz", "40 MHz", "80 MHz"],
            Selection::StandaloneHeTb => seq!["Disabled", "Trigger-based", "Standalone", "SU-OFDMA"],
            Selection::UlBandwidth => seq!["20 MHz", "40 MHz", "80 MHz"],
            Selection::LtfSymbol => seq!["1x HELTF (1SS)", "2x HELTF (2SS)"],
            Selection::SpatialStreams => seq!["1 SS", "2 SS"],
        }
    }

    /// The names of the options, in the order in which they are offered.
    pub fn labels(self) -> (r: Vec<&'static str>)
        ensures
            r@ == self.spec_labels(),
    {
        let mut v = Vec::new();
        match self {
            Selection::Antenna => {
                v.push("A");
                v.push("B");
                v.push("AB");
            },
            Selection::RfBand => {
                v.push("2.4 GHz");
                v.push("5 GHz");
            },
            Selection::Bandwidth => {
                v.push("20 MHz");
                v.push("40 MHz");
                v.push("80 MHz");
            },
            Selection::Modulation => {
                v.push("CCK");
                v.push("OFDM");
                v.push("MCS");
            },
            Selection::TxPath => {
                v.push("A");
                v.push("B");
                v.push("AB");
            },
            Selection::ActiveSubchannel => {
                v.push("Lower");
                v.push("Upper");
                v.push("Both");
            },
            Selection::SignalBandwidth => {
                v.push("Default");
                v.push("20 MHz");
                v.push("40 MHz");
                v.push("80 MHz");
            },
            Selection::StandaloneHeTb => {
                v.push("Disabled");
                v.push("Trigger-based");
                v.push("Standalone");
                v.push("SU-OFDMA");
            },
            Selection::UlBandwidth => {
                v.push("20 MHz");
                v.push("40 MHz");
                v.push("80 MHz");
            },
            Selection::LtfSymbol => {
                v.push("1x HELTF (1SS)");
                v.push("2x HELTF (2SS)");
            },
            Selection::SpatialStreams => {
                v.push("1 SS");
                v.push("2 SS");
            },
        }
        assert(v@ =~= self.spec_labels());
        v
    }
}

/// The option at `i` of `Selection::Antenna`.
pub open spec fn antenna_at(i: usize) -> AntennaMode {
    if i == 0 {
        AntennaMode::A
    } else if i == 1 {
        AntennaMode::B
    } else {
        AntennaMode::AB
    }
}

fn pick_antenna(i: usize) -> (r: AntennaMode)
    ensures
        r == antenna_at(i),
{
    if i == 0 {
        AntennaMode::A
    } else if i == 1 {
        AntennaMode::B
    } else {
        AntennaMode::AB
    }
}

/// The option at `i` of `Selection::RfBand`.
pub open spec fn rf_band_at(i: usize) -> RfBand {
    if i == 0 {
        RfBand::Ghz2_4
    } else {
        RfBand::Ghz5
    }
}

fn pick_rf_band(i: usize) -> (r: RfBand)
    ensures
        r == rf_band_at(i),
{
    if i == 0 {
        RfBand::Ghz2_4
    } else {
        RfBand::Ghz5
    }
}

/// The option at `i` of `Selection::Bandwidth`.
pub open spec fn bandwidth_at(i: usize) -> ChannelBandwidth {
    if i == 0 {
        ChannelBandwidth::Bw20
    } else if i == 1 {
        ChannelBandwidth::Bw40
    } else {
        ChannelBandwidth::Bw80
    }
}

fn pick_bandwidth(i: usize) -> (r: ChannelBandwidth)
    ensures
        r == bandwidth_at(i),
{
    if i == 0 {
        ChannelBandwidth::Bw20
    } else if i == 1 {
        ChannelBandwidth::Bw40
    } else {
        ChannelBandwidth::Bw80
    }
}

/// The option at `i` of `Selection::Modulation`.
pub open spec fn modulation_at(i: usize) -> Modulation {
    if i == 0 {
        Modulation::Cck
    } else if i == 1 {
        Modulation::Ofdm
    } else {
        Modulation::Mcs
    }
}

fn pick_modulation(i: usize) -> (r: Modulation)
    ensures
        r == modulation_at(i),
{
    if i == 0 {
        Modulation::Cck
    } else if i == 1 {
        Modulation::Ofdm
    } else {
        Modulation::Mcs
    }
}

/// The option at `i` of `Selection::TxPath`.
pub open spec fn tx_path_at(i: usize) -> TxPathId {
    if i == 0 {
        TxPathId::A
    } else if i == 1 {
        TxPathId::B
    } else {
        TxPathId::AB
    }
}

fn pick_tx_path(i: usize) -> (r: TxPathId)
    ensures
        r == tx_path_at(i),
{
    if i == 0 {
        TxPathId::A
    } else if i == 1 {
        TxPathId::B
    } else {
        TxPathId::AB
    }
}

/// The option at `i` of `Selection::ActiveSubchannel`.
pub open spec fn active_subchannel_at(i: usize) -> ActiveSubchannel {
    if i == 0 {
        ActiveSubchannel::Lower
    } else if i == 1 {
        ActiveSubchannel::Upper
    } else {
        ActiveSubchannel::Both
    }
}

fn pick_active_subchannel(i: usize) -> (r: ActiveSubchannel)
    ensures
        r == active_subchannel_at(i),
{
    if i == 0 {
        ActiveSubchannel::Lower
    } else if i == 1 {
        ActiveSubchannel::Upper
    } else {
        ActiveSubchannel::Both
    }
}

/// The option at `i` of `Selection::SignalBandwidth`.
pub open spec fn signal_bw_at(i: usize) -> SignalBandwidth {
    if i == 0 {
        SignalBandwidth::Default
    } else if i == 1 {
        SignalBandwidth::Bw20
    } else if i == 2 {
        SignalBandwidth::Bw40
    } else {
        SignalBandwidth::Bw80
    }
}

fn pick_signal_bw(i: usize) -> (r: SignalBandwidth)
    ensures
        r == signal_bw_at(i),
{
    if i == 0 {
        SignalBandwidth::Default
    } else if i == 1 {
        SignalBandwidth::Bw20
    } else if i == 2 {
        SignalBandwidth::Bw40
    } else {
        SignalBandwidth::Bw80
    }
}

/// The option at `i` of `Selection::StandaloneHeTb`.
pub open spec fn standalone_hetb_at(i: usize) -> StandaloneHeTbMode {
    if i == 0 {
        StandaloneHeTbMode::Disabled
    } else if i == 1 {
        StandaloneHeTbMode::TriggerBased
    } else if i == 2 {
        StandaloneHeTbMode::Standalone
    } else {
        StandaloneHeTbMode::SuOfdma
    }
}

fn pick_standalone_hetb(i: usize) -> (r: StandaloneHeTbMode)
    ensures
        r == standalone_hetb_at(i),
{
    if i == 0 {
        StandaloneHeTbMode::Disabled
    } else if i == 1 {
        StandaloneHeTbMode::TriggerBased
    } else if i == 2 {
        StandaloneHeTbMode::Standalone
    } else {
        StandaloneHeTbMode::SuOfdma
    }
}

/// The option at `i` of `Selection::UlBandwidth`.
pub open spec fn ul_bw_at(i: usize) -> UlBandwidth {
    if i == 0 {
        UlBandwidth::Bw20
    } else if i == 1 {
        UlBandwidth::Bw40
    } else {
        UlBandwidth::Bw80
    }
}

fn pick_ul_bw(i: usize) -> (r: UlBandwidth)
    ensures
        r == ul_bw_at(i),
{
    if i == 0 {
        UlBandwidth::Bw20
    } else if i == 1 {
        UlBandwidth::Bw40
    } else {
        UlBandwidth::Bw80
    }
}

/// The option at `i` of `Selection::LtfSymbol`.
pub open spec fn ltf_symbol_at(i: usize) -> LtfSymbol {
    if i == 0 {
        LtfSymbol::OneXHELTF
    } else {
        LtfSymbol::TwoXHELTF
    }
}

fn pick_ltf_symbol(i: usize) -> (r: LtfSymbol)
    ensures
        r == ltf_symbol_at(i),
{
    if i == 0 {
        LtfSymbol::OneXHELTF
    } else {
        LtfSymbol::TwoXHELTF
    }
}

/// The option at `i` of `Selection::SpatialStreams`.
pub open spec fn ss_alloc_at(i: usize) -> SpatialStreamAllocation {
    if i == 0 {
        SpatialStreamAllocation::OneSS
    } else {
        SpatialStreamAllocation::TwoSS
    }
}

fn pick_ss_alloc(i: usize) -> (r: SpatialStreamAllocation)
    ensures
        r == ss_alloc_at(i),
{
    if i == 0 {
        SpatialStreamAllocation::OneSS
    } else {
        SpatialStreamAllocation::TwoSS
    }
}

/// The integer type that a number question asks for.
#[derive(Debug, Clone, Copy, PartialEq, Eq, Structural)]
pub enum NumberKind {
    U8,
    U16,
    U32,
    U64,
    I16,
    I32,
}

impl NumberKind {
    /// The smallest value of the type.
    pub open spec fn lo(self) -> int {
        match self {
            NumberKind::U8 => 0,
            NumberKind::U16 => 0,
            NumberKind::U32 => 0,
            NumberKind::U64 => 0,
            NumberKind::I16 => -0x8000,
            NumberKind::I32 => -0x8000_0000,
        }
    }

    /// The largest value of the type.
    pub open spec fn hi(self) -> int {
        match self {
            NumberKind::U8 => 0xff,
            NumberKind::U16 => 0xffff,
            NumberKind::U32 => 0xffff_ffff,
            NumberKind::U64 => 0xffff_ffff_ffff_ffff,
            NumberKind::I16 => 0x7fff,
            NumberKind::I32 => 0x7fff_ffff,
        }
    }
}

/// A question of the interactive shell.
#[derive(Debug, Clone, Copy, PartialEq, Eq)]
pub enum Question {
    /// A yes/no question.
    Confirm { message: &'static str, default: bool },
    /// A number of the given type.
    Number { message: &'static str, kind: NumberKind, default: i128 },
    /// One of the options of a list.
    Select { message: &'static str, list: Selection },
    /// A MAC address such as `00:11:22:33:44:55`.
    MacAddr { message: &'static str, default: &'static str },
    /// Hexadecimal bytes, at most `max_len` of them.
    HexData { message: &'static str, max_len: usize },
}

/// The answer to a question.
#[derive(Debug, Clone, PartialEq, Eq)]
pub enum Answer {
    /// The answer to `Confirm`.
    Flag(bool),
    /// The answer to `Number`.
    Number(i128),
    /// The position of the chosen option, the answer to `Select`.
    Index(usize),
    /// The answer to `MacAddr`.
    Mac([u8; MAC_ADDR_LENGTH]),
    /// The answer to `HexData`.
    Data(Vec<u8>),
}

/// Whether `a` answers `q`: of the right kind, and a number within its type,
/// a position within the list.
pub open spec fn fits(q: Question, a: Answer) -> bool {
    match q {
        Question::Confirm { .. } => a is Flag,
        Question::Number { kind, .. } => a matches Answer::Number(v) && kind.lo() <= v <= kind.hi(),
        Question::Select { list, .. } => a matches Answer::Index(i) && i < list.spec_labels().len(),
        Question::MacAddr { .. } => a is Mac,
        Question::HexData { .. } => a is Data,
    }
}

/// Why the answers make no command.
#[derive(Debug, Clone, Copy, PartialEq, Eq, Structural)]
pub enum FormError {
    /// `Exit` is no command.
    NotACommand,
    /// The answers are not those of the entry's questions.
    AnswersDoNotFit,
}

/// The questions of an entry, where `write` is the answer to its first
/// question (it decides the OTP commands' second question).
pub open spec fn spec_form(choice: CommandChoice, write: bool) -> Seq<Question> {
    match choice {
        CommandChoice::RfTestMode => seq![
            Question::Confirm { message: "Enable RF test mode?", default: true },
        ],
        CommandChoice::TxAntenna => seq![
            Question::Select { message: "TX antenna mode", list: Selection::Antenna },
        ],
        CommandChoice::RxAntenna => seq![
            Question::Select { message: "RX antenna mode", list: Selection::Antenna },
        ],
        CommandChoice::RadioMode => seq![
            Question::Number { message: "radio0", kind: NumberKind::U32, default: 1i128 },
            Question::Number { message: "radio1", kind: NumberKind::U32, default: 11i128 },
        ],
        CommandChoice::RfBand => seq![
            Question::Select { message: "RF band", list: Selection::RfBand },
        ],
        CommandChoice::ChannelBandwidth => seq![
            Question::Select { message: "Channel bandwidth", list: Selection::Bandwidth },
        ],
        CommandChoice::RfChannel => seq![
            Question::Number { message: "RF channel", kind: NumberKind::U16, default: 36i128 },
        ],
        CommandChoice::GetAndResetPer => Seq::empty(),
        CommandChoice::TxPower => seq![
            Question::Number { message: "TX power (dBm)", kind: NumberKind::I32, default: 16i128 },
            Question::Select { message: "Modulation", list: Selection::Modulation },
            Question::Select { message: "TX path", list: Selection::TxPath },
        ],
        CommandChoice::TxContinuous => seq![
            Question::Confirm { message: "Start transmit?", default: true },
            Question::Confirm { message: "Enable continuous wave mode?", default: false },
            Question::Number { message: "Payload pattern", kind: NumberKind::U32, default: 2730i128 },
            Question::Confirm { message: "Enable carrier suppression mode?", default: false },
            Question::Select { message: "Active subchannel", list: Selection::ActiveSubchannel },
            Question::Number { message: "TX rate", kind: NumberKind::U32, default: 8i128 },
        ],
        CommandChoice::TxFrame => seq![
            Question::Confirm { message: "Start transmit?", default: true },
            Question::Number { message: "TX rate", kind: NumberKind::U32, default: 8i128 },
            Question::Number { message: "Payload pattern", kind: NumberKind::U32, default: 2730i128 },
            Question::Number { message: "Payload length", kind: NumberKind::U32, default: 598i128 },
            Question::Confirm { message: "Adjust burst SIFS gap?", default: false },
            Question::Number { message: "Adjust SIFS (us)", kind: NumberKind::U32, default: 20i128 },
            Question::Confirm { message: "Enable short preamble?", default: false },
            Question::Select { message: "Active subchannel", list: Selection::ActiveSubchannel },
            Question::Confirm { message: "Enable short GI?", default: false },
            Question::Confirm { message: "Enable advanced coding?", default: false },
            Question::Confirm { message: "Enable beamforming?", default: false },
            Question::Confirm { message: "Enable greenfield mode?", default: false },
            Question::Confirm { message: "Enable STBC?", default: false },
            Question::Select { message: "Signal BW", list: Selection::SignalBandwidth },
            Question::Number { message: "Number of packets", kind: NumberKind::I32, default: -1i128 },
            Question::Number { message: "Max packet extension", kind: NumberKind::I32, default: -1i128 },
            Question::Number { message: "Beam change", kind: NumberKind::I32, default: -1i128 },
            Question::Number { message: "DCM", kind: NumberKind::I32, default: -1i128 },
            Question::Number { message: "Doppler", kind: NumberKind::I32, default: -1i128 },
            Question::Number { message: "Midamble period", kind: NumberKind::I32, default: -1i128 },
            Question::Number { message: "Queue number", kind: NumberKind::I32, default: -1i128 },
            Question::MacAddr { message: "BSSID", default: "05:43:3f:c4:51:00" },
        ],
        CommandChoice::TriggerFrame => seq![
            Question::Confirm { message: "Enable TX?", default: true },
            Question::Select { message: "Standalone HETB mode", list: Selection::StandaloneHeTb },
            Question::Number { message: "Frame control type", kind: NumberKind::U16, default: 1i128 },
            Question::Number { message: "Frame control subtype", kind: NumberKind::U16, default: 2i128 },
            Question::Number { message: "Frame duration", kind: NumberKind::U16, default: 5484i128 },
            Question::Number { message: "Trigger type", kind: NumberKind::U64, default: 0i128 },
            Question::Number { message: "UL length", kind: NumberKind::U64, default: 1000i128 },
            Question::Confirm { message: "More TF?", default: false },
            Question::Confirm { message: "CS required?", default: true },
            Question::Select { message: "UL bandwidth", list: Selection::UlBandwidth },
            Question::Number { message: "LTF type", kind: NumberKind::U64, default: 1i128 },
            Question::Confirm { message: "Enable LTF mode?", default: false },
            Question::Select { message: "LTF symbol", list: Selection::LtfSymbol },
            Question::Confirm { message: "Enable UL STBC?", default: false },
            Question::Confirm { message: "Enable LDPC ESS?", default: true },
            Question::Number { message: "AP TX power", kind: NumberKind::U64, default: 0i128 },
            Question::Number { message: "Pre-FEC pad factor", kind: NumberKind::U64, default: 1i128 },
            Question::Confirm { message: "Enable PE disambiguity?", default: false },
            Question::Number { message: "Spatial reuse", kind: NumberKind::U64, default: 65535i128 },
            Question::Confirm { message: "Enable doppler?", default: false },
            Question::Number { message: "HE-SIG2", kind: NumberKind::U64, default: 511i128 },
            Question::Number { message: "AID12", kind: NumberKind::U32, default: 5i128 },
            Question::Confirm { message: "Enable RU alloc reg?", default: false },
            Question::Number { message: "RU alloc", kind: NumberKind::U32, default: 106i128 },
            Question::Confirm { message: "Enable UL coding type?", default: true },
            Question::Number { message: "UL MCS", kind: NumberKind::U32, default: 0i128 },
            Question::Confirm { message: "Enable UL DCM?", default: false },
            Question::Select { message: "Spatial stream allocation", list: Selection::SpatialStreams },
            Question::Number { message: "UL target RSSI", kind: NumberKind::U8, default: 90i128 },
            Question::Number { message: "MPDU MU SF", kind: NumberKind::U8, default: 0i128 },
            Question::Number { message: "TID allocation", kind: NumberKind::U8, default: 0i128 },
            Question::Confirm { message: "Enable AC policy?", default: false },
            Question::Number { message: "Preferred AC", kind: NumberKind::U8, default: 0i128 },
        ],
        CommandChoice::HeTbTx => seq![
            Question::Confirm { message: "Enable trigger response?", default: true },
            Question::Number { message: "Queue number", kind: NumberKind::U16, default: 1i128 },
            Question::Number { message: "AID", kind: NumberKind::U16, default: 5i128 },
            Question::Number { message: "AXQ0 MU timer", kind: NumberKind::U16, default: 400i128 },
            Question::Number { message: "TX power", kind: NumberKind::I16, default: 9i128 },
        ],
        CommandChoice::OtpCalData => if write {
            seq![
                Question::Confirm { message: "Write OTP calibration data?", default: false },
                Question::HexData {
                    message: "Calibration data as hex bytes (max 1400 bytes)",
                    max_len: CAL_DATA_LEN,
                },
            ]
        } else {
            seq![Question::Confirm { message: "Write OTP calibration data?", default: false }]
        },
        CommandChoice::OtpMacAddr => seq![
            Question::Confirm { message: "Write OTP MAC address?", default: false },
            Question::MacAddr {
                message: "MAC address",
                default: if write {
                    "00:11:22:33:44:55"
                } else {
                    "00:00:00:00:00:00"
                },
            },
        ],
        CommandChoice::Exit => Seq::empty(),
    }
}

/// Whether the first of `answers` says yes.
pub open spec fn first_says_yes(answers: Seq<Answer>) -> bool {
    answers.len() > 0 && answers[0] == Answer::Flag(true)
}

/// The questions of an entry, given the answers so far.
pub open spec fn form_of(choice: CommandChoice, answers: Seq<Answer>) -> Seq<Question> {
    spec_form(choice, first_says_yes(answers))
}

/// Whether `answers` are the answers to all questions of the entry.
pub open spec fn answers_fit(choice: CommandChoice, answers: Seq<Answer>) -> bool {
    let f = form_of(choice, answers);
    &&& answers.len() == f.len()
    &&& forall|i: int| 0 <= i < f.len() ==> #[trigger] fits(f[i], answers[i])
}

/// The question that follows `answers`, if any.
pub open spec fn spec_next_question(choice: CommandChoice, answers: Seq<Answer>) -> Option<Question> {
    let f = form_of(choice, answers);
    if answers.len() < f.len() {
        Some(f[answers.len() as int])
    } else {
        None
    }
}

/// The answer to a yes/no question.
pub open spec fn flag_of(a: Answer) -> bool {
    match a {
        Answer::Flag(b) => b,
        _ => false,
    }
}

/// The answer to a number question.
pub open spec fn num_of(a: Answer) -> int {
    match a {
        Answer::Number(v) => v as int,
        _ => 0,
    }
}

/// The answer to a list question.
pub open spec fn index_of(a: Answer) -> usize {
    match a {
        Answer::Index(i) => i,
        _ => 0,
    }
}

/// The answer to a MAC address question.
pub open spec fn mac_of(a: Answer) -> Seq<u8> {
    match a {
        Answer::Mac(m) => m@,
        _ => Seq::empty(),
    }
}

/// The answer to a hex data question.
pub open spec fn data_of(a: Answer) -> Seq<u8> {
    match a {
        Answer::Data(d) => d@,
        _ => Seq::empty(),
    }
}

/// The command that the answers to an entry's questions make.
pub open spec fn assemble(choice: CommandChoice, a: Seq<Answer>) -> MfgCmdModel {
    match choice {
        CommandChoice::RfTestMode => MfgCmdModel::RfTestMode {
            enable: flag_of(a[0]),
        },
        CommandChoice::TxAntenna => MfgCmdModel::TxAntenna {
            mode: antenna_at(index_of(a[0])),
        },
        CommandChoice::RxAntenna => MfgCmdModel::RxAntenna {
            mode: antenna_at(index_of(a[0])),
        },
        CommandChoice::RadioMode => MfgCmdModel::RadioMode {
            radio0: num_of(a[0]) as u32,
            radio1: num_of(a[1]) as u32,
        },
        CommandChoice::RfBand => MfgCmdModel::RfBand {
            band: rf_band_at(index_of(a[0])),
        },
        CommandChoice::ChannelBandwidth => MfgCmdModel::ChannelBandwidth {
            bandwidth: bandwidth_at(index_of(a[0])),
        },
        CommandChoice::RfChannel => MfgCmdModel::RfChannel {
            channel: num_of(a[0]) as u16,
        },
        CommandChoice::GetAndResetPer => MfgCmdModel::GetAndResetPer {
            rx_total_packet_count: 0,
            rx_multi_broadcast_packet_count: 0,
            rx_frame_check_sequence_errors: 0,
        },
        CommandChoice::TxPower => MfgCmdModel::TxPower {
            power_dbm: num_of(a[0]) as i32,
            modulation: modulation_at(index_of(a[1])),
            path: tx_path_at(index_of(a[2])),
        },
        CommandChoice::TxContinuous => MfgCmdModel::TxContinuous {
            enable: flag_of(a[0]),
            continuous_wave_mode: flag_of(a[1]),
            payload_pattern: num_of(a[2]) as u32,
            cs_mode: flag_of(a[3]),
            active_subchannel: active_subchannel_at(index_of(a[4])),
            tx_rate: num_of(a[5]) as u32,
        },
        CommandChoice::TxFrame => MfgCmdModel::TxFrame {
            enable: flag_of(a[0]),
            tx_rate: num_of(a[1]) as u32,
            payload_pattern: num_of(a[2]) as u32,
            payload_length: num_of(a[3]) as u32,
            adjust_burst_sifs_gap: flag_of(a[4]),
            adjust_sifs_us: num_of(a[5]) as u32,
            short_preamble: flag_of(a[6]),
            active_subchannel: active_subchannel_at(index_of(a[7])),
            short_gi: flag_of(a[8]),
            adv_coding: flag_of(a[9]),
            beamforming: flag_of(a[10]),
            greenfield_mode: flag_of(a[11]),
            stbc: flag_of(a[12]),
            signal_bw: signal_bw_at(index_of(a[13])),
            num_pkt: num_of(a[14]) as i32,
            max_pkt_ext: num_of(a[15]) as i32,
            beam_change: num_of(a[16]) as i32,
            dcm: num_of(a[17]) as i32,
            doppler: num_of(a[18]) as i32,
            midamble_period: num_of(a[19]) as i32,
            q_num: num_of(a[20]) as i32,
            bssid: mac_of(a[21]),
        },
        CommandChoice::TriggerFrame => MfgCmdModel::TriggerFrame {
            enable: flag_of(a[0]),
            standalone_hetb: standalone_hetb_at(index_of(a[1])),
            frame_ctrl_type: num_of(a[2]) as u16,
            frame_ctrl_subtype: num_of(a[3]) as u16,
            frame_duration: num_of(a[4]) as u16,
            trigger_type: num_of(a[5]) as u64,
            ul_len: num_of(a[6]) as u64,
            more_tf: flag_of(a[7]),
            cs_required: flag_of(a[8]),
            ul_bw: ul_bw_at(index_of(a[9])),
            ltf_type: num_of(a[10]) as u64,
            ltf_mode: flag_of(a[11]),
            ltf_symbol: ltf_symbol_at(index_of(a[12])),
            ul_stbc: flag_of(a[13]),
            ldpc_ess: flag_of(a[14]),
            ap_tx_pwr: num_of(a[15]) as u64,
            pre_fec_pad_fct: num_of(a[16]) as u64,
            pe_disambig: flag_of(a[17]),
            spatial_reuse: num_of(a[18]) as u64,
            doppler: flag_of(a[19]),
            he_sig2: num_of(a[20]) as u64,
            aid12: num_of(a[21]) as u32,
            ru_alloc_reg: flag_of(a[22]),
            ru_alloc: num_of(a[23]) as u32,
            ul_coding_type: flag_of(a[24]),
            ul_mcs: num_of(a[25]) as u32,
            ul_dcm: flag_of(a[26]),
            ss_alloc: ss_alloc_at(index_of(a[27])),
            ul_target_rssi: num_of(a[28]) as u8,
            mpdu_mu_sf: num_of(a[29]) as u8,
            tid_al: num_of(a[30]) as u8,
            ac_pl: flag_of(a[31]),
            pref_ac: num_of(a[32]) as u8,
        },
        CommandChoice::HeTbTx => MfgCmdModel::HeTbTx {
            enable: flag_of(a[0]),
            qnum: num_of(a[1]) as u16,
            aid: num_of(a[2]) as u16,
            axq0_mu_timer: num_of(a[3]) as u16,
            tx_pwr: num_of(a[4]) as i16,
        },
        CommandChoice::OtpCalData => MfgCmdModel::OtpCalData {
            write: flag_of(a[0]),
            cal_data: if flag_of(a[0]) {
                data_of(a[1])
            } else {
                Seq::empty()
            },
        },
        CommandChoice::OtpMacAddr => MfgCmdModel::OtpMacAddr { write: flag_of(a[0]), mac_addr: mac_of(a[1]) },
        CommandChoice::Exit => MfgCmdModel::RfTestMode { enable: false },
    }
}

/// The command that an entry's answers make: `Exit` makes none, and answers
/// that are not those of the entry's questions make none.
pub open spec fn spec_build(choice: CommandChoice, answers: Seq<Answer>) -> Result<MfgCmdModel, FormError> {
    if choice == CommandChoice::Exit {
        Err(FormError::NotACommand)
    } else if !answers_fit(choice, answers) {
        Err(FormError::AnswersDoNotFit)
    } else {
        Ok(assemble(choice, answers))
    }
}

/// The model of a built command.
pub open spec fn form_result(r: Result<MfgCmd, FormError>) -> Result<MfgCmdModel, FormError> {
    match r {
        Ok(c) => Ok(c@),
        Err(e) => Err(e),
    }
}

/// The questions of an entry, where `write` is the answer to its first question.
fn form(choice: CommandChoice, write: bool) -> (r: Vec<Question>)
    ensures
        r@ == spec_form(choice, write),
{
    let mut v: Vec<Question> = Vec::new();
    match choice {
        CommandChoice::RfTestMode => {
            v.push(Question::Confirm { message: "Enable RF test mode?", default: true });
        },
        CommandChoice::TxAntenna => {
            v.push(Question::Select { message: "TX antenna mode", list: Selection::Antenna });
        },
        CommandChoice::RxAntenna => {
            v.push(Question::Select { message: "RX antenna mode", list: Selection::Antenna });
        },
        CommandChoice::RadioMode => {
            v.push(Question::Number { message: "radio0", kind: NumberKind::U32, default: 1i128 });
            v.push(Question::Number { message: "radio1", kind: NumberKind::U32, default: 11i128 });
        },
        CommandChoice::RfBand => {
            v.push(Question::Select { message: "RF band", list: Selection::RfBand });
        },
        CommandChoice::ChannelBandwidth => {
            v.push(Question::Select { message: "Channel bandwidth", list: Selection::Bandwidth });
        },
        CommandChoice::RfChannel => {
            v.push(Question::Number { message: "RF channel", kind: NumberKind::U16, default: 36i128 });
        },
        CommandChoice::GetAndResetPer => {
        },
        CommandChoice::TxPower => {
            v.push(Question::Number { message: "TX power (dBm)", kind: NumberKind::I32, default: 16i128 });
            v.push(Question::Select { message: "Modulation", list: Selection::Modulation });
            v.push(Question::Select { message: "TX path", list: Selection::TxPath });
        },
        CommandChoice::TxContinuous => {
            v.push(Question::Confirm { message: "Start transmit?", default: true });
            v.push(Question::Confirm { message: "Enable continuous wave mode?", default: false });
            v.push(Question::Number { message: "Payload pattern", kind: NumberKind::U32, default: 2730i128 });
            v.push(Question::Confirm { message: "Enable carrier suppression mode?", default: false });
            v.push(Question::Select { message: "Active subchannel", list: Selection::ActiveSubchannel });
            v.push(Question::Number { message: "TX rate", kind: NumberKind::U32, default: 8i128 });
        },
        CommandChoice::TxFrame => {
            v.push(Question::Confirm { message: "Start transmit?", default: true });
            v.push(Question::Number { message: "TX rate", kind: NumberKind::U32, default: 8i128 });
            v.push(Question::Number { message: "Payload pattern", kind: NumberKind::U32, default: 2730i128 });
            v.push(Question::Number { message: "Payload length", kind: NumberKind::U32, default: 598i128 });
            v.push(Question::Confirm { message: "Adjust burst SIFS gap?", default: false });
            v.push(Question::Number { message: "Adjust SIFS (us)", kind: NumberKind::U32, default: 20i128 });
            v.push(Question::Confirm { message: "Enable short preamble?", default: false });
            v.push(Question::Select { message: "Active subchannel", list: Selection::ActiveSubchannel });
            v.push(Question::Confirm { message: "Enable short GI?", default: false });
            v.push(Question::Confirm { message: "Enable advanced coding?", default: false });
            v.push(Question::Confirm { message: "Enable beamforming?", default: false });
            v.push(Question::Confirm { message: "Enable greenfield mode?", default: false });
            v.push(Question::Confirm { message: "Enable STBC?", default: false });
            v.push(Question::Select { message: "Signal BW", list: Selection::SignalBandwidth });
            v.push(Question::Number { message: "Number of packets", kind: NumberKind::I32, default: -1i128 });
            v.push(Question::Number { message: "Max packet extension", kind: NumberKind::I32, default: -1i128 });
            v.push(Question::Number { message: "Beam change", kind: NumberKind::I32, default: -1i128 });
            v.push(Question::Number { message: "DCM", kind: NumberKind::I32, default: -1i128 });
            v.push(Question::Number { message: "Doppler", kind: NumberKind::I32, default: -1i128 });
            v.push(Question::Number { message: "Midamble period", kind: NumberKind::I32, default: -1i128 });
            v.push(Question::Number { message: "Queue number", kind: NumberKind::I32, default: -1i128 });
            v.push(Question::MacAddr { message: "BSSID", default: "05:43:3f:c4:51:00" });
        },
        CommandChoice::TriggerFrame => {
            v.push(Question::Confirm { message: "Enable TX?", default: true });
            v.push(Question::Select { message: "Standalone HETB mode", list: Selection::StandaloneHeTb });
            v.push(Question::Number { message: "Frame control type", kind: NumberKind::U16, default: 1i128 });
            v.push(Question::Number { message: "Frame control subtype", kind: NumberKind::U16, default: 2i128 });
            v.push(Question::Number { message: "Frame duration", kind: NumberKind::U16, default: 5484i128 });
            v.push(Question::Number { message: "Trigger type", kind: NumberKind::U64, default: 0i128 });
            v.push(Question::Number { message: "UL length", kind: NumberKind::U64, default: 1000i128 });
            v.push(Question::Confirm { message: "More TF?", default: false });
            v.push(Question::Confirm { message: "CS required?", default: true });
            v.push(Question::Select { message: "UL bandwidth", list: Selection::UlBandwidth });
            v.push(Question::Number { message: "LTF type", kind: NumberKind::U64, default: 1i128 });
            v.push(Question::Confirm { message: "Enable LTF mode?", default: false });
            v.push(Question::Select { message: "LTF symbol", list: Selection::LtfSymbol });
            v.push(Question::Confirm { message: "Enable UL STBC?", default: false });
            v.push(Question::Confirm { message: "Enable LDPC ESS?", default: true });
            v.push(Question::Number { message: "AP TX power", kind: NumberKind::U64, default: 0i128 });
            v.push(Question::Number { message: "Pre-FEC pad factor", kind: NumberKind::U64, default: 1i128 });
            v.push(Question::Confirm { message: "Enable PE disambiguity?", default: false });
            v.push(Question::Number { message: "Spatial reuse", kind: NumberKind::U64, default: 65535i128 });
            v.push(Question::Confirm { message: "Enable doppler?", default: false });
            v.push(Question::Number { message: "HE-SIG2", kind: NumberKind::U64, default: 511i128 });
            v.push(Question::Number { message: "AID12", kind: NumberKind::U32, default: 5i128 });
            v.push(Question::Confirm { message: "Enable RU alloc reg?", default: false });
            v.push(Question::Number { message: "RU alloc", kind: NumberKind::U32, default: 106i128 });
            v.push(Question::Confirm { message: "Enable UL coding type?", default: true });
            v.push(Question::Number { message: "UL MCS", kind: NumberKind::U32, default: 0i128 });
            v.push(Question::Confirm { message: "Enable UL DCM?", default: false });
            v.push(Question::Select { message: "Spatial stream allocation", list: Selection::SpatialStreams });
            v.push(Question::Number { message: "UL target RSSI", kind: NumberKind::U8, default: 90i128 });
            v.push(Question::Number { message: "MPDU MU SF", kind: NumberKind::U8, default: 0i128 });
            v.push(Question::Number { message: "TID allocation", kind: NumberKind::U8, default: 0i128 });
            v.push(Question::Confirm { message: "Enable AC policy?", default: false });
            v.push(Question::Number { message: "Preferred AC", kind: NumberKind::U8, default: 0i128 });
        },
        CommandChoice::HeTbTx => {
            v.push(Question::Confirm { message: "Enable trigger response?", default: true });
            v.push(Question::Number { message: "Queue number", kind: NumberKind::U16, default: 1i128 });
            v.push(Question::Number { message: "AID", kind: NumberKind::U16, default: 5i128 });
            v.push(Question::Number { message: "AXQ0 MU timer", kind: NumberKind::U16, default: 400i128 });
            v.push(Question::Number { message: "TX power", kind: NumberKind::I16, default: 9i128 });
        },
        CommandChoice::OtpCalData => {
            v.push(Question::Confirm { message: "Write OTP calibration data?", default: false });
            if write {
                v.push(
                    Question::HexData {
                        message: "Calibration data as hex bytes (max 1400 bytes)",
                        max_len: CAL_DATA_LEN,
                    },
                );
            }
        },
        CommandChoice::OtpMacAddr => {
            v.push(Question::Confirm { message: "Write OTP MAC address?", default: false });
            let default = if write {
                "00:11:22:33:44:55"
            } else {
                "00:00:00:00:00:00"
            };
            v.push(Question::MacAddr { message: "MAC address", default });
        },
        CommandChoice::Exit => {},
    }
    assert(v@ =~= spec_form(choice, write));
    v
}

/// Whether the first of `answers` says yes.
fn first_yes(answers: &[Answer]) -> (r: bool)
    ensures
        r == first_says_yes(answers@),
{
    if answers.len() == 0 {
        return false;
    }
    match &answers[0] {
        Answer::Flag(b) => *b,
        _ => false,
    }
}

/// The question that follows `answers`, or `None` once all questions of
/// the entry are answered.
pub fn next_question(choice: CommandChoice, answers: &[Answer]) -> (r: Option<Question>)
    ensures
        r == spec_next_question(choice, answers@),
{
    let f = form(choice, first_yes(answers));
    if answers.len() < f.len() {
        Some(f[answers.len()])
    } else {
        None
    }
}

impl NumberKind {
    /// The range `(lo, hi)` of the type.
    pub fn range(self) -> (r: (i128, i128))
        ensures
            r.0 == self.lo(),
            r.1 == self.hi(),
    {
        match self {
            NumberKind::U8 => (0, 0xff),
            NumberKind::U16 => (0, 0xffff),
            NumberKind::U32 => (0, 0xffff_ffff),
            NumberKind::U64 => (0, 0xffff_ffff_ffff_ffff),
            NumberKind::I16 => (-0x8000, 0x7fff),
            NumberKind::I32 => (-0x8000_0000, 0x7fff_ffff),
        }
    }
}

/// Whether `a` answers `q`.
pub fn answer_fits(q: &Question, a: &Answer) -> (r: bool)
    ensures
        r == fits(*q, *a),
{
    match q {
        Question::Confirm { .. } => match a {
            Answer::Flag(_) => true,
            _ => false,
        },
        Question::Number { kind, .. } => match a {
            Answer::Number(v) => {
                let (lo, hi) = kind.range();
                lo <= *v && *v <= hi
            },
            _ => false,
        },
        Question::Select { list, .. } => match a {
            Answer::Index(i) => *i < list.labels().len(),
            _ => false,
        },
        Question::MacAddr { .. } => match a {
            Answer::Mac(_) => true,
            _ => false,
        },
        Question::HexData { .. } => match a {
            Answer::Data(_) => true,
            _ => false,
        },
    }
}

fn flag_at(a: &[Answer], i: usize) -> (r: bool)
    requires
        i < a@.len(),
    ensures
        r == flag_of(a@[i as int]),
{
    match &a[i] {
        Answer::Flag(b) => *b,
        _ => false,
    }
}

fn num_at(a: &[Answer], i: usize) -> (r: i128)
    requires
        i < a@.len(),
    ensures
        r as int == num_of(a@[i as int]),
{
    match &a[i] {
        Answer::Number(v) => *v,
        _ => 0,
    }
}

fn index_at(a: &[Answer], i: usize) -> (r: usize)
    requires
        i < a@.len(),
    ensures
        r == index_of(a@[i as int]),
{
    match &a[i] {
        Answer::Index(k) => *k,
        _ => 0,
    }
}

fn mac_at(a: &[Answer], i: usize) -> (r: [u8; MAC_ADDR_LENGTH])
    requires
        i < a@.len(),
        a@[i as int] is Mac,
    ensures
        r@ == mac_of(a@[i as int]),
{
    match &a[i] {
        Answer::Mac(m) => *m,
        _ => zero_array::<MAC_ADDR_LENGTH>(),
    }
}

fn data_at(a: &[Answer], i: usize) -> (r: Vec<u8>)
    requires
        i < a@.len(),
        a@[i as int] is Data,
    ensures
        r@ == data_of(a@[i as int]),
{
    let mut out: Vec<u8> = Vec::new();
    match &a[i] {
        Answer::Data(d) => {
            let mut k: usize = 0;
            while k < d.len()
                invariant
                    k <= d@.len(),
                    out@ == d@.take(k as int),
                decreases d@.len() - k,
            {
                out.push(d[k]);
                k = k + 1;
                assert(out@ =~= d@.take(k as int));
            }
            assert(d@.take(k as int) =~= d@);
        },
        _ => {},
    }
    out
}

fn assemble_rf_test_mode(answers: &[Answer]) -> (r: MfgCmd)
    requires
        answers@.len() == 1,
        forall|i: int|
            0 <= i < 1 ==> #[trigger] fits(spec_form(CommandChoice::RfTestMode, false)[i], answers@[i]),
    ensures
        r@ == assemble(CommandChoice::RfTestMode, answers@),
{
    let ghost f = spec_form(CommandChoice::RfTestMode, false);
    proof {
    }
    MfgCmd::RfTestMode {
        enable: flag_at(answers, 0),
    }
}

fn assemble_tx_antenna(answers: &[Answer]) -> (r: MfgCmd)
    requires
        answers@.len() == 1,
        forall|i: int|
            0 <= i < 1 ==> #[trigger] fits(spec_form(CommandChoice::TxAntenna, false)[i], answers@[i]),
    ensures
        r@ == assemble(CommandChoice::TxAntenna, answers@),
{
    let ghost f = spec_form(CommandChoice::TxAntenna, false);
    proof {
    }
    MfgCmd::TxAntenna {
        mode: pick_antenna(index_at(answers, 0)),
    }
}

fn assemble_rx_antenna(answers: &[Answer]) -> (r: MfgCmd)
    requires
        answers@.len() == 1,
        forall|i: int|
            0 <= i < 1 ==> #[trigger] fits(spec_form(CommandChoice::RxAntenna, false)[i], answers@[i]),
    ensures
        r@ == assemble(CommandChoice::RxAntenna, answers@),
{
    let ghost f = spec_form(CommandChoice::RxAntenna, false);
    proof {
    }
    MfgCmd::RxAntenna {
        mode: pick_antenna(index_at(answers, 0)),
    }
}

fn assemble_radio_mode(answers: &[Answer]) -> (r: MfgCmd)
    requires
        answers@.len() == 2,
        forall|i: int|
            0 <= i < 2 ==> #[trigger] fits(spec_form(CommandChoice::RadioMode, false)[i], answers@[i]),
    ensures
        r@ == assemble(CommandChoice::RadioMode, answers@),
{
    let ghost f = spec_form(CommandChoice::RadioMode, false);
    proof {
        assert(fits(f[0], answers@[0]));
        assert(fits(f[1], answers@[1]));
    }
    MfgCmd::RadioMode {
        radio0: num_at(answers, 0) as u32,
        radio1: num_at(answers, 1) as u32,
    }
}

fn assemble_rf_band(answers: &[Answer]) -> (r: MfgCmd)
    requires
        answers@.len() == 1,
        forall|i: int|
            0 <= i < 1 ==> #[trigger] fits(spec_form(CommandChoice::RfBand, false)[i], answers@[i]),
    ensures
        r@ == assemble(CommandChoice::RfBand, answers@),
{
    let ghost f = spec_form(CommandChoice::RfBand, false);
    proof {
    }
    MfgCmd::RfBand {
        band: pick_rf_band(index_at(answers, 0)),
    }
}

fn assemble_channel_bandwidth(answers: &[Answer]) -> (r: MfgCmd)
    requires
        answers@.len() == 1,
        forall|i: int|
            0 <= i < 1 ==> #[trigger] fits(spec_form(CommandChoice::ChannelBandwidth, false)[i], answers@[i]),
    ensures
        r@ == assemble(CommandChoice::ChannelBandwidth, answers@),
{
    let ghost f = spec_form(CommandChoice::ChannelBandwidth, false);
    proof {
    }
    MfgCmd::ChannelBandwidth {
        bandwidth: pick_bandwidth(index_at(answers, 0)),
    }
}

fn assemble_rf_channel(answers: &[Answer]) -> (r: MfgCmd)
    requires
        answers@.len() == 1,
        forall|i: int|
            0 <= i < 1 ==> #[trigger] fits(spec_form(CommandChoice::RfChannel, false)[i], answers@[i]),
    ensures
        r@ == assemble(CommandChoice::RfChannel, answers@),
{
    let ghost f = spec_form(CommandChoice::RfChannel, false);
    proof {
        assert(fits(f[0], answers@[0]));
    }
    MfgCmd::RfChannel {
        channel: num_at(answers, 0) as u16,
    }
}

fn assemble_tx_power(answers: &[Answer]) -> (r: MfgCmd)
    requires
        answers@.len() == 3,
        forall|i: int|
            0 <= i < 3 ==> #[trigger] fits(spec_form(CommandChoice::TxPower, false)[i], answers@[i]),
    ensures
        r@ == assemble(CommandChoice::TxPower, answers@),
{
    let ghost f = spec_form(CommandChoice::TxPower, false);
    proof {
        assert(fits(f[0], answers@[0]));
    }
    MfgCmd::TxPower {
        power_dbm: num_at(answers, 0) as i32,
        modulation: pick_modulation(index_at(answers, 1)),
        path: pick_tx_path(index_at(answers, 2)),
    }
}

fn assemble_tx_continuous(answers: &[Answer]) -> (r: MfgCmd)
    requires
        answers@.len() == 6,
        forall|i: int|
            0 <= i < 6 ==> #[trigger] fits(spec_form(CommandChoice::TxContinuous, false)[i], answers@[i]),
    ensures
        r@ == assemble(CommandChoice::TxContinuous, answers@),
{
    let ghost f = spec_form(CommandChoice::TxContinuous, false);
    proof {
        assert(fits(f[2], answers@[2]));
        assert(fits(f[5], answers@[5]));
    }
    MfgCmd::TxContinuous {
        enable: flag_at(answers, 0),
        continuous_wave_mode: flag_at(answers, 1),
        payload_pattern: num_at(answers, 2) as u32,
        cs_mode: flag_at(answers, 3),
        active_subchannel: pick_active_subchannel(index_at(answers, 4)),
        tx_rate: num_at(answers, 5) as u32,
    }
}

#[verifier::rlimit(50)]
fn assemble_tx_frame(answers: &[Answer]) -> (r: MfgCmd)
    requires
        answers@.len() == 22,
        forall|i: int|
            0 <= i < 22 ==> #[trigger] fits(spec_form(CommandChoice::TxFrame, false)[i], answers@[i]),
    ensures
        r@ == assemble(CommandChoice::TxFrame, answers@),
{
    let ghost f = spec_form(CommandChoice::TxFrame, false);
    proof {
        assert(fits(f[1], answers@[1]));
        assert(fits(f[2], answers@[2]));
        assert(fits(f[3], answers@[3]));
        assert(fits(f[5], answers@[5]));
        assert(fits(f[14], answers@[14]));
        assert(fits(f[15], answers@[15]));
        assert(fits(f[16], answers@[16]));
        assert(fits(f[17], answers@[17]));
        assert(fits(f[18], answers@[18]));
        assert(fits(f[19], answers@[19]));
        assert(fits(f[20], answers@[20]));
        assert(fits(f[21], answers@[21]));
    }
    MfgCmd::TxFrame {
        enable: flag_at(answers, 0),
        tx_rate: num_at(answers, 1) as u32,
        payload_pattern: num_at(answers, 2) as u32,
        payload_length: num_at(answers, 3) as u32,
        adjust_burst_sifs_gap: flag_at(answers, 4),
        adjust_sifs_us: num_at(answers, 5) as u32,
        short_preamble: flag_at(answers, 6),
        active_subchannel: pick_active_subchannel(index_at(answers, 7)),
        short_gi: flag_at(answers, 8),
        adv_coding: flag_at(answers, 9),
        beamforming: flag_at(answers, 10),
        greenfield_mode: flag_at(answers, 11),
        stbc: flag_at(answers, 12),
        signal_bw: pick_signal_bw(index_at(answers, 13)),
        num_pkt: num_at(answers, 14) as i32,
        max_pkt_ext: num_at(answers, 15) as i32,
        beam_change: num_at(answers, 16) as i32,
        dcm: num_at(answers, 17) as i32,
        doppler: num_at(answers, 18) as i32,
        midamble_period: num_at(answers, 19) as i32,
        q_num: num_at(answers, 20) as i32,
        bssid: mac_at(answers, 21),
    }
}

#[verifier::rlimit(50)]
fn assemble_trigger_frame(answers: &[Answer]) -> (r: MfgCmd)
    requires
        answers@.len() == 33,
        forall|i: int|
            0 <= i < 33 ==> #[trigger] fits(spec_form(CommandChoice::TriggerFrame, false)[i], answers@[i]),
    ensures
        r@ == assemble(CommandChoice::TriggerFrame, answers@),
{
    let ghost f = spec_form(CommandChoice::TriggerFrame, false);
    proof {
        assert(fits(f[2], answers@[2]));
        assert(fits(f[3], answers@[3]));
        assert(fits(f[4], answers@[4]));
        assert(fits(f[5], answers@[5]));
        assert(fits(f[6], answers@[6]));
        assert(fits(f[10], answers@[10]));
        assert(fits(f[15], answers@[15]));
        assert(fits(f[16], answers@[16]));
        assert(fits(f[18], answers@[18]));
        assert(fits(f[20], answers@[20]));
        assert(fits(f[21], answers@[21]));
        assert(fits(f[23], answers@[23]));
        assert(fits(f[25], answers@[25]));
        assert(fits(f[28], answers@[28]));
        assert(fits(f[29], answers@[29]));
        assert(fits(f[30], answers@[30]));
        assert(fits(f[32], answers@[32]));
    }
    MfgCmd::TriggerFrame {
        enable: flag_at(answers, 0),
        standalone_hetb: pick_standalone_hetb(index_at(answers, 1)),
        frame_ctrl_type: num_at(answers, 2) as u16,
        frame_ctrl_subtype: num_at(answers, 3) as u16,
        frame_duration: num_at(answers, 4) as u16,
        trigger_type: num_at(answers, 5) as u64,
        ul_len: num_at(answers, 6) as u64,
        more_tf: flag_at(answers, 7),
        cs_required: flag_at(answers, 8),
        ul_bw: pick_ul_bw(index_at(answers, 9)),
        ltf_type: num_at(answers, 10) as u64,
        ltf_mode: flag_at(answers, 11),
        ltf_symbol: pick_ltf_symbol(index_at(answers, 12)),
        ul_stbc: flag_at(answers, 13),
        ldpc_ess: flag_at(answers, 14),
        ap_tx_pwr: num_at(answers, 15) as u64,
        pre_fec_pad_fct: num_at(answers, 16) as u64,
        pe_disambig: flag_at(answers, 17),
        spatial_reuse: num_at(answers, 18) as u64,
        doppler: flag_at(answers, 19),
        he_sig2: num_at(answers, 20) as u64,
        aid12: num_at(answers, 21) as u32,
        ru_alloc_reg: flag_at(answers, 22),
        ru_alloc: num_at(answers, 23) as u32,
        ul_coding_type: flag_at(answers, 24),
        ul_mcs: num_at(answers, 25) as u32,
        ul_dcm: flag_at(answers, 26),
        ss_alloc: pick_ss_alloc(index_at(answers, 27)),
        ul_target_rssi: num_at(answers, 28) as u8,
        mpdu_mu_sf: num_at(answers, 29) as u8,
        tid_al: num_at(answers, 30) as u8,
        ac_pl: flag_at(answers, 31),
        pref_ac: num_at(answers, 32) as u8,
    }
}

fn assemble_he_tb_tx(answers: &[Answer]) -> (r: MfgCmd)
    requires
        answers@.len() == 5,
        forall|i: int|
            0 <= i < 5 ==> #[trigger] fits(spec_form(CommandChoice::HeTbTx, false)[i], answers@[i]),
    ensures
        r@ == assemble(CommandChoice::HeTbTx, answers@),
{
    let ghost f = spec_form(CommandChoice::HeTbTx, false);
    proof {
        assert(fits(f[1], answers@[1]));
        assert(fits(f[2], answers@[2]));
        assert(fits(f[3], answers@[3]));
        assert(fits(f[4], answers@[4]));
    }
    MfgCmd::HeTbTx {
        enable: flag_at(answers, 0),
        qnum: num_at(answers, 1) as u16,
        aid: num_at(answers, 2) as u16,
        axq0_mu_timer: num_at(answers, 3) as u16,
        tx_pwr: num_at(answers, 4) as i16,
    }
}

fn assemble_otp_cal_data(answers: &[Answer]) -> (r: MfgCmd)
    requires
        answers_fit(CommandChoice::OtpCalData, answers@),
    ensures
        r@ == assemble(CommandChoice::OtpCalData, answers@),
{
    let ghost f = form_of(CommandChoice::OtpCalData, answers@);
    let write = flag_at(answers, 0);
    let cal_data = if write {
        assert(fits(f[1], answers@[1]));
        data_at(answers, 1)
    } else {
        Vec::new()
    };
    MfgCmd::OtpCalData { write, cal_data }
}

fn assemble_otp_mac_addr(answers: &[Answer]) -> (r: MfgCmd)
    requires
        answers_fit(CommandChoice::OtpMacAddr, answers@),
    ensures
        r@ == assemble(CommandChoice::OtpMacAddr, answers@),
{
    let ghost f = form_of(CommandChoice::OtpMacAddr, answers@);
    assert(fits(f[1], answers@[1]));
    MfgCmd::OtpMacAddr { write: flag_at(answers, 0), mac_addr: mac_at(answers, 1) }
}

/// The command that the answers to an entry's questions make.
pub fn build_command(choice: CommandChoice, answers: &[Answer]) -> (r: Result<MfgCmd, FormError>)
    ensures
        form_result(r) == spec_build(choice, answers@),
{
    if choice == CommandChoice::Exit {
        return Err(FormError::NotACommand);
    }
    let f = form(choice, first_yes(answers));
    if answers.len() != f.len() {
        return Err(FormError::AnswersDoNotFit);
    }
    let mut i: usize = 0;
    while i < f.len()
        invariant
            f@ == form_of(choice, answers@),
            answers@.len() == f@.len(),
            i <= f@.len(),
            forall|j: int| 0 <= j < i ==> #[trigger] fits(f@[j], answers@[j]),
        decreases f@.len() - i,
    {
        if !answer_fits(&f[i], &answers[i]) {
            return Err(FormError::AnswersDoNotFit);
        }
        i = i + 1;
    }
    assert(answers_fit(choice, answers@));
    let cmd = match choice {
        CommandChoice::RfTestMode => assemble_rf_test_mode(answers),
        CommandChoice::TxAntenna => assemble_tx_antenna(answers),
        CommandChoice::RxAntenna => assemble_rx_antenna(answers),
        CommandChoice::RadioMode => assemble_radio_mode(answers),
        CommandChoice::RfBand => assemble_rf_band(answers),
        CommandChoice::ChannelBandwidth => assemble_channel_bandwidth(answers),
        CommandChoice::RfChannel => assemble_rf_channel(answers),
        CommandChoice::GetAndResetPer => MfgCmd::GetAndResetPer {
            rx_total_packet_count: 0,
            rx_multi_broadcast_packet_count: 0,
            rx_frame_check_sequence_errors: 0,
        },
        CommandChoice::TxPower => assemble_tx_power(answers),
        CommandChoice::TxContinuous => assemble_tx_continuous(answers),
        CommandChoice::TxFrame => assemble_tx_frame(answers),
        CommandChoice::TriggerFrame => assemble_trigger_frame(answers),
        CommandChoice::HeTbTx => assemble_he_tb_tx(answers),
        CommandChoice::OtpCalData => assemble_otp_cal_data(answers),
        CommandChoice::OtpMacAddr => assemble_otp_mac_addr(answers),
        CommandChoice::Exit => MfgCmd::RfTestMode { enable: false },
    };
    Ok(cmd)
}

/// Whether `c` is an ASCII hexadecimal digit (`char::is_ascii_hexdigit`).
pub open spec fn is_hex_digit(c: char) -> bool {
    digit_value(c, 16) is Some
}

/// The hexadecimal digits of `s`, in order; everything else is dropped.
pub open spec fn hex_digits(s: Seq<char>) -> Seq<char> {
    s.filter(|c: char| is_hex_digit(c))
}

/// The bytes that the digit pairs of `d` spell.
pub open spec fn hex_bytes(d: Seq<char>) -> Seq<u8> {
    Seq::new(
        d.len() / 2,
        |i: int|
            (digit_value(d[2 * i], 16)->Some_0 * 16 + digit_value(d[2 * i + 1], 16)->Some_0) as u8,
    )
}

/// Why hexadecimal input was rejected.
#[derive(Debug, Clone, Copy, PartialEq, Eq, Structural)]
pub enum HexDataError {
    /// The input holds no hexadecimal digit.
    Empty,
    /// The input holds an odd number of hexadecimal digits.
    OddDigits,
    /// The input spells `len` bytes, more than `max`.
    TooLong { len: usize, max: usize },
}

/// The bytes that the hexadecimal digits of `s` spell, two digits a byte,
/// every other character ignored (so `aa55ff00` and `aa:55:ff:00` are the
/// same); at most `max_len` bytes.
pub open spec fn spec_parse_hex_data(s: Seq<char>, max_len: usize) -> Result<Seq<u8>, HexDataError> {
    let d = hex_digits(s);
    if d.len() == 0 {
        Err(HexDataError::Empty)
    } else if d.len() % 2 != 0 {
        Err(HexDataError::OddDigits)
    } else if d.len() / 2 > max_len {
        Err(HexDataError::TooLong { len: (d.len() / 2) as usize, max: max_len })
    } else {
        Ok(hex_bytes(d))
    }
}

/// The model of a hex data result.
pub open spec fn hex_result(r: Result<Vec<u8>, HexDataError>) -> Result<Seq<u8>, HexDataError> {
    match r {
        Ok(v) => Ok(v@),
        Err(e) => Err(e),
    }
}

/// Read hexadecimal bytes such as `aa55ff00` or `aa:55:ff:00`, at most
/// `max_len` of them.
pub fn parse_hex_data(input: &str, max_len: usize) -> (r: Result<Vec<u8>, HexDataError>)
    ensures
        hex_result(r) == spec_parse_hex_data(input@, max_len),
{
    let s = chars_of(input);
    let mut d: Vec<char> = Vec::new();
    let mut i: usize = 0;
    assert(s@.take(0) =~= Seq::<char>::empty());
    proof {
        reveal(Seq::filter);
    }
    while i < s.len()
        invariant
            i <= s@.len(),
            d@ == hex_digits(s@.take(i as int)),
            d@.len() <= i,
        decreases s@.len() - i,
    {
        proof {
            reveal(Seq::filter);
            assert(s@.take(i + 1).drop_last() =~= s@.take(i as int));
        }
        if digit(s[i], 16).is_some() {
            d.push(s[i]);
        }
        i = i + 1;
    }
    assert(s@.take(i as int) =~= s@);
    let n = d.len();
    if n == 0 {
        return Err(HexDataError::Empty);
    }
    if n % 2 != 0 {
        return Err(HexDataError::OddDigits);
    }
    if n / 2 > max_len {
        return Err(HexDataError::TooLong { len: n / 2, max: max_len });
    }
    proof {
        lemma_filter_digits(s@);
    }
    let mut bytes: Vec<u8> = Vec::new();
    let mut k: usize = 0;
    while k < n / 2
        invariant
            n == d@.len(),
            n % 2 == 0,
            k <= n / 2,
            forall|j: int| 0 <= j < n ==> is_hex_digit(#[trigger] d@[j]),
            bytes@ == hex_bytes(d@).take(k as int),
        decreases n / 2 - k,
    {
        assert(is_hex_digit(d@[2 * k as int]));
        assert(is_hex_digit(d@[2 * k + 1]));
        let hi = digit(d[2 * k], 16).unwrap();
        let lo = digit(d[2 * k + 1], 16).unwrap();
        bytes.push((hi * 16 + lo) as u8);
        k = k + 1;
        assert(bytes@ =~= hex_bytes(d@).take(k as int));
    }
    assert(hex_bytes(d@).take(k as int) =~= hex_bytes(d@));
    Ok(bytes)
}

/// Every character of `hex_digits(s)` is a hexadecimal digit.
pub proof fn lemma_filter_digits(s: Seq<char>)
    ensures
        forall|j: int| 0 <= j < hex_digits(s).len() ==> is_hex_digit(#[trigger] hex_digits(s)[j]),
{
    assert forall|j: int| 0 <= j < hex_digits(s).len() implies is_hex_digit(
        #[trigger] hex_digits(s)[j],
    ) by {
        s.lemma_filter_pred(|c: char| is_hex_digit(c), j);
    }
}

/// Answering every question that `next_question` asks, each with an answer
/// that fits it, until it asks none, makes a command from every entry but
/// `Exit`.
pub proof fn lemma_answered_form_builds(choice: CommandChoice, answers: Seq<Answer>)
    requires
        choice != CommandChoice::Exit,
        forall|i: int|
            0 <= i < answers.len() ==> (spec_next_question(choice, #[trigger] answers.take(i)) matches Some(
                q,
            ) && fits(q, answers[i])),
        spec_next_question(choice, answers) is None,
    ensures
        spec_build(choice, answers) is Ok,
{
    let f = form_of(choice, answers);
    let f0 = spec_form(choice, false);
    assert(f0.len() > 0 <==> f.len() > 0);
    assert(f.len() > 0 ==> f0[0] == f[0]);
    assert forall|i: int| 0 <= i < answers.len() implies i < f.len() && #[trigger] fits(
        f[i],
        answers[i],
    ) by {
        let t = answers.take(i);
        assert(spec_next_question(choice, t) is Some);
        if i > 0 {
            assert(t[0] == answers[0]);
            assert(form_of(choice, t) == f);
        } else {
            assert(t.len() == 0);
            assert(form_of(choice, t) == f0);
        }
    }
    if answers.len() > 0 {
        let last = answers.len() - 1;
        assert(fits(f[last], answers[last]));
    }
}

proof fn lemma_hex_digits_idempotent(s: Seq<char>)
    ensures
        hex_digits(hex_digits(s)) == hex_digits(s),
    decreases s.len(),
{
    reveal(Seq::filter);
    if s.len() > 0 {
        lemma_hex_digits_idempotent(s.drop_last());
        let d = hex_digits(s.drop_last());
        if is_hex_digit(s.last()) {
            assert(d.push(s.last()).drop_last() =~= d);
        }
    }
}

/// Only the hexadecimal digits of the input matter: `aa55ff00` and
/// `aa:55:ff:00` read the same.
pub proof fn lemma_hex_data_ignores_separators(s: Seq<char>, max_len: usize)
    ensures
        spec_parse_hex_data(hex_digits(s), max_len) == spec_parse_hex_data(s, max_len),
{
    lemma_hex_digits_idempotent(s);
}

/// Whether `cmd` is the command that the menu entry `choice` names.
pub open spec fn names_command(choice: CommandChoice, cmd: MfgCmdModel) -> bool {
    match (choice, cmd) {
        (CommandChoice::RfTestMode, MfgCmdModel::RfTestMode { .. }) => true,
        (CommandChoice::TxAntenna, MfgCmdModel::TxAntenna { .. }) => true,
        (CommandChoice::RxAntenna, MfgCmdModel::RxAntenna { .. }) => true,
        (CommandChoice::RadioMode, MfgCmdModel::RadioMode { .. }) => true,
        (CommandChoice::RfBand, MfgCmdModel::RfBand { .. }) => true,
        (CommandChoice::ChannelBandwidth, MfgCmdModel::ChannelBandwidth { .. }) => true,
        (CommandChoice::RfChannel, MfgCmdModel::RfChannel { .. }) => true,
        (CommandChoice::GetAndResetPer, MfgCmdModel::GetAndResetPer { .. }) => true,
        (CommandChoice::TxPower, MfgCmdModel::TxPower { .. }) => true,
        (CommandChoice::TxContinuous, MfgCmdModel::TxContinuous { .. }) => true,
        (CommandChoice::TxFrame, MfgCmdModel::TxFrame { .. }) => true,
        (CommandChoice::TriggerFrame, MfgCmdModel::TriggerFrame { .. }) => true,
        (CommandChoice::HeTbTx, MfgCmdModel::HeTbTx { .. }) => true,
        (CommandChoice::OtpCalData, MfgCmdModel::OtpCalData { .. }) => true,
        (CommandChoice::OtpMacAddr, MfgCmdModel::OtpMacAddr { .. }) => true,
        _ => false,
    }
}

/// Every entry but `Exit` builds the command it names from answers that fit
/// its questions, and no command from answers that do not; `Exit` builds
/// none.
pub proof fn lemma_build_names_command(choice: CommandChoice, answers: Seq<Answer>)
    ensures
        spec_build(choice, answers) matches Ok(c) ==> names_command(choice, c),
        choice != CommandChoice::Exit ==> (spec_build(choice, answers) is Ok <==> answers_fit(
            choice,
            answers,
        )),
        choice != CommandChoice::Exit && !answers_fit(choice, answers) ==> spec_build(choice, answers)
            == Err::<MfgCmdModel, FormError>(FormError::AnswersDoNotFit),
        choice == CommandChoice::Exit ==> spec_build(choice, answers) == Err::<MfgCmdModel, FormError>(
            FormError::NotACommand,
        ),
{
}

/// Building `RfTestMode` from its answers: each field comes from the answer to the
/// question that names it, and a list answer gives the option whose label
/// is shown at the chosen position.
pub proof fn lemma_rf_test_mode_answers(a: Seq<Answer>)
    ensures
        spec_build(CommandChoice::RfTestMode, a) matches Ok(MfgCmdModel::RfTestMode { enable }) ==> {
            let f = form_of(CommandChoice::RfTestMode, a);
            &&& (f[0] matches Question::Confirm { message, .. } && message == "Enable RF test mode?") && a[0] == Answer::Flag(enable)
        },
{
    if spec_build(CommandChoice::RfTestMode, a) is Ok {
        let f = form_of(CommandChoice::RfTestMode, a);
        assert(fits(f[0], a[0]));
    }
}

/// Building `TxAntenna` from its answers: each field comes from the answer to the
/// question that names it, and a list answer gives the option whose label
/// is shown at the chosen position.
pub proof fn lemma_tx_antenna_answers(a: Seq<Answer>)
    ensures
        spec_build(CommandChoice::TxAntenna, a) matches Ok(MfgCmdModel::TxAntenna { mode }) ==> {
            let f = form_of(CommandChoice::TxAntenna, a);
            &&& (f[0] matches Question::Select { message, list } && message == "TX antenna mode" && list == Selection::Antenna) && (a[0] matches Answer::Index(i) && {
                let labels = Selection::Antenna.spec_labels();
                i < labels.len() && ((labels[i as int] == "A" && mode == AntennaMode::A) || (labels[i as int] == "B" && mode == AntennaMode::B) || (labels[i as int] == "AB" && mode == AntennaMode::AB))
            })
        },
{
    if spec_build(CommandChoice::TxAntenna, a) is Ok {
        let f = form_of(CommandChoice::TxAntenna, a);
        assert(fits(f[0], a[0]));
    }
}

/// Building `RxAntenna` from its answers: each field comes from the answer to the
/// question that names it, and a list answer gives the option whose label
/// is shown at the chosen position.
pub proof fn lemma_rx_antenna_answers(a: Seq<Answer>)
    ensures
        spec_build(CommandChoice::RxAntenna, a) matches Ok(MfgCmdModel::RxAntenna { mode }) ==> {
            let f = form_of(CommandChoice::RxAntenna, a);
            &&& (f[0] matches Question::Select { message, list } && message == "RX antenna mode" && list == Selection::Antenna) && (a[0] matches Answer::Index(i) && {
                let labels = Selection::Antenna.spec_labels();
                i < labels.len() && ((labels[i as int] == "A" && mode == AntennaMode::A) || (labels[i as int] == "B" && mode == AntennaMode::B) || (labels[i as int] == "AB" && mode == AntennaMode::AB))
            })
        },
{
    if spec_build(CommandChoice::RxAntenna, a) is Ok {
        let f = form_of(CommandChoice::RxAntenna, a);
        assert(fits(f[0], a[0]));
    }
}

/// Building `RadioMode` from its answers: each field comes from the answer to the
/// question that names it, and a list answer gives the option whose label
/// is shown at the chosen position.
pub proof fn lemma_radio_mode_answers(a: Seq<Answer>)
    ensures
        spec_build(CommandChoice::RadioMode, a) matches Ok(MfgCmdModel::RadioMode { radio0, radio1 }) ==> {
            let f = form_of(CommandChoice::RadioMode, a);
            &&& (f[0] matches Question::Number { message, .. } && message == "radio0") && (a[0] matches Answer::Number(v) && radio0 == v)
            &&& (f[1] matches Question::Number { message, .. } && message == "radio1") && (a[1] matches Answer::Number(v) && radio1 == v)
        },
{
    if spec_build(CommandChoice::RadioMode, a) is Ok {
        let f = form_of(CommandChoice::RadioMode, a);
        assert(fits(f[0], a[0]));
        assert(fits(f[1], a[1]));
    }
}

/// Building `RfBand` from its answers: each field comes from the answer to the
/// question that names it, and a list answer gives the option whose label
/// is shown at the chosen position.
pub proof fn lemma_rf_band_answers(a: Seq<Answer>)
    ensures
        spec_build(CommandChoice::RfBand, a) matches Ok(MfgCmdModel::RfBand { band }) ==> {
            let f = form_of(CommandChoice::RfBand, a);
            &&& (f[0] matches Question::Select { message, list } && message == "RF band" && list == Selection::RfBand) && (a[0] matches Answer::Index(i) && {
                let labels = Selection::RfBand.spec_labels();
                i < labels.len() && ((labels[i as int] == "2.4 GHz" && band == RfBand::Ghz2_4) || (labels[i as int] == "5 GHz" && band == RfBand::Ghz5))
            })
        },
{
    if spec_build(CommandChoice::RfBand, a) is Ok {
        let f = form_of(CommandChoice::RfBand, a);
        assert(fits(f[0], a[0]));
    }
}

/// Building `ChannelBandwidth` from its answers: each field comes from the answer to the
/// question that names it, and a list answer gives the option whose label
/// is shown at the chosen position.
pub proof fn lemma_channel_bandwidth_answers(a: Seq<Answer>)
    ensures
        spec_build(CommandChoice::ChannelBandwidth, a) matches Ok(MfgCmdModel::ChannelBandwidth { bandwidth }) ==> {
            let f = form_of(CommandChoice::ChannelBandwidth, a);
            &&& (f[0] matches Question::Select { message, list } && message == "Channel bandwidth" && list == Selection::Bandwidth) && (a[0] matches Answer::Index(i) && {
                let labels = Selection::Bandwidth.spec_labels();
                i < labels.len() && ((labels[i as int] == "20 MHz" && bandwidth == ChannelBandwidth::Bw20) || (labels[i as int] == "40 MHz" && bandwidth == ChannelBandwidth::Bw40) || (labels[i as int] == "80 MHz" && bandwidth == ChannelBandwidth::Bw80))
            })
        },
{
    if spec_build(CommandChoice::ChannelBandwidth, a) is Ok {
        let f = form_of(CommandChoice::ChannelBandwidth, a);
        assert(fits(f[0], a[0]));
    }
}

/// Building `RfChannel` from its answers: each field comes from the answer to the
/// question that names it, and a list answer gives the option whose label
/// is shown at the chosen position.
pub proof fn lemma_rf_channel_answers(a: Seq<Answer>)
    ensures
        spec_build(CommandChoice::RfChannel, a) matches Ok(MfgCmdModel::RfChannel { channel }) ==> {
            let f = form_of(CommandChoice::RfChannel, a);
            &&& (f[0] matches Question::Number { message, .. } && message == "RF channel") && (a[0] matches Answer::Number(v) && channel == v)
        },
{
    if spec_build(CommandChoice::RfChannel, a) is Ok {
        let f = form_of(CommandChoice::RfChannel, a);
        assert(fits(f[0], a[0]));
    }
}

/// Building `TxPower` from its answers: each field comes from the answer to the
/// question that names it, and a list answer gives the option whose label
/// is shown at the chosen position.
pub proof fn lemma_tx_power_answers(a: Seq<Answer>)
    ensures
        spec_build(CommandChoice::TxPower, a) matches Ok(MfgCmdModel::TxPower { power_dbm, modulation, path }) ==> {
            let f = form_of(CommandChoice::TxPower, a);
            &&& (f[0] matches Question::Number { message, .. } && message == "TX power (dBm)") && (a[0] matches Answer::Number(v) && power_dbm == v)
            &&& (f[1] matches Question::Select { message, list } && message == "Modulation" && list == Selection::Modulation) && (a[1] matches Answer::Index(i) && {
                let labels = Selection::Modulation.spec_labels();
                i < labels.len() && ((labels[i as int] == "CCK" && modulation == Modulation::Cck) || (labels[i as int] == "OFDM" && modulation == Modulation::Ofdm) || (labels[i as int] == "MCS" && modulation == Modulation::Mcs))
            })
            &&& (f[2] matches Question::Select { message, list } && message == "TX path" && list == Selection::TxPath) && (a[2] matches Answer::Index(i) && {
                let labels = Selection::TxPath.spec_labels();
                i < labels.len() && ((labels[i as int] == "A" && path == TxPathId::A) || (labels[i as int] == "B" && path == TxPathId::B) || (labels[i as int] == "AB" && path == TxPathId::AB))
            })
        },
{
    if spec_build(CommandChoice::TxPower, a) is Ok {
        let f = form_of(CommandChoice::TxPower, a);
        assert(fits(f[0], a[0]));
        assert(fits(f[1], a[1]));
        assert(fits(f[2], a[2]));
    }
}

/// Building `TxContinuous` from its answers: each field comes from the answer to the
/// question that names it, and a list answer gives the option whose label
/// is shown at the chosen position.
pub proof fn lemma_tx_continuous_answers(a: Seq<Answer>)
    ensures
        spec_build(CommandChoice::TxContinuous, a) matches Ok(MfgCmdModel::TxContinuous { enable, continuous_wave_mode, payload_pattern, cs_mode, active_subchannel, tx_rate }) ==> {
            let f = form_of(CommandChoice::TxContinuous, a);
            &&& (f[0] matches Question::Confirm { message, .. } && message == "Start transmit?") && a[0] == Answer::Flag(enable)
            &&& (f[1] matches Question::Confirm { message, .. } && message == "Enable continuous wave mode?") && a[1] == Answer::Flag(continuous_wave_mode)
            &&& (f[2] matches Question::Number { message, .. } && message == "Payload pattern") && (a[2] matches Answer::Number(v) && payload_pattern == v)
            &&& (f[3] matches Question::Confirm { message, .. } && message == "Enable carrier suppression mode?") && a[3] == Answer::Flag(cs_mode)
            &&& (f[4] matches Question::Select { message, list } && message == "Active subchannel" && list == Selection::ActiveSubchannel) && (a[4] matches Answer::Index(i) && {
                let labels = Selection::ActiveSubchannel.spec_labels();
                i < labels.len() && ((labels[i as int] == "Lower" && active_subchannel == ActiveSubchannel::Lower) || (labels[i as int] == "Upper" && active_subchannel == ActiveSubchannel::Upper) || (labels[i as int] == "Both" && active_subchannel == ActiveSubchannel::Both))
            })
            &&& (f[5] matches Question::Number { message, .. } && message == "TX rate") && (a[5] matches Answer::Number(v) && tx_rate == v)
        },
{
    if spec_build(CommandChoice::TxContinuous, a) is Ok {
        let f = form_of(CommandChoice::TxContinuous, a);
        assert(fits(f[0], a[0]));
        assert(fits(f[1], a[1]));
        assert(fits(f[2], a[2]));
        assert(fits(f[3], a[3]));
        assert(fits(f[4], a[4]));
        assert(fits(f[5], a[5]));
    }
}

/// Building `TxFrame` from its answers: each field comes from the answer to the
/// question that names it, and a list answer gives the option whose label
/// is shown at the chosen position.
#[verifier::rlimit(60)]
pub proof fn lemma_tx_frame_answers(a: Seq<Answer>)
    ensures
        spec_build(CommandChoice::TxFrame, a) matches Ok(MfgCmdModel::TxFrame { enable, tx_rate, payload_pattern, payload_length, adjust_burst_sifs_gap, adjust_sifs_us, short_preamble, active_subchannel, short_gi, adv_coding, beamforming, greenfield_mode, stbc, signal_bw, num_pkt, max_pkt_ext, beam_change, dcm, doppler, midamble_period, q_num, bssid }) ==> {
            let f = form_of(CommandChoice::TxFrame, a);
            &&& (f[0] matches Question::Confirm { message, .. } && message == "Start transmit?") && a[0] == Answer::Flag(enable)
            &&& (f[1] matches Question::Number { message, .. } && message == "TX rate") && (a[1] matches Answer::Number(v) && tx_rate == v)
            &&& (f[2] matches Question::Number { message, .. } && message == "Payload pattern") && (a[2] matches Answer::Number(v) && payload_pattern == v)
            &&& (f[3] matches Question::Number { message, .. } && message == "Payload length") && (a[3] matches Answer::Number(v) && payload_length == v)
            &&& (f[4] matches Question::Confirm { message, .. } && message == "Adjust burst SIFS gap?") && a[4] == Answer::Flag(adjust_burst_sifs_gap)
            &&& (f[5] matches Question::Number { message, .. } && message == "Adjust SIFS (us)") && (a[5] matches Answer::Number(v) && adjust_sifs_us == v)
            &&& (f[6] matches Question::Confirm { message, .. } && message == "Enable short preamble?") && a[6] == Answer::Flag(short_preamble)
            &&& (f[7] matches Question::Select { message, list } && message == "Active subchannel" && list == Selection::ActiveSubchannel) && (a[7] matches Answer::Index(i) && {
                let labels = Selection::ActiveSubchannel.spec_labels();
                i < labels.len() && ((labels[i as int] == "Lower" && active_subchannel == ActiveSubchannel::Lower) || (labels[i as int] == "Upper" && active_subchannel == ActiveSubchannel::Upper) || (labels[i as int] == "Both" && active_subchannel == ActiveSubchannel::Both))
            })
            &&& (f[8] matches Question::Confirm { message, .. } && message == "Enable short GI?") && a[8] == Answer::Flag(short_gi)
            &&& (f[9] matches Question::Confirm { message, .. } && message == "Enable advanced coding?") && a[9] == Answer::Flag(adv_coding)
            &&& (f[10] matches Question::Confirm { message, .. } && message == "Enable beamforming?") && a[10] == Answer::Flag(beamforming)
            &&& (f[11] matches Question::Confirm { message, .. } && message == "Enable greenfield mode?") && a[11] == Answer::Flag(greenfield_mode)
            &&& (f[12] matches Question::Confirm { message, .. } && message == "Enable STBC?") && a[12] == Answer::Flag(stbc)
            &&& (f[13] matches Question::Select { message, list } && message == "Signal BW" && list == Selection::SignalBandwidth) && (a[13] matches Answer::Index(i) && {
                let labels = Selection::SignalBandwidth.spec_labels();
                i < labels.len() && ((labels[i as int] == "Default" && signal_bw == SignalBandwidth::Default) || (labels[i as int] == "20 MHz" && signal_bw == SignalBandwidth::Bw20) || (labels[i as int] == "40 MHz" && signal_bw == SignalBandwidth::Bw40) || (labels[i as int] == "80 MHz" && signal_bw == SignalBandwidth::Bw80))
            })
            &&& (f[14] matches Question::Number { message, .. } && message == "Number of packets") && (a[14] matches Answer::Number(v) && num_pkt == v)
            &&& (f[15] matches Question::Number { message, .. } && message == "Max packet extension") && (a[15] matches Answer::Number(v) && max_pkt_ext == v)
            &&& (f[16] matches Question::Number { message, .. } && message == "Beam change") && (a[16] matches Answer::Number(v) && beam_change == v)
            &&& (f[17] matches Question::Number { message, .. } && message == "DCM") && (a[17] matches Answer::Number(v) && dcm == v)
            &&& (f[18] matches Question::Number { message, .. } && message == "Doppler") && (a[18] matches Answer::Number(v) && doppler == v)
            &&& (f[19] matches Question::Number { message, .. } && message == "Midamble period") && (a[19] matches Answer::Number(v) && midamble_period == v)
            &&& (f[20] matches Question::Number { message, .. } && message == "Queue number") && (a[20] matches Answer::Number(v) && q_num == v)
            &&& (f[21] matches Question::MacAddr { message, .. } && message == "BSSID") && (a[21] matches Answer::Mac(m) && bssid == m@)
        },
{
    if spec_build(CommandChoice::TxFrame, a) is Ok {
        let f = form_of(CommandChoice::TxFrame, a);
        assert(fits(f[0], a[0]));
        assert(fits(f[1], a[1]));
        assert(fits(f[2], a[2]));
        assert(fits(f[3], a[3]));
        assert(fits(f[4], a[4]));
        assert(fits(f[5], a[5]));
        assert(fits(f[6], a[6]));
        assert(fits(f[7], a[7]));
        assert(fits(f[8], a[8]));
        assert(fits(f[9], a[9]));
        assert(fits(f[10], a[10]));
        assert(fits(f[11], a[11]));
        assert(fits(f[12], a[12]));
        assert(fits(f[13], a[13]));
        assert(fits(f[14], a[14]));
        assert(fits(f[15], a[15]));
        assert(fits(f[16], a[16]));
        assert(fits(f[17], a[17]));
        assert(fits(f[18], a[18]));
        assert(fits(f[19], a[19]));
        assert(fits(f[20], a[20]));
        assert(fits(f[21], a[21]));
    }
}

/// Building `TriggerFrame` from its answers: each field comes from the answer to the
/// question that names it, and a list answer gives the option whose label
/// is shown at the chosen position.
#[verifier::rlimit(60)]
pub proof fn lemma_trigger_frame_answers(a: Seq<Answer>)
    ensures
        spec_build(CommandChoice::TriggerFrame, a) matches Ok(MfgCmdModel::TriggerFrame { enable, standalone_hetb, frame_ctrl_type, frame_ctrl_subtype, frame_duration, trigger_type, ul_len, more_tf, cs_required, ul_bw, ltf_type, ltf_mode, ltf_symbol, ul_stbc, ldpc_ess, ap_tx_pwr, pre_fec_pad_fct, pe_disambig, spatial_reuse, doppler, he_sig2, aid12, ru_alloc_reg, ru_alloc, ul_coding_type, ul_mcs, ul_dcm, ss_alloc, ul_target_rssi, mpdu_mu_sf, tid_al, ac_pl, pref_ac }) ==> {
            let f = form_of(CommandChoice::TriggerFrame, a);
            &&& (f[0] matches Question::Confirm { message, .. } && message == "Enable TX?") && a[0] == Answer::Flag(enable)
            &&& (f[1] matches Question::Select { message, list } && message == "Standalone HETB mode" && list == Selection::StandaloneHeTb) && (a[1] matches Answer::Index(i) && {
                let labels = Selection::StandaloneHeTb.spec_labels();
                i < labels.len() && ((labels[i as int] == "Disabled" && standalone_hetb == StandaloneHeTbMode::Disabled) || (labels[i as int] == "Trigger-based" && standalone_hetb == StandaloneHeTbMode::TriggerBased) || (labels[i as int] == "Standalone" && standalone_hetb == StandaloneHeTbMode::Standalone) || (labels[i as int] == "SU-OFDMA" && standalone_hetb == StandaloneHeTbMode::SuOfdma))
            })
            &&& (f[2] matches Question::Number { message, .. } && message == "Frame control type") && (a[2] matches Answer::Number(v) && frame_ctrl_type == v)
            &&& (f[3] matches Question::Number { message, .. } && message == "Frame control subtype") && (a[3] matches Answer::Number(v) && frame_ctrl_subtype == v)
            &&& (f[4] matches Question::Number { message, .. } && message == "Frame duration") && (a[4] matches Answer::Number(v) && frame_duration == v)
            &&& (f[5] matches Question::Number { message, .. } && message == "Trigger type") && (a[5] matches Answer::Number(v) && trigger_type == v)
            &&& (f[6] matches Question::Number { message, .. } && message == "UL length") && (a[6] matches Answer::Number(v) && ul_len == v)
            &&& (f[7] matches Question::Confirm { message, .. } && message == "More TF?") && a[7] == Answer::Flag(more_tf)
            &&& (f[8] matches Question::Confirm { message, .. } && message == "CS required?") && a[8] == Answer::Flag(cs_required)
            &&& (f[9] matches Question::Select { message, list } && message == "UL bandwidth" && list == Selection::UlBandwidth) && (a[9] matches Answer::Index(i) && {
                let labels = Selection::UlBandwidth.spec_labels();
                i < labels.len() && ((labels[i as int] == "20 MHz" && ul_bw == UlBandwidth::Bw20) || (labels[i as int] == "40 MHz" && ul_bw == UlBandwidth::Bw40) || (labels[i as int] == "80 MHz" && ul_bw == UlBandwidth::Bw80))
            })
            &&& (f[10] matches Question::Number { message, .. } && message == "LTF type") && (a[10] matches Answer::Number(v) && ltf_type == v)
            &&& (f[11] matches Question::Confirm { message, .. } && message == "Enable LTF mode?") && a[11] == Answer::Flag(ltf_mode)
            &&& (f[12] matches Question::Select { message, list } && message == "LTF symbol" && list == Selection::LtfSymbol) && (a[12] matches Answer::Index(i) && {
                let labels = Selection::LtfSymbol.spec_labels();
                i < labels.len() && ((labels[i as int] == "1x HELTF (1SS)" && ltf_symbol == LtfSymbol::OneXHELTF) || (labels[i as int] == "2x HELTF (2SS)" && ltf_symbol == LtfSymbol::TwoXHELTF))
            })
            &&& (f[13] matches Question::Confirm { message, .. } && message == "Enable UL STBC?") && a[13] == Answer::Flag(ul_stbc)
            &&& (f[14] matches Question::Confirm { message, .. } && message == "Enable LDPC ESS?") && a[14] == Answer::Flag(ldpc_ess)
            &&& (f[15] matches Question::Number { message, .. } && message == "AP TX power") && (a[15] matches Answer::Number(v) && ap_tx_pwr == v)
            &&& (f[16] matches Question::Number { message, .. } && message == "Pre-FEC pad factor") && (a[16] matches Answer::Number(v) && pre_fec_pad_fct == v)
            &&& (f[17] matches Question::Confirm { message, .. } && message == "Enable PE disambiguity?") && a[17] == Answer::Flag(pe_disambig)
            &&& (f[18] matches Question::Number { message, .. } && message == "Spatial reuse") && (a[18] matches Answer::Number(v) && spatial_reuse == v)
            &&& (f[19] matches Question::Confirm { message, .. } && message == "Enable doppler?") && a[19] == Answer::Flag(doppler)
            &&& (f[20] matches Question::Number { message, .. } && message == "HE-SIG2") && (a[20] matches Answer::Number(v) && he_sig2 == v)
            &&& (f[21] matches Question::Number { message, .. } && message == "AID12") && (a[21] matches Answer::Number(v) && aid12 == v)
            &&& (f[22] matches Question::Confirm { message, .. } && message == "Enable RU alloc reg?") && a[22] == Answer::Flag(ru_alloc_reg)
            &&& (f[23] matches Question::Number { message, .. } && message == "RU alloc") && (a[23] matches Answer::Number(v) && ru_alloc == v)
            &&& (f[24] matches Question::Confirm { message, .. } && message == "Enable UL coding type?") && a[24] == Answer::Flag(ul_coding_type)
            &&& (f[25] matches Question::Number { message, .. } && message == "UL MCS") && (a[25] matches Answer::Number(v) && ul_mcs == v)
            &&& (f[26] matches Question::Confirm { message, .. } && message == "Enable UL DCM?") && a[26] == Answer::Flag(ul_dcm)
            &&& (f[27] matches Question::Select { message, list } && message == "Spatial stream allocation" && list == Selection::SpatialStreams) && (a[27] matches Answer::Index(i) && {
                let labels = Selection::SpatialStreams.spec_labels();
                i < labels.len() && ((labels[i as int] == "1 SS" && ss_alloc == SpatialStreamAllocation::OneSS) || (labels[i as int] == "2 SS" && ss_alloc == SpatialStreamAllocation::TwoSS))
            })
            &&& (f[28] matches Question::Number { message, .. } && message == "UL target RSSI") && (a[28] matches Answer::Number(v) && ul_target_rssi == v)
            &&& (f[29] matches Question::Number { message, .. } && message == "MPDU MU SF") && (a[29] matches Answer::Number(v) && mpdu_mu_sf == v)
            &&& (f[30] matches Question::Number { message, .. } && message == "TID allocation") && (a[30] matches Answer::Number(v) && tid_al == v)
            &&& (f[31] matches Question::Confirm { message, .. } && message == "Enable AC policy?") && a[31] == Answer::Flag(ac_pl)
            &&& (f[32] matches Question::Number { message, .. } && message == "Preferred AC") && (a[32] matches Answer::Number(v) && pref_ac == v)
        },
{
    if spec_build(CommandChoice::TriggerFrame, a) is Ok {
        let f = form_of(CommandChoice::TriggerFrame, a);
        assert(fits(f[0], a[0]));
        assert(fits(f[1], a[1]));
        assert(fits(f[2], a[2]));
        assert(fits(f[3], a[3]));
        assert(fits(f[4], a[4]));
        assert(fits(f[5], a[5]));
        assert(fits(f[6], a[6]));
        assert(fits(f[7], a[7]));
        assert(fits(f[8], a[8]));
        assert(fits(f[9], a[9]));
        assert(fits(f[10], a[10]));
        assert(fits(f[11], a[11]));
        assert(fits(f[12], a[12]));
        assert(fits(f[13], a[13]));
        assert(fits(f[14], a[14]));
        assert(fits(f[15], a[15]));
        assert(fits(f[16], a[16]));
        assert(fits(f[17], a[17]));
        assert(fits(f[18], a[18]));
        assert(fits(f[19], a[19]));
        assert(fits(f[20], a[20]));
        assert(fits(f[21], a[21]));
        assert(fits(f[22], a[22]));
        assert(fits(f[23], a[23]));
        assert(fits(f[24], a[24]));
        assert(fits(f[25], a[25]));
        assert(fits(f[26], a[26]));
        assert(fits(f[27], a[27]));
        assert(fits(f[28], a[28]));
        assert(fits(f[29], a[29]));
        assert(fits(f[30], a[30]));
        assert(fits(f[31], a[31]));
        assert(fits(f[32], a[32]));
    }
}

/// Building `HeTbTx` from its answers: each field comes from the answer to the
/// question that names it, and a list answer gives the option whose label
/// is shown at the chosen position.
pub proof fn lemma_he_tb_tx_answers(a: Seq<Answer>)
    ensures
        spec_build(CommandChoice::HeTbTx, a) matches Ok(MfgCmdModel::HeTbTx { enable, qnum, aid, axq0_mu_timer, tx_pwr }) ==> {
            let f = form_of(CommandChoice::HeTbTx, a);
            &&& (f[0] matches Question::Confirm { message, .. } && message == "Enable trigger response?") && a[0] == Answer::Flag(enable)
            &&& (f[1] matches Question::Number { message, .. } && message == "Queue number") && (a[1] matches Answer::Number(v) && qnum == v)
            &&& (f[2] matches Question::Number { message, .. } && message == "AID") && (a[2] matches Answer::Number(v) && aid == v)
            &&& (f[3] matches Question::Number { message, .. } && message == "AXQ0 MU timer") && (a[3] matches Answer::Number(v) && axq0_mu_timer == v)
            &&& (f[4] matches Question::Number { message, .. } && message == "TX power") && (a[4] matches Answer::Number(v) && tx_pwr == v)
        },
{
    if spec_build(CommandChoice::HeTbTx, a) is Ok {
        let f = form_of(CommandChoice::HeTbTx, a);
        assert(fits(f[0], a[0]));
        assert(fits(f[1], a[1]));
        assert(fits(f[2], a[2]));
        assert(fits(f[3], a[3]));
        assert(fits(f[4], a[4]));
    }
}

/// Building `OtpMacAddr` from its answers: each field comes from the answer to the
/// question that names it, and a list answer gives the option whose label
/// is shown at the chosen position.
pub proof fn lemma_otp_mac_addr_answers(a: Seq<Answer>)
    ensures
        spec_build(CommandChoice::OtpMacAddr, a) matches Ok(MfgCmdModel::OtpMacAddr { write, mac_addr }) ==> {
            let f = form_of(CommandChoice::OtpMacAddr, a);
            &&& (f[0] matches Question::Confirm { message, .. } && message == "Write OTP MAC address?") && a[0] == Answer::Flag(write)
            &&& (f[1] matches Question::MacAddr { message, .. } && message == "MAC address") && (a[1] matches Answer::Mac(m) && mac_addr == m@)
        },
{
    if spec_build(CommandChoice::OtpMacAddr, a) is Ok {
        let f = form_of(CommandChoice::OtpMacAddr, a);
        assert(fits(f[0], a[0]));
        assert(fits(f[1], a[1]));
    }
}

/// Building `OtpCalData` from its answers: the answer to "Write OTP
/// calibration data?" decides between a write, which carries the bytes
/// given to the hex data question that follows (at most `CAL_DATA_LEN`),
/// and a read, which asks nothing more and carries no data.
pub proof fn lemma_otp_cal_data_answers(a: Seq<Answer>)
    ensures
        spec_build(CommandChoice::OtpCalData, a) matches Ok(MfgCmdModel::OtpCalData { write, cal_data })
            ==> {
            let f = form_of(CommandChoice::OtpCalData, a);
            &&& (f[0] matches Question::Confirm { message, .. } && message
                == "Write OTP calibration data?") && a[0] == Answer::Flag(write)
            &&& write ==> (f[1] matches Question::HexData { max_len, .. } && max_len == CAL_DATA_LEN)
                && (a[1] matches Answer::Data(d) && cal_data == d@) && a.len() == 2
            &&& !write ==> cal_data.len() == 0 && a.len() == 1
        },
{
    if spec_build(CommandChoice::OtpCalData, a) is Ok {
        let f = form_of(CommandChoice::OtpCalData, a);
        assert(fits(f[0], a[0]));
        if f.len() > 1 {
            assert(fits(f[1], a[1]));
        }
    }
}

/// Every number question offers a default that fits its type, so that
/// accepting the default always answers it.
pub proof fn lemma_number_defaults_fit(choice: CommandChoice, write: bool, i: int)
    requires
        0 <= i < spec_form(choice, write).len(),
    ensures
        spec_form(choice, write)[i] matches Question::Number { kind, default, .. } ==> kind.lo() <= default
            <= kind.hi(),
{
}

} // verus!
