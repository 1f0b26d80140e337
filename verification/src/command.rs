//! The test mode commands, their encoding into host command buffers and the
//! decoding of the firmware's responses.

use vstd::prelude::*;
use vstd::std_specs::convert::TryFromSpecImpl;

use crate::ffi::{
    array_of, lemma_array_of, read_array, GenericCfg, HeTbTx, HostCmd, IeeetypesBasicHeTrigUserInfo,
    IeeetypesCtlBasicTrigHdr, IeeetypesFrameCtrl, IeeetypesHeTrigComInfo, IeeetypesHeTrigUserInfo,
    IeeetypesHeTrigUserInfoBits, IeeetypesHeTrigUserInfoRssi, MfgCmdHeader, MwifiexMfgCmd,
    OtpCalDataRdWr, OtpMacAddrRdWr, TxCont, TxFrame2, WireFormat, CAL_DATA_LEN, MAC_ADDR_LENGTH,
};

verus! {

/// MWIFIEX compatible WiFi cards.
///
/// Source: mlan_decl.h
#[derive(Debug, Clone, Copy, PartialEq, Eq, Structural)]
pub enum CardType {
    /// 8887 card type
    _8887,
    /// 8897 card type
    _8897,
    /// 8977 card type
    _8977,
    /// 8997 card type
    _8997,
    /// 8987 card type
    _8987,
    /// 9098 card type
    _9098,
    /// 9097 card type
    _9097,
    /// 8978 card type
    _8978,
    /// 9177 card type
    _9177,
    /// 8801 card type
    _8801,
    /// OWL card type
    IW624,
    /// Black bird card type
    AW693,
    /// IW610 card type
    IW610,
}

impl CardType {
    /// Cards whose firmware takes the TX power as an 11-bit value in 1/16 dBm
    /// steps (`PowerLevelToDUT11Bits`).
    pub open spec fn spec_scales_power(self) -> bool {
        match self {
            CardType::_9098 | CardType::_9097 | CardType::_9177 | CardType::IW624
            | CardType::AW693 | CardType::IW610 => true,
            _ => false,
        }
    }

    pub fn scales_power(self) -> (r: bool)
        ensures
            r == self.spec_scales_power(),
    {
        match self {
            CardType::_9098 | CardType::_9097 | CardType::_9177 | CardType::IW624
            | CardType::AW693 | CardType::IW610 => true,
            _ => false,
        }
    }
}

/// A number that names no selection of the enumeration it was meant for.
#[derive(Debug, Clone, Copy, PartialEq, Eq, Structural)]
pub enum InvalidValue {
    AntennaMode(u32),
    TxPathId(u32),
    RfBand(u32),
    ChannelBandwidth(u32),
    Modulation(u32),
    ActiveSubchannel(u32),
    SignalBandwidth(i32),
    StandaloneHeTbMode(u32),
    UlBandwidth(u64),
    LtfSymbol(u64),
    SpatialStreamAllocation(u32),
}

/// Antenna path selection for TX/RX antenna configuration.
///
/// Source: AN14114 "Set TX/RX antenna configuration".
#[derive(Debug, Clone, Copy, PartialEq, Eq, Structural)]
pub enum AntennaMode {
    /// Path A. Use for 1x1 devices.
    A,
    /// Path B
    B,
    /// Paths A and B
    AB,
}

impl AntennaMode {
    /// The numeric value that the firmware uses for the selection.
    pub open spec fn spec_value(self) -> u32 {
        match self {
            AntennaMode::A => 1,
            AntennaMode::B => 2,
            AntennaMode::AB => 3,
        }
    }

    /// The numeric value that the firmware uses for the selection.
    pub fn value(self) -> (r: u32)
        ensures
            r == self.spec_value(),
    {
        match self {
            AntennaMode::A => 1,
            AntennaMode::B => 2,
            AntennaMode::AB => 3,
        }
    }

    /// The selection whose value is `v`.
    pub open spec fn spec_from_value(v: u32) -> Result<Self, InvalidValue> {
        match v {
            1 => Ok(AntennaMode::A),
            2 => Ok(AntennaMode::B),
            3 => Ok(AntennaMode::AB),
            _ => Err(InvalidValue::AntennaMode(v)),
        }
    }

    /// The value of a selection converts back to the selection, and a value
    /// that converts to a selection is that selection's value.
    pub proof fn lemma_value_round_trip(self, v: u32)
        ensures
            Self::spec_from_value(self.spec_value() as u32) == Ok::<Self, InvalidValue>(self),
            Self::spec_from_value(v) matches Ok(e) ==> e.spec_value() as u32 == v,
    {
    }

}

impl TryFrom<u32> for AntennaMode {
    type Error = InvalidValue;

    fn try_from(v: u32) -> (r: Result<Self, InvalidValue>) {
        match v {
            1 => Ok(AntennaMode::A),
            2 => Ok(AntennaMode::B),
            3 => Ok(AntennaMode::AB),
            _ => Err(InvalidValue::AntennaMode(v)),
        }
    }
}

impl TryFromSpecImpl<u32> for AntennaMode {
    open spec fn obeys_try_from_spec() -> bool {
        true
    }

    open spec fn try_from_spec(v: u32) -> Result<Self, InvalidValue> {
        Self::spec_from_value(v)
    }
}

/// TX signal path selection for power configuration.
///
/// Source: AN14114 "Set TX power".
#[derive(Debug, Clone, Copy, PartialEq, Eq, Structural)]
pub enum TxPathId {
    /// Path A. Use for 1x1 devices.
    A,
    /// Path B
    B,
    /// Paths A and B
    AB,
}

impl TxPathId {
    /// The numeric value that the firmware uses for the selection.
    pub open spec fn spec_value(self) -> u32 {
        match self {
            TxPathId::A => 0,
            TxPathId::B => 1,
            TxPathId::AB => 2,
        }
    }

    /// The numeric value that the firmware uses for the selection.
    pub fn value(self) -> (r: u32)
        ensures
            r == self.spec_value(),
    {
        match self {
            TxPathId::A => 0,
            TxPathId::B => 1,
            TxPathId::AB => 2,
        }
    }

    /// The selection whose value is `v`.
    pub open spec fn spec_from_value(v: u32) -> Result<Self, InvalidValue> {
        match v {
            0 => Ok(TxPathId::A),
            1 => Ok(TxPathId::B),
            2 => Ok(TxPathId::AB),
            _ => Err(InvalidValue::TxPathId(v)),
        }
    }

    /// The value of a selection converts back to the selection, and a value
    /// that converts to a selection is that selection's value.
    pub proof fn lemma_value_round_trip(self, v: u32)
        ensures
            Self::spec_from_value(self.spec_value() as u32) == Ok::<Self, InvalidValue>(self),
            Self::spec_from_value(v) matches Ok(e) ==> e.spec_value() as u32 == v,
    {
    }

}

impl TryFrom<u32> for TxPathId {
    type Error = InvalidValue;

    fn try_from(v: u32) -> (r: Result<Self, InvalidValue>) {
        match v {
            0 => Ok(TxPathId::A),
            1 => Ok(TxPathId::B),
            2 => Ok(TxPathId::AB),
            _ => Err(InvalidValue::TxPathId(v)),
        }
    }
}

impl TryFromSpecImpl<u32> for TxPathId {
    open spec fn obeys_try_from_spec() -> bool {
        true
    }

    open spec fn try_from_spec(v: u32) -> Result<Self, InvalidValue> {
        Self::spec_from_value(v)
    }
}

/// RF band selection.
///
/// Source: AN14114 "Set the operating RF band".
#[derive(Debug, Clone, Copy, PartialEq, Eq, Structural)]
pub enum RfBand {
    /// 2.4 GHz band
    Ghz2_4,
    /// 5 GHz band
    Ghz5,
}

impl RfBand {
    /// The numeric value that the firmware uses for the selection.
    pub open spec fn spec_value(self) -> u32 {
        match self {
            RfBand::Ghz2_4 => 0,
            RfBand::Ghz5 => 1,
        }
    }

    /// The numeric value that the firmware uses for the selection.
    pub fn value(self) -> (r: u32)
        ensures
            r == self.spec_value(),
    {
        match self {
            RfBand::Ghz2_4 => 0,
            RfBand::Ghz5 => 1,
        }
    }

    /// The selection whose value is `v`.
    pub open spec fn spec_from_value(v: u32) -> Result<Self, InvalidValue> {
        match v {
            0 => Ok(RfBand::Ghz2_4),
            1 => Ok(RfBand::Ghz5),
            _ => Err(InvalidValue::RfBand(v)),
        }
    }

    /// The value of a selection converts back to the selection, and a value
    /// that converts to a selection is that selection's value.
    pub proof fn lemma_value_round_trip(self, v: u32)
        ensures
            Self::spec_from_value(self.spec_value() as u32) == Ok::<Self, InvalidValue>(self),
            Self::spec_from_value(v) matches Ok(e) ==> e.spec_value() as u32 == v,
    {
    }

}

impl TryFrom<u32> for RfBand {
    type Error = InvalidValue;

    fn try_from(v: u32) -> (r: Result<Self, InvalidValue>) {
        match v {
            0 => Ok(RfBand::Ghz2_4),
            1 => Ok(RfBand::Ghz5),
            _ => Err(InvalidValue::RfBand(v)),
        }
    }
}

impl TryFromSpecImpl<u32> for RfBand {
    open spec fn obeys_try_from_spec() -> bool {
        true
    }

    open spec fn try_from_spec(v: u32) -> Result<Self, InvalidValue> {
        Self::spec_from_value(v)
    }
}

/// Channel bandwidth selection.
///
/// Source: AN14114 "Set the channel bandwidth".
#[derive(Debug, Clone, Copy, PartialEq, Eq, Structural)]
pub enum ChannelBandwidth {
    /// 20 MHz
    Bw20,
    /// 40 MHz
    Bw40,
    /// 80 MHz
    Bw80,
}

impl ChannelBandwidth {
    /// The numeric value that the firmware uses for the selection.
    pub open spec fn spec_value(self) -> u32 {
        match self {
            ChannelBandwidth::Bw20 => 0,
            ChannelBandwidth::Bw40 => 1,
            ChannelBandwidth::Bw80 => 4,
        }
    }

    /// The numeric value that the firmware uses for the selection.
    pub fn value(self) -> (r: u32)
        ensures
            r == self.spec_value(),
    {
        match self {
            ChannelBandwidth::Bw20 => 0,
            ChannelBandwidth::Bw40 => 1,
            ChannelBandwidth::Bw80 => 4,
        }
    }

    /// The selection whose value is `v`.
    pub open spec fn spec_from_value(v: u32) -> Result<Self, InvalidValue> {
        match v {
            0 => Ok(ChannelBandwidth::Bw20),
            1 => Ok(ChannelBandwidth::Bw40),
            4 => Ok(ChannelBandwidth::Bw80),
            _ => Err(InvalidValue::ChannelBandwidth(v)),
        }
    }

    /// The value of a selection converts back to the selection, and a value
    /// that converts to a selection is that selection's value.
    pub proof fn lemma_value_round_trip(self, v: u32)
        ensures
            Self::spec_from_value(self.spec_value() as u32) == Ok::<Self, InvalidValue>(self),
            Self::spec_from_value(v) matches Ok(e) ==> e.spec_value() as u32 == v,
    {
    }

}

impl TryFrom<u32> for ChannelBandwidth {
    type Error = InvalidValue;

    fn try_from(v: u32) -> (r: Result<Self, InvalidValue>) {
        match v {
            0 => Ok(ChannelBandwidth::Bw20),
            1 => Ok(ChannelBandwidth::Bw40),
            4 => Ok(ChannelBandwidth::Bw80),
            _ => Err(InvalidValue::ChannelBandwidth(v)),
        }
    }
}

impl TryFromSpecImpl<u32> for ChannelBandwidth {
    open spec fn obeys_try_from_spec() -> bool {
        true
    }

    open spec fn try_from_spec(v: u32) -> Result<Self, InvalidValue> {
        Self::spec_from_value(v)
    }
}

/// Modulation selection for TX power configuration.
///
/// Source: AN14114 "Set TX power".
#[derive(Debug, Clone, Copy, PartialEq, Eq, Structural)]
pub enum Modulation {
    /// CCK modulation
    Cck,
    /// OFDM modulation
    Ofdm,
    /// MCS modulation
    Mcs,
}

impl Modulation {
    /// The numeric value that the firmware uses for the selection.
    pub open spec fn spec_value(self) -> u32 {
        match self {
            Modulation::Cck => 0,
            Modulation::Ofdm => 1,
            Modulation::Mcs => 2,
        }
    }

    /// The numeric value that the firmware uses for the selection.
    pub fn value(self) -> (r: u32)
        ensures
            r == self.spec_value(),
    {
        match self {
            Modulation::Cck => 0,
            Modulation::Ofdm => 1,
            Modulation::Mcs => 2,
        }
    }

    /// The selection whose value is `v`.
    pub open spec fn spec_from_value(v: u32) -> Result<Self, InvalidValue> {
        match v {
            0 => Ok(Modulation::Cck),
            1 => Ok(Modulation::Ofdm),
            2 => Ok(Modulation::Mcs),
            _ => Err(InvalidValue::Modulation(v)),
        }
    }

    /// The value of a selection converts back to the selection, and a value
    /// that converts to a selection is that selection's value.
    pub proof fn lemma_value_round_trip(self, v: u32)
        ensures
            Self::spec_from_value(self.spec_value() as u32) == Ok::<Self, InvalidValue>(self),
            Self::spec_from_value(v) matches Ok(e) ==> e.spec_value() as u32 == v,
    {
    }

}

impl TryFrom<u32> for Modulation {
    type Error = InvalidValue;

    fn try_from(v: u32) -> (r: Result<Self, InvalidValue>) {
        match v {
            0 => Ok(Modulation::Cck),
            1 => Ok(Modulation::Ofdm),
            2 => Ok(Modulation::Mcs),
            _ => Err(InvalidValue::Modulation(v)),
        }
    }
}

impl TryFromSpecImpl<u32> for Modulation {
    open spec fn obeys_try_from_spec() -> bool {
        true
    }

    open spec fn try_from_spec(v: u32) -> Result<Self, InvalidValue> {
        Self::spec_from_value(v)
    }
}

/// Active subchannel selection for TX parameters.
///
/// Source: AN14114 "Set TX continuous mode" and "Set TX frame".
#[derive(Debug, Clone, Copy, PartialEq, Eq, Structural)]
pub enum ActiveSubchannel {
    /// Lower subchannel
    Lower,
    /// Upper subchannel
    Upper,
    /// Both subchannels
    Both,
}

impl ActiveSubchannel {
    /// The numeric value that the firmware uses for the selection.
    pub open spec fn spec_value(self) -> u32 {
        match self {
            ActiveSubchannel::Lower => 0,
            ActiveSubchannel::Upper => 1,
            ActiveSubchannel::Both => 3,
        }
    }

    /// The numeric value that the firmware uses for the selection.
    pub fn value(self) -> (r: u32)
        ensures
            r == self.spec_value(),
    {
        match self {
            ActiveSubchannel::Lower => 0,
            ActiveSubchannel::Upper => 1,
            ActiveSubchannel::Both => 3,
        }
    }

    /// The selection whose value is `v`.
    pub open spec fn spec_from_value(v: u32) -> Result<Self, InvalidValue> {
        match v {
            0 => Ok(ActiveSubchannel::Lower),
            1 => Ok(ActiveSubchannel::Upper),
            3 => Ok(ActiveSubchannel::Both),
            _ => Err(InvalidValue::ActiveSubchannel(v)),
        }
    }

    /// The value of a selection converts back to the selection, and a value
    /// that converts to a selection is that selection's value.
    pub proof fn lemma_value_round_trip(self, v: u32)
        ensures
            Self::spec_from_value(self.spec_value() as u32) == Ok::<Self, InvalidValue>(self),
            Self::spec_from_value(v) matches Ok(e) ==> e.spec_value() as u32 == v,
    {
    }

}

impl TryFrom<u32> for ActiveSubchannel {
    type Error = InvalidValue;

    fn try_from(v: u32) -> (r: Result<Self, InvalidValue>) {
        match v {
            0 => Ok(ActiveSubchannel::Lower),
            1 => Ok(ActiveSubchannel::Upper),
            3 => Ok(ActiveSubchannel::Both),
            _ => Err(InvalidValue::ActiveSubchannel(v)),
        }
    }
}

impl TryFromSpecImpl<u32> for ActiveSubchannel {
    open spec fn obeys_try_from_spec() -> bool {
        true
    }

    open spec fn try_from_spec(v: u32) -> Result<Self, InvalidValue> {
        Self::spec_from_value(v)
    }
}

impl Default for ActiveSubchannel {
    fn default() -> (r: Self)
        ensures
            r == ActiveSubchannel::Lower,
    {
        ActiveSubchannel::Lower
    }
}

/// TX frame signal bandwidth selection.
///
/// Source: AN14114 "Set TX frame".
#[derive(Debug, Clone, Copy, PartialEq, Eq, Structural)]
pub enum SignalBandwidth {
    /// 20 MHz.
    Bw20,
    /// 40 MHz.
    Bw40,
    /// 80 MHz.
    Bw80,
    /// Firmware default.
    Default,
}

impl SignalBandwidth {
    /// The numeric value that the firmware uses for the selection.
    pub open spec fn spec_value(self) -> i32 {
        match self {
            SignalBandwidth::Bw20 => 0,
            SignalBandwidth::Bw40 => 1,
            SignalBandwidth::Bw80 => 4,
            SignalBandwidth::Default => -1i32,
        }
    }

    /// The numeric value that the firmware uses for the selection.
    pub fn value(self) -> (r: i32)
        ensures
            r == self.spec_value(),
    {
        match self {
            SignalBandwidth::Bw20 => 0,
            SignalBandwidth::Bw40 => 1,
            SignalBandwidth::Bw80 => 4,
            SignalBandwidth::Default => -1i32,
        }
    }

    /// The value as the 32 bits of the firmware field (two's complement).
    pub open spec fn spec_wire_value(self) -> u32 {
        match self {
            SignalBandwidth::Bw20 => 0,
            SignalBandwidth::Bw40 => 1,
            SignalBandwidth::Bw80 => 4,
            SignalBandwidth::Default => 0xffff_ffff,
        }
    }

    /// The value as the 32 bits of the firmware field (two's complement).
    pub fn wire_value(self) -> (r: u32)
        ensures
            r == self.spec_wire_value(),
            r as i32 == self.spec_value(),
    {
        assert((0xffff_ffffu32 as i32) == -1i32) by (bit_vector);
        match self {
            SignalBandwidth::Bw20 => 0,
            SignalBandwidth::Bw40 => 1,
            SignalBandwidth::Bw80 => 4,
            SignalBandwidth::Default => 0xffff_ffff,
        }
    }

    /// The selection whose value is the two's complement reading of `v`.
    pub open spec fn spec_from_value(v: u32) -> Result<Self, InvalidValue> {
        match v {
            0 => Ok(SignalBandwidth::Bw20),
            1 => Ok(SignalBandwidth::Bw40),
            4 => Ok(SignalBandwidth::Bw80),
            0xffff_ffff => Ok(SignalBandwidth::Default),
            _ => Err(InvalidValue::SignalBandwidth(v as i32)),
        }
    }

    /// The value of a selection converts back to the selection, and a value
    /// that converts to a selection is that selection's value.
    pub proof fn lemma_value_round_trip(self, v: u32)
        ensures
            Self::spec_from_value(self.spec_wire_value()) == Ok::<Self, InvalidValue>(self),
            Self::spec_from_value(v) matches Ok(e) ==> e.spec_wire_value() == v,
    {
    }
}

impl TryFrom<u32> for SignalBandwidth {
    type Error = InvalidValue;

    fn try_from(v: u32) -> (r: Result<Self, InvalidValue>) {
        match v {
            0 => Ok(SignalBandwidth::Bw20),
            1 => Ok(SignalBandwidth::Bw40),
            4 => Ok(SignalBandwidth::Bw80),
            0xffff_ffff => Ok(SignalBandwidth::Default),
            _ => Err(InvalidValue::SignalBandwidth(v as i32)),
        }
    }
}

impl TryFromSpecImpl<u32> for SignalBandwidth {
    open spec fn obeys_try_from_spec() -> bool {
        true
    }

    open spec fn try_from_spec(v: u32) -> Result<Self, InvalidValue> {
        Self::spec_from_value(v)
    }
}

impl Default for SignalBandwidth {
    fn default() -> (r: Self)
        ensures
            r == SignalBandwidth::Default,
    {
        SignalBandwidth::Default
    }
}

/// Standalone HE TB mode selection.
///
/// Source: AN14114 "Configure the golden unit and DUT for UL-OFDMA transmission".
#[derive(Debug, Clone, Copy, PartialEq, Eq, Structural)]
pub enum StandaloneHeTbMode {
    Disabled,
    TriggerBased,
    Standalone,
    SuOfdma,
}

impl StandaloneHeTbMode {
    /// The numeric value that the firmware uses for the selection.
    pub open spec fn spec_value(self) -> u32 {
        match self {
            StandaloneHeTbMode::Disabled => 0,
            StandaloneHeTbMode::TriggerBased => 1,
            StandaloneHeTbMode::Standalone => 2,
            StandaloneHeTbMode::SuOfdma => 3,
        }
    }

    /// The numeric value that the firmware uses for the selection.
    pub fn value(self) -> (r: u32)
        ensures
            r == self.spec_value(),
    {
        match self {
            StandaloneHeTbMode::Disabled => 0,
            StandaloneHeTbMode::TriggerBased => 1,
            StandaloneHeTbMode::Standalone => 2,
            StandaloneHeTbMode::SuOfdma => 3,
        }
    }

    /// The selection whose value is `v`.
    pub open spec fn spec_from_value(v: u32) -> Result<Self, InvalidValue> {
        match v {
            0 => Ok(StandaloneHeTbMode::Disabled),
            1 => Ok(StandaloneHeTbMode::TriggerBased),
            2 => Ok(StandaloneHeTbMode::Standalone),
            3 => Ok(StandaloneHeTbMode::SuOfdma),
            _ => Err(InvalidValue::StandaloneHeTbMode(v)),
        }
    }

    /// The value of a selection converts back to the selection, and a value
    /// that converts to a selection is that selection's value.
    pub proof fn lemma_value_round_trip(self, v: u32)
        ensures
            Self::spec_from_value(self.spec_value() as u32) == Ok::<Self, InvalidValue>(self),
            Self::spec_from_value(v) matches Ok(e) ==> e.spec_value() as u32 == v,
    {
    }

}

impl TryFrom<u32> for StandaloneHeTbMode {
    type Error = InvalidValue;

    fn try_from(v: u32) -> (r: Result<Self, InvalidValue>) {
        match v {
            0 => Ok(StandaloneHeTbMode::Disabled),
            1 => Ok(StandaloneHeTbMode::TriggerBased),
            2 => Ok(StandaloneHeTbMode::Standalone),
            3 => Ok(StandaloneHeTbMode::SuOfdma),
            _ => Err(InvalidValue::StandaloneHeTbMode(v)),
        }
    }
}

impl TryFromSpecImpl<u32> for StandaloneHeTbMode {
    open spec fn obeys_try_from_spec() -> bool {
        true
    }

    open spec fn try_from_spec(v: u32) -> Result<Self, InvalidValue> {
        Self::spec_from_value(v)
    }
}

impl Default for StandaloneHeTbMode {
    fn default() -> (r: Self)
        ensures
            r == StandaloneHeTbMode::Disabled,
    {
        StandaloneHeTbMode::Disabled
    }
}

/// UL trigger frame bandwidth selection.
///
/// Source: AN14114 "Configure the golden unit and DUT for UL-OFDMA transmission".
#[derive(Debug, Clone, Copy, PartialEq, Eq, Structural)]
pub enum UlBandwidth {
    Bw20,
    Bw40,
    Bw80,
}

impl UlBandwidth {
    /// The numeric value that the firmware uses for the selection.
    pub open spec fn spec_value(self) -> u64 {
        match self {
            UlBandwidth::Bw20 => 0,
            UlBandwidth::Bw40 => 1,
            UlBandwidth::Bw80 => 2,
        }
    }

    /// The numeric value that the firmware uses for the selection.
    pub fn value(self) -> (r: u64)
        ensures
            r == self.spec_value(),
    {
        match self {
            UlBandwidth::Bw20 => 0,
            UlBandwidth::Bw40 => 1,
            UlBandwidth::Bw80 => 2,
        }
    }

    /// The selection whose value is `v`.
    pub open spec fn spec_from_value(v: u64) -> Result<Self, InvalidValue> {
        match v {
            0 => Ok(UlBandwidth::Bw20),
            1 => Ok(UlBandwidth::Bw40),
            2 => Ok(UlBandwidth::Bw80),
            _ => Err(InvalidValue::UlBandwidth(v)),
        }
    }

    /// The value of a selection converts back to the selection, and a value
    /// that converts to a selection is that selection's value.
    pub proof fn lemma_value_round_trip(self, v: u64)
        ensures
            Self::spec_from_value(self.spec_value() as u64) == Ok::<Self, InvalidValue>(self),
            Self::spec_from_value(v) matches Ok(e) ==> e.spec_value() as u64 == v,
    {
    }

}

impl TryFrom<u64> for UlBandwidth {
    type Error = InvalidValue;

    fn try_from(v: u64) -> (r: Result<Self, InvalidValue>) {
        match v {
            0 => Ok(UlBandwidth::Bw20),
            1 => Ok(UlBandwidth::Bw40),
            2 => Ok(UlBandwidth::Bw80),
            _ => Err(InvalidValue::UlBandwidth(v)),
        }
    }
}

impl TryFromSpecImpl<u64> for UlBandwidth {
    open spec fn obeys_try_from_spec() -> bool {
        true
    }

    open spec fn try_from_spec(v: u64) -> Result<Self, InvalidValue> {
        Self::spec_from_value(v)
    }
}

impl Default for UlBandwidth {
    fn default() -> (r: Self)
        ensures
            r == UlBandwidth::Bw20,
    {
        UlBandwidth::Bw20
    }
}

/// LTF symbol selection.
///
/// Source: AN14114 "Configure the golden unit and DUT for UL-OFDMA transmission".
#[derive(Debug, Clone, Copy, PartialEq, Eq, Structural)]
pub enum LtfSymbol {
    OneXHELTF,
    TwoXHELTF,
}

impl LtfSymbol {
    /// The numeric value that the firmware uses for the selection.
    pub open spec fn spec_value(self) -> u64 {
        match self {
            LtfSymbol::OneXHELTF => 0,
            LtfSymbol::TwoXHELTF => 1,
        }
    }

    /// The numeric value that the firmware uses for the selection.
    pub fn value(self) -> (r: u64)
        ensures
            r == self.spec_value(),
    {
        match self {
            LtfSymbol::OneXHELTF => 0,
            LtfSymbol::TwoXHELTF => 1,
        }
    }

    /// The selection whose value is `v`.
    pub open spec fn spec_from_value(v: u64) -> Result<Self, InvalidValue> {
        match v {
            0 => Ok(LtfSymbol::OneXHELTF),
            1 => Ok(LtfSymbol::TwoXHELTF),
            _ => Err(InvalidValue::LtfSymbol(v)),
        }
    }

    /// The value of a selection converts back to the selection, and a value
    /// that converts to a selection is that selection's value.
    pub proof fn lemma_value_round_trip(self, v: u64)
        ensures
            Self::spec_from_value(self.spec_value() as u64) == Ok::<Self, InvalidValue>(self),
            Self::spec_from_value(v) matches Ok(e) ==> e.spec_value() as u64 == v,
    {
    }

}

impl TryFrom<u64> for LtfSymbol {
    type Error = InvalidValue;

    fn try_from(v: u64) -> (r: Result<Self, InvalidValue>) {
        match v {
            0 => Ok(LtfSymbol::OneXHELTF),
            1 => Ok(LtfSymbol::TwoXHELTF),
            _ => Err(InvalidValue::LtfSymbol(v)),
        }
    }
}

impl TryFromSpecImpl<u64> for LtfSymbol {
    open spec fn obeys_try_from_spec() -> bool {
        true
    }

    open spec fn try_from_spec(v: u64) -> Result<Self, InvalidValue> {
        Self::spec_from_value(v)
    }
}

impl Default for LtfSymbol {
    fn default() -> (r: Self)
        ensures
            r == LtfSymbol::OneXHELTF,
    {
        LtfSymbol::OneXHELTF
    }
}

/// Spatial stream allocation selection.
///
/// Source: AN14114 "Configure the golden unit and DUT for UL-OFDMA transmission".
#[derive(Debug, Clone, Copy, PartialEq, Eq, Structural)]
pub enum SpatialStreamAllocation {
    OneSS,
    TwoSS,
}

impl SpatialStreamAllocation {
    /// The numeric value that the firmware uses for the selection.
    pub open spec fn spec_value(self) -> u32 {
        match self {
            SpatialStreamAllocation::OneSS => 0,
            SpatialStreamAllocation::TwoSS => 1,
        }
    }

    /// The numeric value that the firmware uses for the selection.
    pub fn value(self) -> (r: u32)
        ensures
            r == self.spec_value(),
    {
        match self {
            SpatialStreamAllocation::OneSS => 0,
            SpatialStreamAllocation::TwoSS => 1,
        }
    }

    /// The selection whose value is `v`.
    pub open spec fn spec_from_value(v: u32) -> Result<Self, InvalidValue> {
        match v {
            0 => Ok(SpatialStreamAllocation::OneSS),
            1 => Ok(SpatialStreamAllocation::TwoSS),
            _ => Err(InvalidValue::SpatialStreamAllocation(v)),
        }
    }

    /// The value of a selection converts back to the selection, and a value
    /// that converts to a selection is that selection's value.
    pub proof fn lemma_value_round_trip(self, v: u32)
        ensures
            Self::spec_from_value(self.spec_value() as u32) == Ok::<Self, InvalidValue>(self),
            Self::spec_from_value(v) matches Ok(e) ==> e.spec_value() as u32 == v,
    {
    }

}

impl TryFrom<u32> for SpatialStreamAllocation {
    type Error = InvalidValue;

    fn try_from(v: u32) -> (r: Result<Self, InvalidValue>) {
        match v {
            0 => Ok(SpatialStreamAllocation::OneSS),
            1 => Ok(SpatialStreamAllocation::TwoSS),
            _ => Err(InvalidValue::SpatialStreamAllocation(v)),
        }
    }
}

impl TryFromSpecImpl<u32> for SpatialStreamAllocation {
    open spec fn obeys_try_from_spec() -> bool {
        true
    }

    open spec fn try_from_spec(v: u32) -> Result<Self, InvalidValue> {
        Self::spec_from_value(v)
    }
}

impl Default for SpatialStreamAllocation {
    fn default() -> (r: Self)
        ensures
            r == SpatialStreamAllocation::OneSS,
    {
        SpatialStreamAllocation::OneSS
    }
}

/// Wrapper enum for all testmode command structs.
#[derive(Debug, Clone, PartialEq, Eq)]
pub enum MfgCmd {
    /// Enable or disable Wi-Fi RF test mode (rf_test_mode).
    ///
    /// Source: AN14114 "Wi-Fi RF test mode".
    RfTestMode {
        /// Enable (true) or disable (false) RF test mode.
        enable: bool,
    },
    /// Set the TX antenna path selection (tx_antenna).
    ///
    /// Source: AN14114 "Set TX/RX antenna configuration".
    TxAntenna {
        /// TX antenna mode.
        mode: AntennaMode,
    },
    /// Set the RX antenna path selection (rx_antenna).
    ///
    /// Source: AN14114 "Set TX/RX antenna configuration".
    RxAntenna {
        /// RX antenna mode.
        mode: AntennaMode,
    },
    /// Select the operating radio mode for radio0 and radio1 (radio_mode).
    ///
    /// Source: AN14114 "Set the radio mode".
    RadioMode {
        /// Radio mode index for radio 0 (device-specific indices per AN14114).
        radio0: u32,
        /// Radio mode index for radio 1 (device-specific indices per AN14114).
        radio1: u32,
    },
    /// Select the RF band (band).
    ///
    /// Source: AN14114 "Set the operating RF band".
    RfBand {
        /// RF band selection.
        band: RfBand,
    },
    /// Select the channel bandwidth (bw).
    ///
    /// Source: AN14114 "Set the channel bandwidth".
    ChannelBandwidth {
        /// Channel bandwidth selection.
        bandwidth: ChannelBandwidth,
    },
    /// Set the RF channel (channel).
    ///
    /// Source: AN14114 "Set the RF channel".
    RfChannel {
        /// RF channel number (see supported channels list in AN14114).
        channel: u16,
    },
    /// Get and reset packet error rate counters (get_and_reset_per).
    ///
    /// Source: AN14114 "Get and reset the packet error rate".
    GetAndResetPer {
        /// Total RX unicast/multicast/broadcast packet count
        rx_total_packet_count: u32,
        /// RX multicast/broadcast packet count
        rx_multi_broadcast_packet_count: u32,
        /// RX FCS error count
        rx_frame_check_sequence_errors: u32,
    },
    /// Configure transmit power (tx_power).
    ///
    /// Source: AN14114 "Set TX power".
    TxPower {
        /// TX power in dBm, range -1 to 24 and 64 on newer cards; -1 lets firmware decide.
        power_dbm: i32,
        /// Signal modulation type.
        modulation: Modulation,
        /// TX path selection.
        path: TxPathId,
    },
    /// Configure continuous TX parameters (tx_continuous).
    ///
    /// Source: AN14114 "Set TX continuous mode".
    TxContinuous {
        /// Start/stop transmit.
        enable: bool,
        /// Continuous wave mode enable. 0 = packet, 1 = CW.
        continuous_wave_mode: bool,
        /// Payload pattern value, range 0 to 0xFFFF_FFFF.
        payload_pattern: u32,
        /// Carrier suppression enable (packet mode only).
        cs_mode: bool,
        /// Active subchannel selection: 0 = lower, 1 = upper, 3 = both.
        active_subchannel: ActiveSubchannel,
        /// TX data rate index (legacy/HT/VHT rate table in AN14114).
        tx_rate: u32,
    },
    /// Configure frame-based TX parameters (tx_frame).
    ///
    /// Source: AN14114 "Set TX frame".
    TxFrame {
        /// Start/stop transmit.
        enable: bool,
        /// TX data rate index (legacy/HT/VHT rate table in AN14114).
        tx_rate: u32,
        /// Payload pattern value, range 0 to 0xFFFF_FFFF.
        payload_pattern: u32,
        /// Payload length in bytes, range 1 to 0x400.
        payload_length: u32,
        /// Adjust burst SIFS gap.
        adjust_burst_sifs_gap: bool,
        /// Burst SIFS duration in microseconds, range 10 to 255.
        adjust_sifs_us: u32,
        /// Short preamble enable.
        short_preamble: bool,
        /// Active subchannel selection: 0 = lower, 1 = upper, 3 = both.
        active_subchannel: ActiveSubchannel,
        /// Short guard interval selection (see AN14114 for per-phy meaning).
        short_gi: bool,
        /// Advanced coding enable.
        adv_coding: bool,
        /// Beamforming enable.
        beamforming: bool,
        /// Greenfield mode enable.
        greenfield_mode: bool,
        /// STBC enable.
        stbc: bool,
        /// Signal bandwidth: 0 = 20 MHz, 1 = 40 MHz, 4 = 80 MHz, -1 = default.
        signal_bw: SignalBandwidth,
        /// Number of packets.
        num_pkt: i32,
        /// Max packet extension.
        max_pkt_ext: i32,
        /// Beam change.
        beam_change: i32,
        /// DCM enable.
        dcm: i32,
        /// Doppler enable.
        doppler: i32,
        /// Midamble periodicity.
        midamble_period: i32,
        /// Trigger response queue number.
        q_num: i32,
        /// BSSID address in format xx:xx:xx:xx:xx:xx.
        bssid: [u8; MAC_ADDR_LENGTH],
    },
    /// Configure HE trigger frame parameters (trigger_frame).
    ///
    /// Source: AN14114 "Configure the golden unit and DUT for UL-OFDMA transmission".
    TriggerFrame {
        /// Enable transmit.
        enable: bool,
        /// Standalone HE TB mode: 0 = disable, 1 = trigger-based, 2 = standalone, 3 = SU-OFDMA.
        standalone_hetb: StandaloneHeTbMode,
        /// Frame control type (set to 1 in examples).
        frame_ctrl_type: u16,
        /// Frame control subtype (set to 2 in examples).
        frame_ctrl_subtype: u16,
        /// Frame duration (set to 5484 in examples).
        frame_duration: u16,
        /// Trigger type (set to 0 in examples).
        trigger_type: u64,
        /// UL length (set to 1000 in examples).
        ul_len: u64,
        /// More TF flag.
        more_tf: bool,
        /// CS required flag.
        cs_required: bool,
        /// UL bandwidth: 0 = 20 MHz, 1 = 40 MHz, 2 = 80 MHz.
        ul_bw: UlBandwidth,
        /// LTF type (set to 1 in examples).
        ltf_type: u64,
        /// LTF mode.
        ltf_mode: bool,
        /// LTF symbol: 0 = 1xHELTF (1SS), 1 = 2xHELTF (2SS).
        ltf_symbol: LtfSymbol,
        /// UL STBC flag.
        ul_stbc: bool,
        /// LDPC ESS flag.
        ldpc_ess: bool,
        /// AP TX power (set to 0 in examples).
        ap_tx_pwr: u64,
        /// Pre-FEC padding factor (set to 1 in examples).
        pre_fec_pad_fct: u64,
        /// PE disambiguity flag.
        pe_disambig: bool,
        /// Spatial reuse value (set to 65535 in examples).
        spatial_reuse: u64,
        /// Doppler flag.
        doppler: bool,
        /// HE-SIG2 value (set to 511 in examples).
        he_sig2: u64,
        /// AID12 value (set to 5 in examples).
        aid12: u32,
        /// RU allocation register flag.
        ru_alloc_reg: bool,
        /// RU allocation index (see RU index tables in AN14114).
        ru_alloc: u32,
        /// UL coding type flag.
        ul_coding_type: bool,
        /// UL MCS index (see data rates table in AN14114).
        ul_mcs: u32,
        /// UL DCM flag.
        ul_dcm: bool,
        /// Spatial stream allocation: 0 = 1SS, 1 = 2SS.
        ss_alloc: SpatialStreamAllocation,
        /// UL target RSSI (set to 90 in examples).
        ul_target_rssi: u8,
        /// MPDU MU SF (set to 0 in examples).
        mpdu_mu_sf: u8,
        /// TID allocation (set to 0 in examples).
        tid_al: u8,
        /// AC policy flag.
        ac_pl: bool,
        /// Preferred AC (set to 0 in examples).
        pref_ac: u8,
    },
    /// Configure HE TB TX trigger-response parameters (he_tb_tx).
    ///
    /// Source: AN14114 "Configure the golden unit and DUT for UL-OFDMA transmission".
    HeTbTx {
        /// Enter/exit trigger response mode.
        enable: bool,
        /// Trigger response queue number (1 = trigger-based test by default).
        qnum: u16,
        /// Station AID (set to 5 in examples).
        aid: u16,
        /// AXQ0 MU timer in 8 ms units (suggested 400 in examples).
        axq0_mu_timer: u16,
        /// TX power in dBm.
        tx_pwr: i16,
    },
    /// Read/write OTP calibration data (otp_cal_data_rd_wr).
    ///
    /// Source: Mwifiex driver
    OtpCalData {
        /// Read/write flag: false = read, true = write.
        write: bool,
        /// OTP calibration data buffer (hex string of length 2800).
        cal_data: Vec<u8>,
    },
    /// Read/write OTP MAC address (otp_mac_addr_rd_wr).
    ///
    /// Source: Mwifiex driver
    OtpMacAddr {
        /// Read/write flag: false = read, true = write.
        write: bool,
        /// MAC address buffer (hex string of length 12).
        mac_addr: [u8; MAC_ADDR_LENGTH],
    },
}
/// The mathematical model of a command: byte buffers become sequences.
pub ghost enum MfgCmdModel {
    RfTestMode {
        enable: bool,
    },
    TxAntenna {
        mode: AntennaMode,
    },
    RxAntenna {
        mode: AntennaMode,
    },
    RadioMode {
        radio0: u32,
        radio1: u32,
    },
    RfBand {
        band: RfBand,
    },
    ChannelBandwidth {
        bandwidth: ChannelBandwidth,
    },
    RfChannel {
        channel: u16,
    },
    GetAndResetPer {
        rx_total_packet_count: u32,
        rx_multi_broadcast_packet_count: u32,
        rx_frame_check_sequence_errors: u32,
    },
    TxPower {
        power_dbm: i32,
        modulation: Modulation,
        path: TxPathId,
    },
    TxContinuous {
        enable: bool,
        continuous_wave_mode: bool,
        payload_pattern: u32,
        cs_mode: bool,
        active_subchannel: ActiveSubchannel,
        tx_rate: u32,
    },
    TxFrame {
        enable: bool,
        tx_rate: u32,
        payload_pattern: u32,
        payload_length: u32,
        adjust_burst_sifs_gap: bool,
        adjust_sifs_us: u32,
        short_preamble: bool,
        active_subchannel: ActiveSubchannel,
        short_gi: bool,
        adv_coding: bool,
        beamforming: bool,
        greenfield_mode: bool,
        stbc: bool,
        signal_bw: SignalBandwidth,
        num_pkt: i32,
        max_pkt_ext: i32,
        beam_change: i32,
        dcm: i32,
        doppler: i32,
        midamble_period: i32,
        q_num: i32,
        bssid: Seq<u8>,
    },
    TriggerFrame {
        enable: bool,
        standalone_hetb: StandaloneHeTbMode,
        frame_ctrl_type: u16,
        frame_ctrl_subtype: u16,
        frame_duration: u16,
        trigger_type: u64,
        ul_len: u64,
        more_tf: bool,
        cs_required: bool,
        ul_bw: UlBandwidth,
        ltf_type: u64,
        ltf_mode: bool,
        ltf_symbol: LtfSymbol,
        ul_stbc: bool,
        ldpc_ess: bool,
        ap_tx_pwr: u64,
        pre_fec_pad_fct: u64,
        pe_disambig: bool,
        spatial_reuse: u64,
        doppler: bool,
        he_sig2: u64,
        aid12: u32,
        ru_alloc_reg: bool,
        ru_alloc: u32,
        ul_coding_type: bool,
        ul_mcs: u32,
        ul_dcm: bool,
        ss_alloc: SpatialStreamAllocation,
        ul_target_rssi: u8,
        mpdu_mu_sf: u8,
        tid_al: u8,
        ac_pl: bool,
        pref_ac: u8,
    },
    HeTbTx {
        enable: bool,
        qnum: u16,
        aid: u16,
        axq0_mu_timer: u16,
        tx_pwr: i16,
    },
    OtpCalData {
        write: bool,
        cal_data: Seq<u8>,
    },
    OtpMacAddr {
        write: bool,
        mac_addr: Seq<u8>,
    },
}
impl View for MfgCmd {
    type V = MfgCmdModel;

    open spec fn view(&self) -> MfgCmdModel {
        match *self {
            MfgCmd::RfTestMode { enable } => MfgCmdModel::RfTestMode { enable },
            MfgCmd::TxAntenna { mode } => MfgCmdModel::TxAntenna { mode },
            MfgCmd::RxAntenna { mode } => MfgCmdModel::RxAntenna { mode },
            MfgCmd::RadioMode { radio0, radio1 } => MfgCmdModel::RadioMode { radio0, radio1 },
            MfgCmd::RfBand { band } => MfgCmdModel::RfBand { band },
            MfgCmd::ChannelBandwidth { bandwidth } => MfgCmdModel::ChannelBandwidth { bandwidth },
            MfgCmd::RfChannel { channel } => MfgCmdModel::RfChannel { channel },
            MfgCmd::GetAndResetPer { rx_total_packet_count, rx_multi_broadcast_packet_count, rx_frame_check_sequence_errors } => MfgCmdModel::GetAndResetPer { rx_total_packet_count, rx_multi_broadcast_packet_count, rx_frame_check_sequence_errors },
            MfgCmd::TxPower { power_dbm, modulation, path } => MfgCmdModel::TxPower { power_dbm, modulation, path },
            MfgCmd::TxContinuous { enable, continuous_wave_mode, payload_pattern, cs_mode, active_subchannel, tx_rate } => MfgCmdModel::TxContinuous { enable, continuous_wave_mode, payload_pattern, cs_mode, active_subchannel, tx_rate },
            MfgCmd::TxFrame { enable, tx_rate, payload_pattern, payload_length, adjust_burst_sifs_gap, adjust_sifs_us, short_preamble, active_subchannel, short_gi, adv_coding, beamforming, greenfield_mode, stbc, signal_bw, num_pkt, max_pkt_ext, beam_change, dcm, doppler, midamble_period, q_num, bssid } => MfgCmdModel::TxFrame { enable, tx_rate, payload_pattern, payload_length, adjust_burst_sifs_gap, adjust_sifs_us, short_preamble, active_subchannel, short_gi, adv_coding, beamforming, greenfield_mode, stbc, signal_bw, num_pkt, max_pkt_ext, beam_change, dcm, doppler, midamble_period, q_num, bssid: bssid@ },
            MfgCmd::TriggerFrame { enable, standalone_hetb, frame_ctrl_type, frame_ctrl_subtype, frame_duration, trigger_type, ul_len, more_tf, cs_required, ul_bw, ltf_type, ltf_mode, ltf_symbol, ul_stbc, ldpc_ess, ap_tx_pwr, pre_fec_pad_fct, pe_disambig, spatial_reuse, doppler, he_sig2, aid12, ru_alloc_reg, ru_alloc, ul_coding_type, ul_mcs, ul_dcm, ss_alloc, ul_target_rssi, mpdu_mu_sf, tid_al, ac_pl, pref_ac } => MfgCmdModel::TriggerFrame { enable, standalone_hetb, frame_ctrl_type, frame_ctrl_subtype, frame_duration, trigger_type, ul_len, more_tf, cs_required, ul_bw, ltf_type, ltf_mode, ltf_symbol, ul_stbc, ldpc_ess, ap_tx_pwr, pre_fec_pad_fct, pe_disambig, spatial_reuse, doppler, he_sig2, aid12, ru_alloc_reg, ru_alloc, ul_coding_type, ul_mcs, ul_dcm, ss_alloc, ul_target_rssi, mpdu_mu_sf, tid_al, ac_pl, pref_ac },
            MfgCmd::HeTbTx { enable, qnum, aid, axq0_mu_timer, tx_pwr } => MfgCmdModel::HeTbTx { enable, qnum, aid, axq0_mu_timer, tx_pwr },
            MfgCmd::OtpCalData { write, cal_data } => MfgCmdModel::OtpCalData { write, cal_data: cal_data@ },
            MfgCmd::OtpMacAddr { write, mac_addr } => MfgCmdModel::OtpMacAddr { write, mac_addr: mac_addr@ },
        }
    }
}

impl MfgCmdModel {
    /// The manufacturing command code of the command. `rf_test_mode` uses the
    /// code to carry the enable flag.
    pub open spec fn command_number(self) -> u32 {
        match self {
            MfgCmdModel::RfTestMode { enable } => if enable {
                1
            } else {
                0
            },
            MfgCmdModel::TxAntenna { .. } => 0x1004,
            MfgCmdModel::RxAntenna { .. } => 0x1005,
            MfgCmdModel::RadioMode { .. } => 0x1211,
            MfgCmdModel::RfBand { .. } => 0x1034,
            MfgCmdModel::ChannelBandwidth { .. } => 0x1044,
            MfgCmdModel::RfChannel { .. } => 0x100A,
            MfgCmdModel::GetAndResetPer { .. } => 0x1010,
            MfgCmdModel::TxPower { .. } => 0x1033,
            MfgCmdModel::TxContinuous { .. } => 0x1009,
            MfgCmdModel::TxFrame { .. } => 0x1021,
            MfgCmdModel::TriggerFrame { .. } => 0x110C,
            MfgCmdModel::HeTbTx { .. } => 0x110A,
            MfgCmdModel::OtpMacAddr { .. } => 0x108C,
            MfgCmdModel::OtpCalData { .. } => 0x121A,
        }
    }
}

impl MfgCmd {
    pub fn command_number(&self) -> (r: u32)
        ensures
            r == self@.command_number(),
    {
        match self {
            MfgCmd::RfTestMode { enable: enabled } => {
                if *enabled {
                    1
                } else {
                    0
                }
            },
            MfgCmd::TxAntenna { .. } => 0x1004,
            MfgCmd::RxAntenna { .. } => 0x1005,
            MfgCmd::RadioMode { .. } => 0x1211,
            MfgCmd::RfBand { .. } => 0x1034,
            MfgCmd::ChannelBandwidth { .. } => 0x1044,
            MfgCmd::RfChannel { .. } => 0x100A,
            MfgCmd::GetAndResetPer { .. } => 0x1010,
            MfgCmd::TxPower { .. } => 0x1033,
            MfgCmd::TxContinuous { .. } => 0x1009,
            MfgCmd::TxFrame { .. } => 0x1021,
            MfgCmd::TriggerFrame { .. } => 0x110C,
            MfgCmd::HeTbTx { .. } => 0x110A,
            MfgCmd::OtpMacAddr { .. } => 0x108C,
            MfgCmd::OtpCalData { .. } => 0x121A,
        }
    }
}

/// Why a command could not be encoded, or its response not decoded.
#[derive(Debug, Clone, Copy, PartialEq, Eq)]
pub enum CommandError {
    /// `power_dbm` is above what the card accepts (after conversion to the
    /// firmware's unit); carries that limit.
    PowerTooHigh { max: i32 },
    /// The calibration data is longer than `CAL_DATA_LEN`; carries its length.
    CalDataTooLong { len: usize },
    /// The response is shorter than the structure it must hold; carries that
    /// structure's size.
    ResponseTooShort { needed: usize },
    /// The firmware reported a failure in the response header.
    Firmware { header: HostCmd<MfgCmdHeader<()>> },
    /// The response answers another command.
    WrongCommand { expected: u32, received: u32 },
    /// A field of the response names no selection of its enumeration.
    InvalidValue(InvalidValue),
}

/// `1` for `true`, `0` for `false`.
pub open spec fn flag32(b: bool) -> u32 {
    if b {
        1
    } else {
        0
    }
}

pub open spec fn flag16(b: bool) -> u16 {
    if b {
        1
    } else {
        0
    }
}

pub open spec fn flag64(b: bool) -> u64 {
    if b {
        1
    } else {
        0
    }
}

pub open spec fn flag8(b: bool) -> u8 {
    if b {
        1
    } else {
        0
    }
}

fn flag_u32(b: bool) -> (r: u32)
    ensures
        r == flag32(b),
{
    if b {
        1
    } else {
        0
    }
}

fn flag_u16(b: bool) -> (r: u16)
    ensures
        r == flag16(b),
{
    if b {
        1
    } else {
        0
    }
}

fn flag_u64(b: bool) -> (r: u64)
    ensures
        r == flag64(b),
{
    if b {
        1
    } else {
        0
    }
}

fn flag_u8(b: bool) -> (r: u8)
    ensures
        r == flag8(b),
{
    if b {
        1
    } else {
        0
    }
}

/// The bytes of the host command that carries `body` as manufacturing
/// command `code`.
pub open spec fn host_bytes<T: WireFormat>(code: u32, write: bool, body: T) -> Seq<u8> {
    HostCmd::spec_default_with(MfgCmdHeader::spec_new(code, write, body)).wire()
}

pub open spec fn generic_cfg(data1: u32, data2: u32, data3: u32) -> GenericCfg {
    GenericCfg { data1, data2, data3 }
}

/// The power field of `tx_power` for `card` (`PowerLevelToDUT11Bits` on the
/// cards that scale it): out-of-range or `-1` requests become `-1` (firmware
/// default), others become 1/16 dBm steps in 11-bit two's complement; the
/// cards accept 0 to 64 dBm (up to 1024 steps), so a negative power other
/// than `-1` is refused (its two's complement lies above the limit).
pub open spec fn spec_power_field(card: CardType, power_dbm: i32) -> Result<u32, CommandError> {
    if card.spec_scales_power() {
        if power_dbm == -1 || power_dbm > 64 || power_dbm < -64 {
            Ok(0xffff_ffffu32)
        } else {
            let z = if power_dbm * 16 < 0 {
                power_dbm * 16 + 2048
            } else {
                power_dbm * 16
            };
            if z > 1024 || power_dbm < -1 {
                Err(CommandError::PowerTooHigh { max: 1024 })
            } else {
                Ok(z as u32)
            }
        }
    } else {
        if power_dbm > 24 {
            Err(CommandError::PowerTooHigh { max: 24 })
        } else {
            Ok(power_dbm as u32)
        }
    }
}

/// On the cards that scale it, powers from 0 to 64 dBm are sent in 1/16 dBm
/// steps, other negative powers than `-1` are refused, and `-1` or a power
/// beyond 64 dBm either way asks for the firmware default.
pub proof fn lemma_power_field_scaled(card: CardType, power_dbm: i32)
    requires
        card.spec_scales_power(),
    ensures
        0 <= power_dbm <= 64 ==> spec_power_field(card, power_dbm) == Ok::<u32, CommandError>(
            (16 * power_dbm) as u32,
        ),
        -64 <= power_dbm <= -2 ==> spec_power_field(card, power_dbm) == Err::<u32, CommandError>(
            CommandError::PowerTooHigh { max: 1024 },
        ),
        power_dbm == -1 || power_dbm > 64 || power_dbm < -64 ==> spec_power_field(card, power_dbm)
            == Ok::<u32, CommandError>(0xffff_ffff),
{
}

pub open spec fn tx_frame_body(
    enable: bool,
    tx_rate: u32,
    payload_pattern: u32,
    payload_length: u32,
    adjust_burst_sifs_gap: bool,
    adjust_sifs_us: u32,
    short_preamble: bool,
    active_subchannel: ActiveSubchannel,
    short_gi: bool,
    adv_coding: bool,
    beamforming: bool,
    greenfield_mode: bool,
    stbc: bool,
    signal_bw: SignalBandwidth,
    num_pkt: i32,
    max_pkt_ext: i32,
    beam_change: i32,
    dcm: i32,
    doppler: i32,
    midamble_period: i32,
    q_num: i32,
    bssid: Seq<u8>,
) -> TxFrame2 {
    TxFrame2 {
        enable: flag32(enable),
        data_rate: tx_rate,
        frame_pattern: payload_pattern,
        frame_length: payload_length,
        bssid: array_of::<MAC_ADDR_LENGTH>(bssid),
        adjust_burst_sifs: flag16(adjust_burst_sifs_gap),
        burst_sifs_in_us: adjust_sifs_us,
        short_preamble: flag32(short_preamble),
        act_sub_ch: active_subchannel.spec_value(),
        short_gi: flag32(short_gi),
        adv_coding: flag32(adv_coding),
        tx_bf: flag32(beamforming),
        gf_mode: flag32(greenfield_mode),
        stbc: flag32(stbc),
        rsvd: [0u32],
        signal_bw: signal_bw.spec_wire_value(),
        num_pkt: num_pkt as u32,
        max_pe: max_pkt_ext as u32,
        beam_change: beam_change as u32,
        dcm: dcm as u32,
        doppler: doppler as u32,
        mid_p: midamble_period as u32,
        q_num: q_num as u32,
    }
}

/// The all-zero MAC address.
pub open spec fn zero_mac() -> [u8; MAC_ADDR_LENGTH] {
    array_of::<MAC_ADDR_LENGTH>(Seq::new(MAC_ADDR_LENGTH as nat, |i: int| 0u8))
}

pub open spec fn trigger_frame_body(
    enable: bool,
    standalone_hetb: StandaloneHeTbMode,
    frame_ctrl_type: u16,
    frame_ctrl_subtype: u16,
    frame_duration: u16,
    trigger_type: u64,
    ul_len: u64,
    more_tf: bool,
    cs_required: bool,
    ul_bw: UlBandwidth,
    ltf_type: u64,
    ltf_mode: bool,
    ltf_symbol: LtfSymbol,
    ul_stbc: bool,
    ldpc_ess: bool,
    ap_tx_pwr: u64,
    pre_fec_pad_fct: u64,
    pe_disambig: bool,
    spatial_reuse: u64,
    doppler: bool,
    he_sig2: u64,
    aid12: u32,
    ru_alloc_reg: bool,
    ru_alloc: u32,
    ul_coding_type: bool,
    ul_mcs: u32,
    ul_dcm: bool,
    ss_alloc: SpatialStreamAllocation,
    ul_target_rssi: u8,
    mpdu_mu_sf: u8,
    tid_al: u8,
    ac_pl: bool,
    pref_ac: u8,
) -> IeeetypesCtlBasicTrigHdr {
    IeeetypesCtlBasicTrigHdr {
        enable_tx: flag32(enable),
        standalone_hetb: standalone_hetb.spec_value(),
        frm_ctl: IeeetypesFrameCtrl {
            protocol_version: 0,
            frame_type: frame_ctrl_type,
            sub_type: frame_ctrl_subtype,
            to_ds: 0,
            from_ds: 0,
            more_frag: 0,
            retry: 0,
            pwr_mgmt: 0,
            more_data: 0,
            wep: 0,
            order: 0,
        },
        duration: frame_duration,
        dest_addr: zero_mac(),
        src_addr: zero_mac(),
        trig_common_field: IeeetypesHeTrigComInfo {
            trigger_type,
            ul_len,
            more_tf: flag64(more_tf),
            cs_required: flag64(cs_required),
            ul_bw: ul_bw.spec_value(),
            ltf_type,
            ltf_mode: flag64(ltf_mode),
            ltf_symbol: ltf_symbol.spec_value(),
            ul_stbc: flag64(ul_stbc),
            ldpc_ess: flag64(ldpc_ess),
            ap_tx_pwr,
            pre_fec_pad_fct,
            pe_disambig: flag64(pe_disambig),
            spatial_reuse,
            doppler: flag64(doppler),
            he_sig2,
            reserved: 0,
        },
        trig_user_info_field: IeeetypesHeTrigUserInfo {
            bits: IeeetypesHeTrigUserInfoBits {
                aid12,
                ru_alloc_reg: flag32(ru_alloc_reg),
                ru_alloc,
                ul_coding_type: flag32(ul_coding_type),
                ul_mcs,
                ul_dcm: flag32(ul_dcm),
                ss_alloc: ss_alloc.spec_value(),
            },
            rssi: IeeetypesHeTrigUserInfoRssi { ul_target_rssi, reserved: 0 },
        },
        basic_trig_user_info: IeeetypesBasicHeTrigUserInfo {
            mpdu_mu_sf,
            tid_al,
            ac_pl: flag8(ac_pl),
            pref_ac,
        },
    }
}

/// The calibration data padded with zeros to `CAL_DATA_LEN` bytes.
pub open spec fn cal_data_buffer(cal_data: Seq<u8>) -> [u8; CAL_DATA_LEN] {
    array_of::<CAL_DATA_LEN>(
        cal_data + Seq::new((CAL_DATA_LEN - cal_data.len()) as nat, |i: int| 0u8),
    )
}

impl MfgCmdModel {
    /// Every field that travels in a bit field fits its width (encoding a
    /// wider value is refused by the bit field setters).
    pub open spec fn fits_bit_fields(self) -> bool {
        match self {
            MfgCmdModel::TriggerFrame {
                frame_ctrl_type,
                frame_ctrl_subtype,
                trigger_type,
                ul_len,
                ltf_type,
                ap_tx_pwr,
                pre_fec_pad_fct,
                spatial_reuse,
                he_sig2,
                aid12,
                ru_alloc,
                ul_mcs,
                ul_target_rssi,
                mpdu_mu_sf,
                tid_al,
                pref_ac,
                ..
            } => {
                &&& frame_ctrl_type <= 0x3
                &&& frame_ctrl_subtype <= 0xf
                &&& trigger_type <= 0xf
                &&& ul_len <= 0xfff
                &&& ltf_type <= 0x3
                &&& ap_tx_pwr <= 0x3f
                &&& pre_fec_pad_fct <= 0x3
                &&& spatial_reuse <= 0xffff
                &&& he_sig2 <= 0x1ff
                &&& aid12 <= 0xfff
                &&& ru_alloc <= 0x7f
                &&& ul_mcs <= 0xf
                &&& ul_target_rssi <= 0x7f
                &&& mpdu_mu_sf <= 0x3
                &&& tid_al <= 0x7
                &&& pref_ac <= 0x3
            },
            _ => true,
        }
    }

    /// The host command buffer of the command for `card`, or why there is none.
    pub open spec fn encode(self, card: CardType) -> Result<Seq<u8>, CommandError> {
        let code = self.command_number();
        match self {
            MfgCmdModel::RfTestMode { .. } => Ok(host_bytes(code, true, generic_cfg(0, 0, 0))),
            MfgCmdModel::TxAntenna { mode } => Ok(
                host_bytes(code, true, generic_cfg(mode.spec_value(), 0, 0)),
            ),
            MfgCmdModel::RxAntenna { mode } => Ok(
                host_bytes(code, true, generic_cfg(mode.spec_value(), 0, 0)),
            ),
            MfgCmdModel::RadioMode { radio0, radio1 } => Ok(
                host_bytes(code, true, generic_cfg(radio0, radio1, 0)),
            ),
            MfgCmdModel::RfBand { band } => Ok(
                host_bytes(code, true, generic_cfg(band.spec_value(), 0, 0)),
            ),
            MfgCmdModel::ChannelBandwidth { bandwidth } => Ok(
                host_bytes(code, true, generic_cfg(bandwidth.spec_value(), 0, 0)),
            ),
            MfgCmdModel::RfChannel { channel } => Ok(
                host_bytes(code, true, generic_cfg(channel as u32, 0, 0)),
            ),
            MfgCmdModel::GetAndResetPer { .. } => Ok(host_bytes(code, false, generic_cfg(0, 0, 0))),
            MfgCmdModel::TxPower { power_dbm, modulation, path } => match spec_power_field(
                card,
                power_dbm,
            ) {
                Ok(p) => Ok(
                    host_bytes(code, true, generic_cfg(p, modulation.spec_value(), path.spec_value())),
                ),
                Err(e) => Err(e),
            },
            MfgCmdModel::TxContinuous {
                enable,
                continuous_wave_mode,
                payload_pattern,
                cs_mode,
                active_subchannel,
                tx_rate,
            } => Ok(
                host_bytes(
                    code,
                    true,
                    TxCont {
                        enable_tx: flag32(enable),
                        cw_mode: flag32(continuous_wave_mode),
                        payload_pattern,
                        cs_mode: flag32(cs_mode),
                        act_sub_ch: active_subchannel.spec_value(),
                        tx_rate,
                        rsvd: 0,
                    },
                ),
            ),
            MfgCmdModel::TxFrame {
                enable,
                tx_rate,
                payload_pattern,
                payload_length,
                adjust_burst_sifs_gap,
                adjust_sifs_us,
                short_preamble,
                active_subchannel,
                short_gi,
                adv_coding,
                beamforming,
                greenfield_mode,
                stbc,
                signal_bw,
                num_pkt,
                max_pkt_ext,
                beam_change,
                dcm,
                doppler,
                midamble_period,
                q_num,
                bssid,
            } => Ok(
                host_bytes(
                    code,
                    true,
                    tx_frame_body(
                        enable,
                        tx_rate,
                        payload_pattern,
                        payload_length,
                        adjust_burst_sifs_gap,
                        adjust_sifs_us,
                        short_preamble,
                        active_subchannel,
                        short_gi,
                        adv_coding,
                        beamforming,
                        greenfield_mode,
                        stbc,
                        signal_bw,
                        num_pkt,
                        max_pkt_ext,
                        beam_change,
                        dcm,
                        doppler,
                        midamble_period,
                        q_num,
                        bssid,
                    ),
                ),
            ),
            MfgCmdModel::TriggerFrame {
                enable,
                standalone_hetb,
                frame_ctrl_type,
                frame_ctrl_subtype,
                frame_duration,
                trigger_type,
                ul_len,
                more_tf,
                cs_required,
                ul_bw,
                ltf_type,
                ltf_mode,
                ltf_symbol,
                ul_stbc,
                ldpc_ess,
                ap_tx_pwr,
                pre_fec_pad_fct,
                pe_disambig,
                spatial_reuse,
                doppler,
                he_sig2,
                aid12,
                ru_alloc_reg,
                ru_alloc,
                ul_coding_type,
                ul_mcs,
                ul_dcm,
                ss_alloc,
                ul_target_rssi,
                mpdu_mu_sf,
                tid_al,
                ac_pl,
                pref_ac,
            } => Ok(
                host_bytes(
                    code,
                    true,
                    trigger_frame_body(
                        enable,
                        standalone_hetb,
                        frame_ctrl_type,
                        frame_ctrl_subtype,
                        frame_duration,
                        trigger_type,
                        ul_len,
                        more_tf,
                        cs_required,
                        ul_bw,
                        ltf_type,
                        ltf_mode,
                        ltf_symbol,
                        ul_stbc,
                        ldpc_ess,
                        ap_tx_pwr,
                        pre_fec_pad_fct,
                        pe_disambig,
                        spatial_reuse,
                        doppler,
                        he_sig2,
                        aid12,
                        ru_alloc_reg,
                        ru_alloc,
                        ul_coding_type,
                        ul_mcs,
                        ul_dcm,
                        ss_alloc,
                        ul_target_rssi,
                        mpdu_mu_sf,
                        tid_al,
                        ac_pl,
                        pref_ac,
                    ),
                ),
            ),
            MfgCmdModel::HeTbTx { enable, qnum, aid, axq0_mu_timer, tx_pwr } => Ok(
                host_bytes(
                    code,
                    true,
                    HeTbTx {
                        enable: flag16(enable),
                        qnum,
                        aid,
                        axq_mu_timer: axq0_mu_timer,
                        tx_power: tx_pwr,
                    },
                ),
            ),
            MfgCmdModel::OtpCalData { write, cal_data } => if cal_data.len() > CAL_DATA_LEN {
                Err(CommandError::CalDataTooLong { len: cal_data.len() as usize })
            } else {
                Ok(
                    host_bytes(
                        code,
                        write,
                        OtpCalDataRdWr {
                            cal_data_status: 0,
                            cal_data_len: cal_data.len() as u32,
                            cal_data: cal_data_buffer(cal_data),
                        },
                    ),
                )
            },
            MfgCmdModel::OtpMacAddr { write, mac_addr } => Ok(
                host_bytes(
                    code,
                    write,
                    OtpMacAddrRdWr { mac_addr: array_of::<MAC_ADDR_LENGTH>(mac_addr) },
                ),
            ),
        }
    }
}

/// The bytes of an encoding result, or its error.
pub open spec fn bytes_result(r: Result<Vec<u8>, CommandError>) -> Result<Seq<u8>, CommandError> {
    match r {
        Ok(v) => Ok(v@),
        Err(e) => Err(e),
    }
}

/// The power field of `tx_power` for `card`.
fn power_field(card: CardType, power_dbm: i32) -> (r: Result<u32, CommandError>)
    ensures
        r == spec_power_field(card, power_dbm),
{
    if card.scales_power() {
        // PowerLevelToDUT11Bits
        let power: i32 = if power_dbm == -1 || power_dbm > 64 || power_dbm < -64 {
            -1
        } else {
            let mut z = power_dbm * 16;
            if z < 0 {
                z += 2048;
            }
            if z > 1024 || power_dbm < -1 {
                return Err(CommandError::PowerTooHigh { max: 1024 });
            }
            z
        };
        assert((-1i32) as u32 == 0xffff_ffffu32) by (bit_vector);
        Ok(power as u32)
    } else {
        if power_dbm > 24 {
            return Err(CommandError::PowerTooHigh { max: 24 });
        }
        Ok(power_dbm as u32)
    }
}

/// `cal_data` padded with zeros to `CAL_DATA_LEN` bytes.
fn pad_cal_data(cal_data: &Vec<u8>) -> (r: [u8; CAL_DATA_LEN])
    requires
        cal_data@.len() <= CAL_DATA_LEN,
    ensures
        r == cal_data_buffer(cal_data@),
{
    let mut buffer = crate::ffi::zero_array::<CAL_DATA_LEN>();
    let mut i: usize = 0;
    while i < cal_data.len()
        invariant
            i <= cal_data@.len() <= CAL_DATA_LEN,
            forall|j: int| 0 <= j < i ==> buffer@[j] == cal_data@[j],
            forall|j: int| i <= j < CAL_DATA_LEN ==> buffer@[j] == 0u8,
        decreases cal_data@.len() - i,
    {
        buffer[i] = cal_data[i];
        i = i + 1;
    }
    let ghost padded = cal_data@ + Seq::new((CAL_DATA_LEN - cal_data@.len()) as nat, |i: int| 0u8);
    assert(buffer@ =~= padded);
    proof {
        lemma_array_of(buffer);
    }
    buffer
}

impl MfgCmd {
    #[verifier::spinoff_prover]
    fn encode_tx_frame(&self, command_number: u32) -> (r: Vec<u8>)
        requires
            self@ is TxFrame,
            command_number == self@.command_number(),
        ensures
            forall|card: CardType| self@.encode(card) == Ok::<Seq<u8>, CommandError>(r@),
    {
        match self {
            MfgCmd::TxFrame { enable, tx_rate, payload_pattern, payload_length, adjust_burst_sifs_gap, adjust_sifs_us, short_preamble, active_subchannel, short_gi, adv_coding, beamforming, greenfield_mode, stbc, signal_bw, num_pkt, max_pkt_ext, beam_change, dcm, doppler, midamble_period, q_num, bssid } => {
                proof {
                    lemma_array_of(*bssid);
                }
                TxFrame2 {
                    enable: flag_u32(*enable),
                    data_rate: *tx_rate,
                    frame_pattern: *payload_pattern,
                    frame_length: *payload_length,
                    bssid: *bssid,
                    adjust_burst_sifs: flag_u16(*adjust_burst_sifs_gap),
                    burst_sifs_in_us: *adjust_sifs_us,
                    short_preamble: flag_u32(*short_preamble),
                    act_sub_ch: active_subchannel.value(),
                    short_gi: flag_u32(*short_gi),
                    adv_coding: flag_u32(*adv_coding),
                    tx_bf: flag_u32(*beamforming),
                    gf_mode: flag_u32(*greenfield_mode),
                    stbc: flag_u32(*stbc),
                    rsvd: [0u32],
                    signal_bw: signal_bw.wire_value(),
                    num_pkt: *num_pkt as u32,
                    max_pe: *max_pkt_ext as u32,
                    beam_change: *beam_change as u32,
                    dcm: *dcm as u32,
                    doppler: *doppler as u32,
                    mid_p: *midamble_period as u32,
                    q_num: *q_num as u32,
                }.into_host_cmd(command_number, true).to_vec()
            },
            _ => Vec::new(),
        }
    }

    #[verifier::spinoff_prover]
    fn encode_trigger_frame(&self, command_number: u32) -> (r: Vec<u8>)
        requires
            self@ is TriggerFrame,
            command_number == self@.command_number(),
        ensures
            forall|card: CardType| self@.encode(card) == Ok::<Seq<u8>, CommandError>(r@),
    {
        match self {
            MfgCmd::TriggerFrame { enable, standalone_hetb, frame_ctrl_type, frame_ctrl_subtype, frame_duration, trigger_type, ul_len, more_tf, cs_required, ul_bw, ltf_type, ltf_mode, ltf_symbol, ul_stbc, ldpc_ess, ap_tx_pwr, pre_fec_pad_fct, pe_disambig, spatial_reuse, doppler, he_sig2, aid12, ru_alloc_reg, ru_alloc, ul_coding_type, ul_mcs, ul_dcm, ss_alloc, ul_target_rssi, mpdu_mu_sf, tid_al, ac_pl, pref_ac } => IeeetypesCtlBasicTrigHdr {
                enable_tx: flag_u32(*enable),
                standalone_hetb: standalone_hetb.value(),
                frm_ctl: IeeetypesFrameCtrl {
                    protocol_version: 0,
                    frame_type: *frame_ctrl_type,
                    sub_type: *frame_ctrl_subtype,
                    to_ds: 0,
                    from_ds: 0,
                    more_frag: 0,
                    retry: 0,
                    pwr_mgmt: 0,
                    more_data: 0,
                    wep: 0,
                    order: 0,
                },
                duration: *frame_duration,
                // Not filled by wlan_cmd_mfg_config_trigger_frame
                dest_addr: crate::ffi::zero_array::<MAC_ADDR_LENGTH>(),
                src_addr: crate::ffi::zero_array::<MAC_ADDR_LENGTH>(),
                trig_common_field: IeeetypesHeTrigComInfo {
                    trigger_type: *trigger_type,
                    ul_len: *ul_len,
                    more_tf: flag_u64(*more_tf),
                    cs_required: flag_u64(*cs_required),
                    ul_bw: ul_bw.value(),
                    ltf_type: *ltf_type,
                    ltf_mode: flag_u64(*ltf_mode),
                    ltf_symbol: ltf_symbol.value(),
                    ul_stbc: flag_u64(*ul_stbc),
                    ldpc_ess: flag_u64(*ldpc_ess),
                    ap_tx_pwr: *ap_tx_pwr,
                    pre_fec_pad_fct: *pre_fec_pad_fct,
                    pe_disambig: flag_u64(*pe_disambig),
                    spatial_reuse: *spatial_reuse,
                    doppler: flag_u64(*doppler),
                    he_sig2: *he_sig2,
                    reserved: 0,
                },
                trig_user_info_field: IeeetypesHeTrigUserInfo {
                    bits: IeeetypesHeTrigUserInfoBits {
                        aid12: *aid12,
                        ru_alloc_reg: flag_u32(*ru_alloc_reg),
                        ru_alloc: *ru_alloc,
                        ul_coding_type: flag_u32(*ul_coding_type),
                        ul_mcs: *ul_mcs,
                        ul_dcm: flag_u32(*ul_dcm),
                        ss_alloc: ss_alloc.value(),
                    },
                    rssi: IeeetypesHeTrigUserInfoRssi { ul_target_rssi: *ul_target_rssi, reserved: 0 },
                },
                basic_trig_user_info: IeeetypesBasicHeTrigUserInfo {
                    mpdu_mu_sf: *mpdu_mu_sf,
                    tid_al: *tid_al,
                    ac_pl: flag_u8(*ac_pl),
                    pref_ac: *pref_ac,
                },
            }.into_host_cmd(command_number, true).to_vec(),
            _ => Vec::new(),
        }
    }

    #[verifier::spinoff_prover]
    fn encode_otp_cal_data(&self, command_number: u32) -> (r: Result<Vec<u8>, CommandError>)
        requires
            self@ is OtpCalData,
            command_number == self@.command_number(),
        ensures
            forall|card: CardType| bytes_result(r) == self@.encode(card),
    {
        match self {
            MfgCmd::OtpCalData { write, cal_data } => {
                if cal_data.len() > CAL_DATA_LEN {
                    return Err(CommandError::CalDataTooLong { len: cal_data.len() });
                }
                Ok(
                    OtpCalDataRdWr {
                        cal_data_status: 0,  // Probably filled by firmware response
                        cal_data_len: cal_data.len() as u32,
                        cal_data: pad_cal_data(cal_data),
                    }.into_host_cmd(command_number, *write).to_vec(),
                )
            },
            _ => Ok(Vec::new()),
        }
    }
}

impl MfgCmd {
    /// Convert the command struct into a byte buffer for sending to the firmware.
    /// Every field that travels in a bit field must fit its width
    /// (`fits_bit_fields`): the bit field setters refuse wider values.
    #[verifier::spinoff_prover]
    pub fn into_host_command_buffer(&self, card_type: CardType) -> (r: Result<Vec<u8>, CommandError>)
        requires
            self@.fits_bit_fields(),
        ensures
            bytes_result(r) == self@.encode(card_type),
    {
        // See woal_config_write in the mwifiex driver for how these commands are constructed.
        let command_number = self.command_number();
        let buffer = match self {
            MfgCmd::RfTestMode { .. } => GenericCfg { data1: 0, data2: 0, data3: 0 }.into_host_cmd(
                command_number,
                true,
            ).to_vec(),
            MfgCmd::TxAntenna { mode } => GenericCfg {
                data1: mode.value(),
                data2: 0,
                data3: 0,
            }.into_host_cmd(command_number, true).to_vec(),
            MfgCmd::RxAntenna { mode } => GenericCfg {
                data1: mode.value(),
                data2: 0,
                data3: 0,
            }.into_host_cmd(command_number, true).to_vec(),
            MfgCmd::RadioMode { radio0, radio1 } => GenericCfg {
                data1: *radio0,
                data2: *radio1,
                data3: 0,
            }.into_host_cmd(command_number, true).to_vec(),
            MfgCmd::RfBand { band } => GenericCfg {
                data1: band.value(),
                data2: 0,
                data3: 0,
            }.into_host_cmd(command_number, true).to_vec(),
            MfgCmd::ChannelBandwidth { bandwidth } => GenericCfg {
                data1: bandwidth.value(),
                data2: 0,
                data3: 0,
            }.into_host_cmd(command_number, true).to_vec(),
            MfgCmd::RfChannel { channel } => GenericCfg {
                data1: *channel as u32,
                data2: 0,
                data3: 0,
            }.into_host_cmd(command_number, true).to_vec(),
            MfgCmd::GetAndResetPer { .. } => GenericCfg {
                data1: 0,
                data2: 0,
                data3: 0,
            }.into_host_cmd(command_number, false).to_vec(),
            MfgCmd::TxPower { power_dbm, modulation, path } => {
                let power = power_field(card_type, *power_dbm)?;
                GenericCfg {
                    data1: power,
                    data2: modulation.value(),
                    data3: path.value(),
                }.into_host_cmd(command_number, true).to_vec()
            },
            MfgCmd::TxContinuous {
                enable,
                continuous_wave_mode,
                payload_pattern,
                cs_mode,
                active_subchannel,
                tx_rate,
            } => TxCont {
                enable_tx: flag_u32(*enable),
                cw_mode: flag_u32(*continuous_wave_mode),
                payload_pattern: *payload_pattern,
                cs_mode: flag_u32(*cs_mode),
                act_sub_ch: active_subchannel.value(),
                tx_rate: *tx_rate,
                rsvd: 0,
            }.into_host_cmd(command_number, true).to_vec(),
            MfgCmd::TxFrame { .. } => self.encode_tx_frame(command_number),
            MfgCmd::TriggerFrame { .. } => self.encode_trigger_frame(command_number),
            MfgCmd::HeTbTx { enable, qnum, aid, axq0_mu_timer, tx_pwr } => HeTbTx {
                enable: flag_u16(*enable),
                qnum: *qnum,
                aid: *aid,
                axq_mu_timer: *axq0_mu_timer,
                tx_power: *tx_pwr,
            }.into_host_cmd(command_number, true).to_vec(),
            MfgCmd::OtpCalData { .. } => self.encode_otp_cal_data(command_number)?,
            MfgCmd::OtpMacAddr { write, mac_addr } => {
                proof {
                    lemma_array_of(*mac_addr);
                }
                OtpMacAddrRdWr { mac_addr: *mac_addr }.into_host_cmd(command_number, *write).to_vec()
            },
        };
        Ok(buffer)
    }
}

/// The response header at the start of `buf`, or why there is none.
pub open spec fn spec_parse_header(buf: Seq<u8>) -> Result<HostCmd<MfgCmdHeader<()>>, CommandError> {
    if buf.len() < 20 {
        Err(CommandError::ResponseTooShort { needed: 20 })
    } else {
        Ok(HostCmd::<MfgCmdHeader<()>>::parse_wire(buf.take(20)))
    }
}

/// The command body of type `T` in the response `buf`, or why there is none.
pub open spec fn spec_parse_body<T: WireFormat>(buf: Seq<u8>) -> Result<T, CommandError> {
    let n = 20 + T::wire_len();
    if buf.len() < n {
        Err(CommandError::ResponseTooShort { needed: n as usize })
    } else {
        Ok(HostCmd::<MfgCmdHeader<T>>::parse_wire(buf.take(n as int)).body.body)
    }
}

pub open spec fn value_error<T>(r: Result<T, InvalidValue>) -> CommandError {
    CommandError::InvalidValue(r->Err_0)
}

/// The `tx_frame` command that a frame body describes.
pub open spec fn decode_tx_frame(b: TxFrame2) -> Result<MfgCmdModel, CommandError> {
    let sub = ActiveSubchannel::spec_from_value(b.act_sub_ch);
    let bw = SignalBandwidth::spec_from_value(b.signal_bw);
    if sub is Err {
        Err(value_error(sub))
    } else if bw is Err {
        Err(value_error(bw))
    } else {
        Ok(
            MfgCmdModel::TxFrame {
                enable: b.enable != 0,
                tx_rate: b.data_rate,
                payload_pattern: b.frame_pattern,
                payload_length: b.frame_length,
                adjust_burst_sifs_gap: b.adjust_burst_sifs != 0,
                adjust_sifs_us: b.burst_sifs_in_us,
                short_preamble: b.short_preamble != 0,
                active_subchannel: sub->Ok_0,
                short_gi: b.short_gi != 0,
                adv_coding: b.adv_coding != 0,
                beamforming: b.tx_bf != 0,
                greenfield_mode: b.gf_mode != 0,
                stbc: b.stbc != 0,
                signal_bw: bw->Ok_0,
                num_pkt: b.num_pkt as i32,
                max_pkt_ext: b.max_pe as i32,
                beam_change: b.beam_change as i32,
                dcm: b.dcm as i32,
                doppler: b.doppler as i32,
                midamble_period: b.mid_p as i32,
                q_num: b.q_num as i32,
                bssid: b.bssid@,
            },
        )
    }
}

/// The `trigger_frame` command that a trigger frame body describes.
pub open spec fn decode_trigger_frame(b: IeeetypesCtlBasicTrigHdr) -> Result<MfgCmdModel, CommandError> {
    let com = b.trig_common_field;
    let bits = b.trig_user_info_field.bits;
    let rssi = b.trig_user_info_field.rssi;
    let basic = b.basic_trig_user_info;
    let hetb = StandaloneHeTbMode::spec_from_value(b.standalone_hetb);
    let ul_bw = UlBandwidth::spec_from_value(com.ul_bw);
    let ltf_symbol = LtfSymbol::spec_from_value(com.ltf_symbol);
    let ss_alloc = SpatialStreamAllocation::spec_from_value(bits.ss_alloc);
    if hetb is Err {
        Err(value_error(hetb))
    } else if ul_bw is Err {
        Err(value_error(ul_bw))
    } else if ltf_symbol is Err {
        Err(value_error(ltf_symbol))
    } else if ss_alloc is Err {
        Err(value_error(ss_alloc))
    } else {
        Ok(
            MfgCmdModel::TriggerFrame {
                enable: b.enable_tx != 0,
                standalone_hetb: hetb->Ok_0,
                frame_ctrl_type: b.frm_ctl.frame_type,
                frame_ctrl_subtype: b.frm_ctl.sub_type,
                frame_duration: b.duration,
                trigger_type: com.trigger_type,
                ul_len: com.ul_len,
                more_tf: com.more_tf != 0,
                cs_required: com.cs_required != 0,
                ul_bw: ul_bw->Ok_0,
                ltf_type: com.ltf_type,
                ltf_mode: com.ltf_mode != 0,
                ltf_symbol: ltf_symbol->Ok_0,
                ul_stbc: com.ul_stbc != 0,
                ldpc_ess: com.ldpc_ess != 0,
                ap_tx_pwr: com.ap_tx_pwr,
                pre_fec_pad_fct: com.pre_fec_pad_fct,
                pe_disambig: com.pe_disambig != 0,
                spatial_reuse: com.spatial_reuse,
                doppler: com.doppler != 0,
                he_sig2: com.he_sig2,
                aid12: bits.aid12,
                ru_alloc_reg: bits.ru_alloc_reg != 0,
                ru_alloc: bits.ru_alloc,
                ul_coding_type: bits.ul_coding_type != 0,
                ul_mcs: bits.ul_mcs,
                ul_dcm: bits.ul_dcm != 0,
                ss_alloc: ss_alloc->Ok_0,
                ul_target_rssi: rssi.ul_target_rssi,
                mpdu_mu_sf: basic.mpdu_mu_sf,
                tid_al: basic.tid_al,
                ac_pl: basic.ac_pl != 0,
                pref_ac: basic.pref_ac,
            },
        )
    }
}

/// The command that the body of the response `buf` describes, for a
/// request of the same kind as `self`.
pub open spec fn decode_body(req: MfgCmdModel, buf: Seq<u8>) -> Result<MfgCmdModel, CommandError> {
    match req {
        MfgCmdModel::RfTestMode { .. } => Ok(MfgCmdModel::RfTestMode { enable: req.command_number() != 0 }),
        MfgCmdModel::TxAntenna { .. } => match spec_parse_body::<GenericCfg>(buf) {
            Err(e) => Err(e),
            Ok(b) => match AntennaMode::spec_from_value(b.data1) {
                Ok(mode) => Ok(MfgCmdModel::TxAntenna { mode }),
                Err(e) => Err(CommandError::InvalidValue(e)),
            },
        },
        MfgCmdModel::RxAntenna { .. } => match spec_parse_body::<GenericCfg>(buf) {
            Err(e) => Err(e),
            Ok(b) => match AntennaMode::spec_from_value(b.data1) {
                Ok(mode) => Ok(MfgCmdModel::RxAntenna { mode }),
                Err(e) => Err(CommandError::InvalidValue(e)),
            },
        },
        MfgCmdModel::RadioMode { .. } => match spec_parse_body::<GenericCfg>(buf) {
            Err(e) => Err(e),
            Ok(b) => Ok(MfgCmdModel::RadioMode { radio0: b.data1, radio1: b.data2 }),
        },
        MfgCmdModel::RfBand { .. } => match spec_parse_body::<GenericCfg>(buf) {
            Err(e) => Err(e),
            Ok(b) => match RfBand::spec_from_value(b.data1) {
                Ok(band) => Ok(MfgCmdModel::RfBand { band }),
                Err(e) => Err(CommandError::InvalidValue(e)),
            },
        },
        MfgCmdModel::ChannelBandwidth { .. } => match spec_parse_body::<GenericCfg>(buf) {
            Err(e) => Err(e),
            Ok(b) => match ChannelBandwidth::spec_from_value(b.data1) {
                Ok(bandwidth) => Ok(MfgCmdModel::ChannelBandwidth { bandwidth }),
                Err(e) => Err(CommandError::InvalidValue(e)),
            },
        },
        MfgCmdModel::RfChannel { .. } => match spec_parse_body::<GenericCfg>(buf) {
            Err(e) => Err(e),
            Ok(b) => Ok(MfgCmdModel::RfChannel { channel: b.data1 as u16 }),
        },
        MfgCmdModel::GetAndResetPer { .. } => match spec_parse_body::<GenericCfg>(buf) {
            Err(e) => Err(e),
            Ok(b) => Ok(
                MfgCmdModel::GetAndResetPer {
                    rx_total_packet_count: b.data1,
                    rx_multi_broadcast_packet_count: b.data2,
                    rx_frame_check_sequence_errors: b.data3,
                },
            ),
        },
        MfgCmdModel::TxPower { .. } => match spec_parse_body::<GenericCfg>(buf) {
            Err(e) => Err(e),
            Ok(b) => match Modulation::spec_from_value(b.data2) {
                Err(e) => Err(CommandError::InvalidValue(e)),
                Ok(modulation) => match TxPathId::spec_from_value(b.data3) {
                    Err(e) => Err(CommandError::InvalidValue(e)),
                    Ok(path) => Ok(MfgCmdModel::TxPower { power_dbm: b.data1 as i32, modulation, path }),
                },
            },
        },
        MfgCmdModel::TxContinuous { .. } => match spec_parse_body::<TxCont>(buf) {
            Err(e) => Err(e),
            Ok(b) => match ActiveSubchannel::spec_from_value(b.act_sub_ch) {
                Err(e) => Err(CommandError::InvalidValue(e)),
                Ok(active_subchannel) => Ok(
                    MfgCmdModel::TxContinuous {
                        enable: b.enable_tx != 0,
                        continuous_wave_mode: b.cw_mode != 0,
                        payload_pattern: b.payload_pattern,
                        cs_mode: b.cs_mode != 0,
                        active_subchannel,
                        tx_rate: b.tx_rate,
                    },
                ),
            },
        },
        MfgCmdModel::TxFrame { .. } => match spec_parse_body::<TxFrame2>(buf) {
            Err(e) => Err(e),
            Ok(b) => decode_tx_frame(b),
        },
        MfgCmdModel::TriggerFrame { .. } => match spec_parse_body::<IeeetypesCtlBasicTrigHdr>(buf) {
            Err(e) => Err(e),
            Ok(b) => decode_trigger_frame(b),
        },
        MfgCmdModel::HeTbTx { .. } => match spec_parse_body::<HeTbTx>(buf) {
            Err(e) => Err(e),
            Ok(b) => Ok(
                MfgCmdModel::HeTbTx {
                    enable: b.enable != 0,
                    qnum: b.qnum,
                    aid: b.aid,
                    axq0_mu_timer: b.axq_mu_timer,
                    tx_pwr: b.tx_power,
                },
            ),
        },
        MfgCmdModel::OtpCalData { write, .. } => match spec_parse_body::<OtpCalDataRdWr>(buf) {
            Err(e) => Err(e),
            Ok(b) => {
                let len = if b.cal_data_len < CAL_DATA_LEN {
                    b.cal_data_len as int
                } else {
                    CAL_DATA_LEN as int
                };
                Ok(MfgCmdModel::OtpCalData { write, cal_data: b.cal_data@.take(len) })
            },
        },
        MfgCmdModel::OtpMacAddr { write, .. } => match spec_parse_body::<OtpMacAddrRdWr>(buf) {
            Err(e) => Err(e),
            Ok(b) => Ok(MfgCmdModel::OtpMacAddr { write, mac_addr: b.mac_addr@ }),
        },
    }
}

impl MfgCmdModel {
    /// The command that the firmware's response `buf` to `self` reports, or
    /// why the response is rejected: too short for the header, a failure
    /// result in the header, another command's code, too short for the body,
    /// or a field that names no selection.
    pub open spec fn decode_response(self, buf: Seq<u8>) -> Result<MfgCmdModel, CommandError> {
        match spec_parse_header(buf) {
            Err(e) => Err(e),
            Ok(header) => if header.result != 0 {
                Err(CommandError::Firmware { header })
            } else if header.body.mfg_cmd != self.command_number() {
                Err(
                    CommandError::WrongCommand {
                        expected: self.command_number(),
                        received: header.body.mfg_cmd,
                    },
                )
            } else {
                decode_body(self, buf)
            },
        }
    }
}

/// Whether every selection code that the body of the response `buf` to
/// `req` carries names a selection of its enumeration.
pub open spec fn codes_name_selections(req: MfgCmdModel, buf: Seq<u8>) -> bool {
    match req {
        MfgCmdModel::TxAntenna { .. } | MfgCmdModel::RxAntenna { .. } => {
            spec_parse_body::<GenericCfg>(buf) matches Ok(b) ==> AntennaMode::spec_from_value(
                b.data1,
            ) is Ok
        },
        MfgCmdModel::RfBand { .. } => spec_parse_body::<GenericCfg>(buf) matches Ok(b)
            ==> RfBand::spec_from_value(b.data1) is Ok,
        MfgCmdModel::ChannelBandwidth { .. } => spec_parse_body::<GenericCfg>(buf) matches Ok(b)
            ==> ChannelBandwidth::spec_from_value(b.data1) is Ok,
        MfgCmdModel::TxPower { .. } => spec_parse_body::<GenericCfg>(buf) matches Ok(b) ==> (
        Modulation::spec_from_value(b.data2) is Ok && TxPathId::spec_from_value(b.data3) is Ok),
        MfgCmdModel::TxContinuous { .. } => spec_parse_body::<TxCont>(buf) matches Ok(b)
            ==> ActiveSubchannel::spec_from_value(b.act_sub_ch) is Ok,
        MfgCmdModel::TxFrame { .. } => spec_parse_body::<TxFrame2>(buf) matches Ok(b) ==> (
        ActiveSubchannel::spec_from_value(b.act_sub_ch) is Ok && SignalBandwidth::spec_from_value(
            b.signal_bw,
        ) is Ok),
        MfgCmdModel::TriggerFrame { .. } => spec_parse_body::<IeeetypesCtlBasicTrigHdr>(buf) matches Ok(
            b,
        ) ==> ({
            &&& StandaloneHeTbMode::spec_from_value(b.standalone_hetb) is Ok
            &&& UlBandwidth::spec_from_value(b.trig_common_field.ul_bw) is Ok
            &&& LtfSymbol::spec_from_value(b.trig_common_field.ltf_symbol) is Ok
            &&& SpatialStreamAllocation::spec_from_value(b.trig_user_info_field.bits.ss_alloc) is Ok
        }),
        _ => true,
    }
}

/// Whether two commands are of the same kind.
pub open spec fn same_kind(a: MfgCmdModel, b: MfgCmdModel) -> bool {
    match (a, b) {
        (MfgCmdModel::RfTestMode { .. }, MfgCmdModel::RfTestMode { .. }) => true,
        (MfgCmdModel::TxAntenna { .. }, MfgCmdModel::TxAntenna { .. }) => true,
        (MfgCmdModel::RxAntenna { .. }, MfgCmdModel::RxAntenna { .. }) => true,
        (MfgCmdModel::RadioMode { .. }, MfgCmdModel::RadioMode { .. }) => true,
        (MfgCmdModel::RfBand { .. }, MfgCmdModel::RfBand { .. }) => true,
        (MfgCmdModel::ChannelBandwidth { .. }, MfgCmdModel::ChannelBandwidth { .. }) => true,
        (MfgCmdModel::RfChannel { .. }, MfgCmdModel::RfChannel { .. }) => true,
        (MfgCmdModel::GetAndResetPer { .. }, MfgCmdModel::GetAndResetPer { .. }) => true,
        (MfgCmdModel::TxPower { .. }, MfgCmdModel::TxPower { .. }) => true,
        (MfgCmdModel::TxContinuous { .. }, MfgCmdModel::TxContinuous { .. }) => true,
        (MfgCmdModel::TxFrame { .. }, MfgCmdModel::TxFrame { .. }) => true,
        (MfgCmdModel::TriggerFrame { .. }, MfgCmdModel::TriggerFrame { .. }) => true,
        (MfgCmdModel::HeTbTx { .. }, MfgCmdModel::HeTbTx { .. }) => true,
        (MfgCmdModel::OtpCalData { .. }, MfgCmdModel::OtpCalData { .. }) => true,
        (MfgCmdModel::OtpMacAddr { .. }, MfgCmdModel::OtpMacAddr { .. }) => true,
        _ => false,
    }
}

/// A response that decodes answers with a command of the request's kind,
/// and only when every selection code in it names a selection: a code that
/// names none makes the response an error.
#[verifier::spinoff_prover]
pub proof fn lemma_decoded_response(req: MfgCmdModel, buf: Seq<u8>)
    ensures
        req.decode_response(buf) matches Ok(c) ==> same_kind(req, c),
        req.decode_response(buf) is Ok ==> codes_name_selections(req, buf),
{
}

/// The model of a decoding result.
pub open spec fn cmd_result(r: Result<MfgCmd, CommandError>) -> Result<MfgCmdModel, CommandError> {
    match r {
        Ok(c) => Ok(c@),
        Err(e) => Err(e),
    }
}

fn parse_header(buffer: &[u8]) -> (r: Result<HostCmd<MfgCmdHeader<()>>, CommandError>)
    ensures
        r == spec_parse_header(buffer@),
{
    let size: usize = 20;
    if buffer.len() < size {
        return Err(CommandError::ResponseTooShort { needed: size });
    }
    let header = HostCmd::<MfgCmdHeader<()>>::read_wire(buffer, 0);
    assert(buffer@.subrange(0, 20) =~= buffer@.take(20));
    Ok(header)
}

fn parse_body<T: MwifiexMfgCmd>(buffer: &[u8]) -> (r: Result<T, CommandError>)
    ensures
        r == spec_parse_body::<T>(buffer@),
{
    proof {
        T::lemma_body_size();
    }
    let size: usize = 20 + T::wire_size().unwrap();
    if buffer.len() < size {
        return Err(CommandError::ResponseTooShort { needed: size });
    }
    let cmd = HostCmd::<MfgCmdHeader<T>>::read_wire(buffer, 0);
    assert(buffer@.subrange(0, size as int) =~= buffer@.take(size as int));
    Ok(cmd.body.body)
}

/// `len` capped at `CAL_DATA_LEN`.
fn cal_data_len(len: u32) -> (r: usize)
    ensures
        r == (if len < CAL_DATA_LEN {
            len as int
        } else {
            CAL_DATA_LEN as int
        }),
{
    if (len as u64) < (CAL_DATA_LEN as u64) {
        len as usize
    } else {
        CAL_DATA_LEN
    }
}

/// The first `len` bytes of `data`.
fn prefix_vec(data: &[u8], len: usize) -> (r: Vec<u8>)
    requires
        len <= data@.len(),
    ensures
        r@ == data@.take(len as int),
{
    let mut out: Vec<u8> = Vec::new();
    let mut i: usize = 0;
    while i < len
        invariant
            i <= len <= data@.len(),
            out@ == data@.take(i as int),
        decreases len - i,
    {
        out.push(data[i]);
        i = i + 1;
        assert(out@ =~= data@.take(i as int));
    }
    out
}

impl MfgCmd {
    #[verifier::spinoff_prover]
    fn tx_frame_from_body(b: TxFrame2) -> (r: Result<MfgCmd, CommandError>)
        ensures
            cmd_result(r) == decode_tx_frame(b),
    {
        let active_subchannel = match ActiveSubchannel::try_from(b.act_sub_ch) {
            Ok(v) => v,
            Err(e) => return Err(CommandError::InvalidValue(e)),
        };
        let signal_bw = match SignalBandwidth::try_from(b.signal_bw) {
            Ok(v) => v,
            Err(e) => return Err(CommandError::InvalidValue(e)),
        };
        Ok(
            MfgCmd::TxFrame {
                enable: b.enable != 0,
                tx_rate: b.data_rate,
                payload_pattern: b.frame_pattern,
                payload_length: b.frame_length,
                adjust_burst_sifs_gap: b.adjust_burst_sifs != 0,
                adjust_sifs_us: b.burst_sifs_in_us,
                short_preamble: b.short_preamble != 0,
                active_subchannel,
                short_gi: b.short_gi != 0,
                adv_coding: b.adv_coding != 0,
                beamforming: b.tx_bf != 0,
                greenfield_mode: b.gf_mode != 0,
                stbc: b.stbc != 0,
                signal_bw,
                num_pkt: b.num_pkt as i32,
                max_pkt_ext: b.max_pe as i32,
                beam_change: b.beam_change as i32,
                dcm: b.dcm as i32,
                doppler: b.doppler as i32,
                midamble_period: b.mid_p as i32,
                q_num: b.q_num as i32,
                bssid: b.bssid,
            },
        )
    }

    #[verifier::spinoff_prover]
    fn trigger_frame_from_body(b: IeeetypesCtlBasicTrigHdr) -> (r: Result<MfgCmd, CommandError>)
        ensures
            cmd_result(r) == decode_trigger_frame(b),
    {
        let com = b.trig_common_field;
        let bits = b.trig_user_info_field.bits;
        let rssi = b.trig_user_info_field.rssi;
        let basic = b.basic_trig_user_info;
        let frm_ctl = b.frm_ctl;
        let standalone_hetb = match StandaloneHeTbMode::try_from(b.standalone_hetb) {
            Ok(v) => v,
            Err(e) => return Err(CommandError::InvalidValue(e)),
        };
        let ul_bw = match UlBandwidth::try_from(com.ul_bw) {
            Ok(v) => v,
            Err(e) => return Err(CommandError::InvalidValue(e)),
        };
        let ltf_symbol = match LtfSymbol::try_from(com.ltf_symbol) {
            Ok(v) => v,
            Err(e) => return Err(CommandError::InvalidValue(e)),
        };
        let ss_alloc = match SpatialStreamAllocation::try_from(bits.ss_alloc) {
            Ok(v) => v,
            Err(e) => return Err(CommandError::InvalidValue(e)),
        };
        Ok(
            MfgCmd::TriggerFrame {
                enable: b.enable_tx != 0,
                standalone_hetb,
                frame_ctrl_type: frm_ctl.frame_type,
                frame_ctrl_subtype: frm_ctl.sub_type,
                frame_duration: b.duration,
                trigger_type: com.trigger_type,
                ul_len: com.ul_len,
                more_tf: com.more_tf != 0,
                cs_required: com.cs_required != 0,
                ul_bw,
                ltf_type: com.ltf_type,
                ltf_mode: com.ltf_mode != 0,
                ltf_symbol,
                ul_stbc: com.ul_stbc != 0,
                ldpc_ess: com.ldpc_ess != 0,
                ap_tx_pwr: com.ap_tx_pwr,
                pre_fec_pad_fct: com.pre_fec_pad_fct,
                pe_disambig: com.pe_disambig != 0,
                spatial_reuse: com.spatial_reuse,
                doppler: com.doppler != 0,
                he_sig2: com.he_sig2,
                aid12: bits.aid12,
                ru_alloc_reg: bits.ru_alloc_reg != 0,
                ru_alloc: bits.ru_alloc,
                ul_coding_type: bits.ul_coding_type != 0,
                ul_mcs: bits.ul_mcs,
                ul_dcm: bits.ul_dcm != 0,
                ss_alloc,
                ul_target_rssi: rssi.ul_target_rssi,
                mpdu_mu_sf: basic.mpdu_mu_sf,
                tid_al: basic.tid_al,
                ac_pl: basic.ac_pl != 0,
                pref_ac: basic.pref_ac,
            },
        )
    }

    /// Decode the firmware's response to this command.
    #[verifier::spinoff_prover]
    pub fn from_host_command_response(&self, buffer: &[u8]) -> (r: Result<Self, CommandError>)
        ensures
            cmd_result(r) == self@.decode_response(buffer@),
    {
        let command_number = self.command_number();
        let header = parse_header(buffer)?;
        if header.result != 0 {
            return Err(CommandError::Firmware { header });
        }
        if header.body.mfg_cmd != command_number {
            let resp_cmd = header.body.mfg_cmd;
            return Err(CommandError::WrongCommand { expected: command_number, received: resp_cmd });
        }
        let r = match self {
            MfgCmd::RfTestMode { .. } => MfgCmd::RfTestMode { enable: header.body.mfg_cmd != 0 },
            MfgCmd::TxAntenna { .. } => {
                let body: GenericCfg = parse_body(buffer)?;
                match AntennaMode::try_from(body.data1) {
                    Ok(mode) => MfgCmd::TxAntenna { mode },
                    Err(e) => return Err(CommandError::InvalidValue(e)),
                }
            },
            MfgCmd::RxAntenna { .. } => {
                let body: GenericCfg = parse_body(buffer)?;
                match AntennaMode::try_from(body.data1) {
                    Ok(mode) => MfgCmd::RxAntenna { mode },
                    Err(e) => return Err(CommandError::InvalidValue(e)),
                }
            },
            MfgCmd::RadioMode { .. } => {
                let body: GenericCfg = parse_body(buffer)?;
                MfgCmd::RadioMode { radio0: body.data1, radio1: body.data2 }
            },
            MfgCmd::RfBand { .. } => {
                let body: GenericCfg = parse_body(buffer)?;
                match RfBand::try_from(body.data1) {
                    Ok(band) => MfgCmd::RfBand { band },
                    Err(e) => return Err(CommandError::InvalidValue(e)),
                }
            },
            MfgCmd::ChannelBandwidth { .. } => {
                let body: GenericCfg = parse_body(buffer)?;
                match ChannelBandwidth::try_from(body.data1) {
                    Ok(bandwidth) => MfgCmd::ChannelBandwidth { bandwidth },
                    Err(e) => return Err(CommandError::InvalidValue(e)),
                }
            },
            MfgCmd::RfChannel { .. } => {
                let body: GenericCfg = parse_body(buffer)?;
                MfgCmd::RfChannel { channel: body.data1 as u16 }
            },
            MfgCmd::GetAndResetPer { .. } => {
                let body: GenericCfg = parse_body(buffer)?;
                MfgCmd::GetAndResetPer {
                    rx_total_packet_count: body.data1,
                    rx_multi_broadcast_packet_count: body.data2,
                    rx_frame_check_sequence_errors: body.data3,
                }
            },
            MfgCmd::TxPower { .. } => {
                let body: GenericCfg = parse_body(buffer)?;
                let modulation = match Modulation::try_from(body.data2) {
                    Ok(v) => v,
                    Err(e) => return Err(CommandError::InvalidValue(e)),
                };
                let path = match TxPathId::try_from(body.data3) {
                    Ok(v) => v,
                    Err(e) => return Err(CommandError::InvalidValue(e)),
                };
                MfgCmd::TxPower { power_dbm: body.data1 as i32, modulation, path }
            },
            MfgCmd::TxContinuous { .. } => {
                let body: TxCont = parse_body(buffer)?;
                let active_subchannel = match ActiveSubchannel::try_from(body.act_sub_ch) {
                    Ok(v) => v,
                    Err(e) => return Err(CommandError::InvalidValue(e)),
                };
                MfgCmd::TxContinuous {
                    enable: body.enable_tx != 0,
                    continuous_wave_mode: body.cw_mode != 0,
                    payload_pattern: body.payload_pattern,
                    cs_mode: body.cs_mode != 0,
                    active_subchannel,
                    tx_rate: body.tx_rate,
                }
            },
            MfgCmd::TxFrame { .. } => {
                let body: TxFrame2 = parse_body(buffer)?;
                Self::tx_frame_from_body(body)?
            },
            MfgCmd::TriggerFrame { .. } => {
                let body: IeeetypesCtlBasicTrigHdr = parse_body(buffer)?;
                Self::trigger_frame_from_body(body)?
            },
            MfgCmd::HeTbTx { .. } => {
                let body: HeTbTx = parse_body(buffer)?;
                MfgCmd::HeTbTx {
                    enable: body.enable != 0,
                    qnum: body.qnum,
                    aid: body.aid,
                    axq0_mu_timer: body.axq_mu_timer,
                    tx_pwr: body.tx_power,
                }
            },
            MfgCmd::OtpCalData { write: rd_wr, .. } => {
                let body: OtpCalDataRdWr = parse_body(buffer)?;
                let len = cal_data_len(body.cal_data_len);
                MfgCmd::OtpCalData { write: *rd_wr, cal_data: prefix_vec(body.cal_data.as_slice(), len) }
            },
            MfgCmd::OtpMacAddr { write: rd_wr, .. } => {
                let body: OtpMacAddrRdWr = parse_body(buffer)?;
                MfgCmd::OtpMacAddr { write: *rd_wr, mac_addr: body.mac_addr }
            },
        };
        Ok(r)
    }
}

/// The header of a command that the library encodes.
pub open spec fn own_header(code: u32, write: bool, body_len: nat) -> HostCmd<MfgCmdHeader<()>> {
    HostCmd {
        command: crate::ffi::HOST_CMD_CMD_MFG_COMMAND,
        size: (8 + 12 + body_len) as u16,
        seq_num: 0,
        result: 0,
        body: MfgCmdHeader::spec_new(code, write, ()),
    }
}

/// Parsing the bytes of an encoded command gives back its header and body.
pub proof fn lemma_parse_own_bytes<T: WireFormat>(code: u32, write: bool, body: T)
    requires
        body.fits(),
        8 + 12 + T::wire_len() <= u16::MAX,
    ensures
        host_bytes(code, write, body).len() == 20 + T::wire_len(),
        spec_parse_header(host_bytes(code, write, body)) == Ok::<
            HostCmd<MfgCmdHeader<()>>,
            CommandError,
        >(own_header(code, write, T::wire_len())),
        spec_parse_body::<T>(host_bytes(code, write, body)) == Ok::<T, CommandError>(body),
{
    let h = HostCmd::spec_default_with(MfgCmdHeader::spec_new(code, write, body));
    let buf = h.wire();
    h.lemma_wire_len();
    body.lemma_wire_len();
    let h0 = own_header(code, write, T::wire_len());
    h0.lemma_wire_len();
    assert(buf.take(20) =~= h0.wire());
    h0.lemma_round_trip();
    assert(buf.take((20 + T::wire_len()) as int) =~= buf);
    h.lemma_round_trip();
}

/// An array whose view is any given sequence of the right length exists.
pub proof fn lemma_array_of_view<const N: usize>(s: Seq<u8>)
    requires
        s.len() == N,
    ensures
        array_of::<N>(s)@ == s,
{
    let a = fill_array::<N>(s, N as nat);
    lemma_fill_array::<N>(s, N as nat);
    assert(a@ =~= s);
}

spec fn fill_array<const N: usize>(s: Seq<u8>, k: nat) -> [u8; N]
    decreases k,
{
    if k == 0 {
        vstd::array::spec_array_fill_for_copy_type::<u8, N>(0u8)
    } else {
        vstd::array::spec_array_update(fill_array::<N>(s, (k - 1) as nat), k - 1, s[k - 1])
    }
}

proof fn lemma_fill_array<const N: usize>(s: Seq<u8>, k: nat)
    requires
        s.len() == N,
        k <= N,
    ensures
        fill_array::<N>(s, k)@.len() == N,
        forall|j: int| 0 <= j < k ==> #[trigger] fill_array::<N>(s, k)@[j] == s[j],
    decreases k,
{
    if k > 0 {
        lemma_fill_array::<N>(s, (k - 1) as nat);
    }
}

pub proof fn lemma_i32_u32(v: i32)
    ensures
        (v as u32) as i32 == v,
{
    assert((v as u32) as i32 == v) by (bit_vector);
}

impl MfgCmdModel {
    /// Every byte buffer has the length of its field.
    pub open spec fn wf(self) -> bool {
        match self {
            MfgCmdModel::TxFrame { bssid, .. } => bssid.len() == MAC_ADDR_LENGTH,
            MfgCmdModel::OtpMacAddr { mac_addr, .. } => mac_addr.len() == MAC_ADDR_LENGTH,
            _ => true,
        }
    }

    /// The command as the firmware reads it back from its own encoding on
    /// `card`: the packet error counters of `get_and_reset_per` are not sent,
    /// and `tx_power` carries the power in the card's unit.
    pub open spec fn normalized(self, card: CardType) -> MfgCmdModel {
        match self {
            MfgCmdModel::GetAndResetPer { .. } => MfgCmdModel::GetAndResetPer {
                rx_total_packet_count: 0,
                rx_multi_broadcast_packet_count: 0,
                rx_frame_check_sequence_errors: 0,
            },
            MfgCmdModel::TxPower { power_dbm, modulation, path } => MfgCmdModel::TxPower {
                power_dbm: spec_power_field(card, power_dbm)->Ok_0 as i32,
                modulation,
                path,
            },
            _ => self,
        }
    }

    /// What a dry run reports: the command encoded for `card`, then decoded
    /// from that buffer as if it were the firmware's response.
    pub open spec fn dry_run(self, card: CardType) -> Result<MfgCmdModel, CommandError> {
        match self.encode(card) {
            Ok(buf) => self.decode_response(buf),
            Err(e) => Err(e),
        }
    }
}

/// Decoding the buffer that encoding a command produced gives the command
/// back, as the firmware reads it (see `normalized`).
#[verifier::spinoff_prover]
#[verifier::rlimit(60)]
pub proof fn lemma_decode_encode(cmd: MfgCmdModel, card: CardType)
    requires
        cmd.wf(),
        cmd.fits_bit_fields(),
        cmd.encode(card) is Ok,
    ensures
        cmd.decode_response(cmd.encode(card)->Ok_0) == Ok::<MfgCmdModel, CommandError>(
            cmd.normalized(card),
        ),
{
    let code = cmd.command_number();
    match cmd {
        MfgCmdModel::RfTestMode { .. } => {
            lemma_parse_own_bytes(code, true, generic_cfg(0, 0, 0));
        },
        MfgCmdModel::TxAntenna { mode } => {
            lemma_parse_own_bytes(code, true, generic_cfg(mode.spec_value(), 0, 0));
            mode.lemma_value_round_trip(0);
        },
        MfgCmdModel::RxAntenna { mode } => {
            lemma_parse_own_bytes(code, true, generic_cfg(mode.spec_value(), 0, 0));
            mode.lemma_value_round_trip(0);
        },
        MfgCmdModel::RadioMode { radio0, radio1 } => {
            lemma_parse_own_bytes(code, true, generic_cfg(radio0, radio1, 0));
        },
        MfgCmdModel::RfBand { band } => {
            lemma_parse_own_bytes(code, true, generic_cfg(band.spec_value(), 0, 0));
            band.lemma_value_round_trip(0);
        },
        MfgCmdModel::ChannelBandwidth { bandwidth } => {
            lemma_parse_own_bytes(code, true, generic_cfg(bandwidth.spec_value(), 0, 0));
            bandwidth.lemma_value_round_trip(0);
        },
        MfgCmdModel::RfChannel { channel } => {
            lemma_parse_own_bytes(code, true, generic_cfg(channel as u32, 0, 0));
        },
        MfgCmdModel::GetAndResetPer { .. } => {
            lemma_parse_own_bytes(code, false, generic_cfg(0, 0, 0));
        },
        MfgCmdModel::TxPower { power_dbm, modulation, path } => {
            let p = spec_power_field(card, power_dbm)->Ok_0;
            lemma_parse_own_bytes(code, true, generic_cfg(p, modulation.spec_value(), path.spec_value()));
            modulation.lemma_value_round_trip(0);
            path.lemma_value_round_trip(0);
        },
        MfgCmdModel::TxContinuous { enable, continuous_wave_mode, payload_pattern, cs_mode, active_subchannel, tx_rate } => {
            let body = TxCont {
                enable_tx: flag32(enable),
                cw_mode: flag32(continuous_wave_mode),
                payload_pattern,
                cs_mode: flag32(cs_mode),
                act_sub_ch: active_subchannel.spec_value(),
                tx_rate,
                rsvd: 0,
            };
            lemma_parse_own_bytes(code, true, body);
            active_subchannel.lemma_value_round_trip(0);
        },
        MfgCmdModel::TxFrame { .. } => {
            lemma_decode_encode_tx_frame(cmd, card);
        },
        MfgCmdModel::TriggerFrame { .. } => {
            lemma_decode_encode_trigger_frame(cmd, card);
        },
        MfgCmdModel::HeTbTx { enable, qnum, aid, axq0_mu_timer, tx_pwr } => {
            let body = HeTbTx { enable: flag16(enable), qnum, aid, axq_mu_timer: axq0_mu_timer, tx_power: tx_pwr };
            lemma_parse_own_bytes(code, true, body);
        },
        MfgCmdModel::OtpCalData { write, cal_data } => {
            let buffer = cal_data_buffer(cal_data);
            let body = OtpCalDataRdWr {
                cal_data_status: 0,
                cal_data_len: cal_data.len() as u32,
                cal_data: buffer,
            };
            lemma_parse_own_bytes(code, write, body);
            let padded = cal_data + Seq::new((CAL_DATA_LEN - cal_data.len()) as nat, |i: int| 0u8);
            lemma_array_of_view::<CAL_DATA_LEN>(padded);
            assert(buffer@.take(cal_data.len() as int) =~= cal_data);
        },
        MfgCmdModel::OtpMacAddr { write, mac_addr } => {
            let body = OtpMacAddrRdWr { mac_addr: array_of::<MAC_ADDR_LENGTH>(mac_addr) };
            lemma_parse_own_bytes(code, write, body);
            lemma_array_of_view::<MAC_ADDR_LENGTH>(mac_addr);
        },
    }
}

impl MfgCmdModel {
    /// Whether the command is sent as a write (`HOST_CMD_ACT_GEN_SET`)
    /// rather than a read (`HOST_CMD_ACT_GEN_GET`).
    pub open spec fn writes(self) -> bool {
        match self {
            MfgCmdModel::GetAndResetPer { .. } => false,
            MfgCmdModel::OtpCalData { write, .. } => write,
            MfgCmdModel::OtpMacAddr { write, .. } => write,
            _ => true,
        }
    }
}

/// The header that a host command buffer for manufacturing command `code`
/// carries: the manufacturing host command, its own length as size, no
/// sequence number, result or error, and the action of a write or a read.
pub open spec fn is_request_header(h: HostCmd<MfgCmdHeader<()>>, len: nat, code: u32, write: bool) -> bool {
    &&& h.command == crate::ffi::HOST_CMD_CMD_MFG_COMMAND
    &&& h.size == len
    &&& h.seq_num == 0
    &&& h.result == 0
    &&& h.body.mfg_cmd == code
    &&& h.body.action == if write {
        crate::ffi::HOST_CMD_ACT_GEN_SET
    } else {
        crate::ffi::HOST_CMD_ACT_GEN_GET
    }
    &&& h.body.device_id == 0
    &&& h.body.error == 0
}

proof fn lemma_host_header<T: WireFormat>(code: u32, write: bool, body: T)
    requires
        body.fits(),
        8 + 12 + T::wire_len() <= u16::MAX,
    ensures
        spec_parse_header(host_bytes(code, write, body)) matches Ok(h) && is_request_header(
            h,
            host_bytes(code, write, body).len(),
            code,
            write,
        ),
        host_bytes(code, write, body).len() == 20 + T::wire_len(),
{
    lemma_parse_own_bytes(code, write, body);
}

/// Every buffer that a command encodes to starts with a request header for
/// the command's number whose size field is the buffer's length.
#[verifier::spinoff_prover]
#[verifier::rlimit(60)]
pub proof fn lemma_encoded_header(cmd: MfgCmdModel, card: CardType)
    requires
        cmd.wf(),
        cmd.fits_bit_fields(),
        cmd.encode(card) is Ok,
    ensures
        spec_parse_header(cmd.encode(card)->Ok_0) matches Ok(h) && is_request_header(
            h,
            cmd.encode(card)->Ok_0.len(),
            cmd.command_number(),
            cmd.writes(),
        ),
{
    let code = cmd.command_number();
    match cmd {
        MfgCmdModel::RfTestMode { .. } => {
            lemma_host_header(code, true, generic_cfg(0, 0, 0));
        },
        MfgCmdModel::TxAntenna { mode } => {
            lemma_host_header(code, true, generic_cfg(mode.spec_value(), 0, 0));
        },
        MfgCmdModel::RxAntenna { mode } => {
            lemma_host_header(code, true, generic_cfg(mode.spec_value(), 0, 0));
        },
        MfgCmdModel::RadioMode { radio0, radio1 } => {
            lemma_host_header(code, true, generic_cfg(radio0, radio1, 0));
        },
        MfgCmdModel::RfBand { band } => {
            lemma_host_header(code, true, generic_cfg(band.spec_value(), 0, 0));
        },
        MfgCmdModel::ChannelBandwidth { bandwidth } => {
            lemma_host_header(code, true, generic_cfg(bandwidth.spec_value(), 0, 0));
        },
        MfgCmdModel::RfChannel { channel } => {
            lemma_host_header(code, true, generic_cfg(channel as u32, 0, 0));
        },
        MfgCmdModel::GetAndResetPer { .. } => {
            lemma_host_header(code, false, generic_cfg(0, 0, 0));
        },
        MfgCmdModel::TxPower { power_dbm, modulation, path } => {
            let p = spec_power_field(card, power_dbm)->Ok_0;
            lemma_host_header(code, true, generic_cfg(p, modulation.spec_value(), path.spec_value()));
        },
        MfgCmdModel::TxContinuous { enable, continuous_wave_mode, payload_pattern, cs_mode, active_subchannel, tx_rate } => {
            let body = TxCont {
                enable_tx: flag32(enable),
                cw_mode: flag32(continuous_wave_mode),
                payload_pattern,
                cs_mode: flag32(cs_mode),
                act_sub_ch: active_subchannel.spec_value(),
                tx_rate,
                rsvd: 0,
            };
            lemma_host_header(code, true, body);
        },
        MfgCmdModel::TxFrame { .. } => {
            let body = tx_frame_body_of(cmd);
            assert(cmd.encode(card) == Ok::<Seq<u8>, CommandError>(host_bytes(code, true, body)));
            lemma_parse_own_bytes(code, true, body);
            lemma_host_header(code, true, body);
        },
        MfgCmdModel::TriggerFrame { .. } => {
            let body = trigger_frame_body_of(cmd);
            assert(cmd.encode(card) == Ok::<Seq<u8>, CommandError>(host_bytes(code, true, body)));
            lemma_decode_trigger_frame_body(cmd);
            lemma_host_header(code, true, body);
        },
        MfgCmdModel::HeTbTx { enable, qnum, aid, axq0_mu_timer, tx_pwr } => {
            let body = HeTbTx { enable: flag16(enable), qnum, aid, axq_mu_timer: axq0_mu_timer, tx_power: tx_pwr };
            lemma_host_header(code, true, body);
        },
        MfgCmdModel::OtpCalData { write, cal_data } => {
            let buffer = cal_data_buffer(cal_data);
            let body = OtpCalDataRdWr {
                cal_data_status: 0,
                cal_data_len: cal_data.len() as u32,
                cal_data: buffer,
            };
            lemma_host_header(code, write, body);
        },
        MfgCmdModel::OtpMacAddr { write, mac_addr } => {
            let body = OtpMacAddrRdWr { mac_addr: array_of::<MAC_ADDR_LENGTH>(mac_addr) };
            lemma_host_header(code, write, body);
        },
    }
}

impl MfgCmdModel {
    /// The length of the buffer that the command encodes to: the 20 header
    /// bytes and the packed body.
    pub open spec fn encoded_len(self) -> nat {
        match self {
            MfgCmdModel::TxContinuous { .. } => 48,
            MfgCmdModel::TxFrame { .. } => 112,
            MfgCmdModel::TriggerFrame { .. } => 58,
            MfgCmdModel::HeTbTx { .. } => 30,
            MfgCmdModel::OtpCalData { .. } => 1428,
            MfgCmdModel::OtpMacAddr { .. } => 26,
            _ => 32,
        }
    }
}

/// Encoding fails only for `tx_power` (a power the card refuses) and for
/// calibration data longer than the buffer; the buffer of every other
/// command, and of those where they succeed, is `encoded_len()` bytes long.
#[verifier::spinoff_prover]
#[verifier::rlimit(60)]
pub proof fn lemma_encoded_len(cmd: MfgCmdModel, card: CardType)
    requires
        cmd.wf(),
        cmd.fits_bit_fields(),
    ensures
        cmd.encode(card) is Err ==> cmd is TxPower || cmd is OtpCalData,
        cmd.encode(card) matches Ok(buf) ==> buf.len() == cmd.encoded_len(),
{
    let code = cmd.command_number();
    match cmd {
        MfgCmdModel::RfTestMode { .. } => {
            lemma_host_header(code, true, generic_cfg(0, 0, 0));
        },
        MfgCmdModel::TxAntenna { mode } => {
            lemma_host_header(code, true, generic_cfg(mode.spec_value(), 0, 0));
        },
        MfgCmdModel::RxAntenna { mode } => {
            lemma_host_header(code, true, generic_cfg(mode.spec_value(), 0, 0));
        },
        MfgCmdModel::RadioMode { radio0, radio1 } => {
            lemma_host_header(code, true, generic_cfg(radio0, radio1, 0));
        },
        MfgCmdModel::RfBand { band } => {
            lemma_host_header(code, true, generic_cfg(band.spec_value(), 0, 0));
        },
        MfgCmdModel::ChannelBandwidth { bandwidth } => {
            lemma_host_header(code, true, generic_cfg(bandwidth.spec_value(), 0, 0));
        },
        MfgCmdModel::RfChannel { channel } => {
            lemma_host_header(code, true, generic_cfg(channel as u32, 0, 0));
        },
        MfgCmdModel::GetAndResetPer { .. } => {
            lemma_host_header(code, false, generic_cfg(0, 0, 0));
        },
        MfgCmdModel::TxPower { power_dbm, modulation, path } => {
            let p = spec_power_field(card, power_dbm)->Ok_0;
            lemma_host_header(code, true, generic_cfg(p, modulation.spec_value(), path.spec_value()));
        },
        MfgCmdModel::TxContinuous { enable, continuous_wave_mode, payload_pattern, cs_mode, active_subchannel, tx_rate } => {
            let body = TxCont {
                enable_tx: flag32(enable),
                cw_mode: flag32(continuous_wave_mode),
                payload_pattern,
                cs_mode: flag32(cs_mode),
                act_sub_ch: active_subchannel.spec_value(),
                tx_rate,
                rsvd: 0,
            };
            lemma_host_header(code, true, body);
        },
        MfgCmdModel::TxFrame { .. } => {
            let body = tx_frame_body_of(cmd);
            assert(cmd.encode(card) == Ok::<Seq<u8>, CommandError>(host_bytes(code, true, body)));
            lemma_parse_own_bytes(code, true, body);
            lemma_host_header(code, true, body);
        },
        MfgCmdModel::TriggerFrame { .. } => {
            let body = trigger_frame_body_of(cmd);
            assert(cmd.encode(card) == Ok::<Seq<u8>, CommandError>(host_bytes(code, true, body)));
            lemma_decode_trigger_frame_body(cmd);
            lemma_host_header(code, true, body);
        },
        MfgCmdModel::HeTbTx { enable, qnum, aid, axq0_mu_timer, tx_pwr } => {
            let body = HeTbTx { enable: flag16(enable), qnum, aid, axq_mu_timer: axq0_mu_timer, tx_power: tx_pwr };
            lemma_host_header(code, true, body);
        },
        MfgCmdModel::OtpCalData { write, cal_data } => {
            let buffer = cal_data_buffer(cal_data);
            let body = OtpCalDataRdWr {
                cal_data_status: 0,
                cal_data_len: cal_data.len() as u32,
                cal_data: buffer,
            };
            lemma_host_header(code, write, body);
        },
        MfgCmdModel::OtpMacAddr { write, mac_addr } => {
            let body = OtpMacAddrRdWr { mac_addr: array_of::<MAC_ADDR_LENGTH>(mac_addr) };
            lemma_host_header(code, write, body);
        },
    }
}

/// The frame body that a `tx_frame` command is sent as.
pub open spec fn tx_frame_body_of(cmd: MfgCmdModel) -> TxFrame2 {
    match cmd {
        MfgCmdModel::TxFrame { enable, tx_rate, payload_pattern, payload_length, adjust_burst_sifs_gap, adjust_sifs_us, short_preamble, active_subchannel, short_gi, adv_coding, beamforming, greenfield_mode, stbc, signal_bw, num_pkt, max_pkt_ext, beam_change, dcm, doppler, midamble_period, q_num, bssid } => tx_frame_body(enable, tx_rate, payload_pattern, payload_length, adjust_burst_sifs_gap, adjust_sifs_us, short_preamble, active_subchannel, short_gi, adv_coding, beamforming, greenfield_mode, stbc, signal_bw, num_pkt, max_pkt_ext, beam_change, dcm, doppler, midamble_period, q_num, bssid),
        _ => TxFrame2::spec_zeroed(),
    }
}

/// The trigger frame body that a `trigger_frame` command is sent as.
pub open spec fn trigger_frame_body_of(cmd: MfgCmdModel) -> IeeetypesCtlBasicTrigHdr {
    match cmd {
        MfgCmdModel::TriggerFrame { enable, standalone_hetb, frame_ctrl_type, frame_ctrl_subtype, frame_duration, trigger_type, ul_len, more_tf, cs_required, ul_bw, ltf_type, ltf_mode, ltf_symbol, ul_stbc, ldpc_ess, ap_tx_pwr, pre_fec_pad_fct, pe_disambig, spatial_reuse, doppler, he_sig2, aid12, ru_alloc_reg, ru_alloc, ul_coding_type, ul_mcs, ul_dcm, ss_alloc, ul_target_rssi, mpdu_mu_sf, tid_al, ac_pl, pref_ac } => trigger_frame_body(enable, standalone_hetb, frame_ctrl_type, frame_ctrl_subtype, frame_duration, trigger_type, ul_len, more_tf, cs_required, ul_bw, ltf_type, ltf_mode, ltf_symbol, ul_stbc, ldpc_ess, ap_tx_pwr, pre_fec_pad_fct, pe_disambig, spatial_reuse, doppler, he_sig2, aid12, ru_alloc_reg, ru_alloc, ul_coding_type, ul_mcs, ul_dcm, ss_alloc, ul_target_rssi, mpdu_mu_sf, tid_al, ac_pl, pref_ac),
        _ => IeeetypesCtlBasicTrigHdr::spec_zeroed(),
    }
}

proof fn lemma_decode_tx_frame_body(cmd: MfgCmdModel)
    requires
        cmd is TxFrame,
        cmd.wf(),
    ensures
        decode_tx_frame(tx_frame_body_of(cmd)) == Ok::<MfgCmdModel, CommandError>(cmd),
{
    match cmd {
        MfgCmdModel::TxFrame { enable, tx_rate, payload_pattern, payload_length, adjust_burst_sifs_gap, adjust_sifs_us, short_preamble, active_subchannel, short_gi, adv_coding, beamforming, greenfield_mode, stbc, signal_bw, num_pkt, max_pkt_ext, beam_change, dcm, doppler, midamble_period, q_num, bssid } => {
            active_subchannel.lemma_value_round_trip(0);
            signal_bw.lemma_value_round_trip(0);
            lemma_i32_u32(num_pkt);
            lemma_i32_u32(max_pkt_ext);
            lemma_i32_u32(beam_change);
            lemma_i32_u32(dcm);
            lemma_i32_u32(doppler);
            lemma_i32_u32(midamble_period);
            lemma_i32_u32(q_num);
            lemma_array_of_view::<MAC_ADDR_LENGTH>(bssid);
        },
        _ => {},
    }
}

#[verifier::spinoff_prover]
proof fn lemma_decode_encode_tx_frame(cmd: MfgCmdModel, card: CardType)
    requires
        cmd is TxFrame,
        cmd.wf(),
    ensures
        cmd.encode(card) is Ok,
        cmd.decode_response(cmd.encode(card)->Ok_0) == Ok::<MfgCmdModel, CommandError>(
            cmd.normalized(card),
        ),
{
    let body = tx_frame_body_of(cmd);
    let code = cmd.command_number();
    assert(cmd.encode(card) == Ok::<Seq<u8>, CommandError>(host_bytes(code, true, body)));
    lemma_parse_own_bytes(code, true, body);
    lemma_decode_tx_frame_body(cmd);
    assert(cmd.decode_response(host_bytes(code, true, body)) == decode_tx_frame(body));
}

pub(crate) proof fn lemma_decode_trigger_frame_body(cmd: MfgCmdModel)
    requires
        cmd is TriggerFrame,
        cmd.fits_bit_fields(),
    ensures
        trigger_frame_body_of(cmd).fits(),
        decode_trigger_frame(trigger_frame_body_of(cmd)) == Ok::<MfgCmdModel, CommandError>(cmd),
{
    match cmd {
        MfgCmdModel::TriggerFrame { enable, standalone_hetb, frame_ctrl_type, frame_ctrl_subtype, frame_duration, trigger_type, ul_len, more_tf, cs_required, ul_bw, ltf_type, ltf_mode, ltf_symbol, ul_stbc, ldpc_ess, ap_tx_pwr, pre_fec_pad_fct, pe_disambig, spatial_reuse, doppler, he_sig2, aid12, ru_alloc_reg, ru_alloc, ul_coding_type, ul_mcs, ul_dcm, ss_alloc, ul_target_rssi, mpdu_mu_sf, tid_al, ac_pl, pref_ac } => {
            standalone_hetb.lemma_value_round_trip(0);
            ul_bw.lemma_value_round_trip(0);
            ltf_symbol.lemma_value_round_trip(0);
            ss_alloc.lemma_value_round_trip(0);
        },
        _ => {},
    }
}

#[verifier::spinoff_prover]
proof fn lemma_decode_encode_trigger_frame(cmd: MfgCmdModel, card: CardType)
    requires
        cmd is TriggerFrame,
        cmd.fits_bit_fields(),
    ensures
        cmd.encode(card) is Ok,
        cmd.decode_response(cmd.encode(card)->Ok_0) == Ok::<MfgCmdModel, CommandError>(
            cmd.normalized(card),
        ),
{
    let body = trigger_frame_body_of(cmd);
    let code = cmd.command_number();
    assert(cmd.encode(card) == Ok::<Seq<u8>, CommandError>(host_bytes(code, true, body)));
    lemma_decode_trigger_frame_body(cmd);
    lemma_parse_own_bytes(code, true, body);
    assert(cmd.decode_response(host_bytes(code, true, body)) == decode_trigger_frame(body));
}

impl MfgCmd {
    /// Whether every field that travels in a bit field fits its width, so
    /// that the command can be encoded.
    pub fn fits_bit_fields(&self) -> (r: bool)
        ensures
            r == self@.fits_bit_fields(),
    {
        match self {
            MfgCmd::TriggerFrame {
                frame_ctrl_type,
                frame_ctrl_subtype,
                trigger_type,
                ul_len,
                ltf_type,
                ap_tx_pwr,
                pre_fec_pad_fct,
                spatial_reuse,
                he_sig2,
                aid12,
                ru_alloc,
                ul_mcs,
                ul_target_rssi,
                mpdu_mu_sf,
                tid_al,
                pref_ac,
                ..
            } => {
                *frame_ctrl_type <= 0x3 && *frame_ctrl_subtype <= 0xf && *trigger_type <= 0xf
                    && *ul_len <= 0xfff && *ltf_type <= 0x3 && *ap_tx_pwr <= 0x3f
                    && *pre_fec_pad_fct <= 0x3 && *spatial_reuse <= 0xffff && *he_sig2 <= 0x1ff
                    && *aid12 <= 0xfff && *ru_alloc <= 0x7f && *ul_mcs <= 0xf
                    && *ul_target_rssi <= 0x7f && *mpdu_mu_sf <= 0x3 && *tid_al <= 0x7
                    && *pref_ac <= 0x3
            },
            _ => true,
        }
    }
}

/// The default of the optional signed `tx_frame` parameters: `-1`, the
/// firmware's "not set".
pub fn default_neg_one() -> (r: i32)
    ensures
        r == -1,
{
    -1
}

} // verus!
