//! The packed C structures of the mwifiex manufacturing command interface and
//! their byte layout (little-endian, no padding).

use vstd::prelude::*;
use vstd::std_specs::convert::FromSpecImpl;

use crate::wire::{
    get_u16, get_u32, get_u64, le16, le32, le64, lemma_read16_le16, lemma_read32_le32,
    lemma_read64_le64, push_u16, push_u32, push_u64, read16, read32, read64,
};

verus! {

/// Host command code of a manufacturing command.
pub const HOST_CMD_CMD_MFG_COMMAND: u16 = 0x0089;

/// General purpose action: get.
pub const HOST_CMD_ACT_GEN_GET: u16 = 0;

/// General purpose action: set.
pub const HOST_CMD_ACT_GEN_SET: u16 = 1;

/// Length of a MAC address in bytes.
pub const MAC_ADDR_LENGTH: usize = 6;

/// Length of the OTP calibration data buffer in bytes.
pub const CAL_DATA_LEN: usize = 1400;

/// A value with a fixed packed byte layout.
pub trait WireFormat: Sized {
    /// The bytes of the value in the packed layout.
    spec fn wire(&self) -> Seq<u8>;

    /// The size of the packed layout in bytes.
    spec fn wire_len() -> nat;

    /// The value that the first `wire_len()` bytes of `s` hold.
    spec fn parse_wire(s: Seq<u8>) -> Self;

    /// Every field fits the bit width that the layout gives it.
    spec fn fits(&self) -> bool;

    /// The all-zero value.
    spec fn spec_zeroed() -> Self;

    proof fn lemma_wire_len(&self)
        ensures
            self.wire().len() == Self::wire_len(),
    ;

    /// Parsing the bytes of a value gives the value back.
    #[verifier::spinoff_prover]
    proof fn lemma_round_trip(&self)
        requires
            self.fits(),
        ensures
            Self::parse_wire(self.wire()) == *self,
    ;

    proof fn lemma_zeroed_fits()
        ensures
            Self::spec_zeroed().fits(),
    ;

    /// The size of the layout, or `None` where it does not fit in a `usize`.
    fn wire_size() -> (r: Option<usize>)
        ensures
            r == (if Self::wire_len() <= usize::MAX {
                Some(Self::wire_len() as usize)
            } else {
                None
            }),
    ;

    #[verifier::spinoff_prover]
    fn write_wire(&self, out: &mut Vec<u8>)
        ensures
            final(out)@ == old(out)@ + self.wire(),
    ;

    #[verifier::spinoff_prover]
    fn read_wire(s: &[u8], pos: usize) -> (r: Self)
        requires
            pos + Self::wire_len() <= s@.len(),
        ensures
            r == Self::parse_wire(s@.subrange(pos as int, pos + Self::wire_len())),
    ;

    fn zeroed() -> (r: Self)
        ensures
            r == Self::spec_zeroed(),
    ;
}

/// The array whose elements are `s`.
pub open spec fn array_of<const N: usize>(s: Seq<u8>) -> [u8; N] {
    choose|a: [u8; N]| a@ == s
}

pub proof fn lemma_array_of<const N: usize>(a: [u8; N])
    ensures
        array_of::<N>(a@) == a,
{
    let b = array_of::<N>(a@);
    assert(b@ == a@);
    assert(b =~= a);
}

/// Appends the bytes of `a`.
pub fn push_bytes(out: &mut Vec<u8>, a: &[u8])
    ensures
        final(out)@ == old(out)@ + a@,
{
    let ghost start = out@;
    let mut i: usize = 0;
    while i < a.len()
        invariant
            i <= a@.len(),
            out@ == start + a@.take(i as int),
        decreases a@.len() - i,
    {
        out.push(a[i]);
        i = i + 1;
        assert(out@ =~= start + a@.take(i as int));
    }
    assert(a@.take(a@.len() as int) =~= a@);
}

/// The `N` bytes of `s` at offset `pos`, as an array.
pub fn read_array<const N: usize>(s: &[u8], pos: usize) -> (r: [u8; N])
    requires
        pos + N <= s@.len(),
    ensures
        r@ == s@.subrange(pos as int, pos + N),
        r == array_of::<N>(s@.subrange(pos as int, pos + N)),
{
    let mut a = [0u8; N];
    let mut i: usize = 0;
    while i < N
        invariant
            i <= N,
            pos + N <= s.len(),
            forall|j: int| 0 <= j < i ==> a@[j] == s@[pos + j],
        decreases N - i,
    {
        a[i] = s[pos + i];
        i = i + 1;
    }
    assert(a@ =~= s@.subrange(pos as int, pos + N));
    proof {
        lemma_array_of(a);
    }
    a
}

impl WireFormat for () {
    open spec fn wire(&self) -> Seq<u8> {
        Seq::empty()
    }

    open spec fn wire_len() -> nat {
        0
    }

    open spec fn parse_wire(s: Seq<u8>) -> Self {
        ()
    }

    open spec fn fits(&self) -> bool {
        true
    }

    open spec fn spec_zeroed() -> Self {
        ()
    }

    proof fn lemma_wire_len(&self) {
    }

    #[verifier::spinoff_prover]
    proof fn lemma_round_trip(&self) {
    }

    proof fn lemma_zeroed_fits() {
    }

    fn wire_size() -> (r: Option<usize>) {
        Some(0)
    }

    #[verifier::spinoff_prover]
    fn write_wire(&self, out: &mut Vec<u8>) {
        assert(out@ =~= out@ + Seq::<u8>::empty());
    }

    #[verifier::spinoff_prover]
    fn read_wire(s: &[u8], pos: usize) -> (r: Self) {
        ()
    }

    fn zeroed() -> (r: Self) {
        ()
    }
}

impl<const N: usize> WireFormat for [u8; N] {
    open spec fn wire(&self) -> Seq<u8> {
        self@
    }

    open spec fn wire_len() -> nat {
        N as nat
    }

    open spec fn parse_wire(s: Seq<u8>) -> Self {
        array_of::<N>(s.take(N as int))
    }

    open spec fn fits(&self) -> bool {
        true
    }

    open spec fn spec_zeroed() -> Self {
        array_of::<N>(Seq::new(N as nat, |i: int| 0u8))
    }

    proof fn lemma_wire_len(&self) {
    }

    #[verifier::spinoff_prover]
    proof fn lemma_round_trip(&self) {
        assert(self@.take(N as int) =~= self@);
        lemma_array_of(*self);
    }

    proof fn lemma_zeroed_fits() {
    }

    fn wire_size() -> (r: Option<usize>) {
        Some(N)
    }

    #[verifier::spinoff_prover]
    fn write_wire(&self, out: &mut Vec<u8>) {
        push_bytes(out, self.as_slice());
    }

    #[verifier::spinoff_prover]
    fn read_wire(s: &[u8], pos: usize) -> (r: Self) {
        let r = read_array::<N>(s, pos);
        assert(s@.subrange(pos as int, pos + N).take(N as int) =~= s@.subrange(pos as int, pos + N));
        r
    }

    fn zeroed() -> (r: Self) {
        zero_array::<N>()
    }
}

/// C struct `HostCmd_DS_COMMAND`: the header of every host command.
#[derive(Debug, Clone, Copy, PartialEq, Eq)]
pub struct HostCmd<T> {
    pub command: u16,
    pub size: u16,
    pub seq_num: u16,
    pub result: u16,
    pub body: T,
}

impl<T: WireFormat> WireFormat for HostCmd<T> {
    open spec fn wire(&self) -> Seq<u8> {
        le16(self.command) + le16(self.size) + le16(self.seq_num) + le16(self.result)
            + self.body.wire()
    }

    open spec fn wire_len() -> nat {
        8 + T::wire_len()
    }

    open spec fn parse_wire(s: Seq<u8>) -> Self {
        HostCmd {
            command: read16(s, 0),
            size: read16(s, 2),
            seq_num: read16(s, 4),
            result: read16(s, 6),
            body: T::parse_wire(s.skip(8)),
        }
    }

    open spec fn fits(&self) -> bool {
        self.body.fits()
    }

    open spec fn spec_zeroed() -> Self {
        HostCmd { command: 0, size: 0, seq_num: 0, result: 0, body: T::spec_zeroed() }
    }

    proof fn lemma_wire_len(&self) {
        self.body.lemma_wire_len();
    }

    #[verifier::spinoff_prover]
    proof fn lemma_round_trip(&self) {
        let w = self.wire();
        self.body.lemma_wire_len();
        assert(w.subrange(0, 2) =~= le16(self.command));
        assert(w.subrange(2, 4) =~= le16(self.size));
        assert(w.subrange(4, 6) =~= le16(self.seq_num));
        assert(w.subrange(6, 8) =~= le16(self.result));
        lemma_read16_le16(w, 0, self.command);
        lemma_read16_le16(w, 2, self.size);
        lemma_read16_le16(w, 4, self.seq_num);
        lemma_read16_le16(w, 6, self.result);
        assert(w.skip(8) =~= self.body.wire());
        self.body.lemma_round_trip();
    }

    proof fn lemma_zeroed_fits() {
        T::lemma_zeroed_fits();
    }

    fn wire_size() -> (r: Option<usize>) {
        match T::wire_size() {
            Some(n) => n.checked_add(8),
            None => None,
        }
    }

    #[verifier::spinoff_prover]
    fn write_wire(&self, out: &mut Vec<u8>) {
        let ghost start = out@;
        push_u16(out, self.command);
        push_u16(out, self.size);
        push_u16(out, self.seq_num);
        push_u16(out, self.result);
        self.body.write_wire(out);
        assert(out@ =~= start + self.wire());
    }

    #[verifier::spinoff_prover]
    fn read_wire(s: &[u8], pos: usize) -> (r: Self) {
        let ghost t = s@.subrange(pos as int, pos + Self::wire_len());
        assert(s@.len() == s.len());
        assert(forall|k: int| 0 <= k < Self::wire_len() ==> #[trigger] t[k] == s@[pos + k]);
        let body = T::read_wire(s, pos + 8);
        assert(t.skip(8) =~= s@.subrange(pos + 8, pos + 8 + T::wire_len()));
        HostCmd {
            command: get_u16(s, pos),
            size: get_u16(s, pos + 2),
            seq_num: get_u16(s, pos + 4),
            result: get_u16(s, pos + 6),
            body,
        }
    }

    fn zeroed() -> (r: Self) {
        HostCmd { command: 0, size: 0, seq_num: 0, result: 0, body: T::zeroed() }
    }
}

impl<T: WireFormat> HostCmd<T> {
    /// The header of a manufacturing command carrying `body`: command code
    /// `HOST_CMD_CMD_MFG_COMMAND`, the total size, sequence number and result
    /// zero (both are filled in by the driver).
    pub open spec fn spec_default_with(body: T) -> Self {
        HostCmd {
            command: HOST_CMD_CMD_MFG_COMMAND,
            size: (8 + T::wire_len()) as u16,
            seq_num: 0,
            result: 0,
            body,
        }
    }

    /// Wraps `body` into a manufacturing host command.
    pub fn with_body(body: T) -> (r: Self)
        requires
            8 + T::wire_len() <= u16::MAX,
        ensures
            r == Self::spec_default_with(body),
    {
        let n = T::wire_size().unwrap();
        let size = 8 + n;
        HostCmd {
            command: HOST_CMD_CMD_MFG_COMMAND,
            size: size as u16,
            seq_num: 0,
            result: 0,
            body,
        }
    }

    /// The bytes of the command as sent to the firmware.
    pub fn to_vec(&self) -> (r: Vec<u8>)
        ensures
            r@ == self.wire(),
    {
        let mut out: Vec<u8> = Vec::new();
        self.write_wire(&mut out);
        assert(out@ =~= self.wire());
        out
    }
}

impl<T: WireFormat> Default for HostCmd<T> {
    fn default() -> (r: Self)
        ensures
            8 + T::wire_len() <= u16::MAX ==> r == Self::spec_default_with(T::spec_zeroed()),
    {
        let body = T::zeroed();
        match T::wire_size() {
            Some(n) => {
                if n <= 0xfff7 {
                    return Self::with_body(body);
                }
            },
            None => {},
        }
        HostCmd { command: HOST_CMD_CMD_MFG_COMMAND, size: 0, seq_num: 0, result: 0, body }
    }
}

/// An all-zero array.
pub fn zero_array<const N: usize>() -> (a: [u8; N])
    ensures
        a@ == Seq::new(N as nat, |i: int| 0u8),
        a == array_of::<N>(Seq::new(N as nat, |i: int| 0u8)),
{
    let mut a = [0u8; N];
    let mut i: usize = 0;
    while i < N
        invariant
            i <= N,
            forall|j: int| 0 <= j < i ==> a@[j] == 0u8,
        decreases N - i,
    {
        a[i] = 0;
        i = i + 1;
    }
    assert(a@ =~= Seq::new(N as nat, |i: int| 0u8));
    proof {
        lemma_array_of(a);
    }
    a
}

pub proof fn lemma_i16_u16(v: i16)
    ensures
        (v as u16) as i16 == v,
{
    assert((v as u16) as i16 == v) by (bit_vector);
}

/// C struct of the manufacturing command header that precedes each command body.
#[derive(Debug, Clone, Copy, PartialEq, Eq)]
pub struct MfgCmdHeader<T> {
    /// Manufacturing command code.
    pub mfg_cmd: u32,
    /// Action: `HOST_CMD_ACT_GEN_SET` or `HOST_CMD_ACT_GEN_GET`.
    pub action: u16,
    /// Device id, unused.
    pub device_id: u16,
    /// Error code, filled in by the firmware response.
    pub error: u32,
    /// The command body.
    pub body: T,
}

impl<T: WireFormat> WireFormat for MfgCmdHeader<T> {
    open spec fn wire(&self) -> Seq<u8> {
        le32(self.mfg_cmd)
            + le16(self.action)
            + le16(self.device_id)
            + le32(self.error)
            + self.body.wire()
    }

    open spec fn wire_len() -> nat {
        12 + T::wire_len()
    }

    open spec fn parse_wire(s: Seq<u8>) -> Self {
        MfgCmdHeader {
            mfg_cmd: read32(s, 0),
            action: read16(s, 4),
            device_id: read16(s, 6),
            error: read32(s, 8),
            body: T::parse_wire(s.skip(12)),
        }
    }

    open spec fn fits(&self) -> bool {
        self.body.fits()
    }

    open spec fn spec_zeroed() -> Self {
        MfgCmdHeader {
            mfg_cmd: 0,
            action: 0,
            device_id: 0,
            error: 0,
            body: T::spec_zeroed(),
        }
    }

    proof fn lemma_wire_len(&self) {
        self.body.lemma_wire_len();
    }

    #[verifier::spinoff_prover]
    proof fn lemma_round_trip(&self) {
        let w = self.wire();
        self.body.lemma_wire_len();
        assert(w.subrange(0, 4) =~= le32(self.mfg_cmd));
        lemma_read32_le32(w, 0, self.mfg_cmd);
        assert(w.subrange(4, 6) =~= le16(self.action));
        lemma_read16_le16(w, 4, self.action);
        assert(w.subrange(6, 8) =~= le16(self.device_id));
        lemma_read16_le16(w, 6, self.device_id);
        assert(w.subrange(8, 12) =~= le32(self.error));
        lemma_read32_le32(w, 8, self.error);
        assert(w.skip(12) =~= self.body.wire());
        self.body.lemma_round_trip();
    }

    proof fn lemma_zeroed_fits() {
        T::lemma_zeroed_fits();
    }

    fn wire_size() -> (r: Option<usize>) {
        match T::wire_size() {
            Some(n) => n.checked_add(12),
            None => None,
        }
    }

    #[verifier::spinoff_prover]
    fn write_wire(&self, out: &mut Vec<u8>) {
        let ghost start = out@;
        push_u32(out, self.mfg_cmd);
        push_u16(out, self.action);
        push_u16(out, self.device_id);
        push_u32(out, self.error);
        proof {
            self.body.lemma_wire_len();
        }
        self.body.write_wire(out);
        assert(out@ =~= start + self.wire());
    }

    #[verifier::spinoff_prover]
    fn read_wire(s: &[u8], pos: usize) -> (r: Self) {
        let ghost t = s@.subrange(pos as int, pos + Self::wire_len());
        assert(s@.len() == s.len());
        assert(forall|k: int| 0 <= k < Self::wire_len() ==> #[trigger] t[k] == s@[pos + k]);
        let body = T::read_wire(s, pos + 12);
        assert(t.skip(12) =~= s@.subrange(pos + 12, pos + 12 + T::wire_len()));
        MfgCmdHeader {
            mfg_cmd: get_u32(s, pos + 0),
            action: get_u16(s, pos + 4),
            device_id: get_u16(s, pos + 6),
            error: get_u32(s, pos + 8),
            body,
        }
    }

    fn zeroed() -> (r: Self) {
        MfgCmdHeader {
            mfg_cmd: 0,
            action: 0,
            device_id: 0,
            error: 0,
            body: T::zeroed(),
        }
    }
}

/// C struct `mfg_cmd_generic_cfg`: three generic values.
#[derive(Debug, Clone, Copy, PartialEq, Eq)]
pub struct GenericCfg {
    pub data1: u32,
    pub data2: u32,
    pub data3: u32,
}

impl WireFormat for GenericCfg {
    open spec fn wire(&self) -> Seq<u8> {
        le32(self.data1)
            + le32(self.data2)
            + le32(self.data3)
    }

    open spec fn wire_len() -> nat {
        12
    }

    open spec fn parse_wire(s: Seq<u8>) -> Self {
        GenericCfg {
            data1: read32(s, 0),
            data2: read32(s, 4),
            data3: read32(s, 8),
        }
    }

    open spec fn fits(&self) -> bool {
        true
    }

    open spec fn spec_zeroed() -> Self {
        GenericCfg {
            data1: 0,
            data2: 0,
            data3: 0,
        }
    }

    proof fn lemma_wire_len(&self) {
    }

    #[verifier::spinoff_prover]
    proof fn lemma_round_trip(&self) {
        let w = self.wire();
        assert(w.subrange(0, 4) =~= le32(self.data1));
        lemma_read32_le32(w, 0, self.data1);
        assert(w.subrange(4, 8) =~= le32(self.data2));
        lemma_read32_le32(w, 4, self.data2);
        assert(w.subrange(8, 12) =~= le32(self.data3));
        lemma_read32_le32(w, 8, self.data3);
    }

    proof fn lemma_zeroed_fits() {

    }

    fn wire_size() -> (r: Option<usize>) {
        Some(12)
    }

    #[verifier::spinoff_prover]
    fn write_wire(&self, out: &mut Vec<u8>) {
        let ghost start = out@;
        push_u32(out, self.data1);
        push_u32(out, self.data2);
        push_u32(out, self.data3);
        assert(out@ =~= start + self.wire());
    }

    #[verifier::spinoff_prover]
    fn read_wire(s: &[u8], pos: usize) -> (r: Self) {
        let ghost t = s@.subrange(pos as int, pos + Self::wire_len());
        assert(s@.len() == s.len());
        assert(forall|k: int| 0 <= k < Self::wire_len() ==> #[trigger] t[k] == s@[pos + k]);
        GenericCfg {
            data1: get_u32(s, pos + 0),
            data2: get_u32(s, pos + 4),
            data3: get_u32(s, pos + 8),
        }
    }

    fn zeroed() -> (r: Self) {
        GenericCfg {
            data1: 0,
            data2: 0,
            data3: 0,
        }
    }
}

impl Default for GenericCfg {
    fn default() -> (r: Self)
        ensures
            r == Self::spec_zeroed(),
    {
        Self::zeroed()
    }
}

/// C struct `mfg_cmd_tx_frame2`: frame-based transmission.
#[derive(Debug, Clone, Copy, PartialEq, Eq)]
pub struct TxFrame2 {
    pub enable: u32,
    pub data_rate: u32,
    pub frame_pattern: u32,
    pub frame_length: u32,
    pub bssid: [u8; MAC_ADDR_LENGTH],
    pub adjust_burst_sifs: u16,
    pub burst_sifs_in_us: u32,
    pub short_preamble: u32,
    pub act_sub_ch: u32,
    pub short_gi: u32,
    pub adv_coding: u32,
    pub tx_bf: u32,
    pub gf_mode: u32,
    pub stbc: u32,
    pub rsvd: [u32; 1],
    pub signal_bw: u32,
    pub num_pkt: u32,
    pub max_pe: u32,
    pub beam_change: u32,
    pub dcm: u32,
    pub doppler: u32,
    pub mid_p: u32,
    pub q_num: u32,
}

impl WireFormat for TxFrame2 {
    open spec fn wire(&self) -> Seq<u8> {
        le32(self.enable)
            + le32(self.data_rate)
            + le32(self.frame_pattern)
            + le32(self.frame_length)
            + self.bssid@
            + le16(self.adjust_burst_sifs)
            + le32(self.burst_sifs_in_us)
            + le32(self.short_preamble)
            + le32(self.act_sub_ch)
            + le32(self.short_gi)
            + le32(self.adv_coding)
            + le32(self.tx_bf)
            + le32(self.gf_mode)
            + le32(self.stbc)
            + le32(self.rsvd[0])
            + le32(self.signal_bw)
            + le32(self.num_pkt)
            + le32(self.max_pe)
            + le32(self.beam_change)
            + le32(self.dcm)
            + le32(self.doppler)
            + le32(self.mid_p)
            + le32(self.q_num)
    }

    open spec fn wire_len() -> nat {
        92
    }

    open spec fn parse_wire(s: Seq<u8>) -> Self {
        TxFrame2 {
            enable: read32(s, 0),
            data_rate: read32(s, 4),
            frame_pattern: read32(s, 8),
            frame_length: read32(s, 12),
            bssid: array_of::<MAC_ADDR_LENGTH>(s.subrange(16, 22)),
            adjust_burst_sifs: read16(s, 22),
            burst_sifs_in_us: read32(s, 24),
            short_preamble: read32(s, 28),
            act_sub_ch: read32(s, 32),
            short_gi: read32(s, 36),
            adv_coding: read32(s, 40),
            tx_bf: read32(s, 44),
            gf_mode: read32(s, 48),
            stbc: read32(s, 52),
            rsvd: [read32(s, 56)],
            signal_bw: read32(s, 60),
            num_pkt: read32(s, 64),
            max_pe: read32(s, 68),
            beam_change: read32(s, 72),
            dcm: read32(s, 76),
            doppler: read32(s, 80),
            mid_p: read32(s, 84),
            q_num: read32(s, 88),
        }
    }

    open spec fn fits(&self) -> bool {
        true
    }

    open spec fn spec_zeroed() -> Self {
        TxFrame2 {
            enable: 0,
            data_rate: 0,
            frame_pattern: 0,
            frame_length: 0,
            bssid: array_of::<MAC_ADDR_LENGTH>(Seq::new(6 as nat, |i: int| 0u8)),
            adjust_burst_sifs: 0,
            burst_sifs_in_us: 0,
            short_preamble: 0,
            act_sub_ch: 0,
            short_gi: 0,
            adv_coding: 0,
            tx_bf: 0,
            gf_mode: 0,
            stbc: 0,
            rsvd: [0u32],
            signal_bw: 0,
            num_pkt: 0,
            max_pe: 0,
            beam_change: 0,
            dcm: 0,
            doppler: 0,
            mid_p: 0,
            q_num: 0,
        }
    }

    proof fn lemma_wire_len(&self) {
    }

    #[verifier::rlimit(60)]
    #[verifier::spinoff_prover]
    proof fn lemma_round_trip(&self) {
        let w = self.wire();
        assert(w.subrange(0, 4) =~= le32(self.enable));
        lemma_read32_le32(w, 0, self.enable);
        assert(w.subrange(4, 8) =~= le32(self.data_rate));
        lemma_read32_le32(w, 4, self.data_rate);
        assert(w.subrange(8, 12) =~= le32(self.frame_pattern));
        lemma_read32_le32(w, 8, self.frame_pattern);
        assert(w.subrange(12, 16) =~= le32(self.frame_length));
        lemma_read32_le32(w, 12, self.frame_length);
        assert(w.subrange(16, 22) =~= self.bssid@);
        lemma_array_of(self.bssid);
        assert(w.subrange(22, 24) =~= le16(self.adjust_burst_sifs));
        lemma_read16_le16(w, 22, self.adjust_burst_sifs);
        assert(w.subrange(24, 28) =~= le32(self.burst_sifs_in_us));
        lemma_read32_le32(w, 24, self.burst_sifs_in_us);
        assert(w.subrange(28, 32) =~= le32(self.short_preamble));
        lemma_read32_le32(w, 28, self.short_preamble);
        assert(w.subrange(32, 36) =~= le32(self.act_sub_ch));
        lemma_read32_le32(w, 32, self.act_sub_ch);
        assert(w.subrange(36, 40) =~= le32(self.short_gi));
        lemma_read32_le32(w, 36, self.short_gi);
        assert(w.subrange(40, 44) =~= le32(self.adv_coding));
        lemma_read32_le32(w, 40, self.adv_coding);
        assert(w.subrange(44, 48) =~= le32(self.tx_bf));
        lemma_read32_le32(w, 44, self.tx_bf);
        assert(w.subrange(48, 52) =~= le32(self.gf_mode));
        lemma_read32_le32(w, 48, self.gf_mode);
        assert(w.subrange(52, 56) =~= le32(self.stbc));
        lemma_read32_le32(w, 52, self.stbc);
        assert(w.subrange(56, 60) =~= le32(self.rsvd[0]));
        lemma_read32_le32(w, 56, self.rsvd[0]);
        assert([read32(w, 56)] =~= self.rsvd);
        assert(w.subrange(60, 64) =~= le32(self.signal_bw));
        lemma_read32_le32(w, 60, self.signal_bw);
        assert(w.subrange(64, 68) =~= le32(self.num_pkt));
        lemma_read32_le32(w, 64, self.num_pkt);
        assert(w.subrange(68, 72) =~= le32(self.max_pe));
        lemma_read32_le32(w, 68, self.max_pe);
        assert(w.subrange(72, 76) =~= le32(self.beam_change));
        lemma_read32_le32(w, 72, self.beam_change);
        assert(w.subrange(76, 80) =~= le32(self.dcm));
        lemma_read32_le32(w, 76, self.dcm);
        assert(w.subrange(80, 84) =~= le32(self.doppler));
        lemma_read32_le32(w, 80, self.doppler);
        assert(w.subrange(84, 88) =~= le32(self.mid_p));
        lemma_read32_le32(w, 84, self.mid_p);
        assert(w.subrange(88, 92) =~= le32(self.q_num));
        lemma_read32_le32(w, 88, self.q_num);
    }

    proof fn lemma_zeroed_fits() {

    }

    fn wire_size() -> (r: Option<usize>) {
        Some(92)
    }

    #[verifier::spinoff_prover]
    fn write_wire(&self, out: &mut Vec<u8>) {
        let ghost start = out@;
        push_u32(out, self.enable);
        push_u32(out, self.data_rate);
        push_u32(out, self.frame_pattern);
        push_u32(out, self.frame_length);
        push_bytes(out, self.bssid.as_slice());
        push_u16(out, self.adjust_burst_sifs);
        push_u32(out, self.burst_sifs_in_us);
        push_u32(out, self.short_preamble);
        push_u32(out, self.act_sub_ch);
        push_u32(out, self.short_gi);
        push_u32(out, self.adv_coding);
        push_u32(out, self.tx_bf);
        push_u32(out, self.gf_mode);
        push_u32(out, self.stbc);
        push_u32(out, self.rsvd[0]);
        push_u32(out, self.signal_bw);
        push_u32(out, self.num_pkt);
        push_u32(out, self.max_pe);
        push_u32(out, self.beam_change);
        push_u32(out, self.dcm);
        push_u32(out, self.doppler);
        push_u32(out, self.mid_p);
        push_u32(out, self.q_num);
        assert(out@ =~= start + self.wire());
    }

    #[verifier::rlimit(60)]
    #[verifier::spinoff_prover]
    fn read_wire(s: &[u8], pos: usize) -> (r: Self) {
        let ghost t = s@.subrange(pos as int, pos + Self::wire_len());
        assert(s@.len() == s.len());
        assert(forall|k: int| 0 <= k < Self::wire_len() ==> #[trigger] t[k] == s@[pos + k]);
        let bssid = read_array::<MAC_ADDR_LENGTH>(s, pos + 16);
        assert(t.subrange(16, 22) =~= s@.subrange(pos + 16, pos + 22));
        TxFrame2 {
            enable: get_u32(s, pos + 0),
            data_rate: get_u32(s, pos + 4),
            frame_pattern: get_u32(s, pos + 8),
            frame_length: get_u32(s, pos + 12),
            bssid,
            adjust_burst_sifs: get_u16(s, pos + 22),
            burst_sifs_in_us: get_u32(s, pos + 24),
            short_preamble: get_u32(s, pos + 28),
            act_sub_ch: get_u32(s, pos + 32),
            short_gi: get_u32(s, pos + 36),
            adv_coding: get_u32(s, pos + 40),
            tx_bf: get_u32(s, pos + 44),
            gf_mode: get_u32(s, pos + 48),
            stbc: get_u32(s, pos + 52),
            rsvd: [get_u32(s, pos + 56)],
            signal_bw: get_u32(s, pos + 60),
            num_pkt: get_u32(s, pos + 64),
            max_pe: get_u32(s, pos + 68),
            beam_change: get_u32(s, pos + 72),
            dcm: get_u32(s, pos + 76),
            doppler: get_u32(s, pos + 80),
            mid_p: get_u32(s, pos + 84),
            q_num: get_u32(s, pos + 88),
        }
    }

    fn zeroed() -> (r: Self) {
        TxFrame2 {
            enable: 0,
            data_rate: 0,
            frame_pattern: 0,
            frame_length: 0,
            bssid: zero_array::<MAC_ADDR_LENGTH>(),
            adjust_burst_sifs: 0,
            burst_sifs_in_us: 0,
            short_preamble: 0,
            act_sub_ch: 0,
            short_gi: 0,
            adv_coding: 0,
            tx_bf: 0,
            gf_mode: 0,
            stbc: 0,
            rsvd: [0u32],
            signal_bw: 0,
            num_pkt: 0,
            max_pe: 0,
            beam_change: 0,
            dcm: 0,
            doppler: 0,
            mid_p: 0,
            q_num: 0,
        }
    }
}

impl Default for TxFrame2 {
    fn default() -> (r: Self)
        ensures
            r == Self::spec_zeroed(),
    {
        Self::zeroed()
    }
}

/// C struct `mfg_cmd_tx_cont`: continuous transmission.
#[derive(Debug, Clone, Copy, PartialEq, Eq)]
pub struct TxCont {
    pub enable_tx: u32,
    pub cw_mode: u32,
    pub payload_pattern: u32,
    pub cs_mode: u32,
    pub act_sub_ch: u32,
    pub tx_rate: u32,
    pub rsvd: u32,
}

impl WireFormat for TxCont {
    open spec fn wire(&self) -> Seq<u8> {
        le32(self.enable_tx)
            + le32(self.cw_mode)
            + le32(self.payload_pattern)
            + le32(self.cs_mode)
            + le32(self.act_sub_ch)
            + le32(self.tx_rate)
            + le32(self.rsvd)
    }

    open spec fn wire_len() -> nat {
        28
    }

    open spec fn parse_wire(s: Seq<u8>) -> Self {
        TxCont {
            enable_tx: read32(s, 0),
            cw_mode: read32(s, 4),
            payload_pattern: read32(s, 8),
            cs_mode: read32(s, 12),
            act_sub_ch: read32(s, 16),
            tx_rate: read32(s, 20),
            rsvd: read32(s, 24),
        }
    }

    open spec fn fits(&self) -> bool {
        true
    }

    open spec fn spec_zeroed() -> Self {
        TxCont {
            enable_tx: 0,
            cw_mode: 0,
            payload_pattern: 0,
            cs_mode: 0,
            act_sub_ch: 0,
            tx_rate: 0,
            rsvd: 0,
        }
    }

    proof fn lemma_wire_len(&self) {
    }

    #[verifier::spinoff_prover]
    proof fn lemma_round_trip(&self) {
        let w = self.wire();
        assert(w.subrange(0, 4) =~= le32(self.enable_tx));
        lemma_read32_le32(w, 0, self.enable_tx);
        assert(w.subrange(4, 8) =~= le32(self.cw_mode));
        lemma_read32_le32(w, 4, self.cw_mode);
        assert(w.subrange(8, 12) =~= le32(self.payload_pattern));
        lemma_read32_le32(w, 8, self.payload_pattern);
        assert(w.subrange(12, 16) =~= le32(self.cs_mode));
        lemma_read32_le32(w, 12, self.cs_mode);
        assert(w.subrange(16, 20) =~= le32(self.act_sub_ch));
        lemma_read32_le32(w, 16, self.act_sub_ch);
        assert(w.subrange(20, 24) =~= le32(self.tx_rate));
        lemma_read32_le32(w, 20, self.tx_rate);
        assert(w.subrange(24, 28) =~= le32(self.rsvd));
        lemma_read32_le32(w, 24, self.rsvd);
    }

    proof fn lemma_zeroed_fits() {

    }

    fn wire_size() -> (r: Option<usize>) {
        Some(28)
    }

    #[verifier::spinoff_prover]
    fn write_wire(&self, out: &mut Vec<u8>) {
        let ghost start = out@;
        push_u32(out, self.enable_tx);
        push_u32(out, self.cw_mode);
        push_u32(out, self.payload_pattern);
        push_u32(out, self.cs_mode);
        push_u32(out, self.act_sub_ch);
        push_u32(out, self.tx_rate);
        push_u32(out, self.rsvd);
        assert(out@ =~= start + self.wire());
    }

    #[verifier::spinoff_prover]
    fn read_wire(s: &[u8], pos: usize) -> (r: Self) {
        let ghost t = s@.subrange(pos as int, pos + Self::wire_len());
        assert(s@.len() == s.len());
        assert(forall|k: int| 0 <= k < Self::wire_len() ==> #[trigger] t[k] == s@[pos + k]);
        TxCont {
            enable_tx: get_u32(s, pos + 0),
            cw_mode: get_u32(s, pos + 4),
            payload_pattern: get_u32(s, pos + 8),
            cs_mode: get_u32(s, pos + 12),
            act_sub_ch: get_u32(s, pos + 16),
            tx_rate: get_u32(s, pos + 20),
            rsvd: get_u32(s, pos + 24),
        }
    }

    fn zeroed() -> (r: Self) {
        TxCont {
            enable_tx: 0,
            cw_mode: 0,
            payload_pattern: 0,
            cs_mode: 0,
            act_sub_ch: 0,
            tx_rate: 0,
            rsvd: 0,
        }
    }
}

impl Default for TxCont {
    fn default() -> (r: Self)
        ensures
            r == Self::spec_zeroed(),
    {
        Self::zeroed()
    }
}

/// C struct `mfg_Cmd_HE_TBTx_t`: HE trigger-based transmission.
#[derive(Debug, Clone, Copy, PartialEq, Eq)]
pub struct HeTbTx {
    pub enable: u16,
    pub qnum: u16,
    pub aid: u16,
    pub axq_mu_timer: u16,
    pub tx_power: i16,
}

impl WireFormat for HeTbTx {
    open spec fn wire(&self) -> Seq<u8> {
        le16(self.enable)
            + le16(self.qnum)
            + le16(self.aid)
            + le16(self.axq_mu_timer)
            + le16(self.tx_power as u16)
    }

    open spec fn wire_len() -> nat {
        10
    }

    open spec fn parse_wire(s: Seq<u8>) -> Self {
        HeTbTx {
            enable: read16(s, 0),
            qnum: read16(s, 2),
            aid: read16(s, 4),
            axq_mu_timer: read16(s, 6),
            tx_power: read16(s, 8) as i16,
        }
    }

    open spec fn fits(&self) -> bool {
        true
    }

    open spec fn spec_zeroed() -> Self {
        HeTbTx {
            enable: 0,
            qnum: 0,
            aid: 0,
            axq_mu_timer: 0,
            tx_power: 0,
        }
    }

    proof fn lemma_wire_len(&self) {
    }

    #[verifier::spinoff_prover]
    proof fn lemma_round_trip(&self) {
        let w = self.wire();
        assert(w.subrange(0, 2) =~= le16(self.enable));
        lemma_read16_le16(w, 0, self.enable);
        assert(w.subrange(2, 4) =~= le16(self.qnum));
        lemma_read16_le16(w, 2, self.qnum);
        assert(w.subrange(4, 6) =~= le16(self.aid));
        lemma_read16_le16(w, 4, self.aid);
        assert(w.subrange(6, 8) =~= le16(self.axq_mu_timer));
        lemma_read16_le16(w, 6, self.axq_mu_timer);
        assert(w.subrange(8, 10) =~= le16(self.tx_power as u16));
        lemma_read16_le16(w, 8, self.tx_power as u16);
        lemma_i16_u16(self.tx_power);
    }

    proof fn lemma_zeroed_fits() {

    }

    fn wire_size() -> (r: Option<usize>) {
        Some(10)
    }

    #[verifier::spinoff_prover]
    fn write_wire(&self, out: &mut Vec<u8>) {
        let ghost start = out@;
        push_u16(out, self.enable);
        push_u16(out, self.qnum);
        push_u16(out, self.aid);
        push_u16(out, self.axq_mu_timer);
        push_u16(out, self.tx_power as u16);
        assert(out@ =~= start + self.wire());
    }

    #[verifier::spinoff_prover]
    fn read_wire(s: &[u8], pos: usize) -> (r: Self) {
        let ghost t = s@.subrange(pos as int, pos + Self::wire_len());
        assert(s@.len() == s.len());
        assert(forall|k: int| 0 <= k < Self::wire_len() ==> #[trigger] t[k] == s@[pos + k]);
        HeTbTx {
            enable: get_u16(s, pos + 0),
            qnum: get_u16(s, pos + 2),
            aid: get_u16(s, pos + 4),
            axq_mu_timer: get_u16(s, pos + 6),
            tx_power: get_u16(s, pos + 8) as i16,
        }
    }

    fn zeroed() -> (r: Self) {
        HeTbTx {
            enable: 0,
            qnum: 0,
            aid: 0,
            axq_mu_timer: 0,
            tx_power: 0,
        }
    }
}

impl Default for HeTbTx {
    fn default() -> (r: Self)
        ensures
            r == Self::spec_zeroed(),
    {
        Self::zeroed()
    }
}

/// Common info field of an HE trigger frame, packed into a little-endian `u64`.
#[derive(Debug, Clone, Copy, PartialEq, Eq)]
pub struct IeeetypesHeTrigComInfo {
    /// Bits 0..4.
    pub trigger_type: u64,
    /// Bits 4..16.
    pub ul_len: u64,
    /// Bits 16..17.
    pub more_tf: u64,
    /// Bits 17..18.
    pub cs_required: u64,
    /// Bits 18..20.
    pub ul_bw: u64,
    /// Bits 20..22.
    pub ltf_type: u64,
    /// Bits 22..23.
    pub ltf_mode: u64,
    /// Bits 23..26.
    pub ltf_symbol: u64,
    /// Bits 26..27.
    pub ul_stbc: u64,
    /// Bits 27..28.
    pub ldpc_ess: u64,
    /// Bits 28..34.
    pub ap_tx_pwr: u64,
    /// Bits 34..36.
    pub pre_fec_pad_fct: u64,
    /// Bits 36..37.
    pub pe_disambig: u64,
    /// Bits 37..53.
    pub spatial_reuse: u64,
    /// Bits 53..54.
    pub doppler: u64,
    /// Bits 54..63.
    pub he_sig2: u64,
    /// Bits 63..64.
    pub reserved: u64,
}

impl IeeetypesHeTrigComInfo {
    /// The packed u64: each field masked to its width and shifted to its offset.
    pub open spec fn spec_bits(&self) -> u64 {
        ((self.trigger_type & 0xf) | ((self.ul_len & 0xfff) << 4) | ((self.more_tf & 0x1) << 16) | ((self.cs_required & 0x1) << 17) | ((self.ul_bw & 0x3) << 18) | ((self.ltf_type & 0x3) << 20) | ((self.ltf_mode & 0x1) << 22) | ((self.ltf_symbol & 0x7) << 23) | ((self.ul_stbc & 0x1) << 26) | ((self.ldpc_ess & 0x1) << 27) | ((self.ap_tx_pwr & 0x3f) << 28) | ((self.pre_fec_pad_fct & 0x3) << 34) | ((self.pe_disambig & 0x1) << 36) | ((self.spatial_reuse & 0xffff) << 37) | ((self.doppler & 0x1) << 53) | ((self.he_sig2 & 0x1ff) << 54) | ((self.reserved & 0x1) << 63)) as u64
    }

    /// The fields of the packed u64 `w`.
    pub open spec fn spec_from_bits(w: u64) -> Self {
        IeeetypesHeTrigComInfo {
            trigger_type: (w & 0xf) as u64,
            ul_len: ((w >> 4) & 0xfff) as u64,
            more_tf: ((w >> 16) & 0x1) as u64,
            cs_required: ((w >> 17) & 0x1) as u64,
            ul_bw: ((w >> 18) & 0x3) as u64,
            ltf_type: ((w >> 20) & 0x3) as u64,
            ltf_mode: ((w >> 22) & 0x1) as u64,
            ltf_symbol: ((w >> 23) & 0x7) as u64,
            ul_stbc: ((w >> 26) & 0x1) as u64,
            ldpc_ess: ((w >> 27) & 0x1) as u64,
            ap_tx_pwr: ((w >> 28) & 0x3f) as u64,
            pre_fec_pad_fct: ((w >> 34) & 0x3) as u64,
            pe_disambig: ((w >> 36) & 0x1) as u64,
            spatial_reuse: ((w >> 37) & 0xffff) as u64,
            doppler: ((w >> 53) & 0x1) as u64,
            he_sig2: ((w >> 54) & 0x1ff) as u64,
            reserved: ((w >> 63) & 0x1) as u64,
        }
    }

    /// Every field fits its width.
    pub open spec fn spec_fits(&self) -> bool {
        self.trigger_type <= 0xf
            && self.ul_len <= 0xfff
            && self.more_tf <= 0x1
            && self.cs_required <= 0x1
            && self.ul_bw <= 0x3
            && self.ltf_type <= 0x3
            && self.ltf_mode <= 0x1
            && self.ltf_symbol <= 0x7
            && self.ul_stbc <= 0x1
            && self.ldpc_ess <= 0x1
            && self.ap_tx_pwr <= 0x3f
            && self.pre_fec_pad_fct <= 0x3
            && self.pe_disambig <= 0x1
            && self.spatial_reuse <= 0xffff
            && self.doppler <= 0x1
            && self.he_sig2 <= 0x1ff
            && self.reserved <= 0x1
    }

    /// The packed u64.
    pub fn to_bits(&self) -> (r: u64)
        ensures
            r == self.spec_bits(),
    {
        ((self.trigger_type & 0xf) | ((self.ul_len & 0xfff) << 4) | ((self.more_tf & 0x1) << 16) | ((self.cs_required & 0x1) << 17) | ((self.ul_bw & 0x3) << 18) | ((self.ltf_type & 0x3) << 20) | ((self.ltf_mode & 0x1) << 22) | ((self.ltf_symbol & 0x7) << 23) | ((self.ul_stbc & 0x1) << 26) | ((self.ldpc_ess & 0x1) << 27) | ((self.ap_tx_pwr & 0x3f) << 28) | ((self.pre_fec_pad_fct & 0x3) << 34) | ((self.pe_disambig & 0x1) << 36) | ((self.spatial_reuse & 0xffff) << 37) | ((self.doppler & 0x1) << 53) | ((self.he_sig2 & 0x1ff) << 54) | ((self.reserved & 0x1) << 63)) as u64
    }

    /// The fields of the packed u64 `w`.
    pub fn from_bits(w: u64) -> (r: Self)
        ensures
            r == Self::spec_from_bits(w),
            r.spec_fits(),
    {
        proof {
            lemma_ieeetypeshetrigcominfo_from_bits_fits(w);
        }
        IeeetypesHeTrigComInfo {
            trigger_type: (w & 0xf) as u64,
            ul_len: ((w >> 4) & 0xfff) as u64,
            more_tf: ((w >> 16) & 0x1) as u64,
            cs_required: ((w >> 17) & 0x1) as u64,
            ul_bw: ((w >> 18) & 0x3) as u64,
            ltf_type: ((w >> 20) & 0x3) as u64,
            ltf_mode: ((w >> 22) & 0x1) as u64,
            ltf_symbol: ((w >> 23) & 0x7) as u64,
            ul_stbc: ((w >> 26) & 0x1) as u64,
            ldpc_ess: ((w >> 27) & 0x1) as u64,
            ap_tx_pwr: ((w >> 28) & 0x3f) as u64,
            pre_fec_pad_fct: ((w >> 34) & 0x3) as u64,
            pe_disambig: ((w >> 36) & 0x1) as u64,
            spatial_reuse: ((w >> 37) & 0xffff) as u64,
            doppler: ((w >> 53) & 0x1) as u64,
            he_sig2: ((w >> 54) & 0x1ff) as u64,
            reserved: ((w >> 63) & 0x1) as u64,
        }
    }
}

proof fn lemma_ieeetypeshetrigcominfo_unpack_pack(trigger_type: u64, ul_len: u64, more_tf: u64, cs_required: u64, ul_bw: u64, ltf_type: u64, ltf_mode: u64, ltf_symbol: u64, ul_stbc: u64, ldpc_ess: u64, ap_tx_pwr: u64, pre_fec_pad_fct: u64, pe_disambig: u64, spatial_reuse: u64, doppler: u64, he_sig2: u64, reserved: u64)
    by (bit_vector)
    requires
        trigger_type <= 0xf,
        ul_len <= 0xfff,
        more_tf <= 0x1,
        cs_required <= 0x1,
        ul_bw <= 0x3,
        ltf_type <= 0x3,
        ltf_mode <= 0x1,
        ltf_symbol <= 0x7,
        ul_stbc <= 0x1,
        ldpc_ess <= 0x1,
        ap_tx_pwr <= 0x3f,
        pre_fec_pad_fct <= 0x3,
        pe_disambig <= 0x1,
        spatial_reuse <= 0xffff,
        doppler <= 0x1,
        he_sig2 <= 0x1ff,
        reserved <= 0x1,
    ensures
        (((((trigger_type & 0xf) | ((ul_len & 0xfff) << 4) | ((more_tf & 0x1) << 16) | ((cs_required & 0x1) << 17) | ((ul_bw & 0x3) << 18) | ((ltf_type & 0x3) << 20) | ((ltf_mode & 0x1) << 22) | ((ltf_symbol & 0x7) << 23) | ((ul_stbc & 0x1) << 26) | ((ldpc_ess & 0x1) << 27) | ((ap_tx_pwr & 0x3f) << 28) | ((pre_fec_pad_fct & 0x3) << 34) | ((pe_disambig & 0x1) << 36) | ((spatial_reuse & 0xffff) << 37) | ((doppler & 0x1) << 53) | ((he_sig2 & 0x1ff) << 54) | ((reserved & 0x1) << 63)) as u64) & 0xf) as u64) == trigger_type,
        ((((((trigger_type & 0xf) | ((ul_len & 0xfff) << 4) | ((more_tf & 0x1) << 16) | ((cs_required & 0x1) << 17) | ((ul_bw & 0x3) << 18) | ((ltf_type & 0x3) << 20) | ((ltf_mode & 0x1) << 22) | ((ltf_symbol & 0x7) << 23) | ((ul_stbc & 0x1) << 26) | ((ldpc_ess & 0x1) << 27) | ((ap_tx_pwr & 0x3f) << 28) | ((pre_fec_pad_fct & 0x3) << 34) | ((pe_disambig & 0x1) << 36) | ((spatial_reuse & 0xffff) << 37) | ((doppler & 0x1) << 53) | ((he_sig2 & 0x1ff) << 54) | ((reserved & 0x1) << 63)) as u64) >> 4) & 0xfff) as u64) == ul_len,
        ((((((trigger_type & 0xf) | ((ul_len & 0xfff) << 4) | ((more_tf & 0x1) << 16) | ((cs_required & 0x1) << 17) | ((ul_bw & 0x3) << 18) | ((ltf_type & 0x3) << 20) | ((ltf_mode & 0x1) << 22) | ((ltf_symbol & 0x7) << 23) | ((ul_stbc & 0x1) << 26) | ((ldpc_ess & 0x1) << 27) | ((ap_tx_pwr & 0x3f) << 28) | ((pre_fec_pad_fct & 0x3) << 34) | ((pe_disambig & 0x1) << 36) | ((spatial_reuse & 0xffff) << 37) | ((doppler & 0x1) << 53) | ((he_sig2 & 0x1ff) << 54) | ((reserved & 0x1) << 63)) as u64) >> 16) & 0x1) as u64) == more_tf,
        ((((((trigger_type & 0xf) | ((ul_len & 0xfff) << 4) | ((more_tf & 0x1) << 16) | ((cs_required & 0x1) << 17) | ((ul_bw & 0x3) << 18) | ((ltf_type & 0x3) << 20) | ((ltf_mode & 0x1) << 22) | ((ltf_symbol & 0x7) << 23) | ((ul_stbc & 0x1) << 26) | ((ldpc_ess & 0x1) << 27) | ((ap_tx_pwr & 0x3f) << 28) | ((pre_fec_pad_fct & 0x3) << 34) | ((pe_disambig & 0x1) << 36) | ((spatial_reuse & 0xffff) << 37) | ((doppler & 0x1) << 53) | ((he_sig2 & 0x1ff) << 54) | ((reserved & 0x1) << 63)) as u64) >> 17) & 0x1) as u64) == cs_required,
        ((((((trigger_type & 0xf) | ((ul_len & 0xfff) << 4) | ((more_tf & 0x1) << 16) | ((cs_required & 0x1) << 17) | ((ul_bw & 0x3) << 18) | ((ltf_type & 0x3) << 20) | ((ltf_mode & 0x1) << 22) | ((ltf_symbol & 0x7) << 23) | ((ul_stbc & 0x1) << 26) | ((ldpc_ess & 0x1) << 27) | ((ap_tx_pwr & 0x3f) << 28) | ((pre_fec_pad_fct & 0x3) << 34) | ((pe_disambig & 0x1) << 36) | ((spatial_reuse & 0xffff) << 37) | ((doppler & 0x1) << 53) | ((he_sig2 & 0x1ff) << 54) | ((reserved & 0x1) << 63)) as u64) >> 18) & 0x3) as u64) == ul_bw,
        ((((((trigger_type & 0xf) | ((ul_len & 0xfff) << 4) | ((more_tf & 0x1) << 16) | ((cs_required & 0x1) << 17) | ((ul_bw & 0x3) << 18) | ((ltf_type & 0x3) << 20) | ((ltf_mode & 0x1) << 22) | ((ltf_symbol & 0x7) << 23) | ((ul_stbc & 0x1) << 26) | ((ldpc_ess & 0x1) << 27) | ((ap_tx_pwr & 0x3f) << 28) | ((pre_fec_pad_fct & 0x3) << 34) | ((pe_disambig & 0x1) << 36) | ((spatial_reuse & 0xffff) << 37) | ((doppler & 0x1) << 53) | ((he_sig2 & 0x1ff) << 54) | ((reserved & 0x1) << 63)) as u64) >> 20) & 0x3) as u64) == ltf_type,
        ((((((trigger_type & 0xf) | ((ul_len & 0xfff) << 4) | ((more_tf & 0x1) << 16) | ((cs_required & 0x1) << 17) | ((ul_bw & 0x3) << 18) | ((ltf_type & 0x3) << 20) | ((ltf_mode & 0x1) << 22) | ((ltf_symbol & 0x7) << 23) | ((ul_stbc & 0x1) << 26) | ((ldpc_ess & 0x1) << 27) | ((ap_tx_pwr & 0x3f) << 28) | ((pre_fec_pad_fct & 0x3) << 34) | ((pe_disambig & 0x1) << 36) | ((spatial_reuse & 0xffff) << 37) | ((doppler & 0x1) << 53) | ((he_sig2 & 0x1ff) << 54) | ((reserved & 0x1) << 63)) as u64) >> 22) & 0x1) as u64) == ltf_mode,
        ((((((trigger_type & 0xf) | ((ul_len & 0xfff) << 4) | ((more_tf & 0x1) << 16) | ((cs_required & 0x1) << 17) | ((ul_bw & 0x3) << 18) | ((ltf_type & 0x3) << 20) | ((ltf_mode & 0x1) << 22) | ((ltf_symbol & 0x7) << 23) | ((ul_stbc & 0x1) << 26) | ((ldpc_ess & 0x1) << 27) | ((ap_tx_pwr & 0x3f) << 28) | ((pre_fec_pad_fct & 0x3) << 34) | ((pe_disambig & 0x1) << 36) | ((spatial_reuse & 0xffff) << 37) | ((doppler & 0x1) << 53) | ((he_sig2 & 0x1ff) << 54) | ((reserved & 0x1) << 63)) as u64) >> 23) & 0x7) as u64) == ltf_symbol,
        ((((((trigger_type & 0xf) | ((ul_len & 0xfff) << 4) | ((more_tf & 0x1) << 16) | ((cs_required & 0x1) << 17) | ((ul_bw & 0x3) << 18) | ((ltf_type & 0x3) << 20) | ((ltf_mode & 0x1) << 22) | ((ltf_symbol & 0x7) << 23) | ((ul_stbc & 0x1) << 26) | ((ldpc_ess & 0x1) << 27) | ((ap_tx_pwr & 0x3f) << 28) | ((pre_fec_pad_fct & 0x3) << 34) | ((pe_disambig & 0x1) << 36) | ((spatial_reuse & 0xffff) << 37) | ((doppler & 0x1) << 53) | ((he_sig2 & 0x1ff) << 54) | ((reserved & 0x1) << 63)) as u64) >> 26) & 0x1) as u64) == ul_stbc,
        ((((((trigger_type & 0xf) | ((ul_len & 0xfff) << 4) | ((more_tf & 0x1) << 16) | ((cs_required & 0x1) << 17) | ((ul_bw & 0x3) << 18) | ((ltf_type & 0x3) << 20) | ((ltf_mode & 0x1) << 22) | ((ltf_symbol & 0x7) << 23) | ((ul_stbc & 0x1) << 26) | ((ldpc_ess & 0x1) << 27) | ((ap_tx_pwr & 0x3f) << 28) | ((pre_fec_pad_fct & 0x3) << 34) | ((pe_disambig & 0x1) << 36) | ((spatial_reuse & 0xffff) << 37) | ((doppler & 0x1) << 53) | ((he_sig2 & 0x1ff) << 54) | ((reserved & 0x1) << 63)) as u64) >> 27) & 0x1) as u64) == ldpc_ess,
        ((((((trigger_type & 0xf) | ((ul_len & 0xfff) << 4) | ((more_tf & 0x1) << 16) | ((cs_required & 0x1) << 17) | ((ul_bw & 0x3) << 18) | ((ltf_type & 0x3) << 20) | ((ltf_mode & 0x1) << 22) | ((ltf_symbol & 0x7) << 23) | ((ul_stbc & 0x1) << 26) | ((ldpc_ess & 0x1) << 27) | ((ap_tx_pwr & 0x3f) << 28) | ((pre_fec_pad_fct & 0x3) << 34) | ((pe_disambig & 0x1) << 36) | ((spatial_reuse & 0xffff) << 37) | ((doppler & 0x1) << 53) | ((he_sig2 & 0x1ff) << 54) | ((reserved & 0x1) << 63)) as u64) >> 28) & 0x3f) as u64) == ap_tx_pwr,
        ((((((trigger_type & 0xf) | ((ul_len & 0xfff) << 4) | ((more_tf & 0x1) << 16) | ((cs_required & 0x1) << 17) | ((ul_bw & 0x3) << 18) | ((ltf_type & 0x3) << 20) | ((ltf_mode & 0x1) << 22) | ((ltf_symbol & 0x7) << 23) | ((ul_stbc & 0x1) << 26) | ((ldpc_ess & 0x1) << 27) | ((ap_tx_pwr & 0x3f) << 28) | ((pre_fec_pad_fct & 0x3) << 34) | ((pe_disambig & 0x1) << 36) | ((spatial_reuse & 0xffff) << 37) | ((doppler & 0x1) << 53) | ((he_sig2 & 0x1ff) << 54) | ((reserved & 0x1) << 63)) as u64) >> 34) & 0x3) as u64) == pre_fec_pad_fct,
        ((((((trigger_type & 0xf) | ((ul_len & 0xfff) << 4) | ((more_tf & 0x1) << 16) | ((cs_required & 0x1) << 17) | ((ul_bw & 0x3) << 18) | ((ltf_type & 0x3) << 20) | ((ltf_mode & 0x1) << 22) | ((ltf_symbol & 0x7) << 23) | ((ul_stbc & 0x1) << 26) | ((ldpc_ess & 0x1) << 27) | ((ap_tx_pwr & 0x3f) << 28) | ((pre_fec_pad_fct & 0x3) << 34) | ((pe_disambig & 0x1) << 36) | ((spatial_reuse & 0xffff) << 37) | ((doppler & 0x1) << 53) | ((he_sig2 & 0x1ff) << 54) | ((reserved & 0x1) << 63)) as u64) >> 36) & 0x1) as u64) == pe_disambig,
        ((((((trigger_type & 0xf) | ((ul_len & 0xfff) << 4) | ((more_tf & 0x1) << 16) | ((cs_required & 0x1) << 17) | ((ul_bw & 0x3) << 18) | ((ltf_type & 0x3) << 20) | ((ltf_mode & 0x1) << 22) | ((ltf_symbol & 0x7) << 23) | ((ul_stbc & 0x1) << 26) | ((ldpc_ess & 0x1) << 27) | ((ap_tx_pwr & 0x3f) << 28) | ((pre_fec_pad_fct & 0x3) << 34) | ((pe_disambig & 0x1) << 36) | ((spatial_reuse & 0xffff) << 37) | ((doppler & 0x1) << 53) | ((he_sig2 & 0x1ff) << 54) | ((reserved & 0x1) << 63)) as u64) >> 37) & 0xffff) as u64) == spatial_reuse,
        ((((((trigger_type & 0xf) | ((ul_len & 0xfff) << 4) | ((more_tf & 0x1) << 16) | ((cs_required & 0x1) << 17) | ((ul_bw & 0x3) << 18) | ((ltf_type & 0x3) << 20) | ((ltf_mode & 0x1) << 22) | ((ltf_symbol & 0x7) << 23) | ((ul_stbc & 0x1) << 26) | ((ldpc_ess & 0x1) << 27) | ((ap_tx_pwr & 0x3f) << 28) | ((pre_fec_pad_fct & 0x3) << 34) | ((pe_disambig & 0x1) << 36) | ((spatial_reuse & 0xffff) << 37) | ((doppler & 0x1) << 53) | ((he_sig2 & 0x1ff) << 54) | ((reserved & 0x1) << 63)) as u64) >> 53) & 0x1) as u64) == doppler,
        ((((((trigger_type & 0xf) | ((ul_len & 0xfff) << 4) | ((more_tf & 0x1) << 16) | ((cs_required & 0x1) << 17) | ((ul_bw & 0x3) << 18) | ((ltf_type & 0x3) << 20) | ((ltf_mode & 0x1) << 22) | ((ltf_symbol & 0x7) << 23) | ((ul_stbc & 0x1) << 26) | ((ldpc_ess & 0x1) << 27) | ((ap_tx_pwr & 0x3f) << 28) | ((pre_fec_pad_fct & 0x3) << 34) | ((pe_disambig & 0x1) << 36) | ((spatial_reuse & 0xffff) << 37) | ((doppler & 0x1) << 53) | ((he_sig2 & 0x1ff) << 54) | ((reserved & 0x1) << 63)) as u64) >> 54) & 0x1ff) as u64) == he_sig2,
        ((((((trigger_type & 0xf) | ((ul_len & 0xfff) << 4) | ((more_tf & 0x1) << 16) | ((cs_required & 0x1) << 17) | ((ul_bw & 0x3) << 18) | ((ltf_type & 0x3) << 20) | ((ltf_mode & 0x1) << 22) | ((ltf_symbol & 0x7) << 23) | ((ul_stbc & 0x1) << 26) | ((ldpc_ess & 0x1) << 27) | ((ap_tx_pwr & 0x3f) << 28) | ((pre_fec_pad_fct & 0x3) << 34) | ((pe_disambig & 0x1) << 36) | ((spatial_reuse & 0xffff) << 37) | ((doppler & 0x1) << 53) | ((he_sig2 & 0x1ff) << 54) | ((reserved & 0x1) << 63)) as u64) >> 63) & 0x1) as u64) == reserved,
{
}

proof fn lemma_ieeetypeshetrigcominfo_from_bits_fits(w: u64)
    by (bit_vector)
    ensures
        (w & 0xf) as u64 <= 0xf,
        ((w >> 4) & 0xfff) as u64 <= 0xfff,
        ((w >> 16) & 0x1) as u64 <= 0x1,
        ((w >> 17) & 0x1) as u64 <= 0x1,
        ((w >> 18) & 0x3) as u64 <= 0x3,
        ((w >> 20) & 0x3) as u64 <= 0x3,
        ((w >> 22) & 0x1) as u64 <= 0x1,
        ((w >> 23) & 0x7) as u64 <= 0x7,
        ((w >> 26) & 0x1) as u64 <= 0x1,
        ((w >> 27) & 0x1) as u64 <= 0x1,
        ((w >> 28) & 0x3f) as u64 <= 0x3f,
        ((w >> 34) & 0x3) as u64 <= 0x3,
        ((w >> 36) & 0x1) as u64 <= 0x1,
        ((w >> 37) & 0xffff) as u64 <= 0xffff,
        ((w >> 53) & 0x1) as u64 <= 0x1,
        ((w >> 54) & 0x1ff) as u64 <= 0x1ff,
        ((w >> 63) & 0x1) as u64 <= 0x1,
{
}

proof fn lemma_ieeetypeshetrigcominfo_pack_unpack(w: u64)
    by (bit_vector)
    ensures
        ((((w & 0xf) as u64) & 0xf) | ((((w >> 4) & 0xfff) as u64 & 0xfff) << 4) | ((((w >> 16) & 0x1) as u64 & 0x1) << 16) | ((((w >> 17) & 0x1) as u64 & 0x1) << 17) | ((((w >> 18) & 0x3) as u64 & 0x3) << 18) | ((((w >> 20) & 0x3) as u64 & 0x3) << 20) | ((((w >> 22) & 0x1) as u64 & 0x1) << 22) | ((((w >> 23) & 0x7) as u64 & 0x7) << 23) | ((((w >> 26) & 0x1) as u64 & 0x1) << 26) | ((((w >> 27) & 0x1) as u64 & 0x1) << 27) | ((((w >> 28) & 0x3f) as u64 & 0x3f) << 28) | ((((w >> 34) & 0x3) as u64 & 0x3) << 34) | ((((w >> 36) & 0x1) as u64 & 0x1) << 36) | ((((w >> 37) & 0xffff) as u64 & 0xffff) << 37) | ((((w >> 53) & 0x1) as u64 & 0x1) << 53) | ((((w >> 54) & 0x1ff) as u64 & 0x1ff) << 54) | ((((w >> 63) & 0x1) as u64 & 0x1) << 63)) as u64 == w,
{
}

impl IeeetypesHeTrigComInfo {
    /// Unpacking a word into fields and packing them again gives the word
    /// back.
    pub proof fn lemma_bits_of_from_bits(w: u64)
        ensures
            Self::spec_from_bits(w).spec_bits() == w,
    {
        lemma_ieeetypeshetrigcominfo_pack_unpack(w);
    }
}

impl WireFormat for IeeetypesHeTrigComInfo {
    open spec fn wire(&self) -> Seq<u8> {
        le64(self.spec_bits())
    }

    open spec fn wire_len() -> nat {
        8
    }

    open spec fn parse_wire(s: Seq<u8>) -> Self {
        Self::spec_from_bits(read64(s, 0))
    }

    open spec fn fits(&self) -> bool {
        self.spec_fits()
    }

    open spec fn spec_zeroed() -> Self {
        IeeetypesHeTrigComInfo {
            trigger_type: 0,
            ul_len: 0,
            more_tf: 0,
            cs_required: 0,
            ul_bw: 0,
            ltf_type: 0,
            ltf_mode: 0,
            ltf_symbol: 0,
            ul_stbc: 0,
            ldpc_ess: 0,
            ap_tx_pwr: 0,
            pre_fec_pad_fct: 0,
            pe_disambig: 0,
            spatial_reuse: 0,
            doppler: 0,
            he_sig2: 0,
            reserved: 0,
        }
    }

    proof fn lemma_wire_len(&self) {
    }

    #[verifier::spinoff_prover]
    proof fn lemma_round_trip(&self) {
        let w = self.wire();
        assert(w.subrange(0, 8) =~= le64(self.spec_bits()));
        lemma_read64_le64(w, 0, self.spec_bits());
        lemma_ieeetypeshetrigcominfo_unpack_pack(self.trigger_type, self.ul_len, self.more_tf, self.cs_required, self.ul_bw, self.ltf_type, self.ltf_mode, self.ltf_symbol, self.ul_stbc, self.ldpc_ess, self.ap_tx_pwr, self.pre_fec_pad_fct, self.pe_disambig, self.spatial_reuse, self.doppler, self.he_sig2, self.reserved);
    }

    proof fn lemma_zeroed_fits() {
    }

    fn wire_size() -> (r: Option<usize>) {
        Some(8)
    }

    #[verifier::spinoff_prover]
    fn write_wire(&self, out: &mut Vec<u8>) {
        push_u64(out, self.to_bits());
    }

    #[verifier::spinoff_prover]
    fn read_wire(s: &[u8], pos: usize) -> (r: Self) {
        Self::from_bits(get_u64(s, pos))
    }

    fn zeroed() -> (r: Self) {
        IeeetypesHeTrigComInfo {
            trigger_type: 0,
            ul_len: 0,
            more_tf: 0,
            cs_required: 0,
            ul_bw: 0,
            ltf_type: 0,
            ltf_mode: 0,
            ltf_symbol: 0,
            ul_stbc: 0,
            ldpc_ess: 0,
            ap_tx_pwr: 0,
            pre_fec_pad_fct: 0,
            pe_disambig: 0,
            spatial_reuse: 0,
            doppler: 0,
            he_sig2: 0,
            reserved: 0,
        }
    }
}

impl Default for IeeetypesHeTrigComInfo {
    fn default() -> (r: Self)
        ensures
            r == Self::spec_zeroed(),
    {
        Self::zeroed()
    }
}

/// User info bits of an HE trigger frame, packed into a little-endian `u32`.
#[derive(Debug, Clone, Copy, PartialEq, Eq)]
pub struct IeeetypesHeTrigUserInfoBits {
    /// Bits 0..12.
    pub aid12: u32,
    /// Bits 12..13.
    pub ru_alloc_reg: u32,
    /// Bits 13..20.
    pub ru_alloc: u32,
    /// Bits 20..21.
    pub ul_coding_type: u32,
    /// Bits 21..25.
    pub ul_mcs: u32,
    /// Bits 25..26.
    pub ul_dcm: u32,
    /// Bits 26..32.
    pub ss_alloc: u32,
}

impl IeeetypesHeTrigUserInfoBits {
    /// The packed u32: each field masked to its width and shifted to its offset.
    pub open spec fn spec_bits(&self) -> u32 {
        ((self.aid12 & 0xfff) | ((self.ru_alloc_reg & 0x1) << 12) | ((self.ru_alloc & 0x7f) << 13) | ((self.ul_coding_type & 0x1) << 20) | ((self.ul_mcs & 0xf) << 21) | ((self.ul_dcm & 0x1) << 25) | ((self.ss_alloc & 0x3f) << 26)) as u32
    }

    /// The fields of the packed u32 `w`.
    pub open spec fn spec_from_bits(w: u32) -> Self {
        IeeetypesHeTrigUserInfoBits {
            aid12: (w & 0xfff) as u32,
            ru_alloc_reg: ((w >> 12) & 0x1) as u32,
            ru_alloc: ((w >> 13) & 0x7f) as u32,
            ul_coding_type: ((w >> 20) & 0x1) as u32,
            ul_mcs: ((w >> 21) & 0xf) as u32,
            ul_dcm: ((w >> 25) & 0x1) as u32,
            ss_alloc: ((w >> 26) & 0x3f) as u32,
        }
    }

    /// Every field fits its width.
    pub open spec fn spec_fits(&self) -> bool {
        self.aid12 <= 0xfff
            && self.ru_alloc_reg <= 0x1
            && self.ru_alloc <= 0x7f
            && self.ul_coding_type <= 0x1
            && self.ul_mcs <= 0xf
            && self.ul_dcm <= 0x1
            && self.ss_alloc <= 0x3f
    }

    /// The packed u32.
    pub fn to_bits(&self) -> (r: u32)
        ensures
            r == self.spec_bits(),
    {
        ((self.aid12 & 0xfff) | ((self.ru_alloc_reg & 0x1) << 12) | ((self.ru_alloc & 0x7f) << 13) | ((self.ul_coding_type & 0x1) << 20) | ((self.ul_mcs & 0xf) << 21) | ((self.ul_dcm & 0x1) << 25) | ((self.ss_alloc & 0x3f) << 26)) as u32
    }

    /// The fields of the packed u32 `w`.
    pub fn from_bits(w: u32) -> (r: Self)
        ensures
            r == Self::spec_from_bits(w),
            r.spec_fits(),
    {
        proof {
            lemma_ieeetypeshetriguserinfobits_from_bits_fits(w);
        }
        IeeetypesHeTrigUserInfoBits {
            aid12: (w & 0xfff) as u32,
            ru_alloc_reg: ((w >> 12) & 0x1) as u32,
            ru_alloc: ((w >> 13) & 0x7f) as u32,
            ul_coding_type: ((w >> 20) & 0x1) as u32,
            ul_mcs: ((w >> 21) & 0xf) as u32,
            ul_dcm: ((w >> 25) & 0x1) as u32,
            ss_alloc: ((w >> 26) & 0x3f) as u32,
        }
    }
}

proof fn lemma_ieeetypeshetriguserinfobits_unpack_pack(aid12: u32, ru_alloc_reg: u32, ru_alloc: u32, ul_coding_type: u32, ul_mcs: u32, ul_dcm: u32, ss_alloc: u32)
    by (bit_vector)
    requires
        aid12 <= 0xfff,
        ru_alloc_reg <= 0x1,
        ru_alloc <= 0x7f,
        ul_coding_type <= 0x1,
        ul_mcs <= 0xf,
        ul_dcm <= 0x1,
        ss_alloc <= 0x3f,
    ensures
        (((((aid12 & 0xfff) | ((ru_alloc_reg & 0x1) << 12) | ((ru_alloc & 0x7f) << 13) | ((ul_coding_type & 0x1) << 20) | ((ul_mcs & 0xf) << 21) | ((ul_dcm & 0x1) << 25) | ((ss_alloc & 0x3f) << 26)) as u32) & 0xfff) as u32) == aid12,
        ((((((aid12 & 0xfff) | ((ru_alloc_reg & 0x1) << 12) | ((ru_alloc & 0x7f) << 13) | ((ul_coding_type & 0x1) << 20) | ((ul_mcs & 0xf) << 21) | ((ul_dcm & 0x1) << 25) | ((ss_alloc & 0x3f) << 26)) as u32) >> 12) & 0x1) as u32) == ru_alloc_reg,
        ((((((aid12 & 0xfff) | ((ru_alloc_reg & 0x1) << 12) | ((ru_alloc & 0x7f) << 13) | ((ul_coding_type & 0x1) << 20) | ((ul_mcs & 0xf) << 21) | ((ul_dcm & 0x1) << 25) | ((ss_alloc & 0x3f) << 26)) as u32) >> 13) & 0x7f) as u32) == ru_alloc,
        ((((((aid12 & 0xfff) | ((ru_alloc_reg & 0x1) << 12) | ((ru_alloc & 0x7f) << 13) | ((ul_coding_type & 0x1) << 20) | ((ul_mcs & 0xf) << 21) | ((ul_dcm & 0x1) << 25) | ((ss_alloc & 0x3f) << 26)) as u32) >> 20) & 0x1) as u32) == ul_coding_type,
        ((((((aid12 & 0xfff) | ((ru_alloc_reg & 0x1) << 12) | ((ru_alloc & 0x7f) << 13) | ((ul_coding_type & 0x1) << 20) | ((ul_mcs & 0xf) << 21) | ((ul_dcm & 0x1) << 25) | ((ss_alloc & 0x3f) << 26)) as u32) >> 21) & 0xf) as u32) == ul_mcs,
        ((((((aid12 & 0xfff) | ((ru_alloc_reg & 0x1) << 12) | ((ru_alloc & 0x7f) << 13) | ((ul_coding_type & 0x1) << 20) | ((ul_mcs & 0xf) << 21) | ((ul_dcm & 0x1) << 25) | ((ss_alloc & 0x3f) << 26)) as u32) >> 25) & 0x1) as u32) == ul_dcm,
        ((((((aid12 & 0xfff) | ((ru_alloc_reg & 0x1) << 12) | ((ru_alloc & 0x7f) << 13) | ((ul_coding_type & 0x1) << 20) | ((ul_mcs & 0xf) << 21) | ((ul_dcm & 0x1) << 25) | ((ss_alloc & 0x3f) << 26)) as u32) >> 26) & 0x3f) as u32) == ss_alloc,
{
}

proof fn lemma_ieeetypeshetriguserinfobits_from_bits_fits(w: u32)
    by (bit_vector)
    ensures
        (w & 0xfff) as u32 <= 0xfff,
        ((w >> 12) & 0x1) as u32 <= 0x1,
        ((w >> 13) & 0x7f) as u32 <= 0x7f,
        ((w >> 20) & 0x1) as u32 <= 0x1,
        ((w >> 21) & 0xf) as u32 <= 0xf,
        ((w >> 25) & 0x1) as u32 <= 0x1,
        ((w >> 26) & 0x3f) as u32 <= 0x3f,
{
}

proof fn lemma_ieeetypeshetriguserinfobits_pack_unpack(w: u32)
    by (bit_vector)
    ensures
        ((((w & 0xfff) as u32) & 0xfff) | ((((w >> 12) & 0x1) as u32 & 0x1) << 12) | ((((w >> 13) & 0x7f) as u32 & 0x7f) << 13) | ((((w >> 20) & 0x1) as u32 & 0x1) << 20) | ((((w >> 21) & 0xf) as u32 & 0xf) << 21) | ((((w >> 25) & 0x1) as u32 & 0x1) << 25) | ((((w >> 26) & 0x3f) as u32 & 0x3f) << 26)) as u32 == w,
{
}

impl IeeetypesHeTrigUserInfoBits {
    /// Unpacking a word into fields and packing them again gives the word
    /// back.
    pub proof fn lemma_bits_of_from_bits(w: u32)
        ensures
            Self::spec_from_bits(w).spec_bits() == w,
    {
        lemma_ieeetypeshetriguserinfobits_pack_unpack(w);
    }
}

impl WireFormat for IeeetypesHeTrigUserInfoBits {
    open spec fn wire(&self) -> Seq<u8> {
        le32(self.spec_bits())
    }

    open spec fn wire_len() -> nat {
        4
    }

    open spec fn parse_wire(s: Seq<u8>) -> Self {
        Self::spec_from_bits(read32(s, 0))
    }

    open spec fn fits(&self) -> bool {
        self.spec_fits()
    }

    open spec fn spec_zeroed() -> Self {
        IeeetypesHeTrigUserInfoBits {
            aid12: 0,
            ru_alloc_reg: 0,
            ru_alloc: 0,
            ul_coding_type: 0,
            ul_mcs: 0,
            ul_dcm: 0,
            ss_alloc: 0,
        }
    }

    proof fn lemma_wire_len(&self) {
    }

    #[verifier::spinoff_prover]
    proof fn lemma_round_trip(&self) {
        let w = self.wire();
        assert(w.subrange(0, 4) =~= le32(self.spec_bits()));
        lemma_read32_le32(w, 0, self.spec_bits());
        lemma_ieeetypeshetriguserinfobits_unpack_pack(self.aid12, self.ru_alloc_reg, self.ru_alloc, self.ul_coding_type, self.ul_mcs, self.ul_dcm, self.ss_alloc);
    }

    proof fn lemma_zeroed_fits() {
    }

    fn wire_size() -> (r: Option<usize>) {
        Some(4)
    }

    #[verifier::spinoff_prover]
    fn write_wire(&self, out: &mut Vec<u8>) {
        push_u32(out, self.to_bits());
    }

    #[verifier::spinoff_prover]
    fn read_wire(s: &[u8], pos: usize) -> (r: Self) {
        Self::from_bits(get_u32(s, pos))
    }

    fn zeroed() -> (r: Self) {
        IeeetypesHeTrigUserInfoBits {
            aid12: 0,
            ru_alloc_reg: 0,
            ru_alloc: 0,
            ul_coding_type: 0,
            ul_mcs: 0,
            ul_dcm: 0,
            ss_alloc: 0,
        }
    }
}

impl Default for IeeetypesHeTrigUserInfoBits {
    fn default() -> (r: Self)
        ensures
            r == Self::spec_zeroed(),
    {
        Self::zeroed()
    }
}

/// Target RSSI byte of the user info field of an HE trigger frame.
#[derive(Debug, Clone, Copy, PartialEq, Eq)]
pub struct IeeetypesHeTrigUserInfoRssi {
    /// Bits 0..7.
    pub ul_target_rssi: u8,
    /// Bits 7..8.
    pub reserved: u8,
}

impl IeeetypesHeTrigUserInfoRssi {
    /// The packed u8: each field masked to its width and shifted to its offset.
    pub open spec fn spec_bits(&self) -> u8 {
        ((self.ul_target_rssi & 0x7f) | ((self.reserved & 0x1) << 7)) as u8
    }

    /// The fields of the packed u8 `w`.
    pub open spec fn spec_from_bits(w: u8) -> Self {
        IeeetypesHeTrigUserInfoRssi {
            ul_target_rssi: (w & 0x7f) as u8,
            reserved: ((w >> 7) & 0x1) as u8,
        }
    }

    /// Every field fits its width.
    pub open spec fn spec_fits(&self) -> bool {
        self.ul_target_rssi <= 0x7f
            && self.reserved <= 0x1
    }

    /// The packed u8.
    pub fn to_bits(&self) -> (r: u8)
        ensures
            r == self.spec_bits(),
    {
        ((self.ul_target_rssi & 0x7f) | ((self.reserved & 0x1) << 7)) as u8
    }

    /// The fields of the packed u8 `w`.
    pub fn from_bits(w: u8) -> (r: Self)
        ensures
            r == Self::spec_from_bits(w),
            r.spec_fits(),
    {
        proof {
            lemma_ieeetypeshetriguserinforssi_from_bits_fits(w);
        }
        IeeetypesHeTrigUserInfoRssi {
            ul_target_rssi: (w & 0x7f) as u8,
            reserved: ((w >> 7) & 0x1) as u8,
        }
    }
}

proof fn lemma_ieeetypeshetriguserinforssi_unpack_pack(ul_target_rssi: u8, reserved: u8)
    by (bit_vector)
    requires
        ul_target_rssi <= 0x7f,
        reserved <= 0x1,
    ensures
        (((((ul_target_rssi & 0x7f) | ((reserved & 0x1) << 7)) as u8) & 0x7f) as u8) == ul_target_rssi,
        ((((((ul_target_rssi & 0x7f) | ((reserved & 0x1) << 7)) as u8) >> 7) & 0x1) as u8) == reserved,
{
}

proof fn lemma_ieeetypeshetriguserinforssi_from_bits_fits(w: u8)
    by (bit_vector)
    ensures
        (w & 0x7f) as u8 <= 0x7f,
        ((w >> 7) & 0x1) as u8 <= 0x1,
{
}

proof fn lemma_ieeetypeshetriguserinforssi_pack_unpack(w: u8)
    by (bit_vector)
    ensures
        ((((w & 0x7f) as u8) & 0x7f) | ((((w >> 7) & 0x1) as u8 & 0x1) << 7)) as u8 == w,
{
}

impl IeeetypesHeTrigUserInfoRssi {
    /// Unpacking a word into fields and packing them again gives the word
    /// back.
    pub proof fn lemma_bits_of_from_bits(w: u8)
        ensures
            Self::spec_from_bits(w).spec_bits() == w,
    {
        lemma_ieeetypeshetriguserinforssi_pack_unpack(w);
    }
}

impl WireFormat for IeeetypesHeTrigUserInfoRssi {
    open spec fn wire(&self) -> Seq<u8> {
        seq![self.spec_bits()]
    }

    open spec fn wire_len() -> nat {
        1
    }

    open spec fn parse_wire(s: Seq<u8>) -> Self {
        Self::spec_from_bits(s[0])
    }

    open spec fn fits(&self) -> bool {
        self.spec_fits()
    }

    open spec fn spec_zeroed() -> Self {
        IeeetypesHeTrigUserInfoRssi {
            ul_target_rssi: 0,
            reserved: 0,
        }
    }

    proof fn lemma_wire_len(&self) {
    }

    #[verifier::spinoff_prover]
    proof fn lemma_round_trip(&self) {
        lemma_ieeetypeshetriguserinforssi_unpack_pack(self.ul_target_rssi, self.reserved);
    }

    proof fn lemma_zeroed_fits() {
    }

    fn wire_size() -> (r: Option<usize>) {
        Some(1)
    }

    #[verifier::spinoff_prover]
    fn write_wire(&self, out: &mut Vec<u8>) {
        out.push(self.to_bits());
        assert(out@ =~= old(out)@ + self.wire());
    }

    #[verifier::spinoff_prover]
    fn read_wire(s: &[u8], pos: usize) -> (r: Self) {
        Self::from_bits(s[pos])
    }

    fn zeroed() -> (r: Self) {
        IeeetypesHeTrigUserInfoRssi {
            ul_target_rssi: 0,
            reserved: 0,
        }
    }
}

impl Default for IeeetypesHeTrigUserInfoRssi {
    fn default() -> (r: Self)
        ensures
            r == Self::spec_zeroed(),
    {
        Self::zeroed()
    }
}

/// C struct `mfg_cmd_IEEEtypes_HETrigUserInfo_t`: user info field of an HE trigger frame.
#[derive(Debug, Clone, Copy, PartialEq, Eq)]
pub struct IeeetypesHeTrigUserInfo {
    pub bits: IeeetypesHeTrigUserInfoBits,
    pub rssi: IeeetypesHeTrigUserInfoRssi,
}

impl WireFormat for IeeetypesHeTrigUserInfo {
    open spec fn wire(&self) -> Seq<u8> {
        self.bits.wire()
            + self.rssi.wire()
    }

    open spec fn wire_len() -> nat {
        5
    }

    open spec fn parse_wire(s: Seq<u8>) -> Self {
        IeeetypesHeTrigUserInfo {
            bits: IeeetypesHeTrigUserInfoBits::parse_wire(s.subrange(0, 4)),
            rssi: IeeetypesHeTrigUserInfoRssi::parse_wire(s.subrange(4, 5)),
        }
    }

    open spec fn fits(&self) -> bool {
        self.bits.fits()
            && self.rssi.fits()
    }

    open spec fn spec_zeroed() -> Self {
        IeeetypesHeTrigUserInfo {
            bits: IeeetypesHeTrigUserInfoBits::spec_zeroed(),
            rssi: IeeetypesHeTrigUserInfoRssi::spec_zeroed(),
        }
    }

    proof fn lemma_wire_len(&self) {
        self.bits.lemma_wire_len();
        self.rssi.lemma_wire_len();
    }

    #[verifier::spinoff_prover]
    proof fn lemma_round_trip(&self) {
        let w = self.wire();
        self.bits.lemma_wire_len();
        self.rssi.lemma_wire_len();
        assert(w.subrange(0, 4) =~= self.bits.wire());
        self.bits.lemma_round_trip();
        assert(w.subrange(4, 5) =~= self.rssi.wire());
        self.rssi.lemma_round_trip();
    }

    proof fn lemma_zeroed_fits() {
        IeeetypesHeTrigUserInfoBits::lemma_zeroed_fits();
        IeeetypesHeTrigUserInfoRssi::lemma_zeroed_fits();
    }

    fn wire_size() -> (r: Option<usize>) {
        Some(5)
    }

    #[verifier::spinoff_prover]
    fn write_wire(&self, out: &mut Vec<u8>) {
        let ghost start = out@;
        proof {
            self.bits.lemma_wire_len();
        }
        self.bits.write_wire(out);
        proof {
            self.rssi.lemma_wire_len();
        }
        self.rssi.write_wire(out);
        assert(out@ =~= start + self.wire());
    }

    #[verifier::spinoff_prover]
    fn read_wire(s: &[u8], pos: usize) -> (r: Self) {
        let ghost t = s@.subrange(pos as int, pos + Self::wire_len());
        assert(s@.len() == s.len());
        assert(forall|k: int| 0 <= k < Self::wire_len() ==> #[trigger] t[k] == s@[pos + k]);
        let bits = IeeetypesHeTrigUserInfoBits::read_wire(s, pos + 0);
        assert(t.subrange(0, 4) =~= s@.subrange(pos + 0, pos + 4));
        let rssi = IeeetypesHeTrigUserInfoRssi::read_wire(s, pos + 4);
        assert(t.subrange(4, 5) =~= s@.subrange(pos + 4, pos + 5));
        IeeetypesHeTrigUserInfo {
            bits,
            rssi,
        }
    }

    fn zeroed() -> (r: Self) {
        IeeetypesHeTrigUserInfo {
            bits: IeeetypesHeTrigUserInfoBits::zeroed(),
            rssi: IeeetypesHeTrigUserInfoRssi::zeroed(),
        }
    }
}

impl Default for IeeetypesHeTrigUserInfo {
    fn default() -> (r: Self)
        ensures
            r == Self::spec_zeroed(),
    {
        Self::zeroed()
    }
}

/// Trigger dependent user info byte of a basic HE trigger frame.
#[derive(Debug, Clone, Copy, PartialEq, Eq)]
pub struct IeeetypesBasicHeTrigUserInfo {
    /// Bits 0..2.
    pub mpdu_mu_sf: u8,
    /// Bits 2..5.
    pub tid_al: u8,
    /// Bits 5..6.
    pub ac_pl: u8,
    /// Bits 6..8.
    pub pref_ac: u8,
}

impl IeeetypesBasicHeTrigUserInfo {
    /// The packed u8: each field masked to its width and shifted to its offset.
    pub open spec fn spec_bits(&self) -> u8 {
        ((self.mpdu_mu_sf & 0x3) | ((self.tid_al & 0x7) << 2) | ((self.ac_pl & 0x1) << 5) | ((self.pref_ac & 0x3) << 6)) as u8
    }

    /// The fields of the packed u8 `w`.
    pub open spec fn spec_from_bits(w: u8) -> Self {
        IeeetypesBasicHeTrigUserInfo {
            mpdu_mu_sf: (w & 0x3) as u8,
            tid_al: ((w >> 2) & 0x7) as u8,
            ac_pl: ((w >> 5) & 0x1) as u8,
            pref_ac: ((w >> 6) & 0x3) as u8,
        }
    }

    /// Every field fits its width.
    pub open spec fn spec_fits(&self) -> bool {
        self.mpdu_mu_sf <= 0x3
            && self.tid_al <= 0x7
            && self.ac_pl <= 0x1
            && self.pref_ac <= 0x3
    }

    /// The packed u8.
    pub fn to_bits(&self) -> (r: u8)
        ensures
            r == self.spec_bits(),
    {
        ((self.mpdu_mu_sf & 0x3) | ((self.tid_al & 0x7) << 2) | ((self.ac_pl & 0x1) << 5) | ((self.pref_ac & 0x3) << 6)) as u8
    }

    /// The fields of the packed u8 `w`.
    pub fn from_bits(w: u8) -> (r: Self)
        ensures
            r == Self::spec_from_bits(w),
            r.spec_fits(),
    {
        proof {
            lemma_ieeetypesbasichetriguserinfo_from_bits_fits(w);
        }
        IeeetypesBasicHeTrigUserInfo {
            mpdu_mu_sf: (w & 0x3) as u8,
            tid_al: ((w >> 2) & 0x7) as u8,
            ac_pl: ((w >> 5) & 0x1) as u8,
            pref_ac: ((w >> 6) & 0x3) as u8,
        }
    }
}

proof fn lemma_ieeetypesbasichetriguserinfo_unpack_pack(mpdu_mu_sf: u8, tid_al: u8, ac_pl: u8, pref_ac: u8)
    by (bit_vector)
    requires
        mpdu_mu_sf <= 0x3,
        tid_al <= 0x7,
        ac_pl <= 0x1,
        pref_ac <= 0x3,
    ensures
        (((((mpdu_mu_sf & 0x3) | ((tid_al & 0x7) << 2) | ((ac_pl & 0x1) << 5) | ((pref_ac & 0x3) << 6)) as u8) & 0x3) as u8) == mpdu_mu_sf,
        ((((((mpdu_mu_sf & 0x3) | ((tid_al & 0x7) << 2) | ((ac_pl & 0x1) << 5) | ((pref_ac & 0x3) << 6)) as u8) >> 2) & 0x7) as u8) == tid_al,
        ((((((mpdu_mu_sf & 0x3) | ((tid_al & 0x7) << 2) | ((ac_pl & 0x1) << 5) | ((pref_ac & 0x3) << 6)) as u8) >> 5) & 0x1) as u8) == ac_pl,
        ((((((mpdu_mu_sf & 0x3) | ((tid_al & 0x7) << 2) | ((ac_pl & 0x1) << 5) | ((pref_ac & 0x3) << 6)) as u8) >> 6) & 0x3) as u8) == pref_ac,
{
}

proof fn lemma_ieeetypesbasichetriguserinfo_from_bits_fits(w: u8)
    by (bit_vector)
    ensures
        (w & 0x3) as u8 <= 0x3,
        ((w >> 2) & 0x7) as u8 <= 0x7,
        ((w >> 5) & 0x1) as u8 <= 0x1,
        ((w >> 6) & 0x3) as u8 <= 0x3,
{
}

proof fn lemma_ieeetypesbasichetriguserinfo_pack_unpack(w: u8)
    by (bit_vector)
    ensures
        ((((w & 0x3) as u8) & 0x3) | ((((w >> 2) & 0x7) as u8 & 0x7) << 2) | ((((w >> 5) & 0x1) as u8 & 0x1) << 5) | ((((w >> 6) & 0x3) as u8 & 0x3) << 6)) as u8 == w,
{
}

impl IeeetypesBasicHeTrigUserInfo {
    /// Unpacking a word into fields and packing them again gives the word
    /// back.
    pub proof fn lemma_bits_of_from_bits(w: u8)
        ensures
            Self::spec_from_bits(w).spec_bits() == w,
    {
        lemma_ieeetypesbasichetriguserinfo_pack_unpack(w);
    }
}

impl WireFormat for IeeetypesBasicHeTrigUserInfo {
    open spec fn wire(&self) -> Seq<u8> {
        seq![self.spec_bits()]
    }

    open spec fn wire_len() -> nat {
        1
    }

    open spec fn parse_wire(s: Seq<u8>) -> Self {
        Self::spec_from_bits(s[0])
    }

    open spec fn fits(&self) -> bool {
        self.spec_fits()
    }

    open spec fn spec_zeroed() -> Self {
        IeeetypesBasicHeTrigUserInfo {
            mpdu_mu_sf: 0,
            tid_al: 0,
            ac_pl: 0,
            pref_ac: 0,
        }
    }

    proof fn lemma_wire_len(&self) {
    }

    #[verifier::spinoff_prover]
    proof fn lemma_round_trip(&self) {
        lemma_ieeetypesbasichetriguserinfo_unpack_pack(self.mpdu_mu_sf, self.tid_al, self.ac_pl, self.pref_ac);
    }

    proof fn lemma_zeroed_fits() {
    }

    fn wire_size() -> (r: Option<usize>) {
        Some(1)
    }

    #[verifier::spinoff_prover]
    fn write_wire(&self, out: &mut Vec<u8>) {
        out.push(self.to_bits());
        assert(out@ =~= old(out)@ + self.wire());
    }

    #[verifier::spinoff_prover]
    fn read_wire(s: &[u8], pos: usize) -> (r: Self) {
        Self::from_bits(s[pos])
    }

    fn zeroed() -> (r: Self) {
        IeeetypesBasicHeTrigUserInfo {
            mpdu_mu_sf: 0,
            tid_al: 0,
            ac_pl: 0,
            pref_ac: 0,
        }
    }
}

impl Default for IeeetypesBasicHeTrigUserInfo {
    fn default() -> (r: Self)
        ensures
            r == Self::spec_zeroed(),
    {
        Self::zeroed()
    }
}

/// IEEE 802.11 frame control field, packed into a little-endian `u16`.
#[derive(Debug, Clone, Copy, PartialEq, Eq)]
pub struct IeeetypesFrameCtrl {
    /// Bits 0..2.
    pub protocol_version: u16,
    /// Bits 2..4.
    pub frame_type: u16,
    /// Bits 4..8.
    pub sub_type: u16,
    /// Bits 8..9.
    pub to_ds: u16,
    /// Bits 9..10.
    pub from_ds: u16,
    /// Bits 10..11.
    pub more_frag: u16,
    /// Bits 11..12.
    pub retry: u16,
    /// Bits 12..13.
    pub pwr_mgmt: u16,
    /// Bits 13..14.
    pub more_data: u16,
    /// Bits 14..15.
    pub wep: u16,
    /// Bits 15..16.
    pub order: u16,
}

impl IeeetypesFrameCtrl {
    /// The packed u16: each field masked to its width and shifted to its offset.
    pub open spec fn spec_bits(&self) -> u16 {
        ((self.protocol_version & 0x3) | ((self.frame_type & 0x3) << 2) | ((self.sub_type & 0xf) << 4) | ((self.to_ds & 0x1) << 8) | ((self.from_ds & 0x1) << 9) | ((self.more_frag & 0x1) << 10) | ((self.retry & 0x1) << 11) | ((self.pwr_mgmt & 0x1) << 12) | ((self.more_data & 0x1) << 13) | ((self.wep & 0x1) << 14) | ((self.order & 0x1) << 15)) as u16
    }

    /// The fields of the packed u16 `w`.
    pub open spec fn spec_from_bits(w: u16) -> Self {
        IeeetypesFrameCtrl {
            protocol_version: (w & 0x3) as u16,
            frame_type: ((w >> 2) & 0x3) as u16,
            sub_type: ((w >> 4) & 0xf) as u16,
            to_ds: ((w >> 8) & 0x1) as u16,
            from_ds: ((w >> 9) & 0x1) as u16,
            more_frag: ((w >> 10) & 0x1) as u16,
            retry: ((w >> 11) & 0x1) as u16,
            pwr_mgmt: ((w >> 12) & 0x1) as u16,
            more_data: ((w >> 13) & 0x1) as u16,
            wep: ((w >> 14) & 0x1) as u16,
            order: ((w >> 15) & 0x1) as u16,
        }
    }

    /// Every field fits its width.
    pub open spec fn spec_fits(&self) -> bool {
        self.protocol_version <= 0x3
            && self.frame_type <= 0x3
            && self.sub_type <= 0xf
            && self.to_ds <= 0x1
            && self.from_ds <= 0x1
            && self.more_frag <= 0x1
            && self.retry <= 0x1
            && self.pwr_mgmt <= 0x1
            && self.more_data <= 0x1
            && self.wep <= 0x1
            && self.order <= 0x1
    }

    /// The packed u16.
    pub fn to_bits(&self) -> (r: u16)
        ensures
            r == self.spec_bits(),
    {
        ((self.protocol_version & 0x3) | ((self.frame_type & 0x3) << 2) | ((self.sub_type & 0xf) << 4) | ((self.to_ds & 0x1) << 8) | ((self.from_ds & 0x1) << 9) | ((self.more_frag & 0x1) << 10) | ((self.retry & 0x1) << 11) | ((self.pwr_mgmt & 0x1) << 12) | ((self.more_data & 0x1) << 13) | ((self.wep & 0x1) << 14) | ((self.order & 0x1) << 15)) as u16
    }

    /// The fields of the packed u16 `w`.
    pub fn from_bits(w: u16) -> (r: Self)
        ensures
            r == Self::spec_from_bits(w),
            r.spec_fits(),
    {
        proof {
            lemma_ieeetypesframectrl_from_bits_fits(w);
        }
        IeeetypesFrameCtrl {
            protocol_version: (w & 0x3) as u16,
            frame_type: ((w >> 2) & 0x3) as u16,
            sub_type: ((w >> 4) & 0xf) as u16,
            to_ds: ((w >> 8) & 0x1) as u16,
            from_ds: ((w >> 9) & 0x1) as u16,
            more_frag: ((w >> 10) & 0x1) as u16,
            retry: ((w >> 11) & 0x1) as u16,
            pwr_mgmt: ((w >> 12) & 0x1) as u16,
            more_data: ((w >> 13) & 0x1) as u16,
            wep: ((w >> 14) & 0x1) as u16,
            order: ((w >> 15) & 0x1) as u16,
        }
    }
}

proof fn lemma_ieeetypesframectrl_unpack_pack(protocol_version: u16, frame_type: u16, sub_type: u16, to_ds: u16, from_ds: u16, more_frag: u16, retry: u16, pwr_mgmt: u16, more_data: u16, wep: u16, order: u16)
    by (bit_vector)
    requires
        protocol_version <= 0x3,
        frame_type <= 0x3,
        sub_type <= 0xf,
        to_ds <= 0x1,
        from_ds <= 0x1,
        more_frag <= 0x1,
        retry <= 0x1,
        pwr_mgmt <= 0x1,
        more_data <= 0x1,
        wep <= 0x1,
        order <= 0x1,
    ensures
        (((((protocol_version & 0x3) | ((frame_type & 0x3) << 2) | ((sub_type & 0xf) << 4) | ((to_ds & 0x1) << 8) | ((from_ds & 0x1) << 9) | ((more_frag & 0x1) << 10) | ((retry & 0x1) << 11) | ((pwr_mgmt & 0x1) << 12) | ((more_data & 0x1) << 13) | ((wep & 0x1) << 14) | ((order & 0x1) << 15)) as u16) & 0x3) as u16) == protocol_version,
        ((((((protocol_version & 0x3) | ((frame_type & 0x3) << 2) | ((sub_type & 0xf) << 4) | ((to_ds & 0x1) << 8) | ((from_ds & 0x1) << 9) | ((more_frag & 0x1) << 10) | ((retry & 0x1) << 11) | ((pwr_mgmt & 0x1) << 12) | ((more_data & 0x1) << 13) | ((wep & 0x1) << 14) | ((order & 0x1) << 15)) as u16) >> 2) & 0x3) as u16) == frame_type,
        ((((((protocol_version & 0x3) | ((frame_type & 0x3) << 2) | ((sub_type & 0xf) << 4) | ((to_ds & 0x1) << 8) | ((from_ds & 0x1) << 9) | ((more_frag & 0x1) << 10) | ((retry & 0x1) << 11) | ((pwr_mgmt & 0x1) << 12) | ((more_data & 0x1) << 13) | ((wep & 0x1) << 14) | ((order & 0x1) << 15)) as u16) >> 4) & 0xf) as u16) == sub_type,
        ((((((protocol_version & 0x3) | ((frame_type & 0x3) << 2) | ((sub_type & 0xf) << 4) | ((to_ds & 0x1) << 8) | ((from_ds & 0x1) << 9) | ((more_frag & 0x1) << 10) | ((retry & 0x1) << 11) | ((pwr_mgmt & 0x1) << 12) | ((more_data & 0x1) << 13) | ((wep & 0x1) << 14) | ((order & 0x1) << 15)) as u16) >> 8) & 0x1) as u16) == to_ds,
        ((((((protocol_version & 0x3) | ((frame_type & 0x3) << 2) | ((sub_type & 0xf) << 4) | ((to_ds & 0x1) << 8) | ((from_ds & 0x1) << 9) | ((more_frag & 0x1) << 10) | ((retry & 0x1) << 11) | ((pwr_mgmt & 0x1) << 12) | ((more_data & 0x1) << 13) | ((wep & 0x1) << 14) | ((order & 0x1) << 15)) as u16) >> 9) & 0x1) as u16) == from_ds,
        ((((((protocol_version & 0x3) | ((frame_type & 0x3) << 2) | ((sub_type & 0xf) << 4) | ((to_ds & 0x1) << 8) | ((from_ds & 0x1) << 9) | ((more_frag & 0x1) << 10) | ((retry & 0x1) << 11) | ((pwr_mgmt & 0x1) << 12) | ((more_data & 0x1) << 13) | ((wep & 0x1) << 14) | ((order & 0x1) << 15)) as u16) >> 10) & 0x1) as u16) == more_frag,
        ((((((protocol_version & 0x3) | ((frame_type & 0x3) << 2) | ((sub_type & 0xf) << 4) | ((to_ds & 0x1) << 8) | ((from_ds & 0x1) << 9) | ((more_frag & 0x1) << 10) | ((retry & 0x1) << 11) | ((pwr_mgmt & 0x1) << 12) | ((more_data & 0x1) << 13) | ((wep & 0x1) << 14) | ((order & 0x1) << 15)) as u16) >> 11) & 0x1) as u16) == retry,
        ((((((protocol_version & 0x3) | ((frame_type & 0x3) << 2) | ((sub_type & 0xf) << 4) | ((to_ds & 0x1) << 8) | ((from_ds & 0x1) << 9) | ((more_frag & 0x1) << 10) | ((retry & 0x1) << 11) | ((pwr_mgmt & 0x1) << 12) | ((more_data & 0x1) << 13) | ((wep & 0x1) << 14) | ((order & 0x1) << 15)) as u16) >> 12) & 0x1) as u16) == pwr_mgmt,
        ((((((protocol_version & 0x3) | ((frame_type & 0x3) << 2) | ((sub_type & 0xf) << 4) | ((to_ds & 0x1) << 8) | ((from_ds & 0x1) << 9) | ((more_frag & 0x1) << 10) | ((retry & 0x1) << 11) | ((pwr_mgmt & 0x1) << 12) | ((more_data & 0x1) << 13) | ((wep & 0x1) << 14) | ((order & 0x1) << 15)) as u16) >> 13) & 0x1) as u16) == more_data,
        ((((((protocol_version & 0x3) | ((frame_type & 0x3) << 2) | ((sub_type & 0xf) << 4) | ((to_ds & 0x1) << 8) | ((from_ds & 0x1) << 9) | ((more_frag & 0x1) << 10) | ((retry & 0x1) << 11) | ((pwr_mgmt & 0x1) << 12) | ((more_data & 0x1) << 13) | ((wep & 0x1) << 14) | ((order & 0x1) << 15)) as u16) >> 14) & 0x1) as u16) == wep,
        ((((((protocol_version & 0x3) | ((frame_type & 0x3) << 2) | ((sub_type & 0xf) << 4) | ((to_ds & 0x1) << 8) | ((from_ds & 0x1) << 9) | ((more_frag & 0x1) << 10) | ((retry & 0x1) << 11) | ((pwr_mgmt & 0x1) << 12) | ((more_data & 0x1) << 13) | ((wep & 0x1) << 14) | ((order & 0x1) << 15)) as u16) >> 15) & 0x1) as u16) == order,
{
}

proof fn lemma_ieeetypesframectrl_from_bits_fits(w: u16)
    by (bit_vector)
    ensures
        (w & 0x3) as u16 <= 0x3,
        ((w >> 2) & 0x3) as u16 <= 0x3,
        ((w >> 4) & 0xf) as u16 <= 0xf,
        ((w >> 8) & 0x1) as u16 <= 0x1,
        ((w >> 9) & 0x1) as u16 <= 0x1,
        ((w >> 10) & 0x1) as u16 <= 0x1,
        ((w >> 11) & 0x1) as u16 <= 0x1,
        ((w >> 12) & 0x1) as u16 <= 0x1,
        ((w >> 13) & 0x1) as u16 <= 0x1,
        ((w >> 14) & 0x1) as u16 <= 0x1,
        ((w >> 15) & 0x1) as u16 <= 0x1,
{
}

proof fn lemma_ieeetypesframectrl_pack_unpack(w: u16)
    by (bit_vector)
    ensures
        ((((w & 0x3) as u16) & 0x3) | ((((w >> 2) & 0x3) as u16 & 0x3) << 2) | ((((w >> 4) & 0xf) as u16 & 0xf) << 4) | ((((w >> 8) & 0x1) as u16 & 0x1) << 8) | ((((w >> 9) & 0x1) as u16 & 0x1) << 9) | ((((w >> 10) & 0x1) as u16 & 0x1) << 10) | ((((w >> 11) & 0x1) as u16 & 0x1) << 11) | ((((w >> 12) & 0x1) as u16 & 0x1) << 12) | ((((w >> 13) & 0x1) as u16 & 0x1) << 13) | ((((w >> 14) & 0x1) as u16 & 0x1) << 14) | ((((w >> 15) & 0x1) as u16 & 0x1) << 15)) as u16 == w,
{
}

impl IeeetypesFrameCtrl {
    /// Unpacking a word into fields and packing them again gives the word
    /// back.
    pub proof fn lemma_bits_of_from_bits(w: u16)
        ensures
            Self::spec_from_bits(w).spec_bits() == w,
    {
        lemma_ieeetypesframectrl_pack_unpack(w);
    }
}

impl WireFormat for IeeetypesFrameCtrl {
    open spec fn wire(&self) -> Seq<u8> {
        le16(self.spec_bits())
    }

    open spec fn wire_len() -> nat {
        2
    }

    open spec fn parse_wire(s: Seq<u8>) -> Self {
        Self::spec_from_bits(read16(s, 0))
    }

    open spec fn fits(&self) -> bool {
        self.spec_fits()
    }

    open spec fn spec_zeroed() -> Self {
        IeeetypesFrameCtrl {
            protocol_version: 0,
            frame_type: 0,
            sub_type: 0,
            to_ds: 0,
            from_ds: 0,
            more_frag: 0,
            retry: 0,
            pwr_mgmt: 0,
            more_data: 0,
            wep: 0,
            order: 0,
        }
    }

    proof fn lemma_wire_len(&self) {
    }

    #[verifier::spinoff_prover]
    proof fn lemma_round_trip(&self) {
        let w = self.wire();
        assert(w.subrange(0, 2) =~= le16(self.spec_bits()));
        lemma_read16_le16(w, 0, self.spec_bits());
        lemma_ieeetypesframectrl_unpack_pack(self.protocol_version, self.frame_type, self.sub_type, self.to_ds, self.from_ds, self.more_frag, self.retry, self.pwr_mgmt, self.more_data, self.wep, self.order);
    }

    proof fn lemma_zeroed_fits() {
    }

    fn wire_size() -> (r: Option<usize>) {
        Some(2)
    }

    #[verifier::spinoff_prover]
    fn write_wire(&self, out: &mut Vec<u8>) {
        push_u16(out, self.to_bits());
    }

    #[verifier::spinoff_prover]
    fn read_wire(s: &[u8], pos: usize) -> (r: Self) {
        Self::from_bits(get_u16(s, pos))
    }

    fn zeroed() -> (r: Self) {
        IeeetypesFrameCtrl {
            protocol_version: 0,
            frame_type: 0,
            sub_type: 0,
            to_ds: 0,
            from_ds: 0,
            more_frag: 0,
            retry: 0,
            pwr_mgmt: 0,
            more_data: 0,
            wep: 0,
            order: 0,
        }
    }
}

impl Default for IeeetypesFrameCtrl {
    fn default() -> (r: Self)
        ensures
            r == Self::spec_zeroed(),
    {
        Self::zeroed()
    }
}

/// C struct `mfg_Cmd_IEEEtypes_CtlBasicTrigHdr_t`: a basic HE trigger frame.
#[derive(Debug, Clone, Copy, PartialEq, Eq)]
pub struct IeeetypesCtlBasicTrigHdr {
    pub enable_tx: u32,
    pub standalone_hetb: u32,
    pub frm_ctl: IeeetypesFrameCtrl,
    pub duration: u16,
    pub dest_addr: [u8; MAC_ADDR_LENGTH],
    pub src_addr: [u8; MAC_ADDR_LENGTH],
    pub trig_common_field: IeeetypesHeTrigComInfo,
    pub trig_user_info_field: IeeetypesHeTrigUserInfo,
    pub basic_trig_user_info: IeeetypesBasicHeTrigUserInfo,
}

impl WireFormat for IeeetypesCtlBasicTrigHdr {
    open spec fn wire(&self) -> Seq<u8> {
        le32(self.enable_tx)
            + le32(self.standalone_hetb)
            + self.frm_ctl.wire()
            + le16(self.duration)
            + self.dest_addr@
            + self.src_addr@
            + self.trig_common_field.wire()
            + self.trig_user_info_field.wire()
            + self.basic_trig_user_info.wire()
    }

    open spec fn wire_len() -> nat {
        38
    }

    open spec fn parse_wire(s: Seq<u8>) -> Self {
        IeeetypesCtlBasicTrigHdr {
            enable_tx: read32(s, 0),
            standalone_hetb: read32(s, 4),
            frm_ctl: IeeetypesFrameCtrl::parse_wire(s.subrange(8, 10)),
            duration: read16(s, 10),
            dest_addr: array_of::<MAC_ADDR_LENGTH>(s.subrange(12, 18)),
            src_addr: array_of::<MAC_ADDR_LENGTH>(s.subrange(18, 24)),
            trig_common_field: IeeetypesHeTrigComInfo::parse_wire(s.subrange(24, 32)),
            trig_user_info_field: IeeetypesHeTrigUserInfo::parse_wire(s.subrange(32, 37)),
            basic_trig_user_info: IeeetypesBasicHeTrigUserInfo::parse_wire(s.subrange(37, 38)),
        }
    }

    open spec fn fits(&self) -> bool {
        self.frm_ctl.fits()
            && self.trig_common_field.fits()
            && self.trig_user_info_field.fits()
            && self.basic_trig_user_info.fits()
    }

    open spec fn spec_zeroed() -> Self {
        IeeetypesCtlBasicTrigHdr {
            enable_tx: 0,
            standalone_hetb: 0,
            frm_ctl: IeeetypesFrameCtrl::spec_zeroed(),
            duration: 0,
            dest_addr: array_of::<MAC_ADDR_LENGTH>(Seq::new(6 as nat, |i: int| 0u8)),
            src_addr: array_of::<MAC_ADDR_LENGTH>(Seq::new(6 as nat, |i: int| 0u8)),
            trig_common_field: IeeetypesHeTrigComInfo::spec_zeroed(),
            trig_user_info_field: IeeetypesHeTrigUserInfo::spec_zeroed(),
            basic_trig_user_info: IeeetypesBasicHeTrigUserInfo::spec_zeroed(),
        }
    }

    proof fn lemma_wire_len(&self) {
        self.frm_ctl.lemma_wire_len();
        self.trig_common_field.lemma_wire_len();
        self.trig_user_info_field.lemma_wire_len();
        self.basic_trig_user_info.lemma_wire_len();
    }

    #[verifier::spinoff_prover]
    proof fn lemma_round_trip(&self) {
        let w = self.wire();
        self.frm_ctl.lemma_wire_len();
        self.trig_common_field.lemma_wire_len();
        self.trig_user_info_field.lemma_wire_len();
        self.basic_trig_user_info.lemma_wire_len();
        assert(w.subrange(0, 4) =~= le32(self.enable_tx));
        lemma_read32_le32(w, 0, self.enable_tx);
        assert(w.subrange(4, 8) =~= le32(self.standalone_hetb));
        lemma_read32_le32(w, 4, self.standalone_hetb);
        assert(w.subrange(8, 10) =~= self.frm_ctl.wire());
        self.frm_ctl.lemma_round_trip();
        assert(w.subrange(10, 12) =~= le16(self.duration));
        lemma_read16_le16(w, 10, self.duration);
        assert(w.subrange(12, 18) =~= self.dest_addr@);
        lemma_array_of(self.dest_addr);
        assert(w.subrange(18, 24) =~= self.src_addr@);
        lemma_array_of(self.src_addr);
        assert(w.subrange(24, 32) =~= self.trig_common_field.wire());
        self.trig_common_field.lemma_round_trip();
        assert(w.subrange(32, 37) =~= self.trig_user_info_field.wire());
        self.trig_user_info_field.lemma_round_trip();
        assert(w.subrange(37, 38) =~= self.basic_trig_user_info.wire());
        self.basic_trig_user_info.lemma_round_trip();
    }

    proof fn lemma_zeroed_fits() {
        IeeetypesFrameCtrl::lemma_zeroed_fits();
        IeeetypesHeTrigComInfo::lemma_zeroed_fits();
        IeeetypesHeTrigUserInfo::lemma_zeroed_fits();
        IeeetypesBasicHeTrigUserInfo::lemma_zeroed_fits();
    }

    fn wire_size() -> (r: Option<usize>) {
        Some(38)
    }

    #[verifier::spinoff_prover]
    fn write_wire(&self, out: &mut Vec<u8>) {
        let ghost start = out@;
        push_u32(out, self.enable_tx);
        push_u32(out, self.standalone_hetb);
        proof {
            self.frm_ctl.lemma_wire_len();
        }
        self.frm_ctl.write_wire(out);
        push_u16(out, self.duration);
        push_bytes(out, self.dest_addr.as_slice());
        push_bytes(out, self.src_addr.as_slice());
        proof {
            self.trig_common_field.lemma_wire_len();
        }
        self.trig_common_field.write_wire(out);
        proof {
            self.trig_user_info_field.lemma_wire_len();
        }
        self.trig_user_info_field.write_wire(out);
        proof {
            self.basic_trig_user_info.lemma_wire_len();
        }
        self.basic_trig_user_info.write_wire(out);
        assert(out@ =~= start + self.wire());
    }

    #[verifier::spinoff_prover]
    fn read_wire(s: &[u8], pos: usize) -> (r: Self) {
        let ghost t = s@.subrange(pos as int, pos + Self::wire_len());
        assert(s@.len() == s.len());
        assert(forall|k: int| 0 <= k < Self::wire_len() ==> #[trigger] t[k] == s@[pos + k]);
        let frm_ctl = IeeetypesFrameCtrl::read_wire(s, pos + 8);
        assert(t.subrange(8, 10) =~= s@.subrange(pos + 8, pos + 10));
        let dest_addr = read_array::<MAC_ADDR_LENGTH>(s, pos + 12);
        assert(t.subrange(12, 18) =~= s@.subrange(pos + 12, pos + 18));
        let src_addr = read_array::<MAC_ADDR_LENGTH>(s, pos + 18);
        assert(t.subrange(18, 24) =~= s@.subrange(pos + 18, pos + 24));
        let trig_common_field = IeeetypesHeTrigComInfo::read_wire(s, pos + 24);
        assert(t.subrange(24, 32) =~= s@.subrange(pos + 24, pos + 32));
        let trig_user_info_field = IeeetypesHeTrigUserInfo::read_wire(s, pos + 32);
        assert(t.subrange(32, 37) =~= s@.subrange(pos + 32, pos + 37));
        let basic_trig_user_info = IeeetypesBasicHeTrigUserInfo::read_wire(s, pos + 37);
        assert(t.subrange(37, 38) =~= s@.subrange(pos + 37, pos + 38));
        IeeetypesCtlBasicTrigHdr {
            enable_tx: get_u32(s, pos + 0),
            standalone_hetb: get_u32(s, pos + 4),
            frm_ctl,
            duration: get_u16(s, pos + 10),
            dest_addr,
            src_addr,
            trig_common_field,
            trig_user_info_field,
            basic_trig_user_info,
        }
    }

    fn zeroed() -> (r: Self) {
        IeeetypesCtlBasicTrigHdr {
            enable_tx: 0,
            standalone_hetb: 0,
            frm_ctl: IeeetypesFrameCtrl::zeroed(),
            duration: 0,
            dest_addr: zero_array::<MAC_ADDR_LENGTH>(),
            src_addr: zero_array::<MAC_ADDR_LENGTH>(),
            trig_common_field: IeeetypesHeTrigComInfo::zeroed(),
            trig_user_info_field: IeeetypesHeTrigUserInfo::zeroed(),
            basic_trig_user_info: IeeetypesBasicHeTrigUserInfo::zeroed(),
        }
    }
}

impl Default for IeeetypesCtlBasicTrigHdr {
    fn default() -> (r: Self)
        ensures
            r == Self::spec_zeroed(),
    {
        Self::zeroed()
    }
}

/// C struct `mfg_cmd_otp_mac_addr_rd_wr_t`: OTP MAC address.
#[derive(Debug, Clone, Copy, PartialEq, Eq)]
pub struct OtpMacAddrRdWr {
    pub mac_addr: [u8; MAC_ADDR_LENGTH],
}

impl WireFormat for OtpMacAddrRdWr {
    open spec fn wire(&self) -> Seq<u8> {
        self.mac_addr@
    }

    open spec fn wire_len() -> nat {
        6
    }

    open spec fn parse_wire(s: Seq<u8>) -> Self {
        OtpMacAddrRdWr {
            mac_addr: array_of::<MAC_ADDR_LENGTH>(s.subrange(0, 6)),
        }
    }

    open spec fn fits(&self) -> bool {
        true
    }

    open spec fn spec_zeroed() -> Self {
        OtpMacAddrRdWr {
            mac_addr: array_of::<MAC_ADDR_LENGTH>(Seq::new(6 as nat, |i: int| 0u8)),
        }
    }

    proof fn lemma_wire_len(&self) {
    }

    #[verifier::spinoff_prover]
    proof fn lemma_round_trip(&self) {
        let w = self.wire();
        assert(w.subrange(0, 6) =~= self.mac_addr@);
        lemma_array_of(self.mac_addr);
    }

    proof fn lemma_zeroed_fits() {

    }

    fn wire_size() -> (r: Option<usize>) {
        Some(6)
    }

    #[verifier::spinoff_prover]
    fn write_wire(&self, out: &mut Vec<u8>) {
        let ghost start = out@;
        push_bytes(out, self.mac_addr.as_slice());
        assert(out@ =~= start + self.wire());
    }

    #[verifier::spinoff_prover]
    fn read_wire(s: &[u8], pos: usize) -> (r: Self) {
        let ghost t = s@.subrange(pos as int, pos + Self::wire_len());
        assert(s@.len() == s.len());
        assert(forall|k: int| 0 <= k < Self::wire_len() ==> #[trigger] t[k] == s@[pos + k]);
        let mac_addr = read_array::<MAC_ADDR_LENGTH>(s, pos + 0);
        assert(t.subrange(0, 6) =~= s@.subrange(pos + 0, pos + 6));
        OtpMacAddrRdWr {
            mac_addr,
        }
    }

    fn zeroed() -> (r: Self) {
        OtpMacAddrRdWr {
            mac_addr: zero_array::<MAC_ADDR_LENGTH>(),
        }
    }
}

impl Default for OtpMacAddrRdWr {
    fn default() -> (r: Self)
        ensures
            r == Self::spec_zeroed(),
    {
        Self::zeroed()
    }
}

/// C struct `mfg_cmd_otp_cal_data_rd_wr_t`: OTP calibration data.
#[derive(Debug, Clone, Copy, PartialEq, Eq)]
pub struct OtpCalDataRdWr {
    pub cal_data_status: u32,
    pub cal_data_len: u32,
    pub cal_data: [u8; CAL_DATA_LEN],
}

impl WireFormat for OtpCalDataRdWr {
    open spec fn wire(&self) -> Seq<u8> {
        le32(self.cal_data_status)
            + le32(self.cal_data_len)
            + self.cal_data@
    }

    open spec fn wire_len() -> nat {
        1408
    }

    open spec fn parse_wire(s: Seq<u8>) -> Self {
        OtpCalDataRdWr {
            cal_data_status: read32(s, 0),
            cal_data_len: read32(s, 4),
            cal_data: array_of::<CAL_DATA_LEN>(s.subrange(8, 1408)),
        }
    }

    open spec fn fits(&self) -> bool {
        true
    }

    open spec fn spec_zeroed() -> Self {
        OtpCalDataRdWr {
            cal_data_status: 0,
            cal_data_len: 0,
            cal_data: array_of::<CAL_DATA_LEN>(Seq::new(1400 as nat, |i: int| 0u8)),
        }
    }

    proof fn lemma_wire_len(&self) {
    }

    #[verifier::spinoff_prover]
    proof fn lemma_round_trip(&self) {
        let w = self.wire();
        assert(w.subrange(0, 4) =~= le32(self.cal_data_status));
        lemma_read32_le32(w, 0, self.cal_data_status);
        assert(w.subrange(4, 8) =~= le32(self.cal_data_len));
        lemma_read32_le32(w, 4, self.cal_data_len);
        assert(w.subrange(8, 1408) =~= self.cal_data@);
        lemma_array_of(self.cal_data);
    }

    proof fn lemma_zeroed_fits() {

    }

    fn wire_size() -> (r: Option<usize>) {
        Some(1408)
    }

    #[verifier::spinoff_prover]
    fn write_wire(&self, out: &mut Vec<u8>) {
        let ghost start = out@;
        push_u32(out, self.cal_data_status);
        push_u32(out, self.cal_data_len);
        push_bytes(out, self.cal_data.as_slice());
        assert(out@ =~= start + self.wire());
    }

    #[verifier::spinoff_prover]
    fn read_wire(s: &[u8], pos: usize) -> (r: Self) {
        let ghost t = s@.subrange(pos as int, pos + Self::wire_len());
        assert(s@.len() == s.len());
        assert(forall|k: int| 0 <= k < Self::wire_len() ==> #[trigger] t[k] == s@[pos + k]);
        let cal_data = read_array::<CAL_DATA_LEN>(s, pos + 8);
        assert(t.subrange(8, 1408) =~= s@.subrange(pos + 8, pos + 1408));
        OtpCalDataRdWr {
            cal_data_status: get_u32(s, pos + 0),
            cal_data_len: get_u32(s, pos + 4),
            cal_data,
        }
    }

    fn zeroed() -> (r: Self) {
        OtpCalDataRdWr {
            cal_data_status: 0,
            cal_data_len: 0,
            cal_data: zero_array::<CAL_DATA_LEN>(),
        }
    }
}

impl Default for OtpCalDataRdWr {
    fn default() -> (r: Self)
        ensures
            r == Self::spec_zeroed(),
    {
        Self::zeroed()
    }
}

impl<T: WireFormat> MfgCmdHeader<T> {
    /// The header of command `code` carrying `body`: the set action when
    /// `write`, else the get action; device id and error zero.
    pub open spec fn spec_new(code: u32, write: bool, body: T) -> Self {
        MfgCmdHeader {
            mfg_cmd: code,
            action: if write {
                HOST_CMD_ACT_GEN_SET
            } else {
                HOST_CMD_ACT_GEN_GET
            },
            device_id: 0,
            error: 0,
            body,
        }
    }

    pub fn new(code: u32, write: bool, body: T) -> (r: Self)
        ensures
            r == Self::spec_new(code, write, body),
    {
        MfgCmdHeader {
            mfg_cmd: code,
            action: if write {
                HOST_CMD_ACT_GEN_SET
            } else {
                HOST_CMD_ACT_GEN_GET
            },
            device_id: 0,
            error: 0,
            body,
        }
    }

    /// The bytes of the header and body.
    pub fn to_vec(&self) -> (r: Vec<u8>)
        ensures
            r@ == self.wire(),
    {
        let mut out: Vec<u8> = Vec::new();
        self.write_wire(&mut out);
        assert(out@ =~= self.wire());
        out
    }
}

/// A manufacturing command body: a packed structure small enough to travel
/// inside a host command.
pub trait MwifiexMfgCmd: WireFormat {
    proof fn lemma_body_size()
        ensures
            Self::wire_len() <= 2048,
    ;

    /// The host command that carries `self` as command `code`, with the set
    /// action when `write`.
    fn into_host_cmd(self, code: u32, write: bool) -> (r: HostCmd<MfgCmdHeader<Self>>)
        ensures
            r == HostCmd::spec_default_with(MfgCmdHeader::spec_new(code, write, self)),
    {
        proof {
            Self::lemma_body_size();
        }
        HostCmd::with_body(MfgCmdHeader::new(code, write, self))
    }
}

impl<T: MwifiexMfgCmd> From<MfgCmdHeader<T>> for HostCmd<MfgCmdHeader<T>> {
    /// The manufacturing host command that carries `header`.
    fn from(header: MfgCmdHeader<T>) -> (r: Self) {
        proof {
            T::lemma_body_size();
        }
        Self::with_body(header)
    }
}

impl<T: MwifiexMfgCmd> FromSpecImpl<MfgCmdHeader<T>> for HostCmd<MfgCmdHeader<T>> {
    open spec fn obeys_from_spec() -> bool {
        true
    }

    open spec fn from_spec(header: MfgCmdHeader<T>) -> Self {
        HostCmd::spec_default_with(header)
    }
}

impl MwifiexMfgCmd for GenericCfg {
    proof fn lemma_body_size() {
    }
}

impl MwifiexMfgCmd for TxFrame2 {
    proof fn lemma_body_size() {
    }
}

impl MwifiexMfgCmd for TxCont {
    proof fn lemma_body_size() {
    }
}

impl MwifiexMfgCmd for HeTbTx {
    proof fn lemma_body_size() {
    }
}

impl MwifiexMfgCmd for IeeetypesHeTrigComInfo {
    proof fn lemma_body_size() {
    }
}

impl MwifiexMfgCmd for IeeetypesHeTrigUserInfoBits {
    proof fn lemma_body_size() {
    }
}

impl MwifiexMfgCmd for IeeetypesHeTrigUserInfoRssi {
    proof fn lemma_body_size() {
    }
}

impl MwifiexMfgCmd for IeeetypesHeTrigUserInfo {
    proof fn lemma_body_size() {
    }
}

impl MwifiexMfgCmd for IeeetypesBasicHeTrigUserInfo {
    proof fn lemma_body_size() {
    }
}

impl MwifiexMfgCmd for IeeetypesFrameCtrl {
    proof fn lemma_body_size() {
    }
}

impl MwifiexMfgCmd for IeeetypesCtlBasicTrigHdr {
    proof fn lemma_body_size() {
    }
}

impl MwifiexMfgCmd for OtpMacAddrRdWr {
    proof fn lemma_body_size() {
    }
}

impl MwifiexMfgCmd for OtpCalDataRdWr {
    proof fn lemma_body_size() {
    }
}

} // verus!
