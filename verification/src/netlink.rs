//! The nl80211 vocabulary that test mode commands travel in, and the
//! decisions taken on what the kernel answers.

use vstd::prelude::*;

use crate::command::{cmd_result, lemma_decode_encode, CardType, CommandError, MfgCmd, MfgCmdModel};

verus! {

/// The nl80211 commands that are used.
#[derive(Debug, Clone, Copy, PartialEq, Eq, Structural)]
pub enum Nl80211Command {
    GetInterface,
    Testmode,
}

impl Nl80211Command {
    /// The command's number in nl80211.
    pub fn value(self) -> (r: u8)
        ensures
            r == match self {
                Nl80211Command::GetInterface => 5u8,
                Nl80211Command::Testmode => 45u8,
            },
    {
        match self {
            Nl80211Command::GetInterface => 5,
            Nl80211Command::Testmode => 45,
        }
    }
}

/// The nl80211 attributes that are used.
#[derive(Debug, Clone, Copy, PartialEq, Eq, Structural)]
pub enum Nl80211Attribute {
    Wiphy,
    IfIndex,
    Testdata,
    Wdev,
}

impl Nl80211Attribute {
    /// The attribute's number in nl80211.
    pub fn value(self) -> (r: u16)
        ensures
            r == match self {
                Nl80211Attribute::Wiphy => 1u16,
                Nl80211Attribute::IfIndex => 3u16,
                Nl80211Attribute::Testdata => 69u16,
                Nl80211Attribute::Wdev => 153u16,
            },
    {
        match self {
            Nl80211Attribute::Wiphy => 1,
            Nl80211Attribute::IfIndex => 3,
            Nl80211Attribute::Testdata => 69,
            Nl80211Attribute::Wdev => 153,
        }
    }
}

/// The attributes nested in the test mode data of the mwifiex driver.
#[derive(Debug, Clone, Copy, PartialEq, Eq, Structural)]
pub enum Nl80211MwifiexTmAttribute {
    Cmd,
    Data,
}

impl Nl80211MwifiexTmAttribute {
    /// The attribute's number.
    pub fn value(self) -> (r: u16)
        ensures
            r == match self {
                Nl80211MwifiexTmAttribute::Cmd => 1u16,
                Nl80211MwifiexTmAttribute::Data => 2u16,
            },
    {
        match self {
            Nl80211MwifiexTmAttribute::Cmd => 1,
            Nl80211MwifiexTmAttribute::Data => 2,
        }
    }
}

/// The test mode commands of the mwifiex driver.
#[derive(Debug, Clone, Copy, PartialEq, Eq, Structural)]
pub enum Nl80211MwifiexTmCommand {
    HostCmd,
}

impl Nl80211MwifiexTmCommand {
    /// The command's number.
    pub fn value(self) -> (r: u32)
        ensures
            r == 0,
    {
        0
    }
}

/// An attribute of the kernel's answer to `GetInterface`, as far as it
/// matters here.
#[derive(Debug, Clone, Copy, PartialEq, Eq, Structural)]
pub enum InterfaceAttr {
    /// The index of the wiphy.
    Wiphy(u32),
    /// The wireless device identifier.
    Wdev(u64),
    /// Any other attribute.
    Other,
}

/// The wiphy index among `attrs`: the last one given.
pub open spec fn last_wiphy(attrs: Seq<InterfaceAttr>) -> Option<u32>
    decreases attrs.len(),
{
    if attrs.len() == 0 {
        None
    } else if let InterfaceAttr::Wiphy(w) = attrs.last() {
        Some(w)
    } else {
        last_wiphy(attrs.drop_last())
    }
}

/// The wireless device identifier among `attrs`: the last one given.
pub open spec fn last_wdev(attrs: Seq<InterfaceAttr>) -> Option<u64>
    decreases attrs.len(),
{
    if attrs.len() == 0 {
        None
    } else if let InterfaceAttr::Wdev(w) = attrs.last() {
        Some(w)
    } else {
        last_wdev(attrs.drop_last())
    }
}

/// The wiphy index and the wireless device identifier of an interface, from
/// the attributes of the kernel's answers in the order received; `None`
/// where either is missing.
pub fn interface_ids(attrs: &[InterfaceAttr]) -> (r: Option<(u32, u64)>)
    ensures
        r == match (last_wiphy(attrs@), last_wdev(attrs@)) {
            (Some(w), Some(d)) => Some((w, d)),
            _ => None::<(u32, u64)>,
        },
{
    let mut wiphy: Option<u32> = None;
    let mut wdev: Option<u64> = None;
    let mut i: usize = 0;
    assert(attrs@.take(0) =~= Seq::<InterfaceAttr>::empty());
    while i < attrs.len()
        invariant
            i <= attrs@.len(),
            wiphy == last_wiphy(attrs@.take(i as int)),
            wdev == last_wdev(attrs@.take(i as int)),
        decreases attrs@.len() - i,
    {
        assert(attrs@.take(i + 1).drop_last() =~= attrs@.take(i as int));
        match attrs[i] {
            InterfaceAttr::Wiphy(w) => {
                wiphy = Some(w);
            },
            InterfaceAttr::Wdev(d) => {
                wdev = Some(d);
            },
            InterfaceAttr::Other => {},
        }
        i = i + 1;
    }
    assert(attrs@.take(i as int) =~= attrs@);
    match (wiphy, wdev) {
        (Some(w), Some(d)) => Some((w, d)),
        _ => None,
    }
}

/// A command handle that sends nothing: each command is encoded and its own
/// buffer decoded as the response.
pub struct MwifiexDryRunHandle {
    pub card_type: CardType,
}

impl MwifiexDryRunHandle {
    /// Encode `cmd` and decode the buffer as if the firmware had answered
    /// with it.
    pub fn send_mfg_cmd(&self, cmd: &MfgCmd) -> (r: Result<MfgCmd, CommandError>)
        requires
            cmd@.fits_bit_fields(),
        ensures
            cmd_result(r) == cmd@.dry_run(self.card_type),
            cmd@.encode(self.card_type) is Ok ==> cmd_result(r) == Ok::<MfgCmdModel, CommandError>(
                cmd@.normalized(self.card_type),
            ),
    {
        let buffer = cmd.into_host_command_buffer(self.card_type)?;
        proof {
            lemma_decode_encode(cmd@, self.card_type);
        }
        cmd.from_host_command_response(buffer.as_slice())
    }
}
} // verus!
