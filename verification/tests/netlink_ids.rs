use mwifiex_nl80211_test_mode::netlink::{
    interface_ids, InterfaceAttr, Nl80211Attribute, Nl80211Command, Nl80211MwifiexTmAttribute,
    Nl80211MwifiexTmCommand,
};

#[test]
fn nl80211_numbers() {
    assert_eq!(Nl80211Command::GetInterface.value(), 5);
    assert_eq!(Nl80211Command::Testmode.value(), 45);
    assert_eq!(Nl80211Attribute::Wiphy.value(), 1);
    assert_eq!(Nl80211Attribute::IfIndex.value(), 3);
    assert_eq!(Nl80211Attribute::Testdata.value(), 69);
    assert_eq!(Nl80211Attribute::Wdev.value(), 153);
    assert_eq!(Nl80211MwifiexTmAttribute::Cmd.value(), 1);
    assert_eq!(Nl80211MwifiexTmAttribute::Data.value(), 2);
    assert_eq!(Nl80211MwifiexTmCommand::HostCmd.value(), 0);
}

#[test]
fn interface_ids_take_the_last_values() {
    let attrs = [
        InterfaceAttr::Wiphy(1),
        InterfaceAttr::Other,
        InterfaceAttr::Wdev(7),
        InterfaceAttr::Wiphy(2),
    ];
    assert_eq!(interface_ids(&attrs), Some((2, 7)));
    assert_eq!(interface_ids(&[InterfaceAttr::Wiphy(1)]), None);
    assert_eq!(interface_ids(&[InterfaceAttr::Wdev(1)]), None);
    assert_eq!(interface_ids(&[]), None);
}
