use mwifiex_nl80211_test_mode::ffi::{
    IeeetypesBasicHeTrigUserInfo, IeeetypesFrameCtrl, IeeetypesHeTrigComInfo,
    IeeetypesHeTrigUserInfoBits, IeeetypesHeTrigUserInfoRssi,
};

#[test]
fn words_unpack_and_pack_back() {
    for w in [0u16, 1, 0x00a4, 0x8001, 0xffff, 0x1234] {
        assert_eq!(IeeetypesFrameCtrl::from_bits(w).to_bits(), w);
    }
    for w in [0u64, 0x0123_4567_89ab_cdef, u64::MAX] {
        assert_eq!(IeeetypesHeTrigComInfo::from_bits(w).to_bits(), w);
    }
    for w in [0u32, 0xdead_beef, u32::MAX] {
        assert_eq!(IeeetypesHeTrigUserInfoBits::from_bits(w).to_bits(), w);
    }
    for w in [0u8, 0x5a, 0xff] {
        assert_eq!(IeeetypesHeTrigUserInfoRssi::from_bits(w).to_bits(), w);
        assert_eq!(IeeetypesBasicHeTrigUserInfo::from_bits(w).to_bits(), w);
    }
}

#[test]
fn frame_control_fields() {
    // type 1 (control), subtype 2 (trigger)
    let fc = IeeetypesFrameCtrl::from_bits(0x0024);
    assert_eq!(fc.protocol_version, 0);
    assert_eq!(fc.frame_type, 1);
    assert_eq!(fc.sub_type, 2);
    assert_eq!(fc.to_bits(), 0x0024);
}
