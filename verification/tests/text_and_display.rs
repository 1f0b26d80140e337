use mwifiex_nl80211_test_mode::command::MfgCmd;
use mwifiex_nl80211_test_mode::text::string_of;
use mwifiex_nl80211_test_mode::util::{
    format_request_response, lines_of, parse_mac_addr, side_by_side, MacAddrError,
};

#[test]
fn mac_addresses() {
    assert_eq!(parse_mac_addr("00:11:22:33:44:55"), Ok([0x00, 0x11, 0x22, 0x33, 0x44, 0x55]));
    assert_eq!(parse_mac_addr("aa:BB:c:0d:e:ff"), Ok([0xaa, 0xbb, 0x0c, 0x0d, 0x0e, 0xff]));
    assert_eq!(parse_mac_addr("00:11:22:33:44"), Err(MacAddrError::WrongLength { count: 5 }));
    assert_eq!(parse_mac_addr("00:11:22:33:44:55:66"), Err(MacAddrError::WrongLength { count: 7 }));
    assert_eq!(parse_mac_addr("00:11:122:33:44:55"), Err(MacAddrError::InvalidByte { segment: 2 }));
    assert_eq!(parse_mac_addr("00-11-22-33-44-55"), Err(MacAddrError::InvalidByte { segment: 0 }));
    assert_eq!(parse_mac_addr(""), Err(MacAddrError::InvalidByte { segment: 0 }));
}

#[test]
fn lines_follow_str_lines() {
    let cases = ["", "a", "a\n", "a\nb", "a\r\nb\r\n", "\n\n", "x\r", "a\n\nb"];
    for case in cases {
        let chars: Vec<char> = case.chars().collect();
        let got: Vec<String> = lines_of(&chars).iter().map(|l| l.iter().collect()).collect();
        let want: Vec<String> = case.lines().map(|l| l.to_string()).collect();
        assert_eq!(got, want, "lines of {case:?}");
    }
}

#[test]
fn strings_from_characters() {
    let chars: Vec<char> = "grüße".chars().collect();
    assert_eq!(string_of(&chars), "grüße");
}

#[test]
fn side_by_side_pads_and_marks_the_middle() {
    let out = side_by_side("ab\ncdef\ng", "1\n2\n3");
    assert_eq!(out, "ab        1   \ncdef  =>  2   \ng         3   \n");
}

#[test]
fn side_by_side_stops_at_the_shorter_text() {
    let out = side_by_side("a\nb\nc\nd", "x\ny");
    // the arrow sits on row 4 / 2 = 2, which is not shown
    assert_eq!(out, "a      x\nb      y\n");
    assert_eq!(side_by_side("", "x"), "");
}

#[test]
fn side_by_side_measures_bytes_and_pads_characters() {
    // "é" is two bytes: the column is two wide, and one space pads it
    let out = side_by_side("é", "a");
    assert_eq!(out, "é   =>  a \n");
}

#[test]
fn request_and_response_side_by_side() {
    let req = MfgCmd::RfChannel { channel: 6 };
    let resp = MfgCmd::RfChannel { channel: 7 };
    let out = format_request_response(&req, &resp);
    let expected = side_by_side(&format!("{req:#?}"), &format!("{resp:#?}"));
    assert_eq!(out, expected);
    assert_eq!(
        out,
        "RfChannel {          RfChannel {    \n    channel: 6,  =>      channel: 7,\n}                    }              \n"
    );
}

#[test]
fn formatted_mac_addresses_read_back() {
    for a in [[0u8, 0x11, 0x22, 0x33, 0x44, 0x55], [0xff, 0xa0, 0x0b, 0, 1, 0xfe]] {
        let lower = format!("{:02x}:{:02x}:{:02x}:{:02x}:{:02x}:{:02x}", a[0], a[1], a[2], a[3], a[4], a[5]);
        let upper = format!("{:02X}:{:02X}:{:02X}:{:02X}:{:02X}:{:02X}", a[0], a[1], a[2], a[3], a[4], a[5]);
        assert_eq!(parse_mac_addr(&lower), Ok(a));
        assert_eq!(parse_mac_addr(&upper), Ok(a));
    }
}

#[test]
fn side_by_side_rows_have_equal_length() {
    let out = side_by_side("a\nbbb\ncc\ndddd\ne", "1\n22\n333");
    let rows: Vec<&str> = out.lines().collect();
    assert_eq!(rows.len(), 3);
    for row in &rows {
        assert_eq!(row.chars().count(), 2 * 3 + 6);
    }
    assert!(rows[2].contains("=>"));
}
