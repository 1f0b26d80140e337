use mwifiex_nl80211_test_mode::command::{AntennaMode, MfgCmd, Modulation, TxPathId};
use mwifiex_nl80211_test_mode::ffi::CAL_DATA_LEN;
use mwifiex_nl80211_test_mode::interactive::{
    build_command, next_question, parse_hex_data, Answer, CommandChoice, FormError, HexDataError,
    NumberKind, Question, Selection,
};

/// Answer every question with its default (the first option of a list).
fn defaults(choice: CommandChoice) -> Vec<Answer> {
    let mut answers = Vec::new();
    while let Some(q) = next_question(choice, &answers) {
        answers.push(match q {
            Question::Confirm { default, .. } => Answer::Flag(default),
            Question::Number { default, .. } => Answer::Number(default),
            Question::Select { .. } => Answer::Index(0),
            Question::MacAddr { default, .. } => {
                Answer::Mac(mwifiex_nl80211_test_mode::util::parse_mac_addr(default).unwrap())
            }
            Question::HexData { .. } => Answer::Data(vec![0xaa]),
        });
    }
    answers
}

#[test]
fn the_menu() {
    let all = CommandChoice::all();
    assert_eq!(all.len(), 16);
    assert_eq!(all[0], CommandChoice::RfTestMode);
    assert_eq!(all[15], CommandChoice::Exit);
    let names: Vec<&str> = all.iter().map(|c| c.name()).collect();
    assert_eq!(names[5], "channel_bandwidth");
    assert_eq!(names[13], "otp_cal_data");
    let confirm: Vec<bool> = all.iter().map(|c| c.ask_for_confirmation()).collect();
    assert_eq!(confirm.iter().filter(|b| **b).count(), 2);
    assert!(CommandChoice::OtpMacAddr.ask_for_confirmation());
    assert!(!CommandChoice::TxFrame.ask_for_confirmation());
}

#[test]
fn questions_of_tx_power() {
    let q0 = next_question(CommandChoice::TxPower, &[]);
    assert_eq!(
        q0,
        Some(Question::Number { message: "TX power (dBm)", kind: NumberKind::I32, default: 16 })
    );
    let q1 = next_question(CommandChoice::TxPower, &[Answer::Number(10)]);
    assert_eq!(q1, Some(Question::Select { message: "Modulation", list: Selection::Modulation }));
    assert_eq!(Selection::Modulation.labels(), vec!["CCK", "OFDM", "MCS"]);
    let answers = [Answer::Number(10), Answer::Index(2), Answer::Index(1)];
    assert_eq!(next_question(CommandChoice::TxPower, &answers), None);
    assert_eq!(
        build_command(CommandChoice::TxPower, &answers),
        Ok(MfgCmd::TxPower { power_dbm: 10, modulation: Modulation::Mcs, path: TxPathId::B })
    );
}

#[test]
fn default_answers_make_the_defaults() {
    assert_eq!(
        build_command(CommandChoice::RadioMode, &defaults(CommandChoice::RadioMode)),
        Ok(MfgCmd::RadioMode { radio0: 1, radio1: 11 })
    );
    assert_eq!(
        build_command(CommandChoice::TxAntenna, &defaults(CommandChoice::TxAntenna)),
        Ok(MfgCmd::TxAntenna { mode: AntennaMode::A })
    );
    match build_command(CommandChoice::TxFrame, &defaults(CommandChoice::TxFrame)) {
        Ok(MfgCmd::TxFrame { tx_rate, payload_length, num_pkt, bssid, .. }) => {
            assert_eq!(tx_rate, 8);
            assert_eq!(payload_length, 598);
            assert_eq!(num_pkt, -1);
            assert_eq!(bssid, [0x05, 0x43, 0x3f, 0xc4, 0x51, 0x00]);
        }
        other => panic!("unexpected {other:?}"),
    }
    match build_command(CommandChoice::TriggerFrame, &defaults(CommandChoice::TriggerFrame)) {
        Ok(cmd) => {
            assert!(cmd.fits_bit_fields());
            if let MfgCmd::TriggerFrame { frame_duration, spatial_reuse, ru_alloc, .. } = cmd {
                assert_eq!(frame_duration, 5484);
                assert_eq!(spatial_reuse, 65535);
                assert_eq!(ru_alloc, 106);
            } else {
                panic!("not a trigger frame");
            }
        }
        other => panic!("unexpected {other:?}"),
    }
    assert_eq!(
        build_command(CommandChoice::GetAndResetPer, &[]),
        Ok(MfgCmd::GetAndResetPer {
            rx_total_packet_count: 0,
            rx_multi_broadcast_packet_count: 0,
            rx_frame_check_sequence_errors: 0,
        })
    );
}

#[test]
fn otp_questions_depend_on_the_first_answer() {
    assert_eq!(next_question(CommandChoice::OtpCalData, &[Answer::Flag(false)]), None);
    assert_eq!(
        next_question(CommandChoice::OtpCalData, &[Answer::Flag(true)]),
        Some(Question::HexData {
            message: "Calibration data as hex bytes (max 1400 bytes)",
            max_len: CAL_DATA_LEN,
        })
    );
    assert_eq!(
        build_command(CommandChoice::OtpCalData, &[Answer::Flag(false)]),
        Ok(MfgCmd::OtpCalData { write: false, cal_data: vec![] })
    );
    assert_eq!(
        build_command(CommandChoice::OtpCalData, &[Answer::Flag(true), Answer::Data(vec![1, 2])]),
        Ok(MfgCmd::OtpCalData { write: true, cal_data: vec![1, 2] })
    );
    assert_eq!(
        next_question(CommandChoice::OtpMacAddr, &[Answer::Flag(true)]),
        Some(Question::MacAddr { message: "MAC address", default: "00:11:22:33:44:55" })
    );
    assert_eq!(
        next_question(CommandChoice::OtpMacAddr, &[Answer::Flag(false)]),
        Some(Question::MacAddr { message: "MAC address", default: "00:00:00:00:00:00" })
    );
}

#[test]
fn answers_that_do_not_fit_make_no_command() {
    assert_eq!(build_command(CommandChoice::Exit, &[]), Err(FormError::NotACommand));
    assert_eq!(build_command(CommandChoice::RfChannel, &[]), Err(FormError::AnswersDoNotFit));
    assert_eq!(
        build_command(CommandChoice::RfChannel, &[Answer::Number(70000)]),
        Err(FormError::AnswersDoNotFit)
    );
    assert_eq!(
        build_command(CommandChoice::RfChannel, &[Answer::Flag(true)]),
        Err(FormError::AnswersDoNotFit)
    );
    assert_eq!(
        build_command(CommandChoice::TxAntenna, &[Answer::Index(3)]),
        Err(FormError::AnswersDoNotFit)
    );
    assert_eq!(
        build_command(CommandChoice::RfChannel, &[Answer::Number(36), Answer::Number(1)]),
        Err(FormError::AnswersDoNotFit)
    );
}

#[test]
fn hex_data() {
    assert_eq!(parse_hex_data("aa55ff00", 10), Ok(vec![0xaa, 0x55, 0xff, 0x00]));
    assert_eq!(parse_hex_data("aa:55:FF:00", 10), Ok(vec![0xaa, 0x55, 0xff, 0x00]));
    assert_eq!(parse_hex_data(" 0 1 ", 10), Ok(vec![0x01]));
    assert_eq!(parse_hex_data("xyz", 10), Err(HexDataError::Empty));
    assert_eq!(parse_hex_data("", 10), Err(HexDataError::Empty));
    assert_eq!(parse_hex_data("abc", 10), Err(HexDataError::OddDigits));
    assert_eq!(parse_hex_data("aabbcc", 2), Err(HexDataError::TooLong { len: 3, max: 2 }));
    assert_eq!(parse_hex_data("aabb", 2), Ok(vec![0xaa, 0xbb]));
}

#[test]
fn hex_data_separators_do_not_matter() {
    for input in ["aa55ff00", "aa:55:ff:00", "aa 55-ff_00", "AA55FF00\n"] {
        assert_eq!(parse_hex_data(input, 4), Ok(vec![0xaa, 0x55, 0xff, 0x00]));
    }
}
