use at_commands::parser::CommandParser;
use golioth_rs::signal::{get_signal_strength, parse_cesq, SignalQuality};

fn through_the_combinators(line: &[u8]) -> Option<SignalQuality> {
    CommandParser::parse(line)
        .expect_identifier(b"+CESQ:")
        .expect_int_parameter()
        .expect_int_parameter()
        .expect_int_parameter()
        .expect_int_parameter()
        .expect_int_parameter()
        .expect_int_parameter()
        .expect_identifier(b"\r\n")
        .finish()
        .ok()
        .map(|(rxlev, ber, rscp, ecno, rsrq, rsrp)| SignalQuality {
            rxlev,
            ber,
            rscp,
            ecno,
            rsrq,
            rsrp,
        })
}

#[test]
fn a_report_is_read() {
    assert_eq!(
        parse_cesq(b"+CESQ: 99,99,255,255,31,62\r\n"),
        Some(SignalQuality { rxlev: 99, ber: 99, rscp: 255, ecno: 255, rsrq: 31, rsrp: 62 })
    );
    assert_eq!(
        parse_cesq(b"+CESQ:1,2,3,4,5,6\r\nOK\r\n"),
        Some(SignalQuality { rxlev: 1, ber: 2, rscp: 3, ecno: 4, rsrq: 5, rsrp: 6 })
    );
}

#[test]
fn the_strength_is_the_power_less_140() {
    assert_eq!(get_signal_strength(b"+CESQ: 99,99,255,255,31,62\r\n"), Some(-78));
    assert_eq!(get_signal_strength(b"+CESQ: 99,99,255,255,31,0\r\n"), Some(-140));
    assert_eq!(get_signal_strength(b"+CESQ: 99,99,255,255,31,97\r\n"), Some(-43));
    assert_eq!(get_signal_strength(b"+CESQ: 99,99,255,255,31,254\r\n"), Some(114));
    assert_eq!(get_signal_strength(b"+CESQ: 99,99,255,255,31,256\r\n"), Some(116));
}

#[test]
fn an_unknown_power_stays_255() {
    assert_eq!(get_signal_strength(b"+CESQ: 99,99,255,255,255,255\r\n"), Some(255));
}

#[test]
fn signs_and_spaces() {
    assert_eq!(
        parse_cesq(b"+CESQ:   -1, +2,3,  4,-0,+-7  \r\n"),
        Some(SignalQuality { rxlev: -1, ber: 2, rscp: 3, ecno: 4, rsrq: 0, rsrp: -7 })
    );
    // a comma is passed over only where it follows its number at once
    assert_eq!(parse_cesq(b"+CESQ: 1,2,3 ,4,5,6\r\n"), None);
    // a lone minus sign writes zero; the commas may be left out
    assert_eq!(
        parse_cesq(b"+CESQ: - 2 3 4 5 6\r\n"),
        Some(SignalQuality { rxlev: 0, ber: 2, rscp: 3, ecno: 4, rsrq: 5, rsrp: 6 })
    );
    assert_eq!(get_signal_strength(b"+CESQ: 1,2,3,4,5,-2147483648\r\n"), None);
    assert_eq!(get_signal_strength(b"+CESQ: 1,2,3,4,5,-2147483508\r\n"), Some(i32::MIN));
    assert_eq!(get_signal_strength(b"+CESQ: 1,2,3,4,5,2147483647\r\n"), Some(2147483507));
}

#[test]
fn what_is_no_report() {
    for line in [
        &b""[..],
        b"+CESQ:",
        b"+CESQ: 99,99,255,255,31,62",
        b"+CESQ: 99,99,255,255,31,62\n",
        b"+CESQ: 99,99,255,255,31\r\n",
        b"+CESQ: 99,99,255,255,31,62,1\r\n",
        b"+CSQ: 99,99,255,255,31,62\r\n",
        b" +CESQ: 99,99,255,255,31,62\r\n",
        b"+CESQ: 99,,255,255,31,62\r\n",
        b"+CESQ: 99,9a,255,255,31,62\r\n",
        b"+CESQ: 99,1-2,255,255,31,62\r\n",
        b"+CESQ: 99,+,255,255,31,62\r\n",
        b"+CESQ: 99,99,255,255,31,2147483648\r\n",
        b"+CESQ: 99,99,255,255,31,-2147483649\r\n",
        b"+CESQ: 99,99,255,255,31,000000000062\r\n",
        b"ERROR\r\n",
    ] {
        assert_eq!(parse_cesq(line), None, "{:?}", String::from_utf8_lossy(line));
        assert_eq!(get_signal_strength(line), None);
    }
}

#[test]
fn eleven_characters_are_the_most() {
    assert_eq!(
        parse_cesq(b"+CESQ: 00000000001,-0000000002,+00000000003,4,5,6\r\n"),
        Some(SignalQuality { rxlev: 1, ber: -2, rscp: 3, ecno: 4, rsrq: 5, rsrp: 6 })
    );
    assert_eq!(parse_cesq(b"+CESQ: 000000000001,2,3,4,5,6\r\n"), None);
}

#[test]
fn the_reading_is_that_of_the_combinators() {
    let lines: [&[u8]; 24] = [
        b"+CESQ: 99,99,255,255,31,62\r\n",
        b"+CESQ:99,99,255,255,31,62\r\nOK\r\n",
        b"+CESQ:   -1, +2,3 ,  4,-0,+-7  \r\n",
        b"+CESQ: - 2 3 4 5 6\r\n",
        b"+CESQ: 1 2 3 4 5 6 \r\n",
        b"+CESQ: 1,2,3,4,5,6,\r\n",
        b"+CESQ: 1,2,3,4,5,6,,\r\n",
        b"+CESQ: 1,2,3,4,5,6\r",
        b"+CESQ: 1,2,3,4,5,6",
        b"+CESQ: 1,2,3,4,5\r\n",
        b"+CESQ: 1,,3,4,5,6\r\n",
        b"+CESQ: 1,+,3,4,5,6\r\n",
        b"+CESQ: 1,-,3,4,5,6\r\n",
        b"+CESQ: 1,--2,3,4,5,6\r\n",
        b"+CESQ: 1,2-,3,4,5,6\r\n",
        b"+CESQ: 1,++2,3,4,5,6\r\n",
        b"+CESQ: 1,2,3,4,5,x\r\n",
        b"+CESQ: 00000000001,-0000000002,+00000000003,4,5,6\r\n",
        b"+CESQ: 000000000001,2,3,4,5,6\r\n",
        b"+CESQ: 2147483647,-2147483648,3,4,5,6\r\n",
        b"+CESQ",
        b"",
        b"+CESQ:\r\n",
        b"+CESQ: 1\t2,3,4,5,6\r\n",
    ];
    for line in lines {
        assert_eq!(
            parse_cesq(line),
            through_the_combinators(line),
            "{:?}",
            String::from_utf8_lossy(line)
        );
    }
}
