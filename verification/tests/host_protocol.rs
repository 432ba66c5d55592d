use monitor_fw::bus::{BusOp, BusReg};
use monitor_fw::cmd::{BuildInfo, ECHO_CAPACITY, Echo, Error, LedCurrents, cb_erase_build, cb_erase_hard, cb_erase_info, cb_erase_test, cb_read_build_authors, cb_read_build_compiler, cb_read_build_git, cb_read_build_host, cb_read_build_profile, cb_read_build_target, cb_read_build_time, cb_read_build_version, cb_read_hard_inf, cb_read_hard_red, cb_read_info_version, cb_read_test_echo, cb_read_test_test1, cb_read_test_test2, cb_read_test_test3, cb_read_test_test4, cb_read_test_test5, cb_write_build_authors, cb_write_build_compiler, cb_write_build_git, cb_write_build_host, cb_write_build_profile, cb_write_build_target, cb_write_build_time, cb_write_build_version, cb_write_hard_inf, cb_write_hard_red, cb_write_info_version, cb_write_test_echo, cb_write_test_test1, cb_write_test_test2, cb_write_test_test3, cb_write_test_test4, cb_write_test_test5};

fn info() -> BuildInfo {
    BuildInfo {
        pkg_version: "1.2.3",
        rustc_version: "rustc 1.40",
        git_version: None,
        built_time_utc: "today",
        target: "thumbv7m-none-eabi",
        host: "x86_64",
        profile: "release",
        pkg_authors: "someone",
    }
}

#[test]
fn erase_handlers_succeed() {
    assert_eq!(cb_erase_hard(), Ok(()));
    assert_eq!(cb_erase_info(), Ok(()));
    assert_eq!(cb_erase_build(), Ok(()));
    assert_eq!(cb_erase_test(), Ok(()));
}

#[test]
fn read_only_registers_refuse_writes() {
    assert_eq!(cb_write_info_version("x"), Err(Error::NonWriteable));
    assert_eq!(cb_write_build_version("x"), Err(Error::NonWriteable));
    assert_eq!(cb_write_build_compiler("x"), Err(Error::NonWriteable));
    assert_eq!(cb_write_build_git("x"), Err(Error::NonWriteable));
    assert_eq!(cb_write_build_time("x"), Err(Error::NonWriteable));
    assert_eq!(cb_write_build_target("x"), Err(Error::NonWriteable));
    assert_eq!(cb_write_build_host("x"), Err(Error::NonWriteable));
    assert_eq!(cb_write_build_profile("x"), Err(Error::NonWriteable));
    assert_eq!(cb_write_build_authors("x"), Err(Error::NonWriteable));
    assert_eq!(cb_write_test_test1(b"x"), Err(Error::NonWriteable));
    assert_eq!(cb_write_test_test2(b"x"), Err(Error::NonWriteable));
    assert_eq!(cb_write_test_test3(b"x"), Err(Error::NonWriteable));
    assert_eq!(cb_write_test_test4(b"x"), Err(Error::NonWriteable));
    assert_eq!(cb_write_test_test5(b"x"), Err(Error::NonWriteable));
}

#[test]
fn build_description_is_read_back() {
    let mut i = info();
    assert_eq!(cb_read_info_version(&i), Ok("1.2.3"));
    assert_eq!(cb_read_build_version(&i), Ok("1.2.3"));
    assert_eq!(cb_read_build_compiler(&i), Ok("rustc 1.40"));
    assert_eq!(cb_read_build_git(&i), Ok("None"));
    i.git_version = Some("abc123");
    assert_eq!(cb_read_build_git(&i), Ok("abc123"));
    assert_eq!(cb_read_build_time(&i), Ok("today"));
    assert_eq!(cb_read_build_target(&i), Ok("thumbv7m-none-eabi"));
    assert_eq!(cb_read_build_host(&i), Ok("x86_64"));
    assert_eq!(cb_read_build_profile(&i), Ok("release"));
    assert_eq!(cb_read_build_authors(&i), Ok("someone"));
}

#[test]
fn test_strings() {
    assert_eq!(cb_read_test_test1(), Ok(&b"\"Oh, you can't help that,\" said the Cat:"[..]));
    assert_eq!(cb_read_test_test2(), Ok(&b"\"we're all mad here. I'm mad. You're mad.\""[..]));
    assert_eq!(cb_read_test_test3(), Ok(&b"\"How do you know I'm mad?\" said Alice."[..]));
    assert_eq!(cb_read_test_test4(), Ok(&b"\"You must be,\" said the Cat,"[..]));
    assert_eq!(cb_read_test_test5(), Ok(&b"or you wouldn't have come here.\""[..]));
}

#[test]
fn echo_gives_back_the_last_message() {
    let mut e = Echo::new();
    assert_eq!(cb_read_test_echo(&e), Ok(&[][..]));
    assert_eq!(cb_write_test_echo(&mut e, b"hello"), Ok(()));
    assert_eq!(cb_read_test_echo(&e), Ok(&b"hello"[..]));
    let full = [0x42u8; ECHO_CAPACITY];
    assert_eq!(cb_write_test_echo(&mut e, &full), Ok(()));
    assert_eq!(cb_read_test_echo(&e), Ok(&full[..]));
}

#[test]
fn led_currents_are_sent_together() {
    let mut cur = LedCurrents::new();
    assert_eq!(cb_read_hard_red(&cur), Ok(0x20));
    assert_eq!(cb_read_hard_inf(&cur), Ok(0x20));
    let mut ops = Vec::new();
    assert_eq!(cb_write_hard_red(&mut cur, &mut ops, 0x7F), Ok(()));
    assert_eq!(
        ops,
        vec![
            BusOp::Write { reg: BusReg::AfeCmdLow, value: 0x7F20 },
            BusOp::Write { reg: BusReg::AfeCmdHigh, value: 0x2202 },
        ]
    );
    let mut ops = Vec::new();
    assert_eq!(cb_write_hard_inf(&mut cur, &mut ops, 0x05), Ok(()));
    assert_eq!(ops[0], BusOp::Write { reg: BusReg::AfeCmdLow, value: 0x7F05 });
    assert_eq!(cb_read_hard_red(&cur), Ok(0x7F));
    assert_eq!(cb_read_hard_inf(&cur), Ok(0x05));
}

#[test]
fn infrared_writes_keep_red_current() {
    let mut cur = LedCurrents::new();
    let mut ops = Vec::new();
    assert_eq!(cb_write_hard_red(&mut cur, &mut ops, 0x44), Ok(()));
    for w in [0x01u8, 0x02, 0xFF, 0x00, 0x33] {
        assert_eq!(cb_write_hard_inf(&mut cur, &mut ops, w), Ok(()));
        assert_eq!(cb_read_hard_red(&cur), Ok(0x44));
        assert_eq!(cb_read_hard_inf(&cur), Ok(w));
    }
    assert_eq!(cb_write_hard_red(&mut cur, &mut ops, 0x10), Ok(()));
    assert_eq!(cb_read_hard_inf(&cur), Ok(0x33));
    assert_eq!(cb_read_hard_red(&cur), Ok(0x10));
}
