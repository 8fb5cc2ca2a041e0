use hyperv::error::{ErrorKind, HypervError};
use hyperv::hyperv::Hyperv;
use hyperv::incompatibility::VmIncompatibility;
use hyperv::process::{check_output, to_string_truncated, ProcessOutput};
use hyperv::text::{parse_i64, trim};
use hyperv::vm::Vm;

fn lines(text: &str) -> Vec<String> {
    text.lines().map(|l| l.to_string()).collect()
}

#[test]
fn known_codes_round_trip() {
    let codes = [13000i64, 14420, 16350, 16352, 25014, 33012];
    for code in codes {
        let r = VmIncompatibility::from(code, "some text".to_string());
        assert_eq!(r.message_id(), code);
        assert_eq!(r.message(), "some text");
        assert!(!matches!(r, VmIncompatibility::Other(_, _)));
    }
    assert!(matches!(
        VmIncompatibility::from(14420, "x".to_string()),
        VmIncompatibility::TooManyCores(_)
    ));
    assert!(matches!(
        VmIncompatibility::from(33012, "x".to_string()),
        VmIncompatibility::MissingSwitch(_)
    ));
}

#[test]
fn unknown_code_is_other() {
    let r = VmIncompatibility::from(42, "odd".to_string());
    match &r {
        VmIncompatibility::Other(m, c) => {
            assert_eq!(m, "odd");
            assert_eq!(*c, 42);
        }
        _ => panic!("expected Other"),
    }
    assert_eq!(r.message_id(), 42);
    assert_eq!(r.message(), "odd");
    assert_eq!(VmIncompatibility::from(-7, String::new()).message_id(), -7);
}

#[test]
fn report_skips_blank_lines_and_keeps_order() {
    let v = Hyperv::map_lines(&lines("13000 Msg A\n\n16350 Msg B\n")).unwrap();
    assert_eq!(v.len(), 2);
    match &v[0] {
        VmIncompatibility::CannotCreateExternalConfigStore(m) => assert_eq!(m, "Msg A"),
        _ => panic!("wrong first reason"),
    }
    match &v[1] {
        VmIncompatibility::CannotChangeCheckpointLocation(m) => assert_eq!(m, "Msg B"),
        _ => panic!("wrong second reason"),
    }
}

#[test]
fn report_line_without_space_fails() {
    let e = Hyperv::map_lines(&lines("13000")).unwrap_err();
    assert_eq!(e.kind, ErrorKind::LineParseFailed);
}

#[test]
fn report_line_with_non_numeric_code_fails() {
    let e = Hyperv::map_lines(&lines("abc Msg")).unwrap_err();
    assert_eq!(e.kind, ErrorKind::LineParseFailed);
}

#[test]
fn report_failure_discards_earlier_reasons() {
    let e = Hyperv::map_lines(&lines("13000 ok\nbad\n14420 later")).unwrap_err();
    assert_eq!(e.kind, ErrorKind::LineParseFailed);
}

#[test]
fn empty_report_is_empty() {
    assert!(Hyperv::map_lines(&Vec::new()).unwrap().is_empty());
    assert!(Hyperv::map_lines(&lines("  \n\t\n")).unwrap().is_empty());
}

#[test]
fn report_line_is_trimmed_and_split_once() {
    let r = Hyperv::parse_line("  25014 Cannot restore  the state \r").unwrap().unwrap();
    assert_eq!(r.message_id(), 25014);
    assert_eq!(r.message(), "Cannot restore  the state");
    let r = Hyperv::parse_line("+99 x").unwrap().unwrap();
    assert_eq!(r.message_id(), 99);
    assert!(Hyperv::parse_line("   ").unwrap().is_none());
}

#[test]
fn signed_decimals() {
    assert_eq!(parse_i64("9223372036854775807", 19), Some(i64::MAX));
    assert_eq!(parse_i64("-9223372036854775808", 20), Some(i64::MIN));
    assert_eq!(parse_i64("9223372036854775808", 19), None);
    assert_eq!(parse_i64("-9223372036854775809", 20), None);
    assert_eq!(parse_i64("-12 rest", 3), Some(-12));
    assert_eq!(parse_i64("+7", 2), Some(7));
    assert_eq!(parse_i64("-", 1), None);
    assert_eq!(parse_i64("", 0), None);
    assert_eq!(parse_i64("1a", 2), None);
}

#[test]
fn trim_removes_unicode_space() {
    assert_eq!(trim("\u{3000} a b\u{a0}\n"), "a b");
    assert_eq!(trim(" \t "), "");
    assert_eq!(trim("x"), "x");
}

#[test]
fn successful_exit_keeps_output_whole() {
    let stdout: Vec<u8> = vec![b'o'; 5000];
    let stderr: Vec<u8> = vec![0xff, 0x00, b'e'];
    let out = ProcessOutput { code: Some(0), success: true, stdout: stdout.clone(), stderr: stderr.clone() };
    let r = check_output(out).unwrap();
    assert_eq!(r.stdout, stdout);
    assert_eq!(r.stderr, stderr);
    assert_eq!(r.code, Some(0));
}

#[test]
fn failed_exit_keeps_first_thousand_bytes() {
    let mut stdout: Vec<u8> = vec![b'a'; 1000];
    stdout.extend(vec![b'b'; 500]);
    let out = ProcessOutput { code: Some(3), success: false, stdout, stderr: Vec::new() };
    let e = check_output(out).unwrap_err();
    assert_eq!(e.kind, ErrorKind::NonZeroExit);
    let expected = format!(
        "Powershell returned failure exit code: 3.\nStdout: {} \nStderr: <empty>",
        "a".repeat(1000)
    );
    assert_eq!(e.msg, expected);
    assert_eq!(e.message(), expected);
}

#[test]
fn failed_exit_without_code() {
    let out = ProcessOutput { code: None, success: false, stdout: b"out".to_vec(), stderr: b"err".to_vec() };
    let e = check_output(out).unwrap_err();
    assert_eq!(e.msg, "Powershell returned failure exit code: <none>.\nStdout: out \nStderr: err");
    let out = ProcessOutput { code: Some(-2), success: false, stdout: Vec::new(), stderr: Vec::new() };
    let e = check_output(out).unwrap_err();
    assert_eq!(e.msg, "Powershell returned failure exit code: -2.\nStdout: <empty> \nStderr: <empty>");
}

#[test]
fn truncation_decodes_lossily() {
    assert_eq!(to_string_truncated(&[b'h', 0xff, b'i'], 10), "h\u{fffd}i");
    assert_eq!(to_string_truncated(b"hello", 2), "he");
    assert_eq!(to_string_truncated(b"", 2), "");
}

#[test]
fn import_of_missing_file_is_refused() {
    let e = Hyperv::import_vm(false, Some("C:\\vms\\missing.vmcx")).unwrap_err();
    assert_eq!(e.kind, ErrorKind::InvalidPath);
    let e = Hyperv::import_vm(true, None).unwrap_err();
    assert_eq!(e.kind, ErrorKind::InvalidPath);
    let e = Hyperv::compare_vm(false, Some("x")).unwrap_err();
    assert_eq!(e.kind, ErrorKind::InvalidPath);
}

#[test]
fn commands_quote_the_path() {
    assert_eq!(Hyperv::import_vm(true, Some("C:\\a b.vmcx")).unwrap(), "import-vm -Path \"C:\\a b.vmcx\"");
    let c = Hyperv::compare_vm(true, Some("C:\\a.vmcx")).unwrap();
    assert!(c.starts_with("$report = compare-vm -Path \"C:\\a.vmcx\";"));
    assert!(c.ends_with("-HideTableHeaders"));
    assert_eq!(Hyperv::list_command(), "get-vm|select-object -property Id,Name |convertto-json");
}

#[test]
fn finished_import_follows_exit_status() {
    let ok = ProcessOutput { code: Some(0), success: true, stdout: Vec::new(), stderr: Vec::new() };
    assert!(Hyperv::finish_import(ok).is_ok());
    let bad = ProcessOutput { code: Some(1), success: false, stdout: Vec::new(), stderr: b"no".to_vec() };
    assert_eq!(Hyperv::finish_import(bad).unwrap_err().kind, ErrorKind::NonZeroExit);
}

#[test]
fn listed_records_become_machines() {
    let id = "550e8400-e29b-41d4-a716-446655440000";
    let records = vec![(id.to_string(), "vm1".to_string())];
    let vms = Hyperv::vms_from_records(&records).unwrap();
    assert_eq!(vms.len(), 1);
    assert_eq!(vms[0].id, 0x550e8400e29b41d4a716446655440000u128);
    assert_eq!(vms[0].id, uuid::Uuid::parse_str(id).unwrap().as_u128());
    assert_eq!(vms[0].name, "vm1");
    assert!(Hyperv::vms_from_records(&Vec::new()).unwrap().is_empty());
}

#[test]
fn malformed_identifier_fails_the_list() {
    let records = vec![
        ("550e8400-e29b-41d4-a716-446655440000".to_string(), "vm1".to_string()),
        ("not-a-uuid".to_string(), "vm2".to_string()),
    ];
    assert_eq!(Hyperv::vms_from_records(&records).unwrap_err().kind, ErrorKind::DecodeFailed);
    assert_eq!(Vm::from_parsed(None, "x".to_string()).unwrap_err().kind, ErrorKind::DecodeFailed);
    assert_eq!(Vm::from_parsed(Some(5), "x".to_string()).unwrap().id, 5);
}

#[test]
fn error_carries_kind_and_text() {
    let e = HypervError::new(ErrorKind::SpawnFailed, "could not start");
    assert_eq!(e.kind, ErrorKind::SpawnFailed);
    assert_eq!(e.message(), "could not start");
}
