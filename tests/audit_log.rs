use audit_log::AuditLog;

fn s(text: &str) -> String {
    text.to_string()
}

#[test]
fn fresh_log_counts_zero() {
    let log = AuditLog::new();
    assert_eq!(log.get_total_audits(), 0);
}

#[test]
fn count_equals_number_of_calls() {
    for n in 0..25u64 {
        let mut log = AuditLog::new();
        for i in 0..n {
            log.log_transaction(format!("tx{}", i), format!("{}", i));
        }
        assert_eq!(log.get_total_audits(), n);
    }
}

#[test]
fn first_entry_has_exact_format() {
    let mut log = AuditLog::new();
    assert_eq!(
        log.log_transaction(s("abc123"), s("42.5")),
        "Audit #1 Recorded: abc123 - Amount: 42.5"
    );
}

#[test]
fn entries_are_numbered_in_order() {
    let mut log = AuditLog::new();
    assert_eq!(log.log_transaction(s("a"), s("1")), "Audit #1 Recorded: a - Amount: 1");
    assert_eq!(log.log_transaction(s("b"), s("2")), "Audit #2 Recorded: b - Amount: 2");
    assert_eq!(log.get_total_audits(), 2);
}

#[test]
fn empty_strings_are_accepted() {
    let mut log = AuditLog::new();
    assert_eq!(log.log_transaction(s(""), s("")), "Audit #1 Recorded:  - Amount: ");
    assert_eq!(log.get_total_audits(), 1);
}

#[test]
fn instances_count_independently() {
    let mut a = AuditLog::new();
    let mut b = AuditLog::new();
    a.log_transaction(s("x"), s("1"));
    a.log_transaction(s("y"), s("2"));
    assert_eq!(a.get_total_audits(), 2);
    assert_eq!(b.get_total_audits(), 0);
    assert_eq!(b.log_transaction(s("z"), s("3")), "Audit #1 Recorded: z - Amount: 3");
    assert_eq!(a.get_total_audits(), 2);
    assert_eq!(b.get_total_audits(), 1);
    assert_eq!(a.log_transaction(s("w"), s("4")), "Audit #3 Recorded: w - Amount: 4");
}

#[test]
fn multi_digit_numbers_are_written_in_decimal() {
    let mut log = AuditLog::new();
    let mut last = String::new();
    for _ in 0..100 {
        last = log.log_transaction(s("h"), s("9"));
    }
    assert_eq!(last, "Audit #100 Recorded: h - Amount: 9");
    assert_eq!(log.log_transaction(s("h"), s("9")), "Audit #101 Recorded: h - Amount: 9");
    for _ in 101..1010 {
        last = log.log_transaction(s("h"), s("9"));
    }
    assert_eq!(last, "Audit #1010 Recorded: h - Amount: 9");
}

#[test]
fn inputs_are_echoed_verbatim() {
    let mut log = AuditLog::new();
    assert_eq!(
        log.log_transaction(s("0xDEAD beef - Amount: "), s("-1e9 ünï")),
        "Audit #1 Recorded: 0xDEAD beef - Amount:  - Amount: -1e9 ünï"
    );
}
