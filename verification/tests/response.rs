use python_wasi_reactor::response::{plan_host_output, report_apply_outcome, ret_value};

#[test]
fn ret_value_of_success() {
    let r = ret_value(Ok("done".to_string()));
    assert_eq!(r.value, "done");
    assert!(!r.error);
}

#[test]
fn ret_value_of_error() {
    let r = ret_value(Err("boom".to_string()));
    assert_eq!(r.value, "boom");
    assert!(r.error);
}

#[test]
fn negative_id_does_not_notify() {
    let plan = plan_host_output(-1, Ok("hello identity from guest".to_string()));
    assert!(plan.notice.is_none());
    assert_eq!(plan.ret.value, "hello identity from guest");
    assert!(!plan.ret.error);
}

#[test]
fn zero_id_does_not_notify() {
    let plan = plan_host_output(0, Err("e".to_string()));
    assert!(plan.notice.is_none());
    assert!(plan.ret.error);
}

#[test]
fn positive_id_notifies_with_same_outcome() {
    let plan = plan_host_output(1, Ok("Hello Jake".to_string()));
    let n = plan.notice.expect("notice");
    assert!(n.ok);
    assert_eq!(n.payload, "Hello Jake");
    assert_eq!(plan.ret.value, "Hello Jake");
    assert!(!plan.ret.error);
}

#[test]
fn positive_id_notifies_error() {
    let plan = plan_host_output(7, Err("no such lambda".to_string()));
    let n = plan.notice.expect("notice");
    assert!(!n.ok);
    assert_eq!(n.payload, "no such lambda");
    assert!(plan.ret.error);
}

#[test]
fn apply_report_success_is_zero() {
    let r = report_apply_outcome(Ok("42".to_string()));
    assert_eq!(r.status, 0);
    assert!(r.notice.ok);
    assert_eq!(r.notice.payload, "42");
}

#[test]
fn apply_report_error_is_one() {
    let r = report_apply_outcome(Err("Traceback".to_string()));
    assert_eq!(r.status, 1);
    assert!(!r.notice.ok);
    assert_eq!(r.notice.payload, "Traceback");
}
