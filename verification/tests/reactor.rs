use python_wasi_reactor::reactor::{
    check_wasi_exit, global_vm_step, reactor_out, reactor_preopens, GlobalVmStep, WasiReactorOut,
};

#[test]
fn out_of_success() {
    match reactor_out(Ok("res".to_string())) {
        WasiReactorOut::Success { res } => assert_eq!(res, "res"),
        WasiReactorOut::Failure { .. } => panic!("expected success"),
    }
}

#[test]
fn out_of_failure() {
    match reactor_out(Err("bad".to_string())) {
        WasiReactorOut::Failure { message } => assert_eq!(message, "bad"),
        WasiReactorOut::Success { .. } => panic!("expected failure"),
    }
}

#[test]
fn vm_steps() {
    assert_eq!(global_vm_step(false, false), GlobalVmStep::InitializeFirst);
    assert_eq!(global_vm_step(false, true), GlobalVmStep::InitializeFirst);
    assert_eq!(global_vm_step(true, true), GlobalVmStep::Reinitialize);
    assert_eq!(global_vm_step(true, false), GlobalVmStep::Reuse);
}

#[test]
fn preopens_put_the_python_library_first() {
    let p = reactor_preopens(
        "./vendor/libpython/usr/local/lib",
        vec!["/app:./src/python:readonly".to_string()],
    );
    assert_eq!(
        p,
        vec![
            "/usr/local/lib:./vendor/libpython/usr/local/lib:readonly".to_string(),
            "/app:./src/python:readonly".to_string(),
        ]
    );
}

#[test]
fn preopens_without_extra_entries() {
    assert_eq!(reactor_preopens("", vec![]), vec!["/usr/local/lib::readonly".to_string()]);
}

#[test]
fn exit_code_zero_passes() {
    assert_eq!(check_wasi_exit(0), Ok(()));
}

#[test]
fn exit_code_is_named_in_decimal() {
    assert_eq!(
        check_wasi_exit(127),
        Err("wasi_module.initialize failed and returned exit code: 127".to_string())
    );
    assert_eq!(
        check_wasi_exit(1),
        Err("wasi_module.initialize failed and returned exit code: 1".to_string())
    );
    assert_eq!(
        check_wasi_exit(10),
        Err("wasi_module.initialize failed and returned exit code: 10".to_string())
    );
    assert_eq!(
        check_wasi_exit(u32::MAX),
        Err("wasi_module.initialize failed and returned exit code: 4294967295".to_string())
    );
}

#[test]
fn callback_takes_two_arguments() {
    assert_eq!(
        python_wasi_reactor::reactor::check_callback_args(2),
        Ok(())
    );
    assert_eq!(
        python_wasi_reactor::reactor::check_callback_args(0),
        Err("0 != 2 (required)".to_string())
    );
    assert_eq!(
        python_wasi_reactor::reactor::check_callback_args(13),
        Err("13 != 2 (required)".to_string())
    );
}
