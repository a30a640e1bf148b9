//! Host-side bookkeeping of the reactor: the shared VM's life cycle, the
//! directories preopened for the guest, and how a call's outcome is reported.
use crate::text::{all_digits, decimal, digits_value, lemma_decimal_denotes, push_decimal};
use vstd::prelude::*;

verus! {

/// Outcome of running an exported function of the reactor.
pub enum WasiReactorOut {
    Success { res: String },
    Failure { message: String },
}

/// What to do with the shared VM before a call.
#[derive(PartialEq, Eq, Structural, Clone, Copy, Debug)]
pub enum GlobalVmStep {
    /// Use the VM that is already loaded.
    Reuse,
    /// No VM was loaded yet: build one and store it in the empty slot.
    InitializeFirst,
    /// A reset was asked for: build a new VM and replace the loaded one.
    Reinitialize,
}

/// Turns the outcome of a call into the reactor's answer.
pub fn reactor_out(run: Result<String, String>) -> (out: WasiReactorOut)
    ensures
        run matches Ok(res) ==> out matches WasiReactorOut::Success { res: r } && r@ == res@,
        run matches Err(e) ==> out matches WasiReactorOut::Failure { message: m } && m@ == e@,
{
    match run {
        Ok(res) => WasiReactorOut::Success { res },
        Err(message) => WasiReactorOut::Failure { message },
    }
}

/// Decides what happens to the shared VM: a new one is built exactly when
/// none is loaded or a reset is asked for, and it replaces a loaded one
/// rather than filling the slot a second time.
pub fn global_vm_step(loaded: bool, reset_vm: bool) -> (step: GlobalVmStep)
    ensures
        step == GlobalVmStep::Reuse <==> (loaded && !reset_vm),
        step == GlobalVmStep::InitializeFirst <==> !loaded,
        step == GlobalVmStep::Reinitialize <==> (loaded && reset_vm),
{
    if !loaded {
        GlobalVmStep::InitializeFirst
    } else if reset_vm {
        GlobalVmStep::Reinitialize
    } else {
        GlobalVmStep::Reuse
    }
}

/// The preopen entry that maps the Python library directory read-only to
/// `/usr/local/lib` in the guest.
pub open spec fn pythonlib_preopen(pythonlib_path: Seq<char>) -> Seq<char> {
    "/usr/local/lib:"@ + pythonlib_path + ":readonly"@
}

/// The directories preopened for the guest: the Python library first, then
/// the caller's own entries in their order.
pub fn reactor_preopens(pythonlib_path: &str, extra: Vec<String>) -> (preopens: Vec<String>)
    ensures
        preopens@.len() == extra@.len() + 1,
        preopens@[0]@ == pythonlib_preopen(pythonlib_path@),
        preopens@[0]@ == "/usr/local/lib:"@ + pythonlib_path@ + ":readonly"@,
        forall|i: int| 0 <= i < extra@.len() ==> #[trigger] preopens@[i + 1] == extra@[i],
{
    proof {
        lemma_pythonlib_preopen_layout(pythonlib_path@);
    }
    let mut first = String::from_str("/usr/local/lib:");
    first.append(pythonlib_path);
    first.append(":readonly");
    let mut preopens: Vec<String> = Vec::new();
    preopens.push(first);
    let mut extra = extra;
    let ghost extra0 = extra@;
    preopens.append(&mut extra);
    assert forall|i: int| 0 <= i < extra0.len() implies #[trigger] preopens@[i + 1] == extra0[i] by {}
    preopens
}

/// The message with which a failed WASI initialisation is reported.
pub open spec fn wasi_exit_message(exit_code: u32) -> Seq<char> {
    "wasi_module.initialize failed and returned exit code: "@ + decimal(exit_code as nat)
}

/// Checks the exit code left by initialising the WASI module: `0` passes,
/// any other code is an error that names it.
pub fn check_wasi_exit(exit_code: u32) -> (r: Result<(), String>)
    ensures
        r is Ok <==> exit_code == 0,
        r matches Err(m) ==> m@ == wasi_exit_message(exit_code),
        r matches Err(m) ==> m@.subrange(0, 54)
            == "wasi_module.initialize failed and returned exit code: "@,
        r matches Err(m) ==> all_digits(m@.subrange(54, m@.len() as int)),
        r matches Err(m) ==> digits_value(m@.subrange(54, m@.len() as int)) == exit_code,
{
    proof {
        lemma_wasi_exit_message_layout(exit_code);
    }
    if exit_code != 0 {
        let mut message = String::from_str("wasi_module.initialize failed and returned exit code: ");
        push_decimal(&mut message, exit_code as u64);
        Err(message)
    } else {
        Ok(())
    }
}

/// The message with which the host callback rejects a call that does not
/// pass exactly two arguments.
pub open spec fn callback_arity_message(n: usize) -> Seq<char> {
    decimal(n as nat) + " != 2 (required)"@
}

/// Checks the arguments of the host callback: it takes a request id and the
/// address of a result, so exactly two arguments pass; any other count is an
/// error that names it.
pub fn check_callback_args(n: usize) -> (r: Result<(), String>)
    ensures
        r is Ok <==> n == 2,
        r matches Err(m) ==> m@ == callback_arity_message(n),
        r matches Err(m) ==> m@.len() >= 17 && all_digits(m@.subrange(0, m@.len() - 16))
            && digits_value(m@.subrange(0, m@.len() - 16)) == n && m@.subrange(
            m@.len() - 16,
            m@.len() as int,
        ) == " != 2 (required)"@,
{
    proof {
        lemma_callback_arity_message_layout(n);
    }
    if n != 2 {
        let mut message = String::new();
        push_decimal(&mut message, n as u64);
        message.append(" != 2 (required)");
        Err(message)
    } else {
        Ok(())
    }
}

/// The library's preopen entry is the guest directory `/usr/local/lib`, a
/// colon, the host path unchanged, a colon, and the `readonly` flag, for
/// every host path: absolute, relative or empty.
pub proof fn lemma_pythonlib_preopen_layout(pythonlib_path: Seq<char>)
    ensures
        pythonlib_preopen(pythonlib_path).len() == pythonlib_path.len() + 24,
        pythonlib_preopen(pythonlib_path).subrange(0, 14) == "/usr/local/lib"@,
        pythonlib_preopen(pythonlib_path)[14] == ':',
        pythonlib_preopen(pythonlib_path).subrange(15, 15 + pythonlib_path.len() as int) == pythonlib_path,
        pythonlib_preopen(pythonlib_path)[15 + pythonlib_path.len() as int] == ':',
        pythonlib_preopen(pythonlib_path).subrange(
            16 + pythonlib_path.len() as int,
            24 + pythonlib_path.len() as int,
        ) == "readonly"@,
{
    reveal_strlit("/usr/local/lib:");
    reveal_strlit("/usr/local/lib");
    reveal_strlit(":readonly");
    reveal_strlit("readonly");
    let e = pythonlib_preopen(pythonlib_path);
    let n: int = pythonlib_path.len() as int;
    assert(e.subrange(0, 14) =~= "/usr/local/lib"@);
    assert(e.subrange(15, 15 + n) =~= pythonlib_path);
    assert(e.subrange(16 + n, 24 + n) =~= "readonly"@);
}

/// A failed initialisation is reported as the fixed text followed by the
/// exit code in decimal.
pub proof fn lemma_wasi_exit_message_layout(exit_code: u32)
    ensures
        wasi_exit_message(exit_code).subrange(0, 54)
            == "wasi_module.initialize failed and returned exit code: "@,
        all_digits(wasi_exit_message(exit_code).subrange(54, wasi_exit_message(exit_code).len() as int)),
        digits_value(wasi_exit_message(exit_code).subrange(54, wasi_exit_message(exit_code).len() as int))
            == exit_code,
{
    reveal_strlit("wasi_module.initialize failed and returned exit code: ");
    lemma_decimal_denotes(exit_code as nat);
    let m = wasi_exit_message(exit_code);
    assert(m.subrange(0, 54) =~= "wasi_module.initialize failed and returned exit code: "@);
    assert(m.subrange(54, m.len() as int) =~= decimal(exit_code as nat));
}

/// A rejected callback call is reported as the argument count in decimal
/// followed by the fixed text ` != 2 (required)`.
pub proof fn lemma_callback_arity_message_layout(n: usize)
    ensures
        ({
            let m = callback_arity_message(n);
            &&& m.len() >= 17
            &&& all_digits(m.subrange(0, m.len() - 16))
            &&& digits_value(m.subrange(0, m.len() - 16)) == n
            &&& m.subrange(m.len() - 16, m.len() as int) == " != 2 (required)"@
        }),
{
    reveal_strlit(" != 2 (required)");
    lemma_decimal_denotes(n as nat);
    let m = callback_arity_message(n);
    assert(m.subrange(0, m.len() - 16) =~= decimal(n as nat));
    assert(m.subrange(m.len() - 16, m.len() as int) =~= " != 2 (required)"@);
}

} // verus!
