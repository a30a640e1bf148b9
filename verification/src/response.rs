//! What the guest answers for a finished call, and whether and how it tells
//! the host about it through the host callback.
use vstd::prelude::*;

verus! {

/// The value that an exported call returns to its caller: the result text,
/// and whether it is an error message.
pub struct RetValue {
    pub value: String,
    pub error: bool,
}

/// A result to publish to the host (through `host_result`) before the
/// callback is invoked.
pub struct HostNotice {
    pub ok: bool,
    pub payload: String,
}

/// What answering a call with a given request id amounts to: a notice for
/// the host callback, if the host is to be told, and the returned value.
pub struct HostOutputPlan {
    pub notice: Option<HostNotice>,
    pub ret: RetValue,
}

/// What answering an `apply` call amounts to: the notice handed to the host
/// callback and the status code returned to the caller.
pub struct ApplyReport {
    pub notice: HostNotice,
    pub status: u8,
}

/// The text carried by an outcome, success or error alike.
pub open spec fn outcome_text(out: Result<String, String>) -> Seq<char> {
    match out {
        Ok(s) => s@,
        Err(e) => e@,
    }
}

/// Status code of an outcome: `0` for success, `1` for an error.
pub open spec fn outcome_status(out: Result<String, String>) -> u8 {
    if out is Ok {
        0
    } else {
        1
    }
}

/// The callback only runs for positive request ids; `-1` marks a call that
/// nobody waits on.
pub open spec fn notifies_host(id: i32) -> bool {
    id > 0
}

/// Turns an outcome into the value returned to the caller.
pub fn ret_value(out: Result<String, String>) -> (ret: RetValue)
    ensures
        ret.value@ == outcome_text(out),
        ret.error == (out is Err),
        out matches Ok(s) ==> ret.value@ == s@,
        out matches Err(e) ==> ret.value@ == e@,
{
    match out {
        Ok(res) => RetValue { value: res, error: false },
        Err(e) => RetValue { value: e, error: true },
    }
}

/// Turns an outcome into the notice for the host callback.
pub fn host_notice(out: Result<String, String>) -> (notice: HostNotice)
    ensures
        notice.payload@ == outcome_text(out),
        notice.ok == (out is Ok),
        out matches Ok(s) ==> notice.payload@ == s@,
        out matches Err(e) ==> notice.payload@ == e@,
{
    match out {
        Ok(res) => HostNotice { ok: true, payload: res },
        Err(e) => HostNotice { ok: false, payload: e },
    }
}

/// Decides how the call with request id `id` is answered: the caller always
/// gets the outcome as a `RetValue`; the host is told the same outcome
/// through its callback exactly when `id` is positive.
pub fn plan_host_output(id: i32, out: Result<String, String>) -> (plan: HostOutputPlan)
    ensures
        plan.ret.value@ == outcome_text(out),
        plan.ret.error == (out is Err),
        plan.notice is Some <==> notifies_host(id),
        plan.notice is Some <==> id > 0,
        plan.notice matches Some(n) ==> n.ok == (out is Ok) && n.payload@ == outcome_text(out),
        plan.notice matches Some(n) ==> n.ok == !plan.ret.error && n.payload@ == plan.ret.value@,
{
    proof {
        lemma_notifies_exactly_positive_ids(id);
        lemma_outcome_text(out);
    }
    let notice = if id > 0 {
        let copy = match &out {
            Ok(res) => Ok(res.clone()),
            Err(e) => Err(e.clone()),
        };
        Some(host_notice(copy))
    } else {
        None
    };
    HostOutputPlan { notice, ret: ret_value(out) }
}

/// Decides how an `apply` call is answered: the host callback always gets the
/// outcome, and the caller gets `0` on success and `1` on error.
pub fn report_apply_outcome(run: Result<String, String>) -> (report: ApplyReport)
    ensures
        report.status == outcome_status(run),
        report.status == 0 <==> run is Ok,
        report.status == 1 <==> run is Err,
        report.status == 0 <==> report.notice.ok,
        report.notice.ok == (run is Ok),
        report.notice.payload@ == outcome_text(run),
{
    proof {
        lemma_outcome_status(run);
    }
    let status: u8 = if run.is_ok() { 0 } else { 1 };
    ApplyReport { notice: host_notice(run), status }
}

/// The host is told about a call exactly when its request id is positive:
/// every positive id is notified, and neither zero nor a negative id is.
pub proof fn lemma_notifies_exactly_positive_ids(id: i32)
    ensures
        notifies_host(id) <==> id > 0,
        notifies_host(1i32),
        notifies_host(i32::MAX),
        !notifies_host(0i32),
        !notifies_host(-1i32),
{
}

/// The status code is `0` for every success and `1` for every error, and
/// nothing else.
pub proof fn lemma_outcome_status(out: Result<String, String>)
    ensures
        outcome_status(out) == 0 <==> out is Ok,
        outcome_status(out) == 1 <==> out is Err,
        outcome_status(out) <= 1,
{
}

/// The text of an outcome is the success value or the error message, whole
/// and unchanged.
pub proof fn lemma_outcome_text(out: Result<String, String>)
    ensures
        out matches Ok(s) ==> outcome_text(out) == s@,
        out matches Err(e) ==> outcome_text(out) == e@,
{
}

} // verus!
