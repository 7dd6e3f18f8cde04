//! Reading the answer of the compatibility query.
use vstd::prelude::*;

verus! {

/// The platform's "request is not supported" error code, reported by a host
/// that has no 32-on-64 compatibility layer.
pub const ERROR_NOT_SUPPORTED: u32 = 50;

/// The query call reports success with any nonzero return value.
pub open spec fn query_succeeded(status: i32) -> bool {
    status != 0
}

/// A nonzero output flag means the process runs under the compatibility layer.
pub open spec fn runs_emulated(flag: i32) -> bool {
    flag != 0
}

/// The outcome of a probe whose query returned `status` and wrote `flag`,
/// where `last_error` is the thread's last-error code read right after a
/// failed query.
pub open spec fn probe_outcome(status: i32, flag: i32, last_error: u32) -> Result<bool, u32> {
    if query_succeeded(status) {
        Ok(runs_emulated(flag))
    } else {
        Err(last_error)
    }
}

/// Turns what the query call returned into the probe's result.
///
/// `status` is the query's return value and `flag` the value it wrote to its
/// output slot. `read_last_error` reads the thread's last-error code; it is
/// called only when the query failed, and before anything else is done, so
/// that the code is the one that the failed query left.
pub fn probe_with<F: FnOnce() -> u32>(
    status: i32,
    flag: i32,
    read_last_error: F,
) -> (r: Result<bool, u32>)
    requires
        !query_succeeded(status) ==> read_last_error.requires(()),
    ensures
        query_succeeded(status) ==> r == Ok::<bool, u32>(runs_emulated(flag)),
        query_succeeded(status) ==> forall|code: u32| r == probe_outcome(status, flag, code),
        !query_succeeded(status) ==> (r matches Err(code) && read_last_error.ensures((), code)
            && r == probe_outcome(status, flag, code)),
{
    if status == 0 {
        let code = read_last_error();
        Err(code)
    } else {
        Ok(flag != 0)
    }
}

/// A probe ends in exactly one of two ways: it answers, which it does exactly
/// when the query succeeded, or it fails with an error code.
pub proof fn lemma_outcome_exhaustive(status: i32, flag: i32, last_error: u32)
    ensures
        probe_outcome(status, flag, last_error) is Ok <==> query_succeeded(status),
        probe_outcome(status, flag, last_error) is Err <==> !query_succeeded(status),
        (probe_outcome(status, flag, last_error) is Ok) != (probe_outcome(
            status,
            flag,
            last_error,
        ) is Err),
{
}

/// A failed probe reports exactly the last-error code read after the failed
/// query, whatever the flag holds; a successful probe does not depend on the
/// last-error code at all.
pub proof fn lemma_error_code_fresh(status: i32, flag: i32, last_error: u32, other_error: u32)
    ensures
        !query_succeeded(status) ==> probe_outcome(status, flag, last_error) == Err::<bool, u32>(
            last_error,
        ),
        query_succeeded(status) ==> probe_outcome(status, flag, last_error) == probe_outcome(
            status,
            flag,
            other_error,
        ),
{
}

/// The outcome is determined by whether the query succeeded, whether the flag
/// is nonzero, and on failure by the last-error code: two queries that agree on
/// these give the same outcome, so a process whose compatibility status does
/// not change gets the same answer from every probe.
pub proof fn lemma_outcome_determined(
    status1: i32,
    flag1: i32,
    last_error1: u32,
    status2: i32,
    flag2: i32,
    last_error2: u32,
)
    requires
        query_succeeded(status1) == query_succeeded(status2),
        query_succeeded(status1) ==> runs_emulated(flag1) == runs_emulated(flag2),
        !query_succeeded(status1) ==> last_error1 == last_error2,
    ensures
        probe_outcome(status1, flag1, last_error1) == probe_outcome(status2, flag2, last_error2),
{
}

/// The result on a host that has no 32-on-64 compatibility layer: no query is
/// attempted, and the probe fails with `ERROR_NOT_SUPPORTED`.
pub fn unsupported_platform() -> (r: Result<bool, u32>)
    ensures
        r == Err::<bool, u32>(ERROR_NOT_SUPPORTED),
{
    Err(ERROR_NOT_SUPPORTED)
}

} // verus!
