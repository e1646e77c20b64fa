//! The root of the resource hierarchy: the environment.
//!
//! An [`Environment`] owns the native environment handle and an error
//! handle allocated as its child. It is created first and destroyed
//! last; every diagnostic retrieval in the layers above goes through
//! its error handle.

use vstd::prelude::*;

use crate::ffi::{
    allocated_token, config_unchanged, err_of, frees_token, is_successful_alloc,
    oci_env_nls_create, oci_handle_alloc, oci_handle_free, plan_env_nls_create, plan_handle_alloc,
    plan_handle_free, run_delta, run_err, run_stop, segment_leak_free, spec_next_status,
    step_delta, with_calls, CallView, ErrView, OCIEnv, OCIError, OCIHandleType, OCIMode,
    Oci, OciModel, OracleError, PlanStep,
};

verus! {

/// The two calls an environment build makes: create the environment
/// handle, then allocate the error handle as its child. `n` is the
/// build's first position in the call log.
pub open spec fn env_setup_plan(n: int) -> Seq<PlanStep> {
    seq![plan_env_nls_create(n, 0u32), plan_handle_alloc(n + 1, n, 2u32)]
}

/// What a failing environment build frees again: the environment
/// handle, where it was the error-handle allocation (`k == 1`) that
/// failed; nothing where the build failed on its very first call.
pub open spec fn env_rollback_plan(n: int, k: int) -> Seq<PlanStep> {
    if k == 1 {
        seq![plan_handle_free(n, 1u32)]
    } else {
        Seq::<PlanStep>::empty()
    }
}

/// Every record an environment build appends to the call log, on every
/// path: the setup calls up to the first failure, then the rollback
/// frees for what the setup had already allocated.
pub open spec fn env_create_delta(o: OciModel) -> Seq<CallView> {
    let n = o.log.len() as int;
    let plan = env_setup_plan(n);
    let d = run_delta(o, plan);
    d + run_delta(with_calls(o, d), env_rollback_plan(n, run_stop(o, plan)))
}

/// An environment build's outcome: `None` when both setup calls
/// succeed, otherwise the first failure's translated error.
pub open spec fn env_create_err(o: OciModel) -> Option<ErrView> {
    run_err(o, env_setup_plan(o.log.len() as int))
}

/// The two frees an environment teardown issues, in order: the error
/// handle, then the environment handle.
pub open spec fn env_teardown_plan(env: int, error: int) -> Seq<PlanStep> {
    seq![plan_handle_free(error, 2u32), plan_handle_free(env, 1u32)]
}

/// The root resource: a native environment handle and the error
/// handle allocated as its child.
#[derive(Debug)]
pub struct Environment {
    pub handle: OCIEnv,
    pub error_handle: OCIError,
}

impl Environment {
    /// Builds an environment: allocates the native environment handle
    /// with default mode, then the error handle as its child, aborting
    /// on the first failure. A failed second step frees the
    /// environment handle again before the error is returned, so a
    /// failing build leaks nothing it allocated itself.
    pub fn new(oci: &mut Oci) -> (r: Result<Environment, OracleError>)
        ensures
            config_unchanged(old(oci)@, final(oci)@),
            final(oci)@.log == old(oci)@.log + env_create_delta(old(oci)@),
            err_of(r) == env_create_err(old(oci)@),
            r matches Ok(env) ==> {
                &&& env.handle.raw == old(oci)@.log.len()
                &&& env.error_handle.raw == old(oci)@.log.len() + 1
            },
    {
        let ghost pre = oci@;
        let ghost n = pre.log.len() as int;
        let ghost plan = env_setup_plan(n);

        let handle = match oci_env_nls_create(oci, OCIMode::Default) {
            Ok(h) => h,
            Err(e) => {
                proof {
                    reveal_with_fuel(run_delta, 3);
                    reveal_with_fuel(run_err, 3);
                    reveal_with_fuel(run_stop, 3);
                    assert(oci@.log =~= pre.log + env_create_delta(pre));
                }
                return Err(e);
            },
        };
        let ghost o1 = oci@;
        proof {
            reveal_with_fuel(run_delta, 3);
            reveal_with_fuel(run_err, 3);
            reveal_with_fuel(run_stop, 3);
            assert(plan.skip(1) =~= seq![plan[1]]);
            assert(o1 == with_calls(pre, step_delta(pre, plan[0])));
        }
        match oci_handle_alloc(oci, &handle, OCIHandleType::Error) {
            Ok(raw) => {
                proof {
                    reveal_with_fuel(run_delta, 3);
                    reveal_with_fuel(run_err, 3);
                    reveal_with_fuel(run_stop, 3);
                    assert(plan.skip(1).skip(1) =~= Seq::<PlanStep>::empty());
                    assert(oci@.log =~= pre.log + env_create_delta(pre));
                }
                Ok(Environment { handle, error_handle: OCIError { raw } })
            },
            Err(e) => {
                let ghost o2 = oci@;
                // The error-handle allocation failed: free the
                // environment handle again, then report the first
                // failure. A failing free is itself fatal; it is
                // recorded, and the build's own error still comes back.
                let _freed = oci_handle_free(oci, handle.raw, OCIHandleType::Environment);
                proof {
                    reveal_with_fuel(run_delta, 3);
                    reveal_with_fuel(run_err, 3);
                    reveal_with_fuel(run_stop, 3);
                    assert(run_delta(pre, plan) == step_delta(pre, plan[0]) + step_delta(
                        o1,
                        plan[1],
                    ));
                    assert(o2.log =~= with_calls(pre, run_delta(pre, plan)).log);
                    assert(o2 == with_calls(pre, run_delta(pre, plan)));
                    assert(oci@.log =~= pre.log + env_create_delta(pre));
                }
                Err(e)
            },
        }
    }

    /// Tears the environment down: frees the error handle, then the
    /// environment handle, stopping at the first failing free and
    /// returning its error. A failed free is a fatal condition; the
    /// caller's shell is expected to terminate on it.
    pub fn close(self, oci: &mut Oci) -> (r: Result<(), OracleError>)
        ensures
            config_unchanged(old(oci)@, final(oci)@),
            final(oci)@.log == old(oci)@.log + run_delta(
                old(oci)@,
                env_teardown_plan(self.handle.raw as int, self.error_handle.raw as int),
            ),
            err_of(r) == run_err(
                old(oci)@,
                env_teardown_plan(self.handle.raw as int, self.error_handle.raw as int),
            ),
    {
        let ghost pre = oci@;
        let ghost plan = env_teardown_plan(self.handle.raw as int, self.error_handle.raw as int);
        match oci_handle_free(oci, self.error_handle.raw, OCIHandleType::Error) {
            Ok(_) => {},
            Err(e) => {
                proof {
                    reveal_with_fuel(run_delta, 3);
                    reveal_with_fuel(run_err, 3);
                    assert(oci@.log =~= pre.log + run_delta(pre, plan));
                }
                return Err(e);
            },
        }
        let ghost o1 = oci@;
        let out = oci_handle_free(oci, self.handle.raw, OCIHandleType::Environment);
        proof {
            reveal_with_fuel(run_delta, 3);
            reveal_with_fuel(run_err, 3);
            assert(plan.skip(1) =~= seq![plan[1]]);
            assert(plan.skip(1).skip(1) =~= Seq::<PlanStep>::empty());
            assert(o1 == with_calls(pre, step_delta(pre, plan[0])));
            assert(oci@.log =~= pre.log + run_delta(pre, plan));
        }
        match out {
            Ok(_) => Ok(()),
            Err(e) => Err(e),
        }
    }
}

/// A failing environment build leaks no handle of its own: every
/// handle a successful call of the build allocated is freed again,
/// within the build's own records, before the error comes back.
pub proof fn lemma_env_create_failure_leak_free(o: OciModel)
    requires
        env_create_err(o) is Some,
    ensures
        segment_leak_free(env_create_delta(o)),
{
    reveal_with_fuel(run_delta, 3);
    reveal_with_fuel(run_err, 3);
    reveal_with_fuel(run_stop, 3);
    let n = o.log.len() as int;
    let plan = env_setup_plan(n);
    let d = env_create_delta(o);
    assert(plan.skip(1) =~= seq![plan[1]]);
    if spec_next_status(o) != 0 {
        let rec0 = CallView { op: plan[0].op, status: spec_next_status(o) };
        assert(d =~= seq![rec0]);
        assert forall|i: int| 0 <= i < d.len() && is_successful_alloc(#[trigger] d[i]) implies exists|
            j: int,
        | i < j < d.len() && frees_token(#[trigger] d[j], allocated_token(d[i])) by {
            assert(d[0].status != 0i32);
        }
    } else {
        let d0 = step_delta(o, plan[0]);
        let o1 = with_calls(o, d0);
        let d1 = step_delta(o1, plan[1]);
        let rf = step_delta(with_calls(o, d0 + d1), plan_handle_free(n, 1u32));
        assert(run_stop(o, plan) == 1);
        assert(d =~= d0 + d1 + rf);
        assert(d.len() == 3);
        assert forall|i: int| 0 <= i < d.len() && is_successful_alloc(#[trigger] d[i]) implies exists|
            j: int,
        | i < j < d.len() && frees_token(#[trigger] d[j], allocated_token(d[i])) by {
            if i == 0 {
                assert(allocated_token(d[0]) == n);
                assert(frees_token(d[2], n));
            } else if i == 1 {
                assert(d[1].status != 0i32);
            } else {
                assert(!is_successful_alloc(d[2]));
            }
        }
    }
}

} // verus!
