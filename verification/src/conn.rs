//! The middle of the resource hierarchy: the connection.
//!
//! A [`Connection`] owns a server handle, a service-context handle and
//! a session handle, together with the [`Environment`] they live
//! under. Building one runs the full setup protocol — attach the
//! server, link it into the service context, put the credentials onto
//! the session, begin the session, link it into the service context —
//! aborting on the first failure and rolling the already-allocated
//! handles back. Teardown runs in strict reverse dependency order.

use vstd::prelude::*;

use crate::env::{env_create_delta, env_create_err, env_rollback_plan, env_setup_plan, Environment};
use crate::ffi::{
    config_unchanged, err_of, lemma_run_append, lemma_run_complete_len, lemma_run_err_stop,
    lemma_run_stop_bounds, lemma_step_fail, lemma_step_ok, oci_attr_set, oci_handle_alloc,
    oci_server_attach, oci_session_begin, plan_attr_set, plan_env_nls_create, plan_handle_alloc,
    plan_handle_free, plan_server_attach, plan_server_detach, plan_session_begin,
    plan_session_end, run_delta, run_err, run_stop, run_teardown, spec_next_status,
    spec_status_at, lemma_with_calls_empty, step_delta,
    teardown_plan_of, with_calls, AttrValue, AttrValueView, CallView, ErrView, OCIAttribute,
    OCICredentialsType, OCIAuthMode, OCIHandleType, OCIMode, OCIServer, OCISession,
    OCISvcCtx, Oci, OciModel, OpView, OracleError, PlanStep, TeardownStep,
};

verus! {

/// The eleven calls a connection build makes, in order: the
/// environment build, the three handle allocations, the server
/// attach, the server link, the two credential attributes, the
/// session begin, and the session link. `n` is the build's first
/// position in the call log.
pub open spec fn connect_setup_plan(
    n: int,
    user: Seq<char>,
    pass: Seq<char>,
    db: Seq<char>,
) -> Seq<PlanStep> {
    seq![
        plan_env_nls_create(n, 0u32),
        plan_handle_alloc(n + 1, n, 2u32),
        plan_handle_alloc(n + 2, n, 8u32),
        plan_handle_alloc(n + 3, n, 3u32),
        plan_handle_alloc(n + 4, n, 9u32),
        plan_server_attach(n + 2, n + 1, db, 0u32),
        plan_attr_set(n + 3, 3u32, AttrValueView::Handle(n + 2), 6u32, n + 1),
        plan_attr_set(n + 4, 9u32, AttrValueView::Text(user), 22u32, n + 1),
        plan_attr_set(n + 4, 9u32, AttrValueView::Text(pass), 23u32, n + 1),
        plan_session_begin(n + 3, n + 1, n + 4, 1u32, 0u32),
        plan_attr_set(n + 3, 3u32, AttrValueView::Handle(n + 4), 7u32, n + 1),
    ]
}

/// The calls a connection teardown makes, in strict reverse
/// dependency order: end the session, detach the server, free the
/// session, service and server handles, then free the error and
/// environment handles.
pub open spec fn conn_teardown_plan(
    env: int,
    error: int,
    server: int,
    service: int,
    session: int,
) -> Seq<PlanStep> {
    seq![
        plan_session_end(service, error, session),
        plan_server_detach(server, error),
        plan_handle_free(session, 9u32),
        plan_handle_free(service, 3u32),
        plan_handle_free(server, 8u32),
        plan_handle_free(error, 2u32),
        plan_handle_free(env, 1u32),
    ]
}

/// What a connection build that failed after `k` successful calls
/// rolls back: everything the successful prefix acquired, released in
/// reverse dependency order.
pub open spec fn connect_rollback_plan(
    env: int,
    error: int,
    server: int,
    service: int,
    session: int,
    k: int,
) -> Seq<PlanStep> {
    if k == 1 {
        seq![plan_handle_free(env, 1u32)]
    } else if k == 2 {
        seq![plan_handle_free(error, 2u32), plan_handle_free(env, 1u32)]
    } else if k == 3 {
        seq![
            plan_handle_free(server, 8u32),
            plan_handle_free(error, 2u32),
            plan_handle_free(env, 1u32),
        ]
    } else if k == 4 {
        seq![
            plan_handle_free(service, 3u32),
            plan_handle_free(server, 8u32),
            plan_handle_free(error, 2u32),
            plan_handle_free(env, 1u32),
        ]
    } else if k == 5 {
        seq![
            plan_handle_free(session, 9u32),
            plan_handle_free(service, 3u32),
            plan_handle_free(server, 8u32),
            plan_handle_free(error, 2u32),
            plan_handle_free(env, 1u32),
        ]
    } else if 6 <= k && k <= 9 {
        seq![
            plan_server_detach(server, error),
            plan_handle_free(session, 9u32),
            plan_handle_free(service, 3u32),
            plan_handle_free(server, 8u32),
            plan_handle_free(error, 2u32),
            plan_handle_free(env, 1u32),
        ]
    } else if k == 10 {
        conn_teardown_plan(env, error, server, service, session)
    } else {
        Seq::<PlanStep>::empty()
    }
}

/// Every record a connection build appends to the call log, on every
/// path: the setup calls up to the first failure, then the rollback
/// for what the successful prefix had acquired.
pub open spec fn connect_delta(
    o: OciModel,
    user: Seq<char>,
    pass: Seq<char>,
    db: Seq<char>,
) -> Seq<CallView> {
    let n = o.log.len() as int;
    let plan = connect_setup_plan(n, user, pass, db);
    let d = run_delta(o, plan);
    d + run_delta(
        with_calls(o, d),
        connect_rollback_plan(n, n + 1, n + 2, n + 3, n + 4, run_stop(o, plan)),
    )
}

/// A connection build's outcome: `None` when all eleven setup calls
/// succeed, otherwise the first failure's translated error.
pub open spec fn connect_err(
    o: OciModel,
    user: Seq<char>,
    pass: Seq<char>,
    db: Seq<char>,
) -> Option<ErrView> {
    run_err(o, connect_setup_plan(o.log.len() as int, user, pass, db))
}

/// An authenticated connection: the server, service-context and
/// session handles, and the environment they live under.
#[derive(Debug)]
pub struct Connection {
    pub env: Environment,
    pub service_handle: OCISvcCtx,
    pub server_handle: OCIServer,
    pub session_handle: OCISession,
}

/// The teardown calls that release what a partial connection build
/// acquired, for a build that failed after `k` successful calls.
fn rollback_steps(
    env_r: usize,
    error_r: usize,
    server_r: usize,
    service_r: usize,
    session_r: usize,
    k: usize,
) -> (v: Vec<TeardownStep>)
    requires
        2 <= k <= 10,
    ensures
        teardown_plan_of(v@) == connect_rollback_plan(
            env_r as int,
            error_r as int,
            server_r as int,
            service_r as int,
            session_r as int,
            k as int,
        ),
{
    let mut v: Vec<TeardownStep> = Vec::new();
    if k == 10 {
        v.push(TeardownStep::SessionEnd { service: service_r, error: error_r, session: session_r });
    }
    if k >= 6 {
        v.push(TeardownStep::ServerDetach { server: server_r, error: error_r });
    }
    if k >= 5 {
        v.push(TeardownStep::HandleFree { handle: session_r, htype: OCIHandleType::Session });
    }
    if k >= 4 {
        v.push(TeardownStep::HandleFree { handle: service_r, htype: OCIHandleType::Service });
    }
    if k >= 3 {
        v.push(TeardownStep::HandleFree { handle: server_r, htype: OCIHandleType::Server });
    }
    v.push(TeardownStep::HandleFree { handle: error_r, htype: OCIHandleType::Error });
    v.push(TeardownStep::HandleFree { handle: env_r, htype: OCIHandleType::Environment });
    proof {
        assert(teardown_plan_of(v@) =~= connect_rollback_plan(
            env_r as int,
            error_r as int,
            server_r as int,
            service_r as int,
            session_r as int,
            k as int,
        ));
    }
    v
}

impl Connection {
    /// Builds a fully usable connection: an environment, then server,
    /// service-context and session handles, then attach, server link,
    /// user name, password, session begin and session link, in that
    /// exact order, aborting on the first failure. A failing build
    /// releases everything it had acquired, in reverse dependency
    /// order, and returns the first failure's error.
    pub fn new(oci: &mut Oci, username: String, password: String, database: String) -> (r: Result<
        Connection,
        OracleError,
    >)
        requires
            username@.len() <= u32::MAX,
            password@.len() <= u32::MAX,
        ensures
            config_unchanged(old(oci)@, final(oci)@),
            final(oci)@.log == old(oci)@.log + connect_delta(
                old(oci)@,
                username@,
                password@,
                database@,
            ),
            err_of(r) == connect_err(old(oci)@, username@, password@, database@),
            r matches Ok(c) ==> {
                &&& c.env.handle.raw == old(oci)@.log.len()
                &&& c.env.error_handle.raw == old(oci)@.log.len() + 1
                &&& c.server_handle.raw == old(oci)@.log.len() + 2
                &&& c.service_handle.raw == old(oci)@.log.len() + 3
                &&& c.session_handle.raw == old(oci)@.log.len() + 4
            },
    {
        let ghost pre = oci@;
        let ghost n = pre.log.len() as int;
        let ghost userv = username@;
        let ghost passv = password@;
        let ghost dbv = database@;
        let ghost plan = connect_setup_plan(n, userv, passv, dbv);

        // Steps one and two: the environment build, which rolls its
        // own allocations back on failure.
        let env = match Environment::new(oci) {
            Ok(env) => env,
            Err(e) => {
                proof {
                    assert(plan.take(2) =~= env_setup_plan(n));
                    lemma_run_err_stop(pre, env_setup_plan(n));
                    lemma_run_stop_bounds(pre, env_setup_plan(n));
                    assert(plan =~= env_setup_plan(n) + plan.skip(2));
                    lemma_run_append(pre, env_setup_plan(n), plan.skip(2));
                    let k = run_stop(pre, env_setup_plan(n));
                    assert(connect_rollback_plan(n, n + 1, n + 2, n + 3, n + 4, k)
                        == env_rollback_plan(n, k));
                    assert(oci@.log =~= pre.log + connect_delta(pre, userv, passv, dbv));
                }
                return Err(e);
            },
        };
        proof {
            assert(plan.take(2) =~= env_setup_plan(n));
            lemma_run_err_stop(pre, env_setup_plan(n));
            assert(env_create_delta(pre) =~= run_delta(pre, env_setup_plan(n)));
            lemma_run_complete_len(pre, env_setup_plan(n));
            assert(oci@ == with_calls(pre, run_delta(pre, plan.take(2))));
            assert(run_stop(pre, plan.take(2)) == 2);
            assert(run_err(pre, plan.take(2)) is None);
            assert(oci@.log.len() == pre.log.len() + 2);
        }

        // Step three: the server handle.
        let ghost o2 = oci@;
        let server_raw = match oci_handle_alloc(oci, &env.handle, OCIHandleType::Server) {
            Ok(v) => v,
            Err(e) => {
                proof {
                    assert(plan[2] == plan_handle_alloc(n + 2, n, 8u32));
                    lemma_step_fail(pre, plan, 2, o2, oci@, e@);
                }
                let steps = rollback_steps(env.handle.raw, env.error_handle.raw, 0, 0, 0, 2);
                let _unwound = run_teardown(oci, &steps);
                proof {
                    assert(oci@.log =~= pre.log + connect_delta(pre, userv, passv, dbv));
                }
                return Err(e);
            },
        };
        proof {
            assert(plan[2] == plan_handle_alloc(n + 2, n, 8u32));
            lemma_step_ok(pre, plan, 2, o2, oci@);
        }

        // Step four: the service-context handle.
        let ghost o3 = oci@;
        let service_raw = match oci_handle_alloc(oci, &env.handle, OCIHandleType::Service) {
            Ok(v) => v,
            Err(e) => {
                proof {
                    assert(plan[3] == plan_handle_alloc(n + 3, n, 3u32));
                    lemma_step_fail(pre, plan, 3, o3, oci@, e@);
                }
                let steps = rollback_steps(env.handle.raw, env.error_handle.raw, server_raw, 0, 0, 3);
                let _unwound = run_teardown(oci, &steps);
                proof {
                    assert(oci@.log =~= pre.log + connect_delta(pre, userv, passv, dbv));
                }
                return Err(e);
            },
        };
        proof {
            assert(plan[3] == plan_handle_alloc(n + 3, n, 3u32));
            lemma_step_ok(pre, plan, 3, o3, oci@);
        }

        // Step five: the session handle.
        let ghost o4 = oci@;
        let session_raw = match oci_handle_alloc(oci, &env.handle, OCIHandleType::Session) {
            Ok(v) => v,
            Err(e) => {
                proof {
                    assert(plan[4] == plan_handle_alloc(n + 4, n, 9u32));
                    lemma_step_fail(pre, plan, 4, o4, oci@, e@);
                }
                let steps = rollback_steps(
                    env.handle.raw,
                    env.error_handle.raw,
                    server_raw,
                    service_raw,
                    0,
                    4,
                );
                let _unwound = run_teardown(oci, &steps);
                proof {
                    assert(oci@.log =~= pre.log + connect_delta(pre, userv, passv, dbv));
                }
                return Err(e);
            },
        };
        proof {
            assert(plan[4] == plan_handle_alloc(n + 4, n, 9u32));
            lemma_step_ok(pre, plan, 4, o4, oci@);
        }

        let server_handle = OCIServer { raw: server_raw };
        let service_handle = OCISvcCtx { raw: service_raw };
        let session_handle = OCISession { raw: session_raw };

        // Step six: attach the server to the database target.
        let ghost o5 = oci@;
        match oci_server_attach(oci, &server_handle, &env.error_handle, database, OCIMode::Default) {
            Ok(_) => {},
            Err(e) => {
                proof {
                    assert(plan[5] == plan_server_attach(n + 2, n + 1, dbv, 0u32));
                    lemma_step_fail(pre, plan, 5, o5, oci@, e@);
                }
                let steps = rollback_steps(
                    env.handle.raw,
                    env.error_handle.raw,
                    server_raw,
                    service_raw,
                    session_raw,
                    5,
                );
                let _unwound = run_teardown(oci, &steps);
                proof {
                    assert(oci@.log =~= pre.log + connect_delta(pre, userv, passv, dbv));
                }
                return Err(e);
            },
        }
        proof {
            assert(plan[5] == plan_server_attach(n + 2, n + 1, dbv, 0u32));
            lemma_step_ok(pre, plan, 5, o5, oci@);
        }

        // Step seven: link the server into the service context.
        let ghost o6 = oci@;
        match oci_attr_set(
            oci,
            service_raw,
            OCIHandleType::Service,
            AttrValue::Handle(server_raw),
            OCIAttribute::Server,
            &env.error_handle,
        ) {
            Ok(_) => {},
            Err(e) => {
                proof {
                    assert(plan[6] == plan_attr_set(
                        n + 3,
                        3u32,
                        AttrValueView::Handle(n + 2),
                        6u32,
                        n + 1,
                    ));
                    lemma_step_fail(pre, plan, 6, o6, oci@, e@);
                }
                let steps = rollback_steps(
                    env.handle.raw,
                    env.error_handle.raw,
                    server_raw,
                    service_raw,
                    session_raw,
                    6,
                );
                let _unwound = run_teardown(oci, &steps);
                proof {
                    assert(oci@.log =~= pre.log + connect_delta(pre, userv, passv, dbv));
                }
                return Err(e);
            },
        }
        proof {
            assert(plan[6] == plan_attr_set(n + 3, 3u32, AttrValueView::Handle(n + 2), 6u32, n + 1));
            lemma_step_ok(pre, plan, 6, o6, oci@);
        }

        // Step eight: the user name, with its explicit length.
        let ghost o7 = oci@;
        match oci_attr_set(
            oci,
            session_raw,
            OCIHandleType::Session,
            AttrValue::Text(username),
            OCIAttribute::Username,
            &env.error_handle,
        ) {
            Ok(_) => {},
            Err(e) => {
                proof {
                    assert(plan[7] == plan_attr_set(
                        n + 4,
                        9u32,
                        AttrValueView::Text(userv),
                        22u32,
                        n + 1,
                    ));
                    lemma_step_fail(pre, plan, 7, o7, oci@, e@);
                }
                let steps = rollback_steps(
                    env.handle.raw,
                    env.error_handle.raw,
                    server_raw,
                    service_raw,
                    session_raw,
                    7,
                );
                let _unwound = run_teardown(oci, &steps);
                proof {
                    assert(oci@.log =~= pre.log + connect_delta(pre, userv, passv, dbv));
                }
                return Err(e);
            },
        }
        proof {
            assert(plan[7] == plan_attr_set(n + 4, 9u32, AttrValueView::Text(userv), 22u32, n + 1));
            lemma_step_ok(pre, plan, 7, o7, oci@);
        }

        // Step nine: the password, with its explicit length.
        let ghost o8 = oci@;
        match oci_attr_set(
            oci,
            session_raw,
            OCIHandleType::Session,
            AttrValue::Text(password),
            OCIAttribute::Password,
            &env.error_handle,
        ) {
            Ok(_) => {},
            Err(e) => {
                proof {
                    assert(plan[8] == plan_attr_set(
                        n + 4,
                        9u32,
                        AttrValueView::Text(passv),
                        23u32,
                        n + 1,
                    ));
                    lemma_step_fail(pre, plan, 8, o8, oci@, e@);
                }
                let steps = rollback_steps(
                    env.handle.raw,
                    env.error_handle.raw,
                    server_raw,
                    service_raw,
                    session_raw,
                    8,
                );
                let _unwound = run_teardown(oci, &steps);
                proof {
                    assert(oci@.log =~= pre.log + connect_delta(pre, userv, passv, dbv));
                }
                return Err(e);
            },
        }
        proof {
            assert(plan[8] == plan_attr_set(n + 4, 9u32, AttrValueView::Text(passv), 23u32, n + 1));
            lemma_step_ok(pre, plan, 8, o8, oci@);
        }

        // Step ten: begin the session with password credentials.
        let ghost o9 = oci@;
        match oci_session_begin(
            oci,
            &service_handle,
            &env.error_handle,
            &session_handle,
            OCICredentialsType::Rdbms,
            OCIAuthMode::Default,
        ) {
            Ok(_) => {},
            Err(e) => {
                proof {
                    assert(plan[9] == plan_session_begin(n + 3, n + 1, n + 4, 1u32, 0u32));
                    lemma_step_fail(pre, plan, 9, o9, oci@, e@);
                }
                let steps = rollback_steps(
                    env.handle.raw,
                    env.error_handle.raw,
                    server_raw,
                    service_raw,
                    session_raw,
                    9,
                );
                let _unwound = run_teardown(oci, &steps);
                proof {
                    assert(oci@.log =~= pre.log + connect_delta(pre, userv, passv, dbv));
                }
                return Err(e);
            },
        }
        proof {
            assert(plan[9] == plan_session_begin(n + 3, n + 1, n + 4, 1u32, 0u32));
            lemma_step_ok(pre, plan, 9, o9, oci@);
        }

        // Step eleven: link the authenticated session into the
        // service context.
        let ghost o10 = oci@;
        match oci_attr_set(
            oci,
            service_raw,
            OCIHandleType::Service,
            AttrValue::Handle(session_raw),
            OCIAttribute::Session,
            &env.error_handle,
        ) {
            Ok(_) => {},
            Err(e) => {
                proof {
                    assert(plan[10] == plan_attr_set(
                        n + 3,
                        3u32,
                        AttrValueView::Handle(n + 4),
                        7u32,
                        n + 1,
                    ));
                    lemma_step_fail(pre, plan, 10, o10, oci@, e@);
                }
                let steps = rollback_steps(
                    env.handle.raw,
                    env.error_handle.raw,
                    server_raw,
                    service_raw,
                    session_raw,
                    10,
                );
                let _unwound = run_teardown(oci, &steps);
                proof {
                    assert(oci@.log =~= pre.log + connect_delta(pre, userv, passv, dbv));
                }
                return Err(e);
            },
        }
        proof {
            assert(plan[10] == plan_attr_set(n + 3, 3u32, AttrValueView::Handle(n + 4), 7u32, n + 1));
            lemma_step_ok(pre, plan, 10, o10, oci@);
            assert(plan.take(11) =~= plan);
            assert(run_delta(
                with_calls(pre, run_delta(pre, plan)),
                connect_rollback_plan(n, n + 1, n + 2, n + 3, n + 4, run_stop(pre, plan)),
            ) =~= Seq::<CallView>::empty());
            assert(oci@.log =~= pre.log + connect_delta(pre, userv, passv, dbv));
        }
        Ok(
            Connection {
                env,
                service_handle,
                server_handle,
                session_handle,
            },
        )
    }

    /// Prepares a statement from this connection and the given text,
    /// moving the connection into the statement. Where the prepare
    /// fails, the connection is torn down before the error returns.
    pub fn new_statement(self, oci: &mut Oci, stmt_text: String) -> (r: Result<
        crate::stmt::Statement,
        OracleError,
    >)
        ensures
            config_unchanged(old(oci)@, final(oci)@),
            final(oci)@.log == old(oci)@.log + crate::stmt::stmt_create_delta(
                old(oci)@,
                self,
                stmt_text@,
            ),
            err_of(r) == crate::stmt::stmt_create_err(old(oci)@, self, stmt_text@),
            r matches Ok(st) ==> {
                &&& st.conn == self
                &&& st.stmt_handle.raw == old(oci)@.log.len()
                &&& st.stmt_hash@ == crate::stmt::spec_cache_key(stmt_text@)
            },
    {
        crate::stmt::Statement::new(oci, self, stmt_text)
    }

    /// Tears the connection down in strict reverse dependency order:
    /// session end, server detach, then the session, service, server,
    /// error and environment handles are freed, stopping at the first
    /// failing call and returning its error. A failed release is a
    /// fatal condition; the caller's shell is expected to terminate
    /// on it.
    pub fn close(self, oci: &mut Oci) -> (r: Result<(), OracleError>)
        ensures
            config_unchanged(old(oci)@, final(oci)@),
            final(oci)@.log == old(oci)@.log + run_delta(
                old(oci)@,
                conn_teardown_plan(
                    self.env.handle.raw as int,
                    self.env.error_handle.raw as int,
                    self.server_handle.raw as int,
                    self.service_handle.raw as int,
                    self.session_handle.raw as int,
                ),
            ),
            err_of(r) == run_err(
                old(oci)@,
                conn_teardown_plan(
                    self.env.handle.raw as int,
                    self.env.error_handle.raw as int,
                    self.server_handle.raw as int,
                    self.service_handle.raw as int,
                    self.session_handle.raw as int,
                ),
            ),
    {
        let mut steps: Vec<TeardownStep> = Vec::new();
        steps.push(
            TeardownStep::SessionEnd {
                service: self.service_handle.raw,
                error: self.env.error_handle.raw,
                session: self.session_handle.raw,
            },
        );
        steps.push(
            TeardownStep::ServerDetach {
                server: self.server_handle.raw,
                error: self.env.error_handle.raw,
            },
        );
        steps.push(
            TeardownStep::HandleFree {
                handle: self.session_handle.raw,
                htype: OCIHandleType::Session,
            },
        );
        steps.push(
            TeardownStep::HandleFree {
                handle: self.service_handle.raw,
                htype: OCIHandleType::Service,
            },
        );
        steps.push(
            TeardownStep::HandleFree { handle: self.server_handle.raw, htype: OCIHandleType::Server },
        );
        steps.push(
            TeardownStep::HandleFree {
                handle: self.env.error_handle.raw,
                htype: OCIHandleType::Error,
            },
        );
        steps.push(
            TeardownStep::HandleFree { handle: self.env.handle.raw, htype: OCIHandleType::Environment },
        );
        proof {
            assert(teardown_plan_of(steps@) =~= conn_teardown_plan(
                self.env.handle.raw as int,
                self.env.error_handle.raw as int,
                self.server_handle.raw as int,
                self.service_handle.raw as int,
                self.session_handle.raw as int,
            ));
        }
        run_teardown(oci, &steps)
    }
}

/// Whether some call of a plan frees the given handle token.
pub open spec fn plan_frees_token(p: Seq<PlanStep>, t: int) -> bool {
    exists|j: int|
        0 <= j < p.len() && ((#[trigger] p[j]).op matches OpView::HandleFree { handle, .. }
            && handle == t)
}

/// A connection build that failed after `k` successful calls rolls
/// back every handle those calls allocated: the build's first five
/// calls allocate the tokens `n` through `n + 4` in order, and the
/// rollback plan for `k` holds a free for each token the successful
/// prefix reached.
pub proof fn lemma_connect_rollback_covers_allocations(n: int, k: int)
    requires
        0 <= k <= 10,
    ensures
        forall|t: int|
            n <= t < n + (if k < 5 {
                k
            } else {
                5int
            }) ==> #[trigger] plan_frees_token(
                connect_rollback_plan(n, n + 1, n + 2, n + 3, n + 4, k),
                t,
            ),
{
    let rb = connect_rollback_plan(n, n + 1, n + 2, n + 3, n + 4, k);
    assert forall|t: int|
        n <= t < n + (if k < 5 {
            k
        } else {
            5int
        }) implies #[trigger] plan_frees_token(rb, t) by {
        if k == 1 {
            assert(rb[0].op matches OpView::HandleFree { handle, .. } && handle == t);
        } else if k == 2 {
            if t == n {
                assert(rb[1].op matches OpView::HandleFree { handle, .. } && handle == t);
            } else {
                assert(rb[0].op matches OpView::HandleFree { handle, .. } && handle == t);
            }
        } else if k == 3 {
            if t == n {
                assert(rb[2].op matches OpView::HandleFree { handle, .. } && handle == t);
            } else if t == n + 1 {
                assert(rb[1].op matches OpView::HandleFree { handle, .. } && handle == t);
            } else {
                assert(rb[0].op matches OpView::HandleFree { handle, .. } && handle == t);
            }
        } else if k == 4 {
            if t == n {
                assert(rb[3].op matches OpView::HandleFree { handle, .. } && handle == t);
            } else if t == n + 1 {
                assert(rb[2].op matches OpView::HandleFree { handle, .. } && handle == t);
            } else if t == n + 2 {
                assert(rb[1].op matches OpView::HandleFree { handle, .. } && handle == t);
            } else {
                assert(rb[0].op matches OpView::HandleFree { handle, .. } && handle == t);
            }
        } else if k == 5 {
            if t == n {
                assert(rb[4].op matches OpView::HandleFree { handle, .. } && handle == t);
            } else if t == n + 1 {
                assert(rb[3].op matches OpView::HandleFree { handle, .. } && handle == t);
            } else if t == n + 2 {
                assert(rb[2].op matches OpView::HandleFree { handle, .. } && handle == t);
            } else if t == n + 3 {
                assert(rb[1].op matches OpView::HandleFree { handle, .. } && handle == t);
            } else {
                assert(rb[0].op matches OpView::HandleFree { handle, .. } && handle == t);
            }
        } else if 6 <= k && k <= 9 {
            if t == n {
                assert(rb[5].op matches OpView::HandleFree { handle, .. } && handle == t);
            } else if t == n + 1 {
                assert(rb[4].op matches OpView::HandleFree { handle, .. } && handle == t);
            } else if t == n + 2 {
                assert(rb[3].op matches OpView::HandleFree { handle, .. } && handle == t);
            } else if t == n + 3 {
                assert(rb[2].op matches OpView::HandleFree { handle, .. } && handle == t);
            } else {
                assert(rb[1].op matches OpView::HandleFree { handle, .. } && handle == t);
            }
        } else if k == 10 {
            if t == n {
                assert(rb[6].op matches OpView::HandleFree { handle, .. } && handle == t);
            } else if t == n + 1 {
                assert(rb[5].op matches OpView::HandleFree { handle, .. } && handle == t);
            } else if t == n + 2 {
                assert(rb[4].op matches OpView::HandleFree { handle, .. } && handle == t);
            } else if t == n + 3 {
                assert(rb[3].op matches OpView::HandleFree { handle, .. } && handle == t);
            } else {
                assert(rb[2].op matches OpView::HandleFree { handle, .. } && handle == t);
            }
        }
    }
}

/// A connection build whose environment build fails returns a
/// failure: no connection comes back from it.
pub proof fn lemma_env_failure_fails_connect(
    o: OciModel,
    user: Seq<char>,
    pass: Seq<char>,
    db: Seq<char>,
)
    requires
        env_create_err(o) is Some,
    ensures
        connect_err(o, user, pass, db) is Some,
{
    let n = o.log.len() as int;
    let plan = connect_setup_plan(n, user, pass, db);
    assert(plan.take(2) =~= env_setup_plan(n));
    assert(plan =~= env_setup_plan(n) + plan.skip(2));
    lemma_run_err_stop(o, env_setup_plan(n));
    lemma_run_stop_bounds(o, env_setup_plan(n));
    lemma_run_append(o, env_setup_plan(n), plan.skip(2));
}

/// A connection teardown against a native layer that answers every
/// call with success issues exactly these calls, in exactly this
/// order and exactly once each: session end, server detach, then the
/// frees of the session, service, server, error and environment
/// handles.
pub proof fn lemma_connection_close_order(
    o: OciModel,
    env: int,
    error: int,
    server: int,
    service: int,
    session: int,
)
    requires
        forall|i: int| o.log.len() <= i < o.log.len() + 7 ==> spec_status_at(o, i) == 0i32,
    ensures
        run_err(o, conn_teardown_plan(env, error, server, service, session)) is None,
        run_delta(o, conn_teardown_plan(env, error, server, service, session)) == seq![
            CallView {
                op: OpView::SessionEnd { service, error, session, mode: 0u32 },
                status: 0i32,
            },
            CallView { op: OpView::ServerDetach { server, error, mode: 0u32 }, status: 0i32 },
            CallView { op: OpView::HandleFree { handle: session, htype: 9u32 }, status: 0i32 },
            CallView { op: OpView::HandleFree { handle: service, htype: 3u32 }, status: 0i32 },
            CallView { op: OpView::HandleFree { handle: server, htype: 8u32 }, status: 0i32 },
            CallView { op: OpView::HandleFree { handle: error, htype: 2u32 }, status: 0i32 },
            CallView { op: OpView::HandleFree { handle: env, htype: 1u32 }, status: 0i32 },
        ],
{
    let p = conn_teardown_plan(env, error, server, service, session);
    assert(p.take(0) =~= Seq::<PlanStep>::empty());
    lemma_with_calls_empty(o);
    let m0 = o;
    assert(m0 == with_calls(o, run_delta(o, p.take(0))));
    let m1 = with_calls(m0, step_delta(m0, p[0]));
    assert(spec_next_status(m0) == spec_status_at(o, o.log.len() as int + 0));
    lemma_step_ok(o, p, 0, m0, m1);
    let m2 = with_calls(m1, step_delta(m1, p[1]));
    assert(spec_next_status(m1) == spec_status_at(o, o.log.len() as int + 1));
    lemma_step_ok(o, p, 1, m1, m2);
    let m3 = with_calls(m2, step_delta(m2, p[2]));
    assert(spec_next_status(m2) == spec_status_at(o, o.log.len() as int + 2));
    lemma_step_ok(o, p, 2, m2, m3);
    let m4 = with_calls(m3, step_delta(m3, p[3]));
    assert(spec_next_status(m3) == spec_status_at(o, o.log.len() as int + 3));
    lemma_step_ok(o, p, 3, m3, m4);
    let m5 = with_calls(m4, step_delta(m4, p[4]));
    assert(spec_next_status(m4) == spec_status_at(o, o.log.len() as int + 4));
    lemma_step_ok(o, p, 4, m4, m5);
    let m6 = with_calls(m5, step_delta(m5, p[5]));
    assert(spec_next_status(m5) == spec_status_at(o, o.log.len() as int + 5));
    lemma_step_ok(o, p, 5, m5, m6);
    let m7 = with_calls(m6, step_delta(m6, p[6]));
    assert(spec_next_status(m6) == spec_status_at(o, o.log.len() as int + 6));
    lemma_step_ok(o, p, 6, m6, m7);
    assert(p.take(7) =~= p);
    lemma_run_err_stop(o, p);
    assert(run_stop(o, p) == 7);
    lemma_run_complete_len(o, p);
    assert(step_delta(m0, p[0]) =~= seq![
        CallView { op: OpView::SessionEnd { service, error, session, mode: 0u32 }, status: 0i32 },
    ]);
    assert(step_delta(m1, p[1]) =~= seq![
        CallView { op: OpView::ServerDetach { server, error, mode: 0u32 }, status: 0i32 },
    ]);
    assert(step_delta(m2, p[2]) =~= seq![
        CallView { op: OpView::HandleFree { handle: session, htype: 9u32 }, status: 0i32 },
    ]);
    assert(step_delta(m3, p[3]) =~= seq![
        CallView { op: OpView::HandleFree { handle: service, htype: 3u32 }, status: 0i32 },
    ]);
    assert(step_delta(m4, p[4]) =~= seq![
        CallView { op: OpView::HandleFree { handle: server, htype: 8u32 }, status: 0i32 },
    ]);
    assert(step_delta(m5, p[5]) =~= seq![
        CallView { op: OpView::HandleFree { handle: error, htype: 2u32 }, status: 0i32 },
    ]);
    assert(step_delta(m6, p[6]) =~= seq![
        CallView { op: OpView::HandleFree { handle: env, htype: 1u32 }, status: 0i32 },
    ]);
    assert(run_delta(o, p.take(0)) =~= Seq::<CallView>::empty());
    assert(run_delta(o, p) == run_delta(o, p.take(7)));
    assert(run_delta(o, p) =~= seq![
        CallView { op: OpView::SessionEnd { service, error, session, mode: 0u32 }, status: 0i32 },
        CallView { op: OpView::ServerDetach { server, error, mode: 0u32 }, status: 0i32 },
        CallView { op: OpView::HandleFree { handle: session, htype: 9u32 }, status: 0i32 },
        CallView { op: OpView::HandleFree { handle: service, htype: 3u32 }, status: 0i32 },
        CallView { op: OpView::HandleFree { handle: server, htype: 8u32 }, status: 0i32 },
        CallView { op: OpView::HandleFree { handle: error, htype: 2u32 }, status: 0i32 },
        CallView { op: OpView::HandleFree { handle: env, htype: 1u32 }, status: 0i32 },
    ]);
}

/// A connection build against a native layer that answers every call
/// with success performs exactly these calls, in exactly this order:
/// environment create, the error, server, service and session handle
/// allocations, server attach, server link, user name, password,
/// session begin, session link — and returns no error.
pub proof fn lemma_connect_success_order(
    o: OciModel,
    user: Seq<char>,
    pass: Seq<char>,
    db: Seq<char>,
)
    requires
        forall|i: int| o.log.len() <= i < o.log.len() + 11 ==> spec_status_at(o, i) == 0i32,
    ensures
        connect_err(o, user, pass, db) is None,
        connect_delta(o, user, pass, db) == ({
            let n = o.log.len() as int;
            seq![
                CallView { op: OpView::EnvNlsCreate { mode: 0u32, handle: n }, status: 0i32 },
                CallView {
                    op: OpView::HandleAlloc { parent: n, htype: 2u32, handle: n + 1 },
                    status: 0i32,
                },
                CallView {
                    op: OpView::HandleAlloc { parent: n, htype: 8u32, handle: n + 2 },
                    status: 0i32,
                },
                CallView {
                    op: OpView::HandleAlloc { parent: n, htype: 3u32, handle: n + 3 },
                    status: 0i32,
                },
                CallView {
                    op: OpView::HandleAlloc { parent: n, htype: 9u32, handle: n + 4 },
                    status: 0i32,
                },
                CallView {
                    op: OpView::ServerAttach { server: n + 2, error: n + 1, db, mode: 0u32 },
                    status: 0i32,
                },
                CallView {
                    op: OpView::AttrSet {
                        target: n + 3,
                        htype: 3u32,
                        value: AttrValueView::Handle(n + 2),
                        size: 0u32,
                        attr: 6u32,
                        error: n + 1,
                    },
                    status: 0i32,
                },
                CallView {
                    op: OpView::AttrSet {
                        target: n + 4,
                        htype: 9u32,
                        value: AttrValueView::Text(user),
                        size: user.len() as u32,
                        attr: 22u32,
                        error: n + 1,
                    },
                    status: 0i32,
                },
                CallView {
                    op: OpView::AttrSet {
                        target: n + 4,
                        htype: 9u32,
                        value: AttrValueView::Text(pass),
                        size: pass.len() as u32,
                        attr: 23u32,
                        error: n + 1,
                    },
                    status: 0i32,
                },
                CallView {
                    op: OpView::SessionBegin {
                        service: n + 3,
                        error: n + 1,
                        session: n + 4,
                        credentials: 1u32,
                        mode: 0u32,
                    },
                    status: 0i32,
                },
                CallView {
                    op: OpView::AttrSet {
                        target: n + 3,
                        htype: 3u32,
                        value: AttrValueView::Handle(n + 4),
                        size: 0u32,
                        attr: 7u32,
                        error: n + 1,
                    },
                    status: 0i32,
                },
            ]
        }),
{
    let n = o.log.len() as int;
    let p = connect_setup_plan(n, user, pass, db);
    assert(p.take(0) =~= Seq::<PlanStep>::empty());
    lemma_with_calls_empty(o);
    let m0 = o;
    assert(m0 == with_calls(o, run_delta(o, p.take(0))));
    let m1 = with_calls(m0, step_delta(m0, p[0]));
    assert(spec_next_status(m0) == spec_status_at(o, o.log.len() as int + 0));
    lemma_step_ok(o, p, 0, m0, m1);
    let m2 = with_calls(m1, step_delta(m1, p[1]));
    assert(spec_next_status(m1) == spec_status_at(o, o.log.len() as int + 1));
    lemma_step_ok(o, p, 1, m1, m2);
    let m3 = with_calls(m2, step_delta(m2, p[2]));
    assert(spec_next_status(m2) == spec_status_at(o, o.log.len() as int + 2));
    lemma_step_ok(o, p, 2, m2, m3);
    let m4 = with_calls(m3, step_delta(m3, p[3]));
    assert(spec_next_status(m3) == spec_status_at(o, o.log.len() as int + 3));
    lemma_step_ok(o, p, 3, m3, m4);
    let m5 = with_calls(m4, step_delta(m4, p[4]));
    assert(spec_next_status(m4) == spec_status_at(o, o.log.len() as int + 4));
    lemma_step_ok(o, p, 4, m4, m5);
    let m6 = with_calls(m5, step_delta(m5, p[5]));
    assert(spec_next_status(m5) == spec_status_at(o, o.log.len() as int + 5));
    lemma_step_ok(o, p, 5, m5, m6);
    let m7 = with_calls(m6, step_delta(m6, p[6]));
    assert(spec_next_status(m6) == spec_status_at(o, o.log.len() as int + 6));
    lemma_step_ok(o, p, 6, m6, m7);
    let m8 = with_calls(m7, step_delta(m7, p[7]));
    assert(spec_next_status(m7) == spec_status_at(o, o.log.len() as int + 7));
    lemma_step_ok(o, p, 7, m7, m8);
    let m9 = with_calls(m8, step_delta(m8, p[8]));
    assert(spec_next_status(m8) == spec_status_at(o, o.log.len() as int + 8));
    lemma_step_ok(o, p, 8, m8, m9);
    let m10 = with_calls(m9, step_delta(m9, p[9]));
    assert(spec_next_status(m9) == spec_status_at(o, o.log.len() as int + 9));
    lemma_step_ok(o, p, 9, m9, m10);
    let m11 = with_calls(m10, step_delta(m10, p[10]));
    assert(spec_next_status(m10) == spec_status_at(o, o.log.len() as int + 10));
    lemma_step_ok(o, p, 10, m10, m11);
    assert(p.take(11) =~= p);
    lemma_run_err_stop(o, p);
    assert(run_stop(o, p) == 11);
    lemma_run_complete_len(o, p);
    assert(run_delta(
        with_calls(o, run_delta(o, p)),
        connect_rollback_plan(n, n + 1, n + 2, n + 3, n + 4, run_stop(o, p)),
    ) =~= Seq::<CallView>::empty());
    assert(connect_delta(o, user, pass, db) =~= run_delta(o, p));
    assert(run_delta(o, p.take(0)) =~= Seq::<CallView>::empty());
    assert(run_delta(o, p) == run_delta(o, p.take(11)));
    assert(run_delta(o, p) =~= ({
        let nn = o.log.len() as int;
        seq![
            CallView { op: OpView::EnvNlsCreate { mode: 0u32, handle: nn }, status: 0i32 },
            CallView {
                op: OpView::HandleAlloc { parent: nn, htype: 2u32, handle: nn + 1 },
                status: 0i32,
            },
            CallView {
                op: OpView::HandleAlloc { parent: nn, htype: 8u32, handle: nn + 2 },
                status: 0i32,
            },
            CallView {
                op: OpView::HandleAlloc { parent: nn, htype: 3u32, handle: nn + 3 },
                status: 0i32,
            },
            CallView {
                op: OpView::HandleAlloc { parent: nn, htype: 9u32, handle: nn + 4 },
                status: 0i32,
            },
            CallView {
                op: OpView::ServerAttach { server: nn + 2, error: nn + 1, db, mode: 0u32 },
                status: 0i32,
            },
            CallView {
                op: OpView::AttrSet {
                    target: nn + 3,
                    htype: 3u32,
                    value: AttrValueView::Handle(nn + 2),
                    size: 0u32,
                    attr: 6u32,
                    error: nn + 1,
                },
                status: 0i32,
            },
            CallView {
                op: OpView::AttrSet {
                    target: nn + 4,
                    htype: 9u32,
                    value: AttrValueView::Text(user),
                    size: user.len() as u32,
                    attr: 22u32,
                    error: nn + 1,
                },
                status: 0i32,
            },
            CallView {
                op: OpView::AttrSet {
                    target: nn + 4,
                    htype: 9u32,
                    value: AttrValueView::Text(pass),
                    size: pass.len() as u32,
                    attr: 23u32,
                    error: nn + 1,
                },
                status: 0i32,
            },
            CallView {
                op: OpView::SessionBegin {
                    service: nn + 3,
                    error: nn + 1,
                    session: nn + 4,
                    credentials: 1u32,
                    mode: 0u32,
                },
                status: 0i32,
            },
            CallView {
                op: OpView::AttrSet {
                    target: nn + 3,
                    htype: 3u32,
                    value: AttrValueView::Handle(nn + 4),
                    size: 0u32,
                    attr: 7u32,
                    error: nn + 1,
                },
                status: 0i32,
            },
        ]
    }));
}

} // verus!
