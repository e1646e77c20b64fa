//! The leaf of the resource hierarchy: the prepared statement.
//!
//! A [`Statement`] owns a prepared statement handle and the cache key
//! it was filed under: a fixed-width content hash of the statement
//! text, so that preparing identical text twice always yields the same
//! key, and release targets exactly the slot prepare used. Executing
//! runs with an iteration count of zero rows; teardown releases the
//! statement under its original key, then tears the connection down.

use vstd::prelude::*;

use crate::conn::{conn_teardown_plan, Connection};
use crate::ffi::{
    config_unchanged, err_of, lemma_run_singleton, oci_stmt_execute,
    oci_stmt_prepare2, plan_handle_free, plan_server_detach, plan_session_end, plan_stmt_execute,
    plan_stmt_prepare2, plan_stmt_release, run_delta, run_err, run_stop, run_teardown,
    step_delta, teardown_plan_of, with_calls, CallView, ErrView,
    OCIHandleType, OCIStmt, Oci, OciModel, OpView, OracleError, PlanStep, TeardownStep,
};

verus! {

/// The hash's starting value.
pub const FNV_OFFSET: u64 = 0xcbf29ce484222325;

/// The hash's multiplier.
pub const FNV_PRIME: u64 = 0x100000001b3;

/// One step of the content hash: fold the next character in, then
/// multiply, wrapping at the word size.
pub open spec fn fnv1a_step(h: u64, c: char) -> u64 {
    vstd::wrapping::u64_specs::wrapping_mul(h ^ (c as u64), FNV_PRIME)
}

/// The content hash of the first `i` characters.
pub open spec fn fnv1a_acc(s: Seq<char>, i: int) -> u64
    decreases i,
{
    if i <= 0 {
        FNV_OFFSET
    } else {
        fnv1a_step(fnv1a_acc(s, i - 1), s[i - 1])
    }
}

/// The content hash of a whole text.
pub open spec fn spec_fnv1a(s: Seq<char>) -> u64 {
    fnv1a_acc(s, s.len() as int)
}

/// The sixteen hexadecimal digits.
pub open spec fn hex_digit(v: u64) -> char {
    if v == 0 {
        '0'
    } else if v == 1 {
        '1'
    } else if v == 2 {
        '2'
    } else if v == 3 {
        '3'
    } else if v == 4 {
        '4'
    } else if v == 5 {
        '5'
    } else if v == 6 {
        '6'
    } else if v == 7 {
        '7'
    } else if v == 8 {
        '8'
    } else if v == 9 {
        '9'
    } else if v == 10 {
        'a'
    } else if v == 11 {
        'b'
    } else if v == 12 {
        'c'
    } else if v == 13 {
        'd'
    } else if v == 14 {
        'e'
    } else {
        'f'
    }
}

/// A word rendered as sixteen hexadecimal digits, most significant
/// first.
pub open spec fn spec_hex16(h: u64) -> Seq<char> {
    Seq::new(16, |j: int| hex_digit((h >> (((15 - j) * 4) as u64)) & 0xf))
}

/// The cache key a statement text is filed under: the fixed-width
/// content hash of the text, rendered in hexadecimal. Identical text
/// always yields an identical key.
pub open spec fn spec_cache_key(text: Seq<char>) -> Seq<char> {
    spec_hex16(spec_fnv1a(text))
}

/// Computes the cache key of a statement text.
pub fn cache_key(text: &str) -> (r: String)
    ensures
        r@ == spec_cache_key(text@),
{
    let len = text.unicode_len();
    let mut h: u64 = FNV_OFFSET;
    let mut i: usize = 0;
    while i < len
        invariant
            i <= len,
            len == text@.len(),
            h == fnv1a_acc(text@, i as int),
        decreases len - i,
    {
        let c = text.get_char(i);
        h = (h ^ (c as u64)).wrapping_mul(FNV_PRIME);
        i = i + 1;
    }
    let mut out = String::new();
    let mut j: usize = 0;
    while j < 16
        invariant
            j <= 16,
            h == spec_fnv1a(text@),
            out@ == spec_hex16(h).take(j as int),
        decreases 16 - j,
    {
        let shift: u64 = ((15 - j) * 4) as u64;
        let nib: u64 = (h >> shift) & 0xf;
        let digit: &str = if nib == 0 {
            "0"
        } else if nib == 1 {
            "1"
        } else if nib == 2 {
            "2"
        } else if nib == 3 {
            "3"
        } else if nib == 4 {
            "4"
        } else if nib == 5 {
            "5"
        } else if nib == 6 {
            "6"
        } else if nib == 7 {
            "7"
        } else if nib == 8 {
            "8"
        } else if nib == 9 {
            "9"
        } else if nib == 10 {
            "a"
        } else if nib == 11 {
            "b"
        } else if nib == 12 {
            "c"
        } else if nib == 13 {
            "d"
        } else if nib == 14 {
            "e"
        } else {
            "f"
        };
        proof {
            reveal_strlit("0");
            reveal_strlit("1");
            reveal_strlit("2");
            reveal_strlit("3");
            reveal_strlit("4");
            reveal_strlit("5");
            reveal_strlit("6");
            reveal_strlit("7");
            reveal_strlit("8");
            reveal_strlit("9");
            reveal_strlit("a");
            reveal_strlit("b");
            reveal_strlit("c");
            reveal_strlit("d");
            reveal_strlit("e");
            reveal_strlit("f");
            assert(nib == (h >> (((15 - j as int) * 4) as u64)) & 0xf);
            assert(digit@ =~= seq![hex_digit(nib)]);
        }
        out.append(digit);
        proof {
            assert(out@ =~= spec_hex16(h).take(j as int + 1));
        }
        j = j + 1;
    }
    proof {
        assert(spec_hex16(h).take(16) =~= spec_hex16(h));
    }
    out
}

/// The one call a statement build makes: the prepare, keyed by the
/// text's cache key. `n` is the call's position in the log.
pub open spec fn stmt_create_plan(
    n: int,
    service: int,
    error: int,
    text: Seq<char>,
) -> Seq<PlanStep> {
    seq![plan_stmt_prepare2(n, service, error, text, spec_cache_key(text))]
}

/// The calls a statement teardown makes: release the statement under
/// its key, then the connection teardown in reverse dependency order.
pub open spec fn stmt_teardown_plan(
    env: int,
    error: int,
    server: int,
    service: int,
    session: int,
    stmt: int,
    key: Seq<char>,
) -> Seq<PlanStep> {
    seq![
        plan_stmt_release(stmt, error, key),
        plan_session_end(service, error, session),
        plan_server_detach(server, error),
        plan_handle_free(session, 9u32),
        plan_handle_free(service, 3u32),
        plan_handle_free(server, 8u32),
        plan_handle_free(error, 2u32),
        plan_handle_free(env, 1u32),
    ]
}

/// Every record a statement build appends: the prepare, and — where it
/// fails — the full teardown of the connection that was moved in.
pub open spec fn stmt_create_delta(o: OciModel, c: Connection, text: Seq<char>) -> Seq<CallView> {
    let n = o.log.len() as int;
    let plan = stmt_create_plan(
        n,
        c.service_handle.raw as int,
        c.env.error_handle.raw as int,
        text,
    );
    let d = run_delta(o, plan);
    d + run_delta(
        with_calls(o, d),
        if run_stop(o, plan) == 1 {
            Seq::<PlanStep>::empty()
        } else {
            conn_teardown_plan(
                c.env.handle.raw as int,
                c.env.error_handle.raw as int,
                c.server_handle.raw as int,
                c.service_handle.raw as int,
                c.session_handle.raw as int,
            )
        },
    )
}

/// A statement build's outcome: `None` when the prepare succeeds,
/// otherwise its translated error.
pub open spec fn stmt_create_err(o: OciModel, c: Connection, text: Seq<char>) -> Option<ErrView> {
    run_err(
        o,
        stmt_create_plan(
            o.log.len() as int,
            c.service_handle.raw as int,
            c.env.error_handle.raw as int,
            text,
        ),
    )
}

/// A prepared statement: the connection it was prepared on, its
/// native handle, and the cache key it was filed under.
#[derive(Debug)]
pub struct Statement {
    pub conn: Connection,
    pub stmt_handle: OCIStmt,
    pub stmt_hash: String,
}

/// Every record an execute appends: the execute call, and — where it
/// fails — the full teardown of the statement and its connection.
pub open spec fn stmt_execute_delta(o: OciModel, st: Statement) -> Seq<CallView> {
    let plan = seq![
        plan_stmt_execute(
            st.conn.service_handle.raw as int,
            st.stmt_handle.raw as int,
            st.conn.env.error_handle.raw as int,
        ),
    ];
    let d = run_delta(o, plan);
    d + run_delta(
        with_calls(o, d),
        if run_stop(o, plan) == 1 {
            Seq::<PlanStep>::empty()
        } else {
            stmt_teardown_plan(
                st.conn.env.handle.raw as int,
                st.conn.env.error_handle.raw as int,
                st.conn.server_handle.raw as int,
                st.conn.service_handle.raw as int,
                st.conn.session_handle.raw as int,
                st.stmt_handle.raw as int,
                st.stmt_hash@,
            )
        },
    )
}

/// An execute's outcome: `None` on success, otherwise its translated
/// error.
pub open spec fn stmt_execute_err(o: OciModel, st: Statement) -> Option<ErrView> {
    run_err(
        o,
        seq![
            plan_stmt_execute(
                st.conn.service_handle.raw as int,
                st.stmt_handle.raw as int,
                st.conn.env.error_handle.raw as int,
            ),
        ],
    )
}

impl Statement {
    /// Prepares a statement from its text on the given connection,
    /// filing it in the statement cache under the text's cache key.
    /// The connection moves into the statement; where the prepare
    /// fails, the connection is torn down before the error returns.
    pub fn new(oci: &mut Oci, conn: Connection, stmt_text: String) -> (r: Result<
        Statement,
        OracleError,
    >)
        ensures
            config_unchanged(old(oci)@, final(oci)@),
            final(oci)@.log == old(oci)@.log + stmt_create_delta(old(oci)@, conn, stmt_text@),
            err_of(r) == stmt_create_err(old(oci)@, conn, stmt_text@),
            r matches Ok(st) ==> {
                &&& st.conn == conn
                &&& st.stmt_handle.raw == old(oci)@.log.len()
                &&& st.stmt_hash@ == spec_cache_key(stmt_text@)
            },
    {
        let ghost pre = oci@;
        let ghost conng = conn;
        let ghost textv = stmt_text@;
        let ghost plan = stmt_create_plan(
            pre.log.len() as int,
            conn.service_handle.raw as int,
            conn.env.error_handle.raw as int,
            textv,
        );
        let stmt_hash = cache_key(stmt_text.as_str());
        match oci_stmt_prepare2(oci, &conn.service_handle, &conn.env.error_handle, &stmt_text, &stmt_hash) {
            Ok(h) => {
                proof {
                    lemma_run_singleton(pre, plan[0]);
                    assert(run_delta(
                        with_calls(pre, run_delta(pre, plan)),
                        Seq::<PlanStep>::empty(),
                    ) =~= Seq::<CallView>::empty());
                    assert(oci@.log =~= pre.log + stmt_create_delta(pre, conng, textv));
                }
                Ok(Statement { conn, stmt_handle: h, stmt_hash })
            },
            Err(e) => {
                proof {
                    lemma_run_singleton(pre, plan[0]);
                }
                let ghost ofail = oci@;
                // The prepare failed: the connection that was moved in
                // is torn down, then the prepare's error comes back.
                let _unwound = conn.close(oci);
                proof {
                    assert(ofail == with_calls(pre, run_delta(pre, plan)));
                    assert(oci@.log =~= pre.log + stmt_create_delta(pre, conng, textv));
                }
                Err(e)
            },
        }
    }

    /// Executes the prepared statement with an iteration count of
    /// zero rows, handing the statement back for chaining. Where the
    /// execute fails, the statement is released and its connection
    /// torn down before the error returns.
    pub fn execute(self, oci: &mut Oci) -> (r: Result<Statement, OracleError>)
        ensures
            config_unchanged(old(oci)@, final(oci)@),
            final(oci)@.log == old(oci)@.log + stmt_execute_delta(old(oci)@, self),
            err_of(r) == stmt_execute_err(old(oci)@, self),
            r matches Ok(st) ==> st == self,
    {
        let ghost pre = oci@;
        let ghost selfg = self;
        let ghost plan = seq![
            plan_stmt_execute(
                self.conn.service_handle.raw as int,
                self.stmt_handle.raw as int,
                self.conn.env.error_handle.raw as int,
            ),
        ];
        match oci_stmt_execute(
            oci,
            &self.conn.service_handle,
            &self.stmt_handle,
            &self.conn.env.error_handle,
        ) {
            Ok(_) => {
                proof {
                    lemma_run_singleton(pre, plan[0]);
                    assert(run_delta(
                        with_calls(pre, run_delta(pre, plan)),
                        Seq::<PlanStep>::empty(),
                    ) =~= Seq::<CallView>::empty());
                    assert(oci@.log =~= pre.log + stmt_execute_delta(pre, selfg));
                }
                Ok(self)
            },
            Err(e) => {
                proof {
                    lemma_run_singleton(pre, plan[0]);
                }
                let ghost ofail = oci@;
                // The execute failed: release the statement and tear
                // the connection down, then report the execute's error.
                let _unwound = self.close(oci);
                proof {
                    assert(ofail == with_calls(pre, run_delta(pre, plan)));
                    assert(oci@.log =~= pre.log + stmt_execute_delta(pre, selfg));
                }
                Err(e)
            },
        }
    }

    /// Tears the statement down: releases it under precisely the key
    /// it was prepared with, then tears the connection down, stopping
    /// at the first failing call and returning its error. A failed
    /// release is a fatal condition; the caller's shell is expected
    /// to terminate on it.
    pub fn close(self, oci: &mut Oci) -> (r: Result<(), OracleError>)
        ensures
            config_unchanged(old(oci)@, final(oci)@),
            final(oci)@.log == old(oci)@.log + run_delta(
                old(oci)@,
                stmt_teardown_plan(
                    self.conn.env.handle.raw as int,
                    self.conn.env.error_handle.raw as int,
                    self.conn.server_handle.raw as int,
                    self.conn.service_handle.raw as int,
                    self.conn.session_handle.raw as int,
                    self.stmt_handle.raw as int,
                    self.stmt_hash@,
                ),
            ),
            err_of(r) == run_err(
                old(oci)@,
                stmt_teardown_plan(
                    self.conn.env.handle.raw as int,
                    self.conn.env.error_handle.raw as int,
                    self.conn.server_handle.raw as int,
                    self.conn.service_handle.raw as int,
                    self.conn.session_handle.raw as int,
                    self.stmt_handle.raw as int,
                    self.stmt_hash@,
                ),
            ),
    {
        let ghost selfg = self;
        let mut steps: Vec<TeardownStep> = Vec::new();
        steps.push(
            TeardownStep::StmtRelease {
                stmt: self.stmt_handle.raw,
                error: self.conn.env.error_handle.raw,
                key: self.stmt_hash,
            },
        );
        steps.push(
            TeardownStep::SessionEnd {
                service: self.conn.service_handle.raw,
                error: self.conn.env.error_handle.raw,
                session: self.conn.session_handle.raw,
            },
        );
        steps.push(
            TeardownStep::ServerDetach {
                server: self.conn.server_handle.raw,
                error: self.conn.env.error_handle.raw,
            },
        );
        steps.push(
            TeardownStep::HandleFree {
                handle: self.conn.session_handle.raw,
                htype: OCIHandleType::Session,
            },
        );
        steps.push(
            TeardownStep::HandleFree {
                handle: self.conn.service_handle.raw,
                htype: OCIHandleType::Service,
            },
        );
        steps.push(
            TeardownStep::HandleFree {
                handle: self.conn.server_handle.raw,
                htype: OCIHandleType::Server,
            },
        );
        steps.push(
            TeardownStep::HandleFree {
                handle: self.conn.env.error_handle.raw,
                htype: OCIHandleType::Error,
            },
        );
        steps.push(
            TeardownStep::HandleFree {
                handle: self.conn.env.handle.raw,
                htype: OCIHandleType::Environment,
            },
        );
        proof {
            assert(teardown_plan_of(steps@) =~= stmt_teardown_plan(
                selfg.conn.env.handle.raw as int,
                selfg.conn.env.error_handle.raw as int,
                selfg.conn.server_handle.raw as int,
                selfg.conn.service_handle.raw as int,
                selfg.conn.session_handle.raw as int,
                selfg.stmt_handle.raw as int,
                selfg.stmt_hash@,
            ));
        }
        run_teardown(oci, &steps)
    }
}

/// Preparing the same text twice files it under the same cache key,
/// whatever connections the two preparations run on and wherever in
/// their call histories they happen — and that key is the text's
/// content key.
pub proof fn lemma_prepare_key_deterministic(
    o1: OciModel,
    c1: Connection,
    o2: OciModel,
    c2: Connection,
    text: Seq<char>,
)
    ensures
        ({
            let d1 = stmt_create_delta(o1, c1, text);
            let d2 = stmt_create_delta(o2, c2, text);
            match (d1[0].op, d2[0].op) {
                (
                    OpView::StmtPrepare2 { key: k1, text: t1, .. },
                    OpView::StmtPrepare2 { key: k2, text: t2, .. },
                ) => k1 == k2 && k1 == spec_cache_key(text) && t1 == text && t2 == text,
                _ => false,
            }
        }),
{
    let p1 = stmt_create_plan(
        o1.log.len() as int,
        c1.service_handle.raw as int,
        c1.env.error_handle.raw as int,
        text,
    );
    let p2 = stmt_create_plan(
        o2.log.len() as int,
        c2.service_handle.raw as int,
        c2.env.error_handle.raw as int,
        text,
    );
    lemma_run_singleton(o1, p1[0]);
    lemma_run_singleton(o2, p2[0]);
    assert(stmt_create_delta(o1, c1, text)[0] == step_delta(o1, p1[0])[0]);
    assert(stmt_create_delta(o2, c2, text)[0] == step_delta(o2, p2[0])[0]);
}

/// A statement teardown's first call releases the statement under
/// precisely the key the statement carries — the key it was prepared
/// under — whatever the native layer's state and answers are.
pub proof fn lemma_release_uses_prepared_key(o: OciModel, st: Statement)
    ensures
        ({
            let d = run_delta(
                o,
                stmt_teardown_plan(
                    st.conn.env.handle.raw as int,
                    st.conn.env.error_handle.raw as int,
                    st.conn.server_handle.raw as int,
                    st.conn.service_handle.raw as int,
                    st.conn.session_handle.raw as int,
                    st.stmt_handle.raw as int,
                    st.stmt_hash@,
                ),
            );
            match d[0].op {
                OpView::StmtRelease { key, stmt, .. } => key == st.stmt_hash@ && stmt
                    == st.stmt_handle.raw as int,
                _ => false,
            }
        }),
{
    let p = stmt_teardown_plan(
        st.conn.env.handle.raw as int,
        st.conn.env.error_handle.raw as int,
        st.conn.server_handle.raw as int,
        st.conn.service_handle.raw as int,
        st.conn.session_handle.raw as int,
        st.stmt_handle.raw as int,
        st.stmt_hash@,
    );
    assert(run_delta(o, p)[0] == step_delta(o, p[0])[0]);
}

} // verus!
