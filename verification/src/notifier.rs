//! The resilient notifier loop, run here against a scripted stand-in for
//! the network stack. Each cycle builds one fresh POST, resolves the
//! destination, connects, and sends; any failure is absorbed as exactly
//! one diagnostic record, and every cycle ends by sleeping for the
//! configured interval. The loop never aborts because one delivery
//! failed: waiting for the next scheduled cycle is the whole resilience
//! strategy.

use crate::errors::{spec_severity, FailureKind, Severity};
use crate::request::{
    build_notification_request, fits_payload, is_notification_request, PostRequest,
};
use crate::resolver::first_record;
use crate::resolver::Ipv4Address;
use vstd::prelude::*;

verus! {

/// The build-time configuration the notifier consumes: destination host
/// and channel, the injected secrets, the constant message, and the
/// delivery period in seconds.
pub struct NotifierConfig {
    pub host: String,
    pub channel_id: String,
    pub token: String,
    pub homepage: String,
    pub version: String,
    pub message: String,
    pub interval_secs: u64,
}

/// Whether `req` is exactly the POST this configuration calls for.
pub open spec fn is_config_request(req: PostRequest, cfg: NotifierConfig) -> bool {
    is_notification_request(
        req,
        cfg.channel_id@,
        cfg.token@,
        cfg.homepage@,
        cfg.version@,
        cfg.message@,
    )
}

/// What the scripted stack does in one cycle: the records its DNS query
/// returns, and whether the connection and the send succeed.
pub struct CycleScript {
    pub records: Vec<Ipv4Address>,
    pub connect_ok: bool,
    pub send_ok: bool,
}

/// A cycle delivers only when resolution yields a record and both the
/// connection and the send go through.
pub open spec fn cycle_succeeds(s: CycleScript) -> bool {
    s.records@.len() > 0 && s.connect_ok && s.send_ok
}

/// The first failure a cycle runs into under this script entry.
pub open spec fn cycle_failure(s: CycleScript) -> FailureKind {
    if s.records@.len() == 0 {
        FailureKind::ResolutionFailed
    } else if !s.connect_ok {
        FailureKind::ConnectFailed
    } else {
        FailureKind::SendFailed
    }
}

/// The scripted stand-in for the shared network stack: `script` drives
/// the outcome of each cycle's network steps, and `posts` records every
/// POST the stub accepted, in order.
pub struct StubStack {
    pub script: Vec<CycleScript>,
    pub cycle: usize,
    pub posts: Vec<PostRequest>,
}

/// One diagnostic log record: the observable side effect of an absorbed
/// failure.
#[derive(Clone, Copy, PartialEq, Eq, Structural, Debug)]
pub struct Diagnostic {
    pub kind: FailureKind,
}

/// What one cycle did: whether the POST was delivered, the diagnostics
/// it logged, and how long it sleeps before the next attempt.
pub struct CycleReport {
    pub posted: bool,
    pub diagnostics: Vec<Diagnostic>,
    pub sleep_secs: u64,
}

/// Run one notification cycle against the stub stack. A fresh request is
/// built every time; on success it is delivered and nothing is logged;
/// on the first failing step exactly one diagnostic is recorded and the
/// rest of the cycle is skipped. Either way the cycle ends by sleeping
/// for the configured interval: a failure never ends the loop.
pub fn notify_cycle(cfg: &NotifierConfig, stack: &mut StubStack) -> (report: CycleReport)
    requires
        old(stack).cycle < old(stack).script.len(),
        fits_payload(cfg.message@),
    ensures
        final (stack).script@ == old(stack).script@,
        final (stack).cycle == old(stack).cycle + 1,
        report.sleep_secs == cfg.interval_secs,
        cycle_succeeds(old(stack).script@[old(stack).cycle as int]) ==> {
            &&& final (stack).posts@.len() == old(stack).posts@.len() + 1
            &&& final (stack).posts@.drop_last() == old(stack).posts@
            &&& is_config_request(final (stack).posts@.last(), *cfg)
            &&& report.posted
            &&& report.diagnostics@.len() == 0
        },
        !cycle_succeeds(old(stack).script@[old(stack).cycle as int]) ==> {
            &&& final (stack).posts@ == old(stack).posts@
            &&& !report.posted
            &&& report.diagnostics@.len() == 1
            &&& report.diagnostics@[0].kind == cycle_failure(
                old(stack).script@[old(stack).cycle as int],
            )
        },
{
    // an ephemeral request, built fresh each cycle and discarded with it
    let req = build_notification_request(
        cfg.channel_id.as_str(),
        cfg.token.as_str(),
        cfg.homepage.as_str(),
        cfg.version.as_str(),
        cfg.message.as_str(),
    );
    let mut diagnostics: Vec<Diagnostic> = Vec::new();
    let mut posted = false;
    let idx = stack.cycle;
    // resolve the destination host through the adapter
    let resolved = first_record(&stack.script[idx].records);
    match resolved {
        Err(_) => {
            diagnostics.push(Diagnostic { kind: FailureKind::ResolutionFailed });
        },
        Ok(_address) => {
            if !stack.script[idx].connect_ok {
                diagnostics.push(Diagnostic { kind: FailureKind::ConnectFailed });
            } else if !stack.script[idx].send_ok {
                diagnostics.push(Diagnostic { kind: FailureKind::SendFailed });
            } else {
                stack.posts.push(req);
                posted = true;
            }
        },
    }
    stack.cycle = idx + 1;
    proof {
        if cycle_succeeds(old(stack).script@[idx as int]) {
            assert(stack.posts@.drop_last() =~= old(stack).posts@);
        }
    }
    CycleReport { posted, diagnostics, sleep_secs: cfg.interval_secs }
}

/// How many of the `n` script entries starting at `from` succeed.
pub open spec fn successes(script: Seq<CycleScript>, from: int, n: int) -> int
    decreases n,
{
    if n <= 0 {
        0
    } else {
        successes(script, from, n - 1) + (if cycle_succeeds(script[from + n - 1]) {
            1int
        } else {
            0int
        })
    }
}

/// Run `n` consecutive notifier cycles. The loop never stops early: all
/// `n` cycles run whatever the earlier ones did, every cycle sleeps for
/// the configured interval, a failing cycle logs exactly one diagnostic
/// naming its first failing step, and every delivered POST is exactly
/// the one the configuration calls for — the message is constant, so the
/// posts are identical.
pub fn run_cycles(cfg: &NotifierConfig, stack: &mut StubStack, n: usize) -> (reports: Vec<
    CycleReport,
>)
    requires
        old(stack).cycle + n <= old(stack).script.len(),
        fits_payload(cfg.message@),
    ensures
        final (stack).script@ == old(stack).script@,
        final (stack).cycle == old(stack).cycle + n,
        reports@.len() == n,
        forall|t: int|
            0 <= t < n as int ==> (#[trigger] reports@[t]).sleep_secs == cfg.interval_secs,
        forall|t: int|
            0 <= t < n as int ==> ((#[trigger] reports@[t]).posted <==> cycle_succeeds(
                old(stack).script@[old(stack).cycle + t],
            )),
        forall|t: int|
            0 <= t < n as int ==> (#[trigger] reports@[t]).diagnostics@.len() == (
            if cycle_succeeds(old(stack).script@[old(stack).cycle + t]) {
                0int
            } else {
                1int
            }),
        forall|t: int|
            0 <= t < n as int && !cycle_succeeds(old(stack).script@[old(stack).cycle + t])
                ==> (#[trigger] reports@[t]).diagnostics@[0].kind == cycle_failure(
                old(stack).script@[old(stack).cycle + t],
            ),
        final (stack).posts@.len() == old(stack).posts@.len() + successes(
            old(stack).script@,
            old(stack).cycle as int,
            n as int,
        ),
        final (stack).posts@.subrange(0, old(stack).posts@.len() as int) == old(stack).posts@,
        forall|p: int|
            old(stack).posts@.len() <= p < final (stack).posts@.len() ==> is_config_request(
                #[trigger] final (stack).posts@[p],
                *cfg,
            ),
{
    let ghost c0 = old(stack).cycle as int;
    let ghost p0 = old(stack).posts@.len() as int;
    let mut reports: Vec<CycleReport> = Vec::new();
    let mut k: usize = 0;
    while k < n
        invariant
            k <= n,
            fits_payload(cfg.message@),
            stack.script@ == old(stack).script@,
            c0 == old(stack).cycle as int,
            p0 == old(stack).posts@.len() as int,
            stack.cycle as int == c0 + k as int,
            c0 + n as int <= stack.script.len(),
            reports@.len() == k,
            forall|t: int|
                0 <= t < k as int ==> (#[trigger] reports@[t]).sleep_secs == cfg.interval_secs,
            forall|t: int|
                0 <= t < k as int ==> ((#[trigger] reports@[t]).posted <==> cycle_succeeds(
                    old(stack).script@[c0 + t],
                )),
            forall|t: int|
                0 <= t < k as int ==> (#[trigger] reports@[t]).diagnostics@.len() == (
                if cycle_succeeds(old(stack).script@[c0 + t]) {
                    0int
                } else {
                    1int
                }),
            forall|t: int|
                0 <= t < k as int && !cycle_succeeds(old(stack).script@[c0 + t])
                    ==> (#[trigger] reports@[t]).diagnostics@[0].kind == cycle_failure(
                    old(stack).script@[c0 + t],
                ),
            stack.posts@.len() == p0 + successes(old(stack).script@, c0, k as int),
            stack.posts@.subrange(0, p0) == old(stack).posts@,
            forall|p: int|
                p0 <= p < stack.posts@.len() ==> is_config_request(
                    #[trigger] stack.posts@[p],
                    *cfg,
                ),
        decreases n - k,
    {
        let ghost pre_posts = stack.posts@;
        proof {
            lemma_success_count_bounds(old(stack).script@, c0, k as int);
        }
        let report = notify_cycle(cfg, stack);
        reports.push(report);
        proof {
            assert(successes(old(stack).script@, c0, k as int + 1) == successes(
                old(stack).script@,
                c0,
                k as int,
            ) + (if cycle_succeeds(old(stack).script@[c0 + k as int]) {
                1int
            } else {
                0int
            }));
            if cycle_succeeds(old(stack).script@[c0 + k as int]) {
                assert(stack.posts@.drop_last() == pre_posts);
                assert(stack.posts@ =~= pre_posts.push(stack.posts@.last()));
                assert(stack.posts@.subrange(0, p0) =~= pre_posts.subrange(0, p0));
            }
        }
        k += 1;
    }
    reports
}

/// A window of `n` cycles delivers at least none and at most `n` POSTs.
pub proof fn lemma_success_count_bounds(script: Seq<CycleScript>, from: int, n: int)
    requires
        0 <= n,
    ensures
        0 <= successes(script, from, n) <= n,
    decreases n,
{
    if n > 0 {
        lemma_success_count_bounds(script, from, n - 1);
    }
}

/// When every scripted cycle in the window succeeds, the success count
/// is the cycle count: with the contract of `run_cycles` this says that
/// `n` consecutive cycles against an always-succeeding stub deliver
/// exactly `n` POSTs, all of them the configuration's identical request.
pub proof fn lemma_all_cycles_succeed(script: Seq<CycleScript>, from: int, n: int)
    requires
        0 <= n,
        forall|t: int| from <= t < from + n ==> cycle_succeeds(#[trigger] script[t]),
    ensures
        successes(script, from, n) == n,
    decreases n,
{
    if n > 0 {
        lemma_all_cycles_succeed(script, from, n - 1);
        assert(cycle_succeeds(script[from + n - 1]));
    }
}

/// Every failure a delivery cycle can log is recoverable and ignored:
/// the loop carries on, and nothing a cycle runs into is fatal.
pub proof fn lemma_cycle_failures_recoverable(s: CycleScript)
    ensures
        spec_severity(cycle_failure(s)) == Severity::RecoverableIgnored,
{
}

} // verus!
