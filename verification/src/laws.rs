//! Laws that span several transitions of the engine.

use vstd::prelude::*;

use crate::classify::classify_spec;
use crate::classify::error_indicator;
use crate::classify::invalid_captcha_marker;
use crate::classify::LoginOutcome;
use crate::engine::completes;
use crate::engine::login_begin_rel;
use crate::engine::probe_success;
use crate::engine::step_probing_rel;
use crate::engine::step_rel;
use crate::engine::step_submitting_rel;
use crate::engine::LoginAction;
use crate::engine::LoginEvent;
use crate::engine::VtopClient;
use crate::errors::VtopError;
use crate::MAX_CAP_TRY;
use crate::MAX_RELOAD_ATTEMPTS;

verus! {

/// Law: a non-empty cookie blob exported from a session and imported back
/// unchanged sends `login` down the external-cookie probe path, and one
/// successful probe response completes the exchange authenticated — two page
/// fetches in all, no captcha solved and no form submitted.
pub proof fn lemma_cookie_round_trip(
    exported: Seq<u8>,
    imported: VtopClient,
    started: VtopClient,
    first: LoginAction,
    ev: LoginEvent,
    finished: VtopClient,
    second: LoginAction,
)
    requires
        exported.len() > 0,
        imported.session.cookie@ == exported,
        imported.session.external_cookie,
        login_begin_rel(imported, started, first),
        probe_success(ev),
        step_probing_rel(started, ev, finished, second),
    ensures
        started.phase is Probing,
        first matches LoginAction::FetchPage { .. },
        second == LoginAction::Complete(Ok::<(), VtopError>(())),
        finished.session.authenticated,
        !finished.session.external_cookie,
{
}

/// Law: once `MAX_CAP_TRY` submissions are spent, a further rejected captcha
/// ends the exchange with the terminal max-attempts failure instead of a new
/// cycle.
pub proof fn lemma_attempt_budget_exhausted(
    pre: VtopClient,
    ev: LoginEvent,
    post: VtopClient,
    act: LoginAction,
)
    requires
        pre.attempts == MAX_CAP_TRY,
        step_submitting_rel(pre, ev, post, act),
        (ev matches LoginEvent::HttpOk(r) && classify_spec(r.final_url@, r.body@)
            == LoginOutcome::CaptchaRetry),
    ensures
        post.phase is Idle,
        (act matches LoginAction::Complete(res) && (res matches Err(e) && (
        e matches VtopError::AuthenticationFailed(m) && m@ == "Max login attempts exceeded"@))),
{
}

/// Law: a response carrying the "Invalid Captcha" marker with budget
/// remaining starts a new captcha cycle, with the pending page and challenge
/// discarded — it is never treated as a credential failure.
pub proof fn lemma_rejected_captcha_retries(
    pre: VtopClient,
    ev: LoginEvent,
    post: VtopClient,
    act: LoginAction,
)
    requires
        pre.attempts < MAX_CAP_TRY,
        pre.session.csrf_token is Some,
        step_submitting_rel(pre, ev, post, act),
        (ev matches LoginEvent::HttpOk(r) && invalid_captcha_marker(r.body@) && error_indicator(
            r.final_url@,
            r.body@,
        )),
    ensures
        post.phase is AwaitingCaptchaPage,
        act matches LoginAction::PostPrelogin { .. },
        post.captcha_data is None,
        post.current_page is None,
        !(act matches LoginAction::Complete(res) && res == Err::<(), VtopError>(
            VtopError::InvalidCredentials,
        )),
{
}

/// Law: a credential mismatch ends the exchange at once, whatever attempt
/// budget remains.
pub proof fn lemma_bad_credentials_terminal(
    pre: VtopClient,
    ev: LoginEvent,
    post: VtopClient,
    act: LoginAction,
)
    requires
        step_submitting_rel(pre, ev, post, act),
        (ev matches LoginEvent::HttpOk(r) && classify_spec(r.final_url@, r.body@)
            == LoginOutcome::BadCredentials),
    ensures
        completes(post, act, Err(VtopError::InvalidCredentials)),
{
}

/// A submission action counts one; everything else counts zero.
pub open spec fn count_one(act: LoginAction) -> int {
    if act is SubmitLogin {
        1
    } else {
        0
    }
}

/// How many login-form submissions a run of actions makes.
pub open spec fn count_submissions(acts: Seq<LoginAction>) -> int
    decreases acts.len(),
{
    if acts.len() == 0 {
        0
    } else {
        count_submissions(acts.drop_last()) + count_one(acts.last())
    }
}

/// The state the `n`-th event of a run is answered from.
pub open spec fn state_before(c0: VtopClient, cs: Seq<VtopClient>, n: int) -> VtopClient {
    if n == 0 {
        c0
    } else {
        cs[n - 1]
    }
}

/// The state a run ends in.
pub open spec fn run_end(c0: VtopClient, cs: Seq<VtopClient>) -> VtopClient {
    if cs.len() == 0 {
        c0
    } else {
        cs.last()
    }
}

/// A run of the machine from `c0`: each event fits the phase it answers, and
/// each step satisfies the transition relation and the invariant — exactly
/// what `login_event` requires and ensures at each call.
pub open spec fn chained_run(
    c0: VtopClient,
    evs: Seq<LoginEvent>,
    cs: Seq<VtopClient>,
    acts: Seq<LoginAction>,
) -> bool {
    &&& cs.len() == evs.len()
    &&& acts.len() == evs.len()
    &&& forall|n: int|
        0 <= n < evs.len() ==> {
            &&& state_before(c0, cs, n).event_fits(#[trigger] evs[n])
            &&& step_rel(state_before(c0, cs, n), evs[n], cs[n], acts[n])
            &&& cs[n].wf()
        }
}

/// One step moves the attempt counter by exactly the submissions it makes,
/// and never past the budget.
pub proof fn lemma_step_attempts(
    pre: VtopClient,
    ev: LoginEvent,
    post: VtopClient,
    act: LoginAction,
)
    requires
        pre.wf(),
        pre.event_fits(ev),
        step_rel(pre, ev, post, act),
    ensures
        post.attempts == pre.attempts + count_one(act),
        post.attempts <= MAX_CAP_TRY,
{
}

/// Law: the prelogin reload counter rises by one on each captcha-less
/// reload, only ever below its cap, and every fresh entry into the reload
/// loop resets it to zero: a single cycle therefore answers at most
/// `MAX_RELOAD_ATTEMPTS` prelogin POSTs before it either consumes a captcha
/// page or proceeds with the state it has.
pub proof fn lemma_reload_budget(
    pre: VtopClient,
    ev: LoginEvent,
    post: VtopClient,
    act: LoginAction,
)
    requires
        pre.wf(),
        pre.event_fits(ev),
        step_rel(pre, ev, post, act),
        post.phase is AwaitingCaptchaPage,
    ensures
        post.reloads < MAX_RELOAD_ATTEMPTS,
        pre.phase is AwaitingCaptchaPage ==> post.reloads == pre.reloads + 1,
        !(pre.phase is AwaitingCaptchaPage) ==> post.reloads == 0,
{
}

/// Law: over any run of the machine, the number of login-form submissions is
/// exactly the growth of the attempt counter; a run that `login` began, with
/// the counter reset to zero, therefore submits the form at most
/// `MAX_CAP_TRY` times, whatever events arrive.
pub proof fn lemma_run_budget(
    c0: VtopClient,
    evs: Seq<LoginEvent>,
    cs: Seq<VtopClient>,
    acts: Seq<LoginAction>,
)
    requires
        c0.wf(),
        chained_run(c0, evs, cs, acts),
    ensures
        run_end(c0, cs).wf(),
        count_submissions(acts) == run_end(c0, cs).attempts - c0.attempts,
        c0.attempts == 0 ==> count_submissions(acts) <= MAX_CAP_TRY,
    decreases evs.len(),
{
    if evs.len() > 0 {
        let n = evs.len() - 1;
        let evs0 = evs.drop_last();
        let cs0 = cs.drop_last();
        let acts0 = acts.drop_last();
        assert(chained_run(c0, evs0, cs0, acts0)) by {
            assert forall|m: int| 0 <= m < evs0.len() implies {
                &&& state_before(c0, cs0, m).event_fits(#[trigger] evs0[m])
                &&& step_rel(state_before(c0, cs0, m), evs0[m], cs0[m], acts0[m])
                &&& cs0[m].wf()
            } by {
                assert(state_before(c0, cs0, m) == state_before(c0, cs, m));
                assert(evs0[m] == evs[m] && cs0[m] == cs[m] && acts0[m] == acts[m]);
            }
        }
        lemma_run_budget(c0, evs0, cs0, acts0);
        let pre = state_before(c0, cs, n as int);
        assert(pre.wf()) by {
            if n > 0 {
                assert(evs[n - 1] == evs[n - 1]);
                assert(cs[n - 1].wf());
            }
        }
        assert(pre == run_end(c0, cs0));
        assert(pre.event_fits(evs[n as int]) && step_rel(pre, evs[n as int], cs[n as int], acts[n as int]));
        lemma_step_attempts(pre, evs[n as int], cs[n as int], acts[n as int]);
        assert(run_end(c0, cs) == cs[n as int]);
        assert(acts.last() == acts[n as int]);
    }
}

} // verus!
