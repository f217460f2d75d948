//! The decisions of the monitoring loop: when a target is due, what follows
//! a check's outcome, and how long an idle loop pauses.

use vstd::prelude::*;
use vstd::string::*;
use crate::log::LogLevel;
use crate::monitor::{MonitorAction, action_for_kind, outcome_view};
use crate::prog_settings::MonitorTarget;

verus! {

/// Whether a target is due, or how long to wait before it is.
#[derive(Copy, Clone, Debug, PartialEq, Eq)]
pub enum RunPlan {
    /// The check interval has passed: run the check now.
    Run,
    /// The interval has not passed; the value is the number of whole
    /// seconds left, which becomes the pause of a `Sleep` action.
    Wait(i64),
}

/// The plan at time `now` (milliseconds) for a target last run at `last`,
/// checked every `interval` seconds: run once `interval` seconds have
/// passed, else wait the whole seconds that are left.
pub open spec fn plan_spec(now: int, last: int, interval: int) -> RunPlan {
    let delay = now - last;
    if interval * 1000 <= delay {
        RunPlan::Run
    } else {
        RunPlan::Wait(((interval * 1000 - delay) / 1000) as i64)
    }
}

/// Decides whether a target checked every `interval_secs` seconds and last
/// run at `last_ran_ms` is due at `now_ms` (both in milliseconds).
pub fn plan_run(now_ms: i64, last_ran_ms: i64, interval_secs: i32) -> (r: RunPlan)
    ensures
        r == plan_spec(now_ms as int, last_ran_ms as int, interval_secs as int),
{
    let delay: i128 = now_ms as i128 - last_ran_ms as i128;
    let interval_ms: i128 = interval_secs as i128 * 1000;
    if interval_ms <= delay {
        RunPlan::Run
    } else {
        let left: i128 = (interval_ms - delay) / 1000;
        assert(0 < interval_ms - delay <= 2147483648000 + 18446744073709551615);
        assert(left <= 18448891557357551);
        RunPlan::Wait(left as i64)
    }
}

/// Reads the local clock in milliseconds since the Unix epoch
/// (chrono's `Local::now`, then `timestamp_millis`). Claimed: the value is
/// not negative (`Utc::now` stops the program on a clock before 1970).
/// Which instant it is depends on the clock and is not claimed.
#[verifier::external_body]
fn now_millis() -> (r: i64)
    ensures
        r >= 0,
{
    chrono::Local::now().timestamp_millis()
}

/// The earliest instant chrono represents, `DateTime::<Utc>::MIN_UTC`
/// (January 1 of the year -262143, 00:00 UTC) taken as local time, in
/// milliseconds since the Unix epoch (`timestamp_millis`). Claimed: the value
/// is -8334601228800000, which chrono's definition of that date gives.
#[verifier::external_body]
fn earliest_millis() -> (r: i64)
    ensures
        r == -8334601228800000,
{
    chrono::DateTime::<chrono::Local>::from(chrono::DateTime::<chrono::Utc>::MIN_UTC).timestamp_millis()
}

/// A monitored target with the state of its schedule.
pub struct MonitorRuntime {
    pub monitor_name: String,
    pub target: MonitorTarget,
    pub action: MonitorAction,
    /// When the target's check last started, in milliseconds since the
    /// Unix epoch.
    pub last_ran_ms: i64,
}

/// The interval of a target: its own, else the common one.
pub open spec fn effective_interval(target: MonitorTarget, common_interval: i32) -> i32 {
    match target.check_interval_secs {
        Some(i) => i,
        None => common_interval,
    }
}

/// The runtime `after` is `before` scheduled at `now`, the check, if due,
/// starting at `ran_at`.
pub open spec fn scheduled(before: MonitorRuntime, after: MonitorRuntime, now: i64, ran_at: i64, common_interval: i32) -> bool {
    &&& after.monitor_name == before.monitor_name
    &&& after.target == before.target
    &&& match plan_spec(now as int, before.last_ran_ms as int, effective_interval(before.target, common_interval) as int) {
        RunPlan::Run => {
            &&& Some(after.action) == action_for_kind(before.target.kind@)
            &&& after.last_ran_ms == ran_at
        },
        RunPlan::Wait(w) => {
            &&& after.action == MonitorAction::Sleep(w)
            &&& after.last_ran_ms == before.last_ran_ms
        },
    }
}

impl MonitorRuntime {
    /// A target that has never run and is due at once.
    pub fn new(monitor_name: &String, target: &MonitorTarget) -> (r: Self)
        ensures
            r.monitor_name == *monitor_name,
            r.target == *target,
            r.action == MonitorAction::Sleep(0),
            r.last_ran_ms == -8334601228800000,
    {
        MonitorRuntime {
            monitor_name: monitor_name.clone(),
            target: target.clone(),
            action: MonitorAction::Sleep(0),
            last_ran_ms: earliest_millis(),
        }
    }

    /// The interval of this target under `common_interval`.
    pub fn interval(&self, common_interval: i32) -> (r: i32)
        ensures
            r == effective_interval(self.target, common_interval),
    {
        match self.target.check_interval_secs {
            Some(i) => i,
            None => common_interval,
        }
    }

    /// Chooses this round's action at time `now_ms`: the target's action
    /// when it is due (then the check starts at `ran_at_ms`), else a pause.
    pub fn schedule_at(&mut self, now_ms: i64, ran_at_ms: i64, common_interval: i32)
        requires
            plan_spec(now_ms as int, old(self).last_ran_ms as int, effective_interval(old(self).target, common_interval) as int)
                == RunPlan::Run ==> action_for_kind(old(self).target.kind@) is Some,
        ensures
            scheduled(*old(self), *final(self), now_ms, ran_at_ms, common_interval),
    {
        let interval = self.interval(common_interval);
        match plan_run(now_ms, self.last_ran_ms, interval) {
            RunPlan::Run => {
                match MonitorAction::from_target(&self.target) {
                    Some(a) => self.action = a,
                    None => {},
                }
                self.last_ran_ms = ran_at_ms;
            },
            RunPlan::Wait(w) => {
                self.action = MonitorAction::Sleep(w);
            },
        }
    }

    /// Chooses this round's action by the local clock (see `schedule_at`).
    /// Returns `false`, changing nothing, when the target is due but its
    /// `kind` names no action.
    pub fn schedule(&mut self, common_interval: i32) -> (ok: bool)
        ensures
            ok ==> exists|now: i64, ran_at: i64| 0 <= now && 0 <= ran_at && scheduled(*old(self), *final(self), now, ran_at, common_interval),
            !ok ==> *final(self) == *old(self) && action_for_kind(old(self).target.kind@) is None,
    {
        let now = now_millis();
        let interval = self.interval(common_interval);
        let plan = plan_run(now, self.last_ran_ms, interval);
        match plan {
            RunPlan::Run => {
                if MonitorAction::from_target(&self.target).is_none() {
                    return false;
                }
                let ran_at = now_millis();
                let ghost before = *self;
                self.schedule_at(now, ran_at, common_interval);
                assert(scheduled(before, *self, now, ran_at, common_interval));
            },
            RunPlan::Wait(_) => {
                let ghost before = *self;
                self.schedule_at(now, now, common_interval);
                assert(scheduled(before, *self, now, now, common_interval));
            },
        }
        true
    }
}

/// What the monitoring loop does next after a check or a recovery.
#[derive(Debug, PartialEq, Eq)]
pub enum Effect {
    /// Write the message to the log at the level.
    Log(LogLevel, String),
    /// Run the target's recovery command, then hand its outcome to
    /// `react_to_recovery`.
    RunRecovery(String),
    /// Send a warning report with this text.
    ReportWarning(String),
    /// Write the message to the log as an error, and send an error report
    /// whose text is the line written.
    ReportError(String),
}

/// An effect with its texts.
pub enum EffectSpec {
    Log(LogLevel, Seq<char>),
    RunRecovery(Seq<char>),
    ReportWarning(Seq<char>),
    ReportError(Seq<char>),
}

/// An effect as texts.
pub open spec fn effect_view(e: Effect) -> EffectSpec {
    match e {
        Effect::Log(l, m) => EffectSpec::Log(l, m@),
        Effect::RunRecovery(c) => EffectSpec::RunRecovery(c@),
        Effect::ReportWarning(m) => EffectSpec::ReportWarning(m@),
        Effect::ReportError(m) => EffectSpec::ReportError(m@),
    }
}

/// A list of effects as texts.
pub open spec fn effects_view(v: Seq<Effect>) -> Seq<EffectSpec> {
    v.map_values(|e: Effect| effect_view(e))
}

/// The failure line of a target: `[name]Fail: message`.
pub open spec fn fail_text(name: Seq<char>, msg: Seq<char>) -> Seq<char> {
    "["@ + name + "]Fail: "@ + msg
}

/// What follows a check's outcome: a success with a message is logged; a
/// failure runs the recovery command when the target has one, else it is
/// logged and reported as an error.
pub open spec fn check_reaction(name: Seq<char>, recovery_cmd: Seq<char>, outcome: Result<Option<Seq<char>>, Seq<char>>) -> Seq<EffectSpec> {
    match outcome {
        Ok(Some(m)) => seq![EffectSpec::Log(LogLevel::Info, "Ok: "@ + m)],
        Ok(None) => Seq::empty(),
        Err(m) => if recovery_cmd.len() > 0 {
            seq![EffectSpec::Log(LogLevel::Debug, "Recovery Exec: "@ + recovery_cmd), EffectSpec::RunRecovery(recovery_cmd)]
        } else {
            seq![EffectSpec::ReportError(fail_text(name, m))]
        },
    }
}

/// What follows a recovery command's outcome: success logs its output and
/// sends a warning report; failure is logged and reported as an error with
/// the recovery's message.
pub open spec fn recovery_reaction(name: Seq<char>, outcome: Result<Option<Seq<char>>, Seq<char>>) -> Seq<EffectSpec> {
    match outcome {
        Ok(opt) => {
            let tail = seq![
                EffectSpec::Log(LogLevel::Warning, "Recovery command succeeded."@),
                EffectSpec::ReportWarning("Failed but recovery command succeeded."@),
            ];
            match opt {
                Some(m) => seq![EffectSpec::Log(LogLevel::Debug, m)] + tail,
                None => tail,
            }
        },
        Err(e) => seq![EffectSpec::ReportError(fail_text(name, e))],
    }
}

fn fail_line(name: &str, msg: &str) -> (r: String)
    ensures
        r@ == fail_text(name@, msg@),
{
    let mut r = String::from_str("[");
    r.append(name);
    r.append("]Fail: ");
    r.append(msg);
    r
}

/// The effects that follow a check of `target` named `name`.
pub fn react_to_check(name: &str, target: &MonitorTarget, outcome: Result<Option<String>, String>) -> (r: Vec<Effect>)
    ensures
        effects_view(r@) == check_reaction(name@, target.recovery_cmd@, outcome_view(outcome)),
{
    let mut effects: Vec<Effect> = Vec::new();
    match outcome {
        Ok(Some(m)) => {
            let mut line = String::from_str("Ok: ");
            line.append(m.as_str());
            effects.push(Effect::Log(LogLevel::Info, line));
        },
        Ok(None) => {},
        Err(m) => {
            let cmd = crate::text::chars_of(target.recovery_cmd.as_str());
            if cmd.len() > 0 {
                let mut line = String::from_str("Recovery Exec: ");
                line.append(target.recovery_cmd.as_str());
                effects.push(Effect::Log(LogLevel::Debug, line));
                effects.push(Effect::RunRecovery(target.recovery_cmd.clone()));
            } else {
                effects.push(Effect::ReportError(fail_line(name, m.as_str())));
            }
        },
    }
    assert(effects_view(effects@) =~= check_reaction(name@, target.recovery_cmd@, outcome_view(outcome)));
    effects
}

/// The effects that follow the recovery command of the target named `name`.
pub fn react_to_recovery(name: &str, outcome: Result<Option<String>, String>) -> (r: Vec<Effect>)
    ensures
        effects_view(r@) == recovery_reaction(name@, outcome_view(outcome)),
{
    let mut effects: Vec<Effect> = Vec::new();
    match outcome {
        Ok(opt) => {
            match opt {
                Some(m) => effects.push(Effect::Log(LogLevel::Debug, m)),
                None => {},
            }
            effects.push(Effect::Log(LogLevel::Warning, String::from_str("Recovery command succeeded.")));
            effects.push(Effect::ReportWarning(String::from_str("Failed but recovery command succeeded.")));
        },
        Err(e) => {
            effects.push(Effect::ReportError(fail_line(name, e.as_str())));
        },
    }
    assert(effects_view(effects@) =~= recovery_reaction(name@, outcome_view(outcome)));
    effects
}

/// Counts the rounds in which every target only waited, and the pause
/// that grows while the loop stays idle.
pub struct IdleTackler {
    pub idle_count: usize,
    pub idle_limit: usize,
    pub sleep_count: usize,
    pub sleep_limit: usize,
}

/// The pause count after a full idle round: one more, up to the limit.
pub open spec fn next_sleep_count(t: IdleTackler) -> nat {
    if t.sleep_count < t.sleep_limit {
        (t.sleep_count + 1) as nat
    } else {
        t.sleep_count as nat
    }
}

/// An idle round can be taken: its pause in milliseconds fits a `u64`.
pub open spec fn idle_round_fits(t: IdleTackler) -> bool {
    t.idle_count >= t.idle_limit ==> next_sleep_count(t) * 10 <= u64::MAX
}

/// One idle round: after `idle_limit` idle rounds the loop pauses for ten
/// milliseconds per pause count and the idle count starts again.
pub open spec fn idle_step(before: IdleTackler, after: IdleTackler, pause: Option<u64>) -> bool {
    &&& after.idle_limit == before.idle_limit
    &&& after.sleep_limit == before.sleep_limit
    &&& if before.idle_count >= before.idle_limit {
        &&& after.sleep_count == next_sleep_count(before)
        &&& after.idle_count == 0
        &&& pause == Some((after.sleep_count * 10) as u64)
    } else {
        &&& after.sleep_count == before.sleep_count
        &&& after.idle_count == before.idle_count + 1
        &&& pause is None
    }
}

impl IdleTackler {
    /// Pauses after ten idle rounds, for at most 500 milliseconds.
    pub fn new() -> (r: Self)
        ensures
            r.idle_count == 0,
            r.idle_limit == 10,
            r.sleep_count == 0,
            r.sleep_limit == 50,
    {
        IdleTackler { idle_count: 0, idle_limit: 10, sleep_count: 0, sleep_limit: 50 }
    }

    /// The same, pausing after `limit` idle rounds.
    pub fn idle_limit(self, limit: usize) -> (r: Self)
        ensures
            r == (IdleTackler { idle_limit: limit, ..self }),
    {
        let mut s = self;
        s.idle_limit = limit;
        s
    }

    /// The same, with at most `limit` pause steps.
    pub fn sleep_limit(self, limit: usize) -> (r: Self)
        ensures
            r == (IdleTackler { sleep_limit: limit, ..self }),
    {
        let mut s = self;
        s.sleep_limit = limit;
        s
    }

    /// A round in which every target waited; returns the pause, in
    /// milliseconds, that the loop takes now, if any.
    pub fn on_idle(&mut self) -> (pause_ms: Option<u64>)
        requires
            idle_round_fits(*old(self)),
        ensures
            idle_step(*old(self), *final(self), pause_ms),
    {
        if self.idle_count >= self.idle_limit {
            if self.sleep_count < self.sleep_limit {
                self.sleep_count += 1;
            }
            self.idle_count = 0;
            Some(self.sleep_count as u64 * 10)
        } else {
            self.idle_count += 1;
            None
        }
    }

    /// A round in which some target ran: the counts start again.
    pub fn on_busy(&mut self)
        ensures
            final(self).idle_count == 0,
            final(self).sleep_count == 0,
            final(self).idle_limit == old(self).idle_limit,
            final(self).sleep_limit == old(self).sleep_limit,
    {
        self.idle_count = 0;
        self.sleep_count = 0;
    }
}

/// The number of reports (warning or error) among some effects.
pub open spec fn report_count(effects: Seq<EffectSpec>) -> nat
    decreases effects.len(),
{
    if effects.len() == 0 {
        0
    } else {
        let here: nat = match effects.last() {
            EffectSpec::ReportWarning(_) => 1,
            EffectSpec::ReportError(_) => 1,
            _ => 0,
        };
        report_count(effects.drop_last()) + here
    }
}

/// Whether the effects ask for the recovery command to run.
pub open spec fn asks_recovery(effects: Seq<EffectSpec>) -> bool {
    exists|i: int| 0 <= i < effects.len() && #[trigger] effects[i] matches EffectSpec::RunRecovery(_)
}

/// A check that succeeds sends no report and runs no recovery.
pub proof fn law_success_not_reported(name: Seq<char>, recovery_cmd: Seq<char>, msg: Option<Seq<char>>)
    ensures
        report_count(check_reaction(name, recovery_cmd, Ok(msg))) == 0,
        !asks_recovery(check_reaction(name, recovery_cmd, Ok(msg))),
{
    reveal_with_fuel(report_count, 3);
    let e = check_reaction(name, recovery_cmd, Ok(msg));
    if msg is Some {
        assert(e.drop_last() =~= Seq::<EffectSpec>::empty());
    }
}

/// Every failed check ends in exactly one report: an error report naming
/// the failure when the target has no recovery command; otherwise the
/// recovery runs, and its outcome, whatever it is, brings one report.
pub proof fn law_failure_reported_once(
    name: Seq<char>,
    recovery_cmd: Seq<char>,
    msg: Seq<char>,
    recovery: Result<Option<Seq<char>>, Seq<char>>,
)
    ensures
        recovery_cmd.len() == 0 ==> check_reaction(name, recovery_cmd, Err(msg)) == seq![EffectSpec::ReportError(fail_text(name, msg))],
        recovery_cmd.len() > 0 ==> {
            &&& asks_recovery(check_reaction(name, recovery_cmd, Err(msg)))
            &&& report_count(check_reaction(name, recovery_cmd, Err(msg))) == 0
            &&& report_count(recovery_reaction(name, recovery)) == 1
        },
{
    reveal_with_fuel(report_count, 5);
    let e = check_reaction(name, recovery_cmd, Err(msg));
    if recovery_cmd.len() > 0 {
        assert(e[1] matches EffectSpec::RunRecovery(_));
        assert(e.drop_last().drop_last() =~= Seq::<EffectSpec>::empty());
        let r = recovery_reaction(name, recovery);
        match recovery {
            Ok(Some(m)) => {
                assert(r.drop_last().drop_last().drop_last() =~= Seq::<EffectSpec>::empty());
            },
            Ok(None) => {
                assert(r.drop_last().drop_last() =~= Seq::<EffectSpec>::empty());
            },
            Err(_) => {
                assert(r.drop_last() =~= Seq::<EffectSpec>::empty());
            },
        }
    }
}

/// A target that has never run is due in the first round, whatever its
/// interval, at any time from year 1970 on.
pub proof fn law_new_target_due(now: i64, interval: i32)
    requires
        now >= 0,
    ensures
        plan_spec(now as int, -8334601228800000, interval as int) == RunPlan::Run,
{
}

/// While a target waits, the pause is at most its interval, unless the
/// clock went back.
pub proof fn law_wait_within_interval(now: i64, last: i64, interval: i32, w: i64)
    requires
        now >= last,
        plan_spec(now as int, last as int, interval as int) == RunPlan::Wait(w),
    ensures
        0 <= w <= interval,
{
    let x = interval * 1000 - (now - last);
    assert(0 < x <= interval * 1000);
    assert(0 <= x / 1000 <= interval) by (nonlinear_arith)
        requires
            0 < x <= interval * 1000,
    ;
}

/// The idle count stays within its limit, and a pause never exceeds ten
/// milliseconds per allowed pause step, once the counts start within
/// their limits.
pub proof fn law_idle_bounds(before: IdleTackler, after: IdleTackler, pause: Option<u64>)
    requires
        before.idle_count <= before.idle_limit,
        before.sleep_count <= before.sleep_limit,
        idle_step(before, after, pause),
    ensures
        after.idle_count <= after.idle_limit,
        after.sleep_count <= after.sleep_limit,
        pause matches Some(p) ==> p <= 10 * after.sleep_limit,
{
}

/// The target of `before` is due at `now`.
pub open spec fn runs_at(before: MonitorRuntime, now: i64, common_interval: i32) -> bool {
    plan_spec(now as int, before.last_ran_ms as int, effective_interval(before.target, common_interval) as int) == RunPlan::Run
}

/// The rounds `rs[0] -> rs[1] -> ...` of one target, round `k` scheduled at
/// `nows[k]` and, when due, starting at `rans[k]`, never before `nows[k]`.
pub open spec fn is_round_sequence(rs: Seq<MonitorRuntime>, nows: Seq<i64>, rans: Seq<i64>, common_interval: i32) -> bool {
    &&& rs.len() == nows.len() + 1
    &&& rans.len() == nows.len()
    &&& forall|k: int| 0 <= k < nows.len() ==> #[trigger] scheduled(rs[k], rs[k + 1], nows[k], rans[k], common_interval)
    &&& forall|k: int| 0 <= k < nows.len() ==> #[trigger] rans[k] >= nows[k]
}

proof fn lemma_waits_keep_start(rs: Seq<MonitorRuntime>, nows: Seq<i64>, rans: Seq<i64>, c: i32, i: int, k: int)
    requires
        is_round_sequence(rs, nows, rans, c),
        0 <= i < k <= nows.len(),
        runs_at(rs[i], nows[i], c),
        forall|m: int| i < m < k ==> !#[trigger] runs_at(rs[m], nows[m], c),
    ensures
        rs[k].last_ran_ms == rans[i],
        rs[k].target == rs[i].target,
    decreases k - i,
{
    if k - 1 > i {
        lemma_waits_keep_start(rs, nows, rans, c, i, k - 1);
        let m = k - 1;
        assert(scheduled(rs[m], rs[m + 1], nows[m], rans[m], c));
        assert(!runs_at(rs[m], nows[m], c));
    } else {
        assert(scheduled(rs[i], rs[i + 1], nows[i], rans[i], c));
    }
}

/// Two consecutive starts of a target's check are at least its interval
/// apart (its own interval, else the common one), in milliseconds: the
/// rounds between them only wait.
pub proof fn law_starts_interval_apart(rs: Seq<MonitorRuntime>, nows: Seq<i64>, rans: Seq<i64>, c: i32, i: int, j: int)
    requires
        is_round_sequence(rs, nows, rans, c),
        0 <= i < j < nows.len(),
        runs_at(rs[i], nows[i], c),
        runs_at(rs[j], nows[j], c),
        forall|m: int| i < m < j ==> !#[trigger] runs_at(rs[m], nows[m], c),
    ensures
        rans[j] - rans[i] >= effective_interval(rs[i].target, c) * 1000,
        rs[j + 1].last_ran_ms == rans[j],
{
    lemma_waits_keep_start(rs, nows, rans, c, i, j);
    assert(scheduled(rs[j], rs[j + 1], nows[j], rans[j], c));
    assert(rans[j] >= nows[j]);
}

/// A round in which some target ran.
pub open spec fn busy_step(before: IdleTackler, after: IdleTackler) -> bool {
    &&& after.idle_count == 0
    &&& after.sleep_count == 0
    &&& after.idle_limit == before.idle_limit
    &&& after.sleep_limit == before.sleep_limit
}

/// The counts are within their limits.
pub open spec fn idle_bounded(t: IdleTackler) -> bool {
    t.idle_count <= t.idle_limit && t.sleep_count <= t.sleep_limit
}

proof fn lemma_idle_prefix(ts: Seq<IdleTackler>, pauses: Seq<Option<u64>>, k: int)
    requires
        ts.len() == pauses.len() + 1,
        idle_bounded(ts[0]),
        forall|m: int| 0 <= m < pauses.len() ==> #[trigger] idle_step(ts[m], ts[m + 1], pauses[m])
            || (busy_step(ts[m], ts[m + 1]) && pauses[m] is None),
        0 <= k < ts.len(),
    ensures
        idle_bounded(ts[k]),
        ts[k].idle_limit == ts[0].idle_limit,
        ts[k].sleep_limit == ts[0].sleep_limit,
    decreases k,
{
    if k > 0 {
        lemma_idle_prefix(ts, pauses, k - 1);
        let m = k - 1;
        assert(idle_step(ts[m], ts[m + 1], pauses[m]) || (busy_step(ts[m], ts[m + 1]) && pauses[m] is None));
    }
}

/// Along any sequence of idle and busy rounds from counts within their
/// limits (as `new` gives, whatever limits are set), the counts stay within
/// their limits, every idle round can be taken without overflow when ten
/// times the pause limit fits a `u64`, and no pause exceeds ten
/// milliseconds per allowed pause step.
pub proof fn law_idle_sequence_bounded(ts: Seq<IdleTackler>, pauses: Seq<Option<u64>>)
    requires
        ts.len() == pauses.len() + 1,
        idle_bounded(ts[0]),
        ts[0].sleep_limit * 10 <= u64::MAX,
        forall|m: int| 0 <= m < pauses.len() ==> #[trigger] idle_step(ts[m], ts[m + 1], pauses[m])
            || (busy_step(ts[m], ts[m + 1]) && pauses[m] is None),
    ensures
        forall|k: int| 0 <= k < ts.len() ==> idle_bounded(#[trigger] ts[k]) && idle_round_fits(ts[k]),
        forall|k: int| 0 <= k < pauses.len() ==> (#[trigger] pauses[k] matches Some(p) ==> p <= 10 * ts[0].sleep_limit),
{
    assert forall|k: int| 0 <= k < ts.len() implies idle_bounded(#[trigger] ts[k]) && idle_round_fits(ts[k]) by {
        lemma_idle_prefix(ts, pauses, k);
    }
    assert forall|k: int| 0 <= k < pauses.len() implies (#[trigger] pauses[k] matches Some(p) ==> p <= 10 * ts[0].sleep_limit) by {
        lemma_idle_prefix(ts, pauses, k);
        lemma_idle_prefix(ts, pauses, k + 1);
        assert(idle_step(ts[k], ts[k + 1], pauses[k]) || (busy_step(ts[k], ts[k + 1]) && pauses[k] is None));
    }
}

/// A round scheduled at a time at least the interval after the last start
/// runs the target's action (never a pause) and records the new start; a
/// round scheduled earlier, but not before the last start, pauses and keeps
/// the last start.
pub proof fn law_round_runs_once_interval_passed(before: MonitorRuntime, after: MonitorRuntime, now: i64, ran_at: i64, c: i32)
    requires
        scheduled(before, after, now, ran_at, c),
    ensures
        now - before.last_ran_ms >= effective_interval(before.target, c) * 1000 ==> {
            &&& Some(after.action) == action_for_kind(before.target.kind@)
            &&& !(after.action is Sleep)
            &&& after.last_ran_ms == ran_at
        },
        0 <= now - before.last_ran_ms < effective_interval(before.target, c) * 1000 ==> {
            &&& after.action is Sleep
            &&& after.last_ran_ms == before.last_ran_ms
        },
{
}

} // verus!
