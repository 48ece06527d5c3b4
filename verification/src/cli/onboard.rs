//! Device onboarding: phase results and which phases run.
use vstd::prelude::*;
use crate::cli::output::{notices_view, Notice, NoticeLevel};
use crate::cli::pipeline::push_notice;
use crate::pattern::{push_u64, text_with_number};
use crate::text::{decimal, push_str, to_string};

verus! {

/// Outcome of one onboarding phase.
#[derive(Debug, Clone, PartialEq, Eq, Structural)]
pub enum PhaseStatus {
    Passed,
    Failed,
    Skipped,
}

/// Outcome of a phase, with a message for failures and skips.
#[derive(Debug, Clone)]
pub struct PhaseResult {
    pub status: PhaseStatus,
    pub message: String,
}

impl PhaseResult {
    /// The phase passed.
    pub fn passed() -> (r: PhaseResult)
        ensures
            r.status == PhaseStatus::Passed,
            r.message@ == Seq::<char>::empty(),
    {
        PhaseResult { status: PhaseStatus::Passed, message: String::new() }
    }

    /// The phase failed with `msg`.
    pub fn failed(msg: &str) -> (r: PhaseResult)
        ensures
            r.status == PhaseStatus::Failed,
            r.message@ == msg@,
    {
        PhaseResult { status: PhaseStatus::Failed, message: to_string(msg) }
    }

    /// The phase was skipped because of `msg`.
    pub fn skipped(msg: &str) -> (r: PhaseResult)
        ensures
            r.status == PhaseStatus::Skipped,
            r.message@ == msg@,
    {
        PhaseResult { status: PhaseStatus::Skipped, message: to_string(msg) }
    }
}

/// Number of onboarding phases: Preflight, Certificates, Start Server,
/// Register Device, Flash Firmware, Verify Uplink.
pub const PHASE_COUNT: usize = 6;

/// What happens to a phase.
#[derive(Debug, Clone, Copy, PartialEq, Eq, Structural)]
pub enum PhaseDisposition {
    /// Skipped: it comes before the phase to start at.
    BeforeStart,
    /// Skipped: it is in the skip list.
    Skipped,
    /// Run.
    Run,
}

/// Phase `i` is skipped when it comes before `start_at` or is listed in
/// `skip`, and run otherwise.
pub open spec fn disposition_spec(i: nat, start_at: nat, skip: Seq<usize>) -> PhaseDisposition {
    if i < start_at {
        PhaseDisposition::BeforeStart
    } else if skip.contains(i as usize) {
        PhaseDisposition::Skipped
    } else {
        PhaseDisposition::Run
    }
}

/// Decide what happens to phase `i`.
pub fn phase_disposition(i: usize, start_at: usize, skip: &Vec<usize>) -> (d: PhaseDisposition)
    ensures
        d == disposition_spec(i as nat, start_at as nat, skip@),
{
    if i < start_at {
        return PhaseDisposition::BeforeStart;
    }
    let mut k: usize = 0;
    while k < skip.len()
        invariant
            i >= start_at,
            k <= skip.len(),
            forall|j: int| 0 <= j < k ==> skip@[j] != i,
        decreases skip.len() - k,
    {
        if skip[k] == i {
            assert(skip@[k as int] == i);
            assert(skip@.contains(i));
            return PhaseDisposition::Skipped;
        }
        k += 1;
    }
    PhaseDisposition::Run
}

/// Whether onboarding goes on after a phase: it stops at a failure.
pub fn continues_after(status: &PhaseStatus) -> (c: bool)
    ensures
        c == (*status != PhaseStatus::Failed),
{
    match status {
        PhaseStatus::Failed => false,
        _ => true,
    }
}

/// The exit code of onboarding: 1 when some phase that ran failed, 0 when
/// every phase was skipped, passed or was itself skipped.
pub open spec fn onboard_exit_code(ran: Seq<PhaseStatus>) -> i32 {
    if exists|k: int| 0 <= k < ran.len() && ran[k] == PhaseStatus::Failed {
        1
    } else {
        0
    }
}

/// The exit code for the statuses of the phases that ran, in order; the
/// runner stops at the first failure, so only the last may have failed.
pub fn exit_code(ran: &Vec<PhaseStatus>) -> (code: i32)
    ensures
        code == onboard_exit_code(ran@),
{
    let mut k: usize = 0;
    while k < ran.len()
        invariant
            k <= ran.len(),
            forall|j: int| 0 <= j < k ==> ran@[j] != PhaseStatus::Failed,
        decreases ran.len() - k,
    {
        if !continues_after(&ran[k]) {
            return 1;
        }
        k += 1;
    }
    0
}

/// Arguments of the `qs onboard` command.
pub struct OnboardArgs {
    pub device_name: String,
    pub owner_id: String,
    pub mode: String,
    pub verbose: bool,
    pub dry_run: bool,
    pub start_at: usize,
    pub skip: Vec<usize>,
}

/// The name of onboarding phase `i`.
pub open spec fn phase_name_spec(i: nat) -> Seq<char> {
    if i == 0 {
        "Preflight"@
    } else if i == 1 {
        "Certificates"@
    } else if i == 2 {
        "Start Server"@
    } else if i == 3 {
        "Register Device"@
    } else if i == 4 {
        "Flash Firmware"@
    } else {
        "Verify Uplink"@
    }
}

/// The name of onboarding phase `i`.
pub fn phase_name(i: usize) -> (n: &'static str)
    requires
        i < PHASE_COUNT,
    ensures
        n@ == phase_name_spec(i as nat),
{
    if i == 0 {
        "Preflight"
    } else if i == 1 {
        "Certificates"
    } else if i == 2 {
        "Start Server"
    } else if i == 3 {
        "Register Device"
    } else if i == 4 {
        "Flash Firmware"
    } else {
        "Verify Uplink"
    }
}

/// From phase `i` on: the next phase that runs (`PHASE_COUNT` when none
/// does), and the messages until then: one for each skipped phase, and the
/// header of the phase that runs.
pub open spec fn advance(i: nat, start_at: nat, skip: Seq<usize>) -> (nat, Seq<(NoticeLevel, Seq<char>)>)
    decreases PHASE_COUNT - i,
{
    if i >= PHASE_COUNT {
        (PHASE_COUNT as nat, Seq::empty())
    } else {
        let head = "Skipping phase "@ + decimal(i) + ": "@ + phase_name_spec(i);
        match disposition_spec(i, start_at, skip) {
            PhaseDisposition::BeforeStart => {
                let rest = advance(i + 1, start_at, skip);
                (rest.0, seq![(NoticeLevel::Step, head + " (--start-at "@ + decimal(start_at) + ")"@)] + rest.1)
            },
            PhaseDisposition::Skipped => {
                let rest = advance(i + 1, start_at, skip);
                (rest.0, seq![(NoticeLevel::Step, head + " (--skip)"@)] + rest.1)
            },
            PhaseDisposition::Run => (i, seq![(NoticeLevel::Milestone, "Phase "@ + decimal(i) + ": "@ + phase_name_spec(i))]),
        }
    }
}

/// What the onboarding driver does next.
#[derive(Debug, Clone, Copy, PartialEq, Eq, Structural)]
pub enum OnboardAction {
    /// Run the phase and report its result.
    RunPhase(usize),
    /// Onboarding is over with this exit code.
    Finish(i32),
}

/// Where onboarding stands.
pub struct Onboarding {
    pub device_name: String,
    pub start_at: usize,
    pub skip: Vec<usize>,
    /// The phase that runs now.
    pub current: usize,
}

/// The end of onboarding once no phase is left: success.
pub open spec fn completion(device: Seq<char>) -> (NoticeLevel, Seq<char>) {
    (NoticeLevel::Success, "Onboarding complete for "@ + device)
}

/// The step from phase `i` on, after `before`.
pub open spec fn goes_on(o: Onboarding, i: nat, before: Seq<(NoticeLevel, Seq<char>)>, r: (Onboarding, Vec<Notice>, OnboardAction)) -> bool {
    let a = advance(i, o.start_at as nat, o.skip@);
    &&& r.0.device_name == o.device_name && r.0.start_at == o.start_at && r.0.skip == o.skip
    &&& if a.0 >= PHASE_COUNT {
        notices_view(r.1@) =~= before + a.1.push(completion(o.device_name@)) && r.2 == OnboardAction::Finish(0)
    } else {
        notices_view(r.1@) =~= before + a.1 && r.2 == OnboardAction::RunPhase(a.0 as usize) && r.0.current == a.0
    }
}

/// Moves on from phase `from`, after `notices`.
fn advance_from(o: Onboarding, from: usize, initial: Vec<Notice>) -> (r: (Onboarding, Vec<Notice>, OnboardAction))
    requires
        from <= PHASE_COUNT,
    ensures
        goes_on(o, from as nat, notices_view(initial@), r),
{
    let ghost before = notices_view(initial@);
    let mut notices = initial;
    let mut i = from;
    while i < PHASE_COUNT
        invariant
            from <= i <= PHASE_COUNT,
            before == notices_view(initial@),
            advance(from as nat, o.start_at as nat, o.skip@).0 == advance(i as nat, o.start_at as nat, o.skip@).0,
            before + advance(from as nat, o.start_at as nat, o.skip@).1 == notices_view(notices@) + advance(
                i as nat,
                o.start_at as nat,
                o.skip@,
            ).1,
        decreases PHASE_COUNT - i,
    {
        let ghost acc = notices_view(notices@);
        let d = phase_disposition(i, o.start_at, &o.skip);
        let mut head = text_with_number("Skipping phase ", i as u64);
        push_str(&mut head, ": ");
        push_str(&mut head, phase_name(i));
        match d {
            PhaseDisposition::BeforeStart => {
                push_str(&mut head, " (--start-at ");
                push_u64(&mut head, o.start_at as u64);
                push_str(&mut head, ")");
                push_notice(&mut notices, NoticeLevel::Step, head);
                let ghost rest = advance((i + 1) as nat, o.start_at as nat, o.skip@);
                assert(acc + advance(i as nat, o.start_at as nat, o.skip@).1 =~= notices_view(notices@) + rest.1);
            },
            PhaseDisposition::Skipped => {
                push_str(&mut head, " (--skip)");
                push_notice(&mut notices, NoticeLevel::Step, head);
                let ghost rest = advance((i + 1) as nat, o.start_at as nat, o.skip@);
                assert(acc + advance(i as nat, o.start_at as nat, o.skip@).1 =~= notices_view(notices@) + rest.1);
            },
            PhaseDisposition::Run => {
                let mut h = text_with_number("Phase ", i as u64);
                push_str(&mut h, ": ");
                push_str(&mut h, phase_name(i));
                push_notice(&mut notices, NoticeLevel::Milestone, h);
                assert(advance(i as nat, o.start_at as nat, o.skip@).0 == i);
                assert(advance(i as nat, o.start_at as nat, o.skip@).1 =~= seq![(NoticeLevel::Milestone, h@)]);
                assert(acc.push((NoticeLevel::Milestone, h@)) =~= acc + seq![(NoticeLevel::Milestone, h@)]);
                assert(before + advance(from as nat, o.start_at as nat, o.skip@).1 =~= notices_view(notices@));
                let Onboarding { device_name, start_at, skip, current: _ } = o;
                return (Onboarding { device_name, start_at, skip, current: i }, notices, OnboardAction::RunPhase(i));
            },
        }
        i += 1;
    }
    let mut t = to_string("Onboarding complete for ");
    push_str(&mut t, o.device_name.as_str());
    push_notice(&mut notices, NoticeLevel::Success, t);
    assert(advance(i as nat, o.start_at as nat, o.skip@).1 =~= Seq::<(NoticeLevel, Seq<char>)>::empty());
    let Onboarding { device_name, start_at, skip, current } = o;
    (Onboarding { device_name, start_at, skip, current }, notices, OnboardAction::Finish(0))
}

/// Start onboarding: the phases before `start_at` and those in `skip` are
/// skipped, each with a message; the first other phase runs.
pub fn onboard_start(args: &OnboardArgs) -> (r: (Onboarding, Vec<Notice>, OnboardAction))
    ensures
        r.0.device_name == args.device_name,
        r.0.start_at == args.start_at,
        r.0.skip@ == args.skip@,
        goes_on(r.0, 0, Seq::empty(), r),
{
    let o = Onboarding { device_name: args.device_name.clone(), start_at: args.start_at, skip: args.skip.clone(), current: 0 };
    let empty: Vec<Notice> = Vec::new();
    assert(notices_view(empty@) =~= Seq::<(NoticeLevel, Seq<char>)>::empty());
    advance_from(o, 0, empty)
}

/// Next step after the current phase's result: a failure ends onboarding
/// with status 1 and its message; a skip or a pass is reported and the
/// next phase follows.
pub fn onboard_step(o: Onboarding, result: PhaseResult) -> (r: (Onboarding, Vec<Notice>, OnboardAction))
    requires
        o.current < PHASE_COUNT,
    ensures
        result.status == PhaseStatus::Failed ==> r.0 == o && notices_view(r.1@) =~= seq![
            (NoticeLevel::Error, "Phase "@ + decimal(o.current as nat) + " failed: "@ + result.message@),
        ] && r.2 == OnboardAction::Finish(1),
        result.status == PhaseStatus::Skipped ==> goes_on(
            o,
            (o.current + 1) as nat,
            seq![(NoticeLevel::Info, "Phase "@ + decimal(o.current as nat) + " skipped: "@ + result.message@)],
            r,
        ),
        result.status == PhaseStatus::Passed ==> goes_on(
            o,
            (o.current + 1) as nat,
            seq![(NoticeLevel::Success, "Phase "@ + decimal(o.current as nat) + ": "@ + phase_name_spec(o.current as nat))],
            r,
        ),
{
    let i = o.current;
    let mut t = text_with_number("Phase ", i as u64);
    let mut notices: Vec<Notice> = Vec::new();
    match result.status {
        PhaseStatus::Failed => {
            push_str(&mut t, " failed: ");
            push_str(&mut t, result.message.as_str());
            push_notice(&mut notices, NoticeLevel::Error, t);
            (o, notices, OnboardAction::Finish(1))
        },
        PhaseStatus::Skipped => {
            push_str(&mut t, " skipped: ");
            push_str(&mut t, result.message.as_str());
            push_notice(&mut notices, NoticeLevel::Info, t);
            advance_from(o, i + 1, notices)
        },
        PhaseStatus::Passed => {
            push_str(&mut t, ": ");
            push_str(&mut t, phase_name(i));
            push_notice(&mut notices, NoticeLevel::Success, t);
            advance_from(o, i + 1, notices)
        },
    }
}

/// Only the chosen phases run, in order: from phase `i` on, the next phase
/// that runs is neither before `start_at` nor in `skip`, and every phase
/// passed over on the way is one of those.
pub proof fn lemma_only_chosen_phases_run(i: nat, start_at: nat, skip: Seq<usize>)
    ensures
        advance(i, start_at, skip).0 >= i || i > PHASE_COUNT,
        advance(i, start_at, skip).0 <= PHASE_COUNT,
        advance(i, start_at, skip).0 < PHASE_COUNT ==> advance(i, start_at, skip).0 >= start_at && !skip.contains(
            advance(i, start_at, skip).0 as usize,
        ),
        forall|j: nat|
            i <= j < advance(i, start_at, skip).0 ==> #[trigger] disposition_spec(j, start_at, skip)
                != PhaseDisposition::Run,
    decreases PHASE_COUNT - i,
{
    if i < PHASE_COUNT {
        match disposition_spec(i, start_at, skip) {
            PhaseDisposition::Run => {},
            _ => {
                lemma_only_chosen_phases_run(i + 1, start_at, skip);
            },
        }
    }
}

} // verus!
