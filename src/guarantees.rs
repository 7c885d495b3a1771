use vstd::prelude::*;

use crate::failure::{thaw_outcome_spec, Failure, SnapshotFault};
use crate::protocol::{answers_spec, Command, Reply};
use crate::snapshot::{
    answered, command_for, is_terminal, issued, next_phase, run, save_state_failed, snapshot_fault_spec, Phase,
};

verus! {

/// Unfolds `run`, `issued` and `answered` by one reply.
pub proof fn lemma_step(phase: Phase, reply: Reply, rest: Seq<Reply>)
    ensures
        run(phase, seq![reply] + rest) == run(next_phase(phase, reply), rest),
        issued(phase, seq![reply] + rest) == seq![command_for(next_phase(phase, reply))] + issued(
            next_phase(phase, reply),
            rest,
        ),
        answered(phase, seq![reply] + rest) == (answers_spec(command_for(phase), reply) && answered(
            next_phase(phase, reply),
            rest,
        )),
{
    let s = seq![reply] + rest;
    assert(s.drop_first() =~= rest);
    assert(s[0] == reply);
}

/// Unfolds `run`, `issued` and `answered` over two consecutive runs of replies.
pub proof fn lemma_concat(phase: Phase, a: Seq<Reply>, b: Seq<Reply>)
    ensures
        run(phase, a + b) == run(run(phase, a), b),
        issued(phase, a + b) == issued(phase, a) + issued(run(phase, a), b),
        answered(phase, a + b) == (answered(phase, a) && answered(run(phase, a), b)),
    decreases a.len(),
{
    if a.len() == 0 {
        assert(a + b =~= b);
        assert(issued(phase, a) + issued(phase, b) =~= issued(phase, b));
    } else {
        let next = next_phase(phase, a[0]);
        lemma_concat(next, a.drop_first(), b);
        assert((a + b).drop_first() =~= a.drop_first() + b);
        assert((a + b)[0] == a[0]);
        assert(issued(phase, a + b) =~= seq![command_for(next)] + (issued(next, a.drop_first())
            + issued(run(next, a.drop_first()), b)));
    }
}

/// One command is issued after each reply.
pub proof fn lemma_issued_len(phase: Phase, replies: Seq<Reply>)
    ensures
        issued(phase, replies).len() == replies.len(),
    decreases replies.len(),
{
    if replies.len() > 0 {
        lemma_issued_len(next_phase(phase, replies[0]), replies.drop_first());
    }
}

/// The phases in which the guest has not been asked to freeze: before the
/// freeze, or failed before it.
pub open spec fn before_freeze(phase: Phase) -> bool {
    match phase {
        Phase::CheckingAgent | Phase::CheckingMonitor | Phase::ConnectingMonitor
        | Phase::ConnectingAgent | Phase::Negotiating => true,
        Phase::Failed { failure } => match failure {
            Failure::EndpointMissing { .. } | Failure::EndpointUnreachable { .. }
            | Failure::ConfigurationError { .. } | Failure::HandshakeFailed { .. } => true,
            _ => false,
        },
        _ => false,
    }
}

proof fn lemma_past_freeze_stays(phase: Phase, replies: Seq<Reply>)
    requires
        !before_freeze(phase),
    ensures
        !before_freeze(run(phase, replies)),
    decreases replies.len(),
{
    if replies.len() > 0 {
        lemma_past_freeze_stays(next_phase(phase, replies[0]), replies.drop_first());
    }
}

proof fn lemma_handshake_failure_issues_no_guest_command(phase: Phase, replies: Seq<Reply>)
    requires
        before_freeze(phase),
        run(phase, replies) matches Phase::Failed { failure: Failure::HandshakeFailed { .. } },
    ensures
        forall|i: int|
            0 <= i < issued(phase, replies).len() ==> issued(phase, replies)[i] != Command::Freeze
                && issued(phase, replies)[i] != Command::Thaw,
    decreases replies.len(),
{
    if replies.len() > 0 {
        let next = next_phase(phase, replies[0]);
        if !before_freeze(next) {
            lemma_past_freeze_stays(next, replies.drop_first());
        } else {
            lemma_handshake_failure_issues_no_guest_command(next, replies.drop_first());
            let tail = issued(next, replies.drop_first());
            assert(issued(phase, replies) == seq![command_for(next)] + tail);
            assert forall|i: int| 0 <= i < issued(phase, replies).len() implies issued(
                phase,
                replies,
            )[i] != Command::Freeze && issued(phase, replies)[i] != Command::Thaw by {
                if i > 0 {
                    assert(issued(phase, replies)[i] == tail[i - 1]);
                }
            }
        }
    }
}

/// A session whose capability handshake fails never asks the guest agent to
/// freeze or to thaw: nothing was frozen, so no thaw is owed. This holds of
/// every sequence of replies that ends the session in a handshake failure.
pub proof fn handshake_failure_never_touches_guest(replies: Seq<Reply>)
    requires
        run(Phase::CheckingAgent, replies) matches Phase::Failed {
            failure: Failure::HandshakeFailed { .. },
        },
    ensures
        forall|i: int|
            0 <= i < issued(Phase::CheckingAgent, replies).len() ==> issued(
                Phase::CheckingAgent,
                replies,
            )[i] != Command::Freeze && issued(Phase::CheckingAgent, replies)[i] != Command::Thaw,
{
    lemma_handshake_failure_issues_no_guest_command(Phase::CheckingAgent, replies);
}

proof fn lemma_failed_snapshot_from_freezing(
    frozen: u64,
    answer: Result<String, String>,
    rest: Seq<Reply>,
)
    requires
        save_state_failed(answer),
        answered(
            Phase::Freezing,
            seq![Reply::Frozen(Ok(frozen)), Reply::SaveStateAnswered(answer)] + rest,
        ),
    ensures
        ({
            let cmds = issued(
                Phase::Freezing,
                seq![Reply::Frozen(Ok(frozen)), Reply::SaveStateAnswered(answer)] + rest,
            );
            &&& cmds[1] == Command::Thaw
            &&& forall|i: int| 0 <= i < cmds.len() && i != 1 ==> cmds[i] != Command::Thaw
        }),
        rest.len() <= 1,
        rest.len() == 1 ==> rest[0] is Thawed,
        forall|thaw: Result<u64, String>|
            rest == seq![Reply::Thawed(thaw)] ==> run(
                Phase::Freezing,
                seq![Reply::Frozen(Ok(frozen)), Reply::SaveStateAnswered(answer)] + rest,
            ) == (Phase::Failed {
                failure: Failure::SnapshotFailed {
                    fault: snapshot_fault_spec(answer),
                    thaw: thaw_outcome_spec(thaw),
                },
            }),
{
    let r0 = Reply::Frozen(Ok(frozen));
    let r1 = Reply::SaveStateAnswered(answer);
    let s1 = seq![r1] + rest;
    assert(seq![r0, r1] + rest =~= seq![r0] + s1);
    lemma_step(Phase::Freezing, r0, s1);
    lemma_step(Phase::Snapshotting, r1, rest);
    let thawing = Phase::Thawing { snapshot: answer };
    let cmds = issued(Phase::Freezing, seq![r0, r1] + rest);
    if rest.len() == 0 {
        assert(cmds =~= seq![Command::SaveState, Command::Thaw]);
    } else {
        let t = rest[0];
        lemma_step(thawing, t, rest.drop_first());
        assert(rest =~= seq![t] + rest.drop_first());
        assert(t is Thawed);
        let last = next_phase(thawing, t);
        assert(last is Failed);
        if rest.len() > 1 {
            let more = rest.drop_first();
            lemma_step(last, more[0], more.drop_first());
            assert(more =~= seq![more[0]] + more.drop_first());
            assert(false);
        }
        assert(rest.drop_first() =~= Seq::<Reply>::empty());
        assert(cmds =~= seq![Command::SaveState, Command::Thaw, Command::Finish]);
    }
}

/// The replies of a session in which every step before the save-state
/// succeeds and the guest reports `frozen` filesystems frozen.
pub open spec fn successful_start(frozen: u64) -> Seq<Reply> {
    seq![
        Reply::EndpointChecked { present: true },
        Reply::EndpointChecked { present: true },
        Reply::Connected(Ok(())),
        Reply::Connected(Ok(())),
        Reply::Negotiated(Ok(())),
        Reply::Frozen(Ok(frozen)),
    ]
}

proof fn lemma_successful_start(frozen: u64, rest: Seq<Reply>)
    ensures
        run(Phase::CheckingAgent, successful_start(frozen) + rest) == run(Phase::Snapshotting, rest),
{
    let s = successful_start(frozen);
    lemma_step_at(Phase::CheckingAgent, s, 0, rest);
    lemma_step_at(Phase::CheckingMonitor, s, 1, rest);
    lemma_step_at(Phase::ConnectingMonitor, s, 2, rest);
    lemma_step_at(Phase::ConnectingAgent, s, 3, rest);
    lemma_step_at(Phase::Negotiating, s, 4, rest);
    lemma_step_at(Phase::Freezing, s, 5, rest);
    assert(s.subrange(0, 6) =~= s);
    assert(s.subrange(6, 6) + rest =~= rest);
}

proof fn lemma_step_at(phase: Phase, s: Seq<Reply>, i: int, rest: Seq<Reply>)
    requires
        0 <= i < s.len(),
    ensures
        run(phase, s.subrange(i, s.len() as int) + rest) == run(
            next_phase(phase, s[i]),
            s.subrange(i + 1, s.len() as int) + rest,
        ),
{
    let tail = s.subrange(i + 1, s.len() as int) + rest;
    assert(s.subrange(i, s.len() as int) + rest =~= seq![s[i]] + tail);
    lemma_step(phase, s[i], tail);
}

/// The save-state step's success signal is an empty response. After every
/// earlier step succeeded, an empty response followed by a successful thaw and
/// power-down ends the session successfully; a non-empty response ends it in
/// a failure that carries that response verbatim, whatever the thaw did, and
/// the machine is not powered down.
pub proof fn empty_response_signals_success(
    frozen: u64,
    response: String,
    thaw: Result<u64, String>,
)
    ensures
        response@.len() == 0 && thaw is Ok ==> run(
            Phase::CheckingAgent,
            successful_start(frozen) + seq![
                Reply::SaveStateAnswered(Ok(response)),
                Reply::Thawed(thaw),
                Reply::PoweredDown(Ok(())),
            ],
        ) == Phase::Done,
        response@.len() > 0 ==> run(
            Phase::CheckingAgent,
            successful_start(frozen) + seq![Reply::SaveStateAnswered(Ok(response)), Reply::Thawed(thaw)],
        ) == (Phase::Failed {
            failure: Failure::SnapshotFailed {
                fault: SnapshotFault::ErrorReported { response },
                thaw: thaw_outcome_spec(thaw),
            },
        }),
{
    let a = Reply::SaveStateAnswered(Ok(response));
    let t = Reply::Thawed(thaw);
    let d = Reply::PoweredDown(Ok(()));
    let thawing = Phase::Thawing { snapshot: Ok(response) };
    lemma_successful_start(frozen, seq![a, t, d]);
    lemma_successful_start(frozen, seq![a, t]);
    assert(seq![a, t, d] =~= seq![a] + seq![t, d]);
    assert(seq![t, d] =~= seq![t] + seq![d]);
    assert(seq![d] =~= seq![d] + Seq::<Reply>::empty());
    assert(seq![a, t] =~= seq![a] + seq![t]);
    assert(seq![t] =~= seq![t] + Seq::<Reply>::empty());
    lemma_step(Phase::Snapshotting, a, seq![t, d]);
    lemma_step(Phase::Snapshotting, a, seq![t]);
    lemma_step(thawing, t, seq![d]);
    lemma_step(thawing, t, Seq::empty());
    lemma_step(next_phase(thawing, t), d, Seq::empty());
}

proof fn lemma_frozen_reaches_thaw(phase: Phase, replies: Seq<Reply>)
    requires
        answered(phase, replies),
        is_terminal(run(phase, replies)),
        phase is Snapshotting || exists|i: int|
            0 <= i < replies.len() && #[trigger] replies[i] matches Reply::Frozen(Ok(_)),
    ensures
        issued(phase, replies).contains(Command::Thaw),
    decreases replies.len(),
{
    if replies.len() == 0 {
        assert(!(exists|i: int| 0 <= i < replies.len() && #[trigger] replies[i] matches Reply::Frozen(Ok(_))));
    } else {
        let next = next_phase(phase, replies[0]);
        let rest = replies.drop_first();
        let cmds = issued(phase, replies);
        assert(cmds == seq![command_for(next)] + issued(next, rest));
        if phase is Snapshotting {
            assert(cmds[0] == Command::Thaw);
        } else {
            let i = choose|i: int| 0 <= i < replies.len() && #[trigger] replies[i] matches Reply::Frozen(Ok(_));
            if i == 0 {
                assert(next is Snapshotting);
            } else {
                assert(rest[i - 1] == replies[i]);
            }
            lemma_frozen_reaches_thaw(next, rest);
            let j = choose|j: int| 0 <= j < issued(next, rest).len() && issued(next, rest)[j] == Command::Thaw;
            assert(cmds[j + 1] == Command::Thaw);
        }
    }
}

/// A frozen guest is always thawed: in every session that runs to its end,
/// with each reply answering the command it follows, a successful freeze is
/// followed by a thaw command, whatever happens on the monitor in between.
pub proof fn every_freeze_is_followed_by_thaw(replies: Seq<Reply>, i: int)
    requires
        answered(Phase::CheckingAgent, replies),
        is_terminal(run(Phase::CheckingAgent, replies)),
        0 <= i < replies.len(),
        replies[i] matches Reply::Frozen(Ok(_)),
    ensures
        issued(Phase::CheckingAgent, replies).contains(Command::Thaw),
{
    lemma_frozen_reaches_thaw(Phase::CheckingAgent, replies);
}

/// The phases from which the freeze can still come, or is pending.
pub open spec fn up_to_freeze(phase: Phase) -> bool {
    before_freeze(phase) || phase is Freezing
}

proof fn lemma_after_freeze_stays(phase: Phase, replies: Seq<Reply>)
    requires
        !up_to_freeze(phase),
    ensures
        !up_to_freeze(run(phase, replies)),
    decreases replies.len(),
{
    if replies.len() > 0 {
        lemma_after_freeze_stays(next_phase(phase, replies[0]), replies.drop_first());
    }
}

proof fn lemma_no_thaw_before_freeze(phase: Phase, replies: Seq<Reply>)
    requires
        up_to_freeze(phase),
        up_to_freeze(run(phase, replies)),
    ensures
        !issued(phase, replies).contains(Command::Thaw),
    decreases replies.len(),
{
    if replies.len() > 0 {
        let next = next_phase(phase, replies[0]);
        if !up_to_freeze(next) {
            lemma_after_freeze_stays(next, replies.drop_first());
        } else {
            lemma_no_thaw_before_freeze(next, replies.drop_first());
            let tail = issued(next, replies.drop_first());
            assert(issued(phase, replies) == seq![command_for(next)] + tail);
            if issued(phase, replies).contains(Command::Thaw) {
                let j = choose|j: int|
                    0 <= j < issued(phase, replies).len() && issued(phase, replies)[j]
                        == Command::Thaw;
                assert(j > 0);
                assert(tail[j - 1] == Command::Thaw);
            }
        }
    }
}

/// Once the guest is frozen, a failed save-state step (a failed monitor
/// command, or any non-empty response) is followed by exactly one thaw, and
/// when the thaw has answered, the session fails with both the save-state
/// fault and the thaw's outcome. Nothing is asked after that. This holds of
/// every session in which each reply answers the command it follows.
pub proof fn failed_snapshot_is_thawed_once(
    before: Seq<Reply>,
    frozen: u64,
    answer: Result<String, String>,
    rest: Seq<Reply>,
)
    requires
        save_state_failed(answer),
        answered(
            Phase::CheckingAgent,
            before + (seq![Reply::Frozen(Ok(frozen)), Reply::SaveStateAnswered(answer)] + rest),
        ),
    ensures
        ({
            let cmds = issued(
                Phase::CheckingAgent,
                before + (seq![Reply::Frozen(Ok(frozen)), Reply::SaveStateAnswered(answer)] + rest),
            );
            &&& cmds[before.len() as int + 1] == Command::Thaw
            &&& forall|i: int|
                0 <= i < cmds.len() && i != before.len() as int + 1 ==> cmds[i] != Command::Thaw
        }),
        rest.len() <= 1,
        rest.len() == 1 ==> rest[0] is Thawed,
        forall|thaw: Result<u64, String>|
            rest == seq![Reply::Thawed(thaw)] ==> run(
                Phase::CheckingAgent,
                before + (seq![Reply::Frozen(Ok(frozen)), Reply::SaveStateAnswered(answer)] + rest),
            ) == (Phase::Failed {
                failure: Failure::SnapshotFailed {
                    fault: snapshot_fault_spec(answer),
                    thaw: thaw_outcome_spec(thaw),
                },
            }),
{
    let after = seq![Reply::Frozen(Ok(frozen)), Reply::SaveStateAnswered(answer)] + rest;
    lemma_concat(Phase::CheckingAgent, before, after);
    let mid = run(Phase::CheckingAgent, before);
    assert(after[0] == Reply::Frozen(Ok(frozen)));
    assert(answers_spec(command_for(mid), after[0]));
    assert(mid is Freezing);
    lemma_no_thaw_before_freeze(Phase::CheckingAgent, before);
    lemma_issued_len(Phase::CheckingAgent, before);
    lemma_failed_snapshot_from_freezing(frozen, answer, rest);
    let first = issued(Phase::CheckingAgent, before);
    let second = issued(Phase::Freezing, after);
    let cmds = first + second;
    lemma_issued_len(Phase::Freezing, after);
    assert(cmds[first.len() as int + 1] == second[1]);
    assert forall|i: int| 0 <= i < cmds.len() && i != before.len() as int + 1 implies cmds[i]
        != Command::Thaw by {
        if i < first.len() {
            assert(cmds[i] == first[i]);
            if first[i] == Command::Thaw {
                assert(first.contains(Command::Thaw));
            }
        } else {
            assert(cmds[i] == second[i - first.len()]);
        }
    }
}

} // verus!
