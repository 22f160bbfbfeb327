//! Properties of the rotation controller that span several transitions.
use vstd::prelude::*;
use crate::controller::{AdvanceKind, RotationModel};

verus! {

/// An advance within bounds, on a state whose lock is free, takes the lock
/// while index and timer keep their old values; once committed, both hold
/// the new values. No state in between shows one changed without the other.
pub proof fn lemma_advance_commits_together(s: RotationModel, index: int, end_time: int)
    requires
        s.wf(),
        s.pending is None,
        s.in_range(index),
    ensures
        s.advance_kind(index) == AdvanceKind::Begun,
        s.begin_advance(index, end_time).current_index == s.current_index,
        s.begin_advance(index, end_time).scheduled_end_time == s.scheduled_end_time,
        s.begin_advance(index, end_time).finish_advance(s.next_ticket).current_index == index,
        s.begin_advance(index, end_time).finish_advance(s.next_ticket).scheduled_end_time == end_time,
        s.begin_advance(index, end_time).finish_advance(s.next_ticket).pending is None,
        s.begin_advance(index, end_time).finish_advance(s.next_ticket).wf(),
{
}

/// An advance to an index outside the URL list leaves the state unchanged.
pub proof fn lemma_out_of_range_is_noop(s: RotationModel, index: int, end_time: int)
    requires
        !s.in_range(index),
    ensures
        s.advance_kind(index) == AdvanceKind::OutOfRange,
        s.begin_advance(index, end_time) == s,
{
}

/// Of two advance requests on a state whose lock is free, the first takes
/// the lock and the second is dropped without a trace; the committed state
/// is the first one's target, whatever the second asked for.
pub proof fn lemma_concurrent_advances(
    s: RotationModel,
    first: int,
    first_end: int,
    second: int,
    second_end: int,
)
    requires
        s.wf(),
        s.pending is None,
        s.in_range(first),
        s.in_range(second),
    ensures
        s.advance_kind(first) == AdvanceKind::Begun,
        s.begin_advance(first, first_end).advance_kind(second) == AdvanceKind::Busy,
        s.begin_advance(first, first_end).begin_advance(second, second_end) == s.begin_advance(
            first,
            first_end,
        ),
        s.begin_advance(first, first_end).begin_advance(
            second,
            second_end,
        ).finish_advance(s.next_ticket).current_index == first,
        s.begin_advance(first, first_end).begin_advance(
            second,
            second_end,
        ).finish_advance(s.next_ticket).scheduled_end_time == first_end,
{
}

/// From the last entry, `advance_next` wraps around to the first.
pub proof fn lemma_advance_next_wraps(s: RotationModel)
    requires
        s.wf(),
        s.active(),
        s.pending is None,
        s.current_index == s.urls.len() - 1,
    ensures
        s.advance_next().finish_advance(s.next_ticket).current_index == 0,
        s.advance_next().finish_advance(s.next_ticket).scheduled_end_time == 0,
{
    vstd::arithmetic::div_mod::lemma_mod_self_0(s.urls.len() as int);
}

/// One supervision cycle: with no acknowledgement the cycle ends in exactly
/// one `advance_next`; with one, nothing but the probe flags changes.
pub proof fn lemma_probe_cycle(s: RotationModel, acked: bool)
    requires
        s.wf(),
        s.active(),
    ensures
        ({
            let sent = s.probe_begin(true);
            let answered = if acked {
                sent.probe_ack()
            } else {
                sent
            };
            let settled = RotationModel { probe_in_flight: false, alive: acked, ..s };
            &&& acked ==> answered.probe_end() == settled
            &&& !acked ==> answered.probe_end() == settled.advance_next()
        }),
{
}

/// While a session is active, `start_session` changes nothing, whatever
/// list it is given; so starting twice in a row keeps the first session and
/// its index.
pub proof fn lemma_second_start_keeps_state(
    s: RotationModel,
    urls: Seq<Seq<char>>,
    valid: bool,
    again: Seq<Seq<char>>,
    again_valid: bool,
)
    requires
        s.wf(),
    ensures
        s.active() ==> s.start_session(again, again_valid) == s,
        s.start_session(urls, valid).active() ==> s.start_session(urls, valid).start_session(
            again,
            again_valid,
        ) == s.start_session(urls, valid),
{
}

/// An advance still under way when its session ends can neither commit nor
/// release the lock of an advance begun in the next session.
pub proof fn lemma_stale_advance_cannot_commit(
    s: RotationModel,
    urls: Seq<Seq<char>>,
    valid: bool,
    index: int,
    end_time: int,
)
    requires
        s.wf(),
        s.pending is Some,
    ensures
        ({
            let stale = s.pending.unwrap().2;
            let next = s.ended().start_session(urls, valid).begin_advance(index, end_time);
            &&& next.finish_advance(stale) == next
            &&& next.abort_advance(stale) == next
        }),
{
}

} // verus!
