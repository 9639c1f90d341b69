//! The event loop scheduler: one cooperative loop multiplexing the protocol
//! socket against the audio server's iteration loop.
//!
//! Each iteration polls the protocol socket with a zero timeout and services
//! exactly one source: the protocol connection when its socket is ready,
//! otherwise one non-blocking audio iteration.  The policy is an explicit
//! function of the readiness bit, so its fairness behaviour — bounded latency
//! for the compositor, audio progress whenever the compositor is idle, and
//! audio starvation under a continuously ready socket — is stated and proved
//! over readiness histories.

use vstd::prelude::*;

verus! {

/// Which event source one loop iteration services.
#[derive(Clone, Copy, PartialEq, Eq, Structural, Debug)]
pub enum LoopBranch {
    /// Read and dispatch pending protocol events.
    Protocol,
    /// Step the audio server's own loop once, without blocking.
    Audio,
}

/// The scheduling policy: a ready protocol socket always wins; only an idle
/// socket lets the audio loop run.
pub open spec fn spec_select_branch(protocol_ready: bool) -> LoopBranch {
    if protocol_ready {
        LoopBranch::Protocol
    } else {
        LoopBranch::Audio
    }
}

/// Decides which source this iteration services from the readiness of the
/// protocol socket.
pub fn select_branch(protocol_ready: bool) -> (b: LoopBranch)
    ensures
        b == spec_select_branch(protocol_ready),
{
    if protocol_ready {
        LoopBranch::Protocol
    } else {
        LoopBranch::Audio
    }
}

/// A failed readiness poll; fatal, like any other severed-transport error.
#[derive(Clone, Copy, PartialEq, Eq, Structural, Debug)]
pub enum SchedulerError {
    PollFailed,
}

/// Relies on `epoll::wait` with a zero timeout and a one-slot event buffer: a
/// non-blocking readiness poll of the descriptors registered on `epoll_fd`
/// that returns how many are ready, at most the buffer's single slot.
#[verifier::external_body]
fn epoll_wait_zero(epoll_fd: i32) -> (r: Result<usize, SchedulerError>)
    ensures
        r matches Ok(n) ==> n <= 1,
{
    let mut events = vec![epoll::Event { events: 0, data: 0 }];
    match epoll::wait(epoll_fd, 0, &mut events) {
        Ok(n) => Ok(n),
        Err(_) => Err(SchedulerError::PollFailed),
    }
}

/// Polls, without blocking, whether the protocol socket registered on
/// `epoll_fd` has pending input.  The answer depends on what the compositor
/// has written, so nothing can be promised of it; [`select_branch`] says what
/// each answer leads to.
pub fn protocol_socket_ready(epoll_fd: i32) -> (r: Result<bool, SchedulerError>) {
    match epoll_wait_zero(epoll_fd) {
        Ok(n) => Ok(n != 0),
        Err(e) => Err(e),
    }
}

/// How many iterations of a readiness history the policy gives to the
/// protocol connection.
pub open spec fn protocol_services(readiness: Seq<bool>) -> nat
    decreases readiness.len(),
{
    if readiness.len() == 0 {
        0
    } else {
        protocol_services(readiness.drop_last()) + (if readiness.last() {
            1nat
        } else {
            0nat
        })
    }
}

/// How many iterations of a readiness history the policy gives to the audio
/// loop.
pub open spec fn audio_services(readiness: Seq<bool>) -> nat
    decreases readiness.len(),
{
    if readiness.len() == 0 {
        0
    } else {
        audio_services(readiness.drop_last()) + (if readiness.last() {
            0nat
        } else {
            1nat
        })
    }
}

/// Law: every iteration services exactly one source, so over any readiness
/// history the two service counts partition the iterations.
pub proof fn lemma_scheduler_partitions(readiness: Seq<bool>)
    ensures
        protocol_services(readiness) + audio_services(readiness) == readiness.len(),
    decreases readiness.len(),
{
    if readiness.len() > 0 {
        lemma_scheduler_partitions(readiness.drop_last());
    }
}

/// Law (documented starvation): while the protocol socket is ready on every
/// iteration, the audio loop is never stepped.
pub proof fn lemma_audio_starved_when_always_ready(readiness: Seq<bool>)
    requires
        forall|i: int| 0 <= i < readiness.len() ==> readiness[i],
    ensures
        protocol_services(readiness) == readiness.len(),
        audio_services(readiness) == 0,
    decreases readiness.len(),
{
    if readiness.len() > 0 {
        lemma_audio_starved_when_always_ready(readiness.drop_last());
    }
}

/// Law: a socket that is ready on exactly every other iteration gives the
/// audio loop half of the iterations, rounded down.
pub proof fn lemma_audio_half_when_alternating(readiness: Seq<bool>)
    requires
        forall|i: int| 0 <= i < readiness.len() ==> readiness[i] == (i % 2 == 0),
    ensures
        2 * audio_services(readiness) == readiness.len() - (readiness.len() % 2),
        protocol_services(readiness) == readiness.len() - audio_services(readiness),
    decreases readiness.len(),
{
    lemma_scheduler_partitions(readiness);
    if readiness.len() > 0 {
        lemma_audio_half_when_alternating(readiness.drop_last());
    }
}

/// Replays the policy over a recorded readiness history and tallies how many
/// iterations each source got.
pub fn tally_schedule(readiness: &Vec<bool>) -> (r: (usize, usize))
    ensures
        r.0 == protocol_services(readiness@),
        r.1 == audio_services(readiness@),
        r.0 + r.1 == readiness@.len(),
{
    let mut protocol_count: usize = 0;
    let mut audio_count: usize = 0;
    let mut i: usize = 0;
    while i < readiness.len()
        invariant
            i <= readiness@.len(),
            protocol_count == protocol_services(readiness@.subrange(0, i as int)),
            audio_count == audio_services(readiness@.subrange(0, i as int)),
            protocol_count + audio_count == i,
        decreases readiness@.len() - i,
    {
        let ghost prefix = readiness@.subrange(0, i as int);
        match select_branch(readiness[i]) {
            LoopBranch::Protocol => protocol_count = protocol_count + 1,
            LoopBranch::Audio => audio_count = audio_count + 1,
        }
        i = i + 1;
        proof {
            let next = readiness@.subrange(0, i as int);
            assert(next.drop_last() =~= prefix);
        }
    }
    proof {
        assert(readiness@.subrange(0, readiness@.len() as int) =~= readiness@);
    }
    (protocol_count, audio_count)
}

} // verus!
