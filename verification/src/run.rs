//! Runs of the owner: what holds of every sequence of inputs.
//!
//! A run is the owner's `step` folded over a sequence of inputs. The
//! theorems below are stated over `run`, `state_at` and `action_at`, and over
//! single steps where a single step says it all.

use crate::deadline::{deadline_after, poll_step_of, PollStep};
use crate::owner::{ActionView, InputView, Outcome, OwnerView, PhaseView};
use crate::policy::{verdict_of, Decision, Verdict};
use crate::protocol::{is_reserved, refusal, Atoms, SelectionRequest};
use vstd::prelude::*;

verus! {

/// The owner after it has taken `inputs` in order.
pub open spec fn run(start: OwnerView, inputs: Seq<InputView>) -> OwnerView
    decreases inputs.len(),
{
    if inputs.len() == 0 {
        start
    } else {
        run(start, inputs.drop_last()).step(inputs.last()).0
    }
}

/// The owner as input `k` finds it.
pub open spec fn state_at(start: OwnerView, inputs: Seq<InputView>, k: int) -> OwnerView {
    run(start, inputs.take(k))
}

/// What input `k` makes the owner do.
pub open spec fn action_at(start: OwnerView, inputs: Seq<InputView>, k: int) -> ActionView {
    state_at(start, inputs, k).step(inputs[k]).1
}

/// Whose request a step deals with: the requestor of the request that
/// arrives, or of the one that the user is answering.
pub open spec fn addressee(state: OwnerView, input: InputView) -> Option<Seq<char>> {
    match input {
        InputView::Request { identity, .. } => identity,
        InputView::Answer(_) => match state.phase {
            PhaseView::Prompting { identity, .. } => identity,
            _ => None,
        },
        _ => None,
    }
}

/// The state that an input finds is the state that the input before it left.
pub proof fn state_at_unfolds(start: OwnerView, inputs: Seq<InputView>, k: int)
    requires
        0 <= k < inputs.len(),
    ensures
        state_at(start, inputs, 0) == start,
        state_at(start, inputs, k + 1) == state_at(start, inputs, k).step(inputs[k]).0,
        state_at(start, inputs, inputs.len() as int) == run(start, inputs),
{
    assert(inputs.take(k + 1).drop_last() =~= inputs.take(k));
    assert(inputs.take(k + 1).last() == inputs[k]);
    assert(inputs.take(inputs.len() as int) =~= inputs);
}

/// One step never touches the secret, the allow-list or the timeout; it
/// only ever appends to the deny-list; once the selection is claimed it
/// never goes back to unclaimed nor touches the atoms or the deadline; it
/// keeps the owner well-formed; it changes nothing and sends nothing once
/// the run is over; and where it discloses, it sends exactly the secret and
/// ends the run as shared.
pub proof fn step_preserves(state: OwnerView, input: InputView)
    ensures
        ({
            let (next, action) = state.step(input);
            &&& next.secret == state.secret
            &&& next.allow == state.allow
            &&& next.timeout == state.timeout
            &&& state.deny.is_prefix_of(next.deny)
            &&& !(state.phase is Unclaimed) ==> !(next.phase is Unclaimed) && next.atoms
                == state.atoms && next.deadline == state.deadline
            &&& state.wf() ==> next.wf()
            &&& state.phase is Terminated ==> next == state && action is Nothing
            &&& action.discloses() ==> next.phase == PhaseView::Terminated(Outcome::Shared)
                && action->Send_0.carries(state.secret)
        }),
{
    let (next, action) = state.step(input);
    if next.deny.len() == state.deny.len() {
        assert(next.deny =~= state.deny);
    }
    assert(next.deny.subrange(0, state.deny.len() as int) =~= state.deny);
}

/// A prefix of a sequence holds nothing that the sequence does not hold.
proof fn prefix_contains(shorter: Seq<Seq<char>>, longer: Seq<Seq<char>>, name: Seq<char>)
    requires
        shorter.is_prefix_of(longer),
        shorter.contains(name),
    ensures
        longer.contains(name),
{
    let i = choose|i: int| 0 <= i < shorter.len() && shorter[i] == name;
    assert(longer.subrange(0, shorter.len() as int)[i] == longer[i]);
}

/// From any point of a run to any later one: the secret, the allow-list and
/// the timeout are the same, the deny-list has only grown, the atoms and
/// the deadline are as they were fixed with the claim, a well-formed owner
/// is still well-formed, and an owner whose run was over has not changed at
/// all.
pub proof fn run_preserves(start: OwnerView, inputs: Seq<InputView>, k: int, j: int)
    requires
        0 <= k <= j <= inputs.len(),
    ensures
        ({
            let earlier = state_at(start, inputs, k);
            let later = state_at(start, inputs, j);
            &&& later.secret == earlier.secret
            &&& later.allow == earlier.allow
            &&& later.timeout == earlier.timeout
            &&& earlier.deny.is_prefix_of(later.deny)
            &&& !(earlier.phase is Unclaimed) ==> !(later.phase is Unclaimed) && later.atoms
                == earlier.atoms && later.deadline == earlier.deadline
            &&& earlier.wf() ==> later.wf()
            &&& earlier.phase is Terminated ==> later == earlier
        }),
    decreases j - k,
{
    if k < j {
        let earlier = state_at(start, inputs, k);
        let before = state_at(start, inputs, j - 1);
        let later = state_at(start, inputs, j);
        run_preserves(start, inputs, k, j - 1);
        state_at_unfolds(start, inputs, j - 1);
        step_preserves(before, inputs[j - 1]);
        assert(later.deny.subrange(0, earlier.deny.len() as int) =~= before.deny.subrange(
            0,
            earlier.deny.len() as int,
        ));
    } else {
        let here = state_at(start, inputs, k);
        assert(here.deny.subrange(0, here.deny.len() as int) =~= here.deny);
    }
}

/// Once the run is over nothing is sent: every later input is answered with
/// nothing, and the owner ends as it stood.
pub proof fn terminated_owner_is_silent(start: OwnerView, inputs: Seq<InputView>, k: int, j: int)
    requires
        0 <= k <= j < inputs.len(),
        state_at(start, inputs, k).phase is Terminated,
    ensures
        action_at(start, inputs, j) is Nothing,
        run(start, inputs) == state_at(start, inputs, k),
{
    run_preserves(start, inputs, k, j);
    run_preserves(start, inputs, k, inputs.len() as int);
    state_at_unfolds(start, inputs, j);
}

/// While the owner is live it has disclosed nothing: no input before `k`
/// was answered with the secret.
pub proof fn live_owner_has_not_disclosed(start: OwnerView, inputs: Seq<InputView>, i: int, k: int)
    requires
        0 <= i < k <= inputs.len(),
        !(state_at(start, inputs, k).phase is Terminated),
    ensures
        !action_at(start, inputs, i).discloses(),
{
    if action_at(start, inputs, i).discloses() {
        state_at_unfolds(start, inputs, i);
        step_preserves(state_at(start, inputs, i), inputs[i]);
        run_preserves(start, inputs, i + 1, k);
    }
}

/// The secret goes out at most once: of any two inputs of a run, at most
/// one is answered with a disclosure.
pub proof fn at_most_one_disclosure(start: OwnerView, inputs: Seq<InputView>, i: int, j: int)
    requires
        0 <= i < j < inputs.len(),
    ensures
        !(action_at(start, inputs, i).discloses() && action_at(start, inputs, j).discloses()),
{
    if action_at(start, inputs, i).discloses() {
        state_at_unfolds(start, inputs, i);
        step_preserves(state_at(start, inputs, i), inputs[i]);
        terminated_owner_is_silent(start, inputs, i + 1, j);
    }
}

/// A disclosure carries exactly the secret that the run started with, and
/// ends the run as shared.
pub proof fn disclosure_carries_the_secret(start: OwnerView, inputs: Seq<InputView>, k: int)
    requires
        0 <= k < inputs.len(),
        action_at(start, inputs, k).discloses(),
    ensures
        action_at(start, inputs, k) matches ActionView::Send(reply) && reply.carries(start.secret),
        state_at(start, inputs, k + 1).phase == PhaseView::Terminated(Outcome::Shared),
        run(start, inputs).phase == PhaseView::Terminated(Outcome::Shared),
{
    state_at_unfolds(start, inputs, k);
    step_preserves(state_at(start, inputs, k), inputs[k]);
    run_preserves(start, inputs, 0, k);
    run_preserves(start, inputs, k + 1, inputs.len() as int);
}

/// An identity that is on the deny-list at some point of a run gets no
/// disclosure from then on, however often it asks.
pub proof fn denied_identity_gets_no_secret(
    start: OwnerView,
    inputs: Seq<InputView>,
    k: int,
    j: int,
    name: Seq<char>,
)
    requires
        start.wf(),
        0 <= k <= j < inputs.len(),
        state_at(start, inputs, k).deny.contains(name),
        addressee(state_at(start, inputs, j), inputs[j]) == Some(name),
    ensures
        !action_at(start, inputs, j).discloses(),
{
    let state = state_at(start, inputs, j);
    run_preserves(start, inputs, 0, j);
    run_preserves(start, inputs, k, j);
    prefix_contains(state_at(start, inputs, k).deny, state.deny, name);
    assert(verdict_of(Some(name), state.allow, state.deny) == Verdict::Denied);
}

/// A requestor on the allow-list and not on the deny-list gets the secret
/// at once: its request for the content is answered with the secret, the
/// user is not asked, and the run ends.
pub proof fn allowed_identity_is_served_at_once(
    state: OwnerView,
    request: SelectionRequest,
    property_name: Seq<u8>,
    name: Seq<char>,
)
    requires
        state.phase is Owning,
        state.allow.contains(name),
        !state.deny.contains(name),
        state.atoms.asks_content(request.target),
        !is_reserved(property_name),
    ensures
        state.step(InputView::Request { request, property_name, identity: Some(name) }) == (
            state.in_phase(PhaseView::Terminated(Outcome::Shared)),
            ActionView::Send(state.disclosure(request)),
        ),
{
}

/// An identity on the allow-list never gets onto the deny-list: if it is
/// allowed and not denied when the run starts, it is so throughout.
pub proof fn allowed_identity_stays_allowed(
    start: OwnerView,
    inputs: Seq<InputView>,
    k: int,
    name: Seq<char>,
)
    requires
        start.wf(),
        start.allow.contains(name),
        !start.deny.contains(name),
        0 <= k <= inputs.len(),
    ensures
        state_at(start, inputs, k).allow.contains(name),
        !state_at(start, inputs, k).deny.contains(name),
    decreases k,
{
    if k == 0 {
        assert(inputs.take(0) =~= Seq::<InputView>::empty());
    } else {
        let before = state_at(start, inputs, k - 1);
        let after = state_at(start, inputs, k);
        allowed_identity_stays_allowed(start, inputs, k - 1, name);
        run_preserves(start, inputs, 0, k - 1);
        state_at_unfolds(start, inputs, k - 1);
        if after.deny != before.deny {
            let added = before.phase->Prompting_identity->Some_0;
            assert(after.deny == before.deny.push(added));
            assert(verdict_of(Some(added), before.allow, before.deny) == Verdict::Ask);
            assert(added != name);
            if after.deny.contains(name) {
                let i = choose|i: int| 0 <= i < after.deny.len() && after.deny[i] == name;
                assert(before.deny[i] == name);
            }
        }
    }
}

/// In a run that starts with an identity allowed and not denied, a request
/// of that identity for the content that finds the owner owning is answered
/// with the secret, and the run ends there.
pub proof fn allowed_identity_is_served_in_any_run(
    start: OwnerView,
    inputs: Seq<InputView>,
    j: int,
    request: SelectionRequest,
    property_name: Seq<u8>,
    name: Seq<char>,
)
    requires
        start.wf(),
        start.allow.contains(name),
        !start.deny.contains(name),
        0 <= j < inputs.len(),
        state_at(start, inputs, j).phase is Owning,
        inputs[j] == (InputView::Request { request, property_name, identity: Some(name) }),
        state_at(start, inputs, j).atoms.asks_content(request.target),
        !is_reserved(property_name),
    ensures
        action_at(start, inputs, j) matches ActionView::Send(reply) && reply.carries(start.secret),
        action_at(start, inputs, j) == ActionView::Send(
            state_at(start, inputs, j).disclosure(request),
        ),
        run(start, inputs).phase == PhaseView::Terminated(Outcome::Shared),
{
    allowed_identity_stays_allowed(start, inputs, j, name);
    allowed_identity_is_served_at_once(state_at(start, inputs, j), request, property_name, name);
    disclosure_carries_the_secret(start, inputs, j);
}

/// A query for the supported types never ends the run, whatever the phase
/// and the lists; an owning owner answers it with exactly the one content
/// type on offer, whoever asks.
pub proof fn types_query_is_always_answered(
    state: OwnerView,
    request: SelectionRequest,
    property_name: Seq<u8>,
    identity: Option<Seq<char>>,
)
    requires
        state.atoms.asks_targets(request.target),
    ensures
        state.step(InputView::Request { request, property_name, identity }).0 == state,
        state.phase is Owning && !is_reserved(property_name) ==> state.step(
            InputView::Request { request, property_name, identity },
        ).1 == ActionView::Send(state.advertisement(request)),
{
}

/// A requestor that the lists leave undecided is put to the user, and
/// nothing is sent until the user has answered.
pub proof fn undecided_identity_is_put_to_the_user(
    state: OwnerView,
    request: SelectionRequest,
    property_name: Seq<u8>,
    identity: Option<Seq<char>>,
)
    requires
        state.phase is Owning,
        state.atoms.asks_content(request.target),
        !is_reserved(property_name),
        verdict_of(identity, state.allow, state.deny) == Verdict::Ask,
    ensures
        state.step(InputView::Request { request, property_name, identity }) == (
            state.in_phase(PhaseView::Prompting { request, identity }),
            ActionView::Prompt,
        ),
{
}

/// The deadline ends a live owner's run as timed out, with exit code zero:
/// nothing is sent for it or after it, and no input of the whole run is
/// answered with the secret.
pub proof fn deadline_ends_the_run(start: OwnerView, inputs: Seq<InputView>, k: int)
    requires
        0 <= k < inputs.len(),
        state_at(start, inputs, k).live(),
        inputs[k] is DeadlineElapsed,
    ensures
        action_at(start, inputs, k) is Nothing,
        run(start, inputs).phase == PhaseView::Terminated(Outcome::TimedOut),
        Outcome::TimedOut.code() == 0,
        forall|j: int| k < j < inputs.len() ==> action_at(start, inputs, j) is Nothing,
        forall|j: int| 0 <= j < inputs.len() ==> !action_at(start, inputs, j).discloses(),
{
    state_at_unfolds(start, inputs, k);
    run_preserves(start, inputs, k + 1, inputs.len() as int);
    assert forall|j: int| 0 <= j < inputs.len() implies !action_at(start, inputs, j).discloses()
        && (k < j ==> action_at(start, inputs, j) is Nothing) by {
        if j < k {
            live_owner_has_not_disclosed(start, inputs, j, k);
        } else if j > k {
            terminated_owner_is_silent(start, inputs, k + 1, j);
        }
    }
}

/// Loss of ownership ends a live owner's run as lost, at once, whatever is
/// still waiting to be read: nothing is sent for it or after it.
pub proof fn ownership_loss_ends_the_run(start: OwnerView, inputs: Seq<InputView>, k: int)
    requires
        0 <= k < inputs.len(),
        state_at(start, inputs, k).live(),
        inputs[k] is OwnershipLost,
    ensures
        action_at(start, inputs, k) is Nothing,
        state_at(start, inputs, k + 1).phase == PhaseView::Terminated(Outcome::Lost),
        run(start, inputs).phase == PhaseView::Terminated(Outcome::Lost),
        Outcome::Lost.code() == 0,
        forall|j: int| k < j < inputs.len() ==> action_at(start, inputs, j) is Nothing,
{
    state_at_unfolds(start, inputs, k);
    run_preserves(start, inputs, k + 1, inputs.len() as int);
    assert forall|j: int| k < j < inputs.len() implies action_at(start, inputs, j) is Nothing by {
        terminated_owner_is_silent(start, inputs, k + 1, j);
    }
}

/// When the user rejects a requestor whose identity is known, the identity
/// is appended to the deny-list and stays there; a later request of the
/// same identity for the content is refused without asking the user, and
/// the owner goes on owning.
pub proof fn rejected_identity_is_refused_unprompted(
    start: OwnerView,
    inputs: Seq<InputView>,
    k: int,
    j: int,
    name: Seq<char>,
    request: SelectionRequest,
    property_name: Seq<u8>,
)
    requires
        0 <= k < j < inputs.len(),
        state_at(start, inputs, k).phase matches PhaseView::Prompting { identity, .. } && identity
            == Some(name),
        inputs[k] == InputView::Answer(Decision::Reject),
        state_at(start, inputs, j).phase is Owning,
        inputs[j] == (InputView::Request { request, property_name, identity: Some(name) }),
        state_at(start, inputs, j).atoms.asks_content(request.target),
        !is_reserved(property_name),
    ensures
        state_at(start, inputs, k + 1).deny == state_at(start, inputs, k).deny.push(name),
        state_at(start, inputs, k + 1).phase is Owning,
        state_at(start, inputs, j).deny.contains(name),
        action_at(start, inputs, j) == ActionView::Send(refusal(request)),
        state_at(start, inputs, j + 1) == state_at(start, inputs, j),
{
    let declined = state_at(start, inputs, k + 1);
    state_at_unfolds(start, inputs, k);
    state_at_unfolds(start, inputs, j);
    assert(declined.deny[declined.deny.len() - 1] == name);
    run_preserves(start, inputs, k + 1, j);
    prefix_contains(declined.deny, state_at(start, inputs, j).deny, name);
}

/// The claim fixes the deadline once: the configured timeout after the
/// instant of the claim, or none where no timeout is configured. From then
/// on `run_preserves` keeps it as it is.
pub proof fn claim_fixes_the_deadline(state: OwnerView, atoms: Atoms, now: u64)
    requires
        state.phase is Unclaimed,
    ensures
        ({
            let (next, action) = state.step(InputView::Claimed { atoms, now });
            &&& next.phase is Owning
            &&& next.atoms == atoms
            &&& next.deadline == match state.timeout {
                Some(millis) => Some(deadline_after(now, millis)),
                None => None,
            }
            &&& action is Nothing
        }),
{
}

/// With nothing buffered, the wait gives up exactly when the deadline has
/// passed; a buffered event is handed on whatever the clock says.
pub proof fn wait_gives_up_past_the_deadline<E>(deadline: int, event: E, now: u64)
    ensures
        poll_step_of::<E>(deadline, None, now) is TimedOut <==> now > deadline,
        poll_step_of(deadline, Some(event), now) == PollStep::Ready(event),
{
}

} // verus!
