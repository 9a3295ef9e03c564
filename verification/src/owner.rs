//! The selection owner: a state machine from inputs to actions.
//!
//! The owner performs no I/O. Its caller claims the selection, waits for
//! events, resolves who is asking, shows the prompt and sends what the owner
//! tells it to send; every observation comes in as an `Input` and every
//! effect goes out as an `Action`.
//!
//! ```text
//! Unclaimed --Claimed--> Owning --Request, lists undecided--> Prompting
//!                        Owning <------Answer: reject, continue-- Prompting
//! Owning, Prompting --share, clear, loss, timeout, failure--> Terminated
//! ```
//!
//! The secret leaves the owner in one reply at most: the step that sends it
//! also terminates the owner, and a terminated owner sends nothing.

use crate::config::Conf;
use crate::deadline::{deadline_after, Deadline};
use crate::policy::{evaluate, remember, remembered, verdict_of, Decision, Verdict};
use crate::protocol::{
    delivery, is_reserved, is_reserved_property, refusal, reject, respond, Atoms, Payload,
    PayloadView, Reply, ReplyView, SelectionRequest, ATOM, NONE,
};
use crate::secret::Pass;
use vstd::prelude::*;
use vstd::slice::slice_to_vec;

verus! {

/// How a run ended.
#[derive(Clone, Copy, Debug, PartialEq, Eq, Structural)]
pub enum Outcome {
    /// The secret was handed to one requestor.
    Shared,
    /// The user chose to hand it to nobody.
    Cleared,
    /// Another client took the selection.
    Lost,
    /// The deadline passed.
    TimedOut,
    /// A protocol or I/O error that could not be recovered from.
    Error,
}

impl Outcome {
    /// The exit code of the process: zero for every ordinary ending.
    pub open spec fn code(self) -> int {
        if self is Error {
            1
        } else {
            0
        }
    }

    /// The exit code of the process: zero for every ordinary ending.
    pub fn exit_code(&self) -> (code: i32)
        ensures
            code == self.code(),
    {
        match self {
            Outcome::Error => 1,
            _ => 0,
        }
    }
}

/// Where the owner stands.
#[derive(Clone, Debug, PartialEq, Eq)]
pub enum Phase {
    /// The selection has not been claimed yet.
    Unclaimed,
    /// The selection is owned and the owner waits for events.
    Owning,
    /// The user is being asked about `request`; no event is read meanwhile.
    Prompting { request: SelectionRequest, identity: Option<String> },
    /// The run is over.
    Terminated(Outcome),
}

/// `Phase` as a mathematical value.
pub enum PhaseView {
    Unclaimed,
    Owning,
    Prompting { request: SelectionRequest, identity: Option<Seq<char>> },
    Terminated(Outcome),
}

impl View for Phase {
    type V = PhaseView;

    open spec fn view(&self) -> PhaseView {
        match self {
            Phase::Unclaimed => PhaseView::Unclaimed,
            Phase::Owning => PhaseView::Owning,
            Phase::Prompting { request, identity } => PhaseView::Prompting {
                request: *request,
                identity: identity.deep_view(),
            },
            Phase::Terminated(outcome) => PhaseView::Terminated(*outcome),
        }
    }
}

/// What the caller observed.
#[derive(Clone, Debug, PartialEq, Eq)]
pub enum Input {
    /// The selection was claimed at instant `now`, with these atoms interned.
    Claimed { atoms: Atoms, now: u64 },
    /// A client asks for the selection. `property_name` is the name of the
    /// destination property, `identity` the requestor's executable path if
    /// it could be resolved.
    Request { request: SelectionRequest, property_name: Vec<u8>, identity: Option<String> },
    /// The user's answer to the prompt.
    Answer(Decision),
    /// Another client claimed the selection.
    OwnershipLost,
    /// The deadline passed with no event pending.
    DeadlineElapsed,
    /// An event of any other kind.
    Other,
    /// Setup, a protocol round trip or the wait itself failed.
    Failed,
}

/// `Input` as a mathematical value.
pub enum InputView {
    Claimed { atoms: Atoms, now: u64 },
    Request { request: SelectionRequest, property_name: Seq<u8>, identity: Option<Seq<char>> },
    Answer(Decision),
    OwnershipLost,
    DeadlineElapsed,
    Other,
    Failed,
}

impl View for Input {
    type V = InputView;

    open spec fn view(&self) -> InputView {
        match self {
            Input::Claimed { atoms, now } => InputView::Claimed { atoms: *atoms, now: *now },
            Input::Request { request, property_name, identity } => InputView::Request {
                request: *request,
                property_name: property_name@,
                identity: identity.deep_view(),
            },
            Input::Answer(decision) => InputView::Answer(*decision),
            Input::OwnershipLost => InputView::OwnershipLost,
            Input::DeadlineElapsed => InputView::DeadlineElapsed,
            Input::Other => InputView::Other,
            Input::Failed => InputView::Failed,
        }
    }
}

/// What the caller has to do next.
#[derive(Clone, Debug, PartialEq, Eq)]
pub enum Action {
    /// Nothing goes out.
    Nothing,
    /// Send this reply: the property write, if any, then the notice.
    Send(Reply),
    /// Ask the user and come back with `Input::Answer`.
    Prompt,
}

/// `Action` as a mathematical value.
pub enum ActionView {
    Nothing,
    Send(ReplyView),
    Prompt,
}

impl View for Action {
    type V = ActionView;

    open spec fn view(&self) -> ActionView {
        match self {
            Action::Nothing => ActionView::Nothing,
            Action::Send(reply) => ActionView::Send(reply@),
            Action::Prompt => ActionView::Prompt,
        }
    }
}

impl ActionView {
    /// An action that sends raw bytes to a requestor.
    pub open spec fn discloses(self) -> bool {
        self matches ActionView::Send(reply) && reply.discloses()
    }
}

/// The owner as a mathematical value.
pub struct OwnerView {
    pub phase: PhaseView,
    pub secret: Seq<u8>,
    pub allow: Seq<Seq<char>>,
    pub deny: Seq<Seq<char>>,
    pub timeout: Option<u64>,
    pub deadline: Option<int>,
    pub atoms: Atoms,
}

/// The owner before the selection is claimed.
pub open spec fn initial(
    secret: Seq<u8>,
    allow: Seq<Seq<char>>,
    deny: Seq<Seq<char>>,
    timeout: Option<u64>,
) -> OwnerView {
    OwnerView {
        phase: PhaseView::Unclaimed,
        secret,
        allow,
        deny,
        timeout,
        deadline: None,
        atoms: Atoms { clipboard: NONE, targets: NONE, utf8_string: NONE, text_plain: NONE },
    }
}

impl OwnerView {
    /// The selection is owned and the run is not over.
    pub open spec fn live(self) -> bool {
        self.phase is Owning || self.phase is Prompting
    }

    /// The user is only ever asked about a requestor that the lists leave
    /// undecided.
    pub open spec fn wf(self) -> bool {
        self.phase matches PhaseView::Prompting { identity, .. } ==> verdict_of(
            identity,
            self.allow,
            self.deny,
        ) == Verdict::Ask
    }

    /// This owner in another phase.
    pub open spec fn in_phase(self, phase: PhaseView) -> OwnerView {
        OwnerView { phase, ..self }
    }

    /// The reply that hands the secret to `request`, typed as its target.
    pub open spec fn disclosure(self, request: SelectionRequest) -> ReplyView {
        delivery(request, request.target, PayloadView::Bytes(self.secret))
    }

    /// The reply to a query for the supported types: the one content type on
    /// offer, as a list of atoms.
    pub open spec fn advertisement(self, request: SelectionRequest) -> ReplyView {
        delivery(request, ATOM, PayloadView::Atoms(seq![self.atoms.utf8_string]))
    }

    /// An owning owner meets a request.
    pub open spec fn on_request(
        self,
        request: SelectionRequest,
        property_name: Seq<u8>,
        identity: Option<Seq<char>>,
    ) -> (OwnerView, ActionView) {
        if is_reserved(property_name) {
            (self, ActionView::Nothing)
        } else if self.atoms.asks_targets(request.target) {
            (self, ActionView::Send(self.advertisement(request)))
        } else if self.atoms.asks_content(request.target) {
            match verdict_of(identity, self.allow, self.deny) {
                Verdict::Denied => (self, ActionView::Send(refusal(request))),
                Verdict::Allowed => (
                    self.in_phase(PhaseView::Terminated(Outcome::Shared)),
                    ActionView::Send(self.disclosure(request)),
                ),
                Verdict::Ask => (
                    self.in_phase(PhaseView::Prompting { request, identity }),
                    ActionView::Prompt,
                ),
            }
        } else {
            (self, ActionView::Send(refusal(request)))
        }
    }

    /// A prompting owner gets the user's answer about `request`.
    pub open spec fn on_answer(
        self,
        request: SelectionRequest,
        identity: Option<Seq<char>>,
        decision: Decision,
    ) -> (OwnerView, ActionView) {
        match decision {
            Decision::Share => (
                self.in_phase(PhaseView::Terminated(Outcome::Shared)),
                ActionView::Send(self.disclosure(request)),
            ),
            Decision::Clear => (
                self.in_phase(PhaseView::Terminated(Outcome::Cleared)),
                ActionView::Nothing,
            ),
            Decision::Reject => (
                OwnerView {
                    phase: PhaseView::Owning,
                    deny: remembered(self.deny, identity),
                    ..self
                },
                ActionView::Send(refusal(request)),
            ),
            Decision::Continue => (
                self.in_phase(PhaseView::Owning),
                ActionView::Send(refusal(request)),
            ),
        }
    }

    /// One step of the owner: the next state and what goes out.
    ///
    /// Loss of ownership, the deadline and a failure end a live owner at
    /// once and send nothing. Whatever else arrives while the user is being
    /// asked, or before the claim, or after the end, changes nothing and
    /// sends nothing.
    pub open spec fn step(self, input: InputView) -> (OwnerView, ActionView) {
        match self.phase {
            PhaseView::Unclaimed => match input {
                InputView::Claimed { atoms, now } => (
                    OwnerView {
                        phase: PhaseView::Owning,
                        atoms,
                        deadline: match self.timeout {
                            Some(millis) => Some(deadline_after(now, millis)),
                            None => None,
                        },
                        ..self
                    },
                    ActionView::Nothing,
                ),
                InputView::Failed => (
                    self.in_phase(PhaseView::Terminated(Outcome::Error)),
                    ActionView::Nothing,
                ),
                _ => (self, ActionView::Nothing),
            },
            PhaseView::Owning => match input {
                InputView::Request { request, property_name, identity } => self.on_request(
                    request,
                    property_name,
                    identity,
                ),
                InputView::OwnershipLost => (
                    self.in_phase(PhaseView::Terminated(Outcome::Lost)),
                    ActionView::Nothing,
                ),
                InputView::DeadlineElapsed => (
                    self.in_phase(PhaseView::Terminated(Outcome::TimedOut)),
                    ActionView::Nothing,
                ),
                InputView::Failed => (
                    self.in_phase(PhaseView::Terminated(Outcome::Error)),
                    ActionView::Nothing,
                ),
                _ => (self, ActionView::Nothing),
            },
            PhaseView::Prompting { request, identity } => match input {
                InputView::Answer(decision) => self.on_answer(request, identity, decision),
                InputView::OwnershipLost => (
                    self.in_phase(PhaseView::Terminated(Outcome::Lost)),
                    ActionView::Nothing,
                ),
                InputView::DeadlineElapsed => (
                    self.in_phase(PhaseView::Terminated(Outcome::TimedOut)),
                    ActionView::Nothing,
                ),
                InputView::Failed => (
                    self.in_phase(PhaseView::Terminated(Outcome::Error)),
                    ActionView::Nothing,
                ),
                _ => (self, ActionView::Nothing),
            },
            PhaseView::Terminated(_) => (self, ActionView::Nothing),
        }
    }
}

/// The owner of the selection: the secret, the policy lists, the deadline
/// and the phase of the run.
pub struct SelectionOwner {
    phase: Phase,
    secret: Pass,
    allow: Vec<String>,
    deny: Vec<String>,
    timeout: Option<u64>,
    deadline: Option<Deadline>,
    atoms: Atoms,
}

impl View for SelectionOwner {
    type V = OwnerView;

    closed spec fn view(&self) -> OwnerView {
        OwnerView {
            phase: self.phase@,
            secret: self.secret@,
            allow: self.allow.deep_view(),
            deny: self.deny.deep_view(),
            timeout: self.timeout,
            deadline: match self.deadline {
                Some(deadline) => Some(deadline@),
                None => None,
            },
            atoms: self.atoms,
        }
    }
}

impl SelectionOwner {
    /// An owner that has not claimed the selection yet. The accept-list
    /// becomes the allow-list, the reject-list seeds the deny-list.
    pub fn new(conf: Conf, pass: Pass) -> (owner: SelectionOwner)
        ensures
            owner@ == initial(
                pass@,
                conf.accept_list.deep_view(),
                conf.reject_list.deep_view(),
                conf.timeout,
            ),
            owner@.wf(),
    {
        SelectionOwner {
            phase: Phase::Unclaimed,
            secret: pass,
            allow: conf.accept_list,
            deny: conf.reject_list,
            timeout: conf.timeout,
            deadline: None,
            atoms: Atoms { clipboard: NONE, targets: NONE, utf8_string: NONE, text_plain: NONE },
        }
    }

    /// The phase the owner is in.
    pub fn phase(&self) -> (phase: &Phase)
        ensures
            phase@ == self@.phase,
    {
        &self.phase
    }

    /// How the run ended, once it has.
    pub fn outcome(&self) -> (outcome: Option<Outcome>)
        ensures
            outcome == match self@.phase {
                PhaseView::Terminated(outcome) => Some(outcome),
                _ => None,
            },
    {
        match self.phase {
            Phase::Terminated(outcome) => Some(outcome),
            _ => None,
        }
    }

    /// The deadline, fixed when the selection was claimed.
    pub fn deadline(&self) -> (deadline: Option<Deadline>)
        ensures
            self@.deadline == match deadline {
                Some(deadline) => Some(deadline@),
                None => None,
            },
    {
        self.deadline
    }

    /// The atoms handed in with the claim.
    pub fn atoms(&self) -> (atoms: Atoms)
        ensures
            atoms == self@.atoms,
    {
        self.atoms
    }

    /// The deny-list as it stands.
    pub fn deny_list(&self) -> (deny: &Vec<String>)
        ensures
            deny.deep_view() == self@.deny,
    {
        &self.deny
    }

    /// The allow-list.
    pub fn allow_list(&self) -> (allow: &Vec<String>)
        ensures
            allow.deep_view() == self@.allow,
    {
        &self.allow
    }

    /// Takes one input and says what to do.
    pub fn step(&mut self, input: Input) -> (action: Action)
        ensures
            (final(self)@, action@) == old(self)@.step(input@),
    {
        let mut phase = Phase::Owning;
        core::mem::swap(&mut self.phase, &mut phase);
        let (next, action) = match phase {
            Phase::Unclaimed => match input {
                Input::Claimed { atoms, now } => {
                    self.atoms = atoms;
                    self.deadline = match self.timeout {
                        Some(millis) => Some(Deadline::after(now, millis)),
                        None => None,
                    };
                    (Phase::Owning, Action::Nothing)
                },
                Input::Failed => (Phase::Terminated(Outcome::Error), Action::Nothing),
                _ => (Phase::Unclaimed, Action::Nothing),
            },
            Phase::Owning => match input {
                Input::Request { request, property_name, identity } => self.meet(
                    request,
                    property_name,
                    identity,
                ),
                Input::OwnershipLost => (Phase::Terminated(Outcome::Lost), Action::Nothing),
                Input::DeadlineElapsed => (Phase::Terminated(Outcome::TimedOut), Action::Nothing),
                Input::Failed => (Phase::Terminated(Outcome::Error), Action::Nothing),
                _ => (Phase::Owning, Action::Nothing),
            },
            Phase::Prompting { request, identity } => match input {
                Input::Answer(decision) => self.settle(request, identity, decision),
                Input::OwnershipLost => (Phase::Terminated(Outcome::Lost), Action::Nothing),
                Input::DeadlineElapsed => (Phase::Terminated(Outcome::TimedOut), Action::Nothing),
                Input::Failed => (Phase::Terminated(Outcome::Error), Action::Nothing),
                _ => (Phase::Prompting { request, identity }, Action::Nothing),
            },
            Phase::Terminated(outcome) => (Phase::Terminated(outcome), Action::Nothing),
        };
        self.phase = next;
        action
    }

    /// The reply that hands over the secret.
    fn disclose(&self, request: &SelectionRequest) -> (reply: Reply)
        ensures
            reply@ == self@.disclosure(*request),
    {
        respond(request, request.target, Payload::Bytes(slice_to_vec(self.secret.unlock())))
    }

    /// Handles a request while owning; hands back the phase to go to.
    fn meet(
        &self,
        request: SelectionRequest,
        property_name: Vec<u8>,
        identity: Option<String>,
    ) -> (next: (Phase, Action))
        ensures
            ({
                let owning = self@.in_phase(PhaseView::Owning);
                let model = owning.on_request(request, property_name@, identity.deep_view());
                (owning.in_phase(next.0@), next.1@) == model
            }),
    {
        if is_reserved_property(property_name.as_slice()) {
            (Phase::Owning, Action::Nothing)
        } else if request.target == self.atoms.targets {
            let mut offer: Vec<u32> = Vec::new();
            offer.push(self.atoms.utf8_string);
            assert(offer@ =~= seq![self.atoms.utf8_string]);
            (Phase::Owning, Action::Send(respond(&request, ATOM, Payload::Atoms(offer))))
        } else if request.target == self.atoms.utf8_string || request.target
            == self.atoms.text_plain {
            match evaluate(&identity, &self.allow, &self.deny) {
                Verdict::Denied => (Phase::Owning, Action::Send(reject(&request))),
                Verdict::Allowed => (
                    Phase::Terminated(Outcome::Shared),
                    Action::Send(self.disclose(&request)),
                ),
                Verdict::Ask => (Phase::Prompting { request, identity }, Action::Prompt),
            }
        } else {
            (Phase::Owning, Action::Send(reject(&request)))
        }
    }

    /// Carries out the user's answer; hands back the phase to go to.
    fn settle(&mut self, request: SelectionRequest, identity: Option<String>, decision: Decision) -> (next:
        (Phase, Action))
        ensures
            ({
                let model = old(self)@.on_answer(request, identity.deep_view(), decision);
                (final(self)@.in_phase(next.0@), next.1@) == model
            }),
            final(self)@.phase == old(self)@.phase,
    {
        match decision {
            Decision::Share => (
                Phase::Terminated(Outcome::Shared),
                Action::Send(self.disclose(&request)),
            ),
            Decision::Clear => (Phase::Terminated(Outcome::Cleared), Action::Nothing),
            Decision::Reject => {
                remember(&mut self.deny, identity);
                (Phase::Owning, Action::Send(reject(&request)))
            },
            Decision::Continue => (Phase::Owning, Action::Send(reject(&request))),
        }
    }
}

} // verus!
