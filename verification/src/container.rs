//! A container in the three states of its life: pending, running, and tracked
//! for cleanup.

use vstd::prelude::*;
use vstd::std_specs::convert::FromSpecImpl;
use bollard::Docker;
use crate::address::Ipv4Address;
use crate::daemon::{StartCommand, StartReply, StartReplyView};
use crate::error::{DockerTestError, ErrorView};
use crate::policy::StartPolicy;
use crate::waitfor::WaitFor;

verus! {

#[verifier::external_type_specification]
#[verifier::external_body]
pub struct ExDocker(bollard::Docker);

/// `Clone` of `bollard::Docker`: a second handle on the same connection.
/// Trusted; nothing is claimed of the copy.
pub assume_specification[ <bollard::Docker as Clone>::clone ](client: &bollard::Docker) -> (copy:
    bollard::Docker);

/// What stands in the strategy's place once a pending container is committed
/// to its start: the strategy has been moved out, and the container can be
/// waited for but not started again.
///
/// Only [`PendingContainer::commit`] makes this mark, so a committed container
/// is one whose start the daemon has acknowledged.
#[derive(Debug)]
pub struct Committed {
    mark: (),
}

impl Committed {
    /// The mark.
    pub closed spec fn mark() -> Committed {
        Committed { mark: () }
    }
}

/// A container that the daemon has created and that is not yet confirmed
/// ready.
///
/// `W` is what occupies the place of the readiness strategy: the strategy
/// itself from creation until the start succeeds, [`Committed`] from then on.
pub struct PendingContainer<W = Committed> {
    /// The connection to the daemon, shared with every other container.
    client: Docker,
    /// The name of the container.
    name: String,
    /// The identifier that the daemon issued.
    id: String,
    /// The key under which the caller refers to the container.
    handle: String,
    /// How a failed start of this container weighs on the run.
    start_policy: StartPolicy,
    /// The readiness strategy, or the mark that it was moved out.
    wait: W,
}

/// A container that its readiness strategy has confirmed.
#[derive(Clone, Debug)]
pub struct RunningContainer {
    client: Docker,
    handle: String,
    /// The identifier that the daemon issued.
    id: String,
    /// The name of the container.
    name: String,
    /// The address, as it was when the container was confirmed.
    ip: Ipv4Address,
}

/// The record of a container that has to be removed: its identifier and
/// nothing else.
#[derive(Clone, Debug)]
pub struct CleanupContainer {
    id: String,
}

/// A [`PendingContainer`] as a plain value.
pub struct PendingView<W> {
    pub client: Docker,
    pub name: Seq<char>,
    pub id: Seq<char>,
    pub handle: Seq<char>,
    pub start_policy: StartPolicy,
    pub wait: W,
}

/// A [`RunningContainer`] as a plain value.
pub struct RunningView {
    pub client: Docker,
    pub handle: Seq<char>,
    pub id: Seq<char>,
    pub name: Seq<char>,
    pub ip: Ipv4Address,
}

/// A [`StartStep`] as a plain value.
pub enum StepView<W> {
    Wait { strategy: W, container: PendingView<Committed> },
    Abort { error: ErrorView },
}

impl PendingView<Committed> {
    /// The running container that this one becomes at the address `ip`.
    pub open spec fn running(self, ip: Ipv4Address) -> RunningView {
        RunningView {
            client: self.client,
            handle: self.handle,
            id: self.id,
            name: self.name,
            ip,
        }
    }
}

impl<W> PendingView<W> {
    /// The same container with its strategy moved out.
    pub open spec fn committed(self) -> PendingView<Committed> {
        PendingView {
            client: self.client,
            name: self.name,
            id: self.id,
            handle: self.handle,
            start_policy: self.start_policy,
            wait: Committed::mark(),
        }
    }

    /// The cleanup record of this container: its identifier.
    pub open spec fn cleanup(self) -> Seq<char> {
        self.id
    }

    /// What comes next for this container once the daemon has answered
    /// `reply` to the start command: on an acknowledged start the wait, with
    /// the strategy moved out of the container; on any other answer the error
    /// that the answer stands for.
    pub open spec fn step(self, reply: StartReplyView) -> StepView<W> {
        match reply.failure() {
            Some(error) => StepView::Abort { error },
            None => StepView::Wait { strategy: self.wait, container: self.committed() },
        }
    }
}

impl RunningView {
    /// The cleanup record of this container: its identifier.
    pub open spec fn cleanup(self) -> Seq<char> {
        self.id
    }
}

impl<W> View for PendingContainer<W> {
    type V = PendingView<W>;

    closed spec fn view(&self) -> PendingView<W> {
        PendingView {
            client: self.client,
            name: self.name@,
            id: self.id@,
            handle: self.handle@,
            start_policy: self.start_policy,
            wait: self.wait,
        }
    }
}

impl View for RunningContainer {
    type V = RunningView;

    closed spec fn view(&self) -> RunningView {
        RunningView {
            client: self.client,
            handle: self.handle@,
            id: self.id@,
            name: self.name@,
            ip: self.ip,
        }
    }
}

impl View for CleanupContainer {
    type V = Seq<char>;

    /// The identifier of the container to remove.
    closed spec fn view(&self) -> Seq<char> {
        self.id@
    }
}

impl From<PendingContainer> for RunningContainer {
    /// The running container with the identity and the connection of
    /// `container` and no address: the daemon is not asked for one.
    fn from(container: PendingContainer) -> (running: RunningContainer)
        ensures
            running@ == container@.running(Ipv4Address::unspecified_spec()),
    {
        RunningContainer {
            client: container.client,
            handle: container.handle,
            id: container.id,
            name: container.name,
            ip: Ipv4Address::unspecified(),
        }
    }
}

impl FromSpecImpl<PendingContainer> for RunningContainer {
    open spec fn obeys_from_spec() -> bool {
        true
    }

    closed spec fn from_spec(container: PendingContainer) -> RunningContainer {
        RunningContainer {
            client: container.client,
            handle: container.handle,
            id: container.id,
            name: container.name,
            ip: Ipv4Address::unspecified_spec(),
        }
    }
}

impl<W> From<PendingContainer<W>> for CleanupContainer {
    /// The cleanup record of `container`: a copy of its identifier.
    fn from(container: PendingContainer<W>) -> (cleanup: CleanupContainer)
        ensures
            cleanup@ == container@.cleanup(),
    {
        CleanupContainer { id: container.id }
    }
}

impl<W> FromSpecImpl<PendingContainer<W>> for CleanupContainer {
    open spec fn obeys_from_spec() -> bool {
        true
    }

    closed spec fn from_spec(container: PendingContainer<W>) -> CleanupContainer {
        CleanupContainer { id: container.id }
    }
}

impl<'a, W> From<&'a PendingContainer<W>> for CleanupContainer {
    /// The cleanup record of `container`, which stays with its owner: a copy
    /// of its identifier.
    fn from(container: &'a PendingContainer<W>) -> (cleanup: CleanupContainer)
        ensures
            cleanup@ == container@.cleanup(),
    {
        CleanupContainer { id: container.id.clone() }
    }
}

impl<'a, W> FromSpecImpl<&'a PendingContainer<W>> for CleanupContainer {
    open spec fn obeys_from_spec() -> bool {
        true
    }

    closed spec fn from_spec(container: &'a PendingContainer<W>) -> CleanupContainer {
        CleanupContainer { id: container.id }
    }
}

impl From<RunningContainer> for CleanupContainer {
    /// The cleanup record of `container`: a copy of its identifier.
    fn from(container: RunningContainer) -> (cleanup: CleanupContainer)
        ensures
            cleanup@ == container@.cleanup(),
    {
        CleanupContainer { id: container.id }
    }
}

impl FromSpecImpl<RunningContainer> for CleanupContainer {
    open spec fn obeys_from_spec() -> bool {
        true
    }

    closed spec fn from_spec(container: RunningContainer) -> CleanupContainer {
        CleanupContainer { id: container.id }
    }
}

impl CleanupContainer {
    /// The identifier of the container to remove.
    pub fn id(&self) -> (id: &str)
        ensures
            id@ == self@,
    {
        self.id.as_str()
    }
}

impl RunningContainer {
    /// The name of the container.
    pub fn name(&self) -> (name: &str)
        ensures
            name@ == self@.name,
    {
        self.name.as_str()
    }

    /// The identifier that the daemon issued.
    pub fn id(&self) -> (id: &str)
        ensures
            id@ == self@.id,
    {
        self.id.as_str()
    }

    /// The address of the container as it was when the container was
    /// confirmed. It is not looked up again: it stays what it was even when the
    /// container has exited since. Where the strategy that confirmed the
    /// container asked for no address, this is the unspecified address.
    pub fn ip(&self) -> (ip: &Ipv4Address)
        ensures
            *ip == self@.ip,
    {
        &self.ip
    }

    /// The key under which the caller refers to the container.
    pub fn handle(&self) -> (handle: &str)
        ensures
            handle@ == self@.handle,
    {
        self.handle.as_str()
    }
}

/// What to do next with a container to which the daemon has answered.
pub enum StartStep<W> {
    /// The daemon acknowledged the start: wait with `strategy` until
    /// `container` is ready.
    Wait { strategy: W, container: PendingContainer },
    /// The start failed with `error`; there is no strategy to ask.
    Abort { error: DockerTestError },
}

impl<W> View for StartStep<W> {
    type V = StepView<W>;

    open spec fn view(&self) -> StepView<W> {
        match self {
            StartStep::Wait { strategy, container } => StepView::Wait {
                strategy: *strategy,
                container: container@,
            },
            StartStep::Abort { error } => StepView::Abort { error: error@ },
        }
    }
}

impl<W> PendingContainer<W> {
    /// The container that the daemon created under the identifier `id` and the
    /// name `name`, which the caller knows as `handle`, with its start policy,
    /// its readiness strategy and the connection to the daemon.
    pub fn new(
        name: &str,
        id: &str,
        handle: &str,
        start_policy: StartPolicy,
        wait: W,
        client: Docker,
    ) -> (container: PendingContainer<W>)
        ensures
            container@ == (PendingView {
                client,
                name: name@,
                id: id@,
                handle: handle@,
                start_policy,
                wait,
            }),
    {
        PendingContainer {
            client,
            name: String::from_str(name),
            id: String::from_str(id),
            handle: String::from_str(handle),
            wait,
            start_policy,
        }
    }

    /// The name of the container.
    pub fn name(&self) -> (name: &str)
        ensures
            name@ == self@.name,
    {
        self.name.as_str()
    }

    /// The identifier that the daemon issued.
    pub fn id(&self) -> (id: &str)
        ensures
            id@ == self@.id,
    {
        self.id.as_str()
    }

    /// The key under which the caller refers to the container.
    pub fn handle(&self) -> (handle: &str)
        ensures
            handle@ == self@.handle,
    {
        self.handle.as_str()
    }

    /// How a failed start of this container weighs on the run.
    pub fn start_policy(&self) -> (start_policy: StartPolicy)
        ensures
            start_policy == self@.start_policy,
    {
        self.start_policy
    }

    /// The connection to the daemon.
    pub fn client(&self) -> (client: &Docker)
        ensures
            *client == self@.client,
    {
        &self.client
    }

    /// The command that starts this container. It is the same for every
    /// container: the container is addressed by its name, and the call has no
    /// options of its own.
    pub fn start_command(&self) -> (command: StartCommand<'_>)
        ensures
            command.name@ == self@.name,
            command.options is None,
    {
        StartCommand { name: self.name.as_str(), options: None }
    }

    /// Decides on the daemon's answer to the start command what comes next.
    ///
    /// On an acknowledged start the strategy is moved out of the container,
    /// once and for all, and handed back beside it. On every other answer the
    /// error that the answer stands for is handed back, and the strategy is
    /// dropped unasked.
    pub fn commit(self, reply: StartReply) -> (step: StartStep<W>)
        ensures
            step@ == self@.step(reply@),
    {
        match reply.failure() {
            Some(error) => StartStep::Abort { error },
            None => {
                let PendingContainer { client, name, id, handle, start_policy, wait } = self;
                StartStep::Wait {
                    strategy: wait,
                    container: PendingContainer {
                        client,
                        name,
                        id,
                        handle,
                        start_policy,
                        wait: Committed { mark: () },
                    },
                }
            },
        }
    }
}

impl PendingContainer {
    /// Confirms the container at the address `ip`: the running container has
    /// its identity and its connection. For a strategy that has asked the
    /// daemon where the container is.
    pub fn into_running(self, ip: Ipv4Address) -> (running: RunningContainer)
        ensures
            running@ == self@.running(ip),
    {
        RunningContainer {
            client: self.client,
            handle: self.handle,
            id: self.id,
            name: self.name,
            ip,
        }
    }
}

impl<W: WaitFor> PendingContainer<W> {
    /// Concludes the start of the container on the daemon's answer `reply` to
    /// the start command.
    ///
    /// Where the daemon did not acknowledge the start, the result is the error
    /// that the answer stands for, and the readiness strategy is not asked.
    /// Where it did, the strategy is asked once, with the container committed
    /// to its start, and what it gives is the result, unchanged.
    pub fn start(self, reply: StartReply) -> (outcome: Result<RunningContainer, DockerTestError>)
        ensures
            match self@.step(reply@) {
                StepView::Abort { error } => outcome matches Err(e) && e@ == error,
                StepView::Wait { strategy, container } => exists|handed: PendingContainer|
                    handed@ == container && call_ensures(
                        W::wait_for_ready,
                        (&strategy, handed),
                        outcome,
                    ),
            },
    {
        match self.commit(reply) {
            StartStep::Wait { strategy, container } => strategy.wait_for_ready(container),
            StartStep::Abort { error } => Err(error),
        }
    }
}

/// The readiness strategy is handed on exactly when the daemon has
/// acknowledged the start, and then it is the one that the container held,
/// beside that container with the strategy moved out. On every other answer
/// the step holds the error that the answer stands for and no strategy.
pub proof fn lemma_strategy_follows_acknowledged_start<W>(
    pending: PendingView<W>,
    reply: StartReplyView,
)
    ensures
        pending.step(reply) is Wait <==> reply is Started,
        pending.step(reply) is Abort <==> reply.failure() is Some,
        reply is Started ==> pending.step(reply) == (StepView::Wait {
            strategy: pending.wait,
            container: pending.committed(),
        }),
        reply.failure() matches Some(error) ==> pending.step(reply) == (StepView::<
            W,
        >::Abort { error }),
{
}

/// A cleanup record taken from a pending container before its start names
/// that container whatever the start brings. The record is a copy of the
/// identifier, so it does not change with the answer of the daemon; and where
/// the start is acknowledged, the container that is handed to the strategy,
/// and the running container that is confirmed from it at any address, give
/// the same record.
pub proof fn lemma_cleanup_outlasts_start<W>(
    pending: PendingView<W>,
    reply: StartReplyView,
    ip: Ipv4Address,
)
    ensures
        pending.cleanup() == pending.id,
        pending.step(reply) matches StepView::Wait { container, .. } ==> container.cleanup()
            == pending.cleanup() && container.running(ip).cleanup() == pending.cleanup(),
{
}

} // verus!
