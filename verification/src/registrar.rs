//! The registration handshake.
//!
//! Registering is a short conversation with the discovery service: open a
//! connection, send one request that carries the descriptor, and read the
//! identity out of the answer. The [`Registrar`] decides what happens next
//! at every point of that conversation; its caller does the network work
//! and reports each result as a [`RegistrarEvent`].
//!
//! Nothing is asked of the network until the configuration has been
//! accepted, and once the handshake has ended, in an identity or in an
//! error, no further event changes the result.

use crate::descriptor::{DescriptorView, Registration, ServiceDescriptor, ServiceIdentity, ServiceKind};
use crate::endpoint::{endpoint_from_url, is_endpoint_url};
use crate::error::{ConfigurationError, RegisterError};
use crate::port::{parse_port, port_of};
use tonic::transport::Endpoint;
use vstd::prelude::*;
use vstd::string::*;

verus! {

/// What the caller observed while carrying out the registrar's last request.
#[derive(Debug)]
pub enum RegistrarEvent<C> {
    /// The connection to the discovery endpoint is open.
    Connected(C),
    /// The connection could not be established.
    ConnectFailed,
    /// The endpoint answered the request with this identifier.
    Accepted(String),
    /// The endpoint answered the request and declined it.
    Rejected,
    /// The connection was lost before an answer arrived.
    ConnectionLost,
    /// The caller's deadline for the handshake passed.
    TimedOut,
}

/// What the registrar asks its caller to do next.
#[derive(Clone, Copy, Debug, PartialEq, Eq, Structural)]
pub enum RegistrarAction {
    /// Open a connection to the registrar's endpoint.
    Connect,
    /// Send the registration request, carrying the registrar's descriptor,
    /// over the connection just opened.
    SendRequest,
    /// The event did not apply; keep waiting for the operation under way.
    Ignored,
    /// The handshake is over; collect the outcome.
    Finish,
}

/// Where a handshake stands.
pub enum PhaseView<C> {
    /// Waiting for the connection to open.
    Connecting,
    /// The request went out over this connection; waiting for the answer.
    Registering(C),
    /// The endpoint issued this identity over this connection.
    Registered { identity: Seq<char>, connection: C },
    /// The handshake failed.
    Failed(RegisterError),
}

/// Whether the handshake is over.
pub open spec fn is_terminal<C>(phase: PhaseView<C>) -> bool {
    phase is Registered || phase is Failed
}

/// The phase that follows `phase` when `event` is reported.
pub open spec fn step_phase<C>(phase: PhaseView<C>, event: RegistrarEvent<C>) -> PhaseView<C> {
    match phase {
        PhaseView::Connecting => match event {
            RegistrarEvent::Connected(connection) => PhaseView::Registering(connection),
            RegistrarEvent::ConnectFailed => PhaseView::Failed(RegisterError::TransportError),
            RegistrarEvent::TimedOut => PhaseView::Failed(RegisterError::TransportError),
            _ => phase,
        },
        PhaseView::Registering(connection) => match event {
            RegistrarEvent::Accepted(id) => if id@.len() > 0 {
                PhaseView::Registered { identity: id@, connection }
            } else {
                PhaseView::Failed(RegisterError::RegistrationRejected)
            },
            RegistrarEvent::Rejected => PhaseView::Failed(RegisterError::RegistrationRejected),
            RegistrarEvent::ConnectionLost => PhaseView::Failed(RegisterError::TransportError),
            RegistrarEvent::TimedOut => PhaseView::Failed(RegisterError::TransportError),
            _ => phase,
        },
        _ => phase,
    }
}

/// The request that the registrar makes when `event` is reported in `phase`.
pub open spec fn step_action<C>(phase: PhaseView<C>, event: RegistrarEvent<C>) -> RegistrarAction {
    if is_terminal(phase) {
        RegistrarAction::Finish
    } else if step_phase(phase, event) == phase {
        RegistrarAction::Ignored
    } else if is_terminal(step_phase(phase, event)) {
        RegistrarAction::Finish
    } else {
        RegistrarAction::SendRequest
    }
}

/// The configuration error, if any, of an endpoint verdict and a port text.
/// The endpoint is judged first.
pub open spec fn configuration_fault(endpoint_ok: bool, port_text: Seq<u8>) -> Option<
    ConfigurationError,
> {
    if !endpoint_ok {
        Some(ConfigurationError::InvalidEndpoint)
    } else if port_of(port_text) is None {
        Some(ConfigurationError::InvalidPort)
    } else {
        None
    }
}

#[derive(Debug)]
enum Phase<C> {
    Connecting,
    Registering(C),
    Registered(Registration<C>),
    Failed(RegisterError),
}

impl<C> View for Phase<C> {
    type V = PhaseView<C>;

    closed spec fn view(&self) -> PhaseView<C> {
        match self {
            Phase::Connecting => PhaseView::Connecting,
            Phase::Registering(connection) => PhaseView::Registering(*connection),
            Phase::Registered(registration) => PhaseView::Registered {
                identity: registration.identity@,
                connection: registration.connection,
            },
            Phase::Failed(error) => PhaseView::Failed(*error),
        }
    }
}

/// One registration handshake in progress.
#[derive(Debug)]
pub struct Registrar<C> {
    endpoint: Endpoint,
    descriptor: ServiceDescriptor,
    phase: Phase<C>,
}

impl<C> Registrar<C> {
    #[verifier::type_invariant]
    spec fn identity_is_not_empty(self) -> bool {
        self.phase@ matches PhaseView::Registered { identity, .. } ==> identity.len() > 0
    }

    /// Where the handshake stands.
    pub closed spec fn phase(&self) -> PhaseView<C> {
        self.phase@
    }

    /// The descriptor that the registration request carries.
    pub closed spec fn descriptor_view(&self) -> DescriptorView {
        self.descriptor@
    }

    /// The endpoint that the handshake talks to.
    pub closed spec fn endpoint_view(&self) -> Endpoint {
        self.endpoint
    }

    /// Starts a handshake from configuration values.
    ///
    /// The endpoint address and the port text are checked, in that order,
    /// before anything else happens. If either is invalid the result is the
    /// configuration error and no registrar exists that could ask for a
    /// connection. Otherwise the registrar asks for the connection to be
    /// opened. An empty address is never valid.
    pub fn begin(url: &str, kind: ServiceKind, address: String, port_text: &str) -> (r: Result<
        (Registrar<C>, RegistrarAction),
        RegisterError,
    >)
        ensures
            match r {
                Ok((registrar, action)) => {
                    &&& configuration_fault(is_endpoint_url(url@), port_text.spec_bytes()) is None
                    &&& registrar.phase() == PhaseView::<C>::Connecting
                    &&& registrar.descriptor_view() == (DescriptorView {
                        kind,
                        address: address@,
                        port: port_of(port_text.spec_bytes())->0,
                    })
                    &&& action == RegistrarAction::Connect
                },
                Err(error) => configuration_fault(is_endpoint_url(url@), port_text.spec_bytes())
                    matches Some(fault) && error == RegisterError::ConfigurationError(fault),
            },
            url@.len() == 0 ==> r is Err && r->Err_0 == RegisterError::ConfigurationError(
                ConfigurationError::InvalidEndpoint,
            ),
    {
        Self::begin_with(endpoint_from_url(url), kind, address, port_text)
    }

    /// Starts a handshake from an endpoint that has already been built, or
    /// from `None` where the address was refused.
    pub fn begin_with(
        endpoint: Option<Endpoint>,
        kind: ServiceKind,
        address: String,
        port_text: &str,
    ) -> (r: Result<(Registrar<C>, RegistrarAction), RegisterError>)
        ensures
            match r {
                Ok((registrar, action)) => {
                    &&& configuration_fault(endpoint is Some, port_text.spec_bytes()) is None
                    &&& registrar.phase() == PhaseView::<C>::Connecting
                    &&& registrar.endpoint_view() == endpoint->0
                    &&& registrar.descriptor_view() == (DescriptorView {
                        kind,
                        address: address@,
                        port: port_of(port_text.spec_bytes())->0,
                    })
                    &&& action == RegistrarAction::Connect
                },
                Err(error) => configuration_fault(endpoint is Some, port_text.spec_bytes())
                    matches Some(fault) && error == RegisterError::ConfigurationError(fault),
            },
    {
        let endpoint = match endpoint {
            Some(endpoint) => endpoint,
            None => {
                return Err(RegisterError::ConfigurationError(ConfigurationError::InvalidEndpoint));
            },
        };
        let port: u32 = match parse_port(port_text) {
            Ok(port) => port,
            Err(fault) => {
                return Err(RegisterError::ConfigurationError(fault));
            },
        };
        let descriptor = ServiceDescriptor { kind, address, port };
        Ok((Registrar { endpoint, descriptor, phase: Phase::Connecting }, RegistrarAction::Connect))
    }

    /// The endpoint to connect to.
    pub fn endpoint(&self) -> (r: &Endpoint)
        ensures
            *r == self.endpoint_view(),
    {
        &self.endpoint
    }

    /// The descriptor to put into the registration request.
    pub fn descriptor(&self) -> (r: &ServiceDescriptor)
        ensures
            r@ == self.descriptor_view(),
    {
        &self.descriptor
    }

    /// The connection over which the request travels, once it is open and
    /// until the handshake ends.
    pub fn connection(&self) -> (r: Option<&C>)
        ensures
            match self.phase() {
                PhaseView::Registering(connection) => r == Some(&connection),
                _ => r is None,
            },
    {
        match &self.phase {
            Phase::Registering(connection) => Some(connection),
            _ => None,
        }
    }

    /// Whether the handshake is over.
    pub fn is_finished(&self) -> (r: bool)
        ensures
            r == is_terminal(self.phase()),
    {
        match &self.phase {
            Phase::Registered(_) => true,
            Phase::Failed(_) => true,
            _ => false,
        }
    }

    /// Takes in what the caller observed and says what to do next.
    ///
    /// The endpoint and the descriptor never change. An identity is accepted
    /// only if it is not empty, and it stays paired with the connection on
    /// which it arrived.
    pub fn advance(self, event: RegistrarEvent<C>) -> (r: (Registrar<C>, RegistrarAction))
        ensures
            r.0.phase() == step_phase(self.phase(), event),
            r.1 == step_action(self.phase(), event),
            r.0.descriptor_view() == self.descriptor_view(),
            r.0.endpoint_view() == self.endpoint_view(),
    {
        proof {
            use_type_invariant(&self);
        }
        let Registrar { endpoint, descriptor, phase } = self;
        let (phase, action) = match phase {
            Phase::Connecting => match event {
                RegistrarEvent::Connected(connection) => (
                    Phase::Registering(connection),
                    RegistrarAction::SendRequest,
                ),
                RegistrarEvent::ConnectFailed => (
                    Phase::Failed(RegisterError::TransportError),
                    RegistrarAction::Finish,
                ),
                RegistrarEvent::TimedOut => (
                    Phase::Failed(RegisterError::TransportError),
                    RegistrarAction::Finish,
                ),
                _ => (Phase::Connecting, RegistrarAction::Ignored),
            },
            Phase::Registering(connection) => match event {
                RegistrarEvent::Accepted(id) => match ServiceIdentity::new(id) {
                    Some(identity) => (
                        Phase::Registered(Registration { identity, connection }),
                        RegistrarAction::Finish,
                    ),
                    None => (
                        Phase::Failed(RegisterError::RegistrationRejected),
                        RegistrarAction::Finish,
                    ),
                },
                RegistrarEvent::Rejected => (
                    Phase::Failed(RegisterError::RegistrationRejected),
                    RegistrarAction::Finish,
                ),
                RegistrarEvent::ConnectionLost => (
                    Phase::Failed(RegisterError::TransportError),
                    RegistrarAction::Finish,
                ),
                RegistrarEvent::TimedOut => (
                    Phase::Failed(RegisterError::TransportError),
                    RegistrarAction::Finish,
                ),
                _ => (Phase::Registering(connection), RegistrarAction::Ignored),
            },
            Phase::Registered(registration) => (
                Phase::Registered(registration),
                RegistrarAction::Finish,
            ),
            Phase::Failed(error) => (Phase::Failed(error), RegistrarAction::Finish),
        };
        (Registrar { endpoint, descriptor, phase }, action)
    }

    /// Ends the handshake and hands out its result: the registration or the
    /// error once the handshake is over, and nothing while it is under way.
    pub fn into_outcome(self) -> (r: Option<Result<Registration<C>, RegisterError>>)
        ensures
            match self.phase() {
                PhaseView::Registered { identity, connection } => {
                    &&& r matches Some(Ok(registration))
                    &&& registration.identity@ == identity
                    &&& registration.connection == connection
                    &&& identity.len() > 0
                },
                PhaseView::Failed(error) => r == Some(
                    Err::<Registration<C>, RegisterError>(error),
                ),
                _ => r is None,
            },
    {
        proof {
            use_type_invariant(&self);
        }
        match self.phase {
            Phase::Registered(registration) => Some(Ok(registration)),
            Phase::Failed(error) => Some(Err(error)),
            _ => None,
        }
    }
}

/// The phase reached from `phase` after `events` were reported in order.
pub open spec fn run_phase<C>(phase: PhaseView<C>, events: Seq<RegistrarEvent<C>>) -> PhaseView<C>
    decreases events.len(),
{
    if events.len() == 0 {
        phase
    } else {
        step_phase(run_phase(phase, events.drop_last()), events.last())
    }
}

/// How many registration requests the registrar asked for while `events`
/// were reported in order, starting in `phase`.
pub open spec fn requests_sent<C>(phase: PhaseView<C>, events: Seq<RegistrarEvent<C>>) -> nat
    decreases events.len(),
{
    if events.len() == 0 {
        0
    } else {
        let before = run_phase(phase, events.drop_last());
        let asked: nat = if step_action(before, events.last()) == RegistrarAction::SendRequest {
            1
        } else {
            0
        };
        requests_sent(phase, events.drop_last()) + asked
    }
}

/// Once a handshake is over, no event changes its result, and the registrar
/// asks for nothing more.
pub proof fn lemma_outcome_is_final<C>(phase: PhaseView<C>, event: RegistrarEvent<C>)
    requires
        is_terminal(phase),
    ensures
        step_phase(phase, event) == phase,
        step_action(phase, event) == RegistrarAction::Finish,
{
}

/// However a handshake goes, it ends in one of two ways. Either it yields a
/// non-empty identity, which the service sent in answer to the request and
/// which is paired with the connection that the caller opened before; or it
/// fails with a transport error or a rejection. A configuration error can
/// only come before the handshake starts.
pub proof fn lemma_handshake_outcome<C>(events: Seq<RegistrarEvent<C>>)
    ensures
        match run_phase(PhaseView::<C>::Connecting, events) {
            PhaseView::Connecting => true,
            PhaseView::Registering(connection) => exists|i: int|
                0 <= i < events.len() && #[trigger] events[i] == RegistrarEvent::Connected(
                    connection,
                ),
            PhaseView::Registered { identity, connection } => {
                &&& identity.len() > 0
                &&& exists|i: int, j: int|
                    0 <= i < j < events.len() && #[trigger] events[i] == RegistrarEvent::Connected(
                        connection,
                    ) && (#[trigger] events[j] matches RegistrarEvent::Accepted(id) && id@
                        == identity)
            },
            PhaseView::Failed(error) => error == RegisterError::TransportError || error
                == RegisterError::RegistrationRejected,
        },
    decreases events.len(),
{
    if events.len() > 0 {
        let earlier = events.drop_last();
        let last = events.len() - 1;
        lemma_handshake_outcome(earlier);
        match run_phase(PhaseView::<C>::Connecting, earlier) {
            PhaseView::Connecting => {
                if let RegistrarEvent::Connected(connection) = events.last() {
                    assert(events[last] == RegistrarEvent::Connected(connection));
                }
            },
            PhaseView::Registering(connection) => {
                let i = choose|i: int|
                    0 <= i < earlier.len() && #[trigger] earlier[i] == RegistrarEvent::Connected(
                        connection,
                    );
                assert(events[i] == earlier[i]);
                if let RegistrarEvent::Accepted(id) = events.last() {
                    assert(events[last] matches RegistrarEvent::Accepted(id2) && id2@ == id@);
                }
            },
            PhaseView::Registered { identity, connection } => {
                let (i, j) = choose|i: int, j: int|
                    0 <= i < j < earlier.len() && #[trigger] earlier[i]
                        == RegistrarEvent::Connected(connection) && (#[trigger] earlier[j] matches RegistrarEvent::Accepted(
                        id,
                    ) && id@ == identity);
                assert(events[i] == earlier[i]);
                assert(events[j] == earlier[j]);
            },
            PhaseView::Failed(_) => {},
        }
    }
}

/// A handshake sends at most one registration request: none while the
/// connection is not open, and exactly one by the time an answer is awaited
/// or an identity has been issued.
pub proof fn lemma_single_request<C>(events: Seq<RegistrarEvent<C>>)
    ensures
        requests_sent(PhaseView::<C>::Connecting, events) <= 1,
        run_phase(PhaseView::<C>::Connecting, events) is Connecting ==> requests_sent(
            PhaseView::<C>::Connecting,
            events,
        ) == 0,
        run_phase(PhaseView::<C>::Connecting, events) is Registering || run_phase(
            PhaseView::<C>::Connecting,
            events,
        ) is Registered ==> requests_sent(PhaseView::<C>::Connecting, events) == 1,
    decreases events.len(),
{
    if events.len() > 0 {
        lemma_single_request(events.drop_last());
    }
}

/// Registration is not deduplicated. The outcome of a handshake is fixed by
/// what the service answered; the descriptor plays no part in it. So two
/// handshakes, whatever their descriptors, each end in the identity that the
/// service issued to them, on their own connection, and the two identities
/// differ whenever the service issued different ones.
pub proof fn lemma_each_handshake_keeps_its_identity<C>(
    first_connection: C,
    first_id: String,
    second_connection: C,
    second_id: String,
)
    requires
        first_id@.len() > 0,
        second_id@.len() > 0,
    ensures
        run_phase(
            PhaseView::Connecting,
            seq![RegistrarEvent::Connected(first_connection), RegistrarEvent::Accepted(first_id)],
        ) == (PhaseView::Registered { identity: first_id@, connection: first_connection }),
        run_phase(
            PhaseView::Connecting,
            seq![RegistrarEvent::Connected(second_connection), RegistrarEvent::Accepted(second_id)],
        ) == (PhaseView::Registered { identity: second_id@, connection: second_connection }),
{
    lemma_accepting_run(first_connection, first_id);
    lemma_accepting_run(second_connection, second_id);
}

/// A handshake in which the connection opens and the service then answers
/// with a non-empty identifier yields exactly that identifier, paired with
/// that connection.
pub proof fn lemma_accepting_run<C>(connection: C, id: String)
    requires
        id@.len() > 0,
    ensures
        run_phase(
            PhaseView::Connecting,
            seq![RegistrarEvent::Connected(connection), RegistrarEvent::Accepted(id)],
        ) == (PhaseView::Registered { identity: id@, connection }),
{
    let events = seq![RegistrarEvent::Connected(connection), RegistrarEvent::Accepted(id)];
    let first = events.drop_last();
    assert(first =~= seq![RegistrarEvent::Connected(connection)]);
    assert(first.drop_last() =~= Seq::<RegistrarEvent<C>>::empty());
    assert(run_phase(PhaseView::Connecting, first.drop_last()) == PhaseView::<C>::Connecting);
    assert(run_phase(PhaseView::Connecting, first) == PhaseView::Registering(connection));
}

} // verus!
