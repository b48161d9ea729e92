//! The service registry: the singletons that independently started
//! subsystems share.
//!
//! A service is found by its kind, of which the registry holds at most one,
//! or by a name. The registry stores and hands out; it starts and stops
//! nothing. What it hands out is a reference to the stored service or a copy
//! of it; sharing one registry between threads is left to its owner.

use crate::messaging::offset_tracker::{OffsetTracker, TrackerState};
use crate::misc::config::Config;
use crate::misc::context::Context;
use crate::misc::health::{HealthState, HealthView};
use vstd::hash_map::StringHashMap;
use vstd::prelude::*;

verus! {

/// The kinds of service.
#[derive(Debug, Clone, Copy, PartialEq, Eq, Structural)]
pub enum ServiceKind {
    Health,
    Config,
    OffsetTracker,
    Context,
}

/// A service.
pub enum Service {
    Health(HealthState),
    Config(Config),
    OffsetTracker(OffsetTracker),
    Context(Context),
}

/// The content of a [`Service`]. Of a context it is the content of its
/// tracker: the channel has none that a contract could speak of.
pub ghost enum ServiceView {
    Health(HealthView),
    Config(Config),
    OffsetTracker(TrackerState),
    Context(TrackerState),
}

impl View for Service {
    type V = ServiceView;

    open spec fn view(&self) -> ServiceView {
        match self {
            Service::Health(state) => ServiceView::Health(state@),
            Service::Config(conf) => ServiceView::Config(*conf),
            Service::OffsetTracker(tracker) => ServiceView::OffsetTracker(tracker@),
            Service::Context(context) => ServiceView::Context(context.offset_tracker@),
        }
    }
}

impl ServiceView {
    /// The kind of the service.
    pub open spec fn kind(self) -> ServiceKind {
        match self {
            ServiceView::Health(_) => ServiceKind::Health,
            ServiceView::Config(_) => ServiceKind::Config,
            ServiceView::OffsetTracker(_) => ServiceKind::OffsetTracker,
            ServiceView::Context(_) => ServiceKind::Context,
        }
    }
}

impl Service {
    /// The kind of the service.
    pub fn kind(&self) -> (kind: ServiceKind)
        ensures
            kind == self@.kind(),
    {
        match self {
            Service::Health(_) => ServiceKind::Health,
            Service::Config(_) => ServiceKind::Config,
            Service::OffsetTracker(_) => ServiceKind::OffsetTracker,
            Service::Context(_) => ServiceKind::Context,
        }
    }
}

impl Service {
    /// A service of its own with the content that this one has now. It is a
    /// copy and no second handle: what is written to either of the two
    /// afterwards does not show in the other.
    pub fn detached_copy(&self) -> (copy: Service)
        ensures
            copy@ == self@,
    {
        match self {
            Service::Health(state) => Service::Health(state.detached_copy()),
            Service::Config(conf) => Service::Config(conf.clone()),
            Service::OffsetTracker(tracker) => Service::OffsetTracker(tracker.detached_copy()),
            Service::Context(context) => Service::Context(context.detached_copy()),
        }
    }
}

/// The registry.
pub struct Services {
    health: Option<Service>,
    config: Option<Service>,
    offset_tracker: Option<Service>,
    context: Option<Service>,
    named_services: StringHashMap<Service>,
}

impl Services {
    spec fn slot(&self, kind: ServiceKind) -> Option<Service> {
        match kind {
            ServiceKind::Health => self.health,
            ServiceKind::Config => self.config,
            ServiceKind::OffsetTracker => self.offset_tracker,
            ServiceKind::Context => self.context,
        }
    }

    /// The services that are found by kind.
    pub closed spec fn services(&self) -> Map<ServiceKind, ServiceView> {
        Map::new(
            |kind: ServiceKind| self.slot(kind) is Some,
            |kind: ServiceKind| self.slot(kind).unwrap()@,
        )
    }

    /// The services that are found by name.
    pub closed spec fn named_services(&self) -> Map<Seq<char>, ServiceView> {
        self.named_services@.map_values(|service: Service| service@)
    }

    /// A registry without services.
    pub fn new() -> (registry: Services)
        ensures
            registry.services() == (Map::<ServiceKind, ServiceView>::empty()),
            registry.named_services() == (Map::<Seq<char>, ServiceView>::empty()),
    {
        let registry = Services {
            health: None,
            config: None,
            offset_tracker: None,
            context: None,
            named_services: StringHashMap::new(),
        };
        assert(registry.services() =~= Map::<ServiceKind, ServiceView>::empty());
        assert(registry.named_services() =~= Map::<Seq<char>, ServiceView>::empty());
        registry
    }

    /// Stores `service` as the one of its kind, replacing the one there was.
    pub fn add_service(&mut self, service: Service)
        ensures
            final(self).services() == old(self).services().insert(service@.kind(), service@),
            final(self).named_services() == old(self).named_services(),
    {
        match service.kind() {
            ServiceKind::Health => {
                self.health = Some(service);
            },
            ServiceKind::Config => {
                self.config = Some(service);
            },
            ServiceKind::OffsetTracker => {
                self.offset_tracker = Some(service);
            },
            ServiceKind::Context => {
                self.context = Some(service);
            },
        }
        assert(self.services() =~= old(self).services().insert(service@.kind(), service@));
    }

    /// Stores `service` under `name`, replacing the one that the name had.
    pub fn add_named_service(&mut self, service: Service, name: &str)
        ensures
            final(self).named_services() == old(self).named_services().insert(name@, service@),
            final(self).services() == old(self).services(),
    {
        self.named_services.insert(name.to_owned(), service);
        assert(self.named_services() =~= old(self).named_services().insert(name@, service@));
        assert(self.services() =~= old(self).services());
    }

    /// The service of `kind`, if one is stored.
    pub fn get_service(&self, kind: ServiceKind) -> (found: Option<&Service>)
        ensures
            match found {
                Some(service) => self.services().contains_key(kind) && service@
                    == self.services()[kind],
                None => !self.services().contains_key(kind),
            },
    {
        match kind {
            ServiceKind::Health => self.health.as_ref(),
            ServiceKind::Config => self.config.as_ref(),
            ServiceKind::OffsetTracker => self.offset_tracker.as_ref(),
            ServiceKind::Context => self.context.as_ref(),
        }
    }

    /// A copy of the service of `kind`, if one is stored. The copy holds
    /// what the stored service holds now and does not follow what is written
    /// to either of the two afterwards.
    pub fn get_service_clone(&self, kind: ServiceKind) -> (found: Option<Service>)
        ensures
            match found {
                Some(service) => self.services().contains_key(kind) && service@
                    == self.services()[kind],
                None => !self.services().contains_key(kind),
            },
    {
        match self.get_service(kind) {
            Some(service) => Some(service.detached_copy()),
            None => None,
        }
    }

    /// The service stored under `name`, if there is one.
    pub fn get_named_service(&self, name: &str) -> (found: Option<&Service>)
        ensures
            match found {
                Some(service) => self.named_services().contains_key(name@) && service@
                    == self.named_services()[name@],
                None => !self.named_services().contains_key(name@),
            },
    {
        self.named_services.get(name)
    }

    /// A copy of the service stored under `name`, if there is one. The copy
    /// holds what the stored service holds now and does not follow what is
    /// written to either of the two afterwards.
    pub fn get_named_service_clone(&self, name: &str) -> (found: Option<Service>)
        ensures
            match found {
                Some(service) => self.named_services().contains_key(name@) && service@
                    == self.named_services()[name@],
                None => !self.named_services().contains_key(name@),
            },
    {
        match self.get_named_service(name) {
            Some(service) => Some(service.detached_copy()),
            None => None,
        }
    }

    /// The service stored under `name`, if there is one and it is of `kind`.
    /// A name that holds a service of another kind finds nothing.
    pub fn get_named_service_of(&self, name: &str, kind: ServiceKind) -> (found: Option<&Service>)
        ensures
            match found {
                Some(service) => {
                    &&& self.named_services().contains_key(name@)
                    &&& service@ == self.named_services()[name@]
                    &&& service@.kind() == kind
                },
                None => !self.named_services().contains_key(name@)
                    || self.named_services()[name@].kind() != kind,
            },
    {
        match self.named_services.get(name) {
            Some(service) => if service.kind() == kind {
                Some(service)
            } else {
                None
            },
            None => None,
        }
    }

    /// A copy of the service stored under `name`, if there is one and it is
    /// of `kind`. The copy holds what the stored service holds now and does
    /// not follow what is written to either of the two afterwards.
    pub fn get_named_service_clone_of(&self, name: &str, kind: ServiceKind) -> (found: Option<
        Service,
    >)
        ensures
            match found {
                Some(service) => {
                    &&& self.named_services().contains_key(name@)
                    &&& service@ == self.named_services()[name@]
                    &&& service@.kind() == kind
                },
                None => !self.named_services().contains_key(name@)
                    || self.named_services()[name@].kind() != kind,
            },
    {
        match self.get_named_service_of(name, kind) {
            Some(service) => Some(service.detached_copy()),
            None => None,
        }
    }
}

/// The registry as it is at start-up: a fresh health state and the
/// configuration, each found by its kind.
pub fn init(conf: Config) -> (registry: Services)
    ensures
        registry.services() == (Map::<ServiceKind, ServiceView>::empty()).insert(
            ServiceKind::Health,
            ServiceView::Health(
                HealthView { healthy: false, ready: false, live: false, checks: Map::empty() },
            ),
        ).insert(ServiceKind::Config, ServiceView::Config(conf)),
        registry.named_services() == (Map::<Seq<char>, ServiceView>::empty()),
{
    let mut registry = Services::new();
    registry.add_service(Service::Health(HealthState::new()));
    registry.add_service(Service::Config(conf));
    registry
}

} // verus!
