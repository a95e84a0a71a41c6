use std::{cell::RefCell, rc::Rc};

use triad_runtime::{
    SubscriptionEventEpoch, SubscriptionEventEpochAuthority, SubscriptionEventEpochError,
    SubscriptionEventEpochReservation, SubscriptionEventEpochStore, SubscriptionEventPublisher,
    SubscriptionEventSequence, SubscriptionPublishError, SubscriptionRegistry, SubscriptionToken,
    SubscriptionTokenError, SubscriptionTokenIssuer, SubscriptionTokenValue,
};

#[derive(Clone, Copy, Debug, Eq, PartialEq)]
struct TestSubscriptionToken(SubscriptionTokenValue);

#[derive(Clone, Debug, Eq, PartialEq)]
enum TestFilter {
    All,
    Label(&'static str),
}

#[derive(Clone, Debug, Eq, PartialEq)]
struct TestEvent {
    label: String,
}

#[derive(Clone, Copy, Debug, Eq, PartialEq)]
struct TestRoute {
    root: u8,
    variant: u8,
}

#[derive(Clone, Copy, Debug, Eq, PartialEq)]
enum TestEpochStoreError {
    Unavailable,
}

struct TestEpochStore {
    state: Rc<RefCell<Option<u64>>>,
    fail_next_reservation: bool,
}

const EVENT_ROUTE: TestRoute = TestRoute {
    root: 0x91,
    variant: 0x2a,
};

impl SubscriptionToken for TestSubscriptionToken {
    fn token_value(&self) -> u64 {
        self.0.value()
    }

    fn from_inner(inner: SubscriptionTokenValue) -> Self {
        Self(inner)
    }

    fn into_inner(self) -> SubscriptionTokenValue {
        self.0
    }
}

impl TestEvent {
    fn new(label: impl Into<String>) -> Self {
        Self {
            label: label.into(),
        }
    }
}

impl TestFilter {
    fn matches(&self, event: &TestEvent) -> bool {
        match self {
            Self::All => true,
            Self::Label(label) => event.label == *label,
        }
    }
}

impl TestEpochStore {
    fn new(state: Rc<RefCell<Option<u64>>>) -> Self {
        Self {
            state,
            fail_next_reservation: false,
        }
    }

    fn failing(state: Rc<RefCell<Option<u64>>>) -> Self {
        Self {
            state,
            fail_next_reservation: true,
        }
    }
}

impl SubscriptionEventEpochStore for TestEpochStore {
    type Error = TestEpochStoreError;

    fn next_epoch(&self) -> Option<u64> {
        *self.state.borrow()
    }

    fn reserve_next_epoch(
        &mut self,
        reservation: SubscriptionEventEpochReservation<'_>,
    ) -> Result<SubscriptionEventEpoch, SubscriptionEventEpochError<Self::Error>> {
        if self.fail_next_reservation {
            self.fail_next_reservation = false;
            return Err(SubscriptionEventEpochError::Store(
                TestEpochStoreError::Unavailable,
            ));
        }

        let mut state = self.state.borrow_mut();
        let Some(epoch) = *state else {
            return Err(SubscriptionEventEpochError::EpochExhausted);
        };
        *state = epoch.checked_add(1);
        Ok(reservation.commit(epoch))
    }
}

fn epoch_state(first_epoch: u64) -> Rc<RefCell<Option<u64>>> {
    Rc::new(RefCell::new(Some(first_epoch)))
}

fn token(value: u64) -> TestSubscriptionToken {
    TestSubscriptionToken(SubscriptionTokenValue::new(value))
}

type Publisher = SubscriptionEventPublisher<TestRoute, TestEvent>;

#[test]
fn subscription_token_issuer_wraps_inner_tokens() {
    let mut issuer = SubscriptionTokenIssuer::new();

    let first: TestSubscriptionToken = issuer.mint().expect("mint first token");
    let second: TestSubscriptionToken = issuer.mint().expect("mint second token");

    assert_eq!(first.into_inner(), SubscriptionTokenValue::new(1));
    assert_eq!(second.into_inner(), SubscriptionTokenValue::new(2));
}

#[test]
fn subscription_token_issuer_issues_maximum_once_then_stays_exhausted() {
    let mut issuer = SubscriptionTokenIssuer::from_next_value(u64::MAX);

    assert_eq!(
        issuer.mint::<SubscriptionTokenValue>(),
        Ok(SubscriptionTokenValue::new(u64::MAX))
    );
    assert_eq!(
        issuer.mint::<SubscriptionTokenValue>(),
        Err(SubscriptionTokenError::TokenExhausted)
    );
    assert_eq!(
        issuer.mint::<SubscriptionTokenValue>(),
        Err(SubscriptionTokenError::TokenExhausted)
    );
}

#[test]
fn subscription_registry_rejects_a_live_minted_token_collision() {
    let token = SubscriptionTokenValue::new(u64::MAX);
    let mut registry = SubscriptionRegistry::<SubscriptionTokenValue, ()>::from_next_value(u64::MAX);
    registry.register_token(token, ());

    assert_eq!(
        registry.register(()),
        Err(SubscriptionTokenError::TokenCollision)
    );
    assert_eq!(registry.len(), 1);
    assert_eq!(
        registry.register(()),
        Err(SubscriptionTokenError::TokenExhausted)
    );
}

#[test]
fn subscription_registry_registers_unregisters_and_delivers_matching_events() {
    let mut registry = SubscriptionRegistry::<TestSubscriptionToken, TestFilter>::new();
    let all = registry.register(TestFilter::All).expect("register all");
    let beta = registry
        .register(TestFilter::Label("beta"))
        .expect("register beta");
    let gamma = registry
        .register(TestFilter::Label("gamma"))
        .expect("register gamma");

    assert_eq!(registry.len(), 3);
    assert!(!registry.is_empty());

    let event = TestEvent::new("beta");
    let delivered: Vec<_> = registry
        .matching_tokens(&event, TestFilter::matches)
        .into_iter()
        .map(|token| (token, event.clone()))
        .collect();

    assert_eq!(
        delivered,
        vec![
            (all, TestEvent::new("beta")),
            (beta, TestEvent::new("beta"))
        ]
    );

    assert!(registry.unregister(beta));
    assert!(!registry.unregister(beta));

    let after_unregister = registry.matching_tokens(&event, TestFilter::matches);
    assert_eq!(after_unregister, vec![all]);
    assert_eq!(registry.len(), 2);
    assert!(registry.unregister(all));
    assert!(registry.unregister(gamma));
    assert!(registry.is_empty());
}

#[test]
fn subscription_registry_can_register_an_already_minted_token() {
    let mut registry = SubscriptionRegistry::<TestSubscriptionToken, TestFilter>::new();
    let token = token(88);

    registry.register_token(token, TestFilter::Label("alpha"));

    let delivered = registry.matching_tokens(&TestEvent::new("alpha"), TestFilter::matches);
    assert_eq!(delivered, vec![token]);

    registry.register_token(token, TestFilter::Label("beta"));

    let after_replacement =
        registry.matching_tokens(&TestEvent::new("alpha"), TestFilter::matches);
    assert!(after_replacement.is_empty());
    assert_eq!(registry.len(), 1);
}

#[test]
fn replacing_a_stale_registration_keeps_only_the_latest_filter() {
    let mut registry = SubscriptionRegistry::<TestSubscriptionToken, TestFilter>::new();
    let token = token(88);
    registry.register_token(token, TestFilter::Label("stale"));
    registry.register_token(token, TestFilter::Label("current"));

    let stale_deliveries = registry.matching_tokens(&TestEvent::new("stale"), TestFilter::matches);
    assert!(stale_deliveries.is_empty());

    let current_deliveries =
        registry.matching_tokens(&TestEvent::new("current"), TestFilter::matches);
    assert_eq!(current_deliveries, vec![token]);
    assert_eq!(registry.len(), 1);
}

#[test]
fn subscription_event_authority_reserves_distinct_epochs_and_publishers_start_sequences() {
    let token = token(44);
    let mut authority = SubscriptionEventEpochAuthority::new(TestEpochStore::new(epoch_state(7)));
    let mut first = Publisher::new(EVENT_ROUTE, authority.reserve().expect("reserve first epoch"));
    let mut second = Publisher::new(EVENT_ROUTE, authority.reserve().expect("reserve second epoch"));

    let first = first
        .publish(token, TestEvent::new("first"))
        .expect("publish first");
    let second = second
        .publish(token, TestEvent::new("second"))
        .expect("publish second");
    let first_identifier = first.event_identifier();
    let second_identifier = second.event_identifier();

    assert_eq!(first_identifier.session_epoch(), 7);
    assert_eq!(second_identifier.session_epoch(), 8);
    assert_eq!(first_identifier.sequence(), 0);
    assert_eq!(second_identifier.sequence(), 0);
}

#[test]
fn subscription_event_authority_exhausts_after_issuing_maximum_epoch() {
    let token = token(44);
    let state = epoch_state(u64::MAX);
    let mut authority = SubscriptionEventEpochAuthority::new(TestEpochStore::new(state.clone()));
    let mut publisher = Publisher::new(
        EVENT_ROUTE,
        authority.reserve().expect("reserve maximum epoch"),
    );

    let frame = publisher
        .publish(token, TestEvent::new("maximum epoch"))
        .expect("publish maximum epoch");
    assert_eq!(frame.event_identifier().session_epoch(), u64::MAX);
    assert_eq!(*state.borrow(), None);
    assert_eq!(
        authority.reserve(),
        Err(SubscriptionEventEpochError::EpochExhausted)
    );
    assert_eq!(
        authority.reserve(),
        Err(SubscriptionEventEpochError::EpochExhausted)
    );
    assert_eq!(*state.borrow(), None);
}

#[test]
fn subscription_event_authority_restart_reuses_the_same_store_state() {
    let token = token(44);
    let persisted_state = epoch_state(3);
    let mut authority =
        SubscriptionEventEpochAuthority::new(TestEpochStore::new(persisted_state.clone()));
    let mut before_restart = Publisher::new(
        EVENT_ROUTE,
        authority.reserve().expect("reserve pre-restart epoch"),
    );
    drop(authority);
    let mut restarted =
        SubscriptionEventEpochAuthority::new(TestEpochStore::new(persisted_state.clone()));
    let mut after_restart = Publisher::new(
        EVENT_ROUTE,
        restarted.reserve().expect("reserve post-restart epoch"),
    );

    let before_restart = before_restart
        .publish(token, TestEvent::new("before restart"))
        .expect("publish before restart");
    let after_restart = after_restart
        .publish(token, TestEvent::new("after restart"))
        .expect("publish after restart");

    assert_eq!(before_restart.event_identifier().session_epoch(), 3);
    assert_eq!(after_restart.event_identifier().session_epoch(), 4);
    assert_eq!(before_restart.event_identifier().sequence(), 0);
    assert_eq!(after_restart.event_identifier().sequence(), 0);
}

#[test]
fn subscription_event_authority_propagates_typed_store_errors() {
    let state = epoch_state(9);
    let mut authority =
        SubscriptionEventEpochAuthority::new(TestEpochStore::failing(state.clone()));

    assert_eq!(
        authority.reserve(),
        Err(SubscriptionEventEpochError::Store(
            TestEpochStoreError::Unavailable
        ))
    );
    assert_eq!(*state.borrow(), Some(9));

    authority
        .reserve()
        .expect("reserve after transient failure");
    assert_eq!(*state.borrow(), Some(10));
}

#[test]
fn subscription_event_sequence_issues_maximum_once_then_stays_exhausted() {
    let mut sequence = SubscriptionEventSequence::new(7, Some(u64::MAX));

    let maximum = sequence.next_identifier().expect("issue maximum sequence");
    assert_eq!(maximum.session_epoch(), 7);
    assert_eq!(maximum.sequence(), u64::MAX);
    assert_eq!(sequence.next_sequence(), None);
    assert_eq!(
        sequence.next_identifier(),
        Err(SubscriptionPublishError::SequenceExhausted)
    );
    assert_eq!(sequence.next_sequence(), None);
}

#[test]
fn subscription_event_publisher_builds_exactly_bound_streaming_events() {
    let token = TestSubscriptionToken(SubscriptionTokenValue::new(44));
    let mut authority = SubscriptionEventEpochAuthority::new(TestEpochStore::new(epoch_state(3)));
    let mut publisher = Publisher::new(EVENT_ROUTE, authority.reserve().expect("reserve epoch"));

    let frame = publisher
        .publish(token, TestEvent::new("commit"))
        .expect("publish event");

    assert_eq!(publisher.event_route(), EVENT_ROUTE);
    assert_eq!(frame.event_route(), EVENT_ROUTE);
    assert_eq!(frame.event_identifier().session_epoch(), 3);
    assert_eq!(frame.event_identifier().sequence(), 0);
    assert_eq!(frame.token(), SubscriptionTokenValue::new(44));
    assert_eq!(frame.into_event(), TestEvent::new("commit"));

    let next_frame = publisher
        .publish(token, TestEvent::new("next"))
        .expect("publish next event");
    assert_eq!(next_frame.event_identifier().sequence(), 1);
    assert_eq!(next_frame.token().value(), 44);
}

#[test]
fn register_then_unregister_restores_the_registry() {
    let mut registry = SubscriptionRegistry::<TestSubscriptionToken, TestFilter>::new();
    let kept = registry.register(TestFilter::All).expect("register");
    let temporary = registry.register(TestFilter::Label("x")).expect("register");

    assert!(registry.unregister(temporary));
    assert_eq!(
        registry.matching_tokens(&TestEvent::new("x"), TestFilter::matches),
        vec![kept]
    );
    assert_eq!(registry.len(), 1);
}

#[test]
fn successive_reservations_hand_out_increasing_epochs() {
    let state = epoch_state(u64::MAX - 1);
    let store = TestEpochStore::new(state.clone());
    assert_eq!(store.next_epoch(), Some(u64::MAX - 1));
    let mut authority = SubscriptionEventEpochAuthority::new(store);

    let first = Publisher::new(EVENT_ROUTE, authority.reserve().expect("first epoch"))
        .publish(token(1), TestEvent::new("first"))
        .expect("publish first");
    let second = Publisher::new(EVENT_ROUTE, authority.reserve().expect("second epoch"))
        .publish(token(1), TestEvent::new("second"))
        .expect("publish second");

    assert_eq!(first.event_identifier().session_epoch(), u64::MAX - 1);
    assert_eq!(second.event_identifier().session_epoch(), u64::MAX);
    assert!(matches!(
        authority.reserve(),
        Err(SubscriptionEventEpochError::EpochExhausted)
    ));
    assert_eq!(*state.borrow(), None);
}
