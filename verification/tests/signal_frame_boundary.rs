use triad_runtime::{
    SubscriptionEvent, SubscriptionEventEpoch, SubscriptionEventEpochAuthority,
    SubscriptionEventEpochError, SubscriptionEventEpochReservation, SubscriptionEventEpochStore,
    SubscriptionEventPublisher, SubscriptionEventSequence, SubscriptionPublishError,
    SubscriptionTokenValue,
};

struct FixedEpochStore {
    epoch: Option<u64>,
}

impl SubscriptionEventEpochStore for FixedEpochStore {
    type Error = ();

    fn next_epoch(&self) -> Option<u64> {
        self.epoch
    }

    fn reserve_next_epoch(
        &mut self,
        reservation: SubscriptionEventEpochReservation<'_>,
    ) -> Result<SubscriptionEventEpoch, SubscriptionEventEpochError<Self::Error>> {
        let Some(epoch) = self.epoch else {
            return Err(SubscriptionEventEpochError::EpochExhausted);
        };
        self.epoch = epoch.checked_add(1);
        Ok(reservation.commit(epoch))
    }
}

/// The publisher has only the bound path: every event it builds carries its
/// route, its acceptor-lane identifier and its token.
#[test]
fn publisher_source_has_no_legacy_unbound_frame_path() {
    let mut authority = SubscriptionEventEpochAuthority::new(FixedEpochStore { epoch: Some(12) });
    let mut publisher =
        SubscriptionEventPublisher::<(u8, u8), &str>::new((0x91, 0x2a), authority.reserve().expect("epoch"));

    let published: SubscriptionEvent<(u8, u8), &str> = publisher
        .publish(SubscriptionTokenValue::new(3), "event")
        .expect("publish");

    assert_eq!(published.event_route(), (0x91, 0x2a));
    assert_eq!(published.event_identifier().session_epoch(), 12);
    assert_eq!(published.event_identifier().sequence(), 0);
    assert_eq!(published.token(), SubscriptionTokenValue::new(3));
    assert_eq!(published.into_event(), "event");
}

#[test]
fn acceptor_sequences_start_at_the_first_lane_sequence() {
    let mut sequence = SubscriptionEventSequence::acceptor(5);

    assert_eq!(sequence.next_sequence(), Some(0));
    assert_eq!(sequence.next_identifier().expect("first").sequence(), 0);
    assert_eq!(sequence.next_sequence(), Some(1));
    assert!(!matches!(
        sequence.next_identifier(),
        Err(SubscriptionPublishError::SequenceExhausted)
    ));
}
