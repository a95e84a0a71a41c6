//! Reusable subscription mechanics: minting subscription tokens, keeping the
//! live subscriptions, reserving event epochs, and numbering the events one
//! publisher sends.
//!
//! Tokens and event identifiers are held as the plain values the wire carries:
//! a token is its 64-bit value; an event identifier is its session epoch and
//! its sequence number on the acceptor lane.

use vstd::prelude::*;

verus! {

/// The plain value a subscription token carries on the wire.
#[derive(Clone, Copy, Debug, PartialEq, Eq, Structural)]
pub struct SubscriptionTokenValue {
    value: u64,
}

/// The bridge between a component's own token type and the token value.
/// A token is identified by its value: two tokens with the same value are the same token.
pub trait SubscriptionToken: Copy + Eq + Sized {
    /// The value this token carries.
    spec fn token_value(&self) -> u64;

    fn from_inner(inner: SubscriptionTokenValue) -> (token: Self)
        ensures
            token.token_value() == inner@,
    ;

    fn into_inner(self) -> (inner: SubscriptionTokenValue)
        ensures
            inner@ == self.token_value(),
    ;
}

/// Mints token values 1, 2, 3, ... until the 64-bit space is spent.
#[derive(Debug)]
pub struct SubscriptionTokenIssuer {
    next_value: Option<u64>,
}

/// One live subscription: its token and the filter its events must match.
#[derive(Clone, Debug, PartialEq, Eq)]
pub struct Subscription<Token: SubscriptionToken, Filter> {
    token: Token,
    filter: Filter,
}

/// The live subscriptions of one stream, in registration order, with the
/// issuer of their tokens. No two live subscriptions share a token.
#[derive(Debug)]
pub struct SubscriptionRegistry<Token: SubscriptionToken, Filter> {
    subscriptions: Vec<Subscription<Token, Filter>>,
    token_issuer: SubscriptionTokenIssuer,
}

#[derive(Clone, Copy, Debug, PartialEq, Eq, Structural)]
pub enum SubscriptionTokenError {
    TokenExhausted,
    TokenCollision,
}

#[derive(Clone, Copy, Debug, PartialEq, Eq, Structural)]
pub enum SubscriptionPublishError {
    SequenceExhausted,
}

#[derive(Debug, PartialEq, Eq)]
pub enum SubscriptionEventEpochError<StoreError> {
    EpochExhausted,
    Store(StoreError),
}

/// One reserved session epoch: the identity of one publisher's event sequence.
#[derive(Debug, PartialEq, Eq, Structural)]
pub struct SubscriptionEventEpoch {
    session_epoch: u64,
}

/// The permission a store needs to hand out an epoch; only an authority makes one.
pub struct SubscriptionEventEpochReservation<'authority> {
    authority: std::marker::PhantomData<&'authority mut ()>,
}

/// The durable reservation state behind one stream identity's epochs.
pub trait SubscriptionEventEpochStore {
    type Error;

    /// The epoch the next successful reservation hands out, as the durable
    /// state holds it; none once the epoch space is spent.
    spec fn next_epoch(&self) -> Option<u64>;

    /// Atomically advances durable reservation state before returning the epoch.
    /// A successful implementation must make the advance durable before it
    /// commits the reservation: it hands out the state's next epoch and leaves
    /// the state past it. A spent state refuses.
    fn reserve_next_epoch(
        &mut self,
        reservation: SubscriptionEventEpochReservation<'_>,
    ) -> (result: Result<SubscriptionEventEpoch, SubscriptionEventEpochError<Self::Error>>)
        ensures
            result matches Ok(epoch) ==> reservation_step(
                old(self).next_epoch(),
                final(self).next_epoch(),
                epoch@,
            ),
            old(self).next_epoch() is None ==> result is Err,
    ;
}

/// A successful reservation from durable state `before` that hands out
/// `epoch` and leaves state `after`: the epoch is the one the state held, and
/// the state moves past it (skipping is allowed, going back is not).
pub open spec fn reservation_step(before: Option<u64>, after: Option<u64>, epoch: u64) -> bool {
    &&& before == Some(epoch)
    &&& match after {
        Some(next) => next > epoch,
        None => true,
    }
}

/// The single owner of a stream identity's epoch store.
pub struct SubscriptionEventEpochAuthority<Store> {
    store: Store,
}

/// An event identifier on the acceptor lane: its session epoch and its sequence number.
#[derive(Clone, Copy, Debug, PartialEq, Eq, Structural)]
pub struct SubscriptionEventIdentifier {
    session_epoch: u64,
    sequence: u64,
}

/// Numbers the events of one session epoch on the acceptor lane: 0, 1, 2, ...
/// until the 64-bit sequence space is spent.
#[derive(Debug, PartialEq, Eq, Structural)]
pub struct SubscriptionEventSequence {
    session_epoch: u64,
    next_sequence: Option<u64>,
}

/// A subscription event ready for the wire: the route it travels on, its
/// identifier, the token of the subscription it is for, and the event itself.
#[derive(Clone, Debug, PartialEq, Eq)]
pub struct SubscriptionEvent<Route, Event> {
    event_route: Route,
    event_identifier: SubscriptionEventIdentifier,
    token: SubscriptionTokenValue,
    event: Event,
}

/// The one publisher that owns an epoch's event sequence.
#[derive(Debug)]
pub struct SubscriptionEventPublisher<Route, Event> {
    event_route: Route,
    sequence: SubscriptionEventSequence,
    event: std::marker::PhantomData<Event>,
}

/// The value issued by a mint from an issuer whose next value is `next`, and
/// the next value after it: the space is spent once the largest value is issued.
pub open spec fn next_after_mint(next: Option<u64>) -> Option<u64> {
    match next {
        Some(value) => if value < u64::MAX {
            Some((value + 1) as u64)
        } else {
            None
        },
        None => None,
    }
}

/// The values that `count` successive mints issue from an issuer whose next
/// value is `next`, in order; mints that find the space spent issue nothing.
pub open spec fn minted_values(next: Option<u64>, count: nat) -> Seq<u64>
    decreases count,
{
    if count == 0 {
        Seq::empty()
    } else {
        match next {
            Some(value) => seq![value].add(minted_values(next_after_mint(next), (count - 1) as nat)),
            None => Seq::empty(),
        }
    }
}

/// Whether a sequence of values is strictly increasing.
pub open spec fn strictly_increasing(values: Seq<u64>) -> bool {
    forall|i: int, j: int| 0 <= i < j < values.len() ==> values[i] < values[j]
}

/// Whether no token value occurs twice among the entries.
pub open spec fn unique_tokens<Filter>(entries: Seq<(u64, Filter)>) -> bool {
    forall|i: int, j: int|
        0 <= i < entries.len() && 0 <= j < entries.len() && i != j ==> entries[i].0 != entries[j].0
}

/// Whether some entry carries the token value.
pub open spec fn has_token<Filter>(entries: Seq<(u64, Filter)>, token: u64) -> bool {
    exists|i: int| 0 <= i < entries.len() && entries[i].0 == token
}

/// The entries after removing the one that carries `token`, if any.
pub open spec fn without_token<Filter>(entries: Seq<(u64, Filter)>, token: u64) -> Seq<
    (u64, Filter),
> {
    entries.filter(other_token::<Filter>(token))
}

/// Whether an entry carries a token value other than `token`.
pub open spec fn other_token<Filter>(token: u64) -> spec_fn((u64, Filter)) -> bool {
    |entry: (u64, Filter)| entry.0 != token
}

/// The token values of the entries the outcomes select, in order.
pub open spec fn selected_tokens<Filter>(entries: Seq<(u64, Filter)>, outcomes: Seq<bool>) -> Seq<
    u64,
>
    decreases entries.len(),
{
    if entries.len() == 0 {
        Seq::empty()
    } else {
        let rest = selected_tokens(entries.drop_last(), outcomes.take(entries.len() - 1));
        if outcomes[entries.len() - 1] {
            rest.push(entries.last().0)
        } else {
            rest
        }
    }
}

impl View for SubscriptionTokenValue {
    type V = u64;

    closed spec fn view(&self) -> u64 {
        self.value
    }
}

impl View for SubscriptionTokenIssuer {
    /// The value the next mint issues, or none once the space is spent.
    type V = Option<u64>;

    closed spec fn view(&self) -> Option<u64> {
        self.next_value
    }
}

impl View for SubscriptionEventEpoch {
    type V = u64;

    closed spec fn view(&self) -> u64 {
        self.session_epoch
    }
}

impl View for SubscriptionEventIdentifier {
    /// The session epoch and the sequence number.
    type V = (u64, u64);

    closed spec fn view(&self) -> (u64, u64) {
        (self.session_epoch, self.sequence)
    }
}

impl View for SubscriptionEventSequence {
    /// The session epoch and the next sequence number, or none once spent.
    type V = (u64, Option<u64>);

    closed spec fn view(&self) -> (u64, Option<u64>) {
        (self.session_epoch, self.next_sequence)
    }
}

impl SubscriptionTokenValue {
    pub fn new(value: u64) -> (token: Self)
        ensures
            token@ == value,
    {
        Self { value }
    }

    pub fn value(self) -> (value: u64)
        ensures
            value == self@,
    {
        self.value
    }
}

impl SubscriptionToken for SubscriptionTokenValue {
    open spec fn token_value(&self) -> u64 {
        self@
    }

    fn from_inner(inner: SubscriptionTokenValue) -> (token: Self) {
        inner
    }

    fn into_inner(self) -> (inner: SubscriptionTokenValue) {
        self
    }
}

impl Default for SubscriptionTokenIssuer {
    fn default() -> (issuer: Self)
        ensures
            issuer@ == Some(1u64),
    {
        Self::new()
    }
}

impl SubscriptionTokenIssuer {
    /// A fresh issuer whose first token has the value 1.
    pub fn new() -> (issuer: Self)
        ensures
            issuer@ == Some(1u64),
    {
        Self { next_value: Some(1) }
    }

    /// An issuer whose next token has the given value.
    pub fn from_next_value(next_value: u64) -> (issuer: Self)
        ensures
            issuer@ == Some(next_value),
    {
        Self { next_value: Some(next_value) }
    }

    /// Issues the next token value, or reports the space spent and stays spent.
    pub fn mint<Token: SubscriptionToken>(&mut self) -> (result: Result<
        Token,
        SubscriptionTokenError,
    >)
        ensures
            final(self)@ == next_after_mint(old(self)@),
            match old(self)@ {
                Some(value) => result matches Ok(token) && token.token_value() == value,
                None => result == Err::<Token, SubscriptionTokenError>(
                    SubscriptionTokenError::TokenExhausted,
                ),
            },
    {
        let value = match self.next_value {
            Some(value) => value,
            None => return Err(SubscriptionTokenError::TokenExhausted),
        };
        self.next_value = value.checked_add(1);
        Ok(Token::from_inner(SubscriptionTokenValue::new(value)))
    }
}

impl<Token: SubscriptionToken, Filter> Subscription<Token, Filter> {
    pub closed spec fn token_spec(&self) -> Token {
        self.token
    }

    pub closed spec fn filter_spec(&self) -> Filter {
        self.filter
    }

    pub fn token(&self) -> (token: Token)
        ensures
            token == self.token_spec(),
    {
        self.token
    }

    pub fn filter(&self) -> (filter: &Filter)
        ensures
            *filter == self.filter_spec(),
    {
        &self.filter
    }
}

impl<Token: SubscriptionToken, Filter> View for SubscriptionRegistry<Token, Filter> {
    /// The live subscriptions in registration order, as token value and filter.
    type V = Seq<(u64, Filter)>;

    closed spec fn view(&self) -> Seq<(u64, Filter)> {
        self.subscriptions@.map_values(
            |subscription: Subscription<Token, Filter>|
                (subscription.token.token_value(), subscription.filter),
        )
    }
}

impl<Token: SubscriptionToken, Filter> Default for SubscriptionRegistry<Token, Filter> {
    fn default() -> (registry: Self)
        ensures
            registry@ == Seq::<(u64, Filter)>::empty(),
            registry.issuer_spec() == Some(1u64),
    {
        Self::new()
    }
}

impl<Token: SubscriptionToken, Filter> SubscriptionRegistry<Token, Filter> {
    /// No two live subscriptions share a token value.
    #[verifier::type_invariant]
    closed spec fn tokens_unique(&self) -> bool {
        unique_tokens(self@)
    }

    /// The value the registry's next minted token carries, or none once spent.
    pub closed spec fn issuer_spec(&self) -> Option<u64> {
        self.token_issuer@
    }

    pub fn new() -> (registry: Self)
        ensures
            registry@ == Seq::<(u64, Filter)>::empty(),
            registry.issuer_spec() == Some(1u64),
    {
        let registry = Self { subscriptions: Vec::new(), token_issuer: SubscriptionTokenIssuer::new() };
        assert(registry@ =~= Seq::<(u64, Filter)>::empty());
        registry
    }

    /// An empty registry whose next minted token carries `next_value`.
    pub fn from_next_value(next_value: u64) -> (registry: Self)
        ensures
            registry@ == Seq::<(u64, Filter)>::empty(),
            registry.issuer_spec() == Some(next_value),
    {
        let registry = Self {
            subscriptions: Vec::new(),
            token_issuer: SubscriptionTokenIssuer::from_next_value(next_value),
        };
        assert(registry@ =~= Seq::<(u64, Filter)>::empty());
        registry
    }

    /// Mints a fresh token and registers `filter` under it.
    pub fn register(&mut self, filter: Filter) -> (result: Result<Token, SubscriptionTokenError>)
        ensures
            final(self).issuer_spec() == next_after_mint(old(self).issuer_spec()),
            unique_tokens(final(self)@),
            match old(self).issuer_spec() {
                None => {
                    &&& result == Err::<Token, SubscriptionTokenError>(
                        SubscriptionTokenError::TokenExhausted,
                    )
                    &&& final(self)@ == old(self)@
                },
                Some(value) => if has_token(old(self)@, value) {
                    &&& result == Err::<Token, SubscriptionTokenError>(
                        SubscriptionTokenError::TokenCollision,
                    )
                    &&& final(self)@ == old(self)@
                } else {
                    &&& result matches Ok(token) && token.token_value() == value
                    &&& final(self)@ == old(self)@.push((value, filter))
                },
            },
    {
        proof {
            use_type_invariant(&*self);
        }
        let mut issuer = SubscriptionTokenIssuer::new();
        std::mem::swap(&mut issuer, &mut self.token_issuer);
        let minted = issuer.mint();
        self.token_issuer = issuer;
        let token: Token = minted?;
        if self.contains_token(token) {
            return Err(SubscriptionTokenError::TokenCollision);
        }
        self.push_subscription(token, filter);
        Ok(token)
    }

    /// Registers `filter` under an already-minted token, replacing any live
    /// subscription under the same token.
    pub fn register_token(&mut self, token: Token, filter: Filter)
        ensures
            final(self).issuer_spec() == old(self).issuer_spec(),
            unique_tokens(final(self)@),
            final(self)@ == without_token(old(self)@, token.token_value()).push(
                (token.token_value(), filter),
            ),
    {
        self.unregister(token);
        self.push_subscription(token, filter);
    }

    /// Removes the subscription under `token`; says whether there was one.
    pub fn unregister(&mut self, token: Token) -> (removed: bool)
        ensures
            final(self).issuer_spec() == old(self).issuer_spec(),
            unique_tokens(final(self)@),
            removed == has_token(old(self)@, token.token_value()),
            final(self)@ == without_token(old(self)@, token.token_value()),
            !has_token(final(self)@, token.token_value()),
    {
        proof {
            use_type_invariant(&*self);
        }
        let ghost old_entries = self@;
        let ghost old_issuer = self.issuer_spec();
        let ghost key = token.token_value();
        let mut index: usize = 0;
        while index < self.subscriptions.len()
            invariant
                index <= self.subscriptions@.len(),
                self@ == old_entries,
                old_entries == old(self)@,
                key == token.token_value(),
                self.issuer_spec() == old_issuer,
                old_issuer == old(self).issuer_spec(),
                unique_tokens(old_entries),
                forall|k: int| 0 <= k < index ==> old_entries[k].0 != key,
            decreases self.subscriptions@.len() - index,
        {
            assert(self@[index as int].0 == self.subscriptions@[index as int].token.token_value());
            let live = self.subscriptions[index].token.into_inner();
            let wanted = token.into_inner();
            assert(live@ == self@[index as int].0);
            assert(wanted@ == key);
            if live.value() == wanted.value() {
                let ghost entries = self@;
                assert(entries[index as int].0 == key);
                self.remove_at(index);
                proof {
                    lemma_without_unique_token(entries, index as int);
                }
                return true;
            }
            index = index + 1;
        }
        proof {
            lemma_without_absent_token(old_entries, key);
        }
        false
    }

    pub fn len(&self) -> (length: usize)
        ensures
            length == self@.len(),
    {
        self.subscriptions.len()
    }

    pub fn is_empty(&self) -> (empty: bool)
        ensures
            empty == (self@.len() == 0),
    {
        self.subscriptions.len() == 0
    }

    /// The tokens of the live subscriptions whose filter `matches` the event,
    /// in registration order: each filter is asked once, in order.
    pub fn matching_tokens<Event, Matches: Fn(&Filter, &Event) -> bool>(
        &self,
        event: &Event,
        matches: Matches,
    ) -> (tokens: Vec<Token>)
        requires
            forall|filter: &Filter| #[trigger] matches.requires((filter, event)),
        ensures
            exists|outcomes: Seq<bool>|
                #![trigger selected_tokens(self@, outcomes)]
                {
                    &&& outcomes.len() == self@.len()
                    &&& forall|i: int|
                        0 <= i < outcomes.len() ==> matches.ensures(
                            (&#[trigger] self@[i].1, event),
                            outcomes[i],
                        )
                    &&& tokens@.map_values(|token: Token| token.token_value())
                        == selected_tokens(self@, outcomes)
                },
    {
        let mut tokens: Vec<Token> = Vec::new();
        let ghost mut outcomes: Seq<bool> = Seq::empty();
        let mut index: usize = 0;
        while index < self.subscriptions.len()
            invariant
                index <= self.subscriptions@.len(),
                outcomes.len() == index,
                forall|filter: &Filter| #[trigger] matches.requires((filter, event)),
                forall|i: int|
                    0 <= i < index ==> matches.ensures((&#[trigger] self@[i].1, event), outcomes[i]),
                tokens@.map_values(|token: Token| token.token_value()) == selected_tokens(
                    self@.take(index as int),
                    outcomes,
                ),
            decreases self.subscriptions@.len() - index,
        {
            let subscription = &self.subscriptions[index];
            let matched = matches(&subscription.filter, event);
            let ghost taken = self@.take(index as int + 1);
            assert(taken.drop_last() =~= self@.take(index as int));
            assert(outcomes.push(matched).take(index as int) =~= outcomes);
            assert(taken.last() == self@[index as int]);
            if matched {
                tokens.push(subscription.token);
                assert(tokens@.map_values(|token: Token| token.token_value()) =~= selected_tokens(
                    self@.take(index as int),
                    outcomes,
                ).push(subscription.token.token_value()));
            }
            proof {
                outcomes = outcomes.push(matched);
            }
            index = index + 1;
        }
        assert(self@.take(self.subscriptions@.len() as int) =~= self@);
        tokens
    }

    /// Whether a live subscription carries the same token value.
    fn contains_token(&self, token: Token) -> (found: bool)
        ensures
            found == has_token(self@, token.token_value()),
    {
        let mut index: usize = 0;
        while index < self.subscriptions.len()
            invariant
                index <= self.subscriptions@.len(),
                forall|k: int| 0 <= k < index ==> self@[k].0 != token.token_value(),
            decreases self.subscriptions@.len() - index,
        {
            assert(self@[index as int].0 == self.subscriptions@[index as int].token.token_value());
            if self.subscriptions[index].token.into_inner().value() == token.into_inner().value() {
                assert(self@[index as int].0 == token.token_value());
                return true;
            }
            index = index + 1;
        }
        false
    }

    /// Appends a subscription under a token no live subscription carries.
    fn push_subscription(&mut self, token: Token, filter: Filter)
        requires
            !has_token(old(self)@, token.token_value()),
            unique_tokens(old(self)@),
        ensures
            final(self).issuer_spec() == old(self).issuer_spec(),
            final(self)@ == old(self)@.push((token.token_value(), filter)),
            unique_tokens(final(self)@),
    {
        let ghost entries = self@;
        let ghost pushed = entries.push((token.token_value(), filter));
        assert(unique_tokens(pushed)) by {
            assert forall|i: int, j: int|
                0 <= i < pushed.len() && 0 <= j < pushed.len() && i != j implies pushed[i].0
                != pushed[j].0 by {
                if i < entries.len() && j < entries.len() {
                    assert(pushed[i] == entries[i] && pushed[j] == entries[j]);
                } else if i < entries.len() {
                    assert(pushed[i] == entries[i]);
                } else if j < entries.len() {
                    assert(pushed[j] == entries[j]);
                }
            }
        }
        let mut subscriptions = Vec::new();
        std::mem::swap(&mut subscriptions, &mut self.subscriptions);
        subscriptions.push(Subscription { token, filter });
        assert(subscriptions@.map_values(
            |subscription: Subscription<Token, Filter>|
                (subscription.token.token_value(), subscription.filter),
        ) =~= pushed);
        self.subscriptions = subscriptions;
        assert(self@ =~= pushed);
    }

    /// Removes the subscription at `index`.
    fn remove_at(&mut self, index: usize)
        requires
            index < old(self)@.len(),
            unique_tokens(old(self)@),
        ensures
            final(self).issuer_spec() == old(self).issuer_spec(),
            final(self)@ == old(self)@.remove(index as int),
            unique_tokens(final(self)@),
    {
        let ghost entries = self@;
        assert(unique_tokens(entries.remove(index as int))) by {
            let removed = entries.remove(index as int);
            assert forall|i: int, j: int|
                0 <= i < removed.len() && 0 <= j < removed.len() && i != j implies removed[i].0
                != removed[j].0 by {
                let oi = if i < index { i } else { i + 1 };
                let oj = if j < index { j } else { j + 1 };
                assert(removed[i] == entries[oi] && removed[j] == entries[oj]);
            }
        }
        let mut subscriptions = Vec::new();
        std::mem::swap(&mut subscriptions, &mut self.subscriptions);
        subscriptions.remove(index);
        assert(subscriptions@.map_values(
            |subscription: Subscription<Token, Filter>|
                (subscription.token.token_value(), subscription.filter),
        ) =~= entries.remove(index as int));
        self.subscriptions = subscriptions;
        assert(self@ =~= entries.remove(index as int));
    }
}

/// Removing the one entry that carries a token is the same as keeping every
/// entry that does not carry it, when no token occurs twice.
proof fn lemma_without_unique_token<Filter>(entries: Seq<(u64, Filter)>, index: int)
    requires
        unique_tokens(entries),
        0 <= index < entries.len(),
    ensures
        without_token(entries, entries[index].0) == entries.remove(index),
    decreases entries.len(),
{
    let key = entries[index].0;
    let pred = |entry: (u64, Filter)| entry.0 != key;
    reveal_with_fuel(Seq::filter, 1);
    if index == entries.len() - 1 {
        lemma_without_absent_token(entries.drop_last(), key);
        assert(entries.remove(index) =~= entries.drop_last());
    } else {
        let shorter = entries.drop_last();
        assert(unique_tokens(shorter)) by {
            assert forall|i: int, j: int|
                0 <= i < shorter.len() && 0 <= j < shorter.len() && i != j implies shorter[i].0
                != shorter[j].0 by {
                assert(shorter[i] == entries[i] && shorter[j] == entries[j]);
            }
        }
        lemma_without_unique_token(shorter, index);
        assert(entries.last().0 != key);
        assert(entries.remove(index) =~= shorter.remove(index).push(entries.last()));
    }
}

/// Keeping every entry that does not carry a token leaves entries unchanged
/// when none carries it.
proof fn lemma_without_absent_token<Filter>(entries: Seq<(u64, Filter)>, key: u64)
    requires
        !has_token(entries, key),
    ensures
        without_token(entries, key) == entries,
    decreases entries.len(),
{
    reveal_with_fuel(Seq::filter, 1);
    if entries.len() > 0 {
        let shorter = entries.drop_last();
        assert(!has_token(shorter, key)) by {
            if has_token(shorter, key) {
                let i = choose|i: int| 0 <= i < shorter.len() && shorter[i].0 == key;
                assert(entries[i] == shorter[i]);
            }
        }
        lemma_without_absent_token(shorter, key);
        assert(entries.last().0 != key) by {
            assert(entries[entries.len() - 1] == entries.last());
        }
        assert(entries =~= shorter.push(entries.last()));
    }
}

impl<'authority> SubscriptionEventEpochReservation<'authority> {
    /// Completes the store's reservation after its state advance is durable.
    pub fn commit(self, session_epoch: u64) -> (epoch: SubscriptionEventEpoch)
        ensures
            epoch@ == session_epoch,
    {
        SubscriptionEventEpoch { session_epoch }
    }
}

impl<Store: SubscriptionEventEpochStore> SubscriptionEventEpochAuthority<Store> {
    pub closed spec fn store_spec(&self) -> Store {
        self.store
    }

    /// Takes ownership of the stream identity's single reservation store.
    pub fn new(store: Store) -> (authority: Self)
        ensures
            authority.store_spec() == store,
    {
        Self { store }
    }

    /// Reserves one epoch through the owning store; what comes back is the
    /// store's answer, handed on as it is: the store's next epoch, or its refusal.
    pub fn reserve(&mut self) -> (result: Result<
        SubscriptionEventEpoch,
        SubscriptionEventEpochError<Store::Error>,
    >)
        ensures
            result matches Ok(epoch) ==> reservation_step(
                old(self).store_spec().next_epoch(),
                final(self).store_spec().next_epoch(),
                epoch@,
            ),
            old(self).store_spec().next_epoch() is None ==> result is Err,
    {
        self.store.reserve_next_epoch(
            SubscriptionEventEpochReservation { authority: std::marker::PhantomData },
        )
    }
}

impl SubscriptionEventIdentifier {
    pub fn session_epoch(&self) -> (epoch: u64)
        ensures
            epoch == self@.0,
    {
        self.session_epoch
    }

    pub fn sequence(&self) -> (sequence: u64)
        ensures
            sequence == self@.1,
    {
        self.sequence
    }
}

impl SubscriptionEventSequence {
    /// A sequence of `session_epoch` whose next event gets `next_sequence`.
    pub fn new(session_epoch: u64, next_sequence: Option<u64>) -> (sequence: Self)
        ensures
            sequence@ == (session_epoch, next_sequence),
    {
        Self { session_epoch, next_sequence }
    }

    /// The acceptor lane's sequence for `session_epoch`, starting at 0.
    pub fn acceptor(session_epoch: u64) -> (sequence: Self)
        ensures
            sequence@ == (session_epoch, Some(0u64)),
    {
        Self::new(session_epoch, Some(0))
    }

    pub fn next_sequence(&self) -> (next: Option<u64>)
        ensures
            next == self@.1,
    {
        self.next_sequence
    }

    /// Issues the next event identifier, or reports the space spent and stays spent.
    pub fn next_identifier(&mut self) -> (result: Result<
        SubscriptionEventIdentifier,
        SubscriptionPublishError,
    >)
        ensures
            final(self)@ == (old(self)@.0, next_after_mint(old(self)@.1)),
            match old(self)@.1 {
                Some(sequence) => result matches Ok(identifier) && identifier@ == (
                    old(self)@.0,
                    sequence,
                ),
                None => result == Err::<SubscriptionEventIdentifier, SubscriptionPublishError>(
                    SubscriptionPublishError::SequenceExhausted,
                ),
            },
    {
        let next_sequence = match self.next_sequence {
            Some(next_sequence) => next_sequence,
            None => return Err(SubscriptionPublishError::SequenceExhausted),
        };
        let identifier = SubscriptionEventIdentifier {
            session_epoch: self.session_epoch,
            sequence: next_sequence,
        };
        self.next_sequence = next_sequence.checked_add(1);
        Ok(identifier)
    }
}

impl<Route: Copy, Event> SubscriptionEvent<Route, Event> {
    pub closed spec fn route_spec(&self) -> Route {
        self.event_route
    }

    pub closed spec fn identifier_spec(&self) -> SubscriptionEventIdentifier {
        self.event_identifier
    }

    pub closed spec fn token_spec(&self) -> SubscriptionTokenValue {
        self.token
    }

    pub closed spec fn event_spec(&self) -> Event {
        self.event
    }

    pub fn event_route(&self) -> (route: Route)
        ensures
            route == self.route_spec(),
    {
        self.event_route
    }

    pub fn event_identifier(&self) -> (identifier: SubscriptionEventIdentifier)
        ensures
            identifier == self.identifier_spec(),
    {
        self.event_identifier
    }

    pub fn token(&self) -> (token: SubscriptionTokenValue)
        ensures
            token == self.token_spec(),
    {
        self.token
    }

    pub fn into_event(self) -> (event: Event)
        ensures
            event == self.event_spec(),
    {
        self.event
    }
}

impl<Route: Copy, Event> SubscriptionEventPublisher<Route, Event> {
    pub closed spec fn route_spec(&self) -> Route {
        self.event_route
    }

    pub closed spec fn sequence_spec(&self) -> (u64, Option<u64>) {
        self.sequence@
    }

    /// Creates the one publisher that owns `epoch`'s event sequence.
    pub fn new(event_route: Route, epoch: SubscriptionEventEpoch) -> (publisher: Self)
        ensures
            publisher.route_spec() == event_route,
            publisher.sequence_spec() == (epoch@, Some(0u64)),
    {
        Self {
            event_route,
            sequence: SubscriptionEventSequence::acceptor(epoch.session_epoch),
            event: std::marker::PhantomData,
        }
    }

    pub fn event_route(&self) -> (route: Route)
        ensures
            route == self.route_spec(),
    {
        self.event_route
    }

    /// Builds the next subscription event for `token`, numbered by this
    /// publisher's sequence.
    pub fn publish<Token: SubscriptionToken>(&mut self, token: Token, event: Event) -> (result:
        Result<SubscriptionEvent<Route, Event>, SubscriptionPublishError>)
        ensures
            final(self).route_spec() == old(self).route_spec(),
            final(self).sequence_spec() == (
                old(self).sequence_spec().0,
                next_after_mint(old(self).sequence_spec().1),
            ),
            match old(self).sequence_spec().1 {
                Some(sequence) => result matches Ok(published) && {
                    &&& published.route_spec() == old(self).route_spec()
                    &&& published.identifier_spec()@ == (old(self).sequence_spec().0, sequence)
                    &&& published.token_spec()@ == token.token_value()
                    &&& published.event_spec() == event
                },
                None => result == Err::<SubscriptionEvent<Route, Event>, SubscriptionPublishError>(
                    SubscriptionPublishError::SequenceExhausted,
                ),
            },
    {
        let event_identifier = self.sequence.next_identifier()?;
        Ok(
            SubscriptionEvent {
                event_route: self.event_route,
                event_identifier,
                token: token.into_inner(),
                event,
            },
        )
    }
}

/// Successive mints never issue a value twice: the values come out strictly
/// increasing, starting at the next value. Token issuers mint token values
/// this way, and event sequences mint the sequence numbers of a publisher's
/// events the same way, so no two events of one epoch share an identifier.
pub proof fn lemma_minted_values_strictly_increase(next: Option<u64>, count: nat)
    ensures
        strictly_increasing(minted_values(next, count)),
        minted_values(next, count).len() > 0 ==> Some(minted_values(next, count)[0]) == next,
        forall|i: int|
            0 <= i < minted_values(next, count).len() ==> #[trigger] minted_values(next, count)[i]
                >= next->0,
    decreases count,
{
    if count > 0 {
        if let Some(value) = next {
            let rest = minted_values(next_after_mint(next), (count - 1) as nat);
            lemma_minted_values_strictly_increase(next_after_mint(next), (count - 1) as nat);
            let all = minted_values(next, count);
            assert(all =~= seq![value].add(rest));
            if value < u64::MAX {
                assert forall|i: int| 0 <= i < rest.len() implies rest[i] > value by {
                    assert(rest[i] >= value + 1);
                }
            } else {
                assert(rest.len() == 0) by {
                    reveal_with_fuel(minted_values, 2);
                }
            }
            assert forall|i: int, j: int| 0 <= i < j < all.len() implies all[i] < all[j] by {
                if i == 0 {
                    assert(all[j] == rest[j - 1]);
                } else {
                    assert(all[i] == rest[i - 1] && all[j] == rest[j - 1]);
                }
            }
        }
    }
}

/// Two successive successful reservations from one store hand out different
/// epochs, the later one larger: no epoch, and so no event identifier, is
/// handed out twice.
pub proof fn lemma_successive_reservations_increase(
    first_state: Option<u64>,
    second_state: Option<u64>,
    third_state: Option<u64>,
    first_epoch: u64,
    second_epoch: u64,
)
    requires
        reservation_step(first_state, second_state, first_epoch),
        reservation_step(second_state, third_state, second_epoch),
    ensures
        first_epoch < second_epoch,
{
}

/// Registering a filter and then unregistering the token it was given leaves
/// the live subscriptions exactly as they were.
pub proof fn lemma_register_then_unregister_restores<Filter>(
    entries: Seq<(u64, Filter)>,
    token: u64,
    filter: Filter,
)
    requires
        !has_token(entries, token),
    ensures
        without_token(entries.push((token, filter)), token) == entries,
{
    lemma_without_pushed_token(entries, token, filter);
    lemma_without_absent_token(entries, token);
}

/// Registering a token twice keeps one live subscription under it, with the
/// latest filter, at the end.
pub proof fn lemma_register_token_replaces<Filter>(
    entries: Seq<(u64, Filter)>,
    token: u64,
    stale: Filter,
    current: Filter,
)
    ensures
        without_token(without_token(entries, token).push((token, stale)), token).push(
            (token, current),
        ) == without_token(entries, token).push((token, current)),
{
    let kept = without_token(entries, token);
    assert(!has_token(kept, token)) by {
        if has_token(kept, token) {
            let i = choose|i: int| 0 <= i < kept.len() && kept[i].0 == token;
            entries.lemma_filter_pred(other_token::<Filter>(token), i);
        }
    }
    lemma_register_then_unregister_restores(kept, token, stale);
}

/// Keeping the entries without a token drops an entry pushed with it.
proof fn lemma_without_pushed_token<Filter>(entries: Seq<(u64, Filter)>, token: u64, filter: Filter)
    ensures
        without_token(entries.push((token, filter)), token) == without_token(entries, token),
{
    reveal_with_fuel(Seq::filter, 1);
    assert(entries.push((token, filter)).drop_last() =~= entries);
}

/// Whether `indices` lists, in increasing order, exactly the positions whose
/// outcome is true among the first `count` outcomes.
pub open spec fn lists_true_positions(outcomes: Seq<bool>, count: int, indices: Seq<int>) -> bool {
    &&& forall|k: int|
        0 <= k < indices.len() ==> 0 <= #[trigger] indices[k] < count && outcomes[indices[k]]
    &&& forall|k: int, l: int| 0 <= k < l < indices.len() ==> indices[k] < indices[l]
    &&& forall|i: int|
        0 <= i < count && #[trigger] outcomes[i] ==> exists|k: int|
            0 <= k < indices.len() && indices[k] == i
}

/// The tokens selected for an event are the tokens of exactly the entries
/// whose own outcome is true, each once, in registration order: entry `i` is
/// selected if and only if `outcomes[i]`, whatever the other outcomes are.
pub proof fn lemma_selected_tokens_are_the_matching_entries<Filter>(
    entries: Seq<(u64, Filter)>,
    outcomes: Seq<bool>,
)
    requires
        outcomes.len() == entries.len(),
    ensures
        exists|indices: Seq<int>|
            {
                &&& lists_true_positions(outcomes, entries.len() as int, indices)
                &&& indices.len() == selected_tokens(entries, outcomes).len()
                &&& forall|k: int|
                    0 <= k < indices.len() ==> selected_tokens(entries, outcomes)[k]
                        == entries[#[trigger] indices[k]].0
            },
    decreases entries.len(),
{
    if entries.len() == 0 {
        let indices = Seq::<int>::empty();
        assert(lists_true_positions(outcomes, 0, indices));
    } else {
        let last = entries.len() - 1;
        let shorter = entries.drop_last();
        let earlier = outcomes.take(last);
        lemma_selected_tokens_are_the_matching_entries(shorter, earlier);
        let rest_indices = choose|indices: Seq<int>|
            {
                &&& lists_true_positions(earlier, last, indices)
                &&& indices.len() == selected_tokens(shorter, earlier).len()
                &&& forall|k: int|
                    0 <= k < indices.len() ==> selected_tokens(shorter, earlier)[k]
                        == shorter[#[trigger] indices[k]].0
            };
        let rest = selected_tokens(shorter, earlier);
        assert(selected_tokens(entries, outcomes) == if outcomes[last] {
            rest.push(entries.last().0)
        } else {
            rest
        });
        let indices = if outcomes[last] {
            rest_indices.push(last)
        } else {
            rest_indices
        };
        assert forall|k: int| 0 <= k < indices.len() implies 0 <= #[trigger] indices[k]
            < entries.len() && outcomes[indices[k]] by {
            if k < rest_indices.len() {
                assert(indices[k] == rest_indices[k]);
                assert(earlier[rest_indices[k]] == outcomes[rest_indices[k]]);
            }
        }
        assert forall|k: int, l: int| 0 <= k < l < indices.len() implies indices[k]
            < indices[l] by {
            if l < rest_indices.len() {
                assert(indices[k] == rest_indices[k] && indices[l] == rest_indices[l]);
            } else {
                assert(indices[k] == rest_indices[k]);
                assert(0 <= rest_indices[k] < last);
            }
        }
        assert forall|i: int| 0 <= i < entries.len() && #[trigger] outcomes[i] implies exists|
            k: int,
        | 0 <= k < indices.len() && indices[k] == i by {
            if i < last {
                assert(earlier[i] == outcomes[i]);
                let k = choose|k: int| 0 <= k < rest_indices.len() && rest_indices[k] == i;
                assert(indices[k] == i);
            } else {
                assert(indices[rest_indices.len() as int] == i);
            }
        }
        assert forall|k: int| 0 <= k < indices.len() implies selected_tokens(entries, outcomes)[k]
            == entries[#[trigger] indices[k]].0 by {
            if k < rest_indices.len() {
                assert(indices[k] == rest_indices[k]);
                assert(shorter[rest_indices[k]] == entries[rest_indices[k]]);
            }
        }
        assert(lists_true_positions(outcomes, entries.len() as int, indices));
    }
}

} // verus!
