use core::marker::PhantomData;
use vstd::prelude::*;

use crate::context::{AuthState, OAuth2Context};

verus! {

/// A raw notification target: the sink a provider invokes with each new
/// state. It records every delivery, in the order the provider issued them.
pub struct NotificationTarget {
    received: Vec<OAuth2Context>,
}

impl View for NotificationTarget {
    type V = Seq<AuthState>;

    closed spec fn view(&self) -> Seq<AuthState> {
        Seq::new(self.received@.len(), |i: int| self.received@[i]@)
    }
}

impl NotificationTarget {
    /// A fresh target that has received nothing yet.
    pub fn new() -> (t: Self)
        ensures
            t@ == Seq::<AuthState>::empty(),
    {
        let t = NotificationTarget { received: Vec::new() };
        proof {
            assert(t@ =~= Seq::<AuthState>::empty());
        }
        t
    }
}

/// An opaque token for one registration with a provider. Handing it to
/// `ContextProvider::release` is the only way to stop deliveries.
pub struct SubscriptionHandle {
    index: usize,
}

impl SubscriptionHandle {
    /// Which of the provider's registrations the handle stands for.
    pub closed spec fn index(&self) -> int {
        self.index as int
    }
}

/// One registration inside a provider.
struct Entry {
    active: bool,
    target: NotificationTarget,
}

impl View for Entry {
    type V = SubscriptionModel;

    closed spec fn view(&self) -> SubscriptionModel {
        SubscriptionModel { active: self.active, received: self.target@ }
    }
}

/// The model of one registration: whether it still receives updates, and
/// everything delivered to it so far, in emission order.
pub ghost struct SubscriptionModel {
    /// Deliveries continue only while this holds.
    pub active: bool,
    /// Every state delivered to the target, oldest first.
    pub received: Seq<AuthState>,
}

/// The model of a provider: the authoritative state and every registration
/// made against it, in registration order.
pub ghost struct ProviderModel {
    /// The one authoritative state.
    pub current: AuthState,
    /// All registrations, released ones included.
    pub subs: Seq<SubscriptionModel>,
}

/// What one update does to one registration: an active one receives the new
/// state exactly once, appended after everything it received before; a
/// released one is left as it is.
pub open spec fn notify_step(s: SubscriptionModel, v: AuthState) -> SubscriptionModel {
    if s.active {
        SubscriptionModel { active: true, received: s.received.push(v) }
    } else {
        s
    }
}

/// What one update does to a whole provider: the value replaces the
/// authoritative state and is delivered once to every active registration;
/// nothing else changes.
pub open spec fn broadcast_step(m: ProviderModel, v: AuthState) -> ProviderModel {
    ProviderModel { current: v, subs: m.subs.map_values(|s: SubscriptionModel| notify_step(s, v)) }
}

/// A whole emission sequence, applied oldest first.
pub open spec fn broadcast_seq(m: ProviderModel, vs: Seq<AuthState>) -> ProviderModel
    decreases vs.len(),
{
    if vs.len() == 0 {
        m
    } else {
        broadcast_seq(broadcast_step(m, vs[0]), vs.subrange(1, vs.len() as int))
    }
}

/// Law: over a whole emission sequence, a registration that is active
/// receives exactly that sequence, appended in emission order after what it
/// had before — one delivery per update, nothing duplicated, dropped or
/// reordered — and stays active; a released registration is left exactly as
/// it was, so no update after its release is ever observed by it.
pub proof fn lemma_broadcast_exact(m: ProviderModel, vs: Seq<AuthState>, i: int)
    requires
        0 <= i < m.subs.len(),
    ensures
        broadcast_seq(m, vs).subs.len() == m.subs.len(),
        m.subs[i].active ==> broadcast_seq(m, vs).subs[i] == (SubscriptionModel {
            active: true,
            received: m.subs[i].received + vs,
        }),
        !m.subs[i].active ==> broadcast_seq(m, vs).subs[i] == m.subs[i],
    decreases vs.len(),
{
    if vs.len() == 0 {
        assert(m.subs[i].received + vs =~= m.subs[i].received);
    } else {
        let m1 = broadcast_step(m, vs[0]);
        let rest = vs.subrange(1, vs.len() as int);
        lemma_broadcast_exact(m1, rest, i);
        assert(m1.subs[i] == notify_step(m.subs[i], vs[0]));
        if m.subs[i].active {
            assert(m.subs[i].received.push(vs[0]) + rest =~= m.subs[i].received + vs);
        }
    }
}

/// Law: the authoritative state after a whole emission sequence is the last
/// value emitted, or the state already held when nothing was emitted: the
/// core never reorders or coalesces what the provider issues.
pub proof fn lemma_broadcast_current(m: ProviderModel, vs: Seq<AuthState>)
    ensures
        vs.len() > 0 ==> broadcast_seq(m, vs).current == vs.last(),
        vs.len() == 0 ==> broadcast_seq(m, vs).current == m.current,
    decreases vs.len(),
{
    if vs.len() > 0 {
        let m1 = broadcast_step(m, vs[0]);
        let rest = vs.subrange(1, vs.len() as int);
        lemma_broadcast_current(m1, rest);
        if vs.len() > 1 {
            assert(rest.last() == vs.last());
        }
    }
}

/// The provider: owner of the authoritative `OAuth2Context` and of the
/// registered notification targets. All registration and notification is
/// synchronous; there is no other thread.
pub struct ContextProvider {
    current: OAuth2Context,
    entries: Vec<Entry>,
}

impl View for ContextProvider {
    type V = ProviderModel;

    closed spec fn view(&self) -> ProviderModel {
        ProviderModel {
            current: self.current@,
            subs: Seq::new(self.entries@.len(), |i: int| self.entries@[i]@),
        }
    }
}

impl ContextProvider {
    /// A provider that has not produced a value yet and has no registrations.
    pub fn new() -> (p: Self)
        ensures
            p@.current == AuthState::NotInitialized,
            p@.subs == Seq::<SubscriptionModel>::empty(),
    {
        let p = ContextProvider { current: OAuth2Context::NotInitialized, entries: Vec::new() };
        proof {
            assert(p@.subs =~= Seq::<SubscriptionModel>::empty());
        }
        p
    }

    /// A handle is usable with this provider exactly when it came from it.
    pub open spec fn valid_handle(&self, h: SubscriptionHandle) -> bool {
        0 <= h.index() < self@.subs.len()
    }

    /// The authoritative state right now.
    pub fn current(&self) -> (r: &OAuth2Context)
        ensures
            r@ == self@.current,
    {
        &self.current
    }

    /// How many registrations were ever made, released ones included.
    pub fn subscription_count(&self) -> (n: usize)
        ensures
            n == self@.subs.len(),
    {
        self.entries.len()
    }

    /// Whether the registration still receives updates.
    pub fn is_active(&self, h: &SubscriptionHandle) -> (b: bool)
        requires
            self.valid_handle(*h),
        ensures
            b == self@.subs[h.index()].active,
    {
        self.entries[h.index].active
    }

    /// How many deliveries the registration has received so far.
    pub fn delivered_count(&self, h: &SubscriptionHandle) -> (n: usize)
        requires
            self.valid_handle(*h),
        ensures
            n == self@.subs[h.index()].received.len(),
    {
        self.entries[h.index].target.received.len()
    }

    /// The delivery at position `i`, in emission order.
    pub fn delivered_at(&self, h: &SubscriptionHandle, i: usize) -> (r: &OAuth2Context)
        requires
            self.valid_handle(*h),
            i < self@.subs[h.index()].received.len(),
        ensures
            r@ == self@.subs[h.index()].received[i as int],
    {
        &self.entries[h.index].target.received[i]
    }

    /// Register a notification target: the target will receive every later
    /// update until released. Returns the snapshot taken at registration time
    /// and the handle for the new registration.
    pub fn register(&mut self, notify: NotificationTarget) -> (r: (OAuth2Context, SubscriptionHandle))
        ensures
            r.0@ == old(self)@.current,
            final(self)@.current == old(self)@.current,
            final(self)@.subs == old(self)@.subs.push(
                (SubscriptionModel { active: true, received: notify@ }),
            ),
            r.1.index() == old(self)@.subs.len(),
    {
        let handle = SubscriptionHandle { index: self.entries.len() };
        let snapshot = self.current.duplicate();
        self.entries.push(Entry { active: true, target: notify });
        proof {
            assert(self@.subs =~= old(self)@.subs.push(
                SubscriptionModel { active: true, received: notify@ },
            ));
        }
        (snapshot, handle)
    }

    /// Replace the authoritative state and deliver it once to every active
    /// registration, in place. Released registrations observe nothing.
    pub fn set(&mut self, value: OAuth2Context)
        ensures
            final(self)@ == broadcast_step(old(self)@, value@),
    {
        let ghost m0 = self@;
        let n = self.entries.len();
        let mut i: usize = 0;
        while i < n
            invariant
                i <= n,
                n == self.entries.len(),
                n == m0.subs.len(),
                self@.current == m0.current,
                forall|j: int| 0 <= j < i ==> self@.subs[j] == notify_step(m0.subs[j], value@),
                forall|j: int| i <= j < n ==> self@.subs[j] == m0.subs[j],
            decreases n - i,
        {
            let ghost pre = self@.subs;
            if self.entries[i].active {
                let copy = value.duplicate();
                let entry = &mut self.entries[i];
                entry.target.received.push(copy);
                proof {
                    assert(self@.subs[i as int].received =~= m0.subs[i as int].received.push(
                        value@,
                    ));
                    assert(self@.subs[i as int] == notify_step(m0.subs[i as int], value@));
                }
            } else {
                proof {
                    assert(!m0.subs[i as int].active);
                    assert(self@.subs[i as int] == notify_step(m0.subs[i as int], value@));
                }
            }
            proof {
                assert forall|j: int| 0 <= j <= i implies self@.subs[j] == notify_step(
                    m0.subs[j],
                    value@,
                ) by {
                    if j < i {
                        assert(self@.subs[j] == pre[j]);
                        assert(pre[j] == notify_step(m0.subs[j], value@));
                    }
                }
                assert forall|j: int| i + 1 <= j < n implies self@.subs[j] == m0.subs[j] by {
                    assert(self@.subs[j] == pre[j]);
                }
            }
            i += 1;
        }
        let ghost done = self@.subs;
        self.current = value;
        proof {
            assert forall|j: int| 0 <= j < n implies done[j] == broadcast_step(
                m0,
                value@,
            ).subs[j] by {
                assert(done[j] == notify_step(m0.subs[j], value@));
                assert(broadcast_step(m0, value@).subs[j] == notify_step(m0.subs[j], value@));
            }
            assert(done =~= broadcast_step(m0, value@).subs);
            assert(self@.subs =~= done);
        }
    }

    /// Release a registration: no later update is delivered to it, and there
    /// is no way back to receiving. What it received up to now stays
    /// readable.
    pub fn release(&mut self, h: &SubscriptionHandle)
        requires
            old(self).valid_handle(*h),
        ensures
            final(self)@.current == old(self)@.current,
            final(self)@.subs.len() == old(self)@.subs.len(),
            final(self)@.subs[h.index()] == (SubscriptionModel {
                active: false,
                received: old(self)@.subs[h.index()].received,
            }),
            forall|i: int|
                0 <= i < old(self)@.subs.len() && i != h.index() ==> final(self)@.subs[i] == old(
                    self,
                )@.subs[i],
    {
        let entry = &mut self.entries[h.index];
        entry.active = false;
    }
}

/// What a context lookup finds at a consumer's position in the tree: the
/// nearest ancestor provider of `OAuth2Context`, or none when no provider is
/// in scope there.
pub struct ProviderSlot {
    provider: Option<ContextProvider>,
}

impl ProviderSlot {
    /// Whether a provider is reachable from the consumer's position.
    pub closed spec fn has_provider(&self) -> bool {
        self.provider is Some
    }

    /// The model of the reachable provider.
    pub closed spec fn model(&self) -> ProviderModel
        recommends
            self.has_provider(),
    {
        match self.provider {
            Some(p) => p@,
            None => arbitrary(),
        }
    }

    /// A position from which `provider` is reachable.
    pub fn with_provider(provider: ContextProvider) -> (s: Self)
        ensures
            s.has_provider(),
            s.model() == provider@,
    {
        ProviderSlot { provider: Some(provider) }
    }

    /// A position with no provider in scope: every registration attempt
    /// reports absence.
    pub fn empty() -> (s: Self)
        ensures
            !s.has_provider(),
    {
        ProviderSlot { provider: None }
    }

    /// Read access to the reachable provider.
    pub fn provider(&self) -> (p: &ContextProvider)
        requires
            self.has_provider(),
        ensures
            p@ == self.model(),
    {
        match &self.provider {
            Some(p) => p,
            None => vstd::pervasive::unreached(),
        }
    }

    /// Exclusive access to the reachable provider, through which the external
    /// collaborators update the authoritative state.
    pub fn provider_mut(&mut self) -> (p: &mut ContextProvider)
        requires
            old(self).has_provider(),
        ensures
            (*p)@ == old(self).model(),
            final(self).has_provider(),
            final(self).model() == (*final(p))@,
    {
        match &mut self.provider {
            Some(p) => p,
            None => vstd::pervasive::unreached(),
        }
    }
}

/// Register a prebuilt notification target against the nearest provider.
/// With a provider in scope the result is the provider's state at call time
/// and a live handle, and the target joins the provider's registrations; with
/// none it is `(None, None)`, which is no error but a terminal condition for
/// this consumer position, and nothing changes.
pub fn subscribe_raw(providers: &mut ProviderSlot, notify: NotificationTarget) -> (r: (
    Option<OAuth2Context>,
    Option<SubscriptionHandle>,
))
    ensures
        final(providers).has_provider() == old(providers).has_provider(),
        old(providers).has_provider() ==> (r.0 matches Some(c) && c@ == old(providers).model().current),
        old(providers).has_provider() ==> (r.1 matches Some(h) && h.index() == old(providers).model().subs.len()),
        old(providers).has_provider() ==> final(providers).model().current == old(
            providers,
        ).model().current,
        old(providers).has_provider() ==> final(providers).model().subs == old(
            providers,
        ).model().subs.push((SubscriptionModel { active: true, received: notify@ })),
        !old(providers).has_provider() ==> r.0 is None && r.1 is None && *final(providers) == *old(
            providers,
        ),
{
    let inner = providers.provider.take();
    match inner {
        Some(mut p) => {
            let (snapshot, handle) = p.register(notify);
            providers.provider = Some(p);
            (Some(snapshot), Some(handle))
        },
        None => (None, None),
    }
}

/// Split what a context lookup found: the snapshot and the live registration
/// handle when a provider was there, a double absence when none was. This is
/// the whole computation a consumer does around its framework's lookup
/// primitive, whatever the handle type that primitive yields.
pub fn unzip_registration<H>(found: Option<(OAuth2Context, H)>) -> (r: (
    Option<OAuth2Context>,
    Option<H>,
))
    ensures
        found matches Some(pair) ==> (r.0 matches Some(c) && c == pair.0) && (r.1 matches Some(h)
            && h == pair.1),
        found is None ==> r.0 is None && r.1 is None,
{
    match found {
        Some((auth, handle)) => (Some(auth), Some(handle)),
        None => (None, None),
    }
}

/// The notification target `subscribe` builds: it carries the caller's
/// transform and the handle of the raw registration behind it, plus how many
/// deliveries were already turned into messages. In this single-threaded
/// model the consumer's mailbox itself stays with the consumer's scope, and
/// `ComponentScope::process_pending` performs the deliveries.
#[verifier::reject_recursive_types(M)]
pub struct MessageTarget<M, F: Fn(OAuth2Context) -> M> {
    handle: SubscriptionHandle,
    transform: F,
    pumped: usize,
    _message: PhantomData<M>,
}

impl<M, F: Fn(OAuth2Context) -> M> MessageTarget<M, F> {
    /// The raw registration behind the target.
    pub closed spec fn index(&self) -> int {
        self.handle.index()
    }

    /// The transform the target applies to each delivered state.
    pub closed spec fn func(&self) -> F {
        self.transform
    }

    /// How many deliveries were already turned into messages.
    pub closed spec fn pumped(&self) -> int {
        self.pumped as int
    }

    /// The raw handle behind the target, for releasing the registration or
    /// for reading what was delivered to it.
    pub fn handle(&self) -> (h: &SubscriptionHandle)
        ensures
            h.index() == self.index(),
    {
        &self.handle
    }
}

/// `m` is a message the transform `f` can produce for the state `s`.
pub open spec fn delivers<M, F: Fn(OAuth2Context) -> M>(f: F, s: AuthState, m: M) -> bool {
    exists|v: OAuth2Context| v@ == s && call_ensures(f, (v,), m)
}

/// Register interest through a plain transformation function: builds the
/// notification target from the transform and delegates to `subscribe_raw`,
/// returning its result unchanged but for the handle being carried inside the
/// built target.
pub fn subscribe<M, F: Fn(OAuth2Context) -> M>(providers: &mut ProviderSlot, transform: F) -> (r: (
    Option<OAuth2Context>,
    Option<MessageTarget<M, F>>,
))
    ensures
        final(providers).has_provider() == old(providers).has_provider(),
        old(providers).has_provider() ==> (r.0 matches Some(c) && c@ == old(providers).model().current),
        old(providers).has_provider() ==> (r.1 matches Some(t) && t.index() == old(providers).model().subs.len()
            && t.func() == transform && t.pumped() == 0),
        old(providers).has_provider() ==> final(providers).model().current == old(
            providers,
        ).model().current,
        old(providers).has_provider() ==> final(providers).model().subs == old(
            providers,
        ).model().subs.push(
            (SubscriptionModel { active: true, received: Seq::<AuthState>::empty() }),
        ),
        !old(providers).has_provider() ==> r.0 is None && r.1 is None && *final(providers) == *old(
            providers,
        ),
{
    let (snapshot, handle) = subscribe_raw(providers, NotificationTarget::new());
    match handle {
        Some(h) => (
            snapshot,
            Some(
                MessageTarget { handle: h, transform, pumped: 0, _message: PhantomData },
            ),
        ),
        None => (snapshot, None),
    }
}

/// Uniform capability of every consumer kind: register a prebuilt
/// notification target and get the snapshot and handle, or `(None, None)`
/// when no provider is in scope.
pub trait UnzippedWith {
    /// Register `notify` against the nearest provider of the consumer's
    /// position.
    fn unzipped_with(&self, providers: &mut ProviderSlot, notify: NotificationTarget) -> (r: (
        Option<OAuth2Context>,
        Option<SubscriptionHandle>,
    ))
        ensures
            final(providers).has_provider() == old(providers).has_provider(),
            old(providers).has_provider() ==> (r.0 matches Some(c) && c@ == old(providers).model().current),
            old(providers).has_provider() ==> (r.1 matches Some(h) && h.index() == old(providers).model().subs.len()),
            old(providers).has_provider() ==> final(providers).model().current == old(
                providers,
            ).model().current,
            old(providers).has_provider() ==> final(providers).model().subs == old(
                providers,
            ).model().subs.push((SubscriptionModel { active: true, received: notify@ })),
            !old(providers).has_provider() ==> r.0 is None && r.1 is None && *final(providers)
                == *old(providers),
    ;
}

/// Uniform capability of every consumer kind: register a plain transformation
/// function; each later update is then turned into one message of the
/// consumer's own type, delivered to the consumer's own mailbox.
pub trait Unzipped {
    /// The consumer's own message type.
    type Message;

    /// Register interest through `transform`.
    fn unzipped<F: Fn(OAuth2Context) -> Self::Message>(
        &self,
        providers: &mut ProviderSlot,
        transform: F,
    ) -> (r: (Option<OAuth2Context>, Option<MessageTarget<Self::Message, F>>))
        ensures
            final(providers).has_provider() == old(providers).has_provider(),
            old(providers).has_provider() ==> (r.0 matches Some(c) && c@ == old(providers).model().current),
            old(providers).has_provider() ==> (r.1 matches Some(t) && t.index() == old(providers).model().subs.len()
            && t.func() == transform && t.pumped() == 0),
            old(providers).has_provider() ==> final(providers).model().current == old(
                providers,
            ).model().current,
            old(providers).has_provider() ==> final(providers).model().subs == old(
                providers,
            ).model().subs.push(
                (SubscriptionModel { active: true, received: Seq::<AuthState>::empty() }),
            ),
            !old(providers).has_provider() ==> r.0 is None && r.1 is None && *final(providers)
                == *old(providers),
    ;
}

/// A persistent handle to a component, usable for the component's whole
/// remaining lifetime: it owns the component's mailbox.
pub struct ComponentScope<M> {
    mailbox: Vec<M>,
}

impl<M> View for ComponentScope<M> {
    type V = Seq<M>;

    closed spec fn view(&self) -> Seq<M> {
        self.mailbox@
    }
}

impl<M> ComponentScope<M> {
    /// A scope whose mailbox is empty.
    pub fn new() -> (s: Self)
        ensures
            s@ == Seq::<M>::empty(),
    {
        let s = ComponentScope { mailbox: Vec::new() };
        proof {
            assert(s@ =~= Seq::<M>::empty());
        }
        s
    }

    /// The messages delivered to this consumer so far, oldest first.
    pub fn messages(&self) -> (r: &Vec<M>)
        ensures
            r@ == self@,
    {
        &self.mailbox
    }

    /// Turn every delivery not yet processed into one message each, in
    /// emission order: for each state the provider delivered to the target's
    /// registration, apply the target's transform and append the message to
    /// this consumer's own mailbox. Nothing is duplicated, dropped or
    /// reordered, and nothing already in the mailbox changes.
    pub fn process_pending<F: Fn(OAuth2Context) -> M>(
        &mut self,
        provider: &ContextProvider,
        target: &mut MessageTarget<M, F>,
    )
        requires
            0 <= old(target).index() < provider@.subs.len(),
            old(target).pumped() <= provider@.subs[old(target).index()].received.len(),
            forall|v: OAuth2Context| call_requires(old(target).func(), (v,)),
        ensures
            final(target).index() == old(target).index(),
            final(target).func() == old(target).func(),
            final(target).pumped() == provider@.subs[old(target).index()].received.len(),
            final(self)@.len() == old(self)@.len() + (provider@.subs[old(
                target,
            ).index()].received.len() - old(target).pumped()),
            forall|j: int| 0 <= j < old(self)@.len() ==> final(self)@[j] == old(self)@[j],
            forall|j: int|
                old(target).pumped() <= j < provider@.subs[old(target).index()].received.len()
                    ==> delivers(
                    old(target).func(),
                    provider@.subs[old(target).index()].received[j],
                    final(self)@[old(self)@.len() + j - old(target).pumped()],
                ),
    {
        let total = provider.delivered_count(&target.handle);
        while target.pumped < total
            invariant
                0 <= target.index() < provider@.subs.len(),
                target.index() == old(target).index(),
                target.func() == old(target).func(),
                target.handle == old(target).handle,
                total == provider@.subs[target.index()].received.len(),
                old(target).pumped() <= target.pumped() <= total,
                self@.len() == old(self)@.len() + target.pumped() - old(target).pumped(),
                forall|j: int| 0 <= j < old(self)@.len() ==> self@[j] == old(self)@[j],
                forall|j: int|
                    old(target).pumped() <= j < target.pumped() ==> delivers(
                        old(target).func(),
                        provider@.subs[target.index()].received[j],
                        self@[old(self)@.len() + j - old(target).pumped()],
                    ),
                forall|v: OAuth2Context| call_requires(old(target).func(), (v,)),
            decreases total - target.pumped,
        {
            let state = provider.delivered_at(&target.handle, target.pumped).duplicate();
            let message = (target.transform)(state);
            self.mailbox.push(message);
            target.pumped = target.pumped + 1;
        }
    }
}

impl<M> UnzippedWith for ComponentScope<M> {
    fn unzipped_with(&self, providers: &mut ProviderSlot, notify: NotificationTarget) -> (r: (
        Option<OAuth2Context>,
        Option<SubscriptionHandle>,
    )) {
        subscribe_raw(providers, notify)
    }
}

impl<M> Unzipped for ComponentScope<M> {
    type Message = M;

    fn unzipped<F: Fn(OAuth2Context) -> M>(
        &self,
        providers: &mut ProviderSlot,
        transform: F,
    ) -> (r: (Option<OAuth2Context>, Option<MessageTarget<M, F>>)) {
        subscribe(providers, transform)
    }
}

/// The initialization-time context of a component: what a component has in
/// hand while it is being created. It wraps the component's persistent scope,
/// and every capability simply goes through that scope, so both consumer
/// kinds behave identically.
pub struct ComponentContext<M> {
    scope: ComponentScope<M>,
}

impl<M> View for ComponentContext<M> {
    type V = Seq<M>;

    closed spec fn view(&self) -> Seq<M> {
        self.scope@
    }
}

impl<M> ComponentContext<M> {
    /// A context around a fresh scope.
    pub fn new() -> (c: Self)
        ensures
            c@ == Seq::<M>::empty(),
    {
        ComponentContext { scope: ComponentScope::new() }
    }

    /// The persistent scope behind the context, as the component keeps it for
    /// use after initialization.
    pub fn link(&self) -> (s: &ComponentScope<M>)
        ensures
            s@ == self@,
    {
        &self.scope
    }

    /// Exclusive access to the scope, for processing deliveries.
    pub fn link_mut(&mut self) -> (s: &mut ComponentScope<M>)
        ensures
            (*s)@ == old(self)@,
            final(self)@ == (*final(s))@,
    {
        &mut self.scope
    }
}

impl<M> UnzippedWith for ComponentContext<M> {
    fn unzipped_with(&self, providers: &mut ProviderSlot, notify: NotificationTarget) -> (r: (
        Option<OAuth2Context>,
        Option<SubscriptionHandle>,
    )) {
        self.link().unzipped_with(providers, notify)
    }
}

impl<M> Unzipped for ComponentContext<M> {
    type Message = M;

    fn unzipped<F: Fn(OAuth2Context) -> M>(
        &self,
        providers: &mut ProviderSlot,
        transform: F,
    ) -> (r: (Option<OAuth2Context>, Option<MessageTarget<M, F>>)) {
        self.link().unzipped(providers, transform)
    }
}

} // verus!
