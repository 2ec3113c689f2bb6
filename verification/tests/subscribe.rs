use oauth2_context::context::{OAuth2Context, Reason};
use oauth2_context::subscribe::{
    subscribe, subscribe_raw, unzip_registration, ComponentContext, ComponentScope,
    ContextProvider, NotificationTarget, ProviderSlot, Unzipped, UnzippedWith,
};

fn authenticated(token: &str, refresh: Option<&str>, expires: Option<u64>) -> OAuth2Context {
    OAuth2Context::Authenticated {
        access_token: token.to_string(),
        refresh_token: refresh.map(|r| r.to_string()),
        expires,
    }
}

fn emission() -> Vec<OAuth2Context> {
    vec![
        OAuth2Context::NotInitialized,
        OAuth2Context::NotAuthenticated { reason: Reason::NewSession },
        authenticated("abc", None, Some(1000)),
        OAuth2Context::NotAuthenticated { reason: Reason::Expired },
    ]
}

#[test]
fn unzip_registration_splits_a_found_pair_and_keeps_absence() {
    let found = Some((authenticated("abc", None, None), 7u32));
    let (snapshot, handle) = unzip_registration(found);
    assert_eq!(snapshot, Some(authenticated("abc", None, None)));
    assert_eq!(handle, Some(7u32));

    let (snapshot, handle) = unzip_registration::<u32>(None);
    assert_eq!(snapshot, None);
    assert_eq!(handle, None);
}

#[test]
fn subscribe_raw_with_provider_returns_snapshot_and_handle() {
    let mut provider = ContextProvider::new();
    provider.set(authenticated("abc", None, Some(1000)));
    let mut slot = ProviderSlot::with_provider(provider);

    let (snapshot, handle) = subscribe_raw(&mut slot, NotificationTarget::new());
    assert_eq!(snapshot, Some(authenticated("abc", None, Some(1000))));
    assert!(handle.is_some());
}

#[test]
fn snapshot_is_the_value_at_registration_time() {
    let mut slot = ProviderSlot::with_provider(ContextProvider::new());
    let (snapshot, handle) = subscribe_raw(&mut slot, NotificationTarget::new());
    assert_eq!(snapshot, Some(OAuth2Context::NotInitialized));
    let h = handle.unwrap();

    // A later update changes what a later subscriber snapshots, not what the
    // earlier call returned.
    slot.provider_mut().set(OAuth2Context::Failed("boom".to_string()));
    let (snapshot2, handle2) = subscribe_raw(&mut slot, NotificationTarget::new());
    assert_eq!(snapshot2, Some(OAuth2Context::Failed("boom".to_string())));
    assert!(handle2.is_some());

    // The first registration saw the update delivered, not snapshotted.
    assert_eq!(slot.provider().delivered_count(&h), 1);
}

#[test]
fn subscribe_raw_without_provider_returns_none_none() {
    let mut slot = ProviderSlot::empty();
    let (snapshot, handle) = subscribe_raw(&mut slot, NotificationTarget::new());
    assert_eq!(snapshot, None);
    assert!(handle.is_none());
}

#[test]
fn subscribe_without_provider_returns_none_none() {
    let mut slot = ProviderSlot::empty();
    let (snapshot, target) = subscribe(&mut slot, |_s: OAuth2Context| 0u32);
    assert_eq!(snapshot, None);
    assert!(target.is_none());
}

#[test]
fn each_update_is_delivered_once_in_emission_order() {
    let mut slot = ProviderSlot::with_provider(ContextProvider::new());
    let (_, handle) = subscribe_raw(&mut slot, NotificationTarget::new());
    let h = handle.unwrap();

    let sequence = emission();
    for v in sequence.iter() {
        slot.provider_mut().set(v.duplicate());
    }

    let p = slot.provider();
    assert_eq!(p.delivered_count(&h), 4);
    for (i, v) in sequence.iter().enumerate() {
        assert_eq!(p.delivered_at(&h, i), v);
    }
    assert_eq!(p.current(), &OAuth2Context::NotAuthenticated { reason: Reason::Expired });
}

#[test]
fn every_active_subscriber_gets_every_update() {
    let mut slot = ProviderSlot::with_provider(ContextProvider::new());
    let (_, h1) = subscribe_raw(&mut slot, NotificationTarget::new());
    let (_, h2) = subscribe_raw(&mut slot, NotificationTarget::new());
    let (h1, h2) = (h1.unwrap(), h2.unwrap());

    slot.provider_mut().set(OAuth2Context::NotInitialized);
    slot.provider_mut().set(authenticated("t", None, None));

    let p = slot.provider();
    assert_eq!(p.subscription_count(), 2);
    for h in [&h1, &h2] {
        assert_eq!(p.delivered_count(h), 2);
        assert_eq!(p.delivered_at(h, 0), &OAuth2Context::NotInitialized);
        assert_eq!(p.delivered_at(h, 1), &authenticated("t", None, None));
    }
}

#[test]
fn release_stops_further_deliveries() {
    let mut slot = ProviderSlot::with_provider(ContextProvider::new());
    let (_, h1) = subscribe_raw(&mut slot, NotificationTarget::new());
    let (_, h2) = subscribe_raw(&mut slot, NotificationTarget::new());
    let (h1, h2) = (h1.unwrap(), h2.unwrap());

    slot.provider_mut().set(authenticated("before", None, None));
    slot.provider_mut().release(&h1);
    slot.provider_mut().set(authenticated("after", None, None));

    let p = slot.provider();
    assert!(!p.is_active(&h1));
    assert!(p.is_active(&h2));
    // The released sink keeps what it had and observes nothing later.
    assert_eq!(p.delivered_count(&h1), 1);
    assert_eq!(p.delivered_at(&h1, 0), &authenticated("before", None, None));
    // The still-active sink observes both.
    assert_eq!(p.delivered_count(&h2), 2);
    assert_eq!(p.delivered_at(&h2, 1), &authenticated("after", None, None));
}

#[test]
fn transform_messages_arrive_in_the_consumer_mailbox() {
    let mut slot = ProviderSlot::with_provider(ContextProvider::new());
    let mut scope: ComponentScope<&'static str> = ComponentScope::new();

    let (snapshot, target) = scope.unzipped(&mut slot, |s: OAuth2Context| match s {
        OAuth2Context::Authenticated { .. } => "ON",
        _ => "OFF",
    });
    assert_eq!(snapshot, Some(OAuth2Context::NotInitialized));
    let mut target = target.unwrap();

    for v in emission() {
        slot.provider_mut().set(v);
    }
    scope.process_pending(slot.provider(), &mut target);

    assert_eq!(scope.messages(), &vec!["OFF", "OFF", "ON", "OFF"]);
}

#[test]
fn processing_twice_duplicates_nothing() {
    let mut slot = ProviderSlot::with_provider(ContextProvider::new());
    let mut scope: ComponentScope<usize> = ComponentScope::new();
    let (_, target) = scope.unzipped(&mut slot, |s: OAuth2Context| match s.access_token() {
        Some(t) => t.len(),
        None => 0,
    });
    let mut target = target.unwrap();

    slot.provider_mut().set(authenticated("abc", None, None));
    scope.process_pending(slot.provider(), &mut target);
    scope.process_pending(slot.provider(), &mut target);
    assert_eq!(scope.messages(), &vec![3]);

    slot.provider_mut().set(OAuth2Context::NotInitialized);
    slot.provider_mut().set(authenticated("abcde", None, None));
    scope.process_pending(slot.provider(), &mut target);
    assert_eq!(scope.messages(), &vec![3, 0, 5]);
}

#[test]
fn released_message_subscription_sees_no_later_update() {
    let mut slot = ProviderSlot::with_provider(ContextProvider::new());
    let mut scope: ComponentScope<bool> = ComponentScope::new();
    let (_, target) = scope.unzipped(
        &mut slot,
        |s: OAuth2Context| matches!(s, OAuth2Context::Authenticated { .. }),
    );
    let mut target = target.unwrap();

    slot.provider_mut().set(authenticated("abc", None, None));
    slot.provider_mut().release(target.handle());
    slot.provider_mut().set(OAuth2Context::NotInitialized);
    scope.process_pending(slot.provider(), &mut target);

    assert_eq!(scope.messages(), &vec![true]);
}

#[test]
fn both_consumer_kinds_behave_identically() {
    // The initialization-time context.
    let mut slot = ProviderSlot::with_provider(ContextProvider::new());
    let context: ComponentContext<u8> = ComponentContext::new();
    let (snapshot, handle) = context.unzipped_with(&mut slot, NotificationTarget::new());
    assert_eq!(snapshot, Some(OAuth2Context::NotInitialized));
    assert!(handle.is_some());

    // The persistent scope behind it.
    let scope = context.link();
    let (snapshot2, handle2) = scope.unzipped_with(&mut slot, NotificationTarget::new());
    assert_eq!(snapshot2, Some(OAuth2Context::NotInitialized));
    assert!(handle2.is_some());

    // Both against a position with no provider.
    let mut empty = ProviderSlot::empty();
    let (s3, h3) = context.unzipped_with(&mut empty, NotificationTarget::new());
    assert_eq!(s3, None);
    assert!(h3.is_none());
    let (s4, h4) = scope.unzipped_with(&mut empty, NotificationTarget::new());
    assert_eq!(s4, None);
    assert!(h4.is_none());
}

#[test]
fn context_consumer_delivers_to_its_own_scope() {
    let mut slot = ProviderSlot::with_provider(ContextProvider::new());
    let mut context: ComponentContext<&'static str> = ComponentContext::new();
    let (_, target) = context.unzipped(&mut slot, |s: OAuth2Context| match s {
        OAuth2Context::Failed(_) => "failed",
        _ => "ok",
    });
    let mut target = target.unwrap();

    slot.provider_mut().set(OAuth2Context::Failed("malformed".to_string()));
    slot.provider_mut().set(OAuth2Context::NotInitialized);
    context
        .link_mut()
        .process_pending(slot.provider(), &mut target);

    assert_eq!(context.link().messages(), &vec!["failed", "ok"]);
}
