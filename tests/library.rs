use imessage_bridge::api::{
    choose_sender, error_body_from_quoted, health_response, is_authorized, participants,
    send_response, AppError,
};
use imessage_bridge::migration::{
    activation_handle, has_raw_key, ids_handle, migrate_hardware, migrate_user, migrate_users,
    HardwareKeys, KeyMaterial, UserKeys,
};
use imessage_bridge::phone::format_phone;
use imessage_bridge::restore::{
    restore_step, RestoreAction, RestoreError, RestoreEvent, RestorePhase,
};
use imessage_bridge::session::{
    incident_markers, postdata_step, requires_mac_login, AnisetteState, ProvisionedAnisette,
    ProvisionedFlavor,
};
use imessage_bridge::sync::{JoinedOSConfig, StateSyncListener, SyncAction, SyncEvent};

fn handle_of(k: &Option<KeyMaterial>) -> Option<String> {
    match k {
        Some(KeyMaterial::Handle(h)) => Some(h.clone()),
        _ => None,
    }
}

fn is_raw(k: &Option<KeyMaterial>) -> bool {
    matches!(k, Some(KeyMaterial::Raw(_)))
}

fn legacy_user(id: &str) -> UserKeys {
    UserKeys {
        user_id: id.to_string(),
        auth_key: Some(KeyMaterial::Raw(vec![0x30, 0x82, 0x04, 0xa4])),
        service_keys: vec![Some(KeyMaterial::Raw(vec![1, 2, 3])), None],
    }
}

#[test]
fn phone_ten_digits_gets_country_code() {
    assert_eq!(format_phone("(555) 123-4567"), "tel:+15551234567");
}

#[test]
fn phone_eleven_digits_with_leading_one() {
    assert_eq!(format_phone("1-555-123-4567"), "tel:+15551234567");
}

#[test]
fn phone_tel_uri_is_kept() {
    assert_eq!(format_phone("tel:+447700900123"), "tel:+447700900123");
}

#[test]
fn phone_plus_prefix_gets_scheme() {
    assert_eq!(format_phone("+447700900123"), "tel:+447700900123");
}

#[test]
fn phone_other_becomes_digits() {
    assert_eq!(format_phone("ab12"), "tel:+12");
    assert_eq!(format_phone(""), "tel:+");
}

#[test]
fn handles_are_prefixed() {
    assert_eq!(activation_handle("C02XK1ABJG5J"), "activation:C02XK1ABJG5J");
    assert_eq!(ids_handle("D:12345"), "ids:D:12345");
}

#[test]
fn legacy_activation_key_migrates_to_handle() {
    let der = vec![0x30, 0x82, 0x02, 0x5d, 0x02, 0x01, 0x00];
    let mut hw = HardwareKeys {
        serial: "C02XK1ABJG5J".to_string(),
        activation_key: Some(KeyMaterial::Raw(der.clone())),
    };
    let imp = migrate_hardware(&mut hw).expect("a raw key asks for an import");
    assert_eq!(imp.handle, "activation:C02XK1ABJG5J");
    assert_eq!(imp.bits, 1024);
    assert_eq!(imp.der, der);
    assert_eq!(handle_of(&hw.activation_key), Some("activation:C02XK1ABJG5J".to_string()));
    assert!(migrate_hardware(&mut hw).is_none());
    assert_eq!(handle_of(&hw.activation_key), Some("activation:C02XK1ABJG5J".to_string()));
}

#[test]
fn hardware_without_key_is_untouched() {
    let mut hw = HardwareKeys { serial: "X".to_string(), activation_key: None };
    assert!(migrate_hardware(&mut hw).is_none());
    assert!(hw.activation_key.is_none());
}

#[test]
fn user_keys_all_take_the_ids_handle() {
    let (u, imp) = migrate_user(&legacy_user("D:1"));
    assert_eq!(handle_of(&u.auth_key), Some("ids:D:1".to_string()));
    assert_eq!(handle_of(&u.service_keys[0]), Some("ids:D:1".to_string()));
    assert!(u.service_keys[1].is_none());
    let imp = imp.expect("the auth key is imported");
    assert_eq!(imp.bits, 2048);
    assert_eq!(imp.der, vec![0x30, 0x82, 0x04, 0xa4]);
    assert!(!has_raw_key(&u));
}

#[test]
fn second_migration_writes_nothing() {
    let users = vec![legacy_user("D:1"), legacy_user("D:2")];
    let first = migrate_users(&users);
    assert!(first.changed);
    assert_eq!(first.imports.len(), 2);
    assert_eq!(first.imports[1].handle, "ids:D:2");
    let second = migrate_users(&first.users);
    assert!(!second.changed);
    assert!(second.imports.is_empty());
    for u in &second.users {
        assert!(!is_raw(&u.auth_key));
        assert!(u.service_keys.iter().all(|k| !is_raw(k)));
    }
}

#[test]
fn raw_service_key_alone_counts_as_change() {
    let users = vec![UserKeys {
        user_id: "D:9".to_string(),
        auth_key: Some(KeyMaterial::Handle("ids:D:9".to_string())),
        service_keys: vec![Some(KeyMaterial::Raw(vec![7]))],
    }];
    let r = migrate_users(&users);
    assert!(r.changed);
    assert!(r.imports.is_empty());
    assert_eq!(handle_of(&r.users[0].service_keys[0]), Some("ids:D:9".to_string()));
}

#[test]
fn empty_user_list_is_unchanged() {
    let r = migrate_users(&Vec::new());
    assert!(!r.changed);
    assert!(r.users.is_empty());
}

#[test]
fn postdata_runs_once() {
    let first = postdata_step(None);
    assert!(first.run_update);
    assert_eq!(first.flag, Some(true));
    let second = postdata_step(first.flag);
    assert!(!second.run_update);
    assert_eq!(second.flag, Some(true));
    assert!(postdata_step(Some(false)).run_update);
}

fn anisette(flavor: Option<ProvisionedFlavor>) -> Option<AnisetteState> {
    Some(AnisetteState {
        keychain_identifier: [7; 16],
        provisioned: flavor.map(|flavor| ProvisionedAnisette {
            client_secret: vec![1],
            mid: vec![2],
            metadata: vec![3],
            rinfo: "17106176".to_string(),
            flavor,
        }),
    })
}

#[test]
fn mac_flavor_selects_mac_login() {
    assert!(requires_mac_login(&anisette(Some(ProvisionedFlavor::Mac))));
    assert!(!requires_mac_login(&anisette(Some(ProvisionedFlavor::IOS))));
    assert!(!requires_mac_login(&anisette(None)));
    assert!(!requires_mac_login(&None));
    assert_eq!(ProvisionedFlavor::default(), ProvisionedFlavor::Mac);
}

#[test]
fn incident_markers_follow_the_cache() {
    let p = incident_markers(false, true);
    assert!(p.create_incident && p.create_incident_affected);
    let p = incident_markers(false, false);
    assert!(p.create_incident && !p.create_incident_affected);
    let p = incident_markers(true, true);
    assert!(!p.create_incident && !p.create_incident_affected);
}

#[test]
fn missing_hardware_aborts_before_connection() {
    let mut phase = RestorePhase::Uninitialized;
    let mut actions = Vec::new();
    for e in [
        RestoreEvent::KeystoreInitialized,
        RestoreEvent::MigrationFinished { ok: true },
        RestoreEvent::RecordsRead { hardware: false, users: true, identity: true },
        RestoreEvent::ConnectionOpened { ok: true },
        RestoreEvent::ClientBuilt,
    ] {
        let (p, a) = restore_step(phase, e);
        phase = p;
        actions.push(a);
    }
    assert_eq!(phase, RestorePhase::Aborted);
    assert_eq!(actions[2], RestoreAction::Abort(RestoreError::MissingHardware));
    assert!(!actions.contains(&RestoreAction::OpenConnection));
    assert!(actions[3..].iter().all(|a| *a == RestoreAction::Nothing));
}

#[test]
fn full_restoration_reaches_ready() {
    let steps = [
        (RestoreEvent::KeystoreInitialized, RestoreAction::RunMigration),
        (RestoreEvent::MigrationFinished { ok: true }, RestoreAction::LoadRecords),
        (
            RestoreEvent::RecordsRead { hardware: true, users: true, identity: true },
            RestoreAction::OpenConnection,
        ),
        (
            RestoreEvent::ConnectionOpened { ok: false },
            RestoreAction::BuildClient { persist_hardware: false },
        ),
        (RestoreEvent::ClientBuilt, RestoreAction::BuildAnisette),
        (RestoreEvent::AnisetteBuilt, RestoreAction::RestoreAccount),
        (RestoreEvent::AccountAttempted, RestoreAction::Subscribe),
        (RestoreEvent::Subscribed, RestoreAction::Finish),
    ];
    let mut phase = RestorePhase::Uninitialized;
    for (e, expected) in steps {
        let (p, a) = restore_step(phase, e);
        assert_eq!(a, expected);
        phase = p;
    }
    assert_eq!(phase, RestorePhase::Ready);
}

#[test]
fn restoration_errors() {
    assert_eq!(
        restore_step(RestorePhase::KeystoreReady, RestoreEvent::MigrationFinished { ok: false }),
        (RestorePhase::Aborted, RestoreAction::Abort(RestoreError::MigrationFailed))
    );
    assert_eq!(
        restore_step(
            RestorePhase::Migrated,
            RestoreEvent::RecordsRead { hardware: true, users: false, identity: true }
        ),
        (RestorePhase::Aborted, RestoreAction::Abort(RestoreError::MissingUsers))
    );
    assert_eq!(
        restore_step(
            RestorePhase::Migrated,
            RestoreEvent::RecordsRead { hardware: true, users: true, identity: false }
        ),
        (RestorePhase::Aborted, RestoreAction::Abort(RestoreError::BadIdentity))
    );
    assert_eq!(
        restore_step(RestorePhase::Uninitialized, RestoreEvent::ClientBuilt),
        (RestorePhase::Aborted, RestoreAction::Abort(RestoreError::OutOfOrder))
    );
}

#[test]
fn listener_persists_the_last_live_state() {
    let listener = StateSyncListener::new(vec![9, 9], JoinedOSConfig::Relay(vec![1]));
    let mut disk: Option<Vec<u8>> = None;
    let events = [
        (SyncEvent::Regenerated, Some(vec![1u8])),
        (SyncEvent::Lagged, None),
        (SyncEvent::Lagged, None),
        (SyncEvent::Lagged, None),
        (SyncEvent::Regenerated, Some(vec![5u8])),
    ];
    for (e, live) in events.iter() {
        match listener.on_event(*e, live.as_ref()) {
            SyncAction::Persist(s) => {
                assert_eq!(s.identity, vec![9, 9]);
                assert!(matches!(s.os_config, JoinedOSConfig::Relay(ref b) if *b == vec![1]));
                disk = Some(s.push);
            },
            SyncAction::Skip => {},
            SyncAction::Stop => panic!("listener stopped early"),
        }
    }
    assert_eq!(disk, Some(vec![5u8]));
    assert!(matches!(listener.on_event(SyncEvent::Closed, None), SyncAction::Stop));
    assert!(matches!(listener.on_event(SyncEvent::Regenerated, None), SyncAction::Stop));
}

#[test]
fn error_body_quotes_the_message() {
    let e = AppError::new("bad \"input\"".to_string());
    assert_eq!(e.status(), 500);
    assert_eq!(e.response_body(), "{\"error\":\"bad \\\"input\\\"\"}");
    assert_eq!(error_body_from_quoted("\"x\""), "{\"error\":\"x\"}");
}

#[test]
fn sender_is_first_handle() {
    let handles = vec!["mailto:a@b.c".to_string(), "tel:+1555".to_string()];
    assert_eq!(choose_sender(&handles).ok(), Some("mailto:a@b.c".to_string()));
    match choose_sender(&Vec::new()) {
        Err(e) => assert_eq!(e.0, "No registered handles"),
        Ok(_) => panic!("no handles must fail"),
    }
    let p = participants(&handles[0], "5551234567");
    assert_eq!(p, vec!["mailto:a@b.c".to_string(), "tel:+15551234567".to_string()]);
    let r = send_response("id-1".to_string());
    assert!(r.success);
    assert_eq!(r.message_id, "id-1");
}

#[test]
fn health_reports_handles() {
    assert_eq!(health_response(&Vec::new()).status, "no_handles");
    assert_eq!(health_response(&vec!["tel:+1".to_string()]).status, "ok");
}

#[test]
fn authorization_rules() {
    assert!(is_authorized("", None));
    assert!(is_authorized("k1", Some("Bearer k1")));
    assert!(is_authorized("k1", Some("k1")));
    assert!(!is_authorized("k1", Some("Bearer k2")));
    assert!(!is_authorized("k1", None));
    assert!(!is_authorized("k1", Some("bearer k1")));
}
