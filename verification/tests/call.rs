use patchbukkit::events::call::{
    call_event_decision, fire_request_from_values, CallEventData, EventFields, FireRequest,
};
use patchbukkit::events::kinds::EventKind;

fn request(kind: EventKind, fields: Vec<Option<&str>>) -> Option<CallEventData> {
    Some(CallEventData {
        data: Some(EventFields {
            kind,
            uuid_fields: fields.into_iter().map(|f| f.map(|t| t.to_string())).collect(),
        }),
    })
}

#[test]
fn a_player_event_fires_with_its_parsed_uuid() {
    let r = call_event_decision(request(
        EventKind::PlayerJoin,
        vec![Some("a1a2a3a4-b1b2-c1c2-d1d2-d3d4d5d6d7d8")],
    ));
    assert_eq!(
        r,
        Some(FireRequest {
            kind: EventKind::PlayerJoin,
            uuids: vec![0xa1a2a3a4b1b2c1c2d1d2d3d4d5d6d7d8],
        })
    );
}

#[test]
fn uuids_keep_their_order() {
    let r = call_event_decision(request(
        EventKind::PlayerInteractEntity,
        vec![
            Some("00000000-0000-0000-0000-000000000001"),
            Some("00000000000000000000000000000002"),
        ],
    ));
    assert_eq!(r.unwrap().uuids, vec![1, 2]);
}

#[test]
fn an_event_without_uuid_fields_fires() {
    let r = call_event_decision(request(EventKind::ServerCommand, vec![]));
    assert_eq!(r, Some(FireRequest { kind: EventKind::ServerCommand, uuids: vec![] }));
}

#[test]
fn refused_requests() {
    assert_eq!(call_event_decision(None), None);
    assert_eq!(call_event_decision(Some(CallEventData { data: None })), None);
    assert_eq!(call_event_decision(request(EventKind::PlayerJoin, vec![None])), None);
    assert_eq!(call_event_decision(request(EventKind::PlayerJoin, vec![Some("not-a-uuid")])), None);
    assert_eq!(call_event_decision(request(EventKind::PlayerJoin, vec![Some("")])), None);
    assert_eq!(
        call_event_decision(request(
            EventKind::PlayerInteractEntity,
            vec![Some("00000000-0000-0000-0000-000000000001"), Some("zz")],
        )),
        None
    );
}

#[test]
fn fired_only_when_every_value_is_present() {
    assert_eq!(
        fire_request_from_values(EventKind::PlayerMove, vec![Some(7), Some(9)]),
        Some(FireRequest { kind: EventKind::PlayerMove, uuids: vec![7, 9] })
    );
    assert_eq!(
        fire_request_from_values(EventKind::EntityDeath, vec![]),
        Some(FireRequest { kind: EventKind::EntityDeath, uuids: vec![] })
    );
    assert_eq!(fire_request_from_values(EventKind::PlayerMove, vec![Some(7), None]), None);
    assert_eq!(fire_request_from_values(EventKind::PlayerMove, vec![None, Some(1)]), None);
}
