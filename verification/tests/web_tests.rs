//! Tests of the web envelope: body-to-request conversions, the id
//! parser, and the reply-to-status mapping.

use std::str::FromStr;

use show_bus::item::ItemId;
use show_bus::text::{parse_u32, ParseError};
use show_bus::web::{
    failed_request_reply, item_reply, reply_status, response_status, AllEventChange,
    BroadcastEvent, ConfigFile, CueEvent, DebugMode, ErrorLog, EventChange, GameLog, GetItem,
    ProcessEvent, SaveConfig, SceneChange, StatusChange, TimeSpan, TimeStamp, UserRequest,
    WebReply,
};
use show_bus::item::{Hidden, ItemPair};

#[test]
fn parse_plain_numbers() {
    assert_eq!(Ok(42), parse_u32("42"));
    assert_eq!(Ok(42), parse_u32("+42"));
    assert_eq!(Ok(0), parse_u32("0"));
    assert_eq!(Ok(0), parse_u32("000"));
    assert_eq!(Ok(4294967295), parse_u32("4294967295"));
}

#[test]
fn parse_rejections() {
    assert_eq!(Err(ParseError::Empty), parse_u32(""));
    assert_eq!(Err(ParseError::InvalidDigit), parse_u32("+"));
    assert_eq!(Err(ParseError::InvalidDigit), parse_u32("12a"));
    assert_eq!(Err(ParseError::InvalidDigit), parse_u32("-3"));
    assert_eq!(Err(ParseError::InvalidDigit), parse_u32(" 7"));
    assert_eq!(Err(ParseError::Overflow), parse_u32("4294967296"));
    assert_eq!(Err(ParseError::Overflow), parse_u32("99999999999999999999"));
}

#[test]
fn parse_inverts_printing() {
    for n in [0u32, 5, 9, 10, 42, 307, 65536, 4294967295] {
        let text = ItemId::new_unchecked(n).as_string();
        assert_eq!(Ok(n), parse_u32(&text));
    }
}

#[test]
fn get_item_from_str() {
    assert_eq!(Ok(GetItem { id: 88 }), GetItem::from_str("88"));
    assert_eq!(Err(ParseError::InvalidDigit), GetItem::from_str("8x"));
    assert_eq!(Err(ParseError::Empty), GetItem::from_str(""));
}

#[test]
fn all_event_change_normalizes() {
    let body = AllEventChange {
        adjustment_secs: 1,
        adjustment_nanos: 1_500_000_000,
        is_negative: true,
    };
    match body.into_request() {
        UserRequest::AllEventChange { adjustment, is_negative } => {
            assert_eq!(TimeSpan { secs: 2, nanos: 500_000_000 }, adjustment);
            assert!(is_negative);
        }
        other => panic!("wrong request: {:?}", other),
    }
}

#[test]
fn cue_event_zero_means_no_delay() {
    let now = CueEvent { id: 31, secs: 0, nanos: 0 };
    match now.into_request() {
        UserRequest::CueEvent { event_delay } => {
            assert!(event_delay.delay.is_none());
            assert_eq!(31, event_delay.event_id.id());
        }
        other => panic!("wrong request: {:?}", other),
    }
    let later = CueEvent { id: 31, secs: 2, nanos: 250_000_000 };
    match later.into_request() {
        UserRequest::CueEvent { event_delay } => {
            assert_eq!(Some(TimeSpan { secs: 2, nanos: 250_000_000 }), event_delay.delay);
            assert_eq!(31, event_delay.event_id.id());
        }
        other => panic!("wrong request: {:?}", other),
    }
}

#[test]
fn simple_conversions() {
    assert_eq!(
        UserRequest::DebugMode(true),
        DebugMode { is_debug: true }.into_request()
    );
    match (BroadcastEvent { id: 99, data: Some(3) }).into_request() {
        UserRequest::BroadcastEvent { event_id, data } => {
            assert_eq!(99, event_id.id());
            assert_eq!(Some(3), data);
        }
        other => panic!("wrong request: {:?}", other),
    }
    match (SceneChange { scene_id: 4 }).into_request() {
        UserRequest::SceneChange { scene } => assert_eq!(4, scene.id()),
        other => panic!("wrong request: {:?}", other),
    }
    match (StatusChange { status_id: 6, state_id: 7 }).into_request() {
        UserRequest::StatusChange { status, state } => {
            assert_eq!(6, status.id());
            assert_eq!(7, state.id());
        }
        other => panic!("wrong request: {:?}", other),
    }
    match (ProcessEvent { event_id: 12, check_scene: true, broadcast: false }).into_request() {
        UserRequest::ProcessEvent { event, check_scene, broadcast } => {
            assert_eq!(12, event.id());
            assert!(check_scene);
            assert!(!broadcast);
        }
        other => panic!("wrong request: {:?}", other),
    }
}

#[test]
fn path_conversions() {
    assert_eq!(
        UserRequest::ConfigFile { filepath: Some("show.toml".to_string()) },
        ConfigFile { filename: "show.toml".to_string() }.into_request()
    );
    assert_eq!(
        UserRequest::ErrorLog { filepath: "errors.log".to_string() },
        ErrorLog { filename: "errors.log".to_string() }.into_request()
    );
    assert_eq!(
        UserRequest::GameLog { filepath: "game.log".to_string() },
        GameLog { filename: "game.log".to_string() }.into_request()
    );
    assert_eq!(
        UserRequest::SaveConfig { filepath: "saved.toml".to_string() },
        SaveConfig { filename: "saved.toml".to_string() }.into_request()
    );
}

#[test]
fn event_change_passes_through() {
    let event_id = ItemId::new(21).unwrap();
    let start_time = TimeStamp { secs: 1_700_000_000, nanos: 250 };
    let new_delay = Some(TimeSpan { secs: 3, nanos: 0 });
    let body = EventChange { event_id, start_time, new_delay };
    assert_eq!(
        UserRequest::EventChange { event_id, start_time, new_delay },
        body.into_request()
    );
}

#[test]
fn reply_status_mapping() {
    let ok = WebReply::success("done");
    let bad = WebReply::failure("unknown event");
    assert!(ok.is_success());
    assert!(!bad.is_success());
    assert_eq!(200, reply_status(&ok));
    assert_eq!(400, reply_status(&bad));
    assert_eq!(200, response_status(&Some(ok)));
    assert_eq!(400, response_status(&Some(bad)));
    assert_eq!(500, response_status(&None));
}

#[test]
fn failure_and_item_replies() {
    match failed_request_reply() {
        WebReply::Failure { reason } => assert_eq!("Unable to process request.", reason),
        other => panic!("wrong reply: {:?}", other),
    }
    let pair = ItemPair::new(64, "Moon Gate", Hidden).unwrap();
    match item_reply(pair.clone()) {
        WebReply::Item { is_valid, item_pair } => {
            assert!(is_valid);
            assert!(item_pair.truly_equal(&pair));
        }
        other => panic!("wrong reply: {:?}", other),
    }
    let item = item_reply(pair);
    assert!(item.is_success());
    assert_eq!(200, reply_status(&item));
}
