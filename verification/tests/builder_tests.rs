use fcm_client::json::JsonValue;
use fcm_client::notification::NotificationBuilder;

fn data_story() -> JsonValue {
    JsonValue::Obj(vec![(
        String::from("story_id"),
        JsonValue::Str(String::from("story_12345")),
    )])
}

#[test]
fn title_and_body_serialized() {
    let payload = NotificationBuilder::new("TEST_TITLE", "TEST_TOKEN")
        .message("TEST_MESSAGE")
        .build();
    let s = payload.to_json();
    assert_eq!(
        s,
        "{\"message\":{\"token\":\"TEST_TOKEN\",\"notification\":{\"title\":\"TEST_TITLE\",\
         \"body\":\"TEST_MESSAGE\"},\"android\":{\"notification\":{}},\"apns\":{\"payload\":\
         {\"aps\":{\"alert\":{\"title\":\"TEST_TITLE\",\"body\":\"TEST_MESSAGE\"}}}}}}"
    );
}

#[test]
fn unset_fields_are_omitted() {
    let payload = NotificationBuilder::new("Hello", "tok").build();
    let s = payload.to_json();
    assert_eq!(
        s,
        "{\"message\":{\"token\":\"tok\",\"notification\":{\"title\":\"Hello\"},\
         \"android\":{\"notification\":{}},\"apns\":{\"payload\":{\"aps\":\
         {\"alert\":{\"title\":\"Hello\"}}}}}}"
    );
    assert!(!s.contains("body"));
    assert!(!s.contains("channel_id"));
    assert!(!s.contains("data"));
    assert!(!s.contains("sound"));
    assert!(!s.contains("null"));
}

#[test]
fn set_fields_appear_with_their_values() {
    let payload = NotificationBuilder::new("Breaking News", "device-1")
        .message("New news story available.")
        .android_channel_id("channel_urgent")
        .data(data_story())
        .apn_sound(String::from("default"))
        .build();
    let s = payload.to_json();
    assert_eq!(
        s,
        "{\"message\":{\"token\":\"device-1\",\"notification\":{\"title\":\"Breaking News\",\
         \"body\":\"New news story available.\"},\"android\":{\"notification\":\
         {\"channel_id\":\"channel_urgent\"}},\"data\":{\"story_id\":\"story_12345\"},\
         \"apns\":{\"payload\":{\"aps\":{\"alert\":{\"title\":\"Breaking News\",\
         \"body\":\"New news story available.\"},\"sound\":\"default\"}}}}}"
    );
}

#[test]
fn android_and_apple_blocks_always_present() {
    let bare = NotificationBuilder::new("t", "k").build().to_json();
    assert!(bare.contains("\"android\":{\"notification\":{}}"));
    assert!(bare.contains("\"apns\":{\"payload\":{\"aps\":{\"alert\":"));
    let full = NotificationBuilder::new("t", "k")
        .message("m")
        .android_channel_id("c")
        .apn_sound(String::from("s"))
        .build()
        .to_json();
    assert!(full.contains("\"android\":{\"notification\":{\"channel_id\":\"c\"}}"));
    assert!(full.contains("\"apns\":{\"payload\":{\"aps\":{\"alert\":"));
}

#[test]
fn title_and_body_mirrored_into_apple_alert() {
    let s = NotificationBuilder::new("My Title", "k")
        .message("My Body")
        .build()
        .to_json();
    assert_eq!(s.matches("\"title\":\"My Title\"").count(), 2);
    assert_eq!(s.matches("\"body\":\"My Body\"").count(), 2);
    let bare = NotificationBuilder::new("Only Title", "k").build().to_json();
    assert_eq!(bare.matches("\"title\":\"Only Title\"").count(), 2);
    assert_eq!(bare.matches("\"body\"").count(), 0);
}

#[test]
fn equivalent_builders_serialize_identically() {
    let first = NotificationBuilder::new("T", "k")
        .message("B")
        .android_channel_id("c")
        .data(data_story())
        .apn_sound(String::from("s"))
        .build()
        .to_json();
    let second = NotificationBuilder::new("T", "k")
        .message("B")
        .android_channel_id("c")
        .data(data_story())
        .apn_sound(String::from("s"))
        .build()
        .to_json();
    assert_eq!(first.into_bytes(), second.into_bytes());
}

#[test]
fn data_passes_through_verbatim() {
    let s = NotificationBuilder::new("Breaking News", "k")
        .message("New news story available.")
        .data(data_story())
        .build()
        .to_json();
    assert!(s.contains("\"data\":{\"story_id\":\"story_12345\"}"));
}

#[test]
fn fractional_data_numbers_pass_through_verbatim() {
    let data = JsonValue::Obj(vec![
        (String::from("score"), JsonValue::Num(String::from("0.75"))),
        (String::from("count"), JsonValue::Int(3)),
    ]);
    let s = NotificationBuilder::new("t", "k").data(data).build().to_json();
    assert!(s.contains("\"data\":{\"score\":0.75,\"count\":3}"));
}

#[test]
fn builder_order_of_calls_is_immaterial_for_distinct_fields() {
    let a = NotificationBuilder::new("T", "k")
        .message("B")
        .android_channel_id("c")
        .build()
        .to_json();
    let b = NotificationBuilder::new("T", "k")
        .android_channel_id("c")
        .message("B")
        .build()
        .to_json();
    assert_eq!(a, b);
}
