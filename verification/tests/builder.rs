use std::time::Duration;

use filthy_rich::errors::ActivitySpecBuildError;
use filthy_rich::types::activity::{ActivitySpec, ActivityType, StatusDisplayType};
use filthy_rich::types::builder::Activity;
use filthy_rich::types::payloads::{ActivityPayload, AssetField, AssetsPayload};
use filthy_rich::types::data::ActivityResponseData;
use filthy_rich::command::ActivityCommand;
use filthy_rich::errors::TimestampError;
use filthy_rich::time::timestamp_from_elapsed;
use filthy_rich::utils::filter_none_string;

fn payload(spec: ActivitySpec, start: u64, now: u64) -> ActivityPayload {
    ActivityPayload::create_at(spec, start, now)
}

#[test]
fn filter_none_string_drops_empty_text() {
    assert_eq!(filter_none_string(""), None);
    assert_eq!(filter_none_string("abc"), Some("abc".to_string()));
}

#[test]
fn simple_activity_builds_with_its_texts() {
    let spec = Activity::new()
        .name("cool app name")
        .details("Something?")
        .state("Probably~")
        .build()
        .unwrap();
    let p = payload(spec, 100, 200);
    assert_eq!(p.name(), Some("cool app name"));
    assert_eq!(p.details(), Some("Something?"));
    assert_eq!(p.state(), Some("Probably~"));
    assert_eq!(p.details_url(), None);
    assert_eq!(p.state_url(), None);
    assert_eq!(p.activity_type(), None);
    assert_eq!(p.instance(), None);
    assert_eq!(p.created_at(), 200);
    assert_eq!(p.timestamps().start(), 100);
    assert_eq!(p.timestamps().end(), None);
    assert!(p.buttons().is_none());
    let assets = p.assets().unwrap();
    assert_eq!(assets.large_image(), None);
    assert_eq!(assets.small_image(), None);
    assert!(assets.wire_fields().is_empty());
}

#[test]
fn empty_text_unsets_a_field() {
    let spec = Activity::new().name("first").name("").details("d").details("").build().unwrap();
    let p = payload(spec, 0, 0);
    assert_eq!(p.name(), None);
    assert_eq!(p.details(), None);
}

#[test]
fn later_setter_wins() {
    let spec = Activity::new().state("a").state("b").build().unwrap();
    assert_eq!(payload(spec, 0, 0).state(), Some("b"));
}

#[test]
fn every_setter_reaches_the_payload() {
    let spec = Activity::new()
        .name("n")
        .activity_type(ActivityType::Watching)
        .details("d")
        .details_url("https://d")
        .state("s")
        .state_url("https://s")
        .set_as_instance()
        .status_display_type(StatusDisplayType::State)
        .duration(Duration::from_secs(90))
        .large_image("li")
        .large_text("lt")
        .large_url("https://l")
        .small_image("si")
        .small_text("st")
        .small_url("https://sm")
        .build()
        .unwrap();
    let p = payload(spec, 1000, 1500);
    assert_eq!(p.activity_type(), Some(ActivityType::Watching));
    assert_eq!(p.status_display_type(), Some(StatusDisplayType::State));
    assert_eq!(p.instance(), Some(true));
    assert_eq!(p.details_url(), Some("https://d"));
    assert_eq!(p.state_url(), Some("https://s"));
    assert_eq!(p.timestamps().start(), 1000);
    assert_eq!(p.timestamps().end(), Some(1590));
    let a = p.assets().unwrap();
    assert_eq!(a.large_image(), Some("li"));
    assert_eq!(a.large_text(), Some("lt"));
    assert_eq!(a.large_url(), Some("https://l"));
    assert_eq!(a.small_image(), Some("si"));
    assert_eq!(a.small_text(), Some("st"));
    assert_eq!(a.small_url(), Some("https://sm"));
    let fields = a.wire_fields();
    let keys: Vec<&str> = fields.iter().map(|(f, _)| f.key()).collect();
    assert_eq!(
        keys,
        vec!["large_image", "large_text", "large_url", "small_image", "small_text", "small_url"]
    );
    assert_eq!(fields[0], (AssetField::LargeImage, "li"));
    assert_eq!(fields[5], (AssetField::SmallUrl, "https://sm"));
}

#[test]
fn duration_is_counted_in_whole_seconds() {
    let spec = Activity::new().duration(Duration::from_millis(2500)).build().unwrap();
    assert_eq!(payload(spec, 0, 10).timestamps().end(), Some(12));
}

#[test]
fn image_text_without_image_is_refused() {
    let r = Activity::new().large_text("hover").build();
    assert!(matches!(r, Err(ActivitySpecBuildError::ImageAssetsTooEarly)));
    let r = Activity::new().small_url("https://x").build();
    assert!(matches!(r, Err(ActivitySpecBuildError::ImageAssetsTooEarly)));
    let r = Activity::new().large_image("img").large_text("hover").build();
    assert!(r.is_ok());
}

#[test]
fn status_display_needs_its_element() {
    let r = Activity::new().status_display_type(StatusDisplayType::Details).build();
    assert!(matches!(r, Err(ActivitySpecBuildError::StatusDisplayElementMissing("details"))));
    let r = Activity::new().status_display_type(StatusDisplayType::State).build();
    assert!(matches!(r, Err(ActivitySpecBuildError::StatusDisplayElementMissing("state"))));
    let r = Activity::new().status_display_type(StatusDisplayType::Name).build();
    assert!(r.is_ok());
    let r = Activity::new().details("d").status_display_type(StatusDisplayType::Details).build();
    assert!(r.is_ok());
}

#[test]
fn element_url_needs_its_element() {
    let r = Activity::new().details_url("https://d").build();
    assert!(matches!(r, Err(ActivitySpecBuildError::ElementURLProvidedEarly("details"))));
    let r = Activity::new().details("d").state_url("https://s").build();
    assert!(matches!(r, Err(ActivitySpecBuildError::ElementURLProvidedEarly("state"))));
}

#[test]
fn image_errors_come_first() {
    let r = Activity::new()
        .details_url("https://d")
        .status_display_type(StatusDisplayType::State)
        .small_text("t")
        .build();
    assert!(matches!(r, Err(ActivitySpecBuildError::ImageAssetsTooEarly)));
    let r = Activity::new().details_url("https://d").status_display_type(StatusDisplayType::State).build();
    assert!(matches!(r, Err(ActivitySpecBuildError::StatusDisplayElementMissing("state"))));
}

#[test]
fn buttons_keep_order_and_labels_are_unique() {
    let spec = Activity::new()
        .add_button("Home", "https://a")
        .add_button("Docs", "https://b")
        .add_button("Home", "https://c")
        .build()
        .unwrap();
    let p = payload(spec, 0, 0);
    let buttons = p.buttons().unwrap();
    assert_eq!(buttons.len(), 2);
    assert_eq!(buttons[0].label(), "Home");
    assert_eq!(buttons[0].url(), "https://c");
    assert_eq!(buttons[1].label(), "Docs");
    assert_eq!(buttons[1].url(), "https://b");
}

#[test]
fn empty_spec_has_nothing_set() {
    let p = payload(Activity::empty_spec(), 5, 6);
    assert_eq!(p.name(), None);
    assert!(p.assets().is_none());
    assert!(p.buttons().is_none());
    assert_eq!(p.timestamps().start(), 5);
    let d = payload(ActivitySpec::default(), 5, 6);
    assert!(d.assets().is_none());
}

#[test]
fn enum_codes() {
    assert_eq!(u8::from(ActivityType::Playing), 0);
    assert_eq!(u8::from(ActivityType::Listening), 2);
    assert_eq!(u8::from(ActivityType::Watching), 3);
    assert_eq!(u8::from(ActivityType::Competing), 5);
    assert_eq!(u8::from(StatusDisplayType::Name), 0);
    assert_eq!(u8::from(StatusDisplayType::State), 1);
    assert_eq!(u8::from(StatusDisplayType::Details), 2);
}

#[test]
fn create_uses_the_clock() {
    let spec = Activity::new().duration(Duration::from_secs(30)).build().unwrap();
    let p = ActivityPayload::create(spec, 7).unwrap();
    assert!(p.created_at() > 1_600_000_000);
    assert_eq!(p.timestamps().start(), 7);
    assert_eq!(p.timestamps().end(), Some(p.created_at() + 30));
}

#[test]
fn create_refuses_an_end_beyond_u64() {
    let spec = Activity::new().duration(Duration::from_secs(u64::MAX)).build().unwrap();
    assert!(ActivityPayload::create(spec, 0).is_err());
}

#[test]
fn current_timestamp_is_recent() {
    let t = filthy_rich::time::get_current_timestamp().unwrap();
    assert!(t > 1_600_000_000);
}

#[test]
fn texts_without_their_image_stay_off_the_wire() {
    let a = AssetsPayload {
        large_image: None,
        large_url: Some("https://l".into()),
        large_text: Some("lt".into()),
        small_image: Some("si".into()),
        small_text: None,
        small_url: Some("https://s".into()),
    };
    let fields = a.wire_fields();
    assert_eq!(fields, vec![(AssetField::SmallImage, "si"), (AssetField::SmallUrl, "https://s")]);
}

#[test]
fn create_checked_refuses_exactly_an_end_that_does_not_fit() {
    let spec = Activity::new().duration(Duration::from_secs(10)).build().unwrap();
    let r = ActivityPayload::create_checked(spec.clone(), 3, u64::MAX - 10);
    let p = r.unwrap();
    assert_eq!(p.timestamps().end(), Some(u64::MAX));
    assert_eq!(p.timestamps().start(), 3);
    assert_eq!(p.created_at(), u64::MAX - 10);
    let r = ActivityPayload::create_checked(spec, 3, u64::MAX - 9);
    assert!(matches!(r, Err(filthy_rich::errors::TimestampError::EndOverflow)));
    let plain = Activity::new().build().unwrap();
    let p = ActivityPayload::create_checked(plain, 0, u64::MAX).unwrap();
    assert_eq!(p.timestamps().end(), None);
}

#[test]
fn response_data_hands_out_its_activity() {
    let spec = Activity::new().name("echo").build().unwrap();
    let r = ActivityResponseData {
        application_id: Some("42".into()),
        platform: None,
        metadata: None,
        activity: payload(spec, 1, 2),
    };
    assert_eq!(r.activity().name(), Some("echo"));
    assert_eq!(r.application_id(), Some("42"));
    assert_eq!(r.platform(), None);
    assert!(r.metadata().is_none());
}

#[test]
fn elapsed_time_becomes_whole_seconds() {
    let r = timestamp_from_elapsed(Ok(Duration::from_millis(12_999)));
    assert_eq!(r.unwrap(), 12);
    let before = std::time::UNIX_EPOCH
        .checked_sub(Duration::from_secs(5))
        .unwrap()
        .duration_since(std::time::UNIX_EPOCH);
    assert!(matches!(timestamp_from_elapsed(before), Err(TimestampError::SystemTime(_))));
}

#[test]
fn activity_command_carries_pid_activity_and_a_nonce() {
    let spec = Activity::new().name("x").build().unwrap();
    let c = ActivityCommand::new_with(Some(payload(spec, 0, 1)), 4242);
    assert_eq!(c.pid, 4242);
    assert_eq!(c.cmd(), "SET_ACTIVITY");
    assert_eq!(c.activity.as_ref().unwrap().name(), Some("x"));
    assert!(!c.nonce.is_empty());
    let d = ActivityCommand::new_with(None, 1);
    assert!(d.activity.is_none());
    assert_ne!(c.nonce, d.nonce);
}
