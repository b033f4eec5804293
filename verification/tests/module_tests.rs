//! Tests carried in the modules themselves: the USSD types and the
//! voice XML builders.

use africastalking::network::NetworkCode;
use africastalking::ussd::{UssdMenu, UssdRequest, UssdResponse};
use africastalking::voice::{ActionBuilder, DialAction, GetDigitsAction, RecordAction};

#[test]
fn test_ussd_request_initial() {
    let req = UssdRequest::new("session123", "*384*123#", "+254712345678", "", "63902");
    assert!(req.is_initial());
    assert_eq!(req.depth(), 0);
    assert_eq!(req.current_input(), None);
}

#[test]
fn test_ussd_request_navigation() {
    let req = UssdRequest::new("session123", "*384*123#", "+254712345678", "1*2*3", "63902");
    assert!(!req.is_initial());
    assert_eq!(req.depth(), 3);
    assert_eq!(req.current_input(), Some("3"));
    assert_eq!(req.navigation_path(), vec!["1", "2", "3"]);
    assert!(req.matches_path("1*2*3"));
    assert!(req.starts_with_path("1*2"));
}

#[test]
fn test_ussd_response_continue() {
    let response = UssdResponse::continues("Welcome to service");
    assert!(response.is_continuing());
    assert!(!response.is_ending());
    assert_eq!(response.render(), "CON Welcome to service");
}

#[test]
fn test_ussd_response_end() {
    let response = UssdResponse::ends("Thank you");
    assert!(!response.is_continuing());
    assert!(response.is_ending());
    assert_eq!(response.render(), "END Thank you");
}

#[test]
fn test_ussd_menu_builder() {
    let menu = UssdMenu::new("Main Menu")
        .add_option("1", "Account")
        .add_option("2", "Balance")
        .build_continue();

    assert_eq!(menu.render(), "CON Main Menu\n1. Account\n2. Balance");
}

#[test]
fn ussd_test_network_code_parsing() {
    let code = NetworkCode::from_code("63902");
    assert_eq!(code, NetworkCode::SafaricomKenya);
    assert_eq!(code.name(), "Safaricom Kenya");
    assert_eq!(code.country(), "Kenya");
}

#[test]
fn ussd_test_network_code_unknown() {
    let code = NetworkCode::from_code("12345");
    assert!(matches!(code, NetworkCode::Unknown(_)));
    assert_eq!(code.name(), "Unknown Network");
}

#[test]
fn test_action_builder_say() {
    let xml = ActionBuilder::new().say("Hello World", None).build();

    assert!(xml.contains(r#"<?xml version="1.0" encoding="UTF-8"?>"#));
    assert!(xml.contains("<Response>"));
    assert!(xml.contains("<Say>Hello World</Say>"));
    assert!(xml.contains("</Response>"));
}

#[test]
fn test_action_builder_play() {
    let xml = ActionBuilder::new().play("https://example.com/audio.mp3").build();

    assert!(xml.contains(r#"<Play url="https://example.com/audio.mp3"/>"#));
}

#[test]
fn test_action_builder_get_digits() {
    let xml = ActionBuilder::new()
        .get_digits(GetDigitsAction::new().say("Press 1", None).num_digits(1).finish_on_key('#'))
        .build();

    assert!(xml.contains(r#"<GetDigits"#));
    assert!(xml.contains(r#"numDigits="1""#));
    assert!(xml.contains("finishOnKey=\"#\""));
    assert!(xml.contains("<Say>Press 1</Say>"));
}

#[test]
fn test_action_builder_dial() {
    let xml = ActionBuilder::new()
        .dial(
            DialAction::new(vec!["+254711XXXYYY".to_string(), "+254722XXXYYY".to_string()])
                .record(true),
        )
        .build();

    assert!(xml.contains(r#"<Dial phoneNumbers="+254711XXXYYY,+254722XXXYYY""#));
    assert!(xml.contains(r#"record="true""#));
}

#[test]
fn test_xml_escaping() {
    let xml = ActionBuilder::new().say("Test <>&\"'", None).build();

    assert!(xml.contains("Test &lt;&gt;&amp;&quot;&apos;"));
}

#[test]
fn test_record_action_attributes() {
    let xml = ActionBuilder::new()
        .record(
            RecordAction::new()
                .finish_on_key('#')
                .max_length(10)
                .timeout(5)
                .play_beep(true)
                .trim_silence(false)
                .callback_url("https://example.com/recording")
                .say("Leave a message", None),
        )
        .build();

    assert!(xml.contains(
        "<Record finishOnKey=\"#\" maxLength=\"10\" timeout=\"5\" playBeep=\"true\" \
         trimSilence=\"false\" callbackUrl=\"https://example.com/recording\">\
         <Say>Leave a message</Say></Record>"
    ));
}

#[test]
fn test_queue_actions_exact() {
    let xml = ActionBuilder::new()
        .enqueue(None)
        .dequeue("+254711XXXYYY", Some("support".to_string()))
        .redirect("https://example.com/next")
        .conference()
        .reject()
        .build();

    assert_eq!(
        xml,
        "<?xml version=\"1.0\" encoding=\"UTF-8\"?><Response><Enqueue/>\
         <Dequeue phoneNumber=\"+254711XXXYYY\" name=\"support\"/>\
         <Redirect>https://example.com/next</Redirect><Conference/><Reject/></Response>"
    );
}
