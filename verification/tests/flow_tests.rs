//! Tests for the session-flow controller and its amount validator.

use africastalking::flow::{flow_step, interact, parse_amount, FlowState, FlowStep, ParsedAmount,
    StoreAction};
use africastalking::ussd::UssdRequest;

fn req(text: &str) -> UssdRequest {
    UssdRequest::new("sess1", "*123#", "+254700000000", text, "63902")
}

#[test]
fn test_amount_parsing_exact_values() {
    assert_eq!(parse_amount("500"), ParsedAmount::Cents(50000));
    assert_eq!(parse_amount("1"), ParsedAmount::Cents(100));
    assert_eq!(parse_amount("0"), ParsedAmount::Cents(0));
    assert_eq!(parse_amount("0.5"), ParsedAmount::Cents(50));
    assert_eq!(parse_amount("12.34"), ParsedAmount::Cents(1234));
    assert_eq!(parse_amount("99999.99"), ParsedAmount::Cents(9999999));
    assert_eq!(parse_amount("100000"), ParsedAmount::Cents(10000000));
    assert_eq!(parse_amount("100000.01"), ParsedAmount::TooLarge);
    assert_eq!(parse_amount("100001"), ParsedAmount::TooLarge);
    assert_eq!(parse_amount("999999999999999999999999"), ParsedAmount::TooLarge);
}

#[test]
fn test_amount_parsing_rejects() {
    for bad in ["", "abc", "-5", "1.234", "5.", ".5", "1..2", "1.2.3", "1a", " 1", "1 "] {
        assert_eq!(parse_amount(bad), ParsedAmount::Invalid, "accepted {:?}", bad);
    }
}

#[test]
fn test_flow_first_touch_prompts_name() {
    let step = flow_step(None, &req(""), 0);
    assert!(step.directive.is_continuing());
    assert_eq!(
        step.directive.message(),
        "Welcome to Money Transfer\n\nPlease enter recipient's name:"
    );
    assert_eq!(step.action, StoreAction::Put(FlowState::CollectingName));
}

#[test]
fn test_flow_collects_name_then_amount() {
    let step = flow_step(Some(FlowState::CollectingName), &req("1"), 0);
    assert!(step.directive.is_continuing());
    assert_eq!(step.directive.message(), "Enter amount to send (KES):");
    assert_eq!(
        step.action,
        StoreAction::Put(FlowState::CollectingAmount { recipient_name: "1".to_string() })
    );
}

#[test]
fn test_flow_blank_name_reprompts() {
    let step = flow_step(Some(FlowState::CollectingName), &req("1* "), 0);
    assert!(step.directive.is_continuing());
    assert_eq!(
        step.directive.message(),
        "Name cannot be empty.\nPlease enter recipient's name:"
    );
    assert_eq!(step.action, StoreAction::Put(FlowState::CollectingName));
}

#[test]
fn test_flow_confirmation_embeds_collected_values() {
    let state = FlowState::CollectingAmount { recipient_name: "1".to_string() };
    let step = flow_step(Some(state), &req("1*2"), 0);
    assert!(step.directive.is_continuing());
    assert_eq!(
        step.directive.message(),
        "Confirm transfer:\n\nRecipient: 1\nAmount: KES 2.00\n\nConfirm?\
         \n1. Yes, send money\n2. Cancel"
    );
    assert_eq!(
        step.action,
        StoreAction::Put(FlowState::Confirming {
            recipient_name: "1".to_string(),
            amount_cents: 200,
        })
    );
}

fn collecting(name: &str) -> Option<FlowState> {
    Some(FlowState::CollectingAmount { recipient_name: name.to_string() })
}

#[test]
fn test_flow_invalid_amount_is_retry_safe() {
    // Invalid submissions re-prompt and write back the unchanged state:
    // phase and collected fields survive any number of retries.
    let expected = StoreAction::Put(FlowState::CollectingAmount {
        recipient_name: "Alice".to_string(),
    });

    for _ in 0..3 {
        let step = flow_step(collecting("Alice"), &req("1*abc"), 0);
        assert!(step.directive.is_continuing());
        assert_eq!(step.directive.message(), "Invalid amount.\nEnter amount (KES):");
        assert_eq!(step.action, expected);
    }

    let step = flow_step(collecting("Alice"), &req("1*-5"), 0);
    assert!(step.directive.is_continuing());
    assert_eq!(step.directive.message(), "Invalid amount.\nEnter amount (KES):");
    assert_eq!(step.action, expected);

    let step = flow_step(collecting("Alice"), &req("1*0"), 0);
    assert!(step.directive.is_continuing());
    assert_eq!(
        step.directive.message(),
        "Amount must be between 1 and 100,000.\nEnter amount:"
    );
    assert_eq!(step.action, expected);

    let step = flow_step(collecting("Alice"), &req("1*100001"), 0);
    assert!(step.directive.is_continuing());
    assert_eq!(
        step.directive.message(),
        "Amount must be between 1 and 100,000.\nEnter amount:"
    );
    assert_eq!(step.action, expected);
}

fn confirming(name: &str, cents: u64) -> Option<FlowState> {
    Some(FlowState::Confirming { recipient_name: name.to_string(), amount_cents: cents })
}

#[test]
fn test_flow_confirm_succeeds_and_deletes() {
    let step = flow_step(confirming("1", 200), &req("1*2*1"), 1700000000);
    assert!(step.directive.is_ending());
    assert_eq!(
        step.directive.message(),
        "Success!\n\nSent KES 2.00 to 1\n\nTransaction ID: TXN1700000000"
    );
    assert_eq!(step.action, StoreAction::Delete);
}

#[test]
fn test_flow_cancel_deletes() {
    let step = flow_step(confirming("1", 200), &req("1*2*2"), 0);
    assert!(step.directive.is_ending());
    assert_eq!(step.directive.message(), "Transaction cancelled.");
    assert_eq!(step.action, StoreAction::Delete);
}

#[test]
fn test_flow_ambiguous_confirmation_fails_closed() {
    let step = flow_step(confirming("1", 200), &req("1*2*500"), 0);
    assert!(step.directive.is_ending());
    assert_eq!(step.directive.message(), "Invalid option. Transaction cancelled.");
    assert_eq!(step.action, StoreAction::Delete);
}

#[test]
fn test_flow_completed_session_stays_completed() {
    // After completion the entry is gone; a later interaction of the same
    // session arrives with a non-empty accumulated input and is answered
    // as stale, with no store change.
    let step = flow_step(None, &req("1*2*1*9"), 0);
    assert!(step.directive.is_ending());
    assert_eq!(step.directive.message(), "Session already completed.");
    assert_eq!(step.action, StoreAction::Keep);

    let step = flow_step(Some(FlowState::Complete), &req("anything"), 0);
    assert!(step.directive.is_ending());
    assert_eq!(step.directive.message(), "Session already completed.");
    assert_eq!(step.action, StoreAction::Keep);
}

#[test]
fn test_flow_end_to_end_scenario() {
    // The full collection flow, one interaction per accumulated input.
    let s1: FlowStep = flow_step(None, &req(""), 7);
    assert_eq!(
        s1.directive.render(),
        "CON Welcome to Money Transfer\n\nPlease enter recipient's name:"
    );

    let s2 = flow_step(Some(FlowState::CollectingName), &req("1"), 7);
    assert_eq!(s2.directive.render(), "CON Enter amount to send (KES):");
    assert_eq!(
        s2.action,
        StoreAction::Put(FlowState::CollectingAmount { recipient_name: "1".to_string() })
    );

    let s3 = flow_step(collecting("1"), &req("1*2"), 7);
    assert_eq!(
        s3.directive.render(),
        "CON Confirm transfer:\n\nRecipient: 1\nAmount: KES 2.00\n\nConfirm?\
         \n1. Yes, send money\n2. Cancel"
    );

    let s4 = flow_step(confirming("1", 200), &req("1*2*1"), 7);
    assert_eq!(
        s4.directive.render(),
        "END Success!\n\nSent KES 2.00 to 1\n\nTransaction ID: TXN7"
    );
    assert_eq!(s4.action, StoreAction::Delete);
}

#[test]
fn test_interact_embeds_generated_reference() {
    let step = interact(confirming("Bob", 50000), &req("Bob*500*1"));
    assert!(step.directive.is_ending());
    let message = step.directive.message().to_string();
    assert!(message.contains("Sent KES 500.00 to Bob"));
    assert!(message.contains("Transaction ID: TXN"));
    assert_eq!(step.action, StoreAction::Delete);
}

#[test]
fn test_default_flow_state_is_initial() {
    assert_eq!(FlowState::default(), FlowState::Initial);
}
