//! A framework-agnostic sample dispatcher over the request model and
//! the menu builder: deserialize the gateway's request with any web
//! framework, call the handler, and send the returned body back.

use vstd::prelude::*;

use crate::strutil::is_prefix_of;
use crate::ussd::menu_text;
use crate::ussd::ResponseModel;
use crate::ussd::UssdMenu;
use crate::ussd::UssdRequest;
use crate::ussd::UssdResponse;

verus! {

/// The wire body a directive renders to: its mandatory prefix, then the
/// message.
pub open spec fn spec_rendered(m: ResponseModel) -> Seq<char> {
    if m.continues {
        "CON "@ + m.message
    } else {
        "END "@ + m.message
    }
}

/// The dispatcher's answer under the account branch.
pub open spec fn spec_account_response(text: Seq<char>, phone: Seq<char>) -> ResponseModel {
    if text == "1"@ {
        ResponseModel {
            continues: true,
            message: menu_text(
                "Account Menu:"@,
                seq![("1"@, "Balance"@), ("2"@, "Statement"@), ("3"@, "Profile"@)],
            ),
        }
    } else if text == "1*1"@ {
        ResponseModel { continues: false, message: "Your balance: KES 5,000.00"@ }
    } else if text == "1*2"@ {
        ResponseModel {
            continues: false,
            message: "Your statement has been sent to your phone via SMS."@,
        }
    } else if text == "1*3"@ {
        ResponseModel {
            continues: false,
            message: "Profile Info:\nPhone: "@ + phone + "\nAccount: Active"@,
        }
    } else {
        ResponseModel { continues: false, message: "Invalid option."@ }
    }
}

/// The dispatcher's answer under the services branch.
pub open spec fn spec_services_response(text: Seq<char>) -> ResponseModel {
    if text == "2"@ {
        ResponseModel {
            continues: true,
            message: menu_text(
                "Services:"@,
                seq![("1"@, "Pay Bill"@), ("2"@, "Buy Airtime"@), ("3"@, "Send Money"@)],
            ),
        }
    } else if text == "2*1"@ {
        ResponseModel { continues: true, message: "Enter bill number:"@ }
    } else if text == "2*2"@ {
        ResponseModel { continues: true, message: "Enter amount (KES):"@ }
    } else if text == "2*3"@ {
        ResponseModel { continues: true, message: "Enter recipient phone:"@ }
    } else {
        ResponseModel { continues: false, message: "Service request received."@ }
    }
}

/// The dispatcher's answer for every accumulated input: the initial
/// menu on an empty input, the account and services branches by prefix,
/// and a terminal miss for anything else.
pub open spec fn spec_generic_response(text: Seq<char>, phone: Seq<char>) -> ResponseModel {
    if text.len() == 0 {
        ResponseModel {
            continues: true,
            message: menu_text(
                "Welcome to MyService"@,
                seq![("1"@, "My Account"@), ("2"@, "Services"@), ("3"@, "Help"@)],
            ),
        }
    } else if is_prefix_of("1"@, text) {
        spec_account_response(text, phone)
    } else if is_prefix_of("2"@, text) {
        spec_services_response(text)
    } else {
        ResponseModel { continues: false, message: "Invalid option. Goodbye!"@ }
    }
}

/// Answers one interaction with the exact wire body the dispatch
/// prescribes for the request's accumulated input.
pub fn generic_ussd_handler(request: &UssdRequest) -> (r: String)
    ensures
        r@ == spec_rendered(spec_generic_response(request.text@, request.phone_number@)),
{
    let response = if request.is_initial() {
        proof {
            assert(request.text@ =~= Seq::<char>::empty());
        }
        initial_menu()
    } else if request.starts_with_path("1") {
        handle_account_menu(request)
    } else if request.starts_with_path("2") {
        handle_services_menu(request)
    } else {
        UssdResponse::ends("Invalid option. Goodbye!")
    };

    response.render()
}

fn initial_menu() -> (r: UssdResponse)
    ensures
        r@ == spec_generic_response(Seq::empty(), Seq::empty()),
{
    let menu = UssdMenu::new("Welcome to MyService")
        .add_option("1", "My Account")
        .add_option("2", "Services")
        .add_option("3", "Help");
    proof {
        assert(menu@.options =~= seq![
            ("1"@, "My Account"@),
            ("2"@, "Services"@),
            ("3"@, "Help"@),
        ]);
    }
    menu.build_continue()
}

fn handle_account_menu(request: &UssdRequest) -> (r: UssdResponse)
    ensures
        r@ == spec_account_response(request.text@, request.phone_number@),
{
    if request.matches_path("1") {
        let menu = UssdMenu::new("Account Menu:")
            .add_option("1", "Balance")
            .add_option("2", "Statement")
            .add_option("3", "Profile");
        proof {
            assert(menu@.options =~= seq![
                ("1"@, "Balance"@),
                ("2"@, "Statement"@),
                ("3"@, "Profile"@),
            ]);
        }
        menu.build_continue()
    } else if request.matches_path("1*1") {
        UssdResponse::ends("Your balance: KES 5,000.00")
    } else if request.matches_path("1*2") {
        UssdResponse::ends("Your statement has been sent to your phone via SMS.")
    } else if request.matches_path("1*3") {
        let mut message: String = "Profile Info:\nPhone: ".to_owned();
        message.append(request.phone_number.as_str());
        message.append("\nAccount: Active");
        UssdResponse::ends(message.as_str())
    } else {
        UssdResponse::ends("Invalid option.")
    }
}

fn handle_services_menu(request: &UssdRequest) -> (r: UssdResponse)
    ensures
        r@ == spec_services_response(request.text@),
{
    if request.matches_path("2") {
        let menu = UssdMenu::new("Services:")
            .add_option("1", "Pay Bill")
            .add_option("2", "Buy Airtime")
            .add_option("3", "Send Money");
        proof {
            assert(menu@.options =~= seq![
                ("1"@, "Pay Bill"@),
                ("2"@, "Buy Airtime"@),
                ("3"@, "Send Money"@),
            ]);
        }
        menu.build_continue()
    } else if request.matches_path("2*1") {
        UssdResponse::continues("Enter bill number:")
    } else if request.matches_path("2*2") {
        UssdResponse::continues("Enter amount (KES):")
    } else if request.matches_path("2*3") {
        UssdResponse::continues("Enter recipient phone:")
    } else {
        UssdResponse::ends("Service request received.")
    }
}

} // verus!
