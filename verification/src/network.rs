//! Carrier lookup: a static mapping from gateway network-code strings to
//! telco name and country. Unmapped codes degrade to an explicit
//! `Unknown` variant that keeps the raw code for diagnostics.

use vstd::prelude::*;

use crate::strutil::str_eq;

verus! {

/// Network code identifiers for various telcos across Africa.
#[derive(Debug, Clone, PartialEq, Eq)]
pub enum NetworkCode {
    AirtelTigoGhana,
    VodafoneGhana,
    MtnGhana,
    AirtelNigeria,
    MtnNigeria,
    GloNigeria,
    EtisalatNigeria,
    MtnRwanda,
    TigoRwanda,
    AirtelRwanda,
    EthioTelecom,
    SafaricomKenya,
    AirtelKenya,
    OrangeKenya,
    EquitelKenya,
    TigoTanzania,
    VodacomTanzania,
    AirtelTanzania,
    AirtelUganda,
    MtnUganda,
    AfricellUganda,
    AirtelZambia,
    MtnZambia,
    TnmMalawi,
    AirtelMalawi,
    VodacomSouthAfrica,
    TelkomSouthAfrica,
    CellcSouthAfrica,
    MtnSouthAfrica,
    /// The sandbox network.
    Athena,
    /// A code outside the table, carried through unchanged.
    Unknown(String),
}

/// The carrier that a known code string maps to, `None` for a code
/// outside the table.
pub open spec fn spec_carrier_of(code: Seq<char>) -> Option<NetworkCode> {
    if code == "62006"@ {
        Some(NetworkCode::AirtelTigoGhana)
    } else if code == "62002"@ {
        Some(NetworkCode::VodafoneGhana)
    } else if code == "62001"@ {
        Some(NetworkCode::MtnGhana)
    } else if code == "62120"@ {
        Some(NetworkCode::AirtelNigeria)
    } else if code == "62130"@ {
        Some(NetworkCode::MtnNigeria)
    } else if code == "62150"@ {
        Some(NetworkCode::GloNigeria)
    } else if code == "62160"@ {
        Some(NetworkCode::EtisalatNigeria)
    } else if code == "63510"@ {
        Some(NetworkCode::MtnRwanda)
    } else if code == "63513"@ {
        Some(NetworkCode::TigoRwanda)
    } else if code == "63514"@ {
        Some(NetworkCode::AirtelRwanda)
    } else if code == "63601"@ {
        Some(NetworkCode::EthioTelecom)
    } else if code == "63902"@ {
        Some(NetworkCode::SafaricomKenya)
    } else if code == "63903"@ {
        Some(NetworkCode::AirtelKenya)
    } else if code == "63907"@ {
        Some(NetworkCode::OrangeKenya)
    } else if code == "63999"@ {
        Some(NetworkCode::EquitelKenya)
    } else if code == "64002"@ {
        Some(NetworkCode::TigoTanzania)
    } else if code == "64004"@ {
        Some(NetworkCode::VodacomTanzania)
    } else if code == "64005"@ {
        Some(NetworkCode::AirtelTanzania)
    } else if code == "64101"@ {
        Some(NetworkCode::AirtelUganda)
    } else if code == "64110"@ {
        Some(NetworkCode::MtnUganda)
    } else if code == "64114"@ {
        Some(NetworkCode::AfricellUganda)
    } else if code == "64501"@ {
        Some(NetworkCode::AirtelZambia)
    } else if code == "64502"@ {
        Some(NetworkCode::MtnZambia)
    } else if code == "65001"@ {
        Some(NetworkCode::TnmMalawi)
    } else if code == "65010"@ {
        Some(NetworkCode::AirtelMalawi)
    } else if code == "65501"@ {
        Some(NetworkCode::VodacomSouthAfrica)
    } else if code == "65502"@ {
        Some(NetworkCode::TelkomSouthAfrica)
    } else if code == "65507"@ {
        Some(NetworkCode::CellcSouthAfrica)
    } else if code == "65510"@ {
        Some(NetworkCode::MtnSouthAfrica)
    } else if code == "99999"@ {
        Some(NetworkCode::Athena)
    } else {
        None
    }
}

/// The display name of each carrier; unknown codes get a fixed
/// placeholder, never a default carrier.
pub open spec fn spec_carrier_name(n: NetworkCode) -> Seq<char> {
    match n {
        NetworkCode::AirtelTigoGhana => "AirtelTigo Ghana"@,
        NetworkCode::VodafoneGhana => "Vodafone Ghana"@,
        NetworkCode::MtnGhana => "MTN Ghana"@,
        NetworkCode::AirtelNigeria => "Airtel Nigeria"@,
        NetworkCode::MtnNigeria => "MTN Nigeria"@,
        NetworkCode::GloNigeria => "Glo Nigeria"@,
        NetworkCode::EtisalatNigeria => "Etisalat Nigeria"@,
        NetworkCode::MtnRwanda => "MTN Rwanda"@,
        NetworkCode::TigoRwanda => "Tigo Rwanda"@,
        NetworkCode::AirtelRwanda => "Airtel Rwanda"@,
        NetworkCode::EthioTelecom => "EthioTelecom Ethiopia"@,
        NetworkCode::SafaricomKenya => "Safaricom Kenya"@,
        NetworkCode::AirtelKenya => "Airtel Kenya"@,
        NetworkCode::OrangeKenya => "Orange Kenya"@,
        NetworkCode::EquitelKenya => "Equitel Kenya"@,
        NetworkCode::TigoTanzania => "Tigo Tanzania"@,
        NetworkCode::VodacomTanzania => "Vodacom Tanzania"@,
        NetworkCode::AirtelTanzania => "Airtel Tanzania"@,
        NetworkCode::AirtelUganda => "Airtel Uganda"@,
        NetworkCode::MtnUganda => "MTN Uganda"@,
        NetworkCode::AfricellUganda => "Africell Uganda"@,
        NetworkCode::AirtelZambia => "Airtel Zambia"@,
        NetworkCode::MtnZambia => "MTN Zambia"@,
        NetworkCode::TnmMalawi => "TNM Malawi"@,
        NetworkCode::AirtelMalawi => "Airtel Malawi"@,
        NetworkCode::VodacomSouthAfrica => "Vodacom South Africa"@,
        NetworkCode::TelkomSouthAfrica => "Telkom South Africa"@,
        NetworkCode::CellcSouthAfrica => "CellC South Africa"@,
        NetworkCode::MtnSouthAfrica => "MTN South Africa"@,
        NetworkCode::Athena => "Athena (Sandbox)"@,
        NetworkCode::Unknown(_) => "Unknown Network"@,
    }
}

/// The country of each carrier; a fixed placeholder for unknown codes.
pub open spec fn spec_carrier_country(n: NetworkCode) -> Seq<char> {
    match n {
        NetworkCode::AirtelTigoGhana => "Ghana"@,
        NetworkCode::VodafoneGhana => "Ghana"@,
        NetworkCode::MtnGhana => "Ghana"@,
        NetworkCode::AirtelNigeria => "Nigeria"@,
        NetworkCode::MtnNigeria => "Nigeria"@,
        NetworkCode::GloNigeria => "Nigeria"@,
        NetworkCode::EtisalatNigeria => "Nigeria"@,
        NetworkCode::MtnRwanda => "Rwanda"@,
        NetworkCode::TigoRwanda => "Rwanda"@,
        NetworkCode::AirtelRwanda => "Rwanda"@,
        NetworkCode::EthioTelecom => "Ethiopia"@,
        NetworkCode::SafaricomKenya => "Kenya"@,
        NetworkCode::AirtelKenya => "Kenya"@,
        NetworkCode::OrangeKenya => "Kenya"@,
        NetworkCode::EquitelKenya => "Kenya"@,
        NetworkCode::TigoTanzania => "Tanzania"@,
        NetworkCode::VodacomTanzania => "Tanzania"@,
        NetworkCode::AirtelTanzania => "Tanzania"@,
        NetworkCode::AirtelUganda => "Uganda"@,
        NetworkCode::MtnUganda => "Uganda"@,
        NetworkCode::AfricellUganda => "Uganda"@,
        NetworkCode::AirtelZambia => "Zambia"@,
        NetworkCode::MtnZambia => "Zambia"@,
        NetworkCode::TnmMalawi => "Malawi"@,
        NetworkCode::AirtelMalawi => "Malawi"@,
        NetworkCode::VodacomSouthAfrica => "South Africa"@,
        NetworkCode::TelkomSouthAfrica => "South Africa"@,
        NetworkCode::CellcSouthAfrica => "South Africa"@,
        NetworkCode::MtnSouthAfrica => "South Africa"@,
        NetworkCode::Athena => "Sandbox"@,
        NetworkCode::Unknown(_) => "Unknown"@,
    }
}

impl NetworkCode {
    /// Parses a network-code string; codes outside the table become
    /// `Unknown`, carrying the original code unchanged.
    pub fn from_code(code: &str) -> (r: Self)
        ensures
            match spec_carrier_of(code@) {
                Some(n) => r == n,
                None => r matches NetworkCode::Unknown(c) && c@ == code@,
            },
    {
        if str_eq(code, "62006") {
            NetworkCode::AirtelTigoGhana
        } else if str_eq(code, "62002") {
            NetworkCode::VodafoneGhana
        } else if str_eq(code, "62001") {
            NetworkCode::MtnGhana
        } else if str_eq(code, "62120") {
            NetworkCode::AirtelNigeria
        } else if str_eq(code, "62130") {
            NetworkCode::MtnNigeria
        } else if str_eq(code, "62150") {
            NetworkCode::GloNigeria
        } else if str_eq(code, "62160") {
            NetworkCode::EtisalatNigeria
        } else if str_eq(code, "63510") {
            NetworkCode::MtnRwanda
        } else if str_eq(code, "63513") {
            NetworkCode::TigoRwanda
        } else if str_eq(code, "63514") {
            NetworkCode::AirtelRwanda
        } else if str_eq(code, "63601") {
            NetworkCode::EthioTelecom
        } else if str_eq(code, "63902") {
            NetworkCode::SafaricomKenya
        } else if str_eq(code, "63903") {
            NetworkCode::AirtelKenya
        } else if str_eq(code, "63907") {
            NetworkCode::OrangeKenya
        } else if str_eq(code, "63999") {
            NetworkCode::EquitelKenya
        } else if str_eq(code, "64002") {
            NetworkCode::TigoTanzania
        } else if str_eq(code, "64004") {
            NetworkCode::VodacomTanzania
        } else if str_eq(code, "64005") {
            NetworkCode::AirtelTanzania
        } else if str_eq(code, "64101") {
            NetworkCode::AirtelUganda
        } else if str_eq(code, "64110") {
            NetworkCode::MtnUganda
        } else if str_eq(code, "64114") {
            NetworkCode::AfricellUganda
        } else if str_eq(code, "64501") {
            NetworkCode::AirtelZambia
        } else if str_eq(code, "64502") {
            NetworkCode::MtnZambia
        } else if str_eq(code, "65001") {
            NetworkCode::TnmMalawi
        } else if str_eq(code, "65010") {
            NetworkCode::AirtelMalawi
        } else if str_eq(code, "65501") {
            NetworkCode::VodacomSouthAfrica
        } else if str_eq(code, "65502") {
            NetworkCode::TelkomSouthAfrica
        } else if str_eq(code, "65507") {
            NetworkCode::CellcSouthAfrica
        } else if str_eq(code, "65510") {
            NetworkCode::MtnSouthAfrica
        } else if str_eq(code, "99999") {
            NetworkCode::Athena
        } else {
            NetworkCode::Unknown(code.to_owned())
        }
    }

    /// The telco's display name; a fixed placeholder for unknown codes.
    pub fn name(&self) -> (r: &str)
        ensures
            r@ == spec_carrier_name(*self),
    {
        match self {
            NetworkCode::AirtelTigoGhana => "AirtelTigo Ghana",
            NetworkCode::VodafoneGhana => "Vodafone Ghana",
            NetworkCode::MtnGhana => "MTN Ghana",
            NetworkCode::AirtelNigeria => "Airtel Nigeria",
            NetworkCode::MtnNigeria => "MTN Nigeria",
            NetworkCode::GloNigeria => "Glo Nigeria",
            NetworkCode::EtisalatNigeria => "Etisalat Nigeria",
            NetworkCode::MtnRwanda => "MTN Rwanda",
            NetworkCode::TigoRwanda => "Tigo Rwanda",
            NetworkCode::AirtelRwanda => "Airtel Rwanda",
            NetworkCode::EthioTelecom => "EthioTelecom Ethiopia",
            NetworkCode::SafaricomKenya => "Safaricom Kenya",
            NetworkCode::AirtelKenya => "Airtel Kenya",
            NetworkCode::OrangeKenya => "Orange Kenya",
            NetworkCode::EquitelKenya => "Equitel Kenya",
            NetworkCode::TigoTanzania => "Tigo Tanzania",
            NetworkCode::VodacomTanzania => "Vodacom Tanzania",
            NetworkCode::AirtelTanzania => "Airtel Tanzania",
            NetworkCode::AirtelUganda => "Airtel Uganda",
            NetworkCode::MtnUganda => "MTN Uganda",
            NetworkCode::AfricellUganda => "Africell Uganda",
            NetworkCode::AirtelZambia => "Airtel Zambia",
            NetworkCode::MtnZambia => "MTN Zambia",
            NetworkCode::TnmMalawi => "TNM Malawi",
            NetworkCode::AirtelMalawi => "Airtel Malawi",
            NetworkCode::VodacomSouthAfrica => "Vodacom South Africa",
            NetworkCode::TelkomSouthAfrica => "Telkom South Africa",
            NetworkCode::CellcSouthAfrica => "CellC South Africa",
            NetworkCode::MtnSouthAfrica => "MTN South Africa",
            NetworkCode::Athena => "Athena (Sandbox)",
            NetworkCode::Unknown(_) => "Unknown Network",
        }
    }

    /// The carrier's country; a fixed placeholder for unknown codes.
    pub fn country(&self) -> (r: &str)
        ensures
            r@ == spec_carrier_country(*self),
    {
        match self {
            NetworkCode::AirtelTigoGhana
            | NetworkCode::VodafoneGhana
            | NetworkCode::MtnGhana => "Ghana",
            NetworkCode::AirtelNigeria
            | NetworkCode::MtnNigeria
            | NetworkCode::GloNigeria
            | NetworkCode::EtisalatNigeria => "Nigeria",
            NetworkCode::MtnRwanda | NetworkCode::TigoRwanda | NetworkCode::AirtelRwanda => {
                "Rwanda"
            },
            NetworkCode::EthioTelecom => "Ethiopia",
            NetworkCode::SafaricomKenya
            | NetworkCode::AirtelKenya
            | NetworkCode::OrangeKenya
            | NetworkCode::EquitelKenya => "Kenya",
            NetworkCode::TigoTanzania
            | NetworkCode::VodacomTanzania
            | NetworkCode::AirtelTanzania => "Tanzania",
            NetworkCode::AirtelUganda | NetworkCode::MtnUganda | NetworkCode::AfricellUganda => {
                "Uganda"
            },
            NetworkCode::AirtelZambia | NetworkCode::MtnZambia => "Zambia",
            NetworkCode::TnmMalawi | NetworkCode::AirtelMalawi => "Malawi",
            NetworkCode::VodacomSouthAfrica
            | NetworkCode::TelkomSouthAfrica
            | NetworkCode::CellcSouthAfrica
            | NetworkCode::MtnSouthAfrica => "South Africa",
            NetworkCode::Athena => "Sandbox",
            NetworkCode::Unknown(_) => "Unknown",
        }
    }
}

} // verus!
