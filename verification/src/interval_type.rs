//! The unit a maintenance interval is measured in, parsed from and
//! rendered to fixed display strings.
use vstd::prelude::*;

use crate::text::str_eq;

verus! {

#[derive(Debug, PartialEq, Eq)]
pub enum MaintenanceIntervalType {
    Kilometers,
    EngineHours,
    Years,
}

impl Clone for MaintenanceIntervalType {
    fn clone(&self) -> (r: Self)
        ensures
            r == self,
    {
        match self {
            MaintenanceIntervalType::Kilometers => MaintenanceIntervalType::Kilometers,
            MaintenanceIntervalType::EngineHours => MaintenanceIntervalType::EngineHours,
            MaintenanceIntervalType::Years => MaintenanceIntervalType::Years,
        }
    }
}

impl MaintenanceIntervalType {
    /// The fixed display string of the interval type.
    pub fn as_str(&self) -> (r: &str)
        ensures
            self is Kilometers ==> r@ == "Kilometers"@,
            self is EngineHours ==> r@ == "Engine Hours"@,
            self is Years ==> r@ == "Years"@,
    {
        match self {
            MaintenanceIntervalType::Kilometers => "Kilometers",
            MaintenanceIntervalType::EngineHours => "Engine Hours",
            MaintenanceIntervalType::Years => "Years",
        }
    }

    /// Parses the exact display string; anything else is no interval
    /// type.
    pub fn from_str(s: &str) -> (r: Option<Self>)
        ensures
            s@ == "Kilometers"@ ==> r == Some(MaintenanceIntervalType::Kilometers),
            s@ == "Engine Hours"@ ==> r == Some(MaintenanceIntervalType::EngineHours),
            s@ == "Years"@ ==> r == Some(MaintenanceIntervalType::Years),
            s@ != "Kilometers"@ && s@ != "Engine Hours"@ && s@ != "Years"@ ==> r is None,
    {
        proof {
            reveal_strlit("Kilometers");
            reveal_strlit("Engine Hours");
            reveal_strlit("Years");
            assert("Kilometers"@.len() == 10);
            assert("Engine Hours"@.len() == 12);
            assert("Years"@.len() == 5);
        }
        if str_eq(s, "Kilometers") {
            Some(MaintenanceIntervalType::Kilometers)
        } else if str_eq(s, "Engine Hours") {
            Some(MaintenanceIntervalType::EngineHours)
        } else if str_eq(s, "Years") {
            Some(MaintenanceIntervalType::Years)
        } else {
            None
        }
    }

    /// Parses the exact display string, reporting an unrecognized one in
    /// words.
    pub fn from_str_or_err(s: &str) -> (r: Result<Self, String>)
        ensures
            s@ == "Kilometers"@ ==> r == Ok::<_, String>(MaintenanceIntervalType::Kilometers),
            s@ == "Engine Hours"@ ==> r == Ok::<_, String>(MaintenanceIntervalType::EngineHours),
            s@ == "Years"@ ==> r == Ok::<_, String>(MaintenanceIntervalType::Years),
            s@ != "Kilometers"@ && s@ != "Engine Hours"@ && s@ != "Years"@ ==> (r matches Err(m)
                && m@ == "Invalid maintenance interval type: "@ + s@),
    {
        proof {
            reveal_strlit("Kilometers");
            reveal_strlit("Engine Hours");
            reveal_strlit("Years");
            assert("Kilometers"@.len() == 10);
            assert("Engine Hours"@.len() == 12);
            assert("Years"@.len() == 5);
        }
        if str_eq(s, "Kilometers") {
            Ok(MaintenanceIntervalType::Kilometers)
        } else if str_eq(s, "Engine Hours") {
            Ok(MaintenanceIntervalType::EngineHours)
        } else if str_eq(s, "Years") {
            Ok(MaintenanceIntervalType::Years)
        } else {
            let mut msg = String::from_str("Invalid maintenance interval type: ");
            msg.append(s);
            Err(msg)
        }
    }
}

} // verus!
