//! Text of operator alerts.
//!
//! The alert transport is a collaborator; the library only fixes how a
//! subject and a body are assembled from their parts.

use vstd::prelude::*;
use vstd::string::StringExecFns;

verus! {

/// Prefix that every alert subject carries.
pub fn email_subject_prefix() -> (r: &'static str)
    ensures
        r@ == "SRFax Service: "@,
{
    "SRFax Service: "
}

/// Full subject line of an operator alert.
pub fn alert_subject(in_subject: &str) -> (r: String)
    ensures
        r@ == "SRFax Service: "@ + in_subject@,
{
    let mut s = "SRFax Service: ".to_owned();
    s.append(in_subject);
    s
}

/// Full body of an operator alert: the date line followed by the message.
pub fn alert_message(date: &str, in_message: &str) -> (r: String)
    ensures
        r@ == "Date: "@ + date@ + "\n"@ + in_message@ + "\n"@,
{
    let mut s = "Date: ".to_owned();
    s.append(date);
    s.append("\n");
    s.append(in_message);
    s.append("\n");
    s
}

} // verus!
