//! The one error shape every failure is reported through: an error
//! label, an optional message and optional details.

use vstd::prelude::*;

use crate::text::opt_string_eq;

verus! {

/// A failure as it is shown to the user: the error label, an optional
/// message and optional details. Every error kind of the library (bad
/// option combinations, unknown columns, missing records) unifies into
/// this shape at the reporting boundary.
#[derive(Debug)]
pub struct CliError {
    pub error: String,
    pub message: Option<String>,
    pub details: Option<String>,
}

impl CliError {
    /// Builds an error report from its three parts.
    pub fn new(error: &str, message: Option<&str>, details: Option<&str>) -> (r: CliError)
        ensures
            r.error@ == error@,
            r.message.deep_view() == message.deep_view(),
            r.details.deep_view() == details.deep_view(),
    {
        CliError {
            error: error.to_owned(),
            message: match message {
                Some(m) => Some(m.to_owned()),
                None => None,
            },
            details: match details {
                Some(d) => Some(d.to_owned()),
                None => None,
            },
        }
    }

    /// The error as one mathematical value: the texts of its parts.
    pub open spec fn dv(&self) -> (Seq<char>, Option<Seq<char>>, Option<Seq<char>>) {
        (self.error@, self.message.deep_view(), self.details.deep_view())
    }
}

impl PartialEq for CliError {
    fn eq(&self, other: &CliError) -> (r: bool) {
        self.error == other.error && opt_string_eq(&self.message, &other.message)
            && opt_string_eq(&self.details, &other.details)
    }
}

impl vstd::std_specs::cmp::PartialEqSpecImpl for CliError {
    open spec fn obeys_eq_spec() -> bool {
        true
    }

    open spec fn eq_spec(&self, other: &CliError) -> bool {
        self.dv() == other.dv()
    }
}

impl Eq for CliError {

}

} // verus!
