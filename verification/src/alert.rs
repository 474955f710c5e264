//! The configuration an alert form carries: a cadence, a metric, and a
//! threshold variance written as a decimal number.

use vstd::prelude::*;
use crate::bytes_util::{bytes_of, bytes_eq, str_bytes};

verus! {

/// How often a monitor's condition is evaluated.
#[derive(Clone, Copy, Debug, PartialEq, Eq, Structural)]
pub enum AlertCadence {
    Hourly,
    Daily,
    Weekly,
    Monthly,
}

/// The production metric a monitor watches.
#[derive(Clone, Copy, Debug, PartialEq, Eq, Structural)]
pub enum AlertMetric {
    Accuracy,
    MeanSquaredError,
    RootMeanSquaredError,
}

/// The form token that names each cadence.
pub open spec fn spec_cadence_token(c: AlertCadence) -> Seq<u8> {
    match c {
        AlertCadence::Hourly => bytes_of("hourly"),
        AlertCadence::Daily => bytes_of("daily"),
        AlertCadence::Weekly => bytes_of("weekly"),
        AlertCadence::Monthly => bytes_of("monthly"),
    }
}

/// The cadence a form token denotes, if any.
pub open spec fn spec_parse_cadence(s: Seq<u8>) -> Option<AlertCadence> {
    if s == bytes_of("hourly") {
        Some(AlertCadence::Hourly)
    } else if s == bytes_of("daily") {
        Some(AlertCadence::Daily)
    } else if s == bytes_of("weekly") {
        Some(AlertCadence::Weekly)
    } else if s == bytes_of("monthly") {
        Some(AlertCadence::Monthly)
    } else {
        None
    }
}

/// The form token that names each metric.
pub open spec fn spec_metric_token(m: AlertMetric) -> Seq<u8> {
    match m {
        AlertMetric::Accuracy => bytes_of("accuracy"),
        AlertMetric::MeanSquaredError => bytes_of("mean_squared_error"),
        AlertMetric::RootMeanSquaredError => bytes_of("root_mean_squared_error"),
    }
}

/// The metric a form token denotes, if any.
pub open spec fn spec_parse_metric(s: Seq<u8>) -> Option<AlertMetric> {
    if s == bytes_of("accuracy") {
        Some(AlertMetric::Accuracy)
    } else if s == bytes_of("mean_squared_error") {
        Some(AlertMetric::MeanSquaredError)
    } else if s == bytes_of("root_mean_squared_error") {
        Some(AlertMetric::RootMeanSquaredError)
    } else {
        None
    }
}

impl AlertCadence {
    /// Parse a form token. Returns `Some` exactly on the four known tokens.
    pub fn parse(s: &[u8]) -> (r: Option<AlertCadence>)
        ensures
            r == spec_parse_cadence(s@),
    {
        if bytes_eq(s, str_bytes("hourly").as_slice()) {
            Some(AlertCadence::Hourly)
        } else if bytes_eq(s, str_bytes("daily").as_slice()) {
            Some(AlertCadence::Daily)
        } else if bytes_eq(s, str_bytes("weekly").as_slice()) {
            Some(AlertCadence::Weekly)
        } else if bytes_eq(s, str_bytes("monthly").as_slice()) {
            Some(AlertCadence::Monthly)
        } else {
            None
        }
    }

    /// The form token of this cadence.
    pub fn token(&self) -> (r: Vec<u8>)
        ensures
            r@ == spec_cadence_token(*self),
    {
        match self {
            AlertCadence::Hourly => str_bytes("hourly"),
            AlertCadence::Daily => str_bytes("daily"),
            AlertCadence::Weekly => str_bytes("weekly"),
            AlertCadence::Monthly => str_bytes("monthly"),
        }
    }

    /// The capitalized word used in a monitor's derived title.
    pub fn title_word(&self) -> (r: &'static str)
        ensures
            r@ == spec_cadence_title(*self),
    {
        match self {
            AlertCadence::Hourly => "Hourly",
            AlertCadence::Daily => "Daily",
            AlertCadence::Weekly => "Weekly",
            AlertCadence::Monthly => "Monthly",
        }
    }
}

/// The capitalized cadence word of a derived title.
pub open spec fn spec_cadence_title(c: AlertCadence) -> Seq<char> {
    match c {
        AlertCadence::Hourly => "Hourly"@,
        AlertCadence::Daily => "Daily"@,
        AlertCadence::Weekly => "Weekly"@,
        AlertCadence::Monthly => "Monthly"@,
    }
}

/// The capitalized metric words of a derived title.
pub open spec fn spec_metric_title(m: AlertMetric) -> Seq<char> {
    match m {
        AlertMetric::Accuracy => "Accuracy"@,
        AlertMetric::MeanSquaredError => "Mean Squared Error"@,
        AlertMetric::RootMeanSquaredError => "Root Mean Squared Error"@,
    }
}

impl AlertMetric {
    /// Parse a form token. Returns `Some` exactly on the three known tokens.
    pub fn parse(s: &[u8]) -> (r: Option<AlertMetric>)
        ensures
            r == spec_parse_metric(s@),
    {
        if bytes_eq(s, str_bytes("accuracy").as_slice()) {
            Some(AlertMetric::Accuracy)
        } else if bytes_eq(s, str_bytes("mean_squared_error").as_slice()) {
            Some(AlertMetric::MeanSquaredError)
        } else if bytes_eq(s, str_bytes("root_mean_squared_error").as_slice()) {
            Some(AlertMetric::RootMeanSquaredError)
        } else {
            None
        }
    }

    /// The form token of this metric.
    pub fn token(&self) -> (r: Vec<u8>)
        ensures
            r@ == spec_metric_token(*self),
    {
        match self {
            AlertMetric::Accuracy => str_bytes("accuracy"),
            AlertMetric::MeanSquaredError => str_bytes("mean_squared_error"),
            AlertMetric::RootMeanSquaredError => str_bytes("root_mean_squared_error"),
        }
    }

    /// The capitalized words used in a monitor's derived title.
    pub fn title_word(&self) -> (r: &'static str)
        ensures
            r@ == spec_metric_title(*self),
    {
        match self {
            AlertMetric::Accuracy => "Accuracy",
            AlertMetric::MeanSquaredError => "Mean Squared Error",
            AlertMetric::RootMeanSquaredError => "Root Mean Squared Error",
        }
    }
}

} // verus!
