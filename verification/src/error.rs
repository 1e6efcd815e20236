//! The adapter's failure taxonomy. Every adapter-local failure is
//! classified, carries the offending raw value and the field it came from,
//! and is reported as data, never by panicking.

use vstd::prelude::*;
use vstd::string::StringExecFns;
use crate::decimal::{decimal_error_text, DecimalError};
use crate::text::{dec_str_i64, i64_to_string};

verus! {

/// A classified adapter failure.
#[derive(Clone, Debug, PartialEq, Eq)]
pub enum DataError {
    /// A price or quantity string is not a valid decimal number.
    Parse { field: String, raw_value: String, cause: DecimalError },
    /// An integer code falls outside the known enumeration.
    UnsupportedValue { field: String, raw_value: String },
    /// A millisecond epoch value is negative or otherwise unrepresentable.
    InvalidTimestamp { raw_value: i64 },
    /// The static base endpoint string was rejected by the URL parser.
    UrlParse { raw_value: String },
}

/// The rendered diagnostic text of a classified failure.
pub open spec fn error_text(e: DataError) -> Seq<char> {
    match e {
        DataError::Parse { field, raw_value, cause } => "Failed to parse "@ + field@ + ": '"@
            + raw_value@ + "', error: "@ + decimal_error_text(cause),
        DataError::UnsupportedValue { field, raw_value } => "Unsupported MexcTrade::Side: unknown "@
            + field@ + ": "@ + raw_value@,
        DataError::InvalidTimestamp { raw_value } => if raw_value < 0 {
            "Unsupported MexcTrade::Timestamp: invalid unix_epoch_ms (negative): "@ + dec_str_i64(
                raw_value as int,
            )
        } else {
            "Unsupported MexcTrade::Timestamp: invalid unix_epoch_ms: "@ + dec_str_i64(
                raw_value as int,
            )
        },
        DataError::UrlParse { raw_value } => "Failed to parse base URL: '"@ + raw_value@ + "'"@,
    }
}

impl DataError {
    /// Renders the failure as one diagnostic line.
    pub fn message(&self) -> (r: String)
        ensures
            r@ == error_text(*self),
    {
        match self {
            DataError::Parse { field, raw_value, cause } => {
                let mut m = String::from_str("Failed to parse ");
                m.append(field.as_str());
                m.append(": '");
                m.append(raw_value.as_str());
                m.append("', error: ");
                m.append(cause.message_str());
                proof {
                    assert(m@ =~= error_text(*self));
                }
                m
            },
            DataError::UnsupportedValue { field, raw_value } => {
                let mut m = String::from_str("Unsupported MexcTrade::Side: unknown ");
                m.append(field.as_str());
                m.append(": ");
                m.append(raw_value.as_str());
                proof {
                    assert(m@ =~= error_text(*self));
                }
                m
            },
            DataError::InvalidTimestamp { raw_value } => {
                let mut m = if *raw_value < 0 {
                    String::from_str(
                        "Unsupported MexcTrade::Timestamp: invalid unix_epoch_ms (negative): ",
                    )
                } else {
                    String::from_str("Unsupported MexcTrade::Timestamp: invalid unix_epoch_ms: ")
                };
                let digits = i64_to_string(*raw_value);
                m.append(digits.as_str());
                proof {
                    assert(m@ =~= error_text(*self));
                }
                m
            },
            DataError::UrlParse { raw_value } => {
                let mut m = String::from_str("Failed to parse base URL: '");
                m.append(raw_value.as_str());
                m.append("'");
                proof {
                    assert(m@ =~= error_text(*self));
                }
                m
            },
        }
    }
}

} // verus!
