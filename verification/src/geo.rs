//! Geographic location of the public IP address, as a lookup service
//! reports it.

use vstd::prelude::*;
use vstd::string::*;
use crate::text::same_text;

verus! {

/// Location of the public IP address.
#[derive(Debug, Clone)]
pub struct GeoInfo {
    /// Public IP address.
    pub query: String,
    /// Country name.
    pub country: String,
    /// Two-letter country code.
    pub country_code: String,
    /// City name.
    pub city: String,
    /// Name of the internet service provider.
    pub isp: String,
}

/// Mathematical model of a [`GeoInfo`].
pub struct GeoInfoView {
    pub query: Seq<char>,
    pub country: Seq<char>,
    pub country_code: Seq<char>,
    pub city: Seq<char>,
    pub isp: Seq<char>,
}

impl View for GeoInfo {
    type V = GeoInfoView;

    open spec fn view(&self) -> GeoInfoView {
        GeoInfoView {
            query: self.query@,
            country: self.country@,
            country_code: self.country_code@,
            city: self.city@,
            isp: self.isp@,
        }
    }
}

/// Answer of the lookup service, every field but the status optional.
#[derive(Debug, Clone)]
pub struct ApiResponse {
    pub status: String,
    pub message: Option<String>,
    pub query: Option<String>,
    pub country: Option<String>,
    pub country_code: Option<String>,
    pub city: Option<String>,
    pub isp: Option<String>,
}

impl ApiResponse {
    /// True if the service reported a failure.
    pub open spec fn failed(&self) -> bool {
        self.status@ == "fail"@
    }

    /// True if every field of a location is present.
    pub open spec fn complete(&self) -> bool {
        self.query is Some && self.country is Some && self.country_code is Some
            && self.city is Some && self.isp is Some
    }

    /// The message of a failure: the one the service sent, or "Unknown
    /// error" where it sent none.
    pub open spec fn failure_message(&self) -> Seq<char> {
        match self.message {
            Some(m) => m@,
            None => "Unknown error"@,
        }
    }

    /// The location made of the fields of a complete answer.
    pub open spec fn location(&self) -> GeoInfo
        recommends
            self.complete(),
    {
        GeoInfo {
            query: self.query->0,
            country: self.country->0,
            country_code: self.country_code->0,
            city: self.city->0,
            isp: self.isp->0,
        }
    }
}

/// Why a location lookup failed.
#[derive(Debug)]
pub enum GeoError {
    /// The request did not get an answer; the text says why.
    RequestFailed(String),
    /// The service answered with a failure and this message.
    ApiError(String),
    /// The answer lacks a field of the location.
    InvalidResponse,
}

/// True if `location` is what the answer `response` stands for: `ApiError`
/// with the failure message for a failure status; else the location made of
/// its fields if all five are present, and `InvalidResponse` if one is
/// missing.
pub open spec fn is_outcome_of(
    response: ApiResponse,
    location: Result<GeoInfo, GeoError>,
) -> bool {
    if response.failed() {
        location matches Err(GeoError::ApiError(message)) && message@
            == response.failure_message()
    } else if response.complete() {
        location == Ok::<GeoInfo, GeoError>(response.location())
    } else {
        location matches Err(GeoError::InvalidResponse)
    }
}

/// Turns an answer of the lookup service into a location.
///
/// A failure status gives `ApiError` with the service's message, or with
/// "Unknown error" where it sent none. Any other answer gives the location
/// made of its fields if all five are present, and `InvalidResponse` if one
/// is missing.
pub fn location_from_response(response: ApiResponse) -> (location: Result<GeoInfo, GeoError>)
    ensures
        is_outcome_of(response, location),
{
    if same_text(response.status.as_str(), "fail") {
        let message = match response.message {
            Some(m) => m,
            None => String::from_str("Unknown error"),
        };
        return Err(GeoError::ApiError(message));
    }
    match (response.query, response.country, response.country_code, response.city, response.isp) {
        (Some(query), Some(country), Some(country_code), Some(city), Some(isp)) => Ok(
            GeoInfo { query, country, country_code, city, isp },
        ),
        _ => Err(GeoError::InvalidResponse),
    }
}

/// Outcome of one location lookup: `RequestFailed` with the transport's
/// reason if the request got no answer, else what
/// [`location_from_response`] makes of the answer.
pub fn location_from_fetch(fetched: Result<ApiResponse, String>) -> (location: Result<
    GeoInfo,
    GeoError,
>)
    ensures
        match fetched {
            Err(reason) => location matches Err(GeoError::RequestFailed(r)) && r == reason,
            Ok(response) => is_outcome_of(response, location),
        },
{
    match fetched {
        Err(reason) => Err(GeoError::RequestFailed(reason)),
        Ok(response) => location_from_response(response),
    }
}

} // verus!
