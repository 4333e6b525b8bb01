use vstd::prelude::*;

use super::{http_uri_query, request_query, RouteError};
use crate::utils::{first_value, form_urlencoded_pairs, get_query_value};

verus! {

/// The LED is switched on exactly by the value `on`.
pub open spec fn light_of(value: Option<Seq<char>>) -> bool {
    value == Some("on"@)
}

/// Whether the value of the `light` parameter asks for the LED to be on.
pub fn light_value(value: &Option<String>) -> (on: bool)
    ensures
        on == light_of(value.deep_view()),
{
    match value {
        Some(v) => {
            let on = String::from_str("on");
            *v == on
        },
        None => false,
    }
}

/// What the index page does to the LED for the request URI `uri`: on when its
/// query sets `light` to `on`, off otherwise; an error when `uri` does not parse.
pub fn index_light(uri: &str) -> (light: Result<bool, RouteError>)
    ensures
        light == match http_uri_query(uri@) {
            None => Err(RouteError::InvalidUri),
            Some(None) => Ok(false),
            Some(Some(q)) => Ok(light_of(first_value(form_urlencoded_pairs(q), "light"@))),
        },
{
    match request_query(uri) {
        Err(e) => Err(e),
        Ok(None) => Ok(false),
        Ok(Some(query)) => {
            let value = get_query_value(query.as_str(), "light");
            Ok(light_value(&value))
        },
    }
}

} // verus!
