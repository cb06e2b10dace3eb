//! Client-side logic for a service that generates synthetic person records:
//! the filter parameters of a request, the reading of the service's answer
//! into typed records, and the reconciliation of the gender filter.
//!
//! Sending the request is left to the caller, which hands the answer's
//! content type and body to [`UserGeneratorBuilder::parse_response`] and the
//! result to [`UserGeneratorBuilder::finish`].

mod decode;
mod generator;
mod json;
mod nationality;
mod text;
mod types;

pub use decode::{
    decode_coordinates, decode_date, decode_identity, decode_info, decode_location, decode_login,
    decode_name, decode_picture, decode_response, decode_result, decode_street, decode_timezone,
    decode_user, lemma_postcode_text,
};
pub use generator::{
    first_user, lemma_joined_codes_layout, QueryParam, RandomUserError, UserGeneratorBuilder,
};
pub use json::{Json, JsonNumber, Member};
pub use nationality::{lemma_wire_code_round_trip, Nationality};
pub use text::{contains_text, decimal_text, text_eq};
pub use types::{
    Coordinates, Gender, GenderOption, Identity, Location, Login, Name, Picture, RandomDate,
    RandomUser, RandomUserInfo, RandomUserResponse, RandomUserResult, Street, Timestamp, Timezone,
    GENDER_OPTION_COUNT,
};
