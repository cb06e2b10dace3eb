use crate::json::{
    at, entry, entry_int, entry_of, entry_loose_text, entry_opt_text, entry_text, int_of, loose_text_of,
    opt_text_of, opt_view, text_of, Json,
};
use crate::nationality::Nationality;
use crate::text::text_eq;
use crate::types::{
    Coordinates, Gender, Identity, Location, Login, Name, Picture, RandomDate, RandomUser,
    GenderOption, RandomUserInfo, RandomUserResponse, RandomUserResult, Street, Timestamp, Timezone,
};
use vstd::prelude::*;

verus! {

/// The instant that chrono reads from a text in the relaxed RFC 3339 form,
/// as whole seconds since the Unix epoch and nanoseconds past them.
pub uninterp spec fn utc_instant_of(text: Seq<char>) -> Option<(i64, u32)>;

/// Relies on chrono's `FromStr` for `DateTime<Utc>`, with
/// `DateTime::timestamp` and `DateTime::timestamp_subsec_nanos`: the
/// result depends on the text alone.
#[verifier::external_body]
fn parse_instant(text: &str) -> (r: Option<Timestamp>)
    ensures
        match r {
            Some(t) => utc_instant_of(text@) == Some((t.seconds, t.nanos)),
            None => utc_instant_of(text@) is None,
        },
{
    match text.parse::<chrono::DateTime<chrono::Utc>>() {
        Ok(d) => Some(Timestamp { seconds: d.timestamp(), nanos: d.timestamp_subsec_nanos() }),
        Err(_) => None,
    }
}

/// `v` is a name read from `j`.
pub open spec fn name_from(j: Json, v: Name) -> bool {
    text_of(at(j, "title"@)) == Some(v.title@)
        && text_of(at(j, "first"@)) == Some(v.first@)
        && text_of(at(j, "last"@)) == Some(v.last@)
}

/// Reads a name from `j`; `None` where `j` has not its shape.
pub fn decode_name(j: &Json) -> (r: Option<Name>)
    ensures
        match r {
            Some(v) => name_from(*j, v),
            None => forall|v: Name| !#[trigger] name_from(*j, v),
        },
{
    let title = entry_text(j, "title")?;
    let first = entry_text(j, "first")?;
    let last = entry_text(j, "last")?;
    Some(Name { title, first, last })
}

/// `v` is a street read from `j`.
pub open spec fn street_from(j: Json, v: Street) -> bool {
    int_of(at(j, "number"@)) == Some(v.number)
        && text_of(at(j, "name"@)) == Some(v.name@)
}

/// Reads a street from `j`; `None` where `j` has not its shape.
pub fn decode_street(j: &Json) -> (r: Option<Street>)
    ensures
        match r {
            Some(v) => street_from(*j, v),
            None => forall|v: Street| !#[trigger] street_from(*j, v),
        },
{
    let number = entry_int(j, "number")?;
    let name = entry_text(j, "name")?;
    Some(Street { number, name })
}

/// `v` is coordinates read from `j`.
pub open spec fn coordinates_from(j: Json, v: Coordinates) -> bool {
    text_of(at(j, "latitude"@)) == Some(v.latitude@)
        && text_of(at(j, "longitude"@)) == Some(v.longitude@)
}

/// Reads coordinates from `j`; `None` where `j` has not its shape.
pub fn decode_coordinates(j: &Json) -> (r: Option<Coordinates>)
    ensures
        match r {
            Some(v) => coordinates_from(*j, v),
            None => forall|v: Coordinates| !#[trigger] coordinates_from(*j, v),
        },
{
    let latitude = entry_text(j, "latitude")?;
    let longitude = entry_text(j, "longitude")?;
    Some(Coordinates { latitude, longitude })
}

/// `v` is a time zone read from `j`.
pub open spec fn timezone_from(j: Json, v: Timezone) -> bool {
    text_of(at(j, "offset"@)) == Some(v.offset@)
        && text_of(at(j, "description"@)) == Some(v.description@)
}

/// Reads a time zone from `j`; `None` where `j` has not its shape.
pub fn decode_timezone(j: &Json) -> (r: Option<Timezone>)
    ensures
        match r {
            Some(v) => timezone_from(*j, v),
            None => forall|v: Timezone| !#[trigger] timezone_from(*j, v),
        },
{
    let offset = entry_text(j, "offset")?;
    let description = entry_text(j, "description")?;
    Some(Timezone { offset, description })
}

/// `v` is a location read from `j`.
pub open spec fn location_from(j: Json, v: Location) -> bool {
    street_from(at(j, "street"@), v.street)
        && text_of(at(j, "city"@)) == Some(v.city@)
        && text_of(at(j, "state"@)) == Some(v.state@)
        && text_of(at(j, "country"@)) == Some(v.country@)
        && match entry_of(j, "postcode"@) {
            Some(p) => loose_text_of(p) == v.postcode@,
            None => false,
        }
        && coordinates_from(at(j, "coordinates"@), v.coordinates)
        && timezone_from(at(j, "timezone"@), v.timezone)
}

/// Reads a location from `j`; `None` where `j` has not its shape.
pub fn decode_location(j: &Json) -> (r: Option<Location>)
    ensures
        match r {
            Some(v) => location_from(*j, v),
            None => forall|v: Location| !#[trigger] location_from(*j, v),
        },
{
    let street = decode_street(entry(j, "street")?)?;
    let city = entry_text(j, "city")?;
    let state = entry_text(j, "state")?;
    let country = entry_text(j, "country")?;
    let postcode = entry_loose_text(j, "postcode")?;
    let coordinates = decode_coordinates(entry(j, "coordinates")?)?;
    let timezone = decode_timezone(entry(j, "timezone")?)?;
    Some(Location { street, city, state, country, postcode, coordinates, timezone })
}

/// `v` is a date read from `j`: an instant and an age.
pub open spec fn date_from(j: Json, v: RandomDate) -> bool {
    int_of(at(j, "age"@)) == Some(v.age) && match text_of(at(j, "date"@)) {
        Some(s) => utc_instant_of(s) == Some((v.date.seconds, v.date.nanos)),
        None => false,
    }
}


/// Reads a date from `j`; `None` where `j` has not its shape or the instant
/// cannot be read.
pub fn decode_date(j: &Json) -> (r: Option<RandomDate>)
    ensures
        match r {
            Some(v) => date_from(*j, v),
            None => forall|v: RandomDate| !#[trigger] date_from(*j, v),
        },
{
    let text = entry_text(j, "date")?;
    let date = parse_instant(text.as_str())?;
    let age = entry_int(j, "age")?;
    Some(RandomDate { date, age })
}

/// The postcode of a location is the text that the service sent, whatever
/// the kind of value it sent: a string itself, a number as its rendering,
/// any other value as its compact JSON rendering. Only an absent postcode
/// is refused.
pub proof fn lemma_postcode_text(j: Json, l: Location)
    requires
        location_from(j, l),
    ensures
        entry_of(j, "postcode"@) is Some,
        l.postcode@ == loose_text_of(entry_of(j, "postcode"@)->Some_0),
        entry_of(j, "postcode"@)->Some_0 is Str ==> l.postcode@ == entry_of(j, "postcode"@)->Some_0->Str_0@,
        entry_of(j, "postcode"@)->Some_0 is Number ==> l.postcode@ == entry_of(j, "postcode"@)->Some_0->Number_0.text@,
{
}

/// `v` is a login read from `j`.
pub open spec fn login_from(j: Json, v: Login) -> bool {
    text_of(at(j, "uuid"@)) == Some(v.uuid@)
        && text_of(at(j, "username"@)) == Some(v.username@)
        && text_of(at(j, "password"@)) == Some(v.password@)
        && text_of(at(j, "salt"@)) == Some(v.salt@)
        && text_of(at(j, "md5"@)) == Some(v.md5@)
        && text_of(at(j, "sha1"@)) == Some(v.sha1@)
        && text_of(at(j, "sha256"@)) == Some(v.sha256@)
}

/// Reads a login from `j`; `None` where `j` has not its shape.
pub fn decode_login(j: &Json) -> (r: Option<Login>)
    ensures
        match r {
            Some(v) => login_from(*j, v),
            None => forall|v: Login| !#[trigger] login_from(*j, v),
        },
{
    let uuid = entry_text(j, "uuid")?;
    let username = entry_text(j, "username")?;
    let password = entry_text(j, "password")?;
    let salt = entry_text(j, "salt")?;
    let md5 = entry_text(j, "md5")?;
    let sha1 = entry_text(j, "sha1")?;
    let sha256 = entry_text(j, "sha256")?;
    Some(Login { uuid, username, password, salt, md5, sha1, sha256 })
}

/// `v` is an identity read from `j`.
pub open spec fn identity_from(j: Json, v: Identity) -> bool {
    text_of(at(j, "name"@)) == Some(v.name@)
        && opt_text_of(at(j, "value"@)) == Some(opt_view(v.value))
}

/// Reads an identity from `j`; `None` where `j` has not its shape.
pub fn decode_identity(j: &Json) -> (r: Option<Identity>)
    ensures
        match r {
            Some(v) => identity_from(*j, v),
            None => forall|v: Identity| !#[trigger] identity_from(*j, v),
        },
{
    let name = entry_text(j, "name")?;
    let value = entry_opt_text(j, "value")?;
    Some(Identity { name, value })
}

/// `v` is a picture read from `j`.
pub open spec fn picture_from(j: Json, v: Picture) -> bool {
    text_of(at(j, "large"@)) == Some(v.large@)
        && text_of(at(j, "medium"@)) == Some(v.medium@)
        && text_of(at(j, "thumbnail"@)) == Some(v.thumbnail@)
}

/// Reads a picture from `j`; `None` where `j` has not its shape.
pub fn decode_picture(j: &Json) -> (r: Option<Picture>)
    ensures
        match r {
            Some(v) => picture_from(*j, v),
            None => forall|v: Picture| !#[trigger] picture_from(*j, v),
        },
{
    let large = entry_text(j, "large")?;
    let medium = entry_text(j, "medium")?;
    let thumbnail = entry_text(j, "thumbnail")?;
    Some(Picture { large, medium, thumbnail })
}

/// `v` is the facts of a batch read from `j`.
pub open spec fn info_from(j: Json, v: RandomUserInfo) -> bool {
    text_of(at(j, "seed"@)) == Some(v.seed@)
        && int_of(at(j, "results"@)) == Some(v.results)
        && int_of(at(j, "page"@)) == Some(v.page)
        && text_of(at(j, "version"@)) == Some(v.version@)
}

/// Reads the facts of a batch from `j`; `None` where `j` has not its shape.
pub fn decode_info(j: &Json) -> (r: Option<RandomUserInfo>)
    ensures
        match r {
            Some(v) => info_from(*j, v),
            None => forall|v: RandomUserInfo| !#[trigger] info_from(*j, v),
        },
{
    let seed = entry_text(j, "seed")?;
    let results = entry_int(j, "results")?;
    let page = entry_int(j, "page")?;
    let version = entry_text(j, "version")?;
    Some(RandomUserInfo { seed, results, page, version })
}

/// `v` is a person read from `j`. The service's own gender entry is not
/// read: the gender is left unspecified, for the requested filter to fill.
pub open spec fn user_from(j: Json, v: RandomUser) -> bool {
    v.gender@ == (Seq::<GenderOption>::empty(), Option::<bool>::None)
        && name_from(at(j, "name"@), v.name)
        && location_from(at(j, "location"@), v.location)
        && text_of(at(j, "email"@)) == Some(v.email@)
        && login_from(at(j, "login"@), v.login)
        && date_from(at(j, "dob"@), v.birthday)
        && date_from(at(j, "registered"@), v.registered)
        && text_of(at(j, "phone"@)) == Some(v.phone@)
        && text_of(at(j, "cell"@)) == Some(v.cell@)
        && identity_from(at(j, "id"@), v.id)
        && picture_from(at(j, "picture"@), v.picture)
        && match text_of(at(j, "nat"@)) {
        Some(c) => Nationality::of_code(c) == Some(v.nationality),
        None => false,
    }
}

/// Reads a person from `j`; `None` where `j` has not its shape.
pub fn decode_user(j: &Json) -> (r: Option<RandomUser>)
    ensures
        match r {
            Some(v) => user_from(*j, v),
            None => forall|v: RandomUser| !#[trigger] user_from(*j, v),
        },
{
    let name = decode_name(entry(j, "name")?)?;
    let location = decode_location(entry(j, "location")?)?;
    let email = entry_text(j, "email")?;
    let login = decode_login(entry(j, "login")?)?;
    let birthday = decode_date(entry(j, "dob")?)?;
    let registered = decode_date(entry(j, "registered")?)?;
    let phone = entry_text(j, "phone")?;
    let cell = entry_text(j, "cell")?;
    let id = decode_identity(entry(j, "id")?)?;
    let picture = decode_picture(entry(j, "picture")?)?;
    let code = entry_text(j, "nat")?;
    let nationality = Nationality::from_wire_code(code.as_str())?;
    let gender = Gender::unspecified();
    Some(RandomUser {
        gender,
        name,
        location,
        email,
        login,
        birthday,
        registered,
        phone,
        cell,
        id,
        picture,
        nationality,
    })
}

/// `v` is a batch read from `j`: one person for each item of its `results`
/// array, in order, and the facts of the batch.
pub open spec fn result_from(j: Json, v: RandomUserResult) -> bool {
    info_from(at(j, "info"@), v.info) && match at(j, "results"@) {
        Json::Array(items, _) => items@.len() == v.results@.len()
            && forall|i: int| 0 <= i < items@.len() ==> #[trigger] user_from(items@[i], v.results@[i]),
        _ => false,
    }
}

/// Reads a batch from `j`; `None` where `j` has not its shape.
pub fn decode_result(j: &Json) -> (r: Option<RandomUserResult>)
    ensures
        match r {
            Some(v) => result_from(*j, v),
            None => forall|v: RandomUserResult| !#[trigger] result_from(*j, v),
        },
{
    let items = match entry(j, "results") {
        Some(Json::Array(items, _)) => items,
        _ => return None,
    };
    let mut results: Vec<RandomUser> = Vec::new();
    let mut i: usize = 0;
    while i < items.len()
        invariant
            i <= items@.len(),
            at(*j, "results"@) is Array,
            at(*j, "results"@)->Array_0 == *items,
            results@.len() == i,
            forall|k: int| 0 <= k < i ==> #[trigger] user_from(items@[k], results@[k]),
        decreases items@.len() - i,
    {
        match decode_user(&items[i]) {
            Some(u) => results.push(u),
            None => {
                assert forall|v: RandomUserResult| !#[trigger] result_from(*j, v) by {
                    if result_from(*j, v) {
                        assert(user_from(items@[i as int], v.results@[i as int]));
                    }
                }
                return None;
            },
        }
        i = i + 1;
    }
    let info = decode_info(entry(j, "info")?)?;
    Some(RandomUserResult { results, info })
}

/// The message of an error answer: an object whose one entry is the string
/// `error`.
pub open spec fn error_message_of(j: Json) -> Option<Seq<char>> {
    match j {
        Json::Object(fields, _) => if fields@.len() == 1 && fields@[0].key@ == "error"@ {
            text_of(fields@[0].value)
        } else {
            None
        },
        _ => None,
    }
}

/// `v` is the answer read from `j`: a batch where `j` has the shape of one,
/// else an error message.
pub open spec fn response_from(j: Json, v: RandomUserResponse) -> bool {
    match v {
        RandomUserResponse::Result(res) => result_from(j, res),
        RandomUserResponse::Error(m) => (forall|res: RandomUserResult| !#[trigger] result_from(j, res))
            && error_message_of(j) == Some(m@),
    }
}

/// Reads the service's answer from `j`: a batch, else an error message;
/// `None` where `j` is neither.
pub fn decode_response(j: &Json) -> (r: Option<RandomUserResponse>)
    ensures
        match r {
            Some(v) => response_from(*j, v),
            None => forall|v: RandomUserResponse| !#[trigger] response_from(*j, v),
        },
{
    if let Some(res) = decode_result(j) {
        return Some(RandomUserResponse::Result(res));
    }
    match j {
        Json::Object(fields, _) => {
            if fields.len() == 1 && text_eq(fields[0].key.as_str(), "error") {
                if let Json::Str(m) = &fields[0].value {
                    return Some(RandomUserResponse::Error(m.clone()));
                }
            }
            None
        },
        _ => None,
    }
}

} // verus!
