use random_user::{
    first_user, Gender, GenderOption, Nationality, RandomUserError, RandomUserResponse,
    RandomUserResult, Timestamp, UserGeneratorBuilder,
};

fn user_json(postcode: &str, nat: &str) -> String {
    let mut s = String::new();
    s.push_str(r#"{"gender":"female","name":{"title":"Ms","first":"Ada","last":"Lovelace"},"#);
    s.push_str(r#""location":{"street":{"number":12,"name":"Main Street"},"city":"Sydney","#);
    s.push_str(r#""state":"NSW","country":"Australia","postcode":"#);
    s.push_str(postcode);
    s.push_str(r#","coordinates":{"latitude":"-33.8","longitude":"151.2"},"#);
    s.push_str(r#""timezone":{"offset":"+10:00","description":"Eastern Australia"}},"#);
    s.push_str(r#""email":"ada@example.com","login":{"uuid":"u-1","username":"ada","#);
    s.push_str(r#""password":"secret","salt":"s","md5":"m5","sha1":"h1","sha256":"h2"},"#);
    s.push_str(r#""dob":{"date":"1990-05-01T10:00:00.000Z","age":34},"#);
    s.push_str(r#""registered":{"date":"2010-01-01T00:00:00.000Z","age":14},"#);
    s.push_str(r#""phone":"01","cell":"02","id":{"name":"TFN","value":null},"#);
    s.push_str(r#""picture":{"large":"l.jpg","medium":"m.jpg","thumbnail":"t.jpg"},"nat":""#);
    s.push_str(nat);
    s.push_str(r#""}"#);
    s
}

fn batch_json(users: &[String]) -> String {
    format!(
        r#"{{"results":[{}],"info":{{"seed":"abc","results":{},"page":1,"version":"1.4"}}}}"#,
        users.join(","),
        users.len()
    )
}

fn parse_batch(body: &str) -> RandomUserResult {
    match UserGeneratorBuilder::parse_response(Some("application/json; charset=utf-8"), body) {
        Ok(RandomUserResponse::Result(r)) => r,
        other => panic!("not a batch: {:?}", other),
    }
}

#[test]
fn plain_text_is_an_api_error() {
    let rsp = UserGeneratorBuilder::parse_response(Some("text/plain"), "Error: problem").unwrap();
    assert_eq!(rsp, RandomUserResponse::Error("Error: problem".to_string()));
    let b = UserGeneratorBuilder::new();
    match b.finish(rsp, &vec![]) {
        Err(RandomUserError::Api(m)) => assert_eq!(m, "Error: problem"),
        other => panic!("unexpected {:?}", other),
    }
}

#[test]
fn json_batch_with_one_user() {
    let body = batch_json(&[user_json("2000", "AU")]);
    let r = parse_batch(&body);
    assert_eq!(r.results.len(), 1);
    let u = &r.results[0];
    assert_eq!(u.name.first, "Ada");
    assert_eq!(u.name.last, "Lovelace");
    assert_eq!(u.location.street.number, 12);
    assert_eq!(u.location.postcode, "2000");
    assert_eq!(u.login.sha256, "h2");
    assert_eq!(u.birthday.age, 34);
    assert_eq!(u.birthday.date, Timestamp { seconds: 641556000, nanos: 0 });
    assert_eq!(u.registered.date, Timestamp { seconds: 1262304000, nanos: 0 });
    assert_eq!(u.id.name, "TFN");
    assert_eq!(u.id.value, None);
    assert_eq!(u.picture.thumbnail, "t.jpg");
    assert_eq!(u.nationality, Nationality::Australian);
    assert_eq!(u.gender, Gender::unspecified());
    assert_eq!(r.info.seed, "abc");
    assert_eq!(r.info.results, 1);
    assert_eq!(r.info.page, 1);
    assert_eq!(r.info.version, "1.4");
}

#[test]
fn json_batch_keeps_order() {
    let body = batch_json(&[user_json("1", "AU"), user_json("2", "US"), user_json("3", "FR")]);
    let r = parse_batch(&body);
    let pcs: Vec<&str> = r.results.iter().map(|u| u.location.postcode.as_str()).collect();
    assert_eq!(pcs, vec!["1", "2", "3"]);
    assert_eq!(r.results[1].nationality, Nationality::American);
    assert_eq!(r.results[2].nationality, Nationality::French);
}

#[test]
fn postcode_string_or_number_reads_the_same() {
    let as_number = parse_batch(&batch_json(&[user_json("2000", "AU")]));
    let as_string = parse_batch(&batch_json(&[user_json("\"2000\"", "AU")]));
    assert_eq!(as_number.results[0].location.postcode, "2000");
    assert_eq!(as_string.results[0].location.postcode, "2000");
    assert_eq!(as_number, as_string);
    let letters = parse_batch(&batch_json(&[user_json("\"EC1A 1BB\"", "GB")]));
    assert_eq!(letters.results[0].location.postcode, "EC1A 1BB");
}

#[test]
fn postcode_of_another_kind_is_its_json_text() {
    let cases = [
        ("true", "true"),
        ("false", "false"),
        ("null", "null"),
        ("[1, 2]", "[1,2]"),
        ("{\"code\": 7}", "{\"code\":7}"),
        ("-12", "-12"),
    ];
    for (sent, read) in cases {
        let r = parse_batch(&batch_json(&[user_json(sent, "AU")]));
        assert_eq!(r.results[0].location.postcode, read);
    }
}

#[test]
fn missing_postcode_is_a_format_error() {
    let body = batch_json(&[user_json("0", "AU")]).replace("\"postcode\":0,", "");
    assert!(!body.contains("postcode"));
    let r = UserGeneratorBuilder::parse_response(Some("application/json"), &body);
    assert!(matches!(r, Err(RandomUserError::BadFormat)));
}

#[test]
fn missing_content_type_is_a_format_error() {
    for body in ["Error: problem", "", "{\"error\":\"x\"}"] {
        let r = UserGeneratorBuilder::parse_response(None, body);
        assert!(matches!(r, Err(RandomUserError::BadFormat)));
    }
    let body = batch_json(&[user_json("2000", "AU")]);
    assert!(matches!(
        UserGeneratorBuilder::parse_response(None, &body),
        Err(RandomUserError::BadFormat)
    ));
}

#[test]
fn json_without_results_is_a_format_error() {
    let body = r#"{"info":{"seed":"abc","results":1,"page":1,"version":"1.4"}}"#;
    let r = UserGeneratorBuilder::parse_response(Some("application/json"), body);
    assert!(matches!(r, Err(RandomUserError::BadFormat)));
}

#[test]
fn malformed_json_is_a_format_error() {
    let r = UserGeneratorBuilder::parse_response(Some("application/json"), "{\"results\": [");
    assert!(matches!(r, Err(RandomUserError::BadFormat)));
}

#[test]
fn other_content_type_is_a_format_error() {
    let body = batch_json(&[user_json("2000", "AU")]);
    let r = UserGeneratorBuilder::parse_response(Some("text/html"), &body);
    assert!(matches!(r, Err(RandomUserError::BadFormat)));
}

#[test]
fn unknown_nationality_is_a_format_error() {
    let body = batch_json(&[user_json("2000", "XX")]);
    let r = UserGeneratorBuilder::parse_response(Some("application/json"), &body);
    assert!(matches!(r, Err(RandomUserError::BadFormat)));
}

#[test]
fn bad_date_is_a_format_error() {
    let body = batch_json(&[user_json("2000", "AU")]).replace("1990-05-01T10:00:00.000Z", "yesterday");
    let r = UserGeneratorBuilder::parse_response(Some("application/json"), &body);
    assert!(matches!(r, Err(RandomUserError::BadFormat)));
}

#[test]
fn json_error_envelope_is_an_api_error() {
    let rsp = UserGeneratorBuilder::parse_response(Some("application/json"), r#"{"error":"Uh oh"}"#)
        .unwrap();
    assert_eq!(rsp, RandomUserResponse::Error("Uh oh".to_string()));
    match UserGeneratorBuilder::new().finish(rsp, &vec![]) {
        Err(RandomUserError::Api(m)) => assert_eq!(m, "Uh oh"),
        other => panic!("unexpected {:?}", other),
    }
}

#[test]
fn empty_batch_is_a_success() {
    let r = parse_batch(&batch_json(&[]));
    assert!(r.results.is_empty());
    assert_eq!(r.info.results, 0);
}

#[test]
fn reconcile_applies_the_filter_to_every_record() {
    let body = batch_json(&[user_json("1", "AU"), user_json("2", "NZ")]);
    let rsp = UserGeneratorBuilder::parse_response(Some("application/json"), &body).unwrap();
    let wanted = Gender::new(vec![GenderOption::Female, GenderOption::Queer], Some(true));
    let b = UserGeneratorBuilder::new().gender(wanted.clone());
    let out = b.finish(rsp, &vec![0, 1]).unwrap();
    assert_eq!(out.results.len(), 2);
    for u in &out.results {
        assert_eq!(u.gender, wanted);
    }
    assert_eq!(out.results[1].nationality, Nationality::NewZealander);
    assert_eq!(out.results[0].location.postcode, "1");
}

#[test]
fn reconcile_without_filter_draws_per_record() {
    let body = batch_json(&[user_json("1", "AU"), user_json("2", "AU"), user_json("3", "AU")]);
    let r = parse_batch(&body);
    let out = UserGeneratorBuilder::new().reconcile(r, &vec![0, 1, 13]);
    assert_eq!(out.results[0].gender.genders(), &vec![GenderOption::Female]);
    assert_eq!(out.results[1].gender.genders(), &vec![GenderOption::Male]);
    assert_eq!(out.results[2].gender.genders(), &vec![GenderOption::Unspecified]);
    assert_eq!(out.results[0].gender.is_trans(), None);
    assert_ne!(out.results[0].gender, out.results[1].gender);
}

#[test]
fn first_user_of_one() {
    let r = parse_batch(&batch_json(&[user_json("2000", "AU")]));
    let expected = r.results[0].clone();
    let u = first_user(r.results).unwrap();
    assert_eq!(u, expected);
}

#[test]
fn first_user_of_none_fails() {
    assert!(matches!(first_user(vec![]), Err(RandomUserError::BadFormat)));
}
