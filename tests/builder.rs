use random_user::{
    contains_text, decimal_text, text_eq, Gender, GenderOption, Nationality, QueryParam,
    UserGeneratorBuilder,
};

fn pairs(b: &UserGeneratorBuilder) -> Vec<(String, String)> {
    b.query_params().iter().map(|p: &QueryParam| (p.name.clone(), p.value.clone())).collect()
}

fn pair(n: &str, v: &str) -> (String, String) {
    (n.to_string(), v.to_string())
}

#[test]
fn nationalities_are_joined_with_commas() {
    let b = UserGeneratorBuilder::new().nationalities(&[
        Nationality::Australian,
        Nationality::Brazilian,
        Nationality::Canadian,
    ]);
    assert_eq!(pairs(&b), vec![pair("nat", "AU,BR,CA")]);
}

#[test]
fn one_nationality_in_a_list_has_no_comma() {
    let b = UserGeneratorBuilder::new().nationalities(&[Nationality::Ukrainian]);
    assert_eq!(pairs(&b), vec![pair("nat", "UA")]);
}

#[test]
fn empty_nationality_list_adds_nothing() {
    let b = UserGeneratorBuilder::new().seed("s").nationalities(&[]);
    assert_eq!(pairs(&b), vec![pair("seed", "s")]);
}

#[test]
fn parameters_accumulate_in_order() {
    let b = UserGeneratorBuilder::new()
        .nationality(Nationality::Swiss)
        .seed("foobar")
        .password("upper,lower,8-16")
        .count(5);
    assert_eq!(
        pairs(&b),
        vec![
            pair("nat", "CH"),
            pair("seed", "foobar"),
            pair("password", "upper,lower,8-16"),
            pair("results", "5"),
        ]
    );
}

#[test]
fn gender_filter_is_no_query_parameter() {
    let b = UserGeneratorBuilder::new()
        .gender(Gender::new(vec![GenderOption::Male], None))
        .seed("x");
    assert_eq!(pairs(&b), vec![pair("seed", "x")]);
}

#[test]
fn count_is_written_in_decimal() {
    assert_eq!(pairs(&UserGeneratorBuilder::new().count(0)), vec![pair("results", "0")]);
    assert_eq!(pairs(&UserGeneratorBuilder::new().count(1234)), vec![pair("results", "1234")]);
    assert_eq!(decimal_text(usize::MAX), usize::MAX.to_string());
}

#[test]
fn wire_codes_round_trip() {
    let all = [
        Nationality::Australian,
        Nationality::Brazilian,
        Nationality::Canadian,
        Nationality::Swiss,
        Nationality::German,
        Nationality::Danish,
        Nationality::Spanish,
        Nationality::Finnish,
        Nationality::French,
        Nationality::British,
        Nationality::Irish,
        Nationality::Indian,
        Nationality::Iranian,
        Nationality::Mexican,
        Nationality::Dutch,
        Nationality::Norwegian,
        Nationality::NewZealander,
        Nationality::Serbian,
        Nationality::Turkish,
        Nationality::Ukrainian,
        Nationality::American,
    ];
    for n in all {
        assert_eq!(Nationality::from_wire_code(n.wire_code()), Some(n));
    }
    assert_eq!(Nationality::Australian.wire_code(), "AU");
    assert_eq!(Nationality::American.wire_code(), "US");
}

#[test]
fn unknown_wire_codes_are_refused() {
    assert_eq!(Nationality::from_wire_code("au"), None);
    assert_eq!(Nationality::from_wire_code("XX"), None);
    assert_eq!(Nationality::from_wire_code("AUS"), None);
    assert_eq!(Nationality::from_wire_code(""), None);
}

#[test]
fn gender_lists_each_identification_once() {
    let g = Gender::new(
        vec![GenderOption::Queer, GenderOption::Female, GenderOption::Queer],
        Some(false),
    );
    assert_eq!(g.genders(), &vec![GenderOption::Queer, GenderOption::Female]);
    let h = Gender::new(
        vec![GenderOption::Male, GenderOption::Agender, GenderOption::Male, GenderOption::Other],
        None,
    );
    assert_eq!(
        h.genders(),
        &vec![GenderOption::Male, GenderOption::Agender, GenderOption::Other]
    );
    assert_eq!(g.is_trans(), Some(false));
    let none = Gender::new(vec![], None);
    assert!(none.genders().is_empty());
    assert_eq!(none, Gender::unspecified());
}

#[test]
fn random_gender_follows_the_draw() {
    assert_eq!(Gender::random_gender(2).genders(), &vec![GenderOption::NonBinary]);
    assert_eq!(Gender::random_gender(7 + 5).genders(), &vec![GenderOption::Other]);
    assert_eq!(Gender::random_gender(u64::MAX).genders().len(), 1);
}

#[test]
fn text_search() {
    assert!(contains_text("application/json; charset=utf-8", "application/json"));
    assert!(contains_text("x", ""));
    assert!(!contains_text("text/html", "text/plain"));
    assert!(!contains_text("json", "application/json"));
    assert!(text_eq("abc", "abc"));
    assert!(!text_eq("abc", "abd"));
    assert!(!text_eq("ab", "abc"));
}
