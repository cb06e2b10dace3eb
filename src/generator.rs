use crate::decode::{decode_response, response_from};
use crate::json::{parse_json, parsed_json};
use crate::nationality::Nationality;
use crate::text::{contains_text, decimal, decimal_text, has_text};
use crate::types::{Gender, GenderOption, RandomUser, RandomUserResponse, RandomUserResult};
use vstd::prelude::*;

verus! {

/// reqwest's transport error, carried through unread.
#[verifier::external_type_specification]
#[verifier::external_body]
pub struct ExReqwestError(reqwest::Error);

/// Why a request gave no batch.
#[derive(Debug)]
pub enum RandomUserError {
    /// The transport failed.
    Reqwest(reqwest::Error),
    /// The service answered with this error message.
    Api(String),
    /// The answer could not be classified or read.
    BadFormat,
}

/// One query parameter of a request.
#[derive(Debug, Clone, PartialEq, Eq)]
pub struct QueryParam {
    pub name: String,
    pub value: String,
}

impl View for QueryParam {
    type V = (Seq<char>, Seq<char>);

    open spec fn view(&self) -> (Seq<char>, Seq<char>) {
        (self.name@, self.value@)
    }
}

/// The wire codes of `ns`, in order, with a comma between two of them.
pub open spec fn joined_codes(ns: Seq<Nationality>) -> Seq<char>
    decreases ns.len(),
{
    if ns.len() == 0 {
        Seq::empty()
    } else if ns.len() == 1 {
        ns[0].code()
    } else {
        joined_codes(ns.drop_last()) + seq![','] + ns.last().code()
    }
}

/// A wire code is two characters, neither of them a comma.
proof fn lemma_code_shape(n: Nationality)
    ensures
        n.code().len() == 2,
        n.code()[0] != ',',
        n.code()[1] != ',',
{
    reveal(Nationality::letters);
    match n {
        Nationality::Australian => {},
        _ => {},
    }
}

/// For a non-empty list, the joined parameter holds each wire code in order,
/// each but the last followed by a comma, and does not end with a comma.
pub proof fn lemma_joined_codes_layout(ns: Seq<Nationality>)
    requires
        ns.len() >= 1,
    ensures
        joined_codes(ns).len() == 3 * ns.len() - 1,
        forall|i: int|
            0 <= i < ns.len() - 1 ==> joined_codes(ns).subrange(3 * i, 3 * i + 3) == (#[trigger] ns[i]).code().push(','),
        joined_codes(ns).subrange(3 * ns.len() - 3, 3 * ns.len() - 1) == ns.last().code(),
        joined_codes(ns).last() != ',',
    decreases ns.len(),
{
    let j = joined_codes(ns);
    lemma_code_shape(ns.last());
    if ns.len() == 1 {
        assert(j == ns[0].code());
        assert(j.subrange(0, 2) =~= ns[0].code());
    } else {
        let q = ns.drop_last();
        lemma_joined_codes_layout(q);
        let p = joined_codes(q);
        let n = ns.len() - 1;
        let c = ns.last().code();
        assert(j == p + seq![','] + c);
        assert forall|i: int| 0 <= i < n implies j.subrange(3 * i, 3 * i + 3) == (#[trigger] ns[i]).code().push(',') by {
            assert(q[i] == ns[i]);
            if i < n - 1 {
                assert(j.subrange(3 * i, 3 * i + 3) =~= p.subrange(3 * i, 3 * i + 3));
            } else {
                assert(p.subrange(3 * i, 3 * i + 2) == q.last().code());
                assert(j.subrange(3 * i, 3 * i + 3) =~= p.subrange(3 * i, 3 * i + 2).push(','));
            }
        }
        assert(j.subrange(3 * n, 3 * n + 2) =~= c);
        assert(j.last() == c[1]);
    }
}

/// The gender that reconciliation gives a record whose random number is
/// `draw`, under the gender filter `filter`.
pub open spec fn reconciled(filter: Option<(Seq<GenderOption>, Option<bool>)>, draw: u64) -> (
    Seq<GenderOption>,
    Option<bool>,
) {
    match filter {
        Some(g) => g,
        None => Gender::drawn(draw),
    }
}

/// `a` and `b` agree on everything but the gender.
pub open spec fn same_but_gender(a: RandomUser, b: RandomUser) -> bool {
    a.name == b.name && a.location == b.location && a.email == b.email && a.login == b.login
        && a.birthday == b.birthday && a.registered == b.registered && a.phone == b.phone
        && a.cell == b.cell && a.id == b.id && a.picture == b.picture && a.nationality
        == b.nationality
}

/// The one record that a request for one asks for: the first of the batch;
/// an empty batch is a format error.
pub fn first_user(users: Vec<RandomUser>) -> (r: Result<RandomUser, RandomUserError>)
    ensures
        users@.len() >= 1 ==> (r matches Ok(u) && u == users@[0]),
        users@.len() == 0 ==> r matches Err(RandomUserError::BadFormat),
{
    let mut users = users;
    if users.len() == 0 {
        Err(RandomUserError::BadFormat)
    } else {
        Ok(users.remove(0))
    }
}

/// A request being put together: its query parameters, in the order they
/// were set, and the gender filter that the records will carry.
#[derive(Debug)]
pub struct UserGeneratorBuilder {
    params: Vec<QueryParam>,
    gender: Option<Gender>,
}

fn param(name: &str, value: String) -> (r: QueryParam)
    ensures
        r@ == (name@, value@),
{
    QueryParam { name: name.to_string(), value }
}

impl UserGeneratorBuilder {
    /// The query parameters, as (name, value) pairs.
    pub closed spec fn query(&self) -> Seq<(Seq<char>, Seq<char>)> {
        self.params@.map_values(|p: QueryParam| p@)
    }

    /// The gender filter, where one was set.
    pub closed spec fn filter(&self) -> Option<(Seq<GenderOption>, Option<bool>)> {
        match self.gender {
            Some(g) => Some(g@),
            None => None,
        }
    }

    /// A request with no parameter and no gender filter.
    pub fn new() -> (r: UserGeneratorBuilder)
        ensures
            r.query() == Seq::<(Seq<char>, Seq<char>)>::empty(),
            r.filter() is None,
    {
        let r = UserGeneratorBuilder { params: Vec::new(), gender: None };
        assert(r.query() =~= Seq::<(Seq<char>, Seq<char>)>::empty());
        r
    }

    fn with_param(self, name: &str, value: String) -> (r: UserGeneratorBuilder)
        ensures
            r.query() == self.query().push((name@, value@)),
            r.filter() == self.filter(),
    {
        let mut params = self.params;
        params.push(param(name, value));
        let r = UserGeneratorBuilder { params, gender: self.gender };
        assert(r.query() =~= self.query().push((name@, value@)));
        r
    }

    /// Asks that every record carry `gender`. This is no query parameter:
    /// the filter is applied to the records that come back.
    pub fn gender(self, gender: Gender) -> (r: UserGeneratorBuilder)
        ensures
            r.query() == self.query(),
            r.filter() == Some(gender@),
    {
        UserGeneratorBuilder { params: self.params, gender: Some(gender) }
    }

    /// Asks for people of one nationality.
    pub fn nationality(self, nationality: Nationality) -> (r: UserGeneratorBuilder)
        ensures
            r.query() == self.query().push(("nat"@, nationality.code())),
            r.filter() == self.filter(),
    {
        let code = nationality.wire_code().to_string();
        self.with_param("nat", code)
    }

    /// Asks for people of any of `nationalities`, picked for each person.
    /// An empty list asks nothing and leaves the request as it was.
    pub fn nationalities(self, nationalities: &[Nationality]) -> (r: UserGeneratorBuilder)
        ensures
            nationalities@.len() == 0 ==> r.query() == self.query(),
            nationalities@.len() > 0 ==> r.query() == self.query().push(
                ("nat"@, joined_codes(nationalities@)),
            ),
            r.filter() == self.filter(),
    {
        if nationalities.len() == 0 {
            return self;
        }
        let mut nats = String::new();
        let mut i: usize = 0;
        while i < nationalities.len()
            invariant
                i <= nationalities@.len(),
                nats@ == joined_codes(nationalities@.subrange(0, i as int)),
            decreases nationalities@.len() - i,
        {
            let ghost before = nationalities@.subrange(0, i as int);
            let ghost after = nationalities@.subrange(0, i + 1);
            assert(after.drop_last() =~= before);
            if i > 0 {
                nats.append(",");
                proof {
                    reveal_strlit(",");
                }
            }
            nats.append(nationalities[i].wire_code());
            assert(nats@ =~= joined_codes(after));
            i = i + 1;
        }
        assert(nationalities@.subrange(0, nationalities@.len() as int) =~= nationalities@);
        self.with_param("nat", nats)
    }

    /// Asks for the batch that `seed` determines; the service may then
    /// disregard other parameters.
    pub fn seed(self, seed: &str) -> (r: UserGeneratorBuilder)
        ensures
            r.query() == self.query().push(("seed"@, seed@)),
            r.filter() == self.filter(),
    {
        self.with_param("seed", seed.to_string())
    }

    /// Asks for passwords of the form `charset`, which the service reads as
    /// `CHARSETS,MIN-MAX` or `CHARSETS,MAX`, charsets among `special`,
    /// `upper`, `lower` and `number`. It is passed on as it is.
    pub fn password(self, charset: &str) -> (r: UserGeneratorBuilder)
        ensures
            r.query() == self.query().push(("password"@, charset@)),
            r.filter() == self.filter(),
    {
        self.with_param("password", charset.to_string())
    }

    /// Asks for `count` records, as the terminal operations do.
    pub fn count(self, count: usize) -> (r: UserGeneratorBuilder)
        ensures
            r.query() == self.query().push(("results"@, decimal(count as nat))),
            r.filter() == self.filter(),
    {
        self.with_param("results", decimal_text(count))
    }

    /// The query parameters to send.
    pub fn query_params(&self) -> (r: &Vec<QueryParam>)
        ensures
            r@.map_values(|p: QueryParam| p@) == self.query(),
    {
        &self.params
    }

    /// Gives every record of `result` the requested gender: the filter
    /// where one was set, else the gender that the record's own random
    /// number in `draws` picks. Nothing else changes.
    pub fn reconcile(&self, result: RandomUserResult, draws: &Vec<u64>) -> (r: RandomUserResult)
        requires
            draws@.len() == result.results@.len(),
        ensures
            r.info == result.info,
            r.results@.len() == result.results@.len(),
            forall|i: int|
                0 <= i < r.results@.len() ==> (#[trigger] r.results@[i]).gender@ == reconciled(
                    self.filter(),
                    draws@[i],
                ) && same_but_gender(r.results@[i], result.results@[i]),
    {
        let RandomUserResult { results, info } = result;
        let mut results = results;
        let ghost original = results@;
        let mut i: usize = 0;
        while i < results.len()
            invariant
                i <= results@.len(),
                results@.len() == original.len(),
                draws@.len() == original.len(),
                forall|k: int|
                    0 <= k < i ==> (#[trigger] results@[k]).gender@ == reconciled(self.filter(), draws@[k]),
                forall|k: int| 0 <= k < results@.len() ==> same_but_gender(#[trigger] results@[k], original[k]),
                forall|k: int| i <= k < results@.len() ==> #[trigger] results@[k] == original[k],
            decreases results@.len() - i,
        {
            let g = match &self.gender {
                Some(g) => g.copy(),
                None => Gender::random_gender(draws[i]),
            };
            results[i].gender = g;
            i = i + 1;
        }
        RandomUserResult { results, info }
    }

    /// Turns the service's answer into the outcome of a request: its error
    /// message becomes an API error, its batch is reconciled with `draws`.
    pub fn finish(&self, rsp: RandomUserResponse, draws: &Vec<u64>) -> (r: Result<RandomUserResult, RandomUserError>)
        requires
            rsp is Result ==> draws@.len() == rsp->Result_0.results@.len(),
        ensures
            match rsp {
                RandomUserResponse::Error(m) => match r {
                    Err(RandomUserError::Api(e)) => e@ == m@,
                    _ => false,
                },
                RandomUserResponse::Result(res) => match r {
                    Ok(out) => out.info == res.info && out.results@.len() == res.results@.len()
                        && forall|i: int|
                        0 <= i < out.results@.len() ==> (#[trigger] out.results@[i]).gender@
                            == reconciled(self.filter(), draws@[i]) && same_but_gender(
                            out.results@[i],
                            res.results@[i],
                        ),
                    _ => false,
                },
            },
    {
        match rsp {
            RandomUserResponse::Error(m) => Err(RandomUserError::Api(m)),
            RandomUserResponse::Result(res) => Ok(self.reconcile(res, draws)),
        }
    }

    /// Reads the service's answer from its content type (`None` where the
    /// header was absent or unreadable) and its body. Plain text is an error
    /// message; JSON is read as an answer; anything else is refused.
    pub fn parse_response(content_type: Option<&str>, body: &str) -> (r: Result<
        RandomUserResponse,
        RandomUserError,
    >)
        ensures
            match content_type {
                None => r matches Err(RandomUserError::BadFormat),
                Some(ct) => if has_text(ct@, "text/plain"@) {
                    match r {
                        Ok(RandomUserResponse::Error(m)) => m@ == body@,
                        _ => false,
                    }
                } else if has_text(ct@, "application/json"@) {
                    match parsed_json(body@) {
                        Some(j) => match r {
                            Ok(v) => response_from(j, v),
                            Err(e) => e is BadFormat && forall|v: RandomUserResponse|
                                !#[trigger] response_from(j, v),
                        },
                        None => r matches Err(RandomUserError::BadFormat),
                    }
                } else {
                    r matches Err(RandomUserError::BadFormat)
                },
            },
    {
        let ct = match content_type {
            Some(ct) => ct,
            None => return Err(RandomUserError::BadFormat),
        };
        if contains_text(ct, "text/plain") {
            Ok(RandomUserResponse::Error(body.to_string()))
        } else if contains_text(ct, "application/json") {
            match parse_json(body) {
                Some(j) => match decode_response(&j) {
                    Some(v) => Ok(v),
                    None => Err(RandomUserError::BadFormat),
                },
                None => Err(RandomUserError::BadFormat),
            }
        } else {
            Err(RandomUserError::BadFormat)
        }
    }
}

} // verus!
