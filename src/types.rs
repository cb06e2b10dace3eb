use crate::nationality::Nationality;
use vstd::prelude::*;

verus! {

/// One gender self-identification.
#[derive(Debug, Clone, Copy, PartialEq, Eq, Structural)]
pub enum GenderOption {
    Female,
    Male,
    NonBinary,
    Queer,
    Agender,
    Other,
    Unspecified,
}

/// The number of variants of [`GenderOption`].
pub const GENDER_OPTION_COUNT: u64 = 7;

impl GenderOption {
    /// The variant at position `k` in declaration order.
    pub open spec fn at(k: nat) -> GenderOption {
        if k == 0 {
            GenderOption::Female
        } else if k == 1 {
            GenderOption::Male
        } else if k == 2 {
            GenderOption::NonBinary
        } else if k == 3 {
            GenderOption::Queer
        } else if k == 4 {
            GenderOption::Agender
        } else if k == 5 {
            GenderOption::Other
        } else {
            GenderOption::Unspecified
        }
    }

    /// The variant at position `k` in declaration order; `k` must name one.
    pub fn from_index(k: u64) -> (r: GenderOption)
        requires
            k < GENDER_OPTION_COUNT,
        ensures
            r == GenderOption::at(k as nat),
    {
        if k == 0 {
            GenderOption::Female
        } else if k == 1 {
            GenderOption::Male
        } else if k == 2 {
            GenderOption::NonBinary
        } else if k == 3 {
            GenderOption::Queer
        } else if k == 4 {
            GenderOption::Agender
        } else if k == 5 {
            GenderOption::Other
        } else {
            GenderOption::Unspecified
        }
    }
}

/// The gender identity of a person: the set of identifications they gave
/// (empty when they gave none, which is meaningful, not missing data) and
/// whether they are transgender, where they said so.
#[derive(Debug, Clone, PartialEq, Eq)]
pub struct Gender {
    genders: Vec<GenderOption>,
    is_trans: Option<bool>,
}

impl View for Gender {
    type V = (Seq<GenderOption>, Option<bool>);

    closed spec fn view(&self) -> (Seq<GenderOption>, Option<bool>) {
        (self.genders@, self.is_trans)
    }
}

/// Copies a list of options, one by one.
fn copy_options(v: &Vec<GenderOption>) -> (r: Vec<GenderOption>)
    ensures
        r@ == v@,
{
    let mut out: Vec<GenderOption> = Vec::new();
    let mut i: usize = 0;
    while i < v.len()
        invariant
            i <= v@.len(),
            out@ == v@.subrange(0, i as int),
        decreases v@.len() - i,
    {
        out.push(v[i]);
        i = i + 1;
        assert(out@ =~= v@.subrange(0, i as int));
    }
    assert(out@ =~= v@);
    out
}

/// The items of `s`, each kept at its first occurrence only.
pub open spec fn first_occurrences(s: Seq<GenderOption>) -> Seq<GenderOption>
    decreases s.len(),
{
    if s.len() == 0 {
        Seq::empty()
    } else {
        let p = first_occurrences(s.drop_last());
        if p.contains(s.last()) {
            p
        } else {
            p.push(s.last())
        }
    }
}

impl Gender {
    /// No identification is listed twice.
    pub open spec fn wf(&self) -> bool {
        self@.0.no_duplicates()
    }

    /// The gender with the identifications of `genders`, each listed once in
    /// the order of its first occurrence.
    pub fn new(genders: Vec<GenderOption>, is_trans: Option<bool>) -> (r: Gender)
        ensures
            r.wf(),
            r@.0 == first_occurrences(genders@),
            forall|o: GenderOption| r@.0.contains(o) == genders@.contains(o),
            r@.1 == is_trans,
    {
        let mut out: Vec<GenderOption> = Vec::new();
        let mut i: usize = 0;
        while i < genders.len()
            invariant
                i <= genders@.len(),
                out@.no_duplicates(),
                out@ == first_occurrences(genders@.subrange(0, i as int)),
                forall|o: GenderOption| out@.contains(o) == genders@.subrange(0, i as int).contains(o),
            decreases genders@.len() - i,
        {
            let g = genders[i];
            let mut seen = false;
            let mut k: usize = 0;
            while k < out.len()
                invariant
                    k <= out@.len(),
                    seen == exists|j: int| 0 <= j < k && out@[j] == g,
                decreases out@.len() - k,
            {
                if out[k] == g {
                    seen = true;
                }
                k = k + 1;
            }
            let ghost before = genders@.subrange(0, i as int);
            let ghost out_before = out@;
            if !seen {
                out.push(g);
            }
            i = i + 1;
            proof {
                assert(genders@.subrange(0, i as int) =~= before.push(g));
                assert(before.push(g).drop_last() =~= before);
                if seen {
                    let j = choose|j: int| 0 <= j < k && out@[j] == g;
                    assert(out_before.contains(g));
                } else {
                    assert(!out_before.contains(g));
                }
                assert forall|o: GenderOption| out@.contains(o) == genders@.subrange(0, i as int).contains(o) by {
                    if o == g {
                        assert(before.push(g)[before.len() as int] == g);
                        if seen {
                            let j = choose|j: int| 0 <= j < k && out@[j] == g;
                            assert(out@[j] == g);
                        } else {
                            assert(out@[out@.len() - 1] == g);
                        }
                    } else {
                        if before.push(g).contains(o) {
                            let j = choose|j: int| 0 <= j < before.push(g).len() && before.push(g)[j] == o;
                            assert(before[j] == o);
                            assert(out_before.contains(o));
                            let m = choose|m: int| 0 <= m < out_before.len() && out_before[m] == o;
                            assert(out@[m] == o);
                        }
                        if out@.contains(o) {
                            let j = choose|j: int| 0 <= j < out@.len() && out@[j] == o;
                            if !seen && j == out_before.len() {
                                assert(out@[j] == g);
                            }
                            assert(out_before[j] == o);
                            assert(out_before.contains(o));
                            assert(before.contains(o));
                            let m = choose|m: int| 0 <= m < before.len() && before[m] == o;
                            assert(before.push(g)[m] == o);
                        }
                    }
                }
            }
        }
        assert(genders@.subrange(0, genders@.len() as int) =~= genders@);
        Gender { genders: out, is_trans }
    }

    /// A gender with no identification and no transgender answer.
    pub fn unspecified() -> (r: Gender)
        ensures
            r@ == (Seq::<GenderOption>::empty(), Option::<bool>::None),
            r.wf(),
    {
        let r = Gender { genders: Vec::new(), is_trans: Option::None };
        assert(r@.0 =~= Seq::<GenderOption>::empty());
        r
    }

    /// The gender that the random number `draw` picks: the one
    /// identification at position `draw % 7` of [`GenderOption`], with no
    /// transgender answer.
    pub open spec fn drawn(draw: u64) -> (Seq<GenderOption>, Option<bool>) {
        (seq![GenderOption::at((draw % GENDER_OPTION_COUNT) as nat)], Option::<bool>::None)
    }

    /// The gender that the random number `draw` picks.
    pub fn random_gender(draw: u64) -> (r: Gender)
        ensures
            r@ == Gender::drawn(draw),
            r.wf(),
    {
        let mut genders: Vec<GenderOption> = Vec::new();
        genders.push(GenderOption::from_index(draw % GENDER_OPTION_COUNT));
        let r = Gender { genders, is_trans: Option::None };
        assert(r@.0 =~= seq![GenderOption::at((draw % GENDER_OPTION_COUNT) as nat)]);
        r
    }

    /// The identifications.
    pub fn genders(&self) -> (r: &Vec<GenderOption>)
        ensures
            r@ == self@.0,
    {
        &self.genders
    }

    /// Whether the person is transgender, where they said so.
    pub fn is_trans(&self) -> (r: Option<bool>)
        ensures
            r == self@.1,
    {
        self.is_trans
    }

    /// A copy with the same identifications and answer.
    pub fn copy(&self) -> (r: Gender)
        ensures
            r@ == self@,
    {
        Gender { genders: copy_options(&self.genders), is_trans: self.is_trans }
    }
}

/// The name of a person.
#[derive(Debug, Clone, PartialEq, Eq)]
pub struct Name {
    pub title: String,
    pub first: String,
    pub last: String,
}

/// A street address.
#[derive(Debug, Clone, PartialEq, Eq)]
pub struct Street {
    pub number: i32,
    pub name: String,
}

/// A position on the globe, as the service writes it.
#[derive(Debug, Clone, PartialEq, Eq)]
pub struct Coordinates {
    pub latitude: String,
    pub longitude: String,
}

/// A time zone: its offset from UTC and a description.
#[derive(Debug, Clone, PartialEq, Eq)]
pub struct Timezone {
    pub offset: String,
    pub description: String,
}

/// Where a person lives. The postcode is always text, whether the service
/// sent it as text or as a number.
#[derive(Debug, Clone, PartialEq, Eq)]
pub struct Location {
    pub street: Street,
    pub city: String,
    pub state: String,
    pub country: String,
    pub postcode: String,
    pub coordinates: Coordinates,
    pub timezone: Timezone,
}

/// Credentials of a person; the digests are kept as the service wrote them.
#[derive(Debug, Clone, PartialEq, Eq)]
pub struct Login {
    pub uuid: String,
    pub username: String,
    pub password: String,
    pub salt: String,
    pub md5: String,
    pub sha1: String,
    pub sha256: String,
}

/// An instant in UTC: whole seconds since 1970-01-01T00:00:00Z and the
/// nanoseconds past that second.
#[derive(Debug, Clone, Copy, PartialEq, Eq, Structural)]
pub struct Timestamp {
    pub seconds: i64,
    pub nanos: u32,
}

/// A date together with the number of years since it.
#[derive(Debug, Clone, PartialEq, Eq)]
pub struct RandomDate {
    pub date: Timestamp,
    pub age: i32,
}

/// An identifier: its name, and its value where there is one.
#[derive(Debug, Clone, PartialEq, Eq)]
pub struct Identity {
    pub name: String,
    pub value: Option<String>,
}

/// Addresses of a portrait at three sizes.
#[derive(Debug, Clone, PartialEq, Eq)]
pub struct Picture {
    pub large: String,
    pub medium: String,
    pub thumbnail: String,
}

/// One generated person.
#[derive(Debug, Clone, PartialEq, Eq)]
pub struct RandomUser {
    pub gender: Gender,
    pub name: Name,
    pub location: Location,
    pub email: String,
    pub login: Login,
    pub birthday: RandomDate,
    pub registered: RandomDate,
    pub phone: String,
    pub cell: String,
    pub id: Identity,
    pub picture: Picture,
    pub nationality: Nationality,
}

/// What the service says of a batch: its seed, size, page and version.
#[derive(Debug, Clone, PartialEq, Eq)]
pub struct RandomUserInfo {
    pub seed: String,
    pub results: i32,
    pub page: i32,
    pub version: String,
}

/// A batch of generated people, in the order the service sent them.
#[derive(Debug, Clone, PartialEq, Eq)]
pub struct RandomUserResult {
    pub results: Vec<RandomUser>,
    pub info: RandomUserInfo,
}

/// The service's answer: an error message, or a batch.
#[derive(Debug, Clone, PartialEq, Eq)]
pub enum RandomUserResponse {
    Error(String),
    Result(RandomUserResult),
}

} // verus!
