use vstd::prelude::*;
use vstd::string::*;

verus! {

/// A country whose conventions the service can follow when it generates a
/// record. Each variant has one two-letter wire code.
#[derive(Debug, Clone, Copy, PartialEq, Eq, Structural)]
pub enum Nationality {
    Australian,
    Brazilian,
    Canadian,
    Swiss,
    German,
    Danish,
    Spanish,
    Finnish,
    French,
    British,
    Irish,
    Indian,
    Iranian,
    Mexican,
    Dutch,
    Norwegian,
    NewZealander,
    Serbian,
    Turkish,
    Ukrainian,
    American,
}

impl Nationality {
    /// The two letters of the wire code.
    #[verifier::opaque]
    pub open spec fn letters(self) -> (char, char) {
        match self {
            Nationality::Australian => ('A', 'U'),
            Nationality::Brazilian => ('B', 'R'),
            Nationality::Canadian => ('C', 'A'),
            Nationality::Swiss => ('C', 'H'),
            Nationality::German => ('D', 'E'),
            Nationality::Danish => ('D', 'K'),
            Nationality::Spanish => ('E', 'S'),
            Nationality::Finnish => ('F', 'I'),
            Nationality::French => ('F', 'R'),
            Nationality::British => ('G', 'B'),
            Nationality::Irish => ('I', 'E'),
            Nationality::Indian => ('I', 'N'),
            Nationality::Iranian => ('I', 'R'),
            Nationality::Mexican => ('M', 'X'),
            Nationality::Dutch => ('N', 'L'),
            Nationality::Norwegian => ('N', 'O'),
            Nationality::NewZealander => ('N', 'Z'),
            Nationality::Serbian => ('R', 'S'),
            Nationality::Turkish => ('T', 'R'),
            Nationality::Ukrainian => ('U', 'A'),
            Nationality::American => ('U', 'S'),
        }
    }

    /// The wire code of the nationality.
    pub open spec fn code(self) -> Seq<char> {
        seq![self.letters().0, self.letters().1]
    }

    /// The nationality whose wire code is the two letters `a` and `b`.
    pub open spec fn of_letters(a: char, b: char) -> Option<Nationality> {
        match (a, b) {
            ('A', 'U') => Some(Nationality::Australian),
            ('B', 'R') => Some(Nationality::Brazilian),
            ('C', 'A') => Some(Nationality::Canadian),
            ('C', 'H') => Some(Nationality::Swiss),
            ('D', 'E') => Some(Nationality::German),
            ('D', 'K') => Some(Nationality::Danish),
            ('E', 'S') => Some(Nationality::Spanish),
            ('F', 'I') => Some(Nationality::Finnish),
            ('F', 'R') => Some(Nationality::French),
            ('G', 'B') => Some(Nationality::British),
            ('I', 'E') => Some(Nationality::Irish),
            ('I', 'N') => Some(Nationality::Indian),
            ('I', 'R') => Some(Nationality::Iranian),
            ('M', 'X') => Some(Nationality::Mexican),
            ('N', 'L') => Some(Nationality::Dutch),
            ('N', 'O') => Some(Nationality::Norwegian),
            ('N', 'Z') => Some(Nationality::NewZealander),
            ('R', 'S') => Some(Nationality::Serbian),
            ('T', 'R') => Some(Nationality::Turkish),
            ('U', 'A') => Some(Nationality::Ukrainian),
            ('U', 'S') => Some(Nationality::American),
            _ => None,
        }
    }

    /// The nationality whose wire code is `s`, if any.
    pub open spec fn of_code(s: Seq<char>) -> Option<Nationality> {
        if s.len() == 2 {
            Nationality::of_letters(s[0], s[1])
        } else {
            None
        }
    }

    /// The wire code of the nationality, as the service writes it.
    pub fn wire_code(&self) -> (r: &'static str)
        ensures
            r@ == self.code(),
    {
        proof {
            reveal(Nationality::letters);
            reveal_strlit("AU");
            reveal_strlit("BR");
            reveal_strlit("CA");
            reveal_strlit("CH");
            reveal_strlit("DE");
            reveal_strlit("DK");
            reveal_strlit("ES");
            reveal_strlit("FI");
            reveal_strlit("FR");
            reveal_strlit("GB");
            reveal_strlit("IE");
            reveal_strlit("IN");
            reveal_strlit("IR");
            reveal_strlit("MX");
            reveal_strlit("NL");
            reveal_strlit("NO");
            reveal_strlit("NZ");
            reveal_strlit("RS");
            reveal_strlit("TR");
            reveal_strlit("UA");
            reveal_strlit("US");
        }
        let r = match self {
            Nationality::Australian => "AU",
            Nationality::Brazilian => "BR",
            Nationality::Canadian => "CA",
            Nationality::Swiss => "CH",
            Nationality::German => "DE",
            Nationality::Danish => "DK",
            Nationality::Spanish => "ES",
            Nationality::Finnish => "FI",
            Nationality::French => "FR",
            Nationality::British => "GB",
            Nationality::Irish => "IE",
            Nationality::Indian => "IN",
            Nationality::Iranian => "IR",
            Nationality::Mexican => "MX",
            Nationality::Dutch => "NL",
            Nationality::Norwegian => "NO",
            Nationality::NewZealander => "NZ",
            Nationality::Serbian => "RS",
            Nationality::Turkish => "TR",
            Nationality::Ukrainian => "UA",
            Nationality::American => "US",
        };
        assert(r@ =~= self.code());
        r
    }

    /// Reads a wire code; `None` where it names no nationality.
    pub fn from_wire_code(s: &str) -> (r: Option<Nationality>)
        ensures
            r == Nationality::of_code(s@),
    {
        if s.unicode_len() != 2 {
            return None;
        }
        let a = s.get_char(0);
        let b = s.get_char(1);
        match (a, b) {
            ('A', 'U') => Some(Nationality::Australian),
            ('B', 'R') => Some(Nationality::Brazilian),
            ('C', 'A') => Some(Nationality::Canadian),
            ('C', 'H') => Some(Nationality::Swiss),
            ('D', 'E') => Some(Nationality::German),
            ('D', 'K') => Some(Nationality::Danish),
            ('E', 'S') => Some(Nationality::Spanish),
            ('F', 'I') => Some(Nationality::Finnish),
            ('F', 'R') => Some(Nationality::French),
            ('G', 'B') => Some(Nationality::British),
            ('I', 'E') => Some(Nationality::Irish),
            ('I', 'N') => Some(Nationality::Indian),
            ('I', 'R') => Some(Nationality::Iranian),
            ('M', 'X') => Some(Nationality::Mexican),
            ('N', 'L') => Some(Nationality::Dutch),
            ('N', 'O') => Some(Nationality::Norwegian),
            ('N', 'Z') => Some(Nationality::NewZealander),
            ('R', 'S') => Some(Nationality::Serbian),
            ('T', 'R') => Some(Nationality::Turkish),
            ('U', 'A') => Some(Nationality::Ukrainian),
            ('U', 'S') => Some(Nationality::American),
            _ => None,
        }
    }
}

/// Reading back the wire code of a nationality gives that nationality, and
/// no two nationalities share a wire code.
pub proof fn lemma_wire_code_round_trip(n: Nationality)
    ensures
        Nationality::of_code(n.code()) == Some(n),
        forall|m: Nationality| m.code() == n.code() ==> m == n,
{
    reveal(Nationality::letters);
    assert forall|m: Nationality| m.code() == n.code() implies m == n by {
        assert(m.code()[0] == n.code()[0] && m.code()[1] == n.code()[1]);
    }
}

} // verus!
