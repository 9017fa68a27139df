use vstd::prelude::*;
use vstd::string::StrSliceExecFns;
use vstd::string::StringExecFns;

use crate::strutil::str_eq;

verus! {

/// A permission tag requested during authorization, limiting what data the
/// issued token can access. Each tag has a fixed lowercase dotted wire form.
#[derive(Debug, Clone, Copy, PartialEq, Eq, Structural)]
pub enum Scope {
    UserInfo,
    UserMetrics,
    UserActivity,
    UserSleepEvents,
}

impl Scope {
    /// The wire form of this tag.
    pub open spec fn wire_spec(self) -> Seq<char> {
        match self {
            Scope::UserInfo => "user.info"@,
            Scope::UserMetrics => "user.metrics"@,
            Scope::UserActivity => "user.activity"@,
            Scope::UserSleepEvents => "user.sleepevents"@,
        }
    }

    /// Serializes this tag to its wire string.
    pub fn as_wire_str(&self) -> (r: &'static str)
        ensures
            r@ == self.wire_spec(),
    {
        match self {
            Scope::UserInfo => "user.info",
            Scope::UserMetrics => "user.metrics",
            Scope::UserActivity => "user.activity",
            Scope::UserSleepEvents => "user.sleepevents",
        }
    }

    /// Parses a wire string; an unrecognized string yields `None`.
    pub fn from_wire(s: &str) -> (r: Option<Scope>)
        ensures
            r == scope_from_wire(s@),
    {
        if str_eq(s, "user.info") {
            Some(Scope::UserInfo)
        } else if str_eq(s, "user.metrics") {
            Some(Scope::UserMetrics)
        } else if str_eq(s, "user.activity") {
            Some(Scope::UserActivity)
        } else if str_eq(s, "user.sleepevents") {
            Some(Scope::UserSleepEvents)
        } else {
            None
        }
    }
}

/// The tag whose wire form is `s`, if any.
pub open spec fn scope_from_wire(s: Seq<char>) -> Option<Scope> {
    if s == "user.info"@ {
        Some(Scope::UserInfo)
    } else if s == "user.metrics"@ {
        Some(Scope::UserMetrics)
    } else if s == "user.activity"@ {
        Some(Scope::UserActivity)
    } else if s == "user.sleepevents"@ {
        Some(Scope::UserSleepEvents)
    } else {
        None
    }
}

/// Serializing any tag and parsing the result yields the tag back.
pub proof fn lemma_scope_wire_round_trip(s: Scope)
    ensures
        scope_from_wire(s.wire_spec()) == Some(s),
{
    reveal_strlit("user.info");
    reveal_strlit("user.metrics");
    reveal_strlit("user.activity");
    reveal_strlit("user.sleepevents");
    // the four wire forms have pairwise distinct lengths
    assert("user.info"@.len() == 9);
    assert("user.metrics"@.len() == 12);
    assert("user.activity"@.len() == 13);
    assert("user.sleepevents"@.len() == 16);
    match s {
        Scope::UserInfo => {
            assert(scope_from_wire("user.info"@) == Some(Scope::UserInfo));
        },
        Scope::UserMetrics => {
            assert("user.metrics"@ != "user.info"@);
            assert(scope_from_wire("user.metrics"@) == Some(Scope::UserMetrics));
        },
        Scope::UserActivity => {
            assert("user.activity"@ != "user.info"@);
            assert("user.activity"@ != "user.metrics"@);
            assert(scope_from_wire("user.activity"@) == Some(Scope::UserActivity));
        },
        Scope::UserSleepEvents => {
            assert("user.sleepevents"@ != "user.info"@);
            assert("user.sleepevents"@ != "user.metrics"@);
            assert("user.sleepevents"@ != "user.activity"@);
            assert(scope_from_wire("user.sleepevents"@) == Some(Scope::UserSleepEvents));
        },
    }
}

/// The comma-joined wire form of a list of tags.
pub open spec fn scopes_wire(scopes: Seq<Scope>) -> Seq<char>
    decreases scopes.len(),
{
    if scopes.len() == 0 {
        Seq::<char>::empty()
    } else if scopes.len() == 1 {
        scopes[0].wire_spec()
    } else {
        scopes_wire(scopes.drop_last()) + seq![','] + scopes.last().wire_spec()
    }
}

/// Joins the wire forms of `scopes` with commas.
pub fn scopes_to_wire(scopes: &Vec<Scope>) -> (r: String)
    ensures
        r@ == scopes_wire(scopes@),
{
    let mut s = String::new();
    let mut i: usize = 0;
    while i < scopes.len()
        invariant
            i <= scopes@.len(),
            s@ == scopes_wire(scopes@.take(i as int)),
        decreases scopes@.len() - i,
    {
        if i > 0 {
            s.append(",");
        }
        s.append(scopes[i].as_wire_str());
        proof {
            reveal_strlit(",");
            let pre = scopes@.take(i as int);
            let cur = scopes@.take(i as int + 1);
            assert(cur.drop_last() =~= pre);
            assert(cur.last() == scopes@[i as int]);
            if i == 0 {
                assert(s@ =~= scopes_wire(cur));
            } else {
                assert(","@ =~= seq![',']);
                assert(s@ =~= scopes_wire(cur));
            }
        }
        i += 1;
    }
    proof {
        assert(scopes@.take(scopes@.len() as int) =~= scopes@);
    }
    s
}

/// The index of the first comma in `s`, or `s.len()` if there is none.
pub open spec fn first_comma(s: Seq<char>) -> nat
    decreases s.len(),
{
    if s.len() == 0 {
        0
    } else if s[0] == ',' {
        0
    } else {
        first_comma(s.drop_first()) + 1
    }
}

pub proof fn lemma_first_comma(s: Seq<char>)
    ensures
        first_comma(s) <= s.len(),
        first_comma(s) < s.len() ==> s[first_comma(s) as int] == ',',
        forall|j: int| 0 <= j < first_comma(s) ==> s[j] != ',',
    decreases s.len(),
{
    if s.len() == 0 {
    } else if s[0] == ',' {
    } else {
        lemma_first_comma(s.drop_first());
        let t = s.drop_first();
        assert forall|j: int| 0 <= j < first_comma(s) implies s[j] != ',' by {
            if j > 0 {
                assert(t[j - 1] != ',');
                assert(s[j] == t[j - 1]);
            }
        }
    }
}

/// The first comma sits exactly where no comma comes before it and either
/// the string ends or a comma stands.
pub proof fn lemma_first_comma_is(s: Seq<char>, i: int)
    requires
        0 <= i <= s.len(),
        forall|j: int| 0 <= j < i ==> s[j] != ',',
        i < s.len() ==> s[i] == ',',
    ensures
        first_comma(s) == i,
{
    lemma_first_comma(s);
    if first_comma(s) < i {
        assert(s[first_comma(s) as int] == ',');
        assert(false);
    }
    if first_comma(s) > i {
        assert(i < s.len());
        assert(s[i] != ',');
        assert(false);
    }
}

/// No wire form contains a comma, so the joined list splits back apart.
pub proof fn lemma_wire_no_comma(s: Scope)
    ensures
        forall|j: int| 0 <= j < s.wire_spec().len() ==> s.wire_spec()[j] != ',',
{
    reveal_strlit("user.info");
    reveal_strlit("user.metrics");
    reveal_strlit("user.activity");
    reveal_strlit("user.sleepevents");
}

/// The drop-last join of two or more tags also unfolds at the front: the
/// first wire form, a comma, then the join of the rest.
pub proof fn lemma_scopes_wire_unfold(scopes: Seq<Scope>)
    requires
        scopes.len() >= 2,
    ensures
        scopes_wire(scopes) == scopes[0].wire_spec() + seq![','] + scopes_wire(
            scopes.drop_first(),
        ),
    decreases scopes.len(),
{
    if scopes.len() == 2 {
        assert(scopes_wire(scopes) == scopes_wire(scopes.drop_last()) + seq![',']
            + scopes.last().wire_spec());
        assert(scopes.drop_last() =~= seq![scopes[0]]);
        assert(scopes_wire(seq![scopes[0]]) == scopes[0].wire_spec());
        assert(scopes.drop_first() =~= seq![scopes[1]]);
        assert(scopes_wire(seq![scopes[1]]) == scopes[1].wire_spec());
        assert(scopes.last() == scopes[1]);
        assert(scopes_wire(scopes) =~= scopes[0].wire_spec() + seq![','] + scopes_wire(
            scopes.drop_first(),
        ));
    } else {
        let dl = scopes.drop_last();
        let df = scopes.drop_first();
        let c = seq![','];
        lemma_scopes_wire_unfold(dl);
        assert(scopes_wire(scopes) == scopes_wire(dl) + c + scopes.last().wire_spec());
        assert(scopes_wire(dl) == dl[0].wire_spec() + c + scopes_wire(dl.drop_first()));
        assert(df.len() >= 2);
        assert(scopes_wire(df) == scopes_wire(df.drop_last()) + c + df.last().wire_spec());
        assert(df.drop_last() =~= dl.drop_first());
        assert(scopes_wire(df.drop_last()) == scopes_wire(dl.drop_first()));
        assert(df.last() == scopes.last());
        assert(dl[0] == scopes[0]);
        assert(scopes_wire(scopes) =~= scopes[0].wire_spec() + c + scopes_wire(df));
    }
}

/// Joining any non-empty list of tags with commas and parsing the result
/// yields the same list back: the scope string the authorize-URL builder
/// writes is exactly what the token decoder reads.
pub proof fn lemma_scopes_wire_round_trip(scopes: Seq<Scope>)
    requires
        scopes.len() > 0,
    ensures
        parse_scopes_wire(scopes_wire(scopes)) == Some(scopes),
    decreases scopes.len(),
{
    if scopes.len() == 1 {
        let w = scopes_wire(scopes);
        lemma_wire_no_comma(scopes[0]);
        lemma_first_comma_is(w, w.len() as int);
        lemma_scope_wire_round_trip(scopes[0]);
        assert(seq![scopes[0]] =~= scopes);
    } else {
        lemma_scopes_wire_unfold(scopes);
        let a = scopes[0].wire_spec();
        let rest = scopes_wire(scopes.drop_first());
        let w = a + seq![','] + rest;
        lemma_wire_no_comma(scopes[0]);
        assert(forall|j: int| 0 <= j < a.len() ==> w[j] == a[j]);
        lemma_first_comma_is(w, a.len() as int);
        assert(w.take(a.len() as int) =~= a);
        lemma_scope_wire_round_trip(scopes[0]);
        assert(w.skip(a.len() as int + 1) =~= rest);
        lemma_scopes_wire_round_trip(scopes.drop_first());
        assert(parse_scopes_wire(w) == Some(seq![scopes[0]] + scopes.drop_first()));
        assert(seq![scopes[0]] + scopes.drop_first() =~= scopes);
    }
}

/// The tags parsed from comma-separated `s`; `None` as soon as one piece is
/// not a recognized wire form. An empty string is one (unrecognized) piece.
pub open spec fn parse_scopes_wire(s: Seq<char>) -> Option<Seq<Scope>>
    decreases s.len(),
{
    let i = first_comma(s) as int;
    if i >= s.len() {
        match scope_from_wire(s) {
            Some(sc) => Some(seq![sc]),
            None => None,
        }
    } else {
        match scope_from_wire(s.take(i)) {
            Some(sc) => match parse_scopes_wire(s.skip(i + 1)) {
                Some(rest) => Some(seq![sc] + rest),
                None => None,
            },
            None => None,
        }
    }
}

/// Splits `s` on commas and parses each piece as a tag.
pub fn parse_scopes(s: &str) -> (r: Option<Vec<Scope>>)
    ensures
        (match r {
            Some(v) => parse_scopes_wire(s@) == Some(v@),
            None => parse_scopes_wire(s@) is None,
        }),
    decreases s@.len(),
{
    let n = s.unicode_len();
    let mut i: usize = 0;
    while i < n && s.get_char(i) != ','
        invariant
            i <= n,
            n == s@.len(),
            forall|j: int| 0 <= j < i ==> s@[j] != ',',
        decreases n - i,
    {
        i += 1;
    }
    proof {
        // the loop stopped exactly at the first comma, or at the end
        lemma_first_comma_is(s@, i as int);
    }
    if i == n {
        match Scope::from_wire(s) {
            Some(sc) => Some(vec![sc]),
            None => None,
        }
    } else {
        let head = s.substring_char(0, i);
        proof {
            assert(head@ =~= s@.take(i as int));
        }
        match Scope::from_wire(head) {
            Some(sc) => {
                let rest = s.substring_char(i + 1, n);
                proof {
                    assert(rest@ =~= s@.skip(i as int + 1));
                }
                match parse_scopes(rest) {
                    Some(mut v) => {
                        v.insert(0, sc);
                        proof {
                            assert(v@ =~= seq![sc] + parse_scopes_wire(rest@).unwrap());
                        }
                        Some(v)
                    },
                    None => None,
                }
            },
            None => None,
        }
    }
}

} // verus!
