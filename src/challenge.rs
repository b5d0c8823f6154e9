use vstd::prelude::*;
use vstd::string::*;
use crate::text::{str_equals, LogSafeDisplay};

verus! {

/// A way in which a rate-limit challenge can be solved.
#[derive(Copy, Clone, Debug, PartialEq, Eq, Structural, Hash)]
pub enum ChallengeOption {
    PushChallenge,
    Captcha,
}

/// The stable wire name of an option, in lower camel case.
pub open spec fn wire_name(o: ChallengeOption) -> Seq<char> {
    match o {
        ChallengeOption::PushChallenge => "pushChallenge"@,
        ChallengeOption::Captcha => "captcha"@,
    }
}

/// The option whose wire name is exactly `s`, if any.
pub open spec fn parse_wire_name(s: Seq<char>) -> Option<ChallengeOption> {
    if s == wire_name(ChallengeOption::PushChallenge) {
        Some(ChallengeOption::PushChallenge)
    } else if s == wire_name(ChallengeOption::Captcha) {
        Some(ChallengeOption::Captcha)
    } else {
        None
    }
}

impl ChallengeOption {
    /// The wire name of this option.
    pub fn as_str(&self) -> (r: &'static str)
        ensures
            r@ == wire_name(*self),
    {
        match self {
            ChallengeOption::PushChallenge => "pushChallenge",
            ChallengeOption::Captcha => "captcha",
        }
    }

    /// Reads an option back from its wire name; the match is exact and case-sensitive.
    pub fn parse(s: &str) -> (r: Option<ChallengeOption>)
        ensures
            r == parse_wire_name(s@),
    {
        if str_equals(s, "pushChallenge") {
            Some(ChallengeOption::PushChallenge)
        } else if str_equals(s, "captcha") {
            Some(ChallengeOption::Captcha)
        } else {
            None
        }
    }

    /// Every option, in declaration order.
    pub fn all() -> (r: Vec<ChallengeOption>)
        ensures
            r@ == seq![ChallengeOption::PushChallenge, ChallengeOption::Captcha],
    {
        vec![ChallengeOption::PushChallenge, ChallengeOption::Captcha]
    }
}

/// A string that is the wire name of no option.
#[derive(Clone, Copy, Debug, PartialEq, Eq)]
pub struct UnknownChallengeOption;

impl std::str::FromStr for ChallengeOption {
    type Err = UnknownChallengeOption;

    fn from_str(s: &str) -> (r: Result<ChallengeOption, UnknownChallengeOption>)
        ensures
            r == match parse_wire_name(s@) {
                Some(o) => Ok(o),
                None => Err(UnknownChallengeOption),
            },
    {
        match ChallengeOption::parse(s) {
            Some(o) => Ok(o),
            None => Err(UnknownChallengeOption),
        }
    }
}

/// Reading the wire name of an option back gives the option itself, and the two options
/// have the wire names `pushChallenge` and `captcha`.
pub proof fn lemma_wire_name_round_trip(o: ChallengeOption)
    ensures
        parse_wire_name(wire_name(o)) == Some(o),
        wire_name(ChallengeOption::PushChallenge) == "pushChallenge"@,
        wire_name(ChallengeOption::Captcha) == "captcha"@,
{
    reveal_strlit("pushChallenge");
    reveal_strlit("captcha");
    assert(wire_name(ChallengeOption::PushChallenge)[0] != wire_name(ChallengeOption::Captcha)[0]);
}

/// The name of an option as it appears in debug output.
pub open spec fn debug_name(o: ChallengeOption) -> Seq<char> {
    match o {
        ChallengeOption::PushChallenge => "PushChallenge"@,
        ChallengeOption::Captcha => "Captcha"@,
    }
}

/// The debug names of `s`, separated by `", "`.
pub open spec fn joined_debug_names(s: Seq<ChallengeOption>) -> Seq<char>
    decreases s.len(),
{
    if s.len() == 0 {
        Seq::empty()
    } else if s.len() == 1 {
        debug_name(s[0])
    } else {
        joined_debug_names(s.drop_last()) + ", "@ + debug_name(s.last())
    }
}

/// The debug form of a list of options: `[PushChallenge, Captcha]`.
pub open spec fn debug_list(s: Seq<ChallengeOption>) -> Seq<char> {
    "["@ + joined_debug_names(s) + "]"@
}

/// The log text of a challenge: the options on offer, never the token.
pub open spec fn challenge_text(options: Seq<ChallengeOption>) -> Seq<char> {
    "retry after completing a rate limit challenge "@ + debug_list(options)
}

/// A challenge issued by the server that must be solved before a rate-limited request
/// can succeed.
#[derive(Debug, PartialEq, Eq)]
pub struct RateLimitChallenge {
    pub token: String,
    pub options: Vec<ChallengeOption>,
}

fn debug_name_str(o: ChallengeOption) -> (r: &'static str)
    ensures
        r@ == debug_name(o),
{
    match o {
        ChallengeOption::PushChallenge => "PushChallenge",
        ChallengeOption::Captcha => "Captcha",
    }
}

/// Writes `options` in debug form.
pub fn debug_list_string(options: &Vec<ChallengeOption>) -> (r: String)
    ensures
        r@ == debug_list(options@),
{
    let mut r = String::from_str("[");
    let mut i: usize = 0;
    while i < options.len()
        invariant
            i <= options@.len(),
            r@ == "["@ + joined_debug_names(options@.subrange(0, i as int)),
        decreases options@.len() - i,
    {
        let ghost prefix = options@.subrange(0, i as int);
        let ghost next = options@.subrange(0, i + 1);
        assert(next.drop_last() == prefix);
        assert(next.last() == options@[i as int]);
        if i > 0 {
            r.append(", ");
        }
        r.append(debug_name_str(options[i]));
        proof {
            if i == 0 {
                assert(next.len() == 1);
            }
            assert(r@ == "["@ + joined_debug_names(next));
        }
        i = i + 1;
    }
    assert(options@.subrange(0, options@.len() as int) == options@);
    r.append("]");
    r
}

impl LogSafeDisplay for RateLimitChallenge {
    open spec fn log_text(&self) -> Seq<char> {
        challenge_text(self.options@)
    }

    fn to_log_string(&self) -> (r: String) {
        let list = debug_list_string(&self.options);
        String::from_str("retry after completing a rate limit challenge ").concat(list.as_str())
    }
}

} // verus!
