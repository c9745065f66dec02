use vstd::prelude::*;
use vstd::string::{StrSliceExecFns, StringExecFns};

use crate::cookie::{cookie_value, extract_cookie_value, same_text, text_opt};

verus! {

/// Where the bearer token of a request is read from; chosen once at startup.
#[derive(Debug, Clone, Copy, PartialEq, Eq)]
pub enum AuthHeader {
    Cookie,
    Authorization,
}

/// The characters that Unicode gives the `White_Space` property, which
/// `char::is_whitespace` tests.
pub open spec fn is_white(c: char) -> bool {
    ('\u{9}' <= c && c <= '\u{d}') || c == ' ' || c == '\u{85}' || c == '\u{a0}'
        || c == '\u{1680}' || ('\u{2000}' <= c && c <= '\u{200a}') || c == '\u{2028}'
        || c == '\u{2029}' || c == '\u{202f}' || c == '\u{205f}' || c == '\u{3000}'
}

/// Whether `c` is a whitespace character.
pub fn white(c: char) -> (r: bool)
    ensures
        r == is_white(c),
{
    ('\u{9}' <= c && c <= '\u{d}') || c == ' ' || c == '\u{85}' || c == '\u{a0}'
        || c == '\u{1680}' || ('\u{2000}' <= c && c <= '\u{200a}') || c == '\u{2028}'
        || c == '\u{2029}' || c == '\u{202f}' || c == '\u{205f}' || c == '\u{3000}'
}

/// Length of the prefix `s[0..n]` once trailing whitespace is dropped.
pub open spec fn trimmed_len(s: Seq<char>, n: int) -> int
    decreases n,
{
    if n <= 0 {
        0
    } else if is_white(s[n - 1]) {
        trimmed_len(s, n - 1)
    } else {
        n
    }
}

/// Start of the run of non-whitespace characters that ends at `n`.
pub open spec fn word_start(s: Seq<char>, n: int) -> int
    decreases n,
{
    if n <= 0 {
        0
    } else if is_white(s[n - 1]) {
        n
    } else {
        word_start(s, n - 1)
    }
}

/// The last whitespace-separated word of `s`, if it has one.
pub open spec fn last_word(s: Seq<char>) -> Option<Seq<char>> {
    let e = trimmed_len(s, s.len() as int);
    if e == 0 {
        None
    } else {
        Some(s.subrange(word_start(s, e), e))
    }
}

proof fn lemma_trimmed_len_bounds(s: Seq<char>, n: int)
    requires
        0 <= n <= s.len(),
    ensures
        0 <= trimmed_len(s, n) <= n,
    decreases n,
{
    if n > 0 && is_white(s[n - 1]) {
        lemma_trimmed_len_bounds(s, n - 1);
    }
}

proof fn lemma_word_start_bounds(s: Seq<char>, n: int)
    requires
        0 <= n <= s.len(),
    ensures
        0 <= word_start(s, n) <= n,
    decreases n,
{
    if n > 0 && !is_white(s[n - 1]) {
        lemma_word_start_bounds(s, n - 1);
    }
}

/// The last whitespace-separated word of `s`: the bare token of an
/// `Authorization` header, whether or not a scheme such as `Bearer` precedes it.
pub fn last_word_of(s: &str) -> (r: Option<&str>)
    ensures
        match last_word(s@) {
            Some(w) => r.is_some() && r.unwrap()@ == w,
            None => r.is_none(),
        },
{
    let n = s.unicode_len();
    let mut e = n;
    while e > 0 && white(s.get_char(e - 1))
        invariant
            e <= n == s@.len(),
            trimmed_len(s@, n as int) == trimmed_len(s@, e as int),
        decreases e,
    {
        e -= 1;
    }
    if e == 0 {
        return None;
    }
    let mut b = e;
    while b > 0 && !white(s.get_char(b - 1))
        invariant
            b <= e <= n == s@.len(),
            trimmed_len(s@, n as int) == e,
            word_start(s@, e as int) == word_start(s@, b as int),
        decreases b,
    {
        b -= 1;
    }
    Some(s.substring_char(b, e))
}

/// The bearer token that a request carries in the given header values, read
/// the way `from` says.
pub open spec fn token_from(cookie: Option<Seq<char>>, authorization: Option<Seq<char>>, from: AuthHeader) -> Option<Seq<char>> {
    match from {
        AuthHeader::Cookie => match cookie {
            Some(c) => cookie_value(c, "token"@),
            None => None,
        },
        AuthHeader::Authorization => match authorization {
            Some(a) => last_word(a),
            None => None,
        },
    }
}

/// Access to the two request headers that may carry a credential.
pub trait HeadersAuth {
    /// The value of the header named `name` (a lower-case name).
    spec fn header(&self, name: Seq<char>) -> Option<Seq<char>>;

    fn cookie(&self) -> (r: Option<String>)
        ensures
            text_opt(r) == self.header("cookie"@);

    fn authorization(&self) -> (r: Option<String>)
        ensures
            text_opt(r) == self.header("authorization"@);
}

/// Reading the bearer token out of a request.
pub trait HeaderToken: HeadersAuth {
    fn token(&self, from: AuthHeader) -> (r: Option<String>)
        ensures
            text_opt(r) == token_from(self.header("cookie"@), self.header("authorization"@), from);
}

/// The headers of a request as name and value pairs, names in lower case.
/// Where a name occurs more than once, the first value counts.
#[derive(Debug, Clone)]
pub struct RequestHeaders {
    pub entries: Vec<(String, String)>,
}

/// The first value given to `name` in `s`.
pub open spec fn first_value(s: Seq<(String, String)>, name: Seq<char>) -> Option<Seq<char>>
    decreases s.len(),
{
    if s.len() == 0 {
        None
    } else if s[0].0@ == name {
        Some(s[0].1@)
    } else {
        first_value(s.drop_first(), name)
    }
}

proof fn lemma_first_value_skip(s: Seq<(String, String)>, name: Seq<char>, i: int)
    requires
        0 <= i < s.len(),
        s[i].0@ != name,
    ensures
        first_value(s.subrange(i, s.len() as int), name) == first_value(s.subrange(i + 1, s.len() as int), name),
{
    assert(s.subrange(i, s.len() as int).drop_first() =~= s.subrange(i + 1, s.len() as int));
}

impl RequestHeaders {
    pub fn new() -> (r: Self)
        ensures
            r.entries@.len() == 0,
    {
        RequestHeaders { entries: Vec::new() }
    }

    /// Adds a header after those already there.
    pub fn insert(&mut self, name: &str, value: &str)
        ensures
            final(self).entries@.len() == old(self).entries@.len() + 1,
            forall|i: int| 0 <= i < old(self).entries@.len() ==> final(self).entries@[i] == old(self).entries@[i],
            final(self).entries@.last().0@ == name@,
            final(self).entries@.last().1@ == value@,
    {
        self.entries.push((String::from_str(name), String::from_str(value)));
    }

    /// The first value of the header named `name`.
    pub fn get(&self, name: &str) -> (r: Option<String>)
        ensures
            text_opt(r) == first_value(self.entries@, name@),
    {
        let ghost s = self.entries@;
        assert(s.subrange(0, s.len() as int) =~= s);
        let mut i: usize = 0;
        while i < self.entries.len()
            invariant
                s == self.entries@,
                i <= s.len(),
                first_value(s, name@) == first_value(s.subrange(i as int, s.len() as int), name@),
            decreases s.len() - i,
        {
            if same_text(self.entries[i].0.as_str(), name) {
                assert(s.subrange(i as int, s.len() as int)[0] == s[i as int]);
                return Some(self.entries[i].1.clone());
            }
            proof {
                lemma_first_value_skip(s, name@, i as int);
            }
            i += 1;
        }
        assert(s.subrange(i as int, s.len() as int).len() == 0);
        None
    }
}

impl HeadersAuth for RequestHeaders {
    open spec fn header(&self, name: Seq<char>) -> Option<Seq<char>> {
        first_value(self.entries@, name)
    }

    fn cookie(&self) -> (r: Option<String>) {
        self.get("cookie")
    }

    fn authorization(&self) -> (r: Option<String>) {
        self.get("authorization")
    }
}

impl HeaderToken for RequestHeaders {
    fn token(&self, from: AuthHeader) -> (r: Option<String>) {
        match from {
            AuthHeader::Cookie => {
                let cookie = self.cookie();
                match cookie {
                    Some(c) => match extract_cookie_value(c.as_str(), "token") {
                        Some(v) => Some(String::from_str(v)),
                        None => None,
                    },
                    None => None,
                }
            },
            AuthHeader::Authorization => {
                let authorization = self.authorization();
                match authorization {
                    Some(a) => match last_word_of(a.as_str()) {
                        Some(w) => Some(String::from_str(w)),
                        None => None,
                    },
                    None => None,
                }
            },
        }
    }
}

} // verus!
