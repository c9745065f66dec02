use vstd::prelude::*;
use vstd::string::{StrSliceExecFns, StringExecFns};

use crate::headers::{is_white, white};

verus! {

/// `p` occurs in `s` starting at index `i`.
pub open spec fn occurs_at(s: Seq<char>, p: Seq<char>, i: int) -> bool {
    0 <= i && i + p.len() <= s.len() && s.subrange(i, i + p.len()) == p
}

/// The first index at or after `i` that holds `;`, or the length of `s`.
pub open spec fn segment_end(s: Seq<char>, i: int) -> int
    decreases s.len() - i,
{
    if i < 0 || i >= s.len() {
        s.len() as int
    } else if s[i] == ';' {
        i
    } else {
        segment_end(s, i + 1)
    }
}

/// The first index at or after `i` whose character is not whitespace, or the
/// length of `s`.
pub open spec fn skip_white(s: Seq<char>, i: int) -> int
    decreases s.len() - i,
{
    if i < 0 || i >= s.len() {
        s.len() as int
    } else if is_white(s[i]) {
        skip_white(s, i + 1)
    } else {
        i
    }
}

/// The value of the first segment, among those starting at `i` or later,
/// whose key is the one that `key` (a name followed by `=`) gives. `i` is the
/// start of a segment: the start of the header or just after a `;`. Leading
/// whitespace of a segment is skipped.
pub open spec fn segment_value_from(s: Seq<char>, key: Seq<char>, i: int) -> Option<Seq<char>>
    decreases s.len() - i
    via segment_value_from_decreases
{
    if i < 0 || i > s.len() {
        None
    } else {
        let start = skip_white(s, i);
        let end = segment_end(s, i);
        if start + key.len() <= end && occurs_at(s, key, start) {
            Some(s.subrange(start + key.len(), end))
        } else if end >= s.len() {
            None
        } else {
            segment_value_from(s, key, end + 1)
        }
    }
}

/// The value that a cookie header assigns to `name`: among the `;`-separated
/// segments, leading whitespace dropped, the first whose text starts with
/// `name=` gives the rest of its text.
pub open spec fn cookie_value(header: Seq<char>, name: Seq<char>) -> Option<Seq<char>> {
    segment_value_from(header, name + seq!['='], 0)
}

#[via_fn]
proof fn segment_value_from_decreases(s: Seq<char>, key: Seq<char>, i: int) {
    if 0 <= i <= s.len() {
        lemma_segment_end_bounds(s, i);
    }
}

proof fn lemma_skip_white_bounds(s: Seq<char>, i: int)
    requires
        0 <= i <= s.len(),
    ensures
        i <= skip_white(s, i) <= segment_end(s, i) <= s.len(),
    decreases s.len() - i,
{
    lemma_segment_end_bounds(s, i);
    if i < s.len() && s[i] != ';' {
        lemma_segment_end_bounds(s, i + 1);
        if is_white(s[i]) {
            lemma_skip_white_bounds(s, i + 1);
        }
    }
}

proof fn lemma_segment_end_bounds(s: Seq<char>, i: int)
    requires
        0 <= i <= s.len(),
    ensures
        i <= segment_end(s, i) <= s.len(),
    decreases s.len() - i,
{
    if i < s.len() && s[i] != ';' {
        lemma_segment_end_bounds(s, i + 1);
    }
}

/// Whether `name=` occurs in `s` at char index `i`.
fn key_at(s: &str, name: &str, i: usize) -> (r: bool)
    requires
        i <= s@.len(),
    ensures
        r == occurs_at(s@, name@ + seq!['='], i as int),
{
    let n = s.unicode_len();
    let m = name.unicode_len();
    let key = Ghost(name@ + seq!['=']);
    if m >= n || i > n - m - 1 {
        return false;
    }
    let mut k: usize = 0;
    while k < m
        invariant
            n == s@.len(),
            m == name@.len(),
            i + m + 1 <= n,
            k <= m,
            key@ == name@ + seq!['='],
            forall|j: int| 0 <= j < k ==> s@[i + j] == name@[j],
        decreases m - k,
    {
        if s.get_char(i + k) != name.get_char(k) {
            assert(s@.subrange(i as int, i + key@.len())[k as int] != key@[k as int]);
            return false;
        }
        k += 1;
    }
    if s.get_char(i + m) != '=' {
        assert(s@.subrange(i as int, i + key@.len())[m as int] != key@[m as int]);
        return false;
    }
    assert(s@.subrange(i as int, i + key@.len()) =~= key@);
    true
}

/// The value that the cookie header `cookie` assigns to `name`: the rest of
/// the first `;`-separated segment that, leading whitespace dropped, starts
/// with `name=`. `None` when no segment has that key. Segments may be
/// separated by `;` or `; `.
pub fn extract_cookie_value<'a>(cookie: &'a str, name: &str) -> (r: Option<&'a str>)
    ensures
        match cookie_value(cookie@, name@) {
            Some(v) => r.is_some() && r.unwrap()@ == v,
            None => r.is_none(),
        },
{
    let n = cookie.unicode_len();
    let m = name.unicode_len();
    let key = Ghost(name@ + seq!['=']);
    let mut i: usize = 0;
    loop
        invariant
            n == cookie@.len(),
            m == name@.len(),
            i <= n,
            key@ == name@ + seq!['='],
            cookie_value(cookie@, name@) == segment_value_from(cookie@, key@, i as int),
        decreases n - i,
    {
        proof {
            lemma_skip_white_bounds(cookie@, i as int);
        }
        let mut start = i;
        while start < n && white(cookie.get_char(start))
            invariant
                n == cookie@.len(),
                i <= start <= n,
                skip_white(cookie@, i as int) == skip_white(cookie@, start as int),
            decreases n - start,
        {
            start += 1;
        }
        let mut end = i;
        while end < n && cookie.get_char(end) != ';'
            invariant
                n == cookie@.len(),
                i <= end <= n,
                segment_end(cookie@, i as int) == segment_end(cookie@, end as int),
            decreases n - end,
        {
            end += 1;
        }
        if m < end - start && key_at(cookie, name, start) {
            return Some(cookie.substring_char(start + m + 1, end));
        }
        if end >= n {
            return None;
        }
        i = end + 1;
    }
}

/// Earliest Unix time whose year RFC 2822 can write (0000-01-01T00:00:00Z).
pub const RFC2822_MIN_SECS: i64 = -62167219200;

/// Latest Unix time whose year RFC 2822 can write (9999-12-31T23:59:59Z).
pub const RFC2822_MAX_SECS: i64 = 253402300799;

/// The RFC 2822 text of the UTC time `secs` seconds after the Unix epoch.
pub uninterp spec fn rfc2822_text(secs: int) -> Seq<char>;

/// Relies on chrono's `DateTime::<Utc>::from_timestamp` and `to_rfc2822`: the
/// text such as `Tue, 1 Jul 2003 10:52:37 +0000` for a time whose year has at
/// most four digits and is not negative (outside that range it panics).
#[verifier::external_body]
fn rfc2822(secs: i64) -> (r: String)
    requires
        RFC2822_MIN_SECS <= secs <= RFC2822_MAX_SECS,
    ensures
        r@ == rfc2822_text(secs as int),
{
    match chrono::DateTime::from_timestamp(secs, 0) {
        Some(d) => d.to_rfc2822(),
        None => String::new(),
    }
}

fn copy_text(o: &Option<String>) -> (r: Option<String>)
    ensures
        r == *o,
{
    match o {
        Some(t) => Some(t.clone()),
        None => None,
    }
}

/// A `Set-Cookie` directive. `expires` is a UTC time in Unix seconds.
#[derive(Debug, Clone, PartialEq, Eq)]
pub struct Cookie {
    pub name: String,
    pub value: String,
    pub domain: Option<String>,
    pub path: Option<String>,
    pub expires: Option<i64>,
    pub http_only: bool,
    pub secure: bool,
    pub same_site: Option<String>,
}

/// The content of a cookie, with its texts as character sequences.
pub struct CookieView {
    pub name: Seq<char>,
    pub value: Seq<char>,
    pub domain: Option<Seq<char>>,
    pub path: Option<Seq<char>>,
    pub expires: Option<i64>,
    pub http_only: bool,
    pub secure: bool,
    pub same_site: Option<Seq<char>>,
}

pub open spec fn text_opt(o: Option<String>) -> Option<Seq<char>> {
    match o {
        Some(s) => Some(s@),
        None => None,
    }
}

impl View for Cookie {
    type V = CookieView;

    open spec fn view(&self) -> CookieView {
        CookieView {
            name: self.name@,
            value: self.value@,
            domain: text_opt(self.domain),
            path: text_opt(self.path),
            expires: self.expires,
            http_only: self.http_only,
            secure: self.secure,
            same_site: text_opt(self.same_site),
        }
    }
}

/// `label` followed by the text of `o` and `"; "`, or nothing when `o` is empty.
pub open spec fn attr_text(label: Seq<char>, o: Option<Seq<char>>) -> Seq<char> {
    match o {
        Some(t) => label + t + "; "@,
        None => Seq::empty(),
    }
}

pub open spec fn flag_text(label: Seq<char>, on: bool) -> Seq<char> {
    if on { label } else { Seq::empty() }
}

pub open spec fn expires_text(e: Option<i64>) -> Seq<char> {
    match e {
        Some(t) => "Expires="@ + rfc2822_text(t as int) + "; "@,
        None => Seq::empty(),
    }
}

/// The header text of a cookie: `name=value; ` followed by each attribute that
/// is set, each ended by `"; "`.
pub open spec fn header_text(c: CookieView) -> Seq<char> {
    c.name + "="@ + c.value + "; "@
        + attr_text("Domain="@, c.domain)
        + attr_text("Path="@, c.path)
        + expires_text(c.expires)
        + flag_text("HttpOnly; "@, c.http_only)
        + flag_text("Secure; "@, c.secure)
        + attr_text("SameSite="@, c.same_site)
}

fn append_attr(s: &mut String, label: &str, o: &Option<String>)
    ensures
        final(s)@ == old(s)@ + attr_text(label@, text_opt(*o)),
{
    match o {
        Some(t) => {
            s.append(label);
            s.append(t.as_str());
            s.append("; ");
            assert(final(s)@ =~= old(s)@ + attr_text(label@, text_opt(*o)));
        },
        None => {
            assert(s@ =~= old(s)@ + attr_text(label@, text_opt(*o)));
        },
    }
}

impl Cookie {
    /// A cookie that is http-only, secure and `SameSite=Strict`, with no
    /// domain, path or expiry.
    pub fn new(name: &str, value: &str) -> (r: Self)
        ensures
            r@ == (CookieView {
                name: name@,
                value: value@,
                domain: None,
                path: None,
                expires: None,
                http_only: true,
                secure: true,
                same_site: Some("Strict"@),
            }),
    {
        Cookie {
            name: String::from_str(name),
            value: String::from_str(value),
            domain: None,
            path: None,
            expires: None,
            http_only: true,
            secure: true,
            same_site: Some(String::from_str("Strict")),
        }
    }

    pub fn domain(self, domain: &str) -> (r: Self)
        ensures
            r@ == (CookieView { domain: Some(domain@), ..self@ }),
    {
        Cookie { domain: Some(String::from_str(domain)), ..self }
    }

    pub fn path(self, path: &str) -> (r: Self)
        ensures
            r@ == (CookieView { path: Some(path@), ..self@ }),
    {
        Cookie { path: Some(String::from_str(path)), ..self }
    }

    pub fn expires(self, expires: Option<i64>) -> (r: Self)
        ensures
            r@ == (CookieView { expires: expires, ..self@ }),
    {
        Cookie { expires, ..self }
    }

    pub fn http_only(self, http_only: bool) -> (r: Self)
        ensures
            r@ == (CookieView { http_only: http_only, ..self@ }),
    {
        Cookie { http_only, ..self }
    }

    pub fn secure(self, secure: bool) -> (r: Self)
        ensures
            r@ == (CookieView { secure: secure, ..self@ }),
    {
        Cookie { secure, ..self }
    }

    pub fn same_site(self, same_site: &str) -> (r: Self)
        ensures
            r@ == (CookieView { same_site: Some(same_site@), ..self@ }),
    {
        Cookie { same_site: Some(String::from_str(same_site)), ..self }
    }

    /// A copy of this cookie.
    pub fn duplicate(&self) -> (r: Self)
        ensures
            r == *self,
    {
        Cookie {
            name: self.name.clone(),
            value: self.value.clone(),
            domain: copy_text(&self.domain),
            path: copy_text(&self.path),
            expires: self.expires,
            http_only: self.http_only,
            secure: self.secure,
            same_site: copy_text(&self.same_site),
        }
    }

    /// The expiry, if any, is a time that RFC 2822 can write.
    pub open spec fn expiry_writable(&self) -> bool {
        match self.expires {
            Some(t) => RFC2822_MIN_SECS <= t <= RFC2822_MAX_SECS,
            None => true,
        }
    }

    /// The text of the `Set-Cookie` header for this cookie.
    pub fn to_header_value(&self) -> (r: String)
        requires
            self.expiry_writable(),
        ensures
            r@ == header_text(self@),
    {
        let mut s = String::from_str(self.name.as_str());
        s.append("=");
        s.append(self.value.as_str());
        s.append("; ");
        append_attr(&mut s, "Domain=", &self.domain);
        append_attr(&mut s, "Path=", &self.path);
        let ghost before_expires = s@;
        match self.expires {
            Some(t) => {
                let date = rfc2822(t);
                s.append("Expires=");
                s.append(date.as_str());
                s.append("; ");
            },
            None => {},
        }
        assert(s@ =~= before_expires + expires_text(self.expires));
        let ghost before_flags = s@;
        if self.http_only {
            s.append("HttpOnly; ");
        }
        assert(s@ =~= before_flags + flag_text("HttpOnly; "@, self.http_only));
        let ghost before_secure = s@;
        if self.secure {
            s.append("Secure; ");
        }
        assert(s@ =~= before_secure + flag_text("Secure; "@, self.secure));
        append_attr(&mut s, "SameSite=", &self.same_site);
        assert(s@ =~= header_text(self@));
        s
    }
}

/// The cookies of `s` whose name is not `name`, in their order.
pub open spec fn without_name(s: Seq<Cookie>, name: Seq<char>) -> Seq<Cookie>
    decreases s.len(),
{
    if s.len() == 0 {
        Seq::empty()
    } else {
        let rest = without_name(s.drop_last(), name);
        if s.last().name@ == name {
            rest
        } else {
            rest.push(s.last())
        }
    }
}

/// The index of the first cookie of `s` named `name`.
pub open spec fn first_named(s: Seq<Cookie>, name: Seq<char>) -> Option<int> {
    if exists|i: int| 0 <= i < s.len() && s[i].name@ == name {
        Some(choose|i: int| 0 <= i < s.len() && s[i].name@ == name
            && forall|j: int| 0 <= j < i ==> s[j].name@ != name)
    } else {
        None
    }
}

/// An ordered collection of cookies to send.
#[derive(Debug, Clone)]
pub struct CookieJar {
    cookies: Vec<Cookie>,
}

impl View for CookieJar {
    type V = Seq<Cookie>;

    closed spec fn view(&self) -> Seq<Cookie> {
        self.cookies@
    }
}

impl CookieJar {
    pub fn new() -> (r: Self)
        ensures
            r@ == Seq::<Cookie>::empty(),
    {
        CookieJar { cookies: Vec::new() }
    }

    pub fn len(&self) -> (r: usize)
        ensures
            r == self@.len(),
    {
        self.cookies.len()
    }

    pub fn add(&mut self, cookie: Cookie)
        ensures
            final(self)@ == old(self)@.push(cookie),
    {
        self.cookies.push(cookie);
    }

    /// The first cookie with the given name.
    pub fn get(&self, name: &str) -> (r: Option<&Cookie>)
        ensures
            match first_named(self@, name@) {
                Some(i) => r.is_some() && *r.unwrap() == self@[i],
                None => r.is_none(),
            },
    {
        let mut i: usize = 0;
        while i < self.cookies.len()
            invariant
                i <= self@.len(),
                forall|j: int| 0 <= j < i ==> self@[j].name@ != name@,
            decreases self@.len() - i,
        {
            if self.cookies[i].name.as_str().unicode_len() == name.unicode_len()
                && same_text(self.cookies[i].name.as_str(), name) {
                proof {
                    // `i` is the first index with that name, so it is the one chosen.
                    let c = choose|x: int| 0 <= x < self@.len() && self@[x].name@ == name@
                        && forall|j: int| 0 <= j < x ==> self@[j].name@ != name@;
                    assert(c == i);
                }
                return Some(&self.cookies[i]);
            }
            i += 1;
        }
        None
    }

    /// Removes every cookie with the given name, keeping the others in order.
    pub fn remove(&mut self, name: &str)
        ensures
            final(self)@ == without_name(old(self)@, name@),
    {
        let mut kept: Vec<Cookie> = Vec::new();
        let ghost all = self@;
        let mut i: usize = 0;
        while i < self.cookies.len()
            invariant
                self@ == all,
                i <= all.len(),
                kept@ == without_name(all.take(i as int), name@),
            decreases all.len() - i,
        {
            assert(all.take(i + 1).drop_last() =~= all.take(i as int));
            let c = self.cookies[i].duplicate();
            if !same_text(c.name.as_str(), name) {
                kept.push(c);
            }
            i += 1;
        }
        assert(all.take(all.len() as int) =~= all);
        self.cookies = kept;
    }

    pub fn clear(&mut self)
        ensures
            final(self)@ == Seq::<Cookie>::empty(),
    {
        self.cookies.clear();
    }

    /// The header text of every cookie, one after the other.
    pub fn to_header_value(&self) -> (r: String)
        requires
            forall|i: int| 0 <= i < self@.len() ==> self@[i].expiry_writable(),
        ensures
            r@ == jar_text(self@),
    {
        let mut s = String::new();
        let mut i: usize = 0;
        while i < self.cookies.len()
            invariant
                i <= self@.len(),
                forall|j: int| 0 <= j < self@.len() ==> self@[j].expiry_writable(),
                s@ == jar_text(self@.take(i as int)),
            decreases self@.len() - i,
        {
            assert(self@.take(i + 1).drop_last() =~= self@.take(i as int));
            let h = self.cookies[i].to_header_value();
            s.append(h.as_str());
            i += 1;
        }
        assert(self@.take(self@.len() as int) =~= self@);
        s
    }
}

/// The header texts of the cookies of `s`, concatenated in order.
pub open spec fn jar_text(s: Seq<Cookie>) -> Seq<char>
    decreases s.len(),
{
    if s.len() == 0 {
        Seq::empty()
    } else {
        jar_text(s.drop_last()) + header_text(s.last()@)
    }
}

/// Whether two texts hold the same characters.
pub fn same_text(a: &str, b: &str) -> (r: bool)
    ensures
        r == (a@ == b@),
{
    let n = a.unicode_len();
    if n != b.unicode_len() {
        return false;
    }
    let mut k: usize = 0;
    while k < n
        invariant
            n == a@.len(),
            n == b@.len(),
            k <= n,
            forall|j: int| 0 <= j < k ==> a@[j] == b@[j],
        decreases n - k,
    {
        if a.get_char(k) != b.get_char(k) {
            return false;
        }
        k += 1;
    }
    assert(a@ =~= b@);
    true
}

} // verus!
