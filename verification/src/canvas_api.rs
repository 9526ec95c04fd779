//! The remote listing API surface: the structured error body, the
//! pagination metadata carried by a `Link`-style response header, URL
//! construction, and the cursor that walks a paged collection.

use vstd::prelude::*;

pub mod files;
pub mod modules;

verus! {

/// One message of a structured remote error body.
#[derive(Debug)]
pub struct ApiErrorDetail {
    pub message: String,
}

/// The decoded body of a non-success response: a list of messages.
#[derive(Debug)]
pub struct ApiError {
    pub errors: Vec<ApiErrorDetail>,
}

/// A failure of one fetch step: a structured remote error, or a
/// transport-level failure described by a message.
#[derive(Debug)]
pub enum Error {
    ApiError(ApiError),
    ReqwestError(String),
}

pub type ApiResult<T> = Result<T, Error>;

/// The pagination relations carried by a `Link` response header.
/// Relations that the header does not name stay empty (`current`,
/// `first`, `last`) or unset (`prev`, `next`).
#[derive(Debug)]
pub struct ResponsePagination {
    pub current: String,
    pub prev: Option<String>,
    pub next: Option<String>,
    pub first: String,
    pub last: String,
}

/// The first index at or after `i` where `c` occurs in `s`, or -1 if
/// there is none.
pub open spec fn spec_find_from(s: Seq<char>, c: char, i: nat) -> int
    decreases s.len() - i,
{
    if i >= s.len() {
        -1
    } else if s[i as int] == c {
        i as int
    } else {
        spec_find_from(s, c, i + 1)
    }
}

pub proof fn lemma_find_from_bounds(s: Seq<char>, c: char, i: nat)
    ensures
        spec_find_from(s, c, i) == -1 || (i <= spec_find_from(s, c, i) < s.len()
            && s[spec_find_from(s, c, i)] == c),
    decreases s.len() - i,
{
    if i < s.len() && s[i as int] != c {
        lemma_find_from_bounds(s, c, i + 1);
    }
}

/// A link entry starting exactly at index `i`: `<url>; rel="name"`, where
/// `url` is a non-empty run without `>` and `name` a non-empty run without
/// `"`. Yields the url, the relation name, and the index just past the
/// closing quote.
pub open spec fn spec_head_link_at(s: Seq<char>, i: int) -> Option<(Seq<char>, Seq<char>, int)> {
    if !(0 <= i < s.len() && s[i] == '<') {
        None
    } else {
        let j = spec_find_from(s, '>', (i + 1) as nat);
        if j < i + 2 {
            None
        } else if !(j + 8 <= s.len() && s[j + 1] == ';' && s[j + 2] == ' ' && s[j + 3] == 'r'
            && s[j + 4] == 'e' && s[j + 5] == 'l' && s[j + 6] == '=' && s[j + 7] == '"') {
            None
        } else {
            let k = spec_find_from(s, '"', (j + 8) as nat);
            if k < j + 9 {
                None
            } else {
                Some((s.subrange(i + 1, j), s.subrange(j + 8, k), k + 1))
            }
        }
    }
}

/// All `(url, relation)` pairs found scanning `s` left to right from
/// index `i`, taking at each position the entry that starts there, if any.
pub open spec fn spec_link_pairs_from(s: Seq<char>, i: int) -> Seq<(Seq<char>, Seq<char>)>
    decreases s.len() - i via spec_link_pairs_from_decreases
{
    if !(0 <= i < s.len()) {
        Seq::empty()
    } else {
        match spec_head_link_at(s, i) {
            Some((url, rel, next)) => seq![(url, rel)] + spec_link_pairs_from(s, next),
            None => spec_link_pairs_from(s, i + 1),
        }
    }
}

#[via_fn]
proof fn spec_link_pairs_from_decreases(s: Seq<char>, i: int) {
    if 0 <= i < s.len() && s[i] == '<' {
        lemma_find_from_bounds(s, '>', (i + 1) as nat);
        let j = spec_find_from(s, '>', (i + 1) as nat);
        if j >= i + 2 {
            lemma_find_from_bounds(s, '"', (j + 8) as nat);
        }
    }
}

/// The `(url, relation)` pairs of a whole header value.
pub open spec fn spec_link_pairs(s: Seq<char>) -> Seq<(Seq<char>, Seq<char>)> {
    spec_link_pairs_from(s, 0)
}

/// The url of the last pair carrying the given relation, if any: a later
/// occurrence of a relation overrides an earlier one.
pub open spec fn spec_last_rel(pairs: Seq<(Seq<char>, Seq<char>)>, rel: Seq<char>) -> Option<
    Seq<char>,
>
    decreases pairs.len(),
{
    if pairs.len() == 0 {
        None
    } else if pairs.last().1 == rel {
        Some(pairs.last().0)
    } else {
        spec_last_rel(pairs.drop_last(), rel)
    }
}

/// The url of the last pair with the given relation, or the empty string.
pub open spec fn spec_rel_or_empty(pairs: Seq<(Seq<char>, Seq<char>)>, rel: Seq<char>) -> Seq<
    char,
> {
    match spec_last_rel(pairs, rel) {
        Some(u) => u,
        None => Seq::empty(),
    }
}

proof fn lemma_last_rel_push(
    pairs: Seq<(Seq<char>, Seq<char>)>,
    p: (Seq<char>, Seq<char>),
    rel: Seq<char>,
)
    ensures
        spec_last_rel(pairs.push(p), rel) == if p.1 == rel {
            Some(p.0)
        } else {
            spec_last_rel(pairs, rel)
        },
{
    assert(pairs.push(p).last() == p);
    assert(pairs.push(p).drop_last() =~= pairs);
}

/// How appending one `(url, relation)` pair moves each of the five
/// tracked relations: the matching relation takes the new url, the
/// others keep their previous value.
proof fn lemma_pagination_push(done: Seq<(Seq<char>, Seq<char>)>, u: Seq<char>, r: Seq<char>)
    ensures
        r == "current"@ ==> spec_last_rel(done.push((u, r)), "current"@) == Some(u)
            && spec_last_rel(done.push((u, r)), "prev"@) == spec_last_rel(done, "prev"@)
            && spec_last_rel(done.push((u, r)), "next"@) == spec_last_rel(done, "next"@)
            && spec_last_rel(done.push((u, r)), "first"@) == spec_last_rel(done, "first"@)
            && spec_last_rel(done.push((u, r)), "last"@) == spec_last_rel(done, "last"@),
        r == "prev"@ ==> spec_last_rel(done.push((u, r)), "prev"@) == Some(u)
            && spec_last_rel(done.push((u, r)), "current"@) == spec_last_rel(done, "current"@)
            && spec_last_rel(done.push((u, r)), "next"@) == spec_last_rel(done, "next"@)
            && spec_last_rel(done.push((u, r)), "first"@) == spec_last_rel(done, "first"@)
            && spec_last_rel(done.push((u, r)), "last"@) == spec_last_rel(done, "last"@),
        r == "next"@ ==> spec_last_rel(done.push((u, r)), "next"@) == Some(u)
            && spec_last_rel(done.push((u, r)), "current"@) == spec_last_rel(done, "current"@)
            && spec_last_rel(done.push((u, r)), "prev"@) == spec_last_rel(done, "prev"@)
            && spec_last_rel(done.push((u, r)), "first"@) == spec_last_rel(done, "first"@)
            && spec_last_rel(done.push((u, r)), "last"@) == spec_last_rel(done, "last"@),
        r == "first"@ ==> spec_last_rel(done.push((u, r)), "first"@) == Some(u)
            && spec_last_rel(done.push((u, r)), "current"@) == spec_last_rel(done, "current"@)
            && spec_last_rel(done.push((u, r)), "prev"@) == spec_last_rel(done, "prev"@)
            && spec_last_rel(done.push((u, r)), "next"@) == spec_last_rel(done, "next"@)
            && spec_last_rel(done.push((u, r)), "last"@) == spec_last_rel(done, "last"@),
        r == "last"@ ==> spec_last_rel(done.push((u, r)), "last"@) == Some(u)
            && spec_last_rel(done.push((u, r)), "current"@) == spec_last_rel(done, "current"@)
            && spec_last_rel(done.push((u, r)), "prev"@) == spec_last_rel(done, "prev"@)
            && spec_last_rel(done.push((u, r)), "next"@) == spec_last_rel(done, "next"@)
            && spec_last_rel(done.push((u, r)), "first"@) == spec_last_rel(done, "first"@),
        r != "current"@ && r != "prev"@ && r != "next"@ && r != "first"@ && r != "last"@
            ==> spec_last_rel(done.push((u, r)), "current"@) == spec_last_rel(done, "current"@)
            && spec_last_rel(done.push((u, r)), "prev"@) == spec_last_rel(done, "prev"@)
            && spec_last_rel(done.push((u, r)), "next"@) == spec_last_rel(done, "next"@)
            && spec_last_rel(done.push((u, r)), "first"@) == spec_last_rel(done, "first"@)
            && spec_last_rel(done.push((u, r)), "last"@) == spec_last_rel(done, "last"@),
{
    reveal_strlit("current");
    reveal_strlit("prev");
    reveal_strlit("next");
    reveal_strlit("first");
    reveal_strlit("last");
    assert("current"@.len() == 7);
    assert("prev"@.len() == 4);
    assert("next"@.len() == 4);
    assert("first"@.len() == 5);
    assert("last"@.len() == 4);
    assert("prev"@[0] == 'p' && "next"@[0] == 'n' && "last"@[0] == 'l');
    lemma_last_rel_push(done, (u, r), "current"@);
    lemma_last_rel_push(done, (u, r), "prev"@);
    lemma_last_rel_push(done, (u, r), "next"@);
    lemma_last_rel_push(done, (u, r), "first"@);
    lemma_last_rel_push(done, (u, r), "last"@);
}

/// The first index at or after `from` holding `c`, or `None`.
fn find_char_from(s: &str, n: usize, c: char, from: usize) -> (r: Option<usize>)
    requires
        n == s@.len(),
        from <= n,
    ensures
        match r {
            Some(x) => from <= x < n && spec_find_from(s@, c, from as nat) == x,
            None => spec_find_from(s@, c, from as nat) == -1,
        },
{
    let mut i: usize = from;
    while i < n
        invariant
            from <= i <= n,
            n == s@.len(),
            spec_find_from(s@, c, from as nat) == spec_find_from(s@, c, i as nat),
        decreases n - i,
    {
        if s.get_char(i) == c {
            return Some(i);
        }
        i = i + 1;
    }
    None
}

impl ResponsePagination {
    /// Parses a `Link`-style header value: a list of `<url>; rel="name"`
    /// entries. Each recognised relation takes the url of its last entry;
    /// relations that do not occur stay empty or unset.
    pub fn from_header(value: &str) -> (p: ResponsePagination)
        ensures
            p.current@ == spec_rel_or_empty(spec_link_pairs(value@), "current"@),
            p.prev.deep_view() == spec_last_rel(spec_link_pairs(value@), "prev"@),
            p.next.deep_view() == spec_last_rel(spec_link_pairs(value@), "next"@),
            p.first@ == spec_rel_or_empty(spec_link_pairs(value@), "first"@),
            p.last@ == spec_rel_or_empty(spec_link_pairs(value@), "last"@),
    {
        let n = value.unicode_len();
        let mut p = ResponsePagination {
            current: String::new(),
            prev: None,
            next: None,
            first: String::new(),
            last: String::new(),
        };
        let ghost mut done: Seq<(Seq<char>, Seq<char>)> = Seq::empty();
        let mut i: usize = 0;
        while i < n
            invariant
                i <= n,
                n == value@.len(),
                spec_link_pairs(value@) == done + spec_link_pairs_from(value@, i as int),
                p.current@ == spec_rel_or_empty(done, "current"@),
                p.prev.deep_view() == spec_last_rel(done, "prev"@),
                p.next.deep_view() == spec_last_rel(done, "next"@),
                p.first@ == spec_rel_or_empty(done, "first"@),
                p.last@ == spec_rel_or_empty(done, "last"@),
            decreases n - i,
        {
            let mut matched = false;
            if value.get_char(i) == '<' {
                if let Some(j) = find_char_from(value, n, '>', i + 1) {
                    if j >= 2 && j - 2 >= i && n >= 8 && j <= n - 8 && value.get_char(j + 1) == ';'
                        && value.get_char(j + 2) == ' ' && value.get_char(j + 3) == 'r'
                        && value.get_char(j + 4) == 'e' && value.get_char(j + 5) == 'l'
                        && value.get_char(j + 6) == '=' && value.get_char(j + 7) == '"' {
                        if let Some(k) = find_char_from(value, n, '"', j + 8) {
                            if k >= 9 && k - 9 >= j {
                                let url = String::from_str(value.substring_char(i + 1, j));
                                let rel = String::from_str(value.substring_char(j + 8, k));
                                proof {
                                    assert(spec_head_link_at(value@, i as int) == Some(
                                        (url@, rel@, k + 1 as int),
                                    ));
                                    lemma_pagination_push(done, url@, rel@);
                                    done = done.push((url@, rel@));
                                    assert(spec_link_pairs(value@) == done + spec_link_pairs_from(
                                        value@,
                                        k + 1 as int,
                                    ));
                                }
                                if rel == String::from_str("current") {
                                    p.current = url;
                                } else if rel == String::from_str("prev") {
                                    p.prev = Some(url);
                                } else if rel == String::from_str("next") {
                                    p.next = Some(url);
                                } else if rel == String::from_str("first") {
                                    p.first = url;
                                } else if rel == String::from_str("last") {
                                    p.last = url;
                                }
                                i = k + 1;
                                matched = true;
                            }
                        }
                    }
                }
            }
            if !matched {
                proof {
                    assert(spec_head_link_at(value@, i as int) is None);
                }
                i = i + 1;
            }
        }
        proof {
            assert(spec_link_pairs_from(value@, i as int) =~= Seq::<(Seq<char>, Seq<char>)>::empty());
            assert(done =~= spec_link_pairs(value@));
        }
        p
    }
}

/// The host with one trailing slash removed, if it carries one.
pub open spec fn spec_strip_trailing_slash(h: Seq<char>) -> Seq<char> {
    if h.len() > 0 && h.last() == '/' {
        h.drop_last()
    } else {
        h
    }
}

/// The path with one leading slash removed, if it carries one.
pub open spec fn spec_strip_leading_slash(p: Seq<char>) -> Seq<char> {
    if p.len() > 0 && p[0] == '/' {
        p.skip(1)
    } else {
        p
    }
}

/// A request URL: the host and the path joined by exactly one slash.
pub open spec fn spec_build_url(host: Seq<char>, path: Seq<char>) -> Seq<char> {
    spec_strip_trailing_slash(host) + seq!['/'] + spec_strip_leading_slash(path)
}

/// Joins a host and a path with exactly one slash between them.
pub fn build_url(host: &str, path: &str) -> (r: String)
    ensures
        r@ == spec_build_url(host@, path@),
{
    proof {
        reveal_strlit("/");
    }
    let hn = host.unicode_len();
    let mut out = if hn > 0 && host.get_char(hn - 1) == '/' {
        String::from_str(host.substring_char(0, hn - 1))
    } else {
        String::from_str(host)
    };
    out.append("/");
    let pn = path.unicode_len();
    if pn > 0 && path.get_char(0) == '/' {
        out.append(path.substring_char(1, pn));
    } else {
        out.append(path);
    }
    proof {
        assert(out@ =~= spec_build_url(host@, path@));
    }
    out
}

/// The decimal digit for a value below ten.
pub open spec fn spec_digit_char(d: int) -> char {
    if d == 0 {
        '0'
    } else if d == 1 {
        '1'
    } else if d == 2 {
        '2'
    } else if d == 3 {
        '3'
    } else if d == 4 {
        '4'
    } else if d == 5 {
        '5'
    } else if d == 6 {
        '6'
    } else if d == 7 {
        '7'
    } else if d == 8 {
        '8'
    } else {
        '9'
    }
}

/// The decimal digits of a non-negative number, most significant first.
pub open spec fn spec_dec_digits(n: int) -> Seq<char>
    decreases n,
{
    if n < 10 {
        seq![spec_digit_char(n)]
    } else {
        spec_dec_digits(n / 10).push(spec_digit_char(n % 10))
    }
}

/// The decimal rendering of a signed number: a minus sign before the
/// digits of its magnitude when it is negative.
pub open spec fn spec_i64_dec(n: int) -> Seq<char> {
    if n < 0 {
        seq!['-'] + spec_dec_digits(-n)
    } else {
        spec_dec_digits(n)
    }
}

fn digit_str(d: u64) -> (r: &'static str)
    requires
        d < 10,
    ensures
        r@ =~= seq![spec_digit_char(d as int)],
{
    proof {
        reveal_strlit("0");
        reveal_strlit("1");
        reveal_strlit("2");
        reveal_strlit("3");
        reveal_strlit("4");
        reveal_strlit("5");
        reveal_strlit("6");
        reveal_strlit("7");
        reveal_strlit("8");
        reveal_strlit("9");
    }
    match d {
        0 => "0",
        1 => "1",
        2 => "2",
        3 => "3",
        4 => "4",
        5 => "5",
        6 => "6",
        7 => "7",
        8 => "8",
        _ => "9",
    }
}

/// Renders an unsigned number in decimal.
pub fn u64_dec_string(n: u64) -> (r: String)
    ensures
        r@ == spec_dec_digits(n as int),
    decreases n,
{
    if n < 10 {
        String::from_str(digit_str(n))
    } else {
        let mut s = u64_dec_string(n / 10);
        s.append(digit_str(n % 10));
        proof {
            assert(s@ =~= spec_dec_digits(n as int));
        }
        s
    }
}

/// Renders a signed number in decimal.
pub fn i64_dec_string(n: i64) -> (r: String)
    ensures
        r@ == spec_i64_dec(n as int),
{
    if n >= 0 {
        u64_dec_string(n as u64)
    } else {
        proof {
            reveal_strlit("-");
        }
        let m: u64 = (-(n as i128)) as u64;
        let mut s = String::from_str("-");
        let digits = u64_dec_string(m);
        s.append(digits.as_str());
        proof {
            assert(s@ =~= spec_i64_dec(n as int));
        }
        s
    }
}

/// What the continuation cursor becomes after one page: the url of the
/// `next` relation of the page's link header, if both are present.
pub open spec fn spec_next_cursor(h: Option<Seq<char>>) -> Option<Seq<char>> {
    match h {
        Some(v) => spec_last_rel(spec_link_pairs(v), "next"@),
        None => None,
    }
}

/// Whether a response status is a success: any status in the 2xx range.
/// Everything else carries a structured error body instead of a page.
pub open spec fn spec_status_ok(status: u16) -> bool {
    200 <= status <= 299
}

/// The cursor of one paged listing: the request still to issue, if any,
/// and whether the walk ended in a failed page.
///
/// The caller issues the pending request, then reports the response's
/// status and `Link` header through `advance`; the cursor decides whether
/// the walk continues, is exhausted, or has failed.
pub struct PageCursor {
    pub next_url: Option<String>,
    pub failed: bool,
}

impl PageCursor {
    /// A fresh walk, about to request the start url.
    pub fn new(start_url: String) -> (c: Self)
        ensures
            c.next_url == Some(start_url),
            !c.failed,
    {
        PageCursor { next_url: Some(start_url), failed: false }
    }

    /// Whether a request is still to be issued.
    pub fn pending(&self) -> (r: bool)
        ensures
            r == (self.next_url is Some),
    {
        self.next_url.is_some()
    }

    /// The request to issue next, if any.
    pub fn take_request(&self) -> (r: Option<String>)
        ensures
            r == self.next_url,
    {
        match &self.next_url {
            Some(u) => Some(u.clone()),
            None => None,
        }
    }

    /// Applies one response: a status outside the 2xx range ends the
    /// walk as failed; a success continues at the `next` relation of the
    /// link header, and ends the walk, exhausted, when there is none.
    pub fn advance(&mut self, status: u16, link_header: Option<&str>) -> (ok: bool)
        requires
            old(self).next_url is Some,
        ensures
            ok == spec_status_ok(status),
            final(self).failed == !spec_status_ok(status),
            !spec_status_ok(status) ==> final(self).next_url is None,
            spec_status_ok(status) ==> final(self).next_url.deep_view() == spec_next_cursor(
                link_header.deep_view(),
            ),
    {
        if status < 200 || status > 299 {
            self.next_url = None;
            self.failed = true;
            false
        } else {
            self.next_url = match link_header {
                Some(h) => ResponsePagination::from_header(h).next,
                None => None,
            };
            self.failed = false;
            true
        }
    }
}

/// One paged listing with what it has yielded so far: the cursor of the
/// walk, and the records of the pages applied to it, in page order and
/// within each page in the page's own order.
pub struct PageWalk<T> {
    pub cursor: PageCursor,
    pub records: Vec<T>,
}

impl<T> PageWalk<T> {
    /// A fresh walk, about to request the start url, with no records
    /// yet.
    pub fn new(start_url: String) -> (w: Self)
        ensures
            w.cursor.next_url == Some(start_url),
            !w.cursor.failed,
            w.records@.len() == 0,
    {
        PageWalk { cursor: PageCursor::new(start_url), records: Vec::new() }
    }

    /// The request to issue next, if any.
    pub fn take_request(&self) -> (r: Option<String>)
        ensures
            r == self.cursor.next_url,
    {
        self.cursor.take_request()
    }

    /// Applies one response and its decoded records: on a success the
    /// page's records are appended after everything already collected
    /// and the walk continues at the `next` relation; on a failure the
    /// records so far stand and the walk ends, failed.
    pub fn apply_page(&mut self, status: u16, link_header: Option<&str>, page: Vec<T>) -> (ok:
        bool)
        requires
            old(self).cursor.next_url is Some,
        ensures
            ok == spec_status_ok(status),
            ok ==> final(self).records@ == old(self).records@ + page@,
            !ok ==> final(self).records@ == old(self).records@,
            final(self).cursor.failed == !spec_status_ok(status),
            !spec_status_ok(status) ==> final(self).cursor.next_url is None,
            spec_status_ok(status) ==> final(self).cursor.next_url.deep_view()
                == spec_next_cursor(link_header.deep_view()),
    {
        let ok = self.cursor.advance(status, link_header);
        if ok {
            let mut page = page;
            self.records.append(&mut page);
        }
        ok
    }
}

} // verus!
