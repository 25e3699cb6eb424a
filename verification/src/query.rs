//! Numbers and query parameters as requests and the environment spell them.

use vstd::prelude::*;
use crate::models::{opt_view, PageQ};
use crate::text::chars_of;

verus! {

/// The port that is served where none is configured.
pub const DEFAULT_PORT: u16 = 8080;

/// The digit that `c` writes, if it writes one.
pub open spec fn digit_value(c: char) -> Option<nat> {
    if c == '0' {
        Some(0)
    } else if c == '1' {
        Some(1)
    } else if c == '2' {
        Some(2)
    } else if c == '3' {
        Some(3)
    } else if c == '4' {
        Some(4)
    } else if c == '5' {
        Some(5)
    } else if c == '6' {
        Some(6)
    } else if c == '7' {
        Some(7)
    } else if c == '8' {
        Some(8)
    } else if c == '9' {
        Some(9)
    } else {
        None
    }
}

/// The number that a non-empty run of digits writes.
pub open spec fn number_of(s: Seq<char>) -> Option<nat>
    decreases s.len(),
{
    if s.len() == 0 {
        None
    } else if s.len() == 1 {
        digit_value(s[0])
    } else {
        match (number_of(s.drop_last()), digit_value(s.last())) {
            (Some(n), Some(d)) => Some(10 * n + d),
            _ => None,
        }
    }
}

/// The number that `s` writes in decimal, if it is at most `max`: digits, with
/// at most a `+` before them and nothing else around them.
pub open spec fn unsigned_of(s: Seq<char>, max: nat) -> Option<nat> {
    let body = if s.len() > 0 && s[0] == '+' {
        s.skip(1)
    } else {
        s
    };
    match number_of(body) {
        Some(n) => if n <= max {
            Some(n)
        } else {
            None
        },
        None => None,
    }
}

/// The query of a listing: the page that `page` writes, if it writes one, and
/// the search term.
pub open spec fn page_query_of(page: Option<Seq<char>>, q: Option<Seq<char>>) -> (
    Option<usize>,
    Option<Seq<char>>,
) {
    (
        match page {
            Some(text) => match unsigned_of(text, usize::MAX as nat) {
                Some(n) => Some(n as usize),
                None => None,
            },
            None => None,
        },
        q,
    )
}

/// Every start of a run of digits is a run of digits, and writes a number
/// that is no greater.
pub proof fn lemma_number_prefix(s: Seq<char>, k: int)
    requires
        1 <= k <= s.len(),
        number_of(s) is Some,
    ensures
        number_of(s.take(k)) is Some,
        number_of(s.take(k))->0 <= number_of(s)->0,
        digit_value(s[k - 1]) is Some,
    decreases s.len(),
{
    if k == s.len() {
        assert(s.take(k) =~= s);
    } else {
        assert(s.drop_last().take(k) =~= s.take(k));
        lemma_number_prefix(s.drop_last(), k);
    }
}

/// The digit that `c` writes.
fn digit_of(c: char) -> (d: Option<u64>)
    ensures
        match d {
            Some(v) => digit_value(c) == Some(v as nat) && v <= 9,
            None => digit_value(c) is None,
        },
{
    if c == '0' {
        Some(0)
    } else if c == '1' {
        Some(1)
    } else if c == '2' {
        Some(2)
    } else if c == '3' {
        Some(3)
    } else if c == '4' {
        Some(4)
    } else if c == '5' {
        Some(5)
    } else if c == '6' {
        Some(6)
    } else if c == '7' {
        Some(7)
    } else if c == '8' {
        Some(8)
    } else if c == '9' {
        Some(9)
    } else {
        None
    }
}

/// The number that `s` writes in decimal, if it is at most `max`.
pub fn parse_unsigned(s: &str, max: u64) -> (r: Option<u64>)
    ensures
        match r {
            Some(n) => unsigned_of(s@, max as nat) == Some(n as nat),
            None => unsigned_of(s@, max as nat) is None,
        },
{
    let v = chars_of(s);
    let start: usize = if v.len() > 0 && v[0] == '+' {
        1
    } else {
        0
    };
    let ghost body = v@.skip(start as int);
    proof {
        assert(v@.skip(0) =~= v@);
        assert(body == if s@.len() > 0 && s@[0] == '+' {
            s@.skip(1)
        } else {
            s@
        });
    }
    if start == v.len() {
        return None;
    }
    let mut acc: u64 = 0;
    let mut i: usize = start;
    while i < v.len()
        invariant
            start <= i <= v.len(),
            start < v.len(),
            body == v@.skip(start as int),
            body == if s@.len() > 0 && s@[0] == '+' {
                s@.skip(1)
            } else {
                s@
            },
            acc <= max,
            i > start ==> number_of(body.take(i - start)) == Some(acc as nat),
            i == start ==> acc == 0,
        decreases v.len() - i,
    {
        let ghost k = i - start + 1;
        proof {
            assert(body[k - 1] == v@[i as int]);
            assert(body.take(k).drop_last() =~= body.take(k - 1));
            assert(body.take(k).last() == v@[i as int]);
            if number_of(body) is Some {
                lemma_number_prefix(body, k);
            }
        }
        let d = match digit_of(v[i]) {
            Some(d) => d,
            None => {
                return None;
            },
        };
        if d > max || acc > (max - d) / 10 {
            proof {
                assert(10 * acc + d > max);
            }
            return None;
        }
        acc = 10 * acc + d;
        i += 1;
    }
    proof {
        assert(body.take(v.len() - start) =~= body);
    }
    Some(acc)
}

/// The page that `text` asks for, if it writes a number.
pub fn parse_page(text: &str) -> (page: Option<usize>)
    ensures
        match page {
            Some(n) => unsigned_of(text@, usize::MAX as nat) == Some(n as nat),
            None => unsigned_of(text@, usize::MAX as nat) is None,
        },
{
    match parse_unsigned(text, usize::MAX as u64) {
        Some(n) => Some(n as usize),
        None => None,
    }
}

/// The query of a listing, from the `page` and `q` parameters of a request.
/// A page that writes no number counts as not given.
pub fn page_query(page: Option<&str>, q: Option<String>) -> (query: PageQ)
    ensures
        (query.page, opt_view(query.q)) == page_query_of(
            match page {
                Some(text) => Some(text@),
                None => None,
            },
            opt_view(q),
        ),
{
    let page = match page {
        Some(text) => parse_page(text),
        None => None,
    };
    PageQ { page, q }
}

/// The port to serve: the number that `configured` writes, or `DEFAULT_PORT`
/// where nothing is configured or what is configured writes no port.
pub fn port(configured: Option<&str>) -> (p: u16)
    ensures
        p == match configured {
            Some(text) => match unsigned_of(text@, u16::MAX as nat) {
                Some(n) => n as u16,
                None => DEFAULT_PORT,
            },
            None => DEFAULT_PORT,
        },
{
    match configured {
        Some(text) => match parse_unsigned(text, u16::MAX as u64) {
            Some(n) => n as u16,
            None => DEFAULT_PORT,
        },
        None => DEFAULT_PORT,
    }
}

} // verus!
