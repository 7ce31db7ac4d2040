//! What a market-data request asks for, and what a withdrawal of one says
//! when there is nothing to withdraw.
use vstd::prelude::*;
use crate::text::{decimal, push_decimal};

verus! {

/// The generic tick that asks for a contract's news.
pub open spec fn news_tick() -> Seq<char> {
    "292"@
}

/// Whether a character is white space: one of the characters Unicode gives the
/// White_Space property, which is what `char::is_whitespace` answers.
pub open spec fn is_ws(c: char) -> bool {
    let u = c as u32;
    ||| 0x09 <= u <= 0x0D
    ||| u == 0x20
    ||| u == 0x85
    ||| u == 0xA0
    ||| u == 0x1680
    ||| 0x2000 <= u <= 0x200A
    ||| u == 0x2028
    ||| u == 0x2029
    ||| u == 0x202F
    ||| u == 0x205F
    ||| u == 0x3000
}

/// Whether a character is white space.
pub fn is_whitespace(c: char) -> (r: bool)
    ensures
        r == is_ws(c),
{
    let u = c as u32;
    (0x09 <= u && u <= 0x0D) || u == 0x20 || u == 0x85 || u == 0xA0 || u == 0x1680
        || (0x2000 <= u && u <= 0x200A) || u == 0x2028 || u == 0x2029 || u == 0x202F
        || u == 0x205F || u == 0x3000
}

/// Whether `s[i..j]` is one of the comma-separated entries of `s`.
pub open spec fn is_entry(s: Seq<char>, i: int, j: int) -> bool {
    &&& 0 <= i <= j <= s.len()
    &&& (i == 0 || s[i - 1] == ',')
    &&& (j == s.len() || s[j] == ',')
    &&& forall|m: int| i <= m < j ==> s[m] != ','
}

/// Whether `s[i..j]`, with the white space around it trimmed, is `292`.
pub open spec fn trims_to_news(s: Seq<char>, i: int, j: int) -> bool {
    exists|a: int| #![trigger s[a]]
        i <= a && a + 3 <= j
        && s[a] == '2' && s[a + 1] == '9' && s[a + 2] == '2'
        && (forall|m: int| i <= m < a ==> is_ws(s[m]))
        && (forall|m: int| a + 3 <= m < j ==> is_ws(s[m]))
}

/// Whether a generic tick list asks for news: one of its comma-separated
/// entries, trimmed, is `292`. The whole entry, not a number ending in it:
/// 1292 is not 292.
pub open spec fn asks_for_news(s: Seq<char>) -> bool {
    exists|i: int, j: int| #[trigger] is_entry(s, i, j) && trims_to_news(s, i, j)
}

fn entry_trims_to_news(s: &str, n: usize, i: usize, j: usize) -> (r: bool)
    requires
        n == s@.len(),
        i <= j <= n,
    ensures
        r == trims_to_news(s@, i as int, j as int),
{
    let mut a = i;
    while a < j && is_whitespace(s.get_char(a))
        invariant
            i <= a <= j <= n,
            n == s@.len(),
            forall|m: int| i <= m < a ==> is_ws(s@[m]),
        decreases j - a,
    {
        a = a + 1;
    }
    let mut b = j;
    while b > a && is_whitespace(s.get_char(b - 1))
        invariant
            a <= b <= j <= n,
            n == s@.len(),
            forall|m: int| b <= m < j ==> is_ws(s@[m]),
        decreases b - a,
    {
        b = b - 1;
    }
    // `a` is the first character of the entry that is not white space, and `b`
    // one past the last, where there is any.
    let r = b - a == 3 && s.get_char(a) == '2' && s.get_char(a + 1) == '9' && s.get_char(a + 2) == '2';
    proof {
        if r {
            assert(s@[a as int] == '2');
        } else if trims_to_news(s@, i as int, j as int) {
            let w = choose|w: int| #![trigger s@[w]]
                i <= w && w + 3 <= j
                && s@[w] == '2' && s@[w + 1] == '9' && s@[w + 2] == '2'
                && (forall|m: int| i <= m < w ==> is_ws(s@[m]))
                && (forall|m: int| w + 3 <= m < j ==> is_ws(s@[m]));
            assert(!is_ws('2') && !is_ws('9'));
            if a < w {
                assert(is_ws(s@[a as int]));
            }
            if a > w {
                assert(is_ws(s@[w]));
            }
            assert(a == w);
            if b < w + 3 {
                assert(b > a);
                assert(is_ws(s@[b - 1]));
            }
            if b > w + 3 {
                assert(is_ws(s@[b - 1]));
            }
            assert(b == w + 3);
        }
    }
    r
}

/// Whether a generic tick list asks for a contract's news.
pub fn wants_news(s: &str) -> (r: bool)
    ensures
        r == asks_for_news(s@),
{
    let n = s.unicode_len();
    let mut start: usize = 0;
    let mut k: usize = 0;
    while k <= n
        invariant
            n == s@.len(),
            start <= k,
            k <= n,
            start == 0 || s@[start - 1] == ',',
            forall|m: int| start <= m < k ==> s@[m] != ',',
            forall|i: int, j: int| #[trigger] is_entry(s@, i, j) && j < start ==> !trims_to_news(s@, i, j),
        decreases n + 1 - k,
    {
        if k == n || s.get_char(k) == ',' {
            if entry_trims_to_news(s, n, start, k) {
                assert(is_entry(s@, start as int, k as int));
                assert(trims_to_news(s@, start as int, k as int));
                assert(asks_for_news(s@));
                return true;
            }
            proof {
                assert forall|i: int, j: int| #[trigger] is_entry(s@, i, j) && j < k + 1 implies !trims_to_news(s@, i, j) by {
                    if j >= start {
                        if j < k {
                            assert(s@[j] == ',');
                        }
                        assert(j == k);
                        if i < start {
                            assert(s@[start - 1] == ',');
                        }
                        if i > start {
                            assert(s@[i - 1] == ',');
                        }
                        assert(i == start);
                    }
                }
            }
            if k == n {
                proof {
                    assert forall|i: int, j: int| #[trigger] is_entry(s@, i, j) implies !trims_to_news(s@, i, j) by {
                        assert(j < k + 1);
                    }
                    assert(!asks_for_news(s@));
                }
                return false;
            }
            start = k + 1;
        }
        k = k + 1;
    }
    false
}

/// Said when a caller withdraws a quote subscription this client does not hold.
pub open spec fn no_quote_held(req_id: int) -> Seq<char> {
    "no contract is being watched under request "@ + decimal(req_id)
}

/// Said when a caller withdraws a quote subscription this client does not hold.
pub fn no_quote_held_message(req_id: i64) -> (r: String)
    ensures
        r@ == no_quote_held(req_id as int),
{
    let mut why = String::from_str("no contract is being watched under request ");
    push_decimal(&mut why, req_id);
    why
}

/// Said when a caller withdraws a tick stream this client does not hold.
pub open spec fn no_stream_held(req_id: int) -> Seq<char> {
    "no tick stream is held under request "@ + decimal(req_id)
}

/// Said when a caller withdraws a tick stream this client does not hold.
pub fn no_stream_held_message(req_id: i64) -> (r: String)
    ensures
        r@ == no_stream_held(req_id as int),
{
    let mut why = String::from_str("no tick stream is held under request ");
    push_decimal(&mut why, req_id);
    why
}

/// The stream a tick-by-tick request asked for, as the number its callback
/// states it under: 2 for every print, 1 for the exchange's own, and none kept
/// for a stream of quotes.
pub fn trade_stream_kind(all_last: bool, last: bool) -> (r: Option<i32>)
    ensures
        all_last ==> r == Some(2i32),
        !all_last && last ==> r == Some(1i32),
        !all_last && !last ==> r is None,
{
    if all_last { Some(2) } else if last { Some(1) } else { None }
}

/// The stream a print is stated under: the kind its request asked for, and
/// the exchange's own where nothing was kept.
pub fn stated_stream_kind(kept: Option<i32>) -> (r: i32)
    ensures
        r == match kept { Some(kind) => kind, None => 1i32 },
{
    match kept {
        Some(kind) => kind,
        None => 1,
    }
}

} // verus!
