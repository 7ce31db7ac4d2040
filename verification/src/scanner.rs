//! The filters a market scan is asked for under.
//!
//! Everything a caller sets on a scanner subscription beyond its instrument,
//! location and scan code is a filter, and a filter dropped is a different
//! result set. The caller's explicit filter tags come last and win over the
//! named attribute selecting the same code.
use vstd::prelude::*;
use crate::text::{upper, upper_char, push_char};
use crate::names::same_text;

verus! {

/// A filter as plain text: its code and its value.
pub open spec fn pair_view(p: (String, String)) -> (Seq<char>, Seq<char>) {
    (p.0@, p.1@)
}

/// A list of filters as plain text.
pub open spec fn pairs_view(v: Seq<(String, String)>) -> Seq<(Seq<char>, Seq<char>)> {
    v.map_values(|p: (String, String)| pair_view(p))
}

/// Each subscription attribute a filter is read from, and the filter code it
/// selects, in the order the filters are sent.
pub open spec fn attribute_codes() -> Seq<(Seq<char>, Seq<char>)> {
    seq![
        ("abovePrice"@, "priceAbove"@),
        ("belowPrice"@, "priceBelow"@),
        ("aboveVolume"@, "volumeAbove"@),
        ("marketCapAbove"@, "marketCapAbove1e6"@),
        ("marketCapBelow"@, "marketCapBelow1e6"@),
        ("moodyRatingAbove"@, "moodyRatingAbove"@),
        ("moodyRatingBelow"@, "moodyRatingBelow"@),
        ("spRatingAbove"@, "spRatingAbove"@),
        ("spRatingBelow"@, "spRatingBelow"@),
        ("maturityDateAbove"@, "maturityDateAbove"@),
        ("maturityDateBelow"@, "maturityDateBelow"@),
        ("couponRateAbove"@, "couponRateAbove"@),
        ("couponRateBelow"@, "couponRateBelow"@),
        ("averageOptionVolumeAbove"@, "avgOptVolumeAbove"@),
    ]
}

fn push_pair(v: &mut Vec<(String, String)>, a: &str, b: &str)
    ensures
        pairs_view(final(v)@) == pairs_view(old(v)@).push((a@, b@)),
{
    v.push((String::from_str(a), String::from_str(b)));
    assert(pairs_view(v@) =~= pairs_view(old(v)@).push((a@, b@)));
}

/// Each subscription attribute a filter is read from, and the filter code it
/// selects, in the order the filters are sent.
pub fn scanner_attribute_codes() -> (r: Vec<(String, String)>)
    ensures
        pairs_view(r@) == attribute_codes(),
{
    let mut r: Vec<(String, String)> = Vec::new();
    push_pair(&mut r, "abovePrice", "priceAbove");
    push_pair(&mut r, "belowPrice", "priceBelow");
    push_pair(&mut r, "aboveVolume", "volumeAbove");
    push_pair(&mut r, "marketCapAbove", "marketCapAbove1e6");
    push_pair(&mut r, "marketCapBelow", "marketCapBelow1e6");
    push_pair(&mut r, "moodyRatingAbove", "moodyRatingAbove");
    push_pair(&mut r, "moodyRatingBelow", "moodyRatingBelow");
    push_pair(&mut r, "spRatingAbove", "spRatingAbove");
    push_pair(&mut r, "spRatingBelow", "spRatingBelow");
    push_pair(&mut r, "maturityDateAbove", "maturityDateAbove");
    push_pair(&mut r, "maturityDateBelow", "maturityDateBelow");
    push_pair(&mut r, "couponRateAbove", "couponRateAbove");
    push_pair(&mut r, "couponRateBelow", "couponRateBelow");
    push_pair(&mut r, "averageOptionVolumeAbove", "avgOptVolumeAbove");
    assert(pairs_view(r@) =~= attribute_codes());
    r
}

/// Whether "above" (or "Above") stands at `i` in a name.
pub open spec fn above_at(s: Seq<char>, i: int) -> bool {
    &&& 0 <= i && i + 5 <= s.len()
    &&& s[i] == 'a' || s[i] == 'A'
    &&& s[i + 1] == 'b' && s[i + 2] == 'o' && s[i + 3] == 'v' && s[i + 4] == 'e'
}

/// Whether "below" (or "Below") stands at `i` in a name.
pub open spec fn below_at(s: Seq<char>, i: int) -> bool {
    &&& 0 <= i && i + 5 <= s.len()
    &&& s[i] == 'b' || s[i] == 'B'
    &&& s[i + 1] == 'e' && s[i + 2] == 'l' && s[i + 3] == 'o' && s[i + 4] == 'w'
}

/// Whether a name sets a lower bound: it opens with "above", or ends with
/// "Above" (a code may add "1e6" after it).
pub open spec fn reads_upward(s: Seq<char>) -> bool {
    above_at(s, 0) || above_at(s, s.len() - 5) || above_at(s, s.len() - 8)
}

/// Whether a name sets an upper bound: it opens with "below", or ends with
/// "Below" (a code may add "1e6" after it).
pub open spec fn reads_downward(s: Seq<char>) -> bool {
    below_at(s, 0) || below_at(s, s.len() - 5) || below_at(s, s.len() - 8)
}

/// What tells two names in the table apart: their length, their first
/// character and the fifth from their end.
pub open spec fn name_key(s: Seq<char>) -> (nat, char, char) {
    (s.len(), s[0], s[s.len() - 5])
}

/// Each subscription attribute is read once, under its own name, and selects
/// a filter code of its own that bounds the same way it does: the attribute
/// names are pairwise distinct, the codes are pairwise distinct, and an
/// attribute setting a lower bound selects a code setting a lower bound (and
/// likewise an upper one), every entry setting exactly one of the two.
pub proof fn law_each_attribute_selects_its_own_code()
    ensures
        forall|j: int, k: int| 0 <= j < k < attribute_codes().len()
            ==> (#[trigger] attribute_codes()[j]).0 != (#[trigger] attribute_codes()[k]).0
                && attribute_codes()[j].1 != attribute_codes()[k].1,
        forall|k: int| 0 <= k < attribute_codes().len() ==> {
            let e = #[trigger] attribute_codes()[k];
            &&& reads_upward(e.0) == reads_upward(e.1)
            &&& reads_downward(e.0) == reads_downward(e.1)
            &&& reads_upward(e.0) != reads_downward(e.0)
        },
{
    let t = attribute_codes();
    reveal_strlit("abovePrice");
    reveal_strlit("aboveVolume");
    reveal_strlit("averageOptionVolumeAbove");
    reveal_strlit("avgOptVolumeAbove");
    reveal_strlit("belowPrice");
    reveal_strlit("couponRateAbove");
    reveal_strlit("couponRateBelow");
    reveal_strlit("marketCapAbove");
    reveal_strlit("marketCapAbove1e6");
    reveal_strlit("marketCapBelow");
    reveal_strlit("marketCapBelow1e6");
    reveal_strlit("maturityDateAbove");
    reveal_strlit("maturityDateBelow");
    reveal_strlit("moodyRatingAbove");
    reveal_strlit("moodyRatingBelow");
    reveal_strlit("priceAbove");
    reveal_strlit("priceBelow");
    reveal_strlit("spRatingAbove");
    reveal_strlit("spRatingBelow");
    reveal_strlit("volumeAbove");
    assert(t[0] == ("abovePrice"@, "priceAbove"@));
    assert(t[1] == ("belowPrice"@, "priceBelow"@));
    assert(t[2] == ("aboveVolume"@, "volumeAbove"@));
    assert(t[3] == ("marketCapAbove"@, "marketCapAbove1e6"@));
    assert(t[4] == ("marketCapBelow"@, "marketCapBelow1e6"@));
    assert(t[5] == ("moodyRatingAbove"@, "moodyRatingAbove"@));
    assert(t[6] == ("moodyRatingBelow"@, "moodyRatingBelow"@));
    assert(t[7] == ("spRatingAbove"@, "spRatingAbove"@));
    assert(t[8] == ("spRatingBelow"@, "spRatingBelow"@));
    assert(t[9] == ("maturityDateAbove"@, "maturityDateAbove"@));
    assert(t[10] == ("maturityDateBelow"@, "maturityDateBelow"@));
    assert(t[11] == ("couponRateAbove"@, "couponRateAbove"@));
    assert(t[12] == ("couponRateBelow"@, "couponRateBelow"@));
    assert(t[13] == ("averageOptionVolumeAbove"@, "avgOptVolumeAbove"@));
    assert forall|k: int| 0 <= k < t.len() implies {
        let e = #[trigger] t[k];
        &&& reads_upward(e.0) == reads_upward(e.1)
        &&& reads_downward(e.0) == reads_downward(e.1)
        &&& reads_upward(e.0) != reads_downward(e.0)
    } by {
        assert(0 <= k < 14);
    }
    assert forall|j: int, k: int| 0 <= j < k < t.len()
        implies (#[trigger] t[j]).0 != (#[trigger] t[k]).0 && t[j].1 != t[k].1 by {
        assert(name_key(t[j].0) != name_key(t[k].0));
        assert(name_key(t[j].1) != name_key(t[k].1));
    }
}

/// The filter value a `stockTypeFilter` name selects, read without regard to
/// ASCII case. Anything else, `ALL` included, is no filter.
pub open spec fn stock_type_code(name: Seq<char>) -> Seq<char> {
    let u = name.map_values(|c: char| upper(c));
    if u == "STOCK"@ {
        "exc:ETF"@
    } else if u == "ETF"@ {
        "inc:ETF"@
    } else if u == "CORP"@ {
        "inc:CORP"@
    } else if u == "ADR"@ {
        "inc:ADR"@
    } else if u == "REIT"@ {
        "inc:REIT"@
    } else if u == "CEF"@ {
        "inc:CEF"@
    } else {
        Seq::empty()
    }
}

/// A text with its ASCII small letters made capital.
pub fn ascii_upper(s: &str) -> (r: String)
    ensures
        r@ == s@.map_values(|c: char| upper(c)),
{
    let n = s.unicode_len();
    let mut r = String::new();
    let mut i: usize = 0;
    while i < n
        invariant
            n == s@.len(),
            i <= n,
            r@ == s@.take(i as int).map_values(|c: char| upper(c)),
        decreases n - i,
    {
        let c = s.get_char(i);
        let u = upper_char(c);
        push_char(&mut r, u);
        assert(s@.take(i + 1).map_values(|c: char| upper(c))
            =~= s@.take(i as int).map_values(|c: char| upper(c)).push(u));
        i = i + 1;
    }
    assert(s@.take(n as int) =~= s@);
    r
}

/// The filter value a `stockTypeFilter` name selects.
pub fn stk_types_code(name: &str) -> (r: &'static str)
    ensures
        r@ == stock_type_code(name@),
{
    let u = ascii_upper(name);
    if same_text(u.as_str(), "STOCK") {
        "exc:ETF"
    } else if same_text(u.as_str(), "ETF") {
        "inc:ETF"
    } else if same_text(u.as_str(), "CORP") {
        "inc:CORP"
    } else if same_text(u.as_str(), "ADR") {
        "inc:ADR"
    } else if same_text(u.as_str(), "REIT") {
        "inc:REIT"
    } else if same_text(u.as_str(), "CEF") {
        "inc:CEF"
    } else {
        proof {
            reveal_strlit("");
        }
        ""
    }
}

/// The stated filters among the subscription's attributes, in table order:
/// each code whose attribute states a value, with that value.
pub open spec fn stated(read: Seq<(Seq<char>, Option<Seq<char>>)>) -> Seq<(Seq<char>, Seq<char>)>
    decreases read.len(),
{
    if read.len() == 0 {
        Seq::empty()
    } else {
        let rest = stated(read.drop_last());
        match read.last().1 {
            Some(v) => rest.push((read.last().0, v)),
            None => rest,
        }
    }
}

/// A list of filters with every one under `code` taken out.
pub open spec fn without(f: Seq<(Seq<char>, Seq<char>)>, code: Seq<char>) -> Seq<(Seq<char>, Seq<char>)>
    decreases f.len(),
{
    if f.len() == 0 {
        Seq::empty()
    } else {
        let rest = without(f.drop_last(), code);
        if f.last().0 == code { rest } else { rest.push(f.last()) }
    }
}

/// One explicit filter tag applied: an empty tag is no filter, and any other
/// replaces every filter already under its code and goes last.
pub open spec fn apply_option(f: Seq<(Seq<char>, Seq<char>)>, option: (Seq<char>, Seq<char>)) -> Seq<(Seq<char>, Seq<char>)> {
    if option.0.len() == 0 {
        f
    } else {
        without(f, option.0).push(option)
    }
}

/// The explicit filter tags applied in the order the caller gave them.
pub open spec fn apply_options(f: Seq<(Seq<char>, Seq<char>)>, options: Seq<(Seq<char>, Seq<char>)>) -> Seq<(Seq<char>, Seq<char>)>
    decreases options.len(),
{
    if options.len() == 0 {
        f
    } else {
        apply_options(apply_option(f, options[0]), options.drop_first())
    }
}

/// The filters a scan is asked for under.
pub open spec fn spec_scanner_filters(
    read: Seq<(Seq<char>, Option<Seq<char>>)>,
    exclude_convertible: bool,
    stock_type_filter: Seq<char>,
    options: Seq<(Seq<char>, Seq<char>)>,
) -> Seq<(Seq<char>, Seq<char>)> {
    let base = stated(read);
    let with_convertible = if exclude_convertible {
        base.push(("excludeConvertible"@, "true"@))
    } else {
        base
    };
    let stk = stock_type_code(stock_type_filter);
    let with_stock_type = if stk.len() != 0 {
        with_convertible.push(("stkTypes"@, stk))
    } else {
        with_convertible
    };
    apply_options(with_stock_type, options)
}

/// The read attributes as plain text.
pub open spec fn read_view(v: Seq<(String, Option<String>)>) -> Seq<(Seq<char>, Option<Seq<char>>)> {
    v.map_values(|p: (String, Option<String>)| (p.0@, match p.1 { Some(s) => Some(s@), None => None }))
}

fn without_code(f: &Vec<(String, String)>, code: &str) -> (r: Vec<(String, String)>)
    ensures
        pairs_view(r@) == without(pairs_view(f@), code@),
{
    let mut r: Vec<(String, String)> = Vec::new();
    let mut i: usize = 0;
    while i < f.len()
        invariant
            i <= f.len(),
            pairs_view(r@) == without(pairs_view(f@).take(i as int), code@),
        decreases f.len() - i,
    {
        let ghost prefix = pairs_view(f@).take(i + 1);
        assert(prefix.drop_last() =~= pairs_view(f@).take(i as int));
        assert(prefix.last() == pair_view(f@[i as int]));
        if !same_text(f[i].0.as_str(), code) {
            let kept = (f[i].0.clone(), f[i].1.clone());
            r.push(kept);
            assert(pairs_view(r@) =~= without(pairs_view(f@).take(i as int), code@).push(pair_view(f@[i as int])));
        }
        i = i + 1;
    }
    assert(pairs_view(f@).take(f.len() as int) =~= pairs_view(f@));
    r
}

/// The filters a scan is asked for under.
///
/// `read` holds, in the order of `attribute_codes`, each filter code and the
/// value its attribute states (`None` where the attribute is missing or left
/// unset); `exclude_convertible` and `stock_type_filter` are the subscription's
/// own; `options` are the caller's explicit filter tags that could be read,
/// in the order given.
pub fn scanner_filters(
    read: &Vec<(String, Option<String>)>,
    exclude_convertible: bool,
    stock_type_filter: &str,
    options: &Vec<(String, String)>,
) -> (r: Vec<(String, String)>)
    ensures
        pairs_view(r@) == spec_scanner_filters(read_view(read@), exclude_convertible, stock_type_filter@, pairs_view(options@)),
{
    let ghost rv = read_view(read@);
    let mut filters: Vec<(String, String)> = Vec::new();
    let mut i: usize = 0;
    while i < read.len()
        invariant
            i <= read.len(),
            rv == read_view(read@),
            pairs_view(filters@) == stated(rv.take(i as int)),
        decreases read.len() - i,
    {
        assert(rv.take(i + 1).drop_last() =~= rv.take(i as int));
        match &read[i].1 {
            Some(v) => {
                let entry = (read[i].0.clone(), v.clone());
                filters.push(entry);
                assert(pairs_view(filters@) =~= stated(rv.take(i as int)).push((read@[i as int].0@, v@)));
            },
            None => {},
        }
        i = i + 1;
    }
    assert(rv.take(read.len() as int) =~= rv);
    if exclude_convertible {
        push_pair(&mut filters, "excludeConvertible", "true");
    }
    let stk = stk_types_code(stock_type_filter);
    if stk.unicode_len() != 0 {
        push_pair(&mut filters, "stkTypes", stk);
    }
    let ghost opts = pairs_view(options@);
    let ghost start = pairs_view(filters@);
    assert(opts.skip(0) =~= opts);
    let mut j: usize = 0;
    while j < options.len()
        invariant
            j <= options.len(),
            opts == pairs_view(options@),
            apply_options(pairs_view(filters@), opts.skip(j as int)) == apply_options(start, opts),
        decreases options.len() - j,
    {
        assert(opts.skip(j as int)[0] == pair_view(options@[j as int]));
        assert(opts.skip(j as int).drop_first() =~= opts.skip(j + 1));
        if options[j].0.unicode_len() != 0 {
            let mut kept = without_code(&filters, options[j].0.as_str());
            let entry = (options[j].0.clone(), options[j].1.clone());
            kept.push(entry);
            assert(pairs_view(kept@) =~= without(pairs_view(filters@), options@[j as int].0@).push(pair_view(options@[j as int])));
            filters = kept;
        }
        j = j + 1;
    }
    assert(opts.skip(options.len() as int) =~= Seq::<(Seq<char>, Seq<char>)>::empty());
    filters
}

/// At most one filter under a code, and that one with the value given.
pub open spec fn holds_once(f: Seq<(Seq<char>, Seq<char>)>, code: Seq<char>, value: Seq<char>) -> bool {
    &&& forall|k: int| 0 <= k < f.len() && (#[trigger] f[k]).0 == code ==> f[k].1 == value
    &&& forall|j: int, k: int| 0 <= j < k < f.len() && (#[trigger] f[j]).0 == code ==> (#[trigger] f[k]).0 != code
}

proof fn lemma_without(f: Seq<(Seq<char>, Seq<char>)>, code: Seq<char>)
    ensures
        forall|k: int| 0 <= k < without(f, code).len() ==> (#[trigger] without(f, code)[k]).0 != code,
        forall|k: int| 0 <= k < without(f, code).len() ==> f.contains(#[trigger] without(f, code)[k]),
        forall|k: int| #![trigger f[k]] 0 <= k < f.len() && f[k].0 != code ==> without(f, code).contains(f[k]),
    decreases f.len(),
{
    if f.len() > 0 {
        lemma_without(f.drop_last(), code);
        let rest = without(f.drop_last(), code);
        assert forall|k: int| 0 <= k < without(f, code).len() implies f.contains(#[trigger] without(f, code)[k]) by {
            if k < rest.len() {
                let x = rest[k];
                assert(f.drop_last().contains(x));
                let m = choose|m: int| 0 <= m < f.drop_last().len() && f.drop_last()[m] == x;
                assert(f[m] == x);
            } else {
                assert(f[f.len() - 1] == f.last());
            }
        }
        assert forall|k: int| #![trigger f[k]] 0 <= k < f.len() && f[k].0 != code
            implies without(f, code).contains(f[k]) by {
            if k < f.len() - 1 {
                assert(f.drop_last()[k] == f[k]);
                assert(rest.contains(f.drop_last()[k]));
                let m = choose|m: int| 0 <= m < rest.len() && rest[m] == f[k];
                assert(without(f, code)[m] == f[k]);
            } else {
                assert(without(f, code)[without(f, code).len() - 1] == f[k]);
            }
        }
    }
}

proof fn lemma_apply_keeps(f: Seq<(Seq<char>, Seq<char>)>, option: (Seq<char>, Seq<char>), code: Seq<char>, value: Seq<char>)
    requires
        holds_once(f, code, value),
        option.0 != code,
    ensures
        holds_once(apply_option(f, option), code, value),
{
    if option.0.len() != 0 {
        lemma_without(f, option.0);
        let w = without(f, option.0);
        let g = w.push(option);
        assert forall|k: int| 0 <= k < g.len() && (#[trigger] g[k]).0 == code implies g[k].1 == value by {
            if k < w.len() {
                assert(f.contains(w[k]));
            }
        }
        assert forall|j: int, k: int| 0 <= j < k < g.len() && (#[trigger] g[j]).0 == code implies (#[trigger] g[k]).0 != code by {
            if k < w.len() {
                assert(f.contains(w[j]));
                assert(f.contains(w[k]));
                let a = choose|a: int| 0 <= a < f.len() && f[a] == w[j];
                let b = choose|b: int| 0 <= b < f.len() && f[b] == w[k];
                // Both entries are under `code` and carry `value`: the same entry.
                assert(f[a].0 == code);
                if g[k].0 == code {
                    assert(f[b].0 == code);
                    lemma_without_order(f, option.0, j, k);
                }
            }
        }
    }
}

/// Taking entries out keeps the rest in their order: two kept entries come
/// from two entries in the same order.
proof fn lemma_without_order(f: Seq<(Seq<char>, Seq<char>)>, code: Seq<char>, j: int, k: int)
    requires
        0 <= j < k < without(f, code).len(),
    ensures
        exists|a: int, b: int| 0 <= a < b < f.len() && f[a] == without(f, code)[j] && f[b] == without(f, code)[k],
    decreases f.len(),
{
    let rest = without(f.drop_last(), code);
    if k < rest.len() {
        lemma_without_order(f.drop_last(), code, j, k);
        let (a, b) = choose|a: int, b: int| 0 <= a < b < f.drop_last().len()
            && f.drop_last()[a] == rest[j] && f.drop_last()[b] == rest[k];
        assert(f[a] == without(f, code)[j] && f[b] == without(f, code)[k]);
    } else {
        lemma_without(f.drop_last(), code);
        assert(f.drop_last().contains(rest[j]));
        let a = choose|a: int| 0 <= a < f.drop_last().len() && f.drop_last()[a] == rest[j];
        let b = f.len() - 1;
        assert(f[a] == without(f, code)[j] && f[b] == without(f, code)[k]);
    }
}

proof fn lemma_apply_sets(f: Seq<(Seq<char>, Seq<char>)>, option: (Seq<char>, Seq<char>))
    requires
        option.0.len() != 0,
    ensures
        holds_once(apply_option(f, option), option.0, option.1),
        apply_option(f, option).contains(option),
{
    lemma_without(f, option.0);
    let w = without(f, option.0);
    let g = w.push(option);
    assert(g[g.len() - 1] == option);
    assert forall|j: int, k: int| 0 <= j < k < g.len() && (#[trigger] g[j]).0 == option.0 implies (#[trigger] g[k]).0 != option.0 by {
        assert(j < w.len());
        assert(w[j].0 != option.0);
    }
}

proof fn lemma_apply_keeps_entry(f: Seq<(Seq<char>, Seq<char>)>, option: (Seq<char>, Seq<char>), entry: (Seq<char>, Seq<char>))
    requires
        f.contains(entry),
        option.0 != entry.0,
    ensures
        apply_option(f, option).contains(entry),
{
    if option.0.len() != 0 {
        lemma_without(f, option.0);
        let k = choose|k: int| 0 <= k < f.len() && f[k] == entry;
        assert(f[k].0 != option.0);
        assert(without(f, option.0).contains(f[k]));
        let w = without(f, option.0);
        let m = choose|m: int| 0 <= m < w.len() && w[m] == entry;
        assert(w.push(option)[m] == entry);
    }
}

proof fn lemma_apply_all_keep(f: Seq<(Seq<char>, Seq<char>)>, options: Seq<(Seq<char>, Seq<char>)>, entry: (Seq<char>, Seq<char>))
    requires
        holds_once(f, entry.0, entry.1),
        f.contains(entry),
        forall|k: int| 0 <= k < options.len() ==> (#[trigger] options[k]).0 != entry.0,
    ensures
        holds_once(apply_options(f, options), entry.0, entry.1),
        apply_options(f, options).contains(entry),
    decreases options.len(),
{
    if options.len() > 0 {
        assert(options[0].0 != entry.0);
        lemma_apply_keeps(f, options[0], entry.0, entry.1);
        lemma_apply_keeps_entry(f, options[0], entry);
        assert forall|k: int| 0 <= k < options.drop_first().len() implies (#[trigger] options.drop_first()[k]).0 != entry.0 by {
            assert(options.drop_first()[k] == options[k + 1]);
        }
        lemma_apply_all_keep(apply_option(f, options[0]), options.drop_first(), entry);
    }
}

proof fn lemma_last_tag_wins(f: Seq<(Seq<char>, Seq<char>)>, options: Seq<(Seq<char>, Seq<char>)>, i: int)
    requires
        0 <= i < options.len(),
        options[i].0.len() != 0,
        forall|k: int| i < k < options.len() ==> (#[trigger] options[k]).0 != options[i].0,
    ensures
        holds_once(apply_options(f, options), options[i].0, options[i].1),
        apply_options(f, options).contains(options[i]),
    decreases i,
{
    let rest = options.drop_first();
    if i == 0 {
        lemma_apply_sets(f, options[0]);
        assert forall|k: int| 0 <= k < rest.len() implies (#[trigger] rest[k]).0 != options[0].0 by {
            assert(rest[k] == options[k + 1]);
        }
        lemma_apply_all_keep(apply_option(f, options[0]), rest, options[0]);
    } else {
        assert(rest[i - 1] == options[i]);
        assert forall|k: int| i - 1 < k < rest.len() implies (#[trigger] rest[k]).0 != rest[i - 1].0 by {
            assert(rest[k] == options[k + 1]);
        }
        lemma_last_tag_wins(apply_option(f, options[0]), rest, i - 1);
    }
}

/// An explicit filter tag replaces the attribute, and any earlier tag, that
/// selects the same code: the filters a scan is asked for under hold the last
/// value the caller gave that code, and hold the code once.
pub proof fn law_explicit_tags_win(
    read: Seq<(Seq<char>, Option<Seq<char>>)>,
    exclude_convertible: bool,
    stock_type_filter: Seq<char>,
    options: Seq<(Seq<char>, Seq<char>)>,
    i: int,
)
    requires
        0 <= i < options.len(),
        options[i].0.len() != 0,
        forall|k: int| i < k < options.len() ==> (#[trigger] options[k]).0 != options[i].0,
    ensures
        spec_scanner_filters(read, exclude_convertible, stock_type_filter, options).contains(options[i]),
        holds_once(spec_scanner_filters(read, exclude_convertible, stock_type_filter, options), options[i].0, options[i].1),
{
    let base = stated(read);
    let with_convertible = if exclude_convertible {
        base.push(("excludeConvertible"@, "true"@))
    } else {
        base
    };
    let stk = stock_type_code(stock_type_filter);
    let with_stock_type = if stk.len() != 0 {
        with_convertible.push(("stkTypes"@, stk))
    } else {
        with_convertible
    };
    lemma_last_tag_wins(with_stock_type, options, i);
}

} // verus!
