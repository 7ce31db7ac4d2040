//! The two spellings of a name.
//!
//! This client names its methods, callbacks and fields with underscores; the
//! reference client runs the words together and capitalises each after the
//! first. A callback is delivered under the reference spelling where the caller
//! defined one, and a name a caller reads under the reference spelling is
//! translated back to this client's.
use vstd::prelude::*;
use crate::text::{is_upper, is_lower, lower, upper, push_char, lower_char};

verus! {

/// What `char::to_uppercase` yields for a character, written out.
pub uninterp spec fn char_uppercase(c: char) -> Seq<char>;

/// The capital form of a character outside ASCII, as Unicode states it.
///
/// Calls `char::to_uppercase` and collects what it yields. Claimed: the result
/// is a function of `c` alone. What that function is, Unicode's case tables,
/// is not written out; within ASCII this layer capitalises by itself.
#[verifier::external_body]
fn uppercase_of(c: char) -> (r: String)
    ensures
        r@ == char_uppercase(c),
{
    c.to_uppercase().collect()
}

/// The capital form of a character: within ASCII the small letters made
/// capital and everything else kept, outside it what Unicode states.
pub open spec fn capital(c: char) -> Seq<char> {
    if (c as u32) < 128 { seq![upper(c)] } else { char_uppercase(c) }
}

/// Whether two texts are the same characters in the same order.
pub fn same_text(a: &str, b: &str) -> (r: bool)
    ensures
        r == (a@ == b@),
{
    let n = a.unicode_len();
    if n != b.unicode_len() {
        return false;
    }
    let mut i: usize = 0;
    while i < n
        invariant
            n == a@.len(),
            n == b@.len(),
            i <= n,
            forall|j: int| 0 <= j < i ==> a@[j] == b@[j],
        decreases n - i,
    {
        if a.get_char(i) != b.get_char(i) {
            return false;
        }
        i = i + 1;
    }
    assert(a@ =~= b@);
    true
}

/// What one character of a name with underscores becomes in the reference
/// spelling, given whether the character before it was an underscore.
pub open spec fn camel_piece(c: char, after_underscore: bool) -> Seq<char> {
    if c == '_' {
        Seq::empty()
    } else if after_underscore {
        capital(c)
    } else {
        seq![c]
    }
}

/// The reference spelling built the ordinary way: underscores dropped and the
/// character after each capitalised.
pub open spec fn camel(s: Seq<char>) -> Seq<char>
    decreases s.len(),
{
    if s.len() == 0 {
        Seq::empty()
    } else {
        camel(s.drop_last()) + camel_piece(s.last(), s.len() >= 2 && s[s.len() - 2] == '_')
    }
}

/// The reference client's spelling of a callback name.
///
/// Three it spells with its letters run together instead of by the ordinary
/// rule, and a wrapper written against it declares those spellings.
pub open spec fn reference_callback_name(s: Seq<char>) -> Seq<char> {
    if s == "real_time_bar"@ {
        "realtimeBar"@
    } else if s == "receive_fa"@ {
        "receiveFA"@
    } else if s == "replace_fa_end"@ {
        "replaceFAEnd"@
    } else {
        camel(s)
    }
}

/// The reference client's spelling of a callback name: its words run together
/// with each after the first capitalised, and three spelled its own way.
pub fn ibapi_name(snake: &str) -> (r: String)
    ensures
        r@ == reference_callback_name(snake@),
{
    if same_text(snake, "real_time_bar") {
        return String::from_str("realtimeBar");
    }
    if same_text(snake, "receive_fa") {
        return String::from_str("receiveFA");
    }
    if same_text(snake, "replace_fa_end") {
        return String::from_str("replaceFAEnd");
    }
    let n = snake.unicode_len();
    let mut out = String::new();
    let mut after_underscore = false;
    let mut i: usize = 0;
    while i < n
        invariant
            n == snake@.len(),
            i <= n,
            out@ == camel(snake@.take(i as int)),
            after_underscore == (i >= 1 && snake@[i - 1] == '_'),
        decreases n - i,
    {
        let c = snake.get_char(i);
        let ghost before = snake@.take(i as int);
        proof {
            assert(snake@.take(i + 1).drop_last() =~= before);
            assert(snake@.take(i + 1).last() == c);
        }
        if c == '_' {
            after_underscore = true;
            assert(out@ =~= camel(snake@.take(i + 1)));
        } else if after_underscore {
            if (c as u32) < 128 {
                let up = crate::text::upper_char(c);
                push_char(&mut out, up);
            } else {
                let up = uppercase_of(c);
                out.append(up.as_str());
            }
            after_underscore = false;
        } else {
            push_char(&mut out, c);
            after_underscore = false;
        }
        i = i + 1;
    }
    assert(snake@.take(n as int) =~= snake@);
    out
}

/// What one character of a reference-spelled name becomes in this client's
/// spelling, given whether it is the first.
pub open spec fn snake_piece(c: char, first: bool) -> Seq<char> {
    if is_upper(c) {
        if first { seq![lower(c)] } else { seq!['_', lower(c)] }
    } else {
        seq![c]
    }
}

/// This client's spelling of a reference-spelled name: an underscore before
/// each ASCII capital but a leading one, and the capital made small.
pub open spec fn snake(s: Seq<char>) -> Seq<char>
    decreases s.len(),
{
    if s.len() == 0 {
        Seq::empty()
    } else {
        snake(s.drop_last()) + snake_piece(s.last(), s.len() == 1)
    }
}

/// This client's spelling of a name given in the reference client's.
pub fn snake_name(name: &str) -> (r: String)
    ensures
        r@ == snake(name@),
{
    let n = name.unicode_len();
    let mut out = String::new();
    let mut i: usize = 0;
    while i < n
        invariant
            n == name@.len(),
            i <= n,
            out@ == snake(name@.take(i as int)),
        decreases n - i,
    {
        let c = name.get_char(i);
        proof {
            assert(name@.take(i + 1).drop_last() =~= name@.take(i as int));
            assert(name@.take(i + 1).last() == c);
        }
        if 'A' <= c && c <= 'Z' {
            if i != 0 {
                push_char(&mut out, '_');
            }
            let small = lower_char(c);
            push_char(&mut out, small);
            assert(out@ =~= snake(name@.take(i + 1)));
        } else {
            push_char(&mut out, c);
        }
        i = i + 1;
    }
    assert(name@.take(n as int) =~= name@);
    out
}

/// The name a table of differently worded fields gives for `name`: the first
/// entry that names it.
pub open spec fn first_alias(aliases: Seq<(Seq<char>, Seq<char>)>, name: Seq<char>) -> Option<Seq<char>>
    decreases aliases.len(),
{
    if aliases.len() == 0 {
        None
    } else if aliases[0].0 == name {
        Some(aliases[0].1)
    } else {
        first_alias(aliases.drop_first(), name)
    }
}

/// A table of aliases as plain character sequences.
pub open spec fn alias_view(aliases: Seq<(String, String)>) -> Seq<(Seq<char>, Seq<char>)> {
    aliases.map_values(|p: (String, String)| (p.0@, p.1@))
}

/// The names to try, in order, for a name a caller read in the reference
/// client's spelling: the field the alias table gives it a different word for,
/// then the name in this client's spelling where that differs from the name
/// as given. Empty where neither applies, which is a name naming no field.
pub open spec fn reference_candidates(
    name: Seq<char>,
    aliases: Seq<(Seq<char>, Seq<char>)>,
) -> Seq<Seq<char>> {
    let by_alias = match first_alias(aliases, name) {
        Some(ours) => seq![ours],
        None => Seq::empty(),
    };
    if snake(name) != name {
        by_alias.push(snake(name))
    } else {
        by_alias
    }
}

/// The field the alias table gives a different word for, if any entry names
/// `name`; the first such entry wins.
pub fn alias_of(name: &str, aliases: &Vec<(String, String)>) -> (r: Option<String>)
    ensures
        match r {
            Some(ours) => first_alias(alias_view(aliases@), name@) == Some(ours@),
            None => first_alias(alias_view(aliases@), name@) is None,
        },
{
    let ghost table = alias_view(aliases@);
    assert(table.skip(0) =~= table);
    let mut i: usize = 0;
    while i < aliases.len()
        invariant
            i <= aliases.len(),
            table == alias_view(aliases@),
            first_alias(table, name@) == first_alias(table.skip(i as int), name@),
        decreases aliases.len() - i,
    {
        proof {
            assert(table.skip(i as int).drop_first() =~= table.skip(i + 1));
            assert(table.skip(i as int)[0] == (aliases@[i as int].0@, aliases@[i as int].1@));
        }
        if same_text(aliases[i].0.as_str(), name) {
            return Some(aliases[i].1.clone());
        }
        i = i + 1;
    }
    proof {
        assert(table.skip(i as int).len() == 0);
    }
    None
}

/// The names this client tries, in order, for a name a caller read under the
/// reference client's spelling.
pub fn candidates_for(name: &str, aliases: &Vec<(String, String)>) -> (r: Vec<String>)
    ensures
        r@.map_values(|s: String| s@) == reference_candidates(name@, alias_view(aliases@)),
{
    let mut r: Vec<String> = Vec::new();
    let ghost by_alias = match first_alias(alias_view(aliases@), name@) {
        Some(ours) => seq![ours],
        None => Seq::<Seq<char>>::empty(),
    };
    match alias_of(name, aliases) {
        Some(ours) => r.push(ours),
        None => {},
    }
    assert(r@.map_values(|s: String| s@) =~= by_alias);
    let snake_form = snake_name(name);
    if !same_text(snake_form.as_str(), name) {
        r.push(snake_form);
        assert(r@.map_values(|s: String| s@) =~= by_alias.push(snake(name@)));
    }
    r
}


/// Whether a character may stand in a name of this client's: a small ASCII
/// letter, a digit, or an underscore.
pub open spec fn name_char(c: char) -> bool {
    is_lower(c) || ('0' <= c && c <= '9') || c == '_'
}

/// Whether a name is spelled the ordinary way with underscores: it opens and
/// ends with no underscore, and every underscore is followed by a small letter.
pub open spec fn ordinary_name(s: Seq<char>) -> bool {
    &&& s.len() > 0
    &&& s[0] != '_'
    &&& s.last() != '_'
    &&& forall|i: int| 0 <= i < s.len() ==> name_char(#[trigger] s[i])
    &&& forall|i: int| 0 <= i < s.len() - 1 && s[i] == '_' ==> is_lower(#[trigger] s[i + 1])
}

proof fn lemma_snake_push(a: Seq<char>, c: char)
    ensures
        snake(a.push(c)) == snake(a) + snake_piece(c, a.len() == 0),
{
    assert(a.push(c).drop_last() =~= a);
}

/// A name with underscores, taken to the reference spelling and read back,
/// up to an underscore it may end with.
proof fn lemma_camel_snake(s: Seq<char>)
    requires
        s.len() > 0,
        s[0] != '_',
        forall|i: int| 0 <= i < s.len() ==> name_char(#[trigger] s[i]),
        forall|i: int| 0 <= i < s.len() - 1 && s[i] == '_' ==> is_lower(#[trigger] s[i + 1]),
    ensures
        camel(s).len() > 0,
        snake(camel(s)) == (if s.last() == '_' { s.drop_last() } else { s }),
    decreases s.len(),
{
    let c = s.last();
    let prev = s.drop_last();
    let after = s.len() >= 2 && s[s.len() - 2] == '_';
    assert(name_char(s[s.len() - 1]));
    if s.len() == 1 {
        assert(prev =~= Seq::<char>::empty());
        assert(camel(prev) =~= Seq::<char>::empty());
        assert(camel(s) == camel(prev) + camel_piece(c, after));
        assert(camel(s) =~= seq![c]);
        lemma_snake_push(Seq::<char>::empty(), c);
        assert(Seq::<char>::empty().push(c) =~= seq![c]);
        assert(snake(seq![c]) =~= seq![c]);
        assert(s =~= seq![c]);
    } else {
        assert forall|i: int| 0 <= i < prev.len() implies name_char(#[trigger] prev[i]) by {
            assert(prev[i] == s[i]);
        }
        assert forall|i: int| 0 <= i < prev.len() - 1 && prev[i] == '_' implies is_lower(#[trigger] prev[i + 1]) by {
            assert(prev[i] == s[i]);
            assert(prev[i + 1] == s[i + 1]);
        }
        lemma_camel_snake(prev);
        assert(prev.last() == s[s.len() - 2]);
        assert(camel(s) == camel(prev) + camel_piece(c, after));
        if c == '_' {
            assert(camel_piece(c, after) =~= Seq::<char>::empty());
            assert(camel(s) =~= camel(prev));
            // The name does not hold two underscores running.
            assert(s[s.len() - 2] != '_') by {
                if s[s.len() - 2] == '_' {
                    assert(is_lower(s[s.len() - 2 + 1]));
                }
            }
        } else if after {
            assert(is_lower(s[s.len() - 2 + 1]));
            assert(is_lower(c));
            assert(camel_piece(c, after) =~= seq![upper(c)]);
            assert(camel(s) =~= camel(prev).push(upper(c)));
            lemma_snake_push(camel(prev), upper(c));
            assert(is_upper(upper(c)));
            assert(lower(upper(c)) == c);
            assert(snake(camel(s)) =~= prev.drop_last() + seq!['_', c]);
            assert(prev.drop_last().push('_') =~= prev);
            assert(s =~= prev.push(c));
        } else {
            assert(camel_piece(c, after) =~= seq![c]);
            assert(camel(s) =~= camel(prev).push(c));
            lemma_snake_push(camel(prev), c);
            assert(!is_upper(c));
            assert(s =~= prev.push(c));
        }
    }
}

/// A name spelled the ordinary way with underscores, put into the reference
/// client's spelling by the ordinary rule, reads back as the same name.
///
/// This is what lets a caller written against the reference client reach a
/// name this client defines: the callback it declares is found under the
/// spelling built here, and the name it reads is translated back to the one
/// this client has.
pub proof fn law_reference_spelling_reads_back(s: Seq<char>)
    requires
        ordinary_name(s),
    ensures
        snake(camel(s)) == s,
{
    lemma_camel_snake(s);
}

/// The same of a callback's name, for every callback but the three the
/// reference client spells its own way.
pub proof fn law_callback_name_reads_back(s: Seq<char>)
    requires
        ordinary_name(s),
        s != "real_time_bar"@,
        s != "receive_fa"@,
        s != "replace_fa_end"@,
    ensures
        snake(reference_callback_name(s)) == s,
{
    lemma_camel_snake(s);
}

} // verus!
