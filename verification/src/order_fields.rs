//! Fields of an order that hold lists of the caller's objects: each entry is
//! read, and one that cannot be read refuses the order rather than going out
//! as absent.
use vstd::prelude::*;
use crate::text::{decimal, push_decimal};

verus! {

/// The refusal of an option whose field cannot be read.
pub open spec fn unreadable_option(at: int, name: Seq<char>, why: Seq<char>) -> Seq<char> {
    "option "@ + decimal(at) + " states no readable "@ + name + ": "@ + why
}

/// An entry as read: its text, or why it could not be read.
pub open spec fn read_view(r: Result<String, String>) -> Result<Seq<char>, Seq<char>> {
    match r {
        Ok(s) => Ok(s@),
        Err(e) => Err(e@),
    }
}

/// The first refusal among the options from `from` on, tag before value
/// within each.
pub open spec fn first_unreadable(options: Seq<(Result<String, String>, Result<String, String>)>, from: int) -> Option<Seq<char>>
    decreases options.len() - from,
{
    if from < 0 || from >= options.len() {
        None
    } else if let Err(why) = read_view(options[from].0) {
        Some(unreadable_option(from, "tag"@, why))
    } else if let Err(why) = read_view(options[from].1) {
        Some(unreadable_option(from, "value"@, why))
    } else {
        first_unreadable(options, from + 1)
    }
}

fn refuse(at: usize, name: &str, why: &String) -> (r: String)
    requires
        at <= i64::MAX,
    ensures
        r@ == unreadable_option(at as int, name@, why@),
{
    let mut r = String::from_str("option ");
    push_decimal(&mut r, at as i64);
    r.append(" states no readable ");
    r.append(name);
    r.append(": ");
    r.append(why.as_str());
    r
}

/// The caller's own tags on an order, each as its tag and value read, or the
/// refusal of the first that cannot be read.
pub fn tag_values(options: &Vec<(Result<String, String>, Result<String, String>)>) -> (r: Result<Vec<(String, String)>, String>)
    requires
        options.len() <= i64::MAX,
    ensures
        match first_unreadable(options@, 0) {
            Some(why) => r matches Err(e) && e@ == why,
            None => r matches Ok(out) && out.len() == options.len()
                && forall|k: int| 0 <= k < options.len() ==>
                    read_view(options@[k].0) == Ok::<Seq<char>, Seq<char>>((#[trigger] out@[k]).0@)
                    && read_view(options@[k].1) == Ok::<Seq<char>, Seq<char>>(out@[k].1@),
        },
{
    let mut out: Vec<(String, String)> = Vec::new();
    let mut i: usize = 0;
    while i < options.len()
        invariant
            i <= options.len(),
            options.len() <= i64::MAX,
            out.len() == i,
            first_unreadable(options@, 0) == first_unreadable(options@, i as int),
            forall|k: int| 0 <= k < i ==>
                read_view(options@[k].0) == Ok::<Seq<char>, Seq<char>>((#[trigger] out@[k]).0@)
                && read_view(options@[k].1) == Ok::<Seq<char>, Seq<char>>(out@[k].1@),
        decreases options.len() - i,
    {
        let tag = match &options[i].0 {
            Ok(t) => t.clone(),
            Err(why) => {
                return Err(refuse(i, "tag", why));
            },
        };
        let value = match &options[i].1 {
            Ok(v) => v.clone(),
            Err(why) => {
                return Err(refuse(i, "value", why));
            },
        };
        out.push((tag, value));
        i = i + 1;
    }
    Ok(out)
}

/// The refusal of a combination leg's price that cannot be read.
pub open spec fn unreadable_leg_price(at: int, why: Seq<char>) -> Seq<char> {
    "leg "@ + decimal(at) + " of this combination states a price that cannot be read: "@ + why
        + ". Read as absent, the leg would be struck at whatever the venue struck it at, which is not the price the caller stated"@
}

/// The refusal of the price of leg `at`, which could not be read, with why.
pub fn leg_price_refusal(at: usize, why: &str) -> (r: String)
    requires
        at <= i64::MAX,
    ensures
        r@ == unreadable_leg_price(at as int, why@),
{
    let mut r = String::from_str("leg ");
    push_decimal(&mut r, at as i64);
    r.append(" of this combination states a price that cannot be read: ");
    r.append(why);
    r.append(". Read as absent, the leg would be struck at whatever the venue struck it at, which is not the price the caller stated");
    r
}

} // verus!
