use vstd::prelude::*;
use vstd::string::StringExecFns;

use crate::color::Color;

verus! {

/// The message log: an append-only, oldest-first record of narrated
/// events, each with the color it should be rendered in.
pub struct Messages {
    pub messages: Vec<(String, Color)>,
}

/// `new` extends `old` by exactly one entry whose text reads `text` and
/// whose color is `color`; everything already logged is kept as it was.
pub open spec fn msgs_pushed(
    old: Seq<(String, Color)>,
    new: Seq<(String, Color)>,
    text: Seq<char>,
    color: Color,
) -> bool {
    &&& new.len() == old.len() + 1
    &&& new.subrange(0, old.len() as int) == old
    &&& new.last().0@ == text
    &&& new.last().1 == color
}

/// `new` extends `old` by exactly two entries, in the order given.
pub open spec fn msgs_pushed2(
    old: Seq<(String, Color)>,
    new: Seq<(String, Color)>,
    text1: Seq<char>,
    color1: Color,
    text2: Seq<char>,
    color2: Color,
) -> bool {
    &&& new.len() == old.len() + 2
    &&& new.subrange(0, old.len() as int) == old
    &&& new[old.len() as int].0@ == text1
    &&& new[old.len() as int].1 == color1
    &&& new.last().0@ == text2
    &&& new.last().1 == color2
}

/// The log only ever grows, and what was logged is never rewritten.
pub open spec fn msgs_extended(old: Seq<(String, Color)>, new: Seq<(String, Color)>) -> bool {
    &&& old.len() <= new.len()
    &&& new.subrange(0, old.len() as int) =~= old
}

impl Messages {
    /// An empty log.
    pub fn new() -> (m: Messages)
        ensures
            m.messages@.len() == 0,
    {
        Messages { messages: Vec::new() }
    }

    /// Append one message; everything already logged is untouched.
    pub fn add(&mut self, message: String, color: Color)
        ensures
            final(self).messages@ == old(self).messages@.push((message, color)),
            msgs_pushed(old(self).messages@, final(self).messages@, message@, color),
    {
        let ghost prior = self.messages@;
        self.messages.push((message, color));
        proof {
            assert(self.messages@.subrange(0, prior.len() as int) =~= prior);
        }
    }

    /// How many messages have been logged.
    pub fn len(&self) -> (n: usize)
        ensures
            n == self.messages@.len(),
    {
        self.messages.len()
    }

    /// Read one logged message; the renderer walks indices from newest
    /// (`len() - 1`) down to oldest (`0`).
    pub fn get(&self, i: usize) -> (m: &(String, Color))
        requires
            i < self.messages@.len(),
        ensures
            *m == self.messages@[i as int],
    {
        &self.messages[i]
    }
}

/// The character for one decimal digit value.
pub open spec fn dec_digit(d: int) -> char {
    if d == 0 {
        '0'
    } else if d == 1 {
        '1'
    } else if d == 2 {
        '2'
    } else if d == 3 {
        '3'
    } else if d == 4 {
        '4'
    } else if d == 5 {
        '5'
    } else if d == 6 {
        '6'
    } else if d == 7 {
        '7'
    } else if d == 8 {
        '8'
    } else {
        '9'
    }
}

/// The usual decimal notation of a natural number, most significant
/// digit first, without leading zeros (`0` itself reads "0").
pub open spec fn dec_rep(n: nat) -> Seq<char>
    decreases n,
{
    if n < 10 {
        seq![dec_digit(n as int)]
    } else {
        dec_rep(n / 10).push(dec_digit((n % 10) as int))
    }
}

fn digit_str(d: u32) -> (s: &'static str)
    requires
        d < 10,
    ensures
        s@ == seq![dec_digit(d as int)],
{
    proof {
        reveal_strlit("0");
        reveal_strlit("1");
        reveal_strlit("2");
        reveal_strlit("3");
        reveal_strlit("4");
        reveal_strlit("5");
        reveal_strlit("6");
        reveal_strlit("7");
        reveal_strlit("8");
        reveal_strlit("9");
    }
    let s: &'static str = if d == 0 {
        "0"
    } else if d == 1 {
        "1"
    } else if d == 2 {
        "2"
    } else if d == 3 {
        "3"
    } else if d == 4 {
        "4"
    } else if d == 5 {
        "5"
    } else if d == 6 {
        "6"
    } else if d == 7 {
        "7"
    } else if d == 8 {
        "8"
    } else {
        "9"
    };
    proof {
        assert(s@ =~= seq![dec_digit(d as int)]);
    }
    s
}

/// Render a number in decimal, exactly as `dec_rep` spells it.
pub fn u32_to_dec(n: u32) -> (s: String)
    ensures
        s@ == dec_rep(n as nat),
    decreases n,
{
    if n < 10 {
        digit_str(n).to_owned()
    } else {
        let mut s = u32_to_dec(n / 10);
        s.append(digit_str(n % 10));
        proof {
            assert(s@ =~= dec_rep((n / 10) as nat).push(dec_digit((n % 10) as int)));
        }
        s
    }
}

} // verus!
