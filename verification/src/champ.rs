use vstd::prelude::*;
use vstd::string::StrSliceExecFns;
use crate::text::append_decimal;
use crate::text::decimal;

verus! {

/// A champion, by its numeric id.
#[derive(Debug, Clone, Copy, PartialEq, Eq, Structural)]
pub struct Champ {
    pub id: u16,
}

/// A text that is no champion id.
#[derive(Debug, Clone, Copy, PartialEq, Eq, Structural)]
pub struct ChampParseError {}

impl Default for Champ {
    fn default() -> (champ: Champ)
        ensures
            champ.id == 0,
    {
        Champ { id: 0 }
    }
}

impl From<u16> for Champ {
    fn from(id: u16) -> (champ: Champ) {
        Champ { id }
    }
}

impl vstd::std_specs::convert::FromSpecImpl<u16> for Champ {
    open spec fn obeys_from_spec() -> bool {
        true
    }

    open spec fn from_spec(id: u16) -> Champ {
        Champ { id }
    }
}

/// The value of a decimal digit; `None` for any other character.
pub open spec fn digit_value(c: char) -> Option<nat> {
    if 48 <= c as u32 <= 57 {
        Some((c as u32 - 48) as nat)
    } else {
        None
    }
}

/// The number that a sequence of decimal digits denotes; `None` where one of
/// the characters is no digit.
pub open spec fn digits_value(s: Seq<char>) -> Option<nat>
    decreases s.len(),
{
    if s.len() == 0 {
        Some(0)
    } else {
        match (digits_value(s.drop_last()), digit_value(s.last())) {
            (Some(v), Some(d)) => Some(10 * v + d),
            _ => None,
        }
    }
}

/// The champion id that a text denotes: one or more decimal digits, with an
/// optional plus sign before them, that denote a number of at most 65535.
pub open spec fn parsed_id(text: Seq<char>) -> Option<u16> {
    let digits = if text.len() > 0 && text[0] == '+' {
        text.skip(1)
    } else {
        text
    };
    if digits.len() == 0 {
        None
    } else {
        match digits_value(digits) {
            Some(v) => if v <= u16::MAX {
                Some(v as u16)
            } else {
                None
            },
            None => None,
        }
    }
}

impl Champ {
    /// Reads a champion id from its decimal text.
    pub fn parse(text: &str) -> (r: Result<Champ, ChampParseError>)
        ensures
            match r {
                Ok(champ) => parsed_id(text@) == Some(champ.id),
                Err(_) => parsed_id(text@) is None,
            },
    {
        let len = text.unicode_len();
        if len == 0 {
            return Err(ChampParseError {  });
        }
        let start: usize = if text.get_char(0) == '+' {
            1
        } else {
            0
        };
        if start == len {
            return Err(ChampParseError {  });
        }
        let ghost digits = text@.skip(start as int);
        assert(text@.skip(0) =~= text@);
        let mut value: u32 = 0;
        let mut too_large = false;
        let mut i: usize = start;
        assert(digits.take(0) =~= Seq::<char>::empty());
        while i < len
            invariant
                start <= i <= len,
                len == text@.len(),
                digits == text@.skip(start as int),
                digits.len() > 0,
                digits == if text@.len() > 0 && text@[0] == '+' {
                    text@.skip(1)
                } else {
                    text@
                },
                value <= u16::MAX,
                digits_value(digits.take(i - start)) is Some,
                !too_large ==> digits_value(digits.take(i - start)) == Some(value as nat),
                too_large ==> digits_value(digits.take(i - start)).unwrap() > u16::MAX,
            decreases len - i,
        {
            let c = text.get_char(i);
            let code = c as u32;
            proof {
                assert(digits.take(i + 1 - start).drop_last() =~= digits.take(i - start));
                assert(digits.take(i + 1 - start).last() == c);
            }
            if code < 48 || code > 57 {
                proof {
                    assert(digit_value(c) is None);
                    assert(digits_value(digits.take(i + 1 - start)) is None);
                    lemma_digits_value_prefix(digits, i + 1 - start);
                }
                return Err(ChampParseError {  });
            }
            let next = value * 10 + (code - 48);
            if too_large || next > 0xffff {
                too_large = true;
            } else {
                value = next;
            }
            i += 1;
        }
        assert(digits.take(len - start) =~= digits);
        if too_large {
            Err(ChampParseError {  })
        } else {
            Ok(Champ { id: value as u16 })
        }
    }

    /// The champion's id in decimal.
    pub fn to_string(&self) -> (text: String)
        ensures
            text@ == decimal(self.id as nat),
    {
        let mut text = String::new();
        append_decimal(&mut text, self.id as u64);
        assert(text@ =~= decimal(self.id as nat));
        text
    }
}

/// A sequence with a prefix that denotes no number denotes no number.
pub proof fn lemma_digits_value_prefix(s: Seq<char>, n: int)
    requires
        0 <= n <= s.len(),
        digits_value(s.take(n)) is None,
    ensures
        digits_value(s) is None,
    decreases s.len() - n,
{
    if n < s.len() {
        assert(s.take(n + 1).drop_last() =~= s.take(n));
        lemma_digits_value_prefix(s, n + 1);
    } else {
        assert(s.take(n) =~= s);
    }
}

/// A number in decimal denotes that number.
pub proof fn lemma_decimal_denotes(n: nat)
    ensures
        digits_value(decimal(n)) == Some(n),
        decimal(n).len() > 0,
        decimal(n)[0] != '+',
    decreases n,
{
    if n < 10 {
        let s = decimal(n);
        assert(s.drop_last() =~= Seq::<char>::empty());
        assert(digits_value(s.drop_last()) == Some(0nat));
        assert(digit_value(s.last()) == Some(n));
    } else {
        lemma_decimal_denotes(n / 10);
        let s = decimal(n);
        assert(s.drop_last() =~= decimal(n / 10));
        assert(digit_value(s.last()) == Some(n % 10));
        assert(s[0] == decimal(n / 10)[0]);
    }
}

/// Reading a champion id back from its decimal text gives the id.
pub proof fn lemma_parse_of_to_string(champ: Champ)
    ensures
        parsed_id(decimal(champ.id as nat)) == Some(champ.id),
{
    lemma_decimal_denotes(champ.id as nat);
}

impl TryFrom<String> for Champ {
    type Error = ChampParseError;

    fn try_from(id: String) -> (r: Result<Champ, ChampParseError>)
        ensures
            match r {
                Ok(champ) => parsed_id(id@) == Some(champ.id),
                Err(_) => parsed_id(id@) is None,
            },
    {
        let r = Champ::parse(id.as_str());
        proof {
            if let Err(e) = r {
                assert(e == ChampParseError {  });
            }
        }
        r
    }
}

impl vstd::std_specs::convert::TryFromSpecImpl<String> for Champ {
    open spec fn obeys_try_from_spec() -> bool {
        true
    }

    open spec fn try_from_spec(id: String) -> Result<Champ, ChampParseError> {
        match parsed_id(id@) {
            Some(id) => Ok(Champ { id }),
            None => Err(ChampParseError {  }),
        }
    }
}

impl From<Champ> for String {
    fn from(champ: Champ) -> (text: String)
        ensures
            text@ == decimal(champ.id as nat),
    {
        champ.to_string()
    }
}

impl vstd::std_specs::convert::FromSpecImpl<Champ> for String {
    open spec fn obeys_from_spec() -> bool {
        false
    }

    open spec fn from_spec(champ: Champ) -> String {
        arbitrary()
    }
}

} // verus!
