//! A snapshot of the process environment and what configuration reads from it.

use vstd::prelude::*;
use vstd::string::*;
use vstd::utf8::*;
use crate::strings::str_eq;

verus! {

/// Names with their values, as the process found them at start-up.
///
/// Where a name occurs more than once, its first value counts.
#[derive(Clone, Debug)]
pub struct Environment {
    pub variables: Vec<(String, String)>,
}

impl View for Environment {
    type V = Seq<(Seq<char>, Seq<char>)>;

    open spec fn view(&self) -> Seq<(Seq<char>, Seq<char>)> {
        self.variables.deep_view()
    }
}

/// The value of the first variable called `name`, if there is one.
pub open spec fn lookup(variables: Seq<(Seq<char>, Seq<char>)>, name: Seq<char>) -> Option<
    Seq<char>,
>
    decreases variables.len(),
{
    if variables.len() == 0 {
        None
    } else if variables[0].0 == name {
        Some(variables[0].1)
    } else {
        lookup(variables.drop_first(), name)
    }
}

/// Why a channel could not be configured.
#[derive(Clone, Debug, PartialEq, Eq)]
pub enum ConfigurationError {
    /// The named variable is required and not set.
    Missing(String),
    /// The port variable holds this value, which is no port number.
    InvalidPort(String),
}

/// A configuration error as plain character sequences.
pub enum ConfigurationErrorView {
    Missing(Seq<char>),
    InvalidPort(Seq<char>),
}

impl View for ConfigurationError {
    type V = ConfigurationErrorView;

    open spec fn view(&self) -> ConfigurationErrorView {
        match self {
            ConfigurationError::Missing(name) => ConfigurationErrorView::Missing(name@),
            ConfigurationError::InvalidPort(value) => ConfigurationErrorView::InvalidPort(value@),
        }
    }
}

/// Whether `c` is one of the ten decimal digits.
pub open spec fn is_digit(c: char) -> bool {
    '0' <= c <= '9'
}

/// The number that a sequence of decimal digits writes.
pub open spec fn decimal_value(digits: Seq<char>) -> nat
    decreases digits.len(),
{
    if digits.len() == 0 {
        0
    } else {
        decimal_value(digits.drop_last()) * 10 + (digits.last() as u32 - '0' as u32) as nat
    }
}

/// The text without the `+` that may lead it.
pub open spec fn unsigned_part(text: Seq<char>) -> Seq<char> {
    if text.len() > 0 && text[0] == '+' {
        text.drop_first()
    } else {
        text
    }
}

/// The port that `text` writes: an optional `+`, then one or more decimal
/// digits whose value fits 16 bits. Anything else is no port.
pub open spec fn port_of(text: Seq<char>) -> Option<u16> {
    let digits = unsigned_part(text);
    if digits.len() > 0 && (forall|i: int| 0 <= i < digits.len() ==> is_digit(#[trigger] digits[i]))
        && decimal_value(digits) <= u16::MAX {
        Some(decimal_value(digits) as u16)
    } else {
        None
    }
}

/// A longer run of digits never writes a smaller number than its beginning.
proof fn lemma_decimal_value_monotonic(digits: Seq<char>, n: int)
    requires
        0 <= n <= digits.len(),
    ensures
        decimal_value(digits.take(n)) <= decimal_value(digits),
    decreases digits.len(),
{
    if n == digits.len() {
        assert(digits.take(n) =~= digits);
    } else {
        lemma_decimal_value_monotonic(digits.drop_last(), n);
        assert(digits.drop_last().take(n) =~= digits.take(n));
    }
}

/// Reads a port number; `None` where the text is not one.
pub fn parse_port(text: &str) -> (port: Option<u16>)
    ensures
        port == port_of(text@),
{
    if !text.is_ascii() {
        proof {
            // Neither `+` nor a digit lies outside ASCII.
            let bad = choose|i: int| 0 <= i < text@.len() && !('\0' <= #[trigger] text@[i] <= '\u{7f}');
            let digits = unsigned_part(text@);
            if digits.len() == text@.len() {
                assert(!is_digit(digits[bad]));
            } else {
                assert(bad != 0);
                assert(!is_digit(digits[bad - 1]));
            }
        }
        return None;
    }
    let bytes = text.as_bytes();
    proof {
        is_ascii_spec_bytes(text);
    }
    let len = bytes.len();
    let start: usize = if len > 0 && bytes[0] == 43u8 {
        1
    } else {
        0
    };
    let ghost digits = unsigned_part(text@);
    assert(len > 0 ==> bytes@[0] == text@[0] as u8);
    if start == len {
        return None;
    }
    let mut value: u32 = 0;
    let mut i: usize = start;
    while i < len
        invariant
            start <= i <= len,
            len == bytes@.len(),
            len == text@.len(),
            digits == unsigned_part(text@),
            digits.len() == len - start,
            forall|j: int| 0 <= j < len ==> bytes@[j] == (#[trigger] text@[j]) as u8,
            forall|j: int| 0 <= j < len ==> '\0' <= #[trigger] text@[j] <= '\u{7f}',
            forall|j: int| 0 <= j < digits.len() ==> #[trigger] digits[j] == text@[j + start],
            forall|j: int| 0 <= j < i - start ==> is_digit(#[trigger] digits[j]),
            value == decimal_value(digits.take(i - start)),
            value <= u16::MAX,
        decreases len - i,
    {
        let b = bytes[i];
        let ghost k = i - start;
        assert(digits[k] == text@[i as int]);
        if b < 48u8 || b > 57u8 {
            assert(!is_digit(digits[k]));
            return None;
        }
        assert(is_digit(digits[k]));
        let digit: u32 = (b - 48u8) as u32;
        proof {
            assert(digits.take(k + 1).drop_last() =~= digits.take(k));
            assert(digits.take(k + 1).last() == digits[k]);
            assert(decimal_value(digits.take(k + 1)) == value * 10 + digit);
        }
        value = value * 10 + digit;
        if value > 65535 {
            proof {
                lemma_decimal_value_monotonic(digits, k + 1);
            }
            return None;
        }
        i += 1;
    }
    assert(digits.take(i - start) =~= digits);
    Some(value as u16)
}

impl Environment {
    /// An environment with these variables.
    pub fn new(variables: Vec<(String, String)>) -> (environment: Environment)
        ensures
            environment@ == variables.deep_view(),
    {
        Environment { variables }
    }

    /// The value of the variable called `name`, if it is set.
    pub fn var(&self, name: &str) -> (value: Option<&String>)
        ensures
            value.deep_view() == lookup(self@, name@),
    {
        let mut i: usize = 0;
        assert(self@.skip(0) =~= self@);
        while i < self.variables.len()
            invariant
                i <= self.variables.len(),
                self@ == self.variables.deep_view(),
                lookup(self@, name@) == lookup(self@.skip(i as int), name@),
            decreases self.variables.len() - i,
        {
            let ghost rest = self@.skip(i as int);
            assert(rest[0] == self@[i as int]);
            assert(rest.drop_first() =~= self@.skip(i + 1));
            if str_eq(self.variables[i].0.as_str(), name) {
                return Some(&self.variables[i].1);
            }
            i += 1;
        }
        assert(self@.skip(i as int).len() == 0);
        None
    }

    /// A copy of the value of the variable `prefix` + `suffix`, if it is set.
    pub fn optional(&self, prefix: &str, suffix: &str) -> (value: Option<String>)
        ensures
            value.deep_view() == lookup(self@, prefix@ + suffix@),
    {
        let name = prefix.to_owned().concat(suffix);
        match self.var(name.as_str()) {
            Some(text) => Some(text.clone()),
            None => None,
        }
    }

    /// A copy of the value of the variable `prefix` + `suffix`, which has to
    /// be set: where it is not, the error names it.
    pub fn required(&self, prefix: &str, suffix: &str) -> (value: Result<String, ConfigurationError>)
        ensures
            match lookup(self@, prefix@ + suffix@) {
                Some(text) => value matches Ok(v) && v@ == text,
                None => value matches Err(e) && e@ == ConfigurationErrorView::Missing(
                    prefix@ + suffix@,
                ),
            },
    {
        let name = prefix.to_owned().concat(suffix);
        match self.var(name.as_str()) {
            Some(text) => Ok(text.clone()),
            None => Err(ConfigurationError::Missing(name)),
        }
    }
}

} // verus!
