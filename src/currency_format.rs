//! How an amount in a currency is written: a prefix and a suffix around the number.
use vstd::prelude::*;

verus! {

/// Whether the separator `{}` starts at index `i` of `s`.
pub open spec fn separator_at(s: Seq<char>, i: int) -> bool {
    0 <= i && i + 1 < s.len() && s[i] == '{' && s[i + 1] == '}'
}

/// Whether no separator starts before index `p` of `s`.
pub open spec fn no_separator_before(s: Seq<char>, p: int) -> bool {
    forall|j: int| 0 <= j < p ==> !#[trigger] separator_at(s, j)
}

/// The format to use to print a value in a currency: a prefix and a suffix.
#[derive(Clone, Debug)]
pub struct CurrencyFormat {
    pub prefix: String,
    pub suffix: String,
}

/// The format that a format string describes: the text before the first `{}` is the
/// prefix and the text after it the suffix; without a `{}`, all of it is the prefix.
pub open spec fn format_of(s: Seq<char>, prefix: Seq<char>, suffix: Seq<char>) -> bool {
    if no_separator_before(s, s.len() as int) {
        prefix == s && suffix == Seq::<char>::empty()
    } else {
        exists|p: int|
            #![trigger separator_at(s, p)]
            separator_at(s, p) && no_separator_before(s, p) && prefix == s.subrange(0, p)
                && suffix == s.subrange(p + 2, s.len() as int)
    }
}

/// The format string of a prefix and a suffix.
pub open spec fn format_text(prefix: Seq<char>, suffix: Seq<char>) -> Seq<char> {
    prefix + "{}"@ + suffix
}

impl PartialEq for CurrencyFormat {
    fn eq(&self, other: &CurrencyFormat) -> (r: bool) {
        self.prefix == other.prefix && self.suffix == other.suffix
    }
}

impl vstd::std_specs::cmp::PartialEqSpecImpl for CurrencyFormat {
    open spec fn obeys_eq_spec() -> bool {
        true
    }

    open spec fn eq_spec(&self, other: &CurrencyFormat) -> bool {
        self.prefix@ == other.prefix@ && self.suffix@ == other.suffix@
    }
}

/// A format string that cannot be read; reading one never fails.
#[derive(Debug)]
pub struct CurrencyFormatParseError;

impl CurrencyFormat {
    /// Creates a new currency format from a format string.
    pub fn new(s: &str) -> (r: CurrencyFormat)
        ensures
            format_of(s@, r.prefix@, r.suffix@),
    {
        let n = s.unicode_len();
        let mut i: usize = 0;
        while n > 0 && i < n - 1
            invariant
                n == s@.len(),
                i <= n,
                no_separator_before(s@, i as int),
            decreases n - i,
        {
            if s.get_char(i) == '{' && s.get_char(i + 1) == '}' {
                let prefix = s.substring_char(0, i).to_owned();
                let suffix = s.substring_char(i + 2, n).to_owned();
                assert(separator_at(s@, i as int));
                return CurrencyFormat { prefix, suffix };
            }
            i = i + 1;
        }
        assert(no_separator_before(s@, s@.len() as int)) by {
            assert forall|j: int| 0 <= j < s@.len() implies !#[trigger] separator_at(s@, j) by {
                if j >= i {
                    assert(j + 1 >= n);
                }
            }
        }
        CurrencyFormat { prefix: s.to_owned(), suffix: String::new() }
    }

    /// The format string: the prefix, `{}` and the suffix.
    pub fn to_string(&self) -> (r: String)
        ensures
            r@ == format_text(self.prefix@, self.suffix@),
    {
        let mut r = self.prefix.clone();
        r.append("{}");
        r.append(self.suffix.as_str());
        r
    }
}

impl std::str::FromStr for CurrencyFormat {
    type Err = CurrencyFormatParseError;

    fn from_str(source: &str) -> Result<CurrencyFormat, CurrencyFormatParseError> {
        Ok(CurrencyFormat::new(source))
    }
}

} // verus!
