//! A timestamp in seconds with an optional sub-second part of fixed
//! precision, and the text form of both.

use vstd::prelude::*;
use vstd::utf8::encode_utf8;
use vstd::utf8::is_ascii_chars;
use vstd::utf8::is_ascii_chars_encode_utf8;
use crate::decimal::all_digits;
use crate::decimal::decimal_value;
use crate::decimal::lemma_decimal_value_bound;
use crate::decimal::lemma_pow10_increases;
use crate::decimal::lemma_pow10_values;
use crate::decimal::lemma_zero_padded_len;
use crate::decimal::lemma_zero_padded_reads_back;
use crate::decimal::parse_digits;
use crate::decimal::pow10;
use crate::decimal::push_signed;
use crate::decimal::push_zero_padded;
use crate::decimal::signed_decimal;
use crate::decimal::zero_padded;
use crate::error::Epoch as EpochError;

verus! {

/// The delimiter that [`Epoch::format`] puts before the sub-second digits.
pub const DELIMITER: char = '.';

/// The sub-second part of a timestamp, at one of three precisions or absent.
#[derive(Debug, Clone, PartialEq, Eq, PartialOrd, Ord, Structural)]
pub enum SubSecond {
    /// No sub-second part is set.
    Unset,
    /// Milliseconds, below 1000.
    Milli(u16),
    /// Microseconds, below 1 000 000.
    Micro(u32),
    /// Nanoseconds, below 1 000 000 000.
    Nano(u64),
}

/// Seconds since the Unix epoch, negative for an instant before it, with an
/// optional sub-second part. The seconds are kept as given and never folded
/// into the sub-second part.
#[derive(Debug, Clone, PartialEq, Eq, PartialOrd, Ord, Structural)]
pub struct Epoch {
    epoch: i64,
    subsecond: SubSecond,
}

/// What an [`Epoch`] stands for: the seconds as a mathematical integer and the
/// sub-second part.
pub struct EpochView {
    pub epoch: int,
    pub subsecond: SubSecond,
}

/// The three lengths that a sub-second text may have.
pub open spec fn accepted_width(len: nat) -> bool {
    len == 3 || len == 6 || len == 9
}

/// The length of a text in bytes of UTF-8, which is what `str::len` counts.
pub open spec fn byte_len(s: Seq<char>) -> nat {
    encode_utf8(s).len()
}

/// A `+` followed by at least one digit and nothing else.
pub open spec fn plus_signed(s: Seq<char>) -> bool {
    s.len() >= 2 && s[0] == '+' && all_digits(s.skip(1))
}

/// What the integer parser of `std` takes for an unsigned number, leaving its
/// size aside: digits, or a `+` and digits.
pub open spec fn unsigned_literal(s: Seq<char>) -> bool {
    (s.len() >= 1 && all_digits(s)) || plus_signed(s)
}

/// The digits of an unsigned literal, without the sign.
pub open spec fn literal_digits(s: Seq<char>) -> Seq<char> {
    if plus_signed(s) {
        s.skip(1)
    } else {
        s
    }
}

/// The text of a timestamp: the seconds, then, where a sub-second part is set,
/// the delimiter and the part's digits, zero-padded to its width.
pub open spec fn rendered(epoch: int, subsecond: SubSecond, delimiter: char) -> Seq<char> {
    match subsecond {
        SubSecond::Unset => signed_decimal(epoch),
        _ => signed_decimal(epoch) + seq![delimiter] + zero_padded(
            subsecond.value(),
            subsecond.width(),
        ),
    }
}

/// `str::parse::<u64>`. It returns `Ok` exactly for digits, or a `+` and
/// digits, that write a number within `u64`; the contract says nothing of the
/// number itself nor of what the error holds.
#[verifier::external_body]
fn parse_u64(s: &str) -> (r: Result<u64, std::num::ParseIntError>)
    ensures
        r.is_ok() == (unsigned_literal(s@) && decimal_value(literal_digits(s@)) <= u64::MAX),
{
    s.parse::<u64>()
}

/// An unsigned literal is ASCII: it has as many bytes as characters, and what
/// follows its sign is digits.
proof fn lemma_literal_byte_len(s: Seq<char>)
    requires
        unsigned_literal(s),
    ensures
        byte_len(s) == s.len(),
        all_digits(literal_digits(s)),
{
    assert(is_ascii_chars(s)) by {
        assert forall|i: int| 0 <= i < s.len() implies '\0' <= #[trigger] s[i] <= '\u{7f}' by {
            if plus_signed(s) && i >= 1 {
                assert(s[i] == s.skip(1)[i - 1]);
            }
        }
    }
    is_ascii_chars_encode_utf8(s);
}

impl SubSecond {
    /// How many digits the part is written with; 0 where none is set.
    pub open spec fn width(self) -> nat {
        match self {
            SubSecond::Unset => 0,
            SubSecond::Milli(_) => 3,
            SubSecond::Micro(_) => 6,
            SubSecond::Nano(_) => 9,
        }
    }

    /// The number that the part carries; 0 where none is set.
    pub open spec fn value(self) -> nat {
        match self {
            SubSecond::Unset => 0,
            SubSecond::Milli(ms) => ms as nat,
            SubSecond::Micro(us) => us as nat,
            SubSecond::Nano(ns) => ns as nat,
        }
    }

    /// Whether the number is less than one second at the part's precision.
    pub open spec fn in_range(self) -> bool {
        self.value() < pow10(self.width())
    }

    /// The part that a run of 3, 6 or 9 digits writes.
    pub open spec fn of_digits(s: Seq<char>) -> SubSecond {
        if s.len() == 3 {
            SubSecond::Milli(decimal_value(s) as u16)
        } else if s.len() == 6 {
            SubSecond::Micro(decimal_value(s) as u32)
        } else {
            SubSecond::Nano(decimal_value(s) as u64)
        }
    }

    /// Reads a sub-second part from exactly 3, 6 or 9 decimal digits, as
    /// milliseconds, microseconds or nanoseconds. Every other text is
    /// rejected: with `InvalidSubSecond` and the text itself where its length
    /// in bytes is none of the three or where it is a `+` followed by digits,
    /// and with `InvalidEpoch` and the integer parser's error where the length
    /// fits but the text is no unsigned number.
    pub fn from_str(s: &str) -> (r: Result<SubSecond, EpochError>)
        ensures
            r is Ok <==> accepted_width(s@.len()) && all_digits(s@),
            r matches Ok(v) ==> v == SubSecond::of_digits(s@) && v.in_range() && v.width()
                == s@.len() && v.value() == decimal_value(s@),
            r matches Err(EpochError::InvalidSubSecond(text)) ==> text@ == s@ && (!accepted_width(
                byte_len(s@),
            ) || plus_signed(s@)),
            r matches Err(EpochError::InvalidEpoch(_)) ==> accepted_width(byte_len(s@))
                && !unsigned_literal(s@),
    {
        let len: usize = s.as_bytes().len();
        proof {
            lemma_pow10_values();
            if unsigned_literal(s@) {
                lemma_literal_byte_len(s@);
                if len <= 9 {
                    lemma_decimal_value_bound(literal_digits(s@));
                    lemma_pow10_increases(literal_digits(s@).len(), 19);
                }
            }
        }
        if len != 3 && len != 6 && len != 9 {
            return Err(EpochError::InvalidSubSecond(s.to_owned()));
        }
        match parse_digits(s) {
            Some(v) => {
                return Ok(
                    if len == 3 {
                        SubSecond::Milli(v as u16)
                    } else if len == 6 {
                        SubSecond::Micro(v as u32)
                    } else {
                        SubSecond::Nano(v)
                    },
                );
            },
            None => {},
        }
        match parse_u64(s) {
            Ok(_) => Err(EpochError::InvalidSubSecond(s.to_owned())),
            Err(e) => Err(EpochError::InvalidEpoch(e)),
        }
    }
}

impl View for Epoch {
    type V = EpochView;

    closed spec fn view(&self) -> EpochView {
        EpochView { epoch: self.epoch as int, subsecond: self.subsecond }
    }
}

impl Epoch {
    /// Whether the sub-second part, where one is set, is less than a second.
    /// Every `Epoch` that the functions of this type build has this.
    pub open spec fn wf(self) -> bool {
        self@.subsecond.in_range()
    }

    /// A timestamp of `epoch` seconds with no sub-second part.
    #[must_use]
    pub fn new(epoch: i64) -> (r: Epoch)
        ensures
            r@ == (EpochView { epoch: epoch as int, subsecond: SubSecond::Unset }),
            r.wf(),
    {
        proof {
            lemma_pow10_values();
        }
        Epoch { epoch, subsecond: SubSecond::Unset }
    }

    /// The same timestamp with the seconds replaced.
    #[must_use]
    pub fn with_epoch(self, epoch: i64) -> (r: Epoch)
        ensures
            r@ == (EpochView { epoch: epoch as int, subsecond: self@.subsecond }),
            self.wf() ==> r.wf(),
    {
        Epoch { epoch, subsecond: self.subsecond }
    }

    /// The same seconds with the sub-second part set to milliseconds, in
    /// place of any part set before.
    #[must_use]
    pub fn with_millis(self, millis: u16) -> (r: Epoch)
        requires
            millis < 1000,
        ensures
            r@ == (EpochView { epoch: self@.epoch, subsecond: SubSecond::Milli(millis) }),
            r.wf(),
    {
        proof {
            lemma_pow10_values();
        }
        Epoch { epoch: self.epoch, subsecond: SubSecond::Milli(millis) }
    }

    /// The same seconds with the sub-second part set to microseconds, in
    /// place of any part set before.
    #[must_use]
    pub fn with_micros(self, micros: u32) -> (r: Epoch)
        requires
            micros < 1_000_000,
        ensures
            r@ == (EpochView { epoch: self@.epoch, subsecond: SubSecond::Micro(micros) }),
            r.wf(),
    {
        proof {
            lemma_pow10_values();
        }
        Epoch { epoch: self.epoch, subsecond: SubSecond::Micro(micros) }
    }

    /// The same seconds with the sub-second part set to nanoseconds, in place
    /// of any part set before.
    #[must_use]
    pub fn with_nanos(self, nanos: u64) -> (r: Epoch)
        requires
            nanos < 1_000_000_000,
        ensures
            r@ == (EpochView { epoch: self@.epoch, subsecond: SubSecond::Nano(nanos) }),
            r.wf(),
    {
        proof {
            lemma_pow10_values();
        }
        Epoch { epoch: self.epoch, subsecond: SubSecond::Nano(nanos) }
    }

    /// The seconds.
    #[must_use]
    pub fn epoch(&self) -> (r: i64)
        ensures
            r == self@.epoch,
    {
        self.epoch
    }

    /// The sub-second part.
    #[must_use]
    pub fn subsecond(&self) -> (r: &SubSecond)
        ensures
            *r == self@.subsecond,
    {
        &self.subsecond
    }

    /// The timestamp as text, with `delimiter` between the seconds and the
    /// sub-second digits. A negative timestamp has its `-` on the seconds; the
    /// sub-second digits are the same whatever the sign.
    #[must_use]
    pub fn format_with_delimiter(&self, delimiter: char) -> (s: String)
        ensures
            s@ == rendered(self@.epoch, self@.subsecond, delimiter),
    {
        let mut out = String::new();
        push_signed(&mut out, self.epoch);
        match self.subsecond {
            SubSecond::Unset => {},
            SubSecond::Milli(ms) => {
                out.push(delimiter);
                push_zero_padded(&mut out, ms as u64, 3);
            },
            SubSecond::Micro(us) => {
                out.push(delimiter);
                push_zero_padded(&mut out, us as u64, 6);
            },
            SubSecond::Nano(ns) => {
                out.push(delimiter);
                push_zero_padded(&mut out, ns, 9);
            },
        }
        proof {
            assert(out@ =~= rendered(self@.epoch, self@.subsecond, delimiter));
        }
        out
    }

    /// The timestamp as text with `.` as the delimiter.
    #[must_use]
    pub fn format(&self) -> (s: String)
        ensures
            s@ == rendered(self@.epoch, self@.subsecond, DELIMITER),
    {
        self.format_with_delimiter(DELIMITER)
    }

    /// The same text as [`Epoch::format`].
    #[must_use]
    pub fn to_string(&self) -> (s: String)
        ensures
            s@ == rendered(self@.epoch, self@.subsecond, DELIMITER),
    {
        self.format()
    }
}

impl Default for Epoch {
    /// Zero seconds and no sub-second part.
    fn default() -> (r: Epoch)
        ensures
            r@ == (EpochView { epoch: 0, subsecond: SubSecond::Unset }),
            r.wf(),
    {
        Epoch::new(0)
    }
}

impl std::str::FromStr for SubSecond {
    type Err = EpochError;

    /// The same as [`SubSecond::from_str`], for `str::parse`.
    fn from_str(s: &str) -> (r: Result<SubSecond, EpochError>)
        ensures
            r is Ok <==> accepted_width(s@.len()) && all_digits(s@),
            r matches Ok(v) ==> v == SubSecond::of_digits(s@),
            r matches Err(EpochError::InvalidSubSecond(text)) ==> text@ == s@ && (!accepted_width(
                byte_len(s@),
            ) || plus_signed(s@)),
            r matches Err(EpochError::InvalidEpoch(_)) ==> accepted_width(byte_len(s@))
                && !unsigned_literal(s@),
    {
        SubSecond::from_str(s)
    }
}

/// A timestamp is its seconds and its sub-second part and nothing else: two
/// timestamps with the same view are equal.
pub proof fn lemma_epoch_is_its_view(a: Epoch, b: Epoch)
    requires
        a@ == b@,
    ensures
        a == b,
{
}

/// The text of a well-formed timestamp with a sub-second part ends in exactly
/// as many digits as the part's width, after the seconds and one delimiter.
pub proof fn lemma_rendered_width(epoch: int, subsecond: SubSecond, delimiter: char)
    requires
        subsecond.in_range(),
        subsecond != SubSecond::Unset,
    ensures
        rendered(epoch, subsecond, delimiter).len() == signed_decimal(epoch).len() + 1
            + subsecond.width(),
        rendered(epoch, subsecond, delimiter).subrange(0, signed_decimal(epoch).len() as int)
            == signed_decimal(epoch),
        rendered(epoch, subsecond, delimiter)[signed_decimal(epoch).len() as int] == delimiter,
{
    lemma_zero_padded_len(subsecond.value(), subsecond.width());
    let text = rendered(epoch, subsecond, delimiter);
    assert(text.subrange(0, signed_decimal(epoch).len() as int) =~= signed_decimal(epoch));
}

/// Reading the sub-second digits of a well-formed timestamp's text gives the
/// sub-second part back.
pub proof fn lemma_subsecond_reads_back(subsecond: SubSecond)
    requires
        subsecond.in_range(),
        subsecond != SubSecond::Unset,
    ensures
        ({
            let digits = zero_padded(subsecond.value(), subsecond.width());
            &&& accepted_width(digits.len())
            &&& all_digits(digits)
            &&& SubSecond::of_digits(digits) == subsecond
        }),
{
    lemma_zero_padded_len(subsecond.value(), subsecond.width());
    lemma_zero_padded_reads_back(subsecond.value(), subsecond.width());
}

} // verus!
