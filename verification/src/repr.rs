//! Decoding single text fields into typed values.
//!
//! A field is first parsed into an intermediate numeric value, then
//! projected into the target domain; the two steps fail differently
//! (a parse error versus a value error).

use vstd::prelude::*;
use crate::csv::{is_blank, blank, get_field, Error, Record, RecordView, VeekunError};

verus! {

/// A decimal digit.
pub open spec fn is_digit(c: char) -> bool {
    '0' <= c && c <= '9'
}

/// All characters are decimal digits, and there is at least one.
pub open spec fn all_digits(s: Seq<char>) -> bool {
    s.len() > 0 && forall|i: int| 0 <= i < s.len() ==> is_digit(s[i])
}

/// The value of a sequence of decimal digits, most significant first.
pub open spec fn dec_val(s: Seq<char>) -> int
    decreases s.len(),
{
    if s.len() == 0 {
        0
    } else {
        dec_val(s.drop_last()) * 10 + (s.last() as u32 - '0' as u32)
    }
}

proof fn lemma_dec_val_nonneg(s: Seq<char>)
    requires
        forall|i: int| 0 <= i < s.len() ==> is_digit(s[i]),
    ensures
        dec_val(s) >= 0,
    decreases s.len(),
{
    if s.len() > 0 {
        lemma_dec_val_nonneg(s.drop_last());
    }
}

/// Extending a digit string can only increase its value.
proof fn lemma_dec_val_prefix(s: Seq<char>, n: int)
    requires
        forall|i: int| 0 <= i < s.len() ==> is_digit(s[i]),
        0 <= n <= s.len(),
    ensures
        dec_val(s) >= dec_val(s.take(n)),
    decreases s.len() - n,
{
    lemma_dec_val_nonneg(s.take(n));
    if n < s.len() {
        lemma_dec_val_prefix(s, n + 1);
        assert(s.take(n + 1).drop_last() =~= s.take(n));
        assert(dec_val(s.take(n + 1)) == dec_val(s.take(n)) * 10 + (s.take(n + 1).last() as u32
            - '0' as u32));
    } else {
        assert(s.take(n) =~= s);
    }
}

/// Parse the digits of `s` from position `from` on as a decimal number.
///
/// Yields the value exactly when every remaining character is a digit,
/// there is at least one, and the value fits in a `u32`.
fn parse_digits(s: &str, from: usize) -> (r: Option<u32>)
    requires
        from <= s@.len(),
    ensures
        ({
            let d = s@.skip(from as int);
            match r {
                Some(v) => all_digits(d) && dec_val(d) == v,
                None => !(all_digits(d) && dec_val(d) <= u32::MAX),
            }
        }),
{
    let ghost d = s@.skip(from as int);
    let n: usize = s.unicode_len();
    if from == n {
        assert(d.len() == 0);
        return None;
    }
    let mut acc: u32 = 0;
    let mut i: usize = from;
    while i < n
        invariant
            from <= i <= n,
            n == s@.len(),
            from < n,
            d == s@.skip(from as int),
            forall|j: int| 0 <= j < i - from ==> is_digit(d[j]),
            dec_val(d.take(i - from)) == acc,
        decreases n - i,
    {
        let c = s.get_char(i);
        assert(d[i - from] == s@[i as int]);
        if !('0' <= c && c <= '9') {
            return None;
        }
        let digit: u32 = (c as u32) - ('0' as u32);
        proof {
            assert(d.take(i - from + 1).drop_last() =~= d.take(i - from));
            assert(d.take(i - from + 1).last() == d[i - from]);
        }
        if acc > (u32::MAX - digit) / 10 {
            // The value of the whole digit string can only be larger still.
            proof {
                if all_digits(d) {
                    lemma_dec_val_prefix(d, i - from + 1);
                }
            }
            return None;
        }
        acc = acc * 10 + digit;
        i = i + 1;
    }
    proof {
        assert(d.take(n - from) =~= d);
    }
    Some(acc)
}

/// The digits of a field after an optional leading plus sign.
pub open spec fn strip_plus(s: Seq<char>) -> Seq<char> {
    if s.len() > 0 && s[0] == '+' {
        s.skip(1)
    } else {
        s
    }
}

/// An intermediate value: parsed from field text, and widened for error
/// reports.
pub trait FieldParse: Sized + Copy {
    /// What the text of a field parses to, if anything.
    spec fn spec_parse(s: Seq<char>) -> Option<Self>;

    /// The value widened for carrying in a value error.
    spec fn spec_widen(self) -> i64;

    /// Parse a field's text.
    fn parse(field: &str) -> (r: Option<Self>)
        ensures
            r == Self::spec_parse(field@),
    ;

    /// Widen for carrying in a value error.
    fn widen(self) -> (r: i64)
        ensures
            r == self.spec_widen(),
    ;
}

impl FieldParse for u8 {
    open spec fn spec_parse(s: Seq<char>) -> Option<u8> {
        let d = strip_plus(s);
        if all_digits(d) && dec_val(d) <= u8::MAX {
            Some(dec_val(d) as u8)
        } else {
            None
        }
    }

    open spec fn spec_widen(self) -> i64 {
        self as i64
    }

    fn parse(field: &str) -> (r: Option<u8>) {
        let n: usize = field.unicode_len();
        let start: usize = if n > 0 && field.get_char(0) == '+' {
            1
        } else {
            0
        };
        proof {
            assert(field@.skip(0) =~= field@);
        }
        match parse_digits(field, start) {
            Some(v) => if v <= u8::MAX as u32 {
                Some(v as u8)
            } else {
                None
            },
            None => None,
        }
    }

    fn widen(self) -> (r: i64) {
        self as i64
    }
}

impl FieldParse for u16 {
    open spec fn spec_parse(s: Seq<char>) -> Option<u16> {
        let d = strip_plus(s);
        if all_digits(d) && dec_val(d) <= u16::MAX {
            Some(dec_val(d) as u16)
        } else {
            None
        }
    }

    open spec fn spec_widen(self) -> i64 {
        self as i64
    }

    fn parse(field: &str) -> (r: Option<u16>) {
        let n: usize = field.unicode_len();
        let start: usize = if n > 0 && field.get_char(0) == '+' {
            1
        } else {
            0
        };
        proof {
            assert(field@.skip(0) =~= field@);
        }
        match parse_digits(field, start) {
            Some(v) => if v <= u16::MAX as u32 {
                Some(v as u16)
            } else {
                None
            },
            None => None,
        }
    }

    fn widen(self) -> (r: i64) {
        self as i64
    }
}

impl FieldParse for i8 {
    open spec fn spec_parse(s: Seq<char>) -> Option<i8> {
        if s.len() > 0 && s[0] == '-' {
            let d = s.skip(1);
            if all_digits(d) && dec_val(d) <= 128 {
                Some((-dec_val(d)) as i8)
            } else {
                None
            }
        } else {
            let d = strip_plus(s);
            if all_digits(d) && dec_val(d) <= i8::MAX {
                Some(dec_val(d) as i8)
            } else {
                None
            }
        }
    }

    open spec fn spec_widen(self) -> i64 {
        self as i64
    }

    fn parse(field: &str) -> (r: Option<i8>) {
        let n: usize = field.unicode_len();
        if n > 0 && field.get_char(0) == '-' {
            match parse_digits(field, 1) {
                Some(v) => if v <= 128 {
                    Some((-(v as i32)) as i8)
                } else {
                    None
                },
                None => None,
            }
        } else {
            let start: usize = if n > 0 && field.get_char(0) == '+' {
                1
            } else {
                0
            };
            proof {
                assert(field@.skip(0) =~= field@);
            }
            match parse_digits(field, start) {
                Some(v) => if v <= i8::MAX as u32 {
                    Some(v as i8)
                } else {
                    None
                },
                None => None,
            }
        }
    }

    fn widen(self) -> (r: i64) {
        self as i64
    }
}

/// A domain type decoded from a field: the field text parses to an
/// intermediate value, which the domain projects to `Some` member or
/// rejects with `None`.
pub trait FromVeekun: Sized + Copy {
    /// The intermediate type from which to convert.
    type Intermediate: FieldParse;

    /// The domain projection applied after parsing.
    spec fn spec_from_veekun(value: Self::Intermediate) -> Option<Self>;

    /// Creates a new instance from the parsed field value.
    fn from_veekun(value: Self::Intermediate) -> (r: Option<Self>)
        ensures
            r == Self::spec_from_veekun(value),
    ;
}

impl FromVeekun for u8 {
    type Intermediate = u8;

    open spec fn spec_from_veekun(value: u8) -> Option<u8> {
        Some(value)
    }

    fn from_veekun(value: u8) -> (r: Option<u8>) {
        Some(value)
    }
}

impl FromVeekun for u16 {
    type Intermediate = u16;

    open spec fn spec_from_veekun(value: u16) -> Option<u16> {
        Some(value)
    }

    fn from_veekun(value: u16) -> (r: Option<u16>) {
        Some(value)
    }
}

impl FromVeekun for i8 {
    type Intermediate = i8;

    open spec fn spec_from_veekun(value: i8) -> Option<i8> {
        Some(value)
    }

    fn from_veekun(value: i8) -> (r: Option<i8>) {
        Some(value)
    }
}

/// What decoding one field yields: parse, then project; a supplied
/// default answers only for a blank field that failed to parse.
pub open spec fn spec_decode<T: FromVeekun>(
    f: Seq<char>,
    line: Option<u64>,
    index: usize,
    default: Option<T>,
) -> Result<T, Error> {
    match <T::Intermediate as FieldParse>::spec_parse(f) {
        Some(v) => match T::spec_from_veekun(v) {
            Some(t) => Ok(t),
            None => Err(
                Error::Veekun { line, field: index, error: VeekunError::Value(v.spec_widen()) },
            ),
        },
        None => match default {
            Some(d) => if is_blank(f) {
                Ok(d)
            } else {
                Err(Error::Veekun { line, field: index, error: VeekunError::Parse })
            },
            None => Err(Error::Veekun { line, field: index, error: VeekunError::Parse }),
        },
    }
}

/// Read a value from a field's text, given its provenance.
pub fn from_veekun_field<T: FromVeekun>(
    line: Option<u64>,
    index: usize,
    field: &str,
    default: Option<T>,
) -> (r: Result<T, Error>)
    ensures
        r == spec_decode::<T>(field@, line, index, default),
{
    match <T::Intermediate as FieldParse>::parse(field) {
        Some(v) => match T::from_veekun(v) {
            Some(t) => Ok(t),
            None => Err(Error::Veekun { line, field: index, error: VeekunError::Value(v.widen()) }),
        },
        None => match default {
            Some(d) => if blank(field) {
                Ok(d)
            } else {
                Err(Error::Veekun { line, field: index, error: VeekunError::Parse })
            },
            None => Err(Error::Veekun { line, field: index, error: VeekunError::Parse }),
        },
    }
}

/// What `from_field` yields on a record.
pub open spec fn spec_from_field<T: FromVeekun>(rec: RecordView, index: usize) -> Result<T, Error> {
    if index < rec.fields.len() {
        spec_decode::<T>(rec.fields[index as int], rec.line, index, None::<T>)
    } else {
        Err(Error::RecordLength { line: rec.line, index })
    }
}

/// Read a value from a record's field.
pub fn from_field<T: FromVeekun>(record: &Record, index: usize) -> (r: Result<T, Error>)
    ensures
        r == spec_from_field::<T>(record@, index),
{
    match get_field(record, index) {
        Ok(f) => from_veekun_field::<T>(record.line, index, f, None),
        Err(e) => Err(e),
    }
}

/// What `from_option_field` yields on a record.
pub open spec fn spec_from_option_field<T: FromVeekun>(
    rec: RecordView,
    index: usize,
    default: T,
) -> Result<T, Error> {
    if index < rec.fields.len() {
        spec_decode::<T>(rec.fields[index as int], rec.line, index, Some(default))
    } else {
        Err(Error::RecordLength { line: rec.line, index })
    }
}

/// Like `from_field`, but a blank unparsable field yields the default.
pub fn from_option_field<T: FromVeekun>(record: &Record, index: usize, default: T) -> (r: Result<
    T,
    Error,
>)
    ensures
        r == spec_from_option_field::<T>(record@, index, default),
{
    match get_field(record, index) {
        Ok(f) => from_veekun_field::<T>(record.line, index, f, Some(default)),
        Err(e) => Err(e),
    }
}

/// Wrapper for `Option<T>` decoded from a field that may be blank:
/// a blank field is domain `None`, and so is a well-formed value the
/// domain rejects (such as a zero identifier sentinel, or an
/// out-of-range foreign key); only malformed text fails.
#[derive(Clone, Copy, Debug, PartialEq, Eq)]
pub struct VeekunOption<T>(pub Option<T>);

/// What `from_veekun_option_field` yields on a record.
pub open spec fn spec_from_veekun_option_field<T: FromVeekun>(
    rec: RecordView,
    index: usize,
) -> Result<VeekunOption<T>, Error> {
    if index < rec.fields.len() {
        let f = rec.fields[index as int];
        if is_blank(f) {
            Ok(VeekunOption(None))
        } else {
            match <T::Intermediate as FieldParse>::spec_parse(f) {
                Some(v) => Ok(VeekunOption(T::spec_from_veekun(v))),
                None => Err(
                    Error::Veekun { line: rec.line, field: index, error: VeekunError::Parse },
                ),
            }
        }
    } else {
        Err(Error::RecordLength { line: rec.line, index })
    }
}

/// Read an optional value from a record's field: blank means absent,
/// and a value the domain does not recognize means absent too, so a
/// foreign key that fails to resolve never points at the wrong entity.
pub fn from_veekun_option_field<T: FromVeekun>(record: &Record, index: usize) -> (r: Result<
    VeekunOption<T>,
    Error,
>)
    ensures
        r == spec_from_veekun_option_field::<T>(record@, index),
{
    match get_field(record, index) {
        Ok(f) => {
            if blank(f) {
                Ok(VeekunOption(None))
            } else {
                match <T::Intermediate as FieldParse>::parse(f) {
                    Some(v) => Ok(VeekunOption(T::from_veekun(v))),
                    None => Err(
                        Error::Veekun {
                            line: record.line,
                            field: index,
                            error: VeekunError::Parse,
                        },
                    ),
                }
            }
        },
        Err(e) => Err(e),
    }
}

/// Wrapper for `String` read verbatim from a field.
pub struct VeekunString(pub String);

impl VeekunString {
    pub fn as_str(&self) -> (r: &str)
        ensures
            r@ == self.0@,
    {
        self.0.as_str()
    }
}

/// Read a field's text verbatim.
pub fn string_field(record: &Record, index: usize) -> (r: Result<VeekunString, Error>)
    ensures
        index < record@.fields.len() ==> (r matches Ok(s) && s.0@ == record@.fields[index as int]),
        index >= record@.fields.len() ==> (r matches Err(e) && e == (Error::RecordLength {
            line: record.line,
            index,
        })),
{
    match get_field(record, index) {
        Ok(f) => Ok(VeekunString(f.to_owned())),
        Err(e) => Err(e),
    }
}

/// An ASCII lowercase letter mapped to its uppercase form; anything else
/// kept as it is.
pub open spec fn spec_upper(c: char) -> char {
    if 'a' <= c && c <= 'z' {
        (c as u32 - 32) as char
    } else {
        c
    }
}

/// A word with its first character uppercased.
pub open spec fn spec_capitalize(w: Seq<char>) -> Seq<char> {
    if w.len() == 0 {
        w
    } else {
        seq![spec_upper(w[0])] + w.skip(1)
    }
}

/// The words of a kebab-case identifier, capitalized and joined.
pub open spec fn spec_concat_capitalized(ws: Seq<Seq<char>>) -> Seq<char>
    decreases ws.len(),
{
    if ws.len() == 0 {
        Seq::empty()
    } else {
        spec_concat_capitalized(ws.drop_last()) + spec_capitalize(ws.last())
    }
}

/// What `to_pascal_case` yields.
pub open spec fn spec_pascal_case(s: Seq<char>) -> Seq<char> {
    spec_concat_capitalized(crate::csv::split_on(s, '-'))
}

/// The uppercase of one ASCII lowercase letter, as a string.
fn upper_str(c: char) -> (r: &'static str)
    requires
        'a' <= c && c <= 'z',
    ensures
        r@ == seq![spec_upper(c)],
{
    let r: &'static str = match c {
        'a' => "A",
        'b' => "B",
        'c' => "C",
        'd' => "D",
        'e' => "E",
        'f' => "F",
        'g' => "G",
        'h' => "H",
        'i' => "I",
        'j' => "J",
        'k' => "K",
        'l' => "L",
        'm' => "M",
        'n' => "N",
        'o' => "O",
        'p' => "P",
        'q' => "Q",
        'r' => "R",
        's' => "S",
        't' => "T",
        'u' => "U",
        'v' => "V",
        'w' => "W",
        'x' => "X",
        'y' => "Y",
        _ => "Z",
    };
    proof {
        reveal_strlit("A");
        reveal_strlit("B");
        reveal_strlit("C");
        reveal_strlit("D");
        reveal_strlit("E");
        reveal_strlit("F");
        reveal_strlit("G");
        reveal_strlit("H");
        reveal_strlit("I");
        reveal_strlit("J");
        reveal_strlit("K");
        reveal_strlit("L");
        reveal_strlit("M");
        reveal_strlit("N");
        reveal_strlit("O");
        reveal_strlit("P");
        reveal_strlit("Q");
        reveal_strlit("R");
        reveal_strlit("S");
        reveal_strlit("T");
        reveal_strlit("U");
        reveal_strlit("V");
        reveal_strlit("W");
        reveal_strlit("X");
        reveal_strlit("Y");
        reveal_strlit("Z");
        assert(r@ =~= seq![spec_upper(c)]);
    }
    r
}

/// Convert a kebab-case identifier to PascalCase, uppercasing the first
/// ASCII letter of every word.
pub fn to_pascal_case(s: &str) -> (r: String)
    ensures
        r@ == spec_pascal_case(s@),
{
    let words = crate::csv::split_str(s, '-');
    let ghost wseqs = words@.map_values(|f: String| f@);
    let mut out = String::new();
    let mut i: usize = 0;
    proof {
        assert(wseqs.take(0) =~= Seq::<Seq<char>>::empty());
    }
    while i < words.len()
        invariant
            wseqs == words@.map_values(|f: String| f@),
            i <= words@.len(),
            out@ == spec_concat_capitalized(wseqs.take(i as int)),
        decreases words@.len() - i,
    {
        let w: &str = words[i].as_str();
        let n: usize = w.unicode_len();
        if n > 0 {
            let first = w.get_char(0);
            if 'a' <= first && first <= 'z' {
                out.append(upper_str(first));
                out.append(w.substring_char(1, n));
            } else {
                out.append(w);
            }
            proof {
                assert(seq![spec_upper(w@[0])] + w@.skip(1) == spec_capitalize(wseqs[i as int]));
                if !('a' <= w@[0] && w@[0] <= 'z') {
                    assert(seq![spec_upper(w@[0])] + w@.skip(1) =~= w@);
                }
            }
        } else {
            assert(spec_capitalize(wseqs[i as int]).len() == 0);
        }
        proof {
            assert(wseqs.take(i + 1).drop_last() =~= wseqs.take(i as int));
            assert(wseqs.take(i + 1).last() == wseqs[i as int]);
            assert(out@ =~= spec_concat_capitalized(wseqs.take(i + 1)));
        }
        i = i + 1;
    }
    proof {
        assert(wseqs.take(words@.len() as int) =~= wseqs);
    }
    out
}

} // verus!
