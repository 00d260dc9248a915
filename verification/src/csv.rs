//! Records of comma-delimited table text, and the errors that decoding
//! them can produce.

use vstd::prelude::*;

verus! {

/// Miscellaneous validation error wrapping a string literal.
#[derive(Clone, Copy, Debug, PartialEq, Eq)]
pub struct MiscError(pub &'static str);

/// Error in the representation of a single field.
#[derive(Clone, Copy, Debug, PartialEq, Eq)]
pub enum VeekunError {
    /// The field text could not be parsed into its intermediate value.
    Parse,
    /// The field parsed, but the value (carried here) is not a member of
    /// the target domain.
    Value(i64),
    /// A cross-field or cross-row invariant failed.
    Misc(MiscError),
}

/// Error in a delimited table.
#[derive(Clone, Copy, Debug, PartialEq, Eq)]
pub enum Error {
    /// A record was too short for the attempted out-of-bounds field index.
    RecordLength { line: Option<u64>, index: usize },
    /// A field of a record did not decode.
    Veekun { line: Option<u64>, field: usize, error: VeekunError },
}

impl Error {
    /// Line number on which the error occurred, if it is available.
    pub fn line(&self) -> (r: Option<u64>)
        ensures
            r == self.spec_line(),
    {
        match self {
            Error::RecordLength { line, .. } => *line,
            Error::Veekun { line, .. } => *line,
        }
    }

    /// The line carried by either error variant.
    pub open spec fn spec_line(self) -> Option<u64> {
        match self {
            Error::RecordLength { line, .. } => line,
            Error::Veekun { line, .. } => line,
        }
    }
}

/// One raw row: an ordered sequence of text fields, plus the source line
/// it came from, when that is known.
#[derive(Clone, Debug)]
pub struct Record {
    pub line: Option<u64>,
    pub fields: Vec<String>,
}

/// The mathematical content of a record: its line and the character
/// sequences of its fields.
#[verifier::ext_equal]
pub struct RecordView {
    pub line: Option<u64>,
    pub fields: Seq<Seq<char>>,
}

impl View for Record {
    type V = RecordView;

    open spec fn view(&self) -> RecordView {
        RecordView { line: self.line, fields: self.fields@.map_values(|f: String| f@) }
    }
}

impl Record {
    /// The fields as mathematical character sequences.
    pub open spec fn field_seqs(self) -> Seq<Seq<char>> {
        self.fields@.map_values(|f: String| f@)
    }
}

/// Splitting a character sequence on a separator always yields one more
/// piece than there are separators; an empty input yields one empty piece.
pub open spec fn split_on(s: Seq<char>, sep: char) -> Seq<Seq<char>>
    decreases s.len(),
{
    if s.len() == 0 {
        seq![Seq::<char>::empty()]
    } else if s[0] == sep {
        seq![Seq::<char>::empty()] + split_on(s.skip(1), sep)
    } else {
        let rest = split_on(s.skip(1), sep);
        seq![seq![s[0]] + rest[0]] + rest.skip(1)
    }
}

pub proof fn lemma_split_on_nonempty(s: Seq<char>, sep: char)
    ensures
        split_on(s, sep).len() >= 1,
    decreases s.len(),
{
    if s.len() > 0 {
        lemma_split_on_nonempty(s.skip(1), sep);
    }
}

/// How one more character extends a split: a separator opens a new empty
/// piece, any other character extends the last piece.
pub proof fn lemma_split_on_push(s: Seq<char>, c: char, sep: char)
    ensures
        c == sep ==> split_on(s.push(c), sep) == split_on(s, sep).push(Seq::<char>::empty()),
        c != sep ==> split_on(s.push(c), sep) == split_on(s, sep).update(
            split_on(s, sep).len() - 1,
            split_on(s, sep).last().push(c),
        ),
    decreases s.len(),
{
    reveal_with_fuel(split_on, 3);
    lemma_split_on_nonempty(s, sep);
    if s.len() == 0 {
        assert(s.push(c)[0] == c);
        assert(s.push(c).skip(1) =~= Seq::<char>::empty());
        if c == sep {
            assert(split_on(s.push(c), sep) =~~= split_on(s, sep).push(Seq::<char>::empty()));
        } else {
            assert(split_on(s.push(c), sep) =~~= split_on(s, sep).update(
                split_on(s, sep).len() - 1,
                split_on(s, sep).last().push(c),
            ));
        }
    } else {
        lemma_split_on_push(s.skip(1), c, sep);
        lemma_split_on_nonempty(s.skip(1), sep);
        assert(s.push(c)[0] == s[0]);
        assert(s.push(c).skip(1) =~= s.skip(1).push(c));
        if c == sep {
            assert(split_on(s.push(c), sep) =~~= split_on(s, sep).push(Seq::<char>::empty()));
        } else {
            assert(split_on(s.push(c), sep) =~~= split_on(s, sep).update(
                split_on(s, sep).len() - 1,
                split_on(s, sep).last().push(c),
            ));
        }
    }
}

/// Split a string at every occurrence of `sep`.
pub fn split_str(s: &str, sep: char) -> (r: Vec<String>)
    ensures
        r@.map_values(|f: String| f@) == split_on(s@, sep),
{
    let n: usize = s.unicode_len();
    let mut result: Vec<String> = Vec::new();
    let mut start: usize = 0;
    let mut i: usize = 0;
    proof {
        assert(s@.subrange(0, 0) =~= Seq::<char>::empty());
        assert(result@.map_values(|f: String| f@).push(s@.subrange(0, 0)) =~~= split_on(
            s@.subrange(0, 0),
            sep,
        ));
    }
    while i < n
        invariant
            n == s@.len(),
            start <= i <= n,
            split_on(s@.subrange(0, i as int), sep) == result@.map_values(|f: String| f@).push(
                s@.subrange(start as int, i as int),
            ),
        decreases n - i,
    {
        let c = s.get_char(i);
        proof {
            lemma_split_on_push(s@.subrange(0, i as int), c, sep);
            lemma_split_on_nonempty(s@.subrange(0, i as int), sep);
            assert(s@.subrange(0, i as int + 1) =~= s@.subrange(0, i as int).push(s@[i as int]));
        }
        if c == sep {
            let piece = s.substring_char(start, i);
            let ghost old_views = result@.map_values(|f: String| f@);
            result.push(piece.to_owned());
            start = i + 1;
            proof {
                assert(s@.subrange(i as int + 1, i as int + 1) =~= Seq::<char>::empty());
                assert(result@.map_values(|f: String| f@) =~~= old_views.push(piece@));
                assert(split_on(s@.subrange(0, i as int + 1), sep) =~~= result@.map_values(
                    |f: String| f@,
                ).push(s@.subrange(i as int + 1, i as int + 1)));
            }
        } else {
            proof {
                assert(s@.subrange(start as int, i as int + 1) =~= s@.subrange(
                    start as int,
                    i as int,
                ).push(s@[i as int]));
                assert(split_on(s@.subrange(0, i as int + 1), sep) =~~= result@.map_values(
                    |f: String| f@,
                ).push(s@.subrange(start as int, i as int + 1)));
            }
        }
        i = i + 1;
    }
    let piece = s.substring_char(start, n);
    let ghost old_views = result@.map_values(|f: String| f@);
    result.push(piece.to_owned());
    proof {
        assert(s@.subrange(0, n as int) =~= s@);
        assert(result@.map_values(|f: String| f@) =~~= old_views.push(piece@));
    }
    result
}

/// A trailing carriage return at the end of a row is not part of its last
/// field.
pub open spec fn strip_cr(row: Seq<char>) -> Seq<char> {
    if row.len() > 0 && row.last() == '\r' {
        row.drop_last()
    } else {
        row
    }
}

/// The rows of a table text: newline-separated, with no final empty row
/// when the text ends in a newline.
pub open spec fn spec_rows(text: Seq<char>) -> Seq<Seq<char>> {
    let rows = split_on(text, '\n');
    if text.len() == 0 {
        Seq::empty()
    } else if rows.last().len() == 0 {
        rows.drop_last()
    } else {
        rows
    }
}

/// The fields of every row of a table text.
pub open spec fn spec_records(text: Seq<char>) -> Seq<Seq<Seq<char>>> {
    spec_rows(text).map_values(|row: Seq<char>| split_on(strip_cr(row), ','))
}

/// The records of a table text as mathematical values, rows numbered
/// from 1.
pub open spec fn spec_record_views(text: Seq<char>) -> Seq<RecordView> {
    Seq::new(
        spec_rows(text).len(),
        |i: int|
            RecordView {
                line: Some((i + 1) as u64),
                fields: split_on(strip_cr(spec_rows(text)[i]), ','),
            },
    )
}

/// What `parse_records` returns is exactly `spec_record_views`.
pub proof fn lemma_records_of_views(rs: Seq<Record>, text: Seq<char>)
    requires
        records_of(rs, text),
    ensures
        rs.map_values(|r: Record| r@) == spec_record_views(text),
{
    let lhs = rs.map_values(|r: Record| r@);
    let rhs = spec_record_views(text);
    assert forall|i: int| 0 <= i < lhs.len() implies lhs[i] == rhs[i] by {
        assert(lhs[i] == rs[i]@);
        assert(rs[i].field_seqs() == spec_records(text)[i]);
        assert(spec_records(text)[i] == split_on(strip_cr(spec_rows(text)[i]), ','));
        assert(rs[i]@.fields == rs[i].field_seqs());
    }
    assert(lhs =~= rhs);
}

/// What `parse_records` promises: one record per row, in order, with the
/// fields of that row and a line number counted from 1.
pub open spec fn records_of(rs: Seq<Record>, text: Seq<char>) -> bool {
    rs.len() == spec_records(text).len() && forall|i: int|
        0 <= i < rs.len() ==> rs[i].field_seqs() == spec_records(text)[i] && rs[i].line == Some(
            (i + 1) as u64,
        )
}

/// Split raw table text into records, one per row, numbering rows from 1.
pub fn parse_records(text: &str) -> (r: Vec<Record>)
    ensures
        records_of(r@, text@),
{
    let mut lines: Vec<String> = split_str(text, '\n');
    proof {
        lemma_split_on_nonempty(text@, '\n');
    }
    if text.unicode_len() == 0 {
        let r: Vec<Record> = Vec::new();
        assert(records_of(r@, text@));
        return r;
    }
    let last = lines.len() - 1;
    if lines[last].as_str().unicode_len() == 0 {
        lines.pop();
    }
    let ghost rows = spec_rows(text@);
    assert(lines@.map_values(|f: String| f@) =~= rows);
    let mut result: Vec<Record> = Vec::new();
    let mut i: usize = 0;
    while i < lines.len()
        invariant
            lines@.map_values(|f: String| f@) == rows,
            rows == spec_rows(text@),
            i <= lines@.len(),
            result@.len() == i,
            forall|j: int|
                0 <= j < i ==> result@[j].field_seqs() == spec_records(text@)[j]
                    && result@[j].line == Some((j + 1) as u64),
        decreases lines@.len() - i,
    {
        let line = &lines[i];
        let n: usize = line.as_str().unicode_len();
        let stripped: &str = if n > 0 && line.as_str().get_char(n - 1) == '\r' {
            line.as_str().substring_char(0, n - 1)
        } else {
            line.as_str()
        };
        assert(stripped@ == strip_cr(rows[i as int]));
        let fields = split_str(stripped, ',');
        let record = Record { line: Some((i as u64) + 1), fields };
        assert(record.field_seqs() == spec_records(text@)[i as int]);
        result.push(record);
        i = i + 1;
    }
    assert(records_of(result@, text@));
    result
}

/// A table built by folding records into an accumulating state, one at a
/// time, in row order.
///
/// The fold is specified over the table's mathematical view: `spec_load`
/// gives, for one record, the view of the state after it and the error it
/// raises, if any. A record that errors may still have changed the state,
/// but the fold as a whole stops at the first error. `wf_state` is the
/// structural invariant every reachable state satisfies (for a dense
/// table, that it has exactly its fixed number of slots).
pub trait FromCsvIncremental: Sized + View {
    /// The view of the initial, empty state of the table.
    spec fn spec_empty() -> Self::V;

    /// The structural invariant of every reachable state.
    spec fn wf_state(v: Self::V) -> bool;

    /// The view of the state after folding in one record, and the error
    /// the record raises.
    spec fn spec_load(state: Self::V, rec: RecordView) -> (Self::V, Option<Error>);

    /// Create the initial state of the table.
    fn from_empty_csv() -> (r: Self)
        ensures
            r@ == Self::spec_empty(),
            Self::wf_state(r@),
    ;

    /// Update the table from a record.
    fn load_csv_record(&mut self, record: &Record) -> (r: Result<(), Error>)
        requires
            Self::wf_state(old(self)@),
        ensures
            final(self)@ == Self::spec_load(old(self)@, record@).0,
            Self::wf_state(final(self)@),
            r == match Self::spec_load(old(self)@, record@).1 {
                None => Ok::<(), Error>(()),
                Some(e) => Err::<(), Error>(e),
            },
    ;
}

/// The fold of a whole record sequence: records are applied in order and
/// the first error stops the fold.
pub open spec fn spec_fold<T: FromCsvIncremental>(state: T::V, recs: Seq<RecordView>) -> (
    T::V,
    Option<Error>,
)
    decreases recs.len(),
{
    if recs.len() == 0 {
        (state, None)
    } else {
        let step = T::spec_load(state, recs[0]);
        if step.1 is Some {
            step
        } else {
            spec_fold::<T>(step.0, recs.skip(1))
        }
    }
}

/// What loading a whole table text yields.
pub open spec fn spec_from_csv<T: FromCsvIncremental>(text: Seq<char>) -> (T::V, Option<Error>) {
    spec_fold::<T>(T::spec_empty(), spec_record_views(text))
}

/// Load a table from raw delimited text: split it into records and fold
/// each one in, stopping at the first error.
pub fn from_csv_data<T: FromCsvIncremental>(data: &str) -> (r: Result<T, Error>)
    ensures
        spec_from_csv::<T>(data@).1 is None ==> (r matches Ok(t) && t@ == spec_from_csv::<T>(
            data@,
        ).0 && T::wf_state(t@)),
        spec_from_csv::<T>(data@).1 matches Some(e) ==> r == Err::<T, Error>(e),
{
    let records = parse_records(data);
    proof {
        lemma_records_of_views(records@, data@);
    }
    let ghost views = spec_record_views(data@);
    let mut state: T = T::from_empty_csv();
    let mut i: usize = 0;
    proof {
        assert(views.skip(0) =~= views);
    }
    while i < records.len()
        invariant
            records@.map_values(|rec: Record| rec@) == views,
            views == spec_record_views(data@),
            i <= records@.len(),
            T::wf_state(state@),
            spec_fold::<T>(T::spec_empty(), views) == spec_fold::<T>(state@, views.skip(i as int)),
        decreases records@.len() - i,
    {
        let ghost prev = state@;
        let step = state.load_csv_record(&records[i]);
        proof {
            assert(records@[i as int]@ == views[i as int]);
            assert(views.skip(i as int)[0] == views[i as int]);
            assert(views.skip(i as int).skip(1) =~= views.skip(i as int + 1));
            assert(spec_fold::<T>(prev, views.skip(i as int)) == if T::spec_load(
                prev,
                views[i as int],
            ).1 is Some {
                T::spec_load(prev, views[i as int])
            } else {
                spec_fold::<T>(T::spec_load(prev, views[i as int]).0, views.skip(i as int + 1))
            });
        }
        match step {
            Ok(()) => {},
            Err(e) => {
                proof {
                    assert(T::spec_load(prev, views[i as int]).1 == Some(e));
                    assert(spec_fold::<T>(T::spec_empty(), views).1 == Some(e));
                    assert(views == spec_record_views(data@));
                    assert(spec_from_csv::<T>(data@).1 == Some(e));
                }
                return Err(e);
            },
        }
        i = i + 1;
    }
    proof {
        assert(views.skip(records@.len() as int) =~= Seq::<RecordView>::empty());
    }
    Ok(state)
}

/// True of a character sequence with nothing but whitespace in it.
pub open spec fn is_blank(s: Seq<char>) -> bool {
    forall|i: int| 0 <= i < s.len() ==> is_space(s[i])
}

/// The whitespace characters: the characters with the Unicode
/// White_Space property.
pub open spec fn is_space(c: char) -> bool {
    c == '\t' || c == '\n' || c == '\u{b}' || c == '\u{c}' || c == '\r' || c == ' ' || c
        == '\u{85}' || c == '\u{a0}' || c == '\u{1680}' || ('\u{2000}' <= c && c <= '\u{200a}')
        || c == '\u{2028}' || c == '\u{2029}' || c == '\u{202f}' || c == '\u{205f}' || c
        == '\u{3000}'
}

/// True if the field is empty or all whitespace.
pub fn blank(field: &str) -> (r: bool)
    ensures
        r == is_blank(field@),
{
    let n: usize = field.unicode_len();
    let mut i: usize = 0;
    while i < n
        invariant
            n == field@.len(),
            i <= n,
            forall|j: int| 0 <= j < i ==> is_space(field@[j]),
        decreases n - i,
    {
        let c = field.get_char(i);
        let space = c == '\t' || c == '\n' || c == '\u{b}' || c == '\u{c}' || c == '\r' || c
            == ' ' || c == '\u{85}' || c == '\u{a0}' || c == '\u{1680}' || ('\u{2000}' <= c && c
            <= '\u{200a}') || c == '\u{2028}' || c == '\u{2029}' || c == '\u{202f}' || c
            == '\u{205f}' || c == '\u{3000}';
        if !space {
            return false;
        }
        i = i + 1;
    }
    true
}

/// Get the line number of a record, if it is available.
pub fn get_line(record: &Record) -> (r: Option<u64>)
    ensures
        r == record.line,
{
    record.line
}

/// Get the string for a field, or an error on out-of-bounds.
pub fn get_field<'a>(record: &'a Record, index: usize) -> (r: Result<&'a str, Error>)
    ensures
        index < record.fields@.len() ==> (r matches Ok(s) && s@ == record.field_seqs()[index as int]),
        index >= record.fields@.len() ==> r == Err::<&'a str, Error>(
            Error::RecordLength { line: record.line, index },
        ),
{
    if index < record.fields.len() {
        Ok(record.fields[index].as_str())
    } else {
        Err(Error::RecordLength { line: record.line, index })
    }
}

} // verus!
