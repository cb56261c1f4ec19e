//! One fetched record, copied out of the engine.

use crate::error::Error;
use crate::error::ErrorView;
use crate::mapping::Mapping;
use crate::text::push_value;
use crate::text::value_text;
use crate::value::host_of;
use crate::value::to_host;
use crate::value::HostValue;
use crate::value::HostView;
use crate::value::Value;
use crate::value::ValueType;
use crate::value::ValueView;
use vstd::prelude::*;

verus! {

/// One column of a record: its name, if it has one, the kind the engine
/// reported for it (or the message with which it declined to), and its value.
///
/// With a real goes its decimal form, written by whoever read the record:
/// this library holds a real as its bit pattern and does no floating point,
/// so it cannot write the number out itself. For the other kinds `decimal`
/// is not looked at.
#[derive(Debug, PartialEq, Eq)]
pub struct Column {
    pub name: Option<String>,
    pub kind: Result<ValueType, String>,
    pub value: Value,
    pub decimal: String,
}

/// The mathematical value of a [`Column`].
pub struct ColumnView {
    pub name: Option<Seq<char>>,
    pub kind: Result<ValueType, Seq<char>>,
    pub value: ValueView,
    pub decimal: Seq<char>,
}

impl View for Column {
    type V = ColumnView;

    open spec fn view(&self) -> ColumnView {
        ColumnView {
            name: match self.name {
                Some(n) => Some(n@),
                None => None,
            },
            kind: match self.kind {
                Ok(t) => Ok(t),
                Err(m) => Err(m@),
            },
            value: self.value@,
            decimal: self.decimal@,
        }
    }
}

/// The most columns a record can have: indices are 32-bit signed integers.
pub const MAX_COLUMNS: usize = 0x7fff_ffff;

/// A record as it was when it was fetched. It holds copies: nothing that
/// happens to the cursor or the session afterwards changes it.
#[derive(Debug)]
pub struct Row {
    cells: Vec<Column>,
}

impl View for Row {
    type V = Seq<ColumnView>;

    closed spec fn view(&self) -> Seq<ColumnView> {
        self.cells@.map_values(|c: Column| c@)
    }
}

/// The views of a vector of columns, place for place.
pub open spec fn columns_view(cells: Seq<Column>) -> Seq<ColumnView> {
    cells.map_values(|c: Column| c@)
}

/// Whether `i` is the index of one of `n` columns.
pub open spec fn in_range(i: int, n: int) -> bool {
    0 <= i < n
}

/// What reading column `i` of a record gives: the value in the script's
/// form for an index within the columns, an index error for any other.
pub open spec fn get_of(cols: Seq<ColumnView>, i: int) -> Result<HostView, ErrorView> {
    if in_range(i, cols.len() as int) {
        Ok(host_of(cols[i].value))
    } else {
        Err(ErrorView::IndexOutOfRange(i))
    }
}

/// The name of column `i` of a record, if the record has such a column and
/// the column has a name.
pub open spec fn name_of(cols: Seq<ColumnView>, i: int) -> Option<Seq<char>> {
    if in_range(i, cols.len() as int) {
        cols[i].name
    } else {
        None
    }
}

/// What asking for the kind of column `i` of a record gives: the kind that
/// the engine reported, the engine's refusal if it reported none, or an
/// index error if there is no such column.
pub open spec fn kind_at(cols: Seq<ColumnView>, i: int) -> Result<ValueType, ErrorView> {
    if in_range(i, cols.len() as int) {
        match cols[i].kind {
            Ok(t) => Ok(t),
            Err(m) => Err(ErrorView::Engine(m)),
        }
    } else {
        Err(ErrorView::IndexOutOfRange(i))
    }
}

/// The name-to-value mapping of a record: the columns are filed in order
/// under their names, so of two columns with one name the later stays. A
/// column without a name is filed nowhere.
pub open spec fn mapping_of(cols: Seq<ColumnView>) -> Map<Seq<char>, HostView>
    decreases cols.len(),
{
    if cols.len() == 0 {
        Map::empty()
    } else {
        let front = mapping_of(cols.drop_last());
        match cols.last().name {
            Some(n) => front.insert(n, host_of(cols.last().value)),
            None => front,
        }
    }
}

/// One column written out: its name (nothing, if it has none), a colon and
/// a space, and its value as text, a real in the decimal form that came
/// with it.
pub open spec fn field_text(c: ColumnView) -> Seq<char> {
    (match c.name {
        Some(n) => n,
        None => Seq::empty(),
    }) + ": "@ + value_text(c.value, c.decimal)
}

/// The columns written out in order, with a comma and a line break between
/// one and the next.
pub open spec fn fields_text(cols: Seq<ColumnView>) -> Seq<char>
    decreases cols.len(),
{
    if cols.len() == 0 {
        Seq::empty()
    } else if cols.len() == 1 {
        field_text(cols[0])
    } else {
        fields_text(cols.drop_last()) + ",\n"@ + field_text(cols.last())
    }
}

/// A record written out for a person to read.
pub open spec fn display_of(cols: Seq<ColumnView>) -> Seq<char> {
    "Row {\n                    "@ + fields_text(cols) + "\n                }"@
}

impl Row {
    #[verifier::type_invariant]
    spec fn inv(self) -> bool {
        self.cells.len() <= MAX_COLUMNS
    }

    /// A record of the given columns; none if there are more than
    /// [`MAX_COLUMNS`] of them.
    pub fn new(cells: Vec<Column>) -> (made: Option<Row>)
        ensures
            match made {
                Some(row) => row@ == columns_view(cells@) && cells.len() <= MAX_COLUMNS,
                None => cells.len() > MAX_COLUMNS,
            },
    {
        if cells.len() <= MAX_COLUMNS {
            Some(Row { cells })
        } else {
            None
        }
    }

    /// The number of columns.
    pub fn column_count(&self) -> (n: i32)
        ensures
            n == self@.len(),
    {
        proof {
            use_type_invariant(self);
        }
        self.cells.len() as i32
    }

    /// The value of column `i` in the script's form, or an index error if
    /// there is no such column.
    pub fn get(&self, i: i32) -> (r: Result<HostValue, Error>)
        ensures
            match get_of(self@, i as int) {
                Ok(h) => r is Ok && r->Ok_0@ == h,
                Err(e) => r is Err && r->Err_0@ == e,
            },
    {
        proof {
            use_type_invariant(self);
        }
        if 0 <= i && (i as usize) < self.cells.len() {
            Ok(to_host(self.cells[i as usize].value.duplicate()))
        } else {
            Err(Error::IndexOutOfRange(i))
        }
    }

    /// The name of column `i`; none if the column has no name or there is no
    /// such column.
    pub fn column_name(&self, i: i32) -> (name: Option<String>)
        ensures
            match name_of(self@, i as int) {
                Some(n) => name is Some && name->Some_0@ == n,
                None => name is None,
            },
    {
        proof {
            use_type_invariant(self);
        }
        if 0 <= i && (i as usize) < self.cells.len() {
            match &self.cells[i as usize].name {
                Some(n) => Some(n.clone()),
                None => None,
            }
        } else {
            None
        }
    }

    /// The kind of column `i` as the engine reported it when the record was
    /// fetched: the engine's refusal, if it gave none, and an index error if
    /// there is no such column.
    pub fn column_type(&self, i: i32) -> (r: Result<ValueType, Error>)
        ensures
            match kind_at(self@, i as int) {
                Ok(t) => r == Ok::<ValueType, Error>(t),
                Err(e) => r is Err && r->Err_0@ == e,
            },
    {
        proof {
            use_type_invariant(self);
        }
        if 0 <= i && (i as usize) < self.cells.len() {
            match &self.cells[i as usize].kind {
                Ok(t) => Ok(*t),
                Err(m) => Err(Error::Engine(m.clone())),
            }
        } else {
            Err(Error::IndexOutOfRange(i))
        }
    }

    /// The record as a mapping from column name to value.
    pub fn into_mapping(&self) -> (m: Mapping)
        ensures
            m@ == mapping_of(self@),
    {
        let mut m = Mapping::new();
        let mut i: usize = 0;
        while i < self.cells.len()
            invariant
                i <= self.cells.len(),
                m@ == mapping_of(self@.take(i as int)),
            decreases self.cells.len() - i,
        {
            proof {
                assert(self@.take(i + 1).drop_last() =~= self@.take(i as int));
            }
            let cell = &self.cells[i];
            match &cell.name {
                Some(n) => {
                    m.set(n.clone(), to_host(cell.value.duplicate()));
                },
                None => {},
            }
            i = i + 1;
        }
        proof {
            assert(self@.take(i as int) =~= self@);
        }
        m
    }

    /// The record written out for diagnostics. The layout is meant for
    /// people, not for parsing.
    pub fn to_display_string(&self) -> (text: String)
        ensures
            text@ == display_of(self@),
    {
        let mut fields = String::new();
        let mut i: usize = 0;
        while i < self.cells.len()
            invariant
                i <= self.cells.len(),
                fields@ == fields_text(self@.take(i as int)),
            decreases self.cells.len() - i,
        {
            proof {
                assert(self@.take(i + 1).drop_last() =~= self@.take(i as int));
            }
            let ghost before = fields@;
            if i > 0 {
                fields.append(",\n");
            }
            let cell = &self.cells[i];
            match &cell.name {
                Some(n) => {
                    fields.append(n.as_str());
                },
                None => {},
            }
            fields.append(": ");
            push_value(&mut fields, &cell.value, cell.decimal.as_str());
            proof {
                let c = self@[i as int];
                let sep = if i > 0 {
                    ",\n"@
                } else {
                    Seq::<char>::empty()
                };
                let name = match c.name {
                    Some(n) => n,
                    None => Seq::<char>::empty(),
                };
                assert(fields@ =~= before + sep + field_text(c));
                assert(name + ": "@ + value_text(c.value, c.decimal) == field_text(c));
                if i == 0 {
                    assert(before =~= Seq::<char>::empty());
                    assert(fields@ =~= field_text(c));
                }
            }
            i = i + 1;
        }
        proof {
            assert(self@.take(i as int) =~= self@);
        }
        let mut text = String::new();
        text.append("Row {\n                    ");
        text.append(fields.as_str());
        text.append("\n                }");
        proof {
            assert(text@ =~= display_of(self@));
        }
        text
    }
}

} // verus!
