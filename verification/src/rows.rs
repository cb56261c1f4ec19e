//! The cursor over the results of a query.

use crate::engine;
use crate::engine::error_text;
use crate::error::engine_failure;
use crate::error::surface;
use crate::error::Error;
use crate::error::ErrorView;
use crate::row::columns_view;
use crate::row::in_range;
use crate::row::Column;
use crate::row::ColumnView;
use crate::row::Row;
use crate::value::ValueType;
use libsql::Error as EngineError;
use libsql::Row as EngineRow;
use libsql::Rows as EngineRows;
use vstd::prelude::*;

verus! {

/// A forward-only cursor over the records that a query produced. It is read
/// once, front to back; once it has reported the end it stays at the end.
pub struct Rows {
    inner: EngineRows,
    columns: i32,
    exhausted: bool,
}

/// A record that the engine has fetched and nobody has read yet, with the
/// column count of the cursor it came from.
///
/// Reading the values and names out of the engine's record is the caller's
/// part: libsql stops the program on text that is not UTF-8, and no promise
/// of this library covers that. The caller reads, and
/// [`into_row`](Fetched::into_row) makes the record of what was read.
pub struct Fetched {
    record: EngineRow,
    columns: i32,
}

/// The number of columns that a count reported by the engine stands for: the
/// count itself, or none where the engine reported a negative one.
pub open spec fn width_of(reported: int) -> int {
    if reported < 0 {
        0
    } else {
        reported
    }
}

/// The record that the columns read from a fetched record make, for a cursor
/// of `width` columns: the columns as they are if there are exactly `width`
/// of them. If there are fewer, the first index that is missing is an index
/// error; if there are more, the first index beyond the cursor's is.
pub open spec fn row_of(width: int, cells: Seq<ColumnView>) -> Result<Seq<ColumnView>, ErrorView> {
    if cells.len() == width {
        Ok(cells)
    } else if cells.len() < width {
        Err(ErrorView::IndexOutOfRange(cells.len() as int))
    } else {
        Err(ErrorView::IndexOutOfRange(width))
    }
}

/// The name of column `i` of a cursor of `width` columns, given what the
/// engine reported for that index: the engine's report for a column of the
/// cursor, and nothing for an index outside its columns, whatever the engine
/// said of it.
pub open spec fn name_within(width: int, i: int, reported: Option<Seq<char>>) -> Option<Seq<char>> {
    if in_range(i, width) {
        reported
    } else {
        None
    }
}

/// What asking a cursor for the kind of column `i` gives: an index error
/// outside its columns; within them the kind that the engine reports for the
/// column as the result set stands, or an engine error where it reports
/// none.
pub open spec fn kind_within(cursor: Rows, i: int, r: Result<ValueType, Error>) -> bool {
    if in_range(i, cursor.width()) {
        match engine::cursor_kind(cursor.source(), i) {
            Some(t) => r == Ok::<ValueType, Error>(t),
            None => r is Err && r->Err_0@ is Engine,
        }
    } else {
        r is Err && r->Err_0@ == ErrorView::IndexOutOfRange(i)
    }
}

/// What one call of `next` does to a cursor.
///
/// The column count stays. A cursor at the end stays there and reports the
/// end. Otherwise the call hands out a fetched record with the cursor's
/// column count and leaves the cursor short of the end; or reports the end
/// and leaves it there; or fails with the engine's message and leaves it
/// short of the end.
pub open spec fn advances(before: Rows, after: Rows, r: Result<Option<Fetched>, Error>) -> bool {
    &&& after.width() == before.width()
    &&& before.is_exhausted() ==> r is Ok && r->Ok_0 is None
    &&& match r {
        Ok(Some(fetched)) => fetched.width() == before.width() && !after.is_exhausted(),
        Ok(None) => after.is_exhausted(),
        Err(e) => !after.is_exhausted() && e@ is Engine,
    }
}

/// What a cursor makes of the engine's reply to a fetch.
///
/// The column count and the result set stay. A cursor at the end stays
/// there and reports the end, whatever the reply. Otherwise a record in the
/// reply is handed out as it is, with the cursor's column count, and the
/// cursor stays short of the end; the engine's end becomes the cursor's end;
/// the engine's error is passed on with its message and the cursor stays
/// short of the end.
pub open spec fn takes(
    before: Rows,
    after: Rows,
    reply: Result<Option<EngineRow>, EngineError>,
    r: Result<Option<Fetched>, Error>,
) -> bool {
    &&& after.width() == before.width()
    &&& after.source() == before.source()
    &&& before.is_exhausted() ==> r is Ok && r->Ok_0 is None && after.is_exhausted()
    &&& !before.is_exhausted() ==> match reply {
        Ok(Some(record)) => {
            &&& r is Ok
            &&& r->Ok_0 is Some
            &&& r->Ok_0->Some_0.source() == record
            &&& r->Ok_0->Some_0.width() == before.width()
            &&& !after.is_exhausted()
        },
        Ok(None) => r is Ok && r->Ok_0 is None && after.is_exhausted(),
        Err(e) => r is Err && r->Err_0@ == ErrorView::Engine(error_text(e))
            && !after.is_exhausted(),
    }
}

impl Fetched {
    /// The column count of the cursor that the record came from.
    pub closed spec fn width(&self) -> int {
        width_of(self.columns as int)
    }

    /// The engine's record.
    pub closed spec fn source(&self) -> EngineRow {
        self.record
    }

    /// The column count of the cursor that the record came from: the number
    /// of columns to read.
    pub fn column_count(&self) -> (n: i32)
        ensures
            n == self.width(),
    {
        if self.columns < 0 {
            0
        } else {
            self.columns
        }
    }

    /// The engine's record, to read from.
    pub fn record(&self) -> (record: &EngineRow)
        ensures
            *record == self.source(),
    {
        &self.record
    }

    /// Makes the record of the columns that were read, in order. There must
    /// be as many as the cursor has: see [`row_of`] for what comes back when
    /// there are not.
    pub fn into_row(self, cells: Vec<Column>) -> (r: Result<Row, Error>)
        ensures
            match row_of(self.width(), columns_view(cells@)) {
                Ok(cols) => r is Ok && r->Ok_0@ == cols,
                Err(e) => r is Err && r->Err_0@ == e,
            },
    {
        let width: i32 = self.column_count();
        let given = cells.len();
        if given < width as usize {
            return Err(Error::IndexOutOfRange(given as i32));
        }
        if given > width as usize {
            return Err(Error::IndexOutOfRange(width));
        }
        match Row::new(cells) {
            Some(row) => Ok(row),
            None => Err(Error::IndexOutOfRange(width)),
        }
    }
}

impl Rows {
    /// The number of columns, fixed when the query ran.
    pub closed spec fn width(&self) -> int {
        width_of(self.columns as int)
    }

    /// Whether the cursor has reported the end of the results.
    pub closed spec fn is_exhausted(&self) -> bool {
        self.exhausted
    }

    /// The engine's result set that the cursor reads from, as it stands.
    pub closed spec fn source(&self) -> EngineRows {
        self.inner
    }

    /// A cursor over what the engine handed back for a query: it reads from
    /// that result set, starts short of the end, and has the column count
    /// that the engine reports for the result set now. The count is read
    /// once, here.
    pub(crate) fn over(inner: EngineRows) -> (cursor: Rows)
        ensures
            cursor.source() == inner,
            cursor.width() == width_of(engine::cursor_width(inner)),
            !cursor.is_exhausted(),
    {
        let columns = engine::cursor_column_count(&inner);
        Rows { inner, columns, exhausted: false }
    }

    /// The number of columns. It is the same before the first record, after
    /// any number of records and at the end.
    pub fn column_count(&self) -> (n: i32)
        ensures
            n == self.width(),
    {
        if self.columns < 0 {
            0
        } else {
            self.columns
        }
    }

    /// Whether the cursor has reported the end of the results.
    pub fn at_end(&self) -> (b: bool)
        ensures
            b == self.is_exhausted(),
    {
        self.exhausted
    }

    /// The engine's result set, for the one question that is the caller's
    /// to ask of it: the name of a column.
    pub fn engine(&self) -> (rows: &EngineRows)
        ensures
            *rows == self.source(),
    {
        &self.inner
    }

    /// Takes the engine's reply to a fetch: see [`takes`]. This is the one
    /// place where a cursor moves.
    pub fn take(&mut self, reply: Result<Option<EngineRow>, EngineError>) -> (r: Result<
        Option<Fetched>,
        Error,
    >)
        ensures
            takes(*old(self), *final(self), reply, r),
    {
        if self.exhausted {
            return Ok(None);
        }
        match reply {
            Err(e) => Err(engine_failure(e)),
            Ok(None) => {
                self.exhausted = true;
                Ok(None)
            },
            Ok(Some(record)) => Ok(Some(Fetched { record, columns: self.columns })),
        }
    }

    /// Waits for the next record: `Some` fetched record with the column
    /// count of this cursor, or `None` at the end of the results.
    ///
    /// The end is final. Once it has been reported every later call reports
    /// it again and the engine is not asked any more. Otherwise the engine is
    /// asked once, and [`take`](Rows::take) says what becomes of its reply.
    pub fn next(&mut self) -> (r: Result<Option<Fetched>, Error>)
        ensures
            advances(*old(self), *final(self), r),
    {
        if self.exhausted {
            return Ok(None);
        }
        let reply = engine::fetch(&mut self.inner);
        self.take(reply)
    }

    /// The name of column `i`, given what the engine reported for that
    /// index: the report for a column of the cursor, none if there is no
    /// such column.
    pub fn column_name(&self, i: i32, reported: Option<String>) -> (name: Option<String>)
        ensures
            match name_within(
                self.width(),
                i as int,
                match reported {
                    Some(text) => Some(text@),
                    None => None,
                },
            ) {
                Some(text) => name is Some && name->Some_0@ == text,
                None => name is None,
            },
    {
        if 0 <= i && i < self.columns {
            reported
        } else {
            None
        }
    }

    /// The kind of column `i`: an index error if there is no such column,
    /// otherwise what the engine reports, its refusal included.
    pub fn column_type(&self, i: i32) -> (r: Result<ValueType, Error>)
        ensures
            kind_within(*self, i as int, r),
    {
        if 0 <= i && i < self.columns {
            surface(engine::cursor_column_type(&self.inner, i))
        } else {
            Err(Error::IndexOutOfRange(i))
        }
    }
}

} // verus!
