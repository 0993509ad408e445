//! Result rows as plain column values, and their decoding into user records.
use vstd::prelude::*;

verus! {

/// One column value of a result row, as read from the database.
#[derive(Debug)]
pub enum Cell {
    Null,
    Int(i32),
    Text(String),
    /// A value of a column type that this library does not read.
    Other,
}

/// The mathematical value of a [`Cell`].
pub enum CellV {
    Null,
    Int(int),
    Text(Seq<char>),
    Other,
}

impl View for Cell {
    type V = CellV;

    open spec fn view(&self) -> CellV {
        match self {
            Cell::Null => CellV::Null,
            Cell::Int(v) => CellV::Int(*v as int),
            Cell::Text(s) => CellV::Text(s@),
            Cell::Other => CellV::Other,
        }
    }
}

pub open spec fn cells_view(cells: Seq<Cell>) -> Seq<CellV> {
    cells.map_values(|c: Cell| c@)
}

pub open spec fn rows_view(rows: Seq<Vec<Cell>>) -> Seq<Seq<CellV>> {
    rows.map_values(|r: Vec<Cell>| cells_view(r@))
}

/// Why a column could not be decoded.
#[derive(Debug, Clone, Copy, PartialEq, Eq, Structural)]
pub enum DecodeFault {
    /// The row has no column at that position.
    Missing,
    /// The column holds NULL where a value is required.
    Null,
    /// The column holds a value of another type.
    Mismatch,
}

/// A row of the `users` table.
#[derive(Debug)]
pub struct User {
    pub id: i32,
    pub name: String,
    pub age: i32,
}

/// The mathematical value of a [`User`].
pub struct UserRec {
    pub id: int,
    pub name: Seq<char>,
    pub age: int,
}

impl View for User {
    type V = UserRec;

    open spec fn view(&self) -> UserRec {
        UserRec { id: self.id as int, name: self.name@, age: self.age as int }
    }
}

pub open spec fn users_view(users: Seq<User>) -> Seq<UserRec> {
    users.map_values(|u: User| u@)
}

/// The integer held at position `i`, or why there is none.
pub open spec fn int_column(cells: Seq<CellV>, i: int) -> Result<int, DecodeFault> {
    if i < 0 || i >= cells.len() {
        Err(DecodeFault::Missing)
    } else {
        match cells[i] {
            CellV::Int(v) => Ok(v),
            CellV::Null => Err(DecodeFault::Null),
            _ => Err(DecodeFault::Mismatch),
        }
    }
}

/// The text held at position `i`, or why there is none.
pub open spec fn text_column(cells: Seq<CellV>, i: int) -> Result<Seq<char>, DecodeFault> {
    if i < 0 || i >= cells.len() {
        Err(DecodeFault::Missing)
    } else {
        match cells[i] {
            CellV::Text(s) => Ok(s),
            CellV::Null => Err(DecodeFault::Null),
            _ => Err(DecodeFault::Mismatch),
        }
    }
}

/// A row decoded as `(id, name, age)` in that positional order; on failure,
/// the first column that failed and why.
pub open spec fn decode_row_spec(cells: Seq<CellV>) -> Result<UserRec, (usize, DecodeFault)> {
    match int_column(cells, 0) {
        Err(f) => Err((0usize, f)),
        Ok(id) => match text_column(cells, 1) {
            Err(f) => Err((1usize, f)),
            Ok(name) => match int_column(cells, 2) {
                Err(f) => Err((2usize, f)),
                Ok(age) => Ok(UserRec { id, name, age }),
            },
        },
    }
}

/// Where decoding a result set failed: the first failing row, and in it the
/// first failing column.
#[derive(Debug, Clone, Copy, PartialEq, Eq, Structural)]
pub struct DecodeError {
    pub row: usize,
    pub column: usize,
    pub fault: DecodeFault,
}

/// Every row decoded, in order; or the failure of the first row that does not
/// decode.
pub open spec fn decode_rows_spec(rows: Seq<Seq<CellV>>) -> Result<Seq<UserRec>, DecodeError>
    decreases rows.len(),
{
    if rows.len() == 0 {
        Ok(Seq::empty())
    } else {
        match decode_rows_spec(rows.drop_last()) {
            Err(e) => Err(e),
            Ok(us) => match decode_row_spec(rows.last()) {
                Ok(u) => Ok(us.push(u)),
                Err((c, f)) => Err(DecodeError { row: (rows.len() - 1) as usize, column: c, fault: f }),
            },
        }
    }
}

fn int_at(cells: &Vec<Cell>, i: usize) -> (r: Result<i32, DecodeFault>)
    ensures
        match r {
            Ok(v) => int_column(cells_view(cells@), i as int) == Ok::<int, DecodeFault>(v as int),
            Err(f) => int_column(cells_view(cells@), i as int) == Err::<int, DecodeFault>(f),
        },
{
    if i >= cells.len() {
        return Err(DecodeFault::Missing);
    }
    match &cells[i] {
        Cell::Int(v) => Ok(*v),
        Cell::Null => Err(DecodeFault::Null),
        _ => Err(DecodeFault::Mismatch),
    }
}

fn text_at(cells: &Vec<Cell>, i: usize) -> (r: Result<String, DecodeFault>)
    ensures
        match r {
            Ok(s) => text_column(cells_view(cells@), i as int) == Ok::<Seq<char>, DecodeFault>(s@),
            Err(f) => text_column(cells_view(cells@), i as int) == Err::<Seq<char>, DecodeFault>(f),
        },
{
    if i >= cells.len() {
        return Err(DecodeFault::Missing);
    }
    match &cells[i] {
        Cell::Text(s) => Ok(s.clone()),
        Cell::Null => Err(DecodeFault::Null),
        _ => Err(DecodeFault::Mismatch),
    }
}

/// Once a prefix of the rows fails to decode, every longer prefix fails the same way.
proof fn lemma_decode_error_persists(rows: Seq<Seq<CellV>>, k: int, e: DecodeError)
    requires
        0 <= k <= rows.len(),
        decode_rows_spec(rows.subrange(0, k)) == Err::<Seq<UserRec>, DecodeError>(e),
    ensures
        decode_rows_spec(rows) == Err::<Seq<UserRec>, DecodeError>(e),
    decreases rows.len() - k,
{
    if k == rows.len() {
        assert(rows.subrange(0, k) =~= rows);
    } else {
        let p = rows.subrange(0, k + 1);
        assert(p.drop_last() =~= rows.subrange(0, k));
        lemma_decode_error_persists(rows, k + 1, e);
    }
}

/// Decodes one row as `(id, name, age)`, reading the columns by position.
pub fn decode_row(cells: &Vec<Cell>) -> (r: Result<User, (usize, DecodeFault)>)
    ensures
        match r {
            Ok(u) => decode_row_spec(cells_view(cells@)) == Ok::<UserRec, (usize, DecodeFault)>(u@),
            Err(e) => decode_row_spec(cells_view(cells@)) == Err::<UserRec, (usize, DecodeFault)>(e),
        },
{
    let id = match int_at(cells, 0) {
        Ok(v) => v,
        Err(f) => return Err((0, f)),
    };
    let name = match text_at(cells, 1) {
        Ok(s) => s,
        Err(f) => return Err((1, f)),
    };
    let age = match int_at(cells, 2) {
        Ok(v) => v,
        Err(f) => return Err((2, f)),
    };
    Ok(User { id, name, age })
}

/// Decodes every row of a result set, in order, stopping at the first row
/// that does not decode.
pub fn decode_rows(rows: &Vec<Vec<Cell>>) -> (r: Result<Vec<User>, DecodeError>)
    ensures
        match r {
            Ok(us) => decode_rows_spec(rows_view(rows@)) == Ok::<Seq<UserRec>, DecodeError>(users_view(us@)),
            Err(e) => decode_rows_spec(rows_view(rows@)) == Err::<Seq<UserRec>, DecodeError>(e),
        },
{
    let mut users: Vec<User> = Vec::new();
    let mut i: usize = 0;
    assert(rows_view(rows@.subrange(0, 0)) =~= Seq::<Seq<CellV>>::empty());
    assert(users_view(users@) =~= Seq::<UserRec>::empty());
    while i < rows.len()
        invariant
            i <= rows.len(),
            decode_rows_spec(rows_view(rows@.subrange(0, i as int)))
                == Ok::<Seq<UserRec>, DecodeError>(users_view(users@)),
        decreases rows.len() - i,
    {
        let ghost pre = rows_view(rows@.subrange(0, i as int + 1));
        assert(pre.drop_last() =~= rows_view(rows@.subrange(0, i as int)));
        assert(pre.last() == cells_view(rows@[i as int]@));
        match decode_row(&rows[i]) {
            Ok(u) => {
                let ghost old_users = users@;
                users.push(u);
                assert(users_view(users@) =~= users_view(old_users).push(u@));
            },
            Err((c, f)) => {
                let e = DecodeError { row: i, column: c, fault: f };
                proof {
                    assert(decode_rows_spec(pre) == Err::<Seq<UserRec>, DecodeError>(e));
                    assert(rows_view(rows@).subrange(0, i as int + 1) =~= pre);
                    lemma_decode_error_persists(rows_view(rows@), i as int + 1, e);
                    assert(rows_view(rows@).subrange(0, rows@.len() as int) =~= rows_view(rows@));
                }
                return Err(e);
            },
        }
        i = i + 1;
    }
    assert(rows@.subrange(0, i as int) =~= rows@);
    Ok(users)
}

} // verus!
