//! The rows the service keeps in its database: registered users and the
//! challenge records they publish, and how each is read back from a result row.

use vstd::prelude::*;

verus! {

/// One column of a result row, as the database driver can read it: as an
/// unsigned integer, as text, or (for NULL) as neither.
pub struct Column {
    pub uint: Option<u64>,
    pub text: Option<String>,
}

/// A result row: its columns in query order.
pub struct Row {
    pub columns: Vec<Column>,
}

/// The text of an optional string, as a mathematical value.
pub open spec fn opt_text(t: Option<String>) -> Option<Seq<char>> {
    match t {
        Some(s) => Some(s@),
        None => None,
    }
}

impl Row {
    /// Number of columns.
    pub open spec fn arity(&self) -> nat {
        self.columns@.len()
    }

    /// Column `i` read as text.
    pub open spec fn text_at(&self, i: int) -> Option<Seq<char>> {
        opt_text(self.columns@[i].text)
    }

    /// Column `i` read as an unsigned integer.
    pub open spec fn uint_at(&self, i: int) -> Option<u64> {
        self.columns@[i].uint
    }

    /// Columns `lo .. hi` can all be read as text.
    pub open spec fn texts_readable(&self, lo: int, hi: int) -> bool {
        forall|i: int| lo <= i < hi ==> (#[trigger] self.columns@[i]).text is Some
    }

    /// Number of columns.
    pub fn len(&self) -> (n: usize)
        ensures
            n == self.arity(),
    {
        self.columns.len()
    }
}

/// Reads column `i` as text.
fn text_column(row: &Row, i: usize) -> (s: String)
    requires
        i < row.arity(),
        row.columns@[i as int].text is Some,
    ensures
        Some(s@) == row.text_at(i as int),
{
    match &row.columns[i].text {
        Some(t) => t.clone(),
        None => String::new(),
    }
}

/// A registered account.
pub struct User {
    pub id: u64,
    pub username: String,
    pub passhash: String,
    pub salt: String,
    pub apikey: String,
}

/// The mathematical value of a [`User`].
pub struct UserView {
    pub id: u64,
    pub username: Seq<char>,
    pub passhash: Seq<char>,
    pub salt: Seq<char>,
    pub apikey: Seq<char>,
}

impl View for User {
    type V = UserView;

    open spec fn view(&self) -> UserView {
        UserView {
            id: self.id,
            username: self.username@,
            passhash: self.passhash@,
            salt: self.salt@,
            apikey: self.apikey@,
        }
    }
}

/// A published challenge record. `expiration` is the expiry time as the
/// database formats it (`%Y-%m-%d %H:%i:%s`).
pub struct Record {
    pub name: String,
    pub token: String,
    pub expiration: String,
    pub apikey: String,
}

/// The mathematical value of a [`Record`].
pub struct RecordView {
    pub name: Seq<char>,
    pub token: Seq<char>,
    pub expiration: Seq<char>,
    pub apikey: Seq<char>,
}

impl View for Record {
    type V = RecordView;

    open spec fn view(&self) -> RecordView {
        RecordView {
            name: self.name@,
            token: self.token@,
            expiration: self.expiration@,
            apikey: self.apikey@,
        }
    }
}

/// A row that does not have the shape of the value asked for; it carries the row.
pub struct FromRowError {
    pub row: Row,
}

/// A user row has exactly five columns: id, username, passhash, salt, apikey.
pub open spec fn user_row_shape(row: &Row) -> bool {
    row.arity() == 5
}

/// Every column of a five-column user row can be read as its field's type.
pub open spec fn user_row_readable(row: &Row) -> bool {
    &&& row.columns@[0].uint is Some
    &&& row.texts_readable(1, 5)
}

/// The user that a well-formed user row holds.
pub open spec fn user_of_row(row: &Row) -> UserView {
    UserView {
        id: row.uint_at(0)->0,
        username: row.text_at(1)->0,
        passhash: row.text_at(2)->0,
        salt: row.text_at(3)->0,
        apikey: row.text_at(4)->0,
    }
}

/// A record row has at least four columns: name, token, expiration, apikey
/// (further columns are ignored).
pub open spec fn record_row_shape(row: &Row) -> bool {
    row.arity() >= 4
}

/// The first four columns of a record row can be read as text.
pub open spec fn record_row_readable(row: &Row) -> bool {
    row.texts_readable(0, 4)
}

/// The record that a well-formed record row holds.
pub open spec fn record_of_row(row: &Row) -> RecordView {
    RecordView {
        name: row.text_at(0)->0,
        token: row.text_at(1)->0,
        expiration: row.text_at(2)->0,
        apikey: row.text_at(3)->0,
    }
}

/// A user row whose columns are all readable.
pub open spec fn valid_user_row(row: &Row) -> bool {
    user_row_shape(row) && user_row_readable(row)
}

/// A record row whose first four columns are readable.
pub open spec fn valid_record_row(row: &Row) -> bool {
    record_row_shape(row) && record_row_readable(row)
}

/// A user row is read only from exactly five columns: the id from the first,
/// then the username, password hash, salt and API key from the next four, as
/// text. A record row is read from at least four columns: the name, token,
/// expiry and API key from the first four, as text.
pub proof fn lemma_row_columns(row: Row)
    ensures
        user_row_shape(&row) <==> row.columns@.len() == 5,
        record_row_shape(&row) <==> row.columns@.len() >= 4,
        valid_user_row(&row) ==> user_of_row(&row) == (UserView {
            id: row.columns@[0].uint->0,
            username: row.columns@[1].text->0@,
            passhash: row.columns@[2].text->0@,
            salt: row.columns@[3].text->0@,
            apikey: row.columns@[4].text->0@,
        }),
        valid_record_row(&row) ==> record_of_row(&row) == (RecordView {
            name: row.columns@[0].text->0@,
            token: row.columns@[1].text->0@,
            expiration: row.columns@[2].text->0@,
            apikey: row.columns@[3].text->0@,
        }),
{
}

impl User {
    /// Reads a user from a row, refusing a row that does not have exactly five
    /// columns.
    pub fn from_row_opt(row: Row) -> (res: Result<User, FromRowError>)
        requires
            user_row_shape(&row) ==> user_row_readable(&row),
        ensures
            res is Err <==> !user_row_shape(&row),
            res matches Err(e) ==> e.row == row,
            res matches Ok(u) ==> u@ == user_of_row(&row),
    {
        if row.len() != 5 {
            return Err(FromRowError { row });
        }
        let id: u64 = match row.columns[0].uint {
            Some(v) => v,
            None => 0,
        };
        let username = text_column(&row, 1);
        let passhash = text_column(&row, 2);
        let salt = text_column(&row, 3);
        let apikey = text_column(&row, 4);
        Ok(User { id, username, passhash, salt, apikey })
    }

    /// Reads a user from a well-formed user row.
    pub fn from_row(row: Row) -> (u: User)
        requires
            valid_user_row(&row),
        ensures
            u@ == user_of_row(&row),
    {
        match User::from_row_opt(row) {
            Ok(u) => u,
            Err(_) => {
                proof {
                    assert(false);
                }
                User {
                    id: 0,
                    username: String::new(),
                    passhash: String::new(),
                    salt: String::new(),
                    apikey: String::new(),
                }
            },
        }
    }
}

/// Reads the four record columns of a well-formed record row.
pub fn read_record(row: &Row) -> (r: Record)
    requires
        valid_record_row(row),
    ensures
        r@ == record_of_row(row),
{
    let name = text_column(row, 0);
    let token = text_column(row, 1);
    let expiration = text_column(row, 2);
    let apikey = text_column(row, 3);
    Record { name, token, expiration, apikey }
}

impl Record {
    /// Reads a record from a row, refusing a row with fewer than four columns.
    pub fn from_row_opt(row: Row) -> (res: Result<Record, FromRowError>)
        requires
            record_row_shape(&row) ==> record_row_readable(&row),
        ensures
            res is Err <==> !record_row_shape(&row),
            res matches Err(e) ==> e.row == row,
            res matches Ok(r) ==> r@ == record_of_row(&row),
    {
        if row.len() < 4 {
            return Err(FromRowError { row });
        }
        Ok(read_record(&row))
    }

    /// Reads a record from a well-formed record row.
    pub fn from_row(row: Row) -> (r: Record)
        requires
            valid_record_row(&row),
        ensures
            r@ == record_of_row(&row),
    {
        match Record::from_row_opt(row) {
            Ok(r) => r,
            Err(_) => {
                proof {
                    assert(false);
                }
                Record {
                    name: String::new(),
                    token: String::new(),
                    expiration: String::new(),
                    apikey: String::new(),
                }
            },
        }
    }
}

} // verus!
