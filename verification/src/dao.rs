//! The data-access object: one exclusive connection to an embedded SQLite
//! database file, a table guaranteed present after construction, and one
//! parameterized statement per operation.
//!
//! The rows of the table are modelled by the spec function [`conteudo`],
//! a map from the primary key to the row's fields. Each trusted wrapper
//! around a `rusqlite` call states its effect on that map; everything else
//! is verified against those statements. The statements assume what the
//! design guarantees: the connection is owned exclusively, so nothing else
//! writes to the database file during the object's lifetime.

use vstd::prelude::*;
use crate::aluno::Aluno;
use crate::modelo::AlunoView;
use crate::modelo::tabela_delete;
use crate::modelo::tabela_insert;
use crate::modelo::tabela_update;

verus! {

/// The outcome of an operation that did not succeed.
#[derive(Clone, Copy, Debug, PartialEq, Eq, Structural)]
pub enum DaoError {
    /// The database file cannot be opened or the table cannot be ensured;
    /// fatal to construction.
    StorageUnavailable,
    /// A write broke a declared constraint: a duplicate primary key on
    /// insert.
    ConstraintViolation,
    /// Any other driver-level failure.
    StorageError,
}

#[verifier::external_type_specification]
#[verifier::external_body]
pub struct ExConnection(rusqlite::Connection);

/// The rows of the student table reachable through a connection value: a
/// map from the primary key `id` to the whole row. A wrapper that runs a
/// statement which writes says how the map of the new connection value
/// relates to the map of the old one.
pub uninterp spec fn conteudo(conn: rusqlite::Connection) -> Map<int, AlunoView>;

/// Relies on `rusqlite::Connection::open`: it opens the database file at
/// `path`, creating it if absent, and fails only if the file cannot be
/// opened as a database.
#[verifier::external_body]
fn abrir(path: &str) -> (r: Result<rusqlite::Connection, DaoError>)
    ensures
        r matches Err(e) ==> e == DaoError::StorageUnavailable,
{
    match rusqlite::Connection::open(path) {
        Ok(c) => Ok(c),
        Err(_) => Err(DaoError::StorageUnavailable),
    }
}

/// Relies on `rusqlite::Connection::execute` with `CREATE TABLE IF NOT
/// EXISTS`: on success the table exists and holds finitely many rows — the
/// rows it already held, which the statement never alters, or none where
/// it was just created.
#[verifier::external_body]
fn criar_tabela(conn: &mut rusqlite::Connection) -> (r: Result<(), DaoError>)
    ensures
        r is Ok ==> conteudo(*final(conn)).dom().finite(),
        r matches Err(e) ==> e == DaoError::StorageUnavailable,
{
    let r = conn.execute(
        "CREATE TABLE IF NOT EXISTS tb_alunos (
            id INTEGER PRIMARY KEY,
            nome TEXT NOT NULL,
            matricula TEXT NOT NULL,
            data_nascimento TEXT NOT NULL
        )",
        (),
    );
    match r {
        Ok(_) => Ok(()),
        Err(_) => Err(DaoError::StorageUnavailable),
    }
}

/// Persists student records in one table of an embedded SQLite database
/// file. It owns its connection exclusively for its whole lifetime; the
/// view of the object is the map of rows currently in the table, which is
/// unknown at construction (the file may already hold rows).
pub struct AlunoDao {
    connection: rusqlite::Connection,
}

impl View for AlunoDao {
    type V = Map<int, AlunoView>;

    closed spec fn view(&self) -> Map<int, AlunoView> {
        conteudo(self.connection)
    }
}

impl AlunoDao {
    /// Relies on `rusqlite::Connection::execute` with a parameterized
    /// `INSERT` of all four fields: the row is added when no row with that
    /// primary key exists; a duplicate primary key is rejected with
    /// `SQLITE_CONSTRAINT` (the three text fields are bound from strings
    /// and are never NULL, so no other constraint of the schema can fail);
    /// a single statement is atomic, so any failure leaves the table
    /// unchanged.
    #[verifier::external_body]
    fn executar_insert(&mut self, aluno: &Aluno) -> (r: Result<(), DaoError>)
        ensures
            r is Ok ==> !conteudo(old(self).connection).contains_key(aluno@.id),
            r is Ok ==> conteudo(final(self).connection) == tabela_insert(
                conteudo(old(self).connection),
                aluno@,
            ),
            r is Err ==> conteudo(final(self).connection) == conteudo(old(self).connection),
            r matches Err(e) ==> e == DaoError::ConstraintViolation || e == DaoError::StorageError,
            r matches Err(e) ==> (e == DaoError::ConstraintViolation ==> conteudo(
                old(self).connection,
            ).contains_key(aluno@.id)),
    {
        let r = self.connection.execute(
            "INSERT INTO tb_alunos (id, nome, matricula, data_nascimento)
            VALUES (?1, ?2, ?3, ?4)",
            (aluno.get_id(), aluno.get_nome(), aluno.get_matricula(), aluno.get_data_nascimento()),
        );
        match r {
            Ok(_) => Ok(()),
            Err(e) => match e.sqlite_error_code() {
                Some(rusqlite::ErrorCode::ConstraintViolation) => Err(DaoError::ConstraintViolation),
                _ => Err(DaoError::StorageError),
            },
        }
    }

    /// Relies on `rusqlite::Connection::execute` with a parameterized
    /// `UPDATE ... WHERE id = ?`: it overwrites the three text fields of
    /// the row whose primary key matches and affects no row when none
    /// matches; a single statement is atomic, so any failure leaves the
    /// table unchanged.
    #[verifier::external_body]
    fn executar_update(&mut self, aluno: &Aluno) -> (r: Result<(), DaoError>)
        ensures
            r is Ok ==> conteudo(final(self).connection) == tabela_update(
                conteudo(old(self).connection),
                aluno@,
            ),
            r is Err ==> conteudo(final(self).connection) == conteudo(old(self).connection),
            r matches Err(e) ==> e == DaoError::StorageError,
    {
        let r = self.connection.execute(
            "UPDATE tb_alunos SET nome = ?2, matricula = ?3, data_nascimento = ?4 WHERE id = ?1",
            (aluno.get_id(), aluno.get_nome(), aluno.get_matricula(), aluno.get_data_nascimento()),
        );
        match r {
            Ok(_) => Ok(()),
            Err(_) => Err(DaoError::StorageError),
        }
    }

    /// Relies on `rusqlite::Connection::execute` with a parameterized
    /// `DELETE ... WHERE id = ?`: it removes the row whose primary key
    /// matches and affects no row when none matches; a single statement is
    /// atomic, so any failure leaves the table unchanged.
    #[verifier::external_body]
    fn executar_delete(&mut self, id: i32) -> (r: Result<(), DaoError>)
        ensures
            r is Ok ==> conteudo(final(self).connection) == tabela_delete(
                conteudo(old(self).connection),
                id as int,
            ),
            r is Err ==> conteudo(final(self).connection) == conteudo(old(self).connection),
            r matches Err(e) ==> e == DaoError::StorageError,
    {
        let r = self.connection.execute("DELETE FROM tb_alunos WHERE id = ?1", (id,));
        match r {
            Ok(_) => Ok(()),
            Err(_) => Err(DaoError::StorageError),
        }
    }

    /// Relies on `rusqlite::Connection::query_row` with `SELECT ... WHERE
    /// id = ?`: it returns the single row whose primary key matches —
    /// there is at most one — and reports `QueryReturnedNoRows` when none
    /// matches. The query writes nothing.
    #[verifier::external_body]
    fn consultar(&self, id: i32) -> (r: Result<Option<Aluno>, DaoError>)
        ensures
            r matches Ok(op) ==> (op is Some <==> conteudo(self.connection).contains_key(
                id as int,
            )),
            r matches Ok(op) ==> (op matches Some(a) ==> a@ == conteudo(self.connection)[id as int]),
            r matches Err(e) ==> e == DaoError::StorageError,
    {
        let r = self.connection.query_row(
            "SELECT id, nome, matricula, data_nascimento FROM tb_alunos WHERE id = ?1",
            (id,),
            |row| Ok(Aluno::new(row.get(0)?, row.get(1)?, row.get(2)?, row.get(3)?)),
        );
        match r {
            Ok(a) => Ok(Some(a)),
            Err(rusqlite::Error::QueryReturnedNoRows) => Ok(None),
            Err(_) => Err(DaoError::StorageError),
        }
    }

    /// Relies on `rusqlite::Connection::query_row` with `SELECT COUNT(*)`:
    /// it returns the number of rows of the table. The query writes
    /// nothing.
    #[verifier::external_body]
    fn contar_linhas(&self) -> (r: Result<usize, DaoError>)
        ensures
            r matches Ok(n) ==> n as nat == conteudo(self.connection).len(),
            r matches Err(e) ==> e == DaoError::StorageError,
    {
        let r: rusqlite::Result<i64> =
            self.connection.query_row("SELECT COUNT(*) FROM tb_alunos", (), |row| row.get(0));
        match r {
            Ok(n) => Ok(n as usize),
            Err(_) => Err(DaoError::StorageError),
        }
    }

    /// Opens (creating if absent) the database file at the fixed path
    /// `alunos.db` and ensures the table exists.
    pub fn new() -> (r: Result<AlunoDao, DaoError>)
        ensures
            r matches Ok(d) ==> d@.dom().finite(),
            r matches Err(e) ==> e == DaoError::StorageUnavailable,
    {
        AlunoDao::open("alunos.db")
    }

    /// Opens (creating if absent) the database file at `path` and ensures
    /// the table exists. Fails with `StorageUnavailable` if the file
    /// cannot be opened or the table cannot be ensured; on success the
    /// table holds finitely many rows.
    pub fn open(path: &str) -> (r: Result<AlunoDao, DaoError>)
        ensures
            r matches Ok(d) ==> d@.dom().finite(),
            r matches Err(e) ==> e == DaoError::StorageUnavailable,
    {
        let mut connection = match abrir(path) {
            Ok(c) => c,
            Err(e) => {
                return Err(e);
            },
        };
        match criar_tabela(&mut connection) {
            Ok(u) => u,
            Err(e) => {
                return Err(e);
            },
        };
        Ok(AlunoDao { connection })
    }

    /// Inserts the record as a new row. On success the key was free and
    /// the table gains exactly that row; a duplicate key is reported as
    /// `ConstraintViolation`; on any failure the table is unchanged.
    pub fn insert(&mut self, aluno: &Aluno) -> (r: Result<(), DaoError>)
        ensures
            r is Ok ==> !old(self)@.contains_key(aluno@.id),
            r is Ok ==> final(self)@ == tabela_insert(old(self)@, aluno@),
            r is Err ==> final(self)@ == old(self)@,
            r matches Err(e) ==> e == DaoError::ConstraintViolation || e == DaoError::StorageError,
            r matches Err(e) ==> (e == DaoError::ConstraintViolation ==> old(self)@.contains_key(
                aluno@.id,
            )),
            old(self)@.dom().finite() ==> final(self)@.dom().finite(),
    {
        self.executar_insert(aluno)
    }

    /// Overwrites the three text fields of the row whose key is
    /// `aluno`'s id. When no row has that key, the call succeeds and the
    /// table is unchanged: a silent no-op, by design. On any failure the
    /// table is unchanged.
    pub fn update(&mut self, aluno: &Aluno) -> (r: Result<(), DaoError>)
        ensures
            r is Ok ==> final(self)@ == tabela_update(old(self)@, aluno@),
            r is Err ==> final(self)@ == old(self)@,
            r matches Err(e) ==> e == DaoError::StorageError,
            old(self)@.dom().finite() ==> final(self)@.dom().finite(),
    {
        self.executar_update(aluno)
    }

    /// Removes the row whose key is `id`. When no row has that key, the
    /// call succeeds and the table is unchanged: deleting is idempotent.
    /// On any failure the table is unchanged.
    pub fn delete(&mut self, id: i32) -> (r: Result<(), DaoError>)
        ensures
            r is Ok ==> final(self)@ == tabela_delete(old(self)@, id as int),
            r is Err ==> final(self)@ == old(self)@,
            r matches Err(e) ==> e == DaoError::StorageError,
            old(self)@.dom().finite() ==> final(self)@.dom().finite(),
    {
        self.executar_delete(id)
    }

    /// Returns the row whose key is `id`, or `None` when no row has that
    /// key. The table is never changed.
    pub fn select(&mut self, id: i32) -> (r: Result<Option<Aluno>, DaoError>)
        ensures
            final(self)@ == old(self)@,
            r matches Ok(op) ==> (op is Some <==> old(self)@.contains_key(id as int)),
            r matches Ok(op) ==> (op matches Some(a) ==> a@ == old(self)@[id as int]),
            r matches Err(e) ==> e == DaoError::StorageError,
    {
        self.consultar(id)
    }

    /// Returns the number of rows of the table.
    pub fn count(&self) -> (r: Result<usize, DaoError>)
        ensures
            r matches Ok(n) ==> n as nat == self@.len(),
            r matches Err(e) ==> e == DaoError::StorageError,
    {
        self.contar_linhas()
    }
}

} // verus!
