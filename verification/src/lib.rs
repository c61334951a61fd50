//! A student record type together with a data-access object that persists
//! such records in one table of an embedded SQLite database file.
//!
//! The table held behind the database connection is modelled as a ghost
//! `Map<int, AlunoView>` keyed by the primary key `id`; every operation of
//! the data-access object states its effect on that map.

pub mod aluno;
pub mod dao;
pub mod modelo;

pub use aluno::Aluno;
pub use dao::AlunoDao;
pub use dao::DaoError;
pub use modelo::AlunoView;
