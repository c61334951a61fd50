use poo_classe::Aluno;
use poo_classe::AlunoDao;
use poo_classe::DaoError;

fn aluno(id: i32, nome: &str, matricula: &str, data_nascimento: &str) -> Aluno {
    Aluno::new(
        id,
        nome.to_string(),
        matricula.to_string(),
        data_nascimento.to_string(),
    )
}

#[test]
fn esquema_idempotente() {
    // Two constructions against the same database: the second never errors
    // and neither duplicates nor clears the table.
    let mut dao1 = AlunoDao::open("file:esquema_idempotente?mode=memory&cache=shared").unwrap();
    dao1.insert(&aluno(7, "Ana", "77777", "1999-09-09")).unwrap();

    let mut dao2 = AlunoDao::open("file:esquema_idempotente?mode=memory&cache=shared").unwrap();
    let guardado = dao2.select(7).unwrap().unwrap();
    assert_eq!(guardado.get_id(), 7);
    assert_eq!(guardado.get_nome(), "Ana");
    assert_eq!(dao2.count().unwrap(), 1);
}

#[test]
fn insert_rejeita_id_duplicado() {
    let mut dao = AlunoDao::open(":memory:").unwrap();
    dao.insert(&aluno(1, "João", "12345", "2000-01-01")).unwrap();

    let segundo = dao.insert(&aluno(1, "Maria", "99999", "1990-02-02"));
    assert_eq!(segundo.unwrap_err(), DaoError::ConstraintViolation);

    // Exactly one row for that id, and it is still the first one.
    assert_eq!(dao.count().unwrap(), 1);
    let guardado = dao.select(1).unwrap().unwrap();
    assert_eq!(guardado.get_nome(), "João");
    assert_eq!(guardado.get_matricula(), "12345");
}

#[test]
fn update_muda_somente_a_linha_visada() {
    let mut dao = AlunoDao::open(":memory:").unwrap();
    dao.insert(&aluno(1, "João", "12345", "2000-01-01")).unwrap();
    dao.insert(&aluno(2, "Maria", "54321", "1998-03-03")).unwrap();

    dao.update(&aluno(1, "Pedro", "11111", "2001-04-04")).unwrap();

    let alvo = dao.select(1).unwrap().unwrap();
    assert_eq!(alvo.get_nome(), "Pedro");
    assert_eq!(alvo.get_matricula(), "11111");
    assert_eq!(alvo.get_data_nascimento(), "2001-04-04");

    let outra = dao.select(2).unwrap().unwrap();
    assert_eq!(outra.get_nome(), "Maria");
    assert_eq!(outra.get_matricula(), "54321");
    assert_eq!(outra.get_data_nascimento(), "1998-03-03");
    assert_eq!(dao.count().unwrap(), 2);
}

#[test]
fn update_com_id_ausente_nada_muda() {
    let mut dao = AlunoDao::open(":memory:").unwrap();
    dao.insert(&aluno(1, "João", "12345", "2000-01-01")).unwrap();

    // Silent no-op: success is reported, zero rows are affected.
    dao.update(&aluno(99, "Pedro", "11111", "2001-04-04")).unwrap();

    assert_eq!(dao.count().unwrap(), 1);
    assert!(dao.select(99).unwrap().is_none());
    let guardado = dao.select(1).unwrap().unwrap();
    assert_eq!(guardado.get_nome(), "João");
    assert_eq!(guardado.get_matricula(), "12345");
    assert_eq!(guardado.get_data_nascimento(), "2000-01-01");
}

#[test]
fn delete_e_idempotente() {
    let mut dao = AlunoDao::open(":memory:").unwrap();
    dao.insert(&aluno(5, "Ana", "55555", "1997-07-07")).unwrap();

    dao.delete(5).unwrap();
    assert!(dao.select(5).unwrap().is_none());

    // The second delete is a no-op that still reports success.
    dao.delete(5).unwrap();
    assert!(dao.select(5).unwrap().is_none());
    assert_eq!(dao.count().unwrap(), 0);
}

#[test]
fn cenario_completo() {
    let mut dao = AlunoDao::open(":memory:").unwrap();

    let original = aluno(1, "João", "12345", "2000-01-01");
    dao.insert(&original).unwrap();

    let mut modificado = original.clone();
    modificado.set_nome("Pedro".to_string());
    dao.update(&modificado).unwrap();

    let guardado = dao.select(1).unwrap().unwrap();
    assert_eq!(guardado.get_id(), 1);
    assert_eq!(guardado.get_nome(), "Pedro");
    assert_eq!(guardado.get_matricula(), "12345");
    assert_eq!(guardado.get_data_nascimento(), "2000-01-01");

    dao.delete(1).unwrap();
    assert_eq!(dao.count().unwrap(), 0);
}

#[test]
fn select_sem_linha_devolve_none() {
    let mut dao = AlunoDao::open(":memory:").unwrap();
    assert!(dao.select(42).unwrap().is_none());

    dao.insert(&aluno(42, "Rui", "42424", "1992-02-02")).unwrap();
    let guardado = dao.select(42).unwrap().unwrap();
    assert_eq!(guardado.get_id(), 42);
    assert_eq!(guardado.get_nome(), "Rui");
    assert_eq!(guardado.get_matricula(), "42424");
    assert_eq!(guardado.get_data_nascimento(), "1992-02-02");
}

#[test]
fn abrir_caminho_invalido_da_storage_unavailable() {
    // A directory cannot be opened as a database file.
    let r = AlunoDao::open(".");
    assert_eq!(r.err().unwrap(), DaoError::StorageUnavailable);
}

#[test]
fn falha_do_driver_da_storage_error() {
    let mut dao = AlunoDao::open("file:falha_do_driver?mode=memory&cache=shared").unwrap();
    dao.insert(&aluno(3, "Ana", "33333", "1993-03-03")).unwrap();

    // Pull the table away behind the object's back: every later statement
    // fails at the driver level.
    let bruta = rusqlite::Connection::open("file:falha_do_driver?mode=memory&cache=shared").unwrap();
    bruta.execute("DROP TABLE tb_alunos", ()).unwrap();

    assert_eq!(dao.delete(3).unwrap_err(), DaoError::StorageError);
    assert_eq!(
        dao.update(&aluno(3, "Eva", "30303", "1993-03-03")).unwrap_err(),
        DaoError::StorageError
    );
    assert_eq!(dao.select(3).unwrap_err(), DaoError::StorageError);
    assert_eq!(dao.count().unwrap_err(), DaoError::StorageError);
    assert_eq!(
        dao.insert(&aluno(4, "Ivo", "44444", "1994-04-04")).unwrap_err(),
        DaoError::StorageError
    );
}
