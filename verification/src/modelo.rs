//! The mathematical model of the student table: a finite map from the
//! primary key to the row's fields, and the effect of each statement on it.

use vstd::prelude::*;

verus! {

/// The abstract value of one student record: the primary key and the three
/// text fields, as mathematical values.
pub ghost struct AlunoView {
    pub id: int,
    pub nome: Seq<char>,
    pub matricula: Seq<char>,
    pub data_nascimento: Seq<char>,
}

/// The table after inserting row `a`: the map gains (or, were the key
/// already present, replaces) the binding of `a.id`.
pub open spec fn tabela_insert(m: Map<int, AlunoView>, a: AlunoView) -> Map<int, AlunoView> {
    m.insert(a.id, a)
}

/// The table after an update with row `a`: the row whose key is `a.id`
/// takes the fields of `a`; when no row has that key, nothing changes.
pub open spec fn tabela_update(m: Map<int, AlunoView>, a: AlunoView) -> Map<int, AlunoView> {
    if m.contains_key(a.id) {
        m.insert(a.id, a)
    } else {
        m
    }
}

/// The table after deleting the row whose key is `id`; when no row has
/// that key, nothing changes.
pub open spec fn tabela_delete(m: Map<int, AlunoView>, id: int) -> Map<int, AlunoView> {
    m.remove(id)
}

/// Inserting a row whose key is free adds exactly that row: the key is now
/// bound to the new row, the row count grows by one, and every other key is
/// bound exactly as before. Since a map binds each key at most once, the
/// table holds exactly one row for the new key; by the contract of
/// `AlunoDao::insert`, a second insert of the same key can therefore not
/// succeed.
pub proof fn lemma_insert_unico(m: Map<int, AlunoView>, a: AlunoView)
    requires
        !m.contains_key(a.id),
        m.dom().finite(),
    ensures
        tabela_insert(m, a).contains_key(a.id),
        tabela_insert(m, a)[a.id] == a,
        tabela_insert(m, a).len() == m.len() + 1,
        forall|k: int| k != a.id ==> tabela_insert(m, a).contains_key(k) == m.contains_key(k),
        forall|k: int| k != a.id && m.contains_key(k) ==> tabela_insert(m, a)[k] == m[k],
{
}

/// An update whose key is present changes exactly the addressed row: that
/// key is now bound to the new fields, the set of keys does not change, and
/// every other key is bound exactly as before.
pub proof fn lemma_update_alvo(m: Map<int, AlunoView>, a: AlunoView)
    requires
        m.contains_key(a.id),
    ensures
        tabela_update(m, a).contains_key(a.id),
        tabela_update(m, a)[a.id] == a,
        tabela_update(m, a).dom() == m.dom(),
        forall|k: int| k != a.id ==> tabela_update(m, a).contains_key(k) == m.contains_key(k),
        forall|k: int| k != a.id && m.contains_key(k) ==> tabela_update(m, a)[k] == m[k],
{
}

/// An update whose key is absent is a silent no-op: the table is unchanged.
pub proof fn lemma_update_ausente(m: Map<int, AlunoView>, a: AlunoView)
    requires
        !m.contains_key(a.id),
    ensures
        tabela_update(m, a) == m,
{
}

/// Deleting is idempotent: after one delete the key is absent, a second
/// delete of the same key changes nothing, and every other key is bound
/// exactly as before.
pub proof fn lemma_delete_idempotente(m: Map<int, AlunoView>, id: int)
    ensures
        !tabela_delete(m, id).contains_key(id),
        tabela_delete(tabela_delete(m, id), id) == tabela_delete(m, id),
        forall|k: int| k != id ==> tabela_delete(m, id).contains_key(k) == m.contains_key(k),
        forall|k: int| k != id && m.contains_key(k) ==> tabela_delete(m, id)[k] == m[k],
{
}

} // verus!
