//! The student record type: a plain value with accessors and mutators.

use vstd::prelude::*;
use crate::modelo::AlunoView;

verus! {

/// An in-memory student record. No field is validated: any string,
/// including the empty one, is accepted. Copies are independent values.
#[derive(Clone, Debug)]
pub struct Aluno {
    id: i32,
    nome: String,
    matricula: String,
    data_nascimento: String,
}

impl View for Aluno {
    type V = AlunoView;

    closed spec fn view(&self) -> AlunoView {
        AlunoView {
            id: self.id as int,
            nome: self.nome@,
            matricula: self.matricula@,
            data_nascimento: self.data_nascimento@,
        }
    }
}

impl Aluno {
    /// Builds a record from the four field values, unchanged.
    pub fn new(id: i32, nome: String, matricula: String, data_nascimento: String) -> (r: Aluno)
        ensures
            r@.id == id as int,
            r@.nome == nome@,
            r@.matricula == matricula@,
            r@.data_nascimento == data_nascimento@,
    {
        Aluno { id, nome, matricula, data_nascimento }
    }

    pub fn get_id(&self) -> (r: i32)
        ensures
            r as int == self@.id,
    {
        self.id
    }

    pub fn get_nome(&self) -> (r: &str)
        ensures
            r@ == self@.nome,
    {
        self.nome.as_str()
    }

    pub fn get_matricula(&self) -> (r: &str)
        ensures
            r@ == self@.matricula,
    {
        self.matricula.as_str()
    }

    pub fn get_data_nascimento(&self) -> (r: &str)
        ensures
            r@ == self@.data_nascimento,
    {
        self.data_nascimento.as_str()
    }

    /// Overwrites the name; the other fields keep their values.
    pub fn set_nome(&mut self, nome: String)
        ensures
            final(self)@.nome == nome@,
            final(self)@.id == old(self)@.id,
            final(self)@.matricula == old(self)@.matricula,
            final(self)@.data_nascimento == old(self)@.data_nascimento,
    {
        self.nome = nome;
    }

    /// Overwrites the registration code; the other fields keep their values.
    pub fn set_matricula(&mut self, matricula: String)
        ensures
            final(self)@.matricula == matricula@,
            final(self)@.id == old(self)@.id,
            final(self)@.nome == old(self)@.nome,
            final(self)@.data_nascimento == old(self)@.data_nascimento,
    {
        self.matricula = matricula;
    }

    /// Overwrites the birth date; the other fields keep their values.
    pub fn set_data_nascimento(&mut self, data_nascimento: String)
        ensures
            final(self)@.data_nascimento == data_nascimento@,
            final(self)@.id == old(self)@.id,
            final(self)@.nome == old(self)@.nome,
            final(self)@.matricula == old(self)@.matricula,
    {
        self.data_nascimento = data_nascimento;
    }
}

} // verus!
