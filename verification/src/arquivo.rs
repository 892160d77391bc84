//! Files: a name, a size, a permission set and the owning user and
//! group. Owner and group are captured by value at creation time — a
//! snapshot — so a later change to the original user or group does not
//! touch the file.

use vstd::prelude::*;
use crate::permissoes::Permissoes;
use crate::texto::decimal;
use crate::texto::decimal_string;
use crate::usuarios::Grupo;
use crate::usuarios::Usuario;

verus! {

/// An in-memory file record.
#[derive(Debug)]
pub struct Arquivo {
    pub nome: String,
    pub tamanho: u64,
    pub permissoes: Permissoes,
    pub usuario: Usuario,
    pub grupo: Grupo,
}

impl Arquivo {
    /// The `stat`-style summary line: name, size, symbolic permissions,
    /// owner name and group name, space-separated.
    pub open spec fn stat_spec(self) -> Seq<char> {
        self.nome@ + seq![' '] + decimal(self.tamanho as int) + seq![' ']
            + self.permissoes.simbolica_spec() + seq![' '] + self.usuario.nome@ + seq![' ']
            + self.grupo.nome@
    }

    /// Builds a file owned by the given user and group, with the
    /// default permissions: read and write, no execute.
    pub fn new(nome: String, tamanho: u64, usuario: Usuario, grupo: Grupo) -> (r: Arquivo)
        ensures
            r.nome == nome,
            r.tamanho == tamanho,
            r.permissoes == (Permissoes { leitura: true, escrita: true, execucao: false }),
            r.usuario == usuario,
            r.grupo == grupo,
    {
        Arquivo {
            nome,
            tamanho,
            permissoes: Permissoes { leitura: true, escrita: true, execucao: false },
            usuario,
            grupo,
        }
    }

    /// Replaces the permission set with one built from the three flags.
    pub fn alterar_permissao(&mut self, leitura: bool, escrita: bool, execucao: bool)
        ensures
            final(self).permissoes == (Permissoes { leitura, escrita, execucao }),
            final(self).nome == old(self).nome,
            final(self).tamanho == old(self).tamanho,
            final(self).usuario == old(self).usuario,
            final(self).grupo == old(self).grupo,
    {
        self.permissoes = Permissoes::nova(leitura, escrita, execucao);
    }

    /// Replaces the permission set wholesale.
    pub fn definir_permissoes(&mut self, novas: Permissoes)
        ensures
            final(self).permissoes == novas,
            final(self).nome == old(self).nome,
            final(self).tamanho == old(self).tamanho,
            final(self).usuario == old(self).usuario,
            final(self).grupo == old(self).grupo,
    {
        self.permissoes = novas;
    }

    /// The summary line, e.g. `report.txt 1024 rw- alice staff`.
    pub fn stat(&self) -> (r: String)
        ensures
            r@ == self.stat_spec(),
    {
        let mut s = self.nome.clone();
        s.append(" ");
        let tamanho = decimal_string(self.tamanho);
        s.append(tamanho.as_str());
        s.append(" ");
        let rwx = self.permissoes.simbolica();
        s.append(rwx.as_str());
        s.append(" ");
        s.append(self.usuario.nome.as_str());
        s.append(" ");
        s.append(self.grupo.nome.as_str());
        proof {
            reveal_strlit(" ");
            assert(s@ =~= self.stat_spec());
        }
        s
    }

    /// The symbolic form of the file's permissions alone, e.g. `rw-`.
    pub fn permissoes_rwx(&self) -> (r: String)
        ensures
            r@ == self.permissoes.simbolica_spec(),
    {
        self.permissoes.simbolica()
    }
}

/// Snapshot ownership: the summary line reads only the file's own
/// fields, so a group change applied to the user recorded in the file —
/// let alone to the user object it was copied from — leaves the line
/// unchanged.
pub proof fn lemma_stat_ignora_grupo_do_usuario(a: Arquivo, b: Arquivo)
    requires
        a.nome@ == b.nome@,
        a.tamanho == b.tamanho,
        a.permissoes == b.permissoes,
        a.usuario.nome@ == b.usuario.nome@,
        a.grupo.nome@ == b.grupo.nome@,
    ensures
        a.stat_spec() == b.stat_spec(),
{
}

} // verus!
