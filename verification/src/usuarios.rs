//! Users and groups. A user carries at most one group association, held
//! by value as a snapshot; a group holds its members in insertion order
//! and never two members with the same name.

use vstd::prelude::*;
use crate::erros::Erro;

verus! {

/// A user: a name, a numeric id and an optional group association.
/// The association is a snapshot of the group at the time it was set.
#[derive(Debug)]
pub struct Usuario {
    pub nome: String,
    pub uid: u16,
    pub grupo: Option<Box<Grupo>>,
}

/// A group: a name, a numeric id and its members in insertion order.
#[derive(Debug)]
pub struct Grupo {
    pub nome: String,
    pub gid: u16,
    pub membros: Vec<Usuario>,
}

/// The membership sequence with every user of the given name removed;
/// the surviving members keep their relative order.
pub open spec fn remocao_de_membros(membros: Seq<Usuario>, nome: Seq<char>) -> Seq<Usuario>
    decreases membros.len(),
{
    if membros.len() == 0 {
        Seq::empty()
    } else {
        let inicio = remocao_de_membros(membros.drop_last(), nome);
        if membros.last().nome@ == nome {
            inicio
        } else {
            inicio.push(membros.last())
        }
    }
}

/// The two groups carry the same name and id, and the same members in
/// the same order, each member keeping its name and id.
pub open spec fn espelha_grupo(a: Grupo, b: Grupo) -> bool {
    &&& a.nome == b.nome
    &&& a.gid == b.gid
    &&& a.membros@.len() == b.membros@.len()
    &&& forall|i: int|
        0 <= i < a.membros@.len() ==> (#[trigger] a.membros@[i]).nome == b.membros@[i].nome
            && a.membros@[i].uid == b.membros@[i].uid
}

impl Usuario {
    /// The current group association, with the box stripped.
    pub open spec fn grupo_spec(self) -> Option<Grupo> {
        match self.grupo {
            Option::None => Option::None,
            Option::Some(g) => Option::Some(*g),
        }
    }

    /// Builds a user with no group association.
    pub fn new(nome: String, uid: u16) -> (r: Usuario)
        ensures
            r.nome == nome,
            r.uid == uid,
            r.grupo_spec() is None,
    {
        Usuario { nome, uid, grupo: None }
    }

    /// Replaces the group association with the given group. The user is
    /// not registered in the group's member list: that is a separate
    /// step, owed to the group itself.
    pub fn entrar_grupo(&mut self, grupo: Grupo)
        ensures
            final(self).grupo_spec() == Some(grupo),
            final(self).nome == old(self).nome,
            final(self).uid == old(self).uid,
    {
        self.grupo = Some(Box::new(grupo));
    }

    /// Clears the group association; a no-op when there is none.
    pub fn sair_grupo(&mut self)
        ensures
            final(self).grupo_spec() is None,
            final(self).nome == old(self).nome,
            final(self).uid == old(self).uid,
    {
        self.grupo = None;
    }

    /// A copy of the user: same name and id, and the group snapshot
    /// copied member by member.
    pub fn duplicar(&self) -> (r: Usuario)
        ensures
            r.nome == self.nome,
            r.uid == self.uid,
            r.grupo_spec() is Some <==> self.grupo_spec() is Some,
            r.grupo_spec() is Some ==> espelha_grupo(
                r.grupo_spec().unwrap(),
                self.grupo_spec().unwrap(),
            ),
        decreases *self,
    {
        let grupo = match &self.grupo {
            None => None,
            Some(g) => Some(Box::new(g.duplicar())),
        };
        Usuario { nome: self.nome.clone(), uid: self.uid, grupo }
    }

    /// The member names of the user's current group, in insertion order;
    /// empty when the user has no group.
    pub fn listar_membros_do_grupo(&self) -> (r: Vec<String>)
        ensures
            self.grupo_spec() is None ==> r@.len() == 0,
            self.grupo_spec() is Some ==> {
                &&& r@.len() == self.grupo_spec().unwrap().membros@.len()
                &&& forall|i: int|
                    0 <= i < r@.len() ==> r@[i]@ == self.grupo_spec().unwrap().membros@[i].nome@
            },
    {
        match &self.grupo {
            None => Vec::new(),
            Some(g) => g.listar_membros(),
        }
    }
}

fn algum_membro_com_nome(membros: &Vec<Usuario>, nome: &String) -> (r: bool)
    ensures
        r == exists|i: int| 0 <= i < membros@.len() && membros@[i].nome@ == nome@,
{
    let mut i: usize = 0;
    while i < membros.len()
        invariant
            i <= membros@.len(),
            forall|j: int| 0 <= j < i ==> membros@[j].nome@ != nome@,
        decreases membros@.len() - i,
    {
        if membros[i].nome == *nome {
            return true;
        }
        i = i + 1;
    }
    false
}

impl Grupo {
    /// Whether some member carries the given name.
    pub open spec fn tem_membro(self, nome: Seq<char>) -> bool {
        exists|i: int| 0 <= i < self.membros@.len() && self.membros@[i].nome@ == nome
    }

    /// No two members share a name. Established at creation and kept by
    /// every mutation.
    pub open spec fn nomes_unicos(self) -> bool {
        forall|i: int, j: int|
            0 <= i < j < self.membros@.len() ==> self.membros@[i].nome@ != self.membros@[j].nome@
    }

    /// Builds a group with no members.
    pub fn new(nome: String, gid: u16) -> (r: Grupo)
        ensures
            r.nome == nome,
            r.gid == gid,
            r.membros@.len() == 0,
            r.nomes_unicos(),
    {
        Grupo { nome, gid, membros: Vec::new() }
    }

    /// Appends the user to the membership, rejecting a duplicate name.
    /// On rejection the group is left unchanged.
    pub fn cadastrar_usuario(&mut self, usuario: Usuario) -> (r: Result<(), Erro>)
        ensures
            old(self).tem_membro(usuario.nome@) ==> {
                &&& r == Result::<(), Erro>::Err(Erro::MembroDuplicado)
                &&& *final(self) == *old(self)
            },
            !old(self).tem_membro(usuario.nome@) ==> {
                &&& r is Ok
                &&& final(self).membros@ == old(self).membros@.push(usuario)
                &&& final(self).nome == old(self).nome
                &&& final(self).gid == old(self).gid
            },
            old(self).nomes_unicos() && r is Ok ==> final(self).nomes_unicos(),
    {
        if algum_membro_com_nome(&self.membros, &usuario.nome) {
            Err(Erro::MembroDuplicado)
        } else {
            self.membros.push(usuario);
            Ok(())
        }
    }

    /// Removes every member of the given name; a no-op when none carries
    /// it, so removal is always safe to retry.
    pub fn remover_membro(&mut self, nome: &String)
        ensures
            final(self).membros@ == remocao_de_membros(old(self).membros@, nome@),
            final(self).nome == old(self).nome,
            final(self).gid == old(self).gid,
            !final(self).tem_membro(nome@),
            old(self).nomes_unicos() ==> final(self).nomes_unicos(),
    {
        let ghost velhos: Seq<Usuario> = self.membros@;
        let ghost alvo: Seq<char> = nome@;
        let mut mantidos: Vec<Usuario> = Vec::new();
        let ghost feitos: Seq<Usuario> = Seq::empty();
        while self.membros.len() > 0
            invariant
                self.nome == old(self).nome,
                self.gid == old(self).gid,
                velhos == feitos + self.membros@,
                mantidos@ == remocao_de_membros(feitos, alvo),
                alvo == nome@,
            decreases self.membros@.len(),
        {
            let u = self.membros.remove(0);
            let ghost antes = feitos;
            proof {
                feitos = feitos.push(u);
                assert(feitos.drop_last() =~= antes);
                assert(feitos.last() == u);
                assert(velhos =~= feitos + self.membros@);
            }
            if !(u.nome == *nome) {
                mantidos.push(u);
            }
            proof {
                assert(mantidos@ =~= remocao_de_membros(feitos, alvo));
            }
        }
        proof {
            assert(feitos =~= velhos);
        }
        self.membros = mantidos;
        proof {
            lemma_remocao_exclui(velhos, alvo);
            if old(self).nomes_unicos() {
                lemma_remocao_preserva_unicidade(velhos, alvo);
            }
        }
    }

    /// A copy of the group: same name and id, and the members copied
    /// in order, each keeping name and id.
    pub fn duplicar(&self) -> (r: Grupo)
        ensures
            espelha_grupo(r, *self),
        decreases *self,
    {
        let mut membros: Vec<Usuario> = Vec::new();
        let mut i: usize = 0;
        while i < self.membros.len()
            invariant
                i <= self.membros@.len(),
                membros@.len() == i,
                forall|j: int|
                    0 <= j < i ==> (#[trigger] membros@[j]).nome == self.membros@[j].nome
                        && membros@[j].uid == self.membros@[j].uid,
            decreases self.membros@.len() - i,
        {
            let u = self.membros[i].duplicar();
            membros.push(u);
            i = i + 1;
        }
        Grupo { nome: self.nome.clone(), gid: self.gid, membros }
    }

    /// The member names, in insertion order.
    pub fn listar_membros(&self) -> (r: Vec<String>)
        ensures
            r@.len() == self.membros@.len(),
            forall|i: int| 0 <= i < r@.len() ==> r@[i]@ == self.membros@[i].nome@,
    {
        let mut nomes: Vec<String> = Vec::new();
        let mut i: usize = 0;
        while i < self.membros.len()
            invariant
                i <= self.membros@.len(),
                nomes@.len() == i,
                forall|j: int| 0 <= j < i ==> nomes@[j]@ == self.membros@[j].nome@,
            decreases self.membros@.len() - i,
        {
            nomes.push(self.membros[i].nome.clone());
            i = i + 1;
        }
        nomes
    }
}

/// No member of the removed name survives a removal.
pub proof fn lemma_remocao_exclui(membros: Seq<Usuario>, nome: Seq<char>)
    ensures
        forall|i: int|
            0 <= i < remocao_de_membros(membros, nome).len() ==> (#[trigger] remocao_de_membros(
                membros,
                nome,
            )[i]).nome@ != nome,
    decreases membros.len(),
{
    if membros.len() > 0 {
        lemma_remocao_exclui(membros.drop_last(), nome);
    }
}

/// Removing a name that no member carries changes nothing.
pub proof fn lemma_remocao_ausente(membros: Seq<Usuario>, nome: Seq<char>)
    requires
        forall|i: int| 0 <= i < membros.len() ==> (#[trigger] membros[i]).nome@ != nome,
    ensures
        remocao_de_membros(membros, nome) == membros,
    decreases membros.len(),
{
    if membros.len() == 0 {
        assert(remocao_de_membros(membros, nome) =~= membros);
    } else {
        lemma_remocao_ausente(membros.drop_last(), nome);
        assert(membros[membros.len() - 1].nome@ != nome);
        assert(remocao_de_membros(membros, nome) =~= membros);
    }
}

/// Removal is idempotent: removing a name twice leaves the same
/// membership sequence as removing it once.
pub proof fn lemma_remocao_idempotente(membros: Seq<Usuario>, nome: Seq<char>)
    ensures
        remocao_de_membros(remocao_de_membros(membros, nome), nome) == remocao_de_membros(
            membros,
            nome,
        ),
{
    lemma_remocao_exclui(membros, nome);
    lemma_remocao_ausente(remocao_de_membros(membros, nome), nome);
}

/// Every member that survives a removal stood in the original sequence.
pub proof fn lemma_remocao_contida(membros: Seq<Usuario>, nome: Seq<char>)
    ensures
        forall|i: int|
            0 <= i < remocao_de_membros(membros, nome).len() ==> exists|k: int|
                0 <= k < membros.len() && membros[k] == (#[trigger] remocao_de_membros(
                    membros,
                    nome,
                )[i]),
    decreases membros.len(),
{
    if membros.len() > 0 {
        let dl = membros.drop_last();
        let inicio = remocao_de_membros(dl, nome);
        let r = remocao_de_membros(membros, nome);
        lemma_remocao_contida(dl, nome);
        assert forall|i: int| 0 <= i < r.len() implies exists|k: int|
            0 <= k < membros.len() && membros[k] == (#[trigger] r[i]) by {
            if membros.last().nome@ != nome && i == r.len() - 1 {
                assert(membros[membros.len() - 1] == r[i]);
            } else {
                assert(r[i] == inicio[i]);
                let k = choose|k: int| 0 <= k < dl.len() && dl[k] == inicio[i];
                assert(membros[k] == r[i]);
            }
        }
    }
}

/// When no two members share a name, none do after a removal either.
pub proof fn lemma_remocao_preserva_unicidade(membros: Seq<Usuario>, nome: Seq<char>)
    requires
        forall|i: int, j: int|
            0 <= i < j < membros.len() ==> (#[trigger] membros[i]).nome@ != (
            #[trigger] membros[j]).nome@,
    ensures
        forall|i: int, j: int|
            0 <= i < j < remocao_de_membros(membros, nome).len() ==> (
            #[trigger] remocao_de_membros(membros, nome)[i]).nome@ != (
            #[trigger] remocao_de_membros(membros, nome)[j]).nome@,
    decreases membros.len(),
{
    if membros.len() > 0 {
        let dl = membros.drop_last();
        let inicio = remocao_de_membros(dl, nome);
        let r = remocao_de_membros(membros, nome);
        lemma_remocao_preserva_unicidade(dl, nome);
        lemma_remocao_contida(dl, nome);
        assert forall|i: int, j: int| 0 <= i < j < r.len() implies (#[trigger] r[i]).nome@ != (
        #[trigger] r[j]).nome@ by {
            if membros.last().nome@ != nome && j == r.len() - 1 {
                assert(r[j] == membros.last());
                assert(r[i] == inicio[i]);
                let k = choose|k: int| 0 <= k < dl.len() && dl[k] == inicio[i];
                assert(membros[k].nome@ != membros[membros.len() - 1].nome@);
            } else {
                assert(r[i] == inicio[i] && r[j] == inicio[j]);
            }
        }
    }
}

} // verus!
