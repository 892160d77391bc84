//! Directories: a name, a permission set, an owning user and the
//! contained files in insertion order, never two with the same name.

use vstd::prelude::*;
use crate::arquivo::Arquivo;
use crate::erros::Erro;
use crate::permissoes::Permissoes;
use crate::usuarios::Usuario;

verus! {

/// A directory of files.
#[derive(Debug)]
pub struct Diretorio {
    pub nome: String,
    pub permissoes: Permissoes,
    pub dono: Usuario,
    pub arquivos: Vec<Arquivo>,
}

/// The file sequence with every file of the given name removed; the
/// surviving files keep their relative order.
pub open spec fn remocao_de_arquivos(arquivos: Seq<Arquivo>, nome: Seq<char>) -> Seq<Arquivo>
    decreases arquivos.len(),
{
    if arquivos.len() == 0 {
        Seq::empty()
    } else {
        let inicio = remocao_de_arquivos(arquivos.drop_last(), nome);
        if arquivos.last().nome@ == nome {
            inicio
        } else {
            inicio.push(arquivos.last())
        }
    }
}

fn algum_arquivo_com_nome(arquivos: &Vec<Arquivo>, nome: &String) -> (r: bool)
    ensures
        r == exists|i: int| 0 <= i < arquivos@.len() && arquivos@[i].nome@ == nome@,
{
    let mut i: usize = 0;
    while i < arquivos.len()
        invariant
            i <= arquivos@.len(),
            forall|j: int| 0 <= j < i ==> arquivos@[j].nome@ != nome@,
        decreases arquivos@.len() - i,
    {
        if arquivos[i].nome == *nome {
            return true;
        }
        i = i + 1;
    }
    false
}

impl Diretorio {
    /// Whether some contained file carries the given name.
    pub open spec fn tem_arquivo(self, nome: Seq<char>) -> bool {
        exists|i: int| 0 <= i < self.arquivos@.len() && self.arquivos@[i].nome@ == nome
    }

    /// No two contained files share a name. Established at creation and
    /// kept by every mutation.
    pub open spec fn nomes_unicos(self) -> bool {
        forall|i: int, j: int|
            0 <= i < j < self.arquivos@.len() ==> self.arquivos@[i].nome@ != self.arquivos@[j].nome@
    }

    /// Builds a directory holding no files yet. Files come in through
    /// `adicionar_arquivo`, so a directory may stay empty.
    pub fn new(nome: String, permissoes: Permissoes, dono: Usuario) -> (r: Diretorio)
        ensures
            r.nome == nome,
            r.permissoes == permissoes,
            r.dono == dono,
            r.arquivos@.len() == 0,
            r.nomes_unicos(),
    {
        Diretorio { nome, permissoes, dono, arquivos: Vec::new() }
    }

    /// Appends the file, rejecting a duplicate name. On rejection the
    /// directory is left unchanged.
    pub fn adicionar_arquivo(&mut self, arquivo: Arquivo) -> (r: Result<(), Erro>)
        ensures
            old(self).tem_arquivo(arquivo.nome@) ==> {
                &&& r == Result::<(), Erro>::Err(Erro::ArquivoDuplicado)
                &&& *final(self) == *old(self)
            },
            !old(self).tem_arquivo(arquivo.nome@) ==> {
                &&& r is Ok
                &&& final(self).arquivos@ == old(self).arquivos@.push(arquivo)
                &&& final(self).nome == old(self).nome
                &&& final(self).permissoes == old(self).permissoes
                &&& final(self).dono == old(self).dono
            },
            old(self).nomes_unicos() && r is Ok ==> final(self).nomes_unicos(),
    {
        if algum_arquivo_com_nome(&self.arquivos, &arquivo.nome) {
            Err(Erro::ArquivoDuplicado)
        } else {
            self.arquivos.push(arquivo);
            Ok(())
        }
    }

    /// Removes every file of the given name; a no-op when none carries
    /// it, so removal is always safe to retry.
    pub fn remover_arquivo(&mut self, nome: &String)
        ensures
            final(self).arquivos@ == remocao_de_arquivos(old(self).arquivos@, nome@),
            final(self).nome == old(self).nome,
            final(self).permissoes == old(self).permissoes,
            final(self).dono == old(self).dono,
            !final(self).tem_arquivo(nome@),
            old(self).nomes_unicos() ==> final(self).nomes_unicos(),
    {
        let ghost velhos: Seq<Arquivo> = self.arquivos@;
        let ghost alvo: Seq<char> = nome@;
        let mut mantidos: Vec<Arquivo> = Vec::new();
        let ghost feitos: Seq<Arquivo> = Seq::empty();
        while self.arquivos.len() > 0
            invariant
                self.nome == old(self).nome,
                self.permissoes == old(self).permissoes,
                self.dono == old(self).dono,
                velhos == feitos + self.arquivos@,
                mantidos@ == remocao_de_arquivos(feitos, alvo),
                alvo == nome@,
            decreases self.arquivos@.len(),
        {
            let a = self.arquivos.remove(0);
            let ghost antes = feitos;
            proof {
                feitos = feitos.push(a);
                assert(feitos.drop_last() =~= antes);
                assert(feitos.last() == a);
                assert(velhos =~= feitos + self.arquivos@);
            }
            if !(a.nome == *nome) {
                mantidos.push(a);
            }
            proof {
                assert(mantidos@ =~= remocao_de_arquivos(feitos, alvo));
            }
        }
        proof {
            assert(feitos =~= velhos);
        }
        self.arquivos = mantidos;
        proof {
            lemma_remocao_arquivos_exclui(velhos, alvo);
            if old(self).nomes_unicos() {
                lemma_remocao_arquivos_preserva_unicidade(velhos, alvo);
            }
        }
    }

    /// The contained file names, in insertion order.
    pub fn listar_arquivos(&self) -> (r: Vec<String>)
        ensures
            r@.len() == self.arquivos@.len(),
            forall|i: int| 0 <= i < r@.len() ==> r@[i]@ == self.arquivos@[i].nome@,
    {
        let mut nomes: Vec<String> = Vec::new();
        let mut i: usize = 0;
        while i < self.arquivos.len()
            invariant
                i <= self.arquivos@.len(),
                nomes@.len() == i,
                forall|j: int| 0 <= j < i ==> nomes@[j]@ == self.arquivos@[j].nome@,
            decreases self.arquivos@.len() - i,
        {
            nomes.push(self.arquivos[i].nome.clone());
            i = i + 1;
        }
        nomes
    }
}

/// Uniqueness: once a file is in, a second file of the same name is
/// found by the duplicate check, so `adicionar_arquivo` rejects it and
/// leaves the listing unchanged.
pub proof fn lemma_unicidade_apos_adicao(d: Diretorio, e: Diretorio, a: Arquivo, b: Arquivo)
    requires
        !d.tem_arquivo(a.nome@),
        e.arquivos@ == d.arquivos@.push(a),
        b.nome@ == a.nome@,
    ensures
        e.tem_arquivo(b.nome@),
{
    assert(e.arquivos@[e.arquivos@.len() - 1].nome@ == b.nome@);
}

/// No file of the removed name survives a removal.
pub proof fn lemma_remocao_arquivos_exclui(arquivos: Seq<Arquivo>, nome: Seq<char>)
    ensures
        forall|i: int|
            0 <= i < remocao_de_arquivos(arquivos, nome).len() ==> (#[trigger] remocao_de_arquivos(
                arquivos,
                nome,
            )[i]).nome@ != nome,
    decreases arquivos.len(),
{
    if arquivos.len() > 0 {
        lemma_remocao_arquivos_exclui(arquivos.drop_last(), nome);
    }
}

/// Removing a name that no file carries changes nothing.
pub proof fn lemma_remocao_arquivos_ausente(arquivos: Seq<Arquivo>, nome: Seq<char>)
    requires
        forall|i: int| 0 <= i < arquivos.len() ==> (#[trigger] arquivos[i]).nome@ != nome,
    ensures
        remocao_de_arquivos(arquivos, nome) == arquivos,
    decreases arquivos.len(),
{
    if arquivos.len() == 0 {
        assert(remocao_de_arquivos(arquivos, nome) =~= arquivos);
    } else {
        lemma_remocao_arquivos_ausente(arquivos.drop_last(), nome);
        assert(arquivos[arquivos.len() - 1].nome@ != nome);
        assert(remocao_de_arquivos(arquivos, nome) =~= arquivos);
    }
}

/// Removing a file name twice leaves the same listing as removing it
/// once.
pub proof fn lemma_remocao_arquivos_idempotente(arquivos: Seq<Arquivo>, nome: Seq<char>)
    ensures
        remocao_de_arquivos(remocao_de_arquivos(arquivos, nome), nome) == remocao_de_arquivos(
            arquivos,
            nome,
        ),
{
    lemma_remocao_arquivos_exclui(arquivos, nome);
    lemma_remocao_arquivos_ausente(remocao_de_arquivos(arquivos, nome), nome);
}

/// Order preservation: adding three files and removing the middle one
/// by name leaves the first and third, in that order.
pub proof fn lemma_ordem_preservada(a1: Arquivo, a2: Arquivo, a3: Arquivo)
    requires
        a1.nome@ != a2.nome@,
        a3.nome@ != a2.nome@,
    ensures
        remocao_de_arquivos(seq![a1, a2, a3], a2.nome@) == seq![a1, a3],
{
    let s = seq![a1, a2, a3];
    assert(s.drop_last() =~= seq![a1, a2]);
    assert(seq![a1, a2].drop_last() =~= seq![a1]);
    assert(seq![a1].drop_last() =~= Seq::<Arquivo>::empty());
    assert(remocao_de_arquivos(Seq::empty(), a2.nome@) =~= Seq::<Arquivo>::empty());
    assert(remocao_de_arquivos(seq![a1], a2.nome@) =~= seq![a1]);
    assert(remocao_de_arquivos(seq![a1, a2], a2.nome@) =~= seq![a1]);
    assert(remocao_de_arquivos(s, a2.nome@) =~= seq![a1, a3]);
}

/// Every file that survives a removal stood in the original sequence.
pub proof fn lemma_remocao_arquivos_contida(arquivos: Seq<Arquivo>, nome: Seq<char>)
    ensures
        forall|i: int|
            0 <= i < remocao_de_arquivos(arquivos, nome).len() ==> exists|k: int|
                0 <= k < arquivos.len() && arquivos[k] == (#[trigger] remocao_de_arquivos(
                    arquivos,
                    nome,
                )[i]),
    decreases arquivos.len(),
{
    if arquivos.len() > 0 {
        let dl = arquivos.drop_last();
        let inicio = remocao_de_arquivos(dl, nome);
        let r = remocao_de_arquivos(arquivos, nome);
        lemma_remocao_arquivos_contida(dl, nome);
        assert forall|i: int| 0 <= i < r.len() implies exists|k: int|
            0 <= k < arquivos.len() && arquivos[k] == (#[trigger] r[i]) by {
            if arquivos.last().nome@ != nome && i == r.len() - 1 {
                assert(arquivos[arquivos.len() - 1] == r[i]);
            } else {
                assert(r[i] == inicio[i]);
                let k = choose|k: int| 0 <= k < dl.len() && dl[k] == inicio[i];
                assert(arquivos[k] == r[i]);
            }
        }
    }
}

/// When no two files share a name, none do after a removal either.
pub proof fn lemma_remocao_arquivos_preserva_unicidade(arquivos: Seq<Arquivo>, nome: Seq<char>)
    requires
        forall|i: int, j: int|
            0 <= i < j < arquivos.len() ==> (#[trigger] arquivos[i]).nome@ != (
            #[trigger] arquivos[j]).nome@,
    ensures
        forall|i: int, j: int|
            0 <= i < j < remocao_de_arquivos(arquivos, nome).len() ==> (
            #[trigger] remocao_de_arquivos(arquivos, nome)[i]).nome@ != (
            #[trigger] remocao_de_arquivos(arquivos, nome)[j]).nome@,
    decreases arquivos.len(),
{
    if arquivos.len() > 0 {
        let dl = arquivos.drop_last();
        let inicio = remocao_de_arquivos(dl, nome);
        let r = remocao_de_arquivos(arquivos, nome);
        lemma_remocao_arquivos_preserva_unicidade(dl, nome);
        lemma_remocao_arquivos_contida(dl, nome);
        assert forall|i: int, j: int| 0 <= i < j < r.len() implies (#[trigger] r[i]).nome@ != (
        #[trigger] r[j]).nome@ by {
            if arquivos.last().nome@ != nome && j == r.len() - 1 {
                assert(r[j] == arquivos.last());
                assert(r[i] == inicio[i]);
                let k = choose|k: int| 0 <= k < dl.len() && dl[k] == inicio[i];
                assert(arquivos[k].nome@ != arquivos[arquivos.len() - 1].nome@);
            } else {
                assert(r[i] == inicio[i] && r[j] == inicio[j]);
            }
        }
    }
}

} // verus!
