//! The permission value type: a set over {read, write, execute} with
//! symbolic (`rwx`) and octal (0..=7) renderings.

use vstd::prelude::*;

verus! {

/// One of the three classic permission bits.
#[derive(Clone, Copy, PartialEq, Eq, Structural, Debug)]
pub enum Permissao {
    Leitura,
    Escrita,
    Execucao,
}

/// A set of permission bits. A pure value: replaced wholesale on change,
/// never partially mutated. Every combination of the three bits is legal,
/// so the type needs no further invariant.
#[derive(Clone, Copy, PartialEq, Eq, Structural, Debug)]
pub struct Permissoes {
    pub leitura: bool,
    pub escrita: bool,
    pub execucao: bool,
}

impl Permissoes {
    /// Whether the named bit is in the set.
    pub open spec fn contem_spec(self, p: Permissao) -> bool {
        match p {
            Permissao::Leitura => self.leitura,
            Permissao::Escrita => self.escrita,
            Permissao::Execucao => self.execucao,
        }
    }

    /// The octal value of the set, with the Unix weights:
    /// read = 4, write = 2, execute = 1.
    pub open spec fn octal_spec(self) -> u8 {
        ((if self.leitura {
            4int
        } else {
            0int
        }) + (if self.escrita {
            2int
        } else {
            0int
        }) + (if self.execucao {
            1int
        } else {
            0int
        })) as u8
    }

    /// The symbolic rendering: position 0 is `r` or `-`, position 1 `w`
    /// or `-`, position 2 `x` or `-`.
    pub open spec fn simbolica_spec(self) -> Seq<char> {
        seq![
            if self.leitura {
                'r'
            } else {
                '-'
            },
            if self.escrita {
                'w'
            } else {
                '-'
            },
            if self.execucao {
                'x'
            } else {
                '-'
            },
        ]
    }

    /// Builds the set holding exactly the named bits.
    pub fn nova(leitura: bool, escrita: bool, execucao: bool) -> (r: Permissoes)
        ensures
            r == (Permissoes { leitura, escrita, execucao }),
    {
        Permissoes { leitura, escrita, execucao }
    }

    /// True iff the named bit is present.
    pub fn contem(&self, p: Permissao) -> (r: bool)
        ensures
            r == self.contem_spec(p),
    {
        match p {
            Permissao::Leitura => self.leitura,
            Permissao::Escrita => self.escrita,
            Permissao::Execucao => self.execucao,
        }
    }

    /// The octal value, always in 0..=7.
    pub fn octal(&self) -> (r: u8)
        ensures
            r == self.octal_spec(),
            r <= 7,
    {
        let mut valor: u8 = 0;
        if self.leitura {
            valor = valor + 4;
        }
        if self.escrita {
            valor = valor + 2;
        }
        if self.execucao {
            valor = valor + 1;
        }
        valor
    }

    /// The 3-character symbolic form, e.g. `rw-`.
    pub fn simbolica(&self) -> (r: String)
        ensures
            r@ == self.simbolica_spec(),
    {
        let mut s = String::new();
        s.append(if self.leitura {
            "r"
        } else {
            "-"
        });
        s.append(if self.escrita {
            "w"
        } else {
            "-"
        });
        s.append(if self.execucao {
            "x"
        } else {
            "-"
        });
        proof {
            reveal_strlit("r");
            reveal_strlit("w");
            reveal_strlit("x");
            reveal_strlit("-");
            assert(s@ =~= self.simbolica_spec());
        }
        s
    }
}

/// A set built from the three named flags contains exactly those flags,
/// for each of the three bits independently.
pub proof fn lemma_criacao_contem(leitura: bool, escrita: bool, execucao: bool, b: Permissao)
    ensures
        (Permissoes { leitura, escrita, execucao }).contem_spec(b) == (match b {
            Permissao::Leitura => leitura,
            Permissao::Escrita => escrita,
            Permissao::Execucao => execucao,
        }),
{
}

/// The octal and the symbolic renderings agree: the octal value's bit of
/// weight 4, 2 or 1 is set exactly when the symbolic character at the
/// corresponding position is not `-`.
pub proof fn lemma_octal_simbolica_concordam(p: Permissoes)
    ensures
        (p.octal_spec() & 4 == 4) == (p.simbolica_spec()[0] != '-'),
        (p.octal_spec() & 2 == 2) == (p.simbolica_spec()[1] != '-'),
        (p.octal_spec() & 1 == 1) == (p.simbolica_spec()[2] != '-'),
{
    let o = p.octal_spec();
    assert(o < 8);
    assert(forall|m: u8| m < 8 ==> ((m & 4 == 4) == (m >= 4))) by (bit_vector);
    assert(forall|m: u8| m < 8 ==> ((m & 2 == 2) == (m % 4 >= 2))) by (bit_vector);
    assert(forall|m: u8| m < 8 ==> ((m & 1 == 1) == (m % 2 == 1))) by (bit_vector);
}

} // verus!
