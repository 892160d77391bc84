use arquivos::arquivo::Arquivo;
use arquivos::diretorio::Diretorio;
use arquivos::erros::Erro;
use arquivos::permissoes::Permissao;
use arquivos::permissoes::Permissoes;
use arquivos::texto::decimal_string;
use arquivos::usuarios::Grupo;
use arquivos::usuarios::Usuario;

fn texto(s: &str) -> String {
    String::from(s)
}

fn nomes(lista: &[&str]) -> Vec<String> {
    lista.iter().map(|s| String::from(*s)).collect()
}

#[test]
fn octal_e_simbolico_concordam_nas_oito_combinacoes() {
    for bits in 0u8..8 {
        let leitura = bits & 4 != 0;
        let escrita = bits & 2 != 0;
        let execucao = bits & 1 != 0;
        let p = Permissoes::nova(leitura, escrita, execucao);
        let octal = p.octal();
        let simbolica = p.simbolica();
        let caracteres: Vec<char> = simbolica.chars().collect();
        assert_eq!(caracteres.len(), 3);
        assert_eq!(octal & 4 != 0, caracteres[0] != '-');
        assert_eq!(octal & 2 != 0, caracteres[1] != '-');
        assert_eq!(octal & 1 != 0, caracteres[2] != '-');
    }
}

#[test]
fn contem_exatamente_os_bits_dados() {
    for bits in 0u8..8 {
        let leitura = bits & 4 != 0;
        let escrita = bits & 2 != 0;
        let execucao = bits & 1 != 0;
        let p = Permissoes::nova(leitura, escrita, execucao);
        assert_eq!(p.contem(Permissao::Leitura), leitura);
        assert_eq!(p.contem(Permissao::Escrita), escrita);
        assert_eq!(p.contem(Permissao::Execucao), execucao);
    }
}

#[test]
fn octal_segue_os_pesos_de_unix() {
    assert_eq!(Permissoes::nova(false, false, false).octal(), 0);
    assert_eq!(Permissoes::nova(false, false, true).octal(), 1);
    assert_eq!(Permissoes::nova(false, true, false).octal(), 2);
    assert_eq!(Permissoes::nova(true, false, false).octal(), 4);
    assert_eq!(Permissoes::nova(true, false, true).octal(), 5);
    assert_eq!(Permissoes::nova(true, true, false).octal(), 6);
    assert_eq!(Permissoes::nova(true, true, true).octal(), 7);
}

#[test]
fn simbolica_tem_posicoes_fixas() {
    assert_eq!(Permissoes::nova(false, false, false).simbolica(), "---");
    assert_eq!(Permissoes::nova(true, true, false).simbolica(), "rw-");
    assert_eq!(Permissoes::nova(true, false, true).simbolica(), "r-x");
    assert_eq!(Permissoes::nova(false, true, false).simbolica(), "-w-");
    assert_eq!(Permissoes::nova(true, true, true).simbolica(), "rwx");
}

#[test]
fn decimal_escreve_base_dez() {
    assert_eq!(decimal_string(0), "0");
    assert_eq!(decimal_string(7), "7");
    assert_eq!(decimal_string(10), "10");
    assert_eq!(decimal_string(1024), "1024");
    assert_eq!(decimal_string(u64::MAX), "18446744073709551615");
}

#[test]
fn usuario_novo_fica_sem_grupo() {
    let u = Usuario::new(texto("alice"), 1);
    assert_eq!(u.nome, "alice");
    assert_eq!(u.uid, 1);
    assert!(u.listar_membros_do_grupo().is_empty());
}

#[test]
fn entrar_e_sair_de_grupo() {
    let mut g = Grupo::new(texto("staff"), 1);
    g.cadastrar_usuario(Usuario::new(texto("alice"), 1)).unwrap();
    g.cadastrar_usuario(Usuario::new(texto("bob"), 2)).unwrap();

    let mut u = Usuario::new(texto("carol"), 3);
    u.entrar_grupo(g);
    assert_eq!(u.listar_membros_do_grupo(), nomes(&["alice", "bob"]));

    u.sair_grupo();
    assert!(u.listar_membros_do_grupo().is_empty());
    u.sair_grupo();
    assert!(u.listar_membros_do_grupo().is_empty());
}

#[test]
fn listagem_de_membros_segue_a_ordem_de_insercao() {
    let mut g = Grupo::new(texto("staff"), 1);
    g.cadastrar_usuario(Usuario::new(texto("carol"), 3)).unwrap();
    g.cadastrar_usuario(Usuario::new(texto("alice"), 1)).unwrap();
    g.cadastrar_usuario(Usuario::new(texto("bob"), 2)).unwrap();
    assert_eq!(g.listar_membros(), nomes(&["carol", "alice", "bob"]));
}

#[test]
fn membro_duplicado_e_rejeitado_sem_mudar_o_grupo() {
    let mut g = Grupo::new(texto("staff"), 1);
    assert_eq!(g.cadastrar_usuario(Usuario::new(texto("alice"), 1)), Ok(()));
    let resultado = g.cadastrar_usuario(Usuario::new(texto("alice"), 9));
    assert_eq!(resultado, Err(Erro::MembroDuplicado));
    assert_eq!(g.listar_membros(), nomes(&["alice"]));
}

#[test]
fn remover_membro_duas_vezes_da_o_mesmo_resultado() {
    let mut g = Grupo::new(texto("staff"), 1);
    g.cadastrar_usuario(Usuario::new(texto("alice"), 1)).unwrap();
    g.cadastrar_usuario(Usuario::new(texto("bob"), 2)).unwrap();
    g.cadastrar_usuario(Usuario::new(texto("carol"), 3)).unwrap();

    g.remover_membro(&texto("bob"));
    let uma_vez = g.listar_membros();
    g.remover_membro(&texto("bob"));
    let duas_vezes = g.listar_membros();

    assert_eq!(uma_vez, nomes(&["alice", "carol"]));
    assert_eq!(duas_vezes, uma_vez);
}

#[test]
fn remover_membro_ausente_nao_muda_nada() {
    let mut g = Grupo::new(texto("staff"), 1);
    g.cadastrar_usuario(Usuario::new(texto("alice"), 1)).unwrap();
    g.remover_membro(&texto("zelda"));
    assert_eq!(g.listar_membros(), nomes(&["alice"]));
}

#[test]
fn arquivo_novo_tem_leitura_e_escrita() {
    let a = Arquivo::new(
        texto("notas.txt"),
        10,
        Usuario::new(texto("alice"), 1),
        Grupo::new(texto("staff"), 1),
    );
    assert!(a.permissoes.contem(Permissao::Leitura));
    assert!(a.permissoes.contem(Permissao::Escrita));
    assert!(!a.permissoes.contem(Permissao::Execucao));
    assert_eq!(a.permissoes_rwx(), "rw-");
}

#[test]
fn cenario_de_stat_completo() {
    let alice = Usuario::new(texto("alice"), 1);
    let staff = Grupo::new(texto("staff"), 1);
    let mut a = Arquivo::new(texto("report.txt"), 1024, alice, staff);
    assert_eq!(a.stat(), "report.txt 1024 rw- alice staff");

    a.definir_permissoes(Permissoes::nova(true, false, true));
    assert_eq!(a.stat(), "report.txt 1024 r-x alice staff");
    assert_eq!(a.permissoes.octal(), 5);
}

#[test]
fn alterar_permissao_substitui_o_conjunto_inteiro() {
    let mut a = Arquivo::new(
        texto("log.txt"),
        5,
        Usuario::new(texto("alice"), 1),
        Grupo::new(texto("staff"), 1),
    );
    a.alterar_permissao(false, false, true);
    assert_eq!(a.permissoes_rwx(), "--x");
    assert_eq!(a.permissoes.octal(), 1);
}

#[test]
fn arquivo_guarda_o_dono_como_instantaneo() {
    let mut alice = Usuario::new(texto("alice"), 1);
    let staff = Grupo::new(texto("staff"), 1);
    let a = Arquivo::new(texto("report.txt"), 1024, alice.duplicar(), staff);
    let antes = a.stat();

    alice.entrar_grupo(Grupo::new(texto("dev"), 2));
    assert_eq!(a.stat(), antes);
    assert_eq!(a.stat(), "report.txt 1024 rw- alice staff");
}

#[test]
fn diretorio_novo_fica_vazio() {
    let d = Diretorio::new(
        texto("docs"),
        Permissoes::nova(true, true, true),
        Usuario::new(texto("alice"), 1),
    );
    assert!(d.listar_arquivos().is_empty());
    assert_eq!(d.nome, "docs");
}

fn arquivo_simples(nome: &str) -> Arquivo {
    Arquivo::new(
        String::from(nome),
        1,
        Usuario::new(String::from("alice"), 1),
        Grupo::new(String::from("staff"), 1),
    )
}

#[test]
fn arquivo_duplicado_e_rejeitado_sem_mudar_a_listagem() {
    let mut d = Diretorio::new(
        texto("docs"),
        Permissoes::nova(true, true, false),
        Usuario::new(texto("alice"), 1),
    );
    assert_eq!(d.adicionar_arquivo(arquivo_simples("a.txt")), Ok(()));
    let resultado = d.adicionar_arquivo(arquivo_simples("a.txt"));
    assert_eq!(resultado, Err(Erro::ArquivoDuplicado));
    assert_eq!(d.listar_arquivos(), nomes(&["a.txt"]));
}

#[test]
fn remocao_preserva_a_ordem_dos_restantes() {
    let mut d = Diretorio::new(
        texto("docs"),
        Permissoes::nova(true, true, false),
        Usuario::new(texto("alice"), 1),
    );
    d.adicionar_arquivo(arquivo_simples("f1.txt")).unwrap();
    d.adicionar_arquivo(arquivo_simples("f2.txt")).unwrap();
    d.adicionar_arquivo(arquivo_simples("f3.txt")).unwrap();

    d.remover_arquivo(&texto("f2.txt"));
    assert_eq!(d.listar_arquivos(), nomes(&["f1.txt", "f3.txt"]));
}

#[test]
fn remover_arquivo_e_idempotente() {
    let mut d = Diretorio::new(
        texto("docs"),
        Permissoes::nova(true, true, false),
        Usuario::new(texto("alice"), 1),
    );
    d.adicionar_arquivo(arquivo_simples("f1.txt")).unwrap();
    d.adicionar_arquivo(arquivo_simples("f2.txt")).unwrap();

    d.remover_arquivo(&texto("f1.txt"));
    let uma_vez = d.listar_arquivos();
    d.remover_arquivo(&texto("f1.txt"));
    assert_eq!(d.listar_arquivos(), uma_vez);
    d.remover_arquivo(&texto("nada.txt"));
    assert_eq!(d.listar_arquivos(), nomes(&["f2.txt"]));
}

#[test]
fn duplicar_copia_nomes_e_membros() {
    let mut g = Grupo::new(texto("staff"), 1);
    g.cadastrar_usuario(Usuario::new(texto("alice"), 1)).unwrap();
    g.cadastrar_usuario(Usuario::new(texto("bob"), 2)).unwrap();

    let copia = g.duplicar();
    assert_eq!(copia.nome, "staff");
    assert_eq!(copia.gid, 1);
    assert_eq!(copia.listar_membros(), g.listar_membros());

    let mut u = Usuario::new(texto("carol"), 3);
    u.entrar_grupo(g);
    let copia_u = u.duplicar();
    assert_eq!(copia_u.nome, "carol");
    assert_eq!(copia_u.uid, 3);
    assert_eq!(copia_u.listar_membros_do_grupo(), nomes(&["alice", "bob"]));
}
