use fiscalidade::{validar_ambiente, validar_chave, validar_recibo, validar_uf};

const CHAVE: &str = "51200112345678000199550010000000011000000012";

#[test]
fn chave_com_44_digitos_aceita() {
    assert_eq!(CHAVE.len(), 44);
    assert!(validar_chave(CHAVE));
}

#[test]
fn chave_com_43_digitos_rejeitada() {
    assert!(!validar_chave(&CHAVE[..43]));
}

#[test]
fn chave_com_45_digitos_rejeitada() {
    let longa = format!("{}0", CHAVE);
    assert!(!validar_chave(&longa));
}

#[test]
fn chave_com_letra_rejeitada() {
    let com_letra = format!("{}A", &CHAVE[..43]);
    assert_eq!(com_letra.chars().count(), 44);
    assert!(!validar_chave(&com_letra));
}

#[test]
fn chave_com_digito_nao_ascii_rejeitada() {
    let com_arabe = format!("{}\u{0661}", &CHAVE[..43]);
    assert!(!validar_chave(&com_arabe));
}

#[test]
fn chave_vazia_ou_curta_rejeitada() {
    assert!(!validar_chave(""));
    assert!(!validar_chave("1234"));
}

#[test]
fn recibo_com_15_digitos() {
    assert!(validar_recibo("511000012345678"));
    assert!(!validar_recibo("51100001234567"));
    assert!(!validar_recibo("51100001234567X"));
}

#[test]
fn validar_uf_e_ambiente() {
    assert!(validar_uf("sp"));
    assert!(!validar_uf("ZZ"));
    assert!(validar_ambiente("Homologação"));
    assert!(!validar_ambiente("Teste"));
}
