use fiscalidade::{Ambiente, Documento, Modelo, Servico, TipoDocumento, Uf, VersaoUrl};

#[test]
fn versao_url_as_str() {
    assert_eq!(VersaoUrl::Ver100.as_str(), "1.00");
    assert_eq!(VersaoUrl::Ver101.as_str(), "1.01");
    assert_eq!(VersaoUrl::Ver200.as_str(), "2.00");
    assert_eq!(VersaoUrl::Ver400.as_str(), "4.00");
}

#[test]
fn uf_codigos() {
    assert_eq!(Uf::Mt.as_str(), "MT");
    assert_eq!(Uf::Mt.cuf(), 51);
    assert_eq!(Uf::Ro.cuf(), 11);
    assert_eq!(Uf::Sp.cuf(), 35);
    assert_eq!(Uf::Df.as_str(), "DF");
    assert_eq!(Uf::Df.cuf(), 53);
}

#[test]
fn uf_from_str_ignora_caixa() {
    assert_eq!(Uf::from_str("MT"), Some(Uf::Mt));
    assert_eq!(Uf::from_str("mt"), Some(Uf::Mt));
    assert_eq!(Uf::from_str("Sp"), Some(Uf::Sp));
    assert_eq!(Uf::from_str("XX"), None);
    assert_eq!(Uf::from_str(""), None);
    assert_eq!(Uf::from_str("MTX"), None);
}

#[test]
fn uf_from_uppercase_exato() {
    assert_eq!(Uf::from_uppercase("RS"), Some(Uf::Rs));
    assert_eq!(Uf::from_uppercase("rs"), None);
}

#[test]
fn uf_round_trip_todas() {
    let todas = [
        Uf::Ro, Uf::Ac, Uf::Am, Uf::Rr, Uf::Pa, Uf::Ap, Uf::To, Uf::Ma, Uf::Pi, Uf::Ce, Uf::Rn,
        Uf::Pb, Uf::Pe, Uf::Al, Uf::Se, Uf::Ba, Uf::Mg, Uf::Es, Uf::Rj, Uf::Sp, Uf::Pr, Uf::Sc,
        Uf::Rs, Uf::Ms, Uf::Mt, Uf::Go, Uf::Df,
    ];
    assert_eq!(todas.len(), 27);
    for uf in todas {
        assert_eq!(Uf::from_str(uf.as_str()), Some(uf));
        assert_eq!(Uf::from_str(&uf.as_str().to_lowercase()), Some(uf));
    }
}

#[test]
fn ambiente_codigos() {
    assert_eq!(Ambiente::Producao.as_str(), "P");
    assert_eq!(Ambiente::Homologacao.as_str(), "H");
    assert_eq!(Ambiente::Producao.tp_amb(), 1);
    assert_eq!(Ambiente::Homologacao.tp_amb(), 2);
}

#[test]
fn ambiente_from_str_primeiro_caractere() {
    assert_eq!(Ambiente::from_str("Homologação"), Some(Ambiente::Homologacao));
    assert_eq!(Ambiente::from_str("h"), Some(Ambiente::Homologacao));
    assert_eq!(Ambiente::from_str("Produção"), Some(Ambiente::Producao));
    assert_eq!(Ambiente::from_str("pxyz"), Some(Ambiente::Producao));
    assert_eq!(Ambiente::from_str("xP"), None);
    assert_eq!(Ambiente::from_str(""), None);
}

#[test]
fn modelo_codigos() {
    assert_eq!(Modelo::Nfe.as_str(), "NFe");
    assert_eq!(Modelo::Nfce.as_str(), "NFCe");
    assert_eq!(Modelo::Nfe.codigo(), 55);
    assert_eq!(Modelo::Nfce.codigo(), 65);
}

#[test]
fn modelo_from_str_ignora_caixa() {
    assert_eq!(Modelo::from_str("NFe"), Some(Modelo::Nfe));
    assert_eq!(Modelo::from_str("NFCE"), Some(Modelo::Nfce));
    assert_eq!(Modelo::from_str("nfce"), Some(Modelo::Nfce));
    assert_eq!(Modelo::from_str("cte"), None);
    assert_eq!(Modelo::from_lowercase("NFe"), None);
    assert_eq!(Modelo::from_lowercase("nfe"), Some(Modelo::Nfe));
}

#[test]
fn servico_catalogo() {
    assert_eq!(Servico::StatusServico.chave(), "NfeStatusServico_4.00");
    assert_eq!(Servico::DistribuicaoDfe.chave(), "NFeDistribuicaoDFe_1.01");
    assert_eq!(Servico::Cce.chave(), "RecepcaoEvento_4.00");
    assert_eq!(Servico::UrlQrCode.chave(), "URL-QRCode");
    assert_eq!(Servico::UrlConsultaNfce.chave(), "URL-ConsultaNFCe");
    assert_eq!(Servico::StatusServico.operacao(), Some("NFeStatusServico4"));
    assert_eq!(Servico::ConsultaCadastro.operacao(), Some("CadConsultaCadastro4"));
    assert_eq!(Servico::UrlConsultaNfce.operacao(), None);
    assert_eq!(Servico::DistribuicaoDfe.versao_url(), VersaoUrl::Ver101);
    assert_eq!(Servico::Envio.versao_url(), VersaoUrl::Ver400);
    assert_eq!(Servico::Manifestacao.nome(), "Manifestação");
    assert_eq!(Servico::StatusServico.nome(), "Status Serviço");
}

#[test]
fn documento_tipos() {
    let cpf = Documento::from_cpf("12345678901");
    assert_eq!(cpf.as_str(), "12345678901");
    assert_eq!(cpf.tipo(), TipoDocumento::Cpf);
    assert_eq!(cpf.tipo().as_str(), "CPF");
    let cnpj = Documento::from_cnpj("12345678000199");
    assert_eq!(cnpj.tipo().as_str(), "CNPJ");
    let ie = Documento::from_ie("123456");
    assert_eq!(ie.tipo(), TipoDocumento::Ie);
    assert_eq!(ie.as_str(), "123456");
}
