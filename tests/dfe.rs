use fiscalidade::{
    Ambiente, Dfe, DfeError, Documento, Modelo, Uf, WebServices, WebServicesBuilderError, Xml,
};

const CHAVE: &str = "51200112345678000199550010000000011000000012";

fn loja() -> WebServices {
    let mut ws = WebServices::new();
    ws.insert("NFe_MT_H", "NfeStatusServico_4.00", "https://example/ws");
    ws.insert("NFe_MT_H", "NfeConsultaProtocolo_4.00", "https://example/protocolo");
    ws.insert("NFe_MT_H", "NFeRetAutorizacao_4.00", "https://example/recibo");
    ws.insert("NFe_MT_H", "NfeConsultaCadastro_4.00", "https://example/cadastro");
    ws
}

#[test]
fn status_servico_ponta_a_ponta() {
    let uf = Uf::from_str("MT").unwrap();
    let ambiente = Ambiente::from_str("Homologação").unwrap();
    let modelo = Modelo::from_str("NFe").unwrap();
    let req = Dfe::new().set_webservices(loja()).status_servico(modelo, uf, ambiente).unwrap();
    assert_eq!(req.url, "https://example/ws");
    assert_eq!(req.acao, "http://www.portalfiscal.inf.br/nfe/wsdl/NFeStatusServico4");
    assert!(req.xml.starts_with("<?xml version=\"1.0\" encoding=\"UTF-8\"?><soap12:Envelope"));
    assert!(req.xml.contains("<nfeDadosMsg xmlns=\"http://www.portalfiscal.inf.br/nfe/wsdl/NFeStatusServico4\"><consStatServ xmlns=\"http://www.portalfiscal.inf.br/nfe\" versao=\"4.00\"><tpAmb>2</tpAmb><cUF>51</cUF>"));
    assert_eq!(req.corpo(), req.xml.as_bytes().to_vec());
}

#[test]
fn chave_curta_falha_antes_de_resolver() {
    let r = Dfe::new().consultar_protocolo(Modelo::Nfe, Uf::Mt, Ambiente::Homologacao, "1234");
    match r {
        Err(DfeError::ChaveInvalida(c)) => assert_eq!(c, "1234"),
        outro => panic!("esperado ChaveInvalida, veio {:?}", outro),
    }
}

#[test]
fn consultar_protocolo_valido() {
    let req = Dfe::new()
        .set_webservices(loja())
        .consultar_protocolo(Modelo::Nfe, Uf::Mt, Ambiente::Homologacao, CHAVE)
        .unwrap();
    assert_eq!(req.url, "https://example/protocolo");
    assert_eq!(req.acao, "http://www.portalfiscal.inf.br/nfe/wsdl/NFeConsultaProtocolo4");
    assert!(req.xml.contains(&format!("<chNFe>{}</chNFe>", CHAVE)));
}

#[test]
fn consultar_autorizacao_recibo_invalido() {
    let r = Dfe::new()
        .set_webservices(loja())
        .consultar_autorizacao(Modelo::Nfe, Uf::Mt, Ambiente::Homologacao, "12A");
    match r {
        Err(DfeError::ReciboInvalido(c)) => assert_eq!(c, "12A"),
        outro => panic!("esperado ReciboInvalido, veio {:?}", outro),
    }
}

#[test]
fn consultar_autorizacao_valida() {
    let req = Dfe::new()
        .set_webservices(loja())
        .consultar_autorizacao(Modelo::Nfe, Uf::Mt, Ambiente::Homologacao, "511000012345678")
        .unwrap();
    assert_eq!(req.url, "https://example/recibo");
    assert!(req.xml.contains("<nRec>511000012345678</nRec>"));
}

#[test]
fn consultar_cadastro_documento() {
    let req = Dfe::new()
        .set_webservices(loja())
        .consultar_cadastro(Modelo::Nfe, Uf::Mt, Ambiente::Homologacao, Documento::from_cnpj("12345678000199"))
        .unwrap();
    assert_eq!(req.url, "https://example/cadastro");
    assert_eq!(req.acao, "http://www.portalfiscal.inf.br/nfe/wsdl/CadConsultaCadastro4");
    assert!(req.xml.contains("<UF>51</UF><CNPJ>12345678000199</CNPJ>"));
}

#[test]
fn consultar_cadastro_uf_excluida() {
    let r = Dfe::new()
        .set_webservices(loja())
        .consultar_cadastro(Modelo::Nfe, Uf::Rj, Ambiente::Homologacao, Documento::from_cpf("1"));
    assert!(matches!(
        r,
        Err(DfeError::WebServices(WebServicesBuilderError::UfSemWebServiceConsultaCadastro))
    ));
}

#[test]
fn sem_loja_de_webservices() {
    let r = Dfe::new().status_servico(Modelo::Nfe, Uf::Mt, Ambiente::Homologacao);
    assert!(matches!(r, Err(DfeError::WebServices(WebServicesBuilderError::TomlNaoInformado))));
}

#[test]
fn contingencia_no_orquestrador() {
    let mut ws = loja();
    ws.insert("NFe_SVRS_H", "NfeStatusServico_4.00", "https://svrs/ws");
    let req = Dfe::new()
        .set_webservices(ws)
        .set_contingencia(true)
        .status_servico(Modelo::Nfe, Uf::Mt, Ambiente::Homologacao)
        .unwrap();
    assert_eq!(req.url, "https://svrs/ws");
}

#[test]
fn xml_texto_substitui_invalidos() {
    let xml = Xml(vec![b'<', b'a', b'/', b'>', 0xff]);
    assert_eq!(xml.texto(), "<a/>\u{FFFD}");
    let ok = Xml("Serviço".as_bytes().to_vec());
    assert_eq!(ok.texto(), "Serviço");
    assert_eq!(ok.0, "Serviço".as_bytes().to_vec());
}

#[test]
fn mensagens_de_erro_do_orquestrador() {
    assert_eq!(DfeError::ChaveInvalida("1234".to_string()).mensagem(), "Chave de NF-e inválida: 1234");
    assert_eq!(DfeError::ReciboInvalido("9".to_string()).mensagem(), "Código de recibo inválido: 9");
    assert_eq!(DfeError::OperacaoInexistente.mensagem(), "Operação inexistente para este serviço");
    assert_eq!(
        DfeError::WebServices(WebServicesBuilderError::TomlNaoInformado).mensagem(),
        "TOML de webservices não informado"
    );
}
