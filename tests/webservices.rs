use fiscalidade::{
    Ambiente, Modelo, Servico, Uf, WebServices, WebServicesBuilder, WebServicesBuilderError,
};

fn resolve(
    ws: WebServices,
    modelo: Modelo,
    uf: Uf,
    ambiente: Ambiente,
    servico: Servico,
    contingencia: bool,
) -> Result<String, WebServicesBuilderError> {
    WebServicesBuilder::new()
        .set_toml(ws)
        .set_modelo(modelo)
        .set_uf(uf)
        .set_ambiente(ambiente)
        .set_servico(servico)
        .set_contingencia(contingencia)
        .build()
}

const TODAS: [Uf; 27] = [
    Uf::Ro, Uf::Ac, Uf::Am, Uf::Rr, Uf::Pa, Uf::Ap, Uf::To, Uf::Ma, Uf::Pi, Uf::Ce, Uf::Rn,
    Uf::Pb, Uf::Pe, Uf::Al, Uf::Se, Uf::Ba, Uf::Mg, Uf::Es, Uf::Rj, Uf::Sp, Uf::Pr, Uf::Sc,
    Uf::Rs, Uf::Ms, Uf::Mt, Uf::Go, Uf::Df,
];

/// A store where every unit's default section holds every operation.
fn loja_completa() -> WebServices {
    let mut ws = WebServices::new();
    let servicos = [Servico::StatusServico, Servico::ConsultaCadastro];
    for uf in TODAS {
        for amb in [Ambiente::Producao, Ambiente::Homologacao] {
            let secao = format!("NFe_{}_{}", uf.as_str(), amb.as_str());
            for s in servicos {
                ws.insert(&secao, &s.chave(), &format!("https://{}/{}", secao, s.chave()));
            }
        }
    }
    ws
}

#[test]
fn store_get_from() {
    let mut ws = WebServices::new();
    assert_eq!(ws.get_from("A", "k"), None);
    ws.insert("A", "k", "v1");
    ws.insert("B", "k", "v2");
    assert_eq!(ws.get_from("A", "k"), Some("v1"));
    assert_eq!(ws.get_from("B", "k"), Some("v2"));
    assert_eq!(ws.get_from("A", "x"), None);
    ws.insert("A", "k", "v3");
    assert_eq!(ws.get_from("A", "k"), Some("v3"));
}

#[test]
fn secao_padrao() {
    let mut ws = WebServices::new();
    ws.insert("NFe_MT_H", "NfeStatusServico_4.00", "https://example/ws");
    let r = resolve(ws, Modelo::Nfe, Uf::Mt, Ambiente::Homologacao, Servico::StatusServico, false);
    assert_eq!(r, Ok("https://example/ws".to_string()));
}

#[test]
fn consulta_cadastro_ufs_excluidas() {
    let excluidas = [
        Uf::Pa, Uf::Am, Uf::Al, Uf::Ap, Uf::Df, Uf::Pi, Uf::Rj, Uf::Ro, Uf::Se, Uf::To,
    ];
    let mut n_excluidas = 0;
    for uf in TODAS {
        for amb in [Ambiente::Producao, Ambiente::Homologacao] {
            let r = resolve(loja_completa(), Modelo::Nfe, uf, amb, Servico::ConsultaCadastro, false);
            if excluidas.contains(&uf) {
                assert_eq!(r, Err(WebServicesBuilderError::UfSemWebServiceConsultaCadastro));
                n_excluidas += 1;
            } else {
                let esperado = format!(
                    "https://NFe_{}_{}/NfeConsultaCadastro_4.00",
                    uf.as_str(),
                    amb.as_str()
                );
                assert_eq!(r, Ok(esperado));
            }
        }
    }
    assert_eq!(n_excluidas, 20);
}

#[test]
fn servico_nacional_ignora_usar_e_uf() {
    let mut ws = WebServices::new();
    ws.insert("NFe_SP_H", "Usar", "NFe_SVRS_H");
    ws.insert("NFe_SVRS_H", "RecepcaoEvento_4.00", "https://svrs");
    ws.insert("NFe_AN_H", "RecepcaoEvento_4.00", "https://an-h");
    ws.insert("NFe_AN_P", "RecepcaoEvento_4.00", "https://an-p");
    ws.insert("NFe_AN_H", "NFeDistribuicaoDFe_1.01", "https://dist-h");
    let r = resolve(ws.clone(), Modelo::Nfe, Uf::Sp, Ambiente::Homologacao, Servico::Manifestacao, true);
    assert_eq!(r, Ok("https://an-h".to_string()));
    let r = resolve(ws.clone(), Modelo::Nfe, Uf::Sp, Ambiente::Producao, Servico::Epec, false);
    assert_eq!(r, Ok("https://an-p".to_string()));
    let r = resolve(ws, Modelo::Nfe, Uf::Rs, Ambiente::Homologacao, Servico::DistribuicaoDfe, false);
    assert_eq!(r, Ok("https://dist-h".to_string()));
}

#[test]
fn servico_nacional_usa_modelo() {
    let mut ws = WebServices::new();
    ws.insert("NFCe_AN_P", "RecepcaoEvento_4.00", "https://nfce-an-p");
    let r = resolve(ws, Modelo::Nfce, Uf::Mg, Ambiente::Producao, Servico::Epec, false);
    assert_eq!(r, Ok("https://nfce-an-p".to_string()));
}

#[test]
fn redirecionamento_usar() {
    let mut ws = WebServices::new();
    ws.insert("NFe_AC_P", "Usar", "NFe_SVRS_P");
    ws.insert("NFe_SVRS_P", "NfeStatusServico_4.00", "https://svrs/status");
    ws.insert("NFe_AC_P", "NfeStatusServico_4.00", "https://ac/status");
    let r = resolve(ws.clone(), Modelo::Nfe, Uf::Ac, Ambiente::Producao, Servico::StatusServico, false);
    assert_eq!(r, Ok("https://svrs/status".to_string()));
    let r = resolve(ws, Modelo::Nfe, Uf::Ac, Ambiente::Producao, Servico::StatusServico, true);
    assert_eq!(r, Ok("https://svrs/status".to_string()));
}

#[test]
fn usar_ignorado_para_urls() {
    let mut ws = WebServices::new();
    ws.insert("NFCe_AC_P", "Usar", "NFCe_SVRS_P");
    ws.insert("NFCe_AC_P", "URL-QRCode", "https://ac/qr");
    ws.insert("NFCe_SVRS_P", "URL-QRCode", "https://svrs/qr");
    let r = resolve(ws, Modelo::Nfce, Uf::Ac, Ambiente::Producao, Servico::UrlQrCode, false);
    assert_eq!(r, Ok("https://ac/qr".to_string()));
}

#[test]
fn contingencia_svrs_e_svc_an() {
    let svrs = [
        Uf::Go, Uf::Am, Uf::Ba, Uf::Ce, Uf::Ma, Uf::Ms, Uf::Mt, Uf::Pa, Uf::Pe, Uf::Pi, Uf::Pr,
    ];
    let mut ws = WebServices::new();
    ws.insert("NFe_SVRS_H", "NfeStatusServico_4.00", "https://svrs");
    ws.insert("NFe_SVC-AN_H", "NfeStatusServico_4.00", "https://svc-an");
    let mut n_svrs = 0;
    for uf in TODAS {
        let r = resolve(ws.clone(), Modelo::Nfe, uf, Ambiente::Homologacao, Servico::StatusServico, true);
        if svrs.contains(&uf) {
            assert_eq!(r, Ok("https://svrs".to_string()));
            n_svrs += 1;
        } else {
            assert_eq!(r, Ok("https://svc-an".to_string()));
        }
    }
    assert_eq!(n_svrs, 11);
}

#[test]
fn nao_encontrado() {
    let ws = WebServices::new();
    let r = resolve(ws, Modelo::Nfe, Uf::Sp, Ambiente::Producao, Servico::Envio, false);
    assert_eq!(
        r,
        Err(WebServicesBuilderError::WebServiceNaoEncontrado { uf: Uf::Sp, servico: Servico::Envio })
    );
}

#[test]
fn seletores_ausentes() {
    assert_eq!(WebServicesBuilder::new().build(), Err(WebServicesBuilderError::TomlNaoInformado));
    let b = WebServicesBuilder::new().set_toml(WebServices::new());
    assert_eq!(b.clone().build(), Err(WebServicesBuilderError::ModeloNaoInformado));
    let b = b.set_modelo(Modelo::Nfe);
    assert_eq!(b.clone().build(), Err(WebServicesBuilderError::UfNaoInformada));
    let b = b.set_uf(Uf::Sp);
    assert_eq!(b.clone().build(), Err(WebServicesBuilderError::AmbienteNaoInformado));
    let b = b.set_ambiente(Ambiente::Producao);
    assert_eq!(b.clone().build(), Err(WebServicesBuilderError::ServicoNaoInformado));
}

#[test]
fn mensagens_de_erro() {
    assert_eq!(WebServicesBuilderError::UfNaoInformada.mensagem(), "UF não informada");
    assert_eq!(
        WebServicesBuilderError::WebServiceNaoEncontrado { uf: Uf::Mt, servico: Servico::Cce }
            .mensagem(),
        "WebService não encontrado para MT: CC-e"
    );
}
