//! SOAP request bodies for any document type of the fiscal portal: the
//! portal namespace and the data-message element are named after `tipo`
//! (`nfe`, `cte`, ...).
use vstd::prelude::*;

use crate::texto::{decimal, u8_decimal};

verus! {

/// `http://www.portalfiscal.inf.br/{tipo}`.
pub open spec fn spec_portal(tipo: Seq<char>) -> Seq<char> {
    "http://www.portalfiscal.inf.br/"@ + tipo
}

/// `{portal}/wsdl/{operation}`.
pub open spec fn spec_action(tipo: Seq<char>, operacao: Seq<char>) -> Seq<char> {
    spec_portal(tipo) + "/wsdl/"@ + operacao
}

/// `<{tipo}DadosMsg xmlns="{action}">{dados}</{tipo}DadosMsg>`.
pub open spec fn spec_dados_msg(tipo: Seq<char>, dados: Seq<char>, operacao: Seq<char>) -> Seq<char> {
    "<"@ + tipo + "DadosMsg xmlns=\""@ + spec_action(tipo, operacao) + "\">"@ + dados + "</"@ + tipo
        + "DadosMsg>"@
}

/// Opening of a query element `<{tag} xmlns="{portal}" versao="{versao}">`.
pub open spec fn spec_abertura(tag: Seq<char>, tipo: Seq<char>, versao: Seq<char>) -> Seq<char> {
    "<"@ + tag + " xmlns=\""@ + spec_portal(tipo) + "\" versao=\""@ + versao + "\">"@
}

pub open spec fn spec_cons_stat_serv(
    cuf: u8,
    tp_amb: u8,
    tipo: Seq<char>,
    versao: Seq<char>,
    operacao: Seq<char>,
) -> Seq<char> {
    spec_dados_msg(
        tipo,
        spec_abertura("consStatServ"@, tipo, versao) + "<tpAmb>"@ + decimal(tp_amb as nat)
            + "</tpAmb><cUF>"@ + decimal(cuf as nat) + "</cUF><xServ>STATUS</xServ></consStatServ>"@,
        operacao,
    )
}

pub open spec fn spec_cons_cad(
    cuf: u8,
    tipo: Seq<char>,
    versao: Seq<char>,
    operacao: Seq<char>,
    doc: Seq<char>,
    doc_tag: Seq<char>,
) -> Seq<char> {
    spec_dados_msg(
        tipo,
        spec_abertura("ConsCad"@, tipo, versao) + "<infCons><xServ>CONS-CAD</xServ><UF>"@ + decimal(
            cuf as nat,
        ) + "</UF><"@ + doc_tag + ">"@ + doc + "</"@ + doc_tag + "></infCons></ConsCad>"@,
        operacao,
    )
}

/// The key element is named after `tipo_nome`: `consSit{nome}` holding `ch{nome}`.
pub open spec fn spec_cons_sit(
    tp_amb: u8,
    tipo: Seq<char>,
    tipo_nome: Seq<char>,
    versao: Seq<char>,
    operacao: Seq<char>,
    ch: Seq<char>,
) -> Seq<char> {
    spec_dados_msg(
        tipo,
        spec_abertura("consSit"@ + tipo_nome, tipo, versao) + "<tpAmb>"@ + decimal(tp_amb as nat)
            + "</tpAmb><xServ>CONSULTAR</xServ><ch"@ + tipo_nome + ">"@ + ch + "</ch"@ + tipo_nome
            + "></consSit"@ + tipo_nome + ">"@,
        operacao,
    )
}

/// The SOAP envelope, with prefix `soap`, holding `body`.
pub open spec fn spec_envelope(body: Seq<char>) -> Seq<char> {
    "<soap:Envelope xmlns:xsi=\"http://www.w3.org/2001/XMLSchema-instance\" xmlns:xsd=\"http://www.w3.org/2001/XMLSchema\" xmlns:soap=\"http://www.w3.org/2003/05/soap-envelope\">"@
        + "<soap:Body>"@ + body + "</soap:Body>"@ + "</soap:Envelope>"@
}

pub fn format_portal(tipo: &str) -> (r: String)
    ensures
        r@ == spec_portal(tipo@),
{
    String::from_str("http://www.portalfiscal.inf.br/").concat(tipo)
}

pub fn format_action(tipo: &str, operacao: &str) -> (r: String)
    ensures
        r@ == spec_action(tipo@, operacao@),
{
    format_portal(tipo).concat("/wsdl/").concat(operacao)
}

pub fn format_dados_msg(tipo: &str, dados: &str, operacao: &str) -> (r: String)
    ensures
        r@ == spec_dados_msg(tipo@, dados@, operacao@),
{
    let acao = format_action(tipo, operacao);
    String::from_str("<").concat(tipo).concat("DadosMsg xmlns=\"").concat(acao.as_str()).concat(
        "\">",
    ).concat(dados).concat("</").concat(tipo).concat("DadosMsg>")
}

fn abertura(tag: &str, tipo: &str, versao: &str) -> (r: String)
    ensures
        r@ == spec_abertura(tag@, tipo@, versao@),
{
    let portal = format_portal(tipo);
    String::from_str("<").concat(tag).concat(" xmlns=\"").concat(portal.as_str()).concat(
        "\" versao=\"",
    ).concat(versao).concat("\">")
}

pub fn format_cons_stat_serv(cuf: u8, tp_amb: u8, tipo: &str, versao: &str, operacao: &str) -> (r:
    String)
    ensures
        r@ == spec_cons_stat_serv(cuf, tp_amb, tipo@, versao@, operacao@),
{
    let amb = u8_decimal(tp_amb);
    let uf = u8_decimal(cuf);
    let dados = abertura("consStatServ", tipo, versao).concat("<tpAmb>").concat(amb.as_str()).concat(
        "</tpAmb><cUF>",
    ).concat(uf.as_str()).concat("</cUF><xServ>STATUS</xServ></consStatServ>");
    format_dados_msg(tipo, dados.as_str(), operacao)
}

pub fn format_cons_cad(
    cuf: u8,
    tipo: &str,
    versao: &str,
    operacao: &str,
    doc: &str,
    doc_tag: &str,
) -> (r: String)
    ensures
        r@ == spec_cons_cad(cuf, tipo@, versao@, operacao@, doc@, doc_tag@),
{
    let uf = u8_decimal(cuf);
    let dados = abertura("ConsCad", tipo, versao).concat("<infCons><xServ>CONS-CAD</xServ><UF>").concat(
        uf.as_str(),
    ).concat("</UF><").concat(doc_tag).concat(">").concat(doc).concat("</").concat(doc_tag).concat(
        "></infCons></ConsCad>",
    );
    format_dados_msg(tipo, dados.as_str(), operacao)
}

pub fn format_cons_sit(
    tp_amb: u8,
    tipo: &str,
    tipo_nome: &str,
    versao: &str,
    operacao: &str,
    ch: &str,
) -> (r: String)
    ensures
        r@ == spec_cons_sit(tp_amb, tipo@, tipo_nome@, versao@, operacao@, ch@),
{
    let amb = u8_decimal(tp_amb);
    let tag = String::from_str("consSit").concat(tipo_nome);
    let dados = abertura(tag.as_str(), tipo, versao).concat("<tpAmb>").concat(amb.as_str()).concat(
        "</tpAmb><xServ>CONSULTAR</xServ><ch",
    ).concat(tipo_nome).concat(">").concat(ch).concat("</ch").concat(tipo_nome).concat(
        "></consSit",
    ).concat(tipo_nome).concat(">");
    format_dados_msg(tipo, dados.as_str(), operacao)
}

pub fn format_envelope(body: &str) -> (r: String)
    ensures
        r@ == spec_envelope(body@),
{
    String::from_str(
        "<soap:Envelope xmlns:xsi=\"http://www.w3.org/2001/XMLSchema-instance\" xmlns:xsd=\"http://www.w3.org/2001/XMLSchema\" xmlns:soap=\"http://www.w3.org/2003/05/soap-envelope\">",
    ).concat("<soap:Body>").concat(body).concat("</soap:Body>").concat("</soap:Envelope>")
}

} // verus!
