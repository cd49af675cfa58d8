//! SOAP 1.2 request bodies for the NF-e web services.
use vstd::prelude::*;

use vstd::utf8::encode_utf8;

use crate::texto::{decimal, u8_decimal};

verus! {

/// Base namespace of the NF-e portal.
pub const PORTAL_FISCAL: &'static str = "http://www.portalfiscal.inf.br/nfe";

/// The XML declaration that every request starts with.
pub const DECLARACAO_XML: &'static str = "<?xml version=\"1.0\" encoding=\"UTF-8\"?>";

/// Opening tag of the SOAP 1.2 envelope, with its namespace declarations.
pub const ENVELOPE_INICIO: &'static str = "<soap12:Envelope xmlns:xsi=\"http://www.w3.org/2001/XMLSchema-instance\" xmlns:xsd=\"http://www.w3.org/2001/XMLSchema\" xmlns:soap12=\"http://www.w3.org/2003/05/soap-envelope\">";

pub const CORPO_INICIO: &'static str = "<soap12:Body>";

pub const CORPO_FIM: &'static str = "</soap12:Body>";

pub const ENVELOPE_FIM: &'static str = "</soap12:Envelope>";

/// `{portal}/wsdl/{operation}`: the SOAP action and the message namespace.
pub open spec fn spec_action(operacao: Seq<char>) -> Seq<char> {
    PORTAL_FISCAL@ + "/wsdl/"@ + operacao
}

/// The data-message wrapper of an operation around `dados`.
pub open spec fn spec_dados_msg(dados: Seq<char>, operacao: Seq<char>) -> Seq<char> {
    "<nfeDadosMsg xmlns=\""@ + spec_action(operacao) + "\">"@ + dados + "</nfeDadosMsg>"@
}

/// The SOAP envelope with a single body holding `body`.
pub open spec fn spec_envelope(body: Seq<char>) -> Seq<char> {
    ENVELOPE_INICIO@ + CORPO_INICIO@ + body + CORPO_FIM@ + ENVELOPE_FIM@
}

/// A complete request document: the XML declaration and the envelope.
pub open spec fn spec_xml(body: Seq<char>) -> Seq<char> {
    DECLARACAO_XML@ + spec_envelope(body)
}

/// Opening of a query element `<{tag} xmlns="{portal}" versao="{versao}">`.
pub open spec fn spec_abertura(tag: Seq<char>, versao: Seq<char>) -> Seq<char> {
    "<"@ + tag + " xmlns=\""@ + PORTAL_FISCAL@ + "\" versao=\""@ + versao + "\">"@
}

/// Body of a service-status query.
pub open spec fn spec_cons_stat_serv(cuf: u8, tp_amb: u8, versao: Seq<char>, operacao: Seq<char>) -> Seq<char> {
    spec_dados_msg(
        spec_abertura("consStatServ"@, versao) + "<tpAmb>"@ + decimal(tp_amb as nat) + "</tpAmb><cUF>"@
            + decimal(cuf as nat) + "</cUF><xServ>STATUS</xServ></consStatServ>"@,
        operacao,
    )
}

/// Body of a document-status query for the key `ch`.
pub open spec fn spec_cons_sit(tp_amb: u8, versao: Seq<char>, operacao: Seq<char>, ch: Seq<char>) -> Seq<char> {
    spec_dados_msg(
        spec_abertura("consSitNFe"@, versao) + "<tpAmb>"@ + decimal(tp_amb as nat)
            + "</tpAmb><xServ>CONSULTAR</xServ><chNFe>"@ + ch + "</chNFe></consSitNFe>"@,
        operacao,
    )
}

/// Body of a receipt query for the receipt number `rec`.
pub open spec fn spec_cons_reci(tp_amb: u8, versao: Seq<char>, operacao: Seq<char>, rec: Seq<char>) -> Seq<char> {
    spec_dados_msg(
        spec_abertura("consReciNFe"@, versao) + "<tpAmb>"@ + decimal(tp_amb as nat) + "</tpAmb><nRec>"@
            + rec + "</nRec></consReciNFe>"@,
        operacao,
    )
}

/// Body of a registration query for identifier `doc`, sent under element `doc_tag`.
pub open spec fn spec_cons_cad(
    cuf: u8,
    versao: Seq<char>,
    operacao: Seq<char>,
    doc: Seq<char>,
    doc_tag: Seq<char>,
) -> Seq<char> {
    spec_dados_msg(
        spec_abertura("ConsCad"@, versao) + "<infCons><xServ>CONS-CAD</xServ><UF>"@ + decimal(cuf as nat)
            + "</UF><"@ + doc_tag + ">"@ + doc + "</"@ + doc_tag + "></infCons></ConsCad>"@,
        operacao,
    )
}

pub fn format_action(operacao: &str) -> (r: String)
    ensures
        r@ == spec_action(operacao@),
{
    String::from_str(PORTAL_FISCAL).concat("/wsdl/").concat(operacao)
}

pub fn format_dados_msg(dados: &str, operacao: &str) -> (r: String)
    ensures
        r@ == spec_dados_msg(dados@, operacao@),
{
    let acao = format_action(operacao);
    String::from_str("<nfeDadosMsg xmlns=\"").concat(acao.as_str()).concat("\">").concat(dados).concat(
        "</nfeDadosMsg>",
    )
}

pub fn format_envelope(body: &str) -> (r: String)
    ensures
        r@ == spec_envelope(body@),
{
    String::from_str(ENVELOPE_INICIO).concat(CORPO_INICIO).concat(body).concat(CORPO_FIM).concat(
        ENVELOPE_FIM,
    )
}

/// The request document: the XML declaration followed by the envelope around `envelope`.
pub fn format_xml(envelope: &str) -> (r: String)
    ensures
        r@ == spec_xml(envelope@),
{
    let env = format_envelope(envelope);
    String::from_str(DECLARACAO_XML).concat(env.as_str())
}

fn abertura(tag: &str, versao: &str) -> (r: String)
    ensures
        r@ == spec_abertura(tag@, versao@),
{
    String::from_str("<").concat(tag).concat(" xmlns=\"").concat(PORTAL_FISCAL).concat(
        "\" versao=\"",
    ).concat(versao).concat("\">")
}

pub fn format_cons_stat_serv(cuf: u8, tp_amb: u8, versao: &str, operacao: &str) -> (r: String)
    ensures
        r@ == spec_cons_stat_serv(cuf, tp_amb, versao@, operacao@),
{
    let amb = u8_decimal(tp_amb);
    let uf = u8_decimal(cuf);
    let dados = abertura("consStatServ", versao).concat("<tpAmb>").concat(amb.as_str()).concat(
        "</tpAmb><cUF>",
    ).concat(uf.as_str()).concat("</cUF><xServ>STATUS</xServ></consStatServ>");
    format_dados_msg(dados.as_str(), operacao)
}

pub fn format_cons_sit(tp_amb: u8, versao: &str, operacao: &str, ch: &str) -> (r: String)
    ensures
        r@ == spec_cons_sit(tp_amb, versao@, operacao@, ch@),
{
    let amb = u8_decimal(tp_amb);
    let dados = abertura("consSitNFe", versao).concat("<tpAmb>").concat(amb.as_str()).concat(
        "</tpAmb><xServ>CONSULTAR</xServ><chNFe>",
    ).concat(ch).concat("</chNFe></consSitNFe>");
    format_dados_msg(dados.as_str(), operacao)
}

pub fn format_cons_reci(tp_amb: u8, versao: &str, operacao: &str, rec: &str) -> (r: String)
    ensures
        r@ == spec_cons_reci(tp_amb, versao@, operacao@, rec@),
{
    let amb = u8_decimal(tp_amb);
    let dados = abertura("consReciNFe", versao).concat("<tpAmb>").concat(amb.as_str()).concat(
        "</tpAmb><nRec>",
    ).concat(rec).concat("</nRec></consReciNFe>");
    format_dados_msg(dados.as_str(), operacao)
}

pub fn format_cons_cad(cuf: u8, versao: &str, operacao: &str, doc: &str, doc_tag: &str) -> (r: String)
    ensures
        r@ == spec_cons_cad(cuf, versao@, operacao@, doc@, doc_tag@),
{
    let uf = u8_decimal(cuf);
    let dados = abertura("ConsCad", versao).concat("<infCons><xServ>CONS-CAD</xServ><UF>").concat(
        uf.as_str(),
    ).concat("</UF><").concat(doc_tag).concat(">").concat(doc).concat("</").concat(doc_tag).concat(
        "></infCons></ConsCad>",
    );
    format_dados_msg(dados.as_str(), operacao)
}

/// A request document depends on its message alone: building it twice from
/// the same message gives the same characters, hence the same UTF-8 bytes.
/// It starts with the XML declaration, followed by a single envelope opening
/// and a single body opening, then the message, then the body and envelope
/// closings, which end the document.
pub proof fn lei_envelope(body: Seq<char>, outro: Seq<char>)
    ensures
        body == outro ==> spec_xml(body) == spec_xml(outro) && encode_utf8(spec_xml(body))
            == encode_utf8(spec_xml(outro)),
        spec_xml(body).subrange(0, DECLARACAO_XML@.len() as int) == DECLARACAO_XML@,
        spec_xml(body) == DECLARACAO_XML@ + ENVELOPE_INICIO@ + CORPO_INICIO@ + body + CORPO_FIM@
            + ENVELOPE_FIM@,
        spec_xml(body).subrange(
            spec_xml(body).len() - (CORPO_FIM@ + ENVELOPE_FIM@).len(),
            spec_xml(body).len() as int,
        ) == CORPO_FIM@ + ENVELOPE_FIM@,
{
    let x = spec_xml(body);
    let d = DECLARACAO_XML@;
    let resto = ENVELOPE_INICIO@ + CORPO_INICIO@ + body + CORPO_FIM@ + ENVELOPE_FIM@;
    assert(x =~= d + resto);
    assert(x.subrange(0, d.len() as int) =~= d);
    let fim = CORPO_FIM@ + ENVELOPE_FIM@;
    let inicio = d + ENVELOPE_INICIO@ + CORPO_INICIO@ + body;
    assert(x =~= inicio + fim);
    assert(x.subrange(x.len() - fim.len(), x.len() as int) =~= fim);
}

} // verus!
