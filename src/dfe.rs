//! The request orchestrator: validation, endpoint resolution and envelope
//! construction for each business call. Dispatching the prepared request is
//! left to the transport.
use vstd::prelude::*;
use vstd::utf8::{decode_utf8, encode_utf8, valid_utf8};

use crate::soap12;
use crate::soap12::{spec_action, spec_cons_cad, spec_cons_reci, spec_cons_sit, spec_cons_stat_serv, spec_xml};
use crate::tipos::{Ambiente, Documento, Modelo, Servico, Uf};
use crate::util::{chave_valida, recibo_valido, validar_chave, validar_recibo};
use crate::webservices::{resolver, WebServices, WebServicesBuilder, WebServicesBuilderError};

verus! {

/// Why a request could not be prepared.
#[derive(Debug)]
pub enum DfeError {
    /// The endpoint could not be resolved.
    WebServices(WebServicesBuilderError),
    /// The operation has no wire operation name.
    OperacaoInexistente,
    /// The document key is not 44 ASCII digits.
    ChaveInvalida(String),
    /// The receipt number is not 15 ASCII digits.
    ReciboInvalido(String),
}

impl DfeError {
    /// Description of the error, as shown to a user.
    pub open spec fn spec_mensagem(&self) -> Seq<char> {
        match self {
            DfeError::WebServices(e) => e.spec_mensagem(),
            DfeError::OperacaoInexistente => "Operação inexistente para este serviço"@,
            DfeError::ChaveInvalida(c) => "Chave de NF-e inválida: "@ + c@,
            DfeError::ReciboInvalido(c) => "Código de recibo inválido: "@ + c@,
        }
    }

    pub fn mensagem(&self) -> (r: String)
        ensures
            r@ == self.spec_mensagem(),
    {
        match self {
            DfeError::WebServices(e) => e.mensagem(),
            DfeError::OperacaoInexistente => String::from_str("Operação inexistente para este serviço"),
            DfeError::ChaveInvalida(c) => String::from_str("Chave de NF-e inválida: ").concat(c.as_str()),
            DfeError::ReciboInvalido(c) => String::from_str("Código de recibo inválido: ").concat(c.as_str()),
        }
    }
}

/// A response body, kept as the bytes that were received.
#[derive(Debug)]
pub struct Xml(pub Vec<u8>);

/// What `String::from_utf8_lossy` yields for a byte sequence.
pub uninterp spec fn utf8_lossy(b: Seq<u8>) -> Seq<char>;

/// Relies on `String::from_utf8_lossy`: invalid sequences become U+FFFD and
/// valid UTF-8 is decoded unchanged.
#[verifier::external_body]
fn texto_utf8_lossy(b: &[u8]) -> (r: String)
    ensures
        r@ == utf8_lossy(b@),
        valid_utf8(b@) ==> r@ == decode_utf8(b@),
{
    String::from_utf8_lossy(b).into_owned()
}

impl Xml {
    /// The response as text, with each invalid UTF-8 sequence replaced.
    pub fn texto(&self) -> (r: String)
        ensures
            r@ == utf8_lossy(self.0@),
            valid_utf8(self.0@) ==> r@ == decode_utf8(self.0@),
    {
        texto_utf8_lossy(self.0.as_slice())
    }
}

/// A request ready for dispatch: endpoint, SOAP action and XML document.
#[derive(Clone, Debug)]
pub struct Requisicao {
    pub url: String,
    pub acao: String,
    pub xml: String,
}

impl Requisicao {
    /// The UTF-8 bytes of the XML document, as sent on the wire.
    pub fn corpo(&self) -> (r: Vec<u8>)
        ensures
            r@ == encode_utf8(self.xml@),
    {
        self.xml.as_str().as_bytes_vec()
    }
}

/// Endpoint resolution as the orchestrator performs it: every selector is
/// set, and the store is the one supplied, if any.
pub open spec fn spec_resolucao(
    toml: Option<Map<(Seq<char>, Seq<char>), Seq<char>>>,
    contingencia: bool,
    modelo: Modelo,
    uf: Uf,
    ambiente: Ambiente,
    servico: Servico,
) -> Result<Seq<char>, WebServicesBuilderError> {
    match toml {
        Some(ws) => resolver(ws, modelo, uf, ambiente, servico, contingencia),
        None => Err(WebServicesBuilderError::TomlNaoInformado),
    }
}

/// `r` is the request for operation `operacao` with data message `corpo`,
/// addressed to the endpoint that `resolucao` gives; or the resolution error.
pub open spec fn preparo(
    resolucao: Result<Seq<char>, WebServicesBuilderError>,
    operacao: Seq<char>,
    corpo: Seq<char>,
    r: Result<Requisicao, DfeError>,
) -> bool {
    match r {
        Ok(req) => {
            &&& resolucao == Ok::<Seq<char>, WebServicesBuilderError>(req.url@)
            &&& req.acao@ == spec_action(operacao)
            &&& req.xml@ == spec_xml(corpo)
        },
        Err(e) => resolucao is Err && e == DfeError::WebServices(resolucao->Err_0),
    }
}

/// The operation-specific part of a request.
enum Pedido<'a> {
    StatusServico,
    Situacao(&'a str),
    Recibo(&'a str),
    Cadastro(Documento<'a>),
}

spec fn spec_corpo(pedido: Pedido, uf: Uf, ambiente: Ambiente, versao: Seq<char>, operacao: Seq<char>) -> Seq<char> {
    match pedido {
        Pedido::StatusServico => spec_cons_stat_serv(uf.spec_cuf(), ambiente.spec_tp_amb(), versao, operacao),
        Pedido::Situacao(ch) => spec_cons_sit(ambiente.spec_tp_amb(), versao, operacao, ch@),
        Pedido::Recibo(rec) => spec_cons_reci(ambiente.spec_tp_amb(), versao, operacao, rec@),
        Pedido::Cadastro(doc) => spec_cons_cad(
            uf.spec_cuf(),
            versao,
            operacao,
            doc.spec_conteudo(),
            doc.spec_tipo().spec_as_str(),
        ),
    }
}

fn corpo(pedido: &Pedido, uf: Uf, ambiente: Ambiente, versao: &str, operacao: &str) -> (r: String)
    ensures
        r@ == spec_corpo(*pedido, uf, ambiente, versao@, operacao@),
{
    match pedido {
        Pedido::StatusServico => soap12::format_cons_stat_serv(uf.cuf(), ambiente.tp_amb(), versao, operacao),
        Pedido::Situacao(ch) => soap12::format_cons_sit(ambiente.tp_amb(), versao, operacao, ch),
        Pedido::Recibo(rec) => soap12::format_cons_reci(ambiente.tp_amb(), versao, operacao, rec),
        Pedido::Cadastro(doc) => soap12::format_cons_cad(
            uf.cuf(),
            versao,
            operacao,
            doc.as_str(),
            doc.tipo().as_str(),
        ),
    }
}

/// The orchestrator: holds the endpoint store and prepares one request per call.
pub struct Dfe {
    webservices_builder: WebServicesBuilder,
}

impl Dfe {
    /// The model of the store supplied, if any.
    pub closed spec fn spec_toml(&self) -> Option<Map<(Seq<char>, Seq<char>), Seq<char>>> {
        self.webservices_builder.spec_toml()
    }

    pub closed spec fn spec_contingencia(&self) -> bool {
        self.webservices_builder.spec_contingencia()
    }

    /// Endpoint resolution of `servico` for this orchestrator.
    pub open spec fn resolucao(&self, modelo: Modelo, uf: Uf, ambiente: Ambiente, servico: Servico) -> Result<Seq<char>, WebServicesBuilderError> {
        spec_resolucao(self.spec_toml(), self.spec_contingencia(), modelo, uf, ambiente, servico)
    }

    /// An orchestrator with no store and contingency off.
    pub fn new() -> (r: Dfe)
        ensures
            r.spec_toml() is None,
            !r.spec_contingencia(),
    {
        Dfe { webservices_builder: WebServicesBuilder::new() }
    }

    pub fn set_webservices(self, webservices: WebServices) -> (r: Dfe)
        ensures
            r.spec_toml() == Some(webservices@),
            r.spec_contingencia() == self.spec_contingencia(),
    {
        Dfe { webservices_builder: self.webservices_builder.set_toml(webservices) }
    }

    /// Routes later requests to the contingency clusters, or back.
    pub fn set_contingencia(self, contingencia: bool) -> (r: Dfe)
        ensures
            r.spec_toml() == self.spec_toml(),
            r.spec_contingencia() == contingencia,
    {
        Dfe { webservices_builder: self.webservices_builder.set_contingencia(contingencia) }
    }

    /// Prepares a service-status query.
    pub fn status_servico(self, modelo: Modelo, uf: Uf, ambiente: Ambiente) -> (r: Result<Requisicao, DfeError>)
        ensures
            preparo(
                self.resolucao(modelo, uf, ambiente, Servico::StatusServico),
                Servico::StatusServico.spec_operacao()->0,
                spec_cons_stat_serv(
                    uf.spec_cuf(),
                    ambiente.spec_tp_amb(),
                    Servico::StatusServico.spec_versao_url().spec_as_str(),
                    Servico::StatusServico.spec_operacao()->0,
                ),
                r,
            ),
    {
        self.send(modelo, uf, ambiente, Servico::StatusServico, Pedido::StatusServico)
    }

    /// Prepares a document-status query for the access key `chave`.
    pub fn consultar_protocolo(self, modelo: Modelo, uf: Uf, ambiente: Ambiente, chave: &str) -> (r: Result<Requisicao, DfeError>)
        ensures
            !chave_valida(chave@) ==> (r matches Err(DfeError::ChaveInvalida(c)) && c@ == chave@),
            chave_valida(chave@) ==> preparo(
                self.resolucao(modelo, uf, ambiente, Servico::ConsultaProtocolo),
                Servico::ConsultaProtocolo.spec_operacao()->0,
                spec_cons_sit(
                    ambiente.spec_tp_amb(),
                    Servico::ConsultaProtocolo.spec_versao_url().spec_as_str(),
                    Servico::ConsultaProtocolo.spec_operacao()->0,
                    chave@,
                ),
                r,
            ),
    {
        if !validar_chave(chave) {
            return Err(DfeError::ChaveInvalida(String::from_str(chave)));
        }
        self.send(modelo, uf, ambiente, Servico::ConsultaProtocolo, Pedido::Situacao(chave))
    }

    /// Prepares a receipt query for the receipt number `recibo`.
    pub fn consultar_autorizacao(self, modelo: Modelo, uf: Uf, ambiente: Ambiente, recibo: &str) -> (r: Result<Requisicao, DfeError>)
        ensures
            !recibo_valido(recibo@) ==> (r matches Err(DfeError::ReciboInvalido(c)) && c@ == recibo@),
            recibo_valido(recibo@) ==> preparo(
                self.resolucao(modelo, uf, ambiente, Servico::ConsultaAutorizacao),
                Servico::ConsultaAutorizacao.spec_operacao()->0,
                spec_cons_reci(
                    ambiente.spec_tp_amb(),
                    Servico::ConsultaAutorizacao.spec_versao_url().spec_as_str(),
                    Servico::ConsultaAutorizacao.spec_operacao()->0,
                    recibo@,
                ),
                r,
            ),
    {
        if !validar_recibo(recibo) {
            return Err(DfeError::ReciboInvalido(String::from_str(recibo)));
        }
        self.send(modelo, uf, ambiente, Servico::ConsultaAutorizacao, Pedido::Recibo(recibo))
    }

    /// Prepares a registration query for `documento`; the identifier is not checked locally.
    pub fn consultar_cadastro(self, modelo: Modelo, uf: Uf, ambiente: Ambiente, documento: Documento) -> (r: Result<Requisicao, DfeError>)
        ensures
            preparo(
                self.resolucao(modelo, uf, ambiente, Servico::ConsultaCadastro),
                Servico::ConsultaCadastro.spec_operacao()->0,
                spec_cons_cad(
                    uf.spec_cuf(),
                    Servico::ConsultaCadastro.spec_versao_url().spec_as_str(),
                    Servico::ConsultaCadastro.spec_operacao()->0,
                    documento.spec_conteudo(),
                    documento.spec_tipo().spec_as_str(),
                ),
                r,
            ),
    {
        self.send(modelo, uf, ambiente, Servico::ConsultaCadastro, Pedido::Cadastro(documento))
    }

    fn send(self, modelo: Modelo, uf: Uf, ambiente: Ambiente, servico: Servico, pedido: Pedido) -> (r: Result<Requisicao, DfeError>)
        ensures
            match servico.spec_operacao() {
                Some(op) => preparo(
                    self.resolucao(modelo, uf, ambiente, servico),
                    op,
                    spec_corpo(pedido, uf, ambiente, servico.spec_versao_url().spec_as_str(), op),
                    r,
                ),
                None => r matches Err(DfeError::OperacaoInexistente),
            },
    {
        let operacao = match servico.operacao() {
            Some(op) => op,
            None => return Err(DfeError::OperacaoInexistente),
        };
        let builder = self.webservices_builder.set_modelo(modelo).set_uf(uf).set_ambiente(ambiente).set_servico(servico);
        let url = match builder.build() {
            Ok(u) => u,
            Err(e) => return Err(DfeError::WebServices(e)),
        };
        let dados = corpo(&pedido, uf, ambiente, servico.versao_url().as_str(), operacao);
        let xml = soap12::format_xml(dados.as_str());
        let acao = soap12::format_action(operacao);
        Ok(Requisicao { url, acao, xml })
    }
}

} // verus!
