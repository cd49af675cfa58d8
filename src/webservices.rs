//! The endpoint configuration store and the endpoint resolver.
use vstd::prelude::*;

use crate::texto::str_eq;
use crate::tipos::{Ambiente, Modelo, Servico, Uf};

verus! {

/// One value of the store: `valor` under key `chave` of section `secao`.
#[derive(Clone, Debug)]
struct Entrada {
    secao: String,
    chave: String,
    valor: String,
}

/// The endpoint configuration store: named sections, each mapping keys to text.
///
/// Its model is the map from `(section, key)` to value. A value stored
/// again under the same pair replaces the earlier one.
#[derive(Clone, Debug)]
pub struct WebServices {
    entradas: Vec<Entrada>,
}

/// The value stored last under `(secao, chave)` in a list of entries.
spec fn valor_em(es: Seq<Entrada>, secao: Seq<char>, chave: Seq<char>) -> Option<Seq<char>>
    decreases es.len(),
{
    if es.len() == 0 {
        None
    } else if es.last().secao@ == secao && es.last().chave@ == chave {
        Some(es.last().valor@)
    } else {
        valor_em(es.drop_last(), secao, chave)
    }
}

/// The value that a store model holds under `(secao, chave)`, if any.
pub open spec fn consulta(
    ws: Map<(Seq<char>, Seq<char>), Seq<char>>,
    secao: Seq<char>,
    chave: Seq<char>,
) -> Option<Seq<char>> {
    if ws.contains_key((secao, chave)) {
        Some(ws[(secao, chave)])
    } else {
        None
    }
}

impl View for WebServices {
    type V = Map<(Seq<char>, Seq<char>), Seq<char>>;

    closed spec fn view(&self) -> Map<(Seq<char>, Seq<char>), Seq<char>> {
        Map::new(
            |p: (Seq<char>, Seq<char>)| valor_em(self.entradas@, p.0, p.1) is Some,
            |p: (Seq<char>, Seq<char>)| valor_em(self.entradas@, p.0, p.1)->0,
        )
    }
}

impl WebServices {
    /// An empty store.
    pub fn new() -> (r: WebServices)
        ensures
            r@ == Map::<(Seq<char>, Seq<char>), Seq<char>>::empty(),
    {
        let r = WebServices { entradas: Vec::new() };
        assert(r@ =~= Map::<(Seq<char>, Seq<char>), Seq<char>>::empty());
        r
    }

    /// Stores `valor` under key `chave` of section `secao`.
    pub fn insert(&mut self, secao: &str, chave: &str, valor: &str)
        ensures
            final(self)@ == old(self)@.insert((secao@, chave@), valor@),
    {
        let e = Entrada {
            secao: String::from_str(secao),
            chave: String::from_str(chave),
            valor: String::from_str(valor),
        };
        let ghost antes = self.entradas@;
        self.entradas.push(e);
        assert(self.entradas@.drop_last() =~= antes);
        assert(self@ =~= old(self)@.insert((secao@, chave@), valor@));
    }

    /// The value under key `key` of section `section`, if the store has one.
    pub fn get_from(&self, section: &str, key: &str) -> (r: Option<&str>)
        ensures
            match r {
                Some(v) => consulta(self@, section@, key@) == Some(v@),
                None => consulta(self@, section@, key@) is None,
            },
    {
        let mut i: usize = self.entradas.len();
        assert(self.entradas@.take(i as int) =~= self.entradas@);
        while i > 0
            invariant
                i <= self.entradas@.len(),
                valor_em(self.entradas@, section@, key@) == valor_em(
                    self.entradas@.take(i as int),
                    section@,
                    key@,
                ),
            decreases i,
        {
            let e = &self.entradas[i - 1];
            assert(self.entradas@.take(i as int).drop_last() =~= self.entradas@.take(i - 1));
            if str_eq(e.secao.as_str(), section) && str_eq(e.chave.as_str(), key) {
                return Some(e.valor.as_str());
            }
            i = i - 1;
        }
        assert(self.entradas@.take(0) =~= Seq::<Entrada>::empty());
        None
    }
}

/// Why an endpoint could not be resolved.
#[derive(Clone, Copy, Debug, Eq, PartialEq, Structural)]
pub enum WebServicesBuilderError {
    /// No configuration store was supplied.
    TomlNaoInformado,
    UfNaoInformada,
    AmbienteNaoInformado,
    ServicoNaoInformado,
    ModeloNaoInformado,
    /// The unit publishes no registration-lookup service.
    UfSemWebServiceConsultaCadastro,
    /// The resolved section holds no endpoint for the operation.
    WebServiceNaoEncontrado { uf: Uf, servico: Servico },
}

impl WebServicesBuilderError {
    /// Description of the error, as shown to a user.
    pub open spec fn spec_mensagem(self) -> Seq<char> {
        match self {
            WebServicesBuilderError::TomlNaoInformado => "TOML de webservices não informado"@,
            WebServicesBuilderError::UfNaoInformada => "UF não informada"@,
            WebServicesBuilderError::AmbienteNaoInformado => "Ambiente não informado"@,
            WebServicesBuilderError::ServicoNaoInformado => "Serviço não informado"@,
            WebServicesBuilderError::ModeloNaoInformado => "Modelo de NF não informado"@,
            WebServicesBuilderError::UfSemWebServiceConsultaCadastro =>
                "UF não possui webservice para consulta de cadastro"@,
            WebServicesBuilderError::WebServiceNaoEncontrado { uf, servico } =>
                "WebService não encontrado para "@ + uf.spec_as_str() + ": "@ + servico.spec_nome(),
        }
    }

    pub fn mensagem(&self) -> (r: String)
        ensures
            r@ == self.spec_mensagem(),
    {
        match *self {
            WebServicesBuilderError::TomlNaoInformado => String::from_str("TOML de webservices não informado"),
            WebServicesBuilderError::UfNaoInformada => String::from_str("UF não informada"),
            WebServicesBuilderError::AmbienteNaoInformado => String::from_str("Ambiente não informado"),
            WebServicesBuilderError::ServicoNaoInformado => String::from_str("Serviço não informado"),
            WebServicesBuilderError::ModeloNaoInformado => String::from_str("Modelo de NF não informado"),
            WebServicesBuilderError::UfSemWebServiceConsultaCadastro => String::from_str(
                "UF não possui webservice para consulta de cadastro",
            ),
            WebServicesBuilderError::WebServiceNaoEncontrado { uf, servico } => {
                let s = String::from_str("WebService não encontrado para ");
                let s = s.concat(uf.as_str());
                let s = s.concat(": ");
                s.concat(servico.nome())
            },
        }
    }
}

/// Units whose authority publishes no registration-lookup service.
pub open spec fn uf_sem_consulta_cadastro(uf: Uf) -> bool {
    match uf {
        Uf::Pa | Uf::Am | Uf::Al | Uf::Ap | Uf::Df | Uf::Pi | Uf::Rj | Uf::Ro | Uf::Se | Uf::To => true,
        _ => false,
    }
}

/// Operations that are always served by the national environment.
pub open spec fn servico_nacional(servico: Servico) -> bool {
    servico == Servico::DistribuicaoDfe || servico == Servico::Manifestacao || servico
        == Servico::Epec
}

/// Operations whose entry is a plain URL rather than a web service.
pub open spec fn servico_apenas_url(servico: Servico) -> bool {
    servico == Servico::UrlConsultaNfce || servico == Servico::UrlQrCode
}

/// Units served by the SVRS cluster in contingency; the others go to SVC-AN.
pub open spec fn uf_contingencia_svrs(uf: Uf) -> bool {
    match uf {
        Uf::Go | Uf::Am | Uf::Ba | Uf::Ce | Uf::Ma | Uf::Ms | Uf::Mt | Uf::Pa | Uf::Pe | Uf::Pi
        | Uf::Pr => true,
        _ => false,
    }
}

/// The section named after model, unit and environment: `{model}_{uf}_{env}`.
pub open spec fn secao_padrao(modelo: Modelo, uf: Uf, ambiente: Ambiente) -> Seq<char> {
    modelo.spec_as_str() + "_"@ + uf.spec_as_str() + "_"@ + ambiente.spec_as_str()
}

/// The national section of a model: `{model}_AN_H` in staging, `{model}_AN_P` in production.
pub open spec fn secao_nacional(modelo: Modelo, ambiente: Ambiente) -> Seq<char> {
    match ambiente {
        Ambiente::Homologacao => modelo.spec_as_str() + "_AN_H"@,
        Ambiente::Producao => modelo.spec_as_str() + "_AN_P"@,
    }
}

/// The contingency section of a unit: its shared cluster.
pub open spec fn secao_contingencia(modelo: Modelo, uf: Uf, ambiente: Ambiente) -> Seq<char> {
    if uf_contingencia_svrs(uf) {
        modelo.spec_as_str() + "_SVRS_"@ + ambiente.spec_as_str()
    } else {
        modelo.spec_as_str() + "_SVC-AN_"@ + ambiente.spec_as_str()
    }
}

/// The section in which the endpoint of an operation is looked up, by
/// precedence: national operations, then the `Usar` redirect of the default
/// section, then the contingency cluster, then the default section.
pub open spec fn secao_resolvida(
    ws: Map<(Seq<char>, Seq<char>), Seq<char>>,
    modelo: Modelo,
    uf: Uf,
    ambiente: Ambiente,
    servico: Servico,
    contingencia: bool,
) -> Seq<char> {
    let padrao = secao_padrao(modelo, uf, ambiente);
    let usar = consulta(ws, padrao, "Usar"@);
    if servico_nacional(servico) {
        secao_nacional(modelo, ambiente)
    } else if !servico_apenas_url(servico) && usar is Some {
        usar->0
    } else if contingencia {
        secao_contingencia(modelo, uf, ambiente)
    } else {
        padrao
    }
}

/// The endpoint of an operation, or why there is none.
pub open spec fn resolver(
    ws: Map<(Seq<char>, Seq<char>), Seq<char>>,
    modelo: Modelo,
    uf: Uf,
    ambiente: Ambiente,
    servico: Servico,
    contingencia: bool,
) -> Result<Seq<char>, WebServicesBuilderError> {
    if servico == Servico::ConsultaCadastro && uf_sem_consulta_cadastro(uf) {
        Err(WebServicesBuilderError::UfSemWebServiceConsultaCadastro)
    } else {
        endpoint_na_secao(
            ws,
            secao_resolvida(ws, modelo, uf, ambiente, servico, contingencia),
            uf,
            servico,
        )
    }
}

/// The endpoint of an operation stored in section `secao`, or `WebServiceNaoEncontrado`.
pub open spec fn endpoint_na_secao(
    ws: Map<(Seq<char>, Seq<char>), Seq<char>>,
    secao: Seq<char>,
    uf: Uf,
    servico: Servico,
) -> Result<Seq<char>, WebServicesBuilderError> {
    match consulta(ws, secao, servico.spec_chave()) {
        Some(url) => Ok(url),
        None => Err(WebServicesBuilderError::WebServiceNaoEncontrado { uf, servico }),
    }
}

fn e_uf_sem_consulta_cadastro(uf: Uf) -> (r: bool)
    ensures
        r == uf_sem_consulta_cadastro(uf),
{
    match uf {
        Uf::Pa | Uf::Am | Uf::Al | Uf::Ap | Uf::Df | Uf::Pi | Uf::Rj | Uf::Ro | Uf::Se | Uf::To => true,
        _ => false,
    }
}

fn e_uf_contingencia_svrs(uf: Uf) -> (r: bool)
    ensures
        r == uf_contingencia_svrs(uf),
{
    match uf {
        Uf::Go | Uf::Am | Uf::Ba | Uf::Ce | Uf::Ma | Uf::Ms | Uf::Mt | Uf::Pa | Uf::Pe | Uf::Pi
        | Uf::Pr => true,
        _ => false,
    }
}

/// Text `a` followed by `b` and `c`.
fn junta3(a: &str, b: &str, c: &str) -> (r: String)
    ensures
        r@ == a@ + b@ + c@,
{
    String::from_str(a).concat(b).concat(c)
}

/// Settings of an endpoint resolution, filled field by field.
#[derive(Clone, Debug)]
pub struct WebServicesBuilder {
    toml: Option<WebServices>,
    modelo: Option<Modelo>,
    uf: Option<Uf>,
    ambiente: Option<Ambiente>,
    servico: Option<Servico>,
    contingencia: bool,
}

impl WebServicesBuilder {
    /// The model of the store set, if one was.
    pub closed spec fn spec_toml(&self) -> Option<Map<(Seq<char>, Seq<char>), Seq<char>>> {
        match self.toml {
            Some(t) => Some(t@),
            None => None,
        }
    }

    pub closed spec fn spec_modelo(&self) -> Option<Modelo> {
        self.modelo
    }

    pub closed spec fn spec_uf(&self) -> Option<Uf> {
        self.uf
    }

    pub closed spec fn spec_ambiente(&self) -> Option<Ambiente> {
        self.ambiente
    }

    pub closed spec fn spec_servico(&self) -> Option<Servico> {
        self.servico
    }

    pub closed spec fn spec_contingencia(&self) -> bool {
        self.contingencia
    }

    /// What `build` yields for these settings: the first missing setting, in
    /// the order store, model, unit, environment, operation; else the resolution.
    pub open spec fn resultado(&self) -> Result<Seq<char>, WebServicesBuilderError> {
        if self.spec_toml() is None {
            Err(WebServicesBuilderError::TomlNaoInformado)
        } else if self.spec_modelo() is None {
            Err(WebServicesBuilderError::ModeloNaoInformado)
        } else if self.spec_uf() is None {
            Err(WebServicesBuilderError::UfNaoInformada)
        } else if self.spec_ambiente() is None {
            Err(WebServicesBuilderError::AmbienteNaoInformado)
        } else if self.spec_servico() is None {
            Err(WebServicesBuilderError::ServicoNaoInformado)
        } else {
            resolver(
                self.spec_toml()->0,
                self.spec_modelo()->0,
                self.spec_uf()->0,
                self.spec_ambiente()->0,
                self.spec_servico()->0,
                self.spec_contingencia(),
            )
        }
    }

    /// Settings with nothing set and contingency off.
    pub fn new() -> (r: WebServicesBuilder)
        ensures
            r.spec_toml() is None,
            r.spec_modelo() is None,
            r.spec_uf() is None,
            r.spec_ambiente() is None,
            r.spec_servico() is None,
            !r.spec_contingencia(),
    {
        WebServicesBuilder {
            toml: None,
            modelo: None,
            uf: None,
            ambiente: None,
            servico: None,
            contingencia: false,
        }
    }

    pub fn set_toml(self, toml: WebServices) -> (r: WebServicesBuilder)
        ensures
            r.spec_toml() == Some(toml@),
            r.spec_modelo() == self.spec_modelo(),
            r.spec_uf() == self.spec_uf(),
            r.spec_ambiente() == self.spec_ambiente(),
            r.spec_servico() == self.spec_servico(),
            r.spec_contingencia() == self.spec_contingencia(),
    {
        WebServicesBuilder { toml: Some(toml), ..self }
    }

    pub fn set_modelo(self, modelo: Modelo) -> (r: WebServicesBuilder)
        ensures
            r.spec_toml() == self.spec_toml(),
            r.spec_modelo() == Some(modelo),
            r.spec_uf() == self.spec_uf(),
            r.spec_ambiente() == self.spec_ambiente(),
            r.spec_servico() == self.spec_servico(),
            r.spec_contingencia() == self.spec_contingencia(),
    {
        WebServicesBuilder { modelo: Some(modelo), ..self }
    }

    pub fn set_uf(self, uf: Uf) -> (r: WebServicesBuilder)
        ensures
            r.spec_toml() == self.spec_toml(),
            r.spec_modelo() == self.spec_modelo(),
            r.spec_uf() == Some(uf),
            r.spec_ambiente() == self.spec_ambiente(),
            r.spec_servico() == self.spec_servico(),
            r.spec_contingencia() == self.spec_contingencia(),
    {
        WebServicesBuilder { uf: Some(uf), ..self }
    }

    pub fn set_ambiente(self, ambiente: Ambiente) -> (r: WebServicesBuilder)
        ensures
            r.spec_toml() == self.spec_toml(),
            r.spec_modelo() == self.spec_modelo(),
            r.spec_uf() == self.spec_uf(),
            r.spec_ambiente() == Some(ambiente),
            r.spec_servico() == self.spec_servico(),
            r.spec_contingencia() == self.spec_contingencia(),
    {
        WebServicesBuilder { ambiente: Some(ambiente), ..self }
    }

    pub fn set_servico(self, servico: Servico) -> (r: WebServicesBuilder)
        ensures
            r.spec_toml() == self.spec_toml(),
            r.spec_modelo() == self.spec_modelo(),
            r.spec_uf() == self.spec_uf(),
            r.spec_ambiente() == self.spec_ambiente(),
            r.spec_servico() == Some(servico),
            r.spec_contingencia() == self.spec_contingencia(),
    {
        WebServicesBuilder { servico: Some(servico), ..self }
    }

    pub fn set_contingencia(self, contingencia: bool) -> (r: WebServicesBuilder)
        ensures
            r.spec_toml() == self.spec_toml(),
            r.spec_modelo() == self.spec_modelo(),
            r.spec_uf() == self.spec_uf(),
            r.spec_ambiente() == self.spec_ambiente(),
            r.spec_servico() == self.spec_servico(),
            r.spec_contingencia() == contingencia,
    {
        WebServicesBuilder { contingencia, ..self }
    }

    /// Resolves the endpoint URL of the configured operation.
    pub fn build(self) -> (r: Result<String, WebServicesBuilderError>)
        ensures
            match r {
                Ok(url) => self.resultado() == Ok::<Seq<char>, WebServicesBuilderError>(url@),
                Err(e) => self.resultado() == Err::<Seq<char>, WebServicesBuilderError>(e),
            },
    {
        let toml = match &self.toml {
            Some(t) => t,
            None => return Err(WebServicesBuilderError::TomlNaoInformado),
        };
        let modelo = match self.modelo {
            Some(m) => m,
            None => return Err(WebServicesBuilderError::ModeloNaoInformado),
        };
        let uf = match self.uf {
            Some(u) => u,
            None => return Err(WebServicesBuilderError::UfNaoInformada),
        };
        let ambiente = match self.ambiente {
            Some(a) => a,
            None => return Err(WebServicesBuilderError::AmbienteNaoInformado),
        };
        let servico = match self.servico {
            Some(s) => s,
            None => return Err(WebServicesBuilderError::ServicoNaoInformado),
        };
        let padrao = junta3(modelo.as_str(), "_", uf.as_str()).concat("_").concat(ambiente.as_str());
        let usar = toml.get_from(padrao.as_str(), "Usar");
        if servico == Servico::ConsultaCadastro && e_uf_sem_consulta_cadastro(uf) {
            return Err(WebServicesBuilderError::UfSemWebServiceConsultaCadastro);
        }
        let secao = if servico == Servico::DistribuicaoDfe || servico == Servico::Manifestacao
            || servico == Servico::Epec {
            match ambiente {
                Ambiente::Homologacao => String::from_str(modelo.as_str()).concat("_AN_H"),
                Ambiente::Producao => String::from_str(modelo.as_str()).concat("_AN_P"),
            }
        } else if servico != Servico::UrlConsultaNfce && servico != Servico::UrlQrCode
            && usar.is_some() {
            String::from_str(usar.unwrap())
        } else if self.contingencia {
            if e_uf_contingencia_svrs(uf) {
                junta3(modelo.as_str(), "_SVRS_", ambiente.as_str())
            } else {
                junta3(modelo.as_str(), "_SVC-AN_", ambiente.as_str())
            }
        } else {
            padrao
        };
        let chave = servico.chave();
        match toml.get_from(secao.as_str(), chave.as_str()) {
            Some(url) => Ok(String::from_str(url)),
            None => Err(WebServicesBuilderError::WebServiceNaoEncontrado { uf, servico }),
        }
    }
}

/// A registration lookup fails with `UfSemWebServiceConsultaCadastro` exactly
/// in the ten units PA, AM, AL, AP, DF, PI, RJ, RO, SE and TO, whatever the
/// store, model, environment and contingency flag; in every other unit it is
/// the lookup of the operation's key in the resolved section.
pub proof fn lei_consulta_cadastro(
    ws: Map<(Seq<char>, Seq<char>), Seq<char>>,
    modelo: Modelo,
    uf: Uf,
    ambiente: Ambiente,
    contingencia: bool,
)
    ensures
        uf_sem_consulta_cadastro(uf) <==> (uf == Uf::Pa || uf == Uf::Am || uf == Uf::Al || uf
            == Uf::Ap || uf == Uf::Df || uf == Uf::Pi || uf == Uf::Rj || uf == Uf::Ro || uf
            == Uf::Se || uf == Uf::To),
        uf_sem_consulta_cadastro(uf) ==> resolver(
            ws,
            modelo,
            uf,
            ambiente,
            Servico::ConsultaCadastro,
            contingencia,
        ) == Err::<Seq<char>, WebServicesBuilderError>(
            WebServicesBuilderError::UfSemWebServiceConsultaCadastro,
        ),
        !uf_sem_consulta_cadastro(uf) ==> resolver(
            ws,
            modelo,
            uf,
            ambiente,
            Servico::ConsultaCadastro,
            contingencia,
        ) == endpoint_na_secao(
            ws,
            secao_resolvida(ws, modelo, uf, ambiente, Servico::ConsultaCadastro, contingencia),
            uf,
            Servico::ConsultaCadastro,
        ),
{
}

/// The national operations (bulk distribution, manifestation, EPEC) are
/// looked up in `{model}_AN_H` in staging and `{model}_AN_P` in production,
/// whatever the unit, the contingency flag or any `Usar` redirect in the store.
pub proof fn lei_servico_nacional(
    ws: Map<(Seq<char>, Seq<char>), Seq<char>>,
    modelo: Modelo,
    uf: Uf,
    ambiente: Ambiente,
    servico: Servico,
    contingencia: bool,
)
    requires
        servico_nacional(servico),
    ensures
        ambiente == Ambiente::Homologacao ==> secao_resolvida(
            ws,
            modelo,
            uf,
            ambiente,
            servico,
            contingencia,
        ) == modelo.spec_as_str() + "_AN_H"@,
        ambiente == Ambiente::Producao ==> secao_resolvida(
            ws,
            modelo,
            uf,
            ambiente,
            servico,
            contingencia,
        ) == modelo.spec_as_str() + "_AN_P"@,
        resolver(ws, modelo, uf, ambiente, servico, contingencia) == endpoint_na_secao(
            ws,
            secao_nacional(modelo, ambiente),
            uf,
            servico,
        ),
{
}

/// When the default section holds a `Usar` value and the operation is
/// neither national, nor a registration lookup in an excluded unit, nor one
/// of the two URL-only entries, the section looked up is that value exactly,
/// with or without contingency.
pub proof fn lei_redirecionamento_usar(
    ws: Map<(Seq<char>, Seq<char>), Seq<char>>,
    modelo: Modelo,
    uf: Uf,
    ambiente: Ambiente,
    servico: Servico,
    contingencia: bool,
    usar: Seq<char>,
)
    requires
        consulta(ws, secao_padrao(modelo, uf, ambiente), "Usar"@) == Some(usar),
        !servico_nacional(servico),
        !(servico == Servico::ConsultaCadastro && uf_sem_consulta_cadastro(uf)),
        !servico_apenas_url(servico),
    ensures
        secao_resolvida(ws, modelo, uf, ambiente, servico, contingencia) == usar,
        resolver(ws, modelo, uf, ambiente, servico, contingencia) == endpoint_na_secao(
            ws,
            usar,
            uf,
            servico,
        ),
{
}

/// In contingency, when neither the national rule nor a `Usar` redirect
/// applies, the eleven units GO, AM, BA, CE, MA, MS, MT, PA, PE, PI and PR
/// are looked up in `{model}_SVRS_{env}` and all others in `{model}_SVC-AN_{env}`.
pub proof fn lei_contingencia(
    ws: Map<(Seq<char>, Seq<char>), Seq<char>>,
    modelo: Modelo,
    uf: Uf,
    ambiente: Ambiente,
    servico: Servico,
)
    requires
        !servico_nacional(servico),
        servico_apenas_url(servico) || consulta(ws, secao_padrao(modelo, uf, ambiente), "Usar"@)
            is None,
    ensures
        uf_contingencia_svrs(uf) <==> (uf == Uf::Go || uf == Uf::Am || uf == Uf::Ba || uf
            == Uf::Ce || uf == Uf::Ma || uf == Uf::Ms || uf == Uf::Mt || uf == Uf::Pa || uf
            == Uf::Pe || uf == Uf::Pi || uf == Uf::Pr),
        uf_contingencia_svrs(uf) ==> secao_resolvida(ws, modelo, uf, ambiente, servico, true)
            == modelo.spec_as_str() + "_SVRS_"@ + ambiente.spec_as_str(),
        !uf_contingencia_svrs(uf) ==> secao_resolvida(ws, modelo, uf, ambiente, servico, true)
            == modelo.spec_as_str() + "_SVC-AN_"@ + ambiente.spec_as_str(),
{
}

} // verus!
