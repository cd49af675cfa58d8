use vstd::prelude::*;

use crate::texto::{lower_of, str_eq, to_lower, to_upper, upper_of};

verus! {

/// Schema version that a web-service operation is published under.
#[derive(Clone, Copy, Debug, Eq, Hash, Ord, PartialEq, PartialOrd, Structural)]
pub enum VersaoUrl {
    Ver100,
    Ver101,
    Ver200,
    Ver400,
}

impl VersaoUrl {
    pub open spec fn spec_as_str(self) -> Seq<char> {
        match self {
            VersaoUrl::Ver100 => "1.00"@,
            VersaoUrl::Ver101 => "1.01"@,
            VersaoUrl::Ver200 => "2.00"@,
            VersaoUrl::Ver400 => "4.00"@,
        }
    }

    /// The version tag as written in request bodies and configuration keys.
    pub fn as_str(&self) -> (r: &'static str)
        ensures
            r@ == self.spec_as_str(),
    {
        match *self {
            VersaoUrl::Ver100 => "1.00",
            VersaoUrl::Ver101 => "1.01",
            VersaoUrl::Ver200 => "2.00",
            VersaoUrl::Ver400 => "4.00",
        }
    }
}

/// A federative unit: the regional tax authority that a request is addressed to.
#[derive(Clone, Copy, Debug, Eq, Hash, Ord, PartialEq, PartialOrd, Structural)]
pub enum Uf {
    Ro,
    Ac,
    Am,
    Rr,
    Pa,
    Ap,
    To,
    Ma,
    Pi,
    Ce,
    Rn,
    Pb,
    Pe,
    Al,
    Se,
    Ba,
    Mg,
    Es,
    Rj,
    Sp,
    Pr,
    Sc,
    Rs,
    Ms,
    Mt,
    Go,
    Df,
}
impl Uf {
    /// The two-letter code of the unit.
    pub open spec fn spec_as_str(self) -> Seq<char> {
        match self {
            Uf::Ro => "RO"@,
            Uf::Ac => "AC"@,
            Uf::Am => "AM"@,
            Uf::Rr => "RR"@,
            Uf::Pa => "PA"@,
            Uf::Ap => "AP"@,
            Uf::To => "TO"@,
            Uf::Ma => "MA"@,
            Uf::Pi => "PI"@,
            Uf::Ce => "CE"@,
            Uf::Rn => "RN"@,
            Uf::Pb => "PB"@,
            Uf::Pe => "PE"@,
            Uf::Al => "AL"@,
            Uf::Se => "SE"@,
            Uf::Ba => "BA"@,
            Uf::Mg => "MG"@,
            Uf::Es => "ES"@,
            Uf::Rj => "RJ"@,
            Uf::Sp => "SP"@,
            Uf::Pr => "PR"@,
            Uf::Sc => "SC"@,
            Uf::Rs => "RS"@,
            Uf::Ms => "MS"@,
            Uf::Mt => "MT"@,
            Uf::Go => "GO"@,
            Uf::Df => "DF"@,
        }
    }

    /// The numeric code (`cUF`) of the unit.
    pub open spec fn spec_cuf(self) -> u8 {
        match self {
            Uf::Ro => 11,
            Uf::Ac => 12,
            Uf::Am => 13,
            Uf::Rr => 14,
            Uf::Pa => 15,
            Uf::Ap => 16,
            Uf::To => 17,
            Uf::Ma => 21,
            Uf::Pi => 22,
            Uf::Ce => 23,
            Uf::Rn => 24,
            Uf::Pb => 25,
            Uf::Pe => 26,
            Uf::Al => 27,
            Uf::Se => 28,
            Uf::Ba => 29,
            Uf::Mg => 31,
            Uf::Es => 32,
            Uf::Rj => 33,
            Uf::Sp => 35,
            Uf::Pr => 41,
            Uf::Sc => 42,
            Uf::Rs => 43,
            Uf::Ms => 50,
            Uf::Mt => 51,
            Uf::Go => 52,
            Uf::Df => 53,
        }
    }

    /// The unit whose two-letter code is exactly `s`.
    pub open spec fn spec_from_uppercase(s: Seq<char>) -> Option<Uf> {
        if s == "RO"@ {
            Some(Uf::Ro)
        } else if s == "AC"@ {
            Some(Uf::Ac)
        } else if s == "AM"@ {
            Some(Uf::Am)
        } else if s == "RR"@ {
            Some(Uf::Rr)
        } else if s == "PA"@ {
            Some(Uf::Pa)
        } else if s == "AP"@ {
            Some(Uf::Ap)
        } else if s == "TO"@ {
            Some(Uf::To)
        } else if s == "MA"@ {
            Some(Uf::Ma)
        } else if s == "PI"@ {
            Some(Uf::Pi)
        } else if s == "CE"@ {
            Some(Uf::Ce)
        } else if s == "RN"@ {
            Some(Uf::Rn)
        } else if s == "PB"@ {
            Some(Uf::Pb)
        } else if s == "PE"@ {
            Some(Uf::Pe)
        } else if s == "AL"@ {
            Some(Uf::Al)
        } else if s == "SE"@ {
            Some(Uf::Se)
        } else if s == "BA"@ {
            Some(Uf::Ba)
        } else if s == "MG"@ {
            Some(Uf::Mg)
        } else if s == "ES"@ {
            Some(Uf::Es)
        } else if s == "RJ"@ {
            Some(Uf::Rj)
        } else if s == "SP"@ {
            Some(Uf::Sp)
        } else if s == "PR"@ {
            Some(Uf::Pr)
        } else if s == "SC"@ {
            Some(Uf::Sc)
        } else if s == "RS"@ {
            Some(Uf::Rs)
        } else if s == "MS"@ {
            Some(Uf::Ms)
        } else if s == "MT"@ {
            Some(Uf::Mt)
        } else if s == "GO"@ {
            Some(Uf::Go)
        } else if s == "DF"@ {
            Some(Uf::Df)
        } else {
            None
        }
    }

    /// The unit whose two-letter code is exactly `codigo` (upper case).
    pub fn from_uppercase(codigo: &str) -> (r: Option<Uf>)
        ensures
            r == Uf::spec_from_uppercase(codigo@),
    {
        if str_eq(codigo, "RO") {
            Some(Uf::Ro)
        } else if str_eq(codigo, "AC") {
            Some(Uf::Ac)
        } else if str_eq(codigo, "AM") {
            Some(Uf::Am)
        } else if str_eq(codigo, "RR") {
            Some(Uf::Rr)
        } else if str_eq(codigo, "PA") {
            Some(Uf::Pa)
        } else if str_eq(codigo, "AP") {
            Some(Uf::Ap)
        } else if str_eq(codigo, "TO") {
            Some(Uf::To)
        } else if str_eq(codigo, "MA") {
            Some(Uf::Ma)
        } else if str_eq(codigo, "PI") {
            Some(Uf::Pi)
        } else if str_eq(codigo, "CE") {
            Some(Uf::Ce)
        } else if str_eq(codigo, "RN") {
            Some(Uf::Rn)
        } else if str_eq(codigo, "PB") {
            Some(Uf::Pb)
        } else if str_eq(codigo, "PE") {
            Some(Uf::Pe)
        } else if str_eq(codigo, "AL") {
            Some(Uf::Al)
        } else if str_eq(codigo, "SE") {
            Some(Uf::Se)
        } else if str_eq(codigo, "BA") {
            Some(Uf::Ba)
        } else if str_eq(codigo, "MG") {
            Some(Uf::Mg)
        } else if str_eq(codigo, "ES") {
            Some(Uf::Es)
        } else if str_eq(codigo, "RJ") {
            Some(Uf::Rj)
        } else if str_eq(codigo, "SP") {
            Some(Uf::Sp)
        } else if str_eq(codigo, "PR") {
            Some(Uf::Pr)
        } else if str_eq(codigo, "SC") {
            Some(Uf::Sc)
        } else if str_eq(codigo, "RS") {
            Some(Uf::Rs)
        } else if str_eq(codigo, "MS") {
            Some(Uf::Ms)
        } else if str_eq(codigo, "MT") {
            Some(Uf::Mt)
        } else if str_eq(codigo, "GO") {
            Some(Uf::Go)
        } else if str_eq(codigo, "DF") {
            Some(Uf::Df)
        } else {
            None
        }
    }

    /// Decodes a unit from its two-letter code, in any letter case.
    pub fn from_str(uf: &str) -> (r: Option<Uf>)
        ensures
            r == Uf::spec_from_uppercase(upper_of(uf@)),
    {
        let maiusculo = to_upper(uf);
        Uf::from_uppercase(maiusculo.as_str())
    }

    /// The two-letter code of the unit.
    pub fn as_str(&self) -> (r: &'static str)
        ensures
            r@ == self.spec_as_str(),
    {
        match *self {
            Uf::Ro => "RO",
            Uf::Ac => "AC",
            Uf::Am => "AM",
            Uf::Rr => "RR",
            Uf::Pa => "PA",
            Uf::Ap => "AP",
            Uf::To => "TO",
            Uf::Ma => "MA",
            Uf::Pi => "PI",
            Uf::Ce => "CE",
            Uf::Rn => "RN",
            Uf::Pb => "PB",
            Uf::Pe => "PE",
            Uf::Al => "AL",
            Uf::Se => "SE",
            Uf::Ba => "BA",
            Uf::Mg => "MG",
            Uf::Es => "ES",
            Uf::Rj => "RJ",
            Uf::Sp => "SP",
            Uf::Pr => "PR",
            Uf::Sc => "SC",
            Uf::Rs => "RS",
            Uf::Ms => "MS",
            Uf::Mt => "MT",
            Uf::Go => "GO",
            Uf::Df => "DF",
        }
    }

    /// The numeric code (`cUF`) of the unit, as written in request bodies.
    pub fn cuf(&self) -> (r: u8)
        ensures
            r == self.spec_cuf(),
    {
        match *self {
            Uf::Ro => 11,
            Uf::Ac => 12,
            Uf::Am => 13,
            Uf::Rr => 14,
            Uf::Pa => 15,
            Uf::Ap => 16,
            Uf::To => 17,
            Uf::Ma => 21,
            Uf::Pi => 22,
            Uf::Ce => 23,
            Uf::Rn => 24,
            Uf::Pb => 25,
            Uf::Pe => 26,
            Uf::Al => 27,
            Uf::Se => 28,
            Uf::Ba => 29,
            Uf::Mg => 31,
            Uf::Es => 32,
            Uf::Rj => 33,
            Uf::Sp => 35,
            Uf::Pr => 41,
            Uf::Sc => 42,
            Uf::Rs => 43,
            Uf::Ms => 50,
            Uf::Mt => 51,
            Uf::Go => 52,
            Uf::Df => 53,
        }
    }
}

/// Deployment target of the remote service.
#[derive(Clone, Copy, Debug, Eq, Hash, Ord, PartialEq, PartialOrd, Structural)]
pub enum Ambiente {
    Producao,
    Homologacao,
}

impl Ambiente {
    /// The one-letter code used in configuration section names.
    pub open spec fn spec_as_str(self) -> Seq<char> {
        match self {
            Ambiente::Producao => "P"@,
            Ambiente::Homologacao => "H"@,
        }
    }

    /// The numeric flag (`tpAmb`) written in request bodies.
    pub open spec fn spec_tp_amb(self) -> u8 {
        match self {
            Ambiente::Producao => 1,
            Ambiente::Homologacao => 2,
        }
    }

    /// The environment named by the first character of `s`, in either case.
    pub open spec fn spec_from_str(s: Seq<char>) -> Option<Ambiente> {
        if s.len() == 0 {
            None
        } else if s[0] == 'P' || s[0] == 'p' {
            Some(Ambiente::Producao)
        } else if s[0] == 'H' || s[0] == 'h' {
            Some(Ambiente::Homologacao)
        } else {
            None
        }
    }

    pub fn as_str(&self) -> (r: &'static str)
        ensures
            r@ == self.spec_as_str(),
    {
        match *self {
            Ambiente::Producao => "P",
            Ambiente::Homologacao => "H",
        }
    }

    /// Decodes an environment; only the first character of the text is read.
    pub fn from_str(ambiente: &str) -> (r: Option<Ambiente>)
        ensures
            r == Ambiente::spec_from_str(ambiente@),
    {
        if ambiente.unicode_len() == 0 {
            return None;
        }
        let c = ambiente.get_char(0);
        if c == 'P' || c == 'p' {
            Some(Ambiente::Producao)
        } else if c == 'H' || c == 'h' {
            Some(Ambiente::Homologacao)
        } else {
            None
        }
    }

    pub fn tp_amb(&self) -> (r: u8)
        ensures
            r == self.spec_tp_amb(),
    {
        match *self {
            Ambiente::Producao => 1,
            Ambiente::Homologacao => 2,
        }
    }
}

/// Fiscal-document model.
#[derive(Clone, Copy, Debug, Eq, Hash, Ord, PartialEq, PartialOrd, Structural)]
pub enum Modelo {
    Nfe,
    Nfce,
}

impl Modelo {
    /// The display code used in configuration section names.
    pub open spec fn spec_as_str(self) -> Seq<char> {
        match self {
            Modelo::Nfe => "NFe"@,
            Modelo::Nfce => "NFCe"@,
        }
    }

    pub open spec fn spec_codigo(self) -> u8 {
        match self {
            Modelo::Nfe => 55,
            Modelo::Nfce => 65,
        }
    }

    /// The model whose lower-case name is exactly `s`.
    pub open spec fn spec_from_lowercase(s: Seq<char>) -> Option<Modelo> {
        if s == "nfe"@ {
            Some(Modelo::Nfe)
        } else if s == "nfce"@ {
            Some(Modelo::Nfce)
        } else {
            None
        }
    }

    /// The model whose lower-case name is exactly `nome`.
    pub fn from_lowercase(nome: &str) -> (r: Option<Modelo>)
        ensures
            r == Modelo::spec_from_lowercase(nome@),
    {
        if str_eq(nome, "nfe") {
            Some(Modelo::Nfe)
        } else if str_eq(nome, "nfce") {
            Some(Modelo::Nfce)
        } else {
            None
        }
    }

    /// Decodes a model from its name, in any letter case.
    pub fn from_str(tipo: &str) -> (r: Option<Modelo>)
        ensures
            r == Modelo::spec_from_lowercase(lower_of(tipo@)),
    {
        let minusculo = to_lower(tipo);
        Modelo::from_lowercase(minusculo.as_str())
    }

    pub fn as_str(&self) -> (r: &'static str)
        ensures
            r@ == self.spec_as_str(),
    {
        match *self {
            Modelo::Nfe => "NFe",
            Modelo::Nfce => "NFCe",
        }
    }

    /// The numeric model code.
    pub fn codigo(&self) -> (r: u8)
        ensures
            r == self.spec_codigo(),
    {
        match *self {
            Modelo::Nfe => 55,
            Modelo::Nfce => 65,
        }
    }
}

/// A business operation of the web-service catalog.
#[derive(Clone, Copy, Debug, Eq, Hash, Ord, PartialEq, PartialOrd, Structural)]
pub enum Servico {
    StatusServico,
    ConsultaProtocolo,
    ConsultaAutorizacao,
    ConsultaCadastro,
    Envio,
    Cce,
    Epec,
    Manifestacao,
    Cancelamento,
    CancelamentoSubstituicao,
    Inutilizacao,
    DistribuicaoDfe,
    UrlQrCode,
    UrlConsultaNfce,
}

impl Servico {
    /// Human-readable name of the operation.
    pub open spec fn spec_nome(self) -> Seq<char> {
        match self {
            Servico::StatusServico => "Status Serviço"@,
            Servico::ConsultaProtocolo => "Consulta protocolo"@,
            Servico::ConsultaAutorizacao => "Consulta Recibo"@,
            Servico::ConsultaCadastro => "Consulta Cadastro"@,
            Servico::Envio => "Envio"@,
            Servico::Cce => "CC-e"@,
            Servico::Epec => "EPEC"@,
            Servico::Manifestacao => "Manifestação"@,
            Servico::Cancelamento => "Cancelamento"@,
            Servico::CancelamentoSubstituicao => "Cancelamento Substituição"@,
            Servico::Inutilizacao => "Inutilização"@,
            Servico::DistribuicaoDfe => "Distribuição DF-e"@,
            Servico::UrlQrCode => "URL QRCode"@,
            Servico::UrlConsultaNfce => "URL Consulta NFC-e"@,
        }
    }

    /// Schema version of the operation.
    pub open spec fn spec_versao_url(self) -> VersaoUrl {
        match self {
            Servico::StatusServico => VersaoUrl::Ver400,
            Servico::ConsultaProtocolo => VersaoUrl::Ver400,
            Servico::ConsultaAutorizacao => VersaoUrl::Ver400,
            Servico::ConsultaCadastro => VersaoUrl::Ver400,
            Servico::Envio => VersaoUrl::Ver400,
            Servico::Cce => VersaoUrl::Ver400,
            Servico::Epec => VersaoUrl::Ver400,
            Servico::Manifestacao => VersaoUrl::Ver400,
            Servico::Cancelamento => VersaoUrl::Ver400,
            Servico::CancelamentoSubstituicao => VersaoUrl::Ver400,
            Servico::Inutilizacao => VersaoUrl::Ver400,
            Servico::DistribuicaoDfe => VersaoUrl::Ver101,
            Servico::UrlQrCode => VersaoUrl::Ver400,
            Servico::UrlConsultaNfce => VersaoUrl::Ver400,
        }
    }

    /// Key under which the operation's endpoint is stored in a configuration section.
    pub open spec fn spec_chave(self) -> Seq<char> {
        match self {
            Servico::StatusServico => "NfeStatusServico_"@ + self.spec_versao_url().spec_as_str(),
            Servico::ConsultaProtocolo => "NfeConsultaProtocolo_"@ + self.spec_versao_url().spec_as_str(),
            Servico::ConsultaAutorizacao => "NFeRetAutorizacao_"@ + self.spec_versao_url().spec_as_str(),
            Servico::ConsultaCadastro => "NfeConsultaCadastro_"@ + self.spec_versao_url().spec_as_str(),
            Servico::Envio => "NfeAutorizacao_"@ + self.spec_versao_url().spec_as_str(),
            Servico::Cce => "RecepcaoEvento_"@ + self.spec_versao_url().spec_as_str(),
            Servico::Epec => "RecepcaoEvento_"@ + self.spec_versao_url().spec_as_str(),
            Servico::Manifestacao => "RecepcaoEvento_"@ + self.spec_versao_url().spec_as_str(),
            Servico::Cancelamento => "RecepcaoEvento_"@ + self.spec_versao_url().spec_as_str(),
            Servico::CancelamentoSubstituicao => "RecepcaoEvento_"@ + self.spec_versao_url().spec_as_str(),
            Servico::Inutilizacao => "NfeInutilizacao_"@ + self.spec_versao_url().spec_as_str(),
            Servico::DistribuicaoDfe => "NFeDistribuicaoDFe_"@ + self.spec_versao_url().spec_as_str(),
            Servico::UrlQrCode => "URL-QRCode"@,
            Servico::UrlConsultaNfce => "URL-ConsultaNFCe"@,
        }
    }

    /// Wire operation name, placed in the SOAP action and message namespace.
    pub open spec fn spec_operacao(self) -> Option<Seq<char>> {
        match self {
            Servico::StatusServico => Some("NFeStatusServico4"@),
            Servico::ConsultaProtocolo => Some("NFeConsultaProtocolo4"@),
            Servico::ConsultaAutorizacao => Some("NFeRetAutorizacao4"@),
            Servico::ConsultaCadastro => Some("CadConsultaCadastro4"@),
            Servico::Envio => Some("NFeAutorizacao4"@),
            Servico::Cce => Some("NFeRecepcaoEvento4"@),
            Servico::Epec => Some("NFeRecepcaoEvento4"@),
            Servico::Manifestacao => Some("RecepcaoEvento"@),
            Servico::Cancelamento => Some("RecepcaoEvento"@),
            Servico::CancelamentoSubstituicao => Some("RecepcaoEvento"@),
            Servico::Inutilizacao => Some("NFeInutilizacao4"@),
            Servico::DistribuicaoDfe => Some("NFeDistribuicaoDFe"@),
            Servico::UrlQrCode => Some("NfeConsultaQR"@),
            Servico::UrlConsultaNfce => None,
        }
    }

    pub fn nome(&self) -> (r: &'static str)
        ensures
            r@ == self.spec_nome(),
    {
        match *self {
            Servico::StatusServico => "Status Serviço",
            Servico::ConsultaProtocolo => "Consulta protocolo",
            Servico::ConsultaAutorizacao => "Consulta Recibo",
            Servico::ConsultaCadastro => "Consulta Cadastro",
            Servico::Envio => "Envio",
            Servico::Cce => "CC-e",
            Servico::Epec => "EPEC",
            Servico::Manifestacao => "Manifestação",
            Servico::Cancelamento => "Cancelamento",
            Servico::CancelamentoSubstituicao => "Cancelamento Substituição",
            Servico::Inutilizacao => "Inutilização",
            Servico::DistribuicaoDfe => "Distribuição DF-e",
            Servico::UrlQrCode => "URL QRCode",
            Servico::UrlConsultaNfce => "URL Consulta NFC-e",
        }
    }

    pub fn chave(&self) -> (r: String)
        ensures
            r@ == self.spec_chave(),
    {
        let ver = self.versao_url();
        match *self {
            Servico::StatusServico => String::from_str("NfeStatusServico_").concat(ver.as_str()),
            Servico::ConsultaProtocolo => String::from_str("NfeConsultaProtocolo_").concat(ver.as_str()),
            Servico::ConsultaAutorizacao => String::from_str("NFeRetAutorizacao_").concat(ver.as_str()),
            Servico::ConsultaCadastro => String::from_str("NfeConsultaCadastro_").concat(ver.as_str()),
            Servico::Envio => String::from_str("NfeAutorizacao_").concat(ver.as_str()),
            Servico::Cce => String::from_str("RecepcaoEvento_").concat(ver.as_str()),
            Servico::Epec => String::from_str("RecepcaoEvento_").concat(ver.as_str()),
            Servico::Manifestacao => String::from_str("RecepcaoEvento_").concat(ver.as_str()),
            Servico::Cancelamento => String::from_str("RecepcaoEvento_").concat(ver.as_str()),
            Servico::CancelamentoSubstituicao => String::from_str("RecepcaoEvento_").concat(ver.as_str()),
            Servico::Inutilizacao => String::from_str("NfeInutilizacao_").concat(ver.as_str()),
            Servico::DistribuicaoDfe => String::from_str("NFeDistribuicaoDFe_").concat(ver.as_str()),
            Servico::UrlQrCode => String::from_str("URL-QRCode"),
            Servico::UrlConsultaNfce => String::from_str("URL-ConsultaNFCe"),
        }
    }

    pub fn operacao(&self) -> (r: Option<&'static str>)
        ensures
            match r {
                Some(o) => self.spec_operacao() == Some(o@),
                None => self.spec_operacao() is None,
            },
    {
        match *self {
            Servico::StatusServico => Some("NFeStatusServico4"),
            Servico::ConsultaProtocolo => Some("NFeConsultaProtocolo4"),
            Servico::ConsultaAutorizacao => Some("NFeRetAutorizacao4"),
            Servico::ConsultaCadastro => Some("CadConsultaCadastro4"),
            Servico::Envio => Some("NFeAutorizacao4"),
            Servico::Cce => Some("NFeRecepcaoEvento4"),
            Servico::Epec => Some("NFeRecepcaoEvento4"),
            Servico::Manifestacao => Some("RecepcaoEvento"),
            Servico::Cancelamento => Some("RecepcaoEvento"),
            Servico::CancelamentoSubstituicao => Some("RecepcaoEvento"),
            Servico::Inutilizacao => Some("NFeInutilizacao4"),
            Servico::DistribuicaoDfe => Some("NFeDistribuicaoDFe"),
            Servico::UrlQrCode => Some("NfeConsultaQR"),
            Servico::UrlConsultaNfce => None,
        }
    }

    pub fn versao_url(&self) -> (r: VersaoUrl)
        ensures
            r == self.spec_versao_url(),
    {
        match *self {
            Servico::StatusServico => VersaoUrl::Ver400,
            Servico::ConsultaProtocolo => VersaoUrl::Ver400,
            Servico::ConsultaAutorizacao => VersaoUrl::Ver400,
            Servico::ConsultaCadastro => VersaoUrl::Ver400,
            Servico::Envio => VersaoUrl::Ver400,
            Servico::Cce => VersaoUrl::Ver400,
            Servico::Epec => VersaoUrl::Ver400,
            Servico::Manifestacao => VersaoUrl::Ver400,
            Servico::Cancelamento => VersaoUrl::Ver400,
            Servico::CancelamentoSubstituicao => VersaoUrl::Ver400,
            Servico::Inutilizacao => VersaoUrl::Ver400,
            Servico::DistribuicaoDfe => VersaoUrl::Ver101,
            Servico::UrlQrCode => VersaoUrl::Ver400,
            Servico::UrlConsultaNfce => VersaoUrl::Ver400,
        }
    }
}

/// Kind of a taxpayer identifier.
#[derive(Clone, Copy, Debug, Eq, Hash, Ord, PartialEq, PartialOrd, Structural)]
pub enum TipoDocumento {
    Cpf,
    Cnpj,
    Ie,
}

impl TipoDocumento {
    /// The element name under which an identifier of this kind is sent.
    pub open spec fn spec_as_str(self) -> Seq<char> {
        match self {
            TipoDocumento::Cpf => "CPF"@,
            TipoDocumento::Cnpj => "CNPJ"@,
            TipoDocumento::Ie => "IE"@,
        }
    }

    pub fn as_str(&self) -> (r: &'static str)
        ensures
            r@ == self.spec_as_str(),
    {
        match *self {
            TipoDocumento::Cpf => "CPF",
            TipoDocumento::Cnpj => "CNPJ",
            TipoDocumento::Ie => "IE",
        }
    }
}

/// A taxpayer identifier: its text and its kind.
#[derive(Clone, Debug, Eq, Hash, Ord, PartialEq, PartialOrd)]
pub struct Documento<'a> {
    conteudo: &'a str,
    tipo: TipoDocumento,
}

impl<'a> Documento<'a> {
    pub closed spec fn spec_conteudo(&self) -> Seq<char> {
        self.conteudo@
    }

    pub closed spec fn spec_tipo(&self) -> TipoDocumento {
        self.tipo
    }

    /// A national (CPF) identifier.
    pub fn from_cpf(cpf: &'a str) -> (r: Documento<'a>)
        ensures
            r.spec_conteudo() == cpf@,
            r.spec_tipo() == TipoDocumento::Cpf,
    {
        Documento { conteudo: cpf, tipo: TipoDocumento::Cpf }
    }

    /// A legal-entity (CNPJ) identifier.
    pub fn from_cnpj(cnpj: &'a str) -> (r: Documento<'a>)
        ensures
            r.spec_conteudo() == cnpj@,
            r.spec_tipo() == TipoDocumento::Cnpj,
    {
        Documento { conteudo: cnpj, tipo: TipoDocumento::Cnpj }
    }

    /// A state-registration (IE) identifier.
    pub fn from_ie(ie: &'a str) -> (r: Documento<'a>)
        ensures
            r.spec_conteudo() == ie@,
            r.spec_tipo() == TipoDocumento::Ie,
    {
        Documento { conteudo: ie, tipo: TipoDocumento::Ie }
    }

    pub fn tipo(&self) -> (r: TipoDocumento)
        ensures
            r == self.spec_tipo(),
    {
        self.tipo
    }

    pub fn as_str(&self) -> (r: &'a str)
        ensures
            r@ == self.spec_conteudo(),
    {
        self.conteudo
    }
}

} // verus!
