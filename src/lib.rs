//! Client library for the SEFAZ family of fiscal-document web services:
//! endpoint resolution, SOAP envelope construction and request preparation.
//! Sending a prepared request is the transport's part.

pub mod dfe;
pub mod soap;
pub mod soap12;
pub mod texto;
pub mod tipos;
pub mod util;
pub mod webservices;

pub use crate::dfe::{Dfe, DfeError, Requisicao, Xml};
pub use crate::soap12::{
    format_action, format_cons_cad, format_cons_reci, format_cons_sit, format_cons_stat_serv,
    format_dados_msg, format_envelope, format_xml,
};
pub use crate::tipos::{Ambiente, Documento, Modelo, Servico, TipoDocumento, Uf, VersaoUrl};
pub use crate::util::{validar_ambiente, validar_chave, validar_recibo, validar_uf};
pub use crate::webservices::{WebServices, WebServicesBuilder, WebServicesBuilderError};
