//! Structural checks on identifiers, made before any request is prepared.
use vstd::prelude::*;

use crate::tipos::{Ambiente, Uf};
use crate::texto::upper_of;

verus! {

/// Number of digits of a document access key.
pub const TAMANHO_CHAVE: usize = 44;

/// Number of digits of a batch receipt number.
pub const TAMANHO_RECIBO: usize = 15;

/// An ASCII decimal digit.
pub open spec fn e_digito(c: char) -> bool {
    '0' <= c && c <= '9'
}

/// `s` is exactly `n` ASCII decimal digits.
pub open spec fn so_digitos(s: Seq<char>, n: nat) -> bool {
    s.len() == n && forall|i: int| 0 <= i < s.len() ==> e_digito(#[trigger] s[i])
}

/// A document access key: exactly 44 ASCII digits.
pub open spec fn chave_valida(s: Seq<char>) -> bool {
    so_digitos(s, TAMANHO_CHAVE as nat)
}

/// A receipt number: exactly 15 ASCII digits.
pub open spec fn recibo_valido(s: Seq<char>) -> bool {
    so_digitos(s, TAMANHO_RECIBO as nat)
}

fn tem_digitos(s: &str, n: usize) -> (r: bool)
    ensures
        r == so_digitos(s@, n as nat),
{
    if s.unicode_len() != n {
        return false;
    }
    let mut i: usize = 0;
    while i < n
        invariant
            s@.len() == n,
            i <= n,
            forall|j: int| 0 <= j < i ==> e_digito(#[trigger] s@[j]),
        decreases n - i,
    {
        let c = s.get_char(i);
        if !('0' <= c && c <= '9') {
            return false;
        }
        i = i + 1;
    }
    true
}

/// Checks a document access key against the rule `^[0-9]{44}$` of the
/// authority's schema.
pub fn validar_chave(chave: &str) -> (r: bool)
    ensures
        r == chave_valida(chave@),
{
    tem_digitos(chave, TAMANHO_CHAVE)
}

/// Checks a receipt number against the rule `^[0-9]{15}$` of the authority's schema.
pub fn validar_recibo(recibo: &str) -> (r: bool)
    ensures
        r == recibo_valido(recibo@),
{
    tem_digitos(recibo, TAMANHO_RECIBO)
}

/// Whether `uf` names a unit, in any letter case.
pub fn validar_uf(uf: &str) -> (r: bool)
    ensures
        r == Uf::spec_from_uppercase(upper_of(uf@)) is Some,
{
    Uf::from_str(uf).is_some()
}

/// Whether the first character of `ambiente` names an environment.
pub fn validar_ambiente(ambiente: &str) -> (r: bool)
    ensures
        r == Ambiente::spec_from_str(ambiente@) is Some,
{
    Ambiente::from_str(ambiente).is_some()
}

} // verus!
