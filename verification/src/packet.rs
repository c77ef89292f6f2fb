//! Reading the internet layer of a packet that came out of the tunnel.

use packet_parser::errors::internet::InternetError;
use packet_parser::Internet;
use vstd::prelude::*;

verus! {

/// A parsed internet-layer packet (`packet_parser::Internet`), carried as
/// an opaque value.
#[verifier::external_type_specification]
#[verifier::external_body]
pub struct ExInternet<'a>(Internet<'a>);

/// The parser's reason for refusing a packet
/// (`packet_parser::errors::internet::InternetError`), carried as an opaque
/// value.
#[verifier::external_type_specification]
#[verifier::external_body]
pub struct ExInternetError(InternetError);

/// Whether `packet_parser` recognises `data` as an internet-layer packet
/// (ARP, IPv4, IPv6, Profinet, GOOSE or LLDP).
pub uninterp spec fn is_internet_packet(data: Seq<u8>) -> bool;

/// Parses `data` with `Internet::try_from` of `packet_parser`. Claimed: it
/// succeeds exactly when `data` is recognised (a property of the bytes
/// alone), and an empty slice is refused. What the parsed value holds is
/// not stated.
#[verifier::external_body]
fn internet_try_from<'a>(data: &'a [u8]) -> (r: Result<Internet<'a>, InternetError>)
    ensures
        r is Ok <==> is_internet_packet(data@),
        data@.len() == 0 ==> r is Err,
{
    Internet::try_from(data)
}

/// Why a packet could not be read.
#[derive(Debug)]
pub enum PacketError {
    /// The parser refused the bytes, for the reason given.
    Internet(InternetError),
}

/// Parses the internet layer of `data`, a recognised internet-layer packet.
/// The value is the parser's reading of `data` (what it holds is not stated:
/// `Internet` is opaque here).
pub fn parse_packet<'a>(data: &'a [u8]) -> (internet: Internet<'a>)
    requires
        is_internet_packet(data@),
{
    internet_try_from(data).unwrap()
}

/// Parses the internet layer of `data` when the parser recognises it, and
/// says why not otherwise. It succeeds exactly when `data` is a recognised
/// internet-layer packet; an empty packet is refused.
pub fn try_parse_packet<'a>(data: &'a [u8]) -> (r: Result<Internet<'a>, PacketError>)
    ensures
        r is Ok <==> is_internet_packet(data@),
        data@.len() == 0 ==> r is Err,
{
    match internet_try_from(data) {
        Ok(_) => Ok(parse_packet(data)),
        Err(e) => Err(PacketError::Internet(e)),
    }
}

} // verus!
