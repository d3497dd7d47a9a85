use vstd::prelude::*;
use vstd::utf8::{decode_utf8, valid_utf8};
use tls_parser::{TlsExtension, TlsMessage, TlsMessageHandshake};

verus! {

/// Why no server name could be taken from the first bytes of a stream.
#[derive(Clone, Copy, Debug, PartialEq, Eq, Structural)]
pub enum SniError {
    /// The bytes end before the TLS record does: more bytes may complete it.
    Incomplete,
    /// The bytes are not a well-formed plaintext TLS record.
    Malformed,
    /// The record's first message is not a ClientHello handshake.
    NotClientHello,
    /// The ClientHello carries no extensions block.
    NoExtensions,
    /// The extensions block could not be parsed.
    BadExtensions,
    /// No server name extension is among the extensions.
    NoServerName,
    /// The server name extension lists no name.
    EmptyServerName,
    /// The first listed name is not UTF-8 text.
    InvalidUtf8,
}

/// What the TLS record parser makes of the bytes: the extensions block of the
/// ClientHello that is the record's first message (absent if the ClientHello
/// has none), or why there is no such ClientHello.
pub uninterp spec fn client_hello_of(packet: Seq<u8>) -> Result<Option<Seq<u8>>, SniError>;

/// What the extensions parser makes of an extensions block: for each
/// extension in order, the list of names if it is a server name extension.
pub uninterp spec fn extensions_of(block: Seq<u8>) -> Option<Seq<Option<Seq<Seq<u8>>>>>;

/// Relies on tls_parser::parse_tls_plaintext to parse one plaintext record;
/// its first message is inspected. nom's `Incomplete` error is told apart from
/// the other errors.
#[verifier::external_body]
fn parse_record(packet: &[u8]) -> (r: Result<Option<Vec<u8>>, SniError>)
    ensures
        match client_hello_of(packet@) {
            Ok(block) => r matches Ok(b) && b.deep_view() == block,
            Err(e) => r == Err::<Option<Vec<u8>>, SniError>(e),
        },
{
    match tls_parser::parse_tls_plaintext(packet) {
        Ok((_, record)) => match record.msg.first() {
            Some(TlsMessage::Handshake(TlsMessageHandshake::ClientHello(h))) => Ok(h.ext.map(|b| b.to_vec())),
            _ => Err(SniError::NotClientHello),
        },
        Err(tls_parser::Err::Incomplete(_)) => Err(SniError::Incomplete),
        Err(_) => Err(SniError::Malformed),
    }
}

/// Relies on tls_parser::parse_tls_extensions to split an extensions block;
/// each server name extension becomes the list of its names, any other
/// extension becomes `None`.
#[verifier::external_body]
fn parse_extensions(block: &[u8]) -> (r: Option<Vec<Option<Vec<Vec<u8>>>>>)
    ensures
        r.deep_view() == extensions_of(block@),
{
    match tls_parser::parse_tls_extensions(block) {
        Ok((_, list)) => Some(list.iter().map(|e| match e {
            TlsExtension::SNI(names) => Some(names.iter().map(|n| n.1.to_vec()).collect()),
            _ => None,
        }).collect()),
        Err(_) => None,
    }
}

/// Relies on String::from_utf8, which accepts exactly the valid UTF-8 byte
/// sequences and keeps the text they encode.
#[verifier::external_body]
fn utf8_to_string(bytes: Vec<u8>) -> (r: Option<String>)
    ensures
        r is Some <==> valid_utf8(bytes@),
        r matches Some(s) ==> s@ == decode_utf8(bytes@),
{
    String::from_utf8(bytes).ok()
}

/// The names of the first server name extension in the list, if any.
pub open spec fn first_server_name(exts: Seq<Option<Seq<Seq<u8>>>>) -> Option<Seq<Seq<u8>>>
    decreases exts.len(),
{
    if exts.len() == 0 {
        None
    } else if exts[0] is Some {
        exts[0]
    } else {
        first_server_name(exts.drop_first())
    }
}

/// The hostname that a parsed extension list presents: the first name of the
/// first server name extension, read as UTF-8.
pub open spec fn hostname_in(exts: Seq<Option<Seq<Seq<u8>>>>) -> Result<Seq<char>, SniError> {
    match first_server_name(exts) {
        None => Err(SniError::NoServerName),
        Some(names) => if names.len() == 0 {
            Err(SniError::EmptyServerName)
        } else if valid_utf8(names[0]) {
            Ok(decode_utf8(names[0]))
        } else {
            Err(SniError::InvalidUtf8)
        },
    }
}

/// The outcome of reading the server name from the first bytes of a stream.
pub open spec fn sni_outcome(packet: Seq<u8>) -> Result<Seq<char>, SniError> {
    match client_hello_of(packet) {
        Err(e) => Err(e),
        Ok(None) => Err(SniError::NoExtensions),
        Ok(Some(block)) => match extensions_of(block) {
            None => Err(SniError::BadExtensions),
            Some(exts) => hostname_in(exts),
        },
    }
}

/// The bytes of the first name in the first server name extension of a
/// well-formed ClientHello record, if there is one.
pub open spec fn first_name_bytes(packet: Seq<u8>) -> Option<Seq<u8>> {
    match client_hello_of(packet) {
        Ok(Some(block)) => match extensions_of(block) {
            Some(exts) => match first_server_name(exts) {
                Some(names) => if names.len() > 0 {
                    Some(names[0])
                } else {
                    None
                },
                None => None,
            },
            None => None,
        },
        _ => None,
    }
}

/// The bytes do not form a syntactically valid plaintext TLS record.
pub open spec fn not_a_record(packet: Seq<u8>) -> bool {
    client_hello_of(packet) matches Err(e) && (e is Incomplete || e is Malformed)
}

pub open spec fn outcome_view(r: Result<String, SniError>) -> Result<Seq<char>, SniError> {
    match r {
        Ok(s) => Ok(s@),
        Err(e) => Err(e),
    }
}

pub open spec fn opt_text(r: Option<String>) -> Option<Seq<char>> {
    match r {
        Some(s) => Some(s@),
        None => None,
    }
}

pub open spec fn ok_of(r: Result<Seq<char>, SniError>) -> Option<Seq<char>> {
    match r {
        Ok(s) => Some(s),
        Err(_) => None,
    }
}

/// Takes the hostname out of a parsed extension list: the first name of the
/// first server name extension, when it is UTF-8 text.
pub fn sni_from_extensions(exts: &Vec<Option<Vec<Vec<u8>>>>) -> (r: Result<String, SniError>)
    ensures
        outcome_view(r) == hostname_in(exts.deep_view()),
{
    let ghost all = exts.deep_view();
    let mut i: usize = 0;
    assert(all.subrange(0, all.len() as int) =~= all);
    while i < exts.len()
        invariant
            i <= exts.len(),
            all == exts.deep_view(),
            first_server_name(all) == first_server_name(all.subrange(i as int, all.len() as int)),
        decreases exts.len() - i,
    {
        proof {
            let rest = all.subrange(i as int, all.len() as int);
            assert(rest.drop_first() =~= all.subrange(i + 1, all.len() as int));
        }
        match &exts[i] {
            Some(names) => {
                proof {
                    let rest = all.subrange(i as int, all.len() as int);
                    assert(rest[0] == exts[i as int].deep_view());
                    assert(first_server_name(all) == Some(names.deep_view()));
                }
                if names.len() == 0 {
                    return Err(SniError::EmptyServerName);
                }
                assert(names.deep_view()[0] == names[0]@);
                let first = names[0].clone();
                return match utf8_to_string(first) {
                    Some(s) => Ok(s),
                    None => Err(SniError::InvalidUtf8),
                };
            },
            None => {
                proof {
                    let rest = all.subrange(i as int, all.len() as int);
                    assert(rest[0] == exts[i as int].deep_view());
                }
            },
        }
        i = i + 1;
    }
    proof {
        assert(all.subrange(i as int, all.len() as int).len() == 0);
    }
    Err(SniError::NoServerName)
}

/// Reads the server name from the first bytes of a TCP stream, telling apart
/// why none could be read: a record cut short, a malformed one, a message that
/// is not a ClientHello, missing or malformed extensions, no server name, or a
/// name that is not UTF-8.
pub fn parse_sni(packet: &[u8]) -> (r: Result<String, SniError>)
    ensures
        outcome_view(r) == sni_outcome(packet@),
{
    match parse_record(packet) {
        Err(e) => Err(e),
        Ok(None) => Err(SniError::NoExtensions),
        Ok(Some(block)) => {
            assert(block.deep_view() =~= block@);
            match parse_extensions(block.as_slice()) {
            None => Err(SniError::BadExtensions),
                Some(exts) => sni_from_extensions(&exts),
            }
        },
    }
}

/// The hostname that a TLS ClientHello at the start of the bytes presents,
/// or `None` where there is none to read.
pub fn extract_sni(packet: &[u8]) -> (r: Option<String>)
    ensures
        opt_text(r) == ok_of(sni_outcome(packet@)),
        not_a_record(packet@) ==> r is None,
        first_name_bytes(packet@) matches Some(name) ==> (valid_utf8(name) ==> opt_text(r)
            == Some(decode_utf8(name))),
{
    match parse_sni(packet) {
        Ok(h) => Some(h),
        Err(_) => None,
    }
}

} // verus!
