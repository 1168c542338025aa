//! The connection.start-ok reply: client properties, the PLAIN security
//! mechanism with its response data, and a locale, all picked against what
//! the server's connection.start offered.

use vstd::prelude::*;
use vstd::utf8::encode_utf8;
use crate::common::{contains_str, is_byte_substring};
use crate::errors::Error;
use crate::frame::{Argument, FieldArgument, FieldTable, MethodPayload};

verus! {

/// `want` occurs in `offers`, compared on their UTF-8 bytes, as in the
/// space-separated offer lists of connection.start.
pub open spec fn offered_in(offers: Seq<char>, want: Seq<char>) -> bool {
    is_byte_substring(encode_utf8(offers), encode_utf8(want))
}

/// Argument `idx` of `args` is a long string whose offers carry `want`.
pub open spec fn offer_arg_usable(args: Seq<Argument>, idx: int, want: Seq<char>) -> bool {
    &&& args.len() > idx
    &&& args[idx] matches Argument::LongString(offers) && offered_in(offers@, want)
}

/// The argument list of a connection.start the client can answer: a long
/// string of mechanisms at position 3 offering `mechanism`, and a long
/// string of locales at position 4 offering `locale`.
pub open spec fn start_args_usable(args: Seq<Argument>, mechanism: Seq<char>, locale: Seq<char>) -> bool {
    &&& offer_arg_usable(args, 3, mechanism)
    &&& offer_arg_usable(args, 4, locale)
}

/// The SASL PLAIN response: authzid, authcid and password joined by NUL.
pub open spec fn plain_response(authzid: Seq<char>, authcid: Seq<char>, password: Seq<char>) -> Seq<char> {
    authzid + seq!['\u{0}'] + authcid + seq!['\u{0}'] + password
}

/// The client property table sent in start-ok.
pub open spec fn is_client_properties(t: FieldTable) -> bool {
    &&& t.0@.len() == 5
    &&& t.0@[0].1 matches FieldArgument::LongString(v) && t.0@[0].0@ == "product"@ && v@ == "amqpr"@
    &&& t.0@[1].1 matches FieldArgument::LongString(v) && t.0@[1].0@ == "version"@ && v@ == "0.3"@
    &&& t.0@[2].1 matches FieldArgument::LongString(v) && t.0@[2].0@ == "platform"@ && v@ == "Rust stable"@
    &&& t.0@[3].1 matches FieldArgument::LongString(v) && t.0@[3].0@ == "copyright"@ && v@
        == "(C) 2017 Atsuki-Tak"@
    &&& t.0@[4].1 matches FieldArgument::LongString(v) && t.0@[4].0@ == "information"@ && v@ == "WIP"@
}

/// The connection.start-ok payload this client sends: its property table,
/// the PLAIN mechanism, the PLAIN response for `user` and `pass`, and the
/// en_US locale.
pub open spec fn is_start_ok_payload(p: MethodPayload, user: Seq<char>, pass: Seq<char>) -> bool {
    &&& p.class_id == 10
    &&& p.method_id == 11
    &&& p.arguments@.len() == 4
    &&& p.arguments@[0] matches Argument::FieldTable(t) && is_client_properties(t)
    &&& p.arguments@[1] matches Argument::ShortString(m) && m@ == "PLAIN"@
    &&& p.arguments@[2] matches Argument::LongString(s)
        && s@ == plain_response(Seq::<char>::empty(), user, pass)
    &&& p.arguments@[3] matches Argument::ShortString(l) && l@ == "en_US"@
}

/// Build connection.start-ok from the server's connection.start. Succeeds
/// exactly when the start's offer lists carry PLAIN and en_US; otherwise the
/// handshake cannot proceed and `HandshakeFailed` is returned.
pub fn start_ok(start: &MethodPayload, user: &str, pass: &str) -> (r: Result<MethodPayload, Error>)
    ensures
        match r {
            Ok(p) => {
                &&& start_args_usable(start.arguments@, "PLAIN"@, "en_US"@)
                &&& is_start_ok_payload(p, user@, pass@)
            },
            Err(e) => {
                &&& e == Error::HandshakeFailed
                &&& !start_args_usable(start.arguments@, "PLAIN"@, "en_US"@)
            },
        },
{
    let mechanism = match select_security_mechanism(&start.arguments, "PLAIN") {
        Ok(m) => m,
        Err(e) => {
            return Err(e);
        },
    };
    let locale = match select_locale(&start.arguments, "en_US") {
        Ok(l) => l,
        Err(e) => {
            return Err(e);
        },
    };

    let properties = Argument::FieldTable(client_properties());
    let mechanism_arg = Argument::ShortString(mechanism);
    proof {
        reveal_strlit("");
        assert(""@ =~= Seq::<char>::empty());
    }
    let security_data = Argument::LongString(plain_security_response_data("", user, pass));
    let locale_arg = Argument::ShortString(locale);

    Ok(MethodPayload {
        class_id: 10,
        method_id: 11,
        arguments: vec![properties, mechanism_arg, security_data, locale_arg],
    })
}

/// The fixed table of client properties.
fn client_properties() -> (t: FieldTable)
    ensures
        is_client_properties(t),
{
    let product = ("product".to_owned(), FieldArgument::LongString("amqpr".to_owned()));
    let version = ("version".to_owned(), FieldArgument::LongString("0.3".to_owned()));
    let platform = ("platform".to_owned(), FieldArgument::LongString("Rust stable".to_owned()));
    let copyright = ("copyright".to_owned(), FieldArgument::LongString("(C) 2017 Atsuki-Tak".to_owned()));
    let information = ("information".to_owned(), FieldArgument::LongString("WIP".to_owned()));
    FieldTable(vec![product, version, platform, copyright, information])
}

/// Pick `mechanism` out of the start method's mechanism offers (argument 3),
/// failing when the offers are missing, of the wrong kind, or lack it.
fn select_security_mechanism(args: &Vec<Argument>, mechanism: &str) -> (r: Result<String, Error>)
    ensures
        match r {
            Ok(m) => m@ == mechanism@ && offer_arg_usable(args@, 3, mechanism@),
            Err(e) => e == Error::HandshakeFailed && !offer_arg_usable(args@, 3, mechanism@),
        },
{
    if args.len() <= 3 {
        return Err(Error::HandshakeFailed);
    }
    match &args[3] {
        Argument::LongString(offers) => {
            if contains_str(offers.as_str(), mechanism) {
                Ok(mechanism.to_owned())
            } else {
                Err(Error::HandshakeFailed)
            }
        },
        _ => Err(Error::HandshakeFailed),
    }
}

/// Pick `locale` out of the start method's locale offers (argument 4),
/// failing when the offers are missing, of the wrong kind, or lack it.
fn select_locale(args: &Vec<Argument>, locale: &str) -> (r: Result<String, Error>)
    ensures
        match r {
            Ok(l) => l@ == locale@ && offer_arg_usable(args@, 4, locale@),
            Err(e) => e == Error::HandshakeFailed && !offer_arg_usable(args@, 4, locale@),
        },
{
    if args.len() <= 4 {
        return Err(Error::HandshakeFailed);
    }
    match &args[4] {
        Argument::LongString(offers) => {
            if contains_str(offers.as_str(), locale) {
                Ok(locale.to_owned())
            } else {
                Err(Error::HandshakeFailed)
            }
        },
        _ => Err(Error::HandshakeFailed),
    }
}

/// The SASL PLAIN response data for the given identities and password.
fn plain_security_response_data(authzid: &str, authcid: &str, password: &str) -> (r: String)
    ensures
        r@ == plain_response(authzid@, authcid@, password@),
{
    let mut s = authzid.to_owned();
    s.append("\u{0}");
    s.append(authcid);
    s.append("\u{0}");
    s.append(password);
    proof {
        reveal_strlit("\u{0}");
        assert(s@ =~= plain_response(authzid@, authcid@, password@));
    }
    s
}

} // verus!
