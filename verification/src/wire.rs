//! The JSON wire shape of the decision engine: responses carry the outcome
//! tagged `pass` or `fail`, and presented credentials travel as a tagged
//! union with the discriminants `pass`, `user` and `cert`. The encoders are
//! written out here so that every emitted byte is pinned by its
//! specification.

use vstd::prelude::*;
use crate::auth::{AuthenticationResponse, Credential, Outcome};
use crate::model::{Application, Device};
use crate::text::push_char;

verus! {

/// The JSON escape of one character: the two-character escapes of the JSON
/// grammar, the `\u00..` form for the remaining control characters, and the
/// character itself otherwise.
pub open spec fn escape_char(c: char) -> Seq<char> {
    if c == '"' {
        "\\\""@
    } else if c == '\\' {
        "\\\\"@
    } else if c == '\n' {
        "\\n"@
    } else if c == '\r' {
        "\\r"@
    } else if c == '\t' {
        "\\t"@
    } else if c == '\u{8}' {
        "\\b"@
    } else if c == '\u{c}' {
        "\\f"@
    } else if (c as u32) < 0x20 {
        "\\u00"@ + seq![
            if (c as u32) < 0x10 {
                '0'
            } else {
                '1'
            },
            hex_low((c as u32) % 0x10),
        ]
    } else {
        seq![c]
    }
}

/// The lower hexadecimal digit of a value below sixteen.
pub open spec fn hex_low(n: u32) -> char {
    if n == 0 {
        '0'
    } else if n == 1 {
        '1'
    } else if n == 2 {
        '2'
    } else if n == 3 {
        '3'
    } else if n == 4 {
        '4'
    } else if n == 5 {
        '5'
    } else if n == 6 {
        '6'
    } else if n == 7 {
        '7'
    } else if n == 8 {
        '8'
    } else if n == 9 {
        '9'
    } else if n == 10 {
        'a'
    } else if n == 11 {
        'b'
    } else if n == 12 {
        'c'
    } else if n == 13 {
        'd'
    } else if n == 14 {
        'e'
    } else {
        'f'
    }
}

/// A character sequence with every character JSON-escaped.
pub open spec fn escaped(s: Seq<char>) -> Seq<char>
    decreases s.len(),
{
    if s.len() == 0 {
        Seq::empty()
    } else {
        escaped(s.drop_last()) + escape_char(s.last())
    }
}

/// A JSON string literal: the escaped characters between quotes.
pub open spec fn json_string(s: Seq<char>) -> Seq<char> {
    "\""@ + escaped(s) + "\""@
}

/// Escape a string for a JSON string literal.
fn escape_json(s: &str) -> (r: String)
    ensures
        r@ == escaped(s@),
{
    let mut r = String::new();
    let n = s.unicode_len();
    let mut i: usize = 0;
    while i < n
        invariant
            n == s@.len(),
            0 <= i <= n,
            r@ == escaped(s@.subrange(0, i as int)),
        decreases n - i,
    {
        let c = s.get_char(i);
        if c == '"' {
            r.append("\\\"");
        } else if c == '\\' {
            r.append("\\\\");
        } else if c == '\n' {
            r.append("\\n");
        } else if c == '\r' {
            r.append("\\r");
        } else if c == '\t' {
            r.append("\\t");
        } else if c == '\u{8}' {
            r.append("\\b");
        } else if c == '\u{c}' {
            r.append("\\f");
        } else if (c as u32) < 0x20 {
            r.append("\\u00");
            let code: u32 = c as u32;
            push_char(&mut r, if code < 0x10 { '0' } else { '1' });
            push_char(&mut r, hex_low_exec(code % 0x10));
        } else {
            push_char(&mut r, c);
        }
        proof {
            assert(s@.subrange(0, i + 1).drop_last() =~= s@.subrange(0, i as int));
            assert(s@.subrange(0, i + 1).last() == s@[i as int]);
            assert(r@ =~= escaped(s@.subrange(0, i + 1)));
        }
        i += 1;
    }
    proof {
        assert(s@.subrange(0, n as int) =~= s@);
    }
    r
}

/// The lower hexadecimal digit of a value below sixteen.
fn hex_low_exec(n: u32) -> (r: char)
    requires
        n < 16,
    ensures
        r == hex_low(n),
{
    match n {
        0 => '0',
        1 => '1',
        2 => '2',
        3 => '3',
        4 => '4',
        5 => '5',
        6 => '6',
        7 => '7',
        8 => '8',
        9 => '9',
        10 => 'a',
        11 => 'b',
        12 => 'c',
        13 => 'd',
        14 => 'e',
        _ => 'f',
    }
}

/// Encode a string as a JSON string literal.
pub fn encode_json_string(s: &str) -> (r: String)
    ensures
        r@ == json_string(s@),
{
    let mut r = String::from_str("\"");
    let body = escape_json(s);
    r.append(body.as_str());
    r.append("\"");
    r
}

/// The decimal digit of a value below ten.
pub open spec fn dec_digit(n: u8) -> char {
    if n == 0 {
        '0'
    } else if n == 1 {
        '1'
    } else if n == 2 {
        '2'
    } else if n == 3 {
        '3'
    } else if n == 4 {
        '4'
    } else if n == 5 {
        '5'
    } else if n == 6 {
        '6'
    } else if n == 7 {
        '7'
    } else if n == 8 {
        '8'
    } else {
        '9'
    }
}

/// The decimal representation of a byte, without leading zeros.
pub open spec fn dec_of(n: u8) -> Seq<char> {
    if n < 10 {
        seq![dec_digit(n)]
    } else if n < 100 {
        seq![dec_digit(n / 10), dec_digit(n % 10)]
    } else {
        seq![dec_digit(n / 100), dec_digit((n / 10) % 10), dec_digit(n % 10)]
    }
}

fn dec_digit_exec(n: u8) -> (r: char)
    requires
        n < 10,
    ensures
        r == dec_digit(n),
{
    match n {
        0 => '0',
        1 => '1',
        2 => '2',
        3 => '3',
        4 => '4',
        5 => '5',
        6 => '6',
        7 => '7',
        8 => '8',
        _ => '9',
    }
}

/// The items of a JSON array of byte values, joined with commas.
pub open spec fn byte_items(b: Seq<u8>, upto: int) -> Seq<char>
    decreases upto,
{
    if upto <= 0 {
        Seq::empty()
    } else if upto == 1 {
        dec_of(b[0])
    } else {
        byte_items(b, upto - 1) + ","@ + dec_of(b[upto - 1])
    }
}

/// A byte string as a JSON array of its byte values.
pub open spec fn bytes_json(b: Seq<u8>) -> Seq<char> {
    "["@ + byte_items(b, b.len() as int) + "]"@
}

/// Encode a byte string as a JSON array of numbers.
pub fn encode_bytes(b: &Vec<u8>) -> (r: String)
    ensures
        r@ == bytes_json(b@),
{
    let mut r = String::from_str("[");
    let n = b.len();
    let mut i: usize = 0;
    while i < n
        invariant
            n == b@.len(),
            0 <= i <= n,
            r@ == "["@ + byte_items(b@, i as int),
        decreases n - i,
    {
        if i > 0 {
            r.append(",");
        }
        let v = b[i];
        if v < 10 {
            push_char(&mut r, dec_digit_exec(v));
        } else if v < 100 {
            push_char(&mut r, dec_digit_exec(v / 10));
            push_char(&mut r, dec_digit_exec(v % 10));
        } else {
            push_char(&mut r, dec_digit_exec(v / 100));
            push_char(&mut r, dec_digit_exec((v / 10) % 10));
            push_char(&mut r, dec_digit_exec(v % 10));
        }
        i += 1;
    }
    r.append("]");
    r
}

/// The items of a JSON array of byte strings, joined with commas.
pub open spec fn chain_items(chain: Seq<Vec<u8>>, upto: int) -> Seq<char>
    decreases upto,
{
    if upto <= 0 {
        Seq::empty()
    } else if upto == 1 {
        bytes_json(chain[0]@)
    } else {
        chain_items(chain, upto - 1) + ","@ + bytes_json(chain[upto - 1]@)
    }
}

/// A certificate chain as a JSON array of byte arrays.
pub open spec fn chain_json(chain: Seq<Vec<u8>>) -> Seq<char> {
    "["@ + chain_items(chain, chain.len() as int) + "]"@
}

/// Encode a certificate chain as a JSON array of byte arrays.
pub fn encode_chain(chain: &Vec<Vec<u8>>) -> (r: String)
    ensures
        r@ == chain_json(chain@),
{
    let mut r = String::from_str("[");
    let n = chain.len();
    let mut i: usize = 0;
    while i < n
        invariant
            n == chain@.len(),
            0 <= i <= n,
            r@ == "["@ + chain_items(chain@, i as int),
        decreases n - i,
    {
        if i > 0 {
            r.append(",");
        }
        let one = encode_bytes(&chain[i]);
        r.append(one.as_str());
        i += 1;
    }
    r.append("]");
    r
}

/// The JSON form of a presented credential: the tagged union with the
/// discriminants `pass`, `user` and `cert`.
pub open spec fn credential_json(c: Credential) -> Seq<char> {
    match c {
        Credential::Password(p) => "{\"pass\":"@ + json_string(p@) + "}"@,
        Credential::UsernamePassword { username, password } => "{\"user\":{\"username\":"@
            + json_string(username@) + ",\"password\":"@ + json_string(password@) + "}}"@,
        Credential::Certificate(chain) => "{\"cert\":"@ + chain_json(chain@) + "}"@,
    }
}

/// Encode a presented credential into its JSON wire form.
pub fn encode_credential(c: &Credential) -> (r: String)
    ensures
        r@ == credential_json(*c),
{
    match c {
        Credential::Password(p) => {
            let mut r = String::from_str("{\"pass\":");
            let s = encode_json_string(p.as_str());
            r.append(s.as_str());
            r.append("}");
            r
        },
        Credential::UsernamePassword { username, password } => {
            let mut r = String::from_str("{\"user\":{\"username\":");
            let u = encode_json_string(username.as_str());
            r.append(u.as_str());
            r.append(",\"password\":");
            let p = encode_json_string(password.as_str());
            r.append(p.as_str());
            r.append("}}");
            r
        },
        Credential::Certificate(chain) => {
            let mut r = String::from_str("{\"cert\":");
            let s = encode_chain(chain);
            r.append(s.as_str());
            r.append("}");
            r
        },
    }
}

/// The items of a JSON array of credentials, joined with commas.
pub open spec fn credential_items(creds: Seq<Credential>, upto: int) -> Seq<char>
    decreases upto,
{
    if upto <= 0 {
        Seq::empty()
    } else if upto == 1 {
        credential_json(creds[0])
    } else {
        credential_items(creds, upto - 1) + ","@ + credential_json(creds[upto - 1])
    }
}

/// Encode a list of presented credentials as a JSON array.
pub fn encode_credential_list(creds: &Vec<Credential>) -> (r: String)
    ensures
        r@ == "["@ + credential_items(creds@, creds@.len() as int) + "]"@,
{
    let mut r = String::from_str("[");
    let n = creds.len();
    let mut i: usize = 0;
    while i < n
        invariant
            n == creds@.len(),
            0 <= i <= n,
            r@ == "["@ + credential_items(creds@, i as int),
        decreases n - i,
    {
        if i > 0 {
            r.append(",");
        }
        let one = encode_credential(&creds[i]);
        r.append(one.as_str());
        i += 1;
    }
    r.append("]");
    r
}

/// The JSON form of an application in a passing outcome: its identity.
pub open spec fn application_json(a: Application) -> Seq<char> {
    "{\"metadata\":{\"name\":"@ + json_string(a.name@) + "}}"@
}

/// The JSON form of a device in a passing outcome: its identity; the
/// credential section was stripped by the engine and is never emitted.
pub open spec fn device_json(d: Device) -> Seq<char> {
    "{\"metadata\":{\"application\":"@ + json_string(d.application@) + ",\"name\":"@ + json_string(
        d.name@,
    ) + "}}"@
}

/// The JSON form of an outcome: `"fail"`, or the `pass` object embedding the
/// application and the stripped device.
pub open spec fn outcome_json(o: Outcome) -> Seq<char> {
    match o {
        Outcome::Fail => "\"fail\""@,
        Outcome::Pass { application, device } => "{\"pass\":{\"application\":"@ + application_json(
            application,
        ) + ",\"device\":"@ + device_json(device) + "}}"@,
    }
}

/// The JSON form of an authentication response.
pub open spec fn response_json(r: AuthenticationResponse) -> Seq<char> {
    "{\"outcome\":"@ + outcome_json(r.outcome) + "}"@
}

/// Encode an authentication response into its JSON wire form.
pub fn encode_response(response: &AuthenticationResponse) -> (r: String)
    ensures
        r@ == response_json(*response),
{
    let mut r = String::from_str("{\"outcome\":");
    match &response.outcome {
        Outcome::Fail => {
            r.append("\"fail\"");
        },
        Outcome::Pass { application, device } => {
            r.append("{\"pass\":{\"application\":");
            r.append("{\"metadata\":{\"name\":");
            let a = encode_json_string(application.name.as_str());
            r.append(a.as_str());
            r.append("}}");
            r.append(",\"device\":");
            r.append("{\"metadata\":{\"application\":");
            let da = encode_json_string(device.application.as_str());
            r.append(da.as_str());
            r.append(",\"name\":");
            let dn = encode_json_string(device.name.as_str());
            r.append(dn.as_str());
            r.append("}}");
            r.append("}}");
        },
    }
    r.append("}");
    r
}

} // verus!
