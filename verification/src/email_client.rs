//! The email-dispatch side of the core: a client configuration whose
//! `build_send_request` turns a message into the exact provider HTTP request
//! (URL, headers, JSON body), and the interpretation of what came back.

use vstd::prelude::*;
use vstd::string::{StrSliceExecFns, StringExecFns};

use crate::domain::SubscriberEmail;

verus! {

/// The provider's authorization header name.
pub const POSTMARK_HEADER: &'static str = "X-Postmark-Server-Token";

/// An authorization token that is never printed; the only way to read it is
/// the explicit `expose_secret`, called at the point the HTTP header is
/// built.
pub struct SecretToken {
    inner: String,
}

impl View for SecretToken {
    type V = Seq<char>;

    closed spec fn view(&self) -> Seq<char> {
        self.inner@
    }
}

impl SecretToken {
    /// Wraps a raw token.
    pub fn new(raw: String) -> (r: SecretToken)
        ensures
            r@ == raw@,
    {
        SecretToken { inner: raw }
    }

    /// Reveals the token, for building the authorization header and nothing
    /// else.
    pub fn expose_secret(&self) -> (r: &str)
        ensures
            r@ == self@,
    {
        self.inner.as_str()
    }

    /// A copy of the token, for handing one request its own value.
    pub fn duplicate(&self) -> (r: SecretToken)
        ensures
            r@ == self@,
    {
        SecretToken { inner: self.inner.clone() }
    }
}

/// Why a dispatch attempt failed.
#[derive(Clone, Copy, Debug, PartialEq, Eq, Structural)]
pub enum DispatchError {
    /// The request never produced an HTTP response: connection failure or
    /// the timeout elapsed.
    Transport,
    /// The provider answered with a non-success status code, carried here.
    ProviderRejected(u16),
}

/// What one send attempt came back with, as the transport saw it.
#[derive(Clone, Copy, Debug, PartialEq, Eq, Structural)]
pub enum SendOutcome {
    /// An HTTP response arrived with this status code.
    Status(u16),
    /// No response: connection failure or timeout.
    TransportFailure,
}

/// The typed result owed for each transport outcome: a 2xx status is the
/// only success; any other status is `ProviderRejected` with that status;
/// no response at all is `Transport`.
pub open spec fn dispatch_result_spec(o: SendOutcome) -> Result<(), DispatchError> {
    match o {
        SendOutcome::Status(s) => if 200 <= s && s < 300 {
            Ok(())
        } else {
            Err(DispatchError::ProviderRejected(s))
        },
        SendOutcome::TransportFailure => Err(DispatchError::Transport),
    }
}

/// Maps a transport outcome to the dispatch result.
pub fn interpret_send_outcome(o: SendOutcome) -> (r: Result<(), DispatchError>)
    ensures
        r == dispatch_result_spec(o),
{
    match o {
        SendOutcome::Status(s) => if 200 <= s && s < 300 {
            Ok(())
        } else {
            Err(DispatchError::ProviderRejected(s))
        },
        SendOutcome::TransportFailure => Err(DispatchError::Transport),
    }
}

/// The hexadecimal digit for a value below 16.
pub open spec fn hex_digit(d: u32) -> char {
    if d == 0 {
        '0'
    } else if d == 1 {
        '1'
    } else if d == 2 {
        '2'
    } else if d == 3 {
        '3'
    } else if d == 4 {
        '4'
    } else if d == 5 {
        '5'
    } else if d == 6 {
        '6'
    } else if d == 7 {
        '7'
    } else if d == 8 {
        '8'
    } else if d == 9 {
        '9'
    } else if d == 10 {
        'a'
    } else if d == 11 {
        'b'
    } else if d == 12 {
        'c'
    } else if d == 13 {
        'd'
    } else if d == 14 {
        'e'
    } else {
        'f'
    }
}

/// How one character is written inside a JSON string literal: quote,
/// backslash and control characters are escaped, everything else stands as
/// itself.
pub open spec fn json_escape_char(c: char) -> Seq<char> {
    if c == '"' {
        seq!['\\', '"']
    } else if c == '\\' {
        seq!['\\', '\\']
    } else if c == '\n' {
        seq!['\\', 'n']
    } else if c == '\r' {
        seq!['\\', 'r']
    } else if c == '\t' {
        seq!['\\', 't']
    } else if (c as u32) < 0x20 {
        seq!['\\', 'u', '0', '0', hex_digit((c as u32) / 16), hex_digit((c as u32) % 16)]
    } else {
        seq![c]
    }
}

/// A whole string escaped for JSON, character by character.
pub open spec fn json_escape_spec(s: Seq<char>) -> Seq<char>
    decreases s.len(),
{
    if s.len() == 0 {
        Seq::empty()
    } else {
        json_escape_char(s.first()) + json_escape_spec(s.drop_first())
    }
}

/// A JSON string literal: the escaped contents between double quotes.
pub open spec fn json_string_spec(s: Seq<char>) -> Seq<char> {
    seq!['"'] + json_escape_spec(s) + seq!['"']
}

proof fn lemma_json_escape_snoc(s: Seq<char>, c: char)
    ensures
        json_escape_spec(s.push(c)) == json_escape_spec(s) + json_escape_char(c),
    decreases s.len(),
{
    if s.len() == 0 {
        assert(s.push(c).len() == 1);
        assert(s.push(c).first() == c);
        assert(s.push(c).drop_first() =~= Seq::<char>::empty());
        assert(json_escape_spec(s.push(c)) == json_escape_char(c) + json_escape_spec(
            Seq::<char>::empty(),
        ));
        assert(json_escape_spec(s.push(c)) =~= json_escape_spec(s) + json_escape_char(c));
    } else {
        assert(s.push(c).first() == s.first());
        assert(s.push(c).drop_first() =~= s.drop_first().push(c));
        lemma_json_escape_snoc(s.drop_first(), c);
        assert(json_escape_spec(s.push(c)) == json_escape_char(s.first()) + (json_escape_spec(
            s.drop_first(),
        ) + json_escape_char(c)));
        assert(json_escape_spec(s.push(c)) =~= json_escape_spec(s) + json_escape_char(c));
    }
}

fn append_hex_digit(out: &mut String, d: u32)
    requires
        d < 16,
    ensures
        final(out)@ == old(out)@ + seq![hex_digit(d)],
{
    proof {
        reveal_strlit("0");
        reveal_strlit("1");
        reveal_strlit("2");
        reveal_strlit("3");
        reveal_strlit("4");
        reveal_strlit("5");
        reveal_strlit("6");
        reveal_strlit("7");
        reveal_strlit("8");
        reveal_strlit("9");
        reveal_strlit("a");
        reveal_strlit("b");
        reveal_strlit("c");
        reveal_strlit("d");
        reveal_strlit("e");
        reveal_strlit("f");
    }
    if d == 0 {
        out.append("0");
    } else if d == 1 {
        out.append("1");
    } else if d == 2 {
        out.append("2");
    } else if d == 3 {
        out.append("3");
    } else if d == 4 {
        out.append("4");
    } else if d == 5 {
        out.append("5");
    } else if d == 6 {
        out.append("6");
    } else if d == 7 {
        out.append("7");
    } else if d == 8 {
        out.append("8");
    } else if d == 9 {
        out.append("9");
    } else if d == 10 {
        out.append("a");
    } else if d == 11 {
        out.append("b");
    } else if d == 12 {
        out.append("c");
    } else if d == 13 {
        out.append("d");
    } else if d == 14 {
        out.append("e");
    } else {
        out.append("f");
    }
}

/// Escapes a string for inclusion in a JSON string literal.
pub fn json_escape(s: &str) -> (r: String)
    ensures
        r@ == json_escape_spec(s@),
{
    let n = s.unicode_len();
    let mut out = String::new();
    let mut i: usize = 0;
    while i < n
        invariant
            n == s@.len(),
            i <= n,
            out@ == json_escape_spec(s@.subrange(0, i as int)),
        decreases n - i,
    {
        let c = s.get_char(i);
        if c == '"' {
            proof {
                reveal_strlit("\\\"");
            }
            out.append("\\\"");
        } else if c == '\\' {
            proof {
                reveal_strlit("\\\\");
            }
            out.append("\\\\");
        } else if c == '\n' {
            proof {
                reveal_strlit("\\n");
            }
            out.append("\\n");
        } else if c == '\r' {
            proof {
                reveal_strlit("\\r");
            }
            out.append("\\r");
        } else if c == '\t' {
            proof {
                reveal_strlit("\\t");
            }
            out.append("\\t");
        } else if (c as u32) < 0x20 {
            proof {
                reveal_strlit("\\u00");
            }
            out.append("\\u00");
            append_hex_digit(&mut out, (c as u32) / 16);
            append_hex_digit(&mut out, (c as u32) % 16);
        } else {
            let piece = s.substring_char(i, i + 1);
            proof {
                assert(piece@ =~= seq![c]);
            }
            out.append(piece);
        }
        proof {
            lemma_json_escape_snoc(s@.subrange(0, i as int), c);
            assert(s@.subrange(0, i as int + 1) =~= s@.subrange(0, i as int).push(c));
        }
        i += 1;
    }
    proof {
        assert(s@.subrange(0, n as int) =~= s@);
    }
    out
}

/// Renders a string as a JSON string literal: escaped, between double
/// quotes.
pub fn json_string(s: &str) -> (r: String)
    ensures
        r@ == json_string_spec(s@),
{
    proof {
        reveal_strlit("\"");
    }
    let mut out = String::new();
    out.append("\"");
    let escaped = json_escape(s);
    out.append(escaped.as_str());
    out.append("\"");
    proof {
        assert(out@ =~= json_string_spec(s@));
    }
    out
}

/// The provider JSON body for one send: the five fields, in the provider's
/// order and with the provider's exact names.
pub open spec fn send_body_spec(
    from: Seq<char>,
    to: Seq<char>,
    subject: Seq<char>,
    html: Seq<char>,
    text: Seq<char>,
) -> Seq<char> {
    "{\"From\":"@ + json_string_spec(from) + ",\"To\":"@ + json_string_spec(to) + ",\"Subject\":"@
        + json_string_spec(subject) + ",\"HtmlBody\":"@ + json_string_spec(html)
        + ",\"TextBody\":"@ + json_string_spec(text) + "}"@
}

/// One fully determined provider request, ready for an HTTP transport: where
/// to post, what headers to set, the body, and the round-trip timeout.
pub struct EmailRequest {
    /// The target URL, `{base_url}/email`.
    pub url: String,
    /// The value of the `Content-Type` header.
    pub content_type: String,
    /// The value of the provider authorization header (`POSTMARK_HEADER`).
    pub authorization_token: SecretToken,
    /// The JSON body.
    pub body: String,
    /// The bound on the whole request/response round trip, in milliseconds.
    pub timeout_ms: u64,
}

/// The email-dispatch client configuration: immutable after construction
/// and shared by all sends.
pub struct EmailClient {
    /// The provider endpoint prefix.
    pub base_url: String,
    /// The address every message is sent from.
    pub sender: SubscriberEmail,
    /// The provider authorization token.
    pub authorization_token: SecretToken,
    /// The round-trip timeout applied to every send, in milliseconds.
    pub timeout_ms: u64,
}

impl EmailClient {
    /// Retains the dispatch configuration; the HTTP transport itself is
    /// built outside, from these same values.
    pub fn new(
        base_url: String,
        sender: SubscriberEmail,
        authorization_token: SecretToken,
        timeout_ms: u64,
    ) -> (r: EmailClient)
        ensures
            r.base_url@ == base_url@,
            r.sender@ == sender@,
            r.authorization_token@ == authorization_token@,
            r.timeout_ms == timeout_ms,
    {
        EmailClient { base_url, sender, authorization_token, timeout_ms }
    }

    /// Builds the one provider request for a message: a POST to
    /// `{base_url}/email`, JSON content type, the client's token, and the
    /// five-field body with the client's sender as `From`.
    pub fn build_send_request(
        &self,
        recipient: &SubscriberEmail,
        subject: &str,
        html_content: &str,
        text_content: &str,
    ) -> (r: EmailRequest)
        ensures
            r.url@ == self.base_url@ + "/email"@,
            r.content_type@ == "application/json"@,
            r.authorization_token@ == self.authorization_token@,
            r.body@ == send_body_spec(
                self.sender@,
                recipient@,
                subject@,
                html_content@,
                text_content@,
            ),
            r.timeout_ms == self.timeout_ms,
    {
        let url = String::from_str(self.base_url.as_str()).concat("/email");
        let mut body = String::new();
        body.append("{\"From\":");
        let from_lit = json_string(self.sender.as_ref());
        body.append(from_lit.as_str());
        body.append(",\"To\":");
        let to_lit = json_string(recipient.as_ref());
        body.append(to_lit.as_str());
        body.append(",\"Subject\":");
        let subject_lit = json_string(subject);
        body.append(subject_lit.as_str());
        body.append(",\"HtmlBody\":");
        let html_lit = json_string(html_content);
        body.append(html_lit.as_str());
        body.append(",\"TextBody\":");
        let text_lit = json_string(text_content);
        body.append(text_lit.as_str());
        body.append("}");
        proof {
            assert(body@ =~= send_body_spec(
                self.sender@,
                recipient@,
                subject@,
                html_content@,
                text_content@,
            ));
        }
        EmailRequest {
            url,
            content_type: String::from_str("application/json"),
            authorization_token: self.authorization_token.duplicate(),
            body,
            timeout_ms: self.timeout_ms,
        }
    }
}

} // verus!
