//! Registry credentials and their encoding into the engine's JSON
//! credential-header format: only the fields actually set appear in the
//! output, and absent credentials encode to the empty string.
use vstd::prelude::*;
use crate::error::Error;
use crate::text::push_char;

verus! {

/// Optional credentials for a container registry; every field is
/// independently optional.
pub struct DockerRegistryAuthConfig {
    pub user_name: Option<String>,
    pub password: Option<String>,
    pub email: Option<String>,
    pub server: Option<String>,
}

impl Default for DockerRegistryAuthConfig {
    /// Credentials with no field set.
    fn default() -> (r: DockerRegistryAuthConfig)
        ensures
            r.user_name is None,
            r.password is None,
            r.email is None,
            r.server is None,
    {
        DockerRegistryAuthConfig { user_name: None, password: None, email: None, server: None }
    }
}

impl DockerRegistryAuthConfig {
    /// The registry user name, if set.
    pub fn user_name(&self) -> (r: Option<&String>)
        ensures
            match r {
                Some(v) => self.user_name matches Some(w) && v == w,
                None => self.user_name is None,
            },
    {
        self.user_name.as_ref()
    }

    /// Sets the registry user name.
    pub fn with_user_name(self, user_name: &str) -> (r: DockerRegistryAuthConfig)
        ensures
            r.user_name matches Some(v) && v@ == user_name@,
            r.password == self.password,
            r.email == self.email,
            r.server == self.server,
    {
        DockerRegistryAuthConfig { user_name: Some(user_name.to_owned()), ..self }
    }

    /// The registry password, if set.
    pub fn password(&self) -> (r: Option<&String>)
        ensures
            match r {
                Some(v) => self.password matches Some(w) && v == w,
                None => self.password is None,
            },
    {
        self.password.as_ref()
    }

    /// Sets the registry password.
    pub fn with_password(self, password: &str) -> (r: DockerRegistryAuthConfig)
        ensures
            r.password matches Some(v) && v@ == password@,
            r.user_name == self.user_name,
            r.email == self.email,
            r.server == self.server,
    {
        DockerRegistryAuthConfig { password: Some(password.to_owned()), ..self }
    }

    /// The account email, if set.
    pub fn email(&self) -> (r: Option<&String>)
        ensures
            match r {
                Some(v) => self.email matches Some(w) && v == w,
                None => self.email is None,
            },
    {
        self.email.as_ref()
    }

    /// Sets the account email.
    pub fn with_email(self, email: &str) -> (r: DockerRegistryAuthConfig)
        ensures
            r.email matches Some(v) && v@ == email@,
            r.user_name == self.user_name,
            r.password == self.password,
            r.server == self.server,
    {
        DockerRegistryAuthConfig { email: Some(email.to_owned()), ..self }
    }

    /// The registry server address, if set.
    pub fn server(&self) -> (r: Option<&String>)
        ensures
            match r {
                Some(v) => self.server matches Some(w) && v == w,
                None => self.server is None,
            },
    {
        self.server.as_ref()
    }

    /// Sets the registry server address.
    pub fn with_server(self, server: &str) -> (r: DockerRegistryAuthConfig)
        ensures
            r.server matches Some(v) && v@ == server@,
            r.user_name == self.user_name,
            r.password == self.password,
            r.email == self.email,
    {
        DockerRegistryAuthConfig { server: Some(server.to_owned()), ..self }
    }
}

/// The lower-case hexadecimal digit for `n`.
pub open spec fn hex_digit(n: int) -> char {
    if n == 0 {
        '0'
    } else if n == 1 {
        '1'
    } else if n == 2 {
        '2'
    } else if n == 3 {
        '3'
    } else if n == 4 {
        '4'
    } else if n == 5 {
        '5'
    } else if n == 6 {
        '6'
    } else if n == 7 {
        '7'
    } else if n == 8 {
        '8'
    } else if n == 9 {
        '9'
    } else if n == 10 {
        'a'
    } else if n == 11 {
        'b'
    } else if n == 12 {
        'c'
    } else if n == 13 {
        'd'
    } else if n == 14 {
        'e'
    } else {
        'f'
    }
}

/// How one character appears inside a JSON string literal: quote and
/// backslash are escaped, control characters take their short escape or a
/// `\u00..` escape, and everything else stands for itself.
pub open spec fn json_escape_char(c: char) -> Seq<char> {
    if c == '"' {
        seq!['\\', '"']
    } else if c == '\\' {
        seq!['\\', '\\']
    } else if c == '\u{8}' {
        seq!['\\', 'b']
    } else if c == '\t' {
        seq!['\\', 't']
    } else if c == '\n' {
        seq!['\\', 'n']
    } else if c == '\u{c}' {
        seq!['\\', 'f']
    } else if c == '\r' {
        seq!['\\', 'r']
    } else if (c as u32) < 32 {
        seq!['\\', 'u', '0', '0', hex_digit((c as u32) as int / 16), hex_digit(
            (c as u32) as int % 16,
        )]
    } else {
        seq![c]
    }
}

/// A whole string with every character escaped for JSON.
pub open spec fn json_escaped(s: Seq<char>) -> Seq<char>
    decreases s.len(),
{
    if s.len() == 0 {
        Seq::empty()
    } else {
        json_escaped(s.drop_last()) + json_escape_char(s.last())
    }
}

/// A JSON string literal: the escaped text between double quotes.
pub open spec fn json_string(s: Seq<char>) -> Seq<char> {
    seq!['"'] + json_escaped(s) + seq!['"']
}

/// One `"name":"value"` member of a JSON object; the name is taken as
/// already needing no escapes.
pub open spec fn field_json(name: Seq<char>, value: Seq<char>) -> Seq<char> {
    seq!['"'] + name + seq!['"', ':'] + json_string(value)
}

/// Extends a comma-separated member list with one optional member: an
/// unset field adds nothing at all.
pub open spec fn opt_field(prev: Seq<char>, name: Seq<char>, v: Option<Seq<char>>) -> Seq<char> {
    match v {
        Option::None => prev,
        Option::Some(x) => if prev.len() == 0 {
            field_json(name, x)
        } else {
            prev + seq![','] + field_json(name, x)
        },
    }
}

/// The member list of the credential object, in the engine's field order.
pub open spec fn auth_fields(
    u: Option<Seq<char>>,
    p: Option<Seq<char>>,
    e: Option<Seq<char>>,
    s: Option<Seq<char>>,
) -> Seq<char> {
    opt_field(
        opt_field(opt_field(opt_field(Seq::empty(), "username"@, u), "password"@, p), "email"@, e),
        "serveraddress"@,
        s,
    )
}

/// The credential object as a JSON text.
pub open spec fn auth_json(
    u: Option<Seq<char>>,
    p: Option<Seq<char>>,
    e: Option<Seq<char>>,
    s: Option<Seq<char>>,
) -> Seq<char> {
    seq!['{'] + auth_fields(u, p, e, s) + seq!['}']
}

/// The view of an optional string.
pub open spec fn opt_view(o: Option<String>) -> Option<Seq<char>> {
    match o {
        Option::Some(s) => Option::Some(s@),
        Option::None => Option::None,
    }
}

/// What the credential header holds: absent credentials give the empty
/// string, never a JSON null or an empty object; present credentials give
/// the JSON object with exactly the set fields.
pub open spec fn registry_creds_json(credentials: Option<DockerRegistryAuthConfig>) -> Seq<char> {
    match credentials {
        Option::None => Seq::empty(),
        Option::Some(c) => auth_json(
            opt_view(c.user_name),
            opt_view(c.password),
            opt_view(c.email),
            opt_view(c.server),
        ),
    }
}

/// Absent credentials encode to the empty string; an unset field adds
/// nothing to the member list, so only set fields appear in the output;
/// credentials with nothing set encode to the bare empty object.
pub proof fn lemma_auth_encoder_omits_unset()
    ensures
        registry_creds_json(Option::None) == Seq::<char>::empty(),
        forall|prev: Seq<char>, name: Seq<char>|
            #[trigger] opt_field(prev, name, Option::None) == prev,
        auth_json(Option::None, Option::None, Option::None, Option::None) =~= seq!['{', '}'],
{
}

/// Appends one character's JSON escape.
fn push_escaped_char(out: &mut String, c: char)
    ensures
        final(out)@ == old(out)@ + json_escape_char(c),
{
    if c == '"' {
        push_char(out, '\\');
        push_char(out, '"');
        assert(out@ =~= old(out)@ + json_escape_char(c));
    } else if c == '\\' {
        push_char(out, '\\');
        push_char(out, '\\');
        assert(out@ =~= old(out)@ + json_escape_char(c));
    } else if c == '\u{8}' {
        push_char(out, '\\');
        push_char(out, 'b');
        assert(out@ =~= old(out)@ + json_escape_char(c));
    } else if c == '\t' {
        push_char(out, '\\');
        push_char(out, 't');
        assert(out@ =~= old(out)@ + json_escape_char(c));
    } else if c == '\n' {
        push_char(out, '\\');
        push_char(out, 'n');
        assert(out@ =~= old(out)@ + json_escape_char(c));
    } else if c == '\u{c}' {
        push_char(out, '\\');
        push_char(out, 'f');
        assert(out@ =~= old(out)@ + json_escape_char(c));
    } else if c == '\r' {
        push_char(out, '\\');
        push_char(out, 'r');
        assert(out@ =~= old(out)@ + json_escape_char(c));
    } else if (c as u32) < 32 {
        let code = c as u32;
        push_char(out, '\\');
        push_char(out, 'u');
        push_char(out, '0');
        push_char(out, '0');
        push_char(out, hex_char((code / 16) as u8));
        push_char(out, hex_char((code % 16) as u8));
        assert(out@ =~= old(out)@ + json_escape_char(c));
    } else {
        push_char(out, c);
        assert(out@ =~= old(out)@ + json_escape_char(c));
    }
}

/// The lower-case hexadecimal digit for `n`.
fn hex_char(n: u8) -> (r: char)
    requires
        n < 16,
    ensures
        r == hex_digit(n as int),
{
    match n {
        0 => '0',
        1 => '1',
        2 => '2',
        3 => '3',
        4 => '4',
        5 => '5',
        6 => '6',
        7 => '7',
        8 => '8',
        9 => '9',
        10 => 'a',
        11 => 'b',
        12 => 'c',
        13 => 'd',
        14 => 'e',
        _ => 'f',
    }
}

/// Escaping a string one character more escapes the prefix, then that
/// character.
proof fn lemma_json_escaped_take(s: Seq<char>, i: int)
    requires
        0 <= i < s.len(),
    ensures
        json_escaped(s.take(i + 1)) == json_escaped(s.take(i)) + json_escape_char(s[i]),
{
    assert(s.take(i + 1).drop_last() =~= s.take(i));
    assert(s.take(i + 1).last() == s[i]);
}

/// Appends a whole JSON string literal for `s`.
fn push_json_string(out: &mut String, s: &str)
    ensures
        final(out)@ == old(out)@ + json_string(s@),
{
    push_char(out, '"');
    let n = s.unicode_len();
    let mut i: usize = 0;
    while i < n
        invariant
            n == s@.len(),
            0 <= i <= n,
            out@ == old(out)@ + seq!['"'] + json_escaped(s@.take(i as int)),
        decreases n - i,
    {
        let c = s.get_char(i);
        push_escaped_char(out, c);
        proof {
            lemma_json_escaped_take(s@, i as int);
            assert(out@ =~= old(out)@ + seq!['"'] + json_escaped(s@.take(i as int + 1)));
        }
        i = i + 1;
    }
    proof {
        assert(s@.take(n as int) =~= s@);
    }
    push_char(out, '"');
    assert(out@ =~= old(out)@ + json_string(s@));
}

/// Appends one `"name":"value"` member.
fn push_field(out: &mut String, name: &str, value: &str)
    ensures
        final(out)@ == old(out)@ + field_json(name@, value@),
{
    push_char(out, '"');
    out.append(name);
    push_char(out, '"');
    push_char(out, ':');
    push_json_string(out, value);
    assert(out@ =~= old(out)@ + field_json(name@, value@));
}

/// Appends an optional member, with a separating comma when members
/// already stand in the list.
fn push_opt_field(out: &mut String, started: bool, name: &str, value: Option<&String>) -> (r: bool)
    requires
        started == (old(out)@.len() != 0),
    ensures
        final(out)@ == opt_field(
            old(out)@,
            name@,
            match value {
                Option::Some(v) => Option::Some(v@),
                Option::None => Option::None,
            },
        ),
        r == (final(out)@.len() != 0),
        name@.len() > 0 && (value matches Some(_)) ==> r,
        old(out)@.len() != 0 ==> final(out)@.len() != 0,

{
    match value {
        Some(v) => {
            if started {
                push_char(out, ',');
                push_field(out, name, v.as_str());
                assert(out@ =~= opt_field(old(out)@, name@, Option::Some(v@)));
            } else {
                push_field(out, name, v.as_str());
                assert(out@ =~= opt_field(old(out)@, name@, Option::Some(v@)));
            }
            assert(out@.len() >= old(out)@.len() + field_json(name@, v@).len());
            assert(field_json(name@, v@).len() >= 2);
            true
        },
        None => started,
    }
}

/// Encodes optional registry credentials into the engine's credential
/// header: the empty string when absent, otherwise a JSON object naming
/// exactly the fields that are set.
pub fn serialize_registry_creds(credentials: Option<&DockerRegistryAuthConfig>) -> (r: Result<
    String,
    Error,
>)
    ensures
        r matches Ok(s) && s@ == registry_creds_json(
            match credentials {
                Option::Some(c) => Option::Some(*c),
                Option::None => Option::None,
            },
        ),
{
    match credentials {
        None => Ok(String::new()),
        Some(creds) => {
            let mut fields = String::new();
            let mut started: bool = false;
            started = push_opt_field(&mut fields, started, "username", creds.user_name.as_ref());
            started = push_opt_field(&mut fields, started, "password", creds.password.as_ref());
            started = push_opt_field(&mut fields, started, "email", creds.email.as_ref());
            started = push_opt_field(
                &mut fields,
                started,
                "serveraddress",
                creds.server.as_ref(),
            );
            let mut out = String::new();
            push_char(&mut out, '{');
            out.append(fields.as_str());
            push_char(&mut out, '}');
            proof {
                assert(fields@ == auth_fields(
                    opt_view(creds.user_name),
                    opt_view(creds.password),
                    opt_view(creds.email),
                    opt_view(creds.server),
                ));
                assert(out@ =~= seq!['{'] + fields@ + seq!['}']);
            }
            Ok(out)
        },
    }
}

} // verus!
