//! Pure rendering of a service descriptor to the unit file text.
//!
//! The text is fully pinned down by spec functions: [`spec_unit_text`] is the
//! one and only text a descriptor renders to, so rendering is deterministic
//! by construction. Sections come in the fixed order `[Unit]`, `[Install]`,
//! `[Service]`; within the `[Service]` section the environment lines come in
//! the order of the descriptor's (key-sorted) environment; every line ends
//! with a single line feed.

use vstd::prelude::*;
use vstd::string::{StrSliceExecFns, StringExecFns};

use crate::config::ServiceConfig;

verus! {

/// A value bound to a key of a unit-file section: a single value, or one
/// value per line for a key that repeats (the environment lines).
#[derive(Debug, Clone)]
pub enum SystemdValue {
    Str(String),
    List(Vec<String>),
}

/// One `Key=Value` line, ended by a line feed.
pub open spec fn kv_line(key: Seq<char>, value: Seq<char>) -> Seq<char> {
    key + seq!['='] + value + seq!['\n']
}

/// One `[Name]` section header line, ended by a line feed.
pub open spec fn header_line(name: Seq<char>) -> Seq<char> {
    seq!['['] + name + seq![']', '\n']
}

/// The lines of a key bound to a list of values: one line per value, in the
/// order the values were supplied.
pub open spec fn list_lines(key: Seq<char>, values: Seq<String>) -> Seq<char>
    decreases values.len(),
{
    if values.len() == 0 {
        Seq::empty()
    } else {
        kv_line(key, values[0]@) + list_lines(key, values.drop_first())
    }
}

/// The line or lines of one section entry.
pub open spec fn value_lines(key: Seq<char>, value: SystemdValue) -> Seq<char> {
    match value {
        SystemdValue::Str(s) => kv_line(key, s@),
        SystemdValue::List(vs) => list_lines(key, vs@),
    }
}

/// The lines of a section's entries, in entry order.
pub open spec fn entry_lines(entries: Seq<(String, SystemdValue)>) -> Seq<char>
    decreases entries.len(),
{
    if entries.len() == 0 {
        Seq::empty()
    } else {
        value_lines(entries[0].0@, entries[0].1) + entry_lines(entries.drop_first())
    }
}

/// A whole section: its header line, then its entries' lines.
pub open spec fn section_text(name: Seq<char>, entries: Seq<(String, SystemdValue)>) -> Seq<char> {
    header_line(name) + entry_lines(entries)
}

/// A command token with its inner double quotes backslash-escaped. This
/// quoting is deliberately naive: backslashes and other metacharacters pass
/// through unchanged.
pub open spec fn escape_quotes(s: Seq<char>) -> Seq<char>
    decreases s.len(),
{
    if s.len() == 0 {
        Seq::empty()
    } else {
        (if s[0] == '"' {
            seq!['\\', '"']
        } else {
            seq![s[0]]
        }) + escape_quotes(s.drop_first())
    }
}

/// A command token wrapped in double quotes, inner quotes escaped.
pub open spec fn quoted_token(s: Seq<char>) -> Seq<char> {
    seq!['"'] + escape_quotes(s) + seq!['"']
}

/// A command line: each token quoted, tokens joined by single spaces.
pub open spec fn quote_command(cmd: Seq<String>) -> Seq<char>
    decreases cmd.len(),
{
    if cmd.len() == 0 {
        Seq::empty()
    } else if cmd.len() == 1 {
        quoted_token(cmd[0]@)
    } else {
        quoted_token(cmd[0]@) + seq![' '] + quote_command(cmd.drop_first())
    }
}

/// The environment lines: one `Environment=KEY=VALUE` line per entry, in
/// entry order.
pub open spec fn env_lines(env: Seq<(String, String)>) -> Seq<char>
    decreases env.len(),
{
    if env.len() == 0 {
        Seq::empty()
    } else {
        kv_line("Environment"@, env[0].0@ + seq!['='] + env[0].1@) + env_lines(env.drop_first())
    }
}

/// The `[Unit]` section of a descriptor: its name as the description.
pub open spec fn unit_section_lines(c: ServiceConfig) -> Seq<char> {
    header_line("Unit"@) + kv_line("Description"@, c.name@)
}

/// The `[Install]` section of a descriptor: a fixed install policy.
pub open spec fn install_section_lines(c: ServiceConfig) -> Seq<char> {
    header_line("Install"@) + kv_line("WantedBy"@, "multi-user.target"@)
}

/// The `[Service]` section of a descriptor: environment lines, the quoted
/// command line, and a fixed service type, in the keys' alphabetical order.
pub open spec fn service_section_lines(c: ServiceConfig) -> Seq<char> {
    header_line("Service"@) + env_lines(c.env@) + kv_line("ExecStart"@, quote_command(c.command@))
        + kv_line("Type"@, "simple"@)
}

/// The complete unit file text of a descriptor.
pub open spec fn spec_unit_text(c: ServiceConfig) -> Seq<char> {
    unit_section_lines(c) + install_section_lines(c) + service_section_lines(c)
}

proof fn lemma_escape_quotes_snoc(s: Seq<char>, c: char)
    ensures
        escape_quotes(s.push(c)) == escape_quotes(s) + (if c == '"' {
            seq!['\\', '"']
        } else {
            seq![c]
        }),
    decreases s.len(),
{
    let tail = if c == '"' {
        seq!['\\', '"']
    } else {
        seq![c]
    };
    if s.len() == 0 {
        assert(s.push(c).drop_first() =~= Seq::<char>::empty());
        assert(escape_quotes(s.push(c)) =~= escape_quotes(s) + tail);
    } else {
        assert(s.push(c).drop_first() =~= s.drop_first().push(c));
        lemma_escape_quotes_snoc(s.drop_first(), c);
        let head = if s[0] == '"' {
            seq!['\\', '"']
        } else {
            seq![s[0]]
        };
        assert(s.push(c)[0] == s[0]);
        assert(escape_quotes(s.push(c)) == head + escape_quotes(s.push(c).drop_first()));
        assert(escape_quotes(s.push(c).drop_first()) == escape_quotes(s.drop_first().push(c)));
        assert(escape_quotes(s) == head + escape_quotes(s.drop_first()));
        assert(head + (escape_quotes(s.drop_first()) + tail) =~= (head + escape_quotes(
            s.drop_first(),
        )) + tail);
    }
}

proof fn lemma_quote_command_snoc(cmd: Seq<String>, t: String)
    ensures
        quote_command(cmd.push(t)) == if cmd.len() == 0 {
            quoted_token(t@)
        } else {
            quote_command(cmd) + seq![' '] + quoted_token(t@)
        },
    decreases cmd.len(),
{
    if cmd.len() == 0 {
        assert(cmd.push(t)[0] == t);
    } else {
        assert(cmd.push(t).drop_first() =~= cmd.drop_first().push(t));
        lemma_quote_command_snoc(cmd.drop_first(), t);
        if cmd.len() == 1 {
            assert(quote_command(cmd.push(t)) =~= quote_command(cmd) + seq![' '] + quoted_token(
                t@,
            ));
        } else {
            assert(quote_command(cmd.push(t)) =~= quote_command(cmd) + seq![' '] + quoted_token(
                t@,
            ));
        }
    }
}

proof fn lemma_list_lines_snoc(key: Seq<char>, values: Seq<String>, v: String)
    ensures
        list_lines(key, values.push(v)) == list_lines(key, values) + kv_line(key, v@),
    decreases values.len(),
{
    if values.len() == 0 {
        assert(values =~= Seq::<String>::empty());
        assert(values.push(v).drop_first() =~= Seq::<String>::empty());
        assert(list_lines(key, Seq::<String>::empty()) == Seq::<char>::empty());
        assert(values.push(v)[0] == v);
        assert(list_lines(key, values.push(v)) == kv_line(key, v@) + list_lines(
            key,
            values.push(v).drop_first(),
        ));
        assert(list_lines(key, values.push(v)) =~= list_lines(key, values) + kv_line(key, v@));
    } else {
        assert(values.push(v).drop_first() =~= values.drop_first().push(v));
        lemma_list_lines_snoc(key, values.drop_first(), v);
        let head = kv_line(key, values[0]@);
        assert(values.push(v)[0] == values[0]);
        assert(list_lines(key, values.push(v)) == head + list_lines(key, values.push(v).drop_first()));
        assert(list_lines(key, values) == head + list_lines(key, values.drop_first()));
        assert(head + (list_lines(key, values.drop_first()) + kv_line(key, v@)) =~= (head
            + list_lines(key, values.drop_first())) + kv_line(key, v@));
    }
}

proof fn lemma_entry_lines_snoc(entries: Seq<(String, SystemdValue)>, e: (String, SystemdValue))
    ensures
        entry_lines(entries.push(e)) == entry_lines(entries) + value_lines(e.0@, e.1),
    decreases entries.len(),
{
    if entries.len() == 0 {
        assert(entries =~= Seq::<(String, SystemdValue)>::empty());
        assert(entries.push(e).drop_first() =~= Seq::<(String, SystemdValue)>::empty());
        assert(entry_lines(Seq::<(String, SystemdValue)>::empty()) == Seq::<char>::empty());
        assert(entries.push(e)[0] == e);
        assert(entry_lines(entries.push(e)) == value_lines(e.0@, e.1) + entry_lines(
            entries.push(e).drop_first(),
        ));
        assert(entry_lines(entries.push(e)) =~= entry_lines(entries) + value_lines(e.0@, e.1));
    } else {
        assert(entries.push(e).drop_first() =~= entries.drop_first().push(e));
        lemma_entry_lines_snoc(entries.drop_first(), e);
        let head = value_lines(entries[0].0@, entries[0].1);
        assert(entries.push(e)[0] == entries[0]);
        assert(entry_lines(entries.push(e)) == head + entry_lines(entries.push(e).drop_first()));
        assert(entry_lines(entries) == head + entry_lines(entries.drop_first()));
        assert(head + (entry_lines(entries.drop_first()) + value_lines(e.0@, e.1)) =~= (head
            + entry_lines(entries.drop_first())) + value_lines(e.0@, e.1));
    }
}

/// Appends one `key=value` line to `out`.
fn append_kv_line(out: &mut String, key: &str, value: &str)
    ensures
        final(out)@ == old(out)@ + kv_line(key@, value@),
{
    out.append(key);
    out.append("=");
    out.append(value);
    out.append("\n");
    proof {
        reveal_strlit("=");
        reveal_strlit("\n");
        assert(out@ =~= old(out)@ + kv_line(key@, value@));
    }
}

/// Renders one section: its bracketed header, then one line per entry value,
/// in entry order.
pub fn serialize_systemd_section(name: &str, entries: &Vec<(String, SystemdValue)>) -> (r: String)
    ensures
        r@ == section_text(name@, entries@),
{
    let mut out = String::new();
    out.append("[");
    out.append(name);
    out.append("]\n");
    proof {
        reveal_strlit("[");
        reveal_strlit("]\n");
        assert(out@ =~= header_line(name@));
        assert(entries@.subrange(0, 0) =~= Seq::<(String, SystemdValue)>::empty());
    }
    let mut i: usize = 0;
    while i < entries.len()
        invariant
            0 <= i <= entries@.len(),
            out@ == header_line(name@) + entry_lines(entries@.subrange(0, i as int)),
        decreases entries@.len() - i,
    {
        let ghost done = entries@.subrange(0, i as int);
        match &entries[i].1 {
            SystemdValue::Str(value) => {
                append_kv_line(&mut out, entries[i].0.as_str(), value.as_str());
            },
            SystemdValue::List(values) => {
                let ghost key = entries@[i as int].0@;
                let mut j: usize = 0;
                proof {
                    assert(values@.subrange(0, 0) =~= Seq::<String>::empty());
                }
                while j < values.len()
                    invariant
                        0 <= j <= values@.len(),
                        entries@[i as int].1 == SystemdValue::List(*values),
                        0 <= i < entries@.len(),
                        key == entries@[i as int].0@,
                        out@ == header_line(name@) + entry_lines(done) + list_lines(
                            key,
                            values@.subrange(0, j as int),
                        ),
                    decreases values@.len() - j,
                {
                    append_kv_line(&mut out, entries[i].0.as_str(), values[j].as_str());
                    proof {
                        lemma_list_lines_snoc(key, values@.subrange(0, j as int), values@[j as int]);
                        assert(values@.subrange(0, j + 1) =~= values@.subrange(0, j as int).push(
                            values@[j as int],
                        ));
                    }
                    j = j + 1;
                }
                proof {
                    assert(values@.subrange(0, values@.len() as int) =~= values@);
                }
            },
        }
        proof {
            lemma_entry_lines_snoc(done, entries@[i as int]);
            assert(entries@.subrange(0, i + 1) =~= done.push(entries@[i as int]));
        }
        i = i + 1;
    }
    proof {
        assert(entries@.subrange(0, entries@.len() as int) =~= entries@);
    }
    out
}

/// Appends one double-quoted token to `out`, escaping inner quotes.
fn append_quoted_token(out: &mut String, token: &str)
    ensures
        final(out)@ == old(out)@ + quoted_token(token@),
{
    out.append("\"");
    proof {
        reveal_strlit("\"");
        assert(out@ =~= old(out)@ + seq!['"'] + escape_quotes(token@.subrange(0, 0)));
    }
    let n = token.unicode_len();
    let mut i: usize = 0;
    while i < n
        invariant
            0 <= i <= n,
            n == token@.len(),
            out@ == old(out)@ + seq!['"'] + escape_quotes(token@.subrange(0, i as int)),
        decreases n - i,
    {
        let c = token.get_char(i);
        if c == '"' {
            out.append("\\\"");
            proof {
                reveal_strlit("\\\"");
            }
        } else {
            out.push(c);
        }
        proof {
            lemma_escape_quotes_snoc(token@.subrange(0, i as int), token@[i as int]);
            assert(token@.subrange(0, i + 1) =~= token@.subrange(0, i as int).push(
                token@[i as int],
            ));
            assert(out@ =~= old(out)@ + seq!['"'] + escape_quotes(token@.subrange(0, i + 1)));
        }
        i = i + 1;
    }
    out.append("\"");
    proof {
        assert(token@.subrange(0, token@.len() as int) =~= token@);
        assert(out@ =~= old(out)@ + quoted_token(token@));
    }
}

/// Renders a command line: each token double-quoted with inner quotes
/// escaped, tokens joined by single spaces.
pub fn systemd_quote(strings: Vec<String>) -> (r: String)
    ensures
        r@ == quote_command(strings@),
{
    let mut out = String::new();
    let mut i: usize = 0;
    proof {
        assert(strings@.subrange(0, 0) =~= Seq::<String>::empty());
    }
    while i < strings.len()
        invariant
            0 <= i <= strings@.len(),
            out@ == quote_command(strings@.subrange(0, i as int)),
        decreases strings@.len() - i,
    {
        if i > 0 {
            out.append(" ");
            proof {
                reveal_strlit(" ");
                assert(out@ =~= quote_command(strings@.subrange(0, i as int)) + seq![' ']);
            }
        }
        append_quoted_token(&mut out, strings[i].as_str());
        proof {
            lemma_quote_command_snoc(strings@.subrange(0, i as int), strings@[i as int]);
            assert(strings@.subrange(0, i + 1) =~= strings@.subrange(0, i as int).push(
                strings@[i as int],
            ));
        }
        i = i + 1;
    }
    proof {
        assert(strings@.subrange(0, strings@.len() as int) =~= strings@);
    }
    out
}

/// The environment entry of the `[Service]` section renders one line per
/// `KEY=VALUE` value, which is exactly the descriptor's environment lines.
pub proof fn lemma_list_lines_env(values: Seq<String>, env: Seq<(String, String)>)
    requires
        values.len() == env.len(),
        forall|i: int|
            0 <= i < env.len() ==> #[trigger] values[i]@ == env[i].0@ + seq!['='] + env[i].1@,
    ensures
        list_lines("Environment"@, values) == env_lines(env),
    decreases env.len(),
{
    if env.len() != 0 {
        assert(values.drop_first().len() == env.drop_first().len());
        assert(forall|i: int|
            0 <= i < env.drop_first().len() ==> #[trigger] values.drop_first()[i] == values[i + 1]
                && env.drop_first()[i] == env[i + 1]);
        lemma_list_lines_env(values.drop_first(), env.drop_first());
    }
}

/// No carriage return occurs in the sequence.
pub open spec fn no_cr(s: Seq<char>) -> bool {
    forall|i: int| 0 <= i < s.len() ==> #[trigger] s[i] != '\r'
}

/// No field of the descriptor contains a carriage return.
pub open spec fn config_no_cr(c: ServiceConfig) -> bool {
    &&& no_cr(c.name@)
    &&& forall|i: int| 0 <= i < c.command@.len() ==> no_cr(#[trigger] c.command@[i]@)
    &&& forall|i: int|
        0 <= i < c.env@.len() ==> no_cr(#[trigger] c.env@[i].0@) && no_cr(c.env@[i].1@)
}

proof fn lemma_no_cr_concat(a: Seq<char>, b: Seq<char>)
    requires
        no_cr(a),
        no_cr(b),
    ensures
        no_cr(a + b),
{
    assert forall|i: int| 0 <= i < (a + b).len() implies #[trigger] (a + b)[i] != '\r' by {
        if i < a.len() {
            assert((a + b)[i] == a[i]);
        } else {
            assert((a + b)[i] == b[i - a.len()]);
        }
    }
}

proof fn lemma_no_cr_kv_line(key: Seq<char>, value: Seq<char>)
    requires
        no_cr(key),
        no_cr(value),
    ensures
        no_cr(kv_line(key, value)),
{
    lemma_no_cr_concat(key, seq!['=']);
    lemma_no_cr_concat(key + seq!['='], value);
    lemma_no_cr_concat(key + seq!['='] + value, seq!['\n']);
}

proof fn lemma_no_cr_header_line(name: Seq<char>)
    requires
        no_cr(name),
    ensures
        no_cr(header_line(name)),
{
    lemma_no_cr_concat(seq!['['], name);
    lemma_no_cr_concat(seq!['['] + name, seq![']', '\n']);
}

proof fn lemma_no_cr_escape_quotes(s: Seq<char>)
    requires
        no_cr(s),
    ensures
        no_cr(escape_quotes(s)),
    decreases s.len(),
{
    if s.len() != 0 {
        assert(no_cr(s.drop_first())) by {
            assert(forall|i: int|
                0 <= i < s.drop_first().len() ==> #[trigger] s.drop_first()[i] == s[i + 1]);
        }
        lemma_no_cr_escape_quotes(s.drop_first());
        let head = if s[0] == '"' {
            seq!['\\', '"']
        } else {
            seq![s[0]]
        };
        assert(no_cr(head));
        lemma_no_cr_concat(head, escape_quotes(s.drop_first()));
    }
}

proof fn lemma_no_cr_quoted_token(s: Seq<char>)
    requires
        no_cr(s),
    ensures
        no_cr(quoted_token(s)),
{
    lemma_no_cr_escape_quotes(s);
    lemma_no_cr_concat(seq!['"'], escape_quotes(s));
    lemma_no_cr_concat(seq!['"'] + escape_quotes(s), seq!['"']);
}

proof fn lemma_no_cr_quote_command(cmd: Seq<String>)
    requires
        forall|i: int| 0 <= i < cmd.len() ==> no_cr(#[trigger] cmd[i]@),
    ensures
        no_cr(quote_command(cmd)),
    decreases cmd.len(),
{
    if cmd.len() == 0 {
    } else if cmd.len() == 1 {
        lemma_no_cr_quoted_token(cmd[0]@);
    } else {
        lemma_no_cr_quoted_token(cmd[0]@);
        assert(forall|i: int|
            0 <= i < cmd.drop_first().len() ==> #[trigger] cmd.drop_first()[i] == cmd[i + 1]);
        lemma_no_cr_quote_command(cmd.drop_first());
        lemma_no_cr_concat(quoted_token(cmd[0]@), seq![' ']);
        lemma_no_cr_concat(quoted_token(cmd[0]@) + seq![' '], quote_command(cmd.drop_first()));
    }
}

proof fn lemma_no_cr_env_lines(env: Seq<(String, String)>)
    requires
        forall|i: int| 0 <= i < env.len() ==> no_cr(#[trigger] env[i].0@) && no_cr(env[i].1@),
    ensures
        no_cr(env_lines(env)),
    decreases env.len(),
{
    if env.len() != 0 {
        assert(no_cr("Environment"@)) by {
            reveal_strlit("Environment");
        }
        lemma_no_cr_concat(env[0].0@, seq!['=']);
        lemma_no_cr_concat(env[0].0@ + seq!['='], env[0].1@);
        lemma_no_cr_kv_line("Environment"@, env[0].0@ + seq!['='] + env[0].1@);
        assert(forall|i: int|
            0 <= i < env.drop_first().len() ==> #[trigger] env.drop_first()[i] == env[i + 1]);
        lemma_no_cr_env_lines(env.drop_first());
        lemma_no_cr_concat(
            kv_line("Environment"@, env[0].0@ + seq!['='] + env[0].1@),
            env_lines(env.drop_first()),
        );
    }
}

/// Law: the renderer only emits line-feed line endings. If no field of the
/// descriptor contains a carriage return, the rendered text contains none
/// either, so the byte pair `\r\n` cannot occur in it.
pub proof fn lemma_unit_text_no_cr(c: ServiceConfig)
    requires
        config_no_cr(c),
    ensures
        no_cr(spec_unit_text(c)),
{
    reveal_strlit("Unit");
    reveal_strlit("Description");
    reveal_strlit("Install");
    reveal_strlit("WantedBy");
    reveal_strlit("multi-user.target");
    reveal_strlit("Service");
    reveal_strlit("ExecStart");
    reveal_strlit("Type");
    reveal_strlit("simple");
    lemma_no_cr_header_line("Unit"@);
    lemma_no_cr_kv_line("Description"@, c.name@);
    lemma_no_cr_concat(header_line("Unit"@), kv_line("Description"@, c.name@));
    lemma_no_cr_header_line("Install"@);
    lemma_no_cr_kv_line("WantedBy"@, "multi-user.target"@);
    lemma_no_cr_concat(header_line("Install"@), kv_line("WantedBy"@, "multi-user.target"@));
    lemma_no_cr_header_line("Service"@);
    lemma_no_cr_env_lines(c.env@);
    lemma_no_cr_quote_command(c.command@);
    lemma_no_cr_kv_line("ExecStart"@, quote_command(c.command@));
    lemma_no_cr_kv_line("Type"@, "simple"@);
    lemma_no_cr_concat(header_line("Service"@), env_lines(c.env@));
    lemma_no_cr_concat(
        header_line("Service"@) + env_lines(c.env@),
        kv_line("ExecStart"@, quote_command(c.command@)),
    );
    lemma_no_cr_concat(
        header_line("Service"@) + env_lines(c.env@) + kv_line(
            "ExecStart"@,
            quote_command(c.command@),
        ),
        kv_line("Type"@, "simple"@),
    );
    lemma_no_cr_concat(unit_section_lines(c), install_section_lines(c));
    lemma_no_cr_concat(
        unit_section_lines(c) + install_section_lines(c),
        service_section_lines(c),
    );
}

/// Law: the rendered text is the `[Unit]`, `[Install]` and `[Service]`
/// sections in that fixed order, whatever the descriptor holds: the text is
/// their concatenation, and each part opens with its own header line.
pub proof fn lemma_section_order(c: ServiceConfig)
    ensures
        spec_unit_text(c) == unit_section_lines(c) + install_section_lines(c)
            + service_section_lines(c),
        unit_section_lines(c).take(7) == "[Unit]\n"@,
        install_section_lines(c).take(10) == "[Install]\n"@,
        service_section_lines(c).take(10) == "[Service]\n"@,
{
    reveal_strlit("Unit");
    reveal_strlit("[Unit]\n");
    reveal_strlit("Install");
    reveal_strlit("[Install]\n");
    reveal_strlit("Service");
    reveal_strlit("[Service]\n");
    assert(header_line("Unit"@).len() == 7);
    assert(unit_section_lines(c).take(7) =~= "[Unit]\n"@);
    assert(header_line("Install"@).len() == 10);
    assert(install_section_lines(c).take(10) =~= "[Install]\n"@);
    assert(header_line("Service"@).len() == 10);
    assert(service_section_lines(c).take(10) =~= "[Service]\n"@);
}

/// Law: rendering is deterministic. The rendered text is a mathematical
/// function of the descriptor alone, so together with the renderer's
/// postcondition, any two renders of equal descriptors are byte-identical.
pub proof fn lemma_render_deterministic(c1: ServiceConfig, c2: ServiceConfig)
    requires
        c1 == c2,
    ensures
        spec_unit_text(c1) == spec_unit_text(c2),
{
}


} // verus!
