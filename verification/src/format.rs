//! The persisted text document: a line-oriented `key = value` format.
//!
//! Every field of the persisted configuration appears on its own line, in a
//! fixed order. String values stand in double quotes with `\\`, `\"`, `\n`
//! and `\r` escaped; absent optional strings, numbers, booleans and the
//! other enumerated values stand as bare words ending at the newline. The
//! renderer and the parser are exact inverses, which is proved here.

use vstd::prelude::*;

use crate::numbers::dec_digits;
use crate::numbers::dec_opt;
use crate::numbers::is_digit;
use crate::numbers::lemma_dec_round_trip;
use crate::platform::Platform;
use crate::platform::platform_of_word;
use crate::platform::platform_word;
use crate::strutil::chars_eq_str;
use crate::strutil::push_chars;
use crate::strutil::push_str_chars;

verus! {

// ---------------------------------------------------------------- escaping
/// The rendering of one character inside a quoted value.
pub open spec fn esc_char(c: char) -> Seq<char> {
    if c == '\\' {
        seq!['\\', '\\']
    } else if c == '"' {
        seq!['\\', '"']
    } else if c == '\n' {
        seq!['\\', 'n']
    } else if c == '\r' {
        seq!['\\', 'r']
    } else {
        seq![c]
    }
}

/// The rendering of a whole quoted value's body.
pub open spec fn escape(s: Seq<char>) -> Seq<char>
    decreases s.len(),
{
    if s.len() == 0 {
        Seq::empty()
    } else {
        esc_char(s[0]) + escape(s.skip(1))
    }
}

/// The character an escape pair denotes, if any.
pub open spec fn unesc_char(c: char) -> Option<char> {
    if c == '\\' {
        Some('\\')
    } else if c == '"' {
        Some('"')
    } else if c == 'n' {
        Some('\n')
    } else if c == 'r' {
        Some('\r')
    } else {
        None
    }
}

/// Escaping appends one character's rendering at a time.
pub proof fn lemma_escape_snoc(s: Seq<char>, c: char)
    ensures
        escape(s.push(c)) == escape(s) + esc_char(c),
    decreases s.len(),
{
    if s.len() == 0 {
        assert(s.push(c).len() == 1);
        assert(s.push(c)[0] == c);
        assert(s.push(c).skip(1) =~= Seq::<char>::empty());
        assert(escape(Seq::<char>::empty()) == Seq::<char>::empty());
        assert(escape(s.push(c)) == esc_char(c) + Seq::<char>::empty());
        assert(esc_char(c) + Seq::<char>::empty() =~= esc_char(c));
        assert(escape(s) == Seq::<char>::empty());
        assert(escape(s) + esc_char(c) =~= esc_char(c));
    } else {
        assert(s.push(c)[0] == s[0]);
        assert(s.push(c).skip(1) =~= s.skip(1).push(c));
        lemma_escape_snoc(s.skip(1), c);
        assert(esc_char(s[0]) + (escape(s.skip(1)) + esc_char(c)) =~= (esc_char(s[0]) + escape(
            s.skip(1),
        )) + esc_char(c));
    }
}

// ------------------------------------------------------------- combinators
/// Concatenation of sequences is associative.
pub proof fn lemma_add_assoc(a: Seq<char>, b: Seq<char>, c: Seq<char>)
    ensures
        (a + b) + c == a + (b + c),
{
    assert forall|i: int| 0 <= i < ((a + b) + c).len() implies ((a + b) + c)[i] == (a + (b
        + c))[i] by {
        if i < a.len() {
        } else if i < a.len() + b.len() {
        }
    }
    assert((a + b) + c =~= a + (b + c));
}

/// Whether `p` is a prefix of `s`.
pub open spec fn starts_with(s: Seq<char>, p: Seq<char>) -> bool {
    p.len() <= s.len() && s.subrange(0, p.len() as int) == p
}

/// Consumes the exact prefix `p`, yielding the remainder.
pub open spec fn eat_lit(s: Seq<char>, p: Seq<char>) -> Option<Seq<char>> {
    if starts_with(s, p) {
        Some(s.skip(p.len() as int))
    } else {
        None
    }
}

/// Consuming a prefix that is there yields exactly what follows it.
pub proof fn lemma_eat_lit(p: Seq<char>, rest: Seq<char>)
    ensures
        eat_lit(p + rest, p) == Some(rest),
{
    assert((p + rest).subrange(0, p.len() as int) =~= p);
    assert((p + rest).skip(p.len() as int) =~= rest);
}

/// Consumes a quoted value's body up to and including the closing quote,
/// undoing the escapes; yields the body and the remainder.
pub open spec fn parse_qbody(s: Seq<char>) -> Option<(Seq<char>, Seq<char>)>
    decreases s.len(),
{
    if s.len() == 0 {
        None
    } else if s[0] == '"' {
        Some((Seq::empty(), s.skip(1)))
    } else if s[0] == '\\' {
        if s.len() < 2 {
            None
        } else {
            match unesc_char(s[1]) {
                None => None,
                Some(ch) => match parse_qbody(s.skip(2)) {
                    None => None,
                    Some(p) => Some((seq![ch] + p.0, p.1)),
                },
            }
        }
    } else {
        match parse_qbody(s.skip(1)) {
            None => None,
            Some(p) => Some((seq![s[0]] + p.0, p.1)),
        }
    }
}

/// Parsing an escaped body followed by the closing quote undoes the
/// escaping exactly.
pub proof fn lemma_qbody_round_trip(v: Seq<char>, rest: Seq<char>)
    ensures
        parse_qbody(escape(v) + seq!['"'] + rest) == Some((v, rest)),
    decreases v.len(),
{
    let s = escape(v) + seq!['"'] + rest;
    if v.len() == 0 {
        assert(s =~= seq!['"'] + rest);
        assert(s[0] == '"');
        assert(s.skip(1) =~= rest);
        assert(Seq::<char>::empty() =~= v);
    } else {
        let c = v[0];
        let s1 = escape(v.skip(1)) + seq!['"'] + rest;
        lemma_qbody_round_trip(v.skip(1), rest);
        assert(seq![c] + v.skip(1) =~= v);
        if c == '\\' || c == '"' || c == '\n' || c == '\r' {
            let e = if c == '\\' {
                '\\'
            } else if c == '"' {
                '"'
            } else if c == '\n' {
                'n'
            } else {
                'r'
            };
            assert(esc_char(c) =~= seq!['\\', e]);
            assert(s =~= seq!['\\', e] + s1);
            assert(s[0] == '\\' && s[1] == e);
            assert(unesc_char(e) == Some(c));
            assert(s.skip(2) =~= s1);
        } else {
            assert(esc_char(c) =~= seq![c]);
            assert(s =~= seq![c] + s1);
            assert(s[0] == c);
            assert(s.skip(1) =~= s1);
        }
    }
}

/// Consumes a bare word: everything up to the next newline, which must be
/// there; yields the word and what follows the newline.
pub open spec fn parse_word(s: Seq<char>) -> Option<(Seq<char>, Seq<char>)>
    decreases s.len(),
{
    if s.len() == 0 {
        None
    } else if s[0] == '\n' {
        Some((Seq::empty(), s.skip(1)))
    } else {
        match parse_word(s.skip(1)) {
            None => None,
            Some(p) => Some((seq![s[0]] + p.0, p.1)),
        }
    }
}

/// Parsing a newline-free word followed by a newline yields the word.
pub proof fn lemma_word_round_trip(w: Seq<char>, rest: Seq<char>)
    requires
        !w.contains('\n'),
    ensures
        parse_word(w + seq!['\n'] + rest) == Some((w, rest)),
    decreases w.len(),
{
    let s = w + seq!['\n'] + rest;
    if w.len() == 0 {
        assert(s =~= seq!['\n'] + rest);
        assert(s[0] == '\n');
        assert(s.skip(1) =~= rest);
        assert(Seq::<char>::empty() =~= w);
    } else {
        assert(s[0] == w[0]);
        if w[0] == '\n' {
            assert(w.contains('\n'));
        }
        assert(!w.skip(1).contains('\n')) by {
            if w.skip(1).contains('\n') {
                let i = choose|i: int| 0 <= i < w.skip(1).len() && w.skip(1)[i] == '\n';
                assert(w[i + 1] == '\n');
                assert(w.contains('\n'));
            }
        }
        assert(s.skip(1) =~= w.skip(1) + seq!['\n'] + rest);
        lemma_word_round_trip(w.skip(1), rest);
        assert(seq![w[0]] + w.skip(1) =~= w);
    }
}

// ------------------------------------------------------------------- lines
/// A mandatory quoted line: `key = "…"` and a newline.
pub open spec fn qline(key: Seq<char>, v: Seq<char>) -> Seq<char> {
    key + " = \""@ + escape(v) + "\"\n"@
}

/// An optional-string line: quoted when present, the word `none` otherwise.
pub open spec fn ostr_line(key: Seq<char>, ov: Option<Seq<char>>) -> Seq<char> {
    match ov {
        Some(v) => key + " = \""@ + escape(v) + "\"\n"@,
        None => key + " = "@ + "none\n"@,
    }
}

/// A bare-word line: `key = word` and a newline.
pub open spec fn wline(key: Seq<char>, w: Seq<char>) -> Seq<char> {
    key + " = "@ + w + "\n"@
}

/// Parses a mandatory quoted line.
pub open spec fn parse_qline(s: Seq<char>, key: Seq<char>) -> Option<(Seq<char>, Seq<char>)> {
    match eat_lit(s, key) {
        None => None,
        Some(r0) => match eat_lit(r0, " = \""@) {
            None => None,
            Some(r1) => match parse_qbody(r1) {
                None => None,
                Some(p) => match eat_lit(p.1, "\n"@) {
                    None => None,
                    Some(r2) => Some((p.0, r2)),
                },
            },
        },
    }
}

/// Parses an optional-string line.
pub open spec fn parse_ostr_line(s: Seq<char>, key: Seq<char>) -> Option<
    (Option<Seq<char>>, Seq<char>),
> {
    match eat_lit(s, key) {
        None => None,
        Some(r0) => match eat_lit(r0, " = "@) {
            None => None,
            Some(r1) => if r1.len() >= 1 && r1[0] == '"' {
                match parse_qbody(r1.skip(1)) {
                    None => None,
                    Some(p) => match eat_lit(p.1, "\n"@) {
                        None => None,
                        Some(r2) => Some((Some(p.0), r2)),
                    },
                }
            } else {
                match eat_lit(r1, "none\n"@) {
                    None => None,
                    Some(r2) => Some((None, r2)),
                }
            },
        },
    }
}

/// Parses a bare-word line.
pub open spec fn parse_wline(s: Seq<char>, key: Seq<char>) -> Option<(Seq<char>, Seq<char>)> {
    match eat_lit(s, key) {
        None => None,
        Some(r0) => match eat_lit(r0, " = "@) {
            None => None,
            Some(r1) => parse_word(r1),
        },
    }
}

/// Round trip of a mandatory quoted line.
#[verifier::rlimit(50)]
pub proof fn lemma_qline_round_trip(key: Seq<char>, v: Seq<char>, rest: Seq<char>)
    ensures
        parse_qline(qline(key, v) + rest, key) == Some((v, rest)),
{
    reveal_strlit(" = \"");
    reveal_strlit("\"\n");
    reveal_strlit("\n");
    let e = escape(v);
    let q: Seq<char> = seq!['"'];
    let nl: Seq<char> = seq!['\n'];
    let qnl = "\"\n"@;
    let pre = " = \""@;
    assert(qnl =~= q + nl);
    // reassociate the rendered line into the order the parser consumes
    lemma_add_assoc((key + pre) + e, qnl, rest);
    lemma_add_assoc(q, nl, rest);
    lemma_add_assoc(key + pre, e, q + (nl + rest));
    lemma_add_assoc(key, pre, e + (q + (nl + rest)));
    let w = e + (q + (nl + rest));
    assert(qline(key, v) + rest == key + (pre + w));
    lemma_eat_lit(key, pre + w);
    lemma_eat_lit(pre, w);
    lemma_add_assoc(e, q, nl + rest);
    lemma_qbody_round_trip(v, nl + rest);
    lemma_eat_lit(nl, rest);
    assert("\n"@ =~= nl);
}

/// Round trip of an optional-string line, both shapes.
#[verifier::rlimit(50)]
pub proof fn lemma_ostr_line_round_trip(key: Seq<char>, ov: Option<Seq<char>>, rest: Seq<char>)
    ensures
        parse_ostr_line(ostr_line(key, ov) + rest, key) == Some((ov, rest)),
{
    reveal_strlit(" = \"");
    reveal_strlit(" = ");
    reveal_strlit("none\n");
    reveal_strlit("\n");
    match ov {
        Some(v) => {
            reveal_strlit(" = \"");
            reveal_strlit("\"\n");
            let e = escape(v);
            let a3 = " = "@;
            let q: Seq<char> = seq!['"'];
            let nl: Seq<char> = seq!['\n'];
            let qnl = "\"\n"@;
            let pre = " = \""@;
            assert(qnl.len() == 2 && qnl[0] == '"' && qnl[1] == '\n');
            assert(pre.len() == 4 && pre[0] == ' ' && pre[1] == '=' && pre[2] == ' ' && pre[3]
                == '"');
            assert(a3.len() == 3 && a3[0] == ' ' && a3[1] == '=' && a3[2] == ' ');
            assert(qnl =~= q + nl);
            assert(pre =~= a3 + q);
            // reassociate the rendered line into the order the parser consumes
            lemma_add_assoc((key + pre) + e, qnl, rest);
            lemma_add_assoc(q, nl, rest);
            lemma_add_assoc(key + pre, e, q + (nl + rest));
            lemma_add_assoc(key, pre, e + (q + (nl + rest)));
            let w = e + (q + (nl + rest));
            assert(ostr_line(key, ov) + rest == key + (pre + w));
            lemma_eat_lit(key, pre + w);
            lemma_add_assoc(a3, q, w);
            let t1 = q + w;
            assert(pre + w == a3 + t1);
            lemma_eat_lit(a3, t1);
            assert(t1[0] == '"');
            assert(t1.skip(1) =~= w);
            lemma_add_assoc(e, q, nl + rest);
            lemma_qbody_round_trip(v, nl + rest);
            lemma_eat_lit(nl, rest);
            assert("\n"@ =~= nl);
        },
        None => {
            let t0 = " = "@ + "none\n"@ + rest;
            assert(ostr_line(key, ov) + rest =~= key + t0);
            lemma_eat_lit(key, t0);
            let t1 = "none\n"@ + rest;
            lemma_add_assoc(" = "@, "none\n"@, rest);
            assert(t0 == " = "@ + t1);
            lemma_eat_lit(" = "@, t1);
            assert(t1.len() >= 1 && t1[0] == 'n');
            lemma_eat_lit("none\n"@, rest);
        },
    }
}

/// Round trip of a bare-word line, for any newline-free word.
pub proof fn lemma_wline_round_trip(key: Seq<char>, w: Seq<char>, rest: Seq<char>)
    requires
        !w.contains('\n'),
    ensures
        parse_wline(wline(key, w) + rest, key) == Some((w, rest)),
{
    reveal_strlit(" = ");
    reveal_strlit("\n");
    let t0 = " = "@ + w + "\n"@ + rest;
    assert(wline(key, w) + rest =~= key + t0);
    lemma_eat_lit(key, t0);
    let t1 = w + seq!['\n'] + rest;
    assert(t0 =~= " = "@ + t1);
    lemma_eat_lit(" = "@, t1);
    lemma_word_round_trip(w, rest);
}

// ------------------------------------------------------------- word values
/// The word for an optional boolean.
pub open spec fn opt_bool_word(ob: Option<bool>) -> Seq<char> {
    match ob {
        None => "none"@,
        Some(true) => "true"@,
        Some(false) => "false"@,
    }
}

/// The word for a boolean.
pub open spec fn bool_word(b: bool) -> Seq<char> {
    if b {
        "true"@
    } else {
        "false"@
    }
}

/// The boolean a word denotes: exactly the two canonical spellings parse.
pub open spec fn bool_of_word(w: Seq<char>) -> Option<bool> {
    if w == "true"@ {
        Some(true)
    } else if w == "false"@ {
        Some(false)
    } else {
        None
    }
}

/// The boolean a string denotes, as executable code.
pub fn bool_of_str(s: &str) -> (r: Option<bool>)
    ensures
        r == bool_of_word(s@),
{
    if crate::strutil::str_eq(s, "true") {
        Some(true)
    } else if crate::strutil::str_eq(s, "false") {
        Some(false)
    } else {
        None
    }
}

/// The optional boolean a word denotes.
pub open spec fn opt_bool_of_word(w: Seq<char>) -> Option<Option<bool>> {
    if w == "none"@ {
        Some(None)
    } else if w == "true"@ {
        Some(Some(true))
    } else if w == "false"@ {
        Some(Some(false))
    } else {
        None
    }
}

/// The word for the three-state TLS section: absent, present with the
/// override unset, or present with the override decided.
pub open spec fn tls_word(t: Option<Option<bool>>) -> Seq<char> {
    match t {
        None => "none"@,
        Some(None) => "default"@,
        Some(Some(true)) => "true"@,
        Some(Some(false)) => "false"@,
    }
}

/// The TLS state a word denotes.
pub open spec fn tls_of_word(w: Seq<char>) -> Option<Option<Option<bool>>> {
    if w == "none"@ {
        Some(None)
    } else if w == "default"@ {
        Some(Some(None))
    } else if w == "true"@ {
        Some(Some(Some(true)))
    } else if w == "false"@ {
        Some(Some(Some(false)))
    } else {
        None
    }
}

/// The word for an optional platform.
pub open spec fn opt_platform_word(op: Option<Platform>) -> Seq<char> {
    match op {
        None => "none"@,
        Some(p) => platform_word(p),
    }
}

/// The optional platform a word denotes.
pub open spec fn opt_platform_of_word(w: Seq<char>) -> Option<Option<Platform>> {
    if w == "none"@ {
        Some(None)
    } else {
        match platform_of_word(w) {
            Some(p) => Some(Some(p)),
            None => None,
        }
    }
}

/// The finitely many bare words of the format are pairwise distinct and
/// free of newlines.
pub proof fn lemma_words_distinct()
    ensures
        "none"@ != "true"@,
        "none"@ != "false"@,
        "none"@ != "default"@,
        "none"@ != "x64"@,
        "none"@ != "x32"@,
        "true"@ != "false"@,
        "true"@ != "default"@,
        "false"@ != "default"@,
        "x64"@ != "x32"@,
        "x64"@ != "true"@,
        "x64"@ != "false"@,
        "x64"@ != "default"@,
        "x32"@ != "true"@,
        "x32"@ != "false"@,
        "x32"@ != "default"@,
        !"none"@.contains('\n'),
        !"true"@.contains('\n'),
        !"false"@.contains('\n'),
        !"default"@.contains('\n'),
        !"x64"@.contains('\n'),
        !"x32"@.contains('\n'),
{
    reveal_strlit("none");
    reveal_strlit("true");
    reveal_strlit("false");
    reveal_strlit("default");
    reveal_strlit("x64");
    reveal_strlit("x32");
    assert("none"@[0] == 'n' && "true"@[0] == 't' && "false"@[0] == 'f' && "default"@[0] == 'd'
        && "x64"@[0] == 'x');
    assert("x64"@[1] == '6' && "x32"@[1] == '3' && "x32"@[0] == 'x');
    assert(forall|i: int| 0 <= i < "none"@.len() ==> #[trigger] "none"@[i] != '\n');
    assert(forall|i: int| 0 <= i < "true"@.len() ==> #[trigger] "true"@[i] != '\n');
    assert(forall|i: int| 0 <= i < "false"@.len() ==> #[trigger] "false"@[i] != '\n');
    assert(forall|i: int| 0 <= i < "default"@.len() ==> #[trigger] "default"@[i] != '\n');
    assert(forall|i: int| 0 <= i < "x64"@.len() ==> #[trigger] "x64"@[i] != '\n');
    assert(forall|i: int| 0 <= i < "x32"@.len() ==> #[trigger] "x32"@[i] != '\n');
}

/// Decimal words are newline-free.
pub proof fn lemma_digits_no_newline(n: nat)
    ensures
        !dec_digits(n).contains('\n'),
{
    lemma_dec_round_trip(n);
    if dec_digits(n).contains('\n') {
        let i = choose|i: int| 0 <= i < dec_digits(n).len() && dec_digits(n)[i] == '\n';
        assert(is_digit(dec_digits(n)[i]));
    }
}

// -------------------------------------------------------------- the record
/// The mathematical content of a persisted configuration.
pub ghost struct ConfigData {
    pub agent_id: Seq<char>,
    pub hwid: Option<Seq<char>>,
    pub server: Seq<char>,
    pub token: Option<Seq<char>>,
    pub heartbeat_timeout: u64,
    pub one_c_home: Option<Seq<char>>,
    pub one_c_platform: Option<Platform>,
    pub one_c_publish_dir: Option<Seq<char>>,
    pub minecraft_server: Option<Seq<char>>,
    pub minecraft_java_opts: Option<Seq<char>>,
    pub minimize_to_tray_on_close: Option<bool>,
    pub tls: Option<Option<bool>>,
}

/// The whole persisted document of a configuration: one line per field, in
/// this fixed order.
pub open spec fn render_data(d: ConfigData) -> Seq<char> {
    qline("agent_id"@, d.agent_id) + (ostr_line("hwid"@, d.hwid) + (qline("server"@, d.server) + (
    ostr_line("token"@, d.token) + (wline(
        "heartbeat_timeout"@,
        dec_digits(d.heartbeat_timeout as nat),
    ) + (ostr_line("one_c_home"@, d.one_c_home) + (wline(
        "one_c_platform"@,
        opt_platform_word(d.one_c_platform),
    ) + (ostr_line("one_c_publish_dir"@, d.one_c_publish_dir) + (ostr_line(
        "minecraft_server"@,
        d.minecraft_server,
    ) + (ostr_line("minecraft_java_opts"@, d.minecraft_java_opts) + (wline(
        "minimize_to_tray_on_close"@,
        opt_bool_word(d.minimize_to_tray_on_close),
    ) + wline("transport_tls"@, tls_word(d.tls))))))))))))
}

/// What a document parses to: the record, if the document has exactly the
/// twelve lines in order and every value is well formed.
pub open spec fn parse_data(s: Seq<char>) -> Option<ConfigData> {
    match parse_qline(s, "agent_id"@) {
        None => None,
        Some((agent_id, s1)) => match parse_ostr_line(s1, "hwid"@) {
            None => None,
            Some((hwid, s2)) => match parse_qline(s2, "server"@) {
                None => None,
                Some((server, s3)) => match parse_ostr_line(s3, "token"@) {
                    None => None,
                    Some((token, s4)) => match parse_wline(s4, "heartbeat_timeout"@) {
                        None => None,
                        Some((hbw, s5)) => match dec_opt(hbw) {
                            None => None,
                            Some(heartbeat_timeout) => match parse_ostr_line(s5, "one_c_home"@) {
                                None => None,
                                Some((one_c_home, s6)) => match parse_wline(
                                    s6,
                                    "one_c_platform"@,
                                ) {
                                    None => None,
                                    Some((pw, s7)) => match opt_platform_of_word(pw) {
                                        None => None,
                                        Some(one_c_platform) => match parse_ostr_line(
                                            s7,
                                            "one_c_publish_dir"@,
                                        ) {
                                            None => None,
                                            Some((one_c_publish_dir, s8)) => match parse_ostr_line(
                                                s8,
                                                "minecraft_server"@,
                                            ) {
                                                None => None,
                                                Some((minecraft_server, s9)) => match parse_ostr_line(
                                                    s9,
                                                    "minecraft_java_opts"@,
                                                ) {
                                                    None => None,
                                                    Some((minecraft_java_opts, s10)) => match parse_wline(
                                                        s10,
                                                        "minimize_to_tray_on_close"@,
                                                    ) {
                                                        None => None,
                                                        Some((mw, s11)) => match opt_bool_of_word(
                                                            mw,
                                                        ) {
                                                            None => None,
                                                            Some(minimize_to_tray_on_close) => match parse_wline(
                                                                s11,
                                                                "transport_tls"@,
                                                            ) {
                                                                None => None,
                                                                Some((tw, s12)) => match tls_of_word(
                                                                    tw,
                                                                ) {
                                                                    None => None,
                                                                    Some(tls) => if s12.len()
                                                                        == 0 {
                                                                        Some(
                                                                            ConfigData {
                                                                                agent_id,
                                                                                hwid,
                                                                                server,
                                                                                token,
                                                                                heartbeat_timeout,
                                                                                one_c_home,
                                                                                one_c_platform,
                                                                                one_c_publish_dir,
                                                                                minecraft_server,
                                                                                minecraft_java_opts,
                                                                                minimize_to_tray_on_close,
                                                                                tls,
                                                                            },
                                                                        )
                                                                    } else {
                                                                        None
                                                                    },
                                                                },
                                                            },
                                                        },
                                                    },
                                                },
                                            },
                                        },
                                    },
                                },
                            },
                        },
                    },
                },
            },
        },
    }
}

/// Law: rendering any configuration record and parsing the rendering yields
/// the record back, unchanged in every field.
pub proof fn lemma_render_parse_round_trip(d: ConfigData)
    ensures
        parse_data(render_data(d)) == Some(d),
{
    lemma_words_distinct();
    lemma_dec_round_trip(d.heartbeat_timeout as nat);
    lemma_digits_no_newline(d.heartbeat_timeout as nat);
    let t12 = wline("transport_tls"@, tls_word(d.tls));
    let t11 = wline("minimize_to_tray_on_close"@, opt_bool_word(d.minimize_to_tray_on_close))
        + t12;
    let t10 = ostr_line("minecraft_java_opts"@, d.minecraft_java_opts) + t11;
    let t9 = ostr_line("minecraft_server"@, d.minecraft_server) + t10;
    let t8 = ostr_line("one_c_publish_dir"@, d.one_c_publish_dir) + t9;
    let t7 = wline("one_c_platform"@, opt_platform_word(d.one_c_platform)) + t8;
    let t6 = ostr_line("one_c_home"@, d.one_c_home) + t7;
    let t5 = wline("heartbeat_timeout"@, dec_digits(d.heartbeat_timeout as nat)) + t6;
    let t4 = ostr_line("token"@, d.token) + t5;
    let t3 = qline("server"@, d.server) + t4;
    let t2 = ostr_line("hwid"@, d.hwid) + t3;
    let t1 = qline("agent_id"@, d.agent_id) + t2;
    assert(render_data(d) == t1);
    lemma_qline_round_trip("agent_id"@, d.agent_id, t2);
    lemma_ostr_line_round_trip("hwid"@, d.hwid, t3);
    lemma_qline_round_trip("server"@, d.server, t4);
    lemma_ostr_line_round_trip("token"@, d.token, t5);
    lemma_wline_round_trip("heartbeat_timeout"@, dec_digits(d.heartbeat_timeout as nat), t6);
    assert(dec_opt(dec_digits(d.heartbeat_timeout as nat)) == Some(d.heartbeat_timeout));
    lemma_ostr_line_round_trip("one_c_home"@, d.one_c_home, t7);
    assert(!opt_platform_word(d.one_c_platform).contains('\n')) by {
        reveal_strlit("x64");
        reveal_strlit("x32");
    }
    lemma_wline_round_trip("one_c_platform"@, opt_platform_word(d.one_c_platform), t8);
    assert(opt_platform_of_word(opt_platform_word(d.one_c_platform)) == Some(d.one_c_platform));
    lemma_ostr_line_round_trip("one_c_publish_dir"@, d.one_c_publish_dir, t9);
    lemma_ostr_line_round_trip("minecraft_server"@, d.minecraft_server, t10);
    lemma_ostr_line_round_trip("minecraft_java_opts"@, d.minecraft_java_opts, t11);
    lemma_wline_round_trip(
        "minimize_to_tray_on_close"@,
        opt_bool_word(d.minimize_to_tray_on_close),
        t12,
    );
    assert(opt_bool_of_word(opt_bool_word(d.minimize_to_tray_on_close)) == Some(
        d.minimize_to_tray_on_close,
    ));
    assert(t12 =~= wline("transport_tls"@, tls_word(d.tls)) + Seq::<char>::empty());
    lemma_wline_round_trip("transport_tls"@, tls_word(d.tls), Seq::empty());
    assert(tls_of_word(tls_word(d.tls)) == Some(d.tls));
}


// ------------------------------------------------------- executable parsing
/// The escape pair's meaning, as executable code.
pub fn unesc_char_exec(c: char) -> (r: Option<char>)
    ensures
        r == unesc_char(c),
{
    if c == '\\' {
        Some('\\')
    } else if c == '"' {
        Some('"')
    } else if c == 'n' {
        Some('\n')
    } else if c == 'r' {
        Some('\r')
    } else {
        None
    }
}

/// Consumes the literal `lit` at position `i`; yields the position after it.
pub fn eat_lit_at(s: &Vec<char>, i: usize, lit: &str) -> (r: Option<usize>)
    requires
        i <= s@.len(),
    ensures
        match r {
            Some(j) => i <= j <= s@.len() && eat_lit(s@.skip(i as int), lit@) == Some(
                s@.skip(j as int),
            ),
            None => eat_lit(s@.skip(i as int), lit@) is None,
        },
{
    let n = lit.unicode_len();
    proof {
        assert(s@.skip(i as int).len() == s@.len() - i);
    }
    if n > s.len() - i {
        return None;
    }
    let sl = s.len();
    let mut k: usize = 0;
    while k < n
        invariant
            n == lit@.len(),
            sl == s@.len(),
            i + n <= sl,
            k <= n,
            forall|m: int| 0 <= m < k ==> s@[i + m] == #[trigger] lit@[m],
        decreases n - k,
    {
        if s[i + k] != lit.get_char(k) {
            proof {
                let t = s@.skip(i as int);
                assert(t[k as int] == s@[i + k]);
                if starts_with(t, lit@) {
                    assert(t.subrange(0, n as int)[k as int] == t[k as int]);
                }
            }
            return None;
        }
        k = k + 1;
    }
    proof {
        let t = s@.skip(i as int);
        assert(t.subrange(0, n as int) =~= lit@) by {
            assert(forall|m: int|
                0 <= m < n ==> t.subrange(0, n as int)[m] == s@[i + m] && s@[i + m]
                    == #[trigger] lit@[m]);
        }
        assert(t.skip(n as int) =~= s@.skip(i as int + n));
    }
    Some(i + n)
}

/// Consumes a quoted value's body starting at `i`, undoing the escapes.
pub fn parse_qbody_at(s: &Vec<char>, i: usize) -> (r: Option<(Vec<char>, usize)>)
    requires
        i <= s@.len(),
    ensures
        match r {
            Some(p) => i <= p.1 <= s@.len() && parse_qbody(s@.skip(i as int)) == Some(
                (p.0@, s@.skip(p.1 as int)),
            ),
            None => parse_qbody(s@.skip(i as int)) is None,
        },
    decreases s@.len() - i,
{
    proof {
        assert(s@.skip(i as int).len() == s@.len() - i);
    }
    if i == s.len() {
        return None;
    }
    let c = s[i];
    proof {
        assert(s@.skip(i as int)[0] == s@[i as int]);
    }
    if c == '"' {
        proof {
            assert(s@.skip(i as int).skip(1) =~= s@.skip(i as int + 1));
        }
        let content: Vec<char> = Vec::new();
        return Some((content, i + 1));
    }
    if c == '\\' {
        if i + 1 == s.len() {
            return None;
        }
        let e = s[i + 1];
        proof {
            assert(s@.skip(i as int)[1] == s@[i as int + 1]);
        }
        match unesc_char_exec(e) {
            None => None,
            Some(ch) => {
                proof {
                    assert(s@.skip(i as int).skip(2) =~= s@.skip(i as int + 2));
                }
                match parse_qbody_at(s, i + 2) {
                    None => None,
                    Some((tail, j)) => {
                        let mut content: Vec<char> = Vec::new();
                        content.push(ch);
                        push_chars(&mut content, &tail);
                        proof {
                            assert(content@ =~= seq![ch] + tail@);
                        }
                        Some((content, j))
                    },
                }
            },
        }
    } else {
        proof {
            assert(s@.skip(i as int).skip(1) =~= s@.skip(i as int + 1));
        }
        match parse_qbody_at(s, i + 1) {
            None => None,
            Some((tail, j)) => {
                let mut content: Vec<char> = Vec::new();
                content.push(c);
                push_chars(&mut content, &tail);
                proof {
                    assert(content@ =~= seq![c] + tail@);
                }
                Some((content, j))
            },
        }
    }
}

/// Consumes a bare word starting at `i`, up to the newline.
pub fn parse_word_at(s: &Vec<char>, i: usize) -> (r: Option<(Vec<char>, usize)>)
    requires
        i <= s@.len(),
    ensures
        match r {
            Some(p) => i <= p.1 <= s@.len() && parse_word(s@.skip(i as int)) == Some(
                (p.0@, s@.skip(p.1 as int)),
            ),
            None => parse_word(s@.skip(i as int)) is None,
        },
    decreases s@.len() - i,
{
    proof {
        assert(s@.skip(i as int).len() == s@.len() - i);
    }
    if i == s.len() {
        return None;
    }
    let c = s[i];
    proof {
        assert(s@.skip(i as int)[0] == s@[i as int]);
    }
    if c == '\n' {
        proof {
            assert(s@.skip(i as int).skip(1) =~= s@.skip(i as int + 1));
        }
        let content: Vec<char> = Vec::new();
        return Some((content, i + 1));
    }
    proof {
        assert(s@.skip(i as int).skip(1) =~= s@.skip(i as int + 1));
    }
    match parse_word_at(s, i + 1) {
        None => None,
        Some((tail, j)) => {
            let mut content: Vec<char> = Vec::new();
            content.push(c);
            push_chars(&mut content, &tail);
            proof {
                assert(content@ =~= seq![c] + tail@);
            }
            Some((content, j))
        },
    }
}

/// Parses a mandatory quoted line at `i`.
pub fn parse_qline_at(s: &Vec<char>, i: usize, key: &str) -> (r: Option<(Vec<char>, usize)>)
    requires
        i <= s@.len(),
    ensures
        match r {
            Some(p) => i <= p.1 <= s@.len() && parse_qline(s@.skip(i as int), key@) == Some(
                (p.0@, s@.skip(p.1 as int)),
            ),
            None => parse_qline(s@.skip(i as int), key@) is None,
        },
{
    match eat_lit_at(s, i, key) {
        None => None,
        Some(j0) => match eat_lit_at(s, j0, " = \"") {
            None => None,
            Some(j1) => match parse_qbody_at(s, j1) {
                None => None,
                Some((v, j2)) => match eat_lit_at(s, j2, "\n") {
                    None => None,
                    Some(j3) => Some((v, j3)),
                },
            },
        },
    }
}

/// Parses an optional-string line at `i`.
pub fn parse_ostr_line_at(s: &Vec<char>, i: usize, key: &str) -> (r: Option<
    (Option<Vec<char>>, usize),
>)
    requires
        i <= s@.len(),
    ensures
        match r {
            Some(p) => i <= p.1 <= s@.len() && ({
                let ov = match p.0 {
                    Some(v) => Some(v@),
                    None => None,
                };
                parse_ostr_line(s@.skip(i as int), key@) == Some((ov, s@.skip(p.1 as int)))
            }),
            None => parse_ostr_line(s@.skip(i as int), key@) is None,
        },
{
    match eat_lit_at(s, i, key) {
        None => None,
        Some(j0) => match eat_lit_at(s, j0, " = ") {
            None => None,
            Some(j1) => {
                proof {
                    let r1 = s@.skip(j1 as int);
                    assert(r1.len() == s@.len() - j1);
                    if j1 < s@.len() {
                        assert(r1[0] == s@[j1 as int]);
                    }
                }
                if j1 < s.len() && s[j1] == '"' {
                    proof {
                        assert(s@.skip(j1 as int).skip(1) =~= s@.skip(j1 as int + 1));
                    }
                    match parse_qbody_at(s, j1 + 1) {
                        None => None,
                        Some((v, j2)) => match eat_lit_at(s, j2, "\n") {
                            None => None,
                            Some(j3) => Some((Some(v), j3)),
                        },
                    }
                } else {
                    match eat_lit_at(s, j1, "none\n") {
                        None => None,
                        Some(j2) => Some((None, j2)),
                    }
                }
            },
        },
    }
}

/// Parses a bare-word line at `i`.
pub fn parse_wline_at(s: &Vec<char>, i: usize, key: &str) -> (r: Option<(Vec<char>, usize)>)
    requires
        i <= s@.len(),
    ensures
        match r {
            Some(p) => i <= p.1 <= s@.len() && parse_wline(s@.skip(i as int), key@) == Some(
                (p.0@, s@.skip(p.1 as int)),
            ),
            None => parse_wline(s@.skip(i as int), key@) is None,
        },
{
    match eat_lit_at(s, i, key) {
        None => None,
        Some(j0) => match eat_lit_at(s, j0, " = ") {
            None => None,
            Some(j1) => parse_word_at(s, j1),
        },
    }
}

/// The optional boolean a word denotes, as executable code.
pub fn opt_bool_of_chars(v: &Vec<char>) -> (r: Option<Option<bool>>)
    ensures
        r == opt_bool_of_word(v@),
{
    if chars_eq_str(v, "none") {
        Some(None)
    } else if chars_eq_str(v, "true") {
        Some(Some(true))
    } else if chars_eq_str(v, "false") {
        Some(Some(false))
    } else {
        None
    }
}

/// The TLS state a word denotes, as executable code.
pub fn tls_of_chars(v: &Vec<char>) -> (r: Option<Option<Option<bool>>>)
    ensures
        r == tls_of_word(v@),
{
    if chars_eq_str(v, "none") {
        Some(None)
    } else if chars_eq_str(v, "default") {
        Some(Some(None))
    } else if chars_eq_str(v, "true") {
        Some(Some(Some(true)))
    } else if chars_eq_str(v, "false") {
        Some(Some(Some(false)))
    } else {
        None
    }
}

/// The optional platform a word denotes, as executable code.
pub fn opt_platform_of_chars(v: &Vec<char>) -> (r: Option<Option<Platform>>)
    ensures
        r == opt_platform_of_word(v@),
{
    if chars_eq_str(v, "none") {
        Some(None)
    } else if chars_eq_str(v, "x64") {
        Some(Some(Platform::X64))
    } else if chars_eq_str(v, "x32") {
        Some(Some(Platform::X32))
    } else {
        None
    }
}

// ----------------------------------------------------- executable rendering
/// Three chunks pushed after a prefix regroup to the prefix plus the line.
proof fn lemma_push3(o: Seq<char>, a: Seq<char>, b: Seq<char>, c: Seq<char>)
    ensures
        ((o + a) + b) + c == o + ((a + b) + c),
{
    lemma_add_assoc(o, a, b);
    lemma_add_assoc(o, a + b, c);
}

/// Four chunks pushed after a prefix regroup to the prefix plus the line.
proof fn lemma_push4(o: Seq<char>, a: Seq<char>, b: Seq<char>, c: Seq<char>, d: Seq<char>)
    ensures
        (((o + a) + b) + c) + d == o + (((a + b) + c) + d),
{
    lemma_add_assoc(o, a, b);
    lemma_add_assoc(o, a + b, c);
    lemma_add_assoc(o, (a + b) + c, d);
}

/// Appends the escaped rendering of `s` to `out`.
pub fn push_escaped(out: &mut Vec<char>, s: &str)
    ensures
        final(out)@ == old(out)@ + escape(s@),
{
    let n = s.unicode_len();
    proof {
        assert(s@.subrange(0, 0) =~= Seq::<char>::empty());
        assert(out@ =~= old(out)@ + escape(s@.subrange(0, 0)));
    }
    let mut i: usize = 0;
    while i < n
        invariant
            n == s@.len(),
            i <= n,
            out@ == old(out)@ + escape(s@.subrange(0, i as int)),
        decreases n - i,
    {
        let ghost prev = out@;
        let c = s.get_char(i);
        if c == '\\' {
            out.push('\\');
            out.push('\\');
            proof {
                assert(out@ =~= prev + esc_char(c));
            }
        } else if c == '"' {
            out.push('\\');
            out.push('"');
            proof {
                assert(out@ =~= prev + esc_char(c));
            }
        } else if c == '\n' {
            out.push('\\');
            out.push('n');
            proof {
                assert(out@ =~= prev + esc_char(c));
            }
        } else if c == '\r' {
            out.push('\\');
            out.push('r');
            proof {
                assert(out@ =~= prev + esc_char(c));
            }
        } else {
            out.push(c);
            proof {
                assert(out@ =~= prev + esc_char(c));
            }
        }
        proof {
            let pre = s@.subrange(0, i as int);
            lemma_escape_snoc(pre, s@[i as int]);
            assert(s@.subrange(0, i as int + 1) =~= pre.push(s@[i as int]));
            lemma_add_assoc(old(out)@, escape(pre), esc_char(s@[i as int]));
            assert(out@ == old(out)@ + escape(s@.subrange(0, i as int + 1)));
        }
        i = i + 1;
    }
    proof {
        assert(s@.subrange(0, n as int) =~= s@);
    }
}

/// Appends a mandatory quoted line to `out`.
pub fn push_qline(out: &mut Vec<char>, key: &str, v: &str)
    ensures
        final(out)@ == old(out)@ + qline(key@, v@),
{
    push_str_chars(out, key);
    push_str_chars(out, " = \"");
    push_escaped(out, v);
    push_str_chars(out, "\"\n");
    proof {
        lemma_push4(old(out)@, key@, " = \""@, escape(v@), "\"\n"@);
    }
}

/// Appends an optional-string line to `out`.
pub fn push_ostr_line(out: &mut Vec<char>, key: &str, ov: &Option<String>)
    ensures
        final(out)@ == old(out)@ + ostr_line(key@, crate::strutil::opt_str_view(*ov)),
{
    match ov {
        Some(v) => {
            push_str_chars(out, key);
            push_str_chars(out, " = \"");
            push_escaped(out, v.as_str());
            push_str_chars(out, "\"\n");
            proof {
                lemma_push4(old(out)@, key@, " = \""@, escape(v@), "\"\n"@);
            }
        },
        None => {
            push_str_chars(out, key);
            push_str_chars(out, " = ");
            push_str_chars(out, "none\n");
            proof {
                lemma_push3(old(out)@, key@, " = "@, "none\n"@);
            }
        },
    }
}

/// Appends an optional-string line whose value is absent.
pub fn push_none_line(out: &mut Vec<char>, key: &str)
    ensures
        final(out)@ == old(out)@ + ostr_line(key@, None),
{
    push_str_chars(out, key);
    push_str_chars(out, " = ");
    push_str_chars(out, "none\n");
    proof {
        lemma_push3(old(out)@, key@, " = "@, "none\n"@);
    }
}

/// Appends a bare-word line to `out`, the word given as characters.
pub fn push_wline_chars(out: &mut Vec<char>, key: &str, w: &Vec<char>)
    ensures
        final(out)@ == old(out)@ + wline(key@, w@),
{
    push_str_chars(out, key);
    push_str_chars(out, " = ");
    push_chars(out, w);
    push_str_chars(out, "\n");
    proof {
        lemma_push4(old(out)@, key@, " = "@, w@, "\n"@);
    }
}

/// Appends a bare-word line to `out`, the word given as a literal.
pub fn push_wline_str(out: &mut Vec<char>, key: &str, w: &str)
    ensures
        final(out)@ == old(out)@ + wline(key@, w@),
{
    push_str_chars(out, key);
    push_str_chars(out, " = ");
    push_str_chars(out, w);
    push_str_chars(out, "\n");
    proof {
        lemma_push4(old(out)@, key@, " = "@, w@, "\n"@);
    }
}

} // verus!
