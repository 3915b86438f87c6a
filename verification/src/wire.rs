//! The wire codec: the character-level format in which the records cross
//! the boundary to the host shell and the native plugin. Objects are
//! written with camelCase field names in a fixed order, booleans as
//! `true`/`false`, strings quoted with `"` and `\` escaped, and optional
//! fields omitted entirely when absent. Decoding is exact: it accepts
//! what encoding produces, with missing exit-option fields falling back
//! to their defaults.

use vstd::prelude::*;

verus! {

use crate::models::{AppState, CloseResult, ExitOptions, ExitResult, MinimizeResult};
use vstd::string::{StrSliceExecFns, StringExecFns};

/// Relies on String::push: appends the given character to the end of the
/// string.
pub assume_specification[ String::push ](s: &mut String, c: char)
    ensures
        final(s)@ == old(s)@ + seq![c],
;

/// Whether `p` is a prefix of `t`.
pub open spec fn is_prefix(p: Seq<char>, t: Seq<char>) -> bool {
    p.len() <= t.len() && t.take(p.len() as int) == p
}

/// Consume a literal: the rest of `t` after `lit`, if `lit` is in front.
pub open spec fn parse_lit(t: Seq<char>, lit: Seq<char>) -> Option<Seq<char>> {
    if is_prefix(lit, t) {
        Some(t.skip(lit.len() as int))
    } else {
        None
    }
}

/// The wire form of a boolean.
pub open spec fn enc_bool(b: bool) -> Seq<char> {
    if b {
        "true"@
    } else {
        "false"@
    }
}

/// Read a boolean from the front of `t`.
pub open spec fn parse_bool(t: Seq<char>) -> Option<(bool, Seq<char>)> {
    if is_prefix("true"@, t) {
        Some((true, t.skip("true"@.len() as int)))
    } else if is_prefix("false"@, t) {
        Some((false, t.skip("false"@.len() as int)))
    } else {
        None
    }
}

/// The wire form of one character inside a quoted string: `"` and `\`
/// carry a backslash in front, every other character stands as it is.
pub open spec fn esc_char(c: char) -> Seq<char> {
    if c == '"' || c == '\\' {
        seq!['\\', c]
    } else {
        seq![c]
    }
}

/// The wire form of a string's characters, without the quotes around it.
pub open spec fn esc(s: Seq<char>) -> Seq<char>
    decreases s.len(),
{
    if s.len() == 0 {
        Seq::empty()
    } else {
        esc_char(s[0]) + esc(s.skip(1))
    }
}

/// Read a quoted string's body from the front of `t`, the opening quote
/// already consumed: the decoded characters and the rest of `t` after
/// the closing quote.
pub open spec fn parse_string_body(t: Seq<char>) -> Option<(Seq<char>, Seq<char>)>
    decreases t.len(),
{
    if t.len() == 0 {
        None
    } else if t[0] == '"' {
        Some((Seq::empty(), t.skip(1)))
    } else if t[0] == '\\' {
        if t.len() < 2 || !(t[1] == '"' || t[1] == '\\') {
            None
        } else {
            match parse_string_body(t.skip(2)) {
                Some((s, rest)) => Some((seq![t[1]] + s, rest)),
                None => None,
            }
        }
    } else {
        match parse_string_body(t.skip(1)) {
            Some((s, rest)) => Some((seq![t[0]] + s, rest)),
            None => None,
        }
    }
}

/// A literal in front of a sequence is consumed exactly.
pub proof fn lemma_parse_lit(lit: Seq<char>, rest: Seq<char>)
    ensures
        parse_lit(lit + rest, lit) == Some(rest),
{
    assert((lit + rest).take(lit.len() as int) =~= lit);
    assert((lit + rest).skip(lit.len() as int) =~= rest);
}

/// An encoded boolean in front of a sequence is read back exactly.
pub proof fn lemma_parse_bool(b: bool, rest: Seq<char>)
    ensures
        parse_bool(enc_bool(b) + rest) == Some((b, rest)),
{
    reveal_strlit("true");
    reveal_strlit("false");
    let t = enc_bool(b) + rest;
    if b {
        assert(t.take("true"@.len() as int) =~= "true"@);
        assert(t.skip("true"@.len() as int) =~= rest);
    } else {
        assert(t[0] == 'f');
        if is_prefix("true"@, t) {
            assert(t.take("true"@.len() as int)[0] == 't');
            assert(t[0] == 't');
        }
        assert(t.take("false"@.len() as int) =~= "false"@);
        assert(t.skip("false"@.len() as int) =~= rest);
    }
}

/// Law, the heart of the string round trip: an escaped string followed
/// by its closing quote decodes to the original characters, leaving the
/// rest untouched.
pub proof fn lemma_parse_string_body(s: Seq<char>, rest: Seq<char>)
    ensures
        parse_string_body(esc(s) + seq!['"'] + rest) == Some((s, rest)),
    decreases s.len(),
{
    let t = esc(s) + seq!['"'] + rest;
    if s.len() == 0 {
        assert(t =~= seq!['"'] + rest);
        assert(t[0] == '"');
        assert(t.skip(1) =~= rest);
    } else {
        lemma_parse_string_body(s.skip(1), rest);
        let t2 = esc(s.skip(1)) + seq!['"'] + rest;
        if s[0] == '"' || s[0] == '\\' {
            assert(t =~= seq!['\\', s[0]] + t2);
            assert(t[0] == '\\');
            assert(t[1] == s[0]);
            assert(t.skip(2) =~= t2);
            assert(seq![t[1]] + s.skip(1) =~= s);
        } else {
            assert(t =~= seq![s[0]] + t2);
            assert(t[0] == s[0]);
            assert(t.skip(1) =~= t2);
            assert(seq![t[0]] + s.skip(1) =~= s);
        }
    }
}

/// The wire form of the success-and-message pair that the minimize,
/// close and exit operations all report.
pub open spec fn enc_outcome(success: bool, message: Seq<char>) -> Seq<char> {
    "{\"success\":"@ + enc_bool(success) + ",\"message\":\""@ + esc(message) + "\"}"@
}

/// Read a success-and-message pair; the whole of `t` must be one record.
pub open spec fn parse_outcome(t: Seq<char>) -> Option<(bool, Seq<char>)> {
    match parse_lit(t, "{\"success\":"@) {
        Some(t1) => match parse_bool(t1) {
            Some((b, t2)) => match parse_lit(t2, ",\"message\":\""@) {
                Some(t3) => match parse_string_body(t3) {
                    Some((m, t4)) => if t4 == "}"@ {
                        Some((b, m))
                    } else {
                        None
                    },
                    None => None,
                },
                None => None,
            },
            None => None,
        },
        None => None,
    }
}

/// Law: a success-and-message record survives the wire unchanged.
pub proof fn lemma_outcome_round_trip(success: bool, message: Seq<char>)
    ensures
        parse_outcome(enc_outcome(success, message)) == Some((success, message)),
{
    reveal_strlit("\"}");
    reveal_strlit("}");
    let l1 = "{\"success\":"@;
    let l2 = ",\"message\":\""@;
    let tail = esc(message) + seq!['"'] + "}"@;
    let t = enc_outcome(success, message);
    assert("\"}"@ =~= seq!['"'] + "}"@);
    assert(t =~= l1 + (enc_bool(success) + (l2 + tail)));
    lemma_parse_lit(l1, enc_bool(success) + (l2 + tail));
    lemma_parse_bool(success, l2 + tail);
    lemma_parse_lit(l2, tail);
    lemma_parse_string_body(message, "}"@);
}

/// The wire form of the exit options, both fields written out.
pub open spec fn enc_exit_options(remove_from_recents: bool, kill_process: bool) -> Seq<char> {
    "{\"removeFromRecents\":"@ + enc_bool(remove_from_recents) + ",\"killProcess\":"@ + enc_bool(
        kill_process,
    ) + "}"@
}

/// Read exit options; a missing field falls back to its default, remove
/// from recents and do not kill, and an empty object means both defaults.
pub open spec fn parse_exit_options(t: Seq<char>) -> Option<(bool, bool)> {
    if t == "{}"@ {
        Some((true, false))
    } else {
        match parse_lit(t, "{\"removeFromRecents\":"@) {
            Some(t1) => match parse_bool(t1) {
                Some((r, t2)) => if t2 == "}"@ {
                    Some((r, false))
                } else {
                    match parse_lit(t2, ",\"killProcess\":"@) {
                        Some(t3) => match parse_bool(t3) {
                            Some((k, t4)) => if t4 == "}"@ {
                                Some((r, k))
                            } else {
                                None
                            },
                            None => None,
                        },
                        None => None,
                    }
                },
                None => None,
            },
            None => match parse_lit(t, "{\"killProcess\":"@) {
                Some(t1) => match parse_bool(t1) {
                    Some((k, t2)) => if t2 == "}"@ {
                        Some((true, k))
                    } else {
                        None
                    },
                    None => None,
                },
                None => None,
            },
        }
    }
}

/// Law: exit options survive the wire unchanged.
pub proof fn lemma_exit_options_round_trip(remove_from_recents: bool, kill_process: bool)
    ensures
        parse_exit_options(enc_exit_options(remove_from_recents, kill_process)) == Some(
            (remove_from_recents, kill_process),
        ),
{
    reveal_strlit("{}");
    reveal_strlit("}");
    reveal_strlit("true");
    reveal_strlit("false");
    reveal_strlit("{\"removeFromRecents\":");
    reveal_strlit(",\"killProcess\":");
    let l1 = "{\"removeFromRecents\":"@;
    let l2 = ",\"killProcess\":"@;
    let tail = enc_bool(kill_process) + "}"@;
    let t = enc_exit_options(remove_from_recents, kill_process);
    assert(t =~= l1 + (enc_bool(remove_from_recents) + (l2 + tail)));
    assert(t.len() > 2);
    lemma_parse_lit(l1, enc_bool(remove_from_recents) + (l2 + tail));
    lemma_parse_bool(remove_from_recents, l2 + tail);
    assert((l2 + tail).len() > 1);
    lemma_parse_lit(l2, tail);
    lemma_parse_bool(kill_process, "}"@);
}

/// Law: an absent options object means the defaults, remove from recents
/// and do not kill the process: the empty object decodes to exactly that.
pub proof fn lemma_empty_options_default()
    ensures
        parse_exit_options("{}"@) == Some((true, false)),
{
}

/// The wire form of the optional destroyed flag: omitted when absent.
pub open spec fn enc_state_destroyed(is_destroyed: Option<bool>) -> Seq<char> {
    match is_destroyed {
        Some(d) => ",\"isDestroyed\":"@ + enc_bool(d),
        None => Seq::empty(),
    }
}

/// The wire form of the optional package name: omitted when absent.
pub open spec fn enc_state_package(package_name: Option<Seq<char>>) -> Seq<char> {
    match package_name {
        Some(p) => ",\"packageName\":\""@ + esc(p) + "\""@,
        None => Seq::empty(),
    }
}

/// The wire form of the foreground snapshot.
pub open spec fn enc_app_state(
    in_foreground: bool,
    is_finishing: bool,
    is_destroyed: Option<bool>,
    package_name: Option<Seq<char>>,
) -> Seq<char> {
    "{\"inForeground\":"@ + enc_bool(in_foreground) + ",\"isFinishing\":"@ + enc_bool(is_finishing)
        + enc_state_destroyed(is_destroyed) + enc_state_package(package_name) + "}"@
}

/// Read the optional package name and the record's closing brace.
pub open spec fn parse_state_package(t: Seq<char>) -> Option<Option<Seq<char>>> {
    if t == "}"@ {
        Some(None)
    } else {
        match parse_lit(t, ",\"packageName\":\""@) {
            Some(t1) => match parse_string_body(t1) {
                Some((p, t2)) => if t2 == "}"@ {
                    Some(Some(p))
                } else {
                    None
                },
                None => None,
            },
            None => None,
        }
    }
}

/// Read the optional destroyed flag, then the rest of the record.
pub open spec fn parse_state_destroyed(t: Seq<char>) -> Option<(Option<bool>, Option<Seq<char>>)> {
    match parse_lit(t, ",\"isDestroyed\":"@) {
        Some(t1) => match parse_bool(t1) {
            Some((d, t2)) => match parse_state_package(t2) {
                Some(p) => Some((Some(d), p)),
                None => None,
            },
            None => None,
        },
        None => match parse_state_package(t) {
            Some(p) => Some((None, p)),
            None => None,
        },
    }
}

/// Read a foreground snapshot; the whole of `t` must be one record.
pub open spec fn parse_app_state(t: Seq<char>) -> Option<(bool, bool, Option<bool>, Option<
    Seq<char>,
>)> {
    match parse_lit(t, "{\"inForeground\":"@) {
        Some(t1) => match parse_bool(t1) {
            Some((f, t2)) => match parse_lit(t2, ",\"isFinishing\":"@) {
                Some(t3) => match parse_bool(t3) {
                    Some((fin, t4)) => match parse_state_destroyed(t4) {
                        Some((d, p)) => Some((f, fin, d, p)),
                        None => None,
                    },
                    None => None,
                },
                None => None,
            },
            None => None,
        },
        None => None,
    }
}

proof fn lemma_state_package_round_trip(package_name: Option<Seq<char>>)
    ensures
        parse_state_package(enc_state_package(package_name) + "}"@) == Some(package_name),
{
    reveal_strlit("}");
    reveal_strlit("\"");
    reveal_strlit(",\"packageName\":\"");
    let lp = ",\"packageName\":\""@;
    match package_name {
        Some(p) => {
            let t = enc_state_package(package_name) + "}"@;
            assert(t =~= lp + (esc(p) + seq!['"'] + "}"@));
            assert(t.len() > 1);
            lemma_parse_lit(lp, esc(p) + seq!['"'] + "}"@);
            lemma_parse_string_body(p, "}"@);
        },
        None => {
            assert(enc_state_package(package_name) + "}"@ =~= "}"@);
        },
    }
}

proof fn lemma_state_destroyed_round_trip(
    is_destroyed: Option<bool>,
    package_name: Option<Seq<char>>,
)
    ensures
        parse_state_destroyed(enc_state_destroyed(is_destroyed) + enc_state_package(package_name) + "}"@)
            == Some((is_destroyed, package_name)),
{
    reveal_strlit("}");
    reveal_strlit(",\"isDestroyed\":");
    reveal_strlit(",\"packageName\":\"");
    let ld = ",\"isDestroyed\":"@;
    let t = enc_state_destroyed(is_destroyed) + enc_state_package(package_name) + "}"@;
    lemma_state_package_round_trip(package_name);
    match is_destroyed {
        Some(d) => {
            assert(t =~= ld + (enc_bool(d) + (enc_state_package(package_name) + "}"@)));
            lemma_parse_lit(ld, enc_bool(d) + (enc_state_package(package_name) + "}"@));
            lemma_parse_bool(d, enc_state_package(package_name) + "}"@);
        },
        None => {
            assert(t =~= enc_state_package(package_name) + "}"@);
            match package_name {
                Some(_) => {
                    if is_prefix(ld, t) {
                        assert(t.take(ld.len() as int)[2] == ld[2]);
                        assert(t[2] == (",\"packageName\":\""@)[2]);
                    }
                    assert(!is_prefix(ld, t));
                },
                None => {
                    assert(t =~= "}"@);
                    assert(t.len() == 1);
                    assert(!is_prefix(ld, t));
                },
            }
        },
    }
}

/// Law: a foreground snapshot survives the wire unchanged, its optional
/// fields omitted exactly when absent.
pub proof fn lemma_app_state_round_trip(
    in_foreground: bool,
    is_finishing: bool,
    is_destroyed: Option<bool>,
    package_name: Option<Seq<char>>,
)
    ensures
        parse_app_state(enc_app_state(in_foreground, is_finishing, is_destroyed, package_name))
            == Some((in_foreground, is_finishing, is_destroyed, package_name)),
{
    let l1 = "{\"inForeground\":"@;
    let l2 = ",\"isFinishing\":"@;
    let tail = enc_state_destroyed(is_destroyed) + enc_state_package(package_name) + "}"@;
    let t = enc_app_state(in_foreground, is_finishing, is_destroyed, package_name);
    assert(t =~= l1 + (enc_bool(in_foreground) + (l2 + (enc_bool(is_finishing) + tail))));
    lemma_parse_lit(l1, enc_bool(in_foreground) + (l2 + (enc_bool(is_finishing) + tail)));
    lemma_parse_bool(in_foreground, l2 + (enc_bool(is_finishing) + tail));
    lemma_parse_lit(l2, enc_bool(is_finishing) + tail);
    lemma_parse_bool(is_finishing, tail);
    lemma_state_destroyed_round_trip(is_destroyed, package_name);
}

/// The view of an optional string, for contracts over optional fields.
pub open spec fn opt_str_view(p: Option<String>) -> Option<Seq<char>> {
    match p {
        Some(s) => Some(s@),
        None => None,
    }
}

proof fn lemma_esc_snoc(s: Seq<char>, c: char)
    ensures
        esc(s.push(c)) == esc(s) + esc_char(c),
    decreases s.len(),
{
    if s.len() == 0 {
        assert(s.push(c)[0] == c);
        assert(s.push(c).skip(1) =~= Seq::<char>::empty());
        assert(esc(Seq::<char>::empty()) =~= Seq::<char>::empty());
        assert(esc(s.push(c)) =~= esc_char(c));
        assert(esc(s) + esc_char(c) =~= esc_char(c));
    } else {
        lemma_esc_snoc(s.skip(1), c);
        assert(s.push(c).skip(1) =~= s.skip(1).push(c));
        assert(s.push(c)[0] == s[0]);
        assert(esc_char(s[0]) + (esc(s.skip(1)) + esc_char(c)) =~= (esc_char(s[0]) + esc(
            s.skip(1),
        )) + esc_char(c));
    }
}

fn bool_str(b: bool) -> (r: &'static str)
    ensures
        r@ == enc_bool(b),
{
    if b {
        "true"
    } else {
        "false"
    }
}

fn append_escaped(out: &mut String, s: &str)
    ensures
        final(out)@ == old(out)@ + esc(s@),
{
    let n = s.unicode_len();
    let mut i: usize = 0;
    while i < n
        invariant
            n == s@.len(),
            i <= n,
            out@ == old(out)@ + esc(s@.take(i as int)),
        decreases n - i,
    {
        let c = s.get_char(i);
        let ghost out0 = out@;
        if c == '"' || c == '\\' {
            out.push('\\');
            out.push(c);
        } else {
            out.push(c);
        }
        proof {
            lemma_esc_snoc(s@.take(i as int), c);
            assert(s@.take(i as int + 1) =~= s@.take(i as int).push(c));
            if c == '"' || c == '\\' {
                assert(out@ =~= (out0 + seq!['\\']) + seq![c]);
                assert(out@ =~= out0 + esc_char(c));
            }
            assert(out@ =~= old(out)@ + esc(s@.take(i as int + 1)));
        }
        i = i + 1;
    }
    proof {
        assert(s@.take(n as int) =~= s@);
    }
}

fn encode_outcome(success: bool, message: &str) -> (r: String)
    ensures
        r@ == enc_outcome(success, message@),
{
    let mut out = "{\"success\":".to_owned();
    out.append(bool_str(success));
    out.append(",\"message\":\"");
    append_escaped(&mut out, message);
    out.append("\"}");
    proof {
        assert(out@ =~= enc_outcome(success, message@));
    }
    out
}

/// Encode a minimize result for the wire.
pub fn encode_minimize_result(m: &MinimizeResult) -> (r: String)
    ensures
        r@ == enc_outcome(m.success, m.message@),
{
    encode_outcome(m.success, m.message.as_str())
}

/// Encode a close result for the wire.
pub fn encode_close_result(m: &CloseResult) -> (r: String)
    ensures
        r@ == enc_outcome(m.success, m.message@),
{
    encode_outcome(m.success, m.message.as_str())
}

/// Encode an exit result for the wire.
pub fn encode_exit_result(m: &ExitResult) -> (r: String)
    ensures
        r@ == enc_outcome(m.success, m.message@),
{
    encode_outcome(m.success, m.message.as_str())
}

/// Encode exit options for the wire, both fields written out.
pub fn encode_exit_options(o: &ExitOptions) -> (r: String)
    ensures
        r@ == enc_exit_options(o.remove_from_recents, o.kill_process),
{
    let mut out = "{\"removeFromRecents\":".to_owned();
    out.append(bool_str(o.remove_from_recents));
    out.append(",\"killProcess\":");
    out.append(bool_str(o.kill_process));
    out.append("}");
    proof {
        assert(out@ =~= enc_exit_options(o.remove_from_recents, o.kill_process));
    }
    out
}

/// Encode a foreground snapshot for the wire, optional fields omitted
/// when absent.
pub fn encode_app_state(st: &AppState) -> (r: String)
    ensures
        r@ == enc_app_state(
            st.in_foreground,
            st.is_finishing,
            st.is_destroyed,
            opt_str_view(st.package_name),
        ),
{
    let mut out = "{\"inForeground\":".to_owned();
    out.append(bool_str(st.in_foreground));
    out.append(",\"isFinishing\":");
    out.append(bool_str(st.is_finishing));
    match &st.is_destroyed {
        Some(d) => {
            out.append(",\"isDestroyed\":");
            out.append(bool_str(*d));
        },
        None => {},
    }
    match &st.package_name {
        Some(p) => {
            out.append(",\"packageName\":\"");
            append_escaped(&mut out, p.as_str());
            out.append("\"");
        },
        None => {},
    }
    out.append("}");
    proof {
        assert(out@ =~= enc_app_state(
            st.in_foreground,
            st.is_finishing,
            st.is_destroyed,
            opt_str_view(st.package_name),
        ));
    }
    out
}

fn match_lit(s: &str, i: usize, lit: &str) -> (r: Option<usize>)
    requires
        i <= s@.len(),
    ensures
        match r {
            Some(j) => is_prefix(lit@, s@.skip(i as int)) && j == i + lit@.len() && j <= s@.len(),
            None => !is_prefix(lit@, s@.skip(i as int)),
        },
{
    let n = s.unicode_len();
    let m = lit.unicode_len();
    if n - i < m {
        return None;
    }
    let mut k: usize = 0;
    while k < m
        invariant
            n == s@.len(),
            m == lit@.len(),
            i + m <= n,
            k <= m,
            forall|q: int| 0 <= q < k ==> s@[i + q] == lit@[q],
        decreases m - k,
    {
        if s.get_char(i + k) != lit.get_char(k) {
            proof {
                let t = s@.skip(i as int);
                if is_prefix(lit@, t) {
                    assert(t.take(m as int)[k as int] == lit@[k as int]);
                    assert(t[k as int] == s@[i + k]);
                }
            }
            return None;
        }
        k = k + 1;
    }
    proof {
        let t = s@.skip(i as int);
        assert(t.take(m as int) =~= lit@);
    }
    Some(i + m)
}

fn read_bool(s: &str, i: usize) -> (r: Option<(bool, usize)>)
    requires
        i <= s@.len(),
    ensures
        match r {
            Some((b, j)) => parse_bool(s@.skip(i as int)) == Some((b, s@.skip(j as int))) && j
                <= s@.len(),
            None => parse_bool(s@.skip(i as int)) is None,
        },
{
    match match_lit(s, i, "true") {
        Some(j) => {
            proof {
                assert(s@.skip(i as int).skip("true"@.len() as int) =~= s@.skip(j as int));
            }
            Some((true, j))
        },
        None => match match_lit(s, i, "false") {
            Some(j) => {
                proof {
                    assert(s@.skip(i as int).skip("false"@.len() as int) =~= s@.skip(j as int));
                }
                Some((false, j))
            },
            None => None,
        },
    }
}

fn read_string_body(s: &str, i: usize) -> (r: Option<(String, usize)>)
    requires
        i <= s@.len(),
    ensures
        match r {
            Some((out, j)) => parse_string_body(s@.skip(i as int)) == Some(
                (out@, s@.skip(j as int)),
            ) && j <= s@.len(),
            None => parse_string_body(s@.skip(i as int)) is None,
        },
{
    let n = s.unicode_len();
    let mut out = String::new();
    let mut cur: usize = i;
    while cur < n
        invariant
            n == s@.len(),
            i <= cur <= n,
            parse_string_body(s@.skip(i as int)) == (match parse_string_body(
                s@.skip(cur as int),
            ) {
                Some((m, rest)) => Some((out@ + m, rest)),
                None => None::<(Seq<char>, Seq<char>)>,
            }),
        decreases n - cur,
    {
        let c = s.get_char(cur);
        proof {
            assert(s@.skip(cur as int)[0] == s@[cur as int]);
        }
        if c == '"' {
            proof {
                assert(s@.skip(cur as int).skip(1) =~= s@.skip(cur as int + 1));
                assert(out@ + Seq::<char>::empty() =~= out@);
            }
            return Some((out, cur + 1));
        } else if c == '\\' {
            if n - cur < 2 {
                proof {
                    assert(s@.skip(cur as int).len() < 2);
                }
                return None;
            }
            let c2 = s.get_char(cur + 1);
            proof {
                assert(s@.skip(cur as int)[1] == s@[cur as int + 1]);
            }
            if c2 == '"' || c2 == '\\' {
                let ghost out0 = out@;
                out.push(c2);
                proof {
                    assert(s@.skip(cur as int).skip(2) =~= s@.skip(cur as int + 2));
                    match parse_string_body(s@.skip(cur as int + 2)) {
                        Some(p) => {
                            assert(out0 + (seq![c2] + p.0) =~= (out0 + seq![c2]) + p.0);
                        },
                        None => {},
                    }
                }
                cur = cur + 2;
            } else {
                return None;
            }
        } else {
            let ghost out0 = out@;
            out.push(c);
            proof {
                assert(s@.skip(cur as int).skip(1) =~= s@.skip(cur as int + 1));
                match parse_string_body(s@.skip(cur as int + 1)) {
                    Some(p) => {
                        assert(out0 + (seq![c] + p.0) =~= (out0 + seq![c]) + p.0);
                    },
                    None => {},
                }
            }
            cur = cur + 1;
        }
    }
    proof {
        assert(s@.skip(cur as int).len() == 0);
    }
    None
}

fn at_closing_brace(s: &str, i: usize) -> (r: bool)
    requires
        i <= s@.len(),
    ensures
        r == (s@.skip(i as int) == "}"@),
{
    let n = s.unicode_len();
    proof {
        reveal_strlit("}");
    }
    if n - i == 1 && s.get_char(i) == '}' {
        proof {
            assert(s@.skip(i as int) =~= "}"@);
        }
        true
    } else {
        proof {
            let t = s@.skip(i as int);
            if t == "}"@ {
                assert(t.len() == 1);
                assert(t[0] == '}');
                assert(s@[i as int] == '}');
            }
        }
        false
    }
}

fn decode_outcome(s: &str) -> (r: Option<(bool, String)>)
    ensures
        match r {
            Some((b, m)) => parse_outcome(s@) == Some((b, m@)),
            None => parse_outcome(s@) is None,
        },
{
    proof {
        assert(s@.skip(0) =~= s@);
    }
    match match_lit(s, 0, "{\"success\":") {
        Some(i1) => {
            proof {
                assert(s@.skip(0).skip("{\"success\":"@.len() as int) =~= s@.skip(i1 as int));
            }
            match read_bool(s, i1) {
                Some((b, i2)) => match match_lit(s, i2, ",\"message\":\"") {
                    Some(i3) => {
                        proof {
                            assert(s@.skip(i2 as int).skip(",\"message\":\""@.len() as int) =~= s@.skip(
                                i3 as int,
                            ));
                        }
                        match read_string_body(s, i3) {
                            Some((m, i4)) => {
                                if at_closing_brace(s, i4) {
                                    Some((b, m))
                                } else {
                                    None
                                }
                            },
                            None => None,
                        }
                    },
                    None => None,
                },
                None => None,
            }
        },
        None => None,
    }
}

/// Decode the wire form of a minimize result.
pub fn decode_minimize_result(s: &str) -> (r: Option<MinimizeResult>)
    ensures
        match r {
            Some(m) => parse_outcome(s@) == Some((m.success, m.message@)),
            None => parse_outcome(s@) is None,
        },
{
    match decode_outcome(s) {
        Some((b, m)) => Some(MinimizeResult { success: b, message: m }),
        None => None,
    }
}

/// Decode the wire form of a close result.
pub fn decode_close_result(s: &str) -> (r: Option<CloseResult>)
    ensures
        match r {
            Some(m) => parse_outcome(s@) == Some((m.success, m.message@)),
            None => parse_outcome(s@) is None,
        },
{
    match decode_outcome(s) {
        Some((b, m)) => Some(CloseResult { success: b, message: m }),
        None => None,
    }
}

/// Decode the wire form of an exit result.
pub fn decode_exit_result(s: &str) -> (r: Option<ExitResult>)
    ensures
        match r {
            Some(m) => parse_outcome(s@) == Some((m.success, m.message@)),
            None => parse_outcome(s@) is None,
        },
{
    match decode_outcome(s) {
        Some((b, m)) => Some(ExitResult { success: b, message: m }),
        None => None,
    }
}

/// Decode the wire form of exit options, missing fields falling back to
/// their defaults.
pub fn decode_exit_options(s: &str) -> (r: Option<ExitOptions>)
    ensures
        match r {
            Some(o) => parse_exit_options(s@) == Some((o.remove_from_recents, o.kill_process)),
            None => parse_exit_options(s@) is None,
        },
{
    let n = s.unicode_len();
    proof {
        reveal_strlit("{}");
        assert(s@.skip(0) =~= s@);
    }
    if n == 2 && s.get_char(0) == '{' && s.get_char(1) == '}' {
        proof {
            assert(s@ =~= "{}"@);
        }
        return Some(ExitOptions { remove_from_recents: true, kill_process: false });
    }
    proof {
        if s@ == "{}"@ {
            assert(s@.len() == 2);
            assert(s@[0] == '{');
            assert(s@[1] == '}');
        }
    }
    match match_lit(s, 0, "{\"removeFromRecents\":") {
        Some(i1) => {
            proof {
                assert(s@.skip(0).skip("{\"removeFromRecents\":"@.len() as int) =~= s@.skip(
                    i1 as int,
                ));
            }
            match read_bool(s, i1) {
                Some((rm, i2)) => {
                    if at_closing_brace(s, i2) {
                        Some(ExitOptions { remove_from_recents: rm, kill_process: false })
                    } else {
                        match match_lit(s, i2, ",\"killProcess\":") {
                            Some(i3) => {
                                proof {
                                    assert(s@.skip(i2 as int).skip(
                                        ",\"killProcess\":"@.len() as int,
                                    ) =~= s@.skip(i3 as int));
                                }
                                match read_bool(s, i3) {
                                    Some((k, i4)) => {
                                        if at_closing_brace(s, i4) {
                                            Some(
                                                ExitOptions {
                                                    remove_from_recents: rm,
                                                    kill_process: k,
                                                },
                                            )
                                        } else {
                                            None
                                        }
                                    },
                                    None => None,
                                }
                            },
                            None => None,
                        }
                    }
                },
                None => None,
            }
        },
        None => match match_lit(s, 0, "{\"killProcess\":") {
            Some(i1) => {
                proof {
                    assert(s@.skip(0).skip("{\"killProcess\":"@.len() as int) =~= s@.skip(
                        i1 as int,
                    ));
                }
                match read_bool(s, i1) {
                    Some((k, i2)) => {
                        if at_closing_brace(s, i2) {
                            Some(ExitOptions { remove_from_recents: true, kill_process: k })
                        } else {
                            None
                        }
                    },
                    None => None,
                }
            },
            None => None,
        },
    }
}

fn decode_state_package(s: &str, i: usize) -> (r: Option<Option<String>>)
    requires
        i <= s@.len(),
    ensures
        match r {
            Some(p) => parse_state_package(s@.skip(i as int)) == Some(opt_str_view(p)),
            None => parse_state_package(s@.skip(i as int)) is None,
        },
{
    if at_closing_brace(s, i) {
        return Some(None);
    }
    match match_lit(s, i, ",\"packageName\":\"") {
        Some(i1) => {
            proof {
                assert(s@.skip(i as int).skip(",\"packageName\":\""@.len() as int) =~= s@.skip(
                    i1 as int,
                ));
            }
            match read_string_body(s, i1) {
                Some((p, i2)) => {
                    if at_closing_brace(s, i2) {
                        Some(Some(p))
                    } else {
                        None
                    }
                },
                None => None,
            }
        },
        None => None,
    }
}

fn decode_state_destroyed(s: &str, i: usize) -> (r: Option<(Option<bool>, Option<String>)>)
    requires
        i <= s@.len(),
    ensures
        match r {
            Some((d, p)) => parse_state_destroyed(s@.skip(i as int)) == Some(
                (d, opt_str_view(p)),
            ),
            None => parse_state_destroyed(s@.skip(i as int)) is None,
        },
{
    match match_lit(s, i, ",\"isDestroyed\":") {
        Some(i1) => {
            proof {
                assert(s@.skip(i as int).skip(",\"isDestroyed\":"@.len() as int) =~= s@.skip(
                    i1 as int,
                ));
            }
            match read_bool(s, i1) {
                Some((d, i2)) => match decode_state_package(s, i2) {
                    Some(p) => Some((Some(d), p)),
                    None => None,
                },
                None => None,
            }
        },
        None => match decode_state_package(s, i) {
            Some(p) => Some((None, p)),
            None => None,
        },
    }
}

/// Decode the wire form of a foreground snapshot.
pub fn decode_app_state(s: &str) -> (r: Option<AppState>)
    ensures
        match r {
            Some(st) => parse_app_state(s@) == Some(
                (st.in_foreground, st.is_finishing, st.is_destroyed, opt_str_view(st.package_name)),
            ),
            None => parse_app_state(s@) is None,
        },
{
    proof {
        assert(s@.skip(0) =~= s@);
    }
    match match_lit(s, 0, "{\"inForeground\":") {
        Some(i1) => {
            proof {
                assert(s@.skip(0).skip("{\"inForeground\":"@.len() as int) =~= s@.skip(i1 as int));
            }
            match read_bool(s, i1) {
                Some((f, i2)) => match match_lit(s, i2, ",\"isFinishing\":") {
                    Some(i3) => {
                        proof {
                            assert(s@.skip(i2 as int).skip(",\"isFinishing\":"@.len() as int)
                                =~= s@.skip(i3 as int));
                        }
                        match read_bool(s, i3) {
                            Some((fin, i4)) => match decode_state_destroyed(s, i4) {
                                Some((d, p)) => Some(
                                    AppState {
                                        in_foreground: f,
                                        is_finishing: fin,
                                        is_destroyed: d,
                                        package_name: p,
                                    },
                                ),
                                None => None,
                            },
                            None => None,
                        }
                    },
                    None => None,
                },
                None => None,
            }
        },
        None => None,
    }
}

} // verus!
